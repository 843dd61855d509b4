use crate::domain::encoding::VideoCodec;
use vstd::prelude::*;

verus! {

/// Memory layout of a raw video frame.
#[derive(Debug, Clone, Copy, PartialEq, Eq, Structural)]
pub enum PixelFormat {
    Rgba,
    Bgra,
    Nv12,
    I420,
}

/// One unit of raw captured data. It has one owner at a time: the capture
/// side until it is offered to the frame buffer, then the buffer, then the
/// encode stage that takes it out.
#[derive(Debug, PartialEq, Eq)]
pub enum Sample {
    Video { width: u32, height: u32, format: PixelFormat, timestamp: u64, payload: Vec<u8> },
    Audio { sample_rate: u32, channels: u16, timestamp: u64, payload: Vec<u8> },
}

/// One unit of compressed output, ready for the transport.
#[derive(Debug, PartialEq, Eq)]
pub struct EncodedPacket {
    pub codec: VideoCodec,
    /// The presentation time of the sample the packet was made from.
    pub timestamp: u64,
    pub keyframe: bool,
    pub payload: Vec<u8>,
}

impl Sample {
    pub open spec fn spec_timestamp(&self) -> u64 {
        match self {
            Sample::Video { timestamp, .. } => *timestamp,
            Sample::Audio { timestamp, .. } => *timestamp,
        }
    }

    pub open spec fn spec_is_video(&self) -> bool {
        self is Video
    }

    /// The raw bytes of the sample.
    pub open spec fn bytes(&self) -> Seq<u8> {
        match self {
            Sample::Video { payload, .. } => payload@,
            Sample::Audio { payload, .. } => payload@,
        }
    }

    /// The presentation time of the sample.
    #[verifier::when_used_as_spec(spec_timestamp)]
    pub fn timestamp(&self) -> (timestamp: u64)
        ensures
            timestamp == self.spec_timestamp(),
    {
        match self {
            Sample::Video { timestamp, .. } => *timestamp,
            Sample::Audio { timestamp, .. } => *timestamp,
        }
    }

    #[verifier::when_used_as_spec(spec_is_video)]
    pub fn is_video(&self) -> (video: bool)
        ensures
            video == self.spec_is_video(),
    {
        match self {
            Sample::Video { .. } => true,
            Sample::Audio { .. } => false,
        }
    }

    pub fn payload(&self) -> (payload: &[u8])
        ensures
            payload@ == self.bytes(),
    {
        match self {
            Sample::Video { payload, .. } => payload.as_slice(),
            Sample::Audio { payload, .. } => payload.as_slice(),
        }
    }
}

impl EncodedPacket {
    pub fn payload(&self) -> (payload: &[u8])
        ensures
            payload@ == self.payload@,
    {
        self.payload.as_slice()
    }
}

} // verus!
