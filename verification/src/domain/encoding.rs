use crate::domain::error::{ConfigError, ConfigField, EncodingError};
use vstd::prelude::*;

verus! {

/// The compression formats an encoder may be asked for.
#[derive(Debug, Clone, Copy, PartialEq, Eq, Structural)]
pub enum VideoCodec {
    H264,
    H265,
    AV1,
}

/// What an encoder is initialized with.
#[derive(Debug, Clone, Copy, PartialEq, Eq, Structural)]
pub struct EncodingParameters {
    pub codec: VideoCodec,
    pub bitrate_kbps: u32,
    /// Distance between two keyframes, counted in frames.
    pub gop_size: u32,
}

/// An encoder of raw frames.
///
/// The pipeline assumes nothing about the results of these calls.
pub trait MediaEncoder: Send + Sync {
    fn initialize(&self, params: EncodingParameters) -> Result<(), EncodingError>;

    fn encode_frame(&self, frame: &[u8]) -> Result<Vec<u8>, EncodingError>;

    fn is_encoding_active(&self) -> bool;
}

impl EncodingParameters {
    /// The first parameter, in declaration order, that is zero.
    pub open spec fn first_invalid(self) -> Option<ConfigField> {
        if self.bitrate_kbps == 0 {
            Some(ConfigField::Bitrate)
        } else if self.gop_size == 0 {
            Some(ConfigField::GopSize)
        } else {
            None
        }
    }

    /// Bitrate and keyframe distance are both positive.
    pub open spec fn is_valid(self) -> bool {
        self.bitrate_kbps > 0 && self.gop_size > 0
    }

    pub fn validate(&self) -> (outcome: Result<(), ConfigError>)
        ensures
            outcome is Ok <==> self.is_valid(),
            outcome matches Err(e) ==> self.first_invalid() == Some(e.field_view()),
    {
        if self.bitrate_kbps == 0 {
            Err(ConfigError::InvalidConfig(ConfigField::Bitrate))
        } else if self.gop_size == 0 {
            Err(ConfigError::InvalidConfig(ConfigField::GopSize))
        } else {
            Ok(())
        }
    }
}

} // verus!
