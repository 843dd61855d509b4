use crate::application::lifecycle::Stage;
use crate::application::media::Sample;
use crate::application::session::{Admission, Progress, Pull, Session};
use crate::application::supervisor::StageError;
use crate::domain::capture::{
    AudioCapture, AudioConfig, CaptureConfig, CaptureSource, MediaCapture,
};
use crate::domain::encoding::{EncodingParameters, MediaEncoder};
use crate::domain::error::{CaptureError, EncodingError};
use crate::domain::transport::MediaTransport;
use vstd::prelude::*;
use vstd::string::*;

verus! {

/// The capture side of a pipeline: a video device and an audio device.
pub struct CaptureStage<C: MediaCapture, A: AudioCapture> {
    video: C,
    audio: A,
}

/// The encoder of a pipeline.
pub struct EncodeStage<E: MediaEncoder> {
    encoder: E,
}

/// The transport of a pipeline.
pub struct TransportStage<T: MediaTransport> {
    transport: T,
}

/// What the capture stage tells of a frame buffer that stayed full.
pub open spec fn frame_stall() -> Seq<char> {
    "frame buffer stayed full"@
}

/// What the encode stage tells of a packet buffer that stayed full.
pub open spec fn packet_stall() -> Seq<char> {
    "packet buffer stayed full"@
}

impl<C: MediaCapture, A: AudioCapture> CaptureStage<C, A> {
    pub closed spec fn spec_video(&self) -> &C {
        &self.video
    }

    pub closed spec fn spec_audio(&self) -> &A {
        &self.audio
    }

    /// A capture stage around the two devices.
    pub fn new(video: C, audio: A) -> (stage: Self)
        ensures
            stage.video() == video,
            stage.audio() == audio,
    {
        CaptureStage { video, audio }
    }

    /// The video device, to ask it how it is.
    #[verifier::when_used_as_spec(spec_video)]
    pub fn video(&self) -> (device: &C)
        ensures
            device == self.spec_video(),
    {
        &self.video
    }

    /// The audio device, to ask it how it is.
    #[verifier::when_used_as_spec(spec_audio)]
    pub fn audio(&self) -> (device: &A)
        ensures
            device == self.spec_audio(),
    {
        &self.audio
    }

    /// Initializes the video device with `source` and `config` and, if
    /// that worked, starts it. Whatever the device returns, a failure is
    /// one of the capture side.
    pub fn bring_up_video(&self, source: CaptureSource, config: CaptureConfig) -> (outcome: Result<
        (),
        StageError,
    >)
        ensures
            outcome matches Err(cause) ==> cause is Capture,
    {
        match StageError::from_capture(self.video.initialize(source, config)) {
            Err(cause) => Err(cause),
            Ok(_) => StageError::from_capture(self.video.start_capture()),
        }
    }

    /// Initializes the audio device with `config` and, if that worked,
    /// starts it. Whatever the device returns, a failure is one of the
    /// capture side.
    pub fn bring_up_audio(&self, config: AudioConfig) -> (outcome: Result<(), StageError>)
        ensures
            outcome matches Err(cause) ==> cause is Capture,
    {
        match StageError::from_capture(self.audio.initialize_audio(config)) {
            Err(cause) => Err(cause),
            Ok(_) => StageError::from_capture(self.audio.start_audio_capture()),
        }
    }

    /// Stops the video device. Whatever the device returns, a failure is
    /// one of the capture side.
    pub fn shut_down_video(&self) -> (outcome: Result<(), StageError>)
        ensures
            outcome matches Err(cause) ==> cause is Capture,
    {
        StageError::from_capture(self.video.stop_capture())
    }

    /// Offers a captured sample to the session.
    pub fn deliver(&self, session: &mut Session, sample: Sample) -> (admission: Admission)
        requires
            old(session).wf(),
        ensures
            final(session).wf(),
            final(session)@ == old(session)@.after_offer(sample),
            admission == old(session)@.offer_result(sample),
    {
        session.offer_sample(sample)
    }

    /// Gives up waiting for room in a frame buffer that blocks: the device
    /// has in effect stopped delivering, which the session takes as the end
    /// of its source, in whatever state it is.
    pub fn give_up_waiting(&self, session: &mut Session) -> (progress: Progress)
        requires
            old(session).wf(),
        ensures
            final(session).wf(),
            exists|detail: String|
                detail@ == frame_stall() && final(session)@ == #[trigger] old(session)@.after_report(
                    Stage::Capture,
                    StageError::Capture(CaptureError::UnexpectedStop(detail)),
                ),
            progress == Progress::Faulted,
    {
        let detail = String::from_str("frame buffer stayed full");
        let ghost told = detail;
        let progress = session.report_failure(
            Stage::Capture,
            StageError::Capture(CaptureError::UnexpectedStop(detail)),
        );
        proof {
            assert(session@ == old(session)@.after_report(
                Stage::Capture,
                StageError::Capture(CaptureError::UnexpectedStop(told)),
            ));
        }
        progress
    }
}

impl<E: MediaEncoder> EncodeStage<E> {
    pub closed spec fn spec_encoder(&self) -> &E {
        &self.encoder
    }

    /// An encode stage around the encoder.
    pub fn new(encoder: E) -> (stage: Self)
        ensures
            stage.encoder() == encoder,
    {
        EncodeStage { encoder }
    }

    /// The encoder, to ask it how it is.
    #[verifier::when_used_as_spec(spec_encoder)]
    pub fn encoder(&self) -> (encoder: &E)
        ensures
            encoder == self.spec_encoder(),
    {
        &self.encoder
    }

    /// Initializes the encoder with `params`. Whatever the encoder
    /// returns, a failure is one of encoding.
    pub fn bring_up(&self, params: EncodingParameters) -> (outcome: Result<(), StageError>)
        ensures
            outcome matches Err(cause) ==> cause is Encoding,
    {
        StageError::from_encoding(self.encoder.initialize(params))
    }

    /// Makes one move: takes the oldest sample from the session, has the
    /// encoder encode its bytes and hands the session what came back. No
    /// sample is taken while the packet buffer blocks.
    pub fn step(&self, session: &mut Session) -> (progress: Progress)
        requires
            old(session).wf(),
        ensures
            final(session).wf(),
            old(session)@.encode_step(final(session)@, progress),
    {
        if session.is_flowing() && session.packets_blocked() {
            return Progress::Blocked;
        }
        match session.take_frame() {
            Pull::Frame(sample) => {
                let result = self.encoder.encode_frame(sample.payload());
                let ghost taken = sample;
                let ghost returned = result;
                let progress = session.frame_encoded(sample, result);
                proof {
                    assert(session@ == old(session)@.after_pull().after_encoded(taken, returned));
                }
                progress
            },
            _ => Progress::Idle,
        }
    }

    /// Gives up waiting for room in a packet buffer that blocks: the
    /// sample the stage would have encoded next is taken from the session
    /// and reported as failed.
    pub fn give_up_waiting(&self, session: &mut Session) -> (progress: Progress)
        requires
            old(session).wf(),
        ensures
            final(session).wf(),
            match old(session)@.pull_result() {
                Pull::Frame(sample) => exists|detail: String|
                    detail@ == packet_stall() && final(session)@ == #[trigger] old(session)@.after_pull().after_encoded(
                        sample,
                        Err(EncodingError::ProcessFailed(detail)),
                    ) && progress == old(session)@.after_pull().encoded_progress(
                        sample,
                        Err(EncodingError::ProcessFailed(detail)),
                    ),
                _ => final(session)@ == old(session)@ && progress == Progress::Idle,
            },
    {
        match session.take_frame() {
            Pull::Frame(sample) => {
                let detail = String::from_str("packet buffer stayed full");
                let ghost taken = sample;
                let ghost told = detail;
                let progress = session.frame_encoded(
                    sample,
                    Err(EncodingError::ProcessFailed(detail)),
                );
                proof {
                    assert(session@ == old(session)@.after_pull().after_encoded(
                        taken,
                        Err(EncodingError::ProcessFailed(told)),
                    ));
                }
                progress
            },
            _ => Progress::Idle,
        }
    }
}

impl<T: MediaTransport> TransportStage<T> {
    pub closed spec fn spec_transport(&self) -> &T {
        &self.transport
    }

    /// A transport stage around the transport.
    pub fn new(transport: T) -> (stage: Self)
        ensures
            stage.transport() == transport,
    {
        TransportStage { transport }
    }

    /// The transport, to ask it how it is.
    #[verifier::when_used_as_spec(spec_transport)]
    pub fn transport(&self) -> (transport: &T)
        ensures
            transport == self.spec_transport(),
    {
        &self.transport
    }

    /// Connects the transport to `endpoint`. Whatever the transport
    /// returns, a failure is one of the transport.
    pub fn bring_up(&self, endpoint: &str) -> (outcome: Result<(), StageError>)
        ensures
            outcome matches Err(cause) ==> cause is Transport,
    {
        StageError::from_transport(self.transport.connect(endpoint))
    }

    /// Makes one move: has the transport send the bytes of the oldest
    /// packet and hands the session what came back. Packets go out in the
    /// order in which they were queued.
    pub fn step(&self, session: &mut Session) -> (progress: Progress)
        requires
            old(session).wf(),
        ensures
            final(session).wf(),
            old(session)@.send_step(final(session)@, progress),
    {
        let result = match session.next_packet() {
            Some(packet) => self.transport.send_packet(packet.payload()),
            None => {
                return Progress::Idle;
            },
        };
        let ghost returned = result;
        let progress = session.packet_sent(result);
        proof {
            assert(session@ == old(session)@.after_sent(returned));
        }
        progress
    }
}

} // verus!
