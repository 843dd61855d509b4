use crate::application::lifecycle::Stage;
use crate::domain::error::{CaptureError, EncodingError, TransportError};
use vstd::prelude::*;

verus! {

/// A failure raised by one of the stages.
#[derive(Debug, PartialEq, Eq)]
pub enum StageError {
    Capture(CaptureError),
    Encoding(EncodingError),
    Transport(TransportError),
}

/// A failure together with the stage it came from.
#[derive(Debug, PartialEq, Eq)]
pub struct Failure {
    pub stage: Stage,
    pub cause: StageError,
}

/// What a failure means for the session.
#[derive(Debug, Clone, Copy, PartialEq, Eq, Structural)]
pub enum Severity {
    /// The operation is worth trying again.
    Transient,
    /// The unit at hand is lost; the session goes on.
    Degraded,
    /// The session cannot go on.
    Fatal,
}

/// Counters of what a session lost or had to repeat.
#[derive(Debug, Clone, Copy, PartialEq, Eq, Structural)]
pub struct SessionStats {
    /// Samples and packets that never reached the transport.
    pub dropped_frames: u64,
    /// Transmissions that were tried again.
    pub retries: u64,
    /// Failures while stopping that were passed over.
    pub warnings: u64,
}

/// How a failure in steady state is classified when `retries_used`
/// transmissions in a row have failed already and `retry_budget` are
/// allowed.
///
/// A capture device that fails leaves the pipeline without a source, and a
/// lost connection leaves it without a peer: both are fatal, as is an
/// encoder that cannot be initialized. A frame that fails to encode is
/// given up. A transmission that fails is tried again until the budget is
/// used up, and is fatal after that.
pub open spec fn severity_of(cause: StageError, retries_used: nat, retry_budget: nat) -> Severity {
    match cause {
        StageError::Capture(_) => Severity::Fatal,
        StageError::Encoding(EncodingError::ProcessFailed(_)) => Severity::Degraded,
        StageError::Encoding(EncodingError::InitializationFailed(_)) => Severity::Fatal,
        StageError::Transport(TransportError::ConnectionFailed(_)) => Severity::Fatal,
        StageError::Transport(TransportError::TransmissionFailed(_)) => if retries_used
            < retry_budget {
            Severity::Transient
        } else {
            Severity::Fatal
        },
    }
}

/// A counter one step further, staying at its largest value once there.
pub open spec fn bumped(count: u64) -> u64 {
    if count < u64::MAX {
        (count + 1) as u64
    } else {
        count
    }
}

/// A counter `by` steps further, staying at its largest value once there.
pub open spec fn bumped_by(count: u64, by: nat) -> u64 {
    if count + by <= u64::MAX {
        (count + by) as u64
    } else {
        u64::MAX
    }
}

impl StageError {
    /// What a call of a capture device came to, as the outcome of a stage.
    pub open spec fn of_capture(result: Result<(), CaptureError>) -> Result<(), StageError> {
        match result {
            Ok(_) => Ok(()),
            Err(e) => Err(StageError::Capture(e)),
        }
    }

    /// What a call of an encoder came to, as the outcome of a stage.
    pub open spec fn of_encoding(result: Result<(), EncodingError>) -> Result<(), StageError> {
        match result {
            Ok(_) => Ok(()),
            Err(e) => Err(StageError::Encoding(e)),
        }
    }

    /// What a call of a transport came to, as the outcome of a stage.
    pub open spec fn of_transport(result: Result<(), TransportError>) -> Result<(), StageError> {
        match result {
            Ok(_) => Ok(()),
            Err(e) => Err(StageError::Transport(e)),
        }
    }

    /// Takes what a capture device returned: a success stays one, a
    /// failure becomes one of the capture side.
    pub fn from_capture(result: Result<(), CaptureError>) -> (outcome: Result<(), StageError>)
        ensures
            outcome == StageError::of_capture(result),
    {
        match result {
            Ok(_) => Ok(()),
            Err(e) => Err(StageError::Capture(e)),
        }
    }

    /// Takes what an encoder returned: a success stays one, a failure
    /// becomes one of encoding.
    pub fn from_encoding(result: Result<(), EncodingError>) -> (outcome: Result<(), StageError>)
        ensures
            outcome == StageError::of_encoding(result),
    {
        match result {
            Ok(_) => Ok(()),
            Err(e) => Err(StageError::Encoding(e)),
        }
    }

    /// Takes what a transport returned: a success stays one, a failure
    /// becomes one of the transport.
    pub fn from_transport(result: Result<(), TransportError>) -> (outcome: Result<(), StageError>)
        ensures
            outcome == StageError::of_transport(result),
    {
        match result {
            Ok(_) => Ok(()),
            Err(e) => Err(StageError::Transport(e)),
        }
    }

    /// The description supplied by the collaborator.
    pub open spec fn detail_view(self) -> Seq<char> {
        match self {
            StageError::Capture(e) => e.detail_view(),
            StageError::Encoding(e) => e.detail_view(),
            StageError::Transport(e) => e.detail_view(),
        }
    }

    pub open spec fn message_view(self) -> Seq<char> {
        match self {
            StageError::Capture(e) => e.message_view(),
            StageError::Encoding(e) => e.message_view(),
            StageError::Transport(e) => e.message_view(),
        }
    }

    pub fn detail(&self) -> (text: &str)
        ensures
            text@ == self.detail_view(),
    {
        match self {
            StageError::Capture(e) => e.detail(),
            StageError::Encoding(e) => e.detail(),
            StageError::Transport(e) => e.detail(),
        }
    }

    /// The message of the underlying error.
    pub fn message(&self) -> (text: String)
        ensures
            text@ == self.message_view(),
    {
        match self {
            StageError::Capture(e) => e.message(),
            StageError::Encoding(e) => e.message(),
            StageError::Transport(e) => e.message(),
        }
    }
}

impl Clone for StageError {
    fn clone(&self) -> (copy: Self)
        ensures
            copy == *self,
    {
        match self {
            StageError::Capture(e) => StageError::Capture(e.clone()),
            StageError::Encoding(e) => StageError::Encoding(e.clone()),
            StageError::Transport(e) => StageError::Transport(e.clone()),
        }
    }
}

impl Failure {
    /// Whether the cause is of the kind its stage raises: the transport
    /// fails as a transport, the encoder as an encoder, and video and audio
    /// capture as capture.
    pub open spec fn of_its_stage(self) -> bool {
        match self.stage {
            Stage::Transport => self.cause is Transport,
            Stage::Encoder => self.cause is Encoding,
            Stage::Capture => self.cause is Capture,
            Stage::Audio => self.cause is Capture,
        }
    }
}

impl Clone for Failure {
    fn clone(&self) -> (copy: Self)
        ensures
            copy == *self,
    {
        Failure { stage: self.stage, cause: self.cause.clone() }
    }
}

impl SessionStats {
    pub open spec fn zero() -> Self {
        SessionStats { dropped_frames: 0, retries: 0, warnings: 0 }
    }
}

/// Decides what each steady-state failure means and keeps the session's
/// counters.
#[derive(Debug, Clone, Copy, PartialEq, Eq)]
pub struct ErrorSupervisor {
    retry_budget: u32,
    retries_used: u32,
    stats: SessionStats,
}

impl ErrorSupervisor {
    pub closed spec fn spec_retry_budget(&self) -> u32 {
        self.retry_budget
    }

    pub closed spec fn spec_retries_used(&self) -> u32 {
        self.retries_used
    }

    pub closed spec fn spec_stats(&self) -> SessionStats {
        self.stats
    }

    /// No more retries are on record than the budget allows.
    pub closed spec fn wf(&self) -> bool {
        self.retries_used <= self.retry_budget
    }

    /// A supervisor with all counters at zero.
    pub fn new(retry_budget: u32) -> (supervisor: Self)
        ensures
            supervisor.wf(),
            supervisor.retry_budget() == retry_budget,
            supervisor.retries_used() == 0,
            supervisor.stats() == SessionStats::zero(),
    {
        ErrorSupervisor {
            retry_budget,
            retries_used: 0,
            stats: SessionStats { dropped_frames: 0, retries: 0, warnings: 0 },
        }
    }

    #[verifier::when_used_as_spec(spec_retry_budget)]
    pub fn retry_budget(&self) -> (budget: u32)
        ensures
            budget == self.spec_retry_budget(),
    {
        self.retry_budget
    }

    /// How many transmissions in a row have failed and been tried again.
    #[verifier::when_used_as_spec(spec_retries_used)]
    pub fn retries_used(&self) -> (used: u32)
        ensures
            used == self.spec_retries_used(),
    {
        self.retries_used
    }

    #[verifier::when_used_as_spec(spec_stats)]
    pub fn stats(&self) -> (stats: SessionStats)
        ensures
            stats == self.spec_stats(),
    {
        self.stats
    }

    /// What `cause` means now, without taking note of it.
    pub fn classify(&self, cause: &StageError) -> (severity: Severity)
        ensures
            severity == severity_of(
                *cause,
                self.retries_used() as nat,
                self.retry_budget() as nat,
            ),
    {
        match cause {
            StageError::Capture(_) => Severity::Fatal,
            StageError::Encoding(EncodingError::ProcessFailed(_)) => Severity::Degraded,
            StageError::Encoding(EncodingError::InitializationFailed(_)) => Severity::Fatal,
            StageError::Transport(TransportError::ConnectionFailed(_)) => Severity::Fatal,
            StageError::Transport(TransportError::TransmissionFailed(_)) => {
                if self.retries_used < self.retry_budget {
                    Severity::Transient
                } else {
                    Severity::Fatal
                }
            },
        }
    }

    /// Classifies `cause` and takes note of it: a transient failure uses up
    /// one retry and is counted as one, a degraded one is counted as a
    /// dropped frame, a fatal one changes nothing.
    pub fn report(&mut self, cause: &StageError) -> (severity: Severity)
        requires
            old(self).wf(),
        ensures
            final(self).wf(),
            severity == severity_of(
                *cause,
                old(self).retries_used() as nat,
                old(self).retry_budget() as nat,
            ),
            final(self).retry_budget() == old(self).retry_budget(),
            final(self).retries_used() == if severity == Severity::Transient {
                old(self).retries_used() + 1
            } else {
                old(self).retries_used() as int
            },
            final(self).stats() == match severity {
                Severity::Transient => SessionStats {
                    retries: bumped(old(self).stats().retries),
                    ..old(self).stats()
                },
                Severity::Degraded => SessionStats {
                    dropped_frames: bumped(old(self).stats().dropped_frames),
                    ..old(self).stats()
                },
                Severity::Fatal => old(self).stats(),
            },
    {
        let severity = self.classify(cause);
        match severity {
            Severity::Transient => {
                self.retries_used = self.retries_used + 1;
                self.stats.retries = self.stats.retries.saturating_add(1);
            },
            Severity::Degraded => {
                self.stats.dropped_frames = self.stats.dropped_frames.saturating_add(1);
            },
            Severity::Fatal => {},
        }
        severity
    }

    /// Takes note that an operation succeeded: the retries start over.
    pub fn succeeded(&mut self)
        ensures
            final(self).wf(),
            final(self).retry_budget() == old(self).retry_budget(),
            final(self).retries_used() == 0,
            final(self).stats() == old(self).stats(),
    {
        self.retries_used = 0;
    }

    /// Counts `count` units as lost.
    pub fn note_dropped(&mut self, count: usize)
        requires
            old(self).wf(),
        ensures
            final(self).wf(),
            final(self).retry_budget() == old(self).retry_budget(),
            final(self).retries_used() == old(self).retries_used(),
            final(self).stats() == (SessionStats {
                dropped_frames: bumped_by(old(self).stats().dropped_frames, count as nat),
                ..old(self).stats()
            }),
    {
        self.stats.dropped_frames = self.stats.dropped_frames.saturating_add(count as u64);
    }

    /// Counts one failure that was passed over while stopping.
    pub fn note_warning(&mut self)
        requires
            old(self).wf(),
        ensures
            final(self).wf(),
            final(self).retry_budget() == old(self).retry_budget(),
            final(self).retries_used() == old(self).retries_used(),
            final(self).stats() == (SessionStats {
                warnings: bumped(old(self).stats().warnings),
                ..old(self).stats()
            }),
    {
        self.stats.warnings = self.stats.warnings.saturating_add(1);
    }
}

} // verus!
