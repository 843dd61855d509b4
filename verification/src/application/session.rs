use crate::application::buffer::{
    contents_after_push, oldest_of, outcome_of_push, BackpressurePolicy, BoundedBuffer,
    PushOutcome,
};
use crate::application::config::{FlowSettings, PipelineConfig};
use crate::application::lifecycle::{
    bring_ups, shutdowns, stage_at, stage_count, teardown, Goal, Lifecycle, LifecycleView,
    PipelineState, Stage, Step,
};
use crate::application::media::{EncodedPacket, Sample};
use crate::application::supervisor::{
    bumped, bumped_by, severity_of, ErrorSupervisor, Failure, SessionStats, Severity, StageError,
};
use crate::domain::capture::{AudioConfig, CaptureConfig, CaptureSource};
use crate::domain::encoding::EncodingParameters;
use crate::domain::error::{ConfigError, EncodingError, TransportError};
use vstd::prelude::*;

verus! {

/// The buffer between capture and encoder.
pub type FrameBuffer = BoundedBuffer<Sample>;

/// The buffer between encoder and transport.
pub type PacketBuffer = BoundedBuffer<EncodedPacket>;

/// Why a request to the session was turned down.
#[derive(Debug, PartialEq, Eq)]
pub enum PipelineError {
    /// The configuration is unusable. Nothing was changed.
    Config(ConfigError),
    /// The request has no meaning in the state the session is in, which is
    /// carried here. Nothing was changed.
    NotPermitted(PipelineState),
    /// A stage failed beyond recovery. The session is faulted.
    Fatal(Failure),
}

/// What became of a sample offered to the session.
#[derive(Debug, PartialEq, Eq)]
pub enum Admission {
    /// The sample is queued; nothing was lost.
    Accepted,
    /// The sample is queued in place of the oldest one, carried here.
    Displaced(Sample),
    /// The frame buffer is full and blocks: the sample comes back.
    Refused(Sample),
    /// The session is not running: the sample comes back.
    NotRunning(Sample),
}

/// What the encode stage finds when it asks for work.
#[derive(Debug, PartialEq, Eq)]
pub enum Pull {
    /// The oldest sample, now owned by the encode stage.
    Frame(Sample),
    /// No sample is waiting.
    Empty,
    /// The session is neither running nor draining.
    Closed,
}

/// What one move of a stage came to.
#[derive(Debug, Clone, Copy, PartialEq, Eq, Structural)]
pub enum Progress {
    /// There was nothing to do.
    Idle,
    /// One unit moved one stage further.
    Advanced,
    /// One unit was given up; the session goes on.
    Skipped,
    /// The buffer downstream is full and blocks.
    Blocked,
    /// The operation failed and is worth trying again; this is retry
    /// number `attempt` in a row.
    RetryLater { attempt: u32 },
    /// The session is faulted.
    Faulted,
}

/// Where the encoder stands in its group of pictures after one more
/// video frame: back at the start once `gop_size` frames are through.
pub open spec fn next_gop_position(position: nat, gop_size: nat) -> nat {
    if position + 1 >= gop_size {
        0
    } else {
        position + 1
    }
}

/// A step that was taken, with what came of it.
pub struct StepRecord {
    pub step: Step,
    pub outcome: Result<(), StageError>,
}

/// A move of the encode or the transport stage, with what came of it.
pub enum MoveRecord {
    /// The encoder was handed the sample and returned the result.
    Encoded { sample: Sample, result: Result<Vec<u8>, EncodingError> },
    /// The transport was handed the oldest packet and returned the result.
    Sent { outcome: Result<(), TransportError> },
}

/// One thing that happens to a running session: its producer offers a
/// sample, or one of its stages makes a move.
pub enum FlowEvent {
    Offered { sample: Sample },
    Made { made: MoveRecord },
}

/// Whether every move among the events came to a success.
pub open spec fn all_moves_succeeded(events: Seq<FlowEvent>) -> bool {
    forall|i: int|
        0 <= i < events.len() ==> (#[trigger] events[i] matches FlowEvent::Made { made }
            ==> succeeded(made))
}

/// Whether a move came to a success.
pub open spec fn succeeded(made: MoveRecord) -> bool {
    match made {
        MoveRecord::Encoded { result, .. } => result is Ok,
        MoveRecord::Sent { outcome } => outcome is Ok,
    }
}

/// Whether every one of the moves came to a success.
pub open spec fn all_succeeded(moves: Seq<MoveRecord>) -> bool {
    forall|i: int| 0 <= i < moves.len() ==> succeeded(#[trigger] moves[i])
}

/// The presentation times of samples, in their order.
pub open spec fn times_of_samples(samples: Seq<Sample>) -> Seq<u64> {
    Seq::new(samples.len(), |i: int| samples[i].timestamp())
}

/// The presentation times of packets, in their order.
pub open spec fn times_of_packets(packets: Seq<EncodedPacket>) -> Seq<u64> {
    Seq::new(packets.len(), |i: int| packets[i].timestamp)
}

/// What a step asks of a collaborator, with everything that is handed over.
#[derive(Debug, PartialEq, Eq)]
pub enum StageCall {
    /// Connect the transport to the endpoint.
    Connect(String),
    /// Initialize the encoder with the parameters.
    InitializeEncoder(EncodingParameters),
    /// Initialize the video device for the source and geometry, and start it.
    StartVideo(CaptureSource, CaptureConfig),
    /// Initialize the audio device for the format, and start it.
    StartAudio(AudioConfig),
    /// Stop the video device.
    StopVideo,
    /// Move what is buffered through encoder and transport.
    Drain,
    /// Nothing: the stage is let go of without a call.
    LetGo,
}

/// The steps of a run, without what came of them.
pub open spec fn steps_of(records: Seq<StepRecord>) -> Seq<Step> {
    Seq::new(records.len(), |i: int| records[i].step)
}

/// Whether `taken` is what a start with the given end takes. A start
/// that ends without a fault has brought up every stage in order, each
/// once and with success. A start that ends with a fault has brought up
/// the stages before the one that failed, has had the failure from that
/// stage, has shut the stages before it down once each, the last brought
/// up first, and has touched no stage after it.
pub open spec fn start_taken(audio: bool, taken: Seq<StepRecord>, fault: Option<Failure>) -> bool {
    match fault {
        None => {
            &&& steps_of(taken) == bring_ups(stage_count(audio))
            &&& forall|i: int| 0 <= i < taken.len() ==> (#[trigger] taken[i]).outcome is Ok
        },
        Some(failure) => {
            let up = ((taken.len() - 1) / 2) as nat;
            &&& up < stage_count(audio)
            &&& failure.stage == stage_at(up)
            &&& taken[up as int].outcome == Err::<(), StageError>(failure.cause)
            &&& steps_of(taken) == bring_ups(up + 1) + shutdowns(up)
            &&& forall|i: int| 0 <= i < up ==> (#[trigger] taken[i]).outcome is Ok
        },
    }
}

/// The state of a session as a value.
pub struct SessionView {
    pub lifecycle: LifecycleView,
    pub settings: FlowSettings,
    pub config: Option<PipelineConfig>,
    /// Samples waiting to be encoded, oldest first.
    pub frames: Seq<Sample>,
    /// Packets waiting to be sent, oldest first.
    pub packets: Seq<EncodedPacket>,
    pub stats: SessionStats,
    /// How many transmissions in a row have failed and been tried again.
    pub retries_used: nat,
    /// How many video frames of the current group of pictures are encoded.
    pub gop_position: nat,
    /// The failure that faulted the session.
    pub fault: Option<Failure>,
    /// Every step taken since the session was made, oldest first.
    pub journal: Seq<StepRecord>,
    /// Every move of the encode and the transport stage since the session
    /// was made, oldest first.
    pub moves: Seq<MoveRecord>,
}

impl SessionView {
    /// What holds of every session.
    pub open spec fn wf(self) -> bool {
        &&& self.lifecycle.wf()
        &&& self.frames.len() <= self.settings.frame_capacity
        &&& self.packets.len() <= self.settings.packet_capacity
        &&& self.retries_used <= self.settings.retry_budget
        &&& self.lifecycle.state == PipelineState::Idle ==> self.config is None
        &&& self.config is None ==> self.lifecycle.held == 0 && (self.lifecycle.state
            == PipelineState::Idle || self.lifecycle.state == PipelineState::Faulted)
        &&& self.config matches Some(config) ==> {
            &&& config.is_valid()
            &&& self.lifecycle.audio == (config.audio is Some)
            &&& self.gop_position < config.encoding.gop_size
        }
        &&& (self.fault is Some <==> self.lifecycle.state == PipelineState::Faulted)
        &&& self.lifecycle.state == PipelineState::Idle ==> {
            &&& self.frames.len() == 0
            &&& self.packets.len() == 0
            &&& self.gop_position == 0
            &&& self.retries_used == 0
        }
    }

    /// A session before its first configuration.
    pub open spec fn fresh(settings: FlowSettings) -> Self {
        SessionView {
            lifecycle: LifecycleView::idle(),
            settings,
            config: None,
            frames: Seq::<Sample>::empty(),
            packets: Seq::<EncodedPacket>::empty(),
            stats: SessionStats::zero(),
            retries_used: 0,
            gop_position: 0,
            fault: None,
            journal: Seq::<StepRecord>::empty(),
            moves: Seq::<MoveRecord>::empty(),
        }
    }

    /// What `step` asks of a collaborator under the configuration in
    /// force: the transport is handed the endpoint, the encoder its
    /// parameters, the video device source and geometry, the audio device
    /// its format. Only the video device is told when it is shut down.
    pub open spec fn call_of(self, step: Step) -> StageCall {
        match step {
            Step::BringUp(stage) => match self.config {
                Some(config) => match stage {
                    Stage::Transport => StageCall::Connect(config.endpoint),
                    Stage::Encoder => StageCall::InitializeEncoder(config.encoding),
                    Stage::Capture => StageCall::StartVideo(config.source, config.video),
                    Stage::Audio => match config.audio {
                        Some(audio) => StageCall::StartAudio(audio),
                        None => StageCall::LetGo,
                    },
                },
                None => StageCall::LetGo,
            },
            Step::Drain => StageCall::Drain,
            Step::Shutdown(Stage::Capture) => StageCall::StopVideo,
            Step::Shutdown(_) => StageCall::LetGo,
        }
    }

    /// Whether `records` is a run of this session: each step the one the
    /// lifecycle asked for at its turn.
    pub open spec fn runs(self, records: Seq<StepRecord>) -> bool
        decreases records.len(),
    {
        if records.len() == 0 {
            true
        } else {
            &&& self.lifecycle.next_step() == Some(records[0].step)
            &&& self.after_step(records[0].step, records[0].outcome).runs(records.drop_first())
        }
    }

    /// The session after the steps of `records` were taken in turn.
    pub open spec fn after_steps(self, records: Seq<StepRecord>) -> Self
        decreases records.len(),
    {
        if records.len() == 0 {
            self
        } else {
            self.after_step(records[0].step, records[0].outcome).after_steps(
                records.drop_first(),
            )
        }
    }

    /// The steps `end` has on record beyond those of this session.
    pub open spec fn steps_until(self, end: Self) -> Seq<StepRecord> {
        end.journal.skip(self.journal.len() as int)
    }

    /// Whether `end` is where a run of steps has brought the lifecycle of
    /// this session, with each step of the run on record in `end` behind
    /// what was on record before.
    pub open spec fn ran_to(self, end: Self) -> bool {
        &&& self.journal.len() <= end.journal.len()
        &&& end.journal == self.journal + self.steps_until(end)
        &&& self.runs(self.steps_until(end))
        &&& end.lifecycle == self.after_steps(self.steps_until(end)).lifecycle
    }

    /// Whether `end` is this session after a run of steps, all on record
    /// in `end`, and nothing else.
    pub open spec fn ran_exactly_to(self, end: Self) -> bool {
        &&& self.ran_to(end)
        &&& end == self.after_steps(self.steps_until(end))
    }

    /// Whether a failure that `end` keeps and this session did not is one
    /// of a stage of the configuration, and of the kind that stage raises.
    pub open spec fn faults_in_kind(self, end: Self) -> bool {
        end.fault == self.fault || (end.fault matches Some(failure) && failure.of_its_stage() && (
        failure.stage == Stage::Audio ==> self.lifecycle.audio))
    }

    /// The session after a move of a stage: the oldest sample taken and
    /// what the encoder returned for it, or what the transport returned for
    /// the oldest packet.
    pub open spec fn after_move(self, made: MoveRecord) -> Self {
        match made {
            MoveRecord::Encoded { sample, result } => self.after_pull().after_encoded(
                sample,
                result,
            ),
            MoveRecord::Sent { outcome } => self.after_sent(outcome),
        }
    }

    /// Whether `made` is the move a drain makes next: the oldest packet to
    /// the transport if a packet is waiting, else the oldest sample to the
    /// encoder if the packet buffer does not turn it away.
    pub open spec fn drain_makes(self, made: MoveRecord) -> bool {
        match made {
            MoveRecord::Sent { .. } => self.packets.len() > 0,
            MoveRecord::Encoded { sample, .. } => {
                &&& self.packets.len() == 0
                &&& !self.packets_blocked()
                &&& self.frames.len() > 0
                &&& sample == self.frames.first()
            },
        }
    }

    /// Whether `moves` are moves of a drain of this session, one after the
    /// other.
    pub open spec fn drain_moves(self, moves: Seq<MoveRecord>) -> bool
        decreases moves.len(),
    {
        if moves.len() == 0 {
            true
        } else {
            &&& self.drain_makes(moves[0])
            &&& self.after_move(moves[0]).drain_moves(moves.drop_first())
        }
    }

    /// The session after the moves of `moves` were made in turn.
    pub open spec fn after_moves(self, moves: Seq<MoveRecord>) -> Self
        decreases moves.len(),
    {
        if moves.len() == 0 {
            self
        } else {
            self.after_move(moves[0]).after_moves(moves.drop_first())
        }
    }

    /// The packets that the transport took over in the course of `moves`,
    /// in the order in which it took them.
    pub open spec fn delivered_in(self, moves: Seq<MoveRecord>) -> Seq<EncodedPacket>
        decreases moves.len(),
    {
        if moves.len() == 0 {
            Seq::<EncodedPacket>::empty()
        } else {
            let first = match moves[0] {
                MoveRecord::Sent { outcome } => if outcome is Ok && self.next_packet() is Some {
                    seq![self.packets.first()]
                } else {
                    Seq::<EncodedPacket>::empty()
                },
                _ => Seq::<EncodedPacket>::empty(),
            };
            first + self.after_move(moves[0]).delivered_in(moves.drop_first())
        }
    }

    /// Whether `made` is a move a stage of this session can make now: the
    /// transport with a packet at hand, the encoder with the oldest sample
    /// unless the packet buffer turns it away.
    pub open spec fn can_make(self, made: MoveRecord) -> bool {
        match made {
            MoveRecord::Sent { .. } => self.next_packet() is Some,
            MoveRecord::Encoded { sample, .. } => {
                &&& !(self.flowing() && self.packets_blocked())
                &&& self.pull_result() == Pull::Frame(sample)
            },
        }
    }

    /// The session after one event.
    pub open spec fn after_event(self, event: FlowEvent) -> Self {
        match event {
            FlowEvent::Offered { sample } => self.after_offer(sample),
            FlowEvent::Made { made } => self.after_move(made),
        }
    }

    /// Whether `events` can happen to this session one after the other.
    pub open spec fn flows_through(self, events: Seq<FlowEvent>) -> bool
        decreases events.len(),
    {
        if events.len() == 0 {
            true
        } else {
            &&& events[0] matches FlowEvent::Made { made } ==> self.can_make(made)
            &&& self.after_event(events[0]).flows_through(events.drop_first())
        }
    }

    /// The session after the events happened in turn.
    pub open spec fn after_events(self, events: Seq<FlowEvent>) -> Self
        decreases events.len(),
    {
        if events.len() == 0 {
            self
        } else {
            self.after_event(events[0]).after_events(events.drop_first())
        }
    }

    /// The samples among the offered ones that the frame buffer let in,
    /// in the order offered.
    pub open spec fn admitted_in(self, events: Seq<FlowEvent>) -> Seq<Sample>
        decreases events.len(),
    {
        if events.len() == 0 {
            Seq::<Sample>::empty()
        } else {
            let first = match events[0] {
                FlowEvent::Offered { sample } => match self.offer_result(sample) {
                    Admission::Accepted => seq![sample],
                    Admission::Displaced(_) => seq![sample],
                    _ => Seq::<Sample>::empty(),
                },
                _ => Seq::<Sample>::empty(),
            };
            first + self.after_event(events[0]).admitted_in(events.drop_first())
        }
    }

    /// The packets that the transport took over in the course of the
    /// events, in the order in which it took them.
    pub open spec fn delivered_over(self, events: Seq<FlowEvent>) -> Seq<EncodedPacket>
        decreases events.len(),
    {
        if events.len() == 0 {
            Seq::<EncodedPacket>::empty()
        } else {
            let first = match events[0] {
                FlowEvent::Made { made: MoveRecord::Sent { outcome } } => if outcome is Ok
                    && self.next_packet() is Some {
                    seq![self.packets.first()]
                } else {
                    Seq::<EncodedPacket>::empty()
                },
                _ => Seq::<EncodedPacket>::empty(),
            };
            first + self.after_event(events[0]).delivered_over(events.drop_first())
        }
    }

    /// The moves `end` has on record beyond those of this session.
    pub open spec fn moves_until(self, end: Self) -> Seq<MoveRecord> {
        end.moves.skip(self.moves.len() as int)
    }

    /// Whether `moves` is a whole drain of this session: moves of a drain,
    /// no more of them than the budget allows, and ended only by the budget,
    /// by empty buffers, or by a packet buffer without room that blocks.
    pub open spec fn drained_by(self, moves: Seq<MoveRecord>) -> bool {
        &&& self.drain_moves(moves)
        &&& moves.len() <= self.settings.drain_budget
        &&& {
            ||| moves.len() == self.settings.drain_budget
            ||| self.after_moves(moves).work_left() == 0
            ||| self.after_moves(moves).packets.len() == 0 && self.after_moves(
                moves,
            ).packets_blocked()
        }
    }

    /// Whether this session and `other` differ in nothing but the record
    /// of steps and the count of warnings, which no move reads.
    pub open spec fn record_apart(self, other: Self) -> bool {
        self == (SessionView {
            journal: self.journal,
            stats: SessionStats { warnings: self.stats.warnings, ..other.stats },
            ..other
        })
    }

    /// This session as the stop of a running pipeline finds it when the
    /// drain is due: capture is down, encoder and transport are still held.
    pub open spec fn at_drain(self) -> Self {
        SessionView {
            lifecycle: LifecycleView {
                state: PipelineState::Stopping,
                goal: Goal::Down,
                audio: self.lifecycle.audio,
                held: 2,
                drained: false,
            },
            fault: None,
            ..self
        }
    }

    /// Whether this session differs from `other` in nothing but the
    /// lifecycle, the record of steps and the count of warnings.
    pub open spec fn control_apart(self, other: Self) -> bool {
        self == (SessionView {
            lifecycle: self.lifecycle,
            journal: self.journal,
            stats: SessionStats { warnings: self.stats.warnings, ..other.stats },
            ..other
        })
    }

    /// Whether `now` is on the way from this session, a running one that
    /// was asked to stop, to the idle state. Until the drain, the steps
    /// leave the buffers and the counters of losses alone. The drain makes
    /// a whole drain of the session as it stood. After it, what is still
    /// buffered stays until the session is idle, and is then counted as
    /// dropped.
    pub open spec fn stopping_to(self, now: Self) -> bool {
        let moves = self.moves_until(now);
        let drained = self.at_drain().after_moves(moves);
        &&& now.moves == self.moves + moves
        &&& match now.lifecycle.state {
            PipelineState::Stopping => {
                &&& now.lifecycle.audio == self.lifecycle.audio
                &&& if now.lifecycle.drained {
                    &&& now.control_apart(drained)
                    &&& self.at_drain().drained_by(moves)
                } else {
                    &&& now.lifecycle.held >= 2
                    &&& moves.len() == 0
                    &&& now.control_apart(self)
                }
            },
            _ => {
                &&& self.at_drain().drained_by(moves)
                &&& now.stats.retries == self.stats.retries
                &&& now.stats.dropped_frames == bumped_by(
                    drained.stats.dropped_frames,
                    drained.frames.len() + drained.packets.len(),
                )
            },
        }
    }

    /// Whether `end` is what a stop leaves of the counters and the record
    /// of moves of this session. A running session is drained: the moves
    /// on record are a whole drain of it. Any other session makes no move.
    /// Either way, what is buffered after the moves is counted as dropped,
    /// and no retry is counted.
    pub open spec fn stops_to(self, end: Self) -> bool {
        let moves = self.moves_until(end);
        let drained = self.at_drain().after_moves(moves);
        &&& end.moves == self.moves + moves
        &&& if self.lifecycle.state == PipelineState::Running {
            self.at_drain().drained_by(moves)
        } else {
            moves.len() == 0
        }
        &&& end.stats.retries == self.stats.retries
        &&& end.stats.dropped_frames == bumped_by(
            drained.stats.dropped_frames,
            drained.frames.len() + drained.packets.len(),
        )
    }

    /// What a session can still lose or has lost: the units it holds and
    /// the units it has counted as dropped.
    pub open spec fn held_or_lost(self) -> int {
        self.stats.dropped_frames + self.frames.len() + self.packets.len()
    }

    /// Whether units may move through encoder and transport: while the
    /// session runs, and while a stopping session drains.
    pub open spec fn flowing(self) -> bool {
        self.lifecycle.state == PipelineState::Running || self.lifecycle.next_step() == Some(
            Step::Drain,
        )
    }

    /// The session with its configuration gone and everything still
    /// buffered discarded and counted as dropped.
    pub open spec fn cleared(self) -> Self {
        SessionView {
            config: None,
            frames: Seq::<Sample>::empty(),
            packets: Seq::<EncodedPacket>::empty(),
            stats: SessionStats {
                dropped_frames: bumped_by(
                    self.stats.dropped_frames,
                    self.frames.len() + self.packets.len(),
                ),
                ..self.stats
            },
            retries_used: 0,
            gop_position: 0,
            fault: None,
            ..self
        }
    }

    pub open spec fn configure_result(self, config: PipelineConfig) -> Result<(), PipelineError> {
        if self.lifecycle.state != PipelineState::Idle {
            Err(PipelineError::NotPermitted(self.lifecycle.state))
        } else if config.first_invalid() is Some {
            Err(PipelineError::Config(ConfigError::InvalidConfig(config.first_invalid()->Some_0)))
        } else {
            Ok(())
        }
    }

    /// An idle session takes a usable configuration and starts its
    /// counters afresh; anything else changes nothing.
    pub open spec fn after_configure(self, config: PipelineConfig) -> Self {
        if self.configure_result(config) is Ok {
            SessionView {
                lifecycle: self.lifecycle.after_configure(config.audio is Some),
                config: Some(config),
                stats: SessionStats::zero(),
                ..self
            }
        } else {
            self
        }
    }

    pub open spec fn start_result(self) -> Result<(), PipelineError> {
        if self.lifecycle.can_start() {
            Ok(())
        } else {
            Err(PipelineError::NotPermitted(self.lifecycle.state))
        }
    }

    pub open spec fn after_start_request(self) -> Self {
        SessionView { lifecycle: self.lifecycle.after_start_request(), ..self }
    }

    /// The session after `step` was taken with the given result. A stage
    /// that fails to come up faults the session and is kept as the cause;
    /// a failure while letting go or draining is counted and passed over.
    /// A step other than the one asked for changes nothing.
    pub open spec fn after_step(self, step: Step, outcome: Result<(), StageError>) -> Self {
        if self.lifecycle.next_step() != Some(step) {
            self
        } else {
            let noted = SessionView {
                journal: self.journal.push(StepRecord { step, outcome }),
                lifecycle: self.lifecycle.after_step(step, outcome is Ok),
                fault: match (step, outcome) {
                    (Step::BringUp(stage), Err(cause)) => Some(Failure { stage, cause }),
                    _ => self.fault,
                },
                stats: match (step, outcome) {
                    (Step::BringUp(_), _) => self.stats,
                    (_, Err(_)) => SessionStats {
                        warnings: bumped(self.stats.warnings),
                        ..self.stats
                    },
                    _ => self.stats,
                },
                ..self
            };
            if noted.lifecycle.state == PipelineState::Idle {
                noted.cleared()
            } else {
                noted
            }
        }
    }

    /// The session after a request to stop, which is taken in every state.
    pub open spec fn after_stop_request(self) -> Self {
        let asked = SessionView {
            lifecycle: self.lifecycle.after_stop_request(),
            fault: None,
            ..self
        };
        if asked.lifecycle.state == PipelineState::Idle {
            asked.cleared()
        } else {
            asked
        }
    }

    pub open spec fn reconfigure_result(self, config: PipelineConfig) -> Result<
        (),
        PipelineError,
    > {
        if self.lifecycle.state != PipelineState::Running {
            Err(PipelineError::NotPermitted(self.lifecycle.state))
        } else if config.first_invalid() is Some {
            Err(PipelineError::Config(ConfigError::InvalidConfig(config.first_invalid()->Some_0)))
        } else {
            Ok(())
        }
    }

    /// A running session takes a usable configuration in place of its own:
    /// what is buffered for the old one is discarded and counted as
    /// dropped. Anything else changes nothing.
    pub open spec fn after_reconfigure_request(self, config: PipelineConfig) -> Self {
        if self.reconfigure_result(config) is Ok {
            SessionView {
                lifecycle: self.lifecycle.after_reconfigure_request(config.audio is Some),
                config: Some(config),
                ..self.cleared()
            }
        } else {
            self
        }
    }

    pub open spec fn offer_result(self, sample: Sample) -> Admission {
        if self.lifecycle.state != PipelineState::Running {
            Admission::NotRunning(sample)
        } else {
            match outcome_of_push(
                self.frames,
                self.settings.frame_capacity as nat,
                self.settings.frame_policy,
                sample,
            ) {
                PushOutcome::Accepted => Admission::Accepted,
                PushOutcome::Displaced(oldest) => Admission::Displaced(oldest),
                PushOutcome::Refused(back) => Admission::Refused(back),
            }
        }
    }

    /// A running session queues the sample as its frame buffer sees fit and
    /// counts a displaced one as dropped.
    pub open spec fn after_offer(self, sample: Sample) -> Self {
        if self.lifecycle.state != PipelineState::Running {
            self
        } else {
            SessionView {
                frames: contents_after_push(
                    self.frames,
                    self.settings.frame_capacity as nat,
                    self.settings.frame_policy,
                    sample,
                ),
                stats: if self.offer_result(sample) is Displaced {
                    SessionStats {
                        dropped_frames: bumped(self.stats.dropped_frames),
                        ..self.stats
                    }
                } else {
                    self.stats
                },
                ..self
            }
        }
    }

    /// Whether a packet offered now would be turned away: the packet
    /// buffer is full and blocks.
    pub open spec fn packets_blocked(self) -> bool {
        self.packets.len() >= self.settings.packet_capacity && self.settings.packet_policy
            == BackpressurePolicy::Block
    }

    pub open spec fn pull_result(self) -> Pull {
        if !self.flowing() {
            Pull::Closed
        } else if self.frames.len() == 0 {
            Pull::Empty
        } else {
            Pull::Frame(self.frames.first())
        }
    }

    pub open spec fn after_pull(self) -> Self {
        if self.pull_result() is Frame {
            SessionView { frames: self.frames.drop_first(), ..self }
        } else {
            self
        }
    }

    /// The packet made of `sample` and the bytes the encoder returned for
    /// it. A video frame that opens a group of pictures is a keyframe.
    pub open spec fn packet_of(self, sample: Sample, bytes: Vec<u8>) -> EncodedPacket {
        EncodedPacket {
            codec: self.config->Some_0.encoding.codec,
            timestamp: sample.timestamp(),
            keyframe: sample.is_video() && self.gop_position == 0,
            payload: bytes,
        }
    }

    /// A running session after `cause` was raised by `stage`: a transient
    /// failure uses up a retry, a degraded one costs a unit, a fatal one
    /// faults the session and is kept as the cause.
    pub open spec fn after_failure(self, stage: Stage, cause: StageError) -> Self {
        match severity_of(cause, self.retries_used, self.settings.retry_budget as nat) {
            Severity::Transient => SessionView {
                retries_used: self.retries_used + 1,
                stats: SessionStats { retries: bumped(self.stats.retries), ..self.stats },
                ..self
            },
            Severity::Degraded => SessionView {
                stats: SessionStats {
                    dropped_frames: bumped(self.stats.dropped_frames),
                    ..self.stats
                },
                ..self
            },
            Severity::Fatal => SessionView {
                lifecycle: self.lifecycle.after_fault(),
                fault: Some(Failure { stage, cause }),
                ..self
            },
        }
    }

    pub open spec fn failure_progress(self, cause: StageError) -> Progress {
        match severity_of(cause, self.retries_used, self.settings.retry_budget as nat) {
            Severity::Transient => Progress::RetryLater { attempt: (self.retries_used + 1) as u32 },
            Severity::Degraded => Progress::Skipped,
            Severity::Fatal => Progress::Faulted,
        }
    }

    /// The session with one more unit lost to a failure that a stopping
    /// session passes over.
    pub open spec fn after_passing_over(self) -> Self {
        SessionView {
            stats: SessionStats {
                dropped_frames: bumped(self.stats.dropped_frames),
                warnings: bumped(self.stats.warnings),
                ..self.stats
            },
            ..self
        }
    }

    pub open spec fn report_progress(self, cause: StageError) -> Progress {
        if self.lifecycle.state == PipelineState::Running {
            self.failure_progress(cause)
        } else if severity_of(cause, self.retries_used, self.settings.retry_budget as nat)
            == Severity::Fatal {
            Progress::Faulted
        } else {
            Progress::Idle
        }
    }

    /// The session after `stage` reported `cause`. A running session
    /// handles the failure as its severity asks. In every other state a
    /// failure that is fatal faults the session, which keeps the cause it has
    /// if it is faulted already, and any other failure is ignored.
    pub open spec fn after_report(self, stage: Stage, cause: StageError) -> Self {
        if self.lifecycle.state == PipelineState::Running {
            self.after_failure(stage, cause)
        } else if severity_of(cause, self.retries_used, self.settings.retry_budget as nat)
            == Severity::Fatal {
            SessionView {
                lifecycle: self.lifecycle.after_fault(),
                fault: if self.fault is Some {
                    self.fault
                } else {
                    Some(Failure { stage, cause })
                },
                ..self
            }
        } else {
            self
        }
    }

    pub open spec fn encoded_progress(
        self,
        sample: Sample,
        result: Result<Vec<u8>, EncodingError>,
    ) -> Progress {
        if !self.flowing() {
            Progress::Skipped
        } else {
            match result {
                Ok(bytes) => {
                    if outcome_of_push(
                        self.packets,
                        self.settings.packet_capacity as nat,
                        self.settings.packet_policy,
                        self.packet_of(sample, bytes),
                    ) is Refused {
                        Progress::Skipped
                    } else {
                        Progress::Advanced
                    }
                },
                Err(cause) => if self.lifecycle.state == PipelineState::Running {
                    self.failure_progress(StageError::Encoding(cause))
                } else {
                    Progress::Skipped
                },
            }
        }
    }

    /// The session after the encoder returned `result` for `sample`.
    ///
    /// The bytes of a success become a packet that is queued as the packet
    /// buffer sees fit; a packet that displaces another or finds no room
    /// costs one unit. A failure is handled as its severity asks while the
    /// session runs, and passed over while it drains. A session that is
    /// neither running nor draining drops the sample. The move is put on
    /// record.
    pub open spec fn after_encoded(
        self,
        sample: Sample,
        result: Result<Vec<u8>, EncodingError>,
    ) -> Self {
        SessionView {
            moves: self.moves.push(MoveRecord::Encoded { sample, result }),
            ..self.with_encoded(sample, result)
        }
    }

    /// What [`Self::after_encoded`] makes of the session, the record apart.
    pub open spec fn with_encoded(
        self,
        sample: Sample,
        result: Result<Vec<u8>, EncodingError>,
    ) -> Self {
        if !self.flowing() {
            SessionView {
                stats: SessionStats {
                    dropped_frames: bumped(self.stats.dropped_frames),
                    ..self.stats
                },
                ..self
            }
        } else {
            match result {
                Ok(bytes) => SessionView {
                    packets: contents_after_push(
                        self.packets,
                        self.settings.packet_capacity as nat,
                        self.settings.packet_policy,
                        self.packet_of(sample, bytes),
                    ),
                    gop_position: if sample.is_video() {
                        next_gop_position(
                            self.gop_position,
                            self.config->Some_0.encoding.gop_size as nat,
                        )
                    } else {
                        self.gop_position
                    },
                    stats: if outcome_of_push(
                        self.packets,
                        self.settings.packet_capacity as nat,
                        self.settings.packet_policy,
                        self.packet_of(sample, bytes),
                    ) is Accepted {
                        self.stats
                    } else {
                        SessionStats {
                            dropped_frames: bumped(self.stats.dropped_frames),
                            ..self.stats
                        }
                    },
                    ..self
                },
                Err(cause) => if self.lifecycle.state == PipelineState::Running {
                    self.after_failure(Stage::Encoder, StageError::Encoding(cause))
                } else {
                    self.after_passing_over()
                },
            }
        }
    }

    /// The packet the transport has to send next.
    pub open spec fn next_packet(self) -> Option<EncodedPacket> {
        if self.flowing() {
            oldest_of(self.packets)
        } else {
            None
        }
    }

    pub open spec fn sent_progress(self, result: Result<(), TransportError>) -> Progress {
        if self.next_packet() is None {
            Progress::Idle
        } else {
            match result {
                Ok(_) => Progress::Advanced,
                Err(cause) => if self.lifecycle.state == PipelineState::Running {
                    self.failure_progress(StageError::Transport(cause))
                } else {
                    Progress::Skipped
                },
            }
        }
    }

    /// The session after the transport returned `result` for the packet
    /// of [`Self::next_packet`].
    ///
    /// A packet that was sent leaves the buffer and the retries start over.
    /// While the session runs, a failure is handled as its severity asks:
    /// the packet stays for a retry, or is given up. While it drains, the
    /// packet is given up and the failure passed over. The move is put on
    /// record.
    pub open spec fn after_sent(self, result: Result<(), TransportError>) -> Self {
        if self.next_packet() is None {
            self
        } else {
            SessionView {
                moves: self.moves.push(MoveRecord::Sent { outcome: result }),
                ..self.with_sent(result)
            }
        }
    }

    /// What [`Self::after_sent`] makes of the session, the record apart.
    pub open spec fn with_sent(self, result: Result<(), TransportError>) -> Self {
        if self.next_packet() is None {
            self
        } else {
            match result {
                Ok(_) => SessionView {
                    packets: self.packets.drop_first(),
                    retries_used: 0,
                    ..self
                },
                Err(cause) => if self.lifecycle.state == PipelineState::Running {
                    let noted = self.after_failure(Stage::Transport, StageError::Transport(cause));
                    if self.failure_progress(StageError::Transport(cause)) == Progress::Skipped {
                        SessionView {
                            packets: self.packets.drop_first(),
                            retries_used: 0,
                            ..noted
                        }
                    } else {
                        noted
                    }
                } else {
                    SessionView {
                        packets: self.packets.drop_first(),
                        retries_used: 0,
                        ..self.after_passing_over()
                    }
                },
            }
        }
    }

    /// Whether `end` is this session but for its lifecycle, the failure it
    /// keeps as the cause of a fault, its count of warnings and its record
    /// of steps: what bringing stages up and shutting them down may change.
    pub open spec fn same_but_control(self, end: Self) -> bool {
        end == (SessionView {
            lifecycle: end.lifecycle,
            fault: end.fault,
            journal: end.journal,
            stats: SessionStats { warnings: end.stats.warnings, ..self.stats },
            ..self
        })
    }

    /// Whether `end` counts no less than this session does.
    pub open spec fn counts_on_to(self, end: Self) -> bool {
        &&& end.stats.dropped_frames >= self.stats.dropped_frames
        &&& end.stats.retries >= self.stats.retries
        &&& end.stats.warnings >= self.stats.warnings
    }

    /// How many moves of the stages empty the buffers at most: a sample
    /// has to pass the encoder and the transport, a packet the transport.
    pub open spec fn work_left(self) -> nat {
        2 * self.frames.len() + self.packets.len()
    }

    /// Whether `end` is what a drain of this session can leave: samples
    /// were taken oldest first, and the drain went on until the buffers were
    /// empty, until every move of its budget was made, each of them taking a
    /// unit one stage further or giving it up, or until a packet buffer
    /// without room turned the encoder away.
    pub open spec fn drains_to(self, end: Self) -> bool {
        &&& end.frames.len() <= self.frames.len()
        &&& end.frames == self.frames.skip(self.frames.len() - end.frames.len())
        &&& {
            ||| end.work_left() == 0
            ||| end.work_left() + self.settings.drain_budget <= self.work_left()
            ||| end.packets.len() == 0 && end.packets_blocked()
        }
    }

    /// Whether `end` and `progress` are what one move of the encode stage
    /// can come to. The stage waits when the packet buffer blocks. Else it
    /// takes the oldest sample, if the session hands one out, and the
    /// session takes whatever the encoder returns for it.
    pub open spec fn encode_step(self, end: Self, progress: Progress) -> bool {
        if self.flowing() && self.packets_blocked() {
            end == self && progress == Progress::Blocked
        } else {
            match self.pull_result() {
                Pull::Frame(sample) => exists|result: Result<Vec<u8>, EncodingError>|
                    end == #[trigger] self.after_pull().after_encoded(sample, result) && progress
                        == self.after_pull().encoded_progress(sample, result),
                _ => end == self && progress == Progress::Idle,
            }
        }
    }

    /// Whether `end` and `progress` are what one move of the transport
    /// stage can come to: the session takes whatever the transport returns
    /// for the packet at hand, if there is one.
    pub open spec fn send_step(self, end: Self, progress: Progress) -> bool {
        if self.next_packet() is Some {
            exists|result: Result<(), TransportError>|
                end == #[trigger] self.after_sent(result) && progress == self.sent_progress(result)
        } else {
            end == self && progress == Progress::Idle
        }
    }
}

/// A session without its collaborators: the lifecycle, the configuration,
/// the two buffers and the failure policy.
///
/// A session makes no call itself. Its owner makes the calls and tells the
/// session what came back; the session says what that means and what to do
/// next.
pub struct Session {
    lifecycle: Lifecycle,
    settings: FlowSettings,
    config: Option<PipelineConfig>,
    frames: FrameBuffer,
    packets: PacketBuffer,
    supervisor: ErrorSupervisor,
    gop_position: u32,
    fault: Option<Failure>,
    journal: Ghost<Seq<StepRecord>>,
    moves: Ghost<Seq<MoveRecord>>,
}

impl View for Session {
    type V = SessionView;

    closed spec fn view(&self) -> SessionView {
        SessionView {
            lifecycle: self.lifecycle@,
            settings: self.settings,
            config: self.config,
            frames: self.frames@,
            packets: self.packets@,
            stats: self.supervisor.stats(),
            retries_used: self.supervisor.retries_used() as nat,
            gop_position: self.gop_position as nat,
            fault: self.fault,
            journal: self.journal@,
            moves: self.moves@,
        }
    }
}

impl Session {
    /// The parts agree with each other and with the settings, and the view
    /// is that of a session.
    pub closed spec fn wf(&self) -> bool {
        &&& self.frames.wf()
        &&& self.frames.capacity() == self.settings.frame_capacity
        &&& self.frames.policy() == self.settings.frame_policy
        &&& self.packets.wf()
        &&& self.packets.capacity() == self.settings.packet_capacity
        &&& self.packets.policy() == self.settings.packet_policy
        &&& self.supervisor.wf()
        &&& self.supervisor.retry_budget() == self.settings.retry_budget
        &&& self@.wf()
    }

    /// What `wf` promises of the view.
    pub proof fn lemma_view_wf(&self)
        requires
            self.wf(),
        ensures
            self@.wf(),
    {
    }

    /// An idle session with empty buffers of the capacities in `settings`.
    pub fn new(settings: FlowSettings) -> (session: Self)
        ensures
            session.wf(),
            session@ == SessionView::fresh(settings),
    {
        Session {
            lifecycle: Lifecycle::new(),
            settings,
            config: None,
            frames: BoundedBuffer::new(settings.frame_capacity, settings.frame_policy),
            packets: BoundedBuffer::new(settings.packet_capacity, settings.packet_policy),
            supervisor: ErrorSupervisor::new(settings.retry_budget),
            gop_position: 0,
            fault: None,
            journal: Ghost(Seq::<StepRecord>::empty()),
            moves: Ghost(Seq::<MoveRecord>::empty()),
        }
    }

    pub fn state(&self) -> (state: PipelineState)
        ensures
            state == self@.lifecycle.state,
    {
        self.lifecycle.state()
    }

    pub fn is_running(&self) -> (running: bool)
        ensures
            running <==> self@.lifecycle.state == PipelineState::Running,
    {
        self.lifecycle.state() == PipelineState::Running
    }

    /// Whether units may move through encoder and transport.
    pub fn is_flowing(&self) -> (flowing: bool)
        requires
            self.wf(),
        ensures
            flowing == self@.flowing(),
    {
        if self.lifecycle.state() == PipelineState::Running {
            true
        } else {
            match self.lifecycle.next_step() {
                Some(Step::Drain) => true,
                _ => false,
            }
        }
    }

    pub fn settings(&self) -> (settings: FlowSettings)
        ensures
            settings == self@.settings,
    {
        self.settings
    }

    pub fn stats(&self) -> (stats: SessionStats)
        ensures
            stats == self@.stats,
    {
        self.supervisor.stats()
    }

    /// The configuration in force, if the session has one.
    pub fn config(&self) -> (config: Option<&PipelineConfig>)
        ensures
            config == match self@.config {
                Some(c) => Some(&c),
                None => None,
            },
    {
        self.config.as_ref()
    }

    /// The failure that faulted the session, if it is faulted.
    pub fn fault(&self) -> (fault: Option<&Failure>)
        ensures
            fault == match self@.fault {
                Some(f) => Some(&f),
                None => None,
            },
    {
        self.fault.as_ref()
    }

    /// How many stages are held.
    pub fn held(&self) -> (held: u8)
        ensures
            held == self@.lifecycle.held,
    {
        self.lifecycle.held()
    }

    pub fn frames_waiting(&self) -> (count: usize)
        ensures
            count == self@.frames.len(),
    {
        self.frames.len()
    }

    pub fn packets_waiting(&self) -> (count: usize)
        ensures
            count == self@.packets.len(),
    {
        self.packets.len()
    }

    fn discard_buffered(&mut self)
        requires
            old(self).frames.wf(),
            old(self).packets.wf(),
            old(self).supervisor.wf(),
        ensures
            final(self).frames.wf(),
            final(self).packets.wf(),
            final(self).supervisor.wf(),
            final(self).frames.capacity() == old(self).frames.capacity(),
            final(self).frames.policy() == old(self).frames.policy(),
            final(self).packets.capacity() == old(self).packets.capacity(),
            final(self).packets.policy() == old(self).packets.policy(),
            final(self).supervisor.retry_budget() == old(self).supervisor.retry_budget(),
            final(self)@ == (SessionView {
                frames: Seq::<Sample>::empty(),
                packets: Seq::<EncodedPacket>::empty(),
                stats: SessionStats {
                    dropped_frames: bumped_by(
                        old(self)@.stats.dropped_frames,
                        old(self)@.frames.len() + old(self)@.packets.len(),
                    ),
                    ..old(self)@.stats
                },
                retries_used: 0,
                gop_position: 0,
                ..old(self)@
            }),
    {
        let frames = self.frames.clear();
        let packets = self.packets.clear();
        self.supervisor.note_dropped(frames);
        self.supervisor.note_dropped(packets);
        self.supervisor.succeeded();
        self.gop_position = 0;
    }

    fn become_idle(&mut self)
        requires
            old(self).frames.wf(),
            old(self).packets.wf(),
            old(self).supervisor.wf(),
        ensures
            final(self).frames.wf(),
            final(self).packets.wf(),
            final(self).supervisor.wf(),
            final(self).frames.capacity() == old(self).frames.capacity(),
            final(self).frames.policy() == old(self).frames.policy(),
            final(self).packets.capacity() == old(self).packets.capacity(),
            final(self).packets.policy() == old(self).packets.policy(),
            final(self).supervisor.retry_budget() == old(self).supervisor.retry_budget(),
            final(self)@ == old(self)@.cleared(),
    {
        self.discard_buffered();
        self.config = None;
        self.fault = None;
    }

    /// Takes `config` if the session is idle and the configuration usable.
    /// A session that is not idle refuses with its state; an unusable
    /// configuration is refused with its first offending parameter. A
    /// refusal changes nothing.
    pub fn configure(&mut self, config: PipelineConfig) -> (outcome: Result<(), PipelineError>)
        requires
            old(self).wf(),
        ensures
            final(self).wf(),
            final(self)@ == old(self)@.after_configure(config),
            outcome == old(self)@.configure_result(config),
    {
        let state = self.lifecycle.state();
        if state != PipelineState::Idle {
            return Err(PipelineError::NotPermitted(state));
        }
        match config.validate() {
            Err(e) => {
                return Err(PipelineError::Config(e));
            },
            Ok(_) => {},
        }
        let audio = config.has_audio();
        self.lifecycle.configure(audio);
        self.config = Some(config);
        self.supervisor = ErrorSupervisor::new(self.settings.retry_budget);
        Ok(())
    }

    /// Sets out to bring the stages up. Refused, with the state, unless a
    /// configuration is in hand and nothing is under way.
    pub fn request_start(&mut self) -> (outcome: Result<(), PipelineError>)
        requires
            old(self).wf(),
        ensures
            final(self).wf(),
            final(self)@ == old(self)@.after_start_request(),
            outcome == old(self)@.start_result(),
    {
        if self.lifecycle.request_start() {
            Ok(())
        } else {
            Err(PipelineError::NotPermitted(self.lifecycle.state()))
        }
    }

    /// The step to take next; `None` when the lifecycle rests.
    pub fn next_step(&self) -> (step: Option<Step>)
        requires
            self.wf(),
        ensures
            step == self@.lifecycle.next_step(),
    {
        self.lifecycle.next_step()
    }

    /// What `step` asks of a collaborator, with what is to be handed over.
    pub fn call_for(&self, step: Step) -> (call: StageCall)
        ensures
            call == self@.call_of(step),
    {
        match step {
            Step::BringUp(stage) => {
                match &self.config {
                    Some(config) => {
                        match stage {
                            Stage::Transport => StageCall::Connect(config.endpoint.clone()),
                            Stage::Encoder => StageCall::InitializeEncoder(config.encoding),
                            Stage::Capture => StageCall::StartVideo(
                                config.source.clone(),
                                config.video,
                            ),
                            Stage::Audio => {
                                match config.audio {
                                    Some(audio) => StageCall::StartAudio(audio),
                                    None => StageCall::LetGo,
                                }
                            },
                        }
                    },
                    None => StageCall::LetGo,
                }
            },
            Step::Drain => StageCall::Drain,
            Step::Shutdown(stage) => {
                match stage {
                    Stage::Capture => StageCall::StopVideo,
                    _ => StageCall::LetGo,
                }
            },
        }
    }

    /// Records that `step` was taken and what came of it.
    pub fn record_step(&mut self, step: Step, outcome: Result<(), StageError>)
        requires
            old(self).wf(),
        ensures
            final(self).wf(),
            final(self)@ == old(self)@.after_step(step, outcome),
            old(self)@.lifecycle.next_step() == Some(step) ==> final(self)@.lifecycle.effort()
                < old(self)@.lifecycle.effort(),
    {
        let asked = match self.lifecycle.next_step() {
            Some(next) => next == step,
            None => false,
        };
        if !asked {
            return ;
        }
        self.journal = Ghost(self.journal@.push(StepRecord { step, outcome }));
        self.lifecycle.record(step, outcome.is_ok());
        match outcome {
            Ok(_) => {},
            Err(cause) => {
                match step {
                    Step::BringUp(stage) => {
                        self.fault = Some(Failure { stage, cause });
                    },
                    _ => {
                        self.supervisor.note_warning();
                    },
                }
            },
        }
        if self.lifecycle.state() == PipelineState::Idle {
            self.become_idle();
        }
    }

    /// Sets out to let go of everything held and become idle. With nothing
    /// held the session is idle at once.
    pub fn request_stop(&mut self)
        requires
            old(self).wf(),
        ensures
            final(self).wf(),
            final(self)@ == old(self)@.after_stop_request(),
    {
        self.lifecycle.request_stop();
        self.fault = None;
        if self.lifecycle.state() == PipelineState::Idle {
            self.become_idle();
        }
    }

    /// Takes `config` in place of the configuration of a running session
    /// and sets out to replace the stages. A session that is not running
    /// refuses with its state; an unusable configuration is refused with
    /// its first offending parameter. A refusal changes nothing.
    pub fn request_reconfigure(&mut self, config: PipelineConfig) -> (outcome: Result<
        (),
        PipelineError,
    >)
        requires
            old(self).wf(),
        ensures
            final(self).wf(),
            final(self)@ == old(self)@.after_reconfigure_request(config),
            outcome == old(self)@.reconfigure_result(config),
    {
        let state = self.lifecycle.state();
        if state != PipelineState::Running {
            return Err(PipelineError::NotPermitted(state));
        }
        match config.validate() {
            Err(e) => {
                return Err(PipelineError::Config(e));
            },
            Ok(_) => {},
        }
        let audio = config.has_audio();
        self.lifecycle.request_reconfigure(audio);
        self.discard_buffered();
        self.config = Some(config);
        Ok(())
    }

    /// Offers a captured sample to the frame buffer.
    pub fn offer_sample(&mut self, sample: Sample) -> (admission: Admission)
        requires
            old(self).wf(),
        ensures
            final(self).wf(),
            final(self)@ == old(self)@.after_offer(sample),
            admission == old(self)@.offer_result(sample),
    {
        if self.lifecycle.state() != PipelineState::Running {
            return Admission::NotRunning(sample);
        }
        match self.frames.push(sample) {
            PushOutcome::Accepted => Admission::Accepted,
            PushOutcome::Displaced(oldest) => {
                self.supervisor.note_dropped(1);
                Admission::Displaced(oldest)
            },
            PushOutcome::Refused(back) => Admission::Refused(back),
        }
    }

    /// Whether a packet offered now would be turned away.
    pub fn packets_blocked(&self) -> (blocked: bool)
        requires
            self.wf(),
        ensures
            blocked == self@.packets_blocked(),
    {
        self.packets.is_full() && self.settings.packet_policy == BackpressurePolicy::Block
    }

    /// Hands the oldest sample to the encode stage, unless the session is
    /// closed or no sample is waiting.
    pub fn take_frame(&mut self) -> (pull: Pull)
        requires
            old(self).wf(),
        ensures
            final(self).wf(),
            final(self)@ == old(self)@.after_pull(),
            pull == old(self)@.pull_result(),
    {
        if !self.is_flowing() {
            return Pull::Closed;
        }
        match self.frames.pop() {
            Some(sample) => Pull::Frame(sample),
            None => Pull::Empty,
        }
    }

    fn absorb(&mut self, stage: Stage, cause: StageError) -> (progress: Progress)
        requires
            old(self).wf(),
            old(self)@.lifecycle.state == PipelineState::Running,
        ensures
            final(self).wf(),
            final(self)@ == old(self)@.after_failure(stage, cause),
            progress == old(self)@.failure_progress(cause),
    {
        let severity = self.supervisor.report(&cause);
        match severity {
            Severity::Transient => Progress::RetryLater { attempt: self.supervisor.retries_used() },
            Severity::Degraded => Progress::Skipped,
            Severity::Fatal => {
                self.lifecycle.fault();
                self.fault = Some(Failure { stage, cause });
                Progress::Faulted
            },
        }
    }

    /// Takes note of a failure that `stage` raised. A running session
    /// handles it as its severity asks; in every other state a failure that
    /// is fatal faults the session, and any other is ignored.
    pub fn report_failure(&mut self, stage: Stage, cause: StageError) -> (progress: Progress)
        requires
            old(self).wf(),
        ensures
            final(self).wf(),
            final(self)@ == old(self)@.after_report(stage, cause),
            progress == old(self)@.report_progress(cause),
    {
        if self.lifecycle.state() == PipelineState::Running {
            self.absorb(stage, cause)
        } else {
            match self.supervisor.classify(&cause) {
                Severity::Fatal => {
                    self.lifecycle.fault();
                    if self.fault.is_none() {
                        self.fault = Some(Failure { stage, cause });
                    }
                    Progress::Faulted
                },
                _ => Progress::Idle,
            }
        }
    }

    /// Takes what the encoder returned for `sample`, which came from
    /// [`Self::take_frame`].
    pub fn frame_encoded(
        &mut self,
        sample: Sample,
        result: Result<Vec<u8>, EncodingError>,
    ) -> (progress: Progress)
        requires
            old(self).wf(),
        ensures
            final(self).wf(),
            final(self)@ == old(self)@.after_encoded(sample, result),
            progress == old(self)@.encoded_progress(sample, result),
    {
        self.moves = Ghost(self.moves@.push(MoveRecord::Encoded { sample, result }));
        if !self.is_flowing() {
            self.supervisor.note_dropped(1);
            return Progress::Skipped;
        }
        match result {
            Ok(bytes) => {
                let (codec, gop_size) = match &self.config {
                    Some(config) => (config.encoding.codec, config.encoding.gop_size),
                    None => {
                        // A session that flows has a configuration.
                        proof {
                            assert(false);
                        }
                        return Progress::Idle;
                    },
                };
                let video = sample.is_video();
                let packet = EncodedPacket {
                    codec,
                    timestamp: sample.timestamp(),
                    keyframe: video && self.gop_position == 0,
                    payload: bytes,
                };
                if video {
                    self.gop_position = if self.gop_position + 1 >= gop_size {
                        0
                    } else {
                        self.gop_position + 1
                    };
                }
                match self.packets.push(packet) {
                    PushOutcome::Accepted => Progress::Advanced,
                    PushOutcome::Displaced(_) => {
                        self.supervisor.note_dropped(1);
                        Progress::Advanced
                    },
                    PushOutcome::Refused(_) => {
                        self.supervisor.note_dropped(1);
                        Progress::Skipped
                    },
                }
            },
            Err(cause) => {
                if self.lifecycle.state() == PipelineState::Running {
                    self.absorb(Stage::Encoder, StageError::Encoding(cause))
                } else {
                    self.supervisor.note_dropped(1);
                    self.supervisor.note_warning();
                    Progress::Skipped
                }
            },
        }
    }

    /// The packet the transport has to send next, left in the buffer until
    /// [`Self::packet_sent`] says what became of it.
    pub fn next_packet(&self) -> (packet: Option<&EncodedPacket>)
        requires
            self.wf(),
        ensures
            packet == match self@.next_packet() {
                Some(p) => Some(&p),
                None => None,
            },
    {
        if self.is_flowing() {
            self.packets.peek()
        } else {
            None
        }
    }

    /// Takes what the transport returned for the packet of
    /// [`Self::next_packet`].
    pub fn packet_sent(&mut self, result: Result<(), TransportError>) -> (progress: Progress)
        requires
            old(self).wf(),
        ensures
            final(self).wf(),
            final(self)@ == old(self)@.after_sent(result),
            progress == old(self)@.sent_progress(result),
    {
        if !self.is_flowing() || self.packets.is_empty() {
            return Progress::Idle;
        }
        self.moves = Ghost(self.moves@.push(MoveRecord::Sent { outcome: result }));
        match result {
            Ok(_) => {
                let _ = self.packets.pop();
                self.supervisor.succeeded();
                Progress::Advanced
            },
            Err(cause) => {
                if self.lifecycle.state() == PipelineState::Running {
                    let progress = self.absorb(Stage::Transport, StageError::Transport(cause));
                    if progress == Progress::Skipped {
                        let _ = self.packets.pop();
                        self.supervisor.succeeded();
                    }
                    progress
                } else {
                    let _ = self.packets.pop();
                    self.supervisor.note_dropped(1);
                    self.supervisor.note_warning();
                    self.supervisor.succeeded();
                    Progress::Skipped
                }
            },
        }
    }
}

/// Units move through encoder and transport only while the session runs,
/// or while a stopping session drains: in every other state a move of
/// either stage changes nothing.
pub proof fn law_nothing_moves_unless_flowing(v: SessionView, end: SessionView, progress: Progress)
    requires
        !v.flowing(),
        v.encode_step(end, progress) || v.send_step(end, progress),
    ensures
        end == v,
        progress == Progress::Idle,
{
}

/// A frame that the encoder fails to process costs a running session
/// exactly one dropped frame: the session stays as it is in every other
/// respect, and keeps running.
pub proof fn law_failed_frame_costs_one(v: SessionView, sample: Sample, detail: String)
    requires
        v.wf(),
        v.lifecycle.state == PipelineState::Running,
    ensures
        v.after_encoded(sample, Err(EncodingError::ProcessFailed(detail))) == (SessionView {
            stats: SessionStats { dropped_frames: bumped(v.stats.dropped_frames), ..v.stats },
            moves: v.moves.push(
                MoveRecord::Encoded { sample, result: Err(EncodingError::ProcessFailed(detail)) },
            ),
            ..v
        }),
        v.encoded_progress(sample, Err(EncodingError::ProcessFailed(detail))) == Progress::Skipped,
{
}

/// A transmission that fails is tried again as long as the retry budget
/// lasts, with the packet kept in place, and faults a running session once
/// the budget is used up. A transmission that succeeds gives the whole
/// budget back.
pub proof fn law_transmission_retries_are_bounded(v: SessionView, detail: String)
    requires
        v.wf(),
        v.lifecycle.state == PipelineState::Running,
        v.packets.len() > 0,
    ensures
        ({
            let failed = Err::<(), TransportError>(TransportError::TransmissionFailed(detail));
            let end = v.after_sent(failed);
            &&& end.wf()
            &&& end.packets == v.packets
            &&& v.retries_used < v.settings.retry_budget ==> {
                &&& v.sent_progress(failed) == (Progress::RetryLater {
                    attempt: (v.retries_used + 1) as u32,
                })
                &&& end.retries_used == v.retries_used + 1
                &&& end.lifecycle == v.lifecycle
            }
            &&& v.retries_used >= v.settings.retry_budget ==> {
                &&& v.sent_progress(failed) == Progress::Faulted
                &&& end.lifecycle.state == PipelineState::Faulted
            }
            &&& v.after_sent(Ok(())).retries_used == 0
        }),
{
}

/// Whatever a session is offered, takes and is told, it stays a session:
/// in particular neither buffer ever holds more than its capacity.
pub proof fn law_session_stays_well_formed(
    v: SessionView,
    sample: Sample,
    encoded: Result<Vec<u8>, EncodingError>,
    sent: Result<(), TransportError>,
    stage: Stage,
    cause: StageError,
)
    requires
        v.wf(),
    ensures
        v.after_offer(sample).wf(),
        v.after_pull().wf(),
        v.after_encoded(sample, encoded).wf(),
        v.after_sent(sent).wf(),
        v.after_report(stage, cause).wf(),
        v.after_stop_request().wf(),
        v.after_start_request().wf(),
{
}


/// While a session drains, a move of the transport stage takes the oldest
/// packet out of the buffer whatever the transport returns, and nothing but
/// the counters changes besides. Without a packet nothing changes.
pub proof fn lemma_draining_send(v: SessionView, end: SessionView, progress: Progress)
    requires
        v.wf(),
        v.lifecycle.next_step() == Some(Step::Drain),
        v.send_step(end, progress),
    ensures
        end.lifecycle == v.lifecycle,
        end.settings == v.settings,
        end.config == v.config,
        end.fault == v.fault,
        end.frames == v.frames,
        end.journal == v.journal,
        end.stats.retries == v.stats.retries,
        end.held_or_lost() <= v.held_or_lost(),
        v.counts_on_to(end),
        v.packets.len() == 0 ==> end == v && progress == Progress::Idle,
        v.packets.len() > 0 ==> {
            &&& end.packets == v.packets.drop_first()
            &&& progress != Progress::Idle
            &&& end.moves.len() == v.moves.len() + 1
            &&& end.moves == v.moves.push(end.moves.last())
            &&& v.drain_makes(end.moves.last())
            &&& end == v.after_move(end.moves.last())
        },
{
    if v.packets.len() > 0 {
        let result = choose|result: Result<(), TransportError>|
            end == #[trigger] v.after_sent(result) && progress == v.sent_progress(result);
        assert(end.moves.last() == MoveRecord::Sent { outcome: result });
    }
}

/// While a session drains, a move of the encode stage takes the oldest
/// sample out of the buffer whatever the encoder returns, and queues at
/// most one packet for it. The stage is turned away only by a packet
/// buffer that blocks, and idles only without a sample.
pub proof fn lemma_draining_encode(v: SessionView, end: SessionView, progress: Progress)
    requires
        v.wf(),
        v.lifecycle.next_step() == Some(Step::Drain),
        v.encode_step(end, progress),
    ensures
        end.lifecycle == v.lifecycle,
        end.settings == v.settings,
        end.config == v.config,
        end.fault == v.fault,
        end.journal == v.journal,
        end.stats.retries == v.stats.retries,
        end.held_or_lost() <= v.held_or_lost(),
        v.counts_on_to(end),
        progress == Progress::Blocked ==> end == v && v.packets_blocked(),
        progress == Progress::Idle ==> end == v && v.frames.len() == 0,
        progress != Progress::Blocked && progress != Progress::Idle ==> {
            &&& v.frames.len() > 0
            &&& end.frames == v.frames.drop_first()
            &&& end.packets.len() <= v.packets.len() + 1
            &&& end.moves.len() == v.moves.len() + 1
            &&& end.moves == v.moves.push(end.moves.last())
            &&& v.packets.len() == 0 ==> v.drain_makes(end.moves.last())
            &&& end == v.after_move(end.moves.last())
        },
{
    if progress != Progress::Blocked && progress != Progress::Idle {
        let sample = v.frames.first();
        let result = choose|result: Result<Vec<u8>, EncodingError>|
            end == #[trigger] v.after_pull().after_encoded(sample, result) && progress
                == v.after_pull().encoded_progress(sample, result);
        assert(end.moves.last() == MoveRecord::Encoded { sample, result });
    }
}


/// A run that is followed by the step the lifecycle asks for next is a run
/// again, and ends where that step leads.
pub proof fn lemma_run_goes_on(v: SessionView, records: Seq<StepRecord>, next: StepRecord)
    requires
        v.runs(records),
        v.after_steps(records).lifecycle.next_step() == Some(next.step),
    ensures
        v.runs(records.push(next)),
        v.after_steps(records.push(next)) == v.after_steps(records).after_step(
            next.step,
            next.outcome,
        ),
    decreases records.len(),
{
    let longer = records.push(next);
    reveal_with_fuel(SessionView::runs, 2);
    reveal_with_fuel(SessionView::after_steps, 2);
    if records.len() == 0 {
        assert(longer[0] == next);
        assert(longer.drop_first() =~= records);
        assert(v.after_steps(records) == v);
    } else {
        let then = v.after_step(records[0].step, records[0].outcome);
        assert(longer[0] == records[0]);
        assert(longer.drop_first() =~= records.drop_first().push(next));
        lemma_run_goes_on(then, records.drop_first(), next);
        assert(then.runs(longer.drop_first()));
        assert(v.after_steps(longer) == then.after_steps(longer.drop_first()));
        assert(v.after_steps(records) == then.after_steps(records.drop_first()));
    }
}

/// The steps of a run are put on record, one after the other, behind what
/// was on record before.
pub proof fn lemma_run_is_on_record(v: SessionView, records: Seq<StepRecord>)
    requires
        v.runs(records),
    ensures
        v.after_steps(records).journal == v.journal + records,
        v.after_steps(records).settings == v.settings,
    decreases records.len(),
{
    if records.len() == 0 {
        assert(v.journal + records =~= v.journal);
    } else {
        let then = v.after_step(records[0].step, records[0].outcome);
        lemma_run_is_on_record(then, records.drop_first());
        assert(v.journal.push(records[0]) + records.drop_first() =~= v.journal + records);
    }
}


/// A start that runs to rest brings the stages up in order, each once. It
/// ends running exactly if every one of them came up. Else the stage that
/// failed is kept as the cause with what it returned, the stages before it
/// are shut down once each, the last of them first, no stage after it is
/// touched, and the session ends faulted and holds nothing.
#[verifier::rlimit(60)]
pub proof fn law_start_steps(v: SessionView, records: Seq<StepRecord>)
    requires
        v.wf(),
        v.lifecycle.goal == Goal::Up,
        v.lifecycle.held == 0,
        v.runs(records),
        v.after_steps(records).lifecycle.goal == Goal::Rest,
    ensures
        start_taken(v.lifecycle.audio, records, v.after_steps(records).fault),
        ({
            let end = v.after_steps(records);
            let count = stage_count(v.lifecycle.audio);
            let up = ((records.len() - 1) / 2) as nat;
            if end.lifecycle.state == PipelineState::Running {
                &&& end.lifecycle == LifecycleView::running(v.lifecycle.audio)
                &&& steps_of(records) == bring_ups(count)
                &&& forall|i: int| 0 <= i < records.len() ==> (#[trigger] records[i]).outcome is Ok
            } else {
                &&& end.lifecycle == LifecycleView::faulted(v.lifecycle.audio)
                &&& up < count
                &&& steps_of(records) == bring_ups(up + 1) + shutdowns(up)
                &&& forall|i: int| 0 <= i < up ==> (#[trigger] records[i]).outcome is Ok
                &&& records[up as int].outcome matches Err(cause) && end.fault == Some(
                    Failure { stage: stage_at(up), cause },
                )
            }
        }),
{
    reveal_with_fuel(SessionView::runs, 9);
    reveal_with_fuel(SessionView::after_steps, 9);
    let end = v.after_steps(records);
    let up = ((records.len() - 1) / 2) as nat;
    let r1 = records.drop_first();
    let r2 = r1.drop_first();
    let r3 = r2.drop_first();
    let r4 = r3.drop_first();
    let r5 = r4.drop_first();
    let r6 = r5.drop_first();
    let r7 = r6.drop_first();
    assert(records.len() <= 7);
    if end.lifecycle.state == PipelineState::Running {
        assert(steps_of(records) =~= bring_ups(stage_count(v.lifecycle.audio)));
    } else {
        assert(steps_of(records) =~= bring_ups(up + 1) + shutdowns(up));
    }
}

/// A stop that runs to rest shuts the held stages down once each, the
/// last brought up first, with one drain after the capture stages if one
/// is due, and ends idle.
#[verifier::rlimit(60)]
pub proof fn law_stop_steps(v: SessionView, records: Seq<StepRecord>)
    requires
        v.wf(),
        v.lifecycle.state == PipelineState::Stopping || v.lifecycle.state == PipelineState::Idle,
        v.runs(records),
        v.after_steps(records).lifecycle.goal == Goal::Rest,
    ensures
        v.after_steps(records).lifecycle == LifecycleView::idle(),
        steps_of(records) == teardown(v.lifecycle.held, !v.lifecycle.drained),
        records.len() <= 5,
{
    reveal_with_fuel(SessionView::runs, 7);
    reveal_with_fuel(SessionView::after_steps, 7);
    let r1 = records.drop_first();
    let r2 = r1.drop_first();
    let r3 = r2.drop_first();
    let r4 = r3.drop_first();
    let r5 = r4.drop_first();
    assert(records.len() <= 5);
    assert(steps_of(records) =~= teardown(v.lifecycle.held, !v.lifecycle.drained));
}

/// The teardown of a faulted session, run to rest, shuts the held stages
/// down once each, the last brought up first, without a drain, and leaves
/// the session faulted with the cause it had.
#[verifier::rlimit(60)]
pub proof fn law_fault_steps(v: SessionView, records: Seq<StepRecord>)
    requires
        v.wf(),
        v.lifecycle.state == PipelineState::Faulted,
        v.runs(records),
        v.after_steps(records).lifecycle.goal == Goal::Rest,
    ensures
        v.after_steps(records).lifecycle == LifecycleView::faulted(v.lifecycle.audio),
        v.after_steps(records).fault == v.fault,
        steps_of(records) == shutdowns(v.lifecycle.held),
{
    reveal_with_fuel(SessionView::runs, 6);
    reveal_with_fuel(SessionView::after_steps, 6);
    let r1 = records.drop_first();
    let r2 = r1.drop_first();
    let r3 = r2.drop_first();
    let r4 = r3.drop_first();
    assert(records.len() <= 4);
    assert(steps_of(records) =~= shutdowns(v.lifecycle.held));
}


/// A replacement of the stages that runs to rest shuts the held stages
/// down once each, the last brought up first and without a drain, and then
/// takes the steps of a start.
#[verifier::rlimit(100)]
pub proof fn law_replace_steps(v: SessionView, records: Seq<StepRecord>)
    requires
        v.wf(),
        v.lifecycle.state == PipelineState::Configuring,
        v.lifecycle.goal == Goal::Down,
        v.runs(records),
        v.after_steps(records).lifecycle.goal == Goal::Rest,
    ensures
        v.lifecycle.held <= records.len(),
        steps_of(records.take(v.lifecycle.held as int)) == shutdowns(v.lifecycle.held),
        start_taken(
            v.lifecycle.audio,
            records.skip(v.lifecycle.held as int),
            v.after_steps(records).fault,
        ),
{
    reveal_with_fuel(SessionView::runs, 5);
    reveal_with_fuel(SessionView::after_steps, 5);
    let held = v.lifecycle.held as int;
    let r1 = records.drop_first();
    let r2 = r1.drop_first();
    let r3 = r2.drop_first();
    let r4 = r3.drop_first();
    assert(records.len() >= held);
    let rest = records.skip(held);
    assert(rest == if held == 4 {
        r4
    } else if held == 3 {
        r3
    } else if held == 2 {
        r2
    } else {
        r1
    }) by {
        assert(rest =~= if held == 4 {
            r4
        } else if held == 3 {
            r3
        } else if held == 2 {
            r2
        } else {
            r1
        });
    }
    let begun = v.after_steps(records.take(held));
    lemma_run_splits(v, records, held);
    law_start_steps(begun, rest);
    assert(steps_of(records.take(held)) =~= shutdowns(v.lifecycle.held));
}

/// A run can be taken in two parts: its first steps are a run, and the
/// rest is a run from where they lead.
pub proof fn lemma_run_splits(v: SessionView, records: Seq<StepRecord>, at: int)
    requires
        v.runs(records),
        0 <= at <= records.len(),
    ensures
        v.runs(records.take(at)),
        v.after_steps(records.take(at)).runs(records.skip(at)),
        v.after_steps(records.take(at)).after_steps(records.skip(at)) == v.after_steps(records),
    decreases at,
{
    reveal_with_fuel(SessionView::runs, 2);
    reveal_with_fuel(SessionView::after_steps, 2);
    if at == 0 {
        assert(records.skip(0) =~= records);
        assert(records.take(0).len() == 0);
    } else {
        let then = v.after_step(records[0].step, records[0].outcome);
        let rest = records.drop_first();
        lemma_run_splits(then, rest, at - 1);
        assert(records.take(at).drop_first() =~= rest.take(at - 1));
        assert(records.take(at)[0] == records[0]);
        assert(records.skip(at) =~= rest.skip(at - 1));
    }
}


/// Moves of a drain that are followed by the move a drain makes next are
/// moves of a drain again, and end where that move leads.
pub proof fn lemma_moves_go_on(v: SessionView, moves: Seq<MoveRecord>, next: MoveRecord)
    requires
        v.drain_moves(moves),
        v.after_moves(moves).drain_makes(next),
    ensures
        v.drain_moves(moves.push(next)),
        v.after_moves(moves.push(next)) == v.after_moves(moves).after_move(next),
    decreases moves.len(),
{
    let longer = moves.push(next);
    reveal_with_fuel(SessionView::drain_moves, 2);
    reveal_with_fuel(SessionView::after_moves, 2);
    if moves.len() == 0 {
        assert(longer[0] == next);
        assert(longer.drop_first() =~= moves);
        assert(v.after_moves(moves) == v);
    } else {
        let then = v.after_move(moves[0]);
        assert(longer[0] == moves[0]);
        assert(longer.drop_first() =~= moves.drop_first().push(next));
        lemma_moves_go_on(then, moves.drop_first(), next);
        assert(then.drain_moves(longer.drop_first()));
        assert(v.after_moves(longer) == then.after_moves(longer.drop_first()));
        assert(v.after_moves(moves) == then.after_moves(moves.drop_first()));
    }
}

/// No move reads the record of steps or the count of warnings: sessions
/// that differ in nothing else make the same moves and differ in nothing
/// else after them.
pub proof fn lemma_moves_ignore_the_record(a: SessionView, b: SessionView, moves: Seq<MoveRecord>)
    requires
        a.record_apart(b),
    ensures
        a.after_moves(moves).record_apart(b.after_moves(moves)),
        a.drain_moves(moves) == b.drain_moves(moves),
        a.drained_by(moves) == b.drained_by(moves),
    decreases moves.len(),
{
    if moves.len() > 0 {
        assert(a.after_move(moves[0]).record_apart(b.after_move(moves[0])));
        lemma_moves_ignore_the_record(
            a.after_move(moves[0]),
            b.after_move(moves[0]),
            moves.drop_first(),
        );
    }
}


/// While a session with room for a packet drains, moves that all succeed
/// give nothing up: each takes one unit one stage further, the counters
/// stay as they are, and what has reached the transport, followed by what
/// is still buffered, is what was buffered before, in its order.
pub proof fn lemma_drain_that_succeeds(v: SessionView, moves: Seq<MoveRecord>)
    requires
        v.wf(),
        v.lifecycle.next_step() == Some(Step::Drain),
        v.settings.packet_capacity >= 1,
        v.drain_moves(moves),
        all_succeeded(moves),
    ensures
        v.after_moves(moves).wf(),
        v.after_moves(moves).lifecycle == v.lifecycle,
        v.after_moves(moves).settings == v.settings,
        v.after_moves(moves).stats == v.stats,
        v.after_moves(moves).work_left() + moves.len() == v.work_left(),
        times_of_packets(v.delivered_in(moves)) + times_of_packets(v.after_moves(moves).packets)
            + times_of_samples(v.after_moves(moves).frames) == times_of_packets(v.packets)
            + times_of_samples(v.frames),
    decreases moves.len(),
{
    if moves.len() == 0 {
        assert(times_of_packets(v.delivered_in(moves)) + times_of_packets(v.packets)
            + times_of_samples(v.frames) =~= times_of_packets(v.packets) + times_of_samples(
            v.frames,
        ));
    } else {
        let made = moves[0];
        let then = v.after_move(made);
        let rest = moves.drop_first();
        assert(succeeded(made));
        assert(all_succeeded(rest)) by {
            assert forall|i: int| 0 <= i < rest.len() implies succeeded(#[trigger] rest[i]) by {
                assert(rest[i] == moves[i + 1]);
            }
        }
        assert(then.wf());
        lemma_drain_that_succeeds(then, rest);
        let end = then.after_moves(rest);
        let gone = times_of_packets(then.delivered_in(rest));
        let queued = times_of_packets(end.packets);
        let waiting = times_of_samples(end.frames);
        assert(gone + queued + waiting == times_of_packets(then.packets) + times_of_samples(
            then.frames,
        ));
        match made {
            MoveRecord::Sent { outcome } => {
                assert(then.packets == v.packets.drop_first());
                assert(then.frames == v.frames);
                assert(times_of_packets(v.packets) =~= seq![v.packets.first().timestamp]
                    + times_of_packets(then.packets));
                assert(times_of_packets(seq![v.packets.first()]) =~= seq![
                    v.packets.first().timestamp,
                ]);
                assert(v.delivered_in(moves) == seq![v.packets.first()] + then.delivered_in(rest));
                let first = seq![v.packets.first().timestamp];
                assert(times_of_packets(v.delivered_in(moves)) =~= first + gone);
                assert((first + gone) + queued + waiting =~= first + (gone + queued + waiting));
                assert(first + (times_of_packets(then.packets) + times_of_samples(then.frames))
                    =~= (first + times_of_packets(then.packets)) + times_of_samples(v.frames));
                assert(times_of_packets(v.delivered_in(moves)) + queued + waiting
                    == times_of_packets(v.packets) + times_of_samples(v.frames));
            },
            MoveRecord::Encoded { sample, result } => {
                assert(v.packets.len() == 0);
                assert(then.frames == v.frames.drop_first());
                assert(then.packets.len() == 1);
                assert(then.packets[0].timestamp == v.frames.first().timestamp());
                assert(times_of_packets(then.packets) =~= seq![v.frames.first().timestamp()]);
                assert(times_of_samples(v.frames) =~= seq![v.frames.first().timestamp()]
                    + times_of_samples(then.frames));
                assert(times_of_packets(v.packets) =~= Seq::<u64>::empty());
                assert(v.delivered_in(moves) =~= then.delivered_in(rest));
                assert(times_of_packets(then.packets) + times_of_samples(then.frames)
                    =~= times_of_packets(v.packets) + times_of_samples(v.frames));
                assert(times_of_packets(v.delivered_in(moves)) + queued + waiting
                    == times_of_packets(v.packets) + times_of_samples(v.frames));
            },
        }
    }
}

/// The stop of a running session loses nothing if every move of its drain
/// succeeds, the drain budget covers two moves for each sample and one for
/// each packet, and the packet buffer has room for a packet: no frame is
/// counted as dropped, and every unit that was buffered has reached the
/// transport, each once and in the order in which it was captured.
pub proof fn law_stop_loses_nothing(v: SessionView, end: SessionView)
    requires
        v.wf(),
        v.lifecycle.state == PipelineState::Running,
        v.stops_to(end),
        all_succeeded(v.moves_until(end)),
        v.settings.drain_budget >= v.work_left(),
        v.settings.packet_capacity >= 1,
    ensures
        end.stats.dropped_frames == v.stats.dropped_frames,
        v.moves_until(end).len() == v.work_left(),
        times_of_packets(v.at_drain().delivered_in(v.moves_until(end))) == times_of_packets(
            v.packets,
        ) + times_of_samples(v.frames),
{
    let moves = v.moves_until(end);
    let start = v.at_drain();
    let drained = start.after_moves(moves);
    lemma_drain_that_succeeds(start, moves);
    assert(drained.work_left() == 0);
    assert(drained.packets =~= Seq::<EncodedPacket>::empty());
    assert(drained.frames =~= Seq::<Sample>::empty());
    assert(times_of_packets(start.delivered_in(moves)) + times_of_packets(drained.packets)
        + times_of_samples(drained.frames) =~= times_of_packets(start.delivered_in(moves)));
}


/// A running session whose buffers both block keeps the order of capture
/// from end to end as long as every move succeeds: whatever is offered and
/// whichever stage moves when, nothing is counted as dropped, and what has
/// reached the transport, followed by the packets and then the samples
/// still buffered, is what was buffered before followed by what the frame
/// buffer let in, each unit once and in its order.
pub proof fn law_blocking_session_keeps_order(v: SessionView, events: Seq<FlowEvent>)
    requires
        v.wf(),
        v.lifecycle.state == PipelineState::Running,
        v.settings.frame_policy == BackpressurePolicy::Block,
        v.settings.packet_policy == BackpressurePolicy::Block,
        v.flows_through(events),
        all_moves_succeeded(events),
    ensures
        v.after_events(events).wf(),
        v.after_events(events).lifecycle == v.lifecycle,
        v.after_events(events).settings == v.settings,
        v.after_events(events).stats.dropped_frames == v.stats.dropped_frames,
        v.after_events(events).frames.len() <= v.settings.frame_capacity,
        v.after_events(events).packets.len() <= v.settings.packet_capacity,
        times_of_packets(v.delivered_over(events)) + times_of_packets(
            v.after_events(events).packets,
        ) + times_of_samples(v.after_events(events).frames) == times_of_packets(v.packets)
            + times_of_samples(v.frames) + times_of_samples(v.admitted_in(events)),
    decreases events.len(),
{
    if events.len() == 0 {
        assert(times_of_packets(v.delivered_over(events)) + times_of_packets(v.packets)
            + times_of_samples(v.frames) =~= times_of_packets(v.packets) + times_of_samples(
            v.frames,
        ) + times_of_samples(v.admitted_in(events)));
    } else {
        let event = events[0];
        let then = v.after_event(event);
        let rest = events.drop_first();
        assert(all_moves_succeeded(rest)) by {
            assert forall|i: int| 0 <= i < rest.len() implies (#[trigger] rest[i] matches FlowEvent::Made {
                made,
            } ==> succeeded(made)) by {
                assert(rest[i] == events[i + 1]);
            }
        }
        assert(event matches FlowEvent::Made { made } ==> succeeded(made));
        assert(then.wf());
        law_blocking_session_keeps_order(then, rest);
        let end = then.after_events(rest);
        let gone = times_of_packets(then.delivered_over(rest));
        let queued = times_of_packets(end.packets);
        let waiting = times_of_samples(end.frames);
        let let_in = times_of_samples(then.admitted_in(rest));
        let packets = times_of_packets(v.packets);
        let frames = times_of_samples(v.frames);
        assert(gone + queued + waiting == times_of_packets(then.packets) + times_of_samples(
            then.frames,
        ) + let_in);
        match event {
            FlowEvent::Offered { sample } => {
                assert(v.delivered_over(events) =~= then.delivered_over(rest));
                if v.frames.len() < v.settings.frame_capacity {
                    let this = seq![sample.timestamp()];
                    assert(then.frames == v.frames.push(sample));
                    assert(times_of_samples(then.frames) =~= frames + this);
                    assert(v.admitted_in(events) =~= seq![sample] + then.admitted_in(rest));
                    assert(times_of_samples(v.admitted_in(events)) =~= this + let_in);
                    assert(packets + (frames + this) + let_in =~= packets + frames + (this
                        + let_in));
                } else {
                    assert(then == v);
                    assert(v.admitted_in(events) =~= then.admitted_in(rest));
                }
            },
            FlowEvent::Made { made: MoveRecord::Sent { outcome } } => {
                let this = seq![v.packets.first().timestamp];
                assert(then.packets == v.packets.drop_first());
                assert(then.frames == v.frames);
                assert(packets =~= this + times_of_packets(then.packets));
                assert(v.delivered_over(events) == seq![v.packets.first()] + then.delivered_over(
                    rest,
                ));
                assert(times_of_packets(v.delivered_over(events)) =~= this + gone);
                assert(v.admitted_in(events) =~= then.admitted_in(rest));
                assert((this + gone) + queued + waiting =~= this + (gone + queued + waiting));
                assert(this + (times_of_packets(then.packets) + frames + let_in) =~= (this
                    + times_of_packets(then.packets)) + frames + let_in);
            },
            FlowEvent::Made { made: MoveRecord::Encoded { sample, result } } => {
                let this = seq![v.frames.first().timestamp()];
                assert(then.frames == v.frames.drop_first());
                assert(then.packets.len() == v.packets.len() + 1);
                assert(then.packets.last().timestamp == v.frames.first().timestamp());
                assert(then.packets.drop_last() =~= v.packets);
                assert(times_of_packets(then.packets) =~= packets + this);
                assert(frames =~= this + times_of_samples(then.frames));
                assert(v.delivered_over(events) =~= then.delivered_over(rest));
                assert(v.admitted_in(events) =~= then.admitted_in(rest));
                assert((packets + this) + times_of_samples(then.frames) + let_in =~= packets + (
                this + times_of_samples(then.frames)) + let_in);
            },
        }
        assert(times_of_packets(v.delivered_over(events)) + queued + waiting == packets + frames
            + times_of_samples(v.admitted_in(events)));
    }
}


/// From a running session to the end of its stop, under buffers that
/// block: if every move succeeds, those while it runs and those of the
/// drain, the drain budget covers what is buffered when the stop comes, and
/// the packet buffer has room for a packet, then no frame is counted as
/// dropped, and what has reached the transport, while running and then in
/// the drain, is what was buffered at first followed by what the frame
/// buffer let in: every unit, each once, in the order of capture.
pub proof fn law_blocking_session_delivers_all(
    v: SessionView,
    events: Seq<FlowEvent>,
    end: SessionView,
)
    requires
        v.wf(),
        v.lifecycle.state == PipelineState::Running,
        v.settings.frame_policy == BackpressurePolicy::Block,
        v.settings.packet_policy == BackpressurePolicy::Block,
        v.settings.packet_capacity >= 1,
        v.flows_through(events),
        all_moves_succeeded(events),
        v.after_events(events).stops_to(end),
        all_succeeded(v.after_events(events).moves_until(end)),
        v.settings.drain_budget >= v.after_events(events).work_left(),
    ensures
        end.stats.dropped_frames == v.stats.dropped_frames,
        times_of_packets(v.delivered_over(events)) + times_of_packets(
            v.after_events(events).at_drain().delivered_in(
                v.after_events(events).moves_until(end),
            ),
        ) == times_of_packets(v.packets) + times_of_samples(v.frames) + times_of_samples(
            v.admitted_in(events),
        ),
{
    let stopped = v.after_events(events);
    law_blocking_session_keeps_order(v, events);
    law_stop_loses_nothing(stopped, end);
    let ran = times_of_packets(v.delivered_over(events));
    let drained = times_of_packets(stopped.at_drain().delivered_in(stopped.moves_until(end)));
    assert(ran + drained =~= ran + times_of_packets(stopped.packets) + times_of_samples(
        stopped.frames,
    ));
}


} // verus!
