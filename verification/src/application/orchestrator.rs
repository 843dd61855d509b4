use crate::application::config::{FlowSettings, PipelineConfig};
use crate::application::lifecycle::{
    law_steps_stay_on_course, shutdowns, teardown, Goal, LifecycleView, PipelineState, Stage,
    Step,
};
use crate::application::media::{EncodedPacket, Sample};
use crate::application::session::{
    law_fault_steps, law_replace_steps, law_start_steps, law_stop_steps, lemma_draining_encode,
    lemma_draining_send, lemma_moves_go_on, lemma_moves_ignore_the_record, lemma_run_goes_on,
    start_taken, steps_of, Admission, MoveRecord, PipelineError, Progress, Session, SessionView,
    StageCall, StepRecord,
};
use crate::application::stages::{frame_stall, CaptureStage, EncodeStage, TransportStage};
use crate::application::supervisor::{bumped, Failure, SessionStats, StageError};
use crate::domain::capture::{AudioCapture, MediaCapture};
use crate::domain::encoding::MediaEncoder;
use crate::domain::error::CaptureError;
use crate::domain::transport::MediaTransport;
use vstd::prelude::*;

verus! {

/// A session together with its collaborators.
///
/// The orchestrator owns the stages and the buffers between them. Each of
/// its control calls returns with the lifecycle at rest: it takes every step
/// the lifecycle asks for, calling the collaborators one at a time, before
/// it returns. Its view is that of its session.
pub struct PipelineOrchestrator<
    C: MediaCapture,
    A: AudioCapture,
    E: MediaEncoder,
    T: MediaTransport,
> {
    session: Session,
    capture: CaptureStage<C, A>,
    encoder: EncodeStage<E>,
    transport: TransportStage<T>,
}

impl<C: MediaCapture, A: AudioCapture, E: MediaEncoder, T: MediaTransport> View for PipelineOrchestrator<
    C,
    A,
    E,
    T,
> {
    type V = SessionView;

    closed spec fn view(&self) -> SessionView {
        self.session@
    }
}

impl<
    C: MediaCapture,
    A: AudioCapture,
    E: MediaEncoder,
    T: MediaTransport,
> PipelineOrchestrator<C, A, E, T> {
    /// The session is well formed and its lifecycle rests.
    pub closed spec fn wf(&self) -> bool {
        self.session.wf() && self.session@.lifecycle.goal == Goal::Rest
    }

    /// What `wf` promises of the view.
    pub proof fn lemma_view_wf(&self)
        requires
            self.wf(),
        ensures
            self@.wf(),
            self@.lifecycle.goal == Goal::Rest,
    {
        self.session.lemma_view_wf();
    }

    pub closed spec fn spec_capture(&self) -> &CaptureStage<C, A> {
        &self.capture
    }

    pub closed spec fn spec_encoder(&self) -> &EncodeStage<E> {
        &self.encoder
    }

    pub closed spec fn spec_transport(&self) -> &TransportStage<T> {
        &self.transport
    }

    /// Whether this pipeline has the stages, and with them the
    /// collaborators, that `before` had.
    pub open spec fn keeps_stages(&self, before: Self) -> bool {
        &&& self.capture() == before.capture()
        &&& self.encoder() == before.encoder()
        &&& self.transport() == before.transport()
    }

    /// An idle pipeline around the given collaborators.
    pub fn new(video: C, audio: A, encoder: E, transport: T, settings: FlowSettings) -> (pipeline:
        Self)
        ensures
            pipeline.wf(),
            pipeline@ == SessionView::fresh(settings),
            pipeline.capture().video() == video,
            pipeline.capture().audio() == audio,
            pipeline.encoder().encoder() == encoder,
            pipeline.transport().transport() == transport,
    {
        PipelineOrchestrator {
            session: Session::new(settings),
            capture: CaptureStage::new(video, audio),
            encoder: EncodeStage::new(encoder),
            transport: TransportStage::new(transport),
        }
    }

    pub fn state(&self) -> (state: PipelineState)
        ensures
            state == self@.lifecycle.state,
    {
        self.session.state()
    }

    pub fn is_running(&self) -> (running: bool)
        ensures
            running <==> self@.lifecycle.state == PipelineState::Running,
    {
        self.session.is_running()
    }

    pub fn stats(&self) -> (stats: SessionStats)
        ensures
            stats == self@.stats,
    {
        self.session.stats()
    }

    /// The capture stage with its devices.
    #[verifier::when_used_as_spec(spec_capture)]
    pub fn capture(&self) -> (stage: &CaptureStage<C, A>)
        ensures
            stage == self.spec_capture(),
    {
        &self.capture
    }

    /// The encode stage with its encoder.
    #[verifier::when_used_as_spec(spec_encoder)]
    pub fn encoder(&self) -> (stage: &EncodeStage<E>)
        ensures
            stage == self.spec_encoder(),
    {
        &self.encoder
    }

    /// The transport stage with its transport.
    #[verifier::when_used_as_spec(spec_transport)]
    pub fn transport(&self) -> (stage: &TransportStage<T>)
        ensures
            stage == self.spec_transport(),
    {
        &self.transport
    }

    /// The session, for a closer look.
    pub fn session(&self) -> (session: &Session)
        ensures
            session@ == self@,
            self.wf() ==> session.wf(),
    {
        &self.session
    }

    /// Takes `config` if the pipeline is idle and the configuration usable;
    /// no collaborator is touched. A refusal changes nothing.
    pub fn configure(&mut self, config: PipelineConfig) -> (outcome: Result<(), PipelineError>)
        requires
            old(self).wf(),
        ensures
            final(self).wf(),
            final(self)@ == old(self)@.after_configure(config),
            outcome == old(self)@.configure_result(config),
            final(self).keeps_stages(*old(self)),
    {
        proof {
            self.session.lemma_view_wf();
        }
        self.session.configure(config)
    }

    /// Brings the stages up in order: transport, encoder, capture and, if
    /// configured, audio.
    ///
    /// A pipeline with no configuration in hand refuses with its state, and
    /// nothing is changed. Otherwise the pipeline ends up running, holding
    /// every stage, exactly if the call returns `Ok`. If a stage fails to
    /// come up, the stages before it are shut down again, the pipeline is
    /// faulted and holds nothing, and the failure comes back as fatal: it
    /// names a stage of the configuration and is of the kind that stage
    /// raises. The steps taken are put on record with what came of each, and
    /// the session is exactly what they make of it.
    pub fn start(&mut self) -> (outcome: Result<(), PipelineError>)
        requires
            old(self).wf(),
        ensures
            final(self).wf(),
            old(self)@.start_result() is Err ==> {
                &&& outcome == old(self)@.start_result()
                &&& final(self)@ == old(self)@
            },
            old(self)@.start_result() is Ok ==> {
                &&& old(self)@.after_start_request().ran_exactly_to(final(self)@)
                &&& start_taken(
                    old(self)@.lifecycle.audio,
                    old(self)@.after_start_request().steps_until(final(self)@),
                    final(self)@.fault,
                )
                &&& old(self)@.same_but_control(final(self)@)
                &&& old(self)@.counts_on_to(final(self)@)
                &&& match outcome {
                    Ok(_) => {
                        &&& final(self)@.lifecycle == LifecycleView::running(
                            old(self)@.lifecycle.audio,
                        )
                        &&& final(self)@.fault is None
                    },
                    Err(e) => {
                        &&& e matches PipelineError::Fatal(failure)
                        &&& final(self)@.fault == Some(failure)
                        &&& failure.of_its_stage()
                        &&& failure.stage == Stage::Audio ==> old(self)@.lifecycle.audio
                        &&& final(self)@.lifecycle == LifecycleView::faulted(
                            old(self)@.lifecycle.audio,
                        )
                    },
                }
            },
            final(self).keeps_stages(*old(self)),
    {
        proof {
            self.session.lemma_view_wf();
        }
        match self.session.request_start() {
            Err(e) => {
                return Err(e);
            },
            Ok(_) => {},
        }
        let ghost asked = self.session@;
        self.settle();
        proof {
            self.session.lemma_view_wf();
            law_start_steps(asked, asked.steps_until(self.session@));
        }
        match self.session.fault() {
            Some(failure) => Err(PipelineError::Fatal(failure.clone())),
            None => Ok(()),
        }
    }

    /// Stops the pipeline, from whatever state it is in.
    ///
    /// Audio and capture are shut down first; a pipeline that was running
    /// then moves what is buffered through encoder and transport, as far as
    /// its drain budget reaches; then encoder and transport are let go. The
    /// pipeline ends up idle, without configuration, with empty buffers and
    /// holding nothing, whatever the collaborators return. The steps taken
    /// are put on record, and so are the moves of the drain with what came
    /// of each. No retry is counted, and the frames counted as dropped are
    /// those the moves of the drain gave up and those still buffered after
    /// them. Stopping an idle pipeline changes nothing.
    pub fn stop(&mut self)
        requires
            old(self).wf(),
        ensures
            final(self).wf(),
            final(self)@ == (SessionView {
                stats: final(self)@.stats,
                journal: final(self)@.journal,
                moves: final(self)@.moves,
                ..SessionView::fresh(old(self)@.settings)
            }),
            old(self)@.after_stop_request().ran_to(final(self)@),
            old(self)@.stops_to(final(self)@),
            steps_of(old(self)@.after_stop_request().steps_until(final(self)@)) == teardown(
                old(self)@.lifecycle.held,
                old(self)@.lifecycle.state == PipelineState::Running,
            ),
            old(self)@.counts_on_to(final(self)@),
            final(self)@.stats.retries == old(self)@.stats.retries,
            final(self)@.stats.dropped_frames <= old(self)@.stats.dropped_frames + old(self)@.frames.len() + old(self)@.packets.len(),
            old(self)@.lifecycle.state == PipelineState::Idle ==> final(self)@ == old(self)@,
            final(self).keeps_stages(*old(self)),
    {
        proof {
            self.session.lemma_view_wf();
        }
        self.session.request_stop();
        proof {
            self.session.lemma_view_wf();
            assert(old(self)@.moves + Seq::<MoveRecord>::empty() =~= old(self)@.moves);
            assert(old(self)@.moves_until(self.session@) =~= Seq::<MoveRecord>::empty());
            if old(self)@.lifecycle.state == PipelineState::Idle {
                assert(self.session@.frames =~= old(self)@.frames);
                assert(self.session@.packets =~= old(self)@.packets);
                assert(self.session@ == old(self)@);
            }
        }
        let ghost asked = self.session@;
        self.settle();
        proof {
            self.session.lemma_view_wf();
            assert(self.session@.frames =~= Seq::<Sample>::empty());
            assert(self.session@.packets =~= Seq::<EncodedPacket>::empty());
            law_stop_steps(asked, asked.steps_until(self.session@));
            if old(self)@.lifecycle.state == PipelineState::Running {
                assert(asked.at_drain() == old(self)@.at_drain());
            }
            assert(asked.moves_until(self.session@) == old(self)@.moves_until(self.session@));
        }
    }

    /// Replaces the configuration of a running pipeline.
    ///
    /// A pipeline that is not running refuses with its state, an unusable
    /// configuration is refused with its first offending parameter, and
    /// either way nothing is changed. Otherwise the stages are shut down,
    /// what was buffered for the old configuration is discarded, and the
    /// stages are brought up for the new one. The pipeline ends up running
    /// exactly if the call returns `Ok`; if a stage fails to come up it is
    /// faulted and holds nothing. It never goes back to the old
    /// configuration.
    pub fn reconfigure(&mut self, config: PipelineConfig) -> (outcome: Result<(), PipelineError>)
        requires
            old(self).wf(),
        ensures
            final(self).wf(),
            old(self)@.reconfigure_result(config) is Err ==> {
                &&& outcome == old(self)@.reconfigure_result(config)
                &&& final(self)@ == old(self)@
            },
            old(self)@.reconfigure_result(config) is Ok ==> {
                &&& old(self)@.after_reconfigure_request(config).ran_exactly_to(final(self)@)
                &&& steps_of(
                    old(self)@.after_reconfigure_request(config).steps_until(final(self)@).take(
                        old(self)@.lifecycle.held as int,
                    ),
                ) == shutdowns(old(self)@.lifecycle.held)
                &&& start_taken(
                    config.audio is Some,
                    old(self)@.after_reconfigure_request(config).steps_until(final(self)@).skip(
                        old(self)@.lifecycle.held as int,
                    ),
                    final(self)@.fault,
                )
                &&& old(self)@.after_reconfigure_request(config).same_but_control(final(self)@)
                &&& old(self)@.counts_on_to(final(self)@)
                &&& match outcome {
                    Ok(_) => {
                        &&& final(self)@.lifecycle == LifecycleView::running(config.audio is Some)
                        &&& final(self)@.fault is None
                    },
                    Err(e) => {
                        &&& e matches PipelineError::Fatal(failure)
                        &&& final(self)@.fault == Some(failure)
                        &&& failure.of_its_stage()
                        &&& failure.stage == Stage::Audio ==> config.audio is Some
                        &&& final(self)@.lifecycle == LifecycleView::faulted(config.audio is Some)
                    },
                }
            },
            final(self).keeps_stages(*old(self)),
    {
        proof {
            self.session.lemma_view_wf();
        }
        match self.session.request_reconfigure(config) {
            Err(e) => {
                return Err(e);
            },
            Ok(_) => {},
        }
        let ghost asked = self.session@;
        self.settle();
        proof {
            self.session.lemma_view_wf();
            law_replace_steps(asked, asked.steps_until(self.session@));
        }
        match self.session.fault() {
            Some(failure) => Err(PipelineError::Fatal(failure.clone())),
            None => Ok(()),
        }
    }

    /// Offers a captured sample to the frame buffer. Only a running
    /// pipeline takes samples.
    pub fn submit_sample(&mut self, sample: Sample) -> (admission: Admission)
        requires
            old(self).wf(),
        ensures
            final(self).wf(),
            final(self)@ == old(self)@.after_offer(sample),
            admission == old(self)@.offer_result(sample),
            final(self).keeps_stages(*old(self)),
    {
        self.capture.deliver(&mut self.session, sample)
    }

    /// Makes one move of the encode stage. A failure that is fatal shuts
    /// the stages down and leaves the pipeline faulted, holding nothing,
    /// with the failure of the encoder as its cause.
    pub fn encode_next(&mut self) -> (progress: Progress)
        requires
            old(self).wf(),
        ensures
            final(self).wf(),
            progress != Progress::Faulted ==> old(self)@.encode_step(final(self)@, progress),
            progress == Progress::Faulted ==> {
                &&& old(self)@.lifecycle.state == PipelineState::Running
                &&& exists|mid: SessionView|
                    {
                        &&& old(self)@.encode_step(mid, progress)
                        &&& #[trigger] mid.same_but_control(final(self)@)
                        &&& mid.ran_exactly_to(final(self)@)
                        &&& final(self)@.fault == mid.fault
                    }
                &&& final(self)@.lifecycle == LifecycleView::faulted(old(self)@.lifecycle.audio)
                &&& final(self)@.fault matches Some(failure) && failure.stage == Stage::Encoder
                    && failure.cause is Encoding
                &&& steps_of(old(self)@.steps_until(final(self)@)) == shutdowns(
                    old(self)@.lifecycle.held,
                )
                &&& old(self)@.counts_on_to(final(self)@)
            },
            final(self).keeps_stages(*old(self)),
    {
        proof {
            self.session.lemma_view_wf();
        }
        let progress = self.encoder.step(&mut self.session);
        let ghost mid = self.session@;
        proof {
            self.session.lemma_view_wf();
        }
        match progress {
            Progress::Faulted => {
                self.settle();
                proof {
                    assert(mid.same_but_control(self.session@));
                    assert(mid.ran_exactly_to(self.session@));
                    law_fault_steps(mid, mid.steps_until(self.session@));
                }
            },
            _ => {},
        }
        progress
    }

    /// Makes one move of the transport stage. A failure that is fatal shuts
    /// the stages down and leaves the pipeline faulted, holding nothing,
    /// with the failure of the transport as its cause.
    pub fn send_next(&mut self) -> (progress: Progress)
        requires
            old(self).wf(),
        ensures
            final(self).wf(),
            progress != Progress::Faulted ==> old(self)@.send_step(final(self)@, progress),
            progress == Progress::Faulted ==> {
                &&& old(self)@.lifecycle.state == PipelineState::Running
                &&& exists|mid: SessionView|
                    {
                        &&& old(self)@.send_step(mid, progress)
                        &&& #[trigger] mid.same_but_control(final(self)@)
                        &&& mid.ran_exactly_to(final(self)@)
                        &&& final(self)@.fault == mid.fault
                    }
                &&& final(self)@.lifecycle == LifecycleView::faulted(old(self)@.lifecycle.audio)
                &&& final(self)@.fault matches Some(failure) && failure.stage == Stage::Transport
                    && failure.cause is Transport
                &&& steps_of(old(self)@.steps_until(final(self)@)) == shutdowns(
                    old(self)@.lifecycle.held,
                )
                &&& old(self)@.counts_on_to(final(self)@)
            },
            final(self).keeps_stages(*old(self)),
    {
        proof {
            self.session.lemma_view_wf();
        }
        let progress = self.transport.step(&mut self.session);
        let ghost mid = self.session@;
        proof {
            self.session.lemma_view_wf();
        }
        match progress {
            Progress::Faulted => {
                self.settle();
                proof {
                    assert(mid.same_but_control(self.session@));
                    assert(mid.ran_exactly_to(self.session@));
                    law_fault_steps(mid, mid.steps_until(self.session@));
                }
            },
            _ => {},
        }
        progress
    }

    /// Takes note of a failure that `stage` raised, such as a device that
    /// stopped delivering. A failure that is fatal shuts the stages down and
    /// leaves the pipeline faulted, holding nothing, in whatever state it
    /// was; a pipeline that was faulted already keeps the cause it had. Any
    /// other failure is handled as its severity asks by a running pipeline
    /// and ignored by every other.
    pub fn report_failure(&mut self, stage: Stage, cause: StageError) -> (progress: Progress)
        requires
            old(self).wf(),
        ensures
            final(self).wf(),
            progress == old(self)@.report_progress(cause),
            progress != Progress::Faulted ==> final(self)@ == old(self)@.after_report(stage, cause),
            progress == Progress::Faulted ==> {
                &&& old(self)@.same_but_control(final(self)@)
                &&& old(self)@.counts_on_to(final(self)@)
                &&& old(self)@.after_report(stage, cause).ran_exactly_to(final(self)@)
                &&& steps_of(old(self)@.steps_until(final(self)@)) == shutdowns(
                    old(self)@.lifecycle.held,
                )
                &&& final(self)@.lifecycle == LifecycleView::faulted(old(self)@.lifecycle.audio)
                &&& final(self)@.fault == old(self)@.after_report(stage, cause).fault
                &&& old(self)@.fault is None ==> final(self)@.fault == Some(
                    Failure { stage, cause },
                )
            },
            final(self).keeps_stages(*old(self)),
    {
        proof {
            self.session.lemma_view_wf();
        }
        let progress = self.session.report_failure(stage, cause);
        let ghost mid = self.session@;
        proof {
            self.session.lemma_view_wf();
        }
        match progress {
            Progress::Faulted => {
                self.settle();
                proof {
                    law_fault_steps(mid, mid.steps_until(self.session@));
                }
            },
            _ => {},
        }
        progress
    }

    /// Gives up waiting for room in a frame buffer that blocks. The
    /// pipeline has lost its source: the stages are shut down and it is left
    /// faulted, holding nothing, with an unexpected stop of the capture
    /// stage as the cause unless it was faulted already.
    pub fn capture_stalled(&mut self) -> (progress: Progress)
        requires
            old(self).wf(),
        ensures
            final(self).wf(),
            progress == Progress::Faulted,
            old(self)@.same_but_control(final(self)@),
            old(self)@.counts_on_to(final(self)@),
            steps_of(old(self)@.steps_until(final(self)@)) == shutdowns(old(self)@.lifecycle.held),
            final(self)@.lifecycle == LifecycleView::faulted(old(self)@.lifecycle.audio),
            old(self)@.fault is Some ==> final(self)@.fault == old(self)@.fault,
            old(self)@.fault is None ==> (final(self)@.fault matches Some(failure) && failure.stage
                == Stage::Capture && (failure.cause matches StageError::Capture(
                CaptureError::UnexpectedStop(detail),
            ) && detail@ == frame_stall())),
            final(self).keeps_stages(*old(self)),
    {
        proof {
            self.session.lemma_view_wf();
        }
        let progress = self.capture.give_up_waiting(&mut self.session);
        let ghost mid = self.session@;
        proof {
            self.session.lemma_view_wf();
        }
        match progress {
            Progress::Faulted => {
                self.settle();
                proof {
                    law_fault_steps(mid, mid.steps_until(self.session@));
                }
            },
            _ => {},
        }
        progress
    }

    /// Gives up waiting for room in a packet buffer that blocks: the
    /// sample that would have been encoded next is given up, and the
    /// pipeline goes on.
    pub fn encoder_stalled(&mut self) -> (progress: Progress)
        requires
            old(self).wf(),
        ensures
            final(self).wf(),
            progress == if old(self)@.flowing() && old(self)@.frames.len() > 0 {
                Progress::Skipped
            } else {
                Progress::Idle
            },
            final(self)@ == if old(self)@.flowing() && old(self)@.frames.len() > 0 {
                SessionView {
                    frames: old(self)@.frames.drop_first(),
                    stats: SessionStats {
                        dropped_frames: bumped(old(self)@.stats.dropped_frames),
                        ..old(self)@.stats
                    },
                    moves: final(self)@.moves,
                    ..old(self)@
                }
            } else {
                old(self)@
            },
            final(self).keeps_stages(*old(self)),
    {
        proof {
            self.session.lemma_view_wf();
        }
        let progress = self.encoder.give_up_waiting(&mut self.session);
        proof {
            self.session.lemma_view_wf();
        }
        progress
    }

    /// Makes the call that `step` stands for and tells what came of it.
    ///
    /// What is handed to the collaborator is what the session says the
    /// step calls for, and a failure is one of the stage called. Only the
    /// capture device has anything to be told when it is shut down; letting
    /// go of another stage, and a drain, always succeed.
    fn perform(&mut self, step: Step) -> (outcome: Result<(), StageError>)
        requires
            old(self).session.wf(),
            old(self).session@.lifecycle.next_step() == Some(step),
        ensures
            final(self).session.wf(),
            final(self).session@.lifecycle == old(self).session@.lifecycle,
            final(self).session@.settings == old(self).session@.settings,
            final(self).session@.config == old(self).session@.config,
            final(self).session@.fault == old(self).session@.fault,
            final(self).session@.journal == old(self).session@.journal,
            final(self).session@.stats.retries == old(self).session@.stats.retries,
            final(self).session@.held_or_lost() <= old(self).session@.held_or_lost(),
            final(self).keeps_stages(*old(self)),
            old(self).session@.counts_on_to(final(self).session@),
            step != Step::Drain ==> final(self).session@ == old(self).session@,
            match step {
                Step::BringUp(Stage::Transport) => outcome matches Err(cause) ==> cause
                    is Transport,
                Step::BringUp(Stage::Encoder) => outcome matches Err(cause) ==> cause is Encoding,
                Step::BringUp(_) => outcome matches Err(cause) ==> cause is Capture,
                Step::Shutdown(Stage::Capture) => outcome matches Err(cause) ==> cause is Capture,
                Step::Shutdown(_) => outcome == Ok::<(), StageError>(()),
                Step::Drain => {
                    &&& outcome == Ok::<(), StageError>(())
                    &&& old(self).session@.drains_to(final(self).session@)
                    &&& old(self).session@.drained_by(
                        old(self).session@.moves_until(final(self).session@),
                    )
                    &&& final(self).session@ == old(self).session@.after_moves(
                        old(self).session@.moves_until(final(self).session@),
                    )
                    &&& final(self).session@.moves == old(self).session@.moves + old(self).session@.moves_until(final(self).session@)
                },
            },
    {
        proof {
            self.session.lemma_view_wf();
        }
        match self.session.call_for(step) {
            StageCall::Connect(endpoint) => self.transport.bring_up(endpoint.as_str()),
            StageCall::InitializeEncoder(params) => self.encoder.bring_up(params),
            StageCall::StartVideo(source, video) => self.capture.bring_up_video(source, video),
            StageCall::StartAudio(audio) => self.capture.bring_up_audio(audio),
            StageCall::StopVideo => self.capture.shut_down_video(),
            StageCall::Drain => {
                self.drain();
                Ok(())
            },
            StageCall::LetGo => Ok(()),
        }
    }

    /// Moves what is buffered through encoder and transport until nothing
    /// moves any more or the drain budget is used up.
    fn drain(&mut self)
        requires
            old(self).session.wf(),
            old(self).session@.lifecycle.next_step() == Some(Step::Drain),
        ensures
            final(self).session.wf(),
            final(self).session@.lifecycle == old(self).session@.lifecycle,
            final(self).session@.settings == old(self).session@.settings,
            final(self).session@.config == old(self).session@.config,
            final(self).session@.fault == old(self).session@.fault,
            final(self).session@.journal == old(self).session@.journal,
            final(self).session@.stats.retries == old(self).session@.stats.retries,
            final(self).session@.held_or_lost() <= old(self).session@.held_or_lost(),
            final(self).keeps_stages(*old(self)),
            old(self).session@.counts_on_to(final(self).session@),
            old(self).session@.drains_to(final(self).session@),
            old(self).session@.drained_by(old(self).session@.moves_until(final(self).session@)),
            final(self).session@ == old(self).session@.after_moves(
                old(self).session@.moves_until(final(self).session@),
            ),
            final(self).session@.moves == old(self).session@.moves + old(self).session@.moves_until(final(self).session@),
    {
        proof {
            self.session.lemma_view_wf();
            assert(self.session@.frames.skip(0) =~= self.session@.frames);
        }
        let budget: u32 = self.session.settings().drain_budget;
        let mut left: u32 = budget;
        let mut busy = true;
        let ghost mut taken = Seq::<MoveRecord>::empty();
        proof {
            assert(self.session@.moves + taken =~= self.session@.moves);
        }
        while busy && left > 0
            invariant
                self.session@ == old(self).session@.after_moves(taken),
                old(self).session@.drain_moves(taken),
                taken.len() == budget - left,
                self.session@.moves == old(self).session@.moves + taken,
                self.session@.journal == old(self).session@.journal,
                self.session@.stats.retries == old(self).session@.stats.retries,
                self.session@.held_or_lost() <= old(self).session@.held_or_lost(),
                self.keeps_stages(*old(self)),
                budget == old(self).session@.settings.drain_budget,
                left <= budget,
                self.session@.frames.len() <= old(self).session@.frames.len(),
                self.session@.frames == old(self).session@.frames.skip(
                    old(self).session@.frames.len() - self.session@.frames.len(),
                ),
                self.session@.work_left() + (budget - left) <= old(self).session@.work_left(),
                !busy ==> self.session@.work_left() == 0 || (self.session@.packets.len() == 0
                    && self.session@.packets_blocked()),
                self.session.wf(),
                self.session@.wf(),
                self.session@.lifecycle == old(self).session@.lifecycle,
                self.session@.lifecycle.next_step() == Some(Step::Drain),
                self.session@.settings == old(self).session@.settings,
                self.session@.config == old(self).session@.config,
                self.session@.fault == old(self).session@.fault,
                old(self).session@.counts_on_to(self.session@),
            decreases
                    left + if busy {
                        1int
                    } else {
                        0int
                    },
        {
            let ghost before = self.session@;
            let sent = self.transport.step(&mut self.session);
            proof {
                self.session.lemma_view_wf();
                lemma_draining_send(before, self.session@, sent);
                if before.packets.len() > 0 {
                    let made = self.session@.moves.last();
                    lemma_moves_go_on(old(self).session@, taken, made);
                    taken = taken.push(made);
                    assert(self.session@.moves =~= old(self).session@.moves + taken);
                }
            }
            let moved = match sent {
                Progress::Idle => {
                    let ghost unsent = self.session@;
                    let encoded = self.encoder.step(&mut self.session);
                    proof {
                        self.session.lemma_view_wf();
                        lemma_draining_encode(unsent, self.session@, encoded);
                        assert(self.session@.frames =~= old(self).session@.frames.skip(
                            old(self).session@.frames.len() - self.session@.frames.len(),
                        ));
                        if encoded != Progress::Idle && encoded != Progress::Blocked {
                            let made = self.session@.moves.last();
                            lemma_moves_go_on(old(self).session@, taken, made);
                            taken = taken.push(made);
                            assert(self.session@.moves =~= old(self).session@.moves + taken);
                        }
                    }
                    encoded
                },
                _ => sent,
            };
            match moved {
                Progress::Idle => {
                    busy = false;
                },
                Progress::Blocked => {
                    busy = false;
                },
                _ => {
                    left = left - 1;
                },
            }
        }
        proof {
            assert(old(self).session@.moves_until(self.session@) =~= taken);
        }
    }

    /// Takes every step the lifecycle asks for until it rests.
    fn settle(&mut self)
        requires
            old(self).session.wf(),
        ensures
            final(self).session.wf(),
            final(self).session@.lifecycle.goal == Goal::Rest,
            old(self).session@.lifecycle.may_settle_to(final(self).session@.lifecycle),
            final(self).session@.settings == old(self).session@.settings,
            old(self).session@.lifecycle.goal == Goal::Rest ==> final(self).session@ == old(self).session@,
            old(self).session@.counts_on_to(final(self).session@),
            old(self).session@.lifecycle.state != PipelineState::Stopping ==> old(self).session@.same_but_control(
                final(self).session@,
            ),
            old(self).session@.ran_to(final(self).session@),
            old(self).session@.lifecycle.state != PipelineState::Stopping ==> old(self).session@.ran_exactly_to(
                final(self).session@,
            ),
            old(self).session@.faults_in_kind(final(self).session@),
            old(self).session@.lifecycle.state == PipelineState::Stopping && !old(self).session@.lifecycle.drained && old(self).session@.lifecycle.held > 2 ==> old(self).session@.stopping_to(final(self).session@),
            final(self).session@.moves.len() >= old(self).session@.moves.len(),
            old(self).session@.lifecycle.state != PipelineState::Stopping ==> final(self).session@.moves == old(self).session@.moves,
            final(self).session@.stats.retries == old(self).session@.stats.retries,
            final(self).session@.held_or_lost() <= old(self).session@.held_or_lost(),
            final(self).keeps_stages(*old(self)),
            old(self).session@.lifecycle.state == PipelineState::Faulted ==> final(self).session@.fault == old(self).session@.fault,
    {
        let ghost start = self.session@;
        proof {
            self.session.lemma_view_wf();
        }
        let mut next = self.session.next_step();
        let ghost mut stepped = false;
        let ghost mut taken = Seq::<StepRecord>::empty();
        proof {
            assert(start.journal + taken =~= start.journal);
            assert(start.moves + Seq::<MoveRecord>::empty() =~= start.moves);
            assert(start.moves_until(start) =~= Seq::<MoveRecord>::empty());
        }
        while next.is_some()
            invariant
                self.session@.journal == start.journal + taken,
                start.runs(taken),
                self.session@.lifecycle == start.after_steps(taken).lifecycle,
                start.lifecycle.state != PipelineState::Stopping ==> self.session@
                    == start.after_steps(taken),
                start.wf(),
                start.lifecycle.state == PipelineState::Stopping && !start.lifecycle.drained
                    && start.lifecycle.held > 2 ==> start.stopping_to(self.session@),
                self.session@.moves.len() >= start.moves.len(),
                start.lifecycle.state != PipelineState::Stopping ==> self.session@.moves
                    == start.moves,
                start.lifecycle.state == PipelineState::Stopping ==> self.session@.lifecycle.state
                    == PipelineState::Stopping || self.session@.lifecycle.state
                    == PipelineState::Idle,
                start.faults_in_kind(self.session@),
                start.lifecycle.state != PipelineState::Stopping ==> self.session@.lifecycle.audio
                    == start.lifecycle.audio,
                self.session@.stats.retries == start.stats.retries,
                self.session@.held_or_lost() <= start.held_or_lost(),
                self.keeps_stages(*old(self)),
                self.session.wf(),
                self.session@.wf(),
                next == self.session@.lifecycle.next_step(),
                forall|end: LifecycleView| #[trigger]
                    self.session@.lifecycle.may_settle_to(end) ==> start.lifecycle.may_settle_to(
                        end,
                    ),
                self.session@.settings == start.settings,
                !stepped ==> self.session@ == start,
                stepped ==> start.lifecycle.goal != Goal::Rest,
                start.counts_on_to(self.session@),
                start.lifecycle.state != PipelineState::Stopping ==> {
                    &&& self.session@.lifecycle.state != PipelineState::Stopping
                    &&& start.same_but_control(self.session@)
                },
                start.lifecycle.state == PipelineState::Faulted ==> {
                    &&& self.session@.lifecycle.state == PipelineState::Faulted
                    &&& self.session@.fault == start.fault
                },
            decreases self.session@.lifecycle.effort(),
        {
            let step = next.unwrap();
            let ghost before = self.session@.lifecycle;
            let ghost before_session = self.session@;
            let outcome = self.perform(step);
            let ghost noted = StepRecord { step, outcome };
            proof {
                if step == Step::Drain && start.lifecycle.state == PipelineState::Stopping
                    && !start.lifecycle.drained && start.lifecycle.held > 2 {
                    let made = before_session.moves_until(self.session@);
                    lemma_moves_ignore_the_record(before_session, start.at_drain(), made);
                    assert(start.moves_until(self.session@) =~= made);
                    assert(self.session@.moves =~= start.moves + made);
                }
            }
            self.session.record_step(step, outcome);
            proof {
                self.session.lemma_view_wf();
                stepped = true;
                lemma_run_goes_on(start, taken, noted);
                taken = taken.push(noted);
                assert(self.session@.journal =~= start.journal + taken);
                assert forall|end: LifecycleView| #[trigger]
                    self.session@.lifecycle.may_settle_to(end) implies start.lifecycle.may_settle_to(
                    end,
                ) by {
                    law_steps_stay_on_course(before, outcome is Ok, end);
                }
            }
            next = self.session.next_step();
        }
        assert(self.session@.lifecycle.may_settle_to(self.session@.lifecycle));
        assert(start.steps_until(self.session@) =~= taken);
    }
}

} // verus!
