use crate::api::decimal::{append_signed, decimal};
use crate::api::dto::CaptureOptions;
use crate::application::config::PipelineConfig;
use crate::application::lifecycle::{teardown, LifecycleView, PipelineState, Stage};
use crate::application::orchestrator::PipelineOrchestrator;
use crate::application::session::{start_taken, steps_of, PipelineError, SessionView};
use crate::domain::capture::{AudioCapture, AudioConfig, CaptureConfig, MediaCapture};
use crate::domain::encoding::{EncodingParameters, MediaEncoder};
use crate::domain::error::ConfigError;
use crate::domain::transport::MediaTransport;
use vstd::prelude::*;
use vstd::string::*;

verus! {

/// The line that announces a capture service of the given geometry and rate.
pub open spec fn service_banner(width: int, height: int, fps: int) -> Seq<char> {
    "Capture service started: "@ + decimal(width) + "x"@ + decimal(height) + " at "@ + decimal(fps)
        + "fps"@
}

/// The configuration that a request for the capture service asks for, once
/// its numbers are known to be positive.
pub open spec fn requested_config(
    options: CaptureOptions,
    audio: Option<AudioConfig>,
    encoding: EncodingParameters,
    endpoint: String,
) -> PipelineConfig {
    PipelineConfig {
        source: options.source_view(),
        video: CaptureConfig {
            width: options.width as u32,
            height: options.height as u32,
            framerate: options.fps as u32,
        },
        audio,
        encoding,
        endpoint,
    }
}

/// Why a request for the capture service is turned down before any
/// collaborator is touched, if it is: for a number that is not positive,
/// for a pipeline that is not idle, or for another parameter that is
/// unusable, in this order. The source is never a reason.
pub open spec fn refusal(
    before: SessionView,
    options: CaptureOptions,
    audio: Option<AudioConfig>,
    encoding: EncodingParameters,
    endpoint: String,
) -> Option<PipelineError> {
    if options.first_invalid_number() is Some {
        Some(PipelineError::Config(ConfigError::InvalidConfig(options.first_invalid_number()->Some_0)))
    } else {
        match before.configure_result(requested_config(options, audio, encoding, endpoint)) {
            Err(e) => Some(e),
            Ok(_) => None,
        }
    }
}

fn banner(width: i32, height: i32, fps: i32) -> (message: String)
    ensures
        message@ == service_banner(width as int, height as int, fps as int),
{
    let mut message = String::from_str("Capture service started: ");
    append_signed(&mut message, width);
    message.append("x");
    append_signed(&mut message, height);
    message.append(" at ");
    append_signed(&mut message, fps);
    message.append("fps");
    message
}

/// Configures `pipeline` for `options` and starts it.
///
/// Options with a number that is not positive are rejected as an invalid
/// configuration, as is any other unusable parameter; a pipeline that is
/// not idle refuses with its state. Any source is taken and handed to the
/// capture device, which alone says whether it can be captured. A refusal
/// touches no collaborator and changes nothing. Otherwise the stages are
/// brought up in order, each with what the configuration says of it, and
/// the steps taken are put on record with what came of each. The line that
/// announces the service comes back exactly if the pipeline ends up running.
/// If a stage fails to come up, its failure comes back as fatal and the
/// pipeline is left faulted, holding nothing.
pub fn start_capture_service<C: MediaCapture, A: AudioCapture, E: MediaEncoder, T: MediaTransport>(
    pipeline: &mut PipelineOrchestrator<C, A, E, T>,
    options: CaptureOptions,
    audio: Option<AudioConfig>,
    encoding: EncodingParameters,
    endpoint: String,
) -> (outcome: Result<String, PipelineError>)
    requires
        old(pipeline).wf(),
    ensures
        final(pipeline).wf(),
        final(pipeline).keeps_stages(*old(pipeline)),
        refusal(old(pipeline)@, options, audio, encoding, endpoint) matches Some(error) ==> {
            &&& outcome == Err::<String, PipelineError>(error)
            &&& final(pipeline)@ == old(pipeline)@
        },
        refusal(old(pipeline)@, options, audio, encoding, endpoint) is None ==> {
            let configured = old(pipeline)@.after_configure(
                requested_config(options, audio, encoding, endpoint),
            );
            &&& configured.after_start_request().ran_exactly_to(final(pipeline)@)
            &&& configured.same_but_control(final(pipeline)@)
            &&& start_taken(
                audio is Some,
                configured.after_start_request().steps_until(final(pipeline)@),
                final(pipeline)@.fault,
            )
            &&& match outcome {
                Ok(message) => {
                    &&& message@ == service_banner(
                        options.width as int,
                        options.height as int,
                        options.fps as int,
                    )
                    &&& final(pipeline)@.lifecycle == LifecycleView::running(audio is Some)
                    &&& final(pipeline)@.fault is None
                },
                Err(e) => {
                    &&& e matches PipelineError::Fatal(failure)
                    &&& final(pipeline)@.fault == Some(failure)
                    &&& failure.of_its_stage()
                    &&& failure.stage == Stage::Audio ==> audio is Some
                    &&& final(pipeline)@.lifecycle == LifecycleView::faulted(audio is Some)
                },
            }
        },
{
    proof {
        pipeline.lemma_view_wf();
    }
    let video = match options.capture_config() {
        Err(e) => {
            return Err(PipelineError::Config(e));
        },
        Ok(video) => video,
    };
    let source = options.capture_source();
    let config = PipelineConfig { source, video, audio, encoding, endpoint };
    match pipeline.configure(config) {
        Err(e) => {
            return Err(e);
        },
        Ok(_) => {},
    }
    match pipeline.start() {
        Err(e) => Err(e),
        Ok(_) => Ok(banner(options.width, options.height, options.fps)),
    }
}

/// Stops `pipeline`, from whatever state it is in, and reports that it did.
///
/// The pipeline ends up idle, without configuration, with empty buffers and
/// holding nothing, whatever the collaborators return; the steps taken are
/// put on record, and so are the moves of the drain with what came of
/// each. No retry is counted, and the frames counted as dropped are those
/// the moves of the drain gave up and those still buffered after them.
/// Stopping an idle pipeline changes nothing.
pub fn stop_capture_service<C: MediaCapture, A: AudioCapture, E: MediaEncoder, T: MediaTransport>(
    pipeline: &mut PipelineOrchestrator<C, A, E, T>,
) -> (stopped: bool)
    requires
        old(pipeline).wf(),
    ensures
        stopped,
        final(pipeline).wf(),
        final(pipeline).keeps_stages(*old(pipeline)),
        final(pipeline)@ == (SessionView {
            stats: final(pipeline)@.stats,
            journal: final(pipeline)@.journal,
            moves: final(pipeline)@.moves,
            ..SessionView::fresh(old(pipeline)@.settings)
        }),
        old(pipeline)@.after_stop_request().ran_to(final(pipeline)@),
        old(pipeline)@.stops_to(final(pipeline)@),
        old(pipeline)@.counts_on_to(final(pipeline)@),
        steps_of(old(pipeline)@.after_stop_request().steps_until(final(pipeline)@)) == teardown(
            old(pipeline)@.lifecycle.held,
            old(pipeline)@.lifecycle.state == PipelineState::Running,
        ),
        final(pipeline)@.stats.retries == old(pipeline)@.stats.retries,
        final(pipeline)@.stats.dropped_frames <= old(pipeline)@.stats.dropped_frames + old(pipeline)@.frames.len() + old(pipeline)@.packets.len(),
        old(pipeline)@.lifecycle.state == PipelineState::Idle ==> final(pipeline)@ == old(pipeline)@,
{
    pipeline.stop();
    true
}

} // verus!
