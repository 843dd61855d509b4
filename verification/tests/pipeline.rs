use std::sync::{Arc, Mutex};
use system_support::api::dto::CaptureOptions;
use system_support::api::service::{start_capture_service, stop_capture_service};
use system_support::application::buffer::BackpressurePolicy;
use system_support::application::config::{FlowSettings, PipelineConfig};
use system_support::application::lifecycle::{PipelineState, Stage};
use system_support::application::media::{PixelFormat, Sample};
use system_support::application::orchestrator::PipelineOrchestrator;
use system_support::application::session::{Admission, PipelineError, Progress};
use system_support::application::stages::{CaptureStage, EncodeStage, TransportStage};
use system_support::application::session::Session;
use system_support::application::supervisor::{
    ErrorSupervisor, Failure, SessionStats, Severity, StageError,
};
use system_support::domain::capture::{
    AudioCapture, AudioConfig, CaptureConfig, CaptureSource, MediaCapture,
};
use system_support::domain::encoding::{EncodingParameters, MediaEncoder, VideoCodec};
use system_support::domain::error::{
    CaptureError, ConfigError, ConfigField, EncodingError, TransportError,
};
use system_support::domain::transport::MediaTransport;

/// What the collaborators of one pipeline were asked to do, and what they
/// are told to answer.
#[derive(Default)]
struct Stand {
    calls: Mutex<Vec<String>>,
    failing: Mutex<Vec<String>>,
    encode_failures: Mutex<Vec<(usize, EncodingError)>>,
    send_failures: Mutex<Vec<(usize, TransportError)>>,
    encoded: Mutex<usize>,
    sent_attempts: Mutex<usize>,
    sent: Mutex<Vec<Vec<u8>>>,
    capturing: Mutex<bool>,
    audio_capturing: Mutex<bool>,
    encoding: Mutex<bool>,
    connected: Mutex<bool>,
}

impl Stand {
    fn note(&self, call: &str) -> bool {
        self.calls.lock().unwrap().push(call.to_string());
        !self.failing.lock().unwrap().iter().any(|name| name == call)
    }

    fn fail(&self, call: &str) {
        self.failing.lock().unwrap().push(call.to_string());
    }

    fn heal(&self) {
        self.failing.lock().unwrap().clear();
    }

    fn calls(&self) -> Vec<String> {
        self.calls.lock().unwrap().clone()
    }

    fn count(&self, call: &str) -> usize {
        self.calls.lock().unwrap().iter().filter(|name| name.as_str() == call).count()
    }

    fn sent(&self) -> Vec<Vec<u8>> {
        self.sent.lock().unwrap().clone()
    }
}

struct Camera(Arc<Stand>);

struct Microphone(Arc<Stand>);

struct Codec(Arc<Stand>);

struct Wire(Arc<Stand>);

impl MediaCapture for Camera {
    fn initialize(&self, source: CaptureSource, config: CaptureConfig) -> Result<(), CaptureError> {
        let call = format!(
            "capture.initialize({:?}, {}x{}@{})",
            source, config.width, config.height, config.framerate
        );
        self.0.calls.lock().unwrap().push(call);
        if self.0.note("capture.initialize") {
            Ok(())
        } else {
            Err(CaptureError::DeviceInitializationFailed("no device".to_string()))
        }
    }

    fn start_capture(&self) -> Result<(), CaptureError> {
        if self.0.note("capture.start") {
            *self.0.capturing.lock().unwrap() = true;
            Ok(())
        } else {
            Err(CaptureError::StartFailed("busy".to_string()))
        }
    }

    fn stop_capture(&self) -> Result<(), CaptureError> {
        *self.0.capturing.lock().unwrap() = false;
        if self.0.note("capture.stop") {
            Ok(())
        } else {
            Err(CaptureError::UnexpectedStop("already gone".to_string()))
        }
    }

    fn is_capturing(&self) -> bool {
        *self.0.capturing.lock().unwrap()
    }
}

impl AudioCapture for Microphone {
    fn initialize_audio(&self, config: AudioConfig) -> Result<(), CaptureError> {
        let call = format!("audio.initialize({}Hz, {}ch)", config.sample_rate, config.channels);
        self.0.calls.lock().unwrap().push(call);
        if self.0.note("audio.initialize") {
            Ok(())
        } else {
            Err(CaptureError::DeviceInitializationFailed("no microphone".to_string()))
        }
    }

    fn start_audio_capture(&self) -> Result<(), CaptureError> {
        if self.0.note("audio.start") {
            *self.0.audio_capturing.lock().unwrap() = true;
            Ok(())
        } else {
            Err(CaptureError::StartFailed("muted".to_string()))
        }
    }

    fn is_audio_capturing(&self) -> bool {
        *self.0.audio_capturing.lock().unwrap()
    }
}

impl MediaEncoder for Codec {
    fn initialize(&self, params: EncodingParameters) -> Result<(), EncodingError> {
        let call = format!(
            "encoder.initialize({:?}, {}kbps, gop {})",
            params.codec, params.bitrate_kbps, params.gop_size
        );
        self.0.calls.lock().unwrap().push(call);
        if self.0.note("encoder.initialize") {
            *self.0.encoding.lock().unwrap() = true;
            Ok(())
        } else {
            Err(EncodingError::InitializationFailed("no codec".to_string()))
        }
    }

    fn encode_frame(&self, frame: &[u8]) -> Result<Vec<u8>, EncodingError> {
        self.0.note("encoder.encode");
        let index = {
            let mut encoded = self.0.encoded.lock().unwrap();
            *encoded += 1;
            *encoded
        };
        let failures = self.0.encode_failures.lock().unwrap();
        for (at, error) in failures.iter() {
            if *at == index {
                return Err(error.clone());
            }
        }
        let mut bytes = vec![0xEC];
        bytes.extend_from_slice(frame);
        Ok(bytes)
    }

    fn is_encoding_active(&self) -> bool {
        *self.0.encoding.lock().unwrap()
    }
}

impl MediaTransport for Wire {
    fn connect(&self, signaling_url: &str) -> Result<(), TransportError> {
        self.0.calls.lock().unwrap().push(format!("transport.connect({})", signaling_url));
        if self.0.note("transport.connect") {
            *self.0.connected.lock().unwrap() = true;
            Ok(())
        } else {
            Err(TransportError::ConnectionFailed("no route".to_string()))
        }
    }

    fn send_packet(&self, packet: &[u8]) -> Result<(), TransportError> {
        self.0.note("transport.send");
        let index = {
            let mut attempts = self.0.sent_attempts.lock().unwrap();
            *attempts += 1;
            *attempts
        };
        let failures = self.0.send_failures.lock().unwrap();
        for (at, error) in failures.iter() {
            if *at == index {
                return Err(error.clone());
            }
        }
        self.0.sent.lock().unwrap().push(packet.to_vec());
        Ok(())
    }

    fn is_connected(&self) -> bool {
        *self.0.connected.lock().unwrap()
    }
}

type Pipeline = PipelineOrchestrator<Camera, Microphone, Codec, Wire>;

fn settings(capacity: usize, policy: BackpressurePolicy) -> FlowSettings {
    FlowSettings {
        frame_capacity: capacity,
        frame_policy: policy,
        packet_capacity: capacity,
        packet_policy: policy,
        retry_budget: 3,
        drain_budget: 64,
    }
}

fn pipeline(settings: FlowSettings) -> (Pipeline, Arc<Stand>) {
    let stand = Arc::new(Stand::default());
    let pipeline = PipelineOrchestrator::new(
        Camera(stand.clone()),
        Microphone(stand.clone()),
        Codec(stand.clone()),
        Wire(stand.clone()),
        settings,
    );
    (pipeline, stand)
}

fn video_only() -> PipelineConfig {
    PipelineConfig {
        source: CaptureSource::Desktop,
        video: CaptureConfig { width: 1280, height: 720, framerate: 30 },
        audio: None,
        encoding: EncodingParameters { codec: VideoCodec::H264, bitrate_kbps: 2000, gop_size: 30 },
        endpoint: "wss://example/signal".to_string(),
    }
}

fn with_audio() -> PipelineConfig {
    let mut config = video_only();
    config.audio = Some(AudioConfig { sample_rate: 48000, channels: 2 });
    config
}

fn frame(number: u8) -> Sample {
    Sample::Video {
        width: 1280,
        height: 720,
        format: PixelFormat::Nv12,
        timestamp: number as u64 * 33,
        payload: vec![number, number],
    }
}

fn simple(calls: &[String]) -> Vec<String> {
    calls.iter().filter(|call| !call.contains('(')).cloned().collect()
}

fn names(calls: &[&str]) -> Vec<String> {
    calls.iter().map(|call| call.to_string()).collect()
}

fn started(config: PipelineConfig, settings: FlowSettings) -> (Pipeline, Arc<Stand>) {
    let (mut pipeline, stand) = pipeline(settings);
    assert_eq!(pipeline.configure(config), Ok(()));
    assert_eq!(pipeline.start(), Ok(()));
    assert!(pipeline.is_running());
    (pipeline, stand)
}

#[test]
fn a_new_pipeline_is_idle() {
    let (pipeline, stand) = pipeline(FlowSettings::default());
    assert_eq!(pipeline.state(), PipelineState::Idle);
    assert!(!pipeline.is_running());
    assert_eq!(pipeline.stats(), SessionStats { dropped_frames: 0, retries: 0, warnings: 0 });
    assert_eq!(pipeline.session().config(), None);
    assert!(stand.calls().is_empty());
}

#[test]
fn configuring_touches_no_collaborator() {
    let (mut pipeline, stand) = pipeline(FlowSettings::default());
    assert_eq!(pipeline.configure(with_audio()), Ok(()));
    assert_eq!(pipeline.state(), PipelineState::Configuring);
    assert!(stand.calls().is_empty());
}

#[test]
fn an_invalid_configuration_is_rejected_and_the_pipeline_stays_idle() {
    let (mut pipeline, stand) = pipeline(FlowSettings::default());
    let mut config = video_only();
    config.video.height = 0;
    assert_eq!(
        pipeline.configure(config),
        Err(PipelineError::Config(ConfigError::InvalidConfig(ConfigField::Height)))
    );
    assert_eq!(pipeline.state(), PipelineState::Idle);
    assert_eq!(pipeline.start(), Err(PipelineError::NotPermitted(PipelineState::Idle)));
    assert!(stand.calls().is_empty());
}

#[test]
fn start_brings_the_stages_up_downstream_first() {
    let (pipeline, stand) = started(with_audio(), FlowSettings::default());
    assert_eq!(pipeline.state(), PipelineState::Running);
    assert_eq!(pipeline.session().held(), 4);
    assert_eq!(
        simple(&stand.calls()),
        names(&[
            "transport.connect",
            "encoder.initialize",
            "capture.initialize",
            "capture.start",
            "audio.initialize",
            "audio.start",
        ])
    );
}

#[test]
fn the_collaborators_are_handed_the_configuration() {
    let (_pipeline, stand) = started(with_audio(), FlowSettings::default());
    let calls = stand.calls();
    assert!(calls.contains(&"transport.connect(wss://example/signal)".to_string()));
    assert!(calls.contains(&"encoder.initialize(H264, 2000kbps, gop 30)".to_string()));
    assert!(calls.contains(&"capture.initialize(Desktop, 1280x720@30)".to_string()));
    assert!(calls.contains(&"audio.initialize(48000Hz, 2ch)".to_string()));
}

#[test]
fn without_audio_the_microphone_is_left_alone() {
    let (pipeline, stand) = started(video_only(), FlowSettings::default());
    assert_eq!(pipeline.session().held(), 3);
    assert_eq!(stand.count("audio.initialize"), 0);
    assert_eq!(stand.count("audio.start"), 0);
}

#[test]
fn start_runs_exactly_if_every_collaborator_comes_up() {
    let steps = [
        "transport.connect",
        "encoder.initialize",
        "capture.initialize",
        "capture.start",
        "audio.initialize",
        "audio.start",
    ];
    for (position, failing) in steps.iter().enumerate() {
        let (mut pipeline, stand) = pipeline(FlowSettings::default());
        stand.fail(failing);
        pipeline.configure(with_audio()).unwrap();
        let outcome = pipeline.start();
        assert!(matches!(outcome, Err(PipelineError::Fatal(_))), "{}", failing);
        assert_eq!(pipeline.state(), PipelineState::Faulted, "{}", failing);
        assert_eq!(pipeline.session().held(), 0, "{}", failing);
        let calls = simple(&stand.calls());
        assert_eq!(calls[..position + 1], names(&steps[..position + 1])[..], "{}", failing);
        for later in &steps[position + 1..] {
            assert_eq!(stand.count(later), 0, "{} after {}", later, failing);
        }
        let capture_was_up = position >= 4;
        assert_eq!(stand.count("capture.stop"), if capture_was_up { 1 } else { 0 }, "{}", failing);
        assert!(!*stand.capturing.lock().unwrap(), "{}", failing);
    }
    let (pipeline, stand) = started(with_audio(), FlowSettings::default());
    assert!(pipeline.is_running());
    assert_eq!(stand.count("capture.stop"), 0);
}

#[test]
fn a_failed_connection_is_fatal_and_nothing_else_is_initialized() {
    let (mut pipeline, stand) = pipeline(FlowSettings::default());
    stand.fail("transport.connect");
    pipeline.configure(video_only()).unwrap();
    let cause = StageError::Transport(TransportError::ConnectionFailed("no route".to_string()));
    assert_eq!(
        pipeline.start(),
        Err(PipelineError::Fatal(Failure { stage: Stage::Transport, cause: cause.clone() }))
    );
    assert_eq!(ErrorSupervisor::new(3).classify(&cause), Severity::Fatal);
    assert_eq!(pipeline.state(), PipelineState::Faulted);
    assert_eq!(
        pipeline.session().fault(),
        Some(&Failure { stage: Stage::Transport, cause })
    );
    assert_eq!(simple(&stand.calls()), names(&["transport.connect"]));
    assert_eq!(stand.count("encoder.initialize"), 0);
    assert_eq!(stand.count("capture.initialize"), 0);
}

#[test]
fn a_failed_start_names_the_stage_and_keeps_the_detail() {
    let (mut pipeline, stand) = pipeline(FlowSettings::default());
    stand.fail("capture.start");
    pipeline.configure(video_only()).unwrap();
    let outcome = pipeline.start();
    assert_eq!(
        outcome,
        Err(PipelineError::Fatal(Failure {
            stage: Stage::Capture,
            cause: StageError::Capture(CaptureError::StartFailed("busy".to_string())),
        }))
    );
    if let Err(PipelineError::Fatal(failure)) = outcome {
        assert_eq!(failure.cause.message(), "Capture start failed: busy");
    }
}

#[test]
fn ten_frames_pass_through_a_blocking_pipeline() {
    let (mut pipeline, stand) = started(video_only(), settings(4, BackpressurePolicy::Block));
    for number in 0..10 {
        assert_eq!(pipeline.submit_sample(frame(number)), Admission::Accepted);
        assert!(pipeline.session().frames_waiting() <= 4);
        assert_eq!(pipeline.encode_next(), Progress::Advanced);
        assert!(pipeline.session().packets_waiting() <= 4);
        assert_eq!(pipeline.send_next(), Progress::Advanced);
    }
    let expected: Vec<Vec<u8>> = (0..10).map(|number| vec![0xEC, number, number]).collect();
    assert_eq!(stand.sent(), expected);
    assert_eq!(pipeline.stats(), SessionStats { dropped_frames: 0, retries: 0, warnings: 0 });
    pipeline.stop();
    assert_eq!(pipeline.state(), PipelineState::Idle);
    assert_eq!(stand.count("capture.stop"), 1);
    assert!(!*stand.capturing.lock().unwrap());
}

#[test]
fn frames_queued_in_bursts_arrive_in_order() {
    let (mut pipeline, stand) = started(video_only(), settings(4, BackpressurePolicy::Block));
    let mut next = 0;
    while next < 10 {
        let mut queued = 0;
        while queued < 4 && next < 10 {
            assert_eq!(pipeline.submit_sample(frame(next)), Admission::Accepted);
            next += 1;
            queued += 1;
        }
        assert!(pipeline.session().frames_waiting() <= 4);
        while pipeline.encode_next() == Progress::Advanced {}
        while pipeline.send_next() == Progress::Advanced {}
    }
    let expected: Vec<Vec<u8>> = (0..10).map(|number| vec![0xEC, number, number]).collect();
    assert_eq!(stand.sent(), expected);
    assert_eq!(pipeline.stats().dropped_frames, 0);
}

#[test]
fn a_full_blocking_pipeline_makes_the_producer_wait() {
    let (mut pipeline, _stand) = started(video_only(), settings(2, BackpressurePolicy::Block));
    assert_eq!(pipeline.submit_sample(frame(0)), Admission::Accepted);
    assert_eq!(pipeline.submit_sample(frame(1)), Admission::Accepted);
    assert_eq!(pipeline.submit_sample(frame(2)), Admission::Refused(frame(2)));
    assert_eq!(pipeline.encode_next(), Progress::Advanced);
    assert_eq!(pipeline.submit_sample(frame(2)), Admission::Accepted);
    assert_eq!(pipeline.encode_next(), Progress::Advanced);
    assert_eq!(pipeline.encode_next(), Progress::Blocked);
    assert_eq!(pipeline.session().packets_waiting(), 2);
    assert_eq!(pipeline.session().frames_waiting(), 1);
    assert_eq!(pipeline.send_next(), Progress::Advanced);
    assert_eq!(pipeline.encode_next(), Progress::Advanced);
    assert_eq!(pipeline.stats().dropped_frames, 0);
}

#[test]
fn a_dropping_pipeline_keeps_the_newest_frames() {
    let (mut pipeline, stand) = started(video_only(), settings(4, BackpressurePolicy::DropOldest));
    for number in 0..5 {
        let admission = pipeline.submit_sample(frame(number));
        if number < 4 {
            assert_eq!(admission, Admission::Accepted);
        } else {
            assert_eq!(admission, Admission::Displaced(frame(0)));
        }
    }
    assert_eq!(pipeline.session().frames_waiting(), 4);
    assert_eq!(pipeline.stats().dropped_frames, 1);
    while pipeline.encode_next() == Progress::Advanced {}
    while pipeline.send_next() == Progress::Advanced {}
    let expected: Vec<Vec<u8>> = (1..5).map(|number| vec![0xEC, number, number]).collect();
    assert_eq!(stand.sent(), expected);
}

#[test]
fn one_failed_frame_is_dropped_and_the_session_goes_on() {
    let (mut pipeline, stand) = started(video_only(), settings(4, BackpressurePolicy::Block));
    stand
        .encode_failures
        .lock()
        .unwrap()
        .push((2, EncodingError::ProcessFailed("bad frame".to_string())));
    for number in 0..3 {
        assert_eq!(pipeline.submit_sample(frame(number)), Admission::Accepted);
    }
    assert_eq!(pipeline.encode_next(), Progress::Advanced);
    assert_eq!(pipeline.encode_next(), Progress::Skipped);
    assert!(pipeline.is_running());
    assert_eq!(pipeline.stats().dropped_frames, 1);
    assert_eq!(pipeline.encode_next(), Progress::Advanced);
    assert_eq!(pipeline.encode_next(), Progress::Idle);
    assert_eq!(pipeline.send_next(), Progress::Advanced);
    assert_eq!(pipeline.send_next(), Progress::Advanced);
    assert_eq!(pipeline.send_next(), Progress::Idle);
    assert_eq!(stand.sent(), vec![vec![0xEC, 0, 0], vec![0xEC, 2, 2]]);
    assert_eq!(pipeline.stats(), SessionStats { dropped_frames: 1, retries: 0, warnings: 0 });
    assert_eq!(pipeline.state(), PipelineState::Running);
}

#[test]
fn a_transmission_is_retried_and_the_packet_goes_out_once() {
    let (mut pipeline, stand) = started(video_only(), settings(4, BackpressurePolicy::Block));
    {
        let mut failures = stand.send_failures.lock().unwrap();
        failures.push((1, TransportError::TransmissionFailed("timeout".to_string())));
        failures.push((2, TransportError::TransmissionFailed("timeout".to_string())));
    }
    pipeline.submit_sample(frame(1));
    pipeline.submit_sample(frame(2));
    assert_eq!(pipeline.encode_next(), Progress::Advanced);
    assert_eq!(pipeline.encode_next(), Progress::Advanced);
    assert_eq!(pipeline.send_next(), Progress::RetryLater { attempt: 1 });
    assert_eq!(pipeline.send_next(), Progress::RetryLater { attempt: 2 });
    assert_eq!(pipeline.send_next(), Progress::Advanced);
    assert_eq!(pipeline.send_next(), Progress::Advanced);
    assert_eq!(stand.sent(), vec![vec![0xEC, 1, 1], vec![0xEC, 2, 2]]);
    assert_eq!(pipeline.stats(), SessionStats { dropped_frames: 0, retries: 2, warnings: 0 });
    assert!(pipeline.is_running());
}

#[test]
fn a_transmission_that_keeps_failing_faults_the_pipeline() {
    let (mut pipeline, stand) = started(with_audio(), settings(4, BackpressurePolicy::Block));
    {
        let mut failures = stand.send_failures.lock().unwrap();
        for attempt in 1..=4 {
            failures.push((attempt, TransportError::TransmissionFailed("timeout".to_string())));
        }
    }
    pipeline.submit_sample(frame(1));
    pipeline.encode_next();
    assert_eq!(pipeline.send_next(), Progress::RetryLater { attempt: 1 });
    assert_eq!(pipeline.send_next(), Progress::RetryLater { attempt: 2 });
    assert_eq!(pipeline.send_next(), Progress::RetryLater { attempt: 3 });
    assert_eq!(pipeline.send_next(), Progress::Faulted);
    assert_eq!(pipeline.state(), PipelineState::Faulted);
    assert_eq!(pipeline.session().held(), 0);
    assert_eq!(stand.count("capture.stop"), 1);
    assert_eq!(
        pipeline.session().fault(),
        Some(&Failure {
            stage: Stage::Transport,
            cause: StageError::Transport(TransportError::TransmissionFailed("timeout".to_string())),
        })
    );
    assert_eq!(pipeline.send_next(), Progress::Idle);
    assert_eq!(pipeline.encode_next(), Progress::Idle);
    assert_eq!(stand.count("transport.send"), 4);
}

#[test]
fn a_faulted_pipeline_takes_no_samples_and_is_reset_by_stop() {
    let (mut pipeline, stand) = started(video_only(), FlowSettings::default());
    let stop = StageError::Capture(CaptureError::UnexpectedStop("unplugged".to_string()));
    assert_eq!(pipeline.report_failure(Stage::Capture, stop), Progress::Faulted);
    assert_eq!(pipeline.state(), PipelineState::Faulted);
    assert_eq!(pipeline.submit_sample(frame(1)), Admission::NotRunning(frame(1)));
    assert_eq!(pipeline.start(), Err(PipelineError::NotPermitted(PipelineState::Faulted)));
    assert_eq!(
        pipeline.configure(video_only()),
        Err(PipelineError::NotPermitted(PipelineState::Faulted))
    );
    pipeline.stop();
    assert_eq!(pipeline.state(), PipelineState::Idle);
    assert_eq!(stand.count("capture.stop"), 1);
    assert_eq!(pipeline.configure(video_only()), Ok(()));
    assert_eq!(pipeline.start(), Ok(()));
    assert!(pipeline.is_running());
}

#[test]
fn a_degraded_report_leaves_the_pipeline_running() {
    let (mut pipeline, _stand) = started(video_only(), FlowSettings::default());
    let failed = StageError::Encoding(EncodingError::ProcessFailed("bad".to_string()));
    assert_eq!(pipeline.report_failure(Stage::Encoder, failed), Progress::Skipped);
    assert!(pipeline.is_running());
    assert_eq!(pipeline.stats().dropped_frames, 1);
}

#[test]
fn stop_ends_idle_from_every_state() {
    let (mut idle, stand) = pipeline(FlowSettings::default());
    idle.stop();
    assert_eq!(idle.state(), PipelineState::Idle);
    assert!(stand.calls().is_empty());

    let (mut configured, stand) = pipeline(FlowSettings::default());
    configured.configure(with_audio()).unwrap();
    configured.stop();
    assert_eq!(configured.state(), PipelineState::Idle);
    assert_eq!(configured.session().config(), None);
    assert!(stand.calls().is_empty());

    let (mut running, stand) = started(with_audio(), FlowSettings::default());
    running.stop();
    assert_eq!(running.state(), PipelineState::Idle);
    assert_eq!(running.session().held(), 0);
    assert_eq!(stand.count("capture.stop"), 1);
    assert!(!*stand.capturing.lock().unwrap());

    let (mut faulted, stand) = pipeline(FlowSettings::default());
    stand.fail("audio.start");
    faulted.configure(with_audio()).unwrap();
    assert!(faulted.start().is_err());
    assert_eq!(faulted.state(), PipelineState::Faulted);
    faulted.stop();
    assert_eq!(faulted.state(), PipelineState::Idle);
    assert_eq!(faulted.session().fault(), None);
    assert_eq!(stand.count("capture.stop"), 1);
    assert!(!*stand.capturing.lock().unwrap());
}

#[test]
fn after_a_stop_the_capture_device_reports_that_it_is_idle() {
    let (mut pipeline, _stand) = started(with_audio(), FlowSettings::default());
    assert!(pipeline.capture().video().is_capturing());
    assert!(pipeline.capture().audio().is_audio_capturing());
    assert!(pipeline.encoder().encoder().is_encoding_active());
    assert!(pipeline.transport().transport().is_connected());
    pipeline.stop();
    assert_eq!(pipeline.state(), PipelineState::Idle);
    assert!(!pipeline.capture().video().is_capturing());
}

#[test]
fn stopping_twice_is_the_same_as_stopping_once() {
    let (mut pipeline, stand) = started(video_only(), FlowSettings::default());
    pipeline.submit_sample(frame(1));
    pipeline.stop();
    let calls = stand.calls();
    let stats = pipeline.stats();
    pipeline.stop();
    assert_eq!(pipeline.state(), PipelineState::Idle);
    assert_eq!(pipeline.stats(), stats);
    assert_eq!(stand.calls(), calls);
}

#[test]
fn stop_halts_capture_before_it_drains() {
    let (mut pipeline, stand) = started(with_audio(), settings(4, BackpressurePolicy::Block));
    for number in 0..3 {
        pipeline.submit_sample(frame(number));
    }
    pipeline.encode_next();
    pipeline.stop();
    assert_eq!(pipeline.state(), PipelineState::Idle);
    let expected: Vec<Vec<u8>> = (0..3).map(|number| vec![0xEC, number, number]).collect();
    assert_eq!(stand.sent(), expected);
    assert_eq!(pipeline.stats(), SessionStats { dropped_frames: 0, retries: 0, warnings: 0 });
    let calls = simple(&stand.calls());
    let stop_at = calls.iter().position(|call| call == "capture.stop").unwrap();
    let first_send = calls.iter().position(|call| call == "transport.send").unwrap();
    assert!(stop_at < first_send);
    assert_eq!(stand.count("transport.send"), 3);
}

#[test]
fn a_drain_is_bounded_by_its_budget() {
    let mut limited = settings(8, BackpressurePolicy::Block);
    limited.drain_budget = 3;
    let (mut pipeline, stand) = started(video_only(), limited);
    for number in 0..6 {
        pipeline.submit_sample(frame(number));
    }
    pipeline.stop();
    assert_eq!(pipeline.state(), PipelineState::Idle);
    assert_eq!(stand.count("encoder.encode") + stand.count("transport.send"), 3);
    let delivered = stand.sent().len() as u64;
    assert_eq!(pipeline.stats().dropped_frames, 6 - delivered);
    assert_eq!(pipeline.session().frames_waiting(), 0);
    assert_eq!(pipeline.session().packets_waiting(), 0);
}

#[test]
fn failures_while_stopping_are_not_propagated() {
    let (mut pipeline, stand) = started(video_only(), settings(4, BackpressurePolicy::Block));
    pipeline.submit_sample(frame(1));
    pipeline.submit_sample(frame(2));
    stand.fail("capture.stop");
    {
        let mut failures = stand.send_failures.lock().unwrap();
        failures.push((1, TransportError::ConnectionFailed("reset".to_string())));
    }
    pipeline.stop();
    assert_eq!(pipeline.state(), PipelineState::Idle);
    assert_eq!(pipeline.session().fault(), None);
    assert_eq!(stand.sent(), vec![vec![0xEC, 2, 2]]);
    assert_eq!(pipeline.stats(), SessionStats { dropped_frames: 1, retries: 0, warnings: 2 });
}

#[test]
fn nothing_is_encoded_or_sent_after_the_pipeline_has_stopped() {
    let (mut pipeline, stand) = started(video_only(), FlowSettings::default());
    pipeline.stop();
    let calls = stand.calls();
    assert_eq!(pipeline.submit_sample(frame(1)), Admission::NotRunning(frame(1)));
    assert_eq!(pipeline.encode_next(), Progress::Idle);
    assert_eq!(pipeline.send_next(), Progress::Idle);
    assert_eq!(pipeline.encoder_stalled(), Progress::Idle);
    assert_eq!(stand.calls(), calls);
}

#[test]
fn a_fatal_report_faults_a_pipeline_that_is_not_running() {
    let (mut pipeline, stand) = pipeline(FlowSettings::default());
    let stop = StageError::Capture(CaptureError::UnexpectedStop("unplugged".to_string()));
    assert_eq!(pipeline.report_failure(Stage::Capture, stop.clone()), Progress::Faulted);
    assert_eq!(pipeline.state(), PipelineState::Faulted);
    assert_eq!(pipeline.session().fault(), Some(&Failure { stage: Stage::Capture, cause: stop }));
    assert!(stand.calls().is_empty());
    assert_eq!(
        pipeline.configure(video_only()),
        Err(PipelineError::NotPermitted(PipelineState::Faulted))
    );
    assert_eq!(pipeline.capture_stalled(), Progress::Faulted);
    pipeline.stop();
    assert_eq!(pipeline.state(), PipelineState::Idle);
    assert_eq!(pipeline.configure(video_only()), Ok(()));
    assert_eq!(pipeline.capture_stalled(), Progress::Faulted);
    assert_eq!(pipeline.state(), PipelineState::Faulted);
    assert_eq!(pipeline.session().config(), Some(&video_only()));
    assert!(stand.calls().is_empty());
}

#[test]
fn reconfiguring_restarts_with_the_new_configuration() {
    let (mut pipeline, stand) = started(video_only(), FlowSettings::default());
    pipeline.submit_sample(frame(1));
    let mut next = with_audio();
    next.video = CaptureConfig { width: 640, height: 360, framerate: 15 };
    next.encoding = EncodingParameters { codec: VideoCodec::AV1, bitrate_kbps: 800, gop_size: 15 };
    assert_eq!(pipeline.reconfigure(next.clone()), Ok(()));
    assert!(pipeline.is_running());
    assert_eq!(pipeline.session().config(), Some(&next));
    assert_eq!(pipeline.session().held(), 4);
    assert_eq!(pipeline.session().frames_waiting(), 0);
    assert_eq!(pipeline.stats().dropped_frames, 1);
    assert_eq!(stand.count("capture.stop"), 1);
    assert_eq!(stand.count("transport.connect"), 2);
    let calls = stand.calls();
    assert!(calls.contains(&"capture.initialize(Desktop, 640x360@15)".to_string()));
    assert!(calls.contains(&"encoder.initialize(AV1, 800kbps, gop 15)".to_string()));
    assert_eq!(stand.sent().len(), 0);
}

#[test]
fn a_failed_reconfiguration_faults_and_does_not_roll_back() {
    let (mut pipeline, stand) = started(video_only(), FlowSettings::default());
    stand.fail("encoder.initialize");
    let mut next = video_only();
    next.encoding.bitrate_kbps = 500;
    let outcome = pipeline.reconfigure(next.clone());
    assert_eq!(
        outcome,
        Err(PipelineError::Fatal(Failure {
            stage: Stage::Encoder,
            cause: StageError::Encoding(EncodingError::InitializationFailed(
                "no codec".to_string()
            )),
        }))
    );
    assert_eq!(pipeline.state(), PipelineState::Faulted);
    assert_eq!(pipeline.session().config(), Some(&next));
    assert_eq!(pipeline.session().held(), 0);
    stand.heal();
    assert_eq!(pipeline.start(), Err(PipelineError::NotPermitted(PipelineState::Faulted)));
}

#[test]
fn an_invalid_reconfiguration_leaves_the_pipeline_running() {
    let (mut pipeline, stand) = started(video_only(), FlowSettings::default());
    let before = stand.calls();
    let mut bad = video_only();
    bad.endpoint = String::new();
    assert_eq!(
        pipeline.reconfigure(bad),
        Err(PipelineError::Config(ConfigError::InvalidConfig(ConfigField::Endpoint)))
    );
    assert!(pipeline.is_running());
    assert_eq!(pipeline.session().config(), Some(&video_only()));
    assert_eq!(stand.calls(), before);
}

#[test]
fn only_a_running_pipeline_is_reconfigured() {
    let (mut pipeline, stand) = pipeline(FlowSettings::default());
    assert_eq!(
        pipeline.reconfigure(video_only()),
        Err(PipelineError::NotPermitted(PipelineState::Idle))
    );
    assert!(stand.calls().is_empty());
}

#[test]
fn a_capture_side_that_waits_too_long_faults_the_pipeline() {
    let (mut pipeline, stand) = started(video_only(), settings(1, BackpressurePolicy::Block));
    assert_eq!(pipeline.submit_sample(frame(1)), Admission::Accepted);
    assert_eq!(pipeline.submit_sample(frame(2)), Admission::Refused(frame(2)));
    assert_eq!(pipeline.capture_stalled(), Progress::Faulted);
    assert_eq!(pipeline.state(), PipelineState::Faulted);
    assert_eq!(
        pipeline.session().fault(),
        Some(&Failure {
            stage: Stage::Capture,
            cause: StageError::Capture(CaptureError::UnexpectedStop(
                "frame buffer stayed full".to_string()
            )),
        })
    );
    assert_eq!(stand.count("capture.stop"), 1);
}

#[test]
fn an_encoder_that_waits_too_long_gives_the_frame_up() {
    let (mut pipeline, stand) = started(video_only(), settings(1, BackpressurePolicy::Block));
    pipeline.submit_sample(frame(1));
    assert_eq!(pipeline.encode_next(), Progress::Advanced);
    pipeline.submit_sample(frame(2));
    assert_eq!(pipeline.encode_next(), Progress::Blocked);
    assert_eq!(pipeline.encoder_stalled(), Progress::Skipped);
    assert!(pipeline.is_running());
    assert_eq!(pipeline.session().frames_waiting(), 0);
    assert_eq!(pipeline.stats().dropped_frames, 1);
    assert_eq!(stand.count("encoder.encode"), 1);
    assert_eq!(pipeline.encoder_stalled(), Progress::Idle);
}

#[test]
fn a_pipeline_can_be_run_again_after_a_stop() {
    let (mut pipeline, stand) = started(video_only(), FlowSettings::default());
    pipeline.stop();
    assert_eq!(pipeline.configure(with_audio()), Ok(()));
    assert_eq!(pipeline.start(), Ok(()));
    assert!(pipeline.is_running());
    assert_eq!(pipeline.session().held(), 4);
    assert_eq!(stand.count("transport.connect"), 2);
    assert_eq!(stand.count("audio.start"), 1);
}

#[test]
fn the_stages_can_be_run_against_a_bare_session() {
    let stand = Arc::new(Stand::default());
    let capture = CaptureStage::new(Camera(stand.clone()), Microphone(stand.clone()));
    let encode = EncodeStage::new(Codec(stand.clone()));
    let transport = TransportStage::new(Wire(stand.clone()));
    let mut session = Session::new(settings(4, BackpressurePolicy::Block));
    session.configure(video_only()).unwrap();
    session.request_start().unwrap();
    assert_eq!(transport.bring_up("wss://example/signal"), Ok(()));
    assert_eq!(encode.bring_up(video_only().encoding), Ok(()));
    assert_eq!(capture.bring_up_video(CaptureSource::Camera, video_only().video), Ok(()));
    while let Some(step) = session.next_step() {
        session.record_step(step, Ok(()));
    }
    assert!(session.is_running());
    assert_eq!(capture.deliver(&mut session, frame(3)), Admission::Accepted);
    assert_eq!(encode.step(&mut session), Progress::Advanced);
    assert_eq!(encode.step(&mut session), Progress::Idle);
    assert_eq!(transport.step(&mut session), Progress::Advanced);
    assert_eq!(transport.step(&mut session), Progress::Idle);
    assert_eq!(stand.sent(), vec![vec![0xEC, 3, 3]]);
    assert_eq!(capture.shut_down_video(), Ok(()));
    assert_eq!(capture.give_up_waiting(&mut session), Progress::Faulted);
    assert_eq!(session.state(), PipelineState::Faulted);
}

#[test]
fn the_stages_pass_failures_on_under_their_kind() {
    let stand = Arc::new(Stand::default());
    stand.fail("transport.connect");
    stand.fail("encoder.initialize");
    stand.fail("capture.initialize");
    stand.fail("audio.start");
    let capture = CaptureStage::new(Camera(stand.clone()), Microphone(stand.clone()));
    let encode = EncodeStage::new(Codec(stand.clone()));
    let transport = TransportStage::new(Wire(stand.clone()));
    assert_eq!(
        transport.bring_up("wss://example/signal"),
        Err(StageError::Transport(TransportError::ConnectionFailed("no route".to_string())))
    );
    assert_eq!(
        encode.bring_up(video_only().encoding),
        Err(StageError::Encoding(EncodingError::InitializationFailed("no codec".to_string())))
    );
    assert_eq!(
        capture.bring_up_video(CaptureSource::Desktop, video_only().video),
        Err(StageError::Capture(CaptureError::DeviceInitializationFailed("no device".to_string())))
    );
    assert_eq!(stand.count("capture.start"), 0);
    assert_eq!(
        capture.bring_up_audio(AudioConfig { sample_rate: 48000, channels: 2 }),
        Err(StageError::Capture(CaptureError::StartFailed("muted".to_string())))
    );
}

fn options(source: &str, width: i32, height: i32, fps: i32) -> CaptureOptions {
    CaptureOptions { source_type: source.to_string(), width, height, fps }
}

fn h264() -> EncodingParameters {
    EncodingParameters { codec: VideoCodec::H264, bitrate_kbps: 2000, gop_size: 30 }
}

fn request(pipeline: &mut Pipeline, options: CaptureOptions) -> Result<String, PipelineError> {
    start_capture_service(pipeline, options, None, h264(), "wss://example/signal".to_string())
}

#[test]
fn the_service_starts_the_pipeline_and_announces_it() {
    let (mut pipeline, stand) = pipeline(settings(4, BackpressurePolicy::Block));
    let outcome = request(&mut pipeline, options("desktop", 1280, 720, 30));
    assert_eq!(outcome, Ok("Capture service started: 1280x720 at 30fps".to_string()));
    assert_eq!(pipeline.state(), PipelineState::Running);
    assert!(pipeline.is_running());
    assert_eq!(
        stand.calls(),
        names(&[
            "transport.connect(wss://example/signal)",
            "transport.connect",
            "encoder.initialize(H264, 2000kbps, gop 30)",
            "encoder.initialize",
            "capture.initialize(Desktop, 1280x720@30)",
            "capture.initialize",
            "capture.start",
        ])
    );
}

#[test]
fn the_service_carries_ten_frames_and_stops() {
    let (mut pipeline, stand) = pipeline(settings(4, BackpressurePolicy::Block));
    request(&mut pipeline, options("desktop", 1280, 720, 30)).unwrap();
    for number in 0..10 {
        assert_eq!(pipeline.submit_sample(frame(number)), Admission::Accepted);
        assert!(pipeline.session().frames_waiting() <= 4);
        assert_eq!(pipeline.encode_next(), Progress::Advanced);
        assert!(pipeline.session().packets_waiting() <= 4);
        assert_eq!(pipeline.send_next(), Progress::Advanced);
    }
    assert!(stop_capture_service(&mut pipeline));
    assert_eq!(pipeline.state(), PipelineState::Idle);
    assert_eq!(pipeline.session().frames_waiting(), 0);
    assert_eq!(pipeline.session().packets_waiting(), 0);
    let expected: Vec<Vec<u8>> = (0..10).map(|number| vec![0xEC, number, number]).collect();
    assert_eq!(stand.sent(), expected);
    assert_eq!(pipeline.stats(), SessionStats { dropped_frames: 0, retries: 0, warnings: 0 });
}

#[test]
fn the_service_announces_every_positive_geometry() {
    for value in [1, 7, 10, 99, 100, 101, 4096, 65535, 1000000, i32::MAX] {
        let (mut pipeline, _stand) = pipeline(FlowSettings::default());
        let outcome = request(&mut pipeline, options("camera", value, value, value));
        assert_eq!(
            outcome,
            Ok(format!("Capture service started: {}x{} at {}fps", value, value, value))
        );
    }
}

#[test]
fn the_service_rejects_numbers_that_are_not_positive() {
    let cases = [
        (0, 720, 30, ConfigField::Width),
        (-5, 0, 0, ConfigField::Width),
        (1280, 0, 30, ConfigField::Height),
        (1280, i32::MIN, -1, ConfigField::Height),
        (1280, 720, 0, ConfigField::Framerate),
        (1280, 720, -120, ConfigField::Framerate),
    ];
    for (width, height, fps, field) in cases {
        let (mut pipeline, stand) = pipeline(FlowSettings::default());
        let outcome = request(&mut pipeline, options("desktop", width, height, fps));
        assert_eq!(outcome, Err(PipelineError::Config(ConfigError::InvalidConfig(field))));
        assert_eq!(pipeline.state(), PipelineState::Idle);
        assert_eq!(pipeline.session().config(), None);
        assert!(stand.calls().is_empty());
    }
}

#[test]
fn the_service_takes_any_source() {
    for source in ["", "desktop", "camera", "Editor", "   "] {
        let (mut pipeline, _stand) = pipeline(FlowSettings::default());
        assert_eq!(
            request(&mut pipeline, options(source, 1280, 720, 30)),
            Ok("Capture service started: 1280x720 at 30fps".to_string())
        );
        assert!(pipeline.is_running());
    }
}

#[test]
fn an_empty_source_goes_to_the_capture_device_as_a_window() {
    let (mut pipeline, stand) = pipeline(FlowSettings::default());
    request(&mut pipeline, options("", 1280, 720, 30)).unwrap();
    assert!(stand.calls().contains(&"capture.initialize(Window(\"\"), 1280x720@30)".to_string()));
}

#[test]
fn a_device_that_cannot_use_the_source_faults_the_start() {
    let (mut pipeline, stand) = pipeline(FlowSettings::default());
    stand.fail("capture.initialize");
    assert_eq!(
        request(&mut pipeline, options("", 1280, 720, 30)),
        Err(PipelineError::Fatal(Failure {
            stage: Stage::Capture,
            cause: StageError::Capture(CaptureError::DeviceInitializationFailed(
                "no device".to_string()
            )),
        }))
    );
    assert_eq!(pipeline.state(), PipelineState::Faulted);
}

#[test]
fn the_service_rejects_a_request_without_endpoint() {
    let (mut pipeline, stand) = pipeline(FlowSettings::default());
    assert_eq!(
        start_capture_service(
            &mut pipeline,
            options("desktop", 1280, 720, 30),
            None,
            h264(),
            String::new()
        ),
        Err(PipelineError::Config(ConfigError::InvalidConfig(ConfigField::Endpoint)))
    );
    assert_eq!(
        start_capture_service(
            &mut pipeline,
            options("desktop", 1280, 720, 30),
            Some(AudioConfig { sample_rate: 0, channels: 2 }),
            h264(),
            "wss://example/signal".to_string()
        ),
        Err(PipelineError::Config(ConfigError::InvalidConfig(ConfigField::SampleRate)))
    );
    assert_eq!(pipeline.state(), PipelineState::Idle);
    assert!(stand.calls().is_empty());
}

#[test]
fn the_service_is_not_started_twice() {
    let (mut pipeline, stand) = pipeline(FlowSettings::default());
    request(&mut pipeline, options("desktop", 1280, 720, 30)).unwrap();
    let calls = stand.calls();
    assert_eq!(
        request(&mut pipeline, options("camera", 640, 480, 15)),
        Err(PipelineError::NotPermitted(PipelineState::Running))
    );
    assert!(pipeline.is_running());
    assert_eq!(pipeline.session().config(), Some(&video_only()));
    assert_eq!(stand.calls(), calls);
}

#[test]
fn the_service_names_a_window_to_the_capture_device() {
    let (mut pipeline, stand) = pipeline(FlowSettings::default());
    let outcome = start_capture_service(
        &mut pipeline,
        options("Editor", 640, 480, 15),
        Some(AudioConfig { sample_rate: 48000, channels: 2 }),
        EncodingParameters { codec: VideoCodec::AV1, bitrate_kbps: 800, gop_size: 15 },
        "wss://example/other".to_string(),
    );
    assert_eq!(outcome, Ok("Capture service started: 640x480 at 15fps".to_string()));
    let calls = stand.calls();
    assert!(calls.contains(&"transport.connect(wss://example/other)".to_string()));
    assert!(calls.contains(&"encoder.initialize(AV1, 800kbps, gop 15)".to_string()));
    assert!(calls.contains(&"capture.initialize(Window(\"Editor\"), 640x480@15)".to_string()));
    assert!(calls.contains(&"audio.initialize(48000Hz, 2ch)".to_string()));
    assert_eq!(pipeline.session().held(), 4);
}

#[test]
fn a_refused_connection_fails_the_service_and_nothing_else_is_called() {
    let (mut pipeline, stand) = pipeline(FlowSettings::default());
    stand.fail("transport.connect");
    let outcome = request(&mut pipeline, options("desktop", 1280, 720, 30));
    assert_eq!(
        outcome,
        Err(PipelineError::Fatal(Failure {
            stage: Stage::Transport,
            cause: StageError::Transport(TransportError::ConnectionFailed("no route".to_string())),
        }))
    );
    assert_eq!(pipeline.state(), PipelineState::Faulted);
    assert!(!pipeline.is_running());
    assert_eq!(stand.count("transport.connect"), 1);
    assert_eq!(stand.count("encoder.initialize"), 0);
    assert_eq!(stand.count("capture.initialize"), 0);
    assert_eq!(stand.count("capture.start"), 0);
    assert_eq!(stand.count("audio.initialize"), 0);
    assert_eq!(stand.count("encoder.encode"), 0);
    assert_eq!(stand.count("transport.send"), 0);
    assert!(!pipeline.transport().transport().is_connected());
}

#[test]
fn a_failed_service_is_reset_by_a_stop() {
    let (mut pipeline, stand) = pipeline(FlowSettings::default());
    stand.fail("capture.start");
    assert!(request(&mut pipeline, options("desktop", 1280, 720, 30)).is_err());
    assert_eq!(pipeline.state(), PipelineState::Faulted);
    stand.heal();
    assert!(stop_capture_service(&mut pipeline));
    assert_eq!(pipeline.state(), PipelineState::Idle);
    assert_eq!(
        request(&mut pipeline, options("desktop", 1280, 720, 30)),
        Ok("Capture service started: 1280x720 at 30fps".to_string())
    );
}

#[test]
fn stopping_the_service_twice_changes_nothing_the_second_time() {
    let (mut pipeline, stand) = pipeline(FlowSettings::default());
    assert!(stop_capture_service(&mut pipeline));
    assert!(stand.calls().is_empty());
    request(&mut pipeline, options("desktop", 1280, 720, 30)).unwrap();
    pipeline.submit_sample(frame(1));
    assert!(stop_capture_service(&mut pipeline));
    let calls = stand.calls();
    let stats = pipeline.stats();
    assert!(stop_capture_service(&mut pipeline));
    assert_eq!(pipeline.state(), PipelineState::Idle);
    assert_eq!(stand.calls(), calls);
    assert_eq!(pipeline.stats(), stats);
}

#[test]
fn a_stop_counts_no_more_losses_than_were_buffered() {
    let mut limited = settings(8, BackpressurePolicy::Block);
    limited.drain_budget = 0;
    let (mut pipeline, stand) = started(video_only(), limited);
    for number in 0..5 {
        pipeline.submit_sample(frame(number));
    }
    pipeline.encode_next();
    pipeline.encode_next();
    assert!(stop_capture_service(&mut pipeline));
    assert_eq!(pipeline.stats(), SessionStats { dropped_frames: 5, retries: 0, warnings: 0 });
    assert!(stand.sent().is_empty());
}

#[test]
fn a_stop_keeps_the_count_of_a_frame_that_failed_before() {
    let (mut pipeline, stand) = pipeline(settings(4, BackpressurePolicy::Block));
    request(&mut pipeline, options("desktop", 1280, 720, 30)).unwrap();
    stand
        .encode_failures
        .lock()
        .unwrap()
        .push((2, EncodingError::ProcessFailed("bad frame".to_string())));
    for number in 1..=3 {
        assert_eq!(pipeline.submit_sample(frame(number)), Admission::Accepted);
    }
    assert!(stop_capture_service(&mut pipeline));
    assert_eq!(pipeline.state(), PipelineState::Idle);
    assert_eq!(stand.count("encoder.encode"), 3);
    assert_eq!(stand.sent(), vec![vec![0xEC, 1, 1], vec![0xEC, 3, 3]]);
    assert_eq!(pipeline.stats(), SessionStats { dropped_frames: 1, retries: 0, warnings: 1 });
}

#[test]
fn a_stop_delivers_what_is_buffered_in_the_order_of_capture() {
    let (mut pipeline, stand) = pipeline(settings(4, BackpressurePolicy::Block));
    request(&mut pipeline, options("desktop", 1280, 720, 30)).unwrap();
    for number in 0..6 {
        assert_eq!(pipeline.submit_sample(frame(number)), Admission::Accepted);
        if number % 2 == 1 {
            assert_eq!(pipeline.encode_next(), Progress::Advanced);
        }
        if number == 3 {
            assert_eq!(pipeline.send_next(), Progress::Advanced);
        }
    }
    assert!(pipeline.session().frames_waiting() > 0);
    assert!(pipeline.session().packets_waiting() > 0);
    assert!(stop_capture_service(&mut pipeline));
    let expected: Vec<Vec<u8>> = (0..6).map(|number| vec![0xEC, number, number]).collect();
    assert_eq!(stand.sent(), expected);
    assert_eq!(pipeline.stats(), SessionStats { dropped_frames: 0, retries: 0, warnings: 0 });
}
