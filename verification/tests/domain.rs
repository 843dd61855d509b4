use system_support::application::config::{FlowSettings, PipelineConfig};
use system_support::application::buffer::BackpressurePolicy;
use system_support::domain::capture::{AudioConfig, CaptureConfig, CaptureSource};
use system_support::domain::encoding::{EncodingParameters, VideoCodec};
use system_support::domain::error::{
    CaptureError, ConfigError, ConfigField, EncodingError, TransportError,
};

fn sound_config() -> PipelineConfig {
    PipelineConfig {
        source: CaptureSource::Desktop,
        video: CaptureConfig { width: 1280, height: 720, framerate: 30 },
        audio: Some(AudioConfig { sample_rate: 48000, channels: 2 }),
        encoding: EncodingParameters { codec: VideoCodec::H264, bitrate_kbps: 2000, gop_size: 30 },
        endpoint: "wss://example/signal".to_string(),
    }
}

#[test]
fn capture_errors_read_as_headline_and_detail() {
    assert_eq!(
        CaptureError::DeviceInitializationFailed("no device".to_string()).message(),
        "Capture device initialization failed: no device"
    );
    assert_eq!(
        CaptureError::StartFailed("busy".to_string()).message(),
        "Capture start failed: busy"
    );
    assert_eq!(
        CaptureError::UnexpectedStop("unplugged".to_string()).message(),
        "Capture stopped unexpectedly: unplugged"
    );
}

#[test]
fn encoding_errors_read_as_headline_and_detail() {
    assert_eq!(
        EncodingError::InitializationFailed("no codec".to_string()).message(),
        "Encoder initialization failed: no codec"
    );
    assert_eq!(
        EncodingError::ProcessFailed("bad frame".to_string()).message(),
        "Encoding process failed: bad frame"
    );
}

#[test]
fn transport_errors_read_as_headline_and_detail() {
    assert_eq!(
        TransportError::ConnectionFailed("refused".to_string()).message(),
        "Transport connection failed: refused"
    );
    assert_eq!(
        TransportError::TransmissionFailed("timeout".to_string()).message(),
        "Data transmission failed: timeout"
    );
}

#[test]
fn an_empty_detail_leaves_the_headline() {
    assert_eq!(CaptureError::StartFailed(String::new()).message(), "Capture start failed: ");
    assert_eq!(CaptureError::StartFailed(String::new()).detail(), "");
}

#[test]
fn errors_give_their_detail() {
    assert_eq!(CaptureError::UnexpectedStop("unplugged".to_string()).detail(), "unplugged");
    assert_eq!(EncodingError::ProcessFailed("bad frame".to_string()).detail(), "bad frame");
    assert_eq!(TransportError::ConnectionFailed("refused".to_string()).detail(), "refused");
}

#[test]
fn errors_are_cloned_as_they_are() {
    let capture = CaptureError::StartFailed("busy".to_string());
    assert_eq!(capture.clone(), capture);
    let encoding = EncodingError::ProcessFailed("bad frame".to_string());
    assert_eq!(encoding.clone(), encoding);
    let transport = TransportError::TransmissionFailed("timeout".to_string());
    assert_eq!(transport.clone(), transport);
}

#[test]
fn config_errors_name_the_parameter() {
    let error = ConfigError::InvalidConfig(ConfigField::SampleRate);
    assert_eq!(error.field(), ConfigField::SampleRate);
    assert_eq!(error.message(), "Invalid configuration: sample rate");
    assert_eq!(ConfigError::InvalidConfig(ConfigField::Endpoint).message(), "Invalid configuration: endpoint");
}

#[test]
fn every_parameter_has_a_name() {
    assert_eq!(ConfigField::Width.name(), "width");
    assert_eq!(ConfigField::Height.name(), "height");
    assert_eq!(ConfigField::Framerate.name(), "framerate");
    assert_eq!(ConfigField::SampleRate.name(), "sample rate");
    assert_eq!(ConfigField::Channels.name(), "channels");
    assert_eq!(ConfigField::Bitrate.name(), "bitrate");
    assert_eq!(ConfigField::GopSize.name(), "gop size");
    assert_eq!(ConfigField::Endpoint.name(), "endpoint");
}

#[test]
fn video_config_needs_positive_numbers() {
    assert_eq!(CaptureConfig { width: 1, height: 1, framerate: 1 }.validate(), Ok(()));
    assert_eq!(
        CaptureConfig { width: 0, height: 0, framerate: 0 }.validate(),
        Err(ConfigError::InvalidConfig(ConfigField::Width))
    );
    assert_eq!(
        CaptureConfig { width: 1, height: 0, framerate: 0 }.validate(),
        Err(ConfigError::InvalidConfig(ConfigField::Height))
    );
    assert_eq!(
        CaptureConfig { width: 1, height: 1, framerate: 0 }.validate(),
        Err(ConfigError::InvalidConfig(ConfigField::Framerate))
    );
}

#[test]
fn audio_config_needs_positive_numbers() {
    assert_eq!(AudioConfig { sample_rate: 44100, channels: 1 }.validate(), Ok(()));
    assert_eq!(
        AudioConfig { sample_rate: 0, channels: 0 }.validate(),
        Err(ConfigError::InvalidConfig(ConfigField::SampleRate))
    );
    assert_eq!(
        AudioConfig { sample_rate: 44100, channels: 0 }.validate(),
        Err(ConfigError::InvalidConfig(ConfigField::Channels))
    );
}

#[test]
fn encoding_parameters_need_positive_numbers() {
    let good = EncodingParameters { codec: VideoCodec::AV1, bitrate_kbps: 1, gop_size: 1 };
    assert_eq!(good.validate(), Ok(()));
    let no_bitrate = EncodingParameters { codec: VideoCodec::H265, bitrate_kbps: 0, gop_size: 0 };
    assert_eq!(no_bitrate.validate(), Err(ConfigError::InvalidConfig(ConfigField::Bitrate)));
    let no_gop = EncodingParameters { codec: VideoCodec::H265, bitrate_kbps: 800, gop_size: 0 };
    assert_eq!(no_gop.validate(), Err(ConfigError::InvalidConfig(ConfigField::GopSize)));
}

#[test]
fn a_source_is_cloned_as_it_is() {
    let window = CaptureSource::Window("Terminal".to_string());
    assert_eq!(window.clone(), window);
    assert_eq!(CaptureSource::Camera.clone(), CaptureSource::Camera);
}

#[test]
fn a_sound_pipeline_config_is_accepted() {
    let config = sound_config();
    assert_eq!(config.validate(), Ok(()));
    assert!(config.has_audio());
    assert_eq!(config.clone(), config);
}

#[test]
fn a_pipeline_config_without_audio_is_accepted() {
    let mut config = sound_config();
    config.audio = None;
    assert_eq!(config.validate(), Ok(()));
    assert!(!config.has_audio());
}

#[test]
fn a_pipeline_config_names_its_first_offending_parameter() {
    let mut config = sound_config();
    config.endpoint = String::new();
    assert_eq!(config.validate(), Err(ConfigError::InvalidConfig(ConfigField::Endpoint)));
    config.encoding.gop_size = 0;
    assert_eq!(config.validate(), Err(ConfigError::InvalidConfig(ConfigField::GopSize)));
    config.encoding.bitrate_kbps = 0;
    assert_eq!(config.validate(), Err(ConfigError::InvalidConfig(ConfigField::Bitrate)));
    config.audio = Some(AudioConfig { sample_rate: 48000, channels: 0 });
    assert_eq!(config.validate(), Err(ConfigError::InvalidConfig(ConfigField::Channels)));
    config.audio = Some(AudioConfig { sample_rate: 0, channels: 0 });
    assert_eq!(config.validate(), Err(ConfigError::InvalidConfig(ConfigField::SampleRate)));
    config.video.framerate = 0;
    assert_eq!(config.validate(), Err(ConfigError::InvalidConfig(ConfigField::Framerate)));
    config.video.height = 0;
    assert_eq!(config.validate(), Err(ConfigError::InvalidConfig(ConfigField::Height)));
    config.video.width = 0;
    assert_eq!(config.validate(), Err(ConfigError::InvalidConfig(ConfigField::Width)));
    config.video.width = 1;
    config.video.height = 1;
    config.video.framerate = 1;
    config.audio = None;
    config.encoding.bitrate_kbps = 1;
    config.encoding.gop_size = 1;
    config.endpoint = "e".to_string();
    config.source = CaptureSource::Window(String::new());
    assert_eq!(config.validate(), Ok(()));
}

#[test]
fn the_standard_flow_settings() {
    let settings = FlowSettings::default();
    assert_eq!(settings.frame_capacity, 4);
    assert_eq!(settings.packet_capacity, 4);
    assert_eq!(settings.frame_policy, BackpressurePolicy::DropOldest);
    assert_eq!(settings.packet_policy, BackpressurePolicy::DropOldest);
    assert_eq!(settings.retry_budget, 3);
    assert_eq!(settings.drain_budget, 64);
}
