use crate::domain::error::{CaptureError, ConfigError, ConfigField};
use vstd::prelude::*;

verus! {

/// Where video frames come from.
#[derive(Debug, PartialEq, Eq)]
pub enum CaptureSource {
    Desktop,
    Camera,
    /// The window with the given title.
    Window(String),
}

/// Geometry and rate of the captured video.
#[derive(Debug, Clone, Copy, PartialEq, Eq, Structural)]
pub struct CaptureConfig {
    pub width: u32,
    pub height: u32,
    pub framerate: u32,
}

/// Format of the captured audio.
#[derive(Debug, Clone, Copy, PartialEq, Eq, Structural)]
pub struct AudioConfig {
    pub sample_rate: u32,
    pub channels: u16,
}

/// A video capture device.
///
/// The pipeline calls `initialize` first, `start_capture` only after an
/// `initialize` that succeeded, and `stop_capture` once for each
/// `start_capture` that succeeded. It assumes nothing about the results.
pub trait MediaCapture: Send + Sync {
    fn initialize(&self, source: CaptureSource, config: CaptureConfig) -> Result<(), CaptureError>;

    fn start_capture(&self) -> Result<(), CaptureError>;

    fn stop_capture(&self) -> Result<(), CaptureError>;

    fn is_capturing(&self) -> bool;
}

/// An audio capture device.
pub trait AudioCapture: Send + Sync {
    fn initialize_audio(&self, config: AudioConfig) -> Result<(), CaptureError>;

    fn start_audio_capture(&self) -> Result<(), CaptureError>;

    fn is_audio_capturing(&self) -> bool;
}

impl Clone for CaptureSource {
    fn clone(&self) -> (copy: Self)
        ensures
            copy == *self,
    {
        match self {
            CaptureSource::Desktop => CaptureSource::Desktop,
            CaptureSource::Camera => CaptureSource::Camera,
            CaptureSource::Window(title) => CaptureSource::Window(title.clone()),
        }
    }
}

impl CaptureConfig {
    /// The first parameter, in declaration order, that is zero.
    pub open spec fn first_invalid(self) -> Option<ConfigField> {
        if self.width == 0 {
            Some(ConfigField::Width)
        } else if self.height == 0 {
            Some(ConfigField::Height)
        } else if self.framerate == 0 {
            Some(ConfigField::Framerate)
        } else {
            None
        }
    }

    /// Width, height and framerate are all positive.
    pub open spec fn is_valid(self) -> bool {
        self.width > 0 && self.height > 0 && self.framerate > 0
    }

    pub fn validate(&self) -> (outcome: Result<(), ConfigError>)
        ensures
            outcome is Ok <==> self.is_valid(),
            outcome matches Err(e) ==> self.first_invalid() == Some(e.field_view()),
    {
        if self.width == 0 {
            Err(ConfigError::InvalidConfig(ConfigField::Width))
        } else if self.height == 0 {
            Err(ConfigError::InvalidConfig(ConfigField::Height))
        } else if self.framerate == 0 {
            Err(ConfigError::InvalidConfig(ConfigField::Framerate))
        } else {
            Ok(())
        }
    }
}

impl AudioConfig {
    /// The first parameter, in declaration order, that is zero.
    pub open spec fn first_invalid(self) -> Option<ConfigField> {
        if self.sample_rate == 0 {
            Some(ConfigField::SampleRate)
        } else if self.channels == 0 {
            Some(ConfigField::Channels)
        } else {
            None
        }
    }

    /// Sample rate and channel count are both positive.
    pub open spec fn is_valid(self) -> bool {
        self.sample_rate > 0 && self.channels > 0
    }

    pub fn validate(&self) -> (outcome: Result<(), ConfigError>)
        ensures
            outcome is Ok <==> self.is_valid(),
            outcome matches Err(e) ==> self.first_invalid() == Some(e.field_view()),
    {
        if self.sample_rate == 0 {
            Err(ConfigError::InvalidConfig(ConfigField::SampleRate))
        } else if self.channels == 0 {
            Err(ConfigError::InvalidConfig(ConfigField::Channels))
        } else {
            Ok(())
        }
    }
}

} // verus!
