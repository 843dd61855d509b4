use crate::domain::capture::{CaptureConfig, CaptureSource};
use crate::domain::error::{ConfigError, ConfigField};
use vstd::prelude::*;
use vstd::string::*;

verus! {

/// Capture settings as the embedding application states them.
#[derive(Debug, PartialEq, Eq)]
pub struct CaptureOptions {
    /// `"desktop"`, `"camera"`, or the title of the window to capture.
    pub source_type: String,
    pub width: i32,
    pub height: i32,
    pub fps: i32,
}

impl CaptureOptions {
    /// The first numeric setting, in declaration order, that is not positive.
    pub open spec fn first_invalid_number(self) -> Option<ConfigField> {
        if self.width <= 0 {
            Some(ConfigField::Width)
        } else if self.height <= 0 {
            Some(ConfigField::Height)
        } else if self.fps <= 0 {
            Some(ConfigField::Framerate)
        } else {
            None
        }
    }

    /// The capture source that `source_type` names.
    pub open spec fn source_view(self) -> CaptureSource {
        if self.source_type@ == "desktop"@ {
            CaptureSource::Desktop
        } else if self.source_type@ == "camera"@ {
            CaptureSource::Camera
        } else {
            CaptureSource::Window(self.source_type)
        }
    }

    /// The video configuration these options ask for. They are rejected,
    /// naming the first offending setting, unless all three numbers are
    /// positive.
    pub fn capture_config(&self) -> (outcome: Result<CaptureConfig, ConfigError>)
        ensures
            match outcome {
                Ok(config) => {
                    &&& self.first_invalid_number() is None
                    &&& config.width == self.width
                    &&& config.height == self.height
                    &&& config.framerate == self.fps
                    &&& config.is_valid()
                },
                Err(e) => self.first_invalid_number() == Some(e.field_view()),
            },
    {
        if self.width <= 0 {
            Err(ConfigError::InvalidConfig(ConfigField::Width))
        } else if self.height <= 0 {
            Err(ConfigError::InvalidConfig(ConfigField::Height))
        } else if self.fps <= 0 {
            Err(ConfigError::InvalidConfig(ConfigField::Framerate))
        } else {
            Ok(
                CaptureConfig {
                    width: self.width as u32,
                    height: self.height as u32,
                    framerate: self.fps as u32,
                },
            )
        }
    }

    /// The capture source these options ask for: the desktop, the camera, or
    /// the window titled `source_type`, whatever that title is.
    pub fn capture_source(&self) -> (source: CaptureSource)
        ensures
            source == self.source_view(),
    {
        let desktop = String::from_str("desktop");
        let camera = String::from_str("camera");
        if self.source_type == desktop {
            CaptureSource::Desktop
        } else if self.source_type == camera {
            CaptureSource::Camera
        } else {
            CaptureSource::Window(self.source_type.clone())
        }
    }
}

} // verus!
