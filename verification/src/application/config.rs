use crate::application::buffer::BackpressurePolicy;
use crate::domain::capture::{AudioConfig, CaptureConfig, CaptureSource};
use crate::domain::encoding::EncodingParameters;
use crate::domain::error::{ConfigError, ConfigField};
use vstd::prelude::*;

verus! {

/// Everything a session is run with. A configuration is replaced as a
/// whole and never changed in place.
#[derive(Debug, PartialEq, Eq)]
pub struct PipelineConfig {
    pub source: CaptureSource,
    pub video: CaptureConfig,
    /// The audio stage is part of the pipeline only if this is given.
    pub audio: Option<AudioConfig>,
    pub encoding: EncodingParameters,
    /// The signaling address the transport connects to.
    pub endpoint: String,
}

/// How a deployment bounds the flow between the stages.
#[derive(Debug, Clone, Copy, PartialEq, Eq, Structural)]
pub struct FlowSettings {
    /// Room for raw samples waiting to be encoded.
    pub frame_capacity: usize,
    pub frame_policy: BackpressurePolicy,
    /// Room for packets waiting to be sent.
    pub packet_capacity: usize,
    pub packet_policy: BackpressurePolicy,
    /// How often in a row a failed transmission is tried again.
    pub retry_budget: u32,
    /// How many units at most are moved while a stopping pipeline drains.
    pub drain_budget: u32,
}

impl PipelineConfig {
    /// The first parameter that makes the configuration unusable, going
    /// through video, audio, encoding and endpoint in this order. Any source
    /// is taken: whether it can be captured is for the device to say.
    pub open spec fn first_invalid(self) -> Option<ConfigField> {
        if self.video.first_invalid() is Some {
            self.video.first_invalid()
        } else if self.audio is Some && self.audio->Some_0.first_invalid() is Some {
            self.audio->Some_0.first_invalid()
        } else if self.encoding.first_invalid() is Some {
            self.encoding.first_invalid()
        } else if self.endpoint@.len() == 0 {
            Some(ConfigField::Endpoint)
        } else {
            None
        }
    }

    /// Every number is positive and the endpoint is not empty.
    pub open spec fn is_valid(self) -> bool {
        &&& self.video.is_valid()
        &&& self.audio matches Some(audio) ==> audio.is_valid()
        &&& self.encoding.is_valid()
        &&& self.endpoint@.len() > 0
    }

    /// Accepts a usable configuration and names the first offending
    /// parameter of any other.
    pub fn validate(&self) -> (outcome: Result<(), ConfigError>)
        ensures
            outcome is Ok <==> self.is_valid(),
            outcome is Ok <==> self.first_invalid() is None,
            outcome matches Err(e) ==> self.first_invalid() == Some(e.field_view()),
    {
        match self.video.validate() {
            Err(e) => {
                return Err(e);
            },
            Ok(_) => {},
        }
        match &self.audio {
            Some(audio) => {
                match audio.validate() {
                    Err(e) => {
                        return Err(e);
                    },
                    Ok(_) => {},
                }
            },
            None => {},
        }
        match self.encoding.validate() {
            Err(e) => {
                return Err(e);
            },
            Ok(_) => {},
        }
        if self.endpoint.as_str().is_empty() {
            return Err(ConfigError::InvalidConfig(ConfigField::Endpoint));
        }
        Ok(())
    }

    pub fn has_audio(&self) -> (audio: bool)
        ensures
            audio == (self.audio is Some),
    {
        self.audio.is_some()
    }
}

impl Clone for PipelineConfig {
    fn clone(&self) -> (copy: Self)
        ensures
            copy == *self,
    {
        PipelineConfig {
            source: self.source.clone(),
            video: self.video,
            audio: self.audio,
            encoding: self.encoding,
            endpoint: self.endpoint.clone(),
        }
    }
}

impl FlowSettings {
    /// The settings used where a deployment states none: room for four
    /// units in each buffer, the oldest unit dropped when a buffer is full,
    /// three retries of a failed transmission, and at most sixty-four units
    /// moved while draining.
    pub open spec fn standard() -> Self {
        FlowSettings {
            frame_capacity: 4,
            frame_policy: BackpressurePolicy::DropOldest,
            packet_capacity: 4,
            packet_policy: BackpressurePolicy::DropOldest,
            retry_budget: 3,
            drain_budget: 64,
        }
    }
}

impl Default for FlowSettings {
    fn default() -> (settings: Self)
        ensures
            settings == FlowSettings::standard(),
    {
        FlowSettings {
            frame_capacity: 4,
            frame_policy: BackpressurePolicy::DropOldest,
            packet_capacity: 4,
            packet_policy: BackpressurePolicy::DropOldest,
            retry_budget: 3,
            drain_budget: 64,
        }
    }
}

} // verus!
