use vstd::prelude::*;
use vstd::string::*;

verus! {

/// A failure of a capture device. Each variant carries the device's own
/// description of what went wrong.
#[derive(Debug, PartialEq, Eq)]
pub enum CaptureError {
    DeviceInitializationFailed(String),
    StartFailed(String),
    UnexpectedStop(String),
}

/// A failure of an encoder.
#[derive(Debug, PartialEq, Eq)]
pub enum EncodingError {
    InitializationFailed(String),
    ProcessFailed(String),
}

/// A failure of a transport.
#[derive(Debug, PartialEq, Eq)]
pub enum TransportError {
    ConnectionFailed(String),
    TransmissionFailed(String),
}

/// The parameter of a configuration that a validation found unusable.
#[derive(Debug, Clone, Copy, PartialEq, Eq, Structural)]
pub enum ConfigField {
    Width,
    Height,
    Framerate,
    SampleRate,
    Channels,
    Bitrate,
    GopSize,
    Endpoint,
}

/// A configuration that was rejected before any stage was touched.
#[derive(Debug, Clone, Copy, PartialEq, Eq, Structural)]
pub enum ConfigError {
    InvalidConfig(ConfigField),
}

impl CaptureError {
    /// The description supplied by the device.
    pub open spec fn detail_view(self) -> Seq<char> {
        match self {
            CaptureError::DeviceInitializationFailed(d) => d@,
            CaptureError::StartFailed(d) => d@,
            CaptureError::UnexpectedStop(d) => d@,
        }
    }

    /// The fixed text that introduces the description in [`Self::message`].
    pub open spec fn headline(self) -> Seq<char> {
        match self {
            CaptureError::DeviceInitializationFailed(_) => "Capture device initialization failed: "@,
            CaptureError::StartFailed(_) => "Capture start failed: "@,
            CaptureError::UnexpectedStop(_) => "Capture stopped unexpectedly: "@,
        }
    }

    pub open spec fn message_view(self) -> Seq<char> {
        self.headline() + self.detail_view()
    }

    pub fn detail(&self) -> (text: &str)
        ensures
            text@ == self.detail_view(),
    {
        match self {
            CaptureError::DeviceInitializationFailed(d) => d.as_str(),
            CaptureError::StartFailed(d) => d.as_str(),
            CaptureError::UnexpectedStop(d) => d.as_str(),
        }
    }

    /// The error as one line of text: the headline of the variant followed
    /// by the device's description.
    pub fn message(&self) -> (text: String)
        ensures
            text@ == self.message_view(),
    {
        let mut text = match self {
            CaptureError::DeviceInitializationFailed(_) => String::from_str(
                "Capture device initialization failed: ",
            ),
            CaptureError::StartFailed(_) => String::from_str("Capture start failed: "),
            CaptureError::UnexpectedStop(_) => String::from_str("Capture stopped unexpectedly: "),
        };
        text.append(self.detail());
        text
    }
}

impl Clone for CaptureError {
    fn clone(&self) -> (copy: Self)
        ensures
            copy == *self,
    {
        match self {
            CaptureError::DeviceInitializationFailed(d) => CaptureError::DeviceInitializationFailed(
                d.clone(),
            ),
            CaptureError::StartFailed(d) => CaptureError::StartFailed(d.clone()),
            CaptureError::UnexpectedStop(d) => CaptureError::UnexpectedStop(d.clone()),
        }
    }
}

impl EncodingError {
    /// The description supplied by the encoder.
    pub open spec fn detail_view(self) -> Seq<char> {
        match self {
            EncodingError::InitializationFailed(d) => d@,
            EncodingError::ProcessFailed(d) => d@,
        }
    }

    /// The fixed text that introduces the description in [`Self::message`].
    pub open spec fn headline(self) -> Seq<char> {
        match self {
            EncodingError::InitializationFailed(_) => "Encoder initialization failed: "@,
            EncodingError::ProcessFailed(_) => "Encoding process failed: "@,
        }
    }

    pub open spec fn message_view(self) -> Seq<char> {
        self.headline() + self.detail_view()
    }

    pub fn detail(&self) -> (text: &str)
        ensures
            text@ == self.detail_view(),
    {
        match self {
            EncodingError::InitializationFailed(d) => d.as_str(),
            EncodingError::ProcessFailed(d) => d.as_str(),
        }
    }

    /// The error as one line of text: the headline of the variant followed
    /// by the encoder's description.
    pub fn message(&self) -> (text: String)
        ensures
            text@ == self.message_view(),
    {
        let mut text = match self {
            EncodingError::InitializationFailed(_) => String::from_str(
                "Encoder initialization failed: ",
            ),
            EncodingError::ProcessFailed(_) => String::from_str("Encoding process failed: "),
        };
        text.append(self.detail());
        text
    }
}

impl Clone for EncodingError {
    fn clone(&self) -> (copy: Self)
        ensures
            copy == *self,
    {
        match self {
            EncodingError::InitializationFailed(d) => EncodingError::InitializationFailed(d.clone()),
            EncodingError::ProcessFailed(d) => EncodingError::ProcessFailed(d.clone()),
        }
    }
}

impl TransportError {
    /// The description supplied by the transport.
    pub open spec fn detail_view(self) -> Seq<char> {
        match self {
            TransportError::ConnectionFailed(d) => d@,
            TransportError::TransmissionFailed(d) => d@,
        }
    }

    /// The fixed text that introduces the description in [`Self::message`].
    pub open spec fn headline(self) -> Seq<char> {
        match self {
            TransportError::ConnectionFailed(_) => "Transport connection failed: "@,
            TransportError::TransmissionFailed(_) => "Data transmission failed: "@,
        }
    }

    pub open spec fn message_view(self) -> Seq<char> {
        self.headline() + self.detail_view()
    }

    pub fn detail(&self) -> (text: &str)
        ensures
            text@ == self.detail_view(),
    {
        match self {
            TransportError::ConnectionFailed(d) => d.as_str(),
            TransportError::TransmissionFailed(d) => d.as_str(),
        }
    }

    /// The error as one line of text: the headline of the variant followed
    /// by the transport's description.
    pub fn message(&self) -> (text: String)
        ensures
            text@ == self.message_view(),
    {
        let mut text = match self {
            TransportError::ConnectionFailed(_) => String::from_str("Transport connection failed: "),
            TransportError::TransmissionFailed(_) => String::from_str("Data transmission failed: "),
        };
        text.append(self.detail());
        text
    }
}

impl Clone for TransportError {
    fn clone(&self) -> (copy: Self)
        ensures
            copy == *self,
    {
        match self {
            TransportError::ConnectionFailed(d) => TransportError::ConnectionFailed(d.clone()),
            TransportError::TransmissionFailed(d) => TransportError::TransmissionFailed(d.clone()),
        }
    }
}

impl ConfigField {
    /// The name of the parameter as it appears in messages.
    pub open spec fn name_view(self) -> Seq<char> {
        match self {
            ConfigField::Width => "width"@,
            ConfigField::Height => "height"@,
            ConfigField::Framerate => "framerate"@,
            ConfigField::SampleRate => "sample rate"@,
            ConfigField::Channels => "channels"@,
            ConfigField::Bitrate => "bitrate"@,
            ConfigField::GopSize => "gop size"@,
            ConfigField::Endpoint => "endpoint"@,
        }
    }

    pub fn name(&self) -> (text: &'static str)
        ensures
            text@ == self.name_view(),
    {
        match self {
            ConfigField::Width => "width",
            ConfigField::Height => "height",
            ConfigField::Framerate => "framerate",
            ConfigField::SampleRate => "sample rate",
            ConfigField::Channels => "channels",
            ConfigField::Bitrate => "bitrate",
            ConfigField::GopSize => "gop size",
            ConfigField::Endpoint => "endpoint",
        }
    }
}

impl ConfigError {
    /// The parameter that was found unusable.
    pub open spec fn field_view(self) -> ConfigField {
        match self {
            ConfigError::InvalidConfig(field) => field,
        }
    }

    pub open spec fn message_view(self) -> Seq<char> {
        "Invalid configuration: "@ + self.field_view().name_view()
    }

    pub fn field(&self) -> (field: ConfigField)
        ensures
            field == self.field_view(),
    {
        match self {
            ConfigError::InvalidConfig(field) => *field,
        }
    }

    /// The error as one line of text, naming the offending parameter.
    pub fn message(&self) -> (text: String)
        ensures
            text@ == self.message_view(),
    {
        let mut text = String::from_str("Invalid configuration: ");
        text.append(self.field().name());
        text
    }
}

} // verus!
