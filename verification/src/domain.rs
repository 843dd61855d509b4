//! Contracts between the pipeline and its collaborators: capture devices,
//! encoders and transports, with the values and errors they exchange.
pub mod capture;
pub mod encoding;
pub mod error;
pub mod transport;
