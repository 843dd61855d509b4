//! Orchestration core of a live media pipeline.
//!
//! Raw samples from a capture device are held in a bounded buffer, encoded,
//! held again as packets and handed to a transport. This crate sequences the
//! three stages, bounds the memory between them and keeps the session in a
//! consistent state when a stage fails. Devices, codecs and transports are
//! supplied by the embedding application through the traits in [`domain`].
pub mod api;
pub mod application;
pub mod domain;
