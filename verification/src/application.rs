//! The pipeline itself: buffers, failure policy, lifecycle and orchestration.
pub mod buffer;
pub mod config;
pub mod lifecycle;
pub mod media;
pub mod orchestrator;
pub mod session;
pub mod stages;
pub mod supervisor;
