//! The surface offered to the embedding application.
pub mod decimal;
pub mod dto;
pub mod service;
