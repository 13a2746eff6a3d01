//! Decoding of what the server answers.

pub mod config;
pub mod events;
