//! What the library's values read as.

pub mod display;
