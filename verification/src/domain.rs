//! The domain model: events, categories and instance versions.

pub mod calendar;
pub mod category;
pub mod event;
pub mod instance_version;
pub mod picture_url;
