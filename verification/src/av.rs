//! Audiovisual capture and media types.

pub mod capture_device;
pub mod capture_input;
pub mod configure;
pub mod discovery;
pub mod media_format;
