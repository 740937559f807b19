//! Locating, validating and planning the installation of a predownloaded
//! update.

pub mod common;
pub mod macos;
pub mod windows;
