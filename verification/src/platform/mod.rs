//! Backends, one per host platform.

pub mod macos;
