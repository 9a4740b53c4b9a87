//! The macOS backend: what the capture subsystem reports, as plain values,
//! and every decision that the backend takes on them.

pub mod device;
pub mod ext;
pub mod frame;
pub mod stream;
