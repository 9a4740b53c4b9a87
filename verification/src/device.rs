//! Discovering devices and opening them.

use vstd::prelude::*;

use crate::stream::CameraStream;
use crate::types::{FormatDescriptor, StreamConfig};

verus! {

/// Discover and inspect camera devices.
pub trait CameraManager {
    type Device: CameraDevice;

    type Error;

    /// The cameras that are attached now, in an order that repeats from
    /// call to call while the hardware does not change. A host without
    /// cameras has an empty list, which is no error.
    fn discover_devices(&self) -> Result<Vec<Self::Device>, Self::Error>;

    /// The camera that the backend prefers; `None`, and no error, on a host
    /// without cameras.
    fn default_device(&self) -> Result<Option<Self::Device>, Self::Error>;
}

/// A camera device that can be inspected and opened.
pub trait CameraDevice {
    type Stream: CameraStream;

    type Error;

    /// The stable identifier of the device, as it was read at discovery.
    fn id(&self) -> &str;

    /// The display name of the device, as it was read at discovery.
    fn name(&self) -> &str;

    /// The formats that the hardware offers, in the portable model. Formats
    /// that the model cannot express are left out.
    fn supported_formats(&self) -> Result<Vec<FormatDescriptor>, Self::Error>;

    /// Opens a stream with the requested pixel format and size, which
    /// consumes the device. A request that no format of the hardware meets
    /// is refused as unsupported; after any failure no stream exists and no
    /// lock is left behind.
    fn open(self, config: &StreamConfig) -> Result<Self::Stream, Self::Error>;
}

} // verus!
