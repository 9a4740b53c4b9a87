//! Camera discovery, format negotiation and frame delivery: the portable data
//! model and the decision logic of the capture lifecycle, with every rule
//! stated as a contract and proved.

pub mod bounded;
pub mod device;
pub mod error;
pub mod frame;
pub mod platform;
pub mod stream;
pub mod types;

pub use device::{CameraDevice, CameraManager};
pub use error::{Error, PlatformError};
pub use frame::{Frame, Plane};
pub use stream::{CameraStream, StreamState};
pub use types::{
    FormatDescriptor, FormatDescriptorView, FrameRateRange, PixelFormat, Ratio, Size, StreamConfig,
};
