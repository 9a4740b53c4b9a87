//! A captured image as the callback sees it: borrowed planes of pixel data
//! and a presentation timestamp.

use vstd::prelude::*;

use crate::types::{PixelFormat, Size};

verus! {

/// A single plane of image data.
pub struct Plane<'a> {
    /// The bytes of the plane, borrowed from the backend's buffer.
    pub data: &'a [u8],
    /// The distance in bytes from one row to the next.
    pub bytes_per_row: usize,
}

/// A borrowed video frame. Lifetime tied to callback scope (zero-copy).
pub trait Frame {
    /// The platform's presentation-time value, at full precision.
    type Timestamp;

    /// The pixel format of the image.
    fn pixel_format(&self) -> PixelFormat;

    /// The dimensions of the image in pixels.
    fn size(&self) -> Size;

    /// The planes of the image in order, each a view into the backend's
    /// buffer.
    fn planes(&self) -> &[Plane<'_>];

    /// When the image is to be presented, on the platform's media clock.
    fn timestamp(&self) -> Self::Timestamp;
}

} // verus!
