//! Callback-based frame delivery.

use vstd::prelude::*;

use crate::frame::Frame;

verus! {

/// Where an open stream stands in its lifecycle.
///
/// A stream is `Configured` once it is open, `Starting` while the backend
/// launches delivery, and `Running` while frames are delivered. Releasing a
/// stream consumes it: a closed stream is one that no longer exists.
#[derive(Debug, Clone, Copy, PartialEq, Eq, Hash, Structural)]
pub enum StreamState {
    Configured,
    Starting,
    Running,
}

/// Callback-based frame delivery.
///
/// A backend owns one delivery thread per running stream, on which it calls
/// the callback, one frame at a time. A frame is lent to the callback for
/// the length of one call and cannot be kept.
pub trait CameraStream {
    /// The frame that the callback borrows.
    type Frame<'a>: Frame where Self: 'a;

    /// The error of a refused or failed transition.
    type Error;

    /// Start streaming. Callback is invoked on a platform thread for each frame.
    ///
    /// A stream that is already started refuses, and the callback that is
    /// registered keeps receiving frames.
    fn start<F>(&mut self, callback: F) -> Result<(), Self::Error> where
        F: FnMut(&Self::Frame<'_>) + Send + 'static;

    /// Stop streaming. A stream that is not running refuses, and nothing
    /// changes.
    ///
    /// The call returns once no call of the callback is under way and none
    /// will begin. It must not be made from inside the callback, where it
    /// would wait for itself.
    fn stop(&mut self) -> Result<(), Self::Error>;
}

} // verus!
