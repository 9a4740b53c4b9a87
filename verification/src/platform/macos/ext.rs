//! Controls that only this backend offers.

use vstd::prelude::*;

use crate::error::Error;
use crate::types::Ratio;

verus! {

/// The flag that marks a media time as valid.
pub const TIME_FLAG_VALID: u32 = 1;

/// A frame duration in the form that the capture subsystem takes: a count
/// of ticks, the number of ticks per second, the validity flags and the
/// timeline epoch.
#[derive(Debug, Clone, Copy, PartialEq, Eq, Hash, Structural)]
pub struct FrameDuration {
    pub value: i64,
    pub timescale: i32,
    pub flags: u32,
    pub epoch: i64,
}

impl FrameDuration {
    /// The media time for a duration of `duration.numerator /
    /// duration.denominator` seconds: the numerator counts the ticks, the
    /// denominator is the ticks per second, taken as a signed number of the
    /// same bits.
    pub open spec fn of_ratio(duration: Ratio) -> FrameDuration {
        FrameDuration {
            value: duration.numerator as i64,
            timescale: duration.denominator as i32,
            flags: TIME_FLAG_VALID,
            epoch: 0,
        }
    }

    /// The duration of one frame at the given rate: the rate turned upside
    /// down.
    pub open spec fn of_frame_rate(rate: Ratio) -> FrameDuration {
        Self::of_ratio(Ratio { numerator: rate.denominator, denominator: rate.numerator })
    }

    /// The media time to hand to the device for a frame duration given as a
    /// ratio of seconds. A denominator within the positive range of the
    /// ticks-per-second field is kept as it is.
    pub fn from_ratio(duration: Ratio) -> (time: FrameDuration)
        ensures
            time == Self::of_ratio(duration),
            time.value == duration.numerator,
            duration.denominator <= i32::MAX ==> time.timescale == duration.denominator,
    {
        FrameDuration {
            value: duration.numerator as i64,
            timescale: #[verifier::truncate] (duration.denominator as i32),
            flags: TIME_FLAG_VALID,
            epoch: 0,
        }
    }

    /// The media time for the duration of one frame at the requested rate.
    pub fn for_frame_rate(rate: Ratio) -> (time: FrameDuration)
        ensures
            time == Self::of_frame_rate(rate),
            time.value == rate.denominator,
            rate.numerator <= i32::MAX ==> time.timescale == rate.numerator,
    {
        Self::from_ratio(Ratio { numerator: rate.denominator, denominator: rate.numerator })
    }
}

/// The number of focus modes that the platform defines: locked, auto-focus
/// and continuous auto-focus, numbered from 0.
pub const FOCUS_MODE_COUNT: usize = 3;

/// The number of exposure modes that the platform defines: locked,
/// auto-expose, continuous auto-exposure and custom, numbered from 0.
pub const EXPOSURE_MODE_COUNT: usize = 4;

/// Those of the modes `0..count` that the device supports, in rising order.
/// A mode without a flag counts as unsupported.
pub open spec fn modes_among(supported: Seq<bool>, count: nat) -> Seq<isize>
    decreases count,
{
    if count == 0 {
        Seq::empty()
    } else {
        let before = modes_among(supported, (count - 1) as nat);
        if count <= supported.len() && supported[count - 1] {
            before.push((count - 1) as isize)
        } else {
            before
        }
    }
}

fn supported_modes(supported: &[bool], count: usize) -> (modes: Vec<isize>)
    requires
        count <= isize::MAX,
    ensures
        modes@ == modes_among(supported@, count as nat),
{
    let mut modes: Vec<isize> = Vec::new();
    let mut mode: usize = 0;
    while mode < count
        invariant
            mode <= count <= isize::MAX,
            modes@ == modes_among(supported@, mode as nat),
        decreases count - mode,
    {
        if mode < supported.len() && supported[mode] {
            modes.push(mode as isize);
        }
        mode += 1;
    }
    modes
}

/// The focus modes that the device supports, given for each mode whether
/// the device reports it as supported.
pub fn focus_modes(supported: &[bool]) -> (modes: Vec<isize>)
    ensures
        modes@ == modes_among(supported@, FOCUS_MODE_COUNT as nat),
{
    supported_modes(supported, FOCUS_MODE_COUNT)
}

/// The exposure modes that the device supports, given for each mode
/// whether the device reports it as supported.
pub fn exposure_modes(supported: &[bool]) -> (modes: Vec<isize>)
    ensures
        modes@ == modes_among(supported@, EXPOSURE_MODE_COUNT as nat),
{
    supported_modes(supported, EXPOSURE_MODE_COUNT)
}

/// A control that a device may lack.
#[derive(Debug, Clone, Copy, PartialEq, Eq, Hash, Structural)]
pub enum Control {
    FocusPoint,
    ExposurePoint,
    WhiteBalanceMode,
    TorchMode,
}

/// What is reported when a device lacks the control.
pub open spec fn unsupported_text(control: Control) -> Seq<char> {
    match control {
        Control::FocusPoint => "focus point of interest not supported"@,
        Control::ExposurePoint => "exposure point of interest not supported"@,
        Control::WhiteBalanceMode => "white balance mode not supported"@,
        Control::TorchMode => "torch mode not supported"@,
    }
}

/// Decides whether a control may be set, given whether the device reports
/// it as supported: a control that the device lacks is refused with a
/// platform error that says so, before the device is touched.
pub fn require_support(control: Control, supported: bool) -> (allowed: Result<(), Error>)
    ensures
        supported ==> allowed.is_ok(),
        !supported ==> (allowed matches Err(e) && e.is_message(unsupported_text(control))),
{
    if supported {
        return Ok(());
    }
    Err(
        match control {
            Control::FocusPoint => Error::message("focus point of interest not supported"),
            Control::ExposurePoint => Error::message("exposure point of interest not supported"),
            Control::WhiteBalanceMode => Error::message("white balance mode not supported"),
            Control::TorchMode => Error::message("torch mode not supported"),
        },
    )
}

} // verus!
