//! The format-negotiation data model: pixel formats, frame sizes and exact
//! rational frame rates.

use arrayvec::ArrayVec;
use vstd::prelude::*;
use vstd::std_specs::cmp::PartialEqSpecImpl;

use crate::bounded::{
    chunk_as_slice, chunk_clone, chunk_is_empty, chunk_is_full, chunk_items, chunk_new,
    chunk_push,
};

verus! {

/// Maximum number of frame rate ranges per format descriptor.
pub const MAX_FRAME_RATE_RANGES: usize = 8;

/// Pixel formats encountered across platforms.
#[derive(Debug, Clone, Copy, PartialEq, Eq, Hash, Structural)]
#[non_exhaustive]
pub enum PixelFormat {
    Nv12,
    Yuyv,
    Uyvy,
    Bgra32,
    Jpeg,
}

/// Pixel dimensions of a frame.
#[derive(Debug, Clone, Copy, PartialEq, Eq, Hash, Structural)]
pub struct Size {
    pub width: u32,
    pub height: u32,
}

impl Size {
    /// A size that a discovered format may carry: both dimensions positive.
    pub open spec fn is_valid(self) -> bool {
        self.width > 0 && self.height > 0
    }
}

/// A rational number (numerator / denominator).
///
/// Used to represent frame rates (e.g. 30000/1000 = 30 fps) and
/// frame durations (e.g. 1000/30000 of a second).
#[derive(Debug, Clone, Copy, PartialEq, Eq, Hash, Structural)]
pub struct Ratio {
    pub numerator: u32,
    pub denominator: u32,
}

impl Ratio {
    /// A ratio that denotes a number: the denominator is positive.
    pub open spec fn is_valid(self) -> bool {
        self.denominator > 0
    }

    /// `self <= other` as exact fractions, for valid ratios.
    pub open spec fn at_most(self, other: Ratio) -> bool {
        self.numerator * other.denominator <= other.numerator * self.denominator
    }
}

/// Range of supported frame rates.
#[derive(Debug, Clone, Copy, PartialEq, Eq, Structural)]
pub struct FrameRateRange {
    pub min: Ratio,
    pub max: Ratio,
}

impl FrameRateRange {
    /// Both ends denote numbers and the lower end does not exceed the upper.
    pub open spec fn is_valid(self) -> bool {
        self.min.is_valid() && self.max.is_valid() && self.min.at_most(self.max)
    }
}

/// Describes a supported camera format.
#[derive(Debug)]
pub struct FormatDescriptor {
    pub pixel_format: PixelFormat,
    pub size: Size,
    frame_rate_ranges: ArrayVec<FrameRateRange, MAX_FRAME_RATE_RANGES>,
}

/// What a [`FormatDescriptor`] says: the format and its frame-rate ranges in
/// order.
pub struct FormatDescriptorView {
    pub pixel_format: PixelFormat,
    pub size: Size,
    pub frame_rate_ranges: Seq<FrameRateRange>,
}

impl FormatDescriptorView {
    /// What every descriptor says that discovery hands out: a size with
    /// both dimensions positive, at least one range and no more than the
    /// bound, and every range with valid ends, the lower not above the
    /// upper.
    pub open spec fn is_valid(self) -> bool {
        &&& self.size.is_valid()
        &&& 1 <= self.frame_rate_ranges.len() <= MAX_FRAME_RATE_RANGES
        &&& forall|r: int|
            0 <= r < self.frame_rate_ranges.len() ==> (#[trigger] self.frame_rate_ranges[r]).is_valid()
    }
}

impl View for FormatDescriptor {
    type V = FormatDescriptorView;

    closed spec fn view(&self) -> FormatDescriptorView {
        FormatDescriptorView {
            pixel_format: self.pixel_format,
            size: self.size,
            frame_rate_ranges: chunk_items(self.frame_rate_ranges),
        }
    }
}

impl Clone for FormatDescriptor {
    fn clone(&self) -> (copy: Self)
        ensures
            copy@ == self@,
    {
        FormatDescriptor {
            pixel_format: self.pixel_format,
            size: self.size,
            frame_rate_ranges: chunk_clone(&self.frame_rate_ranges),
        }
    }
}

impl PartialEq for FormatDescriptor {
    fn eq(&self, other: &Self) -> (equal: bool) {
        let mine = chunk_as_slice(&self.frame_rate_ranges);
        let theirs = chunk_as_slice(&other.frame_rate_ranges);
        if self.pixel_format != other.pixel_format || self.size != other.size || mine.len()
            != theirs.len() {
            return false;
        }
        let mut i: usize = 0;
        while i < mine.len()
            invariant
                mine@ == self@.frame_rate_ranges,
                theirs@ == other@.frame_rate_ranges,
                i <= mine@.len() == theirs@.len(),
                mine@.subrange(0, i as int) == theirs@.subrange(0, i as int),
            decreases mine.len() - i,
        {
            if mine[i] != theirs[i] {
                return false;
            }
            i += 1;
        }
        assert(mine@ == mine@.subrange(0, i as int));
        assert(theirs@ == theirs@.subrange(0, i as int));
        true
    }
}

impl PartialEqSpecImpl for FormatDescriptor {
    open spec fn obeys_eq_spec() -> bool {
        true
    }

    /// Two descriptors are equal when they say the same: same format, same
    /// size, same ranges in the same order.
    open spec fn eq_spec(&self, other: &Self) -> bool {
        self@ == other@
    }
}

/// The views of a sequence of descriptors, in the same order.
pub open spec fn descriptor_views(descriptors: Seq<FormatDescriptor>) -> Seq<FormatDescriptorView> {
    descriptors.map_values(|d: FormatDescriptor| d@)
}

/// All the ranges that a sequence of descriptors holds, descriptor after
/// descriptor.
pub open spec fn all_ranges(descriptors: Seq<FormatDescriptorView>) -> Seq<FrameRateRange> {
    descriptors.map_values(|d: FormatDescriptorView| d.frame_rate_ranges).flatten()
}

/// How many descriptors `n` ranges need: `n` divided by the bound, rounded up.
pub open spec fn chunk_count(n: nat) -> nat {
    ((n + MAX_FRAME_RATE_RANGES - 1) / (MAX_FRAME_RATE_RANGES as int)) as nat
}

/// The ranges that go into descriptor `k`: the `k`-th run of at most
/// [`MAX_FRAME_RATE_RANGES`] consecutive ranges.
pub open spec fn chunk_of(ranges: Seq<FrameRateRange>, k: int) -> Seq<FrameRateRange> {
    let start = k * MAX_FRAME_RATE_RANGES;
    let end = if start + MAX_FRAME_RATE_RANGES <= ranges.len() {
        start + MAX_FRAME_RATE_RANGES
    } else {
        ranges.len() as int
    };
    ranges.subrange(start, end)
}

/// The descriptors of one format with the given ranges: every descriptor
/// repeats the pixel format and the size, and the ranges are dealt out in
/// order, [`MAX_FRAME_RATE_RANGES`] to a descriptor, the rest to the last.
pub open spec fn split_ranges(
    pixel_format: PixelFormat,
    size: Size,
    ranges: Seq<FrameRateRange>,
) -> Seq<FormatDescriptorView> {
    Seq::new(
        chunk_count(ranges.len()),
        |k: int|
            FormatDescriptorView { pixel_format, size, frame_rate_ranges: chunk_of(ranges, k) },
    )
}

impl FormatDescriptor {
    /// Create descriptors for a given format, automatically splitting across
    /// multiple [`FormatDescriptor`] values if the number of frame rate
    /// ranges exceeds the inline capacity.
    ///
    /// Most formats have only a handful of frame rate ranges, so this
    /// typically yields a single descriptor. No range is dropped and none
    /// changes place; without ranges there is no descriptor.
    pub fn from_ranges(
        pixel_format: PixelFormat,
        size: Size,
        frame_rate_ranges: &[FrameRateRange],
    ) -> (descriptors: Vec<FormatDescriptor>)
        ensures
            descriptor_views(descriptors@) == split_ranges(pixel_format, size, frame_rate_ranges@),
            descriptors@.len() == chunk_count(frame_rate_ranges@.len()),
            forall|k: int|
                0 <= k < descriptors@.len() ==> 1 <= (
                #[trigger] descriptors@[k])@.frame_rate_ranges.len() <= MAX_FRAME_RATE_RANGES,
            all_ranges(descriptor_views(descriptors@)) == frame_rate_ranges@,
    {
        let n = frame_rate_ranges.len();
        let mut descriptors: Vec<FormatDescriptor> = Vec::new();
        let mut next: usize = 0;
        loop
            invariant
                n == frame_rate_ranges@.len(),
                next <= n,
                next == descriptors@.len() * MAX_FRAME_RATE_RANGES || next == n,
                descriptors@.len() == chunk_count(next as nat),
                forall|k: int|
                    0 <= k < descriptors@.len() ==> (#[trigger] descriptors@[k])@
                        == (FormatDescriptorView {
                        pixel_format,
                        size,
                        frame_rate_ranges: chunk_of(frame_rate_ranges@, k),
                    }),
            ensures
                next == n,
            decreases n - next,
        {
            let start = next;
            let mut chunk = chunk_new();
            while next < n
                invariant_except_break
                    chunk_items(chunk).len() < MAX_FRAME_RATE_RANGES,
                invariant
                    n == frame_rate_ranges@.len(),
                    start <= next <= n,
                    chunk_items(chunk) == frame_rate_ranges@.subrange(start as int, next as int),
                ensures
                    next == n || next == start + MAX_FRAME_RATE_RANGES,
                    next - start <= MAX_FRAME_RATE_RANGES,
                decreases n - next,
            {
                chunk_push(&mut chunk, frame_rate_ranges[next]);
                next += 1;
                if chunk_is_full(&chunk) {
                    break ;
                }
            }
            if chunk_is_empty(&chunk) {
                break ;
            }
            descriptors.push(FormatDescriptor { pixel_format, size, frame_rate_ranges: chunk });
        }
        proof {
            lemma_split_ranges(pixel_format, size, frame_rate_ranges@);
        }
        descriptors
    }

    /// The pixel format that the descriptor is for.
    pub fn pixel_format(&self) -> (pixel_format: PixelFormat)
        ensures
            pixel_format == self@.pixel_format,
    {
        self.pixel_format
    }

    /// The frame size that the descriptor is for.
    pub fn size(&self) -> (size: Size)
        ensures
            size == self@.size,
    {
        self.size
    }

    /// The frame rate ranges supported by this format.
    pub fn frame_rate_ranges(&self) -> (ranges: &[FrameRateRange])
        ensures
            ranges@ == self@.frame_rate_ranges,
            ranges@.len() <= MAX_FRAME_RATE_RANGES,
    {
        chunk_as_slice(&self.frame_rate_ranges)
    }
}

/// The first `count` chunks of `ranges`, laid end to end, are the ranges up
/// to the end of the last of them.
proof fn lemma_chunks_flatten(ranges: Seq<FrameRateRange>, count: nat)
    requires
        count <= chunk_count(ranges.len()),
    ensures
        Seq::new(count, |k: int| chunk_of(ranges, k)).flatten() == ranges.subrange(
            0,
            if count * MAX_FRAME_RATE_RANGES <= ranges.len() {
                count * MAX_FRAME_RATE_RANGES
            } else {
                ranges.len() as int
            },
        ),
    decreases count,
{
    let chunks = Seq::new(count, |k: int| chunk_of(ranges, k));
    if count == 0 {
    } else {
        let before = Seq::new((count - 1) as nat, |k: int| chunk_of(ranges, k));
        lemma_chunks_flatten(ranges, (count - 1) as nat);
        assert(chunks =~= before.push(chunk_of(ranges, count - 1)));
        before.lemma_flatten_push(chunk_of(ranges, count - 1));
        let end = if count * MAX_FRAME_RATE_RANGES <= ranges.len() {
            count * MAX_FRAME_RATE_RANGES
        } else {
            ranges.len() as int
        };
        assert(chunks.flatten() =~= ranges.subrange(0, end));
    }
}

/// Splitting loses nothing: a format with `N` ranges gets `N` divided by the
/// bound, rounded up, descriptors; each repeats the format and holds between
/// one range and the bound; and their ranges, read descriptor after
/// descriptor, are the `N` ranges in their order.
pub proof fn lemma_split_ranges(pixel_format: PixelFormat, size: Size, ranges: Seq<FrameRateRange>)
    ensures
        split_ranges(pixel_format, size, ranges).len() == chunk_count(ranges.len()),
        (chunk_count(ranges.len()) - 1) * MAX_FRAME_RATE_RANGES < ranges.len() <= chunk_count(
            ranges.len(),
        ) * MAX_FRAME_RATE_RANGES,
        forall|k: int|
            0 <= k < chunk_count(ranges.len()) ==> {
                let d = #[trigger] split_ranges(pixel_format, size, ranges)[k];
                &&& d.pixel_format == pixel_format
                &&& d.size == size
                &&& 1 <= d.frame_rate_ranges.len() <= MAX_FRAME_RATE_RANGES
            },
        all_ranges(split_ranges(pixel_format, size, ranges)) == ranges,
{
    let split = split_ranges(pixel_format, size, ranges);
    let count = chunk_count(ranges.len());
    let chunks = Seq::new(count, |k: int| chunk_of(ranges, k));
    assert(split.map_values(|d: FormatDescriptorView| d.frame_rate_ranges) =~= chunks);
    lemma_chunks_flatten(ranges, count);
}

/// Configuration for opening a camera stream.
#[derive(Debug, Clone)]
pub struct StreamConfig {
    pub pixel_format: PixelFormat,
    pub size: Size,
    pub frame_rate: Ratio,
}

} // verus!
