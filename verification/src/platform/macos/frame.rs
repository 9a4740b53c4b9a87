//! Frames over a locked pixel buffer: where each plane lies, and the
//! borrowed frame that the callback receives.

use vstd::prelude::*;

use crate::frame::{Frame, Plane};
use crate::platform::macos::device::{fourcc_to_pixel_format, pixel_format_of_fourcc};
use crate::types::{PixelFormat, Size};

verus! {

/// A presentation timestamp mirroring Core Media's `CMTime`.
///
/// Preserves the full precision and semantics of the underlying `CMTime`,
/// including flags and epoch.
#[derive(Debug, Clone, Copy, PartialEq, Eq, Hash, Structural)]
pub struct MacosTimestamp {
    /// The numerator of the time value (ticks).
    pub value: i64,
    /// Ticks per second.
    pub timescale: i32,
    /// CMTime flags (valid, has been rounded, positive/negative infinity, indefinite).
    pub flags: u32,
    /// Distinguishes separate timelines that may restart from zero.
    pub epoch: i64,
}

/// One plane of a locked planar pixel buffer, as the platform reports it.
#[derive(Debug, Clone, Copy, PartialEq, Eq, Structural)]
pub struct NativePlane {
    /// Whether the platform gave a base address for the rows.
    pub mapped: bool,
    /// The distance in bytes from one row to the next.
    pub bytes_per_row: usize,
    /// The number of rows.
    pub height: usize,
}

/// What the platform reports of a locked pixel buffer.
#[derive(Debug, Clone)]
pub struct PixelBufferInfo {
    /// Width of the image in pixels.
    pub width: usize,
    /// Height of the image in pixels.
    pub height: usize,
    /// The four-character code of the pixel encoding.
    pub fourcc: u32,
    /// Whether the platform gave a base address for the buffer itself.
    pub mapped: bool,
    /// The distance in bytes from one row of the buffer to the next, for a
    /// buffer without planes.
    pub bytes_per_row: usize,
    /// The planes of a planar buffer, in their order; empty otherwise.
    pub planes: Vec<NativePlane>,
}

/// The bytes of a buffer that make up one plane of a frame.
#[derive(Debug, Clone, Copy, PartialEq, Eq, Structural)]
pub struct PlaneExtent {
    /// The place of the plane among the buffer's planes, whose base address
    /// is where the bytes begin; `None` where they begin at the base
    /// address of the buffer itself.
    pub plane: Option<usize>,
    /// The distance in bytes from one row to the next.
    pub bytes_per_row: usize,
    /// The number of bytes, counted from the plane's base address.
    pub len: usize,
}

/// A [`PlaneExtent`] in mathematical integers, which have room for the
/// length of any plane.
pub struct PlaneExtentView {
    pub plane: Option<int>,
    pub bytes_per_row: int,
    pub len: int,
}

impl View for PlaneExtent {
    type V = PlaneExtentView;

    open spec fn view(&self) -> PlaneExtentView {
        PlaneExtentView {
            plane: match self.plane {
                Some(index) => Some(index as int),
                None => None,
            },
            bytes_per_row: self.bytes_per_row as int,
            len: self.len as int,
        }
    }
}

/// The extents of a sequence of planes, as mathematical integers.
pub open spec fn extent_views(extents: Seq<PlaneExtent>) -> Seq<PlaneExtentView> {
    extents.map_values(|e: PlaneExtent| e@)
}

/// The extents of the first `count` planes: one for each plane that is
/// mapped, in plane order, each as long as its rows together.
pub open spec fn planar_extents(planes: Seq<NativePlane>, count: nat) -> Seq<PlaneExtentView>
    decreases count,
{
    if count == 0 {
        Seq::empty()
    } else {
        let before = planar_extents(planes, (count - 1) as nat);
        let plane = planes[count - 1];
        if plane.mapped {
            before.push(
                PlaneExtentView {
                    plane: Some(count - 1),
                    bytes_per_row: plane.bytes_per_row as int,
                    len: plane.bytes_per_row * plane.height,
                },
            )
        } else {
            before
        }
    }
}

/// Where the planes of a frame lie in the buffer.
///
/// A buffer without planes is one plane, as long as its rows together,
/// unless it is not mapped, which leaves no plane. A planar buffer gives
/// one plane for each of its planes that is mapped.
pub open spec fn extents_of(info: PixelBufferInfo) -> Seq<PlaneExtentView> {
    if info.planes@.len() == 0 {
        if info.mapped {
            seq![
                PlaneExtentView {
                    plane: None,
                    bytes_per_row: info.bytes_per_row as int,
                    len: info.bytes_per_row * info.height,
                },
            ]
        } else {
            Seq::empty()
        }
    } else {
        planar_extents(info.planes@, info.planes@.len())
    }
}

/// Every length among the extents can be held in a `usize`.
pub open spec fn extents_fit(extents: Seq<PlaneExtentView>) -> bool {
    forall|k: int| 0 <= k < extents.len() ==> (#[trigger] extents[k]).len <= usize::MAX
}

/// Lays out the planes of a locked pixel buffer.
///
/// Gives the extent of every plane that the frame will have, in order, or
/// `None` where the length of some plane exceeds what the machine can
/// address.
pub fn plane_extents(info: &PixelBufferInfo) -> (extents: Option<Vec<PlaneExtent>>)
    ensures
        match extents {
            Some(list) => extent_views(list@) == extents_of(*info),
            None => !extents_fit(extents_of(*info)),
        },
{
    let mut list: Vec<PlaneExtent> = Vec::new();
    if info.planes.len() == 0 {
        if info.mapped {
            match info.bytes_per_row.checked_mul(info.height) {
                Some(len) => {
                    list.push(PlaneExtent { plane: None, bytes_per_row: info.bytes_per_row, len });
                },
                None => {
                    assert(extents_of(*info)[0].len > usize::MAX);
                    return None;
                },
            }
        }
        return Some(list);
    }
    let mut i: usize = 0;
    while i < info.planes.len()
        invariant
            i <= info.planes@.len(),
            extent_views(list@) == planar_extents(
                info.planes@,
                i as nat,
            ),
        decreases info.planes.len() - i,
    {
        let plane = info.planes[i];
        if plane.mapped {
            match plane.bytes_per_row.checked_mul(plane.height) {
                Some(len) => {
                    list.push(PlaneExtent { plane: Some(i), bytes_per_row: plane.bytes_per_row, len });
                },
                None => {
                    proof {
                        lemma_planar_extents_keep(info.planes@, (i + 1) as nat, info.planes@.len());
                        let upto = planar_extents(info.planes@, (i + 1) as nat);
                        assert(extents_of(*info)[upto.len() - 1] == upto.last());
                    }
                    return None;
                },
            }
        }
        i += 1;
    }
    Some(list)
}

/// The extents of more planes begin with the extents of fewer.
proof fn lemma_planar_extents_keep(planes: Seq<NativePlane>, fewer: nat, more: nat)
    requires
        fewer <= more,
    ensures
        planar_extents(planes, fewer).len() <= planar_extents(planes, more).len(),
        forall|k: int|
            0 <= k < planar_extents(planes, fewer).len() ==> planar_extents(planes, more)[k]
                == planar_extents(planes, fewer)[k],
    decreases more,
{
    if fewer < more {
        lemma_planar_extents_keep(planes, fewer, (more - 1) as nat);
    }
}

/// What a [`Plane`] shows: its bytes and its row stride.
pub struct PlaneView {
    pub data: Seq<u8>,
    pub bytes_per_row: usize,
}

/// What one plane shows.
pub open spec fn plane_view(plane: Plane<'_>) -> PlaneView {
    PlaneView { data: plane.data@, bytes_per_row: plane.bytes_per_row }
}

/// The byte views cover the planes exactly: one view for each extent, in
/// order, of the extent's length.
pub open spec fn views_cover(views: Seq<&[u8]>, extents: Seq<PlaneExtentView>) -> bool {
    &&& views.len() == extents.len()
    &&& forall|k: int| 0 <= k < views.len() ==> (#[trigger] views[k])@.len() == extents[k].len
}

/// A video frame backed by a `CVPixelBuffer`.
/// Only valid within the callback scope.
pub struct MacosFrame<'a> {
    planes: Vec<Plane<'a>>,
    pixel_format: PixelFormat,
    size: Size,
    timestamp: MacosTimestamp,
}

/// What a [`MacosFrame`] shows.
pub struct MacosFrameView {
    pub pixel_format: PixelFormat,
    pub size: Size,
    pub timestamp: MacosTimestamp,
    pub planes: Seq<PlaneView>,
}

impl<'a> View for MacosFrame<'a> {
    type V = MacosFrameView;

    closed spec fn view(&self) -> MacosFrameView {
        MacosFrameView {
            pixel_format: self.pixel_format,
            size: self.size,
            timestamp: self.timestamp,
            planes: self.planes@.map_values(|p: Plane<'a>| plane_view(p)),
        }
    }
}

impl<'a> MacosFrame<'a> {
    /// Create a frame from a locked pixel buffer: from what the platform
    /// reports of the buffer and from one byte view for each plane.
    ///
    /// The frame borrows the views as they are; no byte is copied. It comes
    /// about exactly when the buffer's encoding stands for a pixel format
    /// and the views cover the planes that [`plane_extents`] lays out. A
    /// buffer in an unknown encoding is unsupported and makes no frame.
    pub fn from_locked_pixel_buffer(
        info: &PixelBufferInfo,
        views: Vec<&'a [u8]>,
        timestamp: MacosTimestamp,
    ) -> (frame: Option<MacosFrame<'a>>)
        ensures
            frame.is_some() <==> pixel_format_of_fourcc(info.fourcc).is_some() && extents_fit(
                extents_of(*info),
            ) && views_cover(views@, extents_of(*info)),
            frame matches Some(f) ==> {
                &&& pixel_format_of_fourcc(info.fourcc) == Some(f@.pixel_format)
                &&& f@.size == (Size { width: info.width as u32, height: info.height as u32 })
                &&& f@.timestamp == timestamp
                &&& f@.planes.len() == views@.len()
                &&& forall|k: int|
                    0 <= k < views@.len() ==> #[trigger] f@.planes[k] == (PlaneView {
                        data: views@[k]@,
                        bytes_per_row: extents_of(*info)[k].bytes_per_row as usize,
                    })
            },
    {
        let pixel_format = match fourcc_to_pixel_format(info.fourcc) {
            Some(pixel_format) => pixel_format,
            None => {
                return None;
            },
        };
        let size = Size {
            width: #[verifier::truncate] (info.width as u32),
            height: #[verifier::truncate] (info.height as u32),
        };
        let extents = match plane_extents(info) {
            Some(extents) => extents,
            None => {
                return None;
            },
        };
        if views.len() != extents.len() {
            return None;
        }
        let mut planes: Vec<Plane<'a>> = Vec::new();
        let mut k: usize = 0;
        while k < views.len()
            invariant
                k <= views@.len() == extents@.len(),
                extent_views(extents@) == extents_of(*info),
                planes@.len() == k,
                forall|j: int| 0 <= j < k ==> (#[trigger] views@[j])@.len() == extents_of(*info)[j].len,
                forall|j: int|
                    0 <= j < k ==> plane_view(#[trigger] planes@[j]) == (PlaneView {
                        data: views@[j]@,
                        bytes_per_row: extents_of(*info)[j].bytes_per_row as usize,
                    }),
            decreases views.len() - k,
        {
            let data: &'a [u8] = views[k];
            let extent = extents[k];
            if data.len() != extent.len {
                return None;
            }
            planes.push(Plane { data, bytes_per_row: extent.bytes_per_row });
            k += 1;
        }
        let frame = MacosFrame { planes, pixel_format, size, timestamp };
        Some(frame)
    }
}

impl<'a> Frame for MacosFrame<'a> {
    type Timestamp = MacosTimestamp;

    fn pixel_format(&self) -> (pixel_format: PixelFormat)
        ensures
            pixel_format == self@.pixel_format,
    {
        self.pixel_format
    }

    fn size(&self) -> (size: Size)
        ensures
            size == self@.size,
    {
        self.size
    }

    fn planes(&self) -> (planes: &[Plane<'_>])
        ensures
            planes@.len() == self@.planes.len(),
            forall|k: int| 0 <= k < planes@.len() ==> plane_view(#[trigger] planes@[k]) == self@.planes[k],
    {
        self.planes.as_slice()
    }

    fn timestamp(&self) -> (timestamp: MacosTimestamp)
        ensures
            timestamp == self@.timestamp,
    {
        self.timestamp
    }
}

} // verus!
