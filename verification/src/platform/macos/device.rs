//! Devices and their format catalogs.

use vstd::prelude::*;

use crate::error::Error;
use crate::platform::macos::ext::FrameDuration;
use crate::platform::macos::stream::{
    format_matches, is_planned_format, no_match, OpenAttempt, OpenStep,
};
use crate::types::{
    all_ranges, chunk_count, chunk_of, descriptor_views, lemma_split_ranges, split_ranges,
    FormatDescriptor, FormatDescriptorView, FrameRateRange, PixelFormat, Ratio, Size, StreamConfig,
    MAX_FRAME_RATE_RANGES,
};

verus! {

/// `'420v'`: bi-planar 4:2:0, video range.
pub const FOURCC_420V: u32 = 0x3432_3076;

/// `'420f'`: bi-planar 4:2:0, full range.
pub const FOURCC_420F: u32 = 0x3432_3066;

/// `'yuvs'`: packed 4:2:2, luma first.
pub const FOURCC_YUVS: u32 = 0x7975_7632;

/// `'2vuy'`: packed 4:2:2, chroma first.
pub const FOURCC_2VUY: u32 = 0x3276_7579;

/// `'BGRA'`: 32-bit blue, green, red, alpha.
pub const FOURCC_BGRA: u32 = 0x4247_5241;

/// `'jpeg'`: JPEG-compressed frames.
pub const FOURCC_JPEG: u32 = 0x6A70_6567;

/// The portable pixel format that a native four-character code stands for,
/// if it stands for one.
pub open spec fn pixel_format_of_fourcc(fourcc: u32) -> Option<PixelFormat> {
    if fourcc == FOURCC_420V || fourcc == FOURCC_420F {
        Some(PixelFormat::Nv12)
    } else if fourcc == FOURCC_YUVS {
        Some(PixelFormat::Yuyv)
    } else if fourcc == FOURCC_2VUY {
        Some(PixelFormat::Uyvy)
    } else if fourcc == FOURCC_BGRA {
        Some(PixelFormat::Bgra32)
    } else if fourcc == FOURCC_JPEG {
        Some(PixelFormat::Jpeg)
    } else {
        None
    }
}

/// The four-character code that the backend asks for when a stream is to
/// deliver the given pixel format.
pub open spec fn fourcc_of_pixel_format(pixel_format: PixelFormat) -> u32 {
    match pixel_format {
        PixelFormat::Nv12 => FOURCC_420V,
        PixelFormat::Yuyv => FOURCC_YUVS,
        PixelFormat::Uyvy => FOURCC_2VUY,
        PixelFormat::Bgra32 => FOURCC_BGRA,
        PixelFormat::Jpeg => FOURCC_JPEG,
    }
}

/// Maps a native four-character code to its pixel format. A code that the
/// portable model does not know gives `None`: it is unsupported, never an
/// error.
pub fn fourcc_to_pixel_format(fourcc: u32) -> (pixel_format: Option<PixelFormat>)
    ensures
        pixel_format == pixel_format_of_fourcc(fourcc),
{
    match fourcc {
        FOURCC_420V => Some(PixelFormat::Nv12),
        FOURCC_420F => Some(PixelFormat::Nv12),
        FOURCC_YUVS => Some(PixelFormat::Yuyv),
        FOURCC_2VUY => Some(PixelFormat::Uyvy),
        FOURCC_BGRA => Some(PixelFormat::Bgra32),
        FOURCC_JPEG => Some(PixelFormat::Jpeg),
        _ => None,
    }
}

/// The native code for a portable pixel format. Mapping the code back
/// gives the same pixel format.
pub fn pixel_format_to_fourcc(pf: &PixelFormat) -> (fourcc: u32)
    ensures
        fourcc == fourcc_of_pixel_format(*pf),
        pixel_format_of_fourcc(fourcc) == Some(*pf),
{
    match pf {
        PixelFormat::Nv12 => FOURCC_420V,
        PixelFormat::Yuyv => FOURCC_YUVS,
        PixelFormat::Uyvy => FOURCC_2VUY,
        PixelFormat::Bgra32 => FOURCC_BGRA,
        PixelFormat::Jpeg => FOURCC_JPEG,
    }
}

/// The denominator of every frame rate that discovery reports: rates are
/// kept in thousandths of a frame per second.
pub const RATE_DENOMINATOR: u32 = 1000;

/// One frame-rate range of a native format, each end in thousandths of a
/// frame per second.
#[derive(Debug, Clone, Copy, PartialEq, Eq, Structural)]
pub struct NativeFrameRateRange {
    pub min_millis: u32,
    pub max_millis: u32,
}

/// One entry of a device's native format catalog, as the capture subsystem
/// reports it.
#[derive(Debug, Clone)]
pub struct NativeFormat {
    /// The four-character code of the pixel encoding.
    pub fourcc: u32,
    /// Width in pixels, as reported.
    pub width: i32,
    /// Height in pixels, as reported.
    pub height: i32,
    /// The frame-rate ranges that the format supports, in reported order.
    pub frame_rate_ranges: Vec<NativeFrameRateRange>,
}

/// The exact rate that stands for a number of thousandths of a frame per
/// second.
pub open spec fn ratio_of_millis(millis: u32) -> Ratio {
    Ratio { numerator: millis, denominator: RATE_DENOMINATOR }
}

/// Whether the reported dimensions can be the size of a frame: both are
/// positive.
pub open spec fn has_valid_size(format: NativeFormat) -> bool {
    format.width > 0 && format.height > 0
}

/// The portable range for a native one: the two reported rates, the lower
/// as the lowest rate and the higher as the highest, whichever way round
/// they were reported.
pub open spec fn range_of_native(range: NativeFrameRateRange) -> FrameRateRange {
    if range.min_millis <= range.max_millis {
        FrameRateRange {
            min: ratio_of_millis(range.min_millis),
            max: ratio_of_millis(range.max_millis),
        }
    } else {
        FrameRateRange {
            min: ratio_of_millis(range.max_millis),
            max: ratio_of_millis(range.min_millis),
        }
    }
}

/// The portable ranges of a native format, in reported order.
pub open spec fn ranges_of_native(format: NativeFormat) -> Seq<FrameRateRange> {
    format.frame_rate_ranges@.map_values(|r: NativeFrameRateRange| range_of_native(r))
}

/// The portable size of a native format with positive dimensions.
pub open spec fn size_of_native(format: NativeFormat) -> Size {
    Size { width: format.width as u32, height: format.height as u32 }
}

/// The descriptors that one native format contributes to the catalog: none
/// where the pixel encoding is unknown or a dimension is not positive, for
/// neither can be expressed in the portable model; else the format's ranges
/// split over as many descriptors as they need.
pub open spec fn descriptors_of(format: NativeFormat) -> Seq<FormatDescriptorView> {
    match pixel_format_of_fourcc(format.fourcc) {
        Some(pixel_format) if has_valid_size(format) => split_ranges(
            pixel_format,
            size_of_native(format),
            ranges_of_native(format),
        ),
        _ => Seq::empty(),
    }
}

/// The descriptors of a whole catalog: those of each native format, in
/// catalog order.
pub open spec fn catalog_descriptors(formats: Seq<NativeFormat>) -> Seq<FormatDescriptorView> {
    formats.map_values(|f: NativeFormat| descriptors_of(f)).flatten()
}

/// The exact rate for a number of thousandths of a frame per second.
pub fn millis_to_ratio(millis: u32) -> (rate: Ratio)
    ensures
        rate == ratio_of_millis(millis),
        rate.is_valid(),
{
    Ratio { numerator: millis, denominator: RATE_DENOMINATOR }
}

/// The portable range for a reported one. The range is valid whatever was
/// reported: where the lowest rate came above the highest, the two change
/// places.
pub fn native_to_range(range: NativeFrameRateRange) -> (portable: FrameRateRange)
    ensures
        portable == range_of_native(range),
        portable.is_valid(),
{
    if range.min_millis <= range.max_millis {
        FrameRateRange {
            min: millis_to_ratio(range.min_millis),
            max: millis_to_ratio(range.max_millis),
        }
    } else {
        FrameRateRange {
            min: millis_to_ratio(range.max_millis),
            max: millis_to_ratio(range.min_millis),
        }
    }
}

/// Converts one native format into the portable model.
///
/// A format whose pixel encoding is unknown, or one of whose dimensions is
/// not positive, yields nothing. Any other yields its ranges, none dropped
/// and none moved, on as many descriptors as the bound per descriptor
/// demands; every descriptor repeats the format's pixel format and size,
/// and every descriptor is valid.
pub fn format_to_descriptors(format: &NativeFormat) -> (descriptors: Vec<FormatDescriptor>)
    ensures
        descriptor_views(descriptors@) == descriptors_of(*format),
        pixel_format_of_fourcc(format.fourcc).is_none() || !has_valid_size(*format)
            ==> descriptors@.len() == 0,
        pixel_format_of_fourcc(format.fourcc).is_some() && has_valid_size(*format) ==> {
            &&& descriptors@.len() == chunk_count(format.frame_rate_ranges@.len())
            &&& all_ranges(descriptor_views(descriptors@)) == ranges_of_native(*format)
        },
        forall|k: int| 0 <= k < descriptors@.len() ==> (#[trigger] descriptors@[k])@.is_valid(),
{
    let pixel_format = match fourcc_to_pixel_format(format.fourcc) {
        Some(pixel_format) => pixel_format,
        None => {
            return Vec::new();
        },
    };
    if format.width <= 0 || format.height <= 0 {
        return Vec::new();
    }
    let size = Size { width: format.width as u32, height: format.height as u32 };
    let native = &format.frame_rate_ranges;
    let mut ranges: Vec<FrameRateRange> = Vec::new();
    let mut i: usize = 0;
    while i < native.len()
        invariant
            i <= native@.len(),
            ranges@ == native@.take(i as int).map_values(
                |r: NativeFrameRateRange| range_of_native(r),
            ),
        decreases native.len() - i,
    {
        ranges.push(native_to_range(native[i]));
        i += 1;
    }
    assert(native@.take(i as int) == native@);
    let descriptors = FormatDescriptor::from_ranges(pixel_format, size, ranges.as_slice());
    proof {
        lemma_descriptors_are_well_formed(*format);
        assert(descriptor_views(descriptors@) == descriptors_of(*format));
        assert forall|k: int| 0 <= k < descriptors@.len() implies (
        #[trigger] descriptors@[k])@.is_valid() by {
            assert(descriptors@[k]@ == descriptors_of(*format)[k]);
        }
    }
    descriptors
}

/// A camera of the host: its identity, its display name and its format
/// catalog, as they were read when the device was found.
///
/// A device is not copied: opening a stream consumes it, so that no device
/// opens two streams.
#[derive(Debug)]
pub struct MacosCameraDevice {
    id_cache: String,
    name_cache: String,
    formats: Vec<NativeFormat>,
}

/// What a [`MacosCameraDevice`] holds.
pub struct MacosCameraDeviceView {
    pub id: Seq<char>,
    pub name: Seq<char>,
    pub formats: Seq<NativeFormat>,
}

impl View for MacosCameraDevice {
    type V = MacosCameraDeviceView;

    closed spec fn view(&self) -> MacosCameraDeviceView {
        MacosCameraDeviceView {
            id: self.id_cache@,
            name: self.name_cache@,
            formats: self.formats@,
        }
    }
}

impl MacosCameraDevice {
    /// A device with the given unique identifier, display name and native
    /// format catalog.
    pub fn new(id: String, name: String, formats: Vec<NativeFormat>) -> (device: Self)
        ensures
            device@ == (MacosCameraDeviceView { id: id@, name: name@, formats: formats@ }),
    {
        MacosCameraDevice { id_cache: id, name_cache: name, formats }
    }

    /// The stable identifier of the device.
    pub fn id(&self) -> (id: &str)
        ensures
            id@ == self@.id,
    {
        self.id_cache.as_str()
    }

    /// The display name of the device.
    pub fn name(&self) -> (name: &str)
        ensures
            name@ == self@.name,
    {
        self.name_cache.as_str()
    }

    /// The native format catalog of the device.
    pub fn formats(&self) -> (formats: &[NativeFormat])
        ensures
            formats@ == self@.formats,
    {
        self.formats.as_slice()
    }

    /// The formats that the device supports, in the portable model: the
    /// descriptors of each native format, in catalog order. Formats in an
    /// unknown pixel encoding, and formats of which a dimension is not
    /// positive, are left out; nothing else is, every descriptor is valid,
    /// and the call never fails.
    pub fn supported_formats(&self) -> (descriptors: Result<Vec<FormatDescriptor>, Error>)
        ensures
            descriptors matches Ok(list) && descriptor_views(list@) == catalog_descriptors(
                self@.formats,
            ) && forall|k: int| 0 <= k < list@.len() ==> (#[trigger] list@[k])@.is_valid(),
    {
        let mut list: Vec<FormatDescriptor> = Vec::new();
        let mut i: usize = 0;
        while i < self.formats.len()
            invariant
                i <= self.formats@.len(),
                descriptor_views(list@) == catalog_descriptors(self.formats@.take(i as int)),
                forall|k: int| 0 <= k < list@.len() ==> (#[trigger] list@[k])@.is_valid(),
            decreases self.formats.len() - i,
        {
            let mut more = format_to_descriptors(&self.formats[i]);
            proof {
                let before = self.formats@.take(i as int).map_values(
                    |f: NativeFormat| descriptors_of(f),
                );
                let added = descriptors_of(self.formats@[i as int]);
                assert(self.formats@.take(i + 1).map_values(|f: NativeFormat| descriptors_of(f))
                    == before.push(added));
                before.lemma_flatten_push(added);
            }
            list.append(&mut more);
            i += 1;
        }
        assert(self.formats@.take(i as int) == self.formats@);
        Ok(list)
    }

    /// Begins to open a stream with the requested configuration, which
    /// consumes the device.
    ///
    /// The attempt begins exactly when the catalog has a format with the
    /// requested pixel format and size. The format planned to become active
    /// is the first in the very encoding that the output is asked for, or,
    /// where there is none, the first in any encoding of the requested
    /// pixel format. Otherwise the answer is `UnsupportedFormat`, and never
    /// another error.
    pub fn open(self, config: &StreamConfig) -> (attempt: Result<OpenAttempt, Error>)
        ensures
            match attempt {
                Ok(attempt) => {
                    &&& is_planned_format(
                        self@.formats,
                        *config,
                        attempt@.plan.format_index as int,
                    )
                    &&& attempt@.plan.output_fourcc == fourcc_of_pixel_format(config.pixel_format)
                    &&& attempt@.plan.frame_duration == FrameDuration::of_frame_rate(
                        config.frame_rate,
                    )
                    &&& attempt@.pending == OpenStep::CreateInput
                },
                Err(e) => e == Error::UnsupportedFormat && no_match(self@.formats, *config),
            },
    {
        OpenAttempt::begin(self.formats.as_slice(), config)
    }
}

/// macOS camera manager using AVFoundation.
#[derive(Debug, Clone, Copy)]
pub struct MacosCameraManager;

impl Default for MacosCameraManager {
    fn default() -> (manager: Self)
        ensures
            manager == MacosCameraManager,
    {
        MacosCameraManager
    }
}

impl MacosCameraManager {
    /// The outcome of discovery, given what the host enumerated: `None`
    /// where the host has no video media type to enumerate by, else the
    /// attached cameras in the host's order.
    ///
    /// Only the first is an error. A host without cameras yields an empty
    /// list, and the devices come out as they went in, in the same order.
    pub fn discover_devices<D>(&self, enumerated: Option<Vec<D>>) -> (devices: Result<
        Vec<D>,
        Error,
    >)
        ensures
            match enumerated {
                Some(found) => devices == Ok::<Vec<D>, Error>(found),
                None => devices matches Err(e) && e.is_message("AVMediaTypeVideo not available"@),
            },
    {
        match enumerated {
            Some(found) => Ok(found),
            None => Err(Error::message("AVMediaTypeVideo not available")),
        }
    }

    /// The outcome of asking for the default camera, given what the host
    /// answered: `None` where the host has no video media type, else the
    /// host's choice, which is `None` on a host without cameras.
    ///
    /// Only the first is an error.
    pub fn default_device<D>(&self, chosen: Option<Option<D>>) -> (device: Result<
        Option<D>,
        Error,
    >)
        ensures
            match chosen {
                Some(choice) => device == Ok::<Option<D>, Error>(choice),
                None => device matches Err(e) && e.is_message("AVMediaTypeVideo not available"@),
            },
    {
        match chosen {
            Some(choice) => Ok(choice),
            None => Err(Error::message("AVMediaTypeVideo not available")),
        }
    }
}

/// Some descriptor of the list is for the given pixel format and size.
pub open spec fn lists_format(
    descriptors: Seq<FormatDescriptorView>,
    pixel_format: PixelFormat,
    size: Size,
) -> bool {
    exists|k: int|
        0 <= k < descriptors.len() && (#[trigger] descriptors[k]).pixel_format == pixel_format
            && descriptors[k].size == size
}

/// Every item of every inner sequence occurs in the flattened sequence.
proof fn lemma_flatten_member<A>(x: Seq<Seq<A>>, i: int, j: int) -> (k: int)
    requires
        0 <= i < x.len(),
        0 <= j < x[i].len(),
    ensures
        0 <= k < x.flatten().len(),
        x.flatten()[k] == x[i][j],
    decreases i,
{
    if i == 0 {
        j
    } else {
        let rest = lemma_flatten_member(x.drop_first(), i - 1, j);
        x.first().len() + rest
    }
}

/// Every item of the flattened sequence comes from some inner sequence.
proof fn lemma_flatten_origin<A>(x: Seq<Seq<A>>, k: int) -> (at: (int, int))
    requires
        0 <= k < x.flatten().len(),
    ensures
        0 <= at.0 < x.len(),
        0 <= at.1 < x[at.0].len(),
        x[at.0][at.1] == x.flatten()[k],
    decreases x.len(),
{
    if k < x.first().len() {
        (0, k)
    } else {
        let rest = lemma_flatten_origin(x.drop_first(), k - x.first().len());
        (rest.0 + 1, rest.1)
    }
}

/// Opening with a pixel format and size that the supported formats do not
/// list is rejected as unsupported.
///
/// The law leaves one kind of catalog out: a native format that has no
/// frame-rate range yields no descriptor, so it is not listed although the
/// device has it. For every catalog in which each format that offers the
/// configuration has a range, a configuration that is not listed finds no
/// match, which is exactly when [`MacosCameraDevice::open`] answers
/// `UnsupportedFormat`.
pub proof fn lemma_unlisted_format_is_rejected(formats: Seq<NativeFormat>, config: StreamConfig)
    requires
        !lists_format(catalog_descriptors(formats), config.pixel_format, config.size),
        forall|i: int|
            0 <= i < formats.len() && format_matches(#[trigger] formats[i], config)
                ==> formats[i].frame_rate_ranges@.len() > 0,
    ensures
        no_match(formats, config),
{
    assert forall|i: int| 0 <= i < formats.len() implies !format_matches(
        #[trigger] formats[i],
        config,
    ) by {
        if format_matches(formats[i], config) {
            let per_format = formats.map_values(|f: NativeFormat| descriptors_of(f));
            lemma_split_ranges(
                config.pixel_format,
                size_of_native(formats[i]),
                ranges_of_native(formats[i]),
            );
            let k = lemma_flatten_member(per_format, i, 0);
            assert(catalog_descriptors(formats)[k] == descriptors_of(formats[i])[0]);
        }
    }
}

/// A pixel format and size that the supported formats list is never
/// rejected as unsupported: some format of the catalog offers it.
pub proof fn lemma_listed_format_is_accepted(formats: Seq<NativeFormat>, config: StreamConfig)
    requires
        lists_format(catalog_descriptors(formats), config.pixel_format, config.size),
    ensures
        !no_match(formats, config),
{
    let k = choose|k: int|
        0 <= k < catalog_descriptors(formats).len() && (#[trigger] catalog_descriptors(
            formats,
        )[k]).pixel_format == config.pixel_format && catalog_descriptors(formats)[k].size
            == config.size;
    let per_format = formats.map_values(|f: NativeFormat| descriptors_of(f));
    let at = lemma_flatten_origin(per_format, k);
    assert(format_matches(formats[at.0], config));
}

/// What discovery reports of a native format is valid, whatever the format:
/// every descriptor has a size with both dimensions positive and between
/// one range and the bound, and in every range the lowest rate does not
/// exceed the highest.
pub proof fn lemma_descriptors_are_well_formed(format: NativeFormat)
    ensures
        forall|k: int|
            0 <= k < descriptors_of(format).len() ==> (#[trigger] descriptors_of(
                format,
            )[k]).is_valid(),
        forall|r: int|
            0 <= r < ranges_of_native(format).len() ==> (#[trigger] ranges_of_native(
                format,
            )[r]).is_valid(),
{
    let ranges = ranges_of_native(format);
    assert forall|r: int| 0 <= r < ranges.len() implies (#[trigger] ranges[r]).is_valid() by {
        assert(ranges[r] == range_of_native(format.frame_rate_ranges@[r]));
    }
    if let Some(pixel_format) = pixel_format_of_fourcc(format.fourcc) {
        lemma_split_ranges(pixel_format, size_of_native(format), ranges);
        assert forall|k: int| 0 <= k < descriptors_of(format).len() implies (
        #[trigger] descriptors_of(format)[k]).is_valid() by {
            let chunk = descriptors_of(format)[k].frame_rate_ranges;
            assert(chunk == chunk_of(ranges, k));
            assert forall|r: int| 0 <= r < chunk.len() implies (#[trigger] chunk[r]).is_valid() by {
                assert(chunk[r] == ranges[k * MAX_FRAME_RATE_RANGES + r]);
            }
        }
    }
}

/// What discovery reports of a whole catalog is valid, whatever the
/// catalog.
pub proof fn lemma_catalog_is_well_formed(formats: Seq<NativeFormat>)
    ensures
        forall|k: int|
            0 <= k < catalog_descriptors(formats).len() ==> (#[trigger] catalog_descriptors(
                formats,
            )[k]).is_valid(),
{
    assert forall|k: int| 0 <= k < catalog_descriptors(formats).len() implies (
    #[trigger] catalog_descriptors(formats)[k]).is_valid() by {
        let per_format = formats.map_values(|f: NativeFormat| descriptors_of(f));
        let at = lemma_flatten_origin(per_format, k);
        lemma_descriptors_are_well_formed(formats[at.0]);
    }
}

} // verus!
