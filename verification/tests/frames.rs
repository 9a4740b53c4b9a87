use camera_stream::frame::{Frame, Plane};
use camera_stream::platform::macos::device::{FOURCC_2VUY, FOURCC_420F, FOURCC_420V, FOURCC_BGRA};
use camera_stream::platform::macos::frame::{
    plane_extents, MacosFrame, MacosTimestamp, NativePlane, PixelBufferInfo, PlaneExtent,
};
use camera_stream::types::{PixelFormat, Size};

const UNMAPPED: NativePlane = NativePlane { mapped: false, bytes_per_row: 0, height: 0 };

fn stamp(value: i64) -> MacosTimestamp {
    MacosTimestamp { value, timescale: 600, flags: 1, epoch: 0 }
}

fn packed(width: usize, height: usize, bytes_per_row: usize) -> PixelBufferInfo {
    PixelBufferInfo {
        width,
        height,
        fourcc: FOURCC_2VUY,
        mapped: true,
        bytes_per_row,
        planes: vec![],
    }
}

fn biplanar(width: usize, height: usize) -> PixelBufferInfo {
    PixelBufferInfo {
        width,
        height,
        fourcc: FOURCC_420V,
        mapped: false,
        bytes_per_row: 0,
        planes: vec![
            NativePlane { mapped: true, bytes_per_row: width, height },
            NativePlane { mapped: true, bytes_per_row: width, height: height / 2 },
        ],
    }
}

#[test]
fn a_packed_buffer_is_one_plane() {
    let extents = plane_extents(&packed(640, 480, 1280)).expect("the lengths fit");
    assert_eq!(extents, vec![PlaneExtent { plane: None, bytes_per_row: 1280, len: 614_400 }]);
}

#[test]
fn a_packed_buffer_is_as_long_as_its_rows() {
    let extents = plane_extents(&packed(4, 3, 16)).expect("the lengths fit");
    assert_eq!(extents, vec![PlaneExtent { plane: None, bytes_per_row: 16, len: 48 }]);
    let extents = plane_extents(&packed(4, 1, 20)).expect("the lengths fit");
    assert_eq!(extents, vec![PlaneExtent { plane: None, bytes_per_row: 20, len: 20 }]);
}

#[test]
fn an_unmapped_packed_buffer_has_no_plane() {
    let mut info = packed(640, 480, 1280);
    info.mapped = false;
    assert_eq!(plane_extents(&info), Some(vec![]));
}

#[test]
fn a_planar_buffer_has_a_plane_for_each_mapped_plane() {
    let extents = plane_extents(&biplanar(1280, 720)).expect("the lengths fit");
    assert_eq!(
        extents,
        vec![
            PlaneExtent { plane: Some(0), bytes_per_row: 1280, len: 921_600 },
            PlaneExtent { plane: Some(1), bytes_per_row: 1280, len: 460_800 },
        ]
    );
}

#[test]
fn unmapped_planes_are_skipped_and_indices_kept() {
    let info = PixelBufferInfo {
        width: 8,
        height: 4,
        fourcc: FOURCC_420F,
        mapped: true,
        bytes_per_row: 99,
        planes: vec![
            UNMAPPED,
            NativePlane { mapped: true, bytes_per_row: 8, height: 4 },
            NativePlane { mapped: false, bytes_per_row: 8, height: 2 },
            NativePlane { mapped: true, bytes_per_row: 6, height: 2 },
        ],
    };
    assert_eq!(
        plane_extents(&info),
        Some(vec![
            PlaneExtent { plane: Some(1), bytes_per_row: 8, len: 32 },
            PlaneExtent { plane: Some(3), bytes_per_row: 6, len: 12 },
        ])
    );
}

#[test]
fn a_plane_too_long_to_address_gives_no_layout() {
    assert_eq!(plane_extents(&packed(8, 2, usize::MAX)), None);
    assert!(plane_extents(&packed(8, 1, usize::MAX)).is_some());
    let mut info = biplanar(8, 4);
    info.planes[1] = NativePlane { mapped: true, bytes_per_row: usize::MAX / 2 + 1, height: 2 };
    assert_eq!(plane_extents(&info), None);
    info.planes[1].mapped = false;
    assert_eq!(
        plane_extents(&info),
        Some(vec![PlaneExtent { plane: Some(0), bytes_per_row: 8, len: 32 }])
    );
}

#[test]
fn an_empty_plane_has_length_zero() {
    assert_eq!(
        plane_extents(&packed(0, 0, 64)),
        Some(vec![PlaneExtent { plane: None, bytes_per_row: 64, len: 0 }])
    );
}

#[test]
fn a_frame_shows_what_the_buffer_holds() {
    let luma = vec![7u8; 8 * 4];
    let chroma = vec![9u8; 8 * 2];
    let info = biplanar(8, 4);
    let frame = MacosFrame::from_locked_pixel_buffer(&info, vec![&luma[..], &chroma[..]], stamp(42))
        .expect("the views cover the planes");
    assert_eq!(frame.pixel_format(), PixelFormat::Nv12);
    assert_eq!(frame.size(), Size { width: 8, height: 4 });
    assert_eq!(frame.timestamp(), stamp(42));
    let planes: &[Plane<'_>] = frame.planes();
    assert_eq!(planes.len(), 2);
    assert_eq!(planes[0].data, &luma[..]);
    assert_eq!(planes[0].bytes_per_row, 8);
    assert_eq!(planes[1].data, &chroma[..]);
    assert_eq!(planes[1].bytes_per_row, 8);
}

#[test]
fn a_frame_borrows_and_does_not_copy() {
    let bytes = vec![1u8; 16 * 4];
    let info = PixelBufferInfo { fourcc: FOURCC_BGRA, ..packed(4, 4, 16) };
    let frame = MacosFrame::from_locked_pixel_buffer(&info, vec![&bytes[..]], stamp(0))
        .expect("the view covers the plane");
    assert_eq!(frame.pixel_format(), PixelFormat::Bgra32);
    let plane = &frame.planes()[0];
    assert!(std::ptr::eq(plane.data.as_ptr(), bytes.as_ptr()));
    assert_eq!(plane.data.len(), 64);
    assert_eq!(plane.bytes_per_row, 16);
}

#[test]
fn a_buffer_in_an_unknown_encoding_makes_no_frame() {
    let bytes = vec![0u8; 8];
    for code in [u32::from_be_bytes(*b"avc1"), 0, u32::MAX, FOURCC_420V + 1] {
        let info = PixelBufferInfo { fourcc: code, ..packed(2, 2, 4) };
        assert!(MacosFrame::from_locked_pixel_buffer(&info, vec![&bytes[..]], stamp(1)).is_none());
    }
    let info = PixelBufferInfo { fourcc: FOURCC_420F, ..packed(2, 2, 4) };
    let frame = MacosFrame::from_locked_pixel_buffer(&info, vec![&bytes[..]], stamp(1))
        .expect("the encoding is known and the view covers the plane");
    assert_eq!(frame.pixel_format(), PixelFormat::Nv12);
}

#[test]
fn a_frame_carries_the_format_of_its_buffer() {
    let bytes = vec![0u8; 8];
    for (code, pixel_format) in [
        (FOURCC_420V, PixelFormat::Nv12),
        (FOURCC_420F, PixelFormat::Nv12),
        (FOURCC_2VUY, PixelFormat::Uyvy),
        (FOURCC_BGRA, PixelFormat::Bgra32),
    ] {
        let info = PixelBufferInfo { fourcc: code, ..packed(2, 2, 4) };
        let frame = MacosFrame::from_locked_pixel_buffer(&info, vec![&bytes[..]], stamp(1))
            .expect("the encoding is known and the view covers the plane");
        assert_eq!(frame.pixel_format(), pixel_format);
    }
}

#[test]
fn a_frame_without_mapped_planes_has_none() {
    let mut info = packed(2, 2, 4);
    info.mapped = false;
    let frame =
        MacosFrame::from_locked_pixel_buffer(&info, vec![], stamp(1)).expect("nothing to cover");
    assert!(frame.planes().is_empty());
    assert_eq!(frame.size(), Size { width: 2, height: 2 });
}

#[test]
fn views_that_do_not_cover_the_planes_make_no_frame() {
    let luma = vec![0u8; 32];
    let chroma = vec![0u8; 16];
    let info = biplanar(8, 4);
    assert!(MacosFrame::from_locked_pixel_buffer(&info, vec![&luma[..]], stamp(0)).is_none());
    assert!(MacosFrame::from_locked_pixel_buffer(&info, vec![], stamp(0)).is_none());
    assert!(MacosFrame::from_locked_pixel_buffer(
        &info,
        vec![&luma[..], &chroma[..], &chroma[..]],
        stamp(0)
    )
    .is_none());
    assert!(
        MacosFrame::from_locked_pixel_buffer(&info, vec![&luma[..], &chroma[..15]], stamp(0))
            .is_none()
    );
    assert!(
        MacosFrame::from_locked_pixel_buffer(&info, vec![&chroma[..], &luma[..]], stamp(0))
            .is_none()
    );
    assert!(
        MacosFrame::from_locked_pixel_buffer(&info, vec![&luma[..], &chroma[..]], stamp(0))
            .is_some()
    );
}

#[test]
fn a_buffer_too_long_to_address_makes_no_frame() {
    let info = packed(8, 2, usize::MAX);
    assert!(MacosFrame::from_locked_pixel_buffer(&info, vec![], stamp(0)).is_none());
}

#[test]
fn frame_dimensions_keep_their_low_bits() {
    let mut info = packed(0x1_0000_0280, 2, 4);
    info.height = 2;
    let bytes = vec![0u8; 8];
    let frame = MacosFrame::from_locked_pixel_buffer(&info, vec![&bytes[..]], stamp(0))
        .expect("the view covers the plane");
    assert_eq!(frame.size(), Size { width: 0x280, height: 2 });
}
