use hwcodec::common::{CodecError, PixelFormat, Severity};
use hwcodec::common::severity_from_level;
use hwcodec::geometry::compute_geometry;

#[test]
fn nv12_720p_layout() {
    // NV12 at 1280x720 with default alignment: two planes, Y then UV.
    let g = compute_geometry(PixelFormat::Nv12, 1280, 720, 0).unwrap();
    assert_eq!(g.strides, vec![1280, 1280]);
    assert_eq!(g.offsets, vec![0, 921600]);
    assert_eq!(g.total, 1382400);
    // Y plane: stride 1280, length 921600; UV plane: stride 1280, length 460800.
    assert_eq!(g.offsets[1] - g.offsets[0], 921600);
    assert_eq!(g.total - g.offsets[1], 460800);
}

#[test]
fn yuv420p_aligned_layout() {
    let g = compute_geometry(PixelFormat::Yuv420p, 1918, 1078, 64).unwrap();
    assert_eq!(g.strides, vec![1920, 960, 960]);
    let y = 1920usize * 1078;
    let c = 960usize * 539;
    assert_eq!(g.offsets, vec![0, y, y + c]);
    assert_eq!(g.total, y + 2 * c);
}

#[test]
fn yuv444p_layout() {
    let g = compute_geometry(PixelFormat::Yuv444p, 2, 2, 0).unwrap();
    assert_eq!(g.strides, vec![2, 2, 2]);
    assert_eq!(g.offsets, vec![0, 4, 8]);
    assert_eq!(g.total, 12);
}

#[test]
fn bgra_layout() {
    let g = compute_geometry(PixelFormat::Bgra, 3, 2, 0).unwrap();
    assert_eq!(g.strides, vec![12]);
    assert_eq!(g.offsets, vec![0]);
    assert_eq!(g.total, 24);
    let g = compute_geometry(PixelFormat::Bgra, 3, 2, 8).unwrap();
    assert_eq!(g.strides, vec![16]);
    assert_eq!(g.total, 32);
}

#[test]
fn total_is_sum_of_planes_and_planes_fit() {
    // Each plane's offset plus its length stays inside the buffer, and the
    // plane lengths sum to the total.
    let cases = [
        (PixelFormat::Yuv420p, 640, 480, 0),
        (PixelFormat::Yuv420p, 1918, 1078, 64),
        (PixelFormat::Nv12, 1280, 720, 16),
        (PixelFormat::Yuv444p, 33, 17, 32),
        (PixelFormat::Bgra, 7, 5, 128),
    ];
    for (f, w, h, a) in cases {
        let g = compute_geometry(f, w, h, a).unwrap();
        assert_eq!(g.strides.len(), g.offsets.len());
        let mut sum = 0usize;
        for i in 0..g.offsets.len() {
            let end = if i + 1 < g.offsets.len() { g.offsets[i + 1] } else { g.total };
            let len = end - g.offsets[i];
            assert!(g.offsets[i] + len <= g.total);
            sum += len;
        }
        assert_eq!(sum, g.total);
    }
}

#[test]
fn zero_dimension_is_unsupported() {
    assert_eq!(
        compute_geometry(PixelFormat::Nv12, 0, 720, 0),
        Err(CodecError::UnsupportedFormat)
    );
    assert_eq!(
        compute_geometry(PixelFormat::Bgra, 16, 0, 0),
        Err(CodecError::UnsupportedFormat)
    );
}

#[test]
fn odd_dimension_for_subsampled_format_is_unsupported() {
    assert_eq!(
        compute_geometry(PixelFormat::Yuv420p, 3, 2, 0),
        Err(CodecError::UnsupportedFormat)
    );
    assert_eq!(
        compute_geometry(PixelFormat::Nv12, 2, 3, 0),
        Err(CodecError::UnsupportedFormat)
    );
    // The same dimensions are fine without subsampling.
    assert!(compute_geometry(PixelFormat::Yuv444p, 3, 3, 0).is_ok());
}

#[test]
fn bad_alignment_is_unsupported() {
    assert_eq!(
        compute_geometry(PixelFormat::Nv12, 1280, 720, 3),
        Err(CodecError::UnsupportedFormat)
    );
    assert_eq!(
        compute_geometry(PixelFormat::Nv12, 1280, 720, 32768),
        Err(CodecError::UnsupportedFormat)
    );
}

#[test]
fn oversized_dimension_is_unsupported() {
    assert_eq!(
        compute_geometry(PixelFormat::Bgra, 16385, 16, 0),
        Err(CodecError::UnsupportedFormat)
    );
    assert!(compute_geometry(PixelFormat::Bgra, 16384, 16, 0).is_ok());
}

#[test]
fn severity_levels_map_in_order() {
    assert_eq!(severity_from_level(0), Some(Severity::Error));
    assert_eq!(severity_from_level(1), Some(Severity::Warn));
    assert_eq!(severity_from_level(2), Some(Severity::Info));
    assert_eq!(severity_from_level(3), Some(Severity::Debug));
    assert_eq!(severity_from_level(4), Some(Severity::Trace));
    assert_eq!(severity_from_level(5), None);
    assert_eq!(severity_from_level(-1), None);
}
