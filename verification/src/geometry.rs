//! Buffer geometry: per-plane stride, per-plane offset and total length of a
//! linear raw-frame buffer for a given pixel format, resolution and byte
//! alignment. Pure and deterministic; encode input buffers and decode output
//! buffers must match this layout byte for byte.

use vstd::prelude::*;
use vstd::arithmetic::div_mod::{lemma_fundamental_div_mod, lemma_mod_bound};
use vstd::arithmetic::mul::{lemma_mul_inequality, lemma_mul_nonnegative};
use crate::common::{CodecError, PixelFormat};

verus! {

/// Largest width or height the calculator accepts; block codecs do not
/// handle frames beyond this, and it keeps every buffer length well under
/// the smallest address space the crate may run on.
pub const MAX_DIMENSION: u32 = 16384;

/// The alignments a caller may request: zero for the backend default, or a
/// power of two up to 16384.
pub open spec fn valid_alignment(a: int) -> bool {
    ||| a == 0
    ||| a == 1
    ||| a == 2
    ||| a == 4
    ||| a == 8
    ||| a == 16
    ||| a == 32
    ||| a == 64
    ||| a == 128
    ||| a == 256
    ||| a == 512
    ||| a == 1024
    ||| a == 2048
    ||| a == 4096
    ||| a == 8192
    ||| a == 16384
}

/// The alignment actually applied: a requested zero means "backend default",
/// which this calculator takes as no padding.
pub open spec fn eff_align(a: int) -> int {
    if a == 0 {
        1
    } else {
        a
    }
}

/// `x` rounded up to the next multiple of `a`.
pub open spec fn spec_align_up(x: int, a: int) -> int {
    ((x + a - 1) / a) * a
}

/// Formats with 4:2:0 chroma subsampling, whose chroma planes cover half the
/// width and half the height; they require even dimensions.
pub open spec fn is_subsampled(f: PixelFormat) -> bool {
    f is Yuv420p || f is Nv12
}

/// Dimensions a format can represent: positive, within range, and even where
/// chroma subsampling demands it.
pub open spec fn valid_dimensions(f: PixelFormat, w: int, h: int) -> bool {
    &&& 0 < w <= MAX_DIMENSION
    &&& 0 < h <= MAX_DIMENSION
    &&& (is_subsampled(f) ==> w % 2 == 0 && h % 2 == 0)
}

/// The (format, width, height, alignment) combinations for which a geometry
/// exists; all others are rejected with `UnsupportedFormat`.
pub open spec fn geometry_ok(f: PixelFormat, w: int, h: int, a: int) -> bool {
    valid_dimensions(f, w, h) && valid_alignment(a)
}

/// Number of planes a buffer in format `f` holds.
pub open spec fn plane_count(f: PixelFormat) -> int {
    match f {
        PixelFormat::Yuv420p => 3,
        PixelFormat::Nv12 => 2,
        PixelFormat::Yuv444p => 3,
        PixelFormat::Bgra => 1,
    }
}

/// Payload bytes in one row of plane `p` (before alignment padding).
pub open spec fn plane_row_bytes(f: PixelFormat, p: int, w: int) -> int {
    match f {
        PixelFormat::Yuv420p => if p == 0 {
            w
        } else {
            w / 2
        },
        PixelFormat::Nv12 => w,
        PixelFormat::Yuv444p => w,
        PixelFormat::Bgra => 4 * w,
    }
}

/// Number of rows in plane `p`.
pub open spec fn plane_rows(f: PixelFormat, p: int, h: int) -> int {
    match f {
        PixelFormat::Yuv420p => if p == 0 {
            h
        } else {
            h / 2
        },
        PixelFormat::Nv12 => if p == 0 {
            h
        } else {
            h / 2
        },
        PixelFormat::Yuv444p => h,
        PixelFormat::Bgra => h,
    }
}

/// Stride (bytes per row, padding included) of plane `p`.
pub open spec fn spec_stride(f: PixelFormat, p: int, w: int, a: int) -> int {
    spec_align_up(plane_row_bytes(f, p, w), eff_align(a))
}

/// Length in bytes of plane `p`.
pub open spec fn spec_plane_len(f: PixelFormat, p: int, w: int, h: int, a: int) -> int {
    spec_stride(f, p, w, a) * plane_rows(f, p, h)
}

/// Byte offset of plane `p` from the start of the buffer: the sum of the
/// lengths of all planes before it.
pub open spec fn spec_offset(f: PixelFormat, p: int, w: int, h: int, a: int) -> int
    decreases p,
{
    if p <= 0 {
        0
    } else {
        spec_offset(f, p - 1, w, h, a) + spec_plane_len(f, p - 1, w, h, a)
    }
}

/// Total buffer length: the sum of all plane lengths.
pub open spec fn spec_total(f: PixelFormat, w: int, h: int, a: int) -> int {
    spec_offset(f, plane_count(f), w, h, a)
}

/// Rounding up to a positive alignment stays within one alignment unit and
/// never shrinks.
proof fn lemma_align_up(x: int, a: int)
    requires
        0 <= x,
        1 <= a,
    ensures
        x <= spec_align_up(x, a) < x + a,
{
    let n = x + a - 1;
    lemma_fundamental_div_mod(n, a);
    lemma_mod_bound(n, a);
    assert(spec_align_up(x, a) == (n / a) * a);
    assert(a * (n / a) == (n / a) * a) by (nonlinear_arith);
    assert((n / a) * a == n - n % a);
}

/// Every plane length is nonnegative.
proof fn lemma_plane_len_nonneg(f: PixelFormat, p: int, w: int, h: int, a: int)
    requires
        geometry_ok(f, w, h, a),
        0 <= p < plane_count(f),
    ensures
        spec_plane_len(f, p, w, h, a) >= 0,
        spec_stride(f, p, w, a) >= plane_row_bytes(f, p, w) >= 0,
{
    lemma_align_up(plane_row_bytes(f, p, w), eff_align(a));
    lemma_mul_nonnegative(spec_stride(f, p, w, a), plane_rows(f, p, h));
}

/// Offsets never decrease from plane `p` to plane `q`.
proof fn lemma_offset_monotone(f: PixelFormat, w: int, h: int, a: int, p: int, q: int)
    requires
        geometry_ok(f, w, h, a),
        0 <= p <= q <= plane_count(f),
    ensures
        spec_offset(f, p, w, h, a) <= spec_offset(f, q, w, h, a),
    decreases q - p,
{
    if p < q {
        lemma_plane_len_nonneg(f, q - 1, w, h, a);
        lemma_offset_monotone(f, w, h, a, p, q - 1);
    }
}

/// The planes partition the buffer: the total length is the sum of the plane
/// lengths, and every plane lies entirely inside the buffer — its offset plus
/// its length never exceeds the total.
pub proof fn lemma_plane_partition(f: PixelFormat, w: int, h: int, a: int, p: int)
    requires
        geometry_ok(f, w, h, a),
        0 <= p < plane_count(f),
    ensures
        spec_total(f, w, h, a) == spec_offset(f, plane_count(f), w, h, a),
        spec_offset(f, p, w, h, a) + spec_plane_len(f, p, w, h, a) == spec_offset(f, p + 1, w, h, a),
        spec_offset(f, p, w, h, a) + spec_plane_len(f, p, w, h, a) <= spec_total(f, w, h, a),
        spec_plane_len(f, p, w, h, a) >= 0,
        spec_offset(f, p, w, h, a) >= 0,
{
    lemma_plane_len_nonneg(f, p, w, h, a);
    lemma_offset_monotone(f, w, h, a, p + 1, plane_count(f));
    lemma_offset_monotone(f, w, h, a, 0, p);
}

/// The computed layout of one raw-frame buffer: one stride and one offset per
/// plane, and the total byte length.
#[derive(Clone, Debug, PartialEq)]
pub struct FrameGeometry {
    pub strides: Vec<usize>,
    pub offsets: Vec<usize>,
    pub total: usize,
}

/// What it means for a `FrameGeometry` value to be the geometry of
/// `(f, w, h, a)`.
pub open spec fn geometry_matches(g: FrameGeometry, f: PixelFormat, w: int, h: int, a: int) -> bool {
    &&& g.strides@.len() == plane_count(f)
    &&& g.offsets@.len() == plane_count(f)
    &&& (forall|p: int|
        0 <= p < plane_count(f) ==> g.strides@[p] == spec_stride(f, p, w, a))
    &&& (forall|p: int|
        0 <= p < plane_count(f) ==> g.offsets@[p] == spec_offset(f, p, w, h, a))
    &&& g.total == spec_total(f, w, h, a)
}

/// Checks whether `a` is an accepted alignment request.
fn alignment_is_valid(a: u32) -> (r: bool)
    ensures
        r == valid_alignment(a as int),
{
    a == 0 || a == 1 || a == 2 || a == 4 || a == 8 || a == 16 || a == 32 || a == 64 || a == 128
        || a == 256 || a == 512 || a == 1024 || a == 2048 || a == 4096 || a == 8192 || a == 16384
}

/// `x` rounded up to the next multiple of `a`.
fn align_up(x: usize, a: usize) -> (r: usize)
    requires
        x <= 65536,
        1 <= a <= 16384,
    ensures
        r == spec_align_up(x as int, a as int),
        x <= r < x + a,
{
    proof {
        lemma_align_up(x as int, a as int);
    }
    ((x + a - 1) / a) * a
}

/// Computes the plane strides, plane offsets and total length of a linear
/// raw-frame buffer, or fails with `UnsupportedFormat` when the combination
/// cannot be represented: a zero or oversized dimension, an odd dimension for
/// a chroma-subsampled format, or an alignment that is neither zero nor a
/// power of two in range.
pub fn compute_geometry(pixfmt: PixelFormat, width: u32, height: u32, align: u32) -> (r: Result<
    FrameGeometry,
    CodecError,
>)
    ensures
        r is Ok <==> geometry_ok(pixfmt, width as int, height as int, align as int),
        r matches Ok(g) ==> geometry_matches(g, pixfmt, width as int, height as int, align as int),
        r matches Err(e) ==> e == CodecError::UnsupportedFormat,
{
    let subsampled = match pixfmt {
        PixelFormat::Yuv420p => true,
        PixelFormat::Nv12 => true,
        PixelFormat::Yuv444p => false,
        PixelFormat::Bgra => false,
    };
    if width == 0 || width > MAX_DIMENSION || height == 0 || height > MAX_DIMENSION {
        return Err(CodecError::UnsupportedFormat);
    }
    if subsampled && (width % 2 != 0 || height % 2 != 0) {
        return Err(CodecError::UnsupportedFormat);
    }
    if !alignment_is_valid(align) {
        return Err(CodecError::UnsupportedFormat);
    }
    let a: usize = if align == 0 {
        1
    } else {
        align as usize
    };
    let w: usize = width as usize;
    let h: usize = height as usize;
    let ghost fi = pixfmt;
    let ghost wi = width as int;
    let ghost hi = height as int;
    let ghost ai = align as int;
    proof {
        assert(a as int == eff_align(ai));
    }
    let mut strides: Vec<usize> = Vec::new();
    let mut offsets: Vec<usize> = Vec::new();
    match pixfmt {
        PixelFormat::Yuv420p => {
            let s0 = align_up(w, a);
            let s1 = align_up(w / 2, a);
            assert(s0 * h <= 32767 * 16384) by (nonlinear_arith)
                requires
                    0 <= s0 < 32768,
                    0 <= h <= 16384,
            ;
            let l0 = s0 * h;
            assert(s1 * (h / 2) <= 24575 * 8192) by (nonlinear_arith)
                requires
                    0 <= s1 < 24576,
                    0 <= h / 2 <= 8192,
            ;
            let l1 = s1 * (h / 2);
            let l2 = s1 * (h / 2);
            strides.push(s0);
            strides.push(s1);
            strides.push(s1);
            offsets.push(0);
            offsets.push(l0);
            offsets.push(l0 + l1);
            let g = FrameGeometry { strides, offsets, total: l0 + l1 + l2 };
            proof {
                reveal_with_fuel(spec_offset, 4);
                assert forall|p: int| 0 <= p < plane_count(fi) implies g.strides@[p]
                    == spec_stride(fi, p, wi, ai) && g.offsets@[p] == spec_offset(
                    fi,
                    p,
                    wi,
                    hi,
                    ai,
                ) by {
                    assert(p == 0 || p == 1 || p == 2);
                }
            }
            return Ok(g);
        },
        PixelFormat::Nv12 => {
            let s0 = align_up(w, a);
            let s1 = align_up(w, a);
            assert(s0 * h <= 32767 * 16384) by (nonlinear_arith)
                requires
                    0 <= s0 < 32768,
                    0 <= h <= 16384,
            ;
            let l0 = s0 * h;
            assert(s1 * (h / 2) <= 32767 * 8192) by (nonlinear_arith)
                requires
                    0 <= s1 < 32768,
                    0 <= h / 2 <= 8192,
            ;
            let l1 = s1 * (h / 2);
            strides.push(s0);
            strides.push(s1);
            offsets.push(0);
            offsets.push(l0);
            let g = FrameGeometry { strides, offsets, total: l0 + l1 };
            proof {
                reveal_with_fuel(spec_offset, 4);
                assert forall|p: int| 0 <= p < plane_count(fi) implies g.strides@[p]
                    == spec_stride(fi, p, wi, ai) && g.offsets@[p] == spec_offset(
                    fi,
                    p,
                    wi,
                    hi,
                    ai,
                ) by {
                    assert(p == 0 || p == 1);
                }
            }
            return Ok(g);
        },
        PixelFormat::Yuv444p => {
            let s0 = align_up(w, a);
            assert(s0 * h <= 32767 * 16384) by (nonlinear_arith)
                requires
                    0 <= s0 < 32768,
                    0 <= h <= 16384,
            ;
            let l0 = s0 * h;
            strides.push(s0);
            strides.push(s0);
            strides.push(s0);
            offsets.push(0);
            offsets.push(l0);
            offsets.push(l0 + l0);
            let g = FrameGeometry { strides, offsets, total: l0 + l0 + l0 };
            proof {
                reveal_with_fuel(spec_offset, 4);
                assert forall|p: int| 0 <= p < plane_count(fi) implies g.strides@[p]
                    == spec_stride(fi, p, wi, ai) && g.offsets@[p] == spec_offset(
                    fi,
                    p,
                    wi,
                    hi,
                    ai,
                ) by {
                    assert(p == 0 || p == 1 || p == 2);
                }
            }
            return Ok(g);
        },
        PixelFormat::Bgra => {
            let row = 4 * w;
            let s0 = align_up(row, a);
            assert(s0 * h <= 81919 * 16384) by (nonlinear_arith)
                requires
                    0 <= s0 < 81920,
                    0 <= h <= 16384,
            ;
            let l0 = s0 * h;
            strides.push(s0);
            offsets.push(0);
            let g = FrameGeometry { strides, offsets, total: l0 };
            proof {
                reveal_with_fuel(spec_offset, 2);
                assert forall|p: int| 0 <= p < plane_count(fi) implies g.strides@[p]
                    == spec_stride(fi, p, wi, ai) && g.offsets@[p] == spec_offset(
                    fi,
                    p,
                    wi,
                    hi,
                    ai,
                ) by {
                    assert(p == 0);
                }
            }
            return Ok(g);
        },
    }
}

} // verus!
