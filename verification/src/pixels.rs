//! Normalization of heterogeneous decoded pixel layouts into the single
//! representation the gallery uses: RGBA, 8 bits per channel, row-major,
//! without stride padding.

use vstd::prelude::*;

use crate::frac::Frac;
use crate::frame::RawImageFrame;

verus! {

/// RGBA expansion of a packed RGB byte sequence: every pixel keeps its three
/// channels and gains an opaque alpha byte. Trailing bytes that do not fill a
/// whole pixel are dropped.
pub open spec fn spec_rgba_of_rgb(rgb: Seq<u8>) -> Seq<u8>
    decreases rgb.len(),
{
    if rgb.len() < 3 {
        Seq::empty()
    } else {
        seq![rgb[0], rgb[1], rgb[2], 255u8] + spec_rgba_of_rgb(rgb.skip(3))
    }
}

pub proof fn lemma_rgba_of_rgb_len(rgb: Seq<u8>)
    ensures
        spec_rgba_of_rgb(rgb).len() == (rgb.len() / 3) * 4,
    decreases rgb.len(),
{
    if rgb.len() < 3 {
    } else {
        lemma_rgba_of_rgb_len(rgb.skip(3));
        assert(rgb.len() / 3 == 1 + (rgb.len() - 3) / 3) by (nonlinear_arith)
            requires
                rgb.len() >= 3,
        ;
    }
}

/// Expands packed RGB bytes to RGBA with an opaque alpha channel.
pub fn rgb_to_rgba(rgb: &[u8]) -> (r: Vec<u8>)
    ensures
        r@ == spec_rgba_of_rgb(rgb@),
{
    let n = rgb.len();
    let mut out: Vec<u8> = Vec::new();
    let mut i: usize = 0;
    proof {
        assert(rgb@.skip(0) == rgb@);
    }
    while n - i >= 3
        invariant
            n == rgb@.len(),
            i % 3 == 0,
            i <= n,
            out@ + spec_rgba_of_rgb(rgb@.skip(i as int)) == spec_rgba_of_rgb(rgb@),
        decreases n - i,
    {
        out.push(rgb[i]);
        out.push(rgb[i + 1]);
        out.push(rgb[i + 2]);
        out.push(255);
        proof {
            let s = rgb@.skip(i as int);
            assert(s.len() >= 3);
            assert(s[0] == rgb@[i as int]);
            assert(s[1] == rgb@[i + 1]);
            assert(s[2] == rgb@[i + 2]);
            assert(s.skip(3) =~= rgb@.skip(i + 3));
        }
        i = i + 3;
    }
    proof {
        assert(spec_rgba_of_rgb(rgb@.skip(i as int)) =~= Seq::<u8>::empty());
        assert(out@ =~= spec_rgba_of_rgb(rgb@));
    }
    out
}

/// Whether the bilevel pixel at column `x` of row `y` is set (black), reading
/// the packed 1-bit-per-pixel row-major layout with `stride` bytes per row
/// and the most significant bit first.
pub open spec fn spec_bilevel_bit(data: Seq<u8>, stride: int, x: int, y: int) -> bool {
    (data[y * stride + x / 8] >> ((7 - x % 8) as u8)) & 1 == 1
}

/// RGBA rendering of a packed bilevel image: a set bit is an opaque black
/// pixel, a clear bit an opaque white one.
pub open spec fn spec_bilevel_rgba(data: Seq<u8>, width: int, height: int, stride: int) -> Seq<
    u8,
> {
    Seq::new(
        (width * height * 4) as nat,
        |i: int|
            {
                let p = i / 4;
                let x = p % width;
                let y = p / width;
                if i % 4 == 3 {
                    255u8
                } else if spec_bilevel_bit(data, stride, x, y) {
                    0u8
                } else {
                    255u8
                }
            },
    )
}

/// Expands a packed 1-bit-per-pixel image (rows of `stride` bytes, most
/// significant bit first, set bit = black) into opaque RGBA bytes.
pub fn bilevel_to_rgba(data: &[u8], width: usize, height: usize, stride: usize) -> (r: Vec<u8>)
    requires
        width >= 1,
        width <= 8 * stride,
        data@.len() == height * stride,
        width * height * 4 <= usize::MAX,
    ensures
        r@ == spec_bilevel_rgba(data@, width as int, height as int, stride as int),
{
    let ghost gspec = spec_bilevel_rgba(data@, width as int, height as int, stride as int);
    let mut out: Vec<u8> = Vec::new();
    let mut y: usize = 0;
    let dlen = data.len();
    while y < height
        invariant
            width >= 1,
            width <= 8 * stride,
            data@.len() == height * stride,
            data@.len() <= usize::MAX,
            width * height * 4 <= usize::MAX,
            y <= height,
            gspec == spec_bilevel_rgba(data@, width as int, height as int, stride as int),
            out@.len() == y * width * 4,
            forall|i: int| 0 <= i < out@.len() ==> out@[i] == gspec[i],
        decreases height - y,
    {
        let mut x: usize = 0;
        proof {
            assert(y * width * 4 + width * 4 <= width * height * 4) by (nonlinear_arith)
                requires
                    y < height,
                    width >= 1,
            ;
        }
        while x < width
            invariant
                width >= 1,
                width <= 8 * stride,
                data@.len() == height * stride,
                data@.len() <= usize::MAX,
                width * height * 4 <= usize::MAX,
                y < height,
                x <= width,
                gspec == spec_bilevel_rgba(data@, width as int, height as int, stride as int),
                out@.len() == y * width * 4 + x * 4,
                y * width * 4 + width * 4 <= width * height * 4,
                forall|i: int| 0 <= i < out@.len() ==> out@[i] == gspec[i],
            decreases width - x,
        {
            proof {
                assert(y * stride + x / 8 < height * stride) by (nonlinear_arith)
                    requires
                        y < height,
                        x < width,
                        width <= 8 * stride,
                        width >= 1,
                ;
            }
            let byte = data[y * stride + x / 8];
            let shift: u8 = (7 - (x % 8)) as u8;
            let value: u8 = if (byte >> shift) & 1 == 1 {
                0
            } else {
                255
            };
            let ghost p = y * width + x;
            proof {
                assert(out@.len() == p * 4) by (nonlinear_arith)
                    requires
                        out@.len() == y * width * 4 + x * 4,
                        p == y * width + x,
                ;
                assert((4 * p + 0) / 4 == p && (4 * p + 0) % 4 == 0 && (4 * p + 1) / 4 == p && (4
                    * p + 1) % 4 == 1 && (4 * p + 2) / 4 == p && (4 * p + 2) % 4 == 2 && (4 * p
                    + 3) / 4 == p && (4 * p + 3) % 4 == 3) by (nonlinear_arith)
                    requires
                        0 <= p,
                ;
                assert(p % (width as int) == x && p / (width as int) == y) by (nonlinear_arith)
                    requires
                        p == y * width + x,
                        0 <= x < width,
                        0 <= y,
                ;
                assert(value == (if spec_bilevel_bit(
                    data@,
                    stride as int,
                    x as int,
                    y as int,
                ) {
                    0u8
                } else {
                    255u8
                }));
            }
            out.push(value);
            out.push(value);
            out.push(value);
            out.push(255);
            x = x + 1;
            proof {
                assert(out@.len() == y * width * 4 + x * 4) by (nonlinear_arith)
                    requires
                        out@.len() == (y * width + (x - 1)) * 4 + 4,
                    ;
            }
        }
        y = y + 1;
        proof {
            assert(out@.len() == y * width * 4) by (nonlinear_arith)
                requires
                    out@.len() == (y - 1) * width * 4 + width * 4,
            ;
        }
    }
    proof {
        vstd::arithmetic::mul::lemma_mul_is_commutative(height as int, width as int);
        assert(out@.len() == width * height * 4) by (nonlinear_arith)
            requires
                out@.len() == height * width * 4,
        ;
        assert(out@ =~= gspec);
    }
    out
}

/// The tightly packed RGBA bytes of an image whose rows are `stride` bytes
/// apart in `data`: row `y` contributes bytes `y*stride .. y*stride + 4*width`.
pub open spec fn spec_strip_stride(data: Seq<u8>, width: int, height: int, stride: int) -> Seq<
    u8,
> {
    Seq::new(
        (height * width * 4) as nat,
        |i: int| data[(i / (4 * width)) * stride + i % (4 * width)],
    )
}

/// Copies the visible `4*width` bytes of each of `height` rows out of a
/// strided buffer, dropping the per-row padding.
pub fn strip_stride(data: &[u8], width: usize, height: usize, stride: usize) -> (r: Vec<u8>)
    requires
        width >= 1,
        4 * width <= stride,
        height * stride <= data@.len(),
        width * height * 4 <= usize::MAX,
    ensures
        r@ == spec_strip_stride(data@, width as int, height as int, stride as int),
{
    let ghost gspec = spec_strip_stride(data@, width as int, height as int, stride as int);
    let mut out: Vec<u8> = Vec::new();
    let mut y: usize = 0;
    let row_len: usize = 4 * width;
    let dlen = data.len();
    proof {
        assert(gspec.len() == height * width * 4);
    }
    while y < height
        invariant
            width >= 1,
            row_len == 4 * width,
            4 * width <= stride,
            height * stride <= data@.len(),
            data@.len() <= usize::MAX,
            width * height * 4 <= usize::MAX,
            y <= height,
            gspec == spec_strip_stride(data@, width as int, height as int, stride as int),
            gspec.len() == height * width * 4,
            out@.len() == y * row_len,
            forall|i: int| 0 <= i < out@.len() ==> out@[i] == gspec[i],
        decreases height - y,
    {
        let mut j: usize = 0;
        proof {
            assert(y * stride + stride <= height * stride && y * row_len + row_len <= height
                * row_len && height * row_len == height * width * 4) by (nonlinear_arith)
                requires
                    y < height,
                    row_len == 4 * width,
                    4 * width <= stride,
            ;
        }
        while j < row_len
            invariant
                width >= 1,
                row_len == 4 * width,
                4 * width <= stride,
                height * stride <= data@.len(),
                data@.len() <= usize::MAX,
                y < height,
                j <= row_len,
                y * stride + stride <= height * stride,
                y * row_len + row_len <= height * width * 4,
                gspec == spec_strip_stride(data@, width as int, height as int, stride as int),
                gspec.len() == height * width * 4,
                out@.len() == y * row_len + j,
                forall|i: int| 0 <= i < out@.len() ==> out@[i] == gspec[i],
            decreases row_len - j,
        {
            let b = data[y * stride + j];
            proof {
                let i = (y * row_len + j) as int;
                assert(i / (4 * (width as int)) == y && i % (4 * (width as int)) == j)
                    by (nonlinear_arith)
                    requires
                        i == y * row_len + j,
                        row_len == 4 * width,
                        0 <= j < row_len,
                        0 <= y,
                        width >= 1,
                ;
                assert(gspec[i] == data@[y * stride + j]);
            }
            out.push(b);
            j = j + 1;
        }
        y = y + 1;
        proof {
            assert(out@.len() == y * row_len) by (nonlinear_arith)
                requires
                    out@.len() == (y - 1) * row_len + row_len,
            ;
        }
    }
    proof {
        assert(out@.len() == height * width * 4) by (nonlinear_arith)
            requires
                out@.len() == height * row_len,
                row_len == 4 * width,
        ;
        assert(out@ =~= gspec);
    }
    out
}

/// The frame a strided RGBA video picture normalizes to, when the declared
/// geometry is consistent with the buffer; `None` when it is not.
pub open spec fn spec_video_frame(
    data: Seq<u8>,
    width: u32,
    height: u32,
    stride: int,
    delay: Frac,
) -> Option<FrameContent> {
    if width >= 1 && 4 * (width as int) <= stride && (height as int) * stride <= data.len() && (
    width as int) * (height as int) * 4 <= usize::MAX {
        Some(
            FrameContent {
                pixels: spec_strip_stride(data, width as int, height as int, stride),
                width: width as int,
                height: height as int,
                delay,
            },
        )
    } else {
        None
    }
}

/// Pixel content of a normalized video picture, before it is wrapped in a
/// frame value.
#[verifier::ext_equal]
pub ghost struct FrameContent {
    pub pixels: Seq<u8>,
    pub width: int,
    pub height: int,
    pub delay: Frac,
}

/// Normalizes one decoded video picture, handed over as its geometry and its
/// strided RGBA byte buffer, into a frame; rejects inconsistent geometry
/// instead of reading out of bounds.
pub fn video_frame_to_image(
    data: &[u8],
    width: u32,
    height: u32,
    stride: usize,
    delay: Frac,
) -> (r: Option<RawImageFrame>)
    requires
        delay.wf(),
        delay.is_positive(),
    ensures
        r is Some <==> spec_video_frame(data@, width, height, stride as int, delay) is Some,
        r is Some ==> {
            let c = spec_video_frame(data@, width, height, stride as int, delay)->0;
            &&& r->0.wf()
            &&& r->0@.pixels == c.pixels
            &&& r->0.width == width
            &&& r->0.height == height
            &&& r->0.delay == delay
        },
{
    if width < 1 {
        return None;
    }
    let w = width as usize;
    let h = height as usize;
    let dlen = data.len();
    if stride / 4 < w {
        return None;
    }
    let need = match h.checked_mul(stride) {
        Some(n) => n,
        None => {
            proof {
                assert((height as int) * (stride as int) > data@.len());
            }
            return None;
        },
    };
    if need > dlen {
        return None;
    }
    proof {
        assert(4 * w <= stride);
        assert(w * h * 4 <= h * stride) by (nonlinear_arith)
            requires
                4 * w <= stride,
                0 <= h,
        ;
    }
    let pixels = strip_stride(data, w, h, stride);
    proof {
        vstd::arithmetic::mul::lemma_mul_is_commutative(h as int, w as int);
    }
    Some(RawImageFrame { width, height, pixels, delay })
}

} // verus!
