//! Colorspace conversions from an RGB frame to device byte layouts:
//! packed 32-bit BGRA, and subsampled luma/chroma 4:2:2 (YUYV).
//!
//! The luma/chroma formulas are the fixed-point form of
//! Y = 0.299 R + 0.587 G + 0.114 B,
//! U = -0.147 R - 0.289 G + 0.436 B + 128,
//! V = 0.615 R - 0.515 G - 0.100 B + 128,
//! with the coefficients scaled by 1000, each result truncated and
//! clamped to [0, 255].

use vstd::prelude::*;
use vstd::arithmetic::div_mod::lemma_fundamental_div_mod_converse;
use vstd::arithmetic::mul::lemma_mul_nonnegative;
use crate::frame::{lemma_pixel_index, Frame};
use crate::resize::{resize_rgb, resized_rgb};

verus! {

/// Clamps an integer into the byte range [0, 255].
pub open spec fn clamp_byte(n: int) -> int {
    if n < 0 {
        0
    } else if n > 255 {
        255
    } else {
        n
    }
}

/// Luma of one pixel, by the scaled-by-1000 fixed-point formula.
pub open spec fn yuv_y(r: int, g: int, b: int) -> int {
    clamp_byte((299 * r + 587 * g + 114 * b) / 1000)
}

/// Chroma U of one pixel, by the scaled-by-1000 fixed-point formula,
/// with the +128 bias folded into the numerator.
pub open spec fn yuv_u(r: int, g: int, b: int) -> int {
    clamp_byte((436 * b + 128000 - 147 * r - 289 * g) / 1000)
}

/// Chroma V of one pixel, by the scaled-by-1000 fixed-point formula,
/// with the +128 bias folded into the numerator. A negative numerator
/// clamps to 0 before the division is taken.
pub open spec fn yuv_v(r: int, g: int, b: int) -> int {
    let n = 615 * r + 128000 - 515 * g - 100 * b;
    if n < 0 {
        0
    } else {
        clamp_byte(n / 1000)
    }
}

/// Converts one RGB pixel to (Y, U, V).
pub fn rgb_to_yuv(r: u8, g: u8, b: u8) -> (yuv: (u8, u8, u8))
    ensures
        yuv.0 == yuv_y(r as int, g as int, b as int),
        yuv.1 == yuv_u(r as int, g as int, b as int),
        yuv.2 == yuv_v(r as int, g as int, b as int),
{
    let r32: u32 = r as u32;
    let g32: u32 = g as u32;
    let b32: u32 = b as u32;

    let y: u8 = ((299 * r32 + 587 * g32 + 114 * b32) / 1000) as u8;
    let u: u8 = (((436 * b32 + 128000) - (147 * r32 + 289 * g32)) / 1000) as u8;

    let vpos: u32 = 615 * r32 + 128000;
    let vneg: u32 = 515 * g32 + 100 * b32;
    let v: u8 = if vpos <= vneg {
        0
    } else {
        let q: u32 = (vpos - vneg) / 1000;
        if q > 255 {
            255
        } else {
            q as u8
        }
    };

    (y, u, v)
}

/// The packed BGRA layout: for every pixel, in order, the bytes
/// [B, G, R, 255] (alpha forced fully opaque).
pub open spec fn bgra_spec(data: Seq<u8>, n_pixels: int) -> Seq<u8> {
    Seq::new((4 * n_pixels) as nat, |i: int|
        if i % 4 == 0 {
            data[3 * (i / 4) + 2]
        } else if i % 4 == 1 {
            data[3 * (i / 4) + 1]
        } else if i % 4 == 2 {
            data[3 * (i / 4)]
        } else {
            255u8
        }
    )
}

/// Encodes a frame as packed BGRA bytes.
pub fn rgb_to_bgra(frame: &Frame) -> (out: Vec<u8>)
    requires
        frame.wf(),
        4 * (frame.width * frame.height) <= usize::MAX,
    ensures
        out@ == bgra_spec(frame.data@, (frame.width * frame.height) as int),
        out@.len() == 4 * (frame.width * frame.height),
{
    proof {
        lemma_mul_nonnegative(frame.width as int, frame.height as int);
    }
    let n: usize = (frame.width as usize) * (frame.height as usize);
    let mut out: Vec<u8> = Vec::new();
    let mut p: usize = 0;
    while p < n
        invariant
            frame.wf(),
            n == frame.width * frame.height,
            4 * n <= usize::MAX,
            p <= n,
            out@.len() == 4 * p,
            forall|i: int| 0 <= i < out@.len()
                ==> out@[i] == #[trigger] bgra_spec(frame.data@, n as int)[i],
        decreases n - p,
    {
        let base: usize = 3 * p;
        out.push(frame.data[base + 2]);
        out.push(frame.data[base + 1]);
        out.push(frame.data[base]);
        out.push(255);
        proof {
            let pi = p as int;
            lemma_fundamental_div_mod_converse(4 * pi + 0, 4, pi, 0);
            lemma_fundamental_div_mod_converse(4 * pi + 1, 4, pi, 1);
            lemma_fundamental_div_mod_converse(4 * pi + 2, 4, pi, 2);
            lemma_fundamental_div_mod_converse(4 * pi + 3, 4, pi, 3);
        }
        p = p + 1;
    }
    proof {
        assert(out@ =~= bgra_spec(frame.data@, n as int));
    }
    out
}

/// Number of two-pixel groups per row of the 4:2:2 stream:
/// `ceil(width / 2)`. At odd width the trailing pixel is duplicated
/// as its own group.
pub open spec fn pairs_per_row(w: int) -> int {
    (w + 1) / 2
}

/// Length in bytes of the 4:2:2 stream of a `w` x `h` image: four
/// bytes per two-pixel group.
pub open spec fn yuyv_len(w: int, h: int) -> int {
    4 * ((h * pairs_per_row(w)) as int)
}

/// Byte `i` of the 4:2:2 (YUYV) stream of an RGB buffer: each
/// two-pixel group emits [Y0, Uavg, Y1, Vavg], where each pixel is
/// converted independently and the pair's U and V are averaged.
pub open spec fn yuyv_byte(data: Seq<u8>, w: int, i: int) -> int {
    let ppr = pairs_per_row(w);
    let pair = i / 4;
    let row = pair / ppr;
    let x0 = 2 * (pair % ppr);
    let x1 = if x0 + 1 < w { x0 + 1 } else { x0 };
    let r0 = data[3 * (row * w + x0) + 0] as int;
    let g0 = data[3 * (row * w + x0) + 1] as int;
    let b0 = data[3 * (row * w + x0) + 2] as int;
    let r1 = data[3 * (row * w + x1) + 0] as int;
    let g1 = data[3 * (row * w + x1) + 1] as int;
    let b1 = data[3 * (row * w + x1) + 2] as int;
    if i % 4 == 0 {
        yuv_y(r0, g0, b0)
    } else if i % 4 == 1 {
        (yuv_u(r0, g0, b0) + yuv_u(r1, g1, b1)) / 2
    } else if i % 4 == 2 {
        yuv_y(r1, g1, b1)
    } else {
        (yuv_v(r0, g0, b0) + yuv_v(r1, g1, b1)) / 2
    }
}

/// The full 4:2:2 (YUYV) stream of an RGB buffer of `w` x `h` pixels.
pub open spec fn yuyv_spec(data: Seq<u8>, w: int, h: int) -> Seq<u8> {
    Seq::new(yuyv_len(w, h) as nat, |i: int| yuyv_byte(data, w, i) as u8)
}

/// Encodes a frame as a 4:2:2 (YUYV) byte stream.
pub fn rgb_to_yuyv(frame: &Frame) -> (out: Vec<u8>)
    requires
        frame.wf(),
        yuyv_len(frame.width as int, frame.height as int) <= usize::MAX,
    ensures
        out@ == yuyv_spec(frame.data@, frame.width as int, frame.height as int),
        out@.len() == yuyv_len(frame.width as int, frame.height as int),
{
    let w: u32 = frame.width;
    let h: u32 = frame.height;
    let n_bytes: usize = frame.data.len();
    let ppr: usize = (w as usize) / 2 + (w as usize) % 2;
    proof {
        assert(ppr == pairs_per_row(w as int));
        lemma_mul_nonnegative(h as int, ppr as int);
    }
    let mut out: Vec<u8> = Vec::new();
    let mut y: usize = 0;
    while y < h as usize
        invariant
            frame.wf(),
            w == frame.width,
            h == frame.height,
            n_bytes == frame.data@.len(),
            ppr == pairs_per_row(w as int),
            yuyv_len(w as int, h as int) <= usize::MAX,
            y <= h,
            out@.len() == 4 * ((y as int) * (ppr as int)),
            forall|i: int| 0 <= i < out@.len() ==> out@[i] == #[trigger] yuyv_spec(
                frame.data@, w as int, h as int)[i],
        decreases h - y,
    {
        let mut p: usize = 0;
        while p < ppr
            invariant
                frame.wf(),
                w == frame.width,
                h == frame.height,
                n_bytes == frame.data@.len(),
                ppr == pairs_per_row(w as int),
                yuyv_len(w as int, h as int) <= usize::MAX,
                y < h,
                p <= ppr,
                out@.len() == 4 * ((y as int) * (ppr as int) + p as int),
                forall|i: int| 0 <= i < out@.len() ==> out@[i] == #[trigger] yuyv_spec(
                    frame.data@, w as int, h as int)[i],
            decreases ppr - p,
        {
            proof {
                assert(2 * (p as int) < w as int);
                lemma_pixel_index(2 * (p as int), y as int, w as int, h as int);
            }
            let x0: usize = 2 * p;
            let x1: usize = if x0 + 1 < w as usize {
                x0 + 1
            } else {
                x0
            };
            proof {
                lemma_pixel_index(x1 as int, y as int, w as int, h as int);
            }
            let row_base: usize = y * (w as usize);
            let idx0: usize = 3 * (row_base + x0);
            let idx1: usize = 3 * (row_base + x1);
            let (y0, u0, v0) = rgb_to_yuv(frame.data[idx0], frame.data[idx0 + 1], frame.data[idx0 + 2]);
            let (y1, u1, v1) = rgb_to_yuv(frame.data[idx1], frame.data[idx1 + 1], frame.data[idx1 + 2]);
            let ua: u8 = (((u0 as u16) + (u1 as u16)) / 2) as u8;
            let va: u8 = (((v0 as u16) + (v1 as u16)) / 2) as u8;
            proof {
                let pair = (y as int) * (ppr as int) + (p as int);
                lemma_fundamental_div_mod_converse(pair, ppr as int, y as int, p as int);
                lemma_fundamental_div_mod_converse(4 * pair + 0, 4, pair, 0);
                lemma_fundamental_div_mod_converse(4 * pair + 1, 4, pair, 1);
                lemma_fundamental_div_mod_converse(4 * pair + 2, 4, pair, 2);
                lemma_fundamental_div_mod_converse(4 * pair + 3, 4, pair, 3);
                lemma_pixel_index(p as int, y as int, ppr as int, h as int);
                assert((ppr as int) * (h as int) == (h as int) * (ppr as int)) by (nonlinear_arith);
            }
            out.push(y0);
            out.push(ua);
            out.push(y1);
            out.push(va);
            p = p + 1;
        }
        proof {
            assert(((y as int) + 1) * (ppr as int) == (y as int) * (ppr as int) + (ppr as int))
                by (nonlinear_arith);
        }
        y = y + 1;
    }
    proof {
        assert(out@ =~= yuyv_spec(frame.data@, w as int, h as int));
    }
    out
}

/// Encodes a frame for the output device: resizes it to the device's
/// resolution when the dimensions differ (a no-op otherwise), then
/// encodes the result as a 4:2:2 (YUYV) stream.
pub fn encode_output_frame(frame: &Frame, out_width: u32, out_height: u32) -> (out: Vec<u8>)
    requires
        frame.wf(),
        3 * ((out_width as int) * (out_height as int)) <= usize::MAX,
        yuyv_len(out_width as int, out_height as int) <= usize::MAX,
    ensures
        out@ == yuyv_spec(resized_rgb(*frame, out_width as int, out_height as int),
            out_width as int, out_height as int),
        out@.len() == yuyv_len(out_width as int, out_height as int),
{
    if frame.width == out_width && frame.height == out_height {
        rgb_to_yuyv(frame)
    } else {
        let data = resize_rgb(&frame.data, frame.width, frame.height, out_width, out_height);
        let resized = Frame { width: out_width, height: out_height, data };
        rgb_to_yuyv(&resized)
    }
}

} // verus!
