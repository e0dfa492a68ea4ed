//! RGB frames: a width x height grid of 3-channel 8-bit color samples,
//! stored row-major as `[r, g, b, r, g, b, ...]`.

use vstd::prelude::*;
use vstd::arithmetic::mul::lemma_mul_nonnegative;

verus! {

/// A pixel's row-major index lies below the pixel count.
pub proof fn lemma_pixel_index(x: int, y: int, w: int, h: int)
    requires
        0 <= x < w,
        0 <= y < h,
    ensures
        0 <= y * w + x < w * h,
{
    lemma_mul_nonnegative(y, w);
    assert(y * w + x < (y + 1) * w) by (nonlinear_arith)
        requires
            0 <= x < w,
    ;
    assert((y + 1) * w <= h * w) by (nonlinear_arith)
        requires
            y + 1 <= h,
            0 <= w,
    ;
    assert(h * w == w * h) by (nonlinear_arith);
}

/// An element-for-element copy of a byte buffer.
pub(crate) fn copy_bytes(data: &Vec<u8>) -> (r: Vec<u8>)
    ensures
        r@ == data@,
{
    let mut r: Vec<u8> = Vec::new();
    let mut i: usize = 0;
    let n: usize = data.len();
    while i < n
        invariant
            i <= n,
            n == data@.len(),
            r@ == data@.subrange(0, i as int),
        decreases n - i,
    {
        r.push(data[i]);
        proof {
            assert(r@ =~= data@.subrange(0, i + 1));
        }
        i = i + 1;
    }
    proof {
        assert(data@.subrange(0, n as int) =~= data@);
    }
    r
}

/// An RGB frame. `data` holds `3 * width * height` bytes, row-major,
/// three bytes (red, green, blue) per pixel.
#[derive(Clone, Debug, PartialEq, Eq)]
pub struct Frame {
    pub width: u32,
    pub height: u32,
    pub data: Vec<u8>,
}

impl Frame {
    /// A frame is well formed when its buffer holds exactly one
    /// red, green and blue byte for every pixel.
    pub open spec fn wf(&self) -> bool {
        self.data@.len() == 3 * (self.width * self.height)
    }

    /// The byte of channel `c` (0 = red, 1 = green, 2 = blue) of the
    /// pixel at column `x`, row `y`.
    pub open spec fn sample(&self, x: int, y: int, c: int) -> u8 {
        self.data@[3 * (y * self.width + x) + c]
    }

    /// Builds a frame from a raw RGB buffer; rejects a buffer whose
    /// length does not match the dimensions.
    pub fn from_raw(width: u32, height: u32, data: Vec<u8>) -> (r: Option<Frame>)
        ensures
            r is Some <==> data@.len() == 3 * (width * height),
            r is Some ==> r->Some_0 == (Frame { width, height, data }),
            r is Some ==> r->Some_0.wf(),
    {
        let len: usize = data.len();
        match (width as usize).checked_mul(height as usize) {
            Some(pixels) => match pixels.checked_mul(3) {
                Some(expected) => {
                    if len == expected {
                        Some(Frame { width, height, data })
                    } else {
                        None
                    }
                },
                None => None,
            },
            None => {
                proof {
                    lemma_mul_nonnegative(width as int, height as int);
                }
                None
            },
        }
    }
}

} // verus!
