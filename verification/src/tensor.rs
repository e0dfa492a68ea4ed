//! Numeric arrays moved between the pipeline and the inference engine.
//!
//! The engine computes on float32 samples; the core never reads those
//! samples, only their layout. A recurrent-state sample is therefore
//! carried as its raw 32-bit pattern (`u32`), which preserves it
//! bit for bit, and a frame sample as the 8-bit color value it was
//! normalized from (the value `s` stands for `s / 255`).

use vstd::prelude::*;

verus! {

/// The model-input tensor: 3 channels of `height` x `width` samples in
/// channel-first order (all red samples, then green, then blue,
/// row-major within each channel), batch size 1. A sample `s` stands
/// for the normalized value `s / 255`.
#[derive(Clone, Debug, PartialEq, Eq)]
pub struct FrameTensor {
    pub width: u32,
    pub height: u32,
    pub data: Vec<u8>,
}

impl FrameTensor {
    /// The buffer holds one sample per channel and pixel.
    pub open spec fn wf(&self) -> bool {
        self.data@.len() == 3 * ((self.width as int) * (self.height as int))
    }
}

/// A recurrent hidden-state tensor of shape
/// (batch, channels, height, width), each float32 sample carried as
/// its raw bit pattern.
#[derive(Clone, Debug, PartialEq, Eq)]
pub struct Tensor {
    pub batch: usize,
    pub channels: usize,
    pub height: usize,
    pub width: usize,
    pub data: Vec<u32>,
}

/// An all-zero tensor of shape (1, c, h, w): float32 zero is the
/// all-zero bit pattern.
pub open spec fn zero_tensor(t: Tensor, c: int, h: int, w: int) -> bool {
    &&& t.batch == 1
    &&& t.channels == c
    &&& t.height == h
    &&& t.width == w
    &&& t.wf()
    &&& forall|i: int| 0 <= i < t.data@.len() ==> t.data@[i] == 0
}

impl Tensor {
    /// The buffer holds one sample per coordinate of the shape.
    pub open spec fn wf(&self) -> bool {
        self.data@.len() == (self.batch as int) * ((self.channels as int)
            * ((self.height as int) * (self.width as int)))
    }

    /// The same shape and, bit for bit, the same samples.
    pub open spec fn eqv(&self, other: Tensor) -> bool {
        &&& self.batch == other.batch
        &&& self.channels == other.channels
        &&& self.height == other.height
        &&& self.width == other.width
        &&& self.data@ == other.data@
    }

    /// Builds the all-zero tensor of shape (1, c, h, w).
    pub fn zeros(c: usize, h: usize, w: usize) -> (t: Tensor)
        requires
            (h as int) * (w as int) <= usize::MAX,
            (c as int) * ((h as int) * (w as int)) <= usize::MAX,
        ensures
            zero_tensor(t, c as int, h as int, w as int),
    {
        proof {
            vstd::arithmetic::mul::lemma_mul_nonnegative(h as int, w as int);
            vstd::arithmetic::mul::lemma_mul_nonnegative(c as int, (h as int) * (w as int));
        }
        let hw: usize = h * w;
        let n: usize = c * hw;
        let mut data: Vec<u32> = Vec::new();
        let mut i: usize = 0;
        while i < n
            invariant
                i <= n,
                data@.len() == i,
                forall|j: int| 0 <= j < i ==> data@[j] == 0,
            decreases n - i,
        {
            data.push(0);
            i = i + 1;
        }
        Tensor { batch: 1, channels: c, height: h, width: w, data }
    }

    /// An element-for-element copy.
    pub fn duplicate(&self) -> (t: Tensor)
        ensures
            t.eqv(*self),
    {
        let mut data: Vec<u32> = Vec::new();
        let mut i: usize = 0;
        let n: usize = self.data.len();
        while i < n
            invariant
                i <= n,
                n == self.data@.len(),
                data@ == self.data@.subrange(0, i as int),
            decreases n - i,
        {
            data.push(self.data[i]);
            proof {
                assert(data@ =~= self.data@.subrange(0, i + 1));
            }
            i = i + 1;
        }
        proof {
            assert(self.data@.subrange(0, n as int) =~= self.data@);
        }
        Tensor {
            batch: self.batch,
            channels: self.channels,
            height: self.height,
            width: self.width,
            data,
        }
    }
}

/// A tensor as handed back by the inference engine: its announced
/// shape, of any rank, and its float32 samples as raw bit patterns.
#[derive(Clone, Debug, PartialEq, Eq)]
pub struct RawTensor {
    pub dims: Vec<usize>,
    pub data: Vec<u32>,
}

} // verus!
