//! The recurrent segmentation engine's state machine.
//!
//! The engine owns the four cross-frame hidden-state tensors. Running
//! the network itself is outside work: one round is split into
//! `prepare_inference`, which initializes absent state and hands out
//! the five input tensors, and `absorb_outputs`, which validates what
//! the network returned, replaces the stored state wholesale, and
//! postprocesses the alpha matte. A failed round never touches the
//! stored state.

use vstd::prelude::*;
use vstd::arithmetic::mul::{lemma_mul_nonnegative, lemma_mul_upper_bound};
use crate::errors::{EngineError, FormatError};
use crate::frame::Frame;
use crate::preprocess::{chw_spec, postprocess_spec, Preprocessor};
use crate::resize::resized_rgb;
use crate::tensor::{zero_tensor, FrameTensor, RawTensor, Tensor};

verus! {

/// Reciprocal of the fixed downsample ratio (0.25) that sizes the
/// hidden state from the model's input resolution.
pub const DOWNSAMPLE_DEN: u32 = 4;

/// The model's default input resolution, each dimension.
pub const DEFAULT_INPUT_DIM: u32 = 512;

/// The recurrent hidden state: absent until first use, then always
/// all four tensors together.
#[derive(Debug, PartialEq, Eq)]
pub enum HiddenState {
    Uninitialized,
    Initialized { r1: Tensor, r2: Tensor, r3: Tensor, r4: Tensor },
}

/// The freshly initialized hidden state: four all-zero tensors whose
/// base spatial size is the input resolution scaled by the downsample
/// ratio, halved per level, with 16/20/24/28 channels.
pub open spec fn initial_state_ok(s: HiddenState, width: int, height: int) -> bool {
    let w0 = width / (DOWNSAMPLE_DEN as int);
    let h0 = height / (DOWNSAMPLE_DEN as int);
    &&& s is Initialized
    &&& zero_tensor(s->r1, 16, h0, w0)
    &&& zero_tensor(s->r2, 20, h0 / 2, w0 / 2)
    &&& zero_tensor(s->r3, 24, h0 / 4, w0 / 4)
    &&& zero_tensor(s->r4, 28, h0 / 8, w0 / 8)
}

/// A tensor of the engine's own holds exactly what a returned raw
/// tensor announced: its four axes and, bit for bit, its samples.
pub open spec fn tensor_from_raw(t: Tensor, raw: RawTensor) -> bool {
    &&& t.batch == raw.dims@[0]
    &&& t.channels == raw.dims@[1]
    &&& t.height == raw.dims@[2]
    &&& t.width == raw.dims@[3]
    &&& t.data@ == raw.data@
}

/// A raw tensor is rank 4 and holds one sample per coordinate.
pub open spec fn raw4_wf(t: RawTensor) -> bool {
    &&& t.dims@.len() == 4
    &&& t.data@.len() == (t.dims@[0] as int) * ((t.dims@[1] as int) * ((t.dims@[2] as int)
        * (t.dims@[3] as int)))
}

/// The alpha tensor is rank 4, shaped (1, 1, rows, columns), with
/// axes a device resolution can hold, and the quantized matte holds
/// one intensity per coordinate.
pub open spec fn alpha_wf(t: RawTensor, alpha_len: int) -> bool {
    &&& t.dims@.len() == 4
    &&& t.dims@[0] == 1
    &&& t.dims@[1] == 1
    &&& t.dims@[2] <= u32::MAX
    &&& t.dims@[3] <= u32::MAX
    &&& alpha_len == (t.dims@[3] as int) * (t.dims@[2] as int)
}

/// The six returned tensors are shaped as expected: all rank 4, the
/// alpha matte at index 1, the four updated hidden states at 2..=5.
/// (Index 0, the foreground estimate, is discarded.)
pub open spec fn outputs_ok(outputs: Seq<RawTensor>, alpha_len: int) -> bool {
    &&& outputs[0].dims@.len() == 4
    &&& alpha_wf(outputs[1], alpha_len)
    &&& raw4_wf(outputs[2])
    &&& raw4_wf(outputs[3])
    &&& raw4_wf(outputs[4])
    &&& raw4_wf(outputs[5])
}

/// The five inputs of one inference round: the preprocessed frame and
/// a copy of the four current hidden-state tensors, in the order the
/// network expects them.
pub struct InferenceInputs {
    pub src: FrameTensor,
    pub r1: Tensor,
    pub r2: Tensor,
    pub r3: Tensor,
    pub r4: Tensor,
}

/// The recurrent video-matting engine: a fixed input resolution, the
/// preprocessor for it, and the cross-frame hidden state.
pub struct RobustVideoMatting {
    pub preprocessor: Preprocessor,
    pub width: u32,
    pub height: u32,
    pub state: HiddenState,
}

impl RobustVideoMatting {
    /// The input resolution is positive and small enough that every
    /// derived buffer fits a machine word.
    pub open spec fn wf(&self) -> bool {
        &&& 0 < self.width
        &&& 0 < self.height
        &&& 28 * ((self.width as int) * (self.height as int)) <= usize::MAX
        &&& self.preprocessor == (Preprocessor {
            target_width: self.width,
            target_height: self.height,
        })
    }

    /// Builds an engine with the given input resolution and no
    /// hidden state.
    pub fn new(width: u32, height: u32) -> (r: RobustVideoMatting)
        requires
            0 < width,
            0 < height,
            28 * ((width as int) * (height as int)) <= usize::MAX,
        ensures
            r.wf(),
            r.width == width,
            r.height == height,
            r.state is Uninitialized,
    {
        proof {
            lemma_mul_nonnegative(width as int, height as int);
        }
        RobustVideoMatting {
            preprocessor: Preprocessor::new(width, height),
            width,
            height,
            state: HiddenState::Uninitialized,
        }
    }

    /// Materializes the hidden state as the four all-zero tensors of
    /// the shapes derived from the input resolution.
    fn init_hidden_states(&mut self)
        requires
            old(self).wf(),
        ensures
            final(self).wf(),
            final(self).width == old(self).width,
            final(self).height == old(self).height,
            final(self).preprocessor == old(self).preprocessor,
            initial_state_ok(final(self).state, old(self).width as int, old(self).height as int),
    {
        let w0: usize = (self.width / DOWNSAMPLE_DEN) as usize;
        let h0: usize = (self.height / DOWNSAMPLE_DEN) as usize;
        proof {
            lemma_hidden_alloc(self.width as int, self.height as int, w0 as int, h0 as int);
            lemma_hidden_alloc(self.width as int, self.height as int,
                (w0 / 2) as int, (h0 / 2) as int);
            lemma_hidden_alloc(self.width as int, self.height as int,
                (w0 / 4) as int, (h0 / 4) as int);
            lemma_hidden_alloc(self.width as int, self.height as int,
                (w0 / 8) as int, (h0 / 8) as int);
        }
        let r1 = Tensor::zeros(16, h0, w0);
        let r2 = Tensor::zeros(20, h0 / 2, w0 / 2);
        let r3 = Tensor::zeros(24, h0 / 4, w0 / 4);
        let r4 = Tensor::zeros(28, h0 / 8, w0 / 8);
        self.state = HiddenState::Initialized { r1, r2, r3, r4 };
    }

    /// Begins one inference round: initializes the hidden state to
    /// zero if it is absent (and only then), preprocesses the frame,
    /// and hands out the five input tensors. Fails exactly on a frame
    /// with a zero dimension; the state transition happens first
    /// either way.
    pub fn prepare_inference(&mut self, frame: &Frame) -> (r: Result<InferenceInputs, FormatError>)
        requires
            old(self).wf(),
            frame.wf(),
        ensures
            final(self).wf(),
            final(self).width == old(self).width,
            final(self).height == old(self).height,
            final(self).preprocessor == old(self).preprocessor,
            old(self).state is Uninitialized ==> initial_state_ok(
                final(self).state, old(self).width as int, old(self).height as int),
            old(self).state is Initialized ==> final(self).state == old(self).state,
            r is Ok <==> (frame.width > 0 && frame.height > 0),
            r is Err ==> r == Err::<InferenceInputs, FormatError>(FormatError::ZeroDimension),
            r is Ok ==> ({
                let inp = r->Ok_0;
                &&& inp.src.wf()
                &&& inp.src.width == old(self).width
                &&& inp.src.height == old(self).height
                &&& inp.src.data@ == chw_spec(
                    resized_rgb(*frame, old(self).width as int, old(self).height as int),
                    old(self).width as int, old(self).height as int)
                &&& final(self).state matches HiddenState::Initialized { r1, r2, r3, r4 }
                    && inp.r1.eqv(r1) && inp.r2.eqv(r2) && inp.r3.eqv(r3) && inp.r4.eqv(r4)
            }),
    {
        let needs_init: bool = match &self.state {
            HiddenState::Uninitialized => true,
            HiddenState::Initialized { .. } => false,
        };
        if needs_init {
            self.init_hidden_states();
        }
        proof {
            lemma_mul_nonnegative(self.width as int, self.height as int);
        }
        let src: FrameTensor = match self.preprocessor.preprocess(frame) {
            Ok(t) => t,
            Err(e) => {
                return Err(e);
            },
        };
        match &self.state {
            HiddenState::Initialized { r1, r2, r3, r4 } => Ok(InferenceInputs {
                src,
                r1: r1.duplicate(),
                r2: r2.duplicate(),
                r3: r3.duplicate(),
                r4: r4.duplicate(),
            }),
            HiddenState::Uninitialized => vstd::pervasive::unreached(),
        }
    }

    /// Finishes one inference round. Validates the returned tensor
    /// set: without six entries the round failed; a tensor shaped
    /// otherwise than announced is a shape mismatch. Only a valid set
    /// replaces the stored hidden state, wholesale, with the four
    /// returned tensors; on any failure the state is, bit for bit,
    /// what it was. On success the alpha matte (already quantized to
    /// intensities, one per coordinate of the tensor at index 1) is
    /// postprocessed to the frame's resolution and returned.
    pub fn absorb_outputs(
        &mut self,
        outputs: Vec<RawTensor>,
        alpha_levels: Vec<u8>,
        frame_width: u32,
        frame_height: u32,
    ) -> (r: Result<Vec<u8>, EngineError>)
        requires
            old(self).wf(),
            (frame_width as int) * (frame_height as int) <= usize::MAX,
        ensures
            final(self).wf(),
            final(self).width == old(self).width,
            final(self).height == old(self).height,
            final(self).preprocessor == old(self).preprocessor,
            r is Err ==> *final(self) == *old(self),
            r == Err::<Vec<u8>, EngineError>(EngineError::InferenceFailure)
                <==> outputs@.len() != 6,
            r == Err::<Vec<u8>, EngineError>(EngineError::ShapeMismatch)
                <==> (outputs@.len() == 6 && !outputs_ok(outputs@, alpha_levels@.len() as int)),
            r is Ok <==> (outputs@.len() == 6 && outputs_ok(outputs@, alpha_levels@.len() as int)),
            r is Ok ==> ({
                &&& final(self).state matches HiddenState::Initialized { r1, r2, r3, r4 }
                    && tensor_from_raw(r1, outputs@[2]) && tensor_from_raw(r2, outputs@[3])
                    && tensor_from_raw(r3, outputs@[4]) && tensor_from_raw(r4, outputs@[5])
                &&& r->Ok_0@ == postprocess_spec(alpha_levels@,
                    outputs@[1].dims@[3] as int, outputs@[1].dims@[2] as int,
                    frame_width as int, frame_height as int)
                &&& r->Ok_0@.len() == (frame_width as int) * (frame_height as int)
            }),
    {
        if outputs.len() != 6 {
            return Err(EngineError::InferenceFailure);
        }
        if outputs[0].dims.len() != 4 {
            return Err(EngineError::ShapeMismatch);
        }
        if !check_alpha(&outputs[1], alpha_levels.len()) {
            return Err(EngineError::ShapeMismatch);
        }
        if !check_raw4(&outputs[2]) || !check_raw4(&outputs[3]) || !check_raw4(&outputs[4])
            || !check_raw4(&outputs[5]) {
            return Err(EngineError::ShapeMismatch);
        }
        let matte_width: u32 = outputs[1].dims[3] as u32;
        let matte_height: u32 = outputs[1].dims[2] as u32;

        let mut outputs = outputs;
        let t5: RawTensor = outputs.remove(5);
        let t4: RawTensor = outputs.remove(4);
        let t3: RawTensor = outputs.remove(3);
        let t2: RawTensor = outputs.remove(2);
        self.state = HiddenState::Initialized {
            r1: raw_to_tensor(t2),
            r2: raw_to_tensor(t3),
            r3: raw_to_tensor(t4),
            r4: raw_to_tensor(t5),
        };

        let matte: Vec<u8> = Preprocessor::postprocess_matte(
            &alpha_levels, matte_width, matte_height, frame_width, frame_height);
        Ok(matte)
    }

    /// Discards the hidden state; the next round starts from zero.
    /// Has no failure mode and is idempotent.
    pub fn reset_state(&mut self)
        ensures
            final(self).state is Uninitialized,
            final(self).width == old(self).width,
            final(self).height == old(self).height,
            final(self).preprocessor == old(self).preprocessor,
            old(self).wf() ==> final(self).wf(),
    {
        self.state = HiddenState::Uninitialized;
    }

    /// The fixed input resolution, as (width, height); it never
    /// changes after construction.
    pub fn input_size(&self) -> (r: (u32, u32))
        ensures
            r == (self.width, self.height),
    {
        (self.width, self.height)
    }
}

/// Every hidden-state allocation derived from a quarter-scale (or
/// smaller) spatial size fits a machine word.
proof fn lemma_hidden_alloc(width: int, height: int, w0: int, h0: int)
    requires
        0 <= w0 <= width,
        0 <= h0 <= height,
        0 <= height,
        28 * (width * height) <= usize::MAX,
    ensures
        0 <= h0 * w0 <= usize::MAX,
        28 * (h0 * w0) <= usize::MAX,
        24 * (h0 * w0) <= usize::MAX,
        20 * (h0 * w0) <= usize::MAX,
        16 * (h0 * w0) <= usize::MAX,
{
    lemma_mul_nonnegative(h0, w0);
    lemma_mul_upper_bound(h0, height, w0, width);
    assert(height * width == width * height) by (nonlinear_arith);
}

/// Checks that a returned tensor is rank 4 with one sample per
/// coordinate of its announced shape.
fn check_raw4(t: &RawTensor) -> (ok: bool)
    ensures
        ok == raw4_wf(*t),
{
    if t.dims.len() != 4 {
        return false;
    }
    let d0: usize = t.dims[0];
    let d1: usize = t.dims[1];
    let d2: usize = t.dims[2];
    let d3: usize = t.dims[3];
    let n: usize = t.data.len();
    if d0 == 0 || d1 == 0 || d2 == 0 || d3 == 0 {
        proof {
            lemma_product_with_zero(d0 as int, d1 as int, d2 as int, d3 as int);
        }
        return n == 0;
    }
    match d2.checked_mul(d3) {
        Some(p23) => match d1.checked_mul(p23) {
            Some(p123) => match d0.checked_mul(p123) {
                Some(p) => n == p,
                None => {
                    proof {
                        lemma_mul_nonnegative(d2 as int, d3 as int);
                        lemma_mul_nonnegative(d1 as int, (d2 as int) * (d3 as int));
                    }
                    false
                },
            },
            None => {
                proof {
                    lemma_mul_nonnegative(d2 as int, d3 as int);
                    lemma_product_monotone(d0 as int, d1 as int, d2 as int, d3 as int);
                }
                false
            },
        },
        None => {
            proof {
                lemma_product_monotone(d0 as int, d1 as int, d2 as int, d3 as int);
            }
            false
        },
    }
}

/// A product with a zero factor is zero.
proof fn lemma_product_with_zero(d0: int, d1: int, d2: int, d3: int)
    requires
        d0 == 0 || d1 == 0 || d2 == 0 || d3 == 0,
    ensures
        d0 * (d1 * (d2 * d3)) == 0,
{
    assert(d0 * (d1 * (d2 * d3)) == 0) by (nonlinear_arith)
        requires
            d0 == 0 || d1 == 0 || d2 == 0 || d3 == 0,
    ;
}

/// With positive leading factors, the whole product dominates each
/// partial one.
proof fn lemma_product_monotone(d0: int, d1: int, d2: int, d3: int)
    requires
        1 <= d0,
        1 <= d1,
        0 <= d2,
        0 <= d3,
    ensures
        d2 * d3 <= d0 * (d1 * (d2 * d3)),
        d1 * (d2 * d3) <= d0 * (d1 * (d2 * d3)),
{
    assert(d2 * d3 <= d1 * (d2 * d3) && d1 * (d2 * d3) <= d0 * (d1 * (d2 * d3)))
        by (nonlinear_arith)
        requires
            1 <= d0,
            1 <= d1,
            0 <= d2,
            0 <= d3,
    ;
}

/// Checks the alpha tensor's shape against the quantized matte.
fn check_alpha(t: &RawTensor, alpha_len: usize) -> (ok: bool)
    ensures
        ok == alpha_wf(*t, alpha_len as int),
{
    if t.dims.len() != 4 {
        return false;
    }
    if t.dims[0] != 1 || t.dims[1] != 1 {
        return false;
    }
    let mh: usize = t.dims[2];
    let mw: usize = t.dims[3];
    if mh > u32::MAX as usize || mw > u32::MAX as usize {
        return false;
    }
    match mw.checked_mul(mh) {
        Some(p) => alpha_len == p,
        None => {
            proof {
                lemma_mul_nonnegative(mw as int, mh as int);
            }
            false
        },
    }
}

/// Repacks a returned raw tensor as a hidden-state tensor, keeping
/// its announced axes and its samples bit for bit.
fn raw_to_tensor(t: RawTensor) -> (r: Tensor)
    requires
        t.dims@.len() == 4,
    ensures
        tensor_from_raw(r, t),
{
    Tensor {
        batch: t.dims[0],
        channels: t.dims[1],
        height: t.dims[2],
        width: t.dims[3],
        data: t.data,
    }
}

} // verus!
