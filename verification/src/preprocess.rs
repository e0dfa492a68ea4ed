//! Tensor preprocessing and matte postprocessing around the
//! segmentation model: resizing a frame to the model's input
//! resolution and repacking it channel-first, resizing a matte back to
//! frame resolution, and rendering a matte as a grayscale RGB image.

use vstd::prelude::*;
use vstd::arithmetic::div_mod::lemma_fundamental_div_mod_converse;
use vstd::arithmetic::mul::lemma_mul_nonnegative;
use crate::errors::FormatError;
use crate::frame::{copy_bytes, Frame};
use crate::resize::{lanczos_gray, resize_gray, resize_rgb, resized_rgb};
use crate::tensor::FrameTensor;

verus! {

/// The channel-first repacking of an RGB buffer of `w` x `h` pixels:
/// all red samples, then all green, then all blue, row-major within
/// each channel.
pub open spec fn chw_spec(data: Seq<u8>, w: int, h: int) -> Seq<u8> {
    Seq::new((3 * (w * h)) as nat, |i: int| data[3 * (i % (w * h)) + i / (w * h)])
}

/// The matte bytes after postprocessing from `mw` x `mh` to
/// `tw` x `th`: untouched when the dimensions already match, else
/// resampled.
pub open spec fn postprocess_spec(m: Seq<u8>, mw: int, mh: int, tw: int, th: int) -> Seq<u8> {
    if mw == tw && mh == th {
        m
    } else {
        lanczos_gray(m, mw, mh, tw, th)
    }
}

/// Postprocessing a matte to its own dimensions returns it exactly.
pub proof fn lemma_postprocess_identity(m: Seq<u8>, w: int, h: int)
    ensures
        postprocess_spec(m, w, h, w, h) == m,
{
}

/// The grayscale-in-RGB rendering of a matte: every pixel's three
/// channels equal the matte's intensity at that pixel.
pub open spec fn gray_rgb_spec(m: Seq<u8>) -> Seq<u8> {
    Seq::new(3 * m.len(), |i: int| m[i / 3])
}

/// Converts RGB frames into the model's normalized channel-first
/// input layout at a fixed target resolution.
#[derive(Clone, Copy, Debug, PartialEq, Eq, Structural)]
pub struct Preprocessor {
    pub target_width: u32,
    pub target_height: u32,
}

impl Preprocessor {
    /// The target resolution describes a buffer a machine can hold.
    pub open spec fn wf(&self) -> bool {
        3 * ((self.target_width as int) * (self.target_height as int)) <= usize::MAX
    }

    pub fn new(target_width: u32, target_height: u32) -> (r: Preprocessor)
        requires
            3 * ((target_width as int) * (target_height as int)) <= usize::MAX,
        ensures
            r == (Preprocessor { target_width, target_height }),
            r.wf(),
    {
        Preprocessor { target_width, target_height }
    }

    /// Resizes a frame to the target resolution (a no-op when the
    /// dimensions already match) and repacks it channel-first, batch
    /// size 1. Each sample stands for the byte's value normalized by
    /// 255. Fails exactly on a frame with a zero dimension.
    pub fn preprocess(&self, frame: &Frame) -> (r: Result<FrameTensor, FormatError>)
        requires
            self.wf(),
            frame.wf(),
        ensures
            r is Ok <==> (frame.width > 0 && frame.height > 0),
            r is Err ==> r == Err::<FrameTensor, FormatError>(FormatError::ZeroDimension),
            r is Ok ==> ({
                let t = r->Ok_0;
                &&& t.wf()
                &&& t.width == self.target_width
                &&& t.height == self.target_height
                &&& t.data@ == chw_spec(
                    resized_rgb(*frame, self.target_width as int, self.target_height as int),
                    self.target_width as int,
                    self.target_height as int,
                )
            }),
    {
        if frame.width == 0 || frame.height == 0 {
            return Err(FormatError::ZeroDimension);
        }
        let tw: u32 = self.target_width;
        let th: u32 = self.target_height;
        let resized: Vec<u8> = if frame.width == tw && frame.height == th {
            copy_bytes(&frame.data)
        } else {
            resize_rgb(&frame.data, frame.width, frame.height, tw, th)
        };
        proof {
            lemma_mul_nonnegative(tw as int, th as int);
        }
        let hw: usize = (tw as usize) * (th as usize);
        let ghost rs: Seq<u8> = resized_rgb(*frame, tw as int, th as int);
        let mut out: Vec<u8> = Vec::new();
        let mut c: usize = 0;
        while c < 3
            invariant
                c <= 3,
                hw == (tw as int) * (th as int),
                3 * (hw as int) <= usize::MAX,
                resized@ == rs,
                resized@.len() == 3 * (hw as int),
                out@.len() == c * (hw as int),
                forall|i: int| 0 <= i < out@.len() ==> out@[i] == #[trigger] chw_spec(
                    rs, tw as int, th as int)[i],
            decreases 3 - c,
        {
            let mut p: usize = 0;
            while p < hw
                invariant
                    c < 3,
                    p <= hw,
                    hw == (tw as int) * (th as int),
                    3 * (hw as int) <= usize::MAX,
                    resized@ == rs,
                    resized@.len() == 3 * (hw as int),
                    out@.len() == c * (hw as int) + p,
                    forall|i: int| 0 <= i < out@.len() ==> out@[i] == #[trigger] chw_spec(
                        rs, tw as int, th as int)[i],
                decreases hw - p,
            {
                proof {
                    lemma_mul_nonnegative(c as int, hw as int);
                    assert(c * (hw as int) + hw <= 3 * (hw as int)) by (nonlinear_arith)
                        requires
                            c < 3,
                            0 <= hw,
                    ;
                    lemma_fundamental_div_mod_converse(
                        (c * (hw as int) + p) as int, hw as int, c as int, p as int);
                }
                out.push(resized[3 * p + c]);
                p = p + 1;
            }
            proof {
                assert(c * (hw as int) + hw == (c + 1) * (hw as int)) by (nonlinear_arith);
            }
            c = c + 1;
        }
        proof {
            assert(out@ =~= chw_spec(rs, tw as int, th as int));
        }
        Ok(FrameTensor { width: tw, height: th, data: out })
    }

    /// Resizes a matte of `matte_width` x `matte_height` intensities
    /// to the target dimensions. When the dimensions already match,
    /// the matte comes back untouched, exactly.
    pub fn postprocess_matte(
        matte: &Vec<u8>,
        matte_width: u32,
        matte_height: u32,
        target_width: u32,
        target_height: u32,
    ) -> (r: Vec<u8>)
        requires
            matte@.len() == (matte_width as int) * (matte_height as int),
            (target_width as int) * (target_height as int) <= usize::MAX,
        ensures
            r@ == postprocess_spec(matte@, matte_width as int, matte_height as int,
                target_width as int, target_height as int),
            r@.len() == (target_width as int) * (target_height as int),
    {
        if matte_width == target_width && matte_height == target_height {
            copy_bytes(matte)
        } else {
            resize_gray(matte, matte_width, matte_height, target_width, target_height)
        }
    }

    /// Renders a matte as a grayscale RGB frame of the matte's own
    /// dimensions: every channel of pixel `p` equals the matte's
    /// intensity at `p`.
    pub fn matte_to_rgb(matte: &Vec<u8>, width: u32, height: u32) -> (r: Frame)
        requires
            matte@.len() == (width as int) * (height as int),
            3 * ((width as int) * (height as int)) <= usize::MAX,
        ensures
            r.width == width,
            r.height == height,
            r.wf(),
            r.data@ == gray_rgb_spec(matte@),
    {
        let n: usize = matte.len();
        let mut out: Vec<u8> = Vec::new();
        let mut p: usize = 0;
        while p < n
            invariant
                p <= n,
                n == matte@.len(),
                3 * (n as int) <= usize::MAX,
                out@.len() == 3 * p,
                forall|i: int| 0 <= i < out@.len() ==> out@[i] == #[trigger] gray_rgb_spec(
                    matte@)[i],
            decreases n - p,
        {
            let v: u8 = matte[p];
            out.push(v);
            out.push(v);
            out.push(v);
            proof {
                let pi = p as int;
                lemma_fundamental_div_mod_converse(3 * pi + 0, 3, pi, 0);
                lemma_fundamental_div_mod_converse(3 * pi + 1, 3, pi, 1);
                lemma_fundamental_div_mod_converse(3 * pi + 2, 3, pi, 2);
            }
            p = p + 1;
        }
        proof {
            assert(out@ =~= gray_rgb_spec(matte@));
        }
        Frame { width, height, data: out }
    }
}

} // verus!
