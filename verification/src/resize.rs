//! Resampling of RGB and single-channel buffers through the `image`
//! crate's Lanczos3 filter.
//!
//! What the filter computes is named, not restated: `lanczos_rgb` and
//! `lanczos_gray` stand for the resampled bytes, a function of the
//! source buffer and the two pairs of dimensions alone.

use vstd::prelude::*;
use crate::frame::Frame;

verus! {

/// The bytes of an RGB buffer (`3 * (w * h)` bytes, row-major)
/// resampled to `tw` x `th` with the Lanczos3 filter.
pub uninterp spec fn lanczos_rgb(data: Seq<u8>, w: int, h: int, tw: int, th: int) -> Seq<u8>;

/// The bytes of a single-channel buffer (`w * h` bytes, row-major)
/// resampled to `tw` x `th` with the Lanczos3 filter.
pub uninterp spec fn lanczos_gray(data: Seq<u8>, w: int, h: int, tw: int, th: int) -> Seq<u8>;

/// The RGB bytes a stage works on after its resize step: the frame's
/// own bytes when the frame already has the target dimensions, else
/// the resampled bytes.
pub open spec fn resized_rgb(frame: Frame, tw: int, th: int) -> Seq<u8> {
    if frame.width == tw && frame.height == th {
        frame.data@
    } else {
        lanczos_rgb(frame.data@, frame.width as int, frame.height as int, tw, th)
    }
}

/// A stage whose target dimensions already match the frame leaves the
/// frame's bytes untouched: its resize step is a no-op.
pub proof fn lemma_resize_identity(frame: Frame, tw: int, th: int)
    requires
        frame.width == tw,
        frame.height == th,
    ensures
        resized_rgb(frame, tw, th) == frame.data@,
{
}

/// Relies on image::imageops::resize (Lanczos3) over an RgbImage:
/// the result is an image of exactly `tw` x `th` pixels, a function
/// of the source pixels and the dimensions alone.
#[verifier::external_body]
pub(crate) fn resize_rgb(data: &Vec<u8>, w: u32, h: u32, tw: u32, th: u32) -> (out: Vec<u8>)
    requires
        data@.len() == 3 * ((w as int) * (h as int)),
        3 * ((tw as int) * (th as int)) <= usize::MAX,
    ensures
        out@.len() == 3 * ((tw as int) * (th as int)),
        out@ == lanczos_rgb(data@, w as int, h as int, tw as int, th as int),
{
    let img: image::RgbImage =
        image::ImageBuffer::from_raw(w, h, data.clone()).unwrap();
    let resized = image::imageops::resize(&img, tw, th, image::imageops::FilterType::Lanczos3);
    resized.into_raw()
}

/// Relies on image::imageops::resize (Lanczos3) over a GrayImage:
/// the result is an image of exactly `tw` x `th` pixels, a function
/// of the source pixels and the dimensions alone.
#[verifier::external_body]
pub(crate) fn resize_gray(data: &Vec<u8>, w: u32, h: u32, tw: u32, th: u32) -> (out: Vec<u8>)
    requires
        data@.len() == (w as int) * (h as int),
        (tw as int) * (th as int) <= usize::MAX,
    ensures
        out@.len() == (tw as int) * (th as int),
        out@ == lanczos_gray(data@, w as int, h as int, tw as int, th as int),
{
    let img: image::GrayImage =
        image::ImageBuffer::from_raw(w, h, data.clone()).unwrap();
    let resized = image::imageops::resize(&img, tw, th, image::imageops::FilterType::Lanczos3);
    resized.into_raw()
}

} // verus!
