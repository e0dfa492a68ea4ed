//! Frame-loop bookkeeping: per-stage timing statistics with a fixed
//! reporting cadence, frame-rate pacing, and the choice of which
//! frame to hand the output device.

use vstd::prelude::*;
use crate::frame::Frame;
use crate::preprocess::{gray_rgb_spec, Preprocessor};

verus! {

/// A statistics report is emitted every this many frames.
pub const REPORT_EVERY: u64 = 30;

/// Saturating 64-bit addition: a running sum never wraps, it pins at
/// the maximum.
pub open spec fn sat_add(a: u64, b: u64) -> u64 {
    if a + b > u64::MAX {
        u64::MAX
    } else {
        (a + b) as u64
    }
}

/// Running per-stage time sums, in nanoseconds, and a frame counter.
#[derive(Clone, Copy, Debug, PartialEq, Eq, Structural)]
pub struct PipelineStats {
    pub frame_count: u64,
    pub capture_ns: u64,
    pub segment_ns: u64,
    pub output_ns: u64,
}

impl PipelineStats {
    /// Fresh statistics: nothing counted yet.
    pub fn new() -> (r: PipelineStats)
        ensures
            r == (PipelineStats { frame_count: 0, capture_ns: 0, segment_ns: 0, output_ns: 0 }),
    {
        PipelineStats { frame_count: 0, capture_ns: 0, segment_ns: 0, output_ns: 0 }
    }

    /// Accounts one completed iteration: adds each stage's elapsed
    /// time to its running sum (saturating) and counts the frame.
    pub fn record_frame(&mut self, capture_ns: u64, segment_ns: u64, output_ns: u64)
        requires
            old(self).frame_count < u64::MAX,
        ensures
            final(self).frame_count == old(self).frame_count + 1,
            final(self).capture_ns == sat_add(old(self).capture_ns, capture_ns),
            final(self).segment_ns == sat_add(old(self).segment_ns, segment_ns),
            final(self).output_ns == sat_add(old(self).output_ns, output_ns),
    {
        self.frame_count = self.frame_count + 1;
        self.capture_ns = self.capture_ns.saturating_add(capture_ns);
        self.segment_ns = self.segment_ns.saturating_add(segment_ns);
        self.output_ns = self.output_ns.saturating_add(output_ns);
    }

    /// Whether a report is due: exactly on every 30th counted frame.
    pub fn should_report(&self) -> (r: bool)
        ensures
            r == (self.frame_count > 0 && self.frame_count % REPORT_EVERY == 0),
    {
        self.frame_count > 0 && self.frame_count % REPORT_EVERY == 0
    }

    /// Average per-stage time over the counted frames, in
    /// nanoseconds: (capture, segment, output).
    pub fn averages_ns(&self) -> (r: (u64, u64, u64))
        requires
            self.frame_count > 0,
        ensures
            r.0 == self.capture_ns / self.frame_count,
            r.1 == self.segment_ns / self.frame_count,
            r.2 == self.output_ns / self.frame_count,
    {
        (
            self.capture_ns / self.frame_count,
            self.segment_ns / self.frame_count,
            self.output_ns / self.frame_count,
        )
    }
}

/// The time budget of one frame at the target rate, in nanoseconds.
pub fn frame_period_ns(target_fps: u32) -> (r: u64)
    requires
        target_fps > 0,
    ensures
        r == 1_000_000_000u64 / (target_fps as u64),
{
    1_000_000_000u64 / (target_fps as u64)
}

/// How long the loop should sleep after an iteration: the remainder
/// of the frame period, and nothing (no catch-up) once the iteration
/// has already overrun it.
pub fn pacing_sleep_ns(period_ns: u64, elapsed_ns: u64) -> (r: u64)
    ensures
        elapsed_ns < period_ns ==> r == period_ns - elapsed_ns,
        elapsed_ns >= period_ns ==> r == 0,
{
    if elapsed_ns < period_ns {
        period_ns - elapsed_ns
    } else {
        0
    }
}

/// The frame handed to the output device each iteration: the matte's
/// grayscale visualization when a matte was computed and matte view
/// is on; otherwise the captured frame unmodified (a computed matte
/// is groundwork for compositing and is intentionally unused there).
pub fn select_output_frame(frame: Frame, matte: Option<&Vec<u8>>, show_matte: bool) -> (out: Frame)
    requires
        frame.wf(),
        matte is Some ==> matte->0@.len() == (frame.width as int) * (frame.height as int),
    ensures
        out.wf(),
        out.width == frame.width,
        out.height == frame.height,
        (matte is Some && show_matte) ==> out.data@ == gray_rgb_spec(matte->0@),
        !(matte is Some && show_matte) ==> out == frame,
{
    let width: u32 = frame.width;
    let height: u32 = frame.height;
    let buffer_len: usize = frame.data.len();
    proof {
        assert(3 * ((width as int) * (height as int)) == buffer_len);
    }
    if show_matte {
        match matte {
            Some(m) => Preprocessor::matte_to_rgb(m, width, height),
            None => frame,
        }
    } else {
        frame
    }
}

} // verus!
