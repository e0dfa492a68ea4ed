use webcam_fx::frame::Frame;
use webcam_fx::pipeline::{
    frame_period_ns, pacing_sleep_ns, select_output_frame, PipelineStats,
};

#[test]
fn stats_report_exactly_every_thirtieth_frame() {
    // Passthrough run: 90 iterations, reports due on frames 30, 60, 90.
    let mut stats = PipelineStats::new();
    let mut reported = Vec::new();
    for _ in 0..90 {
        stats.record_frame(1_000_000, 0, 500_000);
        if stats.should_report() {
            reported.push(stats.frame_count);
        }
    }
    assert_eq!(reported, vec![30, 60, 90]);
}

#[test]
fn stats_average_per_stage() {
    let mut stats = PipelineStats::new();
    stats.record_frame(300, 600, 90);
    stats.record_frame(100, 0, 10);
    stats.record_frame(200, 300, 50);
    assert_eq!(stats.frame_count, 3);
    let (capture, segment, output) = stats.averages_ns();
    assert_eq!(capture, 200);
    assert_eq!(segment, 300);
    assert_eq!(output, 50);
}

#[test]
fn stats_sums_saturate_instead_of_wrapping() {
    let mut stats = PipelineStats::new();
    stats.record_frame(u64::MAX - 5, 0, 0);
    stats.record_frame(100, 0, 0);
    assert_eq!(stats.capture_ns, u64::MAX);
}

#[test]
fn frame_period_of_common_rates() {
    assert_eq!(frame_period_ns(30), 33_333_333);
    assert_eq!(frame_period_ns(60), 16_666_666);
    assert_eq!(frame_period_ns(1), 1_000_000_000);
}

#[test]
fn pacing_sleeps_the_remainder_and_never_catches_up() {
    assert_eq!(pacing_sleep_ns(33_333_333, 10_000_000), 23_333_333);
    assert_eq!(pacing_sleep_ns(33_333_333, 33_333_333), 0);
    assert_eq!(pacing_sleep_ns(33_333_333, 50_000_000), 0);
    assert_eq!(pacing_sleep_ns(0, 0), 0);
}

#[test]
fn passthrough_keeps_the_captured_frame() {
    let frame = Frame::from_raw(2, 2, (0u8..12).collect()).unwrap();
    let out = select_output_frame(frame.clone(), None, false);
    assert_eq!(out, frame);
    let out = select_output_frame(frame.clone(), None, true);
    assert_eq!(out, frame);
    // A computed matte is intentionally unused without matte view.
    let matte = vec![9u8, 9, 9, 9];
    let out = select_output_frame(frame.clone(), Some(&matte), false);
    assert_eq!(out, frame);
}

#[test]
fn matte_view_renders_the_matte_at_frame_resolution() {
    // 100x100 frame; the postprocessed matte has frame resolution, and
    // every output pixel's intensity equals the matte value.
    let frame = Frame::from_raw(100, 100, vec![200u8; 3 * 100 * 100]).unwrap();
    let matte: Vec<u8> = (0..10_000u32).map(|i| (i % 256) as u8).collect();
    let out = select_output_frame(frame, Some(&matte), true);
    assert_eq!(out.width, 100);
    assert_eq!(out.height, 100);
    assert_eq!(out.data.len(), 30_000);
    for (p, &level) in matte.iter().enumerate() {
        assert_eq!(out.data[3 * p], level);
        assert_eq!(out.data[3 * p + 1], level);
        assert_eq!(out.data[3 * p + 2], level);
    }
}

#[test]
fn from_raw_rejects_a_mismatched_buffer() {
    assert!(Frame::from_raw(2, 2, vec![0u8; 11]).is_none());
    assert!(Frame::from_raw(2, 2, vec![0u8; 12]).is_some());
    assert!(Frame::from_raw(0, 0, Vec::new()).is_some());
}
