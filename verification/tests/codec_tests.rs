use webcam_fx::codec::{encode_output_frame, rgb_to_bgra, rgb_to_yuv, rgb_to_yuyv};
use webcam_fx::frame::Frame;

fn frame_of(width: u32, height: u32, pixels: &[(u8, u8, u8)]) -> Frame {
    assert_eq!(pixels.len(), (width * height) as usize);
    let mut data = Vec::new();
    for &(r, g, b) in pixels {
        data.push(r);
        data.push(g);
        data.push(b);
    }
    Frame::from_raw(width, height, data).expect("well-formed frame")
}

#[test]
fn bgra_of_red_and_black() {
    let f = frame_of(2, 1, &[(255, 0, 0), (0, 0, 0)]);
    let out = rgb_to_bgra(&f);
    assert_eq!(out, vec![0, 0, 255, 255, 0, 0, 0, 255]);
}

#[test]
fn bgra_length_and_alpha() {
    let f = frame_of(3, 2, &[(1, 2, 3); 6]);
    let out = rgb_to_bgra(&f);
    assert_eq!(out.len(), 3 * 2 * 4);
    for p in 0..6 {
        assert_eq!(out[4 * p], 3);
        assert_eq!(out[4 * p + 1], 2);
        assert_eq!(out[4 * p + 2], 1);
        assert_eq!(out[4 * p + 3], 255);
    }
}

#[test]
fn yuv_of_primary_colors() {
    // Fixed-point: Y = (299 R + 587 G + 114 B) / 1000, truncated.
    assert_eq!(rgb_to_yuv(255, 0, 0), (76, 90, 255));
    assert_eq!(rgb_to_yuv(0, 255, 0), (149, 54, 0));
    assert_eq!(rgb_to_yuv(0, 0, 255), (29, 239, 102));
    assert_eq!(rgb_to_yuv(0, 0, 0), (0, 128, 128));
}

#[test]
fn yuyv_of_uniform_white_even_width() {
    let f = frame_of(4, 2, &[(255, 255, 255); 8]);
    let out = rgb_to_yuyv(&f);
    assert_eq!(out.len(), 4 * 2 * 2);
    for group in out.chunks(4) {
        assert_eq!(group, &[255, 128, 255, 128]);
    }
}

#[test]
fn yuyv_odd_width_duplicates_trailing_pixel() {
    // One pixel per row: the trailing pixel forms its own pair.
    let f = frame_of(1, 1, &[(255, 0, 0)]);
    let out = rgb_to_yuyv(&f);
    assert_eq!(out, vec![76, 90, 76, 255]);
}

#[test]
fn yuyv_averages_chroma_within_a_pair() {
    let f = frame_of(2, 1, &[(255, 0, 0), (0, 0, 255)]);
    let out = rgb_to_yuyv(&f);
    // U = (90 + 239) / 2 = 164, V = (255 + 102) / 2 = 178.
    assert_eq!(out, vec![76, 164, 29, 178]);
}

#[test]
fn yuyv_odd_width_beyond_one_pixel() {
    // Three pixels per row: the pair (red, blue), then green alone,
    // duplicated as its own pair.
    let f = frame_of(3, 1, &[(255, 0, 0), (0, 0, 255), (0, 255, 0)]);
    let out = rgb_to_yuyv(&f);
    assert_eq!(out, vec![76, 164, 29, 178, 149, 54, 149, 0]);
}

#[test]
fn encode_output_without_resize_matches_yuyv() {
    let f = frame_of(2, 2, &[(10, 20, 30), (40, 50, 60), (70, 80, 90), (200, 210, 220)]);
    let direct = rgb_to_yuyv(&f);
    let encoded = encode_output_frame(&f, 2, 2);
    assert_eq!(encoded, direct);
}

#[test]
fn encode_output_resizes_to_device_resolution() {
    let f = frame_of(4, 4, &[(200, 200, 200); 16]);
    let encoded = encode_output_frame(&f, 2, 2);
    assert_eq!(encoded.len(), 2 * 2 * 2);
}
