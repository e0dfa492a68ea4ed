use webcam_fx::errors::EngineError;
use webcam_fx::frame::Frame;
use webcam_fx::rvm::{HiddenState, RobustVideoMatting};
use webcam_fx::tensor::{RawTensor, Tensor};

fn gray_frame(width: u32, height: u32, level: u8) -> Frame {
    Frame::from_raw(width, height, vec![level; (3 * width * height) as usize]).unwrap()
}

fn zero_shape(t: &Tensor, channels: usize, height: usize, width: usize) {
    assert_eq!(t.batch, 1);
    assert_eq!(t.channels, channels);
    assert_eq!(t.height, height);
    assert_eq!(t.width, width);
    assert_eq!(t.data.len(), channels * height * width);
    assert!(t.data.iter().all(|&b| b == 0));
}

/// Six well-shaped outputs: fgr, a 2x2 alpha, and four rank-4 hidden
/// tensors filled with a given bit pattern.
fn good_outputs(bits: u32) -> (Vec<RawTensor>, Vec<u8>) {
    let mut outputs = Vec::new();
    outputs.push(RawTensor { dims: vec![1, 3, 2, 2], data: vec![0; 12] });
    outputs.push(RawTensor { dims: vec![1, 1, 2, 2], data: vec![0; 4] });
    for &c in &[16usize, 20, 24, 28] {
        outputs.push(RawTensor { dims: vec![1, c, 2, 2], data: vec![bits; c * 4] });
    }
    let alpha_levels = vec![10u8, 20, 30, 40];
    (outputs, alpha_levels)
}

#[test]
fn new_engine_has_no_state() {
    let engine = RobustVideoMatting::new(32, 32);
    assert_eq!(engine.state, HiddenState::Uninitialized);
    assert_eq!(engine.input_size(), (32, 32));
}

#[test]
fn first_prepare_initializes_zero_state() {
    let mut engine = RobustVideoMatting::new(32, 32);
    let inputs = engine.prepare_inference(&gray_frame(32, 32, 7)).unwrap();
    // Base spatial size 32/4 = 8, halved per level; channels 16/20/24/28.
    zero_shape(&inputs.r1, 16, 8, 8);
    zero_shape(&inputs.r2, 20, 4, 4);
    zero_shape(&inputs.r3, 24, 2, 2);
    zero_shape(&inputs.r4, 28, 1, 1);
    // The frame tensor carries the frame's bytes channel-first.
    assert_eq!(inputs.src.width, 32);
    assert_eq!(inputs.src.height, 32);
    assert_eq!(inputs.src.data, vec![7u8; 3 * 32 * 32]);
}

#[test]
fn hidden_state_shapes_follow_width_and_height() {
    // Width 64, height 32: base spatial size is (32/4) rows by
    // (64/4) columns, halved per level.
    let mut engine = RobustVideoMatting::new(64, 32);
    let inputs = engine.prepare_inference(&gray_frame(64, 32, 0)).unwrap();
    zero_shape(&inputs.r1, 16, 8, 16);
    zero_shape(&inputs.r2, 20, 4, 8);
    zero_shape(&inputs.r3, 24, 2, 4);
    zero_shape(&inputs.r4, 28, 1, 2);
}

#[test]
fn successful_round_replaces_state_wholesale() {
    let mut engine = RobustVideoMatting::new(32, 32);
    engine.prepare_inference(&gray_frame(2, 2, 0)).unwrap();
    let (outputs, alpha) = good_outputs(0x3F80_0000);
    let matte = engine.absorb_outputs(outputs, alpha.clone(), 2, 2).unwrap();
    // Alpha already at the frame's 2x2 resolution: identity.
    assert_eq!(matte, alpha);
    match &engine.state {
        HiddenState::Initialized { r1, r2, r3, r4 } => {
            assert_eq!(r1.channels, 16);
            assert_eq!(r2.channels, 20);
            assert_eq!(r3.channels, 24);
            assert_eq!(r4.channels, 28);
            assert!(r1.data.iter().all(|&b| b == 0x3F80_0000));
            assert_eq!(r4.data.len(), 28 * 4);
        }
        HiddenState::Uninitialized => panic!("state must be initialized"),
    }
}

#[test]
fn reset_discards_state_and_next_round_restarts_from_zero() {
    let mut engine = RobustVideoMatting::new(32, 32);
    engine.prepare_inference(&gray_frame(2, 2, 0)).unwrap();
    let (outputs, alpha) = good_outputs(0xDEAD_BEEF);
    engine.absorb_outputs(outputs, alpha, 2, 2).unwrap();
    engine.reset_state();
    assert_eq!(engine.state, HiddenState::Uninitialized);
    engine.reset_state(); // idempotent
    assert_eq!(engine.state, HiddenState::Uninitialized);
    let inputs = engine.prepare_inference(&gray_frame(2, 2, 0)).unwrap();
    zero_shape(&inputs.r1, 16, 8, 8);
    zero_shape(&inputs.r2, 20, 4, 4);
    zero_shape(&inputs.r3, 24, 2, 2);
    zero_shape(&inputs.r4, 28, 1, 1);
}

#[test]
fn missing_outputs_fail_without_touching_state() {
    let mut engine = RobustVideoMatting::new(32, 32);
    engine.prepare_inference(&gray_frame(2, 2, 0)).unwrap();
    let (outputs, alpha) = good_outputs(0x0102_0304);
    engine.absorb_outputs(outputs, alpha, 2, 2).unwrap();
    let before = engine.prepare_inference(&gray_frame(2, 2, 9)).unwrap();

    let (mut short, alpha) = good_outputs(0x5555_5555);
    short.pop();
    let r = engine.absorb_outputs(short, alpha, 2, 2);
    assert_eq!(r, Err(EngineError::InferenceFailure));

    // The stored state is, bit for bit, what it was.
    let after = engine.prepare_inference(&gray_frame(2, 2, 9)).unwrap();
    assert_eq!(before.r1, after.r1);
    assert_eq!(before.r2, after.r2);
    assert_eq!(before.r3, after.r3);
    assert_eq!(before.r4, after.r4);
    assert!(after.r1.data.iter().all(|&b| b == 0x0102_0304));
}

#[test]
fn malformed_tensor_fails_without_touching_state() {
    let mut engine = RobustVideoMatting::new(32, 32);
    let before = engine.prepare_inference(&gray_frame(2, 2, 3)).unwrap();

    // Rank 3 where rank 4 is expected.
    let (mut bad, alpha) = good_outputs(0x1111_1111);
    bad[3] = RawTensor { dims: vec![20, 2, 2], data: vec![0; 80] };
    let r = engine.absorb_outputs(bad, alpha, 2, 2);
    assert_eq!(r, Err(EngineError::ShapeMismatch));

    // A data buffer shorter than the announced shape.
    let (mut bad, alpha) = good_outputs(0x1111_1111);
    bad[4] = RawTensor { dims: vec![1, 24, 2, 2], data: vec![0; 5] };
    let r = engine.absorb_outputs(bad, alpha, 2, 2);
    assert_eq!(r, Err(EngineError::ShapeMismatch));

    // An alpha whose size disagrees with the quantized matte.
    let (bad, _) = good_outputs(0x1111_1111);
    let r = engine.absorb_outputs(bad, vec![1, 2, 3], 2, 2);
    assert_eq!(r, Err(EngineError::ShapeMismatch));

    let after = engine.prepare_inference(&gray_frame(2, 2, 3)).unwrap();
    assert_eq!(before.r1, after.r1);
    assert_eq!(before.r2, after.r2);
    assert_eq!(before.r3, after.r3);
    assert_eq!(before.r4, after.r4);
    assert!(after.r1.data.iter().all(|&b| b == 0));
}

#[test]
fn matte_is_postprocessed_to_frame_resolution() {
    let mut engine = RobustVideoMatting::new(32, 32);
    engine.prepare_inference(&gray_frame(4, 4, 0)).unwrap();
    let (outputs, alpha) = good_outputs(0);
    // Frame is 4x4 while the model's alpha is 2x2: the matte is
    // resampled to 16 intensities.
    let matte = engine.absorb_outputs(outputs, alpha, 4, 4).unwrap();
    assert_eq!(matte.len(), 16);
}
