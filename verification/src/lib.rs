//! Real-time video matting pipeline core: colorspace encoding, tensor
//! preprocessing, recurrent segmentation state management, matte
//! postprocessing, and frame-loop bookkeeping.
//!
//! The inference engine itself (the segmentation network), the camera
//! and the loopback device are collaborators outside this crate; the
//! crate states and verifies everything around them. Float samples
//! never enter the core: a hidden-state sample travels as its raw
//! 32-bit pattern, a frame sample as its 8-bit color value, and a
//! matte sample as its 8-bit intensity; callers convert at the
//! boundary.

pub mod codec;
pub mod errors;
pub mod frame;
pub mod pipeline;
pub mod preprocess;
pub mod resize;
pub mod rvm;
pub mod tensor;
