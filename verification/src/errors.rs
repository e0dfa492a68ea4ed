//! Error taxonomy of the pipeline core.

use vstd::prelude::*;

verus! {

/// A buffer's dimensions do not describe its contents.
#[derive(Clone, Copy, Debug, PartialEq, Eq, Structural)]
pub enum FormatError {
    /// A source frame has a zero width or height.
    ZeroDimension,
}

/// A failure of one inference round of the segmentation engine.
#[derive(Clone, Copy, Debug, PartialEq, Eq, Structural)]
pub enum EngineError {
    /// The engine errored, or returned a tensor set without the six
    /// expected entries.
    InferenceFailure,
    /// A returned tensor is not shaped as a 4-dimensional
    /// (batch, channel, row, column) array of the announced size.
    ShapeMismatch,
}

} // verus!
