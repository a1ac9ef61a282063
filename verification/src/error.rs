use vstd::prelude::*;

verus! {

/// Why a stage of the pipeline refused its input.
#[derive(Clone, Copy, Debug, PartialEq, Eq, Structural)]
pub enum TransformError {
    /// The window `start .. start + n` reaches past the end of the signal.
    WindowOutOfRange,
    /// The spectrum does not hold exactly as many bins as the transform size.
    BinCountMismatch,
    /// The rebuilt value at `index` lies outside the range of a sample.
    SampleOverflow { index: usize },
}

} // verus!
