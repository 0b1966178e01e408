use vstd::prelude::*;

verus! {

/// Failures that a layer reports to its driver.
#[derive(PartialEq, Eq, Structural, Debug, Clone, Copy)]
pub enum LayerError {
    /// Operands whose dimensions do not fit together.
    ShapeMismatch,
    /// `backward` was asked for before any `forward`.
    StateNotReady,
}

} // verus!
