use vstd::prelude::*;

verus! {

/// Structured failures of the learning engine.
///
/// The engine never panics and never prints: every routine that can fail
/// returns one of these values, and its contract says exactly when.
#[derive(Clone, Copy, Debug, PartialEq, Eq, Structural)]
pub enum EngineError {
    /// A dimension disagreement between parameters, features, targets,
    /// weight matrices or layer sizes.
    ShapeMismatch,
    /// A dataset or mini-batch with no examples.
    EmptyDataset,
    /// A value that an invariant forbids, such as a logarithm of zero in the
    /// network cost.
    NumericalInvariant,
    /// The training driver was asked to stop.
    Cancelled,
}

} // verus!
