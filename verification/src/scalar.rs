use vstd::prelude::*;

verus! {

/// The scalar arithmetic the engine is built over.
///
/// The engine never fixes a number type of its own: the caller supplies one,
/// together with its arithmetic, by implementing this trait. The trait
/// promises nothing about the values the operations return, so nothing in the
/// library's proofs depends on how an implementation behaves; every contract
/// of the engine holds for every implementation. What the contracts can and
/// do pin down is the shape of every vector and matrix the engine builds and
/// the exact conditions under which it reports an error.
pub trait Scalar: Sized + Copy {
    /// The additive identity, used to start every accumulation.
    fn zero() -> Self;

    /// The multiplicative identity, used for the bias unit.
    fn one() -> Self;

    /// Addition.
    fn plus(self, other: Self) -> Self;

    /// Subtraction.
    fn minus(self, other: Self) -> Self;

    /// Multiplication.
    fn times(self, other: Self) -> Self;

    /// Division by a positive example count.
    fn div_count(self, n: usize) -> Self
        requires
            n >= 1,
    ;

    /// The logistic function `1 / (1 + e^(-x))`.
    fn sigmoid(self) -> Self;

    /// The natural logarithm, used by the cross-entropy cost. Callers of the
    /// engine only reach it after `is_zero` ruled the argument out as zero.
    fn ln(self) -> Self;

    /// Whether the value is exactly zero; guards the logarithm in the cost.
    fn is_zero(&self) -> bool;
}

/// A caller-supplied source of initial weights.
///
/// The engine draws every initial network weight through this trait, so no
/// ambient randomness is used; a deterministic implementation is as valid as
/// a random one. Implementations are expected to return values in `[-1, +1]`,
/// but nothing in the library depends on the values drawn.
pub trait WeightSource<S: Scalar> {
    /// The next weight.
    fn next_weight(&mut self) -> S;
}

} // verus!
