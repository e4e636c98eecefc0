//! A verified learning engine: gradient descent for linear and logistic
//! regression, the normal-equation system for linear least squares, and the
//! forward/backward pass of a fully-connected feed-forward neural network.
//!
//! The engine is generic over its scalar type: callers supply the scalar
//! arithmetic through the [`scalar::Scalar`] trait, and every routine here is
//! verified for all implementations. The contracts pin down the shape of every
//! vector and matrix the engine produces and say exactly on which inputs each
//! error is returned.

pub mod demo_data;
pub mod driver;
pub mod errors;
pub mod init;
pub mod linalg;
pub mod math;
pub mod network;
pub mod onehot;
pub mod scalar;
