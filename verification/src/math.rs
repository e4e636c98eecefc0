use vstd::prelude::*;

use crate::errors::EngineError;
use crate::linalg::{is_matrix, row_len_all, with_bias};
use crate::scalar::Scalar;

verus! {

/// The hypothesis a gradient step descends on: the affine prediction
/// `θ₀ + Σ θ_j · x_{j-1}`, or the same value passed through the sigmoid.
/// One step routine serves both kinds of regression; only the prediction
/// differs.
#[derive(Clone, Copy, Debug, PartialEq, Eq, Structural)]
pub enum Hypothesis {
    Linear,
    Logistic,
}

/// The logistic function `1 / (1 + e^(-x))`, as the caller's scalar type
/// implements it.
pub fn sigmoid<S: Scalar>(v: S) -> S {
    v.sigmoid()
}

/// The prediction `h(θ, x)` for one example: affine for `Hypothesis::Linear`,
/// sigmoid of affine for `Hypothesis::Logistic`.
pub fn predict<S: Scalar>(theta: &Vec<S>, x: &Vec<S>, hypothesis: Hypothesis) -> S
    requires
        theta@.len() == x@.len() + 1,
{
    let mut acc = S::zero();
    let mut j: usize = 0;
    while j < theta.len()
        invariant
            theta@.len() == x@.len() + 1,
            j <= theta@.len(),
        decreases theta@.len() - j,
    {
        let factor = if j > 0 { x[j - 1] } else { S::one() };
        acc = acc.plus(theta[j].times(factor));
        j += 1;
    }
    match hypothesis {
        Hypothesis::Linear => acc,
        Hypothesis::Logistic => sigmoid(acc),
    }
}

/// The logistic prediction `h_log(θ, x) = sigmoid(θ₀ + Σ θ_j · x_{j-1})`.
pub fn logistic_regression_predict<S: Scalar>(theta: &Vec<S>, x: &Vec<S>) -> S
    requires
        theta@.len() == x@.len() + 1,
{
    predict(theta, x, Hypothesis::Logistic)
}

/// The parameter vector, feature matrix and target vector agree: `θ` has one
/// weight per feature plus the bias, every feature row has the same width,
/// and there is one target per example.
pub open spec fn step_shape_ok<S>(theta: Seq<S>, xs: Seq<Vec<S>>, ys: Seq<S>) -> bool {
    &&& ys.len() == xs.len()
    &&& theta.len() >= 2
    &&& row_len_all(xs, theta.len() - 1)
}

/// One batch gradient-descent step: `θ'_j = θ_j - α · g_j` with
/// `g_j = (1/n) · Σ_i (h(x_i) - y_i) · φ_j(x_i)`, where `φ_0 ≡ 1` and
/// `φ_j(x) = x_{j-1}` for `j ≥ 1`.
///
/// Returns `EmptyDataset` exactly when there are no examples, and
/// `ShapeMismatch` exactly when the dimensions disagree; otherwise the new
/// parameter vector, always of the same length as `θ`.
pub fn gradient_descent_step<S: Scalar>(
    theta: &Vec<S>,
    learning_rate: S,
    xs: &Vec<Vec<S>>,
    ys: &Vec<S>,
    hypothesis: Hypothesis,
) -> (r: Result<Vec<S>, EngineError>)
    ensures
        xs@.len() == 0 ==> r == Err::<Vec<S>, EngineError>(EngineError::EmptyDataset),
        xs@.len() >= 1 && !step_shape_ok(theta@, xs@, ys@) ==> r == Err::<
            Vec<S>,
            EngineError,
        >(EngineError::ShapeMismatch),
        xs@.len() >= 1 && step_shape_ok(theta@, xs@, ys@) ==> (r matches Ok(t) && t@.len()
            == theta@.len()),
{
    let n = xs.len();
    if n == 0 {
        return Err(EngineError::EmptyDataset);
    }
    if ys.len() != n || theta.len() < 2 {
        return Err(EngineError::ShapeMismatch);
    }
    let d = theta.len() - 1;
    let mut i: usize = 0;
    while i < n
        invariant
            n == xs@.len(),
            n >= 1,
            theta@.len() == d + 1,
            d >= 1,
            i <= n,
            forall|k: int| 0 <= k < i ==> (#[trigger] xs@[k])@.len() == d,
        decreases n - i,
    {
        if xs[i].len() != d {
            assert(xs@[i as int]@.len() != theta@.len() - 1);
            assert(!step_shape_ok(theta@, xs@, ys@));
            return Err(EngineError::ShapeMismatch);
        }
        i += 1;
    }
    assert(row_len_all(xs@, d as int));

    let mut predictions: Vec<S> = Vec::new();
    let mut i: usize = 0;
    while i < n
        invariant
            n == xs@.len(),
            theta@.len() == d + 1,
            row_len_all(xs@, d as int),
            i <= n,
            predictions@.len() == i,
        decreases n - i,
    {
        assert(xs@[i as int]@.len() == d);
        predictions.push(predict(theta, &xs[i], hypothesis));
        i += 1;
    }

    let mut result: Vec<S> = Vec::new();
    let mut j: usize = 0;
    while j < theta.len()
        invariant
            n == xs@.len(),
            n >= 1,
            n == ys@.len(),
            n == predictions@.len(),
            theta@.len() == d + 1,
            row_len_all(xs@, d as int),
            j <= theta@.len(),
            result@.len() == j,
        decreases theta@.len() - j,
    {
        let mut g = S::zero();
        let mut i: usize = 0;
        while i < n
            invariant
                n == xs@.len(),
                n == ys@.len(),
                n == predictions@.len(),
                theta@.len() == d + 1,
                row_len_all(xs@, d as int),
                j < theta@.len(),
                i <= n,
            decreases n - i,
        {
            assert(xs@[i as int]@.len() == d);
            let factor = if j > 0 { xs[i][j - 1] } else { S::one() };
            g = g.plus(predictions[i].minus(ys[i]).times(factor));
            i += 1;
        }
        let step = g.div_count(n).times(learning_rate);
        result.push(theta[j].minus(step));
        j += 1;
    }
    Ok(result)
}

/// One gradient step for linear regression; see [`gradient_descent_step`].
/// The result, when the shapes agree, has the same length as `θ`.
pub fn linear_step<S: Scalar>(
    theta: &Vec<S>,
    learning_rate: S,
    xs: &Vec<Vec<S>>,
    ys: &Vec<S>,
) -> (r: Result<Vec<S>, EngineError>)
    ensures
        xs@.len() == 0 ==> r == Err::<Vec<S>, EngineError>(EngineError::EmptyDataset),
        xs@.len() >= 1 && !step_shape_ok(theta@, xs@, ys@) ==> r == Err::<
            Vec<S>,
            EngineError,
        >(EngineError::ShapeMismatch),
        xs@.len() >= 1 && step_shape_ok(theta@, xs@, ys@) ==> (r matches Ok(t) && t@.len()
            == theta@.len()),
{
    gradient_descent_step(theta, learning_rate, xs, ys, Hypothesis::Linear)
}

/// One gradient step for logistic regression; see [`gradient_descent_step`].
/// The result, when the shapes agree, has the same length as `θ`.
pub fn logistic_step<S: Scalar>(
    theta: &Vec<S>,
    learning_rate: S,
    xs: &Vec<Vec<S>>,
    ys: &Vec<S>,
) -> (r: Result<Vec<S>, EngineError>)
    ensures
        xs@.len() == 0 ==> r == Err::<Vec<S>, EngineError>(EngineError::EmptyDataset),
        xs@.len() >= 1 && !step_shape_ok(theta@, xs@, ys@) ==> r == Err::<
            Vec<S>,
            EngineError,
        >(EngineError::ShapeMismatch),
        xs@.len() >= 1 && step_shape_ok(theta@, xs@, ys@) ==> (r matches Ok(t) && t@.len()
            == theta@.len()),
{
    gradient_descent_step(theta, learning_rate, xs, ys, Hypothesis::Logistic)
}

/// The dataset for the normal equation agrees in shape: `d ≥ 1` features,
/// every row of that width, one target per example.
pub open spec fn dataset_shape_ok<S>(xs: Seq<Vec<S>>, ys: Seq<S>, d: int) -> bool {
    &&& ys.len() == xs.len()
    &&& d >= 1
    &&& row_len_all(xs, d)
}

/// The normal-equation system for unregularised linear least squares: with
/// `X̃` the feature matrix with a column of ones prepended, returns
/// `(X̃ᵀ X̃, X̃ᵀ y)`, a `(d+1) × (d+1)` matrix and a vector of length `d+1`.
/// The closed-form solution `θ* = (X̃ᵀ X̃)⁺ X̃ᵀ y` is the pseudoinverse of the
/// first applied to the second, which is the caller's numeric library's work.
///
/// Returns `EmptyDataset` exactly when there are no examples, and
/// `ShapeMismatch` exactly when rows are ragged, empty, or targets are
/// missing.
pub fn normal_equation_system<S: Scalar>(xs: &Vec<Vec<S>>, ys: &Vec<S>) -> (r: Result<
    (Vec<Vec<S>>, Vec<S>),
    EngineError,
>)
    requires
        xs@.len() >= 1 ==> xs@[0]@.len() < usize::MAX,
    ensures
        xs@.len() == 0 ==> r == Err::<(Vec<Vec<S>>, Vec<S>), EngineError>(
            EngineError::EmptyDataset,
        ),
        xs@.len() >= 1 && !dataset_shape_ok(xs@, ys@, xs@[0]@.len() as int) ==> r == Err::<
            (Vec<Vec<S>>, Vec<S>),
            EngineError,
        >(EngineError::ShapeMismatch),
        xs@.len() >= 1 && dataset_shape_ok(xs@, ys@, xs@[0]@.len() as int) ==> (r matches Ok(sys)
            && is_matrix(sys.0@, xs@[0]@.len() as int + 1, xs@[0]@.len() as int + 1)
            && sys.1@.len() == xs@[0]@.len() + 1),
{
    let n = xs.len();
    if n == 0 {
        return Err(EngineError::EmptyDataset);
    }
    let d = xs[0].len();
    if d == 0 || ys.len() != n {
        return Err(EngineError::ShapeMismatch);
    }
    let mut i: usize = 0;
    while i < n
        invariant
            n == xs@.len(),
            n >= 1,
            n == ys@.len(),
            d == xs@[0]@.len(),
            d >= 1,
            i <= n,
            forall|k: int| 0 <= k < i ==> (#[trigger] xs@[k])@.len() == d,
        decreases n - i,
    {
        if xs[i].len() != d {
            assert(xs@[i as int]@.len() != d);
            assert(!dataset_shape_ok(xs@, ys@, xs@[0]@.len() as int));
            return Err(EngineError::ShapeMismatch);
        }
        i += 1;
    }
    assert(row_len_all(xs@, d as int));

    // X̃: the feature matrix with the bias column of ones prepended.
    let mut xb: Vec<Vec<S>> = Vec::new();
    let mut i: usize = 0;
    while i < n
        invariant
            n == xs@.len(),
            row_len_all(xs@, d as int),
            i <= n,
            is_matrix(xb@, i as int, d + 1),
        decreases n - i,
    {
        assert(xs@[i as int]@.len() == d);
        xb.push(with_bias(&xs[i]));
        i += 1;
    }

    // X̃ᵀ X̃, entry (r, c) = Σ_i X̃[i][r] · X̃[i][c].
    let width = d + 1;
    let mut a: Vec<Vec<S>> = Vec::new();
    let mut r: usize = 0;
    while r < width
        invariant
            n == xs@.len(),
            is_matrix(xb@, n as int, width as int),
            r <= width,
            is_matrix(a@, r as int, width as int),
        decreases width - r,
    {
        let mut row: Vec<S> = Vec::new();
        let mut c: usize = 0;
        while c < width
            invariant
                n == xs@.len(),
                is_matrix(xb@, n as int, width as int),
                r < width,
                c <= width,
                row@.len() == c,
            decreases width - c,
        {
            let mut acc = S::zero();
            let mut i: usize = 0;
            while i < n
                invariant
                    n == xs@.len(),
                    is_matrix(xb@, n as int, width as int),
                    r < width,
                    c < width,
                    i <= n,
                decreases n - i,
            {
                assert(xb@[i as int]@.len() == width);
                acc = acc.plus(xb[i][r].times(xb[i][c]));
                i += 1;
            }
            row.push(acc);
            c += 1;
        }
        a.push(row);
        r += 1;
    }

    // X̃ᵀ y, entry r = Σ_i X̃[i][r] · y_i.
    let mut b: Vec<S> = Vec::new();
    let mut r: usize = 0;
    while r < width
        invariant
            n == xs@.len(),
            n == ys@.len(),
            is_matrix(xb@, n as int, width as int),
            r <= width,
            b@.len() == r,
        decreases width - r,
    {
        let mut acc = S::zero();
        let mut i: usize = 0;
        while i < n
            invariant
                n == xs@.len(),
                n == ys@.len(),
                is_matrix(xb@, n as int, width as int),
                r < width,
                i <= n,
            decreases n - i,
        {
            assert(xb@[i as int]@.len() == width);
            acc = acc.plus(xb[i][r].times(ys[i]));
            i += 1;
        }
        b.push(acc);
        r += 1;
    }

    Ok((a, b))
}

} // verus!
