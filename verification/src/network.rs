use vstd::prelude::*;

use crate::errors::EngineError;
use crate::linalg::{hadamard, is_matrix, mat_vec, row_len_all, transpose_mat_vec, with_bias,
    zero_matrix};
use crate::math::sigmoid;
use crate::onehot::OneHot;
use crate::scalar::Scalar;

verus! {

/// The size of layer `l` as the weight matrices imply it: the input layer's
/// size is the width of the first matrix minus its bias column, and every
/// later layer's size is the number of rows of the matrix feeding it.
pub open spec fn layer_size<S>(thetas: Seq<Vec<Vec<S>>>, l: int) -> int {
    if l == 0 {
        thetas[0]@[0]@.len() - 1
    } else {
        thetas[l - 1]@.len() as int
    }
}

/// Weight matrix `l` has the shape the adjacent layers demand:
/// `layer_size(l+1)` rows and `layer_size(l) + 1` columns (the extra column
/// holds the bias weights), with both layers non-empty.
pub open spec fn theta_dims_ok<S>(thetas: Seq<Vec<Vec<S>>>, l: int) -> bool {
    &&& layer_size(thetas, l) >= 1
    &&& layer_size(thetas, l + 1) >= 1
    &&& is_matrix(thetas[l]@, layer_size(thetas, l + 1), layer_size(thetas, l) + 1)
}

/// The weight matrices describe a feed-forward network of at least two
/// layers, every adjacent pair agreeing in shape.
pub open spec fn net_shape_ok<S>(thetas: Seq<Vec<Vec<S>>>) -> bool {
    &&& thetas.len() >= 1
    &&& forall|l: int| 0 <= l < thetas.len() ==> #[trigger] theta_dims_ok(thetas, l)
}

/// The whole batch agrees with the network: every feature row as wide as the
/// input layer, one label per example, every label as wide as the output
/// layer.
pub open spec fn batch_shape_ok<S>(
    thetas: Seq<Vec<Vec<S>>>,
    xs: Seq<Vec<S>>,
    ys: Seq<OneHot>,
) -> bool {
    &&& net_shape_ok(thetas)
    &&& ys.len() == xs.len()
    &&& row_len_all(xs, layer_size(thetas, 0))
    &&& forall|i: int|
        0 <= i < ys.len() ==> (#[trigger] ys[i]).bits@.len() == layer_size(
            thetas,
            thetas.len() as int,
        )
}

/// `g` holds one matrix per weight matrix, each of the same shape as its
/// counterpart — the shape the gradients of the cost must have.
pub open spec fn same_dims_all<S>(g: Seq<Vec<Vec<S>>>, thetas: Seq<Vec<Vec<S>>>) -> bool {
    &&& g.len() == thetas.len()
    &&& forall|l: int|
        0 <= l < thetas.len() ==> is_matrix(
            (#[trigger] g[l])@,
            thetas[l]@.len() as int,
            layer_size(thetas, l) + 1,
        )
}

/// The derivative of the sigmoid at each entry: `s · (1 - s)` with
/// `s = sigmoid(v_i)`. The result has the length of the input.
pub fn sigmoid_gradient<S: Scalar>(v: &Vec<S>) -> (r: Vec<S>)
    ensures
        r@.len() == v@.len(),
{
    let mut r: Vec<S> = Vec::new();
    let mut i: usize = 0;
    while i < v.len()
        invariant
            i <= v@.len(),
            r@.len() == i,
        decreases v@.len() - i,
    {
        let s = sigmoid(v[i]);
        r.push(s.times(S::one().minus(s)));
        i += 1;
    }
    r
}

/// The sigmoid applied to each entry.
fn map_sigmoid<S: Scalar>(v: &Vec<S>) -> (r: Vec<S>)
    ensures
        r@.len() == v@.len(),
{
    let mut r: Vec<S> = Vec::new();
    let mut i: usize = 0;
    while i < v.len()
        invariant
            i <= v@.len(),
            r@.len() == i,
        decreases v@.len() - i,
    {
        r.push(sigmoid(v[i]));
        i += 1;
    }
    r
}

/// Whether the weight matrices form a well-shaped network; decides the
/// `ShapeMismatch` branch of [`get_cost_and_gradient`].
pub fn check_net_shapes<S: Scalar>(thetas: &Vec<Vec<Vec<S>>>) -> (r: bool)
    ensures
        r == net_shape_ok(thetas@),
{
    let el = thetas.len();
    if el == 0 {
        return false;
    }
    let mut l: usize = 0;
    while l < el
        invariant
            el == thetas@.len(),
            el >= 1,
            l <= el,
            forall|k: int| 0 <= k < l ==> #[trigger] theta_dims_ok(thetas@, k),
        decreases el - l,
    {
        let rows = thetas[l].len();
        if rows == 0 {
            assert(!theta_dims_ok(thetas@, l as int));
            return false;
        }
        let cols = thetas[l][0].len();
        if l == 0 {
            if cols < 2 {
                assert(!theta_dims_ok(thetas@, 0));
                return false;
            }
        } else {
            if cols == 0 || cols - 1 != thetas[l - 1].len() {
                assert(thetas@[l as int]@[0]@.len() != layer_size(thetas@, l as int) + 1);
                assert(!theta_dims_ok(thetas@, l as int));
                return false;
            }
        }
        let mut q: usize = 0;
        while q < rows
            invariant
                el == thetas@.len(),
                l < el,
                rows == thetas@[l as int]@.len(),
                cols == thetas@[l as int]@[0]@.len(),
                q <= rows,
                forall|p: int| 0 <= p < q ==> (#[trigger] thetas@[l as int]@[p])@.len() == cols,
            decreases rows - q,
        {
            if thetas[l][q].len() != cols {
                assert((thetas@[l as int]@[q as int])@.len() != cols);
                assert(!is_matrix(
                    thetas@[l as int]@,
                    layer_size(thetas@, l as int + 1),
                    layer_size(thetas@, l as int) + 1,
                ));
                assert(!theta_dims_ok(thetas@, l as int));
                return false;
            }
            q += 1;
        }
        if l > 0 {
            assert(theta_dims_ok(thetas@, l as int - 1));
        }
        assert(theta_dims_ok(thetas@, l as int));
        l += 1;
    }
    assert(net_shape_ok(thetas@));
    true
}

/// The forward pass for one example: returns the activations of every layer,
/// each with its bias unit prepended, and the cached sigmoid gradients of
/// every pre-activation (also bias-prepended), which the backward pass uses.
fn forward_pass<S: Scalar>(thetas: &Vec<Vec<Vec<S>>>, x: &Vec<S>) -> (r: (Vec<Vec<S>>, Vec<Vec<S>>))
    requires
        net_shape_ok(thetas@),
        x@.len() == layer_size(thetas@, 0),
    ensures
        r.0@.len() == thetas@.len() + 1,
        forall|l: int|
            0 <= l <= thetas@.len() ==> (#[trigger] r.0@[l])@.len() == layer_size(thetas@, l) + 1,
        r.1@.len() == thetas@.len(),
        forall|l: int|
            0 <= l < thetas@.len() ==> (#[trigger] r.1@[l])@.len() == layer_size(thetas@, l + 1)
                + 1,
{
    let el = thetas.len();
    let mut activations: Vec<Vec<S>> = Vec::new();
    let mut sgs: Vec<Vec<S>> = Vec::new();
    activations.push(with_bias(x));
    let mut l: usize = 0;
    while l < el
        invariant
            el == thetas@.len(),
            net_shape_ok(thetas@),
            x@.len() == layer_size(thetas@, 0),
            l <= el,
            activations@.len() == l + 1,
            forall|k: int|
                0 <= k <= l ==> (#[trigger] activations@[k])@.len() == layer_size(thetas@, k) + 1,
            sgs@.len() == l,
            forall|k: int|
                0 <= k < l ==> (#[trigger] sgs@[k])@.len() == layer_size(thetas@, k + 1) + 1,
        decreases el - l,
    {
        assert(theta_dims_ok(thetas@, l as int));
        assert(activations@[l as int]@.len() == layer_size(thetas@, l as int) + 1);
        let z = mat_vec(&thetas[l], &activations[l]);
        let zb = with_bias(&z);
        sgs.push(sigmoid_gradient(&zb));
        let az = map_sigmoid(&z);
        activations.push(with_bias(&az));
        l += 1;
    }
    (activations, sgs)
}

/// `mt + delta · aᵀ`: the outer product of the layer error with the layer
/// activation, added entry-wise onto the gradient accumulator.
fn matrix_add_outer<S: Scalar>(mt: &Vec<Vec<S>>, delta: &Vec<S>, a: &Vec<S>) -> (r: Vec<Vec<S>>)
    requires
        is_matrix(mt@, delta@.len() as int, a@.len() as int),
    ensures
        is_matrix(r@, delta@.len() as int, a@.len() as int),
{
    let mut r: Vec<Vec<S>> = Vec::new();
    let mut i: usize = 0;
    while i < delta.len()
        invariant
            is_matrix(mt@, delta@.len() as int, a@.len() as int),
            i <= delta@.len(),
            is_matrix(r@, i as int, a@.len() as int),
        decreases delta@.len() - i,
    {
        assert(mt@[i as int]@.len() == a@.len());
        let mut row: Vec<S> = Vec::new();
        let mut j: usize = 0;
        while j < a.len()
            invariant
                is_matrix(mt@, delta@.len() as int, a@.len() as int),
                i < delta@.len(),
                mt@[i as int]@.len() == a@.len(),
                j <= a@.len(),
                row@.len() == j,
            decreases a@.len() - j,
        {
            row.push(mt[i][j].plus(delta[i].times(a[j])));
            j += 1;
        }
        r.push(row);
        i += 1;
    }
    r
}

/// Every entry divided by the example count.
fn matrix_div_count<S: Scalar>(mt: &Vec<Vec<S>>, n: usize) -> (r: Vec<Vec<S>>)
    requires
        n >= 1,
    ensures
        r@.len() == mt@.len(),
        forall|i: int| 0 <= i < mt@.len() ==> (#[trigger] r@[i])@.len() == mt@[i]@.len(),
{
    let mut r: Vec<Vec<S>> = Vec::new();
    let mut i: usize = 0;
    while i < mt.len()
        invariant
            n >= 1,
            i <= mt@.len(),
            r@.len() == i,
            forall|k: int| 0 <= k < i ==> (#[trigger] r@[k])@.len() == mt@[k]@.len(),
        decreases mt@.len() - i,
    {
        let src = &mt[i];
        let mut row: Vec<S> = Vec::new();
        let mut j: usize = 0;
        while j < src.len()
            invariant
                n >= 1,
                j <= src@.len(),
                row@.len() == j,
            decreases src@.len() - j,
        {
            row.push(src[j].div_count(n));
            j += 1;
        }
        r.push(row);
        i += 1;
    }
    r
}

/// The regularisation of one gradient matrix: `(λ/n) · Θ` added onto every
/// entry except column 0, the bias column, which regularisation excludes.
fn matrix_add_reg<S: Scalar>(
    mt: &Vec<Vec<S>>,
    theta: &Vec<Vec<S>>,
    rate: S,
    n: usize,
) -> (r: Vec<Vec<S>>)
    requires
        n >= 1,
        mt@.len() == theta@.len(),
        forall|i: int| 0 <= i < mt@.len() ==> (#[trigger] mt@[i])@.len() == theta@[i]@.len(),
    ensures
        r@.len() == mt@.len(),
        forall|i: int| 0 <= i < mt@.len() ==> (#[trigger] r@[i])@.len() == mt@[i]@.len(),
{
    let mut r: Vec<Vec<S>> = Vec::new();
    let mut i: usize = 0;
    while i < mt.len()
        invariant
            n >= 1,
            mt@.len() == theta@.len(),
            forall|k: int| 0 <= k < mt@.len() ==> (#[trigger] mt@[k])@.len() == theta@[k]@.len(),
            i <= mt@.len(),
            r@.len() == i,
            forall|k: int| 0 <= k < i ==> (#[trigger] r@[k])@.len() == mt@[k]@.len(),
        decreases mt@.len() - i,
    {
        assert(mt@[i as int]@.len() == theta@[i as int]@.len());
        let src = &mt[i];
        let th = &theta[i];
        let mut row: Vec<S> = Vec::new();
        let mut j: usize = 0;
        while j < src.len()
            invariant
                n >= 1,
                src@.len() == th@.len(),
                j <= src@.len(),
                row@.len() == j,
            decreases src@.len() - j,
        {
            if j == 0 {
                row.push(src[j]);
            } else {
                row.push(src[j].plus(rate.div_count(n).times(th[j])));
            }
            j += 1;
        }
        r.push(row);
        i += 1;
    }
    r
}

/// The regularised cross-entropy cost of the network on the batch, and the
/// gradient of that cost with respect to every weight.
///
/// The cost is the mean over examples of the per-output-unit cross-entropy,
/// plus `λ/(2m)` times the sum of squares of every non-bias weight; the
/// gradients come from one backward pass per example, averaged and
/// regularised the same way. The returned matrices always have exactly the
/// shapes of the weight matrices.
///
/// Returns `EmptyDataset` exactly when the batch is empty, `ShapeMismatch`
/// exactly when the matrices and the batch do not form a well-shaped
/// network, and `NumericalInvariant` only when a cost term's logarithm
/// argument was exactly zero.
pub fn get_cost_and_gradient<S: Scalar>(
    thetas: &Vec<Vec<Vec<S>>>,
    xs: &Vec<Vec<S>>,
    ys: &Vec<OneHot>,
    regularization_rate: S,
) -> (r: Result<(S, Vec<Vec<Vec<S>>>), EngineError>)
    requires
        xs@.len() <= usize::MAX / 2,
    ensures
        xs@.len() == 0 ==> r == Err::<(S, Vec<Vec<Vec<S>>>), EngineError>(
            EngineError::EmptyDataset,
        ),
        xs@.len() >= 1 && !batch_shape_ok(thetas@, xs@, ys@) ==> r == Err::<
            (S, Vec<Vec<Vec<S>>>),
            EngineError,
        >(EngineError::ShapeMismatch),
        xs@.len() >= 1 && batch_shape_ok(thetas@, xs@, ys@) ==> (r matches Ok(cg) || r == Err::<
            (S, Vec<Vec<Vec<S>>>),
            EngineError,
        >(EngineError::NumericalInvariant)),
        r matches Ok(cg) ==> xs@.len() >= 1 && batch_shape_ok(thetas@, xs@, ys@) && same_dims_all(
            cg.1@,
            thetas@,
        ),
{
    let m = xs.len();
    if m == 0 {
        return Err(EngineError::EmptyDataset);
    }
    if !check_net_shapes(thetas) {
        return Err(EngineError::ShapeMismatch);
    }
    if ys.len() != m {
        return Err(EngineError::ShapeMismatch);
    }
    let el = thetas.len();
    assert(theta_dims_ok(thetas@, 0));
    assert(thetas@[0]@[0]@.len() == layer_size(thetas@, 0) + 1);
    let d0 = thetas[0][0].len() - 1;
    assert(theta_dims_ok(thetas@, el - 1));
    let out_w = thetas[el - 1].len();
    assert(out_w == layer_size(thetas@, el as int));

    let mut i: usize = 0;
    while i < m
        invariant
            m == xs@.len(),
            m >= 1,
            m == ys@.len(),
            el == thetas@.len(),
            net_shape_ok(thetas@),
            d0 == layer_size(thetas@, 0),
            out_w == layer_size(thetas@, el as int),
            i <= m,
            forall|k: int| 0 <= k < i ==> (#[trigger] xs@[k])@.len() == d0,
            forall|k: int| 0 <= k < i ==> (#[trigger] ys@[k]).bits@.len() == out_w,
        decreases m - i,
    {
        if xs[i].len() != d0 {
            assert(xs@[i as int]@.len() != layer_size(thetas@, 0));
            assert(!batch_shape_ok(thetas@, xs@, ys@));
            return Err(EngineError::ShapeMismatch);
        }
        if ys[i].bits.len() != out_w {
            assert(ys@[i as int].bits@.len() != layer_size(thetas@, el as int));
            assert(!batch_shape_ok(thetas@, xs@, ys@));
            return Err(EngineError::ShapeMismatch);
        }
        i += 1;
    }
    assert(batch_shape_ok(thetas@, xs@, ys@));

    // Zeroed gradient accumulators, one per weight matrix, of the same shape.
    let mut grads: Vec<Vec<Vec<S>>> = Vec::new();
    let mut l: usize = 0;
    while l < el
        invariant
            el == thetas@.len(),
            net_shape_ok(thetas@),
            l <= el,
            grads@.len() == l,
            forall|k: int|
                0 <= k < l ==> is_matrix(
                    (#[trigger] grads@[k])@,
                    thetas@[k]@.len() as int,
                    layer_size(thetas@, k) + 1,
                ),
        decreases el - l,
    {
        assert(theta_dims_ok(thetas@, l as int));
        assert(thetas@[l as int]@[0]@.len() == layer_size(thetas@, l as int) + 1);
        let rows = thetas[l].len();
        let cols = thetas[l][0].len();
        grads.push(zero_matrix(rows, cols));
        l += 1;
    }

    let mut cost = S::zero();

    let mut i: usize = 0;
    while i < m
        invariant
            m == xs@.len(),
            m >= 1,
            m <= usize::MAX / 2,
            m == ys@.len(),
            el == thetas@.len(),
            batch_shape_ok(thetas@, xs@, ys@),
            d0 == layer_size(thetas@, 0),
            out_w == layer_size(thetas@, el as int),
            out_w >= 1,
            i <= m,
            same_dims_all(grads@, thetas@),
        decreases m - i,
    {
        assert(xs@[i as int]@.len() == layer_size(thetas@, 0));
        let fp = forward_pass(thetas, &xs[i]);
        let activations = fp.0;
        let sgs = fp.1;
        assert(activations@[el as int]@.len() == layer_size(thetas@, el as int) + 1);
        assert(ys@[i as int].bits@.len() == out_w);

        // Per-output-unit cross-entropy; the bias unit at index 0 of the
        // output activation is skipped.
        let mut k: usize = 0;
        while k < out_w
            invariant
                m == xs@.len(),
                m >= 1,
                m == ys@.len(),
                i < m,
                batch_shape_ok(thetas@, xs@, ys@),
                el == thetas@.len(),
                activations@.len() == el + 1,
                activations@[el as int]@.len() == out_w + 1,
                ys@[i as int].bits@.len() == out_w,
                k <= out_w,
            decreases out_w - k,
        {
            let hot = ys[i].bits[k];
            let activation = activations[el][k + 1];
            let val = if hot {
                activation
            } else {
                S::one().minus(activation)
            };
            if val.is_zero() {
                return Err(EngineError::NumericalInvariant);
            }
            cost = cost.minus(val.ln());
            k += 1;
        }

        // Output-layer error: the output activation without its bias unit,
        // minus the one-hot target.
        let mut last_err: Vec<S> = Vec::new();
        let mut k: usize = 0;
        while k < out_w
            invariant
                i < m,
                m == ys@.len(),
                el == thetas@.len(),
                activations@.len() == el + 1,
                activations@[el as int]@.len() == out_w + 1,
                ys@[i as int].bits@.len() == out_w,
                k <= out_w,
                last_err@.len() == k,
            decreases out_w - k,
        {
            let target = if ys[i].bits[k] {
                S::one()
            } else {
                S::zero()
            };
            last_err.push(activations[el][k + 1].minus(target));
            k += 1;
        }

        // The error of each earlier layer, filled back to front:
        // δ^(l) = (Θ^(l)ᵀ · δ^(l+1)) ⊙ σ'(bias-prepended z^(l)), bias row
        // dropped.
        let mut errors: Vec<Vec<S>> = Vec::new();
        let mut q: usize = 0;
        while q < el
            invariant
                q <= el,
                errors@.len() == q,
            decreases el - q,
        {
            errors.push(Vec::new());
            q += 1;
        }
        errors[el - 1] = last_err;
        let mut l: usize = el - 1;
        while l > 0
            invariant
                el == thetas@.len(),
                net_shape_ok(thetas@),
                l < el,
                errors@.len() == el,
                sgs@.len() == el,
                forall|k2: int|
                    0 <= k2 < el ==> (#[trigger] sgs@[k2])@.len() == layer_size(thetas@, k2 + 1)
                        + 1,
                forall|k2: int|
                    l <= k2 < el ==> (#[trigger] errors@[k2])@.len() == layer_size(
                        thetas@,
                        k2 + 1,
                    ),
            decreases l,
        {
            l -= 1;
            assert(theta_dims_ok(thetas@, l + 1));
            assert(thetas@[l + 1]@[0]@.len() == layer_size(thetas@, l + 1) + 1);
            let cols = thetas[l + 1][0].len();
            assert(errors@[l + 1]@.len() == thetas@[l + 1]@.len());
            let tnext = transpose_mat_vec(&thetas[l + 1], &errors[l + 1], cols);
            assert(sgs@[l as int]@.len() == cols);
            let mut err_l = hadamard(&tnext, &sgs[l]);
            err_l.remove(0);
            errors[l] = err_l;
        }

        // Accumulate δ^(l+1) · (a^(l))ᵀ onto each gradient.
        let mut l: usize = 0;
        while l < el
            invariant
                el == thetas@.len(),
                net_shape_ok(thetas@),
                l <= el,
                errors@.len() == el,
                forall|k2: int|
                    0 <= k2 < el ==> (#[trigger] errors@[k2])@.len() == layer_size(
                        thetas@,
                        k2 + 1,
                    ),
                activations@.len() == el + 1,
                forall|k2: int|
                    0 <= k2 <= el ==> (#[trigger] activations@[k2])@.len() == layer_size(
                        thetas@,
                        k2,
                    ) + 1,
                grads@.len() == el,
                same_dims_all(grads@, thetas@),
            decreases el - l,
        {
            assert(theta_dims_ok(thetas@, l as int));
            assert(is_matrix(
                grads@[l as int]@,
                thetas@[l as int]@.len() as int,
                layer_size(thetas@, l as int) + 1,
            ));
            assert(errors@[l as int]@.len() == thetas@[l as int]@.len());
            assert(activations@[l as int]@.len() == layer_size(thetas@, l as int) + 1);
            let new_m = matrix_add_outer(&grads[l], &errors[l], &activations[l]);
            grads[l] = new_m;
            l += 1;
        }

        i += 1;
    }

    // Average over the batch.
    cost = cost.div_count(m);
    let mut l: usize = 0;
    while l < el
        invariant
            m >= 1,
            el == thetas@.len(),
            net_shape_ok(thetas@),
            l <= el,
            grads@.len() == el,
            same_dims_all(grads@, thetas@),
        decreases el - l,
    {
        assert(is_matrix(
            grads@[l as int]@,
            thetas@[l as int]@.len() as int,
            layer_size(thetas@, l as int) + 1,
        ));
        let new_m = matrix_div_count(&grads[l], m);
        grads[l] = new_m;
        assert(is_matrix(
            grads@[l as int]@,
            thetas@[l as int]@.len() as int,
            layer_size(thetas@, l as int) + 1,
        ));
        l += 1;
    }

    // The L2 penalty over every non-bias weight.
    let mut penalty = S::zero();
    let mut l: usize = 0;
    while l < el
        invariant
            el == thetas@.len(),
            net_shape_ok(thetas@),
            l <= el,
        decreases el - l,
    {
        let rows = thetas[l].len();
        let mut rix: usize = 0;
        while rix < rows
            invariant
                el == thetas@.len(),
                net_shape_ok(thetas@),
                l < el,
                rows == thetas@[l as int]@.len(),
                rix <= rows,
            decreases rows - rix,
        {
            let row = &thetas[l][rix];
            let mut c: usize = 1;
            while c < row.len()
                invariant
                    1 <= c,
                    c <= row@.len() || row@.len() == 0,
                decreases row@.len() - c,
            {
                let w = row[c];
                penalty = penalty.plus(w.times(w));
                c += 1;
            }
            rix += 1;
        }
        l += 1;
    }
    cost = cost.plus(regularization_rate.times(penalty).div_count(2 * m));

    // Regularise the gradients, bias column excluded.
    let mut l: usize = 0;
    while l < el
        invariant
            m >= 1,
            el == thetas@.len(),
            net_shape_ok(thetas@),
            l <= el,
            grads@.len() == el,
            same_dims_all(grads@, thetas@),
        decreases el - l,
    {
        assert(theta_dims_ok(thetas@, l as int));
        assert(is_matrix(
            grads@[l as int]@,
            thetas@[l as int]@.len() as int,
            layer_size(thetas@, l as int) + 1,
        ));
        let new_m = matrix_add_reg(&grads[l], &thetas[l], regularization_rate, m);
        grads[l] = new_m;
        assert(is_matrix(
            grads@[l as int]@,
            thetas@[l as int]@.len() as int,
            layer_size(thetas@, l as int) + 1,
        ));
        l += 1;
    }

    Ok((cost, grads))
}

} // verus!
