use vstd::prelude::*;

use crate::errors::EngineError;
use crate::linalg::is_matrix;
use crate::network::{net_shape_ok, theta_dims_ok};
use crate::scalar::{Scalar, WeightSource};

verus! {

/// The layer sizes describe a network: at least an input and an output
/// layer, every layer with at least one unit.
pub open spec fn layer_sizes_ok(sizes: Seq<usize>) -> bool {
    &&& sizes.len() >= 2
    &&& forall|i: int| 0 <= i < sizes.len() ==> (#[trigger] sizes[i]) >= 1
}

/// The initial weight matrices for a network with the given layer sizes, one
/// value drawn from the caller's source per weight: for each adjacent pair
/// `(s_l, s_{l+1})` a matrix of `s_{l+1}` rows and `s_l + 1` columns, the
/// extra column for the bias. The result is always a well-shaped network, so
/// it is accepted by the cost-and-gradient routine.
///
/// Returns `ShapeMismatch` exactly when the sizes describe no network.
pub fn get_random_weights<S: Scalar, W: WeightSource<S>>(
    layers_sizes: &Vec<usize>,
    rng: &mut W,
) -> (r: Result<Vec<Vec<Vec<S>>>, EngineError>)
    requires
        forall|i: int| 0 <= i < layers_sizes@.len() ==> (#[trigger] layers_sizes@[i]) < usize::MAX,
    ensures
        !layer_sizes_ok(layers_sizes@) ==> r == Err::<Vec<Vec<Vec<S>>>, EngineError>(
            EngineError::ShapeMismatch,
        ),
        layer_sizes_ok(layers_sizes@) ==> (r matches Ok(t) && t@.len() == layers_sizes@.len() - 1
            && (forall|l: int|
            0 <= l < t@.len() ==> is_matrix(
                (#[trigger] t@[l])@,
                layers_sizes@[l + 1] as int,
                layers_sizes@[l] as int + 1,
            )) && net_shape_ok(t@)),
{
    let count = layers_sizes.len();
    if count < 2 {
        return Err(EngineError::ShapeMismatch);
    }
    let mut i: usize = 0;
    while i < count
        invariant
            count == layers_sizes@.len(),
            i <= count,
            forall|k: int| 0 <= k < i ==> (#[trigger] layers_sizes@[k]) >= 1,
        decreases count - i,
    {
        if layers_sizes[i] == 0 {
            assert(layers_sizes@[i as int] < 1);
            assert(!layer_sizes_ok(layers_sizes@));
            return Err(EngineError::ShapeMismatch);
        }
        i += 1;
    }
    assert(layer_sizes_ok(layers_sizes@));

    let mut result: Vec<Vec<Vec<S>>> = Vec::new();
    let mut l: usize = 0;
    while l < count - 1
        invariant
            count == layers_sizes@.len(),
            count >= 2,
            layer_sizes_ok(layers_sizes@),
            forall|k: int| 0 <= k < count ==> (#[trigger] layers_sizes@[k]) < usize::MAX,
            l <= count - 1,
            result@.len() == l,
            forall|k: int|
                0 <= k < l ==> is_matrix(
                    (#[trigger] result@[k])@,
                    layers_sizes@[k + 1] as int,
                    layers_sizes@[k] as int + 1,
                ),
        decreases count - 1 - l,
    {
        assert(layers_sizes@[l as int] >= 1);
        assert(layers_sizes@[l as int + 1] >= 1);
        let rows = layers_sizes[l + 1];
        let cols = layers_sizes[l] + 1;
        let mut weights: Vec<Vec<S>> = Vec::new();
        let mut rx: usize = 0;
        while rx < rows
            invariant
                rx <= rows,
                is_matrix(weights@, rx as int, cols as int),
            decreases rows - rx,
        {
            let mut row: Vec<S> = Vec::new();
            let mut cx: usize = 0;
            while cx < cols
                invariant
                    cx <= cols,
                    row@.len() == cx,
                decreases cols - cx,
            {
                row.push(rng.next_weight());
                cx += 1;
            }
            weights.push(row);
            rx += 1;
        }
        result.push(weights);
        l += 1;
    }

    proof {
        assert forall|l2: int| 0 <= l2 < result@.len() implies #[trigger] theta_dims_ok(
            result@,
            l2,
        ) by {
            assert(is_matrix(
                result@[l2]@,
                layers_sizes@[l2 + 1] as int,
                layers_sizes@[l2] as int + 1,
            ));
            if l2 == 0 {
                assert(result@[0]@.len() == layers_sizes@[1] as int);
                assert(layers_sizes@[1] >= 1);
                assert(result@[0]@[0]@.len() == layers_sizes@[0] as int + 1);
            } else {
                assert(is_matrix(
                    result@[l2 - 1]@,
                    layers_sizes@[l2] as int,
                    layers_sizes@[l2 - 1] as int + 1,
                ));
            }
        }
        assert(net_shape_ok(result@));
    }
    Ok(result)
}

} // verus!
