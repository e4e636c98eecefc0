use vstd::prelude::*;

use crate::math::step_shape_ok;

verus! {

/// A caller-owned regression dataset together with the parameters trained
/// on it: `n` examples of `d ≥ 1` features each, one target per example,
/// and an affine parameter vector of length `d + 1`.
///
/// The pair is the one piece of state the training driver and its observers
/// share; both read it, and the driver writes `theta`, under one exclusive
/// handle that the caller owns.
pub struct DemoData<T> {
    /// The feature rows, one per example.
    pub xs: Vec<Vec<T>>,
    /// The targets, one per example.
    pub ys: Vec<T>,
    /// The affine parameters; index 0 is the bias weight.
    pub theta: Vec<T>,
}

impl<T: Copy> DemoData<T> {
    /// The invariant of the dataset: one target per example, every feature
    /// row as wide as the parameter vector minus its bias entry.
    pub open spec fn well_formed(&self) -> bool {
        step_shape_ok(self.theta@, self.xs@, self.ys@)
    }

    /// Append one example given as a row of `d + 1` values, the features
    /// first and the target last. The parameters and the earlier examples
    /// are untouched, and the invariant is kept.
    pub fn add_point(&mut self, point: &Vec<T>)
        requires
            old(self).well_formed(),
            point@.len() == old(self).theta@.len(),
        ensures
            final(self).well_formed(),
            final(self).theta == old(self).theta,
            final(self).xs@.len() == old(self).xs@.len() + 1,
            forall|k: int|
                0 <= k < old(self).xs@.len() ==> final(self).xs@[k] == old(self).xs@[k],
            final(self).xs@[old(self).xs@.len() as int]@ == point@.subrange(0, point@.len() - 1),
            final(self).ys@ == old(self).ys@.push(point@[point@.len() - 1]),
    {
        let d = point.len() - 1;
        let mut row: Vec<T> = Vec::new();
        let mut i: usize = 0;
        while i < d
            invariant
                d < point@.len(),
                i <= d,
                row@.len() == i,
                forall|k: int| 0 <= k < i ==> row@[k] == point@[k],
            decreases d - i,
        {
            row.push(point[i]);
            i += 1;
        }
        assert(row@ =~= point@.subrange(0, point@.len() - 1));
        self.xs.push(row);
        self.ys.push(point[d]);
    }
}

} // verus!
