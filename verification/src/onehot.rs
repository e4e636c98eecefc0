use vstd::prelude::*;

verus! {

/// A one-hot class label: one boolean flag per class, with at most one set.
pub struct OneHot {
    /// One flag per class; the set flag names the class.
    pub bits: Vec<bool>,
}

impl OneHot {
    /// At most one entry is set.
    pub open spec fn well_formed(&self) -> bool {
        forall|i: int, j: int|
            0 <= i < self.bits@.len() && 0 <= j < self.bits@.len() && self.bits@[i]
                && self.bits@[j] ==> i == j
    }

    /// The label for class `class` out of `width` classes: entry `class` is
    /// set and no other is.
    pub fn from_class(width: usize, class: usize) -> (r: OneHot)
        requires
            class < width,
        ensures
            r.bits@.len() == width,
            forall|i: int| 0 <= i < width ==> ((#[trigger] r.bits@[i]) <==> i == class),
            r.well_formed(),
    {
        let mut bits: Vec<bool> = Vec::new();
        let mut i: usize = 0;
        while i < width
            invariant
                i <= width,
                bits@.len() == i,
                forall|j: int| 0 <= j < i ==> ((#[trigger] bits@[j]) <==> j == class),
            decreases width - i,
        {
            bits.push(i == class);
            i += 1;
        }
        OneHot { bits }
    }

    /// The number of classes the label ranges over.
    pub fn width(&self) -> (r: usize)
        ensures
            r == self.bits@.len(),
    {
        self.bits.len()
    }

    /// Whether the label names class `k`.
    pub fn is_set(&self, k: usize) -> (r: bool)
        requires
            k < self.bits@.len(),
        ensures
            r == self.bits@[k as int],
    {
        self.bits[k]
    }
}

} // verus!
