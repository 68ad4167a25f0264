//! What it means for two values of one kind to merge into one.

use vstd::prelude::*;

use crate::errors::MergeError;
use crate::pixels::MergeMode;

verus! {

/// Values that can be folded pairwise into one of their kind.
pub trait Mergable: Sized {
    /// The weights that `merge` gives the two operands under `mode`.
    spec fn merge_weights(&self, other: &Self, mode: MergeMode) -> (usize, usize);

    /// Whether `r` is what merging `self` with `other` owes.
    spec fn merge_outcome(
        &self,
        other: &Self,
        weight_self: usize,
        weight_other: usize,
        mode: MergeMode,
        r: Result<Self, MergeError>,
    ) -> bool;

    /// Merges `other` into `self` with the given weights.
    fn weighted_merge(self, other: Self, weight_self: usize, weight_other: usize, mode: MergeMode) -> (r: Result<
        Self,
        MergeError,
    >)
        ensures
            self.merge_outcome(&other, weight_self, weight_other, mode, r),
    ;

    /// Merges `other` into `self` with the weights that the kind and the
    /// mode call for.
    fn merge(self, other: Self, mode: MergeMode) -> (r: Result<Self, MergeError>)
        ensures
            self.merge_outcome(
                &other,
                self.merge_weights(&other, mode).0,
                self.merge_weights(&other, mode).1,
                mode,
                r,
            ),
    ;
}

} // verus!
