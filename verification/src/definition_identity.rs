//! Definition identity: two references name the same definition exactly when they are equal.
use crate::graph::HolonReference;
use vstd::prelude::*;

verus! {

/// Compares reference identity, without reads.
pub fn same_definition(left: &HolonReference, right: &HolonReference) -> (r: bool)
    ensures
        r == (*left == *right),
{
    left.same(right)
}

/// Returns whether `anchor` is a member of `lineage`.
pub fn lineage_contains(lineage: &Vec<HolonReference>, anchor: &HolonReference) -> (r: bool)
    ensures
        r == lineage@.contains(*anchor),
{
    let mut i: usize = 0;
    while i < lineage.len()
        invariant
            i <= lineage.len(),
            forall|k: int| 0 <= k < i ==> lineage@[k] != *anchor,
        decreases lineage.len() - i,
    {
        if same_definition(&lineage[i], anchor) {
            assert(lineage@[i as int] == *anchor);
            return true;
        }
        i = i + 1;
    }
    false
}

} // verus!
