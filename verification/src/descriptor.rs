//! The common contract of thin descriptor wrappers.
use crate::graph::HolonReference;
use vstd::prelude::*;

verus! {

/// Common runtime contract for thin descriptor wrappers: each exposes the
/// descriptor holon it wraps.
pub trait Descriptor {
    /// The wrapped descriptor holon.
    spec fn spec_holon(&self) -> HolonReference;

    /// Returns the backing holon reference for this descriptor wrapper.
    fn holon(&self) -> (r: HolonReference)
        ensures
            r == self.spec_holon(),
    ;
}

} // verus!
