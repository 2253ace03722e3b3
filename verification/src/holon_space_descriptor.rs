//! Runtime wrapper for the schema-backed `HolonSpaceType` descriptor.
use crate::descriptor::Descriptor;
use crate::error::{rview, HolonError};
use crate::graph::{HolonGraph, HolonReference};
use crate::type_header::TypeHeader;

use vstd::prelude::*;
use crate::accessor_helpers::{require_single_related, spec_require_single_related};
use crate::names::CoreRelationshipTypeName;
use crate::transaction_descriptor::TransactionDescriptor;

verus! {

/// Runtime wrapper for the schema-backed `HolonSpaceType` descriptor.
pub struct HolonSpaceDescriptor {
    holon: HolonReference,
}

impl View for HolonSpaceDescriptor {
    type V = HolonReference;

    closed spec fn view(&self) -> HolonReference {
        self.holon
    }
}

impl DeepView for HolonSpaceDescriptor {
    type V = HolonReference;

    open spec fn deep_view(&self) -> HolonReference {
        self@
    }
}

impl Descriptor for HolonSpaceDescriptor {
    open spec fn spec_holon(&self) -> HolonReference {
        self@
    }

    fn holon(&self) -> (r: HolonReference) {
        self.holon
    }
}

impl From<HolonReference> for HolonSpaceDescriptor {
    fn from(holon: HolonReference) -> (d: Self)
        ensures
            d@ == holon,
    {
        Self { holon }
    }
}

impl vstd::std_specs::convert::FromSpecImpl<HolonReference> for HolonSpaceDescriptor {
    open spec fn obeys_from_spec() -> bool {
        true
    }

    closed spec fn from_spec(v: HolonReference) -> Self {
        HolonSpaceDescriptor { holon: v }
    }
}

/// Wraps each reference of `members`, preserving order.
pub fn wrap_all_holon_space_descriptor(members: Vec<HolonReference>) -> (r: Vec<HolonSpaceDescriptor>)
    ensures
        r.deep_view() == members@,
{
    let mut out: Vec<HolonSpaceDescriptor> = Vec::new();
    let mut i: usize = 0;
    while i < members.len()
        invariant
            i <= members.len(),
            out.deep_view() == members@.subrange(0, i as int),
        decreases members.len() - i,
    {
        let ghost before = out.deep_view();
        out.push(HolonSpaceDescriptor { holon: members[i] });
        assert(out.deep_view() =~= before.push(members@[i as int]));
        assert(members@.subrange(0, i as int).push(members@[i as int]) =~= members@.subrange(0, i + 1));
        i = i + 1;
    }
    assert(members@.subrange(0, i as int) =~= members@);
    out
}

impl HolonSpaceDescriptor {
    /// Wraps an already-resolved descriptor holon reference.
    pub fn from_holon(holon: HolonReference) -> (d: Self)
        ensures
            d@ == holon,
    {
        Self { holon }
    }

    /// Projects the shared descriptor header view for this descriptor holon.
    pub fn header(&self) -> (h: TypeHeader)
        ensures
            h.holon == self@,
    {
        TypeHeader::new(self.holon)
    }

    /// Returns the single transaction command-scope model afforded by this holon-space descriptor.
    pub fn transaction_model(&self, g: &HolonGraph) -> (res: Result<TransactionDescriptor, HolonError>)
        ensures
            rview(res) == spec_require_single_related(
                g@,
                self@,
                CoreRelationshipTypeName::AffordsTransactionModel,
            ),
    {
        let t = require_single_related(g, self.holon, CoreRelationshipTypeName::AffordsTransactionModel)?;
        Ok(TransactionDescriptor::from_holon(t))
    }
}

} // verus!
