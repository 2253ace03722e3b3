//! Runtime wrapper for dance response descriptors.
use crate::descriptor::Descriptor;
use crate::error::{rview, HolonError};
use crate::graph::{HolonGraph, HolonReference};
use crate::type_header::TypeHeader;

use vstd::prelude::*;
use crate::accessor_helpers::{optional_single_related, spec_optional_single_related};
use crate::holon_descriptor::HolonDescriptor;
use crate::names::CoreRelationshipTypeName;

verus! {

/// Runtime wrapper for dance response descriptors.
pub struct DanceResponseDescriptor {
    holon: HolonReference,
}

impl View for DanceResponseDescriptor {
    type V = HolonReference;

    closed spec fn view(&self) -> HolonReference {
        self.holon
    }
}

impl DeepView for DanceResponseDescriptor {
    type V = HolonReference;

    open spec fn deep_view(&self) -> HolonReference {
        self@
    }
}

impl Descriptor for DanceResponseDescriptor {
    open spec fn spec_holon(&self) -> HolonReference {
        self@
    }

    fn holon(&self) -> (r: HolonReference) {
        self.holon
    }
}

impl From<HolonReference> for DanceResponseDescriptor {
    fn from(holon: HolonReference) -> (d: Self)
        ensures
            d@ == holon,
    {
        Self { holon }
    }
}

impl vstd::std_specs::convert::FromSpecImpl<HolonReference> for DanceResponseDescriptor {
    open spec fn obeys_from_spec() -> bool {
        true
    }

    closed spec fn from_spec(v: HolonReference) -> Self {
        DanceResponseDescriptor { holon: v }
    }
}

/// Wraps each reference of `members`, preserving order.
pub fn wrap_all_dance_response_descriptor(members: Vec<HolonReference>) -> (r: Vec<DanceResponseDescriptor>)
    ensures
        r.deep_view() == members@,
{
    let mut out: Vec<DanceResponseDescriptor> = Vec::new();
    let mut i: usize = 0;
    while i < members.len()
        invariant
            i <= members.len(),
            out.deep_view() == members@.subrange(0, i as int),
        decreases members.len() - i,
    {
        let ghost before = out.deep_view();
        out.push(DanceResponseDescriptor { holon: members[i] });
        assert(out.deep_view() =~= before.push(members@[i as int]));
        assert(members@.subrange(0, i as int).push(members@[i as int]) =~= members@.subrange(0, i + 1));
        i = i + 1;
    }
    assert(members@.subrange(0, i as int) =~= members@);
    out
}

impl DanceResponseDescriptor {
    /// Wraps an already-resolved descriptor holon reference.
    pub fn from_holon(holon: HolonReference) -> (d: Self)
        ensures
            d@ == holon,
    {
        Self { holon }
    }

    /// Projects the shared descriptor header view for this descriptor holon.
    pub fn header(&self) -> (h: TypeHeader)
        ensures
            h.holon == self@,
    {
        TypeHeader::new(self.holon)
    }

    /// Returns the optional response body holon type reached through `ResponseBody`.
    pub fn response_body(&self, g: &HolonGraph) -> (res: Result<Option<HolonDescriptor>, HolonError>)
        ensures
            rview(res) == spec_optional_single_related(g@, self@, CoreRelationshipTypeName::ResponseBody),
    {
        match optional_single_related(g, self.holon, CoreRelationshipTypeName::ResponseBody)? {
            Some(r) => Ok(Some(HolonDescriptor::from_holon(r))),
            None => Ok(None),
        }
    }
}

} // verus!
