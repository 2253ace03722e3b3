//! Runtime wrapper for dance descriptors.
use crate::descriptor::Descriptor;
use crate::error::{rview, HolonError};
use crate::graph::{HolonGraph, HolonReference};
use crate::type_header::{spec_type_name, TypeHeader};
use crate::values::MapString;
use vstd::prelude::*;
use crate::accessor_helpers::{optional_single_related, require_single_related, spec_optional_single_related, spec_require_single_related};
use crate::dance_response_descriptor::DanceResponseDescriptor;
use crate::holon_descriptor::HolonDescriptor;
use crate::names::CoreRelationshipTypeName;

verus! {

/// Runtime wrapper for dance descriptors.
pub struct DanceDescriptor {
    holon: HolonReference,
}

impl View for DanceDescriptor {
    type V = HolonReference;

    closed spec fn view(&self) -> HolonReference {
        self.holon
    }
}

impl DeepView for DanceDescriptor {
    type V = HolonReference;

    open spec fn deep_view(&self) -> HolonReference {
        self@
    }
}

impl Descriptor for DanceDescriptor {
    open spec fn spec_holon(&self) -> HolonReference {
        self@
    }

    fn holon(&self) -> (r: HolonReference) {
        self.holon
    }
}

impl From<HolonReference> for DanceDescriptor {
    fn from(holon: HolonReference) -> (d: Self)
        ensures
            d@ == holon,
    {
        Self { holon }
    }
}

impl vstd::std_specs::convert::FromSpecImpl<HolonReference> for DanceDescriptor {
    open spec fn obeys_from_spec() -> bool {
        true
    }

    closed spec fn from_spec(v: HolonReference) -> Self {
        DanceDescriptor { holon: v }
    }
}

/// Wraps each reference of `members`, preserving order.
pub fn wrap_all_dance_descriptor(members: Vec<HolonReference>) -> (r: Vec<DanceDescriptor>)
    ensures
        r.deep_view() == members@,
{
    let mut out: Vec<DanceDescriptor> = Vec::new();
    let mut i: usize = 0;
    while i < members.len()
        invariant
            i <= members.len(),
            out.deep_view() == members@.subrange(0, i as int),
        decreases members.len() - i,
    {
        let ghost before = out.deep_view();
        out.push(DanceDescriptor { holon: members[i] });
        assert(out.deep_view() =~= before.push(members@[i as int]));
        assert(members@.subrange(0, i as int).push(members@[i as int]) =~= members@.subrange(0, i + 1));
        i = i + 1;
    }
    assert(members@.subrange(0, i as int) =~= members@);
    out
}

impl DanceDescriptor {
    /// Wraps an already-resolved descriptor holon reference.
    pub fn from_holon(holon: HolonReference) -> (d: Self)
        ensures
            d@ == holon,
    {
        Self { holon }
    }

    /// Projects the shared descriptor header view for this descriptor holon.
    pub fn header(&self) -> (h: TypeHeader)
        ensures
            h.holon == self@,
    {
        TypeHeader::new(self.holon)
    }

    /// Returns the dance name: the descriptor's `TypeName`.
    pub fn dance_name(&self, g: &HolonGraph) -> (res: Result<MapString, HolonError>)
        ensures
            rview(res) == spec_type_name(g@, self@),
    {
        TypeHeader::new(self.holon).declared_type_name(g)
    }

    /// Returns the optional request holon type reached through `RequestType`.
    pub fn request_type(&self, g: &HolonGraph) -> (res: Result<Option<HolonDescriptor>, HolonError>)
        ensures
            rview(res) == spec_optional_single_related(g@, self@, CoreRelationshipTypeName::RequestType),
    {
        match optional_single_related(g, self.holon, CoreRelationshipTypeName::RequestType)? {
            Some(r) => Ok(Some(HolonDescriptor::from_holon(r))),
            None => Ok(None),
        }
    }

    /// Returns the required response descriptor reached through `Response`.
    pub fn response_type(&self, g: &HolonGraph) -> (res: Result<DanceResponseDescriptor, HolonError>)
        ensures
            rview(res) == spec_require_single_related(g@, self@, CoreRelationshipTypeName::Response),
    {
        let r = require_single_related(g, self.holon, CoreRelationshipTypeName::Response)?;
        Ok(DanceResponseDescriptor::from_holon(r))
    }

    /// Returns the implementation holons that declare themselves `ForDance`.
    pub fn implementation_candidates(&self, g: &HolonGraph) -> (res: Result<Vec<HolonReference>, HolonError>)
        ensures
            rview(res) == crate::graph::spec_related(g@, self@, CoreRelationshipTypeName::ForDance.spec_name()),
    {
        let members = g.related_core(self.holon, CoreRelationshipTypeName::ForDance)?;
        assert(members.deep_view() =~= members@);
        Ok(members)
    }
}

} // verus!
