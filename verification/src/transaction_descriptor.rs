//! Runtime wrapper for the schema-backed `TransactionType` descriptor.
use crate::descriptor::Descriptor;
use crate::error::{rview, HolonError};
use crate::graph::{HolonGraph, HolonReference};
use crate::type_header::TypeHeader;
use crate::values::MapString;
use vstd::prelude::*;
use crate::accessor_helpers::find_unique_by_name;
use crate::command_descriptor::{wrap_all_command_descriptor, CommandDescriptor};
use crate::holon_descriptor::spec_get_by_name;
use crate::inheritance::{flatten_related_members, spec_flatten};
use crate::names::{spec_type_case, to_type_case, CoreRelationshipTypeName};

verus! {

/// Runtime wrapper for the schema-backed `TransactionType` descriptor.
pub struct TransactionDescriptor {
    holon: HolonReference,
}

impl View for TransactionDescriptor {
    type V = HolonReference;

    closed spec fn view(&self) -> HolonReference {
        self.holon
    }
}

impl DeepView for TransactionDescriptor {
    type V = HolonReference;

    open spec fn deep_view(&self) -> HolonReference {
        self@
    }
}

impl Descriptor for TransactionDescriptor {
    open spec fn spec_holon(&self) -> HolonReference {
        self@
    }

    fn holon(&self) -> (r: HolonReference) {
        self.holon
    }
}

impl From<HolonReference> for TransactionDescriptor {
    fn from(holon: HolonReference) -> (d: Self)
        ensures
            d@ == holon,
    {
        Self { holon }
    }
}

impl vstd::std_specs::convert::FromSpecImpl<HolonReference> for TransactionDescriptor {
    open spec fn obeys_from_spec() -> bool {
        true
    }

    closed spec fn from_spec(v: HolonReference) -> Self {
        TransactionDescriptor { holon: v }
    }
}

/// Wraps each reference of `members`, preserving order.
pub fn wrap_all_transaction_descriptor(members: Vec<HolonReference>) -> (r: Vec<TransactionDescriptor>)
    ensures
        r.deep_view() == members@,
{
    let mut out: Vec<TransactionDescriptor> = Vec::new();
    let mut i: usize = 0;
    while i < members.len()
        invariant
            i <= members.len(),
            out.deep_view() == members@.subrange(0, i as int),
        decreases members.len() - i,
    {
        let ghost before = out.deep_view();
        out.push(TransactionDescriptor { holon: members[i] });
        assert(out.deep_view() =~= before.push(members@[i as int]));
        assert(members@.subrange(0, i as int).push(members@[i as int]) =~= members@.subrange(0, i + 1));
        i = i + 1;
    }
    assert(members@.subrange(0, i as int) =~= members@);
    out
}

impl TransactionDescriptor {
    /// Wraps an already-resolved descriptor holon reference.
    pub fn from_holon(holon: HolonReference) -> (d: Self)
        ensures
            d@ == holon,
    {
        Self { holon }
    }

    /// Projects the shared descriptor header view for this descriptor holon.
    pub fn header(&self) -> (h: TypeHeader)
        ensures
            h.holon == self@,
    {
        TypeHeader::new(self.holon)
    }

    /// Returns command descriptors across this descriptor's inheritance chain, self first.
    pub fn afforded_commands(&self, g: &HolonGraph) -> (res: Result<Vec<CommandDescriptor>, HolonError>)
        ensures
            rview(res) == spec_flatten(g@, self@, CoreRelationshipTypeName::AffordsCommand.spec_name()),
    {
        let members = flatten_related_members(g, self.holon, CoreRelationshipTypeName::AffordsCommand)?;
        Ok(wrap_all_command_descriptor(members))
    }

    /// Finds an effective transaction command affordance by command descriptor `TypeName`.
    pub fn get_command_by_name(&self, g: &HolonGraph, command_name: &str) -> (res: Result<CommandDescriptor, HolonError>)
        ensures
            rview(res) == spec_get_by_name(g@, self@, CoreRelationshipTypeName::AffordsCommand, spec_type_case(command_name@), "command"@),
    {
        let members = flatten_related_members(g, self.holon, CoreRelationshipTypeName::AffordsCommand)?;
        let found = find_unique_by_name(g, &members, &MapString(to_type_case(command_name)), "command", self.holon)?;
        Ok(CommandDescriptor::from_holon(found))
    }
}

} // verus!
