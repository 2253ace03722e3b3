//! Runtime wrapper for command descriptors.
use crate::descriptor::Descriptor;
use crate::error::{rview, HolonError};
use crate::graph::{HolonGraph, HolonReference};
use crate::type_header::{spec_type_name, TypeHeader};
use crate::values::MapString;
use vstd::prelude::*;

verus! {

/// Runtime wrapper for command descriptors.
pub struct CommandDescriptor {
    holon: HolonReference,
}

impl View for CommandDescriptor {
    type V = HolonReference;

    closed spec fn view(&self) -> HolonReference {
        self.holon
    }
}

impl DeepView for CommandDescriptor {
    type V = HolonReference;

    open spec fn deep_view(&self) -> HolonReference {
        self@
    }
}

impl Descriptor for CommandDescriptor {
    open spec fn spec_holon(&self) -> HolonReference {
        self@
    }

    fn holon(&self) -> (r: HolonReference) {
        self.holon
    }
}

impl From<HolonReference> for CommandDescriptor {
    fn from(holon: HolonReference) -> (d: Self)
        ensures
            d@ == holon,
    {
        Self { holon }
    }
}

impl vstd::std_specs::convert::FromSpecImpl<HolonReference> for CommandDescriptor {
    open spec fn obeys_from_spec() -> bool {
        true
    }

    closed spec fn from_spec(v: HolonReference) -> Self {
        CommandDescriptor { holon: v }
    }
}

/// Wraps each reference of `members`, preserving order.
pub fn wrap_all_command_descriptor(members: Vec<HolonReference>) -> (r: Vec<CommandDescriptor>)
    ensures
        r.deep_view() == members@,
{
    let mut out: Vec<CommandDescriptor> = Vec::new();
    let mut i: usize = 0;
    while i < members.len()
        invariant
            i <= members.len(),
            out.deep_view() == members@.subrange(0, i as int),
        decreases members.len() - i,
    {
        let ghost before = out.deep_view();
        out.push(CommandDescriptor { holon: members[i] });
        assert(out.deep_view() =~= before.push(members@[i as int]));
        assert(members@.subrange(0, i as int).push(members@[i as int]) =~= members@.subrange(0, i + 1));
        i = i + 1;
    }
    assert(members@.subrange(0, i as int) =~= members@);
    out
}

impl CommandDescriptor {
    /// Wraps an already-resolved descriptor holon reference.
    pub fn from_holon(holon: HolonReference) -> (d: Self)
        ensures
            d@ == holon,
    {
        Self { holon }
    }

    /// Projects the shared descriptor header view for this descriptor holon.
    pub fn header(&self) -> (h: TypeHeader)
        ensures
            h.holon == self@,
    {
        TypeHeader::new(self.holon)
    }

    /// Returns the command descriptor's canonical command name: its `TypeName`.
    pub fn command_name(&self, g: &HolonGraph) -> (res: Result<MapString, HolonError>)
        ensures
            rview(res) == spec_type_name(g@, self@),
    {
        TypeHeader::new(self.holon).declared_type_name(g)
    }
}

} // verus!
