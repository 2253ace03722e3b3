//! Runtime wrapper for holon-type descriptors.
use crate::accessor_helpers::{
    find_unique_by_name, require_bool, spec_find_by_name, spec_require_bool,
};
use crate::command_descriptor::{wrap_all_command_descriptor, CommandDescriptor};
use crate::dance_descriptor::{wrap_all_dance_descriptor, DanceDescriptor};
use crate::declared_relationship_descriptor::spec_has_inverse;
use crate::descriptor::Descriptor;
use crate::effective_relationships::{allows_relationship, spec_allows_relationship, QualifiedRelationship};
use crate::error::{rview, ErrorView, HolonError};
use crate::graph::{spec_related, HolonGraph, HolonReference, HolonView};
use crate::inheritance::{flatten_related_members, spec_flatten};
use crate::inverse_relationship_descriptor::InverseRelationshipDescriptor;
use crate::names::{spec_type_case, to_type_case, CorePropertyTypeName, CoreRelationshipTypeName};
use crate::property_descriptor::{wrap_all_property_descriptor, PropertyDescriptor};
use crate::relationship_descriptor::{
    spec_declared_kind, wrap_all_relationship_descriptor, RelationshipDescriptor,
};
use crate::type_header::TypeHeader;
use crate::values::{MapString, RelationshipName};
use vstd::prelude::*;
use vstd::string::*;

verus! {

/// The describing descriptor of a holon: the single target of its `DescribedBy` relationship.
pub open spec fn spec_holon_descriptor(g: Seq<HolonView>, r: HolonReference) -> Result<
    HolonReference,
    ErrorView,
> {
    match spec_related(g, r, CoreRelationshipTypeName::DescribedBy.spec_name()) {
        Err(e) => Err(e),
        Ok(m) => if m.len() == 0 {
            Err(ErrorView::MissingDescribedBy { holon: r })
        } else if m.len() == 1 {
            Ok(m[0])
        } else {
            Err(ErrorView::MultipleDescribedBy { holon: r, count: m.len() as usize })
        },
    }
}

/// Resolves the descriptor that describes `holon`.
pub fn holon_descriptor(g: &HolonGraph, holon: HolonReference) -> (res: Result<HolonDescriptor, HolonError>)
    ensures
        rview(res) == spec_holon_descriptor(g@, holon),
{
    let m = g.related_core(holon, CoreRelationshipTypeName::DescribedBy)?;
    if m.len() == 0 {
        Err(HolonError::MissingDescribedBy { holon })
    } else if m.len() == 1 {
        Ok(HolonDescriptor { holon: m[0] })
    } else {
        Err(HolonError::MultipleDescribedBy { holon, count: m.len() })
    }
}

/// The unique member of the flattened `rel` surface of `owner` whose `TypeName` is `requested`.
pub open spec fn spec_get_by_name(
    g: Seq<HolonView>,
    owner: HolonReference,
    rel: CoreRelationshipTypeName,
    requested: Seq<char>,
    kind: Seq<char>,
) -> Result<HolonReference, ErrorView> {
    match spec_flatten(g, owner, rel.spec_name()) {
        Err(e) => Err(e),
        Ok(ms) => spec_find_by_name(g, ms, requested, kind, owner),
    }
}

/// The inverse of the effective declared relationship named `requested` on `owner`.
pub open spec fn spec_get_inverse_by_name(g: Seq<HolonView>, owner: HolonReference, requested: Seq<char>) -> Result<
    HolonReference,
    ErrorView,
> {
    match spec_get_by_name(g, owner, CoreRelationshipTypeName::InstanceRelationships, requested, "relationship"@) {
        Err(e) => Err(e),
        Ok(d) => match spec_declared_kind(g, d) {
            Err(e) => Err(e),
            Ok(_) => match spec_has_inverse(g, d) {
                Err(e) => Err(e),
                Ok(Some(i)) => Ok(i),
                Ok(None) => Err(
                    ErrorView::MissingRequiredRelationship { relationship: "HasInverse"@, descriptor: d },
                ),
            },
        },
    }
}

/// Runtime wrapper for holon-type descriptors.
pub struct HolonDescriptor {
    holon: HolonReference,
}

impl View for HolonDescriptor {
    type V = HolonReference;

    closed spec fn view(&self) -> HolonReference {
        self.holon
    }
}

impl DeepView for HolonDescriptor {
    type V = HolonReference;

    open spec fn deep_view(&self) -> HolonReference {
        self@
    }
}

impl Descriptor for HolonDescriptor {
    open spec fn spec_holon(&self) -> HolonReference {
        self@
    }

    fn holon(&self) -> (r: HolonReference) {
        self.holon
    }
}

impl From<HolonReference> for HolonDescriptor {
    fn from(holon: HolonReference) -> (d: Self)
        ensures
            d@ == holon,
    {
        Self { holon }
    }
}

impl vstd::std_specs::convert::FromSpecImpl<HolonReference> for HolonDescriptor {
    open spec fn obeys_from_spec() -> bool {
        true
    }

    closed spec fn from_spec(v: HolonReference) -> Self {
        HolonDescriptor { holon: v }
    }
}

/// Wraps each reference of `members`, preserving order.
pub fn wrap_all_holon_descriptor(members: Vec<HolonReference>) -> (r: Vec<HolonDescriptor>)
    ensures
        r.deep_view() == members@,
{
    let mut out: Vec<HolonDescriptor> = Vec::new();
    let mut i: usize = 0;
    while i < members.len()
        invariant
            i <= members.len(),
            out.deep_view() == members@.subrange(0, i as int),
        decreases members.len() - i,
    {
        let ghost before = out.deep_view();
        out.push(HolonDescriptor { holon: members[i] });
        assert(out.deep_view() =~= before.push(members@[i as int]));
        assert(members@.subrange(0, i as int).push(members@[i as int]) =~= members@.subrange(0, i + 1));
        i = i + 1;
    }
    assert(members@.subrange(0, i as int) =~= members@);
    out
}

impl HolonDescriptor {
    /// Wraps an already-resolved descriptor holon reference.
    pub fn from_holon(holon: HolonReference) -> (d: Self)
        ensures
            d@ == holon,
    {
        Self { holon }
    }

    /// Projects the shared descriptor header view for this descriptor holon.
    pub fn header(&self) -> (h: TypeHeader)
        ensures
            h.holon == self@,
    {
        TypeHeader::new(self.holon)
    }

    /// Returns whether instances may carry properties beyond the descriptor declaration.
    pub fn allows_additional_properties(&self, g: &HolonGraph) -> (res: Result<bool, HolonError>)
        ensures
            rview(res) == spec_require_bool(
                g@,
                self@,
                CorePropertyTypeName::AllowsAdditionalProperties.spec_name(),
            ),
    {
        require_bool(g, self.holon, &CorePropertyTypeName::AllowsAdditionalProperties.as_property_name())
    }

    /// Returns whether instances may carry relationships beyond the descriptor declaration.
    pub fn allows_additional_relationships(&self, g: &HolonGraph) -> (res: Result<bool, HolonError>)
        ensures
            rview(res) == spec_require_bool(
                g@,
                self@,
                CorePropertyTypeName::AllowsAdditionalRelationships.spec_name(),
            ),
    {
        require_bool(g, self.holon, &CorePropertyTypeName::AllowsAdditionalRelationships.as_property_name())
    }

    /// Returns instance property descriptors across the inheritance chain, self first.
    pub fn instance_properties(&self, g: &HolonGraph) -> (res: Result<Vec<PropertyDescriptor>, HolonError>)
        ensures
            rview(res) == spec_flatten(g@, self@, CoreRelationshipTypeName::InstanceProperties.spec_name()),
    {
        let members = flatten_related_members(g, self.holon, CoreRelationshipTypeName::InstanceProperties)?;
        Ok(wrap_all_property_descriptor(members))
    }

    /// Returns instance relationship descriptors across the inheritance chain, self first.
    pub fn instance_relationships(&self, g: &HolonGraph) -> (res: Result<Vec<RelationshipDescriptor>, HolonError>)
        ensures
            rview(res) == spec_flatten(g@, self@, CoreRelationshipTypeName::InstanceRelationships.spec_name()),
    {
        let members = flatten_related_members(g, self.holon, CoreRelationshipTypeName::InstanceRelationships)?;
        Ok(wrap_all_relationship_descriptor(members))
    }

    /// Returns command descriptors across the inheritance chain, self first.
    pub fn afforded_commands(&self, g: &HolonGraph) -> (res: Result<Vec<CommandDescriptor>, HolonError>)
        ensures
            rview(res) == spec_flatten(g@, self@, CoreRelationshipTypeName::AffordsCommand.spec_name()),
    {
        let members = flatten_related_members(g, self.holon, CoreRelationshipTypeName::AffordsCommand)?;
        Ok(wrap_all_command_descriptor(members))
    }

    /// Returns dance descriptors across the inheritance chain, self first.
    pub fn afforded_dances(&self, g: &HolonGraph) -> (res: Result<Vec<DanceDescriptor>, HolonError>)
        ensures
            rview(res) == spec_flatten(g@, self@, CoreRelationshipTypeName::Affords.spec_name()),
    {
        let members = flatten_related_members(g, self.holon, CoreRelationshipTypeName::Affords)?;
        Ok(wrap_all_dance_descriptor(members))
    }

    /// Returns property type descriptors across the inheritance chain, self first.
    pub fn properties(&self, g: &HolonGraph) -> (res: Result<Vec<PropertyDescriptor>, HolonError>)
        ensures
            rview(res) == spec_flatten(g@, self@, CoreRelationshipTypeName::Properties.spec_name()),
    {
        let members = flatten_related_members(g, self.holon, CoreRelationshipTypeName::Properties)?;
        Ok(wrap_all_property_descriptor(members))
    }

    /// Finds an effective instance property by its `TypeName`.
    pub fn get_property_by_name(&self, g: &HolonGraph, name: &str) -> (res: Result<PropertyDescriptor, HolonError>)
        ensures
            rview(res) == spec_get_by_name(g@, self@, CoreRelationshipTypeName::InstanceProperties, spec_type_case(name@), "property"@),
    {
        let members = flatten_related_members(g, self.holon, CoreRelationshipTypeName::InstanceProperties)?;
        let found = find_unique_by_name(g, &members, &MapString(to_type_case(name)), "property", self.holon)?;
        Ok(PropertyDescriptor::from_holon(found))
    }

    /// Finds an effective command affordance by command descriptor `TypeName`.
    pub fn get_command_by_name(&self, g: &HolonGraph, name: &str) -> (res: Result<CommandDescriptor, HolonError>)
        ensures
            rview(res) == spec_get_by_name(g@, self@, CoreRelationshipTypeName::AffordsCommand, spec_type_case(name@), "command"@),
    {
        let members = flatten_related_members(g, self.holon, CoreRelationshipTypeName::AffordsCommand)?;
        let found = find_unique_by_name(g, &members, &MapString(to_type_case(name)), "command", self.holon)?;
        Ok(CommandDescriptor::from_holon(found))
    }

    /// Finds an effective dance affordance by dance descriptor `TypeName`.
    pub fn get_dance_by_name(&self, g: &HolonGraph, name: &str) -> (res: Result<DanceDescriptor, HolonError>)
        ensures
            rview(res) == spec_get_by_name(g@, self@, CoreRelationshipTypeName::Affords, spec_type_case(name@), "dance"@),
    {
        let members = flatten_related_members(g, self.holon, CoreRelationshipTypeName::Affords)?;
        let found = find_unique_by_name(g, &members, &MapString(to_type_case(name)), "dance", self.holon)?;
        Ok(DanceDescriptor::from_holon(found))
    }

    /// Finds an effective instance relationship by its base relationship name.
    pub fn get_relationship_by_name(&self, g: &HolonGraph, name: &str) -> (res: Result<RelationshipDescriptor, HolonError>)
        ensures
            rview(res) == spec_get_by_name(g@, self@, CoreRelationshipTypeName::InstanceRelationships, spec_type_case(name@), "relationship"@),
    {
        let members = flatten_related_members(g, self.holon, CoreRelationshipTypeName::InstanceRelationships)?;
        let found = find_unique_by_name(g, &members, &MapString(to_type_case(name)), "relationship", self.holon)?;
        Ok(RelationshipDescriptor::from_holon(found))
    }

    /// Finds an effective instance relationship whose base name is exactly `name`.
    pub(crate) fn relationship_named(&self, g: &HolonGraph, name: &MapString) -> (res: Result<
        RelationshipDescriptor,
        HolonError,
    >)
        ensures
            rview(res) == spec_get_by_name(g@, self@, CoreRelationshipTypeName::InstanceRelationships, name@, "relationship"@),
    {
        let members = flatten_related_members(g, self.holon, CoreRelationshipTypeName::InstanceRelationships)?;
        let found = find_unique_by_name(g, &members, name, "relationship", self.holon)?;
        Ok(RelationshipDescriptor::from_holon(found))
    }

    /// Validates that the relationship named `name` (spelled as type names are) is
    /// effective outbound from this descriptor, declared or inverse.
    pub fn allows_relationship(&self, g: &HolonGraph, name: &str) -> (res: Result<QualifiedRelationship, HolonError>)
        ensures
            rview(res) == spec_allows_relationship(g@, self@, spec_type_case(name@)),
    {
        allows_relationship(g, self, &RelationshipName(MapString(to_type_case(name))))
    }

    /// Finds the inverse descriptor of an effective declared relationship name.
    pub fn get_inverse_relationship_by_name(&self, g: &HolonGraph, declared_name: &str) -> (res: Result<
        InverseRelationshipDescriptor,
        HolonError,
    >)
        ensures
            rview(res) == spec_get_inverse_by_name(g@, self@, spec_type_case(declared_name@)),
    {
        let declared = self.get_relationship_by_name(g, declared_name)?.try_into_declared_relationship_descriptor(g)?;
        match declared.has_inverse(g)? {
            Some(inverse) => Ok(inverse),
            None => Err(
                HolonError::MissingRequiredRelationship {
                    relationship: String::from_str("HasInverse"),
                    descriptor: declared.holon(),
                },
            ),
        }
    }
}

} // verus!
