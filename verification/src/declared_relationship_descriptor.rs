//! Runtime wrapper for declared relationship descriptors.
use crate::accessor_helpers::{
    optional_string, relationship_full_relationship_name, require_bool, require_integer,
    require_single_related, spec_full_relationship_name, spec_optional_string, spec_require_bool,
    spec_require_integer, spec_require_single_related,
};
use crate::descriptor::Descriptor;
use crate::error::{rview, ErrorView, HolonError};
use crate::graph::{HolonGraph, HolonReference, HolonView};
use crate::holon_descriptor::HolonDescriptor;
use crate::names::{CoreHolonTypeName, CorePropertyTypeName, CoreRelationshipTypeName};
use crate::type_header::{spec_type_name, TypeHeader};
use crate::values::{MapString, RelationshipName};
use vstd::prelude::*;
use crate::accessor_helpers::{optional_single_related, spec_optional_single_related, validate_extends_chain_reaches};
use crate::inverse_relationship_descriptor::InverseRelationshipDescriptor;
use crate::relationship_descriptor::{spec_as_declared, spec_as_inverse};
use vstd::string::*;

verus! {

/// The inverse named by `HasInverse`, when populated: absent is `None`, more
/// than one target or a target that is not an inverse descriptor is an error.
pub open spec fn spec_has_inverse(g: Seq<HolonView>, r: HolonReference) -> Result<Option<HolonReference>, ErrorView> {
    match spec_optional_single_related(g, r, CoreRelationshipTypeName::HasInverse) {
        Err(e) => Err(e),
        Ok(None) => Ok(None),
        Ok(Some(i)) => match spec_as_inverse(g, i) {
            Ok(i) => Ok(Some(i)),
            Err(e) => Err(e),
        },
    }
}

/// The required inverse: `has_inverse` with absence reported as a missing `HasInverse`.
pub open spec fn spec_required_inverse(g: Seq<HolonView>, r: HolonReference) -> Result<HolonReference, ErrorView> {
    match spec_has_inverse(g, r) {
        Err(e) => Err(e),
        Ok(Some(i)) => Ok(i),
        Ok(None) => Err(ErrorView::MissingRequiredRelationship { relationship: "HasInverse"@, descriptor: r }),
    }
}

/// Runtime wrapper for declared relationship descriptors.
///
/// Construction validates that the descriptor's `Extends` lineage reaches
/// `DeclaredRelationshipType`.
pub struct DeclaredRelationshipDescriptor {
    holon: HolonReference,
}

impl View for DeclaredRelationshipDescriptor {
    type V = HolonReference;

    closed spec fn view(&self) -> HolonReference {
        self.holon
    }
}

impl DeepView for DeclaredRelationshipDescriptor {
    type V = HolonReference;

    open spec fn deep_view(&self) -> HolonReference {
        self@
    }
}

impl Descriptor for DeclaredRelationshipDescriptor {
    open spec fn spec_holon(&self) -> HolonReference {
        self@
    }

    fn holon(&self) -> (r: HolonReference) {
        self.holon
    }
}

impl DeclaredRelationshipDescriptor {
    /// Wraps a relationship descriptor only if it extends `DeclaredRelationshipType`.
    pub fn try_from_holon(g: &HolonGraph, holon: HolonReference) -> (res: Result<Self, HolonError>)
        ensures
            rview(res) == spec_as_declared(g@, holon),
    {
        validate_extends_chain_reaches(g, holon, &CoreHolonTypeName::DeclaredRelationshipType.as_holon_name())?;
        Ok(Self { holon })
    }

    /// Projects the shared descriptor header view for this descriptor holon.
    pub fn header(&self) -> (h: TypeHeader)
        ensures
            h.holon == self@,
    {
        TypeHeader::new(self.holon)
    }

    /// Returns whether the relationship participates in defining identity or structure.
    pub fn is_definitional(&self, g: &HolonGraph) -> (res: Result<bool, HolonError>)
        ensures
            rview(res) == spec_require_bool(g@, self@, CorePropertyTypeName::IsDefinitional.spec_name()),
    {
        require_bool(g, self.holon, &CorePropertyTypeName::IsDefinitional.as_property_name())
    }

    /// Returns whether related members have schema-significant order.
    pub fn is_ordered(&self, g: &HolonGraph) -> (res: Result<bool, HolonError>)
        ensures
            rview(res) == spec_require_bool(g@, self@, CorePropertyTypeName::IsOrdered.spec_name()),
    {
        require_bool(g, self.holon, &CorePropertyTypeName::IsOrdered.as_property_name())
    }

    /// Returns whether repeated target references are allowed.
    pub fn allows_duplicates(&self, g: &HolonGraph) -> (res: Result<bool, HolonError>)
        ensures
            rview(res) == spec_require_bool(g@, self@, CorePropertyTypeName::AllowsDuplicates.spec_name()),
    {
        require_bool(g, self.holon, &CorePropertyTypeName::AllowsDuplicates.as_property_name())
    }

    /// Returns the minimum number of targets permitted by this relationship.
    pub fn min_cardinality(&self, g: &HolonGraph) -> (res: Result<i64, HolonError>)
        ensures
            rview(res) == spec_require_integer(g@, self@, CorePropertyTypeName::MinCardinality.spec_name()),
    {
        require_integer(g, self.holon, &CorePropertyTypeName::MinCardinality.as_property_name())
    }

    /// Returns the maximum number of targets permitted by this relationship.
    pub fn max_cardinality(&self, g: &HolonGraph) -> (res: Result<i64, HolonError>)
        ensures
            rview(res) == spec_require_integer(g@, self@, CorePropertyTypeName::MaxCardinality.spec_name()),
    {
        require_integer(g, self.holon, &CorePropertyTypeName::MaxCardinality.as_property_name())
    }

    /// Returns the optional deletion semantic declared by this relationship, when populated.
    pub fn deletion_semantic(&self, g: &HolonGraph) -> (res: Result<Option<MapString>, HolonError>)
        ensures
            rview(res) == spec_optional_string(g@, self@, CorePropertyTypeName::DeletionSemantic.spec_name()),
    {
        optional_string(g, self.holon, &CorePropertyTypeName::DeletionSemantic.as_property_name())
    }

    /// Returns this descriptor's base relationship name: its `TypeName`.
    pub fn base_relationship_name(&self, g: &HolonGraph) -> (res: Result<RelationshipName, HolonError>)
        ensures
            rview(res) == spec_type_name(g@, self@),
    {
        let n = TypeHeader::new(self.holon).declared_type_name(g)?;
        Ok(RelationshipName(n))
    }

    /// Returns the source holon descriptor reached through the required `SourceType` relationship.
    pub fn source_type(&self, g: &HolonGraph) -> (res: Result<HolonDescriptor, HolonError>)
        ensures
            rview(res) == spec_require_single_related(g@, self@, CoreRelationshipTypeName::SourceType),
    {
        let s = require_single_related(g, self.holon, CoreRelationshipTypeName::SourceType)?;
        Ok(HolonDescriptor::from_holon(s))
    }

    /// Returns the target holon descriptor reached through the required `TargetType` relationship.
    pub fn target_type(&self, g: &HolonGraph) -> (res: Result<HolonDescriptor, HolonError>)
        ensures
            rview(res) == spec_require_single_related(g@, self@, CoreRelationshipTypeName::TargetType),
    {
        let t = require_single_related(g, self.holon, CoreRelationshipTypeName::TargetType)?;
        Ok(HolonDescriptor::from_holon(t))
    }

    /// Returns the full `(Source)-[Base]->(Target)` relationship name.
    pub fn full_relationship_name(&self, g: &HolonGraph) -> (res: Result<MapString, HolonError>)
        ensures
            rview(res) == spec_full_relationship_name(g@, self@),
    {
        relationship_full_relationship_name(g, self.holon)
    }

    /// Returns another handle on the same descriptor.
    pub fn duplicate(&self) -> (r: DeclaredRelationshipDescriptor)
        ensures
            r@ == self@,
    {
        DeclaredRelationshipDescriptor { holon: self.holon }
    }

    /// Returns the inverse descriptor when a `HasInverse` edge is populated.
    pub fn has_inverse(&self, g: &HolonGraph) -> (res: Result<Option<InverseRelationshipDescriptor>, HolonError>)
        ensures
            rview(res) == spec_has_inverse(g@, self@),
    {
        match optional_single_related(g, self.holon, CoreRelationshipTypeName::HasInverse)? {
            None => Ok(None),
            Some(i) => Ok(Some(InverseRelationshipDescriptor::try_from_holon(g, i)?)),
        }
    }

    /// Returns the inverse descriptor, reporting a missing `HasInverse` as an error.
    pub fn required_inverse(&self, g: &HolonGraph) -> (res: Result<InverseRelationshipDescriptor, HolonError>)
        ensures
            rview(res) == spec_required_inverse(g@, self@),
    {
        match self.has_inverse(g)? {
            Some(i) => Ok(i),
            None => Err(
                HolonError::MissingRequiredRelationship {
                    relationship: String::from_str("HasInverse"),
                    descriptor: self.holon,
                },
            ),
        }
    }
}

} // verus!
