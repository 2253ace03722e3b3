//! Resolution of the inverse name of a declared relationship.
use crate::declared_relationship_descriptor::spec_required_inverse;
use crate::descriptor::Descriptor;
use crate::effective_relationships::{describing_declaration_named, spec_describing_declaration};
use crate::error::{rview, ErrorView, HolonError};
use crate::graph::{HolonGraph, HolonReference, HolonView};
use crate::names::CoreRelationshipTypeName;
use crate::relationship_descriptor::spec_as_declared;
use crate::type_header::{spec_type_name, TypeHeader};
use crate::values::RelationshipName;
use vstd::prelude::*;

verus! {

/// The inverse name of `forward` on `source`: `Owns` for `OwnedBy`, which is
/// resolved structurally; otherwise the name of the required inverse of the
/// declared relationship named `forward` in the contract of the source's
/// describing descriptor (the source's own `Extends` lineage licenses nothing).
pub open spec fn spec_inverse_relationship_name(g: Seq<HolonView>, source: HolonReference, forward: Seq<char>) -> Result<
    Seq<char>,
    ErrorView,
> {
    if forward == CoreRelationshipTypeName::OwnedBy.spec_name() {
        Ok(CoreRelationshipTypeName::Owns.spec_name())
    } else {
        match spec_describing_declaration(g, source, forward) {
            Err(e) => Err(e),
            Ok(d) => match spec_as_declared(g, d) {
                Err(e) => Err(e),
                Ok(d) => match spec_required_inverse(g, d) {
                    Err(e) => Err(e),
                    Ok(inv) => spec_type_name(g, inv),
                },
            },
        }
    }
}

/// Resolves the inverse relationship name for a declared relationship on `source_ref`.
///
/// The declared descriptor must carry exactly one `HasInverse` target.
/// `OwnedBy` is the exception: space membership is supplied by the
/// infrastructure before a holon is described, so its inverse is `Owns`
/// without a descriptor lookup.
pub fn resolve_inverse_relationship_name(g: &HolonGraph, source_ref: HolonReference, forward_name: &RelationshipName) -> (res:
    Result<RelationshipName, HolonError>)
    ensures
        rview(res) == spec_inverse_relationship_name(g@, source_ref, forward_name@),
{
    if forward_name.equals(&CoreRelationshipTypeName::OwnedBy.as_relationship_name()) {
        return Ok(CoreRelationshipTypeName::Owns.as_relationship_name());
    }
    let declared = describing_declaration_named(g, source_ref, &forward_name.0)?;
    let declared = declared.try_into_declared_relationship_descriptor(g)?;
    let inverse = declared.required_inverse(g)?;
    let name = TypeHeader::new(inverse.holon()).declared_type_name(g)?;
    Ok(RelationshipName(name))
}

} // verus!
