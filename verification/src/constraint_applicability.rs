//! Which descriptor types a constraint type applies to.
use crate::definition_identity::lineage_contains;
use crate::error::{rview, ErrorView, HolonError};
use crate::graph::{HolonGraph, HolonReference, HolonView};
use crate::inheritance::{ancestors, effective_relationship_members, spec_ancestors, spec_effective_members, EffectiveRelationshipMember};
use crate::names::CoreRelationshipTypeName;
use crate::assessment_reader::{operational, read_view, AssessmentReadError, CurrentDescriptorReader, DescriptorReader, ReadErrorView};
use crate::selected_lineage::{
    effective_relationship_targets_with_reader, law_current_reader_reads_ordinary_members,
    law_current_reader_walks_ordinary_lineage, spec_ancestors_with_reader, spec_effective_members_with_reader,
    walk_extends_chain_with_reader,
};
use vstd::prelude::*;

verus! {

/// The descriptor types a constraint type declares itself applicable to.
pub open spec fn spec_applicable_types(g: Seq<HolonView>, constraint_type: HolonReference) -> Result<
    Seq<HolonReference>,
    ErrorView,
> {
    match spec_effective_members(g, constraint_type, CoreRelationshipTypeName::ApplicableToDescriptorTypes) {
        Err(e) => Err(e),
        Ok(ms) => Ok(ms.map_values(|m: EffectiveRelationshipMember| m.member)),
    }
}

/// Whether some member of `ts[i..]` occurs in `lineage`.
pub open spec fn any_in_lineage(lineage: Seq<HolonReference>, ts: Seq<HolonReference>, i: int) -> bool
    decreases ts.len() - i,
{
    if i < 0 || i >= ts.len() {
        false
    } else {
        lineage.contains(ts[i]) || any_in_lineage(lineage, ts, i + 1)
    }
}

/// Whether some applicable type of `constraint_type` occurs in the lineage of `descriptor`.
pub open spec fn spec_constraint_applies_to(
    g: Seq<HolonView>,
    constraint_type: HolonReference,
    descriptor: HolonReference,
) -> Result<bool, ErrorView> {
    match spec_ancestors(g, descriptor) {
        Err(e) => Err(e),
        Ok(lineage) => match spec_applicable_types(g, constraint_type) {
            Err(e) => Err(e),
            Ok(ts) => Ok(any_in_lineage(lineage, ts, 0)),
        },
    }
}

/// Reads the descriptor types a constraint type applies to.
pub fn applicable_descriptor_types(g: &HolonGraph, constraint_type: HolonReference) -> (res: Result<
    Vec<HolonReference>,
    HolonError,
>)
    ensures
        rview(res) == spec_applicable_types(g@, constraint_type),
{
    let ms = effective_relationship_members(
        g,
        constraint_type,
        CoreRelationshipTypeName::ApplicableToDescriptorTypes,
    )?;
    let mut out: Vec<HolonReference> = Vec::new();
    let mut i: usize = 0;
    while i < ms.len()
        invariant
            i <= ms.len(),
            out@ == ms@.subrange(0, i as int).map_values(|m: EffectiveRelationshipMember| m.member),
        decreases ms.len() - i,
    {
        out.push(ms[i].member);
        i = i + 1;
        assert(out@ =~= ms@.subrange(0, i as int).map_values(|m: EffectiveRelationshipMember| m.member));
    }
    assert(ms@.subrange(0, i as int) =~= ms@);
    assert(out.deep_view() =~= out@);
    Ok(out)
}

/// Tests identity/lineage applicability of a constraint type to a descriptor.
pub fn constraint_applies_to(g: &HolonGraph, constraint_type: HolonReference, descriptor: HolonReference) -> (res:
    Result<bool, HolonError>)
    ensures
        rview(res) == spec_constraint_applies_to(g@, constraint_type, descriptor),
{
    let lineage = ancestors(g, descriptor)?;
    let targets = applicable_descriptor_types(g, constraint_type)?;
    assert(lineage.deep_view() =~= lineage@);
    assert(targets.deep_view() =~= targets@);
    let mut i: usize = 0;
    while i < targets.len()
        invariant
            i <= targets.len(),
            spec_ancestors(g@, descriptor) == Ok::<Seq<HolonReference>, ErrorView>(lineage@),
            spec_applicable_types(g@, constraint_type) == Ok::<Seq<HolonReference>, ErrorView>(targets@),
            any_in_lineage(lineage@, targets@, 0) == any_in_lineage(lineage@, targets@, i as int),
        decreases targets.len() - i,
    {
        if lineage_contains(&lineage, &targets[i]) {
            return Ok(true);
        }
        i = i + 1;
    }
    Ok(false)
}


/// The descriptor types a constraint type applies to, read through `reader`.
pub open spec fn spec_applicable_types_with_reader<R: DescriptorReader>(
    g: Seq<HolonView>,
    reader: R,
    constraint_type: HolonReference,
) -> Result<Seq<HolonReference>, ReadErrorView> {
    match spec_effective_members_with_reader(
        g,
        reader,
        constraint_type,
        CoreRelationshipTypeName::ApplicableToDescriptorTypes,
    ) {
        Err(e) => Err(e),
        Ok(ms) => Ok(ms.map_values(|m: EffectiveRelationshipMember| m.member)),
    }
}

/// Applicability read through `reader`: the selected lineage of `descriptor`
/// is read first, then the selected applicable types.
pub open spec fn spec_constraint_applies_to_with_reader<R: DescriptorReader>(
    g: Seq<HolonView>,
    reader: R,
    constraint_type: HolonReference,
    descriptor: HolonReference,
) -> Result<bool, ReadErrorView> {
    match spec_ancestors_with_reader(g, reader, descriptor) {
        Err(e) => Err(e),
        Ok(lineage) => match spec_applicable_types_with_reader(g, reader, constraint_type) {
            Err(e) => Err(e),
            Ok(ts) => Ok(any_in_lineage(lineage, ts, 0)),
        },
    }
}

/// Resolves applicability declarations from prospective content.
pub fn applicable_descriptor_types_with_reader<R: DescriptorReader>(
    g: &HolonGraph,
    constraint_type: HolonReference,
    reader: &R,
) -> (res: Result<Vec<HolonReference>, AssessmentReadError>)
    ensures
        read_view(res) == spec_applicable_types_with_reader(g@, *reader, constraint_type),
        res matches Ok(v) ==> spec_applicable_types_with_reader(g@, *reader, constraint_type) == Ok::<
            Seq<HolonReference>,
            ReadErrorView,
        >(v@),
{
    let ms = effective_relationship_targets_with_reader(
        g,
        constraint_type,
        CoreRelationshipTypeName::ApplicableToDescriptorTypes,
        reader,
    )?;
    let mut out: Vec<HolonReference> = Vec::new();
    let mut i: usize = 0;
    while i < ms.len()
        invariant
            i <= ms.len(),
            out@ == ms@.subrange(0, i as int).map_values(|m: EffectiveRelationshipMember| m.member),
        decreases ms.len() - i,
    {
        out.push(ms[i].member);
        i = i + 1;
        assert(out@ =~= ms@.subrange(0, i as int).map_values(|m: EffectiveRelationshipMember| m.member));
    }
    assert(ms@.subrange(0, i as int) =~= ms@);
    assert(out.deep_view() =~= out@);
    Ok(out)
}

/// Tests applicability in the same prospective view as structural and binding assessment.
pub fn constraint_applies_to_with_reader<R: DescriptorReader>(
    g: &HolonGraph,
    constraint_type: HolonReference,
    descriptor: HolonReference,
    reader: &R,
) -> (res: Result<bool, AssessmentReadError>)
    ensures
        read_view(res) == spec_constraint_applies_to_with_reader(g@, *reader, constraint_type, descriptor),
{
    let walk = walk_extends_chain_with_reader(g, descriptor, reader);
    if let Some(e) = walk.error {
        return Err(e);
    }
    let lineage = walk.members;
    let targets = applicable_descriptor_types_with_reader(g, constraint_type, reader)?;
    let mut i: usize = 0;
    while i < targets.len()
        invariant
            i <= targets.len(),
            spec_ancestors_with_reader(g@, *reader, descriptor) == Ok::<Seq<HolonReference>, ReadErrorView>(lineage@),
            spec_applicable_types_with_reader(g@, *reader, constraint_type) == Ok::<
                Seq<HolonReference>,
                ReadErrorView,
            >(targets@),
            any_in_lineage(lineage@, targets@, 0) == any_in_lineage(lineage@, targets@, i as int),
        decreases targets.len() - i,
    {
        if lineage_contains(&lineage, &targets[i]) {
            return Ok(true);
        }
        i = i + 1;
    }
    Ok(false)
}

/// Testing applicability through `CurrentDescriptorReader` gives exactly the
/// ordinary answer, with each ordinary read error reported as an operational failure.
pub proof fn law_current_reader_applies_ordinarily(
    g: Seq<HolonView>,
    constraint_type: HolonReference,
    descriptor: HolonReference,
)
    ensures
        spec_applicable_types_with_reader(g, CurrentDescriptorReader, constraint_type) == operational(
            spec_applicable_types(g, constraint_type),
        ),
        spec_constraint_applies_to_with_reader(g, CurrentDescriptorReader, constraint_type, descriptor)
            == operational(spec_constraint_applies_to(g, constraint_type, descriptor)),
{
    law_current_reader_reads_ordinary_members(
        g,
        constraint_type,
        CoreRelationshipTypeName::ApplicableToDescriptorTypes,
        crate::inheritance::spec_inheritance_rule(CoreRelationshipTypeName::ApplicableToDescriptorTypes),
    );
    law_current_reader_walks_ordinary_lineage(g, descriptor);
}

} // verus!
