//! The member contract a descriptor defines, with contribution provenance.
use crate::error::{ErrorView, HolonError};
use crate::graph::{HolonGraph, HolonReference, HolonView};
use crate::inheritance::{effective_relationship_members, spec_effective_members, EffectiveRelationshipMember};
use crate::names::CoreRelationshipTypeName;
use crate::assessment_reader::{operational, AssessmentReadError, CurrentDescriptorReader, DescriptorReader, ReadErrorView};
use crate::selected_lineage::{effective_relationship_targets_with_reader, law_current_reader_reads_ordinary_members, spec_effective_members_with_reader};
use vstd::prelude::*;

verus! {

/// Additive member namespaces retaining distinct identities and contribution provenance.
#[derive(Clone, Debug)]
pub struct ContractContributions {
    pub properties: Vec<EffectiveRelationshipMember>,
    pub relationships: Vec<EffectiveRelationshipMember>,
}

/// The effective instance properties and instance relationships a descriptor defines.
pub open spec fn spec_contract_contributions(g: Seq<HolonView>, descriptor: HolonReference) -> Result<
    (Seq<EffectiveRelationshipMember>, Seq<EffectiveRelationshipMember>),
    ErrorView,
> {
    match spec_effective_members(g, descriptor, CoreRelationshipTypeName::InstanceProperties) {
        Err(e) => Err(e),
        Ok(p) => match spec_effective_members(g, descriptor, CoreRelationshipTypeName::InstanceRelationships) {
            Err(e) => Err(e),
            Ok(r) => Ok((p, r)),
        },
    }
}

impl ContractContributions {
    /// Reads the contract defined by `descriptor`, not its governing contract.
    pub fn resolve(g: &HolonGraph, descriptor: HolonReference) -> (res: Result<ContractContributions, HolonError>)
        ensures
            match res {
                Ok(c) => spec_contract_contributions(g@, descriptor) == Ok::<_, ErrorView>(
                    (c.properties@, c.relationships@),
                ),
                Err(e) => spec_contract_contributions(g@, descriptor) == Err::<
                    (Seq<EffectiveRelationshipMember>, Seq<EffectiveRelationshipMember>),
                    ErrorView,
                >(e@),
            },
    {
        let properties = effective_relationship_members(g, descriptor, CoreRelationshipTypeName::InstanceProperties)?;
        let relationships = effective_relationship_members(
            g,
            descriptor,
            CoreRelationshipTypeName::InstanceRelationships,
        )?;
        Ok(ContractContributions { properties, relationships })
    }
}

/// The contract `descriptor` defines, read through `reader`.
pub open spec fn spec_contract_contributions_with_reader<R: DescriptorReader>(
    g: Seq<HolonView>,
    reader: R,
    descriptor: HolonReference,
) -> Result<(Seq<EffectiveRelationshipMember>, Seq<EffectiveRelationshipMember>), ReadErrorView> {
    match spec_effective_members_with_reader(g, reader, descriptor, CoreRelationshipTypeName::InstanceProperties) {
        Err(e) => Err(e),
        Ok(p) => match spec_effective_members_with_reader(
            g,
            reader,
            descriptor,
            CoreRelationshipTypeName::InstanceRelationships,
        ) {
            Err(e) => Err(e),
            Ok(r) => Ok((p, r)),
        },
    }
}

impl ContractContributions {
    /// Preserves contribution provenance while selecting each prospective definition.
    pub fn resolve_with_reader<R: DescriptorReader>(g: &HolonGraph, descriptor: HolonReference, reader: &R) -> (res:
        Result<ContractContributions, AssessmentReadError>)
        ensures
            match res {
                Ok(c) => spec_contract_contributions_with_reader(g@, *reader, descriptor) == Ok::<_, ReadErrorView>(
                    (c.properties@, c.relationships@),
                ),
                Err(e) => spec_contract_contributions_with_reader(g@, *reader, descriptor) == Err::<
                    (Seq<EffectiveRelationshipMember>, Seq<EffectiveRelationshipMember>),
                    ReadErrorView,
                >(e@),
            },
    {
        let properties = effective_relationship_targets_with_reader(
            g,
            descriptor,
            CoreRelationshipTypeName::InstanceProperties,
            reader,
        )?;
        let relationships = effective_relationship_targets_with_reader(
            g,
            descriptor,
            CoreRelationshipTypeName::InstanceRelationships,
            reader,
        )?;
        Ok(ContractContributions { properties, relationships })
    }
}

/// Reading a contract through `CurrentDescriptorReader` gives exactly the
/// ordinary contract, with each ordinary read error reported as an operational failure.
pub proof fn law_current_reader_reads_ordinary_contract(g: Seq<HolonView>, descriptor: HolonReference)
    ensures
        spec_contract_contributions_with_reader(g, CurrentDescriptorReader, descriptor) == operational(
            spec_contract_contributions(g, descriptor),
        ),
{
    law_current_reader_reads_ordinary_members(
        g,
        descriptor,
        CoreRelationshipTypeName::InstanceProperties,
        crate::inheritance::spec_inheritance_rule(CoreRelationshipTypeName::InstanceProperties),
    );
    law_current_reader_reads_ordinary_members(
        g,
        descriptor,
        CoreRelationshipTypeName::InstanceRelationships,
        crate::inheritance::spec_inheritance_rule(CoreRelationshipTypeName::InstanceRelationships),
    );
}

} // verus!
