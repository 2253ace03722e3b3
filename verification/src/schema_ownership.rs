//! Local schema ownership of descriptors and rules, and schema membership reads.
use crate::definition_identity::lineage_contains;
use crate::error::{rview, ErrorView, HolonError};
use crate::graph::{spec_related, HolonGraph, HolonReference, HolonView};
use crate::inheritance::{ancestors, spec_ancestors};
use crate::names::CoreRelationshipTypeName;
use crate::structural_diagnosis::{
    local_targets, resolve_describing_type, spec_describing_type, DescribingTypeResolution, DescribingView,
};
use crate::assessment_reader::{operational, read_view, AssessmentReadError, CurrentDescriptorReader, DescriptorReader, ReadErrorView};
use crate::selected_lineage::{
    law_current_reader_reads_ordinary_targets, law_current_reader_walks_ordinary_lineage, local_targets_with_reader,
    spec_ancestors_with_reader, spec_local_targets_with_reader, walk_extends_chain_with_reader,
};
use crate::structural_diagnosis::{law_current_reader_diagnoses_ordinarily, resolve_describing_type_with_reader, spec_describing_type_with_reader};
use vstd::prelude::*;

verus! {

/// The separate authored ownership namespaces.
#[derive(Clone, Copy, Debug, PartialEq, Eq, Structural)]
pub enum SchemaOwnershipKind {
    Component,
    Rule,
}

impl SchemaOwnershipKind {
    /// The relationship that records ownership of this kind.
    pub open spec fn spec_relationship(self) -> CoreRelationshipTypeName {
        match self {
            SchemaOwnershipKind::Component => CoreRelationshipTypeName::ComponentOf,
            SchemaOwnershipKind::Rule => CoreRelationshipTypeName::RuleOf,
        }
    }

    /// Returns the relationship that records ownership of this kind.
    pub fn relationship(self) -> (r: CoreRelationshipTypeName)
        ensures
            r == self.spec_relationship(),
    {
        match self {
            SchemaOwnershipKind::Component => CoreRelationshipTypeName::ComponentOf,
            SchemaOwnershipKind::Rule => CoreRelationshipTypeName::RuleOf,
        }
    }
}

/// Readable ownership outcomes; defects retain all targets for diagnostics.
#[derive(Clone, Debug)]
pub enum SchemaOwnershipResolution {
    Missing,
    Multiple(Vec<HolonReference>),
    InvalidOwner { owner: HolonReference, describing: DescribingTypeResolution },
    MalformedOwnerLineage { owner: HolonReference, defect: HolonError },
    OwnedBy(HolonReference),
}

/// The mathematical content of a `SchemaOwnershipResolution`.
pub enum OwnershipView {
    Missing,
    Multiple(Seq<HolonReference>),
    InvalidOwner { owner: HolonReference, describing: DescribingView },
    MalformedOwnerLineage { owner: HolonReference, defect: ErrorView },
    OwnedBy(HolonReference),
}

impl View for SchemaOwnershipResolution {
    type V = OwnershipView;

    open spec fn view(&self) -> OwnershipView {
        match self {
            SchemaOwnershipResolution::Missing => OwnershipView::Missing,
            SchemaOwnershipResolution::Multiple(v) => OwnershipView::Multiple(v@),
            SchemaOwnershipResolution::InvalidOwner { owner, describing } => OwnershipView::InvalidOwner {
                owner: *owner,
                describing: describing@,
            },
            SchemaOwnershipResolution::MalformedOwnerLineage { owner, defect } => OwnershipView::MalformedOwnerLineage {
                owner: *owner,
                defect: defect@,
            },
            SchemaOwnershipResolution::OwnedBy(o) => OwnershipView::OwnedBy(*o),
        }
    }
}

impl DeepView for SchemaOwnershipResolution {
    type V = OwnershipView;

    open spec fn deep_view(&self) -> OwnershipView {
        self@
    }
}

/// Local ownership of `subject` under `kind`: no owner, several owners, or the
/// single owner, which must be described by a unique descriptor whose lineage
/// reaches `schema_type`. A multiply-extended or cyclic owner lineage is a
/// readable defect; other read failures are errors.
pub open spec fn spec_schema_ownership(
    g: Seq<HolonView>,
    subject: HolonReference,
    kind: SchemaOwnershipKind,
    schema_type: HolonReference,
) -> Result<OwnershipView, ErrorView> {
    match spec_related(g, subject, kind.spec_relationship().spec_name()) {
        Err(e) => Err(e),
        Ok(ts) => if ts.len() == 0 {
            Ok(OwnershipView::Missing)
        } else if ts.len() > 1 {
            Ok(OwnershipView::Multiple(ts))
        } else {
            let owner = ts[0];
            match spec_describing_type(g, owner) {
                Err(e) => Err(e),
                Ok(DescribingView::Unique(d)) => match spec_ancestors(g, d) {
                    Ok(l) => if l.contains(schema_type) {
                        Ok(OwnershipView::OwnedBy(owner))
                    } else {
                        Ok(OwnershipView::InvalidOwner { owner, describing: DescribingView::Unique(d) })
                    },
                    Err(ErrorView::MultipleExtends { descriptor, count }) => Ok(
                        OwnershipView::MalformedOwnerLineage {
                            owner,
                            defect: ErrorView::MultipleExtends { descriptor, count },
                        },
                    ),
                    Err(ErrorView::CyclicExtends { descriptor }) => Ok(
                        OwnershipView::MalformedOwnerLineage { owner, defect: ErrorView::CyclicExtends { descriptor } },
                    ),
                    Err(e) => Err(e),
                },
                Ok(describing) => Ok(OwnershipView::InvalidOwner { owner, describing }),
            }
        },
    }
}

/// Resolves local ownership; the caller supplies the designated Schema type identity.
pub fn resolve_schema_ownership(
    g: &HolonGraph,
    subject: HolonReference,
    kind: SchemaOwnershipKind,
    schema_type: HolonReference,
) -> (res: Result<SchemaOwnershipResolution, HolonError>)
    ensures
        rview(res) == spec_schema_ownership(g@, subject, kind, schema_type),
{
    let targets = local_targets(g, subject, kind.relationship())?;
    if targets.len() == 0 {
        return Ok(SchemaOwnershipResolution::Missing);
    }
    if targets.len() > 1 {
        return Ok(SchemaOwnershipResolution::Multiple(targets));
    }
    let owner = targets[0];
    let describing = resolve_describing_type(g, owner)?;
    if let DescribingTypeResolution::Unique(d) = describing {
        match ancestors(g, d) {
            Ok(lineage) => {
                assert(lineage.deep_view() =~= lineage@);
                if lineage_contains(&lineage, &schema_type) {
                    return Ok(SchemaOwnershipResolution::OwnedBy(owner));
                }
                return Ok(SchemaOwnershipResolution::InvalidOwner { owner, describing });
            },
            Err(HolonError::MultipleExtends { descriptor, count }) => {
                return Ok(
                    SchemaOwnershipResolution::MalformedOwnerLineage {
                        owner,
                        defect: HolonError::MultipleExtends { descriptor, count },
                    },
                );
            },
            Err(HolonError::CyclicExtends { descriptor }) => {
                return Ok(
                    SchemaOwnershipResolution::MalformedOwnerLineage {
                        owner,
                        defect: HolonError::CyclicExtends { descriptor },
                    },
                );
            },
            Err(e) => {
                return Err(e);
            },
        }
    }
    Ok(SchemaOwnershipResolution::InvalidOwner { owner, describing })
}

/// Reads authored, local schema dependencies without transitive expansion.
pub fn schema_dependencies(g: &HolonGraph, schema: HolonReference) -> (res: Result<Vec<HolonReference>, HolonError>)
    ensures
        rview(res) == spec_related(g@, schema, CoreRelationshipTypeName::DependsOn.spec_name()),
{
    local_targets(g, schema, CoreRelationshipTypeName::DependsOn)
}

/// Reads a schema's descriptor membership.
pub fn schema_components(g: &HolonGraph, schema: HolonReference) -> (res: Result<Vec<HolonReference>, HolonError>)
    ensures
        rview(res) == spec_related(g@, schema, CoreRelationshipTypeName::Components.spec_name()),
{
    local_targets(g, schema, CoreRelationshipTypeName::Components)
}

/// Reads a schema's owned rules, separately from its descriptor components.
pub fn schema_rules(g: &HolonGraph, schema: HolonReference) -> (res: Result<Vec<HolonReference>, HolonError>)
    ensures
        rview(res) == spec_related(g@, schema, CoreRelationshipTypeName::Rules.spec_name()),
{
    local_targets(g, schema, CoreRelationshipTypeName::Rules)
}


/// Local ownership read through `reader`, by the same rules as
/// `spec_schema_ownership`, against the selected `schema_type`.
pub open spec fn spec_schema_ownership_with_reader<R: DescriptorReader>(
    g: Seq<HolonView>,
    reader: R,
    subject: HolonReference,
    kind: SchemaOwnershipKind,
    schema_type: HolonReference,
) -> Result<OwnershipView, ReadErrorView> {
    match reader.spec_select(g, schema_type) {
        Err(e) => Err(e),
        Ok(schema_type) => match spec_local_targets_with_reader(
            g,
            reader,
            subject,
            kind.spec_relationship().spec_name(),
        ) {
            Err(e) => Err(e),
            Ok(ts) => if ts.len() == 0 {
                Ok(OwnershipView::Missing)
            } else if ts.len() > 1 {
                Ok(OwnershipView::Multiple(ts))
            } else {
                let owner = ts[0];
                match spec_describing_type_with_reader(g, reader, owner) {
                    Err(e) => Err(e),
                    Ok(DescribingView::Unique(d)) => match spec_ancestors_with_reader(g, reader, d) {
                        Ok(l) => if l.contains(schema_type) {
                            Ok(OwnershipView::OwnedBy(owner))
                        } else {
                            Ok(OwnershipView::InvalidOwner { owner, describing: DescribingView::Unique(d) })
                        },
                        Err(ReadErrorView::Operational(ErrorView::MultipleExtends { descriptor, count })) => Ok(
                            OwnershipView::MalformedOwnerLineage {
                                owner,
                                defect: ErrorView::MultipleExtends { descriptor, count },
                            },
                        ),
                        Err(ReadErrorView::Operational(ErrorView::CyclicExtends { descriptor })) => Ok(
                            OwnershipView::MalformedOwnerLineage {
                                owner,
                                defect: ErrorView::CyclicExtends { descriptor },
                            },
                        ),
                        Err(e) => Err(e),
                    },
                    Ok(describing) => Ok(OwnershipView::InvalidOwner { owner, describing }),
                }
            },
        },
    }
}

/// Resolves ownership from the same selected content used by other commitment checks.
pub fn resolve_schema_ownership_with_reader<R: DescriptorReader>(
    g: &HolonGraph,
    subject: HolonReference,
    kind: SchemaOwnershipKind,
    schema_type: HolonReference,
    reader: &R,
) -> (res: Result<SchemaOwnershipResolution, AssessmentReadError>)
    ensures
        read_view(res) == spec_schema_ownership_with_reader(g@, *reader, subject, kind, schema_type),
{
    let schema_type = reader.select(g, schema_type)?;
    let targets = local_targets_with_reader(g, subject, kind.relationship(), reader)?;
    if targets.len() == 0 {
        return Ok(SchemaOwnershipResolution::Missing);
    }
    if targets.len() > 1 {
        return Ok(SchemaOwnershipResolution::Multiple(targets));
    }
    let owner = targets[0];
    let describing = resolve_describing_type_with_reader(g, owner, reader)?;
    if let DescribingTypeResolution::Unique(d) = describing {
        let walk = walk_extends_chain_with_reader(g, d, reader);
        match walk.error {
            None => {
                if lineage_contains(&walk.members, &schema_type) {
                    return Ok(SchemaOwnershipResolution::OwnedBy(owner));
                }
                return Ok(SchemaOwnershipResolution::InvalidOwner { owner, describing });
            },
            Some(AssessmentReadError::Operational(HolonError::MultipleExtends { descriptor, count })) => {
                return Ok(
                    SchemaOwnershipResolution::MalformedOwnerLineage {
                        owner,
                        defect: HolonError::MultipleExtends { descriptor, count },
                    },
                );
            },
            Some(AssessmentReadError::Operational(HolonError::CyclicExtends { descriptor })) => {
                return Ok(
                    SchemaOwnershipResolution::MalformedOwnerLineage {
                        owner,
                        defect: HolonError::CyclicExtends { descriptor },
                    },
                );
            },
            Some(e) => {
                return Err(e);
            },
        }
    }
    Ok(SchemaOwnershipResolution::InvalidOwner { owner, describing })
}

/// Reads prospective schema dependencies without merging ownership namespaces.
pub fn schema_dependencies_with_reader<R: DescriptorReader>(g: &HolonGraph, schema: HolonReference, reader: &R) -> (res:
    Result<Vec<HolonReference>, AssessmentReadError>)
    ensures
        read_view(res) == spec_local_targets_with_reader(
            g@,
            *reader,
            schema,
            CoreRelationshipTypeName::DependsOn.spec_name(),
        ),
{
    local_targets_with_reader(g, schema, CoreRelationshipTypeName::DependsOn, reader)
}

/// Reads prospective schema components without merging ownership namespaces.
pub fn schema_components_with_reader<R: DescriptorReader>(g: &HolonGraph, schema: HolonReference, reader: &R) -> (res:
    Result<Vec<HolonReference>, AssessmentReadError>)
    ensures
        read_view(res) == spec_local_targets_with_reader(
            g@,
            *reader,
            schema,
            CoreRelationshipTypeName::Components.spec_name(),
        ),
{
    local_targets_with_reader(g, schema, CoreRelationshipTypeName::Components, reader)
}

/// Reads prospective schema rules without merging ownership namespaces.
pub fn schema_rules_with_reader<R: DescriptorReader>(g: &HolonGraph, schema: HolonReference, reader: &R) -> (res:
    Result<Vec<HolonReference>, AssessmentReadError>)
    ensures
        read_view(res) == spec_local_targets_with_reader(
            g@,
            *reader,
            schema,
            CoreRelationshipTypeName::Rules.spec_name(),
        ),
{
    local_targets_with_reader(g, schema, CoreRelationshipTypeName::Rules, reader)
}

/// Resolving ownership through `CurrentDescriptorReader` gives exactly the
/// ordinary resolution, with each ordinary read error reported as an
/// operational failure.
pub proof fn law_current_reader_resolves_ordinary_ownership(
    g: Seq<HolonView>,
    subject: HolonReference,
    kind: SchemaOwnershipKind,
    schema_type: HolonReference,
)
    ensures
        spec_schema_ownership_with_reader(g, CurrentDescriptorReader, subject, kind, schema_type) == operational(
            spec_schema_ownership(g, subject, kind, schema_type),
        ),
{
    law_current_reader_reads_ordinary_targets(g, subject, kind.spec_relationship().spec_name());
    match spec_related(g, subject, kind.spec_relationship().spec_name()) {
        Ok(ts) => if ts.len() == 1 {
            law_current_reader_diagnoses_ordinarily(g, ts[0], schema_type);
            match spec_describing_type(g, ts[0]) {
                Ok(DescribingView::Unique(d)) => {
                    law_current_reader_walks_ordinary_lineage(g, d);
                },
                _ => {},
            }
        },
        Err(_) => {},
    }
}

} // verus!
