//! Effective outbound relationship discovery over the descriptor graph.
//!
//! A declared relationship is effective for a type when it is licensed on the
//! type's lineage through `InstanceRelationships`. An inverse relationship is
//! effective for a type when the declared relationship it inverts targets the
//! type (found through the materialized `TargetOf` index) and is licensed on
//! its own source type. Two declarations sharing a name within one effective
//! lineage are a `DuplicateInheritedDeclaration`; a requested name matching
//! several distinct candidates is an `AmbiguousRelationshipTraversal`.
use crate::accessor_helpers::spec_require_single_related;
use crate::declared_relationship_descriptor::{spec_has_inverse, spec_required_inverse, DeclaredRelationshipDescriptor};
use crate::descriptor::Descriptor;
use crate::error::{rview, ErrorView, HolonError};
use crate::graph::{HolonGraph, HolonPhase, HolonReference, HolonView};
use crate::holon_descriptor::{holon_descriptor, spec_holon_descriptor, HolonDescriptor};
use crate::inheritance::{effective_relationship_members, equals_or_extends, spec_effective_members, spec_equals_or_extends, EffectiveRelationshipMember, RelationshipDirection};
use crate::inverse_relationship_descriptor::InverseRelationshipDescriptor;
use crate::names::{spec_type_case, to_type_case, CoreRelationshipTypeName};
use crate::relationship_descriptor::{spec_as_declared, RelationshipDescriptor};
use crate::type_header::{spec_type_name, TypeHeader};
use crate::values::{MapString, RelationshipName};
use crate::accessor_helpers::names_contain;
use crate::inheritance::contains_reference;
use vstd::prelude::*;
use vstd::string::*;

verus! {

/// A relationship descriptor effective outbound from a descriptor endpoint.
pub struct QualifiedRelationship {
    /// The declared descriptor for declared navigation, the inverse descriptor for inverse navigation.
    pub descriptor: RelationshipDescriptor,
    /// Whether `descriptor` is the declared or the inverse relationship descriptor.
    pub descriptor_direction: RelationshipDirection,
}

impl DeepView for QualifiedRelationship {
    type V = (HolonReference, RelationshipDirection);

    open spec fn deep_view(&self) -> (HolonReference, RelationshipDirection) {
        (self.descriptor@, self.descriptor_direction)
    }
}

// ---------------------------------------------------------------------------
// Declared relationships
// ---------------------------------------------------------------------------

/// Narrows `ms[i..]` to declared relationship descriptors appended to `acc`,
/// rejecting a name already in `seen` as a duplicate declaration on `subject`.
pub open spec fn declared_from(
    g: Seq<HolonView>,
    ms: Seq<EffectiveRelationshipMember>,
    i: int,
    seen: Seq<Seq<char>>,
    acc: Seq<HolonReference>,
    subject: HolonReference,
) -> Result<Seq<HolonReference>, ErrorView>
    decreases ms.len() - i,
{
    if i < 0 || i >= ms.len() {
        Ok(acc)
    } else {
        match spec_type_name(g, ms[i].member) {
            Err(e) => Err(e),
            Ok(n) => if seen.contains(n) {
                Err(ErrorView::DuplicateInheritedDeclaration { kind: "relationship"@, name: n, descriptor: subject })
            } else {
                match spec_as_declared(g, ms[i].member) {
                    Err(e) => Err(e),
                    Ok(d) => declared_from(g, ms, i + 1, seen.push(n), acc.push(d), subject),
                }
            },
        }
    }
}

/// The declared relationships licensed on `endpoint` through its effective
/// `InstanceRelationships`, in effective order.
pub open spec fn spec_effective_declared(g: Seq<HolonView>, endpoint: HolonReference) -> Result<
    Seq<HolonReference>,
    ErrorView,
> {
    match spec_effective_members(g, endpoint, CoreRelationshipTypeName::InstanceRelationships) {
        Err(e) => Err(e),
        Ok(ms) => declared_from(g, ms, 0, Seq::empty(), Seq::empty(), endpoint),
    }
}

/// Narrows effective relationship members to declared descriptors, rejecting duplicate names.
pub fn collect_declared_from_relationship_members(
    g: &HolonGraph,
    members: &Vec<EffectiveRelationshipMember>,
    subject: HolonReference,
) -> (res: Result<Vec<DeclaredRelationshipDescriptor>, HolonError>)
    ensures
        rview(res) == declared_from(g@, members@, 0, Seq::empty(), Seq::empty(), subject),
{
    let mut seen: Vec<MapString> = Vec::new();
    let mut out: Vec<DeclaredRelationshipDescriptor> = Vec::new();
    assert(seen.deep_view() =~= Seq::<Seq<char>>::empty());
    assert(out.deep_view() =~= Seq::<HolonReference>::empty());
    let mut i: usize = 0;
    while i < members.len()
        invariant
            i <= members.len(),
            declared_from(g@, members@, 0, Seq::empty(), Seq::empty(), subject) == declared_from(
                g@,
                members@,
                i as int,
                seen.deep_view(),
                out.deep_view(),
                subject,
            ),
        decreases members.len() - i,
    {
        let member = members[i].member;
        let name = TypeHeader::new(member).declared_type_name(g)?;
        if names_contain(&seen, &name) {
            return Err(
                HolonError::DuplicateInheritedDeclaration {
                    kind: String::from_str("relationship"),
                    name: name.0,
                    descriptor: subject,
                },
            );
        }
        let declared = RelationshipDescriptor::from_holon(member).try_into_declared_relationship_descriptor(g)?;
        let ghost s0 = seen.deep_view();
        let ghost o0 = out.deep_view();
        seen.push(name);
        out.push(declared);
        assert(seen.deep_view() =~= s0.push(name@));
        assert(out.deep_view() =~= o0.push(member));
        i = i + 1;
    }
    Ok(out)
}

/// Enumerates the effective declared relationships of `endpoint`.
pub fn effective_declared_relationships(g: &HolonGraph, endpoint: &HolonDescriptor) -> (res: Result<
    Vec<DeclaredRelationshipDescriptor>,
    HolonError,
>)
    ensures
        rview(res) == spec_effective_declared(g@, endpoint@),
{
    let members = effective_relationship_members(g, endpoint.holon(), CoreRelationshipTypeName::InstanceRelationships)?;
    collect_declared_from_relationship_members(g, &members, endpoint.holon())
}

// ---------------------------------------------------------------------------
// Inverse relationships
// ---------------------------------------------------------------------------

/// Scans `ls[i..]` for the licensed declaration named `name`: the first one
/// decides, and licenses `declared` only if it is `declared` itself.
pub open spec fn licensed_from(
    g: Seq<HolonView>,
    ls: Seq<HolonReference>,
    i: int,
    name: Seq<char>,
    declared: HolonReference,
) -> Result<bool, ErrorView>
    decreases ls.len() - i,
{
    if i < 0 || i >= ls.len() {
        Ok(false)
    } else {
        match spec_type_name(g, ls[i]) {
            Err(e) => Err(e),
            Ok(n) => if n == name {
                Ok(ls[i] == declared)
            } else {
                licensed_from(g, ls, i + 1, name, declared)
            },
        }
    }
}

/// Whether the source type of `declared` licenses exactly this declaration under its name.
pub open spec fn spec_source_licenses(g: Seq<HolonView>, declared: HolonReference) -> Result<bool, ErrorView> {
    match spec_require_single_related(g, declared, CoreRelationshipTypeName::SourceType) {
        Err(e) => Err(e),
        Ok(source) => match spec_type_name(g, declared) {
            Err(e) => Err(e),
            Ok(name) => match spec_effective_declared(g, source) {
                Err(e) => Err(e),
                Ok(ls) => licensed_from(g, ls, 0, name, declared),
            },
        },
    }
}

/// Whether `endpoint` equals or extends the target type of `declared`.
pub open spec fn spec_target_compatible(g: Seq<HolonView>, endpoint: HolonReference, declared: HolonReference) -> Result<
    bool,
    ErrorView,
> {
    match spec_require_single_related(g, declared, CoreRelationshipTypeName::TargetType) {
        Err(e) => Err(e),
        Ok(t) => spec_equals_or_extends(g, endpoint, t),
    }
}

/// The inverse relationships discovered for an endpoint, the first licensed
/// declaration found without `HasInverse`, and whether an empty `TargetOf`
/// index on an unsaved endpoint leaves the answer open.
pub struct InverseCandidateView {
    pub inverses: Seq<HolonReference>,
    pub missing: Option<HolonReference>,
    pub requires_index: bool,
}

/// Folds the `TargetOf` members `tms[i..]` into inverse candidates (deduplicated)
/// and the first licensed declaration lacking `HasInverse`.
pub open spec fn inverse_from(
    g: Seq<HolonView>,
    endpoint: HolonReference,
    tms: Seq<EffectiveRelationshipMember>,
    i: int,
    invs: Seq<HolonReference>,
    missing: Option<HolonReference>,
) -> Result<(Seq<HolonReference>, Option<HolonReference>), ErrorView>
    decreases tms.len() - i,
{
    if i < 0 || i >= tms.len() {
        Ok((invs, missing))
    } else {
        match spec_as_declared(g, tms[i].member) {
            Err(e) => Err(e),
            Ok(d) => match spec_target_compatible(g, endpoint, d) {
                Err(e) => Err(e),
                Ok(false) => inverse_from(g, endpoint, tms, i + 1, invs, missing),
                Ok(true) => match spec_source_licenses(g, d) {
                    Err(e) => Err(e),
                    Ok(false) => inverse_from(g, endpoint, tms, i + 1, invs, missing),
                    Ok(true) => match spec_has_inverse(g, d) {
                        Err(e) => Err(e),
                        Ok(Some(inv)) => inverse_from(
                            g,
                            endpoint,
                            tms,
                            i + 1,
                            if invs.contains(inv) {
                                invs
                            } else {
                                invs.push(inv)
                            },
                            missing,
                        ),
                        Ok(None) => inverse_from(
                            g,
                            endpoint,
                            tms,
                            i + 1,
                            invs,
                            if missing is None {
                                Some(d)
                            } else {
                                missing
                            },
                        ),
                    },
                },
            },
        }
    }
}

/// The inverse candidates of `endpoint`, discovered through its effective `TargetOf`.
pub open spec fn spec_inverse_candidates(g: Seq<HolonView>, endpoint: HolonReference) -> Result<
    InverseCandidateView,
    ErrorView,
> {
    match spec_effective_members(g, endpoint, CoreRelationshipTypeName::TargetOf) {
        Err(e) => Err(e),
        Ok(tms) => match inverse_from(g, endpoint, tms, 0, Seq::empty(), None) {
            Err(e) => Err(e),
            Ok(r) => Ok(
                InverseCandidateView {
                    inverses: r.0,
                    missing: r.1,
                    requires_index: tms.len() == 0 && endpoint.phase() != HolonPhase::Saved,
                },
            ),
        },
    }
}

/// The schema defect behind a licensed declaration that lacks `HasInverse`, if any.
pub open spec fn spec_surface_missing_inverse(g: Seq<HolonView>, missing: Option<HolonReference>) -> Result<
    (),
    ErrorView,
> {
    match missing {
        None => Ok(()),
        Some(d) => match spec_as_declared(g, d) {
            Err(e) => Err(e),
            Ok(_) => match spec_required_inverse(g, d) {
                Err(e) => Err(e),
                Ok(_) => Ok(()),
            },
        },
    }
}

/// The effective inverse relationships of `endpoint`.
pub open spec fn spec_effective_inverse(g: Seq<HolonView>, endpoint: HolonReference) -> Result<
    Seq<HolonReference>,
    ErrorView,
> {
    match spec_inverse_candidates(g, endpoint) {
        Err(e) => Err(e),
        Ok(set) => if set.requires_index {
            Err(
                ErrorView::UnsupportedStagedTraversal {
                    relationship: CoreRelationshipTypeName::TargetOf.spec_name(),
                    descriptor: endpoint,
                },
            )
        } else {
            match spec_surface_missing_inverse(g, set.missing) {
                Err(e) => Err(e),
                Ok(_) => Ok(set.inverses),
            }
        },
    }
}

/// Whether the source type of `declared` licenses exactly this declaration.
pub fn source_licenses_declared_relationship(g: &HolonGraph, declared: &DeclaredRelationshipDescriptor) -> (res:
    Result<bool, HolonError>)
    ensures
        rview(res) == spec_source_licenses(g@, declared@),
{
    let source = declared.source_type(g)?;
    let name = TypeHeader::new(declared.holon()).declared_type_name(g)?;
    let licensed = effective_declared_relationships(g, &source)?;
    let ghost ls = licensed.deep_view();
    assert(spec_source_licenses(g@, declared@) == licensed_from(g@, ls, 0, name@, declared@));
    let mut i: usize = 0;
    while i < licensed.len()
        invariant
            i <= licensed.len(),
            ls == licensed.deep_view(),
            spec_source_licenses(g@, declared@) == licensed_from(g@, ls, 0, name@, declared@),
            licensed_from(g@, ls, 0, name@, declared@) == licensed_from(g@, ls, i as int, name@, declared@),
        decreases licensed.len() - i,
    {
        let n = TypeHeader::new(licensed[i].holon()).declared_type_name(g)?;
        if n.equals(&name) {
            return Ok(licensed[i].holon().same(&declared.holon()));
        }
        i = i + 1;
    }
    Ok(false)
}

/// Whether `endpoint` equals or extends the target type of `declared`.
pub fn target_endpoint_is_compatible(
    g: &HolonGraph,
    endpoint: &HolonDescriptor,
    declared: &DeclaredRelationshipDescriptor,
) -> (res: Result<bool, HolonError>)
    ensures
        rview(res) == spec_target_compatible(g@, endpoint@, declared@),
{
    let t = declared.target_type(g)?;
    equals_or_extends(g, endpoint.holon(), t.holon())
}

/// The exec form of `InverseCandidateView`.
pub struct InverseCandidateSet {
    pub inverse_descriptors: Vec<InverseRelationshipDescriptor>,
    pub missing_inverse_declaration: Option<HolonReference>,
    pub requires_materialized_target_index: bool,
}

impl InverseCandidateSet {
    pub open spec fn spec_view(&self) -> InverseCandidateView {
        InverseCandidateView {
            inverses: self.inverse_descriptors.deep_view(),
            missing: self.missing_inverse_declaration,
            requires_index: self.requires_materialized_target_index,
        }
    }
}

/// Collects the inverse candidates of `endpoint` through its effective `TargetOf` index.
pub fn collect_inverse_candidates(g: &HolonGraph, endpoint: &HolonDescriptor) -> (res: Result<
    InverseCandidateSet,
    HolonError,
>)
    ensures
        match res {
            Ok(set) => spec_inverse_candidates(g@, endpoint@) == Ok::<InverseCandidateView, ErrorView>(set.spec_view()),
            Err(e) => spec_inverse_candidates(g@, endpoint@) == Err::<InverseCandidateView, ErrorView>(e@),
        },
{
    let tms = effective_relationship_members(g, endpoint.holon(), CoreRelationshipTypeName::TargetOf)?;
    let mut inverses: Vec<InverseRelationshipDescriptor> = Vec::new();
    let mut inverse_refs: Vec<HolonReference> = Vec::new();
    let mut missing: Option<HolonReference> = None;
    assert(inverses.deep_view() =~= Seq::<HolonReference>::empty());
    let mut i: usize = 0;
    while i < tms.len()
        invariant
            i <= tms.len(),
            spec_effective_members(g@, endpoint@, CoreRelationshipTypeName::TargetOf) == Ok::<
                Seq<EffectiveRelationshipMember>,
                ErrorView,
            >(tms@),
            inverse_refs@ == inverses.deep_view(),
            inverse_from(g@, endpoint@, tms@, 0, Seq::empty(), None) == inverse_from(
                g@,
                endpoint@,
                tms@,
                i as int,
                inverses.deep_view(),
                missing,
            ),
        decreases tms.len() - i,
    {
        let declared = DeclaredRelationshipDescriptor::try_from_holon(g, tms[i].member)?;
        if target_endpoint_is_compatible(g, endpoint, &declared)? {
            if source_licenses_declared_relationship(g, &declared)? {
                match declared.has_inverse(g)? {
                    Some(inverse) => {
                        let r = inverse.holon();
                        if !contains_reference(&inverse_refs, r) {
                            let ghost before = inverses.deep_view();
                            inverses.push(inverse);
                            inverse_refs.push(r);
                            assert(inverses.deep_view() =~= before.push(r));
                        }
                    },
                    None => {
                        if missing.is_none() {
                            missing = Some(declared.holon());
                        }
                    },
                }
            }
        }
        i = i + 1;
    }
    let index_required = tms.len() == 0 && !endpoint.holon().is_saved();
    Ok(
        InverseCandidateSet {
            inverse_descriptors: inverses,
            missing_inverse_declaration: missing,
            requires_materialized_target_index: index_required,
        },
    )
}

/// Reports the schema defect of a licensed declaration that lacks `HasInverse`.
pub fn surface_missing_inverse(g: &HolonGraph, missing: Option<HolonReference>) -> (res: Result<(), HolonError>)
    ensures
        rview(res) == spec_surface_missing_inverse(g@, missing),
{
    match missing {
        None => Ok(()),
        Some(d) => {
            let declared = DeclaredRelationshipDescriptor::try_from_holon(g, d)?;
            declared.required_inverse(g)?;
            Ok(())
        },
    }
}

/// Enumerates the effective inverse relationships of `endpoint`.
///
/// An unsaved endpoint with an empty `TargetOf` index cannot answer yet and
/// reports `UnsupportedStagedTraversal`.
pub fn effective_inverse_relationships(g: &HolonGraph, endpoint: &HolonDescriptor) -> (res: Result<
    Vec<InverseRelationshipDescriptor>,
    HolonError,
>)
    ensures
        rview(res) == spec_effective_inverse(g@, endpoint@),
{
    let set = collect_inverse_candidates(g, endpoint)?;
    if set.requires_materialized_target_index {
        return Err(
            HolonError::UnsupportedStagedTraversal {
                relationship: CoreRelationshipTypeName::TargetOf.as_relationship_name().0.0,
                descriptor: endpoint.holon(),
            },
        );
    }
    surface_missing_inverse(g, set.missing_inverse_declaration)?;
    Ok(set.inverse_descriptors)
}

// ---------------------------------------------------------------------------
// The effective relationship surface
// ---------------------------------------------------------------------------

/// `refs` each paired with `direction`.
pub open spec fn qualified_all(refs: Seq<HolonReference>, direction: RelationshipDirection) -> Seq<
    (HolonReference, RelationshipDirection),
> {
    refs.map_values(|r: HolonReference| (r, direction))
}

/// The effective outbound relationships of `endpoint`: declared ones, then inverse ones.
pub open spec fn spec_effective_relationships(g: Seq<HolonView>, endpoint: HolonReference) -> Result<
    Seq<(HolonReference, RelationshipDirection)>,
    ErrorView,
> {
    match spec_effective_declared(g, endpoint) {
        Err(e) => Err(e),
        Ok(ds) => match spec_effective_inverse(g, endpoint) {
            Err(e) => Err(e),
            Ok(is) => Ok(
                qualified_all(ds, RelationshipDirection::Declared) + qualified_all(
                    is,
                    RelationshipDirection::Inverse,
                ),
            ),
        },
    }
}

fn qualify_into(out: &mut Vec<QualifiedRelationship>, refs: &Vec<HolonReference>, direction: RelationshipDirection)
    ensures
        final(out).deep_view() == old(out).deep_view() + qualified_all(refs@, direction),
{
    let ghost start = out.deep_view();
    let mut i: usize = 0;
    while i < refs.len()
        invariant
            i <= refs.len(),
            out.deep_view() == start + qualified_all(refs@.subrange(0, i as int), direction),
        decreases refs.len() - i,
    {
        let ghost before = out.deep_view();
        out.push(QualifiedRelationship { descriptor: RelationshipDescriptor::from_holon(refs[i]), descriptor_direction: direction });
        assert(out.deep_view() =~= before.push((refs@[i as int], direction)));
        assert(qualified_all(refs@.subrange(0, i + 1), direction) =~= qualified_all(
            refs@.subrange(0, i as int),
            direction,
        ).push((refs@[i as int], direction)));
        i = i + 1;
    }
    assert(refs@.subrange(0, i as int) =~= refs@);
}

fn declared_refs(ds: &Vec<DeclaredRelationshipDescriptor>) -> (r: Vec<HolonReference>)
    ensures
        r@ == ds.deep_view(),
{
    let mut r: Vec<HolonReference> = Vec::new();
    let mut i: usize = 0;
    while i < ds.len()
        invariant
            i <= ds.len(),
            r@ == ds.deep_view().subrange(0, i as int),
        decreases ds.len() - i,
    {
        r.push(ds[i].holon());
        i = i + 1;
        assert(r@ =~= ds.deep_view().subrange(0, i as int));
    }
    assert(ds.deep_view().subrange(0, i as int) =~= ds.deep_view());
    r
}

fn inverse_refs(ds: &Vec<InverseRelationshipDescriptor>) -> (r: Vec<HolonReference>)
    ensures
        r@ == ds.deep_view(),
{
    let mut r: Vec<HolonReference> = Vec::new();
    let mut i: usize = 0;
    while i < ds.len()
        invariant
            i <= ds.len(),
            r@ == ds.deep_view().subrange(0, i as int),
        decreases ds.len() - i,
    {
        r.push(ds[i].holon());
        i = i + 1;
        assert(r@ =~= ds.deep_view().subrange(0, i as int));
    }
    assert(ds.deep_view().subrange(0, i as int) =~= ds.deep_view());
    r
}

/// Enumerates the effective outbound relationships of `endpoint`: declared, then inverse.
pub fn effective_relationships(g: &HolonGraph, endpoint: &HolonDescriptor) -> (res: Result<
    Vec<QualifiedRelationship>,
    HolonError,
>)
    ensures
        rview(res) == spec_effective_relationships(g@, endpoint@),
{
    let declared = effective_declared_relationships(g, endpoint)?;
    let inverse = effective_inverse_relationships(g, endpoint)?;
    let mut out: Vec<QualifiedRelationship> = Vec::new();
    assert(out.deep_view() =~= Seq::<(HolonReference, RelationshipDirection)>::empty());
    qualify_into(&mut out, &declared_refs(&declared), RelationshipDirection::Declared);
    qualify_into(&mut out, &inverse_refs(&inverse), RelationshipDirection::Inverse);
    proof {
        assert(out.deep_view() =~= qualified_all(declared.deep_view(), RelationshipDirection::Declared)
            + qualified_all(inverse.deep_view(), RelationshipDirection::Inverse));
    }
    Ok(out)
}

// ---------------------------------------------------------------------------
// Navigation by name
// ---------------------------------------------------------------------------

/// A navigation candidate: its name, descriptor and direction.
pub type Candidate = (Seq<char>, HolonReference, RelationshipDirection);

/// `cs` with `c` appended unless a candidate for the same descriptor is already present.
pub open spec fn push_unique(cs: Seq<Candidate>, c: Candidate) -> Seq<Candidate> {
    if exists|k: int| 0 <= k < cs.len() && (#[trigger] cs[k]).1 == c.1 {
        cs
    } else {
        cs.push(c)
    }
}

/// Adds the candidates for `ds[i..]` in `direction` to `acc`, reading each name.
pub open spec fn candidates_from(
    g: Seq<HolonView>,
    ds: Seq<HolonReference>,
    i: int,
    acc: Seq<Candidate>,
    direction: RelationshipDirection,
) -> Result<Seq<Candidate>, ErrorView>
    decreases ds.len() - i,
{
    if i < 0 || i >= ds.len() {
        Ok(acc)
    } else {
        match spec_type_name(g, ds[i]) {
            Err(e) => Err(e),
            Ok(n) => candidates_from(g, ds, i + 1, push_unique(acc, (n, ds[i], direction)), direction),
        }
    }
}

/// The navigation candidates of `endpoint`, with the inverse-discovery state.
pub struct CandidateView {
    pub candidates: Seq<Candidate>,
    pub missing: Option<HolonReference>,
    pub requires_index: bool,
}

/// Declared candidates then inverse candidates of `endpoint`, each descriptor once.
pub open spec fn spec_collect_candidates(g: Seq<HolonView>, endpoint: HolonReference) -> Result<CandidateView, ErrorView> {
    match spec_effective_declared(g, endpoint) {
        Err(e) => Err(e),
        Ok(ds) => match candidates_from(g, ds, 0, Seq::empty(), RelationshipDirection::Declared) {
            Err(e) => Err(e),
            Ok(c1) => match spec_inverse_candidates(g, endpoint) {
                Err(e) => Err(e),
                Ok(set) => match candidates_from(g, set.inverses, 0, c1, RelationshipDirection::Inverse) {
                    Err(e) => Err(e),
                    Ok(c2) => Ok(
                        CandidateView { candidates: c2, missing: set.missing, requires_index: set.requires_index },
                    ),
                },
            },
        },
    }
}

/// The candidates among the first `n` of `cs` named `name`, in order.
pub open spec fn named_upto(cs: Seq<Candidate>, name: Seq<char>, n: int) -> Seq<Candidate>
    decreases n,
{
    if n <= 0 || n > cs.len() {
        Seq::empty()
    } else if cs[n - 1].0 == name {
        named_upto(cs, name, n - 1).push(cs[n - 1])
    } else {
        named_upto(cs, name, n - 1)
    }
}

/// Resolving `name` as an effective outbound relationship of `endpoint`: the
/// unique candidate so named; several are ambiguous; none is a missing-inverse
/// defect, an unanswerable staged traversal, or not found, in that order.
pub open spec fn spec_allows_relationship(g: Seq<HolonView>, endpoint: HolonReference, name: Seq<char>) -> Result<
    (HolonReference, RelationshipDirection),
    ErrorView,
> {
    match spec_collect_candidates(g, endpoint) {
        Err(e) => Err(e),
        Ok(set) => {
            let m = named_upto(set.candidates, name, set.candidates.len() as int);
            if m.len() == 1 {
                Ok((m[0].1, m[0].2))
            } else if m.len() > 1 {
                Err(ErrorView::AmbiguousRelationshipTraversal { relationship: name, direction: None, descriptor: endpoint })
            } else {
                match spec_surface_missing_inverse(g, set.missing) {
                    Err(e) => Err(e),
                    Ok(_) => if set.requires_index {
                        Err(ErrorView::UnsupportedStagedTraversal { relationship: name, descriptor: endpoint })
                    } else {
                        Err(
                            ErrorView::DescriptorDeclarationNotFound {
                                kind: "relationship"@,
                                name,
                                descriptor: endpoint,
                            },
                        )
                    },
                }
            }
        },
    }
}

/// The exec form of a navigation candidate.
pub struct NavigationCandidate {
    pub name: MapString,
    pub descriptor: HolonReference,
    pub direction: RelationshipDirection,
}

impl DeepView for NavigationCandidate {
    type V = Candidate;

    open spec fn deep_view(&self) -> Candidate {
        (self.name@, self.descriptor, self.direction)
    }
}

/// Appends `c` unless a candidate for the same descriptor is already present.
pub fn push_unique_candidate(cs: &mut Vec<NavigationCandidate>, c: NavigationCandidate)
    ensures
        final(cs).deep_view() == push_unique(old(cs).deep_view(), c.deep_view()),
{
    let ghost v = cs.deep_view();
    let mut i: usize = 0;
    while i < cs.len()
        invariant
            i <= cs.len(),
            v == cs.deep_view(),
            forall|k: int| 0 <= k < i ==> (#[trigger] v[k]).1 != c.descriptor,
        decreases cs.len() - i,
    {
        if cs[i].descriptor.same(&c.descriptor) {
            assert(v[i as int].1 == c.descriptor);
            return;
        }
        i = i + 1;
    }
    cs.push(c);
    assert(cs.deep_view() =~= v.push(c.deep_view()));
}

fn add_candidates(
    g: &HolonGraph,
    cs: &mut Vec<NavigationCandidate>,
    refs: &Vec<HolonReference>,
    direction: RelationshipDirection,
) -> (res: Result<(), HolonError>)
    ensures
        match res {
            Ok(_) => candidates_from(g@, refs@, 0, old(cs).deep_view(), direction) == Ok::<
                Seq<Candidate>,
                ErrorView,
            >(final(cs).deep_view()),
            Err(e) => candidates_from(g@, refs@, 0, old(cs).deep_view(), direction) == Err::<
                Seq<Candidate>,
                ErrorView,
            >(e@),
        },
{
    let ghost start = cs.deep_view();
    let mut i: usize = 0;
    while i < refs.len()
        invariant
            i <= refs.len(),
            start == old(cs).deep_view(),
            candidates_from(g@, refs@, 0, start, direction) == candidates_from(
                g@,
                refs@,
                i as int,
                cs.deep_view(),
                direction,
            ),
        decreases refs.len() - i,
    {
        let name = TypeHeader::new(refs[i]).declared_type_name(g)?;
        push_unique_candidate(cs, NavigationCandidate { name, descriptor: refs[i], direction });
        i = i + 1;
    }
    Ok(())
}

/// The exec form of `CandidateView`.
pub struct CandidateSet {
    pub candidates: Vec<NavigationCandidate>,
    pub missing_inverse_declaration: Option<HolonReference>,
    pub requires_materialized_target_index: bool,
}

impl CandidateSet {
    pub open spec fn spec_view(&self) -> CandidateView {
        CandidateView {
            candidates: self.candidates.deep_view(),
            missing: self.missing_inverse_declaration,
            requires_index: self.requires_materialized_target_index,
        }
    }
}

/// Collects the declared and inverse navigation candidates of `endpoint`.
pub fn collect_candidates(g: &HolonGraph, endpoint: &HolonDescriptor) -> (res: Result<CandidateSet, HolonError>)
    ensures
        match res {
            Ok(set) => spec_collect_candidates(g@, endpoint@) == Ok::<CandidateView, ErrorView>(set.spec_view()),
            Err(e) => spec_collect_candidates(g@, endpoint@) == Err::<CandidateView, ErrorView>(e@),
        },
{
    let declared = effective_declared_relationships(g, endpoint)?;
    let mut candidates: Vec<NavigationCandidate> = Vec::new();
    assert(candidates.deep_view() =~= Seq::<Candidate>::empty());
    add_candidates(g, &mut candidates, &declared_refs(&declared), RelationshipDirection::Declared)?;
    let inverse_set = collect_inverse_candidates(g, endpoint)?;
    add_candidates(
        g,
        &mut candidates,
        &inverse_refs(&inverse_set.inverse_descriptors),
        RelationshipDirection::Inverse,
    )?;
    Ok(
        CandidateSet {
            candidates,
            missing_inverse_declaration: inverse_set.missing_inverse_declaration,
            requires_materialized_target_index: inverse_set.requires_materialized_target_index,
        },
    )
}

/// Validates that `relationship_name` is effective outbound from `endpoint`,
/// matching declared and inverse relationships alike.
pub fn allows_relationship(g: &HolonGraph, endpoint: &HolonDescriptor, relationship_name: &RelationshipName) -> (res:
    Result<QualifiedRelationship, HolonError>)
    ensures
        rview(res) == spec_allows_relationship(g@, endpoint@, relationship_name@),
{
    let set = collect_candidates(g, endpoint)?;
    let ghost cs = set.candidates.deep_view();
    let mut count: usize = 0;
    let mut first: usize = 0;
    let mut i: usize = 0;
    while i < set.candidates.len()
        invariant
            i <= set.candidates.len(),
            cs == set.candidates.deep_view(),
            count == named_upto(cs, relationship_name@, i as int).len(),
            count > 0 ==> first < i && named_upto(cs, relationship_name@, i as int)[0] == cs[first as int],
            count <= i,
        decreases set.candidates.len() - i,
    {
        if set.candidates[i].name.equals(&relationship_name.0) {
            if count == 0 {
                first = i;
            }
            count = count + 1;
        }
        i = i + 1;
    }
    if count == 1 {
        let c = &set.candidates[first];
        return Ok(QualifiedRelationship { descriptor: RelationshipDescriptor::from_holon(c.descriptor), descriptor_direction: c.direction });
    }
    if count > 1 {
        return Err(
            HolonError::AmbiguousRelationshipTraversal {
                relationship: relationship_name.0.to_owned_string(),
                direction: None,
                descriptor: endpoint.holon(),
            },
        );
    }
    surface_missing_inverse(g, set.missing_inverse_declaration)?;
    if set.requires_materialized_target_index {
        return Err(
            HolonError::UnsupportedStagedTraversal {
                relationship: relationship_name.0.to_owned_string(),
                descriptor: endpoint.holon(),
            },
        );
    }
    Err(
        HolonError::DescriptorDeclarationNotFound {
            kind: String::from_str("relationship"),
            name: relationship_name.0.to_owned_string(),
            descriptor: endpoint.holon(),
        },
    )
}

// ---------------------------------------------------------------------------
// Declarations available to a concrete holon
// ---------------------------------------------------------------------------

/// Folds candidate declarations `cs[i..]` for `source` (described by `sd`):
/// each descriptor is considered once; it counts when its source type occurs in
/// the lineage of `sd` or of `source`; a name counted twice is a duplicate.
pub open spec fn for_holon_from(
    g: Seq<HolonView>,
    source: HolonReference,
    sd: HolonReference,
    cs: Seq<HolonReference>,
    i: int,
    seen_ids: Seq<HolonReference>,
    seen_names: Seq<Seq<char>>,
    acc: Seq<HolonReference>,
) -> Result<Seq<HolonReference>, ErrorView>
    decreases cs.len() - i,
{
    if i < 0 || i >= cs.len() {
        Ok(acc)
    } else if seen_ids.contains(cs[i]) {
        for_holon_from(g, source, sd, cs, i + 1, seen_ids, seen_names, acc)
    } else {
        match spec_as_declared(g, cs[i]) {
            Err(e) => Err(e),
            Ok(d) => match spec_require_single_related(g, d, CoreRelationshipTypeName::SourceType) {
                Err(e) => Err(e),
                Ok(st) => match spec_equals_or_extends(g, sd, st) {
                    Err(e) => Err(e),
                    Ok(by_describing) => match (if by_describing {
                        Ok(true)
                    } else {
                        spec_equals_or_extends(g, source, st)
                    }) {
                        Err(e) => Err(e),
                        Ok(false) => for_holon_from(g, source, sd, cs, i + 1, seen_ids.push(cs[i]), seen_names, acc),
                        Ok(true) => match spec_type_name(g, d) {
                            Err(e) => Err(e),
                            Ok(n) => if seen_names.contains(n) {
                                Err(
                                    ErrorView::DuplicateInheritedDeclaration {
                                        kind: "relationship"@,
                                        name: n,
                                        descriptor: source,
                                    },
                                )
                            } else {
                                for_holon_from(
                                    g,
                                    source,
                                    sd,
                                    cs,
                                    i + 1,
                                    seen_ids.push(cs[i]),
                                    seen_names.push(n),
                                    acc.push(d),
                                )
                            },
                        },
                    },
                },
            },
        }
    }
}

/// The members of effective relationship members, in order.
pub open spec fn members_of(ms: Seq<EffectiveRelationshipMember>) -> Seq<HolonReference> {
    ms.map_values(|m: EffectiveRelationshipMember| m.member)
}

/// The declared relationships available to the holon `source`: those of the
/// contract describing it, then those it declares itself, kept when their
/// source type occurs in either lineage.
pub open spec fn spec_declared_for_holon(g: Seq<HolonView>, source: HolonReference) -> Result<
    Seq<HolonReference>,
    ErrorView,
> {
    match spec_holon_descriptor(g, source) {
        Err(e) => Err(e),
        Ok(sd) => match spec_effective_declared(g, sd) {
            Err(e) => Err(e),
            Ok(ds) => match spec_effective_members(g, source, CoreRelationshipTypeName::InstanceRelationships) {
                Err(e) => Err(e),
                Ok(ms) => for_holon_from(
                    g,
                    source,
                    sd,
                    ds + members_of(ms),
                    0,
                    Seq::empty(),
                    Seq::empty(),
                    Seq::empty(),
                ),
            },
        },
    }
}

fn member_refs(ms: &Vec<EffectiveRelationshipMember>) -> (r: Vec<HolonReference>)
    ensures
        r@ == members_of(ms@),
{
    let mut r: Vec<HolonReference> = Vec::new();
    let mut i: usize = 0;
    while i < ms.len()
        invariant
            i <= ms.len(),
            r@ == members_of(ms@.subrange(0, i as int)),
        decreases ms.len() - i,
    {
        r.push(ms[i].member);
        i = i + 1;
        assert(r@ =~= members_of(ms@.subrange(0, i as int)));
    }
    assert(ms@.subrange(0, i as int) =~= ms@);
    r
}

/// Enumerates the declared relationships available to the holon `source`
/// through its describing contract and its own declarations.
pub fn effective_declared_relationships_for_holon(g: &HolonGraph, source: HolonReference) -> (res: Result<
    Vec<DeclaredRelationshipDescriptor>,
    HolonError,
>)
    ensures
        rview(res) == spec_declared_for_holon(g@, source),
{
    let sd = holon_descriptor(g, source)?;
    let describing = effective_declared_relationships(g, &sd)?;
    let own = effective_relationship_members(g, source, CoreRelationshipTypeName::InstanceRelationships)?;
    let mut cs = declared_refs(&describing);
    let mut tail = member_refs(&own);
    let ghost all = cs@ + tail@;
    cs.append(&mut tail);
    assert(cs@ == all);
    let mut seen_ids: Vec<HolonReference> = Vec::new();
    let mut seen_names: Vec<MapString> = Vec::new();
    let mut out: Vec<DeclaredRelationshipDescriptor> = Vec::new();
    assert(seen_names.deep_view() =~= Seq::<Seq<char>>::empty());
    assert(out.deep_view() =~= Seq::<HolonReference>::empty());
    let mut i: usize = 0;
    while i < cs.len()
        invariant
            i <= cs.len(),
            spec_declared_for_holon(g@, source) == for_holon_from(
                g@,
                source,
                sd@,
                cs@,
                i as int,
                seen_ids@,
                seen_names.deep_view(),
                out.deep_view(),
            ),
        decreases cs.len() - i,
    {
        let c = cs[i];
        if contains_reference(&seen_ids, c) {
            i = i + 1;
            continue;
        }
        seen_ids.push(c);
        let declared = DeclaredRelationshipDescriptor::try_from_holon(g, c)?;
        let st = declared.source_type(g)?;
        let by_describing = equals_or_extends(g, sd.holon(), st.holon())?;
        let applies = if by_describing {
            true
        } else {
            equals_or_extends(g, source, st.holon())?
        };
        if !applies {
            i = i + 1;
            continue;
        }
        let name = TypeHeader::new(c).declared_type_name(g)?;
        if names_contain(&seen_names, &name) {
            return Err(
                HolonError::DuplicateInheritedDeclaration {
                    kind: String::from_str("relationship"),
                    name: name.0,
                    descriptor: source,
                },
            );
        }
        let ghost n0 = seen_names.deep_view();
        let ghost o0 = out.deep_view();
        seen_names.push(name);
        out.push(declared);
        assert(seen_names.deep_view() =~= n0.push(name@));
        assert(out.deep_view() =~= o0.push(c));
        i = i + 1;
    }
    Ok(out)
}

/// Scans `ds[i..]` for the first declaration named `name`.
pub open spec fn first_named_from(
    g: Seq<HolonView>,
    ds: Seq<HolonReference>,
    i: int,
    name: Seq<char>,
    source: HolonReference,
) -> Result<HolonReference, ErrorView>
    decreases ds.len() - i,
{
    if i < 0 || i >= ds.len() {
        Err(ErrorView::DescriptorDeclarationNotFound { kind: "relationship"@, name, descriptor: source })
    } else {
        match spec_type_name(g, ds[i]) {
            Err(e) => Err(e),
            Ok(n) => if n == name {
                Ok(ds[i])
            } else {
                first_named_from(g, ds, i + 1, name, source)
            },
        }
    }
}

/// The declared relationship that licenses `name` on the holon `source`.
pub open spec fn spec_relationship_declaration(g: Seq<HolonView>, source: HolonReference, name: Seq<char>) -> Result<
    HolonReference,
    ErrorView,
> {
    match spec_declared_for_holon(g, source) {
        Err(e) => Err(e),
        Ok(ds) => first_named_from(g, ds, 0, name, source),
    }
}

/// Finds the declared relationship that licenses `name` on `source_holon`.
pub fn effective_relationship_declaration(g: &HolonGraph, source_holon: HolonReference, name: &str) -> (res: Result<
    RelationshipDescriptor,
    HolonError,
>)
    ensures
        rview(res) == spec_relationship_declaration(g@, source_holon, spec_type_case(name@)),
{
    relationship_declaration_named(g, source_holon, &MapString(to_type_case(name)))
}

/// Finds the declared relationship whose base name is exactly `requested` on `source_holon`.
pub(crate) fn relationship_declaration_named(g: &HolonGraph, source_holon: HolonReference, requested: &MapString) -> (res: Result<
    RelationshipDescriptor,
    HolonError,
>)
    ensures
        rview(res) == spec_relationship_declaration(g@, source_holon, requested@),
{
    let ds = effective_declared_relationships_for_holon(g, source_holon)?;
    first_named(g, &ds, requested, source_holon)
}

/// The declared relationship named `name` in the contract of the descriptor
/// that describes `source`; the source holon's own lineage licenses nothing here.
pub open spec fn spec_describing_declaration(g: Seq<HolonView>, source: HolonReference, name: Seq<char>) -> Result<
    HolonReference,
    ErrorView,
> {
    match spec_holon_descriptor(g, source) {
        Err(e) => Err(e),
        Ok(sd) => match spec_effective_declared(g, sd) {
            Err(e) => Err(e),
            Ok(ds) => first_named_from(g, ds, 0, name, source),
        },
    }
}

/// Finds the declared relationship named exactly `requested` in the contract of
/// the descriptor that describes `source_holon`.
pub(crate) fn describing_declaration_named(g: &HolonGraph, source_holon: HolonReference, requested: &MapString) -> (res: Result<
    RelationshipDescriptor,
    HolonError,
>)
    ensures
        rview(res) == spec_describing_declaration(g@, source_holon, requested@),
{
    let sd = holon_descriptor(g, source_holon)?;
    let ds = effective_declared_relationships(g, &sd)?;
    first_named(g, &ds, requested, source_holon)
}

/// The first of `ds` whose `TypeName` is `requested`.
fn first_named(g: &HolonGraph, ds: &Vec<DeclaredRelationshipDescriptor>, requested: &MapString, source_holon: HolonReference) -> (res: Result<
    RelationshipDescriptor,
    HolonError,
>)
    ensures
        rview(res) == first_named_from(g@, ds.deep_view(), 0, requested@, source_holon),
{
    let ghost v = ds.deep_view();
    let mut i: usize = 0;
    while i < ds.len()
        invariant
            i <= ds.len(),
            v == ds.deep_view(),
            first_named_from(g@, v, 0, requested@, source_holon) == first_named_from(
                g@,
                v,
                i as int,
                requested@,
                source_holon,
            ),
        decreases ds.len() - i,
    {
        let n = TypeHeader::new(ds[i].holon()).declared_type_name(g)?;
        if n.equals(requested) {
            return Ok(RelationshipDescriptor::from_holon(ds[i].holon()));
        }
        i = i + 1;
    }
    Err(
        HolonError::DescriptorDeclarationNotFound {
            kind: String::from_str("relationship"),
            name: requested.to_owned_string(),
            descriptor: source_holon,
        },
    )
}


/// Whether the candidate `c` is available to `source` (described by `sd`): it
/// is a declared relationship whose source type occurs in the lineage of `sd`
/// or, failing that, in the lineage of `source`.
pub open spec fn licensed_for_holon(g: Seq<HolonView>, source: HolonReference, sd: HolonReference, c: HolonReference) -> bool {
    &&& spec_as_declared(g, c) == Ok::<HolonReference, ErrorView>(c)
    &&& spec_require_single_related(g, c, CoreRelationshipTypeName::SourceType) matches Ok(st)
    &&& {
        let st = spec_require_single_related(g, c, CoreRelationshipTypeName::SourceType)->Ok_0;
        ||| spec_equals_or_extends(g, sd, st) == Ok::<bool, ErrorView>(true)
        ||| (spec_equals_or_extends(g, sd, st) == Ok::<bool, ErrorView>(false) && spec_equals_or_extends(g, source, st)
            == Ok::<bool, ErrorView>(true))
    }
}

/// Whether `x` occurs in `cs` before the first occurrence of `y`.
pub open spec fn first_before(cs: Seq<HolonReference>, x: HolonReference, y: HolonReference) -> bool {
    exists|kb: int|
        0 <= kb < cs.len() && #[trigger] cs[kb] == y && cs.subrange(0, kb).contains(x) && !cs.subrange(0, kb).contains(y)
}

/// The fold's invariant over the candidates before `i`.
pub open spec fn for_holon_inv(
    g: Seq<HolonView>,
    source: HolonReference,
    sd: HolonReference,
    cs: Seq<HolonReference>,
    i: int,
    seen_ids: Seq<HolonReference>,
    seen_names: Seq<Seq<char>>,
    acc: Seq<HolonReference>,
) -> bool {
    &&& 0 <= i <= cs.len()
    &&& forall|j: int| 0 <= j < acc.len() ==> licensed_for_holon(g, source, sd, #[trigger] acc[j]) && cs.subrange(
        0,
        i,
    ).contains(acc[j])
    &&& forall|k: int| 0 <= k < i && licensed_for_holon(g, source, sd, #[trigger] cs[k]) ==> acc.contains(cs[k])
    &&& forall|k: int| 0 <= k < i ==> seen_ids.contains(#[trigger] cs[k])
    &&& forall|x: HolonReference| seen_ids.contains(x) ==> cs.subrange(0, i).contains(x)
    &&& acc.no_duplicates()
    &&& seen_names.len() == acc.len()
    &&& forall|j: int| 0 <= j < acc.len() ==> spec_type_name(g, #[trigger] acc[j]) == Ok::<Seq<char>, ErrorView>(seen_names[j])
    &&& seen_names.no_duplicates()
    &&& forall|a: int, b: int| 0 <= a < b < acc.len() ==> #[trigger] first_before(cs, acc[a], acc[b])
}

proof fn lemma_for_holon_from(
    g: Seq<HolonView>,
    source: HolonReference,
    sd: HolonReference,
    cs: Seq<HolonReference>,
    i: int,
    seen_ids: Seq<HolonReference>,
    seen_names: Seq<Seq<char>>,
    acc: Seq<HolonReference>,
) -> (r: (Seq<Seq<char>>, Seq<HolonReference>))
    requires
        for_holon_inv(g, source, sd, cs, i, seen_ids, seen_names, acc),
    ensures
        for_holon_from(g, source, sd, cs, i, seen_ids, seen_names, acc) matches Ok(out) ==> for_holon_inv(
            g,
            source,
            sd,
            cs,
            cs.len() as int,
            r.1,
            r.0,
            out,
        ),
    decreases cs.len() - i,
{
    let mut r = (seen_names, seen_ids);
    if i < cs.len() {
        let c = cs[i];
        assert(cs.subrange(0, i + 1) =~= cs.subrange(0, i).push(c));
        assert forall|x: HolonReference| cs.subrange(0, i).contains(x) implies cs.subrange(0, i + 1).contains(x) by {
            let k = choose|k: int| 0 <= k < i && cs.subrange(0, i)[k] == x;
            assert(cs.subrange(0, i + 1)[k] == x);
        }
        assert(cs.subrange(0, i + 1)[i] == c);
        if seen_ids.contains(c) {
            let k0 = choose|k: int| 0 <= k < i && cs.subrange(0, i)[k] == c;
            assert(cs[k0] == c);
            assert(for_holon_inv(g, source, sd, cs, i + 1, seen_ids, seen_names, acc));
            r = lemma_for_holon_from(g, source, sd, cs, i + 1, seen_ids, seen_names, acc);
        } else {
            assert(!cs.subrange(0, i).contains(c)) by {
                if cs.subrange(0, i).contains(c) {
                    let k = choose|k: int| 0 <= k < i && cs.subrange(0, i)[k] == c;
                    assert(cs[k] == c);
                }
            }
            assert(!acc.contains(c)) by {
                if acc.contains(c) {
                    let j = choose|j: int| 0 <= j < acc.len() && acc[j] == c;
                    assert(cs.subrange(0, i).contains(acc[j]));
                }
            }
            let ids2 = seen_ids.push(c);
            if let Ok(d) = spec_as_declared(g, c) {
                if let Ok(st) = spec_require_single_related(g, d, CoreRelationshipTypeName::SourceType) {
                    if let Ok(by_describing) = spec_equals_or_extends(g, sd, st) {
                        let lic = if by_describing {
                            Ok::<bool, ErrorView>(true)
                        } else {
                            spec_equals_or_extends(g, source, st)
                        };
                        if lic == Ok::<bool, ErrorView>(false) {
                            assert(!licensed_for_holon(g, source, sd, c));
                            assert(for_holon_inv(g, source, sd, cs, i + 1, ids2, seen_names, acc)) by {
                                assert forall|k: int| 0 <= k < i + 1 implies ids2.contains(#[trigger] cs[k]) by {
                                    if k < i {
                                        assert(seen_ids.contains(cs[k]));
                                        let q = choose|q: int| 0 <= q < seen_ids.len() && seen_ids[q] == cs[k];
                                        assert(ids2[q] == cs[k]);
                                    } else {
                                        assert(ids2[seen_ids.len() as int] == c);
                                    }
                                }
                                assert forall|x: HolonReference| ids2.contains(x) implies cs.subrange(0, i + 1).contains(
                                    x,
                                ) by {
                                    let q = choose|q: int| 0 <= q < ids2.len() && ids2[q] == x;
                                    if q < seen_ids.len() {
                                        assert(seen_ids[q] == x);
                                        assert(seen_ids.contains(x));
                                    }
                                }
                            }
                            r = lemma_for_holon_from(g, source, sd, cs, i + 1, ids2, seen_names, acc);
                        } else if lic == Ok::<bool, ErrorView>(true) {
                            if let Ok(n) = spec_type_name(g, d) {
                                if !seen_names.contains(n) {
                                    let acc2 = acc.push(d);
                                    let names2 = seen_names.push(n);
                                    assert(d == c);
                                    assert(licensed_for_holon(g, source, sd, c));
                                    assert(for_holon_inv(g, source, sd, cs, i + 1, ids2, names2, acc2)) by {
                                        assert forall|j: int| 0 <= j < acc2.len() implies licensed_for_holon(
                                            g,
                                            source,
                                            sd,
                                            #[trigger] acc2[j],
                                        ) && cs.subrange(0, i + 1).contains(acc2[j]) by {
                                            if j < acc.len() {
                                                assert(acc2[j] == acc[j]);
                                            }
                                        }
                                        assert forall|k: int|
                                            0 <= k < i + 1 && licensed_for_holon(g, source, sd, #[trigger] cs[k]) implies acc2.contains(
                                            cs[k],
                                        ) by {
                                            if k < i {
                                                let j = choose|j: int| 0 <= j < acc.len() && acc[j] == cs[k];
                                                assert(acc2[j] == cs[k]);
                                            } else {
                                                assert(acc2[acc.len() as int] == c);
                                            }
                                        }
                                        assert forall|k: int| 0 <= k < i + 1 implies ids2.contains(#[trigger] cs[k]) by {
                                            if k < i {
                                                assert(seen_ids.contains(cs[k]));
                                                let q = choose|q: int| 0 <= q < seen_ids.len() && seen_ids[q] == cs[k];
                                                assert(ids2[q] == cs[k]);
                                            } else {
                                                assert(ids2[seen_ids.len() as int] == c);
                                            }
                                        }
                                        assert forall|x: HolonReference| ids2.contains(x) implies cs.subrange(
                                            0,
                                            i + 1,
                                        ).contains(x) by {
                                            let q = choose|q: int| 0 <= q < ids2.len() && ids2[q] == x;
                                            if q < seen_ids.len() {
                                                assert(seen_ids[q] == x);
                                                assert(seen_ids.contains(x));
                                            }
                                        }
                                        assert forall|a: int, b: int|
                                            0 <= a < acc2.len() && 0 <= b < acc2.len() && a != b implies acc2[a]
                                            != acc2[b] by {
                                            if a < acc.len() && b < acc.len() {
                                            } else if a == acc.len() {
                                                assert(acc.contains(acc2[b]));
                                            } else {
                                                assert(acc.contains(acc2[a]));
                                            }
                                        }
                                        assert forall|j: int| 0 <= j < acc2.len() implies spec_type_name(
                                            g,
                                            #[trigger] acc2[j],
                                        ) == Ok::<Seq<char>, ErrorView>(names2[j]) by {
                                            if j < acc.len() {
                                                assert(acc2[j] == acc[j]);
                                            }
                                        }
                                        assert forall|a: int, b: int| 0 <= a < b < acc2.len() implies #[trigger] first_before(
                                            cs,
                                            acc2[a],
                                            acc2[b],
                                        ) by {
                                            if b < acc.len() {
                                                assert(acc2[a] == acc[a] && acc2[b] == acc[b]);
                                            } else {
                                                assert(acc2[a] == acc[a]);
                                                assert(cs.subrange(0, i).contains(acc[a]));
                                                assert(cs[i] == c);
                                            }
                                        }
                                        assert forall|a: int, b: int|
                                            0 <= a < names2.len() && 0 <= b < names2.len() && a != b implies names2[a]
                                            != names2[b] by {
                                            if a < seen_names.len() && b < seen_names.len() {
                                            } else if a == seen_names.len() {
                                                assert(seen_names.contains(names2[b]));
                                            } else {
                                                assert(seen_names.contains(names2[a]));
                                            }
                                        }
                                    }
                                    r = lemma_for_holon_from(g, source, sd, cs, i + 1, ids2, names2, acc2);
                                }
                            }
                        }
                    }
                }
            }
        }
    } else {
        assert(for_holon_inv(g, source, sd, cs, cs.len() as int, seen_ids, seen_names, acc));
    }
    r
}

/// The declared relationships available to a concrete holon: every one is a
/// candidate (from the describing contract, then the holon's own
/// declarations) whose source type occurs in the describing or the holon's
/// own lineage; every such candidate is kept; none is kept twice; the kept
/// ones follow the candidates' order; and no two kept ones share a name.
pub proof fn law_declared_for_holon_filters(g: Seq<HolonView>, source: HolonReference)
    ensures
        spec_declared_for_holon(g, source) matches Ok(out) ==> {
            let sd = spec_holon_descriptor(g, source)->Ok_0;
            let cs = spec_effective_declared(g, sd)->Ok_0 + members_of(
                spec_effective_members(g, source, CoreRelationshipTypeName::InstanceRelationships)->Ok_0,
            );
            &&& forall|j: int| 0 <= j < out.len() ==> licensed_for_holon(g, source, sd, #[trigger] out[j])
                && cs.contains(out[j])
            &&& forall|k: int| 0 <= k < cs.len() && licensed_for_holon(g, source, sd, #[trigger] cs[k]) ==> out.contains(
                cs[k],
            )
            &&& out.no_duplicates()
            &&& forall|a: int, b: int| 0 <= a < b < out.len() ==> #[trigger] first_before(cs, out[a], out[b])
            &&& forall|a: int, b: int|
                0 <= a < b < out.len() ==> spec_type_name(g, #[trigger] out[a]) != spec_type_name(g, #[trigger] out[b])
        },
{
    if let Ok(out) = spec_declared_for_holon(g, source) {
        let sd = spec_holon_descriptor(g, source)->Ok_0;
        let cs = spec_effective_declared(g, sd)->Ok_0 + members_of(
            spec_effective_members(g, source, CoreRelationshipTypeName::InstanceRelationships)->Ok_0,
        );
        assert(cs.subrange(0, 0) =~= Seq::<HolonReference>::empty());
        assert(for_holon_inv(g, source, sd, cs, 0, Seq::empty(), Seq::empty(), Seq::empty()));
        let (names, ids) = lemma_for_holon_from(g, source, sd, cs, 0, Seq::empty(), Seq::empty(), Seq::empty());
        assert(cs.subrange(0, cs.len() as int) =~= cs);
        assert forall|a: int, b: int| 0 <= a < b < out.len() implies spec_type_name(g, #[trigger] out[a])
            != spec_type_name(g, #[trigger] out[b]) by {
            assert(names[a] != names[b]);
        }
    }
}

} // verus!
