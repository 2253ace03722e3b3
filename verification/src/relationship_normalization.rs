//! Resolution of a relationship name requested in a traversal direction.
//!
//! A request names either the declared form of a relationship (outbound from
//! its source, inbound at its target) or its inverse form (inbound at the
//! source, outbound from the target). Matches come from the endpoint's own
//! declarations and from the declarations that target it (through `TargetOf`).
//! Distinct declarations matching one request are ambiguous; a name matching
//! only the other form is an illegal traversal.
use crate::accessor_helpers::spec_require_single_related;
use crate::declared_relationship_descriptor::{spec_has_inverse, spec_required_inverse, DeclaredRelationshipDescriptor};
use crate::descriptor::Descriptor;
use crate::effective_relationships::{spec_surface_missing_inverse, surface_missing_inverse};
use crate::error::{rview, ErrorView, HolonError};
use crate::graph::{HolonGraph, HolonPhase, HolonReference, HolonView};
use crate::holon_descriptor::{spec_get_by_name, HolonDescriptor};
use crate::inheritance::{equals_or_extends, flatten_related_members, spec_equals_or_extends, spec_flatten, RelationshipDirection};
use crate::names::CoreRelationshipTypeName;
use crate::relationship_descriptor::{spec_as_declared, RelationshipDescriptor};
use crate::relationship_traversal::{QualifiedRelationship, TraversalDirection};
use crate::type_header::{spec_type_name, TypeHeader};
use crate::values::{MapString, RelationshipName};
use vstd::prelude::*;
use vstd::string::*;

verus! {

/// A match: the declared relationship, the descriptor in the requested form, and that form.
pub type MatchView = (HolonReference, HolonReference, RelationshipDirection);

/// The state gathered while scanning declarations: matches, whether the name
/// matched only the other form, and the first declaration lacking `HasInverse`
/// where the inverse form was requested.
pub struct ScanView {
    pub matches: Seq<MatchView>,
    pub wrong_form: bool,
    pub missing: Option<HolonReference>,
}

/// The state before any declaration is scanned.
pub open spec fn empty_scan() -> ScanView {
    ScanView { matches: Seq::empty(), wrong_form: false, missing: None }
}

/// `st` with a match added.
pub open spec fn with_match(st: ScanView, m: MatchView) -> ScanView {
    ScanView { matches: st.matches.push(m), ..st }
}

/// `st` noting that the name matched only the other form.
pub open spec fn with_wrong_form(st: ScanView) -> ScanView {
    ScanView { wrong_form: true, ..st }
}

/// `st` remembering `d` as lacking `HasInverse`, unless one is already remembered.
pub open spec fn with_missing(st: ScanView, d: HolonReference) -> ScanView {
    ScanView {
        missing: if st.missing is None {
            Some(d)
        } else {
            st.missing
        },
        ..st
    }
}

/// The name of the optional inverse.
pub open spec fn inverse_name_of(g: Seq<HolonView>, inv: Option<HolonReference>) -> Result<Option<Seq<char>>, ErrorView> {
    match inv {
        None => Ok(None),
        Some(i) => match spec_type_name(g, i) {
            Err(e) => Err(e),
            Ok(n) => Ok(Some(n)),
        },
    }
}

/// Classifies one declaration `d` (named `dn`, with inverse `inv` named `iname`)
/// for a request of `name`. `native` is the direction in which the declared form
/// is requested: outbound for the endpoint's own declarations, inbound for
/// declarations that target it.
pub open spec fn classify_declaration(
    g: Seq<HolonView>,
    d: HolonReference,
    dn: Seq<char>,
    inv: Option<HolonReference>,
    iname: Option<Seq<char>>,
    name: Seq<char>,
    direction: TraversalDirection,
    native: TraversalDirection,
    st: ScanView,
) -> Result<ScanView, ErrorView> {
    if direction == native {
        if dn == name {
            Ok(with_match(st, (d, d, RelationshipDirection::Declared)))
        } else if iname == Some(name) {
            Ok(with_wrong_form(st))
        } else {
            Ok(st)
        }
    } else {
        if iname == Some(name) {
            match spec_required_inverse(g, d) {
                Err(e) => Err(e),
                Ok(i) => Ok(with_match(st, (d, i, RelationshipDirection::Inverse))),
            }
        } else if dn == name {
            Ok(with_wrong_form(st))
        } else if inv is None {
            Ok(with_missing(st, d))
        } else {
            Ok(st)
        }
    }
}

/// Reads the names of the declaration `d` and its inverse, then classifies it.
pub open spec fn scan_declaration(
    g: Seq<HolonView>,
    d: HolonReference,
    name: Seq<char>,
    direction: TraversalDirection,
    native: TraversalDirection,
    st: ScanView,
) -> Result<ScanView, ErrorView> {
    match spec_type_name(g, d) {
        Err(e) => Err(e),
        Ok(dn) => match spec_has_inverse(g, d) {
            Err(e) => Err(e),
            Ok(inv) => match inverse_name_of(g, inv) {
                Err(e) => Err(e),
                Ok(iname) => classify_declaration(g, d, dn, inv, iname, name, direction, native, st),
            },
        },
    }
}

/// Scans the endpoint's own declarations `ds[i..]`.
pub open spec fn source_from(
    g: Seq<HolonView>,
    ds: Seq<HolonReference>,
    i: int,
    name: Seq<char>,
    direction: TraversalDirection,
    st: ScanView,
) -> Result<ScanView, ErrorView>
    decreases ds.len() - i,
{
    if i < 0 || i >= ds.len() {
        Ok(st)
    } else {
        match spec_as_declared(g, ds[i]) {
            Err(e) => Err(e),
            Ok(d) => match scan_declaration(g, d, name, direction, TraversalDirection::Outbound, st) {
                Err(e) => Err(e),
                Ok(st2) => source_from(g, ds, i + 1, name, direction, st2),
            },
        }
    }
}

/// Whether the source type of `d` licenses exactly `d` under its name.
pub open spec fn spec_source_licenses_by_name(g: Seq<HolonView>, d: HolonReference) -> Result<bool, ErrorView> {
    match spec_require_single_related(g, d, CoreRelationshipTypeName::SourceType) {
        Err(e) => Err(e),
        Ok(source) => match spec_type_name(g, d) {
            Err(e) => Err(e),
            Ok(dn) => match spec_get_by_name(g, source, CoreRelationshipTypeName::InstanceRelationships, dn, "relationship"@) {
                Ok(l) => Ok(l == d),
                Err(ErrorView::DescriptorDeclarationNotFound { .. }) => Ok(false),
                Err(e) => Err(e),
            },
        },
    }
}

/// Scans the declarations `ds[i..]` that target the endpoint, keeping those
/// whose target type admits the endpoint and whose source licenses them.
pub open spec fn target_from(
    g: Seq<HolonView>,
    endpoint: HolonReference,
    ds: Seq<HolonReference>,
    i: int,
    name: Seq<char>,
    direction: TraversalDirection,
    st: ScanView,
) -> Result<ScanView, ErrorView>
    decreases ds.len() - i,
{
    if i < 0 || i >= ds.len() {
        Ok(st)
    } else {
        match spec_as_declared(g, ds[i]) {
            Err(e) => Err(e),
            Ok(d) => match spec_require_single_related(g, d, CoreRelationshipTypeName::TargetType) {
                Err(e) => Err(e),
                Ok(t) => match spec_equals_or_extends(g, endpoint, t) {
                    Err(e) => Err(e),
                    Ok(false) => target_from(g, endpoint, ds, i + 1, name, direction, st),
                    Ok(true) => match spec_source_licenses_by_name(g, d) {
                        Err(e) => Err(e),
                        Ok(false) => target_from(g, endpoint, ds, i + 1, name, direction, st),
                        Ok(true) => match scan_declaration(g, d, name, direction, TraversalDirection::Inbound, st) {
                            Err(e) => Err(e),
                            Ok(st2) => target_from(g, endpoint, ds, i + 1, name, direction, st2),
                        },
                    },
                },
            },
        }
    }
}

/// Whether some match of `ms` is for the declared relationship `d`.
pub open spec fn has_declared(ms: Seq<MatchView>, d: HolonReference) -> bool {
    exists|k: int| 0 <= k < ms.len() && (#[trigger] ms[k]).0 == d
}

/// The first match for each distinct declaration among the first `n` of `ms`.
pub open spec fn distinct_upto(ms: Seq<MatchView>, n: int) -> Seq<MatchView>
    decreases n,
{
    if n <= 0 || n > ms.len() {
        Seq::empty()
    } else {
        let d = distinct_upto(ms, n - 1);
        if has_declared(d, ms[n - 1].0) {
            d
        } else {
            d.push(ms[n - 1])
        }
    }
}

/// The unique match for `name` requested in `direction` at `endpoint`, or the
/// reason there is none: ambiguity, the other form only, a missing inverse,
/// an unanswerable staged traversal, or absence, in that order.
pub open spec fn spec_resolve_unique(
    g: Seq<HolonView>,
    endpoint: HolonReference,
    name: Seq<char>,
    direction: TraversalDirection,
) -> Result<MatchView, ErrorView> {
    match spec_flatten(g, endpoint, CoreRelationshipTypeName::InstanceRelationships.spec_name()) {
        Err(e) => Err(e),
        Ok(ds) => match source_from(g, ds, 0, name, direction, empty_scan()) {
            Err(e) => Err(e),
            Ok(s) => match spec_flatten(g, endpoint, CoreRelationshipTypeName::TargetOf.spec_name()) {
                Err(e) => Err(e),
                Ok(tms) => match target_from(g, endpoint, tms, 0, name, direction, empty_scan()) {
                    Err(e) => Err(e),
                    Ok(t) => {
                        let ms = s.matches + t.matches;
                        let dm = distinct_upto(ms, ms.len() as int);
                        let missing = if s.missing is None {
                            t.missing
                        } else {
                            s.missing
                        };
                        if dm.len() == 1 {
                            Ok(dm[0])
                        } else if dm.len() > 1 {
                            Err(
                                ErrorView::AmbiguousRelationshipTraversal {
                                    relationship: name,
                                    direction: Some(direction),
                                    descriptor: endpoint,
                                },
                            )
                        } else if s.wrong_form || t.wrong_form {
                            Err(
                                ErrorView::IllegalRelationshipTraversal {
                                    relationship: name,
                                    direction,
                                    descriptor: endpoint,
                                },
                            )
                        } else {
                            match spec_surface_missing_inverse(g, missing) {
                                Err(e) => Err(e),
                                Ok(_) => if tms.len() == 0 && endpoint.phase() != HolonPhase::Saved {
                                    Err(ErrorView::UnsupportedStagedTraversal { relationship: name, descriptor: endpoint })
                                } else {
                                    Err(
                                        ErrorView::DescriptorDeclarationNotFound {
                                            kind: "relationship"@,
                                            name,
                                            descriptor: endpoint,
                                        },
                                    )
                                },
                            }
                        }
                    },
                },
            },
        },
    }
}

/// The exec form of a match.
pub struct TraversalMatch {
    pub declared_ref: HolonReference,
    pub requested_ref: HolonReference,
    pub descriptor_direction: RelationshipDirection,
}

impl DeepView for TraversalMatch {
    type V = MatchView;

    open spec fn deep_view(&self) -> MatchView {
        (self.declared_ref, self.requested_ref, self.descriptor_direction)
    }
}

/// The exec form of `ScanView`.
pub struct ScanState {
    pub matches: Vec<TraversalMatch>,
    pub wrong_form: bool,
    pub missing: Option<HolonReference>,
}

impl ScanState {
    pub open spec fn spec_view(&self) -> ScanView {
        ScanView { matches: self.matches.deep_view(), wrong_form: self.wrong_form, missing: self.missing }
    }

    /// The state before any declaration is scanned.
    pub fn new() -> (s: ScanState)
        ensures
            s.spec_view() == empty_scan(),
    {
        let s = ScanState { matches: Vec::new(), wrong_form: false, missing: None };
        assert(s.matches.deep_view() =~= Seq::<MatchView>::empty());
        s
    }
}

/// Reads and classifies one declaration into `st`.
fn scan_one(
    g: &HolonGraph,
    declared: &DeclaredRelationshipDescriptor,
    name: &RelationshipName,
    direction: TraversalDirection,
    native: TraversalDirection,
    st: &mut ScanState,
) -> (res: Result<(), HolonError>)
    ensures
        match res {
            Ok(_) => scan_declaration(g@, declared@, name@, direction, native, old(st).spec_view()) == Ok::<
                ScanView,
                ErrorView,
            >(final(st).spec_view()),
            Err(e) => scan_declaration(g@, declared@, name@, direction, native, old(st).spec_view()) == Err::<
                ScanView,
                ErrorView,
            >(e@),
        },
{
    let d = declared.holon();
    let dn = TypeHeader::new(d).declared_type_name(g)?;
    let inv = declared.has_inverse(g)?;
    let iname: Option<MapString> = match &inv {
        None => None,
        Some(i) => Some(TypeHeader::new(i.holon()).declared_type_name(g)?),
    };
    let iname_matches = match &iname {
        Some(n) => n.equals(&name.0),
        None => false,
    };
    proof {
        let inv_v: Option<HolonReference> = match &inv {
            Some(i) => Some(i@),
            None => None,
        };
        let iname_v: Option<Seq<char>> = match &iname {
            Some(n) => Some(n@),
            None => None,
        };
        assert(inverse_name_of(g@, inv_v) == Ok::<Option<Seq<char>>, ErrorView>(iname_v));
        assert(iname_matches == (iname_v == Some(name@)));
    }
    if direction == native {
        if dn.equals(&name.0) {
            let ghost before = st.matches.deep_view();
            st.matches.push(TraversalMatch { declared_ref: d, requested_ref: d, descriptor_direction: RelationshipDirection::Declared });
            assert(st.matches.deep_view() =~= before.push((d, d, RelationshipDirection::Declared)));
        } else if iname_matches {
            st.wrong_form = true;
        }
    } else {
        if iname_matches {
            let i = declared.required_inverse(g)?;
            let ghost before = st.matches.deep_view();
            st.matches.push(TraversalMatch { declared_ref: d, requested_ref: i.holon(), descriptor_direction: RelationshipDirection::Inverse });
            assert(st.matches.deep_view() =~= before.push((d, i@, RelationshipDirection::Inverse)));
        } else if dn.equals(&name.0) {
            st.wrong_form = true;
        } else if inv.is_none() {
            if st.missing.is_none() {
                st.missing = Some(d);
            }
        }
    }
    Ok(())
}

/// Scans the endpoint's own declarations for the requested form.
pub fn collect_source_owned_matches(
    g: &HolonGraph,
    endpoint: &HolonDescriptor,
    relationship_name: &RelationshipName,
    direction: TraversalDirection,
    st: &mut ScanState,
) -> (res: Result<(), HolonError>)
    ensures
        match spec_flatten(g@, endpoint@, CoreRelationshipTypeName::InstanceRelationships.spec_name()) {
            Err(e) => rview(res) == Err::<(), ErrorView>(e),
            Ok(ds) => match res {
                Ok(_) => source_from(g@, ds, 0, relationship_name@, direction, old(st).spec_view()) == Ok::<
                    ScanView,
                    ErrorView,
                >(final(st).spec_view()),
                Err(e) => source_from(g@, ds, 0, relationship_name@, direction, old(st).spec_view()) == Err::<
                    ScanView,
                    ErrorView,
                >(e@),
            },
        },
{
    let ds = flatten_related_members(g, endpoint.holon(), CoreRelationshipTypeName::InstanceRelationships)?;
    let ghost start = st.spec_view();
    let mut i: usize = 0;
    while i < ds.len()
        invariant
            i <= ds.len(),
            start == old(st).spec_view(),
            spec_flatten(g@, endpoint@, CoreRelationshipTypeName::InstanceRelationships.spec_name()) == Ok::<
                Seq<HolonReference>,
                ErrorView,
            >(ds@),
            source_from(g@, ds@, 0, relationship_name@, direction, start) == source_from(
                g@,
                ds@,
                i as int,
                relationship_name@,
                direction,
                st.spec_view(),
            ),
        decreases ds.len() - i,
    {
        let declared = DeclaredRelationshipDescriptor::try_from_holon(g, ds[i])?;
        scan_one(g, &declared, relationship_name, direction, TraversalDirection::Outbound, st)?;
        i = i + 1;
    }
    Ok(())
}

/// Whether the source type of `declared` licenses exactly this declaration under its name.
pub fn source_licenses_declared_relationship(g: &HolonGraph, declared: &DeclaredRelationshipDescriptor) -> (res:
    Result<bool, HolonError>)
    ensures
        rview(res) == spec_source_licenses_by_name(g@, declared@),
{
    let source = declared.source_type(g)?;
    let dn = TypeHeader::new(declared.holon()).declared_type_name(g)?;
    match source.relationship_named(g, &dn) {
        Ok(l) => Ok(l.holon().same(&declared.holon())),
        Err(HolonError::DescriptorDeclarationNotFound { .. }) => Ok(false),
        Err(e) => Err(e),
    }
}

/// The outcome of scanning the declarations that target an endpoint.
pub struct TargetTraversalStatus {
    pub scan: ScanState,
    pub requires_materialized_target_index: bool,
}

/// Scans the declarations that target the endpoint for the requested form.
pub fn collect_target_owned_matches(
    g: &HolonGraph,
    endpoint: &HolonDescriptor,
    relationship_name: &RelationshipName,
    direction: TraversalDirection,
) -> (res: Result<TargetTraversalStatus, HolonError>)
    ensures
        match spec_flatten(g@, endpoint@, CoreRelationshipTypeName::TargetOf.spec_name()) {
            Err(e) => rview_status(res) == Err::<ScanView, ErrorView>(e),
            Ok(tms) => rview_status(res) == target_from(
                g@,
                endpoint@,
                tms,
                0,
                relationship_name@,
                direction,
                empty_scan(),
            ) && (res matches Ok(s) ==> s.requires_materialized_target_index == (tms.len() == 0
                && endpoint@.phase() != HolonPhase::Saved)),
        },
{
    let tms = flatten_related_members(g, endpoint.holon(), CoreRelationshipTypeName::TargetOf)?;
    let mut st = ScanState::new();
    let mut i: usize = 0;
    while i < tms.len()
        invariant
            i <= tms.len(),
            spec_flatten(g@, endpoint@, CoreRelationshipTypeName::TargetOf.spec_name()) == Ok::<
                Seq<HolonReference>,
                ErrorView,
            >(tms@),
            target_from(g@, endpoint@, tms@, 0, relationship_name@, direction, empty_scan()) == target_from(
                g@,
                endpoint@,
                tms@,
                i as int,
                relationship_name@,
                direction,
                st.spec_view(),
            ),
        decreases tms.len() - i,
    {
        let declared = DeclaredRelationshipDescriptor::try_from_holon(g, tms[i])?;
        let t = declared.target_type(g)?;
        if equals_or_extends(g, endpoint.holon(), t.holon())? {
            if source_licenses_declared_relationship(g, &declared)? {
                scan_one(g, &declared, relationship_name, direction, TraversalDirection::Inbound, &mut st)?;
            }
        }
        i = i + 1;
    }
    let index_required = tms.len() == 0 && !endpoint.holon().is_saved();
    Ok(TargetTraversalStatus { scan: st, requires_materialized_target_index: index_required })
}

/// The scan view of a target status result.
pub open spec fn rview_status(r: Result<TargetTraversalStatus, HolonError>) -> Result<ScanView, ErrorView> {
    match r {
        Ok(s) => Ok(s.scan.spec_view()),
        Err(e) => Err(e@),
    }
}

fn push_distinct(out: &mut Vec<TraversalMatch>, m: TraversalMatch)
    ensures
        final(out).deep_view() == (if has_declared(old(out).deep_view(), m.declared_ref) {
            old(out).deep_view()
        } else {
            old(out).deep_view().push(m.deep_view())
        }),
{
    let ghost v = out.deep_view();
    let mut i: usize = 0;
    while i < out.len()
        invariant
            i <= out.len(),
            v == out.deep_view(),
            forall|k: int| 0 <= k < i ==> (#[trigger] v[k]).0 != m.declared_ref,
        decreases out.len() - i,
    {
        if out[i].declared_ref.same(&m.declared_ref) {
            assert(v[i as int].0 == m.declared_ref);
            return;
        }
        i = i + 1;
    }
    out.push(m);
    assert(out.deep_view() =~= v.push(m.deep_view()));
}

/// Resolves the unique match for `relationship_name` requested in `direction` at `endpoint`.
pub fn resolve_unique(
    g: &HolonGraph,
    endpoint: &HolonDescriptor,
    relationship_name: &RelationshipName,
    direction: TraversalDirection,
) -> (res: Result<TraversalMatch, HolonError>)
    ensures
        rview(res) == spec_resolve_unique(g@, endpoint@, relationship_name@, direction),
{
    let mut source = ScanState::new();
    collect_source_owned_matches(g, endpoint, relationship_name, direction, &mut source)?;
    let target = collect_target_owned_matches(g, endpoint, relationship_name, direction)?;
    let ghost ms = source.matches.deep_view() + target.scan.matches.deep_view();
    let mut all = source.matches;
    let wrong_form = source.wrong_form || target.scan.wrong_form;
    let missing = match source.missing {
        None => target.scan.missing,
        Some(d) => Some(d),
    };
    let index_required = target.requires_materialized_target_index;
    let mut rest = target.scan.matches;
    let ghost rv = rest.deep_view();
    let ghost av = all.deep_view();
    all.append(&mut rest);
    assert(all.deep_view() =~= av + rv);
    let mut distinct: Vec<TraversalMatch> = Vec::new();
    assert(distinct.deep_view() =~= distinct_upto(ms, 0));
    let mut i: usize = 0;
    while i < all.len()
        invariant
            i <= all.len(),
            all.deep_view() == ms,
            distinct.deep_view() == distinct_upto(ms, i as int),
        decreases all.len() - i,
    {
        let m = TraversalMatch {
            declared_ref: all[i].declared_ref,
            requested_ref: all[i].requested_ref,
            descriptor_direction: all[i].descriptor_direction,
        };
        assert(m.deep_view() == ms[i as int]);
        push_distinct(&mut distinct, m);
        i = i + 1;
    }
    if distinct.len() == 1 {
        let m = &distinct[0];
        return Ok(
            TraversalMatch {
                declared_ref: m.declared_ref,
                requested_ref: m.requested_ref,
                descriptor_direction: m.descriptor_direction,
            },
        );
    }
    if distinct.len() > 1 {
        return Err(
            HolonError::AmbiguousRelationshipTraversal {
                relationship: relationship_name.0.to_owned_string(),
                direction: Some(direction),
                descriptor: endpoint.holon(),
            },
        );
    }
    if wrong_form {
        return Err(
            HolonError::IllegalRelationshipTraversal {
                relationship: relationship_name.0.to_owned_string(),
                direction,
                descriptor: endpoint.holon(),
            },
        );
    }
    surface_missing_inverse(g, missing)?;
    if index_required {
        return Err(
            HolonError::UnsupportedStagedTraversal {
                relationship: relationship_name.0.to_owned_string(),
                descriptor: endpoint.holon(),
            },
        );
    }
    Err(
        HolonError::DescriptorDeclarationNotFound {
            kind: String::from_str("relationship"),
            name: relationship_name.0.to_owned_string(),
            descriptor: endpoint.holon(),
        },
    )
}

/// Resolves the relationship descriptor for a request of `relationship_name` in `direction`.
pub fn allows_relationship(
    g: &HolonGraph,
    endpoint: &HolonDescriptor,
    relationship_name: &RelationshipName,
    direction: TraversalDirection,
) -> (res: Result<QualifiedRelationship, HolonError>)
    ensures
        match spec_resolve_unique(g@, endpoint@, relationship_name@, direction) {
            Err(e) => rview(res) == Err::<(HolonReference, RelationshipDirection, TraversalDirection), ErrorView>(e),
            Ok(m) => rview(res) == Ok::<_, ErrorView>((m.1, m.2, direction)),
        },
{
    let resolved = resolve_unique(g, endpoint, relationship_name, direction)?;
    Ok(
        QualifiedRelationship {
            descriptor: RelationshipDescriptor::from_holon(resolved.requested_ref),
            descriptor_direction: resolved.descriptor_direction,
            traversal_direction: direction,
        },
    )
}

/// Normalizes a request to the declared relationship it names, in either form.
pub fn normalize_relationship(
    g: &HolonGraph,
    endpoint: &HolonDescriptor,
    relationship_name: &RelationshipName,
    direction: TraversalDirection,
) -> (res: Result<DeclaredRelationshipDescriptor, HolonError>)
    ensures
        rview(res) == match spec_resolve_unique(g@, endpoint@, relationship_name@, direction) {
            Err(e) => Err(e),
            Ok(m) => spec_as_declared(g@, m.0),
        },
{
    let resolved = resolve_unique(g, endpoint, relationship_name, direction)?;
    DeclaredRelationshipDescriptor::try_from_holon(g, resolved.declared_ref)
}

/// The diagnostic label of a traversal direction.
pub fn traversal_direction_label(direction: TraversalDirection) -> (s: String)
    ensures
        s@ == (match direction {
            TraversalDirection::Inbound => "Inbound"@,
            TraversalDirection::Outbound => "Outbound"@,
        }),
{
    match direction {
        TraversalDirection::Inbound => String::from_str("Inbound"),
        TraversalDirection::Outbound => String::from_str("Outbound"),
    }
}


/// A match for a request of `name` in `direction` is right for the
/// declaration `d` scanned in its `native` direction: requested natively, it
/// is `d` itself in its declared form, named `name`; requested the other way,
/// it is `d`'s inverse, named `name`, in its inverse form.
pub open spec fn match_for(
    g: Seq<HolonView>,
    d: HolonReference,
    name: Seq<char>,
    direction: TraversalDirection,
    native: TraversalDirection,
    m: MatchView,
) -> bool {
    &&& m.0 == d
    &&& direction == native ==> m.1 == d && m.2 == RelationshipDirection::Declared && spec_type_name(g, d) == Ok::<
        Seq<char>,
        ErrorView,
    >(name)
    &&& direction != native ==> m.2 == RelationshipDirection::Inverse && spec_has_inverse(g, d) == Ok::<
        Option<HolonReference>,
        ErrorView,
    >(Some(m.1)) && spec_type_name(g, m.1) == Ok::<Seq<char>, ErrorView>(name)
}

proof fn lemma_scan_declaration_adds(
    g: Seq<HolonView>,
    d: HolonReference,
    name: Seq<char>,
    direction: TraversalDirection,
    native: TraversalDirection,
    st: ScanView,
)
    ensures
        scan_declaration(g, d, name, direction, native, st) matches Ok(st2) ==> (st2.matches == st.matches || (
        st2.matches.len() == st.matches.len() + 1 && st2.matches.drop_last() == st.matches && match_for(
            g,
            d,
            name,
            direction,
            native,
            st2.matches.last(),
        ))),
{
    if let Ok(st2) = scan_declaration(g, d, name, direction, native, st) {
        if st2.matches != st.matches {
            assert(st2.matches.drop_last() =~= st.matches);
        }
    }
}

/// Every match of a scan from `st` on is `st`'s matches followed by matches
/// each right for a declaration of `ds[i..]` whose target admits `endpoint`
/// and whose source licenses it by name.
pub open spec fn target_matches_ok(
    g: Seq<HolonView>,
    endpoint: HolonReference,
    ds: Seq<HolonReference>,
    i: int,
    name: Seq<char>,
    direction: TraversalDirection,
    before: Seq<MatchView>,
    after: Seq<MatchView>,
) -> bool {
    &&& before.len() <= after.len()
    &&& after.subrange(0, before.len() as int) == before
    &&& forall|j: int|
        before.len() <= j < after.len() ==> exists|k: int|
            i <= k < ds.len() && spec_as_declared(g, ds[k]) == Ok::<HolonReference, ErrorView>(after[j].0)
                && (spec_require_single_related(g, after[j].0, CoreRelationshipTypeName::TargetType) matches Ok(t)
                && spec_equals_or_extends(g, endpoint, t) == Ok::<bool, ErrorView>(true))
                && spec_source_licenses_by_name(g, after[j].0) == Ok::<bool, ErrorView>(true) && match_for(
                g,
                after[j].0,
                name,
                direction,
                TraversalDirection::Inbound,
                #[trigger] after[j],
            )
}

proof fn lemma_target_from(
    g: Seq<HolonView>,
    endpoint: HolonReference,
    ds: Seq<HolonReference>,
    i: int,
    name: Seq<char>,
    direction: TraversalDirection,
    st: ScanView,
)
    requires
        0 <= i <= ds.len(),
    ensures
        target_from(g, endpoint, ds, i, name, direction, st) matches Ok(t) ==> target_matches_ok(
            g,
            endpoint,
            ds,
            i,
            name,
            direction,
            st.matches,
            t.matches,
        ),
    decreases ds.len() - i,
{
    if i < ds.len() {
        if let Ok(d) = spec_as_declared(g, ds[i]) {
            if let Ok(t) = spec_require_single_related(g, d, CoreRelationshipTypeName::TargetType) {
                if spec_equals_or_extends(g, endpoint, t) == Ok::<bool, ErrorView>(true) {
                    if spec_source_licenses_by_name(g, d) == Ok::<bool, ErrorView>(true) {
                        lemma_scan_declaration_adds(g, d, name, direction, TraversalDirection::Inbound, st);
                        if let Ok(st2) = scan_declaration(g, d, name, direction, TraversalDirection::Inbound, st) {
                            lemma_target_from(g, endpoint, ds, i + 1, name, direction, st2);
                            if let Ok(r) = target_from(g, endpoint, ds, i + 1, name, direction, st2) {
                                let before = st.matches;
                                let after = r.matches;
                                assert(after.subrange(0, st2.matches.len() as int) == st2.matches);
                                if st2.matches != before {
                                    assert(st2.matches.subrange(0, before.len() as int) =~= before);
                                    assert(after.subrange(0, before.len() as int) =~= st2.matches.subrange(
                                        0,
                                        before.len() as int,
                                    ));
                                    assert(after[before.len() as int] == st2.matches.last());
                                }
                                assert forall|j: int| before.len() <= j < after.len() implies exists|k: int|
                                    i <= k < ds.len() && spec_as_declared(g, ds[k]) == Ok::<HolonReference, ErrorView>(
                                        after[j].0,
                                    ) && (spec_require_single_related(
                                        g,
                                        after[j].0,
                                        CoreRelationshipTypeName::TargetType,
                                    ) matches Ok(t) && spec_equals_or_extends(g, endpoint, t) == Ok::<bool, ErrorView>(
                                        true,
                                    )) && spec_source_licenses_by_name(g, after[j].0) == Ok::<bool, ErrorView>(true)
                                        && match_for(
                                        g,
                                        after[j].0,
                                        name,
                                        direction,
                                        TraversalDirection::Inbound,
                                        #[trigger] after[j],
                                    ) by {
                                    if j >= st2.matches.len() {
                                    } else {
                                        assert(after[j] == st2.matches[j]);
                                        assert(j == before.len());
                                        assert(st2.matches[j] == st2.matches.last());
                                    }
                                }
                            }
                        }
                    } else {
                        lemma_target_from(g, endpoint, ds, i + 1, name, direction, st);
                    }
                } else {
                    lemma_target_from(g, endpoint, ds, i + 1, name, direction, st);
                }
            }
        }
    } else {
        assert(st.matches.subrange(0, st.matches.len() as int) =~= st.matches);
    }
}

/// The target scan keeps a declaration that targets the endpoint only when
/// its target type admits the endpoint and its source type licenses exactly
/// it under its name; a kept declaration matches a request inbound in its
/// declared form (named as requested) and outbound in its inverse form (the
/// inverse named as requested).
pub proof fn law_target_scan_member_rule(
    g: Seq<HolonView>,
    endpoint: HolonReference,
    ds: Seq<HolonReference>,
    name: Seq<char>,
    direction: TraversalDirection,
)
    ensures
        target_from(g, endpoint, ds, 0, name, direction, empty_scan()) matches Ok(t) ==> target_matches_ok(
            g,
            endpoint,
            ds,
            0,
            name,
            direction,
            Seq::empty(),
            t.matches,
        ),
{
    lemma_target_from(g, endpoint, ds, 0, name, direction, empty_scan());
}

/// The first match of each distinct declared relationship, in order: every
/// match's declaration appears once among them, and each of them is a match.
pub proof fn law_distinct_matches(ms: Seq<MatchView>)
    ensures
        forall|j: int| 0 <= j < ms.len() ==> has_declared(distinct_upto(ms, ms.len() as int), #[trigger] ms[j].0),
        forall|a: int, b: int|
            0 <= a < b < distinct_upto(ms, ms.len() as int).len() ==> (#[trigger] distinct_upto(
                ms,
                ms.len() as int,
            )[a]).0 != (#[trigger] distinct_upto(ms, ms.len() as int)[b]).0,
        forall|a: int|
            0 <= a < distinct_upto(ms, ms.len() as int).len() ==> ms.contains(
                #[trigger] distinct_upto(ms, ms.len() as int)[a],
            ),
{
    lemma_distinct_upto(ms, ms.len() as int);
}

proof fn lemma_distinct_upto(ms: Seq<MatchView>, n: int)
    requires
        0 <= n <= ms.len(),
    ensures
        forall|j: int| 0 <= j < n ==> has_declared(distinct_upto(ms, n), #[trigger] ms[j].0),
        forall|a: int, b: int|
            0 <= a < b < distinct_upto(ms, n).len() ==> (#[trigger] distinct_upto(ms, n)[a]).0 != (
            #[trigger] distinct_upto(ms, n)[b]).0,
        forall|a: int| 0 <= a < distinct_upto(ms, n).len() ==> ms.contains(#[trigger] distinct_upto(ms, n)[a]),
    decreases n,
{
    if n > 0 {
        lemma_distinct_upto(ms, n - 1);
        let d = distinct_upto(ms, n - 1);
        let dn = distinct_upto(ms, n);
        if !has_declared(d, ms[n - 1].0) {
            assert(dn == d.push(ms[n - 1]));
            assert forall|j: int| 0 <= j < n implies has_declared(dn, #[trigger] ms[j].0) by {
                if j < n - 1 {
                    let k = choose|k: int| 0 <= k < d.len() && (#[trigger] d[k]).0 == ms[j].0;
                    assert(dn[k] == d[k]);
                } else {
                    assert(dn[d.len() as int] == ms[n - 1]);
                }
            }
            assert forall|a: int, b: int| 0 <= a < b < dn.len() implies (#[trigger] dn[a]).0 != (
            #[trigger] dn[b]).0 by {
                if b == d.len() {
                    assert(dn[a] == d[a]);
                    if d[a].0 == ms[n - 1].0 {
                        assert(has_declared(d, ms[n - 1].0));
                    }
                } else {
                    assert(dn[a] == d[a] && dn[b] == d[b]);
                }
            }
            assert forall|a: int| 0 <= a < dn.len() implies ms.contains(#[trigger] dn[a]) by {
                if a < d.len() {
                    assert(dn[a] == d[a]);
                    assert(ms.contains(d[a]));
                } else {
                    assert(ms[n - 1] == dn[a]);
                }
            }
        } else {
            assert forall|j: int| 0 <= j < n implies has_declared(dn, #[trigger] ms[j].0) by {
                if j == n - 1 {
                }
            }
        }
    }
}

/// The resolution case law: with both scans read, one distinct declaration
/// resolves to its match; two or more distinct declarations are ambiguous;
/// with none, a name matching only the other form is an illegal traversal;
/// next, the first inverse-form candidate (source scan first) that has no
/// `HasInverse` is reported as missing it; then a staged endpoint with no
/// `TargetOf` index is an unanswerable traversal; and otherwise the
/// relationship is not found.
pub proof fn law_resolve_unique_cases(
    g: Seq<HolonView>,
    endpoint: HolonReference,
    name: Seq<char>,
    direction: TraversalDirection,
    ds: Seq<HolonReference>,
    tms: Seq<HolonReference>,
    s: ScanView,
    t: ScanView,
)
    requires
        spec_flatten(g, endpoint, CoreRelationshipTypeName::InstanceRelationships.spec_name()) == Ok::<
            Seq<HolonReference>,
            ErrorView,
        >(ds),
        source_from(g, ds, 0, name, direction, empty_scan()) == Ok::<ScanView, ErrorView>(s),
        spec_flatten(g, endpoint, CoreRelationshipTypeName::TargetOf.spec_name()) == Ok::<
            Seq<HolonReference>,
            ErrorView,
        >(tms),
        target_from(g, endpoint, tms, 0, name, direction, empty_scan()) == Ok::<ScanView, ErrorView>(t),
    ensures
        ({
            let dm = distinct_upto(s.matches + t.matches, (s.matches + t.matches).len() as int);
            let missing = if s.missing is None {
                t.missing
            } else {
                s.missing
            };
            let r = spec_resolve_unique(g, endpoint, name, direction);
            &&& dm.len() == 1 ==> r == Ok::<MatchView, ErrorView>(dm[0])
            &&& dm.len() > 1 ==> r == Err::<MatchView, ErrorView>(
                ErrorView::AmbiguousRelationshipTraversal {
                    relationship: name,
                    direction: Some(direction),
                    descriptor: endpoint,
                },
            )
            &&& (dm.len() == 0 && (s.wrong_form || t.wrong_form)) ==> r == Err::<MatchView, ErrorView>(
                ErrorView::IllegalRelationshipTraversal { relationship: name, direction, descriptor: endpoint },
            )
            &&& (dm.len() == 0 && !s.wrong_form && !t.wrong_form && missing is Some && spec_as_declared(g, missing->0)
                is Ok && spec_has_inverse(g, missing->0) == Ok::<Option<HolonReference>, ErrorView>(None)) ==> r
                == Err::<MatchView, ErrorView>(
                ErrorView::MissingRequiredRelationship { relationship: "HasInverse"@, descriptor: missing->0 },
            )
            &&& (dm.len() == 0 && !s.wrong_form && !t.wrong_form && spec_surface_missing_inverse(g, missing) is Ok
                && tms.len() == 0 && endpoint.phase() != HolonPhase::Saved) ==> r == Err::<MatchView, ErrorView>(
                ErrorView::UnsupportedStagedTraversal { relationship: name, descriptor: endpoint },
            )
            &&& (dm.len() == 0 && !s.wrong_form && !t.wrong_form && spec_surface_missing_inverse(g, missing) is Ok
                && !(tms.len() == 0 && endpoint.phase() != HolonPhase::Saved)) ==> r == Err::<MatchView, ErrorView>(
                ErrorView::DescriptorDeclarationNotFound { kind: "relationship"@, name, descriptor: endpoint },
            )
        }),
{
}

} // verus!
