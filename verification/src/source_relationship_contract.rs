//! Staged-safe classification of authored relationship occurrences.
//!
//! A source contract is the effective declared relationship surface of one
//! source holon. Authoring is licensed only by declared relationships. When a
//! requested name is not declared by the source, classification inspects the
//! concrete target endpoint to recognize an inverse occurrence, without the
//! materialized `TargetOf` index.
use crate::accessor_helpers::spec_require_single_related;
use crate::declared_relationship_descriptor::{spec_required_inverse, DeclaredRelationshipDescriptor};
use crate::descriptor::Descriptor;
use crate::effective_relationships::{
    effective_declared_relationships, effective_declared_relationships_for_holon, spec_declared_for_holon,
    spec_effective_declared,
};
use crate::error::{rview, ErrorView, HolonError};
use crate::graph::{HolonGraph, HolonReference, HolonView};
use crate::holon_descriptor::{holon_descriptor, spec_holon_descriptor, HolonDescriptor};
use crate::inheritance::{equals_or_extends, spec_equals_or_extends};
use crate::inverse_relationship_descriptor::InverseRelationshipDescriptor;
use crate::relationship_descriptor::spec_as_declared;
use crate::type_header::{spec_type_name, TypeHeader};
use crate::values::RelationshipName;
use vstd::prelude::*;

verus! {

/// Orientation of one populated `(source, relationship name, target)` occurrence.
///
/// `Unresolved` means that lookup completed but neither the source's declared
/// contract nor an applicable opposite-endpoint inverse established the
/// orientation. It is not an authorization result.
pub enum RelationshipOccurrenceOrientation {
    /// The source contract declares this relationship name.
    Declared(DeclaredRelationshipDescriptor),
    /// The occurrence names an inverse of a declared relationship licensed on the target endpoint.
    RecognizedInverse {
        inverse: InverseRelationshipDescriptor,
        declared: DeclaredRelationshipDescriptor,
        declared_source_type: HolonDescriptor,
    },
    /// Neither declared nor a recognized inverse.
    Unresolved,
}

/// The mathematical content of an orientation.
pub enum OrientationView {
    Declared(HolonReference),
    RecognizedInverse { inverse: HolonReference, declared: HolonReference, declared_source_type: HolonReference },
    Unresolved,
}

impl DeepView for RelationshipOccurrenceOrientation {
    type V = OrientationView;

    open spec fn deep_view(&self) -> OrientationView {
        match self {
            RelationshipOccurrenceOrientation::Declared(d) => OrientationView::Declared(d@),
            RelationshipOccurrenceOrientation::RecognizedInverse { inverse, declared, declared_source_type } => {
                OrientationView::RecognizedInverse {
                    inverse: inverse@,
                    declared: declared@,
                    declared_source_type: declared_source_type@,
                }
            },
            RelationshipOccurrenceOrientation::Unresolved => OrientationView::Unresolved,
        }
    }
}

/// The first declaration of `ds[i..]` named `name`, if any.
pub open spec fn first_declared_named(g: Seq<HolonView>, ds: Seq<HolonReference>, i: int, name: Seq<char>) -> Result<
    Option<HolonReference>,
    ErrorView,
>
    decreases ds.len() - i,
{
    if i < 0 || i >= ds.len() {
        Ok(None)
    } else {
        match spec_type_name(g, ds[i]) {
            Err(e) => Err(e),
            Ok(n) => if n == name {
                Ok(Some(ds[i]))
            } else {
                first_declared_named(g, ds, i + 1, name)
            },
        }
    }
}

/// Scans the target's declarations `ds[i..]` for one whose inverse is named
/// `name` and whose target type admits the source descriptor `sd`; a second,
/// distinct such declaration is ambiguous.
pub open spec fn inverse_match_from(
    g: Seq<HolonView>,
    source: HolonReference,
    sd: HolonReference,
    ds: Seq<HolonReference>,
    i: int,
    name: Seq<char>,
    acc: Option<(HolonReference, HolonReference, HolonReference)>,
) -> Result<Option<(HolonReference, HolonReference, HolonReference)>, ErrorView>
    decreases ds.len() - i,
{
    if i < 0 || i >= ds.len() {
        Ok(acc)
    } else {
        match spec_required_inverse(g, ds[i]) {
            Err(e) => Err(e),
            Ok(inv) => match spec_type_name(g, inv) {
                Err(e) => Err(e),
                Ok(n) => if n != name {
                    inverse_match_from(g, source, sd, ds, i + 1, name, acc)
                } else {
                    match spec_require_single_related(
                        g,
                        ds[i],
                        crate::names::CoreRelationshipTypeName::TargetType,
                    ) {
                        Err(e) => Err(e),
                        Ok(t) => match spec_equals_or_extends(g, sd, t) {
                            Err(e) => Err(e),
                            Ok(false) => inverse_match_from(g, source, sd, ds, i + 1, name, acc),
                            Ok(true) => match acc {
                                Some(m) => if m.1 != ds[i] {
                                    Err(
                                        ErrorView::AmbiguousRelationshipTraversal {
                                            relationship: name,
                                            direction: None,
                                            descriptor: source,
                                        },
                                    )
                                } else {
                                    inverse_match_from(g, source, sd, ds, i + 1, name, acc)
                                },
                                None => match spec_require_single_related(
                                    g,
                                    ds[i],
                                    crate::names::CoreRelationshipTypeName::SourceType,
                                ) {
                                    Err(e) => Err(e),
                                    Ok(st) => inverse_match_from(
                                        g,
                                        source,
                                        sd,
                                        ds,
                                        i + 1,
                                        name,
                                        Some((inv, ds[i], st)),
                                    ),
                                },
                            },
                        },
                    }
                },
            },
        }
    }
}

/// The orientation given by the outcome of the inverse scan.
pub open spec fn orientation_of(r: Result<Option<(HolonReference, HolonReference, HolonReference)>, ErrorView>) -> Result<
    OrientationView,
    ErrorView,
> {
    match r {
        Err(e) => Err(e),
        Ok(None) => Ok(OrientationView::Unresolved),
        Ok(Some(m)) => Ok(OrientationView::RecognizedInverse { inverse: m.0, declared: m.1, declared_source_type: m.2 }),
    }
}

/// The orientation of an occurrence of `name` from `source` (described by
/// `sd`, declaring `decls`) to `target`.
pub open spec fn spec_classify_occurrence(
    g: Seq<HolonView>,
    source: HolonReference,
    sd: HolonReference,
    decls: Seq<HolonReference>,
    name: Seq<char>,
    target: HolonReference,
) -> Result<OrientationView, ErrorView> {
    match first_declared_named(g, decls, 0, name) {
        Err(e) => Err(e),
        Ok(Some(d)) => match spec_as_declared(g, d) {
            Err(e) => Err(e),
            Ok(d2) => Ok(OrientationView::Declared(d2)),
        },
        Ok(None) => match spec_holon_descriptor(g, target) {
            Err(ErrorView::MissingDescribedBy { .. }) => Ok(OrientationView::Unresolved),
            Err(ErrorView::MultipleDescribedBy { .. }) => Ok(OrientationView::Unresolved),
            Err(e) => Err(e),
            Ok(td) => match spec_effective_declared(g, td) {
                Err(e) => Err(e),
                Ok(tds) => orientation_of(inverse_match_from(g, source, sd, tds, 0, name, None)),
            },
        },
    }
}

/// The source contract of `source`: its describing descriptor and its declared relationships.
pub open spec fn spec_source_contract(g: Seq<HolonView>, source: HolonReference) -> Result<
    (HolonReference, Seq<HolonReference>),
    ErrorView,
> {
    match spec_holon_descriptor(g, source) {
        Err(e) => Err(e),
        Ok(sd) => match spec_declared_for_holon(g, source) {
            Err(e) => Err(e),
            Ok(ds) => Ok((sd, ds)),
        },
    }
}

/// The effective declared relationship contract of a concrete source holon.
///
/// Assessment-local: nothing is cached beyond this value.
pub struct SourceRelationshipContract {
    source: HolonReference,
    source_descriptor: HolonDescriptor,
    declared_relationships: Vec<DeclaredRelationshipDescriptor>,
}

impl SourceRelationshipContract {
    /// The source holon.
    pub closed spec fn spec_source(&self) -> HolonReference {
        self.source
    }

    /// The source's describing descriptor.
    pub closed spec fn spec_source_descriptor(&self) -> HolonReference {
        self.source_descriptor@
    }

    /// The declared relationships of the source, in contract order.
    pub closed spec fn spec_declared(&self) -> Seq<HolonReference> {
        self.declared_relationships.deep_view()
    }

    /// Resolves the source's effective declared relationship contract once.
    pub fn resolve(g: &HolonGraph, source: HolonReference) -> (res: Result<SourceRelationshipContract, HolonError>)
        ensures
            match res {
                Ok(c) => c.spec_source() == source && spec_source_contract(g@, source) == Ok::<_, ErrorView>(
                    (c.spec_source_descriptor(), c.spec_declared()),
                ),
                Err(e) => spec_source_contract(g@, source) == Err::<(HolonReference, Seq<HolonReference>), ErrorView>(
                    e@,
                ),
            },
    {
        let source_descriptor = holon_descriptor(g, source)?;
        let declared_relationships = effective_declared_relationships_for_holon(g, source)?;
        Ok(SourceRelationshipContract { source, source_descriptor, declared_relationships })
    }

    /// Resolves `relationship_name` as a relationship declared by the source, if present.
    pub fn declared_relationship(&self, g: &HolonGraph, relationship_name: &RelationshipName) -> (res: Result<
        Option<&DeclaredRelationshipDescriptor>,
        HolonError,
    >)
        ensures
            rview(res) == first_declared_named(g@, self.spec_declared(), 0, relationship_name@),
    {
        let ghost ds = self.declared_relationships.deep_view();
        let mut i: usize = 0;
        while i < self.declared_relationships.len()
            invariant
                i <= self.declared_relationships.len(),
                ds == self.declared_relationships.deep_view(),
                first_declared_named(g@, ds, 0, relationship_name@) == first_declared_named(
                    g@,
                    ds,
                    i as int,
                    relationship_name@,
                ),
            decreases self.declared_relationships.len() - i,
        {
            let d = self.declared_relationships[i].holon();
            let n = TypeHeader::new(d).declared_type_name(g)?;
            if n.equals(&relationship_name.0) {
                return Ok(Some(&self.declared_relationships[i]));
            }
            i = i + 1;
        }
        Ok(None)
    }

    /// Classifies one populated relationship occurrence against this source and
    /// its concrete target endpoint.
    ///
    /// The source's declared contract wins without traversing the target.
    /// Otherwise the target's effective declared contract is inspected for an
    /// inverse whose target type admits the source descriptor; several
    /// distinct matches are ambiguous.
    pub fn classify_occurrence(&self, g: &HolonGraph, relationship_name: &RelationshipName, target: HolonReference) -> (res:
        Result<RelationshipOccurrenceOrientation, HolonError>)
        ensures
            rview(res) == spec_classify_occurrence(
                g@,
                self.spec_source(),
                self.spec_source_descriptor(),
                self.spec_declared(),
                relationship_name@,
                target,
            ),
    {
        let ghost ds = self.declared_relationships.deep_view();
        let mut i: usize = 0;
        while i < self.declared_relationships.len()
            invariant
                i <= self.declared_relationships.len(),
                ds == self.declared_relationships.deep_view(),
                first_declared_named(g@, ds, 0, relationship_name@) == first_declared_named(
                    g@,
                    ds,
                    i as int,
                    relationship_name@,
                ),
            decreases self.declared_relationships.len() - i,
        {
            let d = self.declared_relationships[i].holon();
            let n = TypeHeader::new(d).declared_type_name(g)?;
            if n.equals(&relationship_name.0) {
                let declared = DeclaredRelationshipDescriptor::try_from_holon(g, d)?;
                return Ok(RelationshipOccurrenceOrientation::Declared(declared));
            }
            i = i + 1;
        }
        let target_descriptor = match holon_descriptor(g, target) {
            Ok(d) => d,
            Err(HolonError::MissingDescribedBy { .. }) => {
                return Ok(RelationshipOccurrenceOrientation::Unresolved);
            },
            Err(HolonError::MultipleDescribedBy { .. }) => {
                return Ok(RelationshipOccurrenceOrientation::Unresolved);
            },
            Err(e) => {
                return Err(e);
            },
        };
        let tds = effective_declared_relationships(g, &target_descriptor)?;
        let ghost tv = tds.deep_view();
        assert(spec_classify_occurrence(
            g@,
            self.spec_source(),
            self.spec_source_descriptor(),
            self.spec_declared(),
            relationship_name@,
            target,
        ) == orientation_of(
            inverse_match_from(g@, self.spec_source(), self.spec_source_descriptor(), tv, 0, relationship_name@, None),
        ));
        let mut found: Option<(InverseRelationshipDescriptor, DeclaredRelationshipDescriptor, HolonDescriptor)> = None;
        let mut j: usize = 0;
        while j < tds.len()
            invariant
                j <= tds.len(),
                tv == tds.deep_view(),
                spec_classify_occurrence(
                    g@,
                    self.spec_source(),
                    self.spec_source_descriptor(),
                    self.spec_declared(),
                    relationship_name@,
                    target,
                ) == orientation_of(
                    inverse_match_from(
                        g@,
                        self.spec_source(),
                        self.spec_source_descriptor(),
                        tv,
                        0,
                        relationship_name@,
                        None,
                    ),
                ),
                inverse_match_from(
                    g@,
                    self.spec_source(),
                    self.spec_source_descriptor(),
                    tv,
                    0,
                    relationship_name@,
                    None,
                ) == inverse_match_from(
                    g@,
                    self.spec_source(),
                    self.spec_source_descriptor(),
                    tv,
                    j as int,
                    relationship_name@,
                    match found {
                        Some(m) => Some((m.0@, m.1@, m.2@)),
                        None => None,
                    },
                ),
            decreases tds.len() - j,
        {
            let declared = &tds[j];
            let inverse = declared.required_inverse(g)?;
            let n = TypeHeader::new(inverse.holon()).declared_type_name(g)?;
            if !n.equals(&relationship_name.0) {
                j = j + 1;
                continue;
            }
            let t = declared.target_type(g)?;
            if !equals_or_extends(g, self.source_descriptor.holon(), t.holon())? {
                j = j + 1;
                continue;
            }
            match &found {
                Some(m) => {
                    if !m.1.holon().same(&declared.holon()) {
                        return Err(
                            HolonError::AmbiguousRelationshipTraversal {
                                relationship: relationship_name.0.to_owned_string(),
                                direction: None,
                                descriptor: self.source,
                            },
                        );
                    }
                    j = j + 1;
                    continue;
                },
                None => {},
            }
            let st = declared.source_type(g)?;
            found = Some((inverse, declared.duplicate(), st));
            j = j + 1;
        }
        match found {
            Some((inverse, declared, declared_source_type)) => Ok(
                RelationshipOccurrenceOrientation::RecognizedInverse { inverse, declared, declared_source_type },
            ),
            None => Ok(RelationshipOccurrenceOrientation::Unresolved),
        }
    }
}


/// Whether the target-side declaration `d` licenses an inverse occurrence of
/// `name` from a source described by `sd`: its inverse is named `name` and its
/// target type admits `sd`.
pub open spec fn inverse_qualifies(g: Seq<HolonView>, sd: HolonReference, d: HolonReference, name: Seq<char>) -> bool {
    &&& spec_required_inverse(g, d) matches Ok(inv)
    &&& spec_type_name(g, spec_required_inverse(g, d)->Ok_0) == Ok::<Seq<char>, ErrorView>(name)
    &&& spec_require_single_related(g, d, crate::names::CoreRelationshipTypeName::TargetType) matches Ok(t)
    &&& spec_equals_or_extends(
        g,
        sd,
        spec_require_single_related(g, d, crate::names::CoreRelationshipTypeName::TargetType)->Ok_0,
    ) == Ok::<bool, ErrorView>(true)
}

/// A recognized inverse: `m.1` qualifies, `m.0` is its inverse and `m.2` its source type.
pub open spec fn recognized(g: Seq<HolonView>, sd: HolonReference, name: Seq<char>, m: (
    HolonReference,
    HolonReference,
    HolonReference,
)) -> bool {
    &&& inverse_qualifies(g, sd, m.1, name)
    &&& spec_required_inverse(g, m.1) == Ok::<HolonReference, ErrorView>(m.0)
    &&& spec_require_single_related(g, m.1, crate::names::CoreRelationshipTypeName::SourceType) == Ok::<
        HolonReference,
        ErrorView,
    >(m.2)
}

proof fn lemma_inverse_match_from(
    g: Seq<HolonView>,
    source: HolonReference,
    sd: HolonReference,
    ds: Seq<HolonReference>,
    i: int,
    name: Seq<char>,
    acc: Option<(HolonReference, HolonReference, HolonReference)>,
)
    requires
        0 <= i <= ds.len(),
        acc matches Some(m) ==> recognized(g, sd, name, m),
    ensures
        inverse_match_from(g, source, sd, ds, i, name, acc) matches Ok(Some(m)) ==> {
            &&& recognized(g, sd, name, m)
            &&& (acc matches Some(a) ==> m == a)
            &&& forall|k: int| i <= k < ds.len() && inverse_qualifies(g, sd, #[trigger] ds[k], name) ==> ds[k] == m.1
        },
        inverse_match_from(g, source, sd, ds, i, name, acc) matches Ok(None) ==> acc is None && forall|k: int|
            i <= k < ds.len() ==> !inverse_qualifies(g, sd, #[trigger] ds[k], name),
        (exists|k: int|
            i <= k < ds.len() && inverse_qualifies(g, sd, #[trigger] ds[k], name) && acc is Some && ds[k]
                != acc->Some_0.1) ==> inverse_match_from(g, source, sd, ds, i, name, acc) is Err,
        (exists|k1: int, k2: int|
            i <= k1 < k2 < ds.len() && inverse_qualifies(g, sd, #[trigger] ds[k1], name) && inverse_qualifies(
                g,
                sd,
                #[trigger] ds[k2],
                name,
            ) && ds[k1] != ds[k2]) ==> inverse_match_from(g, source, sd, ds, i, name, acc) is Err,
    decreases ds.len() - i,
{
    if i < ds.len() {
        let d = ds[i];
        let q = inverse_qualifies(g, sd, d, name);
        match spec_required_inverse(g, d) {
            Err(_) => {},
            Ok(inv) => match spec_type_name(g, inv) {
                Err(_) => {},
                Ok(n) => if n != name {
                    assert(!q);
                    lemma_inverse_match_from(g, source, sd, ds, i + 1, name, acc);
                    assert(forall|k1: int, k2: int|
                        i <= k1 < k2 < ds.len() && inverse_qualifies(g, sd, #[trigger] ds[k1], name)
                            && inverse_qualifies(g, sd, #[trigger] ds[k2], name) ==> i + 1 <= k1);
                } else {
                    match spec_require_single_related(g, d, crate::names::CoreRelationshipTypeName::TargetType) {
                        Err(_) => {},
                        Ok(t) => match spec_equals_or_extends(g, sd, t) {
                            Err(_) => {},
                            Ok(false) => {
                                assert(!q);
                                lemma_inverse_match_from(g, source, sd, ds, i + 1, name, acc);
                                assert(forall|k1: int, k2: int|
                                    i <= k1 < k2 < ds.len() && inverse_qualifies(g, sd, #[trigger] ds[k1], name)
                                        && inverse_qualifies(g, sd, #[trigger] ds[k2], name) ==> i + 1 <= k1);
                            },
                            Ok(true) => {
                                assert(q);
                                match acc {
                                    Some(m) => if m.1 != d {
                                    } else {
                                        lemma_inverse_match_from(g, source, sd, ds, i + 1, name, acc);
                                        assert forall|k1: int, k2: int|
                                            i <= k1 < k2 < ds.len() && inverse_qualifies(
                                                g,
                                                sd,
                                                #[trigger] ds[k1],
                                                name,
                                            ) && inverse_qualifies(g, sd, #[trigger] ds[k2], name) && ds[k1]
                                                != ds[k2] implies inverse_match_from(
                                            g,
                                            source,
                                            sd,
                                            ds,
                                            i,
                                            name,
                                            acc,
                                        ) is Err by {
                                            if k1 == i {
                                                assert(ds[k2] != m.1);
                                            } else if ds[k1] != m.1 {
                                            } else {
                                                assert(ds[k2] != m.1);
                                            }
                                        }
                                    },
                                    None => match spec_require_single_related(
                                        g,
                                        d,
                                        crate::names::CoreRelationshipTypeName::SourceType,
                                    ) {
                                        Err(_) => {},
                                        Ok(st) => {
                                            let a = (inv, d, st);
                                            assert(recognized(g, sd, name, a));
                                            lemma_inverse_match_from(g, source, sd, ds, i + 1, name, Some(a));
                                            assert forall|k1: int, k2: int|
                                                i <= k1 < k2 < ds.len() && inverse_qualifies(
                                                    g,
                                                    sd,
                                                    #[trigger] ds[k1],
                                                    name,
                                                ) && inverse_qualifies(g, sd, #[trigger] ds[k2], name) && ds[k1]
                                                    != ds[k2] implies inverse_match_from(
                                                g,
                                                source,
                                                sd,
                                                ds,
                                                i,
                                                name,
                                                acc,
                                            ) is Err by {
                                                if k1 == i {
                                                    assert(ds[k2] != a.1);
                                                } else if ds[k1] != a.1 {
                                                } else {
                                                    assert(ds[k2] != a.1);
                                                }
                                            }
                                        },
                                    },
                                }
                            },
                        },
                    }
                },
            },
        }
    }
}

/// How an occurrence is classified: a name the source declares is `Declared`
/// as the first declaration so named; otherwise a target without a unique
/// describer leaves it `Unresolved`; otherwise the target's declarations whose
/// inverse is named as requested and whose target type admits the source
/// descriptor decide: none leaves it `Unresolved`, one distinct declaration
/// is the `RecognizedInverse` (with its inverse and source type), and two
/// distinct ones are never resolved.
pub proof fn law_occurrence_classification(
    g: Seq<HolonView>,
    source: HolonReference,
    sd: HolonReference,
    decls: Seq<HolonReference>,
    name: Seq<char>,
    target: HolonReference,
)
    ensures
        first_declared_named(g, decls, 0, name) matches Ok(Some(d)) ==> spec_classify_occurrence(
            g,
            source,
            sd,
            decls,
            name,
            target,
        ) == match spec_as_declared(g, d) {
            Ok(d2) => Ok(OrientationView::Declared(d2)),
            Err(e) => Err(e),
        },
        first_declared_named(g, decls, 0, name) == Ok::<Option<HolonReference>, ErrorView>(None) ==> {
            &&& spec_holon_descriptor(g, target) matches Err(ErrorView::MissingDescribedBy { .. })
                ==> spec_classify_occurrence(g, source, sd, decls, name, target) == Ok::<OrientationView, ErrorView>(
                OrientationView::Unresolved,
            )
            &&& spec_holon_descriptor(g, target) matches Err(ErrorView::MultipleDescribedBy { .. })
                ==> spec_classify_occurrence(g, source, sd, decls, name, target) == Ok::<OrientationView, ErrorView>(
                OrientationView::Unresolved,
            )
            &&& spec_holon_descriptor(g, target) matches Ok(td) ==> spec_effective_declared(g, td) matches Ok(tds)
                ==> {
                &&& spec_classify_occurrence(g, source, sd, decls, name, target) == Ok::<OrientationView, ErrorView>(
                    OrientationView::Unresolved,
                ) ==> forall|k: int| 0 <= k < tds.len() ==> !inverse_qualifies(g, sd, #[trigger] tds[k], name)
                &&& spec_classify_occurrence(g, source, sd, decls, name, target) matches Ok(
                    OrientationView::RecognizedInverse { inverse, declared, declared_source_type },
                ) ==> recognized(g, sd, name, (inverse, declared, declared_source_type)) && forall|k: int|
                    0 <= k < tds.len() && inverse_qualifies(g, sd, #[trigger] tds[k], name) ==> tds[k] == declared
                &&& (exists|k1: int, k2: int|
                    0 <= k1 < k2 < tds.len() && inverse_qualifies(g, sd, #[trigger] tds[k1], name)
                        && inverse_qualifies(g, sd, #[trigger] tds[k2], name) && tds[k1] != tds[k2])
                    ==> spec_classify_occurrence(g, source, sd, decls, name, target) is Err
            }
        },
{
    if let Ok(td) = spec_holon_descriptor(g, target) {
        if let Ok(tds) = spec_effective_declared(g, td) {
            lemma_inverse_match_from(g, source, sd, tds, 0, name, None);
        }
    }
}

} // verus!
