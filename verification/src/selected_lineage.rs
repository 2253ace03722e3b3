//! Lineage and relationship reads through a descriptor reader: every reference
//! reached is first mapped to the reference whose content is authoritative for it.
use crate::assessment_reader::{
    read_view, AssessmentReadError, CurrentDescriptorReader, DescriptorReader, ReadErrorView,
};
use crate::error::{ErrorView, HolonError};
use crate::graph::{holon_of, spec_related, HolonGraph, HolonReference, HolonView};
use crate::assessment_reader::operational;
use crate::inheritance::{
    contains_reference, extends_parent, lemma_distinct_valid_bound, locals_upto, override_from, spec_ancestors,
    spec_effective_members, spec_extends_parent, spec_inheritance_rule, spec_local_members, spec_members_under_rule,
    spec_walk, walk_from, inheritance_rule, spec_equals_or_extends, EffectiveRelationshipMember, InheritanceRule,
};
use crate::definition_identity::lineage_contains;
use crate::names::CoreRelationshipTypeName;
use vstd::prelude::*;

verus! {

/// An ordinary read error as a read error of an assessment.
pub open spec fn lift_error(e: Option<ErrorView>) -> Option<ReadErrorView> {
    match e {
        Some(e) => Some(ReadErrorView::Operational(e)),
        None => None,
    }
}

/// The selections of the first `n` references of `ms`, in order; the first
/// failed selection wins.
pub open spec fn select_upto<R: DescriptorReader>(g: Seq<HolonView>, reader: R, ms: Seq<HolonReference>, n: int) -> Result<
    Seq<HolonReference>,
    ReadErrorView,
>
    decreases n,
{
    if n <= 0 {
        Ok(Seq::empty())
    } else {
        match select_upto(g, reader, ms, n - 1) {
            Err(e) => Err(e),
            Ok(acc) => match reader.spec_select(g, ms[n - 1]) {
                Err(e) => Err(e),
                Ok(q) => Ok(acc.push(q)),
            },
        }
    }
}

/// The selected members of `rel` on the holon `d` itself.
pub open spec fn spec_selected_related<R: DescriptorReader>(
    g: Seq<HolonView>,
    reader: R,
    d: HolonReference,
    rel: Seq<char>,
) -> Result<Seq<HolonReference>, ReadErrorView> {
    match spec_related(g, d, rel) {
        Err(e) => Err(ReadErrorView::Operational(e)),
        Ok(ms) => select_upto(g, reader, ms, ms.len() as int),
    }
}

/// The selected members of `rel` on the selected content of `subject`.
pub open spec fn spec_local_targets_with_reader<R: DescriptorReader>(
    g: Seq<HolonView>,
    reader: R,
    subject: HolonReference,
    rel: Seq<char>,
) -> Result<Seq<HolonReference>, ReadErrorView> {
    match reader.spec_select(g, subject) {
        Err(e) => Err(e),
        Ok(s) => spec_selected_related(g, reader, s, rel),
    }
}

proof fn lemma_select_upto_error_persists<R: DescriptorReader>(
    g: Seq<HolonView>,
    reader: R,
    ms: Seq<HolonReference>,
    n: int,
    m: int,
)
    requires
        n <= m,
        select_upto(g, reader, ms, n) is Err,
    ensures
        select_upto(g, reader, ms, m) == select_upto(g, reader, ms, n),
    decreases m - n,
{
    if n < m {
        lemma_select_upto_error_persists(g, reader, ms, n, m - 1);
    }
}

/// Selects each member of `rel` on `d`, in order.
pub fn select_members<R: DescriptorReader>(
    g: &HolonGraph,
    reader: &R,
    d: HolonReference,
    rel: CoreRelationshipTypeName,
) -> (res: Result<Vec<HolonReference>, AssessmentReadError>)
    ensures
        read_view(res) == spec_selected_related(g@, *reader, d, rel.spec_name()),
        res matches Ok(v) ==> spec_selected_related(g@, *reader, d, rel.spec_name()) == Ok::<
            Seq<HolonReference>,
            ReadErrorView,
        >(v@),
{
    let members = match g.related_core(d, rel) {
        Ok(m) => m,
        Err(e) => {
            return Err(AssessmentReadError::Operational(e));
        },
    };
    let mut out: Vec<HolonReference> = Vec::new();
    let mut i: usize = 0;
    while i < members.len()
        invariant
            i <= members.len(),
            spec_related(g@, d, rel.spec_name()) == Ok::<Seq<HolonReference>, ErrorView>(members@),
            select_upto(g@, *reader, members@, i as int) == Ok::<Seq<HolonReference>, ReadErrorView>(out@),
        decreases members.len() - i,
    {
        match reader.select(g, members[i]) {
            Ok(q) => {
                out.push(q);
            },
            Err(e) => {
                proof {
                    lemma_select_upto_error_persists(g@, *reader, members@, i + 1, members@.len() as int);
                }
                return Err(e);
            },
        }
        i = i + 1;
    }
    assert(out.deep_view() =~= out@);
    Ok(out)
}

/// The direct targets of `relationship` on the selected content of `subject`,
/// each selected in turn.
pub fn local_targets_with_reader<R: DescriptorReader>(
    g: &HolonGraph,
    subject: HolonReference,
    relationship: CoreRelationshipTypeName,
    reader: &R,
) -> (res: Result<Vec<HolonReference>, AssessmentReadError>)
    ensures
        read_view(res) == spec_local_targets_with_reader(g@, *reader, subject, relationship.spec_name()),
        res matches Ok(v) ==> spec_local_targets_with_reader(g@, *reader, subject, relationship.spec_name())
            == Ok::<Seq<HolonReference>, ReadErrorView>(v@),
{
    let s = reader.select(g, subject)?;
    select_members(g, reader, s, relationship)
}

/// Walks `Extends` from the selected holon `cur`, self first, given the
/// holons already visited; each parent is selected before it is visited.
pub open spec fn walk_selected_from<R: DescriptorReader>(
    g: Seq<HolonView>,
    reader: R,
    cur: HolonReference,
    visited: Seq<HolonReference>,
    fuel: nat,
) -> (Seq<HolonReference>, Option<ReadErrorView>)
    decreases fuel,
{
    if fuel == 0 {
        (Seq::empty(), None)
    } else {
        match spec_extends_parent(g, cur) {
            Err(e) => (seq![cur], Some(ReadErrorView::Operational(e))),
            Ok(None) => (seq![cur], None),
            Ok(Some(p)) => match reader.spec_select(g, p) {
                Err(e) => (seq![cur], Some(e)),
                Ok(q) => if visited.push(cur).contains(q) {
                    (seq![cur], Some(ReadErrorView::Operational(ErrorView::CyclicExtends { descriptor: q })))
                } else {
                    let rest = walk_selected_from(g, reader, q, visited.push(cur), (fuel - 1) as nat);
                    (seq![cur] + rest.0, rest.1)
                },
            },
        }
    }
}

/// The `Extends` lineage of the selected content of `start` (self first), each
/// parent selected, and the error that ended the walk, if any.
pub open spec fn spec_walk_with_reader<R: DescriptorReader>(g: Seq<HolonView>, reader: R, start: HolonReference) -> (
    Seq<HolonReference>,
    Option<ReadErrorView>,
) {
    match reader.spec_select(g, start) {
        Err(e) => (Seq::empty(), Some(e)),
        Ok(s) => walk_selected_from(g, reader, s, Seq::empty(), (g.len() + 1) as nat),
    }
}

/// A lineage walked through a reader, and the error that ended it.
pub struct SelectedChain {
    pub members: Vec<HolonReference>,
    pub error: Option<AssessmentReadError>,
}

impl SelectedChain {
    /// The members and the view of the error.
    pub open spec fn spec_view(&self) -> (Seq<HolonReference>, Option<ReadErrorView>) {
        (
            self.members@,
            match self.error {
                Some(e) => Some(e@),
                None => None,
            },
        )
    }
}

/// Walks the `Extends` lineage of `start` through `reader`, self first.
pub fn walk_extends_chain_with_reader<R: DescriptorReader>(g: &HolonGraph, start: HolonReference, reader: &R) -> (w:
    SelectedChain)
    ensures
        w.spec_view() == spec_walk_with_reader(g@, *reader, start),
{
    let mut members: Vec<HolonReference> = Vec::new();
    let mut cur = match reader.select(g, start) {
        Ok(s) => s,
        Err(e) => {
            return SelectedChain { members, error: Some(e) };
        },
    };
    let ghost mut fuel: nat = (g@.len() + 1) as nat;
    assert(members@ + walk_selected_from(g@, *reader, cur, members@, fuel).0 =~= walk_selected_from(
        g@,
        *reader,
        cur,
        Seq::empty(),
        fuel,
    ).0);
    loop
        invariant
            spec_walk_with_reader(g@, *reader, start) == (
                members@ + walk_selected_from(g@, *reader, cur, members@, fuel).0,
                walk_selected_from(g@, *reader, cur, members@, fuel).1,
            ),
            members@.no_duplicates(),
            forall|i: int| 0 <= i < members@.len() ==> holon_of(g@, #[trigger] members@[i]).is_some(),
            !members@.contains(cur),
            fuel == g@.len() + 1 - members@.len(),
        decreases fuel,
    {
        proof {
            lemma_distinct_valid_bound(g@, members@);
        }
        let ghost before = members@;
        match extends_parent(g, cur) {
            Err(e) => {
                members.push(cur);
                assert(members@ =~= before + seq![cur]);
                return SelectedChain { members, error: Some(AssessmentReadError::Operational(e)) };
            },
            Ok(None) => {
                members.push(cur);
                assert(members@ =~= before + seq![cur]);
                return SelectedChain { members, error: None };
            },
            Ok(Some(p)) => {
                assert(holon_of(g@, cur).is_some());
                members.push(cur);
                assert(members@ =~= before.push(cur));
                let q = match reader.select(g, p) {
                    Ok(q) => q,
                    Err(e) => {
                        assert(members@ =~= before + seq![cur]);
                        return SelectedChain { members, error: Some(e) };
                    },
                };
                if contains_reference(&members, q) {
                    assert(members@ =~= before + seq![cur]);
                    return SelectedChain {
                        members,
                        error: Some(AssessmentReadError::Operational(HolonError::CyclicExtends { descriptor: q })),
                    };
                }
                proof {
                    assert forall|i: int, j: int|
                        0 <= i < members@.len() && 0 <= j < members@.len() && i != j implies members@[i]
                        != members@[j] by {
                        if i < before.len() && j < before.len() {
                        } else if i == before.len() {
                            assert(members@[i] == cur);
                            assert(before.contains(members@[j]));
                        } else {
                            assert(members@[j] == cur);
                            assert(before.contains(members@[i]));
                        }
                    }
                    let rest = walk_selected_from(g@, *reader, q, members@, (fuel - 1) as nat);
                    assert(before + walk_selected_from(g@, *reader, cur, before, fuel).0 =~= members@ + rest.0);
                    fuel = (fuel - 1) as nat;
                }
                cur = q;
            },
        }
    }
}

proof fn lemma_current_walk_from(g: Seq<HolonView>, cur: HolonReference, visited: Seq<HolonReference>, fuel: nat)
    ensures
        walk_selected_from(g, CurrentDescriptorReader, cur, visited, fuel) == (
            walk_from(g, cur, visited, fuel).0,
            lift_error(walk_from(g, cur, visited, fuel).1),
        ),
    decreases fuel,
{
    if fuel > 0 {
        match spec_extends_parent(g, cur) {
            Ok(Some(p)) => {
                if !visited.push(cur).contains(p) {
                    lemma_current_walk_from(g, p, visited.push(cur), (fuel - 1) as nat);
                }
            },
            _ => {},
        }
    }
}

/// Reading through `CurrentDescriptorReader` walks exactly the ordinary
/// lineage, with each ordinary read error reported as an operational failure.
pub proof fn law_current_reader_walks_ordinary_lineage(g: Seq<HolonView>, start: HolonReference)
    ensures
        spec_walk_with_reader(g, CurrentDescriptorReader, start) == (
            spec_walk(g, start).0,
            lift_error(spec_walk(g, start).1),
        ),
{
    lemma_current_walk_from(g, start, Seq::empty(), (g.len() + 1) as nat);
}

proof fn lemma_current_select_upto(g: Seq<HolonView>, ms: Seq<HolonReference>, n: int)
    requires
        0 <= n <= ms.len(),
    ensures
        select_upto(g, CurrentDescriptorReader, ms, n) == Ok::<Seq<HolonReference>, ReadErrorView>(
            ms.subrange(0, n),
        ),
    decreases n,
{
    if n > 0 {
        lemma_current_select_upto(g, ms, n - 1);
        assert(ms.subrange(0, n - 1).push(ms[n - 1]) =~= ms.subrange(0, n));
    } else {
        assert(ms.subrange(0, 0) =~= Seq::<HolonReference>::empty());
    }
}

/// Reading direct targets through `CurrentDescriptorReader` gives exactly the
/// ordinary relationship members.
pub proof fn law_current_reader_reads_ordinary_targets(g: Seq<HolonView>, subject: HolonReference, rel: Seq<char>)
    ensures
        spec_local_targets_with_reader(g, CurrentDescriptorReader, subject, rel) == match spec_related(
            g,
            subject,
            rel,
        ) {
            Ok(ms) => Ok::<Seq<HolonReference>, ReadErrorView>(ms),
            Err(e) => Err(ReadErrorView::Operational(e)),
        },
{
    match spec_related(g, subject, rel) {
        Ok(ms) => {
            lemma_current_select_upto(g, ms, ms.len() as int);
            assert(ms.subrange(0, ms.len() as int) =~= ms);
        },
        Err(_) => {},
    }
}


/// The lineage read through `reader`, or the error that prevents reading it.
pub open spec fn spec_ancestors_with_reader<R: DescriptorReader>(g: Seq<HolonView>, reader: R, start: HolonReference) -> Result<
    Seq<HolonReference>,
    ReadErrorView,
> {
    match spec_walk_with_reader(g, reader, start).1 {
        Some(e) => Err(e),
        None => Ok(spec_walk_with_reader(g, reader, start).0),
    }
}

/// The selected local members of `rel` on `d`, each recorded as declared on `d`.
pub open spec fn spec_selected_locals<R: DescriptorReader>(
    g: Seq<HolonView>,
    reader: R,
    d: HolonReference,
    rel: Seq<char>,
) -> Result<Seq<EffectiveRelationshipMember>, ReadErrorView> {
    match spec_selected_related(g, reader, d, rel) {
        Err(e) => Err(e),
        Ok(m) => Ok(m.map_values(|x: HolonReference| EffectiveRelationshipMember { member: x, declared_on: d })),
    }
}

/// The selected local members of `rel` on the first `n` holons of `ds`, in order.
pub open spec fn selected_locals_upto<R: DescriptorReader>(
    g: Seq<HolonView>,
    reader: R,
    ds: Seq<HolonReference>,
    rel: Seq<char>,
    n: int,
) -> Result<Seq<EffectiveRelationshipMember>, ReadErrorView>
    decreases n,
{
    if n <= 0 {
        Ok(Seq::empty())
    } else {
        match selected_locals_upto(g, reader, ds, rel, n - 1) {
            Err(e) => Err(e),
            Ok(acc) => match spec_selected_locals(g, reader, ds[n - 1], rel) {
                Err(e) => Err(e),
                Ok(m) => Ok(acc + m),
            },
        }
    }
}

/// The first non-empty selected local contribution along `ds` from index `i`, else `fallback`.
pub open spec fn selected_override_from<R: DescriptorReader>(
    g: Seq<HolonView>,
    reader: R,
    ds: Seq<HolonReference>,
    rel: Seq<char>,
    i: int,
    fallback: Option<ReadErrorView>,
) -> Result<Seq<EffectiveRelationshipMember>, ReadErrorView>
    decreases ds.len() - i,
{
    if 0 <= i < ds.len() {
        match spec_selected_locals(g, reader, ds[i], rel) {
            Err(e) => Err(e),
            Ok(m) => if m.len() > 0 {
                Ok(m)
            } else {
                selected_override_from(g, reader, ds, rel, i + 1, fallback)
            },
        }
    } else {
        match fallback {
            Some(e) => Err(e),
            None => Ok(Seq::empty()),
        }
    }
}

/// Members of `rel` under `rule`, read through `reader`: the same policy as
/// `spec_members_under_rule`, over the selected lineage and selected members.
pub open spec fn spec_members_under_rule_with_reader<R: DescriptorReader>(
    g: Seq<HolonView>,
    reader: R,
    start: HolonReference,
    rel: CoreRelationshipTypeName,
    rule: InheritanceRule,
) -> Result<Seq<EffectiveRelationshipMember>, ReadErrorView> {
    match rule {
        InheritanceRule::Local => match reader.spec_select(g, start) {
            Err(e) => Err(e),
            Ok(s) => spec_selected_locals(g, reader, s, rel.spec_name()),
        },
        InheritanceRule::Additive => match spec_ancestors_with_reader(g, reader, start) {
            Err(e) => Err(e),
            Ok(l) => selected_locals_upto(g, reader, l.reverse(), rel.spec_name(), l.len() as int),
        },
        InheritanceRule::Override => selected_override_from(
            g,
            reader,
            spec_walk_with_reader(g, reader, start).0,
            rel.spec_name(),
            0,
            spec_walk_with_reader(g, reader, start).1,
        ),
    }
}

/// Effective members of `rel`, read through `reader`, under the kernel's rule for `rel`.
pub open spec fn spec_effective_members_with_reader<R: DescriptorReader>(
    g: Seq<HolonView>,
    reader: R,
    start: HolonReference,
    rel: CoreRelationshipTypeName,
) -> Result<Seq<EffectiveRelationshipMember>, ReadErrorView> {
    spec_members_under_rule_with_reader(g, reader, start, rel, spec_inheritance_rule(rel))
}

fn selected_local_members<R: DescriptorReader>(
    g: &HolonGraph,
    reader: &R,
    d: HolonReference,
    rel: CoreRelationshipTypeName,
) -> (res: Result<Vec<EffectiveRelationshipMember>, AssessmentReadError>)
    ensures
        read_view(res) == spec_selected_locals(g@, *reader, d, rel.spec_name()),
        res matches Ok(v) ==> spec_selected_locals(g@, *reader, d, rel.spec_name()) == Ok::<
            Seq<EffectiveRelationshipMember>,
            ReadErrorView,
        >(v@),
{
    let members = select_members(g, reader, d, rel)?;
    let mut out: Vec<EffectiveRelationshipMember> = Vec::new();
    let mut i: usize = 0;
    while i < members.len()
        invariant
            i <= members.len(),
            out@ == members@.subrange(0, i as int).map_values(
                |x: HolonReference| EffectiveRelationshipMember { member: x, declared_on: d },
            ),
        decreases members.len() - i,
    {
        out.push(EffectiveRelationshipMember { member: members[i], declared_on: d });
        i = i + 1;
        assert(out@ =~= members@.subrange(0, i as int).map_values(
            |x: HolonReference| EffectiveRelationshipMember { member: x, declared_on: d },
        ));
    }
    assert(members@.subrange(0, i as int) =~= members@);
    assert(out.deep_view() =~= out@);
    Ok(out)
}

proof fn lemma_selected_locals_error_persists<R: DescriptorReader>(
    g: Seq<HolonView>,
    reader: R,
    ds: Seq<HolonReference>,
    rel: Seq<char>,
    n: int,
    m: int,
)
    requires
        n <= m,
        selected_locals_upto(g, reader, ds, rel, n) is Err,
    ensures
        selected_locals_upto(g, reader, ds, rel, m) == selected_locals_upto(g, reader, ds, rel, n),
    decreases m - n,
{
    if n < m {
        lemma_selected_locals_error_persists(g, reader, ds, rel, n, m - 1);
    }
}

fn append_selected(out: &mut Vec<EffectiveRelationshipMember>, extra: Vec<EffectiveRelationshipMember>)
    ensures
        final(out)@ == old(out)@ + extra@,
{
    let mut extra = extra;
    out.append(&mut extra);
}

/// Resolves relationship targets across the selected lineage of `start` under
/// `rule`, selecting every member read.
pub fn members_under_rule_with_reader<R: DescriptorReader>(
    g: &HolonGraph,
    start: HolonReference,
    rel: CoreRelationshipTypeName,
    rule: InheritanceRule,
    reader: &R,
) -> (res: Result<Vec<EffectiveRelationshipMember>, AssessmentReadError>)
    ensures
        read_view(res) == spec_members_under_rule_with_reader(g@, *reader, start, rel, rule),
        res matches Ok(v) ==> spec_members_under_rule_with_reader(g@, *reader, start, rel, rule) == Ok::<
            Seq<EffectiveRelationshipMember>,
            ReadErrorView,
        >(v@),
{
    match rule {
        InheritanceRule::Local => {
            let s = reader.select(g, start)?;
            selected_local_members(g, reader, s, rel)
        },
        InheritanceRule::Additive => {
            let w = walk_extends_chain_with_reader(g, start, reader);
            if let Some(e) = w.error {
                return Err(e);
            }
            let lineage = w.members;
            let ghost rev = lineage@.reverse();
            let mut members: Vec<EffectiveRelationshipMember> = Vec::new();
            let mut k: usize = 0;
            while k < lineage.len()
                invariant
                    k <= lineage.len(),
                    rev == lineage@.reverse(),
                    spec_ancestors_with_reader(g@, *reader, start) == Ok::<Seq<HolonReference>, ReadErrorView>(
                        lineage@,
                    ),
                    rule == InheritanceRule::Additive,
                    selected_locals_upto(g@, *reader, rev, rel.spec_name(), k as int) == Ok::<
                        Seq<EffectiveRelationshipMember>,
                        ReadErrorView,
                    >(members@),
                decreases lineage.len() - k,
            {
                let ancestor = lineage[lineage.len() - 1 - k];
                assert(ancestor == rev[k as int]);
                let local = match selected_local_members(g, reader, ancestor, rel) {
                    Ok(l) => l,
                    Err(e) => {
                        proof {
                            lemma_selected_locals_error_persists(
                                g@,
                                *reader,
                                rev,
                                rel.spec_name(),
                                k + 1,
                                lineage@.len() as int,
                            );
                        }
                        return Err(e);
                    },
                };
                append_selected(&mut members, local);
                k = k + 1;
            }
            assert(members.deep_view() =~= members@);
            Ok(members)
        },
        InheritanceRule::Override => {
            let w = walk_extends_chain_with_reader(g, start, reader);
            let mut i: usize = 0;
            while i < w.members.len()
                invariant
                    i <= w.members.len(),
                    w.spec_view() == spec_walk_with_reader(g@, *reader, start),
                    rule == InheritanceRule::Override,
                    selected_override_from(g@, *reader, w.members@, rel.spec_name(), i as int, w.spec_view().1)
                        == selected_override_from(g@, *reader, w.members@, rel.spec_name(), 0, w.spec_view().1),
                decreases w.members.len() - i,
            {
                let local = selected_local_members(g, reader, w.members[i], rel)?;
                if local.len() > 0 {
                    assert(local.deep_view() =~= local@);
                    return Ok(local);
                }
                i = i + 1;
            }
            match w.error {
                Some(e) => Err(e),
                None => {
                    let v: Vec<EffectiveRelationshipMember> = Vec::new();
                    assert(v.deep_view() =~= v@);
                    assert(v@ =~= Seq::<EffectiveRelationshipMember>::empty());
                    Ok(v)
                },
            }
        },
    }
}

/// Resolves effective relationship targets across the selected lineage of
/// `start` under the kernel's inheritance rule for `rel`, retaining provenance.
pub fn effective_relationship_targets_with_reader<R: DescriptorReader>(
    g: &HolonGraph,
    start: HolonReference,
    rel: CoreRelationshipTypeName,
    reader: &R,
) -> (res: Result<Vec<EffectiveRelationshipMember>, AssessmentReadError>)
    ensures
        read_view(res) == spec_effective_members_with_reader(g@, *reader, start, rel),
        res matches Ok(v) ==> spec_effective_members_with_reader(g@, *reader, start, rel) == Ok::<
            Seq<EffectiveRelationshipMember>,
            ReadErrorView,
        >(v@),
{
    members_under_rule_with_reader(g, start, rel, inheritance_rule(&rel), reader)
}

proof fn lemma_current_selected_related(g: Seq<HolonView>, d: HolonReference, rel: Seq<char>)
    ensures
        spec_selected_related(g, CurrentDescriptorReader, d, rel) == operational(spec_related(g, d, rel)),
{
    match spec_related(g, d, rel) {
        Ok(ms) => {
            lemma_current_select_upto(g, ms, ms.len() as int);
            assert(ms.subrange(0, ms.len() as int) =~= ms);
        },
        Err(_) => {},
    }
}

proof fn lemma_current_selected_locals(g: Seq<HolonView>, d: HolonReference, rel: Seq<char>)
    ensures
        spec_selected_locals(g, CurrentDescriptorReader, d, rel) == operational(spec_local_members(g, d, rel)),
{
    lemma_current_selected_related(g, d, rel);
}

proof fn lemma_current_locals_upto(g: Seq<HolonView>, ds: Seq<HolonReference>, rel: Seq<char>, n: int)
    ensures
        selected_locals_upto(g, CurrentDescriptorReader, ds, rel, n) == operational(locals_upto(g, ds, rel, n)),
    decreases n,
{
    if n > 0 {
        lemma_current_locals_upto(g, ds, rel, n - 1);
        lemma_current_selected_locals(g, ds[n - 1], rel);
    }
}

proof fn lemma_current_override_from(
    g: Seq<HolonView>,
    ds: Seq<HolonReference>,
    rel: Seq<char>,
    i: int,
    fallback: Option<ErrorView>,
)
    ensures
        selected_override_from(g, CurrentDescriptorReader, ds, rel, i, lift_error(fallback)) == operational(
            override_from(g, ds, rel, i, fallback),
        ),
    decreases ds.len() - i,
{
    if 0 <= i < ds.len() {
        lemma_current_selected_locals(g, ds[i], rel);
        lemma_current_override_from(g, ds, rel, i + 1, fallback);
    }
}

/// Reading effective members through `CurrentDescriptorReader` gives exactly the
/// ordinary effective members under every rule, with each ordinary read error
/// reported as an operational failure.
pub proof fn law_current_reader_reads_ordinary_members(
    g: Seq<HolonView>,
    start: HolonReference,
    rel: CoreRelationshipTypeName,
    rule: InheritanceRule,
)
    ensures
        spec_members_under_rule_with_reader(g, CurrentDescriptorReader, start, rel, rule) == operational(
            spec_members_under_rule(g, start, rel, rule),
        ),
        spec_effective_members_with_reader(g, CurrentDescriptorReader, start, rel) == operational(
            spec_effective_members(g, start, rel),
        ),
{
    law_current_reader_walks_ordinary_lineage(g, start);
    let w = spec_walk(g, start);
    lemma_current_selected_locals(g, start, rel.spec_name());
    lemma_current_locals_upto(g, w.0.reverse(), rel.spec_name(), w.0.len() as int);
    lemma_current_override_from(g, w.0, rel.spec_name(), 0, w.1);
    assert(spec_ancestors_with_reader(g, CurrentDescriptorReader, start) == operational(spec_ancestors(g, start)));
}


/// Whether `anchor` occurs in the selected lineage of `candidate` before any error.
pub open spec fn spec_equals_or_extends_with_reader<R: DescriptorReader>(
    g: Seq<HolonView>,
    reader: R,
    candidate: HolonReference,
    anchor: HolonReference,
) -> Result<bool, ReadErrorView> {
    let w = spec_walk_with_reader(g, reader, candidate);
    if w.0.contains(anchor) {
        Ok(true)
    } else {
        match w.1 {
            Some(e) => Err(e),
            None => Ok(false),
        }
    }
}

/// Returns true when the selected content of `candidate` is `anchor` or
/// inherits from it through selected `Extends` parents.
pub fn equals_or_extends_with_reader<R: DescriptorReader>(
    g: &HolonGraph,
    candidate: HolonReference,
    anchor: HolonReference,
    reader: &R,
) -> (res: Result<bool, AssessmentReadError>)
    ensures
        read_view(res) == spec_equals_or_extends_with_reader(g@, *reader, candidate, anchor),
{
    let w = walk_extends_chain_with_reader(g, candidate, reader);
    if lineage_contains(&w.members, &anchor) {
        return Ok(true);
    }
    match w.error {
        Some(e) => Err(e),
        None => Ok(false),
    }
}

/// Testing lineage membership through `CurrentDescriptorReader` gives exactly
/// the ordinary answer, with each ordinary read error reported as an operational failure.
pub proof fn law_current_reader_extends_ordinarily(g: Seq<HolonView>, candidate: HolonReference, anchor: HolonReference)
    ensures
        spec_equals_or_extends_with_reader(g, CurrentDescriptorReader, candidate, anchor) == operational(
            spec_equals_or_extends(g, candidate, anchor),
        ),
{
    law_current_reader_walks_ordinary_lineage(g, candidate);
}

} // verus!
