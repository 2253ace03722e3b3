//! The `Extends` lineage of descriptors and the kernel's relationship inheritance policy.
use crate::error::{rview, ErrorView, HolonError};
use crate::graph::{holon_of, spec_related, spec_set_property, HolonGraph, HolonReference, HolonView};
use crate::values::BaseValueView;
use crate::names::CoreRelationshipTypeName;

use crate::values::MapString;
use crate::accessor_helpers::{search_extends_chain, spec_search_extends};
use crate::names::CoreHolonTypeName;
use vstd::prelude::*;
use vstd::set_lib::*;
use vstd::string::*;

verus! {

/// Direction of a relationship type descriptor relative to its declared edge.
#[derive(Clone, Copy, Debug, PartialEq, Eq, Structural)]
pub enum RelationshipDirection {
    /// The descriptor names the canonical source-to-target relationship.
    Declared,
    /// The descriptor names the inverse target-to-source relationship.
    Inverse,
}

/// Kernel-defined inheritance policy for a populated relationship member.
#[derive(Clone, Copy, Debug, PartialEq, Eq, Structural)]
pub enum InheritanceRule {
    Local,
    Additive,
    Override,
}

impl DeepView for InheritanceRule {
    type V = InheritanceRule;

    open spec fn deep_view(&self) -> InheritanceRule {
        *self
    }
}

/// A relationship target selected from an effective descriptor surface, with the
/// descriptor whose local contribution supplied it.
#[derive(Clone, Copy, Debug, PartialEq, Eq, Structural)]
pub struct EffectiveRelationshipMember {
    pub member: HolonReference,
    pub declared_on: HolonReference,
}

impl DeepView for EffectiveRelationshipMember {
    type V = EffectiveRelationshipMember;

    open spec fn deep_view(&self) -> EffectiveRelationshipMember {
        *self
    }
}

/// The kernel inheritance rule of each core relationship.
pub open spec fn spec_inheritance_rule(relationship: CoreRelationshipTypeName) -> InheritanceRule {
    match relationship {
        CoreRelationshipTypeName::InstanceProperties
        | CoreRelationshipTypeName::InstanceRelationships
        | CoreRelationshipTypeName::AffordsCommand
        | CoreRelationshipTypeName::AffordsDance
        | CoreRelationshipTypeName::AffordsOperator
        | CoreRelationshipTypeName::ValidationBindings
        | CoreRelationshipTypeName::Constraints => InheritanceRule::Additive,
        CoreRelationshipTypeName::InstanceKeyRule => InheritanceRule::Override,
        _ => InheritanceRule::Local,
    }
}

/// Returns the MAP kernel inheritance rule for a core relationship type.
pub fn inheritance_rule(relationship: &CoreRelationshipTypeName) -> (r: InheritanceRule)
    ensures
        r == spec_inheritance_rule(*relationship),
{
    match relationship {
        CoreRelationshipTypeName::InstanceProperties
        | CoreRelationshipTypeName::InstanceRelationships
        | CoreRelationshipTypeName::AffordsCommand
        | CoreRelationshipTypeName::AffordsDance
        | CoreRelationshipTypeName::AffordsOperator
        | CoreRelationshipTypeName::ValidationBindings
        | CoreRelationshipTypeName::Constraints => InheritanceRule::Additive,
        CoreRelationshipTypeName::InstanceKeyRule => InheritanceRule::Override,
        _ => InheritanceRule::Local,
    }
}

/// The direct `Extends` parent: none, one, or a multiple-parent defect.
pub open spec fn spec_extends_parent(g: Seq<HolonView>, r: HolonReference) -> Result<
    Option<HolonReference>,
    ErrorView,
> {
    match spec_related(g, r, CoreRelationshipTypeName::Extends.spec_name()) {
        Err(e) => Err(e),
        Ok(m) => if m.len() == 0 {
            Ok(None)
        } else if m.len() == 1 {
            Ok(Some(m[0]))
        } else {
            Err(ErrorView::MultipleExtends { descriptor: r, count: m.len() as usize })
        },
    }
}

/// Walks `Extends` from `cur`, self first, given the descriptors already visited.
///
/// The walk stops at the first holon without a parent, at a structural error
/// (reported after the holon whose parent could not be resolved), or at a parent
/// already visited (a `CyclicExtends` naming that parent).
pub open spec fn walk_from(g: Seq<HolonView>, cur: HolonReference, visited: Seq<HolonReference>, fuel: nat) -> (
    Seq<HolonReference>,
    Option<ErrorView>,
)
    decreases fuel,
{
    if fuel == 0 {
        (Seq::empty(), None)
    } else {
        match spec_extends_parent(g, cur) {
            Err(e) => (seq![cur], Some(e)),
            Ok(None) => (seq![cur], None),
            Ok(Some(p)) => if visited.push(cur).contains(p) {
                (seq![cur], Some(ErrorView::CyclicExtends { descriptor: p }))
            } else {
                let rest = walk_from(g, p, visited.push(cur), (fuel - 1) as nat);
                (seq![cur] + rest.0, rest.1)
            },
        }
    }
}

/// The effective `Extends` lineage of `start` (self first) and the error that ended it, if any.
///
/// Every holon of the lineage before the last one is a valid, distinct holon of
/// the graph, so a graph of `n` holons bounds the walk by `n + 1` steps.
pub open spec fn spec_walk(g: Seq<HolonView>, start: HolonReference) -> (
    Seq<HolonReference>,
    Option<ErrorView>,
) {
    walk_from(g, start, Seq::empty(), (g.len() + 1) as nat)
}

/// The full lineage, or the structural error that prevents reading it.
pub open spec fn spec_ancestors(g: Seq<HolonView>, start: HolonReference) -> Result<
    Seq<HolonReference>,
    ErrorView,
> {
    match spec_walk(g, start).1 {
        Some(e) => Err(e),
        None => Ok(spec_walk(g, start).0),
    }
}

/// Whether `anchor` occurs in the lineage of `candidate` before any structural error.
pub open spec fn spec_equals_or_extends(g: Seq<HolonView>, candidate: HolonReference, anchor: HolonReference) -> Result<
    bool,
    ErrorView,
> {
    let w = spec_walk(g, candidate);
    if w.0.contains(anchor) {
        Ok(true)
    } else {
        match w.1 {
            Some(e) => Err(e),
            None => Ok(false),
        }
    }
}

/// The walked lineage always starts with the subject.
pub proof fn lemma_walk_starts_with_subject(g: Seq<HolonView>, subject: HolonReference)
    ensures
        spec_walk(g, subject).0.len() >= 1,
        spec_walk(g, subject).0[0] == subject,
{
    let fuel = (g.len() + 1) as nat;
    assert(fuel > 0);
    let w = walk_from(g, subject, Seq::empty(), fuel);
    assert(w.0.len() >= 1 && w.0[0] == subject);
}

/// Every holon equals-or-extends itself: its lineage starts with it.
pub proof fn law_equals_or_extends_reflexive(g: Seq<HolonView>, x: HolonReference)
    ensures
        spec_equals_or_extends(g, x, x) == Ok::<bool, ErrorView>(true),
{
    lemma_walk_starts_with_subject(g, x);
    assert(spec_walk(g, x).0.contains(x));
}

proof fn lemma_walk_from_follows_parents(g: Seq<HolonView>, cur: HolonReference, visited: Seq<HolonReference>, fuel: nat)
    ensures
        forall|i: int|
            0 <= i < walk_from(g, cur, visited, fuel).0.len() - 1 ==> spec_extends_parent(
                g,
                #[trigger] walk_from(g, cur, visited, fuel).0[i],
            ) == Ok::<Option<HolonReference>, ErrorView>(Some(walk_from(g, cur, visited, fuel).0[i + 1])),
        fuel > 0 ==> walk_from(g, cur, visited, fuel).0.len() >= 1 && walk_from(g, cur, visited, fuel).0[0] == cur,
    decreases fuel,
{
    if fuel > 0 {
        if let Ok(Some(p)) = spec_extends_parent(g, cur) {
            if !visited.push(cur).contains(p) {
                let rest = walk_from(g, p, visited.push(cur), (fuel - 1) as nat);
                lemma_walk_from_follows_parents(g, p, visited.push(cur), (fuel - 1) as nat);
                let w = walk_from(g, cur, visited, fuel).0;
                assert(w == seq![cur] + rest.0);
                assert forall|i: int| 0 <= i < w.len() - 1 implies spec_extends_parent(g, #[trigger] w[i])
                    == Ok::<Option<HolonReference>, ErrorView>(Some(w[i + 1])) by {
                    if i == 0 {
                        assert(w[1] == rest.0[0]);
                    } else {
                        assert(w[i] == rest.0[i - 1]);
                        assert(w[i + 1] == rest.0[i]);
                    }
                }
            }
        }
    }
}

/// A lineage is the holon itself followed by successive `Extends` parents: each
/// holon of the walked lineage but the last has exactly the next one as parent.
pub proof fn law_walk_follows_parents(g: Seq<HolonView>, start: HolonReference)
    ensures
        spec_walk(g, start).0.len() >= 1,
        spec_walk(g, start).0[0] == start,
        forall|i: int|
            0 <= i < spec_walk(g, start).0.len() - 1 ==> spec_extends_parent(g, #[trigger] spec_walk(g, start).0[i])
                == Ok::<Option<HolonReference>, ErrorView>(Some(spec_walk(g, start).0[i + 1])),
{
    lemma_walk_from_follows_parents(g, start, Seq::empty(), (g.len() + 1) as nat);
}

/// Distinct valid references cannot outnumber the holons of the graph.
pub proof fn lemma_distinct_valid_bound(g: Seq<HolonView>, s: Seq<HolonReference>)
    requires
        s.no_duplicates(),
        forall|i: int| 0 <= i < s.len() ==> holon_of(g, #[trigger] s[i]).is_some(),
    ensures
        s.len() <= g.len(),
{
    let slots = s.map_values(|r: HolonReference| r.slot() as int);
    assert forall|i: int, j: int| 0 <= i < slots.len() && 0 <= j < slots.len() && i != j implies slots[i]
        != slots[j] by {
        assert(holon_of(g, s[i]).is_some());
        assert(holon_of(g, s[j]).is_some());
        if slots[i] == slots[j] {
            assert(s[i].phase() == s[j].phase());
            assert(s[i] == s[j]);
        }
    }
    assert(slots.no_duplicates());
    slots.unique_seq_to_set();
    lemma_int_range(0, g.len() as int);
    assert forall|x: int| slots.to_set().contains(x) implies set_int_range(0, g.len() as int).contains(
        x,
    ) by {
        let i = choose|i: int| 0 <= i < slots.len() && slots[i] == x;
        assert(holon_of(g, s[i]).is_some());
    }
    lemma_len_subset(slots.to_set(), set_int_range(0, g.len() as int));
}

/// The result of walking a descriptor's `Extends` lineage: the descriptors
/// reached (self first) and the structural error that ended the walk, if any.
pub struct ExtendsChain {
    pub members: Vec<HolonReference>,
    pub error: Option<HolonError>,
}

pub open spec fn opt_error_view(e: Option<HolonError>) -> Option<ErrorView> {
    match e {
        Some(e) => Some(e@),
        None => None,
    }
}

/// The content of an optional value.
pub open spec fn opt_value_view(v: Option<crate::values::BaseValue>) -> Option<crate::values::BaseValueView> {
    match v {
        Some(v) => Some(v@),
        None => None,
    }
}

impl ExtendsChain {
    pub open spec fn spec_view(&self) -> (Seq<HolonReference>, Option<ErrorView>) {
        (self.members@, opt_error_view(self.error))
    }
}

/// Returns whether `r` occurs in `v`.
pub fn contains_reference(v: &Vec<HolonReference>, r: HolonReference) -> (b: bool)
    ensures
        b == v@.contains(r),
{
    let mut i: usize = 0;
    while i < v.len()
        invariant
            i <= v.len(),
            forall|j: int| 0 <= j < i ==> v@[j] != r,
        decreases v.len() - i,
    {
        if v[i].same(&r) {
            return true;
        }
        i = i + 1;
    }
    false
}

/// Resolves the direct `Extends` parent of a descriptor holon.
pub fn extends_parent(g: &HolonGraph, holon: HolonReference) -> (res: Result<
    Option<HolonReference>,
    HolonError,
>)
    ensures
        rview(res) == spec_extends_parent(g@, holon),
{
    let members = g.related_core(holon, CoreRelationshipTypeName::Extends)?;
    if members.len() == 0 {
        Ok(None)
    } else if members.len() == 1 {
        Ok(Some(members[0]))
    } else {
        Err(HolonError::MultipleExtends { descriptor: holon, count: members.len() })
    }
}

/// Walks the effective `Extends` chain of `start`, self first.
pub fn walk_extends_chain(g: &HolonGraph, start: HolonReference) -> (w: ExtendsChain)
    ensures
        w.spec_view() == spec_walk(g@, start),
{
    let mut members: Vec<HolonReference> = Vec::new();
    let mut cur = start;
    let ghost mut fuel: nat = (g@.len() + 1) as nat;
    loop
        invariant
            spec_walk(g@, start) == (
                members@ + walk_from(g@, cur, members@, fuel).0,
                walk_from(g@, cur, members@, fuel).1,
            ),
            members@.no_duplicates(),
            forall|i: int| 0 <= i < members@.len() ==> holon_of(g@, #[trigger] members@[i]).is_some(),
            !members@.contains(cur),
            fuel == g@.len() + 1 - members@.len(),
        decreases fuel,
    {
        proof {
            lemma_distinct_valid_bound(g@, members@);
        }
        let ghost before = members@;
        match extends_parent(g, cur) {
            Err(e) => {
                members.push(cur);
                assert(members@ =~= before + seq![cur]);
                return ExtendsChain { members, error: Some(e) };
            },
            Ok(None) => {
                members.push(cur);
                assert(members@ =~= before + seq![cur]);
                return ExtendsChain { members, error: None };
            },
            Ok(Some(p)) => {
                assert(holon_of(g@, cur).is_some());
                members.push(cur);
                assert(members@ =~= before.push(cur));
                if contains_reference(&members, p) {
                    assert(members@ =~= before + seq![cur]);
                    return ExtendsChain {
                        members,
                        error: Some(HolonError::CyclicExtends { descriptor: p }),
                    };
                }
                proof {
                    assert forall|i: int, j: int|
                        0 <= i < members@.len() && 0 <= j < members@.len() && i != j implies members@[i]
                        != members@[j] by {
                        if i < before.len() && j < before.len() {
                        } else if i == before.len() {
                            assert(members@[i] == cur);
                            assert(before.contains(members@[j]));
                        } else {
                            assert(members@[j] == cur);
                            assert(before.contains(members@[i]));
                        }
                    }
                    let rest = walk_from(g@, p, members@, (fuel - 1) as nat);
                    assert(before + walk_from(g@, cur, before, fuel).0 =~= members@ + rest.0);
                    fuel = (fuel - 1) as nat;
                }
                cur = p;
            },
        }
    }
}

/// The items a walk yields: each lineage member, then the error that ended it, if any.
pub open spec fn walk_items(w: (Seq<HolonReference>, Option<ErrorView>)) -> Seq<Result<HolonReference, ErrorView>> {
    w.0.map_values(|r: HolonReference| Ok::<HolonReference, ErrorView>(r)) + match w.1 {
        Some(e) => seq![Err::<HolonReference, ErrorView>(e)],
        None => Seq::empty(),
    }
}

/// The view of one yielded item.
pub open spec fn item_view(r: Result<HolonReference, HolonError>) -> Result<HolonReference, ErrorView> {
    match r {
        Ok(v) => Ok(v),
        Err(e) => Err(e@),
    }
}

/// The state of an `ExtendsIter`.
pub struct IterState {
    pub next: Option<HolonReference>,
    pub pending: Option<ErrorView>,
    pub visited: Seq<HolonReference>,
    pub finished: bool,
}

/// One step of an `Extends` walker over `g`: the item it yields and its next state.
///
/// An exhausted walker yields nothing. A pending error is yielded once, and
/// the walker is then exhausted. Otherwise the descriptor to yield next is
/// yielded and its parent is read: a read error, or a parent already yielded
/// (a cycle), becomes the pending error; no parent exhausts the walker; a new
/// parent is the descriptor to yield next.
pub open spec fn spec_step(g: Seq<HolonView>, s: IterState) -> (Option<Result<HolonReference, ErrorView>>, IterState) {
    if s.finished {
        (None, s)
    } else {
        match s.pending {
            Some(e) => (Some(Err(e)), IterState { pending: None, finished: true, ..s }),
            None => match s.next {
                None => (None, s),
                Some(c) => {
                    let visited = s.visited.push(c);
                    (
                        Some(Ok(c)),
                        match spec_extends_parent(g, c) {
                            Err(e) => IterState { next: None, pending: Some(e), visited, finished: false },
                            Ok(None) => IterState { next: None, pending: None, visited, finished: true },
                            Ok(Some(p)) => if visited.contains(p) {
                                IterState {
                                    next: None,
                                    pending: Some(ErrorView::CyclicExtends { descriptor: p }),
                                    visited,
                                    finished: false,
                                }
                            } else {
                                IterState { next: Some(p), pending: None, visited, finished: false }
                            },
                        },
                    )
                },
            },
        }
    }
}

/// How an `Extends` walker proceeds: a fresh walker first yields its start;
/// an item yielded right after a descriptor is that descriptor's single
/// `Extends` parent; a `MultipleExtends` or other read error of a
/// descriptor's parent, or a `CyclicExtends` error, is yielded by the call
/// after that descriptor; after a descriptor without a parent the walker
/// yields nothing; and once a walker yields an error or nothing, it yields
/// nothing ever after.
pub proof fn law_extends_walker_steps(g: Seq<HolonView>, s: IterState, start: HolonReference)
    ensures
        spec_step(g, IterState { next: Some(start), pending: None, visited: Seq::empty(), finished: false }).0
            == Some(Ok::<HolonReference, ErrorView>(start)),
        ({
            let (r1, s1) = spec_step(g, s);
            let (r2, s2) = spec_step(g, s1);
            &&& (r1 matches Some(Ok(c)) && r2 matches Some(Ok(d))) ==> spec_extends_parent(g, r1->Some_0->Ok_0)
                == Ok::<Option<HolonReference>, ErrorView>(Some(r2->Some_0->Ok_0))
            &&& (r1 matches Some(Ok(c)) && spec_extends_parent(g, r1->Some_0->Ok_0) is Err) ==> r2 == Some(
                Err::<HolonReference, ErrorView>(spec_extends_parent(g, r1->Some_0->Ok_0)->Err_0),
            )
            &&& (r1 matches Some(Err(e)) || r1 is None) ==> spec_step(g, s1).0 is None && spec_step(
                g,
                spec_step(g, s1).1,
            ).0 is None
            &&& (r1 matches Some(Ok(c)) && spec_extends_parent(g, r1->Some_0->Ok_0) == Ok::<
                Option<HolonReference>,
                ErrorView,
            >(None)) ==> r2 is None && spec_step(g, s2).0 is None
        }),
{
}

/// Lazy walker over a descriptor's `Extends` lineage, self first.
///
/// `next` is the descriptor to yield next, `pending_error` a structural error
/// found while preparing the step after it, `visited` the descriptors already
/// yielded (for cycle detection), `finished` marks exhaustion after the root
/// or an error.
pub struct ExtendsIter {
    next: Option<HolonReference>,
    pending_error: Option<HolonError>,
    visited: Vec<HolonReference>,
    finished: bool,
    fuel: Ghost<nat>,
}

impl ExtendsIter {
    /// The items this walker has yet to yield over `g`.
    pub closed spec fn remaining(&self, g: Seq<HolonView>) -> Seq<Result<HolonReference, ErrorView>> {
        if self.finished {
            Seq::empty()
        } else {
            match self.pending_error {
                Some(e) => seq![Err::<HolonReference, ErrorView>(e@)],
                None => match self.next {
                    None => Seq::empty(),
                    Some(c) => walk_items(walk_from(g, c, self.visited@, self.fuel@)),
                },
            }
        }
    }

    /// The walker is consistent with `g`.
    pub closed spec fn wf(&self, g: Seq<HolonView>) -> bool {
        !self.finished && self.pending_error is None && self.next is Some ==> {
            &&& self.visited@.no_duplicates()
            &&& forall|i: int| 0 <= i < self.visited@.len() ==> holon_of(g, #[trigger] self.visited@[i]).is_some()
            &&& !self.visited@.contains(self.next->0)
            &&& self.fuel@ == g.len() + 1 - self.visited@.len()
        }
    }

    /// The walker's state: the descriptor to yield next, the pending error,
    /// the descriptors already yielded, and whether it is exhausted.
    pub closed spec fn spec_state(&self) -> IterState {
        IterState {
            next: self.next,
            pending: opt_error_view(self.pending_error),
            visited: self.visited@,
            finished: self.finished,
        }
    }

    /// Starts a walk at `start`.
    pub fn new(g: &HolonGraph, start: HolonReference) -> (it: ExtendsIter)
        ensures
            it.spec_state() == (IterState { next: Some(start), pending: None, visited: Seq::empty(), finished: false }),
            it.wf(g@),
            it.remaining(g@) == walk_items(spec_walk(g@, start)),
    {
        let it = ExtendsIter {
            next: Some(start),
            pending_error: None,
            visited: Vec::new(),
            finished: false,
            fuel: Ghost((g@.len() + 1) as nat),
        };
        assert(it.visited@ =~= Seq::<HolonReference>::empty());
        it
    }

    /// Yields the next lineage member, then the error that ended the walk, then nothing.
    ///
    /// Each call takes one step of `spec_step`. Over a walker started on `g`
    /// and stepped on `g`, the items yielded are exactly the walk of `g`.
    pub fn next(&mut self, g: &HolonGraph) -> (r: Option<Result<HolonReference, HolonError>>)
        ensures
            (match r {
                None => None,
                Some(item) => Some(item_view(item)),
            }, final(self).spec_state()) == spec_step(g@, old(self).spec_state()),
            old(self).wf(g@) ==> final(self).wf(g@) && match r {
                None => old(self).remaining(g@).len() == 0 && final(self).remaining(g@).len() == 0,
                Some(item) => old(self).remaining(g@).len() > 0 && item_view(item) == old(self).remaining(
                    g@,
                )[0] && final(self).remaining(g@) == old(self).remaining(g@).drop_first(),
            },
    {
        let ghost was_wf = self.wf(g@);
        if self.finished {
            return None;
        }
        let pending = self.pending_error.take();
        if let Some(e) = pending {
            self.finished = true;
            return Some(Err(e));
        }
        let current = match self.next.take() {
            Some(c) => c,
            None => {
                return None;
            },
        };
        let ghost before = self.visited@;
        let ghost fuel = self.fuel@;
        proof {
            if was_wf {
                lemma_distinct_valid_bound(g@, before);
            }
        }
        let ghost w = walk_from(g@, current, before, fuel);
        let ghost items = walk_items(w);
        match extends_parent(g, current) {
            Err(e) => {
                self.visited.push(current);
                self.pending_error = Some(e);
                assert(was_wf ==> items =~= seq![Ok::<HolonReference, ErrorView>(current), Err::<HolonReference, ErrorView>(e@)]);
            },
            Ok(None) => {
                self.visited.push(current);
                self.finished = true;
                assert(was_wf ==> items =~= seq![Ok::<HolonReference, ErrorView>(current)]);
            },
            Ok(Some(parent)) => {
                assert(holon_of(g@, current).is_some());
                self.visited.push(current);
                assert(self.visited@ =~= before.push(current));
                if contains_reference(&self.visited, parent) {
                    self.pending_error = Some(HolonError::CyclicExtends { descriptor: parent });
                    assert(was_wf ==> items =~= seq![
                        Ok::<HolonReference, ErrorView>(current),
                        Err::<HolonReference, ErrorView>(ErrorView::CyclicExtends { descriptor: parent }),
                    ]);
                } else {
                    self.next = Some(parent);
                    proof {
                        if was_wf {
                            assert forall|i: int, j: int|
                                0 <= i < self.visited@.len() && 0 <= j < self.visited@.len() && i != j implies self.visited@[i]
                                != self.visited@[j] by {
                                if i < before.len() && j < before.len() {
                                } else if i == before.len() {
                                    assert(before.contains(self.visited@[j]));
                                } else {
                                    assert(before.contains(self.visited@[i]));
                                }
                            }
                            let rest = walk_from(g@, parent, self.visited@, (fuel - 1) as nat);
                            assert(w.0 =~= seq![current] + rest.0);
                            assert(items =~= seq![Ok::<HolonReference, ErrorView>(current)] + walk_items(rest));
                            self.fuel = Ghost((fuel - 1) as nat);
                        }
                    }
                }
            },
        }
        Some(Ok(current))
    }
}

/// The single `DescribedBy` target of `holon`, if any; several targets are an error.
pub open spec fn spec_described_by(g: Seq<HolonView>, holon: HolonReference) -> Result<Option<HolonReference>, ErrorView> {
    match spec_related(g, holon, CoreRelationshipTypeName::DescribedBy.spec_name()) {
        Err(e) => Err(e),
        Ok(m) => if m.len() == 0 {
            Ok(None)
        } else if m.len() == 1 {
            Ok(Some(m[0]))
        } else {
            Err(ErrorView::DuplicateError("DescribedBy"@, "Expected exactly one descriptor target"@))
        },
    }
}

/// Returns the describing descriptor of `holon` when it has exactly one.
pub fn described_by_descriptor(g: &HolonGraph, holon: HolonReference) -> (res: Result<
    Option<HolonReference>,
    HolonError,
>)
    ensures
        rview(res) == spec_described_by(g@, holon),
{
    let m = g.related_core(holon, CoreRelationshipTypeName::DescribedBy)?;
    if m.len() == 0 {
        Ok(None)
    } else if m.len() == 1 {
        Ok(Some(m[0]))
    } else {
        Err(
            HolonError::DuplicateError(
                String::from_str("DescribedBy"),
                String::from_str("Expected exactly one descriptor target"),
            ),
        )
    }
}

/// Materializes the full `Extends` chain including `self`.
pub fn ancestors(g: &HolonGraph, start: HolonReference) -> (res: Result<
    Vec<HolonReference>,
    HolonError,
>)
    ensures
        res matches Ok(v) ==> spec_ancestors(g@, start) == Ok::<Seq<HolonReference>, ErrorView>(
            v@,
        ),
        res matches Err(e) ==> spec_ancestors(g@, start) == Err::<Seq<HolonReference>, ErrorView>(
            e@,
        ),
{
    let w = walk_extends_chain(g, start);
    match w.error {
        Some(e) => Err(e),
        None => Ok(w.members),
    }
}

/// Returns true when `candidate` is `anchor` or inherits from it through `Extends`.
///
/// Compatibility is based on reference identity, not descriptor names; an error
/// further up the lineage is reported only when `anchor` was not reached first.
pub fn equals_or_extends(g: &HolonGraph, candidate: HolonReference, anchor: HolonReference) -> (res:
    Result<bool, HolonError>)
    ensures
        rview(res) == spec_equals_or_extends(g@, candidate, anchor),
{
    let w = walk_extends_chain(g, candidate);
    if contains_reference(&w.members, anchor) {
        return Ok(true);
    }
    match w.error {
        Some(e) => Err(e),
        None => Ok(false),
    }
}

/// The local members of `rel` on `d`, each recorded as declared on `d`.
pub open spec fn spec_local_members(g: Seq<HolonView>, d: HolonReference, rel: Seq<char>) -> Result<
    Seq<EffectiveRelationshipMember>,
    ErrorView,
> {
    match spec_related(g, d, rel) {
        Err(e) => Err(e),
        Ok(m) => Ok(m.map_values(|x: HolonReference| EffectiveRelationshipMember { member: x, declared_on: d })),
    }
}

/// The local members of `rel` on the first `n` descriptors of `ds`, in order; the first read error wins.
pub open spec fn locals_upto(g: Seq<HolonView>, ds: Seq<HolonReference>, rel: Seq<char>, n: int) -> Result<
    Seq<EffectiveRelationshipMember>,
    ErrorView,
>
    decreases n,
{
    if n <= 0 {
        Ok(Seq::empty())
    } else {
        match locals_upto(g, ds, rel, n - 1) {
            Err(e) => Err(e),
            Ok(acc) => match spec_local_members(g, ds[n - 1], rel) {
                Err(e) => Err(e),
                Ok(m) => Ok(acc + m),
            },
        }
    }
}

/// The first non-empty local contribution along `ds` from index `i`, else `fallback`.
pub open spec fn override_from(
    g: Seq<HolonView>,
    ds: Seq<HolonReference>,
    rel: Seq<char>,
    i: int,
    fallback: Option<ErrorView>,
) -> Result<Seq<EffectiveRelationshipMember>, ErrorView>
    decreases ds.len() - i,
{
    if 0 <= i < ds.len() {
        match spec_local_members(g, ds[i], rel) {
            Err(e) => Err(e),
            Ok(m) => if m.len() > 0 {
                Ok(m)
            } else {
                override_from(g, ds, rel, i + 1, fallback)
            },
        }
    } else {
        match fallback {
            Some(e) => Err(e),
            None => Ok(Seq::empty()),
        }
    }
}

/// Members of `rel` under the inheritance rule `rule`.
///
/// Local reads only `start`; Additive concatenates local contributions from the
/// root of the lineage down to `start` (duplicates and provenance retained);
/// Override takes the nearest non-empty local contribution, self first.
pub open spec fn spec_members_under_rule(
    g: Seq<HolonView>,
    start: HolonReference,
    rel: CoreRelationshipTypeName,
    rule: InheritanceRule,
) -> Result<Seq<EffectiveRelationshipMember>, ErrorView> {
    match rule {
        InheritanceRule::Local => spec_local_members(g, start, rel.spec_name()),
        InheritanceRule::Additive => match spec_ancestors(g, start) {
            Err(e) => Err(e),
            Ok(l) => locals_upto(g, l.reverse(), rel.spec_name(), l.len() as int),
        },
        InheritanceRule::Override => override_from(
            g,
            spec_walk(g, start).0,
            rel.spec_name(),
            0,
            spec_walk(g, start).1,
        ),
    }
}

/// Effective members of `rel` under the kernel's inheritance rule for `rel`.
pub open spec fn spec_effective_members(g: Seq<HolonView>, start: HolonReference, rel: CoreRelationshipTypeName) -> Result<
    Seq<EffectiveRelationshipMember>,
    ErrorView,
> {
    spec_members_under_rule(g, start, rel, spec_inheritance_rule(rel))
}

/// The related members of `rel` on the first `n` descriptors of `ds`, in order.
pub open spec fn related_upto(g: Seq<HolonView>, ds: Seq<HolonReference>, rel: Seq<char>, n: int) -> Result<
    Seq<HolonReference>,
    ErrorView,
>
    decreases n,
{
    if n <= 0 {
        Ok(Seq::empty())
    } else {
        match related_upto(g, ds, rel, n - 1) {
            Err(e) => Err(e),
            Ok(acc) => match spec_related(g, ds[n - 1], rel) {
                Err(e) => Err(e),
                Ok(m) => Ok(acc + m),
            },
        }
    }
}

/// Members of `rel` flattened across the lineage of `start`, self first.
pub open spec fn spec_flatten(g: Seq<HolonView>, start: HolonReference, rel: Seq<char>) -> Result<
    Seq<HolonReference>,
    ErrorView,
> {
    match spec_ancestors(g, start) {
        Err(e) => Err(e),
        Ok(l) => related_upto(g, l, rel, l.len() as int),
    }
}

/// Members gathered from the first `k` lineage entries prefix those gathered from the first `n`.
proof fn lemma_related_upto_prefix(g: Seq<HolonView>, ds: Seq<HolonReference>, rel: Seq<char>, k: int, n: int)
    requires
        0 <= k <= n,
        related_upto(g, ds, rel, n) is Ok,
    ensures
        related_upto(g, ds, rel, k) is Ok,
        related_upto(g, ds, rel, k)->Ok_0.len() <= related_upto(g, ds, rel, n)->Ok_0.len(),
        related_upto(g, ds, rel, n)->Ok_0.subrange(0, related_upto(g, ds, rel, k)->Ok_0.len() as int)
            == related_upto(g, ds, rel, k)->Ok_0,
    decreases n - k,
{
    if k < n {
        lemma_related_upto_prefix(g, ds, rel, k, n - 1);
        let a = related_upto(g, ds, rel, k)->Ok_0;
        let b = related_upto(g, ds, rel, n - 1)->Ok_0;
        let c = related_upto(g, ds, rel, n)->Ok_0;
        assert(c.subrange(0, a.len() as int) =~= b.subrange(0, a.len() as int));
    } else {
        let c = related_upto(g, ds, rel, n)->Ok_0;
        assert(c.subrange(0, c.len() as int) =~= c);
    }
}

/// Flattened plural accessors are self first: the members a descriptor declares
/// itself come first, in their own order, before any inherited member.
pub proof fn law_flatten_self_first(g: Seq<HolonView>, start: HolonReference, rel: Seq<char>)
    requires
        spec_flatten(g, start, rel) is Ok,
    ensures
        spec_related(g, start, rel) is Ok,
        spec_related(g, start, rel)->Ok_0.len() <= spec_flatten(g, start, rel)->Ok_0.len(),
        spec_flatten(g, start, rel)->Ok_0.subrange(0, spec_related(g, start, rel)->Ok_0.len() as int)
            == spec_related(g, start, rel)->Ok_0,
{
    lemma_walk_starts_with_subject(g, start);
    let l = spec_ancestors(g, start)->Ok_0;
    lemma_related_upto_prefix(g, l, rel, 1, l.len() as int);
    assert(related_upto(g, l, rel, 0) == Ok::<Seq<HolonReference>, ErrorView>(Seq::empty()));
    let own = spec_related(g, start, rel)->Ok_0;
    assert(Seq::<HolonReference>::empty() + own =~= own);
}

proof fn lemma_locals_upto_error_persists(g: Seq<HolonView>, ds: Seq<HolonReference>, rel: Seq<char>, n: int, m: int)
    requires
        n <= m,
        locals_upto(g, ds, rel, n) is Err,
    ensures
        locals_upto(g, ds, rel, m) == locals_upto(g, ds, rel, n),
    decreases m - n,
{
    if n < m {
        lemma_locals_upto_error_persists(g, ds, rel, n, m - 1);
    }
}

proof fn lemma_related_upto_error_persists(g: Seq<HolonView>, ds: Seq<HolonReference>, rel: Seq<char>, n: int, m: int)
    requires
        n <= m,
        related_upto(g, ds, rel, n) is Err,
    ensures
        related_upto(g, ds, rel, m) == related_upto(g, ds, rel, n),
    decreases m - n,
{
    if n < m {
        lemma_related_upto_error_persists(g, ds, rel, n, m - 1);
    }
}

fn local_relationship_members(g: &HolonGraph, descriptor: HolonReference, rel: CoreRelationshipTypeName) -> (res:
    Result<Vec<EffectiveRelationshipMember>, HolonError>)
    ensures
        rview(res) == spec_local_members(g@, descriptor, rel.spec_name()),
        res matches Ok(v) ==> spec_local_members(g@, descriptor, rel.spec_name()) == Ok::<
            Seq<EffectiveRelationshipMember>,
            ErrorView,
        >(v@),
{
    let members = g.related_core(descriptor, rel)?;
    let mut out: Vec<EffectiveRelationshipMember> = Vec::new();
    let mut i: usize = 0;
    while i < members.len()
        invariant
            i <= members.len(),
            out@ == members@.subrange(0, i as int).map_values(
                |x: HolonReference| EffectiveRelationshipMember { member: x, declared_on: descriptor },
            ),
        decreases members.len() - i,
    {
        out.push(EffectiveRelationshipMember { member: members[i], declared_on: descriptor });
        i = i + 1;
        assert(out@ =~= members@.subrange(0, i as int).map_values(
            |x: HolonReference| EffectiveRelationshipMember { member: x, declared_on: descriptor },
        ));
    }
    assert(members@.subrange(0, i as int) =~= members@);
    assert(out.deep_view() =~= out@);
    Ok(out)
}

fn append_members(out: &mut Vec<EffectiveRelationshipMember>, extra: Vec<EffectiveRelationshipMember>)
    ensures
        final(out)@ == old(out)@ + extra@,
{
    let mut extra = extra;
    out.append(&mut extra);
}

/// Resolves relationship targets across a descriptor's lineage using the
/// kernel's inheritance rule for `rel`.
pub fn effective_relationship_members(g: &HolonGraph, start: HolonReference, rel: CoreRelationshipTypeName) -> (res:
    Result<Vec<EffectiveRelationshipMember>, HolonError>)
    ensures
        rview(res) == spec_effective_members(g@, start, rel),
        res matches Ok(v) ==> spec_effective_members(g@, start, rel) == Ok::<
            Seq<EffectiveRelationshipMember>,
            ErrorView,
        >(v@),
{
    members_under_rule(g, start, rel, inheritance_rule(&rel))
}

/// Resolves relationship targets across a descriptor's lineage under `rule`.
pub fn members_under_rule(g: &HolonGraph, start: HolonReference, rel: CoreRelationshipTypeName, rule: InheritanceRule) -> (res:
    Result<Vec<EffectiveRelationshipMember>, HolonError>)
    ensures
        rview(res) == spec_members_under_rule(g@, start, rel, rule),
        res matches Ok(v) ==> spec_members_under_rule(g@, start, rel, rule) == Ok::<
            Seq<EffectiveRelationshipMember>,
            ErrorView,
        >(v@),
{
    match rule {
        InheritanceRule::Local => local_relationship_members(g, start, rel),
        InheritanceRule::Additive => {
            let lineage = ancestors(g, start)?;
            let ghost rev = lineage@.reverse();
            let mut members: Vec<EffectiveRelationshipMember> = Vec::new();
            let mut k: usize = 0;
            while k < lineage.len()
                invariant
                    k <= lineage.len(),
                    rev == lineage@.reverse(),
                    spec_ancestors(g@, start) == Ok::<Seq<HolonReference>, ErrorView>(lineage@),
                    rule == InheritanceRule::Additive,
                    locals_upto(g@, rev, rel.spec_name(), k as int) == Ok::<
                        Seq<EffectiveRelationshipMember>,
                        ErrorView,
                    >(members@),
                decreases lineage.len() - k,
            {
                let ancestor = lineage[lineage.len() - 1 - k];
                assert(ancestor == rev[k as int]);
                let local = match local_relationship_members(g, ancestor, rel) {
                    Ok(l) => l,
                    Err(e) => {
                        proof {
                            lemma_locals_upto_error_persists(
                                g@,
                                rev,
                                rel.spec_name(),
                                k + 1,
                                lineage@.len() as int,
                            );
                        }
                        return Err(e);
                    },
                };
                append_members(&mut members, local);
                k = k + 1;
            }
            assert(members.deep_view() =~= members@);
            Ok(members)
        },
        InheritanceRule::Override => {
            let w = walk_extends_chain(g, start);
            let mut i: usize = 0;
            while i < w.members.len()
                invariant
                    i <= w.members.len(),
                    w.spec_view() == spec_walk(g@, start),
                    rule == InheritanceRule::Override,
                    override_from(g@, w.members@, rel.spec_name(), i as int, opt_error_view(w.error))
                        == override_from(g@, w.members@, rel.spec_name(), 0, opt_error_view(w.error)),
                decreases w.members.len() - i,
            {
                let local = local_relationship_members(g, w.members[i], rel)?;
                if local.len() > 0 {
                    assert(local.deep_view() =~= local@);
                    return Ok(local);
                }
                i = i + 1;
            }
            match w.error {
                Some(e) => Err(e),
                None => {
                    let v: Vec<EffectiveRelationshipMember> = Vec::new();
                    assert(v.deep_view() =~= v@);
                    assert(v@ =~= Seq::<EffectiveRelationshipMember>::empty());
                    Ok(v)
                },
            }
        },
    }
}

fn append_references(out: &mut Vec<HolonReference>, extra: Vec<HolonReference>)
    ensures
        final(out)@ == old(out)@ + extra@,
{
    let mut extra = extra;
    out.append(&mut extra);
}

/// Collects the members of `rel` across the lineage of `start`, self first then inherited.
pub fn flatten_related_members(g: &HolonGraph, start: HolonReference, rel: CoreRelationshipTypeName) -> (res:
    Result<Vec<HolonReference>, HolonError>)
    ensures
        rview(res) == spec_flatten(g@, start, rel.spec_name()),
        res matches Ok(v) ==> spec_flatten(g@, start, rel.spec_name()) == Ok::<
            Seq<HolonReference>,
            ErrorView,
        >(v@),
{
    let lineage = ancestors(g, start)?;
    let mut members: Vec<HolonReference> = Vec::new();
    let mut k: usize = 0;
    while k < lineage.len()
        invariant
            k <= lineage.len(),
            spec_ancestors(g@, start) == Ok::<Seq<HolonReference>, ErrorView>(lineage@),
            related_upto(g@, lineage@, rel.spec_name(), k as int) == Ok::<
                Seq<HolonReference>,
                ErrorView,
            >(members@),
        decreases lineage.len() - k,
    {
        let local = match g.related_core(lineage[k], rel) {
            Ok(l) => l,
            Err(e) => {
                proof {
                    lemma_related_upto_error_persists(
                        g@,
                        lineage@,
                        rel.spec_name(),
                        k + 1,
                        lineage@.len() as int,
                    );
                }
                return Err(e);
            },
        };
        append_references(&mut members, local);
        k = k + 1;
    }
    assert(members.deep_view() =~= members@);
    Ok(members)
}

/// The direction of a relationship type descriptor: whichever of
/// `DeclaredRelationshipType` and `InverseRelationshipType` its lineage reaches first.
pub open spec fn spec_relationship_direction(g: Seq<HolonView>, r: HolonReference) -> Result<
    RelationshipDirection,
    ErrorView,
> {
    match spec_search_extends(
        g,
        r,
        seq![
            CoreHolonTypeName::DeclaredRelationshipType.spec_name(),
            CoreHolonTypeName::InverseRelationshipType.spec_name(),
        ],
    ) {
        Err(e) => Err(e),
        Ok(i) => if i == 0 {
            Ok(RelationshipDirection::Declared)
        } else {
            Ok(RelationshipDirection::Inverse)
        },
    }
}

impl DeepView for RelationshipDirection {
    type V = RelationshipDirection;

    open spec fn deep_view(&self) -> RelationshipDirection {
        *self
    }
}

/// Classifies whether a relationship type descriptor is declared or inverse.
pub fn classify_relationship_direction(g: &HolonGraph, relationship_type_descriptor: HolonReference) -> (res:
    Result<RelationshipDirection, HolonError>)
    ensures
        rview(res) == spec_relationship_direction(g@, relationship_type_descriptor),
{
    let mut expected: Vec<MapString> = Vec::new();
    expected.push(CoreHolonTypeName::DeclaredRelationshipType.as_holon_name());
    expected.push(CoreHolonTypeName::InverseRelationshipType.as_holon_name());
    assert(expected.deep_view() =~= seq![
        CoreHolonTypeName::DeclaredRelationshipType.spec_name(),
        CoreHolonTypeName::InverseRelationshipType.spec_name(),
    ]);
    let i = search_extends_chain(g, relationship_type_descriptor, &expected)?;
    if i == 0 {
        Ok(RelationshipDirection::Declared)
    } else {
        Ok(RelationshipDirection::Inverse)
    }
}

proof fn lemma_set_property_keeps_related(
    g: Seq<HolonView>,
    r: HolonReference,
    name: Seq<char>,
    value: BaseValueView,
    x: HolonReference,
    rel: Seq<char>,
)
    ensures
        spec_related(spec_set_property(g, r, name, value), x, rel) == spec_related(g, x, rel),
{
    let g2 = spec_set_property(g, r, name, value);
    if holon_of(g, r) is Some && x.slot() == r.slot() {
        assert(g2[x.slot() as int].relationships == g[x.slot() as int].relationships);
        assert(g2[x.slot() as int].phase == g[x.slot() as int].phase);
    }
}

proof fn lemma_walk_from_ignores_properties(
    g: Seq<HolonView>,
    r: HolonReference,
    name: Seq<char>,
    value: BaseValueView,
    cur: HolonReference,
    visited: Seq<HolonReference>,
    fuel: nat,
)
    ensures
        walk_from(spec_set_property(g, r, name, value), cur, visited, fuel) == walk_from(g, cur, visited, fuel),
    decreases fuel,
{
    if fuel > 0 {
        lemma_set_property_keeps_related(g, r, name, value, cur, CoreRelationshipTypeName::Extends.spec_name());
        match spec_extends_parent(g, cur) {
            Ok(Some(p)) => {
                if !visited.push(cur).contains(p) {
                    lemma_walk_from_ignores_properties(g, r, name, value, p, visited.push(cur), (fuel - 1) as nat);
                }
            },
            _ => {},
        }
    }
}

/// Lineage is a matter of identity, not of names or any other property:
/// setting a property of any holon leaves every `Extends` walk, and with it
/// every `equals_or_extends` answer, unchanged.
pub proof fn law_lineage_ignores_properties(
    g: Seq<HolonView>,
    r: HolonReference,
    name: Seq<char>,
    value: BaseValueView,
    candidate: HolonReference,
    anchor: HolonReference,
)
    ensures
        spec_walk(spec_set_property(g, r, name, value), candidate) == spec_walk(g, candidate),
        spec_equals_or_extends(spec_set_property(g, r, name, value), candidate, anchor) == spec_equals_or_extends(
            g,
            candidate,
            anchor,
        ),
{
    assert(spec_set_property(g, r, name, value).len() == g.len());
    lemma_walk_from_ignores_properties(g, r, name, value, candidate, Seq::empty(), (g.len() + 1) as nat);
}

proof fn lemma_walk_from_closed(g: Seq<HolonView>, cur: HolonReference, visited: Seq<HolonReference>, fuel: nat)
    requires
        visited.no_duplicates(),
        forall|i: int| 0 <= i < visited.len() ==> holon_of(g, #[trigger] visited[i]).is_some(),
        !visited.contains(cur),
        fuel == g.len() + 1 - visited.len(),
    ensures
        walk_from(g, cur, visited, fuel).0.len() >= 1,
        spec_extends_parent(g, walk_from(g, cur, visited, fuel).0.last()) matches Ok(Some(p)) ==> (visited
            + walk_from(g, cur, visited, fuel).0).contains(p),
    decreases fuel,
{
    lemma_distinct_valid_bound(g, visited);
    let w = walk_from(g, cur, visited, fuel);
    match spec_extends_parent(g, cur) {
        Ok(Some(p)) => {
            let v2 = visited.push(cur);
            if v2.contains(p) {
                assert(w.0 == seq![cur]);
                assert(v2 =~= visited + w.0);
            } else {
                assert(holon_of(g, cur).is_some());
                assert forall|i: int, j: int| 0 <= i < v2.len() && 0 <= j < v2.len() && i != j implies v2[i]
                    != v2[j] by {
                    if i < visited.len() && j < visited.len() {
                    } else if i == visited.len() {
                        assert(visited.contains(v2[j]));
                    } else {
                        assert(visited.contains(v2[i]));
                    }
                }
                assert forall|i: int| 0 <= i < v2.len() implies holon_of(g, #[trigger] v2[i]).is_some() by {
                    if i < visited.len() {
                        assert(v2[i] == visited[i]);
                    }
                }
                lemma_distinct_valid_bound(g, v2);
                let rest = walk_from(g, p, v2, (fuel - 1) as nat);
                lemma_walk_from_closed(g, p, v2, (fuel - 1) as nat);
                assert(w.0 == seq![cur] + rest.0);
                assert(w.0.last() == rest.0.last());
                assert(visited + w.0 =~= v2 + rest.0);
            }
        },
        _ => {
            assert(w.0 == seq![cur]);
        },
    }
}

/// `equals_or_extends` is transitive: when `a` reaches `b` and `b` reaches `c`
/// along `Extends` before any error, `a` reaches `c`.
pub proof fn law_equals_or_extends_transitive(g: Seq<HolonView>, a: HolonReference, b: HolonReference, c: HolonReference)
    requires
        spec_equals_or_extends(g, a, b) == Ok::<bool, ErrorView>(true),
        spec_equals_or_extends(g, b, c) == Ok::<bool, ErrorView>(true),
    ensures
        spec_equals_or_extends(g, a, c) == Ok::<bool, ErrorView>(true),
{
    let w = spec_walk(g, a).0;
    let v = spec_walk(g, b).0;
    law_walk_follows_parents(g, a);
    law_walk_follows_parents(g, b);
    lemma_walk_from_closed(g, a, Seq::empty(), (g.len() + 1) as nat);
    assert(Seq::<HolonReference>::empty() + w =~= w);
    assert(w.contains(b));
    assert(v.contains(c));
    let jc = choose|j: int| 0 <= j < v.len() && v[j] == c;
    assert forall|m: int| 0 <= m < v.len() implies w.contains(#[trigger] v[m]) by {
        lemma_walk_members_reached(g, w, v, m);
    }
    assert(w.contains(v[jc]));
}

proof fn lemma_walk_members_reached(g: Seq<HolonView>, w: Seq<HolonReference>, v: Seq<HolonReference>, m: int)
    requires
        w.len() >= 1,
        v.len() >= 1,
        w.contains(v[0]),
        0 <= m < v.len(),
        forall|i: int|
            0 <= i < w.len() - 1 ==> spec_extends_parent(g, #[trigger] w[i]) == Ok::<Option<HolonReference>, ErrorView>(
                Some(w[i + 1]),
            ),
        forall|i: int|
            0 <= i < v.len() - 1 ==> spec_extends_parent(g, #[trigger] v[i]) == Ok::<Option<HolonReference>, ErrorView>(
                Some(v[i + 1]),
            ),
        spec_extends_parent(g, w.last()) matches Ok(Some(p)) ==> w.contains(p),
    ensures
        w.contains(v[m]),
    decreases m,
{
    if m > 0 {
        lemma_walk_members_reached(g, w, v, m - 1);
        let t = choose|t: int| 0 <= t < w.len() && w[t] == v[m - 1];
        assert(spec_extends_parent(g, v[m - 1]) == Ok::<Option<HolonReference>, ErrorView>(Some(v[m])));
        if t < w.len() - 1 {
            assert(spec_extends_parent(g, w[t]) == Ok::<Option<HolonReference>, ErrorView>(Some(w[t + 1])));
            assert(w[t + 1] == v[m]);
        } else {
            assert(w.last() == w[t]);
        }
    }
}


proof fn lemma_walk_from_ends(g: Seq<HolonView>, cur: HolonReference, visited: Seq<HolonReference>, fuel: nat)
    requires
        visited.no_duplicates(),
        forall|i: int| 0 <= i < visited.len() ==> holon_of(g, #[trigger] visited[i]).is_some(),
        !visited.contains(cur),
        fuel == g.len() + 1 - visited.len(),
    ensures
        walk_from(g, cur, visited, fuel).0.len() >= 1,
        (visited + walk_from(g, cur, visited, fuel).0).no_duplicates(),
        walk_from(g, cur, visited, fuel).1 is None ==> spec_extends_parent(
            g,
            walk_from(g, cur, visited, fuel).0.last(),
        ) == Ok::<Option<HolonReference>, ErrorView>(None),
    decreases fuel,
{
    lemma_distinct_valid_bound(g, visited);
    let w = walk_from(g, cur, visited, fuel);
    let v2 = visited.push(cur);
    assert forall|i: int, j: int| 0 <= i < v2.len() && 0 <= j < v2.len() && i != j implies v2[i] != v2[j] by {
        if i < visited.len() && j < visited.len() {
        } else if i == visited.len() {
            assert(visited.contains(v2[j]));
        } else {
            assert(visited.contains(v2[i]));
        }
    }
    match spec_extends_parent(g, cur) {
        Ok(Some(p)) => {
            if v2.contains(p) {
                assert(visited + w.0 =~= v2);
            } else {
                assert(holon_of(g, cur).is_some());
                assert forall|i: int| 0 <= i < v2.len() implies holon_of(g, #[trigger] v2[i]).is_some() by {
                    if i < visited.len() {
                        assert(v2[i] == visited[i]);
                    }
                }
                lemma_distinct_valid_bound(g, v2);
                let rest = walk_from(g, p, v2, (fuel - 1) as nat);
                lemma_walk_from_ends(g, p, v2, (fuel - 1) as nat);
                assert(w.0 == seq![cur] + rest.0);
                assert(w.0.last() == rest.0.last());
                assert(visited + w.0 =~= v2 + rest.0);
            }
        },
        _ => {
            assert(w.0 == seq![cur]);
            assert(visited + w.0 =~= v2);
        },
    }
}

/// A full lineage read by `ancestors` starts with the start, follows single
/// `Extends` parents, ends at a holon without a parent, and repeats no holon.
pub proof fn law_ancestors_shape(g: Seq<HolonView>, start: HolonReference)
    ensures
        spec_ancestors(g, start) matches Ok(v) ==> {
            &&& v.len() >= 1
            &&& v[0] == start
            &&& forall|i: int|
                0 <= i < v.len() - 1 ==> spec_extends_parent(g, #[trigger] v[i]) == Ok::<
                    Option<HolonReference>,
                    ErrorView,
                >(Some(v[i + 1]))
            &&& spec_extends_parent(g, v.last()) == Ok::<Option<HolonReference>, ErrorView>(None)
            &&& v.no_duplicates()
        },
{
    law_walk_follows_parents(g, start);
    lemma_walk_from_ends(g, start, Seq::empty(), (g.len() + 1) as nat);
    assert(Seq::<HolonReference>::empty() + spec_walk(g, start).0 =~= spec_walk(g, start).0);
}


proof fn lemma_walk_from_error(g: Seq<HolonView>, cur: HolonReference, visited: Seq<HolonReference>, fuel: nat)
    requires
        fuel > 0,
        visited.no_duplicates(),
        forall|i: int| 0 <= i < visited.len() ==> holon_of(g, #[trigger] visited[i]).is_some(),
        !visited.contains(cur),
        fuel == g.len() + 1 - visited.len(),
    ensures
        walk_from(g, cur, visited, fuel).1 matches Some(e) ==> {
            let w = walk_from(g, cur, visited, fuel).0;
            ||| spec_extends_parent(g, w.last()) == Err::<Option<HolonReference>, ErrorView>(e)
            ||| (spec_extends_parent(g, w.last()) matches Ok(Some(p)) && e == ErrorView::CyclicExtends {
                descriptor: p,
            } && (visited + w).contains(p))
        },
    decreases fuel,
{
    lemma_distinct_valid_bound(g, visited);
    let w = walk_from(g, cur, visited, fuel);
    let v2 = visited.push(cur);
    match spec_extends_parent(g, cur) {
        Ok(Some(p)) => {
            if v2.contains(p) {
                assert(visited + w.0 =~= v2);
            } else {
                assert(holon_of(g, cur).is_some());
                assert forall|i: int, j: int| 0 <= i < v2.len() && 0 <= j < v2.len() && i != j implies v2[i]
                    != v2[j] by {
                    if i < visited.len() && j < visited.len() {
                    } else if i == visited.len() {
                        assert(visited.contains(v2[j]));
                    } else {
                        assert(visited.contains(v2[i]));
                    }
                }
                assert forall|i: int| 0 <= i < v2.len() implies holon_of(g, #[trigger] v2[i]).is_some() by {
                    if i < visited.len() {
                        assert(v2[i] == visited[i]);
                    }
                }
                lemma_distinct_valid_bound(g, v2);
                let rest = walk_from(g, p, v2, (fuel - 1) as nat);
                lemma_walk_from_error(g, p, v2, (fuel - 1) as nat);
                lemma_walk_from_ends(g, p, v2, (fuel - 1) as nat);
                assert(w.0 == seq![cur] + rest.0);
                assert(w.0.last() == rest.0.last());
                assert(visited + w.0 =~= v2 + rest.0);
            }
        },
        _ => {
            assert(w.0 == seq![cur]);
        },
    }
}

/// `ancestors` fails with `MultipleExtends` exactly at a reached holon with
/// several `Extends` targets (the count given is their number), and with
/// `CyclicExtends` when the last reached holon's single parent was already
/// reached (the error names that parent).
pub proof fn law_ancestors_failures(g: Seq<HolonView>, start: HolonReference)
    ensures
        spec_ancestors(g, start) matches Err(ErrorView::MultipleExtends { descriptor, count }) ==> {
            &&& descriptor == spec_walk(g, start).0.last()
            &&& spec_walk(g, start).0.contains(descriptor)
            &&& spec_related(g, descriptor, CoreRelationshipTypeName::Extends.spec_name()) matches Ok(m)
            &&& m.len() >= 2 && count == m.len() as usize
        },
        spec_ancestors(g, start) matches Err(ErrorView::CyclicExtends { descriptor }) ==> {
            &&& spec_extends_parent(g, spec_walk(g, start).0.last()) == Ok::<Option<HolonReference>, ErrorView>(
                Some(descriptor),
            )
            &&& spec_walk(g, start).0.contains(descriptor)
        },
{
    let fuel = (g.len() + 1) as nat;
    lemma_walk_from_error(g, start, Seq::empty(), fuel);
    lemma_walk_from_ends(g, start, Seq::empty(), fuel);
    let w = spec_walk(g, start).0;
    assert(Seq::<HolonReference>::empty() + w =~= w);
    assert(w.contains(w.last())) by {
        assert(w[w.len() - 1] == w.last());
    }
}

} // verus!
