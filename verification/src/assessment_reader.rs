//! Explicit content selection for descriptor assessment. Ordinary reads are
//! unchanged; an assessment of pending changes reads each definition through a
//! reader that selects the content that is authoritative for it.
use crate::error::{ErrorView, HolonError};
use crate::graph::{holon_of, updates_valid, HolonGraph, HolonReference, HolonView};
use vstd::prelude::*;
use vstd::string::*;

verus! {

/// The definition a reference denotes while pending changes are assessed: a
/// saved holon (read directly, or through a staged update of it), or a holon
/// that has no saved predecessor.
#[derive(Clone, Copy, Debug, PartialEq, Eq, Structural)]
pub enum ProspectiveIdentity {
    Saved(usize),
    Local(HolonReference),
}

/// The saved slot updated by the staged slot `slot`, looking from entry `i` on.
pub open spec fn update_source_from(updates: Seq<(usize, usize)>, slot: usize, i: int) -> Option<usize>
    decreases updates.len() - i,
{
    if 0 <= i < updates.len() {
        if updates[i].0 == slot {
            Some(updates[i].1)
        } else {
            update_source_from(updates, slot, i + 1)
        }
    } else {
        None
    }
}

/// The prospective identity of `r` under the update ancestry `updates`.
pub open spec fn spec_identity(updates: Seq<(usize, usize)>, r: HolonReference) -> ProspectiveIdentity {
    match r {
        HolonReference::Smart(s) => ProspectiveIdentity::Saved(s),
        HolonReference::Staged(i) => match update_source_from(updates, i, 0) {
            Some(s) => ProspectiveIdentity::Saved(s),
            None => ProspectiveIdentity::Local(r),
        },
        HolonReference::Transient(_) => ProspectiveIdentity::Local(r),
    }
}

fn update_source(updates: &Vec<(usize, usize)>, slot: usize) -> (r: Option<usize>)
    ensures
        r == update_source_from(updates@, slot, 0),
{
    let mut i: usize = 0;
    while i < updates.len()
        invariant
            i <= updates.len(),
            update_source_from(updates@, slot, 0) == update_source_from(updates@, slot, i as int),
        decreases updates.len() - i,
    {
        if updates[i].0 == slot {
            return Some(updates[i].1);
        }
        i = i + 1;
    }
    None
}

pub(crate) fn identity_under(updates: &Vec<(usize, usize)>, r: HolonReference) -> (id: ProspectiveIdentity)
    ensures
        id == spec_identity(updates@, r),
{
    match r {
        HolonReference::Smart(s) => ProspectiveIdentity::Saved(s),
        HolonReference::Staged(i) => match update_source(updates, i) {
            Some(s) => ProspectiveIdentity::Saved(s),
            None => ProspectiveIdentity::Local(r),
        },
        HolonReference::Transient(_) => ProspectiveIdentity::Local(r),
    }
}

/// Resolves the prospective identity of a reference usable in `g`.
pub fn prospective_identity(g: &HolonGraph, r: HolonReference) -> (res: Result<ProspectiveIdentity, HolonError>)
    ensures
        match res {
            Ok(id) => holon_of(g@, r) is Some && id == spec_identity(g.spec_updates(), r),
            Err(e) => holon_of(g@, r) is None && e@ == ErrorView::InvalidHolonReference(r),
        },
{
    if !g.is_valid(r) {
        return Err(HolonError::InvalidHolonReference(r));
    }
    let updates = g.updates();
    Ok(identity_under(&updates, r))
}

/// Whether a definition has authoritative content in this commit attempt.
#[derive(Clone, Debug)]
pub enum ProspectiveSelection {
    /// No live replacement: saved content supplies updates; creates keep their own content.
    Saved,
    /// The single live staged replacement supplies content.
    Replaced(HolonReference),
    /// No candidate may be selected, even when their content is identical.
    Contested(Vec<HolonReference>),
}

/// The mathematical content of a `ProspectiveSelection`.
pub enum SelectionView {
    Saved,
    Replaced(HolonReference),
    Contested(Seq<HolonReference>),
}

impl View for ProspectiveSelection {
    type V = SelectionView;

    open spec fn view(&self) -> SelectionView {
        match self {
            ProspectiveSelection::Saved => SelectionView::Saved,
            ProspectiveSelection::Replaced(r) => SelectionView::Replaced(*r),
            ProspectiveSelection::Contested(v) => SelectionView::Contested(v@),
        }
    }
}

/// A blocked content read, distinct from an operational failure.
#[derive(Clone, Debug)]
pub enum AssessmentReadError {
    /// Several live staged replacements compete for one saved definition; the
    /// dependent check must be reported as unresolved.
    Contested { source: HolonReference, candidates: Vec<HolonReference> },
    /// The loaded schema lacks an anchor required by the active validation.
    SchemaIncompatible { missing_anchor: String },
    /// Assessment cannot reliably finish.
    Operational(HolonError),
}

/// The mathematical content of an `AssessmentReadError`.
pub enum ReadErrorView {
    Contested { source: HolonReference, candidates: Seq<HolonReference> },
    SchemaIncompatible { missing_anchor: Seq<char> },
    Operational(ErrorView),
}

impl View for AssessmentReadError {
    type V = ReadErrorView;

    open spec fn view(&self) -> ReadErrorView {
        match self {
            AssessmentReadError::Contested { source, candidates } => ReadErrorView::Contested {
                source: *source,
                candidates: candidates@,
            },
            AssessmentReadError::SchemaIncompatible { missing_anchor } => ReadErrorView::SchemaIncompatible {
                missing_anchor: missing_anchor@,
            },
            AssessmentReadError::Operational(e) => ReadErrorView::Operational(e@),
        }
    }
}

impl AssessmentReadError {
    /// The runtime error, when this is an operational failure; contention has none.
    pub fn operational_error(&self) -> (r: Option<&HolonError>)
        ensures
            match self@ {
                ReadErrorView::Operational(v) => r is Some && r->0@ == v,
                _ => r is None,
            },
    {
        match self {
            AssessmentReadError::Operational(e) => Some(e),
            _ => None,
        }
    }
}

impl From<HolonError> for AssessmentReadError {
    fn from(error: HolonError) -> (r: Self) {
        AssessmentReadError::Operational(error)
    }
}

impl vstd::std_specs::convert::FromSpecImpl<HolonError> for AssessmentReadError {
    open spec fn obeys_from_spec() -> bool {
        true
    }

    open spec fn from_spec(v: HolonError) -> Self {
        AssessmentReadError::Operational(v)
    }
}

/// The view of a read result whose value has a deep view.
pub open spec fn read_view<T: DeepView>(r: Result<T, AssessmentReadError>) -> Result<T::V, ReadErrorView> {
    match r {
        Ok(v) => Ok(v.deep_view()),
        Err(e) => Err(e@),
    }
}

/// An operational failure of the graph read, as a read error.
pub open spec fn operational<T>(r: Result<T, ErrorView>) -> Result<T, ReadErrorView> {
    match r {
        Ok(v) => Ok(v),
        Err(e) => Err(ReadErrorView::Operational(e)),
    }
}

/// Read selection used by descriptor traversal: a reader maps each reference
/// to the reference whose content is authoritative for it, and never keeps a
/// second graph.
pub trait DescriptorReader {
    /// The reference whose content `r` reads, or why it cannot be read; a
    /// reader that does not say otherwise reads each reference's own content.
    open spec fn spec_select(&self, g: Seq<HolonView>, r: HolonReference) -> Result<HolonReference, ReadErrorView> {
        Ok(r)
    }

    /// Selects authoritative content without changing the supplied reference.
    fn select(&self, g: &HolonGraph, r: HolonReference) -> (res: Result<HolonReference, AssessmentReadError>)
        ensures
            read_view(res) == self.spec_select(g@, r),
    ;
}

impl<R: DescriptorReader> DescriptorReader for &R {
    open spec fn spec_select(&self, g: Seq<HolonView>, r: HolonReference) -> Result<HolonReference, ReadErrorView> {
        (**self).spec_select(g, r)
    }

    fn select(&self, g: &HolonGraph, r: HolonReference) -> (res: Result<HolonReference, AssessmentReadError>) {
        (**self).select(g, r)
    }
}

/// Ordinary reference semantics, outside the assessment of pending changes.
#[derive(Clone, Copy, Debug)]
pub struct CurrentDescriptorReader;

impl DescriptorReader for CurrentDescriptorReader {
    open spec fn spec_select(&self, g: Seq<HolonView>, r: HolonReference) -> Result<HolonReference, ReadErrorView> {
        Ok(r)
    }

    fn select(&self, g: &HolonGraph, r: HolonReference) -> (res: Result<HolonReference, AssessmentReadError>) {
        Ok(r)
    }
}

/// The live staged replacements of one saved definition.
struct ReplacementGroup {
    source: usize,
    members: Vec<HolonReference>,
}

/// One read-only replacement index over the candidates of one commit attempt,
/// discarded before the graph changes. It does not stage anything and does not
/// change saved references.
pub struct ProspectiveDescriptorReader {
    updates: Vec<(usize, usize)>,
    groups: Vec<ReplacementGroup>,
}

/// The groups as `(saved slot, live replacements)` pairs.
spec fn groups_view(groups: Seq<ReplacementGroup>) -> Seq<(usize, Seq<HolonReference>)> {
    groups.map_values(|r: ReplacementGroup| (r.source, r.members@))
}

/// The position of the group of `source`, or -1.
pub open spec fn group_index(groups: Seq<(usize, Seq<HolonReference>)>, source: usize, i: int) -> int
    decreases groups.len() - i,
{
    if 0 <= i < groups.len() {
        if groups[i].0 == source {
            i
        } else {
            group_index(groups, source, i + 1)
        }
    } else {
        -1
    }
}

/// The live replacements of `source` (none when it has no group).
pub open spec fn group_members(groups: Seq<(usize, Seq<HolonReference>)>, source: usize) -> Seq<HolonReference> {
    let i = group_index(groups, source, 0);
    if i >= 0 {
        groups[i].1
    } else {
        Seq::empty()
    }
}

/// Adds the live candidate `c`, an update of `source`, to the groups.
pub open spec fn add_to_group(groups: Seq<(usize, Seq<HolonReference>)>, source: usize, c: HolonReference) -> Seq<
    (usize, Seq<HolonReference>),
> {
    let i = group_index(groups, source, 0);
    if i >= 0 {
        groups.update(i, (source, groups[i].1.push(c)))
    } else {
        groups.push((source, seq![c]))
    }
}

/// Groups `cands[i..]`: each candidate must be usable in `g`; repeated handles,
/// finished candidates and candidates without a saved predecessor are left out.
pub open spec fn groups_from(
    g: Seq<HolonView>,
    updates: Seq<(usize, usize)>,
    finished: Seq<usize>,
    cands: Seq<HolonReference>,
    i: int,
    seen: Seq<HolonReference>,
    groups: Seq<(usize, Seq<HolonReference>)>,
) -> Result<Seq<(usize, Seq<HolonReference>)>, ErrorView>
    decreases cands.len() - i,
{
    if 0 <= i < cands.len() {
        let c = cands[i];
        if holon_of(g, c) is None {
            Err(ErrorView::InvalidHolonReference(c))
        } else if !(c is Staged) || finished.contains(c.slot()) || seen.contains(c) {
            groups_from(g, updates, finished, cands, i + 1, seen, groups)
        } else {
            match spec_identity(updates, c) {
                ProspectiveIdentity::Saved(s) => groups_from(
                    g,
                    updates,
                    finished,
                    cands,
                    i + 1,
                    seen.push(c),
                    add_to_group(groups, s, c),
                ),
                ProspectiveIdentity::Local(_) => groups_from(g, updates, finished, cands, i + 1, seen.push(c), groups),
            }
        }
    } else {
        Ok(groups)
    }
}

/// The selection of the definition `r` denotes, given the replacement groups.
pub open spec fn spec_selection(
    updates: Seq<(usize, usize)>,
    groups: Seq<(usize, Seq<HolonReference>)>,
    r: HolonReference,
) -> SelectionView {
    match spec_identity(updates, r) {
        ProspectiveIdentity::Saved(s) => {
            let ms = group_members(groups, s);
            if ms.len() == 0 {
                SelectionView::Saved
            } else if ms.len() == 1 {
                SelectionView::Replaced(ms[0])
            } else {
                SelectionView::Contested(ms)
            }
        },
        ProspectiveIdentity::Local(_) => SelectionView::Saved,
    }
}

/// The reference whose content `r` reads: the single live replacement of its
/// saved definition; the saved holon itself for a finished update without a
/// live replacement; otherwise `r`. Competing replacements block the read.
pub open spec fn spec_prospective_select(
    updates: Seq<(usize, usize)>,
    groups: Seq<(usize, Seq<HolonReference>)>,
    r: HolonReference,
) -> Result<HolonReference, ReadErrorView> {
    match spec_identity(updates, r) {
        ProspectiveIdentity::Saved(s) => {
            let ms = group_members(groups, s);
            if ms.len() == 1 {
                Ok(ms[0])
            } else if ms.len() > 1 {
                Err(ReadErrorView::Contested { source: HolonReference::Smart(s), candidates: ms })
            } else if r is Staged {
                Ok(HolonReference::Smart(s))
            } else {
                Ok(r)
            }
        },
        ProspectiveIdentity::Local(_) => Ok(r),
    }
}

/// Competing groups among the first `n` groups, as (saved definition, competitors).
pub open spec fn contested_upto(groups: Seq<(usize, Seq<HolonReference>)>, n: int) -> Seq<
    (HolonReference, Seq<HolonReference>),
>
    decreases n,
{
    if n <= 0 {
        Seq::empty()
    } else {
        let prev = contested_upto(groups, n - 1);
        if groups[n - 1].1.len() > 1 {
            prev.push((HolonReference::Smart(groups[n - 1].0), groups[n - 1].1))
        } else {
            prev
        }
    }
}

/// The view of reference/competitor pairs.
pub open spec fn pairs_view(v: Seq<(HolonReference, Vec<HolonReference>)>) -> Seq<(HolonReference, Seq<HolonReference>)> {
    v.map_values(|p: (HolonReference, Vec<HolonReference>)| (p.0, p.1@))
}

fn find_group(groups: &Vec<ReplacementGroup>, source: usize) -> (r: Option<usize>)
    ensures
        match r {
            Some(i) => i < groups@.len() && group_index(groups_view(groups@), source, 0) == i as int
                && groups@[i as int].source == source,
            None => group_index(groups_view(groups@), source, 0) == -1,
        },
{
    let ghost gv = groups_view(groups@);
    let mut i: usize = 0;
    while i < groups.len()
        invariant
            i <= groups.len(),
            gv == groups_view(groups@),
            gv.len() == groups@.len(),
            group_index(gv, source, 0) == group_index(gv, source, i as int),
        decreases groups.len() - i,
    {
        assert(gv[i as int].0 == groups@[i as int].source);
        if groups[i].source == source {
            return Some(i);
        }
        i = i + 1;
    }
    None
}

fn copy_refs(v: &Vec<HolonReference>) -> (r: Vec<HolonReference>)
    ensures
        r@ == v@,
{
    let mut r: Vec<HolonReference> = Vec::new();
    let mut i: usize = 0;
    while i < v.len()
        invariant
            i <= v.len(),
            r@ == v@.subrange(0, i as int),
        decreases v.len() - i,
    {
        r.push(v[i]);
        i = i + 1;
        assert(r@ =~= v@.subrange(0, i as int));
    }
    assert(r@ =~= v@);
    r
}

fn contains_ref(v: &Vec<HolonReference>, x: HolonReference) -> (b: bool)
    ensures
        b == v@.contains(x),
{
    let mut i: usize = 0;
    while i < v.len()
        invariant
            i <= v.len(),
            forall|j: int| 0 <= j < i ==> v@[j] != x,
        decreases v.len() - i,
    {
        if v[i] == x {
            return true;
        }
        i = i + 1;
    }
    false
}

impl ProspectiveDescriptorReader {
    /// The replacement groups, oldest first.
    pub closed spec fn spec_groups(&self) -> Seq<(usize, Seq<HolonReference>)> {
        groups_view(self.groups@)
    }

    /// The update ancestry the reader was built over.
    pub closed spec fn spec_ancestry(&self) -> Seq<(usize, usize)> {
        self.updates@
    }

    /// Groups the live candidates by the saved definition they update. Repeated
    /// handles do not create competitors; committed or abandoned candidates and
    /// candidates without a saved predecessor are left out. No content is read.
    pub fn new(g: &HolonGraph, candidates: &Vec<HolonReference>) -> (res: Result<Self, HolonError>)
        ensures
            match groups_from(g@, g.spec_updates(), g.spec_finished(), candidates@, 0, Seq::empty(), Seq::empty()) {
                Ok(gs) => res matches Ok(r) && r.spec_groups() == gs && r.spec_ancestry() == g.spec_updates(),
                Err(e) => res matches Err(x) && x@ == e,
            },
    {
        let updates = g.updates();
        let mut groups: Vec<ReplacementGroup> = Vec::new();
        let mut seen: Vec<HolonReference> = Vec::new();
        let mut i: usize = 0;
        assert(groups_view(groups@) =~= Seq::<(usize, Seq<HolonReference>)>::empty());
        while i < candidates.len()
            invariant
                i <= candidates.len(),
                updates@ == g.spec_updates(),
                groups_from(g@, g.spec_updates(), g.spec_finished(), candidates@, 0, Seq::empty(), Seq::empty())
                    == groups_from(
                    g@,
                    g.spec_updates(),
                    g.spec_finished(),
                    candidates@,
                    i as int,
                    seen@,
                    groups_view(groups@),
                ),
            decreases candidates.len() - i,
        {
            let c = candidates[i];
            if !g.is_valid(c) {
                return Err(HolonError::InvalidHolonReference(c));
            }
            let staged = match c {
                HolonReference::Staged(_) => true,
                _ => false,
            };
            if staged && !g.is_finished(c.index()) && !contains_ref(&seen, c) {
                let id = identity_under(&updates, c);
                seen.push(c);
                if let ProspectiveIdentity::Saved(s) = id {
                    let ghost before = groups_view(groups@);
                    match find_group(&groups, s) {
                        Some(k) => {
                            let ghost old_groups = groups@;
                            let mut group = groups.remove(k);
                            assert(group == old_groups[k as int]);
                            group.members.push(c);
                            groups.insert(k, group);
                            assert(groups@ =~= old_groups.update(k as int, group));
                            assert(groups_view(groups@) =~= before.update(k as int, (s, before[k as int].1.push(c))));
                        },
                        None => {
                            let mut members: Vec<HolonReference> = Vec::new();
                            members.push(c);
                            assert(members@ =~= seq![c]);
                            groups.push(ReplacementGroup { source: s, members });
                            assert(groups_view(groups@) =~= before.push((s, seq![c])));
                        },
                    }
                }
            }
            i = i + 1;
        }
        Ok(ProspectiveDescriptorReader { updates, groups })
    }

    /// The selection of the definition `r` denotes; identity resolution succeeds
    /// even when content selection is contested.
    pub fn selection(&self, g: &HolonGraph, r: HolonReference) -> (res: Result<ProspectiveSelection, HolonError>)
        ensures
            match res {
                Ok(s) => holon_of(g@, r) is Some && s@ == spec_selection(self.spec_ancestry(), self.spec_groups(), r),
                Err(e) => holon_of(g@, r) is None && e@ == ErrorView::InvalidHolonReference(r),
            },
    {
        if !g.is_valid(r) {
            return Err(HolonError::InvalidHolonReference(r));
        }
        match identity_under(&self.updates, r) {
            ProspectiveIdentity::Saved(s) => match find_group(&self.groups, s) {
                None => Ok(ProspectiveSelection::Saved),
                Some(k) => {
                    let ghost gv = self.spec_groups();
                    assert(gv[k as int].1 == self.groups@[k as int].members@);
                    let members = &self.groups[k].members;
                    if members.len() == 0 {
                        Ok(ProspectiveSelection::Saved)
                    } else if members.len() == 1 {
                        Ok(ProspectiveSelection::Replaced(members[0]))
                    } else {
                        Ok(ProspectiveSelection::Contested(copy_refs(members)))
                    }
                },
            },
            ProspectiveIdentity::Local(_) => Ok(ProspectiveSelection::Saved),
        }
    }

    /// The groups with competing replacements, as the saved definition and its
    /// competitors, in the order the groups were formed.
    pub fn contested_groups(&self) -> (res: Vec<(HolonReference, Vec<HolonReference>)>)
        ensures
            pairs_view(res@) == contested_upto(self.spec_groups(), self.spec_groups().len() as int),
    {
        let ghost gv = self.spec_groups();
        let mut out: Vec<(HolonReference, Vec<HolonReference>)> = Vec::new();
        let mut i: usize = 0;
        assert(pairs_view(out@) =~= contested_upto(gv, 0));
        while i < self.groups.len()
            invariant
                i <= self.groups.len(),
                gv == self.spec_groups(),
                gv.len() == self.groups@.len(),
                pairs_view(out@) == contested_upto(gv, i as int),
            decreases self.groups.len() - i,
        {
            assert(gv[i as int] == (self.groups@[i as int].source, self.groups@[i as int].members@));
            if self.groups[i].members.len() > 1 {
                let ghost before = out@;
                let entry = (HolonReference::Smart(self.groups[i].source), copy_refs(&self.groups[i].members));
                out.push(entry);
                assert(pairs_view(out@) =~= pairs_view(before).push((entry.0, entry.1@)));
            }
            i = i + 1;
        }
        out
    }

    /// The runtime error carried by a read error, if any; contention has none.
    pub fn operational_error(error: &AssessmentReadError) -> (r: Option<&HolonError>)
        ensures
            match error@ {
                ReadErrorView::Operational(v) => r is Some && r->0@ == v,
                _ => r is None,
            },
    {
        error.operational_error()
    }
}

impl DescriptorReader for ProspectiveDescriptorReader {
    open spec fn spec_select(&self, g: Seq<HolonView>, r: HolonReference) -> Result<HolonReference, ReadErrorView> {
        if holon_of(g, r) is None {
            Err(ReadErrorView::Operational(ErrorView::InvalidHolonReference(r)))
        } else {
            spec_prospective_select(self.spec_ancestry(), self.spec_groups(), r)
        }
    }

    fn select(&self, g: &HolonGraph, r: HolonReference) -> (res: Result<HolonReference, AssessmentReadError>) {
        if !g.is_valid(r) {
            return Err(AssessmentReadError::Operational(HolonError::InvalidHolonReference(r)));
        }
        match identity_under(&self.updates, r) {
            ProspectiveIdentity::Saved(s) => {
                let (len, first) = match find_group(&self.groups, s) {
                    None => (0, None),
                    Some(k) => {
                        let ghost gv = self.spec_groups();
                        assert(gv[k as int].1 == self.groups@[k as int].members@);
                        let members = &self.groups[k].members;
                        if members.len() == 1 {
                            (1, Some(members[0]))
                        } else if members.len() > 1 {
                            return Err(
                                AssessmentReadError::Contested {
                                    source: HolonReference::Smart(s),
                                    candidates: copy_refs(members),
                                },
                            );
                        } else {
                            (0, None)
                        }
                    },
                };
                match first {
                    Some(single) => Ok(single),
                    None => match r {
                        HolonReference::Staged(_) => Ok(HolonReference::Smart(s)),
                        _ => Ok(r),
                    },
                }
            },
            ProspectiveIdentity::Local(_) => Ok(r),
        }
    }
}


/// Every member of every group is a usable staged holon updating the group's source.
pub open spec fn groups_valid(
    g: Seq<HolonView>,
    updates: Seq<(usize, usize)>,
    groups: Seq<(usize, Seq<HolonReference>)>,
) -> bool {
    forall|i: int, k: int|
        0 <= i < groups.len() && 0 <= k < groups[i].1.len() ==> {
            let m = #[trigger] groups[i].1[k];
            &&& holon_of(g, m) is Some
            &&& m is Staged
            &&& spec_identity(updates, m) == ProspectiveIdentity::Saved(groups[i].0)
        }
}

proof fn lemma_update_source_valid(g: Seq<HolonView>, updates: Seq<(usize, usize)>, slot: usize, i: int)
    requires
        updates_valid(g, updates),
        0 <= i,
        update_source_from(updates, slot, i) is Some,
    ensures
        holon_of(g, HolonReference::Smart(update_source_from(updates, slot, i)->0)) is Some,
    decreases updates.len() - i,
{
    if i < updates.len() && updates[i].0 != slot {
        lemma_update_source_valid(g, updates, slot, i + 1);
    }
}

proof fn lemma_group_index(groups: Seq<(usize, Seq<HolonReference>)>, source: usize, i: int)
    requires
        0 <= i,
        group_index(groups, source, i) >= 0,
    ensures
        group_index(groups, source, i) < groups.len(),
        groups[group_index(groups, source, i)].0 == source,
    decreases groups.len() - i,
{
    if i < groups.len() && groups[i].0 != source {
        lemma_group_index(groups, source, i + 1);
    }
}

proof fn lemma_add_to_group_valid(
    g: Seq<HolonView>,
    updates: Seq<(usize, usize)>,
    groups: Seq<(usize, Seq<HolonReference>)>,
    source: usize,
    c: HolonReference,
)
    requires
        groups_valid(g, updates, groups),
        holon_of(g, c) is Some,
        c is Staged,
        spec_identity(updates, c) == ProspectiveIdentity::Saved(source),
    ensures
        groups_valid(g, updates, add_to_group(groups, source, c)),
{
    let i = group_index(groups, source, 0);
    if i >= 0 {
        lemma_group_index(groups, source, 0);
    }
    let out = add_to_group(groups, source, c);
    assert forall|a: int, k: int| 0 <= a < out.len() && 0 <= k < out[a].1.len() implies {
        let m = #[trigger] out[a].1[k];
        &&& holon_of(g, m) is Some
        &&& m is Staged
        &&& spec_identity(updates, m) == ProspectiveIdentity::Saved(out[a].0)
    } by {
        if i >= 0 && a == i && k == groups[i].1.len() {
        } else if i < 0 && a == groups.len() {
        } else {
            assert(out[a].1[k] == groups[a].1[k]);
        }
    }
}

proof fn lemma_groups_from_valid(
    g: Seq<HolonView>,
    updates: Seq<(usize, usize)>,
    finished: Seq<usize>,
    cands: Seq<HolonReference>,
    i: int,
    seen: Seq<HolonReference>,
    groups: Seq<(usize, Seq<HolonReference>)>,
)
    requires
        0 <= i,
        groups_valid(g, updates, groups),
        groups_from(g, updates, finished, cands, i, seen, groups) is Ok,
    ensures
        groups_valid(g, updates, groups_from(g, updates, finished, cands, i, seen, groups)->Ok_0),
    decreases cands.len() - i,
{
    if i < cands.len() {
        let c = cands[i];
        if holon_of(g, c) is None {
        } else if !(c is Staged) || finished.contains(c.slot()) || seen.contains(c) {
            lemma_groups_from_valid(g, updates, finished, cands, i + 1, seen, groups);
        } else {
            match spec_identity(updates, c) {
                ProspectiveIdentity::Saved(s) => {
                    lemma_add_to_group_valid(g, updates, groups, s, c);
                    lemma_groups_from_valid(g, updates, finished, cands, i + 1, seen.push(c), add_to_group(groups, s, c));
                },
                ProspectiveIdentity::Local(_) => {
                    lemma_groups_from_valid(g, updates, finished, cands, i + 1, seen.push(c), groups);
                },
            }
        }
    }
}

/// Selection through a reader built over `g` is stable: the reference a read
/// selects is usable in `g` and selects itself, so a walk over selected
/// references meets each definition under one handle.
pub proof fn law_prospective_selection_is_stable(
    reader: ProspectiveDescriptorReader,
    g: Seq<HolonView>,
    finished: Seq<usize>,
    candidates: Seq<HolonReference>,
    r: HolonReference,
)
    requires
        updates_valid(g, reader.spec_ancestry()),
        groups_from(g, reader.spec_ancestry(), finished, candidates, 0, Seq::empty(), Seq::empty())
            == Ok::<_, ErrorView>(reader.spec_groups()),
        reader.spec_select(g, r) is Ok,
    ensures
        holon_of(g, reader.spec_select(g, r)->Ok_0) is Some,
        reader.spec_select(g, reader.spec_select(g, r)->Ok_0) == reader.spec_select(g, r),
{
    let updates = reader.spec_ancestry();
    let groups = reader.spec_groups();
    assert(groups_valid(g, updates, Seq::empty()));
    lemma_groups_from_valid(g, updates, finished, candidates, 0, Seq::empty(), Seq::empty());
    match spec_identity(updates, r) {
        ProspectiveIdentity::Saved(s) => {
            let idx = group_index(groups, s, 0);
            if idx >= 0 {
                lemma_group_index(groups, s, 0);
            }
            let ms = group_members(groups, s);
            if ms.len() == 1 {
                assert(ms[0] == groups[idx].1[0]);
            } else if r is Staged {
                lemma_update_source_valid(g, updates, r.slot(), 0);
            }
        },
        ProspectiveIdentity::Local(_) => {},
    }
}


proof fn lemma_repeated_candidate(
    g: Seq<HolonView>,
    updates: Seq<(usize, usize)>,
    finished: Seq<usize>,
    cands: Seq<HolonReference>,
    c: HolonReference,
    i: int,
    seen: Seq<HolonReference>,
    groups: Seq<(usize, Seq<HolonReference>)>,
)
    requires
        0 <= i <= cands.len(),
        cands.subrange(i, cands.len() as int).contains(c) || (holon_of(g, c) is Some && (!(c is Staged)
            || finished.contains(c.slot()) || seen.contains(c))),
    ensures
        groups_from(g, updates, finished, cands.push(c), i, seen, groups) == groups_from(
            g,
            updates,
            finished,
            cands,
            i,
            seen,
            groups,
        ),
    decreases cands.len() - i,
{
    let cs2 = cands.push(c);
    if i == cands.len() {
        assert(cands.subrange(i, cands.len() as int) =~= Seq::<HolonReference>::empty());
        assert(cs2[i] == c);
        assert(groups_from(g, updates, finished, cs2, i + 1, seen, groups) == Ok::<_, ErrorView>(groups));
    } else {
        let d = cands[i];
        assert(cs2[i] == d);
        if cands.subrange(i, cands.len() as int).contains(c) && d != c {
            let k = choose|k: int| 0 <= k < cands.subrange(i, cands.len() as int).len() && cands.subrange(
                i,
                cands.len() as int,
            )[k] == c;
            assert(cands.subrange(i + 1, cands.len() as int)[k - 1] == c);
        }
        if holon_of(g, d) is None {
        } else if !(d is Staged) || finished.contains(d.slot()) || seen.contains(d) {
            lemma_repeated_candidate(g, updates, finished, cands, c, i + 1, seen, groups);
        } else {
            let seen2 = seen.push(d);
            assert(seen.contains(c) ==> seen2.contains(c)) by {
                if seen.contains(c) {
                    let k = choose|k: int| 0 <= k < seen.len() && seen[k] == c;
                    assert(seen2[k] == c);
                }
            }
            assert(d == c ==> seen2.contains(c)) by {
                assert(seen2[seen.len() as int] == d);
            }
            match spec_identity(updates, d) {
                ProspectiveIdentity::Saved(s) => {
                    lemma_repeated_candidate(g, updates, finished, cands, c, i + 1, seen2, add_to_group(groups, s, d));
                },
                ProspectiveIdentity::Local(_) => {
                    lemma_repeated_candidate(g, updates, finished, cands, c, i + 1, seen2, groups);
                },
            }
        }
    }
}

/// Repeated handles do not create competitors: repeating a candidate that
/// is already listed leaves the replacement groups, or the read error, as they were.
pub proof fn law_repeated_candidates_do_not_compete(
    g: Seq<HolonView>,
    updates: Seq<(usize, usize)>,
    finished: Seq<usize>,
    candidates: Seq<HolonReference>,
    c: HolonReference,
)
    requires
        candidates.contains(c),
    ensures
        groups_from(g, updates, finished, candidates.push(c), 0, Seq::empty(), Seq::empty()) == groups_from(
            g,
            updates,
            finished,
            candidates,
            0,
            Seq::empty(),
            Seq::empty(),
        ),
{
    assert(candidates.subrange(0, candidates.len() as int) =~= candidates);
    lemma_repeated_candidate(g, updates, finished, candidates, c, 0, Seq::empty(), Seq::empty());
}

} // verus!
