//! An in-memory holon graph: holons with named properties and named relationships.
//!
//! Every descriptor read goes through this graph. A `HolonReference` names one
//! holon slot together with the phase in which the holon is held; a reference
//! whose slot is absent, or whose phase differs from the stored holon's phase,
//! is reported as `InvalidHolonReference`.
use crate::error::{rview, ErrorView, HolonError};
use crate::names::CoreRelationshipTypeName;
use crate::values::{BaseValue, BaseValueView, MapString, PropertyName, RelationshipName};
use vstd::prelude::*;

verus! {

/// The lifecycle phase in which a holon is held.
#[derive(Clone, Copy, Debug, PartialEq, Eq, Structural)]
pub enum HolonPhase {
    Transient,
    Staged,
    Saved,
}

/// A reference to one holon of a `HolonGraph`.
#[derive(Clone, Copy, Debug, PartialEq, Eq, Structural)]
pub enum HolonReference {
    Transient(usize),
    Staged(usize),
    Smart(usize),
}

impl DeepView for HolonReference {
    type V = HolonReference;

    open spec fn deep_view(&self) -> HolonReference {
        *self
    }
}

impl HolonReference {
    /// The slot of the referenced holon.
    pub open spec fn slot(self) -> usize {
        match self {
            HolonReference::Transient(i) => i,
            HolonReference::Staged(i) => i,
            HolonReference::Smart(i) => i,
        }
    }

    /// The phase this reference expects the holon to be held in.
    pub open spec fn phase(self) -> HolonPhase {
        match self {
            HolonReference::Transient(_) => HolonPhase::Transient,
            HolonReference::Staged(_) => HolonPhase::Staged,
            HolonReference::Smart(_) => HolonPhase::Saved,
        }
    }

    /// The reference to `slot` for a holon held in `phase`.
    pub open spec fn for_slot(phase: HolonPhase, slot: usize) -> HolonReference {
        match phase {
            HolonPhase::Transient => HolonReference::Transient(slot),
            HolonPhase::Staged => HolonReference::Staged(slot),
            HolonPhase::Saved => HolonReference::Smart(slot),
        }
    }

    /// Returns the slot of the referenced holon.
    pub fn index(&self) -> (r: usize)
        ensures
            r == self.slot(),
    {
        match self {
            HolonReference::Transient(i) => *i,
            HolonReference::Staged(i) => *i,
            HolonReference::Smart(i) => *i,
        }
    }

    /// Returns whether this reference designates saved (committed) content.
    pub fn is_saved(&self) -> (r: bool)
        ensures
            r == (self.phase() == HolonPhase::Saved),
    {
        match self {
            HolonReference::Smart(_) => true,
            _ => false,
        }
    }

    /// Identity comparison of two references.
    pub fn same(&self, other: &HolonReference) -> (r: bool)
        ensures
            r == (*self == *other),
    {
        match (self, other) {
            (HolonReference::Transient(a), HolonReference::Transient(b)) => *a == *b,
            (HolonReference::Staged(a), HolonReference::Staged(b)) => *a == *b,
            (HolonReference::Smart(a), HolonReference::Smart(b)) => *a == *b,
            _ => false,
        }
    }
}

/// One named property value of a holon.
#[derive(Clone, Debug)]
pub struct PropertyEntry {
    pub name: PropertyName,
    pub value: BaseValue,
}

/// One named relationship of a holon with its ordered members.
#[derive(Clone, Debug)]
pub struct RelationshipEntry {
    pub name: RelationshipName,
    pub members: Vec<HolonReference>,
}

/// A holon: its phase, optional key, properties and relationships.
#[derive(Clone, Debug)]
pub struct Holon {
    pub phase: HolonPhase,
    pub key: Option<MapString>,
    pub properties: Vec<PropertyEntry>,
    pub relationships: Vec<RelationshipEntry>,
}

/// The mathematical content of a holon.
pub struct HolonView {
    pub phase: HolonPhase,
    pub key: Option<Seq<char>>,
    pub properties: Seq<(Seq<char>, BaseValueView)>,
    pub relationships: Seq<(Seq<char>, Seq<HolonReference>)>,
}

pub open spec fn key_view(key: Option<MapString>) -> Option<Seq<char>> {
    match key {
        Some(k) => Some(k@),
        None => None,
    }
}

pub open spec fn property_entry_view(e: PropertyEntry) -> (Seq<char>, BaseValueView) {
    (e.name@, e.value@)
}

pub open spec fn relationship_entry_view(e: RelationshipEntry) -> (Seq<char>, Seq<HolonReference>) {
    (e.name@, e.members@)
}

impl View for Holon {
    type V = HolonView;

    open spec fn view(&self) -> HolonView {
        HolonView {
            phase: self.phase,
            key: key_view(self.key),
            properties: self.properties@.map_values(|e: PropertyEntry| property_entry_view(e)),
            relationships: self.relationships@.map_values(
                |e: RelationshipEntry| relationship_entry_view(e),
            ),
        }
    }
}

/// An in-memory store of holons addressed by slot.
pub struct HolonGraph {
    holons: Vec<Holon>,
    /// `(staged slot, saved slot)`: a staged holon that updates a saved one.
    updates: Vec<(usize, usize)>,
    /// Staged slots whose changes were committed or abandoned.
    finished: Vec<usize>,
}

impl View for HolonGraph {
    type V = Seq<HolonView>;

    closed spec fn view(&self) -> Seq<HolonView> {
        self.holons@.map_values(|h: Holon| h@)
    }
}

/// The index of the first entry named `name` at or after `i`, or -1.
pub open spec fn name_index_from<V>(entries: Seq<(Seq<char>, V)>, name: Seq<char>, i: int) -> int
    decreases entries.len() - i,
{
    if 0 <= i < entries.len() {
        if entries[i].0 == name {
            i
        } else {
            name_index_from(entries, name, i + 1)
        }
    } else {
        -1
    }
}

/// The index of the first entry named `name`, or -1.
pub open spec fn name_index<V>(entries: Seq<(Seq<char>, V)>, name: Seq<char>) -> int {
    name_index_from(entries, name, 0)
}

pub proof fn lemma_name_index_from<V>(entries: Seq<(Seq<char>, V)>, name: Seq<char>, i: int)
    requires
        0 <= i,
    ensures
        name_index_from(entries, name, i) == -1 || (i <= name_index_from(entries, name, i)
            < entries.len() && entries[name_index_from(entries, name, i)].0 == name),
        forall|j: int|
            i <= j < entries.len() && (name_index_from(entries, name, i) == -1 || j
                < name_index_from(entries, name, i)) ==> entries[j].0 != name,
    decreases entries.len() - i,
{
    if 0 <= i < entries.len() && entries[i].0 != name {
        lemma_name_index_from(entries, name, i + 1);
    }
}

/// The value stored under `name`, if any.
pub open spec fn find_entry<V>(entries: Seq<(Seq<char>, V)>, name: Seq<char>) -> Option<V> {
    let i = name_index(entries, name);
    if i >= 0 {
        Some(entries[i].1)
    } else {
        None
    }
}

/// Stores `value` under `name`: replaces the first entry so named, or appends one.
pub open spec fn set_entry<V>(entries: Seq<(Seq<char>, V)>, name: Seq<char>, value: V) -> Seq<
    (Seq<char>, V),
> {
    let i = name_index(entries, name);
    if i >= 0 {
        entries.update(i, (name, value))
    } else {
        entries.push((name, value))
    }
}

/// Appends `targets` to the members stored under `name`, creating the entry if needed.
pub open spec fn add_members(
    entries: Seq<(Seq<char>, Seq<HolonReference>)>,
    name: Seq<char>,
    targets: Seq<HolonReference>,
) -> Seq<(Seq<char>, Seq<HolonReference>)> {
    let i = name_index(entries, name);
    if i >= 0 {
        entries.update(i, (name, entries[i].1 + targets))
    } else {
        entries.push((name, targets))
    }
}

/// The holon designated by `r`, when the reference is valid.
pub open spec fn holon_of(g: Seq<HolonView>, r: HolonReference) -> Option<HolonView> {
    if r.slot() < g.len() && g[r.slot() as int].phase == r.phase() {
        Some(g[r.slot() as int])
    } else {
        None
    }
}

/// Every recorded update names a saved holon of `g` as its source.
pub open spec fn updates_valid(g: Seq<HolonView>, updates: Seq<(usize, usize)>) -> bool {
    forall|j: int| 0 <= j < updates.len() ==> holon_of(g, HolonReference::Smart(#[trigger] updates[j].1)) is Some
}

/// Reads one property of a holon.
pub open spec fn spec_property_value(g: Seq<HolonView>, r: HolonReference, name: Seq<char>) -> Result<
    Option<BaseValueView>,
    ErrorView,
> {
    match holon_of(g, r) {
        Some(h) => Ok(find_entry(h.properties, name)),
        None => Err(ErrorView::InvalidHolonReference(r)),
    }
}

/// Reads the ordered members of one relationship of a holon; absent means empty.
pub open spec fn spec_related(g: Seq<HolonView>, r: HolonReference, name: Seq<char>) -> Result<
    Seq<HolonReference>,
    ErrorView,
> {
    match holon_of(g, r) {
        Some(h) => Ok(
            match find_entry(h.relationships, name) {
                Some(m) => m,
                None => Seq::empty(),
            },
        ),
        None => Err(ErrorView::InvalidHolonReference(r)),
    }
}

/// Reads the key of a holon.
pub open spec fn spec_key(g: Seq<HolonView>, r: HolonReference) -> Result<Option<Seq<char>>, ErrorView> {
    match holon_of(g, r) {
        Some(h) => Ok(h.key),
        None => Err(ErrorView::InvalidHolonReference(r)),
    }
}

/// The first entry named `name` from `k` on is at `i`.
proof fn lemma_name_index_at<V>(entries: Seq<(Seq<char>, V)>, name: Seq<char>, k: int, i: int)
    requires
        0 <= k <= i < entries.len(),
        entries[i].0 == name,
        forall|j: int| k <= j < i ==> entries[j].0 != name,
    ensures
        name_index_from(entries, name, k) == i,
    decreases i - k,
{
    if k < i {
        lemma_name_index_at(entries, name, k + 1, i);
    }
}

/// No entry from `k` on is named `name`.
proof fn lemma_name_index_absent<V>(entries: Seq<(Seq<char>, V)>, name: Seq<char>, k: int)
    requires
        0 <= k,
        forall|j: int| k <= j < entries.len() ==> entries[j].0 != name,
    ensures
        name_index_from(entries, name, k) == -1,
    decreases entries.len() - k,
{
    if k < entries.len() {
        lemma_name_index_absent(entries, name, k + 1);
    }
}

/// Two entry lists that agree on every name position and on the entries named
/// `name` find the same entry under `name`.
proof fn lemma_find_same<V>(a: Seq<(Seq<char>, V)>, b: Seq<(Seq<char>, V)>, name: Seq<char>)
    requires
        forall|j: int| 0 <= j < a.len() && a[j].0 == name ==> j < b.len() && b[j] == a[j],
        forall|j: int| 0 <= j < b.len() && b[j].0 == name ==> j < a.len() && a[j] == b[j],
    ensures
        find_entry(a, name) == find_entry(b, name),
{
    lemma_name_index_from(a, name, 0);
    let i = name_index(a, name);
    if i >= 0 {
        assert forall|j: int| 0 <= j < i implies b[j].0 != name by {
            if j < b.len() && b[j].0 == name {
                assert(a[j] == b[j]);
            }
        }
        lemma_name_index_at(b, name, 0, i);
    } else {
        assert forall|j: int| 0 <= j < b.len() implies b[j].0 != name by {
            if b[j].0 == name {
                assert(a[j] == b[j]);
            }
        }
        lemma_name_index_absent(b, name, 0);
    }
}

/// Reading `name` after storing `value` under it gives `value`; every other
/// name reads as before.
pub proof fn lemma_find_after_set<V>(entries: Seq<(Seq<char>, V)>, name: Seq<char>, value: V, other: Seq<char>)
    ensures
        find_entry(set_entry(entries, name, value), name) == Some(value),
        other != name ==> find_entry(set_entry(entries, name, value), other) == find_entry(entries, other),
{
    lemma_name_index_from(entries, name, 0);
    let i = name_index(entries, name);
    let e2 = set_entry(entries, name, value);
    if i >= 0 {
        lemma_name_index_at(e2, name, 0, i);
    } else {
        lemma_name_index_at(e2, name, 0, entries.len() as int);
    }
    if other != name {
        lemma_find_same(entries, e2, other);
    }
}

/// Reading `name` after appending `targets` to it gives the former members
/// followed by `targets`; every other name reads as before.
pub proof fn lemma_find_after_add(
    entries: Seq<(Seq<char>, Seq<HolonReference>)>,
    name: Seq<char>,
    targets: Seq<HolonReference>,
    other: Seq<char>,
)
    ensures
        find_entry(add_members(entries, name, targets), name) == Some(
            match find_entry(entries, name) {
                Some(m) => m + targets,
                None => targets,
            },
        ),
        other != name ==> find_entry(add_members(entries, name, targets), other) == find_entry(entries, other),
{
    lemma_name_index_from(entries, name, 0);
    let i = name_index(entries, name);
    let e2 = add_members(entries, name, targets);
    if i >= 0 {
        lemma_name_index_at(e2, name, 0, i);
    } else {
        lemma_name_index_at(e2, name, 0, entries.len() as int);
    }
    if other != name {
        lemma_find_same(entries, e2, other);
    }
}

/// The graph once property `name` of `r` holds `value`; unchanged when `r`
/// designates no holon.
pub open spec fn spec_set_property(g: Seq<HolonView>, r: HolonReference, name: Seq<char>, value: BaseValueView) -> Seq<
    HolonView,
> {
    match holon_of(g, r) {
        Some(h) => g.update(r.slot() as int, with_property(h, name, value)),
        None => g,
    }
}

/// The graph once `targets` are appended to relationship `name` of `r`;
/// unchanged when `r` designates no holon.
pub open spec fn spec_add_related(
    g: Seq<HolonView>,
    r: HolonReference,
    name: Seq<char>,
    targets: Seq<HolonReference>,
) -> Seq<HolonView> {
    match holon_of(g, r) {
        Some(h) => g.update(r.slot() as int, with_members(h, name, targets)),
        None => g,
    }
}

/// A property read gives back the last value written under that name, and a
/// write leaves every other property of every holon as it was.
pub proof fn law_property_read_after_write(
    g: Seq<HolonView>,
    r: HolonReference,
    name: Seq<char>,
    value: BaseValueView,
    r2: HolonReference,
    name2: Seq<char>,
)
    requires
        holon_of(g, r) is Some,
    ensures
        spec_property_value(spec_set_property(g, r, name, value), r, name) == Ok::<
            Option<BaseValueView>,
            ErrorView,
        >(Some(value)),
        r2.slot() != r.slot() || name2 != name ==> spec_property_value(spec_set_property(g, r, name, value), r2, name2)
            == spec_property_value(g, r2, name2),
{
    let h = holon_of(g, r)->0;
    lemma_find_after_set(h.properties, name, value, name2);
}

/// Adding related holons appends them, in order, to the members already held
/// under that relationship, and leaves every other relationship as it was.
pub proof fn law_related_after_add(
    g: Seq<HolonView>,
    r: HolonReference,
    name: Seq<char>,
    targets: Seq<HolonReference>,
    r2: HolonReference,
    name2: Seq<char>,
)
    requires
        holon_of(g, r) is Some,
    ensures
        spec_related(spec_add_related(g, r, name, targets), r, name) == Ok::<Seq<HolonReference>, ErrorView>(
            spec_related(g, r, name)->Ok_0 + targets,
        ),
        r2.slot() != r.slot() || name2 != name ==> spec_related(spec_add_related(g, r, name, targets), r2, name2)
            == spec_related(g, r2, name2),
{
    let h = holon_of(g, r)->0;
    lemma_find_after_add(h.relationships, name, targets, name2);
    assert(match find_entry(h.relationships, name) {
        Some(m) => m + targets,
        None => targets,
    } == spec_related(g, r, name)->Ok_0 + targets) by {
        if find_entry(h.relationships, name) is None {
            assert(Seq::<HolonReference>::empty() + targets =~= targets);
        }
    }
}

/// Staging copies a holon: the staged copy reads every property and every
/// relationship exactly as the holon it was staged from.
pub proof fn law_staged_copy_reads_alike(g: Seq<HolonView>, r: HolonReference, name: Seq<char>)
    requires
        holon_of(g, r) is Some,
        g.len() < usize::MAX,
    ensures
        ({
            let staged = g.push(HolonView { phase: HolonPhase::Staged, ..holon_of(g, r)->0 });
            let copy = HolonReference::Staged(g.len() as usize);
            &&& spec_property_value(staged, copy, name) == spec_property_value(g, r, name)
            &&& spec_related(staged, copy, name) == spec_related(g, r, name)
        }),
{
}

/// The holon `h` with `name` set to `value`.
pub open spec fn with_property(h: HolonView, name: Seq<char>, value: BaseValueView) -> HolonView {
    HolonView { properties: set_entry(h.properties, name, value), ..h }
}

/// The holon `h` with `targets` appended to relationship `name`.
pub open spec fn with_members(h: HolonView, name: Seq<char>, targets: Seq<HolonReference>) -> HolonView {
    HolonView { relationships: add_members(h.relationships, name, targets), ..h }
}

/// The slots below `n` that hold a holon of `phase` keyed `key`, in slot order.
pub open spec fn keyed_slots(g: Seq<HolonView>, phase: HolonPhase, key: Seq<char>, n: int) -> Seq<int>
    decreases n,
{
    if n <= 0 || n > g.len() {
        Seq::empty()
    } else {
        let s = keyed_slots(g, phase, key, n - 1);
        if g[n - 1].phase == phase && g[n - 1].key == Some(key) {
            s.push(n - 1)
        } else {
            s
        }
    }
}

/// The unique holon of `phase` keyed `key`: `HolonNotFound` when there is none,
/// `DuplicateError` when there are several.
pub open spec fn spec_lookup_by_key(g: Seq<HolonView>, phase: HolonPhase, key: Seq<char>) -> Result<
    HolonReference,
    ErrorView,
> {
    let s = keyed_slots(g, phase, key, g.len() as int);
    if s.len() == 1 {
        Ok(HolonReference::for_slot(phase, s[0] as usize))
    } else if s.len() == 0 {
        Err(ErrorView::HolonNotFound(key))
    } else {
        Err(ErrorView::DuplicateError("holon key"@, key))
    }
}

proof fn lemma_keyed_slots_bounded(g: Seq<HolonView>, phase: HolonPhase, key: Seq<char>, n: int)
    requires
        0 <= n <= g.len(),
    ensures
        keyed_slots(g, phase, key, n).len() <= n,
        forall|j: int| 0 <= j < keyed_slots(g, phase, key, n).len() ==> 0 <= #[trigger] keyed_slots(g, phase, key, n)[j] < n,
    decreases n,
{
    if n > 0 {
        lemma_keyed_slots_bounded(g, phase, key, n - 1);
    }
}

fn copy_references(refs: &Vec<HolonReference>) -> (r: Vec<HolonReference>)
    ensures
        r@ == refs@,
{
    let mut out: Vec<HolonReference> = Vec::new();
    let mut i: usize = 0;
    while i < refs.len()
        invariant
            i <= refs.len(),
            out@ == refs@.subrange(0, i as int),
        decreases refs.len() - i,
    {
        out.push(refs[i]);
        i = i + 1;
        assert(out@ =~= refs@.subrange(0, i as int));
    }
    assert(out@ =~= refs@);
    out
}

fn copy_properties(v: &Vec<PropertyEntry>) -> (r: Vec<PropertyEntry>)
    ensures
        r@.map_values(|e: PropertyEntry| property_entry_view(e)) == v@.map_values(
            |e: PropertyEntry| property_entry_view(e),
        ),
{
    let mut out: Vec<PropertyEntry> = Vec::new();
    let mut i: usize = 0;
    while i < v.len()
        invariant
            i <= v.len(),
            out@.map_values(|e: PropertyEntry| property_entry_view(e)) == v@.subrange(0, i as int).map_values(
                |e: PropertyEntry| property_entry_view(e),
            ),
        decreases v.len() - i,
    {
        let ghost before = out@;
        out.push(PropertyEntry { name: PropertyName(v[i].name.0.duplicate()), value: v[i].value.duplicate() });
        assert(out@.map_values(|e: PropertyEntry| property_entry_view(e)) =~= before.map_values(
            |e: PropertyEntry| property_entry_view(e),
        ).push(property_entry_view(v@[i as int])));
        assert(v@.subrange(0, i + 1).map_values(|e: PropertyEntry| property_entry_view(e)) =~= v@.subrange(
            0,
            i as int,
        ).map_values(|e: PropertyEntry| property_entry_view(e)).push(property_entry_view(v@[i as int])));
        i = i + 1;
    }
    assert(v@.subrange(0, i as int) =~= v@);
    out
}

fn copy_relationships(v: &Vec<RelationshipEntry>) -> (r: Vec<RelationshipEntry>)
    ensures
        r@.map_values(|e: RelationshipEntry| relationship_entry_view(e)) == v@.map_values(
            |e: RelationshipEntry| relationship_entry_view(e),
        ),
{
    let mut out: Vec<RelationshipEntry> = Vec::new();
    let mut i: usize = 0;
    while i < v.len()
        invariant
            i <= v.len(),
            out@.map_values(|e: RelationshipEntry| relationship_entry_view(e)) == v@.subrange(
                0,
                i as int,
            ).map_values(|e: RelationshipEntry| relationship_entry_view(e)),
        decreases v.len() - i,
    {
        let ghost before = out@;
        out.push(
            RelationshipEntry {
                name: RelationshipName(v[i].name.0.duplicate()),
                members: copy_references(&v[i].members),
            },
        );
        assert(out@.map_values(|e: RelationshipEntry| relationship_entry_view(e)) =~= before.map_values(
            |e: RelationshipEntry| relationship_entry_view(e),
        ).push(relationship_entry_view(v@[i as int])));
        assert(v@.subrange(0, i + 1).map_values(|e: RelationshipEntry| relationship_entry_view(e))
            =~= v@.subrange(0, i as int).map_values(|e: RelationshipEntry| relationship_entry_view(e)).push(
            relationship_entry_view(v@[i as int]),
        ));
        i = i + 1;
    }
    assert(v@.subrange(0, i as int) =~= v@);
    out
}

fn property_position(h: &Holon, name: &PropertyName) -> (r: Option<usize>)
    ensures
        match r {
            Some(i) => i as int == name_index(h@.properties, name@) && i < h.properties.len()
                && h@.properties[i as int].0 == name@,
            None => name_index(h@.properties, name@) == -1,
        },
{
    proof {
        lemma_name_index_from(h@.properties, name@, 0);
    }
    let mut i: usize = 0;
    while i < h.properties.len()
        invariant
            i <= h.properties.len(),
            name_index_from(h@.properties, name@, i as int) == name_index(h@.properties, name@),
        decreases h.properties.len() - i,
    {
        if h.properties[i].name.equals(name) {
            return Some(i);
        }
        i = i + 1;
    }
    None
}

fn relationship_position(h: &Holon, name: &RelationshipName) -> (r: Option<usize>)
    ensures
        match r {
            Some(i) => i as int == name_index(h@.relationships, name@) && i < h.relationships.len()
                && h@.relationships[i as int].0 == name@,
            None => name_index(h@.relationships, name@) == -1,
        },
{
    proof {
        lemma_name_index_from(h@.relationships, name@, 0);
    }
    let mut i: usize = 0;
    while i < h.relationships.len()
        invariant
            i <= h.relationships.len(),
            name_index_from(h@.relationships, name@, i as int) == name_index(h@.relationships, name@),
        decreases h.relationships.len() - i,
    {
        if h.relationships[i].name.equals(name) {
            return Some(i);
        }
        i = i + 1;
    }
    None
}

impl HolonGraph {
    /// An empty graph, with no recorded updates and no finished holons.
    pub fn new() -> (g: HolonGraph)
        ensures
            updates_valid(g@, g.spec_updates()),
            g@ == Seq::<HolonView>::empty(),
            g.spec_updates() == Seq::<(usize, usize)>::empty(),
            g.spec_finished() == Seq::<usize>::empty(),
    {
        let g = HolonGraph { holons: Vec::new(), updates: Vec::new(), finished: Vec::new() };
        assert(g@ =~= Seq::<HolonView>::empty());
        g
    }

    /// The recorded update ancestry: `(staged slot, saved slot)` pairs, oldest first.
    pub closed spec fn spec_updates(&self) -> Seq<(usize, usize)> {
        self.updates@
    }

    /// The staged slots whose changes were committed or abandoned.
    pub closed spec fn spec_finished(&self) -> Seq<usize> {
        self.finished@
    }

    /// Returns a copy of the update ancestry.
    pub fn updates(&self) -> (u: Vec<(usize, usize)>)
        ensures
            u@ == self.spec_updates(),
    {
        let mut u: Vec<(usize, usize)> = Vec::new();
        let mut i: usize = 0;
        while i < self.updates.len()
            invariant
                i <= self.updates.len(),
                u@ == self.updates@.subrange(0, i as int),
            decreases self.updates.len() - i,
        {
            u.push(self.updates[i]);
            i = i + 1;
            assert(u@ =~= self.updates@.subrange(0, i as int));
        }
        assert(u@ =~= self.updates@);
        u
    }

    /// Whether the staged holon at `slot` was committed or abandoned.
    pub fn is_finished(&self, slot: usize) -> (b: bool)
        ensures
            b == self.spec_finished().contains(slot),
    {
        let mut i: usize = 0;
        while i < self.finished.len()
            invariant
                i <= self.finished.len(),
                forall|j: int| 0 <= j < i ==> self.finished@[j] != slot,
            decreases self.finished.len() - i,
        {
            if self.finished[i] == slot {
                return true;
            }
            i = i + 1;
        }
        false
    }

    /// Stages a copy of `snapshot` as an update of the saved holon `source`.
    pub fn stage_update_snapshot(&mut self, source: HolonReference, snapshot: HolonReference) -> (res: Result<
        HolonReference,
        HolonError,
    >)
        ensures
            updates_valid(old(self)@, old(self).spec_updates()) ==> updates_valid(final(self)@, final(self).spec_updates()),
            match (source, holon_of(old(self)@, source), holon_of(old(self)@, snapshot)) {
                (HolonReference::Smart(s), Some(_), Some(h)) => res == Ok::<HolonReference, HolonError>(
                    HolonReference::Staged(old(self)@.len() as usize),
                ) && final(self)@ == old(self)@.push(HolonView { phase: HolonPhase::Staged, ..h })
                    && final(self).spec_updates() == old(self).spec_updates().push((old(self)@.len() as usize, s))
                    && final(self).spec_finished() == old(self).spec_finished(),
                (_, None, _) => res == Err::<HolonReference, HolonError>(HolonError::InvalidHolonReference(source))
                    && *final(self) == *old(self),
                (_, _, None) => res == Err::<HolonReference, HolonError>(HolonError::InvalidHolonReference(snapshot))
                    && *final(self) == *old(self),
                _ => rview(res) == Err::<HolonReference, ErrorView>(
                    ErrorView::InvalidParameter("an update's source must be a saved holon"@),
                ) && *final(self) == *old(self),
            },
    {
        if !self.is_valid(source) {
            return Err(HolonError::InvalidHolonReference(source));
        }
        if !self.is_valid(snapshot) {
            return Err(HolonError::InvalidHolonReference(snapshot));
        }
        match source {
            HolonReference::Smart(s) => {
                let staged = self.stage_new_holon(snapshot)?;
                self.updates.push((staged.index(), s));
                Ok(staged)
            },
            _ => Err(HolonError::InvalidParameter(String::from_str("an update's source must be a saved holon"))),
        }
    }

    /// Marks the staged holon `staged` as finished (committed or abandoned): it is
    /// no longer a live candidate for validation.
    pub fn finish_staged(&mut self, staged: HolonReference) -> (res: Result<(), HolonError>)
        ensures
            updates_valid(old(self)@, old(self).spec_updates()) ==> updates_valid(final(self)@, final(self).spec_updates()),
            match staged {
                HolonReference::Staged(i) => if holon_of(old(self)@, staged) is Some {
                    res is Ok && final(self)@ == old(self)@ && final(self).spec_updates() == old(self).spec_updates()
                        && final(self).spec_finished() == old(self).spec_finished().push(i)
                } else {
                    res == Err::<(), HolonError>(HolonError::InvalidHolonReference(staged)) && *final(self) == *old(self)
                },
                _ => res == Err::<(), HolonError>(HolonError::InvalidHolonReference(staged)) && *final(self) == *old(self),
            },
    {
        match staged {
            HolonReference::Staged(i) => {
                if !self.is_valid(staged) {
                    return Err(HolonError::InvalidHolonReference(staged));
                }
                self.finished.push(i);
                Ok(())
            },
            _ => Err(HolonError::InvalidHolonReference(staged)),
        }
    }

    /// The number of holon slots.
    pub fn len(&self) -> (n: usize)
        ensures
            n == self@.len(),
    {
        self.holons.len()
    }

    /// Returns whether `r` designates a holon of this graph.
    pub fn is_valid(&self, r: HolonReference) -> (b: bool)
        ensures
            b == holon_of(self@, r).is_some(),
    {
        let i = r.index();
        if i < self.holons.len() {
            self.holons[i].phase == HolonPhase::Transient && r == HolonReference::Transient(i)
                || self.holons[i].phase == HolonPhase::Staged && r == HolonReference::Staged(i)
                || self.holons[i].phase == HolonPhase::Saved && r == HolonReference::Smart(i)
        } else {
            false
        }
    }

    /// Adds a holon without properties or relationships and returns its reference.
    pub fn new_holon(&mut self, phase: HolonPhase, key: Option<MapString>) -> (r: HolonReference)
        requires
            old(self)@.len() < usize::MAX,
        ensures
            updates_valid(old(self)@, old(self).spec_updates()) ==> updates_valid(final(self)@, final(self).spec_updates()),
            final(self).spec_updates() == old(self).spec_updates(),
            final(self).spec_finished() == old(self).spec_finished(),
            r == HolonReference::for_slot(phase, old(self)@.len() as usize),
            final(self)@ == old(self)@.push(
                HolonView {
                    phase,
                    key: key_view(key),
                    properties: Seq::empty(),
                    relationships: Seq::empty(),
                },
            ),
    {
        let slot = self.holons.len();
        let holon = Holon { phase, key, properties: Vec::new(), relationships: Vec::new() };
        assert(holon@.properties =~= Seq::empty());
        assert(holon@.relationships =~= Seq::empty());
        self.holons.push(holon);
        assert(self@ =~= old(self)@.push(holon@));
        match phase {
            HolonPhase::Transient => HolonReference::Transient(slot),
            HolonPhase::Staged => HolonReference::Staged(slot),
            HolonPhase::Saved => HolonReference::Smart(slot),
        }
    }

    /// Stages a copy of the referenced holon: a new staged holon with the same
    /// key, properties and relationships.
    pub fn stage_new_holon(&mut self, r: HolonReference) -> (res: Result<HolonReference, HolonError>)
        ensures
            updates_valid(old(self)@, old(self).spec_updates()) ==> updates_valid(final(self)@, final(self).spec_updates()),
            final(self).spec_updates() == old(self).spec_updates(),
            final(self).spec_finished() == old(self).spec_finished(),
            match holon_of(old(self)@, r) {
                Some(h) => res == Ok::<HolonReference, HolonError>(HolonReference::Staged(old(self)@.len() as usize))
                    && final(self)@ == old(self)@.push(HolonView { phase: HolonPhase::Staged, ..h }),
                None => res == Err::<HolonReference, HolonError>(HolonError::InvalidHolonReference(r))
                    && final(self)@ == old(self)@,
            },
    {
        if !self.is_valid(r) {
            return Err(HolonError::InvalidHolonReference(r));
        }
        let i = r.index();
        let key = match &self.holons[i].key {
            Some(k) => Some(k.duplicate()),
            None => None,
        };
        let copy = Holon {
            phase: HolonPhase::Staged,
            key,
            properties: copy_properties(&self.holons[i].properties),
            relationships: copy_relationships(&self.holons[i].relationships),
        };
        let slot = self.holons.len();
        let ghost hv = self@[i as int];
        assert(copy@ == HolonView { phase: HolonPhase::Staged, ..hv });
        self.holons.push(copy);
        assert(self@ =~= old(self)@.push(HolonView { phase: HolonPhase::Staged, ..hv }));
        Ok(HolonReference::Staged(slot))
    }

    /// Sets property `name` of the referenced holon to `value`.
    pub fn with_property_value(&mut self, r: HolonReference, name: PropertyName, value: BaseValue) -> (res: Result<(), HolonError>)
        ensures
            updates_valid(old(self)@, old(self).spec_updates()) ==> updates_valid(final(self)@, final(self).spec_updates()),
            final(self).spec_updates() == old(self).spec_updates(),
            final(self).spec_finished() == old(self).spec_finished(),
            final(self)@ == spec_set_property(old(self)@, r, name@, value@),
            match holon_of(old(self)@, r) {
                Some(h) => res is Ok && final(self)@ == old(self)@.update(
                    r.slot() as int,
                    with_property(h, name@, value@),
                ),
                None => res == Err::<(), HolonError>(HolonError::InvalidHolonReference(r))
                    && final(self)@ == old(self)@,
            },
    {
        if !self.is_valid(r) {
            return Err(HolonError::InvalidHolonReference(r));
        }
        let i = r.index();
        let ghost hv = self@[i as int];
        let mut h = self.holons.remove(i);
        assert(h@ == hv);
        let pos = property_position(&h, &name);
        let ghost nm = name@;
        let ghost vv = value@;
        match pos {
            Some(p) => {
                h.properties.remove(p);
                h.properties.insert(p, PropertyEntry { name, value });
            },
            None => {
                h.properties.push(PropertyEntry { name, value });
            },
        }
        assert(h@.properties =~= set_entry(hv.properties, nm, vv));
        assert(h@ == with_property(hv, nm, vv));
        self.holons.insert(i, h);
        assert(self@ =~= old(self)@.update(i as int, with_property(hv, nm, vv)));
        Ok(())
    }

    /// Appends `targets` to relationship `name` of the referenced holon.
    pub fn add_related_holons(
        &mut self,
        r: HolonReference,
        name: RelationshipName,
        targets: Vec<HolonReference>,
    ) -> (res: Result<(), HolonError>)
        ensures
            updates_valid(old(self)@, old(self).spec_updates()) ==> updates_valid(final(self)@, final(self).spec_updates()),
            final(self)@ == spec_add_related(old(self)@, r, name@, targets@),
            final(self).spec_updates() == old(self).spec_updates(),
            final(self).spec_finished() == old(self).spec_finished(),
            match holon_of(old(self)@, r) {
                Some(h) => res is Ok && final(self)@ == old(self)@.update(
                    r.slot() as int,
                    with_members(h, name@, targets@),
                ),
                None => res == Err::<(), HolonError>(HolonError::InvalidHolonReference(r))
                    && final(self)@ == old(self)@,
            },
    {
        if !self.is_valid(r) {
            return Err(HolonError::InvalidHolonReference(r));
        }
        let i = r.index();
        let ghost hv = self@[i as int];
        let mut h = self.holons.remove(i);
        assert(h@ == hv);
        let pos = relationship_position(&h, &name);
        let ghost nm = name@;
        let ghost tv = targets@;
        match pos {
            Some(p) => {
                let mut entry = h.relationships.remove(p);
                let mut targets = targets;
                entry.members.append(&mut targets);
                entry.name = name;
                h.relationships.insert(p, entry);
            },
            None => {
                h.relationships.push(RelationshipEntry { name, members: targets });
            },
        }
        assert(h@.relationships =~= add_members(hv.relationships, nm, tv));
        assert(h@ == with_members(hv, nm, tv));
        self.holons.insert(i, h);
        assert(self@ =~= old(self)@.update(i as int, with_members(hv, nm, tv)));
        Ok(())
    }

    /// Reads property `name` of the referenced holon.
    pub fn property_value(&self, r: HolonReference, name: &PropertyName) -> (res: Result<
        Option<BaseValue>,
        HolonError,
    >)
        ensures
            rview(res) == spec_property_value(self@, r, name@),
    {
        if !self.is_valid(r) {
            return Err(HolonError::InvalidHolonReference(r));
        }
        let h = &self.holons[r.index()];
        match property_position(h, name) {
            Some(p) => Ok(Some(h.properties[p].value.duplicate())),
            None => Ok(None),
        }
    }

    /// Reads the ordered members of relationship `name` of the referenced holon.
    pub fn related_holons(&self, r: HolonReference, name: &RelationshipName) -> (res: Result<
        Vec<HolonReference>,
        HolonError,
    >)
        ensures
            rview(res) == spec_related(self@, r, name@),
            res matches Ok(v) ==> spec_related(self@, r, name@) == Ok::<Seq<HolonReference>, ErrorView>(v@),
    {
        if !self.is_valid(r) {
            return Err(HolonError::InvalidHolonReference(r));
        }
        let h = &self.holons[r.index()];
        match relationship_position(h, name) {
            Some(p) => {
                let v = copy_references(&h.relationships[p].members);
                assert(v.deep_view() =~= v@);
                Ok(v)
            },
            None => {
                let v: Vec<HolonReference> = Vec::new();
                assert(v.deep_view() =~= v@);
                Ok(v)
            },
        }
    }

    /// Reads a core relationship of the referenced holon.
    pub fn related_core(&self, r: HolonReference, name: CoreRelationshipTypeName) -> (res: Result<
        Vec<HolonReference>,
        HolonError,
    >)
        ensures
            res matches Ok(v) ==> spec_related(self@, r, name.spec_name()) == Ok::<
                Seq<HolonReference>,
                ErrorView,
            >(v@),
            res matches Err(e) ==> spec_related(self@, r, name.spec_name()) == Err::<
                Seq<HolonReference>,
                ErrorView,
            >(e@),
    {
        let n = name.as_relationship_name();
        self.related_holons(r, &n)
    }

    /// Finds the unique holon of `phase` whose key is `key`.
    pub fn lookup_by_key(&self, phase: HolonPhase, key: &MapString) -> (res: Result<HolonReference, HolonError>)
        ensures
            rview(res) == spec_lookup_by_key(self@, phase, key@),
    {
        let mut count: usize = 0;
        let mut first: usize = 0;
        let mut i: usize = 0;
        while i < self.holons.len()
            invariant
                i <= self.holons.len(),
                self@.len() == self.holons.len(),
                count == keyed_slots(self@, phase, key@, i as int).len(),
                count > 0 ==> keyed_slots(self@, phase, key@, i as int)[0] == first as int,
            decreases self.holons.len() - i,
        {
            proof {
                lemma_keyed_slots_bounded(self@, phase, key@, i as int);
            }
            let matches = self.holons[i].phase == phase && match &self.holons[i].key {
                Some(k) => k.equals(key),
                None => false,
            };
            if matches {
                if count == 0 {
                    first = i;
                }
                count = count + 1;
            }
            i = i + 1;
        }
        proof {
            lemma_keyed_slots_bounded(self@, phase, key@, i as int);
        }
        if count == 1 {
            Ok(
                match phase {
                    HolonPhase::Transient => HolonReference::Transient(first),
                    HolonPhase::Staged => HolonReference::Staged(first),
                    HolonPhase::Saved => HolonReference::Smart(first),
                },
            )
        } else if count == 0 {
            Err(HolonError::HolonNotFound(key.to_owned_string()))
        } else {
            Err(HolonError::DuplicateError(String::from_str("holon key"), key.to_owned_string()))
        }
    }

    /// The slots of the holons of `phase` whose key is `key`, in slot order.
    pub fn keyed_holons(&self, phase: HolonPhase, key: &MapString) -> (v: Vec<usize>)
        ensures
            v@.len() == keyed_slots(self@, phase, key@, self@.len() as int).len(),
            forall|j: int| 0 <= j < v@.len() ==> v@[j] as int == keyed_slots(self@, phase, key@, self@.len() as int)[j],
    {
        let mut v: Vec<usize> = Vec::new();
        let mut i: usize = 0;
        while i < self.holons.len()
            invariant
                i <= self.holons.len(),
                self@.len() == self.holons.len(),
                v@.len() == keyed_slots(self@, phase, key@, i as int).len(),
                forall|j: int| 0 <= j < v@.len() ==> v@[j] as int == keyed_slots(self@, phase, key@, i as int)[j],
            decreases self.holons.len() - i,
        {
            let matches = self.holons[i].phase == phase && match &self.holons[i].key {
                Some(k) => k.equals(key),
                None => false,
            };
            if matches {
                v.push(i);
            }
            i = i + 1;
        }
        v
    }

    /// Reads the key of the referenced holon.
    pub fn key(&self, r: HolonReference) -> (res: Result<Option<MapString>, HolonError>)
        ensures
            rview(res) == spec_key(self@, r),
    {
        if !self.is_valid(r) {
            return Err(HolonError::InvalidHolonReference(r));
        }
        match &self.holons[r.index()].key {
            Some(k) => Ok(Some(k.duplicate())),
            None => Ok(None),
        }
    }
}

} // verus!
