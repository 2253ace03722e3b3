//! Resolution of canonical Core descriptor identities by key.
use crate::error::{rview, ErrorView, HolonError};
use crate::graph::{keyed_slots, spec_lookup_by_key, HolonGraph, HolonPhase, HolonReference, HolonView};
use crate::value_descriptor::{ValueDescriptorKind, ValueKindView};
use crate::values::{BaseValueKind, MapString};
use crate::assessment_reader::{identity_under, read_view, spec_identity, AssessmentReadError, DescriptorReader, ReadErrorView};
use vstd::prelude::*;
use vstd::string::*;

verus! {

/// Whether the staged holons at `slots` all denote one prospective definition.
pub open spec fn one_definition(updates: Seq<(usize, usize)>, slots: Seq<int>) -> bool {
    forall|j: int|
        0 <= j < slots.len() ==> spec_identity(updates, HolonReference::Staged(#[trigger] slots[j] as usize))
            == spec_identity(updates, HolonReference::Staged(slots[0] as usize))
}

/// The holon keyed `key`, staged definitions first. Several staged holons
/// with the key are one definition when they share a prospective identity
/// (updates of one saved holon; the first is returned), and a duplicate
/// otherwise. Without a staged holon, the unique saved holon with the key.
pub open spec fn spec_resolve_core_descriptor(g: Seq<HolonView>, updates: Seq<(usize, usize)>, key: Seq<char>) -> Result<
    HolonReference,
    ErrorView,
> {
    let staged = keyed_slots(g, HolonPhase::Staged, key, g.len() as int);
    if staged.len() == 0 {
        spec_lookup_by_key(g, HolonPhase::Saved, key)
    } else if one_definition(updates, staged) {
        Ok(HolonReference::Staged(staged[0] as usize))
    } else {
        Err(ErrorView::DuplicateError("holon key"@, key))
    }
}

/// Resolves a canonical Core schema key, staged definitions first.
pub fn resolve_core_descriptor(g: &HolonGraph, key: &str) -> (res: Result<HolonReference, HolonError>)
    ensures
        rview(res) == spec_resolve_core_descriptor(g@, g.spec_updates(), key@),
{
    let ghost key_view = key@;
    let name = MapString::from_str(key);
    let staged = g.keyed_holons(HolonPhase::Staged, &name);
    if staged.len() == 0 {
        return g.lookup_by_key(HolonPhase::Saved, &name);
    }
    let ghost slots = keyed_slots(g@, HolonPhase::Staged, name@, g@.len() as int);
    let updates = g.updates();
    let first = identity_under(&updates, HolonReference::Staged(staged[0]));
    assert(staged@[0] as int == slots[0]);
    let mut j: usize = 1;
    while j < staged.len()
        invariant
            1 <= j <= staged.len(),
            key@ == key_view,
            name@ == key_view,
            slots == keyed_slots(g@, HolonPhase::Staged, key_view, g@.len() as int),
            staged@.len() == slots.len(),
            forall|k: int| 0 <= k < staged@.len() ==> staged@[k] as int == slots[k],
            updates@ == g.spec_updates(),
            first == spec_identity(updates@, HolonReference::Staged(slots[0] as usize)),
            forall|k: int|
                0 <= k < j ==> spec_identity(updates@, HolonReference::Staged(#[trigger] slots[k] as usize)) == first,
        decreases staged.len() - j,
    {
        if identity_under(&updates, HolonReference::Staged(staged[j])) != first {
            assert(!one_definition(updates@, slots)) by {
                assert(staged@[j as int] as int == slots[j as int]);
            }
            return Err(HolonError::DuplicateError(String::from_str("holon key"), name.to_owned_string()));
        }
        assert(staged@[j as int] as int == slots[j as int]);
        j = j + 1;
    }
    Ok(HolonReference::Staged(staged[0]))
}

/// The selected content of the holon keyed `key`.
pub open spec fn spec_resolve_core_descriptor_with_reader<R: DescriptorReader>(
    g: Seq<HolonView>,
    updates: Seq<(usize, usize)>,
    reader: R,
    key: Seq<char>,
) -> Result<HolonReference, ReadErrorView> {
    match spec_resolve_core_descriptor(g, updates, key) {
        Err(e) => Err(ReadErrorView::Operational(e)),
        Ok(r) => reader.spec_select(g, r),
    }
}

/// Resolves a canonical Core schema key, staged definitions first, then
/// selects its authoritative content.
pub fn resolve_core_descriptor_with_reader<R: DescriptorReader>(g: &HolonGraph, key: &str, reader: &R) -> (res: Result<
    HolonReference,
    AssessmentReadError,
>)
    ensures
        read_view(res) == spec_resolve_core_descriptor_with_reader(g@, g.spec_updates(), *reader, key@),
{
    match resolve_core_descriptor(g, key) {
        Ok(r) => reader.select(g, r),
        Err(e) => Err(AssessmentReadError::Operational(e)),
    }
}

/// The seven canonical value-family roots, by key, with the kind each anchors.
pub open spec fn spec_family_table() -> Seq<(Seq<char>, ValueKindView)> {
    seq![
        ("StringValueType.ValueType"@, ValueKindView::BaseValue(BaseValueKind::String)),
        ("IntegerValueType.ValueType"@, ValueKindView::BaseValue(BaseValueKind::Integer)),
        ("BooleanValueType.ValueType"@, ValueKindView::BaseValue(BaseValueKind::Boolean)),
        ("BytesValueType.ValueType"@, ValueKindView::BaseValue(BaseValueKind::Bytes)),
        ("EnumValueType.ValueType"@, ValueKindView::BaseValue(BaseValueKind::Enum)),
        ("BaseValueValueType.ValueType"@, ValueKindView::AnyBaseValue),
        ("ValueArrayValueType.ValueType"@, ValueKindView::ValueArray),
    ]
}

/// Resolves `table[i..]` appending to `acc`; the first failure wins.
pub open spec fn roots_from(
    g: Seq<HolonView>,
    updates: Seq<(usize, usize)>,
    table: Seq<(Seq<char>, ValueKindView)>,
    i: int,
    acc: Seq<(HolonReference, ValueKindView)>,
) -> Result<Seq<(HolonReference, ValueKindView)>, ErrorView>
    decreases table.len() - i,
{
    if i < 0 || i >= table.len() {
        Ok(acc)
    } else {
        match spec_resolve_core_descriptor(g, updates, table[i].0) {
            Err(e) => Err(e),
            Ok(r) => roots_from(g, updates, table, i + 1, acc.push((r, table[i].1))),
        }
    }
}

/// The resolved family roots, in table order.
pub open spec fn spec_resolve_roots(g: Seq<HolonView>, updates: Seq<(usize, usize)>) -> Result<
    Seq<(HolonReference, ValueKindView)>,
    ErrorView,
> {
    roots_from(g, updates, spec_family_table(), 0, Seq::empty())
}

/// Canonical value-family identities resolved once for a validation pass.
///
/// Holds references, not descriptor contents; resolve again after the schema changes.
pub struct ResolvedValueTypeRoots {
    pub families: Vec<(HolonReference, ValueDescriptorKind)>,
}

impl ResolvedValueTypeRoots {
    /// The family roots with their kinds.
    pub open spec fn spec_families(&self) -> Seq<(HolonReference, ValueKindView)> {
        self.families@.map_values(|p: (HolonReference, ValueDescriptorKind)| (p.0, p.1@))
    }
}

fn family_table() -> (t: Vec<(&'static str, ValueDescriptorKind)>)
    ensures
        t@.map_values(|p: (&'static str, ValueDescriptorKind)| (p.0@, p.1@)) == spec_family_table(),
{
    let t = vec![
        ("StringValueType.ValueType", ValueDescriptorKind::BaseValue(BaseValueKind::String)),
        ("IntegerValueType.ValueType", ValueDescriptorKind::BaseValue(BaseValueKind::Integer)),
        ("BooleanValueType.ValueType", ValueDescriptorKind::BaseValue(BaseValueKind::Boolean)),
        ("BytesValueType.ValueType", ValueDescriptorKind::BaseValue(BaseValueKind::Bytes)),
        ("EnumValueType.ValueType", ValueDescriptorKind::BaseValue(BaseValueKind::Enum)),
        ("BaseValueValueType.ValueType", ValueDescriptorKind::AnyBaseValue),
        ("ValueArrayValueType.ValueType", ValueDescriptorKind::ValueArray),
    ];
    assert(t@.map_values(|p: (&'static str, ValueDescriptorKind)| (p.0@, p.1@)) =~= spec_family_table());
    t
}

impl ResolvedValueTypeRoots {
    /// Resolves the seven canonical Core family roots, staged definitions first.
    pub fn resolve(g: &HolonGraph) -> (res: Result<ResolvedValueTypeRoots, HolonError>)
        ensures
            match res {
                Ok(roots) => spec_resolve_roots(g@, g.spec_updates()) == Ok::<_, ErrorView>(roots.spec_families()),
                Err(e) => spec_resolve_roots(g@, g.spec_updates()) == Err::<Seq<(HolonReference, ValueKindView)>, ErrorView>(e@),
            },
    {
        let table = family_table();
        let ghost t = spec_family_table();
        let mut families: Vec<(HolonReference, ValueDescriptorKind)> = Vec::new();
        assert(families@.map_values(|p: (HolonReference, ValueDescriptorKind)| (p.0, p.1@)) =~= Seq::<
            (HolonReference, ValueKindView),
        >::empty());
        let mut i: usize = 0;
        while i < table.len()
            invariant
                i <= table.len(),
                t == spec_family_table(),
                table@.map_values(|p: (&'static str, ValueDescriptorKind)| (p.0@, p.1@)) == t,
                spec_resolve_roots(g@, g.spec_updates()) == roots_from(
                    g@,
                    g.spec_updates(),
                    t,
                    i as int,
                    families@.map_values(|p: (HolonReference, ValueDescriptorKind)| (p.0, p.1@)),
                ),
            decreases table.len() - i,
        {
            assert(t[i as int] == (table@[i as int].0@, table@[i as int].1@));
            let r = resolve_core_descriptor(g, table[i].0)?;
            let ghost before = families@.map_values(|p: (HolonReference, ValueDescriptorKind)| (p.0, p.1@));
            let kind = table[i].1.duplicate();
            families.push((r, kind));
            assert(families@.map_values(|p: (HolonReference, ValueDescriptorKind)| (p.0, p.1@)) =~= before.push(
                (r, t[i as int].1),
            ));
            i = i + 1;
        }
        Ok(ResolvedValueTypeRoots { families })
    }
}

} // verus!
