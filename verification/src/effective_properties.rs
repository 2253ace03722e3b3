//! Policy-aware effective instance-property resolution.
//!
//! The relationship descriptor that licenses `InstanceProperties` on a
//! descriptor's own describer supplies the inheritance mode, rather than a
//! fixed kernel rule.
use crate::accessor_helpers::name_position;
use crate::error::{rview, ErrorView, HolonError};
use crate::graph::{spec_property_value, spec_related, HolonGraph, HolonReference, HolonView};
use crate::holon_descriptor::{holon_descriptor, spec_get_by_name, spec_holon_descriptor, HolonDescriptor};
use crate::inheritance::{lemma_walk_starts_with_subject, locals_upto, members_under_rule, spec_ancestors, spec_equals_or_extends, spec_local_members, spec_members_under_rule, EffectiveRelationshipMember, InheritanceRule};
use crate::names::{CorePropertyTypeName, CoreRelationshipTypeName};
use crate::descriptor::Descriptor;
use crate::property_descriptor::{wrap_all_property_descriptor, PropertyDescriptor};
use crate::type_header::{spec_type_name, TypeHeader};
use crate::values::{kind_label, BaseValue, BaseValueView, MapString};
use vstd::prelude::*;
use vstd::string::*;

verus! {

/// The inheritance rule named by an `InheritanceMode` value: `None` reads only
/// the descriptor itself, `Additive` and `Override` as their names say.
pub open spec fn spec_inheritance_mode_of(v: BaseValueView) -> Result<InheritanceRule, ErrorView> {
    match v {
        BaseValueView::StringValue(s) => mode_named(s),
        BaseValueView::EnumValue(s) => mode_named(s),
        other => Err(ErrorView::UnexpectedValueType(kind_label(other.kind()), "InheritanceMode enum"@)),
    }
}

/// The inheritance rule named `s`.
pub open spec fn mode_named(s: Seq<char>) -> Result<InheritanceRule, ErrorView> {
    if s == "None"@ {
        Ok(InheritanceRule::Local)
    } else if s == "Additive"@ {
        Ok(InheritanceRule::Additive)
    } else if s == "Override"@ {
        Ok(InheritanceRule::Override)
    } else {
        Err(ErrorView::InvalidParameter("Unsupported InheritanceMode '"@ + s + "' for InstanceProperties"@))
    }
}

/// The inheritance mode of `InstanceProperties` for `descriptor`, read from the
/// `InstanceProperties` declaration of the descriptor's own describer.
pub open spec fn spec_instance_properties_mode(g: Seq<HolonView>, descriptor: HolonReference) -> Result<
    InheritanceRule,
    ErrorView,
> {
    match spec_holon_descriptor(g, descriptor) {
        Err(e) => Err(e),
        Ok(meta) => match spec_get_by_name(
            g,
            meta,
            CoreRelationshipTypeName::InstanceRelationships,
            "InstanceProperties"@,
            "relationship"@,
        ) {
            Err(e) => Err(e),
            Ok(rel) => match spec_property_value(g, rel, CorePropertyTypeName::InheritanceMode.spec_name()) {
                Err(e) => Err(e),
                Ok(None) => Err(ErrorView::EmptyField("InheritanceMode"@)),
                Ok(Some(v)) => spec_inheritance_mode_of(v),
            },
        },
    }
}

/// Folds `ms[i..]` into the normalized property list `acc` (with names `names`):
/// a repeated reference is kept once, a distinct property under a name already
/// taken is a duplicate declaration on `owner`.
pub open spec fn normalize_from(
    g: Seq<HolonView>,
    owner: HolonReference,
    ms: Seq<HolonReference>,
    i: int,
    names: Seq<Seq<char>>,
    acc: Seq<HolonReference>,
) -> Result<Seq<HolonReference>, ErrorView>
    decreases ms.len() - i,
{
    if i < 0 || i >= ms.len() {
        Ok(acc)
    } else {
        match spec_type_name(g, ms[i]) {
            Err(e) => Err(e),
            Ok(n) => {
                let p = name_position(names, n, 0);
                if p >= 0 {
                    if acc[p] != ms[i] {
                        Err(ErrorView::DuplicateInheritedDeclaration { kind: "property"@, name: n, descriptor: owner })
                    } else {
                        normalize_from(g, owner, ms, i + 1, names, acc)
                    }
                } else {
                    normalize_from(g, owner, ms, i + 1, names.push(n), acc.push(ms[i]))
                }
            },
        }
    }
}

/// The members of effective relationship members, in order.
pub open spec fn member_refs_of(ms: Seq<EffectiveRelationshipMember>) -> Seq<HolonReference> {
    ms.map_values(|m: EffectiveRelationshipMember| m.member)
}

/// The effective instance properties of `descriptor` under its declared inheritance mode.
pub open spec fn spec_effective_instance_properties(g: Seq<HolonView>, descriptor: HolonReference) -> Result<
    Seq<HolonReference>,
    ErrorView,
> {
    match spec_instance_properties_mode(g, descriptor) {
        Err(e) => Err(e),
        Ok(rule) => match spec_members_under_rule(g, descriptor, CoreRelationshipTypeName::InstanceProperties, rule) {
            Err(e) => Err(e),
            Ok(ms) => normalize_from(g, descriptor, member_refs_of(ms), 0, Seq::empty(), Seq::empty()),
        },
    }
}

fn mode_from_name(s: &MapString) -> (res: Result<InheritanceRule, HolonError>)
    ensures
        rview(res) == mode_named(s@),
{
    if s.equals(&MapString::from_str("None")) {
        Ok(InheritanceRule::Local)
    } else if s.equals(&MapString::from_str("Additive")) {
        Ok(InheritanceRule::Additive)
    } else if s.equals(&MapString::from_str("Override")) {
        Ok(InheritanceRule::Override)
    } else {
        let mut message = String::from_str("Unsupported InheritanceMode '");
        message.append(s.0.as_str());
        message.append("' for InstanceProperties");
        Err(HolonError::InvalidParameter(message))
    }
}

/// Reads the inheritance mode that governs `InstanceProperties` for `descriptor`.
pub fn instance_properties_inheritance_mode(g: &HolonGraph, descriptor: &HolonDescriptor) -> (res: Result<
    InheritanceRule,
    HolonError,
>)
    ensures
        rview(res) == spec_instance_properties_mode(g@, descriptor@),
{
    let meta = holon_descriptor(g, descriptor.holon())?;
    let relationship = meta.relationship_named(g, &MapString::from_str("InstanceProperties"))?;
    let value = g.property_value(relationship.holon(), &CorePropertyTypeName::InheritanceMode.as_property_name())?;
    match value {
        None => Err(HolonError::EmptyField(String::from_str("InheritanceMode"))),
        Some(BaseValue::StringValue(s)) => mode_from_name(&s),
        Some(BaseValue::EnumValue(e)) => mode_from_name(&e.0),
        Some(other) => Err(HolonError::UnexpectedValueType(other.kind().label(), String::from_str("InheritanceMode enum"))),
    }
}

fn find_name(names: &Vec<MapString>, n: &MapString) -> (r: Option<usize>)
    ensures
        match r {
            Some(p) => p < names@.len() && name_position(names.deep_view(), n@, 0) == p,
            None => name_position(names.deep_view(), n@, 0) == -1,
        },
{
    let ghost nv = names.deep_view();
    let mut p: usize = 0;
    while p < names.len()
        invariant
            p <= names.len(),
            nv == names.deep_view(),
            name_position(nv, n@, 0) == name_position(nv, n@, p as int),
        decreases names.len() - p,
    {
        if names[p].equals(n) {
            return Some(p);
        }
        p = p + 1;
    }
    None
}

/// Normalizes property members: repeats of one property are kept once, two
/// distinct properties sharing a name are a duplicate declaration.
pub fn normalize_property_members(g: &HolonGraph, owner: &HolonDescriptor, members: &Vec<HolonReference>) -> (res:
    Result<Vec<HolonReference>, HolonError>)
    ensures
        rview(res) == normalize_from(g@, owner@, members@, 0, Seq::empty(), Seq::empty()),
{
    let mut names: Vec<MapString> = Vec::new();
    let mut out: Vec<HolonReference> = Vec::new();
    assert(names.deep_view() =~= Seq::<Seq<char>>::empty());
    let mut i: usize = 0;
    while i < members.len()
        invariant
            i <= members.len(),
            names@.len() == out@.len(),
            normalize_from(g@, owner@, members@, 0, Seq::empty(), Seq::empty()) == normalize_from(
                g@,
                owner@,
                members@,
                i as int,
                names.deep_view(),
                out@,
            ),
        decreases members.len() - i,
    {
        let m = members[i];
        let n = TypeHeader::new(m).declared_type_name(g)?;
        let ghost nv = names.deep_view();
        let found = find_name(&names, &n);
        if let Some(p) = found {
            if !out[p].same(&m) {
                return Err(
                    HolonError::DuplicateInheritedDeclaration {
                        kind: String::from_str("property"),
                        name: n.0,
                        descriptor: owner.holon(),
                    },
                );
            }
        } else {
            names.push(n);
            out.push(m);
            assert(names.deep_view() =~= nv.push(n@));
        }
        i = i + 1;
    }
    assert(out.deep_view() =~= out@);
    Ok(out)
}

fn property_descriptors_of(members: &Vec<EffectiveRelationshipMember>) -> (r: Vec<PropertyDescriptor>)
    ensures
        r.deep_view() == member_refs_of(members@),
{
    let mut refs: Vec<HolonReference> = Vec::new();
    let mut i: usize = 0;
    while i < members.len()
        invariant
            i <= members.len(),
            refs@ == member_refs_of(members@.subrange(0, i as int)),
        decreases members.len() - i,
    {
        refs.push(members[i].member);
        i = i + 1;
        assert(refs@ =~= member_refs_of(members@.subrange(0, i as int)));
    }
    assert(members@.subrange(0, i as int) =~= members@);
    wrap_all_property_descriptor(refs)
}

/// The properties `descriptor` declares locally.
pub fn local_instance_properties(g: &HolonGraph, descriptor: HolonReference) -> (res: Result<
    Vec<PropertyDescriptor>,
    HolonError,
>)
    ensures
        rview(res) == match spec_members_under_rule(
            g@,
            descriptor,
            CoreRelationshipTypeName::InstanceProperties,
            InheritanceRule::Local,
        ) {
            Err(e) => Err(e),
            Ok(ms) => Ok::<Seq<HolonReference>, ErrorView>(member_refs_of(ms)),
        },
{
    let ms = members_under_rule(g, descriptor, CoreRelationshipTypeName::InstanceProperties, InheritanceRule::Local)?;
    Ok(property_descriptors_of(&ms))
}

/// The properties declared along the lineage of `descriptor`, root first.
pub fn additive_instance_properties(g: &HolonGraph, descriptor: HolonReference) -> (res: Result<
    Vec<PropertyDescriptor>,
    HolonError,
>)
    ensures
        rview(res) == match spec_members_under_rule(
            g@,
            descriptor,
            CoreRelationshipTypeName::InstanceProperties,
            InheritanceRule::Additive,
        ) {
            Err(e) => Err(e),
            Ok(ms) => Ok::<Seq<HolonReference>, ErrorView>(member_refs_of(ms)),
        },
{
    let ms = members_under_rule(g, descriptor, CoreRelationshipTypeName::InstanceProperties, InheritanceRule::Additive)?;
    Ok(property_descriptors_of(&ms))
}

/// The nearest non-empty local property declarations along the lineage of `descriptor`.
pub fn override_instance_properties(g: &HolonGraph, descriptor: HolonReference) -> (res: Result<
    Vec<PropertyDescriptor>,
    HolonError,
>)
    ensures
        rview(res) == match spec_members_under_rule(
            g@,
            descriptor,
            CoreRelationshipTypeName::InstanceProperties,
            InheritanceRule::Override,
        ) {
            Err(e) => Err(e),
            Ok(ms) => Ok::<Seq<HolonReference>, ErrorView>(member_refs_of(ms)),
        },
{
    let ms = members_under_rule(g, descriptor, CoreRelationshipTypeName::InstanceProperties, InheritanceRule::Override)?;
    Ok(property_descriptors_of(&ms))
}

/// Returns the effective `InstanceProperties` declarations of `descriptor`,
/// under the inheritance mode its describer declares for them.
pub fn effective_instance_properties(g: &HolonGraph, descriptor: &HolonDescriptor) -> (res: Result<
    Vec<PropertyDescriptor>,
    HolonError,
>)
    ensures
        rview(res) == spec_effective_instance_properties(g@, descriptor@),
{
    let mode = instance_properties_inheritance_mode(g, descriptor)?;
    let members = match mode {
        InheritanceRule::Local => local_instance_properties(g, descriptor.holon())?,
        InheritanceRule::Additive => additive_instance_properties(g, descriptor.holon())?,
        InheritanceRule::Override => override_instance_properties(g, descriptor.holon())?,
    };
    let mut refs: Vec<HolonReference> = Vec::new();
    let mut i: usize = 0;
    while i < members.len()
        invariant
            i <= members.len(),
            refs@ == members.deep_view().subrange(0, i as int),
        decreases members.len() - i,
    {
        refs.push(members[i].holon());
        i = i + 1;
        assert(refs@ =~= members.deep_view().subrange(0, i as int));
    }
    assert(members.deep_view().subrange(0, i as int) =~= members.deep_view());
    let normalized = normalize_property_members(g, descriptor, &refs)?;
    assert(normalized.deep_view() =~= normalized@);
    Ok(wrap_all_property_descriptor(normalized))
}

proof fn lemma_name_position(names: Seq<Seq<char>>, x: Seq<char>, i: int)
    requires
        0 <= i,
    ensures
        name_position(names, x, i) >= 0 ==> i <= name_position(names, x, i) < names.len(),
    decreases names.len() - i,
{
    if 0 <= i < names.len() && names[i] != x {
        lemma_name_position(names, x, i + 1);
    }
}

proof fn lemma_normalize_keeps_only_candidates(
    g: Seq<HolonView>,
    owner: HolonReference,
    ms: Seq<HolonReference>,
    i: int,
    names: Seq<Seq<char>>,
    acc: Seq<HolonReference>,
)
    requires
        0 <= i,
    ensures
        normalize_from(g, owner, ms, i, names, acc) matches Ok(out) ==> forall|x: HolonReference|
            #[trigger] out.contains(x) ==> acc.contains(x) || ms.contains(x),
    decreases ms.len() - i,
{
    if i < ms.len() {
        if let Ok(n) = spec_type_name(g, ms[i]) {
            let p = name_position(names, n, 0);
            if p >= 0 {
                lemma_normalize_keeps_only_candidates(g, owner, ms, i + 1, names, acc);
            } else {
                lemma_normalize_keeps_only_candidates(g, owner, ms, i + 1, names.push(n), acc.push(ms[i]));
                assert forall|x: HolonReference| acc.push(ms[i]).contains(x) implies acc.contains(x) || ms.contains(
                    x,
                ) by {
                    let q = choose|q: int| 0 <= q < acc.push(ms[i]).len() && acc.push(ms[i])[q] == x;
                    if q < acc.len() {
                        assert(acc[q] == x);
                    }
                }
            }
        }
    }
}

proof fn lemma_normalize_keeps_every_candidate(
    g: Seq<HolonView>,
    owner: HolonReference,
    ms: Seq<HolonReference>,
    i: int,
    names: Seq<Seq<char>>,
    acc: Seq<HolonReference>,
)
    requires
        0 <= i,
        names.len() == acc.len(),
    ensures
        normalize_from(g, owner, ms, i, names, acc) matches Ok(out) ==> (forall|x: HolonReference|
            acc.contains(x) ==> #[trigger] out.contains(x)) && (forall|k: int|
            i <= k < ms.len() ==> out.contains(#[trigger] ms[k])),
    decreases ms.len() - i,
{
    if i < ms.len() {
        if let Ok(n) = spec_type_name(g, ms[i]) {
            let p = name_position(names, n, 0);
            lemma_name_position(names, n, 0);
            if p >= 0 {
                lemma_normalize_keeps_every_candidate(g, owner, ms, i + 1, names, acc);
                if acc[p] == ms[i] {
                    assert(acc.contains(ms[i]));
                }
            } else {
                let acc2 = acc.push(ms[i]);
                lemma_normalize_keeps_every_candidate(g, owner, ms, i + 1, names.push(n), acc2);
                assert forall|x: HolonReference| acc.contains(x) implies acc2.contains(x) by {
                    let q = choose|q: int| 0 <= q < acc.len() && acc[q] == x;
                    assert(acc2[q] == x);
                }
                assert(acc2[acc.len() as int] == ms[i]);
                assert(acc2.contains(ms[i]));
            }
        }
    }
}

/// An `InheritanceMode` of `None` on the describer's `InstanceProperties`
/// declaration keeps the effective properties to the descriptor's own: they
/// are its local `InstanceProperties`, normalized, and none of them comes
/// from anywhere else.
pub proof fn law_none_mode_keeps_only_own_properties(
    g: Seq<HolonView>,
    descriptor: HolonReference,
    declaration: HolonReference,
    mode: BaseValueView,
)
    requires
        spec_holon_descriptor(g, descriptor) matches Ok(meta) && spec_get_by_name(
            g,
            meta,
            CoreRelationshipTypeName::InstanceRelationships,
            "InstanceProperties"@,
            "relationship"@,
        ) == Ok::<HolonReference, ErrorView>(declaration),
        mode == BaseValueView::StringValue("None"@) || mode == BaseValueView::EnumValue("None"@),
        spec_property_value(g, declaration, CorePropertyTypeName::InheritanceMode.spec_name()) == Ok::<
            Option<BaseValueView>,
            ErrorView,
        >(Some(mode)),
    ensures
        spec_effective_instance_properties(g, descriptor) == match spec_related(
            g,
            descriptor,
            CoreRelationshipTypeName::InstanceProperties.spec_name(),
        ) {
            Err(e) => Err(e),
            Ok(own) => normalize_from(g, descriptor, own, 0, Seq::empty(), Seq::empty()),
        },
        spec_effective_instance_properties(g, descriptor) matches Ok(out) ==> forall|j: int|
            0 <= j < out.len() ==> spec_related(g, descriptor, CoreRelationshipTypeName::InstanceProperties.spec_name())->Ok_0.contains(
                #[trigger] out[j],
            ),
{
    reveal_strlit("None");
    assert(spec_instance_properties_mode(g, descriptor) == Ok::<InheritanceRule, ErrorView>(InheritanceRule::Local));
    if let Ok(own) = spec_related(g, descriptor, CoreRelationshipTypeName::InstanceProperties.spec_name()) {
        let lm = spec_local_members(g, descriptor, CoreRelationshipTypeName::InstanceProperties.spec_name())->Ok_0;
        assert(member_refs_of(lm) =~= own);
        lemma_normalize_keeps_only_candidates(g, descriptor, own, 0, Seq::empty(), Seq::empty());
        if let Ok(out) = spec_effective_instance_properties(g, descriptor) {
            assert forall|j: int| 0 <= j < out.len() implies own.contains(#[trigger] out[j]) by {
                assert(out.contains(out[j]));
            }
        }
    }
}

proof fn lemma_locals_upto_holds(
    g: Seq<HolonView>,
    ds: Seq<HolonReference>,
    rel: Seq<char>,
    n: int,
    k: int,
    x: HolonReference,
)
    requires
        0 <= k < n,
        locals_upto(g, ds, rel, n) is Ok,
        spec_related(g, ds[k], rel) matches Ok(m) && m.contains(x),
    ensures
        member_refs_of(locals_upto(g, ds, rel, n)->Ok_0).contains(x),
    decreases n,
{
    let acc = locals_upto(g, ds, rel, n - 1)->Ok_0;
    let lm = spec_local_members(g, ds[n - 1], rel)->Ok_0;
    let all = locals_upto(g, ds, rel, n)->Ok_0;
    assert(all == acc + lm);
    if k == n - 1 {
        let m = spec_related(g, ds[k], rel)->Ok_0;
        let q = choose|q: int| 0 <= q < m.len() && m[q] == x;
        assert(all[acc.len() + q] == lm[q]);
        assert(member_refs_of(all)[acc.len() + q] == x);
    } else {
        lemma_locals_upto_holds(g, ds, rel, n - 1, k, x);
        let q = choose|q: int| 0 <= q < member_refs_of(acc).len() && member_refs_of(acc)[q] == x;
        assert(all[q] == acc[q]);
        assert(member_refs_of(all)[q] == x);
    }
}

/// An `InheritanceMode` of `Additive` keeps every property declared anywhere
/// along the descriptor's `Extends` lineage: each `InstanceProperties` member
/// of the descriptor or of an ancestor is effective.
pub proof fn law_additive_mode_keeps_every_lineage_property(
    g: Seq<HolonView>,
    descriptor: HolonReference,
    declaration: HolonReference,
    mode: BaseValueView,
    ancestor: HolonReference,
    property: HolonReference,
)
    requires
        spec_holon_descriptor(g, descriptor) matches Ok(meta) && spec_get_by_name(
            g,
            meta,
            CoreRelationshipTypeName::InstanceRelationships,
            "InstanceProperties"@,
            "relationship"@,
        ) == Ok::<HolonReference, ErrorView>(declaration),
        mode == BaseValueView::StringValue("Additive"@) || mode == BaseValueView::EnumValue("Additive"@),
        spec_property_value(g, declaration, CorePropertyTypeName::InheritanceMode.spec_name()) == Ok::<
            Option<BaseValueView>,
            ErrorView,
        >(Some(mode)),
        spec_equals_or_extends(g, descriptor, ancestor) == Ok::<bool, ErrorView>(true),
        spec_related(g, ancestor, CoreRelationshipTypeName::InstanceProperties.spec_name()) matches Ok(m)
            && m.contains(property),
    ensures
        spec_effective_instance_properties(g, descriptor) matches Ok(out) ==> out.contains(property),
{
    reveal_strlit("None");
    reveal_strlit("Additive");
    assert("None"@ != "Additive"@) by {
        assert("None"@[0] != "Additive"@[0]);
    }
    assert(spec_instance_properties_mode(g, descriptor) == Ok::<InheritanceRule, ErrorView>(InheritanceRule::Additive));
    if let Ok(out) = spec_effective_instance_properties(g, descriptor) {
        let l = spec_ancestors(g, descriptor)->Ok_0;
        let rel = CoreRelationshipTypeName::InstanceProperties.spec_name();
        assert(l.contains(ancestor));
        let k = choose|k: int| 0 <= k < l.len() && l[k] == ancestor;
        let ds = l.reverse();
        assert(ds[l.len() - 1 - k] == ancestor);
        lemma_locals_upto_holds(g, ds, rel, l.len() as int, l.len() - 1 - k, property);
        let refs = member_refs_of(locals_upto(g, ds, rel, l.len() as int)->Ok_0);
        lemma_normalize_keeps_every_candidate(g, descriptor, refs, 0, Seq::empty(), Seq::empty());
        let q = choose|q: int| 0 <= q < refs.len() && refs[q] == property;
        assert(out.contains(refs[q]));
    }
}

/// An `InheritanceMode` of `Override` lets a descriptor that declares
/// properties itself replace every inherited declaration: its effective
/// properties are then its own local `InstanceProperties`, normalized.
pub proof fn law_override_mode_prefers_own_properties(
    g: Seq<HolonView>,
    descriptor: HolonReference,
    declaration: HolonReference,
    mode: BaseValueView,
)
    requires
        spec_holon_descriptor(g, descriptor) matches Ok(meta) && spec_get_by_name(
            g,
            meta,
            CoreRelationshipTypeName::InstanceRelationships,
            "InstanceProperties"@,
            "relationship"@,
        ) == Ok::<HolonReference, ErrorView>(declaration),
        mode == BaseValueView::StringValue("Override"@) || mode == BaseValueView::EnumValue("Override"@),
        spec_property_value(g, declaration, CorePropertyTypeName::InheritanceMode.spec_name()) == Ok::<
            Option<BaseValueView>,
            ErrorView,
        >(Some(mode)),
        spec_related(g, descriptor, CoreRelationshipTypeName::InstanceProperties.spec_name()) matches Ok(own)
            && own.len() > 0,
    ensures
        spec_effective_instance_properties(g, descriptor) == normalize_from(
            g,
            descriptor,
            spec_related(g, descriptor, CoreRelationshipTypeName::InstanceProperties.spec_name())->Ok_0,
            0,
            Seq::empty(),
            Seq::empty(),
        ),
        spec_effective_instance_properties(g, descriptor) matches Ok(out) ==> forall|j: int|
            0 <= j < out.len() ==> spec_related(g, descriptor, CoreRelationshipTypeName::InstanceProperties.spec_name())->Ok_0.contains(
                #[trigger] out[j],
            ),
{
    reveal_strlit("None");
    reveal_strlit("Additive");
    reveal_strlit("Override");
    assert("None"@ != "Override"@) by {
        assert("None"@[0] != "Override"@[0]);
    }
    assert("Additive"@ != "Override"@) by {
        assert("Additive"@[0] != "Override"@[0]);
    }
    assert(spec_instance_properties_mode(g, descriptor) == Ok::<InheritanceRule, ErrorView>(InheritanceRule::Override));
    lemma_walk_starts_with_subject(g, descriptor);
    let rel = CoreRelationshipTypeName::InstanceProperties.spec_name();
    let own = spec_related(g, descriptor, rel)->Ok_0;
    let lm = spec_local_members(g, descriptor, rel)->Ok_0;
    assert(member_refs_of(lm) =~= own);
    lemma_normalize_keeps_only_candidates(g, descriptor, own, 0, Seq::empty(), Seq::empty());
    if let Ok(out) = spec_effective_instance_properties(g, descriptor) {
        assert forall|j: int| 0 <= j < out.len() implies own.contains(#[trigger] out[j]) by {
            assert(out.contains(out[j]));
        }
    }
}

} // verus!
