//! Semantic wrapper for enum value descriptors.
use crate::descriptor::Descriptor;
use crate::error::{rview, ErrorView, HolonError};
use crate::graph::{spec_related, HolonGraph, HolonReference, HolonView};
use crate::operator_descriptor::OperatorDescriptor;
use crate::type_header::{spec_type_name, TypeHeader};
use crate::value_descriptor_subtypes::helpers::{operator_named, spec_operator_named, spec_supported_operators, spec_supports_operator, spec_unsupported_operator, spec_value_kind_mismatch, supported_operators, supports_operator, unsupported_operator, value_kind_mismatch};
use crate::values::{BaseValue, BaseValueView};
use vstd::prelude::*;
use vstd::string::*;
use crate::accessor_helpers::names_contain;
use crate::inheritance::{flatten_related_members, related_upto, spec_ancestors, spec_equals_or_extends, spec_flatten};
use crate::names::CoreRelationshipTypeName;
use crate::values::MapString;

verus! {

/// The type names of `vs[i..]` appended to `acc`; the first unreadable name fails.
pub open spec fn type_names_from(g: Seq<HolonView>, vs: Seq<HolonReference>, i: int, acc: Seq<Seq<char>>) -> Result<
    Seq<Seq<char>>,
    ErrorView,
>
    decreases vs.len() - i,
{
    if i < 0 || i >= vs.len() {
        Ok(acc)
    } else {
        match spec_type_name(g, vs[i]) {
            Err(e) => Err(e),
            Ok(n) => type_names_from(g, vs, i + 1, acc.push(n)),
        }
    }
}

/// The variant names declared by an enum descriptor across its lineage.
pub open spec fn spec_declared_variants(g: Seq<HolonView>, holon: HolonReference) -> Result<
    Seq<Seq<char>>,
    ErrorView,
> {
    match spec_flatten(g, holon, CoreRelationshipTypeName::Variants.spec_name()) {
        Err(e) => Err(e),
        Ok(vs) => type_names_from(g, vs, 0, Seq::empty()),
    }
}

/// Validity of `value` for an enum descriptor: an enum value naming a declared variant.
pub open spec fn spec_enum_is_valid(g: Seq<HolonView>, holon: HolonReference, value: BaseValueView) -> Result<
    (),
    ErrorView,
> {
    match value {
        BaseValueView::EnumValue(v) => match spec_declared_variants(g, holon) {
            Err(e) => Err(e),
            Ok(names) => if names.contains(v) {
                Ok(())
            } else {
                match spec_type_name(g, holon) {
                    Err(e) => Err(e),
                    Ok(value_type) => Err(
                        ErrorView::EnumVariantNotInSchema { variant: v, value_type, descriptor: holon },
                    ),
                }
            },
        },
        other => Err(spec_value_kind_mismatch(holon, "Enum"@, other)),
    }
}

/// Applying an enum operator: only `EqualsOperator`, on two valid variants.
pub open spec fn spec_enum_apply(
    g: Seq<HolonView>,
    holon: HolonReference,
    op: HolonReference,
    lhs: BaseValueView,
    rhs: BaseValueView,
) -> Result<bool, ErrorView> {
    match spec_operator_named(g, op, "EqualsOperator"@) {
        Err(e) => Err(e),
        Ok(false) => Err(spec_unsupported_operator(g, holon, op)),
        Ok(true) => match spec_enum_is_valid(g, holon, lhs) {
            Err(e) => Err(e),
            Ok(_) => match spec_enum_is_valid(g, holon, rhs) {
                Err(e) => Err(e),
                Ok(_) => Ok(lhs == rhs),
            },
        },
    }
}

/// Semantic wrapper for enum value descriptors.
pub struct EnumValueDescriptor {
    holon: HolonReference,
}

impl View for EnumValueDescriptor {
    type V = HolonReference;

    closed spec fn view(&self) -> HolonReference {
        self.holon
    }
}

impl DeepView for EnumValueDescriptor {
    type V = HolonReference;

    open spec fn deep_view(&self) -> HolonReference {
        self@
    }
}

impl Descriptor for EnumValueDescriptor {
    open spec fn spec_holon(&self) -> HolonReference {
        self@
    }

    fn holon(&self) -> (r: HolonReference) {
        self.holon
    }
}

impl From<HolonReference> for EnumValueDescriptor {
    fn from(holon: HolonReference) -> (d: Self)
        ensures
            d@ == holon,
    {
        Self { holon }
    }
}

impl vstd::std_specs::convert::FromSpecImpl<HolonReference> for EnumValueDescriptor {
    open spec fn obeys_from_spec() -> bool {
        true
    }

    closed spec fn from_spec(v: HolonReference) -> Self {
        EnumValueDescriptor { holon: v }
    }
}

impl EnumValueDescriptor {
    /// Wraps an already-resolved descriptor holon reference.
    pub fn from_holon(holon: HolonReference) -> (d: Self)
        ensures
            d@ == holon,
    {
        Self { holon }
    }

    /// Projects the shared descriptor header view for this descriptor holon.
    pub fn header(&self) -> (h: TypeHeader)
        ensures
            h.holon == self@,
    {
        TypeHeader::new(self.holon)
    }

    /// Validates that a runtime enum value is one of this descriptor's variants.
    pub fn is_valid(&self, g: &HolonGraph, value: &BaseValue) -> (res: Result<(), HolonError>)
        ensures
            rview(res) == spec_enum_is_valid(g@, self@, value@),
    {
        let variant = match value {
            BaseValue::EnumValue(v) => &v.0,
            other => {
                return Err(value_kind_mismatch(self.holon, "Enum", other));
            },
        };
        let names = self.declared_variants(g)?;
        if names_contain(&names, variant) {
            return Ok(());
        }
        let value_type = TypeHeader::new(self.holon).declared_type_name(g)?;
        Err(
            HolonError::EnumVariantNotInSchema {
                variant: variant.to_owned_string(),
                value_type: value_type.0,
                descriptor: self.holon,
            },
        )
    }

    /// Returns operators afforded by this value descriptor across inheritance.
    pub fn supported_operators(&self, g: &HolonGraph) -> (res: Result<Vec<OperatorDescriptor>, HolonError>)
        ensures
            rview(res) == spec_supported_operators(g@, self@),
    {
        supported_operators(g, self.holon)
    }

    /// Returns whether this descriptor affords the supplied operator.
    pub fn supports_operator(&self, g: &HolonGraph, op: &OperatorDescriptor) -> (res: Result<bool, HolonError>)
        ensures
            rview(res) == spec_supports_operator(g@, self@, op@),
    {
        supports_operator(g, self.holon, op)
    }

    /// Applies an enum operator to two enum operands.
    pub fn apply_operator(&self, g: &HolonGraph, op: &OperatorDescriptor, lhs: &BaseValue, rhs: &BaseValue) -> (res:
        Result<bool, HolonError>)
        ensures
            rview(res) == spec_enum_apply(g@, self@, op@, lhs@, rhs@),
    {
        if !operator_named(g, op, "EqualsOperator")? {
            return unsupported_operator(g, self.holon, op);
        }
        self.is_valid(g, lhs)?;
        self.is_valid(g, rhs)?;
        match (lhs, rhs) {
            (BaseValue::EnumValue(l), BaseValue::EnumValue(r)) => Ok(l.0.equals(&r.0)),
            _ => Ok(false),
        }
    }

    /// Returns the variant names declared across this descriptor's lineage.
    pub fn declared_variants(&self, g: &HolonGraph) -> (res: Result<Vec<MapString>, HolonError>)
        ensures
            rview(res) == spec_declared_variants(g@, self@),
    {
        let variants = flatten_related_members(g, self.holon, CoreRelationshipTypeName::Variants)?;
        let mut names: Vec<MapString> = Vec::new();
        assert(names.deep_view() =~= Seq::<Seq<char>>::empty());
        let mut i: usize = 0;
        while i < variants.len()
            invariant
                i <= variants.len(),
                spec_flatten(g@, self@, CoreRelationshipTypeName::Variants.spec_name()) == Ok::<
                    Seq<HolonReference>,
                    ErrorView,
                >(variants@),
                spec_declared_variants(g@, self@) == type_names_from(
                    g@,
                    variants@,
                    i as int,
                    names.deep_view(),
                ),
            decreases variants.len() - i,
        {
            let n = TypeHeader::new(variants[i]).declared_type_name(g)?;
            let ghost before = names.deep_view();
            names.push(n);
            assert(names.deep_view() =~= before.push(n@));
            i = i + 1;
        }
        Ok(names)
    }
}

/// Whether `x` is among the members of `rel` read from `d`.
pub open spec fn related_contains(g: Seq<HolonView>, d: HolonReference, rel: Seq<char>, x: HolonReference) -> bool {
    spec_related(g, d, rel) is Ok && spec_related(g, d, rel)->Ok_0.contains(x)
}

proof fn lemma_related_upto_holds(
    g: Seq<HolonView>,
    ds: Seq<HolonReference>,
    rel: Seq<char>,
    n: int,
    k: int,
    x: HolonReference,
)
    requires
        0 <= k < n,
        related_upto(g, ds, rel, n) is Ok,
        related_contains(g, ds[k], rel, x),
    ensures
        related_upto(g, ds, rel, n)->Ok_0.contains(x),
    decreases n,
{
    let acc = related_upto(g, ds, rel, n - 1)->Ok_0;
    let all = related_upto(g, ds, rel, n)->Ok_0;
    if k == n - 1 {
        let m = spec_related(g, ds[k], rel)->Ok_0;
        let q = choose|q: int| 0 <= q < m.len() && m[q] == x;
        assert(all[acc.len() + q] == x);
    } else {
        lemma_related_upto_holds(g, ds, rel, n - 1, k, x);
        let q = choose|q: int| 0 <= q < acc.len() && acc[q] == x;
        assert(all[q] == x);
    }
}

proof fn lemma_related_upto_comes_from(g: Seq<HolonView>, ds: Seq<HolonReference>, rel: Seq<char>, n: int, x: HolonReference)
    requires
        0 <= n <= ds.len(),
        related_upto(g, ds, rel, n) is Ok,
        related_upto(g, ds, rel, n)->Ok_0.contains(x),
    ensures
        exists|k: int| 0 <= k < n && #[trigger] related_contains(g, ds[k], rel, x),
    decreases n,
{
    let acc = related_upto(g, ds, rel, n - 1)->Ok_0;
    let m = spec_related(g, ds[n - 1], rel)->Ok_0;
    let all = related_upto(g, ds, rel, n)->Ok_0;
    let q = choose|q: int| 0 <= q < all.len() && all[q] == x;
    if q < acc.len() {
        assert(acc[q] == x);
        lemma_related_upto_comes_from(g, ds, rel, n - 1, x);
        let k = choose|k: int| 0 <= k < n - 1 && #[trigger] related_contains(g, ds[k], rel, x);
        assert(related_contains(g, ds[k], rel, x));
    } else {
        assert(m[q - acc.len()] == x);
        assert(related_contains(g, ds[n - 1], rel, x));
    }
}

proof fn lemma_type_names_from(g: Seq<HolonView>, vs: Seq<HolonReference>, i: int, acc: Seq<Seq<char>>)
    requires
        0 <= i <= vs.len(),
    ensures
        type_names_from(g, vs, i, acc) matches Ok(names) ==> {
            &&& forall|j: int| 0 <= j < acc.len() ==> names.contains(#[trigger] acc[j])
            &&& forall|k: int|
                i <= k < vs.len() ==> (spec_type_name(g, vs[k]) is Ok && names.contains(
                    #[trigger] spec_type_name(g, vs[k])->Ok_0,
                ))
            &&& forall|n: Seq<char>|
                #[trigger] names.contains(n) ==> acc.contains(n) || exists|k: int|
                    i <= k < vs.len() && spec_type_name(g, vs[k]) == Ok::<Seq<char>, ErrorView>(n)
        },
    decreases vs.len() - i,
{
    if i < vs.len() {
        if let Ok(n0) = spec_type_name(g, vs[i]) {
            let acc2 = acc.push(n0);
            lemma_type_names_from(g, vs, i + 1, acc2);
            if let Ok(names) = type_names_from(g, vs, i, acc) {
                assert forall|j: int| 0 <= j < acc.len() implies names.contains(#[trigger] acc[j]) by {
                    assert(acc2[j] == acc[j]);
                }
                assert(names.contains(acc2[acc.len() as int]));
                assert forall|n: Seq<char>| #[trigger] names.contains(n) implies acc.contains(n) || exists|k: int|
                    i <= k < vs.len() && spec_type_name(g, vs[k]) == Ok::<Seq<char>, ErrorView>(n) by {
                    if acc2.contains(n) {
                        let q = choose|q: int| 0 <= q < acc2.len() && acc2[q] == n;
                        if q < acc.len() {
                            assert(acc[q] == n);
                        } else {
                            assert(spec_type_name(g, vs[i]) == Ok::<Seq<char>, ErrorView>(n));
                        }
                    }
                }
            }
        }
    }
}

/// The variants of an enum descriptor are those declared along its whole
/// `Extends` lineage: a variant named by a `Variants` member of the descriptor
/// or of any ancestor is declared, and so valid, for the descendant; and
/// every declared variant is named by such a member.
pub proof fn law_enum_variants_span_the_lineage(
    g: Seq<HolonView>,
    descriptor: HolonReference,
    ancestor: HolonReference,
    variant: HolonReference,
    name: Seq<char>,
)
    ensures
        (spec_equals_or_extends(g, descriptor, ancestor) == Ok::<bool, ErrorView>(true) && related_contains(
            g,
            ancestor,
            CoreRelationshipTypeName::Variants.spec_name(),
            variant,
        ) && spec_type_name(g, variant) == Ok::<Seq<char>, ErrorView>(name))
            ==> (spec_declared_variants(g, descriptor) matches Ok(names) ==> names.contains(name) && spec_enum_is_valid(
            g,
            descriptor,
            BaseValueView::EnumValue(name),
        ) == Ok::<(), ErrorView>(())),
        spec_declared_variants(g, descriptor) matches Ok(names) ==> (names.contains(name) ==> exists|a: HolonReference, v: HolonReference|
            spec_equals_or_extends(g, descriptor, a) == Ok::<bool, ErrorView>(true) && #[trigger] related_contains(
                g,
                a,
                CoreRelationshipTypeName::Variants.spec_name(),
                v,
            ) && #[trigger] spec_type_name(g, v) == Ok::<Seq<char>, ErrorView>(name)),
{
    let rel = CoreRelationshipTypeName::Variants.spec_name();
    if let Ok(names) = spec_declared_variants(g, descriptor) {
        let l = spec_ancestors(g, descriptor)->Ok_0;
        let vs = spec_flatten(g, descriptor, rel)->Ok_0;
        lemma_type_names_from(g, vs, 0, Seq::empty());
        if spec_equals_or_extends(g, descriptor, ancestor) == Ok::<bool, ErrorView>(true) && related_contains(
            g,
            ancestor,
            rel,
            variant,
        ) && spec_type_name(g, variant) == Ok::<Seq<char>, ErrorView>(name) {
            assert(l.contains(ancestor));
            let k = choose|k: int| 0 <= k < l.len() && l[k] == ancestor;
            lemma_related_upto_holds(g, l, rel, l.len() as int, k, variant);
            let q = choose|q: int| 0 <= q < vs.len() && vs[q] == variant;
            assert(names.contains(spec_type_name(g, vs[q])->Ok_0));
        }
        if names.contains(name) {
            assert(!Seq::<Seq<char>>::empty().contains(name));
            let q = choose|q: int| 0 <= q < vs.len() && spec_type_name(g, vs[q]) == Ok::<Seq<char>, ErrorView>(name);
            assert(vs.contains(vs[q]));
            lemma_related_upto_comes_from(g, l, rel, l.len() as int, vs[q]);
            let k = choose|k: int| 0 <= k < l.len() && #[trigger] related_contains(g, l[k], rel, vs[q]);
            assert(l.contains(l[k]));
            assert(spec_equals_or_extends(g, descriptor, l[k]) == Ok::<bool, ErrorView>(true));
        }
    }
}

} // verus!
