//! Semantic wrapper for string value descriptors.
use crate::descriptor::Descriptor;
use crate::error::{rview, ErrorView, HolonError};
use crate::graph::{HolonGraph, HolonReference, HolonView};
use crate::operator_descriptor::OperatorDescriptor;
use crate::type_header::{spec_type_name, TypeHeader};
use crate::value_descriptor_subtypes::helpers::{operator_named, require_supported_operator, spec_operator_named, spec_require_supported_operator, spec_supported_operators, spec_supports_operator, spec_unsupported_operator, spec_value_kind_mismatch, supported_operators, supports_operator, unsupported_operator, value_kind_mismatch};
use crate::values::{BaseValue, BaseValueView};
use vstd::prelude::*;
use vstd::string::*;

verus! {

/// Lexicographic order on strings, comparing characters by code point.
pub open spec fn chars_less(a: Seq<char>, b: Seq<char>) -> bool
    decreases a.len(),
{
    if b.len() == 0 {
        false
    } else if a.len() == 0 {
        true
    } else if a[0] != b[0] {
        (a[0] as u32) < (b[0] as u32)
    } else {
        chars_less(a.drop_first(), b.drop_first())
    }
}

proof fn lemma_char_codes_differ(x: char, y: char)
    requires
        x != y,
    ensures
        (x as u32) != (y as u32),
{
}

proof fn lemma_chars_less_total(a: Seq<char>, b: Seq<char>)
    requires
        a != b,
    ensures
        chars_less(a, b) || chars_less(b, a),
    decreases a.len(),
{
    if a.len() > 0 && b.len() > 0 {
        if a[0] != b[0] {
            lemma_char_codes_differ(a[0], b[0]);
        } else {
            if a.drop_first() == b.drop_first() {
                assert(a =~= seq![a[0]] + a.drop_first());
                assert(b =~= seq![b[0]] + b.drop_first());
            }
            lemma_chars_less_total(a.drop_first(), b.drop_first());
        }
    } else if a.len() == 0 && b.len() == 0 {
        assert(a =~= b);
    }
}

/// `LessThanOperator` on strings is a strict total order: irreflexive,
/// asymmetric, transitive, and any two different strings are ordered one way.
pub proof fn law_string_less_is_a_strict_total_order(a: Seq<char>, b: Seq<char>, c: Seq<char>)
    ensures
        !chars_less(a, a),
        chars_less(a, b) ==> !chars_less(b, a),
        chars_less(a, b) && chars_less(b, c) ==> chars_less(a, c),
        a != b ==> chars_less(a, b) || chars_less(b, a),
    decreases a.len() + b.len() + c.len(),
{
    if a != b {
        lemma_chars_less_total(a, b);
    }
    if a.len() > 0 && b.len() > 0 && c.len() > 0 {
        law_string_less_is_a_strict_total_order(a.drop_first(), b.drop_first(), c.drop_first());
    } else if a.len() > 0 && b.len() > 0 {
        law_string_less_is_a_strict_total_order(a.drop_first(), b.drop_first(), c);
    } else if a.len() > 0 {
        law_string_less_is_a_strict_total_order(a.drop_first(), b, c);
    }
}

proof fn lemma_chars_less_skip(a: Seq<char>, b: Seq<char>, i: int)
    requires
        0 <= i < a.len(),
        i < b.len(),
        a[i] == b[i],
    ensures
        chars_less(a.skip(i), b.skip(i)) == chars_less(a.skip(i + 1), b.skip(i + 1)),
{
    assert(a.skip(i).drop_first() =~= a.skip(i + 1));
    assert(b.skip(i).drop_first() =~= b.skip(i + 1));
}

/// Returns whether `a` sorts strictly before `b`.
pub fn string_less(a: &str, b: &str) -> (r: bool)
    ensures
        r == chars_less(a@, b@),
{
    let la = a.unicode_len();
    let lb = b.unicode_len();
    let mut i: usize = 0;
    assert(a@.skip(0) =~= a@);
    assert(b@.skip(0) =~= b@);
    while i < la && i < lb
        invariant
            la == a@.len(),
            lb == b@.len(),
            i <= la,
            i <= lb,
            chars_less(a@, b@) == chars_less(a@.skip(i as int), b@.skip(i as int)),
        decreases la - i,
    {
        let ca = a.get_char(i);
        let cb = b.get_char(i);
        if ca != cb {
            assert(a@.skip(i as int)[0] == ca);
            assert(b@.skip(i as int)[0] == cb);
            return (ca as u32) < (cb as u32);
        }
        proof {
            lemma_chars_less_skip(a@, b@, i as int);
        }
        i = i + 1;
    }
    if i < lb {
        assert(a@.skip(i as int).len() == 0);
        true
    } else {
        assert(b@.skip(i as int).len() == 0);
        false
    }
}

/// Validity of `value` for a string descriptor: any string.
pub open spec fn spec_string_is_valid(holon: HolonReference, value: BaseValueView) -> Result<(), ErrorView> {
    match value {
        BaseValueView::StringValue(_) => Ok(()),
        other => Err(spec_value_kind_mismatch(holon, "String"@, other)),
    }
}

/// Applying an afforded string operator: `EqualsOperator` is equality,
/// `LessThanOperator` is lexicographic order, any other afforded operator is unsupported.
pub open spec fn spec_string_apply(
    g: Seq<HolonView>,
    holon: HolonReference,
    op: HolonReference,
    lhs: BaseValueView,
    rhs: BaseValueView,
) -> Result<bool, ErrorView> {
    match spec_require_supported_operator(g, holon, op) {
        Err(e) => Err(e),
        Ok(_) => match lhs {
            BaseValueView::StringValue(l) => match rhs {
                BaseValueView::StringValue(r) => match spec_operator_named(g, op, "EqualsOperator"@) {
                    Err(e) => Err(e),
                    Ok(true) => Ok(l == r),
                    Ok(false) => match spec_operator_named(g, op, "LessThanOperator"@) {
                        Err(e) => Err(e),
                        Ok(true) => Ok(chars_less(l, r)),
                        Ok(false) => Err(spec_unsupported_operator(g, holon, op)),
                    },
                },
                other => Err(spec_value_kind_mismatch(holon, "String"@, other)),
            },
            other => Err(spec_value_kind_mismatch(holon, "String"@, other)),
        },
    }
}

/// Semantic wrapper for string value descriptors.
pub struct StringValueDescriptor {
    holon: HolonReference,
}

impl View for StringValueDescriptor {
    type V = HolonReference;

    closed spec fn view(&self) -> HolonReference {
        self.holon
    }
}

impl DeepView for StringValueDescriptor {
    type V = HolonReference;

    open spec fn deep_view(&self) -> HolonReference {
        self@
    }
}

impl Descriptor for StringValueDescriptor {
    open spec fn spec_holon(&self) -> HolonReference {
        self@
    }

    fn holon(&self) -> (r: HolonReference) {
        self.holon
    }
}

impl From<HolonReference> for StringValueDescriptor {
    fn from(holon: HolonReference) -> (d: Self)
        ensures
            d@ == holon,
    {
        Self { holon }
    }
}

impl vstd::std_specs::convert::FromSpecImpl<HolonReference> for StringValueDescriptor {
    open spec fn obeys_from_spec() -> bool {
        true
    }

    closed spec fn from_spec(v: HolonReference) -> Self {
        StringValueDescriptor { holon: v }
    }
}

impl StringValueDescriptor {
    /// Wraps an already-resolved descriptor holon reference.
    pub fn from_holon(holon: HolonReference) -> (d: Self)
        ensures
            d@ == holon,
    {
        Self { holon }
    }

    /// Projects the shared descriptor header view for this descriptor holon.
    pub fn header(&self) -> (h: TypeHeader)
        ensures
            h.holon == self@,
    {
        TypeHeader::new(self.holon)
    }

    /// Validates that a runtime value is a string.
    pub fn is_valid(&self, value: &BaseValue) -> (res: Result<(), HolonError>)
        ensures
            rview(res) == spec_string_is_valid(self@, value@),
    {
        match value {
            BaseValue::StringValue(_) => Ok(()),
            other => Err(value_kind_mismatch(self.holon, "String", other)),
        }
    }

    /// Returns operators afforded by this value descriptor across inheritance.
    pub fn supported_operators(&self, g: &HolonGraph) -> (res: Result<Vec<OperatorDescriptor>, HolonError>)
        ensures
            rview(res) == spec_supported_operators(g@, self@),
    {
        supported_operators(g, self.holon)
    }

    /// Returns whether this descriptor affords the supplied operator.
    pub fn supports_operator(&self, g: &HolonGraph, op: &OperatorDescriptor) -> (res: Result<bool, HolonError>)
        ensures
            rview(res) == spec_supports_operator(g@, self@, op@),
    {
        supports_operator(g, self.holon, op)
    }

    /// Applies an afforded string operator to two string operands.
    pub fn apply_operator(&self, g: &HolonGraph, op: &OperatorDescriptor, lhs: &BaseValue, rhs: &BaseValue) -> (res:
        Result<bool, HolonError>)
        ensures
            rview(res) == spec_string_apply(g@, self@, op@, lhs@, rhs@),
    {
        require_supported_operator(g, self.holon, op)?;
        let l = match lhs {
            BaseValue::StringValue(v) => v,
            other => {
                return Err(value_kind_mismatch(self.holon, "String", other));
            },
        };
        let r = match rhs {
            BaseValue::StringValue(v) => v,
            other => {
                return Err(value_kind_mismatch(self.holon, "String", other));
            },
        };
        if operator_named(g, op, "EqualsOperator")? {
            return Ok(l.equals(r));
        }
        if operator_named(g, op, "LessThanOperator")? {
            return Ok(string_less(l.0.as_str(), r.0.as_str()));
        }
        unsupported_operator(g, self.holon, op)
    }
}

/// Whether `a` and `b` agree on their first `k` characters.
pub open spec fn agree_upto(a: Seq<char>, b: Seq<char>, k: int) -> bool {
    forall|j: int| 0 <= j < k ==> a[j] == b[j]
}

/// Lexicographic order on character sequences: at the first position where
/// they differ `a` has the smaller code point, or `a` is a proper prefix of `b`.
pub open spec fn lex_before(a: Seq<char>, b: Seq<char>) -> bool {
    ||| exists|k: int|
        0 <= k < a.len() && k < b.len() && #[trigger] agree_upto(a, b, k) && (a[k] as u32) < (b[k] as u32)
    ||| (a.len() < b.len() && agree_upto(a, b, a.len() as int))
}

proof fn lemma_chars_less_is_lex_before(a: Seq<char>, b: Seq<char>)
    ensures
        chars_less(a, b) == lex_before(a, b),
    decreases a.len(),
{
    if b.len() == 0 {
    } else if a.len() == 0 {
        assert(agree_upto(a, b, 0));
    } else if a[0] != b[0] {
        lemma_char_codes_differ(a[0], b[0]);
        assert(agree_upto(a, b, 0));
        if lex_before(a, b) {
            if exists|k: int|
                0 <= k < a.len() && k < b.len() && #[trigger] agree_upto(a, b, k) && (a[k] as u32) < (b[k] as u32) {
                let k = choose|k: int|
                    0 <= k < a.len() && k < b.len() && #[trigger] agree_upto(a, b, k) && (a[k] as u32) < (
                    b[k] as u32);
                if k > 0 {
                    assert(a[0] == b[0]);
                }
            } else {
                assert(a[0] == b[0]);
            }
        }
    } else {
        let a1 = a.drop_first();
        let b1 = b.drop_first();
        lemma_chars_less_is_lex_before(a1, b1);
        if lex_before(a1, b1) {
            if exists|k: int|
                0 <= k < a1.len() && k < b1.len() && #[trigger] agree_upto(a1, b1, k) && (a1[k] as u32) < (
                b1[k] as u32) {
                let k = choose|k: int|
                    0 <= k < a1.len() && k < b1.len() && #[trigger] agree_upto(a1, b1, k) && (a1[k] as u32) < (
                    b1[k] as u32);
                assert forall|j: int| 0 <= j < k + 1 implies a[j] == b[j] by {
                    if j > 0 {
                        assert(a[j] == a1[j - 1] && b[j] == b1[j - 1]);
                    }
                }
                assert(agree_upto(a, b, k + 1));
                assert(a[k + 1] == a1[k] && b[k + 1] == b1[k]);
            } else {
                assert forall|j: int| 0 <= j < a.len() implies a[j] == b[j] by {
                    if j > 0 {
                        assert(a[j] == a1[j - 1] && b[j] == b1[j - 1]);
                    }
                }
                assert(agree_upto(a, b, a.len() as int));
            }
        }
        if lex_before(a, b) {
            if exists|k: int|
                0 <= k < a.len() && k < b.len() && #[trigger] agree_upto(a, b, k) && (a[k] as u32) < (b[k] as u32) {
                let k = choose|k: int|
                    0 <= k < a.len() && k < b.len() && #[trigger] agree_upto(a, b, k) && (a[k] as u32) < (
                    b[k] as u32);
                assert(k > 0);
                assert forall|j: int| 0 <= j < k - 1 implies a1[j] == b1[j] by {
                    assert(a[j + 1] == b[j + 1]);
                }
                assert(agree_upto(a1, b1, k - 1));
                assert(a1[k - 1] == a[k] && b1[k - 1] == b[k]);
            } else {
                assert forall|j: int| 0 <= j < a1.len() implies a1[j] == b1[j] by {
                    assert(a[j + 1] == b[j + 1]);
                }
                assert(agree_upto(a1, b1, a1.len() as int));
            }
        }
    }
}

/// String operators compare the operands as text: on an afforded
/// `EqualsOperator` the answer is whether the strings are equal, and on an
/// afforded `LessThanOperator` it is whether `l` sorts lexicographically
/// before `r`, so it is never true of a string and itself, nor of both orders
/// of one pair.
pub proof fn law_string_operators_compare_lexicographically(
    g: Seq<HolonView>,
    holon: HolonReference,
    op: HolonReference,
    l: Seq<char>,
    r: Seq<char>,
)
    requires
        spec_supports_operator(g, holon, op) == Ok::<bool, ErrorView>(true),
    ensures
        spec_type_name(g, op) == Ok::<Seq<char>, ErrorView>("EqualsOperator"@) ==> spec_string_apply(
            g,
            holon,
            op,
            BaseValueView::StringValue(l),
            BaseValueView::StringValue(r),
        ) == Ok::<bool, ErrorView>(l == r),
        spec_type_name(g, op) == Ok::<Seq<char>, ErrorView>("LessThanOperator"@) ==> {
            &&& spec_string_apply(g, holon, op, BaseValueView::StringValue(l), BaseValueView::StringValue(r))
                == Ok::<bool, ErrorView>(lex_before(l, r))
            &&& spec_string_apply(g, holon, op, BaseValueView::StringValue(l), BaseValueView::StringValue(l))
                == Ok::<bool, ErrorView>(false)
            &&& !(spec_string_apply(g, holon, op, BaseValueView::StringValue(l), BaseValueView::StringValue(r))
                == Ok::<bool, ErrorView>(true) && spec_string_apply(
                g,
                holon,
                op,
                BaseValueView::StringValue(r),
                BaseValueView::StringValue(l),
            ) == Ok::<bool, ErrorView>(true))
        },
{
    reveal_strlit("EqualsOperator");
    reveal_strlit("LessThanOperator");
    assert("EqualsOperator"@ != "LessThanOperator"@) by {
        assert("EqualsOperator"@[0] != "LessThanOperator"@[0]);
    }
    lemma_chars_less_is_lex_before(l, r);
    law_string_less_is_a_strict_total_order(l, r, r);
}

} // verus!
