//! Semantic wrapper for integer value descriptors.
use crate::descriptor::Descriptor;
use crate::error::{rview, ErrorView, HolonError};
use crate::graph::{HolonGraph, HolonReference, HolonView};
use crate::operator_descriptor::OperatorDescriptor;
use crate::type_header::{spec_type_name, TypeHeader};
use crate::value_descriptor_subtypes::helpers::{operator_named, require_supported_operator, spec_operator_named, spec_require_supported_operator, spec_supported_operators, spec_supports_operator, spec_unsupported_operator, spec_value_kind_mismatch, supported_operators, supports_operator, unsupported_operator, value_kind_mismatch};
use crate::values::{BaseValue, BaseValueView};
use vstd::prelude::*;
use vstd::string::*;
use crate::value_descriptor_subtypes::constraints::{resolve_integer_constraints, spec_integer_check, spec_resolve_integer_constraints, IntegerConstraint};

verus! {

/// The first failing check of `value` against `cs[i..]`, if any.
pub open spec fn integer_checks_from(cs: Seq<IntegerConstraint>, value: i64, descriptor: HolonReference, i: int) -> Result<
    (),
    ErrorView,
>
    decreases cs.len() - i,
{
    if i < 0 || i >= cs.len() {
        Ok(())
    } else {
        match spec_integer_check(cs[i], value, descriptor) {
            Err(e) => Err(e),
            Ok(_) => integer_checks_from(cs, value, descriptor, i + 1),
        }
    }
}

/// Validity of `value` for an integer descriptor: an integer satisfying every
/// resolved constraint, the first violated one reported.
pub open spec fn spec_integer_is_valid(g: Seq<HolonView>, holon: HolonReference, value: BaseValueView) -> Result<
    (),
    ErrorView,
> {
    match value {
        BaseValueView::IntegerValue(v) => match spec_resolve_integer_constraints(g, holon) {
            Err(e) => Err(e),
            Ok(cs) => integer_checks_from(cs, v, holon, 0),
        },
        other => Err(spec_value_kind_mismatch(holon, "Integer"@, other)),
    }
}

/// Applying an afforded integer operator: `EqualsOperator` is `==`,
/// `LessThanOperator` is `<`, any other afforded operator is unsupported.
pub open spec fn spec_integer_apply(
    g: Seq<HolonView>,
    holon: HolonReference,
    op: HolonReference,
    lhs: BaseValueView,
    rhs: BaseValueView,
) -> Result<bool, ErrorView> {
    match spec_require_supported_operator(g, holon, op) {
        Err(e) => Err(e),
        Ok(_) => match lhs {
            BaseValueView::IntegerValue(l) => match rhs {
                BaseValueView::IntegerValue(r) => match spec_operator_named(g, op, "EqualsOperator"@) {
                    Err(e) => Err(e),
                    Ok(true) => Ok(l == r),
                    Ok(false) => match spec_operator_named(g, op, "LessThanOperator"@) {
                        Err(e) => Err(e),
                        Ok(true) => Ok(l < r),
                        Ok(false) => Err(spec_unsupported_operator(g, holon, op)),
                    },
                },
                other => Err(spec_value_kind_mismatch(holon, "Integer"@, other)),
            },
            other => Err(spec_value_kind_mismatch(holon, "Integer"@, other)),
        },
    }
}

/// Semantic wrapper for integer value descriptors.
pub struct IntegerValueDescriptor {
    holon: HolonReference,
}

impl View for IntegerValueDescriptor {
    type V = HolonReference;

    closed spec fn view(&self) -> HolonReference {
        self.holon
    }
}

impl DeepView for IntegerValueDescriptor {
    type V = HolonReference;

    open spec fn deep_view(&self) -> HolonReference {
        self@
    }
}

impl Descriptor for IntegerValueDescriptor {
    open spec fn spec_holon(&self) -> HolonReference {
        self@
    }

    fn holon(&self) -> (r: HolonReference) {
        self.holon
    }
}

impl From<HolonReference> for IntegerValueDescriptor {
    fn from(holon: HolonReference) -> (d: Self)
        ensures
            d@ == holon,
    {
        Self { holon }
    }
}

impl vstd::std_specs::convert::FromSpecImpl<HolonReference> for IntegerValueDescriptor {
    open spec fn obeys_from_spec() -> bool {
        true
    }

    closed spec fn from_spec(v: HolonReference) -> Self {
        IntegerValueDescriptor { holon: v }
    }
}

impl IntegerValueDescriptor {
    /// Wraps an already-resolved descriptor holon reference.
    pub fn from_holon(holon: HolonReference) -> (d: Self)
        ensures
            d@ == holon,
    {
        Self { holon }
    }

    /// Projects the shared descriptor header view for this descriptor holon.
    pub fn header(&self) -> (h: TypeHeader)
        ensures
            h.holon == self@,
    {
        TypeHeader::new(self.holon)
    }

    /// Validates that a runtime value is an integer and satisfies the descriptor's constraints.
    pub fn is_valid(&self, g: &HolonGraph, value: &BaseValue) -> (res: Result<(), HolonError>)
        ensures
            rview(res) == spec_integer_is_valid(g@, self@, value@),
    {
        let integer_value = match value {
            BaseValue::IntegerValue(v) => v.0,
            other => {
                return Err(value_kind_mismatch(self.holon, "Integer", other));
            },
        };
        let constraints = resolve_integer_constraints(g, self.holon)?;
        assert(constraints.deep_view() =~= constraints@);
        let mut i: usize = 0;
        while i < constraints.len()
            invariant
                i <= constraints.len(),
                spec_resolve_integer_constraints(g@, self@) == Ok::<Seq<IntegerConstraint>, ErrorView>(
                    constraints@,
                ),
                value@ == BaseValueView::IntegerValue(integer_value),
                integer_checks_from(constraints@, integer_value, self@, 0) == integer_checks_from(
                    constraints@,
                    integer_value,
                    self@,
                    i as int,
                ),
            decreases constraints.len() - i,
        {
            constraints[i].is_valid(integer_value, self.holon)?;
            i = i + 1;
        }
        Ok(())
    }

    /// Returns operators afforded by this value descriptor across inheritance.
    pub fn supported_operators(&self, g: &HolonGraph) -> (res: Result<Vec<OperatorDescriptor>, HolonError>)
        ensures
            rview(res) == spec_supported_operators(g@, self@),
    {
        supported_operators(g, self.holon)
    }

    /// Returns whether this descriptor affords the supplied operator.
    pub fn supports_operator(&self, g: &HolonGraph, op: &OperatorDescriptor) -> (res: Result<bool, HolonError>)
        ensures
            rview(res) == spec_supports_operator(g@, self@, op@),
    {
        supports_operator(g, self.holon, op)
    }

    /// Applies an afforded integer operator to two integer operands.
    pub fn apply_operator(&self, g: &HolonGraph, op: &OperatorDescriptor, lhs: &BaseValue, rhs: &BaseValue) -> (res:
        Result<bool, HolonError>)
        ensures
            rview(res) == spec_integer_apply(g@, self@, op@, lhs@, rhs@),
    {
        require_supported_operator(g, self.holon, op)?;
        let l = match lhs {
            BaseValue::IntegerValue(v) => v.0,
            other => {
                return Err(value_kind_mismatch(self.holon, "Integer", other));
            },
        };
        let r = match rhs {
            BaseValue::IntegerValue(v) => v.0,
            other => {
                return Err(value_kind_mismatch(self.holon, "Integer", other));
            },
        };
        if operator_named(g, op, "EqualsOperator")? {
            return Ok(l == r);
        }
        if operator_named(g, op, "LessThanOperator")? {
            return Ok(l < r);
        }
        unsupported_operator(g, self.holon, op)
    }
}

/// Integer operators compare the operands numerically: on an afforded
/// `EqualsOperator` the answer is whether `l` equals `r`, and on an afforded
/// `LessThanOperator` it is whether `l` is strictly below `r`, so it is never
/// true of a value and itself, nor of both orders of one pair.
pub proof fn law_integer_operators_compare_numerically(
    g: Seq<HolonView>,
    holon: HolonReference,
    op: HolonReference,
    l: i64,
    r: i64,
)
    requires
        spec_supports_operator(g, holon, op) == Ok::<bool, ErrorView>(true),
    ensures
        spec_type_name(g, op) == Ok::<Seq<char>, ErrorView>("EqualsOperator"@) ==> spec_integer_apply(
            g,
            holon,
            op,
            BaseValueView::IntegerValue(l),
            BaseValueView::IntegerValue(r),
        ) == Ok::<bool, ErrorView>(l == r),
        spec_type_name(g, op) == Ok::<Seq<char>, ErrorView>("LessThanOperator"@) ==> {
            &&& spec_integer_apply(g, holon, op, BaseValueView::IntegerValue(l), BaseValueView::IntegerValue(r))
                == Ok::<bool, ErrorView>(l < r)
            &&& spec_integer_apply(g, holon, op, BaseValueView::IntegerValue(l), BaseValueView::IntegerValue(l))
                == Ok::<bool, ErrorView>(false)
            &&& !(spec_integer_apply(g, holon, op, BaseValueView::IntegerValue(l), BaseValueView::IntegerValue(r))
                == Ok::<bool, ErrorView>(true) && spec_integer_apply(
                g,
                holon,
                op,
                BaseValueView::IntegerValue(r),
                BaseValueView::IntegerValue(l),
            ) == Ok::<bool, ErrorView>(true))
        },
{
    reveal_strlit("EqualsOperator");
    reveal_strlit("LessThanOperator");
    assert("EqualsOperator"@ != "LessThanOperator"@) by {
        assert("EqualsOperator"@[0] != "LessThanOperator"@[0]);
    }
}

} // verus!
