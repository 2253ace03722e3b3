//! Operator affordance and diagnostic helpers shared by the value descriptor wrappers.
use crate::error::{rview, ErrorView, HolonError};
use crate::graph::{HolonGraph, HolonReference, HolonView};
use crate::inheritance::{flatten_related_members, spec_flatten};
use crate::names::CoreRelationshipTypeName;
use crate::operator_descriptor::{wrap_all_operator_descriptor, OperatorDescriptor};
use crate::type_header::{spec_type_name, TypeHeader};
use crate::values::{kind_label, BaseValue, BaseValueView};
use vstd::prelude::*;
use vstd::string::*;

verus! {

/// The operators afforded by `holon` across its lineage (self first).
pub open spec fn spec_supported_operators(g: Seq<HolonView>, holon: HolonReference) -> Result<
    Seq<HolonReference>,
    ErrorView,
> {
    spec_flatten(g, holon, CoreRelationshipTypeName::AffordsOperator.spec_name())
}

/// Scans `ops` from position `i` for an operator named `name`, stopping at the
/// first operator whose name cannot be read.
pub open spec fn scan_operator_names(g: Seq<HolonView>, ops: Seq<HolonReference>, name: Seq<char>, i: int) -> Result<
    bool,
    ErrorView,
>
    decreases ops.len() - i,
{
    if i < 0 || i >= ops.len() {
        Ok(false)
    } else {
        match spec_type_name(g, ops[i]) {
            Err(e) => Err(e),
            Ok(n) => if n == name {
                Ok(true)
            } else {
                scan_operator_names(g, ops, name, i + 1)
            },
        }
    }
}

/// Whether `holon` affords an operator with the same name as `name` (already read).
pub open spec fn spec_affords_operator_named(g: Seq<HolonView>, holon: HolonReference, name: Seq<char>) -> Result<
    bool,
    ErrorView,
> {
    match spec_supported_operators(g, holon) {
        Err(e) => Err(e),
        Ok(ops) => scan_operator_names(g, ops, name, 0),
    }
}

/// Whether `holon` affords the operator `op`, matched by operator name.
pub open spec fn spec_supports_operator(g: Seq<HolonView>, holon: HolonReference, op: HolonReference) -> Result<
    bool,
    ErrorView,
> {
    match spec_type_name(g, op) {
        Err(e) => Err(e),
        Ok(name) => spec_affords_operator_named(g, holon, name),
    }
}

/// The `UnsupportedOperator` error for applying `op` through `holon`.
pub open spec fn spec_unsupported_operator_error(g: Seq<HolonView>, holon: HolonReference, op: HolonReference) -> Result<
    ErrorView,
    ErrorView,
> {
    match spec_type_name(g, op) {
        Err(e) => Err(e),
        Ok(operator) => match spec_type_name(g, holon) {
            Err(e) => Err(e),
            Ok(value_type) => Ok(ErrorView::UnsupportedOperator { operator, value_type, descriptor: holon }),
        },
    }
}

/// The outcome of refusing `op` on `holon`: always an error, the refusal itself
/// unless one of the names cannot be read.
pub open spec fn spec_unsupported_operator(g: Seq<HolonView>, holon: HolonReference, op: HolonReference) -> ErrorView {
    match spec_unsupported_operator_error(g, holon, op) {
        Err(e) => e,
        Ok(e) => e,
    }
}

/// Succeeds when `holon` affords `op`; otherwise reports it unsupported.
pub open spec fn spec_require_supported_operator(g: Seq<HolonView>, holon: HolonReference, op: HolonReference) -> Result<
    (),
    ErrorView,
> {
    match spec_supports_operator(g, holon, op) {
        Err(e) => Err(e),
        Ok(true) => Ok(()),
        Ok(false) => Err(spec_unsupported_operator(g, holon, op)),
    }
}

/// Whether the operator's name is `expected`.
pub open spec fn spec_operator_named(g: Seq<HolonView>, op: HolonReference, expected: Seq<char>) -> Result<
    bool,
    ErrorView,
> {
    match spec_type_name(g, op) {
        Err(e) => Err(e),
        Ok(n) => Ok(n == expected),
    }
}

/// The error for a value of the wrong native kind.
pub open spec fn spec_value_kind_mismatch(holon: HolonReference, expected: Seq<char>, found: BaseValueView) -> ErrorView {
    ErrorView::ValueKindMismatch { expected, found: kind_label(found.kind()), descriptor: holon }
}

/// Returns the diagnostic label of the native kind of `value`.
pub fn base_value_kind(value: &BaseValue) -> (s: String)
    ensures
        s@ == kind_label(value@.kind()),
{
    value.kind().label()
}

/// Reports that `found` is not of the `expected` native kind for `holon`.
pub fn value_kind_mismatch(holon: HolonReference, expected: &str, found: &BaseValue) -> (e: HolonError)
    ensures
        e@ == spec_value_kind_mismatch(holon, expected@, found@),
{
    HolonError::ValueKindMismatch {
        expected: expected.to_string(),
        found: found.kind().label(),
        descriptor: holon,
    }
}

/// Returns the operators afforded by `holon` across its lineage.
pub fn supported_operators(g: &HolonGraph, holon: HolonReference) -> (res: Result<
    Vec<OperatorDescriptor>,
    HolonError,
>)
    ensures
        rview(res) == spec_supported_operators(g@, holon),
{
    let members = flatten_related_members(g, holon, CoreRelationshipTypeName::AffordsOperator)?;
    Ok(wrap_all_operator_descriptor(members))
}

/// Scans the operators afforded by `holon` for one named `name`.
pub fn affords_operator_named(g: &HolonGraph, holon: HolonReference, name: &crate::values::MapString) -> (res:
    Result<bool, HolonError>)
    ensures
        rview(res) == spec_affords_operator_named(g@, holon, name@),
{
    let ops = supported_operators(g, holon)?;
    let ghost refs = ops.deep_view();
    let mut i: usize = 0;
    while i < ops.len()
        invariant
            i <= ops.len(),
            refs == ops.deep_view(),
            spec_supported_operators(g@, holon) == Ok::<Seq<HolonReference>, ErrorView>(refs),
            scan_operator_names(g@, refs, name@, 0) == scan_operator_names(g@, refs, name@, i as int),
        decreases ops.len() - i,
    {
        let n = ops[i].operator_name(g)?;
        if n.equals(name) {
            return Ok(true);
        }
        i = i + 1;
    }
    Ok(false)
}

/// Returns whether `holon` affords `op`, matched by operator name.
pub fn supports_operator(g: &HolonGraph, holon: HolonReference, op: &OperatorDescriptor) -> (res: Result<
    bool,
    HolonError,
>)
    ensures
        rview(res) == spec_supports_operator(g@, holon, op@),
{
    let name = op.operator_name(g)?;
    affords_operator_named(g, holon, &name)
}

/// Builds the `UnsupportedOperator` error for `op` on `holon`.
pub fn unsupported_operator_error(g: &HolonGraph, holon: HolonReference, op: &OperatorDescriptor) -> (res: Result<
    HolonError,
    HolonError,
>)
    ensures
        rview(res) == spec_unsupported_operator_error(g@, holon, op@),
{
    let operator = op.operator_name(g)?;
    let value_type = TypeHeader::new(holon).declared_type_name(g)?;
    Ok(HolonError::UnsupportedOperator { operator: operator.0, value_type: value_type.0, descriptor: holon })
}

/// Refuses `op` on `holon`: always an error.
pub fn unsupported_operator(g: &HolonGraph, holon: HolonReference, op: &OperatorDescriptor) -> (res: Result<
    bool,
    HolonError,
>)
    ensures
        rview(res) == Err::<bool, ErrorView>(spec_unsupported_operator(g@, holon, op@)),
{
    match unsupported_operator_error(g, holon, op) {
        Ok(e) => Err(e),
        Err(e) => Err(e),
    }
}

/// Succeeds when `holon` affords `op`; otherwise reports the operator unsupported.
pub fn require_supported_operator(g: &HolonGraph, holon: HolonReference, op: &OperatorDescriptor) -> (res: Result<
    (),
    HolonError,
>)
    ensures
        rview(res) == spec_require_supported_operator(g@, holon, op@),
{
    if supports_operator(g, holon, op)? {
        return Ok(());
    }
    match unsupported_operator_error(g, holon, op) {
        Ok(e) => Err(e),
        Err(e) => Err(e),
    }
}

/// Returns whether the operator's name is `expected`.
pub fn operator_named(g: &HolonGraph, op: &OperatorDescriptor, expected: &str) -> (res: Result<bool, HolonError>)
    ensures
        rview(res) == spec_operator_named(g@, op@, expected@),
{
    let n = op.operator_name(g)?;
    Ok(n.equals(&crate::values::MapString::from_str(expected)))
}


proof fn lemma_scan_is_any(g: Seq<HolonView>, ops: Seq<HolonReference>, name: Seq<char>, i: int)
    requires
        0 <= i <= ops.len(),
    ensures
        scan_operator_names(g, ops, name, i) matches Ok(b) ==> (b <==> exists|k: int|
            i <= k < ops.len() && #[trigger] spec_type_name(g, ops[k]) == Ok::<Seq<char>, ErrorView>(name)),
        scan_operator_names(g, ops, name, i) matches Err(e) ==> exists|k: int|
            i <= k < ops.len() && #[trigger] spec_type_name(g, ops[k]) == Err::<Seq<char>, ErrorView>(e),
    decreases ops.len() - i,
{
    if i < ops.len() {
        lemma_scan_is_any(g, ops, name, i + 1);
        if let Ok(n) = spec_type_name(g, ops[i]) {
            if n != name {
                if exists|k: int| i <= k < ops.len() && #[trigger] spec_type_name(g, ops[k]) == Ok::<
                    Seq<char>,
                    ErrorView,
                >(name) {
                    let k = choose|k: int|
                        i <= k < ops.len() && #[trigger] spec_type_name(g, ops[k]) == Ok::<Seq<char>, ErrorView>(
                            name,
                        );
                    assert(k != i);
                }
            }
        }
    }
}

/// `supports_operator` is "any by name": once the operator's name and the
/// afforded operators are read, it holds exactly when some afforded operator
/// has that name; it fails only on an afforded operator whose name cannot be read.
pub proof fn law_supports_operator_is_any_by_name(g: Seq<HolonView>, holon: HolonReference, op: HolonReference)
    ensures
        spec_type_name(g, op) matches Ok(name) ==> spec_supported_operators(g, holon) matches Ok(ops) ==> {
            &&& spec_supports_operator(g, holon, op) matches Ok(b) ==> (b <==> exists|k: int|
                0 <= k < ops.len() && #[trigger] spec_type_name(g, ops[k]) == Ok::<Seq<char>, ErrorView>(name))
            &&& spec_supports_operator(g, holon, op) matches Err(e) ==> exists|k: int|
                0 <= k < ops.len() && #[trigger] spec_type_name(g, ops[k]) == Err::<Seq<char>, ErrorView>(e)
        },
{
    if let Ok(name) = spec_type_name(g, op) {
        if let Ok(ops) = spec_supported_operators(g, holon) {
            lemma_scan_is_any(g, ops, name, 0);
        }
    }
}

} // verus!
