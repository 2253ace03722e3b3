//! Executable value constraints resolved from a value descriptor's `Constraints`.
//!
//! Constraint holons are discovered through the value descriptor's flattened
//! lineage, classified by the family and kind anchors reached by their own
//! `Extends` chains, and turned into typed runtime constraints. A resolved set
//! whose effective interval is empty is rejected as contradictory.
use crate::accessor_helpers::{require_bool, require_integer, spec_require_bool, spec_require_integer};
use crate::error::{rview, ErrorView, HolonError, SchemaInvalidityKind};
use crate::graph::{HolonGraph, HolonReference, HolonView};
use crate::inheritance::{flatten_related_members, spec_flatten, spec_walk, walk_extends_chain};
use crate::names::{CoreHolonTypeName, CorePropertyTypeName, CoreRelationshipTypeName};
use crate::type_header::{spec_type_name, TypeHeader};
use crate::values::MapString;
use vstd::prelude::*;
use vstd::string::*;

verus! {

/// A lower bound on integer values.
#[derive(Clone, Copy, Debug, PartialEq, Eq, Structural)]
pub struct MinimumValueConstraint {
    pub value: i64,
    pub inclusive: bool,
}

/// An upper bound on integer values.
#[derive(Clone, Copy, Debug, PartialEq, Eq, Structural)]
pub struct MaximumValueConstraint {
    pub value: i64,
    pub inclusive: bool,
}

/// A lower bound on string length, counted in Unicode scalar values.
#[derive(Clone, Copy, Debug, PartialEq, Eq, Structural)]
pub struct MinimumLengthConstraint {
    pub length: i64,
}

/// An upper bound on string length, counted in Unicode scalar values.
#[derive(Clone, Copy, Debug, PartialEq, Eq, Structural)]
pub struct MaximumLengthConstraint {
    pub length: i64,
}

/// An executable integer constraint.
#[derive(Clone, Copy, Debug, PartialEq, Eq, Structural)]
pub enum IntegerConstraint {
    Minimum(MinimumValueConstraint),
    Maximum(MaximumValueConstraint),
}

/// An executable string constraint.
#[derive(Clone, Copy, Debug, PartialEq, Eq, Structural)]
pub enum StringConstraint {
    MinimumLength(MinimumLengthConstraint),
    MaximumLength(MaximumLengthConstraint),
}

impl DeepView for IntegerConstraint {
    type V = IntegerConstraint;

    open spec fn deep_view(&self) -> IntegerConstraint {
        *self
    }
}

impl DeepView for StringConstraint {
    type V = StringConstraint;

    open spec fn deep_view(&self) -> StringConstraint {
        *self
    }
}

/// The value family a constraint belongs to.
#[derive(Clone, Copy, Debug, PartialEq, Eq, Structural)]
pub enum ConstraintFamily {
    Integer,
    String,
    Bytes,
    ValueArray,
}

/// The concrete kind of a constraint.
#[derive(Clone, Copy, Debug, PartialEq, Eq, Structural)]
pub enum ConstraintKind {
    MinimumValue,
    MaximumValue,
    MinimumLength,
    MaximumLength,
}

/// The family and kind anchors reached by a constraint's lineage.
#[derive(Clone, Copy, Debug, PartialEq, Eq, Structural)]
pub struct ConstraintClassification {
    pub family: Option<ConstraintFamily>,
    pub kind: Option<ConstraintKind>,
}

impl DeepView for ConstraintClassification {
    type V = ConstraintClassification;

    open spec fn deep_view(&self) -> ConstraintClassification {
        *self
    }
}

// ---------------------------------------------------------------------------
// Bound checks
// ---------------------------------------------------------------------------

/// Whether `value` satisfies a lower bound.
pub open spec fn integer_minimum_holds(value: i64, minimum: i64, inclusive: bool) -> bool {
    if inclusive {
        value >= minimum
    } else {
        value > minimum
    }
}

/// Whether `value` satisfies an upper bound.
pub open spec fn integer_maximum_holds(value: i64, maximum: i64, inclusive: bool) -> bool {
    if inclusive {
        value <= maximum
    } else {
        value < maximum
    }
}

/// Checks `value` against a lower bound.
pub fn validate_integer_minimum(value: i64, minimum: i64, inclusive: bool) -> (ok: bool)
    ensures
        ok == integer_minimum_holds(value, minimum, inclusive),
{
    if inclusive {
        value >= minimum
    } else {
        value > minimum
    }
}

/// Checks `value` against an upper bound.
pub fn validate_integer_maximum(value: i64, maximum: i64, inclusive: bool) -> (ok: bool)
    ensures
        ok == integer_maximum_holds(value, maximum, inclusive),
{
    if inclusive {
        value <= maximum
    } else {
        value < maximum
    }
}

/// Checks that `value` has at least `minimum` characters.
pub fn validate_string_minimum_length(value: &str, minimum: i64) -> (ok: bool)
    ensures
        ok == (value@.len() >= minimum),
{
    let length = value.unicode_len();
    (length as i128) >= (minimum as i128)
}

/// Checks that `value` has at most `maximum` characters.
pub fn validate_string_maximum_length(value: &str, maximum: i64) -> (ok: bool)
    ensures
        ok == (value@.len() <= maximum),
{
    let length = value.unicode_len();
    (length as i128) <= (maximum as i128)
}

/// The outcome of checking `value` against a resolved integer constraint.
pub open spec fn spec_integer_check(c: IntegerConstraint, value: i64, descriptor: HolonReference) -> Result<
    (),
    ErrorView,
> {
    match c {
        IntegerConstraint::Minimum(m) => if integer_minimum_holds(value, m.value, m.inclusive) {
            Ok(())
        } else {
            Err(
                ErrorView::IntegerOutOfRange {
                    value,
                    min: Some(m.value),
                    max: None,
                    min_inclusive: m.inclusive,
                    max_inclusive: true,
                    descriptor,
                },
            )
        },
        IntegerConstraint::Maximum(m) => if integer_maximum_holds(value, m.value, m.inclusive) {
            Ok(())
        } else {
            Err(
                ErrorView::IntegerOutOfRange {
                    value,
                    min: None,
                    max: Some(m.value),
                    min_inclusive: true,
                    max_inclusive: m.inclusive,
                    descriptor,
                },
            )
        },
    }
}

/// The outcome of checking a string of `value` characters against a resolved string constraint.
pub open spec fn spec_string_check(c: StringConstraint, value: Seq<char>, descriptor: HolonReference) -> Result<
    (),
    ErrorView,
> {
    match c {
        StringConstraint::MinimumLength(m) => if value.len() >= m.length {
            Ok(())
        } else {
            Err(
                ErrorView::StringLengthOutOfRange {
                    length: value.len() as usize,
                    min: Some(m.length),
                    max: None,
                    descriptor,
                },
            )
        },
        StringConstraint::MaximumLength(m) => if value.len() <= m.length {
            Ok(())
        } else {
            Err(
                ErrorView::StringLengthOutOfRange {
                    length: value.len() as usize,
                    min: None,
                    max: Some(m.length),
                    descriptor,
                },
            )
        },
    }
}

impl MinimumValueConstraint {
    /// Validates one integer against this lower bound.
    pub fn is_valid(&self, value: i64, descriptor: HolonReference) -> (res: Result<(), HolonError>)
        ensures
            rview(res) == spec_integer_check(IntegerConstraint::Minimum(*self), value, descriptor),
    {
        if validate_integer_minimum(value, self.value, self.inclusive) {
            return Ok(());
        }
        Err(
            HolonError::IntegerOutOfRange {
                value,
                min: Some(self.value),
                max: None,
                min_inclusive: self.inclusive,
                max_inclusive: true,
                descriptor,
            },
        )
    }
}

impl MaximumValueConstraint {
    /// Validates one integer against this upper bound.
    pub fn is_valid(&self, value: i64, descriptor: HolonReference) -> (res: Result<(), HolonError>)
        ensures
            rview(res) == spec_integer_check(IntegerConstraint::Maximum(*self), value, descriptor),
    {
        if validate_integer_maximum(value, self.value, self.inclusive) {
            return Ok(());
        }
        Err(
            HolonError::IntegerOutOfRange {
                value,
                min: None,
                max: Some(self.value),
                min_inclusive: true,
                max_inclusive: self.inclusive,
                descriptor,
            },
        )
    }
}

impl MinimumLengthConstraint {
    /// Validates one string against this minimum length.
    pub fn is_valid(&self, value: &str, descriptor: HolonReference) -> (res: Result<(), HolonError>)
        ensures
            rview(res) == spec_string_check(StringConstraint::MinimumLength(*self), value@, descriptor),
    {
        let length = value.unicode_len();
        if validate_string_minimum_length(value, self.length) {
            return Ok(());
        }
        Err(HolonError::StringLengthOutOfRange { length, min: Some(self.length), max: None, descriptor })
    }
}

impl MaximumLengthConstraint {
    /// Validates one string against this maximum length.
    pub fn is_valid(&self, value: &str, descriptor: HolonReference) -> (res: Result<(), HolonError>)
        ensures
            rview(res) == spec_string_check(StringConstraint::MaximumLength(*self), value@, descriptor),
    {
        let length = value.unicode_len();
        if validate_string_maximum_length(value, self.length) {
            return Ok(());
        }
        Err(HolonError::StringLengthOutOfRange { length, min: None, max: Some(self.length), descriptor })
    }
}

impl IntegerConstraint {
    /// Validates one integer against this constraint.
    pub fn is_valid(&self, value: i64, descriptor: HolonReference) -> (res: Result<(), HolonError>)
        ensures
            rview(res) == spec_integer_check(*self, value, descriptor),
    {
        match self {
            IntegerConstraint::Minimum(c) => c.is_valid(value, descriptor),
            IntegerConstraint::Maximum(c) => c.is_valid(value, descriptor),
        }
    }
}

impl StringConstraint {
    /// Validates one string against this constraint.
    pub fn is_valid(&self, value: &str, descriptor: HolonReference) -> (res: Result<(), HolonError>)
        ensures
            rview(res) == spec_string_check(*self, value@, descriptor),
    {
        match self {
            StringConstraint::MinimumLength(c) => c.is_valid(value, descriptor),
            StringConstraint::MaximumLength(c) => c.is_valid(value, descriptor),
        }
    }
}

// ---------------------------------------------------------------------------
// Classification
// ---------------------------------------------------------------------------

/// The family anchored by a type name, if it is one of the family anchors.
pub open spec fn spec_family_from(name: Seq<char>) -> Option<ConstraintFamily> {
    if name == CoreHolonTypeName::IntegerValueConstraint.spec_name() {
        Some(ConstraintFamily::Integer)
    } else if name == CoreHolonTypeName::StringValueConstraint.spec_name() {
        Some(ConstraintFamily::String)
    } else if name == CoreHolonTypeName::BytesValueConstraint.spec_name() {
        Some(ConstraintFamily::Bytes)
    } else if name == CoreHolonTypeName::ValueArrayConstraint.spec_name() {
        Some(ConstraintFamily::ValueArray)
    } else {
        None
    }
}

/// The kind anchored by a type name, if it is one of the kind anchors.
pub open spec fn spec_kind_from(name: Seq<char>) -> Option<ConstraintKind> {
    if name == CoreHolonTypeName::MinimumValue.spec_name() {
        Some(ConstraintKind::MinimumValue)
    } else if name == CoreHolonTypeName::MaximumValue.spec_name() {
        Some(ConstraintKind::MaximumValue)
    } else if name == CoreHolonTypeName::MinimumLength.spec_name() {
        Some(ConstraintKind::MinimumLength)
    } else if name == CoreHolonTypeName::MaximumLength.spec_name() {
        Some(ConstraintKind::MaximumLength)
    } else {
        None
    }
}

/// Classification over a walked lineage from position `i`: the first family
/// anchor and the first kind anchor, stopping once both are known.
pub open spec fn classify_from(
    g: Seq<HolonView>,
    members: Seq<HolonReference>,
    error: Option<ErrorView>,
    i: int,
    acc: ConstraintClassification,
) -> Result<ConstraintClassification, ErrorView>
    decreases members.len() - i,
{
    if acc.family.is_some() && acc.kind.is_some() {
        Ok(acc)
    } else if i < 0 || i >= members.len() {
        match error {
            Some(e) => Err(e),
            None => Ok(acc),
        }
    } else {
        match spec_type_name(g, members[i]) {
            Err(e) => Err(e),
            Ok(name) => classify_from(
                g,
                members,
                error,
                i + 1,
                ConstraintClassification {
                    family: if acc.family.is_some() {
                        acc.family
                    } else {
                        spec_family_from(name)
                    },
                    kind: if acc.kind.is_some() {
                        acc.kind
                    } else {
                        spec_kind_from(name)
                    },
                },
            ),
        }
    }
}

/// The classification of a constraint holon: walking its lineage self first,
/// the first family anchor and the first kind anchor reached.
pub open spec fn spec_classify(g: Seq<HolonView>, constraint: HolonReference) -> Result<
    ConstraintClassification,
    ErrorView,
> {
    let w = spec_walk(g, constraint);
    classify_from(g, w.0, w.1, 0, ConstraintClassification { family: None, kind: None })
}

/// Returns the family anchored by `name`.
pub fn family_from_type_name(name: &MapString) -> (r: Option<ConstraintFamily>)
    ensures
        r == spec_family_from(name@),
{
    if name.equals(&CoreHolonTypeName::IntegerValueConstraint.as_holon_name()) {
        Some(ConstraintFamily::Integer)
    } else if name.equals(&CoreHolonTypeName::StringValueConstraint.as_holon_name()) {
        Some(ConstraintFamily::String)
    } else if name.equals(&CoreHolonTypeName::BytesValueConstraint.as_holon_name()) {
        Some(ConstraintFamily::Bytes)
    } else if name.equals(&CoreHolonTypeName::ValueArrayConstraint.as_holon_name()) {
        Some(ConstraintFamily::ValueArray)
    } else {
        None
    }
}

/// Returns the kind anchored by `name`.
pub fn kind_from_type_name(name: &MapString) -> (r: Option<ConstraintKind>)
    ensures
        r == spec_kind_from(name@),
{
    if name.equals(&CoreHolonTypeName::MinimumValue.as_holon_name()) {
        Some(ConstraintKind::MinimumValue)
    } else if name.equals(&CoreHolonTypeName::MaximumValue.as_holon_name()) {
        Some(ConstraintKind::MaximumValue)
    } else if name.equals(&CoreHolonTypeName::MinimumLength.as_holon_name()) {
        Some(ConstraintKind::MinimumLength)
    } else if name.equals(&CoreHolonTypeName::MaximumLength.as_holon_name()) {
        Some(ConstraintKind::MaximumLength)
    } else {
        None
    }
}

/// Classifies a constraint holon by the anchors its lineage reaches.
pub fn classify_constraint(g: &HolonGraph, constraint: HolonReference) -> (res: Result<
    ConstraintClassification,
    HolonError,
>)
    ensures
        rview(res) == spec_classify(g@, constraint),
{
    let walk = walk_extends_chain(g, constraint);
    let ghost w = spec_walk(g@, constraint);
    let mut acc = ConstraintClassification { family: None, kind: None };
    let mut i: usize = 0;
    while i < walk.members.len()
        invariant
            i <= walk.members.len(),
            walk.spec_view() == w,
            w == spec_walk(g@, constraint),
            spec_classify(g@, constraint) == classify_from(g@, w.0, w.1, i as int, acc),
        decreases walk.members.len() - i,
    {
        if acc.family.is_some() && acc.kind.is_some() {
            return Ok(acc);
        }
        let name = TypeHeader::new(walk.members[i]).declared_type_name(g)?;
        let family = match acc.family {
            Some(f) => Some(f),
            None => family_from_type_name(&name),
        };
        let kind = match acc.kind {
            Some(k) => Some(k),
            None => kind_from_type_name(&name),
        };
        acc = ConstraintClassification { family, kind };
        i = i + 1;
    }
    if acc.family.is_some() && acc.kind.is_some() {
        return Ok(acc);
    }
    match walk.error {
        Some(e) => Err(e),
        None => Ok(acc),
    }
}

// ---------------------------------------------------------------------------
// Schema errors
// ---------------------------------------------------------------------------

/// A schema defect of `value_type`, about `constraint` where one is concerned.
pub open spec fn spec_schema_invalid(
    value_type: HolonReference,
    kind: SchemaInvalidityKind,
    constraint: Option<HolonReference>,
) -> ErrorView {
    ErrorView::DescriptorSchemaInvalid { kind, constraint, descriptor: value_type }
}

/// The error, if any, for a constraint of family `actual` where `expected` is required.
pub open spec fn spec_family_error(
    value_type: HolonReference,
    constraint: HolonReference,
    actual: Option<ConstraintFamily>,
    expected: ConstraintFamily,
) -> Option<ErrorView> {
    match actual {
        Some(f) => if f == expected {
            None
        } else {
            Some(
                spec_schema_invalid(
                    value_type,
                    SchemaInvalidityKind::IncompatibleConstraintFamily,
                    Some(constraint),
                ),
            )
        },
        None => Some(
            spec_schema_invalid(value_type, SchemaInvalidityKind::UnclassifiedConstraint, Some(constraint)),
        ),
    }
}

/// A missing constraint parameter is a schema defect of the value type; other errors pass through.
pub open spec fn spec_map_parameter_error(
    value_type: HolonReference,
    constraint: HolonReference,
    error: ErrorView,
) -> ErrorView {
    match error {
        ErrorView::EmptyField(_) => spec_schema_invalid(
            value_type,
            SchemaInvalidityKind::MissingConstraintParameter,
            Some(constraint),
        ),
        other => other,
    }
}

/// A required integer parameter of a constraint holon.
pub open spec fn spec_constraint_integer(
    g: Seq<HolonView>,
    value_type: HolonReference,
    constraint: HolonReference,
    name: Seq<char>,
) -> Result<i64, ErrorView> {
    match spec_require_integer(g, constraint, name) {
        Ok(v) => Ok(v),
        Err(e) => Err(spec_map_parameter_error(value_type, constraint, e)),
    }
}

/// The required `ConstraintIsInclusive` parameter of a constraint holon.
pub open spec fn spec_constraint_is_inclusive(g: Seq<HolonView>, value_type: HolonReference, constraint: HolonReference) -> Result<
    bool,
    ErrorView,
> {
    match spec_require_bool(g, constraint, CorePropertyTypeName::ConstraintIsInclusive.spec_name()) {
        Ok(v) => Ok(v),
        Err(e) => Err(spec_map_parameter_error(value_type, constraint, e)),
    }
}

/// Builds a schema defect of `value_type`.
pub fn schema_invalid(value_type: HolonReference, kind: SchemaInvalidityKind, constraint: Option<HolonReference>) -> (e:
    HolonError)
    ensures
        e@ == spec_schema_invalid(value_type, kind, constraint),
{
    HolonError::DescriptorSchemaInvalid { kind, constraint, descriptor: value_type }
}

/// Checks that a classified constraint belongs to the `expected` family.
pub fn require_family(
    value_type: HolonReference,
    constraint: HolonReference,
    actual: Option<ConstraintFamily>,
    expected: ConstraintFamily,
) -> (res: Result<(), HolonError>)
    ensures
        match spec_family_error(value_type, constraint, actual, expected) {
            None => res is Ok,
            Some(e) => rview(res) == Err::<(), ErrorView>(e),
        },
{
    match actual {
        Some(f) => if f == expected {
            Ok(())
        } else {
            Err(schema_invalid(value_type, SchemaInvalidityKind::IncompatibleConstraintFamily, Some(constraint)))
        },
        None => Err(schema_invalid(value_type, SchemaInvalidityKind::UnclassifiedConstraint, Some(constraint))),
    }
}

/// Maps a missing constraint parameter to a schema defect of the value type.
pub fn map_constraint_parameter_error(value_type: HolonReference, constraint: HolonReference, error: HolonError) -> (e:
    HolonError)
    ensures
        e@ == spec_map_parameter_error(value_type, constraint, error@),
{
    match error {
        HolonError::EmptyField(_) => schema_invalid(
            value_type,
            SchemaInvalidityKind::MissingConstraintParameter,
            Some(constraint),
        ),
        other => other,
    }
}

/// The defect reported for a constraint with no executable implementation.
pub fn unsupported_constraint(value_type: HolonReference, constraint: HolonReference) -> (e: HolonError)
    ensures
        e@ == spec_schema_invalid(value_type, SchemaInvalidityKind::UnsupportedExecutableConstraint, Some(constraint)),
{
    schema_invalid(value_type, SchemaInvalidityKind::UnsupportedExecutableConstraint, Some(constraint))
}

fn require_constraint_integer(
    g: &HolonGraph,
    value_type: HolonReference,
    constraint: HolonReference,
    name: CorePropertyTypeName,
) -> (res: Result<i64, HolonError>)
    ensures
        rview(res) == spec_constraint_integer(g@, value_type, constraint, name.spec_name()),
{
    match require_integer(g, constraint, &name.as_property_name()) {
        Ok(v) => Ok(v),
        Err(e) => Err(map_constraint_parameter_error(value_type, constraint, e)),
    }
}

fn require_constraint_is_inclusive(g: &HolonGraph, value_type: HolonReference, constraint: HolonReference) -> (res:
    Result<bool, HolonError>)
    ensures
        rview(res) == spec_constraint_is_inclusive(g@, value_type, constraint),
{
    match require_bool(g, constraint, &CorePropertyTypeName::ConstraintIsInclusive.as_property_name()) {
        Ok(v) => Ok(v),
        Err(e) => Err(map_constraint_parameter_error(value_type, constraint, e)),
    }
}

// ---------------------------------------------------------------------------
// Resolution
// ---------------------------------------------------------------------------

/// The integer constraint that a constraint holon resolves to for `value_type`.
pub open spec fn spec_integer_constraint_of(g: Seq<HolonView>, value_type: HolonReference, constraint: HolonReference) -> Result<
    IntegerConstraint,
    ErrorView,
> {
    match spec_classify(g, constraint) {
        Err(e) => Err(e),
        Ok(cl) => match spec_family_error(value_type, constraint, cl.family, ConstraintFamily::Integer) {
            Some(e) => Err(e),
            None => match cl.kind {
                Some(ConstraintKind::MinimumValue) => match spec_constraint_integer(
                    g,
                    value_type,
                    constraint,
                    CorePropertyTypeName::ConstraintIntegerValue.spec_name(),
                ) {
                    Err(e) => Err(e),
                    Ok(value) => match spec_constraint_is_inclusive(g, value_type, constraint) {
                        Err(e) => Err(e),
                        Ok(inclusive) => Ok(IntegerConstraint::Minimum(MinimumValueConstraint { value, inclusive })),
                    },
                },
                Some(ConstraintKind::MaximumValue) => match spec_constraint_integer(
                    g,
                    value_type,
                    constraint,
                    CorePropertyTypeName::ConstraintIntegerValue.spec_name(),
                ) {
                    Err(e) => Err(e),
                    Ok(value) => match spec_constraint_is_inclusive(g, value_type, constraint) {
                        Err(e) => Err(e),
                        Ok(inclusive) => Ok(IntegerConstraint::Maximum(MaximumValueConstraint { value, inclusive })),
                    },
                },
                _ => Err(
                    spec_schema_invalid(
                        value_type,
                        SchemaInvalidityKind::UnsupportedExecutableConstraint,
                        Some(constraint),
                    ),
                ),
            },
        },
    }
}

/// The string constraint that a constraint holon resolves to for `value_type`.
pub open spec fn spec_string_constraint_of(g: Seq<HolonView>, value_type: HolonReference, constraint: HolonReference) -> Result<
    StringConstraint,
    ErrorView,
> {
    match spec_classify(g, constraint) {
        Err(e) => Err(e),
        Ok(cl) => match spec_family_error(value_type, constraint, cl.family, ConstraintFamily::String) {
            Some(e) => Err(e),
            None => match cl.kind {
                Some(ConstraintKind::MinimumLength) => match spec_constraint_integer(
                    g,
                    value_type,
                    constraint,
                    CorePropertyTypeName::ConstraintLength.spec_name(),
                ) {
                    Err(e) => Err(e),
                    Ok(length) => Ok(StringConstraint::MinimumLength(MinimumLengthConstraint { length })),
                },
                Some(ConstraintKind::MaximumLength) => match spec_constraint_integer(
                    g,
                    value_type,
                    constraint,
                    CorePropertyTypeName::ConstraintLength.spec_name(),
                ) {
                    Err(e) => Err(e),
                    Ok(length) => Ok(StringConstraint::MaximumLength(MaximumLengthConstraint { length })),
                },
                _ => Err(
                    spec_schema_invalid(
                        value_type,
                        SchemaInvalidityKind::UnsupportedExecutableConstraint,
                        Some(constraint),
                    ),
                ),
            },
        },
    }
}

/// Resolves `cs` from position `i` onwards, appending to `acc`; the first failure wins.
pub open spec fn integer_constraints_from(
    g: Seq<HolonView>,
    value_type: HolonReference,
    cs: Seq<HolonReference>,
    i: int,
    acc: Seq<IntegerConstraint>,
) -> Result<Seq<IntegerConstraint>, ErrorView>
    decreases cs.len() - i,
{
    if i < 0 || i >= cs.len() {
        Ok(acc)
    } else {
        match spec_integer_constraint_of(g, value_type, cs[i]) {
            Err(e) => Err(e),
            Ok(c) => integer_constraints_from(g, value_type, cs, i + 1, acc.push(c)),
        }
    }
}

/// Resolves `cs` from position `i` onwards, appending to `acc`; the first failure wins.
pub open spec fn string_constraints_from(
    g: Seq<HolonView>,
    value_type: HolonReference,
    cs: Seq<HolonReference>,
    i: int,
    acc: Seq<StringConstraint>,
) -> Result<Seq<StringConstraint>, ErrorView>
    decreases cs.len() - i,
{
    if i < 0 || i >= cs.len() {
        Ok(acc)
    } else {
        match spec_string_constraint_of(g, value_type, cs[i]) {
            Err(e) => Err(e),
            Ok(c) => string_constraints_from(g, value_type, cs, i + 1, acc.push(c)),
        }
    }
}

/// The smallest integer a lower bound admits, if `c` is one.
pub open spec fn effective_minimum_of(c: IntegerConstraint) -> Option<int> {
    match c {
        IntegerConstraint::Minimum(m) => Some(
            m.value + if m.inclusive {
                0int
            } else {
                1int
            },
        ),
        IntegerConstraint::Maximum(_) => None,
    }
}

/// The largest integer an upper bound admits, if `c` is one.
pub open spec fn effective_maximum_of(c: IntegerConstraint) -> Option<int> {
    match c {
        IntegerConstraint::Maximum(m) => Some(
            m.value - if m.inclusive {
                0int
            } else {
                1int
            },
        ),
        IntegerConstraint::Minimum(_) => None,
    }
}

/// Some lower bound admits only integers above what some upper bound admits:
/// the effective integer interval is empty.
pub open spec fn integer_constraints_contradict(cs: Seq<IntegerConstraint>) -> bool {
    exists|i: int, j: int|
        0 <= i < cs.len() && 0 <= j < cs.len() && (#[trigger] effective_minimum_of(cs[i])).is_some()
            && (#[trigger] effective_maximum_of(cs[j])).is_some() && effective_minimum_of(cs[i])->0
            > effective_maximum_of(cs[j])->0
}

/// The minimum length of a minimum-length constraint.
pub open spec fn minimum_length_of(c: StringConstraint) -> Option<int> {
    match c {
        StringConstraint::MinimumLength(m) => Some(m.length as int),
        StringConstraint::MaximumLength(_) => None,
    }
}

/// The maximum length of a maximum-length constraint.
pub open spec fn maximum_length_of(c: StringConstraint) -> Option<int> {
    match c {
        StringConstraint::MaximumLength(m) => Some(m.length as int),
        StringConstraint::MinimumLength(_) => None,
    }
}

/// Some minimum length exceeds some maximum length: the length interval is empty.
pub open spec fn string_constraints_contradict(cs: Seq<StringConstraint>) -> bool {
    exists|i: int, j: int|
        0 <= i < cs.len() && 0 <= j < cs.len() && (#[trigger] minimum_length_of(cs[i])).is_some()
            && (#[trigger] maximum_length_of(cs[j])).is_some() && minimum_length_of(cs[i])->0
            > maximum_length_of(cs[j])->0
}

/// The resolved integer constraints of `value_type`, in lineage order, or the first failure.
pub open spec fn spec_resolve_integer_constraints(g: Seq<HolonView>, value_type: HolonReference) -> Result<
    Seq<IntegerConstraint>,
    ErrorView,
> {
    match spec_flatten(g, value_type, CoreRelationshipTypeName::Constraints.spec_name()) {
        Err(e) => Err(e),
        Ok(cs) => match integer_constraints_from(g, value_type, cs, 0, Seq::empty()) {
            Err(e) => Err(e),
            Ok(resolved) => if integer_constraints_contradict(resolved) {
                Err(spec_schema_invalid(value_type, SchemaInvalidityKind::ContradictoryConstraints, None))
            } else {
                Ok(resolved)
            },
        },
    }
}

/// The resolved string constraints of `value_type`, in lineage order, or the first failure.
pub open spec fn spec_resolve_string_constraints(g: Seq<HolonView>, value_type: HolonReference) -> Result<
    Seq<StringConstraint>,
    ErrorView,
> {
    match spec_flatten(g, value_type, CoreRelationshipTypeName::Constraints.spec_name()) {
        Err(e) => Err(e),
        Ok(cs) => match string_constraints_from(g, value_type, cs, 0, Seq::empty()) {
            Err(e) => Err(e),
            Ok(resolved) => if string_constraints_contradict(resolved) {
                Err(spec_schema_invalid(value_type, SchemaInvalidityKind::ContradictoryConstraints, None))
            } else {
                Ok(resolved)
            },
        },
    }
}

fn resolve_integer_constraint(g: &HolonGraph, value_type: HolonReference, constraint: HolonReference) -> (res: Result<
    IntegerConstraint,
    HolonError,
>)
    ensures
        rview(res) == spec_integer_constraint_of(g@, value_type, constraint),
{
    let cl = classify_constraint(g, constraint)?;
    require_family(value_type, constraint, cl.family, ConstraintFamily::Integer)?;
    match cl.kind {
        Some(ConstraintKind::MinimumValue) => {
            let value = require_constraint_integer(
                g,
                value_type,
                constraint,
                CorePropertyTypeName::ConstraintIntegerValue,
            )?;
            let inclusive = require_constraint_is_inclusive(g, value_type, constraint)?;
            Ok(IntegerConstraint::Minimum(MinimumValueConstraint { value, inclusive }))
        },
        Some(ConstraintKind::MaximumValue) => {
            let value = require_constraint_integer(
                g,
                value_type,
                constraint,
                CorePropertyTypeName::ConstraintIntegerValue,
            )?;
            let inclusive = require_constraint_is_inclusive(g, value_type, constraint)?;
            Ok(IntegerConstraint::Maximum(MaximumValueConstraint { value, inclusive }))
        },
        _ => Err(unsupported_constraint(value_type, constraint)),
    }
}

fn resolve_string_constraint(g: &HolonGraph, value_type: HolonReference, constraint: HolonReference) -> (res: Result<
    StringConstraint,
    HolonError,
>)
    ensures
        rview(res) == spec_string_constraint_of(g@, value_type, constraint),
{
    let cl = classify_constraint(g, constraint)?;
    require_family(value_type, constraint, cl.family, ConstraintFamily::String)?;
    match cl.kind {
        Some(ConstraintKind::MinimumLength) => {
            let length = require_constraint_integer(g, value_type, constraint, CorePropertyTypeName::ConstraintLength)?;
            Ok(StringConstraint::MinimumLength(MinimumLengthConstraint { length }))
        },
        Some(ConstraintKind::MaximumLength) => {
            let length = require_constraint_integer(g, value_type, constraint, CorePropertyTypeName::ConstraintLength)?;
            Ok(StringConstraint::MaximumLength(MaximumLengthConstraint { length }))
        },
        _ => Err(unsupported_constraint(value_type, constraint)),
    }
}

/// The smallest integer admitted by a lower bound.
pub fn effective_integer_minimum(c: &MinimumValueConstraint) -> (r: i128)
    ensures
        Some(r as int) == effective_minimum_of(IntegerConstraint::Minimum(*c)),
{
    (c.value as i128) + if c.inclusive {
        0i128
    } else {
        1i128
    }
}

/// The largest integer admitted by an upper bound.
pub fn effective_integer_maximum(c: &MaximumValueConstraint) -> (r: i128)
    ensures
        Some(r as int) == effective_maximum_of(IntegerConstraint::Maximum(*c)),
{
    (c.value as i128) - if c.inclusive {
        0i128
    } else {
        1i128
    }
}

/// Rejects a constraint set whose effective integer interval is empty.
pub fn validate_integer_coherence(value_type: HolonReference, constraints: &Vec<IntegerConstraint>) -> (res: Result<
    (),
    HolonError,
>)
    ensures
        integer_constraints_contradict(constraints@) ==> rview(res) == Err::<(), ErrorView>(
            spec_schema_invalid(value_type, SchemaInvalidityKind::ContradictoryConstraints, None),
        ),
        !integer_constraints_contradict(constraints@) ==> res is Ok,
{
    let ghost cs = constraints@;
    let mut strongest_min: Option<i128> = None;
    let mut strongest_max: Option<i128> = None;
    let mut i: usize = 0;
    while i < constraints.len()
        invariant
            i <= constraints.len(),
            cs == constraints@,
            strongest_min is None <==> (forall|k: int| 0 <= k < i ==> (#[trigger] effective_minimum_of(cs[k])) is None),
            strongest_min matches Some(m) ==> (forall|k: int|
                0 <= k < i && (#[trigger] effective_minimum_of(cs[k])) is Some ==> effective_minimum_of(cs[k])->0 <= m),
            strongest_min matches Some(m) ==> (exists|k: int|
                0 <= k < i && #[trigger] effective_minimum_of(cs[k]) == Some(m as int)),
            strongest_max is None <==> (forall|k: int| 0 <= k < i ==> (#[trigger] effective_maximum_of(cs[k])) is None),
            strongest_max matches Some(m) ==> (forall|k: int|
                0 <= k < i && (#[trigger] effective_maximum_of(cs[k])) is Some ==> effective_maximum_of(cs[k])->0 >= m),
            strongest_max matches Some(m) ==> (exists|k: int|
                0 <= k < i && #[trigger] effective_maximum_of(cs[k]) == Some(m as int)),
        decreases constraints.len() - i,
    {
        match &constraints[i] {
            IntegerConstraint::Minimum(c) => {
                let v = effective_integer_minimum(c);
                strongest_min = match strongest_min {
                    Some(m) => if v > m {
                        Some(v)
                    } else {
                        Some(m)
                    },
                    None => Some(v),
                };
            },
            IntegerConstraint::Maximum(c) => {
                let v = effective_integer_maximum(c);
                strongest_max = match strongest_max {
                    Some(m) => if v < m {
                        Some(v)
                    } else {
                        Some(m)
                    },
                    None => Some(v),
                };
            },
        }
        i = i + 1;
    }
    if let (Some(lo), Some(hi)) = (strongest_min, strongest_max) {
        if lo > hi {
            proof {
                let a = choose|k: int| 0 <= k < i && #[trigger] effective_minimum_of(cs[k]) == Some(lo as int);
                let b = choose|k: int| 0 <= k < i && #[trigger] effective_maximum_of(cs[k]) == Some(hi as int);
                assert(effective_minimum_of(cs[a]).is_some() && effective_maximum_of(cs[b]).is_some());
            }
            return Err(schema_invalid(value_type, SchemaInvalidityKind::ContradictoryConstraints, None));
        }
    }
    proof {
        if integer_constraints_contradict(cs) {
            let (a, b) = choose|a: int, b: int|
                0 <= a < cs.len() && 0 <= b < cs.len() && (#[trigger] effective_minimum_of(cs[a])).is_some()
                    && (#[trigger] effective_maximum_of(cs[b])).is_some() && effective_minimum_of(cs[a])->0
                    > effective_maximum_of(cs[b])->0;
            assert(effective_minimum_of(cs[a]) is Some);
            assert(effective_maximum_of(cs[b]) is Some);
        }
    }
    Ok(())
}

/// Rejects a constraint set whose length interval is empty.
pub fn validate_string_coherence(value_type: HolonReference, constraints: &Vec<StringConstraint>) -> (res: Result<
    (),
    HolonError,
>)
    ensures
        string_constraints_contradict(constraints@) ==> rview(res) == Err::<(), ErrorView>(
            spec_schema_invalid(value_type, SchemaInvalidityKind::ContradictoryConstraints, None),
        ),
        !string_constraints_contradict(constraints@) ==> res is Ok,
{
    let ghost cs = constraints@;
    let mut strongest_min: Option<i64> = None;
    let mut strongest_max: Option<i64> = None;
    let mut i: usize = 0;
    while i < constraints.len()
        invariant
            i <= constraints.len(),
            cs == constraints@,
            strongest_min is None <==> (forall|k: int| 0 <= k < i ==> (#[trigger] minimum_length_of(cs[k])) is None),
            strongest_min matches Some(m) ==> (forall|k: int|
                0 <= k < i && (#[trigger] minimum_length_of(cs[k])) is Some ==> minimum_length_of(cs[k])->0 <= m),
            strongest_min matches Some(m) ==> (exists|k: int|
                0 <= k < i && #[trigger] minimum_length_of(cs[k]) == Some(m as int)),
            strongest_max is None <==> (forall|k: int| 0 <= k < i ==> (#[trigger] maximum_length_of(cs[k])) is None),
            strongest_max matches Some(m) ==> (forall|k: int|
                0 <= k < i && (#[trigger] maximum_length_of(cs[k])) is Some ==> maximum_length_of(cs[k])->0 >= m),
            strongest_max matches Some(m) ==> (exists|k: int|
                0 <= k < i && #[trigger] maximum_length_of(cs[k]) == Some(m as int)),
        decreases constraints.len() - i,
    {
        match &constraints[i] {
            StringConstraint::MinimumLength(c) => {
                let v = c.length;
                assert(minimum_length_of(cs[i as int]) == Some(v as int));
                assert(maximum_length_of(cs[i as int]) is None);
                strongest_min = match strongest_min {
                    Some(m) => if v > m {
                        Some(v)
                    } else {
                        Some(m)
                    },
                    None => Some(v),
                };
            },
            StringConstraint::MaximumLength(c) => {
                let v = c.length;
                assert(maximum_length_of(cs[i as int]) == Some(v as int));
                assert(minimum_length_of(cs[i as int]) is None);
                strongest_max = match strongest_max {
                    Some(m) => if v < m {
                        Some(v)
                    } else {
                        Some(m)
                    },
                    None => Some(v),
                };
            },
        }
        i = i + 1;
    }
    if let (Some(lo), Some(hi)) = (strongest_min, strongest_max) {
        if lo > hi {
            proof {
                let a = choose|k: int| 0 <= k < i && #[trigger] minimum_length_of(cs[k]) == Some(lo as int);
                let b = choose|k: int| 0 <= k < i && #[trigger] maximum_length_of(cs[k]) == Some(hi as int);
                assert(minimum_length_of(cs[a]).is_some() && maximum_length_of(cs[b]).is_some());
            }
            return Err(schema_invalid(value_type, SchemaInvalidityKind::ContradictoryConstraints, None));
        }
    }
    proof {
        if string_constraints_contradict(cs) {
            let (a, b) = choose|a: int, b: int|
                0 <= a < cs.len() && 0 <= b < cs.len() && (#[trigger] minimum_length_of(cs[a])).is_some()
                    && (#[trigger] maximum_length_of(cs[b])).is_some() && minimum_length_of(cs[a])->0
                    > maximum_length_of(cs[b])->0;
            assert(minimum_length_of(cs[a]) is Some);
            assert(maximum_length_of(cs[b]) is Some);
        }
    }
    Ok(())
}

/// Resolves the inherited `Constraints` of `value_type` into executable integer constraints.
pub fn resolve_integer_constraints(g: &HolonGraph, value_type: HolonReference) -> (res: Result<
    Vec<IntegerConstraint>,
    HolonError,
>)
    ensures
        rview(res) == spec_resolve_integer_constraints(g@, value_type),
{
    let members = flatten_related_members(g, value_type, CoreRelationshipTypeName::Constraints)?;
    let mut resolved: Vec<IntegerConstraint> = Vec::new();
    let mut i: usize = 0;
    while i < members.len()
        invariant
            i <= members.len(),
            spec_flatten(g@, value_type, CoreRelationshipTypeName::Constraints.spec_name()) == Ok::<
                Seq<HolonReference>,
                ErrorView,
            >(members@),
            integer_constraints_from(g@, value_type, members@, 0, Seq::empty()) == integer_constraints_from(
                g@,
                value_type,
                members@,
                i as int,
                resolved@,
            ),
        decreases members.len() - i,
    {
        let c = resolve_integer_constraint(g, value_type, members[i])?;
        resolved.push(c);
        i = i + 1;
    }
    validate_integer_coherence(value_type, &resolved)?;
    assert(resolved.deep_view() =~= resolved@);
    Ok(resolved)
}

/// Resolves the inherited `Constraints` of `value_type` into executable string constraints.
pub fn resolve_string_constraints(g: &HolonGraph, value_type: HolonReference) -> (res: Result<
    Vec<StringConstraint>,
    HolonError,
>)
    ensures
        rview(res) == spec_resolve_string_constraints(g@, value_type),
{
    let members = flatten_related_members(g, value_type, CoreRelationshipTypeName::Constraints)?;
    let mut resolved: Vec<StringConstraint> = Vec::new();
    let mut i: usize = 0;
    while i < members.len()
        invariant
            i <= members.len(),
            spec_flatten(g@, value_type, CoreRelationshipTypeName::Constraints.spec_name()) == Ok::<
                Seq<HolonReference>,
                ErrorView,
            >(members@),
            string_constraints_from(g@, value_type, members@, 0, Seq::empty()) == string_constraints_from(
                g@,
                value_type,
                members@,
                i as int,
                resolved@,
            ),
        decreases members.len() - i,
    {
        let c = resolve_string_constraint(g, value_type, members[i])?;
        resolved.push(c);
        i = i + 1;
    }
    validate_string_coherence(value_type, &resolved)?;
    assert(resolved.deep_view() =~= resolved@);
    Ok(resolved)
}

} // verus!
