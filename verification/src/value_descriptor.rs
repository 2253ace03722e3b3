//! Runtime wrapper for value-type descriptors.
use crate::descriptor::Descriptor;
use crate::error::{rview, ErrorView, HolonError};
use crate::graph::{HolonGraph, HolonReference, HolonView};
use crate::holon_descriptor::spec_get_by_name;
use crate::inheritance::{equals_or_extends, flatten_related_members, spec_equals_or_extends};
use crate::accessor_helpers::find_unique_by_name;
use crate::names::{spec_type_case, to_type_case, CoreRelationshipTypeName};
use crate::operator_descriptor::OperatorDescriptor;
use crate::resolved_descriptor_roots::{spec_resolve_roots, ResolvedValueTypeRoots};
use crate::type_header::{spec_type_name, TypeHeader};
use crate::value_descriptor_subtypes::enum_value_descriptor::{spec_enum_apply, spec_enum_is_valid, EnumValueDescriptor};
use crate::value_descriptor_subtypes::helpers::{
    affords_operator_named, operator_named, spec_affords_operator_named, spec_operator_named,
    spec_supported_operators, spec_supports_operator, spec_unsupported_operator, spec_value_kind_mismatch,
    supported_operators, supports_operator, unsupported_operator, value_kind_mismatch,
};
use crate::value_descriptor_subtypes::integer_value_descriptor::{
    spec_integer_apply, spec_integer_is_valid, IntegerValueDescriptor,
};
use crate::value_descriptor_subtypes::string_value_descriptor::{
    spec_string_apply, spec_string_is_valid, StringValueDescriptor,
};
use crate::value_descriptor_subtypes::value_array_descriptor::ValueArrayDescriptor;
use crate::values::{BaseValue, BaseValueKind, BaseValueView, MapString};
use vstd::prelude::*;
use vstd::string::*;

verus! {

/// Native representation classified independently of configured constraints.
#[derive(Clone, Debug, PartialEq, Eq)]
pub enum ValueDescriptorKind {
    /// One of the five scalar representations.
    BaseValue(BaseValueKind),
    /// Accepts any native `BaseValue` representation.
    AnyBaseValue,
    /// Array representation, whose execution semantics remain deferred.
    ValueArray,
    /// No supported family root occurs in the lineage; carries the descriptor's type name.
    Unsupported(String),
}

/// The mathematical content of a `ValueDescriptorKind`.
pub enum ValueKindView {
    BaseValue(BaseValueKind),
    AnyBaseValue,
    ValueArray,
    Unsupported(Seq<char>),
}

impl View for ValueDescriptorKind {
    type V = ValueKindView;

    open spec fn view(&self) -> ValueKindView {
        match self {
            ValueDescriptorKind::BaseValue(k) => ValueKindView::BaseValue(*k),
            ValueDescriptorKind::AnyBaseValue => ValueKindView::AnyBaseValue,
            ValueDescriptorKind::ValueArray => ValueKindView::ValueArray,
            ValueDescriptorKind::Unsupported(s) => ValueKindView::Unsupported(s@),
        }
    }
}

impl DeepView for ValueDescriptorKind {
    type V = ValueKindView;

    open spec fn deep_view(&self) -> ValueKindView {
        self@
    }
}

impl ValueDescriptorKind {
    /// Returns an independent copy.
    pub fn duplicate(&self) -> (r: ValueDescriptorKind)
        ensures
            r@ == self@,
    {
        match self {
            ValueDescriptorKind::BaseValue(k) => ValueDescriptorKind::BaseValue(*k),
            ValueDescriptorKind::AnyBaseValue => ValueDescriptorKind::AnyBaseValue,
            ValueDescriptorKind::ValueArray => ValueDescriptorKind::ValueArray,
            ValueDescriptorKind::Unsupported(s) => ValueDescriptorKind::Unsupported(s.clone()),
        }
    }
}

/// The kind of the first family root in `fams[i..]` that `holon` equals or
/// extends; `Unsupported` with the holon's type name when none does.
pub open spec fn kind_from_families(
    g: Seq<HolonView>,
    holon: HolonReference,
    fams: Seq<(HolonReference, ValueKindView)>,
    i: int,
) -> Result<ValueKindView, ErrorView>
    decreases fams.len() - i,
{
    if i < 0 || i >= fams.len() {
        match spec_type_name(g, holon) {
            Err(e) => Err(e),
            Ok(n) => Ok(ValueKindView::Unsupported(n)),
        }
    } else {
        match spec_equals_or_extends(g, holon, fams[i].0) {
            Err(e) => Err(e),
            Ok(true) => Ok(fams[i].1),
            Ok(false) => kind_from_families(g, holon, fams, i + 1),
        }
    }
}

/// The kind of `holon` against the canonical family roots resolved from `g`.
pub open spec fn spec_resolved_kind(g: Seq<HolonView>, updates: Seq<(usize, usize)>, holon: HolonReference) -> Result<
    ValueKindView,
    ErrorView,
> {
    match spec_resolve_roots(g, updates) {
        Err(e) => Err(e),
        Ok(fams) => kind_from_families(g, holon, fams, 0),
    }
}

/// The error for a descriptor whose lineage reaches no supported family root.
pub open spec fn spec_wrong_value_kind(holon: HolonReference, found: Seq<char>) -> ErrorView {
    ErrorView::WrongDescriptorKind {
        expected: "IntegerValueType, StringValueType, BooleanValueType, BytesValueType, EnumValueType, BaseValueValueType, or ValueArrayValueType"@,
        found,
        descriptor: holon,
    }
}

/// Validity of `value` for a value descriptor of kind `kind`.
pub open spec fn spec_is_valid_for_kind(
    g: Seq<HolonView>,
    holon: HolonReference,
    kind: ValueKindView,
    value: BaseValueView,
) -> Result<(), ErrorView> {
    match kind {
        ValueKindView::BaseValue(BaseValueKind::Integer) => spec_integer_is_valid(g, holon, value),
        ValueKindView::BaseValue(BaseValueKind::String) => spec_string_is_valid(holon, value),
        ValueKindView::BaseValue(BaseValueKind::Boolean) => if value.kind() == BaseValueKind::Boolean {
            Ok(())
        } else {
            Err(spec_value_kind_mismatch(holon, "Boolean"@, value))
        },
        ValueKindView::BaseValue(BaseValueKind::Enum) => spec_enum_is_valid(g, holon, value),
        ValueKindView::BaseValue(BaseValueKind::Bytes) => if value.kind() == BaseValueKind::Bytes {
            Ok(())
        } else {
            Err(spec_value_kind_mismatch(holon, "Bytes"@, value))
        },
        ValueKindView::AnyBaseValue => Ok(()),
        ValueKindView::ValueArray => Err(ErrorView::NotImplemented("ValueArray validation"@)),
        ValueKindView::Unsupported(found) => Err(spec_wrong_value_kind(holon, found)),
    }
}

/// Validity of `value` for the value descriptor `holon`.
pub open spec fn spec_value_is_valid(
    g: Seq<HolonView>,
    updates: Seq<(usize, usize)>,
    holon: HolonReference,
    value: BaseValueView,
) -> Result<
    (),
    ErrorView,
> {
    match spec_resolved_kind(g, updates, holon) {
        Err(e) => Err(e),
        Ok(kind) => spec_is_valid_for_kind(g, holon, kind, value),
    }
}

/// Equality on two operands of one native kind named `label`, where `EqualsOperator` is the only operator.
pub open spec fn spec_equality_only_apply(
    g: Seq<HolonView>,
    holon: HolonReference,
    op: HolonReference,
    label: Seq<char>,
    kind: BaseValueKind,
    lhs: BaseValueView,
    rhs: BaseValueView,
) -> Result<bool, ErrorView> {
    match spec_operator_named(g, op, "EqualsOperator"@) {
        Err(e) => Err(e),
        Ok(false) => Err(spec_unsupported_operator(g, holon, op)),
        Ok(true) => if lhs.kind() != kind {
            Err(spec_value_kind_mismatch(holon, label, lhs))
        } else if rhs.kind() != kind {
            Err(spec_value_kind_mismatch(holon, label, rhs))
        } else {
            Ok(lhs == rhs)
        },
    }
}

/// Applying `op` through a value descriptor of kind `kind` that affords it.
pub open spec fn spec_apply_for_kind(
    g: Seq<HolonView>,
    holon: HolonReference,
    kind: ValueKindView,
    op: HolonReference,
    lhs: BaseValueView,
    rhs: BaseValueView,
) -> Result<bool, ErrorView> {
    match kind {
        ValueKindView::BaseValue(BaseValueKind::Integer) => spec_integer_apply(g, holon, op, lhs, rhs),
        ValueKindView::BaseValue(BaseValueKind::String) => spec_string_apply(g, holon, op, lhs, rhs),
        ValueKindView::BaseValue(BaseValueKind::Boolean) => spec_equality_only_apply(
            g,
            holon,
            op,
            "Boolean"@,
            BaseValueKind::Boolean,
            lhs,
            rhs,
        ),
        ValueKindView::BaseValue(BaseValueKind::Enum) => spec_enum_apply(g, holon, op, lhs, rhs),
        ValueKindView::BaseValue(BaseValueKind::Bytes) => spec_equality_only_apply(
            g,
            holon,
            op,
            "Bytes"@,
            BaseValueKind::Bytes,
            lhs,
            rhs,
        ),
        ValueKindView::AnyBaseValue => Err(spec_unsupported_operator(g, holon, op)),
        ValueKindView::ValueArray => Err(spec_unsupported_operator(g, holon, op)),
        ValueKindView::Unsupported(found) => Err(spec_wrong_value_kind(holon, found)),
    }
}

/// Applying `op` to `lhs` and `rhs` through the value descriptor `holon`: the
/// kind must be supported, the descriptor must afford the operator, and the
/// kind's own semantics decide.
pub open spec fn spec_value_apply(
    g: Seq<HolonView>,
    updates: Seq<(usize, usize)>,
    holon: HolonReference,
    op: HolonReference,
    lhs: BaseValueView,
    rhs: BaseValueView,
) -> Result<bool, ErrorView> {
    match spec_resolved_kind(g, updates, holon) {
        Err(e) => Err(e),
        Ok(ValueKindView::Unsupported(found)) => Err(spec_wrong_value_kind(holon, found)),
        Ok(kind) => match spec_supports_operator(g, holon, op) {
            Err(e) => Err(e),
            Ok(false) => Err(spec_unsupported_operator(g, holon, op)),
            Ok(true) => spec_apply_for_kind(g, holon, kind, op, lhs, rhs),
        },
    }
}

/// Returns whether two byte strings are equal.
pub fn bytes_equal(a: &Vec<u8>, b: &Vec<u8>) -> (r: bool)
    ensures
        r == (a@ == b@),
{
    if a.len() != b.len() {
        return false;
    }
    let mut i: usize = 0;
    while i < a.len()
        invariant
            i <= a.len(),
            a.len() == b.len(),
            forall|k: int| 0 <= k < i ==> a@[k] == b@[k],
        decreases a.len() - i,
    {
        if a[i] != b[i] {
            return false;
        }
        i = i + 1;
    }
    assert(a@ =~= b@);
    true
}

/// Runtime wrapper for value-type descriptors.
pub struct ValueDescriptor {
    holon: HolonReference,
}

impl View for ValueDescriptor {
    type V = HolonReference;

    closed spec fn view(&self) -> HolonReference {
        self.holon
    }
}

impl DeepView for ValueDescriptor {
    type V = HolonReference;

    open spec fn deep_view(&self) -> HolonReference {
        self@
    }
}

impl Descriptor for ValueDescriptor {
    open spec fn spec_holon(&self) -> HolonReference {
        self@
    }

    fn holon(&self) -> (r: HolonReference) {
        self.holon
    }
}

impl From<HolonReference> for ValueDescriptor {
    fn from(holon: HolonReference) -> (d: Self)
        ensures
            d@ == holon,
    {
        Self { holon }
    }
}

impl vstd::std_specs::convert::FromSpecImpl<HolonReference> for ValueDescriptor {
    open spec fn obeys_from_spec() -> bool {
        true
    }

    closed spec fn from_spec(v: HolonReference) -> Self {
        ValueDescriptor { holon: v }
    }
}

/// Wraps each reference of `members`, preserving order.
pub fn wrap_all_value_descriptor(members: Vec<HolonReference>) -> (r: Vec<ValueDescriptor>)
    ensures
        r.deep_view() == members@,
{
    let mut out: Vec<ValueDescriptor> = Vec::new();
    let mut i: usize = 0;
    while i < members.len()
        invariant
            i <= members.len(),
            out.deep_view() == members@.subrange(0, i as int),
        decreases members.len() - i,
    {
        let ghost before = out.deep_view();
        out.push(ValueDescriptor { holon: members[i] });
        assert(out.deep_view() =~= before.push(members@[i as int]));
        assert(members@.subrange(0, i as int).push(members@[i as int]) =~= members@.subrange(0, i + 1));
        i = i + 1;
    }
    assert(members@.subrange(0, i as int) =~= members@);
    out
}

impl ValueDescriptor {
    /// Wraps an already-resolved descriptor holon reference.
    pub fn from_holon(holon: HolonReference) -> (d: Self)
        ensures
            d@ == holon,
    {
        Self { holon }
    }

    /// Projects the shared descriptor header view for this descriptor holon.
    pub fn header(&self) -> (h: TypeHeader)
        ensures
            h.holon == self@,
    {
        TypeHeader::new(self.holon)
    }

    /// Validates a runtime value against this descriptor's semantic value kind.
    pub fn is_valid(&self, g: &HolonGraph, value: &BaseValue) -> (res: Result<(), HolonError>)
        ensures
            rview(res) == spec_value_is_valid(g@, g.spec_updates(), self@, value@),
    {
        let kind = self.resolved_value_kind(g)?;
        match kind {
            ValueDescriptorKind::BaseValue(BaseValueKind::Integer) => {
                IntegerValueDescriptor::from_holon(self.holon).is_valid(g, value)
            },
            ValueDescriptorKind::BaseValue(BaseValueKind::String) => {
                StringValueDescriptor::from_holon(self.holon).is_valid(value)
            },
            ValueDescriptorKind::BaseValue(BaseValueKind::Boolean) => self.validate_boolean(value),
            ValueDescriptorKind::BaseValue(BaseValueKind::Enum) => {
                EnumValueDescriptor::from_holon(self.holon).is_valid(g, value)
            },
            ValueDescriptorKind::BaseValue(BaseValueKind::Bytes) => self.validate_bytes(value),
            ValueDescriptorKind::AnyBaseValue => Ok(()),
            ValueDescriptorKind::ValueArray => Err(HolonError::NotImplemented(String::from_str("ValueArray validation"))),
            ValueDescriptorKind::Unsupported(found) => Err(self.wrong_value_kind(found)),
        }
    }

    /// Returns operators afforded by this descriptor across its inheritance chain.
    pub fn supported_operators(&self, g: &HolonGraph) -> (res: Result<Vec<OperatorDescriptor>, HolonError>)
        ensures
            rview(res) == spec_supported_operators(g@, self@),
    {
        supported_operators(g, self.holon)
    }

    /// Returns whether this descriptor affords the supplied operator.
    pub fn supports_operator(&self, g: &HolonGraph, op: &OperatorDescriptor) -> (res: Result<bool, HolonError>)
        ensures
            rview(res) == spec_supports_operator(g@, self@, op@),
    {
        supports_operator(g, self.holon, op)
    }

    /// Finds the afforded operator named `operator_name`; a name afforded twice is rejected.
    pub fn get_operator_by_name(&self, g: &HolonGraph, operator_name: &str) -> (res: Result<
        OperatorDescriptor,
        HolonError,
    >)
        ensures
            rview(res) == spec_get_by_name(
                g@,
                self@,
                CoreRelationshipTypeName::AffordsOperator,
                spec_type_case(operator_name@),
                "operator"@,
            ),
    {
        let members = flatten_related_members(g, self.holon, CoreRelationshipTypeName::AffordsOperator)?;
        let found = find_unique_by_name(g, &members, &MapString(to_type_case(operator_name)), "operator", self.holon)?;
        Ok(OperatorDescriptor::from_holon(found))
    }

    /// Validates that this descriptor affords the named operator, returning it.
    pub fn affords_operator(&self, g: &HolonGraph, operator_name: &str) -> (res: Result<
        OperatorDescriptor,
        HolonError,
    >)
        ensures
            rview(res) == spec_get_by_name(
                g@,
                self@,
                CoreRelationshipTypeName::AffordsOperator,
                spec_type_case(operator_name@),
                "operator"@,
            ),
    {
        self.get_operator_by_name(g, operator_name)
    }

    /// Returns whether this descriptor affords an operator named `operator_name`.
    pub fn supports_operator_by_name(&self, g: &HolonGraph, operator_name: &str) -> (res: Result<bool, HolonError>)
        ensures
            rview(res) == spec_affords_operator_named(g@, self@, spec_type_case(operator_name@)),
    {
        affords_operator_named(g, self.holon, &MapString(to_type_case(operator_name)))
    }

    /// Applies an afforded operator to runtime operands using this descriptor's value kind.
    pub fn apply_operator(&self, g: &HolonGraph, op: &OperatorDescriptor, lhs: &BaseValue, rhs: &BaseValue) -> (res:
        Result<bool, HolonError>)
        ensures
            rview(res) == spec_value_apply(g@, g.spec_updates(), self@, op@, lhs@, rhs@),
    {
        let kind = self.resolved_value_kind(g)?;
        if let ValueDescriptorKind::Unsupported(found) = kind {
            return Err(self.wrong_value_kind(found));
        }
        if !self.supports_operator(g, op)? {
            return unsupported_operator(g, self.holon, op);
        }
        match kind {
            ValueDescriptorKind::BaseValue(BaseValueKind::Integer) => {
                IntegerValueDescriptor::from_holon(self.holon).apply_operator(g, op, lhs, rhs)
            },
            ValueDescriptorKind::BaseValue(BaseValueKind::String) => {
                StringValueDescriptor::from_holon(self.holon).apply_operator(g, op, lhs, rhs)
            },
            ValueDescriptorKind::BaseValue(BaseValueKind::Boolean) => self.apply_boolean_operator(g, op, lhs, rhs),
            ValueDescriptorKind::BaseValue(BaseValueKind::Enum) => {
                EnumValueDescriptor::from_holon(self.holon).apply_operator(g, op, lhs, rhs)
            },
            ValueDescriptorKind::BaseValue(BaseValueKind::Bytes) => self.apply_bytes_operator(g, op, lhs, rhs),
            ValueDescriptorKind::AnyBaseValue => unsupported_operator(g, self.holon, op),
            ValueDescriptorKind::ValueArray => {
                ValueArrayDescriptor::from_holon(self.holon).apply_operator(g, op, lhs, rhs)
            },
            ValueDescriptorKind::Unsupported(found) => Err(self.wrong_value_kind(found)),
        }
    }

    /// Classifies the native representation by the first family root the
    /// descriptor equals or extends, without executing constraints.
    pub fn value_kind(&self, g: &HolonGraph, roots: &ResolvedValueTypeRoots) -> (res: Result<
        ValueDescriptorKind,
        HolonError,
    >)
        ensures
            rview(res) == kind_from_families(g@, self@, roots.spec_families(), 0),
    {
        let ghost fams = roots.spec_families();
        let mut i: usize = 0;
        while i < roots.families.len()
            invariant
                i <= roots.families.len(),
                fams == roots.spec_families(),
                fams.len() == roots.families.len(),
                kind_from_families(g@, self@, fams, 0) == kind_from_families(g@, self@, fams, i as int),
            decreases roots.families.len() - i,
        {
            assert(fams[i as int] == (roots.families@[i as int].0, roots.families@[i as int].1@));
            if equals_or_extends(g, self.holon, roots.families[i].0)? {
                return Ok(roots.families[i].1.duplicate());
            }
            i = i + 1;
        }
        let n = TypeHeader::new(self.holon).declared_type_name(g)?;
        Ok(ValueDescriptorKind::Unsupported(n.0))
    }

    /// The kind of this descriptor against freshly resolved family roots.
    pub fn resolved_value_kind(&self, g: &HolonGraph) -> (res: Result<ValueDescriptorKind, HolonError>)
        ensures
            rview(res) == spec_resolved_kind(g@, g.spec_updates(), self@),
    {
        let roots = ResolvedValueTypeRoots::resolve(g)?;
        self.value_kind(g, &roots)
    }

    fn validate_boolean(&self, value: &BaseValue) -> (res: Result<(), HolonError>)
        ensures
            rview(res) == spec_is_valid_for_kind(
                Seq::empty(),
                self@,
                ValueKindView::BaseValue(BaseValueKind::Boolean),
                value@,
            ),
    {
        match value {
            BaseValue::BooleanValue(_) => Ok(()),
            other => Err(value_kind_mismatch(self.holon, "Boolean", other)),
        }
    }

    fn validate_bytes(&self, value: &BaseValue) -> (res: Result<(), HolonError>)
        ensures
            rview(res) == spec_is_valid_for_kind(
                Seq::empty(),
                self@,
                ValueKindView::BaseValue(BaseValueKind::Bytes),
                value@,
            ),
    {
        match value {
            BaseValue::BytesValue(_) => Ok(()),
            other => Err(value_kind_mismatch(self.holon, "Bytes", other)),
        }
    }

    fn apply_boolean_operator(&self, g: &HolonGraph, op: &OperatorDescriptor, lhs: &BaseValue, rhs: &BaseValue) -> (res:
        Result<bool, HolonError>)
        ensures
            rview(res) == spec_equality_only_apply(g@, self@, op@, "Boolean"@, BaseValueKind::Boolean, lhs@, rhs@),
    {
        if !operator_named(g, op, "EqualsOperator")? {
            return unsupported_operator(g, self.holon, op);
        }
        let l = match lhs {
            BaseValue::BooleanValue(v) => v.0,
            other => {
                return Err(value_kind_mismatch(self.holon, "Boolean", other));
            },
        };
        let r = match rhs {
            BaseValue::BooleanValue(v) => v.0,
            other => {
                return Err(value_kind_mismatch(self.holon, "Boolean", other));
            },
        };
        Ok(l == r)
    }

    fn apply_bytes_operator(&self, g: &HolonGraph, op: &OperatorDescriptor, lhs: &BaseValue, rhs: &BaseValue) -> (res:
        Result<bool, HolonError>)
        ensures
            rview(res) == spec_equality_only_apply(g@, self@, op@, "Bytes"@, BaseValueKind::Bytes, lhs@, rhs@),
    {
        if !operator_named(g, op, "EqualsOperator")? {
            return unsupported_operator(g, self.holon, op);
        }
        let l = match lhs {
            BaseValue::BytesValue(v) => &v.0,
            other => {
                return Err(value_kind_mismatch(self.holon, "Bytes", other));
            },
        };
        let r = match rhs {
            BaseValue::BytesValue(v) => &v.0,
            other => {
                return Err(value_kind_mismatch(self.holon, "Bytes", other));
            },
        };
        Ok(bytes_equal(l, r))
    }

    fn wrong_value_kind(&self, found: String) -> (e: HolonError)
        ensures
            e@ == spec_wrong_value_kind(self@, found@),
    {
        HolonError::WrongDescriptorKind {
            expected: String::from_str(
                "IntegerValueType, StringValueType, BooleanValueType, BytesValueType, EnumValueType, BaseValueValueType, or ValueArrayValueType",
            ),
            found,
            descriptor: self.holon,
        }
    }
}


/// Applying an operator splits by value kind: an unsupported kind is refused
/// before any operator is read; an operator the descriptor does not afford is
/// refused; an afforded operator is then decided by the kind: integers,
/// strings and enums by their own semantics, booleans and bytes by equality
/// alone (operands of that kind, compared), and any-base-value and value
/// arrays afford no application.
pub proof fn law_apply_operator_splits_by_kind(
    g: Seq<HolonView>,
    updates: Seq<(usize, usize)>,
    holon: HolonReference,
    op: HolonReference,
    lhs: BaseValueView,
    rhs: BaseValueView,
)
    ensures
        spec_resolved_kind(g, updates, holon) matches Ok(ValueKindView::Unsupported(found)) ==> spec_value_apply(
            g,
            updates,
            holon,
            op,
            lhs,
            rhs,
        ) == Err::<bool, ErrorView>(spec_wrong_value_kind(holon, found)),
        spec_resolved_kind(g, updates, holon) matches Ok(kind) ==> !(kind is Unsupported) ==> spec_supports_operator(
            g,
            holon,
            op,
        ) == Ok::<bool, ErrorView>(false) ==> spec_value_apply(g, updates, holon, op, lhs, rhs) == Err::<
            bool,
            ErrorView,
        >(spec_unsupported_operator(g, holon, op)),
        spec_resolved_kind(g, updates, holon) matches Ok(kind) ==> spec_supports_operator(g, holon, op) == Ok::<
            bool,
            ErrorView,
        >(true) ==> {
            &&& kind == ValueKindView::BaseValue(BaseValueKind::Integer) ==> spec_value_apply(
                g,
                updates,
                holon,
                op,
                lhs,
                rhs,
            ) == spec_integer_apply(g, holon, op, lhs, rhs)
            &&& kind == ValueKindView::BaseValue(BaseValueKind::String) ==> spec_value_apply(
                g,
                updates,
                holon,
                op,
                lhs,
                rhs,
            ) == spec_string_apply(g, holon, op, lhs, rhs)
            &&& kind == ValueKindView::BaseValue(BaseValueKind::Enum) ==> spec_value_apply(
                g,
                updates,
                holon,
                op,
                lhs,
                rhs,
            ) == spec_enum_apply(g, holon, op, lhs, rhs)
            &&& (kind == ValueKindView::BaseValue(BaseValueKind::Boolean) || kind == ValueKindView::BaseValue(
                BaseValueKind::Bytes,
            )) ==> (spec_value_apply(g, updates, holon, op, lhs, rhs) matches Ok(b) ==> spec_operator_named(
                g,
                op,
                "EqualsOperator"@,
            ) == Ok::<bool, ErrorView>(true) && lhs.kind() == rhs.kind() && b == (lhs == rhs))
            &&& (kind is AnyBaseValue || kind is ValueArray) ==> spec_value_apply(g, updates, holon, op, lhs, rhs)
                == Err::<bool, ErrorView>(spec_unsupported_operator(g, holon, op))
        },
{
}

} // verus!
