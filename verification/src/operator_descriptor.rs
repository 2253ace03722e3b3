//! Runtime wrapper for operator descriptors.
use crate::accessor_helpers::{require_integer, spec_require_integer};
use crate::descriptor::Descriptor;
use crate::error::{rview, ErrorView, HolonError};
use crate::graph::{spec_property_value, HolonGraph, HolonReference, HolonView};
use crate::inheritance::{flatten_related_members, spec_flatten};
use crate::names::{CorePropertyTypeName, CoreRelationshipTypeName};
use crate::operator_category::{spec_parse_category, OperatorCategory};
use crate::type_header::{spec_header_optional_string, spec_type_name, TypeHeader};
use crate::value_descriptor::{wrap_all_value_descriptor, ValueDescriptor};
use crate::values::{kind_label, BaseValue, BaseValueView, MapString};
use vstd::prelude::*;
use vstd::string::*;

verus! {

/// The declared operand count, when it fits in `u8`.
pub open spec fn spec_arity(g: Seq<HolonView>, r: HolonReference) -> Result<u8, ErrorView> {
    match spec_require_integer(g, r, CorePropertyTypeName::Arity.spec_name()) {
        Err(e) => Err(e),
        Ok(a) => if 0 <= a <= 255 {
            Ok(a as u8)
        } else {
            Err(
                ErrorView::IntegerOutOfRange {
                    value: a,
                    min: Some(0),
                    max: Some(255),
                    min_inclusive: true,
                    max_inclusive: true,
                    descriptor: r,
                },
            )
        },
    }
}

/// A required enum-valued property, read as its variant name.
pub open spec fn spec_require_enum_string(g: Seq<HolonView>, r: HolonReference, name: Seq<char>) -> Result<
    Seq<char>,
    ErrorView,
> {
    match spec_property_value(g, r, name) {
        Err(e) => Err(e),
        Ok(Some(BaseValueView::EnumValue(s))) => Ok(s),
        Ok(Some(other)) => Err(ErrorView::UnexpectedValueType(kind_label(other.kind()), "Enum"@)),
        Ok(None) => Err(ErrorView::EmptyField(name)),
    }
}

/// The parsed operator category.
pub open spec fn spec_operator_category(g: Seq<HolonView>, r: HolonReference) -> Result<OperatorCategory, ErrorView> {
    match spec_require_enum_string(g, r, CorePropertyTypeName::OperatorCategory.spec_name()) {
        Err(e) => Err(e),
        Ok(s) => spec_parse_category(s),
    }
}

/// Runtime wrapper for operator descriptors.
pub struct OperatorDescriptor {
    holon: HolonReference,
}

impl View for OperatorDescriptor {
    type V = HolonReference;

    closed spec fn view(&self) -> HolonReference {
        self.holon
    }
}

impl DeepView for OperatorDescriptor {
    type V = HolonReference;

    open spec fn deep_view(&self) -> HolonReference {
        self@
    }
}

impl Descriptor for OperatorDescriptor {
    open spec fn spec_holon(&self) -> HolonReference {
        self@
    }

    fn holon(&self) -> (r: HolonReference) {
        self.holon
    }
}

impl From<HolonReference> for OperatorDescriptor {
    fn from(holon: HolonReference) -> (d: Self)
        ensures
            d@ == holon,
    {
        Self { holon }
    }
}

impl vstd::std_specs::convert::FromSpecImpl<HolonReference> for OperatorDescriptor {
    open spec fn obeys_from_spec() -> bool {
        true
    }

    closed spec fn from_spec(v: HolonReference) -> Self {
        OperatorDescriptor { holon: v }
    }
}

/// Wraps each reference of `members`, preserving order.
pub fn wrap_all_operator_descriptor(members: Vec<HolonReference>) -> (r: Vec<OperatorDescriptor>)
    ensures
        r.deep_view() == members@,
{
    let mut out: Vec<OperatorDescriptor> = Vec::new();
    let mut i: usize = 0;
    while i < members.len()
        invariant
            i <= members.len(),
            out.deep_view() == members@.subrange(0, i as int),
        decreases members.len() - i,
    {
        let ghost before = out.deep_view();
        out.push(OperatorDescriptor { holon: members[i] });
        assert(out.deep_view() =~= before.push(members@[i as int]));
        assert(members@.subrange(0, i as int).push(members@[i as int]) =~= members@.subrange(0, i + 1));
        i = i + 1;
    }
    assert(members@.subrange(0, i as int) =~= members@);
    out
}

impl OperatorDescriptor {
    /// Wraps an already-resolved descriptor holon reference.
    pub fn from_holon(holon: HolonReference) -> (d: Self)
        ensures
            d@ == holon,
    {
        Self { holon }
    }

    /// Projects the shared descriptor header view for this descriptor holon.
    pub fn header(&self) -> (h: TypeHeader)
        ensures
            h.holon == self@,
    {
        TypeHeader::new(self.holon)
    }

    /// Returns the operator descriptor's canonical `TypeName`.
    pub fn declared_type_name(&self, g: &HolonGraph) -> (res: Result<MapString, HolonError>)
        ensures
            rview(res) == spec_type_name(g@, self@),
    {
        TypeHeader::new(self.holon).declared_type_name(g)
    }

    /// Returns the operator name: the descriptor's `TypeName`.
    pub fn operator_name(&self, g: &HolonGraph) -> (res: Result<MapString, HolonError>)
        ensures
            rview(res) == spec_type_name(g@, self@),
    {
        TypeHeader::new(self.holon).declared_type_name(g)
    }

    /// Returns the optional human-facing display name.
    pub fn display_name(&self, g: &HolonGraph) -> (res: Result<Option<MapString>, HolonError>)
        ensures
            rview(res) == spec_header_optional_string(g@, self@, CorePropertyTypeName::DisplayName.spec_name()),
    {
        TypeHeader::new(self.holon).display_name(g)
    }

    /// Returns the optional human-facing description.
    pub fn description(&self, g: &HolonGraph) -> (res: Result<Option<MapString>, HolonError>)
        ensures
            rview(res) == spec_header_optional_string(g@, self@, CorePropertyTypeName::Description.spec_name()),
    {
        TypeHeader::new(self.holon).description(g)
    }

    /// Returns the declared operand count for this operator.
    pub fn arity(&self, g: &HolonGraph) -> (res: Result<u8, HolonError>)
        ensures
            rview(res) == spec_arity(g@, self@),
    {
        let a = require_integer(g, self.holon, &CorePropertyTypeName::Arity.as_property_name())?;
        if 0 <= a && a <= 255 {
            Ok(a as u8)
        } else {
            Err(
                HolonError::IntegerOutOfRange {
                    value: a,
                    min: Some(0),
                    max: Some(255),
                    min_inclusive: true,
                    max_inclusive: true,
                    descriptor: self.holon,
                },
            )
        }
    }

    /// Returns the parsed operator category enum value.
    pub fn operator_category(&self, g: &HolonGraph) -> (res: Result<OperatorCategory, HolonError>)
        ensures
            rview(res) == spec_operator_category(g@, self@),
    {
        let name = CorePropertyTypeName::OperatorCategory.as_property_name();
        let value = match g.property_value(self.holon, &name)? {
            Some(BaseValue::EnumValue(e)) => e.0,
            Some(other) => {
                return Err(HolonError::UnexpectedValueType(other.kind().label(), String::from_str("Enum")));
            },
            None => {
                return Err(HolonError::EmptyField(name.0.0));
            },
        };
        OperatorCategory::parse(&value)
    }

    /// Returns value descriptors that declare this operator as afforded.
    pub fn afforded_by(&self, g: &HolonGraph) -> (res: Result<Vec<ValueDescriptor>, HolonError>)
        ensures
            rview(res) == spec_flatten(g@, self@, CoreRelationshipTypeName::AffordedBy.spec_name()),
    {
        let members = flatten_related_members(g, self.holon, CoreRelationshipTypeName::AffordedBy)?;
        Ok(wrap_all_value_descriptor(members))
    }
}

} // verus!
