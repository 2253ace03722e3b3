//! Structural wrapper for value-array descriptors.
use crate::descriptor::Descriptor;
use crate::error::{rview, ErrorView, HolonError};
use crate::graph::{HolonGraph, HolonReference};
use crate::operator_descriptor::OperatorDescriptor;
use crate::type_header::TypeHeader;
use crate::value_descriptor_subtypes::helpers::{spec_supported_operators, spec_supports_operator, spec_unsupported_operator, supported_operators, supports_operator, unsupported_operator};
use crate::values::BaseValue;
use vstd::prelude::*;
use vstd::string::*;
use crate::accessor_helpers::{require_single_related, spec_require_single_related};
use crate::names::CoreRelationshipTypeName;
use crate::value_descriptor::ValueDescriptor;

verus! {

/// Structural wrapper for value-array descriptors.
///
/// Array validation and operator execution are deferred: the wrapper exposes
/// the element value type and inherited affordances only.
pub struct ValueArrayDescriptor {
    holon: HolonReference,
}

impl View for ValueArrayDescriptor {
    type V = HolonReference;

    closed spec fn view(&self) -> HolonReference {
        self.holon
    }
}

impl DeepView for ValueArrayDescriptor {
    type V = HolonReference;

    open spec fn deep_view(&self) -> HolonReference {
        self@
    }
}

impl Descriptor for ValueArrayDescriptor {
    open spec fn spec_holon(&self) -> HolonReference {
        self@
    }

    fn holon(&self) -> (r: HolonReference) {
        self.holon
    }
}

impl From<HolonReference> for ValueArrayDescriptor {
    fn from(holon: HolonReference) -> (d: Self)
        ensures
            d@ == holon,
    {
        Self { holon }
    }
}

impl vstd::std_specs::convert::FromSpecImpl<HolonReference> for ValueArrayDescriptor {
    open spec fn obeys_from_spec() -> bool {
        true
    }

    closed spec fn from_spec(v: HolonReference) -> Self {
        ValueArrayDescriptor { holon: v }
    }
}

impl ValueArrayDescriptor {
    /// Wraps an already-resolved descriptor holon reference.
    pub fn from_holon(holon: HolonReference) -> (d: Self)
        ensures
            d@ == holon,
    {
        Self { holon }
    }

    /// Projects the shared descriptor header view for this descriptor holon.
    pub fn header(&self) -> (h: TypeHeader)
        ensures
            h.holon == self@,
    {
        TypeHeader::new(self.holon)
    }

    /// Returns the required element value descriptor.
    pub fn element_value_type(&self, g: &HolonGraph) -> (res: Result<ValueDescriptor, HolonError>)
        ensures
            rview(res) == spec_require_single_related(g@, self@, CoreRelationshipTypeName::ElementValueType),
    {
        let e = require_single_related(g, self.holon, CoreRelationshipTypeName::ElementValueType)?;
        Ok(ValueDescriptor::from_holon(e))
    }

    /// Returns operators afforded by this value descriptor across inheritance.
    pub fn supported_operators(&self, g: &HolonGraph) -> (res: Result<Vec<OperatorDescriptor>, HolonError>)
        ensures
            rview(res) == spec_supported_operators(g@, self@),
    {
        supported_operators(g, self.holon)
    }

    /// Returns whether this descriptor affords the supplied operator.
    pub fn supports_operator(&self, g: &HolonGraph, op: &OperatorDescriptor) -> (res: Result<bool, HolonError>)
        ensures
            rview(res) == spec_supports_operator(g@, self@, op@),
    {
        supports_operator(g, self.holon, op)
    }

    /// Array operator execution is not available: every operator is unsupported.
    pub fn apply_operator(&self, g: &HolonGraph, op: &OperatorDescriptor, lhs: &BaseValue, rhs: &BaseValue) -> (res:
        Result<bool, HolonError>)
        ensures
            rview(res) == Err::<bool, ErrorView>(spec_unsupported_operator(g@, self@, op@)),
    {
        unsupported_operator(g, self.holon, op)
    }
}

} // verus!
