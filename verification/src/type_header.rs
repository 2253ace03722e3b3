//! The shared header properties carried by every descriptor holon.
use crate::accessor_helpers::{
    require_bool, require_string, spec_require_bool,
    spec_require_string,
};
use crate::error::{rview, ErrorView, HolonError};
use crate::graph::{HolonGraph, HolonReference, HolonView};
use crate::names::CorePropertyTypeName;
use crate::values::{BaseValue, BaseValueView, MapString};
use vstd::prelude::*;
use vstd::string::*;

verus! {

/// The `TypeName` of a descriptor holon.
pub open spec fn spec_type_name(g: Seq<HolonView>, r: HolonReference) -> Result<Seq<char>, ErrorView> {
    spec_require_string(g, r, CorePropertyTypeName::TypeName.spec_name())
}

/// A view over the header properties of one descriptor holon.
#[derive(Clone, Copy, Debug)]
pub struct TypeHeader {
    pub holon: HolonReference,
}

impl TypeHeader {
    /// Projects the header of `holon`.
    pub fn new(holon: HolonReference) -> (h: TypeHeader)
        ensures
            h.holon == holon,
    {
        TypeHeader { holon }
    }

    /// The required `TypeName`.
    pub fn declared_type_name(&self, g: &HolonGraph) -> (res: Result<MapString, HolonError>)
        ensures
            rview(res) == spec_type_name(g@, self.holon),
    {
        require_string(g, self.holon, &CorePropertyTypeName::TypeName.as_property_name())
    }

    /// The optional `TypeNamePlural`.
    pub fn type_name_plural(&self, g: &HolonGraph) -> (res: Result<Option<MapString>, HolonError>)
        ensures
            rview(res) == spec_header_optional_string(
                g@,
                self.holon,
                CorePropertyTypeName::TypeNamePlural.spec_name(),
            ),
    {
        self.optional_header_string(g, CorePropertyTypeName::TypeNamePlural)
    }

    /// The optional `DisplayName`.
    pub fn display_name(&self, g: &HolonGraph) -> (res: Result<Option<MapString>, HolonError>)
        ensures
            rview(res) == spec_header_optional_string(
                g@,
                self.holon,
                CorePropertyTypeName::DisplayName.spec_name(),
            ),
    {
        self.optional_header_string(g, CorePropertyTypeName::DisplayName)
    }

    /// The optional `DisplayNamePlural`.
    pub fn display_name_plural(&self, g: &HolonGraph) -> (res: Result<Option<MapString>, HolonError>)
        ensures
            rview(res) == spec_header_optional_string(
                g@,
                self.holon,
                CorePropertyTypeName::DisplayNamePlural.spec_name(),
            ),
    {
        self.optional_header_string(g, CorePropertyTypeName::DisplayNamePlural)
    }

    /// The optional `Description`.
    pub fn description(&self, g: &HolonGraph) -> (res: Result<Option<MapString>, HolonError>)
        ensures
            rview(res) == spec_header_optional_string(
                g@,
                self.holon,
                CorePropertyTypeName::Description.spec_name(),
            ),
    {
        self.optional_header_string(g, CorePropertyTypeName::Description)
    }

    /// The required boolean `IsAbstractType`.
    pub fn is_abstract_type(&self, g: &HolonGraph) -> (res: Result<bool, HolonError>)
        ensures
            rview(res) == spec_require_bool(
                g@,
                self.holon,
                CorePropertyTypeName::IsAbstractType.spec_name(),
            ),
    {
        require_bool(g, self.holon, &CorePropertyTypeName::IsAbstractType.as_property_name())
    }

    /// The required boolean `DefinesInstanceTypeKind`, read on this holon only:
    /// the flag marks a kind anchor and is never inherited.
    pub fn defines_instance_type_kind(&self, g: &HolonGraph) -> (res: Result<bool, HolonError>)
        ensures
            rview(res) == spec_require_bool(
                g@,
                self.holon,
                CorePropertyTypeName::DefinesInstanceTypeKind.spec_name(),
            ),
    {
        require_bool(g, self.holon, &CorePropertyTypeName::DefinesInstanceTypeKind.as_property_name())
    }

    /// The required `InstanceTypeKind`.
    pub fn instance_type_kind(&self, g: &HolonGraph) -> (res: Result<MapString, HolonError>)
        ensures
            rview(res) == spec_require_string(
                g@,
                self.holon,
                CorePropertyTypeName::InstanceTypeKind.spec_name(),
            ),
    {
        require_string(g, self.holon, &CorePropertyTypeName::InstanceTypeKind.as_property_name())
    }

    fn optional_header_string(&self, g: &HolonGraph, prop: CorePropertyTypeName) -> (res: Result<
        Option<MapString>,
        HolonError,
    >)
        ensures
            rview(res) == spec_header_optional_string(g@, self.holon, prop.spec_name()),
    {
        match g.property_value(self.holon, &prop.as_property_name()) {
            Err(e) => Err(e),
            Ok(Some(BaseValue::StringValue(value))) => Ok(Some(value)),
            Ok(Some(other)) => Err(
                HolonError::UnexpectedValueType(other.kind().label(), String::from_str("String")),
            ),
            Ok(None) => Ok(None),
        }
    }
}

/// An optional header string: only string values are accepted.
pub open spec fn spec_header_optional_string(g: Seq<HolonView>, r: HolonReference, name: Seq<char>) -> Result<
    Option<Seq<char>>,
    ErrorView,
> {
    match crate::graph::spec_property_value(g, r, name) {
        Err(e) => Err(e),
        Ok(Some(BaseValueView::StringValue(s))) => Ok(Some(s)),
        Ok(Some(other)) => Err(
            ErrorView::UnexpectedValueType(crate::values::kind_label(other.kind()), "String"@),
        ),
        Ok(None) => Ok(None),
    }
}

} // verus!
