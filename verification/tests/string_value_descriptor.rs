#![allow(dead_code, unused_imports, unused_mut, unused_variables)]
use holons_core::error::HolonError;
use holons_core::graph::{HolonGraph, HolonPhase, HolonReference};
use holons_core::names::{CoreHolonTypeName, CorePropertyTypeName, CoreRelationshipTypeName};
use holons_core::values::{BaseValue, MapBoolean, MapBytes, MapEnumValue, MapInteger, MapString, PropertyName, RelationshipName};

fn build_context() -> HolonGraph {
    HolonGraph::new()
}

fn new_test_holon(g: &mut HolonGraph, key: &str) -> Result<HolonReference, HolonError> {
    Ok(g.new_holon(HolonPhase::Transient, Some(MapString::from_str(key))))
}

fn set_property(
    g: &mut HolonGraph,
    holon: HolonReference,
    name: CorePropertyTypeName,
    value: BaseValue,
) -> Result<(), HolonError> {
    g.with_property_value(holon, name.as_property_name(), value)
}

fn add_related(
    g: &mut HolonGraph,
    holon: HolonReference,
    rel: CoreRelationshipTypeName,
    targets: Vec<HolonReference>,
) -> Result<(), HolonError> {
    g.add_related_holons(holon, rel.as_relationship_name(), targets)
}

fn new_descriptor_holon_in(
    g: &mut HolonGraph,
    phase: HolonPhase,
    key: &str,
    tname: &str,
) -> Result<HolonReference, HolonError> {
    let holon = g.new_holon(phase, Some(MapString::from_str(key)));
    set_property(g, holon, CorePropertyTypeName::TypeName, BaseValue::string(tname))?;
    set_property(g, holon, CorePropertyTypeName::IsAbstractType, BaseValue::boolean(false))?;
    Ok(holon)
}

fn new_descriptor_holon(
    g: &mut HolonGraph,
    key: &str,
    tname: &str,
    _descriptor_family: &str,
) -> Result<HolonReference, HolonError> {
    new_descriptor_holon_in(g, HolonPhase::Transient, key, tname)
}

fn core_holon_type_name(name: CoreHolonTypeName) -> String {
    name.as_holon_name().0
}

fn set_named(g: &mut HolonGraph, holon: HolonReference, name: &str, value: BaseValue) -> Result<(), HolonError> {
    g.with_property_value(holon, PropertyName::from_str(name), value)
}

fn with_descriptor(g: &mut HolonGraph, holon: HolonReference, descriptor: HolonReference) -> Result<(), HolonError> {
    add_related(g, holon, CoreRelationshipTypeName::DescribedBy, vec![descriptor])
}

fn stage_descriptor_holon(g: &mut HolonGraph, key: &str, tname: &str) -> Result<HolonReference, HolonError> {
    new_descriptor_holon_in(g, HolonPhase::Staged, key, tname)
}

trait IntoBaseValue {
    fn into_base(self) -> BaseValue;
}

impl IntoBaseValue for &str {
    fn into_base(self) -> BaseValue {
        BaseValue::string(self)
    }
}

impl IntoBaseValue for String {
    fn into_base(self) -> BaseValue {
        BaseValue::StringValue(MapString(self))
    }
}

impl IntoBaseValue for bool {
    fn into_base(self) -> BaseValue {
        BaseValue::boolean(self)
    }
}

impl IntoBaseValue for i64 {
    fn into_base(self) -> BaseValue {
        BaseValue::integer(self)
    }
}

impl IntoBaseValue for BaseValue {
    fn into_base(self) -> BaseValue {
        self
    }
}

impl IntoBaseValue for MapEnumValue {
    fn into_base(self) -> BaseValue {
        BaseValue::EnumValue(self)
    }
}

impl IntoBaseValue for MapString {
    fn into_base(self) -> BaseValue {
        BaseValue::StringValue(self)
    }
}

impl IntoBaseValue for MapInteger {
    fn into_base(self) -> BaseValue {
        BaseValue::IntegerValue(self)
    }
}

impl IntoBaseValue for MapBoolean {
    fn into_base(self) -> BaseValue {
        BaseValue::BooleanValue(self)
    }
}

impl IntoBaseValue for i32 {
    fn into_base(self) -> BaseValue {
        BaseValue::integer(self as i64)
    }
}

trait IntoPropertyName {
    fn into_property(self) -> PropertyName;
}

impl IntoPropertyName for CorePropertyTypeName {
    fn into_property(self) -> PropertyName {
        self.as_property_name()
    }
}

impl IntoPropertyName for &str {
    fn into_property(self) -> PropertyName {
        PropertyName::from_str(self)
    }
}

impl IntoPropertyName for PropertyName {
    fn into_property(self) -> PropertyName {
        self
    }
}

fn setp<N: IntoPropertyName, V: IntoBaseValue>(
    g: &mut HolonGraph,
    holon: HolonReference,
    name: N,
    value: V,
) -> Result<(), HolonError> {
    g.with_property_value(holon, name.into_property(), value.into_base())
}

fn getp<N: IntoPropertyName>(g: &HolonGraph, holon: HolonReference, name: N) -> Result<Option<BaseValue>, HolonError> {
    g.property_value(holon, &name.into_property())
}

fn new_holon_type_descriptor(g: &mut HolonGraph, key: &str, tname: &str) -> Result<HolonReference, HolonError> {
    let descriptor = new_descriptor_holon(g, key, tname, "Holon")?;
    setp(g, descriptor, CorePropertyTypeName::AllowsAdditionalProperties, false)?;
    setp(g, descriptor, CorePropertyTypeName::AllowsAdditionalRelationships, false)?;
    Ok(descriptor)
}

fn new_property_descriptor_holon(
    g: &mut HolonGraph,
    key: &str,
    tname: &str,
    is_required: bool,
    value_type: HolonReference,
) -> Result<HolonReference, HolonError> {
    let descriptor = new_descriptor_holon(g, key, tname, "Property")?;
    setp(g, descriptor, CorePropertyTypeName::IsValueRequired, is_required)?;
    add_related(g, descriptor, CoreRelationshipTypeName::ValueType, vec![value_type])?;
    Ok(descriptor)
}

fn new_relationship_descriptor_holon(
    g: &mut HolonGraph,
    key: &str,
    tname: &str,
    source_type: HolonReference,
    target_type: HolonReference,
) -> Result<HolonReference, HolonError> {
    let descriptor = new_descriptor_holon(g, key, tname, "Relationship")?;
    setp(g, descriptor, CorePropertyTypeName::IsDefinitional, false)?;
    setp(g, descriptor, CorePropertyTypeName::IsOrdered, false)?;
    setp(g, descriptor, CorePropertyTypeName::AllowsDuplicates, false)?;
    add_related(g, descriptor, CoreRelationshipTypeName::SourceType, vec![source_type])?;
    add_related(g, descriptor, CoreRelationshipTypeName::TargetType, vec![target_type])?;
    Ok(descriptor)
}

fn new_declared_relationship_type_descriptor(g: &mut HolonGraph, key: &str) -> Result<HolonReference, HolonError> {
    new_descriptor_holon(g, key, &core_holon_type_name(CoreHolonTypeName::DeclaredRelationshipType), "Relationship")
}

fn new_declared_relationship_descriptor_holon(
    g: &mut HolonGraph,
    key: &str,
    tname: &str,
    source_type: HolonReference,
    target_type: HolonReference,
) -> Result<HolonReference, HolonError> {
    let descriptor = new_relationship_descriptor_holon(g, key, tname, source_type, target_type)?;
    let declared_type = new_declared_relationship_type_descriptor(g, &format!("{key}-declared-relationship-type"))?;
    let declared_type = g.stage_new_holon(declared_type)?;
    add_related(g, descriptor, CoreRelationshipTypeName::Extends, vec![declared_type])?;
    Ok(descriptor)
}

trait ToText {
    fn text(&self) -> String;
}

impl ToText for MapString {
    fn text(&self) -> String {
        self.0.clone()
    }
}

impl ToText for RelationshipName {
    fn text(&self) -> String {
        self.0 .0.clone()
    }
}

impl ToText for PropertyName {
    fn text(&self) -> String {
        self.0 .0.clone()
    }
}

fn rn(name: &str) -> RelationshipName {
    RelationshipName(MapString(holons_core::names::to_type_case(name)))
}

use holons_core::descriptor::Descriptor;
use holons_core::graph::Holon;
use holons_core::operator_descriptor::OperatorDescriptor;
use holons_core::value_descriptor_subtypes::string_value_descriptor::StringValueDescriptor;

    fn string_value(value: &str) -> BaseValue {
        BaseValue::StringValue(MapString(value.to_string()))
    }

    #[test]
    fn string_value_descriptor_wraps_reference_and_exposes_shared_header() -> Result<(), HolonError> {
        let mut g = build_context();
        let holon = (new_descriptor_holon(
            &mut g,
            "string-value",
            "StringValueType",
            "Value",
        )?);

        let descriptor = StringValueDescriptor::from_holon(holon.clone());

        assert_eq!(descriptor.holon(), holon);
        assert_eq!(descriptor.header().declared_type_name(&g)?, MapString::from_str("StringValueType"));
        Ok(())
    }

    #[test]
    fn is_valid_accepts_string_and_rejects_other_kinds() -> Result<(), HolonError> {
        let mut g = build_context();
        let holon = new_descriptor_holon(&mut g, "string-value", "StringValueType", "Value")?;
        let descriptor = StringValueDescriptor::from_holon(holon);

        assert!(descriptor.is_valid(&string_value("alpha")).is_ok());
        assert!(matches!(
            descriptor.is_valid(&BaseValue::IntegerValue(MapInteger(7))),
            Err(HolonError::ValueKindMismatch { expected, found, .. })
                if expected == "String" && found == "Integer"
        ));
        Ok(())
    }

    #[test]
    fn string_value_descriptor_supported_operators_and_supports_operator_use_affordances() -> Result<(), HolonError> {
        let mut g = build_context();
        let equals = new_descriptor_holon(&mut g, "equals", "EqualsOperator", "Holon")?;
        let less_than = new_descriptor_holon(&mut g, "less-than", "LessThanOperator", "Holon")?;
        let not_afforded = new_descriptor_holon(&mut g, "contains", "ContainsOperator", "Holon")?;
        let mut value = new_descriptor_holon(&mut g, "string-value", "StringValueType", "Value")?;
        add_related(&mut g, value, 
            CoreRelationshipTypeName::AffordsOperator,
            vec![equals, less_than],
        )?;

        let descriptor = StringValueDescriptor::from_holon(value);
        let names = descriptor
            .supported_operators(&g)?
            .into_iter()
            .map(|op| op.declared_type_name(&g).map(|name| name.text()))
            .collect::<Result<Vec<_>, _>>()?;

        assert_eq!(names, vec!["EqualsOperator", "LessThanOperator"]);
        assert!(descriptor.supports_operator(&g, &OperatorDescriptor::from_holon(equals))?);
        assert!(
            !descriptor.supports_operator(&g, &OperatorDescriptor::from_holon(not_afforded))?
        );
        Ok(())
    }

    #[test]
    fn apply_operator_executes_string_comparisons() -> Result<(), HolonError> {
        let mut g = build_context();
        let equals = new_descriptor_holon(&mut g, "equals", "EqualsOperator", "Holon")?;
        let less_than = new_descriptor_holon(&mut g, "less-than", "LessThanOperator", "Holon")?;
        let mut value = new_descriptor_holon(&mut g, "string-value", "StringValueType", "Value")?;
        add_related(&mut g, value, 
            CoreRelationshipTypeName::AffordsOperator,
            vec![equals, less_than],
        )?;

        let equals = OperatorDescriptor::from_holon(equals);
        let less_than = OperatorDescriptor::from_holon(less_than);
        let descriptor = StringValueDescriptor::from_holon(value);

        assert!(descriptor.apply_operator(&g, &equals, &string_value("a"), &string_value("a"))?);
        assert!(!descriptor.apply_operator(&g, &equals, &string_value("a"), &string_value("b"))?);
        assert!(descriptor.apply_operator(&g, &less_than, &string_value("a"), &string_value("b"))?);
        Ok(())
    }

    #[test]
    fn string_value_descriptor_apply_operator_reports_kind_mismatch_and_unsupported_operator() -> Result<(), HolonError> {
        let mut g = build_context();
        let contains = OperatorDescriptor::from_holon(
            new_descriptor_holon(&mut g, "contains", "ContainsOperator", "Holon")?,
        );
        let equals_holon = new_descriptor_holon(&mut g, "equals", "EqualsOperator", "Holon")?;
        let mut value = new_descriptor_holon(&mut g, "string-value", "StringValueType", "Value")?;
        add_related(&mut g, value, 
            CoreRelationshipTypeName::AffordsOperator,
            vec![equals_holon],
        )?;

        let equals = OperatorDescriptor::from_holon(equals_holon);
        let descriptor = StringValueDescriptor::from_holon(value);

        assert!(matches!(
            descriptor.apply_operator(&g, &equals, &BaseValue::IntegerValue(MapInteger(3)), &string_value("3")),
            Err(HolonError::ValueKindMismatch { expected, found, .. })
                if expected == "String" && found == "Integer"
        ));
        assert!(matches!(
            descriptor.apply_operator(&g, &contains, &string_value("a"), &string_value("a")),
            Err(HolonError::UnsupportedOperator { operator, value_type, .. })
                if operator == "ContainsOperator" && value_type == "StringValueType"
        ));
        Ok(())
    }

    #[test]
    fn string_value_descriptor_apply_operator_rejects_known_operator_when_not_afforded() -> Result<(), HolonError> {
        let mut g = build_context();
        let equals = OperatorDescriptor::from_holon(
            new_descriptor_holon(&mut g, "equals", "EqualsOperator", "Holon")?,
        );
        let descriptor = StringValueDescriptor::from_holon(
            new_descriptor_holon(&mut g, "string-value", "StringValueType", "Value")?,
        );

        assert!(matches!(
            descriptor.apply_operator(&g, &equals, &string_value("a"), &string_value("a")),
            Err(HolonError::UnsupportedOperator { operator, value_type, .. })
                if operator == "EqualsOperator" && value_type == "StringValueType"
        ));
        Ok(())
    }
