#![allow(dead_code, unused_imports, unused_mut, unused_variables)]
use holons_core::error::HolonError;
use holons_core::graph::{HolonGraph, HolonPhase, HolonReference};
use holons_core::names::{CoreHolonTypeName, CorePropertyTypeName, CoreRelationshipTypeName};
use holons_core::values::{BaseValue, MapBoolean, MapBytes, MapEnumValue, MapInteger, MapString, PropertyName, RelationshipName};

fn build_context() -> HolonGraph {
    HolonGraph::new()
}

fn new_test_holon(g: &mut HolonGraph, key: &str) -> Result<HolonReference, HolonError> {
    Ok(g.new_holon(HolonPhase::Transient, Some(MapString::from_str(key))))
}

fn set_property(
    g: &mut HolonGraph,
    holon: HolonReference,
    name: CorePropertyTypeName,
    value: BaseValue,
) -> Result<(), HolonError> {
    g.with_property_value(holon, name.as_property_name(), value)
}

fn add_related(
    g: &mut HolonGraph,
    holon: HolonReference,
    rel: CoreRelationshipTypeName,
    targets: Vec<HolonReference>,
) -> Result<(), HolonError> {
    g.add_related_holons(holon, rel.as_relationship_name(), targets)
}

fn new_descriptor_holon_in(
    g: &mut HolonGraph,
    phase: HolonPhase,
    key: &str,
    tname: &str,
) -> Result<HolonReference, HolonError> {
    let holon = g.new_holon(phase, Some(MapString::from_str(key)));
    set_property(g, holon, CorePropertyTypeName::TypeName, BaseValue::string(tname))?;
    set_property(g, holon, CorePropertyTypeName::IsAbstractType, BaseValue::boolean(false))?;
    Ok(holon)
}

fn new_descriptor_holon(
    g: &mut HolonGraph,
    key: &str,
    tname: &str,
    _descriptor_family: &str,
) -> Result<HolonReference, HolonError> {
    new_descriptor_holon_in(g, HolonPhase::Transient, key, tname)
}

fn core_holon_type_name(name: CoreHolonTypeName) -> String {
    name.as_holon_name().0
}

fn set_named(g: &mut HolonGraph, holon: HolonReference, name: &str, value: BaseValue) -> Result<(), HolonError> {
    g.with_property_value(holon, PropertyName::from_str(name), value)
}

fn with_descriptor(g: &mut HolonGraph, holon: HolonReference, descriptor: HolonReference) -> Result<(), HolonError> {
    add_related(g, holon, CoreRelationshipTypeName::DescribedBy, vec![descriptor])
}

fn stage_descriptor_holon(g: &mut HolonGraph, key: &str, tname: &str) -> Result<HolonReference, HolonError> {
    new_descriptor_holon_in(g, HolonPhase::Staged, key, tname)
}

trait IntoBaseValue {
    fn into_base(self) -> BaseValue;
}

impl IntoBaseValue for &str {
    fn into_base(self) -> BaseValue {
        BaseValue::string(self)
    }
}

impl IntoBaseValue for String {
    fn into_base(self) -> BaseValue {
        BaseValue::StringValue(MapString(self))
    }
}

impl IntoBaseValue for bool {
    fn into_base(self) -> BaseValue {
        BaseValue::boolean(self)
    }
}

impl IntoBaseValue for i64 {
    fn into_base(self) -> BaseValue {
        BaseValue::integer(self)
    }
}

impl IntoBaseValue for BaseValue {
    fn into_base(self) -> BaseValue {
        self
    }
}

trait IntoPropertyName {
    fn into_property(self) -> PropertyName;
}

impl IntoPropertyName for CorePropertyTypeName {
    fn into_property(self) -> PropertyName {
        self.as_property_name()
    }
}

impl IntoPropertyName for &str {
    fn into_property(self) -> PropertyName {
        PropertyName::from_str(self)
    }
}

impl IntoPropertyName for PropertyName {
    fn into_property(self) -> PropertyName {
        self
    }
}

fn setp<N: IntoPropertyName, V: IntoBaseValue>(
    g: &mut HolonGraph,
    holon: HolonReference,
    name: N,
    value: V,
) -> Result<(), HolonError> {
    g.with_property_value(holon, name.into_property(), value.into_base())
}

fn getp<N: IntoPropertyName>(g: &HolonGraph, holon: HolonReference, name: N) -> Result<Option<BaseValue>, HolonError> {
    g.property_value(holon, &name.into_property())
}

use holons_core::operator_descriptor::OperatorDescriptor;
use holons_core::operator_category::OperatorCategory;
use holons_core::descriptor::Descriptor;

    fn operator_category_value(value: &str) -> BaseValue {
        BaseValue::enum_value(value)
    }

    #[test]
    fn operator_descriptor_wraps_reference_and_exposes_shared_header() -> Result<(), HolonError> {
        let mut g = build_context();
        let holon = (new_descriptor_holon(
            &mut g,
            "operator-descriptor",
            "EqualsOperator",
            "Holon",
        )?);

        let descriptor = OperatorDescriptor::from_holon(holon.clone());

        assert_eq!(descriptor.holon(), holon);
        assert_eq!(descriptor.header().declared_type_name(&g)?, MapString::from_str("EqualsOperator"));

        Ok(())
    }

    #[test]
    fn accessors_return_declared_values() -> Result<(), HolonError> {
        let mut g = build_context();
        let value_type =
            new_descriptor_holon(&mut g, "integer-value-type", "IntegerValueType", "Value")?;
        let mut holon =
            new_descriptor_holon(&mut g, "equals-operator", "EqualsOperator", "Holon")?;
            setp(&mut g, holon, CorePropertyTypeName::DisplayName, "Equals")?;
            setp(&mut g, holon, CorePropertyTypeName::Description, "Returns equality.")?;
            setp(&mut g, holon, CorePropertyTypeName::Arity, 2i64)?;
            setp(&mut g, holon, 
                CorePropertyTypeName::OperatorCategory,
                operator_category_value("OperatorCategory.Equality"),
            )?;
        add_related(&mut g, holon, 
            CoreRelationshipTypeName::AffordedBy,
            vec![value_type],
        )?;

        let descriptor = OperatorDescriptor::from_holon(holon);

        assert_eq!(descriptor.declared_type_name(&g)?, MapString::from_str("EqualsOperator"));
        assert_eq!(descriptor.display_name(&g)?, Some(MapString::from_str("Equals")));
        assert_eq!(descriptor.description(&g)?, Some(MapString::from_str("Returns equality.")));
        assert_eq!(descriptor.arity(&g)?, 2);
        assert_eq!(descriptor.operator_category(&g)?, OperatorCategory::Equality);
        assert_eq!(
            descriptor.afforded_by(&g)?[0].header().declared_type_name(&g)?,
            MapString::from_str("IntegerValueType")
        );

        Ok(())
    }

    #[test]
    fn arity_errors_when_required_field_is_missing() -> Result<(), HolonError> {
        let mut g = build_context();
        let holon = new_descriptor_holon(&mut g, "missing-arity", "MissingArity", "Holon")?;
        let descriptor = OperatorDescriptor::from_holon(holon);

        assert!(matches!(
            descriptor.arity(&g),
            Err(HolonError::EmptyField(field)) if field == "Arity"
        ));

        Ok(())
    }

    #[test]
    fn arity_errors_when_required_field_has_wrong_type() -> Result<(), HolonError> {
        let mut g = build_context();
        let mut holon = new_descriptor_holon(&mut g, "wrong-arity", "WrongArity", "Holon")?;
        setp(&mut g, holon, CorePropertyTypeName::Arity, "not-an-integer")?;
        let descriptor = OperatorDescriptor::from_holon(holon);

        assert!(matches!(
            descriptor.arity(&g),
            Err(HolonError::UnexpectedValueType(_, expected)) if expected == "Integer"
        ));

        Ok(())
    }

    #[test]
    fn arity_errors_when_integer_is_out_of_range() -> Result<(), HolonError> {
        let mut g = build_context();
        let mut holon = new_descriptor_holon(&mut g, "overflow-arity", "OverflowArity", "Holon")?;
        setp(&mut g, holon, CorePropertyTypeName::Arity, 256i64)?;
        let descriptor = OperatorDescriptor::from_holon(holon);

        assert!(matches!(
            descriptor.arity(&g),
            Err(HolonError::IntegerOutOfRange { value, min, max, .. })
                if value == 256 && min == Some(0) && max == Some(255)
        ));

        Ok(())
    }

    #[test]
    fn operator_category_errors_when_required_field_has_wrong_type() -> Result<(), HolonError> {
        let mut g = build_context();
        let mut holon = new_descriptor_holon(
            &mut g,
            "wrong-operator-category",
            "WrongOperatorCategory",
            "Holon",
        )?;
        setp(&mut g, holon, CorePropertyTypeName::OperatorCategory, "Equality")?;
        let descriptor = OperatorDescriptor::from_holon(holon);

        assert!(matches!(
            descriptor.operator_category(&g),
            Err(HolonError::UnexpectedValueType(_, expected)) if expected == "Enum"
        ));

        Ok(())
    }

    #[test]
    fn operator_category_errors_for_unknown_value() -> Result<(), HolonError> {
        let mut g = build_context();
        let mut holon = new_descriptor_holon(
            &mut g,
            "unknown-operator-category",
            "UnknownOperatorCategory",
            "Holon",
        )?;
        setp(&mut g, holon, 
            CorePropertyTypeName::OperatorCategory,
            operator_category_value("OperatorCategory.Matching"),
        )?;
        let descriptor = OperatorDescriptor::from_holon(holon);

        assert!(matches!(
            descriptor.operator_category(&g),
            Err(HolonError::UnknownOperatorCategory { value })
                if value == "OperatorCategory.Matching"
        ));

        Ok(())
    }

    #[test]
    fn operator_category_rejects_bare_variant_name() -> Result<(), HolonError> {
        let mut g = build_context();
        let mut holon = new_descriptor_holon(
            &mut g,
            "bare-operator-category",
            "BareOperatorCategory",
            "Holon",
        )?;
        setp(&mut g, holon, 
            CorePropertyTypeName::OperatorCategory,
            operator_category_value("Equality"),
        )?;
        let descriptor = OperatorDescriptor::from_holon(holon);

        assert!(matches!(
            descriptor.operator_category(&g),
            Err(HolonError::UnknownOperatorCategory { value }) if value == "Equality"
        ));

        Ok(())
    }
