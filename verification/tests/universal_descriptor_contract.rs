#![allow(dead_code, unused_imports, unused_mut, unused_variables)]
use holons_core::error::HolonError;
use holons_core::graph::{HolonGraph, HolonPhase, HolonReference};
use holons_core::names::{CoreHolonTypeName, CorePropertyTypeName, CoreRelationshipTypeName};
use holons_core::values::{BaseValue, MapBoolean, MapBytes, MapEnumValue, MapInteger, MapString, PropertyName, RelationshipName};

fn build_context() -> HolonGraph {
    HolonGraph::new()
}

fn new_test_holon(g: &mut HolonGraph, key: &str) -> Result<HolonReference, HolonError> {
    Ok(g.new_holon(HolonPhase::Transient, Some(MapString::from_str(key))))
}

fn set_property(
    g: &mut HolonGraph,
    holon: HolonReference,
    name: CorePropertyTypeName,
    value: BaseValue,
) -> Result<(), HolonError> {
    g.with_property_value(holon, name.as_property_name(), value)
}

fn add_related(
    g: &mut HolonGraph,
    holon: HolonReference,
    rel: CoreRelationshipTypeName,
    targets: Vec<HolonReference>,
) -> Result<(), HolonError> {
    g.add_related_holons(holon, rel.as_relationship_name(), targets)
}

fn new_descriptor_holon_in(
    g: &mut HolonGraph,
    phase: HolonPhase,
    key: &str,
    tname: &str,
) -> Result<HolonReference, HolonError> {
    let holon = g.new_holon(phase, Some(MapString::from_str(key)));
    set_property(g, holon, CorePropertyTypeName::TypeName, BaseValue::string(tname))?;
    set_property(g, holon, CorePropertyTypeName::IsAbstractType, BaseValue::boolean(false))?;
    Ok(holon)
}

fn new_descriptor_holon(
    g: &mut HolonGraph,
    key: &str,
    tname: &str,
    _descriptor_family: &str,
) -> Result<HolonReference, HolonError> {
    new_descriptor_holon_in(g, HolonPhase::Transient, key, tname)
}

fn core_holon_type_name(name: CoreHolonTypeName) -> String {
    name.as_holon_name().0
}

fn set_named(g: &mut HolonGraph, holon: HolonReference, name: &str, value: BaseValue) -> Result<(), HolonError> {
    g.with_property_value(holon, PropertyName::from_str(name), value)
}

fn with_descriptor(g: &mut HolonGraph, holon: HolonReference, descriptor: HolonReference) -> Result<(), HolonError> {
    add_related(g, holon, CoreRelationshipTypeName::DescribedBy, vec![descriptor])
}

fn stage_descriptor_holon(g: &mut HolonGraph, key: &str, tname: &str) -> Result<HolonReference, HolonError> {
    new_descriptor_holon_in(g, HolonPhase::Staged, key, tname)
}

trait IntoBaseValue {
    fn into_base(self) -> BaseValue;
}

impl IntoBaseValue for &str {
    fn into_base(self) -> BaseValue {
        BaseValue::string(self)
    }
}

impl IntoBaseValue for String {
    fn into_base(self) -> BaseValue {
        BaseValue::StringValue(MapString(self))
    }
}

impl IntoBaseValue for bool {
    fn into_base(self) -> BaseValue {
        BaseValue::boolean(self)
    }
}

impl IntoBaseValue for i64 {
    fn into_base(self) -> BaseValue {
        BaseValue::integer(self)
    }
}

impl IntoBaseValue for BaseValue {
    fn into_base(self) -> BaseValue {
        self
    }
}

impl IntoBaseValue for MapEnumValue {
    fn into_base(self) -> BaseValue {
        BaseValue::EnumValue(self)
    }
}

impl IntoBaseValue for MapString {
    fn into_base(self) -> BaseValue {
        BaseValue::StringValue(self)
    }
}

impl IntoBaseValue for MapInteger {
    fn into_base(self) -> BaseValue {
        BaseValue::IntegerValue(self)
    }
}

impl IntoBaseValue for MapBoolean {
    fn into_base(self) -> BaseValue {
        BaseValue::BooleanValue(self)
    }
}

impl IntoBaseValue for i32 {
    fn into_base(self) -> BaseValue {
        BaseValue::integer(self as i64)
    }
}

trait IntoPropertyName {
    fn into_property(self) -> PropertyName;
}

impl IntoPropertyName for CorePropertyTypeName {
    fn into_property(self) -> PropertyName {
        self.as_property_name()
    }
}

impl IntoPropertyName for &str {
    fn into_property(self) -> PropertyName {
        PropertyName::from_str(self)
    }
}

impl IntoPropertyName for PropertyName {
    fn into_property(self) -> PropertyName {
        self
    }
}

fn setp<N: IntoPropertyName, V: IntoBaseValue>(
    g: &mut HolonGraph,
    holon: HolonReference,
    name: N,
    value: V,
) -> Result<(), HolonError> {
    g.with_property_value(holon, name.into_property(), value.into_base())
}

fn getp<N: IntoPropertyName>(g: &HolonGraph, holon: HolonReference, name: N) -> Result<Option<BaseValue>, HolonError> {
    g.property_value(holon, &name.into_property())
}

fn new_holon_type_descriptor(g: &mut HolonGraph, key: &str, tname: &str) -> Result<HolonReference, HolonError> {
    let descriptor = new_descriptor_holon(g, key, tname, "Holon")?;
    setp(g, descriptor, CorePropertyTypeName::AllowsAdditionalProperties, false)?;
    setp(g, descriptor, CorePropertyTypeName::AllowsAdditionalRelationships, false)?;
    Ok(descriptor)
}

fn new_property_descriptor_holon(
    g: &mut HolonGraph,
    key: &str,
    tname: &str,
    is_required: bool,
    value_type: HolonReference,
) -> Result<HolonReference, HolonError> {
    let descriptor = new_descriptor_holon(g, key, tname, "Property")?;
    setp(g, descriptor, CorePropertyTypeName::IsValueRequired, is_required)?;
    add_related(g, descriptor, CoreRelationshipTypeName::ValueType, vec![value_type])?;
    Ok(descriptor)
}

fn new_relationship_descriptor_holon(
    g: &mut HolonGraph,
    key: &str,
    tname: &str,
    source_type: HolonReference,
    target_type: HolonReference,
) -> Result<HolonReference, HolonError> {
    let descriptor = new_descriptor_holon(g, key, tname, "Relationship")?;
    setp(g, descriptor, CorePropertyTypeName::IsDefinitional, false)?;
    setp(g, descriptor, CorePropertyTypeName::IsOrdered, false)?;
    setp(g, descriptor, CorePropertyTypeName::AllowsDuplicates, false)?;
    add_related(g, descriptor, CoreRelationshipTypeName::SourceType, vec![source_type])?;
    add_related(g, descriptor, CoreRelationshipTypeName::TargetType, vec![target_type])?;
    Ok(descriptor)
}

fn new_declared_relationship_type_descriptor(g: &mut HolonGraph, key: &str) -> Result<HolonReference, HolonError> {
    new_descriptor_holon(g, key, &core_holon_type_name(CoreHolonTypeName::DeclaredRelationshipType), "Relationship")
}

fn new_declared_relationship_descriptor_holon(
    g: &mut HolonGraph,
    key: &str,
    tname: &str,
    source_type: HolonReference,
    target_type: HolonReference,
) -> Result<HolonReference, HolonError> {
    let descriptor = new_relationship_descriptor_holon(g, key, tname, source_type, target_type)?;
    let declared_type = new_declared_relationship_type_descriptor(g, &format!("{key}-declared-relationship-type"))?;
    let declared_type = g.stage_new_holon(declared_type)?;
    add_related(g, descriptor, CoreRelationshipTypeName::Extends, vec![declared_type])?;
    Ok(descriptor)
}

trait ToText {
    fn text(&self) -> String;
}

impl ToText for MapString {
    fn text(&self) -> String {
        self.0.clone()
    }
}

impl ToText for RelationshipName {
    fn text(&self) -> String {
        self.0 .0.clone()
    }
}

impl ToText for PropertyName {
    fn text(&self) -> String {
        self.0 .0.clone()
    }
}

fn rn(name: &str) -> RelationshipName {
    RelationshipName(MapString(holons_core::names::to_type_case(name)))
}

use holons_core::descriptor::Descriptor;
use holons_core::graph::Holon;
use holons_core::holon_descriptor::HolonDescriptor;
use holons_core::universal_descriptor_contract::UniversalDescriptorContract;

    #[test]
    fn minimum_enforcement_uses_descriptor_identity_and_universal_contract(
    ) -> Result<(), HolonError> {
        let mut g = build_context();
        let root =
            { let t = new_test_holon(&mut g, "TypeDescriptor")?; g.stage_new_holon(t)? };
        let universal_property =
            { let t = new_test_holon(&mut g, "universal-property")?; g.stage_new_holon(t)? };
        let universal_relationship = { let t = new_test_holon(&mut g, "universal-relationship")?; g.stage_new_holon(t)? };
        let mut baseline_parent = new_test_holon(&mut g, "baseline-parent")?;
        add_related(&mut g, baseline_parent, 
            CoreRelationshipTypeName::InstanceProperties,
            vec![universal_property],
        )?;
        add_related(&mut g, baseline_parent, 
            CoreRelationshipTypeName::InstanceRelationships,
            vec![universal_relationship],
        )?;
        let baseline_parent = g.stage_new_holon(baseline_parent)?;
        let mut baseline = new_test_holon(&mut g, "MetaTypeDescriptor.HolonType")?;
        add_related(&mut g, baseline, CoreRelationshipTypeName::Extends, vec![baseline_parent])?;
        g.stage_new_holon(baseline)?;

        let contract = UniversalDescriptorContract::resolve(&g)?;
        let category_member: HolonReference = new_test_holon(&mut g, "category-member")?;
        let mut descriptor = new_descriptor_holon(&mut g, "descriptor", "Example", "Property")?;
        add_related(&mut g, descriptor, CoreRelationshipTypeName::Extends, vec![root])?;
        assert!(contract.enforce_minimum(&g, descriptor, category_member)?);
        setp(&mut g, descriptor, CorePropertyTypeName::IsAbstractType, true)?;
        assert!(!contract.enforce_minimum(&g, descriptor, category_member)?);
        assert!(contract.enforce_minimum(&g, descriptor, universal_property)?);
        assert!(contract.enforce_minimum(&g, descriptor, universal_relationship)?);

        // Neither a familiar label nor an authored Boolean classifies an ordinary holon.
        let mut ordinary = new_descriptor_holon(&mut g, "ordinary", "TypeDescriptor", "Holon")?;
        setp(&mut g, ordinary, CorePropertyTypeName::IsAbstractType, true)?;
        assert!(contract.enforce_minimum(&g, ordinary, category_member)?);
        let ordinary = new_test_holon(&mut g, "ordinary-without-abstractness")?;
        assert!(contract.enforce_minimum(&g, ordinary, category_member)?);
        Ok(())
    }

    #[test]
    fn missing_descriptor_abstractness_is_an_error_not_an_exemption() -> Result<(), HolonError> {
        let mut g = build_context();
        let root: HolonReference = new_test_holon(&mut g, "root")?;
        let baseline = { let t = new_test_holon(&mut g, "baseline")?; HolonDescriptor::from_holon(t) };
        let contract =
            UniversalDescriptorContract::from_resolved(&g, &baseline, root.clone())?;
        let mut descriptor = new_test_holon(&mut g, "incomplete-descriptor")?;
        add_related(&mut g, descriptor, CoreRelationshipTypeName::Extends, vec![root])?;
        let member: HolonReference = new_test_holon(&mut g, "member")?;
        assert!(contract.enforce_minimum(&g, descriptor, member).is_err());
        let foreign = {
            // A holon of another graph, at a slot this graph does not have.
            let mut other = build_context();
            for i in 0..32 {
                new_test_holon(&mut other, &format!("filler-{i}"))?;
            }
            new_test_holon(&mut other, "foreign")?
        };
        assert!(matches!(
            contract.enforce_minimum(&g, foreign, member),
            Err(HolonError::InvalidHolonReference(..))
        ));
        Ok(())
    }
