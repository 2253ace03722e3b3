#![allow(dead_code, unused_imports, unused_mut, unused_variables)]
use holons_core::error::HolonError;
use holons_core::graph::{HolonGraph, HolonPhase, HolonReference};
use holons_core::names::{CoreHolonTypeName, CorePropertyTypeName, CoreRelationshipTypeName};
use holons_core::values::{BaseValue, MapBoolean, MapBytes, MapEnumValue, MapInteger, MapString, PropertyName, RelationshipName};

fn build_context() -> HolonGraph {
    HolonGraph::new()
}

fn new_test_holon(g: &mut HolonGraph, key: &str) -> Result<HolonReference, HolonError> {
    Ok(g.new_holon(HolonPhase::Transient, Some(MapString::from_str(key))))
}

fn set_property(
    g: &mut HolonGraph,
    holon: HolonReference,
    name: CorePropertyTypeName,
    value: BaseValue,
) -> Result<(), HolonError> {
    g.with_property_value(holon, name.as_property_name(), value)
}

fn add_related(
    g: &mut HolonGraph,
    holon: HolonReference,
    rel: CoreRelationshipTypeName,
    targets: Vec<HolonReference>,
) -> Result<(), HolonError> {
    g.add_related_holons(holon, rel.as_relationship_name(), targets)
}

fn new_descriptor_holon_in(
    g: &mut HolonGraph,
    phase: HolonPhase,
    key: &str,
    tname: &str,
) -> Result<HolonReference, HolonError> {
    let holon = g.new_holon(phase, Some(MapString::from_str(key)));
    set_property(g, holon, CorePropertyTypeName::TypeName, BaseValue::string(tname))?;
    set_property(g, holon, CorePropertyTypeName::IsAbstractType, BaseValue::boolean(false))?;
    Ok(holon)
}

fn new_descriptor_holon(
    g: &mut HolonGraph,
    key: &str,
    tname: &str,
    _descriptor_family: &str,
) -> Result<HolonReference, HolonError> {
    new_descriptor_holon_in(g, HolonPhase::Transient, key, tname)
}

fn core_holon_type_name(name: CoreHolonTypeName) -> String {
    name.as_holon_name().0
}

fn set_named(g: &mut HolonGraph, holon: HolonReference, name: &str, value: BaseValue) -> Result<(), HolonError> {
    g.with_property_value(holon, PropertyName::from_str(name), value)
}

fn with_descriptor(g: &mut HolonGraph, holon: HolonReference, descriptor: HolonReference) -> Result<(), HolonError> {
    add_related(g, holon, CoreRelationshipTypeName::DescribedBy, vec![descriptor])
}

fn stage_descriptor_holon(g: &mut HolonGraph, key: &str, tname: &str) -> Result<HolonReference, HolonError> {
    new_descriptor_holon_in(g, HolonPhase::Staged, key, tname)
}

trait IntoBaseValue {
    fn into_base(self) -> BaseValue;
}

impl IntoBaseValue for &str {
    fn into_base(self) -> BaseValue {
        BaseValue::string(self)
    }
}

impl IntoBaseValue for String {
    fn into_base(self) -> BaseValue {
        BaseValue::StringValue(MapString(self))
    }
}

impl IntoBaseValue for bool {
    fn into_base(self) -> BaseValue {
        BaseValue::boolean(self)
    }
}

impl IntoBaseValue for i64 {
    fn into_base(self) -> BaseValue {
        BaseValue::integer(self)
    }
}

impl IntoBaseValue for BaseValue {
    fn into_base(self) -> BaseValue {
        self
    }
}

impl IntoBaseValue for MapEnumValue {
    fn into_base(self) -> BaseValue {
        BaseValue::EnumValue(self)
    }
}

impl IntoBaseValue for MapString {
    fn into_base(self) -> BaseValue {
        BaseValue::StringValue(self)
    }
}

impl IntoBaseValue for MapInteger {
    fn into_base(self) -> BaseValue {
        BaseValue::IntegerValue(self)
    }
}

impl IntoBaseValue for MapBoolean {
    fn into_base(self) -> BaseValue {
        BaseValue::BooleanValue(self)
    }
}

impl IntoBaseValue for i32 {
    fn into_base(self) -> BaseValue {
        BaseValue::integer(self as i64)
    }
}

trait IntoPropertyName {
    fn into_property(self) -> PropertyName;
}

impl IntoPropertyName for CorePropertyTypeName {
    fn into_property(self) -> PropertyName {
        self.as_property_name()
    }
}

impl IntoPropertyName for &str {
    fn into_property(self) -> PropertyName {
        PropertyName::from_str(self)
    }
}

impl IntoPropertyName for PropertyName {
    fn into_property(self) -> PropertyName {
        self
    }
}

fn setp<N: IntoPropertyName, V: IntoBaseValue>(
    g: &mut HolonGraph,
    holon: HolonReference,
    name: N,
    value: V,
) -> Result<(), HolonError> {
    g.with_property_value(holon, name.into_property(), value.into_base())
}

fn getp<N: IntoPropertyName>(g: &HolonGraph, holon: HolonReference, name: N) -> Result<Option<BaseValue>, HolonError> {
    g.property_value(holon, &name.into_property())
}

fn new_holon_type_descriptor(g: &mut HolonGraph, key: &str, tname: &str) -> Result<HolonReference, HolonError> {
    let descriptor = new_descriptor_holon(g, key, tname, "Holon")?;
    setp(g, descriptor, CorePropertyTypeName::AllowsAdditionalProperties, false)?;
    setp(g, descriptor, CorePropertyTypeName::AllowsAdditionalRelationships, false)?;
    Ok(descriptor)
}

fn new_property_descriptor_holon(
    g: &mut HolonGraph,
    key: &str,
    tname: &str,
    is_required: bool,
    value_type: HolonReference,
) -> Result<HolonReference, HolonError> {
    let descriptor = new_descriptor_holon(g, key, tname, "Property")?;
    setp(g, descriptor, CorePropertyTypeName::IsValueRequired, is_required)?;
    add_related(g, descriptor, CoreRelationshipTypeName::ValueType, vec![value_type])?;
    Ok(descriptor)
}

fn new_relationship_descriptor_holon(
    g: &mut HolonGraph,
    key: &str,
    tname: &str,
    source_type: HolonReference,
    target_type: HolonReference,
) -> Result<HolonReference, HolonError> {
    let descriptor = new_descriptor_holon(g, key, tname, "Relationship")?;
    setp(g, descriptor, CorePropertyTypeName::IsDefinitional, false)?;
    setp(g, descriptor, CorePropertyTypeName::IsOrdered, false)?;
    setp(g, descriptor, CorePropertyTypeName::AllowsDuplicates, false)?;
    add_related(g, descriptor, CoreRelationshipTypeName::SourceType, vec![source_type])?;
    add_related(g, descriptor, CoreRelationshipTypeName::TargetType, vec![target_type])?;
    Ok(descriptor)
}

fn new_declared_relationship_type_descriptor(g: &mut HolonGraph, key: &str) -> Result<HolonReference, HolonError> {
    new_descriptor_holon(g, key, &core_holon_type_name(CoreHolonTypeName::DeclaredRelationshipType), "Relationship")
}

fn new_declared_relationship_descriptor_holon(
    g: &mut HolonGraph,
    key: &str,
    tname: &str,
    source_type: HolonReference,
    target_type: HolonReference,
) -> Result<HolonReference, HolonError> {
    let descriptor = new_relationship_descriptor_holon(g, key, tname, source_type, target_type)?;
    let declared_type = new_declared_relationship_type_descriptor(g, &format!("{key}-declared-relationship-type"))?;
    let declared_type = g.stage_new_holon(declared_type)?;
    add_related(g, descriptor, CoreRelationshipTypeName::Extends, vec![declared_type])?;
    Ok(descriptor)
}

trait ToText {
    fn text(&self) -> String;
}

impl ToText for MapString {
    fn text(&self) -> String {
        self.0.clone()
    }
}

impl ToText for RelationshipName {
    fn text(&self) -> String {
        self.0 .0.clone()
    }
}

impl ToText for PropertyName {
    fn text(&self) -> String {
        self.0 .0.clone()
    }
}

fn rn(name: &str) -> RelationshipName {
    RelationshipName(MapString(holons_core::names::to_type_case(name)))
}

use holons_core::descriptor::Descriptor;
use holons_core::inheritance::{ancestors, equals_or_extends, flatten_related_members};
use holons_core::names::to_type_case;
use holons_core::property_descriptor::PropertyDescriptor;
use holons_core::relationship_descriptor::{EffectiveCardinality, RelationshipDescriptor};
use holons_core::holon_descriptor::HolonDescriptor;
use holons_core::value_descriptor_subtypes::string_value_descriptor::string_less;

#[test]
fn property_read_gives_back_the_last_write_and_leaves_others() -> Result<(), HolonError> {
    let mut g = build_context();
    let a = new_test_holon(&mut g, "a")?;
    let b = new_test_holon(&mut g, "b")?;
    setp(&mut g, a, "Title", "first")?;
    setp(&mut g, b, "Title", "other")?;
    setp(&mut g, a, "Count", 3i64)?;
    setp(&mut g, a, "Title", "second")?;
    assert_eq!(getp(&g, a, "Title")?, Some(BaseValue::string("second")));
    assert_eq!(getp(&g, a, "Count")?, Some(BaseValue::integer(3)));
    assert_eq!(getp(&g, b, "Title")?, Some(BaseValue::string("other")));
    assert_eq!(getp(&g, b, "Count")?, None);
    Ok(())
}

#[test]
fn added_related_holons_follow_the_existing_members() -> Result<(), HolonError> {
    let mut g = build_context();
    let owner = new_test_holon(&mut g, "owner")?;
    let x = new_test_holon(&mut g, "x")?;
    let y = new_test_holon(&mut g, "y")?;
    let z = new_test_holon(&mut g, "z")?;
    add_related(&mut g, owner, CoreRelationshipTypeName::Components, vec![x])?;
    add_related(&mut g, owner, CoreRelationshipTypeName::Rules, vec![z])?;
    add_related(&mut g, owner, CoreRelationshipTypeName::Components, vec![y, x])?;
    let components = g.related_holons(owner, &CoreRelationshipTypeName::Components.as_relationship_name())?;
    assert_eq!(components, vec![x, y, x]);
    let rules = g.related_holons(owner, &CoreRelationshipTypeName::Rules.as_relationship_name())?;
    assert_eq!(rules, vec![z]);
    Ok(())
}

#[test]
fn a_staged_copy_reads_like_its_source() -> Result<(), HolonError> {
    let mut g = build_context();
    let source = new_test_holon(&mut g, "source")?;
    let target = new_test_holon(&mut g, "target")?;
    setp(&mut g, source, "Title", "kept")?;
    add_related(&mut g, source, CoreRelationshipTypeName::DependsOn, vec![target])?;
    let staged = g.stage_new_holon(source)?;
    assert!(matches!(staged, HolonReference::Staged(_)));
    assert_eq!(getp(&g, staged, "Title")?, Some(BaseValue::string("kept")));
    let depends = g.related_holons(staged, &CoreRelationshipTypeName::DependsOn.as_relationship_name())?;
    assert_eq!(depends, vec![target]);
    Ok(())
}

#[test]
fn every_holon_equals_or_extends_itself_and_its_lineage_follows_parents() -> Result<(), HolonError> {
    let mut g = build_context();
    let root = new_test_holon(&mut g, "root")?;
    let middle = new_test_holon(&mut g, "middle")?;
    let leaf = new_test_holon(&mut g, "leaf")?;
    add_related(&mut g, middle, CoreRelationshipTypeName::Extends, vec![root])?;
    add_related(&mut g, leaf, CoreRelationshipTypeName::Extends, vec![middle])?;
    for holon in [root, middle, leaf] {
        assert!(equals_or_extends(&g, holon, holon)?);
    }
    assert_eq!(ancestors(&g, leaf)?, vec![leaf, middle, root]);
    assert!(equals_or_extends(&g, leaf, root)?);
    assert!(!equals_or_extends(&g, root, leaf)?);
    Ok(())
}

#[test]
fn flattened_members_put_the_descriptors_own_members_first() -> Result<(), HolonError> {
    let mut g = build_context();
    let parent = new_test_holon(&mut g, "parent")?;
    let child = new_test_holon(&mut g, "child")?;
    let p1 = new_test_holon(&mut g, "p1")?;
    let c1 = new_test_holon(&mut g, "c1")?;
    let c2 = new_test_holon(&mut g, "c2")?;
    add_related(&mut g, parent, CoreRelationshipTypeName::InstanceProperties, vec![p1])?;
    add_related(&mut g, child, CoreRelationshipTypeName::Extends, vec![parent])?;
    add_related(&mut g, child, CoreRelationshipTypeName::InstanceProperties, vec![c2, c1])?;
    let members = flatten_related_members(&g, child, CoreRelationshipTypeName::InstanceProperties)?;
    assert_eq!(members, vec![c2, c1, p1]);
    Ok(())
}

#[test]
fn type_case_spelling_is_idempotent() {
    for name in ["display_name", "DisplayName", "_leading", "a__b", "query", "x_y_z", "", "Already_Mixed"] {
        let once = to_type_case(name);
        assert_eq!(to_type_case(&once), once);
    }
    assert_eq!(to_type_case("get_staged_count"), "GetStagedCount");
    assert_eq!(to_type_case("a__b"), "AB");
    assert_eq!(to_type_case("_leading"), "Leading");
}

#[test]
fn a_found_declaration_is_the_only_one_so_named() -> Result<(), HolonError> {
    let mut g = build_context();
    let owner = new_descriptor_holon(&mut g, "owner", "Owner", "Holon")?;
    let title = new_descriptor_holon(&mut g, "title", "Title", "Property")?;
    let subtitle = new_descriptor_holon(&mut g, "subtitle", "Subtitle", "Property")?;
    add_related(&mut g, owner, CoreRelationshipTypeName::InstanceProperties, vec![title, subtitle])?;
    let descriptor = HolonDescriptor::from_holon(owner);
    assert_eq!(descriptor.get_property_by_name(&g, "subtitle")?.holon(), subtitle);
    let again = new_descriptor_holon(&mut g, "title-again", "Title", "Property")?;
    add_related(&mut g, owner, CoreRelationshipTypeName::InstanceProperties, vec![again])?;
    // Once a name is declared twice no lookup succeeds, not even of another name.
    assert!(matches!(
        descriptor.get_property_by_name(&g, "subtitle"),
        Err(HolonError::DuplicateInheritedDeclaration { name, .. }) if name == "Title"
    ));
    Ok(())
}

#[test]
fn effective_cardinality_lies_within_every_constraint() -> Result<(), HolonError> {
    let mut g = build_context();
    let kind = new_descriptor_holon(&mut g, "cardinality", "CardinalityConstraint", "Constraint")?;
    let relationship = new_test_holon(&mut g, "relationship")?;
    let mut constraints = Vec::new();
    for (minimum, maximum) in [(1, Some(9)), (3, None), (0, Some(4))] {
        let c = new_test_holon(&mut g, "constraint")?;
        add_related(&mut g, c, CoreRelationshipTypeName::DescribedBy, vec![kind])?;
        setp(&mut g, c, "Minimum", minimum as i64)?;
        if let Some(maximum) = maximum {
            setp(&mut g, c, "Maximum", maximum as i64)?;
        }
        constraints.push(c);
    }
    add_related(&mut g, relationship, CoreRelationshipTypeName::Constraints, constraints)?;
    assert_eq!(
        RelationshipDescriptor::from_holon(relationship).effective_cardinality(&g)?,
        EffectiveCardinality { minimum: 3, maximum: Some(4) }
    );
    Ok(())
}

#[test]
fn populating_a_default_twice_is_populating_it_once() -> Result<(), HolonError> {
    let mut g = build_context();
    let property = new_descriptor_holon(&mut g, "rating", "Rating", "Property")?;
    setp(&mut g, property, CorePropertyTypeName::IsValueRequired, true)?;
    setp(&mut g, property, CorePropertyTypeName::DefaultValue, 5i64)?;
    let target = new_test_holon(&mut g, "book")?;
    let descriptor = PropertyDescriptor::from_holon(property);
    descriptor.populate_default_if_required_and_absent(&mut g, target)?;
    assert_eq!(getp(&g, target, "Rating")?, Some(BaseValue::integer(5)));
    setp(&mut g, property, CorePropertyTypeName::DefaultValue, 7i64)?;
    descriptor.populate_default_if_required_and_absent(&mut g, target)?;
    assert_eq!(getp(&g, target, "Rating")?, Some(BaseValue::integer(5)));
    Ok(())
}

#[test]
fn string_less_than_is_a_strict_total_order() {
    let words = ["", "a", "ab", "abc", "b", "ba", "Z", "é"];
    for x in words {
        assert!(!string_less(x, x));
        for y in words {
            if string_less(x, y) {
                assert!(!string_less(y, x));
            }
            if x != y {
                assert!(string_less(x, y) || string_less(y, x));
            }
            for z in words {
                if string_less(x, y) && string_less(y, z) {
                    assert!(string_less(x, z));
                }
            }
        }
    }
    assert!(string_less("a", "ab"));
    assert!(string_less("Z", "a"));
    assert!(!string_less("b", "abc"));
}

use holons_core::assessment_reader::{
    ProspectiveSelection,
    AssessmentReadError, CurrentDescriptorReader, DescriptorReader, ProspectiveDescriptorReader,
};
use holons_core::constraint_applicability::{constraint_applies_to, constraint_applies_to_with_reader};
use holons_core::contract_contributions::ContractContributions;
use holons_core::constraint_contributions::ConstraintContributions;
use holons_core::inheritance::EffectiveRelationshipMember;
use holons_core::inheritance::walk_extends_chain;
use holons_core::schema_ownership::{
    resolve_schema_ownership, resolve_schema_ownership_with_reader, SchemaOwnershipKind, SchemaOwnershipResolution,
};
use holons_core::selected_lineage::{equals_or_extends_with_reader, local_targets_with_reader, walk_extends_chain_with_reader};
use holons_core::structural_diagnosis::{
    local_targets, DescribingTypeResolution, ExtendsLineageDiagnosis, StructuralPrerequisites,
};
use holons_core::inheritance::ExtendsIter;
use holons_core::kind_semantics::DescriptorKindRoots;

/// A three-step lineage `child -> parent -> root`, the root also listing a property.
fn small_lineage(g: &mut HolonGraph) -> Result<(HolonReference, HolonReference, HolonReference), HolonError> {
    let root = new_test_holon(g, "root")?;
    let parent = new_test_holon(g, "parent")?;
    let child = new_test_holon(g, "child")?;
    add_related(g, parent, CoreRelationshipTypeName::Extends, vec![root])?;
    add_related(g, child, CoreRelationshipTypeName::Extends, vec![parent])?;
    add_related(g, root, CoreRelationshipTypeName::InstanceProperties, vec![parent])?;
    Ok((child, parent, root))
}

#[test]
fn the_current_reader_reads_exactly_the_ordinary_graph() -> Result<(), HolonError> {
    let mut g = build_context();
    let (child, parent, root) = small_lineage(&mut g)?;
    let reader = CurrentDescriptorReader;
    let ordinary = walk_extends_chain(&g, child);
    let selected = walk_extends_chain_with_reader(&g, child, &reader);
    assert_eq!(ordinary.members, selected.members);
    assert_eq!(selected.members, vec![child, parent, root]);
    assert!(selected.error.is_none());
    assert_eq!(
        local_targets_with_reader(&g, child, CoreRelationshipTypeName::Extends, &reader).unwrap(),
        local_targets(&g, child, CoreRelationshipTypeName::Extends)?
    );
    assert_eq!(equals_or_extends_with_reader(&g, child, root, &reader).unwrap(), equals_or_extends(&g, child, root)?);
    let plain = ExtendsLineageDiagnosis::assess(&g, child, root)?;
    let read = ExtendsLineageDiagnosis::assess_with_reader(&g, child, root, &reader).unwrap();
    assert_eq!(plain.lineage, read.lineage);
    assert_eq!(plain.defects.len(), read.defects.len());
    let plain = ContractContributions::resolve(&g, child)?;
    let read = ContractContributions::resolve_with_reader(&g, child, &reader).unwrap();
    assert_eq!(plain.properties, read.properties);
    assert_eq!(read.properties.len(), 1);
    let constraint_type = new_test_holon(&mut g, "constraint-type")?;
    add_related(&mut g, constraint_type, CoreRelationshipTypeName::ApplicableToDescriptorTypes, vec![parent])?;
    assert!(constraint_applies_to(&g, constraint_type, child)?);
    assert!(constraint_applies_to_with_reader(&g, constraint_type, child, &reader).unwrap());
    assert!(!constraint_applies_to(&g, constraint_type, root)?);
    assert!(!constraint_applies_to_with_reader(&g, constraint_type, root, &reader).unwrap());
    assert!(matches!(
        resolve_schema_ownership(&g, child, SchemaOwnershipKind::Component, root)?,
        SchemaOwnershipResolution::Missing
    ));
    assert!(matches!(
        resolve_schema_ownership_with_reader(&g, child, SchemaOwnershipKind::Component, root, &reader).unwrap(),
        SchemaOwnershipResolution::Missing
    ));
    // An ordinary read failure is reported as an operational failure.
    let missing = HolonReference::Smart(40);
    assert!(matches!(
        local_targets_with_reader(&g, missing, CoreRelationshipTypeName::Extends, &reader),
        Err(AssessmentReadError::Operational(HolonError::InvalidHolonReference(_)))
    ));
    assert!(matches!(
        local_targets(&g, missing, CoreRelationshipTypeName::Extends),
        Err(HolonError::InvalidHolonReference(_))
    ));
    Ok(())
}

#[test]
fn a_prospective_selection_selects_itself_again() -> Result<(), HolonError> {
    let mut g = build_context();
    let saved = g.new_holon(HolonPhase::Saved, Some(MapString::from_str("saved")));
    let other = g.new_holon(HolonPhase::Saved, Some(MapString::from_str("other")));
    let snapshot = new_test_holon(&mut g, "saved")?;
    let update = g.stage_update_snapshot(saved, snapshot)?;
    let reader = ProspectiveDescriptorReader::new(&g, &vec![update])?;
    for reference in [saved, update, other] {
        let selected = reader.select(&g, reference).unwrap();
        assert_eq!(reader.select(&g, selected).unwrap(), selected);
    }
    assert_eq!(reader.select(&g, saved).unwrap(), update);
    assert_eq!(reader.select(&g, other).unwrap(), other);
    Ok(())
}

#[test]
fn reaching_along_extends_is_transitive() -> Result<(), HolonError> {
    let mut g = build_context();
    let (child, parent, root) = small_lineage(&mut g)?;
    assert!(equals_or_extends(&g, child, parent)?);
    assert!(equals_or_extends(&g, parent, root)?);
    assert!(equals_or_extends(&g, child, root)?);
    assert!(!equals_or_extends(&g, root, child)?);
    Ok(())
}

#[test]
fn setting_a_name_does_not_change_a_lineage() -> Result<(), HolonError> {
    let mut g = build_context();
    let (child, parent, root) = small_lineage(&mut g)?;
    let before = walk_extends_chain(&g, child).members;
    set_property(&mut g, parent, CorePropertyTypeName::TypeName, BaseValue::string("Renamed"))?;
    set_property(&mut g, root, CorePropertyTypeName::TypeName, BaseValue::string("Root"))?;
    assert_eq!(walk_extends_chain(&g, child).members, before);
    assert!(equals_or_extends(&g, child, root)?);
    Ok(())
}

#[test]
fn kinds_read_through_the_current_reader_are_the_ordinary_kinds() -> Result<(), HolonError> {
    let mut g = build_context();
    let (child, parent, root) = small_lineage(&mut g)?;
    set_property(&mut g, child, CorePropertyTypeName::DefinesInstanceTypeKind, BaseValue::boolean(false))?;
    set_property(&mut g, parent, CorePropertyTypeName::DefinesInstanceTypeKind, BaseValue::boolean(true))?;
    let roots = DescriptorKindRoots::from_resolved(&g, root, root, root, root)?;
    let diagnosis = ExtendsLineageDiagnosis::assess(&g, child, root)?;
    let lineage = diagnosis.valid_lineage().expect("a valid lineage");
    let plain = roots.instance_type_kind(&g, &lineage)?;
    let selected = roots.with_reader(CurrentDescriptorReader).instance_type_kind(&g, &lineage).unwrap();
    assert_eq!(plain, Some(parent));
    assert_eq!(selected, plain);
    Ok(())
}

#[test]
fn repeating_a_candidate_does_not_make_it_compete() -> Result<(), HolonError> {
    let mut g = build_context();
    let saved = g.new_holon(HolonPhase::Saved, Some(MapString::from_str("saved")));
    let snapshot = new_test_holon(&mut g, "saved")?;
    let update = g.stage_update_snapshot(saved, snapshot)?;
    let once = ProspectiveDescriptorReader::new(&g, &vec![update])?;
    let twice = ProspectiveDescriptorReader::new(&g, &vec![update, update])?;
    assert!(matches!(once.selection(&g, saved)?, ProspectiveSelection::Replaced(r) if r == update));
    assert!(matches!(twice.selection(&g, saved)?, ProspectiveSelection::Replaced(r) if r == update));
    assert_eq!(twice.contested_groups().len(), 0);
    Ok(())
}

#[test]
fn an_obligation_is_missing_exactly_when_inherited_and_not_retained() {
    let a = HolonReference::Staged(1);
    let b = HolonReference::Staged(2);
    let on = HolonReference::Staged(3);
    let kept = EffectiveRelationshipMember { member: a, declared_on: on };
    let lost = EffectiveRelationshipMember { member: b, declared_on: on };
    let local = EffectiveRelationshipMember { member: b, declared_on: a };
    let contributions = ConstraintContributions { parent: Some(on), inherited: vec![kept, lost], effective: vec![kept, local] };
    assert_eq!(contributions.missing_inherited(), vec![lost]);
}

#[test]
fn a_diagnosis_without_defects_exposes_its_lineage_even_when_empty() {
    let empty = ExtendsLineageDiagnosis { lineage: vec![], defects: vec![] };
    let valid = empty.valid_lineage().expect("no defects");
    assert!(valid.members().is_empty());
    let one = ExtendsLineageDiagnosis { lineage: vec![HolonReference::Staged(0)], defects: vec![] };
    assert_eq!(one.valid_lineage().unwrap().members(), &vec![HolonReference::Staged(0)]);
}

#[test]
fn valid_lineages_need_a_unique_describer() {
    let clean = || ExtendsLineageDiagnosis { lineage: vec![HolonReference::Staged(0)], defects: vec![] };
    let missing = StructuralPrerequisites {
        describing_type: DescribingTypeResolution::Missing,
        subject_lineage: clean(),
        governing_lineage: Some(clean()),
    };
    assert!(missing.valid_lineages().is_none());
    let unique = StructuralPrerequisites {
        describing_type: DescribingTypeResolution::Unique(HolonReference::Staged(0)),
        subject_lineage: clean(),
        governing_lineage: Some(clean()),
    };
    assert!(unique.valid_lineages().is_some());
}

#[test]
fn an_ancestor_list_ends_at_a_holon_without_parent_and_repeats_none() -> Result<(), HolonError> {
    let mut g = build_context();
    let (child, parent, root) = small_lineage(&mut g)?;
    let v = ancestors(&g, child)?;
    assert_eq!(v, vec![child, parent, root]);
    assert!(local_targets(&g, root, CoreRelationshipTypeName::Extends)?.is_empty());
    Ok(())
}

#[test]
fn a_walker_yields_the_start_each_parent_then_the_error_then_nothing() -> Result<(), HolonError> {
    let mut g = build_context();
    let (child, parent, root) = small_lineage(&mut g)?;
    let mut walk = ExtendsIter::new(&g, child);
    assert!(matches!(walk.next(&g), Some(Ok(r)) if r == child));
    assert!(matches!(walk.next(&g), Some(Ok(r)) if r == parent));
    assert!(matches!(walk.next(&g), Some(Ok(r)) if r == root));
    assert!(walk.next(&g).is_none());
    assert!(walk.next(&g).is_none());
    // A root that extends the child closes a cycle: the error comes on the call after the root.
    add_related(&mut g, root, CoreRelationshipTypeName::Extends, vec![child])?;
    let mut walk = ExtendsIter::new(&g, child);
    assert!(matches!(walk.next(&g), Some(Ok(r)) if r == child));
    assert!(matches!(walk.next(&g), Some(Ok(r)) if r == parent));
    assert!(matches!(walk.next(&g), Some(Ok(r)) if r == root));
    assert!(matches!(walk.next(&g), Some(Err(HolonError::CyclicExtends { .. }))));
    assert!(walk.next(&g).is_none());
    Ok(())
}

#[test]
fn the_kind_scan_selects_the_first_member_marked_true() -> Result<(), HolonError> {
    let mut g = build_context();
    let (child, parent, root) = small_lineage(&mut g)?;
    set_property(&mut g, child, CorePropertyTypeName::DefinesInstanceTypeKind, BaseValue::boolean(false))?;
    set_property(&mut g, parent, CorePropertyTypeName::DefinesInstanceTypeKind, BaseValue::boolean(true))?;
    set_property(&mut g, root, CorePropertyTypeName::DefinesInstanceTypeKind, BaseValue::boolean(true))?;
    let roots = DescriptorKindRoots::from_resolved(&g, root, root, root, root)?;
    let diagnosis = ExtendsLineageDiagnosis::assess(&g, child, root)?;
    let lineage = diagnosis.valid_lineage().unwrap();
    assert_eq!(roots.instance_type_kind(&g, &lineage)?, Some(parent));
    set_property(&mut g, child, CorePropertyTypeName::DefinesInstanceTypeKind, BaseValue::string("yes"))?;
    assert!(matches!(
        roots.assess_instance_type_kind(&g, &lineage),
        Err(holons_core::kind_semantics::KindResolutionError::InvalidDesignation { .. })
    ));
    Ok(())
}

#[test]
fn the_kind_scan_through_a_reader_reports_the_first_malformed_designation() -> Result<(), HolonError> {
    let mut g = build_context();
    let (child, parent, root) = small_lineage(&mut g)?;
    set_property(&mut g, child, CorePropertyTypeName::DefinesInstanceTypeKind, BaseValue::boolean(false))?;
    set_property(&mut g, parent, CorePropertyTypeName::DefinesInstanceTypeKind, BaseValue::string("yes"))?;
    set_property(&mut g, root, CorePropertyTypeName::DefinesInstanceTypeKind, BaseValue::boolean(true))?;
    let roots = DescriptorKindRoots::from_resolved(&g, root, root, root, root)?;
    let diagnosis = ExtendsLineageDiagnosis::assess(&g, child, root)?;
    let lineage = diagnosis.valid_lineage().expect("a valid lineage");
    let selected = roots.with_reader(CurrentDescriptorReader);
    assert!(matches!(
        selected.assess_instance_type_kind(&g, &lineage),
        Err(holons_core::kind_semantics::SelectedKindError::InvalidDesignation { descriptor, .. }) if descriptor == parent
    ));
    Ok(())
}
