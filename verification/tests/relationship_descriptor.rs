#![allow(dead_code, unused_imports, unused_mut, unused_variables)]
use holons_core::error::HolonError;
use holons_core::graph::{HolonGraph, HolonPhase, HolonReference};
use holons_core::names::{CoreHolonTypeName, CorePropertyTypeName, CoreRelationshipTypeName};
use holons_core::values::{BaseValue, MapBoolean, MapBytes, MapEnumValue, MapInteger, MapString, PropertyName, RelationshipName};

fn build_context() -> HolonGraph {
    HolonGraph::new()
}

fn new_test_holon(g: &mut HolonGraph, key: &str) -> Result<HolonReference, HolonError> {
    Ok(g.new_holon(HolonPhase::Transient, Some(MapString::from_str(key))))
}

fn set_property(
    g: &mut HolonGraph,
    holon: HolonReference,
    name: CorePropertyTypeName,
    value: BaseValue,
) -> Result<(), HolonError> {
    g.with_property_value(holon, name.as_property_name(), value)
}

fn add_related(
    g: &mut HolonGraph,
    holon: HolonReference,
    rel: CoreRelationshipTypeName,
    targets: Vec<HolonReference>,
) -> Result<(), HolonError> {
    g.add_related_holons(holon, rel.as_relationship_name(), targets)
}

fn new_descriptor_holon_in(
    g: &mut HolonGraph,
    phase: HolonPhase,
    key: &str,
    tname: &str,
) -> Result<HolonReference, HolonError> {
    let holon = g.new_holon(phase, Some(MapString::from_str(key)));
    set_property(g, holon, CorePropertyTypeName::TypeName, BaseValue::string(tname))?;
    set_property(g, holon, CorePropertyTypeName::IsAbstractType, BaseValue::boolean(false))?;
    Ok(holon)
}

fn new_descriptor_holon(
    g: &mut HolonGraph,
    key: &str,
    tname: &str,
    _descriptor_family: &str,
) -> Result<HolonReference, HolonError> {
    new_descriptor_holon_in(g, HolonPhase::Transient, key, tname)
}

fn core_holon_type_name(name: CoreHolonTypeName) -> String {
    name.as_holon_name().0
}

fn set_named(g: &mut HolonGraph, holon: HolonReference, name: &str, value: BaseValue) -> Result<(), HolonError> {
    g.with_property_value(holon, PropertyName::from_str(name), value)
}

fn with_descriptor(g: &mut HolonGraph, holon: HolonReference, descriptor: HolonReference) -> Result<(), HolonError> {
    add_related(g, holon, CoreRelationshipTypeName::DescribedBy, vec![descriptor])
}

fn stage_descriptor_holon(g: &mut HolonGraph, key: &str, tname: &str) -> Result<HolonReference, HolonError> {
    new_descriptor_holon_in(g, HolonPhase::Staged, key, tname)
}

trait IntoBaseValue {
    fn into_base(self) -> BaseValue;
}

impl IntoBaseValue for &str {
    fn into_base(self) -> BaseValue {
        BaseValue::string(self)
    }
}

impl IntoBaseValue for String {
    fn into_base(self) -> BaseValue {
        BaseValue::StringValue(MapString(self))
    }
}

impl IntoBaseValue for bool {
    fn into_base(self) -> BaseValue {
        BaseValue::boolean(self)
    }
}

impl IntoBaseValue for i64 {
    fn into_base(self) -> BaseValue {
        BaseValue::integer(self)
    }
}

impl IntoBaseValue for BaseValue {
    fn into_base(self) -> BaseValue {
        self
    }
}

impl IntoBaseValue for MapEnumValue {
    fn into_base(self) -> BaseValue {
        BaseValue::EnumValue(self)
    }
}

impl IntoBaseValue for MapString {
    fn into_base(self) -> BaseValue {
        BaseValue::StringValue(self)
    }
}

impl IntoBaseValue for MapInteger {
    fn into_base(self) -> BaseValue {
        BaseValue::IntegerValue(self)
    }
}

impl IntoBaseValue for MapBoolean {
    fn into_base(self) -> BaseValue {
        BaseValue::BooleanValue(self)
    }
}

impl IntoBaseValue for i32 {
    fn into_base(self) -> BaseValue {
        BaseValue::integer(self as i64)
    }
}

trait IntoPropertyName {
    fn into_property(self) -> PropertyName;
}

impl IntoPropertyName for CorePropertyTypeName {
    fn into_property(self) -> PropertyName {
        self.as_property_name()
    }
}

impl IntoPropertyName for &str {
    fn into_property(self) -> PropertyName {
        PropertyName::from_str(self)
    }
}

impl IntoPropertyName for PropertyName {
    fn into_property(self) -> PropertyName {
        self
    }
}

fn setp<N: IntoPropertyName, V: IntoBaseValue>(
    g: &mut HolonGraph,
    holon: HolonReference,
    name: N,
    value: V,
) -> Result<(), HolonError> {
    g.with_property_value(holon, name.into_property(), value.into_base())
}

fn getp<N: IntoPropertyName>(g: &HolonGraph, holon: HolonReference, name: N) -> Result<Option<BaseValue>, HolonError> {
    g.property_value(holon, &name.into_property())
}

use holons_core::relationship_descriptor::{EffectiveCardinality, RelationshipDescriptor};
use holons_core::descriptor::Descriptor;

    #[test]
    fn relationship_descriptor_wraps_reference_and_exposes_shared_header() -> Result<(), HolonError> {
        let mut g = build_context();
        let holon = (new_descriptor_holon(
            &mut g,
            "relationship-descriptor",
            "RelationshipType",
            "Relationship",
        )?);

        let descriptor = RelationshipDescriptor::from_holon(holon.clone());

        assert_eq!(descriptor.holon(), holon);
        assert_eq!(descriptor.header().declared_type_name(&g)?, MapString::from_str("RelationshipType"));

        Ok(())
    }

    #[test]
    fn relationship_descriptor_structural_accessors_return_declared_values() -> Result<(), HolonError> {
        let mut g = build_context();
        let source_type = new_descriptor_holon(&mut g, "book-type", "Book", "Holon")?;
        let target_type = new_descriptor_holon(&mut g, "author-type", "Author", "Holon")?;
        let mut holon =
            new_descriptor_holon(&mut g, "written-by-relationship", "WrittenBy", "Relationship")?;
            setp(&mut g, holon, CorePropertyTypeName::IsDefinitional, true)?;
            setp(&mut g, holon, CorePropertyTypeName::IsOrdered, false)?;
            setp(&mut g, holon, CorePropertyTypeName::AllowsDuplicates, false)?;
            setp(&mut g, holon, CorePropertyTypeName::DeletionSemantic, "Block")?;
        add_related(&mut g, holon, CoreRelationshipTypeName::SourceType, vec![source_type])?;
        add_related(&mut g, holon, CoreRelationshipTypeName::TargetType, vec![target_type])?;

        let descriptor = RelationshipDescriptor::from_holon(holon);

        assert!(descriptor.is_definitional(&g)?);
        assert!(!descriptor.is_ordered(&g)?);
        assert!(!descriptor.allows_duplicates(&g)?);
        assert_eq!(descriptor.deletion_semantic(&g)?, Some(MapString::from_str("Block")));
        assert_eq!(descriptor.base_relationship_name(&g)?.0 .0, "WrittenBy");
        assert_eq!(descriptor.source_type(&g)?.header().declared_type_name(&g)?, MapString::from_str("Book"));
        assert_eq!(
            descriptor.target_type(&g)?.header().declared_type_name(&g)?,
            MapString::from_str("Author")
        );
        assert_eq!(
            descriptor.full_relationship_name(&g)?,
            MapString::from_str("(Book)-[WrittenBy]->(Author)")
        );

        Ok(())
    }

    #[test]
    fn boolean_accessors_error_when_required_fields_are_missing() -> Result<(), HolonError> {
        let mut g = build_context();
        let holon = new_descriptor_holon(
            &mut g,
            "relationship-missing-booleans",
            "MissingBooleans",
            "Relationship",
        )?;
        let descriptor = RelationshipDescriptor::from_holon(holon);

        assert!(matches!(
            descriptor.is_definitional(&g),
            Err(HolonError::EmptyField(field)) if field == "IsDefinitional"
        ));
        assert!(matches!(
            descriptor.is_ordered(&g),
            Err(HolonError::EmptyField(field)) if field == "IsOrdered"
        ));
        assert!(matches!(
            descriptor.allows_duplicates(&g),
            Err(HolonError::EmptyField(field)) if field == "AllowsDuplicates"
        ));

        Ok(())
    }

    #[test]
    fn boolean_accessors_error_when_required_fields_have_wrong_type() -> Result<(), HolonError> {
        let mut g = build_context();
        let mut holon = new_descriptor_holon(
            &mut g,
            "relationship-wrong-booleans",
            "WrongBooleans",
            "Relationship",
        )?;
            setp(&mut g, holon, CorePropertyTypeName::IsDefinitional, "not-a-boolean")?;
            setp(&mut g, holon, CorePropertyTypeName::IsOrdered, "not-a-boolean")?;
            setp(&mut g, holon, CorePropertyTypeName::AllowsDuplicates, "not-a-boolean")?;
        let descriptor = RelationshipDescriptor::from_holon(holon);

        assert!(matches!(
            descriptor.is_definitional(&g),
            Err(HolonError::UnexpectedValueType(_, expected)) if expected == "Boolean"
        ));
        assert!(matches!(
            descriptor.is_ordered(&g),
            Err(HolonError::UnexpectedValueType(_, expected)) if expected == "Boolean"
        ));
        assert!(matches!(
            descriptor.allows_duplicates(&g),
            Err(HolonError::UnexpectedValueType(_, expected)) if expected == "Boolean"
        ));

        Ok(())
    }

    #[test]
    fn deletion_semantic_returns_none_when_absent() -> Result<(), HolonError> {
        let mut g = build_context();
        let holon = new_descriptor_holon(
            &mut g,
            "relationship-without-deletion-semantic",
            "RelatedTo",
            "Relationship",
        )?;
        let descriptor = RelationshipDescriptor::from_holon(holon);

        assert_eq!(descriptor.deletion_semantic(&g)?, None);

        Ok(())
    }

    #[test]
    fn deletion_semantic_accepts_enum_values() -> Result<(), HolonError> {
        let mut g = build_context();
        let mut holon = new_descriptor_holon(
            &mut g,
            "relationship-with-enum-deletion-semantic",
            "RelatedTo",
            "Relationship",
        )?;
        setp(&mut g, holon, 
            CorePropertyTypeName::DeletionSemantic,
            MapEnumValue(MapString::from_str("Cascade")),
        )?;
        let descriptor = RelationshipDescriptor::from_holon(holon);

        assert_eq!(descriptor.deletion_semantic(&g)?, Some(MapString::from_str("Cascade")));

        Ok(())
    }

    #[test]
    fn deletion_semantic_errors_when_populated_with_wrong_type() -> Result<(), HolonError> {
        let mut g = build_context();
        let mut holon = new_descriptor_holon(
            &mut g,
            "relationship-with-wrong-deletion-semantic",
            "RelatedTo",
            "Relationship",
        )?;
        setp(&mut g, holon, CorePropertyTypeName::DeletionSemantic, true)?;
        let descriptor = RelationshipDescriptor::from_holon(holon);

        assert!(matches!(
            descriptor.deletion_semantic(&g),
            Err(HolonError::UnexpectedValueType(_, expected)) if expected == "String"
        ));

        Ok(())
    }

    #[test]
    fn base_relationship_name_errors_when_type_name_is_missing() -> Result<(), HolonError> {
        let mut g = build_context();
        let holon = new_test_holon(&mut g, "relationship-without-type-name")?;
        let descriptor = RelationshipDescriptor::from_holon(holon);

        assert!(matches!(
            descriptor.base_relationship_name(&g),
            Err(HolonError::EmptyField(field)) if field == "TypeName"
        ));

        Ok(())
    }

    #[test]
    fn base_relationship_name_errors_when_type_name_has_wrong_type() -> Result<(), HolonError> {
        let mut g = build_context();
        let mut holon = new_test_holon(&mut g, "relationship-wrong-type-name")?;
        setp(&mut g, holon, CorePropertyTypeName::TypeName, true)?;
        let descriptor = RelationshipDescriptor::from_holon(holon);

        assert!(matches!(
            descriptor.base_relationship_name(&g),
            Err(HolonError::UnexpectedValueType(_, expected)) if expected == "String"
        ));

        Ok(())
    }

    #[test]
    fn required_singular_navigation_errors_when_targets_are_missing() -> Result<(), HolonError> {
        let mut g = build_context();
        let holon = new_descriptor_holon(
            &mut g,
            "missing-source-target-types",
            "MissingSourceTargetTypes",
            "Relationship",
        )?;
        let descriptor = RelationshipDescriptor::from_holon(holon);

        assert!(matches!(
            descriptor.source_type(&g),
            Err(HolonError::MissingRequiredRelationship { relationship, .. })
                if relationship == "SourceType"
        ));
        assert!(matches!(
            descriptor.target_type(&g),
            Err(HolonError::MissingRequiredRelationship { relationship, .. })
                if relationship == "TargetType"
        ));

        Ok(())
    }

    #[test]
    fn required_singular_navigation_errors_when_multiple_targets_exist() -> Result<(), HolonError> {
        let mut g = build_context();
        let source_a = new_descriptor_holon(&mut g, "source-a", "SourceA", "Holon")?;
        let source_b = new_descriptor_holon(&mut g, "source-b", "SourceB", "Holon")?;
        let target_a = new_descriptor_holon(&mut g, "target-a", "TargetA", "Holon")?;
        let target_b = new_descriptor_holon(&mut g, "target-b", "TargetB", "Holon")?;
        let mut holon = new_descriptor_holon(
            &mut g,
            "multiple-source-types",
            "MultipleSourceTypes",
            "Relationship",
        )?;
        add_related(&mut g, holon, 
            CoreRelationshipTypeName::SourceType,
            vec![source_a, source_b],
        )?;
        add_related(&mut g, holon, 
            CoreRelationshipTypeName::TargetType,
            vec![target_a, target_b],
        )?;

        let descriptor = RelationshipDescriptor::from_holon(holon);

        assert!(matches!(
            descriptor.source_type(&g),
            Err(HolonError::MultipleRelatedHolons { relationship, count, .. })
                if relationship == "SourceType" && count == 2
        ));
        assert!(matches!(
            descriptor.target_type(&g),
            Err(HolonError::MultipleRelatedHolons { relationship, count, .. })
                if relationship == "TargetType" && count == 2
        ));

        Ok(())
    }

    #[test]
    fn narrowing_convenience_methods_validate_subtype_kind() -> Result<(), HolonError> {
        let mut g = build_context();
        let declared_type = new_descriptor_holon(
            &mut g,
            "declared-type-for-narrowing",
            &core_holon_type_name(CoreHolonTypeName::DeclaredRelationshipType),
            "Relationship",
        )?;
        let inverse_type = new_descriptor_holon(
            &mut g,
            "inverse-type-for-narrowing",
            &core_holon_type_name(CoreHolonTypeName::InverseRelationshipType),
            "Relationship",
        )?;
        let mut declared = new_descriptor_holon(
            &mut g,
            "declared-narrowing",
            "DeclaredNarrowing",
            "Relationship",
        )?;
        add_related(&mut g, declared, CoreRelationshipTypeName::Extends, vec![declared_type])?;
        let mut inverse = new_descriptor_holon(
            &mut g,
            "inverse-narrowing",
            "InverseNarrowing",
            "Relationship",
        )?;
        add_related(&mut g, inverse, CoreRelationshipTypeName::Extends, vec![inverse_type])?;

        assert_eq!(
            RelationshipDescriptor::from_holon(declared)
                .try_into_declared_relationship_descriptor(&g)?
                .header()
                .declared_type_name(&g)?,
            MapString::from_str("DeclaredNarrowing")
        );
        assert_eq!(
            RelationshipDescriptor::from_holon(inverse)
                .try_into_inverse_relationship_descriptor(&g)?
                .header()
                .declared_type_name(&g)?,
            MapString::from_str("InverseNarrowing")
        );

        Ok(())
    }


    fn fixture() -> Result<(HolonGraph, HolonReference, HolonReference), HolonError> {
        let mut g = build_context();
        let relationship = new_descriptor_holon(
            &mut g,
            "RelationshipType.TypeDescriptor",
            "RelationshipType",
            "Relationship",
        )?;
        let relationship: HolonReference = g.stage_new_holon(relationship)?;
        let constraint_type = new_descriptor_holon(
            &mut g,
            "test-cardinality-descriptor-without-canonical-key",
            "CardinalityConstraint",
            "Constraint",
        )?;
        let constraint_type = g.stage_new_holon(constraint_type)?;
        Ok((g, relationship, constraint_type))
    }
    fn constraint(
        g: &mut HolonGraph,
        kind: &HolonReference,
        min: Option<i64>,
        max: Option<i64>,
    ) -> Result<HolonReference, HolonError> {
        let c = new_test_holon(g, "arbitrary-constraint-name")?;
        add_related(g, c, CoreRelationshipTypeName::DescribedBy, vec![kind.clone()])?;
        if let Some(n) = min {
            setp(g, c, "Minimum", n)?;
        }
        if let Some(n) = max {
            setp(g, c, "Maximum", n)?;
        }
        g.stage_new_holon(c)
    }
    #[test]
    fn combines_direct_bounds_and_keeps_direction_independent() -> Result<(), HolonError> {
        let (mut g, forward, kind) = fixture()?;
        let c1 = constraint(&mut g, &kind, Some(1), None)?;
        let c2 = constraint(&mut g, &kind, Some(0), Some(1))?;
        add_related(&mut g, forward, CoreRelationshipTypeName::Constraints, vec![c1, c2])?;
        let inverse = new_test_holon(&mut g, "inverse")?;
        let c3 = constraint(&mut g, &kind, Some(0), None)?;
        add_related(&mut g, inverse, CoreRelationshipTypeName::Constraints, vec![c3])?;
        assert_eq!(
            RelationshipDescriptor::from_holon(forward).effective_cardinality(&g)?,
            EffectiveCardinality { minimum: 1, maximum: Some(1) }
        );
        assert_eq!(
            RelationshipDescriptor::from_holon(inverse).effective_cardinality(&g)?,
            EffectiveCardinality { minimum: 0, maximum: None }
        );
        Ok(())
    }
    #[test]
    fn relationship_descriptor_handles_zero_plural_and_malformed_bounds() -> Result<(), HolonError> {
        for (minimum, maximum, valid) in [
            (Some(0), Some(0), true),
            (Some(2), Some(5), true),
            (Some(0), None, true),
            (None, Some(1), false),
            (Some(-1), None, false),
            (Some(2), Some(1), false),
        ] {
            let (mut g, relationship, kind) = fixture()?;
            let c = constraint(&mut g, &kind, minimum, maximum)?;
            add_related(&mut g, relationship, CoreRelationshipTypeName::Constraints, vec![c])?;
            let result = RelationshipDescriptor::from_holon(relationship).effective_cardinality(&g);
            assert_eq!(result.is_ok(), valid, "{minimum:?}..{maximum:?}: {result:?}");
        }
        Ok(())
    }
    #[test]
    fn ignores_other_constraint_types_without_resolving_ancestry() -> Result<(), HolonError> {
        let (mut g, relationship, kind) = fixture()?;
        let other = new_descriptor_holon(&mut g, "Other.ConstraintType", "Other", "Constraint")?;
        let other: HolonReference = g.stage_new_holon(other)?;
        let c1 = constraint(&mut g, &other, None, None)?;
        let c2 = constraint(&mut g, &kind, Some(0), Some(1))?;
        add_related(&mut g, relationship, CoreRelationshipTypeName::Constraints, vec![c1, c2])?;
        assert_eq!(
            RelationshipDescriptor::from_holon(relationship).effective_cardinality(&g)?,
            EffectiveCardinality { minimum: 0, maximum: Some(1) }
        );
        Ok(())
    }
    #[test]
    fn relationship_descriptor_rejects_missing_constraints_and_empty_intersection() -> Result<(), HolonError> {
        let (mut g, relationship, kind) = fixture()?;
        assert!(RelationshipDescriptor::from_holon(relationship.clone())
            .effective_cardinality(&g)
            .is_err());
        let c1 = constraint(&mut g, &kind, Some(2), None)?;
        let c2 = constraint(&mut g, &kind, Some(0), Some(1))?;
        add_related(&mut g, relationship, CoreRelationshipTypeName::Constraints, vec![c1, c2])?;
        assert!(RelationshipDescriptor::from_holon(relationship).effective_cardinality(&g).is_err());
        Ok(())
    }
