#![allow(dead_code, unused_imports, unused_mut, unused_variables)]
use holons_core::error::HolonError;
use holons_core::graph::{HolonGraph, HolonPhase, HolonReference};
use holons_core::names::{CoreHolonTypeName, CorePropertyTypeName, CoreRelationshipTypeName};
use holons_core::values::{BaseValue, MapBoolean, MapBytes, MapEnumValue, MapInteger, MapString, PropertyName, RelationshipName};

fn build_context() -> HolonGraph {
    HolonGraph::new()
}

fn new_test_holon(g: &mut HolonGraph, key: &str) -> Result<HolonReference, HolonError> {
    Ok(g.new_holon(HolonPhase::Transient, Some(MapString::from_str(key))))
}

fn set_property(
    g: &mut HolonGraph,
    holon: HolonReference,
    name: CorePropertyTypeName,
    value: BaseValue,
) -> Result<(), HolonError> {
    g.with_property_value(holon, name.as_property_name(), value)
}

fn add_related(
    g: &mut HolonGraph,
    holon: HolonReference,
    rel: CoreRelationshipTypeName,
    targets: Vec<HolonReference>,
) -> Result<(), HolonError> {
    g.add_related_holons(holon, rel.as_relationship_name(), targets)
}

fn new_descriptor_holon_in(
    g: &mut HolonGraph,
    phase: HolonPhase,
    key: &str,
    tname: &str,
) -> Result<HolonReference, HolonError> {
    let holon = g.new_holon(phase, Some(MapString::from_str(key)));
    set_property(g, holon, CorePropertyTypeName::TypeName, BaseValue::string(tname))?;
    set_property(g, holon, CorePropertyTypeName::IsAbstractType, BaseValue::boolean(false))?;
    Ok(holon)
}

fn new_descriptor_holon(
    g: &mut HolonGraph,
    key: &str,
    tname: &str,
    _descriptor_family: &str,
) -> Result<HolonReference, HolonError> {
    new_descriptor_holon_in(g, HolonPhase::Transient, key, tname)
}

fn core_holon_type_name(name: CoreHolonTypeName) -> String {
    name.as_holon_name().0
}

fn set_named(g: &mut HolonGraph, holon: HolonReference, name: &str, value: BaseValue) -> Result<(), HolonError> {
    g.with_property_value(holon, PropertyName::from_str(name), value)
}

fn with_descriptor(g: &mut HolonGraph, holon: HolonReference, descriptor: HolonReference) -> Result<(), HolonError> {
    add_related(g, holon, CoreRelationshipTypeName::DescribedBy, vec![descriptor])
}

fn stage_descriptor_holon(g: &mut HolonGraph, key: &str, tname: &str) -> Result<HolonReference, HolonError> {
    new_descriptor_holon_in(g, HolonPhase::Staged, key, tname)
}

trait IntoBaseValue {
    fn into_base(self) -> BaseValue;
}

impl IntoBaseValue for &str {
    fn into_base(self) -> BaseValue {
        BaseValue::string(self)
    }
}

impl IntoBaseValue for String {
    fn into_base(self) -> BaseValue {
        BaseValue::StringValue(MapString(self))
    }
}

impl IntoBaseValue for bool {
    fn into_base(self) -> BaseValue {
        BaseValue::boolean(self)
    }
}

impl IntoBaseValue for i64 {
    fn into_base(self) -> BaseValue {
        BaseValue::integer(self)
    }
}

impl IntoBaseValue for BaseValue {
    fn into_base(self) -> BaseValue {
        self
    }
}

impl IntoBaseValue for MapEnumValue {
    fn into_base(self) -> BaseValue {
        BaseValue::EnumValue(self)
    }
}

impl IntoBaseValue for MapString {
    fn into_base(self) -> BaseValue {
        BaseValue::StringValue(self)
    }
}

impl IntoBaseValue for MapInteger {
    fn into_base(self) -> BaseValue {
        BaseValue::IntegerValue(self)
    }
}

impl IntoBaseValue for MapBoolean {
    fn into_base(self) -> BaseValue {
        BaseValue::BooleanValue(self)
    }
}

impl IntoBaseValue for i32 {
    fn into_base(self) -> BaseValue {
        BaseValue::integer(self as i64)
    }
}

trait IntoPropertyName {
    fn into_property(self) -> PropertyName;
}

impl IntoPropertyName for CorePropertyTypeName {
    fn into_property(self) -> PropertyName {
        self.as_property_name()
    }
}

impl IntoPropertyName for &str {
    fn into_property(self) -> PropertyName {
        PropertyName::from_str(self)
    }
}

impl IntoPropertyName for PropertyName {
    fn into_property(self) -> PropertyName {
        self
    }
}

fn setp<N: IntoPropertyName, V: IntoBaseValue>(
    g: &mut HolonGraph,
    holon: HolonReference,
    name: N,
    value: V,
) -> Result<(), HolonError> {
    g.with_property_value(holon, name.into_property(), value.into_base())
}

fn getp<N: IntoPropertyName>(g: &HolonGraph, holon: HolonReference, name: N) -> Result<Option<BaseValue>, HolonError> {
    g.property_value(holon, &name.into_property())
}

use holons_core::descriptor::Descriptor;
use holons_core::command_descriptor::CommandDescriptor;
use holons_core::dance_descriptor::DanceDescriptor;
use holons_core::graph::Holon;
use holons_core::holon_descriptor::HolonDescriptor;
use holons_core::holon_descriptor::holon_descriptor;

    fn new_holon_type_descriptor(
        g: &mut HolonGraph,
        key: &str,
        tname: &str,
    ) -> Result<HolonReference, HolonError> {
        // Descriptor tests only need the shared header surface in this phase.
        let descriptor = new_test_holon(g, key)?;
        setp(g, descriptor, CorePropertyTypeName::TypeName, tname)?;
        setp(g, descriptor, CorePropertyTypeName::IsAbstractType, false)?;
        setp(g, descriptor, CorePropertyTypeName::InstanceTypeKind, "Holon")?;
        Ok(descriptor)
    }

    fn assert_is_descriptor<T: Descriptor>(descriptor: &T) {
        // Compile-time trait membership plus one trivial runtime use.
        let _ = descriptor.holon();
    }

    fn command_names(g: &HolonGraph, commands: Vec<CommandDescriptor>) -> Result<Vec<MapString>, HolonError> {
        commands.into_iter().map(|command| command.command_name(g)).collect()
    }

    fn dance_names(g: &HolonGraph, dances: Vec<DanceDescriptor>) -> Result<Vec<MapString>, HolonError> {
        dances.into_iter().map(|dance| dance.dance_name(g)).collect()
    }

    #[test]
    fn holon_descriptor_wraps_reference_and_exposes_shared_header() -> Result<(), HolonError> {
        let mut g = build_context();
        let holon =
            (new_holon_type_descriptor(&mut g, "holon-descriptor", "HolonType")?);

        let descriptor = HolonDescriptor::from_holon(holon.clone());

        assert_eq!(descriptor.holon(), holon);
        assert_eq!(descriptor.header().declared_type_name(&g)?, MapString::from_str("HolonType"));
        assert_is_descriptor(&descriptor);

        Ok(())
    }

    #[test]
    fn holon_descriptor_resolves_for_transient_source() -> Result<(), HolonError> {
        let mut g = build_context();
        let descriptor =
            new_holon_type_descriptor(&mut g, "descriptor-transient", "TransientDescriptor")?;
        let mut source = new_test_holon(&mut g, "source-transient")?;
        add_related(&mut g, source, 
            CoreRelationshipTypeName::DescribedBy,
            vec![descriptor],
        )?;

        let resolved = holon_descriptor(&g, source)?;

        assert_eq!(resolved.header().declared_type_name(&g)?, MapString::from_str("TransientDescriptor"));
        assert_eq!(resolved.holon(), descriptor);
        assert_is_descriptor(&resolved);

        Ok(())
    }

    #[test]
    fn holon_descriptor_resolves_for_staged_source() -> Result<(), HolonError> {
        let mut g = build_context();
        let descriptor = new_holon_type_descriptor(&mut g, "descriptor-staged", "StagedDescriptor")?;
        let staged_descriptor = g.stage_new_holon(descriptor)?;
        let source = new_test_holon(&mut g, "source-staged")?;
        let mut staged_source = g.stage_new_holon(source)?;
        add_related(&mut g, staged_source, 
            CoreRelationshipTypeName::DescribedBy,
            vec![staged_descriptor],
        )?;

        let resolved = holon_descriptor(&g, staged_source)?;

        assert_eq!(resolved.header().declared_type_name(&g)?, MapString::from_str("StagedDescriptor"));
        assert_is_descriptor(&resolved);

        Ok(())
    }

    #[test]
    fn holon_descriptor_errors_when_described_by_missing() -> Result<(), HolonError> {
        let mut g = build_context();
        let source = new_test_holon(&mut g, "missing-descriptor")?;

        assert!(matches!(holon_descriptor(&g, source), Err(HolonError::MissingDescribedBy { .. })));

        Ok(())
    }

    #[test]
    fn holon_descriptor_errors_when_multiple_described_by_present() -> Result<(), HolonError> {
        let mut g = build_context();
        let descriptor_a = new_holon_type_descriptor(&mut g, "descriptor-a", "DescriptorA")?;
        let descriptor_b = new_holon_type_descriptor(&mut g, "descriptor-b", "DescriptorB")?;
        let mut source = new_test_holon(&mut g, "multiple-descriptor-source")?;
        add_related(&mut g, source, 
            CoreRelationshipTypeName::DescribedBy,
            vec![descriptor_a, descriptor_b],
        )?;

        assert!(matches!(
            holon_descriptor(&g, source),
            Err(HolonError::MultipleDescribedBy { count, .. }) if count == 2
        ));

        Ok(())
    }

    #[test]
    fn structural_flags_return_required_boolean_values() -> Result<(), HolonError> {
        let mut g = build_context();
        let mut holon = new_holon_type_descriptor(&mut g, "structural-flags", "BookType")?;
            setp(&mut g, holon, CorePropertyTypeName::AllowsAdditionalProperties, true)?;
            setp(&mut g, holon, CorePropertyTypeName::AllowsAdditionalRelationships, false)?;

        let descriptor = HolonDescriptor::from_holon(holon);

        assert!(descriptor.allows_additional_properties(&g)?);
        assert!(!descriptor.allows_additional_relationships(&g)?);

        Ok(())
    }

    #[test]
    fn structural_flags_error_when_required_boolean_is_missing() -> Result<(), HolonError> {
        let mut g = build_context();
        let mut holon = new_holon_type_descriptor(&mut g, "missing-structural-flag", "BookType")?;
        setp(&mut g, holon, CorePropertyTypeName::AllowsAdditionalRelationships, true)?;

        let descriptor = HolonDescriptor::from_holon(holon);

        assert!(matches!(
            descriptor.allows_additional_properties(&g),
            Err(HolonError::EmptyField(field)) if field == "AllowsAdditionalProperties"
        ));

        Ok(())
    }

    #[test]
    fn structural_flags_error_when_relationship_flag_is_missing() -> Result<(), HolonError> {
        let mut g = build_context();
        let mut holon =
            new_holon_type_descriptor(&mut g, "missing-relationship-structural-flag", "BookType")?;
        setp(&mut g, holon, CorePropertyTypeName::AllowsAdditionalProperties, true)?;

        let descriptor = HolonDescriptor::from_holon(holon);

        assert!(matches!(
            descriptor.allows_additional_relationships(&g),
            Err(HolonError::EmptyField(field)) if field == "AllowsAdditionalRelationships"
        ));

        Ok(())
    }

    #[test]
    fn structural_flags_error_when_required_boolean_has_wrong_type() -> Result<(), HolonError> {
        let mut g = build_context();
        let mut holon = new_holon_type_descriptor(&mut g, "wrong-type-structural-flag", "BookType")?;
        setp(&mut g, holon, 
            CorePropertyTypeName::AllowsAdditionalProperties,
            "not-a-boolean",
        )?;

        let descriptor = HolonDescriptor::from_holon(holon);

        assert!(matches!(
            descriptor.allows_additional_properties(&g),
            Err(HolonError::UnexpectedValueType(_, expected)) if expected == "Boolean"
        ));

        Ok(())
    }

    #[test]
    fn flattened_plural_accessors_preserve_self_first_inheritance_order() -> Result<(), HolonError>
    {
        let mut g = build_context();
        let prop_root = new_holon_type_descriptor(&mut g, "prop-root", "RootProperty")?;
        let prop_middle = new_holon_type_descriptor(&mut g, "prop-middle", "MiddleProperty")?;
        let prop_leaf = new_holon_type_descriptor(&mut g, "prop-leaf", "LeafProperty")?;
        let property_type = new_holon_type_descriptor(&mut g, "property-type", "PropertyType")?;
        let rel_root = new_holon_type_descriptor(&mut g, "rel-root", "RootRelationship")?;
        let rel_leaf = new_holon_type_descriptor(&mut g, "rel-leaf", "LeafRelationship")?;
        let mut root = new_holon_type_descriptor(&mut g, "root-type", "RootType")?;
        let mut middle = new_holon_type_descriptor(&mut g, "middle-type", "MiddleType")?;
        let mut leaf = new_holon_type_descriptor(&mut g, "leaf-type", "LeafType")?;

        add_related(&mut g, root, 
            CoreRelationshipTypeName::InstanceProperties,
            vec![prop_root],
        )?;
        add_related(&mut g, root, 
            CoreRelationshipTypeName::InstanceRelationships,
            vec![rel_root],
        )?;
        add_related(&mut g, root, CoreRelationshipTypeName::Properties, vec![property_type])?;
        add_related(&mut g, middle, CoreRelationshipTypeName::Extends, vec![root])?;
        add_related(&mut g, middle, 
            CoreRelationshipTypeName::InstanceProperties,
            vec![prop_middle],
        )?;
        add_related(&mut g, leaf, CoreRelationshipTypeName::Extends, vec![middle])?;
        add_related(&mut g, leaf, 
            CoreRelationshipTypeName::InstanceProperties,
            vec![prop_leaf],
        )?;
        add_related(&mut g, leaf, 
            CoreRelationshipTypeName::InstanceRelationships,
            vec![rel_leaf],
        )?;

        let descriptor = HolonDescriptor::from_holon(leaf);
        let property_names = descriptor
            .instance_properties(&g)?
            .into_iter()
            .map(|property| property.header().declared_type_name(&g))
            .collect::<Result<Vec<_>, _>>()?;
        let relationship_names = descriptor
            .instance_relationships(&g)?
            .into_iter()
            .map(|relationship| relationship.header().declared_type_name(&g))
            .collect::<Result<Vec<_>, _>>()?;
        let properties_names = descriptor
            .properties(&g)?
            .into_iter()
            .map(|property| property.header().declared_type_name(&g))
            .collect::<Result<Vec<_>, _>>()?;

        assert_eq!(
            property_names,
            vec![
                MapString::from_str("LeafProperty"),
                MapString::from_str("MiddleProperty"),
                MapString::from_str("RootProperty"),
            ]
        );
        assert_eq!(
            relationship_names,
            vec![
                MapString::from_str("LeafRelationship"),
                MapString::from_str("RootRelationship"),
            ]
        );
        assert_eq!(properties_names, vec![MapString::from_str("PropertyType")]);

        Ok(())
    }

    #[test]
    fn afforded_commands_returns_empty_when_no_affords_command_edges_present(
    ) -> Result<(), HolonError> {
        let mut g = build_context();
        let holon_type = new_holon_type_descriptor(&mut g, "no-command-owner", "BookType")?;

        let descriptor = HolonDescriptor::from_holon(holon_type);

        assert!(descriptor.afforded_commands(&g)?.is_empty());

        Ok(())
    }

    #[test]
    fn afforded_commands_returns_self_first_then_inherited() -> Result<(), HolonError> {
        let mut g = build_context();
        let inherited_command =
            new_holon_type_descriptor(&mut g, "inherited-command", "BeginTransaction")?;
        let local_command = new_holon_type_descriptor(&mut g, "local-command", "Commit")?;
        let mut parent = new_holon_type_descriptor(&mut g, "command-parent", "ParentType")?;
        let mut leaf = new_holon_type_descriptor(&mut g, "command-leaf", "LeafType")?;

        add_related(&mut g, parent, 
            CoreRelationshipTypeName::AffordsCommand,
            vec![inherited_command],
        )?;
        add_related(&mut g, leaf, CoreRelationshipTypeName::Extends, vec![parent])?;
        add_related(&mut g, leaf, 
            CoreRelationshipTypeName::AffordsCommand,
            vec![local_command],
        )?;

        let descriptor = HolonDescriptor::from_holon(leaf);

        assert_eq!(
            command_names(&g, descriptor.afforded_commands(&g)?)?,
            vec![
                MapString::from_str("Commit"),
                MapString::from_str("BeginTransaction"),
            ]
        );

        Ok(())
    }

    #[test]
    fn afforded_commands_flattens_through_multi_step_extends_chain() -> Result<(), HolonError> {
        let mut g = build_context();
        let root_command = new_holon_type_descriptor(&mut g, "root-command", "BeginTransaction")?;
        let middle_command = new_holon_type_descriptor(&mut g, "middle-command", "CloneHolon")?;
        let leaf_command = new_holon_type_descriptor(&mut g, "leaf-command", "Commit")?;
        let mut root = new_holon_type_descriptor(&mut g, "command-root", "RootType")?;
        let mut middle = new_holon_type_descriptor(&mut g, "command-middle", "MiddleType")?;
        let mut leaf = new_holon_type_descriptor(&mut g, "command-chain-leaf", "LeafType")?;

        add_related(&mut g, root, 
            CoreRelationshipTypeName::AffordsCommand,
            vec![root_command],
        )?;
        add_related(&mut g, middle, CoreRelationshipTypeName::Extends, vec![root])?;
        add_related(&mut g, middle, 
            CoreRelationshipTypeName::AffordsCommand,
            vec![middle_command],
        )?;
        add_related(&mut g, leaf, CoreRelationshipTypeName::Extends, vec![middle])?;
        add_related(&mut g, leaf, 
            CoreRelationshipTypeName::AffordsCommand,
            vec![leaf_command],
        )?;

        let descriptor = HolonDescriptor::from_holon(leaf);

        assert_eq!(
            command_names(&g, descriptor.afforded_commands(&g)?)?,
            vec![
                MapString::from_str("Commit"),
                MapString::from_str("CloneHolon"),
                MapString::from_str("BeginTransaction"),
            ]
        );

        Ok(())
    }

    #[test]
    fn get_command_by_name_matches_on_shared_type_name() -> Result<(), HolonError> {
        let mut g = build_context();
        let command = new_holon_type_descriptor(&mut g, "commit-command-affordance", "Commit")?;
        let mut holon_type = new_holon_type_descriptor(&mut g, "command-owner", "TransactionType")?;

        add_related(&mut g, holon_type, CoreRelationshipTypeName::AffordsCommand, vec![command])?;

        let descriptor = HolonDescriptor::from_holon(holon_type);

        assert_eq!(
            descriptor.get_command_by_name(&g, "Commit")?.command_name(&g)?,
            MapString::from_str("Commit")
        );

        Ok(())
    }

    #[test]
    fn afforded_dances_returns_self_first_then_inherited() -> Result<(), HolonError> {
        let mut g = build_context();
        let inherited_dance = new_holon_type_descriptor(&mut g, "inherited-dance", "Query")?;
        let local_dance = new_holon_type_descriptor(&mut g, "local-dance", "Dance")?;
        let mut parent = new_holon_type_descriptor(&mut g, "dance-parent", "ParentType")?;
        let mut leaf = new_holon_type_descriptor(&mut g, "dance-leaf", "LeafType")?;

        add_related(&mut g, parent, CoreRelationshipTypeName::Affords, vec![inherited_dance])?;
        add_related(&mut g, leaf, CoreRelationshipTypeName::Extends, vec![parent])?;
        add_related(&mut g, leaf, CoreRelationshipTypeName::Affords, vec![local_dance])?;

        let descriptor = HolonDescriptor::from_holon(leaf);

        assert_eq!(
            dance_names(&g, descriptor.afforded_dances(&g)?)?,
            vec![
                MapString::from_str("Dance"),
                MapString::from_str("Query"),
            ]
        );

        Ok(())
    }

    #[test]
    fn afforded_dances_flattens_through_multi_step_extends_chain() -> Result<(), HolonError> {
        let mut g = build_context();
        let root_dance = new_holon_type_descriptor(&mut g, "root-dance", "Dance")?;
        let middle_dance = new_holon_type_descriptor(&mut g, "middle-dance", "Query")?;
        let leaf_dance = new_holon_type_descriptor(&mut g, "leaf-dance", "LoadHolons")?;
        let mut root = new_holon_type_descriptor(&mut g, "dance-root", "RootType")?;
        let mut middle = new_holon_type_descriptor(&mut g, "dance-middle", "MiddleType")?;
        let mut leaf = new_holon_type_descriptor(&mut g, "dance-chain-leaf", "LeafType")?;

        add_related(&mut g, root, CoreRelationshipTypeName::Affords, vec![root_dance])?;
        add_related(&mut g, middle, CoreRelationshipTypeName::Extends, vec![root])?;
        add_related(&mut g, middle, CoreRelationshipTypeName::Affords, vec![middle_dance])?;
        add_related(&mut g, leaf, CoreRelationshipTypeName::Extends, vec![middle])?;
        add_related(&mut g, leaf, CoreRelationshipTypeName::Affords, vec![leaf_dance])?;

        let descriptor = HolonDescriptor::from_holon(leaf);

        assert_eq!(
            dance_names(&g, descriptor.afforded_dances(&g)?)?,
            vec![
                MapString::from_str("LoadHolons"),
                MapString::from_str("Query"),
                MapString::from_str("Dance"),
            ]
        );

        Ok(())
    }

    #[test]
    fn get_dance_by_name_matches_on_shared_type_name() -> Result<(), HolonError> {
        let mut g = build_context();
        let dance = new_holon_type_descriptor(&mut g, "dance-affordance", "Query")?;
        let mut holon_type = new_holon_type_descriptor(&mut g, "dance-owner", "TransactionType")?;

        add_related(&mut g, holon_type, CoreRelationshipTypeName::Affords, vec![dance])?;

        let descriptor = HolonDescriptor::from_holon(holon_type);

        assert_eq!(
            descriptor.get_dance_by_name(&g, "query")?.dance_name(&g)?,
            MapString::from_str("Query")
        );

        Ok(())
    }

    #[test]
    fn get_dance_by_name_errors_when_not_found() -> Result<(), HolonError> {
        let mut g = build_context();
        let dance = new_holon_type_descriptor(&mut g, "query-dance-affordance", "Query")?;
        let mut holon_type = new_holon_type_descriptor(&mut g, "missing-dance-owner", "BookType")?;

        add_related(&mut g, holon_type, CoreRelationshipTypeName::Affords, vec![dance])?;

        let descriptor = HolonDescriptor::from_holon(holon_type);

        assert!(matches!(
            descriptor.get_dance_by_name(&g, "Commit"),
            Err(HolonError::DescriptorDeclarationNotFound { kind, name, .. })
                if kind == "dance" && name == "Commit"
        ));

        Ok(())
    }

    #[test]
    fn get_dance_by_name_detects_duplicate_inherited_declarations() -> Result<(), HolonError> {
        let mut g = build_context();
        let duplicate_root = new_holon_type_descriptor(&mut g, "duplicate-root-dance", "Query")?;
        let duplicate_leaf = new_holon_type_descriptor(&mut g, "duplicate-leaf-dance", "Query")?;
        let mut root = new_holon_type_descriptor(&mut g, "duplicate-dance-root", "RootType")?;
        let mut leaf = new_holon_type_descriptor(&mut g, "duplicate-dance-leaf", "LeafType")?;

        add_related(&mut g, root, CoreRelationshipTypeName::Affords, vec![duplicate_root])?;
        add_related(&mut g, leaf, CoreRelationshipTypeName::Extends, vec![root])?;
        add_related(&mut g, leaf, CoreRelationshipTypeName::Affords, vec![duplicate_leaf])?;

        let descriptor = HolonDescriptor::from_holon(leaf);

        assert!(matches!(
            descriptor.get_dance_by_name(&g, "Query"),
            Err(HolonError::DuplicateInheritedDeclaration { kind, name, .. })
                if kind == "dance" && name == "Query"
        ));

        Ok(())
    }

    #[test]
    fn afforded_dances_errors_on_cyclic_extends() -> Result<(), HolonError> {
        let mut g = build_context();
        let mut descriptor_a = new_holon_type_descriptor(&mut g, "dance-cycle-a", "CycleA")?;
        let mut descriptor_b = new_holon_type_descriptor(&mut g, "dance-cycle-b", "CycleB")?;

        add_related(&mut g, descriptor_a, 
            CoreRelationshipTypeName::Extends,
            vec![descriptor_b],
        )?;
        add_related(&mut g, descriptor_b, 
            CoreRelationshipTypeName::Extends,
            vec![descriptor_a],
        )?;

        let descriptor = HolonDescriptor::from_holon(descriptor_a);

        assert!(matches!(descriptor.afforded_dances(&g), Err(HolonError::CyclicExtends { .. })));

        Ok(())
    }

    #[test]
    fn afforded_dances_errors_when_multiple_extends_are_declared() -> Result<(), HolonError> {
        let mut g = build_context();
        let parent_a = new_holon_type_descriptor(&mut g, "dance-parent-a", "ParentA")?;
        let parent_b = new_holon_type_descriptor(&mut g, "dance-parent-b", "ParentB")?;
        let mut child = new_holon_type_descriptor(&mut g, "dance-child", "ChildType")?;

        add_related(&mut g, child, 
            CoreRelationshipTypeName::Extends,
            vec![parent_a, parent_b],
        )?;

        let descriptor = HolonDescriptor::from_holon(child);

        assert!(matches!(
            descriptor.afforded_dances(&g),
            Err(HolonError::MultipleExtends { count, .. }) if count == 2
        ));

        Ok(())
    }

    #[test]
    fn get_property_by_name_accepts_conversion_trait_inputs() -> Result<(), HolonError> {
        let mut g = build_context();
        let property = new_holon_type_descriptor(&mut g, "display-name-property", "DisplayName")?;
        let mut holon_type = new_holon_type_descriptor(&mut g, "property-owner", "BookType")?;
        add_related(&mut g, holon_type, 
            CoreRelationshipTypeName::InstanceProperties,
            vec![property],
        )?;

        let descriptor = HolonDescriptor::from_holon(holon_type);

        assert_eq!(
            descriptor.get_property_by_name(&g, "display_name")?.header().declared_type_name(&g)?,
            MapString::from_str("DisplayName")
        );

        Ok(())
    }

    #[test]
    fn get_relationship_by_name_accepts_conversion_trait_inputs() -> Result<(), HolonError> {
        let mut g = build_context();
        let relationship = new_holon_type_descriptor(&mut g, "relationship-match", "AuthoredBy")?;
        let mut holon_type = new_holon_type_descriptor(&mut g, "relationship-owner", "BookType")?;
        add_related(&mut g, holon_type, 
            CoreRelationshipTypeName::InstanceRelationships,
            vec![relationship],
        )?;

        let descriptor = HolonDescriptor::from_holon(holon_type);

        assert_eq!(
            descriptor.get_relationship_by_name(&g, "authored_by")?.base_relationship_name(&g)?,
            RelationshipName(MapString::from_str("AuthoredBy"))
        );

        Ok(())
    }

    #[test]
    fn get_command_by_name_errors_when_not_found() -> Result<(), HolonError> {
        let mut g = build_context();
        let command = new_holon_type_descriptor(&mut g, "query-command-affordance", "Query")?;
        let mut holon_type = new_holon_type_descriptor(&mut g, "missing-command-owner", "BookType")?;

        add_related(&mut g, holon_type, CoreRelationshipTypeName::AffordsCommand, vec![command])?;

        let descriptor = HolonDescriptor::from_holon(holon_type);

        assert!(matches!(
            descriptor.get_command_by_name(&g, "Commit"),
            Err(HolonError::DescriptorDeclarationNotFound { kind, name, .. })
                if kind == "command" && name == "Commit"
        ));

        Ok(())
    }

    #[test]
    fn get_command_by_name_detects_duplicate_inherited_declarations() -> Result<(), HolonError> {
        let mut g = build_context();
        let duplicate_root = new_holon_type_descriptor(&mut g, "duplicate-root-command", "Commit")?;
        let duplicate_leaf = new_holon_type_descriptor(&mut g, "duplicate-leaf-command", "Commit")?;
        let mut root = new_holon_type_descriptor(&mut g, "duplicate-command-root", "RootType")?;
        let mut leaf = new_holon_type_descriptor(&mut g, "duplicate-command-leaf", "LeafType")?;

        add_related(&mut g, root, 
            CoreRelationshipTypeName::AffordsCommand,
            vec![duplicate_root],
        )?;
        add_related(&mut g, leaf, CoreRelationshipTypeName::Extends, vec![root])?;
        add_related(&mut g, leaf, 
            CoreRelationshipTypeName::AffordsCommand,
            vec![duplicate_leaf],
        )?;

        let descriptor = HolonDescriptor::from_holon(leaf);

        assert!(matches!(
            descriptor.get_command_by_name(&g, "Commit"),
            Err(HolonError::DuplicateInheritedDeclaration { kind, name, .. })
                if kind == "command" && name == "Commit"
        ));

        Ok(())
    }

    #[test]
    fn afforded_commands_errors_on_cyclic_extends() -> Result<(), HolonError> {
        let mut g = build_context();
        let mut descriptor_a = new_holon_type_descriptor(&mut g, "command-cycle-a", "CycleA")?;
        let mut descriptor_b = new_holon_type_descriptor(&mut g, "command-cycle-b", "CycleB")?;

        add_related(&mut g, descriptor_a, 
            CoreRelationshipTypeName::Extends,
            vec![descriptor_b],
        )?;
        add_related(&mut g, descriptor_b, 
            CoreRelationshipTypeName::Extends,
            vec![descriptor_a],
        )?;

        let descriptor = HolonDescriptor::from_holon(descriptor_a);

        assert!(matches!(descriptor.afforded_commands(&g), Err(HolonError::CyclicExtends { .. })));

        Ok(())
    }

    #[test]
    fn afforded_commands_errors_when_multiple_extends_are_declared() -> Result<(), HolonError> {
        let mut g = build_context();
        let parent_a = new_holon_type_descriptor(&mut g, "command-parent-a", "ParentA")?;
        let parent_b = new_holon_type_descriptor(&mut g, "command-parent-b", "ParentB")?;
        let mut child = new_holon_type_descriptor(&mut g, "command-child", "ChildType")?;

        add_related(&mut g, child, 
            CoreRelationshipTypeName::Extends,
            vec![parent_a, parent_b],
        )?;

        let descriptor = HolonDescriptor::from_holon(child);

        assert!(matches!(
            descriptor.afforded_commands(&g),
            Err(HolonError::MultipleExtends { count, .. }) if count == 2
        ));

        Ok(())
    }

    #[test]
    fn get_property_by_name_detects_duplicate_inherited_declarations() -> Result<(), HolonError> {
        let mut g = build_context();
        let duplicate_root = new_holon_type_descriptor(&mut g, "duplicate-root", "DuplicateProperty")?;
        let duplicate_leaf = new_holon_type_descriptor(&mut g, "duplicate-leaf", "DuplicateProperty")?;
        let mut root = new_holon_type_descriptor(&mut g, "duplicate-root-type", "RootType")?;
        let mut leaf = new_holon_type_descriptor(&mut g, "duplicate-leaf-type", "LeafType")?;

        add_related(&mut g, root, 
            CoreRelationshipTypeName::InstanceProperties,
            vec![duplicate_root],
        )?;
        add_related(&mut g, leaf, CoreRelationshipTypeName::Extends, vec![root])?;
        add_related(&mut g, leaf, 
            CoreRelationshipTypeName::InstanceProperties,
            vec![duplicate_leaf],
        )?;

        let descriptor = HolonDescriptor::from_holon(leaf);

        assert!(matches!(
            descriptor.get_property_by_name(&g, "DuplicateProperty"),
            Err(HolonError::DuplicateInheritedDeclaration { kind, name, .. })
                if kind == "property" && name == "DuplicateProperty"
        ));

        Ok(())
    }

    #[test]
    fn get_relationship_by_name_detects_duplicate_inherited_declarations() -> Result<(), HolonError>
    {
        let mut g = build_context();
        let duplicate_root =
            new_holon_type_descriptor(&mut g, "duplicate-root-rel", "DuplicateRelationship")?;
        let duplicate_leaf =
            new_holon_type_descriptor(&mut g, "duplicate-leaf-rel", "DuplicateRelationship")?;
        let mut root = new_holon_type_descriptor(&mut g, "duplicate-root-rel-type", "RootType")?;
        let mut leaf = new_holon_type_descriptor(&mut g, "duplicate-leaf-rel-type", "LeafType")?;

        add_related(&mut g, root, 
            CoreRelationshipTypeName::InstanceRelationships,
            vec![duplicate_root],
        )?;
        add_related(&mut g, leaf, CoreRelationshipTypeName::Extends, vec![root])?;
        add_related(&mut g, leaf, 
            CoreRelationshipTypeName::InstanceRelationships,
            vec![duplicate_leaf],
        )?;

        let descriptor = HolonDescriptor::from_holon(leaf);

        assert!(matches!(
            descriptor.get_relationship_by_name(&g, "DuplicateRelationship"),
            Err(HolonError::DuplicateInheritedDeclaration { kind, name, .. })
                if kind == "relationship" && name == "DuplicateRelationship"
        ));

        Ok(())
    }

    #[test]
    fn get_relationship_by_name_returns_match_and_reports_missing() -> Result<(), HolonError> {
        let mut g = build_context();
        let relationship = new_holon_type_descriptor(&mut g, "relationship-match", "AuthoredBy")?;
        let mut holon_type = new_holon_type_descriptor(&mut g, "relationship-owner", "BookType")?;
        add_related(&mut g, holon_type, 
            CoreRelationshipTypeName::InstanceRelationships,
            vec![relationship],
        )?;

        let descriptor = HolonDescriptor::from_holon(holon_type);

        assert_eq!(
            descriptor
                .get_relationship_by_name(&g, "AuthoredBy")?
                .base_relationship_name(&g)?.0 .0,
            "AuthoredBy"
        );
        assert!(matches!(
            descriptor.get_relationship_by_name(&g, "Missing"),
            Err(HolonError::DescriptorDeclarationNotFound { kind, name, .. })
                if kind == "relationship" && name == "Missing"
        ));

        Ok(())
    }

    #[test]
    fn get_inverse_relationship_by_name_follows_declared_inverse() -> Result<(), HolonError> {
        let mut g = build_context();
        let declared_type = new_holon_type_descriptor(
            &mut g,
            "declared-type",
            &core_holon_type_name(CoreHolonTypeName::DeclaredRelationshipType),
        )?;
        let inverse_type = new_holon_type_descriptor(
            &mut g,
            "inverse-type",
            &core_holon_type_name(CoreHolonTypeName::InverseRelationshipType),
        )?;
        let mut declared = new_holon_type_descriptor(&mut g, "authored-by", "AuthoredBy")?;
        add_related(&mut g, declared, CoreRelationshipTypeName::Extends, vec![declared_type])?;
        let mut inverse = new_holon_type_descriptor(&mut g, "books-authored", "BooksAuthored")?;
        add_related(&mut g, inverse, CoreRelationshipTypeName::Extends, vec![inverse_type])?;
        add_related(&mut g, declared, CoreRelationshipTypeName::HasInverse, vec![inverse])?;
        let mut holon_type = new_holon_type_descriptor(&mut g, "book-type-with-inverse", "BookType")?;
        add_related(&mut g, holon_type, 
            CoreRelationshipTypeName::InstanceRelationships,
            vec![declared],
        )?;

        let descriptor = HolonDescriptor::from_holon(holon_type);

        assert_eq!(
            descriptor
                .get_inverse_relationship_by_name(&g, "AuthoredBy")?
                .header()
                .declared_type_name(&g)?,
            MapString::from_str("BooksAuthored")
        );

        Ok(())
    }

    #[test]
    fn get_inverse_relationship_by_name_errors_when_inverse_missing() -> Result<(), HolonError> {
        let mut g = build_context();
        let declared_type = new_holon_type_descriptor(
            &mut g,
            "declared-type-missing-inverse",
            &core_holon_type_name(CoreHolonTypeName::DeclaredRelationshipType),
        )?;
        let mut declared =
            new_holon_type_descriptor(&mut g, "declared-no-inverse", "DeclaredNoInverse")?;
        add_related(&mut g, declared, CoreRelationshipTypeName::Extends, vec![declared_type])?;
        let mut holon_type =
            new_holon_type_descriptor(&mut g, "book-type-missing-inverse", "BookType")?;
        add_related(&mut g, holon_type, 
            CoreRelationshipTypeName::InstanceRelationships,
            vec![declared],
        )?;

        let descriptor = HolonDescriptor::from_holon(holon_type);

        assert!(matches!(
            descriptor.get_inverse_relationship_by_name(&g, "DeclaredNoInverse"),
            Err(HolonError::MissingRequiredRelationship { relationship, .. })
                if relationship == "HasInverse"
        ));

        Ok(())
    }
