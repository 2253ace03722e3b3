#![allow(dead_code, unused_imports, unused_mut, unused_variables)]
use holons_core::error::HolonError;
use holons_core::graph::{HolonGraph, HolonPhase, HolonReference};
use holons_core::names::{CoreHolonTypeName, CorePropertyTypeName, CoreRelationshipTypeName};
use holons_core::values::{BaseValue, MapBoolean, MapBytes, MapEnumValue, MapInteger, MapString, PropertyName, RelationshipName};

fn build_context() -> HolonGraph {
    HolonGraph::new()
}

fn new_test_holon(g: &mut HolonGraph, key: &str) -> Result<HolonReference, HolonError> {
    Ok(g.new_holon(HolonPhase::Transient, Some(MapString::from_str(key))))
}

fn set_property(
    g: &mut HolonGraph,
    holon: HolonReference,
    name: CorePropertyTypeName,
    value: BaseValue,
) -> Result<(), HolonError> {
    g.with_property_value(holon, name.as_property_name(), value)
}

fn add_related(
    g: &mut HolonGraph,
    holon: HolonReference,
    rel: CoreRelationshipTypeName,
    targets: Vec<HolonReference>,
) -> Result<(), HolonError> {
    g.add_related_holons(holon, rel.as_relationship_name(), targets)
}

fn new_descriptor_holon_in(
    g: &mut HolonGraph,
    phase: HolonPhase,
    key: &str,
    tname: &str,
) -> Result<HolonReference, HolonError> {
    let holon = g.new_holon(phase, Some(MapString::from_str(key)));
    set_property(g, holon, CorePropertyTypeName::TypeName, BaseValue::string(tname))?;
    set_property(g, holon, CorePropertyTypeName::IsAbstractType, BaseValue::boolean(false))?;
    Ok(holon)
}

fn new_descriptor_holon(
    g: &mut HolonGraph,
    key: &str,
    tname: &str,
    _descriptor_family: &str,
) -> Result<HolonReference, HolonError> {
    new_descriptor_holon_in(g, HolonPhase::Transient, key, tname)
}

fn core_holon_type_name(name: CoreHolonTypeName) -> String {
    name.as_holon_name().0
}

fn set_named(g: &mut HolonGraph, holon: HolonReference, name: &str, value: BaseValue) -> Result<(), HolonError> {
    g.with_property_value(holon, PropertyName::from_str(name), value)
}

fn with_descriptor(g: &mut HolonGraph, holon: HolonReference, descriptor: HolonReference) -> Result<(), HolonError> {
    add_related(g, holon, CoreRelationshipTypeName::DescribedBy, vec![descriptor])
}

fn stage_descriptor_holon(g: &mut HolonGraph, key: &str, tname: &str) -> Result<HolonReference, HolonError> {
    new_descriptor_holon_in(g, HolonPhase::Staged, key, tname)
}

trait IntoBaseValue {
    fn into_base(self) -> BaseValue;
}

impl IntoBaseValue for &str {
    fn into_base(self) -> BaseValue {
        BaseValue::string(self)
    }
}

impl IntoBaseValue for String {
    fn into_base(self) -> BaseValue {
        BaseValue::StringValue(MapString(self))
    }
}

impl IntoBaseValue for bool {
    fn into_base(self) -> BaseValue {
        BaseValue::boolean(self)
    }
}

impl IntoBaseValue for i64 {
    fn into_base(self) -> BaseValue {
        BaseValue::integer(self)
    }
}

impl IntoBaseValue for BaseValue {
    fn into_base(self) -> BaseValue {
        self
    }
}

impl IntoBaseValue for MapEnumValue {
    fn into_base(self) -> BaseValue {
        BaseValue::EnumValue(self)
    }
}

impl IntoBaseValue for MapString {
    fn into_base(self) -> BaseValue {
        BaseValue::StringValue(self)
    }
}

impl IntoBaseValue for MapInteger {
    fn into_base(self) -> BaseValue {
        BaseValue::IntegerValue(self)
    }
}

impl IntoBaseValue for MapBoolean {
    fn into_base(self) -> BaseValue {
        BaseValue::BooleanValue(self)
    }
}

impl IntoBaseValue for i32 {
    fn into_base(self) -> BaseValue {
        BaseValue::integer(self as i64)
    }
}

trait IntoPropertyName {
    fn into_property(self) -> PropertyName;
}

impl IntoPropertyName for CorePropertyTypeName {
    fn into_property(self) -> PropertyName {
        self.as_property_name()
    }
}

impl IntoPropertyName for &str {
    fn into_property(self) -> PropertyName {
        PropertyName::from_str(self)
    }
}

impl IntoPropertyName for PropertyName {
    fn into_property(self) -> PropertyName {
        self
    }
}

fn setp<N: IntoPropertyName, V: IntoBaseValue>(
    g: &mut HolonGraph,
    holon: HolonReference,
    name: N,
    value: V,
) -> Result<(), HolonError> {
    g.with_property_value(holon, name.into_property(), value.into_base())
}

fn getp<N: IntoPropertyName>(g: &HolonGraph, holon: HolonReference, name: N) -> Result<Option<BaseValue>, HolonError> {
    g.property_value(holon, &name.into_property())
}

fn new_holon_type_descriptor(g: &mut HolonGraph, key: &str, tname: &str) -> Result<HolonReference, HolonError> {
    let descriptor = new_descriptor_holon(g, key, tname, "Holon")?;
    setp(g, descriptor, CorePropertyTypeName::AllowsAdditionalProperties, false)?;
    setp(g, descriptor, CorePropertyTypeName::AllowsAdditionalRelationships, false)?;
    Ok(descriptor)
}

fn new_property_descriptor_holon(
    g: &mut HolonGraph,
    key: &str,
    tname: &str,
    is_required: bool,
    value_type: HolonReference,
) -> Result<HolonReference, HolonError> {
    let descriptor = new_descriptor_holon(g, key, tname, "Property")?;
    setp(g, descriptor, CorePropertyTypeName::IsValueRequired, is_required)?;
    add_related(g, descriptor, CoreRelationshipTypeName::ValueType, vec![value_type])?;
    Ok(descriptor)
}

fn new_relationship_descriptor_holon(
    g: &mut HolonGraph,
    key: &str,
    tname: &str,
    source_type: HolonReference,
    target_type: HolonReference,
) -> Result<HolonReference, HolonError> {
    let descriptor = new_descriptor_holon(g, key, tname, "Relationship")?;
    setp(g, descriptor, CorePropertyTypeName::IsDefinitional, false)?;
    setp(g, descriptor, CorePropertyTypeName::IsOrdered, false)?;
    setp(g, descriptor, CorePropertyTypeName::AllowsDuplicates, false)?;
    add_related(g, descriptor, CoreRelationshipTypeName::SourceType, vec![source_type])?;
    add_related(g, descriptor, CoreRelationshipTypeName::TargetType, vec![target_type])?;
    Ok(descriptor)
}

fn new_declared_relationship_type_descriptor(g: &mut HolonGraph, key: &str) -> Result<HolonReference, HolonError> {
    new_descriptor_holon(g, key, &core_holon_type_name(CoreHolonTypeName::DeclaredRelationshipType), "Relationship")
}

fn new_declared_relationship_descriptor_holon(
    g: &mut HolonGraph,
    key: &str,
    tname: &str,
    source_type: HolonReference,
    target_type: HolonReference,
) -> Result<HolonReference, HolonError> {
    let descriptor = new_relationship_descriptor_holon(g, key, tname, source_type, target_type)?;
    let declared_type = new_declared_relationship_type_descriptor(g, &format!("{key}-declared-relationship-type"))?;
    let declared_type = g.stage_new_holon(declared_type)?;
    add_related(g, descriptor, CoreRelationshipTypeName::Extends, vec![declared_type])?;
    Ok(descriptor)
}

trait ToText {
    fn text(&self) -> String;
}

impl ToText for MapString {
    fn text(&self) -> String {
        self.0.clone()
    }
}

impl ToText for RelationshipName {
    fn text(&self) -> String {
        self.0 .0.clone()
    }
}

impl ToText for PropertyName {
    fn text(&self) -> String {
        self.0 .0.clone()
    }
}

fn rn(name: &str) -> RelationshipName {
    RelationshipName(MapString(holons_core::names::to_type_case(name)))
}

use holons_core::descriptor::Descriptor;
use holons_core::command_descriptor::CommandDescriptor;
use holons_core::dance_descriptor::DanceDescriptor;
use holons_core::graph::Holon;
use holons_core::holon_descriptor::HolonDescriptor;
use holons_core::holon_space_descriptor::HolonSpaceDescriptor;
use holons_core::relationship_descriptor::RelationshipDescriptor;
use holons_core::transaction_descriptor::TransactionDescriptor;

fn assert_descriptor<T: Descriptor>(descriptor: &T) {
    // Compile-time trait membership plus one trivial runtime use.
    let _ = descriptor.holon();
}

fn command_type(
    g: &mut HolonGraph,
    key: &str,
    command_name: &str,
) -> Result<HolonReference, HolonError> {
    new_descriptor_holon(g, key, command_name, "Holon")
}

fn command_names(g: &HolonGraph, commands: Vec<CommandDescriptor>) -> Result<Vec<MapString>, HolonError> {
    commands.into_iter().map(|command| command.command_name(g)).collect()
}

fn dance_names(g: &HolonGraph, dances: Vec<DanceDescriptor>) -> Result<Vec<MapString>, HolonError> {
    dances.into_iter().map(|dance| dance.dance_name(g)).collect()
}

#[test]
fn descriptor_wrappers_compose_over_minimal_schema_shaped_graph() -> Result<(), HolonError> {
    let mut g = build_context();

    let value_type =
        new_descriptor_holon(&mut g, "string-value-type", "StringValueType", "Value")?;
    let property = titled_property_descriptor(
        &mut g,
        "title-property",
        "TitleProperty",
        "Title",
        true,
        value_type,
    )?;
    let mut book = new_holon_type_descriptor(&mut g, "book-type", "BookType")?;
    let author = new_holon_type_descriptor(&mut g, "author-type", "AuthorType")?;

    let declared_type = new_descriptor_holon(&mut g,
        "declared-relationship-type",
        &core_holon_type_name(CoreHolonTypeName::DeclaredRelationshipType),
        "Relationship",
    )?;
    let inverse_type = new_descriptor_holon(&mut g,
        "inverse-relationship-type",
        &core_holon_type_name(CoreHolonTypeName::InverseRelationshipType),
        "Relationship",
    )?;
    let mut authored_by = new_relationship_descriptor_holon(&mut g,
        "authored-by",
        "AuthoredBy",
        book,
        author,
    )?;
    add_related(&mut g, authored_by, 
        CoreRelationshipTypeName::Extends,
        vec![declared_type],
    )?;
    let mut books_authored = new_relationship_descriptor_holon(&mut g,
        "books-authored",
        "BooksAuthored",
        author,
        book,
    )?;
    add_related(&mut g, books_authored, 
        CoreRelationshipTypeName::Extends,
        vec![inverse_type],
    )?;
    add_related(&mut g, authored_by, 
        CoreRelationshipTypeName::HasInverse,
        vec![books_authored],
    )?;

    add_related(&mut g, book, 
        CoreRelationshipTypeName::InstanceProperties,
        vec![property],
    )?;
    add_related(&mut g, book, 
        CoreRelationshipTypeName::Properties,
        vec![property],
    )?;
    add_related(&mut g, book, 
        CoreRelationshipTypeName::InstanceRelationships,
        vec![authored_by],
    )?;

    let book_descriptor = HolonDescriptor::from_holon(book);
    let title_property = book_descriptor
        .get_property_by_name(&g, "TitleProperty")?;
    let declared_relationship = book_descriptor
        .get_relationship_by_name(&g, "AuthoredBy")?
        .try_into_declared_relationship_descriptor(&g)?;
    let inverse_relationship = declared_relationship.required_inverse(&g)?;

    assert_eq!(book_descriptor.instance_properties(&g)?.len(), 1);
    assert_eq!(book_descriptor.properties(&g)?.len(), 1);
    assert_eq!(title_property.property_name(&g)?.text(), "Title");
    assert_eq!(
        title_property.value_type(&g)?.header().declared_type_name(&g)?,
        MapString::from_str("StringValueType")
    );
    assert_eq!(
        declared_relationship.full_relationship_name(&g)?,
        MapString::from_str("(BookType)-[AuthoredBy]->(AuthorType)")
    );
    assert_eq!(
        inverse_relationship.full_relationship_name(&g)?,
        MapString::from_str("(AuthorType)-[BooksAuthored]->(BookType)")
    );
    assert_eq!(
        RelationshipDescriptor::from_holon(books_authored)
            .try_into_inverse_relationship_descriptor(&g)?
            .header()
            .declared_type_name(&g)?,
        MapString::from_str("BooksAuthored")
    );

    Ok(())
}

#[test]
fn declared_relationship_requires_exactly_one_has_inverse_target() -> Result<(), HolonError> {
    let mut g = build_context();
    let declared_type = new_descriptor_holon(&mut g,
        "declared-relationship-type-required-inverse",
        &core_holon_type_name(CoreHolonTypeName::DeclaredRelationshipType),
        "Relationship",
    )?;
    let inverse_type = new_descriptor_holon(&mut g,
        "inverse-relationship-type-required-inverse",
        &core_holon_type_name(CoreHolonTypeName::InverseRelationshipType),
        "Relationship",
    )?;
    let book = new_holon_type_descriptor(&mut g, "book-type-required-inverse", "BookType")?;
    let author = new_holon_type_descriptor(&mut g, "author-type-required-inverse", "AuthorType")?;

    let mut authored_by = new_relationship_descriptor_holon(&mut g,
        "authored-by-missing-inverse",
        "AuthoredBy",
        book,
        author,
    )?;
    add_related(&mut g, authored_by, 
        CoreRelationshipTypeName::Extends,
        vec![declared_type],
    )?;
    let descriptor = RelationshipDescriptor::from_holon(authored_by)
        .try_into_declared_relationship_descriptor(&g)?;

    assert!(matches!(
        descriptor.required_inverse(&g),
        Err(HolonError::MissingRequiredRelationship { relationship, .. })
            if relationship == "HasInverse"
    ));

    let mut inverse_a = new_relationship_descriptor_holon(&mut g,
        "books-authored-a",
        "BooksAuthoredA",
        author,
        book,
    )?;
    add_related(&mut g, inverse_a, 
        CoreRelationshipTypeName::Extends,
        vec![inverse_type],
    )?;
    let mut inverse_b = new_relationship_descriptor_holon(&mut g,
        "books-authored-b",
        "BooksAuthoredB",
        author,
        book,
    )?;
    add_related(&mut g, inverse_b, 
        CoreRelationshipTypeName::Extends,
        vec![inverse_type],
    )?;
    let mut authored_by_multiple = new_relationship_descriptor_holon(&mut g,
        "authored-by-multiple-inverses",
        "AuthoredBy",
        book,
        author,
    )?;
    add_related(&mut g, authored_by_multiple, 
        CoreRelationshipTypeName::Extends,
        vec![declared_type],
    )?;
    add_related(&mut g, authored_by_multiple, 
        CoreRelationshipTypeName::HasInverse,
        vec![inverse_a, inverse_b],
    )?;
    let descriptor =
        RelationshipDescriptor::from_holon(authored_by_multiple)
            .try_into_declared_relationship_descriptor(&g)?;

    assert!(matches!(
        descriptor.required_inverse(&g),
        Err(HolonError::MultipleRelatedHolons { relationship, count, .. })
            if relationship == "HasInverse" && count == 2
    ));

    Ok(())
}

#[test]
fn declared_relationship_has_inverse_target_must_be_inverse_relationship_type(
) -> Result<(), HolonError> {
    let mut g = build_context();
    let declared_type = new_descriptor_holon(&mut g,
        "declared-relationship-type-inverse-kind",
        &core_holon_type_name(CoreHolonTypeName::DeclaredRelationshipType),
        "Relationship",
    )?;
    let book = new_holon_type_descriptor(&mut g, "book-type-inverse-kind", "BookType")?;
    let author = new_holon_type_descriptor(&mut g, "author-type-inverse-kind", "AuthorType")?;

    let mut wrong_kind_target = new_relationship_descriptor_holon(&mut g,
        "wrong-kind-has-inverse-target",
        "WrongKindTarget",
        author,
        book,
    )?;
    add_related(&mut g, wrong_kind_target, 
        CoreRelationshipTypeName::Extends,
        vec![declared_type],
    )?;

    let mut authored_by = new_relationship_descriptor_holon(&mut g,
        "authored-by-wrong-inverse-kind",
        "AuthoredBy",
        book,
        author,
    )?;
    add_related(&mut g, authored_by, 
        CoreRelationshipTypeName::Extends,
        vec![declared_type],
    )?;
    add_related(&mut g, authored_by, 
        CoreRelationshipTypeName::HasInverse,
        vec![wrong_kind_target],
    )?;

    let descriptor = RelationshipDescriptor::from_holon(authored_by)
        .try_into_declared_relationship_descriptor(&g)?;

    assert!(matches!(
        descriptor.required_inverse(&g),
        Err(HolonError::WrongDescriptorKind { expected, found, .. })
            if expected == core_holon_type_name(CoreHolonTypeName::InverseRelationshipType)
                && found == "WrongKindTarget"
    ));

    Ok(())
}

#[test]
fn holon_space_descriptor_returns_single_transaction_model() -> Result<(), HolonError> {
    let mut g = build_context();
    let mut holon_space = new_holon_type_descriptor(&mut g, "holon-space-type", "HolonSpace")?;
    let transaction_type = new_holon_type_descriptor(&mut g, "transaction-type", "Transaction")?;

    add_related(&mut g, holon_space, 
        CoreRelationshipTypeName::AffordsTransactionModel,
        vec![transaction_type],
    )?;

    let holon_space_descriptor = HolonSpaceDescriptor::from_holon(holon_space);
    let transaction_descriptor = holon_space_descriptor.transaction_model(&g)?;

    assert_descriptor(&holon_space_descriptor);
    assert_descriptor(&transaction_descriptor);
    assert_eq!(transaction_descriptor.header().declared_type_name(&g)?, MapString::from_str("Transaction"));

    Ok(())
}

#[test]
fn transaction_model_errors_when_required_relationship_is_missing() -> Result<(), HolonError> {
    let mut g = build_context();
    let holon_space = new_holon_type_descriptor(&mut g, "missing-model", "HolonSpace")?;
    let holon_space_descriptor = HolonSpaceDescriptor::from_holon(holon_space);

    assert!(matches!(
        holon_space_descriptor.transaction_model(&g),
        Err(HolonError::MissingRequiredRelationship { relationship, .. })
            if relationship == "AffordsTransactionModel"
    ));

    Ok(())
}

#[test]
fn transaction_model_errors_when_multiple_models_are_related() -> Result<(), HolonError> {
    let mut g = build_context();
    let mut holon_space = new_holon_type_descriptor(&mut g, "multiple-models", "HolonSpace")?;
    let transaction_type_a =
        new_holon_type_descriptor(&mut g, "transaction-type-a", "Transaction")?;
    let transaction_type_b =
        new_holon_type_descriptor(&mut g, "transaction-type-b", "Transaction")?;

    add_related(&mut g, holon_space, 
        CoreRelationshipTypeName::AffordsTransactionModel,
        vec![transaction_type_a, transaction_type_b],
    )?;

    let holon_space_descriptor = HolonSpaceDescriptor::from_holon(holon_space);

    assert!(matches!(
        holon_space_descriptor.transaction_model(&g),
        Err(HolonError::MultipleRelatedHolons {
            relationship,
            count,
            ..
        }) if relationship == "AffordsTransactionModel" && count == 2
    ));

    Ok(())
}

#[test]
fn transaction_descriptor_afforded_commands_returns_flattened_command_set() -> Result<(), HolonError>
{
    let mut g = build_context();
    let inherited_command =
        command_type(&mut g, "inherited-commit-command", "Commit")?;
    let local_command =
        command_type(&mut g, "local-staged-count-command", "GetStagedCount")?;
    let mut parent = new_holon_type_descriptor(&mut g, "transaction-parent", "ParentType")?;
    let mut transaction_type =
        new_holon_type_descriptor(&mut g, "transaction-command-owner", "Transaction")?;

    add_related(&mut g, parent, 
        CoreRelationshipTypeName::AffordsCommand,
        vec![inherited_command],
    )?;
    add_related(&mut g, transaction_type, CoreRelationshipTypeName::Extends, vec![parent])?;
    add_related(&mut g, transaction_type, CoreRelationshipTypeName::AffordsCommand, vec![local_command])?;

    let transaction_descriptor = TransactionDescriptor::from_holon(transaction_type);

    assert_eq!(
        command_names(&g, transaction_descriptor.afforded_commands(&g)?)?,
        vec![
            MapString::from_str("GetStagedCount"),
            MapString::from_str("Commit"),
        ]
    );

    Ok(())
}

#[test]
fn transaction_descriptor_get_command_by_core_name_resolves_commit() -> Result<(), HolonError> {
    let mut g = build_context();
    let command = command_type(&mut g, "commit-command", "Commit")?;
    let mut transaction_type =
        new_holon_type_descriptor(&mut g, "transaction-with-commit", "Transaction")?;

    add_related(&mut g, transaction_type, CoreRelationshipTypeName::AffordsCommand, vec![command])?;

    let transaction_descriptor = TransactionDescriptor::from_holon(transaction_type);

    assert_eq!(
        transaction_descriptor.get_command_by_name(&g, "Commit")?.command_name(&g)?,
        MapString::from_str("Commit")
    );

    Ok(())
}

#[test]
fn transaction_descriptor_get_command_by_string_canonicalizes_name() -> Result<(), HolonError> {
    let mut g = build_context();
    let command =
        command_type(&mut g, "get-staged-count-command", "GetStagedCount")?;
    let mut transaction_type =
        new_holon_type_descriptor(&mut g, "transaction-with-staged-count", "Transaction")?;

    add_related(&mut g, transaction_type, CoreRelationshipTypeName::AffordsCommand, vec![command])?;

    let transaction_descriptor = TransactionDescriptor::from_holon(transaction_type);

    assert_eq!(
        transaction_descriptor.get_command_by_name(&g, "get_staged_count")?.command_name(&g)?,
        MapString::from_str("GetStagedCount")
    );

    Ok(())
}

#[test]
fn transaction_descriptor_get_command_by_name_detects_duplicate_inherited_declarations(
) -> Result<(), HolonError> {
    let mut g = build_context();
    let inherited_command =
        command_type(&mut g, "inherited-duplicate-command", "Commit")?;
    let local_command =
        command_type(&mut g, "local-duplicate-command", "Commit")?;
    let mut parent =
        new_holon_type_descriptor(&mut g, "duplicate-transaction-parent", "ParentType")?;
    let mut transaction_type =
        new_holon_type_descriptor(&mut g, "duplicate-transaction-type", "Transaction")?;

    add_related(&mut g, parent, 
        CoreRelationshipTypeName::AffordsCommand,
        vec![inherited_command],
    )?;
    add_related(&mut g, transaction_type, CoreRelationshipTypeName::Extends, vec![parent])?;
    add_related(&mut g, transaction_type, CoreRelationshipTypeName::AffordsCommand, vec![local_command])?;

    let transaction_descriptor = TransactionDescriptor::from_holon(transaction_type);

    assert!(matches!(
        transaction_descriptor.get_command_by_name(&g, "Commit"),
        Err(HolonError::DuplicateInheritedDeclaration { kind, name, .. })
            if kind == "command" && name == "Commit"
    ));

    Ok(())
}

#[test]
fn transaction_descriptor_get_command_by_name_reports_missing_command() -> Result<(), HolonError> {
    let mut g = build_context();
    let command =
        command_type(&mut g, "get-staged-count-command", "GetStagedCount")?;
    let mut transaction_type =
        new_holon_type_descriptor(&mut g, "transaction-missing-command", "Transaction")?;

    add_related(&mut g, transaction_type, CoreRelationshipTypeName::AffordsCommand, vec![command])?;

    let transaction_descriptor = TransactionDescriptor::from_holon(transaction_type);

    assert!(matches!(
        transaction_descriptor.get_command_by_name(&g, "Commit"),
        Err(HolonError::DescriptorDeclarationNotFound { kind, name, .. })
            if kind == "command" && name == "Commit"
    ));

    Ok(())
}

#[test]
fn dance_descriptor_afforded_dances_return_flattened_dance_set() -> Result<(), HolonError> {
    let mut g = build_context();
    let inherited_dance =
        new_descriptor_holon(&mut g, "inherited-query-dance", "Query", "Holon")?;
    let local_dance = new_descriptor_holon(&mut g, "local-dance", "Dance", "Holon")?;
    let mut parent = new_holon_type_descriptor(&mut g, "dance-parent", "ParentType")?;
    let mut dance_type = new_holon_type_descriptor(&mut g, "dance-owner", "DanceType")?;

    add_related(&mut g, parent, CoreRelationshipTypeName::Affords, vec![inherited_dance])?;
    add_related(&mut g, dance_type, CoreRelationshipTypeName::Extends, vec![parent])?;
    add_related(&mut g, dance_type, CoreRelationshipTypeName::Affords, vec![local_dance])?;

    let dance_descriptor = HolonDescriptor::from_holon(dance_type);

    assert_eq!(
        dance_names(&g, dance_descriptor.afforded_dances(&g)?)?,
        vec![
            MapString::from_str("Dance"),
            MapString::from_str("Query"),
        ]
    );

    Ok(())
}

#[test]
fn dance_descriptor_get_dance_by_name_resolves_type_name() -> Result<(), HolonError> {
    let mut g = build_context();
    let dance = new_descriptor_holon(&mut g, "commit-dance", "Commit", "Holon")?;
    let mut dance_type = new_holon_type_descriptor(&mut g, "dance-with-commit", "DanceType")?;

    add_related(&mut g, dance_type, CoreRelationshipTypeName::Affords, vec![dance])?;

    let dance_descriptor = HolonDescriptor::from_holon(dance_type);

    assert_eq!(
        dance_descriptor.get_dance_by_name(&g, "commit")?.dance_name(&g)?,
        MapString::from_str("Commit")
    );

    Ok(())
}

#[test]
fn dance_descriptor_get_dance_by_name_errors_when_duplicate_inherited_declarations_exist(
) -> Result<(), HolonError> {
    let mut g = build_context();
    let duplicate_root = new_descriptor_holon(&mut g, "duplicate-root-dance", "Query", "Holon")?;
    let duplicate_leaf = new_descriptor_holon(&mut g, "duplicate-leaf-dance", "Query", "Holon")?;
    let mut root = new_holon_type_descriptor(&mut g, "duplicate-dance-root", "ParentType")?;
    let mut leaf = new_holon_type_descriptor(&mut g, "duplicate-dance-leaf", "DanceType")?;

    add_related(&mut g, root, CoreRelationshipTypeName::Affords, vec![duplicate_root])?;
    add_related(&mut g, leaf, CoreRelationshipTypeName::Extends, vec![root])?;
    add_related(&mut g, leaf, CoreRelationshipTypeName::Affords, vec![duplicate_leaf])?;

    let dance_descriptor = HolonDescriptor::from_holon(leaf);

    assert!(matches!(
        dance_descriptor.get_dance_by_name(&g, "Query"),
        Err(HolonError::DuplicateInheritedDeclaration { kind, name, .. })
            if kind == "dance" && name == "Query"
    ));

    Ok(())
}

fn titled_property_descriptor(
    g: &mut HolonGraph,
    key: &str,
    tname: &str,
    property_name: &str,
    is_required: bool,
    value_type: HolonReference,
) -> Result<HolonReference, HolonError> {
    let descriptor = new_property_descriptor_holon(g, key, tname, is_required, value_type)?;
    setp(g, descriptor, CorePropertyTypeName::PropertyName, property_name)?;
    Ok(descriptor)
}
