//! Descriptor semantics over an in-memory holon graph.
pub mod accessor_helpers;
pub mod assessment_reader;
pub mod command_descriptor;
pub mod constraint_applicability;
pub mod constraint_contributions;
pub mod contract_contributions;
pub mod dance_descriptor;
pub mod dance_response_descriptor;
pub mod declared_relationship_descriptor;
pub mod definition_identity;
pub mod descriptor;
pub mod effective_properties;
pub mod effective_relationships;
pub mod error;
pub mod graph;
pub mod holon_descriptor;
pub mod holon_space_descriptor;
pub mod inheritance;
pub mod inverse_relationship_descriptor;
pub mod inverse_resolution;
pub mod key_rule_descriptor;
pub mod kind_semantics;
pub mod names;
pub mod operator_category;
pub mod operator_descriptor;
pub mod property_descriptor;
pub mod relationship_descriptor;
pub mod relationship_normalization;
pub mod relationship_traversal;
pub mod resolved_descriptor_roots;
pub mod source_relationship_contract;
pub mod schema_ownership;
pub mod selected_lineage;
pub mod structural_diagnosis;
pub mod transaction_descriptor;
pub mod type_header;
pub mod universal_descriptor_contract;
pub mod value_descriptor;
pub mod value_descriptor_subtypes;
pub mod values;
