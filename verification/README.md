# holons_core descriptors

Descriptor semantics for a holon graph, verified with Verus.

Holons live in an in-memory `HolonGraph` (`src/graph.rs`): saved, staged and
transient holons with keys, properties and ordered relationships, and the
ancestry of staged updates. Every read takes the graph explicitly, and every
public function states its result over the mathematical view of the graph
(`Seq<HolonView>`).

Layout of `src/`:

- `graph.rs`, `values.rs`, `names.rs`, `error.rs`: the graph, base values,
  core type names and errors.
- `descriptor.rs`, `type_header.rs`, `holon_descriptor.rs`,
  `property_descriptor.rs`, `relationship_descriptor.rs`, the value, operator,
  command, dance and transaction descriptors: typed views of descriptor holons.
- `inheritance.rs`: `Extends` lineages and the kernel's inheritance rules.
- `effective_relationships.rs`, `effective_properties.rs`,
  `relationship_normalization.rs`, `relationship_traversal.rs`,
  `inverse_resolution.rs`, `source_relationship_contract.rs`: effective
  declarations, navigation and inverse resolution.
- `structural_diagnosis.rs`, `kind_semantics.rs`, `schema_ownership.rs`,
  `constraint_applicability.rs`, `constraint_contributions.rs`,
  `contract_contributions.rs`, `universal_descriptor_contract.rs`,
  `resolved_descriptor_roots.rs`: structural products of commit assessment.
- `assessment_reader.rs`, `selected_lineage.rs`: descriptor readers that
  select authoritative content for an assessment of pending changes, and the
  lineage reads made through them.

Public proof functions named `law_*` state the properties that hold across
calls: read-after-write on the graph, lineage facts, and that reading through
`CurrentDescriptorReader` gives exactly the ordinary reads.

`tests/` holds the executable tests; run them with the crate's test harness.
