//! Runtime wrapper for key-rule descriptors.
use crate::accessor_helpers::{first_expected_member, lemma_first_named, require_single_related, require_string, search_extends_chain, spec_require_bool, spec_require_single_related, spec_require_string, spec_search_extends};
use crate::descriptor::Descriptor;
use crate::error::{rview, ErrorView, HolonError};
use crate::graph::{HolonGraph, HolonReference, HolonView};
use crate::inheritance::spec_walk;
use crate::names::{CorePropertyTypeName, CoreRelationshipTypeName};
use crate::type_header::{spec_type_name, TypeHeader};
use crate::values::MapString;
use vstd::prelude::*;
use vstd::string::*;

verus! {

/// Whether the lineage of `r` reaches a descriptor named `expected`; other
/// structural errors are reported.
pub open spec fn spec_extends_type_name(g: Seq<HolonView>, r: HolonReference, expected: Seq<char>) -> Result<
    bool,
    ErrorView,
> {
    match spec_search_extends(g, r, seq![expected]) {
        Ok(_) => Ok(true),
        Err(ErrorView::WrongDescriptorKind { .. }) => Ok(false),
        Err(e) => Err(e),
    }
}

/// The canonical key of a configured constraint instance: `ConstraintName.ConstraintTypeName`.
///
/// The key rule must extend `ConstraintInstanceRule`; the constraint's direct
/// describing type must extend `ConstraintType` and be concrete.
pub open spec fn spec_derive_constraint_instance_key(g: Seq<HolonView>, rule: HolonReference, constraint: HolonReference) -> Result<
    Seq<char>,
    ErrorView,
> {
    match spec_extends_type_name(g, rule, "ConstraintInstanceRule"@) {
        Err(e) => Err(e),
        Ok(false) => match spec_type_name(g, rule) {
            Err(e) => Err(e),
            Ok(found) => Err(
                ErrorView::WrongDescriptorKind {
                    expected: "ConstraintInstanceRule"@,
                    found,
                    descriptor: rule,
                },
            ),
        },
        Ok(true) => match spec_require_string(g, constraint, CorePropertyTypeName::ConstraintName.spec_name()) {
            Err(e) => Err(e),
            Ok(constraint_name) => match spec_require_single_related(
                g,
                constraint,
                CoreRelationshipTypeName::DescribedBy,
            ) {
                Err(e) => Err(e),
                Ok(ct) => match spec_type_name(g, ct) {
                    Err(e) => Err(e),
                    Ok(ct_name) => match spec_extends_type_name(g, ct, "ConstraintType"@) {
                        Err(e) => Err(e),
                        Ok(false) => Err(
                            ErrorView::WrongDescriptorKind {
                                expected: "ConstraintType"@,
                                found: ct_name,
                                descriptor: ct,
                            },
                        ),
                        Ok(true) => match spec_require_bool(
                            g,
                            ct,
                            CorePropertyTypeName::IsAbstractType.spec_name(),
                        ) {
                            Err(e) => Err(e),
                            Ok(true) => Err(
                                ErrorView::WrongDescriptorKind {
                                    expected: "concrete ConstraintType"@,
                                    found: ct_name,
                                    descriptor: ct,
                                },
                            ),
                            Ok(false) => Ok(constraint_name + "."@ + ct_name),
                        },
                    },
                },
            },
        },
    }
}

/// Searches the lineage of `holon` for `expected`, mapping a plain miss to `false`.
pub fn extends_type_name(g: &HolonGraph, holon: HolonReference, expected: &str) -> (res: Result<bool, HolonError>)
    ensures
        rview(res) == spec_extends_type_name(g@, holon, expected@),
{
    let mut names: Vec<MapString> = Vec::new();
    names.push(MapString::from_str(expected));
    assert(names.deep_view() =~= seq![expected@]);
    match search_extends_chain(g, holon, &names) {
        Ok(_) => Ok(true),
        Err(HolonError::WrongDescriptorKind { .. }) => Ok(false),
        Err(e) => Err(e),
    }
}

/// Runtime wrapper for key-rule descriptors.
///
/// Key-rule identity is read from the descriptor holon's own `TypeName`/`Extends`
/// chain, so user-defined key-rule descriptors participate.
pub struct KeyRuleDescriptor {
    holon: HolonReference,
}

impl View for KeyRuleDescriptor {
    type V = HolonReference;

    closed spec fn view(&self) -> HolonReference {
        self.holon
    }
}

impl DeepView for KeyRuleDescriptor {
    type V = HolonReference;

    open spec fn deep_view(&self) -> HolonReference {
        self@
    }
}

impl Descriptor for KeyRuleDescriptor {
    open spec fn spec_holon(&self) -> HolonReference {
        self@
    }

    fn holon(&self) -> (r: HolonReference) {
        self.holon
    }
}

impl From<HolonReference> for KeyRuleDescriptor {
    fn from(holon: HolonReference) -> (d: Self)
        ensures
            d@ == holon,
    {
        Self { holon }
    }
}

impl vstd::std_specs::convert::FromSpecImpl<HolonReference> for KeyRuleDescriptor {
    open spec fn obeys_from_spec() -> bool {
        true
    }

    closed spec fn from_spec(v: HolonReference) -> Self {
        KeyRuleDescriptor { holon: v }
    }
}

impl KeyRuleDescriptor {
    /// Wraps an already-resolved descriptor holon reference.
    pub fn from_holon(holon: HolonReference) -> (d: Self)
        ensures
            d@ == holon,
    {
        Self { holon }
    }

    /// Projects the shared descriptor header view for this descriptor holon.
    pub fn header(&self) -> (h: TypeHeader)
        ensures
            h.holon == self@,
    {
        TypeHeader::new(self.holon)
    }

    /// Returns true when this descriptor resolves to the canonical `NoneRule`.
    pub fn is_keyless(&self, g: &HolonGraph) -> (res: Result<bool, HolonError>)
        ensures
            rview(res) == spec_extends_type_name(g@, self@, "NoneRule"@),
    {
        extends_type_name(g, self.holon, "NoneRule")
    }

    /// Returns true when this descriptor is the abstract `KeyRuleType` or extends it.
    pub fn is_key_rule(&self, g: &HolonGraph) -> (res: Result<bool, HolonError>)
        ensures
            rview(res) == spec_extends_type_name(g@, self@, "KeyRuleType"@),
    {
        extends_type_name(g, self.holon, "KeyRuleType")
    }

    /// Derives the canonical key for a configured constraint instance.
    pub fn derive_constraint_instance_key(&self, g: &HolonGraph, constraint: HolonReference) -> (res: Result<
        MapString,
        HolonError,
    >)
        ensures
            rview(res) == spec_derive_constraint_instance_key(g@, self@, constraint),
    {
        if !extends_type_name(g, self.holon, "ConstraintInstanceRule")? {
            let found = TypeHeader::new(self.holon).declared_type_name(g)?;
            return Err(
                HolonError::WrongDescriptorKind {
                    expected: String::from_str("ConstraintInstanceRule"),
                    found: found.0,
                    descriptor: self.holon,
                },
            );
        }
        let constraint_name = require_string(
            g,
            constraint,
            &CorePropertyTypeName::ConstraintName.as_property_name(),
        )?;
        let constraint_type = require_single_related(g, constraint, CoreRelationshipTypeName::DescribedBy)?;
        let ct_name = TypeHeader::new(constraint_type).declared_type_name(g)?;
        if !extends_type_name(g, constraint_type, "ConstraintType")? {
            return Err(
                HolonError::WrongDescriptorKind {
                    expected: String::from_str("ConstraintType"),
                    found: ct_name.0,
                    descriptor: constraint_type,
                },
            );
        }
        if TypeHeader::new(constraint_type).is_abstract_type(g)? {
            return Err(
                HolonError::WrongDescriptorKind {
                    expected: String::from_str("concrete ConstraintType"),
                    found: ct_name.0,
                    descriptor: constraint_type,
                },
            );
        }
        let mut key = constraint_name.0;
        key.append(".");
        key.append(ct_name.0.as_str());
        Ok(MapString(key))
    }
}


/// A lineage search by type name: the answer is `true` exactly when some
/// member of the walked lineage (self first) reads the expected type name;
/// without such a member it is `false` when the walk completed and the walk's
/// error otherwise.
pub proof fn law_extends_type_name_searches_lineage(g: Seq<HolonView>, r: HolonReference, expected: Seq<char>)
    ensures
        ({
            let w = spec_walk(g, r);
            let named = exists|k: int|
                0 <= k < w.0.len() && #[trigger] spec_type_name(g, w.0[k]) == Ok::<Seq<char>, ErrorView>(expected);
            &&& named ==> spec_extends_type_name(g, r, expected) == Ok::<bool, ErrorView>(true)
            &&& (!named && w.1 is None) ==> spec_extends_type_name(g, r, expected) == Ok::<bool, ErrorView>(false)
            &&& (!named && w.1 is Some && !(w.1->Some_0 is WrongDescriptorKind)) ==> spec_extends_type_name(
                g,
                r,
                expected,
            ) == Err::<bool, ErrorView>(w.1->Some_0)
        }),
{
    let w = spec_walk(g, r);
    lemma_first_named(g, w.0, expected, 0);
    let k = first_expected_member(g, w.0, seq![expected], 0);
    if k >= 0 {
        assert(spec_type_name(g, w.0[k]) == Ok::<Seq<char>, ErrorView>(expected));
    }
}

} // verus!
