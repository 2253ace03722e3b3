//! Canonical names of the core schema: properties, relationships and holon types.
use crate::values::{MapString, PropertyName, RelationshipName};
use vstd::prelude::*;
use vstd::string::*;

verus! {

/// Core property slots read by the descriptor layer.
#[derive(Clone, Copy, Debug, PartialEq, Eq, Structural)]
pub enum CorePropertyTypeName {
    TypeName,
    TypeNamePlural,
    DisplayName,
    DisplayNamePlural,
    Description,
    IsAbstractType,
    InstanceTypeKind,
    AllowsAdditionalProperties,
    AllowsAdditionalRelationships,
    IsDefinitional,
    IsOrdered,
    AllowsDuplicates,
    MinCardinality,
    MaxCardinality,
    DeletionSemantic,
    TargetBinding,
    PropertyName,
    IsRequired,
    IsValueRequired,
    DefaultValue,
    Key,
    Arity,
    OperatorCategory,
    DefinesInstanceTypeKind,
    ConstraintIntegerValue,
    ConstraintIsInclusive,
    ConstraintLength,
    ConstraintName,
    InheritanceMode,
    MembershipCacheMaxAgeMillis,
    Minimum,
    Maximum,
}

impl CorePropertyTypeName {
    /// The canonical name of this core schema item.
    pub open spec fn spec_name(self) -> Seq<char> {
        match self {
            CorePropertyTypeName::TypeName => "TypeName"@,
            CorePropertyTypeName::TypeNamePlural => "TypeNamePlural"@,
            CorePropertyTypeName::DisplayName => "DisplayName"@,
            CorePropertyTypeName::DisplayNamePlural => "DisplayNamePlural"@,
            CorePropertyTypeName::Description => "Description"@,
            CorePropertyTypeName::IsAbstractType => "IsAbstractType"@,
            CorePropertyTypeName::InstanceTypeKind => "InstanceTypeKind"@,
            CorePropertyTypeName::AllowsAdditionalProperties => "AllowsAdditionalProperties"@,
            CorePropertyTypeName::AllowsAdditionalRelationships => "AllowsAdditionalRelationships"@,
            CorePropertyTypeName::IsDefinitional => "IsDefinitional"@,
            CorePropertyTypeName::IsOrdered => "IsOrdered"@,
            CorePropertyTypeName::AllowsDuplicates => "AllowsDuplicates"@,
            CorePropertyTypeName::MinCardinality => "MinCardinality"@,
            CorePropertyTypeName::MaxCardinality => "MaxCardinality"@,
            CorePropertyTypeName::DeletionSemantic => "DeletionSemantic"@,
            CorePropertyTypeName::TargetBinding => "TargetBinding"@,
            CorePropertyTypeName::PropertyName => "PropertyName"@,
            CorePropertyTypeName::IsRequired => "IsRequired"@,
            CorePropertyTypeName::IsValueRequired => "IsValueRequired"@,
            CorePropertyTypeName::DefaultValue => "DefaultValue"@,
            CorePropertyTypeName::Key => "Key"@,
            CorePropertyTypeName::Arity => "Arity"@,
            CorePropertyTypeName::OperatorCategory => "OperatorCategory"@,
            CorePropertyTypeName::DefinesInstanceTypeKind => "DefinesInstanceTypeKind"@,
            CorePropertyTypeName::ConstraintIntegerValue => "ConstraintIntegerValue"@,
            CorePropertyTypeName::ConstraintIsInclusive => "ConstraintIsInclusive"@,
            CorePropertyTypeName::ConstraintLength => "ConstraintLength"@,
            CorePropertyTypeName::ConstraintName => "ConstraintName"@,
            CorePropertyTypeName::InheritanceMode => "InheritanceMode"@,
            CorePropertyTypeName::MembershipCacheMaxAgeMillis => "MembershipCacheMaxAgeMillis"@,
            CorePropertyTypeName::Minimum => "Minimum"@,
            CorePropertyTypeName::Maximum => "Maximum"@,
        }
    }

    /// Returns the canonical name of this core schema item.
    pub fn as_property_name(&self) -> (r: PropertyName)
        ensures
            r@ == self.spec_name(),
    {
        match self {
            CorePropertyTypeName::TypeName => PropertyName::from_str("TypeName"),
            CorePropertyTypeName::TypeNamePlural => PropertyName::from_str("TypeNamePlural"),
            CorePropertyTypeName::DisplayName => PropertyName::from_str("DisplayName"),
            CorePropertyTypeName::DisplayNamePlural => PropertyName::from_str("DisplayNamePlural"),
            CorePropertyTypeName::Description => PropertyName::from_str("Description"),
            CorePropertyTypeName::IsAbstractType => PropertyName::from_str("IsAbstractType"),
            CorePropertyTypeName::InstanceTypeKind => PropertyName::from_str("InstanceTypeKind"),
            CorePropertyTypeName::AllowsAdditionalProperties => PropertyName::from_str("AllowsAdditionalProperties"),
            CorePropertyTypeName::AllowsAdditionalRelationships => PropertyName::from_str("AllowsAdditionalRelationships"),
            CorePropertyTypeName::IsDefinitional => PropertyName::from_str("IsDefinitional"),
            CorePropertyTypeName::IsOrdered => PropertyName::from_str("IsOrdered"),
            CorePropertyTypeName::AllowsDuplicates => PropertyName::from_str("AllowsDuplicates"),
            CorePropertyTypeName::MinCardinality => PropertyName::from_str("MinCardinality"),
            CorePropertyTypeName::MaxCardinality => PropertyName::from_str("MaxCardinality"),
            CorePropertyTypeName::DeletionSemantic => PropertyName::from_str("DeletionSemantic"),
            CorePropertyTypeName::TargetBinding => PropertyName::from_str("TargetBinding"),
            CorePropertyTypeName::PropertyName => PropertyName::from_str("PropertyName"),
            CorePropertyTypeName::IsRequired => PropertyName::from_str("IsRequired"),
            CorePropertyTypeName::IsValueRequired => PropertyName::from_str("IsValueRequired"),
            CorePropertyTypeName::DefaultValue => PropertyName::from_str("DefaultValue"),
            CorePropertyTypeName::Key => PropertyName::from_str("Key"),
            CorePropertyTypeName::Arity => PropertyName::from_str("Arity"),
            CorePropertyTypeName::OperatorCategory => PropertyName::from_str("OperatorCategory"),
            CorePropertyTypeName::DefinesInstanceTypeKind => PropertyName::from_str("DefinesInstanceTypeKind"),
            CorePropertyTypeName::ConstraintIntegerValue => PropertyName::from_str("ConstraintIntegerValue"),
            CorePropertyTypeName::ConstraintIsInclusive => PropertyName::from_str("ConstraintIsInclusive"),
            CorePropertyTypeName::ConstraintLength => PropertyName::from_str("ConstraintLength"),
            CorePropertyTypeName::ConstraintName => PropertyName::from_str("ConstraintName"),
            CorePropertyTypeName::InheritanceMode => PropertyName::from_str("InheritanceMode"),
            CorePropertyTypeName::MembershipCacheMaxAgeMillis => PropertyName::from_str("MembershipCacheMaxAgeMillis"),
            CorePropertyTypeName::Minimum => PropertyName::from_str("Minimum"),
            CorePropertyTypeName::Maximum => PropertyName::from_str("Maximum"),
        }
    }
}

/// Core relationship slots read by the descriptor layer.
#[derive(Clone, Copy, Debug, PartialEq, Eq, Structural)]
pub enum CoreRelationshipTypeName {
    Extends,
    DescribedBy,
    InstanceProperties,
    InstanceRelationships,
    Properties,
    AffordsCommand,
    Affords,
    AffordsDance,
    AffordsOperator,
    AffordedBy,
    ValidationBindings,
    Constraints,
    InstanceKeyRule,
    SourceType,
    TargetType,
    TargetOf,
    HasInverse,
    InverseOf,
    ValueType,
    ElementValueType,
    Variants,
    RequestType,
    Response,
    ResponseBody,
    ForDance,
    AffordsTransactionModel,
    ApplicableToDescriptorTypes,
    ComponentOf,
    RuleOf,
    DependsOn,
    Components,
    Rules,
    OwnedBy,
    Owns,
}

impl CoreRelationshipTypeName {
    /// The canonical name of this core schema item.
    pub open spec fn spec_name(self) -> Seq<char> {
        match self {
            CoreRelationshipTypeName::Extends => "Extends"@,
            CoreRelationshipTypeName::DescribedBy => "DescribedBy"@,
            CoreRelationshipTypeName::InstanceProperties => "InstanceProperties"@,
            CoreRelationshipTypeName::InstanceRelationships => "InstanceRelationships"@,
            CoreRelationshipTypeName::Properties => "Properties"@,
            CoreRelationshipTypeName::AffordsCommand => "AffordsCommand"@,
            CoreRelationshipTypeName::Affords => "Affords"@,
            CoreRelationshipTypeName::AffordsDance => "AffordsDance"@,
            CoreRelationshipTypeName::AffordsOperator => "AffordsOperator"@,
            CoreRelationshipTypeName::AffordedBy => "AffordedBy"@,
            CoreRelationshipTypeName::ValidationBindings => "ValidationBindings"@,
            CoreRelationshipTypeName::Constraints => "Constraints"@,
            CoreRelationshipTypeName::InstanceKeyRule => "InstanceKeyRule"@,
            CoreRelationshipTypeName::SourceType => "SourceType"@,
            CoreRelationshipTypeName::TargetType => "TargetType"@,
            CoreRelationshipTypeName::TargetOf => "TargetOf"@,
            CoreRelationshipTypeName::HasInverse => "HasInverse"@,
            CoreRelationshipTypeName::InverseOf => "InverseOf"@,
            CoreRelationshipTypeName::ValueType => "ValueType"@,
            CoreRelationshipTypeName::ElementValueType => "ElementValueType"@,
            CoreRelationshipTypeName::Variants => "Variants"@,
            CoreRelationshipTypeName::RequestType => "RequestType"@,
            CoreRelationshipTypeName::Response => "Response"@,
            CoreRelationshipTypeName::ResponseBody => "ResponseBody"@,
            CoreRelationshipTypeName::ForDance => "ForDance"@,
            CoreRelationshipTypeName::AffordsTransactionModel => "AffordsTransactionModel"@,
            CoreRelationshipTypeName::ApplicableToDescriptorTypes => "ApplicableToDescriptorTypes"@,
            CoreRelationshipTypeName::ComponentOf => "ComponentOf"@,
            CoreRelationshipTypeName::RuleOf => "RuleOf"@,
            CoreRelationshipTypeName::DependsOn => "DependsOn"@,
            CoreRelationshipTypeName::Components => "Components"@,
            CoreRelationshipTypeName::Rules => "Rules"@,
            CoreRelationshipTypeName::OwnedBy => "OwnedBy"@,
            CoreRelationshipTypeName::Owns => "Owns"@,
        }
    }

    /// Returns the canonical name of this core schema item.
    pub fn as_relationship_name(&self) -> (r: RelationshipName)
        ensures
            r@ == self.spec_name(),
    {
        match self {
            CoreRelationshipTypeName::Extends => RelationshipName::from_str("Extends"),
            CoreRelationshipTypeName::DescribedBy => RelationshipName::from_str("DescribedBy"),
            CoreRelationshipTypeName::InstanceProperties => RelationshipName::from_str("InstanceProperties"),
            CoreRelationshipTypeName::InstanceRelationships => RelationshipName::from_str("InstanceRelationships"),
            CoreRelationshipTypeName::Properties => RelationshipName::from_str("Properties"),
            CoreRelationshipTypeName::AffordsCommand => RelationshipName::from_str("AffordsCommand"),
            CoreRelationshipTypeName::Affords => RelationshipName::from_str("Affords"),
            CoreRelationshipTypeName::AffordsDance => RelationshipName::from_str("AffordsDance"),
            CoreRelationshipTypeName::AffordsOperator => RelationshipName::from_str("AffordsOperator"),
            CoreRelationshipTypeName::AffordedBy => RelationshipName::from_str("AffordedBy"),
            CoreRelationshipTypeName::ValidationBindings => RelationshipName::from_str("ValidationBindings"),
            CoreRelationshipTypeName::Constraints => RelationshipName::from_str("Constraints"),
            CoreRelationshipTypeName::InstanceKeyRule => RelationshipName::from_str("InstanceKeyRule"),
            CoreRelationshipTypeName::SourceType => RelationshipName::from_str("SourceType"),
            CoreRelationshipTypeName::TargetType => RelationshipName::from_str("TargetType"),
            CoreRelationshipTypeName::TargetOf => RelationshipName::from_str("TargetOf"),
            CoreRelationshipTypeName::HasInverse => RelationshipName::from_str("HasInverse"),
            CoreRelationshipTypeName::InverseOf => RelationshipName::from_str("InverseOf"),
            CoreRelationshipTypeName::ValueType => RelationshipName::from_str("ValueType"),
            CoreRelationshipTypeName::ElementValueType => RelationshipName::from_str("ElementValueType"),
            CoreRelationshipTypeName::Variants => RelationshipName::from_str("Variants"),
            CoreRelationshipTypeName::RequestType => RelationshipName::from_str("RequestType"),
            CoreRelationshipTypeName::Response => RelationshipName::from_str("Response"),
            CoreRelationshipTypeName::ResponseBody => RelationshipName::from_str("ResponseBody"),
            CoreRelationshipTypeName::ForDance => RelationshipName::from_str("ForDance"),
            CoreRelationshipTypeName::AffordsTransactionModel => RelationshipName::from_str("AffordsTransactionModel"),
            CoreRelationshipTypeName::ApplicableToDescriptorTypes => RelationshipName::from_str("ApplicableToDescriptorTypes"),
            CoreRelationshipTypeName::ComponentOf => RelationshipName::from_str("ComponentOf"),
            CoreRelationshipTypeName::RuleOf => RelationshipName::from_str("RuleOf"),
            CoreRelationshipTypeName::DependsOn => RelationshipName::from_str("DependsOn"),
            CoreRelationshipTypeName::Components => RelationshipName::from_str("Components"),
            CoreRelationshipTypeName::Rules => RelationshipName::from_str("Rules"),
            CoreRelationshipTypeName::OwnedBy => RelationshipName::from_str("OwnedBy"),
            CoreRelationshipTypeName::Owns => RelationshipName::from_str("Owns"),
        }
    }
}

/// Core holon type names that anchor descriptor classification.
#[derive(Clone, Copy, Debug, PartialEq, Eq, Structural)]
pub enum CoreHolonTypeName {
    DeclaredRelationshipType,
    InverseRelationshipType,
    IntegerValueConstraint,
    StringValueConstraint,
    BytesValueConstraint,
    ValueArrayConstraint,
    MinimumValue,
    MaximumValue,
    MinimumLength,
    MaximumLength,
    CardinalityConstraint,
}

impl CoreHolonTypeName {
    /// The canonical name of this core schema item.
    pub open spec fn spec_name(self) -> Seq<char> {
        match self {
            CoreHolonTypeName::DeclaredRelationshipType => "DeclaredRelationshipType"@,
            CoreHolonTypeName::InverseRelationshipType => "InverseRelationshipType"@,
            CoreHolonTypeName::IntegerValueConstraint => "IntegerValueConstraint"@,
            CoreHolonTypeName::StringValueConstraint => "StringValueConstraint"@,
            CoreHolonTypeName::BytesValueConstraint => "BytesValueConstraint"@,
            CoreHolonTypeName::ValueArrayConstraint => "ValueArrayConstraint"@,
            CoreHolonTypeName::MinimumValue => "MinimumValue"@,
            CoreHolonTypeName::MaximumValue => "MaximumValue"@,
            CoreHolonTypeName::MinimumLength => "MinimumLength"@,
            CoreHolonTypeName::MaximumLength => "MaximumLength"@,
            CoreHolonTypeName::CardinalityConstraint => "CardinalityConstraint"@,
        }
    }

    /// Returns the canonical name of this core schema item.
    pub fn as_holon_name(&self) -> (r: MapString)
        ensures
            r@ == self.spec_name(),
    {
        match self {
            CoreHolonTypeName::DeclaredRelationshipType => MapString::from_str("DeclaredRelationshipType"),
            CoreHolonTypeName::InverseRelationshipType => MapString::from_str("InverseRelationshipType"),
            CoreHolonTypeName::IntegerValueConstraint => MapString::from_str("IntegerValueConstraint"),
            CoreHolonTypeName::StringValueConstraint => MapString::from_str("StringValueConstraint"),
            CoreHolonTypeName::BytesValueConstraint => MapString::from_str("BytesValueConstraint"),
            CoreHolonTypeName::ValueArrayConstraint => MapString::from_str("ValueArrayConstraint"),
            CoreHolonTypeName::MinimumValue => MapString::from_str("MinimumValue"),
            CoreHolonTypeName::MaximumValue => MapString::from_str("MaximumValue"),
            CoreHolonTypeName::MinimumLength => MapString::from_str("MinimumLength"),
            CoreHolonTypeName::MaximumLength => MapString::from_str("MaximumLength"),
            CoreHolonTypeName::CardinalityConstraint => MapString::from_str("CardinalityConstraint"),
        }
    }
}


/// `c` with an ASCII lower-case letter raised to upper case.
pub open spec fn ascii_upper(c: char) -> char {
    if 'a' <= c && c <= 'z' {
        ((c as u32) - 32) as char
    } else {
        c
    }
}

/// The type-name spelling of `s`: each `_` is dropped and the character after
/// it, like the first character, is raised to upper case.
pub open spec fn type_case_from(s: Seq<char>, raise: bool) -> Seq<char>
    decreases s.len(),
{
    if s.len() == 0 {
        Seq::empty()
    } else if s[0] == '_' {
        type_case_from(s.drop_first(), true)
    } else {
        seq![if raise { ascii_upper(s[0]) } else { s[0] }] + type_case_from(s.drop_first(), false)
    }
}

/// The type-name spelling of a requested name (`display_name` is `DisplayName`).
pub open spec fn spec_type_case(s: Seq<char>) -> Seq<char> {
    type_case_from(s, true)
}

proof fn lemma_ascii_upper_idempotent(c: char)
    ensures
        ascii_upper(ascii_upper(c)) == ascii_upper(c),
        c != '_' ==> ascii_upper(c) != '_',
{
    if 'a' <= c && c <= 'z' {
        let u = ascii_upper(c);
        assert(65 <= (c as u32) - 32 <= 90);
        assert(u as u32 == (c as u32) - 32);
    }
}

proof fn lemma_type_case_no_underscore(s: Seq<char>, raise: bool)
    ensures
        forall|i: int| 0 <= i < type_case_from(s, raise).len() ==> type_case_from(s, raise)[i] != '_',
    decreases s.len(),
{
    if s.len() > 0 {
        lemma_type_case_no_underscore(s.drop_first(), true);
        lemma_type_case_no_underscore(s.drop_first(), false);
        if s[0] != '_' {
            lemma_ascii_upper_idempotent(s[0]);
            let d = if raise { ascii_upper(s[0]) } else { s[0] };
            let rest = type_case_from(s.drop_first(), false);
            let t = type_case_from(s, raise);
            assert(t == seq![d] + rest);
            assert(d != '_');
            assert forall|i: int| 0 <= i < t.len() implies t[i] != '_' by {
                if i > 0 {
                    assert(t[i] == rest[i - 1]);
                } else {
                    assert(t[0] == d);
                }
            }
        } else {
            assert(type_case_from(s, raise) == type_case_from(s.drop_first(), true));
        }
    }
}

proof fn lemma_type_case_keeps_plain(s: Seq<char>)
    requires
        forall|i: int| 0 <= i < s.len() ==> s[i] != '_',
    ensures
        type_case_from(s, false) == s,
    decreases s.len(),
{
    if s.len() > 0 {
        lemma_type_case_keeps_plain(s.drop_first());
        assert(seq![s[0]] + s.drop_first() =~= s);
    }
}

/// Spelling a name as a type name twice changes nothing more than doing it once:
/// a name already spelled as a type name is unchanged.
pub proof fn law_type_case_idempotent(s: Seq<char>)
    ensures
        spec_type_case(spec_type_case(s)) == spec_type_case(s),
    decreases s.len(),
{
    if s.len() > 0 {
        if s[0] == '_' {
            law_type_case_idempotent(s.drop_first());
        } else {
            let x = spec_type_case(s);
            let rest = type_case_from(s.drop_first(), false);
            lemma_ascii_upper_idempotent(s[0]);
            lemma_type_case_no_underscore(s.drop_first(), false);
            lemma_type_case_keeps_plain(rest);
            assert(x.drop_first() =~= rest);
            assert(type_case_from(x, true) =~= seq![ascii_upper(x[0])] + type_case_from(x.drop_first(), false));
            assert(type_case_from(x, true) =~= x);
        }
    }
}

fn upper_char(c: char) -> (r: char)
    ensures
        r == ascii_upper(c),
{
    if 'a' <= c && c <= 'z' {
        let b: u8 = ((c as u32) - 32) as u8;
        b as char
    } else {
        c
    }
}

/// Appends one character to a string through std's `String::push`. Trusted:
/// the contract claims, as std documents, that the characters afterwards are
/// the characters before followed by `c`.
#[verifier::external_body]
fn push_char(s: &mut String, c: char)
    ensures
        final(s)@ == old(s)@.push(c),
{
    s.push(c);
}

/// Spells a requested name the way type names are spelled: `display_name`
/// becomes `DisplayName`, and a name already so spelled is unchanged.
pub fn to_type_case(s: &str) -> (r: String)
    ensures
        r@ == spec_type_case(s@),
{
    let n = s.unicode_len();
    let mut out = String::new();
    let mut raise = true;
    let mut i: usize = 0;
    proof {
        assert(s@.subrange(0, n as int) =~= s@);
        assert(out@ + spec_type_case(s@) =~= spec_type_case(s@));
    }
    while i < n
        invariant
            n == s@.len(),
            i <= n,
            out@ + type_case_from(s@.subrange(i as int, n as int), raise) == spec_type_case(s@),
        decreases n - i,
    {
        let c = s.get_char(i);
        proof {
            assert(s@.subrange(i as int, n as int).drop_first() =~= s@.subrange(i + 1, n as int));
        }
        if c == '_' {
            raise = true;
        } else {
            let d = if raise { upper_char(c) } else { c };
            let ghost before = out@;
            push_char(&mut out, d);
            assert(out@ + type_case_from(s@.subrange(i + 1, n as int), false) =~= before + (seq![d]
                + type_case_from(s@.subrange(i + 1, n as int), false)));
            raise = false;
        }
        i = i + 1;
    }
    proof {
        assert(s@.subrange(n as int, n as int) =~= Seq::<char>::empty());
        assert(out@ + Seq::<char>::empty() =~= out@);
    }
    out
}

} // verus!
