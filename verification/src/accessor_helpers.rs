//! Typed reads of descriptor properties and singular descriptor relationships.
use crate::error::{rview, ErrorView, HolonError};
use crate::graph::{spec_key, spec_property_value, spec_related, HolonGraph, HolonReference, HolonView};
use crate::inheritance::{spec_walk, walk_extends_chain};
use crate::type_header::{spec_type_name, TypeHeader};
use crate::names::CoreRelationshipTypeName;
use crate::values::{kind_label, BaseValue, BaseValueView, MapString, PropertyName};
use vstd::prelude::*;
use vstd::string::*;

verus! {

/// A required string property: present and a string, else the matching error.
pub open spec fn spec_require_string(g: Seq<crate::graph::HolonView>, r: HolonReference, name: Seq<char>) -> Result<
    Seq<char>,
    ErrorView,
> {
    match spec_property_value(g, r, name) {
        Err(e) => Err(e),
        Ok(Some(BaseValueView::StringValue(s))) => Ok(s),
        Ok(Some(other)) => Err(ErrorView::UnexpectedValueType(kind_label(other.kind()), "String"@)),
        Ok(None) => Err(ErrorView::EmptyField(name)),
    }
}

/// An optional string-like property: strings and enum values are both accepted.
pub open spec fn spec_optional_string(g: Seq<crate::graph::HolonView>, r: HolonReference, name: Seq<char>) -> Result<
    Option<Seq<char>>,
    ErrorView,
> {
    match spec_property_value(g, r, name) {
        Err(e) => Err(e),
        Ok(Some(BaseValueView::StringValue(s))) => Ok(Some(s)),
        Ok(Some(BaseValueView::EnumValue(s))) => Ok(Some(s)),
        Ok(Some(other)) => Err(ErrorView::UnexpectedValueType(kind_label(other.kind()), "String"@)),
        Ok(None) => Ok(None),
    }
}

/// A required boolean property.
pub open spec fn spec_require_bool(g: Seq<crate::graph::HolonView>, r: HolonReference, name: Seq<char>) -> Result<
    bool,
    ErrorView,
> {
    match spec_property_value(g, r, name) {
        Err(e) => Err(e),
        Ok(Some(BaseValueView::BooleanValue(b))) => Ok(b),
        Ok(Some(other)) => Err(ErrorView::UnexpectedValueType(kind_label(other.kind()), "Boolean"@)),
        Ok(None) => Err(ErrorView::EmptyField(name)),
    }
}

/// A required integer property.
pub open spec fn spec_require_integer(g: Seq<crate::graph::HolonView>, r: HolonReference, name: Seq<char>) -> Result<
    i64,
    ErrorView,
> {
    match spec_property_value(g, r, name) {
        Err(e) => Err(e),
        Ok(Some(BaseValueView::IntegerValue(i))) => Ok(i),
        Ok(Some(other)) => Err(ErrorView::UnexpectedValueType(kind_label(other.kind()), "Integer"@)),
        Ok(None) => Err(ErrorView::EmptyField(name)),
    }
}

/// The single target of a required singular relationship.
pub open spec fn spec_require_single_related(
    g: Seq<crate::graph::HolonView>,
    r: HolonReference,
    rel: CoreRelationshipTypeName,
) -> Result<HolonReference, ErrorView> {
    match spec_related(g, r, rel.spec_name()) {
        Err(e) => Err(e),
        Ok(m) => if m.len() == 0 {
            Err(
                ErrorView::MissingRequiredRelationship {
                    relationship: rel.spec_name(),
                    descriptor: r,
                },
            )
        } else if m.len() == 1 {
            Ok(m[0])
        } else {
            Err(
                ErrorView::MultipleRelatedHolons {
                    relationship: rel.spec_name(),
                    descriptor: r,
                    count: m.len() as usize,
                },
            )
        },
    }
}

/// The optional target of a singular relationship.
pub open spec fn spec_optional_single_related(
    g: Seq<crate::graph::HolonView>,
    r: HolonReference,
    rel: CoreRelationshipTypeName,
) -> Result<Option<HolonReference>, ErrorView> {
    match spec_related(g, r, rel.spec_name()) {
        Err(e) => Err(e),
        Ok(m) => if m.len() == 0 {
            Ok(None)
        } else if m.len() == 1 {
            Ok(Some(m[0]))
        } else {
            Err(
                ErrorView::MultipleRelatedHolons {
                    relationship: rel.spec_name(),
                    descriptor: r,
                    count: m.len() as usize,
                },
            )
        },
    }
}

fn unexpected(found: &BaseValue, expected: &str) -> (e: HolonError)
    ensures
        e@ == ErrorView::UnexpectedValueType(kind_label(found@.kind()), expected@),
{
    HolonError::UnexpectedValueType(found.kind().label(), String::from_str(expected))
}

/// Returns a required string property of a descriptor holon.
pub fn require_string(g: &HolonGraph, holon: HolonReference, name: &PropertyName) -> (res: Result<
    MapString,
    HolonError,
>)
    ensures
        rview(res) == spec_require_string(g@, holon, name@),
{
    match g.property_value(holon, name) {
        Err(e) => Err(e),
        Ok(Some(BaseValue::StringValue(value))) => Ok(value),
        Ok(Some(other)) => Err(unexpected(&other, "String")),
        Ok(None) => Err(HolonError::EmptyField(name.0.to_owned_string())),
    }
}

/// Returns an optional string-like property; enum values yield their variant name.
pub fn optional_string(g: &HolonGraph, holon: HolonReference, name: &PropertyName) -> (res: Result<
    Option<MapString>,
    HolonError,
>)
    ensures
        rview(res) == spec_optional_string(g@, holon, name@),
{
    match g.property_value(holon, name) {
        Err(e) => Err(e),
        Ok(Some(BaseValue::StringValue(value))) => Ok(Some(value)),
        Ok(Some(BaseValue::EnumValue(value))) => Ok(Some(value.0)),
        Ok(Some(other)) => Err(unexpected(&other, "String")),
        Ok(None) => Ok(None),
    }
}

/// Returns a required boolean property of a descriptor holon.
pub fn require_bool(g: &HolonGraph, holon: HolonReference, name: &PropertyName) -> (res: Result<
    bool,
    HolonError,
>)
    ensures
        rview(res) == spec_require_bool(g@, holon, name@),
{
    match g.property_value(holon, name) {
        Err(e) => Err(e),
        Ok(Some(BaseValue::BooleanValue(value))) => Ok(value.0),
        Ok(Some(other)) => Err(unexpected(&other, "Boolean")),
        Ok(None) => Err(HolonError::EmptyField(name.0.to_owned_string())),
    }
}

/// Returns a required integer property of a descriptor holon.
pub fn require_integer(g: &HolonGraph, holon: HolonReference, name: &PropertyName) -> (res: Result<
    i64,
    HolonError,
>)
    ensures
        rview(res) == spec_require_integer(g@, holon, name@),
{
    match g.property_value(holon, name) {
        Err(e) => Err(e),
        Ok(Some(BaseValue::IntegerValue(value))) => Ok(value.0),
        Ok(Some(other)) => Err(unexpected(&other, "Integer")),
        Ok(None) => Err(HolonError::EmptyField(name.0.to_owned_string())),
    }
}

/// Returns the single target of a required singular descriptor relationship.
pub fn require_single_related(
    g: &HolonGraph,
    holon: HolonReference,
    rel: CoreRelationshipTypeName,
) -> (res: Result<HolonReference, HolonError>)
    ensures
        rview(res) == spec_require_single_related(g@, holon, rel),
{
    let members = g.related_core(holon, rel)?;
    if members.len() == 0 {
        Err(
            HolonError::MissingRequiredRelationship {
                relationship: rel.as_relationship_name().0.0,
                descriptor: holon,
            },
        )
    } else if members.len() == 1 {
        Ok(members[0])
    } else {
        Err(
            HolonError::MultipleRelatedHolons {
                relationship: rel.as_relationship_name().0.0,
                descriptor: holon,
                count: members.len(),
            },
        )
    }
}

/// Returns the optional target of a singular descriptor relationship.
pub fn optional_single_related(
    g: &HolonGraph,
    holon: HolonReference,
    rel: CoreRelationshipTypeName,
) -> (res: Result<Option<HolonReference>, HolonError>)
    ensures
        rview(res) == spec_optional_single_related(g@, holon, rel),
{
    let members = g.related_core(holon, rel)?;
    if members.len() == 0 {
        Ok(None)
    } else if members.len() == 1 {
        Ok(Some(members[0]))
    } else {
        Err(
            HolonError::MultipleRelatedHolons {
                relationship: rel.as_relationship_name().0.0,
                descriptor: holon,
                count: members.len(),
            },
        )
    }
}


/// A best-effort label for a holon in diagnostics: its key, else `unknown`.
pub open spec fn spec_descriptor_label(g: Seq<HolonView>, r: HolonReference) -> Seq<char> {
    match spec_key(g, r) {
        Ok(Some(k)) => k,
        _ => "unknown"@,
    }
}

/// Returns the key of `holon` when it has one, else `unknown`.
pub fn descriptor_label(g: &HolonGraph, holon: HolonReference) -> (s: String)
    ensures
        s@ == spec_descriptor_label(g@, holon),
{
    match g.key(holon) {
        Ok(Some(k)) => k.0,
        _ => String::from_str("unknown"),
    }
}

/// Names joined with `, `.
pub open spec fn join_names(n: Seq<Seq<char>>) -> Seq<char>
    decreases n.len(),
{
    if n.len() == 0 {
        Seq::empty()
    } else if n.len() == 1 {
        n[0]
    } else {
        join_names(n.drop_last()) + ", "@ + n.last()
    }
}

/// A readable list of expected type names: `A`, `A or B`, or `A, B, or C`.
pub open spec fn format_expected(n: Seq<Seq<char>>) -> Seq<char> {
    if n.len() == 0 {
        "unknown"@
    } else if n.len() == 1 {
        n[0]
    } else if n.len() == 2 {
        n[0] + " or "@ + n[1]
    } else {
        join_names(n.drop_last()) + ", or "@ + n.last()
    }
}

/// Formats the expected type names of a descriptor-kind diagnostic.
pub fn format_expected_type_names(names: &Vec<MapString>) -> (r: String)
    ensures
        r@ == format_expected(names.deep_view()),
{
    let ghost n = names.deep_view();
    if names.len() == 0 {
        return String::from_str("unknown");
    }
    if names.len() == 1 {
        return names[0].to_owned_string();
    }
    if names.len() == 2 {
        let mut out = names[0].to_owned_string();
        out.append(" or ");
        out.append(names[1].0.as_str());
        return out;
    }
    let mut out = names[0].to_owned_string();
    let mut i: usize = 1;
    assert(n.subrange(0, 1).drop_last() =~= Seq::<Seq<char>>::empty());
    assert(join_names(n.subrange(0, 1)) == n[0]);
    while i < names.len() - 1
        invariant
            1 <= i <= names.len() - 1,
            names.len() > 2,
            n == names.deep_view(),
            out@ == join_names(n.subrange(0, i as int)),
        decreases names.len() - i,
    {
        out.append(", ");
        out.append(names[i].0.as_str());
        assert(n.subrange(0, (i + 1) as int).drop_last() =~= n.subrange(0, i as int));
        i = i + 1;
    }
    assert(n.subrange(0, i as int) =~= n.drop_last());
    out.append(", or ");
    out.append(names[names.len() - 1].0.as_str());
    out
}

/// The index of the first of `names` equal to `x`, or -1.
pub open spec fn name_position(names: Seq<Seq<char>>, x: Seq<char>, i: int) -> int
    decreases names.len() - i,
{
    if 0 <= i < names.len() {
        if names[i] == x {
            i
        } else {
            name_position(names, x, i + 1)
        }
    } else {
        -1
    }
}

/// The first lineage member from index `i` whose readable type name is expected, or -1.
pub open spec fn first_expected_member(
    g: Seq<HolonView>,
    ms: Seq<HolonReference>,
    expected: Seq<Seq<char>>,
    i: int,
) -> int
    decreases ms.len() - i,
{
    if 0 <= i < ms.len() {
        match spec_type_name(g, ms[i]) {
            Ok(n) => if name_position(expected, n, 0) >= 0 {
                i
            } else {
                first_expected_member(g, ms, expected, i + 1)
            },
            Err(_) => first_expected_member(g, ms, expected, i + 1),
        }
    } else {
        -1
    }
}

/// What a failed search reports as found: the first member's type name, else its label.
pub open spec fn found_label(g: Seq<HolonView>, ms: Seq<HolonReference>) -> Seq<char> {
    if ms.len() == 0 {
        "unknown"@
    } else {
        match spec_type_name(g, ms[0]) {
            Ok(n) => n,
            Err(_) => spec_descriptor_label(g, ms[0]),
        }
    }
}

/// Searches the lineage of `holon`, self first, for a type name among `expected`.
///
/// The result is the position in `expected` of the first match. A structural
/// lineage error is reported only when no match was reached before it; with no
/// match at all the error is `WrongDescriptorKind`.
pub open spec fn spec_search_extends(g: Seq<HolonView>, holon: HolonReference, expected: Seq<Seq<char>>) -> Result<
    int,
    ErrorView,
> {
    let w = spec_walk(g, holon);
    let k = first_expected_member(g, w.0, expected, 0);
    if k >= 0 {
        Ok(name_position(expected, spec_type_name(g, w.0[k])->Ok_0, 0))
    } else {
        match w.1 {
            Some(e) => Err(e),
            None => Err(
                ErrorView::WrongDescriptorKind {
                    expected: format_expected(expected),
                    found: found_label(g, w.0),
                    descriptor: holon,
                },
            ),
        }
    }
}

fn position_of(names: &Vec<MapString>, x: &MapString) -> (r: Option<usize>)
    ensures
        match r {
            Some(i) => i as int == name_position(names.deep_view(), x@, 0) && i < names.len(),
            None => name_position(names.deep_view(), x@, 0) == -1,
        },
{
    let ghost n = names.deep_view();
    let mut i: usize = 0;
    while i < names.len()
        invariant
            i <= names.len(),
            n == names.deep_view(),
            name_position(n, x@, i as int) == name_position(n, x@, 0),
        decreases names.len() - i,
    {
        if names[i].equals(x) {
            return Some(i);
        }
        i = i + 1;
    }
    None
}

/// Searches a descriptor's effective `Extends` chain for one of the expected type names.
pub fn search_extends_chain(g: &HolonGraph, holon: HolonReference, expected: &Vec<MapString>) -> (res:
    Result<usize, HolonError>)
    ensures
        match res {
            Ok(i) => spec_search_extends(g@, holon, expected.deep_view()) == Ok::<int, ErrorView>(
                i as int,
            ),
            Err(e) => spec_search_extends(g@, holon, expected.deep_view()) == Err::<int, ErrorView>(
                e@,
            ),
        },
{
    let w = walk_extends_chain(g, holon);
    let ghost ms = w.members@;
    let ghost ex = expected.deep_view();
    let mut found: Option<String> = None;
    let mut i: usize = 0;
    while i < w.members.len()
        invariant
            i <= w.members.len(),
            ms == w.members@,
            w.spec_view() == spec_walk(g@, holon),
            ex == expected.deep_view(),
            first_expected_member(g@, ms, ex, i as int) == first_expected_member(g@, ms, ex, 0),
            i == 0 ==> found is None,
            i > 0 ==> (found matches Some(f) && f@ == found_label(g@, ms)),
        decreases w.members.len() - i,
    {
        let ancestor = w.members[i];
        match TypeHeader::new(ancestor).declared_type_name(g) {
            Ok(declared) => {
                if i == 0 {
                    found = Some(declared.to_owned_string());
                }
                match position_of(expected, &declared) {
                    Some(p) => {
                        return Ok(p);
                    },
                    None => {},
                }
            },
            Err(_) => {
                if i == 0 {
                    found = Some(descriptor_label(g, ancestor));
                }
            },
        }
        i = i + 1;
    }
    match w.error {
        Some(e) => Err(e),
        None => Err(
            HolonError::WrongDescriptorKind {
                expected: format_expected_type_names(expected),
                found: match found {
                    Some(f) => f,
                    None => String::from_str("unknown"),
                },
                descriptor: holon,
            },
        ),
    }
}

/// Validates that a descriptor's effective `Extends` chain reaches `expected`.
pub fn validate_extends_chain_reaches(g: &HolonGraph, holon: HolonReference, expected: &MapString) -> (res:
    Result<(), HolonError>)
    ensures
        match res {
            Ok(_) => spec_search_extends(g@, holon, seq![expected@]) is Ok,
            Err(e) => spec_search_extends(g@, holon, seq![expected@]) == Err::<int, ErrorView>(e@),
        },
{
    let mut names: Vec<MapString> = Vec::new();
    names.push(expected.duplicate());
    assert(names.deep_view() =~= seq![expected@]);
    search_extends_chain(g, holon, &names)?;
    Ok(())
}


/// The full `(Source)-[Base]->(Target)` name of a relationship descriptor.
pub open spec fn spec_full_relationship_name(g: Seq<HolonView>, r: HolonReference) -> Result<
    Seq<char>,
    ErrorView,
> {
    match spec_require_single_related(g, r, CoreRelationshipTypeName::SourceType) {
        Err(e) => Err(e),
        Ok(s) => match spec_type_name(g, s) {
            Err(e) => Err(e),
            Ok(source_name) => match spec_type_name(g, r) {
                Err(e) => Err(e),
                Ok(base_name) => match spec_require_single_related(
                    g,
                    r,
                    CoreRelationshipTypeName::TargetType,
                ) {
                    Err(e) => Err(e),
                    Ok(t) => match spec_type_name(g, t) {
                        Err(e) => Err(e),
                        Ok(target_name) => Ok(
                            "("@ + source_name + ")-["@ + base_name + "]->("@ + target_name + ")"@,
                        ),
                    },
                },
            },
        },
    }
}

/// Returns the full `(Source)-[Base]->(Target)` relationship name.
pub fn relationship_full_relationship_name(g: &HolonGraph, holon: HolonReference) -> (res: Result<
    MapString,
    HolonError,
>)
    ensures
        rview(res) == spec_full_relationship_name(g@, holon),
{
    let source = require_single_related(g, holon, CoreRelationshipTypeName::SourceType)?;
    let source_name = TypeHeader::new(source).declared_type_name(g)?;
    let base_name = TypeHeader::new(holon).declared_type_name(g)?;
    let target = require_single_related(g, holon, CoreRelationshipTypeName::TargetType)?;
    let target_name = TypeHeader::new(target).declared_type_name(g)?;
    let mut out = String::from_str("(");
    out.append(source_name.0.as_str());
    out.append(")-[");
    out.append(base_name.0.as_str());
    out.append("]->(");
    out.append(target_name.0.as_str());
    out.append(")");
    Ok(MapString(out))
}

/// The first value of property `name` along the lineage of `start`, self first.
pub open spec fn effective_value_from(
    g: Seq<HolonView>,
    ms: Seq<HolonReference>,
    name: Seq<char>,
    i: int,
    fallback: Option<ErrorView>,
) -> Result<Option<BaseValueView>, ErrorView>
    decreases ms.len() - i,
{
    if 0 <= i < ms.len() {
        match spec_property_value(g, ms[i], name) {
            Err(e) => Err(e),
            Ok(Some(v)) => Ok(Some(v)),
            Ok(None) => effective_value_from(g, ms, name, i + 1, fallback),
        }
    } else {
        match fallback {
            Some(e) => Err(e),
            None => Ok(None),
        }
    }
}

/// The effective value of a property: the nearest populated value along the lineage, self first.
pub open spec fn spec_effective_property_value(g: Seq<HolonView>, start: HolonReference, name: Seq<char>) -> Result<
    Option<BaseValueView>,
    ErrorView,
> {
    effective_value_from(g, spec_walk(g, start).0, name, 0, spec_walk(g, start).1)
}

/// Resolves a descriptor-definition property self-first across the `Extends` lineage.
pub fn effective_property_value(g: &HolonGraph, start: HolonReference, name: &PropertyName) -> (res:
    Result<Option<BaseValue>, HolonError>)
    ensures
        rview(res) == spec_effective_property_value(g@, start, name@),
{
    let w = walk_extends_chain(g, start);
    let mut i: usize = 0;
    while i < w.members.len()
        invariant
            i <= w.members.len(),
            w.spec_view() == spec_walk(g@, start),
            effective_value_from(g@, w.members@, name@, i as int, crate::inheritance::opt_error_view(w.error))
                == effective_value_from(g@, w.members@, name@, 0, crate::inheritance::opt_error_view(w.error)),
        decreases w.members.len() - i,
    {
        match g.property_value(w.members[i], name)? {
            Some(v) => {
                return Ok(Some(v));
            },
            None => {},
        }
        i = i + 1;
    }
    match w.error {
        Some(e) => Err(e),
        None => Ok(None),
    }
}


/// Scans `ms` from `i` for a member named `requested`, rejecting any name seen twice.
///
/// Every member's `TypeName` must be readable. A repeated name is a
/// `DuplicateInheritedDeclaration` even when it is not the requested one;
/// otherwise the (unique) member named `requested` is returned, or
/// `DescriptorDeclarationNotFound` when there is none.
pub open spec fn scan_by_name(
    g: Seq<HolonView>,
    ms: Seq<HolonReference>,
    i: int,
    seen: Seq<Seq<char>>,
    found: Option<HolonReference>,
    requested: Seq<char>,
    kind: Seq<char>,
    owner: HolonReference,
) -> Result<HolonReference, ErrorView>
    decreases ms.len() - i,
{
    if 0 <= i < ms.len() {
        match spec_type_name(g, ms[i]) {
            Err(e) => Err(e),
            Ok(n) => if seen.contains(n) {
                Err(ErrorView::DuplicateInheritedDeclaration { kind, name: n, descriptor: owner })
            } else {
                scan_by_name(
                    g,
                    ms,
                    i + 1,
                    seen.push(n),
                    if n == requested {
                        Some(ms[i])
                    } else {
                        found
                    },
                    requested,
                    kind,
                    owner,
                )
            },
        }
    } else {
        match found {
            Some(d) => Ok(d),
            None => Err(
                ErrorView::DescriptorDeclarationNotFound { kind, name: requested, descriptor: owner },
            ),
        }
    }
}

/// The unique member of `ms` named `requested`, under the duplicate policy of `scan_by_name`.
pub open spec fn spec_find_by_name(
    g: Seq<HolonView>,
    ms: Seq<HolonReference>,
    requested: Seq<char>,
    kind: Seq<char>,
    owner: HolonReference,
) -> Result<HolonReference, ErrorView> {
    scan_by_name(g, ms, 0, Seq::empty(), None, requested, kind, owner)
}

proof fn lemma_scan_by_name(
    g: Seq<HolonView>,
    ms: Seq<HolonReference>,
    i: int,
    seen: Seq<Seq<char>>,
    found: Option<HolonReference>,
    requested: Seq<char>,
    kind: Seq<char>,
    owner: HolonReference,
)
    requires
        0 <= i <= ms.len(),
        scan_by_name(g, ms, i, seen, found, requested, kind, owner) is Ok,
    ensures
        ({
            let d = scan_by_name(g, ms, i, seen, found, requested, kind, owner)->Ok_0;
            found == Some(d) || exists|j: int|
                i <= j < ms.len() && ms[j] == d && spec_type_name(g, ms[j]) == Ok::<Seq<char>, ErrorView>(requested)
        }),
        forall|j: int| i <= j < ms.len() ==> #[trigger] spec_type_name(g, ms[j]) is Ok,
        forall|j: int| i <= j < ms.len() ==> !seen.contains(#[trigger] spec_type_name(g, ms[j])->Ok_0),
        forall|j: int, k: int|
            i <= j < k < ms.len() ==> #[trigger] spec_type_name(g, ms[j])->Ok_0 != #[trigger] spec_type_name(
                g,
                ms[k],
            )->Ok_0,
    decreases ms.len() - i,
{
    if i < ms.len() {
        let n = spec_type_name(g, ms[i])->Ok_0;
        let f2 = if n == requested { Some(ms[i]) } else { found };
        lemma_scan_by_name(g, ms, i + 1, seen.push(n), f2, requested, kind, owner);
        assert forall|j: int| i <= j < ms.len() implies !seen.contains(#[trigger] spec_type_name(g, ms[j])->Ok_0) by {
            if j > i {
                assert(!seen.push(n).contains(spec_type_name(g, ms[j])->Ok_0));
                if seen.contains(spec_type_name(g, ms[j])->Ok_0) {
                    let w = choose|w: int| 0 <= w < seen.len() && seen[w] == spec_type_name(g, ms[j])->Ok_0;
                    assert(seen.push(n)[w] == seen[w]);
                }
            }
        }
        assert forall|j: int, k: int| i <= j < k < ms.len() implies #[trigger] spec_type_name(g, ms[j])->Ok_0
            != #[trigger] spec_type_name(g, ms[k])->Ok_0 by {
            if j == i {
                assert(seen.push(n)[seen.len() as int] == n);
                assert(!seen.push(n).contains(spec_type_name(g, ms[k])->Ok_0));
            }
        }
    }
}

/// A by-name lookup that succeeds returns a member carrying the requested
/// name, and every member then has a readable name that no other member shares:
/// the declaration found is the only one so named.
pub proof fn law_found_declaration_is_the_one_named(
    g: Seq<HolonView>,
    ms: Seq<HolonReference>,
    requested: Seq<char>,
    kind: Seq<char>,
    owner: HolonReference,
)
    requires
        spec_find_by_name(g, ms, requested, kind, owner) is Ok,
    ensures
        exists|j: int|
            0 <= j < ms.len() && ms[j] == spec_find_by_name(g, ms, requested, kind, owner)->Ok_0 && spec_type_name(
                g,
                ms[j],
            ) == Ok::<Seq<char>, ErrorView>(requested),
        forall|j: int, k: int|
            0 <= j < k < ms.len() ==> #[trigger] spec_type_name(g, ms[j])->Ok_0 != #[trigger] spec_type_name(
                g,
                ms[k],
            )->Ok_0,
{
    lemma_scan_by_name(g, ms, 0, Seq::empty(), None, requested, kind, owner);
}

/// Returns whether `names` holds a name equal to `x`.
pub fn names_contain(names: &Vec<MapString>, x: &MapString) -> (r: bool)
    ensures
        r == names.deep_view().contains(x@),
{
    let mut i: usize = 0;
    while i < names.len()
        invariant
            i <= names.len(),
            forall|j: int| 0 <= j < i ==> names.deep_view()[j] != x@,
        decreases names.len() - i,
    {
        if names[i].equals(x) {
            proof {
                assert(names.deep_view()[i as int] == x@);
            }
            return true;
        }
        i = i + 1;
    }
    proof {
        assert forall|j: int| 0 <= j < names.deep_view().len() implies names.deep_view()[j] != x@ by {}
    }
    false
}

/// Finds the unique member of `members` whose `TypeName` is `requested`.
pub fn find_unique_by_name(
    g: &HolonGraph,
    members: &Vec<HolonReference>,
    requested: &MapString,
    kind: &str,
    owner: HolonReference,
) -> (res: Result<HolonReference, HolonError>)
    ensures
        rview(res) == spec_find_by_name(g@, members@, requested@, kind@, owner),
{
    let mut seen: Vec<MapString> = Vec::new();
    assert(seen.deep_view() =~= Seq::<Seq<char>>::empty());
    let mut found: Option<HolonReference> = None;
    let mut i: usize = 0;
    while i < members.len()
        invariant
            i <= members.len(),
            scan_by_name(g@, members@, i as int, seen.deep_view(), found, requested@, kind@, owner)
                == spec_find_by_name(g@, members@, requested@, kind@, owner),
        decreases members.len() - i,
    {
        let name = TypeHeader::new(members[i]).declared_type_name(g)?;
        if names_contain(&seen, &name) {
            return Err(
                HolonError::DuplicateInheritedDeclaration {
                    kind: String::from_str(kind),
                    name: name.0,
                    descriptor: owner,
                },
            );
        }
        if name.equals(requested) {
            found = Some(members[i]);
        }
        let ghost before = seen.deep_view();
        seen.push(name);
        assert(seen.deep_view() =~= before.push(name@));
        i = i + 1;
    }
    match found {
        Some(d) => Ok(d),
        None => Err(
            HolonError::DescriptorDeclarationNotFound {
                kind: String::from_str(kind),
                name: requested.to_owned_string(),
                descriptor: owner,
            },
        ),
    }
}

/// A search for one name finds the first lineage member that reads it, or none.
pub proof fn lemma_first_named(g: Seq<HolonView>, ms: Seq<HolonReference>, name: Seq<char>, i: int)
    requires
        0 <= i <= ms.len(),
    ensures
        first_expected_member(g, ms, seq![name], i) >= 0 ==> i <= first_expected_member(g, ms, seq![name], i)
            < ms.len() && spec_type_name(g, ms[first_expected_member(g, ms, seq![name], i)]) == Ok::<
            Seq<char>,
            ErrorView,
        >(name),
        first_expected_member(g, ms, seq![name], i) < 0 ==> forall|k: int|
            i <= k < ms.len() ==> #[trigger] spec_type_name(g, ms[k]) != Ok::<Seq<char>, ErrorView>(name),
    decreases ms.len() - i,
{
    if i < ms.len() {
        lemma_first_named(g, ms, name, i + 1);
        if let Ok(n) = spec_type_name(g, ms[i]) {
            assert(name_position(seq![name], n, 0) >= 0 <==> n == name) by {
                if n != name {
                    assert(name_position(seq![name], n, 1) == -1);
                }
            }
        }
    }
}

} // verus!
