//! Runtime wrapper for relationship descriptors.
use crate::accessor_helpers::{optional_string, relationship_full_relationship_name, require_bool, require_single_related, spec_full_relationship_name, spec_optional_string, spec_require_bool, spec_require_single_related};
use crate::descriptor::Descriptor;
use crate::error::{rview, ErrorView, HolonError};
use crate::graph::{spec_related, HolonGraph, HolonReference, HolonView};
use crate::holon_descriptor::HolonDescriptor;
use crate::names::{CoreHolonTypeName, CorePropertyTypeName, CoreRelationshipTypeName};
use crate::type_header::{spec_type_name, TypeHeader};
use crate::values::{MapString, RelationshipName};
use vstd::prelude::*;
use crate::accessor_helpers::{effective_property_value, first_expected_member, lemma_first_named, spec_effective_property_value, spec_search_extends};
use crate::inheritance::spec_walk;
use crate::declared_relationship_descriptor::DeclaredRelationshipDescriptor;
use crate::holon_descriptor::{holon_descriptor, spec_holon_descriptor};
use crate::inverse_relationship_descriptor::InverseRelationshipDescriptor;
use crate::graph::spec_property_value;
use crate::values::{BaseValue, BaseValueView, PropertyName};
use vstd::string::*;

verus! {

/// Physical target semantics selected by a completed relationship descriptor.
#[derive(Clone, Copy, Debug, PartialEq, Eq, Structural)]
pub enum TargetBinding {
    Version,
    Lineage,
}

/// Inclusive bounds admitted by directly attached cardinality constraints.
#[derive(Clone, Copy, Debug, PartialEq, Eq, Structural)]
pub struct EffectiveCardinality {
    /// Greatest inclusive minimum across the direct cardinality constraints.
    pub minimum: i64,
    /// No finite upper bound is represented by `None`, never a sentinel.
    pub maximum: Option<i64>,
}

impl DeepView for TargetBinding {
    type V = TargetBinding;

    open spec fn deep_view(&self) -> TargetBinding {
        *self
    }
}

impl DeepView for EffectiveCardinality {
    type V = EffectiveCardinality;

    open spec fn deep_view(&self) -> EffectiveCardinality {
        *self
    }
}

/// Whether the lineage of `r` reaches `DeclaredRelationshipType`.
pub open spec fn spec_declared_kind(g: Seq<HolonView>, r: HolonReference) -> Result<int, ErrorView> {
    spec_search_extends(g, r, seq![CoreHolonTypeName::DeclaredRelationshipType.spec_name()])
}

/// Whether the lineage of `r` reaches `InverseRelationshipType`.
pub open spec fn spec_inverse_kind(g: Seq<HolonView>, r: HolonReference) -> Result<int, ErrorView> {
    spec_search_extends(g, r, seq![CoreHolonTypeName::InverseRelationshipType.spec_name()])
}

/// `r` accepted as a declared relationship descriptor, or the classification error.
pub open spec fn spec_as_declared(g: Seq<HolonView>, r: HolonReference) -> Result<HolonReference, ErrorView> {
    match spec_declared_kind(g, r) {
        Ok(_) => Ok(r),
        Err(e) => Err(e),
    }
}

/// `r` accepted as an inverse relationship descriptor, or the classification error.
pub open spec fn spec_as_inverse(g: Seq<HolonView>, r: HolonReference) -> Result<HolonReference, ErrorView> {
    match spec_inverse_kind(g, r) {
        Ok(_) => Ok(r),
        Err(e) => Err(e),
    }
}

/// The membership cache age: zero when unset, the value when a non-negative integer.
pub open spec fn spec_membership_cache_max_age(g: Seq<HolonView>, r: HolonReference) -> Result<u64, ErrorView> {
    match spec_effective_property_value(g, r, CorePropertyTypeName::MembershipCacheMaxAgeMillis.spec_name()) {
        Err(e) => Err(e),
        Ok(None) => Ok(0),
        Ok(Some(BaseValueView::IntegerValue(v))) => if v >= 0 {
            Ok(v as u64)
        } else {
            Err(ErrorView::InvalidParameter("MembershipCacheMaxAgeMillis must be a nonnegative integer"@))
        },
        Ok(Some(_)) => Err(
            ErrorView::InvalidParameter("MembershipCacheMaxAgeMillis must be a nonnegative integer"@),
        ),
    }
}

/// The declared target binding: `Version` or `Lineage`.
pub open spec fn spec_target_binding(g: Seq<HolonView>, r: HolonReference) -> Result<TargetBinding, ErrorView> {
    match crate::accessor_helpers::spec_optional_string(g, r, CorePropertyTypeName::TargetBinding.spec_name()) {
        Err(e) => Err(e),
        Ok(None) => Err(ErrorView::EmptyField(CorePropertyTypeName::TargetBinding.spec_name())),
        Ok(Some(s)) => if s == "Version"@ {
            Ok(TargetBinding::Version)
        } else if s == "Lineage"@ {
            Ok(TargetBinding::Lineage)
        } else {
            Err(ErrorView::InvalidParameter("Relationship descriptor has invalid TargetBinding enum value"@))
        },
    }
}

/// The diagnostic of a cardinality bound that is not a non-negative integer.
pub open spec fn bound_message(name: Seq<char>) -> Seq<char> {
    "Invalid cardinality: "@ + name + " must be a non-negative integer"@
}

/// An optional non-negative integer bound of a cardinality constraint.
pub open spec fn spec_cardinality_bound(g: Seq<HolonView>, c: HolonReference, name: Seq<char>) -> Result<
    Option<i64>,
    ErrorView,
> {
    match spec_property_value(g, c, name) {
        Err(e) => Err(e),
        Ok(None) => Ok(None),
        Ok(Some(BaseValueView::IntegerValue(v))) => if v >= 0 {
            Ok(Some(v))
        } else {
            Err(ErrorView::InvalidParameter(bound_message(name)))
        },
        Ok(Some(_)) => Err(ErrorView::InvalidParameter(bound_message(name))),
    }
}

pub open spec fn min_bound(current: Option<i64>, m: Option<i64>) -> Option<i64> {
    match m {
        None => current,
        Some(m) => match current {
            None => Some(m),
            Some(c) => Some(if m < c { m } else { c }),
        },
    }
}

/// One step of combining direct constraints: (greatest minimum, least maximum, any found).
pub open spec fn cardinality_step(g: Seq<HolonView>, c: HolonReference, acc: (i64, Option<i64>, bool)) -> Result<
    (i64, Option<i64>, bool),
    ErrorView,
> {
    match spec_holon_descriptor(g, c) {
        Err(e) => Err(e),
        Ok(d) => match spec_type_name(g, d) {
            Err(e) => Err(e),
            Ok(n) => if n != CoreHolonTypeName::CardinalityConstraint.spec_name() {
                Ok(acc)
            } else {
                match spec_cardinality_bound(g, c, "Minimum"@) {
                    Err(e) => Err(e),
                    Ok(None) => Err(ErrorView::InvalidParameter("Invalid cardinality: missing Minimum"@)),
                    Ok(Some(mn)) => match spec_cardinality_bound(g, c, "Maximum"@) {
                        Err(e) => Err(e),
                        Ok(mx) => if mx is Some && mx->0 < mn {
                            Err(ErrorView::InvalidParameter("Invalid cardinality: Maximum is less than Minimum"@))
                        } else {
                            Ok((if acc.0 < mn { mn } else { acc.0 }, min_bound(acc.1, mx), true))
                        },
                    },
                }
            },
        },
    }
}

/// Combines the first `n` constraints of `cs`, starting from no bounds.
pub open spec fn cardinality_upto(g: Seq<HolonView>, cs: Seq<HolonReference>, n: int) -> Result<
    (i64, Option<i64>, bool),
    ErrorView,
>
    decreases n,
{
    if n <= 0 {
        Ok((0, None, false))
    } else {
        match cardinality_upto(g, cs, n - 1) {
            Err(e) => Err(e),
            Ok(acc) => cardinality_step(g, cs[n - 1], acc),
        }
    }
}

/// Direct cardinality: the intersection of the bounds of the directly attached
/// constraints whose describing type is named `CardinalityConstraint`.
pub open spec fn spec_effective_cardinality(g: Seq<HolonView>, r: HolonReference) -> Result<
    EffectiveCardinality,
    ErrorView,
> {
    match spec_related(g, r, CoreRelationshipTypeName::Constraints.spec_name()) {
        Err(e) => Err(e),
        Ok(cs) => match cardinality_upto(g, cs, cs.len() as int) {
            Err(e) => Err(e),
            Ok(acc) => if !acc.2 {
                Err(ErrorView::InvalidParameter("Invalid cardinality: no direct CardinalityConstraint"@))
            } else if acc.1 is Some && acc.1->0 < acc.0 {
                Err(
                    ErrorView::InvalidParameter(
                        "Invalid cardinality: direct cardinality constraints have an empty intersection"@,
                    ),
                )
            } else {
                Ok(EffectiveCardinality { minimum: acc.0, maximum: acc.1 })
            },
        },
    }
}

/// Whether the bounds `(minimum, maximum)` lie within those of `c` when `c` is a
/// cardinality constraint (constraints of other types bound nothing).
pub open spec fn within_constraint(g: Seq<HolonView>, c: HolonReference, minimum: i64, maximum: Option<i64>) -> bool {
    match spec_holon_descriptor(g, c) {
        Ok(d) => spec_type_name(g, d) == Ok::<Seq<char>, ErrorView>(CoreHolonTypeName::CardinalityConstraint.spec_name())
            ==> match spec_cardinality_bound(g, c, "Minimum"@) {
            Ok(Some(mn)) => mn <= minimum && match spec_cardinality_bound(g, c, "Maximum"@) {
                Ok(None) => true,
                Ok(Some(mx)) => maximum is Some && maximum->0 <= mx,
                Err(_) => false,
            },
            _ => false,
        },
        Err(_) => false,
    }
}

proof fn lemma_cardinality_upto_bounds(g: Seq<HolonView>, cs: Seq<HolonReference>, n: int)
    requires
        0 <= n <= cs.len(),
        cardinality_upto(g, cs, n) is Ok,
    ensures
        cardinality_upto(g, cs, n)->Ok_0.0 >= 0,
        cardinality_upto(g, cs, n)->Ok_0.1 is Some ==> cardinality_upto(g, cs, n)->Ok_0.1->0 >= 0,
        forall|i: int|
            0 <= i < n ==> within_constraint(
                g,
                #[trigger] cs[i],
                cardinality_upto(g, cs, n)->Ok_0.0,
                cardinality_upto(g, cs, n)->Ok_0.1,
            ),
    decreases n,
{
    if n > 0 {
        lemma_cardinality_upto_bounds(g, cs, n - 1);
        let prev = cardinality_upto(g, cs, n - 1)->Ok_0;
        let acc = cardinality_upto(g, cs, n)->Ok_0;
        assert(acc.0 >= prev.0);
        assert(prev.1 is Some ==> acc.1 is Some && acc.1->0 <= prev.1->0);
        assert forall|i: int| 0 <= i < n implies within_constraint(g, #[trigger] cs[i], acc.0, acc.1) by {
            if i < n - 1 {
                assert(within_constraint(g, cs[i], prev.0, prev.1));
            }
        }
    }
}

/// Effective cardinality is a non-empty range of non-negative bounds that lies
/// within the bounds of every directly attached cardinality constraint: the
/// intersection of those bounds.
pub proof fn law_effective_cardinality_is_the_intersection(g: Seq<HolonView>, r: HolonReference)
    requires
        spec_effective_cardinality(g, r) is Ok,
    ensures
        ({
            let c = spec_effective_cardinality(g, r)->Ok_0;
            let cs = spec_related(g, r, CoreRelationshipTypeName::Constraints.spec_name())->Ok_0;
            &&& 0 <= c.minimum
            &&& c.maximum is Some ==> c.minimum <= c.maximum->0
            &&& forall|i: int| 0 <= i < cs.len() ==> within_constraint(g, #[trigger] cs[i], c.minimum, c.maximum)
        }),
{
    let cs = spec_related(g, r, CoreRelationshipTypeName::Constraints.spec_name())->Ok_0;
    lemma_cardinality_upto_bounds(g, cs, cs.len() as int);
}

proof fn lemma_cardinality_error_persists(g: Seq<HolonView>, cs: Seq<HolonReference>, n: int, m: int)
    requires
        n <= m,
        cardinality_upto(g, cs, n) is Err,
    ensures
        cardinality_upto(g, cs, m) == cardinality_upto(g, cs, n),
    decreases m - n,
{
    if n < m {
        lemma_cardinality_error_persists(g, cs, n, m - 1);
    }
}

fn cardinality_bound(g: &HolonGraph, c: HolonReference, name: &str) -> (res: Result<Option<i64>, HolonError>)
    ensures
        rview(res) == spec_cardinality_bound(g@, c, name@),
{
    let pname = PropertyName::from_str(name);
    match g.property_value(c, &pname)? {
        None => Ok(None),
        Some(BaseValue::IntegerValue(v)) => {
            if v.0 >= 0 {
                Ok(Some(v.0))
            } else {
                Err(HolonError::InvalidParameter(bound_error_message(name)))
            }
        },
        Some(_) => Err(HolonError::InvalidParameter(bound_error_message(name))),
    }
}

fn bound_error_message(name: &str) -> (s: String)
    ensures
        s@ == bound_message(name@),
{
    let mut s = String::from_str("Invalid cardinality: ");
    s.append(name);
    s.append(" must be a non-negative integer");
    s
}

/// Runtime wrapper for relationship descriptors.
pub struct RelationshipDescriptor {
    holon: HolonReference,
}

impl View for RelationshipDescriptor {
    type V = HolonReference;

    closed spec fn view(&self) -> HolonReference {
        self.holon
    }
}

impl DeepView for RelationshipDescriptor {
    type V = HolonReference;

    open spec fn deep_view(&self) -> HolonReference {
        self@
    }
}

impl Descriptor for RelationshipDescriptor {
    open spec fn spec_holon(&self) -> HolonReference {
        self@
    }

    fn holon(&self) -> (r: HolonReference) {
        self.holon
    }
}

impl From<HolonReference> for RelationshipDescriptor {
    fn from(holon: HolonReference) -> (d: Self)
        ensures
            d@ == holon,
    {
        Self { holon }
    }
}

impl vstd::std_specs::convert::FromSpecImpl<HolonReference> for RelationshipDescriptor {
    open spec fn obeys_from_spec() -> bool {
        true
    }

    closed spec fn from_spec(v: HolonReference) -> Self {
        RelationshipDescriptor { holon: v }
    }
}

/// Wraps each reference of `members`, preserving order.
pub fn wrap_all_relationship_descriptor(members: Vec<HolonReference>) -> (r: Vec<RelationshipDescriptor>)
    ensures
        r.deep_view() == members@,
{
    let mut out: Vec<RelationshipDescriptor> = Vec::new();
    let mut i: usize = 0;
    while i < members.len()
        invariant
            i <= members.len(),
            out.deep_view() == members@.subrange(0, i as int),
        decreases members.len() - i,
    {
        let ghost before = out.deep_view();
        out.push(RelationshipDescriptor { holon: members[i] });
        assert(out.deep_view() =~= before.push(members@[i as int]));
        assert(members@.subrange(0, i as int).push(members@[i as int]) =~= members@.subrange(0, i + 1));
        i = i + 1;
    }
    assert(members@.subrange(0, i as int) =~= members@);
    out
}

impl RelationshipDescriptor {
    /// Wraps an already-resolved descriptor holon reference.
    pub fn from_holon(holon: HolonReference) -> (d: Self)
        ensures
            d@ == holon,
    {
        Self { holon }
    }

    /// Projects the shared descriptor header view for this descriptor holon.
    pub fn header(&self) -> (h: TypeHeader)
        ensures
            h.holon == self@,
    {
        TypeHeader::new(self.holon)
    }

    /// Returns whether the relationship participates in defining identity or structure.
    pub fn is_definitional(&self, g: &HolonGraph) -> (res: Result<bool, HolonError>)
        ensures
            rview(res) == spec_require_bool(g@, self@, CorePropertyTypeName::IsDefinitional.spec_name()),
    {
        require_bool(g, self.holon, &CorePropertyTypeName::IsDefinitional.as_property_name())
    }

    /// Returns whether related members have schema-significant order.
    pub fn is_ordered(&self, g: &HolonGraph) -> (res: Result<bool, HolonError>)
        ensures
            rview(res) == spec_require_bool(g@, self@, CorePropertyTypeName::IsOrdered.spec_name()),
    {
        require_bool(g, self.holon, &CorePropertyTypeName::IsOrdered.as_property_name())
    }

    /// Returns whether repeated target references are allowed.
    pub fn allows_duplicates(&self, g: &HolonGraph) -> (res: Result<bool, HolonError>)
        ensures
            rview(res) == spec_require_bool(g@, self@, CorePropertyTypeName::AllowsDuplicates.spec_name()),
    {
        require_bool(g, self.holon, &CorePropertyTypeName::AllowsDuplicates.as_property_name())
    }

    /// Returns the optional deletion semantic declared by this relationship, when populated.
    pub fn deletion_semantic(&self, g: &HolonGraph) -> (res: Result<Option<MapString>, HolonError>)
        ensures
            rview(res) == spec_optional_string(g@, self@, CorePropertyTypeName::DeletionSemantic.spec_name()),
    {
        optional_string(g, self.holon, &CorePropertyTypeName::DeletionSemantic.as_property_name())
    }

    /// Returns this descriptor's base relationship name: its `TypeName`.
    pub fn base_relationship_name(&self, g: &HolonGraph) -> (res: Result<RelationshipName, HolonError>)
        ensures
            rview(res) == spec_type_name(g@, self@),
    {
        let n = TypeHeader::new(self.holon).declared_type_name(g)?;
        Ok(RelationshipName(n))
    }

    /// Returns the source holon descriptor reached through the required `SourceType` relationship.
    pub fn source_type(&self, g: &HolonGraph) -> (res: Result<HolonDescriptor, HolonError>)
        ensures
            rview(res) == spec_require_single_related(g@, self@, CoreRelationshipTypeName::SourceType),
    {
        let s = require_single_related(g, self.holon, CoreRelationshipTypeName::SourceType)?;
        Ok(HolonDescriptor::from_holon(s))
    }

    /// Returns the target holon descriptor reached through the required `TargetType` relationship.
    pub fn target_type(&self, g: &HolonGraph) -> (res: Result<HolonDescriptor, HolonError>)
        ensures
            rview(res) == spec_require_single_related(g@, self@, CoreRelationshipTypeName::TargetType),
    {
        let t = require_single_related(g, self.holon, CoreRelationshipTypeName::TargetType)?;
        Ok(HolonDescriptor::from_holon(t))
    }

    /// Returns the full `(Source)-[Base]->(Target)` relationship name.
    pub fn full_relationship_name(&self, g: &HolonGraph) -> (res: Result<MapString, HolonError>)
        ensures
            rview(res) == spec_full_relationship_name(g@, self@),
    {
        relationship_full_relationship_name(g, self.holon)
    }

    /// Maximum age of cached mutable membership in milliseconds, inherited along
    /// `Extends`; missing means zero (fresh reads required).
    pub fn membership_cache_max_age_millis(&self, g: &HolonGraph) -> (res: Result<u64, HolonError>)
        ensures
            rview(res) == spec_membership_cache_max_age(g@, self@),
    {
        let name = CorePropertyTypeName::MembershipCacheMaxAgeMillis.as_property_name();
        match effective_property_value(g, self.holon, &name)? {
            None => Ok(0),
            Some(BaseValue::IntegerValue(v)) => {
                if v.0 >= 0 {
                    Ok(v.0 as u64)
                } else {
                    Err(HolonError::InvalidParameter(String::from_str("MembershipCacheMaxAgeMillis must be a nonnegative integer")))
                }
            },
            Some(_) => Err(HolonError::InvalidParameter(String::from_str("MembershipCacheMaxAgeMillis must be a nonnegative integer"))),
        }
    }

    /// Returns the completed physical-target binding declared for this direction.
    pub fn target_binding(&self, g: &HolonGraph) -> (res: Result<TargetBinding, HolonError>)
        ensures
            rview(res) == spec_target_binding(g@, self@),
    {
        let name = CorePropertyTypeName::TargetBinding.as_property_name();
        match optional_string(g, self.holon, &name)? {
            None => Err(HolonError::EmptyField(name.0.0)),
            Some(s) => {
                if s.equals(&MapString::from_str("Version")) {
                    Ok(TargetBinding::Version)
                } else if s.equals(&MapString::from_str("Lineage")) {
                    Ok(TargetBinding::Lineage)
                } else {
                    Err(HolonError::InvalidParameter(String::from_str("Relationship descriptor has invalid TargetBinding enum value")))
                }
            },
        }
    }

    /// Narrows this descriptor to a declared relationship descriptor.
    pub fn try_into_declared_relationship_descriptor(self, g: &HolonGraph) -> (res: Result<
        DeclaredRelationshipDescriptor,
        HolonError,
    >)
        ensures
            rview(res) == spec_as_declared(g@, self@),
    {
        DeclaredRelationshipDescriptor::try_from_holon(g, self.holon)
    }

    /// Narrows this descriptor to an inverse relationship descriptor.
    pub fn try_into_inverse_relationship_descriptor(self, g: &HolonGraph) -> (res: Result<
        InverseRelationshipDescriptor,
        HolonError,
    >)
        ensures
            rview(res) == spec_as_inverse(g@, self@),
    {
        InverseRelationshipDescriptor::try_from_holon(g, self.holon)
    }

    /// Combines the bounds of directly attached cardinality constraints.
    ///
    /// Reads only configured constraints, never the relationship's target population.
    pub fn effective_cardinality(&self, g: &HolonGraph) -> (res: Result<EffectiveCardinality, HolonError>)
        ensures
            rview(res) == spec_effective_cardinality(g@, self@),
    {
        let constraints = g.related_core(self.holon, CoreRelationshipTypeName::Constraints)?;
        let mut minimum: i64 = 0;
        let mut maximum: Option<i64> = None;
        let mut found = false;
        let mut i: usize = 0;
        let ghost cs = constraints@;
        while i < constraints.len()
            invariant
                i <= constraints.len(),
                cs == constraints@,
                spec_related(g@, self@, CoreRelationshipTypeName::Constraints.spec_name()) == Ok::<
                    Seq<HolonReference>,
                    ErrorView,
                >(cs),
                cardinality_upto(g@, cs, i as int) == Ok::<(i64, Option<i64>, bool), ErrorView>(
                    (minimum, maximum, found),
                ),
            decreases constraints.len() - i,
        {
            let constraint = constraints[i];
            let step = self.cardinality_step_exec(g, constraint, minimum, maximum, found);
            match step {
                Err(e) => {
                    proof {
                        lemma_cardinality_error_persists(g@, cs, i + 1, cs.len() as int);
                    }
                    return Err(e);
                },
                Ok((mn, mx, f)) => {
                    minimum = mn;
                    maximum = mx;
                    found = f;
                },
            }
            i = i + 1;
        }
        if !found {
            return Err(HolonError::InvalidParameter(String::from_str("Invalid cardinality: no direct CardinalityConstraint")));
        }
        match maximum {
            Some(mx) => {
                if mx < minimum {
                    return Err(HolonError::InvalidParameter(String::from_str("Invalid cardinality: direct cardinality constraints have an empty intersection")));
                }
            },
            None => {},
        }
        Ok(EffectiveCardinality { minimum, maximum })
    }

    fn cardinality_step_exec(
        &self,
        g: &HolonGraph,
        c: HolonReference,
        minimum: i64,
        maximum: Option<i64>,
        found: bool,
    ) -> (res: Result<(i64, Option<i64>, bool), HolonError>)
        ensures
            match res {
                Ok(t) => cardinality_step(g@, c, (minimum, maximum, found)) == Ok::<
                    (i64, Option<i64>, bool),
                    ErrorView,
                >(t),
                Err(e) => cardinality_step(g@, c, (minimum, maximum, found)) == Err::<
                    (i64, Option<i64>, bool),
                    ErrorView,
                >(e@),
            },
    {
        let d = holon_descriptor(g, c)?;
        let n = d.header().declared_type_name(g)?;
        if !n.equals(&CoreHolonTypeName::CardinalityConstraint.as_holon_name()) {
            return Ok((minimum, maximum, found));
        }
        let mn = match cardinality_bound(g, c, "Minimum")? {
            Some(m) => m,
            None => {
                return Err(HolonError::InvalidParameter(String::from_str("Invalid cardinality: missing Minimum")));
            },
        };
        let mx = cardinality_bound(g, c, "Maximum")?;
        match mx {
            Some(m) => {
                if m < mn {
                    return Err(HolonError::InvalidParameter(String::from_str("Invalid cardinality: Maximum is less than Minimum")));
                }
            },
            None => {},
        }
        let new_min = if minimum < mn { mn } else { minimum };
        let new_max = match mx {
            None => maximum,
            Some(m) => match maximum {
                None => Some(m),
                Some(c) => Some(if m < c { m } else { c }),
            },
        };
        Ok((new_min, new_max, true))
    }
}


/// Narrowing to a declared relationship descriptor keeps the reference
/// exactly when some member of its lineage (self first) is named
/// `DeclaredRelationshipType`; otherwise it fails with the error that ended
/// the walk, or, after a complete walk, with `WrongDescriptorKind`.
pub proof fn law_declared_narrowing(g: Seq<HolonView>, r: HolonReference)
    ensures
        ({
            let w = spec_walk(g, r);
            let name = CoreHolonTypeName::DeclaredRelationshipType.spec_name();
            let named = exists|k: int|
                0 <= k < w.0.len() && #[trigger] spec_type_name(g, w.0[k]) == Ok::<Seq<char>, ErrorView>(name);
            &&& named ==> spec_as_declared(g, r) == Ok::<HolonReference, ErrorView>(r)
            &&& (!named && w.1 is None) ==> (spec_as_declared(g, r) matches Err(ErrorView::WrongDescriptorKind { .. }))
            &&& (!named && w.1 is Some) ==> spec_as_declared(g, r) == Err::<HolonReference, ErrorView>(w.1->Some_0)
        }),
{
    let w = spec_walk(g, r);
    let name = CoreHolonTypeName::DeclaredRelationshipType.spec_name();
    lemma_first_named(g, w.0, name, 0);
    let k = first_expected_member(g, w.0, seq![name], 0);
    if k >= 0 {
        assert(spec_type_name(g, w.0[k]) == Ok::<Seq<char>, ErrorView>(name));
    }
}

} // verus!
