//! Universal property and relationship identities for one validation pass.
use crate::accessor_helpers::spec_require_bool;
use crate::error::{rview, ErrorView, HolonError};
use crate::graph::{holon_of, HolonGraph, HolonReference, HolonView};
use crate::holon_descriptor::HolonDescriptor;
use crate::inheritance::{equals_or_extends, flatten_related_members, spec_equals_or_extends, spec_flatten};
use crate::kind_semantics::spec_reference_usable;
use crate::names::{CorePropertyTypeName, CoreRelationshipTypeName};
use crate::resolved_descriptor_roots::{resolve_core_descriptor, spec_resolve_core_descriptor};
use crate::type_header::TypeHeader;

use crate::descriptor::Descriptor;
use crate::assessment_reader::{operational, CurrentDescriptorReader, prospective_identity, read_view, spec_identity, AssessmentReadError, DescriptorReader, ProspectiveIdentity, ReadErrorView};
use crate::contract_contributions::{spec_contract_contributions_with_reader, ContractContributions};
use crate::inheritance::EffectiveRelationshipMember;
use crate::resolved_descriptor_roots::{resolve_core_descriptor_with_reader, spec_resolve_core_descriptor_with_reader};
use crate::selected_lineage::{
    equals_or_extends_with_reader, law_current_reader_extends_ordinarily, spec_equals_or_extends_with_reader,
};
use vstd::prelude::*;

verus! {

/// Universal member identities: the prospective identities of the effective
/// instance contract of the meta-type descriptor, with the
/// descriptor-classification root.
///
/// Membership is computed once, never inferred from a member's name.
/// Discard this value before the schema changes.
pub struct UniversalDescriptorContract {
    descriptor_root: HolonReference,
    member_ids: Vec<ProspectiveIdentity>,
}

impl UniversalDescriptorContract {
    /// The descriptor-classification root.
    pub closed spec fn spec_root(&self) -> HolonReference {
        self.descriptor_root
    }

    /// The universal member identities.
    pub closed spec fn spec_members(&self) -> Seq<ProspectiveIdentity> {
        self.member_ids@
    }
}

/// The prospective identities of `ms[..n]`, in order; the first reference not
/// usable in the graph is reported.
pub open spec fn identities_upto(
    g: Seq<HolonView>,
    updates: Seq<(usize, usize)>,
    ms: Seq<HolonReference>,
    n: int,
) -> Result<Seq<ProspectiveIdentity>, ErrorView>
    decreases n,
{
    if n <= 0 {
        Ok(Seq::empty())
    } else {
        match identities_upto(g, updates, ms, n - 1) {
            Err(e) => Err(e),
            Ok(acc) => if holon_of(g, ms[n - 1]) is Some {
                Ok(acc.push(spec_identity(updates, ms[n - 1])))
            } else {
                Err(ErrorView::InvalidHolonReference(ms[n - 1]))
            },
        }
    }
}

/// The universal members of `meta_type`: the identities of its instance
/// properties, then of its instance relationships, across its lineage.
pub open spec fn spec_universal_members(
    g: Seq<HolonView>,
    updates: Seq<(usize, usize)>,
    meta_type: HolonReference,
    root: HolonReference,
) -> Result<Seq<ProspectiveIdentity>, ErrorView> {
    match spec_reference_usable(g, meta_type) {
        Err(e) => Err(e),
        Ok(_) => match spec_reference_usable(g, root) {
            Err(e) => Err(e),
            Ok(_) => match spec_flatten(g, meta_type, CoreRelationshipTypeName::InstanceProperties.spec_name()) {
                Err(e) => Err(e),
                Ok(ps) => match identities_upto(g, updates, ps, ps.len() as int) {
                    Err(e) => Err(e),
                    Ok(pi) => match spec_flatten(
                        g,
                        meta_type,
                        CoreRelationshipTypeName::InstanceRelationships.spec_name(),
                    ) {
                        Err(e) => Err(e),
                        Ok(rs) => match identities_upto(g, updates, rs, rs.len() as int) {
                            Err(e) => Err(e),
                            Ok(ri) => Ok(pi + ri),
                        },
                    },
                },
            },
        },
    }
}

/// `EnforceMinimum(holon, member)`: concrete holons enforce every minimum;
/// abstract descriptor holons enforce only universal members, compared by
/// prospective identity.
pub open spec fn spec_enforce_minimum(
    g: Seq<HolonView>,
    updates: Seq<(usize, usize)>,
    root: HolonReference,
    members: Seq<ProspectiveIdentity>,
    holon: HolonReference,
    member: HolonReference,
) -> Result<bool, ErrorView> {
    match spec_reference_usable(g, holon) {
        Err(e) => Err(e),
        Ok(_) => match spec_reference_usable(g, member) {
            Err(e) => Err(e),
            Ok(_) => match spec_equals_or_extends(g, holon, root) {
                Err(e) => Err(e),
                Ok(false) => Ok(true),
                Ok(true) => match spec_require_bool(g, holon, CorePropertyTypeName::IsAbstractType.spec_name()) {
                    Err(e) => Err(e),
                    Ok(is_abstract) => Ok(!is_abstract || members.contains(spec_identity(updates, member))),
                },
            },
        },
    }
}

/// The contract read through `reader`: the selected descriptor root, and the
/// identities of the selected effective instance contract of the selected
/// meta-type descriptor, properties first.
pub open spec fn spec_universal_contract_with_reader<R: DescriptorReader>(
    g: Seq<HolonView>,
    updates: Seq<(usize, usize)>,
    reader: R,
) -> Result<(HolonReference, Seq<ProspectiveIdentity>), ReadErrorView> {
    match spec_resolve_core_descriptor_with_reader(g, updates, reader, "MetaTypeDescriptor.HolonType"@) {
        Err(e) => Err(e),
        Ok(mt) => match spec_resolve_core_descriptor_with_reader(g, updates, reader, "TypeDescriptor"@) {
            Err(e) => Err(e),
            Ok(root) => match spec_contract_contributions_with_reader(g, reader, mt) {
                Err(e) => Err(e),
                Ok(c) => {
                    let ms = (c.0 + c.1).map_values(|m: EffectiveRelationshipMember| m.member);
                    match identities_upto(g, updates, ms, ms.len() as int) {
                        Err(e) => Err(ReadErrorView::Operational(e)),
                        Ok(ids) => Ok((root, ids)),
                    }
                },
            },
        },
    }
}

/// `EnforceMinimum` applied to the selected subject and member definitions.
pub open spec fn spec_enforce_minimum_with_reader<R: DescriptorReader>(
    g: Seq<HolonView>,
    updates: Seq<(usize, usize)>,
    reader: R,
    root: HolonReference,
    members: Seq<ProspectiveIdentity>,
    holon: HolonReference,
    member: HolonReference,
) -> Result<bool, ReadErrorView> {
    match reader.spec_select(g, holon) {
        Err(e) => Err(e),
        Ok(h) => match reader.spec_select(g, member) {
            Err(e) => Err(e),
            Ok(m) => match spec_reference_usable(g, h) {
                Err(e) => Err(ReadErrorView::Operational(e)),
                Ok(_) => match spec_equals_or_extends_with_reader(g, reader, h, root) {
                    Err(e) => Err(e),
                    Ok(false) => Ok(true),
                    Ok(true) => match spec_require_bool(g, h, CorePropertyTypeName::IsAbstractType.spec_name()) {
                        Err(e) => Err(ReadErrorView::Operational(e)),
                        Ok(false) => Ok(true),
                        Ok(true) => match spec_reference_usable(g, m) {
                            Err(e) => Err(ReadErrorView::Operational(e)),
                            Ok(_) => Ok(members.contains(spec_identity(updates, m))),
                        },
                    },
                },
            },
        },
    }
}

fn require_usable(g: &HolonGraph, r: HolonReference) -> (res: Result<(), HolonError>)
    ensures
        rview(res) == spec_reference_usable(g@, r),
{
    if g.is_valid(r) {
        Ok(())
    } else {
        Err(HolonError::InvalidHolonReference(r))
    }
}

proof fn lemma_identities_error_persists(
    g: Seq<HolonView>,
    updates: Seq<(usize, usize)>,
    ms: Seq<HolonReference>,
    n: int,
    m: int,
)
    requires
        n <= m,
        identities_upto(g, updates, ms, n) is Err,
    ensures
        identities_upto(g, updates, ms, m) == identities_upto(g, updates, ms, n),
    decreases m - n,
{
    if n < m {
        lemma_identities_error_persists(g, updates, ms, n, m - 1);
    }
}

/// Appends the prospective identities of `ms` to `out`; the first reference not
/// usable in the graph is reported.
fn push_identities(g: &HolonGraph, ms: &Vec<HolonReference>, out: &mut Vec<ProspectiveIdentity>) -> (res: Result<
    (),
    HolonError,
>)
    ensures
        match identities_upto(g@, g.spec_updates(), ms@, ms@.len() as int) {
            Ok(ids) => res is Ok && final(out)@ == old(out)@ + ids,
            Err(e) => res matches Err(x) && x@ == e,
        },
{
    let ghost start = out@;
    let mut i: usize = 0;
    while i < ms.len()
        invariant
            i <= ms.len(),
            identities_upto(g@, g.spec_updates(), ms@, i as int) matches Ok(ids) && out@ == start + ids,
        decreases ms.len() - i,
    {
        let ghost before = out@;
        match prospective_identity(g, ms[i]) {
            Ok(id) => {
                out.push(id);
                assert(out@ =~= before.push(id));
            },
            Err(e) => {
                proof {
                    lemma_identities_error_persists(g@, g.spec_updates(), ms@, i + 1, ms@.len() as int);
                }
                return Err(e);
            },
        }
        i = i + 1;
        assert(identities_upto(g@, g.spec_updates(), ms@, i as int) matches Ok(ids) && out@ == start + ids);
    }
    Ok(())
}

fn member_references(c: &Vec<EffectiveRelationshipMember>, out: &mut Vec<HolonReference>)
    ensures
        final(out)@ == old(out)@ + c@.map_values(|m: EffectiveRelationshipMember| m.member),
{
    let ghost start = out@;
    let mut i: usize = 0;
    while i < c.len()
        invariant
            i <= c.len(),
            out@ == start + c@.subrange(0, i as int).map_values(|m: EffectiveRelationshipMember| m.member),
        decreases c.len() - i,
    {
        out.push(c[i].member);
        i = i + 1;
        assert(out@ =~= start + c@.subrange(0, i as int).map_values(|m: EffectiveRelationshipMember| m.member));
    }
    assert(c@.subrange(0, i as int) =~= c@);
}

fn contains_identity(v: &Vec<ProspectiveIdentity>, x: ProspectiveIdentity) -> (b: bool)
    ensures
        b == v@.contains(x),
{
    let mut i: usize = 0;
    while i < v.len()
        invariant
            i <= v.len(),
            forall|j: int| 0 <= j < i ==> v@[j] != x,
        decreases v.len() - i,
    {
        if v[i] == x {
            return true;
        }
        i = i + 1;
    }
    false
}

impl UniversalDescriptorContract {
    /// Resolves the meta-type baseline and the descriptor-classification root by key.
    pub fn resolve(g: &HolonGraph) -> (res: Result<UniversalDescriptorContract, HolonError>)
        ensures
            match spec_resolve_core_descriptor(g@, g.spec_updates(), "MetaTypeDescriptor.HolonType"@) {
                Err(e) => rview_contract(res) == Err::<(HolonReference, Seq<ProspectiveIdentity>), ErrorView>(e),
                Ok(mt) => match spec_resolve_core_descriptor(g@, g.spec_updates(), "TypeDescriptor"@) {
                    Err(e) => rview_contract(res) == Err::<(HolonReference, Seq<ProspectiveIdentity>), ErrorView>(e),
                    Ok(root) => rview_contract(res) == match spec_universal_members(g@, g.spec_updates(), mt, root) {
                        Err(e) => Err(e),
                        Ok(ms) => Ok::<(HolonReference, Seq<ProspectiveIdentity>), ErrorView>((root, ms)),
                    },
                },
            },
    {
        let meta_type = resolve_core_descriptor(g, "MetaTypeDescriptor.HolonType")?;
        let root = resolve_core_descriptor(g, "TypeDescriptor")?;
        Self::from_resolved(g, &HolonDescriptor::from_holon(meta_type), root)
    }

    /// Builds the contract from resolved identities.
    pub fn from_resolved(g: &HolonGraph, meta_type: &HolonDescriptor, descriptor_root: HolonReference) -> (res: Result<
        UniversalDescriptorContract,
        HolonError,
    >)
        ensures
            rview_contract(res) == match spec_universal_members(g@, g.spec_updates(), meta_type@, descriptor_root) {
                Err(e) => Err(e),
                Ok(ms) => Ok::<(HolonReference, Seq<ProspectiveIdentity>), ErrorView>((descriptor_root, ms)),
            },
    {
        require_usable(g, meta_type.holon())?;
        require_usable(g, descriptor_root)?;
        let mut member_ids: Vec<ProspectiveIdentity> = Vec::new();
        let properties = flatten_related_members(g, meta_type.holon(), CoreRelationshipTypeName::InstanceProperties)?;
        push_identities(g, &properties, &mut member_ids)?;
        let relationships = flatten_related_members(
            g,
            meta_type.holon(),
            CoreRelationshipTypeName::InstanceRelationships,
        )?;
        push_identities(g, &relationships, &mut member_ids)?;
        Ok(UniversalDescriptorContract { descriptor_root, member_ids })
    }

    /// Resolves universal member identities from prospective content for an
    /// assessment of pending changes.
    pub fn resolve_with_reader<R: DescriptorReader>(g: &HolonGraph, reader: &R) -> (res: Result<
        UniversalDescriptorContract,
        AssessmentReadError,
    >)
        ensures
            match spec_universal_contract_with_reader(g@, g.spec_updates(), *reader) {
                Ok(c) => res matches Ok(x) && (x.spec_root(), x.spec_members()) == c,
                Err(e) => res matches Err(x) && x@ == e,
            },
    {
        let meta_type = resolve_core_descriptor_with_reader(g, "MetaTypeDescriptor.HolonType", reader)?;
        let descriptor_root = resolve_core_descriptor_with_reader(g, "TypeDescriptor", reader)?;
        let contributions = ContractContributions::resolve_with_reader(g, meta_type, reader)?;
        let mut refs: Vec<HolonReference> = Vec::new();
        member_references(&contributions.properties, &mut refs);
        member_references(&contributions.relationships, &mut refs);
        assert(refs@ =~= (contributions.properties@ + contributions.relationships@).map_values(
            |m: EffectiveRelationshipMember| m.member,
        ));
        let mut member_ids: Vec<ProspectiveIdentity> = Vec::new();
        match push_identities(g, &refs, &mut member_ids) {
            Ok(_) => {},
            Err(e) => {
                return Err(AssessmentReadError::Operational(e));
            },
        }
        assert(member_ids@ =~= Seq::<ProspectiveIdentity>::empty() + member_ids@);
        Ok(UniversalDescriptorContract { descriptor_root, member_ids })
    }

    /// Implements `EnforceMinimum(holon, member)` for a member of the holon's contract.
    ///
    /// Concrete holons enforce every minimum. Abstract descriptor holons may omit
    /// category-specific members, but universal members remain required.
    pub fn enforce_minimum(&self, g: &HolonGraph, holon: HolonReference, member: HolonReference) -> (res: Result<
        bool,
        HolonError,
    >)
        ensures
            rview(res) == spec_enforce_minimum(
                g@,
                g.spec_updates(),
                self.spec_root(),
                self.spec_members(),
                holon,
                member,
            ),
    {
        require_usable(g, holon)?;
        require_usable(g, member)?;
        let is_descriptor = equals_or_extends(g, holon, self.descriptor_root)?;
        if !is_descriptor {
            return Ok(true);
        }
        let is_abstract = TypeHeader::new(holon).is_abstract_type(g)?;
        if !is_abstract {
            return Ok(true);
        }
        let id = prospective_identity(g, member)?;
        Ok(contains_identity(&self.member_ids, id))
    }

    /// Applies the same minimum policy to the selected subject and member definitions.
    pub fn enforce_minimum_with_reader<R: DescriptorReader>(
        &self,
        g: &HolonGraph,
        holon: HolonReference,
        member: HolonReference,
        reader: &R,
    ) -> (res: Result<bool, AssessmentReadError>)
        ensures
            read_view(res) == spec_enforce_minimum_with_reader(
                g@,
                g.spec_updates(),
                *reader,
                self.spec_root(),
                self.spec_members(),
                holon,
                member,
            ),
    {
        let holon = reader.select(g, holon)?;
        let member = reader.select(g, member)?;
        match require_usable(g, holon) {
            Ok(_) => {},
            Err(e) => {
                return Err(AssessmentReadError::Operational(e));
            },
        }
        let is_descriptor = equals_or_extends_with_reader(g, holon, self.descriptor_root, reader)?;
        if !is_descriptor {
            return Ok(true);
        }
        let is_abstract = match TypeHeader::new(holon).is_abstract_type(g) {
            Ok(b) => b,
            Err(e) => {
                return Err(AssessmentReadError::Operational(e));
            },
        };
        if !is_abstract {
            return Ok(true);
        }
        match prospective_identity(g, member) {
            Ok(id) => Ok(contains_identity(&self.member_ids, id)),
            Err(e) => Err(AssessmentReadError::Operational(e)),
        }
    }
}

/// The root and members of a contract result.
pub open spec fn rview_contract(r: Result<UniversalDescriptorContract, HolonError>) -> Result<
    (HolonReference, Seq<ProspectiveIdentity>),
    ErrorView,
> {
    match r {
        Ok(c) => Ok((c.spec_root(), c.spec_members())),
        Err(e) => Err(e@),
    }
}


proof fn lemma_identities_are_the_map(g: Seq<HolonView>, updates: Seq<(usize, usize)>, ms: Seq<HolonReference>, n: int)
    requires
        0 <= n <= ms.len(),
        identities_upto(g, updates, ms, n) is Ok,
    ensures
        identities_upto(g, updates, ms, n)->Ok_0 == ms.subrange(0, n).map_values(
            |m: HolonReference| spec_identity(updates, m),
        ),
    decreases n,
{
    if n > 0 {
        lemma_identities_are_the_map(g, updates, ms, n - 1);
        assert(ms.subrange(0, n).map_values(|m: HolonReference| spec_identity(updates, m)) =~= ms.subrange(
            0,
            n - 1,
        ).map_values(|m: HolonReference| spec_identity(updates, m)).push(spec_identity(updates, ms[n - 1])));
    } else {
        assert(ms.subrange(0, 0).map_values(|m: HolonReference| spec_identity(updates, m)) =~= Seq::<
            ProspectiveIdentity,
        >::empty());
    }
}

/// The universal members are exactly the prospective identities of the meta
/// type's instance properties and then of its instance relationships, those
/// declared along its `Extends` lineage included.
pub proof fn law_universal_members_are_the_meta_contract(
    g: Seq<HolonView>,
    updates: Seq<(usize, usize)>,
    meta_type: HolonReference,
    root: HolonReference,
)
    ensures
        spec_universal_members(g, updates, meta_type, root) matches Ok(ids) ==> {
            &&& spec_flatten(g, meta_type, CoreRelationshipTypeName::InstanceProperties.spec_name()) matches Ok(ps)
            &&& spec_flatten(g, meta_type, CoreRelationshipTypeName::InstanceRelationships.spec_name()) matches Ok(
                rs,
            )
            &&& ids == (ps + rs).map_values(|m: HolonReference| spec_identity(updates, m))
        },
{
    if let Ok(ids) = spec_universal_members(g, updates, meta_type, root) {
        let ps = spec_flatten(g, meta_type, CoreRelationshipTypeName::InstanceProperties.spec_name())->Ok_0;
        let rs = spec_flatten(g, meta_type, CoreRelationshipTypeName::InstanceRelationships.spec_name())->Ok_0;
        lemma_identities_are_the_map(g, updates, ps, ps.len() as int);
        lemma_identities_are_the_map(g, updates, rs, rs.len() as int);
        assert(ps.subrange(0, ps.len() as int) =~= ps);
        assert(rs.subrange(0, rs.len() as int) =~= rs);
        assert((ps + rs).map_values(|m: HolonReference| spec_identity(updates, m)) =~= ps.map_values(
            |m: HolonReference| spec_identity(updates, m),
        ) + rs.map_values(|m: HolonReference| spec_identity(updates, m)));
    }
}


/// Applying the minimum policy through `CurrentDescriptorReader` gives the
/// ordinary `enforce_minimum` answer, each ordinary error reported as an
/// operational failure, for every member usable in the graph. (An unusable
/// member is refused up front by `enforce_minimum` and only when it matters,
/// for an abstract descriptor holon, by the reader form.)
pub proof fn law_current_reader_enforces_ordinary_minimum(
    g: Seq<HolonView>,
    updates: Seq<(usize, usize)>,
    root: HolonReference,
    members: Seq<ProspectiveIdentity>,
    holon: HolonReference,
    member: HolonReference,
)
    requires
        holon_of(g, member) is Some,
    ensures
        spec_enforce_minimum_with_reader(g, updates, CurrentDescriptorReader, root, members, holon, member)
            == operational(spec_enforce_minimum(g, updates, root, members, holon, member)),
{
    law_current_reader_extends_ordinarily(g, holon, root);
}

} // verus!
