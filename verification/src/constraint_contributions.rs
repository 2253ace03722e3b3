//! Parent and child effective constraint obligations, with attachment provenance.
use crate::assessment_reader::{AssessmentReadError, DescriptorReader, ReadErrorView};

use crate::graph::{HolonGraph, HolonReference, HolonView};
use crate::inheritance::EffectiveRelationshipMember;
use crate::names::CoreRelationshipTypeName;
use crate::selected_lineage::{effective_relationship_targets_with_reader, spec_effective_members_with_reader};
use crate::structural_diagnosis::ValidExtendsLineage;
use vstd::prelude::*;

verus! {

/// Parent and child effective obligations, retaining attachment provenance.
/// A broader local contribution cannot erase a retained inherited obligation.
#[derive(Clone, Debug)]
pub struct ConstraintContributions {
    pub parent: Option<HolonReference>,
    pub inherited: Vec<EffectiveRelationshipMember>,
    pub effective: Vec<EffectiveRelationshipMember>,
}

impl ConstraintContributions {
    /// The parent, inherited and effective obligations.
    pub open spec fn spec_view(&self) -> (
        Option<HolonReference>,
        Seq<EffectiveRelationshipMember>,
        Seq<EffectiveRelationshipMember>,
    ) {
        (self.parent, self.inherited@, self.effective@)
    }
}

/// The parent of a lineage, if it has one.
pub open spec fn lineage_parent(ms: Seq<HolonReference>) -> Option<HolonReference> {
    if ms.len() > 1 {
        Some(ms[1])
    } else {
        None
    }
}

/// The contributions of a valid lineage read through `reader`: the parent's
/// effective `Constraints` (none without a parent) and the subject's own.
pub open spec fn spec_constraint_contributions<R: DescriptorReader>(
    g: Seq<HolonView>,
    reader: R,
    ms: Seq<HolonReference>,
) -> Result<
    (Option<HolonReference>, Seq<EffectiveRelationshipMember>, Seq<EffectiveRelationshipMember>),
    ReadErrorView,
> {
    match (match lineage_parent(ms) {
        Some(p) => spec_effective_members_with_reader(g, reader, p, CoreRelationshipTypeName::Constraints),
        None => Ok(Seq::empty()),
    }) {
        Err(e) => Err(e),
        Ok(inherited) => match spec_effective_members_with_reader(
            g,
            reader,
            ms[0],
            CoreRelationshipTypeName::Constraints,
        ) {
            Err(e) => Err(e),
            Ok(effective) => Ok((lineage_parent(ms), inherited, effective)),
        },
    }
}

/// The inherited obligations among `inh[..n]` that `eff` no longer retains, in order.
pub open spec fn missing_upto(
    inh: Seq<EffectiveRelationshipMember>,
    eff: Seq<EffectiveRelationshipMember>,
    n: int,
) -> Seq<EffectiveRelationshipMember>
    decreases n,
{
    if n <= 0 || n > inh.len() {
        Seq::empty()
    } else if eff.contains(inh[n - 1]) {
        missing_upto(inh, eff, n - 1)
    } else {
        missing_upto(inh, eff, n - 1).push(inh[n - 1])
    }
}

proof fn lemma_missing_upto(
    inh: Seq<EffectiveRelationshipMember>,
    eff: Seq<EffectiveRelationshipMember>,
    n: int,
    x: EffectiveRelationshipMember,
)
    requires
        0 <= n <= inh.len(),
    ensures
        missing_upto(inh, eff, n).contains(x) <==> (inh.subrange(0, n).contains(x) && !eff.contains(x)),
    decreases n,
{
    if n > 0 {
        lemma_missing_upto(inh, eff, n - 1, x);
        let prev = missing_upto(inh, eff, n - 1);
        assert(inh.subrange(0, n) =~= inh.subrange(0, n - 1).push(inh[n - 1]));
        if !eff.contains(inh[n - 1]) {
            assert(missing_upto(inh, eff, n) == prev.push(inh[n - 1]));
            if prev.contains(x) {
                let k = choose|k: int| 0 <= k < prev.len() && prev[k] == x;
                assert(prev.push(inh[n - 1])[k] == x);
            }
            let pushed = prev.push(inh[n - 1]);
            if pushed.contains(x) && x != inh[n - 1] {
                let k = choose|k: int| 0 <= k < pushed.len() && pushed[k] == x;
                assert(prev[k] == x);
            }
            assert(prev.push(inh[n - 1])[prev.len() as int] == inh[n - 1]);
        }
        let before = inh.subrange(0, n - 1);
        let upto = inh.subrange(0, n);
        if before.contains(x) {
            let k = choose|k: int| 0 <= k < before.len() && before[k] == x;
            assert(upto[k] == x);
        }
        if upto.contains(x) && x != inh[n - 1] {
            let k = choose|k: int| 0 <= k < upto.len() && upto[k] == x;
            assert(before[k] == x);
        }
        assert(inh.subrange(0, n)[n - 1] == inh[n - 1]);
    }
}

/// A retained inherited obligation is never reported missing, and every
/// inherited obligation that the effective set lacks is: an obligation is
/// missing exactly when it is inherited and not effective.
pub proof fn law_missing_is_inherited_but_not_effective(
    inherited: Seq<EffectiveRelationshipMember>,
    effective: Seq<EffectiveRelationshipMember>,
    x: EffectiveRelationshipMember,
)
    ensures
        missing_upto(inherited, effective, inherited.len() as int).contains(x) <==> (inherited.contains(x)
            && !effective.contains(x)),
{
    lemma_missing_upto(inherited, effective, inherited.len() as int, x);
    assert(inherited.subrange(0, inherited.len() as int) =~= inherited);
}

fn members_contain(v: &Vec<EffectiveRelationshipMember>, x: EffectiveRelationshipMember) -> (r: bool)
    ensures
        r == v@.contains(x),
{
    let mut i: usize = 0;
    while i < v.len()
        invariant
            i <= v.len(),
            forall|k: int| 0 <= k < i ==> v@[k] != x,
        decreases v.len() - i,
    {
        if v[i].member.same(&x.member) && v[i].declared_on.same(&x.declared_on) {
            assert(v@[i as int] == x);
            return true;
        }
        i = i + 1;
    }
    false
}

impl ConstraintContributions {
    /// Reads both effective sets through the kernel's additive inheritance
    /// policy; supply a lineage diagnosed with the same reader and graph.
    pub fn resolve_with_reader<R: DescriptorReader>(g: &HolonGraph, lineage: &ValidExtendsLineage, reader: &R) -> (res:
        Result<ConstraintContributions, AssessmentReadError>)
        requires
            lineage.spec_members().len() > 0,
        ensures
            match res {
                Ok(c) => spec_constraint_contributions(g@, *reader, lineage.spec_members()) == Ok::<_, ReadErrorView>(
                    c.spec_view(),
                ),
                Err(e) => spec_constraint_contributions(g@, *reader, lineage.spec_members()) == Err::<
                    (Option<HolonReference>, Seq<EffectiveRelationshipMember>, Seq<EffectiveRelationshipMember>),
                    ReadErrorView,
                >(e@),
            },
    {
        let members = lineage.members();
        let parent = if members.len() > 1 {
            Some(members[1])
        } else {
            None
        };
        let inherited = match parent {
            Some(p) => effective_relationship_targets_with_reader(g, p, CoreRelationshipTypeName::Constraints, reader)?,
            None => Vec::new(),
        };
        let effective = effective_relationship_targets_with_reader(
            g,
            lineage.subject(),
            CoreRelationshipTypeName::Constraints,
            reader,
        )?;
        Ok(ConstraintContributions { parent, inherited, effective })
    }

    /// The inherited obligations (member and declaring descriptor) that the
    /// effective set no longer retains, in inherited order.
    pub fn missing_inherited(&self) -> (r: Vec<EffectiveRelationshipMember>)
        ensures
            r@ == missing_upto(self.inherited@, self.effective@, self.inherited@.len() as int),
    {
        let mut out: Vec<EffectiveRelationshipMember> = Vec::new();
        let mut i: usize = 0;
        while i < self.inherited.len()
            invariant
                i <= self.inherited.len(),
                out@ == missing_upto(self.inherited@, self.effective@, i as int),
            decreases self.inherited.len() - i,
        {
            let c = self.inherited[i];
            if !members_contain(&self.effective, c) {
                out.push(c);
            }
            i = i + 1;
        }
        out
    }
}


proof fn lemma_missing_is_filter(inh: Seq<EffectiveRelationshipMember>, eff: Seq<EffectiveRelationshipMember>, n: int)
    requires
        0 <= n <= inh.len(),
    ensures
        missing_upto(inh, eff, n) == inh.subrange(0, n).filter(|x: EffectiveRelationshipMember| !eff.contains(x)),
    decreases n,
{
    reveal(Seq::filter);
    let pred = |x: EffectiveRelationshipMember| !eff.contains(x);
    if n > 0 {
        lemma_missing_is_filter(inh, eff, n - 1);
        assert(inh.subrange(0, n).drop_last() =~= inh.subrange(0, n - 1));
        assert(inh.subrange(0, n).last() == inh[n - 1]);
    } else {
        assert(inh.subrange(0, 0) =~= Seq::<EffectiveRelationshipMember>::empty());
    }
}

/// The missing obligations are the inherited ones, in inherited order and
/// with repeats kept, whose member and declaring descriptor are not among
/// the effective ones.
pub proof fn law_missing_is_filtered_inherited(
    inherited: Seq<EffectiveRelationshipMember>,
    effective: Seq<EffectiveRelationshipMember>,
)
    ensures
        missing_upto(inherited, effective, inherited.len() as int) == inherited.filter(
            |x: EffectiveRelationshipMember| !effective.contains(x),
        ),
{
    lemma_missing_is_filter(inherited, effective, inherited.len() as int);
    assert(inherited.subrange(0, inherited.len() as int) =~= inherited);
}

} // verus!
