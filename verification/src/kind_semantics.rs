//! Graph-derived descriptor categories: classification by the identity of the
//! designated Core roots in a diagnosed lineage, never by names.
use crate::definition_identity::{lineage_contains, same_definition};
use crate::error::{rview, ErrorView, HolonError};
use crate::graph::{holon_of, spec_property_value, HolonGraph, HolonReference, HolonView};
use crate::names::CorePropertyTypeName;
use crate::resolved_descriptor_roots::{resolve_core_descriptor, spec_resolve_core_descriptor};
use crate::structural_diagnosis::{
    resolve_describing_type, spec_describing_type, DescribingTypeResolution, DescribingView,
    StructuralPrerequisites, ValidExtendsLineage,
};
use crate::values::{kind_label, BaseValue, BaseValueView};
use crate::assessment_reader::{AssessmentReadError, CurrentDescriptorReader, DescriptorReader, ReadErrorView};
use crate::structural_diagnosis::{
    law_current_reader_diagnoses_ordinarily, resolve_describing_type_with_reader, spec_describing_type_with_reader,
};
use vstd::prelude::*;
use vstd::string::*;

verus! {

/// Separates a readable, invalid local designation from an inability to read the graph.
#[derive(Debug)]
pub enum KindResolutionError {
    /// `DefinesInstanceTypeKind` is absent or is not Boolean on this descriptor.
    InvalidDesignation { descriptor: HolonReference, error: HolonError },
    /// The graph could not supply the required state.
    Read(HolonError),
}

/// The mathematical content of a `KindResolutionError`.
pub enum KindErrorView {
    InvalidDesignation { descriptor: HolonReference, error: ErrorView },
    Read(ErrorView),
}

impl View for KindResolutionError {
    type V = KindErrorView;

    open spec fn view(&self) -> KindErrorView {
        match self {
            KindResolutionError::InvalidDesignation { descriptor, error } => KindErrorView::InvalidDesignation {
                descriptor: *descriptor,
                error: error@,
            },
            KindResolutionError::Read(e) => KindErrorView::Read(e@),
        }
    }
}

/// The plain error carried by a kind resolution failure.
pub open spec fn spec_into_read_error(e: KindErrorView) -> ErrorView {
    match e {
        KindErrorView::InvalidDesignation { error, .. } => error,
        KindErrorView::Read(e) => e,
    }
}

/// A kind resolution result with both error kinds flattened to the carried error.
pub open spec fn flatten_kind_result<T>(r: Result<T, KindErrorView>) -> Result<T, ErrorView> {
    match r {
        Ok(v) => Ok(v),
        Err(e) => Err(spec_into_read_error(e)),
    }
}

/// The view of a kind resolution result.
pub open spec fn kview<T: DeepView>(r: Result<T, KindResolutionError>) -> Result<T::V, KindErrorView> {
    match r {
        Ok(v) => Ok(v.deep_view()),
        Err(e) => Err(e@),
    }
}

impl KindResolutionError {
    /// Returns the carried error, whichever kind of failure this is.
    pub fn into_read_error(self) -> (e: HolonError)
        ensures
            e@ == spec_into_read_error(self@),
    {
        match self {
            KindResolutionError::InvalidDesignation { error, .. } => error,
            KindResolutionError::Read(e) => e,
        }
    }
}

/// The two independent describing-compatibility propositions.
#[derive(Clone, Copy, Debug, PartialEq, Eq, Structural)]
pub struct DescribingCompatibility {
    /// `None` when the kind anchor has no unique direct describing type.
    pub category_matches: Option<bool>,
    pub meta_type_corresponds: bool,
}

impl DeepView for DescribingCompatibility {
    type V = DescribingCompatibility;

    open spec fn deep_view(&self) -> DescribingCompatibility {
        *self
    }
}

/// Canonical Core root identities shared across one assessment.
#[derive(Clone, Copy, Debug)]
pub struct DescriptorKindRoots {
    pub type_descriptor: HolonReference,
    pub holon_type: HolonReference,
    pub meta_type: HolonReference,
    pub meta_holon_type: HolonReference,
}

/// A reference usable in this graph, or the error naming it.
pub open spec fn spec_reference_usable(g: Seq<HolonView>, r: HolonReference) -> Result<(), ErrorView> {
    if holon_of(g, r).is_some() {
        Ok(())
    } else {
        Err(ErrorView::InvalidHolonReference(r))
    }
}

/// The first unusable member of `ms[i..]`, if any.
pub open spec fn usable_from(g: Seq<HolonView>, ms: Seq<HolonReference>, i: int) -> Result<(), ErrorView>
    decreases ms.len() - i,
{
    if i < 0 || i >= ms.len() {
        Ok(())
    } else {
        match spec_reference_usable(g, ms[i]) {
            Err(e) => Err(e),
            Ok(_) => usable_from(g, ms, i + 1),
        }
    }
}

/// The roots resolved from the four canonical keys, each usable in the graph.
pub open spec fn spec_resolve_kind_roots(g: Seq<HolonView>, updates: Seq<(usize, usize)>) -> Result<
    (HolonReference, HolonReference, HolonReference, HolonReference),
    ErrorView,
> {
    match spec_resolve_core_descriptor(g, updates, "TypeDescriptor"@) {
        Err(e) => Err(e),
        Ok(td) => match spec_resolve_core_descriptor(g, updates, "HolonType.TypeDescriptor"@) {
            Err(e) => Err(e),
            Ok(ht) => match spec_resolve_core_descriptor(g, updates, "MetaTypeDescriptor.HolonType"@) {
                Err(e) => Err(e),
                Ok(mt) => match spec_resolve_core_descriptor(g, updates, "MetaHolonType.MetaTypeDescriptor"@) {
                    Err(e) => Err(e),
                    Ok(mht) => match usable_from(g, seq![td, ht, mt, mht], 0) {
                        Err(e) => Err(e),
                        Ok(_) => Ok((td, ht, mt, mht)),
                    },
                },
            },
        },
    }
}

/// Scans `ms[i..]` for the nearest local designation of an instance-type kind.
pub open spec fn kind_from(g: Seq<HolonView>, ms: Seq<HolonReference>, i: int) -> Result<
    Option<HolonReference>,
    KindErrorView,
>
    decreases ms.len() - i,
{
    if i < 0 || i >= ms.len() {
        Ok(None)
    } else {
        match spec_property_value(g, ms[i], CorePropertyTypeName::DefinesInstanceTypeKind.spec_name()) {
            Err(e) => Err(KindErrorView::Read(e)),
            Ok(Some(BaseValueView::BooleanValue(true))) => Ok(Some(ms[i])),
            Ok(Some(BaseValueView::BooleanValue(false))) => kind_from(g, ms, i + 1),
            Ok(Some(other)) => Err(
                KindErrorView::InvalidDesignation {
                    descriptor: ms[i],
                    error: ErrorView::UnexpectedValueType(kind_label(other.kind()), "Boolean"@),
                },
            ),
            Ok(None) => Err(
                KindErrorView::InvalidDesignation {
                    descriptor: ms[i],
                    error: ErrorView::EmptyField(CorePropertyTypeName::DefinesInstanceTypeKind.spec_name()),
                },
            ),
        }
    }
}

impl DescriptorKindRoots {
    /// The nearest kind anchor in a lineage that reaches the type-descriptor root.
    pub open spec fn spec_kind_in_lineage(&self, g: Seq<HolonView>, ms: Seq<HolonReference>) -> Result<
        Option<HolonReference>,
        KindErrorView,
    > {
        if !ms.contains(self.type_descriptor) {
            Ok(None)
        } else {
            kind_from(g, ms, 0)
        }
    }

    /// The describing category required of a lineage's subject: the meta-holon
    /// type for the type-descriptor root itself, the unique describer of the
    /// kind anchor when there is one, and the holon type when there is no anchor.
    pub open spec fn spec_category_in_lineage(&self, g: Seq<HolonView>, ms: Seq<HolonReference>) -> Result<
        Option<HolonReference>,
        KindErrorView,
    > {
        if ms[0] == self.type_descriptor {
            Ok(Some(self.meta_holon_type))
        } else {
            match self.spec_kind_in_lineage(g, ms) {
                Err(e) => Err(e),
                Ok(Some(anchor)) => match spec_describing_type(g, anchor) {
                    Err(e) => Err(KindErrorView::Read(e)),
                    Ok(DescribingView::Unique(c)) => Ok(Some(c)),
                    Ok(_) => Ok(None),
                },
                Ok(None) => Ok(Some(self.holon_type)),
            }
        }
    }

    /// The compatibility of a subject lineage `s` with its governing lineage `gov`.
    pub open spec fn spec_compatibility(&self, g: Seq<HolonView>, s: Seq<HolonReference>, gov: Seq<HolonReference>) -> Result<
        Option<DescribingCompatibility>,
        KindErrorView,
    > {
        match usable_from(g, s, 0) {
            Err(e) => Err(KindErrorView::Read(e)),
            Ok(_) => match usable_from(g, gov, 0) {
                Err(e) => Err(KindErrorView::Read(e)),
                Ok(_) => match self.spec_category_in_lineage(g, s) {
                    Err(e) => Err(e),
                    Ok(category) => Ok(
                        Some(
                            DescribingCompatibility {
                                category_matches: match category {
                                    Some(c) => Some(gov.contains(c)),
                                    None => None,
                                },
                                meta_type_corresponds: s.contains(self.type_descriptor) == gov.contains(
                                    self.meta_type,
                                ),
                            },
                        ),
                    ),
                },
            },
        }
    }
}

/// Both checked lineages of `p`, when both are valid and the describer is unique.
pub open spec fn spec_valid_lineages(p: StructuralPrerequisites) -> Option<(Seq<HolonReference>, Seq<HolonReference>)> {
    match p.governing_lineage {
        Some(gl) => if p.describing_type@ is Unique && p.subject_lineage.defects@.len() == 0
            && gl.defects@.len() == 0 {
            Some((p.subject_lineage.lineage@, gl.lineage@))
        } else {
            None
        },
        None => None,
    }
}

fn check_usable(g: &HolonGraph, r: HolonReference) -> (res: Result<(), HolonError>)
    ensures
        rview(res) == spec_reference_usable(g@, r),
{
    if g.is_valid(r) {
        Ok(())
    } else {
        Err(HolonError::InvalidHolonReference(r))
    }
}

fn check_all_usable(g: &HolonGraph, ms: &Vec<HolonReference>) -> (res: Result<(), HolonError>)
    ensures
        rview(res) == usable_from(g@, ms@, 0),
{
    let mut i: usize = 0;
    while i < ms.len()
        invariant
            i <= ms.len(),
            usable_from(g@, ms@, 0) == usable_from(g@, ms@, i as int),
        decreases ms.len() - i,
    {
        check_usable(g, ms[i])?;
        i = i + 1;
    }
    Ok(())
}

impl DescriptorKindRoots {
    /// Resolves the four canonical roots, staged definitions first.
    pub fn resolve(g: &HolonGraph) -> (res: Result<DescriptorKindRoots, HolonError>)
        ensures
            match res {
                Ok(r) => spec_resolve_kind_roots(g@, g.spec_updates()) == Ok::<_, ErrorView>(
                    (r.type_descriptor, r.holon_type, r.meta_type, r.meta_holon_type),
                ),
                Err(e) => spec_resolve_kind_roots(g@, g.spec_updates()) == Err::<
                    (HolonReference, HolonReference, HolonReference, HolonReference),
                    ErrorView,
                >(e@),
            },
    {
        let td = resolve_core_descriptor(g, "TypeDescriptor")?;
        let ht = resolve_core_descriptor(g, "HolonType.TypeDescriptor")?;
        let mt = resolve_core_descriptor(g, "MetaTypeDescriptor.HolonType")?;
        let mht = resolve_core_descriptor(g, "MetaHolonType.MetaTypeDescriptor")?;
        Self::from_resolved(g, td, ht, mt, mht)
    }

    /// Uses already resolved identities; each must be usable in the graph.
    pub fn from_resolved(
        g: &HolonGraph,
        type_descriptor: HolonReference,
        holon_type: HolonReference,
        meta_type: HolonReference,
        meta_holon_type: HolonReference,
    ) -> (res: Result<DescriptorKindRoots, HolonError>)
        ensures
            rview_unit(res) == usable_from(g@, seq![type_descriptor, holon_type, meta_type, meta_holon_type], 0),
            res matches Ok(r) ==> r.type_descriptor == type_descriptor && r.holon_type == holon_type
                && r.meta_type == meta_type && r.meta_holon_type == meta_holon_type,
    {
        let mut roots: Vec<HolonReference> = Vec::new();
        roots.push(type_descriptor);
        roots.push(holon_type);
        roots.push(meta_type);
        roots.push(meta_holon_type);
        assert(roots@ =~= seq![type_descriptor, holon_type, meta_type, meta_holon_type]);
        check_all_usable(g, &roots)?;
        Ok(DescriptorKindRoots { type_descriptor, holon_type, meta_type, meta_holon_type })
    }

    /// Checks that every lineage member is usable in the graph.
    pub fn check_lineage(&self, g: &HolonGraph, lineage: &ValidExtendsLineage) -> (res: Result<(), HolonError>)
        ensures
            rview(res) == usable_from(g@, lineage.spec_members(), 0),
    {
        check_all_usable(g, lineage.members())
    }

    /// Classifies by the type-descriptor root's identity, never names or authored flags.
    pub fn is_descriptor(&self, g: &HolonGraph, lineage: &ValidExtendsLineage) -> (res: Result<bool, HolonError>)
        ensures
            rview(res) == match usable_from(g@, lineage.spec_members(), 0) {
                Err(e) => Err(e),
                Ok(_) => Ok::<bool, ErrorView>(lineage.spec_members().contains(self.type_descriptor)),
            },
    {
        self.check_lineage(g, lineage)?;
        Ok(lineage_contains(lineage.members(), &self.type_descriptor))
    }

    /// Meta-types specialize the meta-type root.
    pub fn is_meta_type(&self, g: &HolonGraph, lineage: &ValidExtendsLineage) -> (res: Result<bool, HolonError>)
        ensures
            rview(res) == match usable_from(g@, lineage.spec_members(), 0) {
                Err(e) => Err(e),
                Ok(_) => Ok::<bool, ErrorView>(lineage.spec_members().contains(self.meta_type)),
            },
    {
        self.check_lineage(g, lineage)?;
        Ok(lineage_contains(lineage.members(), &self.meta_type))
    }

    /// Returns the nearest locally designated kind anchor.
    pub fn kind_in_lineage(&self, g: &HolonGraph, members: &Vec<HolonReference>) -> (res: Result<
        Option<HolonReference>,
        KindResolutionError,
    >)
        ensures
            kview(res) == self.spec_kind_in_lineage(g@, members@),
    {
        if !lineage_contains(members, &self.type_descriptor) {
            return Ok(None);
        }
        let name = CorePropertyTypeName::DefinesInstanceTypeKind.as_property_name();
        let mut i: usize = 0;
        while i < members.len()
            invariant
                i <= members.len(),
                name@ == CorePropertyTypeName::DefinesInstanceTypeKind.spec_name(),
                members@.contains(self.type_descriptor),
                self.spec_kind_in_lineage(g@, members@) == kind_from(g@, members@, i as int),
            decreases members.len() - i,
        {
            let item = members[i];
            let value = match g.property_value(item, &name) {
                Ok(v) => v,
                Err(e) => {
                    return Err(KindResolutionError::Read(e));
                },
            };
            match value {
                Some(BaseValue::BooleanValue(b)) => {
                    if b.0 {
                        return Ok(Some(item));
                    }
                },
                Some(other) => {
                    return Err(
                        KindResolutionError::InvalidDesignation {
                            descriptor: item,
                            error: HolonError::UnexpectedValueType(other.kind().label(), String::from_str("Boolean")),
                        },
                    );
                },
                None => {
                    return Err(
                        KindResolutionError::InvalidDesignation {
                            descriptor: item,
                            error: HolonError::EmptyField(name.0.to_owned_string()),
                        },
                    );
                },
            }
            i = i + 1;
        }
        Ok(None)
    }

    /// Returns the nearest locally designated anchor in a diagnosed lineage.
    pub fn instance_type_kind(&self, g: &HolonGraph, lineage: &ValidExtendsLineage) -> (res: Result<
        Option<HolonReference>,
        HolonError,
    >)
        ensures
            rview(res) == flatten_kind_result(
                match usable_from(g@, lineage.spec_members(), 0) {
                    Err(e) => Err(KindErrorView::Read(e)),
                    Ok(_) => self.spec_kind_in_lineage(g@, lineage.spec_members()),
                },
            ),
    {
        match self.assess_instance_type_kind(g, lineage) {
            Ok(k) => Ok(k),
            Err(e) => Err(e.into_read_error()),
        }
    }

    /// Resolves the kind anchor, keeping malformed designations apart from read failures.
    pub fn assess_instance_type_kind(&self, g: &HolonGraph, lineage: &ValidExtendsLineage) -> (res: Result<
        Option<HolonReference>,
        KindResolutionError,
    >)
        ensures
            kview(res) == match usable_from(g@, lineage.spec_members(), 0) {
                Err(e) => Err(KindErrorView::Read(e)),
                Ok(_) => self.spec_kind_in_lineage(g@, lineage.spec_members()),
            },
    {
        match self.check_lineage(g, lineage) {
            Ok(_) => {},
            Err(e) => {
                return Err(KindResolutionError::Read(e));
            },
        }
        self.kind_in_lineage(g, lineage.members())
    }

    /// The describing category required of a lineage's subject.
    pub fn category_in_lineage(&self, g: &HolonGraph, lineage: &ValidExtendsLineage) -> (res: Result<
        Option<HolonReference>,
        KindResolutionError,
    >)
        requires
            lineage.spec_members().len() > 0,
        ensures
            kview(res) == self.spec_category_in_lineage(g@, lineage.spec_members()),
    {
        let members = lineage.members();
        if same_definition(&lineage.subject(), &self.type_descriptor) {
            return Ok(Some(self.meta_holon_type));
        }
        match self.kind_in_lineage(g, members)? {
            Some(anchor) => match resolve_describing_type(g, anchor) {
                Err(e) => Err(KindResolutionError::Read(e)),
                Ok(DescribingTypeResolution::Unique(c)) => Ok(Some(c)),
                Ok(_) => Ok(None),
            },
            None => Ok(Some(self.holon_type)),
        }
    }

    /// The describing category required of the lineage's subject, with the
    /// kind of failure flattened.
    pub fn required_describing_category(&self, g: &HolonGraph, lineage: &ValidExtendsLineage) -> (res: Result<
        Option<HolonReference>,
        HolonError,
    >)
        requires
            lineage.spec_members().len() > 0,
        ensures
            rview(res) == match usable_from(g@, lineage.spec_members(), 0) {
                Err(e) => Err(e),
                Ok(_) => flatten_kind_result(self.spec_category_in_lineage(g@, lineage.spec_members())),
            },
    {
        self.check_lineage(g, lineage)?;
        match self.category_in_lineage(g, lineage) {
            Ok(c) => Ok(c),
            Err(e) => Err(e.into_read_error()),
        }
    }

    /// Computes the two compatibility propositions from diagnosed lineages;
    /// `None` when a structural prerequisite or the describer is invalid.
    pub fn assess_describing_lineages_compatible(&self, g: &HolonGraph, prerequisites: &StructuralPrerequisites) -> (res:
        Result<Option<DescribingCompatibility>, KindResolutionError>)
        requires
            spec_valid_lineages(*prerequisites) matches Some(p) ==> p.0.len() > 0,
        ensures
            kview(res) == match spec_valid_lineages(*prerequisites) {
                None => Ok(None),
                Some(p) => self.spec_compatibility(g@, p.0, p.1),
            },
    {
        let (subject, governing) = match prerequisites.valid_lineages() {
            Some(p) => p,
            None => {
                return Ok(None);
            },
        };
        match self.check_lineage(g, &subject) {
            Ok(_) => {},
            Err(e) => {
                return Err(KindResolutionError::Read(e));
            },
        }
        match self.check_lineage(g, &governing) {
            Ok(_) => {},
            Err(e) => {
                return Err(KindResolutionError::Read(e));
            },
        }
        let category = self.category_in_lineage(g, &subject)?;
        let category_matches = match category {
            Some(c) => Some(lineage_contains(governing.members(), &c)),
            None => None,
        };
        let meta_type_corresponds = lineage_contains(subject.members(), &self.type_descriptor)
            == lineage_contains(governing.members(), &self.meta_type);
        Ok(Some(DescribingCompatibility { category_matches, meta_type_corresponds }))
    }

    /// Computes the compatibility propositions with the kind of failure flattened.
    pub fn describing_lineages_compatible(&self, g: &HolonGraph, prerequisites: &StructuralPrerequisites) -> (res:
        Result<Option<DescribingCompatibility>, HolonError>)
        requires
            spec_valid_lineages(*prerequisites) matches Some(p) ==> p.0.len() > 0,
        ensures
            rview(res) == flatten_kind_result(
                match spec_valid_lineages(*prerequisites) {
                    None => Ok(None),
                    Some(p) => self.spec_compatibility(g@, p.0, p.1),
                },
            ),
    {
        match self.assess_describing_lineages_compatible(g, prerequisites) {
            Ok(c) => Ok(c),
            Err(e) => Err(e.into_read_error()),
        }
    }
}

/// The unit view of a result.
pub open spec fn rview_unit<T>(r: Result<T, HolonError>) -> Result<(), ErrorView> {
    match r {
        Ok(_) => Ok(()),
        Err(e) => Err(e@),
    }
}


/// Separates a readable, invalid local designation from a blocked or failed
/// read, for kinds resolved through a descriptor reader.
#[derive(Debug)]
pub enum SelectedKindError {
    /// `DefinesInstanceTypeKind` is absent or is not Boolean on this selected descriptor.
    InvalidDesignation { descriptor: HolonReference, error: HolonError },
    /// The reader or the graph could not supply the required state.
    Read(AssessmentReadError),
}

/// The mathematical content of a `SelectedKindError`.
pub enum SelectedKindErrorView {
    InvalidDesignation { descriptor: HolonReference, error: ErrorView },
    Read(ReadErrorView),
}

impl View for SelectedKindError {
    type V = SelectedKindErrorView;

    open spec fn view(&self) -> SelectedKindErrorView {
        match self {
            SelectedKindError::InvalidDesignation { descriptor, error } => SelectedKindErrorView::InvalidDesignation {
                descriptor: *descriptor,
                error: error@,
            },
            SelectedKindError::Read(e) => SelectedKindErrorView::Read(e@),
        }
    }
}

/// The read error carried by a selected kind failure; a malformed designation
/// is an operational failure.
pub open spec fn spec_selected_into_read_error(e: SelectedKindErrorView) -> ReadErrorView {
    match e {
        SelectedKindErrorView::InvalidDesignation { error, .. } => ReadErrorView::Operational(error),
        SelectedKindErrorView::Read(e) => e,
    }
}

/// A selected kind result with both error kinds flattened to a read error.
pub open spec fn flatten_selected_result<T>(r: Result<T, SelectedKindErrorView>) -> Result<T, ReadErrorView> {
    match r {
        Ok(v) => Ok(v),
        Err(e) => Err(spec_selected_into_read_error(e)),
    }
}

/// The view of a selected kind result.
pub open spec fn sview<T: DeepView>(r: Result<T, SelectedKindError>) -> Result<T::V, SelectedKindErrorView> {
    match r {
        Ok(v) => Ok(v.deep_view()),
        Err(e) => Err(e@),
    }
}

/// The view of a read result.
pub open spec fn aview<T: DeepView>(r: Result<T, AssessmentReadError>) -> Result<T::V, ReadErrorView> {
    match r {
        Ok(v) => Ok(v.deep_view()),
        Err(e) => Err(e@),
    }
}

/// A lineage usability check as a read result.
pub open spec fn usable_read(g: Seq<HolonView>, ms: Seq<HolonReference>) -> Result<(), ReadErrorView> {
    match usable_from(g, ms, 0) {
        Err(e) => Err(ReadErrorView::Operational(e)),
        Ok(_) => Ok(()),
    }
}

impl SelectedKindError {
    /// Returns the carried read error, whichever kind of failure this is.
    pub fn into_read_error(self) -> (e: AssessmentReadError)
        ensures
            e@ == spec_selected_into_read_error(self@),
    {
        match self {
            SelectedKindError::InvalidDesignation { error, .. } => AssessmentReadError::Operational(error),
            SelectedKindError::Read(e) => e,
        }
    }
}

/// Canonical Core root identities shared with an explicit assessment reader:
/// every root and lineage member is selected before it is compared or read.
pub struct SelectedKindRoots<R> {
    pub reader: R,
    pub type_descriptor: HolonReference,
    pub holon_type: HolonReference,
    pub meta_type: HolonReference,
    pub meta_holon_type: HolonReference,
}

impl DescriptorKindRoots {
    /// Shares canonical identities with an explicit assessment reader. Supply
    /// lineages diagnosed with this same reader and unchanged graph.
    pub fn with_reader<R: DescriptorReader>(self, reader: R) -> (r: SelectedKindRoots<R>)
        ensures
            r.spec_reader() == reader,
            r.type_descriptor == self.type_descriptor,
            r.holon_type == self.holon_type,
            r.meta_type == self.meta_type,
            r.meta_holon_type == self.meta_holon_type,
    {
        SelectedKindRoots {
            reader,
            type_descriptor: self.type_descriptor,
            holon_type: self.holon_type,
            meta_type: self.meta_type,
            meta_holon_type: self.meta_holon_type,
        }
    }
}

/// Scans `ms[i..]`, each member selected, for the nearest local designation of
/// an instance-type kind.
pub open spec fn selected_kind_from<R: DescriptorReader>(
    g: Seq<HolonView>,
    reader: R,
    ms: Seq<HolonReference>,
    i: int,
) -> Result<Option<HolonReference>, SelectedKindErrorView>
    decreases ms.len() - i,
{
    if i < 0 || i >= ms.len() {
        Ok(None)
    } else {
        match reader.spec_select(g, ms[i]) {
            Err(e) => Err(SelectedKindErrorView::Read(e)),
            Ok(d) => match spec_property_value(g, d, CorePropertyTypeName::DefinesInstanceTypeKind.spec_name()) {
                Err(e) => Err(SelectedKindErrorView::Read(ReadErrorView::Operational(e))),
                Ok(Some(BaseValueView::BooleanValue(true))) => Ok(Some(d)),
                Ok(Some(BaseValueView::BooleanValue(false))) => selected_kind_from(g, reader, ms, i + 1),
                Ok(Some(other)) => Err(
                    SelectedKindErrorView::InvalidDesignation {
                        descriptor: d,
                        error: ErrorView::UnexpectedValueType(kind_label(other.kind()), "Boolean"@),
                    },
                ),
                Ok(None) => Err(
                    SelectedKindErrorView::InvalidDesignation {
                        descriptor: d,
                        error: ErrorView::EmptyField(CorePropertyTypeName::DefinesInstanceTypeKind.spec_name()),
                    },
                ),
            },
        }
    }
}

impl<R: DescriptorReader> SelectedKindRoots<R> {
    /// The reader shared by every read.
    pub open spec fn spec_reader(&self) -> R {
        self.reader
    }

    /// A root selected through the reader.
    pub open spec fn select_root(&self, g: Seq<HolonView>, root: HolonReference) -> Result<
        HolonReference,
        SelectedKindErrorView,
    > {
        match self.spec_reader().spec_select(g, root) {
            Err(e) => Err(SelectedKindErrorView::Read(e)),
            Ok(r) => Ok(r),
        }
    }

    /// The nearest selected kind anchor in a lineage that reaches the selected
    /// type-descriptor root.
    pub open spec fn spec_kind_in_lineage(&self, g: Seq<HolonView>, ms: Seq<HolonReference>) -> Result<
        Option<HolonReference>,
        SelectedKindErrorView,
    > {
        match self.select_root(g, self.type_descriptor) {
            Err(e) => Err(e),
            Ok(root) => if !ms.contains(root) {
                Ok(None)
            } else {
                selected_kind_from(g, self.spec_reader(), ms, 0)
            },
        }
    }

    /// The describing category required of a lineage's subject, every root
    /// and describer selected.
    pub open spec fn spec_category_in_lineage(&self, g: Seq<HolonView>, ms: Seq<HolonReference>) -> Result<
        Option<HolonReference>,
        SelectedKindErrorView,
    > {
        match self.select_root(g, self.type_descriptor) {
            Err(e) => Err(e),
            Ok(root) => if ms[0] == root {
                match self.select_root(g, self.meta_holon_type) {
                    Err(e) => Err(e),
                    Ok(m) => Ok(Some(m)),
                }
            } else {
                match self.spec_kind_in_lineage(g, ms) {
                    Err(e) => Err(e),
                    Ok(Some(anchor)) => match spec_describing_type_with_reader(g, self.spec_reader(), anchor) {
                        Err(e) => Err(SelectedKindErrorView::Read(e)),
                        Ok(DescribingView::Unique(c)) => Ok(Some(c)),
                        Ok(_) => Ok(None),
                    },
                    Ok(None) => match self.select_root(g, self.holon_type) {
                        Err(e) => Err(e),
                        Ok(h) => Ok(Some(h)),
                    },
                }
            },
        }
    }

    /// The compatibility of a subject lineage `s` with its governing lineage `gov`.
    pub open spec fn spec_compatibility(&self, g: Seq<HolonView>, s: Seq<HolonReference>, gov: Seq<HolonReference>) -> Result<
        Option<DescribingCompatibility>,
        SelectedKindErrorView,
    > {
        match usable_read(g, s) {
            Err(e) => Err(SelectedKindErrorView::Read(e)),
            Ok(_) => match usable_read(g, gov) {
                Err(e) => Err(SelectedKindErrorView::Read(e)),
                Ok(_) => match self.spec_category_in_lineage(g, s) {
                    Err(e) => Err(e),
                    Ok(category) => match self.select_root(g, self.type_descriptor) {
                        Err(e) => Err(e),
                        Ok(td) => match self.select_root(g, self.meta_type) {
                            Err(e) => Err(e),
                            Ok(mt) => Ok(
                                Some(
                                    DescribingCompatibility {
                                        category_matches: match category {
                                            Some(c) => Some(gov.contains(c)),
                                            None => None,
                                        },
                                        meta_type_corresponds: s.contains(td) == gov.contains(mt),
                                    },
                                ),
                            ),
                        },
                    },
                },
            },
        }
    }

    fn select_root_exec(&self, g: &HolonGraph, root: HolonReference) -> (res: Result<HolonReference, SelectedKindError>)
        ensures
            sview(res) == self.select_root(g@, root),
    {
        match self.reader.select(g, root) {
            Ok(r) => Ok(r),
            Err(e) => Err(SelectedKindError::Read(e)),
        }
    }

    /// Checks that every lineage member is usable in the graph.
    pub fn check_lineage(&self, g: &HolonGraph, lineage: &ValidExtendsLineage) -> (res: Result<(), AssessmentReadError>)
        ensures
            aview_unit(res) == usable_read(g@, lineage.spec_members()),
    {
        match check_all_usable(g, lineage.members()) {
            Ok(_) => Ok(()),
            Err(e) => Err(AssessmentReadError::Operational(e)),
        }
    }

    /// Classifies by the selected type-descriptor root's identity.
    pub fn is_descriptor(&self, g: &HolonGraph, lineage: &ValidExtendsLineage) -> (res: Result<bool, AssessmentReadError>)
        ensures
            aview(res) == match usable_read(g@, lineage.spec_members()) {
                Err(e) => Err(e),
                Ok(_) => match self.spec_reader().spec_select(g@, self.type_descriptor) {
                    Err(e) => Err(e),
                    Ok(root) => Ok::<bool, ReadErrorView>(lineage.spec_members().contains(root)),
                },
            },
    {
        self.check_lineage(g, lineage)?;
        let root = self.reader.select(g, self.type_descriptor)?;
        Ok(lineage_contains(lineage.members(), &root))
    }

    /// Meta-types specialize the selected meta-type root.
    pub fn is_meta_type(&self, g: &HolonGraph, lineage: &ValidExtendsLineage) -> (res: Result<bool, AssessmentReadError>)
        ensures
            aview(res) == match usable_read(g@, lineage.spec_members()) {
                Err(e) => Err(e),
                Ok(_) => match self.spec_reader().spec_select(g@, self.meta_type) {
                    Err(e) => Err(e),
                    Ok(root) => Ok::<bool, ReadErrorView>(lineage.spec_members().contains(root)),
                },
            },
    {
        self.check_lineage(g, lineage)?;
        let root = self.reader.select(g, self.meta_type)?;
        Ok(lineage_contains(lineage.members(), &root))
    }

    /// Returns the nearest locally designated kind anchor, selected.
    pub fn kind_in_lineage(&self, g: &HolonGraph, members: &Vec<HolonReference>) -> (res: Result<
        Option<HolonReference>,
        SelectedKindError,
    >)
        ensures
            sview(res) == self.spec_kind_in_lineage(g@, members@),
    {
        let root = self.select_root_exec(g, self.type_descriptor)?;
        if !lineage_contains(members, &root) {
            return Ok(None);
        }
        let name = CorePropertyTypeName::DefinesInstanceTypeKind.as_property_name();
        let mut i: usize = 0;
        while i < members.len()
            invariant
                i <= members.len(),
                name@ == CorePropertyTypeName::DefinesInstanceTypeKind.spec_name(),
                self.spec_kind_in_lineage(g@, members@) == selected_kind_from(g@, self.spec_reader(), members@, i as int),
            decreases members.len() - i,
        {
            let descriptor = match self.reader.select(g, members[i]) {
                Ok(d) => d,
                Err(e) => {
                    return Err(SelectedKindError::Read(e));
                },
            };
            let value = match g.property_value(descriptor, &name) {
                Ok(v) => v,
                Err(e) => {
                    return Err(SelectedKindError::Read(AssessmentReadError::Operational(e)));
                },
            };
            match value {
                Some(BaseValue::BooleanValue(b)) => {
                    if b.0 {
                        return Ok(Some(descriptor));
                    }
                },
                Some(other) => {
                    return Err(
                        SelectedKindError::InvalidDesignation {
                            descriptor,
                            error: HolonError::UnexpectedValueType(other.kind().label(), String::from_str("Boolean")),
                        },
                    );
                },
                None => {
                    return Err(
                        SelectedKindError::InvalidDesignation {
                            descriptor,
                            error: HolonError::EmptyField(name.0.to_owned_string()),
                        },
                    );
                },
            }
            i = i + 1;
        }
        Ok(None)
    }

    /// Resolves the kind anchor, keeping malformed designations apart from read failures.
    pub fn assess_instance_type_kind(&self, g: &HolonGraph, lineage: &ValidExtendsLineage) -> (res: Result<
        Option<HolonReference>,
        SelectedKindError,
    >)
        ensures
            sview(res) == match usable_read(g@, lineage.spec_members()) {
                Err(e) => Err(SelectedKindErrorView::Read(e)),
                Ok(_) => self.spec_kind_in_lineage(g@, lineage.spec_members()),
            },
    {
        match self.check_lineage(g, lineage) {
            Ok(_) => {},
            Err(e) => {
                return Err(SelectedKindError::Read(e));
            },
        }
        self.kind_in_lineage(g, lineage.members())
    }

    /// Returns the nearest locally designated anchor in a diagnosed lineage.
    pub fn instance_type_kind(&self, g: &HolonGraph, lineage: &ValidExtendsLineage) -> (res: Result<
        Option<HolonReference>,
        AssessmentReadError,
    >)
        ensures
            aview(res) == flatten_selected_result(
                match usable_read(g@, lineage.spec_members()) {
                    Err(e) => Err(SelectedKindErrorView::Read(e)),
                    Ok(_) => self.spec_kind_in_lineage(g@, lineage.spec_members()),
                },
            ),
    {
        match self.assess_instance_type_kind(g, lineage) {
            Ok(k) => Ok(k),
            Err(e) => Err(e.into_read_error()),
        }
    }

    /// The describing category required of a lineage's subject.
    pub fn category_in_lineage(&self, g: &HolonGraph, lineage: &ValidExtendsLineage) -> (res: Result<
        Option<HolonReference>,
        SelectedKindError,
    >)
        requires
            lineage.spec_members().len() > 0,
        ensures
            sview(res) == self.spec_category_in_lineage(g@, lineage.spec_members()),
    {
        let members = lineage.members();
        let root = self.select_root_exec(g, self.type_descriptor)?;
        if same_definition(&lineage.subject(), &root) {
            let m = self.select_root_exec(g, self.meta_holon_type)?;
            return Ok(Some(m));
        }
        match self.kind_in_lineage(g, members)? {
            Some(anchor) => match resolve_describing_type_with_reader(g, anchor, &self.reader) {
                Err(e) => Err(SelectedKindError::Read(e)),
                Ok(DescribingTypeResolution::Unique(c)) => Ok(Some(c)),
                Ok(_) => Ok(None),
            },
            None => {
                let h = self.select_root_exec(g, self.holon_type)?;
                Ok(Some(h))
            },
        }
    }

    /// The describing category required of the lineage's subject, with the
    /// kind of failure flattened.
    pub fn required_describing_category(&self, g: &HolonGraph, lineage: &ValidExtendsLineage) -> (res: Result<
        Option<HolonReference>,
        AssessmentReadError,
    >)
        requires
            lineage.spec_members().len() > 0,
        ensures
            aview(res) == match usable_read(g@, lineage.spec_members()) {
                Err(e) => Err(e),
                Ok(_) => flatten_selected_result(self.spec_category_in_lineage(g@, lineage.spec_members())),
            },
    {
        self.check_lineage(g, lineage)?;
        match self.category_in_lineage(g, lineage) {
            Ok(c) => Ok(c),
            Err(e) => Err(e.into_read_error()),
        }
    }

    /// Computes the two compatibility propositions from lineages diagnosed with
    /// the same reader; `None` when a structural prerequisite or the describer is invalid.
    pub fn assess_describing_lineages_compatible(&self, g: &HolonGraph, prerequisites: &StructuralPrerequisites) -> (res:
        Result<Option<DescribingCompatibility>, SelectedKindError>)
        requires
            spec_valid_lineages(*prerequisites) matches Some(p) ==> p.0.len() > 0,
        ensures
            sview(res) == match spec_valid_lineages(*prerequisites) {
                None => Ok(None),
                Some(p) => self.spec_compatibility(g@, p.0, p.1),
            },
    {
        let (subject, governing) = match prerequisites.valid_lineages() {
            Some(p) => p,
            None => {
                return Ok(None);
            },
        };
        match self.check_lineage(g, &subject) {
            Ok(_) => {},
            Err(e) => {
                return Err(SelectedKindError::Read(e));
            },
        }
        match self.check_lineage(g, &governing) {
            Ok(_) => {},
            Err(e) => {
                return Err(SelectedKindError::Read(e));
            },
        }
        let category = self.category_in_lineage(g, &subject)?;
        let category_matches = match category {
            Some(c) => Some(lineage_contains(governing.members(), &c)),
            None => None,
        };
        let td = self.select_root_exec(g, self.type_descriptor)?;
        let mt = self.select_root_exec(g, self.meta_type)?;
        let meta_type_corresponds = lineage_contains(subject.members(), &td) == lineage_contains(
            governing.members(),
            &mt,
        );
        Ok(Some(DescribingCompatibility { category_matches, meta_type_corresponds }))
    }

    /// Computes the compatibility propositions with the kind of failure flattened.
    pub fn describing_lineages_compatible(&self, g: &HolonGraph, prerequisites: &StructuralPrerequisites) -> (res:
        Result<Option<DescribingCompatibility>, AssessmentReadError>)
        requires
            spec_valid_lineages(*prerequisites) matches Some(p) ==> p.0.len() > 0,
        ensures
            aview(res) == flatten_selected_result(
                match spec_valid_lineages(*prerequisites) {
                    None => Ok(None),
                    Some(p) => self.spec_compatibility(g@, p.0, p.1),
                },
            ),
    {
        match self.assess_describing_lineages_compatible(g, prerequisites) {
            Ok(c) => Ok(c),
            Err(e) => Err(e.into_read_error()),
        }
    }
}

/// The unit view of a read result.
pub open spec fn aview_unit<T>(r: Result<T, AssessmentReadError>) -> Result<(), ReadErrorView> {
    match r {
        Ok(_) => Ok(()),
        Err(e) => Err(e@),
    }
}


/// An ordinary kind resolution failure as a failure of a read through a reader.
pub open spec fn lift_kind_error<T>(r: Result<T, KindErrorView>) -> Result<T, SelectedKindErrorView> {
    match r {
        Ok(v) => Ok(v),
        Err(KindErrorView::InvalidDesignation { descriptor, error }) => Err(
            SelectedKindErrorView::InvalidDesignation { descriptor, error },
        ),
        Err(KindErrorView::Read(e)) => Err(SelectedKindErrorView::Read(ReadErrorView::Operational(e))),
    }
}

proof fn lemma_current_kind_from(g: Seq<HolonView>, ms: Seq<HolonReference>, i: int)
    ensures
        selected_kind_from(g, CurrentDescriptorReader, ms, i) == lift_kind_error(kind_from(g, ms, i)),
    decreases ms.len() - i,
{
    if 0 <= i < ms.len() {
        lemma_current_kind_from(g, ms, i + 1);
    }
}

/// Classifying through roots shared with `CurrentDescriptorReader` gives
/// exactly the ordinary kind anchor, describing category and compatibility,
/// with each ordinary read error reported as an operational failure.
pub proof fn law_current_reader_classifies_ordinarily(
    roots: DescriptorKindRoots,
    selected: SelectedKindRoots<CurrentDescriptorReader>,
    g: Seq<HolonView>,
    s: Seq<HolonReference>,
    gov: Seq<HolonReference>,
)
    requires
        selected.type_descriptor == roots.type_descriptor,
        selected.holon_type == roots.holon_type,
        selected.meta_type == roots.meta_type,
        selected.meta_holon_type == roots.meta_holon_type,
    ensures
        selected.spec_kind_in_lineage(g, s) == lift_kind_error(roots.spec_kind_in_lineage(g, s)),
        selected.spec_category_in_lineage(g, s) == lift_kind_error(roots.spec_category_in_lineage(g, s)),
        selected.spec_compatibility(g, s, gov) == lift_kind_error(roots.spec_compatibility(g, s, gov)),
{
    lemma_current_kind_from(g, s, 0);
    if s[0] != roots.type_descriptor {
        match roots.spec_kind_in_lineage(g, s) {
            Ok(Some(anchor)) => {
                law_current_reader_diagnoses_ordinarily(g, anchor, anchor);
            },
            _ => {},
        }
    }
}


/// The `DefinesInstanceTypeKind` designation read from `r`.
pub open spec fn kind_designation(g: Seq<HolonView>, r: HolonReference) -> Result<Option<BaseValueView>, ErrorView> {
    spec_property_value(g, r, CorePropertyTypeName::DefinesInstanceTypeKind.spec_name())
}

/// What a scan of `ms` from `i` finds: the first member marked `true`
/// after members marked `false`; none when all are marked `false`; or the
/// first member whose designation is absent, not Boolean, or unreadable.
pub open spec fn scan_outcome(g: Seq<HolonView>, ms: Seq<HolonReference>, i: int, r: Result<
    Option<HolonReference>,
    KindErrorView,
>) -> bool {
    let unmarked_before = |k: int|
        forall|j: int|
            i <= j < k ==> kind_designation(g, #[trigger] ms[j]) == Ok::<Option<BaseValueView>, ErrorView>(
                Some(BaseValueView::BooleanValue(false)),
            );
    match r {
        Ok(Some(d)) => exists|k: int|
            i <= k < ms.len() && ms[k] == d && unmarked_before(k) && #[trigger] kind_designation(g, ms[k]) == Ok::<
                Option<BaseValueView>,
                ErrorView,
            >(Some(BaseValueView::BooleanValue(true))),
        Ok(None) => unmarked_before(ms.len() as int),
        Err(KindErrorView::InvalidDesignation { descriptor, error }) => exists|k: int|
            i <= k < ms.len() && ms[k] == descriptor && unmarked_before(k) && match #[trigger] kind_designation(
                g,
                ms[k],
            ) {
                Ok(None) => error == ErrorView::EmptyField(CorePropertyTypeName::DefinesInstanceTypeKind.spec_name()),
                Ok(Some(v)) => !(v is BooleanValue) && error == ErrorView::UnexpectedValueType(
                    kind_label(v.kind()),
                    "Boolean"@,
                ),
                Err(_) => false,
            },
        Err(KindErrorView::Read(e)) => exists|k: int|
            i <= k < ms.len() && unmarked_before(k) && #[trigger] kind_designation(g, ms[k]) == Err::<
                Option<BaseValueView>,
                ErrorView,
            >(e),
    }
}

proof fn lemma_kind_from_outcome(g: Seq<HolonView>, ms: Seq<HolonReference>, i: int)
    requires
        0 <= i <= ms.len(),
    ensures
        scan_outcome(g, ms, i, kind_from(g, ms, i)),
    decreases ms.len() - i,
{
    if i < ms.len() {
        lemma_kind_from_outcome(g, ms, i + 1);
        let d = kind_designation(g, ms[i]);
        if d == Ok::<Option<BaseValueView>, ErrorView>(Some(BaseValueView::BooleanValue(false))) {
            let r = kind_from(g, ms, i + 1);
            match r {
                Ok(Some(x)) => {
                    let k = choose|k: int|
                        i + 1 <= k < ms.len() && ms[k] == x && (forall|j: int|
                            i + 1 <= j < k ==> kind_designation(g, #[trigger] ms[j]) == Ok::<
                                Option<BaseValueView>,
                                ErrorView,
                            >(Some(BaseValueView::BooleanValue(false)))) && #[trigger] kind_designation(g, ms[k])
                            == Ok::<Option<BaseValueView>, ErrorView>(Some(BaseValueView::BooleanValue(true)));
                    assert(kind_designation(g, ms[k]) == Ok::<Option<BaseValueView>, ErrorView>(
                        Some(BaseValueView::BooleanValue(true)),
                    ));
                },
                Err(KindErrorView::InvalidDesignation { descriptor, error }) => {
                    let k = choose|k: int|
                        i + 1 <= k < ms.len() && ms[k] == descriptor && (forall|j: int|
                            i + 1 <= j < k ==> kind_designation(g, #[trigger] ms[j]) == Ok::<
                                Option<BaseValueView>,
                                ErrorView,
                            >(Some(BaseValueView::BooleanValue(false)))) && match #[trigger] kind_designation(
                            g,
                            ms[k],
                        ) {
                            Ok(None) => error == ErrorView::EmptyField(
                                CorePropertyTypeName::DefinesInstanceTypeKind.spec_name(),
                            ),
                            Ok(Some(v)) => !(v is BooleanValue) && error == ErrorView::UnexpectedValueType(
                                kind_label(v.kind()),
                                "Boolean"@,
                            ),
                            Err(_) => false,
                        };
                    assert(kind_designation(g, ms[k]) == kind_designation(g, ms[k]));
                },
                Err(KindErrorView::Read(e)) => {
                    let k = choose|k: int|
                        i + 1 <= k < ms.len() && (forall|j: int|
                            i + 1 <= j < k ==> kind_designation(g, #[trigger] ms[j]) == Ok::<
                                Option<BaseValueView>,
                                ErrorView,
                            >(Some(BaseValueView::BooleanValue(false)))) && #[trigger] kind_designation(g, ms[k])
                            == Err::<Option<BaseValueView>, ErrorView>(e);
                    assert(kind_designation(g, ms[k]) == Err::<Option<BaseValueView>, ErrorView>(e));
                },
                Ok(None) => {},
            }
        } else {
            assert(kind_designation(g, ms[i]) == d);
        }
    }
}

/// The kind anchor of a lineage: none when the lineage does not reach the
/// type-descriptor root; otherwise the scan runs self first, skipping members
/// marked `false`, and selects the first member marked `true`. A member whose
/// designation is absent or not Boolean is a malformed designation; a member
/// whose designation cannot be read is a read failure; with no member marked
/// `true` there is no anchor.
pub proof fn law_kind_scan_selects_first_marked(roots: DescriptorKindRoots, g: Seq<HolonView>, ms: Seq<HolonReference>)
    ensures
        !ms.contains(roots.type_descriptor) ==> roots.spec_kind_in_lineage(g, ms) == Ok::<
            Option<HolonReference>,
            KindErrorView,
        >(None),
        ms.contains(roots.type_descriptor) ==> scan_outcome(g, ms, 0, roots.spec_kind_in_lineage(g, ms)),
{
    lemma_kind_from_outcome(g, ms, 0);
}

/// Describing compatibility is composed over `valid_lineages`: none without
/// two valid lineages and a unique describer; otherwise, once both lineages
/// are usable and the subject's required category is read, the category
/// matches when it lies in the governing lineage, and the meta-type
/// correspondence compares reaching the type-descriptor root with the
/// governing lineage reaching the meta-type root.
pub proof fn law_compatibility_composes_valid_lineages(
    roots: DescriptorKindRoots,
    g: Seq<HolonView>,
    p: StructuralPrerequisites,
    s: Seq<HolonReference>,
    gov: Seq<HolonReference>,
    cat: Option<HolonReference>,
)
    ensures
        spec_valid_lineages(p) is None ==> (match spec_valid_lineages(p) {
            None => Ok(None),
            Some(l) => roots.spec_compatibility(g, l.0, l.1),
        }) == Ok::<Option<DescribingCompatibility>, KindErrorView>(None),
        spec_valid_lineages(p) == Some((s, gov)) && usable_from(g, s, 0) is Ok && usable_from(g, gov, 0) is Ok
                && roots.spec_category_in_lineage(g, s) == Ok::<Option<HolonReference>, KindErrorView>(cat)
                ==> roots.spec_compatibility(g, s, gov) == Ok::<
                Option<DescribingCompatibility>,
                KindErrorView,
            >(
                Some(
                    DescribingCompatibility {
                        category_matches: match cat {
                            Some(c) => Some(gov.contains(c)),
                            None => None,
                        },
                        meta_type_corresponds: s.contains(roots.type_descriptor) == gov.contains(roots.meta_type),
                    },
                ),
            ),
{
}

/// The descriptor that `reader` selects for `m`, with the
/// `DefinesInstanceTypeKind` designation read from it.
pub open spec fn selected_designation<R: DescriptorReader>(g: Seq<HolonView>, reader: R, m: HolonReference) -> Result<
    (HolonReference, Option<BaseValueView>),
    ReadErrorView,
> {
    match reader.spec_select(g, m) {
        Err(e) => Err(e),
        Ok(d) => match kind_designation(g, d) {
            Err(e) => Err(ReadErrorView::Operational(e)),
            Ok(v) => Ok((d, v)),
        },
    }
}

/// Whether the descriptor selected for `m` is marked `false`.
pub open spec fn selected_unmarked<R: DescriptorReader>(g: Seq<HolonView>, reader: R, m: HolonReference) -> bool {
    match selected_designation(g, reader, m) {
        Ok((_, Some(BaseValueView::BooleanValue(false)))) => true,
        _ => false,
    }
}

/// What a scan of `ms` from `i` through `reader` finds: the selected
/// descriptor of the first member marked `true` after members marked `false`;
/// none when all are marked `false`; or the first member whose selection or
/// designation fails.
pub open spec fn selected_scan_outcome<R: DescriptorReader>(
    g: Seq<HolonView>,
    reader: R,
    ms: Seq<HolonReference>,
    i: int,
    r: Result<Option<HolonReference>, SelectedKindErrorView>,
) -> bool {
    let unmarked_before = |k: int| forall|j: int| i <= j < k ==> #[trigger] selected_unmarked(g, reader, ms[j]);
    match r {
        Ok(Some(d)) => exists|k: int|
            i <= k < ms.len() && unmarked_before(k) && #[trigger] selected_designation(g, reader, ms[k]) == Ok::<
                (HolonReference, Option<BaseValueView>),
                ReadErrorView,
            >((d, Some(BaseValueView::BooleanValue(true)))),
        Ok(None) => unmarked_before(ms.len() as int),
        Err(SelectedKindErrorView::InvalidDesignation { descriptor, error }) => exists|k: int|
            i <= k < ms.len() && unmarked_before(k) && match #[trigger] selected_designation(g, reader, ms[k]) {
                Ok((d, None)) => d == descriptor && error == ErrorView::EmptyField(
                    CorePropertyTypeName::DefinesInstanceTypeKind.spec_name(),
                ),
                Ok((d, Some(v))) => d == descriptor && !(v is BooleanValue) && error == ErrorView::UnexpectedValueType(
                    kind_label(v.kind()),
                    "Boolean"@,
                ),
                Err(_) => false,
            },
        Err(SelectedKindErrorView::Read(e)) => exists|k: int|
            i <= k < ms.len() && unmarked_before(k) && #[trigger] selected_designation(g, reader, ms[k]) == Err::<
                (HolonReference, Option<BaseValueView>),
                ReadErrorView,
            >(e),
    }
}

proof fn lemma_selected_kind_from_outcome<R: DescriptorReader>(g: Seq<HolonView>, reader: R, ms: Seq<HolonReference>, i: int)
    requires
        0 <= i <= ms.len(),
    ensures
        selected_scan_outcome(g, reader, ms, i, selected_kind_from(g, reader, ms, i)),
    decreases ms.len() - i,
{
    if i < ms.len() {
        lemma_selected_kind_from_outcome(g, reader, ms, i + 1);
        let sd = selected_designation(g, reader, ms[i]);
        if selected_unmarked(g, reader, ms[i]) {
            let r = selected_kind_from(g, reader, ms, i + 1);
            match r {
                Ok(Some(x)) => {
                    let k = choose|k: int|
                        i + 1 <= k < ms.len() && (forall|j: int|
                            i + 1 <= j < k ==> #[trigger] selected_unmarked(g, reader, ms[j]))
                            && #[trigger] selected_designation(g, reader, ms[k]) == Ok::<
                            (HolonReference, Option<BaseValueView>),
                            ReadErrorView,
                        >((x, Some(BaseValueView::BooleanValue(true))));
                    assert(selected_designation(g, reader, ms[k]) == Ok::<
                        (HolonReference, Option<BaseValueView>),
                        ReadErrorView,
                    >((x, Some(BaseValueView::BooleanValue(true)))));
                },
                Err(SelectedKindErrorView::InvalidDesignation { descriptor, error }) => {
                    let k = choose|k: int|
                        i + 1 <= k < ms.len() && (forall|j: int|
                            i + 1 <= j < k ==> #[trigger] selected_unmarked(g, reader, ms[j])) && match #[trigger] selected_designation(
                            g,
                            reader,
                            ms[k],
                        ) {
                            Ok((d, None)) => d == descriptor && error == ErrorView::EmptyField(
                                CorePropertyTypeName::DefinesInstanceTypeKind.spec_name(),
                            ),
                            Ok((d, Some(v))) => d == descriptor && !(v is BooleanValue) && error
                                == ErrorView::UnexpectedValueType(kind_label(v.kind()), "Boolean"@),
                            Err(_) => false,
                        };
                    assert(selected_designation(g, reader, ms[k]) == selected_designation(g, reader, ms[k]));
                },
                Err(SelectedKindErrorView::Read(e)) => {
                    let k = choose|k: int|
                        i + 1 <= k < ms.len() && (forall|j: int|
                            i + 1 <= j < k ==> #[trigger] selected_unmarked(g, reader, ms[j]))
                            && #[trigger] selected_designation(g, reader, ms[k]) == Err::<
                            (HolonReference, Option<BaseValueView>),
                            ReadErrorView,
                        >(e);
                    assert(selected_designation(g, reader, ms[k]) == Err::<
                        (HolonReference, Option<BaseValueView>),
                        ReadErrorView,
                    >(e));
                },
                Ok(None) => {},
            }
        } else {
            assert(selected_designation(g, reader, ms[i]) == sd);
        }
    }
}

/// The kind anchor of a lineage read through a reader: none when the lineage
/// does not reach the selected type-descriptor root; otherwise the scan runs
/// self first over each member's selected descriptor, skipping those marked
/// `false`, and gives the first selected descriptor marked `true`. A selected
/// descriptor whose designation is absent or not Boolean is a malformed
/// designation; a selection or designation that cannot be read is a read
/// failure; with none marked `true` there is no anchor.
pub proof fn law_selected_kind_scan_selects_first_marked<R: DescriptorReader>(
    roots: SelectedKindRoots<R>,
    g: Seq<HolonView>,
    ms: Seq<HolonReference>,
)
    ensures
        roots.select_root(g, roots.type_descriptor) matches Err(e) ==> roots.spec_kind_in_lineage(g, ms) == Err::<
            Option<HolonReference>,
            SelectedKindErrorView,
        >(e),
        roots.select_root(g, roots.type_descriptor) matches Ok(root) ==> (!ms.contains(root)
            ==> roots.spec_kind_in_lineage(g, ms) == Ok::<Option<HolonReference>, SelectedKindErrorView>(None)),
        roots.select_root(g, roots.type_descriptor) matches Ok(root) ==> (ms.contains(root) ==> selected_scan_outcome(
            g,
            roots.spec_reader(),
            ms,
            0,
            roots.spec_kind_in_lineage(g, ms),
        )),
{
    lemma_selected_kind_from_outcome(g, roots.spec_reader(), ms, 0);
}

/// Describing compatibility through a reader is composed over
/// `valid_lineages`: none without two valid lineages and a unique describer;
/// otherwise, once both lineages are usable, the subject's required category
/// is read and the type-descriptor and meta-type roots are selected, the
/// category matches when it lies in the governing lineage, and the meta-type
/// correspondence compares the subject reaching the selected type-descriptor
/// root with the governing lineage reaching the selected meta-type root.
pub proof fn law_selected_compatibility_composes_valid_lineages<R: DescriptorReader>(
    roots: SelectedKindRoots<R>,
    g: Seq<HolonView>,
    p: StructuralPrerequisites,
    s: Seq<HolonReference>,
    gov: Seq<HolonReference>,
    cat: Option<HolonReference>,
    td: HolonReference,
    mt: HolonReference,
)
    ensures
        spec_valid_lineages(p) is None ==> (match spec_valid_lineages(p) {
            None => Ok(None),
            Some(l) => roots.spec_compatibility(g, l.0, l.1),
        }) == Ok::<Option<DescribingCompatibility>, SelectedKindErrorView>(None),
        spec_valid_lineages(p) == Some((s, gov)) && usable_read(g, s) is Ok && usable_read(g, gov) is Ok
            && roots.spec_category_in_lineage(g, s) == Ok::<Option<HolonReference>, SelectedKindErrorView>(cat)
            && roots.select_root(g, roots.type_descriptor) == Ok::<HolonReference, SelectedKindErrorView>(td)
            && roots.select_root(g, roots.meta_type) == Ok::<HolonReference, SelectedKindErrorView>(mt)
            ==> roots.spec_compatibility(g, s, gov) == Ok::<Option<DescribingCompatibility>, SelectedKindErrorView>(
            Some(
                DescribingCompatibility {
                    category_matches: match cat {
                        Some(c) => Some(gov.contains(c)),
                        None => None,
                    },
                    meta_type_corresponds: s.contains(td) == gov.contains(mt),
                },
            ),
        ),
{
}

} // verus!
