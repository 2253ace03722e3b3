//! Classification-independent structural products: describing types and
//! diagnosed `Extends` lineages. No validation dispatch occurs here.
use crate::definition_identity::{lineage_contains, same_definition};
use crate::error::{rview, ErrorView, HolonError};
use crate::graph::{spec_related, HolonGraph, HolonReference, HolonView};
use crate::inheritance::{lemma_walk_starts_with_subject, opt_error_view, spec_walk, walk_extends_chain};
use crate::names::CoreRelationshipTypeName;
use crate::assessment_reader::{operational, read_view, AssessmentReadError, CurrentDescriptorReader, DescriptorReader, ReadErrorView};
use crate::selected_lineage::{law_current_reader_reads_ordinary_targets, law_current_reader_walks_ordinary_lineage, local_targets_with_reader, spec_local_targets_with_reader, spec_walk_with_reader, walk_extends_chain_with_reader};
use vstd::prelude::*;

verus! {

/// Direct describing targets, retaining malformed readable state for diagnostics.
#[derive(Clone, Debug)]
pub enum DescribingTypeResolution {
    Missing,
    Unique(HolonReference),
    Multiple(Vec<HolonReference>),
}

/// The mathematical content of a `DescribingTypeResolution`.
pub enum DescribingView {
    Missing,
    Unique(HolonReference),
    Multiple(Seq<HolonReference>),
}

impl View for DescribingTypeResolution {
    type V = DescribingView;

    open spec fn view(&self) -> DescribingView {
        match self {
            DescribingTypeResolution::Missing => DescribingView::Missing,
            DescribingTypeResolution::Unique(r) => DescribingView::Unique(*r),
            DescribingTypeResolution::Multiple(v) => DescribingView::Multiple(v@),
        }
    }
}

impl DeepView for DescribingTypeResolution {
    type V = DescribingView;

    open spec fn deep_view(&self) -> DescribingView {
        self@
    }
}

/// The direct describing targets of `subject`, classified by count.
pub open spec fn spec_describing_type(g: Seq<HolonView>, subject: HolonReference) -> Result<
    DescribingView,
    ErrorView,
> {
    match spec_related(g, subject, CoreRelationshipTypeName::DescribedBy.spec_name()) {
        Err(e) => Err(e),
        Ok(ts) => if ts.len() == 0 {
            Ok(DescribingView::Missing)
        } else if ts.len() == 1 {
            Ok(DescribingView::Unique(ts[0]))
        } else {
            Ok(DescribingView::Multiple(ts))
        },
    }
}

/// The direct (local) targets of `relationship` on `subject`.
pub fn local_targets(g: &HolonGraph, subject: HolonReference, relationship: CoreRelationshipTypeName) -> (res: Result<
    Vec<HolonReference>,
    HolonError,
>)
    ensures
        rview(res) == spec_related(g@, subject, relationship.spec_name()),
        res matches Ok(v) ==> spec_related(g@, subject, relationship.spec_name()) == Ok::<
            Seq<HolonReference>,
            ErrorView,
        >(v@),
{
    let v = g.related_core(subject, relationship)?;
    assert(v.deep_view() =~= v@);
    Ok(v)
}

/// Reads only the direct describing edge; self-description never recurses.
pub fn resolve_describing_type(g: &HolonGraph, subject: HolonReference) -> (res: Result<
    DescribingTypeResolution,
    HolonError,
>)
    ensures
        rview(res) == spec_describing_type(g@, subject),
{
    let targets = local_targets(g, subject, CoreRelationshipTypeName::DescribedBy)?;
    if targets.len() == 0 {
        Ok(DescribingTypeResolution::Missing)
    } else if targets.len() == 1 {
        Ok(DescribingTypeResolution::Unique(targets[0]))
    } else {
        Ok(DescribingTypeResolution::Multiple(targets))
    }
}

/// Stable graph defects, distinct from failures to read the graph.
#[derive(Clone, Debug)]
pub enum ExtendsLineageDefect {
    MultipleParents { subject: HolonReference, count: usize },
    Cycle { path: Vec<HolonReference>, repeated_descriptor: HolonReference },
    WrongTermination { terminal: HolonReference },
    RootHasParent,
}

/// The mathematical content of an `ExtendsLineageDefect`.
pub enum DefectView {
    MultipleParents { subject: HolonReference, count: usize },
    Cycle { path: Seq<HolonReference>, repeated_descriptor: HolonReference },
    WrongTermination { terminal: HolonReference },
    RootHasParent,
}

impl View for ExtendsLineageDefect {
    type V = DefectView;

    open spec fn view(&self) -> DefectView {
        match self {
            ExtendsLineageDefect::MultipleParents { subject, count } => DefectView::MultipleParents {
                subject: *subject,
                count: *count,
            },
            ExtendsLineageDefect::Cycle { path, repeated_descriptor } => DefectView::Cycle {
                path: path@,
                repeated_descriptor: *repeated_descriptor,
            },
            ExtendsLineageDefect::WrongTermination { terminal } => DefectView::WrongTermination {
                terminal: *terminal,
            },
            ExtendsLineageDefect::RootHasParent => DefectView::RootHasParent,
        }
    }
}

impl DeepView for ExtendsLineageDefect {
    type V = DefectView;

    open spec fn deep_view(&self) -> DefectView {
        self@
    }
}

/// One drained lineage with the structural defects found on it.
/// A defective lineage is diagnostic evidence, never a valid classification product.
#[derive(Clone, Debug)]
pub struct ExtendsLineageDiagnosis {
    pub lineage: Vec<HolonReference>,
    pub defects: Vec<ExtendsLineageDefect>,
}

impl ExtendsLineageDiagnosis {
    /// The lineage and defects.
    pub open spec fn spec_view(&self) -> (Seq<HolonReference>, Seq<DefectView>) {
        (self.lineage@, self.defects.deep_view())
    }
}

/// The defect, if any, recorded for the error that ended a walk over `lineage`;
/// `Err` carries an error that is not a lineage defect.
pub open spec fn walk_defect(lineage: Seq<HolonReference>, error: Option<ErrorView>) -> Result<
    Seq<DefectView>,
    ErrorView,
> {
    match error {
        None => Ok(Seq::empty()),
        Some(ErrorView::MultipleExtends { count, .. }) => Ok(
            seq![DefectView::MultipleParents { subject: lineage.last(), count }],
        ),
        Some(ErrorView::CyclicExtends { descriptor }) => Ok(
            seq![DefectView::Cycle { path: lineage, repeated_descriptor: descriptor }],
        ),
        Some(e) => Err(e),
    }
}

/// The diagnosis of `subject`'s lineage against the designated `root`: the
/// walked lineage (self first), the walk's own defect, then `RootHasParent`
/// when the root is reached yet has a parent, then `WrongTermination` when a
/// completed walk of more than one member ends elsewhere than at the root.
pub open spec fn spec_assess_lineage(g: Seq<HolonView>, subject: HolonReference, root: HolonReference) -> Result<
    (Seq<HolonReference>, Seq<DefectView>),
    ErrorView,
> {
    let w = spec_walk(g, subject);
    let lineage = w.0;
    match walk_defect(lineage, w.1) {
        Err(e) => Err(e),
        Ok(d0) => {
            let completed = d0.len() == 0;
            match (if lineage.contains(root) {
                match spec_related(g, root, CoreRelationshipTypeName::Extends.spec_name()) {
                    Err(e) => Err(e),
                    Ok(ps) => Ok(ps.len() > 0),
                }
            } else {
                Ok(false)
            }) {
                Err(e) => Err(e),
                Ok(root_has_parent) => {
                    let d1 = if root_has_parent {
                        d0.push(DefectView::RootHasParent)
                    } else {
                        d0
                    };
                    let d2 = if completed && lineage.len() > 1 && lineage.last() != root {
                        d1.push(DefectView::WrongTermination { terminal: lineage.last() })
                    } else {
                        d1
                    };
                    Ok((lineage, d2))
                },
            }
        },
    }
}

fn copy_lineage(v: &Vec<HolonReference>) -> (r: Vec<HolonReference>)
    ensures
        r@ == v@,
{
    let mut r: Vec<HolonReference> = Vec::new();
    let mut i: usize = 0;
    while i < v.len()
        invariant
            i <= v.len(),
            r@ == v@.subrange(0, i as int),
        decreases v.len() - i,
    {
        r.push(v[i]);
        i = i + 1;
        assert(r@ =~= v@.subrange(0, i as int));
    }
    assert(r@ =~= v@);
    r
}

/// A lineage whose structural checks completed without a defect.
pub struct ValidExtendsLineage {
    members: Vec<HolonReference>,
}

impl ValidExtendsLineage {
    /// The members, self first.
    pub closed spec fn spec_members(&self) -> Seq<HolonReference> {
        self.members@
    }

    /// Returns members in self-first order.
    pub fn members(&self) -> (m: &Vec<HolonReference>)
        ensures
            m@ == self.spec_members(),
    {
        &self.members
    }

    /// Returns the subject at the start of this lineage; a lineage diagnosed
    /// from a subject always starts with it.
    pub fn subject(&self) -> (s: HolonReference)
        requires
            self.spec_members().len() > 0,
        ensures
            s == self.spec_members()[0],
    {
        self.members[0]
    }
}

impl ExtendsLineageDiagnosis {
    /// Diagnoses `subject`'s lineage against the designated `root`.
    pub fn assess(g: &HolonGraph, subject: HolonReference, root: HolonReference) -> (res: Result<
        ExtendsLineageDiagnosis,
        HolonError,
    >)
        ensures
            match res {
                Ok(d) => spec_assess_lineage(g@, subject, root) == Ok::<_, ErrorView>(d.spec_view())
                    && d.lineage@.len() >= 1 && d.lineage@[0] == subject,
                Err(e) => spec_assess_lineage(g@, subject, root) == Err::<
                    (Seq<HolonReference>, Seq<DefectView>),
                    ErrorView,
                >(e@),
            },
    {
        proof {
            lemma_walk_starts_with_subject(g@, subject);
        }
        let walk = walk_extends_chain(g, subject);
        let ghost werr = opt_error_view(walk.error);
        let lineage = walk.members;
        assert(lineage@.len() >= 1 && lineage@[0] == subject);
        let mut defects: Vec<ExtendsLineageDefect> = Vec::new();
        match walk.error {
            None => {
                assert(defects.deep_view() =~= Seq::<DefectView>::empty());
            },
            Some(HolonError::MultipleExtends { descriptor, count }) => {
                defects.push(ExtendsLineageDefect::MultipleParents { subject: lineage[lineage.len() - 1], count });
                assert(defects.deep_view() =~= seq![DefectView::MultipleParents { subject: lineage@.last(), count }]);
            },
            Some(HolonError::CyclicExtends { descriptor }) => {
                defects.push(
                    ExtendsLineageDefect::Cycle { path: copy_lineage(&lineage), repeated_descriptor: descriptor },
                );
                assert(defects.deep_view() =~= seq![DefectView::Cycle { path: lineage@, repeated_descriptor: descriptor }]);
            },
            Some(e) => {
                return Err(e);
            },
        }
        let ghost d0 = defects.deep_view();
        assert(walk_defect(lineage@, werr) == Ok::<Seq<DefectView>, ErrorView>(d0));
        let completed = defects.len() == 0;
        if lineage_contains(&lineage, &root) {
            let parents = local_targets(g, root, CoreRelationshipTypeName::Extends)?;
            if parents.len() > 0 {
                defects.push(ExtendsLineageDefect::RootHasParent);
                assert(defects.deep_view() =~= d0.push(DefectView::RootHasParent));
            }
        }
        let ghost d1 = defects.deep_view();
        if completed && lineage.len() > 1 && !same_definition(&lineage[lineage.len() - 1], &root) {
            defects.push(ExtendsLineageDefect::WrongTermination { terminal: lineage[lineage.len() - 1] });
        }
        assert(defects.deep_view() =~= (if completed && lineage@.len() > 1 && lineage@.last() != root {
            d1.push(DefectView::WrongTermination { terminal: lineage@.last() })
        } else {
            d1
        }));
        Ok(ExtendsLineageDiagnosis { lineage, defects })
    }

    /// Exposes the lineage to kind checks only when diagnosis found no defect.
    pub fn valid_lineage(&self) -> (r: Option<ValidExtendsLineage>)
        ensures
            r is Some <==> self.defects@.len() == 0,
            r matches Some(v) ==> v.spec_members() == self.lineage@,
    {
        if self.defects.len() == 0 {
            Some(ValidExtendsLineage { members: copy_lineage(&self.lineage) })
        } else {
            None
        }
    }
}

impl ExtendsLineageDefect {
    /// Returns an independent copy.
    pub fn duplicate(&self) -> (r: ExtendsLineageDefect)
        ensures
            r@ == self@,
    {
        match self {
            ExtendsLineageDefect::MultipleParents { subject, count } => ExtendsLineageDefect::MultipleParents {
                subject: *subject,
                count: *count,
            },
            ExtendsLineageDefect::Cycle { path, repeated_descriptor } => ExtendsLineageDefect::Cycle {
                path: copy_lineage(path),
                repeated_descriptor: *repeated_descriptor,
            },
            ExtendsLineageDefect::WrongTermination { terminal } => ExtendsLineageDefect::WrongTermination {
                terminal: *terminal,
            },
            ExtendsLineageDefect::RootHasParent => ExtendsLineageDefect::RootHasParent,
        }
    }
}

impl ExtendsLineageDiagnosis {
    /// Returns an independent copy.
    pub fn duplicate(&self) -> (r: ExtendsLineageDiagnosis)
        ensures
            r.spec_view() == self.spec_view(),
    {
        let mut defects: Vec<ExtendsLineageDefect> = Vec::new();
        let mut i: usize = 0;
        while i < self.defects.len()
            invariant
                i <= self.defects.len(),
                defects.deep_view() == self.defects.deep_view().subrange(0, i as int),
            decreases self.defects.len() - i,
        {
            let ghost before = defects.deep_view();
            defects.push(self.defects[i].duplicate());
            assert(defects.deep_view() =~= before.push(self.defects.deep_view()[i as int]));
            i = i + 1;
            assert(self.defects.deep_view().subrange(0, i as int) =~= before.push(
                self.defects.deep_view()[i - 1],
            ));
        }
        assert(self.defects.deep_view().subrange(0, i as int) =~= self.defects.deep_view());
        ExtendsLineageDiagnosis { lineage: copy_lineage(&self.lineage), defects }
    }
}

/// The structural inputs of later prerequisite and binding checks: the direct
/// describing type, the subject's diagnosed lineage, and the diagnosed lineage
/// of a unique describer (the subject's own when it describes itself).
pub open spec fn spec_assess_prerequisites(g: Seq<HolonView>, subject: HolonReference, root: HolonReference) -> Result<
    (DescribingView, (Seq<HolonReference>, Seq<DefectView>), Option<(Seq<HolonReference>, Seq<DefectView>)>),
    ErrorView,
> {
    match spec_describing_type(g, subject) {
        Err(e) => Err(e),
        Ok(dt) => match spec_assess_lineage(g, subject, root) {
            Err(e) => Err(e),
            Ok(sl) => match dt {
                DescribingView::Unique(d) => if d == subject {
                    Ok((dt, sl, Some(sl)))
                } else {
                    match spec_assess_lineage(g, d, root) {
                        Err(e) => Err(e),
                        Ok(gl) => Ok((dt, sl, Some(gl))),
                    }
                },
                _ => Ok((dt, sl, None)),
            },
        },
    }
}

/// A present governing diagnosis without defects.
pub open spec fn governing_valid(gl: Option<ExtendsLineageDiagnosis>) -> bool {
    match gl {
        Some(d) => d.defects@.len() == 0,
        None => false,
    }
}

/// Structural input shared by later prerequisite and binding paths.
/// An assessment result, not a cache: discard it before the graph changes.
#[derive(Clone, Debug)]
pub struct StructuralPrerequisites {
    pub describing_type: DescribingTypeResolution,
    pub subject_lineage: ExtendsLineageDiagnosis,
    pub governing_lineage: Option<ExtendsLineageDiagnosis>,
}

impl StructuralPrerequisites {
    /// The describing type and the two diagnoses.
    pub open spec fn spec_view(&self) -> (
        DescribingView,
        (Seq<HolonReference>, Seq<DefectView>),
        Option<(Seq<HolonReference>, Seq<DefectView>)>,
    ) {
        (
            self.describing_type@,
            self.subject_lineage.spec_view(),
            match self.governing_lineage {
                Some(d) => Some(d.spec_view()),
                None => None,
            },
        )
    }

    /// Diagnoses the subject and its unique direct describer without classifying either.
    pub fn assess(g: &HolonGraph, subject: HolonReference, root: HolonReference) -> (res: Result<
        StructuralPrerequisites,
        HolonError,
    >)
        ensures
            match res {
                Ok(p) => spec_assess_prerequisites(g@, subject, root) == Ok::<_, ErrorView>(p.spec_view()),
                Err(e) => spec_assess_prerequisites(g@, subject, root) == Err::<
                    (
                        DescribingView,
                        (Seq<HolonReference>, Seq<DefectView>),
                        Option<(Seq<HolonReference>, Seq<DefectView>)>,
                    ),
                    ErrorView,
                >(e@),
            },
    {
        let describing_type = resolve_describing_type(g, subject)?;
        let subject_lineage = ExtendsLineageDiagnosis::assess(g, subject, root)?;
        let governing_lineage = match &describing_type {
            DescribingTypeResolution::Unique(d) => {
                if same_definition(d, &subject_lineage.lineage[0]) {
                    Some(subject_lineage.duplicate())
                } else {
                    Some(ExtendsLineageDiagnosis::assess(g, *d, root)?)
                }
            },
            _ => None,
        };
        Ok(StructuralPrerequisites { describing_type, subject_lineage, governing_lineage })
    }

    /// Returns both checked lineages only when both are free of defects and
    /// the direct describer is unique.
    pub fn valid_lineages(&self) -> (r: Option<(ValidExtendsLineage, ValidExtendsLineage)>)
        ensures
            r is Some <==> (self.describing_type@ is Unique && self.subject_lineage.defects@.len() == 0
                && governing_valid(self.governing_lineage)),
            r matches Some(p) ==> p.0.spec_members() == self.subject_lineage.lineage@
                && p.1.spec_members() == self.governing_lineage->0.lineage@,
    {
        match &self.describing_type {
            DescribingTypeResolution::Unique(_) => {},
            _ => {
                return None;
            },
        }
        let s = self.subject_lineage.valid_lineage()?;
        let gl = match &self.governing_lineage {
            Some(gl) => gl,
            None => {
                return None;
            },
        };
        let v = gl.valid_lineage()?;
        Some((s, v))
    }
}

/// The describing classification of direct describing targets.
pub open spec fn classify_describing(ts: Seq<HolonReference>) -> DescribingView {
    if ts.len() == 0 {
        DescribingView::Missing
    } else if ts.len() == 1 {
        DescribingView::Unique(ts[0])
    } else {
        DescribingView::Multiple(ts)
    }
}

/// The direct describing targets of the selected content of `subject`, each
/// selected, classified by count.
pub open spec fn spec_describing_type_with_reader<R: DescriptorReader>(
    g: Seq<HolonView>,
    reader: R,
    subject: HolonReference,
) -> Result<DescribingView, ReadErrorView> {
    match spec_local_targets_with_reader(g, reader, subject, CoreRelationshipTypeName::DescribedBy.spec_name()) {
        Err(e) => Err(e),
        Ok(ts) => Ok(classify_describing(ts)),
    }
}

/// Reads direct describing targets through the assessment's replacement selection.
pub fn resolve_describing_type_with_reader<R: DescriptorReader>(
    g: &HolonGraph,
    subject: HolonReference,
    reader: &R,
) -> (res: Result<DescribingTypeResolution, AssessmentReadError>)
    ensures
        read_view(res) == spec_describing_type_with_reader(g@, *reader, subject),
{
    let targets = local_targets_with_reader(g, subject, CoreRelationshipTypeName::DescribedBy, reader)?;
    if targets.len() == 0 {
        Ok(DescribingTypeResolution::Missing)
    } else if targets.len() == 1 {
        Ok(DescribingTypeResolution::Unique(targets[0]))
    } else {
        Ok(DescribingTypeResolution::Multiple(targets))
    }
}

/// The defect, if any, recorded for the error that ended a walk through a
/// reader; `Err` carries an error that is not a lineage defect. A
/// multiple-parent error is a defect of the last holon reached, so one that
/// ends a walk before any holon was reached is reported as an error.
pub open spec fn walk_defect_with_reader(lineage: Seq<HolonReference>, error: Option<ReadErrorView>) -> Result<
    Seq<DefectView>,
    ReadErrorView,
> {
    match error {
        None => Ok(Seq::empty()),
        Some(ReadErrorView::Operational(ErrorView::MultipleExtends { count, .. })) => if lineage.len() > 0 {
            Ok(seq![DefectView::MultipleParents { subject: lineage.last(), count }])
        } else {
            Err(error.unwrap())
        },
        Some(ReadErrorView::Operational(ErrorView::CyclicExtends { descriptor })) => Ok(
            seq![DefectView::Cycle { path: lineage, repeated_descriptor: descriptor }],
        ),
        Some(e) => Err(e),
    }
}

/// The diagnosis of the selected lineage of `subject` against the selected
/// `root`, by the same rules as `spec_assess_lineage`.
pub open spec fn spec_assess_lineage_with_reader<R: DescriptorReader>(
    g: Seq<HolonView>,
    reader: R,
    subject: HolonReference,
    root: HolonReference,
) -> Result<(Seq<HolonReference>, Seq<DefectView>), ReadErrorView> {
    match reader.spec_select(g, root) {
        Err(e) => Err(e),
        Ok(root) => {
            let w = spec_walk_with_reader(g, reader, subject);
            let lineage = w.0;
            match walk_defect_with_reader(lineage, w.1) {
                Err(e) => Err(e),
                Ok(d0) => {
                    let completed = d0.len() == 0;
                    match (if lineage.contains(root) {
                        match spec_local_targets_with_reader(
                            g,
                            reader,
                            root,
                            CoreRelationshipTypeName::Extends.spec_name(),
                        ) {
                            Err(e) => Err(e),
                            Ok(ps) => Ok(ps.len() > 0),
                        }
                    } else {
                        Ok(false)
                    }) {
                        Err(e) => Err(e),
                        Ok(root_has_parent) => {
                            let d1 = if root_has_parent {
                                d0.push(DefectView::RootHasParent)
                            } else {
                                d0
                            };
                            let d2 = if completed && lineage.len() > 1 && lineage.last() != root {
                                d1.push(DefectView::WrongTermination { terminal: lineage.last() })
                            } else {
                                d1
                            };
                            Ok((lineage, d2))
                        },
                    }
                },
            }
        },
    }
}

impl ExtendsLineageDiagnosis {
    /// Diagnoses selected prospective content with the same lineage rules.
    pub fn assess_with_reader<R: DescriptorReader>(
        g: &HolonGraph,
        subject: HolonReference,
        root: HolonReference,
        reader: &R,
    ) -> (res: Result<ExtendsLineageDiagnosis, AssessmentReadError>)
        ensures
            match res {
                Ok(d) => spec_assess_lineage_with_reader(g@, *reader, subject, root) == Ok::<_, ReadErrorView>(
                    d.spec_view(),
                ),
                Err(e) => spec_assess_lineage_with_reader(g@, *reader, subject, root) == Err::<
                    (Seq<HolonReference>, Seq<DefectView>),
                    ReadErrorView,
                >(e@),
            },
    {
        let root = reader.select(g, root)?;
        let walk = walk_extends_chain_with_reader(g, subject, reader);
        let ghost werr = walk.spec_view().1;
        let lineage = walk.members;
        let mut defects: Vec<ExtendsLineageDefect> = Vec::new();
        match walk.error {
            None => {
                assert(defects.deep_view() =~= Seq::<DefectView>::empty());
            },
            Some(AssessmentReadError::Operational(HolonError::MultipleExtends { descriptor, count })) => {
                if lineage.len() == 0 {
                    return Err(
                        AssessmentReadError::Operational(HolonError::MultipleExtends { descriptor, count }),
                    );
                }
                defects.push(ExtendsLineageDefect::MultipleParents { subject: lineage[lineage.len() - 1], count });
                assert(defects.deep_view() =~= seq![DefectView::MultipleParents { subject: lineage@.last(), count }]);
            },
            Some(AssessmentReadError::Operational(HolonError::CyclicExtends { descriptor })) => {
                defects.push(
                    ExtendsLineageDefect::Cycle { path: copy_lineage(&lineage), repeated_descriptor: descriptor },
                );
                assert(defects.deep_view() =~= seq![DefectView::Cycle { path: lineage@, repeated_descriptor: descriptor }]);
            },
            Some(e) => {
                return Err(e);
            },
        }
        let ghost d0 = defects.deep_view();
        assert(walk_defect_with_reader(lineage@, werr) == Ok::<Seq<DefectView>, ReadErrorView>(d0));
        let completed = defects.len() == 0;
        if lineage_contains(&lineage, &root) {
            let parents = local_targets_with_reader(g, root, CoreRelationshipTypeName::Extends, reader)?;
            if parents.len() > 0 {
                defects.push(ExtendsLineageDefect::RootHasParent);
                assert(defects.deep_view() =~= d0.push(DefectView::RootHasParent));
            }
        }
        let ghost d1 = defects.deep_view();
        if completed && lineage.len() > 1 && !same_definition(&lineage[lineage.len() - 1], &root) {
            defects.push(ExtendsLineageDefect::WrongTermination { terminal: lineage[lineage.len() - 1] });
        }
        assert(defects.deep_view() =~= (if completed && lineage@.len() > 1 && lineage@.last() != root {
            d1.push(DefectView::WrongTermination { terminal: lineage@.last() })
        } else {
            d1
        }));
        Ok(ExtendsLineageDiagnosis { lineage, defects })
    }
}

/// The structural inputs read through `reader`: the selected describing type,
/// the diagnosis of the selected subject lineage, and the diagnosis of a unique
/// describer (the subject's own when the describer is the selected subject).
pub open spec fn spec_assess_prerequisites_with_reader<R: DescriptorReader>(
    g: Seq<HolonView>,
    reader: R,
    subject: HolonReference,
    root: HolonReference,
) -> Result<
    (DescribingView, (Seq<HolonReference>, Seq<DefectView>), Option<(Seq<HolonReference>, Seq<DefectView>)>),
    ReadErrorView,
> {
    match spec_describing_type_with_reader(g, reader, subject) {
        Err(e) => Err(e),
        Ok(dt) => match spec_assess_lineage_with_reader(g, reader, subject, root) {
            Err(e) => Err(e),
            Ok(sl) => match dt {
                DescribingView::Unique(d) => if sl.0.len() > 0 && d == sl.0[0] {
                    Ok((dt, sl, Some(sl)))
                } else {
                    match spec_assess_lineage_with_reader(g, reader, d, root) {
                        Err(e) => Err(e),
                        Ok(gl) => Ok((dt, sl, Some(gl))),
                    }
                },
                _ => Ok((dt, sl, None)),
            },
        },
    }
}

impl StructuralPrerequisites {
    /// Diagnoses selected prospective content with the same structural rules.
    pub fn assess_with_reader<R: DescriptorReader>(
        g: &HolonGraph,
        subject: HolonReference,
        root: HolonReference,
        reader: &R,
    ) -> (res: Result<StructuralPrerequisites, AssessmentReadError>)
        ensures
            match res {
                Ok(p) => spec_assess_prerequisites_with_reader(g@, *reader, subject, root) == Ok::<_, ReadErrorView>(
                    p.spec_view(),
                ),
                Err(e) => spec_assess_prerequisites_with_reader(g@, *reader, subject, root) == Err::<
                    (
                        DescribingView,
                        (Seq<HolonReference>, Seq<DefectView>),
                        Option<(Seq<HolonReference>, Seq<DefectView>)>,
                    ),
                    ReadErrorView,
                >(e@),
            },
    {
        let describing_type = resolve_describing_type_with_reader(g, subject, reader)?;
        let subject_lineage = ExtendsLineageDiagnosis::assess_with_reader(g, subject, root, reader)?;
        let governing_lineage = match &describing_type {
            DescribingTypeResolution::Unique(d) => {
                if subject_lineage.lineage.len() > 0 && same_definition(d, &subject_lineage.lineage[0]) {
                    Some(subject_lineage.duplicate())
                } else {
                    Some(ExtendsLineageDiagnosis::assess_with_reader(g, *d, root, reader)?)
                }
            },
            _ => None,
        };
        Ok(StructuralPrerequisites { describing_type, subject_lineage, governing_lineage })
    }
}

/// Diagnosing through `CurrentDescriptorReader` gives exactly the ordinary
/// describing type, lineage diagnoses and structural prerequisites, with each
/// ordinary read error reported as an operational failure.
pub proof fn law_current_reader_diagnoses_ordinarily(g: Seq<HolonView>, subject: HolonReference, root: HolonReference)
    ensures
        spec_describing_type_with_reader(g, CurrentDescriptorReader, subject) == operational(
            spec_describing_type(g, subject),
        ),
        spec_assess_lineage_with_reader(g, CurrentDescriptorReader, subject, root) == operational(
            spec_assess_lineage(g, subject, root),
        ),
        spec_assess_prerequisites_with_reader(g, CurrentDescriptorReader, subject, root) == operational(
            spec_assess_prerequisites(g, subject, root),
        ),
{
    lemma_current_lineage(g, subject, root);
    law_current_reader_reads_ordinary_targets(g, subject, CoreRelationshipTypeName::DescribedBy.spec_name());
    lemma_walk_starts_with_subject(g, subject);
    match spec_describing_type(g, subject) {
        Ok(DescribingView::Unique(d)) => {
            lemma_current_lineage(g, d, root);
        },
        _ => {},
    }
}

proof fn lemma_current_lineage(g: Seq<HolonView>, subject: HolonReference, root: HolonReference)
    ensures
        spec_assess_lineage_with_reader(g, CurrentDescriptorReader, subject, root) == operational(
            spec_assess_lineage(g, subject, root),
        ),
{
    law_current_reader_walks_ordinary_lineage(g, subject);
    law_current_reader_reads_ordinary_targets(g, root, CoreRelationshipTypeName::Extends.spec_name());
    lemma_walk_starts_with_subject(g, subject);
}


/// Whether `r` can be read and has an `Extends` target.
pub open spec fn has_extends_parent(g: Seq<HolonView>, r: HolonReference) -> bool {
    match spec_related(g, r, CoreRelationshipTypeName::Extends.spec_name()) {
        Ok(ps) => ps.len() > 0,
        Err(_) => false,
    }
}

/// The defects `ExtendsLineageDiagnosis::assess` records: the lineage is the
/// walked lineage; a walk ended by several parents or a cycle records that
/// defect first; `RootHasParent` is recorded exactly when the root is reached
/// and has an `Extends` parent; `WrongTermination` exactly when the walk
/// completed without a defect over more than one holon and ended elsewhere
/// than at the root, naming the last holon.
pub proof fn law_lineage_defects(g: Seq<HolonView>, subject: HolonReference, root: HolonReference)
    ensures
        spec_assess_lineage(g, subject, root) matches Ok(r) ==> {
            let w = spec_walk(g, subject);
            &&& r.0 == w.0
            &&& (w.1 matches Some(ErrorView::MultipleExtends { count, .. }) ==> r.1[0]
                == DefectView::MultipleParents { subject: w.0.last(), count })
            &&& (w.1 matches Some(ErrorView::CyclicExtends { descriptor }) ==> r.1[0] == DefectView::Cycle {
                path: w.0,
                repeated_descriptor: descriptor,
            })
            &&& (r.1.contains(DefectView::RootHasParent) <==> (w.0.contains(root) && has_extends_parent(g, root)))
            &&& (r.1.contains(DefectView::WrongTermination { terminal: w.0.last() }) <==> (w.1 is None
                && w.0.len() > 1 && w.0.last() != root))
            &&& forall|t: HolonReference| #[trigger]
                r.1.contains(DefectView::WrongTermination { terminal: t }) ==> t == w.0.last()
        },
{
    let w = spec_walk(g, subject);
    if let Ok(r) = spec_assess_lineage(g, subject, root) {
        let d0 = walk_defect(w.0, w.1)->Ok_0;
        assert(d0.len() <= 1);
        assert(forall|k: int| 0 <= k < d0.len() ==> !(d0[k] is RootHasParent) && !(d0[k] is WrongTermination));
        let rhp = w.0.contains(root) && has_extends_parent(g, root);
        let d1 = if rhp {
            d0.push(DefectView::RootHasParent)
        } else {
            d0
        };
        assert(forall|k: int| 0 <= k < d1.len() ==> !(d1[k] is WrongTermination));
        if rhp {
            assert(d1[d0.len() as int] == DefectView::RootHasParent);
        } else {
            assert(!d1.contains(DefectView::RootHasParent)) by {
                assert(forall|k: int| 0 <= k < d1.len() ==> !(d1[k] is RootHasParent));
            }
        }
        let wt = d0.len() == 0 && w.0.len() > 1 && w.0.last() != root;
        if wt {
            let d2 = d1.push(DefectView::WrongTermination { terminal: w.0.last() });
            assert(d2[d1.len() as int] == DefectView::WrongTermination { terminal: w.0.last() });
            assert(r.1 == d2);
            assert(rhp ==> d2[d0.len() as int] == DefectView::RootHasParent);
            assert forall|t: HolonReference| #[trigger]
                r.1.contains(DefectView::WrongTermination { terminal: t }) implies t == w.0.last() by {
                let k = choose|k: int| 0 <= k < r.1.len() && r.1[k] == DefectView::WrongTermination { terminal: t };
                if k < d1.len() {
                    assert(d1[k] is WrongTermination);
                }
            }
            assert(r.1.contains(DefectView::RootHasParent) ==> rhp) by {
                if r.1.contains(DefectView::RootHasParent) {
                    let k = choose|k: int| 0 <= k < r.1.len() && r.1[k] == DefectView::RootHasParent;
                    if k < d1.len() {
                        assert(d1[k] == DefectView::RootHasParent);
                        assert(d1.contains(DefectView::RootHasParent));
                    }
                }
            }
        } else {
            assert(r.1 == d1);
            assert(!r.1.contains(DefectView::WrongTermination { terminal: w.0.last() }));
        }
        assert(w.1 is None ==> d0.len() == 0);
    }
}


/// How `StructuralPrerequisites::assess` builds its fields: the direct
/// describing type; the subject's lineage diagnosis; and a governing diagnosis
/// only for a unique describer, which reuses the subject's diagnosis when the
/// subject describes itself and diagnoses the describer otherwise.
pub proof fn law_prerequisites_fields(g: Seq<HolonView>, subject: HolonReference, root: HolonReference)
    ensures
        spec_assess_prerequisites(g, subject, root) matches Ok(p) ==> {
            &&& spec_describing_type(g, subject) == Ok::<DescribingView, ErrorView>(p.0)
            &&& spec_assess_lineage(g, subject, root) == Ok::<_, ErrorView>(p.1)
            &&& (p.0 matches DescribingView::Unique(d) ==> if d == subject {
                p.2 == Some(p.1)
            } else {
                spec_assess_lineage(g, d, root) == Ok::<_, ErrorView>(p.2->Some_0) && p.2 is Some
            })
            &&& (!(p.0 is Unique) ==> p.2 is None)
        },
{
}

} // verus!
