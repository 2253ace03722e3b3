//! The error surface of the descriptor layer.
use crate::graph::HolonReference;
use crate::relationship_traversal::TraversalDirection;
use vstd::prelude::*;

verus! {

/// The schema defect found while resolving executable value constraints.
#[derive(Clone, Copy, Debug, PartialEq, Eq, Structural)]
pub enum SchemaInvalidityKind {
    IncompatibleConstraintFamily,
    UnclassifiedConstraint,
    MissingConstraintParameter,
    ContradictoryConstraints,
    UnsupportedExecutableConstraint,
}

/// Errors reported while reading descriptors and the holons they describe.
///
/// Descriptor fields identify the holon the error is about.
#[allow(inconsistent_fields)]
#[derive(Clone, Debug)]
pub enum HolonError {
    EmptyField(String),
    /// The kind of value found, then the kind that was expected.
    UnexpectedValueType(String, String),
    HolonNotFound(String),
    /// The reference does not name a holon of the graph, or names it with the wrong phase.
    InvalidHolonReference(HolonReference),
    MissingRequiredRelationship { relationship: String, descriptor: HolonReference },
    MultipleRelatedHolons { relationship: String, descriptor: HolonReference, count: usize },
    WrongDescriptorKind { expected: String, found: String, descriptor: HolonReference },
    MultipleExtends { descriptor: HolonReference, count: usize },
    CyclicExtends { descriptor: HolonReference },
    MissingDescribedBy { holon: HolonReference },
    MultipleDescribedBy { holon: HolonReference, count: usize },
    DuplicateError(String, String),
    DuplicateInheritedDeclaration { kind: String, name: String, descriptor: HolonReference },
    DescriptorDeclarationNotFound { kind: String, name: String, descriptor: HolonReference },
    AmbiguousRelationshipTraversal {
        relationship: String,
        direction: Option<TraversalDirection>,
        descriptor: HolonReference,
    },
    IllegalRelationshipTraversal {
        relationship: String,
        direction: TraversalDirection,
        descriptor: HolonReference,
    },
    UnsupportedStagedTraversal { relationship: String, descriptor: HolonReference },
    InvalidParameter(String),
    IntegerOutOfRange {
        value: i64,
        min: Option<i64>,
        max: Option<i64>,
        min_inclusive: bool,
        max_inclusive: bool,
        descriptor: HolonReference,
    },
    StringLengthOutOfRange {
        length: usize,
        min: Option<i64>,
        max: Option<i64>,
        descriptor: HolonReference,
    },
    DescriptorSchemaInvalid {
        kind: SchemaInvalidityKind,
        constraint: Option<HolonReference>,
        descriptor: HolonReference,
    },
    ValueKindMismatch { expected: String, found: String, descriptor: HolonReference },
    UnsupportedOperator { operator: String, value_type: String, descriptor: HolonReference },
    EnumVariantNotInSchema { variant: String, value_type: String, descriptor: HolonReference },
    UnknownOperatorCategory { value: String },
    NotImplemented(String),
}

/// The mathematical content of a `HolonError`.
#[allow(inconsistent_fields)]
pub enum ErrorView {
    EmptyField(Seq<char>),
    UnexpectedValueType(Seq<char>, Seq<char>),
    HolonNotFound(Seq<char>),
    InvalidHolonReference(HolonReference),
    MissingRequiredRelationship { relationship: Seq<char>, descriptor: HolonReference },
    MultipleRelatedHolons { relationship: Seq<char>, descriptor: HolonReference, count: usize },
    WrongDescriptorKind { expected: Seq<char>, found: Seq<char>, descriptor: HolonReference },
    MultipleExtends { descriptor: HolonReference, count: usize },
    CyclicExtends { descriptor: HolonReference },
    MissingDescribedBy { holon: HolonReference },
    MultipleDescribedBy { holon: HolonReference, count: usize },
    DuplicateError(Seq<char>, Seq<char>),
    DuplicateInheritedDeclaration { kind: Seq<char>, name: Seq<char>, descriptor: HolonReference },
    DescriptorDeclarationNotFound { kind: Seq<char>, name: Seq<char>, descriptor: HolonReference },
    AmbiguousRelationshipTraversal {
        relationship: Seq<char>,
        direction: Option<TraversalDirection>,
        descriptor: HolonReference,
    },
    IllegalRelationshipTraversal {
        relationship: Seq<char>,
        direction: TraversalDirection,
        descriptor: HolonReference,
    },
    UnsupportedStagedTraversal { relationship: Seq<char>, descriptor: HolonReference },
    InvalidParameter(Seq<char>),
    IntegerOutOfRange {
        value: i64,
        min: Option<i64>,
        max: Option<i64>,
        min_inclusive: bool,
        max_inclusive: bool,
        descriptor: HolonReference,
    },
    StringLengthOutOfRange {
        length: usize,
        min: Option<i64>,
        max: Option<i64>,
        descriptor: HolonReference,
    },
    DescriptorSchemaInvalid {
        kind: SchemaInvalidityKind,
        constraint: Option<HolonReference>,
        descriptor: HolonReference,
    },
    ValueKindMismatch { expected: Seq<char>, found: Seq<char>, descriptor: HolonReference },
    UnsupportedOperator { operator: Seq<char>, value_type: Seq<char>, descriptor: HolonReference },
    EnumVariantNotInSchema { variant: Seq<char>, value_type: Seq<char>, descriptor: HolonReference },
    UnknownOperatorCategory { value: Seq<char> },
    NotImplemented(Seq<char>),
}

impl View for HolonError {
    type V = ErrorView;

    open spec fn view(&self) -> ErrorView {
        match self {
            HolonError::EmptyField(f) => ErrorView::EmptyField(f@),
            HolonError::UnexpectedValueType(a, b) => ErrorView::UnexpectedValueType(a@, b@),
            HolonError::HolonNotFound(k) => ErrorView::HolonNotFound(k@),
            HolonError::InvalidHolonReference(r) => ErrorView::InvalidHolonReference(*r),
            HolonError::MissingRequiredRelationship { relationship, descriptor } =>
                ErrorView::MissingRequiredRelationship { relationship: relationship@, descriptor: *descriptor },
            HolonError::MultipleRelatedHolons { relationship, descriptor, count } =>
                ErrorView::MultipleRelatedHolons { relationship: relationship@, descriptor: *descriptor, count: *count },
            HolonError::WrongDescriptorKind { expected, found, descriptor } =>
                ErrorView::WrongDescriptorKind { expected: expected@, found: found@, descriptor: *descriptor },
            HolonError::MultipleExtends { descriptor, count } =>
                ErrorView::MultipleExtends { descriptor: *descriptor, count: *count },
            HolonError::CyclicExtends { descriptor } => ErrorView::CyclicExtends { descriptor: *descriptor },
            HolonError::MissingDescribedBy { holon } => ErrorView::MissingDescribedBy { holon: *holon },
            HolonError::MultipleDescribedBy { holon, count } =>
                ErrorView::MultipleDescribedBy { holon: *holon, count: *count },
            HolonError::DuplicateError(a, b) => ErrorView::DuplicateError(a@, b@),
            HolonError::DuplicateInheritedDeclaration { kind, name, descriptor } =>
                ErrorView::DuplicateInheritedDeclaration { kind: kind@, name: name@, descriptor: *descriptor },
            HolonError::DescriptorDeclarationNotFound { kind, name, descriptor } =>
                ErrorView::DescriptorDeclarationNotFound { kind: kind@, name: name@, descriptor: *descriptor },
            HolonError::AmbiguousRelationshipTraversal { relationship, direction, descriptor } =>
                ErrorView::AmbiguousRelationshipTraversal {
                    relationship: relationship@,
                    direction: *direction,
                    descriptor: *descriptor,
                },
            HolonError::IllegalRelationshipTraversal { relationship, direction, descriptor } =>
                ErrorView::IllegalRelationshipTraversal {
                    relationship: relationship@,
                    direction: *direction,
                    descriptor: *descriptor,
                },
            HolonError::UnsupportedStagedTraversal { relationship, descriptor } =>
                ErrorView::UnsupportedStagedTraversal { relationship: relationship@, descriptor: *descriptor },
            HolonError::InvalidParameter(m) => ErrorView::InvalidParameter(m@),
            HolonError::IntegerOutOfRange { value, min, max, min_inclusive, max_inclusive, descriptor } =>
                ErrorView::IntegerOutOfRange {
                    value: *value,
                    min: *min,
                    max: *max,
                    min_inclusive: *min_inclusive,
                    max_inclusive: *max_inclusive,
                    descriptor: *descriptor,
                },
            HolonError::StringLengthOutOfRange { length, min, max, descriptor } =>
                ErrorView::StringLengthOutOfRange { length: *length, min: *min, max: *max, descriptor: *descriptor },
            HolonError::DescriptorSchemaInvalid { kind, constraint, descriptor } =>
                ErrorView::DescriptorSchemaInvalid { kind: *kind, constraint: *constraint, descriptor: *descriptor },
            HolonError::ValueKindMismatch { expected, found, descriptor } =>
                ErrorView::ValueKindMismatch { expected: expected@, found: found@, descriptor: *descriptor },
            HolonError::UnsupportedOperator { operator, value_type, descriptor } =>
                ErrorView::UnsupportedOperator { operator: operator@, value_type: value_type@, descriptor: *descriptor },
            HolonError::EnumVariantNotInSchema { variant, value_type, descriptor } =>
                ErrorView::EnumVariantNotInSchema { variant: variant@, value_type: value_type@, descriptor: *descriptor },
            HolonError::UnknownOperatorCategory { value } => ErrorView::UnknownOperatorCategory { value: value@ },
            HolonError::NotImplemented(m) => ErrorView::NotImplemented(m@),
        }
    }
}

impl DeepView for HolonError {
    type V = ErrorView;

    open spec fn deep_view(&self) -> ErrorView {
        self@
    }
}

/// The content of a result whose success value and error both have views.
pub open spec fn rview<T: DeepView>(r: Result<T, HolonError>) -> Result<T::V, ErrorView> {
    match r {
        Ok(v) => Ok(v.deep_view()),
        Err(e) => Err(e@),
    }
}

} // verus!
