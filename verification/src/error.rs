//! Decode failures. Every failure carries the path from the root of the
//! record to the failing value, so a caller can locate the fault without
//! re-reading the raw feed, together with the offending value itself.

use vstd::prelude::*;

verus! {

/// One step of a path: a named field of a record, or an index into an array.
#[derive(Debug, PartialEq)]
pub enum PathSeg {
    Field(String),
    Index(usize),
}

/// Mathematical value of a path step.
pub ghost enum PathSegV {
    Field(Seq<char>),
    Index(int),
}

impl DeepView for PathSeg {
    type V = PathSegV;

    open spec fn deep_view(&self) -> PathSegV {
        match self {
            PathSeg::Field(s) => PathSegV::Field(s@),
            PathSeg::Index(i) => PathSegV::Index(*i as int),
        }
    }
}

/// What went wrong at the failing value.
#[derive(Debug, PartialEq)]
#[allow(inconsistent_fields)]
pub enum ErrorKind {
    /// Structural: an exact element count was required and not met.
    WrongLength { expected: usize, actual: usize },
    /// Domain: an integer flag was neither 0 nor 1.
    NotZeroOrOne { value: i64 },
    /// Domain: a string did not read as a floating-point literal.
    NotFloat { value: String },
    /// Domain: an email address without the required `@`.
    NoAtSign { value: String },
    /// Domain: a tag outside the closed enumeration of the field.
    UnknownTag { value: String },
    /// Domain: the value had the wrong shape for the field (the flag
    /// records what was expected: false an array, true a string).
    NotAnArray,
    NotAString,
    NotAnInt,
    NotABool,
    NotAnObject,
    NotANumber,
    /// A required field absent from the normalized mapping.
    Missing,
    /// A pair whose key element is not a string, at this pair index.
    KeyNotString { index: usize },
    /// The document itself was not well-formed, so no field-level
    /// detail is available. Never produced by the decoder; reserved
    /// for the layer that parses the raw blob.
    Envelope,
}

/// Mathematical value of an error kind.
#[allow(inconsistent_fields)]
pub ghost enum ErrorKindV {
    WrongLength { expected: int, actual: int },
    NotZeroOrOne { value: int },
    NotFloat { value: Seq<char> },
    NoAtSign { value: Seq<char> },
    UnknownTag { value: Seq<char> },
    NotAnArray,
    NotAString,
    NotAnInt,
    NotABool,
    NotAnObject,
    NotANumber,
    Missing,
    KeyNotString { index: int },
    Envelope,
}

impl DeepView for ErrorKind {
    type V = ErrorKindV;

    open spec fn deep_view(&self) -> ErrorKindV {
        match self {
            ErrorKind::WrongLength { expected, actual } => ErrorKindV::WrongLength {
                expected: *expected as int,
                actual: *actual as int,
            },
            ErrorKind::NotZeroOrOne { value } => ErrorKindV::NotZeroOrOne { value: *value as int },
            ErrorKind::NotFloat { value } => ErrorKindV::NotFloat { value: value@ },
            ErrorKind::NoAtSign { value } => ErrorKindV::NoAtSign { value: value@ },
            ErrorKind::UnknownTag { value } => ErrorKindV::UnknownTag { value: value@ },
            ErrorKind::NotAnArray => ErrorKindV::NotAnArray,
            ErrorKind::NotAString => ErrorKindV::NotAString,
            ErrorKind::NotAnInt => ErrorKindV::NotAnInt,
            ErrorKind::NotABool => ErrorKindV::NotABool,
            ErrorKind::NotAnObject => ErrorKindV::NotAnObject,
            ErrorKind::NotANumber => ErrorKindV::NotANumber,
            ErrorKind::Missing => ErrorKindV::Missing,
            ErrorKind::KeyNotString { index } => ErrorKindV::KeyNotString { index: *index as int },
            ErrorKind::Envelope => ErrorKindV::Envelope,
        }
    }
}

/// The category of a failure, as coarse a grouping as callers need to
/// decide whether a feed is unusable or a single row is.
#[derive(Debug, PartialEq, Eq, Structural, Clone, Copy)]
pub enum ErrorCategory {
    StructuralError,
    DomainViolation,
    MissingField,
    KeyDecodeError,
    EnvelopeError,
}

/// Category of an error kind's mathematical value.
pub open spec fn spec_category(k: ErrorKindV) -> ErrorCategory {
    match k {
        ErrorKindV::WrongLength { .. } => ErrorCategory::StructuralError,
        ErrorKindV::NotZeroOrOne { .. } => ErrorCategory::DomainViolation,
        ErrorKindV::NotFloat { .. } => ErrorCategory::DomainViolation,
        ErrorKindV::NoAtSign { .. } => ErrorCategory::DomainViolation,
        ErrorKindV::UnknownTag { .. } => ErrorCategory::DomainViolation,
        ErrorKindV::NotAnArray => ErrorCategory::DomainViolation,
        ErrorKindV::NotAString => ErrorCategory::DomainViolation,
        ErrorKindV::NotAnInt => ErrorCategory::DomainViolation,
        ErrorKindV::NotABool => ErrorCategory::DomainViolation,
        ErrorKindV::NotAnObject => ErrorCategory::DomainViolation,
        ErrorKindV::NotANumber => ErrorCategory::DomainViolation,
        ErrorKindV::Missing => ErrorCategory::MissingField,
        ErrorKindV::KeyNotString { .. } => ErrorCategory::KeyDecodeError,
        ErrorKindV::Envelope => ErrorCategory::EnvelopeError,
    }
}

/// A decode failure: where it happened, and what it was.
#[derive(Debug, PartialEq)]
pub struct DecodeError {
    /// Path from the root of the record to the failing value.
    pub path: Vec<PathSeg>,
    pub kind: ErrorKind,
}

/// Mathematical value of a decode failure.
#[verifier::ext_equal]
pub ghost struct ErrV {
    pub path: Seq<PathSegV>,
    pub kind: ErrorKindV,
}

impl DeepView for DecodeError {
    type V = ErrV;

    open spec fn deep_view(&self) -> ErrV {
        ErrV { path: self.path.deep_view(), kind: self.kind.deep_view() }
    }
}

/// An error with an empty path: the failing value is the root itself.
pub open spec fn spec_err_here(kind: ErrorKindV) -> ErrV {
    ErrV { path: Seq::empty(), kind }
}

/// The same failure, seen from one level further out.
pub open spec fn spec_err_nested(seg: PathSegV, e: ErrV) -> ErrV {
    ErrV { path: seq![seg].add(e.path), kind: e.kind }
}

impl DecodeError {
    /// Build a failure located at the root.
    pub fn here(kind: ErrorKind) -> (r: DecodeError)
        ensures
            r.deep_view() == spec_err_here(kind.deep_view()),
    {
        let r = DecodeError { path: Vec::new(), kind };
        proof {
            assert(r.deep_view() =~= spec_err_here(r.kind.deep_view()));
        }
        r
    }

    /// Report this failure from one level further out: the given step is
    /// put in front of the path.
    pub fn nested(self, seg: PathSeg) -> (r: DecodeError)
        ensures
            r.deep_view() == spec_err_nested(seg.deep_view(), self.deep_view()),
    {
        let ghost old_self = self;
        let DecodeError { mut path, kind } = self;
        path.insert(0, seg);
        let r = DecodeError { path, kind };
        proof {
            assert(r.path.deep_view() =~= seq![seg.deep_view()].add(old_self.path.deep_view()));
            assert(r.deep_view() =~= spec_err_nested(seg.deep_view(), old_self.deep_view()));
        }
        r
    }

    /// Report this failure from inside the named field.
    pub fn in_field(self, name: &str) -> (r: DecodeError)
        ensures
            r.deep_view() == spec_err_nested(PathSegV::Field(name@), self.deep_view()),
    {
        self.nested(PathSeg::Field(name.to_owned()))
    }

    /// Report this failure from inside the element at the given index.
    pub fn at_index(self, index: usize) -> (r: DecodeError)
        ensures
            r.deep_view() == spec_err_nested(PathSegV::Index(index as int), self.deep_view()),
    {
        self.nested(PathSeg::Index(index))
    }

    /// The category of this failure.
    pub fn category(&self) -> (c: ErrorCategory)
        ensures
            c == spec_category(self.kind.deep_view()),
    {
        match &self.kind {
            ErrorKind::WrongLength { .. } => ErrorCategory::StructuralError,
            ErrorKind::NotZeroOrOne { .. } => ErrorCategory::DomainViolation,
            ErrorKind::NotFloat { .. } => ErrorCategory::DomainViolation,
            ErrorKind::NoAtSign { .. } => ErrorCategory::DomainViolation,
            ErrorKind::UnknownTag { .. } => ErrorCategory::DomainViolation,
            ErrorKind::NotAnArray => ErrorCategory::DomainViolation,
            ErrorKind::NotAString => ErrorCategory::DomainViolation,
            ErrorKind::NotAnInt => ErrorCategory::DomainViolation,
            ErrorKind::NotABool => ErrorCategory::DomainViolation,
            ErrorKind::NotAnObject => ErrorCategory::DomainViolation,
            ErrorKind::NotANumber => ErrorCategory::DomainViolation,
            ErrorKind::Missing => ErrorCategory::MissingField,
            ErrorKind::KeyNotString { .. } => ErrorCategory::KeyDecodeError,
            ErrorKind::Envelope => ErrorCategory::EnvelopeError,
        }
    }
}

} // verus!
