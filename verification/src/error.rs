//! Structured decode errors.

use vstd::prelude::*;
use vstd::string::StringExecFns;

verus! {

/// The JSON shape a field was required to have.
#[derive(Clone, Copy, Debug, PartialEq, Eq, Structural)]
pub enum ExpectedShape {
    Object,
    Array,
    Text,
    Boolean,
    Integer,
    UnsignedInteger,
    Snowflake,
}

/// The kind of referenced object an option value points into.
#[derive(Clone, Copy, Debug, PartialEq, Eq, Structural)]
pub enum ReferenceKind {
    User,
    Channel,
    Role,
}

/// The view of a [`DecodeError`]: field names as character sequences.
pub enum ErrorView {
    MissingField(Seq<char>),
    TypeMismatch(Seq<char>, ExpectedShape),
    UnresolvedReference(u64, ReferenceKind),
}

/// Why a payload failed to decode.  Decode either fully succeeds or
/// fails with one of these; no partial record is ever returned.
#[derive(Clone, Debug, PartialEq, Eq)]
pub enum DecodeError {
    /// A required field was absent at the point its structure was
    /// decoded.
    MissingField(String),
    /// A present field whose JSON shape does not match what its type
    /// requires.
    TypeMismatch(String, ExpectedShape),
    /// An option of kind `User`/`Channel`/`Role` referenced an
    /// identifier absent from the corresponding resolved mapping.
    UnresolvedReference(u64, ReferenceKind),
}

impl View for DecodeError {
    type V = ErrorView;

    open spec fn view(&self) -> ErrorView {
        match self {
            DecodeError::MissingField(f) => ErrorView::MissingField(f@),
            DecodeError::TypeMismatch(f, s) => ErrorView::TypeMismatch(f@, *s),
            DecodeError::UnresolvedReference(id, k) => ErrorView::UnresolvedReference(*id, *k),
        }
    }
}

impl DecodeError {
    /// A short description of the error, for display by callers.
    pub fn describe(&self) -> String {
        match self {
            DecodeError::MissingField(f) => {
                let mut s: String = "missing required field ".to_owned();
                s.append(f.as_str());
                s
            },
            DecodeError::TypeMismatch(f, _) => {
                let mut s: String = "mismatched shape for field ".to_owned();
                s.append(f.as_str());
                s
            },
            DecodeError::UnresolvedReference(_, _) => {
                "option value references an object absent from the resolved data".to_owned()
            },
        }
    }
}

} // verus!
