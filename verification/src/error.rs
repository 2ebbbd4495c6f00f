//! Why an operation on the journal was refused.

use vstd::prelude::*;

verus! {

/// The ways an operation can fail. A failed operation leaves the journal as
/// it was.
#[derive(Debug, Clone, Copy, PartialEq, Eq, Structural)]
pub enum JournalError {
    /// A session with this token is already recorded.
    DuplicateSession,
    /// The row refers to a session that was never started.
    UnknownSession,
    /// The stage is not one of the fixed stage slots.
    InvalidStage,
    /// The store has no row id left for another row.
    StoreFull,
    /// A total of the summary does not fit in 64 bits.
    TotalOverflow,
}

/// The two families of failure: what the store itself refuses, and what is
/// refused before the store is touched.
#[derive(Debug, Clone, Copy, PartialEq, Eq, Structural)]
pub enum ErrorKind {
    /// A constraint of the store was violated, or the store failed.
    Database,
    /// An argument was outside the values the operation accepts.
    Validation,
}

impl JournalError {
    /// The family a failure belongs to.
    pub open spec fn spec_kind(self) -> ErrorKind {
        match self {
            JournalError::InvalidStage => ErrorKind::Validation,
            _ => ErrorKind::Database,
        }
    }

    /// The family a failure belongs to.
    #[verifier::when_used_as_spec(spec_kind)]
    pub fn kind(self) -> (k: ErrorKind)
        ensures
            k == self.spec_kind(),
    {
        match self {
            JournalError::InvalidStage => ErrorKind::Validation,
            _ => ErrorKind::Database,
        }
    }

    /// The text of the failure, as a message for people.
    pub open spec fn spec_message(self) -> Seq<char> {
        match self {
            JournalError::DuplicateSession => "a session with this token already exists"@,
            JournalError::UnknownSession => "no session with this token exists"@,
            JournalError::InvalidStage => "the stage is not one of the known stages"@,
            JournalError::StoreFull => "the store has no row id left"@,
            JournalError::TotalOverflow => "a total does not fit in 64 bits"@,
        }
    }

    /// The text of the failure, as a message for people.
    pub fn message(self) -> (text: String)
        ensures
            text@ == self.spec_message(),
    {
        match self {
            JournalError::DuplicateSession => "a session with this token already exists".to_owned(),
            JournalError::UnknownSession => "no session with this token exists".to_owned(),
            JournalError::InvalidStage => "the stage is not one of the known stages".to_owned(),
            JournalError::StoreFull => "the store has no row id left".to_owned(),
            JournalError::TotalOverflow => "a total does not fit in 64 bits".to_owned(),
        }
    }
}

} // verus!
