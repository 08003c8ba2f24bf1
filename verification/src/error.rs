//! The errors an operation can report, each with its kind and its message.

use vstd::prelude::*;

verus! {

/// The four families of failure.
#[derive(Clone, Copy, Debug, PartialEq, Eq, Structural)]
pub enum ErrorKind {
    /// An argument was malformed; nothing was read or written.
    Validation,
    /// A row refers to a creator that does not exist.
    InvalidReference,
    /// The targeted row does not exist.
    NotFound,
    /// The store itself could not carry out the statement.
    Storage,
}

/// What went wrong in an operation.
#[derive(Clone, Copy, Debug, PartialEq, Eq, Structural)]
pub enum CrudError {
    /// A creator name is empty or holds a character that is neither
    /// alphanumeric nor whitespace.
    InvalidName,
    /// A homepage is not an absolute URL.
    InvalidHomepage,
    /// A rate lies outside 0..=10.
    InvalidRate,
    /// An identifier is zero or negative.
    InvalidId,
    /// A blacklist reason holds a character that is neither alphanumeric nor whitespace.
    InvalidReason,
    /// A link is not an absolute URL.
    InvalidUrl,
    /// The source of a link holds a character that is neither alphanumeric nor whitespace.
    InvalidSource,
    /// The creator to blacklist does not exist.
    InvalidCreatorId,
    /// No creator has the given id.
    CreatorNotFound,
    /// No blacklist entry has the given id.
    BlacklistedCreatorNotFound,
    /// No interesting link has the given id.
    InterestingLinkNotFound,
    /// The table has handed out its largest identifier.
    TableFull,
}

impl CrudError {
    /// The family this error belongs to.
    pub open spec fn kind_spec(self) -> ErrorKind {
        match self {
            CrudError::InvalidName => ErrorKind::Validation,
            CrudError::InvalidHomepage => ErrorKind::Validation,
            CrudError::InvalidRate => ErrorKind::Validation,
            CrudError::InvalidId => ErrorKind::Validation,
            CrudError::InvalidReason => ErrorKind::Validation,
            CrudError::InvalidUrl => ErrorKind::Validation,
            CrudError::InvalidSource => ErrorKind::Validation,
            CrudError::InvalidCreatorId => ErrorKind::InvalidReference,
            CrudError::CreatorNotFound => ErrorKind::NotFound,
            CrudError::BlacklistedCreatorNotFound => ErrorKind::NotFound,
            CrudError::InterestingLinkNotFound => ErrorKind::NotFound,
            CrudError::TableFull => ErrorKind::Storage,
        }
    }

    /// The text shown to the caller for this error.
    pub open spec fn message_spec(self) -> Seq<char> {
        match self {
            CrudError::InvalidName => "Invalid name input"@,
            CrudError::InvalidHomepage => "Invalid homepage input"@,
            CrudError::InvalidRate => "Rate must be between 0 and 10"@,
            CrudError::InvalidId => "Invalid ID"@,
            CrudError::InvalidReason => "Invalid reason input"@,
            CrudError::InvalidUrl => "Invalid URL input"@,
            CrudError::InvalidSource => "Invalid source input"@,
            CrudError::InvalidCreatorId => "Invalid creator ID"@,
            CrudError::CreatorNotFound => "No creator found with the specified ID"@,
            CrudError::BlacklistedCreatorNotFound => "No blacklisted creator found with the specified ID"@,
            CrudError::InterestingLinkNotFound => "No interesting link found with the specified ID"@,
            CrudError::TableFull => "Database error: table is full"@,
        }
    }

    /// The family this error belongs to.
    pub fn kind(&self) -> (k: ErrorKind)
        ensures
            k == self.kind_spec(),
    {
        match self {
            CrudError::InvalidName => ErrorKind::Validation,
            CrudError::InvalidHomepage => ErrorKind::Validation,
            CrudError::InvalidRate => ErrorKind::Validation,
            CrudError::InvalidId => ErrorKind::Validation,
            CrudError::InvalidReason => ErrorKind::Validation,
            CrudError::InvalidUrl => ErrorKind::Validation,
            CrudError::InvalidSource => ErrorKind::Validation,
            CrudError::InvalidCreatorId => ErrorKind::InvalidReference,
            CrudError::CreatorNotFound => ErrorKind::NotFound,
            CrudError::BlacklistedCreatorNotFound => ErrorKind::NotFound,
            CrudError::InterestingLinkNotFound => ErrorKind::NotFound,
            CrudError::TableFull => ErrorKind::Storage,
        }
    }

    /// The text shown to the caller for this error.
    pub fn message(&self) -> (m: String)
        ensures
            m@ == self.message_spec(),
    {
        let text: &str = match self {
            CrudError::InvalidName => "Invalid name input",
            CrudError::InvalidHomepage => "Invalid homepage input",
            CrudError::InvalidRate => "Rate must be between 0 and 10",
            CrudError::InvalidId => "Invalid ID",
            CrudError::InvalidReason => "Invalid reason input",
            CrudError::InvalidUrl => "Invalid URL input",
            CrudError::InvalidSource => "Invalid source input",
            CrudError::InvalidCreatorId => "Invalid creator ID",
            CrudError::CreatorNotFound => "No creator found with the specified ID",
            CrudError::BlacklistedCreatorNotFound => "No blacklisted creator found with the specified ID",
            CrudError::InterestingLinkNotFound => "No interesting link found with the specified ID",
            CrudError::TableFull => "Database error: table is full",
        };
        text.to_owned()
    }
}

} // verus!
