//! Why the creation of a session fails.

use vstd::prelude::*;
use vstd::string::*;

verus! {

/// A failure of session creation. Only these are reported to the caller;
/// failures of a live session's writes and resizes are absorbed.
#[derive(Debug, PartialEq, Eq)]
pub enum CreationError {
    /// The identifier already denotes a live session; it is carried along.
    DuplicateSession(String),
    /// The host refused to allocate a pseudo-terminal; the host's words.
    PtyAllocation(String),
    /// The terminal's reader or writer could not be obtained; the host's words.
    HandleAcquisition(String),
    /// The shell could not be launched; the host's words.
    Spawn(String),
}

/// A creation error as a value of specifications: the same cases over
/// character sequences.
pub ghost enum CreationFailure {
    /// The identifier that was taken.
    DuplicateSession(Seq<char>),
    /// The host's words on the refused allocation.
    PtyAllocation(Seq<char>),
    /// The host's words on the handle that could not be obtained.
    HandleAcquisition(Seq<char>),
    /// The host's words on the failed launch.
    Spawn(Seq<char>),
}

impl View for CreationError {
    type V = CreationFailure;

    open spec fn view(&self) -> CreationFailure {
        match self {
            CreationError::DuplicateSession(id) => CreationFailure::DuplicateSession(id@),
            CreationError::PtyAllocation(words) => CreationFailure::PtyAllocation(words@),
            CreationError::HandleAcquisition(words) => CreationFailure::HandleAcquisition(words@),
            CreationError::Spawn(words) => CreationFailure::Spawn(words@),
        }
    }
}

/// What the message of a rejected duplicate starts with.
pub const DUPLICATE_PREFIX: &'static str = "session already exists: ";

impl CreationFailure {
    /// The string form of the error: the host's own words for a failure of
    /// the host, and the prefix followed by the identifier for a duplicate.
    pub open spec fn message(self) -> Seq<char> {
        match self {
            CreationFailure::DuplicateSession(id) => DUPLICATE_PREFIX@ + id,
            CreationFailure::PtyAllocation(words) => words,
            CreationFailure::HandleAcquisition(words) => words,
            CreationFailure::Spawn(words) => words,
        }
    }
}

impl CreationError {
    /// Renders the error as the string that the caller of `create` receives.
    pub fn message(&self) -> (text: String)
        ensures
            text@ == self@.message(),
    {
        match self {
            CreationError::DuplicateSession(id) => {
                let mut text = String::from_str(DUPLICATE_PREFIX);
                text.append(id.as_str());
                text
            },
            CreationError::PtyAllocation(words) => words.clone(),
            CreationError::HandleAcquisition(words) => words.clone(),
            CreationError::Spawn(words) => words.clone(),
        }
    }
}

} // verus!
