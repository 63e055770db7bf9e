//! The conditions a caller of the store is expected to handle.

use vstd::prelude::*;
use vstd::string::*;

verus! {

/// A recoverable condition reported by the record store.
#[derive(Debug, Clone, PartialEq, Eq)]
pub enum RaceError {
    /// A record with this identifier is already present where one was to be written.
    AlreadyExists(String),
    /// No record with this identifier is present where one was expected.
    NotFound(String),
    /// The record carries no identifier.
    IdIsMandatory(),
}

/// The mathematical value of a [`RaceError`].
pub enum RaceErrorView {
    AlreadyExists(Seq<char>),
    NotFound(Seq<char>),
    IdIsMandatory,
}

impl View for RaceError {
    type V = RaceErrorView;

    open spec fn view(&self) -> RaceErrorView {
        match self {
            RaceError::AlreadyExists(id) => RaceErrorView::AlreadyExists(id@),
            RaceError::NotFound(id) => RaceErrorView::NotFound(id@),
            RaceError::IdIsMandatory() => RaceErrorView::IdIsMandatory,
        }
    }
}

impl RaceErrorView {
    /// The text shown for this condition.
    pub open spec fn message(self) -> Seq<char> {
        match self {
            RaceErrorView::AlreadyExists(id) => "Race "@ + id + " already exists."@,
            RaceErrorView::NotFound(id) => "Race "@ + id + " does not exist."@,
            RaceErrorView::IdIsMandatory => "Id is mandatory"@,
        }
    }
}

impl RaceError {
    /// Renders the condition as a sentence.
    pub fn message(&self) -> (text: String)
        ensures
            text@ == self@.message(),
    {
        match self {
            RaceError::AlreadyExists(id) => {
                let mut text = String::from_str("Race ");
                text.append(id.as_str());
                text.append(" already exists.");
                text
            },
            RaceError::NotFound(id) => {
                let mut text = String::from_str("Race ");
                text.append(id.as_str());
                text.append(" does not exist.");
                text
            },
            RaceError::IdIsMandatory() => String::from_str("Id is mandatory"),
        }
    }
}

} // verus!
