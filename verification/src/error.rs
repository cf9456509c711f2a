//! Why a pair of patterns is refused.

use vstd::prelude::*;

verus! {

/// A refusal of [`crate::plan::prepare`].
#[derive(Debug, PartialEq)]
pub enum PlanError {
    /// The source file name does not compile as a regular expression.
    Regex(regex::Error),
    /// A pattern has no file name; the text says which.
    CustomError(String),
}

/// What contracts say of a [`PlanError`]: its kind and, for a missing file name,
/// the message.
pub enum PlanErrorView {
    Regex,
    CustomError(Seq<char>),
}

impl View for PlanError {
    type V = PlanErrorView;

    open spec fn view(&self) -> PlanErrorView {
        match self {
            PlanError::Regex(_) => PlanErrorView::Regex,
            PlanError::CustomError(message) => PlanErrorView::CustomError(message@),
        }
    }
}

/// The message for a source pattern without a file name.
pub open spec fn no_source_name() -> Seq<char> {
    "no filename in source pattern"@
}

/// The message for a destination pattern without a file name.
pub open spec fn no_destination_name() -> Seq<char> {
    "no filename in destination pattern"@
}

} // verus!
