//! The ways in which a request for a price can fail.

use vstd::prelude::*;

verus! {

/// No record came back from the remote service: the network failed, the
/// service refused, or its answer lacked a date or a price.
#[derive(Clone, Debug, PartialEq, Eq)]
pub struct FetchError {
    /// What went wrong, for the log. No user ever sees it.
    pub cause: String,
}

/// A record lacks what one of its displays needs.
#[derive(Clone, Copy, Debug, PartialEq, Eq, Structural)]
pub enum FormatError {
    /// The record does not say whether its price is cheap and under the average.
    NoClassification,
    /// The record has no hour window, or none that can be read.
    NoHourRange,
    /// The date of the record is no day, month and year.
    NoDate,
}

/// Why a request got no price text.
#[derive(Clone, Debug, PartialEq, Eq)]
pub enum QueryError {
    /// The remote service gave no record.
    Fetch(FetchError),
    /// The record at hand cannot be displayed.
    Format(FormatError),
}

/// A text or an error, with the text as the characters it holds.
pub open spec fn shown<E>(result: Result<String, E>) -> Result<Seq<char>, E> {
    match result {
        Ok(text) => Ok(text@),
        Err(error) => Err(error),
    }
}

} // verus!
