//! What a user gets to read at the end of a request.

use crate::error::QueryError;
use vstd::prelude::*;

verus! {

/// The one line that stands for every failure. The cause goes to the log, not
/// to the user.
pub open spec fn error_line() -> Seq<char> {
    "Se ha producido un error"@
}

/// The text to send for the outcome of a request.
pub open spec fn reply_of(outcome: Result<String, QueryError>) -> Seq<char> {
    match outcome {
        Ok(text) => text@,
        Err(_) => error_line(),
    }
}

/// The text to send for the outcome of a request: the price text where there
/// is one, and the same line for every failure.
pub fn reply_text(outcome: Result<String, QueryError>) -> (text: String)
    ensures
        text@ == reply_of(outcome),
{
    match outcome {
        Ok(text) => text,
        Err(_) => "Se ha producido un error".to_owned(),
    }
}

} // verus!
