//! The two ways in which an interaction ends without a result.

use vstd::prelude::*;

verus! {

/// Why the helper gave up.
#[derive(Debug, PartialEq, Eq)]
pub enum GczError {
    /// The terminal or a process failed; the text says how.
    Io(String),
    /// The user asked to stop.
    UserInterrupt,
}

/// What `describe` says of an error.
pub open spec fn description(error: GczError) -> Seq<char> {
    match error {
        GczError::Io(reason) => "IO error: "@ + reason@,
        GczError::UserInterrupt => "Interrupted by user"@,
    }
}

impl GczError {
    /// The error in words, for the user.
    pub fn describe(&self) -> (text: String)
        ensures
            text@ == description(*self),
    {
        match self {
            GczError::Io(reason) => {
                let mut text = String::from_str("IO error: ");
                text.append(reason.as_str());
                text
            },
            GczError::UserInterrupt => String::from_str("Interrupted by user"),
        }
    }
}

} // verus!
