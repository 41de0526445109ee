//! Errors of setting up metric sources.
use vstd::prelude::*;

verus! {

/// An error with a message for the log.
#[derive(Debug)]
pub enum Error {
    Generic(String),
}

impl Error {
    /// The message of the error.
    pub open spec fn message_spec(&self) -> Seq<char> {
        match self {
            Error::Generic(m) => m@,
        }
    }

    /// The message of the error.
    pub fn description(&self) -> (r: &str)
        ensures
            r@ == self.message_spec(),
    {
        match self {
            Error::Generic(m) => m.as_str(),
        }
    }
}

} // verus!
