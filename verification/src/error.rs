//! Result and Error types.

use vstd::prelude::*;

verus! {

/// Error type for this crate.
#[derive(Debug, Clone)]
pub enum Error {
    /// A generic error, with a description string.
    Generic(String),
}

impl Error {
    /// The description carried by the error.
    pub open spec fn spec_description(&self) -> Seq<char> {
        match self {
            Error::Generic(s) => s@,
        }
    }

    /// Borrows the human-readable description of the error.
    pub fn description(&self) -> (r: &str)
        ensures
            r@ == self.spec_description(),
    {
        match self {
            Error::Generic(s) => s.as_str(),
        }
    }
}

/// Result type for this crate.
pub type Result<T> = core::result::Result<T, Error>;

} // verus!
