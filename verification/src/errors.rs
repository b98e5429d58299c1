//! The error taxonomy of the library, and the flat message each error shows
//! to a caller.

use vstd::prelude::*;

verus! {

/// What can go wrong in a command: a rejected input, an unresolvable
/// user directory, a database failure, or a failure while rendering the
/// CSV export.
#[derive(Debug)]
pub enum AppError {
    /// A required field was empty or whitespace-only.
    Validation,
    /// A needed user directory could not be resolved.
    Path(String),
    /// The database file or schema could not be opened, read or written.
    Storage(String),
    /// The CSV export could not be produced.
    Export(String),
}

/// The message shown when a required field is missing.
pub open spec fn validation_msg() -> Seq<char> {
    "Please fill in First, Surname and Phone."@
}

impl AppError {
    /// The flat, human-readable text of this error.
    pub open spec fn message_spec(&self) -> Seq<char> {
        match self {
            AppError::Validation => validation_msg(),
            AppError::Path(m) => m@,
            AppError::Storage(m) => m@,
            AppError::Export(m) => m@,
        }
    }

    /// Renders the error as the single flat string handed across the
    /// command boundary.
    pub fn message(&self) -> (r: String)
        ensures
            r@ == self.message_spec(),
    {
        match self {
            AppError::Validation => "Please fill in First, Surname and Phone.".to_owned(),
            AppError::Path(m) => m.clone(),
            AppError::Storage(m) => m.clone(),
            AppError::Export(m) => m.clone(),
        }
    }

    /// Whether this is the validation error.
    pub fn is_validation(&self) -> (r: bool)
        ensures
            r == (self is Validation),
    {
        match self {
            AppError::Validation => true,
            _ => false,
        }
    }
}

} // verus!
