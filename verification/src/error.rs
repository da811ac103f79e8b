//! Errors of the configuration: what can be wrong with a settings file.

use vstd::prelude::*;

verus! {

/// `std::io::Error`, which a configuration error can carry along. The core
/// never looks into it.
#[verifier::external_type_specification]
#[verifier::external_body]
pub struct ExIoError(std::io::Error);

/// Why a configuration was refused.
#[derive(Debug)]
pub enum LxConfigError {
    /// A key description that names no key combination; it carries the
    /// description as it was written.
    InvalidKeymap(String),
    InvalidColor(String),
    UnrecognizedKeyword(String),
    /// The configuration could not be read.
    IoError(std::io::Error),
}

impl From<std::io::Error> for LxConfigError {
    fn from(e: std::io::Error) -> (r: Self) {
        LxConfigError::IoError(e)
    }
}

impl vstd::std_specs::convert::FromSpecImpl<std::io::Error> for LxConfigError {
    open spec fn obeys_from_spec() -> bool {
        true
    }

    open spec fn from_spec(e: std::io::Error) -> Self {
        LxConfigError::IoError(e)
    }
}

impl LxConfigError {
    /// The text of the error: for the three errors that carry the offending
    /// text, that text; for a read error, the text that the error itself
    /// gives.
    pub fn to_string(&self) -> (s: String)
        ensures
            self matches LxConfigError::InvalidKeymap(e) ==> s@ == e@,
            self matches LxConfigError::InvalidColor(e) ==> s@ == e@,
            self matches LxConfigError::UnrecognizedKeyword(e) ==> s@ == e@,
    {
        match self {
            LxConfigError::IoError(e) => e.to_string(),
            LxConfigError::UnrecognizedKeyword(e) => e.clone(),
            LxConfigError::InvalidColor(e) => e.clone(),
            LxConfigError::InvalidKeymap(e) => e.clone(),
        }
    }
}

} // verus!
