//! The error taxonomy of the tool.

use vstd::prelude::*;

verus! {

/// The ways an operation of the tool can fail.
#[derive(Debug)]
pub enum CrateError {
    /// The error was caused by a failure to read or write bytes on an IO stream.
    IoError(String),
    /// The error was caused during an HTTP GET request.
    HttpReqError(String),
    /// The error was caused because it was not specified as input a valid http/https URL.
    URLFormatError,
}

impl CrateError {
    /// The human-readable description of an error value.
    pub open spec fn describe_spec(self) -> Seq<char> {
        match self {
            CrateError::IoError(detail) => "Io Error: "@ + detail@ + "!"@,
            CrateError::HttpReqError(detail) => "Http Request Error: "@ + detail@ + "!"@,
            CrateError::URLFormatError => "URL Format Error!"@,
        }
    }

    /// Renders the error as a message for an error stream.
    pub fn describe(&self) -> (r: String)
        ensures
            r@ == self.describe_spec(),
    {
        match self {
            CrateError::IoError(detail) => String::from_str("Io Error: ").concat(
                detail.as_str(),
            ).concat("!"),
            CrateError::HttpReqError(detail) => String::from_str("Http Request Error: ").concat(
                detail.as_str(),
            ).concat("!"),
            CrateError::URLFormatError => String::from_str("URL Format Error!"),
        }
    }
}

impl Clone for CrateError {
    fn clone(&self) -> (r: Self)
        ensures
            r == *self,
    {
        match self {
            CrateError::IoError(detail) => CrateError::IoError(detail.clone()),
            CrateError::HttpReqError(detail) => CrateError::HttpReqError(detail.clone()),
            CrateError::URLFormatError => CrateError::URLFormatError,
        }
    }
}

impl PartialEq for CrateError {
    fn eq(&self, other: &Self) -> (r: bool) {
        match (self, other) {
            (CrateError::IoError(a), CrateError::IoError(b)) => crate::strings::str_eq(
                a.as_str(),
                b.as_str(),
            ),
            (CrateError::HttpReqError(a), CrateError::HttpReqError(b)) => crate::strings::str_eq(
                a.as_str(),
                b.as_str(),
            ),
            (CrateError::URLFormatError, CrateError::URLFormatError) => true,
            _ => false,
        }
    }
}

impl vstd::std_specs::cmp::PartialEqSpecImpl for CrateError {
    open spec fn obeys_eq_spec() -> bool {
        true
    }

    open spec fn eq_spec(&self, other: &Self) -> bool {
        match (self, other) {
            (CrateError::IoError(a), CrateError::IoError(b)) => a@ == b@,
            (CrateError::HttpReqError(a), CrateError::HttpReqError(b)) => a@ == b@,
            (CrateError::URLFormatError, CrateError::URLFormatError) => true,
            _ => false,
        }
    }
}

} // verus!
