//! The unified error type returned by every fallible operation of this crate.

use vstd::prelude::*;

verus! {

/// The single error surface of the library.
///
/// Every fallible operation returns one of these three kinds, each carrying
/// the diagnostic text of the underlying failure.
#[derive(Debug, PartialEq, Eq)]
pub enum Error {
    /// The engine could not be created, or evaluating a bootstrap source
    /// failed. Permanent for the lifetime of the owning concurrency unit.
    JsInitError(String),
    /// A script-level exception was raised during an evaluation or a function
    /// call on an otherwise healthy engine instance.
    JsExecError(String),
    /// A value's runtime tag did not match the requested native type.
    JsValueError(String),
}

impl Error {
    /// The diagnostic message carried by the error.
    pub open spec fn message_spec(&self) -> Seq<char> {
        match self {
            Error::JsInitError(m) => m@,
            Error::JsExecError(m) => m@,
            Error::JsValueError(m) => m@,
        }
    }

    /// Returns the diagnostic message carried by the error.
    pub fn message(&self) -> (r: &str)
        ensures
            r@ == self.message_spec(),
    {
        match self {
            Error::JsInitError(m) => m.as_str(),
            Error::JsExecError(m) => m.as_str(),
            Error::JsValueError(m) => m.as_str(),
        }
    }
}

impl Clone for Error {
    /// Duplicates the error, kind and message unchanged.
    fn clone(&self) -> (r: Self)
        ensures
            r == *self,
    {
        match self {
            Error::JsInitError(m) => Error::JsInitError(m.clone()),
            Error::JsExecError(m) => Error::JsExecError(m.clone()),
            Error::JsValueError(m) => Error::JsValueError(m.clone()),
        }
    }
}

} // verus!
