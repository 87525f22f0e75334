//! The library's error type.

use vstd::prelude::*;

verus! {

#[verifier::external_type_specification]
#[verifier::external_body]
pub struct ExIoError(std::io::Error);

/// Why an operation of the library did not succeed.
#[derive(Debug)]
pub enum Error {
    /// An I/O error from the operating system.
    Io(std::io::Error),
    /// The release configuration or the installed program is not usable.
    Configuration(String),
    /// A caller-supplied value is malformed.
    InvalidInput(String),
    /// A release security check failed.
    Security(String),
}

/// The kind of an [`Error`] and the text of its message.
pub enum Failure {
    Io,
    Configuration(Seq<char>),
    InvalidInput(Seq<char>),
    Security(Seq<char>),
}

impl View for Error {
    type V = Failure;

    open spec fn view(&self) -> Failure {
        match self {
            Error::Io(_) => Failure::Io,
            Error::Configuration(message) => Failure::Configuration(message@),
            Error::InvalidInput(message) => Failure::InvalidInput(message@),
            Error::Security(message) => Failure::Security(message@),
        }
    }
}

/// The outcome of an operation of the library.
pub type Result<T> = core::result::Result<T, Error>;


/// The view of an outcome: the view of its value or of its error.
pub open spec fn outcome<T: View>(r: Result<T>) -> core::result::Result<T::V, Failure> {
    match r {
        Ok(value) => Ok(value@),
        Err(e) => Err(e@),
    }
}

} // verus!
