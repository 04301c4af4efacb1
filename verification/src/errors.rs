//! Error types for staging and committing a file.

use vstd::prelude::*;

verus! {

/// Declares `std::io::Error` so that it can be carried inside [`Error`].
/// The only standard-library I/O errors the crate ever holds come from
/// creating the temporary directory.
#[verifier::external_type_specification]
#[verifier::external_body]
pub struct ExIoError(std::io::Error);

/// An error reported by a platform primitive outside the standard I/O
/// error surface, identified by the raw error code of the failing call.
#[derive(Debug)]
pub struct BoxError {
    code: i32,
}

impl BoxError {
    /// The raw platform error code, as a mathematical value.
    pub closed spec fn spec_code(self) -> i32 {
        self.code
    }

    /// Wraps a raw platform error code.
    pub(crate) fn new(code: i32) -> (r: BoxError)
        ensures
            r.spec_code() == code,
    {
        BoxError { code }
    }

    /// The raw error code reported by the failing platform primitive.
    pub fn code(&self) -> (r: i32)
        ensures
            r == self.spec_code(),
    {
        self.code
    }
}

/// Possible errors when creating and committing the staged file.
#[derive(Debug)]
pub enum Error {
    /// The final path for the file is invalid: it currently names a
    /// directory, or it has no usable leaf name.
    InvalidFinalPath,
    /// The parent directory of the final path cannot be determined or is
    /// the empty path.
    InvalidParentFinalPath,
    /// An I/O error surfaced through the standard library.
    Io(std::io::Error),
    /// All other errors: failures of raw platform calls.
    Other(BoxError),
}

impl From<std::io::Error> for Error {
    fn from(error: std::io::Error) -> (r: Self) {
        Error::Io(error)
    }
}

impl vstd::std_specs::convert::FromSpecImpl<std::io::Error> for Error {
    open spec fn obeys_from_spec() -> bool {
        true
    }

    open spec fn from_spec(error: std::io::Error) -> Self {
        Error::Io(error)
    }
}

} // verus!
