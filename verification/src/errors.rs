//! The failure kinds of the pipeline's reading side.  A read failure and a
//! size-ceiling failure are distinct variants so that callers can branch and
//! log on the kind without string matching.

use vstd::prelude::*;
use vstd::string::StringExecFns;

verus! {

#[verifier::external_type_specification]
#[verifier::external_body]
pub struct ExIoError(std::io::Error);

/// Why a byte source could not be delivered: the underlying read failed, or
/// the source exceeds the configured ceiling.
#[derive(Debug)]
pub enum ReadError {
    Io(std::io::Error),
    SizeLimitExceeded,
}

impl From<std::io::Error> for ReadError {
    fn from(err: std::io::Error) -> (r: ReadError) {
        ReadError::Io(err)
    }
}

impl vstd::std_specs::convert::FromSpecImpl<std::io::Error> for ReadError {
    open spec fn obeys_from_spec() -> bool {
        true
    }

    open spec fn from_spec(t: std::io::Error) -> ReadError {
        ReadError::Io(t)
    }
}

/// Relies on `std::io::Error`'s `Display` implementation (through
/// `ToString`): a human-readable description of the error, used only in
/// diagnostic lines.
#[verifier::external_body]
pub fn io_error_text(e: &std::io::Error) -> String {
    e.to_string()
}

impl ReadError {
    /// A short description of the failure, mirroring what each variant means.
    pub fn message(&self) -> (r: String)
        ensures
            *self is SizeLimitExceeded ==> r@ == "file size exceeds limit"@,
    {
        match self {
            ReadError::Io(e) => io_error_text(e),
            ReadError::SizeLimitExceeded => String::from_str("file size exceeds limit"),
        }
    }
}

} // verus!
