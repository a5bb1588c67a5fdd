//! The one failure this component produces or forwards: an I/O error from a
//! console or file channel, passed through uninterpreted.

use vstd::prelude::*;

verus! {

/// Declares `std::io::Error` so that it can stand in signatures: the error a
/// sink write or flush reports. Values of it are carried through, never read.
#[verifier::external_type_specification]
#[verifier::external_body]
pub struct ExIoError(std::io::Error);

/// Relies on `std::io::Error::from` to build a value carrying a generic
/// error kind, for channels that refuse an operation outright.
#[verifier::external_body]
pub(crate) fn make_io_error() -> (e: std::io::Error) {
    std::io::Error::from(std::io::ErrorKind::Other)
}

} // verus!
