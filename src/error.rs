use vstd::prelude::*;

verus! {

/// Makes std's `io::ErrorKind` known to Verus, variants included, so that
/// errors can carry it and the library can tell `NotFound` from the rest.
#[verifier::external_type_specification]
pub struct ExIoErrorKind(std::io::ErrorKind);

/// Why an operation of the store failed.
#[derive(Clone, Copy, Debug, Eq, Hash, Ord, PartialEq, PartialOrd)]
pub enum Error {
    /// the store root is missing or is not a directory
    NotDir,
    /// the buffer handed to `read_into` already holds data
    NotEmpty,
    /// no record is stored under the key
    NotFound,
    /// any other failure, by the kind of the underlying I/O error
    IoErrorKind(std::io::ErrorKind),
}

/// The error for a failed attempt to open a key's file: a file that does not
/// exist is reported as `NotFound`, any other kind is passed on.
pub open spec fn open_error(k: std::io::ErrorKind) -> Error {
    if k == std::io::ErrorKind::NotFound {
        Error::NotFound
    } else {
        Error::IoErrorKind(k)
    }
}

/// Classifies a failed attempt to open a key's file.
pub fn classify(k: std::io::ErrorKind) -> (r: Error)
    ensures
        r == open_error(k),
{
    match k {
        std::io::ErrorKind::NotFound => Error::NotFound,
        _ => Error::IoErrorKind(k),
    }
}

} // verus!
