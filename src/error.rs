use vstd::prelude::*;

verus! {

/// Which part of an operation failed.
#[derive(Debug, Clone, Copy, PartialEq, Eq, Structural)]
pub enum ErrorKind {
    /// Ambient credentials could not be resolved or were rejected.
    Auth,
    /// A local file could not be read or written, or a directory could not be created.
    LocalIo,
    /// The storage service rejected or failed the request.
    Remote,
}

/// The failure of an operation: its kind, and the message of the cause as the
/// failing step reported it.
#[derive(Debug)]
pub struct StorageError {
    pub kind: ErrorKind,
    pub message: String,
}

impl StorageError {
    pub fn new(kind: ErrorKind, message: String) -> (r: StorageError)
        ensures
            r.kind == kind,
            r.message == message,
    {
        StorageError { kind, message }
    }
}

} // verus!
