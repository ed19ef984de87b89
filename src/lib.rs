//! Object-storage access: upload, download, delete and list, each written as a
//! state machine that decides every step from the outcome of the one before.
//! The caller performs the actions (file access, remote requests) and hands
//! back their outcomes as events.
use vstd::prelude::*;

pub mod delete;
pub mod download;
pub mod error;
pub mod laws;
pub mod listing;
pub mod upload;

pub use delete::{DeleteAction, DeleteEvent, DeleteState};
pub use download::{DownloadAction, DownloadEvent, DownloadState};
pub use error::{ErrorKind, StorageError};
pub use listing::{ListAction, ListEvent, ListState};
pub use upload::{UploadAction, UploadEvent, UploadState};

verus! {

/// Error for an operation that was handed an empty sequence.
#[derive(Debug, Clone, Copy, PartialEq, Eq, Structural)]
pub struct EmptyVec;

impl EmptyVec {
    /// The text shown for this error.
    pub fn message(&self) -> (r: String)
        ensures
            r@ == "invalid first item to double"@,
    {
        String::from_str("invalid first item to double")
    }
}

} // verus!
