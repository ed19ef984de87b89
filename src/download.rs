use vstd::prelude::*;

use crate::error::{ErrorKind, StorageError};

verus! {

/// Where a download stands.
pub enum DownloadState {
    /// A client is being provisioned.
    Provisioning { bucket: String, key: String },
    /// The full-range retrieval of the object is under way.
    Fetching,
    /// The content is in memory; the destination's parent directories are being created.
    PreparingDirs { content: Vec<u8> },
    /// The `len` retrieved bytes are being written to the destination.
    Writing { len: usize },
    /// The download has finished, one way or the other.
    Done,
}

/// The outcome of the action that a download asked for; an error carries the
/// message of its cause.
pub enum DownloadEvent {
    ClientProvisioned(Result<(), String>),
    ObjectFetched(Result<Vec<u8>, String>),
    ParentDirsCreated(Result<(), String>),
    FileWritten(Result<(), String>),
}

/// What the caller does next for a download.
pub enum DownloadAction {
    /// Provision a storage client from ambient credentials.
    ProvisionClient,
    /// Retrieve the whole object `key` of `bucket`.
    FetchObject { bucket: String, key: String },
    /// Create every missing directory above the destination (none if it has no parent).
    CreateParentDirs,
    /// Write `content` to the destination, replacing any file there.
    WriteFile { content: Vec<u8> },
    /// Return this result to the caller.
    Finish(Result<usize, StorageError>),
    /// The event does not answer the pending action: nothing to do.
    Wait,
}

/// One step of a download: from state `s` and event `e` to the next state and action.
pub open spec fn download_next(s: DownloadState, e: DownloadEvent) -> (DownloadState, DownloadAction) {
    match s {
        DownloadState::Provisioning { bucket, key } => match e {
            DownloadEvent::ClientProvisioned(Ok(_)) => (
                DownloadState::Fetching,
                DownloadAction::FetchObject { bucket, key },
            ),
            DownloadEvent::ClientProvisioned(Err(m)) => (
                DownloadState::Done,
                DownloadAction::Finish(Err(StorageError { kind: ErrorKind::Auth, message: m })),
            ),
            _ => (s, DownloadAction::Wait),
        },
        DownloadState::Fetching => match e {
            DownloadEvent::ObjectFetched(Ok(content)) => (
                DownloadState::PreparingDirs { content },
                DownloadAction::CreateParentDirs,
            ),
            DownloadEvent::ObjectFetched(Err(m)) => (
                DownloadState::Done,
                DownloadAction::Finish(Err(StorageError { kind: ErrorKind::Remote, message: m })),
            ),
            _ => (s, DownloadAction::Wait),
        },
        DownloadState::PreparingDirs { content } => match e {
            DownloadEvent::ParentDirsCreated(Ok(_)) => (
                DownloadState::Writing { len: content@.len() as usize },
                DownloadAction::WriteFile { content },
            ),
            DownloadEvent::ParentDirsCreated(Err(m)) => (
                DownloadState::Done,
                DownloadAction::Finish(Err(StorageError { kind: ErrorKind::LocalIo, message: m })),
            ),
            _ => (s, DownloadAction::Wait),
        },
        DownloadState::Writing { len } => match e {
            DownloadEvent::FileWritten(Ok(_)) => (DownloadState::Done, DownloadAction::Finish(Ok(len))),
            DownloadEvent::FileWritten(Err(m)) => (
                DownloadState::Done,
                DownloadAction::Finish(Err(StorageError { kind: ErrorKind::LocalIo, message: m })),
            ),
            _ => (s, DownloadAction::Wait),
        },
        DownloadState::Done => (s, DownloadAction::Wait),
    }
}

impl DownloadState {
    /// Begins a download of object `key` of `bucket` to a local file.
    pub fn start(bucket: String, key: String) -> (r: (DownloadState, DownloadAction))
        ensures
            r == (DownloadState::Provisioning { bucket, key }, DownloadAction::ProvisionClient),
    {
        (DownloadState::Provisioning { bucket, key }, DownloadAction::ProvisionClient)
    }

    /// Takes the outcome of the pending action and decides what comes next.
    pub fn step(self, e: DownloadEvent) -> (r: (DownloadState, DownloadAction))
        ensures
            r == download_next(self, e),
    {
        match self {
            DownloadState::Provisioning { bucket, key } => match e {
                DownloadEvent::ClientProvisioned(Ok(_)) => (
                    DownloadState::Fetching,
                    DownloadAction::FetchObject { bucket, key },
                ),
                DownloadEvent::ClientProvisioned(Err(m)) => (
                    DownloadState::Done,
                    DownloadAction::Finish(Err(StorageError::new(ErrorKind::Auth, m))),
                ),
                _ => (DownloadState::Provisioning { bucket, key }, DownloadAction::Wait),
            },
            DownloadState::Fetching => match e {
                DownloadEvent::ObjectFetched(Ok(content)) => (
                    DownloadState::PreparingDirs { content },
                    DownloadAction::CreateParentDirs,
                ),
                DownloadEvent::ObjectFetched(Err(m)) => (
                    DownloadState::Done,
                    DownloadAction::Finish(Err(StorageError::new(ErrorKind::Remote, m))),
                ),
                _ => (DownloadState::Fetching, DownloadAction::Wait),
            },
            DownloadState::PreparingDirs { content } => match e {
                DownloadEvent::ParentDirsCreated(Ok(_)) => {
                    let len = content.len();
                    (DownloadState::Writing { len }, DownloadAction::WriteFile { content })
                },
                DownloadEvent::ParentDirsCreated(Err(m)) => (
                    DownloadState::Done,
                    DownloadAction::Finish(Err(StorageError::new(ErrorKind::LocalIo, m))),
                ),
                _ => (DownloadState::PreparingDirs { content }, DownloadAction::Wait),
            },
            DownloadState::Writing { len } => match e {
                DownloadEvent::FileWritten(Ok(_)) => (DownloadState::Done, DownloadAction::Finish(Ok(len))),
                DownloadEvent::FileWritten(Err(m)) => (
                    DownloadState::Done,
                    DownloadAction::Finish(Err(StorageError::new(ErrorKind::LocalIo, m))),
                ),
                _ => (DownloadState::Writing { len }, DownloadAction::Wait),
            },
            DownloadState::Done => (DownloadState::Done, DownloadAction::Wait),
        }
    }
}

} // verus!
