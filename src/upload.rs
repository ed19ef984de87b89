use vstd::prelude::*;

use crate::error::{ErrorKind, StorageError};

verus! {

/// Where an upload stands.
pub enum UploadState {
    /// The local source file is being read.
    ReadingSource { bucket: String, key: String },
    /// The content is in memory and a client is being provisioned.
    Provisioning { bucket: String, key: String, content: Vec<u8> },
    /// The object-creation request carrying `sent` bytes is under way.
    Creating { sent: usize },
    /// The upload has finished, one way or the other.
    Done,
}

/// The outcome of the action that an upload asked for; an error carries the
/// message of its cause.
pub enum UploadEvent {
    SourceRead(Result<Vec<u8>, String>),
    ClientProvisioned(Result<(), String>),
    /// The size that the service reports for the created object.
    ObjectCreated(Result<i64, String>),
}

/// What the caller does next for an upload.
pub enum UploadAction {
    /// Read the whole local source file.
    ReadSource,
    /// Provision a storage client from ambient credentials.
    ProvisionClient,
    /// Issue one simple (single-request) object creation.
    CreateObject { bucket: String, key: String, content: Vec<u8> },
    /// Return this result to the caller.
    Finish(Result<usize, StorageError>),
    /// The event does not answer the pending action: nothing to do.
    Wait,
}

/// Whether `e` is the error that an upload returns when the service reports a
/// size other than the number of bytes sent.
pub open spec fn is_size_mismatch(e: StorageError) -> bool {
    e.kind == ErrorKind::Remote && e.message@ == "reported object size differs from the bytes sent"@
}

/// One step of an upload: from state `s` and event `e` to the result `r`
/// (next state and action).
pub open spec fn upload_transition(s: UploadState, e: UploadEvent, r: (UploadState, UploadAction)) -> bool {
    match s {
        UploadState::ReadingSource { bucket, key } => match e {
            UploadEvent::SourceRead(Ok(content)) => r == (
                UploadState::Provisioning { bucket, key, content },
                UploadAction::ProvisionClient,
            ),
            UploadEvent::SourceRead(Err(m)) => r == (
                UploadState::Done,
                UploadAction::Finish(Err(StorageError { kind: ErrorKind::LocalIo, message: m })),
            ),
            _ => r == (s, UploadAction::Wait),
        },
        UploadState::Provisioning { bucket, key, content } => match e {
            UploadEvent::ClientProvisioned(Ok(_)) => r == (
                UploadState::Creating { sent: content@.len() as usize },
                UploadAction::CreateObject { bucket, key, content },
            ),
            UploadEvent::ClientProvisioned(Err(m)) => r == (
                UploadState::Done,
                UploadAction::Finish(Err(StorageError { kind: ErrorKind::Auth, message: m })),
            ),
            _ => r == (s, UploadAction::Wait),
        },
        UploadState::Creating { sent } => match e {
            UploadEvent::ObjectCreated(Ok(size)) => {
                &&& r.0 == UploadState::Done
                &&& if size == sent as int {
                    r.1 == UploadAction::Finish(Ok(sent))
                } else {
                    exists|err: StorageError|
                        r.1 == UploadAction::Finish(Err(err)) && #[trigger] is_size_mismatch(err)
                }
            },
            UploadEvent::ObjectCreated(Err(m)) => r == (
                UploadState::Done,
                UploadAction::Finish(Err(StorageError { kind: ErrorKind::Remote, message: m })),
            ),
            _ => r == (s, UploadAction::Wait),
        },
        UploadState::Done => r == (s, UploadAction::Wait),
    }
}

impl UploadState {
    /// Begins an upload of a local file to object `key` of `bucket`: the file
    /// is read first, before any remote call.
    pub fn start(bucket: String, key: String) -> (r: (UploadState, UploadAction))
        ensures
            r == (UploadState::ReadingSource { bucket, key }, UploadAction::ReadSource),
    {
        (UploadState::ReadingSource { bucket, key }, UploadAction::ReadSource)
    }

    /// Takes the outcome of the pending action and decides what comes next.
    pub fn step(self, e: UploadEvent) -> (r: (UploadState, UploadAction))
        ensures
            upload_transition(self, e, r),
    {
        match self {
            UploadState::ReadingSource { bucket, key } => match e {
                UploadEvent::SourceRead(Ok(content)) => (
                    UploadState::Provisioning { bucket, key, content },
                    UploadAction::ProvisionClient,
                ),
                UploadEvent::SourceRead(Err(m)) => (
                    UploadState::Done,
                    UploadAction::Finish(Err(StorageError::new(ErrorKind::LocalIo, m))),
                ),
                _ => (UploadState::ReadingSource { bucket, key }, UploadAction::Wait),
            },
            UploadState::Provisioning { bucket, key, content } => match e {
                UploadEvent::ClientProvisioned(Ok(_)) => {
                    let sent = content.len();
                    (UploadState::Creating { sent }, UploadAction::CreateObject { bucket, key, content })
                },
                UploadEvent::ClientProvisioned(Err(m)) => (
                    UploadState::Done,
                    UploadAction::Finish(Err(StorageError::new(ErrorKind::Auth, m))),
                ),
                _ => (UploadState::Provisioning { bucket, key, content }, UploadAction::Wait),
            },
            UploadState::Creating { sent } => match e {
                UploadEvent::ObjectCreated(Ok(size)) => {
                    if size >= 0 && size as u64 == sent as u64 {
                        (UploadState::Done, UploadAction::Finish(Ok(sent)))
                    } else {
                        let err = StorageError::new(
                            ErrorKind::Remote,
                            String::from_str("reported object size differs from the bytes sent"),
                        );
                        assert(is_size_mismatch(err));
                        (UploadState::Done, UploadAction::Finish(Err(err)))
                    }
                },
                UploadEvent::ObjectCreated(Err(m)) => (
                    UploadState::Done,
                    UploadAction::Finish(Err(StorageError::new(ErrorKind::Remote, m))),
                ),
                _ => (UploadState::Creating { sent }, UploadAction::Wait),
            },
            UploadState::Done => (UploadState::Done, UploadAction::Wait),
        }
    }
}

} // verus!
