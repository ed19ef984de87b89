use vstd::prelude::*;

use crate::error::{ErrorKind, StorageError};

verus! {

/// Where a deletion stands.
pub enum DeleteState {
    /// A client is being provisioned.
    Provisioning { bucket: String, key: String },
    /// The deletion request is under way.
    Deleting,
    /// The deletion has finished, one way or the other.
    Done,
}

/// The outcome of the action that a deletion asked for; an error carries the
/// message of its cause.
pub enum DeleteEvent {
    ClientProvisioned(Result<(), String>),
    ObjectDeleted(Result<(), String>),
}

/// What the caller does next for a deletion.
pub enum DeleteAction {
    /// Provision a storage client from ambient credentials.
    ProvisionClient,
    /// Issue one deletion of object `key` of `bucket`, with no check that it exists.
    DeleteObject { bucket: String, key: String },
    /// Return this result to the caller.
    Finish(Result<(), StorageError>),
    /// The event does not answer the pending action: nothing to do.
    Wait,
}

/// One step of a deletion: from state `s` and event `e` to the next state and action.
/// A service refusal (an object that does not exist among them) is a remote
/// error: deletion is not idempotent.
pub open spec fn delete_next(s: DeleteState, e: DeleteEvent) -> (DeleteState, DeleteAction) {
    match s {
        DeleteState::Provisioning { bucket, key } => match e {
            DeleteEvent::ClientProvisioned(Ok(_)) => (
                DeleteState::Deleting,
                DeleteAction::DeleteObject { bucket, key },
            ),
            DeleteEvent::ClientProvisioned(Err(m)) => (
                DeleteState::Done,
                DeleteAction::Finish(Err(StorageError { kind: ErrorKind::Auth, message: m })),
            ),
            _ => (s, DeleteAction::Wait),
        },
        DeleteState::Deleting => match e {
            DeleteEvent::ObjectDeleted(Ok(_)) => (DeleteState::Done, DeleteAction::Finish(Ok(()))),
            DeleteEvent::ObjectDeleted(Err(m)) => (
                DeleteState::Done,
                DeleteAction::Finish(Err(StorageError { kind: ErrorKind::Remote, message: m })),
            ),
            _ => (s, DeleteAction::Wait),
        },
        DeleteState::Done => (s, DeleteAction::Wait),
    }
}

impl DeleteState {
    /// Begins the deletion of object `key` of `bucket`.
    pub fn start(bucket: String, key: String) -> (r: (DeleteState, DeleteAction))
        ensures
            r == (DeleteState::Provisioning { bucket, key }, DeleteAction::ProvisionClient),
    {
        (DeleteState::Provisioning { bucket, key }, DeleteAction::ProvisionClient)
    }

    /// Takes the outcome of the pending action and decides what comes next.
    pub fn step(self, e: DeleteEvent) -> (r: (DeleteState, DeleteAction))
        ensures
            r == delete_next(self, e),
    {
        match self {
            DeleteState::Provisioning { bucket, key } => match e {
                DeleteEvent::ClientProvisioned(Ok(_)) => (
                    DeleteState::Deleting,
                    DeleteAction::DeleteObject { bucket, key },
                ),
                DeleteEvent::ClientProvisioned(Err(m)) => (
                    DeleteState::Done,
                    DeleteAction::Finish(Err(StorageError::new(ErrorKind::Auth, m))),
                ),
                _ => (DeleteState::Provisioning { bucket, key }, DeleteAction::Wait),
            },
            DeleteState::Deleting => match e {
                DeleteEvent::ObjectDeleted(Ok(_)) => (DeleteState::Done, DeleteAction::Finish(Ok(()))),
                DeleteEvent::ObjectDeleted(Err(m)) => (
                    DeleteState::Done,
                    DeleteAction::Finish(Err(StorageError::new(ErrorKind::Remote, m))),
                ),
                _ => (DeleteState::Deleting, DeleteAction::Wait),
            },
            DeleteState::Done => (DeleteState::Done, DeleteAction::Wait),
        }
    }
}

} // verus!
