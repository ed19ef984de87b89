use vstd::prelude::*;

use crate::error::{ErrorKind, StorageError};

verus! {

/// Where a listing stands.
pub enum ListState {
    /// A client is being provisioned.
    Provisioning { bucket: String },
    /// The single, unfiltered listing request is under way.
    Listing,
    /// The listing has finished, one way or the other.
    Done,
}

/// The outcome of the action that a listing asked for; an error carries the
/// message of its cause.
pub enum ListEvent {
    ClientProvisioned(Result<(), String>),
    /// The object keys of the service's response in its order, or `None` where
    /// the response holds no items at all.
    ObjectsListed(Result<Option<Vec<String>>, String>),
}

/// What the caller does next for a listing.
pub enum ListAction {
    /// Provision a storage client from ambient credentials.
    ProvisionClient,
    /// Issue one listing of `bucket`, with no prefix, delimiter or page token.
    ListObjects { bucket: String },
    /// Return this result to the caller.
    Finish(Result<Vec<String>, StorageError>),
    /// The event does not answer the pending action: nothing to do.
    Wait,
}

/// The keys that a listing returns for the service's items: the same keys in
/// the same order, and none where the response holds no items.
pub open spec fn listed_keys(items: Option<Vec<String>>) -> Seq<String> {
    match items {
        Some(v) => v@,
        None => Seq::empty(),
    }
}

/// One step of a listing: from state `s` and event `e` to the result `r`
/// (next state and action).
pub open spec fn list_transition(s: ListState, e: ListEvent, r: (ListState, ListAction)) -> bool {
    match s {
        ListState::Provisioning { bucket } => match e {
            ListEvent::ClientProvisioned(Ok(_)) => r == (
                ListState::Listing,
                ListAction::ListObjects { bucket },
            ),
            ListEvent::ClientProvisioned(Err(m)) => r == (
                ListState::Done,
                ListAction::Finish(Err(StorageError { kind: ErrorKind::Auth, message: m })),
            ),
            _ => r == (s, ListAction::Wait),
        },
        ListState::Listing => match e {
            ListEvent::ObjectsListed(Ok(items)) => {
                &&& r.0 == ListState::Done
                &&& exists|keys: Vec<String>|
                    r.1 == ListAction::Finish(Ok(keys)) && #[trigger] keys@ == listed_keys(items)
            },
            ListEvent::ObjectsListed(Err(m)) => r == (
                ListState::Done,
                ListAction::Finish(Err(StorageError { kind: ErrorKind::Remote, message: m })),
            ),
            _ => r == (s, ListAction::Wait),
        },
        ListState::Done => r == (s, ListAction::Wait),
    }
}

impl ListState {
    /// Begins the listing of `bucket`.
    pub fn start(bucket: String) -> (r: (ListState, ListAction))
        ensures
            r == (ListState::Provisioning { bucket }, ListAction::ProvisionClient),
    {
        (ListState::Provisioning { bucket }, ListAction::ProvisionClient)
    }

    /// Takes the outcome of the pending action and decides what comes next.
    pub fn step(self, e: ListEvent) -> (r: (ListState, ListAction))
        ensures
            list_transition(self, e, r),
    {
        match self {
            ListState::Provisioning { bucket } => match e {
                ListEvent::ClientProvisioned(Ok(_)) => (ListState::Listing, ListAction::ListObjects { bucket }),
                ListEvent::ClientProvisioned(Err(m)) => (
                    ListState::Done,
                    ListAction::Finish(Err(StorageError::new(ErrorKind::Auth, m))),
                ),
                _ => (ListState::Provisioning { bucket }, ListAction::Wait),
            },
            ListState::Listing => match e {
                ListEvent::ObjectsListed(Ok(items)) => {
                    let ghost listed = items;
                    let keys = match items {
                        Some(v) => v,
                        None => Vec::new(),
                    };
                    assert(keys@ =~= listed_keys(listed));
                    (ListState::Done, ListAction::Finish(Ok(keys)))
                },
                ListEvent::ObjectsListed(Err(m)) => (
                    ListState::Done,
                    ListAction::Finish(Err(StorageError::new(ErrorKind::Remote, m))),
                ),
                _ => (ListState::Listing, ListAction::Wait),
            },
            ListState::Done => (ListState::Done, ListAction::Wait),
        }
    }
}

} // verus!
