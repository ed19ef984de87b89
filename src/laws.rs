use vstd::prelude::*;

use crate::delete::{delete_next, DeleteAction, DeleteEvent, DeleteState};
use crate::download::{download_next, DownloadAction, DownloadEvent, DownloadState};
use crate::error::{ErrorKind, StorageError};
use crate::listing::{list_transition, listed_keys, ListAction, ListEvent, ListState};
use crate::upload::{upload_transition, UploadAction, UploadEvent, UploadState};

verus! {

/// Upload then download of one object moves its bytes unchanged. The bytes read
/// from the source are what the creation request carries; when the service
/// reports that many bytes, the upload returns the content's length. When the
/// service hands the same bytes back, the download fetches the same object,
/// writes exactly those bytes and returns the same length.
pub proof fn round_trip(
    bucket: String,
    key: String,
    content: Vec<u8>,
    reported: i64,
    fetched: Vec<u8>,
    u1: (UploadState, UploadAction),
    u2: (UploadState, UploadAction),
    u3: (UploadState, UploadAction),
    d1: (DownloadState, DownloadAction),
    d2: (DownloadState, DownloadAction),
    d3: (DownloadState, DownloadAction),
    d4: (DownloadState, DownloadAction),
)
    requires
        content@.len() <= usize::MAX,
        reported == content@.len(),
        fetched@ == content@,
        upload_transition(
            UploadState::ReadingSource { bucket, key },
            UploadEvent::SourceRead(Ok(content)),
            u1,
        ),
        upload_transition(u1.0, UploadEvent::ClientProvisioned(Ok(())), u2),
        upload_transition(u2.0, UploadEvent::ObjectCreated(Ok(reported)), u3),
        d1 == download_next(
            DownloadState::Provisioning { bucket, key },
            DownloadEvent::ClientProvisioned(Ok(())),
        ),
        d2 == download_next(d1.0, DownloadEvent::ObjectFetched(Ok(fetched))),
        d3 == download_next(d2.0, DownloadEvent::ParentDirsCreated(Ok(()))),
        d4 == download_next(d3.0, DownloadEvent::FileWritten(Ok(()))),
    ensures
        u2.1 == (UploadAction::CreateObject { bucket, key, content }),
        u3.1 == UploadAction::Finish(Ok(content@.len() as usize)),
        d1.1 == (DownloadAction::FetchObject { bucket, key }),
        d3.1 matches DownloadAction::WriteFile { content: written } && written@ == content@,
        d4.1 == DownloadAction::Finish(Ok(content@.len() as usize)),
{
}

/// A download asks for its destination's parent directories as soon as the
/// object's content has been retrieved, and asks to write the local file only
/// right after they were reported created.
pub proof fn parent_dirs_before_write(s: DownloadState, e: DownloadEvent)
    ensures
        (s is Fetching && e matches DownloadEvent::ObjectFetched(Ok(_))) ==> download_next(s, e).1
            is CreateParentDirs,
        download_next(s, e).1 is WriteFile ==> (s is PreparingDirs && e matches DownloadEvent::ParentDirsCreated(
            Ok(_),
        )),
{
}

/// Where the service refuses to delete or to retrieve an object (one that was
/// deleted, say), the operation ends with a remote error that carries the
/// service's message, and a download then touches no local file.
pub proof fn refusal_is_remote_error(m: String)
    ensures
        delete_next(DeleteState::Deleting, DeleteEvent::ObjectDeleted(Err(m))) == (
            DeleteState::Done,
            DeleteAction::Finish(Err(StorageError { kind: ErrorKind::Remote, message: m })),
        ),
        download_next(DownloadState::Fetching, DownloadEvent::ObjectFetched(Err(m))) == (
            DownloadState::Done,
            DownloadAction::Finish(Err(StorageError { kind: ErrorKind::Remote, message: m })),
        ),
        forall|e: DownloadEvent| #[trigger] download_next(DownloadState::Done, e).1 is Wait,
{
}

/// A listing of a bucket whose response holds no items, or an empty sequence of
/// them, succeeds with no keys.
pub proof fn empty_bucket_lists_nothing(items: Option<Vec<String>>, r: (ListState, ListAction))
    requires
        items is None || items->Some_0@.len() == 0,
        list_transition(ListState::Listing, ListEvent::ObjectsListed(Ok(items)), r),
    ensures
        r.1 matches ListAction::Finish(Ok(keys)) && keys@.len() == 0,
{
}

/// Every key of the service's listing response is among the keys that the
/// listing returns, and they come in the service's order.
pub proof fn listing_keeps_service_keys(items: Vec<String>, r: (ListState, ListAction))
    requires
        list_transition(ListState::Listing, ListEvent::ObjectsListed(Ok(Some(items))), r),
    ensures
        r.1 matches ListAction::Finish(Ok(keys)) && keys@ == items@,
        forall|k: String|
            #[trigger] items@.contains(k) ==> (r.1 matches ListAction::Finish(Ok(keys)) && keys@.contains(k)),
{
}

/// An unreadable source ends an upload with a local I/O error that carries the
/// read's message, before any client is provisioned or request issued: a
/// finished upload asks for nothing more.
pub proof fn unreadable_source_stops_upload(
    bucket: String,
    key: String,
    m: String,
    r: (UploadState, UploadAction),
)
    requires
        upload_transition(UploadState::ReadingSource { bucket, key }, UploadEvent::SourceRead(Err(m)), r),
    ensures
        r == (
            UploadState::Done,
            UploadAction::Finish(Err(StorageError { kind: ErrorKind::LocalIo, message: m })),
        ),
        forall|e: UploadEvent, r2: (UploadState, UploadAction)|
            #[trigger] upload_transition(UploadState::Done, e, r2) ==> r2.1 is Wait,
{
}

} // verus!
