//! The ephemeral presence record that a user attaches to an open document.

use vstd::prelude::*;
use crate::error::DocumentError;
use crate::handle::DocumentHandle;

verus! {

/// The version of the awareness protocol that this library speaks.
pub const AWARENESS_VERSION: i64 = 1;

/// The acting user on one device.
#[derive(Debug)]
pub struct DocumentAwarenessUser {
    pub uid: i64,
    pub device_id: String,
}

/// A place in a document: the path to a block and an offset into it.
#[derive(Debug)]
pub struct DocumentAwarenessPosition {
    pub path: Vec<u64>,
    pub offset: u64,
}

/// A selection, or a cursor when both ends are the same place.
#[derive(Debug)]
pub struct DocumentAwarenessSelection {
    pub start: DocumentAwarenessPosition,
    pub end: DocumentAwarenessPosition,
}

/// What a caller wants others to see of it.
#[derive(Debug)]
pub struct UpdateDocumentAwarenessState {
    pub selection: Option<DocumentAwarenessSelection>,
    pub metadata: Option<String>,
}

/// The presence record of one user, as the content model publishes it.
#[derive(Debug)]
pub struct DocumentAwarenessState {
    pub version: i64,
    pub user: DocumentAwarenessUser,
    pub selection: Option<DocumentAwarenessSelection>,
    pub metadata: Option<String>,
    pub timestamp: i64,
}

/// A presence record and the handle on whose session it is to be published.
#[derive(Debug)]
pub struct AwarenessUpdate {
    pub handle: DocumentHandle,
    pub state: DocumentAwarenessState,
}

/// The record for `update`, made by the user `uid` on `device_id` at
/// `timestamp`.
pub open spec fn awareness_state(
    uid: i64,
    device_id: String,
    update: UpdateDocumentAwarenessState,
    timestamp: i64,
) -> DocumentAwarenessState {
    DocumentAwarenessState {
        version: AWARENESS_VERSION,
        user: DocumentAwarenessUser { uid, device_id },
        selection: update.selection,
        metadata: update.metadata,
        timestamp,
    }
}

/// `published` is what comes of preparing the record of the user `uid` for
/// the session of `handle` from what the user service answered for the
/// device: the record on that handle, or the failure that was answered.
pub open spec fn awareness_published(
    handle: DocumentHandle,
    uid: i64,
    device: Result<String, DocumentError>,
    update: UpdateDocumentAwarenessState,
    timestamp: i64,
    published: Result<Option<AwarenessUpdate>, DocumentError>,
) -> bool {
    match device {
        Ok(device_id) => {
            &&& published is Ok
            &&& published->Ok_0 is Some
            &&& published->Ok_0->Some_0.handle == handle
            &&& published->Ok_0->Some_0.state == awareness_state(
                uid,
                device_id,
                update,
                timestamp,
            )
        },
        Err(err) => published is Err && published->Err_0 == err,
    }
}

impl DocumentAwarenessState {
    /// The record for `update`, made by the user `uid` on `device_id` at
    /// `timestamp`.
    pub fn new(
        uid: i64,
        device_id: String,
        update: UpdateDocumentAwarenessState,
        timestamp: i64,
    ) -> (state: Self)
        ensures
            state == awareness_state(uid, device_id, update, timestamp),
    {
        DocumentAwarenessState {
            version: AWARENESS_VERSION,
            user: DocumentAwarenessUser { uid, device_id },
            selection: update.selection,
            metadata: update.metadata,
            timestamp,
        }
    }
}

impl AwarenessUpdate {
    /// The presence record of the user `uid` on `device_id`, to be published
    /// on the session of `handle`.
    pub fn new(
        handle: DocumentHandle,
        uid: i64,
        device_id: String,
        state: UpdateDocumentAwarenessState,
        timestamp: i64,
    ) -> (update: Self)
        ensures
            update.handle == handle,
            update.state == awareness_state(uid, device_id, state, timestamp),
    {
        AwarenessUpdate {
            handle,
            state: DocumentAwarenessState::new(uid, device_id, state, timestamp),
        }
    }
}

} // verus!
