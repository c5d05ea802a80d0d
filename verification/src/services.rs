//! The services that the embedding application implements for the registry.

use vstd::prelude::*;
use crate::error::DocumentError;
use crate::handle::WorkspaceId;
use crate::snapshot::{DocumentSnapshotData, DocumentSnapshotMeta};

verus! {

/// Who is acting: the signed-in user, the device and the open workspace.
/// Each answer may fail, for instance when nobody is signed in.
pub trait DocumentUserService: Send + Sync {
    fn user_id(&self) -> Result<i64, DocumentError>;

    fn device_id(&self) -> Result<String, DocumentError>;

    fn workspace_id(&self) -> Result<WorkspaceId, DocumentError>;
}

/// Access to the snapshots that were taken of documents.
pub trait DocumentSnapshotService: Send + Sync {
    fn get_document_snapshot_metas(&self, document_id: &str) -> Result<
        Vec<DocumentSnapshotMeta>,
        DocumentError,
    >;

    fn get_document_snapshot(&self, snapshot_id: &str) -> Result<
        DocumentSnapshotData,
        DocumentError,
    >;
}

/// `uid` is an answer that `service` may give when it is asked for the
/// user.
pub open spec fn answers_user_id<U: DocumentUserService + ?Sized>(
    service: &U,
    uid: Result<i64, DocumentError>,
) -> bool {
    call_ensures(U::user_id, (service,), uid)
}

/// `device` is an answer that `service` may give when it is asked for the
/// device.
pub open spec fn answers_device_id<U: DocumentUserService + ?Sized>(
    service: &U,
    device: Result<String, DocumentError>,
) -> bool {
    call_ensures(U::device_id, (service,), device)
}

/// `workspace` is an answer that `service` may give when it is asked for the
/// open workspace.
pub open spec fn answers_workspace_id<U: DocumentUserService + ?Sized>(
    service: &U,
    workspace: Result<WorkspaceId, DocumentError>,
) -> bool {
    call_ensures(U::workspace_id, (service,), workspace)
}

/// `answer` is what `service` may give when it is asked to list the
/// snapshots of `document_id`.
pub open spec fn answers_snapshot_metas<S: DocumentSnapshotService + ?Sized>(
    service: &S,
    document_id: &str,
    answer: Result<Vec<DocumentSnapshotMeta>, DocumentError>,
) -> bool {
    call_ensures(S::get_document_snapshot_metas, (service, document_id), answer)
}

/// `answer` is what `service` may give when it is asked for the snapshot
/// `snapshot_id`.
pub open spec fn answers_snapshot<S: DocumentSnapshotService + ?Sized>(
    service: &S,
    snapshot_id: &str,
    answer: Result<DocumentSnapshotData, DocumentError>,
) -> bool {
    call_ensures(S::get_document_snapshot, (service, snapshot_id), answer)
}

/// Asks `service` for the user.
pub fn ask_user_id<U: DocumentUserService + ?Sized>(service: &U) -> (uid: Result<
    i64,
    DocumentError,
>)
    ensures
        answers_user_id(service, uid),
{
    service.user_id()
}

/// Asks `service` for the device.
pub fn ask_device_id<U: DocumentUserService + ?Sized>(service: &U) -> (device: Result<
    String,
    DocumentError,
>)
    ensures
        answers_device_id(service, device),
{
    service.device_id()
}

/// Asks `service` for the open workspace.
pub fn ask_workspace_id<U: DocumentUserService + ?Sized>(service: &U) -> (workspace: Result<
    WorkspaceId,
    DocumentError,
>)
    ensures
        answers_workspace_id(service, workspace),
{
    service.workspace_id()
}

/// Asks `service` to list the snapshots of `document_id`.
pub fn ask_snapshot_metas<S: DocumentSnapshotService + ?Sized>(
    service: &S,
    document_id: &str,
) -> (answer: Result<Vec<DocumentSnapshotMeta>, DocumentError>)
    ensures
        answers_snapshot_metas(service, document_id, answer),
{
    service.get_document_snapshot_metas(document_id)
}

/// Asks `service` for the snapshot `snapshot_id`.
pub fn ask_snapshot<S: DocumentSnapshotService + ?Sized>(service: &S, snapshot_id: &str) -> (answer:
    Result<DocumentSnapshotData, DocumentError>)
    ensures
        answers_snapshot(service, snapshot_id, answer),
{
    service.get_document_snapshot(snapshot_id)
}

} // verus!
