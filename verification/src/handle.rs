//! Identifiers and handles that the registry keeps.

use vstd::prelude::*;
use uuid::Uuid;
use crate::error::DocumentError;

verus! {

/// The text that the `uuid` crate prints for the identifier with this value:
/// thirty-two lower-case hexadecimal digits in five groups, 8-4-4-4-12, with
/// hyphens between them.
pub uninterp spec fn hyphenated_text(value: u128) -> Seq<char>;

/// `Uuid::from_u128` and then `Uuid`'s `to_string`, which prints the
/// hyphenated lower-case form. The text depends on the value alone.
#[verifier::external_body]
fn uuid_to_string(value: u128) -> (text: String)
    ensures
        text@ == hyphenated_text(value),
{
    Uuid::from_u128(value).to_string()
}

/// The stable 128-bit identifier of a document.
#[derive(Clone, Copy, Debug, PartialEq, Eq, Structural, Hash)]
pub struct DocumentId {
    pub value: u128,
}

impl DocumentId {
    /// The identifier with this value.
    pub fn new(value: u128) -> (id: Self)
        ensures
            id.value == value,
    {
        DocumentId { value }
    }

    /// The identifier as the text under which collaborators know the
    /// document.
    pub fn to_text(&self) -> (text: String)
        ensures
            text@ == hyphenated_text(self.value),
    {
        uuid_to_string(self.value)
    }
}

/// The stable 128-bit identifier of a workspace.
#[derive(Clone, Copy, Debug, PartialEq, Eq, Structural, Hash)]
pub struct WorkspaceId {
    pub value: u128,
}

impl WorkspaceId {
    /// The identifier with this value.
    pub fn new(value: u128) -> (id: Self)
        ensures
            id.value == value,
    {
        WorkspaceId { value }
    }

    /// The identifier as the text under which collaborators know the
    /// workspace.
    pub fn to_text(&self) -> (text: String)
        ensures
            text@ == hyphenated_text(self.value),
    {
        uuid_to_string(self.value)
    }
}

/// What the persistent store keys a document by: the owner, the workspace
/// and the document, the two identifiers as text.
#[derive(Debug)]
pub struct StorageKey {
    pub uid: i64,
    pub workspace_id: String,
    pub object_id: String,
}

/// `key` is what comes of building the key of `doc_id` for the owner `uid`
/// from what the user service answered for the workspace: the key of the
/// document in that workspace, or the failure that was answered.
pub open spec fn storage_key_from(
    uid: i64,
    workspace: Result<WorkspaceId, DocumentError>,
    doc_id: DocumentId,
    key: Result<StorageKey, DocumentError>,
) -> bool {
    match workspace {
        Ok(workspace_id) => {
            &&& key is Ok
            &&& key->Ok_0.uid == uid
            &&& key->Ok_0.workspace_id@ == hyphenated_text(workspace_id.value)
            &&& key->Ok_0.object_id@ == hyphenated_text(doc_id.value)
        },
        Err(err) => key is Err && key->Err_0 == err,
    }
}

impl StorageKey {
    /// The key of `doc_id` in `workspace_id` for the owner `uid`.
    pub fn new(uid: i64, workspace_id: &WorkspaceId, doc_id: &DocumentId) -> (key: Self)
        ensures
            key.uid == uid,
            key.workspace_id@ == hyphenated_text(workspace_id.value),
            key.object_id@ == hyphenated_text(doc_id.value),
    {
        StorageKey { uid, workspace_id: workspace_id.to_text(), object_id: doc_id.to_text() }
    }

    /// The key of `doc_id` for the owner `uid` in the workspace that the
    /// user service named, or the failure with which it answered.
    pub fn in_workspace(
        uid: i64,
        workspace: Result<WorkspaceId, DocumentError>,
        doc_id: &DocumentId,
    ) -> (key: Result<StorageKey, DocumentError>)
        ensures
            storage_key_from(uid, workspace, *doc_id, key),
    {
        match workspace {
            Ok(workspace_id) => Ok(StorageKey::new(uid, &workspace_id, doc_id)),
            Err(err) => Err(err),
        }
    }
}

/// A reference to one constructed content object.
///
/// `instance` tells handles apart: two handles with the same instance share
/// one content object. `sync_enabled` is fixed when the object is built.
#[derive(Clone, Copy, Debug, PartialEq, Eq, Structural, Hash)]
pub struct DocumentHandle {
    pub instance: u64,
    pub sync_enabled: bool,
}

impl DocumentHandle {
    /// The handle of the content object `instance`.
    pub fn new(instance: u64, sync_enabled: bool) -> (handle: Self)
        ensures
            handle.instance == instance,
            handle.sync_enabled == sync_enabled,
    {
        DocumentHandle { instance, sync_enabled }
    }
}

} // verus!
