use flowy_document::error::{DocumentError, ErrorCode};
use flowy_document::factory::InitialContent;
use flowy_document::handle::{DocumentId, StorageKey, WorkspaceId};
use flowy_document::lifecycle::{ByteSource, DocumentState, LoadEvent, OpenStep};
use flowy_document::manager::DocumentManager;
use flowy_document::services::{
    ask_user_id, ask_workspace_id, DocumentSnapshotService, DocumentUserService,
};
use flowy_document::snapshot::{DocumentSnapshotData, DocumentSnapshotMeta};
use uuid::Uuid;

struct Someone;

impl DocumentUserService for Someone {
    fn user_id(&self) -> Result<i64, DocumentError> {
        Ok(42)
    }

    fn device_id(&self) -> Result<String, DocumentError> {
        Ok(String::from("laptop"))
    }

    fn workspace_id(&self) -> Result<WorkspaceId, DocumentError> {
        Ok(WorkspaceId::new(0x11111111_2222_3333_4444_555555555555))
    }
}

struct SignedOut;

impl DocumentUserService for SignedOut {
    fn user_id(&self) -> Result<i64, DocumentError> {
        Err(DocumentError::internal(String::from("nobody is signed in")))
    }

    fn device_id(&self) -> Result<String, DocumentError> {
        Ok(String::from("laptop"))
    }

    fn workspace_id(&self) -> Result<WorkspaceId, DocumentError> {
        Ok(WorkspaceId::new(1))
    }
}

struct NoWorkspace;

impl DocumentUserService for NoWorkspace {
    fn user_id(&self) -> Result<i64, DocumentError> {
        Ok(42)
    }

    fn device_id(&self) -> Result<String, DocumentError> {
        Ok(String::from("laptop"))
    }

    fn workspace_id(&self) -> Result<WorkspaceId, DocumentError> {
        Err(DocumentError::new(ErrorCode::NotFound, String::from("no workspace is open")))
    }
}

struct NoSnapshots;

impl DocumentSnapshotService for NoSnapshots {
    fn get_document_snapshot_metas(
        &self,
        _document_id: &str,
    ) -> Result<Vec<DocumentSnapshotMeta>, DocumentError> {
        Ok(Vec::new())
    }

    fn get_document_snapshot(
        &self,
        _snapshot_id: &str,
    ) -> Result<DocumentSnapshotData, DocumentError> {
        Err(DocumentError::new(ErrorCode::NotFound, String::from("no snapshot")))
    }
}

fn manager() -> DocumentManager {
    DocumentManager::new(Box::new(Someone), Box::new(NoSnapshots))
}

const DOC: u128 = 0xa1a2a3a4_b1b2_c1c2_d1d2_d3d4d5d6d7d8;

#[test]
fn an_id_prints_as_a_hyphenated_uuid() {
    assert_eq!(DocumentId::new(DOC).to_text(), "a1a2a3a4-b1b2-c1c2-d1d2-d3d4d5d6d7d8");
    assert_eq!(DocumentId::new(0).to_text(), "00000000-0000-0000-0000-000000000000");
    assert_eq!(DocumentId::new(u128::MAX).to_text(), "ffffffff-ffff-ffff-ffff-ffffffffffff");
    assert_eq!(WorkspaceId::new(0xABCDEF).to_text(), "00000000-0000-0000-0000-000000abcdef");
}

#[test]
fn an_id_prints_as_the_uuid_it_was_parsed_from() {
    let uuid = Uuid::parse_str("67e55044-10b1-426f-9247-bb680e5fe0c8").unwrap();
    let id = DocumentId::new(uuid.as_u128());
    assert_eq!(id.to_text(), uuid.to_string());
    assert_eq!(id.to_text().len(), 36);
}

#[test]
fn a_storage_key_names_owner_workspace_and_document() {
    let key = StorageKey::new(7, &WorkspaceId::new(1), &DocumentId::new(2));
    assert_eq!(key.uid, 7);
    assert_eq!(key.workspace_id, "00000000-0000-0000-0000-000000000001");
    assert_eq!(key.object_id, "00000000-0000-0000-0000-000000000002");
}

#[test]
fn a_storage_key_follows_the_answer_for_the_workspace() {
    let id = DocumentId::new(2);
    let key = StorageKey::in_workspace(7, Ok(WorkspaceId::new(1)), &id).unwrap();
    assert_eq!(key.uid, 7);
    assert_eq!(key.workspace_id, "00000000-0000-0000-0000-000000000001");
    assert_eq!(key.object_id, "00000000-0000-0000-0000-000000000002");
    let failure = DocumentError::new(ErrorCode::NotFound, String::from("no workspace is open"));
    let err = StorageKey::in_workspace(7, Err(failure), &id).unwrap_err();
    assert_eq!(err.code, ErrorCode::NotFound);
    assert_eq!(err.msg, "no workspace is open");
}

#[test]
fn the_user_service_is_asked_as_it_is() {
    assert_eq!(ask_user_id(&Someone).unwrap(), 42);
    assert_eq!(ask_workspace_id(&Someone).unwrap(), WorkspaceId::new(0x11111111_2222_3333_4444_555555555555));
    assert_eq!(ask_user_id(&SignedOut).unwrap_err().msg, "nobody is signed in");
    assert_eq!(ask_workspace_id(&NoWorkspace).unwrap_err().code, ErrorCode::NotFound);
    let boxed: Box<dyn DocumentUserService> = Box::new(Someone);
    assert_eq!(ask_user_id(&*boxed).unwrap(), 42);
}

#[test]
fn the_manager_builds_the_storage_key_from_the_user_service() {
    let key = manager().storage_key(&DocumentId::new(DOC)).unwrap();
    assert_eq!(key.uid, 42);
    assert_eq!(key.workspace_id, "11111111-2222-3333-4444-555555555555");
    assert_eq!(key.object_id, "a1a2a3a4-b1b2-c1c2-d1d2-d3d4d5d6d7d8");
}

#[test]
fn the_storage_key_fails_as_the_user_service_fails() {
    let manager = DocumentManager::new(Box::new(SignedOut), Box::new(NoSnapshots));
    let err = manager.storage_key(&DocumentId::new(DOC)).unwrap_err();
    assert_eq!(err.code, ErrorCode::Internal);
    assert_eq!(err.msg, "nobody is signed in");
    let manager = DocumentManager::new(Box::new(NoWorkspace), Box::new(NoSnapshots));
    let err = manager.storage_key(&DocumentId::new(DOC)).unwrap_err();
    assert_eq!(err.code, ErrorCode::NotFound);
    assert_eq!(err.msg, "no workspace is open");
}

#[test]
fn a_store_that_is_gone_is_a_failure_of_its_own() {
    let manager = manager();
    let err = manager.is_doc_exist(None).unwrap_err();
    assert_eq!(err.code, ErrorCode::ResourceUnavailable);
    assert_ne!(err.code, ErrorCode::NotFound);
    assert_eq!(err.msg, "The collab database is already dropped");
    let err = DocumentError::store_gone();
    assert_eq!(err.code, ErrorCode::ResourceUnavailable);
    assert_eq!(err.msg, "The collab database is already dropped");
}

#[test]
fn the_answer_of_the_store_is_passed_on() {
    let manager = manager();
    assert_eq!(manager.is_doc_exist(Some(Ok(true))).unwrap(), true);
    assert_eq!(manager.is_doc_exist(Some(Ok(false))).unwrap(), false);
    let failure = DocumentError::internal(String::from("disk"));
    let err = manager.is_doc_exist(Some(Err(failure))).unwrap_err();
    assert_eq!(err.code, ErrorCode::Internal);
    assert_eq!(err.msg, "disk");
}

#[test]
fn create_on_an_existing_id_fails_with_already_exists() {
    let manager = manager();
    let id = DocumentId::new(DOC);
    let err = manager.create_document(1, &id, Some(5u32), Ok(true)).unwrap_err();
    assert_eq!(err.code, ErrorCode::AlreadyExists);
    assert_eq!(err.msg, "document a1a2a3a4-b1b2-c1c2-d1d2-d3d4d5d6d7d8 already exists");
    let err = manager.create_document::<u32>(1, &id, None, Ok(true)).unwrap_err();
    assert_eq!(err.code, ErrorCode::AlreadyExists);
}

#[test]
fn create_on_an_existing_id_leaves_the_registry_untouched() {
    let mut manager = manager();
    let id = DocumentId::new(DOC);
    assert_eq!(manager.open_document(&id), OpenStep::Construct);
    let handle = manager.create_document_instance(&id, true, LoadEvent::Built(3)).result.unwrap();
    assert!(manager.create_document(1, &id, Some(5u32), Ok(true)).is_err());
    assert_eq!(manager.lifecycle_state(&id), DocumentState::Active { sync: true });
    assert_eq!(manager.get_document(&id), Some(handle));
}

#[test]
fn create_on_a_fresh_id_uses_the_default_when_no_data_is_given() {
    let manager = manager();
    let id = DocumentId::new(DOC);
    let content = manager.create_document::<u32>(1, &id, None, Ok(false)).unwrap();
    assert!(matches!(content, InitialContent::Default));
    let content = manager.create_document(1, &id, Some(5u32), Ok(false)).unwrap();
    assert!(matches!(content, InitialContent::Supplied(5)));
}

#[test]
fn create_goes_on_when_the_store_is_gone() {
    let manager = manager();
    let id = DocumentId::new(DOC);
    let exists = manager.is_doc_exist(None);
    let content = manager.create_document(1, &id, Some(7u8), exists).unwrap();
    assert!(matches!(content, InitialContent::Supplied(7)));
}

#[test]
fn create_goes_on_when_the_probe_failed() {
    let manager = manager();
    let id = DocumentId::new(DOC);
    let failure = DocumentError::internal(String::from("disk"));
    let content = manager.create_document(1, &id, Some(String::from("x")), Err(failure)).unwrap();
    assert!(matches!(content, InitialContent::Supplied(text) if text == "x"));
}

#[test]
fn a_created_document_opens_from_the_local_store() {
    let mut manager = manager();
    let id = DocumentId::new(DOC);
    let exists = manager.is_doc_exist(Some(Ok(false)));
    assert!(manager.create_document::<u32>(1, &id, None, exists).is_ok());
    assert_eq!(manager.open_document(&id), OpenStep::Construct);
    let exists = manager.is_doc_exist(Some(Ok(true))).unwrap();
    assert_eq!(manager.byte_source(exists), ByteSource::Local);
    let outcome = manager.create_document_instance(&id, true, LoadEvent::Built(1));
    assert!(outcome.result.is_ok());
    assert_eq!(manager.lifecycle_state(&id), DocumentState::Active { sync: true });
}

#[test]
fn a_document_that_is_not_stored_locally_is_fetched() {
    let manager = manager();
    assert_eq!(manager.byte_source(false), ByteSource::Remote);
    assert_eq!(manager.byte_source(true), ByteSource::Local);
}

#[test]
fn an_empty_remote_state_is_no_document() {
    let manager = manager();
    let id = DocumentId::new(DOC);
    let err = manager.remote_doc_state(&id, Vec::new()).unwrap_err();
    assert_eq!(err.code, ErrorCode::NotFound);
    assert_eq!(err.msg, "document a1a2a3a4-b1b2-c1c2-d1d2-d3d4d5d6d7d8 not found");
    assert_eq!(manager.remote_doc_state(&id, vec![0]).unwrap(), vec![0]);
    assert_eq!(manager.remote_doc_state(&id, vec![1, 2, 3]).unwrap(), vec![1, 2, 3]);
}

#[test]
fn a_missing_document_fails_the_open_without_a_purge() {
    let mut manager = manager();
    let id = DocumentId::new(DOC);
    assert_eq!(manager.open_document(&id), OpenStep::Construct);
    let err = manager.remote_doc_state(&id, Vec::new()).unwrap_err();
    let outcome = manager.create_document_instance(&id, true, LoadEvent::SourceFailed(err));
    assert!(!outcome.purge);
    assert_eq!(outcome.result.unwrap_err().code, ErrorCode::NotFound);
    assert_eq!(manager.lifecycle_state(&id), DocumentState::Unloaded);
}

#[test]
fn a_collaborator_that_is_gone_is_unavailable() {
    let manager = manager();
    assert_eq!(manager.storage_service_upgrade(Some(3u8)).unwrap(), 3);
    let err = manager.storage_service_upgrade::<u8>(None).unwrap_err();
    assert_eq!(err.code, ErrorCode::ResourceUnavailable);
    assert_eq!(err.msg, "The file storage service is already dropped");
    assert_eq!(manager.collab_builder(Some("builder")).unwrap(), "builder");
    let err = manager.collab_builder::<u8>(None).unwrap_err();
    assert_eq!(err.code, ErrorCode::ResourceUnavailable);
    assert_eq!(err.msg, "The collab builder is already dropped");
}

#[test]
fn errors_carry_their_class_and_message() {
    let err = DocumentError::new(ErrorCode::UpstreamFailure, String::from("timeout"));
    assert_eq!(err.code, ErrorCode::UpstreamFailure);
    assert_eq!(err.msg, "timeout");
    assert!(!err.is_invalid_data());
    assert!(DocumentError::new(ErrorCode::InvalidData, String::new()).is_invalid_data());
    let err = DocumentError::internal(String::from("oops"));
    assert_eq!(err.code, ErrorCode::Internal);
    assert_eq!(err.msg, "oops");
    let err = DocumentError::open_first();
    assert_eq!(err.code, ErrorCode::PreconditionNotMet);
    let err = DocumentError::dropped("The cache");
    assert_eq!(err.code, ErrorCode::ResourceUnavailable);
    assert_eq!(err.msg, "The cache is already dropped");
    let id = DocumentId::new(1);
    assert_eq!(DocumentError::already_exists(&id).code, ErrorCode::AlreadyExists);
    assert_eq!(
        DocumentError::not_found(&id).msg,
        "document 00000000-0000-0000-0000-000000000001 not found"
    );
}
