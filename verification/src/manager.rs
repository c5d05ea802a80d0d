//! The lifecycle controller: every decision about which handle a caller gets
//! and which tier a document lives in.

use vstd::prelude::*;
use dashmap::DashMap;
use std::collections::HashSet;
use crate::awareness::{awareness_published, AwarenessUpdate, UpdateDocumentAwarenessState};
use crate::error::{is_store_gone, DocumentError, ErrorCode};
use crate::snapshot::{
    listed_as, snapshot_answer_pb, snapshot_answer_to_pb, snapshot_metas_answer_to_pb,
    DocumentSnapshotData, DocumentSnapshotMeta, DocumentSnapshotMetaPB, DocumentSnapshotPB,
};
use crate::handle::{
    hyphenated_text, storage_key_from, DocumentHandle, DocumentId, StorageKey, WorkspaceId,
};
use crate::services::{
    answers_device_id, answers_snapshot, answers_snapshot_metas, answers_user_id,
    answers_workspace_id, ask_device_id, ask_snapshot, ask_snapshot_metas, ask_user_id,
    ask_workspace_id, DocumentSnapshotService, DocumentUserService,
};
use crate::handle_map::{
    handle_map_clear, handle_map_contains_key, handle_map_contents, handle_map_get,
    handle_map_insert, handle_map_new, handle_map_remove,
};
use crate::theorems::{
    lemma_close_preserves_wf, lemma_finish_load_preserves_wf, lemma_open_preserves_wf,
    lemma_reset_preserves_wf,
};
use crate::lifecycle::{
    load_needs_purge, load_result, DocumentState, EvictionEntry, LoadEvent, LoadOutcome, OpenStep,
    RegistryView,
};

verus! {

broadcast use vstd::std_specs::hash::group_hash_axioms;

/// The registry of live document handles.
pub struct DocumentManager {
    user_service: Box<dyn DocumentUserService>,
    snapshot_service: Box<dyn DocumentSnapshotService>,
    documents: DashMap<u128, DocumentHandle>,
    removing_documents: DashMap<u128, DocumentHandle>,
    loading: HashSet<u128>,
}

/// The view is what the registry holds. The services are not part of it:
/// what they may answer is told by `user_service_answers_user` and its
/// neighbours, and every step says that it leaves them as they were.
impl View for DocumentManager {
    type V = RegistryView;

    closed spec fn view(&self) -> RegistryView {
        RegistryView {
            active: handle_map_contents(self.documents),
            staging: handle_map_contents(self.removing_documents),
            loading: self.loading@,
        }
    }
}

impl DocumentManager {
    /// `uid` is an answer that the user service of this registry may give
    /// when it is asked for the user.
    pub closed spec fn user_service_answers_user(&self, uid: Result<i64, DocumentError>) -> bool {
        answers_user_id::<dyn DocumentUserService>(&*self.user_service, uid)
    }

    /// `device` is an answer that the user service of this registry may give
    /// when it is asked for the device.
    pub closed spec fn user_service_answers_device(
        &self,
        device: Result<String, DocumentError>,
    ) -> bool {
        answers_device_id::<dyn DocumentUserService>(&*self.user_service, device)
    }

    /// `workspace` is an answer that the user service of this registry may
    /// give when it is asked for the open workspace.
    pub closed spec fn user_service_answers_workspace(
        &self,
        workspace: Result<WorkspaceId, DocumentError>,
    ) -> bool {
        answers_workspace_id::<dyn DocumentUserService>(&*self.user_service, workspace)
    }

    /// `answer` is what the snapshot service of this registry may give when
    /// it is asked to list the snapshots of `document_id`.
    pub closed spec fn snapshot_service_lists(
        &self,
        document_id: &str,
        answer: Result<Vec<DocumentSnapshotMeta>, DocumentError>,
    ) -> bool {
        answers_snapshot_metas::<dyn DocumentSnapshotService>(
            &*self.snapshot_service,
            document_id,
            answer,
        )
    }

    /// `answer` is what the snapshot service of this registry may give when
    /// it is asked for the snapshot `snapshot_id`.
    pub closed spec fn snapshot_service_fetches(
        &self,
        snapshot_id: &str,
        answer: Result<DocumentSnapshotData, DocumentError>,
    ) -> bool {
        answers_snapshot::<dyn DocumentSnapshotService>(&*self.snapshot_service, snapshot_id, answer)
    }

    /// The services of this registry are those of `other`: what either may
    /// answer, the other may answer too.
    pub open spec fn same_services(&self, other: &DocumentManager) -> bool {
        &&& forall|uid: Result<i64, DocumentError>| #[trigger]
            self.user_service_answers_user(uid) == other.user_service_answers_user(uid)
        &&& forall|device: Result<String, DocumentError>| #[trigger]
            self.user_service_answers_device(device) == other.user_service_answers_device(
                device,
            )
        &&& forall|workspace: Result<WorkspaceId, DocumentError>| #[trigger]
            self.user_service_answers_workspace(workspace)
                == other.user_service_answers_workspace(workspace)
        &&& forall|document_id: &str, answer: Result<Vec<DocumentSnapshotMeta>, DocumentError>|
         #[trigger]
            self.snapshot_service_lists(document_id, answer) == other.snapshot_service_lists(
                document_id,
                answer,
            )
        &&& forall|snapshot_id: &str, answer: Result<DocumentSnapshotData, DocumentError>|
         #[trigger]
            self.snapshot_service_fetches(snapshot_id, answer) == other.snapshot_service_fetches(
                snapshot_id,
                answer,
            )
    }

    /// A registry that holds nothing, for the given services.
    pub fn new(
        user_service: Box<dyn DocumentUserService>,
        snapshot_service: Box<dyn DocumentSnapshotService>,
    ) -> (manager: Self)
        ensures
            manager@ == RegistryView::empty(),
            manager@.wf(),
    {
        DocumentManager {
            user_service,
            snapshot_service,
            documents: handle_map_new(),
            removing_documents: handle_map_new(),
            loading: HashSet::new(),
        }
    }

    /// Moves the handle of `doc_id` from staging back into the active tier
    /// and returns it; `None` when nothing is staged under the id.
    pub fn restore_document_from_removing(&mut self, doc_id: &DocumentId) -> (restored: Option<
        DocumentHandle,
    >)
        ensures
            final(self)@ == old(self)@.restore(doc_id.value),
            old(self)@.wf() ==> final(self)@.wf(),
            final(self).same_services(old(self)),
            restored == if old(self)@.is_staged(doc_id.value) {
                Some(old(self)@.staging[doc_id.value])
            } else {
                None
            },
    {
        let restored = match handle_map_remove(&mut self.removing_documents, doc_id.value) {
            Some((key, handle)) => {
                handle_map_insert(&mut self.documents, key, handle);
                Some(handle)
            },
            None => None,
        };
        proof {
            assert(self@ =~= old(self)@.restore(doc_id.value));
            if old(self)@.wf() {
                lemma_open_preserves_wf(old(self)@, doc_id.value);
            }
        }
        restored
    }

    /// The live handle of a document that was opened before.
    ///
    /// An active handle is returned as it is and a staged one is restored
    /// first. A document that is neither must be opened first.
    pub fn editable_document(&mut self, doc_id: &DocumentId) -> (found: Result<
        DocumentHandle,
        DocumentError,
    >)
        ensures
            final(self)@ == old(self)@.lookup(doc_id.value),
            old(self)@.wf() ==> final(self)@.wf(),
            final(self).same_services(old(self)),
            match old(self)@.obtainable(doc_id.value) {
                Some(handle) => found == Ok::<DocumentHandle, DocumentError>(handle),
                None => found is Err && found->Err_0.code == ErrorCode::PreconditionNotMet
                    && found->Err_0.msg@ == "Call open document first"@,
            },
    {
        match self.get_document(doc_id) {
            Some(handle) => Ok(handle),
            None => Err(DocumentError::open_first()),
        }
    }

    /// The handle of a document for reading, if one is registered or staged;
    /// a staged handle is restored on the way.
    ///
    /// On `None` the caller builds a handle without sync and reports it to
    /// `create_document_instance`, which does not register it.
    pub fn get_document(&mut self, doc_id: &DocumentId) -> (found: Option<DocumentHandle>)
        ensures
            final(self)@ == old(self)@.lookup(doc_id.value),
            old(self)@.wf() ==> final(self)@.wf(),
            final(self).same_services(old(self)),
            found == old(self)@.obtainable(doc_id.value),
    {
        match handle_map_get(&self.documents, doc_id.value) {
            Some(handle) => Some(handle),
            None => self.restore_document_from_removing(doc_id),
        }
    }

    /// Opens a document for live editing.
    ///
    /// A staged handle is restored, an active one is left alone. For a
    /// document that has neither, the first caller is told to build the
    /// handle and the id is marked as under construction, so that every later
    /// caller is told to wait until `create_document_instance` has been given
    /// the result.
    pub fn open_document(&mut self, doc_id: &DocumentId) -> (step: OpenStep)
        ensures
            final(self)@ == old(self)@.open(doc_id.value),
            old(self)@.wf() ==> final(self)@.wf(),
            final(self).same_services(old(self)),
            step == old(self)@.open_step(doc_id.value),
    {
        proof {
            if old(self)@.wf() {
                lemma_open_preserves_wf(old(self)@, doc_id.value);
            }
        }
        let restored = self.restore_document_from_removing(doc_id);
        let ghost looked = *self;
        let step = match restored {
            Some(handle) => OpenStep::Restored(handle),
            None => {
                if handle_map_contains_key(&self.documents, doc_id.value) {
                    OpenStep::AlreadyOpen
                } else if self.loading.contains(&doc_id.value) {
                    OpenStep::InFlight
                } else {
                    self.loading.insert(doc_id.value);
                    OpenStep::Construct
                }
            },
        };
        assert(self.same_services(&looked));
        step
    }

    /// Takes in how an attempt to build a handle for `doc_id` ended.
    ///
    /// A handle built with sync enabled is registered as the active handle
    /// of the document; one built without is handed to the caller and not
    /// kept. When the content model rejected the bytes as invalid data, the
    /// outcome asks for them to be purged. An attempt with sync enabled ends
    /// the construction that `open_document` began, whatever its result.
    pub fn create_document_instance(
        &mut self,
        doc_id: &DocumentId,
        enable_sync: bool,
        event: LoadEvent,
    ) -> (outcome: LoadOutcome)
        ensures
            final(self)@ == old(self)@.finish_load(doc_id.value, enable_sync, event),
            old(self)@.wf() ==> final(self)@.wf(),
            final(self).same_services(old(self)),
            outcome.result == load_result(enable_sync, event),
            outcome.purge == load_needs_purge(event),
    {
        proof {
            if old(self)@.wf() {
                lemma_finish_load_preserves_wf(old(self)@, doc_id.value, enable_sync, event);
            }
        }
        if enable_sync {
            self.loading.remove(&doc_id.value);
        }
        match event {
            LoadEvent::Built(instance) => {
                let handle = DocumentHandle::new(instance, enable_sync);
                if enable_sync {
                    handle_map_remove(&mut self.removing_documents, doc_id.value);
                    handle_map_insert(&mut self.documents, doc_id.value, handle);
                }
                assert(self@ =~= old(self)@.finish_load(doc_id.value, enable_sync, event));
                LoadOutcome { result: Ok(handle), purge: false }
            },
            LoadEvent::BuildFailed(err) => {
                assert(self@ =~= old(self)@.finish_load(doc_id.value, enable_sync, event));
                let purge = err.is_invalid_data();
                LoadOutcome { result: Err(err), purge }
            },
            LoadEvent::SourceFailed(err) => {
                assert(self@ =~= old(self)@.finish_load(doc_id.value, enable_sync, event));
                LoadOutcome { result: Err(err), purge: false }
            },
        }
    }

    /// Closes a document at time `now`: its active handle moves into staging
    /// and the entry for its reclamation timer is returned. A document that
    /// is not active stays as it is.
    ///
    /// With the entry the caller clears the awareness state of the handle
    /// and arms a timer that calls `reclaim_document` at the deadline.
    pub fn close_document(&mut self, doc_id: &DocumentId, now: i64) -> (staged: Option<
        EvictionEntry,
    >)
        ensures
            final(self)@ == old(self)@.close(doc_id.value),
            old(self)@.wf() ==> final(self)@.wf(),
            final(self).same_services(old(self)),
            staged == if old(self)@.is_active(doc_id.value) {
                Some(
                    EvictionEntry {
                        doc_id: *doc_id,
                        handle: old(self)@.active[doc_id.value],
                        armed_at: now,
                    },
                )
            } else {
                None
            },
    {
        let staged = match handle_map_remove(&mut self.documents, doc_id.value) {
            Some((key, handle)) => {
                handle_map_insert(&mut self.removing_documents, key, handle);
                Some(EvictionEntry { doc_id: *doc_id, handle, armed_at: now })
            },
            None => None,
        };
        proof {
            assert(self@ =~= old(self)@.close(doc_id.value));
            if old(self)@.wf() {
                lemma_close_preserves_wf(old(self)@, doc_id.value);
            }
        }
        staged
    }

    /// The reclamation timer of `doc_id` fired: whatever is staged under the
    /// id is dropped from the registry and returned.
    pub fn reclaim_document(&mut self, doc_id: &DocumentId) -> (dropped: Option<DocumentHandle>)
        ensures
            final(self)@ == old(self)@.reclaim(doc_id.value),
            old(self)@.wf() ==> final(self)@.wf(),
            final(self).same_services(old(self)),
            dropped == if old(self)@.is_staged(doc_id.value) {
                Some(old(self)@.staging[doc_id.value])
            } else {
                None
            },
    {
        let dropped = match handle_map_remove(&mut self.removing_documents, doc_id.value) {
            Some((_, handle)) => Some(handle),
            None => None,
        };
        proof {
            if old(self)@.wf() {
                lemma_close_preserves_wf(old(self)@, doc_id.value);
            }
        }
        dropped
    }

    /// Takes in what became of erasing the bytes of `doc_id`.
    ///
    /// `erased` is `None` when the persistent store is gone, which is a
    /// failure of its own. Only after the bytes were erased is the active
    /// handle dropped and returned; after any failure the registry stays as
    /// it is, and a failure to erase is passed on.
    pub fn delete_document(
        &mut self,
        doc_id: &DocumentId,
        erased: Option<Result<(), DocumentError>>,
    ) -> (dropped: Result<Option<DocumentHandle>, DocumentError>)
        ensures
            erased matches Some(Ok(_)) ==> final(self)@ == old(self)@.delete(doc_id.value),
            !(erased matches Some(Ok(_))) ==> final(self)@ == old(self)@,
            old(self)@.wf() ==> final(self)@.wf(),
            final(self).same_services(old(self)),
            match erased {
                None => dropped is Err && is_store_gone(dropped->Err_0),
                Some(Ok(_)) => dropped == Ok::<Option<DocumentHandle>, DocumentError>(
                    if old(self)@.is_active(doc_id.value) {
                        Some(old(self)@.active[doc_id.value])
                    } else {
                        None
                    },
                ),
                Some(Err(err)) => dropped == Err::<Option<DocumentHandle>, DocumentError>(err),
            },
    {
        proof {
            if old(self)@.wf() {
                lemma_close_preserves_wf(old(self)@, doc_id.value);
            }
        }
        match erased {
            None => Err(DocumentError::store_gone()),
            Some(Ok(_)) => {
                match handle_map_remove(&mut self.documents, doc_id.value) {
                    Some((_, handle)) => Ok(Some(handle)),
                    None => Ok(None),
                }
            },
            Some(Err(err)) => Err(err),
        }
    }

    /// The key of `doc_id` in the persistent store, for the acting user and
    /// the open workspace.
    ///
    /// The user service is asked for the user and, if it names one, for the
    /// workspace. The first failure that it answers with is passed on; with
    /// both answers the key is that of `doc_id` for that user in that
    /// workspace.
    pub fn storage_key(&self, doc_id: &DocumentId) -> (key: Result<StorageKey, DocumentError>)
        ensures
            exists|uid: Result<i64, DocumentError>|
                {
                    &&& #[trigger] self.user_service_answers_user(uid)
                    &&& uid is Err ==> key is Err && key->Err_0 == uid->Err_0
                    &&& uid is Ok ==> exists|workspace: Result<WorkspaceId, DocumentError>|
                        {
                            &&& #[trigger] self.user_service_answers_workspace(workspace)
                            &&& storage_key_from(uid->Ok_0, workspace, *doc_id, key)
                        }
                },
    {
        let asked = ask_user_id::<dyn DocumentUserService>(&*self.user_service);
        assert(self.user_service_answers_user(asked));
        match asked {
            Ok(uid) => {
                let workspace = ask_workspace_id::<dyn DocumentUserService>(&*self.user_service);
                assert(self.user_service_answers_workspace(workspace));
                StorageKey::in_workspace(uid, workspace, doc_id)
            },
            Err(err) => Err(err),
        }
    }

    /// Forgets every handle, active or staged, for a new session. A
    /// construction that is under way stays under way.
    pub fn initialize(&mut self, _uid: i64) -> (done: Result<(), DocumentError>)
        ensures
            final(self)@ == old(self)@.reset(),
            old(self)@.wf() ==> final(self)@.wf(),
            final(self).same_services(old(self)),
            done is Ok,
    {
        handle_map_clear(&mut self.documents);
        handle_map_clear(&mut self.removing_documents);
        proof {
            if old(self)@.wf() {
                lemma_reset_preserves_wf(old(self)@);
            }
        }
        Ok(())
    }

    /// A user signed up: the registry starts over.
    pub fn initialize_after_sign_up(&mut self, uid: i64) -> (done: Result<(), DocumentError>)
        ensures
            final(self)@ == old(self)@.reset(),
            old(self)@.wf() ==> final(self)@.wf(),
            final(self).same_services(old(self)),
            done is Ok,
    {
        self.initialize(uid)
    }

    /// Another workspace was opened: the registry starts over.
    pub fn initialize_after_open_workspace(&mut self, uid: i64) -> (done: Result<
        (),
        DocumentError,
    >)
        ensures
            final(self)@ == old(self)@.reset(),
            old(self)@.wf() ==> final(self)@.wf(),
            final(self).same_services(old(self)),
            done is Ok,
    {
        self.initialize(uid)
    }

    /// A user signed in: the registry starts over.
    pub fn initialize_after_sign_in(&mut self, uid: i64) -> (done: Result<(), DocumentError>)
        ensures
            final(self)@ == old(self)@.reset(),
            old(self)@.wf() ==> final(self)@.wf(),
            final(self).same_services(old(self)),
            done is Ok,
    {
        self.initialize(uid)
    }

    /// Prepares the presence record that the acting user wants published on
    /// the live session of `doc_id`.
    ///
    /// A document that is neither active nor staged has no session: the
    /// answer is `Ok(None)`, not a failure, and nobody is asked anything.
    /// Otherwise the user service is asked for the user and, if it names one,
    /// for the device. The first failure that it answers with is passed on
    /// and the registry stays as it is. With both answers a staged handle is
    /// restored, and the record is that of this user on this device with the
    /// selection, the metadata and the timestamp that were handed in.
    pub fn set_document_awareness_local_state(
        &mut self,
        doc_id: &DocumentId,
        state: UpdateDocumentAwarenessState,
        timestamp: i64,
    ) -> (published: Result<Option<AwarenessUpdate>, DocumentError>)
        ensures
            old(self)@.wf() ==> final(self)@.wf(),
            final(self).same_services(old(self)),
            published is Ok && published->Ok_0 is Some ==> final(self)@ == old(self)@.lookup(
                doc_id.value,
            ),
            !(published is Ok && published->Ok_0 is Some) ==> final(self)@ == old(self)@,
            old(self)@.obtainable(doc_id.value) is None ==> published is Ok
                && published->Ok_0 is None,
            old(self)@.obtainable(doc_id.value) is Some ==> exists|uid: Result<i64, DocumentError>|
                {
                    &&& #[trigger] old(self).user_service_answers_user(uid)
                    &&& uid is Err ==> published is Err && published->Err_0 == uid->Err_0
                    &&& uid is Ok ==> exists|device: Result<String, DocumentError>|
                        {
                            &&& #[trigger] old(self).user_service_answers_device(device)
                            &&& awareness_published(
                                old(self)@.obtainable(doc_id.value)->Some_0,
                                uid->Ok_0,
                                device,
                                state,
                                timestamp,
                                published,
                            )
                        }
                },
    {
        let found = match handle_map_get(&self.documents, doc_id.value) {
            Some(handle) => Some(handle),
            None => handle_map_get(&self.removing_documents, doc_id.value),
        };
        if found.is_none() {
            return Ok(None);
        }
        let asked = ask_user_id::<dyn DocumentUserService>(&*self.user_service);
        assert(self.user_service_answers_user(asked));
        let uid = match asked {
            Ok(uid) => uid,
            Err(err) => {
                return Err(err);
            },
        };
        let device = ask_device_id::<dyn DocumentUserService>(&*self.user_service);
        assert(self.user_service_answers_device(device));
        let device_id = match device {
            Ok(device_id) => device_id,
            Err(err) => {
                return Err(err);
            },
        };
        match self.get_document(doc_id) {
            Some(handle) => Ok(Some(AwarenessUpdate::new(handle, uid, device_id, state, timestamp))),
            None => Ok(None),
        }
    }

    /// The descriptions of the snapshots of a document.
    ///
    /// The snapshot service is asked to list the snapshots under the text of
    /// `document_id`. Its descriptions are converted one by one, in their
    /// order; its failure is passed on.
    pub fn get_document_snapshot_meta(&self, document_id: &DocumentId, _limit: usize) -> (metas:
        Result<Vec<DocumentSnapshotMetaPB>, DocumentError>)
        ensures
            exists|text: &str, answer: Result<Vec<DocumentSnapshotMeta>, DocumentError>|
                {
                    &&& text@ == hyphenated_text(document_id.value)
                    &&& #[trigger] self.snapshot_service_lists(text, answer)
                    &&& listed_as(answer, metas)
                },
    {
        let object_id = document_id.to_text();
        let text = object_id.as_str();
        let answer = ask_snapshot_metas::<dyn DocumentSnapshotService>(
            &*self.snapshot_service,
            text,
        );
        assert(self.snapshot_service_lists(text, answer));
        snapshot_metas_answer_to_pb(answer)
    }

    /// One snapshot.
    ///
    /// The snapshot service is asked for the snapshot `snapshot_id`. The
    /// snapshot that it answers with is converted; its failure, as for an
    /// id that it does not know, is passed on.
    pub fn get_document_snapshot(&self, snapshot_id: &str) -> (snapshot: Result<
        DocumentSnapshotPB,
        DocumentError,
    >)
        ensures
            exists|answer: Result<DocumentSnapshotData, DocumentError>|
                {
                    &&& #[trigger] self.snapshot_service_fetches(snapshot_id, answer)
                    &&& snapshot == snapshot_answer_pb(answer)
                },
    {
        let answer = ask_snapshot::<dyn DocumentSnapshotService>(
            &*self.snapshot_service,
            snapshot_id,
        );
        assert(self.snapshot_service_fetches(snapshot_id, answer));
        snapshot_answer_to_pb(answer)
    }

    /// Where `doc_id` stands in its lifecycle.
    pub fn lifecycle_state(&self, doc_id: &DocumentId) -> (state: DocumentState)
        ensures
            state == self@.state_of(doc_id.value),
    {
        match handle_map_get(&self.documents, doc_id.value) {
            Some(handle) => DocumentState::Active { sync: handle.sync_enabled },
            None => {
                if handle_map_contains_key(&self.removing_documents, doc_id.value) {
                    DocumentState::PendingEviction
                } else if self.loading.contains(&doc_id.value) {
                    DocumentState::Loading
                } else {
                    DocumentState::Unloaded
                }
            },
        }
    }
}

} // verus!
