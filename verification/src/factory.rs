//! Decisions on the way to a new handle: whether a document exists, where its
//! bytes come from, and whether a collaborator can still be reached.

use vstd::prelude::*;
use crate::error::{
    already_exists_message, is_store_gone, not_found_message, DocumentError, ErrorCode,
};
use crate::handle::DocumentId;
use crate::lifecycle::ByteSource;
use crate::manager::DocumentManager;

verus! {

/// `exists` is what an existence probe says: the answer of the store as it
/// came, or, for a store that is gone, the failure that reports it.
pub open spec fn doc_exists(
    probe: Option<Result<bool, DocumentError>>,
    exists: Result<bool, DocumentError>,
) -> bool {
    match probe {
        Some(answer) => exists == answer,
        None => exists is Err && is_store_gone(exists->Err_0),
    }
}

/// A document counts as existing only when the probe said so; a probe that
/// failed counts as a document that does not exist.
pub open spec fn known_to_exist(exists: Result<bool, DocumentError>) -> bool {
    exists matches Ok(found) && found
}

/// What a new document is built from.
#[derive(Debug)]
pub enum InitialContent<T> {
    /// The structured data that the caller supplied.
    Supplied(T),
    /// The canonical default document.
    Default,
}

/// The caller's data if there is any, the default document if not.
pub open spec fn initial_content<T>(data: Option<T>) -> InitialContent<T> {
    match data {
        Some(data) => InitialContent::Supplied(data),
        None => InitialContent::Default,
    }
}

impl DocumentManager {
    /// Whether the persistent store holds the document, from what the store
    /// answered; `probe` is `None` when the store is gone, which is reported
    /// as a failure of its own and not as a document that does not exist.
    pub fn is_doc_exist(&self, probe: Option<Result<bool, DocumentError>>) -> (exists: Result<
        bool,
        DocumentError,
    >)
        ensures
            doc_exists(probe, exists),
    {
        match probe {
            Some(answer) => answer,
            None => Err(DocumentError::store_gone()),
        }
    }

    /// Decides whether a document may be created under `doc_id`, given what
    /// `is_doc_exist` returned for it, and from what it is to be built. The
    /// registry is not consulted and does not change.
    ///
    /// On success the caller encodes the content, persists the encoding and
    /// then hands it to the remote backend without waiting for the answer.
    pub fn create_document<T>(
        &self,
        _uid: i64,
        doc_id: &DocumentId,
        data: Option<T>,
        exists: Result<bool, DocumentError>,
    ) -> (content: Result<InitialContent<T>, DocumentError>)
        ensures
            content is Err <==> known_to_exist(exists),
            content is Ok ==> content->Ok_0 == initial_content(data),
            content is Err ==> content->Err_0.code == ErrorCode::AlreadyExists
                && content->Err_0.msg@ == already_exists_message(doc_id.value),
    {
        let found = match exists {
            Ok(found) => found,
            Err(_) => false,
        };
        if found {
            Err(DocumentError::already_exists(doc_id))
        } else {
            match data {
                Some(data) => Ok(InitialContent::Supplied(data)),
                None => Ok(InitialContent::Default),
            }
        }
    }

    /// Where the bytes of a document come from: the local store if it holds
    /// the document, the remote backend if not.
    pub fn byte_source(&self, exists_locally: bool) -> (source: ByteSource)
        ensures
            source == if exists_locally {
                ByteSource::Local
            } else {
                ByteSource::Remote
            },
    {
        if exists_locally {
            ByteSource::Local
        } else {
            ByteSource::Remote
        }
    }

    /// Checks the document state that the remote backend returned. An empty
    /// state is no document at all.
    pub fn remote_doc_state(&self, doc_id: &DocumentId, doc_state: Vec<u8>) -> (checked: Result<
        Vec<u8>,
        DocumentError,
    >)
        ensures
            checked is Ok <==> doc_state@.len() > 0,
            checked is Ok ==> checked->Ok_0 == doc_state,
            checked is Err ==> checked->Err_0.code == ErrorCode::NotFound
                && checked->Err_0.msg@ == not_found_message(doc_id.value),
    {
        if doc_state.len() == 0 {
            Err(DocumentError::not_found(doc_id))
        } else {
            Ok(doc_state)
        }
    }

    /// The collab builder, if it is still there.
    pub fn collab_builder<B>(&self, builder: Option<B>) -> (upgraded: Result<B, DocumentError>)
        ensures
            upgraded is Ok <==> builder is Some,
            upgraded is Ok ==> upgraded->Ok_0 == builder->Some_0,
            upgraded is Err ==> upgraded->Err_0.code == ErrorCode::ResourceUnavailable
                && upgraded->Err_0.msg@ == "The collab builder"@ + " is already dropped"@,
    {
        match builder {
            Some(builder) => Ok(builder),
            None => Err(DocumentError::dropped("The collab builder")),
        }
    }

    /// The file storage service, if it is still there.
    pub fn storage_service_upgrade<S>(&self, service: Option<S>) -> (upgraded: Result<
        S,
        DocumentError,
    >)
        ensures
            upgraded is Ok <==> service is Some,
            upgraded is Ok ==> upgraded->Ok_0 == service->Some_0,
            upgraded is Err ==> upgraded->Err_0.code == ErrorCode::ResourceUnavailable
                && upgraded->Err_0.msg@ == "The file storage service"@ + " is already dropped"@,
    {
        match service {
            Some(service) => Ok(service),
            None => Err(DocumentError::dropped("The file storage service")),
        }
    }
}

} // verus!
