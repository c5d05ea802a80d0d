//! Classified failures returned by the document registry.

use vstd::prelude::*;
use vstd::string::*;
use crate::handle::{hyphenated_text, DocumentId};

verus! {

/// The message of the failure to create a document that exists already.
pub open spec fn already_exists_message(id: u128) -> Seq<char> {
    "document "@ + hyphenated_text(id) + " already exists"@
}

/// The failure is the one that reports a persistent store that is gone.
pub open spec fn is_store_gone(err: DocumentError) -> bool {
    err.code == ErrorCode::ResourceUnavailable && err.msg@ == "The collab database"@
        + " is already dropped"@
}

/// The message of the failure to find any bytes for a document.
pub open spec fn not_found_message(id: u128) -> Seq<char> {
    "document "@ + hyphenated_text(id) + " not found"@
}

/// The class of a failure, which tells a caller whether a retry can help.
#[derive(Clone, Copy, Debug, PartialEq, Eq, Structural, Hash)]
pub enum ErrorCode {
    /// A collaborator reported a failure that has no class of its own.
    Internal,
    /// A document was to be created under an id that already has one.
    AlreadyExists,
    /// No bytes exist for the document, locally or remotely.
    NotFound,
    /// Bytes exist but no valid content object can be built from them.
    InvalidData,
    /// An editable handle was requested for a document that is not open.
    PreconditionNotMet,
    /// A weakly held collaborator has already been torn down.
    ResourceUnavailable,
    /// A call to the remote backend failed.
    UpstreamFailure,
}

/// A failure with its class and a message for the caller.
#[derive(Debug)]
pub struct DocumentError {
    pub code: ErrorCode,
    pub msg: String,
}

impl DocumentError {
    /// A failure of class `code` with the message `msg`.
    pub fn new(code: ErrorCode, msg: String) -> (err: Self)
        ensures
            err.code == code,
            err.msg == msg,
    {
        DocumentError { code, msg }
    }

    /// A failure without a class of its own, described by `context`.
    pub fn internal(context: String) -> (err: Self)
        ensures
            err.code == ErrorCode::Internal,
            err.msg == context,
    {
        DocumentError { code: ErrorCode::Internal, msg: context }
    }

    /// A document is to be created under an id that has one already.
    pub fn already_exists(doc_id: &DocumentId) -> (err: Self)
        ensures
            err.code == ErrorCode::AlreadyExists,
            err.msg@ == already_exists_message(doc_id.value),
    {
        let mut msg = String::from_str("document ");
        msg.append(doc_id.to_text().as_str());
        msg.append(" already exists");
        DocumentError { code: ErrorCode::AlreadyExists, msg }
    }

    /// Neither the local store nor the remote backend has the document.
    pub fn not_found(doc_id: &DocumentId) -> (err: Self)
        ensures
            err.code == ErrorCode::NotFound,
            err.msg@ == not_found_message(doc_id.value),
    {
        let mut msg = String::from_str("document ");
        msg.append(doc_id.to_text().as_str());
        msg.append(" not found");
        DocumentError { code: ErrorCode::NotFound, msg }
    }

    /// An editable handle was asked for before the document was opened.
    pub fn open_first() -> (err: Self)
        ensures
            err.code == ErrorCode::PreconditionNotMet,
            err.msg@ == "Call open document first"@,
    {
        DocumentError {
            code: ErrorCode::PreconditionNotMet,
            msg: String::from_str("Call open document first"),
        }
    }

    /// A weakly held collaborator, named by `what`, is gone.
    pub fn dropped(what: &str) -> (err: Self)
        ensures
            err.code == ErrorCode::ResourceUnavailable,
            err.msg@ == what@ + " is already dropped"@,
    {
        let mut msg = String::from_str(what);
        msg.append(" is already dropped");
        DocumentError { code: ErrorCode::ResourceUnavailable, msg }
    }

    /// The persistent store is gone: a failure of its own class, not a
    /// document that does not exist.
    pub fn store_gone() -> (err: Self)
        ensures
            is_store_gone(err),
    {
        DocumentError::dropped("The collab database")
    }

    /// Whether the failure says that stored bytes are corrupt.
    pub open spec fn spec_is_invalid_data(&self) -> bool {
        self.code == ErrorCode::InvalidData
    }

    /// Whether the failure says that stored bytes are corrupt.
    #[verifier::when_used_as_spec(spec_is_invalid_data)]
    pub fn is_invalid_data(&self) -> (b: bool)
        ensures
            b == self.spec_is_invalid_data(),
    {
        self.code == ErrorCode::InvalidData
    }
}

} // verus!
