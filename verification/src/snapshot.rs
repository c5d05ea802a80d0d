//! Snapshots of documents, as the snapshot service stores them and as
//! callers receive them.

use vstd::prelude::*;
use crate::error::DocumentError;

verus! {

/// What the snapshot service records about one snapshot.
#[derive(Debug)]
pub struct DocumentSnapshotMeta {
    pub snapshot_id: String,
    pub object_id: String,
    pub created_at: i64,
}

/// A snapshot as the snapshot service stores it.
#[derive(Debug)]
pub struct DocumentSnapshotData {
    pub object_id: String,
    pub encoded_v1: Vec<u8>,
}

/// The description of one snapshot, as callers receive it.
#[derive(Debug)]
pub struct DocumentSnapshotMetaPB {
    pub snapshot_id: String,
    pub object_id: String,
    pub created_at: i64,
}

/// A snapshot as callers receive it.
#[derive(Debug)]
pub struct DocumentSnapshotPB {
    pub object_id: String,
    pub encoded_v1: Vec<u8>,
}

/// The description that a caller receives for a stored one.
pub open spec fn meta_pb(meta: DocumentSnapshotMeta) -> DocumentSnapshotMetaPB {
    DocumentSnapshotMetaPB {
        snapshot_id: meta.snapshot_id,
        object_id: meta.object_id,
        created_at: meta.created_at,
    }
}

/// The snapshot that a caller receives for a stored one.
pub open spec fn snapshot_pb(snapshot: DocumentSnapshotData) -> DocumentSnapshotPB {
    DocumentSnapshotPB { object_id: snapshot.object_id, encoded_v1: snapshot.encoded_v1 }
}

/// Converts the stored descriptions one by one, in their order.
pub fn snapshot_metas_to_pb(metas: Vec<DocumentSnapshotMeta>) -> (converted: Vec<
    DocumentSnapshotMetaPB,
>)
    ensures
        converted@ == metas@.map_values(|meta: DocumentSnapshotMeta| meta_pb(meta)),
{
    let mut converted: Vec<DocumentSnapshotMetaPB> = Vec::new();
    let mut i: usize = 0;
    while i < metas.len()
        invariant
            i <= metas.len(),
            converted@ == metas@.take(i as int).map_values(
                |meta: DocumentSnapshotMeta| meta_pb(meta),
            ),
        decreases metas.len() - i,
    {
        let meta = &metas[i];
        converted.push(
            DocumentSnapshotMetaPB {
                snapshot_id: meta.snapshot_id.clone(),
                object_id: meta.object_id.clone(),
                created_at: meta.created_at,
            },
        );
        i += 1;
        assert(converted@ =~= metas@.take(i as int).map_values(
            |meta: DocumentSnapshotMeta| meta_pb(meta),
        ));
    }
    assert(metas@.take(i as int) =~= metas@);
    converted
}

/// Converts a stored snapshot.
pub fn snapshot_to_pb(snapshot: DocumentSnapshotData) -> (converted: DocumentSnapshotPB)
    ensures
        converted == snapshot_pb(snapshot),
{
    DocumentSnapshotPB { object_id: snapshot.object_id, encoded_v1: snapshot.encoded_v1 }
}

/// `metas` is what callers receive for the answer of the snapshot service
/// to a listing: the stored descriptions converted one by one, in their
/// order, or the failure that was answered.
pub open spec fn listed_as(
    answer: Result<Vec<DocumentSnapshotMeta>, DocumentError>,
    metas: Result<Vec<DocumentSnapshotMetaPB>, DocumentError>,
) -> bool {
    match answer {
        Ok(stored) => metas is Ok && metas->Ok_0@ == stored@.map_values(
            |meta: DocumentSnapshotMeta| meta_pb(meta),
        ),
        Err(err) => metas is Err && metas->Err_0 == err,
    }
}

/// What callers receive for the answer of the snapshot service to a request
/// for one snapshot: the converted snapshot, or the failure that was
/// answered.
pub open spec fn snapshot_answer_pb(answer: Result<DocumentSnapshotData, DocumentError>) -> Result<
    DocumentSnapshotPB,
    DocumentError,
> {
    match answer {
        Ok(snapshot) => Ok(snapshot_pb(snapshot)),
        Err(err) => Err(err),
    }
}

/// Converts the answer of the snapshot service to a listing.
pub fn snapshot_metas_answer_to_pb(answer: Result<Vec<DocumentSnapshotMeta>, DocumentError>) -> (metas:
    Result<Vec<DocumentSnapshotMetaPB>, DocumentError>)
    ensures
        listed_as(answer, metas),
{
    match answer {
        Ok(stored) => Ok(snapshot_metas_to_pb(stored)),
        Err(err) => Err(err),
    }
}

/// Converts the answer of the snapshot service to a request for one
/// snapshot.
pub fn snapshot_answer_to_pb(answer: Result<DocumentSnapshotData, DocumentError>) -> (snapshot: Result<
    DocumentSnapshotPB,
    DocumentError,
>)
    ensures
        snapshot == snapshot_answer_pb(answer),
{
    match answer {
        Ok(stored) => Ok(snapshot_to_pb(stored)),
        Err(err) => Err(err),
    }
}

} // verus!
