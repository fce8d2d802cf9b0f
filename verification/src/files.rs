//! Decisions of the requests that create folders and files, upload and commit file
//! revisions, and store and read chunks.
use vstd::prelude::*;
use crate::model::{ChunkIndex, EncryptedMetadata, NodeEntity, NodeId, NodeType, RevisionEntity, RevisionId, UserEntity, UserId, NIL_ID};
use crate::reply::{DatabaseError, Refusal};
use crate::vfs::FileSystemError;

verus! {

/// A node as it is first stored: not deleted, never changed, without a revision.
pub open spec fn fresh_node(
    id: NodeId,
    parent: Option<NodeId>,
    metadata: EncryptedMetadata,
    owner: UserId,
    node_type: NodeType,
) -> NodeEntity {
    NodeEntity {
        id,
        parent_id: parent,
        owner_id: owner,
        metadata,
        deleted_on: None,
        metadata_change_counter: 0,
        current_revision: None,
        node_type,
    }
}

/// The record of a new node.
pub fn new_node(
    parent: Option<NodeId>,
    encrypted_metadata: EncryptedMetadata,
    owner: UserId,
    node_type: NodeType,
    node_id: NodeId,
) -> (node: NodeEntity)
    ensures
        node == fresh_node(node_id, parent, encrypted_metadata, owner, node_type),
{
    NodeEntity {
        id: node_id,
        parent_id: parent,
        owner_id: owner,
        metadata: encrypted_metadata,
        deleted_on: None,
        metadata_change_counter: 0,
        current_revision: None,
        node_type,
    }
}

/// Whether a node may be stored: the nil id is reserved, since the path to a root is
/// found by searching for it.
pub fn check_node_id(node: &NodeEntity) -> (allowed: bool)
    ensures
        allowed == (node.id != NIL_ID),
{
    node.id != NIL_ID
}

/// The parent a new node is created in, when it is a folder whose change count the
/// client named: a file cannot have children (a bad request), and a count that
/// differs is a conflict.
pub fn check_new_child_parent(parent: NodeEntity, parent_metadata_version: i64) -> (checked: Result<NodeEntity, Refusal>)
    ensures
        match checked {
            Ok(p) => p == parent && parent.node_type == NodeType::Folder
                && parent.metadata_change_counter == parent_metadata_version,
            Err(r) => (r is BadRequest && parent.node_type != NodeType::Folder) || (r is Conflict
                && parent.node_type == NodeType::Folder && parent.metadata_change_counter
                != parent_metadata_version),
        },
{
    if parent.node_type != NodeType::Folder {
        return Err(Refusal::BadRequest);
    }
    if parent.metadata_change_counter != parent_metadata_version {
        return Err(Refusal::Conflict);
    }
    Ok(parent)
}

/// The parent a new folder is created in, checked in order: it must exist and the
/// user must have access to it (`has_access`, which is asked only of an existing
/// parent), else not found; it must be a folder, else a bad request; the client must
/// name its current change count, else a conflict.
pub fn new_folder_parent(parent: Option<NodeEntity>, has_access: bool, parent_metadata_version: i64) -> (checked: Result<NodeEntity, Refusal>)
    ensures
        match checked {
            Ok(p) => parent == Some(p) && has_access && p.node_type == NodeType::Folder
                && p.metadata_change_counter == parent_metadata_version,
            Err(r) => match parent {
                None => r is NotFound,
                Some(p) => if !has_access {
                    r is NotFound
                } else if p.node_type != NodeType::Folder {
                    r is BadRequest
                } else {
                    r is Conflict && p.metadata_change_counter != parent_metadata_version
                },
            },
        },
{
    match parent {
        None => Err(Refusal::NotFound),
        Some(p) => {
            if !has_access {
                return Err(Refusal::NotFound);
            }
            check_new_child_parent(p, parent_metadata_version)
        },
    }
}

/// The parent of a new folder with the metadata the client re-encrypted to hold the
/// new child's key; its change count is kept, the database raises it.
pub fn parent_with_new_child(parent: NodeEntity, parent_metadata: EncryptedMetadata) -> (updated: NodeEntity)
    ensures
        updated == (NodeEntity { metadata: parent_metadata, ..parent }),
{
    NodeEntity { metadata: parent_metadata, ..parent }
}

/// The parent of a new file with the client's new metadata; creating a file stores
/// the parent with the change count 0.
pub fn parent_with_new_file(parent: NodeEntity, parent_metadata: EncryptedMetadata) -> (updated: NodeEntity)
    ensures
        updated == (NodeEntity { metadata: parent_metadata, metadata_change_counter: 0, ..parent }),
{
    NodeEntity { metadata: parent_metadata, metadata_change_counter: 0, ..parent }
}

/// A new file node as it is created: it is stored without an owner (the nil id).
pub fn new_file_node(parent_id: NodeId, node_metadata: EncryptedMetadata, node_id: NodeId) -> (node: NodeEntity)
    ensures
        node == fresh_node(node_id, Some(parent_id), node_metadata, NIL_ID, NodeType::File),
{
    new_node(Some(parent_id), node_metadata, NIL_ID, NodeType::File, node_id)
}

/// A node whose active revision becomes `revision`.
pub fn with_revision(node: NodeEntity, revision: RevisionId) -> (updated: NodeEntity)
    ensures
        updated == (NodeEntity { current_revision: Some(revision), ..node }),
{
    NodeEntity { current_revision: Some(revision), ..node }
}

/// A new revision of a file, open until it is committed.
pub fn new_revision(
    id: RevisionId,
    file_id: NodeId,
    upload_started_on: i64,
    iv: [u8; 12],
    chunk_count: ChunkIndex,
) -> (revision: RevisionEntity)
    ensures
        revision == (RevisionEntity {
            id,
            file_id,
            upload_started_on,
            upload_ended_on: None,
            iv,
            chunk_count,
        }),
{
    RevisionEntity { id, file_id, upload_started_on, upload_ended_on: None, iv, chunk_count }
}

/// The node a new revision is uploaded for: it must exist (not found otherwise) and
/// be a folder (a bad request otherwise).
pub fn check_update_target(node: Option<NodeEntity>) -> (target: Result<NodeEntity, Refusal>)
    ensures
        match target {
            Ok(n) => node == Some(n) && n.node_type == NodeType::Folder,
            Err(r) => (r is NotFound && node is None) || (r is BadRequest && node is Some
                && node->0.node_type != NodeType::Folder),
        },
{
    match node {
        None => Err(Refusal::NotFound),
        Some(n) => {
            if n.node_type != NodeType::Folder {
                Err(Refusal::BadRequest)
            } else {
                Ok(n)
            }
        },
    }
}

/// The revision and the file to commit, when both exist; not found otherwise.
pub fn commit_targets(revision: Option<RevisionEntity>, node: Option<NodeEntity>) -> (targets: Result<(RevisionEntity, NodeEntity), Refusal>)
    ensures
        match targets {
            Ok((r, n)) => revision == Some(r) && node == Some(n),
            Err(e) => e is NotFound && (revision is None || node is None),
        },
{
    match (revision, node) {
        (Some(r), Some(n)) => Ok((r, n)),
        _ => Err(Refusal::NotFound),
    }
}

/// The chunk indices whose chunk was found missing, in ascending order:
/// `present[k]` tells whether chunk `k + 1` is stored.
pub open spec fn missing_indices(present: Seq<bool>) -> Seq<ChunkIndex>
    decreases present.len(),
{
    if present.len() == 0 {
        Seq::empty()
    } else {
        let rest = missing_indices(present.drop_last());
        if present.last() {
            rest
        } else {
            rest.push(present.len() as ChunkIndex)
        }
    }
}

proof fn lemma_missing_indices_empty(present: Seq<bool>)
    ensures
        missing_indices(present).len() == 0 <==> forall|k: int| 0 <= k < present.len() ==> #[trigger] present[k],
    decreases present.len(),
{
    if present.len() > 0 {
        let rest = present.drop_last();
        lemma_missing_indices_empty(rest);
        assert forall|k: int| 0 <= k < rest.len() implies rest[k] == present[k] by {}
        if forall|k: int| 0 <= k < present.len() ==> #[trigger] present[k] {
            assert(present[present.len() - 1]);
            assert forall|k: int| 0 <= k < rest.len() implies #[trigger] rest[k] by {
                assert(present[k]);
            }
        }
        if missing_indices(present).len() == 0 {
            assert forall|k: int| 0 <= k < present.len() implies #[trigger] present[k] by {
                if k < present.len() - 1 {
                    assert(rest[k] == present[k]);
                }
            }
        }
    }
}

/// The chunks that are missing before a revision can be committed, from the checks
/// made for every chunk index from 1 up to the chunk count: the revision is complete
/// exactly when none is missing.
pub fn missing_chunks(present: &Vec<bool>) -> (missing: Vec<ChunkIndex>)
    requires
        present@.len() < i64::MAX,
    ensures
        missing@ == missing_indices(present@),
        missing@.len() == 0 <==> forall|k: int| 0 <= k < present@.len() ==> #[trigger] present@[k],
{
    proof {
        lemma_missing_indices_empty(present@);
    }
    let mut missing: Vec<ChunkIndex> = Vec::new();
    let mut i: usize = 0;
    while i < present.len()
        invariant
            i <= present@.len(),
            present@.len() < i64::MAX,
            missing@ == missing_indices(present@.subrange(0, i as int)),
        decreases present.len() - i,
    {
        assert(present@.subrange(0, i + 1).drop_last() =~= present@.subrange(0, i as int));
        if !present[i] {
            missing.push((i + 1) as ChunkIndex);
        }
        i = i + 1;
    }
    assert(present@.subrange(0, i as int) =~= present@);
    missing
}

/// A committed revision and its file: the upload ended at `now`, and the revision
/// becomes the file's active one.
pub fn commit(revision: RevisionEntity, node: NodeEntity, now: i64) -> (committed: (RevisionEntity, NodeEntity))
    ensures
        committed.0 == (RevisionEntity { upload_ended_on: Some(now), ..revision }),
        committed.1 == (NodeEntity { current_revision: Some(revision.id), ..node }),
{
    let revision = RevisionEntity { upload_ended_on: Some(now), ..revision };
    let id = revision.id;
    (revision, NodeEntity { current_revision: Some(id), ..node })
}

/// The node and revision a chunk is written to or read from, when both exist.
pub fn chunk_targets(node: Option<NodeEntity>, revision: Option<RevisionEntity>) -> (targets: Result<(NodeEntity, RevisionEntity), Refusal>)
    ensures
        match targets {
            Ok((n, r)) => node == Some(n) && revision == Some(r),
            Err(e) => e is NotFound && (node is None || revision is None),
        },
{
    match (node, revision) {
        (Some(n), Some(r)) => Ok((n, r)),
        _ => Err(Refusal::NotFound),
    }
}

/// The storage the owner uses once a chunk of `size` bytes is stored, when it stays
/// within the owner's limit; refused as insufficient storage otherwise.
pub fn storage_after_upload(owner: &UserEntity, size: u64) -> (used: Result<u64, Refusal>)
    ensures
        match used {
            Ok(u) => u == owner.storage_used + size && u <= owner.storage_limit,
            Err(r) => r is InsufficientStorage && owner.storage_used + size > owner.storage_limit,
        },
{
    if size > owner.storage_limit || owner.storage_used > owner.storage_limit - size {
        Err(Refusal::InsufficientStorage)
    } else {
        Ok(owner.storage_used + size)
    }
}

/// Whether the chunk belongs to a file of the user: the user owns the node and the
/// revision is one of it; refused as not found otherwise.
pub fn check_chunk_owner(node: &NodeEntity, revision: &RevisionEntity, user: UserId) -> (allowed: Result<(), Refusal>)
    ensures
        allowed is Ok <==> (node.owner_id == user && node.id == revision.file_id),
        allowed matches Err(r) ==> r is NotFound,
{
    if node.owner_id != user || node.id != revision.file_id {
        Err(Refusal::NotFound)
    } else {
        Ok(())
    }
}

/// Whether a chunk index lies in the revision: from 1 up to the announced chunk
/// count; a bad request otherwise.
pub fn check_chunk_index(revision: &RevisionEntity, chunk_index: ChunkIndex) -> (allowed: Result<(), Refusal>)
    ensures
        allowed is Ok <==> (1 <= chunk_index <= revision.chunk_count),
        allowed matches Err(r) ==> r is BadRequest,
{
    if revision.chunk_count < chunk_index || chunk_index <= 0 {
        Err(Refusal::BadRequest)
    } else {
        Ok(())
    }
}

/// A chunk that is already stored cannot be written again: a bad request.
pub fn check_chunk_absent(exists: bool) -> (allowed: Result<(), Refusal>)
    ensures
        allowed is Ok <==> !exists,
        allowed matches Err(r) ==> r is BadRequest,
{
    if exists {
        Err(Refusal::BadRequest)
    } else {
        Ok(())
    }
}

/// How the outcome of storing or reading chunk data is answered: a missing file is
/// not found, any other error is a storage error.
pub fn storage_outcome<T>(result: Result<T, FileSystemError>) -> (outcome: Result<T, Refusal>)
    ensures
        match outcome {
            Ok(v) => result == Result::<T, FileSystemError>::Ok(v),
            Err(r) => match result {
                Ok(_) => false,
                Err(FileSystemError::NotFound) => r is NotFound,
                Err(_) => r is StorageError,
            },
        },
{
    match result {
        Ok(v) => Ok(v),
        Err(FileSystemError::NotFound) => Err(Refusal::NotFound),
        Err(_) => Err(Refusal::StorageError),
    }
}

/// The owner after a chunk was stored: it now uses `used` bytes.
pub fn owner_after_upload(owner: UserEntity, used: u64) -> (updated: UserEntity)
    ensures
        updated == (UserEntity { storage_used: used, ..owner }),
{
    UserEntity { storage_used: used, ..owner }
}

} // verus!
