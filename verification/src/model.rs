//! The stored records of the server: nodes of the file tree, file revisions, shares
//! and users, and the views of them that clients receive.
//!
//! Ids are 128-bit values (the bits of a UUID); times are microseconds since the Unix
//! epoch; amounts of storage are bytes.
use vstd::prelude::*;

verus! {

/// The id of a node of the file tree.
pub type NodeId = u128;
/// The id of a user.
pub type UserId = u128;
/// The id of a file revision; chunks of a revision are stored under it.
pub type RevisionId = u128;
/// The id of a share.
pub type ShareId = u128;
/// The index of a chunk within a revision.
pub type ChunkIndex = i64;

/// The nil id, which no node has.
pub const NIL_ID: u128 = 0;

/// The kind of a node.
#[derive(Clone, Copy, Debug, PartialEq, Eq, Structural)]
pub enum NodeType {
    Folder,
    File,
    Link,
}

/// Metadata encrypted by the client, with the IV it was encrypted with.
pub struct EncryptedMetadata {
    pub data: Vec<u8>,
    pub iv: [u8; 12],
}

/// How metadata is stored: the 12 bytes of the IV, then the encrypted data.
pub open spec fn metadata_bytes(iv: Seq<u8>, data: Seq<u8>) -> Seq<u8> {
    iv + data
}

/// The IV and the data that stored bytes hold, or `None` for a blob too short to
/// hold an IV.
pub open spec fn metadata_parts(blob: Seq<u8>) -> Option<(Seq<u8>, Seq<u8>)> {
    if blob.len() < 12 {
        None
    } else {
        Some((blob.subrange(0, 12), blob.subrange(12, blob.len() as int)))
    }
}

impl EncryptedMetadata {
    /// The bytes the metadata is stored as: the IV, then the encrypted data.
    pub fn to_bytes(&self) -> (bytes: Vec<u8>)
        ensures
            bytes@ == metadata_bytes(self.iv@, self.data@),
    {
        let mut bytes: Vec<u8> = Vec::new();
        let mut i: usize = 0;
        while i < 12
            invariant
                i <= 12,
                bytes@ == self.iv@.subrange(0, i as int),
            decreases 12 - i,
        {
            bytes.push(self.iv[i]);
            i = i + 1;
            assert(bytes@ =~= self.iv@.subrange(0, i as int));
        }
        let mut j: usize = 0;
        while j < self.data.len()
            invariant
                j <= self.data@.len(),
                bytes@ == self.iv@ + self.data@.subrange(0, j as int),
            decreases self.data.len() - j,
        {
            bytes.push(self.data[j]);
            j = j + 1;
            assert(bytes@ =~= self.iv@ + self.data@.subrange(0, j as int));
        }
        assert(self.data@.subrange(0, j as int) =~= self.data@);
        bytes
    }

    /// Reads stored metadata back: the first 12 bytes are the IV and the rest is the
    /// data. A blob shorter than an IV cannot be read.
    pub fn from_bytes(blob: &[u8]) -> (metadata: Option<EncryptedMetadata>)
        ensures
            match metadata {
                Some(m) => metadata_parts(blob@) == Some((m.iv@, m.data@)),
                None => metadata_parts(blob@) is None,
            },
    {
        if blob.len() < 12 {
            return None;
        }
        let mut iv = [0u8; 12];
        let mut i: usize = 0;
        while i < 12
            invariant
                i <= 12,
                blob@.len() >= 12,
                forall|k: int| 0 <= k < i ==> iv@[k] == blob@[k],
            decreases 12 - i,
        {
            iv[i] = blob[i];
            i = i + 1;
        }
        let mut data: Vec<u8> = Vec::new();
        let mut j: usize = 12;
        while j < blob.len()
            invariant
                12 <= j <= blob@.len(),
                data@ == blob@.subrange(12, j as int),
            decreases blob.len() - j,
        {
            data.push(blob[j]);
            j = j + 1;
            assert(data@ =~= blob@.subrange(12, j as int));
        }
        assert(iv@ =~= blob@.subrange(0, 12));
        Some(EncryptedMetadata { data, iv })
    }

    /// Metadata whose encryption the client has not initialised yet.
    pub fn nil() -> (metadata: EncryptedMetadata)
        ensures
            metadata.data@ == Seq::<u8>::empty(),
            metadata.iv@ == seq![0u8; 12],
    {
        let metadata = EncryptedMetadata { data: Vec::new(), iv: [0u8; 12] };
        assert(metadata.iv@ =~= seq![0u8; 12]);
        metadata
    }

    /// A copy of the metadata.
    pub fn duplicate(&self) -> (copy: EncryptedMetadata)
        ensures
            copy.data@ == self.data@,
            copy.iv@ == self.iv@,
    {
        EncryptedMetadata { data: self.data.clone(), iv: self.iv }
    }
}

/// A node of the file tree: a folder, a file or a link.
pub struct NodeEntity {
    pub id: NodeId,
    /// The folder that holds the node; root and trash nodes have none.
    pub parent_id: Option<NodeId>,
    pub owner_id: UserId,
    /// The metadata encrypted by the client: name, keys of the children's metadata and
    /// further attributes.
    pub metadata: EncryptedMetadata,
    /// When the node was moved to the trash; `None` for a node that is not deleted.
    pub deleted_on: Option<i64>,
    /// How often the metadata changed. A client's change is accepted only when it
    /// names the current count, so that concurrent changes are not lost.
    pub metadata_change_counter: i64,
    /// The active revision of a file; `None` for other nodes.
    pub current_revision: Option<RevisionId>,
    pub node_type: NodeType,
}

/// A revision of a file: one upload of its contents in chunks.
#[derive(Clone, Copy)]
pub struct RevisionEntity {
    pub id: RevisionId,
    /// The file node the revision belongs to.
    pub file_id: NodeId,
    /// When the upload started.
    pub upload_started_on: i64,
    /// When all chunks were on the server; `None` while the upload is open.
    pub upload_ended_on: Option<i64>,
    /// The IV prefix the file was encrypted with.
    pub iv: [u8; 12],
    /// The number of chunks the client announced.
    pub chunk_count: ChunkIndex,
}

/// A share of a node with another user.
pub struct ShareEntity {
    pub id: ShareId,
    pub node_id: NodeId,
    pub shared_by: UserId,
    /// The user that accepted the share, once one has.
    pub accepted_by: Option<UserId>,
    pub time_shared: i64,
    pub time_accepted: Option<i64>,
    /// The node's metadata key, wrapped for the share link; removed on acceptance.
    pub shared_encryption_key: Option<Vec<u8>>,
    /// The node's metadata key, wrapped by the accepting user.
    pub accepted_encryption_key: Option<Vec<u8>>,
}

/// The key material a user keeps on the server, all encrypted by the client.
pub struct UserKeys {
    pub public_key: Vec<u8>,
    pub private_key: Vec<u8>,
    pub master_key: Vec<u8>,
    pub root_key: Vec<u8>,
    pub trash_key: Vec<u8>,
}

/// A user account.
pub struct UserEntity {
    pub id: UserId,
    pub username: String,
    /// Bytes of file contents the user stores.
    pub storage_used: u64,
    /// Bytes the user may store.
    pub storage_limit: u64,
    /// Whether the client has not yet set up the user's keys.
    pub encryption_uninitialized: bool,
    pub keys: UserKeys,
    pub root_node: Option<NodeId>,
    pub trash_node: Option<NodeId>,
}

/// A revision as clients see it.
#[derive(Clone, Copy)]
pub struct FileRevision {
    pub id: RevisionId,
    pub upload_ended_on: Option<i64>,
    pub upload_started_on: i64,
    pub iv: [u8; 12],
    pub chunk_count: ChunkIndex,
}

/// A node as clients see it.
pub struct EncryptedNode {
    pub id: NodeId,
    pub change_count: i64,
    pub parent_id: Option<NodeId>,
    pub owner_id: UserId,
    pub deleted_on: Option<i64>,
    pub node_type: NodeType,
    pub current_revision: Option<FileRevision>,
    pub encrypted_metadata: EncryptedMetadata,
}

/// Stored metadata reads back as the metadata that was stored, and metadata that
/// was read back is stored as the bytes it was read from.
pub proof fn lemma_metadata_round_trip(iv: Seq<u8>, data: Seq<u8>, blob: Seq<u8>)
    requires
        iv.len() == 12,
    ensures
        metadata_parts(metadata_bytes(iv, data)) == Some((iv, data)),
        metadata_parts(blob) matches Some((stored_iv, stored_data)) ==> metadata_bytes(stored_iv, stored_data)
            == blob,
{
    assert(metadata_bytes(iv, data).subrange(0, 12) =~= iv);
    assert(metadata_bytes(iv, data).subrange(12, metadata_bytes(iv, data).len() as int) =~= data);
    if blob.len() >= 12 {
        assert(metadata_bytes(blob.subrange(0, 12), blob.subrange(12, blob.len() as int)) =~= blob);
    }
}

/// The client's view of a revision.
pub open spec fn revision_view(revision: RevisionEntity) -> FileRevision {
    FileRevision {
        id: revision.id,
        upload_ended_on: revision.upload_ended_on,
        upload_started_on: revision.upload_started_on,
        iv: revision.iv,
        chunk_count: revision.chunk_count,
    }
}

/// The client's view of a revision.
pub fn entity_to_file_revision(revision: RevisionEntity) -> (view: FileRevision)
    ensures
        view == revision_view(revision),
        view.id == revision.id,
        view.upload_started_on == revision.upload_started_on,
        view.upload_ended_on == revision.upload_ended_on,
        view.iv == revision.iv,
        view.chunk_count == revision.chunk_count,
{
    FileRevision {
        id: revision.id,
        upload_ended_on: revision.upload_ended_on,
        upload_started_on: revision.upload_started_on,
        iv: revision.iv,
        chunk_count: revision.chunk_count,
    }
}

/// The client's view of a node, given its active revision when it has one.
pub open spec fn node_view(node: NodeEntity, revision: Option<RevisionEntity>) -> EncryptedNode {
    EncryptedNode {
        id: node.id,
        change_count: node.metadata_change_counter,
        parent_id: node.parent_id,
        owner_id: node.owner_id,
        deleted_on: node.deleted_on,
        node_type: node.node_type,
        current_revision: match revision {
            Some(r) => Some(revision_view(r)),
            None => None,
        },
        encrypted_metadata: node.metadata,
    }
}

/// The client's view of a node. When the node names an active revision, that
/// revision must have been found (the records are inconsistent otherwise).
pub fn entity_to_encrypted_node(node: NodeEntity, revision: Option<RevisionEntity>) -> (view: EncryptedNode)
    requires
        node.current_revision is Some ==> revision is Some,
    ensures
        view == node_view(node, if node.current_revision is Some { revision } else { None }),
        view.id == node.id,
        view.parent_id == node.parent_id,
        view.owner_id == node.owner_id,
        view.deleted_on == node.deleted_on,
        view.change_count == node.metadata_change_counter,
        view.node_type == node.node_type,
        view.encrypted_metadata == node.metadata,
        view.current_revision is Some <==> node.current_revision is Some,
        view.current_revision matches Some(r) ==> {
            let stored = revision->0;
            &&& r.id == stored.id
            &&& r.upload_started_on == stored.upload_started_on
            &&& r.upload_ended_on == stored.upload_ended_on
            &&& r.iv == stored.iv
            &&& r.chunk_count == stored.chunk_count
        },
{
    let current_revision = match node.current_revision {
        Some(_) => match revision {
            Some(r) => Some(entity_to_file_revision(r)),
            None => None,
        },
        None => None,
    };
    EncryptedNode {
        id: node.id,
        change_count: node.metadata_change_counter,
        parent_id: node.parent_id,
        owner_id: node.owner_id,
        deleted_on: node.deleted_on,
        node_type: node.node_type,
        current_revision,
        encrypted_metadata: node.metadata,
    }
}


/// The client's view of a revision keeps every field of the revision, so a revision
/// is shown as committed exactly when it is, and two revisions with the same view are
/// the same revision.
pub proof fn lemma_revision_view_keeps_fields(revision: RevisionEntity, other: RevisionEntity)
    ensures
        revision_view(revision).id == revision.id,
        revision_view(revision).upload_started_on == revision.upload_started_on,
        revision_view(revision).upload_ended_on == revision.upload_ended_on,
        revision_view(revision).iv == revision.iv,
        revision_view(revision).chunk_count == revision.chunk_count,
        revision_view(revision).upload_ended_on is Some <==> revision.upload_ended_on is Some,
        revision_view(revision) == revision_view(other) ==> (revision.id == other.id && revision.upload_ended_on
            == other.upload_ended_on && revision.upload_started_on == other.upload_started_on),
{
}

/// The client's view of a node keeps every field of the stored node: a node in the
/// trash is shown in the trash, with its id, parent, owner, change count, type and
/// encrypted metadata unchanged; it carries the active revision exactly when the node
/// names one, shown as that revision.
pub proof fn lemma_node_view_keeps_fields(node: NodeEntity, revision: Option<RevisionEntity>)
    ensures
        node_view(node, revision).id == node.id,
        node_view(node, revision).parent_id == node.parent_id,
        node_view(node, revision).owner_id == node.owner_id,
        node_view(node, revision).deleted_on == node.deleted_on,
        node_view(node, revision).deleted_on is Some <==> node.deleted_on is Some,
        node_view(node, revision).change_count == node.metadata_change_counter,
        node_view(node, revision).node_type == node.node_type,
        node_view(node, revision).encrypted_metadata == node.metadata,
        node_view(node, revision).current_revision is Some <==> revision is Some,
        revision matches Some(r) ==> node_view(node, revision).current_revision == Some(revision_view(r)),
{
}

} // verus!
