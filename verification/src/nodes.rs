//! Decisions of the requests on nodes of the file tree: reading, renaming, moving,
//! moving into and out of the trash, and purging.
//!
//! Each request looks nodes up one after the other; the functions here decide, after
//! each lookup, whether the request goes on or how it is refused.
use vstd::prelude::*;
use crate::model::{EncryptedMetadata, NodeEntity, NodeId, NodeType, RevisionId, UserEntity, UserId, NIL_ID};
use crate::reply::{DatabaseError, Refusal};

verus! {

/// The outcome of looking a node up in the database.
pub type Lookup = Result<Option<NodeEntity>, DatabaseError>;

/// Whether the node exists and the user owns it.
pub open spec fn owned_by(node: Option<NodeEntity>, user: UserId) -> bool {
    node matches Some(n) && n.owner_id == user
}

/// The node, when it exists and the user owns it; refused as not found otherwise,
/// so that others cannot tell whether it exists.
pub fn require_owned(node: Option<NodeEntity>, user: UserId) -> (owned: Result<NodeEntity, Refusal>)
    ensures
        match owned {
            Ok(n) => node == Some(n) && n.owner_id == user,
            Err(r) => r is NotFound && !owned_by(node, user),
        },
{
    match node {
        Some(n) => {
            if n.owner_id == user {
                Ok(n)
            } else {
                Err(Refusal::NotFound)
            }
        },
        None => Err(Refusal::NotFound),
    }
}

/// The node, when it exists; refused as not found otherwise.
pub fn require_found(node: Option<NodeEntity>) -> (found: Result<NodeEntity, Refusal>)
    ensures
        match found {
            Ok(n) => node == Some(n),
            Err(r) => r is NotFound && node is None,
        },
{
    match node {
        Some(n) => Ok(n),
        None => Err(Refusal::NotFound),
    }
}

/// The node with new metadata, when the user owns it and names its current change
/// count; refused as not found for others and as a conflict when the count differs
/// (someone else changed it first). The change count itself is raised by the
/// database when the node is stored.
pub fn patch_node(
    node: Option<NodeEntity>,
    user: UserId,
    node_change_count: i64,
    node_metadata: EncryptedMetadata,
) -> (patched: Result<NodeEntity, Refusal>)
    ensures
        match patched {
            Ok(p) => node matches Some(n) && n.owner_id == user && n.metadata_change_counter
                == node_change_count && p == (NodeEntity { metadata: node_metadata, ..n }),
            Err(r) => (r is NotFound && !owned_by(node, user)) || (r is Conflict && owned_by(node, user)
                && node->0.metadata_change_counter != node_change_count),
        },
{
    let n = require_owned(node, user)?;
    if n.metadata_change_counter != node_change_count {
        return Err(Refusal::Conflict);
    }
    Ok(NodeEntity { metadata: node_metadata, ..n })
}

/// The old and the new parent of a node that is moved, when both exist and the
/// user owns both; refused as not found otherwise. The node itself has been checked
/// and has a parent.
pub fn move_node_targets(
    node: &NodeEntity,
    to_node: Option<NodeEntity>,
    from_node: Option<NodeEntity>,
    user: UserId,
) -> (targets: Result<(NodeId, NodeId), Refusal>)
    requires
        node.parent_id is Some,
    ensures
        match targets {
            Ok((from, to)) => owned_by(from_node, user) && owned_by(to_node, user) && from
                == from_node->0.id && to == to_node->0.id,
            Err(r) => r is NotFound && !(owned_by(from_node, user) && owned_by(to_node, user)),
        },
{
    match (to_node, from_node) {
        (Some(to), Some(from)) => {
            if to.owner_id != user || from.owner_id != user {
                Err(Refusal::NotFound)
            } else {
                Ok((from.id, to.id))
            }
        },
        _ => Err(Refusal::NotFound),
    }
}

/// The node a node is moved into the trash from: its parent, or the node itself
/// when it has none. Refused when the lookup failed, and as not found when the node
/// does not exist or the user does not own it.
pub fn trash_source(node: Lookup, user: UserId) -> (from: Result<NodeId, Refusal>)
    ensures
        match from {
            Ok(id) => node matches Ok(Some(n)) && n.owner_id == user && id == match n.parent_id {
                Some(p) => p,
                None => n.id,
            },
            Err(r) => match node {
                Err(_) => r is DatabaseError,
                Ok(found) => r is NotFound && !owned_by(found, user),
            },
        },
{
    match node {
        Err(_) => Err(Refusal::DatabaseError),
        Ok(found) => {
            let n = require_owned(found, user)?;
            match n.parent_id {
                Some(p) => Ok(p),
                None => Ok(n.id),
            }
        },
    }
}

/// A node whose change count the client named, when the lookup found it with that
/// count. Refused when the lookup failed, as not found when it found nothing, and as
/// a conflict when the count differs.
pub fn require_change_count(node: Lookup, expected: i64) -> (checked: Result<NodeEntity, Refusal>)
    ensures
        match checked {
            Ok(n) => node == Lookup::Ok(Some(n)) && n.metadata_change_counter == expected,
            Err(r) => match node {
                Err(_) => r is DatabaseError,
                Ok(None) => r is NotFound,
                Ok(Some(n)) => r is Conflict && n.metadata_change_counter != expected,
            },
        },
{
    match node {
        Err(_) => Err(Refusal::DatabaseError),
        Ok(None) => Err(Refusal::NotFound),
        Ok(Some(n)) => {
            if n.metadata_change_counter != expected {
                Err(Refusal::Conflict)
            } else {
                Ok(n)
            }
        },
    }
}

/// The user's trash node; refused as not found when the user has none.
pub fn trash_of(user: &UserEntity) -> (trash: Result<NodeId, Refusal>)
    ensures
        match trash {
            Ok(id) => user.trash_node == Some(id),
            Err(r) => r is NotFound && user.trash_node is None,
        },
{
    match user.trash_node {
        Some(id) => Ok(id),
        None => Err(Refusal::NotFound),
    }
}

/// The outcome of a move in the database: a failed move is refused as a database
/// error.
pub fn moved(result: Result<(), DatabaseError>) -> (outcome: Result<(), Refusal>)
    ensures
        outcome is Ok <==> result is Ok,
        outcome matches Err(r) ==> r is DatabaseError,
{
    match result {
        Ok(()) => Ok(()),
        Err(_) => Err(Refusal::DatabaseError),
    }
}

/// A node that is moved out of the trash, when the lookup found it, the user owns it
/// and it is in the trash. Refused when the lookup failed, as not found when it does
/// not exist or belongs to someone else, and as a conflict when it is not in the
/// trash.
pub fn restore_source(node: Lookup, user: UserId) -> (restored: Result<NodeEntity, Refusal>)
    ensures
        match restored {
            Ok(n) => node == Lookup::Ok(Some(n)) && n.owner_id == user && n.deleted_on is Some,
            Err(r) => match node {
                Err(_) => r is DatabaseError,
                Ok(found) => (r is NotFound && !owned_by(found, user)) || (r is Conflict && owned_by(
                    found,
                    user,
                ) && found->0.deleted_on is None),
            },
        },
{
    match node {
        Err(_) => Err(Refusal::DatabaseError),
        Ok(found) => {
            let n = require_owned(found, user)?;
            if n.deleted_on.is_none() {
                return Err(Refusal::Conflict);
            }
            Ok(n)
        },
    }
}

/// Whether a subtree may be purged: the node must exist, belong to the user and be
/// in the trash. A failed lookup is a database error; a missing node is not found; a
/// node of someone else is forbidden; a node outside the trash is a bad request.
pub fn purge_check(node: Lookup, user: UserId) -> (allowed: Result<(), Refusal>)
    ensures
        match allowed {
            Ok(()) => node matches Ok(Some(n)) && n.owner_id == user && n.deleted_on is Some,
            Err(r) => match node {
                Err(_) => r is DatabaseError,
                Ok(None) => r is NotFound,
                Ok(Some(n)) => (r is Forbidden && n.owner_id != user) || (r is BadRequest && n.owner_id
                    == user && n.deleted_on is None),
            },
        },
{
    match node {
        Err(_) => Err(Refusal::DatabaseError),
        Ok(None) => Err(Refusal::NotFound),
        Ok(Some(n)) => {
            if n.owner_id != user {
                Err(Refusal::Forbidden)
            } else if n.deleted_on.is_none() {
                Err(Refusal::BadRequest)
            } else {
                Ok(())
            }
        },
    }
}

/// The age of the nodes to remove when the trash is emptied: a negative age is a
/// bad request.
pub fn check_trash_age(older_than_days: i64) -> (allowed: Result<(), Refusal>)
    ensures
        allowed is Ok <==> older_than_days >= 0,
        allowed matches Err(r) ==> r is BadRequest,
{
    if older_than_days < 0 {
        Err(Refusal::BadRequest)
    } else {
        Ok(())
    }
}

/// What purging a subtree or emptying the trash removed.
pub struct PurgeStats {
    pub deleted_nodes: usize,
    pub deleted_revisions: usize,
    pub deleted_chunks: usize,
}

/// How many of the chunk deletions succeeded.
pub open spec fn successes(deletions: Seq<bool>) -> nat
    decreases deletions.len(),
{
    if deletions.len() == 0 {
        0
    } else {
        successes(deletions.drop_last()) + if deletions.last() { 1nat } else { 0nat }
    }
}

/// The statistics of a purge: the nodes and revisions removed, and the chunks whose
/// deletion succeeded.
pub fn purge_stats(deleted_nodes: usize, deleted_revisions: usize, chunk_deletions: &Vec<bool>) -> (stats: PurgeStats)
    ensures
        stats.deleted_nodes == deleted_nodes,
        stats.deleted_revisions == deleted_revisions,
        stats.deleted_chunks == successes(chunk_deletions@),
{
    let mut count: usize = 0;
    let mut i: usize = 0;
    while i < chunk_deletions.len()
        invariant
            i <= chunk_deletions@.len(),
            count == successes(chunk_deletions@.subrange(0, i as int)),
            count <= i,
        decreases chunk_deletions.len() - i,
    {
        assert(chunk_deletions@.subrange(0, i + 1).drop_last() =~= chunk_deletions@.subrange(0, i as int));
        if chunk_deletions[i] {
            count = count + 1;
        }
        i = i + 1;
    }
    assert(chunk_deletions@.subrange(0, i as int) =~= chunk_deletions@);
    PurgeStats { deleted_nodes, deleted_revisions, deleted_chunks: count }
}

} // verus!
