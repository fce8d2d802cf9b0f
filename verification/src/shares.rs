//! Decisions of the requests that share nodes with other users and accept shares.
use vstd::prelude::*;
use crate::model::{NodeEntity, NodeId, ShareEntity, ShareId, UserId};
use crate::reply::{rejected_with, Refusal};
use vstd::string::StringExecFns;

verus! {

/// A node shared by `user`, when it exists, belongs to the user, is no root node and
/// is not in the trash; the share carries the node's metadata key wrapped for the
/// link and waits to be accepted. A missing node is not found; the other cases are
/// rejected with a message.
pub fn share_node(
    node: Option<NodeEntity>,
    user: UserId,
    wrapped_metadata_key: Vec<u8>,
    share_id: ShareId,
    now: i64,
) -> (share: Result<ShareEntity, Refusal>)
    ensures
        match share {
            Ok(s) => node matches Some(n) && n.owner_id == user && n.parent_id is Some
                && n.deleted_on is None && s == (ShareEntity {
                id: share_id,
                node_id: n.id,
                shared_by: user,
                accepted_by: None,
                time_shared: now,
                time_accepted: None,
                shared_encryption_key: Some(wrapped_metadata_key),
                accepted_encryption_key: None,
            }),
            Err(r) => match node {
                None => r is NotFound,
                Some(n) => {
                    ||| (n.owner_id != user && rejected_with(r, "cannot share a file that you do not own"@))
                    ||| (n.owner_id == user && n.parent_id is None && rejected_with(r, "Cannot share a root node"@))
                    ||| (n.owner_id == user && n.parent_id is Some && n.deleted_on is Some && rejected_with(
                        r,
                        "Cannot share a node that is in the trash"@,
                    ))
                },
            },
        },
{
    let n = match node {
        None => return Err(Refusal::NotFound),
        Some(n) => n,
    };
    if n.owner_id != user {
        return Err(Refusal::Rejected(String::from_str("cannot share a file that you do not own")));
    }
    if n.parent_id.is_none() {
        return Err(Refusal::Rejected(String::from_str("Cannot share a root node")));
    }
    if n.deleted_on.is_some() {
        return Err(Refusal::Rejected(String::from_str("Cannot share a node that is in the trash")));
    }
    Ok(new_share(share_id, n.id, user, wrapped_metadata_key, now))
}

/// A new share of a node, waiting to be accepted, that carries the node's metadata
/// key wrapped for the share link.
pub fn new_share(id: ShareId, node_id: NodeId, shared_by: UserId, key: Vec<u8>, now: i64) -> (share: ShareEntity)
    ensures
        share == (ShareEntity {
            id,
            node_id,
            shared_by,
            accepted_by: None,
            time_shared: now,
            time_accepted: None,
            shared_encryption_key: Some(key),
            accepted_encryption_key: None,
        }),
{
    ShareEntity {
        id,
        node_id,
        shared_by,
        accepted_by: None,
        time_shared: now,
        time_accepted: None,
        shared_encryption_key: Some(key),
        accepted_encryption_key: None,
    }
}


/// The node and wrapped key a user needs to accept a share, when the share exists and
/// has not been accepted yet; not found otherwise. A share that waits for acceptance
/// always holds its wrapped key.
pub fn accept_share_info(share: Option<ShareEntity>) -> (info: Result<(NodeId, Vec<u8>), Refusal>)
    requires
        share matches Some(s) ==> (s.accepted_by is None ==> s.shared_encryption_key is Some),
    ensures
        match info {
            Ok((node, key)) => share is Some && share->0.accepted_by is None && node == share->0.node_id
                && share->0.shared_encryption_key == Some(key),
            Err(r) => r is NotFound && (share is None || share->0.accepted_by is Some),
        },
{
    match share {
        None => Err(Refusal::NotFound),
        Some(s) => {
            if s.accepted_by.is_some() {
                return Err(Refusal::NotFound);
            }
            match s.shared_encryption_key {
                Some(key) => Ok((s.node_id, key)),
                None => Err(Refusal::NotFound),
            }
        },
    }
}

/// The key a user accepted a share of a node with, when the user may access the node
/// and accepted a share of it that holds the key; not found otherwise.
pub fn node_share_key(has_access: bool, share: Option<ShareEntity>) -> (key: Result<Vec<u8>, Refusal>)
    ensures
        match key {
            Ok(k) => has_access && share is Some && share->0.accepted_encryption_key == Some(k),
            Err(r) => r is NotFound && (!has_access || share is None
                || share->0.accepted_encryption_key is None),
        },
{
    if !has_access {
        return Err(Refusal::NotFound);
    }
    match share {
        None => Err(Refusal::NotFound),
        Some(s) => match s.accepted_encryption_key {
            Some(k) => Ok(k),
            None => Err(Refusal::NotFound),
        },
    }
}

/// Whether a user may accept a share: not when the node is accessible to the user
/// already (rejected), and not when someone accepted the share before (not found).
pub fn check_accept(share: &ShareEntity, already_accessible: bool) -> (allowed: Result<(), Refusal>)
    ensures
        allowed is Ok <==> (!already_accessible && share.accepted_by is None),
        allowed matches Err(r) ==> (already_accessible && rejected_with(r, "share is already accessible"@))
            || (!already_accessible && r is NotFound),
{
    if already_accessible {
        return Err(Refusal::Rejected(String::from_str("share is already accessible")));
    }
    if share.accepted_by.is_some() {
        return Err(Refusal::NotFound);
    }
    Ok(())
}

/// A share accepted by `user` at `now` with the key the user wrapped; the key wrapped
/// for the link is no longer needed and is dropped.
pub fn accept_share(share: ShareEntity, user: UserId, now: i64, new_wrapped_metadata_key: Vec<u8>) -> (accepted: ShareEntity)
    ensures
        accepted == (ShareEntity {
            accepted_by: Some(user),
            time_accepted: Some(now),
            accepted_encryption_key: Some(new_wrapped_metadata_key),
            shared_encryption_key: None,
            ..share
        }),
{
    ShareEntity {
        accepted_by: Some(user),
        time_accepted: Some(now),
        accepted_encryption_key: Some(new_wrapped_metadata_key),
        shared_encryption_key: None,
        ..share
    }
}

/// The key a user accepted a share with; an accepted share always holds it.
pub fn accepted_share_key(share: &ShareEntity) -> (key: Vec<u8>)
    requires
        share.accepted_encryption_key is Some,
    ensures
        key@ == share.accepted_encryption_key->0@,
{
    match &share.accepted_encryption_key {
        Some(k) => k.clone(),
        None => Vec::new(),
    }
}

} // verus!
