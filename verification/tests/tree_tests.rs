use crabdrive_server::access::{access_list_users, has_access, path_for_owner, path_if_connected, path_step, PathStep};
use crabdrive_server::model::{EncryptedMetadata, NodeEntity, NodeType, RevisionEntity, ShareEntity};
use crabdrive_server::purge::{parent_metadata_to_store, PurgeAction, PurgeWalk};
use crabdrive_server::revision::revision_history;

fn node(id: u128, parent: Option<u128>, owner: u128, deleted: bool) -> NodeEntity {
    NodeEntity {
        id,
        parent_id: parent,
        owner_id: owner,
        metadata: EncryptedMetadata { data: vec![id as u8], iv: [1; 12] },
        deleted_on: if deleted { Some(1_000) } else { None },
        metadata_change_counter: 0,
        current_revision: None,
        node_type: NodeType::Folder,
    }
}

fn share(node_id: u128, accepted_by: Option<u128>) -> ShareEntity {
    ShareEntity {
        id: 900 + node_id,
        node_id,
        shared_by: 1,
        accepted_by,
        time_shared: 0,
        time_accepted: None,
        shared_encryption_key: None,
        accepted_encryption_key: None,
    }
}

#[test]
fn owners_and_shares_grant_access() {
    let root = node(10, None, 1, false);
    let folder = node(11, Some(10), 1, false);
    let file = node(12, Some(11), 1, false);
    let path = vec![root, folder, node(12, Some(11), 1, false)];
    assert!(has_access(&Some(file), 1, &vec![], &vec![]));
    let file = node(12, Some(11), 1, false);
    assert!(!has_access(&Some(node(12, Some(11), 1, false)), 2, &path, &vec![]));
    assert!(has_access(&Some(file), 2, &path, &vec![share(11, Some(2))]));
    assert!(!has_access(&None, 1, &path, &vec![share(11, Some(1))]));
}

#[test]
fn trash_hides_shared_nodes() {
    let path = vec![node(10, None, 1, false), node(11, Some(10), 1, true), node(12, Some(11), 1, false)];
    assert!(!has_access(&Some(node(12, Some(11), 1, false)), 2, &path, &vec![share(10, Some(2))]));
    let path = vec![node(10, None, 1, false), node(11, Some(10), 1, true), node(12, Some(11), 1, false)];
    assert!(has_access(&Some(node(12, Some(11), 1, false)), 2, &path, &vec![share(12, Some(2))]));
}

#[test]
fn access_lists() {
    let shares = vec![share(5, Some(3)), share(5, None), share(5, Some(4))];
    assert_eq!(access_list_users(1, &shares), vec![1, 3, 4]);
    assert_eq!(access_list_users(1, &vec![]), vec![1]);
}

#[test]
fn paths_between_nodes() {
    let path = vec![node(10, None, 1, false), node(11, Some(10), 1, false)];
    assert!(path_if_connected(path, 10).is_some());
    let path = vec![node(10, None, 1, false), node(11, Some(10), 1, false)];
    assert!(path_if_connected(path, 99).is_none());
    assert!(matches!(path_step(&node(11, Some(10), 1, false), 11), PathStep::Reached));
    assert!(matches!(path_step(&node(11, Some(10), 1, false), 5), PathStep::Parent(10)));
    assert!(matches!(path_step(&node(10, None, 1, false), 5), PathStep::NoPath));
    let walked = vec![node(12, Some(11), 1, false), node(11, Some(10), 1, false), node(10, None, 1, false)];
    let ordered = path_for_owner(walked, 1).ok().unwrap();
    assert_eq!(ordered.iter().map(|n| n.id).collect::<Vec<_>>(), vec![10, 11, 12]);
    let walked = vec![node(12, Some(11), 2, false), node(10, None, 1, false)];
    assert!(path_for_owner(walked, 1).is_err());
}

fn revision(id: u128, ended: Option<i64>) -> RevisionEntity {
    RevisionEntity { id, file_id: 1, upload_started_on: 0, upload_ended_on: ended, iv: [0; 12], chunk_count: 1 }
}

#[test]
fn revision_history_is_newest_first() {
    let revisions = vec![
        revision(1, Some(10)),
        revision(2, None),
        revision(3, Some(30)),
        revision(4, Some(10)),
        revision(5, Some(20)),
    ];
    let history = revision_history(revisions);
    assert_eq!(history.iter().map(|r| r.id).collect::<Vec<_>>(), vec![3, 5, 1, 4]);
    assert!(revision_history(vec![revision(9, None)]).is_empty());
}

#[test]
fn purge_walks_children_first() {
    // 1 has children 2 and 3; 2 has child 4.
    let (mut walk, mut action) = PurgeWalk::start(1);
    let mut deleted = vec![];
    loop {
        action = match action {
            PurgeAction::FetchChildren(id) => {
                let children = match id {
                    1 => vec![2, 3],
                    2 => vec![4],
                    _ => vec![],
                };
                walk.children_fetched(children)
            }
            PurgeAction::Delete(id) => {
                deleted.push(id);
                walk.node_deleted()
            }
            PurgeAction::Done => break,
        };
    }
    assert_eq!(deleted, vec![4, 2, 3, 1]);
}

#[test]
fn deleted_node_metadata() {
    let parent = node(10, None, 1, false);
    let child = node(11, Some(10), 1, false);
    assert_eq!(parent_metadata_to_store(&child, Some(&parent)).data, vec![10u8]);
    assert_eq!(parent_metadata_to_store(&parent, None).data, vec![10u8]);
}
