use crabdrive_server::access::{PathAction, PathRefusal, PathWalk};
use crabdrive_server::auth::claims_from;
use crabdrive_server::files::new_folder_parent;
use crabdrive_server::model::{EncryptedMetadata, NodeEntity, NodeType};
use crabdrive_server::reply::Refusal;

fn node(id: u128, parent: Option<u128>, owner: u128, counter: i64, node_type: NodeType) -> NodeEntity {
    NodeEntity {
        id,
        parent_id: parent,
        owner_id: owner,
        metadata: EncryptedMetadata { data: vec![7], iv: [7; 12] },
        deleted_on: None,
        metadata_change_counter: counter,
        current_revision: None,
        node_type,
    }
}

#[test]
fn folder_parent_checks_in_order() {
    assert!(matches!(new_folder_parent(None, true, 0), Err(Refusal::NotFound)));
    // without access, even a file parent with the wrong count is not found
    assert!(matches!(new_folder_parent(Some(node(1, None, 9, 5, NodeType::File)), false, 0), Err(Refusal::NotFound)));
    assert!(matches!(new_folder_parent(Some(node(1, None, 9, 5, NodeType::File)), true, 0), Err(Refusal::BadRequest)));
    assert!(matches!(new_folder_parent(Some(node(1, None, 9, 5, NodeType::Folder)), true, 0), Err(Refusal::Conflict)));
    let parent = new_folder_parent(Some(node(1, None, 9, 5, NodeType::Folder)), true, 5).unwrap();
    assert_eq!(parent.id, 1);
}

#[test]
fn path_walk_runs_down_from_from_to_to() {
    // 1 is the root, 2 below it, 3 below 2
    let (mut walk, mut action) = PathWalk::start(Some(node(3, Some(2), 9, 0, NodeType::Folder)), 3, 1);
    assert_eq!(action, PathAction::LookupParent(2));
    action = walk.parent_found(node(2, Some(1), 9, 0, NodeType::Folder));
    assert_eq!(action, PathAction::LookupParent(1));
    action = walk.parent_found(node(1, None, 9, 0, NodeType::Folder));
    assert_eq!(action, PathAction::Finish);
    let path = walk.finish(9).unwrap();
    let ids: Vec<u128> = path.iter().map(|n| n.id).collect();
    assert_eq!(ids, vec![1, 2, 3]);
}

#[test]
fn path_walk_refusals() {
    let (_, action) = PathWalk::start(None, 3, 1);
    assert_eq!(action, PathAction::Refuse(PathRefusal::NotFound));
    // from is not above to
    let (mut walk, _) = PathWalk::start(Some(node(3, Some(2), 9, 0, NodeType::Folder)), 3, 7);
    let action = walk.parent_found(node(2, None, 9, 0, NodeType::Folder));
    assert_eq!(action, PathAction::Refuse(PathRefusal::NoContent));
    // the user owns only one end
    let (mut walk, _) = PathWalk::start(Some(node(3, Some(2), 9, 0, NodeType::Folder)), 3, 2);
    assert_eq!(walk.parent_found(node(2, None, 8, 0, NodeType::Folder)), PathAction::Finish);
    assert!(matches!(walk.finish(9), Err(Refusal::NotFound)));
    // a walk that starts at from is finished at once
    let (walk, action) = PathWalk::start(Some(node(4, None, 9, 0, NodeType::Folder)), 4, 4);
    assert_eq!(action, PathAction::Finish);
    assert_eq!(walk.finish(9).unwrap().len(), 1);
}

#[test]
fn claims_of_decoded_tokens() {
    let claims = claims_from(Ok(("01234567-89ab-cdef-0123-456789abcdef".to_string(), 99))).unwrap();
    assert_eq!(claims.user_id, 0x0123_4567_89ab_cdef_0123_4567_89ab_cdef);
    assert_eq!(claims.exp, 99);
    assert_eq!(claims_from(Ok(("not an id".to_string(), 99))).err(), Some(false));
    assert_eq!(claims_from(Err(true)).err(), Some(true));
    assert_eq!(claims_from(Err(false)).err(), Some(false));
}
