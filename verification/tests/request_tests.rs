use crabdrive_server::auth::{
    authenticated_user, decode_failure, login_success, login_user, personal_folder, refresh_token,
    refreshed, register_check, with_personal_nodes, AuthError, DEFAULT_STORAGE_LIMIT,
};
use crabdrive_server::files::{
    check_chunk_absent, check_chunk_index, check_chunk_owner, check_new_child_parent,
    check_update_target, chunk_targets, commit, commit_targets, missing_chunks, new_file_node,
    new_revision, owner_after_upload, parent_with_new_child, parent_with_new_file,
    storage_after_upload, storage_outcome, with_revision,
};
use crabdrive_server::model::{
    entity_to_encrypted_node, EncryptedMetadata, NodeEntity, NodeType, RevisionEntity, ShareEntity,
    UserEntity, UserKeys, NIL_ID,
};
use crabdrive_server::nodes::{
    check_trash_age, move_node_targets, moved, patch_node, purge_check, purge_stats,
    require_change_count, require_owned, restore_source, trash_of, trash_source,
};
use crabdrive_server::reply::{bind_failure_hint, client_panic_details, BindFailure, DatabaseError, Refusal};
use crabdrive_server::shares::{accept_share, accept_share_info, check_accept, node_share_key, share_node};
use crabdrive_server::vfs::FileSystemError;

fn metadata(tag: u8) -> EncryptedMetadata {
    EncryptedMetadata { data: vec![tag], iv: [tag; 12] }
}

fn node(id: u128, parent: Option<u128>, owner: u128, counter: i64) -> NodeEntity {
    NodeEntity {
        id,
        parent_id: parent,
        owner_id: owner,
        metadata: metadata(id as u8),
        deleted_on: None,
        metadata_change_counter: counter,
        current_revision: None,
        node_type: NodeType::Folder,
    }
}

fn trashed(mut n: NodeEntity) -> NodeEntity {
    n.deleted_on = Some(77);
    n
}

fn user(id: u128, trash: Option<u128>) -> UserEntity {
    UserEntity {
        id,
        username: format!("user{id}"),
        storage_used: 100,
        storage_limit: 1000,
        encryption_uninitialized: false,
        keys: UserKeys {
            public_key: vec![1],
            private_key: vec![2],
            master_key: vec![3],
            root_key: vec![4],
            trash_key: vec![5],
        },
        root_node: Some(0x4de6ed4b01af4f0fa76a39d62258a3c0),
        trash_node: trash,
    }
}

fn status(r: Result<impl Sized, Refusal>) -> u16 {
    match r {
        Ok(_) => 200,
        Err(e) => e.status_code(),
    }
}

#[test]
fn reading_and_patching_nodes() {
    assert_eq!(status(require_owned(Some(node(1, None, 7, 0)), 7)), 200);
    assert_eq!(status(require_owned(Some(node(1, None, 7, 0)), 8)), 404);
    assert_eq!(status(require_owned(None, 7)), 404);
    let patched = patch_node(Some(node(1, Some(2), 7, 3)), 7, 3, metadata(9)).ok().unwrap();
    assert_eq!(patched.metadata.data, vec![9]);
    assert_eq!(patched.metadata_change_counter, 3);
    assert_eq!(patched.parent_id, Some(2));
    assert_eq!(status(patch_node(Some(node(1, None, 7, 3)), 7, 2, metadata(9))), 409);
    assert_eq!(status(patch_node(Some(node(1, None, 7, 3)), 8, 3, metadata(9))), 404);
}

#[test]
fn moving_nodes() {
    let n = node(1, Some(2), 7, 0);
    assert_eq!(move_node_targets(&n, Some(node(3, None, 7, 0)), Some(node(2, None, 7, 0)), 7).ok(), Some((2, 3)));
    assert_eq!(status(move_node_targets(&n, Some(node(3, None, 8, 0)), Some(node(2, None, 7, 0)), 7)), 404);
    assert_eq!(status(move_node_targets(&n, None, Some(node(2, None, 7, 0)), 7)), 404);
}

#[test]
fn moving_into_the_trash() {
    assert_eq!(trash_source(Ok(Some(node(1, Some(2), 7, 0))), 7).ok(), Some(2));
    assert_eq!(trash_source(Ok(Some(node(1, None, 7, 0))), 7).ok(), Some(1));
    assert_eq!(status(trash_source(Ok(Some(node(1, None, 8, 0))), 7)), 404);
    assert_eq!(status(trash_source(Ok(None), 7)), 404);
    assert_eq!(status(trash_source(Err(DatabaseError), 7)), 500);
    assert_eq!(status(require_change_count(Ok(Some(node(2, None, 7, 4))), 4)), 200);
    assert_eq!(status(require_change_count(Ok(Some(node(2, None, 7, 4))), 5)), 409);
    assert_eq!(status(require_change_count(Ok(None), 5)), 404);
    assert_eq!(status(require_change_count(Err(DatabaseError), 5)), 500);
    assert_eq!(trash_of(&user(7, Some(99))).ok(), Some(99));
    assert_eq!(status(trash_of(&user(7, None))), 404);
    assert!(moved(Ok(())).is_ok());
    assert_eq!(status(moved(Err(DatabaseError))), 500);
}

#[test]
fn moving_out_of_the_trash() {
    assert_eq!(restore_source(Ok(Some(trashed(node(1, Some(2), 7, 0)))), 7).ok().unwrap().id, 1);
    assert_eq!(status(restore_source(Ok(Some(node(1, Some(2), 7, 0))), 7)), 409);
    assert_eq!(status(restore_source(Ok(Some(trashed(node(1, Some(2), 8, 0)))), 7)), 404);
    assert_eq!(status(restore_source(Err(DatabaseError), 7)), 500);
}

#[test]
fn purging() {
    assert!(purge_check(Ok(Some(trashed(node(1, Some(2), 7, 0)))), 7).is_ok());
    assert_eq!(status(purge_check(Ok(Some(trashed(node(1, Some(2), 8, 0)))), 7)), 403);
    assert_eq!(status(purge_check(Ok(Some(node(1, Some(2), 7, 0))), 7)), 400);
    assert_eq!(status(purge_check(Ok(None), 7)), 404);
    assert_eq!(status(purge_check(Err(DatabaseError), 7)), 500);
    assert!(check_trash_age(3).is_ok());
    assert!(check_trash_age(0).is_ok());
    assert_eq!(status(check_trash_age(-1)), 400);
    let stats = purge_stats(3, 2, &vec![true, false, true, true]);
    assert_eq!((stats.deleted_nodes, stats.deleted_revisions, stats.deleted_chunks), (3, 2, 3));
}

#[test]
fn creating_folders_and_files() {
    assert_eq!(status(check_new_child_parent(node(2, None, 7, 5), 5)), 200);
    assert_eq!(status(check_new_child_parent(node(2, None, 7, 5), 4)), 409);
    let mut file = node(2, None, 7, 5);
    file.node_type = NodeType::File;
    assert_eq!(status(check_new_child_parent(file, 5)), 400);
    let parent = parent_with_new_child(node(2, None, 7, 5), metadata(8));
    assert_eq!((parent.metadata.data.clone(), parent.metadata_change_counter), (vec![8], 5));
    let parent = parent_with_new_file(node(2, None, 7, 5), metadata(8));
    assert_eq!(parent.metadata_change_counter, 0);
    let created = new_file_node(2, metadata(3), 30);
    assert_eq!((created.id, created.parent_id, created.owner_id), (30, Some(2), NIL_ID));
    assert_eq!(created.node_type, NodeType::File);
    assert_eq!(with_revision(created, 44).current_revision, Some(44));
}

#[test]
fn revisions_and_commits() {
    let revision = new_revision(44, 30, 1_000, [7; 12], 3);
    assert_eq!(revision.upload_ended_on, None);
    assert_eq!(missing_chunks(&vec![true, false, true, false]), vec![2, 4]);
    assert!(missing_chunks(&vec![]).is_empty());
    let (revision, file) = commit(revision, node(30, Some(2), 7, 0), 2_000);
    assert_eq!(revision.upload_ended_on, Some(2_000));
    assert_eq!(file.current_revision, Some(44));
    assert_eq!(status(commit_targets(None, Some(node(1, None, 1, 0)))), 404);
    assert_eq!(status(check_update_target(None)), 404);
    let mut f = node(30, Some(2), 7, 0);
    f.node_type = NodeType::File;
    assert_eq!(status(check_update_target(Some(f))), 400);
    let view = entity_to_encrypted_node(file, Some(revision));
    assert_eq!(view.current_revision.map(|r| r.id), Some(44));
}

fn rev(file_id: u128, chunks: i64) -> RevisionEntity {
    RevisionEntity { id: 44, file_id, upload_started_on: 0, upload_ended_on: None, iv: [0; 12], chunk_count: chunks }
}

#[test]
fn uploading_chunks() {
    assert_eq!(status(chunk_targets(Some(node(30, None, 7, 0)), None)), 404);
    let owner = user(7, None);
    assert_eq!(storage_after_upload(&owner, 900).ok(), Some(1000));
    assert_eq!(status(storage_after_upload(&owner, 901)), 507);
    assert_eq!(status(storage_after_upload(&owner, u64::MAX)), 507);
    assert_eq!(owner_after_upload(owner, 1000).storage_used, 1000);
    assert!(check_chunk_owner(&node(30, None, 7, 0), &rev(30, 3), 7).is_ok());
    assert_eq!(status(check_chunk_owner(&node(30, None, 7, 0), &rev(31, 3), 7)), 404);
    assert_eq!(status(check_chunk_owner(&node(30, None, 8, 0), &rev(30, 3), 7)), 404);
    assert!(check_chunk_index(&rev(30, 3), 3).is_ok());
    assert_eq!(status(check_chunk_index(&rev(30, 3), 4)), 400);
    assert_eq!(status(check_chunk_index(&rev(30, 3), 0)), 400);
    assert_eq!(status(check_chunk_absent(true)), 400);
    assert!(check_chunk_absent(false).is_ok());
    assert_eq!(status(storage_outcome::<()>(Err(FileSystemError::NotFound))), 404);
    assert_eq!(status(storage_outcome::<()>(Err(FileSystemError::AlreadyExists))), 500);
    assert_eq!(storage_outcome(Ok(5)).ok(), Some(5));
}

fn a_share(accepted_by: Option<u128>) -> ShareEntity {
    ShareEntity {
        id: 5,
        node_id: 1,
        shared_by: 7,
        accepted_by,
        time_shared: 0,
        time_accepted: None,
        shared_encryption_key: Some(vec![9]),
        accepted_encryption_key: if accepted_by.is_some() { Some(vec![8]) } else { None },
    }
}

#[test]
fn sharing() {
    let share = share_node(Some(node(1, Some(2), 7, 0)), 7, vec![9], 5, 100).ok().unwrap();
    assert_eq!((share.id, share.node_id, share.shared_by, share.accepted_by), (5, 1, 7, None));
    assert_eq!(share.shared_encryption_key, Some(vec![9]));
    assert_eq!(status(share_node(None, 7, vec![9], 5, 100)), 404);
    match share_node(Some(node(1, Some(2), 8, 0)), 7, vec![9], 5, 100) {
        Err(Refusal::Rejected(m)) => assert_eq!(m, "cannot share a file that you do not own"),
        _ => panic!("expected a rejection"),
    }
    match share_node(Some(node(1, None, 7, 0)), 7, vec![9], 5, 100) {
        Err(Refusal::Rejected(m)) => assert_eq!(m, "Cannot share a root node"),
        _ => panic!("expected a rejection"),
    }
    match share_node(Some(trashed(node(1, Some(2), 7, 0))), 7, vec![9], 5, 100) {
        Err(Refusal::Rejected(m)) => assert_eq!(m, "Cannot share a node that is in the trash"),
        _ => panic!("expected a rejection"),
    }
}

#[test]
fn accepting_shares() {
    assert_eq!(accept_share_info(Some(a_share(None))).ok(), Some((1, vec![9])));
    assert_eq!(status(accept_share_info(Some(a_share(Some(3))))), 404);
    assert_eq!(status(accept_share_info(None)), 404);
    assert_eq!(node_share_key(true, Some(a_share(Some(3)))).ok(), Some(vec![8]));
    assert_eq!(status(node_share_key(false, Some(a_share(Some(3))))), 404);
    assert_eq!(status(node_share_key(true, Some(a_share(None)))), 404);
    assert!(check_accept(&a_share(None), false).is_ok());
    assert_eq!(status(check_accept(&a_share(Some(3)), false)), 404);
    assert!(matches!(check_accept(&a_share(None), true), Err(Refusal::Rejected(m)) if m == "share is already accessible"));
    let accepted = accept_share(a_share(None), 3, 50, vec![6]);
    assert_eq!(accepted.accepted_by, Some(3));
    assert_eq!(accepted.time_accepted, Some(50));
    assert_eq!(accepted.accepted_encryption_key, Some(vec![6]));
    assert_eq!(accepted.shared_encryption_key, None);
}

#[test]
fn authentication() {
    assert_eq!(decode_failure(true), AuthError::Expired);
    assert_eq!(decode_failure(false), AuthError::Unauthorized);
    assert_eq!(authenticated_user(Err(DatabaseError)).err(), Some(AuthError::ServerError));
    assert_eq!(authenticated_user(Ok(None)).err(), Some(AuthError::NoUser));
    assert_eq!(authenticated_user(Ok(Some(user(7, None)))).ok().map(|u| u.id), Some(7));
    assert_eq!(AuthError::NoToken.error_message(), "missing token");
    assert_eq!(AuthError::Expired.error_message(), "expired token");
    assert_eq!(AuthError::NoUser.status_code(), 401);
}

#[test]
fn logging_in() {
    assert_eq!(status(login_user(None)), 401);
    let success = login_success(user(7, Some(99)), "jwt".to_string());
    assert_eq!(success.redirect_url, "/4de6ed4b-01af-4f0f-a76a-39d62258a3c0");
    assert_eq!(success.trash_id, 99);
    assert!(success.keys.is_some());
    let mut fresh = user(7, Some(99));
    fresh.encryption_uninitialized = true;
    let success = login_success(fresh, "jwt".to_string());
    assert!(success.keys.is_none());
    assert!(success.should_initialize_encryption);
}

#[test]
fn registering() {
    assert_eq!(status(register_check(true)), 409);
    assert!(register_check(false).is_ok());
    assert_eq!(DEFAULT_STORAGE_LIMIT, 15_000_000_000);
    let root = personal_folder(7, 11);
    assert_eq!((root.parent_id, root.owner_id, root.node_type), (None, 7, NodeType::Folder));
    let registered = with_personal_nodes(user(7, None), 11, 12);
    assert_eq!((registered.root_node, registered.trash_node), (Some(11), Some(12)));
}

#[test]
fn refreshing() {
    assert_eq!(status(refresh_token(None)), 401);
    assert_eq!(refresh_token(Some("t".to_string())).ok(), Some("t".to_string()));
    assert_eq!(status(refreshed(Err(DatabaseError))), 500);
    assert_eq!(status(refreshed(Ok(None))), 401);
    assert!(refreshed(Ok(Some(("r".to_string(), "j".to_string())))).is_ok());
}

#[test]
fn server_errors() {
    assert_eq!(client_panic_details(true, "boom".to_string()), "boom");
    assert_eq!(client_panic_details(false, "boom".to_string()), "Internal Server Error");
    assert_eq!(bind_failure_hint(BindFailure::AddrInUse).unwrap(), "The port is already in use!");
    assert!(bind_failure_hint(BindFailure::Other).is_none());
}
