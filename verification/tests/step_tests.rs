use crabdrive_server::model::{EncryptedMetadata, NodeEntity, NodeType, RevisionEntity, UserEntity, UserKeys};
use crabdrive_server::reply::{DatabaseError, Refusal};
use crabdrive_server::requests::{
    chunk_start, chunk_step, from_trash_start, from_trash_step, to_trash_start, to_trash_step, ChunkAction,
    ChunkEvent, ChunkRequest, ChunkState, FromTrashRequest, FromTrashState, StepAction, StepEvent,
    ToTrashRequest, ToTrashState,
};
use crabdrive_server::vfs::FileSystemError;

fn folder(id: u128, parent: Option<u128>, owner: u128, counter: i64) -> NodeEntity {
    NodeEntity {
        id,
        parent_id: parent,
        owner_id: owner,
        metadata: EncryptedMetadata { data: vec![1], iv: [1; 12] },
        deleted_on: None,
        metadata_change_counter: counter,
        current_revision: None,
        node_type: NodeType::Folder,
    }
}

fn owner(id: u128, used: u64, limit: u64) -> UserEntity {
    UserEntity {
        id,
        username: "owner".to_string(),
        storage_used: used,
        storage_limit: limit,
        encryption_uninitialized: false,
        keys: UserKeys {
            public_key: vec![1],
            private_key: vec![2],
            master_key: vec![3],
            root_key: vec![4],
            trash_key: vec![5],
        },
        root_node: Some(100),
        trash_node: Some(200),
    }
}

fn to_trash() -> ToTrashRequest {
    ToTrashRequest { user_id: 1, trash_node: Some(200), node_id: 10, from_change_count: 3, to_change_count: 4 }
}

#[test]
fn move_to_trash_checks_in_order_then_moves() {
    let request = to_trash();
    let (state, action) = to_trash_start(&request);
    assert!(state == ToTrashState::Node && matches!(action, StepAction::Lookup(10)));
    let (state, action) = to_trash_step(&request, state, StepEvent::Found(Ok(Some(folder(10, Some(5), 1, 0)))));
    assert!(state == ToTrashState::Source { from: 5 } && matches!(action, StepAction::Lookup(5)));
    let (state, action) = to_trash_step(&request, state, StepEvent::Found(Ok(Some(folder(5, None, 1, 3)))));
    assert!(state == ToTrashState::Trash { from: 5, trash: 200 } && matches!(action, StepAction::Lookup(200)));
    let (state, action) = to_trash_step(&request, state, StepEvent::Found(Ok(Some(folder(200, None, 1, 4)))));
    assert!(state == ToTrashState::Moving);
    assert!(matches!(action, StepAction::MoveToTrash { node: 10, from: 5, trash: 200 }));
    let (state, action) = to_trash_step(&request, state, StepEvent::Moved(Ok(())));
    assert!(state == ToTrashState::Done && matches!(action, StepAction::Reply(Ok(()))));
}

#[test]
fn move_to_trash_refusals() {
    let request = to_trash();
    // another user's node is not found
    let (_, action) = to_trash_step(&request, ToTrashState::Node, StepEvent::Found(Ok(Some(folder(10, Some(5), 2, 0)))));
    assert!(matches!(action, StepAction::Reply(Err(Refusal::NotFound))));
    // a failed lookup is a database error, a missing node not found
    let (_, action) = to_trash_step(&request, ToTrashState::Node, StepEvent::Found(Err(DatabaseError)));
    assert!(matches!(action, StepAction::Reply(Err(Refusal::DatabaseError))));
    let (_, action) = to_trash_step(&request, ToTrashState::Source { from: 5 }, StepEvent::Found(Ok(None)));
    assert!(matches!(action, StepAction::Reply(Err(Refusal::NotFound))));
    // a node without a parent is moved from itself
    let (state, _) = to_trash_step(&request, ToTrashState::Node, StepEvent::Found(Ok(Some(folder(10, None, 1, 0)))));
    assert!(state == ToTrashState::Source { from: 10 });
    // changed counts are conflicts
    let (_, action) = to_trash_step(&request, ToTrashState::Source { from: 5 }, StepEvent::Found(Ok(Some(folder(5, None, 1, 9)))));
    assert!(matches!(action, StepAction::Reply(Err(Refusal::Conflict))));
    let (_, action) = to_trash_step(
        &request,
        ToTrashState::Trash { from: 5, trash: 200 },
        StepEvent::Found(Ok(Some(folder(200, None, 1, 9)))),
    );
    assert!(matches!(action, StepAction::Reply(Err(Refusal::Conflict))));
    // a user without a trash node
    let no_trash = ToTrashRequest { trash_node: None, ..to_trash() };
    let (_, action) = to_trash_step(&no_trash, ToTrashState::Source { from: 5 }, StepEvent::Found(Ok(Some(folder(5, None, 1, 3)))));
    assert!(matches!(action, StepAction::Reply(Err(Refusal::NotFound))));
    // a failed move
    let (_, action) = to_trash_step(&request, ToTrashState::Moving, StepEvent::Moved(Err(DatabaseError)));
    assert!(matches!(action, StepAction::Reply(Err(Refusal::DatabaseError))));
}

#[test]
fn move_out_of_trash_checks_in_order_then_moves() {
    let request = FromTrashRequest {
        user_id: 1,
        trash_node: Some(200),
        node_id: 10,
        to_node_id: 30,
        from_change_count: 4,
        to_change_count: 6,
    };
    let (state, action) = from_trash_start(&request);
    assert!(state == FromTrashState::Node && matches!(action, StepAction::Lookup(10)));
    let mut trashed = folder(10, Some(200), 1, 0);
    trashed.deleted_on = Some(5);
    let (state, action) = from_trash_step(&request, state, StepEvent::Found(Ok(Some(trashed))));
    assert!(state == FromTrashState::Trash { trash: 200 } && matches!(action, StepAction::Lookup(200)));
    let (state, action) = from_trash_step(&request, state, StepEvent::Found(Ok(Some(folder(200, None, 1, 4)))));
    assert!(state == FromTrashState::Target { trash: 200 } && matches!(action, StepAction::Lookup(30)));
    let (state, action) = from_trash_step(&request, state, StepEvent::Found(Ok(Some(folder(30, None, 1, 6)))));
    assert!(state == FromTrashState::Moving);
    assert!(matches!(action, StepAction::MoveOutOfTrash { node: 10, trash: 200, to: 30 }));
    let (_, action) = from_trash_step(&request, state, StepEvent::Moved(Ok(())));
    assert!(matches!(action, StepAction::Reply(Ok(()))));
    // a node that is not in the trash is a conflict
    let (_, action) = from_trash_step(&request, FromTrashState::Node, StepEvent::Found(Ok(Some(folder(10, Some(3), 1, 0)))));
    assert!(matches!(action, StepAction::Reply(Err(Refusal::Conflict))));
}

fn revision(chunks: i64) -> RevisionEntity {
    RevisionEntity { id: 50, file_id: 10, upload_started_on: 1, upload_ended_on: None, iv: [0; 12], chunk_count: chunks }
}

#[test]
fn storing_a_chunk_checks_in_order_then_writes_and_records() {
    let request = ChunkRequest { user_id: 1, node_id: 10, revision_id: 50, chunk_index: 2, size: 100 };
    let (state, action) = chunk_start(&request);
    assert!(matches!(state, ChunkState::Targets));
    assert!(matches!(action, ChunkAction::LookupTargets { node: 10, revision: 50 }));
    let (state, action) = chunk_step(
        &request,
        state,
        ChunkEvent::Targets(Some(folder(10, Some(1), 1, 0)), Some(revision(3))),
    );
    assert!(matches!(action, ChunkAction::LookupOwner(1)));
    let (state, action) = chunk_step(&request, state, ChunkEvent::Owner(owner(1, 850, 1000)));
    assert!(matches!(action, ChunkAction::CheckExists { revision: 50, index: 2 }));
    let (state, action) = chunk_step(&request, state, ChunkEvent::Exists(false));
    assert!(matches!(action, ChunkAction::Write { revision: 50, index: 2 }));
    let (state, action) = chunk_step(&request, state, ChunkEvent::Written(Ok(())));
    match &action {
        ChunkAction::RecordOwner(updated) => assert_eq!(updated.storage_used, 950),
        _ => panic!("the owner's storage is recorded"),
    }
    let (_, action) = chunk_step(&request, state, ChunkEvent::Recorded);
    assert!(matches!(action, ChunkAction::Reply(Ok(()))));
}

#[test]
fn storing_a_chunk_refusals() {
    let request = ChunkRequest { user_id: 1, node_id: 10, revision_id: 50, chunk_index: 2, size: 100 };
    let at_owner = || ChunkState::Owner { node: folder(10, Some(1), 1, 0), revision: revision(3) };
    let (_, action) = chunk_step(&request, ChunkState::Targets, ChunkEvent::Targets(None, Some(revision(3))));
    assert!(matches!(action, ChunkAction::Reply(Err(Refusal::NotFound))));
    // the storage limit is checked before the ownership
    let (_, action) = chunk_step(
        &request,
        ChunkState::Owner { node: folder(10, Some(1), 2, 0), revision: revision(3) },
        ChunkEvent::Owner(owner(2, 901, 1000)),
    );
    assert!(matches!(action, ChunkAction::Reply(Err(Refusal::InsufficientStorage))));
    let (_, action) = chunk_step(
        &request,
        ChunkState::Owner { node: folder(10, Some(1), 2, 0), revision: revision(3) },
        ChunkEvent::Owner(owner(2, 900, 1000)),
    );
    assert!(matches!(action, ChunkAction::Reply(Err(Refusal::NotFound))));
    let out_of_range = ChunkRequest { chunk_index: 4, ..request };
    let (_, action) = chunk_step(&out_of_range, at_owner(), ChunkEvent::Owner(owner(1, 0, 1000)));
    assert!(matches!(action, ChunkAction::Reply(Err(Refusal::BadRequest))));
    let (_, action) = chunk_step(&request, ChunkState::Exists { owner: owner(1, 0, 1000), used: 100 }, ChunkEvent::Exists(true));
    assert!(matches!(action, ChunkAction::Reply(Err(Refusal::BadRequest))));
    let (_, action) = chunk_step(
        &request,
        ChunkState::Writing { owner: owner(1, 0, 1000), used: 100 },
        ChunkEvent::Written(Err(FileSystemError::NotFound)),
    );
    assert!(matches!(action, ChunkAction::Reply(Err(Refusal::NotFound))));
    let (_, action) = chunk_step(
        &request,
        ChunkState::Writing { owner: owner(1, 0, 1000), used: 100 },
        ChunkEvent::Written(Err(FileSystemError::AlreadyExists)),
    );
    assert!(matches!(action, ChunkAction::Reply(Err(Refusal::StorageError))));
}
