//! The requests that alternate lookups in the database or the chunk storage with
//! decisions, written as state machines: each step takes what the last lookup or
//! write gave and says what is looked up, written or answered next. The order of
//! the checks fixes how a request is answered, and a move or write is asked for only
//! after every check passed.
use vstd::prelude::*;
use crate::model::{ChunkIndex, NodeEntity, NodeId, RevisionEntity, RevisionId, UserEntity, UserId};
use crate::nodes::{require_change_count, restore_source, trash_source, Lookup};
use crate::reply::{DatabaseError, Refusal};
use crate::vfs::FileSystemError;

verus! {

/// What the database or the storage gave back for the last action of a request.
pub enum StepEvent {
    /// The node that was looked up, if it exists.
    Found(Lookup),
    /// The outcome of a move.
    Moved(Result<(), DatabaseError>),
}

/// The request to move a node into the user's trash, with the change counts the
/// client saw of the node's parent (`from_change_count`) and of the trash.
pub struct ToTrashRequest {
    pub user_id: UserId,
    pub trash_node: Option<NodeId>,
    pub node_id: NodeId,
    pub from_change_count: i64,
    pub to_change_count: i64,
}

/// How far a move into the trash has come: which lookup or write it waits for.
#[derive(Clone, Copy, PartialEq, Eq, Structural)]
pub enum ToTrashState {
    /// Waits for the node itself.
    Node,
    /// Waits for the node it is moved from: its parent, or itself when it has none.
    Source { from: NodeId },
    /// Waits for the user's trash node.
    Trash { from: NodeId, trash: NodeId },
    /// Waits for the move.
    Moving,
    /// Answered.
    Done,
}

/// What a request does next.
pub enum StepAction {
    /// Look the node up.
    Lookup(NodeId),
    /// Move `node` from `from` into the trash node `trash`, storing the client's new
    /// metadata of both.
    MoveToTrash { node: NodeId, from: NodeId, trash: NodeId },
    /// Move `node` out of the trash node `trash` into `to`, storing the client's new
    /// metadata of both.
    MoveOutOfTrash { node: NodeId, trash: NodeId, to: NodeId },
    /// Answer the request.
    Reply(Result<(), Refusal>),
}

/// The answer to a failed lookup: a database error, or not found.
pub open spec fn lookup_refusal(lookup: Lookup) -> Refusal {
    match lookup {
        Err(_) => Refusal::DatabaseError,
        Ok(_) => Refusal::NotFound,
    }
}

/// The answer to a move in the database.
pub open spec fn move_reply(result: Result<(), DatabaseError>) -> Result<(), Refusal> {
    match result {
        Ok(()) => Ok(()),
        Err(_) => Err(Refusal::DatabaseError),
    }
}

/// The first step of a move into the trash: look the node up.
pub fn to_trash_start(request: &ToTrashRequest) -> (first: (ToTrashState, StepAction))
    ensures
        first == (ToTrashState::Node, StepAction::Lookup(request.node_id)),
{
    (ToTrashState::Node, StepAction::Lookup(request.node_id))
}

/// The step of a move into the trash on `event`, in the order of the checks (an event
/// that does not answer the last action, which the caller never hands in, ends the
/// request as a database error): the node
/// must exist and belong to the user; the node it is moved from (its parent, or itself
/// without one) must exist with the change count the client saw; the user must have a
/// trash node, which must exist with the change count the client saw; then the move
/// is made, and a failed move is a database error. A failed lookup answers with a
/// database error, a missing node with not found, a changed count with a conflict.
pub open spec fn to_trash_spec(request: ToTrashRequest, state: ToTrashState, event: StepEvent) -> (ToTrashState, StepAction) {
    match (state, event) {
        (ToTrashState::Node, StepEvent::Found(lookup)) => match lookup {
            Ok(Some(node)) => if node.owner_id != request.user_id {
                (ToTrashState::Done, StepAction::Reply(Err(Refusal::NotFound)))
            } else {
                let from = match node.parent_id {
                    Some(p) => p,
                    None => node.id,
                };
                (ToTrashState::Source { from }, StepAction::Lookup(from))
            },
            _ => (ToTrashState::Done, StepAction::Reply(Err(lookup_refusal(lookup)))),
        },
        (ToTrashState::Source { from }, StepEvent::Found(lookup)) => match lookup {
            Ok(Some(node)) => if node.metadata_change_counter != request.from_change_count {
                (ToTrashState::Done, StepAction::Reply(Err(Refusal::Conflict)))
            } else {
                match request.trash_node {
                    Some(trash) => (ToTrashState::Trash { from, trash }, StepAction::Lookup(trash)),
                    None => (ToTrashState::Done, StepAction::Reply(Err(Refusal::NotFound))),
                }
            },
            _ => (ToTrashState::Done, StepAction::Reply(Err(lookup_refusal(lookup)))),
        },
        (ToTrashState::Trash { from, trash }, StepEvent::Found(lookup)) => match lookup {
            Ok(Some(node)) => if node.metadata_change_counter != request.to_change_count {
                (ToTrashState::Done, StepAction::Reply(Err(Refusal::Conflict)))
            } else {
                (ToTrashState::Moving, StepAction::MoveToTrash { node: request.node_id, from, trash })
            },
            _ => (ToTrashState::Done, StepAction::Reply(Err(lookup_refusal(lookup)))),
        },
        (ToTrashState::Moving, StepEvent::Moved(result)) => (ToTrashState::Done, StepAction::Reply(move_reply(result))),
        _ => (ToTrashState::Done, StepAction::Reply(Err(Refusal::DatabaseError))),
    }
}

proof fn lemma_plain_refusal(refusal: Refusal)
    ensures
        refusal is NotFound ==> refusal == Refusal::NotFound,
        refusal is Conflict ==> refusal == Refusal::Conflict,
        refusal is DatabaseError ==> refusal == Refusal::DatabaseError,
{
}

/// Takes one step of a move into the trash.
pub fn to_trash_step(request: &ToTrashRequest, state: ToTrashState, event: StepEvent) -> (next: (ToTrashState, StepAction))
    ensures
        next == to_trash_spec(*request, state, event),
{
    match (state, event) {
        (ToTrashState::Node, StepEvent::Found(lookup)) => match trash_source(lookup, request.user_id) {
            Ok(from) => (ToTrashState::Source { from }, StepAction::Lookup(from)),
            Err(refusal) => {
                proof {
                    lemma_plain_refusal(refusal);
                }
                (ToTrashState::Done, StepAction::Reply(Err(refusal)))
            },
        },
        (ToTrashState::Source { from }, StepEvent::Found(lookup)) => match require_change_count(
            lookup,
            request.from_change_count,
        ) {
            Ok(_) => match request.trash_node {
                Some(trash) => (ToTrashState::Trash { from, trash }, StepAction::Lookup(trash)),
                None => (ToTrashState::Done, StepAction::Reply(Err(Refusal::NotFound))),
            },
            Err(refusal) => {
                proof {
                    lemma_plain_refusal(refusal);
                }
                (ToTrashState::Done, StepAction::Reply(Err(refusal)))
            },
        },
        (ToTrashState::Trash { from, trash }, StepEvent::Found(lookup)) => match require_change_count(
            lookup,
            request.to_change_count,
        ) {
            Ok(_) => (ToTrashState::Moving, StepAction::MoveToTrash { node: request.node_id, from, trash }),
            Err(refusal) => {
                proof {
                    lemma_plain_refusal(refusal);
                }
                (ToTrashState::Done, StepAction::Reply(Err(refusal)))
            },
        },
        (ToTrashState::Moving, StepEvent::Moved(result)) => {
            let reply = match result {
                Ok(()) => Ok(()),
                Err(_) => Err(Refusal::DatabaseError),
            };
            (ToTrashState::Done, StepAction::Reply(reply))
        },
        _ => (ToTrashState::Done, StepAction::Reply(Err(Refusal::DatabaseError))),
    }
}

/// The request to move a node out of the trash into `to_node_id`, with the change
/// counts the client saw of the trash (`from_change_count`) and of the target.
pub struct FromTrashRequest {
    pub user_id: UserId,
    pub trash_node: Option<NodeId>,
    pub node_id: NodeId,
    pub to_node_id: NodeId,
    pub from_change_count: i64,
    pub to_change_count: i64,
}

/// How far a move out of the trash has come: which lookup or write it waits for.
#[derive(Clone, Copy, PartialEq, Eq, Structural)]
pub enum FromTrashState {
    /// Waits for the node itself.
    Node,
    /// Waits for the user's trash node.
    Trash { trash: NodeId },
    /// Waits for the node it is moved into.
    Target { trash: NodeId },
    /// Waits for the move.
    Moving,
    /// Answered.
    Done,
}

/// The first step of a move out of the trash: look the node up.
pub fn from_trash_start(request: &FromTrashRequest) -> (first: (FromTrashState, StepAction))
    ensures
        first == (FromTrashState::Node, StepAction::Lookup(request.node_id)),
{
    (FromTrashState::Node, StepAction::Lookup(request.node_id))
}

/// The step of a move out of the trash on `event`, in the order of the checks (an
/// event that does not answer the last action ends the request as a database error):
/// the node must exist, belong to the user (not found otherwise) and be in the trash
/// (a conflict otherwise); the user must have a trash node, which must exist with the
/// change count the client saw; the target must exist with the change count the
/// client saw; then the move is made, and a failed move is a database error.
pub open spec fn from_trash_spec(request: FromTrashRequest, state: FromTrashState, event: StepEvent) -> (FromTrashState, StepAction) {
    match (state, event) {
        (FromTrashState::Node, StepEvent::Found(lookup)) => match lookup {
            Ok(Some(node)) => if node.owner_id != request.user_id {
                (FromTrashState::Done, StepAction::Reply(Err(Refusal::NotFound)))
            } else if node.deleted_on is None {
                (FromTrashState::Done, StepAction::Reply(Err(Refusal::Conflict)))
            } else {
                match request.trash_node {
                    Some(trash) => (FromTrashState::Trash { trash }, StepAction::Lookup(trash)),
                    None => (FromTrashState::Done, StepAction::Reply(Err(Refusal::NotFound))),
                }
            },
            _ => (FromTrashState::Done, StepAction::Reply(Err(lookup_refusal(lookup)))),
        },
        (FromTrashState::Trash { trash }, StepEvent::Found(lookup)) => match lookup {
            Ok(Some(node)) => if node.metadata_change_counter != request.from_change_count {
                (FromTrashState::Done, StepAction::Reply(Err(Refusal::Conflict)))
            } else {
                (FromTrashState::Target { trash }, StepAction::Lookup(request.to_node_id))
            },
            _ => (FromTrashState::Done, StepAction::Reply(Err(lookup_refusal(lookup)))),
        },
        (FromTrashState::Target { trash }, StepEvent::Found(lookup)) => match lookup {
            Ok(Some(node)) => if node.metadata_change_counter != request.to_change_count {
                (FromTrashState::Done, StepAction::Reply(Err(Refusal::Conflict)))
            } else {
                (FromTrashState::Moving, StepAction::MoveOutOfTrash {
                    node: request.node_id,
                    trash,
                    to: request.to_node_id,
                })
            },
            _ => (FromTrashState::Done, StepAction::Reply(Err(lookup_refusal(lookup)))),
        },
        (FromTrashState::Moving, StepEvent::Moved(result)) => (FromTrashState::Done, StepAction::Reply(move_reply(result))),
        _ => (FromTrashState::Done, StepAction::Reply(Err(Refusal::DatabaseError))),
    }
}

/// Takes one step of a move out of the trash.
pub fn from_trash_step(request: &FromTrashRequest, state: FromTrashState, event: StepEvent) -> (next: (FromTrashState, StepAction))
    ensures
        next == from_trash_spec(*request, state, event),
{
    match (state, event) {
        (FromTrashState::Node, StepEvent::Found(lookup)) => match restore_source(lookup, request.user_id) {
            Ok(_) => match request.trash_node {
                Some(trash) => (FromTrashState::Trash { trash }, StepAction::Lookup(trash)),
                None => (FromTrashState::Done, StepAction::Reply(Err(Refusal::NotFound))),
            },
            Err(refusal) => {
                proof {
                    lemma_plain_refusal(refusal);
                }
                (FromTrashState::Done, StepAction::Reply(Err(refusal)))
            },
        },
        (FromTrashState::Trash { trash }, StepEvent::Found(lookup)) => match require_change_count(
            lookup,
            request.from_change_count,
        ) {
            Ok(_) => (FromTrashState::Target { trash }, StepAction::Lookup(request.to_node_id)),
            Err(refusal) => {
                proof {
                    lemma_plain_refusal(refusal);
                }
                (FromTrashState::Done, StepAction::Reply(Err(refusal)))
            },
        },
        (FromTrashState::Target { trash }, StepEvent::Found(lookup)) => match require_change_count(
            lookup,
            request.to_change_count,
        ) {
            Ok(_) => (FromTrashState::Moving, StepAction::MoveOutOfTrash {
                node: request.node_id,
                trash,
                to: request.to_node_id,
            }),
            Err(refusal) => {
                proof {
                    lemma_plain_refusal(refusal);
                }
                (FromTrashState::Done, StepAction::Reply(Err(refusal)))
            },
        },
        (FromTrashState::Moving, StepEvent::Moved(result)) => {
            let reply = match result {
                Ok(()) => Ok(()),
                Err(_) => Err(Refusal::DatabaseError),
            };
            (FromTrashState::Done, StepAction::Reply(reply))
        },
        _ => (FromTrashState::Done, StepAction::Reply(Err(Refusal::DatabaseError))),
    }
}

/// The node a lookup found, if the event is a lookup that found one.
pub open spec fn found_node(event: StepEvent) -> Option<NodeEntity> {
    match event {
        StepEvent::Found(Ok(Some(node))) => Some(node),
        _ => None,
    }
}

/// Whether the event is a lookup that failed in the database.
pub open spec fn failed_lookup(event: StepEvent) -> bool {
    event matches StepEvent::Found(Err(_))
}

/// Whether the event is a lookup that found no node.
pub open spec fn missing_node(event: StepEvent) -> bool {
    event matches StepEvent::Found(Ok(None))
}

/// A move into the trash is asked for only on the step that finds the trash node, and
/// only when the trash node has the change count the client saw; the move is of the
/// requested node, from the node found before, into the trash node that was looked up.
pub proof fn lemma_to_trash_moves_only_when_checked(request: ToTrashRequest, state: ToTrashState, event: StepEvent)
    ensures
        to_trash_spec(request, state, event).1 matches StepAction::MoveToTrash { node, from, trash } ==> {
            &&& node == request.node_id
            &&& state == (ToTrashState::Trash { from, trash })
            &&& found_node(event) is Some && found_node(event)->0.metadata_change_counter
                == request.to_change_count
        },
        !(to_trash_spec(request, state, event).1 is MoveOutOfTrash),
{
}

/// Each check of a move into the trash refuses what it is for: a node of another user
/// is not found; a source or trash node whose change count differs from what the
/// client saw is a conflict; a user without a trash node gets not found; a failed
/// lookup is a database error and a missing node is not found. Every refusal ends
/// the request.
pub proof fn lemma_to_trash_refusals(request: ToTrashRequest, state: ToTrashState, event: StepEvent)
    ensures
        (state == ToTrashState::Node && found_node(event) is Some && found_node(event)->0.owner_id
            != request.user_id) ==> to_trash_spec(request, state, event) == (ToTrashState::Done, StepAction::Reply(
            Err(Refusal::NotFound),
        )),
        (state is Source && found_node(event) is Some && found_node(event)->0.metadata_change_counter
            != request.from_change_count) ==> to_trash_spec(request, state, event) == (ToTrashState::Done,
            StepAction::Reply(Err(Refusal::Conflict))),
        (state is Source && found_node(event) is Some && found_node(event)->0.metadata_change_counter
            == request.from_change_count && request.trash_node is None) ==> to_trash_spec(request, state, event) == (
            ToTrashState::Done,
            StepAction::Reply(Err(Refusal::NotFound)),
        ),
        (state is Trash && found_node(event) is Some && found_node(event)->0.metadata_change_counter
            != request.to_change_count) ==> to_trash_spec(request, state, event) == (ToTrashState::Done,
            StepAction::Reply(Err(Refusal::Conflict))),
        ((state is Node || state is Source || state is Trash) && failed_lookup(event))
            ==> to_trash_spec(request, state, event).1 == StepAction::Reply(Err(Refusal::DatabaseError)),
        ((state is Node || state is Source || state is Trash) && missing_node(event))
            ==> to_trash_spec(request, state, event).1 == StepAction::Reply(Err(Refusal::NotFound)),
        to_trash_spec(request, state, event).1 is Reply ==> to_trash_spec(request, state, event).0
            == ToTrashState::Done,
{
}

/// A node of the user is moved from its parent, or from itself when it has none: the
/// walk goes on to look that node up.
pub proof fn lemma_to_trash_source(request: ToTrashRequest, found: NodeEntity)
    requires
        found.owner_id == request.user_id,
    ensures
        to_trash_spec(request, ToTrashState::Node, StepEvent::Found(Ok(Some(found)))) == ({
            let from = if found.parent_id is Some { found.parent_id->0 } else { found.id };
            (ToTrashState::Source { from }, StepAction::Lookup(from))
        }),
{
}

/// A move out of the trash is asked for only on the step that finds the target, and
/// only when the target has the change count the client saw; the move is of the
/// requested node, out of the trash node looked up before, into the requested target.
pub proof fn lemma_from_trash_moves_only_when_checked(request: FromTrashRequest, state: FromTrashState, event: StepEvent)
    ensures
        from_trash_spec(request, state, event).1 matches StepAction::MoveOutOfTrash { node, trash, to } ==> {
            &&& node == request.node_id
            &&& to == request.to_node_id
            &&& state == (FromTrashState::Target { trash })
            &&& found_node(event) is Some && found_node(event)->0.metadata_change_counter
                == request.to_change_count
        },
        !(from_trash_spec(request, state, event).1 is MoveToTrash),
{
}

/// Each check of a move out of the trash refuses what it is for: a node of another
/// user is not found; a node that is not in the trash is a conflict; a user without
/// a trash node gets not found; a trash node or target whose change count differs
/// from what the client saw is a conflict; a failed lookup is a database error and a
/// missing node is not found. Every refusal ends the request.
pub proof fn lemma_from_trash_refusals(request: FromTrashRequest, state: FromTrashState, event: StepEvent)
    ensures
        (state == FromTrashState::Node && found_node(event) is Some && found_node(event)->0.owner_id
            != request.user_id) ==> from_trash_spec(request, state, event) == (FromTrashState::Done,
            StepAction::Reply(Err(Refusal::NotFound))),
        (state == FromTrashState::Node && found_node(event) is Some && found_node(event)->0.owner_id
            == request.user_id && found_node(event)->0.deleted_on is None) ==> from_trash_spec(request, state, event) == (
            FromTrashState::Done,
            StepAction::Reply(Err(Refusal::Conflict)),
        ),
        (state == FromTrashState::Node && found_node(event) is Some && found_node(event)->0.owner_id
            == request.user_id && found_node(event)->0.deleted_on is Some && request.trash_node is None) ==> from_trash_spec(
            request,
            state,
            event,
        ) == (FromTrashState::Done, StepAction::Reply(Err(Refusal::NotFound))),
        (state == FromTrashState::Node && found_node(event) is Some && found_node(event)->0.owner_id
            == request.user_id && found_node(event)->0.deleted_on is Some && request.trash_node is Some)
            ==> from_trash_spec(request, state, event) == (FromTrashState::Trash { trash: request.trash_node->0 },
            StepAction::Lookup(request.trash_node->0)),
        (state is Trash && found_node(event) is Some && found_node(event)->0.metadata_change_counter
            != request.from_change_count) ==> from_trash_spec(request, state, event) == (FromTrashState::Done,
            StepAction::Reply(Err(Refusal::Conflict))),
        (state is Trash && found_node(event) is Some && found_node(event)->0.metadata_change_counter
            == request.from_change_count) ==> from_trash_spec(request, state, event).1 == StepAction::Lookup(
            request.to_node_id,
        ),
        (state is Target && found_node(event) is Some && found_node(event)->0.metadata_change_counter
            != request.to_change_count) ==> from_trash_spec(request, state, event) == (FromTrashState::Done,
            StepAction::Reply(Err(Refusal::Conflict))),
        ((state is Node || state is Trash || state is Target) && failed_lookup(event))
            ==> from_trash_spec(request, state, event).1 == StepAction::Reply(Err(Refusal::DatabaseError)),
        ((state is Node || state is Trash || state is Target) && missing_node(event))
            ==> from_trash_spec(request, state, event).1 == StepAction::Reply(Err(Refusal::NotFound)),
        from_trash_spec(request, state, event).1 is Reply ==> from_trash_spec(request, state, event).0
            == FromTrashState::Done,
{
}

/// The outcome of the move itself: a move that went through is answered with success,
/// a failed one with a database error.
pub proof fn lemma_moves_answered(to_request: ToTrashRequest, from_request: FromTrashRequest, result: Result<(), DatabaseError>)
    ensures
        to_trash_spec(to_request, ToTrashState::Moving, StepEvent::Moved(result)).1 == StepAction::Reply(
            if result is Ok { Ok(()) } else { Err(Refusal::DatabaseError) },
        ),
        from_trash_spec(from_request, FromTrashState::Moving, StepEvent::Moved(result)).1 == StepAction::Reply(
            if result is Ok { Ok(()) } else { Err(Refusal::DatabaseError) },
        ),
{
}

/// The request to store chunk `chunk_index`, of `size` bytes, of revision
/// `revision_id` of file `node_id`.
pub struct ChunkRequest {
    pub user_id: UserId,
    pub node_id: NodeId,
    pub revision_id: RevisionId,
    pub chunk_index: ChunkIndex,
    pub size: u64,
}

/// How far storing a chunk has come: which lookup or write it waits for.
pub enum ChunkState {
    /// Waits for the file node and the revision.
    Targets,
    /// Waits for the user that owns the file.
    Owner { node: NodeEntity, revision: RevisionEntity },
    /// Waits for whether the chunk is stored already; `used` is the owner's storage
    /// once the chunk is stored.
    Exists { owner: UserEntity, used: u64 },
    /// Waits for the chunk to be written.
    Writing { owner: UserEntity, used: u64 },
    /// Waits for the owner's storage to be recorded.
    Recording,
    /// Answered.
    Done,
}

/// What the database or the storage gave back for the last action of storing a chunk.
pub enum ChunkEvent {
    /// The file node and the revision, where they exist.
    Targets(Option<NodeEntity>, Option<RevisionEntity>),
    /// The user that owns the file.
    Owner(UserEntity),
    /// Whether the chunk is stored already.
    Exists(bool),
    /// The outcome of writing the chunk.
    Written(Result<(), FileSystemError>),
    /// The owner's storage was recorded.
    Recorded,
}

/// What storing a chunk does next.
pub enum ChunkAction {
    /// Look up the file node and the revision.
    LookupTargets { node: NodeId, revision: RevisionId },
    /// Look up the user that owns the file.
    LookupOwner(UserId),
    /// Ask the storage whether the chunk is stored already.
    CheckExists { revision: RevisionId, index: ChunkIndex },
    /// Write the chunk.
    Write { revision: RevisionId, index: ChunkIndex },
    /// Store the owner with the storage it now uses.
    RecordOwner(UserEntity),
    /// Answer the request: `Ok` is answered as created.
    Reply(Result<(), Refusal>),
}

/// The first step of storing a chunk: look up the file and the revision.
pub fn chunk_start(request: &ChunkRequest) -> (first: (ChunkState, ChunkAction))
    ensures
        first == (ChunkState::Targets, ChunkAction::LookupTargets {
            node: request.node_id,
            revision: request.revision_id,
        }),
{
    (ChunkState::Targets, ChunkAction::LookupTargets { node: request.node_id, revision: request.revision_id })
}

/// The answer to a failed write of a chunk.
pub open spec fn write_refusal(error: FileSystemError) -> Refusal {
    match error {
        FileSystemError::NotFound => Refusal::NotFound,
        _ => Refusal::StorageError,
    }
}

/// The step of storing a chunk on `event`, in the order of the checks (an event that
/// does not answer the last action ends the request as a database error): the file
/// and the revision must exist (not found otherwise); the owner's storage with the
/// chunk must stay within the owner's limit (insufficient storage otherwise); the file
/// must belong to the user and the revision to the file (not found otherwise); the
/// index must lie from 1 up to the chunk count, and the chunk must not be stored yet
/// (a bad request otherwise); then the chunk is written; a failed write is not found
/// when the storage has no such upload and a storage error otherwise; after a
/// successful write the owner's new storage is recorded, and the request is answered
/// as created.
pub open spec fn chunk_spec(request: ChunkRequest, state: ChunkState, event: ChunkEvent) -> (ChunkState, ChunkAction) {
    match (state, event) {
        (ChunkState::Targets, ChunkEvent::Targets(node, revision)) => match (node, revision) {
            (Some(n), Some(r)) => (ChunkState::Owner { node: n, revision: r }, ChunkAction::LookupOwner(n.owner_id)),
            _ => (ChunkState::Done, ChunkAction::Reply(Err(Refusal::NotFound))),
        },
        (ChunkState::Owner { node, revision }, ChunkEvent::Owner(owner)) => {
            if owner.storage_used + request.size > owner.storage_limit {
                (ChunkState::Done, ChunkAction::Reply(Err(Refusal::InsufficientStorage)))
            } else if node.owner_id != request.user_id || node.id != revision.file_id {
                (ChunkState::Done, ChunkAction::Reply(Err(Refusal::NotFound)))
            } else if !(1 <= request.chunk_index <= revision.chunk_count) {
                (ChunkState::Done, ChunkAction::Reply(Err(Refusal::BadRequest)))
            } else {
                (
                    ChunkState::Exists { owner, used: (owner.storage_used + request.size) as u64 },
                    ChunkAction::CheckExists { revision: request.revision_id, index: request.chunk_index },
                )
            }
        },
        (ChunkState::Exists { owner, used }, ChunkEvent::Exists(exists)) => if exists {
            (ChunkState::Done, ChunkAction::Reply(Err(Refusal::BadRequest)))
        } else {
            (
                ChunkState::Writing { owner, used },
                ChunkAction::Write { revision: request.revision_id, index: request.chunk_index },
            )
        },
        (ChunkState::Writing { owner, used }, ChunkEvent::Written(result)) => match result {
            Ok(()) => (ChunkState::Recording, ChunkAction::RecordOwner(UserEntity { storage_used: used, ..owner })),
            Err(error) => (ChunkState::Done, ChunkAction::Reply(Err(write_refusal(error)))),
        },
        (ChunkState::Recording, ChunkEvent::Recorded) => (ChunkState::Done, ChunkAction::Reply(Ok(()))),
        _ => (ChunkState::Done, ChunkAction::Reply(Err(Refusal::DatabaseError))),
    }
}

/// Takes one step of storing a chunk.
pub fn chunk_step(request: &ChunkRequest, state: ChunkState, event: ChunkEvent) -> (next: (ChunkState, ChunkAction))
    ensures
        next == chunk_spec(*request, state, event),
{
    match state {
        ChunkState::Targets => match event {
            ChunkEvent::Targets(node, revision) => match crate::files::chunk_targets(node, revision) {
                Ok((n, r)) => {
                    let owner_id = n.owner_id;
                    (ChunkState::Owner { node: n, revision: r }, ChunkAction::LookupOwner(owner_id))
                },
                Err(refusal) => (ChunkState::Done, ChunkAction::Reply(Err(refusal))),
            },
            _ => (ChunkState::Done, ChunkAction::Reply(Err(Refusal::DatabaseError))),
        },
        ChunkState::Owner { node, revision } => match event {
            ChunkEvent::Owner(owner) => {
                let used = match crate::files::storage_after_upload(&owner, request.size) {
                    Ok(used) => used,
                    Err(refusal) => return (ChunkState::Done, ChunkAction::Reply(Err(refusal))),
                };
                if let Err(refusal) = crate::files::check_chunk_owner(&node, &revision, request.user_id) {
                    return (ChunkState::Done, ChunkAction::Reply(Err(refusal)));
                }
                if let Err(refusal) = crate::files::check_chunk_index(&revision, request.chunk_index) {
                    return (ChunkState::Done, ChunkAction::Reply(Err(refusal)));
                }
                (
                    ChunkState::Exists { owner, used },
                    ChunkAction::CheckExists { revision: request.revision_id, index: request.chunk_index },
                )
            },
            _ => (ChunkState::Done, ChunkAction::Reply(Err(Refusal::DatabaseError))),
        },
        ChunkState::Exists { owner, used } => match event {
            ChunkEvent::Exists(exists) => if exists {
                (ChunkState::Done, ChunkAction::Reply(Err(Refusal::BadRequest)))
            } else {
                (
                    ChunkState::Writing { owner, used },
                    ChunkAction::Write { revision: request.revision_id, index: request.chunk_index },
                )
            },
            _ => (ChunkState::Done, ChunkAction::Reply(Err(Refusal::DatabaseError))),
        },
        ChunkState::Writing { owner, used } => match event {
            ChunkEvent::Written(result) => match crate::files::storage_outcome(result) {
                Ok(()) => (ChunkState::Recording, ChunkAction::RecordOwner(crate::files::owner_after_upload(owner, used))),
                Err(refusal) => (ChunkState::Done, ChunkAction::Reply(Err(refusal))),
            },
            _ => (ChunkState::Done, ChunkAction::Reply(Err(Refusal::DatabaseError))),
        },
        ChunkState::Recording => match event {
            ChunkEvent::Recorded => (ChunkState::Done, ChunkAction::Reply(Ok(()))),
            _ => (ChunkState::Done, ChunkAction::Reply(Err(Refusal::DatabaseError))),
        },
        ChunkState::Done => (ChunkState::Done, ChunkAction::Reply(Err(Refusal::DatabaseError))),
    }
}


/// The owner a lookup of the owner found, if the event is that answer.
pub open spec fn found_owner(event: ChunkEvent) -> Option<UserEntity> {
    match event {
        ChunkEvent::Owner(owner) => Some(owner),
        _ => None,
    }
}

/// Whether the owner's storage, with the chunk, stays within the owner's limit.
pub open spec fn fits_storage(owner: UserEntity, size: u64) -> bool {
    owner.storage_used + size <= owner.storage_limit
}

/// A chunk is checked for, written and recorded only after every check passed: the
/// storage check for a chunk happens on the step that learns the owner, and goes on
/// only for a file of the requesting user whose revision belongs to it, for an index
/// from 1 up to the revision's chunk count, and within the owner's storage limit; the
/// write comes only after the storage said the chunk is not stored yet; the owner is
/// recorded only after the write succeeded, with the storage used grown by the
/// chunk's size and nothing else changed.
pub proof fn lemma_chunk_written_only_when_checked(request: ChunkRequest, state: ChunkState, event: ChunkEvent)
    ensures
        chunk_spec(request, state, event).1 is CheckExists ==> {
            &&& state is Owner
            &&& found_owner(event) is Some
            &&& state->Owner_node.owner_id == request.user_id
            &&& state->Owner_node.id == state->Owner_revision.file_id
            &&& 1 <= request.chunk_index <= state->Owner_revision.chunk_count
            &&& fits_storage(found_owner(event)->0, request.size)
            &&& chunk_spec(request, state, event).1 == ChunkAction::CheckExists {
                revision: request.revision_id,
                index: request.chunk_index,
            }
        },
        chunk_spec(request, state, event).1 is Write ==> {
            &&& state is Exists
            &&& event == ChunkEvent::Exists(false)
            &&& chunk_spec(request, state, event).1 == ChunkAction::Write {
                revision: request.revision_id,
                index: request.chunk_index,
            }
        },
        chunk_spec(request, state, event).1 is RecordOwner ==> {
            &&& state is Writing
            &&& event is Written
            &&& event->Written_0 is Ok
            &&& chunk_spec(request, state, event).1 == ChunkAction::RecordOwner(
                UserEntity { storage_used: state->Writing_used, ..state->Writing_owner },
            )
        },
        chunk_spec(request, state, event).1 == ChunkAction::Reply(Ok(())) ==> state is Recording,
        chunk_spec(request, state, event).1 is Reply ==> chunk_spec(request, state, event).0 is Done,
{
}

/// The storage the owner is recorded with after a chunk is stored is the storage
/// used before it plus the chunk's size, and stays within the owner's limit.
pub proof fn lemma_chunk_storage_grows_by_size(request: ChunkRequest, node: NodeEntity, revision: RevisionEntity, owner: UserEntity)
    ensures
        chunk_spec(request, ChunkState::Owner { node, revision }, ChunkEvent::Owner(owner)).0 matches ChunkState::Exists {
            owner: o,
            used,
        } ==> o == owner && used == owner.storage_used + request.size && used <= owner.storage_limit,
{
}

/// Each check of storing a chunk refuses what it is for, in order: a missing file or
/// revision is not found; a chunk beyond the owner's storage limit is insufficient
/// storage; a file of another user, or a revision of another file, is not found; an
/// index outside 1 up to the chunk count is a bad request; a chunk that is stored
/// already is a bad request; a write that finds no upload is not found, and any
/// other failed write is a storage error.
pub proof fn lemma_chunk_refusals(request: ChunkRequest, state: ChunkState, event: ChunkEvent)
    ensures
        (state is Targets && event is Targets && (event->Targets_0 is None || event->Targets_1 is None))
            ==> chunk_spec(request, state, event) == (ChunkState::Done, ChunkAction::Reply(Err(Refusal::NotFound))),
        (state is Owner && found_owner(event) is Some && !fits_storage(found_owner(event)->0, request.size))
            ==> chunk_spec(request, state, event).1 == ChunkAction::Reply(Err(Refusal::InsufficientStorage)),
        (state is Owner && found_owner(event) is Some && fits_storage(found_owner(event)->0, request.size) && (
        state->Owner_node.owner_id != request.user_id || state->Owner_node.id != state->Owner_revision.file_id))
            ==> chunk_spec(request, state, event).1 == ChunkAction::Reply(Err(Refusal::NotFound)),
        (state is Owner && found_owner(event) is Some && fits_storage(found_owner(event)->0, request.size)
            && state->Owner_node.owner_id == request.user_id && state->Owner_node.id
            == state->Owner_revision.file_id && !(1 <= request.chunk_index <= state->Owner_revision.chunk_count))
            ==> chunk_spec(request, state, event).1 == ChunkAction::Reply(Err(Refusal::BadRequest)),
        (state is Exists && event == ChunkEvent::Exists(true)) ==> chunk_spec(request, state, event).1
            == ChunkAction::Reply(Err(Refusal::BadRequest)),
        (state is Writing && event == ChunkEvent::Written(Err(FileSystemError::NotFound))) ==> chunk_spec(
            request,
            state,
            event,
        ).1 == ChunkAction::Reply(Err(Refusal::NotFound)),
        (state is Writing && event is Written && event->Written_0 is Err && !(event->Written_0->Err_0 is NotFound)) ==> chunk_spec(
            request,
            state,
            event,
        ).1 == ChunkAction::Reply(Err(Refusal::StorageError)),
{
}


/// Storing a chunk goes on whenever a check passes: found file and revision lead to
/// the lookup of the file's owner; an owner within the storage limit, a file of the
/// requesting user with this revision, and an index in range lead to asking whether
/// the chunk is stored; a chunk not stored yet is written; a successful write leads
/// to recording the owner; a recorded owner is answered with success.
pub proof fn lemma_chunk_goes_on_when_checked(request: ChunkRequest, state: ChunkState, event: ChunkEvent)
    ensures
        (state is Targets && event is Targets && event->Targets_0 is Some && event->Targets_1 is Some)
            ==> chunk_spec(request, state, event) == ((ChunkState::Owner {
            node: event->Targets_0->0,
            revision: event->Targets_1->0,
        }), ChunkAction::LookupOwner(event->Targets_0->0.owner_id)),
        (state is Owner && found_owner(event) is Some && fits_storage(found_owner(event)->0, request.size)
            && state->Owner_node.owner_id == request.user_id && state->Owner_node.id
            == state->Owner_revision.file_id && 1 <= request.chunk_index <= state->Owner_revision.chunk_count)
            ==> chunk_spec(request, state, event).1 == (ChunkAction::CheckExists {
            revision: request.revision_id,
            index: request.chunk_index,
        }),
        (state is Exists && event == ChunkEvent::Exists(false)) ==> chunk_spec(request, state, event) == (
            (ChunkState::Writing { owner: state->Exists_owner, used: state->Exists_used }),
            (ChunkAction::Write { revision: request.revision_id, index: request.chunk_index }),
        ),
        (state is Writing && event is Written && event->Written_0 is Ok) ==> chunk_spec(request, state, event) == (
            ChunkState::Recording,
            ChunkAction::RecordOwner((UserEntity { storage_used: state->Writing_used, ..state->Writing_owner })),
        ),
        (state is Recording && event is Recorded) ==> chunk_spec(request, state, event) == (
            ChunkState::Done,
            ChunkAction::Reply(Ok(())),
        ),
{
}

/// A move into the trash goes on whenever a check passes: a source with the change
/// count the client saw leads to the lookup of the user's trash node; a trash node
/// with the change count the client saw leads to the move.
pub proof fn lemma_to_trash_goes_on_when_checked(request: ToTrashRequest, state: ToTrashState, event: StepEvent)
    ensures
        (state is Source && found_node(event) is Some && found_node(event)->0.metadata_change_counter
            == request.from_change_count && request.trash_node is Some) ==> to_trash_spec(request, state, event) == (
            (ToTrashState::Trash { from: state->Source_from, trash: request.trash_node->0 }),
            StepAction::Lookup(request.trash_node->0),
        ),
        (state is Trash && found_node(event) is Some && found_node(event)->0.metadata_change_counter
            == request.to_change_count) ==> to_trash_spec(request, state, event) == (
            ToTrashState::Moving,
            (StepAction::MoveToTrash {
                node: request.node_id,
                from: state->Trash_from,
                trash: state->Trash_trash,
            }),
        ),
{
}

/// A move out of the trash goes on to the move when the target has the change count
/// the client saw.
pub proof fn lemma_from_trash_goes_on_when_checked(request: FromTrashRequest, state: FromTrashState, event: StepEvent)
    ensures
        (state is Target && found_node(event) is Some && found_node(event)->0.metadata_change_counter
            == request.to_change_count) ==> from_trash_spec(request, state, event) == (
            FromTrashState::Moving,
            (StepAction::MoveOutOfTrash { node: request.node_id, trash: state->Target_trash, to: request.to_node_id }),
        ),
{
}

} // verus!
