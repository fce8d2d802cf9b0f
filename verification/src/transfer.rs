//! Upload transfer state machine.
//!
//! A transfer's state is kept in a single byte so that it can live in an atomic:
//! `0` is ready, `1` committing, `2` aborting, and every value from `3` upward
//! counts the chunk writers currently active (`3` is one writer).
use vstd::prelude::*;
use std::sync::atomic::AtomicU8;

verus! {

/// The state of an upload transfer.
#[derive(Clone, Copy, Debug, PartialEq, Eq, Structural)]
pub enum FileTransferState {
    /// The file is idle and no operation runs on it.
    Ready,
    /// The file is being committed.
    Comitting,
    /// The transfer is aborting and its file is being deleted.
    Aborting,
    /// One or more chunk writers are active.
    Writing,
}

/// The state that a stored byte stands for.
pub open spec fn state_of(value: u8) -> FileTransferState {
    if value == 0 {
        FileTransferState::Ready
    } else if value == 1 {
        FileTransferState::Comitting
    } else if value == 2 {
        FileTransferState::Aborting
    } else {
        FileTransferState::Writing
    }
}

impl FileTransferState {
    /// Reads the state that a stored byte stands for; every byte stands for one.
    pub fn from_value(value: u8) -> (state: FileTransferState)
        ensures
            state == state_of(value),
    {
        if value == 0 {
            FileTransferState::Ready
        } else if value == 1 {
            FileTransferState::Comitting
        } else if value == 2 {
            FileTransferState::Aborting
        } else {
            FileTransferState::Writing
        }
    }
}


impl TryFrom<u8> for FileTransferState {
    type Error = ();

    /// Every byte stands for a state, so the conversion always succeeds.
    fn try_from(value: u8) -> (state: Result<FileTransferState, ()>) {
        Ok(FileTransferState::from_value(value))
    }
}

impl vstd::std_specs::convert::TryFromSpecImpl<u8> for FileTransferState {
    open spec fn obeys_try_from_spec() -> bool {
        true
    }

    open spec fn try_from_spec(value: u8) -> Result<FileTransferState, ()> {
        Ok(state_of(value))
    }
}

/// The byte that stands for a state when it is entered from the ready state.
pub open spec fn entry_value(state: FileTransferState) -> u8 {
    match state {
        FileTransferState::Ready => 0,
        FileTransferState::Comitting => 1,
        FileTransferState::Aborting => 2,
        FileTransferState::Writing => 3,
    }
}

/// The byte that a transfer moves to when `target` is requested while `current` is
/// stored, or `None` when the request is refused.
///
/// From ready every other state can be entered; a further writer raises the
/// writer count (refused at the top of the byte range); a writer that leaves lowers
/// it, and the last one leaving makes the transfer ready. Everything else is refused.
pub open spec fn next_state_value(current: u8, target: FileTransferState) -> Option<u8> {
    match (state_of(current), target) {
        (FileTransferState::Ready, FileTransferState::Comitting) => Some(1u8),
        (FileTransferState::Ready, FileTransferState::Aborting) => Some(2u8),
        (FileTransferState::Ready, FileTransferState::Writing) => Some(3u8),
        (FileTransferState::Writing, FileTransferState::Writing) => {
            if current == 255 {
                None
            } else {
                Some((current + 1) as u8)
            }
        },
        (FileTransferState::Writing, FileTransferState::Ready) => {
            if current == 3 {
                Some(0u8)
            } else {
                Some((current - 1) as u8)
            }
        },
        _ => None,
    }
}

/// The number of chunk writers that a stored byte counts.
pub open spec fn writers(value: u8) -> nat {
    if value >= 3 {
        (value - 2) as nat
    } else {
        0
    }
}

impl FileTransferState {
    /// The byte that stands for this state when it is entered from the ready state.
    pub fn value(&self) -> (v: u8)
        ensures
            v == entry_value(*self),
            state_of(v) == *self,
    {
        match self {
            FileTransferState::Ready => 0,
            FileTransferState::Comitting => 1,
            FileTransferState::Aborting => 2,
            FileTransferState::Writing => 3,
        }
    }

    /// The byte to store when `target` is requested while `current` is stored, or
    /// `None` when the transition is refused.
    pub fn next_value(current: u8, target: FileTransferState) -> (next: Option<u8>)
        ensures
            next == next_state_value(current, target),
    {
        let current_state = FileTransferState::from_value(current);
        match (current_state, target) {
            (FileTransferState::Ready, FileTransferState::Comitting) => Some(1),
            (FileTransferState::Ready, FileTransferState::Aborting) => Some(2),
            (FileTransferState::Ready, FileTransferState::Writing) => Some(3),
            (FileTransferState::Writing, FileTransferState::Writing) => {
                if current == 255 {
                    None
                } else {
                    Some(current + 1)
                }
            },
            (FileTransferState::Writing, FileTransferState::Ready) => {
                if current == 3 {
                    Some(0)
                } else {
                    Some(current - 1)
                }
            },
            _ => None,
        }
    }
}

/// Atomically replaces the stored byte by `FileTransferState::next_value` of it, retrying
/// while other threads change it in between (`AtomicU8::fetch_update`).
///
/// The contract claims what std documents of `fetch_update`: it returns `Ok` with the
/// byte that the closure last saw when the closure gave `Some`, and `Err` with that
/// byte when it gave `None`. Which byte that is depends on the other threads.
#[verifier::external_body]
fn update_state_byte(state: &AtomicU8, target: FileTransferState) -> (observed: Result<u8, u8>)
    ensures
        match observed {
            Ok(previous) => next_state_value(previous, target) is Some,
            Err(previous) => next_state_value(previous, target) is None,
        },
{
    state.fetch_update(
        std::sync::atomic::Ordering::SeqCst,
        std::sync::atomic::Ordering::Acquire,
        |current| FileTransferState::next_value(current, target),
    )
}

/// The state byte of a transfer. It is private, so that it is read only through
/// `FileTransfer::get_state` and changed only through `FileTransfer::try_set_state`.
pub struct StateByte {
    byte: AtomicU8,
}

/// An upload in progress: chunks are written below `path` until the transfer is
/// committed or aborted.
pub struct FileTransfer {
    /// The state of the transfer.
    pub state: StateByte,
    /// Minutes since the transfer last received a chunk. Once the counter reaches 5
    /// the transfer is stale, and once it reaches 10 the transfer is aborted.
    pub reference: AtomicU8,
    /// The sharded base path in the staging directory that holds the chunks.
    pub path: String,
}

impl FileTransfer {
    /// A ready transfer, idle for no minute yet, that stores its chunks below `path`.
    pub fn new(path: String) -> (transfer: FileTransfer)
        ensures
            transfer.path == path,
    {
        let ready = FileTransferState::Ready.value();
        FileTransfer { state: StateByte { byte: AtomicU8::new(ready) }, reference: AtomicU8::new(0), path }
    }

    /// The current state of the transfer. Other threads may change it at any time, so
    /// nothing is promised of the value read.
    pub fn get_state(&self) -> FileTransferState {
        let value = self.state.byte.load(std::sync::atomic::Ordering::Relaxed);
        FileTransferState::from_value(value)
    }

    /// One minute of the collector's clock: a ready transfer's idle counter is raised
    /// by one, and the transfer is to be aborted when the counter reaches ten (see
    /// `vfs::idle_limit_reached`). Other threads may change the counter at any
    /// time, so nothing is promised of the outcome.
    pub fn tick_idle(&self) -> bool {
        if self.get_state() == FileTransferState::Ready {
            let last = self.reference.fetch_add(1, std::sync::atomic::Ordering::Relaxed);
            crate::vfs::idle_limit_reached(last)
        } else {
            false
        }
    }

    /// Records that the transfer received a chunk: it has been idle for no minute.
    pub fn touch(&self) {
        self.reference.store(0, std::sync::atomic::Ordering::SeqCst);
    }

    /// Requests the state `target`. Succeeds when the state byte observed at the moment
    /// of the atomic update allowed the transition (see `next_state_value`), and fails,
    /// leaving the byte unchanged, when it did not.
    pub fn try_set_state(&self, target: FileTransferState) -> (result: Result<(), ()>)
        ensures
            result is Ok ==> exists|previous: u8| #[trigger] next_state_value(previous, target) is Some,
            result is Err ==> exists|previous: u8| #[trigger] next_state_value(previous, target) is None,
    {
        match update_state_byte(&self.state.byte, target) {
            Ok(_) => Ok(()),
            Err(_) => Err(()),
        }
    }
}


/// The byte after requesting each state of `requests` in turn from `start`, or `None`
/// as soon as one request is refused.
pub open spec fn run_requests(start: u8, requests: Seq<FileTransferState>) -> Option<u8>
    decreases requests.len(),
{
    if requests.len() == 0 {
        Some(start)
    } else {
        match next_state_value(start, requests[0]) {
            Some(next) => run_requests(next, requests.drop_first()),
            None => None,
        }
    }
}

/// `count` requests of the same state.
pub open spec fn repeated(state: FileTransferState, count: nat) -> Seq<FileTransferState> {
    Seq::new(count, |i: int| state)
}

proof fn lemma_run_append(start: u8, first: Seq<FileTransferState>, second: Seq<FileTransferState>)
    ensures
        run_requests(start, first + second) == match run_requests(start, first) {
            Some(middle) => run_requests(middle, second),
            None => None,
        },
    decreases first.len(),
{
    if first.len() > 0 {
        assert((first + second).drop_first() =~= first.drop_first() + second);
        assert((first + second)[0] == first[0]);
        match next_state_value(start, first[0]) {
            Some(next) => lemma_run_append(next, first.drop_first(), second),
            None => {},
        }
    } else {
        assert(first + second =~= second);
    }
}

proof fn lemma_writers_enter(start: u8, count: nat)
    requires
        start >= 3,
        start + count <= 255,
    ensures
        run_requests(start, repeated(FileTransferState::Writing, count)) == Some((start + count) as u8),
    decreases count,
{
    if count > 0 {
        assert(repeated(FileTransferState::Writing, count).drop_first() =~= repeated(
            FileTransferState::Writing,
            (count - 1) as nat,
        ));
        lemma_writers_enter((start + 1) as u8, (count - 1) as nat);
    }
}

proof fn lemma_writers_leave(start: u8, count: nat)
    requires
        start >= 3,
        count == start - 2,
    ensures
        run_requests(start, repeated(FileTransferState::Ready, count)) == Some(0u8),
    decreases count,
{
    assert(repeated(FileTransferState::Ready, count).drop_first() =~= repeated(
        FileTransferState::Ready,
        (count - 1) as nat,
    ));
    assert(repeated(FileTransferState::Ready, count)[0] == FileTransferState::Ready);
    if start > 3 {
        lemma_writers_leave((start - 1) as u8, (count - 1) as nat);
    } else {
        assert(run_requests(0, repeated(FileTransferState::Ready, 0)) == Some(0u8));
    }
}

/// A ready transfer that admits `count` chunk writers, one after the other, and sees
/// each of them leave again, is ready afterwards; up to 253 writers can be active at
/// once.
pub proof fn lemma_writers_return_to_ready(count: nat)
    requires
        1 <= count <= 253,
    ensures
        run_requests(0, repeated(FileTransferState::Writing, count)) == Some((count + 2) as u8),
        run_requests(
            0,
            repeated(FileTransferState::Writing, count) + repeated(FileTransferState::Ready, count),
        ) == Some(0u8),
{
    let writing = repeated(FileTransferState::Writing, count);
    assert(writing.drop_first() =~= repeated(FileTransferState::Writing, (count - 1) as nat));
    lemma_writers_enter(3, (count - 1) as nat);
    lemma_writers_leave((count + 2) as u8, count);
    lemma_run_append(0, writing, repeated(FileTransferState::Ready, count));
}

proof fn lemma_some_writers_leave(start: u8, count: nat)
    requires
        start >= 3,
        count < start - 2,
    ensures
        run_requests(start, repeated(FileTransferState::Ready, count)) == Some((start - count) as u8),
    decreases count,
{
    if count > 0 {
        assert(repeated(FileTransferState::Ready, count).drop_first() =~= repeated(
            FileTransferState::Ready,
            (count - 1) as nat,
        ));
        assert(repeated(FileTransferState::Ready, count)[0] == FileTransferState::Ready);
        lemma_some_writers_leave((start - 1) as u8, (count - 1) as nat);
    }
}

/// A ready transfer that admits `admitted` chunk writers and then sees `left` of
/// them leave accepts every one of these requests; it is still writing, with
/// `admitted - left` writers, while some remain, and ready once all have left.
pub proof fn lemma_writers_leave_one_by_one(admitted: nat, left: nat)
    requires
        1 <= admitted <= 253,
        1 <= left <= admitted,
    ensures
        run_requests(
            0,
            repeated(FileTransferState::Writing, admitted) + repeated(FileTransferState::Ready, left),
        ) == Some(if left < admitted { (admitted - left + 2) as u8 } else { 0u8 }),
        state_of(
            run_requests(
                0,
                repeated(FileTransferState::Writing, admitted) + repeated(FileTransferState::Ready, left),
            )->0,
        ) == (if left < admitted { FileTransferState::Writing } else { FileTransferState::Ready }),
        writers(
            run_requests(
                0,
                repeated(FileTransferState::Writing, admitted) + repeated(FileTransferState::Ready, left),
            )->0,
        ) == admitted - left,
{
    lemma_writers_return_to_ready(admitted);
    lemma_run_append(0, repeated(FileTransferState::Writing, admitted), repeated(FileTransferState::Ready, left));
    if left < admitted {
        lemma_some_writers_leave((admitted + 2) as u8, left);
    } else {
        lemma_writers_leave((admitted + 2) as u8, left);
    }
}

/// With 253 writers active, a further writer is refused.
pub proof fn lemma_writer_limit()
    ensures
        next_state_value(255, FileTransferState::Writing) is None,
        run_requests(0, repeated(FileTransferState::Writing, 254)) is None,
{
    let writing = repeated(FileTransferState::Writing, 254);
    lemma_writers_return_to_ready(253);
    assert(writing =~= repeated(FileTransferState::Writing, 253) + repeated(
        FileTransferState::Writing,
        1,
    ));
    lemma_run_append(0, repeated(FileTransferState::Writing, 253), repeated(
        FileTransferState::Writing,
        1,
    ));
}

/// A transfer that is committing or aborting accepts no further request: both states
/// are final.
pub proof fn lemma_commit_and_abort_are_final(current: u8, target: FileTransferState)
    requires
        state_of(current) == FileTransferState::Comitting || state_of(current)
            == FileTransferState::Aborting,
    ensures
        next_state_value(current, target) is None,
{
}

/// Committing, aborting and the first writer can only start from the ready state, and
/// each then stores the byte of the state it entered.
pub proof fn lemma_entered_only_from_ready(current: u8, target: FileTransferState)
    requires
        target != FileTransferState::Ready,
        state_of(current) != FileTransferState::Writing,
    ensures
        next_state_value(current, target) is Some <==> state_of(current) == FileTransferState::Ready,
        next_state_value(current, target) is Some ==> next_state_value(current, target)
            == Some(entry_value(target)),
{
}

/// An accepted request changes the writer count by exactly one writer or enters or
/// leaves a non-writing state; a transfer never holds writers and another state at once.
pub proof fn lemma_writer_count_steps(current: u8, target: FileTransferState)
    requires
        next_state_value(current, target) is Some,
    ensures
        ({
            let next = next_state_value(current, target)->0;
            &&& target == FileTransferState::Writing ==> writers(next) == writers(current) + 1
            &&& (target == FileTransferState::Ready) ==> writers(next) + 1 == writers(current)
            &&& (target == FileTransferState::Ready && writers(next) == 0) ==> next == 0
            &&& state_of(next) == FileTransferState::Writing <==> writers(next) > 0
        }),
{
}

/// Requesting the ready state of a ready transfer is refused.
pub proof fn lemma_ready_is_not_requested_twice()
    ensures
        next_state_value(0, FileTransferState::Ready) is None,
{
}

} // verus!
