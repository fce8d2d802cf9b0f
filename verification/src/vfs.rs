//! The virtual file system's model: file states, errors, and the decisions that the
//! chunk storage backends take about transfers, caching and deletion.
use vstd::prelude::*;
use vstd::string::StringExecFns;

verus! {

/// `std::io::ErrorKind`, carried inside `FileSystemError::Io`.
#[verifier::external_type_specification]
#[verifier::external_body]
pub struct ExIoErrorKind(std::io::ErrorKind);

/// An error of the file system.
#[derive(Debug)]
pub enum FileSystemError {
    /// File not found.
    NotFound,
    /// File already exists.
    AlreadyExists,
    /// An I/O error, with its kind and message.
    Io(std::io::ErrorKind, String),
}

impl FileSystemError {
    /// The HTTP status an error is answered with: 404 for a missing file, 409 for one
    /// that exists already, 500 for an I/O error.
    pub fn status_code(&self) -> (code: u16)
        ensures
            code == match self {
                FileSystemError::NotFound => 404u16,
                FileSystemError::AlreadyExists => 409u16,
                FileSystemError::Io(_, _) => 500u16,
            },
    {
        match self {
            FileSystemError::NotFound => 404,
            FileSystemError::AlreadyExists => 409,
            FileSystemError::Io(_, _) => 500,
        }
    }
}

/// Where a file stands in its life cycle.
#[derive(Clone, Copy, Debug, PartialEq, Eq, Structural)]
pub enum FileStatus {
    /// The upload received no chunk for five minutes or more.
    Stale,
    /// The file is being uploaded.
    Staged,
    /// The file is stored on persistent storage.
    Persisted,
    /// The file is neither staged nor persisted.
    NotFound,
}

/// Minutes without a chunk from which on an upload counts as stale.
pub const STALE_AFTER_MINUTES: u8 = 5;

/// Minutes without a chunk at which the collector aborts an upload.
pub const ABORT_AFTER_MINUTES: u8 = 10;

/// The status of a file: an open transfer that has been idle for `idle_minutes` is
/// stale once the counter reaches five and staged before; without a transfer the file is
/// persisted when its directory exists in persistent storage (`persisted`, which is
/// only looked at then), and not found otherwise.
pub open spec fn status_of(idle_minutes: Option<u8>, persisted: bool) -> FileStatus {
    match idle_minutes {
        Some(minutes) => if minutes >= STALE_AFTER_MINUTES {
            FileStatus::Stale
        } else {
            FileStatus::Staged
        },
        None => if persisted {
            FileStatus::Persisted
        } else {
            FileStatus::NotFound
        },
    }
}

/// Decides the status of a file from its open transfer, if any, and whether its
/// persistent directory exists.
pub fn file_status(idle_minutes: Option<u8>, persisted: bool) -> (status: FileStatus)
    ensures
        status == status_of(idle_minutes, persisted),
{
    match idle_minutes {
        Some(minutes) => if minutes >= STALE_AFTER_MINUTES {
            FileStatus::Stale
        } else {
            FileStatus::Staged
        },
        None => if persisted {
            FileStatus::Persisted
        } else {
            FileStatus::NotFound
        },
    }
}

impl FileStatus {
    /// A new file can be created only when no file with its key is staged or stored.
    pub fn check_create(&self) -> (result: Result<(), FileSystemError>)
        ensures
            result is Ok <==> *self == FileStatus::NotFound,
            result matches Err(e) ==> e is AlreadyExists,
    {
        match self {
            FileStatus::NotFound => Ok(()),
            _ => Err(FileSystemError::AlreadyExists),
        }
    }

    /// Only an upload in progress, stale or not, can be aborted.
    pub fn check_abort(&self) -> (result: Result<(), FileSystemError>)
        ensures
            result is Ok <==> (*self == FileStatus::Staged || *self == FileStatus::Stale),
            result matches Err(e) ==> e is NotFound,
    {
        match self {
            FileStatus::Staged | FileStatus::Stale => Ok(()),
            _ => Err(FileSystemError::NotFound),
        }
    }

    /// Only a persisted file can be deleted or read.
    pub fn check_persisted(&self) -> (result: Result<(), FileSystemError>)
        ensures
            result is Ok <==> *self == FileStatus::Persisted,
            result matches Err(e) ==> e is NotFound,
    {
        match self {
            FileStatus::Persisted => Ok(()),
            _ => Err(FileSystemError::NotFound),
        }
    }
}

/// Whether the collector aborts a ready transfer whose idle counter stood at
/// `last_idle_minutes` before this minute's tick: once the tick brings the counter to
/// ten minutes.
pub fn idle_limit_reached(last_idle_minutes: u8) -> (abort: bool)
    ensures
        abort == (last_idle_minutes + 1 >= ABORT_AFTER_MINUTES),
{
    last_idle_minutes >= ABORT_AFTER_MINUTES - 1
}

/// Whether reading a chunk that was cached with the marker `cached_at` starts loading
/// the following chunks: when no chunk ahead of it is cached (`cached_at < 1`) and
/// the file's end has not been reached (`cached_at != -1`).
pub fn needs_prefetch(cached_at: i8) -> (prefetch: bool)
    ensures
        prefetch == (cached_at < 1 && cached_at != -1),
{
    cached_at < 1 && cached_at != -1
}

/// The marker of the chunk `advance` places after the one that started a prefetch of
/// `cache_ahead` chunks: `-1` when the prefetch reached the end of the file, else the
/// number of chunks cached from it on.
pub fn prefetch_marker(reached_end: bool, cache_ahead: u8, advance: u8) -> (cached_at: i8)
    requires
        advance < cache_ahead,
        cache_ahead <= 127,
    ensures
        cached_at == (if reached_end { -1 } else { cache_ahead - advance }),
        !reached_end ==> cached_at >= 1,
{
    if reached_end {
        -1
    } else {
        (cache_ahead as i8) - (advance as i8)
    }
}

/// The index of the chunk `advance` places after `original_index`.
pub fn prefetch_index(original_index: i64, advance: u8) -> (index: i64)
    requires
        original_index + advance <= i64::MAX,
    ensures
        index == original_index + advance,
{
    original_index + advance as i64
}

/// Whether deleting a file gives up renaming its directory after `failures` failed
/// attempts: after the fourth.
pub fn rename_gives_up(failures: u8) -> (give_up: bool)
    ensures
        give_up == (failures > 3),
{
    failures > 3
}

/// The directory a persisted file is renamed to before it is removed, so that reads
/// no longer find it: its name with `-i` appended.
pub fn pending_delete_path(dir: &String) -> (path: String)
    ensures
        path@ == dir@ + "-i"@,
{
    let mut path = dir.clone();
    path.append("-i");
    path
}

} // verus!
