//! The upload sessions of the simple storage backend: which files are being uploaded
//! and into which directory their chunks go.
use vstd::prelude::*;
use std::collections::HashMap;
use crate::model::RevisionId;
use crate::vfs::{FileStatus, FileSystemError};

verus! {

broadcast use {
    vstd::std_specs::hash::group_hash_axioms,
    vstd::std_specs::hash::axiom_u128_obeys_hash_table_key_model,
    vstd::std_specs::hash::axiom_random_state_builds_valid_hashers,
};

/// The open upload sessions: the directory each file's chunks are written into.
pub struct UploadSessions {
    sessions: HashMap<RevisionId, String>,
}

/// The status of a file of the simple backend: a file whose directory exists is
/// staged while its session is open and persisted afterwards; without a directory it
/// is not found.
pub open spec fn session_status(sessions: Map<RevisionId, String>, key: RevisionId, dir_exists: bool) -> FileStatus {
    if dir_exists {
        if sessions.contains_key(key) {
            FileStatus::Staged
        } else {
            FileStatus::Persisted
        }
    } else {
        FileStatus::NotFound
    }
}

impl View for UploadSessions {
    type V = Map<RevisionId, String>;

    closed spec fn view(&self) -> Map<RevisionId, String> {
        self.sessions@
    }
}

impl UploadSessions {
    /// No session is open.
    pub fn new() -> (sessions: UploadSessions)
        ensures
            sessions@ == Map::<RevisionId, String>::empty(),
    {
        UploadSessions { sessions: HashMap::new() }
    }

    /// Opens the session of a new file whose chunks go into `dir`; an open session of
    /// the same file is replaced.
    pub fn open(&mut self, key: RevisionId, dir: String)
        ensures
            final(self)@ == old(self)@.insert(key, dir),
    {
        self.sessions.insert(key, dir);
    }

    /// Whether the file's upload session is open.
    pub fn is_open(&self, key: RevisionId) -> (open: bool)
        ensures
            open == self@.contains_key(key),
    {
        self.sessions.contains_key(&key)
    }

    /// The directory a chunk of the file is written into; writing to a file without an
    /// open session is refused as not found.
    pub fn chunk_dir(&self, key: RevisionId) -> (dir: Result<String, FileSystemError>)
        ensures
            match dir {
                Ok(d) => self@.contains_key(key) && d@ == self@[key]@,
                Err(e) => e is NotFound && !self@.contains_key(key),
            },
    {
        match self.sessions.get(&key) {
            Some(d) => Ok(d.clone()),
            None => Err(FileSystemError::NotFound),
        }
    }

    /// Commits the file: its session closes. A file without an open session is not
    /// found, and nothing changes.
    pub fn commit(&mut self, key: RevisionId) -> (result: Result<(), FileSystemError>)
        ensures
            result is Ok <==> old(self)@.contains_key(key),
            result is Ok ==> final(self)@ == old(self)@.remove(key),
            result matches Err(e) ==> e is NotFound && final(self)@ == old(self)@,
    {
        if self.sessions.contains_key(&key) {
            self.sessions.remove(&key);
            Ok(())
        } else {
            Err(FileSystemError::NotFound)
        }
    }

    /// The status of a file, given whether its directory exists.
    pub fn status(&self, key: RevisionId, dir_exists: bool) -> (status: FileStatus)
        ensures
            status == session_status(self@, key, dir_exists),
    {
        if dir_exists {
            if self.sessions.contains_key(&key) {
                FileStatus::Staged
            } else {
                FileStatus::Persisted
            }
        } else {
            FileStatus::NotFound
        }
    }
}

/// A file that was created and then committed is persisted while its directory
/// exists, and a second commit of it is refused.
pub proof fn lemma_commit_persists(sessions: Map<RevisionId, String>, key: RevisionId, dir: String)
    ensures
        session_status(sessions.insert(key, dir), key, true) == FileStatus::Staged,
        session_status(sessions.insert(key, dir).remove(key), key, true) == FileStatus::Persisted,
        !sessions.insert(key, dir).remove(key).contains_key(key),
{
}

} // verus!
