use crabdrive_server::sessions::UploadSessions;
use crabdrive_server::vfs::{
    file_status, idle_limit_reached, needs_prefetch, pending_delete_path, prefetch_index,
    prefetch_marker, rename_gives_up, FileStatus, FileSystemError,
};

#[test]
fn error_statuses() {
    assert_eq!(FileSystemError::NotFound.status_code(), 404);
    assert_eq!(FileSystemError::AlreadyExists.status_code(), 409);
    assert_eq!(FileSystemError::Io(std::io::ErrorKind::Other, "disk".to_string()).status_code(), 500);
}

#[test]
fn file_statuses() {
    assert_eq!(file_status(Some(0), false), FileStatus::Staged);
    assert_eq!(file_status(Some(4), true), FileStatus::Staged);
    assert_eq!(file_status(Some(5), true), FileStatus::Stale);
    assert_eq!(file_status(Some(6), false), FileStatus::Stale);
    assert_eq!(file_status(None, true), FileStatus::Persisted);
    assert_eq!(file_status(None, false), FileStatus::NotFound);
}

#[test]
fn operations_allowed_by_status() {
    assert!(FileStatus::NotFound.check_create().is_ok());
    assert!(matches!(FileStatus::Staged.check_create(), Err(FileSystemError::AlreadyExists)));
    assert!(FileStatus::Staged.check_abort().is_ok());
    assert!(FileStatus::Stale.check_abort().is_ok());
    assert!(matches!(FileStatus::Persisted.check_abort(), Err(FileSystemError::NotFound)));
    assert!(FileStatus::Persisted.check_persisted().is_ok());
    assert!(matches!(FileStatus::Staged.check_persisted(), Err(FileSystemError::NotFound)));
}

#[test]
fn collector_and_cache() {
    assert!(!idle_limit_reached(8));
    assert!(idle_limit_reached(9));
    assert!(idle_limit_reached(10));
    assert!(idle_limit_reached(255));
    assert!(needs_prefetch(0));
    assert!(!needs_prefetch(-1));
    assert!(needs_prefetch(-2));
    assert!(!needs_prefetch(3));
    assert_eq!(prefetch_marker(false, 4, 0), 4);
    assert_eq!(prefetch_marker(false, 4, 3), 1);
    assert_eq!(prefetch_marker(true, 4, 2), -1);
    assert_eq!(prefetch_index(10, 3), 13);
}

#[test]
fn deleting_directories() {
    assert!(!rename_gives_up(3));
    assert!(rename_gives_up(4));
    assert_eq!(pending_delete_path(&"/pers/4d/e6/ed/4b01".to_string()), "/pers/4d/e6/ed/4b01-i");
}

#[test]
fn upload_sessions() {
    let mut sessions = UploadSessions::new();
    assert_eq!(sessions.status(7, false), FileStatus::NotFound);
    assert!(matches!(sessions.chunk_dir(7), Err(FileSystemError::NotFound)));
    sessions.open(7, "/tmp/7".to_string());
    assert!(sessions.is_open(7));
    assert_eq!(sessions.status(7, true), FileStatus::Staged);
    assert_eq!(sessions.chunk_dir(7).unwrap(), "/tmp/7");
    assert!(sessions.commit(7).is_ok());
    assert_eq!(sessions.status(7, true), FileStatus::Persisted);
    assert!(matches!(sessions.commit(7), Err(FileSystemError::NotFound)));
    assert!(!sessions.is_open(7));
}
