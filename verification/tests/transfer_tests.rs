use crabdrive_server::transfer::{FileTransfer, FileTransferState};

#[test]
fn states_of_bytes() {
    assert_eq!(FileTransferState::from_value(0), FileTransferState::Ready);
    assert_eq!(FileTransferState::from_value(1), FileTransferState::Comitting);
    assert_eq!(FileTransferState::from_value(2), FileTransferState::Aborting);
    assert_eq!(FileTransferState::from_value(3), FileTransferState::Writing);
    assert_eq!(FileTransferState::from_value(200), FileTransferState::Writing);
    assert_eq!(FileTransferState::Writing.value(), 3);
    assert_eq!(FileTransferState::Aborting.value(), 2);
}

#[test]
fn transitions_from_ready() {
    assert_eq!(FileTransferState::next_value(0, FileTransferState::Comitting), Some(1));
    assert_eq!(FileTransferState::next_value(0, FileTransferState::Aborting), Some(2));
    assert_eq!(FileTransferState::next_value(0, FileTransferState::Writing), Some(3));
    assert_eq!(FileTransferState::next_value(0, FileTransferState::Ready), None);
}

#[test]
fn writers_come_and_go() {
    assert_eq!(FileTransferState::next_value(3, FileTransferState::Writing), Some(4));
    assert_eq!(FileTransferState::next_value(4, FileTransferState::Ready), Some(3));
    assert_eq!(FileTransferState::next_value(3, FileTransferState::Ready), Some(0));
    assert_eq!(FileTransferState::next_value(254, FileTransferState::Writing), Some(255));
    assert_eq!(FileTransferState::next_value(255, FileTransferState::Writing), None);
    assert_eq!(FileTransferState::next_value(5, FileTransferState::Comitting), None);
}

#[test]
fn committing_and_aborting_are_final() {
    for target in [
        FileTransferState::Ready,
        FileTransferState::Comitting,
        FileTransferState::Aborting,
        FileTransferState::Writing,
    ] {
        assert_eq!(FileTransferState::next_value(1, target), None);
        assert_eq!(FileTransferState::next_value(2, target), None);
    }
}

#[test]
fn transfer_life_cycle() {
    let transfer = FileTransfer::new("/stage/ab/cd".to_string());
    assert_eq!(transfer.path, "/stage/ab/cd");
    assert_eq!(transfer.get_state(), FileTransferState::Ready);
    assert_eq!(transfer.try_set_state(FileTransferState::Ready), Err(()));
    assert_eq!(transfer.try_set_state(FileTransferState::Writing), Ok(()));
    assert_eq!(transfer.try_set_state(FileTransferState::Writing), Ok(()));
    assert_eq!(transfer.get_state(), FileTransferState::Writing);
    assert_eq!(transfer.try_set_state(FileTransferState::Comitting), Err(()));
    assert_eq!(transfer.try_set_state(FileTransferState::Ready), Ok(()));
    assert_eq!(transfer.get_state(), FileTransferState::Writing);
    assert_eq!(transfer.try_set_state(FileTransferState::Ready), Ok(()));
    assert_eq!(transfer.get_state(), FileTransferState::Ready);
    assert_eq!(transfer.try_set_state(FileTransferState::Comitting), Ok(()));
    assert_eq!(transfer.get_state(), FileTransferState::Comitting);
    assert_eq!(transfer.try_set_state(FileTransferState::Ready), Err(()));
    assert_eq!(transfer.get_state(), FileTransferState::Comitting);
}

#[test]
fn at_most_253_writers() {
    let transfer = FileTransfer::new(String::new());
    for _ in 0..253 {
        assert_eq!(transfer.try_set_state(FileTransferState::Writing), Ok(()));
    }
    assert_eq!(transfer.try_set_state(FileTransferState::Writing), Err(()));
    for _ in 0..253 {
        assert_eq!(transfer.try_set_state(FileTransferState::Ready), Ok(()));
    }
    assert_eq!(transfer.get_state(), FileTransferState::Ready);
}

#[test]
fn idle_ticks() {
    let transfer = FileTransfer::new(String::new());
    // the tenth idle minute brings the counter to ten: the transfer is aborted
    for _ in 0..9 {
        assert!(!transfer.tick_idle());
    }
    assert!(transfer.tick_idle());
    assert_eq!(transfer.reference.load(std::sync::atomic::Ordering::Relaxed), 10);
    transfer.touch();
    assert!(!transfer.tick_idle());
    assert_eq!(transfer.try_set_state(FileTransferState::Writing), Ok(()));
    for _ in 0..20 {
        assert!(!transfer.tick_idle());
    }
}

#[test]
fn some_writers_leave() {
    let transfer = FileTransfer::new("staging/ab".to_string());
    assert_eq!(transfer.path, "staging/ab");
    for _ in 0..5 {
        assert_eq!(transfer.try_set_state(FileTransferState::Writing), Ok(()));
    }
    for _ in 0..3 {
        assert_eq!(transfer.try_set_state(FileTransferState::Ready), Ok(()));
    }
    assert_eq!(transfer.get_state(), FileTransferState::Writing);
    for _ in 0..2 {
        assert_eq!(transfer.try_set_state(FileTransferState::Ready), Ok(()));
    }
    assert_eq!(transfer.get_state(), FileTransferState::Ready);
    assert_eq!(transfer.try_set_state(FileTransferState::Ready), Err(()));
}
