use todo_store::error::StoreError;
use todo_store::window_state::{read_window_state, StoredWindowState, WindowState};

#[test]
fn missing_window_file_reads_as_absent() {
    assert_eq!(read_window_state(StoredWindowState::Missing), Ok(None));
}

#[test]
fn malformed_window_file_is_a_parse_error() {
    let r = read_window_state(StoredWindowState::Malformed("expected value at line 1 column 1".to_string()));
    assert_eq!(r, Err(StoreError::Parse("expected value at line 1 column 1".to_string())));
}

#[test]
fn unreadable_window_file_is_an_io_error() {
    let r = read_window_state(StoredWindowState::Unreadable("denied".to_string()));
    assert_eq!(r, Err(StoreError::Io("denied".to_string())));
}

#[test]
fn saved_window_state_reads_back_present() {
    let saved = WindowState { x: -50, y: 20, width: 800, height: 600 };
    let r = read_window_state(StoredWindowState::Document(saved));
    assert_eq!(r, Ok(Some(WindowState { x: -50, y: 20, width: 800, height: 600 })));
}

#[test]
fn error_message_and_kind() {
    let io = StoreError::Io("disk full".to_string());
    let parse = StoreError::Parse("bad json".to_string());
    assert_eq!(io.message(), "disk full");
    assert_eq!(parse.message(), "bad json");
    assert!(!io.is_parse());
    assert!(parse.is_parse());
}
