use taskstate::codec::{decode_state, encode_state};
use taskstate::state::{AppState, Sprint, Task};

#[test]
fn round_trip_populated_state() {
    let state = AppState {
        current_sprint: Some(Sprint {}),
        tasks: vec![Task {}, Task {}, Task {}],
    };
    let bytes = encode_state(&state);
    let decoded = decode_state(&bytes).unwrap();
    assert!(decoded.current_sprint == state.current_sprint);
    assert!(decoded.tasks == state.tasks);
}

#[test]
fn round_trip_empty_state() {
    let state = AppState::default();
    let bytes = encode_state(&state);
    let decoded = decode_state(&bytes).unwrap();
    assert!(decoded.current_sprint.is_none());
    assert!(decoded.tasks.is_empty());
}

#[test]
fn encoding_of_empty_state() {
    let bytes = encode_state(&AppState::default());
    assert_eq!(bytes, vec![0u8, 0, 0, 0, 0, 0, 0, 0, 0]);
}

#[test]
fn encoding_of_populated_state() {
    let state = AppState {
        current_sprint: Some(Sprint {}),
        tasks: vec![Task {}; 258],
    };
    let bytes = encode_state(&state);
    assert_eq!(bytes, vec![1u8, 2, 1, 0, 0, 0, 0, 0, 0]);
}

#[test]
fn decode_of_valid_bytes() {
    let bytes = vec![1u8, 5, 0, 0, 0, 0, 0, 0, 0];
    let state = decode_state(&bytes).unwrap();
    assert!(state.current_sprint.is_some());
    assert_eq!(state.tasks.len(), 5);
}

#[test]
fn decode_rejects_wrong_length() {
    assert!(decode_state(&Vec::new()).is_none());
    assert!(decode_state(&vec![0u8, 0, 0, 0]).is_none());
    assert!(decode_state(&vec![0u8; 10]).is_none());
}

#[test]
fn decode_rejects_bad_flag() {
    let bytes = vec![2u8, 0, 0, 0, 0, 0, 0, 0, 0];
    assert!(decode_state(&bytes).is_none());
}
