use taskstate::state::{AppState, StateManager, Task};
use taskstate::state::snapshots_through_two_handles;

#[test]
fn fresh_manager_state_is_empty() {
    let manager = StateManager::new();
    let shared = manager.get_state();
    let reader = shared.acquire_read();
    {
        let view = reader.borrow();
        assert!(view.current_sprint.is_none());
        assert_eq!(view.tasks.len(), 0);
    }
    reader.release_read();
}

#[test]
fn append_through_one_handle_visible_through_other() {
    let manager = StateManager::new();
    let handle_a = manager.get_state();
    let handle_b = manager.get_state();

    let appended = Task {};
    let (mut state, writer) = handle_a.acquire_write();
    state.push_task(appended);
    writer.release_write(state);

    let reader = handle_b.acquire_read();
    {
        let view = reader.borrow();
        assert_eq!(view.tasks.len(), 1);
        assert!(view.tasks[0] == appended);
    }
    reader.release_read();
}

#[test]
fn paired_snapshots_agree() {
    let manager = StateManager::new();
    let (a, b) = snapshots_through_two_handles(&manager);
    assert!(a.current_sprint == b.current_sprint);
    assert!(a.tasks == b.tasks);
}

#[test]
fn overlapping_read_locks_all_succeed() {
    let manager = StateManager::new();
    let shared = manager.get_state();
    // three read locks held at the same time: had readers excluded one
    // another, the second acquisition would never return
    let r1 = shared.acquire_read();
    let r2 = shared.acquire_read();
    let r3 = shared.acquire_read();
    assert_eq!(r1.borrow().tasks.len(), 0);
    assert_eq!(r2.borrow().tasks.len(), 0);
    assert_eq!(r3.borrow().tasks.len(), 0);
    r1.release_read();
    r2.release_read();
    r3.release_read();
}

#[test]
fn default_state_is_empty() {
    let state = AppState::default();
    assert!(state.current_sprint.is_none());
    assert!(state.tasks.is_empty());
}

#[test]
fn push_task_appends_in_order() {
    let mut state = AppState::default();
    let first = Task {};
    state.push_task(first);
    assert_eq!(state.tasks.len(), 1);
    assert!(state.tasks[0] == first);
    state.push_task(Task {});
    assert_eq!(state.tasks.len(), 2);
}
