//! The state container and its thread-safe manager.

use std::sync::Arc;
use vstd::prelude::*;
use vstd::rwlock::{ReadHandle, RwLock};

verus! {

/// A unit of work tracked by the application. Its concrete contents are
/// an external contract defined elsewhere; within this crate a task is an
/// opaque value held in an ordered, insertion-order-preserving list.
#[derive(Clone, Copy, PartialEq, Eq, Structural, Debug)]
pub struct Task {}

/// An active work period. At most one sprint is current at any instant;
/// like [`Task`], its concrete contents are an external contract and the
/// value is opaque here.
#[derive(Clone, Copy, PartialEq, Eq, Structural, Debug)]
pub struct Sprint {}

/// The complete state of the application: the currently active sprint,
/// if one exists, and the list of all tasks in insertion order.
pub struct AppState {
    /// The currently active sprint, if one exists.
    pub current_sprint: Option<Sprint>,
    /// All tasks in the system, oldest first.
    pub tasks: Vec<Task>,
}

impl Default for AppState {
    /// The empty state: no active sprint and no tasks.
    fn default() -> (r: Self)
        ensures
            r.current_sprint is None,
            r.tasks@ == Seq::<Task>::empty(),
    {
        AppState { current_sprint: None, tasks: Vec::new() }
    }
}

impl Clone for AppState {
    /// A clone agrees with the original in both fields.
    fn clone(&self) -> (r: Self)
        ensures
            r.current_sprint == self.current_sprint,
            r.tasks@ == self.tasks@,
    {
        let mut tasks: Vec<Task> = Vec::new();
        let mut i: usize = 0;
        while i < self.tasks.len()
            invariant
                i <= self.tasks@.len(),
                tasks@ == self.tasks@.subrange(0, i as int),
            decreases self.tasks@.len() - i,
        {
            tasks.push(self.tasks[i]);
            i = i + 1;
        }
        proof {
            assert(tasks@ =~= self.tasks@);
        }
        AppState { current_sprint: self.current_sprint, tasks }
    }
}

impl AppState {
    /// Appends one task at the end of the list; the sprint and every
    /// task already present are untouched.
    pub fn push_task(&mut self, t: Task)
        ensures
            final(self).tasks@ == old(self).tasks@.push(t),
            final(self).current_sprint == old(self).current_sprint,
    {
        self.tasks.push(t);
    }
}

/// The predicate configured on the shared lock. Every state value is
/// admissible: the container imposes no invariant of its own on
/// [`AppState`], and mutation discipline is left to the callers.
pub type StatePred = spec_fn(AppState) -> bool;

/// The predicate value itself: it admits every state.
pub open spec fn any_state() -> StatePred {
    |s: AppState| true
}

/// Manages the application's state with thread-safe access: one
/// reader/writer-locked [`AppState`], shared by reference counting, so
/// that any number of holders may read concurrently while a writer gets
/// exclusive access. Reader/writer discipline is enforced by the
/// verified lock itself.
///
/// Acquisition through a handle is infallible: this lock does not
/// poison, so there is no acquisition failure to surface or to swallow.
/// A holder that never releases leaves later acquisitions waiting.
pub struct StateManager {
    /// Thread-safe, shared reference to the application state.
    state: Arc<RwLock<AppState, StatePred>>,
}

impl StateManager {
    /// The underlying lock, as a mathematical value. Two handles equal
    /// under this function guard one and the same state.
    pub closed spec fn lock(&self) -> RwLock<AppState, StatePred> {
        *self.state
    }

    /// Creates a new manager around a fresh, empty state: no current
    /// sprint and no tasks. The lock admits every state value, so
    /// callers may store whatever state they build while writing.
    pub fn new() -> (r: Self)
        ensures
            forall|s: AppState| #[trigger] r.lock().inv(s),
    {
        StateManager { state: Arc::new(RwLock::new(AppState::default(), Ghost(any_state()))) }
    }

    /// Retrieves a shared handle to the state: every call on the same
    /// manager returns a handle to the very same lock. The caller
    /// acquires a read lock on it to inspect the state, or a write lock
    /// for exclusive mutation.
    pub fn get_state(&self) -> (r: Arc<RwLock<AppState, StatePred>>)
        ensures
            *r == self.lock(),
    {
        clone_shared(&self.state)
    }
}

/// Relies on `Arc::clone`: the returned handle shares the same
/// allocation as the original, hence denotes the same lock as a value.
#[verifier::external_body]
fn clone_shared(a: &Arc<RwLock<AppState, StatePred>>) -> (r: Arc<RwLock<AppState, StatePred>>)
    ensures
        *r == **a,
{
    Arc::clone(a)
}

/// Handles handed out by the same manager observe one underlying state:
/// two read locks acquired through two separately retrieved handles, held
/// at the same time, yield snapshots that agree in both fields.
pub fn snapshots_through_two_handles(m: &StateManager) -> (r: (AppState, AppState))
    ensures
        r.0.current_sprint == r.1.current_sprint,
        r.0.tasks@ == r.1.tasks@,
{
    let a = m.get_state();
    let b = m.get_state();
    let ra = a.acquire_read();
    let rb = b.acquire_read();
    proof {
        ReadHandle::lemma_readers_match(&ra, &rb);
    }
    let sa = ra.borrow().clone();
    let sb = rb.borrow().clone();
    ra.release_read();
    rb.release_read();
    (sa, sb)
}

} // verus!
