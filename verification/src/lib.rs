//! In-memory application state for a task-tracking backend: a container
//! holding the optional current sprint and the ordered task list, a
//! manager handing out shared, lock-guarded access to one such container,
//! and a stable byte representation of the container's shape for the
//! persistence and IPC collaborators.

pub mod codec;
pub mod state;
