//! An instrumented exclusive-lock primitive.
//!
//! Every lock and unlock runs through a process-wide [`coordinator::Coordinator`]:
//! a registry that tracks each lock's status and the acquirers that have waited
//! past a threshold, so that sustained contention can be diagnosed instead of
//! hanging silently. The [`mutex::Mutex`] handle wraps a protected value and
//! delegates all of its status transitions to the coordinator.

pub mod coordinator;
pub mod mutex;

pub use coordinator::Coordinator;
pub use coordinator::LockStatus;
pub use mutex::Mutex;
pub use mutex::MutexGuard;
