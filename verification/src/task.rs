//! Tasks: suspendable units of cooperative work, identified by a `TaskId`.
//!
//! A task is modelled as an explicit state machine: each time the executor
//! polls it, the task either completes or reaches a suspension point and
//! yields control. The discriminant of `TaskKind` is the task's "where was I"
//! state.

use vstd::prelude::*;

verus! {

/// A non-owning handle for a task; wakers carry this, never the task itself.
#[derive(Clone, Copy, PartialEq, Eq, Structural, Debug)]
pub struct TaskId {
    pub id: u64,
}

/// The state machine of a task's suspendable computation.
#[derive(Clone, Copy, PartialEq, Eq, Structural, Debug)]
pub enum TaskKind {
    /// Cooperatively yields `remaining` more times (waking itself again each
    /// time), then completes with `value`.
    CountYields { remaining: u64, value: u32 },
    /// Drains the scancode queue whenever woken, registers interest again,
    /// and suspends; by design it never completes.
    DrainQueue,
}

/// A suspended computation owned by the executor once spawned.
#[derive(Clone, Copy, PartialEq, Eq, Structural, Debug)]
pub struct Task {
    pub id: TaskId,
    pub kind: TaskKind,
}

/// An upper bound on how many times a task can still be polled before it
/// completes, within one executor run with no outside wake arriving:
/// a counting task is polled once per yield plus once to complete; a queue
/// drainer is polled only when woken from outside.
pub open spec fn task_weight(t: Task) -> nat {
    match t.kind {
        TaskKind::CountYields { remaining, .. } => remaining as nat + 1,
        TaskKind::DrainQueue => 0,
    }
}

} // verus!
