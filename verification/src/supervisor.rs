//! How the server reacts to what happens to its tasks.

use vstd::prelude::*;

verus! {

/// Something that happened while the server waits on its tasks.
#[derive(Clone, Copy, Debug, PartialEq, Eq, Structural)]
pub enum TaskEvent {
    /// Shutdown was requested.
    ShutdownRequested,
    /// A task ended with an error.
    TaskFailed,
    /// A task ended normally.
    TaskFinished,
    /// Waiting for a task failed.
    JoinFailed,
}

/// What the server does next.
#[derive(Clone, Copy, Debug, PartialEq, Eq, Structural)]
pub enum SupervisorAction {
    /// Stop waiting and wind down.
    Leave,
    /// Ask every task to stop, then keep waiting for them.
    CancelAll,
}

/// The server's reaction to `event`: a requested shutdown or a failed wait
/// ends the wait; any task that ends, well or badly, makes every other task
/// stop as well.
pub fn supervise(event: TaskEvent) -> (action: SupervisorAction)
    ensures
        action == (match event {
            TaskEvent::ShutdownRequested => SupervisorAction::Leave,
            TaskEvent::JoinFailed => SupervisorAction::Leave,
            TaskEvent::TaskFailed => SupervisorAction::CancelAll,
            TaskEvent::TaskFinished => SupervisorAction::CancelAll,
        }),
{
    match event {
        TaskEvent::ShutdownRequested | TaskEvent::JoinFailed => SupervisorAction::Leave,
        TaskEvent::TaskFailed | TaskEvent::TaskFinished => SupervisorAction::CancelAll,
    }
}

} // verus!
