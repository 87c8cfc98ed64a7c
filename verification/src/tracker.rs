//! Cancellable background-task tracking.
//!
//! A [`TaskHandle`] is an opaque cancellation token for one scheduled unit
//! of work. A [`TaskTracker`] is an unordered collection of such tokens
//! scoped to one component instance: cancelling the tracker cancels every
//! member, is safe on tasks that already completed, and may be called any
//! number of times. A component that starts background work on mount tracks
//! it here and aborts the tracker on exit, so no task keeps operating on a
//! torn-down view's state.

use vstd::prelude::*;
use tokio::task::AbortHandle;

verus! {

#[verifier::external_type_specification]
#[verifier::external_body]
pub struct ExAbortHandle(AbortHandle);

/// Relies on tokio::task::AbortHandle::abort: cancels the task at its next
/// suspension point; per its documentation it does nothing when the task
/// has already completed or was already cancelled.
#[verifier::external_body]
fn abort_task(h: &AbortHandle) {
    h.abort()
}

/// Relies on tokio::task::AbortHandle::is_finished: whether the task has
/// run to completion or its cancellation has completed. When that happens
/// depends on the scheduler, so nothing is assumed of the outcome.
#[verifier::external_body]
fn task_is_finished(h: &AbortHandle) -> bool {
    h.is_finished()
}

/// The lifecycle status of one scheduled unit of work, as cancellation
/// sees it.
#[derive(Clone, Copy, Debug, PartialEq, Eq, Structural)]
pub enum TaskStatus {
    /// The work has not yet completed and has not been cancelled.
    Running,
    /// The work ran to completion before any cancellation reached it.
    Finished,
    /// The work was cancelled before completing.
    Cancelled,
}

/// The status of one task after an abort reaches it: running work is
/// cancelled at its next suspension point; work that already finished, or
/// was already cancelled, is unaffected.
pub open spec fn aborted(s: TaskStatus) -> TaskStatus {
    match s {
        TaskStatus::Running => TaskStatus::Cancelled,
        _ => s,
    }
}

/// The statuses of a tracked set after an abort reaches every member.
pub open spec fn all_aborted(statuses: Seq<TaskStatus>) -> Seq<TaskStatus> {
    statuses.map_values(|s: TaskStatus| aborted(s))
}

/// After the whole set is aborted, every previously tracked task reports
/// terminated — finished or cancelled, never still running — and aborting
/// the set again has no further effect: cancellation is idempotent.
pub proof fn lemma_abort_all_terminates_and_is_idempotent(statuses: Seq<TaskStatus>)
    ensures
        forall|i: int|
            0 <= i < statuses.len() ==> #[trigger] all_aborted(statuses)[i] != TaskStatus::Running,
        all_aborted(all_aborted(statuses)) == all_aborted(statuses),
{
    assert(all_aborted(all_aborted(statuses)) =~= all_aborted(statuses));
}

/// An opaque cancellation token for one scheduled unit of work.
pub struct TaskHandle {
    inner: AbortHandle,
}

impl TaskHandle {
    /// Wrap the cancellation token of one scheduled unit of work.
    pub fn new(inner: AbortHandle) -> TaskHandle {
        TaskHandle { inner }
    }

    /// Cancel the work at its next suspension point. A no-op when the work
    /// already completed or was already cancelled; cancelled work does not
    /// report its cancellation as a failure to anyone.
    pub fn cancel(&self) {
        abort_task(&self.inner);
    }

    /// Whether the work has terminated: ran to completion, or had its
    /// cancellation complete. Shortly after a cancel this may still report
    /// false, until the cancellation lands.
    pub fn is_finished(&self) -> bool {
        task_is_finished(&self.inner)
    }
}

/// An unordered collection of cancellation tokens scoped to one component
/// instance.
pub struct TaskTracker {
    handles: Vec<TaskHandle>,
}

impl TaskTracker {
    /// How many handles are tracked.
    pub closed spec fn tracked_count(&self) -> nat {
        self.handles@.len()
    }

    /// An empty tracker.
    pub fn new() -> (t: TaskTracker)
        ensures
            t.tracked_count() == 0,
    {
        TaskTracker { handles: Vec::new() }
    }

    /// Add a cancellation token to the tracked set. Pure bookkeeping: the
    /// running work is unaffected.
    pub fn track(&mut self, handle: TaskHandle)
        ensures
            final(self).tracked_count() == old(self).tracked_count() + 1,
    {
        self.handles.push(handle);
    }

    /// How many handles are tracked.
    pub fn len(&self) -> (n: usize)
        ensures
            n == self.tracked_count(),
    {
        self.handles.len()
    }

    /// Cancel every tracked task. Safe to call on handles whose tasks have
    /// already completed — aborting those is a no-op — and callable any
    /// number of times: the tracked set is kept, and a repeated pass aborts
    /// tasks that are already finished or cancelled, to no further effect.
    pub fn abort_all(&self) {
        let mut i: usize = 0;
        while i < self.handles.len()
            decreases self.handles.len() - i,
        {
            self.handles[i].cancel();
            i = i + 1;
        }
    }
}

impl Default for TaskTracker {
    /// An empty tracker.
    fn default() -> (t: TaskTracker)
        ensures
            t.tracked_count() == 0,
    {
        TaskTracker::new()
    }
}

} // verus!
