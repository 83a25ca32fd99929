//! The worker's loop, as a machine that decides and leaves the doing to its
//! driver: the driver performs the action that the present state asks for
//! and reports what came of it, and the machine says where to go next.
//!
//! A worker handles one task at a time. It claims a task, fetches it, runs
//! it, marks it finished and starts over; when nothing can be claimed it
//! waits for a fixed interval before it asks again.

use vstd::prelude::*;

use crate::history::{allowed, law_next_claim_is_allowed, Step};
use crate::model::StoreModel;
use crate::store::TaskStore;
use crate::{Instant, Task, TaskId, TaskState};

verus! {

/// How long a worker waits after it found nothing to claim.
pub const IDLE_WAIT_SECONDS: u64 = 5;

/// Where a worker is in its loop.
#[derive(Clone, Copy, Debug, PartialEq, Eq, Structural)]
pub enum WorkerState {
    /// About to ask the store for a task.
    Idle,
    /// Nothing could be claimed; waiting before the next attempt.
    Waiting,
    /// A task was claimed; its details are still to be fetched.
    Claimed { id: TaskId },
    /// The task is being run.
    Executing { task: Task },
    /// The task has run; it is still to be marked finished.
    Completed { id: TaskId },
}

/// What the driver is to do for a worker.
#[derive(Clone, Copy, Debug, PartialEq, Eq, Structural)]
pub enum WorkerAction {
    /// Try to claim one eligible task.
    ClaimNext,
    /// Do nothing for this many seconds.
    Sleep { seconds: u64 },
    /// Fetch the task with this identifier.
    Fetch { id: TaskId },
    /// Run the task, and come back when it is done.
    Execute { task: Task },
    /// Mark the task with this identifier finished.
    MarkFinished { id: TaskId },
}

/// What came of an action.
#[derive(Clone, Copy, Debug, PartialEq, Eq, Structural)]
pub enum WorkerEvent {
    /// The claim took the task with this identifier.
    Claimed { id: TaskId },
    /// The claim found no eligible task.
    NothingEligible,
    /// The claim was abandoned before it took effect.
    ClaimAborted,
    /// The wait is over.
    Woke,
    /// The fetch found this, or nothing.
    Fetched { task: Option<Task> },
    /// The task has run.
    Executed,
    /// The task is now marked finished.
    MarkedFinished,
    /// The store did not mark the task finished: it is not executing.
    FinishRejected,
    /// The store could not be reached.
    StoreFailed,
}

/// Why a worker cannot go on from where it is.
#[derive(Clone, Copy, Debug, PartialEq, Eq, Structural)]
pub enum WorkerFault {
    /// The event does not answer the action that the state asks for.
    UnexpectedEvent,
    /// The task that was claimed is not there as an executing task.
    ClaimedTaskMissing,
    /// The task that was run could not be marked finished.
    FinishRejected,
}

impl WorkerState {
    /// The action that a worker in this state asks for.
    pub open spec fn spec_action(self) -> WorkerAction {
        match self {
            WorkerState::Idle => WorkerAction::ClaimNext,
            WorkerState::Waiting => WorkerAction::Sleep { seconds: IDLE_WAIT_SECONDS },
            WorkerState::Claimed { id } => WorkerAction::Fetch { id },
            WorkerState::Executing { task } => WorkerAction::Execute { task },
            WorkerState::Completed { id } => WorkerAction::MarkFinished { id },
        }
    }

    /// Where an event leads from this state.
    ///
    /// A failure of the store sends the worker to wait and start over,
    /// whatever it was doing. An abandoned claim is tried again at once.
    pub open spec fn spec_step(self, event: WorkerEvent) -> Result<WorkerState, WorkerFault> {
        match (self, event) {
            (_, WorkerEvent::StoreFailed) => Ok(WorkerState::Waiting),
            (WorkerState::Idle, WorkerEvent::Claimed { id }) => Ok(WorkerState::Claimed { id }),
            (WorkerState::Idle, WorkerEvent::NothingEligible) => Ok(WorkerState::Waiting),
            (WorkerState::Idle, WorkerEvent::ClaimAborted) => Ok(WorkerState::Idle),
            (WorkerState::Waiting, WorkerEvent::Woke) => Ok(WorkerState::Idle),
            (WorkerState::Claimed { id }, WorkerEvent::Fetched { task }) => match task {
                Some(task) => if task.id == id && task.state == TaskState::Executing {
                    Ok(WorkerState::Executing { task })
                } else {
                    Err(WorkerFault::ClaimedTaskMissing)
                },
                None => Err(WorkerFault::ClaimedTaskMissing),
            },
            (WorkerState::Executing { task }, WorkerEvent::Executed) => Ok(
                WorkerState::Completed { id: task.id },
            ),
            (WorkerState::Completed { id }, WorkerEvent::MarkedFinished) => Ok(WorkerState::Idle),
            (WorkerState::Completed { id }, WorkerEvent::FinishRejected) => Err(
                WorkerFault::FinishRejected,
            ),
            _ => Err(WorkerFault::UnexpectedEvent),
        }
    }

    /// The task that a worker in this state holds, if any.
    pub open spec fn held(self) -> Option<TaskId> {
        match self {
            WorkerState::Claimed { id } => Some(id),
            WorkerState::Executing { task } => Some(task.id),
            WorkerState::Completed { id } => Some(id),
            _ => None,
        }
    }

    /// A worker starts idle.
    pub fn new() -> (state: WorkerState)
        ensures
            state == WorkerState::Idle,
    {
        WorkerState::Idle
    }

    pub fn action(self) -> (action: WorkerAction)
        ensures
            action == self.spec_action(),
    {
        match self {
            WorkerState::Idle => WorkerAction::ClaimNext,
            WorkerState::Waiting => WorkerAction::Sleep { seconds: IDLE_WAIT_SECONDS },
            WorkerState::Claimed { id } => WorkerAction::Fetch { id },
            WorkerState::Executing { task } => WorkerAction::Execute { task },
            WorkerState::Completed { id } => WorkerAction::MarkFinished { id },
        }
    }

    pub fn step(self, event: WorkerEvent) -> (next: Result<WorkerState, WorkerFault>)
        ensures
            next == self.spec_step(event),
    {
        match event {
            WorkerEvent::StoreFailed => Ok(WorkerState::Waiting),
            WorkerEvent::Claimed { id } => match self {
                WorkerState::Idle => Ok(WorkerState::Claimed { id }),
                _ => Err(WorkerFault::UnexpectedEvent),
            },
            WorkerEvent::NothingEligible => match self {
                WorkerState::Idle => Ok(WorkerState::Waiting),
                _ => Err(WorkerFault::UnexpectedEvent),
            },
            WorkerEvent::ClaimAborted => match self {
                WorkerState::Idle => Ok(WorkerState::Idle),
                _ => Err(WorkerFault::UnexpectedEvent),
            },
            WorkerEvent::Woke => match self {
                WorkerState::Waiting => Ok(WorkerState::Idle),
                _ => Err(WorkerFault::UnexpectedEvent),
            },
            WorkerEvent::Fetched { task } => match self {
                WorkerState::Claimed { id } => match task {
                    Some(task) => {
                        if task.id == id && task.state == TaskState::Executing {
                            Ok(WorkerState::Executing { task })
                        } else {
                            Err(WorkerFault::ClaimedTaskMissing)
                        }
                    },
                    None => Err(WorkerFault::ClaimedTaskMissing),
                },
                _ => Err(WorkerFault::UnexpectedEvent),
            },
            WorkerEvent::Executed => match self {
                WorkerState::Executing { task } => Ok(WorkerState::Completed { id: task.id }),
                _ => Err(WorkerFault::UnexpectedEvent),
            },
            WorkerEvent::MarkedFinished => match self {
                WorkerState::Completed { id } => Ok(WorkerState::Idle),
                _ => Err(WorkerFault::UnexpectedEvent),
            },
            WorkerEvent::FinishRejected => match self {
                WorkerState::Completed { id } => Err(WorkerFault::FinishRejected),
                _ => Err(WorkerFault::UnexpectedEvent),
            },
        }
    }

    /// Takes an event and says where the worker now is and what it asks
    /// for next.
    pub fn advance(self, event: WorkerEvent) -> (next: Result<
        (WorkerState, WorkerAction),
        WorkerFault,
    >)
        ensures
            match self.spec_step(event) {
                Ok(state) => next == Ok::<(WorkerState, WorkerAction), WorkerFault>(
                    (state, state.spec_action()),
                ),
                Err(fault) => next == Err::<(WorkerState, WorkerAction), WorkerFault>(fault),
            },
    {
        match self.step(event) {
            Ok(state) => Ok((state, state.action())),
            Err(fault) => Err(fault),
        }
    }

    /// The loop has one shape. Unless the store fails, a worker goes from
    /// idle to a claimed task, runs it, marks it finished and is idle again,
    /// or it goes from idle to waiting and back; and the task that it holds
    /// is the same one from the claim until it is marked finished.
    pub proof fn law_loop_shape(self, event: WorkerEvent)
        requires
            self.spec_step(event) is Ok,
            event != WorkerEvent::StoreFailed,
        ensures
            ({
                let next = self.spec_step(event).unwrap();
                &&& match self {
                    WorkerState::Idle => next is Idle || next is Waiting || next is Claimed,
                    WorkerState::Waiting => next is Idle,
                    WorkerState::Claimed { .. } => next is Executing,
                    WorkerState::Executing { .. } => next is Completed,
                    WorkerState::Completed { .. } => next is Idle,
                }
                &&& self.held() is Some && next.held() is Some ==> next.held() == self.held()
            }),
    {
    }
}

/// What a marking as finished comes to that changed this many rows: the task
/// is marked if it changed exactly one.
pub fn finish_event(rows: u64) -> (event: WorkerEvent)
    ensures
        event == if rows == 1 {
            WorkerEvent::MarkedFinished
        } else {
            WorkerEvent::FinishRejected
        },
{
    if rows == 1 {
        WorkerEvent::MarkedFinished
    } else {
        WorkerEvent::FinishRejected
    }
}

/// Where a claim stands that is made of separate requests to the store: one
/// that selects and locks a candidate, one that marks it executing, and one
/// that commits both.
#[derive(Clone, Copy, Debug, PartialEq, Eq, Structural)]
pub enum ClaimPhase {
    /// Waiting for the candidate.
    Selecting,
    /// Waiting for the number of rows that were marked executing.
    Marking { id: TaskId },
    /// Waiting for the commit.
    Committing { id: TaskId },
}

/// What the store answered to one request of a claim.
#[derive(Clone, Copy, Debug, PartialEq, Eq, Structural)]
pub enum ClaimReply {
    /// The eligible task that was selected and locked, if there was one.
    Selected { candidate: Option<TaskId> },
    /// The number of rows that were marked executing.
    Marked { rows: u64 },
    /// The commit went through.
    Committed,
}

/// How a claim goes on after a reply.
#[derive(Clone, Copy, Debug, PartialEq, Eq, Structural)]
pub enum ClaimProgress {
    /// Make the request of this phase next.
    Continue(ClaimPhase),
    /// The claim is over; hand the worker this event. Unless the event is
    /// `Claimed`, nothing was committed and the transaction is dropped.
    Done(WorkerEvent),
}

/// The next move of a claim.
///
/// Without a candidate there is nothing to claim. With one, the claim holds
/// only if exactly one row was marked and the commit went through; any other
/// number of rows, or a reply that does not answer the request, abandons it.
pub open spec fn spec_claim_progress(phase: ClaimPhase, reply: ClaimReply) -> ClaimProgress {
    match (phase, reply) {
        (ClaimPhase::Selecting, ClaimReply::Selected { candidate }) => match candidate {
            Some(id) => ClaimProgress::Continue(ClaimPhase::Marking { id }),
            None => ClaimProgress::Done(WorkerEvent::NothingEligible),
        },
        (ClaimPhase::Marking { id }, ClaimReply::Marked { rows }) => if rows == 1 {
            ClaimProgress::Continue(ClaimPhase::Committing { id })
        } else {
            ClaimProgress::Done(WorkerEvent::ClaimAborted)
        },
        (ClaimPhase::Committing { id }, ClaimReply::Committed) => ClaimProgress::Done(
            WorkerEvent::Claimed { id },
        ),
        _ => ClaimProgress::Done(WorkerEvent::ClaimAborted),
    }
}

pub fn claim_progress(phase: ClaimPhase, reply: ClaimReply) -> (progress: ClaimProgress)
    ensures
        progress == spec_claim_progress(phase, reply),
        progress matches ClaimProgress::Done(event) ==> WorkerState::Idle.spec_step(event) is Ok,
{
    match phase {
        ClaimPhase::Selecting => match reply {
            ClaimReply::Selected { candidate: Some(id) } => ClaimProgress::Continue(
                ClaimPhase::Marking { id },
            ),
            ClaimReply::Selected { candidate: None } => ClaimProgress::Done(
                WorkerEvent::NothingEligible,
            ),
            _ => ClaimProgress::Done(WorkerEvent::ClaimAborted),
        },
        ClaimPhase::Marking { id } => match reply {
            ClaimReply::Marked { rows } => {
                if rows == 1 {
                    ClaimProgress::Continue(ClaimPhase::Committing { id })
                } else {
                    ClaimProgress::Done(WorkerEvent::ClaimAborted)
                }
            },
            _ => ClaimProgress::Done(WorkerEvent::ClaimAborted),
        },
        ClaimPhase::Committing { id } => match reply {
            ClaimReply::Committed => ClaimProgress::Done(WorkerEvent::Claimed { id }),
            _ => ClaimProgress::Done(WorkerEvent::ClaimAborted),
        },
    }
}

/// A claim hands the worker a task only at the end of the one path on which
/// a candidate was selected, exactly one row was marked, and the commit went
/// through; and the task is that candidate.
pub proof fn law_claim_needs_all_three(candidate: Option<TaskId>, rows: u64, id: TaskId)
    ensures
        ({
            let selected = spec_claim_progress(
                ClaimPhase::Selecting,
                ClaimReply::Selected { candidate },
            );
            let marked = spec_claim_progress(ClaimPhase::Marking { id }, ClaimReply::Marked { rows });
            let committed = spec_claim_progress(ClaimPhase::Committing { id }, ClaimReply::Committed);
            &&& selected == ClaimProgress::Continue(ClaimPhase::Marking { id }) <==> candidate
                == Some(id)
            &&& marked == ClaimProgress::Continue(ClaimPhase::Committing { id }) <==> rows == 1
            &&& committed == ClaimProgress::Done(WorkerEvent::Claimed { id })
        }),
        forall|phase: ClaimPhase, reply: ClaimReply|
            spec_claim_progress(phase, reply) == ClaimProgress::Done(WorkerEvent::Claimed { id })
                ==> phase == (ClaimPhase::Committing { id }) && reply == ClaimReply::Committed,
{
}

/// What the action of `state` comes to on a store, at the instant `now`.
pub open spec fn spec_outcome(
    store: StoreModel,
    state: WorkerState,
    now: Instant,
) -> WorkerEvent {
    match state {
        WorkerState::Idle => match store.next_claim(now) {
            Some(id) => WorkerEvent::Claimed { id },
            None => WorkerEvent::NothingEligible,
        },
        WorkerState::Waiting => WorkerEvent::Woke,
        WorkerState::Claimed { id } => WorkerEvent::Fetched { task: store.lookup(id) },
        WorkerState::Executing { task } => WorkerEvent::Executed,
        WorkerState::Completed { id } => if store.finishable(id) {
            WorkerEvent::MarkedFinished
        } else {
            WorkerEvent::FinishRejected
        },
    }
}

/// The step that the action of `state` makes on a store.
pub open spec fn spec_store_step(
    store: StoreModel,
    state: WorkerState,
    now: Instant,
) -> Step {
    match state {
        WorkerState::Idle => Step::Claim { now, claimed: store.next_claim(now) },
        WorkerState::Completed { id } => Step::Finish { id },
        _ => Step::Read,
    }
}

/// Performs on `store` the action that a worker in `state` asks for, at the
/// instant `now`, and moves the worker on. Waiting and running a task are
/// not the store's business: they count as done.
///
/// The store changes by at most one step, a claim or a marking as finished.
pub fn serve(store: &mut TaskStore, state: WorkerState, now: Instant) -> (next: Result<
    WorkerState,
    WorkerFault,
>)
    requires
        old(store).wf(),
    ensures
        final(store).wf(),
        next == state.spec_step(spec_outcome(old(store)@, state, now)),
        final(store)@ == match state {
            WorkerState::Idle => match old(store)@.next_claim(now) {
                Some(id) => old(store)@.claim(id),
                None => old(store)@,
            },
            WorkerState::Completed { id } => old(store)@.finish(id),
            _ => old(store)@,
        },
        allowed(old(store)@, spec_store_step(old(store)@, state, now), final(store)@),
{
    proof {
        law_next_claim_is_allowed(store@, now);
    }
    let event = match state {
        WorkerState::Idle => match store.claim_next(now) {
            Some(id) => WorkerEvent::Claimed { id },
            None => WorkerEvent::NothingEligible,
        },
        WorkerState::Waiting => WorkerEvent::Woke,
        WorkerState::Claimed { id } => WorkerEvent::Fetched { task: store.get(id) },
        WorkerState::Executing { task } => WorkerEvent::Executed,
        WorkerState::Completed { id } => match store.mark_finished(id) {
            Ok(()) => WorkerEvent::MarkedFinished,
            Err(_) => WorkerEvent::FinishRejected,
        },
    };
    state.step(event)
}

} // verus!
