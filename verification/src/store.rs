//! The task store: the table of tasks and the operations on it, each of
//! which happens as one indivisible step.

use vstd::prelude::*;

use crate::model::{eligible, passes, StoreModel};
use crate::{Instant, Task, TaskId, TaskState, TaskType};

verus! {

/// Why the store did not do what was asked.
#[derive(Clone, Copy, Debug, PartialEq, Eq, Structural)]
pub enum StoreError {
    /// No task has the identifier, or the task can no longer be deleted.
    NotFound,
    /// The store cannot take another task.
    Unavailable,
    /// The task is not in the state that the operation needs.
    ContractViolation,
}

/// A task store held in memory. Tasks are kept in the order of their
/// creation; identifiers count up from zero and are never used twice.
pub struct TaskStore {
    rows: Vec<Task>,
    next_id: u128,
}

impl View for TaskStore {
    type V = StoreModel;

    closed spec fn view(&self) -> StoreModel {
        StoreModel { rows: self.rows@, next_id: self.next_id as nat }
    }
}

impl TaskStore {
    /// Whether the store is in order: see [`StoreModel::wf`].
    pub open spec fn wf(&self) -> bool {
        self@.wf()
    }

    /// A store without tasks.
    pub fn new() -> (store: TaskStore)
        ensures
            store.wf(),
            store@ == StoreModel::empty(),
    {
        TaskStore { rows: Vec::new(), next_id: 0 }
    }

    /// A store without tasks whose identifiers start at `first_id`.
    pub fn starting_at(first_id: TaskId) -> (store: TaskStore)
        ensures
            store.wf(),
            store@ == (StoreModel { rows: Seq::empty(), next_id: first_id as nat }),
    {
        TaskStore { rows: Vec::new(), next_id: first_id }
    }

    /// The number of stored tasks.
    pub fn len(&self) -> (n: usize)
        ensures
            n == self@.rows.len(),
    {
        self.rows.len()
    }

    /// Creates a task in state `Scheduled` and returns its identifier. This
    /// fails only when every identifier has been handed out.
    pub fn insert(&mut self, task_type: TaskType, execute_at: Instant) -> (created: Result<
        TaskId,
        StoreError,
    >)
        requires
            old(self).wf(),
        ensures
            final(self).wf(),
            match created {
                Ok(id) => {
                    &&& old(self)@.has_room()
                    &&& id == old(self)@.next_id
                    &&& final(self)@ == old(self)@.insert(task_type, execute_at)
                    &&& old(self)@.lookup(id) is None
                    &&& final(self)@.lookup(id) == Some(
                        Task { id, state: TaskState::Scheduled, task_type, execute_at },
                    )
                },
                Err(e) => {
                    &&& !old(self)@.has_room()
                    &&& e == StoreError::Unavailable
                    &&& final(self)@ == old(self)@
                },
            },
    {
        if self.next_id == u128::MAX {
            return Err(StoreError::Unavailable);
        }
        let id = self.next_id;
        proof {
            self@.lemma_insert(task_type, execute_at, id);
        }
        self.rows.push(Task { id, state: TaskState::Scheduled, task_type, execute_at });
        self.next_id = id + 1;
        Ok(id)
    }

    /// The row that holds the task with this identifier, if any.
    fn find(&self, id: TaskId) -> (at: Option<usize>)
        requires
            self.wf(),
        ensures
            match at {
                Some(i) => self@.holds_at(id, i as int) && self@.position(id) == i
                    && self@.lookup(id) == Some(self@.rows[i as int]),
                None => !self@.holds(id) && self@.lookup(id) is None,
            },
    {
        let mut i: usize = 0;
        while i < self.rows.len()
            invariant
                self.wf(),
                i <= self.rows.len(),
                forall|k: int| 0 <= k < i ==> !self@.holds_at(id, k),
            decreases self.rows.len() - i,
        {
            if self.rows[i].id == id {
                proof {
                    self@.lemma_lookup_at(id, i as int);
                }
                return Some(i);
            }
            i += 1;
        }
        None
    }

    /// Looks one task up. Nothing changes.
    pub fn get(&self, id: TaskId) -> (found: Option<Task>)
        requires
            self.wf(),
        ensures
            found == self@.lookup(id),
    {
        match self.find(id) {
            Some(i) => Some(self.rows[i]),
            None => None,
        }
    }

    /// Every task whose state is among `states` and whose kind is among
    /// `kinds`, oldest first. Nothing changes.
    pub fn list(&self, states: &Vec<TaskState>, kinds: &Vec<TaskType>) -> (found: Vec<Task>)
        ensures
            found@ == self@.select(states@, kinds@),
            forall|task: Task|
                found@.contains(task) <==> self@.rows.contains(task) && passes(
                    task,
                    states@,
                    kinds@,
                ),
    {
        let ghost wanted = |task: Task| passes(task, states@, kinds@);
        let mut found: Vec<Task> = Vec::new();
        let mut i: usize = 0;
        proof {
            reveal(Seq::filter);
            assert(self.rows@.take(0) =~= Seq::<Task>::empty());
        }
        while i < self.rows.len()
            invariant
                i <= self.rows.len(),
                wanted == |task: Task| passes(task, states@, kinds@),
                found@ == self.rows@.take(i as int).filter(wanted),
            decreases self.rows.len() - i,
        {
            let task = self.rows[i];
            let keep = has_state(states, task.state) && has_kind(kinds, task.task_type);
            proof {
                reveal(Seq::filter);
                assert(self.rows@.take(i + 1).drop_last() =~= self.rows@.take(i as int));
                assert(self.rows@.take(i + 1).last() == task);
                assert(keep == wanted(task));
            }
            if keep {
                found.push(task);
            }
            i += 1;
        }
        proof {
            assert(self.rows@.take(i as int) =~= self.rows@);
            assert forall|task: Task|
                found@.contains(task) <==> self@.rows.contains(task) && passes(
                    task,
                    states@,
                    kinds@,
                ) by {
                self@.law_select_exact(states@, kinds@, task);
            }
        }
        found
    }

    /// Removes the task if it has not started. A task that is absent and one
    /// that has started give the same answer, `NotFound`, and the store is
    /// left as it was.
    pub fn delete(&mut self, id: TaskId) -> (outcome: Result<(), StoreError>)
        requires
            old(self).wf(),
        ensures
            final(self).wf(),
            final(self)@ == old(self)@.delete(id),
            outcome is Ok <==> old(self)@.deletable(id),
            outcome is Err ==> outcome == Err::<(), StoreError>(StoreError::NotFound),
            outcome is Err ==> final(self)@ == old(self)@,
            outcome is Ok ==> final(self)@.lookup(id) is None,
    {
        proof {
            self@.lemma_delete(id, id);
        }
        match self.find(id) {
            Some(i) => {
                if self.rows[i].state == TaskState::Scheduled {
                    self.rows.remove(i);
                    Ok(())
                } else {
                    Err(StoreError::NotFound)
                }
            },
            None => Err(StoreError::NotFound),
        }
    }

    /// Claims the oldest task that is `Scheduled` and due at `now`: the task
    /// becomes `Executing` and its identifier is returned. Without such a
    /// task nothing changes.
    pub fn claim_next(&mut self, now: Instant) -> (claimed: Option<TaskId>)
        requires
            old(self).wf(),
        ensures
            final(self).wf(),
            claimed == old(self)@.next_claim(now),
            match claimed {
                Some(id) => {
                    &&& old(self)@.claimable(id, now)
                    &&& final(self)@ == old(self)@.claim(id)
                    &&& final(self)@.state_of(id) == Some(TaskState::Executing)
                },
                None => !old(self)@.any_eligible(now) && final(self)@ == old(self)@,
            },
    {
        let mut i: usize = 0;
        while i < self.rows.len()
            invariant
                self.wf(),
                *self == *old(self),
                i <= self.rows.len(),
                forall|k: int| 0 <= k < i ==> !eligible(#[trigger] self@.rows[k], now),
            decreases self.rows.len() - i,
        {
            let task = self.rows[i];
            if task.state == TaskState::Scheduled && task.execute_at <= now {
                proof {
                    self@.lemma_next_claim_at(now, i as int);
                    self@.lemma_lookup_at(task.id, i as int);
                    self@.lemma_with_state(task.id, TaskState::Executing, task.id);
                }
                self.rows.set(i, Task { state: TaskState::Executing, ..task });
                return Some(task.id);
            }
            i += 1;
        }
        proof {
            self@.lemma_next_claim_none(now);
        }
        None
    }

    /// Marks an `Executing` task `Finished`. On any other task, or none, this
    /// is a `ContractViolation` and nothing changes.
    pub fn mark_finished(&mut self, id: TaskId) -> (outcome: Result<(), StoreError>)
        requires
            old(self).wf(),
        ensures
            final(self).wf(),
            final(self)@ == old(self)@.finish(id),
            outcome is Ok <==> old(self)@.finishable(id),
            outcome is Err ==> outcome == Err::<(), StoreError>(StoreError::ContractViolation),
            outcome is Err ==> final(self)@ == old(self)@,
            outcome is Ok ==> final(self)@.state_of(id) == Some(TaskState::Finished),
    {
        match self.find(id) {
            Some(i) => {
                let task = self.rows[i];
                if task.state == TaskState::Executing {
                    proof {
                        self@.lemma_with_state(id, TaskState::Finished, id);
                    }
                    self.rows.set(i, Task { state: TaskState::Finished, ..task });
                    Ok(())
                } else {
                    Err(StoreError::ContractViolation)
                }
            },
            None => Err(StoreError::ContractViolation),
        }
    }
}

/// Whether `state` is among `states`.
pub fn has_state(states: &Vec<TaskState>, state: TaskState) -> (found: bool)
    ensures
        found == states@.contains(state),
{
    let mut i: usize = 0;
    while i < states.len()
        invariant
            i <= states.len(),
            forall|k: int| 0 <= k < i ==> states@[k] != state,
        decreases states.len() - i,
    {
        if states[i] == state {
            return true;
        }
        i += 1;
    }
    false
}

/// Whether `kind` is among `kinds`.
pub fn has_kind(kinds: &Vec<TaskType>, kind: TaskType) -> (found: bool)
    ensures
        found == kinds@.contains(kind),
{
    let mut i: usize = 0;
    while i < kinds.len()
        invariant
            i <= kinds.len(),
            forall|k: int| 0 <= k < i ==> kinds@[k] != kind,
        decreases kinds.len() - i,
    {
        if kinds[i] == kind {
            return true;
        }
        i += 1;
    }
    false
}

} // verus!
