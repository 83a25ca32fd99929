//! The mathematical model of a task store: the stored tasks in the order in
//! which they were created, and the identifier that the next task will get.
//! Every operation of a store is stated here as a function on the model.

use vstd::prelude::*;

use crate::{Instant, Task, TaskId, TaskState, TaskType};

verus! {

pub struct StoreModel {
    /// The stored tasks, oldest first.
    pub rows: Seq<Task>,
    /// The identifier of the next task; every identifier handed out so far is
    /// below it.
    pub next_id: nat,
}

/// Whether a task may be claimed at `now`.
pub open spec fn eligible(task: Task, now: Instant) -> bool {
    task.state == TaskState::Scheduled && task.execute_at <= now
}

/// Whether a task passes a state filter and a kind filter.
pub open spec fn passes(task: Task, states: Seq<TaskState>, kinds: Seq<TaskType>) -> bool {
    states.contains(task.state) && kinds.contains(task.task_type)
}

impl StoreModel {
    pub open spec fn empty() -> StoreModel {
        StoreModel { rows: Seq::empty(), next_id: 0 }
    }

    /// One row per identifier, and every identifier was handed out.
    pub open spec fn wf(self) -> bool {
        &&& self.next_id <= u128::MAX
        &&& forall|i: int| 0 <= i < self.rows.len() ==> (#[trigger] self.rows[i]).id < self.next_id
        &&& forall|i: int, j: int|
            #![trigger self.rows[i], self.rows[j]]
            0 <= i < self.rows.len() && 0 <= j < self.rows.len() && self.rows[i].id
                == self.rows[j].id ==> i == j
    }

    pub open spec fn holds_at(self, id: TaskId, i: int) -> bool {
        0 <= i < self.rows.len() && self.rows[i].id == id
    }

    pub open spec fn holds(self, id: TaskId) -> bool {
        exists|i: int| self.holds_at(id, i)
    }

    pub open spec fn position(self, id: TaskId) -> int {
        choose|i: int| self.holds_at(id, i)
    }

    /// The task with this identifier, if the store holds one.
    pub open spec fn lookup(self, id: TaskId) -> Option<Task> {
        if self.holds(id) {
            Some(self.rows[self.position(id)])
        } else {
            None
        }
    }

    /// The state of the task with this identifier, if the store holds one.
    pub open spec fn state_of(self, id: TaskId) -> Option<TaskState> {
        match self.lookup(id) {
            Some(task) => Some(task.state),
            None => None,
        }
    }

    /// Whether there is an identifier left for one more task.
    pub open spec fn has_room(self) -> bool {
        self.next_id < u128::MAX
    }

    /// The task that `insert` creates.
    pub open spec fn fresh(self, task_type: TaskType, execute_at: Instant) -> Task {
        Task { id: self.next_id as u128, state: TaskState::Scheduled, task_type, execute_at }
    }

    pub open spec fn insert(self, task_type: TaskType, execute_at: Instant) -> StoreModel {
        StoreModel {
            rows: self.rows.push(self.fresh(task_type, execute_at)),
            next_id: self.next_id + 1,
        }
    }

    /// Only a task that has not started can be deleted.
    pub open spec fn deletable(self, id: TaskId) -> bool {
        self.state_of(id) == Some(TaskState::Scheduled)
    }

    pub open spec fn delete(self, id: TaskId) -> StoreModel {
        if self.deletable(id) {
            StoreModel { rows: self.rows.remove(self.position(id)), next_id: self.next_id }
        } else {
            self
        }
    }

    /// The store with the state of one task replaced.
    pub open spec fn with_state(self, id: TaskId, state: TaskState) -> StoreModel {
        let i = self.position(id);
        StoreModel {
            rows: self.rows.update(i, Task { state, ..self.rows[i] }),
            next_id: self.next_id,
        }
    }

    /// Whether the task with this identifier may be claimed at `now`.
    pub open spec fn claimable(self, id: TaskId, now: Instant) -> bool {
        match self.lookup(id) {
            Some(task) => eligible(task, now),
            None => false,
        }
    }

    /// Whether any task may be claimed at `now`.
    pub open spec fn any_eligible(self, now: Instant) -> bool {
        exists|i: int| 0 <= i < self.rows.len() && eligible(#[trigger] self.rows[i], now)
    }

    /// Whether row `i` is the oldest one that may be claimed at `now`.
    pub open spec fn oldest_eligible_at(self, now: Instant, i: int) -> bool {
        &&& 0 <= i < self.rows.len()
        &&& eligible(self.rows[i], now)
        &&& forall|k: int| 0 <= k < i ==> !eligible(#[trigger] self.rows[k], now)
    }

    /// The task that a claim at `now` takes: the oldest eligible one.
    pub open spec fn next_claim(self, now: Instant) -> Option<TaskId> {
        if exists|i: int| self.oldest_eligible_at(now, i) {
            Some(self.rows[choose|i: int| self.oldest_eligible_at(now, i)].id)
        } else {
            None
        }
    }

    /// The store after the claim of one task.
    pub open spec fn claim(self, id: TaskId) -> StoreModel {
        self.with_state(id, TaskState::Executing)
    }

    /// Whether the task with this identifier can be marked finished.
    pub open spec fn finishable(self, id: TaskId) -> bool {
        self.state_of(id) == Some(TaskState::Executing)
    }

    pub open spec fn finish(self, id: TaskId) -> StoreModel {
        if self.finishable(id) {
            self.with_state(id, TaskState::Finished)
        } else {
            self
        }
    }

    /// The stored tasks that pass both filters, oldest first.
    pub open spec fn select(self, states: Seq<TaskState>, kinds: Seq<TaskType>) -> Seq<Task> {
        self.rows.filter(|task: Task| passes(task, states, kinds))
    }

    /// A listing holds exactly the stored tasks that pass both filters, and
    /// none else.
    pub proof fn law_select_exact(self, states: Seq<TaskState>, kinds: Seq<TaskType>, task: Task)
        ensures
            self.select(states, kinds).contains(task) <==> self.rows.contains(task) && passes(
                task,
                states,
                kinds,
            ),
    {
        let wanted = |task: Task| passes(task, states, kinds);
        let found = self.rows.filter(wanted);
        if found.contains(task) {
            self.rows.lemma_filter_contains_rev(wanted, task);
            let k = choose|k: int| 0 <= k < found.len() && found[k] == task;
            self.rows.lemma_filter_pred(wanted, k);
        }
        if self.rows.contains(task) && wanted(task) {
            let k = choose|k: int| 0 <= k < self.rows.len() && self.rows[k] == task;
            self.rows.lemma_filter_contains(wanted, k);
        }
    }

    /// In a well-formed store the row that holds an identifier is the one
    /// that `lookup` finds.
    pub proof fn lemma_lookup_at(self, id: TaskId, i: int)
        requires
            self.wf(),
            self.holds_at(id, i),
        ensures
            self.holds(id),
            self.position(id) == i,
            self.lookup(id) == Some(self.rows[i]),
    {
        let p = self.position(id);
        assert(self.holds_at(id, p));
        assert(self.rows[p].id == self.rows[i].id);
    }

    /// What `lookup` finds is a stored row with that identifier.
    pub proof fn lemma_lookup_some(self, id: TaskId)
        requires
            self.lookup(id) is Some,
        ensures
            self.holds_at(id, self.position(id)),
            self.lookup(id) == Some(self.rows[self.position(id)]),
            self.lookup(id).unwrap().id == id,
            self.rows.contains(self.lookup(id).unwrap()),
    {
        let p = self.position(id);
        assert(self.holds_at(id, p));
    }

    /// What `insert` does, seen through `lookup`: the new task is found under
    /// the identifier that was unused before, and every other lookup is as it
    /// was.
    pub proof fn lemma_insert(self, task_type: TaskType, execute_at: Instant, id: TaskId)
        requires
            self.wf(),
            self.has_room(),
        ensures
            self.insert(task_type, execute_at).wf(),
            self.lookup(self.next_id as u128) is None,
            self.insert(task_type, execute_at).lookup(id) == if id == self.next_id {
                Some(self.fresh(task_type, execute_at))
            } else {
                self.lookup(id)
            },
    {
        let post = self.insert(task_type, execute_at);
        let n = self.rows.len() as int;
        assert(post.wf());
        if self.holds(self.next_id as u128) {
            assert(self.holds_at(self.next_id as u128, self.position(self.next_id as u128)));
        }
        if id == self.next_id {
            post.lemma_lookup_at(id, n);
        } else if self.holds(id) {
            let p = self.position(id);
            assert(self.holds_at(id, p));
            post.lemma_lookup_at(id, p);
        } else if post.holds(id) {
            let q = post.position(id);
            assert(post.holds_at(id, q));
            assert(self.holds_at(id, q));
        }
    }

    /// What `delete` does, seen through `lookup`: a task that has not started
    /// is gone, and every other lookup is as it was.
    pub proof fn lemma_delete(self, target: TaskId, id: TaskId)
        requires
            self.wf(),
        ensures
            self.delete(target).wf(),
            self.delete(target).lookup(id) == if id == target && self.deletable(target) {
                None
            } else {
                self.lookup(id)
            },
    {
        if self.deletable(target) {
            let post = self.delete(target);
            let p = self.position(target);
            self.lemma_lookup_some(target);
            self.rows.remove_ensures(p);
            assert forall|i: int| 0 <= i < post.rows.len() implies (#[trigger] post.rows[i]).id
                < post.next_id && post.rows[i].id != target by {
                if i < p {
                    assert(post.rows[i] == self.rows[i]);
                } else {
                    assert(post.rows[i] == self.rows[i + 1]);
                }
            }
            assert forall|i: int, j: int|
                #![trigger post.rows[i], post.rows[j]]
                0 <= i < post.rows.len() && 0 <= j < post.rows.len() && post.rows[i].id
                    == post.rows[j].id implies i == j by {
                let a = if i < p { i } else { i + 1 };
                let b = if j < p { j } else { j + 1 };
                assert(post.rows[i] == self.rows[a]);
                assert(post.rows[j] == self.rows[b]);
            }
            assert(post.wf());
            if id == target {
                if post.holds(id) {
                    assert(post.holds_at(id, post.position(id)));
                }
            } else if self.holds(id) {
                let q = self.position(id);
                assert(self.holds_at(id, q));
                if q < p {
                    assert(post.rows[q] == self.rows[q]);
                    post.lemma_lookup_at(id, q);
                } else {
                    assert(post.rows[q - 1] == self.rows[q]);
                    post.lemma_lookup_at(id, q - 1);
                }
            } else if post.holds(id) {
                let q = post.position(id);
                assert(post.holds_at(id, q));
                let a = if q < p { q } else { q + 1 };
                assert(post.rows[q] == self.rows[a]);
                assert(self.holds_at(id, a));
            }
        }
    }

    /// What a change of state does, seen through `lookup`: the task keeps
    /// everything but its state, and every other lookup is as it was.
    pub proof fn lemma_with_state(self, target: TaskId, state: TaskState, id: TaskId)
        requires
            self.wf(),
            self.holds(target),
        ensures
            self.with_state(target, state).wf(),
            self.with_state(target, state).lookup(id) == if id == target {
                Some(Task { state, ..self.lookup(target).unwrap() })
            } else {
                self.lookup(id)
            },
    {
        let post = self.with_state(target, state);
        let p = self.position(target);
        assert(self.holds_at(target, p));
        assert forall|i: int| 0 <= i < post.rows.len() implies (#[trigger] post.rows[i]).id
            == self.rows[i].id by {}
        assert(post.wf());
        if id == target {
            post.lemma_lookup_at(id, p);
        } else if self.holds(id) {
            let q = self.position(id);
            assert(self.holds_at(id, q));
            post.lemma_lookup_at(id, q);
        } else if post.holds(id) {
            let q = post.position(id);
            assert(post.holds_at(id, q));
            assert(self.holds_at(id, q));
        }
    }

    /// The oldest eligible row, once found, is what `next_claim` names.
    pub proof fn lemma_next_claim_at(self, now: Instant, i: int)
        requires
            self.oldest_eligible_at(now, i),
        ensures
            self.next_claim(now) == Some(self.rows[i].id),
            self.any_eligible(now),
    {
        let c = choose|c: int| self.oldest_eligible_at(now, c);
        assert(self.oldest_eligible_at(now, c));
        if c < i {
            assert(!eligible(self.rows[c], now));
        } else if i < c {
            assert(!eligible(self.rows[i], now));
        }
    }

    /// Where no row is eligible, a claim takes nothing; and conversely.
    pub proof fn lemma_next_claim_none(self, now: Instant)
        ensures
            self.next_claim(now) is None <==> !self.any_eligible(now),
            self.next_claim(now) matches Some(id) ==> exists|i: int|
                self.oldest_eligible_at(now, i) && self.rows[i].id == id,
    {
        if self.any_eligible(now) {
            let w = choose|i: int| 0 <= i < self.rows.len() && eligible(#[trigger] self.rows[i], now);
            self.lemma_oldest_exists(now, w);
        }
        if exists|i: int| self.oldest_eligible_at(now, i) {
            let c = choose|c: int| self.oldest_eligible_at(now, c);
            assert(eligible(self.rows[c], now));
        }
    }

    /// Below any eligible row there is an oldest eligible one.
    pub proof fn lemma_oldest_exists(self, now: Instant, w: int)
        requires
            0 <= w < self.rows.len(),
            eligible(self.rows[w], now),
        ensures
            exists|i: int| self.oldest_eligible_at(now, i) && i <= w,
        decreases w,
    {
        if forall|k: int| 0 <= k < w ==> !eligible(#[trigger] self.rows[k], now) {
            assert(self.oldest_eligible_at(now, w));
        } else {
            let k = choose|k: int| 0 <= k < w && eligible(#[trigger] self.rows[k], now);
            self.lemma_oldest_exists(now, k);
        }
    }
}

} // verus!
