//! What holds of every history of a task store, whoever makes the steps.
//!
//! Workers and control requests share nothing but the store, and each of
//! their operations takes effect as one indivisible step. A run of any number
//! of them is therefore a sequence of steps on one store, in the order in
//! which they took effect. The laws below hold of every such sequence.

use vstd::prelude::*;

use crate::model::StoreModel;
use crate::{Instant, Task, TaskId, TaskState, TaskType};

verus! {

/// One indivisible operation on a store, with what it answered where the
/// answer is not fixed by the store alone.
pub enum Step {
    /// A task is created.
    Insert { task_type: TaskType, execute_at: Instant },
    /// A task is deleted, if it has not started.
    Delete { id: TaskId },
    /// A worker asks for a task at `now` and gets `claimed`.
    Claim { now: Instant, claimed: Option<TaskId> },
    /// A task is marked finished, if it is executing.
    Finish { id: TaskId },
    /// A lookup or a listing.
    Read,
}

/// Whether `step` may lead from `pre` to `post`. A claim may take any
/// eligible task, not only the oldest.
pub open spec fn allowed(pre: StoreModel, step: Step, post: StoreModel) -> bool {
    match step {
        Step::Insert { task_type, execute_at } => if pre.has_room() {
            post == pre.insert(task_type, execute_at)
        } else {
            post == pre
        },
        Step::Delete { id } => post == pre.delete(id),
        Step::Claim { now, claimed } => match claimed {
            Some(id) => pre.claimable(id, now) && post == pre.claim(id),
            None => !pre.any_eligible(now) && post == pre,
        },
        Step::Finish { id } => post == pre.finish(id),
        Step::Read => post == pre,
    }
}

/// A history: the stores passed through, starting from a well-formed one,
/// and the steps between them.
pub open spec fn valid(states: Seq<StoreModel>, steps: Seq<Step>) -> bool {
    &&& states.len() == steps.len() + 1
    &&& states[0].wf()
    &&& forall|k: int|
        0 <= k < steps.len() ==> allowed(states[k], #[trigger] steps[k], states[k + 1])
}

/// How the task `id` may differ between an earlier store and a later one.
pub open spec fn moved_forward(before: StoreModel, after: StoreModel, id: TaskId) -> bool {
    match (before.lookup(id), after.lookup(id)) {
        (Some(a), Some(b)) => {
            &&& b.id == a.id
            &&& b.task_type == a.task_type
            &&& b.execute_at == a.execute_at
            &&& a.state.rank() <= b.state.rank()
        },
        (Some(a), None) => a.state == TaskState::Scheduled,
        (None, Some(b)) => before.next_id <= id,
        (None, None) => true,
    }
}

/// One step keeps the store well-formed, hands out no identifier twice, and
/// changes a task in one of three ways only: it creates it as `Scheduled`,
/// moves its state one place forward, or deletes it while `Scheduled`.
pub proof fn law_one_step(pre: StoreModel, step: Step, post: StoreModel, id: TaskId)
    requires
        pre.wf(),
        allowed(pre, step, post),
    ensures
        post.wf(),
        pre.next_id <= post.next_id,
        match (pre.lookup(id), post.lookup(id)) {
            (Some(a), Some(b)) => {
                &&& b.id == a.id
                &&& b.task_type == a.task_type
                &&& b.execute_at == a.execute_at
                &&& (b.state == a.state || a.state.spec_next() == Some(b.state))
            },
            (Some(a), None) => a.state == TaskState::Scheduled && step == (Step::Delete { id }),
            (None, Some(b)) => {
                &&& b.state == TaskState::Scheduled
                &&& id == pre.next_id
                &&& step is Insert
            },
            (None, None) => true,
        },
{
    match step {
        Step::Insert { task_type, execute_at } => {
            if pre.has_room() {
                pre.lemma_insert(task_type, execute_at, id);
            }
        },
        Step::Delete { id: target } => {
            pre.lemma_delete(target, id);
        },
        Step::Claim { now, claimed } => {
            if let Some(target) = claimed {
                pre.lemma_with_state(target, TaskState::Executing, id);
            }
        },
        Step::Finish { id: target } => {
            if pre.finishable(target) {
                pre.lemma_with_state(target, TaskState::Finished, id);
            }
        },
        Step::Read => {},
    }
}

/// Between any two points of a history the store stays well-formed, the
/// next identifier never goes down, and each task only moves forward.
pub proof fn lemma_span(states: Seq<StoreModel>, steps: Seq<Step>, id: TaskId, i: int, j: int)
    requires
        valid(states, steps),
        0 <= i <= j < states.len(),
    ensures
        states[i].wf(),
        states[j].wf(),
        states[i].next_id <= states[j].next_id,
        moved_forward(states[i], states[j], id),
    decreases j, i,
{
    if i == 0 && j == 0 {
    } else if i == j {
        lemma_span(states, steps, id, 0, j);
    } else {
        lemma_span(states, steps, id, i, j - 1);
        assert(allowed(states[j - 1], steps[j - 1], states[j]));
        law_one_step(states[j - 1], steps[j - 1], states[j], id);
        if states[i].lookup(id) is Some {
            states[i].lemma_lookup_some(id);
        }
    }
}

/// Every store of a history is well-formed.
pub proof fn law_history_well_formed(states: Seq<StoreModel>, steps: Seq<Step>, k: int)
    requires
        valid(states, steps),
        0 <= k < states.len(),
    ensures
        states[k].wf(),
{
    lemma_span(states, steps, 0, 0, k);
}

/// At most once: whatever else happens in between, and however many workers
/// ask, no task is handed out by two claims.
pub proof fn law_claimed_at_most_once(
    states: Seq<StoreModel>,
    steps: Seq<Step>,
    i: int,
    j: int,
)
    requires
        valid(states, steps),
        0 <= i < j < steps.len(),
        steps[i] matches Step::Claim { claimed: Some(_), .. },
        steps[j] matches Step::Claim { claimed: Some(_), .. },
    ensures
        steps[i]->claimed != steps[j]->claimed,
{
    let first = steps[i]->claimed.unwrap();
    let second = steps[j]->claimed.unwrap();
    lemma_span(states, steps, first, 0, i);
    assert(allowed(states[i], steps[i], states[i + 1]));
    assert(allowed(states[j], steps[j], states[j + 1]));
    states[i].lemma_with_state(first, TaskState::Executing, first);
    lemma_span(states, steps, first, i + 1, j);
}

/// A task's state never goes back: seen at two points of a history, it is
/// at the later point where it was or further on.
pub proof fn law_state_never_decreases(
    states: Seq<StoreModel>,
    steps: Seq<Step>,
    id: TaskId,
    i: int,
    j: int,
)
    requires
        valid(states, steps),
        0 <= i <= j < states.len(),
        states[i].lookup(id) is Some,
        states[j].lookup(id) is Some,
    ensures
        states[i].state_of(id).unwrap().rank() <= states[j].state_of(id).unwrap().rank(),
{
    lemma_span(states, steps, id, i, j);
}

/// No state is skipped: a task appears as `Scheduled`, and one step leaves
/// its state alone or moves it to the one state that follows.
pub proof fn law_state_moves_one_at_a_time(
    states: Seq<StoreModel>,
    steps: Seq<Step>,
    id: TaskId,
    k: int,
)
    requires
        valid(states, steps),
        0 <= k < steps.len(),
        states[k + 1].lookup(id) is Some,
    ensures
        match states[k].state_of(id) {
            Some(before) => {
                let after = states[k + 1].state_of(id).unwrap();
                after == before || before.spec_next() == Some(after)
            },
            None => states[k + 1].state_of(id) == Some(TaskState::Scheduled),
        },
{
    lemma_span(states, steps, id, 0, k);
    law_one_step(states[k], steps[k], states[k + 1], id);
}

/// The life of a task, in order.
pub open spec fn life() -> Seq<TaskState> {
    seq![TaskState::Scheduled, TaskState::Executing, TaskState::Finished]
}

/// The states in which the task `id` is seen in the first `n` stores of a
/// history, in order, a state that lasts listed once.
pub open spec fn observed(states: Seq<StoreModel>, id: TaskId, n: nat) -> Seq<TaskState>
    decreases n,
{
    if n == 0 {
        Seq::empty()
    } else {
        let earlier = observed(states, id, (n - 1) as nat);
        match states[n - 1].state_of(id) {
            Some(state) => if earlier.len() > 0 && earlier.last() == state {
                earlier
            } else {
                earlier.push(state)
            },
            None => earlier,
        }
    }
}

/// What is known of the states seen so far, beyond their being a beginning
/// of a task's life: the last of them is the task's present state, and a
/// task that is gone was seen as `Scheduled` only and had its identifier
/// handed out.
proof fn lemma_observed(states: Seq<StoreModel>, steps: Seq<Step>, id: TaskId, n: nat)
    requires
        valid(states, steps),
        n <= states.len(),
        states[0].state_of(id) is None || states[0].state_of(id) == Some(TaskState::Scheduled),
    ensures
        observed(states, id, n).is_prefix_of(life()),
        n > 0 ==> match states[n - 1].state_of(id) {
            Some(state) => observed(states, id, n).len() == state.rank() + 1,
            None => observed(states, id, n).len() == 0 || (observed(states, id, n).len() == 1
                && id < states[n - 1].next_id),
        },
    decreases n,
{
    let seen = observed(states, id, n);
    if n == 0 {
    } else if n == 1 {
        assert(observed(states, id, 0) =~= Seq::<TaskState>::empty());
        assert(seen.is_prefix_of(life()));
    } else {
        let earlier = observed(states, id, (n - 1) as nat);
        lemma_observed(states, steps, id, (n - 1) as nat);
        lemma_span(states, steps, id, n - 2, n - 1);
        assert(allowed(states[n - 2], steps[n - 2], states[n - 1]));
        law_one_step(states[n - 2], steps[n - 2], states[n - 1], id);
        if states[n - 2].lookup(id) is Some {
            states[n - 2].lemma_lookup_some(id);
        }
        assert(forall|k: int| 0 <= k < earlier.len() ==> earlier[k] == life()[k]);
        assert(seen.is_prefix_of(life()));
    }
}

/// The states in which a task is seen over a history are `Scheduled`,
/// `Executing`, `Finished` or a beginning of that, for every task that the
/// history sees from its creation on.
pub proof fn law_observed_states_are_a_prefix(
    states: Seq<StoreModel>,
    steps: Seq<Step>,
    id: TaskId,
)
    requires
        valid(states, steps),
        states[0].state_of(id) is None || states[0].state_of(id) == Some(TaskState::Scheduled),
    ensures
        observed(states, id, states.len()).is_prefix_of(life()),
{
    lemma_observed(states, steps, id, states.len());
}

/// A task that has started is never removed: it is in every later store.
pub proof fn law_started_task_stays(
    states: Seq<StoreModel>,
    steps: Seq<Step>,
    id: TaskId,
    i: int,
    j: int,
)
    requires
        valid(states, steps),
        0 <= i <= j < states.len(),
        states[i].state_of(id) matches Some(state) && state != TaskState::Scheduled,
    ensures
        states[j].lookup(id) is Some,
{
    lemma_span(states, steps, id, i, j);
}

/// A task never changes its identifier, its kind or its execution time.
pub proof fn law_task_keeps_its_data(
    states: Seq<StoreModel>,
    steps: Seq<Step>,
    id: TaskId,
    i: int,
    j: int,
)
    requires
        valid(states, steps),
        0 <= i <= j < states.len(),
        states[i].lookup(id) is Some,
        states[j].lookup(id) is Some,
    ensures
        states[j].lookup(id).unwrap() == (Task {
            state: states[j].lookup(id).unwrap().state,
            ..states[i].lookup(id).unwrap()
        }),
{
    lemma_span(states, steps, id, i, j);
}

/// No identifier is used twice: the identifier that an insertion hands out
/// belongs to no task of any earlier store, and once its task is gone it
/// belongs to no task of any later one.
pub proof fn law_identifier_never_reused(
    states: Seq<StoreModel>,
    steps: Seq<Step>,
    id: TaskId,
    i: int,
    j: int,
    k: int,
)
    requires
        valid(states, steps),
        0 <= i <= j <= k < states.len(),
    ensures
        states[i].lookup(id) is None && states[j].lookup(id) is Some ==> j > 0
            && states[i].next_id <= id < states[j].next_id,
        states[i].lookup(id) is Some && states[j].lookup(id) is None ==> states[k].lookup(id)
            is None,
{
    lemma_span(states, steps, id, i, j);
    lemma_span(states, steps, id, j, k);
    lemma_span(states, steps, id, i, k);
    if states[j].lookup(id) is Some {
        states[j].lemma_lookup_some(id);
    }
    if states[i].lookup(id) is Some {
        states[i].lemma_lookup_some(id);
    }
    if states[k].lookup(id) is Some {
        states[k].lemma_lookup_some(id);
    }
}

/// The delete guard: a delete aimed at a task that is `Executing` or
/// `Finished` removes nothing and changes nothing.
pub proof fn law_delete_guard(store: StoreModel, id: TaskId)
    requires
        store.wf(),
        store.state_of(id) == Some(TaskState::Executing) || store.state_of(id) == Some(
            TaskState::Finished,
        ),
    ensures
        !store.deletable(id),
        store.delete(id) == store,
        store.delete(id).lookup(id) == store.lookup(id),
{
}

/// The visibility gate: a claim at `now` never hands out a task whose
/// execution time lies after `now`, nor one that is not `Scheduled`.
pub proof fn law_visibility_gate(pre: StoreModel, now: Instant, id: TaskId, post: StoreModel)
    requires
        pre.wf(),
        allowed(pre, Step::Claim { now, claimed: Some(id) }, post),
    ensures
        pre.lookup(id) matches Some(task) && task.execute_at <= now && task.state
            == TaskState::Scheduled,
        post.state_of(id) == Some(TaskState::Executing),
{
    pre.lemma_with_state(id, TaskState::Executing, id);
}

/// A delete and a claim that aim at the same task: whichever takes effect
/// first wins, and the other finds nothing to do.
pub proof fn law_delete_and_claim_exclude(store: StoreModel, id: TaskId, now: Instant)
    requires
        store.wf(),
        store.holds(id),
    ensures
        store.claimable(id, now) ==> store.claim(id).delete(id) == store.claim(id),
        store.deletable(id) ==> !store.delete(id).claimable(id, now),
{
    if store.claimable(id, now) {
        store.lemma_with_state(id, TaskState::Executing, id);
    }
    if store.deletable(id) {
        store.lemma_delete(id, id);
    }
}

/// The store's own claim is a claim as the histories know it: it takes the
/// oldest eligible task, or nothing where none is eligible.
pub proof fn law_next_claim_is_allowed(store: StoreModel, now: Instant)
    requires
        store.wf(),
    ensures
        allowed(
            store,
            Step::Claim { now, claimed: store.next_claim(now) },
            match store.next_claim(now) {
                Some(id) => store.claim(id),
                None => store,
            },
        ),
{
    store.lemma_next_claim_none(now);
    if let Some(id) = store.next_claim(now) {
        let i = choose|i: int| store.oldest_eligible_at(now, i) && store.rows[i].id == id;
        store.lemma_lookup_at(id, i);
    }
}

} // verus!
