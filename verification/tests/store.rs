use task_scheduler::retrieve;
use task_scheduler::store::{has_kind, has_state, StoreError, TaskStore};
use task_scheduler::{Task, TaskState, TaskType};

const NOW: i64 = 1_700_000_000_000_000;
const SECOND: i64 = 1_000_000;
const HOUR: i64 = 3_600 * SECOND;

fn all_states() -> Vec<TaskState> {
    TaskState::all()
}

fn all_kinds() -> Vec<TaskType> {
    TaskType::all()
}

#[test]
fn new_store_is_empty() {
    let mut store = TaskStore::new();
    assert_eq!(store.len(), 0);
    assert_eq!(store.get(0), None);
    assert_eq!(store.claim_next(NOW), None);
    assert_eq!(store.list(&all_states(), &all_kinds()), vec![]);
}

#[test]
fn insert_creates_scheduled_task() {
    let mut store = TaskStore::new();
    let id = store.insert(TaskType::B, NOW + 5).unwrap();
    assert_eq!(id, 0);
    assert_eq!(store.len(), 1);
    assert_eq!(
        store.get(id),
        Some(Task { id: 0, state: TaskState::Scheduled, task_type: TaskType::B, execute_at: NOW + 5 })
    );
}

#[test]
fn identifiers_count_up() {
    let mut store = TaskStore::new();
    assert_eq!(store.insert(TaskType::A, NOW), Ok(0));
    assert_eq!(store.insert(TaskType::A, NOW), Ok(1));
    assert_eq!(store.insert(TaskType::C, NOW), Ok(2));
}

#[test]
fn identifiers_start_where_asked() {
    let mut store = TaskStore::starting_at(1_000);
    assert_eq!(store.len(), 0);
    assert_eq!(store.insert(TaskType::A, NOW), Ok(1_000));
    assert_eq!(store.insert(TaskType::A, NOW), Ok(1_001));
    assert_eq!(store.get(1_000).unwrap().id, 1_000);
    assert_eq!(store.get(0), None);
}

#[test]
fn store_without_identifiers_left_is_unavailable() {
    let mut store = TaskStore::starting_at(u128::MAX - 1);
    assert_eq!(store.insert(TaskType::A, NOW), Ok(u128::MAX - 1));
    assert_eq!(store.insert(TaskType::B, NOW), Err(StoreError::Unavailable));
    assert_eq!(store.insert(TaskType::B, NOW), Err(StoreError::Unavailable));
    assert_eq!(store.len(), 1);
    assert_eq!(store.claim_next(NOW), Some(u128::MAX - 1));
}

#[test]
fn identifier_is_not_reused_after_delete() {
    let mut store = TaskStore::new();
    let first = store.insert(TaskType::A, NOW).unwrap();
    assert_eq!(store.delete(first), Ok(()));
    let second = store.insert(TaskType::A, NOW).unwrap();
    assert_ne!(first, second);
    assert_eq!(second, 1);
    assert_eq!(store.get(first), None);
}

#[test]
fn due_task_is_claimed_once() {
    let mut store = TaskStore::new();
    let id = store.insert(TaskType::A, NOW - SECOND).unwrap();
    assert_eq!(store.claim_next(NOW), Some(id));
    assert_eq!(store.get(id).unwrap().state, TaskState::Executing);
    let second = store.claim_next(NOW);
    assert_ne!(second, Some(id));
    assert_eq!(second, None);
}

#[test]
fn second_claim_takes_a_different_task() {
    let mut store = TaskStore::new();
    let a = store.insert(TaskType::A, NOW - SECOND).unwrap();
    let b = store.insert(TaskType::A, NOW - SECOND).unwrap();
    let first = store.claim_next(NOW).unwrap();
    let second = store.claim_next(NOW).unwrap();
    assert_ne!(first, second);
    assert_eq!((first, second), (a, b));
    assert_eq!(store.claim_next(NOW), None);
}

#[test]
fn future_task_is_not_claimed_before_its_time() {
    let mut store = TaskStore::new();
    let id = store.insert(TaskType::A, NOW + HOUR).unwrap();
    assert_eq!(store.claim_next(NOW), None);
    assert_eq!(store.claim_next(NOW + HOUR - 1), None);
    assert_eq!(store.get(id).unwrap().state, TaskState::Scheduled);
    // One second after the execution time the task is due.
    assert_eq!(store.claim_next(NOW + HOUR + SECOND), Some(id));
    // A scheduled task whose execution time is one second past is due now.
    let mut store = TaskStore::new();
    let id = store.insert(TaskType::A, NOW - SECOND).unwrap();
    assert_eq!(store.get(id).unwrap().state, TaskState::Scheduled);
    assert_eq!(store.claim_next(NOW), Some(id));
}

#[test]
fn task_is_claimable_at_its_execution_time() {
    let mut store = TaskStore::new();
    let id = store.insert(TaskType::C, NOW).unwrap();
    assert_eq!(store.claim_next(NOW - 1), None);
    assert_eq!(store.claim_next(NOW), Some(id));
}

#[test]
fn claim_takes_the_oldest_eligible_task() {
    let mut store = TaskStore::new();
    let late = store.insert(TaskType::A, NOW + HOUR).unwrap();
    let due = store.insert(TaskType::B, NOW - SECOND).unwrap();
    let also_due = store.insert(TaskType::C, NOW - HOUR).unwrap();
    assert_eq!(store.claim_next(NOW), Some(due));
    assert_eq!(store.claim_next(NOW), Some(also_due));
    assert_eq!(store.claim_next(NOW), None);
    assert_eq!(store.get(late).unwrap().state, TaskState::Scheduled);
}

#[test]
fn claim_with_extreme_instants() {
    let mut store = TaskStore::new();
    let never = store.insert(TaskType::A, i64::MAX).unwrap();
    let always = store.insert(TaskType::A, i64::MIN).unwrap();
    assert_eq!(store.claim_next(i64::MIN), Some(always));
    assert_eq!(store.claim_next(i64::MAX - 1), None);
    assert_eq!(store.claim_next(i64::MAX), Some(never));
}

#[test]
fn delete_scheduled_task() {
    let mut store = TaskStore::new();
    let id = store.insert(TaskType::A, NOW).unwrap();
    assert_eq!(store.delete(id), Ok(()));
    assert_eq!(store.get(id), None);
    assert_eq!(retrieve(&store, &id), None);
    assert_eq!(store.len(), 0);
    assert_eq!(store.delete(id), Err(StoreError::NotFound));
}

#[test]
fn delete_absent_task_is_not_found() {
    let mut store = TaskStore::new();
    store.insert(TaskType::A, NOW).unwrap();
    assert_eq!(store.delete(17), Err(StoreError::NotFound));
    assert_eq!(store.len(), 1);
}

#[test]
fn delete_executing_task_is_not_found() {
    let mut store = TaskStore::new();
    let id = store.insert(TaskType::A, NOW - SECOND).unwrap();
    assert_eq!(store.claim_next(NOW), Some(id));
    assert_eq!(store.delete(id), Err(StoreError::NotFound));
    assert_eq!(
        retrieve(&store, &id),
        Some(Task { id, state: TaskState::Executing, task_type: TaskType::A, execute_at: NOW - SECOND })
    );
}

#[test]
fn delete_finished_task_is_not_found() {
    let mut store = TaskStore::new();
    let id = store.insert(TaskType::B, NOW).unwrap();
    store.claim_next(NOW).unwrap();
    assert_eq!(store.mark_finished(id), Ok(()));
    assert_eq!(store.delete(id), Err(StoreError::NotFound));
    assert_eq!(store.get(id).unwrap().state, TaskState::Finished);
    assert_eq!(store.len(), 1);
}

#[test]
fn delete_keeps_the_other_tasks() {
    let mut store = TaskStore::new();
    let a = store.insert(TaskType::A, 1).unwrap();
    let b = store.insert(TaskType::B, 2).unwrap();
    let c = store.insert(TaskType::C, 3).unwrap();
    assert_eq!(store.delete(b), Ok(()));
    let left: Vec<u128> = store.list(&all_states(), &all_kinds()).iter().map(|t| t.id).collect();
    assert_eq!(left, vec![a, c]);
    assert_eq!(store.get(c).unwrap().execute_at, 3);
}

#[test]
fn mark_finished_needs_an_executing_task() {
    let mut store = TaskStore::new();
    let id = store.insert(TaskType::A, NOW).unwrap();
    assert_eq!(store.mark_finished(id), Err(StoreError::ContractViolation));
    assert_eq!(store.get(id).unwrap().state, TaskState::Scheduled);
    assert_eq!(store.mark_finished(99), Err(StoreError::ContractViolation));
    store.claim_next(NOW).unwrap();
    assert_eq!(store.mark_finished(id), Ok(()));
    assert_eq!(store.get(id).unwrap().state, TaskState::Finished);
    assert_eq!(store.mark_finished(id), Err(StoreError::ContractViolation));
    assert_eq!(store.get(id).unwrap().state, TaskState::Finished);
}

#[test]
fn finished_task_is_never_claimed_again() {
    let mut store = TaskStore::new();
    let id = store.insert(TaskType::A, NOW).unwrap();
    store.claim_next(NOW).unwrap();
    store.mark_finished(id).unwrap();
    assert_eq!(store.claim_next(i64::MAX), None);
}

#[test]
fn states_are_seen_in_order() {
    let mut store = TaskStore::new();
    let id = store.insert(TaskType::A, NOW).unwrap();
    let mut seen = vec![store.get(id).unwrap().state];
    store.claim_next(NOW - 1);
    seen.push(store.get(id).unwrap().state);
    store.claim_next(NOW);
    seen.push(store.get(id).unwrap().state);
    store.claim_next(NOW);
    seen.push(store.get(id).unwrap().state);
    store.mark_finished(id).unwrap();
    seen.push(store.get(id).unwrap().state);
    store.delete(id).unwrap_err();
    seen.push(store.get(id).unwrap().state);
    assert_eq!(
        seen,
        vec![
            TaskState::Scheduled,
            TaskState::Scheduled,
            TaskState::Executing,
            TaskState::Executing,
            TaskState::Finished,
            TaskState::Finished,
        ]
    );
}

#[test]
fn many_claimers_never_share_a_task() {
    let mut store = TaskStore::new();
    for i in 0..20 {
        store.insert(TaskType::A, NOW - i).unwrap();
    }
    for i in 0..5 {
        store.insert(TaskType::B, NOW + HOUR + i).unwrap();
    }
    // Seven claimers take turns, far more often than there are tasks.
    let mut taken: Vec<Vec<u128>> = vec![Vec::new(); 7];
    for round in 0..10 {
        for claimer in 0..7 {
            if let Some(id) = store.claim_next(NOW + round) {
                taken[claimer].push(id);
            }
        }
    }
    let mut all: Vec<u128> = taken.concat();
    assert_eq!(all.len(), 20);
    all.sort();
    all.dedup();
    assert_eq!(all.len(), 20);
    assert_eq!(all, (0..20).collect::<Vec<u128>>());
}

#[test]
fn list_filters_by_state_and_kind() {
    let mut store = TaskStore::new();
    let a = store.insert(TaskType::A, 1).unwrap();
    let b1 = store.insert(TaskType::B, 2).unwrap();
    let b2 = store.insert(TaskType::B, 3).unwrap();
    let b3 = store.insert(TaskType::B, 1_000).unwrap();
    let c = store.insert(TaskType::C, 4).unwrap();
    // a, b1, b2 and c are claimed; a and b2 are finished.
    for _ in 0..4 {
        store.claim_next(10).unwrap();
    }
    store.mark_finished(a).unwrap();
    store.mark_finished(b2).unwrap();

    let finished_b = store.list(&vec![TaskState::Finished], &vec![TaskType::B]);
    assert_eq!(
        finished_b,
        vec![Task { id: b2, state: TaskState::Finished, task_type: TaskType::B, execute_at: 3 }]
    );
    let executing: Vec<u128> =
        store.list(&vec![TaskState::Executing], &all_kinds()).iter().map(|t| t.id).collect();
    assert_eq!(executing, vec![b1, c]);
    let scheduled_b: Vec<u128> = store
        .list(&vec![TaskState::Scheduled], &vec![TaskType::B])
        .iter()
        .map(|t| t.id)
        .collect();
    assert_eq!(scheduled_b, vec![b3]);
    let all: Vec<u128> = store.list(&all_states(), &all_kinds()).iter().map(|t| t.id).collect();
    assert_eq!(all, vec![a, b1, b2, b3, c]);
    let a_or_c: Vec<u128> = store
        .list(&all_states(), &vec![TaskType::C, TaskType::A])
        .iter()
        .map(|t| t.id)
        .collect();
    assert_eq!(a_or_c, vec![a, c]);
}

#[test]
fn list_with_empty_filter_is_empty() {
    let mut store = TaskStore::new();
    store.insert(TaskType::A, 1).unwrap();
    assert_eq!(store.list(&vec![], &all_kinds()), vec![]);
    assert_eq!(store.list(&all_states(), &vec![]), vec![]);
}

#[test]
fn list_is_stable_on_an_unchanged_store() {
    let mut store = TaskStore::new();
    for i in 0..6 {
        store.insert(if i % 2 == 0 { TaskType::A } else { TaskType::C }, i).unwrap();
    }
    store.claim_next(3);
    let once = store.list(&all_states(), &vec![TaskType::A, TaskType::C]);
    let twice = store.list(&all_states(), &vec![TaskType::A, TaskType::C]);
    assert_eq!(once, twice);
    assert_eq!(once.len(), 6);
}

#[test]
fn membership_in_filters() {
    assert!(has_state(&vec![TaskState::Finished, TaskState::Scheduled], TaskState::Scheduled));
    assert!(!has_state(&vec![TaskState::Finished, TaskState::Scheduled], TaskState::Executing));
    assert!(!has_state(&vec![], TaskState::Scheduled));
    assert!(has_kind(&vec![TaskType::B], TaskType::B));
    assert!(!has_kind(&vec![TaskType::B], TaskType::A));
}

#[test]
fn delete_and_claim_of_one_task_exclude_each_other() {
    // The claim first: the delete finds nothing to remove.
    let mut store = TaskStore::new();
    let id = store.insert(TaskType::A, NOW).unwrap();
    assert_eq!(store.claim_next(NOW), Some(id));
    assert_eq!(store.delete(id), Err(StoreError::NotFound));
    assert!(store.get(id).is_some());
    // The delete first: the claim finds nothing eligible.
    let mut store = TaskStore::new();
    let id = store.insert(TaskType::A, NOW).unwrap();
    assert_eq!(store.delete(id), Ok(()));
    assert_eq!(store.claim_next(NOW), None);
}
