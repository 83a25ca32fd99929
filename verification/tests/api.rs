use task_scheduler::api::{
    check_create, create_task, delete_status, delete_task, list_tasks, show_response, show_task,
    state_filter, submit, type_filter, validate_create, CreateReply, NewTask, ShowTaskResponse,
    Status, ValidationError,
};
use task_scheduler::store::{StoreError, TaskStore};
use task_scheduler::{Task, TaskState, TaskType};

const NEW_YEAR_2024: i64 = 1_704_067_200_000_000;

fn message_of(body: ShowTaskResponse) -> String {
    match body {
        ShowTaskResponse::Error { message } => message,
        ShowTaskResponse::Datum(task) => panic!("expected an error, got {:?}", task),
    }
}

fn task_of(body: ShowTaskResponse) -> Task {
    match body {
        ShowTaskResponse::Datum(task) => task,
        ShowTaskResponse::Error { message } => panic!("expected a task, got {}", message),
    }
}

#[test]
fn status_codes() {
    assert_eq!(Status::Success.code(), 200);
    assert_eq!(Status::Created.code(), 201);
    assert_eq!(Status::NoContent.code(), 204);
    assert_eq!(Status::BadRequest.code(), 400);
    assert_eq!(Status::NotFound.code(), 404);
    assert_eq!(Status::InternalServerError.code(), 500);
    assert_eq!(Status::ServiceUnavailable.code(), 503);
}

#[test]
fn store_errors_have_a_status() {
    assert_eq!(Status::of_store_error(StoreError::NotFound), Status::NotFound);
    assert_eq!(Status::of_store_error(StoreError::Unavailable), Status::ServiceUnavailable);
    assert_eq!(
        Status::of_store_error(StoreError::ContractViolation),
        Status::InternalServerError
    );
}

#[test]
fn validation_errors_are_bad_requests() {
    for error in [
        ValidationError::UnknownType,
        ValidationError::UnknownState,
        ValidationError::MalformedTime,
    ] {
        assert_eq!(error.status(), Status::BadRequest);
        assert_eq!(error.status().code(), 400);
    }
}

#[test]
fn create_reply_status() {
    assert_eq!(CreateReply::Created { id: 3 }.status(), Status::Created);
    assert_eq!(
        CreateReply::Invalid { error: ValidationError::MalformedTime }.status(),
        Status::BadRequest
    );
    assert_eq!(CreateReply::Unavailable.status(), Status::ServiceUnavailable);
}

#[test]
fn check_create_accepts_known_kind_and_instant() {
    assert_eq!(
        check_create("c", Some(17)),
        Ok(NewTask { task_type: TaskType::C, execute_at: 17 })
    );
}

#[test]
fn check_create_rejects() {
    assert_eq!(check_create("x", Some(17)), Err(ValidationError::UnknownType));
    assert_eq!(check_create("A", Some(17)), Err(ValidationError::UnknownType));
    assert_eq!(check_create("a", None), Err(ValidationError::MalformedTime));
    assert_eq!(check_create("x", None), Err(ValidationError::UnknownType));
}

#[test]
fn validate_create_reads_the_execution_time() {
    assert_eq!(
        validate_create("a", "2024-01-01T00:00:00Z"),
        Ok(NewTask { task_type: TaskType::A, execute_at: NEW_YEAR_2024 })
    );
    assert_eq!(
        validate_create("b", "1970-01-01T00:00:00Z"),
        Ok(NewTask { task_type: TaskType::B, execute_at: 0 })
    );
    assert_eq!(
        validate_create("b", "1969-12-31T23:59:59.999999Z"),
        Ok(NewTask { task_type: TaskType::B, execute_at: -1 })
    );
    assert_eq!(
        validate_create("c", "2024-01-01T00:00:00.250Z"),
        Ok(NewTask { task_type: TaskType::C, execute_at: NEW_YEAR_2024 + 250_000 })
    );
}

#[test]
fn validate_create_converts_offsets_to_utc() {
    assert_eq!(
        validate_create("a", "2024-01-01T02:00:00+02:00"),
        Ok(NewTask { task_type: TaskType::A, execute_at: NEW_YEAR_2024 })
    );
    assert_eq!(
        validate_create("a", "2023-12-31T19:00:00-05:00"),
        Ok(NewTask { task_type: TaskType::A, execute_at: NEW_YEAR_2024 })
    );
}

#[test]
fn validate_create_rejects_malformed_times() {
    for text in ["", "tomorrow", "2024-01-01", "2024-13-01T00:00:00Z", "2024-01-01T00:00:00", "1704067200"] {
        assert_eq!(validate_create("a", text), Err(ValidationError::MalformedTime), "{:?}", text);
    }
}

#[test]
fn validate_create_looks_at_the_kind_first() {
    assert_eq!(validate_create("z", "tomorrow"), Err(ValidationError::UnknownType));
    assert_eq!(validate_create("z", "2024-01-01T00:00:00Z"), Err(ValidationError::UnknownType));
}

#[test]
fn create_task_answers_with_the_identifier() {
    let mut store = TaskStore::new();
    let reply = create_task(&mut store, "a", "2024-01-01T00:00:00Z");
    assert_eq!(reply, CreateReply::Created { id: 0 });
    assert_eq!(reply.status().code(), 201);
    assert_eq!(
        store.get(0),
        Some(Task {
            id: 0,
            state: TaskState::Scheduled,
            task_type: TaskType::A,
            execute_at: NEW_YEAR_2024,
        })
    );
    assert_eq!(create_task(&mut store, "b", "2024-01-01T00:00:00Z"), CreateReply::Created { id: 1 });
}

#[test]
fn create_task_rejects_invalid_requests() {
    let mut store = TaskStore::new();
    let reply = create_task(&mut store, "d", "2024-01-01T00:00:00Z");
    assert_eq!(reply, CreateReply::Invalid { error: ValidationError::UnknownType });
    assert_eq!(reply.status().code(), 400);
    let reply = create_task(&mut store, "a", "soon");
    assert_eq!(reply, CreateReply::Invalid { error: ValidationError::MalformedTime });
    assert_eq!(reply.status().code(), 400);
    assert_eq!(store.len(), 0);
}

#[test]
fn create_task_on_a_full_store() {
    let mut store = TaskStore::starting_at(u128::MAX);
    let reply = create_task(&mut store, "a", "2024-01-01T00:00:00Z");
    assert_eq!(reply, CreateReply::Unavailable);
    assert_eq!(reply.status().code(), 503);
    assert_eq!(store.len(), 0);
    // A request that is not valid is told so, full store or not.
    let reply = create_task(&mut store, "a", "never");
    assert_eq!(reply, CreateReply::Invalid { error: ValidationError::MalformedTime });
}

#[test]
fn submit_inserts() {
    let mut store = TaskStore::new();
    let reply = submit(&mut store, NewTask { task_type: TaskType::C, execute_at: 9 });
    assert_eq!(reply, CreateReply::Created { id: 0 });
    assert_eq!(store.get(0).unwrap().task_type, TaskType::C);
    assert_eq!(store.get(0).unwrap().execute_at, 9);
}

#[test]
fn created_task_is_claimable_when_due() {
    let mut store = TaskStore::new();
    let reply = create_task(&mut store, "a", "2024-01-01T00:00:00Z");
    assert_eq!(reply, CreateReply::Created { id: 0 });
    assert_eq!(store.claim_next(NEW_YEAR_2024 - 1), None);
    assert_eq!(store.claim_next(NEW_YEAR_2024 + 1_000_000), Some(0));
}

#[test]
fn delete_status_by_rows() {
    assert_eq!(delete_status(0), Status::NotFound);
    assert_eq!(delete_status(1), Status::NoContent);
    assert_eq!(delete_status(2), Status::NoContent);
    assert_eq!(delete_status(u64::MAX), Status::NoContent);
}

#[test]
fn create_then_delete_then_show() {
    let mut store = TaskStore::new();
    assert_eq!(create_task(&mut store, "a", "2024-01-01T00:00:00Z"), CreateReply::Created { id: 0 });
    let status = delete_task(&mut store, 0);
    assert_eq!(status, Status::NoContent);
    assert_eq!(status.code(), 204);
    let (status, body) = show_task(&store, 0);
    assert_eq!(status.code(), 404);
    assert_eq!(message_of(body), "not found");
}

#[test]
fn create_then_claim_then_delete_then_show() {
    let mut store = TaskStore::new();
    assert_eq!(create_task(&mut store, "a", "2024-01-01T00:00:00Z"), CreateReply::Created { id: 0 });
    assert_eq!(store.claim_next(NEW_YEAR_2024), Some(0));
    let status = delete_task(&mut store, 0);
    assert_eq!(status, Status::NotFound);
    assert_eq!(status.code(), 404);
    let (status, body) = show_task(&store, 0);
    assert_eq!(status.code(), 200);
    let task = task_of(body);
    assert_eq!(task.id, 0);
    assert_eq!(task.state, TaskState::Executing);
    assert_eq!(task.state.label(), "executing");
}

#[test]
fn delete_of_absent_task() {
    let mut store = TaskStore::new();
    assert_eq!(delete_task(&mut store, 5), Status::NotFound);
}

#[test]
fn show_response_for_each_outcome() {
    let task = Task { id: 8, state: TaskState::Finished, task_type: TaskType::B, execute_at: 1 };
    let (status, body) = show_response(Some(task));
    assert_eq!(status, Status::Success);
    assert_eq!(task_of(body), task);
    let (status, body) = show_response(None);
    assert_eq!(status, Status::NotFound);
    assert_eq!(message_of(body), "not found");
}

#[test]
fn filters_default_to_everything() {
    assert_eq!(
        state_filter(None),
        Ok(vec![TaskState::Scheduled, TaskState::Executing, TaskState::Finished])
    );
    assert_eq!(type_filter(None), Ok(vec![TaskType::A, TaskType::B, TaskType::C]));
}

#[test]
fn filters_of_one_value() {
    assert_eq!(state_filter(Some("finished")), Ok(vec![TaskState::Finished]));
    assert_eq!(type_filter(Some("b")), Ok(vec![TaskType::B]));
}

#[test]
fn filters_with_unknown_labels() {
    assert_eq!(state_filter(Some("done")), Err(ValidationError::UnknownState));
    assert_eq!(state_filter(Some("")), Err(ValidationError::UnknownState));
    assert_eq!(type_filter(Some("B")), Err(ValidationError::UnknownType));
}

#[test]
fn list_tasks_with_and_without_filters() {
    let mut store = TaskStore::new();
    for (kind, at) in [("a", 1), ("b", 2), ("b", 3), ("c", 4)] {
        assert!(matches!(check_create(kind, Some(at)), Ok(new) if submit(&mut store, new).status() == Status::Created));
    }
    store.claim_next(2);
    store.claim_next(2);
    store.mark_finished(1).unwrap();

    let ids = |tasks: Vec<Task>| tasks.iter().map(|t| t.id).collect::<Vec<u128>>();
    assert_eq!(ids(list_tasks(&store, None, None).unwrap()), vec![0, 1, 2, 3]);
    assert_eq!(ids(list_tasks(&store, Some("finished"), Some("b")).unwrap()), vec![1]);
    assert_eq!(ids(list_tasks(&store, Some("finished"), None).unwrap()), vec![1]);
    assert_eq!(ids(list_tasks(&store, None, Some("b")).unwrap()), vec![1, 2]);
    assert_eq!(ids(list_tasks(&store, Some("executing"), Some("b")).unwrap()), Vec::<u128>::new());
    assert_eq!(ids(list_tasks(&store, Some("scheduled"), None).unwrap()), vec![2, 3]);
}

#[test]
fn list_tasks_with_unknown_labels() {
    let store = TaskStore::new();
    assert_eq!(list_tasks(&store, Some("x"), None), Err(ValidationError::UnknownState));
    assert_eq!(list_tasks(&store, None, Some("x")), Err(ValidationError::UnknownType));
    assert_eq!(list_tasks(&store, Some("x"), Some("x")), Err(ValidationError::UnknownState));
}
