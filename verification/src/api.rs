//! The control interface: create, delete, show and list, each one operation
//! on the store and an answer with a status.
//!
//! Each handler comes in two forms. The parts that decide (what a request
//! means, which status an outcome gets) stand alone, for a caller that keeps
//! its tasks elsewhere. The handlers proper put them together on a
//! [`TaskStore`].

use vstd::prelude::*;

use crate::instant::{parse_instant, parsed_instant};
use crate::model::StoreModel;
use crate::store::{StoreError, TaskStore};
use crate::{Instant, Task, TaskId, TaskState, TaskType};

verus! {

/// The status of an answer.
#[derive(Clone, Copy, Debug, PartialEq, Eq, Structural)]
pub enum Status {
    Success,
    Created,
    NoContent,
    BadRequest,
    NotFound,
    InternalServerError,
    ServiceUnavailable,
}

/// What is wrong with a request.
#[derive(Clone, Copy, Debug, PartialEq, Eq, Structural)]
pub enum ValidationError {
    /// The kind is none of the known ones.
    UnknownType,
    /// The state is none of the known ones.
    UnknownState,
    /// The execution time is no well-formed date and time.
    MalformedTime,
}

/// A request to create a task, found valid.
#[derive(Clone, Copy, Debug, PartialEq, Eq, Structural)]
pub struct NewTask {
    pub task_type: TaskType,
    pub execute_at: Instant,
}

/// The answer to a request to create a task.
#[derive(Clone, Copy, Debug, PartialEq, Eq, Structural)]
pub enum CreateReply {
    Created { id: TaskId },
    Invalid { error: ValidationError },
    Unavailable,
}

/// The body of the answer to a request to show a task.
pub enum ShowTaskResponse {
    Datum(Task),
    Error { message: String },
}

impl Status {
    pub open spec fn spec_code(self) -> u16 {
        match self {
            Status::Success => 200,
            Status::Created => 201,
            Status::NoContent => 204,
            Status::BadRequest => 400,
            Status::NotFound => 404,
            Status::InternalServerError => 500,
            Status::ServiceUnavailable => 503,
        }
    }

    /// The number of this status.
    pub fn code(self) -> (code: u16)
        ensures
            code == self.spec_code(),
    {
        match self {
            Status::Success => 200,
            Status::Created => 201,
            Status::NoContent => 204,
            Status::BadRequest => 400,
            Status::NotFound => 404,
            Status::InternalServerError => 500,
            Status::ServiceUnavailable => 503,
        }
    }

    /// The status that stands for an error of the store.
    pub open spec fn spec_of_store_error(error: StoreError) -> Status {
        match error {
            StoreError::NotFound => Status::NotFound,
            StoreError::Unavailable => Status::ServiceUnavailable,
            StoreError::ContractViolation => Status::InternalServerError,
        }
    }

    pub fn of_store_error(error: StoreError) -> (status: Status)
        ensures
            status == Self::spec_of_store_error(error),
    {
        match error {
            StoreError::NotFound => Status::NotFound,
            StoreError::Unavailable => Status::ServiceUnavailable,
            StoreError::ContractViolation => Status::InternalServerError,
        }
    }
}

impl ValidationError {
    /// A request that is not valid is a bad request, whatever is wrong with
    /// it.
    pub fn status(self) -> (status: Status)
        ensures
            status == Status::BadRequest,
    {
        Status::BadRequest
    }
}

impl CreateReply {
    pub open spec fn spec_status(self) -> Status {
        match self {
            CreateReply::Created { .. } => Status::Created,
            CreateReply::Invalid { .. } => Status::BadRequest,
            CreateReply::Unavailable => Status::ServiceUnavailable,
        }
    }

    pub fn status(self) -> (status: Status)
        ensures
            status == self.spec_status(),
    {
        match self {
            CreateReply::Created { .. } => Status::Created,
            CreateReply::Invalid { error } => error.status(),
            CreateReply::Unavailable => Status::ServiceUnavailable,
        }
    }
}

/// What a request to create a task means, given its kind's label and the
/// instant that its execution time denotes: the kind is looked at first.
pub open spec fn spec_check_create(type_label: Seq<char>, instant: Option<Instant>) -> Result<
    NewTask,
    ValidationError,
> {
    match TaskType::spec_from_label(type_label) {
        None => Err(ValidationError::UnknownType),
        Some(task_type) => match instant {
            None => Err(ValidationError::MalformedTime),
            Some(execute_at) => Ok(NewTask { task_type, execute_at }),
        },
    }
}

/// Checks a request to create a task whose execution time has been read
/// already: `instant` is `None` where it was malformed.
pub fn check_create(type_label: &str, instant: Option<Instant>) -> (checked: Result<
    NewTask,
    ValidationError,
>)
    ensures
        checked == spec_check_create(type_label@, instant),
{
    match TaskType::from_label(type_label) {
        None => Err(ValidationError::UnknownType),
        Some(task_type) => match instant {
            None => Err(ValidationError::MalformedTime),
            Some(execute_at) => Ok(NewTask { task_type, execute_at }),
        },
    }
}

/// Checks a request to create a task as it arrives: the kind by its label,
/// the execution time as text.
pub fn validate_create(type_label: &str, execution_time: &str) -> (checked: Result<
    NewTask,
    ValidationError,
>)
    ensures
        checked == spec_check_create(type_label@, parsed_instant(execution_time@)),
{
    check_create(type_label, parse_instant(execution_time))
}

/// Puts a valid new task into the store and answers with its identifier.
pub fn submit(store: &mut TaskStore, new: NewTask) -> (reply: CreateReply)
    requires
        old(store).wf(),
    ensures
        final(store).wf(),
        old(store)@.has_room() ==> reply == (CreateReply::Created {
            id: old(store)@.next_id as u128,
        }) && final(store)@ == old(store)@.insert(new.task_type, new.execute_at),
        !old(store)@.has_room() ==> reply == CreateReply::Unavailable,
        !old(store)@.has_room() ==> final(store)@ == old(store)@,
{
    match store.insert(new.task_type, new.execute_at) {
        Ok(id) => CreateReply::Created { id },
        Err(_) => CreateReply::Unavailable,
    }
}

/// What `create_task` answers and leaves in the store, given what the
/// request means.
pub open spec fn spec_create(
    pre: StoreModel,
    checked: Result<NewTask, ValidationError>,
) -> (CreateReply, StoreModel) {
    match checked {
        Err(error) => (CreateReply::Invalid { error }, pre),
        Ok(new) => if pre.has_room() {
            (
                CreateReply::Created { id: pre.next_id as u128 },
                pre.insert(new.task_type, new.execute_at),
            )
        } else {
            (CreateReply::Unavailable, pre)
        },
    }
}

/// Creates a task: status 201 and the new identifier, or 400 for a request
/// that is not valid, which leaves the store as it was.
pub fn create_task(store: &mut TaskStore, type_label: &str, execution_time: &str) -> (reply:
    CreateReply)
    requires
        old(store).wf(),
    ensures
        final(store).wf(),
        (reply, final(store)@) == spec_create(
            old(store)@,
            spec_check_create(type_label@, parsed_instant(execution_time@)),
        ),
{
    match validate_create(type_label, execution_time) {
        Ok(new) => submit(store, new),
        Err(error) => CreateReply::Invalid { error },
    }
}

/// The status of a delete that removed this many rows: 204 if it removed
/// any, else 404.
pub fn delete_status(rows_affected: u64) -> (status: Status)
    ensures
        status == if rows_affected == 0 {
            Status::NotFound
        } else {
            Status::NoContent
        },
{
    if rows_affected == 0 {
        Status::NotFound
    } else {
        Status::NoContent
    }
}

/// Deletes a task that has not started: status 204. A task that is absent
/// and one that has started both get 404, and the store is left as it was.
pub fn delete_task(store: &mut TaskStore, id: TaskId) -> (status: Status)
    requires
        old(store).wf(),
    ensures
        final(store).wf(),
        final(store)@ == old(store)@.delete(id),
        status == if old(store)@.deletable(id) {
            Status::NoContent
        } else {
            Status::NotFound
        },
        status == Status::NotFound ==> final(store)@ == old(store)@,
{
    match store.delete(id) {
        Ok(()) => Status::NoContent,
        Err(error) => Status::of_store_error(error),
    }
}

/// The answer that shows what a lookup found: status 200 and the task, or
/// 404 and the message "not found".
pub fn show_response(found: Option<Task>) -> (answer: (Status, ShowTaskResponse))
    ensures
        match found {
            Some(task) => answer.0 == Status::Success && answer.1 == ShowTaskResponse::Datum(task),
            None => {
                &&& answer.0 == Status::NotFound
                &&& answer.1 matches ShowTaskResponse::Error { message }
                &&& message@ == "not found"@
            },
        },
{
    match found {
        Some(task) => (Status::Success, ShowTaskResponse::Datum(task)),
        None => (Status::NotFound, ShowTaskResponse::Error { message: "not found".to_owned() }),
    }
}

/// Shows one task. Nothing changes.
pub fn show_task(store: &TaskStore, id: TaskId) -> (answer: (Status, ShowTaskResponse))
    requires
        store.wf(),
    ensures
        match store@.lookup(id) {
            Some(task) => answer.0 == Status::Success && answer.1 == ShowTaskResponse::Datum(task),
            None => {
                &&& answer.0 == Status::NotFound
                &&& answer.1 matches ShowTaskResponse::Error { message }
                &&& message@ == "not found"@
            },
        },
{
    show_response(store.get(id))
}

/// The states that a state filter lets pass: all of them where no filter is
/// given, else the one that the label names. `None` for an unknown label.
pub open spec fn spec_state_filter(label: Option<Seq<char>>) -> Option<Seq<TaskState>> {
    match label {
        None => Some(seq![TaskState::Scheduled, TaskState::Executing, TaskState::Finished]),
        Some(text) => match TaskState::spec_from_label(text) {
            Some(state) => Some(seq![state]),
            None => None,
        },
    }
}

/// The kinds that a kind filter lets pass: all of them where no filter is
/// given, else the one that the label names. `None` for an unknown label.
pub open spec fn spec_type_filter(label: Option<Seq<char>>) -> Option<Seq<TaskType>> {
    match label {
        None => Some(seq![TaskType::A, TaskType::B, TaskType::C]),
        Some(text) => match TaskType::spec_from_label(text) {
            Some(kind) => Some(seq![kind]),
            None => None,
        },
    }
}

/// The view of an optional text.
pub open spec fn text_of(label: Option<&str>) -> Option<Seq<char>> {
    match label {
        Some(text) => Some(text@),
        None => None,
    }
}

pub fn state_filter(label: Option<&str>) -> (filter: Result<Vec<TaskState>, ValidationError>)
    ensures
        match filter {
            Ok(states) => spec_state_filter(text_of(label)) == Some(states@),
            Err(error) => spec_state_filter(text_of(label)) is None && error
                == ValidationError::UnknownState,
        },
{
    match label {
        None => Ok(TaskState::all()),
        Some(text) => match TaskState::from_label(text) {
            Some(state) => Ok(vec![state]),
            None => Err(ValidationError::UnknownState),
        },
    }
}

pub fn type_filter(label: Option<&str>) -> (filter: Result<Vec<TaskType>, ValidationError>)
    ensures
        match filter {
            Ok(kinds) => spec_type_filter(text_of(label)) == Some(kinds@),
            Err(error) => spec_type_filter(text_of(label)) is None && error
                == ValidationError::UnknownType,
        },
{
    match label {
        None => Ok(TaskType::all()),
        Some(text) => match TaskType::from_label(text) {
            Some(kind) => Ok(vec![kind]),
            None => Err(ValidationError::UnknownType),
        },
    }
}

/// Lists the tasks that pass the filters, oldest first; a filter that is not
/// given lets everything pass. A label that names no state or no kind is an
/// error, the state's first. Nothing changes.
pub fn list_tasks(store: &TaskStore, state: Option<&str>, task_type: Option<&str>) -> (listed:
    Result<Vec<Task>, ValidationError>)
    ensures
        match (spec_state_filter(text_of(state)), spec_type_filter(text_of(task_type))) {
            (Some(states), Some(kinds)) => listed matches Ok(tasks) && tasks@ == store@.select(
                states,
                kinds,
            ),
            (None, _) => listed matches Err(error) && error == ValidationError::UnknownState,
            (Some(_), None) => listed matches Err(error) && error == ValidationError::UnknownType,
        },
{
    let states = match state_filter(state) {
        Ok(states) => states,
        Err(error) => {
            return Err(error);
        },
    };
    let kinds = match type_filter(task_type) {
        Ok(kinds) => kinds,
        Err(error) => {
            return Err(error);
        },
    };
    Ok(store.list(&states, &kinds))
}

} // verus!
