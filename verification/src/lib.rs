//! A deferred task queue: tasks are enqueued with a kind and an earliest
//! execution time, workers claim one eligible task at a time, run it and mark
//! it finished, and a control interface creates, lists, shows and cancels
//! tasks.
//!
//! This file holds the data model. The store and its operations are in
//! [`store`], what holds of every history of a store in [`history`], the
//! worker's loop in [`worker`] and the control interface in [`api`].

use vstd::prelude::*;

pub mod api;
pub mod history;
pub mod instant;
pub mod model;
pub mod store;
pub mod text;
pub mod worker;

use crate::store::TaskStore;
use crate::text::same_text;

verus! {

/// Identifier of a task: the 128 bits of its UUID.
pub type TaskId = u128;

/// An instant, in microseconds since the Unix epoch.
pub type Instant = i64;

/// The kind of work a task stands for. The queue does not interpret it.
#[derive(Clone, Copy, Debug, PartialEq, Eq, Structural)]
pub enum TaskType {
    A,
    B,
    C,
}

/// Where a task is in its life. A task only ever moves forward:
/// `Scheduled`, then `Executing`, then `Finished`.
#[derive(Clone, Copy, Debug, PartialEq, Eq, Structural)]
pub enum TaskState {
    Scheduled,
    Executing,
    Finished,
}

/// A unit of schedulable work.
#[derive(Clone, Copy, Debug, PartialEq, Eq, Structural)]
pub struct Task {
    pub id: TaskId,
    pub state: TaskState,
    pub task_type: TaskType,
    /// The task is not eligible for a claim before this instant.
    pub execute_at: Instant,
}

/// One stored task as the persistent table holds it: the two enumerations by
/// their stored labels.
pub struct TaskRow {
    pub id: TaskId,
    pub state: String,
    pub task_type: String,
    pub execute_at: Instant,
}

/// Fetches the task with this identifier from the store, if it holds one.
/// Nothing changes.
pub fn retrieve(db: &TaskStore, id: &TaskId) -> (task: Option<Task>)
    requires
        db.wf(),
    ensures
        task == db@.lookup(*id),
{
    db.get(*id)
}

impl TaskType {
    /// The label of this kind in requests and responses.
    pub open spec fn spec_label(self) -> Seq<char> {
        match self {
            TaskType::A => "a"@,
            TaskType::B => "b"@,
            TaskType::C => "c"@,
        }
    }

    /// The kind that a request or response label names, if any.
    pub open spec fn spec_from_label(text: Seq<char>) -> Option<TaskType> {
        if text == "a"@ {
            Some(TaskType::A)
        } else if text == "b"@ {
            Some(TaskType::B)
        } else if text == "c"@ {
            Some(TaskType::C)
        } else {
            None
        }
    }

    /// The label of this kind in the persistent table.
    pub open spec fn spec_stored_label(self) -> Seq<char> {
        match self {
            TaskType::A => "A"@,
            TaskType::B => "B"@,
            TaskType::C => "C"@,
        }
    }

    /// The kind that a label of the persistent table names, if any.
    pub open spec fn spec_from_stored_label(text: Seq<char>) -> Option<TaskType> {
        if text == "A"@ {
            Some(TaskType::A)
        } else if text == "B"@ {
            Some(TaskType::B)
        } else if text == "C"@ {
            Some(TaskType::C)
        } else {
            None
        }
    }

    pub fn label(self) -> (text: &'static str)
        ensures
            text@ == self.spec_label(),
    {
        match self {
            TaskType::A => "a",
            TaskType::B => "b",
            TaskType::C => "c",
        }
    }

    pub fn from_label(text: &str) -> (kind: Option<TaskType>)
        ensures
            kind == Self::spec_from_label(text@),
    {
        if same_text(text, "a") {
            Some(TaskType::A)
        } else if same_text(text, "b") {
            Some(TaskType::B)
        } else if same_text(text, "c") {
            Some(TaskType::C)
        } else {
            None
        }
    }

    pub fn stored_label(self) -> (text: &'static str)
        ensures
            text@ == self.spec_stored_label(),
    {
        match self {
            TaskType::A => "A",
            TaskType::B => "B",
            TaskType::C => "C",
        }
    }

    pub fn from_stored_label(text: &str) -> (kind: Option<TaskType>)
        ensures
            kind == Self::spec_from_stored_label(text@),
    {
        if same_text(text, "A") {
            Some(TaskType::A)
        } else if same_text(text, "B") {
            Some(TaskType::B)
        } else if same_text(text, "C") {
            Some(TaskType::C)
        } else {
            None
        }
    }

    /// Every kind, in declaration order: the filter that lets all kinds pass.
    pub fn all() -> (kinds: Vec<TaskType>)
        ensures
            kinds@ == seq![TaskType::A, TaskType::B, TaskType::C],
    {
        vec![TaskType::A, TaskType::B, TaskType::C]
    }

    /// A label names a kind exactly when it is that kind's label, in requests
    /// and responses and in the persistent table alike.
    pub proof fn law_labels_round_trip(kind: TaskType, text: Seq<char>)
        ensures
            Self::spec_from_label(kind.spec_label()) == Some(kind),
            Self::spec_from_label(text) == Some(kind) <==> text == kind.spec_label(),
            Self::spec_from_stored_label(kind.spec_stored_label()) == Some(kind),
            Self::spec_from_stored_label(text) == Some(kind) <==> text == kind.spec_stored_label(),
    {
        reveal_strlit("a");
        reveal_strlit("b");
        reveal_strlit("c");
        reveal_strlit("A");
        reveal_strlit("B");
        reveal_strlit("C");
        assert("a"@[0] != "b"@[0] && "a"@[0] != "c"@[0] && "b"@[0] != "c"@[0]);
        assert("A"@[0] != "B"@[0] && "A"@[0] != "C"@[0] && "B"@[0] != "C"@[0]);
    }
}

impl TaskState {
    /// The label of this state, in requests and responses and in the
    /// persistent table.
    pub open spec fn spec_label(self) -> Seq<char> {
        match self {
            TaskState::Scheduled => "scheduled"@,
            TaskState::Executing => "executing"@,
            TaskState::Finished => "finished"@,
        }
    }

    /// The state that a label names, if any.
    pub open spec fn spec_from_label(text: Seq<char>) -> Option<TaskState> {
        if text == "scheduled"@ {
            Some(TaskState::Scheduled)
        } else if text == "executing"@ {
            Some(TaskState::Executing)
        } else if text == "finished"@ {
            Some(TaskState::Finished)
        } else {
            None
        }
    }

    /// How far along its life a task in this state is.
    pub open spec fn rank(self) -> nat {
        match self {
            TaskState::Scheduled => 0,
            TaskState::Executing => 1,
            TaskState::Finished => 2,
        }
    }

    /// The one state that may follow this one, if any.
    pub open spec fn spec_next(self) -> Option<TaskState> {
        match self {
            TaskState::Scheduled => Some(TaskState::Executing),
            TaskState::Executing => Some(TaskState::Finished),
            TaskState::Finished => None,
        }
    }

    pub fn label(self) -> (text: &'static str)
        ensures
            text@ == self.spec_label(),
    {
        match self {
            TaskState::Scheduled => "scheduled",
            TaskState::Executing => "executing",
            TaskState::Finished => "finished",
        }
    }

    pub fn from_label(text: &str) -> (state: Option<TaskState>)
        ensures
            state == Self::spec_from_label(text@),
    {
        if same_text(text, "scheduled") {
            Some(TaskState::Scheduled)
        } else if same_text(text, "executing") {
            Some(TaskState::Executing)
        } else if same_text(text, "finished") {
            Some(TaskState::Finished)
        } else {
            None
        }
    }

    pub fn next(self) -> (state: Option<TaskState>)
        ensures
            state == self.spec_next(),
    {
        match self {
            TaskState::Scheduled => Some(TaskState::Executing),
            TaskState::Executing => Some(TaskState::Finished),
            TaskState::Finished => None,
        }
    }

    /// Whether a task in this state may move to `to`: only one step forward.
    pub fn can_become(self, to: TaskState) -> (allowed: bool)
        ensures
            allowed == (self.spec_next() == Some(to)),
            allowed == (to.rank() == self.rank() + 1),
    {
        match self.next() {
            Some(following) => following == to,
            None => false,
        }
    }

    /// Every state, in life order: the filter that lets all states pass.
    pub fn all() -> (states: Vec<TaskState>)
        ensures
            states@ == seq![TaskState::Scheduled, TaskState::Executing, TaskState::Finished],
    {
        vec![TaskState::Scheduled, TaskState::Executing, TaskState::Finished]
    }

    /// A label names a state exactly when it is that state's label.
    pub proof fn law_labels_round_trip(state: TaskState, text: Seq<char>)
        ensures
            Self::spec_from_label(state.spec_label()) == Some(state),
            Self::spec_from_label(text) == Some(state) <==> text == state.spec_label(),
    {
        reveal_strlit("scheduled");
        reveal_strlit("executing");
        reveal_strlit("finished");
        assert("scheduled"@[0] != "executing"@[0]);
        assert("scheduled"@.len() != "finished"@.len());
        assert("executing"@.len() != "finished"@.len());
    }
}

impl Task {
    /// The task that a stored row holds, if any.
    pub open spec fn spec_from_row(row: TaskRow) -> Option<Task> {
        match (
            TaskState::spec_from_label(row.state@),
            TaskType::spec_from_stored_label(row.task_type@),
        ) {
            (Some(state), Some(task_type)) => Some(
                Task { id: row.id, state, task_type, execute_at: row.execute_at },
            ),
            _ => None,
        }
    }

    /// Reads a task out of a stored row. There is a task exactly when both
    /// labels of the row are known.
    pub fn from_row(row: TaskRow) -> (task: Option<Task>)
        ensures
            task == Self::spec_from_row(row),
    {
        let state = TaskState::from_label(row.state.as_str());
        let task_type = TaskType::from_stored_label(row.task_type.as_str());
        match (state, task_type) {
            (Some(state), Some(task_type)) => Some(
                Task { id: row.id, state, task_type, execute_at: row.execute_at },
            ),
            _ => None,
        }
    }

    /// The row that stores the task.
    pub fn to_row(&self) -> (row: TaskRow)
        ensures
            row.id == self.id,
            row.state@ == self.state.spec_label(),
            row.task_type@ == self.task_type.spec_stored_label(),
            row.execute_at == self.execute_at,
    {
        TaskRow {
            id: self.id,
            state: self.state.label().to_owned(),
            task_type: self.task_type.stored_label().to_owned(),
            execute_at: self.execute_at,
        }
    }

    /// A task read back from its own row is the same task.
    pub proof fn law_row_round_trip(task: Task, row: TaskRow)
        requires
            row.id == task.id,
            row.state@ == task.state.spec_label(),
            row.task_type@ == task.task_type.spec_stored_label(),
            row.execute_at == task.execute_at,
        ensures
            Self::spec_from_row(row) == Some(task),
    {
        TaskState::law_labels_round_trip(task.state, row.state@);
        TaskType::law_labels_round_trip(task.task_type, row.task_type@);
    }
}

} // verus!
