//! The task, the sole entity of the service.

use crate::pb::TodoItem;
use vstd::prelude::*;
use vstd::std_specs::convert::FromSpecImpl;

verus! {

/// The mathematical value of a task, shared by every representation of it.
pub struct TaskView {
    /// Unique, assigned by the store, never reused.
    pub id: int,
    /// Fixed at creation.
    pub description: Seq<char>,
    /// Starts false and only ever turns true.
    pub done: bool,
}

impl TaskView {
    /// The same task, completed.
    pub open spec fn completed(self) -> TaskView {
        TaskView { id: self.id, description: self.description, done: true }
    }
}

/// Whether the ids of `tasks` strictly ascend, which also makes them distinct.
pub open spec fn ascending_ids(tasks: Seq<TaskView>) -> bool {
    forall|i: int, j: int| 0 <= i < j < tasks.len() ==> tasks[i].id < tasks[j].id
}

/// A task as a client of the service holds it.
#[derive(Debug, Clone, PartialEq, Eq)]
pub struct Task {
    pub id: i64,
    pub description: String,
    pub done: bool,
}

impl View for Task {
    type V = TaskView;

    open spec fn view(&self) -> TaskView {
        TaskView { id: self.id as int, description: self.description@, done: self.done }
    }
}

impl From<TodoItem> for Task {
    fn from(item: TodoItem) -> (task: Task) {
        Task { id: item.id, description: item.description, done: item.done }
    }
}

impl FromSpecImpl<TodoItem> for Task {
    open spec fn obeys_from_spec() -> bool {
        true
    }

    open spec fn from_spec(item: TodoItem) -> Task {
        Task { id: item.id, description: item.description, done: item.done }
    }
}

} // verus!
