//! The messages of the RPC protocol.

use crate::task::TaskView;
use vstd::prelude::*;

verus! {

/// Request of `AddTodoItem`.
#[derive(Debug, Clone, PartialEq, Eq, Default)]
pub struct AddTodoRequest {
    pub description: String,
}

/// Reply of `AddTodoItem`: the id assigned to the new task.
#[derive(Debug, Clone, Copy, PartialEq, Eq, Structural)]
pub struct AddTodoResponse {
    pub id: i64,
}

/// Request of `CompleteTodo`.
#[derive(Debug, Clone, Copy, PartialEq, Eq, Structural)]
pub struct CompleteTodoRequest {
    pub id: i64,
}

/// Reply of `CompleteTodo`: whether a task with the id exists.
#[derive(Debug, Clone, Copy, PartialEq, Eq, Structural)]
pub struct CompleteTodoResponse {
    pub completed: bool,
}

/// Request of `GetTodoList`.
#[derive(Debug, Clone, Copy, PartialEq, Eq, Structural, Default)]
pub struct Empty {}

/// A task on the RPC wire.
#[derive(Debug, Clone, PartialEq, Eq, Default)]
pub struct TodoItem {
    pub id: i64,
    pub description: String,
    pub done: bool,
}

impl View for TodoItem {
    type V = TaskView;

    open spec fn view(&self) -> TaskView {
        TaskView { id: self.id as int, description: self.description@, done: self.done }
    }
}

/// Reply of `GetTodoList`: every task, in one message.
#[derive(Debug, Clone, PartialEq, Eq, Default)]
pub struct TodoList {
    pub list: Vec<TodoItem>,
}

impl View for TodoList {
    type V = Seq<TaskView>;

    open spec fn view(&self) -> Seq<TaskView> {
        self.list@.map_values(|item: TodoItem| item@)
    }
}

} // verus!
