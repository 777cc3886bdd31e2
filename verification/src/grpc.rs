//! The RPC adapter: three methods, one for each service operation.

use crate::database::service::{add_todo, stream_todos, Operation, Todo};
use crate::database::store::{StoreUnavailable, TaskStore};
use crate::pb::{
    AddTodoRequest, AddTodoResponse, CompleteTodoRequest, CompleteTodoResponse, Empty, TodoItem,
    TodoList,
};
use crate::task::ascending_ids;
use vstd::prelude::*;
use vstd::std_specs::convert::FromSpecImpl;

verus! {

/// The status codes with which this adapter fails.
#[derive(Debug, Clone, Copy, PartialEq, Eq, Structural)]
pub enum Code {
    /// The data cannot be had.
    Internal,
    /// A write was rejected.
    Unimplemented,
}

/// A failed call: a code and a message for the caller.
#[derive(Debug, Clone, PartialEq, Eq)]
pub struct Status {
    pub code: Code,
    pub message: String,
}

/// The mathematical value of a status.
pub struct StatusView {
    pub code: Code,
    pub message: Seq<char>,
}

impl View for Status {
    type V = StatusView;

    open spec fn view(&self) -> StatusView {
        StatusView { code: self.code, message: self.message@ }
    }
}

/// The one table from operation to failure: what the method of each
/// operation fails with where the store is unavailable. Listing fails with
/// `Internal`, both writes fail with `Unimplemented`; the message tells the
/// two writes apart.
pub open spec fn failure_for(operation: Operation) -> StatusView {
    match operation {
        Operation::List => StatusView {
            code: Code::Internal,
            message: "The data cannot be obtained."@,
        },
        Operation::Add => StatusView {
            code: Code::Unimplemented,
            message: "Task insertion failed."@,
        },
        Operation::Complete => StatusView {
            code: Code::Unimplemented,
            message: "Task completed failed."@,
        },
    }
}

/// No two operations fail with the same status: a caller can tell from the
/// failure which method it was.
pub proof fn lemma_failures_differ(a: Operation, b: Operation)
    requires
        failure_for(a) == failure_for(b),
    ensures
        a == b,
{
    reveal_strlit("Task insertion failed.");
    reveal_strlit("Task completed failed.");
    assert("Task insertion failed."@[5] == 'i');
    assert("Task completed failed."@[5] == 'c');
}

/// The status with which the method of `operation` fails where the store is
/// unavailable.
pub fn unavailable(operation: Operation) -> (status: Status)
    ensures
        status@ == failure_for(operation),
{
    match operation {
        Operation::List => Status {
            code: Code::Internal,
            message: "The data cannot be obtained.".to_owned(),
        },
        Operation::Add => Status {
            code: Code::Unimplemented,
            message: "Task insertion failed.".to_owned(),
        },
        Operation::Complete => Status {
            code: Code::Unimplemented,
            message: "Task completed failed.".to_owned(),
        },
    }
}

impl From<Todo> for TodoItem {
    fn from(todo: Todo) -> (item: TodoItem) {
        TodoItem { id: todo.id, description: todo.description, done: todo.done }
    }
}

impl FromSpecImpl<Todo> for TodoItem {
    open spec fn obeys_from_spec() -> bool {
        true
    }

    open spec fn from_spec(todo: Todo) -> TodoItem {
        TodoItem { id: todo.id, description: todo.description, done: todo.done }
    }
}

/// The reply of `AddTodoItem` for an outcome of the service's add: the id
/// where it succeeded, the add failure where the store was unavailable.
pub fn add_todo_item_reply(outcome: Result<i64, StoreUnavailable>) -> (reply: Result<
    AddTodoResponse,
    Status,
>)
    ensures
        outcome matches Ok(id) ==> reply == Ok::<AddTodoResponse, Status>(AddTodoResponse { id }),
        outcome is Err ==> (reply matches Err(status) && status@ == failure_for(Operation::Add)),
{
    match outcome {
        Ok(id) => Ok(AddTodoResponse { id }),
        Err(_) => Err(unavailable(Operation::Add)),
    }
}

/// The reply of `CompleteTodo` for an outcome of the service's complete: the
/// flag where it succeeded, the complete failure where the store was
/// unavailable.
pub fn complete_todo_reply(outcome: Result<bool, StoreUnavailable>) -> (reply: Result<
    CompleteTodoResponse,
    Status,
>)
    ensures
        outcome matches Ok(completed) ==> reply == Ok::<CompleteTodoResponse, Status>(
            CompleteTodoResponse { completed },
        ),
        outcome is Err ==> (reply matches Err(status) && status@ == failure_for(
            Operation::Complete,
        )),
{
    match outcome {
        Ok(completed) => Ok(CompleteTodoResponse { completed }),
        Err(_) => Err(unavailable(Operation::Complete)),
    }
}

/// What to do after one item of the store's cursor.
#[derive(Debug, PartialEq, Eq)]
pub enum Collected {
    /// The list so far; the cursor is to be asked for its next item.
    More(TodoList),
    /// The cursor is exhausted or has failed; this is the method's reply.
    Done(Result<TodoList, Status>),
}

/// One step of `GetTodoList`: takes the list gathered so far and the next
/// item of the store's cursor. A task is appended and the cursor is to be read
/// on; the end of the cursor completes the list; a failure of the cursor
/// fails the whole method, whatever was gathered.
pub fn collect(list: TodoList, item: Option<Result<Todo, StoreUnavailable>>) -> (step: Collected)
    ensures
        item matches Some(Ok(todo)) ==> (step matches Collected::More(next) && next@ == list@.push(
            todo@,
        )),
        item matches Some(Err(_)) ==> (step matches Collected::Done(Err(status)) && status@
            == failure_for(Operation::List)),
        item is None ==> step == Collected::Done(Ok(list)),
{
    match item {
        Some(Ok(todo)) => {
            let mut list = list;
            let ghost before = list@;
            let ghost row = todo@;
            list.list.push(TodoItem::from(todo));
            assert(list@ =~= before.push(row));
            Collected::More(list)
        },
        Some(Err(_)) => Collected::Done(Err(unavailable(Operation::List))),
        None => Collected::Done(Ok(list)),
    }
}

/// `GetTodoList`: every task of the store, in ascending order of id, in one
/// message.
pub fn get_todo_list(store: &TaskStore, _request: Empty) -> (reply: Result<TodoList, Status>)
    requires
        store@.well_formed(),
    ensures
        reply matches Ok(list) && list@ == store@.rows && ascending_ids(list@),
{
    let mut cursor = match stream_todos(store) {
        Ok(cursor) => cursor,
        Err(_) => {
            return Err(unavailable(Operation::List));
        },
    };
    let mut list = TodoList { list: Vec::new() };
    assert(list@ =~= Seq::empty());
    loop
        invariant
            store@.well_formed(),
            list@ + cursor.remaining() == store@.rows,
        decreases cursor.remaining().len(),
    {
        let ghost gathered = list@;
        let ghost rest = cursor.remaining();
        match collect(list, cursor.next()) {
            Collected::More(next) => {
                list = next;
                assert(list@ + cursor.remaining() =~= gathered + rest);
            },
            Collected::Done(reply) => {
                assert(gathered + rest =~= gathered);
                return reply;
            },
        }
    }
}

/// `AddTodoItem`: adds a task with the description and replies with its id.
pub fn add_todo_item(store: &mut TaskStore, request: AddTodoRequest) -> (reply: Result<
    AddTodoResponse,
    Status,
>)
    requires
        old(store)@.well_formed(),
    ensures
        final(store)@.well_formed(),
        old(store)@.has_room() ==> reply == Ok::<AddTodoResponse, Status>(
            AddTodoResponse { id: old(store)@.next_id() as i64 },
        ) && final(store)@ == old(store)@.insert(request.description@),
        !old(store)@.has_room() ==> (reply matches Err(status) && status@ == failure_for(
            Operation::Add,
        )) && final(store)@ == old(store)@,
{
    add_todo_item_reply(add_todo(store, request.description))
}

/// `CompleteTodo`: completes the task with the id and replies whether it
/// exists.
pub fn complete_todo(store: &mut TaskStore, request: CompleteTodoRequest) -> (reply: Result<
    CompleteTodoResponse,
    Status,
>)
    requires
        old(store)@.well_formed(),
    ensures
        final(store)@.well_formed(),
        reply == Ok::<CompleteTodoResponse, Status>(
            CompleteTodoResponse { completed: old(store)@.contains_id(request.id as int) },
        ),
        final(store)@ == old(store)@.mark_done(request.id as int),
{
    complete_todo_reply(crate::database::service::complete_todo(store, request.id))
}

} // verus!
