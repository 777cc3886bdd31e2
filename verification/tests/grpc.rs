use axum_tonic_demo::database::service::{Operation, Todo};
use axum_tonic_demo::database::store::{StoreUnavailable, TaskStore};
use axum_tonic_demo::grpc::{
    add_todo_item, add_todo_item_reply, collect, complete_todo, complete_todo_reply,
    get_todo_list, unavailable, Code, Collected, Status,
};
use axum_tonic_demo::pb::{
    AddTodoRequest, AddTodoResponse, CompleteTodoRequest, CompleteTodoResponse, Empty, TodoItem,
    TodoList,
};
use axum_tonic_demo::task::Task;

fn item(id: i64, description: &str, done: bool) -> TodoItem {
    TodoItem { id, description: description.to_string(), done }
}

fn row(id: i64, description: &str, done: bool) -> Todo {
    Todo { id, description: description.to_string(), done }
}

#[test]
fn add_reply_carries_the_id() {
    assert_eq!(add_todo_item_reply(Ok(7)), Ok(AddTodoResponse { id: 7 }));
}

#[test]
fn add_failure_is_unimplemented() {
    assert_eq!(
        add_todo_item_reply(Err(StoreUnavailable)),
        Err(Status { code: Code::Unimplemented, message: "Task insertion failed.".to_string() })
    );
}

#[test]
fn complete_reply_carries_the_flag() {
    assert_eq!(complete_todo_reply(Ok(true)), Ok(CompleteTodoResponse { completed: true }));
    assert_eq!(complete_todo_reply(Ok(false)), Ok(CompleteTodoResponse { completed: false }));
}

#[test]
fn complete_failure_is_unimplemented() {
    assert_eq!(
        complete_todo_reply(Err(StoreUnavailable)),
        Err(Status { code: Code::Unimplemented, message: "Task completed failed.".to_string() })
    );
}

#[test]
fn list_failure_is_internal() {
    assert_eq!(
        unavailable(Operation::List),
        Status { code: Code::Internal, message: "The data cannot be obtained.".to_string() }
    );
}

#[test]
fn failure_table() {
    assert_eq!(
        unavailable(Operation::Add),
        Status { code: Code::Unimplemented, message: "Task insertion failed.".to_string() }
    );
    assert_eq!(
        unavailable(Operation::Complete),
        Status { code: Code::Unimplemented, message: "Task completed failed.".to_string() }
    );
    assert_eq!(add_todo_item_reply(Err(StoreUnavailable)), Err(unavailable(Operation::Add)));
    assert_eq!(complete_todo_reply(Err(StoreUnavailable)), Err(unavailable(Operation::Complete)));
}

#[test]
fn failures_can_be_told_apart() {
    let add = add_todo_item_reply(Err(StoreUnavailable)).unwrap_err();
    let complete = complete_todo_reply(Err(StoreUnavailable)).unwrap_err();
    let list = unavailable(Operation::List);
    assert_ne!(add, complete);
    assert_ne!(add, list);
    assert_ne!(complete, list);
    assert_ne!(list.code, add.code);
    assert_eq!(add.code, complete.code);
}

#[test]
fn collect_appends_a_task() {
    let list = TodoList { list: vec![item(1, "a", false)] };
    assert_eq!(
        collect(list, Some(Ok(row(2, "b", true)))),
        Collected::More(TodoList { list: vec![item(1, "a", false), item(2, "b", true)] })
    );
}

#[test]
fn collect_starts_from_the_empty_list() {
    assert_eq!(
        collect(TodoList::default(), Some(Ok(row(1, "a", false)))),
        Collected::More(TodoList { list: vec![item(1, "a", false)] })
    );
}

#[test]
fn collect_ends_with_the_cursor() {
    let list = TodoList { list: vec![item(1, "a", false)] };
    assert_eq!(
        collect(list, None),
        Collected::Done(Ok(TodoList { list: vec![item(1, "a", false)] }))
    );
    assert_eq!(collect(TodoList::default(), None), Collected::Done(Ok(TodoList { list: vec![] })));
}

#[test]
fn collect_fails_with_the_cursor() {
    let list = TodoList { list: vec![item(1, "a", false)] };
    assert_eq!(
        collect(list, Some(Err(StoreUnavailable))),
        Collected::Done(Err(Status {
            code: Code::Internal,
            message: "The data cannot be obtained.".to_string(),
        }))
    );
}

#[test]
fn todo_item_from_row_keeps_the_fields() {
    assert_eq!(TodoItem::from(row(3, "three", true)), item(3, "three", true));
    assert_eq!(TodoItem::from(row(-4, "", false)), item(-4, "", false));
    let converted: TodoItem = row(5, "five", false).into();
    assert_eq!(converted, item(5, "five", false));
}

#[test]
fn task_from_todo_item_keeps_the_fields() {
    assert_eq!(
        Task::from(item(3, "three", true)),
        Task { id: 3, description: "three".to_string(), done: true }
    );
    assert_eq!(
        Task::from(item(i64::MAX, "", false)),
        Task { id: i64::MAX, description: String::new(), done: false }
    );
}

#[test]
fn rpc_scenario() {
    let mut store = TaskStore::new();
    assert_eq!(
        add_todo_item(&mut store, AddTodoRequest { description: "buy milk".to_string() }),
        Ok(AddTodoResponse { id: 1 })
    );
    assert_eq!(
        add_todo_item(&mut store, AddTodoRequest { description: "walk dog".to_string() }),
        Ok(AddTodoResponse { id: 2 })
    );
    assert_eq!(
        get_todo_list(&store, Empty {}),
        Ok(TodoList { list: vec![item(1, "buy milk", false), item(2, "walk dog", false)] })
    );
    assert_eq!(
        complete_todo(&mut store, CompleteTodoRequest { id: 1 }),
        Ok(CompleteTodoResponse { completed: true })
    );
    assert_eq!(
        get_todo_list(&store, Empty {}),
        Ok(TodoList { list: vec![item(1, "buy milk", true), item(2, "walk dog", false)] })
    );
    assert_eq!(
        complete_todo(&mut store, CompleteTodoRequest { id: 99 }),
        Ok(CompleteTodoResponse { completed: false })
    );
}

#[test]
fn rpc_list_of_empty_store() {
    let store = TaskStore::new();
    assert_eq!(get_todo_list(&store, Empty::default()), Ok(TodoList { list: vec![] }));
}

#[test]
fn rpc_add_fails_when_ids_are_used_up() {
    let mut store = TaskStore::resuming_after(i64::MAX).unwrap();
    assert_eq!(
        add_todo_item(&mut store, AddTodoRequest { description: "late".to_string() }),
        Err(Status { code: Code::Unimplemented, message: "Task insertion failed.".to_string() })
    );
    assert_eq!(get_todo_list(&store, Empty {}), Ok(TodoList { list: vec![] }));
}

#[test]
fn rpc_complete_twice() {
    let mut store = TaskStore::new();
    add_todo_item(&mut store, AddTodoRequest { description: "x".to_string() }).unwrap();
    assert_eq!(
        complete_todo(&mut store, CompleteTodoRequest { id: 1 }),
        Ok(CompleteTodoResponse { completed: true })
    );
    assert_eq!(
        complete_todo(&mut store, CompleteTodoRequest { id: 1 }),
        Ok(CompleteTodoResponse { completed: true })
    );
    assert_eq!(get_todo_list(&store, Empty {}), Ok(TodoList { list: vec![item(1, "x", true)] }));
}
