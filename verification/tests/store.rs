use axum_tonic_demo::database::service::{
    add_todo, complete_todo, completed, list_todos, stream_todos, Todo,
};
use axum_tonic_demo::database::store::{StoreUnavailable, TaskStore};

fn todo(id: i64, description: &str, done: bool) -> Todo {
    Todo { id, description: description.to_string(), done }
}

#[test]
fn scenario_add_list_complete() {
    let mut store = TaskStore::new();
    assert_eq!(add_todo(&mut store, "buy milk".to_string()), Ok(1));
    assert_eq!(add_todo(&mut store, "walk dog".to_string()), Ok(2));
    assert_eq!(
        list_todos(&store),
        Ok(vec![todo(1, "buy milk", false), todo(2, "walk dog", false)])
    );
    assert_eq!(complete_todo(&mut store, 1), Ok(true));
    assert_eq!(
        list_todos(&store),
        Ok(vec![todo(1, "buy milk", true), todo(2, "walk dog", false)])
    );
    assert_eq!(complete_todo(&mut store, 99), Ok(false));
    assert_eq!(
        list_todos(&store),
        Ok(vec![todo(1, "buy milk", true), todo(2, "walk dog", false)])
    );
}

#[test]
fn new_store_lists_nothing() {
    let store = TaskStore::new();
    assert_eq!(list_todos(&store), Ok(vec![]));
}

#[test]
fn ids_strictly_increase() {
    let mut store = TaskStore::new();
    let mut last = 0;
    for n in 0..50 {
        let id = add_todo(&mut store, format!("task {}", n)).unwrap();
        assert!(id > last);
        last = id;
    }
    assert_eq!(last, 50);
}

#[test]
fn ids_increase_across_completions() {
    let mut store = TaskStore::new();
    assert_eq!(add_todo(&mut store, "a".to_string()), Ok(1));
    assert_eq!(complete_todo(&mut store, 1), Ok(true));
    assert_eq!(add_todo(&mut store, "b".to_string()), Ok(2));
    assert_eq!(complete_todo(&mut store, 7), Ok(false));
    assert_eq!(add_todo(&mut store, "c".to_string()), Ok(3));
}

#[test]
fn listing_is_ascending_by_id() {
    let mut store = TaskStore::new();
    for n in 0..20 {
        add_todo(&mut store, format!("task {}", n)).unwrap();
        if n % 3 == 0 {
            complete_todo(&mut store, n / 2 + 1).unwrap();
        }
    }
    let rows = list_todos(&store).unwrap();
    assert_eq!(rows.len(), 20);
    for pair in rows.windows(2) {
        assert!(pair[0].id < pair[1].id);
    }
}

#[test]
fn listing_is_stable_across_calls() {
    let mut store = TaskStore::new();
    add_todo(&mut store, "a".to_string()).unwrap();
    add_todo(&mut store, "b".to_string()).unwrap();
    assert_eq!(list_todos(&store), list_todos(&store));
}

#[test]
fn empty_description_is_accepted() {
    let mut store = TaskStore::new();
    assert_eq!(add_todo(&mut store, String::new()), Ok(1));
    assert_eq!(list_todos(&store), Ok(vec![todo(1, "", false)]));
}

#[test]
fn equal_descriptions_get_distinct_ids() {
    let mut store = TaskStore::new();
    assert_eq!(add_todo(&mut store, "same".to_string()), Ok(1));
    assert_eq!(add_todo(&mut store, "same".to_string()), Ok(2));
    assert_eq!(list_todos(&store), Ok(vec![todo(1, "same", false), todo(2, "same", false)]));
}

#[test]
fn complete_is_true_only_for_issued_ids() {
    let mut store = TaskStore::new();
    assert_eq!(complete_todo(&mut store, 1), Ok(false));
    let id = add_todo(&mut store, "only".to_string()).unwrap();
    assert_eq!(complete_todo(&mut store, id), Ok(true));
    assert_eq!(complete_todo(&mut store, id + 1), Ok(false));
    assert_eq!(complete_todo(&mut store, 0), Ok(false));
    assert_eq!(complete_todo(&mut store, -1), Ok(false));
    assert_eq!(complete_todo(&mut store, i64::MIN), Ok(false));
    assert_eq!(complete_todo(&mut store, i64::MAX), Ok(false));
}

#[test]
fn complete_twice_is_true_twice() {
    let mut store = TaskStore::new();
    add_todo(&mut store, "once".to_string()).unwrap();
    assert_eq!(complete_todo(&mut store, 1), Ok(true));
    let after_first = list_todos(&store);
    assert_eq!(complete_todo(&mut store, 1), Ok(true));
    assert_eq!(list_todos(&store), after_first);
    assert_eq!(list_todos(&store), Ok(vec![todo(1, "once", true)]));
}

#[test]
fn complete_touches_no_other_task() {
    let mut store = TaskStore::new();
    add_todo(&mut store, "a".to_string()).unwrap();
    add_todo(&mut store, "b".to_string()).unwrap();
    add_todo(&mut store, "c".to_string()).unwrap();
    assert_eq!(complete_todo(&mut store, 2), Ok(true));
    assert_eq!(
        list_todos(&store),
        Ok(vec![todo(1, "a", false), todo(2, "b", true), todo(3, "c", false)])
    );
}

#[test]
fn unknown_id_changes_nothing() {
    let mut store = TaskStore::new();
    add_todo(&mut store, "a".to_string()).unwrap();
    let before = list_todos(&store);
    assert_eq!(complete_todo(&mut store, 2), Ok(false));
    assert_eq!(list_todos(&store), before);
}

#[test]
fn completed_goes_by_rows_affected() {
    assert!(!completed(0));
    assert!(completed(1));
    assert!(completed(2));
    assert!(completed(u64::MAX));
}

#[test]
fn store_resumes_after_last_id() {
    let mut store = TaskStore::resuming_after(41).unwrap();
    assert_eq!(list_todos(&store), Ok(vec![]));
    assert_eq!(add_todo(&mut store, "next".to_string()), Ok(42));
    assert_eq!(complete_todo(&mut store, 41), Ok(false));
    assert_eq!(complete_todo(&mut store, 42), Ok(true));
    assert_eq!(list_todos(&store), Ok(vec![todo(42, "next", true)]));
}

#[test]
fn store_resuming_after_zero_is_new() {
    let mut store = TaskStore::resuming_after(0).unwrap();
    assert_eq!(add_todo(&mut store, "first".to_string()), Ok(1));
}

#[test]
fn store_does_not_resume_after_negative_id() {
    assert!(TaskStore::resuming_after(-1).is_none());
    assert!(TaskStore::resuming_after(i64::MIN).is_none());
}

#[test]
fn add_fails_when_ids_are_used_up() {
    let mut store = TaskStore::resuming_after(i64::MAX - 1).unwrap();
    assert_eq!(add_todo(&mut store, "last".to_string()), Ok(i64::MAX));
    assert_eq!(add_todo(&mut store, "one more".to_string()), Err(StoreUnavailable));
    assert_eq!(list_todos(&store), Ok(vec![todo(i64::MAX, "last", false)]));
    assert_eq!(complete_todo(&mut store, i64::MAX), Ok(true));
}

#[test]
fn store_insert_and_mark_done() {
    let mut store = TaskStore::new();
    assert_eq!(store.insert("a".to_string()), Ok(1));
    assert_eq!(store.insert("b".to_string()), Ok(2));
    assert_eq!(store.mark_done(2), 1);
    assert_eq!(store.mark_done(2), 1);
    assert_eq!(store.mark_done(3), 0);
    assert_eq!(store.select_all(), vec![todo(1, "a", false), todo(2, "b", true)]);
}

#[test]
fn cursor_yields_each_task_once() {
    let mut store = TaskStore::new();
    add_todo(&mut store, "a".to_string()).unwrap();
    add_todo(&mut store, "b".to_string()).unwrap();
    complete_todo(&mut store, 2).unwrap();
    let mut cursor = stream_todos(&store).unwrap();
    assert_eq!(cursor.next(), Some(Ok(todo(1, "a", false))));
    assert_eq!(cursor.next(), Some(Ok(todo(2, "b", true))));
    assert_eq!(cursor.next(), None);
    assert_eq!(cursor.next(), None);
}

#[test]
fn cursor_of_empty_store_ends_at_once() {
    let store = TaskStore::new();
    let mut cursor = stream_todos(&store).unwrap();
    assert_eq!(cursor.next(), None);
}

#[test]
fn cursor_keeps_the_state_it_was_opened_on() {
    let mut store = TaskStore::new();
    add_todo(&mut store, "a".to_string()).unwrap();
    let mut cursor = stream_todos(&store).unwrap();
    add_todo(&mut store, "b".to_string()).unwrap();
    complete_todo(&mut store, 1).unwrap();
    assert_eq!(cursor.next(), Some(Ok(todo(1, "a", false))));
    assert_eq!(cursor.next(), None);
}

#[test]
fn streamed_and_batched_listing_agree() {
    let mut store = TaskStore::new();
    for n in 0..10 {
        add_todo(&mut store, format!("task {}", n)).unwrap();
    }
    complete_todo(&mut store, 4).unwrap();
    let batch = list_todos(&store).unwrap();
    let mut cursor = stream_todos(&store).unwrap();
    let mut streamed = Vec::new();
    while let Some(Ok(row)) = cursor.next() {
        streamed.push(row);
    }
    assert_eq!(streamed, batch);
}

#[test]
fn duplicate_copies_every_field() {
    let row = todo(7, "seven", true);
    assert_eq!(row.duplicate(), row);
}
