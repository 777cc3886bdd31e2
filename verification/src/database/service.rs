//! The service operations, identical for both adapters.

use crate::database::store::{StoreUnavailable, TaskStore};
use crate::task::{ascending_ids, TaskView};
use vstd::prelude::*;

verus! {

/// The three operations of the service.
#[derive(Debug, Clone, Copy, PartialEq, Eq, Structural)]
pub enum Operation {
    /// List all tasks.
    List,
    /// Add a task.
    Add,
    /// Complete a task.
    Complete,
}

/// The statement by which a SQL store adds a task; its one parameter is the
/// description.
pub const INSERT_TODO: &'static str = "insert into todos (description) values ($1)";

/// The statement by which a SQL store completes a task; its one parameter is
/// the id. It runs whether the task is done already or not.
pub const COMPLETE_TODO: &'static str = "update todos set done = true where id = ?1";

/// The statement by which a SQL store lists all tasks, in ascending order of
/// id.
pub const SELECT_TODOS: &'static str =
    "select t.id, t.description, t.done from todos t order by id";

/// A task as the store keeps it, one row of the table.
#[derive(Debug, Clone, PartialEq, Eq)]
pub struct Todo {
    pub id: i64,
    pub description: String,
    pub done: bool,
}

impl View for Todo {
    type V = TaskView;

    open spec fn view(&self) -> TaskView {
        TaskView { id: self.id as int, description: self.description@, done: self.done }
    }
}

/// The views of a list of rows, in the same order.
pub open spec fn views(rows: Seq<Todo>) -> Seq<TaskView> {
    rows.map_values(|row: Todo| row@)
}

impl Todo {
    /// A copy of the row, field for field.
    pub fn duplicate(&self) -> (copy: Todo)
        ensures
            copy == *self,
    {
        Todo { id: self.id, description: self.description.clone(), done: self.done }
    }
}

/// Whether an update that touched `rows_affected` rows completed a task: it
/// did where it touched at least one.
pub fn completed(rows_affected: u64) -> (done: bool)
    ensures
        done == (rows_affected > 0),
{
    rows_affected > 0
}

/// Adds a task that is not done and returns the id the store assigned to it.
/// Any description is accepted, the empty one too; the operation fails only
/// where the store does.
pub fn add_todo(store: &mut TaskStore, description: String) -> (outcome: Result<
    i64,
    StoreUnavailable,
>)
    requires
        old(store)@.well_formed(),
    ensures
        final(store)@.well_formed(),
        old(store)@.has_room() ==> outcome == Ok::<i64, StoreUnavailable>(
            old(store)@.next_id() as i64,
        ) && final(store)@ == old(store)@.insert(description@),
        !old(store)@.has_room() ==> outcome is Err && final(store)@ == old(store)@,
{
    store.insert(description)
}

/// Completes the task with this id. Returns true where the id exists, done
/// already or not, and false where it does not: an unknown id is no error.
pub fn complete_todo(store: &mut TaskStore, id: i64) -> (outcome: Result<bool, StoreUnavailable>)
    requires
        old(store)@.well_formed(),
    ensures
        final(store)@.well_formed(),
        outcome == Ok::<bool, StoreUnavailable>(old(store)@.contains_id(id as int)),
        final(store)@ == old(store)@.mark_done(id as int),
{
    Ok(completed(store.mark_done(id)))
}

/// All tasks, in ascending order of id, as one batch.
pub fn list_todos(store: &TaskStore) -> (outcome: Result<Vec<Todo>, StoreUnavailable>)
    requires
        store@.well_formed(),
    ensures
        outcome matches Ok(rows) && views(rows@) == store@.rows && ascending_ids(views(rows@)),
{
    Ok(store.select_all())
}

/// A cursor over the tasks of a store as they were when it was opened: a
/// finite sequence that is read once, front to back.
#[derive(Debug)]
pub struct TodoCursor {
    rows: Vec<Todo>,
    position: usize,
}

impl TodoCursor {
    /// The tasks that the cursor has yet to yield, in order.
    pub closed spec fn remaining(&self) -> Seq<TaskView> {
        if self.position <= self.rows@.len() {
            views(self.rows@).skip(self.position as int)
        } else {
            Seq::empty()
        }
    }

    /// Yields the next task, or `None` once all were yielded.
    pub fn next(&mut self) -> (item: Option<Result<Todo, StoreUnavailable>>)
        ensures
            old(self).remaining().len() == 0 ==> item is None && final(self).remaining() == old(
                self,
            ).remaining(),
            old(self).remaining().len() > 0 ==> (item matches Some(Ok(row)) && row@ == old(
                self,
            ).remaining().first()) && final(self).remaining() == old(self).remaining().drop_first(),
    {
        if self.position < self.rows.len() {
            let row = self.rows[self.position].duplicate();
            self.position = self.position + 1;
            assert(self.remaining() =~= old(self).remaining().drop_first());
            Some(Ok(row))
        } else {
            None
        }
    }
}

/// All tasks, in ascending order of id, as a cursor to be drained.
pub fn stream_todos(store: &TaskStore) -> (outcome: Result<TodoCursor, StoreUnavailable>)
    requires
        store@.well_formed(),
    ensures
        outcome matches Ok(cursor) && cursor.remaining() == store@.rows,
{
    let cursor = TodoCursor { rows: store.select_all(), position: 0 };
    assert(cursor.remaining() =~= store@.rows);
    Ok(cursor)
}

} // verus!
