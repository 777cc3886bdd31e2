//! The store's rules, as an in-memory table that keeps them.

use crate::database::service::{views, Todo};
use crate::task::{ascending_ids, TaskView};
use vstd::prelude::*;

verus! {

/// The one failure of the data-access layer: a connection could not be had,
/// or a statement failed.
#[derive(Debug, Clone, Copy, PartialEq, Eq, Structural)]
pub struct StoreUnavailable;

/// The mathematical value of a store: its rows in listing order, and the
/// last id it has assigned.
pub struct StoreView {
    pub rows: Seq<TaskView>,
    pub last_id: int,
}

impl StoreView {
    /// The store before any task was added.
    pub open spec fn empty() -> StoreView {
        StoreView { rows: Seq::empty(), last_id: 0 }
    }

    /// The rules every store state obeys: ids are positive, none is above the
    /// last one assigned, and rows stand in strictly ascending order of id.
    pub open spec fn well_formed(self) -> bool {
        &&& 0 <= self.last_id <= i64::MAX
        &&& forall|i: int|
            0 <= i < self.rows.len() ==> 0 < (#[trigger] self.rows[i]).id <= self.last_id
        &&& ascending_ids(self.rows)
    }

    /// Whether a row with this id exists.
    pub open spec fn contains_id(self, id: int) -> bool {
        exists|i: int| 0 <= i < self.rows.len() && (#[trigger] self.rows[i]).id == id
    }

    /// Whether another id can still be assigned.
    pub open spec fn has_room(self) -> bool {
        self.last_id < i64::MAX
    }

    /// The id that the next insertion assigns.
    pub open spec fn next_id(self) -> int {
        self.last_id + 1
    }

    /// The store after inserting a task with this description.
    pub open spec fn insert(self, description: Seq<char>) -> StoreView {
        StoreView {
            rows: self.rows.push(
                TaskView { id: self.next_id(), description: description, done: false },
            ),
            last_id: self.next_id(),
        }
    }

    /// The store after marking the row with this id, if any, as done.
    pub open spec fn mark_done(self, id: int) -> StoreView {
        StoreView {
            rows: self.rows.map_values(
                |task: TaskView| if task.id == id { task.completed() } else { task },
            ),
            last_id: self.last_id,
        }
    }

    /// How many rows an update of the row with this id touches.
    pub open spec fn rows_affected(self, id: int) -> nat {
        if self.contains_id(id) { 1 } else { 0 }
    }
}

/// An operation on the store, as the service performs it.
pub enum Op {
    /// Add a task with this description.
    Add(Seq<char>),
    /// Complete the task with this id.
    Complete(int),
}

impl StoreView {
    /// The id that `op` returns from this store, where it is an addition that
    /// succeeds.
    pub open spec fn issued(self, op: Op) -> Option<int> {
        match op {
            Op::Add(_) => if self.has_room() {
                Some(self.next_id())
            } else {
                None
            },
            Op::Complete(_) => None,
        }
    }

    /// The store after `op`. An addition that fails changes nothing.
    pub open spec fn apply(self, op: Op) -> StoreView {
        match op {
            Op::Add(description) => if self.has_room() {
                self.insert(description)
            } else {
                self
            },
            Op::Complete(id) => self.mark_done(id),
        }
    }

    /// The store after a run of operations, in order.
    pub open spec fn apply_all(self, ops: Seq<Op>) -> StoreView
        decreases ops.len(),
    {
        if ops.len() == 0 {
            self
        } else {
            self.apply_all(ops.drop_last()).apply(ops.last())
        }
    }
}

/// One operation keeps the store well formed, so its listing stays in
/// strictly ascending order of id. It never lowers the last id assigned,
/// keeps every row where it was, with its id and description, and turns no
/// finished task back.
pub proof fn lemma_apply_keeps_rules(store: StoreView, op: Op)
    requires
        store.well_formed(),
    ensures
        store.apply(op).well_formed(),
        ascending_ids(store.apply(op).rows),
        store.last_id <= store.apply(op).last_id,
        store.rows.len() <= store.apply(op).rows.len(),
        forall|i: int|
            0 <= i < store.rows.len() ==> {
                &&& (#[trigger] store.apply(op).rows[i]).id == store.rows[i].id
                &&& store.apply(op).rows[i].description == store.rows[i].description
                &&& store.rows[i].done ==> store.apply(op).rows[i].done
            },
{
}

/// Whatever the order in which additions and completions come, the store
/// stays well formed: it lists its tasks in strictly ascending order of id.
pub proof fn lemma_listing_stays_ascending(store: StoreView, ops: Seq<Op>)
    requires
        store.well_formed(),
    ensures
        store.apply_all(ops).well_formed(),
        ascending_ids(store.apply_all(ops).rows),
        store.last_id <= store.apply_all(ops).last_id,
    decreases ops.len(),
{
    if ops.len() > 0 {
        lemma_listing_stays_ascending(store, ops.drop_last());
        lemma_apply_keeps_rules(store.apply_all(ops.drop_last()), ops.last());
    }
}

/// The last id assigned never goes down as a run of operations grows.
pub proof fn lemma_last_id_grows(store: StoreView, ops: Seq<Op>, i: int, j: int)
    requires
        store.well_formed(),
        0 <= i <= j <= ops.len(),
    ensures
        store.apply_all(ops.take(i)).last_id <= store.apply_all(ops.take(j)).last_id,
    decreases j - i,
{
    if i < j {
        lemma_last_id_grows(store, ops, i, j - 1);
        lemma_listing_stays_ascending(store, ops.take(j - 1));
        lemma_apply_keeps_rules(store.apply_all(ops.take(j - 1)), ops[j - 1]);
        assert(ops.take(j).drop_last() =~= ops.take(j - 1));
        assert(ops.take(j).last() == ops[j - 1]);
    }
}

/// In any run of operations, the ids that successful additions return
/// strictly increase, so no two of them are equal.
pub proof fn lemma_issued_ids_increase(store: StoreView, ops: Seq<Op>, i: int, j: int)
    requires
        store.well_formed(),
        0 <= i < j < ops.len(),
        store.apply_all(ops.take(i)).issued(ops[i]) is Some,
        store.apply_all(ops.take(j)).issued(ops[j]) is Some,
    ensures
        store.apply_all(ops.take(i)).issued(ops[i])->0 < store.apply_all(ops.take(j)).issued(
            ops[j],
        )->0,
{
    lemma_last_id_grows(store, ops, i + 1, j);
    assert(ops.take(i + 1).drop_last() =~= ops.take(i));
    assert(ops.take(i + 1).last() == ops[i]);
}

/// A row with a given id exists after an operation exactly where it existed
/// before or the operation was the addition that returned this id.
pub proof fn lemma_apply_ids(store: StoreView, op: Op, id: int)
    requires
        store.well_formed(),
    ensures
        store.apply(op).contains_id(id) <==> store.contains_id(id) || store.issued(op) == Some(id),
{
    let after = store.apply(op);
    if store.contains_id(id) {
        let i = choose|i: int| 0 <= i < store.rows.len() && (#[trigger] store.rows[i]).id == id;
        lemma_apply_keeps_rules(store, op);
        assert(after.rows[i].id == id);
    }
    if store.issued(op) == Some(id) {
        assert(after.rows[store.rows.len() as int].id == id);
    }
    if after.contains_id(id) {
        let i = choose|i: int| 0 <= i < after.rows.len() && (#[trigger] after.rows[i]).id == id;
        if i < store.rows.len() {
            lemma_apply_keeps_rules(store, op);
            assert(store.rows[i].id == id);
        }
    }
}

/// Completing a task succeeds exactly for the ids that exist: after a run of
/// operations these are the ids that the store held at its start and those
/// that a successful addition of the run returned. From an empty store, then,
/// it succeeds for the ids that were issued and for no other.
pub proof fn lemma_existing_ids_were_issued(store: StoreView, ops: Seq<Op>, id: int)
    requires
        store.well_formed(),
    ensures
        store.apply_all(ops).contains_id(id) <==> store.contains_id(id) || exists|k: int|
            0 <= k < ops.len() && #[trigger] store.apply_all(ops.take(k)).issued(ops[k]) == Some(
                id,
            ),
        store.apply_all(ops).rows_affected(id) > 0 <==> store.apply_all(ops).contains_id(id),
    decreases ops.len(),
{
    if ops.len() == 0 {
    } else {
        let shorter = ops.drop_last();
        let before = store.apply_all(shorter);
        lemma_existing_ids_were_issued(store, shorter, id);
        lemma_listing_stays_ascending(store, shorter);
        lemma_apply_ids(before, ops.last(), id);
        assert(ops.take(ops.len() - 1) =~= shorter);
        assert forall|k: int| 0 <= k < shorter.len() implies #[trigger] ops.take(k)
            == shorter.take(k) by {
            assert(ops.take(k) =~= shorter.take(k));
        }
        let issued_in = |run: Seq<Op>|
            exists|k: int|
                0 <= k < run.len() && #[trigger] store.apply_all(run.take(k)).issued(run[k])
                    == Some(id);
        if issued_in(shorter) {
            let k = choose|k: int|
                0 <= k < shorter.len() && #[trigger] store.apply_all(shorter.take(k)).issued(
                    shorter[k],
                ) == Some(id);
            assert(store.apply_all(ops.take(k)).issued(ops[k]) == Some(id));
        }
        if before.issued(ops.last()) == Some(id) {
            assert(store.apply_all(ops.take(ops.len() - 1)).issued(ops[ops.len() - 1]) == Some(
                id,
            ));
        }
        if issued_in(ops) {
            let k = choose|k: int|
                0 <= k < ops.len() && #[trigger] store.apply_all(ops.take(k)).issued(ops[k])
                    == Some(id);
            if k < shorter.len() {
                assert(store.apply_all(shorter.take(k)).issued(shorter[k]) == Some(id));
            }
        }
    }
}

/// From an empty store, completing a task succeeds exactly for the ids that a
/// successful addition has returned before, and touches no row for any id
/// that was never issued.
pub proof fn lemma_complete_succeeds_for_issued_ids(ops: Seq<Op>, id: int)
    ensures
        StoreView::empty().apply_all(ops).rows_affected(id) > 0 <==> exists|k: int|
            0 <= k < ops.len() && #[trigger] StoreView::empty().apply_all(ops.take(k)).issued(
                ops[k],
            ) == Some(id),
{
    lemma_existing_ids_were_issued(StoreView::empty(), ops, id);
}

/// Completing the same task twice changes no more than completing it once,
/// and touches a row the second time exactly where it did the first time: for
/// an id that exists both calls succeed, and the task stays done.
pub proof fn lemma_complete_twice(store: StoreView, id: int)
    ensures
        store.contains_id(id) ==> store.rows_affected(id) == 1 && store.mark_done(
            id,
        ).rows_affected(id) == 1,
        store.mark_done(id).rows_affected(id) == store.rows_affected(id),
        store.mark_done(id).mark_done(id) == store.mark_done(id),
        forall|i: int|
            0 <= i < store.rows.len() && store.rows[i].id == id ==> (#[trigger] store.mark_done(
                id,
            ).rows[i]).done,
{
    let once = store.mark_done(id);
    assert(once.mark_done(id).rows =~= once.rows);
    if store.contains_id(id) {
        let i = choose|i: int| 0 <= i < store.rows.len() && (#[trigger] store.rows[i]).id == id;
        assert(once.rows[i].id == id);
    }
    if once.contains_id(id) {
        let i = choose|i: int| 0 <= i < once.rows.len() && (#[trigger] once.rows[i]).id == id;
        assert(store.rows[i].id == id);
    }
}

/// A task that was added is listed last, with the id that the addition
/// returned, the description given and not done; the tasks before it are
/// listed as they were. Both adapters add through `insert` and list `rows`,
/// so a task added through one is seen, field for field, through the other.
pub proof fn lemma_added_task_is_listed(store: StoreView, description: Seq<char>)
    ensures
        store.insert(description).rows.last() == (TaskView {
            id: store.next_id(),
            description: description,
            done: false,
        }),
        store.insert(description).rows.drop_last() == store.rows,
        store.insert(description).contains_id(store.next_id()),
{
    let after = store.insert(description);
    assert(after.rows.drop_last() =~= store.rows);
    assert(after.rows[store.rows.len() as int].id == store.next_id());
}

/// A table of tasks that assigns ids as the backing database does: each
/// insertion gets the next integer, starting from 1, and no id comes twice.
#[derive(Debug)]
pub struct TaskStore {
    rows: Vec<Todo>,
    last_id: i64,
}

impl View for TaskStore {
    type V = StoreView;

    closed spec fn view(&self) -> StoreView {
        StoreView { rows: views(self.rows@), last_id: self.last_id as int }
    }
}

impl TaskStore {
    /// An empty store, whose first task gets id 1.
    pub fn new() -> (store: TaskStore)
        ensures
            store@ == StoreView::empty(),
            store@.well_formed(),
    {
        let store = TaskStore { rows: Vec::new(), last_id: 0 };
        assert(store@.rows =~= Seq::empty());
        store
    }

    /// An empty store that has already assigned the ids up to `last_id`;
    /// none where `last_id` is negative.
    pub fn resuming_after(last_id: i64) -> (store: Option<TaskStore>)
        ensures
            last_id < 0 <==> store is None,
            store matches Some(s) ==> s@ == (StoreView {
                rows: Seq::empty(),
                last_id: last_id as int,
            }) && s@.well_formed(),
    {
        if last_id < 0 {
            None
        } else {
            let store = TaskStore { rows: Vec::new(), last_id };
            assert(store@.rows =~= Seq::empty());
            Some(store)
        }
    }

    /// Inserts a task that is not done and returns its id, the successor of
    /// the last one assigned. Fails, changing nothing, only where the ids are
    /// used up; the description is never a reason to fail.
    pub fn insert(&mut self, description: String) -> (outcome: Result<i64, StoreUnavailable>)
        requires
            old(self)@.well_formed(),
        ensures
            old(self)@.has_room() ==> outcome == Ok::<i64, StoreUnavailable>(
                old(self)@.next_id() as i64,
            ) && final(self)@ == old(self)@.insert(description@),
            !old(self)@.has_room() ==> outcome is Err && final(self)@ == old(self)@,
            final(self)@.well_formed(),
    {
        if self.last_id == i64::MAX {
            return Err(StoreUnavailable);
        }
        let id: i64 = self.last_id + 1;
        let ghost before = self@;
        self.last_id = id;
        self.rows.push(Todo { id, description, done: false });
        assert(self@.rows =~= before.insert(description@).rows);
        Ok(id)
    }

    /// Marks the row with this id as done and returns the number of rows
    /// touched: 1 where the id exists, done already or not, else 0.
    pub fn mark_done(&mut self, id: i64) -> (affected: u64)
        requires
            old(self)@.well_formed(),
        ensures
            affected == old(self)@.rows_affected(id as int),
            final(self)@ == old(self)@.mark_done(id as int),
            final(self)@.well_formed(),
    {
        let ghost before = self@;
        let mut affected: u64 = 0;
        let mut i: usize = 0;
        while i < self.rows.len()
            invariant
                before.well_formed(),
                i <= self.rows.len() == before.rows.len(),
                self.last_id == before.last_id,
                forall|k: int|
                    0 <= k < i ==> (#[trigger] self.rows@[k])@ == before.mark_done(
                        id as int,
                    ).rows[k],
                forall|k: int|
                    i <= k < self.rows.len() ==> (#[trigger] self.rows@[k])@ == before.rows[k],
                affected <= 1,
                affected == 1 <==> exists|k: int|
                    0 <= k < i && (#[trigger] before.rows[k]).id == id,
            decreases self.rows.len() - i,
        {
            if self.rows[i].id == id {
                let row = &self.rows[i];
                let updated = Todo {
                    id: row.id,
                    description: row.description.clone(),
                    done: true,
                };
                self.rows.set(i, updated);
                affected = 1;
            }
            i += 1;
        }
        assert(self@.rows =~= before.mark_done(id as int).rows);
        affected
    }

    /// All rows, in ascending order of id.
    pub fn select_all(&self) -> (rows: Vec<Todo>)
        requires
            self@.well_formed(),
        ensures
            views(rows@) == self@.rows,
            ascending_ids(views(rows@)),
    {
        let mut rows: Vec<Todo> = Vec::new();
        let mut i: usize = 0;
        while i < self.rows.len()
            invariant
                i <= self.rows.len(),
                rows@ == self.rows@.subrange(0, i as int),
            decreases self.rows.len() - i,
        {
            rows.push(self.rows[i].duplicate());
            assert(rows@ =~= self.rows@.subrange(0, i + 1));
            i += 1;
        }
        assert(rows@ =~= self.rows@);
        rows
    }
}

} // verus!
