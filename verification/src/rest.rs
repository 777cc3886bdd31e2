//! The REST adapter: the route table and what each route replies.

use crate::database::service::{add_todo, complete_todo, list_todos, views, Operation, Todo};
use crate::database::store::{StoreUnavailable, TaskStore};
use crate::task::ascending_ids;
use vstd::prelude::*;

verus! {

/// The request methods that the routes answer.
#[derive(Debug, Clone, Copy, PartialEq, Eq, Structural)]
pub enum Method {
    Get,
    Post,
}

/// One line of the route table: the operation that a method and a path
/// stand for. Listing takes no input, adding takes an `AddTodo` as its JSON
/// body, completing takes the id as its path parameter.
#[derive(Debug, Clone, Copy, PartialEq, Eq)]
pub struct Route {
    pub method: Method,
    /// The path below the adapter's mount point; `{id}` stands for a parameter.
    pub path: &'static str,
    pub operation: Operation,
}

/// The mathematical value of a route.
pub struct RouteView {
    pub method: Method,
    pub path: Seq<char>,
    pub operation: Operation,
}

impl View for Route {
    type V = RouteView;

    open spec fn view(&self) -> RouteView {
        RouteView { method: self.method, path: self.path@, operation: self.operation }
    }
}

/// The route table: `GET /all`, `POST /add` and `POST /complete/{id}`.
pub open spec fn route_table() -> Seq<RouteView> {
    seq![
        RouteView { method: Method::Get, path: "/all"@, operation: Operation::List },
        RouteView { method: Method::Post, path: "/add"@, operation: Operation::Add },
        RouteView { method: Method::Post, path: "/complete/{id}"@, operation: Operation::Complete },
    ]
}

/// The routes of the adapter, in the order of the table.
pub fn todo_router() -> (routes: Vec<Route>)
    ensures
        routes@.map_values(|route: Route| route@) == route_table(),
{
    let mut routes: Vec<Route> = Vec::new();
    routes.push(Route { method: Method::Get, path: "/all", operation: Operation::List });
    routes.push(Route { method: Method::Post, path: "/add", operation: Operation::Add });
    routes.push(
        Route { method: Method::Post, path: "/complete/{id}", operation: Operation::Complete },
    );
    assert(routes@.map_values(|route: Route| route@) =~= route_table());
    routes
}

/// The body of `POST /add`.
#[derive(Debug, Clone, PartialEq, Eq)]
pub struct AddTodo {
    pub description: String,
}

/// Status of every reply to a request that the service could serve.
pub const OK: u16 = 200;

/// Status of the reply where the store was unavailable, whatever the
/// operation.
pub const INTERNAL_SERVER_ERROR: u16 = 500;

/// A reply: its status and, where the operation succeeded, the value that
/// goes out as JSON.
#[derive(Debug, PartialEq, Eq)]
pub struct Reply<T> {
    pub status: u16,
    pub body: Option<T>,
}

/// The reply for an outcome of a service operation: status 200 with the
/// value, whatever the value says, or status 500 without a body where
/// the store was unavailable.
pub open spec fn reply_for<T>(outcome: Result<T, StoreUnavailable>) -> Reply<T> {
    match outcome {
        Ok(value) => Reply { status: OK, body: Some(value) },
        Err(_) => Reply { status: INTERNAL_SERVER_ERROR, body: None },
    }
}

/// Builds the reply for an outcome of a service operation.
pub fn reply<T>(outcome: Result<T, StoreUnavailable>) -> (r: Reply<T>)
    ensures
        r == reply_for(outcome),
{
    match outcome {
        Ok(value) => Reply { status: OK, body: Some(value) },
        Err(_) => Reply { status: INTERNAL_SERVER_ERROR, body: None },
    }
}

/// `GET /all`: every task of the store, in ascending order of id.
pub fn list(store: &TaskStore) -> (r: Reply<Vec<Todo>>)
    requires
        store@.well_formed(),
    ensures
        r.status == OK,
        r.body matches Some(rows) && views(rows@) == store@.rows && ascending_ids(views(rows@)),
{
    reply(list_todos(store))
}

/// `POST /add`: adds a task with the description of the body and replies
/// with its id.
pub fn add(store: &mut TaskStore, body: AddTodo) -> (r: Reply<i64>)
    requires
        old(store)@.well_formed(),
    ensures
        final(store)@.well_formed(),
        old(store)@.has_room() ==> r == (Reply {
            status: OK,
            body: Some(old(store)@.next_id() as i64),
        }) && final(store)@ == old(store)@.insert(body.description@),
        !old(store)@.has_room() ==> r == (Reply::<i64> {
            status: INTERNAL_SERVER_ERROR,
            body: None,
        }) && final(store)@ == old(store)@,
{
    reply(add_todo(store, body.description))
}

/// `POST /complete/{id}`: completes the task with the id and replies whether
/// it exists. An unknown id is answered with `false`, and with status 200 too.
pub fn complete(id: i64, store: &mut TaskStore) -> (r: Reply<bool>)
    requires
        old(store)@.well_formed(),
    ensures
        final(store)@.well_formed(),
        r == (Reply { status: OK, body: Some(old(store)@.contains_id(id as int)) }),
        final(store)@ == old(store)@.mark_done(id as int),
{
    reply(complete_todo(store, id))
}

} // verus!
