//! The data-access layer: the store's rules, the service operations that both
//! adapters share, and the order in which the store is brought up before the
//! listener opens.

pub mod service;
pub mod store;

use vstd::prelude::*;

verus! {

/// Where the start-up stands. Each phase has one action; its outcome moves
/// the start-up on.
#[derive(Debug, Clone, Copy, PartialEq, Eq, Structural)]
pub enum Phase {
    /// Asking whether the database exists.
    Checking,
    /// Creating the database, which did not exist.
    Creating,
    /// Opening the connection pool and taking a connection from it.
    Connecting,
    /// Bringing the schema up to date.
    Migrating,
    /// Binding the listening socket.
    Binding,
    /// Accepting traffic.
    Serving,
    /// A step failed: the start-up is over, and nothing is retried.
    Failed,
}

/// The outcome of a phase's action.
#[derive(Debug, Clone, Copy, PartialEq, Eq, Structural)]
pub enum Event {
    /// The check said whether the database exists.
    Exists(bool),
    /// The action succeeded.
    Succeeded,
    /// The action failed.
    Failure,
}

/// What is to be done in a phase.
#[derive(Debug, Clone, Copy, PartialEq, Eq, Structural)]
pub enum Action {
    CheckDatabase,
    CreateDatabase,
    Connect,
    Migrate,
    Bind,
    Serve,
    Abort,
}

impl Phase {
    /// The phase that follows `self` on `event`. The database is created only
    /// where the check found none; every other step follows the success of the
    /// one before it; a failure, or an event that the phase does not await,
    /// ends the start-up; `Serving` and `Failed` are never left.
    pub open spec fn spec_advance(self, event: Event) -> Phase {
        match (self, event) {
            (Phase::Checking, Event::Exists(true)) => Phase::Connecting,
            (Phase::Checking, Event::Exists(false)) => Phase::Creating,
            (Phase::Creating, Event::Succeeded) => Phase::Connecting,
            (Phase::Connecting, Event::Succeeded) => Phase::Migrating,
            (Phase::Migrating, Event::Succeeded) => Phase::Binding,
            (Phase::Binding, Event::Succeeded) => Phase::Serving,
            (Phase::Serving, _) => Phase::Serving,
            _ => Phase::Failed,
        }
    }

    /// The action of a phase.
    pub open spec fn spec_action(self) -> Action {
        match self {
            Phase::Checking => Action::CheckDatabase,
            Phase::Creating => Action::CreateDatabase,
            Phase::Connecting => Action::Connect,
            Phase::Migrating => Action::Migrate,
            Phase::Binding => Action::Bind,
            Phase::Serving => Action::Serve,
            Phase::Failed => Action::Abort,
        }
    }

    /// The phase after a run of events, from the first phase on.
    pub open spec fn after(events: Seq<Event>) -> Phase
        decreases events.len(),
    {
        if events.len() == 0 {
            Phase::Checking
        } else {
            Phase::after(events.drop_last()).spec_advance(events.last())
        }
    }

    /// The phase in which every start-up begins.
    pub fn start() -> (phase: Phase)
        ensures
            phase == Phase::Checking,
            phase == Phase::after(Seq::empty()),
    {
        Phase::Checking
    }

    /// The phase that follows `self` on `event`.
    #[verifier::when_used_as_spec(spec_advance)]
    pub fn advance(self, event: Event) -> (next: Phase)
        ensures
            next == self.spec_advance(event),
    {
        match (self, event) {
            (Phase::Checking, Event::Exists(true)) => Phase::Connecting,
            (Phase::Checking, Event::Exists(false)) => Phase::Creating,
            (Phase::Creating, Event::Succeeded) => Phase::Connecting,
            (Phase::Connecting, Event::Succeeded) => Phase::Migrating,
            (Phase::Migrating, Event::Succeeded) => Phase::Binding,
            (Phase::Binding, Event::Succeeded) => Phase::Serving,
            (Phase::Serving, _) => Phase::Serving,
            _ => Phase::Failed,
        }
    }

    /// The action of a phase.
    #[verifier::when_used_as_spec(spec_action)]
    pub fn action(self) -> (action: Action)
        ensures
            action == self.spec_action(),
    {
        match self {
            Phase::Checking => Action::CheckDatabase,
            Phase::Creating => Action::CreateDatabase,
            Phase::Connecting => Action::Connect,
            Phase::Migrating => Action::Migrate,
            Phase::Binding => Action::Bind,
            Phase::Serving => Action::Serve,
            Phase::Failed => Action::Abort,
        }
    }
}

/// Whether a run of events brought the database into being: the check found
/// it, or found none and the creation succeeded.
pub open spec fn database_ready(events: Seq<Event>) -> bool {
    ||| events.len() >= 1 && events[0] == Event::Exists(true)
    ||| events.len() >= 2 && events[0] == Event::Exists(false) && events[1] == Event::Succeeded
}

/// Traffic is accepted only after the database was found or created, the pool
/// was opened, the schema was migrated and the socket was bound, each with
/// success and in this order.
pub proof fn lemma_serving_needs_every_step(events: Seq<Event>)
    requires
        Phase::after(events) == Phase::Serving,
    ensures
        database_ready(events),
        exists|k: int|
            1 <= k && k + 3 <= events.len() && #[trigger] Phase::after(events.take(k))
                == Phase::Connecting && events[k] == Event::Succeeded && events[k + 1]
                == Event::Succeeded && events[k + 2] == Event::Succeeded,
    decreases events.len(),
{
    let n = events.len() as int;
    assert(n > 0);
    let shorter = events.drop_last();
    if Phase::after(shorter) == Phase::Serving {
        lemma_serving_needs_every_step(shorter);
        let k = choose|k: int|
            1 <= k && k + 3 <= shorter.len() && #[trigger] Phase::after(shorter.take(k))
                == Phase::Connecting && shorter[k] == Event::Succeeded && shorter[k + 1]
                == Event::Succeeded && shorter[k + 2] == Event::Succeeded;
        assert(shorter.take(k) =~= events.take(k));
    } else {
        // The last event bound the socket; unfold the three steps before it.
        assert(Phase::after(shorter) == Phase::Binding);
        let bound = shorter;
        assert(bound.len() > 0);
        let migrated = bound.drop_last();
        assert(Phase::after(migrated) == Phase::Migrating);
        assert(migrated.len() > 0);
        let connected = migrated.drop_last();
        assert(Phase::after(connected) == Phase::Connecting);
        assert(connected.len() > 0);
        let k = n - 3;
        assert(events.take(k) =~= connected);
        assert(events[k] == migrated.last());
        assert(events[k + 1] == bound.last());
        assert(events[k + 2] == events.last());
        let checked = connected.drop_last();
        if Phase::after(checked) == Phase::Checking {
            assert(checked.len() == 0) by {
                lemma_checking_is_first(checked);
            }
        } else {
            assert(Phase::after(checked) == Phase::Creating);
            assert(checked.len() > 0);
            assert(Phase::after(checked.drop_last()) == Phase::Checking);
            assert(checked.drop_last().len() == 0) by {
                lemma_checking_is_first(checked.drop_last());
            }
        }
    }
}

/// Only the empty run of events leaves the start-up in its first phase.
pub proof fn lemma_checking_is_first(events: Seq<Event>)
    requires
        Phase::after(events) == Phase::Checking,
    ensures
        events.len() == 0,
{
}

/// A failed start-up stays failed: nothing is retried.
pub proof fn lemma_failure_is_final(events: Seq<Event>, more: Seq<Event>)
    requires
        Phase::after(events) == Phase::Failed,
    ensures
        Phase::after(events + more) == Phase::Failed,
    decreases more.len(),
{
    if more.len() == 0 {
        assert(events + more =~= events);
    } else {
        lemma_failure_is_final(events, more.drop_last());
        assert((events + more).drop_last() =~= events + more.drop_last());
        assert((events + more).last() == more.last());
    }
}

} // verus!
