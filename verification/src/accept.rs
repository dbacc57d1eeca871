//! The loop that accepts connections for the service.

use crate::driver::OutOfTurn;
use vstd::prelude::*;

verus! {

/// Where the accept loop stands.
#[derive(Clone, Copy, Debug, PartialEq, Eq, Structural)]
pub enum AcceptState {
    /// Binding the listening socket.
    Binding,
    /// Accepting connections.
    Accepting,
    /// The address could not be bound: the service cannot start.
    Failed,
}

/// What the driver reports to the accept loop.
#[derive(Clone, Copy, Debug, PartialEq, Eq, Structural)]
pub enum AcceptEvent {
    /// The socket is bound.
    Bound,
    /// The socket could not be bound.
    BindFailed,
    /// A connection was accepted.
    Accepted,
    /// Accepting failed this time.
    AcceptFailed,
}

/// What the accept loop asks of the driver.
#[derive(Clone, Copy, Debug, PartialEq, Eq, Structural)]
pub enum AcceptAction {
    /// Accept the next connection.
    Accept,
    /// Start a handler of its own for the connection just accepted, without
    /// waiting for it to finish, and accept the next connection.
    SpawnThenAccept,
    /// Accepting failed: try again, after whatever pause the service is set
    /// up to make.
    RetryAccept,
    /// Give up: the service cannot start.
    Abort,
}

/// The rule of the accept loop: the state that follows and the action to
/// take, or `None` where the event is out of turn.
///
/// A failed bind is fatal. A failed accept is not: the loop tries again.
pub open spec fn transition(state: AcceptState, event: AcceptEvent) -> Option<
    (AcceptState, AcceptAction),
> {
    match (state, event) {
        (AcceptState::Binding, AcceptEvent::Bound) => Some(
            (AcceptState::Accepting, AcceptAction::Accept),
        ),
        (AcceptState::Binding, AcceptEvent::BindFailed) => Some(
            (AcceptState::Failed, AcceptAction::Abort),
        ),
        (AcceptState::Accepting, AcceptEvent::Accepted) => Some(
            (AcceptState::Accepting, AcceptAction::SpawnThenAccept),
        ),
        (AcceptState::Accepting, AcceptEvent::AcceptFailed) => Some(
            (AcceptState::Accepting, AcceptAction::RetryAccept),
        ),
        _ => None,
    }
}

/// The accept loop of one service. Its view is the state it is in.
pub struct AcceptLoop {
    state: AcceptState,
}

impl View for AcceptLoop {
    type V = AcceptState;

    closed spec fn view(&self) -> AcceptState {
        self.state
    }
}

impl AcceptLoop {
    /// An accept loop at its start. It is `Binding`: the driver starts by
    /// binding the listening socket.
    pub fn new() -> (accept: AcceptLoop)
        ensures
            accept@ == AcceptState::Binding,
    {
        AcceptLoop { state: AcceptState::Binding }
    }

    /// The state the loop is in.
    pub fn state(&self) -> (state: AcceptState)
        ensures
            state == self@,
    {
        self.state
    }

    /// Takes one event and says what to do next, as [`transition`] rules. An
    /// event that is out of turn is refused and leaves the loop as it was.
    pub fn step(&mut self, event: AcceptEvent) -> (outcome: Result<AcceptAction, OutOfTurn>)
        ensures
            match transition(old(self)@, event) {
                Some((next, action)) => {
                    &&& outcome == Ok::<AcceptAction, OutOfTurn>(action)
                    &&& final(self)@ == next
                },
                None => outcome is Err && final(self)@ == old(self)@,
            },
    {
        match self.state {
            AcceptState::Binding => match event {
                AcceptEvent::Bound => {
                    self.state = AcceptState::Accepting;
                    Ok(AcceptAction::Accept)
                },
                AcceptEvent::BindFailed => {
                    self.state = AcceptState::Failed;
                    Ok(AcceptAction::Abort)
                },
                _ => Err(OutOfTurn),
            },
            AcceptState::Accepting => match event {
                AcceptEvent::Accepted => Ok(AcceptAction::SpawnThenAccept),
                AcceptEvent::AcceptFailed => Ok(AcceptAction::RetryAccept),
                _ => Err(OutOfTurn),
            },
            AcceptState::Failed => Err(OutOfTurn),
        }
    }
}

/// The service does not end: once the loop accepts connections, every event
/// that it takes leaves it accepting, and it asks for the next connection: at
/// once after a connection, and again after a failure.
pub proof fn law_accepting_goes_on(event: AcceptEvent)
    requires
        transition(AcceptState::Accepting, event) is Some,
    ensures
        ({
            let (next, action) = transition(AcceptState::Accepting, event)->Some_0;
            &&& next == AcceptState::Accepting
            &&& event == AcceptEvent::Accepted ==> action == AcceptAction::SpawnThenAccept
            &&& event == AcceptEvent::AcceptFailed ==> action == AcceptAction::RetryAccept
            &&& event == AcceptEvent::Accepted || event == AcceptEvent::AcceptFailed
        }),
{
}

} // verus!
