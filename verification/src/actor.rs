//! The task that owns the client connection and executes, one at a time, the
//! commands that other tasks send it through the command queue.

use crate::command::{Command, CommandView};
use crate::driver::OutOfTurn;
use vstd::prelude::*;

verus! {

/// Why an actor stopped.
#[derive(Clone, Copy, Debug, PartialEq, Eq, Structural)]
pub enum StopReason {
    /// Every producer is gone and the queue is empty: a clean end.
    QueueDrained,
    /// The connection could not be established.
    ConnectFailed,
    /// The connection is no longer usable.
    ConnectionLost,
}

/// Where an actor stands.
#[derive(Clone, Copy, Debug, PartialEq, Eq, Structural)]
pub enum ActorState {
    /// Establishing the connection.
    Connecting,
    /// Waiting for a command from the queue.
    Idle,
    /// One exchange is in flight on the connection.
    Busy,
    /// The actor has ended.
    Stopped(StopReason),
}

/// What the driver reports to an actor.
#[derive(Clone, Debug, PartialEq, Eq)]
pub enum ActorEvent {
    /// The connection is established.
    Connected,
    /// The connection could not be established.
    ConnectFailed,
    /// The queue delivered this command.
    Received(Command),
    /// The queue signalled end of stream.
    QueueClosed,
    /// The exchange finished and the peer answered.
    Completed,
    /// The exchange failed; `usable` tells whether the connection still works.
    Failed { usable: bool },
}

/// What an actor asks of the driver.
#[derive(Clone, Debug, PartialEq, Eq)]
pub enum ActorAction {
    /// Wait for the next command from the queue.
    Receive,
    /// Report the failure of the last command, then wait for the next one.
    ReportThenReceive,
    /// Execute this command on the connection and wait for its outcome.
    Execute(Command),
    /// End the task: release the connection and the consumer end of the
    /// queue, so that whoever sends afterwards is told at once.
    Stop(StopReason),
}

/// An event as mathematics.
pub enum ActorEventView {
    Connected,
    ConnectFailed,
    Received(CommandView),
    QueueClosed,
    Completed,
    Failed { usable: bool },
}

/// An action as mathematics.
pub enum ActorActionView {
    Receive,
    ReportThenReceive,
    Execute(CommandView),
    Stop(StopReason),
}

impl View for ActorEvent {
    type V = ActorEventView;

    open spec fn view(&self) -> ActorEventView {
        match *self {
            ActorEvent::Connected => ActorEventView::Connected,
            ActorEvent::ConnectFailed => ActorEventView::ConnectFailed,
            ActorEvent::Received(command) => ActorEventView::Received(command@),
            ActorEvent::QueueClosed => ActorEventView::QueueClosed,
            ActorEvent::Completed => ActorEventView::Completed,
            ActorEvent::Failed { usable } => ActorEventView::Failed { usable },
        }
    }
}

impl View for ActorAction {
    type V = ActorActionView;

    open spec fn view(&self) -> ActorActionView {
        match *self {
            ActorAction::Receive => ActorActionView::Receive,
            ActorAction::ReportThenReceive => ActorActionView::ReportThenReceive,
            ActorAction::Execute(command) => ActorActionView::Execute(command@),
            ActorAction::Stop(reason) => ActorActionView::Stop(reason),
        }
    }
}

/// The rule of the actor: the state that follows and the action to take, or
/// `None` where the event is out of turn.
///
/// Without a connection the actor cannot proceed. With one, it takes a
/// command, executes it, and only then takes the next. A failed command is
/// reported and the actor goes on, unless the connection itself is lost. End
/// of stream on the queue ends the actor cleanly.
pub open spec fn transition(state: ActorState, event: ActorEventView) -> Option<
    (ActorState, ActorActionView),
> {
    match (state, event) {
        (ActorState::Connecting, ActorEventView::Connected) => Some(
            (ActorState::Idle, ActorActionView::Receive),
        ),
        (ActorState::Connecting, ActorEventView::ConnectFailed) => Some(
            (
                ActorState::Stopped(StopReason::ConnectFailed),
                ActorActionView::Stop(StopReason::ConnectFailed),
            ),
        ),
        (ActorState::Idle, ActorEventView::Received(command)) => Some(
            (ActorState::Busy, ActorActionView::Execute(command)),
        ),
        (ActorState::Idle, ActorEventView::QueueClosed) => Some(
            (
                ActorState::Stopped(StopReason::QueueDrained),
                ActorActionView::Stop(StopReason::QueueDrained),
            ),
        ),
        (ActorState::Busy, ActorEventView::Completed) => Some(
            (ActorState::Idle, ActorActionView::Receive),
        ),
        (ActorState::Busy, ActorEventView::Failed { usable }) => if usable {
            Some((ActorState::Idle, ActorActionView::ReportThenReceive))
        } else {
            Some(
                (
                    ActorState::Stopped(StopReason::ConnectionLost),
                    ActorActionView::Stop(StopReason::ConnectionLost),
                ),
            )
        },
        _ => None,
    }
}

/// The state reached and the actions taken, in order, when the events are
/// handed to an actor one after the other; `None` where one of them is out of
/// turn.
pub open spec fn run(state: ActorState, events: Seq<ActorEventView>) -> Option<
    (ActorState, Seq<ActorActionView>),
>
    decreases events.len(),
{
    if events.len() == 0 {
        Some((state, Seq::empty()))
    } else {
        match run(state, events.drop_last()) {
            Some((reached, actions)) => match transition(reached, events.last()) {
                Some((next, action)) => Some((next, actions.push(action))),
                None => None,
            },
            None => None,
        }
    }
}

/// The commands that the queue delivered, in order of arrival.
pub open spec fn commands_received(events: Seq<ActorEventView>) -> Seq<CommandView>
    decreases events.len(),
{
    if events.len() == 0 {
        Seq::empty()
    } else {
        let earlier = commands_received(events.drop_last());
        match events.last() {
            ActorEventView::Received(command) => earlier.push(command),
            _ => earlier,
        }
    }
}

/// The commands that the actor executed, in order of execution.
pub open spec fn commands_executed(actions: Seq<ActorActionView>) -> Seq<CommandView>
    decreases actions.len(),
{
    if actions.len() == 0 {
        Seq::empty()
    } else {
        let earlier = commands_executed(actions.drop_last());
        match actions.last() {
            ActorActionView::Execute(command) => earlier.push(command),
            _ => earlier,
        }
    }
}

/// How many exchanges have ended, well or badly.
pub open spec fn exchanges_ended(events: Seq<ActorEventView>) -> nat
    decreases events.len(),
{
    if events.len() == 0 {
        0
    } else {
        let earlier = exchanges_ended(events.drop_last());
        match events.last() {
            ActorEventView::Completed => earlier + 1,
            ActorEventView::Failed { .. } => earlier + 1,
            _ => earlier,
        }
    }
}

/// The actor of one client connection. Its view is the state it is in.
pub struct ConnectionActor {
    state: ActorState,
}

impl View for ConnectionActor {
    type V = ActorState;

    closed spec fn view(&self) -> ActorState {
        self.state
    }
}

impl ConnectionActor {
    /// An actor at its start. It is `Connecting`: the driver starts by
    /// establishing the connection.
    pub fn new() -> (actor: ConnectionActor)
        ensures
            actor@ == ActorState::Connecting,
    {
        ConnectionActor { state: ActorState::Connecting }
    }

    /// The state the actor is in.
    pub fn state(&self) -> (state: ActorState)
        ensures
            state == self@,
    {
        self.state
    }

    /// Takes one event and says what to do next, as [`transition`] rules. An
    /// event that is out of turn is refused and leaves the actor as it was.
    pub fn step(&mut self, event: ActorEvent) -> (outcome: Result<ActorAction, OutOfTurn>)
        ensures
            match transition(old(self)@, event@) {
                Some((next, action)) => {
                    &&& outcome matches Ok(taken)
                    &&& taken@ == action
                    &&& final(self)@ == next
                },
                None => outcome is Err && final(self)@ == old(self)@,
            },
    {
        match self.state {
            ActorState::Connecting => match event {
                ActorEvent::Connected => {
                    self.state = ActorState::Idle;
                    Ok(ActorAction::Receive)
                },
                ActorEvent::ConnectFailed => {
                    self.state = ActorState::Stopped(StopReason::ConnectFailed);
                    Ok(ActorAction::Stop(StopReason::ConnectFailed))
                },
                _ => Err(OutOfTurn),
            },
            ActorState::Idle => match event {
                ActorEvent::Received(command) => {
                    self.state = ActorState::Busy;
                    Ok(ActorAction::Execute(command))
                },
                ActorEvent::QueueClosed => {
                    self.state = ActorState::Stopped(StopReason::QueueDrained);
                    Ok(ActorAction::Stop(StopReason::QueueDrained))
                },
                _ => Err(OutOfTurn),
            },
            ActorState::Busy => match event {
                ActorEvent::Completed => {
                    self.state = ActorState::Idle;
                    Ok(ActorAction::Receive)
                },
                ActorEvent::Failed { usable } => {
                    if usable {
                        self.state = ActorState::Idle;
                        Ok(ActorAction::ReportThenReceive)
                    } else {
                        self.state = ActorState::Stopped(StopReason::ConnectionLost);
                        Ok(ActorAction::Stop(StopReason::ConnectionLost))
                    }
                },
                _ => Err(OutOfTurn),
            },
            ActorState::Stopped(_) => Err(OutOfTurn),
        }
    }
}

/// Order is kept and nothing is lost: whatever events an actor is driven
/// with, the commands it executes are the commands it received, each once and
/// in the order of arrival.
pub proof fn law_commands_execute_in_arrival_order(state: ActorState, events: Seq<ActorEventView>)
    requires
        run(state, events) is Some,
    ensures
        commands_executed(run(state, events)->Some_0.1) == commands_received(events),
    decreases events.len(),
{
    if events.len() > 0 {
        let earlier = events.drop_last();
        law_commands_execute_in_arrival_order(state, earlier);
        let (reached, actions) = run(state, earlier)->Some_0;
        let action = transition(reached, events.last())->Some_0.1;
        assert(actions.push(action).drop_last() == actions);
    }
}

/// One exchange at a time: an actor driven from its start has executed
/// exactly one command more than it has seen end while it is `Busy`, and
/// exactly as many in every other state.
pub proof fn law_one_exchange_in_flight(events: Seq<ActorEventView>)
    requires
        run(ActorState::Connecting, events) is Some,
    ensures
        ({
            let (reached, actions) = run(ActorState::Connecting, events)->Some_0;
            commands_executed(actions).len() == exchanges_ended(events) + if reached
                == ActorState::Busy {
                1nat
            } else {
                0nat
            }
        }),
    decreases events.len(),
{
    if events.len() > 0 {
        let earlier = events.drop_last();
        law_one_exchange_in_flight(earlier);
        let (reached, actions) = run(ActorState::Connecting, earlier)->Some_0;
        let action = transition(reached, events.last())->Some_0.1;
        assert(actions.push(action).drop_last() == actions);
    }
}

/// Clean shutdown: whatever happened before, an actor that is told that the
/// queue has ended stops at once, for the reason `QueueDrained`, and accepts
/// no event after that.
pub proof fn law_drained_queue_stops_actor(state: ActorState, events: Seq<ActorEventView>)
    requires
        events.len() > 0,
        events.last() == ActorEventView::QueueClosed,
        run(state, events) is Some,
    ensures
        ({
            let (reached, actions) = run(state, events)->Some_0;
            &&& reached == ActorState::Stopped(StopReason::QueueDrained)
            &&& actions.last() == ActorActionView::Stop(StopReason::QueueDrained)
            &&& forall|event: ActorEventView| transition(reached, event) is None
        }),
{
}

} // verus!
