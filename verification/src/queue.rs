//! The producer end of the command queue.
//!
//! The queue itself is a bounded channel that the program provides. A send
//! into it waits while the queue is full and fails once the consumer end is
//! gone. What a producer does about that is decided here.

use crate::actor::{
    commands_executed, commands_received, law_commands_execute_in_arrival_order, ActorEventView,
    ActorState,
};
use crate::command::{Command, CommandView};
use crate::driver::OutOfTurn;
use vstd::prelude::*;

verus! {

/// Where a producer stands.
#[derive(Clone, Copy, Debug, PartialEq, Eq, Structural)]
pub enum ProducerState {
    /// Nothing is on its way: the next command may be submitted.
    Ready,
    /// A send is under way; it waits for as long as the queue is full.
    Sending,
    /// The consumer end of the queue is gone: nothing is sent any more.
    Detached,
}

/// What the driver reports to a producer.
#[derive(Clone, Debug, PartialEq, Eq)]
pub enum ProducerEvent {
    /// The task wants this command executed.
    Submit(Command),
    /// The queue took the command.
    Delivered,
    /// The queue is closed; it handed the command back.
    Closed(Command),
}

/// What a producer asks of the driver.
#[derive(Clone, Debug, PartialEq, Eq)]
pub enum ProducerAction {
    /// Send this command into the queue, waiting while the queue is full.
    Send(Command),
    /// The command is in the queue; go on.
    Proceed,
    /// The dispatcher is unavailable; the command is handed back unsent.
    Unavailable(Command),
}

/// An event as mathematics.
pub enum ProducerEventView {
    Submit(CommandView),
    Delivered,
    Closed(CommandView),
}

/// An action as mathematics.
pub enum ProducerActionView {
    Send(CommandView),
    Proceed,
    Unavailable(CommandView),
}

impl View for ProducerEvent {
    type V = ProducerEventView;

    open spec fn view(&self) -> ProducerEventView {
        match *self {
            ProducerEvent::Submit(command) => ProducerEventView::Submit(command@),
            ProducerEvent::Delivered => ProducerEventView::Delivered,
            ProducerEvent::Closed(command) => ProducerEventView::Closed(command@),
        }
    }
}

impl View for ProducerAction {
    type V = ProducerActionView;

    open spec fn view(&self) -> ProducerActionView {
        match *self {
            ProducerAction::Send(command) => ProducerActionView::Send(command@),
            ProducerAction::Proceed => ProducerActionView::Proceed,
            ProducerAction::Unavailable(command) => ProducerActionView::Unavailable(command@),
        }
    }
}

/// The rule of the producer: the state that follows and the action to take,
/// or `None` where the event is out of turn.
///
/// A command is sent and the producer waits until the queue has taken it: a
/// full queue holds the producer back, it does not make it drop the command.
/// Once the queue is closed, a command is handed back at once and never sent
/// again.
pub open spec fn transition(state: ProducerState, event: ProducerEventView) -> Option<
    (ProducerState, ProducerActionView),
> {
    match (state, event) {
        (ProducerState::Ready, ProducerEventView::Submit(command)) => Some(
            (ProducerState::Sending, ProducerActionView::Send(command)),
        ),
        (ProducerState::Sending, ProducerEventView::Delivered) => Some(
            (ProducerState::Ready, ProducerActionView::Proceed),
        ),
        (ProducerState::Sending, ProducerEventView::Closed(command)) => Some(
            (ProducerState::Detached, ProducerActionView::Unavailable(command)),
        ),
        (ProducerState::Detached, ProducerEventView::Submit(command)) => Some(
            (ProducerState::Detached, ProducerActionView::Unavailable(command)),
        ),
        _ => None,
    }
}

/// The state reached and the actions taken, in order, when the events are
/// handed to a producer one after the other; `None` where one of them is out
/// of turn.
pub open spec fn run(state: ProducerState, events: Seq<ProducerEventView>) -> Option<
    (ProducerState, Seq<ProducerActionView>),
>
    decreases events.len(),
{
    if events.len() == 0 {
        Some((state, Seq::empty()))
    } else {
        match run(state, events.drop_last()) {
            Some((reached, actions)) => match transition(reached, events.last()) {
                Some((next, action)) => Some((next, actions.push(action))),
                None => None,
            },
            None => None,
        }
    }
}

/// The commands that the task submitted, in order.
pub open spec fn commands_submitted(events: Seq<ProducerEventView>) -> Seq<CommandView>
    decreases events.len(),
{
    if events.len() == 0 {
        Seq::empty()
    } else {
        let earlier = commands_submitted(events.drop_last());
        match events.last() {
            ProducerEventView::Submit(command) => earlier.push(command),
            _ => earlier,
        }
    }
}

/// The commands that the producer sent into the queue, in order.
pub open spec fn commands_sent(actions: Seq<ProducerActionView>) -> Seq<CommandView>
    decreases actions.len(),
{
    if actions.len() == 0 {
        Seq::empty()
    } else {
        let earlier = commands_sent(actions.drop_last());
        match actions.last() {
            ProducerActionView::Send(command) => earlier.push(command),
            _ => earlier,
        }
    }
}

/// How many sends have ended, taken by the queue or handed back.
pub open spec fn sends_ended(events: Seq<ProducerEventView>) -> nat
    decreases events.len(),
{
    if events.len() == 0 {
        0
    } else {
        let earlier = sends_ended(events.drop_last());
        match events.last() {
            ProducerEventView::Submit(_) => earlier,
            _ => earlier + 1,
        }
    }
}

/// Whether the items of `part` occur in `whole` in the same order, possibly
/// with other items in between.
pub open spec fn in_order_within(part: Seq<CommandView>, whole: Seq<CommandView>) -> bool {
    exists|places: Seq<int>|
        {
            &&& places.len() == part.len()
            &&& forall|i: int|
                0 <= i < places.len() ==> {
                    &&& 0 <= #[trigger] places[i] < whole.len()
                    &&& whole[places[i]] == part[i]
                }
            &&& forall|i: int, j: int|
                0 <= i < j < places.len() ==> #[trigger] places[i] < #[trigger] places[j]
        }
}

/// One producer end of the command queue. Its view is the state it is in.
pub struct Producer {
    state: ProducerState,
}

impl View for Producer {
    type V = ProducerState;

    closed spec fn view(&self) -> ProducerState {
        self.state
    }
}

impl Producer {
    /// A producer for a queue whose consumer is at work. It is `Ready`.
    pub fn new() -> (producer: Producer)
        ensures
            producer@ == ProducerState::Ready,
    {
        Producer { state: ProducerState::Ready }
    }

    /// The state the producer is in.
    pub fn state(&self) -> (state: ProducerState)
        ensures
            state == self@,
    {
        self.state
    }

    /// Takes one event and says what to do next, as [`transition`] rules. An
    /// event that is out of turn is refused and leaves the producer as it was.
    pub fn step(&mut self, event: ProducerEvent) -> (outcome: Result<ProducerAction, OutOfTurn>)
        ensures
            match transition(old(self)@, event@) {
                Some((next, action)) => {
                    &&& outcome matches Ok(taken)
                    &&& taken@ == action
                    &&& final(self)@ == next
                },
                None => outcome is Err && final(self)@ == old(self)@,
            },
    {
        match self.state {
            ProducerState::Ready => match event {
                ProducerEvent::Submit(command) => {
                    self.state = ProducerState::Sending;
                    Ok(ProducerAction::Send(command))
                },
                _ => Err(OutOfTurn),
            },
            ProducerState::Sending => match event {
                ProducerEvent::Delivered => {
                    self.state = ProducerState::Ready;
                    Ok(ProducerAction::Proceed)
                },
                ProducerEvent::Closed(command) => {
                    self.state = ProducerState::Detached;
                    Ok(ProducerAction::Unavailable(command))
                },
                _ => Err(OutOfTurn),
            },
            ProducerState::Detached => match event {
                ProducerEvent::Submit(command) => Ok(ProducerAction::Unavailable(command)),
                _ => Err(OutOfTurn),
            },
        }
    }
}

/// Nothing is dropped or reordered on the way into the queue: the commands
/// that a producer sends are the commands submitted to it, in the same order,
/// up to the point where the queue is found closed; while the queue is open
/// they are all of them.
pub proof fn law_sends_follow_submissions(events: Seq<ProducerEventView>)
    requires
        run(ProducerState::Ready, events) is Some,
    ensures
        ({
            let (reached, actions) = run(ProducerState::Ready, events)->Some_0;
            let sent = commands_sent(actions);
            let submitted = commands_submitted(events);
            &&& sent.len() <= submitted.len()
            &&& sent == submitted.take(sent.len() as int)
            &&& reached != ProducerState::Detached ==> sent == submitted
        }),
    decreases events.len(),
{
    if events.len() > 0 {
        let earlier = events.drop_last();
        law_sends_follow_submissions(earlier);
        let (before, actions) = run(ProducerState::Ready, earlier)->Some_0;
        let action = transition(before, events.last())->Some_0.1;
        assert(actions.push(action).drop_last() == actions);
        let sent = commands_sent(actions);
        let submitted = commands_submitted(earlier);
        if let ProducerEventView::Submit(command) = events.last() {
            if before == ProducerState::Detached {
                assert(submitted.push(command).take(sent.len() as int) == submitted.take(
                    sent.len() as int,
                ));
            }
        }
    }
}

/// A full queue holds the producer back: a producer has at most one send
/// under way, exactly while it is `Sending`, and takes no further command
/// until that send has ended.
pub proof fn law_one_send_under_way(events: Seq<ProducerEventView>)
    requires
        run(ProducerState::Ready, events) is Some,
    ensures
        ({
            let (reached, actions) = run(ProducerState::Ready, events)->Some_0;
            commands_sent(actions).len() == sends_ended(events) + if reached
                == ProducerState::Sending {
                1nat
            } else {
                0nat
            }
        }),
        forall|command: CommandView|
            transition(ProducerState::Sending, ProducerEventView::Submit(command)) is None,
    decreases events.len(),
{
    if events.len() > 0 {
        let earlier = events.drop_last();
        law_one_send_under_way(earlier);
        let (before, actions) = run(ProducerState::Ready, earlier)->Some_0;
        let action = transition(before, events.last())->Some_0.1;
        assert(actions.push(action).drop_last() == actions);
    }
}

/// Order from producer to connection: where the queue hands the commands of a
/// producer over in the order in which they were sent, the actor executes
/// them in the order in which the task submitted them.
pub proof fn law_producer_order_reaches_connection(
    submissions: Seq<ProducerEventView>,
    arrivals: Seq<ActorEventView>,
)
    requires
        run(ProducerState::Ready, submissions) is Some,
        crate::actor::run(ActorState::Connecting, arrivals) is Some,
        in_order_within(
            commands_sent(run(ProducerState::Ready, submissions)->Some_0.1),
            commands_received(arrivals),
        ),
    ensures
        ({
            let sent = commands_sent(run(ProducerState::Ready, submissions)->Some_0.1);
            let executed = commands_executed(
                crate::actor::run(ActorState::Connecting, arrivals)->Some_0.1,
            );
            in_order_within(commands_submitted(submissions).take(sent.len() as int), executed)
        }),
{
    law_sends_follow_submissions(submissions);
    law_commands_execute_in_arrival_order(ActorState::Connecting, arrivals);
}

} // verus!
