//! The task that serves one accepted connection.

use crate::driver::OutOfTurn;
use crate::protocol::{
    law_read_after_write, refusal, refuse, reply_to, table_after, table_after_all, writes_to,
    Request, RequestView, Response, ResponseView,
};
use crate::shared::SharedStore;
use crate::store::{Store, Table};
use crate::wire::{parse, parsed};
use mini_redis::Frame;
use vstd::prelude::*;

verus! {

/// Where a connection stands in its cycle.
#[derive(Clone, Copy, Debug, PartialEq, Eq, Structural)]
pub enum HandlerState {
    /// Waiting for the next request from the peer.
    Reading,
    /// A request is being served on the store.
    Dispatching,
    /// A response is on its way to the peer; another request may follow.
    Writing,
    /// A last response is on its way to the peer; the connection closes after it.
    Closing,
    /// The connection is over.
    Closed,
}

/// What the driver reports to a handler.
#[derive(Clone, Debug, PartialEq, Eq)]
pub enum HandlerEvent {
    /// The peer sent this request.
    Request(Request),
    /// The peer sent something that is no request; the text says why.
    Malformed(String),
    /// The peer closed the stream.
    EndOfInput,
    /// The store gave this response to the request dispatched.
    Dispatched(Response),
    /// The response was written out.
    Written,
    /// Reading or writing failed.
    TransportFailed,
}

/// What a handler asks of the driver.
#[derive(Clone, Debug, PartialEq, Eq)]
pub enum HandlerAction {
    /// Read the next request.
    Read,
    /// Serve this request on the store.
    Dispatch(Request),
    /// Write this response to the peer.
    Write(Response),
    /// Close the connection and release it.
    Close,
}

/// An event as mathematics.
pub enum HandlerEventView {
    Request(RequestView),
    Malformed(Seq<char>),
    EndOfInput,
    Dispatched(ResponseView),
    Written,
    TransportFailed,
}

/// An action as mathematics.
pub enum HandlerActionView {
    Read,
    Dispatch(RequestView),
    Write(ResponseView),
    Close,
}

impl View for HandlerEvent {
    type V = HandlerEventView;

    open spec fn view(&self) -> HandlerEventView {
        match *self {
            HandlerEvent::Request(request) => HandlerEventView::Request(request@),
            HandlerEvent::Malformed(reason) => HandlerEventView::Malformed(reason@),
            HandlerEvent::EndOfInput => HandlerEventView::EndOfInput,
            HandlerEvent::Dispatched(response) => HandlerEventView::Dispatched(response@),
            HandlerEvent::Written => HandlerEventView::Written,
            HandlerEvent::TransportFailed => HandlerEventView::TransportFailed,
        }
    }
}

impl View for HandlerAction {
    type V = HandlerActionView;

    open spec fn view(&self) -> HandlerActionView {
        match *self {
            HandlerAction::Read => HandlerActionView::Read,
            HandlerAction::Dispatch(request) => HandlerActionView::Dispatch(request@),
            HandlerAction::Write(response) => HandlerActionView::Write(response@),
            HandlerAction::Close => HandlerActionView::Close,
        }
    }
}

/// The event that stands for a decoding outcome.
pub open spec fn event_of(decoded: Result<RequestView, Seq<char>>) -> HandlerEventView {
    match decoded {
        Ok(request) => HandlerEventView::Request(request),
        Err(reason) => HandlerEventView::Malformed(reason),
    }
}

/// The rule of the handler: the state that follows and the action to take,
/// or `None` where the event is out of turn.
///
/// A `Get` or `Put` is dispatched, answered, and followed by the next read.
/// Any other request, and anything malformed, is answered with an error and
/// the connection closes once the error is written. End of input and
/// transport failures close the connection at once.
pub open spec fn transition(state: HandlerState, event: HandlerEventView) -> Option<
    (HandlerState, HandlerActionView),
> {
    match (state, event) {
        (HandlerState::Reading, HandlerEventView::Request(request)) => match request {
            RequestView::Unsupported { description } => Some(
                (
                    HandlerState::Closing,
                    HandlerActionView::Write(ResponseView::Error(refusal(description))),
                ),
            ),
            _ => Some((HandlerState::Dispatching, HandlerActionView::Dispatch(request))),
        },
        (HandlerState::Reading, HandlerEventView::Malformed(reason)) => Some(
            (HandlerState::Closing, HandlerActionView::Write(ResponseView::Error(reason))),
        ),
        (HandlerState::Reading, HandlerEventView::EndOfInput) => Some(
            (HandlerState::Closed, HandlerActionView::Close),
        ),
        (HandlerState::Reading, HandlerEventView::TransportFailed) => Some(
            (HandlerState::Closed, HandlerActionView::Close),
        ),
        (HandlerState::Dispatching, HandlerEventView::Dispatched(response)) => Some(
            (HandlerState::Writing, HandlerActionView::Write(response)),
        ),
        (HandlerState::Writing, HandlerEventView::Written) => Some(
            (HandlerState::Reading, HandlerActionView::Read),
        ),
        (HandlerState::Writing, HandlerEventView::TransportFailed) => Some(
            (HandlerState::Closed, HandlerActionView::Close),
        ),
        (HandlerState::Closing, HandlerEventView::Written) => Some(
            (HandlerState::Closed, HandlerActionView::Close),
        ),
        (HandlerState::Closing, HandlerEventView::TransportFailed) => Some(
            (HandlerState::Closed, HandlerActionView::Close),
        ),
        _ => None,
    }
}

/// The rule of a handler that serves its requests itself, on a store that
/// holds `table`: a dispatched request is answered in the same step. Gives
/// the state that follows, the action to take and the table afterwards.
pub open spec fn served(state: HandlerState, event: HandlerEventView, table: Table) -> Option<
    (HandlerState, HandlerActionView, Table),
> {
    match transition(state, event) {
        Some((_, HandlerActionView::Dispatch(request))) => Some(
            (
                HandlerState::Writing,
                HandlerActionView::Write(reply_to(table, request)),
                table_after(table, request),
            ),
        ),
        Some((next, action)) => Some((next, action, table)),
        None => None,
    }
}

/// The state reached, the actions taken and the table left when the events
/// are handed, one after the other, to a handler that serves its requests
/// itself on a store that holds `table` at first and that nobody else writes
/// to; `None` where one of the events is out of turn.
pub open spec fn run_served(
    state: HandlerState,
    events: Seq<HandlerEventView>,
    table: Table,
) -> Option<(HandlerState, Seq<HandlerActionView>, Table)>
    decreases events.len(),
{
    if events.len() == 0 {
        Some((state, Seq::empty(), table))
    } else {
        match run_served(state, events.drop_last(), table) {
            Some((reached, actions, held)) => match served(reached, events.last(), held) {
                Some((next, action, left)) => Some((next, actions.push(action), left)),
                None => None,
            },
            None => None,
        }
    }
}

/// The requests that the peer sent, in order of arrival.
pub open spec fn requests_received(events: Seq<HandlerEventView>) -> Seq<RequestView>
    decreases events.len(),
{
    if events.len() == 0 {
        Seq::empty()
    } else {
        let earlier = requests_received(events.drop_last());
        match events.last() {
            HandlerEventView::Request(request) => earlier.push(request),
            _ => earlier,
        }
    }
}

impl HandlerEvent {
    /// The event for a frame that was read: the request that the frame
    /// carries, or `Malformed` with the reason where it carries none.
    pub fn received(frame: Frame) -> (event: HandlerEvent)
        ensures
            event@ == event_of(parsed(frame)),
    {
        match parse(frame) {
            Ok(request) => HandlerEvent::Request(request),
            Err(reason) => HandlerEvent::Malformed(reason),
        }
    }
}

/// The handler of one connection. Its view is the state it is in.
pub struct ConnectionHandler {
    state: HandlerState,
}

impl View for ConnectionHandler {
    type V = HandlerState;

    closed spec fn view(&self) -> HandlerState {
        self.state
    }
}

impl ConnectionHandler {
    /// The handler of a connection that was just accepted. It is `Reading`:
    /// the driver starts with a read.
    pub fn new() -> (handler: ConnectionHandler)
        ensures
            handler@ == HandlerState::Reading,
    {
        ConnectionHandler { state: HandlerState::Reading }
    }

    /// The state the handler is in.
    pub fn state(&self) -> (state: HandlerState)
        ensures
            state == self@,
    {
        self.state
    }

    /// Takes one event and says what to do next, as [`transition`] rules. An
    /// event that is out of turn is refused and leaves the handler as it was.
    pub fn step(&mut self, event: HandlerEvent) -> (outcome: Result<HandlerAction, OutOfTurn>)
        ensures
            match transition(old(self)@, event@) {
                Some((next, action)) => {
                    &&& outcome matches Ok(taken)
                    &&& taken@ == action
                    &&& final(self)@ == next
                },
                None => outcome is Err && final(self)@ == old(self)@,
            },
    {
        match self.state {
            HandlerState::Reading => match event {
                HandlerEvent::Request(Request::Unsupported { description }) => {
                    self.state = HandlerState::Closing;
                    Ok(HandlerAction::Write(refuse(description)))
                },
                HandlerEvent::Request(request) => {
                    self.state = HandlerState::Dispatching;
                    Ok(HandlerAction::Dispatch(request))
                },
                HandlerEvent::Malformed(reason) => {
                    self.state = HandlerState::Closing;
                    Ok(HandlerAction::Write(Response::Error(reason)))
                },
                HandlerEvent::EndOfInput => {
                    self.state = HandlerState::Closed;
                    Ok(HandlerAction::Close)
                },
                HandlerEvent::TransportFailed => {
                    self.state = HandlerState::Closed;
                    Ok(HandlerAction::Close)
                },
                _ => Err(OutOfTurn),
            },
            HandlerState::Dispatching => match event {
                HandlerEvent::Dispatched(response) => {
                    self.state = HandlerState::Writing;
                    Ok(HandlerAction::Write(response))
                },
                _ => Err(OutOfTurn),
            },
            HandlerState::Writing => match event {
                HandlerEvent::Written => {
                    self.state = HandlerState::Reading;
                    Ok(HandlerAction::Read)
                },
                HandlerEvent::TransportFailed => {
                    self.state = HandlerState::Closed;
                    Ok(HandlerAction::Close)
                },
                _ => Err(OutOfTurn),
            },
            HandlerState::Closing => match event {
                HandlerEvent::Written => {
                    self.state = HandlerState::Closed;
                    Ok(HandlerAction::Close)
                },
                HandlerEvent::TransportFailed => {
                    self.state = HandlerState::Closed;
                    Ok(HandlerAction::Close)
                },
                _ => Err(OutOfTurn),
            },
            HandlerState::Closed => Err(OutOfTurn),
        }
    }

    /// Takes one event like [`Self::step`], and serves a dispatched request on
    /// `store` at once, so that the action is the response to write. The
    /// caller has the store to itself: the contract is exact.
    pub fn serve_on(&mut self, store: &mut Store, event: HandlerEvent) -> (outcome: Result<
        HandlerAction,
        OutOfTurn,
    >)
        ensures
            match served(old(self)@, event@, old(store)@) {
                Some((next, action, table)) => {
                    &&& outcome matches Ok(taken)
                    &&& taken@ == action
                    &&& final(self)@ == next
                    &&& final(store)@ == table
                },
                None => {
                    &&& outcome is Err
                    &&& final(self)@ == old(self)@
                    &&& final(store)@ == old(store)@
                },
            },
    {
        match self.step(event) {
            Ok(HandlerAction::Dispatch(request)) => {
                let response = store.apply(request);
                self.step(HandlerEvent::Dispatched(response))
            },
            outcome => outcome,
        }
    }

    /// Takes one event like [`Self::step`], and serves a dispatched request on
    /// the shared store at once. The lock is held for the one lookup or
    /// insertion and released before this returns, so never across a read or a
    /// write on the connection. The response is what [`served`] gives for the
    /// table that the store held at that moment.
    pub fn serve(&mut self, store: &SharedStore, event: HandlerEvent) -> (outcome: Result<
        HandlerAction,
        OutOfTurn,
    >)
        ensures
            match outcome {
                Ok(taken) => exists|table: Table|
                    #[trigger] served(old(self)@, event@, table) matches Some((next, action, _))
                        && taken@ == action && final(self)@ == next,
                Err(_) => transition(old(self)@, event@) is None && final(self)@ == old(self)@,
            },
    {
        let ghost before = self@;
        let ghost reported = event@;
        match self.step(event) {
            Ok(HandlerAction::Dispatch(request)) => {
                let ghost asked = request@;
                let response = store.apply(request);
                let ghost table = choose|table: Table| response@ == reply_to(table, asked);
                let outcome = self.step(HandlerEvent::Dispatched(response));
                assert(served(before, reported, table) is Some);
                outcome
            },
            outcome => outcome,
        }
    }
}

/// A connection reads its own writes: a `Put` on one connection is
/// acknowledged, and a later `Get` of the same key on that connection returns
/// the value put, whatever other connections had served in between, as long
/// as none of them wrote to the key.
pub proof fn law_connection_reads_its_write(
    table: Table,
    key: Seq<char>,
    value: Seq<u8>,
    between: Seq<RequestView>,
)
    requires
        forall|i: int| 0 <= i < between.len() ==> !writes_to(#[trigger] between[i], key),
    ensures
        served(
            HandlerState::Reading,
            HandlerEventView::Request(RequestView::Put { key, value }),
            table,
        ) == Some(
            (
                HandlerState::Writing,
                HandlerActionView::Write(ResponseView::Stored),
                table.insert(key, value),
            ),
        ),
        served(HandlerState::Writing, HandlerEventView::Written, table.insert(key, value)) == Some(
            (HandlerState::Reading, HandlerActionView::Read, table.insert(key, value)),
        ),
        served(
            HandlerState::Reading,
            HandlerEventView::Request(RequestView::Get { key }),
            table_after_all(table.insert(key, value), between),
        ) == Some(
            (
                HandlerState::Writing,
                HandlerActionView::Write(ResponseView::Value(value)),
                table_after_all(table.insert(key, value), between),
            ),
        ),
{
    law_read_after_write(table, key, value, between);
}

/// Requests take effect in arrival order: what a connection leaves in a
/// store that it alone writes to is what its requests leave when they are
/// served one by one, first to last.
pub proof fn law_requests_take_effect_in_arrival_order(
    state: HandlerState,
    events: Seq<HandlerEventView>,
    table: Table,
)
    requires
        run_served(state, events, table) is Some,
    ensures
        run_served(state, events, table)->Some_0.2 == table_after_all(
            table,
            requests_received(events),
        ),
    decreases events.len(),
{
    if events.len() > 0 {
        let earlier = events.drop_last();
        law_requests_take_effect_in_arrival_order(state, earlier, table);
        if let HandlerEventView::Request(request) = events.last() {
            let history = requests_received(earlier);
            assert(history.push(request).drop_last() == history);
        }
    }
}

/// A failure stays with its connection: a request of a kind that is not
/// served is answered with an error, the connection closes once the error is
/// written, and the table is what it was.
pub proof fn law_unsupported_request_closes_connection(table: Table, description: Seq<char>)
    ensures
        served(
            HandlerState::Reading,
            HandlerEventView::Request(RequestView::Unsupported { description }),
            table,
        ) == Some(
            (
                HandlerState::Closing,
                HandlerActionView::Write(ResponseView::Error(refusal(description))),
                table,
            ),
        ),
        served(HandlerState::Closing, HandlerEventView::Written, table) == Some(
            (HandlerState::Closed, HandlerActionView::Close, table),
        ),
        forall|event: HandlerEventView| transition(HandlerState::Closed, event) is None,
{
}

} // verus!
