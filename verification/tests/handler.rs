use bytes::Bytes;
use mini_kv::driver::OutOfTurn;
use mini_kv::handler::{ConnectionHandler, HandlerAction, HandlerEvent, HandlerState};
use mini_kv::protocol::{Request, Response};
use mini_kv::shared::SharedStore;
use mini_kv::store::Store;
use mini_kv::wire::encode;
use mini_redis::Frame;

fn bulk(text: &'static str) -> Frame {
    Frame::Bulk(Bytes::from(text))
}

fn put(key: &str, value: &'static str) -> HandlerEvent {
    HandlerEvent::Request(Request::Put { key: key.to_string(), value: Bytes::from(value) })
}

fn get(key: &str) -> HandlerEvent {
    HandlerEvent::Request(Request::Get { key: key.to_string() })
}

fn wrote(response: Response) -> Result<HandlerAction, OutOfTurn> {
    Ok(HandlerAction::Write(response))
}

#[test]
fn new_handler_is_reading() {
    assert_eq!(ConnectionHandler::new().state(), HandlerState::Reading);
}

#[test]
fn step_walks_the_cycle() {
    let mut handler = ConnectionHandler::new();
    let request = Request::Get { key: "foo".to_string() };
    assert_eq!(
        handler.step(HandlerEvent::Request(request.clone())),
        Ok(HandlerAction::Dispatch(request))
    );
    assert_eq!(handler.state(), HandlerState::Dispatching);
    assert_eq!(
        handler.step(HandlerEvent::Dispatched(Response::NotFound)),
        wrote(Response::NotFound)
    );
    assert_eq!(handler.state(), HandlerState::Writing);
    assert_eq!(handler.step(HandlerEvent::Written), Ok(HandlerAction::Read));
    assert_eq!(handler.state(), HandlerState::Reading);
    assert_eq!(handler.step(HandlerEvent::EndOfInput), Ok(HandlerAction::Close));
    assert_eq!(handler.state(), HandlerState::Closed);
}

#[test]
fn end_of_input_closes() {
    let mut handler = ConnectionHandler::new();
    let shared = SharedStore::new();
    assert_eq!(handler.serve(&shared, HandlerEvent::EndOfInput), Ok(HandlerAction::Close));
    assert_eq!(handler.state(), HandlerState::Closed);
}

#[test]
fn failed_read_closes() {
    let mut handler = ConnectionHandler::new();
    assert_eq!(handler.step(HandlerEvent::TransportFailed), Ok(HandlerAction::Close));
    assert_eq!(handler.state(), HandlerState::Closed);
}

#[test]
fn failed_write_closes() {
    let mut handler = ConnectionHandler::new();
    let shared = SharedStore::new();
    assert_eq!(handler.serve(&shared, put("foo", "bar")), wrote(Response::Stored));
    assert_eq!(handler.serve(&shared, HandlerEvent::TransportFailed), Ok(HandlerAction::Close));
    assert_eq!(handler.state(), HandlerState::Closed);
}

#[test]
fn malformed_input_is_answered_then_closed() {
    let mut handler = ConnectionHandler::new();
    let shared = SharedStore::new();
    assert_eq!(
        handler.serve(&shared, HandlerEvent::Malformed("protocol error; invalid string".to_string())),
        wrote(Response::Error("protocol error; invalid string".to_string()))
    );
    assert_eq!(handler.state(), HandlerState::Closing);
    assert_eq!(handler.serve(&shared, HandlerEvent::Written), Ok(HandlerAction::Close));
    assert_eq!(handler.state(), HandlerState::Closed);
}

#[test]
fn failed_last_write_closes_too() {
    let mut handler = ConnectionHandler::new();
    assert_eq!(
        handler.step(HandlerEvent::Malformed("bad".to_string())),
        wrote(Response::Error("bad".to_string()))
    );
    assert_eq!(handler.step(HandlerEvent::TransportFailed), Ok(HandlerAction::Close));
    assert_eq!(handler.state(), HandlerState::Closed);
}

#[test]
fn events_out_of_turn_are_refused() {
    let mut handler = ConnectionHandler::new();
    let mut store = Store::new();
    assert_eq!(handler.step(HandlerEvent::Written), Err(OutOfTurn));
    assert_eq!(handler.step(HandlerEvent::Dispatched(Response::Stored)), Err(OutOfTurn));
    assert_eq!(handler.state(), HandlerState::Reading);
    assert_eq!(handler.serve_on(&mut store, put("foo", "bar")), wrote(Response::Stored));
    assert_eq!(handler.serve_on(&mut store, get("foo")), Err(OutOfTurn));
    assert_eq!(handler.serve_on(&mut store, HandlerEvent::EndOfInput), Err(OutOfTurn));
    assert_eq!(handler.state(), HandlerState::Writing);
    assert_eq!(handler.serve_on(&mut store, HandlerEvent::Written), Ok(HandlerAction::Read));
    assert_eq!(handler.serve_on(&mut store, HandlerEvent::EndOfInput), Ok(HandlerAction::Close));
    assert_eq!(handler.serve_on(&mut store, HandlerEvent::EndOfInput), Err(OutOfTurn));
    assert_eq!(handler.serve_on(&mut store, HandlerEvent::Written), Err(OutOfTurn));
    assert_eq!(handler.state(), HandlerState::Closed);
    assert_eq!(store.get("foo"), Some(Bytes::from("bar")));
}

#[test]
fn dispatching_takes_only_the_response() {
    let mut handler = ConnectionHandler::new();
    assert!(handler.step(get("foo")).is_ok());
    assert_eq!(handler.step(HandlerEvent::Written), Err(OutOfTurn));
    assert_eq!(handler.step(HandlerEvent::EndOfInput), Err(OutOfTurn));
    assert_eq!(handler.step(HandlerEvent::TransportFailed), Err(OutOfTurn));
    assert_eq!(handler.state(), HandlerState::Dispatching);
}

#[test]
fn a_store_of_ones_own_serves_put_then_get() {
    let mut handler = ConnectionHandler::new();
    let mut store = Store::new();
    assert_eq!(handler.serve_on(&mut store, get("foo")), wrote(Response::NotFound));
    assert_eq!(handler.serve_on(&mut store, HandlerEvent::Written), Ok(HandlerAction::Read));
    assert_eq!(handler.serve_on(&mut store, put("foo", "bar")), wrote(Response::Stored));
    assert_eq!(handler.serve_on(&mut store, HandlerEvent::Written), Ok(HandlerAction::Read));
    assert_eq!(
        handler.serve_on(&mut store, get("foo")),
        wrote(Response::Value(Bytes::from("bar")))
    );
}

#[test]
fn scenario_set_foo_bar_then_get_foo() {
    let shared = SharedStore::new();
    let mut handler = ConnectionHandler::new();

    let set = HandlerEvent::received(Frame::Array(vec![bulk("set"), bulk("foo"), bulk("bar")]));
    let action = handler.serve(&shared, set).unwrap();
    assert_eq!(action, HandlerAction::Write(Response::Stored));
    match action {
        HandlerAction::Write(response) => match encode(response) {
            Frame::Simple(text) => assert_eq!(text, "OK"),
            other => panic!("unexpected frame {:?}", other),
        },
        other => panic!("unexpected action {:?}", other),
    }
    assert_eq!(handler.serve(&shared, HandlerEvent::Written), Ok(HandlerAction::Read));

    let get = HandlerEvent::received(Frame::Array(vec![bulk("get"), bulk("foo")]));
    let action = handler.serve(&shared, get).unwrap();
    assert_eq!(action, HandlerAction::Write(Response::Value(Bytes::from("bar"))));
    match action {
        HandlerAction::Write(response) => match encode(response) {
            Frame::Bulk(data) => assert_eq!(data, Bytes::from("bar")),
            other => panic!("unexpected frame {:?}", other),
        },
        other => panic!("unexpected action {:?}", other),
    }
    assert_eq!(handler.serve(&shared, HandlerEvent::Written), Ok(HandlerAction::Read));
    assert_eq!(handler.serve(&shared, HandlerEvent::EndOfInput), Ok(HandlerAction::Close));
}

#[test]
fn scenario_two_connections_each_see_their_own_write() {
    let shared = SharedStore::new();
    let other_handle = shared.share();
    let mut first = ConnectionHandler::new();
    let mut second = ConnectionHandler::new();

    assert_eq!(first.serve(&shared, put("one", "1")), wrote(Response::Stored));
    assert_eq!(second.serve(&other_handle, put("two", "2")), wrote(Response::Stored));
    assert_eq!(second.serve(&other_handle, HandlerEvent::Written), Ok(HandlerAction::Read));
    assert_eq!(first.serve(&shared, HandlerEvent::Written), Ok(HandlerAction::Read));
    assert_eq!(second.serve(&other_handle, get("two")), wrote(Response::Value(Bytes::from("2"))));
    assert_eq!(first.serve(&shared, get("one")), wrote(Response::Value(Bytes::from("1"))));
}

#[test]
fn scenario_concurrent_connections_each_see_their_own_write() {
    let runtime = tokio::runtime::Builder::new_multi_thread().worker_threads(2).build().unwrap();
    let shared = SharedStore::new();
    runtime.block_on(async {
        let mut tasks = Vec::new();
        for name in ["one", "two"] {
            let store = shared.share();
            tasks.push(tokio::spawn(async move {
                let mut handler = ConnectionHandler::new();
                for round in 0..100 {
                    let value = Bytes::from(format!("{}-{}", name, round));
                    let event = HandlerEvent::Request(Request::Put {
                        key: name.to_string(),
                        value: value.clone(),
                    });
                    assert_eq!(handler.serve(&store, event), wrote(Response::Stored));
                    assert_eq!(
                        handler.serve(&store, HandlerEvent::Written),
                        Ok(HandlerAction::Read)
                    );
                    assert_eq!(handler.serve(&store, get(name)), wrote(Response::Value(value)));
                    assert_eq!(
                        handler.serve(&store, HandlerEvent::Written),
                        Ok(HandlerAction::Read)
                    );
                }
            }));
        }
        for task in tasks {
            task.await.unwrap();
        }
    });
}

#[test]
fn scenario_unrecognized_request_closes_only_its_connection() {
    let shared = SharedStore::new();
    let mut failing = ConnectionHandler::new();
    let mut healthy = ConnectionHandler::new();

    assert_eq!(healthy.serve(&shared, put("foo", "bar")), wrote(Response::Stored));
    assert_eq!(healthy.serve(&shared, HandlerEvent::Written), Ok(HandlerAction::Read));

    let ping = HandlerEvent::received(Frame::Array(vec![bulk("ping")]));
    let action = failing.serve(&shared, ping).unwrap();
    assert_eq!(
        action,
        HandlerAction::Write(Response::Error(
            "unimplemented: Unknown(Unknown { command_name: \"ping\" })".to_string()
        ))
    );
    match action {
        HandlerAction::Write(response) => assert!(matches!(encode(response), Frame::Error(_))),
        other => panic!("unexpected action {:?}", other),
    }
    assert_eq!(failing.state(), HandlerState::Closing);
    assert_eq!(failing.serve(&shared, HandlerEvent::Written), Ok(HandlerAction::Close));
    assert_eq!(failing.state(), HandlerState::Closed);
    assert_eq!(failing.serve(&shared, get("foo")), Err(OutOfTurn));

    assert_eq!(healthy.state(), HandlerState::Reading);
    assert_eq!(healthy.serve(&shared, get("foo")), wrote(Response::Value(Bytes::from("bar"))));
    assert_eq!(healthy.serve(&shared, HandlerEvent::Written), Ok(HandlerAction::Read));
    assert_eq!(healthy.serve(&shared, put("foo", "baz")), wrote(Response::Stored));
}
