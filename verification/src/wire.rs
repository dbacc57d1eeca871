//! Frames of the wire protocol, as `mini_redis` reads and writes them.

use crate::protocol::{Request, RequestView, Response, ResponseView};
use crate::value::contents;
use mini_redis::Frame;
use vstd::prelude::*;
use vstd::string::StringExecFns;

verus! {

/// `mini_redis::Frame`: one frame of the wire protocol. The verifier reads
/// its variants from the crate, so the code below builds frames and matches on
/// them like on an enum of its own.
#[verifier::external_type_specification]
pub struct ExFrame(mini_redis::Frame);

/// What `mini_redis::Command::from_frame` makes of a frame: the request that
/// the frame carries, or the reason why it carries none.
pub uninterp spec fn parsed(frame: Frame) -> Result<RequestView, Seq<char>>;

/// The outcome of decoding, as mathematics.
pub open spec fn decoded_view(outcome: Result<Request, String>) -> Result<RequestView, Seq<char>> {
    match outcome {
        Ok(request) => Ok(request@),
        Err(reason) => Err(reason@),
    }
}

/// Calls `mini_redis::Command::from_frame`. Trusted: the outcome depends on
/// the frame alone, and [`parsed`] is its name. A `Get` or `Set` command
/// comes back as the request with the same key and value (`Get::key`,
/// `Set::key`, `Set::value`; an expiry is not kept); any other command comes
/// back as `Unsupported`, described by its debug text; an error comes back as
/// its message.
#[verifier::external_body]
pub(crate) fn parse(frame: Frame) -> (outcome: Result<Request, String>)
    ensures
        decoded_view(outcome) == parsed(frame),
{
    match mini_redis::Command::from_frame(frame) {
        Ok(mini_redis::Command::Get(get)) => Ok(Request::Get { key: get.key().to_string() }),
        Ok(mini_redis::Command::Set(set)) => Ok(
            Request::Put { key: set.key().to_string(), value: set.value().clone() },
        ),
        Ok(other) => Ok(Request::Unsupported { description: format!("{:?}", other) }),
        Err(error) => Err(error.to_string()),
    }
}

/// Whether `frame` is the encoding of `response`.
pub open spec fn encodes(frame: Frame, response: ResponseView) -> bool {
    match response {
        ResponseView::Stored => frame matches Frame::Simple(text) && text@ == "OK"@,
        ResponseView::Value(bytes) => frame matches Frame::Bulk(data) && contents(data) == bytes,
        ResponseView::NotFound => frame is Null,
        ResponseView::Error(message) => frame matches Frame::Error(text) && text@ == message,
    }
}

/// The frame that carries a response to the peer.
pub fn encode(response: Response) -> (frame: Frame)
    ensures
        encodes(frame, response@),
{
    match response {
        Response::Stored => Frame::Simple(String::from_str("OK")),
        Response::Value(value) => Frame::Bulk(value),
        Response::NotFound => Frame::Null,
        Response::Error(message) => Frame::Error(message),
    }
}

} // verus!
