//! Requests, responses, and what a request means for a table.

use crate::store::Table;
use crate::value::contents;
use bytes::Bytes;
use vstd::prelude::*;
use vstd::string::StringExecFns;

verus! {

/// A decoded request.
#[derive(Clone, Debug, PartialEq, Eq)]
pub enum Request {
    /// Read the value held for `key`.
    Get { key: String },
    /// Hold `value` for `key`.
    Put { key: String, value: Bytes },
    /// Any other kind of request; `description` says what was received.
    Unsupported { description: String },
}

/// A response, ready to be encoded.
#[derive(Clone, Debug, PartialEq, Eq)]
pub enum Response {
    /// The write took effect.
    Stored,
    /// The value that the key holds.
    Value(Bytes),
    /// The key holds nothing.
    NotFound,
    /// The request could not be served.
    Error(String),
}

/// A request as mathematics.
pub enum RequestView {
    Get { key: Seq<char> },
    Put { key: Seq<char>, value: Seq<u8> },
    Unsupported { description: Seq<char> },
}

/// A response as mathematics.
pub enum ResponseView {
    Stored,
    Value(Seq<u8>),
    NotFound,
    Error(Seq<char>),
}

impl View for Request {
    type V = RequestView;

    open spec fn view(&self) -> RequestView {
        match *self {
            Request::Get { key } => RequestView::Get { key: key@ },
            Request::Put { key, value } => RequestView::Put { key: key@, value: contents(value) },
            Request::Unsupported { description } => RequestView::Unsupported {
                description: description@,
            },
        }
    }
}

impl View for Response {
    type V = ResponseView;

    open spec fn view(&self) -> ResponseView {
        match *self {
            Response::Stored => ResponseView::Stored,
            Response::Value(value) => ResponseView::Value(contents(value)),
            Response::NotFound => ResponseView::NotFound,
            Response::Error(message) => ResponseView::Error(message@),
        }
    }
}

/// The message sent back for a request of a kind that is not served.
pub open spec fn refusal(description: Seq<char>) -> Seq<char> {
    "unimplemented: "@ + description
}

/// The response to a request of a kind that is not served.
pub fn refuse(description: String) -> (response: Response)
    ensures
        response@ == ResponseView::Error(refusal(description@)),
{
    Response::Error(String::from_str("unimplemented: ").concat(description.as_str()))
}

/// The response that a table gives to a request.
pub open spec fn reply_to(table: Table, request: RequestView) -> ResponseView {
    match request {
        RequestView::Get { key } => if table.contains_key(key) {
            ResponseView::Value(table[key])
        } else {
            ResponseView::NotFound
        },
        RequestView::Put { .. } => ResponseView::Stored,
        RequestView::Unsupported { description } => ResponseView::Error(refusal(description)),
    }
}

/// The table once a request has been served.
pub open spec fn table_after(table: Table, request: RequestView) -> Table {
    match request {
        RequestView::Put { key, value } => table.insert(key, value),
        _ => table,
    }
}

/// The table once a whole history of requests has been served, first to last.
pub open spec fn table_after_all(table: Table, history: Seq<RequestView>) -> Table
    decreases history.len(),
{
    if history.len() == 0 {
        table
    } else {
        table_after(table_after_all(table, history.drop_last()), history.last())
    }
}

/// Whether a request writes to `key`.
pub open spec fn writes_to(request: RequestView, key: Seq<char>) -> bool {
    request matches RequestView::Put { key: written, .. } && written == key
}

/// Read-after-write: once `value` has been set for `key`, and whatever else is
/// served afterwards leaves that key alone, a `Get` of the key returns `value`.
pub proof fn law_read_after_write(
    table: Table,
    key: Seq<char>,
    value: Seq<u8>,
    later: Seq<RequestView>,
)
    requires
        forall|i: int| 0 <= i < later.len() ==> !writes_to(#[trigger] later[i], key),
    ensures
        reply_to(
            table_after_all(table_after(table, RequestView::Put { key, value }), later),
            RequestView::Get { key },
        ) == ResponseView::Value(value),
    decreases later.len(),
{
    if later.len() > 0 {
        let earlier = later.drop_last();
        law_read_after_write(table, key, value, earlier);
    }
}

/// A key that was never set is not found: starting from the empty table, after
/// any history without a write to `key`, a `Get` of the key returns `NotFound`.
pub proof fn law_unset_key_not_found(history: Seq<RequestView>, key: Seq<char>)
    requires
        forall|i: int| 0 <= i < history.len() ==> !writes_to(#[trigger] history[i], key),
    ensures
        reply_to(table_after_all(Table::empty(), history), RequestView::Get { key })
            == ResponseView::NotFound,
    decreases history.len(),
{
    if history.len() > 0 {
        let earlier = history.drop_last();
        law_unset_key_not_found(earlier, key);
    }
}

/// Writes are linearizable: in whatever order competing requests are admitted
/// to the table, once at least one of them has written to `key`, the key holds
/// exactly the value of one of those writes, whole.
pub proof fn law_writes_linearize(table: Table, history: Seq<RequestView>, key: Seq<char>)
    requires
        exists|i: int| 0 <= i < history.len() && writes_to(#[trigger] history[i], key),
    ensures
        table_after_all(table, history).contains_key(key),
        exists|i: int|
            0 <= i < history.len() && #[trigger] history[i] == (RequestView::Put {
                key,
                value: table_after_all(table, history)[key],
            }),
    decreases history.len(),
{
    let earlier = history.drop_last();
    if writes_to(history.last(), key) {
        assert(history[history.len() - 1] == (RequestView::Put {
            key,
            value: table_after_all(table, history)[key],
        }));
    } else {
        let w = choose|i: int| 0 <= i < history.len() && writes_to(#[trigger] history[i], key);
        assert(earlier[w] == history[w]);
        law_writes_linearize(table, earlier, key);
    }
}

} // verus!
