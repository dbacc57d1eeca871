//! What a task may ask of the shared client connection.

use crate::value::contents;
use bytes::Bytes;
use vstd::prelude::*;

verus! {

/// One request that a task wants executed on the shared connection.
#[derive(Clone, Debug, PartialEq, Eq)]
pub enum Command {
    /// Read the value held for `key`.
    Get { key: String },
    /// Hold `val` for `key`.
    Put { key: String, val: Bytes },
}

/// A command as mathematics.
pub enum CommandView {
    Get { key: Seq<char> },
    Put { key: Seq<char>, val: Seq<u8> },
}

impl View for Command {
    type V = CommandView;

    open spec fn view(&self) -> CommandView {
        match *self {
            Command::Get { key } => CommandView::Get { key: key@ },
            Command::Put { key, val } => CommandView::Put { key: key@, val: contents(val) },
        }
    }
}

} // verus!
