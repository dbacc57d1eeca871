//! The key-value table.

use crate::protocol::{refuse, reply_to, table_after, Request, Response};
use crate::value::contents;
use bytes::Bytes;
use vstd::hash_map::StringHashMap;
use vstd::prelude::*;

verus! {

/// What a store holds, as mathematics: a finite map from keys to byte strings.
pub type Table = Map<Seq<char>, Seq<u8>>;

/// All key-value pairs currently held by one service instance.
pub struct Store {
    entries: StringHashMap<Bytes>,
}

impl View for Store {
    type V = Table;

    closed spec fn view(&self) -> Table {
        self.entries@.map_values(|value: Bytes| contents(value))
    }
}

impl Store {
    /// An empty store.
    pub fn new() -> (store: Store)
        ensures
            store@ == Table::empty(),
    {
        let store = Store { entries: StringHashMap::new() };
        store
    }

    /// The value currently held for `key`, or `None` where there is none.
    pub fn get(&self, key: &str) -> (found: Option<Bytes>)
        ensures
            match found {
                Some(value) => self@.contains_key(key@) && contents(value) == self@[key@],
                None => !self@.contains_key(key@),
            },
    {
        match self.entries.get(key) {
            Some(value) => Some(value.clone()),
            None => None,
        }
    }

    /// Inserts the pair, replacing whatever `key` held before.
    pub fn set(&mut self, key: String, value: Bytes)
        ensures
            final(self)@ == old(self)@.insert(key@, contents(value)),
    {
        self.entries.insert(key, value);
    }

    /// Serves one request: a `Get` is looked up, a `Put` is stored and
    /// acknowledged, and any other request is refused and leaves the store
    /// as it was.
    pub fn apply(&mut self, request: Request) -> (response: Response)
        ensures
            response@ == reply_to(old(self)@, request@),
            final(self)@ == table_after(old(self)@, request@),
    {
        match request {
            Request::Get { key } => match self.get(key.as_str()) {
                Some(value) => Response::Value(value),
                None => Response::NotFound,
            },
            Request::Put { key, value } => {
                self.set(key, value);
                Response::Stored
            },
            Request::Unsupported { description } => refuse(description),
        }
    }
}

} // verus!
