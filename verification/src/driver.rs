//! How the state machines of this library are driven.
//!
//! Each machine decides and never waits. A loop outside the library performs
//! the action that the machine asks for (a read, a write, a receive on the
//! queue) and hands back the event that tells how it went. An event that does
//! not answer the pending action is refused and changes nothing.

use vstd::prelude::*;

verus! {

/// The event handed to a machine does not answer the action it asked for.
#[derive(Clone, Copy, Debug, PartialEq, Eq, Structural)]
pub struct OutOfTurn;

} // verus!
