//! A minimal in-memory key-value service and the command actor that lets many
//! tasks share one client connection.
//!
//! The library holds the decisions; the program around it performs the
//! network and queue operations and reports back what happened.

pub mod accept;
pub mod actor;
pub mod command;
pub mod driver;
pub mod handler;
pub mod protocol;
pub mod queue;
pub mod shared;
pub mod store;
pub mod value;
pub mod wire;
