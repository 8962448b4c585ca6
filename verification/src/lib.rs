//! Interactive client core for a text-dungeon game served over HTTP.
//!
//! The crate holds the verified heart of the client: the data model, the
//! request builder and response classifier of the network layer, the session
//! state machine with its entity registry, and the popup state machine that
//! drives target selection.  Terminal handling, the HTTP transport itself and
//! JSON decoding live outside, in the unverified shell around this library.

pub mod model;
pub mod net;
pub mod runner;
pub mod session;
