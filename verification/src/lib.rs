//! A transport-agnostic messaging substrate for a multi-node application.
//!
//! The crate models a peer-to-peer network service: a start/stop lifecycle,
//! peer-scoped broadcast and unicast planning, message-type-keyed handler
//! dispatch, an event bus for lifecycle events, and a time-synchronization
//! protocol built on top of the service. All state transitions are verified;
//! the surrounding I/O (transport calls, timers, task spawning) is expected
//! to be driven by an unverified shell that feeds plain values in and carries
//! the returned plans out.

pub mod chat;
pub mod clock;
pub mod errors;
pub mod event_bus;
pub mod laws;
pub mod message;
pub mod registry;
pub mod service;
pub mod table;
pub mod timesync;

pub use errors::{NetworkError, TimeSyncError};

use vstd::prelude::*;

verus! {

/// Stable logical identifier of a network participant.
pub type NodeId = String;

/// Identifier minted once per outbound envelope (128-bit random).
pub type MessageId = u128;

} // verus!
