//! Core logic of a transparent TCP forwarder.
//!
//! The forwarder listens on a source address and, for every inbound
//! connection, opens a matching outbound connection to a fixed destination,
//! then relays bytes in both directions until either side closes. This
//! library holds the verified heart of that pipeline: the admission pool
//! that caps concurrent relays, the byte-copy model of a relay session, and
//! the per-connection state machine that drives admission, dialing with a
//! timeout, socket tuning and the bidirectional copy. The surrounding
//! process performs the socket I/O and feeds the outcomes back as events.

use vstd::prelude::*;

pub mod admission;
pub mod conn;
pub mod relay;

verus! {

/// Default number of relays that may run at once.
pub const DEFAULT_MAX_CONNECTIONS: usize = 100;

/// Seconds the outbound dial may take before it is abandoned.
pub const DIAL_TIMEOUT_SECS: u64 = 5;

} // verus!
