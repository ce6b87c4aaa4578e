//! A simplified Rail Safe Transport Application (RaSTA) layer and the
//! Standard Communication Interface (SCI) protocols that ride on it.
//!
//! The crate holds the protocol logic only: frames, telegrams and the
//! state machines of both ends of a connection. Streams, clocks and timers
//! belong to the caller, who hands in what was read and sends what the
//! state machines return.

pub mod connection;
pub mod error;
pub mod listener;
pub mod message;
pub mod sci;
pub mod wire;

pub use connection::{RastaAction, RastaCommand, RastaConnection, RastaConnectionState};
pub use error::RastaError;
pub use listener::{ListenerAction, RastaListener};

use vstd::prelude::*;

verus! {

/// The receive window advertised in connection requests and responses.
pub const N_SENDMAX: u16 = 65535;

/// Read timeout and idle-disconnect threshold, in milliseconds.
pub const RASTA_TIMEOUT_MS: u64 = 500;

} // verus!
