//! A client engine for NAT-PMP, the NAT port mapping protocol of RFC 6886.
//!
//! The engine is free of I/O. It encodes requests, decodes and validates the
//! gateway's responses, and decides when a pending request is sent again and
//! when it is given up. The caller owns the datagram socket and the clock: it
//! sends the bytes the engine hands out, and reports what the socket received
//! together with the current time.

pub mod client;
pub mod error;
pub mod gateway;
pub mod message;
pub mod retry;
pub mod time;
pub mod wire;

pub use crate::client::{Natpmp, Received, Step};
pub use crate::error::Error;
pub use crate::gateway::get_default_gateway;
pub use crate::message::{GatewayResponse, MappingResponse, Protocol, Response, ResponseType};
pub use crate::retry::{
    RetryDecision, RetrySchedule, NATPMP_LATEST_START, NATPMP_MAX_ATTEMPTS, NATPMP_MAX_WAIT,
    NATPMP_MIN_WAIT,
};

use vstd::prelude::*;

verus! {

/// UDP port on which a NAT-PMP gateway listens.
pub const NATPMP_PORT: u16 = 5351;

} // verus!
