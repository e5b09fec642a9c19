//! A local UDP multiplexing router for Open Sound Control traffic.
//!
//! One upstream producer sends OSC datagrams to a single listening socket.
//! The engine filters each datagram by OSC address, fans accepted packets
//! out over a broadcast bus to any number of downstream routes, tracks each
//! route's lifecycle, and coordinates a graceful shutdown. This crate holds
//! the routing engine's logic: the packet-filter pipeline, the per-route
//! state machine, the supervisor's start and shutdown decisions, and the
//! bounded debug-trace ring. The surrounding process supplies the sockets,
//! channels and threads.

use vstd::prelude::*;

pub mod config;
pub mod vorupdate;
pub mod vorutils;
pub mod osc;
pub mod pf;
pub mod routedbg;
pub mod routing;
pub mod vorerr;

verus! {

/// The largest datagram the engine reads into one buffer: the canonical
/// OSC-over-UDP limit.
pub const MTU: usize = 1536;

} // verus!
