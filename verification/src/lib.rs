//! Core of an EPICS Channel Access beacon relay (the per-host "repeater")
//! and of the client-side registration and beacon-intake logic that
//! cooperates with it.
//!
//! The modules here hold the verified logic: the wire codec for the
//! fixed-layout message headers, the repeater's dispatch state machine and
//! registration table, and the client's liveness bookkeeping.  All socket
//! and thread handling lives outside this library; it hands datagram bytes
//! and plain values in and carries the decided actions out.

pub mod addr;
pub mod client;
pub mod protocol;
pub mod repeater;

use vstd::prelude::*;

verus! {

/// EPICS Channel Access protocol version implemented here.
pub const MAJOR_PROTOCOL_VERSION: u16 = 4;
pub const MINOR_PROTOCOL_VERSION: u16 = 11;

/// Base from which the well-known CA ports are derived.
pub const CA_PORT_BASE: u16 = 5056;

/// UDP/TCP port on which CA servers listen (5064 at protocol major 4).
pub const CA_SERVER_PORT: u16 = CA_PORT_BASE + MAJOR_PROTOCOL_VERSION * 2;

/// UDP port owned by the per-host repeater (5065 at protocol major 4).
pub const CA_REPEATER_PORT: u16 = CA_PORT_BASE + MAJOR_PROTOCOL_VERSION * 2 + 1;

/// Longest interval, in milliseconds, between successive beacons from a
/// live server.
pub const CA_SERVER_BEACON_MAX_PERIOD_MS: u64 = 15_000;

/// Age, in milliseconds, at which a server record is evicted: twice the
/// beacon period, so one missed beacon does not declare a server dead.
pub const BEACON_EVICTION_AGE_MS: u64 = 2 * CA_SERVER_BEACON_MAX_PERIOD_MS;

/// Interval, in milliseconds, between passes of the liveness sweeper.
pub const UPDATE_PERIOD_MS: u64 = 500;

/// 127.0.0.1 as the numeric value of its four octets in network order.
pub const LOCALHOST_U32: u32 = 0x7F00_0001;

} // verus!
