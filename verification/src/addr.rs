//! Plain-value model of the network endpoints the protocol speaks of.
//!
//! The protocol is IPv4-only, and an IPv4 address travels on the wire as
//! one 32-bit big-endian parameter, so the library represents an address
//! as that numeric value and an endpoint as address plus UDP port.  The
//! surrounding I/O code converts between these and its own socket-address
//! types at the boundary.

use vstd::prelude::*;

verus! {

/// An IPv4 UDP endpoint: the address as the numeric value of its four
/// octets in network order, and the port.
#[derive(Clone, Copy, Debug, PartialEq, Eq, Structural)]
pub struct Endpoint {
    /// IPv4 address, e.g. 127.0.0.1 is 0x7F000001.
    pub ip: u32,
    /// UDP port.
    pub port: u16,
}

impl Endpoint {
    /// Builds an endpoint from an address value and a port.
    pub fn new(ip: u32, port: u16) -> (r: Endpoint)
        ensures
            r.ip == ip,
            r.port == port,
    {
        Endpoint { ip, port }
    }
}

} // verus!
