//! Address types used throughout the protocol.
//!
//! The rendezvous control plane is IPv4-only: the `Endpoint` type carries the
//! four address octets and the UDP port as plain integers. The requester's
//! listener may see traffic from any local source, so `SourceAddr` is wide
//! enough for an IPv6 address as well.

use vstd::prelude::*;

verus! {

/// An IPv4 UDP endpoint as observed on the rendezvous control plane.
#[derive(Clone, Copy, Debug, PartialEq, Eq, Structural)]
pub struct Endpoint {
    /// First (most significant) octet of the IPv4 address.
    pub a: u8,
    /// Second octet.
    pub b: u8,
    /// Third octet.
    pub c: u8,
    /// Fourth octet.
    pub d: u8,
    /// UDP port.
    pub port: u16,
}

impl Endpoint {
    /// Builds an endpoint from the four address octets and the port.
    pub fn new(a: u8, b: u8, c: u8, d: u8, port: u16) -> (r: Endpoint)
        ensures
            r == (Endpoint { a, b, c, d, port }),
    {
        Endpoint { a, b, c, d, port }
    }
}

/// A local source address on the requester's listener socket, wide enough
/// for either address family. For an IPv4 source the address is carried in
/// the low 32 bits of `ip`.
#[derive(Clone, Copy, Debug, PartialEq, Eq, Structural)]
pub struct SourceAddr {
    /// The IP address as an integer.
    pub ip: u128,
    /// UDP port.
    pub port: u16,
}

impl SourceAddr {
    /// Builds a source address from its integer address and port.
    pub fn new(ip: u128, port: u16) -> (r: SourceAddr)
        ensures
            r == (SourceAddr { ip, port }),
    {
        SourceAddr { ip, port }
    }
}

} // verus!
