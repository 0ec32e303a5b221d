//! Network endpoints of peers.
use vstd::prelude::*;

verus! {

/// The host part of an endpoint: an IPv4 address as its 32-bit number, or an
/// IPv6 address with its flow information and scope.
#[derive(Clone, Copy, Debug, PartialEq, Eq, Structural, Hash)]
pub enum Host {
    V4(u32),
    V6 { ip: u128, flowinfo: u32, scope_id: u32 },
}

/// A peer's endpoint: host and port. Two endpoints are the same peer exactly
/// when all their parts are equal.
#[derive(Clone, Copy, Debug, PartialEq, Eq, Structural, Hash)]
pub struct PeerAddr {
    pub host: Host,
    pub port: u16,
}

/// 127.0.0.1, the address a node listens on.
pub const LOOPBACK_V4: u32 = 0x7f00_0001;

impl PeerAddr {
    pub fn new(host: Host, port: u16) -> (r: PeerAddr)
        ensures
            r.host == host,
            r.port == port,
    {
        PeerAddr { host, port }
    }

    /// The endpoint on 127.0.0.1 with the given port.
    pub fn loopback(port: u16) -> (r: PeerAddr)
        ensures
            r.host == Host::V4(LOOPBACK_V4),
            r.port == port,
    {
        PeerAddr { host: Host::V4(LOOPBACK_V4), port }
    }
}

} // verus!
