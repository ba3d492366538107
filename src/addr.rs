use vstd::prelude::*;

verus! {

/// The IP address of a peer, as the big-endian integer of its octets:
/// 32 bits for IPv4, 128 bits for IPv6.
#[derive(Clone, Copy, Debug, PartialEq, Eq, Structural, Hash)]
pub enum IpAddr {
    V4(u32),
    V6(u128),
}

/// The address of the peer connection that sent a request. An IPv6
/// address also carries its flow label and scope id.
#[derive(Clone, Copy, Debug, PartialEq, Eq, Structural, Hash)]
pub enum SocketAddr {
    V4 { ip: u32, port: u16 },
    V6 { ip: u128, port: u16, flowinfo: u32, scope_id: u32 },
}

impl SocketAddr {
    /// The address of `ip` at `port`; an IPv6 one with flow label and scope
    /// id zero.
    pub fn new(ip: IpAddr, port: u16) -> (r: SocketAddr)
        ensures
            r == (match ip {
                IpAddr::V4(a) => SocketAddr::V4 { ip: a, port },
                IpAddr::V6(a) => SocketAddr::V6 { ip: a, port, flowinfo: 0, scope_id: 0 },
            }),
    {
        match ip {
            IpAddr::V4(a) => SocketAddr::V4 { ip: a, port },
            IpAddr::V6(a) => SocketAddr::V6 { ip: a, port, flowinfo: 0, scope_id: 0 },
        }
    }
}

} // verus!
