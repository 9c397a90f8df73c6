use vstd::prelude::*;

verus! {

/// The well-known port addressable lighting devices listen on.
pub const DEVICE_PORT: u16 = 56700;

/// A host address, kept as the plain bytes of the IP so the registry can
/// store and compare it without touching the platform's socket types.
#[derive(Clone, Copy, PartialEq, Eq, Debug)]
pub enum Ip {
    V4([u8; 4]),
    V6([u8; 16]),
}

/// A network location a datagram came from or goes to.
#[derive(Clone, Copy, PartialEq, Eq, Debug)]
pub struct Addr {
    pub ip: Ip,
    pub port: u16,
}

/// One local IPv4 interface, as interface enumeration reports it: its own
/// address and, when the interface has one, its broadcast address.
#[derive(Clone, Copy, PartialEq, Eq, Debug)]
pub struct IfaceV4 {
    pub ip: [u8; 4],
    pub broadcast: Option<[u8; 4]>,
}

/// Whether an IPv4 address lies in the loopback block.
pub open spec fn is_loopback_v4(ip: [u8; 4]) -> bool {
    ip[0] == 127u8
}

/// Tells a loopback IPv4 address from a routable one.
pub fn check_loopback_v4(ip: &[u8; 4]) -> (r: bool)
    ensures
        r == is_loopback_v4(*ip),
{
    ip[0] == 127
}

} // verus!
