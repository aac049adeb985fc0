use vstd::prelude::*;

verus! {

/// An IP address. Each address is a big-endian number, its first octet in
/// the top byte; an IPv6 address also carries its flow label and scope.
#[derive(Clone, Copy, Debug, PartialEq, Eq, Structural)]
pub enum Host {
    V4(u32),
    V6 { ip: u128, flowinfo: u32, scope_id: u32 },
}

/// A socket address: a host and a port.
#[derive(Clone, Copy, Debug, PartialEq, Eq, Structural)]
pub struct Endpoint {
    pub host: Host,
    pub port: u16,
}

impl Endpoint {
    /// An IPv4 socket address.
    pub fn new(ip: u32, port: u16) -> (r: Endpoint)
        ensures
            r.host == Host::V4(ip),
            r.port == port,
    {
        Endpoint { host: Host::V4(ip), port }
    }

    /// An IPv6 socket address.
    pub fn new_v6(ip: u128, flowinfo: u32, scope_id: u32, port: u16) -> (r: Endpoint)
        ensures
            r.host == (Host::V6 { ip, flowinfo, scope_id }),
            r.port == port,
    {
        Endpoint { host: Host::V6 { ip, flowinfo, scope_id }, port }
    }
}

/// One outbound UDP datagram: where it goes and what it carries.
#[derive(Clone, Debug)]
pub struct Datagram {
    pub dest: Endpoint,
    pub payload: Vec<u8>,
}

} // verus!
