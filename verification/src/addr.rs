use vstd::prelude::*;

verus! {

/// An IPv4 address, as its four octets in network order.
#[derive(Clone, Copy, Debug, PartialEq, Eq, Structural)]
pub struct Ipv4Address {
    pub a: u8,
    pub b: u8,
    pub c: u8,
    pub d: u8,
}

impl Ipv4Address {
    /// The address `a.b.c.d`.
    pub fn new(a: u8, b: u8, c: u8, d: u8) -> (address: Ipv4Address)
        ensures
            address == (Ipv4Address { a, b, c, d }),
    {
        Ipv4Address { a, b, c, d }
    }

    /// The address whose octets are `octets`, in order.
    pub fn from_octets(octets: [u8; 4]) -> (address: Ipv4Address)
        ensures
            address == (Ipv4Address { a: octets[0], b: octets[1], c: octets[2], d: octets[3] }),
    {
        Ipv4Address { a: octets[0], b: octets[1], c: octets[2], d: octets[3] }
    }

    /// The four octets, in order.
    pub fn octets(&self) -> (octets: [u8; 4])
        ensures
            octets@ == seq![self.a, self.b, self.c, self.d],
    {
        let octets: [u8; 4] = [self.a, self.b, self.c, self.d];
        assert(octets@ =~= seq![self.a, self.b, self.c, self.d]);
        octets
    }
}

/// An address and a port: one end of a UDP or TCP conversation.
#[derive(Clone, Copy, Debug, PartialEq, Eq, Structural)]
pub struct Endpoint {
    pub address: Ipv4Address,
    pub port: u16,
}

impl Endpoint {
    /// The endpoint `address:port`.
    pub fn new(address: Ipv4Address, port: u16) -> (endpoint: Endpoint)
        ensures
            endpoint == (Endpoint { address, port }),
    {
        Endpoint { address, port }
    }
}

} // verus!
