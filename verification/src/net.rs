//! Network addresses as plain numbers.

use vstd::prelude::*;

verus! {

/// An IP address: an IPv4 address as its 32 bits, or an IPv6 address as its
/// 128 bits, most significant first.
#[derive(Clone, Copy, Debug, PartialEq, Eq, Structural)]
pub enum IpAddress {
    V4(u32),
    V6(u128),
}

/// The key under which a client's state is kept: the address family (4 or
/// 6) and the address bits.
pub type ClientKey = (u8, u128);

impl IpAddress {
    pub open spec fn key(self) -> ClientKey {
        match self {
            IpAddress::V4(a) => (4u8, a as u128),
            IpAddress::V6(a) => (6u8, a),
        }
    }

    pub fn client_key(self) -> (k: ClientKey)
        ensures
            k == self.key(),
    {
        match self {
            IpAddress::V4(a) => (4u8, a as u128),
            IpAddress::V6(a) => (6u8, a),
        }
    }
}

/// Two addresses share a key only when they are the same address, so no two
/// clients ever share state.
pub proof fn lemma_client_key_is_injective(a: IpAddress, b: IpAddress)
    ensures
        a.key() == b.key() <==> a == b,
{
}

/// An upstream server: an IP address and a UDP port.
#[derive(Clone, Copy, Debug, PartialEq, Eq, Structural)]
pub struct ServerAddr {
    pub ip: IpAddress,
    pub port: u16,
}

} // verus!
