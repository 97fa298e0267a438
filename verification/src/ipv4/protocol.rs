//! The protocol number of an IPv4 datagram.

use vstd::prelude::*;

verus! {

/// Protocol number of ICMP.
pub const ICMP: u8 = 0x01;

/// Protocol number of TCP.
pub const TCP: u8 = 0x06;

/// Protocol number of UDP.
pub const UDP: u8 = 0x11;

/// The protocol carried by a datagram: an 8-bit number.
#[derive(Debug, Clone, Copy, PartialEq, Eq, Structural)]
pub struct ProtocolType(pub u8);

impl ProtocolType {
    pub fn new(b: u8) -> (p: Self)
        ensures
            p == ProtocolType(b),
    {
        Self(b)
    }

    pub fn inner(self) -> (b: u8)
        ensures
            b == self.0,
    {
        self.0
    }
}

} // verus!
