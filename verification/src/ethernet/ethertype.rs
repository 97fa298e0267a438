//! The 16-bit protocol selector of an Ethernet frame.

use vstd::prelude::*;

verus! {

/// EtherType of IPv4.
pub const IP_V4: u16 = 0x0800;

/// EtherType of IPv6.
pub const IP_V6: u16 = 0x86DD;

/// EtherType of ARP.
pub const ARP: u16 = 0x0806;

/// The tag protocol identifier that announces an 802.1Q tag.
pub const DOT1Q: u16 = 0x8100;

/// An EtherType: an opaque 16-bit value, of which a few are well known.
#[derive(Debug, Clone, Copy, PartialEq, Eq, Hash, Structural)]
pub struct EtherType(pub u16);

impl EtherType {
    pub fn from_u16(b: u16) -> (t: Self)
        ensures
            t == EtherType(b),
    {
        Self(b)
    }

    pub fn to_u16(self) -> (b: u16)
        ensures
            b == self.0,
    {
        self.0
    }

    /// The EtherType of IPv4, `0x0800`.
    pub fn ip_v4() -> (t: Self)
        ensures
            t == EtherType(IP_V4),
    {
        Self(IP_V4)
    }

    /// The EtherType of IPv6, `0x86DD`.
    pub fn ip_v6() -> (t: Self)
        ensures
            t == EtherType(IP_V6),
    {
        Self(IP_V6)
    }

    /// The EtherType of ARP, `0x0806`.
    pub fn arp() -> (t: Self)
        ensures
            t == EtherType(ARP),
    {
        Self(ARP)
    }
}

} // verus!
