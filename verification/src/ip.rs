//! IPv4 addresses as one 32-bit number.

use vstd::prelude::*;

verus! {

/// An IPv4 address as a number: its first octet is the most significant.
#[derive(Debug, Clone, Copy, PartialEq, Eq, Structural)]
pub struct IPv4(pub u32);

impl IPv4 {
    /// The number of the address with the given octets.
    pub open spec fn spec_new(octets: Seq<u8>) -> IPv4 {
        IPv4(
            (((octets[0] as int * 256 + octets[1]) * 256 + octets[2]) * 256 + octets[3]) as u32,
        )
    }

    /// The address as text: its four octets in decimal with `.` between
    /// them.
    pub open spec fn spec_to_string(self) -> Seq<char> {
        crate::ipv4::addr::spec_dotted(
            seq![
                (self.0 / 16777216) as u8,
                ((self.0 / 65536) % 256) as u8,
                ((self.0 / 256) % 256) as u8,
                (self.0 % 256) as u8,
            ],
        )
    }

    pub fn new(octets: [u8; 4]) -> (a: Self)
        ensures
            a == IPv4::spec_new(octets@),
    {
        Self(
            ((octets[0] as u32 * 256 + octets[1] as u32) * 256 + octets[2] as u32) * 256
                + octets[3] as u32,
        )
    }

    pub fn from_raw(octets: u32) -> (a: Self)
        ensures
            a == IPv4(octets),
    {
        Self(octets)
    }

    /// The address as text, such as `10.0.0.1`.
    pub fn to_string(self) -> (s: String)
        ensures
            s@ == self.spec_to_string(),
    {
        let mut s = String::new();
        crate::text::push_decimal(&mut s, (self.0 / 16777216) as u8);
        crate::text::push_char(&mut s, '.');
        crate::text::push_decimal(&mut s, ((self.0 / 65536) % 256) as u8);
        crate::text::push_char(&mut s, '.');
        crate::text::push_decimal(&mut s, ((self.0 / 256) % 256) as u8);
        crate::text::push_char(&mut s, '.');
        crate::text::push_decimal(&mut s, (self.0 % 256) as u8);
        assert(s@ =~= self.spec_to_string());
        s
    }
}

impl core::ops::BitAnd for IPv4 {
    type Output = Self;

    fn bitand(self, rhs: Self) -> (r: Self) {
        Self(self.0 & rhs.0)
    }
}

impl vstd::std_specs::ops::BitAndSpecImpl for IPv4 {
    open spec fn obeys_bitand_spec() -> bool {
        true
    }

    open spec fn bitand_req(self, rhs: Self) -> bool {
        true
    }

    open spec fn bitand_spec(self, rhs: Self) -> Self {
        IPv4(self.0 & rhs.0)
    }
}

/// Masking is idempotent: masking a masked address changes nothing.
pub proof fn lemma_mask_idempotent(mask: IPv4, addr: IPv4)
    ensures
        (mask.0 & addr.0) & mask.0 == mask.0 & addr.0,
{
    let m = mask.0;
    let a = addr.0;
    assert((m & a) & m == m & a) by (bit_vector);
}

} // verus!
