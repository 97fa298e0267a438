//! 48-bit hardware addresses.

use vstd::prelude::*;

pub mod authority;

verus! {

/// A MAC address: six octets in transmission order.
#[derive(Clone, Copy, Debug, Eq, Hash)]
pub struct Mac {
    addr: [u8; 6],
}

/// Why a piece of text is not a MAC address.
#[derive(Clone, Copy, Debug, PartialEq, Eq, Structural)]
pub enum MacParseError {
    /// A group between two `-` is not a pair of hexadecimal digits.
    ParseByteError,
    /// The text does not hold exactly six groups.
    LengthError,
}

impl View for Mac {
    type V = Seq<u8>;

    closed spec fn view(&self) -> Seq<u8> {
        self.addr@
    }
}

impl PartialEq for Mac {
    fn eq(&self, other: &Self) -> (same: bool) {
        let same = self.addr[0] == other.addr[0] && self.addr[1] == other.addr[1] && self.addr[2]
            == other.addr[2] && self.addr[3] == other.addr[3] && self.addr[4] == other.addr[4]
            && self.addr[5] == other.addr[5];
        proof {
            if same {
                assert(self.addr =~= other.addr);
            }
        }
        same
    }
}

impl vstd::std_specs::cmp::PartialEqSpecImpl for Mac {
    open spec fn obeys_eq_spec() -> bool {
        true
    }

    open spec fn eq_spec(&self, other: &Self) -> bool {
        *self == *other
    }
}

impl core::str::FromStr for Mac {
    type Err = MacParseError;

    /// Reads an address from its text, as `Mac::parse` does.
    fn from_str(s: &str) -> (r: Result<Self, Self::Err>)
        ensures
            r == Mac::spec_parse(s@),
    {
        Mac::parse(s)
    }
}

impl Mac {
    /// The address whose octets are the first six of `s`.
    pub closed spec fn from_seq(s: Seq<u8>) -> Mac {
        Mac { addr: [s[0], s[1], s[2], s[3], s[4], s[5]] }
    }

    /// The address that every station on a link accepts.
    pub closed spec fn spec_broadcast() -> Mac {
        Mac { addr: [0xff, 0xff, 0xff, 0xff, 0xff, 0xff] }
    }

    /// Bit 1 of the first octet is clear: the address was assigned by its vendor.
    pub open spec fn spec_is_universally_administered(&self) -> bool {
        (self@[0] / 2) % 2 == 0
    }

    /// Bit 0 of the first octet is clear: the address names one station.
    pub open spec fn spec_is_unicast(&self) -> bool {
        self@[0] % 2 == 0
    }

    /// All six octets are `0xff`.
    pub open spec fn spec_is_broadcast(&self) -> bool {
        *self == Mac::spec_broadcast()
    }

    /// The address as a number: its octets as 48 bits, the first octet the
    /// most significant.
    pub open spec fn spec_key(&self) -> u64 {
        ((crate::bytes::spec_pack4(self@[0], self@[1], self@[2], self@[3]) * 256 + self@[4]) * 256
            + self@[5]) as u64
    }

    /// Different addresses are different numbers.
    #[verifier::rlimit(50)]
    pub proof fn lemma_key_injective(self, other: Mac)
        requires
            self.spec_key() == other.spec_key(),
        ensures
            self == other,
    {
        let n = crate::bytes::spec_pack4(self@[0], self@[1], self@[2], self@[3]);
        let m = crate::bytes::spec_pack4(other@[0], other@[1], other@[2], other@[3]);
        crate::bytes::lemma_pack4(self@[0], self@[1], self@[2], self@[3]);
        crate::bytes::lemma_pack4(other@[0], other@[1], other@[2], other@[3]);
        let h = n * 256 + self@[4];
        let g = m * 256 + other@[4];
        let k = h * 256 + self@[5];
        let l = g * 256 + other@[5];
        assert(0 <= k < 0x1_0000_0000_0000 && 0 <= l < 0x1_0000_0000_0000);
        assert(k == l);
        assert(k / 256 == h && l / 256 == g);
        assert(k % 256 == self@[5] && l % 256 == other@[5]);
        assert(h / 256 == n && g / 256 == m);
        assert(h % 256 == self@[4] && g % 256 == other@[4]);
        assert(self@ =~= other@);
        self.lemma_view_injective(other);
    }

    /// An address always has six octets.
    pub proof fn lemma_len(self)
        ensures
            self@.len() == 6,
    {
    }

    /// Two addresses with the same octets are the same address.
    pub proof fn lemma_view_injective(self, other: Mac)
        requires
            self@ == other@,
        ensures
            self == other,
    {
        assert(self.addr =~= other.addr);
    }

    /// `from_seq` and the view are inverse to each other.
    pub proof fn lemma_from_seq(s: Seq<u8>)
        requires
            s.len() == 6,
        ensures
            Mac::from_seq(s)@ == s,
    {
        assert(Mac::from_seq(s)@ =~= s);
    }

    /// Reading the octets of an address and building one from them gives it back.
    pub proof fn lemma_from_seq_view(self)
        ensures
            Mac::from_seq(self@) == self,
    {
        assert(Mac::from_seq(self@).addr =~= self.addr);
    }

    /// The broadcast address is the all-ones address, and it is a group address.
    pub proof fn lemma_broadcast()
        ensures
            Mac::spec_broadcast()@ == seq![0xffu8, 0xffu8, 0xffu8, 0xffu8, 0xffu8, 0xffu8],
            Mac::spec_broadcast().spec_is_broadcast(),
            !Mac::spec_broadcast().spec_is_unicast(),
    {
        assert(Mac::spec_broadcast()@ =~= seq![0xffu8, 0xffu8, 0xffu8, 0xffu8, 0xffu8, 0xffu8]);
    }

    /// The address that every station on a link accepts.
    pub fn broadcast() -> (m: Self)
        ensures
            m == Mac::spec_broadcast(),
    {
        Self { addr: [0xff, 0xff, 0xff, 0xff, 0xff, 0xff] }
    }

    pub fn new(addr: [u8; 6]) -> (m: Self)
        ensures
            m@ == addr@,
    {
        Self { addr }
    }

    pub fn is_universally_administered(&self) -> (b: bool)
        ensures
            b == self.spec_is_universally_administered(),
    {
        (self.addr[0] / 2) % 2 == 0
    }

    pub fn is_locally_administered(&self) -> (b: bool)
        ensures
            b == !self.spec_is_universally_administered(),
    {
        (self.addr[0] / 2) % 2 != 0
    }

    pub fn is_unicast(&self) -> (b: bool)
        ensures
            b == self.spec_is_unicast(),
    {
        self.addr[0] % 2 == 0
    }

    pub fn is_multicast(&self) -> (b: bool)
        ensures
            b == !self.spec_is_unicast(),
    {
        self.addr[0] % 2 != 0
    }

    pub fn is_broadcast(&self) -> (b: bool)
        ensures
            b == self.spec_is_broadcast(),
    {
        let b = self.addr[0] == 0xff && self.addr[1] == 0xff && self.addr[2] == 0xff
            && self.addr[3] == 0xff && self.addr[4] == 0xff && self.addr[5] == 0xff;
        proof {
            let all = Mac::spec_broadcast().addr;
            if b {
                assert(self.addr =~= all);
            } else {
                assert(all[0] == 0xff && all[1] == 0xff && all[2] == 0xff && all[3] == 0xff
                    && all[4] == 0xff && all[5] == 0xff);
            }
        }
        b
    }

    /// The vendor part of the address: its first three octets.
    pub fn manufacturer(&self) -> (oui: &[u8])
        ensures
            oui@ == self@.subrange(0, 3),
    {
        vstd::slice::slice_subrange(self.addr.as_slice(), 0, 3)
    }

    /// The address as a number.
    pub fn key(&self) -> (k: u64)
        ensures
            k == self.spec_key(),
    {
        let a: u64 = self.addr[0] as u64;
        let b: u64 = self.addr[1] as u64;
        let c: u64 = self.addr[2] as u64;
        let d: u64 = self.addr[3] as u64;
        let e: u64 = self.addr[4] as u64;
        let f: u64 = self.addr[5] as u64;
        proof {
            crate::bytes::lemma_pack4(self@[0], self@[1], self@[2], self@[3]);
        }
        ((((a * 256 + b) * 256 + c) * 256 + d) * 256 + e) * 256 + f
    }

    /// The address as text: six pairs of upper-case hexadecimal digits with
    /// `-` between them.
    pub open spec fn spec_to_string(&self) -> Seq<char> {
        crate::text::spec_hex_pair(self@[0]) + seq!['-'] + crate::text::spec_hex_pair(self@[1])
            + seq!['-'] + crate::text::spec_hex_pair(self@[2]) + seq!['-']
            + crate::text::spec_hex_pair(self@[3]) + seq!['-'] + crate::text::spec_hex_pair(
            self@[4],
        ) + seq!['-'] + crate::text::spec_hex_pair(self@[5])
    }

    /// The address that the text stands for: six pairs of hexadecimal
    /// digits, of either case, with `-` between them. A group that is no
    /// pair of digits is an error of its own; else any number of groups but
    /// six is.
    pub open spec fn spec_parse(s: Seq<char>) -> Result<Mac, MacParseError> {
        match crate::text::spec_group_values(crate::text::spec_split(s, '-'), true) {
            None => Err(MacParseError::ParseByteError),
            Some(octets) => if octets.len() != 6 {
                Err(MacParseError::LengthError)
            } else {
                Ok(Mac::from_seq(octets))
            },
        }
    }

    /// The address as text, such as `02-00-00-00-00-1A`.
    pub fn to_string(&self) -> (s: String)
        ensures
            s@ == self.spec_to_string(),
            crate::text::plain_line(s@),
    {
        let mut s = String::new();
        crate::text::push_hex_pair(&mut s, self.addr[0]);
        crate::text::push_char(&mut s, '-');
        crate::text::push_hex_pair(&mut s, self.addr[1]);
        crate::text::push_char(&mut s, '-');
        crate::text::push_hex_pair(&mut s, self.addr[2]);
        crate::text::push_char(&mut s, '-');
        crate::text::push_hex_pair(&mut s, self.addr[3]);
        crate::text::push_char(&mut s, '-');
        crate::text::push_hex_pair(&mut s, self.addr[4]);
        crate::text::push_char(&mut s, '-');
        crate::text::push_hex_pair(&mut s, self.addr[5]);
        assert(s@ =~= self.spec_to_string());
        s
    }

    /// Reads an address from its text.
    pub fn parse(s: &str) -> (r: Result<Mac, MacParseError>)
        ensures
            r == Mac::spec_parse(s@),
    {
        let groups = crate::text::split(s, '-');
        match crate::text::group_values(&groups, true) {
            None => Err(MacParseError::ParseByteError),
            Some(octets) => {
                if octets.len() != 6 {
                    Err(MacParseError::LengthError)
                } else {
                    let m = Mac::new(
                        [octets[0], octets[1], octets[2], octets[3], octets[4], octets[5]],
                    );
                    proof {
                        Mac::lemma_from_seq(octets@);
                        assert(m@ =~= octets@);
                        m.lemma_view_injective(Mac::from_seq(octets@));
                    }
                    Ok(m)
                }
            },
        }
    }

    pub fn as_slice(&self) -> (octets: &[u8])
        ensures
            octets@ == self@,
    {
        self.addr.as_slice()
    }
}

} // verus!
