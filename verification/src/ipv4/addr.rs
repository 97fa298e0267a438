//! IPv4 addresses and prefix masks.

use vstd::prelude::*;
use crate::route::AddrMask;

verus! {

/// Why a piece of text is not an IPv4 address.
#[derive(Clone, Copy, Debug, PartialEq, Eq, Structural)]
pub enum IPv4ParseError {
    /// A group between two `.` is no decimal number up to 255.
    ParseByteError,
    /// The text does not hold exactly four groups.
    LengthError,
}

/// An IPv4 address: four octets in network order.
#[derive(Clone, Copy, Debug, Eq, Hash)]
pub struct IpV4Addr {
    addr: [u8; 4],
}

impl View for IpV4Addr {
    type V = Seq<u8>;

    closed spec fn view(&self) -> Seq<u8> {
        self.addr@
    }
}

impl PartialEq for IpV4Addr {
    fn eq(&self, other: &Self) -> (same: bool) {
        let same = self.addr[0] == other.addr[0] && self.addr[1] == other.addr[1] && self.addr[2]
            == other.addr[2] && self.addr[3] == other.addr[3];
        proof {
            if same {
                assert(self.addr =~= other.addr);
            }
        }
        same
    }
}

impl vstd::std_specs::cmp::PartialEqSpecImpl for IpV4Addr {
    open spec fn obeys_eq_spec() -> bool {
        true
    }

    open spec fn eq_spec(&self, other: &Self) -> bool {
        *self == *other
    }
}

impl core::str::FromStr for IpV4Addr {
    type Err = IPv4ParseError;

    /// Reads an address from its text, as `IpV4Addr::parse` does.
    fn from_str(s: &str) -> (r: Result<Self, Self::Err>)
        ensures
            r == IpV4Addr::spec_parse(s@),
    {
        IpV4Addr::parse(s)
    }
}

/// The dotted decimal form of four octets.
pub open spec fn spec_dotted(octets: Seq<u8>) -> Seq<char> {
    crate::text::spec_decimal(octets[0]) + seq!['.'] + crate::text::spec_decimal(octets[1]) + seq![
        '.',
    ] + crate::text::spec_decimal(octets[2]) + seq!['.'] + crate::text::spec_decimal(octets[3])
}

/// The dotted decimal form of four octets.
fn dotted(octets: [u8; 4]) -> (s: String)
    ensures
        s@ == spec_dotted(octets@),
        crate::text::plain_line(s@),
{
    let mut s = String::new();
    crate::text::push_decimal(&mut s, octets[0]);
    crate::text::push_char(&mut s, '.');
    crate::text::push_decimal(&mut s, octets[1]);
    crate::text::push_char(&mut s, '.');
    crate::text::push_decimal(&mut s, octets[2]);
    crate::text::push_char(&mut s, '.');
    crate::text::push_decimal(&mut s, octets[3]);
    assert(s@ =~= spec_dotted(octets@));
    s
}

impl IpV4Addr {
    /// The address as text: its four octets in decimal with `.` between
    /// them.
    pub open spec fn spec_to_string(&self) -> Seq<char> {
        spec_dotted(self@)
    }

    /// The address that the text stands for: four decimal numbers up to 255,
    /// of one to three digits each, with `.` between them. A group that is
    /// no such number is an error of its own; else any number of groups but
    /// four is.
    pub open spec fn spec_parse(s: Seq<char>) -> Result<IpV4Addr, IPv4ParseError> {
        match crate::text::spec_group_values(crate::text::spec_split(s, '.'), false) {
            None => Err(IPv4ParseError::ParseByteError),
            Some(octets) => if octets.len() != 4 {
                Err(IPv4ParseError::LengthError)
            } else {
                Ok(IpV4Addr::from_seq(octets))
            },
        }
    }

    /// The address as text, such as `192.168.0.1`.
    pub fn to_string(&self) -> (s: String)
        ensures
            s@ == self.spec_to_string(),
            crate::text::plain_line(s@),
    {
        dotted(self.addr)
    }

    /// Reads an address from its text.
    pub fn parse(s: &str) -> (r: Result<IpV4Addr, IPv4ParseError>)
        ensures
            r == IpV4Addr::spec_parse(s@),
    {
        let groups = crate::text::split(s, '.');
        match crate::text::group_values(&groups, false) {
            None => Err(IPv4ParseError::ParseByteError),
            Some(octets) => {
                if octets.len() != 4 {
                    Err(IPv4ParseError::LengthError)
                } else {
                    let a = IpV4Addr::new([octets[0], octets[1], octets[2], octets[3]]);
                    proof {
                        IpV4Addr::lemma_from_seq(octets@);
                        assert(a@ =~= octets@);
                        a.lemma_view_injective(IpV4Addr::from_seq(octets@));
                    }
                    Ok(a)
                }
            },
        }
    }

    /// The address whose octets are the first four of `s`.
    pub closed spec fn from_seq(s: Seq<u8>) -> IpV4Addr {
        IpV4Addr { addr: [s[0], s[1], s[2], s[3]] }
    }

    /// The address with the four given octets.
    pub open spec fn spec_new(a: u8, b: u8, c: u8, d: u8) -> IpV4Addr {
        IpV4Addr::from_seq(seq![a, b, c, d])
    }

    /// `255.255.255.255`, the limited broadcast address.
    pub open spec fn spec_broadcast() -> IpV4Addr {
        IpV4Addr::spec_new(255, 255, 255, 255)
    }

    /// `0.0.0.0`, the address of a host that has none yet.
    pub open spec fn spec_default() -> IpV4Addr {
        IpV4Addr::spec_new(0, 0, 0, 0)
    }

    /// `127.0.0.1`.
    pub open spec fn spec_loopback() -> IpV4Addr {
        IpV4Addr::spec_new(127, 0, 0, 1)
    }

    /// An address always has four octets.
    pub proof fn lemma_len(self)
        ensures
            self@.len() == 4,
    {
    }

    /// Two addresses with the same octets are the same address.
    pub proof fn lemma_view_injective(self, other: IpV4Addr)
        requires
            self@ == other@,
        ensures
            self == other,
    {
        assert(self.addr =~= other.addr);
    }

    /// The octets of the address built from four octets are those four.
    pub proof fn lemma_from_seq(s: Seq<u8>)
        requires
            s.len() == 4,
        ensures
            IpV4Addr::from_seq(s)@ == s,
    {
        assert(IpV4Addr::from_seq(s)@ =~= s);
    }

    /// Reading the octets of an address and building one from them gives it back.
    pub proof fn lemma_from_seq_view(self)
        ensures
            IpV4Addr::from_seq(self@) == self,
    {
        assert(IpV4Addr::from_seq(self@).addr =~= self.addr);
    }

    pub fn new(addr: [u8; 4]) -> (a: Self)
        ensures
            a@ == addr@,
    {
        Self { addr }
    }

    pub fn as_arr(self) -> (octets: [u8; 4])
        ensures
            octets@ == self@,
    {
        self.addr
    }

    pub fn as_slice(&self) -> (octets: &[u8; 4])
        ensures
            octets@ == self@,
    {
        &self.addr
    }

    /// `255.255.255.255`.
    pub fn broadcast() -> (a: Self)
        ensures
            a == IpV4Addr::spec_broadcast(),
    {
        let a = Self { addr: [255, 255, 255, 255] };
        assert(a.addr =~= IpV4Addr::spec_broadcast().addr);
        a
    }

    /// `0.0.0.0`.
    pub fn default_addr() -> (a: Self)
        ensures
            a == IpV4Addr::spec_default(),
    {
        let a = Self { addr: [0, 0, 0, 0] };
        assert(a.addr =~= IpV4Addr::spec_default().addr);
        a
    }

    /// `127.0.0.1`.
    pub fn loopback() -> (a: Self)
        ensures
            a == IpV4Addr::spec_loopback(),
    {
        let a = Self { addr: [127, 0, 0, 1] };
        assert(a.addr =~= IpV4Addr::spec_loopback().addr);
        a
    }
}

/// A network mask given by its prefix length, from 0 to 32.
#[derive(Debug, Clone, Copy, PartialEq, Eq, Hash, Structural)]
pub struct IpV4Mask(u8);

/// The octet whose `bits` most significant bits are set; `bits` is at most 8.
pub open spec fn spec_prefix_octet(bits: int) -> u8 {
    if bits <= 0 {
        0x00
    } else if bits == 1 {
        0x80
    } else if bits == 2 {
        0xc0
    } else if bits == 3 {
        0xe0
    } else if bits == 4 {
        0xf0
    } else if bits == 5 {
        0xf8
    } else if bits == 6 {
        0xfc
    } else if bits == 7 {
        0xfe
    } else {
        0xff
    }
}

fn prefix_octet(bits: u8) -> (octet: u8)
    ensures
        octet == spec_prefix_octet(bits as int),
{
    if bits == 0 {
        0x00
    } else if bits == 1 {
        0x80
    } else if bits == 2 {
        0xc0
    } else if bits == 3 {
        0xe0
    } else if bits == 4 {
        0xf0
    } else if bits == 5 {
        0xf8
    } else if bits == 6 {
        0xfc
    } else if bits == 7 {
        0xfe
    } else {
        0xff
    }
}

impl IpV4Mask {
    /// The prefix length.
    pub closed spec fn prefix_len(&self) -> u8 {
        self.0
    }

    /// The prefix length is at most 32.
    pub open spec fn wf(&self) -> bool {
        self.prefix_len() <= 32
    }

    /// The mask of the given prefix length.
    pub closed spec fn spec_new(prefix_len: u8) -> IpV4Mask {
        IpV4Mask(
            if prefix_len <= 32 {
                prefix_len
            } else {
                32
            },
        )
    }

    /// Octet `i` of the mask: the first `prefix_len` bits of the four octets
    /// are set, the others clear.
    pub open spec fn mask_octet(&self, i: int) -> u8 {
        spec_prefix_octet(self.prefix_len() - 8 * i)
    }

    /// The four octets of the mask.
    pub open spec fn spec_get_mask(&self) -> Seq<u8> {
        seq![self.mask_octet(0), self.mask_octet(1), self.mask_octet(2), self.mask_octet(3)]
    }

    /// `mask AND addr`, octet by octet.
    pub open spec fn spec_apply(&self, addr: IpV4Addr) -> IpV4Addr {
        IpV4Addr::from_seq(
            seq![
                addr@[0] & self.mask_octet(0),
                addr@[1] & self.mask_octet(1),
                addr@[2] & self.mask_octet(2),
                addr@[3] & self.mask_octet(3),
            ],
        )
    }

    /// What `spec_new` builds.
    pub proof fn lemma_spec_new(prefix_len: u8)
        ensures
            IpV4Mask::spec_new(prefix_len).wf(),
            IpV4Mask::spec_new(prefix_len).prefix_len() == if prefix_len <= 32 {
                prefix_len
            } else {
                32
            },
    {
    }

    /// Two masks of the same prefix length are the same mask.
    pub proof fn lemma_prefix_len_injective(self, other: IpV4Mask)
        requires
            self.prefix_len() == other.prefix_len(),
        ensures
            self == other,
    {
    }

    /// Masking is idempotent: masking a masked address changes nothing.
    pub proof fn lemma_apply_idempotent(self, addr: IpV4Addr)
        ensures
            self.spec_apply(self.spec_apply(addr)) == self.spec_apply(addr),
    {
        let once = self.spec_apply(addr);
        let m0 = self.mask_octet(0);
        let m1 = self.mask_octet(1);
        let m2 = self.mask_octet(2);
        let m3 = self.mask_octet(3);
        let a0 = addr@[0];
        let a1 = addr@[1];
        let a2 = addr@[2];
        let a3 = addr@[3];
        IpV4Addr::lemma_from_seq(seq![a0 & m0, a1 & m1, a2 & m2, a3 & m3]);
        assert((a0 & m0) & m0 == a0 & m0) by (bit_vector);
        assert((a1 & m1) & m1 == a1 & m1) by (bit_vector);
        assert((a2 & m2) & m2 == a2 & m2) by (bit_vector);
        assert((a3 & m3) & m3 == a3 & m3) by (bit_vector);
        assert(seq![once@[0] & m0, once@[1] & m1, once@[2] & m2, once@[3] & m3] =~= seq![
            a0 & m0,
            a1 & m1,
            a2 & m2,
            a3 & m3,
        ]);
    }

    /// The mask of the given prefix length; a length above 32 counts as 32.
    pub fn new(mask: u8) -> (m: Self)
        ensures
            m == IpV4Mask::spec_new(mask),
            m.wf(),
            m.prefix_len() == if mask <= 32 {
                mask
            } else {
                32
            },
    {
        Self(
            if mask <= 32 {
                mask
            } else {
                32
            },
        )
    }

    /// The mask as text: its four octets in decimal with `.` between them.
    pub open spec fn spec_to_string(&self) -> Seq<char> {
        spec_dotted(self.spec_get_mask())
    }

    /// The mask as text, such as `255.255.255.0`.
    pub fn to_string(&self) -> (s: String)
        ensures
            s@ == self.spec_to_string(),
            crate::text::plain_line(s@),
    {
        dotted(self.get_mask())
    }

    /// The four octets of the mask.
    pub fn get_mask(&self) -> (octets: [u8; 4])
        ensures
            octets@ == self.spec_get_mask(),
    {
        let len: u8 = self.0;
        let octets = [
            prefix_octet(len),
            prefix_octet(
                if len >= 8 {
                    len - 8
                } else {
                    0
                },
            ),
            prefix_octet(
                if len >= 16 {
                    len - 16
                } else {
                    0
                },
            ),
            prefix_octet(
                if len >= 24 {
                    len - 24
                } else {
                    0
                },
            ),
        ];
        assert(octets@ =~= self.spec_get_mask());
        octets
    }
}

impl core::ops::BitAnd<IpV4Addr> for IpV4Mask {
    type Output = IpV4Addr;

    fn bitand(self, rhs: IpV4Addr) -> (net: IpV4Addr) {
        self.mask(rhs)
    }
}

impl vstd::std_specs::ops::BitAndSpecImpl<IpV4Addr> for IpV4Mask {
    open spec fn obeys_bitand_spec() -> bool {
        true
    }

    open spec fn bitand_req(self, rhs: IpV4Addr) -> bool {
        true
    }

    open spec fn bitand_spec(self, rhs: IpV4Addr) -> IpV4Addr {
        self.spec_apply(rhs)
    }
}

impl From<u8> for IpV4Mask {
    fn from(value: u8) -> (m: Self) {
        Self::new(value)
    }
}

impl vstd::std_specs::convert::FromSpecImpl<u8> for IpV4Mask {
    open spec fn obeys_from_spec() -> bool {
        true
    }

    open spec fn from_spec(value: u8) -> Self {
        IpV4Mask::spec_new(value)
    }
}

impl AddrMask<IpV4Addr> for IpV4Mask {
    open spec fn spec_specifity(&self) -> nat {
        self.prefix_len() as nat
    }

    open spec fn spec_mask(&self, addr: IpV4Addr) -> IpV4Addr {
        self.spec_apply(addr)
    }

    fn specifity(&self) -> (s: u8) {
        self.0
    }

    fn mask(&self, addr: IpV4Addr) -> (net: IpV4Addr) {
        let m = self.get_mask();
        let net = IpV4Addr {
            addr: [addr.addr[0] & m[0], addr.addr[1] & m[1], addr.addr[2] & m[2], addr.addr[3]
                & m[3]],
        };
        assert(net.addr =~= self.spec_apply(addr).addr);
        net
    }
}

} // verus!
