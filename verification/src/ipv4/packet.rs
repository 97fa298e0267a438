//! IPv4 datagrams: the header of RFC 791 with its checksum, and the payload.

use vstd::prelude::*;
use crate::bytes::{spec_u16_at, spec_u16_be, push_u16_be, read_u16_be, copy_range};
use crate::ipv4::addr::IpV4Addr;
use crate::ipv4::checksum::{checksum, spec_checksum, with_word, lemma_checksum_verifies};
use crate::ipv4::protocol::ProtocolType;

verus! {

/// The length of a header without options.
pub const MIN_HEADER_LEN: usize = 20;

/// The most octets of options that a header can hold.
pub const MAX_OPTIONS_LEN: usize = 40;

/// Explicit congestion notification: the two low bits of the traffic class.
#[derive(Debug, Copy, Clone, PartialEq, Eq, Structural)]
pub enum Ecn {
    NotECT,
    ECT0,
    ECT1,
    CE,
}

impl Ecn {
    /// The two bits that stand for the value.
    pub open spec fn spec_code(self) -> u8 {
        match self {
            Ecn::NotECT => 0,
            Ecn::ECT0 => 1,
            Ecn::ECT1 => 2,
            Ecn::CE => 3,
        }
    }

    /// The value that the two bits `b` stand for.
    pub open spec fn spec_from_u8(b: u8) -> Option<Ecn> {
        if b == 0 {
            Some(Ecn::NotECT)
        } else if b == 1 {
            Some(Ecn::ECT0)
        } else if b == 2 {
            Some(Ecn::ECT1)
        } else if b == 3 {
            Some(Ecn::CE)
        } else {
            None
        }
    }

    pub fn from_u8(b: u8) -> (e: Option<Self>)
        ensures
            e == Ecn::spec_from_u8(b),
    {
        match b {
            0 => Some(Self::NotECT),
            1 => Some(Self::ECT0),
            2 => Some(Self::ECT1),
            3 => Some(Self::CE),
            _ => None,
        }
    }

    /// The two bits that stand for the value.
    pub fn code(self) -> (b: u8)
        ensures
            b == self.spec_code(),
            Ecn::spec_from_u8(b) == Some(self),
    {
        match self {
            Self::NotECT => 0,
            Self::ECT0 => 1,
            Self::ECT1 => 2,
            Self::CE => 3,
        }
    }
}

/// The bit of `Flags` that forbids fragmenting.
pub const DF: u8 = 0b010;

/// The bit of `Flags` that says more fragments follow.
pub const MF: u8 = 0b001;

/// The fragmentation flags of a header. Of its three bits on the wire the
/// highest is reserved and always clear.
#[derive(Debug, Copy, Clone, PartialEq, Eq, Structural)]
pub struct Flags {
    pub bits: u8,
}

impl Flags {
    /// Only the two defined bits may be set.
    pub open spec fn wf(self) -> bool {
        self.bits < 4
    }

    /// No flag set.
    pub fn empty() -> (f: Self)
        ensures
            f == (Flags { bits: 0 }),
    {
        Self { bits: 0 }
    }

    /// The flags that `bits` stands for; `None` where a bit is set that is
    /// not a flag.
    pub fn from_bits(bits: u8) -> (f: Option<Self>)
        ensures
            f == if bits < 4 {
                Some(Flags { bits })
            } else {
                None
            },
    {
        if bits < 4 {
            Some(Self { bits })
        } else {
            None
        }
    }

    pub fn bits(self) -> (b: u8)
        ensures
            b == self.bits,
    {
        self.bits
    }

    /// Whether fragmenting is forbidden.
    pub fn dont_fragment(self) -> (b: bool)
        ensures
            b == ((self.bits / 2) % 2 == 1),
    {
        (self.bits / 2) % 2 == 1
    }

    /// Whether more fragments follow.
    pub fn more_fragments(self) -> (b: bool)
        ensures
            b == (self.bits % 2 == 1),
    {
        self.bits % 2 == 1
    }
}

/// What a header holds, as mathematical values.
pub ghost struct Ipv4HeaderView {
    pub dscp: u8,
    pub ecn: Ecn,
    pub total_length: u16,
    pub identification: u16,
    pub flags: Flags,
    pub fragment_offset: u16,
    pub time_to_live: u8,
    pub protocol: ProtocolType,
    pub destination: IpV4Addr,
    pub source: IpV4Addr,
    pub options: Seq<u8>,
}

/// The header of an IPv4 datagram. Version and header length are not stored:
/// the version is 4 and the length follows from the options.
#[derive(Debug, PartialEq, Eq)]
pub struct IpV4Header {
    /// Differentiated services code point, 6 bits.
    pub dscp: u8,
    /// Explicit congestion notification.
    pub ecn: Ecn,
    /// Length of header and payload together.
    pub total_length: u16,
    pub identification: u16,
    pub flags: Flags,
    /// In units of 8 octets, 13 bits.
    pub fragment_offset: u16,
    pub time_to_live: u8,
    pub protocol: ProtocolType,
    pub destination: IpV4Addr,
    pub source: IpV4Addr,
    /// A multiple of 4 octets, at most 40.
    pub options: Vec<u8>,
}

impl Ipv4HeaderView {
    /// The options fill whole 32-bit words and fit the header length field.
    pub open spec fn options_fit(self) -> bool {
        self.options.len() % 4 == 0 && self.options.len() <= MAX_OPTIONS_LEN
    }

    /// Every field fits its width on the wire, and the total length covers
    /// the header.
    pub open spec fn wf(self) -> bool {
        &&& self.options_fit()
        &&& self.dscp < 64
        &&& self.flags.wf()
        &&& self.fragment_offset < 8192
        &&& self.total_length >= self.header_len()
    }

    /// The length of the header in octets.
    pub open spec fn header_len(self) -> nat {
        20 + self.options.len()
    }

    /// The header on the wire with `checksum` in its checksum field. A code
    /// point, flags or an offset wider than the field are cut to its width.
    pub open spec fn encode_with(self, checksum: u16) -> Seq<u8> {
        seq![
            (0x40 + self.header_len() / 4) as u8,
            ((self.dscp % 64) * 4 + self.ecn.spec_code()) as u8,
        ] + spec_u16_be(self.total_length) + spec_u16_be(self.identification) + spec_u16_be(
            ((self.flags.bits % 8) * 8192 + self.fragment_offset % 8192) as u16,
        ) + seq![self.time_to_live, self.protocol.0] + spec_u16_be(checksum) + self.source@
            + self.destination@ + self.options
    }

    /// The header on the wire: its checksum field holds the checksum of the
    /// header computed with that field cleared.
    pub open spec fn encode(self) -> Seq<u8> {
        self.encode_with(spec_checksum(self.encode_with(0)))
    }

    /// The header at the start of `s` and its length, if `s` starts with one:
    /// version 4, a header length of at least 5 words that `s` holds, a total
    /// length that `s` holds and that covers the header, the reserved flag
    /// clear, and a checksum that verifies.
    pub open spec fn decode(s: Seq<u8>) -> Option<(Ipv4HeaderView, nat)> {
        if s.len() < 20 {
            None
        } else {
            let header_len = (s[0] % 16) * 4;
            let total_length = spec_u16_at(s, 2);
            let flags_and_offset = spec_u16_at(s, 6);
            if s[0] / 16 != 4 || header_len < 20 || header_len > s.len() || total_length > s.len()
                || total_length < header_len || flags_and_offset / 8192 >= 4 || spec_checksum(
                s.subrange(0, header_len as int),
            ) != 0 {
                None
            } else {
                Some(
                    (
                        Ipv4HeaderView {
                            dscp: s[1] / 4,
                            ecn: Ecn::spec_from_u8(s[1] % 4).unwrap(),
                            total_length,
                            identification: spec_u16_at(s, 4),
                            flags: Flags { bits: (flags_and_offset / 8192) as u8 },
                            fragment_offset: flags_and_offset % 8192,
                            time_to_live: s[8],
                            protocol: ProtocolType(s[9]),
                            source: IpV4Addr::from_seq(s.subrange(12, 16)),
                            destination: IpV4Addr::from_seq(s.subrange(16, 20)),
                            options: s.subrange(20, header_len as int),
                        },
                        header_len as nat,
                    ),
                )
            }
        }
    }

    /// The header that `IpV4Header::new` builds for a payload of
    /// `payload_length` octets.
    pub open spec fn spec_new(
        dscp: u8,
        ecn: Ecn,
        payload_length: u16,
        identification: u16,
        flags: Flags,
        fragment_offset: u16,
        time_to_live: u8,
        protocol: ProtocolType,
        destination: IpV4Addr,
        source: IpV4Addr,
        options: Seq<u8>,
    ) -> Ipv4HeaderView {
        Ipv4HeaderView {
            dscp,
            ecn,
            total_length: (payload_length + 20 + options.len()) as u16,
            identification,
            flags,
            fragment_offset,
            time_to_live,
            protocol,
            destination,
            source,
            options,
        }
    }

    /// A header built by `IpV4Header::new` from fields that fit their width,
    /// encoded and followed by a payload of the length it was built for,
    /// decodes to itself.
    pub proof fn lemma_new_roundtrip(
        dscp: u8,
        ecn: Ecn,
        payload_length: u16,
        identification: u16,
        flags: Flags,
        fragment_offset: u16,
        time_to_live: u8,
        protocol: ProtocolType,
        destination: IpV4Addr,
        source: IpV4Addr,
        options: Seq<u8>,
        payload: Seq<u8>,
    )
        requires
            dscp < 64,
            flags.wf(),
            fragment_offset < 8192,
            options.len() % 4 == 0,
            options.len() <= MAX_OPTIONS_LEN,
            payload_length + 20 + options.len() <= u16::MAX,
            payload.len() == payload_length,
        ensures
            Ipv4HeaderView::decode(
                Ipv4HeaderView::spec_new(
                    dscp,
                    ecn,
                    payload_length,
                    identification,
                    flags,
                    fragment_offset,
                    time_to_live,
                    protocol,
                    destination,
                    source,
                    options,
                ).encode() + payload,
            ) == Some(
                (
                    Ipv4HeaderView::spec_new(
                        dscp,
                        ecn,
                        payload_length,
                        identification,
                        flags,
                        fragment_offset,
                        time_to_live,
                        protocol,
                        destination,
                        source,
                        options,
                    ),
                    20 + options.len(),
                ),
            ),
    {
        let h = Ipv4HeaderView::spec_new(
            dscp,
            ecn,
            payload_length,
            identification,
            flags,
            fragment_offset,
            time_to_live,
            protocol,
            destination,
            source,
            options,
        );
        h.lemma_decode_encode(payload);
    }

    /// Whatever decodes is well formed, and its header ends where the
    /// decoder says.
    pub proof fn lemma_decode_wf(s: Seq<u8>)
        requires
            Ipv4HeaderView::decode(s) is Some,
        ensures
            Ipv4HeaderView::decode(s).unwrap().0.wf(),
            Ipv4HeaderView::decode(s).unwrap().1 == Ipv4HeaderView::decode(
                s,
            ).unwrap().0.header_len(),
    {
    }

    /// The encoding with a given checksum is the encoding with a cleared one
    /// but for the checksum word.
    pub proof fn lemma_encode_with(self, checksum: u16)
        ensures
            self.encode_with(checksum).len() == self.header_len(),
            self.encode_with(checksum) == with_word(self.encode_with(0), 10, checksum),
            with_word(self.encode_with(checksum), 10, 0) == self.encode_with(0),
    {
        self.source.lemma_len();
        self.destination.lemma_len();
        assert(self.encode_with(checksum) =~= with_word(self.encode_with(0), 10, checksum));
        assert(with_word(self.encode_with(checksum), 10, 0) =~= self.encode_with(0));
    }

    /// The checksum of an encoded header verifies: summed with its checksum
    /// field in place, the header's checksum is zero.
    pub proof fn lemma_encode_checksum(self)
        requires
            self.options_fit(),
        ensures
            spec_checksum(self.encode()) == 0,
    {
        let zero = self.encode_with(0);
        self.lemma_encode_with(0);
        self.lemma_encode_with(spec_checksum(zero));
        assert(with_word(zero, 10, 0) =~= zero);
        lemma_checksum_verifies(zero, 10);
    }

    /// Decoding the encoding of a header gives the header back, whatever
    /// follows it, as long as the octets make up its total length.
    #[verifier::rlimit(50)]
    pub proof fn lemma_decode_encode(self, rest: Seq<u8>)
        requires
            self.wf(),
            self.total_length <= self.header_len() + rest.len(),
        ensures
            Ipv4HeaderView::decode(self.encode() + rest) == Some((self, self.header_len())),
    {
        let c = spec_checksum(self.encode_with(0));
        let e = self.encode();
        let s = e + rest;
        self.lemma_encode_with(c);
        self.lemma_encode_checksum();
        self.source.lemma_len();
        self.destination.lemma_len();
        let hl = self.header_len() as int;
        assert(s[0] == (0x40 + self.header_len() / 4) as u8);
        assert(s[0] % 16 == self.header_len() / 4);
        assert(s[0] / 16 == 4);
        assert(s.subrange(0, hl) =~= e);
        assert(s[1] == ((self.dscp % 64) * 4 + self.ecn.spec_code()) as u8);
        assert(s[1] / 4 == self.dscp);
        assert(s[1] % 4 == self.ecn.spec_code());
        crate::bytes::lemma_u16_be_roundtrip(self.total_length);
        crate::bytes::lemma_u16_be_roundtrip(self.identification);
        let fo = ((self.flags.bits % 8) * 8192 + self.fragment_offset % 8192) as u16;
        crate::bytes::lemma_u16_be_roundtrip(fo);
        assert(s[2] == spec_u16_be(self.total_length)[0]);
        assert(s[3] == spec_u16_be(self.total_length)[1]);
        assert(s[4] == spec_u16_be(self.identification)[0]);
        assert(s[5] == spec_u16_be(self.identification)[1]);
        assert(s[6] == spec_u16_be(fo)[0]);
        assert(s[7] == spec_u16_be(fo)[1]);
        assert(spec_u16_at(s, 6) == fo);
        assert(fo / 8192 == self.flags.bits);
        assert(fo % 8192 == self.fragment_offset);
        assert(s[8] == self.time_to_live);
        assert(s[9] == self.protocol.0);
        assert(s.subrange(12, 16) =~= self.source@);
        assert(s.subrange(16, 20) =~= self.destination@);
        self.source.lemma_from_seq_view();
        self.destination.lemma_from_seq_view();
        assert(s.subrange(20, hl) =~= self.options);
    }
}

impl View for IpV4Header {
    type V = Ipv4HeaderView;

    open spec fn view(&self) -> Ipv4HeaderView {
        Ipv4HeaderView {
            dscp: self.dscp,
            ecn: self.ecn,
            total_length: self.total_length,
            identification: self.identification,
            flags: self.flags,
            fragment_offset: self.fragment_offset,
            time_to_live: self.time_to_live,
            protocol: self.protocol,
            destination: self.destination,
            source: self.source,
            options: self.options@,
        }
    }
}

impl Clone for IpV4Header {
    fn clone(&self) -> (copy: Self)
        ensures
            copy@ == self@,
    {
        Self {
            dscp: self.dscp,
            ecn: self.ecn,
            total_length: self.total_length,
            identification: self.identification,
            flags: self.flags,
            fragment_offset: self.fragment_offset,
            time_to_live: self.time_to_live,
            protocol: self.protocol,
            destination: self.destination,
            source: self.source,
            options: self.options.clone(),
        }
    }
}

impl IpV4Header {
    /// A header for a payload of `payload_length` octets.
    pub fn new(
        dscp: u8,
        ecn: Ecn,
        payload_length: u16,
        identification: u16,
        flags: Flags,
        fragment_offset: u16,
        time_to_live: u8,
        protocol: ProtocolType,
        destination: IpV4Addr,
        source: IpV4Addr,
        options: Vec<u8>,
    ) -> (h: Self)
        requires
            payload_length + 20 + options@.len() <= u16::MAX,
        ensures
            h@ == Ipv4HeaderView::spec_new(
                dscp,
                ecn,
                payload_length,
                identification,
                flags,
                fragment_offset,
                time_to_live,
                protocol,
                destination,
                source,
                options@,
            ),
    {
        let total_length: u16 = payload_length + 20 + options.len() as u16;
        Self {
            dscp,
            ecn,
            total_length,
            identification,
            flags,
            fragment_offset,
            time_to_live,
            protocol,
            destination,
            source,
            options,
        }
    }

    /// Whether the options fill whole words and fit the header: the condition
    /// under which the header can be encoded.
    pub fn options_fit(&self) -> (b: bool)
        ensures
            b == self@.options_fit(),
    {
        self.options.len() % 4 == 0 && self.options.len() <= MAX_OPTIONS_LEN
    }

    /// The checksum of the header encoded with `extra` in its checksum
    /// field: zero where `extra` is the header's checksum.
    pub fn get_checksum(&self, extra: u16) -> (c: u16)
        requires
            self@.options_fit(),
        ensures
            c == spec_checksum(self@.encode_with(extra)),
    {
        let bytes = self.to_vec_checksum(extra);
        proof {
            self@.lemma_encode_with(extra);
        }
        checksum(bytes.as_slice())
    }

    /// Decodes the header at the start of `data` and gives its length too.
    #[verifier::rlimit(50)]
    pub fn from_vec(data: &[u8]) -> (r: Option<(Self, usize)>)
        ensures
            r is Some == Ipv4HeaderView::decode(data@) is Some,
            r is Some ==> (r.unwrap().0@, r.unwrap().1 as nat) == Ipv4HeaderView::decode(
                data@,
            ).unwrap(),
    {
        if data.len() < MIN_HEADER_LEN {
            return None;
        }
        if data[0] / 16 != 4 {
            return None;
        }
        let header_len: usize = (data[0] % 16) as usize * 4;
        if header_len < MIN_HEADER_LEN || data.len() < header_len {
            return None;
        }
        let total_length: u16 = read_u16_be(data, 2);
        if data.len() < total_length as usize || (total_length as usize) < header_len {
            return None;
        }
        let flags_and_offset: u16 = read_u16_be(data, 6);
        let flags = match Flags::from_bits((flags_and_offset / 8192) as u8) {
            Some(flags) => flags,
            None => {
                return None;
            },
        };
        if checksum(vstd::slice::slice_subrange(data, 0, header_len)) != 0 {
            return None;
        }
        let ecn = match Ecn::from_u8(data[1] % 4) {
            Some(ecn) => ecn,
            None => {
                return None;
            },
        };
        let source = IpV4Addr::new([data[12], data[13], data[14], data[15]]);
        let destination = IpV4Addr::new([data[16], data[17], data[18], data[19]]);
        proof {
            IpV4Addr::lemma_from_seq(data@.subrange(12, 16));
            IpV4Addr::lemma_from_seq(data@.subrange(16, 20));
            assert(source@ =~= data@.subrange(12, 16));
            assert(destination@ =~= data@.subrange(16, 20));
            source.lemma_view_injective(IpV4Addr::from_seq(data@.subrange(12, 16)));
            destination.lemma_view_injective(IpV4Addr::from_seq(data@.subrange(16, 20)));
        }
        let res = Self {
            dscp: data[1] / 4,
            ecn,
            total_length,
            identification: read_u16_be(data, 4),
            flags,
            fragment_offset: flags_and_offset % 8192,
            time_to_live: data[8],
            protocol: ProtocolType::new(data[9]),
            destination,
            source,
            options: copy_range(data, MIN_HEADER_LEN, header_len),
        };
        Some((res, header_len))
    }

    /// The header on the wire with `checksum` in its checksum field.
    pub fn to_vec_checksum(&self, checksum: u16) -> (v: Vec<u8>)
        requires
            self@.options_fit(),
        ensures
            v@ == self@.encode_with(checksum),
    {
        let mut vec: Vec<u8> = Vec::new();
        let ihl: u8 = ((MIN_HEADER_LEN + self.options.len()) / 4) as u8;
        vec.push(0x40 + ihl);
        vec.push((self.dscp % 64) * 4 + self.ecn.code());
        push_u16_be(&mut vec, self.total_length);
        push_u16_be(&mut vec, self.identification);
        push_u16_be(&mut vec, (self.flags.bits() % 8) as u16 * 8192 + self.fragment_offset % 8192);
        vec.push(self.time_to_live);
        vec.push(self.protocol.inner());
        push_u16_be(&mut vec, checksum);
        vec.extend_from_slice(self.source.as_slice().as_slice());
        vec.extend_from_slice(self.destination.as_slice().as_slice());
        vec.extend_from_slice(self.options.as_slice());
        assert(vec@ =~= self@.encode_with(checksum));
        vec
    }

    /// The header on the wire, its checksum filled in.
    pub fn to_vec(&self) -> (v: Vec<u8>)
        requires
            self@.options_fit(),
        ensures
            v@ == self@.encode(),
    {
        self.to_vec_checksum(self.get_checksum(0))
    }
}

/// What a datagram holds, as mathematical values.
pub ghost struct Ipv4Datagram {
    pub header: Ipv4HeaderView,
    pub payload: Seq<u8>,
}

impl Ipv4Datagram {
    /// The header is well formed and its total length is that of header and
    /// payload.
    pub open spec fn wf(self) -> bool {
        self.header.wf() && self.header.total_length == self.header.header_len()
            + self.payload.len()
    }

    /// The datagram on the wire: its header, then its payload.
    pub open spec fn encode(self) -> Seq<u8> {
        self.header.encode() + self.payload
    }

    /// The datagram at the start of `s`, if `s` starts with one: its payload
    /// lies between the header's end and the total length.
    pub open spec fn decode(s: Seq<u8>) -> Option<Ipv4Datagram> {
        match Ipv4HeaderView::decode(s) {
            Some((header, header_len)) => Some(
                Ipv4Datagram {
                    header,
                    payload: s.subrange(header_len as int, header.total_length as int),
                },
            ),
            None => None,
        }
    }

    /// Whatever decodes is well formed.
    pub proof fn lemma_decode_wf(s: Seq<u8>)
        requires
            Ipv4Datagram::decode(s) is Some,
        ensures
            Ipv4Datagram::decode(s).unwrap().wf(),
    {
        Ipv4HeaderView::lemma_decode_wf(s);
    }

    /// Decoding the encoding of a datagram gives the datagram back.
    pub proof fn lemma_decode_encode(self)
        requires
            self.wf(),
        ensures
            Ipv4Datagram::decode(self.encode()) == Some(self),
    {
        self.header.lemma_decode_encode(self.payload);
        self.header.lemma_encode_with(spec_checksum(self.header.encode_with(0)));
        let s = self.encode();
        assert(s.subrange(self.header.header_len() as int, self.header.total_length as int)
            =~= self.payload);
    }
}

/// What a router quotes of a datagram it drops: the octets of its header and
/// the first 8 octets of its payload, or all of the payload where it is
/// shorter. `s` holds the datagram, which decodes.
pub open spec fn spec_quote(s: Seq<u8>) -> Seq<u8> {
    let d = Ipv4Datagram::decode(s).unwrap();
    let header_len = d.header.header_len() as int;
    let quoted = if d.payload.len() < 8 {
        d.payload.len() as int
    } else {
        8int
    };
    s.subrange(0, header_len + quoted)
}

/// The header with its TTL one less. The TTL is not zero.
pub open spec fn spec_decrement_ttl(h: Ipv4HeaderView) -> Ipv4HeaderView {
    Ipv4HeaderView { time_to_live: (h.time_to_live - 1) as u8, ..h }
}

/// The header that the host `source` gives a payload of `len` octets for
/// `destination`: no options, no fragmentation, the TTL asked for or 255.
pub open spec fn spec_fresh_header(
    source: IpV4Addr,
    destination: IpV4Addr,
    ttl: Option<u8>,
    protocol: u8,
    len: nat,
) -> Ipv4HeaderView {
    Ipv4HeaderView {
        dscp: 0,
        ecn: Ecn::NotECT,
        total_length: (len + 20) as u16,
        identification: 0,
        flags: Flags { bits: 0 },
        fragment_offset: 0,
        time_to_live: match ttl {
            Some(ttl) => ttl,
            None => 255,
        },
        protocol: ProtocolType(protocol),
        destination,
        source,
        options: Seq::empty(),
    }
}

/// The most octets of payload that fit a datagram without options.
pub const MAX_PAYLOAD: usize = 65515;

/// An IPv4 datagram.
#[derive(Debug, PartialEq, Eq)]
pub struct Ipv4Packet {
    pub header: IpV4Header,
    pub payload: Vec<u8>,
}

impl View for Ipv4Packet {
    type V = Ipv4Datagram;

    open spec fn view(&self) -> Ipv4Datagram {
        Ipv4Datagram { header: self.header@, payload: self.payload@ }
    }
}

impl Clone for Ipv4Packet {
    fn clone(&self) -> (copy: Self)
        ensures
            copy@ == self@,
    {
        Self { header: self.header.clone(), payload: self.payload.clone() }
    }
}

impl Ipv4Packet {
    pub fn new(header: IpV4Header, payload: Vec<u8>) -> (p: Self)
        ensures
            p@ == (Ipv4Datagram { header: header@, payload: payload@ }),
    {
        Self { header, payload }
    }

    pub fn from_vec(data: &[u8]) -> (r: Option<Self>)
        ensures
            r is Some == Ipv4Datagram::decode(data@) is Some,
            r is Some ==> r.unwrap()@ == Ipv4Datagram::decode(data@).unwrap(),
    {
        let (header, left) = match IpV4Header::from_vec(data) {
            Some(found) => found,
            None => {
                return None;
            },
        };
        let end: usize = header.total_length as usize;
        let payload = copy_range(data, left, end);
        Some(Self::new(header, payload))
    }

    pub fn to_vec(&self) -> (v: Vec<u8>)
        requires
            self@.header.options_fit(),
        ensures
            v@ == self@.encode(),
    {
        let mut vec = self.header.to_vec();
        vec.extend_from_slice(self.payload.as_slice());
        vec
    }

    /// The datagram that the host `source` sends `destination` with the
    /// given payload: no options, no fragmentation, the TTL asked for or
    /// 255.
    pub fn fresh(
        source: IpV4Addr,
        destination: IpV4Addr,
        ttl: Option<u8>,
        protocol: ProtocolType,
        payload: Vec<u8>,
    ) -> (p: Self)
        requires
            payload@.len() <= MAX_PAYLOAD,
        ensures
            p@ == (Ipv4Datagram {
                header: spec_fresh_header(source, destination, ttl, protocol.0, payload@.len()),
                payload: payload@,
            }),
            p@.wf(),
    {
        let time_to_live: u8 = match ttl {
            Some(ttl) => ttl,
            None => 255,
        };
        let header = IpV4Header::new(
            0,
            Ecn::NotECT,
            payload.len() as u16,
            0,
            Flags::empty(),
            0,
            time_to_live,
            protocol,
            destination,
            source,
            Vec::new(),
        );
        assert(header@.options =~= Seq::<u8>::empty());
        Self { header, payload }
    }

    /// Decodes the datagram at the start of `data` and quotes it as a router
    /// that drops it does: its header and the first 8 octets of its payload.
    pub fn from_vec_quoted(data: &[u8]) -> (r: Option<(Self, Vec<u8>)>)
        ensures
            r is Some == Ipv4Datagram::decode(data@) is Some,
            r is Some ==> r.unwrap().0@ == Ipv4Datagram::decode(data@).unwrap(),
            r is Some ==> r.unwrap().1@ == spec_quote(data@),
    {
        let (header, left) = match IpV4Header::from_vec(data) {
            Some(found) => found,
            None => {
                return None;
            },
        };
        let end: usize = header.total_length as usize;
        let quoted: usize = if end - left < 8 {
            end
        } else {
            left + 8
        };
        let payload = copy_range(data, left, end);
        let quote = copy_range(data, 0, quoted);
        Some((Self::new(header, payload), quote))
    }
}

} // verus!
