//! ARP packets of RFC 826.

use vstd::prelude::*;
use crate::bytes::{spec_u16_at, spec_u16_be, push_u16_be, read_u16_be, copy_range};
use crate::ethernet::ethertype::{EtherType, IP_V4, IP_V6};

verus! {

/// Hardware type of Ethernet.
pub const HTYPE_ETHERNET: u16 = 1;

/// What an ARP packet asks for or answers.
#[derive(Debug, Clone, Copy, PartialEq, Eq, Structural)]
pub enum Operation {
    Request,
    Reply,
}

impl Operation {
    /// The operation's number on the wire.
    pub open spec fn spec_code(self) -> u16 {
        match self {
            Operation::Request => 1,
            Operation::Reply => 2,
        }
    }

    /// The operation of the given number.
    pub open spec fn spec_from_u16(b: u16) -> Option<Operation> {
        if b == 1 {
            Some(Operation::Request)
        } else if b == 2 {
            Some(Operation::Reply)
        } else {
            None
        }
    }

    pub fn from_u16(b: u16) -> (op: Option<Self>)
        ensures
            op == Operation::spec_from_u16(b),
    {
        match b {
            1 => Some(Self::Request),
            2 => Some(Self::Reply),
            _ => None,
        }
    }

    /// The operation's number on the wire.
    pub fn code(self) -> (b: u16)
        ensures
            b == self.spec_code(),
            Operation::spec_from_u16(b) == Some(self),
    {
        match self {
            Self::Request => 1,
            Self::Reply => 2,
        }
    }
}

/// The length of a hardware address of the given type, where it is known.
pub open spec fn spec_hardware_len(htype: u16) -> Option<u8> {
    if htype == HTYPE_ETHERNET {
        Some(6u8)
    } else {
        None
    }
}

/// The length of a protocol address of the given type, where it is known.
pub open spec fn spec_protocol_len(ptype: EtherType) -> Option<u8> {
    if ptype.0 == IP_V4 {
        Some(4u8)
    } else if ptype.0 == IP_V6 {
        Some(16u8)
    } else {
        None
    }
}

/// The length of a hardware address of the given type: 6 for Ethernet.
pub fn get_hardware_len(htype: u16) -> (len: Option<u8>)
    ensures
        len == spec_hardware_len(htype),
{
    if htype == HTYPE_ETHERNET {
        Some(6)
    } else {
        None
    }
}

/// The length of a protocol address of the given type: 4 for IPv4, 16 for
/// IPv6.
pub fn get_protocol_len(ptype: EtherType) -> (len: Option<u8>)
    ensures
        len == spec_protocol_len(ptype),
{
    if ptype.to_u16() == IP_V4 {
        Some(4)
    } else if ptype.to_u16() == IP_V6 {
        Some(16)
    } else {
        None
    }
}

/// What an ARP packet holds, as mathematical values.
pub ghost struct ArpMessage {
    pub htype: u16,
    pub ptype: EtherType,
    pub hlen: u8,
    pub plen: u8,
    pub operation: Operation,
    pub sha: Seq<u8>,
    pub spa: Seq<u8>,
    pub tha: Seq<u8>,
    pub tpa: Seq<u8>,
}

/// An ARP packet.
#[derive(Debug, PartialEq, Eq)]
pub struct ArpPacket {
    /// 1 for Ethernet.
    pub htype: u16,
    pub ptype: EtherType,
    /// Length of a hardware address: 6 for a MAC.
    pub hlen: u8,
    /// Length of a protocol address: 4 for IPv4.
    pub plen: u8,
    pub operation: Operation,
    pub sender_harware_address: Vec<u8>,
    pub sender_protocol_address: Vec<u8>,
    pub target_harware_address: Vec<u8>,
    pub target_protocol_address: Vec<u8>,
}

impl ArpMessage {
    /// Each address has the length that the packet declares for its kind.
    pub open spec fn wf(self) -> bool {
        &&& self.sha.len() == self.hlen
        &&& self.spa.len() == self.plen
        &&& self.tha.len() == self.hlen
        &&& self.tpa.len() == self.plen
    }

    /// The packet on the wire.
    pub open spec fn encode(self) -> Seq<u8> {
        spec_u16_be(self.htype) + spec_u16_be(self.ptype.0) + seq![self.hlen, self.plen]
            + spec_u16_be(self.operation.spec_code()) + self.sha + self.spa + self.tha + self.tpa
    }

    /// The packet that `s` encodes, if it encodes one: a known operation, and
    /// exactly the 8 octets of the fixed part and the four addresses of the
    /// lengths declared.
    pub open spec fn decode(s: Seq<u8>) -> Option<ArpMessage> {
        if s.len() < 8 {
            None
        } else {
            let hlen = s[4];
            let plen = s[5];
            if Operation::spec_from_u16(spec_u16_at(s, 6)) is None || s.len() != 8 + 2 * hlen + 2
                * plen {
                None
            } else {
                Some(
                    ArpMessage {
                        htype: spec_u16_at(s, 0),
                        ptype: EtherType(spec_u16_at(s, 2)),
                        hlen,
                        plen,
                        operation: Operation::spec_from_u16(spec_u16_at(s, 6)).unwrap(),
                        sha: s.subrange(8, 8 + hlen),
                        spa: s.subrange(8 + hlen, 8 + hlen + plen),
                        tha: s.subrange(8 + hlen + plen, 8 + 2 * hlen + plen),
                        tpa: s.subrange(8 + 2 * hlen + plen, 8 + 2 * hlen + 2 * plen),
                    },
                )
            }
        }
    }

    /// Whatever decodes is well formed.
    pub proof fn lemma_decode_wf(s: Seq<u8>)
        requires
            ArpMessage::decode(s) is Some,
        ensures
            ArpMessage::decode(s).unwrap().wf(),
    {
    }

    /// Decoding the encoding of a packet gives the packet back.
    #[verifier::rlimit(50)]
    pub proof fn lemma_decode_encode(self)
        requires
            self.wf(),
        ensures
            ArpMessage::decode(self.encode()) == Some(self),
    {
        let s = self.encode();
        let h = self.hlen as int;
        let p = self.plen as int;
        crate::bytes::lemma_u16_be_roundtrip(self.htype);
        crate::bytes::lemma_u16_be_roundtrip(self.ptype.0);
        crate::bytes::lemma_u16_be_roundtrip(self.operation.spec_code());
        assert(s[0] == spec_u16_be(self.htype)[0] && s[1] == spec_u16_be(self.htype)[1]);
        assert(s[2] == spec_u16_be(self.ptype.0)[0] && s[3] == spec_u16_be(self.ptype.0)[1]);
        assert(s[4] == self.hlen && s[5] == self.plen);
        assert(s[6] == spec_u16_be(self.operation.spec_code())[0]);
        assert(s[7] == spec_u16_be(self.operation.spec_code())[1]);
        assert(s.subrange(8, 8 + h) =~= self.sha);
        assert(s.subrange(8 + h, 8 + h + p) =~= self.spa);
        assert(s.subrange(8 + h + p, 8 + 2 * h + p) =~= self.tha);
        assert(s.subrange(8 + 2 * h + p, 8 + 2 * h + 2 * p) =~= self.tpa);
    }
}

impl View for ArpPacket {
    type V = ArpMessage;

    open spec fn view(&self) -> ArpMessage {
        ArpMessage {
            htype: self.htype,
            ptype: self.ptype,
            hlen: self.hlen,
            plen: self.plen,
            operation: self.operation,
            sha: self.sender_harware_address@,
            spa: self.sender_protocol_address@,
            tha: self.target_harware_address@,
            tpa: self.target_protocol_address@,
        }
    }
}

/// `n` zero octets.
fn zeros(n: usize) -> (v: Vec<u8>)
    ensures
        v@ == Seq::new(n as nat, |i: int| 0u8),
{
    let mut v: Vec<u8> = Vec::new();
    let mut i: usize = 0;
    while i < n
        invariant
            i <= n,
            v@ == Seq::new(i as nat, |j: int| 0u8),
        decreases n - i,
    {
        v.push(0);
        i += 1;
        assert(v@ =~= Seq::new(i as nat, |j: int| 0u8));
    }
    v
}

impl ArpPacket {
    /// A request for the hardware address of `tpa`. The target hardware
    /// address is left zero. The address lengths must be those of the two
    /// types, which must be known.
    pub fn new_request(htype: u16, ptype: EtherType, sha: Vec<u8>, spa: Vec<u8>, tpa: Vec<u8>) -> (p:
        Self)
        requires
            spec_hardware_len(htype) is Some,
            spec_protocol_len(ptype) is Some,
            sha@.len() == spec_hardware_len(htype).unwrap(),
            spa@.len() == spec_protocol_len(ptype).unwrap(),
            tpa@.len() == spec_protocol_len(ptype).unwrap(),
        ensures
            p@ == (ArpMessage {
                htype,
                ptype,
                hlen: spec_hardware_len(htype).unwrap(),
                plen: spec_protocol_len(ptype).unwrap(),
                operation: Operation::Request,
                sha: sha@,
                spa: spa@,
                tha: Seq::new(spec_hardware_len(htype).unwrap() as nat, |i: int| 0u8),
                tpa: tpa@,
            }),
            p@.wf(),
    {
        let hlen: u8 = get_hardware_len(htype).unwrap();
        let plen: u8 = get_protocol_len(ptype).unwrap();
        Self {
            htype,
            ptype,
            hlen,
            plen,
            operation: Operation::Request,
            sender_harware_address: sha,
            sender_protocol_address: spa,
            target_harware_address: zeros(hlen as usize),
            target_protocol_address: tpa,
        }
    }

    /// A reply that tells `tha`/`tpa` the hardware address `sha` of `spa`.
    /// The address lengths must be those of the two types, which must be
    /// known.
    pub fn new_reply(
        htype: u16,
        ptype: EtherType,
        sha: Vec<u8>,
        spa: Vec<u8>,
        tha: Vec<u8>,
        tpa: Vec<u8>,
    ) -> (p: Self)
        requires
            spec_hardware_len(htype) is Some,
            spec_protocol_len(ptype) is Some,
            sha@.len() == spec_hardware_len(htype).unwrap(),
            spa@.len() == spec_protocol_len(ptype).unwrap(),
            tha@.len() == spec_hardware_len(htype).unwrap(),
            tpa@.len() == spec_protocol_len(ptype).unwrap(),
        ensures
            p@ == (ArpMessage {
                htype,
                ptype,
                hlen: spec_hardware_len(htype).unwrap(),
                plen: spec_protocol_len(ptype).unwrap(),
                operation: Operation::Reply,
                sha: sha@,
                spa: spa@,
                tha: tha@,
                tpa: tpa@,
            }),
            p@.wf(),
    {
        let hlen: u8 = get_hardware_len(htype).unwrap();
        let plen: u8 = get_protocol_len(ptype).unwrap();
        Self {
            htype,
            ptype,
            hlen,
            plen,
            operation: Operation::Reply,
            sender_harware_address: sha,
            sender_protocol_address: spa,
            target_harware_address: tha,
            target_protocol_address: tpa,
        }
    }

    #[verifier::rlimit(50)]
    pub fn from_vec(data: &[u8]) -> (r: Option<Self>)
        ensures
            r is Some == ArpMessage::decode(data@) is Some,
            r is Some ==> r.unwrap()@ == ArpMessage::decode(data@).unwrap(),
    {
        if data.len() < 8 {
            return None;
        }
        let htype: u16 = read_u16_be(data, 0);
        let ptype = EtherType::from_u16(read_u16_be(data, 2));
        let hlen: u8 = data[4];
        let plen: u8 = data[5];
        let operation = match Operation::from_u16(read_u16_be(data, 6)) {
            Some(operation) => operation,
            None => {
                return None;
            },
        };
        let h: usize = hlen as usize;
        let p: usize = plen as usize;
        if data.len() != 8 + h * 2 + p * 2 {
            return None;
        }
        let sha = copy_range(data, 8, 8 + h);
        let spa = copy_range(data, 8 + h, 8 + h + p);
        let tha = copy_range(data, 8 + h + p, 8 + h * 2 + p);
        let tpa = copy_range(data, 8 + h * 2 + p, 8 + h * 2 + p * 2);
        Some(
            Self {
                htype,
                ptype,
                hlen,
                plen,
                operation,
                sender_harware_address: sha,
                sender_protocol_address: spa,
                target_harware_address: tha,
                target_protocol_address: tpa,
            },
        )
    }

    pub fn to_vec(&self) -> (v: Vec<u8>)
        ensures
            v@ == self@.encode(),
    {
        let mut vec: Vec<u8> = Vec::new();
        push_u16_be(&mut vec, self.htype);
        push_u16_be(&mut vec, self.ptype.to_u16());
        vec.push(self.hlen);
        vec.push(self.plen);
        push_u16_be(&mut vec, self.operation.code());
        vec.extend_from_slice(self.sender_harware_address.as_slice());
        vec.extend_from_slice(self.sender_protocol_address.as_slice());
        vec.extend_from_slice(self.target_harware_address.as_slice());
        vec.extend_from_slice(self.target_protocol_address.as_slice());
        assert(vec@ =~= self@.encode());
        vec
    }
}

} // verus!
