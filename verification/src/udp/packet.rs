//! UDP datagrams of RFC 768. The checksum field is written as zero and not
//! looked at; the length field is written and not looked at.

use vstd::prelude::*;
use crate::bytes::{spec_u16_at, spec_u16_be, push_u16_be, read_u16_be, copy_range};

verus! {

/// The length of the UDP header.
pub const HEADER_LEN: usize = 8;

/// The largest payload whose length the header's length field can state.
pub const MAX_PAYLOAD: usize = 65527;

/// What a UDP datagram holds, as mathematical values.
pub ghost struct UdpDatagram {
    pub source_port: u16,
    pub destination_port: u16,
    pub payload: Seq<u8>,
}

/// A UDP datagram.
#[derive(Debug, PartialEq, Eq)]
pub struct UdpPacket {
    pub source_port: u16,
    pub destination_port: u16,
    pub payload: Vec<u8>,
}

impl UdpDatagram {
    /// The payload's length can be stated in the header.
    pub open spec fn wf(self) -> bool {
        self.payload.len() <= MAX_PAYLOAD
    }

    /// The datagram on the wire: source port, destination port, the length of
    /// header and payload, a zero checksum, then the payload.
    pub open spec fn encode(self) -> Seq<u8> {
        spec_u16_be(self.source_port) + spec_u16_be(self.destination_port) + spec_u16_be(
            (8 + self.payload.len()) as u16,
        ) + spec_u16_be(0) + self.payload
    }

    /// The datagram that `s` encodes, if it holds a header: everything behind
    /// the header is payload.
    pub open spec fn decode(s: Seq<u8>) -> Option<UdpDatagram> {
        if s.len() < 8 {
            None
        } else {
            Some(
                UdpDatagram {
                    source_port: spec_u16_at(s, 0),
                    destination_port: spec_u16_at(s, 2),
                    payload: s.subrange(8, s.len() as int),
                },
            )
        }
    }

    /// Decoding the encoding of a datagram gives the datagram back.
    pub proof fn lemma_decode_encode(self)
        ensures
            UdpDatagram::decode(self.encode()) == Some(self),
    {
        let s = self.encode();
        crate::bytes::lemma_u16_be_roundtrip(self.source_port);
        crate::bytes::lemma_u16_be_roundtrip(self.destination_port);
        assert(s[0] == spec_u16_be(self.source_port)[0]);
        assert(s[1] == spec_u16_be(self.source_port)[1]);
        assert(s[2] == spec_u16_be(self.destination_port)[0]);
        assert(s[3] == spec_u16_be(self.destination_port)[1]);
        assert(s.subrange(8, s.len() as int) =~= self.payload);
    }

    /// The encoding holds the payload behind a header of 8 octets whose
    /// length field counts both.
    pub proof fn lemma_encode_layout(self)
        requires
            self.wf(),
        ensures
            self.encode().len() == 8 + self.payload.len(),
            self.encode().subrange(8, self.encode().len() as int) == self.payload,
            spec_u16_at(self.encode(), 4) == 8 + self.payload.len(),
    {
        let s = self.encode();
        let len = (8 + self.payload.len()) as u16;
        crate::bytes::lemma_u16_be_roundtrip(len);
        assert(s[4] == spec_u16_be(len)[0]);
        assert(s[5] == spec_u16_be(len)[1]);
        assert(s.subrange(8, s.len() as int) =~= self.payload);
    }
}

impl View for UdpPacket {
    type V = UdpDatagram;

    open spec fn view(&self) -> UdpDatagram {
        UdpDatagram {
            source_port: self.source_port,
            destination_port: self.destination_port,
            payload: self.payload@,
        }
    }
}

impl UdpPacket {
    pub fn from_vec(data: &[u8]) -> (r: Option<Self>)
        ensures
            r is Some == UdpDatagram::decode(data@) is Some,
            r is Some ==> r.unwrap()@ == UdpDatagram::decode(data@).unwrap(),
    {
        if data.len() < HEADER_LEN {
            return None;
        }
        let source_port: u16 = read_u16_be(data, 0);
        let destination_port: u16 = read_u16_be(data, 2);
        let payload = copy_range(data, HEADER_LEN, data.len());
        Some(Self { source_port, destination_port, payload })
    }

    /// Whether the payload is short enough for the header's length field:
    /// the condition under which the datagram can be encoded.
    pub fn fits(&self) -> (b: bool)
        ensures
            b == self@.wf(),
    {
        self.payload.len() <= MAX_PAYLOAD
    }

    /// The header and the payload on the wire.
    pub fn to_vec(&self) -> (v: Vec<u8>)
        requires
            self@.wf(),
        ensures
            v@ == self@.encode(),
    {
        let mut res: Vec<u8> = Vec::new();
        push_u16_be(&mut res, self.source_port);
        push_u16_be(&mut res, self.destination_port);
        push_u16_be(&mut res, (self.payload.len() + HEADER_LEN) as u16);
        push_u16_be(&mut res, 0);
        res.extend_from_slice(self.payload.as_slice());
        assert(res@ =~= self@.encode());
        res
    }
}

} // verus!
