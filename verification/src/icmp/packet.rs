//! ICMP messages of RFC 792: echo request, echo reply and time exceeded.
//! The checksum field is written as zero and not looked at.

use vstd::prelude::*;
use crate::bytes::{spec_u16_at, spec_u16_be, push_u16_be, read_u16_be, copy_range};

verus! {

/// ICMP type of an echo reply.
pub const ECHO_REPLY: u8 = 0;

/// ICMP type of an echo request.
pub const ECHO_REQUEST: u8 = 8;

/// ICMP type of a time-exceeded message.
pub const TIME_EXCEEDED: u8 = 11;

/// What an ICMP packet holds, as mathematical values.
pub ghost enum IcmpMessage {
    EchoReply { id: u16, seq: u16 },
    EchoRequest { id: u16, seq: u16 },
    TtlTransit { data: Seq<u8> },
}

/// An ICMP packet, by type.
#[derive(Debug, PartialEq, Eq)]
pub enum IcmpPacket {
    /// Type 0.
    EchoReply { id: u16, seq: u16 },
    /// Type 8.
    EchoRequest { id: u16, seq: u16 },
    /// Type 11.
    TimeExceeded(TimeExceeded),
}

/// A time-exceeded message, by code.
#[derive(Debug, PartialEq, Eq)]
pub enum TimeExceeded {
    /// Code 0: the TTL ran out in transit. `data` is the header of the
    /// datagram that was dropped and the first octets of its payload.
    TtlTransit { data: Vec<u8> },
}

impl IcmpMessage {
    /// The message on the wire: type, code 0, a zero checksum, then the
    /// identifier and sequence number or the quoted octets.
    pub open spec fn encode(self) -> Seq<u8> {
        match self {
            IcmpMessage::EchoReply { id, seq } => seq![ECHO_REPLY, 0u8, 0u8, 0u8] + spec_u16_be(id)
                + spec_u16_be(seq),
            IcmpMessage::EchoRequest { id, seq } => seq![ECHO_REQUEST, 0u8, 0u8, 0u8]
                + spec_u16_be(id) + spec_u16_be(seq),
            IcmpMessage::TtlTransit { data } => seq![TIME_EXCEEDED, 0u8, 0u8, 0u8] + data,
        }
    }

    /// The message that `s` encodes, if it encodes one: an echo has exactly 8
    /// octets, a time-exceeded message has code 0 and quotes what follows its
    /// first 4 octets.
    pub open spec fn decode(s: Seq<u8>) -> Option<IcmpMessage> {
        if s.len() < 4 {
            None
        } else if s[0] == ECHO_REPLY && s.len() == 8 {
            Some(IcmpMessage::EchoReply { id: spec_u16_at(s, 4), seq: spec_u16_at(s, 6) })
        } else if s[0] == ECHO_REQUEST && s.len() == 8 {
            Some(IcmpMessage::EchoRequest { id: spec_u16_at(s, 4), seq: spec_u16_at(s, 6) })
        } else if s[0] == TIME_EXCEEDED && s[1] == 0 {
            Some(IcmpMessage::TtlTransit { data: s.skip(4) })
        } else {
            None
        }
    }

    /// Decoding the encoding of a message gives the message back.
    pub proof fn lemma_decode_encode(self)
        ensures
            IcmpMessage::decode(self.encode()) == Some(self),
    {
        let s = self.encode();
        match self {
            IcmpMessage::EchoReply { id, seq } => {
                crate::bytes::lemma_u16_be_roundtrip(id);
                crate::bytes::lemma_u16_be_roundtrip(seq);
                assert(s[4] == spec_u16_be(id)[0] && s[5] == spec_u16_be(id)[1]);
                assert(s[6] == spec_u16_be(seq)[0] && s[7] == spec_u16_be(seq)[1]);
            },
            IcmpMessage::EchoRequest { id, seq } => {
                crate::bytes::lemma_u16_be_roundtrip(id);
                crate::bytes::lemma_u16_be_roundtrip(seq);
                assert(s[4] == spec_u16_be(id)[0] && s[5] == spec_u16_be(id)[1]);
                assert(s[6] == spec_u16_be(seq)[0] && s[7] == spec_u16_be(seq)[1]);
            },
            IcmpMessage::TtlTransit { data } => {
                assert(s.skip(4) =~= data);
            },
        }
    }
}

impl View for IcmpPacket {
    type V = IcmpMessage;

    open spec fn view(&self) -> IcmpMessage {
        match self {
            IcmpPacket::EchoReply { id, seq } => IcmpMessage::EchoReply { id: *id, seq: *seq },
            IcmpPacket::EchoRequest { id, seq } => IcmpMessage::EchoRequest { id: *id, seq: *seq },
            IcmpPacket::TimeExceeded(TimeExceeded::TtlTransit { data }) => IcmpMessage::TtlTransit {
                data: data@,
            },
        }
    }
}

impl IcmpPacket {
    pub fn from_vec(data: &[u8]) -> (r: Option<Self>)
        ensures
            r is Some == IcmpMessage::decode(data@) is Some,
            r is Some ==> r.unwrap()@ == IcmpMessage::decode(data@).unwrap(),
    {
        if data.len() < 4 {
            return None;
        }
        let typ: u8 = data[0];
        let code: u8 = data[1];
        if typ == ECHO_REPLY && data.len() == 8 {
            Some(Self::EchoReply { id: read_u16_be(data, 4), seq: read_u16_be(data, 6) })
        } else if typ == ECHO_REQUEST && data.len() == 8 {
            Some(Self::EchoRequest { id: read_u16_be(data, 4), seq: read_u16_be(data, 6) })
        } else if typ == TIME_EXCEEDED && code == 0 {
            Some(
                Self::TimeExceeded(
                    TimeExceeded::TtlTransit { data: copy_range(data, 4, data.len()) },
                ),
            )
        } else {
            None
        }
    }

    pub fn to_vec(&self) -> (v: Vec<u8>)
        ensures
            v@ == self@.encode(),
    {
        let mut res: Vec<u8> = Vec::new();
        match self {
            Self::EchoReply { id, seq } => {
                res.push(ECHO_REPLY);
                res.push(0);
                push_u16_be(&mut res, 0);
                push_u16_be(&mut res, *id);
                push_u16_be(&mut res, *seq);
            },
            Self::EchoRequest { id, seq } => {
                res.push(ECHO_REQUEST);
                res.push(0);
                push_u16_be(&mut res, 0);
                push_u16_be(&mut res, *id);
                push_u16_be(&mut res, *seq);
            },
            Self::TimeExceeded(TimeExceeded::TtlTransit { data }) => {
                res.push(TIME_EXCEEDED);
                res.push(0);
                push_u16_be(&mut res, 0);
                res.extend_from_slice(data.as_slice());
            },
        }
        assert(res@ =~= self@.encode());
        res
    }
}

} // verus!
