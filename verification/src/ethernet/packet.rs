//! Ethernet II frames, with or without an 802.1Q tag.

use vstd::prelude::*;
use crate::bytes::{spec_u16_at, spec_u16_be, push_u16_be, read_u16_be, copy_range};
use crate::ethernet::dot1q::Tag;
use crate::ethernet::ethertype::{EtherType, IP_V4, IP_V6, ARP, DOT1Q};
use crate::mac::Mac;

verus! {

/// The largest payload of an untagged frame.
pub const MAX_PAYLOAD: usize = 1500;

/// What a frame holds, as mathematical values.
pub ghost struct EthernetFrame {
    pub dst: Mac,
    pub src: Mac,
    pub tag: Option<Tag>,
    pub ether_type: EtherType,
    pub payload: Seq<u8>,
}

/// An Ethernet frame.
#[derive(Debug, PartialEq, Eq)]
pub struct EthernetPacket {
    pub destination: Mac,
    pub source: Mac,
    pub dot1q_tag: Option<Tag>,
    pub ether_type: EtherType,
    pub payload: Vec<u8>,
}

impl EthernetFrame {
    /// The frame can be told from its encoding: its tag, if any, fits its
    /// fields, and without a tag its EtherType is not the one that announces a
    /// tag.
    pub open spec fn wf(self) -> bool {
        match self.tag {
            Some(tag) => tag.wf(),
            None => self.ether_type.0 != DOT1Q,
        }
    }

    /// The same frame without its tag.
    pub open spec fn without_tag(self) -> EthernetFrame {
        EthernetFrame { tag: None, ..self }
    }

    /// The same frame carrying `tag`.
    pub open spec fn with_tag(self, tag: Tag) -> EthernetFrame {
        EthernetFrame { tag: Some(tag), ..self }
    }

    /// The octets of the tag, if there is one.
    pub open spec fn tag_octets(self) -> Seq<u8> {
        match self.tag {
            Some(tag) => tag.spec_to_vec(),
            None => Seq::empty(),
        }
    }

    /// The frame on the wire: destination, source, the tag if there is one,
    /// the EtherType, the payload.
    pub open spec fn encode(self) -> Seq<u8> {
        self.dst@ + self.src@ + self.tag_octets() + spec_u16_be(self.ether_type.0) + self.payload
    }

    /// The frame that `s` encodes, if it encodes one: `s` has the 14 octets of
    /// a header, and 18 where it announces a tag.
    pub open spec fn decode(s: Seq<u8>) -> Option<EthernetFrame> {
        if s.len() < 14 {
            None
        } else {
            let dst = Mac::from_seq(s.subrange(0, 6));
            let src = Mac::from_seq(s.subrange(6, 12));
            match Tag::spec_from_vec(s.subrange(12, s.len() as int)) {
                None => None,
                Some(None) => Some(
                    EthernetFrame {
                        dst,
                        src,
                        tag: None,
                        ether_type: EtherType(spec_u16_at(s, 12)),
                        payload: s.subrange(14, s.len() as int),
                    },
                ),
                Some(Some(tag)) => if s.len() < 18 {
                    None
                } else {
                    Some(
                        EthernetFrame {
                            dst,
                            src,
                            tag: Some(tag),
                            ether_type: EtherType(spec_u16_at(s, 16)),
                            payload: s.subrange(18, s.len() as int),
                        },
                    )
                },
            }
        }
    }

    /// Decoding the encoding of a frame gives the frame back.
    #[verifier::rlimit(50)]
    pub proof fn lemma_decode_encode(self)
        requires
            self.wf(),
        ensures
            EthernetFrame::decode(self.encode()) == Some(self),
    {
        let s = self.encode();
        self.dst.lemma_len();
        self.src.lemma_len();
        assert(s.subrange(0, 6) =~= self.dst@);
        assert(s.subrange(6, 12) =~= self.src@);
        self.dst.lemma_from_seq_view();
        self.src.lemma_from_seq_view();
        let et = spec_u16_be(self.ether_type.0);
        crate::bytes::lemma_u16_be_roundtrip(self.ether_type.0);
        match self.tag {
            Some(tag) => {
                let rest = et + self.payload;
                assert(s.subrange(12, s.len() as int) =~= tag.spec_to_vec() + rest);
                tag.lemma_decode_encode(rest);
                assert(s[16] == et[0] && s[17] == et[1]);
                assert(s.subrange(18, s.len() as int) =~= self.payload);
            },
            None => {
                assert(s[12] == et[0] && s[13] == et[1]);
                assert(s.subrange(12, s.len() as int)[0] == s[12]);
                assert(s.subrange(12, s.len() as int)[1] == s[13]);
                assert(s.subrange(14, s.len() as int) =~= self.payload);
            },
        }
    }

    /// Taking the tag off a frame and encoding it gives the untagged encoding
    /// of the same addresses, EtherType and payload, whichever tag it carried.
    pub proof fn lemma_remove_tag_encoding(self, tag: Tag)
        ensures
            self.with_tag(tag).without_tag().encode() == self.dst@ + self.src@ + spec_u16_be(
                self.ether_type.0,
            ) + self.payload,
            self.with_tag(tag).without_tag().encode() == self.without_tag().encode(),
    {
        let untagged = self.with_tag(tag).without_tag();
        assert(untagged.encode() =~= self.dst@ + self.src@ + spec_u16_be(self.ether_type.0)
            + self.payload);
    }
}

impl View for EthernetPacket {
    type V = EthernetFrame;

    open spec fn view(&self) -> EthernetFrame {
        EthernetFrame {
            dst: self.destination,
            src: self.source,
            tag: self.dot1q_tag,
            ether_type: self.ether_type,
            payload: self.payload@,
        }
    }
}

impl Clone for EthernetPacket {
    fn clone(&self) -> (copy: Self)
        ensures
            copy@ == self@,
    {
        Self {
            destination: self.destination,
            source: self.source,
            dot1q_tag: self.dot1q_tag,
            ether_type: self.ether_type,
            payload: self.payload.clone(),
        }
    }
}

impl EthernetPacket {
    /// The untagged frame with the given addresses, EtherType and payload.
    pub open spec fn untagged(dst: Mac, src: Mac, ether_type: u16, payload: Seq<u8>)
        -> EthernetFrame {
        EthernetFrame { dst, src, tag: None, ether_type: EtherType(ether_type), payload }
    }

    /// An 802.3 frame: its EtherType field holds the payload's length. `None`
    /// where the payload has more than 1500 octets.
    pub fn new_generic(destination: Mac, source: Mac, payload: Vec<u8>) -> (r: Option<Self>)
        ensures
            payload@.len() > MAX_PAYLOAD ==> r is None,
            payload@.len() <= MAX_PAYLOAD ==> r is Some && r.unwrap()@ == Self::untagged(
                destination,
                source,
                payload@.len() as u16,
                payload@,
            ),
    {
        if payload.len() <= MAX_PAYLOAD {
            let len: u16 = payload.len() as u16;
            Some(
                Self {
                    destination,
                    source,
                    dot1q_tag: None,
                    ether_type: EtherType::from_u16(len),
                    payload,
                },
            )
        } else {
            None
        }
    }

    /// A frame that carries an IPv4 datagram. `None` where the payload has more
    /// than 1500 octets.
    pub fn new_ip_v4(destination: Mac, source: Mac, payload: Vec<u8>) -> (r: Option<Self>)
        ensures
            payload@.len() > MAX_PAYLOAD ==> r is None,
            payload@.len() <= MAX_PAYLOAD ==> r is Some && r.unwrap()@ == Self::untagged(
                destination,
                source,
                IP_V4,
                payload@,
            ),
    {
        if payload.len() <= MAX_PAYLOAD {
            Some(
                Self {
                    destination,
                    source,
                    dot1q_tag: None,
                    ether_type: EtherType::ip_v4(),
                    payload,
                },
            )
        } else {
            None
        }
    }

    /// A frame that carries an IPv6 datagram. `None` where the payload has more
    /// than 1500 octets.
    pub fn new_ip_v6(destination: Mac, source: Mac, payload: Vec<u8>) -> (r: Option<Self>)
        ensures
            payload@.len() > MAX_PAYLOAD ==> r is None,
            payload@.len() <= MAX_PAYLOAD ==> r is Some && r.unwrap()@ == Self::untagged(
                destination,
                source,
                IP_V6,
                payload@,
            ),
    {
        if payload.len() <= MAX_PAYLOAD {
            Some(
                Self {
                    destination,
                    source,
                    dot1q_tag: None,
                    ether_type: EtherType::ip_v6(),
                    payload,
                },
            )
        } else {
            None
        }
    }

    /// A frame that carries an ARP packet. `None` where the payload has more
    /// than 1500 octets.
    pub fn new_arp(destination: Mac, source: Mac, payload: Vec<u8>) -> (r: Option<Self>)
        ensures
            payload@.len() > MAX_PAYLOAD ==> r is None,
            payload@.len() <= MAX_PAYLOAD ==> r is Some && r.unwrap()@ == Self::untagged(
                destination,
                source,
                ARP,
                payload@,
            ),
    {
        if payload.len() <= MAX_PAYLOAD {
            Some(
                Self {
                    destination,
                    source,
                    dot1q_tag: None,
                    ether_type: EtherType::arp(),
                    payload,
                },
            )
        } else {
            None
        }
    }

    pub fn set_dot1q(&mut self, dot1q_tag: Tag)
        ensures
            final(self)@ == old(self)@.with_tag(dot1q_tag),
    {
        self.dot1q_tag = Some(dot1q_tag)
    }

    pub fn remove_dot1q(&mut self)
        ensures
            final(self)@ == old(self)@.without_tag(),
    {
        self.dot1q_tag = None
    }

    pub fn get_dot1q(&self) -> (tag: Option<Tag>)
        ensures
            tag == self@.tag,
    {
        self.dot1q_tag
    }

    pub fn get_dest(&self) -> (m: Mac)
        ensures
            m == self@.dst,
    {
        self.destination
    }

    pub fn get_source(&self) -> (m: Mac)
        ensures
            m == self@.src,
    {
        self.source
    }

    pub fn get_ether_type(&self) -> (t: EtherType)
        ensures
            t == self@.ether_type,
    {
        self.ether_type
    }

    pub fn to_vec(&self) -> (v: Vec<u8>)
        ensures
            v@ == self@.encode(),
    {
        let mut vec: Vec<u8> = Vec::new();
        vec.extend_from_slice(self.destination.as_slice());
        vec.extend_from_slice(self.source.as_slice());
        if let Some(dot1q_tag) = &self.dot1q_tag {
            let octets = dot1q_tag.to_vec();
            vec.extend_from_slice(octets.as_slice());
        }
        push_u16_be(&mut vec, self.ether_type.to_u16());
        vec.extend_from_slice(self.payload.as_slice());
        assert(vec@ =~= self@.encode());
        vec
    }

    #[verifier::rlimit(50)]
    pub fn from_vec(data: &[u8]) -> (r: Option<Self>)
        ensures
            r is Some == EthernetFrame::decode(data@) is Some,
            r is Some ==> r.unwrap()@ == EthernetFrame::decode(data@).unwrap(),
    {
        if data.len() < 14 {
            return None;
        }
        let destination = Mac::new(
            [data[0], data[1], data[2], data[3], data[4], data[5]],
        );
        let source = Mac::new(
            [data[6], data[7], data[8], data[9], data[10], data[11]],
        );
        proof {
            Mac::lemma_from_seq(data@.subrange(0, 6));
            Mac::lemma_from_seq(data@.subrange(6, 12));
            assert(destination@ =~= data@.subrange(0, 6));
            assert(source@ =~= data@.subrange(6, 12));
            destination.lemma_view_injective(Mac::from_seq(data@.subrange(0, 6)));
            source.lemma_view_injective(Mac::from_seq(data@.subrange(6, 12)));
        }
        let mut offset: usize = 12;
        let dot1q_tag = match Tag::from_vec(vstd::slice::slice_subrange(data, 12, data.len())) {
            Some(t) => t,
            None => {
                return None;
            },
        };
        if dot1q_tag.is_some() {
            offset = 16;
            if data.len() < 18 {
                return None;
            }
        }
        let ether_type = EtherType::from_u16(read_u16_be(data, offset));
        let payload = copy_range(data, offset + 2, data.len());
        Some(Self { destination, source, dot1q_tag, ether_type, payload })
    }
}

} // verus!
