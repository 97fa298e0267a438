//! The 802.1Q VLAN tag: four octets on the wire, the tag protocol identifier
//! `0x8100` followed by the tag control information.

use vstd::prelude::*;
use crate::bytes::{spec_u16_at, spec_u16_be, push_u16_be, read_u16_be};
use crate::ethernet::ethertype::DOT1Q;

verus! {

/// An 802.1Q tag. Its priority has 3 bits and its VLAN id 12.
#[derive(Debug, Clone, Copy, PartialEq, Eq, Structural)]
pub struct Tag {
    // 3 bits
    priority_code_point: u8,
    drop_elegible: bool,
    // 12 bits
    vlan_id: u16,
}

impl Tag {
    /// The priority code point.
    pub closed spec fn pcp(&self) -> u8 {
        self.priority_code_point
    }

    /// The drop-eligible indicator.
    pub closed spec fn dei(&self) -> bool {
        self.drop_elegible
    }

    /// The VLAN id.
    pub closed spec fn vid(&self) -> u16 {
        self.vlan_id
    }

    /// Each field fits the width it has on the wire.
    pub open spec fn wf(&self) -> bool {
        self.pcp() < 8 && self.vid() < 4096
    }

    /// The tag control information: `PCP << 13 | DEI << 12 | VID`.
    pub open spec fn tci(&self) -> u16 {
        ((self.pcp() % 8) * 8192 + (if self.dei() {
            4096int
        } else {
            0int
        }) + self.vid() % 4096) as u16
    }

    /// The tag whose control information is `tci`.
    pub closed spec fn from_tci(tci: u16) -> Tag {
        Tag {
            priority_code_point: (tci / 8192) as u8,
            drop_elegible: (tci / 4096) % 2 == 1,
            vlan_id: tci % 4096,
        }
    }

    /// The four octets of the tag on the wire.
    pub open spec fn spec_to_vec(&self) -> Seq<u8> {
        spec_u16_be(DOT1Q) + spec_u16_be(self.tci())
    }

    /// What the start of `s` says about a tag: `None` where `s` is too short to
    /// tell or to hold the tag it announces, `Some(None)` where it announces no
    /// tag, and the tag otherwise.
    pub open spec fn spec_from_vec(s: Seq<u8>) -> Option<Option<Tag>> {
        if s.len() < 2 {
            None
        } else if spec_u16_at(s, 0) != DOT1Q {
            Some(None)
        } else if s.len() < 4 {
            None
        } else {
            Some(Some(Tag::from_tci(spec_u16_at(s, 2))))
        }
    }

    /// The fields of the tag that a control word decodes to.
    pub proof fn lemma_from_tci(tci: u16)
        ensures
            Tag::from_tci(tci).wf(),
            Tag::from_tci(tci).pcp() == tci / 8192,
            Tag::from_tci(tci).dei() == ((tci / 4096) % 2 == 1),
            Tag::from_tci(tci).vid() == tci % 4096,
            Tag::from_tci(tci).tci() == tci,
    {
    }

    /// A well-formed tag is the one its control word decodes to.
    pub proof fn lemma_tci_roundtrip(self)
        requires
            self.wf(),
        ensures
            Tag::from_tci(self.tci()) == self,
    {
    }

    /// Decoding the encoding of a well-formed tag gives the tag back, whatever
    /// follows it.
    pub proof fn lemma_decode_encode(self, rest: Seq<u8>)
        requires
            self.wf(),
        ensures
            Tag::spec_from_vec(self.spec_to_vec() + rest) == Some(Some(self)),
    {
        let s = self.spec_to_vec() + rest;
        self.lemma_tci_roundtrip();
        assert(s[0] == 0x81 && s[1] == 0x00);
        assert(s[2] == spec_u16_be(self.tci())[0]);
        assert(s[3] == spec_u16_be(self.tci())[1]);
    }

    /// Builds a tag; a priority or a VLAN id wider than its field is cut to the
    /// field's width.
    pub fn new(priority_code_point: u8, drop_elegible: bool, vlan_id: u16) -> (t: Self)
        ensures
            t.wf(),
            t.pcp() == priority_code_point % 8,
            t.dei() == drop_elegible,
            t.vid() == vlan_id % 4096,
    {
        Self {
            priority_code_point: priority_code_point % 8,
            drop_elegible,
            vlan_id: vlan_id % 4096,
        }
    }

    pub fn to_vec(&self) -> (v: Vec<u8>)
        ensures
            v@ == self.spec_to_vec(),
    {
        let dei: u16 = if self.drop_elegible {
            4096
        } else {
            0
        };
        let tci: u16 = ((self.priority_code_point % 8) as u16) * 8192 + dei + self.vlan_id % 4096;
        let mut v: Vec<u8> = Vec::new();
        push_u16_be(&mut v, DOT1Q);
        push_u16_be(&mut v, tci);
        v
    }

    pub fn from_vec(data: &[u8]) -> (r: Option<Option<Self>>)
        ensures
            r == Self::spec_from_vec(data@),
    {
        if data.len() < 2 {
            return None;
        }
        let tpid: u16 = read_u16_be(data, 0);
        if tpid != DOT1Q {
            return Some(None);
        }
        if data.len() < 4 {
            return None;
        }
        let tci: u16 = read_u16_be(data, 2);
        Some(
            Some(
                Self {
                    priority_code_point: (tci / 8192) as u8,
                    drop_elegible: (tci / 4096) % 2 == 1,
                    vlan_id: tci % 4096,
                },
            ),
        )
    }

    pub fn vlan_id(&self) -> (vid: u16)
        ensures
            vid == self.vid(),
    {
        self.vlan_id
    }
}

} // verus!
