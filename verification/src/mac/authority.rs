//! Sources of fresh hardware addresses.

use vstd::prelude::*;
use crate::mac::Mac;

verus! {

/// Something that hands out MAC addresses, each one only once.
pub trait MacAdminAuthority {
    /// Whether another address can still be issued.
    spec fn has_next(&self) -> bool;

    /// The address that is issued next.
    spec fn spec_next(&self) -> Mac;

    /// Issues the next address.
    fn get_addr(&mut self) -> (m: Mac)
        requires
            old(self).has_next(),
        ensures
            m == old(self).spec_next(),
    ;
}

/// Issues the addresses of one vendor prefix in ascending order.
#[derive(Debug, Clone)]
pub struct SequentialAuthority {
    oui: [u8; 3],
    curr: u32,
}

impl SequentialAuthority {
    /// The vendor prefix of every address issued.
    pub closed spec fn oui(&self) -> Seq<u8> {
        self.oui@
    }

    /// How many addresses have been issued so far.
    pub closed spec fn issued(&self) -> nat {
        self.curr as nat
    }

    /// The address issued as number `n` under the prefix `oui`.
    pub open spec fn nth_addr(oui: Seq<u8>, n: nat) -> Seq<u8> {
        seq![
            oui[0],
            oui[1],
            oui[2],
            ((n / 65536) % 256) as u8,
            ((n / 256) % 256) as u8,
            (n % 256) as u8,
        ]
    }

    pub fn new(oui: [u8; 3]) -> (a: Self)
        ensures
            a.oui() == oui@,
            a.issued() == 0,
            a.has_next(),
    {
        Self { oui, curr: 0 }
    }

    /// Whether all 2^24 addresses of the prefix have been issued.
    pub fn is_exhausted(&self) -> (b: bool)
        ensures
            b == !self.has_next(),
    {
        self.curr > 0xff_ffff
    }
}

impl MacAdminAuthority for SequentialAuthority {
    open spec fn has_next(&self) -> bool {
        self.issued() <= 0xff_ffff
    }

    open spec fn spec_next(&self) -> Mac {
        Mac::from_seq(Self::nth_addr(self.oui(), self.issued()))
    }

    fn get_addr(&mut self) -> (m: Mac)
        ensures
            m@ == Self::nth_addr(old(self).oui(), old(self).issued()),
            final(self).oui() == old(self).oui(),
            final(self).issued() == old(self).issued() + 1,
    {
        let n: u32 = self.curr;
        self.curr = n + 1;
        let m = Mac::new(
            [
                self.oui[0],
                self.oui[1],
                self.oui[2],
                ((n / 65536) % 256) as u8,
                ((n / 256) % 256) as u8,
                (n % 256) as u8,
            ],
        );
        proof {
            let octets = Self::nth_addr(old(self).oui(), old(self).issued());
            assert(m@ =~= octets);
            Mac::lemma_from_seq(octets);
            m.lemma_view_injective(Mac::from_seq(octets));
        }
        m
    }
}

} // verus!
