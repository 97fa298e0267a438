//! The ARP cache: which hardware address answers for a protocol address on
//! a link, and since when that is known.

use vstd::prelude::*;
use std::collections::HashMap;
use crate::chassis::LinkLayerId;
use crate::clock::{Millis, age, spec_age};
use crate::ipv4::addr::IpV4Addr;
use crate::mac::Mac;

verus! {

broadcast use vstd::std_specs::hash::group_hash_axioms;

/// The number that stands for the pair of an address and a link in the
/// cache: the address' 32 bits followed by the link's 16.
pub open spec fn spec_cache_key(ip: IpV4Addr, link: LinkLayerId) -> u64 {
    (crate::bytes::spec_pack4(ip@[0], ip@[1], ip@[2], ip@[3]) * 65536 + link.spec_index()) as u64
}

/// Different addresses, and links of different numbers, have different keys.
#[verifier::rlimit(50)]
pub proof fn lemma_cache_key_injective(
    ip: IpV4Addr,
    link: LinkLayerId,
    other_ip: IpV4Addr,
    other_link: LinkLayerId,
)
    requires
        spec_cache_key(ip, link) == spec_cache_key(other_ip, other_link),
    ensures
        ip == other_ip,
        link.same_link(&other_link),
{
    ip.lemma_len();
    other_ip.lemma_len();
    let n = crate::bytes::spec_pack4(ip@[0], ip@[1], ip@[2], ip@[3]);
    let m = crate::bytes::spec_pack4(other_ip@[0], other_ip@[1], other_ip@[2], other_ip@[3]);
    crate::bytes::lemma_pack4(ip@[0], ip@[1], ip@[2], ip@[3]);
    crate::bytes::lemma_pack4(other_ip@[0], other_ip@[1], other_ip@[2], other_ip@[3]);
    let k = n * 65536 + link.spec_index();
    let l = m * 65536 + other_link.spec_index();
    assert(0 <= k < 0x1_0000_0000_0000 && 0 <= l < 0x1_0000_0000_0000);
    assert(k == l);
    assert(k / 65536 == n && l / 65536 == m);
    assert(k % 65536 == link.spec_index() && l % 65536 == other_link.spec_index());
    assert(ip@ =~= other_ip@);
    ip.lemma_view_injective(other_ip);
}

/// The key of an address on a link.
pub fn cache_key(ip: IpV4Addr, link: LinkLayerId) -> (key: u64)
    ensures
        key == spec_cache_key(ip, link),
{
    let o = ip.as_arr();
    proof {
        ip.lemma_len();
        crate::bytes::lemma_pack4(ip@[0], ip@[1], ip@[2], ip@[3]);
    }
    let a: u64 = o[0] as u64;
    let b: u64 = o[1] as u64;
    let c: u64 = o[2] as u64;
    let d: u64 = o[3] as u64;
    (((a * 256 + b) * 256 + c) * 256 + d) * 65536 + link.index() as u64
}

/// What is known of one address on one link.
#[derive(Debug, Clone, Copy, PartialEq, Eq)]
pub struct CacheEntry {
    /// The address as it was asked for or learned.
    pub ip: IpV4Addr,
    /// The number of the link it was learned on.
    pub link: u16,
    pub mac: Mac,
    /// When it was learned.
    pub stored: Millis,
}

/// The cache. An entry is a hit only while it is younger than the time to
/// live that the lookup names.
#[derive(Debug)]
pub struct ArpCache {
    entries: HashMap<u64, CacheEntry>,
}

impl View for ArpCache {
    type V = Map<u64, CacheEntry>;

    closed spec fn view(&self) -> Map<u64, CacheEntry> {
        self.entries@
    }
}

impl ArpCache {
    /// What the cache holds for `ip` on `link`, stale or not.
    pub open spec fn entry(&self, ip: IpV4Addr, link: LinkLayerId) -> Option<CacheEntry> {
        if self@.contains_key(spec_cache_key(ip, link)) {
            Some(self@[spec_cache_key(ip, link)])
        } else {
            None
        }
    }

    /// Whether an entry stored at `stored` is still a hit at `now`.
    pub open spec fn fresh(now: Millis, stored: Millis, ttl: Millis) -> bool {
        spec_age(now, stored) < ttl
    }

    /// The answer of a lookup: the entry's address while the entry is fresh.
    pub open spec fn spec_lookup(&self, ip: IpV4Addr, link: LinkLayerId, now: Millis, ttl: Millis)
        -> Option<Mac> {
        match self.entry(ip, link) {
            Some(e) => if Self::fresh(now, e.stored, ttl) {
                Some(e.mac)
            } else {
                None
            },
            None => None,
        }
    }

    /// What a lookup leaves of the cache: a stale entry for the pair that
    /// was looked up is gone.
    pub open spec fn after_lookup(&self, ip: IpV4Addr, link: LinkLayerId, now: Millis, ttl: Millis)
        -> Map<u64, CacheEntry> {
        match self.entry(ip, link) {
            Some(e) => if Self::fresh(now, e.stored, ttl) {
                self@
            } else {
                self@.remove(spec_cache_key(ip, link))
            },
            None => self@,
        }
    }

    /// The entry that `record` stores.
    pub open spec fn recorded(ip: IpV4Addr, link: LinkLayerId, mac: Mac, now: Millis)
        -> CacheEntry {
        CacheEntry { ip, link: link.spec_index(), mac, stored: now }
    }

    pub fn new() -> (c: Self)
        ensures
            c@ == Map::<u64, CacheEntry>::empty(),
    {
        Self { entries: HashMap::new() }
    }

    /// Stores that `mac` answers for `ip` on `link`, as of `now`. What was
    /// known of the pair before is replaced; other pairs are left alone.
    pub fn record(&mut self, ip: IpV4Addr, link: LinkLayerId, mac: Mac, now: Millis)
        ensures
            final(self)@ == old(self)@.insert(
                spec_cache_key(ip, link),
                Self::recorded(ip, link, mac, now),
            ),
            final(self).entry(ip, link) == Some(Self::recorded(ip, link, mac, now)),
    {
        let key = cache_key(ip, link);
        self.entries.insert(key, CacheEntry { ip, link: link.index(), mac, stored: now });
    }

    /// The hardware address of `ip` on `link`, if the cache holds a fresh
    /// entry for the two. A stale entry is removed.
    pub fn lookup(&mut self, ip: IpV4Addr, link: LinkLayerId, now: Millis, ttl: Millis) -> (hit:
        Option<Mac>)
        ensures
            hit == old(self).spec_lookup(ip, link, now, ttl),
            final(self)@ == old(self).after_lookup(ip, link, now, ttl),
            hit is Some ==> old(self).entry(ip, link) is Some && spec_age(
                now,
                old(self).entry(ip, link).unwrap().stored,
            ) < ttl,
    {
        let key = cache_key(ip, link);
        let found: Option<CacheEntry> = match self.entries.get(&key) {
            Some(e) => Some(*e),
            None => None,
        };
        match found {
            Some(e) => {
                if age(now, e.stored) < ttl {
                    Some(e.mac)
                } else {
                    self.entries.remove(&key);
                    None
                }
            },
            None => None,
        }
    }

    /// The number of entries, stale ones included.
    pub fn len(&self) -> (n: usize)
        ensures
            n == self@.len(),
    {
        self.entries.len()
    }

    /// A copy of the whole cache, by key.
    pub fn snapshot(&self) -> (copy: HashMap<u64, CacheEntry>)
        ensures
            copy@ == self@,
    {
        self.entries.clone()
    }
}

} // verus!
