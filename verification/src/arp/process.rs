//! The ARP process: what it does with a packet from a link and with a
//! request to resolve an address.

use vstd::prelude::*;
use crate::arp::cache::{ArpCache, CacheEntry, spec_cache_key};
use crate::arp::packet::{ArpMessage, ArpPacket, HTYPE_ETHERNET, Operation};
use crate::chassis::{ChannelId, LinkLayerId, LinkTable};
use crate::clock::Millis;
use crate::ethernet::ethertype::{EtherType, IP_V4};
use crate::ipv4::addr::IpV4Addr;
use crate::mac::Mac;

verus! {

/// A resolver that waits: whoever listens on `channel` asked for the
/// hardware address of `ip` and has no answer yet.
#[derive(Debug, Clone, Copy, PartialEq, Eq)]
pub struct Waiter {
    pub ip: IpV4Addr,
    pub channel: ChannelId,
}

/// The channels of those among `waiting` who wait for `ip`, in the order
/// they asked.
pub open spec fn woken(waiting: Seq<Waiter>, ip: IpV4Addr) -> Seq<ChannelId>
    decreases waiting.len(),
{
    if waiting.len() == 0 {
        Seq::empty()
    } else if waiting.last().ip == ip {
        woken(waiting.drop_last(), ip).push(waiting.last().channel)
    } else {
        woken(waiting.drop_last(), ip)
    }
}

/// Those among `waiting` who wait for another address than `ip`, in the
/// order they asked.
pub open spec fn left_waiting(waiting: Seq<Waiter>, ip: IpV4Addr) -> Seq<Waiter>
    decreases waiting.len(),
{
    if waiting.len() == 0 {
        Seq::empty()
    } else if waiting.last().ip == ip {
        left_waiting(waiting.drop_last(), ip)
    } else {
        left_waiting(waiting.drop_last(), ip).push(waiting.last())
    }
}

/// Those among `waiting` who listen on another channel than `channel`, in
/// the order they asked.
pub open spec fn without_channel(waiting: Seq<Waiter>, channel: ChannelId) -> Seq<Waiter>
    decreases waiting.len(),
{
    if waiting.len() == 0 {
        Seq::empty()
    } else if waiting.last().channel == channel {
        without_channel(waiting.drop_last(), channel)
    } else {
        without_channel(waiting.drop_last(), channel).push(waiting.last())
    }
}

/// What the process does with a packet that came up from a link.
#[derive(Debug, PartialEq, Eq)]
pub enum ArpIngress {
    /// The octets are no ARP packet: dropped.
    Undecodable,
    /// Not a packet for IPv4 over Ethernet: dropped.
    Unsupported,
    /// The sender was stored in the cache; the packet asks nothing of us.
    Learned,
    /// The sender was stored, and its request for our address is answered:
    /// `payload` goes back to `to` over the link the request came from.
    Reply { to: Mac, payload: Vec<u8> },
    /// The sender was stored, and its reply to us wakes the resolvers that
    /// wait for `ip`: `mac` is the address they waited for, and goes to
    /// each of the channels `wake`.
    Resolved { ip: IpV4Addr, mac: Mac, wake: Vec<ChannelId> },
}

/// What the process does with a request to resolve an address.
#[derive(Debug, PartialEq, Eq)]
pub enum ArpResolve {
    /// The cache holds a fresh entry: the answer.
    Hit(Mac),
    /// No fresh entry: `payload` goes out over `link` to the station `to`,
    /// which is the broadcast address, and the answer, if one comes, arrives
    /// as a packet from that link. Who asked waits for it.
    Request { link: LinkLayerId, to: Mac, payload: Vec<u8> },
    /// No fresh entry, and no such link to ask on.
    NoLink,
}

/// Whether the process handles the packet: it is for IPv4 over Ethernet and
/// its addresses have the lengths of the two.
pub open spec fn handled(m: ArpMessage) -> bool {
    m.htype == HTYPE_ETHERNET && m.ptype.0 == IP_V4 && m.hlen == 6 && m.plen == 4
}

/// The reply to the request `m` that came in over `link`, for our address
/// `our_addr`.
pub open spec fn reply_to(m: ArpMessage, link: LinkLayerId, our_addr: IpV4Addr) -> ArpMessage {
    ArpMessage {
        htype: m.htype,
        ptype: m.ptype,
        hlen: 6,
        plen: 4,
        operation: Operation::Reply,
        sha: link.spec_mac()@,
        spa: our_addr@,
        tha: m.sha,
        tpa: m.spa,
    }
}

/// The request for the hardware address of `ip`, sent from `link` by the
/// host of address `our_addr`.
pub open spec fn request_for(ip: IpV4Addr, link: LinkLayerId, our_addr: IpV4Addr) -> ArpMessage {
    ArpMessage {
        htype: HTYPE_ETHERNET,
        ptype: EtherType(IP_V4),
        hlen: 6,
        plen: 4,
        operation: Operation::Request,
        sha: link.spec_mac()@,
        spa: our_addr@,
        tha: Seq::new(6, |i: int| 0u8),
        tpa: ip@,
    }
}

/// The cache after the packet `msg` came in over `link` at `now`: the
/// sender of a packet that is handled is stored, asked for or not.
pub open spec fn cache_after_ingress(
    cache: Map<u64, CacheEntry>,
    link: LinkLayerId,
    msg: Seq<u8>,
    now: Millis,
) -> Map<u64, CacheEntry> {
    match ArpMessage::decode(msg) {
        Some(m) => if handled(m) {
            cache.insert(
                spec_cache_key(IpV4Addr::from_seq(m.spa), link),
                ArpCache::recorded(IpV4Addr::from_seq(m.spa), link, Mac::from_seq(m.sha), now),
            )
        } else {
            cache
        },
        None => cache,
    }
}

/// Whether the packet `msg` is a reply for IPv4 over Ethernet to the host of
/// address `our_addr`.
pub open spec fn is_reply_to_us(our_addr: IpV4Addr, msg: Seq<u8>) -> bool {
    ArpMessage::decode(msg) matches Some(m) && handled(m) && m.tpa == our_addr@ && m.operation
        == Operation::Reply
}

/// Who waits after the packet `msg` came in: a reply to us ends the wait of
/// all who waited for its sender's address.
pub open spec fn waiting_after_ingress(waiting: Seq<Waiter>, our_addr: IpV4Addr, msg: Seq<u8>)
    -> Seq<Waiter> {
    if is_reply_to_us(our_addr, msg) {
        left_waiting(waiting, IpV4Addr::from_seq(ArpMessage::decode(msg).unwrap().spa))
    } else {
        waiting
    }
}

/// Whether `r` is what the process does with the packet `msg` that came in
/// over `link` from the station `source_mac`, the host's address being
/// `our_addr` and `waiting` those who wait for an answer.
pub open spec fn is_ingress_of(
    r: ArpIngress,
    waiting: Seq<Waiter>,
    our_addr: IpV4Addr,
    link: LinkLayerId,
    source_mac: Mac,
    msg: Seq<u8>,
) -> bool {
    match ArpMessage::decode(msg) {
        None => r == ArpIngress::Undecodable,
        Some(m) => if !handled(m) {
            r == ArpIngress::Unsupported
        } else if m.tpa != our_addr@ {
            r == ArpIngress::Learned
        } else {
            match m.operation {
                Operation::Request => r matches ArpIngress::Reply { to, payload } && to
                    == source_mac && payload@ == reply_to(m, link, our_addr).encode(),
                Operation::Reply => r matches ArpIngress::Resolved { ip, mac, wake } && ip
                    == IpV4Addr::from_seq(m.spa) && mac == Mac::from_seq(m.sha) && wake@ == woken(
                    waiting,
                    ip,
                ),
            }
        },
    }
}

/// Whether `r` is what the process does with a request to resolve `ip` on
/// `link`, the cache's answer being `hit`.
pub open spec fn is_resolve_of(
    r: ArpResolve,
    hit: Option<Mac>,
    links: Seq<LinkLayerId>,
    our_addr: IpV4Addr,
    ip: IpV4Addr,
    link: LinkLayerId,
) -> bool {
    match hit {
        Some(mac) => r == ArpResolve::Hit(mac),
        None => if crate::chassis::first_link(links, link) < links.len() {
            let registered = links[crate::chassis::first_link(links, link)];
            r matches ArpResolve::Request { link: on, to, payload } && on == registered && to
                == Mac::spec_broadcast() && payload@ == request_for(
                ip,
                registered,
                our_addr,
            ).encode()
        } else {
            r == ArpResolve::NoLink
        },
    }
}

/// Who waits after a request to resolve `ip` was answered with `r`: where a
/// request went out, who asked waits for its answer.
pub open spec fn waiting_after_resolve(
    waiting: Seq<Waiter>,
    r: ArpResolve,
    ip: IpV4Addr,
    waiter: ChannelId,
) -> Seq<Waiter> {
    if r is Request {
        waiting.push(Waiter { ip, channel: waiter })
    } else {
        waiting
    }
}

/// The address of 4 octets held by `octets`.
fn addr_of(octets: &Vec<u8>) -> (a: IpV4Addr)
    requires
        octets@.len() == 4,
    ensures
        a == IpV4Addr::from_seq(octets@),
{
    let a = IpV4Addr::new([octets[0], octets[1], octets[2], octets[3]]);
    proof {
        IpV4Addr::lemma_from_seq(octets@);
        assert(a@ =~= octets@);
        a.lemma_view_injective(IpV4Addr::from_seq(octets@));
    }
    a
}

/// The hardware address of 6 octets held by `octets`.
fn mac_of(octets: &Vec<u8>) -> (m: Mac)
    requires
        octets@.len() == 6,
    ensures
        m == Mac::from_seq(octets@),
{
    let m = Mac::new([octets[0], octets[1], octets[2], octets[3], octets[4], octets[5]]);
    proof {
        Mac::lemma_from_seq(octets@);
        assert(m@ =~= octets@);
        m.lemma_view_injective(Mac::from_seq(octets@));
    }
    m
}

/// The ARP process of a chassis, for IPv4 over Ethernet: its cache, and
/// those who asked for an address that a request is out for.
#[derive(Debug)]
pub struct ArpProcess {
    pub cache: ArpCache,
    pub waiting: Vec<Waiter>,
}

impl ArpProcess {
    pub fn new() -> (p: Self)
        ensures
            p.cache@ == Map::<u64, CacheEntry>::empty(),
            p.waiting@ == Seq::<Waiter>::empty(),
    {
        Self { cache: ArpCache::new(), waiting: Vec::new() }
    }

    /// Takes those who wait for `ip` off the list and gives their channels.
    fn wake(&mut self, ip: IpV4Addr) -> (channels: Vec<ChannelId>)
        ensures
            channels@ == woken(old(self).waiting@, ip),
            final(self).waiting@ == left_waiting(old(self).waiting@, ip),
            final(self).cache == old(self).cache,
    {
        let mut channels: Vec<ChannelId> = Vec::new();
        let mut left: Vec<Waiter> = Vec::new();
        let mut i: usize = 0;
        while i < self.waiting.len()
            invariant
                i <= self.waiting@.len(),
                self.waiting@ == old(self).waiting@,
                self.cache == old(self).cache,
                channels@ == woken(self.waiting@.subrange(0, i as int), ip),
                left@ == left_waiting(self.waiting@.subrange(0, i as int), ip),
            decreases self.waiting@.len() - i,
        {
            let w = self.waiting[i];
            proof {
                let next = self.waiting@.subrange(0, i + 1);
                assert(next.drop_last() =~= self.waiting@.subrange(0, i as int));
                assert(next.last() == w);
            }
            if w.ip == ip {
                channels.push(w.channel);
            } else {
                left.push(w);
            }
            i += 1;
        }
        assert(self.waiting@.subrange(0, i as int) =~= self.waiting@);
        self.waiting = left;
        channels
    }

    /// Ends the wait of whoever listens on `channel`: the answer is no
    /// longer wanted.
    pub fn forget(&mut self, channel: ChannelId)
        ensures
            final(self).waiting@ == without_channel(old(self).waiting@, channel),
            final(self).cache == old(self).cache,
    {
        let mut left: Vec<Waiter> = Vec::new();
        let mut i: usize = 0;
        while i < self.waiting.len()
            invariant
                i <= self.waiting@.len(),
                self.waiting@ == old(self).waiting@,
                self.cache == old(self).cache,
                left@ == without_channel(self.waiting@.subrange(0, i as int), channel),
            decreases self.waiting@.len() - i,
        {
            let w = self.waiting[i];
            proof {
                let next = self.waiting@.subrange(0, i + 1);
                assert(next.drop_last() =~= self.waiting@.subrange(0, i as int));
                assert(next.last() == w);
            }
            if w.channel != channel {
                left.push(w);
            }
            i += 1;
        }
        assert(self.waiting@.subrange(0, i as int) =~= self.waiting@);
        self.waiting = left;
    }

    /// Handles the packet `msg` that came up from `down_id`, sent by the
    /// station `source_mac`, at the time `now`. The sender of a packet for
    /// IPv4 over Ethernet is stored in the cache whether it was asked for or
    /// not; a request for `our_addr` is answered, and a reply to `our_addr`
    /// wakes the resolvers that wait for its sender.
    pub fn on_down_message(
        &mut self,
        our_addr: IpV4Addr,
        down_id: LinkLayerId,
        source_mac: Mac,
        msg: &[u8],
        now: Millis,
    ) -> (r: ArpIngress)
        ensures
            is_ingress_of(r, old(self).waiting@, our_addr, down_id, source_mac, msg@),
            final(self).cache@ == cache_after_ingress(old(self).cache@, down_id, msg@, now),
            final(self).waiting@ == waiting_after_ingress(old(self).waiting@, our_addr, msg@),
    {
        let packet = match ArpPacket::from_vec(msg) {
            Some(packet) => packet,
            None => {
                return ArpIngress::Undecodable;
            },
        };
        if !(packet.htype == HTYPE_ETHERNET && packet.ptype.to_u16() == IP_V4 && packet.hlen == 6
            && packet.plen == 4) {
            return ArpIngress::Unsupported;
        }
        proof {
            ArpMessage::lemma_decode_wf(msg@);
        }
        let sha = mac_of(&packet.sender_harware_address);
        let spa = addr_of(&packet.sender_protocol_address);
        self.cache.record(spa, down_id, sha, now);
        let ours = our_addr.as_arr();
        if !crate::bytes::bytes_eq(
            packet.target_protocol_address.as_slice(),
            ours.as_slice(),
        ) {
            return ArpIngress::Learned;
        }
        match packet.operation {
            Operation::Request => {
                proof {
                    down_id.spec_mac().lemma_len();
                    our_addr.lemma_len();
                }
                let reply = ArpPacket::new_reply(
                    packet.htype,
                    packet.ptype,
                    vstd::slice::slice_to_vec(down_id.mac().as_slice()),
                    vstd::slice::slice_to_vec(ours.as_slice()),
                    packet.sender_harware_address,
                    packet.sender_protocol_address,
                );
                ArpIngress::Reply { to: source_mac, payload: reply.to_vec() }
            },
            Operation::Reply => {
                let wake = self.wake(spa);
                ArpIngress::Resolved { ip: spa, mac: sha, wake }
            },
        }
    }

    /// The same, at the time the clock shows.
    pub fn on_down_message_now(
        &mut self,
        our_addr: IpV4Addr,
        down_id: LinkLayerId,
        source_mac: Mac,
        msg: &[u8],
    ) -> (r: ArpIngress)
        ensures
            is_ingress_of(r, old(self).waiting@, our_addr, down_id, source_mac, msg@),
            final(self).waiting@ == waiting_after_ingress(old(self).waiting@, our_addr, msg@),
            exists|now: Millis|
                final(self).cache@ == cache_after_ingress(old(self).cache@, down_id, msg@, now),
    {
        let now = crate::clock::now();
        self.on_down_message(our_addr, down_id, source_mac, msg, now)
    }

    /// Resolves `ip` on `link` at the time `now`, for whoever listens on
    /// `waiter`: from the cache where it holds an entry younger than `ttl`,
    /// else by a request broadcast over that link and no other, whose
    /// answer the asker then waits for. A stale entry is removed. The
    /// request names the link's hardware address as it stands in `links`.
    pub fn resolve(
        &mut self,
        links: &LinkTable,
        our_addr: IpV4Addr,
        ip: IpV4Addr,
        link: LinkLayerId,
        waiter: ChannelId,
        now: Millis,
        ttl: Millis,
    ) -> (r: ArpResolve)
        ensures
            is_resolve_of(
                r,
                old(self).cache.spec_lookup(ip, link, now, ttl),
                links@,
                our_addr,
                ip,
                link,
            ),
            final(self).cache@ == old(self).cache.after_lookup(ip, link, now, ttl),
            final(self).waiting@ == waiting_after_resolve(old(self).waiting@, r, ip, waiter),
    {
        match self.cache.lookup(ip, link, now, ttl) {
            Some(mac) => ArpResolve::Hit(mac),
            None => match links.find(link) {
                Some(registered) => {
                    proof {
                        registered.spec_mac().lemma_len();
                        our_addr.lemma_len();
                        ip.lemma_len();
                    }
                    let request = ArpPacket::new_request(
                        HTYPE_ETHERNET,
                        EtherType::ip_v4(),
                        vstd::slice::slice_to_vec(registered.mac().as_slice()),
                        vstd::slice::slice_to_vec(our_addr.as_arr().as_slice()),
                        vstd::slice::slice_to_vec(ip.as_arr().as_slice()),
                    );
                    self.waiting.push(Waiter { ip, channel: waiter });
                    ArpResolve::Request {
                        link: registered,
                        to: Mac::broadcast(),
                        payload: request.to_vec(),
                    }
                },
                None => ArpResolve::NoLink,
            },
        }
    }

    /// The same, at the time the clock shows.
    pub fn resolve_now(
        &mut self,
        links: &LinkTable,
        our_addr: IpV4Addr,
        ip: IpV4Addr,
        link: LinkLayerId,
        waiter: ChannelId,
        ttl: Millis,
    ) -> (r: ArpResolve)
        ensures
            final(self).waiting@ == waiting_after_resolve(old(self).waiting@, r, ip, waiter),
            exists|now: Millis|
                {
                    &&& is_resolve_of(
                        r,
                        old(self).cache.spec_lookup(ip, link, now, ttl),
                        links@,
                        our_addr,
                        ip,
                        link,
                    )
                    &&& final(self).cache@ == old(self).cache.after_lookup(ip, link, now, ttl)
                },
    {
        let now = crate::clock::now();
        self.resolve(links, our_addr, ip, link, waiter, now, ttl)
    }
}

} // verus!
