//! The ICMP process: it answers echo requests, matches echo replies with
//! those who wait for them, and tells those who subscribed when a datagram
//! of theirs ran out of TTL.

use vstd::prelude::*;
use std::collections::HashMap;
use crate::bytes::bytes_eq;
use crate::chassis::{ChannelId, NetworkTransportMessage};
use crate::icmp::packet::{IcmpMessage, IcmpPacket, TimeExceeded};
use crate::ipv4::addr::IpV4Addr;
use crate::search::{first_index, lemma_first_index_unique};

verus! {

broadcast use vstd::std_specs::hash::group_hash_axioms;

/// The TTL that an echo is reported with where the network layer told none.
pub const DEFAULT_TTL: u8 = 255;

/// The number that stands for an echo in the table of those that are
/// waited for: identifier, sequence number and address, 16, 16 and 32 bits.
pub open spec fn spec_echo_key(id: u16, seq: u16, ip: IpV4Addr) -> u64 {
    ((id as int * 65536 + seq) * 4294967296 + crate::bytes::spec_pack4(
        ip@[0],
        ip@[1],
        ip@[2],
        ip@[3],
    )) as u64
}

/// Different echoes have different keys.
#[verifier::rlimit(50)]
pub proof fn lemma_echo_key_injective(
    id: u16,
    seq: u16,
    ip: IpV4Addr,
    other_id: u16,
    other_seq: u16,
    other_ip: IpV4Addr,
)
    requires
        spec_echo_key(id, seq, ip) == spec_echo_key(other_id, other_seq, other_ip),
    ensures
        id == other_id,
        seq == other_seq,
        ip == other_ip,
{
    ip.lemma_len();
    other_ip.lemma_len();
    let n = crate::bytes::spec_pack4(ip@[0], ip@[1], ip@[2], ip@[3]);
    let m = crate::bytes::spec_pack4(other_ip@[0], other_ip@[1], other_ip@[2], other_ip@[3]);
    crate::bytes::lemma_pack4(ip@[0], ip@[1], ip@[2], ip@[3]);
    crate::bytes::lemma_pack4(other_ip@[0], other_ip@[1], other_ip@[2], other_ip@[3]);
    let h = id as int * 65536 + seq;
    let g = other_id as int * 65536 + other_seq;
    let k = h * 4294967296 + n;
    let l = g * 4294967296 + m;
    assert(0 <= h < 0x1_0000_0000 && 0 <= g < 0x1_0000_0000);
    assert(0 <= k < 0x1_0000_0000_0000_0000 && 0 <= l < 0x1_0000_0000_0000_0000);
    assert(k == l);
    assert(k / 4294967296 == h && l / 4294967296 == g);
    assert(k % 4294967296 == n && l % 4294967296 == m);
    assert(h / 65536 == id && g / 65536 == other_id);
    assert(h % 65536 == seq && g % 65536 == other_seq);
    assert(ip@ =~= other_ip@);
    ip.lemma_view_injective(other_ip);
}

/// The key of an echo.
pub fn echo_key(id: u16, seq: u16, ip: IpV4Addr) -> (key: u64)
    ensures
        key == spec_echo_key(id, seq, ip),
{
    let o = ip.as_arr();
    proof {
        ip.lemma_len();
        crate::bytes::lemma_pack4(ip@[0], ip@[1], ip@[2], ip@[3]);
    }
    let a: u64 = o[0] as u64;
    let b: u64 = o[1] as u64;
    let c: u64 = o[2] as u64;
    let d: u64 = o[3] as u64;
    (id as u64 * 65536 + seq as u64) * 4294967296 + ((a * 256 + b) * 256 + c) * 256 + d
}

/// A subscription: whoever listens on `channel` is told of every
/// time-exceeded message that quotes exactly the octets `payload`.
#[derive(Debug, PartialEq, Eq)]
pub struct TtlHandler {
    pub payload: Vec<u8>,
    pub channel: ChannelId,
}

/// What a subscription holds, as mathematical values.
pub ghost struct TtlHandlerView {
    pub payload: Seq<u8>,
    pub channel: ChannelId,
}

impl View for TtlHandler {
    type V = TtlHandlerView;

    open spec fn view(&self) -> TtlHandlerView {
        TtlHandlerView { payload: self.payload@, channel: self.channel }
    }
}

/// What the process does with a message that came up from the network
/// layer.
#[derive(Debug, PartialEq, Eq)]
pub enum IcmpIngress {
    /// The octets are no message that the process knows: dropped.
    Undecodable,
    /// An echo request: the message, which holds the echo reply for the
    /// sender and asks for the default TTL, goes down to the network layer.
    Reply(NetworkTransportMessage),
    /// An echo reply that was waited for: the waiter on `channel` gets the
    /// identifier, the sequence number, the address and the TTL, and waits
    /// no longer.
    Echoed { channel: ChannelId, id: u16, seq: u16, addr: IpV4Addr, ttl: u8 },
    /// An echo reply that nobody waits for: dropped.
    Unexpected,
    /// A time-exceeded message that quotes what a subscriber named: the
    /// subscriber on `channel` gets the address of the router that sent it.
    Exceeded { channel: ChannelId, addr: IpV4Addr },
    /// A time-exceeded message that quotes what nobody named: dropped.
    Unclaimed,
}

/// The views of the subscriptions.
pub open spec fn handler_views(handlers: Seq<TtlHandler>) -> Seq<TtlHandlerView> {
    handlers.map_values(|h: TtlHandler| h@)
}

/// The index of the first subscription for the octets `data`, or the
/// number of subscriptions where there is none.
pub open spec fn first_handler(handlers: Seq<TtlHandlerView>, data: Seq<u8>) -> int {
    first_index(handlers, |h: TtlHandlerView| h.payload == data)
}

/// The subscriptions after one for `payload` on `channel` was made: it takes
/// the place of the one for the same octets, or the end.
pub open spec fn spec_subscribe(
    handlers: Seq<TtlHandlerView>,
    payload: Seq<u8>,
    channel: ChannelId,
) -> Seq<TtlHandlerView> {
    if first_handler(handlers, payload) < handlers.len() {
        handlers.update(first_handler(handlers, payload), TtlHandlerView { payload, channel })
    } else {
        handlers.push(TtlHandlerView { payload, channel })
    }
}

/// The subscriptions after the one for `payload` was dropped.
pub open spec fn spec_unsubscribe(handlers: Seq<TtlHandlerView>, payload: Seq<u8>) -> Seq<
    TtlHandlerView,
> {
    if first_handler(handlers, payload) < handlers.len() {
        handlers.remove(first_handler(handlers, payload))
    } else {
        handlers
    }
}

/// No two subscriptions are for the same octets.
pub open spec fn distinct_payloads(handlers: Seq<TtlHandlerView>) -> bool {
    forall|i: int, j: int|
        0 <= i < j < handlers.len() ==> (#[trigger] handlers[i]).payload
            != (#[trigger] handlers[j]).payload
}

/// A new subscription among subscriptions for different octets leaves them
/// for different octets.
pub proof fn lemma_subscribe_keeps_distinct(
    handlers: Seq<TtlHandlerView>,
    payload: Seq<u8>,
    channel: ChannelId,
)
    requires
        distinct_payloads(handlers),
    ensures
        distinct_payloads(spec_subscribe(handlers, payload, channel)),
{
    let wanted = |h: TtlHandlerView| h.payload == payload;
    crate::search::lemma_first_index(handlers, wanted);
    let p = first_handler(handlers, payload);
    let after = spec_subscribe(handlers, payload, channel);
    assert forall|i: int, j: int| 0 <= i < j < after.len() implies (#[trigger] after[i]).payload
        != (#[trigger] after[j]).payload by {
        if p < handlers.len() {
            assert(wanted(handlers[p]));
            if i == p {
                assert(handlers[p].payload != handlers[j].payload);
            } else if j == p {
                assert(handlers[i].payload != handlers[p].payload);
            } else {
                assert(handlers[i].payload != handlers[j].payload);
            }
        } else {
            if j == handlers.len() {
                assert(!wanted(handlers[i]));
            } else {
                assert(handlers[i].payload != handlers[j].payload);
            }
        }
    }
}

/// Dropping a subscription leaves the others for different octets.
pub proof fn lemma_unsubscribe_keeps_distinct(handlers: Seq<TtlHandlerView>, payload: Seq<u8>)
    requires
        distinct_payloads(handlers),
    ensures
        distinct_payloads(spec_unsubscribe(handlers, payload)),
{
    let wanted = |h: TtlHandlerView| h.payload == payload;
    crate::search::lemma_first_index(handlers, wanted);
    let p = first_handler(handlers, payload);
    let after = spec_unsubscribe(handlers, payload);
    if p < handlers.len() {
        assert forall|i: int, j: int| 0 <= i < j < after.len() implies (#[trigger] after[i]).payload
            != (#[trigger] after[j]).payload by {
            let oi = if i < p {
                i
            } else {
                i + 1
            };
            let oj = if j < p {
                j
            } else {
                j + 1
            };
            assert(after[i] == handlers[oi] && after[j] == handlers[oj]);
            assert(handlers[oi].payload != handlers[oj].payload);
        }
    }
}

/// The TTL that an echo is reported with.
pub open spec fn spec_reported_ttl(ttl: Option<u8>) -> u8 {
    match ttl {
        Some(ttl) => ttl,
        None => DEFAULT_TTL,
    }
}

/// Whether `message` hands the network layer the octets `octets` for `to`,
/// to be sent with the default TTL.
pub open spec fn is_message(message: NetworkTransportMessage, to: IpV4Addr, octets: Seq<u8>)
    -> bool {
    message matches NetworkTransportMessage::IPv4(target, ttl, payload) && target == to
        && ttl is None && payload@ == octets
}

/// Whether `r` is what the process does with the octets `msg` that came
/// from `addr` with the TTL `ttl`, `echoes` being waited for and `handlers`
/// subscribed.
pub open spec fn is_ingress_of(
    r: IcmpIngress,
    echoes: Map<u64, ChannelId>,
    handlers: Seq<TtlHandlerView>,
    addr: IpV4Addr,
    ttl: Option<u8>,
    msg: Seq<u8>,
) -> bool {
    match IcmpMessage::decode(msg) {
        None => r == IcmpIngress::Undecodable,
        Some(IcmpMessage::EchoRequest { id, seq }) => r matches IcmpIngress::Reply(message)
            && is_message(message, addr, (IcmpMessage::EchoReply { id, seq }).encode()),
        Some(IcmpMessage::EchoReply { id, seq }) => if echoes.contains_key(
            spec_echo_key(id, seq, addr),
        ) {
            r == (IcmpIngress::Echoed {
                channel: echoes[spec_echo_key(id, seq, addr)],
                id,
                seq,
                addr,
                ttl: spec_reported_ttl(ttl),
            })
        } else {
            r == IcmpIngress::Unexpected
        },
        Some(IcmpMessage::TtlTransit { data }) => if first_handler(handlers, data)
            < handlers.len() {
            r == (IcmpIngress::Exceeded {
                channel: handlers[first_handler(handlers, data)].channel,
                addr,
            })
        } else {
            r == IcmpIngress::Unclaimed
        },
    }
}

/// The echoes waited for after the octets `msg` came from `addr`: an echo
/// reply ends the wait for it.
pub open spec fn echoes_after(echoes: Map<u64, ChannelId>, addr: IpV4Addr, msg: Seq<u8>) -> Map<
    u64,
    ChannelId,
> {
    match IcmpMessage::decode(msg) {
        Some(IcmpMessage::EchoReply { id, seq }) => echoes.remove(spec_echo_key(id, seq, addr)),
        _ => echoes,
    }
}

/// The ICMP process of a chassis.
#[derive(Debug)]
pub struct IcmpProcess {
    echo_data_ip_v4: HashMap<u64, ChannelId>,
    ttl_handler_ip_v4: Vec<TtlHandler>,
}

impl IcmpProcess {
    /// The echoes that are waited for, by key, with the channel of who
    /// waits.
    pub closed spec fn echoes(&self) -> Map<u64, ChannelId> {
        self.echo_data_ip_v4@
    }

    /// The subscriptions to time-exceeded messages.
    pub closed spec fn handlers(&self) -> Seq<TtlHandlerView> {
        handler_views(self.ttl_handler_ip_v4@)
    }

    /// No two subscriptions are for the same octets.
    pub open spec fn wf(&self) -> bool {
        distinct_payloads(self.handlers())
    }

    pub fn new() -> (p: Self)
        ensures
            p.echoes() == Map::<u64, ChannelId>::empty(),
            p.handlers() == Seq::<TtlHandlerView>::empty(),
            p.wf(),
    {
        let p = Self { echo_data_ip_v4: HashMap::new(), ttl_handler_ip_v4: Vec::new() };
        assert(p.handlers() =~= Seq::<TtlHandlerView>::empty());
        p
    }

    /// The index of the first subscription for `data`.
    fn find_handler(&self, data: &[u8]) -> (i: usize)
        ensures
            i == first_handler(self.handlers(), data@),
            i <= self.handlers().len(),
            self.handlers().len() == self.ttl_handler_ip_v4@.len(),
    {
        let mut i: usize = 0;
        let ghost wanted = |h: TtlHandlerView| h.payload == data@;
        while i < self.ttl_handler_ip_v4.len() && !bytes_eq(
            self.ttl_handler_ip_v4[i].payload.as_slice(),
            data,
        )
            invariant
                i <= self.ttl_handler_ip_v4@.len(),
                self.handlers().len() == self.ttl_handler_ip_v4@.len(),
                wanted == |h: TtlHandlerView| h.payload == data@,
                forall|k: int| 0 <= k < i ==> !wanted(#[trigger] self.handlers()[k]),
            decreases self.ttl_handler_ip_v4@.len() - i,
        {
            i += 1;
        }
        proof {
            lemma_first_index_unique(self.handlers(), wanted, i as int);
        }
        i
    }

    /// Handles the octets `payload` that came from `addr` with the TTL
    /// `ttl`. An echo request is answered; an echo reply goes to who waits
    /// for it, who then waits no longer; a time-exceeded message goes to
    /// who subscribed to exactly the octets it quotes.
    pub fn on_down_message(&mut self, addr: IpV4Addr, ttl: Option<u8>, payload: &[u8]) -> (r:
        IcmpIngress)
        ensures
            is_ingress_of(r, old(self).echoes(), old(self).handlers(), addr, ttl, payload@),
            final(self).echoes() == echoes_after(old(self).echoes(), addr, payload@),
            final(self).handlers() == old(self).handlers(),
    {
        let msg = match IcmpPacket::from_vec(payload) {
            Some(msg) => msg,
            None => {
                return IcmpIngress::Undecodable;
            },
        };
        match msg {
            IcmpPacket::EchoRequest { id, seq } => IcmpIngress::Reply(
                NetworkTransportMessage::IPv4(
                    addr,
                    None,
                    (IcmpPacket::EchoReply { id, seq }).to_vec(),
                ),
            ),
            IcmpPacket::EchoReply { id, seq } => {
                let key = echo_key(id, seq, addr);
                match self.echo_data_ip_v4.remove(&key) {
                    Some(channel) => IcmpIngress::Echoed {
                        channel,
                        id,
                        seq,
                        addr,
                        ttl: match ttl {
                            Some(ttl) => ttl,
                            None => DEFAULT_TTL,
                        },
                    },
                    None => {
                        assert(self.echoes() =~= old(self).echoes());
                        assert(self.echoes() =~= old(self).echoes().remove(key));
                        IcmpIngress::Unexpected
                    },
                }
            },
            IcmpPacket::TimeExceeded(TimeExceeded::TtlTransit { data }) => {
                let i = self.find_handler(data.as_slice());
                if i < self.ttl_handler_ip_v4.len() {
                    IcmpIngress::Exceeded { channel: self.ttl_handler_ip_v4[i].channel, addr }
                } else {
                    IcmpIngress::Unclaimed
                }
            },
        }
    }

    /// Starts the wait for the reply to an echo: whoever listens on
    /// `channel` will get it. The answer is the message for the network
    /// layer: the echo request for `ip`, to be sent with the default TTL.
    pub fn echo_ip_v4(&mut self, id: u16, seq: u16, ip: IpV4Addr, channel: ChannelId) -> (request:
        NetworkTransportMessage)
        ensures
            is_message(request, ip, (IcmpMessage::EchoRequest { id, seq }).encode()),
            final(self).echoes() == old(self).echoes().insert(spec_echo_key(id, seq, ip), channel),
            final(self).handlers() == old(self).handlers(),
    {
        self.echo_data_ip_v4.insert(echo_key(id, seq, ip), channel);
        NetworkTransportMessage::IPv4(ip, None, (IcmpPacket::EchoRequest { id, seq }).to_vec())
    }

    /// Gives up the wait for the reply to an echo.
    pub fn forget_echo(&mut self, id: u16, seq: u16, ip: IpV4Addr)
        ensures
            final(self).echoes() == old(self).echoes().remove(spec_echo_key(id, seq, ip)),
            final(self).handlers() == old(self).handlers(),
    {
        let key = echo_key(id, seq, ip);
        self.echo_data_ip_v4.remove(&key);
    }

    /// Subscribes whoever listens on `channel` to the time-exceeded
    /// messages that quote exactly `payload`. An earlier subscription to the
    /// same octets is replaced.
    pub fn set_ttl_handler(&mut self, payload: Vec<u8>, channel: ChannelId)
        requires
            old(self).wf(),
        ensures
            final(self).handlers() == spec_subscribe(old(self).handlers(), payload@, channel),
            final(self).echoes() == old(self).echoes(),
            final(self).wf(),
    {
        proof {
            lemma_subscribe_keeps_distinct(self.handlers(), payload@, channel);
        }
        let i = self.find_handler(payload.as_slice());
        if i < self.ttl_handler_ip_v4.len() {
            self.ttl_handler_ip_v4.set(i, TtlHandler { payload, channel });
        } else {
            self.ttl_handler_ip_v4.push(TtlHandler { payload, channel });
        }
        assert(self.handlers() =~= spec_subscribe(old(self).handlers(), payload@, channel));
    }

    /// Drops the subscription to `payload`: its channel was found closed.
    pub fn drop_ttl_handler(&mut self, payload: &[u8])
        requires
            old(self).wf(),
        ensures
            final(self).handlers() == spec_unsubscribe(old(self).handlers(), payload@),
            final(self).echoes() == old(self).echoes(),
            final(self).wf(),
    {
        proof {
            lemma_unsubscribe_keeps_distinct(self.handlers(), payload@);
        }
        let i = self.find_handler(payload);
        if i < self.ttl_handler_ip_v4.len() {
            self.ttl_handler_ip_v4.remove(i);
        }
        assert(self.handlers() =~= spec_unsubscribe(old(self).handlers(), payload@));
    }
}

} // verus!
