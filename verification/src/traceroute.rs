//! The steps of a traceroute: probes with a growing TTL, until the target
//! answers, a probe goes unanswered, or the hops run out.

use vstd::prelude::*;
use crate::ipv4::addr::IpV4Addr;
use crate::ipv4::packet::{Ipv4Datagram, Ipv4Packet, spec_fresh_header, spec_quote};
use crate::ipv4::protocol::{ProtocolType, UDP};
use crate::udp::packet::{UdpDatagram, UdpPacket};

verus! {

/// The most octets of payload that a probe can carry: what fits a UDP
/// datagram inside an IPv4 datagram without options.
pub const MAX_PROBE: usize = 65507;

/// The probe as the router that drops it sees it: a UDP datagram from
/// `port` to port 0, in an IPv4 datagram from `source` to `target` whose TTL
/// has run down to zero.
pub open spec fn spec_probe(source: IpV4Addr, target: IpV4Addr, port: u16, payload: Seq<u8>)
    -> Ipv4Datagram {
    let datagram = UdpDatagram { source_port: port, destination_port: 0, payload };
    Ipv4Datagram {
        header: spec_fresh_header(source, target, Some(0u8), UDP, datagram.encode().len()),
        payload: datagram.encode(),
    }
}

/// The octets that a time-exceeded message for a probe quotes: what to
/// subscribe to in order to hear of the routers that the probes run out at.
/// `None` where the payload is too long for a probe.
pub fn expected_quote(source: IpV4Addr, target: IpV4Addr, port: u16, payload: Vec<u8>) -> (q:
    Option<Vec<u8>>)
    ensures
        q is Some == (payload@.len() <= MAX_PROBE),
        q is Some ==> q.unwrap()@ == spec_quote(
            spec_probe(source, target, port, payload@).encode(),
        ),
{
    if payload.len() > MAX_PROBE {
        return None;
    }
    let datagram = UdpPacket { source_port: port, destination_port: 0, payload };
    proof {
        datagram@.lemma_encode_layout();
    }
    let packet = Ipv4Packet::fresh(
        source,
        target,
        Some(0),
        ProtocolType::new(UDP),
        datagram.to_vec(),
    );
    proof {
        packet@.lemma_decode_encode();
    }
    let octets = packet.to_vec();
    match Ipv4Packet::from_vec_quoted(octets.as_slice()) {
        Some((_, quote)) => Some(quote),
        None => None,
    }
}

/// Why a traceroute ended.
#[derive(Debug, Clone, Copy, PartialEq, Eq, Structural)]
pub enum TraceEnd {
    /// The target answered.
    Reached,
    /// No answer came in time.
    Timeout,
    /// The subscription to the answers was found closed.
    Disconnected,
    /// The hops that were allowed are used up.
    MaxHops,
}

/// What came of a probe.
#[derive(Debug, Clone, Copy, PartialEq, Eq)]
pub enum ProbeResult {
    /// A router, or the target, said that the probe ran out of TTL there.
    Reply(IpV4Addr),
    Timeout,
    Disconnected,
}

/// A traceroute in progress.
#[derive(Debug, Clone, Copy, PartialEq, Eq)]
pub struct Traceroute {
    pub target: IpV4Addr,
    /// The TTL of the next probe, which is also the number of the hop it
    /// asks for. `None` once all 256 TTLs were tried.
    pub hop: Option<u8>,
    /// How many probes may still be sent; no limit where `None`.
    pub remaining: Option<usize>,
}

impl Traceroute {
    /// A traceroute to `target` that sends at most `max_hops` probes.
    pub fn new(target: IpV4Addr, max_hops: Option<usize>) -> (t: Self)
        ensures
            t == (Traceroute { target, hop: Some(0u8), remaining: max_hops }),
    {
        Self { target, hop: Some(0), remaining: max_hops }
    }

    /// The TTL of the next probe, if one may be sent.
    pub open spec fn spec_next_probe(&self) -> Option<u8> {
        if self.remaining == Some(0usize) {
            None
        } else {
            self.hop
        }
    }

    /// Takes the TTL for the next probe, the first being 0. `None` where
    /// the hops that were allowed are used up.
    pub fn next_probe(&mut self) -> (ttl: Option<u8>)
        ensures
            ttl == old(self).spec_next_probe(),
            final(self).target == old(self).target,
            final(self).hop == old(self).hop,
            final(self).remaining == match old(self).remaining {
                Some(n) => if n > 0 && ttl is Some {
                    Some((n - 1) as usize)
                } else {
                    Some(n)
                },
                None => None,
            },
    {
        match self.remaining {
            Some(n) => {
                if n == 0 {
                    return None;
                }
                if self.hop.is_some() {
                    self.remaining = Some(n - 1);
                }
            },
            None => {},
        }
        self.hop
    }

    /// Takes what came of the probe for the present hop. An answer names
    /// the hop; the traceroute ends where the answer is the target's, where
    /// none came, and where the subscription is closed, and goes on to the
    /// next hop otherwise.
    pub fn on_result(&mut self, result: ProbeResult) -> (end: Option<TraceEnd>)
        ensures
            final(self).target == old(self).target,
            final(self).remaining == old(self).remaining,
            end == match result {
                ProbeResult::Reply(from) => if from == old(self).target {
                    Some(TraceEnd::Reached)
                } else {
                    None
                },
                ProbeResult::Timeout => Some(TraceEnd::Timeout),
                ProbeResult::Disconnected => Some(TraceEnd::Disconnected),
            },
            final(self).hop == if end is None {
                match old(self).hop {
                    Some(h) => if h < 255 {
                        Some((h + 1) as u8)
                    } else {
                        None
                    },
                    None => None,
                }
            } else {
                old(self).hop
            },
    {
        match result {
            ProbeResult::Reply(from) => {
                if from == self.target {
                    Some(TraceEnd::Reached)
                } else {
                    self.hop = match self.hop {
                        Some(h) => if h < 255 {
                            Some(h + 1)
                        } else {
                            None
                        },
                        None => None,
                    };
                    None
                }
            },
            ProbeResult::Timeout => Some(TraceEnd::Timeout),
            ProbeResult::Disconnected => Some(TraceEnd::Disconnected),
        }
    }
}

} // verus!
