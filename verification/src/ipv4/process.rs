//! The IPv4 process: local delivery, forwarding with the TTL, and the
//! datagrams it builds for the transports.

use vstd::prelude::*;
use crate::chassis::{LinkLayerId, TransportLayerId};
use crate::icmp::packet::{IcmpMessage, IcmpPacket, TimeExceeded};
use crate::ipv4::addr::IpV4Addr;
use crate::ipv4::config::IpV4ConfigInner;
use crate::ipv4::packet::{
    Ipv4Datagram,
    Ipv4Packet,
    MAX_PAYLOAD,
    spec_decrement_ttl,
    spec_fresh_header,
    spec_quote,
};
use crate::ipv4::protocol::{ProtocolType, ICMP, TCP, UDP};
use crate::mac::Mac;
use crate::route::{RoutingEntry, spec_get_route};

verus! {

/// What the process does with a payload that a transport hands down.
#[derive(Debug, PartialEq, Eq)]
pub enum Ipv4Egress {
    /// No row of the routing table applies to the destination: dropped.
    NoRoute(IpV4Addr),
    /// The payload does not fit a datagram: dropped.
    TooLong,
    /// The datagram is built. It leaves through `iface` for the station of
    /// `next_hop`, once ARP has told that station's hardware address.
    Resolve { next_hop: IpV4Addr, iface: LinkLayerId, packet: Ipv4Packet },
}

/// What the process does with a datagram that came up from a link.
#[derive(Debug, PartialEq, Eq)]
pub enum Ipv4Ingress {
    /// The octets are no datagram: dropped.
    Undecodable,
    /// The TTL is zero: dropped, and a time-exceeded message goes back to
    /// the source, as far as there is a way to it.
    Expired(Ipv4Egress),
    /// For this host: the payload goes up to the transport of its protocol.
    Deliver { to: TransportLayerId, source: IpV4Addr, ttl: u8, payload: Vec<u8> },
    /// For this host, of a protocol that no transport speaks: dropped.
    UnknownProtocol(ProtocolType),
    /// For another host: the datagram, its TTL one less, leaves through
    /// `iface` for the station of `next_hop`, once ARP has told that
    /// station's hardware address.
    Forward { next_hop: IpV4Addr, iface: LinkLayerId, packet: Ipv4Packet },
    /// For another host that no row of the routing table applies to:
    /// dropped.
    NoRoute(IpV4Addr),
}

/// The protocol number of a transport.
pub open spec fn spec_protocol_of(id: TransportLayerId) -> u8 {
    match id {
        TransportLayerId::Tcp => TCP,
        TransportLayerId::Udp => UDP,
        TransportLayerId::Icmp => ICMP,
    }
}

/// The transport of a protocol number.
pub open spec fn spec_transport_of(protocol: ProtocolType) -> Option<TransportLayerId> {
    if protocol.0 == TCP {
        Some(TransportLayerId::Tcp)
    } else if protocol.0 == UDP {
        Some(TransportLayerId::Udp)
    } else if protocol.0 == ICMP {
        Some(TransportLayerId::Icmp)
    } else {
        None
    }
}

/// The protocol number of a transport.
pub fn protocol_of(id: TransportLayerId) -> (p: ProtocolType)
    ensures
        p.0 == spec_protocol_of(id),
{
    match id {
        TransportLayerId::Tcp => ProtocolType::new(TCP),
        TransportLayerId::Udp => ProtocolType::new(UDP),
        TransportLayerId::Icmp => ProtocolType::new(ICMP),
    }
}

/// The transport of a protocol number.
pub fn transport_of(protocol: ProtocolType) -> (id: Option<TransportLayerId>)
    ensures
        id == spec_transport_of(protocol),
{
    let number: u8 = protocol.inner();
    if number == TCP {
        Some(TransportLayerId::Tcp)
    } else if number == UDP {
        Some(TransportLayerId::Udp)
    } else if number == ICMP {
        Some(TransportLayerId::Icmp)
    } else {
        None
    }
}

/// Whether `r` is what a host of address `addr` and routing rows `rows`
/// does with the payload `msg` that the transport `up_id` hands down for
/// `target`.
pub open spec fn is_egress_of(
    r: Ipv4Egress,
    addr: IpV4Addr,
    rows: Seq<RoutingEntry>,
    target: IpV4Addr,
    ttl: Option<u8>,
    up_id: TransportLayerId,
    msg: Seq<u8>,
) -> bool {
    match spec_get_route(rows, target) {
        None => r == Ipv4Egress::NoRoute(target),
        Some((hop, through)) => if msg.len() > MAX_PAYLOAD {
            r == Ipv4Egress::TooLong
        } else {
            r matches Ipv4Egress::Resolve { next_hop, iface, packet } && next_hop == hop && iface
                == through && packet@ == (Ipv4Datagram {
                header: spec_fresh_header(addr, target, ttl, spec_protocol_of(up_id), msg.len()),
                payload: msg,
            })
        },
    }
}

/// Whether `r` is what a host of address `addr` and routing rows `rows`
/// does with the octets `msg` that came up from a link.
pub open spec fn is_ingress_of(
    r: Ipv4Ingress,
    addr: IpV4Addr,
    rows: Seq<RoutingEntry>,
    msg: Seq<u8>,
) -> bool {
    match Ipv4Datagram::decode(msg) {
        None => r == Ipv4Ingress::Undecodable,
        Some(d) => if d.header.time_to_live == 0 {
            r matches Ipv4Ingress::Expired(reply) && is_egress_of(
                reply,
                addr,
                rows,
                d.header.source,
                None,
                TransportLayerId::Icmp,
                (IcmpMessage::TtlTransit { data: spec_quote(msg) }).encode(),
            )
        } else if d.header.destination == addr {
            match spec_transport_of(d.header.protocol) {
                Some(id) => r matches Ipv4Ingress::Deliver { to, source, ttl, payload } && to == id
                    && source == d.header.source && ttl == d.header.time_to_live && payload@
                    == d.payload,
                None => r == Ipv4Ingress::UnknownProtocol(d.header.protocol),
            }
        } else {
            match spec_get_route(rows, d.header.destination) {
                Some((hop, through)) => r matches Ipv4Ingress::Forward { next_hop, iface, packet }
                    && next_hop == hop && iface == through && packet@ == (Ipv4Datagram {
                    header: spec_decrement_ttl(d.header),
                    payload: d.payload,
                }),
                None => r == Ipv4Ingress::NoRoute(d.header.destination),
            }
        },
    }
}

/// Whether the datagram that `r` holds, if it holds one, can be put on the
/// wire.
pub open spec fn egress_can_emit(r: Ipv4Egress) -> bool {
    r matches Ipv4Egress::Resolve { packet, .. } ==> packet@.header.options_fit()
}

/// Whether the datagram that `r` holds, if it holds one, can be put on the
/// wire.
pub open spec fn ingress_can_emit(r: Ipv4Ingress) -> bool {
    match r {
        Ipv4Ingress::Expired(reply) => egress_can_emit(reply),
        Ipv4Ingress::Forward { packet, .. } => packet@.header.options_fit(),
        _ => true,
    }
}

/// Handles the payload `msg` that the transport `up_id` hands down for
/// `target_ip`: looks up the route and builds the datagram.
pub fn send_message(
    config: &IpV4ConfigInner,
    target_ip: IpV4Addr,
    ttl: Option<u8>,
    up_id: TransportLayerId,
    msg: Vec<u8>,
) -> (r: Ipv4Egress)
    ensures
        is_egress_of(r, config.addr, config.routing@, target_ip, ttl, up_id, msg@),
        egress_can_emit(r),
{
    match config.routing.get_route(target_ip) {
        None => Ipv4Egress::NoRoute(target_ip),
        Some((next_hop, iface)) => {
            if msg.len() > MAX_PAYLOAD {
                Ipv4Egress::TooLong
            } else {
                let packet = Ipv4Packet::fresh(
                    config.addr,
                    target_ip,
                    ttl,
                    protocol_of(up_id),
                    msg,
                );
                Ipv4Egress::Resolve { next_hop, iface, packet }
            }
        },
    }
}

/// Handles the octets `msg` that came up from a link. A datagram whose TTL
/// is zero is dropped and answered with a time-exceeded message that quotes
/// it; one for this host goes up to its transport; any other is forwarded
/// with its TTL one less.
pub fn on_down_message(config: &IpV4ConfigInner, msg: &[u8]) -> (r: Ipv4Ingress)
    ensures
        is_ingress_of(r, config.addr, config.routing@, msg@),
        ingress_can_emit(r),
{
    let (packet, quote) = match Ipv4Packet::from_vec_quoted(msg) {
        Some(found) => found,
        None => {
            return Ipv4Ingress::Undecodable;
        },
    };
    proof {
        Ipv4Datagram::lemma_decode_wf(msg@);
    }
    let mut packet = packet;
    if packet.header.time_to_live == 0 {
        let notice = IcmpPacket::TimeExceeded(TimeExceeded::TtlTransit { data: quote });
        return Ipv4Ingress::Expired(
            send_message(
                config,
                packet.header.source,
                None,
                TransportLayerId::Icmp,
                notice.to_vec(),
            ),
        );
    }
    if packet.header.destination == config.addr {
        match transport_of(packet.header.protocol) {
            Some(to) => Ipv4Ingress::Deliver {
                to,
                source: packet.header.source,
                ttl: packet.header.time_to_live,
                payload: packet.payload,
            },
            None => Ipv4Ingress::UnknownProtocol(packet.header.protocol),
        }
    } else {
        match config.routing.get_route(packet.header.destination) {
            Some((next_hop, iface)) => {
                packet.header.time_to_live = packet.header.time_to_live - 1;
                Ipv4Ingress::Forward { next_hop, iface, packet }
            },
            None => Ipv4Ingress::NoRoute(packet.header.destination),
        }
    }
}

/// Whether the datagram can be put on the wire: its options fill whole
/// words and fit the header. Every datagram that the process builds or
/// forwards can.
pub fn can_emit(packet: &Ipv4Packet) -> (b: bool)
    ensures
        b == packet@.header.options_fit(),
{
    packet.header.options_fit()
}

/// What leaves for the link once ARP has answered: the datagram for the
/// station `dest_mac`, or nothing where ARP had no answer in time.
pub fn emit(packet: &Ipv4Packet, resolved: Option<Mac>) -> (r: Option<(Mac, Vec<u8>)>)
    requires
        packet@.header.options_fit(),
    ensures
        match resolved {
            Some(dest_mac) => r is Some && r.unwrap().0 == dest_mac && r.unwrap().1@
                == packet@.encode(),
            None => r is None,
        },
{
    match resolved {
        Some(dest_mac) => Some((dest_mac, packet.to_vec())),
        None => None,
    }
}

} // verus!
