//! The UDP process: which socket is bound to which port, what a socket
//! sends, and where a datagram from the network layer goes.

use vstd::prelude::*;
use std::collections::HashMap;
use crate::chassis::{ChannelId, NetworkTransportMessage};
use crate::ipv4::addr::IpV4Addr;
use crate::udp::packet::{UdpDatagram, UdpPacket, MAX_PAYLOAD};

verus! {

broadcast use vstd::std_specs::hash::group_hash_axioms;

/// A bound socket: what it sends leaves from its port.
#[derive(Debug, Clone, Copy, PartialEq, Eq, Structural)]
pub struct Socket {
    pub port: u16,
}

/// What a socket hands its owner: the sender's address and port, the
/// payload, and the TTL the datagram arrived with.
#[derive(Debug, PartialEq, Eq)]
pub struct Delivery {
    /// The channel of the socket that the datagram is for.
    pub channel: ChannelId,
    pub source: IpV4Addr,
    pub source_port: u16,
    pub payload: Vec<u8>,
    pub ttl: Option<u8>,
}

impl Socket {
    /// Whether `r` is what the socket hands the network layer for a payload
    /// to `dest`: the datagram from the socket's port, unless the payload is
    /// too long for one.
    pub open spec fn is_send_of(
        &self,
        r: Option<NetworkTransportMessage>,
        dest: (IpV4Addr, u16),
        payload: Seq<u8>,
        ttl: Option<u8>,
    ) -> bool {
        if payload.len() > MAX_PAYLOAD {
            r is None
        } else {
            r matches Some(NetworkTransportMessage::IPv4(to, with, octets)) && to == dest.0 && with
                == ttl && octets@ == (UdpDatagram {
                source_port: self.port,
                destination_port: dest.1,
                payload,
            }).encode()
        }
    }

    /// The datagram that carries `payload` to `dest`, with the default TTL.
    /// `None` where the payload is too long for a datagram.
    pub fn send(&self, dest: (IpV4Addr, u16), payload: Vec<u8>) -> (r: Option<
        NetworkTransportMessage,
    >)
        ensures
            self.is_send_of(r, dest, payload@, None),
    {
        self.send_ttl_internal(dest, payload, None)
    }

    /// The datagram that carries `payload` to `dest`, with the TTL `ttl`.
    /// `None` where the payload is too long for a datagram.
    pub fn send_ttl(&self, dest: (IpV4Addr, u16), payload: Vec<u8>, ttl: u8) -> (r: Option<
        NetworkTransportMessage,
    >)
        ensures
            self.is_send_of(r, dest, payload@, Some(ttl)),
    {
        self.send_ttl_internal(dest, payload, Some(ttl))
    }

    fn send_ttl_internal(&self, dest: (IpV4Addr, u16), payload: Vec<u8>, ttl: Option<u8>) -> (r:
        Option<NetworkTransportMessage>)
        ensures
            self.is_send_of(r, dest, payload@, ttl),
    {
        let packet = UdpPacket { source_port: self.port, destination_port: dest.1, payload };
        if packet.fits() {
            Some(NetworkTransportMessage::IPv4(dest.0, ttl, packet.to_vec()))
        } else {
            None
        }
    }
}

/// Whether `r` is what the process does with the octets `msg` that came
/// from `addr` with the TTL `ttl`: a datagram for a bound port goes to the
/// port's socket, anything else is dropped.
pub open spec fn is_ingress_of(
    r: Option<Delivery>,
    sockets: Map<u16, ChannelId>,
    addr: IpV4Addr,
    ttl: Option<u8>,
    msg: Seq<u8>,
) -> bool {
    match UdpDatagram::decode(msg) {
        Some(d) => if sockets.contains_key(d.destination_port) {
            r matches Some(delivery) && delivery.channel == sockets[d.destination_port]
                && delivery.source == addr && delivery.source_port == d.source_port
                && delivery.payload@ == d.payload && delivery.ttl == ttl
        } else {
            r is None
        },
        None => r is None,
    }
}

/// The UDP process of a chassis, for IPv4.
#[derive(Debug)]
pub struct UdpProcess {
    sockets: HashMap<u16, ChannelId>,
}

impl UdpProcess {
    /// The bound ports, each with the channel of its socket.
    pub closed spec fn sockets(&self) -> Map<u16, ChannelId> {
        self.sockets@
    }

    pub fn new() -> (p: Self)
        ensures
            p.sockets() == Map::<u16, ChannelId>::empty(),
    {
        Self { sockets: HashMap::new() }
    }

    /// Binds a socket to `port`: datagrams for the port go to `channel`
    /// from now on, wherever they went before.
    pub fn get_socket(&mut self, port: u16, channel: ChannelId) -> (socket: Socket)
        ensures
            socket.port == port,
            final(self).sockets() == old(self).sockets().insert(port, channel),
    {
        self.sockets.insert(port, channel);
        Socket { port }
    }

    /// Forgets the socket of `port`: its channel was found closed.
    pub fn evict(&mut self, port: u16)
        ensures
            final(self).sockets() == old(self).sockets().remove(port),
    {
        self.sockets.remove(&port);
    }

    /// Handles the octets `msg` that came from `addr` with the TTL `ttl`.
    pub fn on_down_message(&self, addr: IpV4Addr, ttl: Option<u8>, msg: &[u8]) -> (r: Option<
        Delivery,
    >)
        ensures
            is_ingress_of(r, self.sockets(), addr, ttl, msg@),
    {
        let packet = match UdpPacket::from_vec(msg) {
            Some(packet) => packet,
            None => {
                return None;
            },
        };
        match self.sockets.get(&packet.destination_port) {
            Some(channel) => Some(
                Delivery {
                    channel: *channel,
                    source: addr,
                    source_port: packet.source_port,
                    payload: packet.payload,
                    ttl,
                },
            ),
            None => None,
        }
    }
}

} // verus!
