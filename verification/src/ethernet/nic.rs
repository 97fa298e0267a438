//! The network interface: one hardware address, at most one cable, and what
//! the interface does with the frames and requests that reach it.

use vstd::prelude::*;
use crate::chassis::NetworkLayerId;
use crate::ethernet::ethertype::{EtherType, IP_V4, IP_V6, ARP};
use crate::ethernet::packet::{EthernetFrame, EthernetPacket, MAX_PAYLOAD};
use crate::mac::Mac;
use crate::mac::authority::MacAdminAuthority;

verus! {

/// A cable: the shared medium that every interface attached to it sends to
/// and hears. The number names the cable; who holds its two ends is the
/// business of whoever runs the interfaces.
#[derive(Debug, Clone, Copy, PartialEq, Eq, Hash, Structural)]
pub struct Cable(pub u64);

/// Why an interface dropped what reached it.
#[derive(Debug, Clone, Copy, PartialEq, Eq, Structural)]
pub enum DropReason {
    /// The frame is addressed to another station.
    NotForUs,
    /// No process of the network layer speaks the frame's EtherType.
    UnknownEtherType(EtherType),
    /// The payload has more than 1500 octets.
    Oversize,
    /// The interface does not wait for this in its present state.
    NotListening,
}

/// What reaches an interface.
#[derive(Debug, PartialEq, Eq)]
pub enum NicEvent {
    /// A frame was heard on the cable.
    Frame(EthernetPacket),
    /// A process of the network layer hands down a payload for a station.
    Outbound(NetworkLayerId, Mac, Vec<u8>),
    /// The handle asks to take the cable off.
    Disconnect,
    /// The handle asks which cable the interface is on.
    GetCable,
    /// The handle plugs the interface into a cable.
    ConnectTo(Cable),
}

/// What an interface does about it.
#[derive(Debug, PartialEq, Eq)]
pub enum NicAction {
    /// Hand the payload up to a process of the network layer.
    Deliver { to: NetworkLayerId, source: Mac, payload: Vec<u8> },
    /// Send the frame on the cable.
    Transmit { cable: Cable, frame: EthernetPacket },
    /// Acknowledge that the cable is off.
    Disconnected,
    /// Acknowledge that the cable is in.
    Connected,
    /// Tell the handle the cable.
    Cable(Cable),
    /// Nothing, and why.
    Dropped(DropReason),
}

/// The process of the network layer that takes frames of the given
/// EtherType.
pub open spec fn spec_network_of(t: EtherType) -> Option<NetworkLayerId> {
    if t.0 == IP_V4 {
        Some(NetworkLayerId::Ipv4)
    } else if t.0 == IP_V6 {
        Some(NetworkLayerId::Ipv6)
    } else if t.0 == ARP {
        Some(NetworkLayerId::Arp)
    } else {
        None
    }
}

/// The EtherType of the frames that carry the payloads of a process.
pub open spec fn spec_ether_type_of(id: NetworkLayerId) -> u16 {
    match id {
        NetworkLayerId::Ipv4 => IP_V4,
        NetworkLayerId::Ipv6 => IP_V6,
        NetworkLayerId::Arp => ARP,
    }
}

/// The process of the network layer that takes frames of the given
/// EtherType.
pub fn network_of(t: EtherType) -> (id: Option<NetworkLayerId>)
    ensures
        id == spec_network_of(t),
{
    let code: u16 = t.to_u16();
    if code == IP_V4 {
        Some(NetworkLayerId::Ipv4)
    } else if code == IP_V6 {
        Some(NetworkLayerId::Ipv6)
    } else if code == ARP {
        Some(NetworkLayerId::Arp)
    } else {
        None
    }
}

/// An Ethernet interface: up while it holds a cable, down while it holds
/// none.
#[derive(Debug, Clone, Copy, PartialEq, Eq)]
pub struct Nic {
    conn: Option<Cable>,
    addr: Mac,
}

impl Nic {
    /// The cable the interface is on.
    pub closed spec fn spec_cable(&self) -> Option<Cable> {
        self.conn
    }

    /// The interface's hardware address.
    pub closed spec fn spec_mac(&self) -> Mac {
        self.addr
    }

    /// The interface is up while it holds a cable.
    pub open spec fn spec_is_up(&self) -> bool {
        self.spec_cable() is Some
    }

    /// The interface takes a frame that is addressed to it or to a group.
    pub open spec fn spec_accepts(&self, frame: EthernetFrame) -> bool {
        frame.dst == self.spec_mac() || !frame.dst.spec_is_unicast()
    }

    /// Whether `r` is what the interface does with a frame heard on its
    /// cable: a frame for it, or for a group, goes up to the process of its
    /// EtherType with the sender's address.
    pub open spec fn is_receive_of(&self, r: NicAction, frame: EthernetFrame) -> bool {
        if !self.spec_accepts(frame) {
            r == NicAction::Dropped(DropReason::NotForUs)
        } else {
            match spec_network_of(frame.ether_type) {
                Some(id) => r matches NicAction::Deliver { to, source, payload } && to == id
                    && source == frame.src && payload@ == frame.payload,
                None => r == NicAction::Dropped(DropReason::UnknownEtherType(frame.ether_type)),
            }
        }
    }

    /// Whether `r` is what the interface, being on `cable`, does with a
    /// payload handed down by the process `id` for the station `dst`: it
    /// sends an untagged frame of the process' EtherType, unless the payload
    /// has more than 1500 octets.
    pub open spec fn is_transmit_of(
        &self,
        r: NicAction,
        cable: Cable,
        id: NetworkLayerId,
        dst: Mac,
        payload: Seq<u8>,
    ) -> bool {
        if payload.len() > MAX_PAYLOAD {
            r == NicAction::Dropped(DropReason::Oversize)
        } else {
            r matches NicAction::Transmit { cable: on, frame } && on == cable && frame@
                == EthernetPacket::untagged(dst, self.spec_mac(), spec_ether_type_of(id), payload)
        }
    }

    /// Whether `r` is what the interface does about `event`. While it is up
    /// it hears its cable, the network layer and its handle's requests to
    /// disconnect and to tell the cable; while it is down it only waits to
    /// be plugged in.
    pub open spec fn is_step_of(&self, r: NicAction, event: NicEvent) -> bool {
        match self.spec_cable() {
            Some(cable) => match event {
                NicEvent::Frame(frame) => self.is_receive_of(r, frame@),
                NicEvent::Outbound(id, dst, payload) => self.is_transmit_of(
                    r,
                    cable,
                    id,
                    dst,
                    payload@,
                ),
                NicEvent::Disconnect => r == NicAction::Disconnected,
                NicEvent::GetCable => r == NicAction::Cable(cable),
                NicEvent::ConnectTo(_) => r == NicAction::Dropped(DropReason::NotListening),
            },
            None => match event {
                NicEvent::ConnectTo(_) => r == NicAction::Connected,
                _ => r == NicAction::Dropped(DropReason::NotListening),
            },
        }
    }

    /// The cable that the interface is on after `event`.
    pub open spec fn cable_after(&self, event: NicEvent) -> Option<Cable> {
        match (self.spec_cable(), event) {
            (Some(_), NicEvent::Disconnect) => None,
            (None, NicEvent::ConnectTo(cable)) => Some(cable),
            (before, _) => before,
        }
    }

    /// An interface with the given address and no cable.
    pub fn new_with_mac(addr: Mac) -> (nic: Self)
        ensures
            nic.spec_mac() == addr,
            nic.spec_cable() is None,
    {
        Self { conn: None, addr }
    }

    /// An interface with the next address of `authority` and no cable.
    pub fn new<A: MacAdminAuthority>(authority: &mut A) -> (nic: Self)
        requires
            old(authority).has_next(),
        ensures
            nic.spec_mac() == old(authority).spec_next(),
            nic.spec_cable() is None,
    {
        Self::new_with_mac(authority.get_addr())
    }

    pub fn mac(&self) -> (m: Mac)
        ensures
            m == self.spec_mac(),
    {
        self.addr
    }

    /// Whether the interface holds a cable.
    pub fn is_up(&self) -> (up: bool)
        ensures
            up == self.spec_is_up(),
            up == self.spec_cable() is Some,
    {
        self.conn.is_some()
    }

    /// The cable the interface is on.
    pub fn cable(&self) -> (c: Option<Cable>)
        ensures
            c == self.spec_cable(),
    {
        self.conn
    }

    /// Puts the interface on the cable of `other`; where `other` has none,
    /// both are put on the cable `fresh`.
    pub fn connect(&mut self, other: &mut Self, fresh: Cable)
        ensures
            final(self).spec_mac() == old(self).spec_mac(),
            final(other).spec_mac() == old(other).spec_mac(),
            final(self).spec_cable() == final(other).spec_cable(),
            final(other).spec_cable() == match old(other).spec_cable() {
                Some(cable) => Some(cable),
                None => Some(fresh),
            },
    {
        if let Some(conn) = other.conn {
            self.conn = Some(conn)
        } else {
            self.conn = Some(fresh);
            other.conn = Some(fresh);
        }
    }

    /// Plugs the interface into `cable`. Only an interface that is down can
    /// be plugged in; the answer is whether it was.
    pub fn connect_to(&mut self, cable: Cable) -> (done: bool)
        ensures
            done == !old(self).spec_is_up(),
            final(self).spec_mac() == old(self).spec_mac(),
            final(self).spec_cable() == if done {
                Some(cable)
            } else {
                old(self).spec_cable()
            },
            final(self).spec_is_up(),
    {
        if self.conn.is_none() {
            self.conn = Some(cable);
            true
        } else {
            false
        }
    }

    /// Takes the cable off. Only an interface that is up can be
    /// disconnected; the answer is whether it was. Either way the interface
    /// is down afterwards.
    pub fn disconnect(&mut self) -> (done: bool)
        ensures
            done == old(self).spec_is_up(),
            final(self).spec_mac() == old(self).spec_mac(),
            final(self).spec_cable() is None,
            !final(self).spec_is_up(),
    {
        let done = self.conn.is_some();
        self.conn = None;
        done
    }

    /// Joins two interfaces by a cable. Two that are down get the cable
    /// `fresh`; where one is up, the other is put on its cable; two that are
    /// up are left as they are. The answer is whether they were joined.
    pub fn connect_other(&mut self, other: &mut Self, fresh: Cable) -> (done: bool)
        ensures
            done == !(old(self).spec_is_up() && old(other).spec_is_up()),
            final(self).spec_mac() == old(self).spec_mac(),
            final(other).spec_mac() == old(other).spec_mac(),
            done ==> final(self).spec_cable() == final(other).spec_cable(),
            done ==> final(self).spec_is_up(),
            final(self).spec_cable() == match (old(self).spec_cable(), old(other).spec_cable()) {
                (None, None) => Some(fresh),
                (None, Some(theirs)) => Some(theirs),
                (Some(ours), _) => Some(ours),
            },
            final(other).spec_cable() == match (old(self).spec_cable(), old(other).spec_cable()) {
                (None, None) => Some(fresh),
                (Some(ours), None) => Some(ours),
                (_, Some(theirs)) => Some(theirs),
            },
    {
        match (self.conn, other.conn) {
            (Some(ours), None) => {
                other.conn = Some(ours);
                true
            },
            (None, Some(theirs)) => {
                self.conn = Some(theirs);
                true
            },
            (None, None) => {
                self.conn = Some(fresh);
                other.conn = Some(fresh);
                true
            },
            (Some(_), Some(_)) => false,
        }
    }

    /// The cable and the address of the interface.
    pub fn split(self) -> (parts: (Option<Cable>, Mac))
        ensures
            parts == (self.spec_cable(), self.spec_mac()),
    {
        (self.conn, self.addr)
    }

    /// The interface of the given address on the given cable.
    pub fn join(conn: Option<Cable>, mac: Mac) -> (nic: Self)
        ensures
            nic.spec_cable() == conn,
            nic.spec_mac() == mac,
    {
        Self { conn, addr: mac }
    }

    /// What the interface does with a frame heard on its cable.
    pub fn receive(&self, frame: EthernetPacket) -> (r: NicAction)
        ensures
            self.is_receive_of(r, frame@),
    {
        let dest = frame.get_dest();
        if dest == self.addr || dest.is_multicast() {
            let ether_type = frame.get_ether_type();
            match network_of(ether_type) {
                Some(to) => NicAction::Deliver {
                    to,
                    source: frame.get_source(),
                    payload: frame.payload,
                },
                None => NicAction::Dropped(DropReason::UnknownEtherType(ether_type)),
            }
        } else {
            NicAction::Dropped(DropReason::NotForUs)
        }
    }

    /// What the interface, being on `cable`, does with a payload handed down
    /// by the process `id` for the station `dst`.
    pub fn transmit(&self, cable: Cable, id: NetworkLayerId, dst: Mac, payload: Vec<u8>) -> (r:
        NicAction)
        ensures
            self.is_transmit_of(r, cable, id, dst, payload@),
    {
        let built = match id {
            NetworkLayerId::Ipv4 => EthernetPacket::new_ip_v4(dst, self.addr, payload),
            NetworkLayerId::Ipv6 => EthernetPacket::new_ip_v6(dst, self.addr, payload),
            NetworkLayerId::Arp => EthernetPacket::new_arp(dst, self.addr, payload),
        };
        match built {
            Some(frame) => NicAction::Transmit { cable, frame },
            None => NicAction::Dropped(DropReason::Oversize),
        }
    }

    /// What the interface does about `event`, and the state it is in
    /// afterwards.
    pub fn step(&mut self, event: NicEvent) -> (r: NicAction)
        ensures
            old(self).is_step_of(r, event),
            final(self).spec_mac() == old(self).spec_mac(),
            final(self).spec_cable() == old(self).cable_after(event),
    {
        match self.conn {
            Some(cable) => match event {
                NicEvent::Frame(frame) => self.receive(frame),
                NicEvent::Outbound(id, dst, payload) => self.transmit(cable, id, dst, payload),
                NicEvent::Disconnect => {
                    self.conn = None;
                    NicAction::Disconnected
                },
                NicEvent::GetCable => NicAction::Cable(cable),
                NicEvent::ConnectTo(_) => NicAction::Dropped(DropReason::NotListening),
            },
            None => match event {
                NicEvent::ConnectTo(cable) => {
                    self.conn = Some(cable);
                    NicAction::Connected
                },
                _ => NicAction::Dropped(DropReason::NotListening),
            },
        }
    }
}

} // verus!
