//! The switch: a learning bridge whose ports may be VLAN aware.

use vstd::prelude::*;
use std::collections::HashMap;
use crate::clock::{Millis, Stopwatch, age, spec_age};
use crate::ethernet::dot1q::Tag;
use crate::ethernet::packet::{EthernetFrame, EthernetPacket};
use crate::mac::Mac;

verus! {

broadcast use vstd::std_specs::hash::group_hash_axioms;

/// How long a learned address is believed, unless the switch is told
/// otherwise: 5 seconds.
pub const DEFAULT_TTL: Millis = 5000;

/// The mode of a port.
#[derive(Debug, Clone, Copy, PartialEq, Eq, Structural)]
pub enum PortType {
    /// Only tagged frames pass, in and out.
    Trunk,
    /// Not configured: becomes a trunk with the first tagged frame, and
    /// until then passes untagged frames.
    Unknown,
    /// Only untagged frames pass.
    NoDot1q,
    /// An access port of one VLAN: untagged on the wire, tagged with the
    /// port's tag inside the switch.
    Vlan(Tag),
}

/// A learned address: the port it was seen on, and when.
#[derive(Debug, Clone, Copy, PartialEq, Eq, Structural)]
pub struct Learned {
    pub port: usize,
    pub seen: Millis,
}

/// What a port lets in from its cable: the frame as it travels inside the
/// switch, or nothing where the port drops it. An access port tags the
/// frame with its VLAN.
pub open spec fn spec_ingress(t: PortType, frame: EthernetFrame) -> Option<EthernetFrame> {
    match (t, frame.tag) {
        (PortType::Trunk, None) => None,
        (PortType::Trunk, Some(_)) => Some(frame),
        (PortType::Unknown, _) => Some(frame),
        (PortType::NoDot1q, None) => Some(frame),
        (PortType::NoDot1q, Some(_)) => None,
        (PortType::Vlan(tag), None) => Some(frame.with_tag(tag)),
        (PortType::Vlan(_), Some(_)) => None,
    }
}

/// What a port lets out onto its cable: the frame as it leaves, or nothing
/// where the port drops it. An access port lets out the frames of its VLAN
/// and takes their tag off.
pub open spec fn spec_egress(t: PortType, frame: EthernetFrame) -> Option<EthernetFrame> {
    match (t, frame.tag) {
        (PortType::Trunk, None) => None,
        (PortType::Trunk, Some(_)) => Some(frame),
        (PortType::Unknown, _) => Some(frame),
        (PortType::NoDot1q, None) => Some(frame),
        (PortType::NoDot1q, Some(_)) => None,
        (PortType::Vlan(_), None) => None,
        (PortType::Vlan(own), Some(tag)) => if own.vid() == tag.vid() {
            Some(frame.without_tag())
        } else {
            None
        },
    }
}

/// The mode of a port after a frame with the given tag passed it, in or
/// out: a port that was not configured becomes a trunk with the first
/// tagged frame.
pub open spec fn spec_promoted(t: PortType, tag: Option<Tag>) -> PortType {
    match (t, tag) {
        (PortType::Unknown, Some(_)) => PortType::Trunk,
        _ => t,
    }
}

/// Whether a frame with the given tag may leave through a port of mode `t`
/// inside its VLAN: a tagged frame through a trunk or an access port of its
/// VLAN.
pub open spec fn carries(t: PortType, tag: Tag) -> bool {
    match t {
        PortType::Trunk => true,
        PortType::Vlan(own) => own.vid() == tag.vid(),
        _ => false,
    }
}

/// Whether a frame with the given tag is flooded to a port of mode `t`: a
/// tagged frame to the trunks and the access ports of its VLAN, an untagged
/// frame to the ports that are not VLAN aware.
pub open spec fn floods_to(t: PortType, tag: Option<Tag>) -> bool {
    match tag {
        Some(tag) => carries(t, tag),
        None => t == PortType::NoDot1q || t == PortType::Unknown,
    }
}

/// Whether a frame with the given tag may follow a learned address to a
/// port of mode `t`.
pub open spec fn follows_to(t: PortType, tag: Option<Tag>) -> bool {
    match tag {
        Some(tag) => carries(t, tag),
        None => true,
    }
}

/// The first `n` ports that a frame with the given tag is flooded to, in
/// ascending order.
pub open spec fn flood_targets(ports: Seq<PortType>, tag: Option<Tag>, n: nat) -> Seq<usize>
    decreases n,
{
    if n == 0 {
        Seq::empty()
    } else {
        let before = flood_targets(ports, tag, (n - 1) as nat);
        if floods_to(ports[n - 1], tag) {
            before.push((n - 1) as usize)
        } else {
            before
        }
    }
}

/// Whether the frame follows what was learned of its destination: the
/// entry is no older than the time to live, and the frame may leave through
/// its port.
pub open spec fn follows_learned(
    ports: Seq<PortType>,
    learned: Learned,
    tag: Option<Tag>,
    now: Millis,
    ttl: Millis,
) -> bool {
    spec_age(now, learned.seen) <= ttl && follows_to(ports[learned.port as int], tag)
}

/// The ports that a frame inside the switch is sent to: the port its
/// destination was learned on, or else all ports it is flooded to.
pub open spec fn spec_targets(
    ports: Seq<PortType>,
    table: Map<u64, Learned>,
    frame: EthernetFrame,
    now: Millis,
    ttl: Millis,
) -> Seq<usize> {
    let key = frame.dst.spec_key();
    if table.contains_key(key) && follows_learned(ports, table[key], frame.tag, now, ttl) {
        seq![table[key].port]
    } else {
        flood_targets(ports, frame.tag, ports.len())
    }
}

/// The table after a frame was sent: an entry that the frame could not
/// follow, for its age or for the mode of its port, is gone.
pub open spec fn spec_table_after(
    ports: Seq<PortType>,
    table: Map<u64, Learned>,
    frame: EthernetFrame,
    now: Millis,
    ttl: Millis,
) -> Map<u64, Learned> {
    let key = frame.dst.spec_key();
    if table.contains_key(key) && !follows_learned(ports, table[key], frame.tag, now, ttl) {
        table.remove(key)
    } else {
        table
    }
}

/// The table after a frame from `src` was heard on `port` at `now`.
pub open spec fn spec_learn(table: Map<u64, Learned>, src: Mac, port: usize, now: Millis) -> Map<
    u64,
    Learned,
> {
    table.insert(src.spec_key(), Learned { port, seen: now })
}

/// Whether `r` and the table `table_after` are what comes of a frame heard
/// at `now` on the port `port`, which had the mode `mode`, in a switch that
/// had learned `table` and has the ports `ports_after` once the frame has
/// passed. The sender is learned in any case. A frame that the port lets in
/// goes, as it travels inside the switch, to the ports that `spec_targets`
/// names, all of which are ports of the switch.
pub open spec fn is_frame_result(
    r: Option<(EthernetPacket, Vec<usize>)>,
    table_after: Map<u64, Learned>,
    ports_after: Seq<PortType>,
    mode: PortType,
    table: Map<u64, Learned>,
    ttl: Millis,
    port: usize,
    frame: EthernetFrame,
    now: Millis,
) -> bool {
    match spec_ingress(mode, frame) {
        None => r is None && table_after == spec_learn(table, frame.src, port, now),
        Some(inside) => {
            &&& r matches Some((sent, targets))
            &&& sent@ == inside
            &&& targets@ == spec_targets(
                ports_after,
                spec_learn(table, frame.src, port, now),
                inside,
                now,
                ttl,
            )
            &&& table_after == spec_table_after(
                ports_after,
                spec_learn(table, frame.src, port, now),
                inside,
                now,
                ttl,
            )
            &&& forall|i: int| 0 <= i < targets@.len() ==> targets@[i] < ports_after.len()
        },
    }
}

/// What `port` lets in of `frame`, and the mode it has afterwards.
pub fn ingress(t: PortType, frame: EthernetPacket) -> (r: (Option<EthernetPacket>, PortType))
    ensures
        r.1 == spec_promoted(t, frame@.tag),
        r.0 is Some == spec_ingress(t, frame@) is Some,
        r.0 is Some ==> r.0.unwrap()@ == spec_ingress(t, frame@).unwrap(),
{
    let mut frame = frame;
    match (t, frame.get_dot1q()) {
        (PortType::Trunk, None) => (None, t),
        (PortType::Trunk, Some(_)) => (Some(frame), t),
        (PortType::Unknown, None) => (Some(frame), t),
        (PortType::Unknown, Some(_)) => (Some(frame), PortType::Trunk),
        (PortType::NoDot1q, None) => (Some(frame), t),
        (PortType::NoDot1q, Some(_)) => (None, t),
        (PortType::Vlan(tag), None) => {
            frame.set_dot1q(tag);
            (Some(frame), t)
        },
        (PortType::Vlan(_), Some(_)) => (None, t),
    }
}

/// What `port` lets out of `frame`, and the mode it has afterwards.
pub fn egress(t: PortType, frame: EthernetPacket) -> (r: (Option<EthernetPacket>, PortType))
    ensures
        r.1 == spec_promoted(t, frame@.tag),
        r.0 is Some == spec_egress(t, frame@) is Some,
        r.0 is Some ==> r.0.unwrap()@ == spec_egress(t, frame@).unwrap(),
{
    let mut frame = frame;
    match (t, frame.get_dot1q()) {
        (PortType::Trunk, None) => (None, t),
        (PortType::Trunk, Some(_)) => (Some(frame), t),
        (PortType::Unknown, None) => (Some(frame), t),
        (PortType::Unknown, Some(_)) => (Some(frame), PortType::Trunk),
        (PortType::NoDot1q, None) => (Some(frame), t),
        (PortType::NoDot1q, Some(_)) => (None, t),
        (PortType::Vlan(_), None) => (None, t),
        (PortType::Vlan(own), Some(tag)) => {
            if own.vlan_id() == tag.vlan_id() {
                frame.remove_dot1q();
                (Some(frame), t)
            } else {
                (None, t)
            }
        },
    }
}

/// Whether a frame with the given tag may leave through a port of mode `t`
/// inside its VLAN.
fn is_carrying(t: PortType, tag: Tag) -> (b: bool)
    ensures
        b == carries(t, tag),
{
    match t {
        PortType::Trunk => true,
        PortType::Vlan(own) => own.vlan_id() == tag.vlan_id(),
        _ => false,
    }
}

/// Whether a frame with the given tag is flooded to a port of mode `t`.
fn is_flooded_to(t: PortType, tag: Option<Tag>) -> (b: bool)
    ensures
        b == floods_to(t, tag),
{
    match tag {
        Some(tag) => is_carrying(t, tag),
        None => match t {
            PortType::NoDot1q => true,
            PortType::Unknown => true,
            _ => false,
        },
    }
}

/// A switch: its ports with their modes, and the addresses it has learned.
/// It has a clock of its own, which starts when the switch is made and
/// never runs backwards.
#[derive(Debug)]
pub struct Switch {
    ports: Vec<PortType>,
    table: HashMap<u64, Learned>,
    ttl: Millis,
    clock: Stopwatch,
}

impl Switch {
    /// The modes of the ports.
    pub closed spec fn spec_ports(&self) -> Seq<PortType> {
        self.ports@
    }

    /// What the switch has learned: for the number of an address, the port
    /// the address was last seen on and when.
    pub closed spec fn spec_table(&self) -> Map<u64, Learned> {
        self.table@
    }

    /// How long a learned address is believed.
    pub closed spec fn spec_ttl(&self) -> Millis {
        self.ttl
    }

    /// Every learned address was seen on a port that the switch has.
    pub open spec fn wf(&self) -> bool {
        forall|k: u64| #[trigger]
            self.spec_table().contains_key(k) ==> self.spec_table()[k].port
                < self.spec_ports().len()
    }

    /// A switch without ports that believes a learned address for `ttl`.
    pub fn new(ttl: Millis) -> (s: Self)
        ensures
            s.spec_ports() == Seq::<PortType>::empty(),
            s.spec_table() == Map::<u64, Learned>::empty(),
            s.spec_ttl() == ttl,
            s.wf(),
    {
        Self { ports: Vec::new(), table: HashMap::new(), ttl, clock: Stopwatch::start() }
    }

    /// Adds a port of mode `t` and gives its index.
    pub fn add_nic(&mut self, t: PortType) -> (index: usize)
        requires
            old(self).wf(),
        ensures
            index == old(self).spec_ports().len(),
            final(self).spec_ports() == old(self).spec_ports().push(t),
            final(self).spec_table() == old(self).spec_table(),
            final(self).spec_ttl() == old(self).spec_ttl(),
            final(self).wf(),
    {
        let index = self.ports.len();
        self.ports.push(t);
        proof {
            assert forall|k: u64| #[trigger]
                self.spec_table().contains_key(k) implies self.spec_table()[k].port
                < self.spec_ports().len() by {
                assert(old(self).spec_table().contains_key(k));
            }
        }
        index
    }

    pub fn ports_len(&self) -> (n: usize)
        ensures
            n == self.spec_ports().len(),
    {
        self.ports.len()
    }

    /// The ports with their indices and modes.
    pub fn ports(&self) -> (all: Vec<(usize, PortType)>)
        ensures
            all@.len() == self.spec_ports().len(),
            forall|i: int|
                0 <= i < all@.len() ==> all@[i] == (i as usize, #[trigger] self.spec_ports()[i]),
    {
        let mut all: Vec<(usize, PortType)> = Vec::new();
        let mut i: usize = 0;
        while i < self.ports.len()
            invariant
                i <= self.ports@.len(),
                all@.len() == i,
                forall|j: int| 0 <= j < i ==> all@[j] == (j as usize, #[trigger] self.ports@[j]),
            decreases self.ports@.len() - i,
        {
            all.push((i, self.ports[i]));
            i += 1;
        }
        all
    }

    pub fn get_port_type(&self, i: usize) -> (t: Option<PortType>)
        ensures
            t == if i < self.spec_ports().len() {
                Some(self.spec_ports()[i as int])
            } else {
                None
            },
    {
        if i < self.ports.len() {
            Some(self.ports[i])
        } else {
            None
        }
    }

    /// Sets the mode of port `i`, if there is such a port.
    pub fn set_port_type(&mut self, i: usize, port_type: PortType)
        requires
            old(self).wf(),
        ensures
            final(self).spec_ports() == if i < old(self).spec_ports().len() {
                old(self).spec_ports().update(i as int, port_type)
            } else {
                old(self).spec_ports()
            },
            final(self).spec_table() == old(self).spec_table(),
            final(self).spec_ttl() == old(self).spec_ttl(),
            final(self).wf(),
    {
        if i < self.ports.len() {
            self.ports.set(i, port_type);
        }
        proof {
            assert forall|k: u64| #[trigger]
                self.spec_table().contains_key(k) implies self.spec_table()[k].port
                < self.spec_ports().len() by {
                assert(old(self).spec_table().contains_key(k));
            }
        }
    }

    /// The port that `mac` was last seen on and when, as far as the switch
    /// remembers.
    pub fn learned(&self, mac: Mac) -> (l: Option<Learned>)
        ensures
            l == if self.spec_table().contains_key(mac.spec_key()) {
                Some(self.spec_table()[mac.spec_key()])
            } else {
                None
            },
    {
        let key = mac.key();
        match self.table.get(&key) {
            Some(l) => Some(*l),
            None => None,
        }
    }

    /// The ports that a frame with the given tag is flooded to.
    fn flood(&self, tag: Option<Tag>) -> (targets: Vec<usize>)
        ensures
            targets@ == flood_targets(self.spec_ports(), tag, self.spec_ports().len()),
    {
        let mut targets: Vec<usize> = Vec::new();
        let mut i: usize = 0;
        while i < self.ports.len()
            invariant
                i <= self.ports@.len(),
                targets@ == flood_targets(self.ports@, tag, i as nat),
            decreases self.ports@.len() - i,
        {
            if is_flooded_to(self.ports[i], tag) {
                targets.push(i);
            }
            i += 1;
        }
        targets
    }

    /// Decides where a frame inside the switch goes at the time `now`: to
    /// the port its destination was learned on, where the entry is no older
    /// than the time to live and, for a tagged frame, the port is a trunk or
    /// an access port of the frame's VLAN; else to every port it is flooded
    /// to. An entry that the frame could not follow is forgotten.
    pub fn send_frame(&mut self, frame: &EthernetPacket, now: Millis) -> (targets: Vec<usize>)
        requires
            old(self).wf(),
        ensures
            targets@ == spec_targets(
                old(self).spec_ports(),
                old(self).spec_table(),
                frame@,
                now,
                old(self).spec_ttl(),
            ),
            final(self).spec_table() == spec_table_after(
                old(self).spec_ports(),
                old(self).spec_table(),
                frame@,
                now,
                old(self).spec_ttl(),
            ),
            final(self).spec_ports() == old(self).spec_ports(),
            final(self).spec_ttl() == old(self).spec_ttl(),
            final(self).wf(),
            forall|i: int| 0 <= i < targets@.len() ==> targets@[i] < final(self).spec_ports().len(),
    {
        let tag = frame.get_dot1q();
        let key = frame.get_dest().key();
        let found: Option<Learned> = match self.table.get(&key) {
            Some(l) => Some(*l),
            None => None,
        };
        if let Some(l) = found {
            assert(self.spec_table().contains_key(key));
            let fresh = age(now, l.seen) <= self.ttl;
            let follows = match tag {
                Some(tag) => is_carrying(self.ports[l.port], tag),
                None => true,
            };
            if fresh && follows {
                let mut targets: Vec<usize> = Vec::new();
                targets.push(l.port);
                assert(targets@ =~= seq![l.port]);
                return targets;
            }
            self.table.remove(&key);
        }
        let targets = self.flood(tag);
        proof {
            lemma_flood_targets_in_range(self.ports@, tag, self.ports@.len());
        }
        targets
    }

    /// Handles a frame heard on the cable of `port` at the time `now`. The
    /// sender is learned on that port, whatever becomes of the frame. Then
    /// the port's mode decides whether the frame comes in; a frame that
    /// does is sent on as `send_frame` decides, and the answer is the frame
    /// as it travels inside the switch and the ports it goes to.
    #[verifier::rlimit(50)]
    pub fn on_frame(&mut self, port: usize, frame: EthernetPacket, now: Millis) -> (r: Option<
        (EthernetPacket, Vec<usize>),
    >)
        requires
            old(self).wf(),
            port < old(self).spec_ports().len(),
        ensures
            final(self).spec_ports() == old(self).spec_ports().update(
                port as int,
                spec_promoted(old(self).spec_ports()[port as int], frame@.tag),
            ),
            final(self).spec_ttl() == old(self).spec_ttl(),
            final(self).wf(),
            is_frame_result(
                r,
                final(self).spec_table(),
                final(self).spec_ports(),
                old(self).spec_ports()[port as int],
                old(self).spec_table(),
                old(self).spec_ttl(),
                port,
                frame@,
                now,
            ),
    {
        let key = frame.get_source().key();
        self.table.insert(key, Learned { port, seen: now });
        let (inside, mode) = ingress(self.ports[port], frame);
        self.ports.set(port, mode);
        proof {
            assert forall|k: u64| #[trigger]
                self.spec_table().contains_key(k) implies self.spec_table()[k].port
                < self.spec_ports().len() by {
                if k != key {
                    assert(old(self).spec_table().contains_key(k));
                }
            }
        }
        match inside {
            Some(inside) => {
                let targets = self.send_frame(&inside, now);
                Some((inside, targets))
            },
            None => None,
        }
    }

    /// The same, at the time that the switch's own clock shows.
    pub fn on_frame_now(&mut self, port: usize, frame: EthernetPacket) -> (r: Option<
        (EthernetPacket, Vec<usize>),
    >)
        requires
            old(self).wf(),
            port < old(self).spec_ports().len(),
        ensures
            final(self).spec_ports() == old(self).spec_ports().update(
                port as int,
                spec_promoted(old(self).spec_ports()[port as int], frame@.tag),
            ),
            final(self).spec_ttl() == old(self).spec_ttl(),
            final(self).wf(),
            exists|now: Millis|
                is_frame_result(
                    r,
                    final(self).spec_table(),
                    final(self).spec_ports(),
                    old(self).spec_ports()[port as int],
                    old(self).spec_table(),
                    old(self).spec_ttl(),
                    port,
                    frame@,
                    now,
                ),
    {
        let now = self.clock.elapsed();
        let r = self.on_frame(port, frame, now);
        assert(is_frame_result(
            r,
            self.spec_table(),
            self.spec_ports(),
            old(self).spec_ports()[port as int],
            old(self).spec_table(),
            old(self).spec_ttl(),
            port,
            frame@,
            now,
        ));
        r
    }

    /// Handles a frame that is to leave through `port`: the port's mode
    /// decides whether and how it goes out on the cable.
    pub fn on_send(&mut self, port: usize, frame: EthernetPacket) -> (r: Option<EthernetPacket>)
        requires
            old(self).wf(),
            port < old(self).spec_ports().len(),
        ensures
            final(self).spec_ports() == old(self).spec_ports().update(
                port as int,
                spec_promoted(old(self).spec_ports()[port as int], frame@.tag),
            ),
            final(self).spec_table() == old(self).spec_table(),
            final(self).spec_ttl() == old(self).spec_ttl(),
            final(self).wf(),
            r is Some == spec_egress(old(self).spec_ports()[port as int], frame@) is Some,
            r is Some ==> r.unwrap()@ == spec_egress(
                old(self).spec_ports()[port as int],
                frame@,
            ).unwrap(),
    {
        let (out, mode) = egress(self.ports[port], frame);
        self.ports.set(port, mode);
        proof {
            assert forall|k: u64| #[trigger]
                self.spec_table().contains_key(k) implies self.spec_table()[k].port
                < self.spec_ports().len() by {
                assert(old(self).spec_table().contains_key(k));
            }
        }
        out
    }
}

/// The ports a frame is flooded to are ports of the switch.
pub proof fn lemma_flood_targets_in_range(ports: Seq<PortType>, tag: Option<Tag>, n: nat)
    requires
        n <= ports.len(),
    ensures
        forall|i: int|
            0 <= i < flood_targets(ports, tag, n).len() ==> flood_targets(ports, tag, n)[i] < n,
    decreases n,
{
    if n > 0 {
        let before = flood_targets(ports, tag, (n - 1) as nat);
        lemma_flood_targets_in_range(ports, tag, (n - 1) as nat);
        assert forall|i: int| 0 <= i < flood_targets(ports, tag, n).len() implies flood_targets(
            ports,
            tag,
            n,
        )[i] < n by {
            if i < before.len() {
                assert(flood_targets(ports, tag, n)[i] == before[i]);
            }
        }
    }
}

/// A switch of `ports` ports, all of mode `port_type`, that believes a
/// learned address for 5 seconds.
pub fn switch(ports: usize, port_type: PortType) -> (s: Switch)
    ensures
        s.spec_ports() == Seq::new(ports as nat, |i: int| port_type),
        s.spec_table() == Map::<u64, Learned>::empty(),
        s.spec_ttl() == DEFAULT_TTL,
        s.wf(),
{
    let mut s = Switch::new(DEFAULT_TTL);
    let mut i: usize = 0;
    while i < ports
        invariant
            i <= ports,
            s.spec_ports() == Seq::new(i as nat, |j: int| port_type),
            s.spec_table() == Map::<u64, Learned>::empty(),
            s.spec_ttl() == DEFAULT_TTL,
            s.wf(),
        decreases ports - i,
    {
        s.add_nic(port_type);
        i += 1;
        assert(s.spec_ports() =~= Seq::new(i as nat, |j: int| port_type));
    }
    s
}

/// A switch whose ports pass untagged frames only.
pub fn simple_switch(ports: usize) -> (s: Switch)
    ensures
        s.spec_ports() == Seq::new(ports as nat, |i: int| PortType::NoDot1q),
        s.spec_table() == Map::<u64, Learned>::empty(),
        s.spec_ttl() == DEFAULT_TTL,
        s.wf(),
{
    switch(ports, PortType::NoDot1q)
}

/// A switch whose ports are not configured.
pub fn standard_switch(ports: usize) -> (s: Switch)
    ensures
        s.spec_ports() == Seq::new(ports as nat, |i: int| PortType::Unknown),
        s.spec_table() == Map::<u64, Learned>::empty(),
        s.spec_ttl() == DEFAULT_TTL,
        s.wf(),
{
    switch(ports, PortType::Unknown)
}

} // verus!
