//! The identifiers of a chassis' processes and the messages they exchange.

use vstd::prelude::*;
use crate::ipv4::addr::IpV4Addr;
use crate::mac::Mac;

verus! {

/// A link-layer interface: its number on the chassis and its hardware
/// address. Two identifiers with the same number name the same interface,
/// whatever address they carry.
#[derive(Debug, Clone, Copy, Eq)]
pub enum LinkLayerId {
    Ethernet(u16, Mac),
}

impl LinkLayerId {
    /// The interface's number.
    pub open spec fn spec_index(&self) -> u16 {
        match self {
            LinkLayerId::Ethernet(id, _) => *id,
        }
    }

    /// The interface's hardware address.
    pub open spec fn spec_mac(&self) -> Mac {
        match self {
            LinkLayerId::Ethernet(_, mac) => *mac,
        }
    }

    /// Whether both identifiers name the same interface.
    pub open spec fn same_link(&self, other: &LinkLayerId) -> bool {
        self.spec_index() == other.spec_index()
    }

    /// The name of the interface: `eth` and its number.
    pub open spec fn spec_to_string(&self) -> Seq<char> {
        seq!['e', 't', 'h'] + crate::text::spec_decimal_u16(self.spec_index())
    }

    /// The name of the interface, such as `eth0`.
    pub fn to_string(&self) -> (s: String)
        ensures
            s@ == self.spec_to_string(),
            crate::text::plain_line(s@),
    {
        let mut s = String::new();
        crate::text::push_char(&mut s, 'e');
        crate::text::push_char(&mut s, 't');
        crate::text::push_char(&mut s, 'h');
        crate::text::push_decimal_u16(&mut s, self.index());
        assert(s@ =~= self.spec_to_string());
        s
    }

    /// The interface's number.
    pub fn index(&self) -> (id: u16)
        ensures
            id == self.spec_index(),
    {
        match self {
            LinkLayerId::Ethernet(id, _) => *id,
        }
    }

    /// The interface's hardware address.
    pub fn mac(&self) -> (mac: Mac)
        ensures
            mac == self.spec_mac(),
    {
        match self {
            LinkLayerId::Ethernet(_, mac) => *mac,
        }
    }
}

impl PartialEq for LinkLayerId {
    fn eq(&self, other: &Self) -> (same: bool) {
        self.index() == other.index()
    }
}

impl vstd::std_specs::cmp::PartialEqSpecImpl for LinkLayerId {
    open spec fn obeys_eq_spec() -> bool {
        true
    }

    open spec fn eq_spec(&self, other: &Self) -> bool {
        self.same_link(other)
    }
}

/// The number of a channel. Processes name the channels they answer on by
/// number; whoever runs the processes holds the channels themselves.
pub type ChannelId = u64;

/// The processes of the network layer.
#[derive(Debug, Clone, Copy, PartialEq, Eq, Hash, Structural)]
pub enum NetworkLayerId {
    Ipv4,
    Ipv6,
    Arp,
}

/// The processes of the transport layer.
#[derive(Debug, Clone, Copy, PartialEq, Eq, Hash, Structural)]
pub enum TransportLayerId {
    Tcp,
    Udp,
    Icmp,
}

/// What the network layer and a transport exchange: the peer's address, the
/// TTL the datagram arrived with or is to be sent with, and the transport's
/// octets. On the way down a TTL of `None` asks for the default.
#[derive(Debug, PartialEq, Eq)]
#[non_exhaustive]
pub enum NetworkTransportMessage {
    IPv4(IpV4Addr, Option<u8>, Vec<u8>),
}

} // verus!

verus! {

/// The first index of `links` that names the interface `link`, or the number
/// of links where none does.
pub open spec fn first_link(links: Seq<LinkLayerId>, link: LinkLayerId) -> int
    decreases links.len(),
{
    if links.len() == 0 {
        0
    } else if links[0].same_link(&link) {
        0
    } else {
        1 + first_link(links.drop_first(), link)
    }
}

/// `first_link` is an index into the links or their number; no link before
/// it names the interface, and the link at it does.
pub proof fn lemma_first_link(links: Seq<LinkLayerId>, link: LinkLayerId)
    ensures
        0 <= first_link(links, link) <= links.len(),
        forall|k: int| 0 <= k < first_link(links, link) ==> !links[k].same_link(&link),
        first_link(links, link) < links.len() ==> links[first_link(links, link)].same_link(&link),
    decreases links.len(),
{
    if links.len() > 0 && !links[0].same_link(&link) {
        let rest = links.drop_first();
        lemma_first_link(rest, link);
        assert forall|k: int| 0 <= k < first_link(links, link) implies !links[k].same_link(
            &link,
        ) by {
            if k > 0 {
                assert(links[k] == rest[k - 1]);
            }
        }
        if first_link(links, link) < links.len() {
            assert(links[first_link(links, link)] == rest[first_link(rest, link)]);
        }
    }
}

/// An index with the properties of `first_link` is `first_link`.
pub proof fn lemma_first_link_unique(links: Seq<LinkLayerId>, link: LinkLayerId, i: int)
    requires
        0 <= i <= links.len(),
        forall|k: int| 0 <= k < i ==> !links[k].same_link(&link),
        i < links.len() ==> links[i].same_link(&link),
    ensures
        first_link(links, link) == i,
{
    lemma_first_link(links, link);
    let p = first_link(links, link);
    if p < i {
        assert(!links[p].same_link(&link));
    } else if i < p {
        assert(!links[i].same_link(&link));
    }
}

/// No two of the interfaces have the same number.
pub open spec fn distinct_links(links: Seq<LinkLayerId>) -> bool {
    forall|i: int, j: int|
        #![trigger links[i], links[j]]
        0 <= i < j < links.len() ==> !links[i].same_link(&links[j])
}

/// Registering an interface among interfaces of different numbers leaves
/// them of different numbers.
pub proof fn lemma_announce_keeps_distinct(links: Seq<LinkLayerId>, link: LinkLayerId)
    requires
        distinct_links(links),
    ensures
        distinct_links(LinkTable::spec_announce(links, link)),
{
    lemma_first_link(links, link);
    let p = first_link(links, link);
    let after = LinkTable::spec_announce(links, link);
    assert forall|i: int, j: int|
        #![trigger after[i], after[j]]
        0 <= i < j < after.len() implies !after[i].same_link(&after[j]) by {
        if p < links.len() {
            if i == p {
                assert(!links[p].same_link(&links[j]));
            } else if j == p {
                assert(!links[i].same_link(&links[p]));
            } else {
                assert(!links[i].same_link(&links[j]));
            }
        } else {
            if j == links.len() {
                assert(!links[i].same_link(&link));
            } else {
                assert(!links[i].same_link(&links[j]));
            }
        }
    }
}

/// The link layer interfaces that a process of the network layer knows of:
/// one entry for each interface number, with the hardware address that the
/// interface announced itself with.
#[derive(Debug)]
pub struct LinkTable {
    links: Vec<LinkLayerId>,
}

impl View for LinkTable {
    type V = Seq<LinkLayerId>;

    closed spec fn view(&self) -> Seq<LinkLayerId> {
        self.links@
    }
}

impl LinkTable {
    /// No number occurs twice.
    pub open spec fn wf(&self) -> bool {
        distinct_links(self@)
    }

    /// The interface registered under the number of `link`.
    pub open spec fn spec_find(&self, link: LinkLayerId) -> Option<LinkLayerId> {
        if first_link(self@, link) < self@.len() {
            Some(self@[first_link(self@, link)])
        } else {
            None
        }
    }

    /// The entries after `link` announced itself: it takes the place of the
    /// entry with its number, or the end of the table.
    pub open spec fn spec_announce(links: Seq<LinkLayerId>, link: LinkLayerId) -> Seq<
        LinkLayerId,
    > {
        if first_link(links, link) < links.len() {
            links.update(first_link(links, link), link)
        } else {
            links.push(link)
        }
    }

    pub fn new() -> (t: Self)
        ensures
            t@ == Seq::<LinkLayerId>::empty(),
            t.wf(),
    {
        Self { links: Vec::new() }
    }

    /// The number of interfaces.
    pub fn len(&self) -> (n: usize)
        ensures
            n == self@.len(),
    {
        self.links.len()
    }

    /// Interface `i` of the table.
    pub fn get(&self, i: usize) -> (link: LinkLayerId)
        requires
            i < self@.len(),
        ensures
            link == self@[i as int],
    {
        self.links[i]
    }

    /// Registers an interface that announced itself.
    pub fn announce(&mut self, link: LinkLayerId)
        requires
            old(self).wf(),
        ensures
            final(self)@ == Self::spec_announce(old(self)@, link),
            final(self).spec_find(link) == Some(link),
            final(self).wf(),
    {
        proof {
            lemma_announce_keeps_distinct(self.links@, link);
        }
        let mut i: usize = 0;
        while i < self.links.len() && self.links[i] != link
            invariant
                i <= self.links@.len(),
                forall|k: int| 0 <= k < i ==> !self.links@[k].same_link(&link),
            decreases self.links@.len() - i,
        {
            i += 1;
        }
        proof {
            lemma_first_link_unique(self.links@, link, i as int);
        }
        if i < self.links.len() {
            self.links.set(i, link);
        } else {
            self.links.push(link);
        }
        proof {
            lemma_first_link_unique(self.links@, link, i as int);
        }
    }

    /// The interface registered under the number of `link`, with the
    /// hardware address it announced.
    pub fn find(&self, link: LinkLayerId) -> (found: Option<LinkLayerId>)
        ensures
            found == self.spec_find(link),
    {
        let mut i: usize = 0;
        while i < self.links.len() && self.links[i] != link
            invariant
                i <= self.links@.len(),
                forall|k: int| 0 <= k < i ==> !self.links@[k].same_link(&link),
            decreases self.links@.len() - i,
        {
            i += 1;
        }
        proof {
            lemma_first_link_unique(self.links@, link, i as int);
        }
        if i < self.links.len() {
            Some(self.links[i])
        } else {
            None
        }
    }
}

} // verus!

verus! {

/// What travels between two layers: the announcement of a process, with the
/// channel that reaches it, or a payload from a process.
#[derive(Debug, PartialEq, Eq)]
pub enum ProcessMessage<SenderId, Payload> {
    NewConn(SenderId, ChannelId),
    Message(SenderId, Payload),
}

impl LinkTable {
    /// Takes a message from the link layer: the announcement of an
    /// interface is registered, a payload is handed on with its sender.
    pub fn on_message<Payload>(&mut self, msg: ProcessMessage<LinkLayerId, Payload>) -> (r: Option<
        (LinkLayerId, Payload),
    >)
        requires
            old(self).wf(),
        ensures
            match msg {
                ProcessMessage::NewConn(link, _) => r is None && final(self)@
                    == Self::spec_announce(old(self)@, link),
                ProcessMessage::Message(link, payload) => r == Some((link, payload)) && final(self)@ == old(self)@,
            },
            final(self).wf(),
    {
        match msg {
            ProcessMessage::NewConn(link, _) => {
                self.announce(link);
                None
            },
            ProcessMessage::Message(link, payload) => Some((link, payload)),
        }
    }
}

/// How two interfaces are joined by a cable.
#[derive(Debug, Clone, Copy, PartialEq, Eq, Structural)]
pub enum ConnectPlan {
    /// Both are down: a new cable goes into both.
    NewCable,
    /// Only ours is up: its cable goes into the other.
    ShareOurs,
    /// Only the other is up: its cable goes into ours.
    ShareTheirs,
    /// Both are up: they are left as they are.
    Refuse,
}

/// The handle of an interface: what its owner knows of the interface's
/// state, and the requests the owner may make of it.
#[derive(Debug, Clone, Copy, PartialEq, Eq, Structural)]
pub struct NicHandle {
    pub connected: bool,
}

impl NicHandle {
    /// How an interface in the state `ours` and one in the state `theirs`
    /// are joined.
    pub open spec fn spec_plan(ours: bool, theirs: bool) -> ConnectPlan {
        if ours && theirs {
            ConnectPlan::Refuse
        } else if ours {
            ConnectPlan::ShareOurs
        } else if theirs {
            ConnectPlan::ShareTheirs
        } else {
            ConnectPlan::NewCable
        }
    }

    /// The handle of an interface that is up or down as `connected` says.
    pub fn new(connected: bool) -> (h: Self)
        ensures
            h.connected == connected,
    {
        Self { connected }
    }

    pub fn connected(&self) -> (up: bool)
        ensures
            up == self.connected,
    {
        self.connected
    }

    /// The name of the state: `UP` or `DOWN`.
    pub fn state_name(&self) -> (name: &'static str)
        ensures
            name@ == if self.connected {
                "UP"@
            } else {
                "DOWN"@
            },
    {
        if self.connected {
            "UP"
        } else {
            "DOWN"
        }
    }

    /// How this interface and the one of `other` are joined.
    pub fn plan_connect(&self, other: &Self) -> (plan: ConnectPlan)
        ensures
            plan == Self::spec_plan(self.connected, other.connected),
    {
        match (self.connected, other.connected) {
            (true, false) => ConnectPlan::ShareOurs,
            (false, true) => ConnectPlan::ShareTheirs,
            (false, false) => ConnectPlan::NewCable,
            (true, true) => ConnectPlan::Refuse,
        }
    }

    /// Records the outcome of plugging the interface into a cable. Only an
    /// interface that is down is asked, and it is up once it acknowledged;
    /// the answer is whether it is newly up.
    pub fn set_connection_self(&mut self, acknowledged: bool) -> (done: bool)
        ensures
            done == (!old(self).connected && acknowledged),
            final(self).connected == (old(self).connected || acknowledged),
    {
        if !self.connected && acknowledged {
            self.connected = true;
            true
        } else {
            false
        }
    }

    /// Records the outcome of taking the cable off. Only an interface that
    /// is up is asked; once the request was sent the interface counts as
    /// down, and the answer is whether it acknowledged.
    pub fn disconnect(&mut self, sent: bool, acknowledged: bool) -> (done: bool)
        ensures
            done == (old(self).connected && sent && acknowledged),
            final(self).connected == (old(self).connected && !sent),
            done ==> !final(self).connected,
    {
        if self.connected {
            if !sent {
                return false;
            }
            self.connected = false;
            acknowledged
        } else {
            false
        }
    }

    /// Records the outcome of joining two interfaces as `plan_connect`
    /// says: `ours` and `theirs` tell whether the interface of each handle
    /// acknowledged its new cable, where it was given one. The answer is
    /// whether the two were joined.
    pub fn connect_other(&mut self, other: &mut Self, ours: bool, theirs: bool) -> (done: bool)
        ensures
            done == match Self::spec_plan(old(self).connected, old(other).connected) {
                ConnectPlan::NewCable => ours && theirs,
                ConnectPlan::ShareOurs => theirs,
                ConnectPlan::ShareTheirs => ours,
                ConnectPlan::Refuse => false,
            },
            final(self).connected == (old(self).connected || (ours && Self::spec_plan(
                old(self).connected,
                old(other).connected,
            ) != ConnectPlan::ShareOurs)),
            final(other).connected == (old(other).connected || (theirs && match Self::spec_plan(
                old(self).connected,
                old(other).connected,
            ) {
                ConnectPlan::NewCable => ours,
                ConnectPlan::ShareOurs => true,
                _ => false,
            })),
            done ==> final(self).connected && final(other).connected,
    {
        match self.plan_connect(other) {
            ConnectPlan::ShareOurs => other.set_connection_self(theirs),
            ConnectPlan::ShareTheirs => self.set_connection_self(ours),
            ConnectPlan::NewCable => self.set_connection_self(ours) && other.set_connection_self(
                theirs,
            ),
            ConnectPlan::Refuse => false,
        }
    }
}

/// The index of `id` among `ids`, or their number where it is not among
/// them.
pub open spec fn network_index(ids: Seq<NetworkLayerId>, id: NetworkLayerId) -> int {
    crate::search::first_index(ids, is_network(id))
}

/// The property of being the process `id`.
pub open spec fn is_network(id: NetworkLayerId) -> spec_fn(NetworkLayerId) -> bool {
    |other: NetworkLayerId| other == id
}

/// The property of being the transport `id`.
pub open spec fn is_transport(id: TransportLayerId) -> spec_fn(TransportLayerId) -> bool {
    |other: TransportLayerId| other == id
}

/// The index of `id` among `ids`, or their number where it is not among
/// them.
pub open spec fn transport_index(ids: Seq<TransportLayerId>, id: TransportLayerId) -> int {
    crate::search::first_index(ids, is_transport(id))
}

/// A copy of `items`.
fn copy_of<T: Copy>(items: &Vec<T>) -> (copy: Vec<T>)
    ensures
        copy@ == items@,
{
    let mut copy: Vec<T> = Vec::new();
    let mut i: usize = 0;
    while i < items.len()
        invariant
            i <= items@.len(),
            copy@ == items@.subrange(0, i as int),
        decreases items@.len() - i,
    {
        copy.push(items[i]);
        i += 1;
        assert(copy@ =~= items@.subrange(0, i as int));
    }
    assert(items@.subrange(0, i as int) =~= items@);
    copy
}

/// The processes of a chassis, by layer. A process that joins a layer is
/// announced to every process of the layers next to it.
#[derive(Debug)]
pub struct Chassis {
    link_layer_processes: Vec<LinkLayerId>,
    network_layer_processes: Vec<NetworkLayerId>,
    transport_layer_processes: Vec<TransportLayerId>,
}

impl Chassis {
    /// No interface number and no process occurs twice.
    pub open spec fn wf(&self) -> bool {
        &&& distinct_links(self.links())
        &&& self.networks().no_duplicates()
        &&& self.transports().no_duplicates()
    }

    /// The interfaces, in the order they were added.
    pub closed spec fn links(&self) -> Seq<LinkLayerId> {
        self.link_layer_processes@
    }

    /// The processes of the network layer, in the order they were added.
    pub closed spec fn networks(&self) -> Seq<NetworkLayerId> {
        self.network_layer_processes@
    }

    /// The processes of the transport layer, in the order they were added.
    pub closed spec fn transports(&self) -> Seq<TransportLayerId> {
        self.transport_layer_processes@
    }

    /// A chassis without processes.
    pub fn new() -> (c: Self)
        ensures
            c.links() == Seq::<LinkLayerId>::empty(),
            c.networks() == Seq::<NetworkLayerId>::empty(),
            c.transports() == Seq::<TransportLayerId>::empty(),
            c.wf(),
    {
        Self {
            link_layer_processes: Vec::new(),
            network_layer_processes: Vec::new(),
            transport_layer_processes: Vec::new(),
        }
    }

    /// The interface registered under the number `id`, if there is one.
    pub fn link(&self, id: u16) -> (found: Option<LinkLayerId>)
        ensures
            found == if first_link(self.links(), LinkLayerId::Ethernet(id, Mac::spec_broadcast()))
                < self.links().len() {
                Some(
                    self.links()[first_link(
                        self.links(),
                        LinkLayerId::Ethernet(id, Mac::spec_broadcast()),
                    )],
                )
            } else {
                None
            },
    {
        let wanted = LinkLayerId::Ethernet(id, Mac::broadcast());
        let mut i: usize = 0;
        while i < self.link_layer_processes.len() && self.link_layer_processes[i] != wanted
            invariant
                i <= self.link_layer_processes@.len(),
                forall|k: int| 0 <= k < i ==> !self.link_layer_processes@[k].same_link(&wanted),
            decreases self.link_layer_processes@.len() - i,
        {
            i += 1;
        }
        proof {
            lemma_first_link_unique(self.link_layer_processes@, wanted, i as int);
        }
        if i < self.link_layer_processes.len() {
            Some(self.link_layer_processes[i])
        } else {
            None
        }
    }

    /// Adds an interface of the hardware address `mac`, up or not as
    /// `connected` says, under the number `id`. The answer is the
    /// interface's identifier and handle, and the processes of the network
    /// layer that it is announced to, each of which it may send to. Where
    /// the number is taken nothing is added and nothing announced.
    pub fn add_nic_with_id(&mut self, id: u16, mac: Mac, connected: bool) -> (r: (
        LinkLayerId,
        NicHandle,
        Option<Vec<NetworkLayerId>>,
    ))
        requires
            old(self).wf(),
        ensures
            final(self).wf(),
            r.0 == LinkLayerId::Ethernet(id, mac),
            r.1.connected == connected,
            final(self).networks() == old(self).networks(),
            final(self).transports() == old(self).transports(),
            if first_link(old(self).links(), r.0) < old(self).links().len() {
                r.2 is None && final(self).links() == old(self).links()
            } else {
                r.2 is Some && r.2.unwrap()@ == old(self).networks() && final(self).links() == old(self).links().push(r.0)
            },
    {
        let link = LinkLayerId::Ethernet(id, mac);
        let handle = NicHandle::new(connected);
        let mut i: usize = 0;
        while i < self.link_layer_processes.len() && self.link_layer_processes[i] != link
            invariant
                i <= self.link_layer_processes@.len(),
                forall|k: int| 0 <= k < i ==> !self.link_layer_processes@[k].same_link(&link),
            decreases self.link_layer_processes@.len() - i,
        {
            i += 1;
        }
        proof {
            lemma_first_link_unique(self.link_layer_processes@, link, i as int);
            lemma_announce_keeps_distinct(self.link_layer_processes@, link);
        }
        if i < self.link_layer_processes.len() {
            (link, handle, None)
        } else {
            self.link_layer_processes.push(link);
            (link, handle, Some(copy_of(&self.network_layer_processes)))
        }
    }

    /// Adds the process `id` to the network layer. The answer is the
    /// interfaces that it is announced to, each of which it may send to.
    /// Where there is such a process already nothing is added and nothing
    /// announced.
    pub fn add_network_layer_process(&mut self, id: NetworkLayerId) -> (r: Option<Vec<LinkLayerId>>)
        requires
            old(self).wf(),
        ensures
            final(self).wf(),
            final(self).links() == old(self).links(),
            final(self).transports() == old(self).transports(),
            if network_index(old(self).networks(), id) < old(self).networks().len() {
                r is None && final(self).networks() == old(self).networks()
            } else {
                r is Some && r.unwrap()@ == old(self).links() && final(self).networks() == old(self).networks().push(id)
            },
    {
        let ghost wanted = is_network(id);
        let mut i: usize = 0;
        while i < self.network_layer_processes.len() && self.network_layer_processes[i] != id
            invariant
                i <= self.network_layer_processes@.len(),
                wanted == is_network(id),
                forall|k: int| 0 <= k < i ==> !wanted(#[trigger] self.network_layer_processes@[k]),
            decreases self.network_layer_processes@.len() - i,
        {
            i += 1;
        }
        proof {
            crate::search::lemma_first_index_unique(self.network_layer_processes@, wanted, i as int);
        }
        if i < self.network_layer_processes.len() {
            None
        } else {
            proof {
                crate::search::lemma_first_index(self.network_layer_processes@, wanted);
            }
            self.network_layer_processes.push(id);
            proof {
                let before = old(self).networks();
                assert forall|a: int, b: int|
                    0 <= a < self.networks().len() && 0 <= b < self.networks().len() && a
                        != b implies self.networks()[a] != self.networks()[b] by {
                    if a < before.len() && b < before.len() {
                        assert(before[a] != before[b]);
                    } else if a < before.len() {
                        assert(!wanted(before[a]));
                    } else if b < before.len() {
                        assert(!wanted(before[b]));
                    }
                }
            }
            Some(copy_of(&self.link_layer_processes))
        }
    }

    /// Adds the process `id` to the transport layer. The answer is the
    /// processes of the network layer that it is announced to, each of which
    /// it may send to. Where there is such a process already nothing is
    /// added and nothing announced.
    pub fn add_transport_layer_process(&mut self, id: TransportLayerId) -> (r: Option<
        Vec<NetworkLayerId>,
    >)
        requires
            old(self).wf(),
        ensures
            final(self).wf(),
            final(self).links() == old(self).links(),
            final(self).networks() == old(self).networks(),
            if transport_index(old(self).transports(), id) < old(self).transports().len() {
                r is None && final(self).transports() == old(self).transports()
            } else {
                r is Some && r.unwrap()@ == old(self).networks() && final(self).transports() == old(self).transports().push(id)
            },
    {
        let ghost wanted = is_transport(id);
        let mut i: usize = 0;
        while i < self.transport_layer_processes.len() && self.transport_layer_processes[i] != id
            invariant
                i <= self.transport_layer_processes@.len(),
                wanted == is_transport(id),
                forall|k: int|
                    0 <= k < i ==> !wanted(#[trigger] self.transport_layer_processes@[k]),
            decreases self.transport_layer_processes@.len() - i,
        {
            i += 1;
        }
        proof {
            crate::search::lemma_first_index_unique(
                self.transport_layer_processes@,
                wanted,
                i as int,
            );
        }
        if i < self.transport_layer_processes.len() {
            None
        } else {
            proof {
                crate::search::lemma_first_index(self.transport_layer_processes@, wanted);
            }
            self.transport_layer_processes.push(id);
            proof {
                let before = old(self).transports();
                assert forall|a: int, b: int|
                    0 <= a < self.transports().len() && 0 <= b < self.transports().len() && a
                        != b implies self.transports()[a] != self.transports()[b] by {
                    if a < before.len() && b < before.len() {
                        assert(before[a] != before[b]);
                    } else if a < before.len() {
                        assert(!wanted(before[a]));
                    } else if b < before.len() {
                        assert(!wanted(before[b]));
                    }
                }
            }
            Some(copy_of(&self.network_layer_processes))
        }
    }
}

} // verus!
