use routing::arp::packet::{ArpPacket, Operation};
use routing::arp::process::{ArpIngress, ArpProcess, ArpResolve};
use routing::chassis::{
    LinkLayerId, LinkTable, NetworkLayerId, NetworkTransportMessage, TransportLayerId,
};
use routing::ethernet::ethertype::{ARP, IP_V4};
use routing::ethernet::nic::{Cable, Nic, NicAction};
use routing::ethernet::packet::EthernetPacket;
use routing::icmp::packet::IcmpPacket;
use routing::icmp::process::{IcmpIngress, IcmpProcess};
use routing::ipv4::addr::{IpV4Addr, IpV4Mask};
use routing::ipv4::config::IpV4ConfigInner;
use routing::ipv4::packet::Ipv4Packet;
use routing::ipv4::process::{emit, on_down_message, send_message, Ipv4Egress, Ipv4Ingress};
use routing::mac::Mac;
use routing::ping::{print_stats, Schedule};
use routing::route::RoutingEntry;

/// One chassis with one interface, run step by step.
struct Host {
    nic: Nic,
    link: LinkLayerId,
    links: LinkTable,
    config: IpV4ConfigInner,
    arp: ArpProcess,
    icmp: IcmpProcess,
    /// Datagrams that wait for the hardware address of their next hop.
    waiting: Vec<(IpV4Addr, Ipv4Packet)>,
    /// Echo replies handed to those who waited: (channel, id, seq, addr, ttl).
    echoed: Vec<(u64, u16, u16, IpV4Addr, u8)>,
}

impl Host {
    fn new(ip: [u8; 4], mac: Mac) -> Host {
        let nic = Nic::new_with_mac(mac);
        let link = LinkLayerId::Ethernet(0, mac);
        let mut links = LinkTable::new();
        links.announce(link);
        let mut config = IpV4ConfigInner::default();
        config.addr = IpV4Addr::new(ip);
        Host {
            nic,
            link,
            links,
            config,
            arp: ArpProcess::new(),
            icmp: IcmpProcess::new(),
            waiting: Vec::new(),
            echoed: Vec::new(),
        }
    }

    fn default_route(&mut self, gateway: [u8; 4]) {
        self.config.routing.add_route(RoutingEntry::new(
            IpV4Addr::default_addr(),
            IpV4Addr::new(gateway),
            IpV4Mask::new(0),
            LinkLayerId::Ethernet(0, Mac::broadcast()),
        ));
    }

    fn transmit(&self, id: NetworkLayerId, dst: Mac, payload: Vec<u8>) -> Vec<EthernetPacket> {
        match self.nic.transmit(self.nic.cable().unwrap(), id, dst, payload) {
            NicAction::Transmit { frame, .. } => vec![frame],
            _ => vec![],
        }
    }

    fn route(&mut self, egress: Ipv4Egress, now: u64) -> Vec<EthernetPacket> {
        let Ipv4Egress::Resolve { next_hop, iface, packet } = egress else {
            return vec![];
        };
        match self.arp.resolve(
            &self.links,
            self.config.addr,
            next_hop,
            iface,
            0,
            now,
            self.config.arp_ttl,
        ) {
            ArpResolve::Hit(mac) => {
                let (mac, bytes) = emit(&packet, Some(mac)).unwrap();
                self.transmit(NetworkLayerId::Ipv4, mac, bytes)
            }
            ArpResolve::Request { to, payload, .. } => {
                self.waiting.push((next_hop, packet));
                self.transmit(NetworkLayerId::Arp, to, payload)
            }
            ArpResolve::NoLink => vec![],
        }
    }

    fn ping(&mut self, id: u16, seq: u16, to: IpV4Addr, channel: u64, now: u64) -> Vec<EthernetPacket> {
        let NetworkTransportMessage::IPv4(to, ttl, request) =
            self.icmp.echo_ip_v4(id, seq, to, channel)
        else {
            return vec![];
        };
        let egress = send_message(&self.config, to, ttl, TransportLayerId::Icmp, request);
        self.route(egress, now)
    }

    fn hear(&mut self, frame: EthernetPacket, now: u64) -> Vec<EthernetPacket> {
        let NicAction::Deliver { to, source, payload } = self.nic.receive(frame) else {
            return vec![];
        };
        match to {
            NetworkLayerId::Arp => {
                match self.arp.on_down_message(self.config.addr, self.link, source, &payload, now) {
                    ArpIngress::Reply { to, payload } => self.transmit(NetworkLayerId::Arp, to, payload),
                    ArpIngress::Resolved { ip, mac, .. } => {
                        let mut out = vec![];
                        let (ready, rest): (Vec<_>, Vec<_>) =
                            self.waiting.drain(..).partition(|(hop, _)| *hop == ip);
                        self.waiting = rest;
                        for (_, packet) in ready {
                            let (mac, bytes) = emit(&packet, Some(mac)).unwrap();
                            out.extend(self.transmit(NetworkLayerId::Ipv4, mac, bytes));
                        }
                        out
                    }
                    _ => vec![],
                }
            }
            NetworkLayerId::Ipv4 => match on_down_message(&self.config, &payload) {
                Ipv4Ingress::Deliver { to: TransportLayerId::Icmp, source, ttl, payload } => {
                    match self.icmp.on_down_message(source, Some(ttl), &payload) {
                        IcmpIngress::Reply(NetworkTransportMessage::IPv4(to, ttl, payload)) => {
                            let egress =
                                send_message(&self.config, to, ttl, TransportLayerId::Icmp, payload);
                            self.route(egress, now)
                        }
                        IcmpIngress::Echoed { channel, id, seq, addr, ttl } => {
                            self.echoed.push((channel, id, seq, addr, ttl));
                            vec![]
                        }
                        _ => vec![],
                    }
                }
                Ipv4Ingress::Forward { next_hop, iface, packet } => {
                    self.route(Ipv4Egress::Resolve { next_hop, iface, packet }, now)
                }
                Ipv4Ingress::Expired(reply) => self.route(reply, now),
                _ => vec![],
            },
            NetworkLayerId::Ipv6 => vec![],
        }
    }
}

/// Carries frames over the one cable until nothing more is said. Every
/// station on the cable hears every frame, its own too.
fn run(hosts: &mut [Host], mut frames: Vec<EthernetPacket>, now: u64, wire: &mut Vec<EthernetPacket>) {
    while !frames.is_empty() {
        let mut next = vec![];
        for frame in frames {
            wire.push(frame.clone());
            for host in hosts.iter_mut() {
                next.extend(host.hear(frame.clone(), now));
            }
        }
        frames = next;
    }
}

fn icmp_of(frame: &EthernetPacket) -> Option<IcmpPacket> {
    if frame.get_ether_type().to_u16() != IP_V4 {
        return None;
    }
    IcmpPacket::from_vec(&Ipv4Packet::from_vec(&frame.payload)?.payload)
}

fn arp_of(frame: &EthernetPacket) -> Option<ArpPacket> {
    if frame.get_ether_type().to_u16() != ARP {
        return None;
    }
    ArpPacket::from_vec(&frame.payload)
}

fn two_hosts() -> Vec<Host> {
    let mut a = Host::new([192, 168, 0, 31], Mac::new([2, 0, 0, 0, 0, 0x0a]));
    let mut b = Host::new([192, 168, 0, 30], Mac::new([2, 0, 0, 0, 0, 0x0b]));
    assert!(a.nic.connect_other(&mut b.nic, Cable(1)));
    a.default_route([192, 168, 0, 30]);
    b.default_route([192, 168, 0, 31]);
    vec![a, b]
}

#[test]
fn two_hosts_ping() {
    let mut hosts = two_hosts();
    let target = IpV4Addr::new([192, 168, 0, 30]);
    let mut wire = vec![];
    let mut schedule = Schedule::new(Some(3));
    while let Some(seq) = schedule.next() {
        let now = 500 * seq as u64;
        let frames = hosts[0].ping(0, seq, target, seq as u64, now);
        run(&mut hosts, frames, now, &mut wire);
    }
    assert_eq!(schedule.sent, 3);
    let requests: Vec<u16> = wire
        .iter()
        .filter_map(|f| match icmp_of(f) {
            Some(IcmpPacket::EchoRequest { seq, .. }) => Some(seq),
            _ => None,
        })
        .collect();
    let replies: Vec<u16> = wire
        .iter()
        .filter_map(|f| match icmp_of(f) {
            Some(IcmpPacket::EchoReply { seq, .. }) => Some(seq),
            _ => None,
        })
        .collect();
    assert_eq!(requests, vec![0, 1, 2]);
    assert_eq!(replies, vec![0, 1, 2]);
    assert_eq!(
        hosts[0].echoed,
        vec![(0, 0, 0, target, 255), (1, 0, 1, target, 255), (2, 0, 2, target, 255)]
    );
    let times: Vec<Option<u64>> = (0..3u16)
        .map(|seq| hosts[0].echoed.iter().find(|e| e.2 == seq).map(|_| 1_000))
        .collect();
    let stats = print_stats(&times);
    assert_eq!(stats.report(), "Sent=3 Received=3 Lost=0 (0.00% loss)");
}

#[test]
fn ping_report_lines() {
    assert_eq!(print_stats(&[Some(1), None, None]).report(), "Sent=3 Received=1 Lost=2 (66.67% loss)");
    assert_eq!(print_stats(&[None]).report(), "Sent=1 Received=0 Lost=1 (100.00% loss)");
    assert_eq!(print_stats(&[Some(1), None]).report(), "Sent=2 Received=1 Lost=1 (50.00% loss)");
    let many: Vec<Option<u64>> = (0..1000).map(|i| if i == 0 { None } else { Some(i) }).collect();
    assert_eq!(print_stats(&many).report(), "Sent=1000 Received=999 Lost=1 (0.10% loss)");
    assert_eq!(print_stats(&many).loss(), 10);
    assert_eq!(print_stats(&[Some(2), Some(5)]).average(), Some(3));
    assert_eq!(print_stats(&[None]).average(), None);
}

#[test]
fn first_datagram_triggers_one_arp_exchange() {
    let mut hosts = two_hosts();
    let target = IpV4Addr::new([192, 168, 0, 30]);
    let mut wire = vec![];
    let frames = hosts[0].ping(7, 0, target, 0, 0);
    run(&mut hosts, frames, 0, &mut wire);
    let arps: Vec<ArpPacket> = wire.iter().filter_map(arp_of).collect();
    assert_eq!(arps.len(), 2);
    assert_eq!(arps[0].operation, Operation::Request);
    assert_eq!(arps[1].operation, Operation::Reply);
    // the request is a broadcast, the reply goes to A's station
    assert!(wire[0].get_dest().is_broadcast());
    assert_eq!(wire[1].get_dest(), hosts[0].nic.mac());
    // afterwards A's cache holds (192.168.0.30, eth0) -> B's MAC
    let b_mac = hosts[1].nic.mac();
    let link = hosts[0].link;
    assert_eq!(hosts[0].arp.cache.lookup(target, link, 1, 5_000), Some(b_mac));
    // a second datagram needs no ARP
    let mut wire = vec![];
    let frames = hosts[0].ping(7, 1, target, 1, 1);
    run(&mut hosts, frames, 1, &mut wire);
    assert_eq!(wire.iter().filter_map(arp_of).count(), 0);
    assert_eq!(wire.len(), 2);
}

#[test]
fn stale_arp_entry_is_asked_again() {
    let mut hosts = two_hosts();
    let target = IpV4Addr::new([192, 168, 0, 30]);
    let mut wire = vec![];
    let frames = hosts[0].ping(7, 0, target, 0, 0);
    run(&mut hosts, frames, 0, &mut wire);
    let mut wire = vec![];
    let frames = hosts[0].ping(7, 1, target, 1, 5_000);
    run(&mut hosts, frames, 5_000, &mut wire);
    assert_eq!(
        wire.iter().filter_map(arp_of).filter(|p| p.operation == Operation::Request).count(),
        1
    );
    assert_eq!(hosts[0].echoed.len(), 2);
}
