use routing::chassis::{LinkLayerId, NetworkTransportMessage, TransportLayerId};
use routing::icmp::packet::{IcmpPacket, TimeExceeded};
use routing::icmp::process::{echo_key, IcmpIngress, IcmpProcess};
use routing::ipv4::addr::{IpV4Addr, IpV4Mask};
use routing::ipv4::config::IpV4ConfigInner;
use routing::ipv4::packet::Ipv4Packet;
use routing::ipv4::process::{
    can_emit, emit, on_down_message, protocol_of, send_message, transport_of, Ipv4Egress,
    Ipv4Ingress,
};
use routing::ipv4::protocol::{ProtocolType, ICMP, UDP};
use routing::mac::Mac;
use routing::process::ProcessManager;
use routing::route::RoutingEntry;
use routing::udp::packet::UdpPacket;
use routing::udp::process::{Delivery, UdpProcess};

fn addr(c: u8, d: u8) -> IpV4Addr {
    IpV4Addr::new([192, 168, c, d])
}

fn eth(id: u16) -> LinkLayerId {
    LinkLayerId::Ethernet(id, Mac::broadcast())
}

/// A router B with 192.168.0.1, network 0 behind eth0 and network 1 behind eth1.
fn router() -> IpV4ConfigInner {
    let mut c = IpV4ConfigInner::default();
    c.addr = addr(0, 1);
    c.routing.add_route(RoutingEntry::new(addr(0, 0), addr(0, 31), IpV4Mask::new(24), eth(0)));
    c.routing.add_route(RoutingEntry::new(addr(1, 0), addr(1, 40), IpV4Mask::new(24), eth(1)));
    c
}

fn datagram(from: IpV4Addr, to: IpV4Addr, ttl: u8, protocol: u8, payload: Vec<u8>) -> Vec<u8> {
    Ipv4Packet::fresh(from, to, Some(ttl), ProtocolType::new(protocol), payload).to_vec()
}

#[test]
fn default_config() {
    let c = IpV4ConfigInner::default();
    assert_eq!(c.addr, IpV4Addr::default_addr());
    assert_eq!(c.routing.len(), 0);
    assert_eq!(c.arp_ttl, 5_000);
    assert!(!c.dhcp_run);
}

#[test]
fn egress_builds_the_datagram() {
    let c = router();
    let r = send_message(&c, addr(1, 40), None, TransportLayerId::Udp, vec![1, 2, 3]);
    match r {
        Ipv4Egress::Resolve { next_hop, iface, packet } => {
            assert_eq!(next_hop, addr(1, 40));
            assert_eq!(iface, eth(1));
            assert_eq!(
                packet,
                Ipv4Packet::fresh(addr(0, 1), addr(1, 40), None, ProtocolType::new(UDP), vec![1, 2, 3])
            );
            assert_eq!(packet.header.time_to_live, 255);
            assert!(can_emit(&packet));
            let (mac, bytes) = emit(&packet, Some(Mac::broadcast())).unwrap();
            assert_eq!(mac, Mac::broadcast());
            assert_eq!(Ipv4Packet::from_vec(&bytes), Some(packet.clone()));
            assert_eq!(emit(&packet, None), None);
        }
        other => panic!("{other:?}"),
    }
    let with_ttl = send_message(&c, addr(1, 40), Some(3), TransportLayerId::Icmp, vec![]);
    assert!(matches!(with_ttl, Ipv4Egress::Resolve { packet, .. }
        if packet.header.time_to_live == 3 && packet.header.protocol.inner() == ICMP));
}

#[test]
fn egress_route_miss_and_oversize() {
    let c = router();
    assert_eq!(
        send_message(&c, IpV4Addr::new([8, 8, 8, 8]), None, TransportLayerId::Udp, vec![1]),
        Ipv4Egress::NoRoute(IpV4Addr::new([8, 8, 8, 8]))
    );
    assert_eq!(
        send_message(&c, addr(1, 40), None, TransportLayerId::Udp, vec![0; 65516]),
        Ipv4Egress::TooLong
    );
    assert!(matches!(
        send_message(&c, addr(1, 40), None, TransportLayerId::Udp, vec![0; 65515]),
        Ipv4Egress::Resolve { .. }
    ));
}

#[test]
fn ingress_undecodable() {
    assert_eq!(on_down_message(&router(), &[0x45, 0, 0]), Ipv4Ingress::Undecodable);
}

#[test]
fn ingress_local_delivery() {
    let c = router();
    let msg = datagram(addr(0, 31), addr(0, 1), 64, UDP, vec![9, 9]);
    assert_eq!(
        on_down_message(&c, &msg),
        Ipv4Ingress::Deliver {
            to: TransportLayerId::Udp,
            source: addr(0, 31),
            ttl: 64,
            payload: vec![9, 9]
        }
    );
    let msg = datagram(addr(0, 31), addr(0, 1), 1, ICMP, vec![]);
    assert!(matches!(
        on_down_message(&c, &msg),
        Ipv4Ingress::Deliver { to: TransportLayerId::Icmp, ttl: 1, .. }
    ));
    let msg = datagram(addr(0, 31), addr(0, 1), 64, 89, vec![]);
    assert_eq!(on_down_message(&c, &msg), Ipv4Ingress::UnknownProtocol(ProtocolType::new(89)));
}

#[test]
fn ingress_forwards_with_ttl_one_less() {
    let c = router();
    let msg = datagram(addr(0, 31), addr(1, 40), 64, UDP, vec![1, 2, 3, 4]);
    match on_down_message(&c, &msg) {
        Ipv4Ingress::Forward { next_hop, iface, packet } => {
            assert_eq!((next_hop, iface), (addr(1, 40), eth(1)));
            assert_eq!(packet.header.time_to_live, 63);
            assert_eq!(packet.payload, vec![1, 2, 3, 4]);
            // the forwarded datagram decodes again: its checksum was renewed
            let (_, bytes) = emit(&packet, Some(Mac::broadcast())).unwrap();
            assert_eq!(Ipv4Packet::from_vec(&bytes), Some(packet));
        }
        other => panic!("{other:?}"),
    }
    let nowhere = datagram(addr(0, 31), IpV4Addr::new([8, 8, 8, 8]), 64, UDP, vec![]);
    assert_eq!(on_down_message(&c, &nowhere), Ipv4Ingress::NoRoute(IpV4Addr::new([8, 8, 8, 8])));
}

#[test]
fn ttl_expiry() {
    // A (192.168.0.31) sends to C (192.168.1.40) through the router B.
    let b = router();
    let payload: Vec<u8> = (0..20u8).collect();
    let expired = datagram(addr(0, 31), addr(1, 40), 0, UDP, payload.clone());
    match on_down_message(&b, &expired) {
        Ipv4Ingress::Expired(Ipv4Egress::Resolve { next_hop, iface, packet }) => {
            // towards the sender of the datagram, over B's ordinary way out
            assert_eq!((next_hop, iface), (addr(0, 31), eth(0)));
            assert_eq!(packet.header.destination, addr(0, 31));
            assert_eq!(packet.header.source, addr(0, 1));
            assert_eq!(packet.header.time_to_live, 255);
            assert_eq!(packet.header.protocol.inner(), ICMP);
            // the time-exceeded message quotes the header and 8 octets of payload
            let mut quoted = expired[..20].to_vec();
            quoted.extend_from_slice(&payload[..8]);
            assert_eq!(
                IcmpPacket::from_vec(&packet.payload),
                Some(IcmpPacket::TimeExceeded(TimeExceeded::TtlTransit { data: quoted }))
            );
        }
        other => panic!("{other:?}"),
    }
    // a TTL of zero is checked before the destination
    let for_b = datagram(addr(0, 31), addr(0, 1), 0, UDP, vec![1]);
    assert!(matches!(on_down_message(&b, &for_b), Ipv4Ingress::Expired(_)));
    // a datagram that arrives with TTL 1 is forwarded with TTL 0, and expires at the next node
    let last_leg = datagram(addr(0, 31), addr(1, 40), 1, UDP, payload);
    match on_down_message(&b, &last_leg) {
        Ipv4Ingress::Forward { packet, .. } => {
            assert_eq!(packet.header.time_to_live, 0);
            let mut c = IpV4ConfigInner::default();
            c.addr = addr(1, 40);
            c.routing.add_route(RoutingEntry::new(
                IpV4Addr::default_addr(),
                addr(1, 1),
                IpV4Mask::new(0),
                eth(0),
            ));
            assert!(matches!(on_down_message(&c, &packet.to_vec()), Ipv4Ingress::Expired(_)));
        }
        other => panic!("{other:?}"),
    }
}

#[test]
fn ttl_expiry_without_a_way_back() {
    let mut c = IpV4ConfigInner::default();
    c.addr = addr(0, 1);
    let expired = datagram(addr(0, 31), addr(1, 40), 0, UDP, vec![]);
    assert_eq!(
        on_down_message(&c, &expired),
        Ipv4Ingress::Expired(Ipv4Egress::NoRoute(addr(0, 31)))
    );
}

#[test]
fn protocols_and_transports() {
    assert_eq!(protocol_of(TransportLayerId::Tcp).inner(), 6);
    assert_eq!(protocol_of(TransportLayerId::Udp).inner(), 17);
    assert_eq!(protocol_of(TransportLayerId::Icmp).inner(), 1);
    assert_eq!(transport_of(ProtocolType::new(6)), Some(TransportLayerId::Tcp));
    assert_eq!(transport_of(ProtocolType::new(17)), Some(TransportLayerId::Udp));
    assert_eq!(transport_of(ProtocolType::new(1)), Some(TransportLayerId::Icmp));
    assert_eq!(transport_of(ProtocolType::new(2)), None);
}

#[test]
fn icmp_answers_echo_requests() {
    let mut p = IcmpProcess::new();
    let request = IcmpPacket::EchoRequest { id: 4, seq: 9 }.to_vec();
    assert_eq!(
        p.on_down_message(addr(0, 31), Some(64), &request),
        IcmpIngress::Reply(NetworkTransportMessage::IPv4(
            addr(0, 31),
            None,
            IcmpPacket::EchoReply { id: 4, seq: 9 }.to_vec()
        ))
    );
}

#[test]
fn icmp_matches_echo_replies() {
    let mut p = IcmpProcess::new();
    let request = p.echo_ip_v4(4, 9, addr(0, 30), 77);
    assert_eq!(
        request,
        NetworkTransportMessage::IPv4(
            addr(0, 30),
            None,
            IcmpPacket::EchoRequest { id: 4, seq: 9 }.to_vec()
        )
    );
    let reply = IcmpPacket::EchoReply { id: 4, seq: 9 }.to_vec();
    // from another address: nobody waits for it
    assert_eq!(p.on_down_message(addr(0, 99), Some(60), &reply), IcmpIngress::Unexpected);
    assert_eq!(
        p.on_down_message(addr(0, 30), Some(60), &reply),
        IcmpIngress::Echoed { channel: 77, id: 4, seq: 9, addr: addr(0, 30), ttl: 60 }
    );
    // the wait is over
    assert_eq!(p.on_down_message(addr(0, 30), Some(60), &reply), IcmpIngress::Unexpected);
    p.echo_ip_v4(4, 10, addr(0, 30), 78);
    let reply = IcmpPacket::EchoReply { id: 4, seq: 10 }.to_vec();
    assert_eq!(
        p.on_down_message(addr(0, 30), None, &reply),
        IcmpIngress::Echoed { channel: 78, id: 4, seq: 10, addr: addr(0, 30), ttl: 255 }
    );
    p.echo_ip_v4(4, 11, addr(0, 30), 79);
    p.forget_echo(4, 11, addr(0, 30));
    let reply = IcmpPacket::EchoReply { id: 4, seq: 11 }.to_vec();
    assert_eq!(p.on_down_message(addr(0, 30), None, &reply), IcmpIngress::Unexpected);
    assert_eq!(echo_key(1, 2, IpV4Addr::new([3, 4, 5, 6])), 0x0001_0002_0304_0506);
}

#[test]
fn icmp_time_exceeded_goes_to_the_exact_subscriber() {
    let mut p = IcmpProcess::new();
    p.set_ttl_handler(vec![1, 2, 3], 5);
    p.set_ttl_handler(vec![1, 2, 3, 4], 6);
    let notice = |data: Vec<u8>| IcmpPacket::TimeExceeded(TimeExceeded::TtlTransit { data }).to_vec();
    assert_eq!(
        p.on_down_message(addr(0, 1), None, &notice(vec![1, 2, 3])),
        IcmpIngress::Exceeded { channel: 5, addr: addr(0, 1) }
    );
    // the subscription stays
    assert_eq!(
        p.on_down_message(addr(0, 2), None, &notice(vec![1, 2, 3])),
        IcmpIngress::Exceeded { channel: 5, addr: addr(0, 2) }
    );
    assert_eq!(
        p.on_down_message(addr(0, 1), None, &notice(vec![1, 2, 3, 4])),
        IcmpIngress::Exceeded { channel: 6, addr: addr(0, 1) }
    );
    // no prefix match
    assert_eq!(p.on_down_message(addr(0, 1), None, &notice(vec![1, 2])), IcmpIngress::Unclaimed);
    assert_eq!(
        p.on_down_message(addr(0, 1), None, &notice(vec![1, 2, 3, 4, 5])),
        IcmpIngress::Unclaimed
    );
    // a new subscription to the same octets replaces the old
    p.set_ttl_handler(vec![1, 2, 3], 7);
    assert_eq!(
        p.on_down_message(addr(0, 1), None, &notice(vec![1, 2, 3])),
        IcmpIngress::Exceeded { channel: 7, addr: addr(0, 1) }
    );
    p.drop_ttl_handler(&[1, 2, 3]);
    assert_eq!(p.on_down_message(addr(0, 1), None, &notice(vec![1, 2, 3])), IcmpIngress::Unclaimed);
    assert_eq!(p.on_down_message(addr(0, 1), None, &[11, 0]), IcmpIngress::Undecodable);
}

#[test]
fn udp_sockets() {
    let mut p = UdpProcess::new();
    let socket = p.get_socket(50000, 3);
    assert_eq!(socket.port, 50000);
    let sent = socket.send((addr(0, 30), 53), vec![0x69, 0x69]).unwrap();
    let expected =
        UdpPacket { source_port: 50000, destination_port: 53, payload: vec![0x69, 0x69] }.to_vec();
    assert_eq!(sent, NetworkTransportMessage::IPv4(addr(0, 30), None, expected.clone()));
    assert_eq!(
        socket.send_ttl((addr(0, 30), 53), vec![0x69, 0x69], 2),
        Some(NetworkTransportMessage::IPv4(addr(0, 30), Some(2), expected))
    );
    assert_eq!(socket.send((addr(0, 30), 53), vec![0; 65528]), None);

    let incoming =
        UdpPacket { source_port: 53, destination_port: 50000, payload: vec![1, 2] }.to_vec();
    assert_eq!(
        p.on_down_message(addr(0, 30), Some(61), &incoming),
        Some(Delivery {
            channel: 3,
            source: addr(0, 30),
            source_port: 53,
            payload: vec![1, 2],
            ttl: Some(61)
        })
    );
    let elsewhere = UdpPacket { source_port: 53, destination_port: 50001, payload: vec![] }.to_vec();
    assert_eq!(p.on_down_message(addr(0, 30), None, &elsewhere), None);
    assert_eq!(p.on_down_message(addr(0, 30), None, &[1, 2, 3]), None);
    // binding again moves the port to the new socket
    p.get_socket(50000, 4);
    assert_eq!(p.on_down_message(addr(0, 30), None, &incoming).unwrap().channel, 4);
    p.evict(50000);
    assert_eq!(p.on_down_message(addr(0, 30), None, &incoming), None);
}

#[test]
fn pids_are_small_and_dense() {
    let mut m: ProcessManager<String> = ProcessManager::new();
    assert!(m.can_add());
    let a = m.add(|pid| format!("task {pid}"));
    let b = m.add(|pid| format!("task {pid}"));
    let c = m.add(|pid| format!("task {pid}"));
    let d = m.add(|pid| format!("task {pid}"));
    assert_eq!((a, b, c, d), (0, 1, 2, 3));
    assert!(m.is_live(2));
    // a number in the middle goes to the free stack and is given again first
    assert_eq!(m.stop_process(1), Some("task 1".to_string()));
    assert!(!m.is_live(1));
    assert_eq!(m.stop_process(1), None);
    assert_eq!(m.add(|pid| format!("again {pid}")), 1);
    // the top number shrinks the counter, and absorbs the free numbers right below
    assert_eq!(m.stop_process(2), Some("task 2".to_string()));
    assert_eq!(m.stop_process(3), Some("task 3".to_string()));
    assert_eq!(m.add(|pid| format!("task {pid}")), 2);
    assert_eq!(m.add(|pid| format!("task {pid}")), 3);
    assert_eq!(m.stop_process(42), None);
}

#[test]
fn pid_counter_absorbs_only_the_top_of_the_stack() {
    let mut m: ProcessManager<()> = ProcessManager::new();
    for _ in 0..5 {
        m.add(|_| ());
    }
    // free 3 then 2: the stack is [3, 2]; then 4 shrinks the counter to 4,
    // but the top of the stack is 2, so nothing more is absorbed
    m.stop_process(3);
    m.stop_process(2);
    m.stop_process(4);
    assert_eq!(m.add(|_| ()), 2);
    assert_eq!(m.add(|_| ()), 3);
    assert_eq!(m.add(|_| ()), 4);
    // free 2 then 3: the stack is [2, 3]; then 4 absorbs 3 and 2
    m.stop_process(2);
    m.stop_process(3);
    m.stop_process(4);
    assert_eq!(m.add(|_| ()), 2);
    assert_eq!(m.add(|_| ()), 3);
}
