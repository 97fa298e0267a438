use routing::arp::packet::{get_hardware_len, get_protocol_len, ArpPacket, Operation};
use routing::ethernet::ethertype::{EtherType, ARP, IP_V4, IP_V6};
use routing::ethernet::lldp::{
    build_lldp_packet, capabilities_tlv, Capabilities, TlvType, TypeLengthValue, BRIDGE, ROUTER,
};
use routing::icmp::packet::{IcmpPacket, TimeExceeded};
use routing::udp::packet::UdpPacket;

#[test]
fn arp_request_layout() {
    let p = ArpPacket::new_request(
        1,
        EtherType::from_u16(IP_V4),
        vec![2, 0, 0, 0, 0, 1],
        vec![192, 168, 0, 31],
        vec![192, 168, 0, 30],
    );
    assert_eq!(
        p.to_vec(),
        vec![
            0, 1, 8, 0, 6, 4, 0, 1, 2, 0, 0, 0, 0, 1, 192, 168, 0, 31, 0, 0, 0, 0, 0, 0, 192, 168,
            0, 30
        ]
    );
    assert_eq!(p.operation, Operation::Request);
    assert_eq!(p.target_harware_address, vec![0; 6]);
}

#[test]
fn arp_roundtrip() {
    let p = ArpPacket::new_reply(
        1,
        EtherType::from_u16(IP_V4),
        vec![2, 0, 0, 0, 0, 2],
        vec![192, 168, 0, 30],
        vec![2, 0, 0, 0, 0, 1],
        vec![192, 168, 0, 31],
    );
    let bytes = p.to_vec();
    assert_eq!(bytes.len(), 28);
    assert_eq!(&bytes[6..8], &[0, 2]);
    assert_eq!(ArpPacket::from_vec(&bytes), Some(p));
}

#[test]
fn arp_decode_rejects_wrong_length() {
    let p = ArpPacket::new_request(
        1,
        EtherType::from_u16(IP_V4),
        vec![2, 0, 0, 0, 0, 1],
        vec![192, 168, 0, 31],
        vec![192, 168, 0, 30],
    );
    let bytes = p.to_vec();
    assert_eq!(ArpPacket::from_vec(&bytes[..27]), None);
    let mut longer = bytes.clone();
    longer.push(0);
    assert_eq!(ArpPacket::from_vec(&longer), None);
    assert_eq!(ArpPacket::from_vec(&bytes[..7]), None);
    let mut lying = bytes.clone();
    lying[4] = 8;
    assert_eq!(ArpPacket::from_vec(&lying), None);
}

#[test]
fn arp_decode_rejects_unknown_operation() {
    let p = ArpPacket::new_request(
        1,
        EtherType::from_u16(IP_V4),
        vec![2, 0, 0, 0, 0, 1],
        vec![192, 168, 0, 31],
        vec![192, 168, 0, 30],
    );
    let mut bytes = p.to_vec();
    bytes[7] = 3;
    assert_eq!(ArpPacket::from_vec(&bytes), None);
    bytes[7] = 0;
    assert_eq!(ArpPacket::from_vec(&bytes), None);
}

#[test]
fn arp_address_lengths() {
    assert_eq!(get_hardware_len(1), Some(6));
    assert_eq!(get_hardware_len(2), None);
    assert_eq!(get_protocol_len(EtherType::from_u16(IP_V4)), Some(4));
    assert_eq!(get_protocol_len(EtherType::from_u16(IP_V6)), Some(16));
    assert_eq!(get_protocol_len(EtherType::from_u16(ARP)), None);
    assert_eq!(Operation::from_u16(1), Some(Operation::Request));
    assert_eq!(Operation::from_u16(2), Some(Operation::Reply));
    assert_eq!(Operation::from_u16(0), None);
    assert_eq!(Operation::Reply.code(), 2);
}

#[test]
fn icmp_echo_is_eight_octets() {
    let p = IcmpPacket::EchoRequest { id: 0x0102, seq: 0x0304 };
    assert_eq!(p.to_vec(), vec![8, 0, 0, 0, 1, 2, 3, 4]);
    let p = IcmpPacket::EchoReply { id: 0xffff, seq: 7 };
    assert_eq!(p.to_vec(), vec![0, 0, 0, 0, 0xff, 0xff, 0, 7]);
}

#[test]
fn icmp_roundtrip() {
    for p in [
        IcmpPacket::EchoRequest { id: 1, seq: 2 },
        IcmpPacket::EchoReply { id: 40000, seq: 65535 },
        IcmpPacket::TimeExceeded(TimeExceeded::TtlTransit { data: vec![] }),
        IcmpPacket::TimeExceeded(TimeExceeded::TtlTransit { data: vec![0x45, 1, 2, 3, 4] }),
    ] {
        assert_eq!(IcmpPacket::from_vec(&p.to_vec()), Some(p));
    }
}

#[test]
fn icmp_decode_rejects() {
    assert_eq!(IcmpPacket::from_vec(&[8, 0, 0]), None);
    // an echo of another length
    assert_eq!(IcmpPacket::from_vec(&[8, 0, 0, 0, 0, 1, 0]), None);
    assert_eq!(IcmpPacket::from_vec(&[0, 0, 0, 0, 0, 1, 0, 2, 9]), None);
    // time exceeded of another code
    assert_eq!(IcmpPacket::from_vec(&[11, 1, 0, 0, 1, 2]), None);
    // other types
    assert_eq!(IcmpPacket::from_vec(&[3, 0, 0, 0, 0, 0, 0, 0]), None);
}

#[test]
fn icmp_time_exceeded_keeps_the_rest() {
    assert_eq!(
        IcmpPacket::from_vec(&[11, 0, 0xab, 0xcd, 1, 2, 3]),
        Some(IcmpPacket::TimeExceeded(TimeExceeded::TtlTransit { data: vec![1, 2, 3] }))
    );
}

#[test]
fn udp_encode_emits_header_and_payload() {
    let p = UdpPacket { source_port: 50000, destination_port: 53, payload: vec![0x69, 0x69] };
    assert_eq!(p.to_vec(), vec![0xc3, 0x50, 0, 53, 0, 10, 0, 0, 0x69, 0x69]);
}

#[test]
fn udp_roundtrip() {
    for payload in [vec![], vec![1], vec![7; 1000]] {
        let p = UdpPacket { source_port: 1, destination_port: 65535, payload };
        assert!(p.fits());
        assert_eq!(UdpPacket::from_vec(&p.to_vec()), Some(p));
    }
}

#[test]
fn udp_decode_needs_a_header() {
    assert_eq!(UdpPacket::from_vec(&[0; 7]), None);
    assert_eq!(
        UdpPacket::from_vec(&[0, 1, 0, 2, 0, 8, 0, 0]),
        Some(UdpPacket { source_port: 1, destination_port: 2, payload: vec![] })
    );
}

#[test]
fn udp_payload_limit() {
    let p = UdpPacket { source_port: 1, destination_port: 2, payload: vec![0; 65527] };
    assert!(p.fits());
    assert_eq!(&p.to_vec()[4..6], &[0xff, 0xff]);
    let p = UdpPacket { source_port: 1, destination_port: 2, payload: vec![0; 65528] };
    assert!(!p.fits());
}

#[test]
fn ethertype_values() {
    assert_eq!(EtherType::ip_v4().to_u16(), 0x0800);
    assert_eq!(EtherType::ip_v6().to_u16(), 0x86DD);
    assert_eq!(EtherType::arp().to_u16(), 0x0806);
    assert_eq!(EtherType::from_u16(0x1234).to_u16(), 0x1234);
}

#[test]
fn tlv_encoding() {
    let unit = TypeLengthValue::new(TlvType::PortId, vec![5, 6, 7]).unwrap();
    assert_eq!(unit.to_vec(), vec![0x04, 0x03, 5, 6, 7]);
    let custom = TypeLengthValue::new(TlvType::Custom, vec![0; 300]).unwrap();
    assert_eq!(&custom.to_vec()[..2], &[0xff, 0x2c]);
    assert!(TypeLengthValue::new(TlvType::Custom, vec![0; 511]).is_some());
    assert!(TypeLengthValue::new(TlvType::Custom, vec![0; 512]).is_none());
}

#[test]
fn lldp_packet_layout() {
    let extra = [capabilities_tlv(Capabilities::from_bits(BRIDGE | ROUTER))];
    let packet = build_lldp_packet(vec![1], vec![2, 2], vec![0, 120], &extra);
    assert_eq!(
        packet.0,
        vec![0x02, 0x01, 1, 0x04, 0x02, 2, 2, 0x06, 0x02, 0, 120, 0x0e, 0x01, 0x11, 0x00, 0x00]
    );
    let bare = build_lldp_packet(vec![], vec![], vec![], &[]);
    assert_eq!(bare.0, vec![0x02, 0, 0x04, 0, 0x06, 0, 0, 0]);
}
