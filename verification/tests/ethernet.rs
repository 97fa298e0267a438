use routing::ethernet::dot1q::Tag;
use routing::ethernet::ethertype::{EtherType, ARP, IP_V4};
use routing::ethernet::packet::EthernetPacket;
use routing::mac::Mac;

fn mac(last: u8) -> Mac {
    Mac::new([0x02, 0x00, 0x00, 0x00, 0x00, last])
}

#[test]
fn tag_encodes_tpid_then_tci() {
    let tag = Tag::new(5, true, 0x123);
    assert_eq!(tag.to_vec(), vec![0x81, 0x00, 0xb1, 0x23]);
    assert_eq!(tag.vlan_id(), 0x123);
}

#[test]
fn tag_roundtrip() {
    let tag = Tag::new(7, false, 4095);
    assert_eq!(Tag::from_vec(&tag.to_vec()), Some(Some(tag)));
}

#[test]
fn tag_new_cuts_fields_to_their_width() {
    assert_eq!(Tag::new(9, false, 4096 + 10), Tag::new(1, false, 10));
}

#[test]
fn tag_from_vec_short_and_absent() {
    assert_eq!(Tag::from_vec(&[0x81]), None);
    assert_eq!(Tag::from_vec(&[0x08, 0x00]), Some(None));
    assert_eq!(Tag::from_vec(&[0x81, 0x00, 0x00]), None);
}

#[test]
fn ethernet_untagged_roundtrip() {
    let p = EthernetPacket::new_ip_v4(mac(1), mac(2), vec![1, 2, 3]).unwrap();
    let bytes = p.to_vec();
    assert_eq!(bytes.len(), 17);
    assert_eq!(&bytes[12..14], &[0x08, 0x00]);
    assert_eq!(EthernetPacket::from_vec(&bytes), Some(p));
}

#[test]
fn ethernet_tagged_roundtrip_returns_inner_ethertype() {
    let mut p = EthernetPacket::new_arp(mac(1), mac(2), vec![9; 28]).unwrap();
    p.set_dot1q(Tag::new(0, false, 10));
    let bytes = p.to_vec();
    assert_eq!(bytes.len(), 18 + 28);
    let back = EthernetPacket::from_vec(&bytes).unwrap();
    assert_eq!(back.get_ether_type(), EtherType::from_u16(ARP));
    assert_eq!(back.get_dot1q(), Some(Tag::new(0, false, 10)));
    assert_eq!(back.payload, vec![9; 28]);
    assert_eq!(back, p);
}

#[test]
fn ethernet_rejects_short_buffers() {
    assert_eq!(EthernetPacket::from_vec(&[0; 13]), None);
    let mut tagged = vec![0u8; 12];
    tagged.extend_from_slice(&[0x81, 0x00, 0x00, 0x0a, 0x08]);
    assert_eq!(tagged.len(), 17);
    assert_eq!(EthernetPacket::from_vec(&tagged), None);
}

#[test]
fn ethernet_oversize_payload_is_refused() {
    assert!(EthernetPacket::new_ip_v4(mac(1), mac(2), vec![0; 1500]).is_some());
    assert!(EthernetPacket::new_ip_v4(mac(1), mac(2), vec![0; 1501]).is_none());
    assert!(EthernetPacket::new_generic(mac(1), mac(2), vec![0; 1501]).is_none());
}

#[test]
fn ethernet_generic_carries_length() {
    let p = EthernetPacket::new_generic(mac(1), mac(2), vec![0; 300]).unwrap();
    assert_eq!(p.get_ether_type().to_u16(), 300);
}

#[test]
fn remove_tag_then_encode_is_untagged_encoding() {
    let plain = EthernetPacket::new_ip_v4(mac(1), mac(2), vec![7, 7, 7]).unwrap();
    let mut tagged = plain.clone();
    tagged.set_dot1q(Tag::new(3, true, 20));
    assert_ne!(tagged.to_vec(), plain.to_vec());
    tagged.remove_dot1q();
    assert_eq!(tagged.to_vec(), plain.to_vec());
    assert_eq!(plain.get_ether_type().to_u16(), IP_V4);
}

#[test]
fn mac_predicates() {
    let m = Mac::new([0x02, 0, 0, 0, 0, 1]);
    assert!(m.is_locally_administered());
    assert!(!m.is_universally_administered());
    assert!(m.is_unicast());
    assert!(!m.is_multicast());
    assert!(!m.is_broadcast());
    let b = Mac::broadcast();
    assert!(b.is_broadcast());
    assert!(b.is_multicast());
    assert_eq!(m.manufacturer(), &[0x02, 0, 0]);
    assert_eq!(m.as_slice(), &[0x02, 0, 0, 0, 0, 1]);
}
