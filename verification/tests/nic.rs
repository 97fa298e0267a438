use routing::chassis::{
    Chassis, ConnectPlan, LinkLayerId, LinkTable, NetworkLayerId, NicHandle, ProcessMessage,
    TransportLayerId,
};
use routing::ethernet::dot1q::Tag;
use routing::ethernet::ethertype::EtherType;
use routing::ethernet::nic::{Cable, DropReason, Nic, NicAction, NicEvent};
use routing::ethernet::packet::EthernetPacket;
use routing::mac::authority::{MacAdminAuthority, SequentialAuthority};
use routing::mac::{Mac, MacParseError};

fn mac(last: u8) -> Mac {
    Mac::new([2, 0, 0, 0, 0, last])
}

#[test]
fn authority_counts_up() {
    let mut a = SequentialAuthority::new([0, 0x69, 0x69]);
    assert!(!a.is_exhausted());
    assert_eq!(a.get_addr(), Mac::new([0, 0x69, 0x69, 0, 0, 0]));
    assert_eq!(a.get_addr(), Mac::new([0, 0x69, 0x69, 0, 0, 1]));
    for _ in 2..0x1_0203 {
        a.get_addr();
    }
    assert_eq!(a.get_addr(), Mac::new([0, 0x69, 0x69, 1, 2, 3]));
}

#[test]
fn mac_text_form() {
    assert_eq!(Mac::new([0, 0x69, 0xab, 0xcd, 0xef, 0x0a]).to_string(), "00-69-AB-CD-EF-0A");
    assert_eq!(Mac::parse("00-69-ab-CD-ef-0A"), Ok(Mac::new([0, 0x69, 0xab, 0xcd, 0xef, 0x0a])));
    assert_eq!("ff-ff-ff-ff-ff-ff".parse::<Mac>(), Ok(Mac::broadcast()));
    assert_eq!(Mac::parse(&mac(7).to_string()), Ok(mac(7)));
}

#[test]
fn mac_text_errors() {
    assert_eq!(Mac::parse("00-69-ab-cd-ef"), Err(MacParseError::LengthError));
    assert_eq!(Mac::parse("00-69-ab-cd-ef-0a-01"), Err(MacParseError::LengthError));
    assert_eq!(Mac::parse("00-69-ab-cd-ef-0g"), Err(MacParseError::ParseByteError));
    assert_eq!(Mac::parse("0-69-ab-cd-ef-0a"), Err(MacParseError::ParseByteError));
    assert_eq!(Mac::parse("000-69-ab-cd-ef-0a"), Err(MacParseError::ParseByteError));
    assert_eq!(Mac::parse("00:69:ab:cd:ef:0a"), Err(MacParseError::ParseByteError));
    assert_eq!(Mac::parse(""), Err(MacParseError::ParseByteError));
    // a bad group is reported before a wrong number of groups
    assert_eq!(Mac::parse("zz"), Err(MacParseError::ParseByteError));
}

#[test]
fn mac_as_number() {
    assert_eq!(Mac::new([1, 2, 3, 4, 5, 6]).key(), 0x0102_0304_0506);
    assert_eq!(Mac::broadcast().key(), 0xffff_ffff_ffff);
}

#[test]
fn nic_is_up_iff_it_holds_a_cable() {
    let mut nic = Nic::new_with_mac(mac(1));
    assert!(!nic.is_up());
    assert_eq!(nic.cable(), None);
    assert!(nic.connect_to(Cable(4)));
    assert!(nic.is_up());
    assert_eq!(nic.cable(), Some(Cable(4)));
    // plugging in again is refused and changes nothing
    assert!(!nic.connect_to(Cable(5)));
    assert_eq!(nic.cable(), Some(Cable(4)));
    assert!(nic.disconnect());
    assert!(!nic.is_up());
    assert_eq!(nic.cable(), None);
    assert!(!nic.disconnect());
    assert_eq!(nic.mac(), mac(1));
}

#[test]
fn nic_from_authority() {
    let mut a = SequentialAuthority::new([2, 0, 0]);
    let first = Nic::new(&mut a);
    let second = Nic::new(&mut a);
    assert_eq!(first.mac(), Mac::new([2, 0, 0, 0, 0, 0]));
    assert_eq!(second.mac(), Mac::new([2, 0, 0, 0, 0, 1]));
    assert!(!first.is_up());
}

#[test]
fn connect_other_policy() {
    // (Down, Down): a new cable in both
    let (mut a, mut b) = (Nic::new_with_mac(mac(1)), Nic::new_with_mac(mac(2)));
    assert!(a.connect_other(&mut b, Cable(9)));
    assert_eq!((a.cable(), b.cable()), (Some(Cable(9)), Some(Cable(9))));
    // (Up, Down): the cable of the one that is up
    let mut c = Nic::new_with_mac(mac(3));
    assert!(a.connect_other(&mut c, Cable(10)));
    assert_eq!(c.cable(), Some(Cable(9)));
    // (Down, Up)
    let mut d = Nic::new_with_mac(mac(4));
    assert!(d.connect_other(&mut a, Cable(11)));
    assert_eq!(d.cable(), Some(Cable(9)));
    // (Up, Up): refused, nothing changes
    let mut e = Nic::join(Some(Cable(20)), mac(5));
    assert!(!e.connect_other(&mut a, Cable(12)));
    assert_eq!((e.cable(), a.cable()), (Some(Cable(20)), Some(Cable(9))));
}

#[test]
fn connect_takes_the_cable_of_the_other() {
    let mut a = Nic::new_with_mac(mac(1));
    let mut b = Nic::new_with_mac(mac(2));
    b.connect(&mut a, Cable(1));
    assert_eq!((a.cable(), b.cable()), (Some(Cable(1)), Some(Cable(1))));
    let mut c = Nic::join(Some(Cable(2)), mac(3));
    c.connect(&mut a, Cable(3));
    assert_eq!(c.cable(), Some(Cable(1)));
    assert_eq!(c.split(), (Some(Cable(1)), mac(3)));
}

#[test]
fn nic_accepts_own_and_group_addresses() {
    let nic = Nic::join(Some(Cable(1)), mac(1));
    let to_us = EthernetPacket::new_ip_v4(mac(1), mac(2), vec![1]).unwrap();
    assert_eq!(
        nic.receive(to_us),
        NicAction::Deliver { to: NetworkLayerId::Ipv4, source: mac(2), payload: vec![1] }
    );
    let to_all = EthernetPacket::new_arp(Mac::broadcast(), mac(2), vec![2]).unwrap();
    assert_eq!(
        nic.receive(to_all),
        NicAction::Deliver { to: NetworkLayerId::Arp, source: mac(2), payload: vec![2] }
    );
    let v6 = EthernetPacket::new_ip_v6(mac(1), mac(2), vec![3]).unwrap();
    assert_eq!(
        nic.receive(v6),
        NicAction::Deliver { to: NetworkLayerId::Ipv6, source: mac(2), payload: vec![3] }
    );
    let to_other = EthernetPacket::new_ip_v4(mac(3), mac(2), vec![1]).unwrap();
    assert_eq!(nic.receive(to_other), NicAction::Dropped(DropReason::NotForUs));
    let unknown = EthernetPacket::new_generic(mac(1), mac(2), vec![0; 5]).unwrap();
    assert_eq!(
        nic.receive(unknown),
        NicAction::Dropped(DropReason::UnknownEtherType(EtherType::from_u16(5)))
    );
}

#[test]
fn nic_transmits_untagged_frames() {
    let nic = Nic::join(Some(Cable(1)), mac(1));
    let r = nic.transmit(Cable(1), NetworkLayerId::Arp, Mac::broadcast(), vec![1, 2]);
    assert_eq!(
        r,
        NicAction::Transmit {
            cable: Cable(1),
            frame: EthernetPacket::new_arp(Mac::broadcast(), mac(1), vec![1, 2]).unwrap()
        }
    );
    assert_eq!(
        nic.transmit(Cable(1), NetworkLayerId::Ipv4, mac(2), vec![0; 1501]),
        NicAction::Dropped(DropReason::Oversize)
    );
    assert!(matches!(
        nic.transmit(Cable(1), NetworkLayerId::Ipv4, mac(2), vec![0; 1500]),
        NicAction::Transmit { .. }
    ));
}

#[test]
fn nic_state_machine() {
    let mut nic = Nic::new_with_mac(mac(1));
    // down: only waits to be plugged in
    assert_eq!(nic.step(NicEvent::Disconnect), NicAction::Dropped(DropReason::NotListening));
    assert_eq!(nic.step(NicEvent::GetCable), NicAction::Dropped(DropReason::NotListening));
    assert_eq!(
        nic.step(NicEvent::Outbound(NetworkLayerId::Ipv4, mac(2), vec![1])),
        NicAction::Dropped(DropReason::NotListening)
    );
    assert!(!nic.is_up());
    assert_eq!(nic.step(NicEvent::ConnectTo(Cable(3))), NicAction::Connected);
    assert!(nic.is_up());
    // up
    assert_eq!(nic.step(NicEvent::GetCable), NicAction::Cable(Cable(3)));
    assert_eq!(nic.step(NicEvent::ConnectTo(Cable(4))), NicAction::Dropped(DropReason::NotListening));
    assert_eq!(nic.cable(), Some(Cable(3)));
    assert!(matches!(
        nic.step(NicEvent::Outbound(NetworkLayerId::Ipv4, mac(2), vec![1])),
        NicAction::Transmit { cable: Cable(3), .. }
    ));
    let frame = EthernetPacket::new_ip_v4(mac(1), mac(2), vec![7]).unwrap();
    assert!(matches!(nic.step(NicEvent::Frame(frame)), NicAction::Deliver { .. }));
    assert_eq!(nic.step(NicEvent::Disconnect), NicAction::Disconnected);
    assert!(!nic.is_up());
}

#[test]
fn tagged_frame_at_a_nic_is_dispatched_by_inner_ethertype() {
    let nic = Nic::join(Some(Cable(1)), mac(1));
    let mut f = EthernetPacket::new_ip_v4(mac(1), mac(2), vec![1]).unwrap();
    f.set_dot1q(Tag::new(0, false, 5));
    assert!(matches!(nic.receive(f), NicAction::Deliver { to: NetworkLayerId::Ipv4, .. }));
}

#[test]
fn handle_plans() {
    let (up, down) = (NicHandle::new(true), NicHandle::new(false));
    assert_eq!(down.plan_connect(&down), ConnectPlan::NewCable);
    assert_eq!(up.plan_connect(&down), ConnectPlan::ShareOurs);
    assert_eq!(down.plan_connect(&up), ConnectPlan::ShareTheirs);
    assert_eq!(up.plan_connect(&up), ConnectPlan::Refuse);
    assert_eq!(up.state_name(), "UP");
    assert_eq!(down.state_name(), "DOWN");
}

#[test]
fn handle_connect_other() {
    let (mut a, mut b) = (NicHandle::new(false), NicHandle::new(false));
    assert!(a.connect_other(&mut b, true, true));
    assert!(a.connected() && b.connected());
    assert!(!a.connect_other(&mut b, true, true));
    let mut c = NicHandle::new(false);
    assert!(a.connect_other(&mut c, false, true));
    assert!(c.connected());
    let mut d = NicHandle::new(false);
    assert!(!a.connect_other(&mut d, true, false));
    assert!(!d.connected());
    let (mut e, mut f) = (NicHandle::new(false), NicHandle::new(false));
    assert!(!e.connect_other(&mut f, false, true));
    assert!(!e.connected() && !f.connected());
}

#[test]
fn handle_disconnect() {
    let mut h = NicHandle::new(true);
    assert!(!h.disconnect(false, false));
    assert!(h.connected());
    assert!(h.disconnect(true, true));
    assert!(!h.connected());
    assert!(!h.disconnect(true, true));
    let mut lost = NicHandle::new(true);
    assert!(!lost.disconnect(true, false));
    assert!(!lost.connected());
    let mut g = NicHandle::new(false);
    assert!(g.set_connection_self(true));
    assert!(!g.set_connection_self(true));
    assert!(g.connected());
}

#[test]
fn chassis_announces_new_processes() {
    let mut c = Chassis::new();
    assert_eq!(c.add_network_layer_process(NetworkLayerId::Arp), Some(vec![]));
    let (id, handle, announced) = c.add_nic_with_id(0, mac(1), false);
    assert_eq!(id, LinkLayerId::Ethernet(0, mac(1)));
    assert_eq!(id.mac(), mac(1));
    assert!(!handle.connected());
    assert_eq!(announced, Some(vec![NetworkLayerId::Arp]));
    let links = c.add_network_layer_process(NetworkLayerId::Ipv4).unwrap();
    assert_eq!(links.len(), 1);
    assert_eq!(links[0].mac(), mac(1));
    assert_eq!(c.add_network_layer_process(NetworkLayerId::Ipv4), None);
    assert_eq!(
        c.add_transport_layer_process(TransportLayerId::Icmp),
        Some(vec![NetworkLayerId::Arp, NetworkLayerId::Ipv4])
    );
    assert_eq!(c.add_transport_layer_process(TransportLayerId::Icmp), None);
    // the number 0 is taken
    let (_, again, announced) = c.add_nic_with_id(0, mac(9), true);
    assert!(again.connected());
    assert_eq!(announced, None);
    assert_eq!(c.link(0).map(|l| l.mac()), Some(mac(1)));
    assert_eq!(c.link(1), None);
}

#[test]
fn link_names() {
    assert_eq!(LinkLayerId::Ethernet(0, mac(1)).to_string(), "eth0");
    assert_eq!(LinkLayerId::Ethernet(65535, mac(1)).to_string(), "eth65535");
    assert_eq!(LinkLayerId::Ethernet(1204, mac(1)).to_string(), "eth1204");
    assert_eq!(LinkLayerId::Ethernet(3, mac(1)), LinkLayerId::Ethernet(3, mac(2)));
    assert_ne!(LinkLayerId::Ethernet(3, mac(1)), LinkLayerId::Ethernet(4, mac(1)));
    assert_eq!(LinkLayerId::Ethernet(3, mac(1)).index(), 3);
}

#[test]
fn bus_messages() {
    let mut links = LinkTable::new();
    let id = LinkLayerId::Ethernet(2, mac(1));
    let none: Option<(LinkLayerId, u8)> = links.on_message(ProcessMessage::NewConn(id, 17));
    assert_eq!(none, None);
    assert_eq!(links.len(), 1);
    assert_eq!(links.on_message(ProcessMessage::Message(id, 5u8)), Some((id, 5u8)));
    assert_eq!(links.len(), 1);
}
