use routing::ipv4::addr::{IPv4ParseError, IpV4Addr, IpV4Mask};
use routing::ipv4::checksum::checksum;
use routing::ipv4::packet::{Ecn, Flags, IpV4Header, Ipv4Packet, DF, MF};
use routing::ipv4::protocol::{ProtocolType, ICMP, TCP, UDP};
use routing::route::AddrMask;

fn addr(a: u8, b: u8, c: u8, d: u8) -> IpV4Addr {
    IpV4Addr::new([a, b, c, d])
}

fn sample_header(ttl: u8, payload_len: u16, options: Vec<u8>) -> IpV4Header {
    IpV4Header::new(
        0,
        Ecn::NotECT,
        payload_len,
        0x1234,
        Flags::from_bits(DF).unwrap(),
        0,
        ttl,
        ProtocolType::new(UDP),
        addr(192, 168, 0, 30),
        addr(192, 168, 0, 31),
        options,
    )
}

#[test]
fn addr_accessors() {
    let a = addr(10, 1, 2, 3);
    assert_eq!(a.as_arr(), [10, 1, 2, 3]);
    assert_eq!(a.as_slice(), &[10, 1, 2, 3]);
    assert_eq!(IpV4Addr::broadcast().as_arr(), [255, 255, 255, 255]);
    assert_eq!(IpV4Addr::default_addr().as_arr(), [0, 0, 0, 0]);
    assert_eq!(IpV4Addr::loopback().as_arr(), [127, 0, 0, 1]);
}

#[test]
fn addr_text_form() {
    assert_eq!(addr(192, 168, 0, 31).to_string(), "192.168.0.31");
    assert_eq!(addr(0, 9, 10, 255).to_string(), "0.9.10.255");
    assert_eq!(IpV4Addr::parse("192.168.0.31"), Ok(addr(192, 168, 0, 31)));
    assert_eq!("10.0.0.1".parse::<IpV4Addr>(), Ok(addr(10, 0, 0, 1)));
    assert_eq!(IpV4Addr::parse("007.0.0.1"), Ok(addr(7, 0, 0, 1)));
}

#[test]
fn addr_text_errors() {
    assert_eq!(IpV4Addr::parse("10.0.0"), Err(IPv4ParseError::LengthError));
    assert_eq!(IpV4Addr::parse("10.0.0.1.2"), Err(IPv4ParseError::LengthError));
    assert_eq!(IpV4Addr::parse("10.0.0.256"), Err(IPv4ParseError::ParseByteError));
    assert_eq!(IpV4Addr::parse("10.0.x.1"), Err(IPv4ParseError::ParseByteError));
    assert_eq!(IpV4Addr::parse("10..0.1"), Err(IPv4ParseError::ParseByteError));
    assert_eq!(IpV4Addr::parse(""), Err(IPv4ParseError::ParseByteError));
    assert_eq!(IpV4Addr::parse("1000.0.0.1"), Err(IPv4ParseError::ParseByteError));
}

#[test]
fn mask_octets() {
    assert_eq!(IpV4Mask::new(0).get_mask(), [0, 0, 0, 0]);
    assert_eq!(IpV4Mask::new(8).get_mask(), [255, 0, 0, 0]);
    assert_eq!(IpV4Mask::new(20).get_mask(), [255, 255, 240, 0]);
    assert_eq!(IpV4Mask::new(24).get_mask(), [255, 255, 255, 0]);
    assert_eq!(IpV4Mask::new(31).get_mask(), [255, 255, 255, 254]);
    assert_eq!(IpV4Mask::new(32).get_mask(), [255, 255, 255, 255]);
    assert_eq!(IpV4Mask::new(24).to_string(), "255.255.255.0");
}

#[test]
fn mask_prefix_is_capped_at_32() {
    assert_eq!(IpV4Mask::new(40), IpV4Mask::new(32));
    assert_eq!(IpV4Mask::new(200).specifity(), 32);
    assert_eq!(IpV4Mask::from(17).specifity(), 17);
}

#[test]
fn mask_and_addr() {
    let m = IpV4Mask::new(20);
    assert_eq!(m & addr(192, 168, 37, 9), addr(192, 168, 32, 0));
    assert_eq!(m.mask(addr(192, 168, 37, 9)), addr(192, 168, 32, 0));
    assert_eq!(IpV4Mask::new(0) & addr(1, 2, 3, 4), addr(0, 0, 0, 0));
    assert_eq!(IpV4Mask::new(32) & addr(1, 2, 3, 4), addr(1, 2, 3, 4));
}

#[test]
fn masking_is_idempotent() {
    for len in 0..=32u8 {
        let m = IpV4Mask::new(len);
        for a in [addr(192, 168, 37, 9), addr(255, 255, 255, 255), addr(10, 0, 0, 1)] {
            assert_eq!(m & (m & a), m & a);
        }
    }
}

#[test]
fn checksum_of_known_header() {
    // the example header of RFC 1071 discussions: 45 00 00 73 00 00 40 00 40 11 .. c0 a8 00 01 c0 a8 00 c7
    let zeroed = [
        0x45, 0x00, 0x00, 0x73, 0x00, 0x00, 0x40, 0x00, 0x40, 0x11, 0x00, 0x00, 0xc0, 0xa8, 0x00,
        0x01, 0xc0, 0xa8, 0x00, 0xc7,
    ];
    assert_eq!(checksum(&zeroed), 0xb861);
    let mut sealed = zeroed;
    sealed[10] = 0xb8;
    sealed[11] = 0x61;
    assert_eq!(checksum(&sealed), 0);
}

#[test]
fn checksum_folds_carries() {
    assert_eq!(checksum(&[0xff, 0xff, 0xff, 0xff]), 0);
    assert_eq!(checksum(&[0xff, 0xff, 0x00, 0x01]), 0xfffe);
    assert_eq!(checksum(&[]), 0xffff);
}

#[test]
fn header_encoding_layout() {
    let h = sample_header(64, 12, vec![]);
    let bytes = h.to_vec();
    assert_eq!(bytes.len(), 20);
    assert_eq!(bytes[0], 0x45);
    assert_eq!(bytes[1], 0);
    assert_eq!(&bytes[2..4], &[0, 32]);
    assert_eq!(&bytes[4..6], &[0x12, 0x34]);
    assert_eq!(&bytes[6..8], &[0x40, 0x00]);
    assert_eq!(bytes[8], 64);
    assert_eq!(bytes[9], 17);
    assert_eq!(&bytes[12..16], &[192, 168, 0, 31]);
    assert_eq!(&bytes[16..20], &[192, 168, 0, 30]);
    assert_eq!(checksum(&bytes), 0);
    assert_eq!(h.get_checksum(u16::from_be_bytes([bytes[10], bytes[11]])), 0);
}

#[test]
fn header_with_options_sets_ihl() {
    let h = sample_header(9, 0, vec![1, 1, 1, 0, 7, 7, 7, 7]);
    let bytes = h.to_vec();
    assert_eq!(bytes.len(), 28);
    assert_eq!(bytes[0], 0x47);
    assert_eq!(checksum(&bytes), 0);
    assert!(h.options_fit());
    let (back, len) = IpV4Header::from_vec(&bytes).unwrap();
    assert_eq!(len, 28);
    assert_eq!(back, h);
}

#[test]
fn header_options_must_fill_words() {
    assert!(!sample_header(9, 0, vec![1, 2, 3]).options_fit());
    assert!(!sample_header(9, 0, vec![0; 44]).options_fit());
    assert!(sample_header(9, 0, vec![0; 40]).options_fit());
}

#[test]
fn packet_roundtrip() {
    let payload = vec![1u8, 2, 3, 4, 5, 6, 7, 8, 9, 10, 11, 12];
    let p = Ipv4Packet::new(sample_header(64, 12, vec![]), payload.clone());
    let bytes = p.to_vec();
    assert_eq!(bytes.len(), 32);
    assert_eq!(Ipv4Packet::from_vec(&bytes), Some(p));
}

#[test]
fn packet_payload_ends_at_total_length() {
    let p = Ipv4Packet::new(sample_header(64, 4, vec![]), vec![9, 9, 9, 9]);
    let mut bytes = p.to_vec();
    bytes.extend_from_slice(&[0xaa, 0xbb, 0xcc]);
    let back = Ipv4Packet::from_vec(&bytes).unwrap();
    assert_eq!(back.payload, vec![9, 9, 9, 9]);
}

#[test]
fn packet_decode_rejects() {
    let p = Ipv4Packet::new(sample_header(64, 4, vec![]), vec![9, 9, 9, 9]);
    let good = p.to_vec();
    assert!(Ipv4Packet::from_vec(&good).is_some());
    // too short for a header
    assert_eq!(Ipv4Packet::from_vec(&good[..19]), None);
    assert_eq!(Ipv4Packet::from_vec(&[]), None);
    // version
    let mut bad = good.clone();
    bad[0] = 0x65;
    assert_eq!(Ipv4Packet::from_vec(&bad), None);
    // header length below 5 words
    let mut bad = good.clone();
    bad[0] = 0x44;
    assert_eq!(Ipv4Packet::from_vec(&bad), None);
    // header length beyond the buffer
    let mut bad = good.clone();
    bad[0] = 0x4f;
    assert_eq!(Ipv4Packet::from_vec(&bad), None);
    // total length beyond the buffer
    assert_eq!(Ipv4Packet::from_vec(&good[..23]), None);
    // checksum
    let mut bad = good.clone();
    bad[8] = 63;
    assert_eq!(Ipv4Packet::from_vec(&bad), None);
}

#[test]
fn packet_decode_rejects_reserved_flag() {
    let p = Ipv4Packet::new(sample_header(64, 0, vec![]), vec![]);
    let mut bytes = p.to_vec();
    bytes[6] |= 0x80;
    bytes[10] = 0;
    bytes[11] = 0;
    let c = checksum(&bytes);
    bytes[10] = (c >> 8) as u8;
    bytes[11] = c as u8;
    assert_eq!(checksum(&bytes), 0);
    assert_eq!(Ipv4Packet::from_vec(&bytes), None);
}

#[test]
fn packet_decode_rejects_total_length_below_header() {
    let p = Ipv4Packet::new(sample_header(64, 0, vec![]), vec![]);
    let mut bytes = p.to_vec();
    bytes[3] = 19;
    bytes[10] = 0;
    bytes[11] = 0;
    let c = checksum(&bytes);
    bytes[10] = (c >> 8) as u8;
    bytes[11] = c as u8;
    assert_eq!(Ipv4Packet::from_vec(&bytes), None);
}

#[test]
fn fresh_datagram_fields() {
    let p = Ipv4Packet::fresh(
        addr(10, 0, 0, 1),
        addr(10, 0, 0, 2),
        None,
        ProtocolType::new(ICMP),
        vec![8, 0, 0, 0, 0, 1, 0, 2],
    );
    assert_eq!(p.header.time_to_live, 255);
    assert_eq!(p.header.total_length, 28);
    assert_eq!(p.header.dscp, 0);
    assert_eq!(p.header.ecn, Ecn::NotECT);
    assert_eq!(p.header.identification, 0);
    assert_eq!(p.header.flags, Flags::empty());
    assert_eq!(p.header.fragment_offset, 0);
    assert_eq!(p.header.protocol.inner(), 1);
    assert_eq!(p.header.source, addr(10, 0, 0, 1));
    assert_eq!(p.header.destination, addr(10, 0, 0, 2));
    let with_ttl =
        Ipv4Packet::fresh(addr(1, 1, 1, 1), addr(2, 2, 2, 2), Some(3), ProtocolType::new(TCP), vec![]);
    assert_eq!(with_ttl.header.time_to_live, 3);
}

#[test]
fn quoted_part_of_a_datagram() {
    let p = Ipv4Packet::new(sample_header(0, 12, vec![]), (0..12u8).collect());
    let bytes = p.to_vec();
    let (back, quote) = Ipv4Packet::from_vec_quoted(&bytes).unwrap();
    assert_eq!(back, p);
    assert_eq!(quote, bytes[..28].to_vec());
    let short = Ipv4Packet::new(sample_header(0, 3, vec![]), vec![1, 2, 3]);
    let bytes = short.to_vec();
    let (_, quote) = Ipv4Packet::from_vec_quoted(&bytes).unwrap();
    assert_eq!(quote, bytes);
}

#[test]
fn ecn_and_flags() {
    assert_eq!(Ecn::from_u8(0), Some(Ecn::NotECT));
    assert_eq!(Ecn::from_u8(1), Some(Ecn::ECT0));
    assert_eq!(Ecn::from_u8(2), Some(Ecn::ECT1));
    assert_eq!(Ecn::from_u8(3), Some(Ecn::CE));
    assert_eq!(Ecn::from_u8(4), None);
    assert_eq!(Ecn::CE.code(), 3);
    assert_eq!(Flags::from_bits(4), None);
    let f = Flags::from_bits(DF | MF).unwrap();
    assert!(f.dont_fragment() && f.more_fragments());
    assert_eq!(f.bits(), 3);
    assert!(!Flags::empty().dont_fragment());
}
