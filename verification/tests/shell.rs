use routing::arguments::{arguments, ArgumentsIter};
use routing::ctrlc::CtrlC;
use routing::ip::IPv4;
use routing::ipv4::addr::IpV4Addr;
use routing::ping::{print_stats, PingStats, Schedule};
use routing::ipv4::packet::Ipv4Packet;
use routing::ipv4::protocol::{ProtocolType, UDP};
use routing::traceroute::{expected_quote, ProbeResult, TraceEnd, Traceroute};
use routing::udp::packet::UdpPacket;

#[test]
fn arguments_are_cut_at_blanks() {
    assert_eq!(arguments("ping 192.168.0.30 -n 3"), vec!["ping", "192.168.0.30", "-n", "3"]);
    assert_eq!(arguments("stop"), vec!["stop"]);
    assert_eq!(arguments(""), Vec::<&str>::new());
    // two blanks in a row have an empty word between them
    assert_eq!(arguments("a  b"), vec!["a", "", "b"]);
    assert_eq!(arguments("a "), vec!["a"]);
    assert_eq!(arguments(" a"), vec!["", "a"]);
}

#[test]
fn arguments_one_by_one() {
    let mut it = ArgumentsIter::new("use é x");
    assert_eq!(it.next(), Some("use"));
    assert_eq!(it.next(), Some("é"));
    assert_eq!(it.next(), Some("x"));
    assert_eq!(it.next(), None);
    assert_eq!(it.next(), None);
}

#[test]
fn interrupt_goes_to_the_top_handler() {
    let mut c = CtrlC::new();
    assert_eq!(c.handle_ctrlc(&vec![]), None);
    c.add_handler(1);
    c.add_handler(2);
    c.add_handler(3);
    assert_eq!(c.handle_ctrlc(&vec![]), Some(3));
    // the handler stays until it is gone
    assert_eq!(c.handle_ctrlc(&vec![]), Some(3));
    // handlers that left are taken off, from the top down to the first that is there
    assert_eq!(c.handle_ctrlc(&vec![3, 2]), Some(1));
    c.add_handler(4);
    assert_eq!(c.handle_ctrlc(&vec![1]), Some(4));
    assert_eq!(c.handle_ctrlc(&vec![1, 4]), None);
    assert_eq!(c.handle_ctrlc(&vec![]), None);
}

#[test]
fn ping_statistics() {
    let s = print_stats(&[Some(300), None, Some(100), Some(200)]);
    assert_eq!(
        s,
        PingStats { sent: 4, received: 3, lost: 1, min: Some(100), max: Some(300), sum: 600 }
    );
    let all = print_stats(&[Some(5), Some(5), Some(5)]);
    assert_eq!((all.sent, all.received, all.lost), (3, 3, 0));
    let none = print_stats(&[None, None]);
    assert_eq!(
        none,
        PingStats { sent: 2, received: 0, lost: 2, min: None, max: None, sum: 0 }
    );
    let empty = print_stats(&[]);
    assert_eq!((empty.sent, empty.received, empty.lost), (0, 0, 0));
    let big = print_stats(&[Some(u64::MAX), Some(u64::MAX)]);
    assert_eq!(big.sum, 2 * (u64::MAX as u128));
}

#[test]
fn traceroute_steps() {
    let target = IpV4Addr::new([192, 168, 1, 40]);
    let router = IpV4Addr::new([192, 168, 0, 1]);
    let mut t = Traceroute::new(target, None);
    assert_eq!(t.next_probe(), Some(0));
    assert_eq!(t.on_result(ProbeResult::Reply(router)), None);
    assert_eq!(t.next_probe(), Some(1));
    assert_eq!(t.on_result(ProbeResult::Reply(target)), Some(TraceEnd::Reached));
    let mut t = Traceroute::new(target, None);
    t.next_probe();
    assert_eq!(t.on_result(ProbeResult::Timeout), Some(TraceEnd::Timeout));
    assert_eq!(t.on_result(ProbeResult::Disconnected), Some(TraceEnd::Disconnected));
}

#[test]
fn traceroute_runs_out_of_hops() {
    let target = IpV4Addr::new([192, 168, 1, 40]);
    let router = IpV4Addr::new([192, 168, 0, 1]);
    let mut t = Traceroute::new(target, Some(2));
    assert_eq!(t.next_probe(), Some(0));
    t.on_result(ProbeResult::Reply(router));
    assert_eq!(t.next_probe(), Some(1));
    t.on_result(ProbeResult::Reply(router));
    assert_eq!(t.next_probe(), None);
    assert_eq!(t.remaining, Some(0));
    // without a limit the probes end with the last TTL there is
    let mut t = Traceroute::new(target, None);
    for ttl in 0..=255u8 {
        assert_eq!(t.next_probe(), Some(ttl));
        assert_eq!(t.on_result(ProbeResult::Reply(router)), None);
    }
    assert_eq!(t.next_probe(), None);
}

#[test]
fn ipv4_as_a_number() {
    assert_eq!(IPv4::new([192, 168, 0, 1]), IPv4::from_raw(0xc0a8_0001));
    assert_eq!(IPv4::new([192, 168, 0, 1]).to_string(), "192.168.0.1");
    let mask = IPv4::new([255, 255, 240, 0]);
    let a = IPv4::new([192, 168, 37, 9]);
    assert_eq!(mask & a, IPv4::new([192, 168, 32, 0]));
    assert_eq!(mask & (mask & a), mask & a);
}

#[test]
fn timestamps_before_the_epoch_count_as_the_epoch() {
    assert_eq!(routing::clock::from_timestamp(-1), 0);
    assert_eq!(routing::clock::from_timestamp(i64::MIN), 0);
    assert_eq!(routing::clock::from_timestamp(0), 0);
    assert_eq!(routing::clock::from_timestamp(1_700_000_000_123), 1_700_000_000_123);
    assert_eq!(routing::clock::from_timestamp(i64::MAX), i64::MAX as u64);
    assert!(routing::clock::now() <= i64::MAX as u64);
    assert_eq!(routing::clock::saturate(7), 7);
    assert_eq!(routing::clock::saturate(u64::MAX as u128), u64::MAX);
    assert_eq!(routing::clock::saturate(u64::MAX as u128 + 1), u64::MAX);
    let watch = routing::clock::Stopwatch::start();
    let first = watch.elapsed();
    assert!(first < 60_000);
    assert!(watch.elapsed() >= first);
    assert_eq!(routing::clock::age(5, 3), 2);
    assert_eq!(routing::clock::age(3, 5), 0);
}

#[test]
fn ping_schedule() {
    let mut three = Schedule::new(Some(3));
    assert_eq!(three.next(), Some(0));
    assert_eq!(three.next(), Some(1));
    assert_eq!(three.next(), Some(2));
    assert_eq!(three.next(), None);
    assert_eq!(three.next(), None);
    assert_eq!(three.sent, 3);
    assert_eq!(Schedule::new(Some(0)).next(), None);
    // without a number the requests go on, and their numbers wrap at 16 bits
    let mut endless = Schedule { sent: 65_535, number: None };
    assert_eq!(endless.next(), Some(65_535));
    assert_eq!(endless.next(), Some(0));
    assert_eq!(endless.next(), Some(1));
    let mut last = Schedule { sent: usize::MAX, number: None };
    assert_eq!(last.next(), None);
}

#[test]
fn quote_expected_of_a_probe() {
    let source = IpV4Addr::new([192, 168, 0, 31]);
    let target = IpV4Addr::new([192, 168, 1, 40]);
    let quote = expected_quote(source, target, 50000, vec![0x69, 0x69]).unwrap();
    let probe = UdpPacket { source_port: 50000, destination_port: 0, payload: vec![0x69, 0x69] };
    let seen =
        Ipv4Packet::fresh(source, target, Some(0), ProtocolType::new(UDP), probe.to_vec()).to_vec();
    assert_eq!(quote.len(), 28);
    assert_eq!(quote, seen[..28].to_vec());
    assert_eq!(quote[8], 0);
    assert_eq!(&quote[20..24], &[0xc3, 0x50, 0, 0]);
    assert!(expected_quote(source, target, 1, vec![0; 65507]).is_some());
    assert!(expected_quote(source, target, 1, vec![0; 65508]).is_none());
    // an empty probe is quoted whole
    assert_eq!(expected_quote(source, target, 1, vec![]).unwrap().len(), 28);
}
