//! A simulated TCP/IP stack: the wire codecs and the per-layer decision logic
//! of a chassis, from the Ethernet link up to ICMP and UDP.
//!
//! Every process of a chassis is a function from its state and what reached
//! it to its next state and what it does about it. Whoever runs the
//! processes owns the channels between them and performs what they decide.

pub mod arguments;
pub mod arp;
pub mod bytes;
pub mod chassis;
pub mod clock;
pub mod ctrlc;
pub mod ethernet;
pub mod icmp;
pub mod ip;
pub mod ipv4;
pub mod mac;
pub mod node;
pub mod ping;
pub mod process;
pub mod route;
pub mod search;
pub mod switch;
pub mod table;
pub mod text;
pub mod traceroute;
pub mod udp;
