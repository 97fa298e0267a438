//! The IPv4 network layer: addresses, datagrams and the forwarding decisions.

pub mod addr;
pub mod checksum;
pub mod config;
pub mod packet;
pub mod process;
pub mod protocol;
