//! ARP: packets, the timed cache and the resolver's decisions.

pub mod cache;
pub mod packet;
pub mod process;
