//! The Ethernet link layer: frames, 802.1Q tags and EtherType values.

pub mod dot1q;
pub mod ethertype;
pub mod lldp;
pub mod nic;
pub mod packet;
