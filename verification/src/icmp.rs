//! ICMP: echo and time-exceeded messages, and the process that answers and
//! matches them.

pub mod packet;
pub mod process;
