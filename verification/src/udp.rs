//! UDP: datagrams and the table of bound sockets.

pub mod packet;
pub mod process;
