//! What a node shows of itself: its ports and their state.

pub mod ports;
