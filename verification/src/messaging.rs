//! Messages exchanged between nodes over the network.
pub mod net;
