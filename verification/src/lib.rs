//! Link-layer packet views and the decision logic of a raw-socket channel.
//!
//! The crate offers bounds-checked views over Ethernet frames and ARP
//! messages, and the pure state machines that drive opening a raw socket and
//! moving one frame through it. Every function carries a contract over the
//! byte sequence it reads or writes.

pub mod arp;
pub mod channel;
pub mod ether;
pub mod frame;
pub mod network_interface;
pub mod request;
pub mod wire;
