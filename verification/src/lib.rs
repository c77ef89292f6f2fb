//! A small IPv4 VPN server core: the address registry that hands out tunnel
//! addresses to peers, the decisions of the peer manager, the wire messages
//! and the tunnel-device and packet helpers.

pub mod net;
pub mod peer;
pub mod errors;
pub mod registry;
pub mod laws;
pub mod manager;
pub mod messages;
pub mod device;
pub mod packet;
pub mod supervisor;
