//! The messages that peers, the tunnel and the socket exchange.

use crate::net::Endpoint;
use vstd::prelude::*;

verus! {

/// The Noise handshake pattern the protocol is built on.
pub const NOISE_PATTERN: &'static str = "Noise_IK_22519_ChaChaPoly_BLAKE2s";

/// Where a peer's session stands.
#[derive(Clone, Copy, Debug, PartialEq, Eq, Structural)]
pub enum PeerState {
    Handshaking,
    Connected,
    Closed,
}

/// The two halves of a keep-alive exchange.
#[derive(Clone, Copy, Debug, PartialEq, Eq, Structural)]
pub enum KeepAliveType {
    Request,
    Reply,
}

/// The first message of a client: its public key.
#[derive(Debug)]
pub struct ClientHelloMessage {
    pub client_pub: x25519_dalek::PublicKey,
}

/// The server's answer to a hello: the tunnel address given to the client
/// (a big-endian `u32`) and the server's public key.
#[derive(Debug)]
pub struct ServerHelloMessage {
    pub assigned_ip: u32,
    pub server_pub: x25519_dalek::PublicKey,
}

/// A keep-alive request or reply.
#[derive(Debug)]
pub struct KeepAliveMessage {
    pub msg_type: KeepAliveType,
}

/// Work for the tunnel device.
#[derive(Debug)]
pub enum TunMessages {
    WritePacket(Vec<u8>),
}

/// Work for the UDP socket.
#[derive(Debug)]
pub enum SocketMessages {
    WritePacket(Endpoint, Vec<u8>),
    WritePacketToServer(Vec<u8>),
}

} // verus!
