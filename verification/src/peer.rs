//! A peer of the server: who it is, which tunnel address it holds, its key
//! and when it was last heard from.

use crate::net::Endpoint;
use vstd::prelude::*;

verus! {

/// A point in time of the monotonic clock (`std::time::Instant`), carried
/// as an opaque value.
#[verifier::external_type_specification]
#[verifier::external_body]
pub struct ExInstant(std::time::Instant);

/// An x25519 public key (`x25519_dalek::PublicKey`), carried as an opaque value.
#[verifier::external_type_specification]
#[verifier::external_body]
pub struct ExPublicKey(x25519_dalek::PublicKey);

/// Reads the monotonic clock: `std::time::Instant::now`. Nothing is promised
/// of the instant that comes back.
#[verifier::external_body]
pub(crate) fn now() -> (t: std::time::Instant) {
    std::time::Instant::now()
}

/// A peer known to the server.
#[derive(Clone, Copy, Debug, PartialEq, Eq)]
pub struct Peer {
    pub endpoint: Endpoint,
    pub assigned_ip: u32,
    pub last_seen: std::time::Instant,
    pub pub_key: x25519_dalek::PublicKey,
}

impl Peer {
    /// Records that the peer was heard from at `instant`; nothing else changes.
    pub fn update_last_seen(&mut self, instant: std::time::Instant)
        ensures
            *final(self) == (Peer { last_seen: instant, ..*old(self) }),
    {
        self.last_seen = instant;
    }
}

} // verus!
