//! IPv4 socket addresses as plain values.

use vstd::prelude::*;

verus! {

/// An IPv4 socket address: the address as a big-endian `u32`
/// (`10.0.0.2` is `0x0A00_0002`) and a port. The server listens on an IPv4
/// socket, so every peer it hears from has such an address.
#[derive(Clone, Copy, Debug, PartialEq, Eq, Structural)]
pub struct Endpoint {
    pub ip: u32,
    pub port: u16,
}

/// The number that identifies an endpoint in a table: the address in the
/// high bits and the port in the low sixteen.
pub open spec fn endpoint_key(e: Endpoint) -> u64 {
    (e.ip as u64 * 0x1_0000 + e.port as u64) as u64
}

/// Two endpoints with the same key are the same endpoint.
pub proof fn lemma_endpoint_key_injective(a: Endpoint, b: Endpoint)
    ensures
        endpoint_key(a) == endpoint_key(b) ==> a == b,
{
    let ka = a.ip as int * 0x1_0000 + a.port as int;
    let kb = b.ip as int * 0x1_0000 + b.port as int;
    assert(ka < 0x1_0000_0000_0000) by (nonlinear_arith)
        requires
            a.ip < 0x1_0000_0000,
            a.port < 0x1_0000,
            ka == a.ip as int * 0x1_0000 + a.port as int,
    ;
    assert(kb < 0x1_0000_0000_0000) by (nonlinear_arith)
        requires
            b.ip < 0x1_0000_0000,
            b.port < 0x1_0000,
            kb == b.ip as int * 0x1_0000 + b.port as int,
    ;
    if endpoint_key(a) == endpoint_key(b) {
        assert(ka == kb);
        assert(a.ip == b.ip && a.port == b.port) by (nonlinear_arith)
            requires
                ka == kb,
                ka == a.ip as int * 0x1_0000 + a.port as int,
                kb == b.ip as int * 0x1_0000 + b.port as int,
                0 <= a.port < 0x1_0000,
                0 <= b.port < 0x1_0000,
                0 <= a.ip,
                0 <= b.ip,
        ;
    }
}

impl Endpoint {
    /// Builds the endpoint `a.b.c.d:port`.
    pub fn new(a: u8, b: u8, c: u8, d: u8, port: u16) -> (e: Endpoint)
        ensures
            e.ip == ipv4(a, b, c, d),
            e.port == port,
    {
        Endpoint { ip: ipv4_exec(a, b, c, d), port }
    }

    /// The key of this endpoint in a table.
    pub fn key(&self) -> (k: u64)
        ensures
            k == endpoint_key(*self),
    {
        assert(self.ip as int * 0x1_0000 + (self.port as int) < 0x1_0000_0000_0000) by (nonlinear_arith)
            requires
                self.ip < 0x1_0000_0000,
                self.port < 0x1_0000,
        ;
        self.ip as u64 * 0x1_0000 + self.port as u64
    }
}

/// The address `a.b.c.d` as a big-endian `u32`.
pub open spec fn ipv4(a: u8, b: u8, c: u8, d: u8) -> u32 {
    (a as int * 0x100_0000 + b as int * 0x1_0000 + c as int * 0x100 + d as int) as u32
}

/// Computes the address `a.b.c.d` as a big-endian `u32`.
fn ipv4_exec(a: u8, b: u8, c: u8, d: u8) -> (ip: u32)
    ensures
        ip == ipv4(a, b, c, d),
        ip as int == a as int * 0x100_0000 + b as int * 0x1_0000 + c as int * 0x100 + d as int,
{
    assert(a as int * 0x100_0000 + b as int * 0x1_0000 + c as int * 0x100 + (d as int)
        < 0x1_0000_0000) by (nonlinear_arith)
        requires
            a < 0x100,
            b < 0x100,
            c < 0x100,
            d < 0x100,
    ;
    a as u32 * 0x100_0000 + b as u32 * 0x1_0000 + c as u32 * 0x100 + d as u32
}

} // verus!
