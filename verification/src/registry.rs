//! The registry of peers: which endpoint holds which tunnel address, and the
//! pool of addresses that are still free.

use crate::errors::ServerError;
use crate::laws::law_operations_keep_wf;
use crate::net::{endpoint_key, lemma_endpoint_key_injective, Endpoint};
use crate::peer::Peer;
use std::collections::{HashMap, HashSet, VecDeque};
use vstd::prelude::*;
use vstd::std_specs::iter::IteratorSpec;
use vstd::relations::injective_on;
use vstd::set_lib::lemma_map_size;

verus! {

broadcast use vstd::std_specs::hash::group_hash_axioms;

/// The first address of the pool, `10.0.0.2`.
pub const FIRST_ADDRESS: u32 = 0x0A00_0002;

/// The last address of the pool, `10.0.0.10`.
pub const LAST_ADDRESS: u32 = 0x0A00_000A;

/// Whether `a` lies in the range of addresses the server hands out.
pub open spec fn in_pool_range(a: u32) -> bool {
    FIRST_ADDRESS <= a <= LAST_ADDRESS
}

/// The addresses from `start` to `end`, both included, in increasing order
/// (none when `start > end`).
pub open spec fn address_range_seq(start: u32, end: u32) -> Seq<u32> {
    Seq::new(
        if start <= end { (end - start + 1) as nat } else { 0 },
        |i: int| (start + i) as u32,
    )
}

/// The pool of a fresh registry: `10.0.0.2` up to `10.0.0.10`, in order.
pub open spec fn initial_pool() -> Seq<u32> {
    address_range_seq(FIRST_ADDRESS, LAST_ADDRESS)
}

/// The addresses from `start` to `end`, both included, as produced by
/// iterating `ipnet::Ipv4AddrRange::new(start, end)`. The range's iterator
/// yields `start`, `start + 1`, ..., `end`, and nothing when `start > end`.
#[verifier::external_body]
fn address_range(start: u32, end: u32) -> (v: Vec<u32>)
    ensures
        v@ == address_range_seq(start, end),
{
    ipnet::Ipv4AddrRange::new(start.into(), end.into()).map(u32::from).collect()
}

/// What a registry holds, as mathematical values.
pub struct RegistryView {
    /// The registered peers, by endpoint.
    pub peers: Map<Endpoint, Peer>,
    /// Where traffic for a tunnel address goes.
    pub routes: Map<u32, Endpoint>,
    /// The free addresses, the next one to hand out first.
    pub pool: Seq<u32>,
    /// Connections recorded as dead.
    pub dead: Set<Peer>,
}

impl RegistryView {
    /// The state every registry keeps: each address of the range is either
    /// free (in the pool, once) or routed, never both and never outside the
    /// range; each peer is filed under its own endpoint, and its address
    /// routes to it.
    pub open spec fn wf(self) -> bool {
        &&& self.peers.dom().finite()
        &&& self.pool.no_duplicates()
        &&& forall|i: int|
            0 <= i < self.pool.len() ==> #[trigger] in_pool_range(self.pool[i])
                && !self.routes.contains_key(self.pool[i])
        &&& forall|a: u32| #[trigger] self.routes.contains_key(a) ==> in_pool_range(a)
        &&& forall|a: u32|
            #[trigger] in_pool_range(a) ==> self.pool.contains(a) || self.routes.contains_key(a)
        &&& forall|e: Endpoint|
            #[trigger] self.peers.contains_key(e) ==> {
                &&& self.peers[e].endpoint == e
                &&& self.routes.contains_key(self.peers[e].assigned_ip)
                &&& self.routes[self.peers[e].assigned_ip] == e
            }
    }

    /// The peer registered under `e`, if any.
    pub open spec fn peer(self, e: Endpoint) -> Option<Peer> {
        if self.peers.contains_key(e) {
            Some(self.peers[e])
        } else {
            None
        }
    }

    /// The endpoint that the tunnel address `ip` routes to, if any.
    pub open spec fn route(self, ip: u32) -> Option<Endpoint> {
        if self.routes.contains_key(ip) {
            Some(self.routes[ip])
        } else {
            None
        }
    }

    /// Registering `e` with key `k` at time `t`: the first free address is
    /// taken from the pool, the peer is filed under `e` with that address,
    /// and the address routes to `e`. An empty pool refuses the request and
    /// changes nothing.
    pub open spec fn add_peer(self, e: Endpoint, k: x25519_dalek::PublicKey, t: std::time::Instant) -> (
        RegistryView,
        Result<(), ServerError>,
    ) {
        if self.pool.len() == 0 {
            (self, Err(ServerError::NoAddressLeft))
        } else {
            let a = self.pool[0];
            (
                RegistryView {
                    peers: self.peers.insert(
                        e,
                        Peer { endpoint: e, assigned_ip: a, last_seen: t, pub_key: k },
                    ),
                    routes: self.routes.insert(a, e),
                    pool: self.pool.drop_first(),
                    dead: self.dead,
                },
                Ok(()),
            )
        }
    }

    /// Removing the peer at `e`: its address goes back to the front of the
    /// pool and stops routing, and the peer is forgotten. An unknown endpoint
    /// is refused and nothing changes.
    pub open spec fn remove_peer(self, e: Endpoint) -> (RegistryView, Result<(), ServerError>) {
        if !self.peers.contains_key(e) {
            (self, Err(ServerError::NoSuchClient))
        } else {
            let ip = self.peers[e].assigned_ip;
            (
                RegistryView {
                    peers: self.peers.remove(e),
                    routes: self.routes.remove(ip),
                    pool: seq![ip] + self.pool,
                    dead: self.dead,
                },
                Ok(()),
            )
        }
    }

    /// Recording that the peer at `e` was seen at `t`. An unknown endpoint is
    /// refused and nothing changes.
    pub open spec fn update_last_seen(self, e: Endpoint, t: std::time::Instant) -> (
        RegistryView,
        Result<(), ServerError>,
    ) {
        if !self.peers.contains_key(e) {
            (self, Err(ServerError::NoSuchClient))
        } else {
            (
                RegistryView {
                    peers: self.peers.insert(e, Peer { last_seen: t, ..self.peers[e] }),
                    routes: self.routes,
                    pool: self.pool,
                    dead: self.dead,
                },
                Ok(()),
            )
        }
    }
}

/// Whether `s` lists every peer of `v` exactly once, in some order, and
/// nothing else.
pub open spec fn lists_each_peer_once(s: Seq<Peer>, v: RegistryView) -> bool {
    &&& s.no_duplicates()
    &&& forall|i: int| 0 <= i < s.len() ==> #[trigger] v.peer(s[i].endpoint) == Some(s[i])
    &&& forall|e: Endpoint| #[trigger] v.peers.contains_key(e) ==> s.contains(v.peers[e])
    &&& s.len() == v.peers.len()
}

/// Any two endpoints with the same key are equal.
proof fn lemma_keys_identify_endpoints()
    ensures
        forall|a: Endpoint, b: Endpoint|
            #[trigger] endpoint_key(a) == #[trigger] endpoint_key(b) ==> a == b,
{
    assert forall|a: Endpoint, b: Endpoint|
        #[trigger] endpoint_key(a) == #[trigger] endpoint_key(b) implies a == b by {
        lemma_endpoint_key_injective(a, b);
    }
}

/// The server's table of peers, routes and free addresses: `peers` files
/// each peer under the key of its endpoint, `ip_to_sock` routes tunnel
/// addresses to endpoints, and `address_pool` holds the free addresses, the
/// next one to hand out first.
pub struct Registry {
    peers: HashMap<u64, Peer>,
    ip_to_sock: HashMap<u32, Endpoint>,
    dead_connections: HashSet<Peer>,
    address_pool: VecDeque<u32>,
}

impl View for Registry {
    type V = RegistryView;

    closed spec fn view(&self) -> RegistryView {
        RegistryView {
            peers: Map::new(
                |e: Endpoint| self.peers@.contains_key(endpoint_key(e)),
                |e: Endpoint| self.peers@[endpoint_key(e)],
            ),
            routes: self.ip_to_sock@,
            pool: self.address_pool@,
            dead: self.dead_connections@,
        }
    }
}

impl Registry {
    /// Well-formedness: every peer is stored under its endpoint's key, and the
    /// view keeps the registry's state.
    pub closed spec fn wf(&self) -> bool {
        &&& forall|k: u64| #[trigger]
            self.peers@.contains_key(k) ==> endpoint_key(self.peers@[k].endpoint) == k
        &&& self@.wf()
    }

    /// The number of peers stored in the table is the number of endpoints
    /// the view registers.
    proof fn lemma_peer_count(&self)
        requires
            forall|k: u64| #[trigger]
                self.peers@.contains_key(k) ==> endpoint_key(self.peers@[k].endpoint) == k,
        ensures
            self@.peers.dom().finite(),
            self@.peers.len() == self.peers@.len(),
    {
        lemma_keys_identify_endpoints();
        let x = self.peers@.dom();
        let f = |k: u64| self.peers@[k].endpoint;
        assert(injective_on(f, x));
        assert(x.map(f) =~= self@.peers.dom()) by {
            assert forall|e: Endpoint| #[trigger] self@.peers.dom().contains(e) implies x.map(f).contains(e) by {
                assert(x.contains(endpoint_key(e)));
                assert(f(endpoint_key(e)) == e);
            }
        }
        lemma_map_size(x, self@.peers.dom(), f);
    }

    /// A well-formed registry's view keeps the registry's state
    /// ([`RegistryView::wf`]), so every law stated over views applies to it.
    pub proof fn lemma_view(&self)
        requires
            self.wf(),
        ensures
            self@.wf(),
    {
    }

    /// The free addresses, the next one to hand out first.
    pub fn address_pool(&self) -> (r: &VecDeque<u32>)
        ensures
            r@ == self@.pool,
    {
        &self.address_pool
    }

    /// The table of routes from tunnel addresses to endpoints.
    pub fn ip_to_sock(&self) -> (r: &HashMap<u32, Endpoint>)
        ensures
            r@ == self@.routes,
    {
        &self.ip_to_sock
    }

    /// The connections recorded as dead.
    pub fn dead_connections(&self) -> (r: &HashSet<Peer>)
        ensures
            r@ == self@.dead,
    {
        &self.dead_connections
    }

    /// The number of registered peers.
    pub fn peer_count(&self) -> (n: usize)
        requires
            self.wf(),
        ensures
            n == self@.peers.len(),
    {
        proof {
            self.lemma_peer_count();
        }
        self.peers.len()
    }

    /// A registry with no peers, no routes, no dead connections, and the
    /// addresses `10.0.0.2` to `10.0.0.10` free, in that order.
    pub fn new() -> (r: Registry)
        ensures
            r.wf(),
            r@.peers == Map::<Endpoint, Peer>::empty(),
            r@.routes == Map::<u32, Endpoint>::empty(),
            r@.pool == initial_pool(),
            r@.dead == Set::<Peer>::empty(),
    {
        let addresses = address_range(FIRST_ADDRESS, LAST_ADDRESS);
        let mut address_pool: VecDeque<u32> = VecDeque::new();
        let mut i: usize = 0;
        while i < addresses.len()
            invariant
                i <= addresses@.len(),
                addresses@ == initial_pool(),
                address_pool@ == addresses@.take(i as int),
            decreases addresses@.len() - i,
        {
            address_pool.push_back(addresses[i]);
            i = i + 1;
            assert(address_pool@ =~= addresses@.take(i as int));
        }
        assert(address_pool@ =~= initial_pool());
        let r = Registry {
            peers: HashMap::new(),
            ip_to_sock: HashMap::new(),
            dead_connections: HashSet::new(),
            address_pool,
        };
        proof {
            assert(r@.peers =~= Map::<Endpoint, Peer>::empty());
            assert forall|a: u32| #[trigger] in_pool_range(a) implies r@.pool.contains(a) by {
                let i = a - FIRST_ADDRESS;
                assert(r@.pool[i] == a);
            }
        }
        r
    }
}


impl Registry {
    /// Registers `endpoint` with key `pub_key`, as last seen at `now`: the
    /// first free address goes to it (see [`RegistryView::add_peer`]). Fails
    /// with `NoAddressLeft`, changing nothing, when the pool is empty.
    pub fn add_peer_at(
        &mut self,
        endpoint: Endpoint,
        pub_key: x25519_dalek::PublicKey,
        now: std::time::Instant,
    ) -> (r: Result<(), ServerError>)
        requires
            old(self).wf(),
        ensures
            final(self).wf(),
            (final(self)@, r) == old(self)@.add_peer(endpoint, pub_key, now),
    {
        proof {
            lemma_keys_identify_endpoints();
        }
        let ghost old_view = self@;
        match self.address_pool.pop_front() {
            Some(address) => {
                let peer = Peer { endpoint, assigned_ip: address, last_seen: now, pub_key };
                self.peers.insert(endpoint.key(), peer);
                self.ip_to_sock.insert(address, endpoint);
                proof {
                    let (new_view, _) = old_view.add_peer(endpoint, pub_key, now);
                    assert(self@.peers =~= new_view.peers);
                    assert(self@.routes =~= new_view.routes);
                    assert(self@.pool =~= new_view.pool);
                    law_operations_keep_wf(old_view, endpoint, pub_key, now);
                }
                Ok(())
            },
            None => Err(ServerError::NoAddressLeft),
        }
    }

    /// Registers `endpoint` with key `pub_key`, as last seen now: the first
    /// free address goes to it. Fails with `NoAddressLeft`, changing nothing,
    /// when the pool is empty. The time recorded is whatever the clock read.
    pub fn add_peer(&mut self, endpoint: Endpoint, pub_key: x25519_dalek::PublicKey) -> (r: Result<
        (),
        ServerError,
    >)
        requires
            old(self).wf(),
        ensures
            final(self).wf(),
            exists|t: std::time::Instant|
                (#[trigger] old(self)@.add_peer(endpoint, pub_key, t)) == (final(self)@, r),
    {
        let t = crate::peer::now();
        let r = self.add_peer_at(endpoint, pub_key, t);
        assert(old(self)@.add_peer(endpoint, pub_key, t) == (self@, r));
        r
    }

    /// The peer registered under `peer`, if any.
    pub fn get_peer(&self, peer: &Endpoint) -> (r: Option<Peer>)
        ensures
            r == self@.peer(*peer),
    {
        match self.peers.get(&peer.key()) {
            Some(p) => Some(*p),
            None => None,
        }
    }

    /// The endpoint that traffic for the tunnel address `ip` goes to, if any.
    pub fn get_route(&self, ip: &u32) -> (r: Option<Endpoint>)
        ensures
            r == self@.route(*ip),
    {
        match self.ip_to_sock.get(ip) {
            Some(e) => Some(*e),
            None => None,
        }
    }

    /// Removes the peer at `endpoint`: its address returns to the front of
    /// the pool and stops routing (see [`RegistryView::remove_peer`]). Fails
    /// with `NoSuchClient`, changing nothing, for an unknown endpoint.
    pub fn remove_peer(&mut self, endpoint: Endpoint) -> (r: Result<(), ServerError>)
        requires
            old(self).wf(),
        ensures
            final(self).wf(),
            (final(self)@, r) == old(self)@.remove_peer(endpoint),
    {
        proof {
            lemma_keys_identify_endpoints();
        }
        let ghost old_view = self@;
        let key = endpoint.key();
        let ip = match self.peers.get(&key) {
            Some(peer) => peer.assigned_ip,
            None => {
                return Err(ServerError::NoSuchClient);
            },
        };
        assert(old_view.peers.contains_key(endpoint));
        self.address_pool.push_front(ip);
        self.ip_to_sock.remove(&ip);
        self.peers.remove(&key);
        proof {
            let (new_view, _) = old_view.remove_peer(endpoint);
            assert(self@.peers =~= new_view.peers);
            assert(self@.routes =~= new_view.routes);
            assert(self@.pool =~= new_view.pool);
            law_operations_keep_wf(old_view, endpoint, vstd::pervasive::arbitrary(), vstd::pervasive::arbitrary());
        }
        Ok(())
    }

    /// Records that the peer at `peer` was seen at `instant`; only that
    /// peer's time changes. Fails with `NoSuchClient`, changing nothing, for
    /// an unknown endpoint.
    pub fn update_last_seen(&mut self, peer: Endpoint, instant: std::time::Instant) -> (r: Result<
        (),
        ServerError,
    >)
        requires
            old(self).wf(),
        ensures
            final(self).wf(),
            (final(self)@, r) == old(self)@.update_last_seen(peer, instant),
    {
        proof {
            lemma_keys_identify_endpoints();
        }
        let ghost old_view = self@;
        let key = peer.key();
        let mut p = match self.peers.get(&key) {
            Some(p) => *p,
            None => {
                return Err(ServerError::NoSuchClient);
            },
        };
        p.update_last_seen(instant);
        self.peers.insert(key, p);
        proof {
            let (new_view, _) = old_view.update_last_seen(peer, instant);
            assert(self@.peers =~= new_view.peers);
        }
        Ok(())
    }

    /// Every registered peer, each exactly once, in no particular order.
    pub fn get_all_peers(&self) -> (r: Vec<Peer>)
        requires
            self.wf(),
        ensures
            lists_each_peer_once(r@, self@),
    {
        proof {
            lemma_keys_identify_endpoints();
        }
        let mut all: Vec<Peer> = Vec::new();
        let ghost keys = self.peers.keys().remaining().unref();
        for k in it: self.peers.keys()
            invariant
                keys == it.seq().unref(),
                keys.no_duplicates(),
                keys.to_set() == self.peers@.dom(),
                self.wf(),
                all@.len() == it.index(),
                forall|i: int| 0 <= i < it.index() ==> #[trigger] all@[i] == self.peers@[keys[i]],
        {
            match self.peers.get(k) {
                Some(p) => all.push(*p),
                None => {},
            }
        }
        proof {
            assert(all@.len() == keys.len());
            keys.unique_seq_to_set();
            self.lemma_peer_count();
            assert forall|i: int| 0 <= i < all@.len() implies #[trigger] self@.peer(all@[i].endpoint)
                == Some(all@[i]) by {
                assert(keys.to_set().contains(keys[i]));
                assert(endpoint_key(all@[i].endpoint) == keys[i]);
            }
            assert forall|i: int, j: int|
                0 <= i < all@.len() && 0 <= j < all@.len() && i != j implies all@[i] != all@[j] by {
                assert(keys.to_set().contains(keys[i]));
                assert(keys.to_set().contains(keys[j]));
                assert(endpoint_key(all@[i].endpoint) == keys[i]);
                assert(endpoint_key(all@[j].endpoint) == keys[j]);
            }
            assert forall|e: Endpoint| #[trigger] self@.peers.contains_key(e) implies all@.contains(
                self@.peers[e],
            ) by {
                let k = endpoint_key(e);
                assert(keys.to_set().contains(k));
                let i = choose|i: int| 0 <= i < keys.len() && keys[i] == k;
                assert(all@[i] == self@.peers[e]);
            }
        }
        all
    }
}

impl Default for Registry {
    /// The same registry as [`Registry::new`].
    fn default() -> (r: Self)
        ensures
            r.wf(),
            r@.peers == Map::<Endpoint, Peer>::empty(),
            r@.routes == Map::<u32, Endpoint>::empty(),
            r@.pool == initial_pool(),
            r@.dead == Set::<Peer>::empty(),
    {
        Self::new()
    }
}

} // verus!
