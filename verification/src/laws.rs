//! The laws of the registry: what holds of every well-formed registry and
//! what one operation undoes or hands on to the next.

use crate::errors::ServerError;
use crate::net::Endpoint;
use crate::peer::Peer;
use crate::manager::{is_manager_action, manager_effect, manager_run, ManagerAction, ManagerMessages};
use crate::registry::{in_pool_range, initial_pool, lists_each_peer_once, RegistryView};
use tokio::sync::oneshot::Sender;
use vstd::prelude::*;
use vstd::relations::injective_on;
use vstd::set_lib::{lemma_len_subset, lemma_map_size, lemma_set_disjoint_lens};

verus! {

/// Every address of the server's range is in exactly one place: free in the
/// pool or routed to an endpoint. No address outside the range is ever free
/// or routed.
pub proof fn law_address_conservation(v: RegistryView, a: u32)
    requires
        v.wf(),
    ensures
        in_pool_range(a) ==> (v.pool.contains(a) <==> !v.routes.contains_key(a)),
        !in_pool_range(a) ==> !v.pool.contains(a) && !v.routes.contains_key(a),
{
    if v.pool.contains(a) {
        let i = choose|i: int| 0 <= i < v.pool.len() && v.pool[i] == a;
        assert(in_pool_range(v.pool[i]));
    }
    if in_pool_range(a) {
        assert(v.pool.contains(a) || v.routes.contains_key(a));
    }
}

/// The free addresses and the routed addresses always add up to the nine
/// addresses of the range: a registry serves at most nine peers at once, and
/// registering succeeds exactly while fewer than nine addresses are routed.
pub proof fn law_capacity(v: RegistryView)
    requires
        v.wf(),
    ensures
        v.routes.dom().finite(),
        v.pool.len() + v.routes.dom().len() == initial_pool().len(),
        initial_pool().len() == 9,
        v.pool.len() > 0 <==> v.routes.dom().len() < 9,
{
    let range = initial_pool().to_set();
    assert(initial_pool().no_duplicates());
    initial_pool().unique_seq_to_set();
    assert forall|a: u32| range.contains(a) <==> in_pool_range(a) by {
        if in_pool_range(a) {
            assert(initial_pool()[a - 0x0A00_0002] == a);
        }
        if range.contains(a) {
            let i = choose|i: int| 0 <= i < initial_pool().len() && initial_pool()[i] == a;
        }
    }
    let free = v.pool.to_set();
    v.pool.unique_seq_to_set();
    let routed = v.routes.dom();
    assert forall|a: u32| free.contains(a) implies range.contains(a) by {
        law_address_conservation(v, a);
    }
    assert forall|a: u32| routed.contains(a) implies range.contains(a) by {
        law_address_conservation(v, a);
    }
    lemma_len_subset(routed, range);
    assert(free.disjoint(routed)) by {
        assert forall|a: u32| !(free.contains(a) && routed.contains(a)) by {
            law_address_conservation(v, a);
        }
    }
    assert(free + routed =~= range) by {
        assert forall|a: u32| (free + routed).contains(a) <==> range.contains(a) by {
            law_address_conservation(v, a);
        }
    }
    lemma_set_disjoint_lens(free, routed);
}

/// A registered peer's address routes back to it.
pub proof fn law_registered_peer_is_routed(v: RegistryView, e: Endpoint)
    requires
        v.wf(),
        v.peers.contains_key(e),
    ensures
        v.route(v.peers[e].assigned_ip) == Some(e),
        v.peer(e) == Some(v.peers[e]),
        v.peers[e].endpoint == e,
{
}

/// Two different registered peers never hold the same address.
pub proof fn law_addresses_are_distinct(v: RegistryView, e1: Endpoint, e2: Endpoint)
    requires
        v.wf(),
        v.peers.contains_key(e1),
        v.peers.contains_key(e2),
        e1 != e2,
    ensures
        v.peers[e1].assigned_ip != v.peers[e2].assigned_ip,
{
}

/// Registering hands out the first free address: afterwards the endpoint is
/// found with that address, key and time, and the address routes to it.
pub proof fn law_add_then_lookup(
    v: RegistryView,
    e: Endpoint,
    k: x25519_dalek::PublicKey,
    t: std::time::Instant,
)
    requires
        v.wf(),
        v.pool.len() > 0,
    ensures
        ({
            let (after, r) = v.add_peer(e, k, t);
            &&& r == Ok::<(), ServerError>(())
            &&& after.peer(e) == Some(
                Peer { endpoint: e, assigned_ip: v.pool[0], last_seen: t, pub_key: k },
            )
            &&& after.route(v.pool[0]) == Some(e)
            &&& after.pool == v.pool.drop_first()
        }),
{
}

/// Registering a new endpoint and then removing it gives back the registry
/// as it was: the same peers, routes and free addresses in the same order.
pub proof fn law_add_then_remove_restores(
    v: RegistryView,
    e: Endpoint,
    k: x25519_dalek::PublicKey,
    t: std::time::Instant,
)
    requires
        v.wf(),
        v.pool.len() > 0,
        !v.peers.contains_key(e),
    ensures
        v.add_peer(e, k, t).1 == Ok::<(), ServerError>(()),
        v.add_peer(e, k, t).0.remove_peer(e) == (v, Ok::<(), ServerError>(())),
{
    let a = v.pool[0];
    let after = v.add_peer(e, k, t).0;
    let (back, r) = after.remove_peer(e);
    assert(after.peers[e].assigned_ip == a);
    assert(!v.routes.contains_key(a));
    assert(back.peers =~= v.peers);
    assert(back.routes =~= v.routes);
    assert(back.pool =~= v.pool);
}

/// The address freed by a removal is the first one handed out again: after
/// removing the peer at `e`, registering any endpoint `e2` succeeds and gives
/// it the address `e` held, which then routes to `e2`.
pub proof fn law_remove_then_add_reuses_address(
    v: RegistryView,
    e: Endpoint,
    e2: Endpoint,
    k: x25519_dalek::PublicKey,
    t: std::time::Instant,
)
    requires
        v.wf(),
        v.peers.contains_key(e),
    ensures
        ({
            let freed = v.peers[e].assigned_ip;
            let (after, r) = v.remove_peer(e).0.add_peer(e2, k, t);
            &&& r == Ok::<(), ServerError>(())
            &&& after.peer(e2) == Some(
                Peer { endpoint: e2, assigned_ip: freed, last_seen: t, pub_key: k },
            )
            &&& after.route(freed) == Some(e2)
            &&& after.pool == v.pool
        }),
{
    let removed = v.remove_peer(e).0;
    assert(removed.pool.drop_first() =~= v.pool);
}

/// Refused requests change nothing: registering with an empty pool,
/// removing or touching an unknown endpoint leave the registry as it was.
pub proof fn law_refusals_change_nothing(
    v: RegistryView,
    e: Endpoint,
    k: x25519_dalek::PublicKey,
    t: std::time::Instant,
)
    ensures
        v.pool.len() == 0 ==> v.add_peer(e, k, t) == (v, Err::<(), ServerError>(
            ServerError::NoAddressLeft,
        )),
        !v.peers.contains_key(e) ==> v.remove_peer(e) == (v, Err::<(), ServerError>(
            ServerError::NoSuchClient,
        )),
        !v.peers.contains_key(e) ==> v.update_last_seen(e, t) == (v, Err::<(), ServerError>(
            ServerError::NoSuchClient,
        )),
{
}

/// Touching a peer only moves its time: its address, key and endpoint stay,
/// and no other peer, route or free address changes.
pub proof fn law_update_touches_only_the_time(
    v: RegistryView,
    e: Endpoint,
    t: std::time::Instant,
    other: Endpoint,
)
    requires
        v.peers.contains_key(e),
    ensures
        ({
            let (after, r) = v.update_last_seen(e, t);
            &&& r == Ok::<(), ServerError>(())
            &&& after.peer(e) == Some(Peer { last_seen: t, ..v.peers[e] })
            &&& other != e ==> after.peer(other) == v.peer(other)
            &&& after.routes == v.routes
            &&& after.pool == v.pool
        }),
{
}


/// Registering keeps the registry's state (see [`RegistryView::wf`]).
proof fn lemma_add_keeps_wf(
    v: RegistryView,
    e: Endpoint,
    k: x25519_dalek::PublicKey,
    t: std::time::Instant,
)
    requires
        v.wf(),
    ensures
        v.add_peer(e, k, t).0.wf(),
{
    if v.pool.len() > 0 {
        let a = v.pool[0];
        let w = v.add_peer(e, k, t).0;
        assert(v.pool.contains(a));
        assert forall|x: u32| #[trigger] in_pool_range(x) implies w.pool.contains(x)
            || w.routes.contains_key(x) by {
            if x != a && v.pool.contains(x) {
                let j = choose|j: int| 0 <= j < v.pool.len() && v.pool[j] == x;
                assert(j != 0);
                assert(w.pool[j - 1] == x);
            }
        }
        assert forall|i: int| 0 <= i < w.pool.len() implies #[trigger] in_pool_range(w.pool[i])
            && !w.routes.contains_key(w.pool[i]) by {
            assert(w.pool[i] == v.pool[i + 1]);
            assert(v.pool[i + 1] != v.pool[0]);
        }
        assert forall|x: Endpoint| #[trigger] w.peers.contains_key(x) implies {
            &&& w.peers[x].endpoint == x
            &&& w.routes.contains_key(w.peers[x].assigned_ip)
            &&& w.routes[w.peers[x].assigned_ip] == x
        } by {
            if x != e {
                assert(v.routes.contains_key(v.peers[x].assigned_ip));
                assert(v.peers[x].assigned_ip != a);
            }
        }
    }
}

/// Removing keeps the registry's state (see [`RegistryView::wf`]).
proof fn lemma_remove_keeps_wf(v: RegistryView, e: Endpoint)
    requires
        v.wf(),
    ensures
        v.remove_peer(e).0.wf(),
{
    if v.peers.contains_key(e) {
        let ip = v.peers[e].assigned_ip;
        let w = v.remove_peer(e).0;
        assert(!v.pool.contains(ip));
        assert forall|i: int| 0 <= i < w.pool.len() implies #[trigger] in_pool_range(w.pool[i])
            && !w.routes.contains_key(w.pool[i]) by {
            if i > 0 {
                assert(w.pool[i] == v.pool[i - 1]);
            }
        }
        assert forall|a: u32| #[trigger] in_pool_range(a) implies w.pool.contains(a)
            || w.routes.contains_key(a) by {
            if a == ip {
                assert(w.pool[0] == ip);
            } else if v.pool.contains(a) {
                let j = choose|j: int| 0 <= j < v.pool.len() && v.pool[j] == a;
                assert(w.pool[j + 1] == a);
            }
        }
        assert(w.pool.no_duplicates()) by {
            assert forall|i: int, j: int|
                0 <= i < w.pool.len() && 0 <= j < w.pool.len() && i != j implies w.pool[i]
                != w.pool[j] by {
                if i > 0 && j > 0 {
                    assert(w.pool[i] == v.pool[i - 1]);
                    assert(w.pool[j] == v.pool[j - 1]);
                } else if i == 0 {
                    assert(w.pool[j] == v.pool[j - 1]);
                } else {
                    assert(w.pool[i] == v.pool[i - 1]);
                }
            }
        }
        assert forall|x: Endpoint| #[trigger] w.peers.contains_key(x) implies {
            &&& w.peers[x].endpoint == x
            &&& w.routes.contains_key(w.peers[x].assigned_ip)
            &&& w.routes[w.peers[x].assigned_ip] == x
        } by {
            assert(v.peers.contains_key(x));
            assert(v.routes[v.peers[x].assigned_ip] == x);
        }
    }
}

/// Every operation keeps the registry's state (see [`RegistryView::wf`]):
/// registering, removing and touching a peer, whether it succeeds or is
/// refused.
pub proof fn law_operations_keep_wf(
    v: RegistryView,
    e: Endpoint,
    k: x25519_dalek::PublicKey,
    t: std::time::Instant,
)
    requires
        v.wf(),
    ensures
        v.add_peer(e, k, t).0.wf(),
        v.remove_peer(e).0.wf(),
        v.update_last_seen(e, t).0.wf(),
{
    lemma_add_keeps_wf(v, e, k, t);
    lemma_remove_keeps_wf(v, e);
}

/// Registering a new endpoint moves one address from the pool to a peer:
/// the number of peers plus the number of free addresses stays the same,
/// whether the request succeeds or is refused.
pub proof fn law_add_balances(
    v: RegistryView,
    e: Endpoint,
    k: x25519_dalek::PublicKey,
    t: std::time::Instant,
)
    requires
        v.wf(),
        !v.peers.contains_key(e),
    ensures
        ({
            let after = v.add_peer(e, k, t).0;
            &&& after.wf()
            &&& after.peers.len() + after.pool.len() == v.peers.len() + v.pool.len()
        }),
{
    lemma_add_keeps_wf(v, e, k, t);
}

/// Removing a peer moves its address back to the pool: the number of peers
/// plus the number of free addresses stays the same, whether the request
/// succeeds or is refused.
pub proof fn law_remove_balances(v: RegistryView, e: Endpoint)
    requires
        v.wf(),
    ensures
        ({
            let after = v.remove_peer(e).0;
            &&& after.wf()
            &&& after.peers.len() + after.pool.len() == v.peers.len() + v.pool.len()
        }),
{
    lemma_remove_keeps_wf(v, e);
}

/// A list of every peer (as [`crate::registry::Registry::get_all_peers`]
/// answers) holds at most nine peers, no endpoint and no address twice,
/// and each listed address lies in the range and routes back to its peer.
pub proof fn law_listing(v: RegistryView, s: Seq<Peer>)
    requires
        v.wf(),
        lists_each_peer_once(s, v),
    ensures
        s.len() <= 9,
        forall|i: int, j: int|
            0 <= i < s.len() && 0 <= j < s.len() && i != j ==> s[i].endpoint != s[j].endpoint
                && s[i].assigned_ip != s[j].assigned_ip,
        forall|i: int|
            0 <= i < s.len() ==> in_pool_range(#[trigger] s[i].assigned_ip) && v.route(
                s[i].assigned_ip,
            ) == Some(s[i].endpoint),
{
    assert forall|i: int, j: int|
        0 <= i < s.len() && 0 <= j < s.len() && i != j implies s[i].endpoint != s[j].endpoint
        && s[i].assigned_ip != s[j].assigned_ip by {
        assert(v.peer(s[i].endpoint) == Some(s[i]));
        assert(v.peer(s[j].endpoint) == Some(s[j]));
        if s[i].endpoint != s[j].endpoint {
            law_addresses_are_distinct(v, s[i].endpoint, s[j].endpoint);
        }
    }
    assert forall|i: int| 0 <= i < s.len() implies in_pool_range(#[trigger] s[i].assigned_ip)
        && v.route(s[i].assigned_ip) == Some(s[i].endpoint) by {
        assert(v.peer(s[i].endpoint) == Some(s[i]));
        law_address_conservation(v, s[i].assigned_ip);
    }
    let x = v.peers.dom();
    let f = |e: Endpoint| v.peers[e].assigned_ip;
    assert(injective_on(f, x)) by {
        assert forall|a: Endpoint, b: Endpoint|
            x.contains(a) && x.contains(b) && #[trigger] f(a) == #[trigger] f(b) implies a == b by {
            if a != b {
                law_addresses_are_distinct(v, a, b);
            }
        }
    }
    let y = x.map(f);
    lemma_map_size(x, y, f);
    assert(y.subset_of(v.routes.dom()));
    law_capacity(v);
    lemma_len_subset(y, v.routes.dom());
}

/// The manager keeps the registry's state over any sequence of requests.
pub proof fn law_manager_run_keeps_wf(
    v: RegistryView,
    steps: Seq<(ManagerMessages, std::time::Instant)>,
)
    requires
        v.wf(),
    ensures
        manager_run(v, steps).wf(),
    decreases steps.len(),
{
    if steps.len() > 0 {
        let before = manager_run(v, steps.drop_last());
        law_manager_run_keeps_wf(v, steps.drop_last());
        match steps.last().0 {
            ManagerMessages::AddPeer(e, k, _) => law_operations_keep_wf(before, e, k, steps.last().1),
            ManagerMessages::UpdateLastSeen(e) => law_operations_keep_wf(
                before,
                e,
                vstd::pervasive::arbitrary::<x25519_dalek::PublicKey>(),
                steps.last().1,
            ),
            ManagerMessages::RemovePeer(e) => law_operations_keep_wf(
                before,
                e,
                vstd::pervasive::arbitrary::<x25519_dalek::PublicKey>(),
                steps.last().1,
            ),
            _ => {},
        }
    }
}

/// However many requests came before, the answer the manager sends to a
/// request for every peer lists at most nine peers, no endpoint or address
/// twice, and only addresses of the range that route back to their peers.
pub proof fn law_manager_listing(
    v: RegistryView,
    steps: Seq<(ManagerMessages, std::time::Instant)>,
    msg: ManagerMessages,
    now: std::time::Instant,
    action: ManagerAction,
)
    requires
        v.wf(),
        msg is GetAllPeers,
        is_manager_action(manager_run(v, steps), msg, now, action),
    ensures
        action matches ManagerAction::AnswerAllPeers(_, all) && {
            let s = all@;
            let current = manager_run(v, steps);
            &&& s.len() <= 9
            &&& forall|i: int, j: int|
                0 <= i < s.len() && 0 <= j < s.len() && i != j ==> s[i].endpoint
                    != s[j].endpoint && s[i].assigned_ip != s[j].assigned_ip
            &&& forall|i: int|
                0 <= i < s.len() ==> in_pool_range(#[trigger] s[i].assigned_ip) && current.route(
                    s[i].assigned_ip,
                ) == Some(s[i].endpoint)
        },
{
    law_manager_run_keeps_wf(v, steps);
    match action {
        ManagerAction::AnswerAllPeers(_, all) => law_listing(manager_run(v, steps), all@),
        _ => {},
    }
}
/// Handling one more request after a run is the run extended by that
/// request: a manager that applies [`crate::registry::Registry::handle_message`]
/// to each request in turn, starting from `v`, holds `manager_run` of the
/// requests so far, and each answer is decided on that registry.
pub proof fn law_manager_run_step(
    v: RegistryView,
    steps: Seq<(ManagerMessages, std::time::Instant)>,
    msg: ManagerMessages,
    now: std::time::Instant,
)
    ensures
        manager_run(v, steps.push((msg, now))) == manager_effect(manager_run(v, steps), msg, now),
        manager_run(v, Seq::<(ManagerMessages, std::time::Instant)>::empty()) == v,
{
    assert(steps.push((msg, now)).drop_last() =~= steps);
}

/// Looking up a peer, a route or every peer changes nothing in the
/// registry.
pub proof fn law_queries_change_nothing(
    v: RegistryView,
    msg: ManagerMessages,
    now: std::time::Instant,
)
    requires
        msg is GetPeer || msg is ResolveRoute || msg is GetAllPeers,
    ensures
        manager_effect(v, msg, now) == v,
{
}

/// Registering `e` leaves every other endpoint's entry as it was, whether
/// or not `e` was registered before and whether or not the request
/// succeeds; and every address but the one handed out keeps its route.
pub proof fn law_add_keeps_others(
    v: RegistryView,
    e: Endpoint,
    k: x25519_dalek::PublicKey,
    t: std::time::Instant,
    x: Endpoint,
    ip: u32,
)
    ensures
        x != e ==> v.add_peer(e, k, t).0.peer(x) == v.peer(x),
        (v.pool.len() == 0 || ip != v.pool[0]) ==> v.add_peer(e, k, t).0.route(ip) == v.route(ip),
        v.add_peer(e, k, t).0.dead == v.dead,
{
}

/// Removing `e` leaves every other endpoint's entry as it was, and every
/// address but the one `e` held keeps its route.
pub proof fn law_remove_keeps_others(v: RegistryView, e: Endpoint, x: Endpoint, ip: u32)
    ensures
        x != e ==> v.remove_peer(e).0.peer(x) == v.peer(x),
        !(v.peers.contains_key(e) && ip == v.peers[e].assigned_ip) ==> v.remove_peer(e).0.route(ip)
            == v.route(ip),
        v.remove_peer(e).0.dead == v.dead,
{
}

/// A removed endpoint is no longer found, and the address it held no longer
/// routes anywhere.
pub proof fn law_remove_forgets(v: RegistryView, e: Endpoint)
    requires
        v.wf(),
    ensures
        v.remove_peer(e).0.peer(e) is None,
        v.peers.contains_key(e) ==> (v.remove_peer(e).0.route(v.peers[e].assigned_ip) is None),
{
}

/// The manager answers a peer lookup from the registry as it stands: with
/// the entry filed under that endpoint, through the lookup's own channel,
/// and with nothing when the endpoint is unknown.
pub proof fn law_manager_peer_lookup(
    v: RegistryView,
    e: Endpoint,
    tx: Sender<Option<Peer>>,
    now: std::time::Instant,
    action: ManagerAction,
)
    requires
        v.wf(),
        is_manager_action(v, ManagerMessages::GetPeer(e, tx), now, action),
    ensures
        action matches ManagerAction::AnswerLookup(to, found) && to == tx && match found {
            Some(p) => v.peers.contains_key(e) && v.peers[e] == p && p.endpoint == e,
            None => !v.peers.contains_key(e),
        },
{
}

/// The manager answers a route lookup from the registry as it stands:
/// with the endpoint the address routes to, through the lookup's own
/// channel, and with nothing for an address that routes nowhere.
pub proof fn law_manager_route_lookup(
    v: RegistryView,
    ip: u32,
    tx: Sender<Option<Endpoint>>,
    now: std::time::Instant,
    action: ManagerAction,
)
    requires
        is_manager_action(v, ManagerMessages::ResolveRoute(ip, tx), now, action),
    ensures
        action matches ManagerAction::AnswerRoute(to, found) && to == tx && match found {
            Some(x) => v.routes.contains_key(ip) && v.routes[ip] == x,
            None => !v.routes.contains_key(ip),
        },
{
}

/// After the manager registers `e`, looking `e` up answers the new entry:
/// the first free address, the key given and the time of the request; and
/// that address routes to `e`.
pub proof fn law_manager_add_then_lookup(
    v: RegistryView,
    e: Endpoint,
    k: x25519_dalek::PublicKey,
    tx: Sender<Peer>,
    t: std::time::Instant,
    tx2: Sender<Option<Peer>>,
    t2: std::time::Instant,
    tx3: Sender<Option<Endpoint>>,
    lookup: ManagerAction,
    route: ManagerAction,
)
    requires
        v.wf(),
        v.pool.len() > 0,
        is_manager_action(
            manager_effect(v, ManagerMessages::AddPeer(e, k, tx), t),
            ManagerMessages::GetPeer(e, tx2),
            t2,
            lookup,
        ),
        is_manager_action(
            manager_effect(v, ManagerMessages::AddPeer(e, k, tx), t),
            ManagerMessages::ResolveRoute(v.pool[0], tx3),
            t2,
            route,
        ),
    ensures
        lookup matches ManagerAction::AnswerLookup(_, Some(p)) && p.endpoint == e && p.pub_key == k
            && p.last_seen == t && p.assigned_ip == v.pool[0],
        route matches ManagerAction::AnswerRoute(_, Some(x)) && x == e,
{
}

/// After the manager removes `e`, looking `e` up answers nothing, and the
/// address `e` held routes nowhere.
pub proof fn law_manager_remove_then_lookup(
    v: RegistryView,
    e: Endpoint,
    t: std::time::Instant,
    tx2: Sender<Option<Peer>>,
    t2: std::time::Instant,
    tx3: Sender<Option<Endpoint>>,
    lookup: ManagerAction,
    route: ManagerAction,
)
    requires
        v.wf(),
        v.peers.contains_key(e),
        is_manager_action(
            manager_effect(v, ManagerMessages::RemovePeer(e), t),
            ManagerMessages::GetPeer(e, tx2),
            t2,
            lookup,
        ),
        is_manager_action(
            manager_effect(v, ManagerMessages::RemovePeer(e), t),
            ManagerMessages::ResolveRoute(v.peers[e].assigned_ip, tx3),
            t2,
            route,
        ),
    ensures
        lookup matches ManagerAction::AnswerLookup(_, None),
        route matches ManagerAction::AnswerRoute(_, None),
{
    law_remove_forgets(v, e);
}

/// A listing of every peer leaves none out: each registered peer appears
/// in it, and it is exactly as long as there are peers.
pub proof fn law_listing_is_complete(v: RegistryView, s: Seq<Peer>, e: Endpoint)
    requires
        lists_each_peer_once(s, v),
    ensures
        v.peers.contains_key(e) ==> s.contains(v.peers[e]),
        s.len() == v.peers.dom().len(),
        s.no_duplicates(),
{
}

/// A fresh registry's pool holds `10.0.0.2`, `10.0.0.3`, ..., `10.0.0.10`
/// in that order.
pub proof fn law_initial_pool()
    ensures
        initial_pool().len() == 9,
        forall|i: int| 0 <= i < 9 ==> #[trigger] initial_pool()[i] == 0x0A00_0002 + i,
{
}

/// The manager answers a request to register `e` through that request's
/// own channel with the new entry: the first free address, the key given
/// and the time of the request. With no address left, an endpoint not yet
/// registered gets no answer.
pub proof fn law_manager_add_answer(
    v: RegistryView,
    e: Endpoint,
    k: x25519_dalek::PublicKey,
    tx: Sender<Peer>,
    t: std::time::Instant,
    action: ManagerAction,
)
    requires
        v.wf(),
        is_manager_action(v, ManagerMessages::AddPeer(e, k, tx), t, action),
    ensures
        v.pool.len() > 0 ==> (action matches ManagerAction::AnswerPeer(to, p) && to == tx
            && p.endpoint == e && p.pub_key == k && p.last_seen == t && p.assigned_ip
            == v.pool[0]),
        v.pool.len() == 0 && !v.peers.contains_key(e) ==> (action matches ManagerAction::Continue),
{
}

/// Touching a peer the registry does not know stops the manager with
/// `Server(NoSuchClient)` and changes nothing; touching a known one goes on
/// without an answer.
pub proof fn law_manager_touch(
    v: RegistryView,
    e: Endpoint,
    t: std::time::Instant,
    action: ManagerAction,
)
    requires
        is_manager_action(v, ManagerMessages::UpdateLastSeen(e), t, action),
    ensures
        !v.peers.contains_key(e) ==> action == ManagerAction::Stop(
            crate::manager::ManagerError::Server(ServerError::NoSuchClient),
        ) && manager_effect(v, ManagerMessages::UpdateLastSeen(e), t) == v,
        v.peers.contains_key(e) ==> (action matches ManagerAction::Continue),
{
}

/// The manager answers a request for every peer through that request's
/// own channel with each registered peer exactly once.
pub proof fn law_manager_listing_is_complete(
    v: RegistryView,
    tx: Sender<Vec<Peer>>,
    t: std::time::Instant,
    action: ManagerAction,
    e: Endpoint,
)
    requires
        is_manager_action(v, ManagerMessages::GetAllPeers(tx), t, action),
    ensures
        action matches ManagerAction::AnswerAllPeers(to, all) && to == tx && all@.len()
            == v.peers.dom().len() && all@.no_duplicates() && (v.peers.contains_key(e)
            ==> all@.contains(v.peers[e])),
{
}

} // verus!
