use rust_vpn::errors::ServerError;
use rust_vpn::manager::{settle_delivery, ManagerAction, ManagerError, ManagerMessages};
use rust_vpn::net::Endpoint;
use rust_vpn::registry::Registry;
use std::time::{Duration, Instant};
use tokio::sync::oneshot;
use x25519_dalek::PublicKey;

/// Handles `msg` and carries out the decision, as the manager task does.
fn handle(r: &mut Registry, msg: ManagerMessages, t: Instant) -> Result<(), ManagerError> {
    let attempt = match r.handle_message(msg, t) {
        ManagerAction::AnswerPeer(tx, peer) => Some(tx.send(peer).is_ok()),
        ManagerAction::AnswerRoute(tx, route) => Some(tx.send(route).is_ok()),
        ManagerAction::AnswerAllPeers(tx, all) => Some(tx.send(all).is_ok()),
        ManagerAction::AnswerLookup(tx, peer) => Some(tx.send(peer).is_ok()),
        ManagerAction::Continue => None,
        ManagerAction::Stop(e) => return Err(e),
    };
    settle_delivery(attempt)
}

fn client(n: u8) -> Endpoint {
    Endpoint::new(172, 16, 0, n, 5000)
}

#[test]
fn add_peer_answers_with_entry() {
    let mut r = Registry::new();
    let (tx, mut rx) = oneshot::channel();
    let t = Instant::now();
    let msg = ManagerMessages::AddPeer(client(1), PublicKey::from([3u8; 32]), tx);
    assert_eq!(handle(&mut r, msg, t), Ok(()));
    let p = rx.try_recv().unwrap();
    assert_eq!(p.endpoint, client(1));
    assert_eq!(p.assigned_ip, 0x0A00_0002);
    assert_eq!(p.last_seen, t);
}

#[test]
fn add_peer_without_address_gets_no_answer() {
    let mut r = Registry::new();
    let t = Instant::now();
    for n in 1..=9 {
        r.add_peer_at(client(n), PublicKey::from([n; 32]), t).unwrap();
    }
    let (tx, mut rx) = oneshot::channel();
    let msg = ManagerMessages::AddPeer(client(20), PublicKey::from([0u8; 32]), tx);
    assert_eq!(handle(&mut r, msg, t), Ok(()));
    assert!(rx.try_recv().is_err());
}

#[test]
fn resolve_route_and_get_peer_answer_from_registry() {
    let mut r = Registry::new();
    let t = Instant::now();
    r.add_peer_at(client(1), PublicKey::from([1u8; 32]), t).unwrap();
    let (tx, mut rx) = oneshot::channel();
    assert_eq!(handle(&mut r, ManagerMessages::ResolveRoute(0x0A00_0002, tx), t), Ok(()));
    assert_eq!(rx.try_recv().unwrap(), Some(client(1)));
    let (tx, mut rx) = oneshot::channel();
    assert_eq!(handle(&mut r, ManagerMessages::ResolveRoute(0x0A00_0003, tx), t), Ok(()));
    assert_eq!(rx.try_recv().unwrap(), None);
    let (tx, mut rx) = oneshot::channel();
    assert_eq!(handle(&mut r, ManagerMessages::GetPeer(client(1), tx), t), Ok(()));
    assert_eq!(rx.try_recv().unwrap().unwrap().assigned_ip, 0x0A00_0002);
    let (tx, mut rx) = oneshot::channel();
    assert_eq!(handle(&mut r, ManagerMessages::GetPeer(client(2), tx), t), Ok(()));
    assert_eq!(rx.try_recv().unwrap(), None);
}

#[test]
fn get_all_peers_answers_every_peer() {
    let mut r = Registry::new();
    let t = Instant::now();
    r.add_peer_at(client(1), PublicKey::from([1u8; 32]), t).unwrap();
    r.add_peer_at(client(2), PublicKey::from([2u8; 32]), t).unwrap();
    let (tx, mut rx) = oneshot::channel();
    assert_eq!(handle(&mut r, ManagerMessages::GetAllPeers(tx), t), Ok(()));
    let mut all = rx.try_recv().unwrap();
    all.sort_by_key(|p| p.assigned_ip);
    assert_eq!(all.len(), 2);
    assert_eq!(all[0].endpoint, client(1));
    assert_eq!(all[1].endpoint, client(2));
}

#[test]
fn update_last_seen_of_unknown_peer_stops_manager() {
    let mut r = Registry::new();
    let t = Instant::now();
    assert_eq!(
        handle(&mut r, ManagerMessages::UpdateLastSeen(client(1)), t),
        Err(ManagerError::Server(ServerError::NoSuchClient))
    );
}

#[test]
fn update_last_seen_of_known_peer() {
    let mut r = Registry::new();
    let t = Instant::now();
    let later = t + Duration::from_secs(1);
    r.add_peer_at(client(1), PublicKey::from([1u8; 32]), t).unwrap();
    assert_eq!(handle(&mut r, ManagerMessages::UpdateLastSeen(client(1)), later), Ok(()));
    assert_eq!(r.get_peer(&client(1)).unwrap().last_seen, later);
}

#[test]
fn remove_peer_is_silent_even_when_unknown() {
    let mut r = Registry::new();
    let t = Instant::now();
    r.add_peer_at(client(1), PublicKey::from([1u8; 32]), t).unwrap();
    assert_eq!(handle(&mut r, ManagerMessages::RemovePeer(client(2)), t), Ok(()));
    assert_eq!(handle(&mut r, ManagerMessages::RemovePeer(client(1)), t), Ok(()));
    assert_eq!(r.get_peer(&client(1)), None);
    assert_eq!(r.address_pool().len(), 9);
}

#[test]
fn dropped_receiver_stops_manager() {
    let mut r = Registry::new();
    let (tx, rx) = oneshot::channel::<Option<Endpoint>>();
    drop(rx);
    assert_eq!(
        handle(&mut r, ManagerMessages::ResolveRoute(0x0A00_0002, tx), Instant::now()),
        Err(ManagerError::OneShotClosed)
    );
}

#[test]
fn add_then_remove_actions() {
    let mut r = Registry::new();
    let t = Instant::now();
    let (tx, _rx) = oneshot::channel();
    let msg = ManagerMessages::AddPeer(client(4), PublicKey::from([4u8; 32]), tx);
    match r.handle_message(msg, t) {
        ManagerAction::AnswerPeer(_, p) => assert_eq!(p.assigned_ip, 0x0A00_0002),
        other => panic!("unexpected action {other:?}"),
    }
    match r.handle_message(ManagerMessages::RemovePeer(client(4)), t) {
        ManagerAction::Continue => {}
        other => panic!("unexpected action {other:?}"),
    }
    assert_eq!(r.get_peer(&client(4)), None);
}

#[test]
fn undelivered_answer_stops_manager() {
    assert_eq!(settle_delivery(None), Ok(()));
    assert_eq!(settle_delivery(Some(true)), Ok(()));
    assert_eq!(settle_delivery(Some(false)), Err(ManagerError::OneShotClosed));
}

#[test]
fn dropped_receiver_of_added_peer_stops_manager() {
    let mut r = Registry::new();
    let (tx, rx) = oneshot::channel();
    drop(rx);
    let msg = ManagerMessages::AddPeer(client(1), PublicKey::from([1u8; 32]), tx);
    assert_eq!(handle(&mut r, msg, Instant::now()), Err(ManagerError::OneShotClosed));
    assert!(r.get_peer(&client(1)).is_some());
}

#[test]
fn handle_message_decides_action() {
    let mut r = Registry::new();
    let t = Instant::now();
    let (tx, _rx) = oneshot::channel();
    match r.handle_message(ManagerMessages::ResolveRoute(0x0A00_0002, tx), t) {
        ManagerAction::AnswerRoute(_, route) => assert_eq!(route, None),
        other => panic!("unexpected action {other:?}"),
    }
    match r.handle_message(ManagerMessages::UpdateLastSeen(client(1)), t) {
        ManagerAction::Stop(e) => assert_eq!(e, ManagerError::Server(ServerError::NoSuchClient)),
        other => panic!("unexpected action {other:?}"),
    }
    match r.handle_message(ManagerMessages::RemovePeer(client(1)), t) {
        ManagerAction::Continue => {}
        other => panic!("unexpected action {other:?}"),
    }
}

#[test]
fn nine_peers_answered_tenth_left_unanswered() {
    let mut r = Registry::new();
    let t = Instant::now();
    let k = PublicKey::from([9u8; 32]);
    for n in 1..=10u8 {
        let (tx, mut rx) = oneshot::channel();
        assert_eq!(handle(&mut r, ManagerMessages::AddPeer(client(n), k, tx), t), Ok(()));
        if n <= 9 {
            assert_eq!(rx.try_recv().unwrap().assigned_ip, 0x0A00_0001 + n as u32);
        } else {
            assert!(rx.try_recv().is_err());
        }
    }
    let (tx, mut rx) = oneshot::channel();
    assert_eq!(handle(&mut r, ManagerMessages::GetAllPeers(tx), t), Ok(()));
    assert_eq!(rx.try_recv().unwrap().len(), 9);
}

#[test]
fn unknown_removal_then_empty_listing() {
    let mut r = Registry::new();
    let t = Instant::now();
    assert_eq!(handle(&mut r, ManagerMessages::RemovePeer(client(1)), t), Ok(()));
    let (tx, mut rx) = oneshot::channel();
    assert_eq!(handle(&mut r, ManagerMessages::GetAllPeers(tx), t), Ok(()));
    assert!(rx.try_recv().unwrap().is_empty());
}
