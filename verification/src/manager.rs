//! The peer manager: the one owner of the registry, answering requests that
//! arrive one by one.

use crate::errors::ServerError;
use crate::net::Endpoint;
use crate::peer::Peer;
use crate::registry::{lists_each_peer_once, Registry, RegistryView};
use tokio::sync::oneshot::Sender;
use vstd::prelude::*;

verus! {

/// The sending half of a one-shot channel (`tokio::sync::oneshot::Sender`),
/// carried as an opaque value.
#[verifier::external_type_specification]
#[verifier::external_body]
#[verifier::reject_recursive_types(T)]
pub struct ExSender<T>(Sender<T>);

/// A request to the manager; those that expect an answer carry the channel
/// for it.
#[derive(Debug)]
pub enum ManagerMessages {
    AddPeer(Endpoint, x25519_dalek::PublicKey, Sender<Peer>),
    UpdateLastSeen(Endpoint),
    ResolveRoute(u32, Sender<Option<Endpoint>>),
    GetAllPeers(Sender<Vec<Peer>>),
    GetPeer(Endpoint, Sender<Option<Peer>>),
    RemovePeer(Endpoint),
}

/// Why the manager stopped.
#[derive(Clone, Copy, Debug, PartialEq, Eq, Structural)]
pub enum ManagerError {
    /// The one who asked no longer waits for the answer.
    OneShotClosed,
    /// The registry refused a request that must not fail.
    Server(ServerError),
}

/// The registry after the manager has handled `msg` at time `now`.
pub open spec fn manager_effect(
    v: RegistryView,
    msg: ManagerMessages,
    now: std::time::Instant,
) -> RegistryView {
    match msg {
        ManagerMessages::AddPeer(e, k, _) => v.add_peer(e, k, now).0,
        ManagerMessages::UpdateLastSeen(e) => v.update_last_seen(e, now).0,
        ManagerMessages::RemovePeer(e) => v.remove_peer(e).0,
        _ => v,
    }
}

/// The registry after the manager has handled `steps` in order, each request
/// with its time, starting from `v`.
pub open spec fn manager_run(
    v: RegistryView,
    steps: Seq<(ManagerMessages, std::time::Instant)>,
) -> RegistryView
    decreases steps.len(),
{
    if steps.len() == 0 {
        v
    } else {
        manager_effect(manager_run(v, steps.drop_last()), steps.last().0, steps.last().1)
    }
}

/// What the manager does after handling a request: send an answer through
/// the request's own channel, go on, or stop with an error.
#[derive(Debug)]
pub enum ManagerAction {
    /// Send the added peer's entry.
    AnswerPeer(Sender<Peer>, Peer),
    /// Send the result of a route lookup.
    AnswerRoute(Sender<Option<Endpoint>>, Option<Endpoint>),
    /// Send every peer.
    AnswerAllPeers(Sender<Vec<Peer>>, Vec<Peer>),
    /// Send the result of a peer lookup.
    AnswerLookup(Sender<Option<Peer>>, Option<Peer>),
    /// Nothing to send; go on with the next request.
    Continue,
    /// Stop the manager with this error.
    Stop(ManagerError),
}

/// Whether `action` is what the manager does about `msg` on the registry
/// `before`: each answer goes through the channel that came with the
/// request and carries what the registry holds once the request is applied:
/// the added peer's entry, the route, the peer, every peer once. A refused
/// addition of an unknown endpoint and a removal go on without an answer;
/// touching an unknown peer stops the manager with `Server(NoSuchClient)`.
pub open spec fn is_manager_action(
    before: RegistryView,
    msg: ManagerMessages,
    now: std::time::Instant,
    action: ManagerAction,
) -> bool {
    let after = manager_effect(before, msg, now);
    match msg {
        ManagerMessages::AddPeer(e, _, tx) => match after.peer(e) {
            Some(p) => action == ManagerAction::AnswerPeer(tx, p),
            None => action == ManagerAction::Continue,
        },
        ManagerMessages::UpdateLastSeen(e) => if before.peers.contains_key(e) {
            action == ManagerAction::Continue
        } else {
            action == ManagerAction::Stop(ManagerError::Server(ServerError::NoSuchClient))
        },
        ManagerMessages::ResolveRoute(ip, tx) => action == ManagerAction::AnswerRoute(
            tx,
            before.route(ip),
        ),
        ManagerMessages::GetAllPeers(tx) => match action {
            ManagerAction::AnswerAllPeers(to, all) => to == tx && lists_each_peer_once(
                all@,
                before,
            ),
            _ => false,
        },
        ManagerMessages::GetPeer(e, tx) => action == ManagerAction::AnswerLookup(
            tx,
            before.peer(e),
        ),
        ManagerMessages::RemovePeer(_) => action == ManagerAction::Continue,
    }
}

/// How an action ends once its answer, if it had one, has been sent:
/// `attempt` is `None` when nothing was sent and `Some(delivered)` when an
/// answer went out. An answer that could not be delivered stops the manager
/// with `OneShotClosed`; otherwise the manager goes on.
pub open spec fn delivery_result(attempt: Option<bool>) -> Result<(), ManagerError> {
    match attempt {
        Some(false) => Err(ManagerError::OneShotClosed),
        _ => Ok(()),
    }
}

/// Ends an action after the attempt to send its answer (see
/// [`delivery_result`]).
pub fn settle_delivery(attempt: Option<bool>) -> (r: Result<(), ManagerError>)
    ensures
        r == delivery_result(attempt),
{
    match attempt {
        Some(false) => Err(ManagerError::OneShotClosed),
        _ => Ok(()),
    }
}

impl Registry {
    /// Handles one request at time `now`: applies it to the registry and
    /// decides what to do next (see [`is_manager_action`]): answer the
    /// request's own channel from the registry, go on without answering, or
    /// stop.
    pub fn handle_message(&mut self, msg: ManagerMessages, now: std::time::Instant) -> (action:
        ManagerAction)
        requires
            old(self).wf(),
        ensures
            final(self).wf(),
            final(self)@ == manager_effect(old(self)@, msg, now),
            is_manager_action(old(self)@, msg, now, action),
            msg is GetPeer || msg is ResolveRoute || msg is GetAllPeers ==> final(self)@ == old(
                self,
            )@,
    {
        match msg {
            ManagerMessages::AddPeer(endpoint, pub_key, tx) => {
                let _ = self.add_peer_at(endpoint, pub_key, now);
                match self.get_peer(&endpoint) {
                    Some(peer) => ManagerAction::AnswerPeer(tx, peer),
                    None => ManagerAction::Continue,
                }
            },
            ManagerMessages::UpdateLastSeen(endpoint) => {
                match self.update_last_seen(endpoint, now) {
                    Ok(()) => ManagerAction::Continue,
                    Err(e) => ManagerAction::Stop(ManagerError::Server(e)),
                }
            },
            ManagerMessages::ResolveRoute(ip, tx) => ManagerAction::AnswerRoute(tx, self.get_route(&ip)),
            ManagerMessages::GetAllPeers(tx) => ManagerAction::AnswerAllPeers(tx, self.get_all_peers()),
            ManagerMessages::GetPeer(endpoint, tx) => ManagerAction::AnswerLookup(
                tx,
                self.get_peer(&endpoint),
            ),
            ManagerMessages::RemovePeer(endpoint) => {
                let _ = self.remove_peer(endpoint);
                ManagerAction::Continue
            },
        }
    }
}

} // verus!
