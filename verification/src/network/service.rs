//! The decisions of the node loop.
//!
//! The loop waits on two sources, the transport and the command inbox, and
//! serves one ready item at a time. Waiting, and everything that touches the
//! transport, is done by whoever runs the loop. What the loop does with an
//! item is decided here: each item is answered by exactly one action, and the
//! service stays as it is, since the loop has no state but "running".

use vstd::prelude::*;
use crate::router::pid::RouteWeightController;

verus! {

/// How many commands may wait in the inbox.
pub const COMMAND_INBOX_CAPACITY: usize = 32;

/// A request to the node loop. The channel on which a peer count is answered
/// stays with whoever runs the loop.
#[derive(Debug, PartialEq, Eq)]
pub enum NetworkCommand {
    /// Asks how many peers are connected.
    GetPeerCount,
    /// Asks for `msg` to be sent to the peer named `peer_id`.
    SendMessage { peer_id: String, msg: Vec<u8> },
}

/// What the transport reports, as far as the loop tells events apart.
#[derive(Debug, PartialEq, Eq)]
pub enum TransportEvent {
    /// The transport listens on a new address.
    NewListenAddr { address: String },
    /// Any other event: observed, and nothing follows.
    Other,
}

/// What the loop does in answer to one item.
#[derive(Debug, PartialEq, Eq)]
pub enum LoopAction {
    /// Make the new listening address known.
    AnnounceListening { address: String },
    /// Answer the request with this count; an abandoned request is dropped.
    ReplyPeerCount { count: u32 },
    /// Hand the payload to the outbound path of the transport.
    Deliver { peer_id: String, payload: Vec<u8> },
    /// Nothing to do.
    Nothing,
}

/// The peer count as it is reported: the low 32 bits of the transport's count.
pub open spec fn reported_count(connected_peers: usize) -> u32 {
    (connected_peers as int % 0x1_0000_0000) as u32
}

/// The action that answers a transport event.
pub open spec fn action_for_event(event: TransportEvent) -> LoopAction {
    match event {
        TransportEvent::NewListenAddr { address } => LoopAction::AnnounceListening { address },
        TransportEvent::Other => LoopAction::Nothing,
    }
}

/// The action that answers a command while `connected_peers` peers are
/// connected.
pub open spec fn action_for_command(command: NetworkCommand, connected_peers: usize) -> LoopAction {
    match command {
        NetworkCommand::GetPeerCount => LoopAction::ReplyPeerCount {
            count: reported_count(connected_peers),
        },
        NetworkCommand::SendMessage { peer_id, msg } => LoopAction::Deliver {
            peer_id,
            payload: msg,
        },
    }
}

/// The part of the node that the loop owns besides the transport.
pub struct NetworkService {
    /// The route weight controller of the node.
    pub controller: RouteWeightController,
}

impl NetworkService {
    /// A service whose controller draws its jitter from `seed`.
    pub fn new(seed: u64) -> (service: Self)
        ensures
            service.controller.wf(),
            service.controller.seed() == seed,
            service.controller.admitted() == 0,
    {
        NetworkService { controller: RouteWeightController::new(seed) }
    }

    /// Serves one transport event.
    pub fn handle_event(&self, event: TransportEvent) -> (action: LoopAction)
        ensures
            action == action_for_event(event),
    {
        match event {
            TransportEvent::NewListenAddr { address } => LoopAction::AnnounceListening { address },
            TransportEvent::Other => LoopAction::Nothing,
        }
    }

    /// Serves one command. `connected_peers` is the transport's count of
    /// connected peers at this moment.
    pub fn handle_command(&self, command: NetworkCommand, connected_peers: usize) -> (action:
        LoopAction)
        ensures
            action == action_for_command(command, connected_peers),
    {
        match command {
            NetworkCommand::GetPeerCount => {
                let wide: u64 = connected_peers as u64;
                let count: u32 = (wide % 0x1_0000_0000) as u32;
                LoopAction::ReplyPeerCount { count }
            },
            NetworkCommand::SendMessage { peer_id, msg } => LoopAction::Deliver {
                peer_id,
                payload: msg,
            },
        }
    }
}

} // verus!
