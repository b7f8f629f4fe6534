use aeon_core::network::service::{
    LoopAction, NetworkCommand, NetworkService, TransportEvent, COMMAND_INBOX_CAPACITY,
};

#[test]
fn inbox_holds_thirty_two_commands() {
    assert_eq!(COMMAND_INBOX_CAPACITY, 32);
}

#[test]
fn peer_count_with_no_peers_is_zero() {
    let service = NetworkService::new(12345);
    assert_eq!(
        service.handle_command(NetworkCommand::GetPeerCount, 0),
        LoopAction::ReplyPeerCount { count: 0 }
    );
}

#[test]
fn peer_count_is_reported_as_counted() {
    let service = NetworkService::new(1);
    assert_eq!(
        service.handle_command(NetworkCommand::GetPeerCount, 17),
        LoopAction::ReplyPeerCount { count: 17 }
    );
    assert_eq!(
        service.handle_command(NetworkCommand::GetPeerCount, u32::MAX as usize),
        LoopAction::ReplyPeerCount { count: u32::MAX }
    );
}

#[test]
fn peer_count_keeps_its_low_bits() {
    let service = NetworkService::new(1);
    let many = (u32::MAX as u64 + 6) as usize;
    assert_eq!(
        service.handle_command(NetworkCommand::GetPeerCount, many),
        LoopAction::ReplyPeerCount { count: many as u32 }
    );
}

#[test]
fn message_is_handed_to_the_outbound_path() {
    let service = NetworkService::new(1);
    let command =
        NetworkCommand::SendMessage { peer_id: "12D3KooWPeer".to_string(), msg: vec![1, 2, 3] };
    assert_eq!(
        service.handle_command(command, 4),
        LoopAction::Deliver { peer_id: "12D3KooWPeer".to_string(), payload: vec![1, 2, 3] }
    );
}

#[test]
fn sending_does_not_hold_up_a_pending_event() {
    let service = NetworkService::new(1);
    let command = NetworkCommand::SendMessage { peer_id: "peer".to_string(), msg: vec![0xff] };
    let first = service.handle_command(command, 0);
    let second = service.handle_event(TransportEvent::NewListenAddr {
        address: "/ip4/127.0.0.1/tcp/4001".to_string(),
    });
    assert_eq!(first, LoopAction::Deliver { peer_id: "peer".to_string(), payload: vec![0xff] });
    assert_eq!(
        second,
        LoopAction::AnnounceListening { address: "/ip4/127.0.0.1/tcp/4001".to_string() }
    );
}

#[test]
fn new_listening_address_is_announced() {
    let service = NetworkService::new(1);
    let event = TransportEvent::NewListenAddr { address: "/ip4/0.0.0.0/tcp/0".to_string() };
    assert_eq!(
        service.handle_event(event),
        LoopAction::AnnounceListening { address: "/ip4/0.0.0.0/tcp/0".to_string() }
    );
}

#[test]
fn other_events_ask_for_nothing() {
    let service = NetworkService::new(1);
    assert_eq!(service.handle_event(TransportEvent::Other), LoopAction::Nothing);
}
