//! The client session: event channel semantics, the bootstrap rendezvous,
//! signing, and the node control decisions.

use safenode::address::{NetworkAddress, PeerIdentity};
use safenode::client::Client;
use safenode::error::Error;
use safenode::events::{
    bootstrap_rendezvous, ClientEvent, ClientEventsChannel, NetworkEvent, RecvError, TryRecvError,
};
use safenode::node_ctrl::{
    monitor_node_event, node_run_decision, MonitorAction, NodeCtrl, NodeEvent, RunDecision,
    STOP_ON_CLOSED_DELAY_MS,
};
use safenode::CLOSE_GROUP_SIZE;

fn connected() -> Result<ClientEvent, RecvError> {
    Ok(ClientEvent::ConnectedToNetwork)
}

#[test]
fn channel_delivers_events_in_order_then_reports_empty() {
    let mut channel = ClientEventsChannel::default();
    let mut rx = channel.subscribe();
    assert_eq!(rx.try_recv(&channel), Err(TryRecvError::Empty));
    channel.broadcast(ClientEvent::ConnectedToNetwork);
    channel.broadcast(ClientEvent::ConnectedToNetwork);
    assert_eq!(rx.try_recv(&channel), Ok(ClientEvent::ConnectedToNetwork));
    assert_eq!(rx.try_recv(&channel), Ok(ClientEvent::ConnectedToNetwork));
    assert_eq!(rx.try_recv(&channel), Err(TryRecvError::Empty));
}

#[test]
fn channel_tells_a_laggard_how_much_it_missed() {
    let mut channel = ClientEventsChannel::new(2);
    let mut rx = channel.subscribe();
    for _ in 0..5 {
        channel.broadcast(ClientEvent::ConnectedToNetwork);
    }
    // Only the two newest events are retained; three were dropped.
    assert_eq!(rx.try_recv(&channel), Err(TryRecvError::Lagged(3)));
    assert_eq!(rx.try_recv(&channel), Ok(ClientEvent::ConnectedToNetwork));
    assert_eq!(rx.try_recv(&channel), Ok(ClientEvent::ConnectedToNetwork));
    assert_eq!(rx.try_recv(&channel), Err(TryRecvError::Empty));
}

#[test]
fn channel_reports_closed_only_after_draining() {
    let mut channel = ClientEventsChannel::default();
    let mut rx = channel.subscribe();
    channel.broadcast(ClientEvent::ConnectedToNetwork);
    channel.close();
    assert_eq!(rx.try_recv(&channel), Ok(ClientEvent::ConnectedToNetwork));
    assert_eq!(rx.try_recv(&channel), Err(TryRecvError::Closed));
}

#[test]
fn subscribers_see_only_events_after_subscribing() {
    let mut channel = ClientEventsChannel::default();
    channel.broadcast(ClientEvent::ConnectedToNetwork);
    let mut rx = channel.subscribe();
    assert_eq!(rx.try_recv(&channel), Err(TryRecvError::Empty));
}

#[test]
fn bootstrap_needs_one_more_connection_than_the_group_size() {
    let enough: Vec<_> = (0..CLOSE_GROUP_SIZE + 1).map(|_| connected()).collect();
    let (outcome, consumed) = bootstrap_rendezvous(&enough);
    assert_eq!(outcome, Ok(()));
    assert_eq!(consumed, CLOSE_GROUP_SIZE + 1);

    let short: Vec<_> = (0..CLOSE_GROUP_SIZE).map(|_| connected()).collect();
    let (outcome, _) = bootstrap_rendezvous(&short);
    assert_eq!(
        outcome,
        Err(Error::SessionBootstrapFailure {
            connected: CLOSE_GROUP_SIZE,
            required: CLOSE_GROUP_SIZE + 1,
        })
    );
}

#[test]
fn bootstrap_fails_when_the_stream_closes_early() {
    let mut events: Vec<Result<ClientEvent, RecvError>> = vec![connected(), connected()];
    events.push(Err(RecvError::Closed));
    // Nothing received after a closure can count.
    events.push(connected());
    let (outcome, consumed) = bootstrap_rendezvous(&events);
    assert_eq!(
        outcome,
        Err(Error::SessionBootstrapFailure { connected: 2, required: CLOSE_GROUP_SIZE + 1 })
    );
    assert_eq!(consumed, 3);
}

#[test]
fn bootstrap_tolerates_lagging() {
    let mut events: Vec<Result<ClientEvent, RecvError>> = vec![Err(RecvError::Lagged(4))];
    for _ in 0..CLOSE_GROUP_SIZE + 1 {
        events.push(connected());
    }
    let (outcome, consumed) = bootstrap_rendezvous(&events);
    assert_eq!(outcome, Ok(()));
    assert_eq!(consumed, CLOSE_GROUP_SIZE + 2);
}

#[test]
fn bootstrap_stops_reading_once_ready() {
    let mut events: Vec<Result<ClientEvent, RecvError>> = Vec::new();
    for _ in 0..CLOSE_GROUP_SIZE + 5 {
        events.push(connected());
    }
    let (outcome, consumed) = bootstrap_rendezvous(&events);
    assert_eq!(outcome, Ok(()));
    assert_eq!(consumed, CLOSE_GROUP_SIZE + 1);
}

#[test]
fn peer_added_is_republished_and_probed() {
    let mut client = Client::new(blsttc::SecretKey::random());
    let mut rx = client.events_channel();

    let probe = client.handle_network_event(NetworkEvent::PeerAdded(PeerIdentity {
        bytes: b"peer-a".to_vec(),
    }));
    assert_eq!(
        probe,
        Some(NetworkAddress::from_peer(PeerIdentity { bytes: b"peer-a".to_vec() }))
    );
    assert_eq!(rx.try_recv(client.channel()), Ok(ClientEvent::ConnectedToNetwork));

    assert_eq!(client.handle_network_event(NetworkEvent::RequestReceived), None);
    assert_eq!(client.handle_network_event(NetworkEvent::NewListenAddr), None);
    assert_eq!(rx.try_recv(client.channel()), Err(TryRecvError::Empty));
}

#[test]
fn signatures_verify_under_the_signer_public_key() {
    let secret = blsttc::SecretKey::random();
    let client = Client::new(secret.clone());
    let signature = client.sign(b"a message to the network");
    assert_eq!(client.signer_pk(), secret.public_key());
    assert!(client.signer_pk().verify(&signature, b"a message to the network"));
    assert!(!client.signer_pk().verify(&signature, b"another message"));
}

#[test]
fn monitor_reacts_to_each_received_item() {
    assert_eq!(
        monitor_node_event(Ok(NodeEvent::ConnectedToNetwork)),
        MonitorAction::LogConnected
    );
    assert_eq!(monitor_node_event(Ok(NodeEvent::Other)), MonitorAction::Ignore);
    assert_eq!(
        monitor_node_event(Err(RecvError::Closed)),
        MonitorAction::SendStop { delay_ms: STOP_ON_CLOSED_DELAY_MS }
    );
    assert_eq!(
        monitor_node_event(Err(RecvError::Lagged(7))),
        MonitorAction::SkipLagged { missed: 7 }
    );
}

#[test]
fn run_loop_honours_control_messages() {
    assert_eq!(
        node_run_decision(Some(NodeCtrl::Restart { delay_ms: 250 })),
        RunDecision::Restart { delay_ms: 250 }
    );
    assert_eq!(
        node_run_decision(Some(NodeCtrl::Stop { delay_ms: 1000 })),
        RunDecision::Stop { delay_ms: 1000 }
    );
    assert_eq!(
        node_run_decision(Some(NodeCtrl::Update { delay_ms: 50 })),
        RunDecision::KeepRunning
    );
    assert_eq!(node_run_decision(None), RunDecision::Restart { delay_ms: 0 });
}
