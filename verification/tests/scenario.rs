//! End-to-end runs of the protocol logic: every control message travels
//! through the codec, the rendezvous dispatch, and the two handshake
//! machines, and payloads travel through the relay decision, exactly as
//! the event loops would drive them.

use p2p_puncher::codec::{decode, encode};
use p2p_puncher::endpoint::{Endpoint, SourceAddr};
use p2p_puncher::handshake::{
    exposer_init, exposer_step, requester_init, requester_step, ExposerState, HandshakeAction,
    HandshakeEvent, RequesterState,
};
use p2p_puncher::messages::UDPMessage;
use p2p_puncher::registry::Registry;
use p2p_puncher::relay::{relay_step, RelayAction, RelayEvent};
use p2p_puncher::rendezvous::handle_datagram;
use p2p_puncher::session::{ConnectionMap, FlowDecision};

/// Carries one encoded message across the simulated wire into a machine
/// event.
fn deliver(msg: &UDPMessage) -> HandshakeEvent {
    let bytes = encode(msg);
    match decode(bytes.as_slice()) {
        Some(m) => HandshakeEvent::Received(m),
        None => HandshakeEvent::Malformed,
    }
}

#[test]
fn match_and_forward() {
    // The rendezvous listens on 127.0.0.1:5000; the exposer's punched
    // socket appears to it as 127.0.0.1:41000, the requester's as
    // 127.0.0.1:42000. The requester listens on 127.0.0.1:6000 for the
    // local source 127.0.0.1:9000 and the exposer forwards to an echo
    // server on 127.0.0.1:7000 that reverses what it hears.
    let exposer_ep = Endpoint::new(127, 0, 0, 1, 41000);
    let requester_ep = Endpoint::new(127, 0, 0, 1, 42000);
    let local_source = SourceAddr::new(0x7F000001, 9000);

    let mut reg = Registry::new();
    let mut sessions = ConnectionMap::new();

    // The exposer registers "demo".
    let (exp, act) = exposer_init();
    assert_eq!(act, HandshakeAction::SendRegistration);
    let adv = encode(&UDPMessage::Server { service_name: b"demo".to_vec() });
    let replies = handle_datagram(&mut reg, adv.as_slice(), exposer_ep, 0);
    assert_eq!(replies.len(), 1);
    let (exp, _) = exposer_step(exp, &deliver(&replies[0].msg));
    assert_eq!(exp, ExposerState::KeepingAlive);

    // A first datagram arrives from the local source: punch a flow.
    assert_eq!(sessions.dispatch(local_source), FlowDecision::Punch);
    let (req, act) = requester_init();
    assert_eq!(act, HandshakeAction::SendRegistration);
    let request = encode(&UDPMessage::Client { service_name: b"demo".to_vec() });
    let replies = handle_datagram(&mut reg, request.as_slice(), requester_ep, 10);
    assert_eq!(replies.len(), 2);
    assert_eq!(replies[0].dest, exposer_ep);
    assert_eq!(replies[1].dest, requester_ep);

    // Both sides learn their peer and run the three punch steps.
    let (exp, act) = exposer_step(exp, &deliver(&replies[0].msg));
    assert_eq!(exp, ExposerState::Punching { peer: requester_ep });
    assert_eq!(act, HandshakeAction::SendStep1 { peer: requester_ep });
    let (req, act) = requester_step(req, &deliver(&replies[1].msg));
    assert_eq!(req, RequesterState::Observing { peer: exposer_ep });
    assert_eq!(act, HandshakeAction::Sleep { seconds: 1 });
    let (req, act) = requester_step(req, &HandshakeEvent::Elapsed);
    assert_eq!(act, HandshakeAction::SendStep2 { peer: exposer_ep });
    let (exp, act) = exposer_step(
        exp,
        &deliver(&UDPMessage::Punch(p2p_puncher::messages::PunchMessage::PeerHandshake2)),
    );
    assert_eq!(exp, ExposerState::Complete { peer: requester_ep });
    assert_eq!(act, HandshakeAction::SendStep3 { peer: requester_ep });
    let (req, _) = requester_step(
        req,
        &deliver(&UDPMessage::Punch(p2p_puncher::messages::PunchMessage::PeerHandshake3)),
    );
    assert_eq!(req, RequesterState::Complete { peer: exposer_ep });

    // The flow is registered and the first payload travels.
    assert!(sessions.insert(local_source, 1, 20));
    let payload = b"hello".to_vec();

    // Requester side: local source to punched socket.
    let to_peer = match relay_step(RelayEvent::FromLocal(payload)) {
        RelayAction::SendPeer(b) => b,
        other => panic!("wrong relay action: {:?}", other),
    };
    // Exposer side: punched socket to the forward destination.
    let to_destination = match relay_step(RelayEvent::FromPeer(to_peer)) {
        RelayAction::SendLocal(b) => b,
        other => panic!("wrong relay action: {:?}", other),
    };
    assert_eq!(to_destination, b"hello".to_vec());

    // The echo server reverses and answers.
    let mut echoed = to_destination;
    echoed.reverse();

    // Exposer side: destination back to the punched socket.
    let back_to_peer = match relay_step(RelayEvent::FromLocal(echoed)) {
        RelayAction::SendPeer(b) => b,
        other => panic!("wrong relay action: {:?}", other),
    };
    // Requester side: punched socket back to the local source.
    let back_to_source = match relay_step(RelayEvent::FromPeer(back_to_peer)) {
        RelayAction::SendLocal(b) => b,
        other => panic!("wrong relay action: {:?}", other),
    };
    assert_eq!(back_to_source, b"olleh".to_vec());
}

#[test]
fn re_advertise_after_match() {
    // Each match consumes the advertisement; the supervisor's next
    // advertisement restores the service for the next requester.
    let exposer_ep = Endpoint::new(127, 0, 0, 1, 41000);
    let first_requester = Endpoint::new(127, 0, 0, 1, 42000);
    let second_requester = Endpoint::new(127, 0, 0, 1, 43000);
    let mut reg = Registry::new();

    let adv = encode(&UDPMessage::Server { service_name: b"demo".to_vec() });
    assert_eq!(handle_datagram(&mut reg, adv.as_slice(), exposer_ep, 0).len(), 1);

    let request = encode(&UDPMessage::Client { service_name: b"demo".to_vec() });
    let replies = handle_datagram(&mut reg, request.as_slice(), first_requester, 10);
    assert_eq!(replies.len(), 2);
    assert!(!reg.contains_service(&b"demo".to_vec()));

    // The supervisor re-advertises at once, on a fresh socket.
    let fresh_ep = Endpoint::new(127, 0, 0, 1, 41001);
    let replies = handle_datagram(&mut reg, adv.as_slice(), fresh_ep, 500);
    assert_eq!(replies.len(), 1);
    assert!(matches!(replies[0].msg, UDPMessage::Okay));

    let replies = handle_datagram(&mut reg, request.as_slice(), second_requester, 600);
    assert_eq!(replies.len(), 2);
    assert_eq!(replies[0].dest, fresh_ep);
    assert_eq!(replies[1].dest, second_requester);
}

#[test]
fn relay_passes_largest_payload_verbatim() {
    let payload: Vec<u8> = (0..4096).map(|i| (i % 251) as u8).collect();
    let expected = payload.clone();
    match relay_step(RelayEvent::FromPeer(payload)) {
        RelayAction::SendLocal(b) => assert_eq!(b, expected),
        other => panic!("wrong relay action: {:?}", other),
    }
}

#[test]
fn relay_terminates_idle_flow() {
    assert!(matches!(relay_step(RelayEvent::Idle), RelayAction::Terminate));
}
