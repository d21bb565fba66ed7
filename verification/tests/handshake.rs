//! The handshake state machines, driven through their happy paths, their
//! failure paths, and the retry budget.

use p2p_puncher::endpoint::Endpoint;
use p2p_puncher::handshake::{
    exposer_init, exposer_step, requester_init, requester_step, ExposerState, HandshakeAction,
    HandshakeEvent, RequesterState,
};
use p2p_puncher::messages::{PunchError, PunchMessage, UDPMessage};

fn ep(d: u8, port: u16) -> Endpoint {
    Endpoint::new(127, 0, 0, d, port)
}

fn turn(peer: Endpoint) -> HandshakeEvent {
    HandshakeEvent::Received(UDPMessage::Punch(PunchMessage::TURN(peer)))
}

#[test]
fn requester_happy_path() {
    let peer = ep(1, 41000);
    let (s, a) = requester_init();
    assert_eq!(s, RequesterState::Contacting { retries: 0 });
    assert_eq!(a, HandshakeAction::SendRegistration);
    let (s, a) = requester_step(s, &turn(peer));
    assert_eq!(s, RequesterState::Observing { peer });
    assert_eq!(a, HandshakeAction::Sleep { seconds: 1 });
    let (s, a) = requester_step(s, &HandshakeEvent::Elapsed);
    assert_eq!(s, RequesterState::AwaitingConfirm { peer });
    assert_eq!(a, HandshakeAction::SendStep2 { peer });
    let (s, a) = requester_step(
        s,
        &HandshakeEvent::Received(UDPMessage::Punch(PunchMessage::PeerHandshake3)),
    );
    assert_eq!(s, RequesterState::Complete { peer });
    assert_eq!(a, HandshakeAction::Stop);
}

#[test]
fn requester_tolerates_full_cone_step1() {
    let peer = ep(1, 41000);
    let s = RequesterState::AwaitingConfirm { peer };
    // The exposer's first step crossed our NAT: keep waiting.
    let (s, a) = requester_step(
        s,
        &HandshakeEvent::Received(UDPMessage::Punch(PunchMessage::PeerHandshake1)),
    );
    assert_eq!(s, RequesterState::AwaitingConfirm { peer });
    assert_eq!(a, HandshakeAction::Wait);
    let (s, _) = requester_step(
        s,
        &HandshakeEvent::Received(UDPMessage::Punch(PunchMessage::PeerHandshake2)),
    );
    // Our own step echoed back is not part of the protocol: fail the flow.
    assert_eq!(s, RequesterState::Failed);
}

#[test]
fn requester_retry_budget_spans_fifteen_seconds() {
    // Each refusal backs off one second longer; the sixth abandons.
    let (mut s, _) = requester_init();
    let mut slept: u64 = 0;
    for expected in 1u64..=5 {
        let (s1, a) = requester_step(
            s,
            &HandshakeEvent::Received(UDPMessage::Error(PunchError::NoServer)),
        );
        assert_eq!(s1, RequesterState::Backoff { retries: expected as u8 });
        assert_eq!(a, HandshakeAction::Sleep { seconds: expected });
        slept += expected;
        let (s2, a) = requester_step(s1, &HandshakeEvent::Elapsed);
        assert_eq!(s2, RequesterState::Contacting { retries: expected as u8 });
        assert_eq!(a, HandshakeAction::SendRegistration);
        s = s2;
    }
    assert_eq!(slept, 15);
    let (s, a) = requester_step(
        s,
        &HandshakeEvent::Received(UDPMessage::Error(PunchError::NoServer)),
    );
    assert_eq!(s, RequesterState::Failed);
    assert_eq!(a, HandshakeAction::Stop);
}

#[test]
fn requester_retries_on_timeout_and_garbage() {
    let (s, _) = requester_init();
    let (s1, a) = requester_step(s, &HandshakeEvent::TimedOut);
    assert_eq!(s1, RequesterState::Backoff { retries: 1 });
    assert_eq!(a, HandshakeAction::Sleep { seconds: 1 });
    let (s2, a) = requester_step(s, &HandshakeEvent::Malformed);
    assert_eq!(s2, RequesterState::Backoff { retries: 1 });
    assert_eq!(a, HandshakeAction::Sleep { seconds: 1 });
}

#[test]
fn requester_fails_on_unexpected_confirm() {
    let peer = ep(1, 41000);
    let s = RequesterState::AwaitingConfirm { peer };
    let (s1, a) = requester_step(s, &HandshakeEvent::Received(UDPMessage::KeepAlive));
    assert_eq!(s1, RequesterState::Failed);
    assert_eq!(a, HandshakeAction::Stop);
    let (s2, _) = requester_step(s, &HandshakeEvent::TimedOut);
    assert_eq!(s2, RequesterState::Failed);
    let (s3, _) = requester_step(s, &HandshakeEvent::Malformed);
    assert_eq!(s3, RequesterState::Failed);
}

#[test]
fn exposer_happy_path() {
    let peer = ep(2, 42000);
    let (s, a) = exposer_init();
    assert_eq!(s, ExposerState::Registering { retries: 0 });
    assert_eq!(a, HandshakeAction::SendRegistration);
    let (s, a) = exposer_step(s, &HandshakeEvent::Received(UDPMessage::Okay));
    assert_eq!(s, ExposerState::KeepingAlive);
    assert_eq!(a, HandshakeAction::Wait);
    // Keep-alives flow while waiting for a match.
    let (s, a) = exposer_step(s, &HandshakeEvent::Tick);
    assert_eq!(s, ExposerState::KeepingAlive);
    assert_eq!(a, HandshakeAction::SendKeepAlive);
    let (s, a) = exposer_step(s, &turn(peer));
    assert_eq!(s, ExposerState::Punching { peer });
    assert_eq!(a, HandshakeAction::SendStep1 { peer });
    let (s, a) = exposer_step(
        s,
        &HandshakeEvent::Received(UDPMessage::Punch(PunchMessage::PeerHandshake2)),
    );
    assert_eq!(s, ExposerState::Complete { peer });
    assert_eq!(a, HandshakeAction::SendStep3 { peer });
}

#[test]
fn exposer_stops_on_duplicate_name() {
    let (s, _) = exposer_init();
    let (s, a) = exposer_step(
        s,
        &HandshakeEvent::Received(UDPMessage::Error(PunchError::DuplicateKey)),
    );
    assert_eq!(s, ExposerState::Rejected);
    assert_eq!(a, HandshakeAction::Stop);
    // Rejected is terminal.
    let (s, a) = exposer_step(s, &HandshakeEvent::Tick);
    assert_eq!(s, ExposerState::Rejected);
    assert_eq!(a, HandshakeAction::Stop);
}

#[test]
fn exposer_match_can_race_past_the_ack() {
    let peer = ep(2, 42000);
    let (s, _) = exposer_init();
    // The match arrived before the Okay: punch at once.
    let (s, a) = exposer_step(s, &turn(peer));
    assert_eq!(s, ExposerState::Punching { peer });
    assert_eq!(a, HandshakeAction::SendStep1 { peer });
}

#[test]
fn exposer_ignores_stray_acks_while_waiting() {
    let s = ExposerState::KeepingAlive;
    let (s1, a) = exposer_step(s, &HandshakeEvent::Received(UDPMessage::Okay));
    assert_eq!(s1, ExposerState::KeepingAlive);
    assert_eq!(a, HandshakeAction::Wait);
    let (s2, a) = exposer_step(s, &HandshakeEvent::Received(UDPMessage::KeepAlive));
    assert_eq!(s2, ExposerState::KeepingAlive);
    assert_eq!(a, HandshakeAction::Wait);
}

#[test]
fn exposer_keep_alive_send_error_fails_the_attempt() {
    let (s, _) = exposer_step(ExposerState::KeepingAlive, &HandshakeEvent::SendFailed);
    assert_eq!(s, ExposerState::Failed);
}

#[test]
fn exposer_retry_budget() {
    let (mut s, _) = exposer_init();
    for expected in 1u8..=5 {
        let (s1, a) = exposer_step(s, &HandshakeEvent::TimedOut);
        assert_eq!(s1, ExposerState::Backoff { retries: expected });
        assert_eq!(a, HandshakeAction::Sleep { seconds: expected as u64 });
        let (s2, _) = exposer_step(s1, &HandshakeEvent::Elapsed);
        assert_eq!(s2, ExposerState::Registering { retries: expected });
        s = s2;
    }
    let (s, _) = exposer_step(s, &HandshakeEvent::TimedOut);
    assert_eq!(s, ExposerState::Failed);
}
