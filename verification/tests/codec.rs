//! The wire codec: round trips, exact bytes, and rejected datagrams.

use p2p_puncher::codec::{decode, encode};
use p2p_puncher::endpoint::Endpoint;
use p2p_puncher::messages::{PunchError, PunchMessage, UDPMessage};

fn round_trip(msg: &UDPMessage) -> UDPMessage {
    let bytes = encode(msg);
    assert!(bytes.len() <= 128);
    decode(bytes.as_slice()).expect("an encoded message must decode")
}

#[test]
fn client_round_trip() {
    let out = round_trip(&UDPMessage::Client { service_name: b"demo".to_vec() });
    match out {
        UDPMessage::Client { service_name } => assert_eq!(service_name, b"demo".to_vec()),
        other => panic!("wrong variant: {:?}", other),
    }
}

#[test]
fn server_round_trip() {
    let out = round_trip(&UDPMessage::Server { service_name: b"a service".to_vec() });
    match out {
        UDPMessage::Server { service_name } => assert_eq!(service_name, b"a service".to_vec()),
        other => panic!("wrong variant: {:?}", other),
    }
}

#[test]
fn empty_service_name_round_trip() {
    let bytes = encode(&UDPMessage::Client { service_name: Vec::new() });
    assert_eq!(bytes, vec![0u8, 0u8]);
    let out = decode(bytes.as_slice()).expect("decodes");
    assert!(matches!(out, UDPMessage::Client { service_name } if service_name.is_empty()));
}

#[test]
fn longest_service_name_round_trip() {
    let name = vec![7u8; 120];
    let bytes = encode(&UDPMessage::Server { service_name: name.clone() });
    assert_eq!(bytes.len(), 122);
    let out = decode(bytes.as_slice()).expect("decodes");
    assert!(matches!(out, UDPMessage::Server { service_name } if service_name == name));
}

#[test]
fn error_round_trip() {
    assert!(matches!(
        round_trip(&UDPMessage::Error(PunchError::DuplicateKey)),
        UDPMessage::Error(PunchError::DuplicateKey)
    ));
    assert!(matches!(
        round_trip(&UDPMessage::Error(PunchError::NoServer)),
        UDPMessage::Error(PunchError::NoServer)
    ));
}

#[test]
fn punch_steps_round_trip() {
    assert!(matches!(
        round_trip(&UDPMessage::Punch(PunchMessage::PeerHandshake1)),
        UDPMessage::Punch(PunchMessage::PeerHandshake1)
    ));
    assert!(matches!(
        round_trip(&UDPMessage::Punch(PunchMessage::PeerHandshake2)),
        UDPMessage::Punch(PunchMessage::PeerHandshake2)
    ));
    assert!(matches!(
        round_trip(&UDPMessage::Punch(PunchMessage::PeerHandshake3)),
        UDPMessage::Punch(PunchMessage::PeerHandshake3)
    ));
}

#[test]
fn punch_turn_round_trip() {
    let ep = Endpoint::new(203, 0, 113, 9, 65535);
    let out = round_trip(&UDPMessage::Punch(PunchMessage::TURN(ep)));
    match out {
        UDPMessage::Punch(PunchMessage::TURN(got)) => assert_eq!(got, ep),
        other => panic!("wrong variant: {:?}", other),
    }
}

#[test]
fn punch_turn_exact_bytes() {
    let ep = Endpoint::new(127, 0, 0, 1, 5000);
    let bytes = encode(&UDPMessage::Punch(PunchMessage::TURN(ep)));
    // 5000 = 19 * 256 + 136
    assert_eq!(bytes, vec![3u8, 3u8, 127u8, 0u8, 0u8, 1u8, 19u8, 136u8]);
}

#[test]
fn bare_variants_exact_bytes() {
    assert_eq!(encode(&UDPMessage::KeepAlive), vec![4u8]);
    assert_eq!(encode(&UDPMessage::Okay), vec![5u8]);
    assert_eq!(encode(&UDPMessage::Error(PunchError::DuplicateKey)), vec![2u8, 0u8]);
    assert_eq!(encode(&UDPMessage::Error(PunchError::NoServer)), vec![2u8, 1u8]);
    assert_eq!(
        encode(&UDPMessage::Client { service_name: b"x".to_vec() }),
        vec![0u8, 1u8, b'x']
    );
    assert_eq!(
        encode(&UDPMessage::Server { service_name: b"x".to_vec() }),
        vec![1u8, 1u8, b'x']
    );
}

#[test]
fn rejects_garbage() {
    assert!(decode(&[]).is_none());
    assert!(decode(&[0xFF, 0xFF]).is_none());
    assert!(decode(&[6u8]).is_none());
    assert!(decode(&[0xFFu8]).is_none());
}

#[test]
fn rejects_truncated_and_padded() {
    // Client claiming a 4-byte name but carrying 3.
    assert!(decode(&[0u8, 4u8, b'd', b'e', b'm']).is_none());
    // Trailing byte after a complete KeepAlive.
    assert!(decode(&[4u8, 0u8]).is_none());
    // Error with no kind byte, and with an unknown kind.
    assert!(decode(&[2u8]).is_none());
    assert!(decode(&[2u8, 2u8]).is_none());
    // Punch with an unknown sub-tag, and a truncated TURN.
    assert!(decode(&[3u8, 4u8]).is_none());
    assert!(decode(&[3u8, 3u8, 127u8, 0u8, 0u8, 1u8, 19u8]).is_none());
    // A step message with a trailing byte.
    assert!(decode(&[3u8, 0u8, 0u8]).is_none());
}

#[test]
fn rejects_oversized_service_name() {
    // A length byte above the cap never decodes, even with matching bytes.
    let mut bytes = vec![1u8, 200u8];
    bytes.extend(std::iter::repeat(9u8).take(200));
    assert!(decode(bytes.as_slice()).is_none());
}
