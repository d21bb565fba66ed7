//! The wire codec for control messages.
//!
//! One control message per datagram, at most 128 bytes. The format is a tag
//! byte followed by the variant's payload:
//!
//! - `0x00` / `0x01` — Client / Server: one length byte, then the service
//!   name's bytes;
//! - `0x02` — Error: one byte, `0x00` for DuplicateKey, `0x01` for NoServer;
//! - `0x03` — Punch: one byte for the step (`0x00`–`0x02`), or `0x03`
//!   followed by four address octets and a big-endian port for the
//!   rendezvous match message;
//! - `0x04` — KeepAlive and `0x05` — Okay carry nothing.
//!
//! `encoded` is the one mathematical definition of the format; `encode` and
//! `decode` are proved to produce exactly the encodings and to accept
//! exactly them.

use vstd::arithmetic::div_mod::{lemma_fundamental_div_mod, lemma_fundamental_div_mod_converse};
use vstd::prelude::*;

use crate::endpoint::Endpoint;
use crate::messages::{MessageView, PunchError, PunchMessage, UDPMessage};
use crate::messages::{wf_message, MAX_SERVICE_NAME_LEN};

verus! {

/// Size of the receive buffer on the control plane. A well-formed message
/// always encodes into fewer bytes than this, so an oversized or truncated
/// control datagram simply fails to decode.
pub const CONTROL_BUFFER_SIZE: usize = 128;

/// The six bytes that carry an endpoint: four address octets, then the port
/// in big-endian order.
pub open spec fn encoded_endpoint(e: Endpoint) -> Seq<u8> {
    seq![e.a, e.b, e.c, e.d, (e.port / 256) as u8, (e.port % 256) as u8]
}

/// The payload bytes of a Punch message, after the `0x03` tag.
pub open spec fn encoded_punch(p: PunchMessage) -> Seq<u8> {
    match p {
        PunchMessage::PeerHandshake1 => seq![0u8],
        PunchMessage::PeerHandshake2 => seq![1u8],
        PunchMessage::PeerHandshake3 => seq![2u8],
        PunchMessage::TURN(e) => seq![3u8] + encoded_endpoint(e),
    }
}

/// The encoding of a control message.
pub open spec fn encoded(m: MessageView) -> Seq<u8> {
    match m {
        MessageView::Client { service_name } => seq![0u8, service_name.len() as u8] + service_name,
        MessageView::Server { service_name } => seq![1u8, service_name.len() as u8] + service_name,
        MessageView::Error(PunchError::DuplicateKey) => seq![2u8, 0u8],
        MessageView::Error(PunchError::NoServer) => seq![2u8, 1u8],
        MessageView::Punch(p) => seq![3u8] + encoded_punch(p),
        MessageView::KeepAlive => seq![4u8],
        MessageView::Okay => seq![5u8],
    }
}

/// Shape facts about an encoding, keyed by its first byte. Everything a
/// decoder needs in order to recognise an encoding — or to rule one out —
/// follows from these.
pub proof fn lemma_encoded_shape(v: MessageView)
    requires
        wf_message(v),
    ensures
        1 <= encoded(v).len() <= CONTROL_BUFFER_SIZE,
        encoded(v)[0] <= 5,
        (v matches MessageView::Client { service_name }) <==> encoded(v)[0] == 0,
        (v matches MessageView::Server { service_name }) <==> encoded(v)[0] == 1,
        (v matches MessageView::Error(e)) <==> encoded(v)[0] == 2,
        (v matches MessageView::Punch(p)) <==> encoded(v)[0] == 3,
        v is KeepAlive <==> encoded(v)[0] == 4,
        v is Okay <==> encoded(v)[0] == 5,
        (v matches MessageView::Client { service_name } ==> {
            &&& encoded(v).len() == 2 + service_name.len()
            &&& service_name.len() <= MAX_SERVICE_NAME_LEN
            &&& encoded(v)[1] == service_name.len()
            &&& service_name == encoded(v).subrange(2, encoded(v).len() as int)
        }),
        (v matches MessageView::Server { service_name } ==> {
            &&& encoded(v).len() == 2 + service_name.len()
            &&& service_name.len() <= MAX_SERVICE_NAME_LEN
            &&& encoded(v)[1] == service_name.len()
            &&& service_name == encoded(v).subrange(2, encoded(v).len() as int)
        }),
        (v matches MessageView::Error(e) ==> {
            &&& encoded(v).len() == 2
            &&& encoded(v)[1] <= 1
            &&& (e is DuplicateKey <==> encoded(v)[1] == 0)
            &&& (e is NoServer <==> encoded(v)[1] == 1)
        }),
        (v matches MessageView::Punch(p) ==> {
            &&& encoded(v).len() >= 2
            &&& encoded(v)[1] <= 3
            &&& (p is PeerHandshake1 <==> encoded(v)[1] == 0)
            &&& (p is PeerHandshake2 <==> encoded(v)[1] == 1)
            &&& (p is PeerHandshake3 <==> encoded(v)[1] == 2)
            &&& ((p matches PunchMessage::TURN(e)) <==> encoded(v)[1] == 3)
            &&& (!(p matches PunchMessage::TURN(e)) ==> encoded(v).len() == 2)
            &&& (p matches PunchMessage::TURN(e) ==> {
                &&& encoded(v).len() == 8
                &&& encoded(v)[2] == e.a
                &&& encoded(v)[3] == e.b
                &&& encoded(v)[4] == e.c
                &&& encoded(v)[5] == e.d
                &&& encoded(v)[6] == e.port / 256
                &&& encoded(v)[7] == e.port % 256
            })
        }),
        v is KeepAlive ==> encoded(v).len() == 1,
        v is Okay ==> encoded(v).len() == 1,
{
    match v {
        MessageView::Client { service_name } => {
            assert(service_name =~= encoded(v).subrange(2, encoded(v).len() as int));
        },
        MessageView::Server { service_name } => {
            assert(service_name =~= encoded(v).subrange(2, encoded(v).len() as int));
        },
        MessageView::Punch(p) => {
            match p {
                PunchMessage::TURN(e) => {
                    assert(0 <= e.port / 256 < 256);
                    assert(0 <= e.port % 256 < 256);
                },
                _ => {},
            }
        },
        _ => {},
    }
}

/// The encoding is deterministic and injective: two well-formed messages
/// with the same bytes are the same message.
pub proof fn lemma_encoded_injective(v1: MessageView, v2: MessageView)
    requires
        wf_message(v1),
        wf_message(v2),
        encoded(v1) == encoded(v2),
    ensures
        v1 == v2,
{
    lemma_encoded_shape(v1);
    lemma_encoded_shape(v2);
    match (v1, v2) {
        (MessageView::Client { service_name: s1 }, MessageView::Client { service_name: s2 }) => {
            assert(s1 == encoded(v1).subrange(2, encoded(v1).len() as int));
            assert(s2 == encoded(v2).subrange(2, encoded(v2).len() as int));
        },
        (MessageView::Server { service_name: s1 }, MessageView::Server { service_name: s2 }) => {
            assert(s1 == encoded(v1).subrange(2, encoded(v1).len() as int));
            assert(s2 == encoded(v2).subrange(2, encoded(v2).len() as int));
        },
        (MessageView::Punch(PunchMessage::TURN(e1)), MessageView::Punch(PunchMessage::TURN(e2))) => {
            lemma_fundamental_div_mod(e1.port as int, 256);
            lemma_fundamental_div_mod(e2.port as int, 256);
            assert(e1.port == 256 * (e1.port / 256) + e1.port % 256);
            assert(e2.port == 256 * (e2.port / 256) + e2.port % 256);
            assert(e1 == e2);
        },
        _ => {},
    }
}

/// Appends every byte of `payload` to `out`.
fn push_bytes(out: &mut Vec<u8>, payload: &Vec<u8>)
    ensures
        final(out)@ == old(out)@ + payload@,
{
    let mut i: usize = 0;
    while i < payload.len()
        invariant
            i <= payload.len(),
            out@ == old(out)@ + payload@.subrange(0, i as int),
        decreases payload.len() - i,
    {
        out.push(payload[i]);
        i = i + 1;
        assert(out@ =~= old(out)@ + payload@.subrange(0, i as int));
    }
    assert(out@ =~= old(out)@ + payload@);
}

/// Encodes a control message into a fresh datagram payload.
pub fn encode(msg: &UDPMessage) -> (r: Vec<u8>)
    requires
        wf_message(msg@),
    ensures
        r@ == encoded(msg@),
        r@.len() <= CONTROL_BUFFER_SIZE,
{
    proof {
        lemma_encoded_shape(msg@);
    }
    let mut out: Vec<u8> = Vec::new();
    match msg {
        UDPMessage::Client { service_name } => {
            out.push(0u8);
            out.push(service_name.len() as u8);
            push_bytes(&mut out, service_name);
            assert(out@ =~= encoded(msg@));
        },
        UDPMessage::Server { service_name } => {
            out.push(1u8);
            out.push(service_name.len() as u8);
            push_bytes(&mut out, service_name);
            assert(out@ =~= encoded(msg@));
        },
        UDPMessage::Error(e) => {
            out.push(2u8);
            match e {
                PunchError::DuplicateKey => out.push(0u8),
                PunchError::NoServer => out.push(1u8),
            }
            assert(out@ =~= encoded(msg@));
        },
        UDPMessage::Punch(p) => {
            out.push(3u8);
            match p {
                PunchMessage::PeerHandshake1 => out.push(0u8),
                PunchMessage::PeerHandshake2 => out.push(1u8),
                PunchMessage::PeerHandshake3 => out.push(2u8),
                PunchMessage::TURN(e) => {
                    out.push(3u8);
                    out.push(e.a);
                    out.push(e.b);
                    out.push(e.c);
                    out.push(e.d);
                    assert(e.port / 256 < 256);
                    out.push((e.port / 256) as u8);
                    out.push((e.port % 256) as u8);
                },
            }
            assert(out@ =~= encoded(msg@));
        },
        UDPMessage::KeepAlive => {
            out.push(4u8);
            assert(out@ =~= encoded(msg@));
        },
        UDPMessage::Okay => {
            out.push(5u8);
            assert(out@ =~= encoded(msg@));
        },
    }
    out
}

/// No well-formed message encodes to `bytes`.
pub open spec fn undecodable(bytes: Seq<u8>) -> bool {
    forall|v: MessageView| wf_message(v) ==> bytes != #[trigger] encoded(v)
}

/// Copies `bytes[from..]` into a fresh vector.
fn copy_tail(bytes: &[u8], from: usize) -> (r: Vec<u8>)
    requires
        from <= bytes@.len(),
    ensures
        r@ == bytes@.subrange(from as int, bytes@.len() as int),
{
    let mut out: Vec<u8> = Vec::new();
    let mut i: usize = from;
    while i < bytes.len()
        invariant
            from <= i <= bytes@.len(),
            out@ == bytes@.subrange(from as int, i as int),
        decreases bytes@.len() - i,
    {
        out.push(bytes[i]);
        i = i + 1;
        assert(out@ =~= bytes@.subrange(from as int, i as int));
    }
    assert(out@ =~= bytes@.subrange(from as int, bytes@.len() as int));
    out
}

/// Decodes one control datagram. Returns the message exactly when the bytes
/// are the encoding of a well-formed message, and `None` on everything
/// else: an unknown tag, a truncated payload, trailing bytes, or an
/// oversized service name.
pub fn decode(bytes: &[u8]) -> (r: Option<UDPMessage>)
    ensures
        (r matches Some(m) ==> wf_message(m@) && bytes@ == encoded(m@)),
        r is None ==> undecodable(bytes@),
{
    if bytes.len() == 0 {
        proof {
            assert forall|v: MessageView| wf_message(v) implies bytes@ != encoded(v) by {
                lemma_encoded_shape(v);
            }
        }
        return None;
    }
    let tag = bytes[0];
    if tag == 0 || tag == 1 {
        if bytes.len() < 2 {
            proof {
                assert forall|v: MessageView| wf_message(v) implies bytes@ != encoded(v) by {
                    lemma_encoded_shape(v);
                }
            }
            return None;
        }
        let name_len = bytes[1] as usize;
        if name_len > MAX_SERVICE_NAME_LEN || bytes.len() != 2 + name_len {
            proof {
                assert forall|v: MessageView| wf_message(v) implies bytes@ != encoded(v) by {
                    lemma_encoded_shape(v);
                }
            }
            return None;
        }
        let service_name = copy_tail(bytes, 2);
        let msg = if tag == 0 {
            UDPMessage::Client { service_name }
        } else {
            UDPMessage::Server { service_name }
        };
        proof {
            lemma_encoded_shape(msg@);
            assert(bytes@ =~= encoded(msg@));
        }
        return Some(msg);
    }
    if tag == 2 {
        if bytes.len() != 2 || bytes[1] > 1 {
            proof {
                assert forall|v: MessageView| wf_message(v) implies bytes@ != encoded(v) by {
                    lemma_encoded_shape(v);
                }
            }
            return None;
        }
        let msg = if bytes[1] == 0 {
            UDPMessage::Error(PunchError::DuplicateKey)
        } else {
            UDPMessage::Error(PunchError::NoServer)
        };
        proof {
            assert(bytes@ =~= encoded(msg@));
        }
        return Some(msg);
    }
    if tag == 3 {
        if bytes.len() < 2 || bytes[1] > 3 {
            proof {
                assert forall|v: MessageView| wf_message(v) implies bytes@ != encoded(v) by {
                    lemma_encoded_shape(v);
                }
            }
            return None;
        }
        let sub = bytes[1];
        if sub <= 2 {
            if bytes.len() != 2 {
                proof {
                    assert forall|v: MessageView| wf_message(v) implies bytes@ != encoded(v) by {
                        lemma_encoded_shape(v);
                    }
                }
                return None;
            }
            let msg = if sub == 0 {
                UDPMessage::Punch(PunchMessage::PeerHandshake1)
            } else if sub == 1 {
                UDPMessage::Punch(PunchMessage::PeerHandshake2)
            } else {
                UDPMessage::Punch(PunchMessage::PeerHandshake3)
            };
            proof {
                assert(bytes@ =~= encoded(msg@));
            }
            return Some(msg);
        }
        if bytes.len() != 8 {
            proof {
                assert forall|v: MessageView| wf_message(v) implies bytes@ != encoded(v) by {
                    lemma_encoded_shape(v);
                }
            }
            return None;
        }
        let port: u16 = (bytes[6] as u16) * 256 + (bytes[7] as u16);
        let e = Endpoint { a: bytes[2], b: bytes[3], c: bytes[4], d: bytes[5], port };
        let msg = UDPMessage::Punch(PunchMessage::TURN(e));
        proof {
            lemma_fundamental_div_mod_converse(
                port as int,
                256,
                bytes@[6] as int,
                bytes@[7] as int,
            );
            assert(bytes@ =~= encoded(msg@));
        }
        return Some(msg);
    }
    if tag == 4 || tag == 5 {
        if bytes.len() != 1 {
            proof {
                assert forall|v: MessageView| wf_message(v) implies bytes@ != encoded(v) by {
                    lemma_encoded_shape(v);
                }
            }
            return None;
        }
        let msg = if tag == 4 {
            UDPMessage::KeepAlive
        } else {
            UDPMessage::Okay
        };
        proof {
            assert(bytes@ =~= encoded(msg@));
        }
        return Some(msg);
    }
    proof {
        assert forall|v: MessageView| wf_message(v) implies bytes@ != encoded(v) by {
            lemma_encoded_shape(v);
        }
    }
    None
}

} // verus!
