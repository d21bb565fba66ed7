//! The rendezvous matcher: one decision step per control datagram.
//!
//! The event loop around it — bind, receive, send, clock — stays outside;
//! it hands each datagram's bytes, the IPv4 sender, and the current time to
//! `handle_datagram` and transmits the replies. Datagrams from IPv6 sources
//! never reach the matcher: `Endpoint` is IPv4 by construction.
//!
//! `rendezvous_post` is the full transition relation of the matcher:
//!
//! - Advertise (Server): refused with `Error(DuplicateKey)` when the name is
//!   taken, otherwise recorded and answered with `Okay`;
//! - Request (Client): when the name is registered, the record is consumed
//!   and both parties get a `Punch` carrying the other's endpoint — the
//!   exposer first — otherwise the sender gets `Error(NoServer)`;
//! - KeepAlive: refreshes the sender's records, no reply;
//! - anything else, and anything undecodable: ignored.

use vstd::prelude::*;

use crate::codec::{decode, encoded, lemma_encoded_injective, undecodable};
use crate::endpoint::Endpoint;
use crate::messages::{wf_message, MessageView, PunchError, PunchMessage, UDPMessage};
use crate::registry::{
    contains_name, index_of_name, refresh, Registry, RecordView, SWEEP_INTERVAL_MS,
};

verus! {

/// One reply datagram the matcher wants sent.
pub struct Outgoing {
    /// Where to send it.
    pub dest: Endpoint,
    /// What to send.
    pub msg: UDPMessage,
}

impl View for Outgoing {
    type V = (Endpoint, MessageView);

    open spec fn view(&self) -> (Endpoint, MessageView) {
        (self.dest, self.msg@)
    }
}

/// The replies as the contracts see them: destination and message view,
/// in sending order.
pub open spec fn replies_view(s: Seq<Outgoing>) -> Seq<(Endpoint, MessageView)> {
    Seq::new(s.len(), |i: int| s[i]@)
}

/// The matcher's transition relation: given the registry before (`pre`)
/// and after (`post`), the replies sent, the decoded message and its
/// sender, this says the step was handled as the protocol demands.
pub open spec fn rendezvous_post(
    pre: Seq<RecordView>,
    post: Seq<RecordView>,
    out: Seq<(Endpoint, MessageView)>,
    m: MessageView,
    src: Endpoint,
    now: u64,
) -> bool {
    match m {
        MessageView::Server { service_name } => {
            if contains_name(pre, service_name) {
                &&& post == pre
                &&& out == seq![(src, MessageView::Error(PunchError::DuplicateKey))]
            } else {
                &&& post == pre.push(
                    RecordView { service_name, endpoint: src, last_seen: now },
                )
                &&& out == seq![(src, MessageView::Okay)]
            }
        },
        MessageView::Client { service_name } => {
            if contains_name(pre, service_name) {
                let i = index_of_name(pre, service_name);
                let server = pre[i].endpoint;
                &&& post == pre.remove(i)
                &&& !contains_name(post, service_name)
                &&& out == seq![
                    (server, MessageView::Punch(PunchMessage::TURN(src))),
                    (src, MessageView::Punch(PunchMessage::TURN(server))),
                ]
            } else {
                &&& post == pre
                &&& out == seq![(src, MessageView::Error(PunchError::NoServer))]
            }
        },
        MessageView::KeepAlive => {
            &&& post == refresh(pre, src, now)
            &&& out == Seq::<(Endpoint, MessageView)>::empty()
        },
        _ => {
            &&& post == pre
            &&& out == Seq::<(Endpoint, MessageView)>::empty()
        },
    }
}

/// Handles one decoded control message.
pub fn handle_message(reg: &mut Registry, msg: UDPMessage, src: Endpoint, now: u64) -> (out: Vec<
    Outgoing,
>)
    requires
        old(reg).wf(),
    ensures
        final(reg).wf(),
        rendezvous_post(old(reg)@, final(reg)@, replies_view(out@), msg@, src, now),
{
    match msg {
        UDPMessage::Server { service_name } => {
            let mut out: Vec<Outgoing> = Vec::new();
            match reg.advertise(service_name, src, now) {
                Err(e) => {
                    out.push(Outgoing { dest: src, msg: UDPMessage::Error(e) });
                    proof {
                        assert(replies_view(out@) =~= seq![
                            (src, MessageView::Error(PunchError::DuplicateKey)),
                        ]);
                    }
                },
                _ => {
                    out.push(Outgoing { dest: src, msg: UDPMessage::Okay });
                    proof {
                        assert(replies_view(out@) =~= seq![(src, MessageView::Okay)]);
                    }
                },
            }
            out
        },
        UDPMessage::Client { service_name } => {
            let mut out: Vec<Outgoing> = Vec::new();
            match reg.request(&service_name) {
                Some(server) => {
                    out.push(
                        Outgoing { dest: server, msg: UDPMessage::Punch(PunchMessage::TURN(src)) },
                    );
                    out.push(
                        Outgoing { dest: src, msg: UDPMessage::Punch(PunchMessage::TURN(server)) },
                    );
                    proof {
                        assert(replies_view(out@) =~= seq![
                            (server, MessageView::Punch(PunchMessage::TURN(src))),
                            (src, MessageView::Punch(PunchMessage::TURN(server))),
                        ]);
                    }
                },
                None => {
                    out.push(Outgoing { dest: src, msg: UDPMessage::Error(PunchError::NoServer) });
                    proof {
                        assert(replies_view(out@) =~= seq![
                            (src, MessageView::Error(PunchError::NoServer)),
                        ]);
                    }
                },
            }
            out
        },
        UDPMessage::KeepAlive => {
            reg.keep_alive(src, now);
            let out: Vec<Outgoing> = Vec::new();
            proof {
                assert(replies_view(out@) =~= Seq::<(Endpoint, MessageView)>::empty());
            }
            out
        },
        _ => {
            let out: Vec<Outgoing> = Vec::new();
            proof {
                assert(replies_view(out@) =~= Seq::<(Endpoint, MessageView)>::empty());
            }
            out
        },
    }
}

/// Handles one raw control datagram: decodes it and dispatches. An
/// undecodable datagram changes nothing and is answered with nothing —
/// the caller may log it, but the matcher carries on.
pub fn handle_datagram(reg: &mut Registry, bytes: &[u8], src: Endpoint, now: u64) -> (out: Vec<
    Outgoing,
>)
    requires
        old(reg).wf(),
    ensures
        final(reg).wf(),
        forall|v: MessageView|
            wf_message(v) && bytes@ == #[trigger] encoded(v) ==> rendezvous_post(
                old(reg)@,
                final(reg)@,
                replies_view(out@),
                v,
                src,
                now,
            ),
        undecodable(bytes@) ==> final(reg)@ == old(reg)@ && out@.len() == 0,
{
    match decode(bytes) {
        Some(m) => {
            let ghost mv = m@;
            let out = handle_message(reg, m, src, now);
            proof {
                assert forall|v: MessageView|
                    wf_message(v) && bytes@ == #[trigger] encoded(v) implies rendezvous_post(
                    old(reg)@,
                    reg@,
                    replies_view(out@),
                    v,
                    src,
                    now,
                ) by {
                    lemma_encoded_injective(v, mv);
                }
            }
            out
        },
        None => {
            Vec::new()
        },
    }
}

/// Whether the periodic eviction sweep is due: more than the sweep
/// interval has passed since the last one.
pub fn sweep_due(last_sweep: u64, now: u64) -> (r: bool)
    ensures
        r <==> now > last_sweep + SWEEP_INTERVAL_MS,
{
    now > last_sweep && now - last_sweep > SWEEP_INTERVAL_MS
}

} // verus!
