//! The NAT-traversal handshake, as two state machines.
//!
//! Each punch attempt runs on a fresh ephemeral UDP socket. The runtime
//! around a machine owns that socket and the clock; it feeds the machine one
//! event at a time — a decoded datagram, a malformed one, a timeout, a timer
//! tick, the end of a requested delay, a send failure — and performs the
//! action the machine returns. The machines themselves decide everything:
//! the registration retries with linear backoff, the exposer's keep-alive
//! and its fatal stop on a duplicate name, and the three punch steps.
//!
//! Both machines are total: `requester_next` and `exposer_next` are the
//! transition relations, and the step functions are proved to follow them
//! exactly.

use vstd::prelude::*;

use crate::endpoint::Endpoint;
use crate::messages::{MessageView, PunchError, PunchMessage, UDPMessage};
use crate::registry::{contains_name, index_of_name, RecordView};
use crate::rendezvous::rendezvous_post;

verus! {

/// How many times a role re-sends its registration to the rendezvous
/// before giving up.
pub const MAX_REGISTRATION_RETRIES: u8 = 5;

/// The grace the requester gives the exposer's first punch step to cross,
/// before sending its own (milliseconds).
pub const PRE_PUNCH_DELAY_MS: u64 = 1000;

/// How often the exposer sends a keep-alive while waiting for a match
/// (milliseconds).
pub const KEEP_ALIVE_INTERVAL_MS: u64 = 1000;

/// What the runtime observed on the handshake socket.
pub enum HandshakeEvent {
    /// A datagram arrived and decoded to this message.
    Received(UDPMessage),
    /// A datagram arrived but did not decode.
    Malformed,
    /// The bounded wait for a datagram ran out.
    TimedOut,
    /// The keep-alive timer fired.
    Tick,
    /// A delay the machine asked for has passed.
    Elapsed,
    /// A send on the socket failed.
    SendFailed,
}

/// The mathematical image of a `HandshakeEvent`.
pub enum EventView {
    Received(MessageView),
    Malformed,
    TimedOut,
    Tick,
    Elapsed,
    SendFailed,
}

impl View for HandshakeEvent {
    type V = EventView;

    open spec fn view(&self) -> EventView {
        match self {
            HandshakeEvent::Received(m) => EventView::Received(m@),
            HandshakeEvent::Malformed => EventView::Malformed,
            HandshakeEvent::TimedOut => EventView::TimedOut,
            HandshakeEvent::Tick => EventView::Tick,
            HandshakeEvent::Elapsed => EventView::Elapsed,
            HandshakeEvent::SendFailed => EventView::SendFailed,
        }
    }
}

/// What a machine asks the runtime to do next.
#[derive(Clone, Copy, Debug, PartialEq, Eq, Structural)]
pub enum HandshakeAction {
    /// Send the role's registration message to the rendezvous, then wait
    /// for a reply with a bounded deadline.
    SendRegistration,
    /// Sleep this many seconds, then deliver `Elapsed`.
    Sleep { seconds: u64 },
    /// Send a keep-alive to the rendezvous.
    SendKeepAlive,
    /// Connect the socket to the peer and send the first punch step.
    SendStep1 { peer: Endpoint },
    /// Send the second punch step to the peer.
    SendStep2 { peer: Endpoint },
    /// Send the third punch step to the peer; the handshake is complete.
    SendStep3 { peer: Endpoint },
    /// Keep waiting for the next event.
    Wait,
    /// Stop: the machine is in a terminal state.
    Stop,
}

/// The requester's handshake states.
#[derive(Clone, Copy, Debug, PartialEq, Eq, Structural)]
pub enum RequesterState {
    /// Request sent to the rendezvous; awaiting the match.
    Contacting { retries: u8 },
    /// Sleeping before re-sending the Request.
    Backoff { retries: u8 },
    /// Peer learned; giving its first punch step time to cross.
    Observing { peer: Endpoint },
    /// Second punch step sent; awaiting the third.
    AwaitingConfirm { peer: Endpoint },
    /// Handshake done; the socket belongs to the flow now.
    Complete { peer: Endpoint },
    /// Handshake abandoned; the socket is released.
    Failed,
}

/// The requester's first state and action: send the Request and wait.
pub fn requester_init() -> (r: (RequesterState, HandshakeAction))
    ensures
        r == (RequesterState::Contacting { retries: 0u8 }, HandshakeAction::SendRegistration),
{
    (RequesterState::Contacting { retries: 0 }, HandshakeAction::SendRegistration)
}

/// A failed registration attempt: give up after the retry budget,
/// otherwise back off linearly — one second more per retry — and try
/// again.
pub open spec fn requester_retry(retries: u8) -> (RequesterState, HandshakeAction) {
    if retries >= MAX_REGISTRATION_RETRIES {
        (RequesterState::Failed, HandshakeAction::Stop)
    } else {
        (
            RequesterState::Backoff { retries: (retries + 1) as u8 },
            HandshakeAction::Sleep { seconds: (retries + 1) as u64 },
        )
    }
}

/// The requester's transition relation.
pub open spec fn requester_next(s: RequesterState, e: EventView) -> (RequesterState, HandshakeAction) {
    match s {
        RequesterState::Contacting { retries } => match e {
            EventView::Received(MessageView::Punch(PunchMessage::TURN(peer))) => (
                RequesterState::Observing { peer },
                HandshakeAction::Sleep { seconds: PRE_PUNCH_DELAY_MS / 1000 },
            ),
            EventView::Received(m) => requester_retry(retries),
            EventView::Malformed => requester_retry(retries),
            EventView::TimedOut => requester_retry(retries),
            EventView::SendFailed => (RequesterState::Failed, HandshakeAction::Stop),
            _ => (s, HandshakeAction::Wait),
        },
        RequesterState::Backoff { retries } => match e {
            EventView::Elapsed => (
                RequesterState::Contacting { retries },
                HandshakeAction::SendRegistration,
            ),
            EventView::SendFailed => (RequesterState::Failed, HandshakeAction::Stop),
            _ => (s, HandshakeAction::Wait),
        },
        RequesterState::Observing { peer } => match e {
            EventView::Elapsed => (
                RequesterState::AwaitingConfirm { peer },
                HandshakeAction::SendStep2 { peer },
            ),
            EventView::SendFailed => (RequesterState::Failed, HandshakeAction::Stop),
            _ => (s, HandshakeAction::Wait),
        },
        RequesterState::AwaitingConfirm { peer } => match e {
            EventView::Received(MessageView::Punch(PunchMessage::PeerHandshake1)) => (
                s,
                HandshakeAction::Wait,
            ),
            EventView::Received(MessageView::Punch(PunchMessage::PeerHandshake3)) => (
                RequesterState::Complete { peer },
                HandshakeAction::Stop,
            ),
            EventView::Tick => (s, HandshakeAction::Wait),
            EventView::Elapsed => (s, HandshakeAction::Wait),
            _ => (RequesterState::Failed, HandshakeAction::Stop),
        },
        RequesterState::Complete { peer } => (s, HandshakeAction::Stop),
        RequesterState::Failed => (s, HandshakeAction::Stop),
    }
}

/// One step of the requester's machine.
pub fn requester_step(s: RequesterState, e: &HandshakeEvent) -> (r: (
    RequesterState,
    HandshakeAction,
))
    ensures
        r == requester_next(s, e@),
{
    match s {
        RequesterState::Contacting { retries } => match e {
            HandshakeEvent::Received(UDPMessage::Punch(PunchMessage::TURN(peer))) => (
                RequesterState::Observing { peer: *peer },
                HandshakeAction::Sleep { seconds: PRE_PUNCH_DELAY_MS / 1000 },
            ),
            HandshakeEvent::Received(_) | HandshakeEvent::Malformed | HandshakeEvent::TimedOut => {
                if retries >= MAX_REGISTRATION_RETRIES {
                    (RequesterState::Failed, HandshakeAction::Stop)
                } else {
                    (
                        RequesterState::Backoff { retries: retries + 1 },
                        HandshakeAction::Sleep { seconds: (retries + 1) as u64 },
                    )
                }
            },
            HandshakeEvent::SendFailed => (RequesterState::Failed, HandshakeAction::Stop),
            _ => (s, HandshakeAction::Wait),
        },
        RequesterState::Backoff { retries } => match e {
            HandshakeEvent::Elapsed => (
                RequesterState::Contacting { retries },
                HandshakeAction::SendRegistration,
            ),
            HandshakeEvent::SendFailed => (RequesterState::Failed, HandshakeAction::Stop),
            _ => (s, HandshakeAction::Wait),
        },
        RequesterState::Observing { peer } => match e {
            HandshakeEvent::Elapsed => (
                RequesterState::AwaitingConfirm { peer },
                HandshakeAction::SendStep2 { peer },
            ),
            HandshakeEvent::SendFailed => (RequesterState::Failed, HandshakeAction::Stop),
            _ => (s, HandshakeAction::Wait),
        },
        RequesterState::AwaitingConfirm { peer } => match e {
            HandshakeEvent::Received(UDPMessage::Punch(PunchMessage::PeerHandshake1)) => (
                s,
                HandshakeAction::Wait,
            ),
            HandshakeEvent::Received(UDPMessage::Punch(PunchMessage::PeerHandshake3)) => (
                RequesterState::Complete { peer },
                HandshakeAction::Stop,
            ),
            HandshakeEvent::Tick => (s, HandshakeAction::Wait),
            HandshakeEvent::Elapsed => (s, HandshakeAction::Wait),
            _ => (RequesterState::Failed, HandshakeAction::Stop),
        },
        RequesterState::Complete { peer: _ } => (s, HandshakeAction::Stop),
        RequesterState::Failed => (s, HandshakeAction::Stop),
    }
}

/// The exposer's handshake states.
#[derive(Clone, Copy, Debug, PartialEq, Eq, Structural)]
pub enum ExposerState {
    /// Advertisement sent to the rendezvous; awaiting the acknowledgement.
    Registering { retries: u8 },
    /// Sleeping before re-sending the advertisement.
    Backoff { retries: u8 },
    /// Registered; keep-alives flow while awaiting a match.
    KeepingAlive,
    /// First punch step sent to the matched requester; awaiting the second.
    Punching { peer: Endpoint },
    /// Handshake done; the socket belongs to the flow now.
    Complete { peer: Endpoint },
    /// Handshake abandoned; the socket is released.
    Failed,
    /// Another exposer holds this service name; the process must stop.
    Rejected,
}

/// The exposer's first state and action: send the advertisement and wait.
pub fn exposer_init() -> (r: (ExposerState, HandshakeAction))
    ensures
        r == (ExposerState::Registering { retries: 0u8 }, HandshakeAction::SendRegistration),
{
    (ExposerState::Registering { retries: 0 }, HandshakeAction::SendRegistration)
}

/// A failed registration attempt, exposer side: same budget and backoff
/// as the requester's.
pub open spec fn exposer_retry(retries: u8) -> (ExposerState, HandshakeAction) {
    if retries >= MAX_REGISTRATION_RETRIES {
        (ExposerState::Failed, HandshakeAction::Stop)
    } else {
        (
            ExposerState::Backoff { retries: (retries + 1) as u8 },
            HandshakeAction::Sleep { seconds: (retries + 1) as u64 },
        )
    }
}

/// The exposer's transition relation.
pub open spec fn exposer_next(s: ExposerState, e: EventView) -> (ExposerState, HandshakeAction) {
    match s {
        ExposerState::Registering { retries } => match e {
            EventView::Received(MessageView::Okay) => (
                ExposerState::KeepingAlive,
                HandshakeAction::Wait,
            ),
            EventView::Received(MessageView::Error(PunchError::DuplicateKey)) => (
                ExposerState::Rejected,
                HandshakeAction::Stop,
            ),
            EventView::Received(MessageView::Punch(PunchMessage::TURN(peer))) => (
                ExposerState::Punching { peer },
                HandshakeAction::SendStep1 { peer },
            ),
            EventView::Received(m) => exposer_retry(retries),
            EventView::Malformed => exposer_retry(retries),
            EventView::TimedOut => exposer_retry(retries),
            EventView::SendFailed => (ExposerState::Failed, HandshakeAction::Stop),
            _ => (s, HandshakeAction::Wait),
        },
        ExposerState::Backoff { retries } => match e {
            EventView::Elapsed => (
                ExposerState::Registering { retries },
                HandshakeAction::SendRegistration,
            ),
            EventView::SendFailed => (ExposerState::Failed, HandshakeAction::Stop),
            _ => (s, HandshakeAction::Wait),
        },
        ExposerState::KeepingAlive => match e {
            EventView::Tick => (s, HandshakeAction::SendKeepAlive),
            EventView::Received(MessageView::Punch(PunchMessage::TURN(peer))) => (
                ExposerState::Punching { peer },
                HandshakeAction::SendStep1 { peer },
            ),
            EventView::Received(MessageView::Okay) => (s, HandshakeAction::Wait),
            EventView::Received(MessageView::KeepAlive) => (s, HandshakeAction::Wait),
            EventView::Elapsed => (s, HandshakeAction::Wait),
            _ => (ExposerState::Failed, HandshakeAction::Stop),
        },
        ExposerState::Punching { peer } => match e {
            EventView::Received(MessageView::Punch(PunchMessage::PeerHandshake2)) => (
                ExposerState::Complete { peer },
                HandshakeAction::SendStep3 { peer },
            ),
            EventView::Tick => (s, HandshakeAction::Wait),
            EventView::Elapsed => (s, HandshakeAction::Wait),
            _ => (ExposerState::Failed, HandshakeAction::Stop),
        },
        ExposerState::Complete { peer } => (s, HandshakeAction::Stop),
        ExposerState::Failed => (s, HandshakeAction::Stop),
        ExposerState::Rejected => (s, HandshakeAction::Stop),
    }
}

/// One step of the exposer's machine.
pub fn exposer_step(s: ExposerState, e: &HandshakeEvent) -> (r: (ExposerState, HandshakeAction))
    ensures
        r == exposer_next(s, e@),
{
    match s {
        ExposerState::Registering { retries } => match e {
            HandshakeEvent::Received(UDPMessage::Okay) => (
                ExposerState::KeepingAlive,
                HandshakeAction::Wait,
            ),
            HandshakeEvent::Received(UDPMessage::Error(PunchError::DuplicateKey)) => (
                ExposerState::Rejected,
                HandshakeAction::Stop,
            ),
            HandshakeEvent::Received(UDPMessage::Punch(PunchMessage::TURN(peer))) => (
                ExposerState::Punching { peer: *peer },
                HandshakeAction::SendStep1 { peer: *peer },
            ),
            HandshakeEvent::Received(_) | HandshakeEvent::Malformed | HandshakeEvent::TimedOut => {
                if retries >= MAX_REGISTRATION_RETRIES {
                    (ExposerState::Failed, HandshakeAction::Stop)
                } else {
                    (
                        ExposerState::Backoff { retries: retries + 1 },
                        HandshakeAction::Sleep { seconds: (retries + 1) as u64 },
                    )
                }
            },
            HandshakeEvent::SendFailed => (ExposerState::Failed, HandshakeAction::Stop),
            _ => (s, HandshakeAction::Wait),
        },
        ExposerState::Backoff { retries } => match e {
            HandshakeEvent::Elapsed => (
                ExposerState::Registering { retries },
                HandshakeAction::SendRegistration,
            ),
            HandshakeEvent::SendFailed => (ExposerState::Failed, HandshakeAction::Stop),
            _ => (s, HandshakeAction::Wait),
        },
        ExposerState::KeepingAlive => match e {
            HandshakeEvent::Tick => (s, HandshakeAction::SendKeepAlive),
            HandshakeEvent::Received(UDPMessage::Punch(PunchMessage::TURN(peer))) => (
                ExposerState::Punching { peer: *peer },
                HandshakeAction::SendStep1 { peer: *peer },
            ),
            HandshakeEvent::Received(UDPMessage::Okay) => (s, HandshakeAction::Wait),
            HandshakeEvent::Received(UDPMessage::KeepAlive) => (s, HandshakeAction::Wait),
            HandshakeEvent::Elapsed => (s, HandshakeAction::Wait),
            _ => (ExposerState::Failed, HandshakeAction::Stop),
        },
        ExposerState::Punching { peer } => match e {
            HandshakeEvent::Received(UDPMessage::Punch(PunchMessage::PeerHandshake2)) => (
                ExposerState::Complete { peer },
                HandshakeAction::SendStep3 { peer },
            ),
            HandshakeEvent::Tick => (s, HandshakeAction::Wait),
            HandshakeEvent::Elapsed => (s, HandshakeAction::Wait),
            _ => (ExposerState::Failed, HandshakeAction::Stop),
        },
        ExposerState::Complete { peer: _ } => (s, HandshakeAction::Stop),
        ExposerState::Failed => (s, HandshakeAction::Stop),
        ExposerState::Rejected => (s, HandshakeAction::Stop),
    }
}

/// Handshake symmetry: when the rendezvous matches a requester at
/// `req_ep` with an exposer at `exp_ep`, and the punch datagrams are
/// delivered, both machines complete, each holding the other's public
/// endpoint — the endpoint its socket is then connected to.
///
/// The trace: each machine receives its match message; the requester
/// waits out its grace delay and sends the second step; the exposer
/// receives it and answers with the third; the requester receives that.
pub proof fn lemma_handshake_symmetry(req_ep: Endpoint, exp_ep: Endpoint, retries: u8)
    ensures
        ({
            let (e1, a1) = exposer_next(
                ExposerState::KeepingAlive,
                EventView::Received(MessageView::Punch(PunchMessage::TURN(req_ep))),
            );
            let (r1, b1) = requester_next(
                RequesterState::Contacting { retries },
                EventView::Received(MessageView::Punch(PunchMessage::TURN(exp_ep))),
            );
            let (r2, b2) = requester_next(r1, EventView::Elapsed);
            let (e2, a2) = exposer_next(
                e1,
                EventView::Received(MessageView::Punch(PunchMessage::PeerHandshake2)),
            );
            let (r3, b3) = requester_next(
                r2,
                EventView::Received(MessageView::Punch(PunchMessage::PeerHandshake3)),
            );
            &&& a1 == HandshakeAction::SendStep1 { peer: req_ep }
            &&& b2 == HandshakeAction::SendStep2 { peer: exp_ep }
            &&& a2 == HandshakeAction::SendStep3 { peer: req_ep }
            &&& e2 == ExposerState::Complete { peer: req_ep }
            &&& r3 == RequesterState::Complete { peer: exp_ep }
        }),
{
}

/// A successful match connects the two parties: when the rendezvous
/// handles a Request for a registered service, its two replies carry the
/// requester's public endpoint to the exposer and the exposer's to the
/// requester; delivering them, and then the punch steps, completes both
/// machines, each holding the other's endpoint — the endpoint its
/// socket is connected to from then on.
pub proof fn lemma_match_completes_handshake(
    pre: Seq<RecordView>,
    post: Seq<RecordView>,
    out: Seq<(Endpoint, MessageView)>,
    name: Seq<u8>,
    req_ep: Endpoint,
    now: u64,
    retries: u8,
)
    requires
        contains_name(pre, name),
        rendezvous_post(pre, post, out, MessageView::Client { service_name: name }, req_ep, now),
    ensures
        ({
            let exp_ep = pre[index_of_name(pre, name)].endpoint;
            &&& out == seq![
                (exp_ep, MessageView::Punch(PunchMessage::TURN(req_ep))),
                (req_ep, MessageView::Punch(PunchMessage::TURN(exp_ep))),
            ]
            &&& !contains_name(post, name)
            &&& ({
                let (e1, a1) = exposer_next(
                    ExposerState::KeepingAlive,
                    EventView::Received(out[0].1),
                );
                let (r1, b1) = requester_next(
                    RequesterState::Contacting { retries },
                    EventView::Received(out[1].1),
                );
                let (r2, b2) = requester_next(r1, EventView::Elapsed);
                let (e2, a2) = exposer_next(
                    e1,
                    EventView::Received(MessageView::Punch(PunchMessage::PeerHandshake2)),
                );
                let (r3, b3) = requester_next(
                    r2,
                    EventView::Received(MessageView::Punch(PunchMessage::PeerHandshake3)),
                );
                &&& e2 == ExposerState::Complete { peer: req_ep }
                &&& r3 == RequesterState::Complete { peer: exp_ep }
            })
        }),
{
    let exp_ep = pre[index_of_name(pre, name)].endpoint;
    lemma_handshake_symmetry(req_ep, exp_ep, retries);
}

/// The requester also completes in the full-cone case, where the
/// exposer's first punch step reaches it before the third: the first
/// step leaves it waiting, and the third still completes it.
pub proof fn lemma_full_cone_tolerated(peer: Endpoint)
    ensures
        ({
            let s = RequesterState::AwaitingConfirm { peer };
            let (s1, a1) = requester_next(
                s,
                EventView::Received(MessageView::Punch(PunchMessage::PeerHandshake1)),
            );
            let (s2, a2) = requester_next(
                s1,
                EventView::Received(MessageView::Punch(PunchMessage::PeerHandshake3)),
            );
            &&& s1 == s
            &&& a1 == HandshakeAction::Wait
            &&& s2 == RequesterState::Complete { peer }
        }),
{
}

/// Registration gives up only after the whole retry budget: starting
/// from `Contacting` with no retries spent, each failed attempt backs
/// off one second longer than the last — 1 through 5 — and only the
/// sixth failure abandons the flow.
pub proof fn lemma_retry_budget(retries: u8)
    requires
        retries < MAX_REGISTRATION_RETRIES,
    ensures
        ({
            let (s1, a1) = requester_next(
                RequesterState::Contacting { retries },
                EventView::TimedOut,
            );
            &&& s1 == RequesterState::Backoff { retries: (retries + 1) as u8 }
            &&& a1 == HandshakeAction::Sleep { seconds: (retries + 1) as u64 }
            &&& requester_next(s1, EventView::Elapsed) == (
                RequesterState::Contacting { retries: (retries + 1) as u8 },
                HandshakeAction::SendRegistration,
            )
        }),
        requester_next(
            RequesterState::Contacting { retries: MAX_REGISTRATION_RETRIES },
            EventView::TimedOut,
        ) == (RequesterState::Failed, HandshakeAction::Stop),
{
}

} // verus!
