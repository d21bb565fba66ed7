//! The per-flow relay decision.
//!
//! A flow joins two UDP sockets: the punched socket to the peer and the
//! local one — the dialled destination on the exposer side, the shared
//! listener on the requester side. The loop around a flow waits on both
//! sockets and a timer at once, and asks `relay_step` what to do with
//! whatever happened first. The decision is proved to pass every payload
//! through verbatim, in the direction opposite to where it arrived, and
//! to terminate the flow on idleness.

use vstd::prelude::*;

verus! {

/// The buffer for forwarded payloads: one datagram of up to this many
/// bytes travels per step.
pub const FORWARD_BUFFER_SIZE: usize = 4096;

/// What the flow loop observed first.
#[derive(Debug)]
pub enum RelayEvent {
    /// A datagram arrived from the peer on the punched socket.
    FromPeer(Vec<u8>),
    /// A datagram arrived on the local socket.
    FromLocal(Vec<u8>),
    /// Neither socket saw a datagram within the idle timeout.
    Idle,
}

/// What the flow loop must do with it.
#[derive(Debug)]
pub enum RelayAction {
    /// Send this payload on the local socket.
    SendLocal(Vec<u8>),
    /// Send this payload on the punched socket.
    SendPeer(Vec<u8>),
    /// Tear the flow down.
    Terminate,
}

/// The relay's decision, as a spec function: the same case split
/// `relay_step` is proved to follow.
pub open spec fn relay_decision(ev: RelayEvent) -> RelayAction {
    match ev {
        RelayEvent::FromPeer(b) => RelayAction::SendLocal(b),
        RelayEvent::FromLocal(b) => RelayAction::SendPeer(b),
        RelayEvent::Idle => RelayAction::Terminate,
    }
}

/// One relay decision: a payload from the peer goes out on the local
/// socket byte for byte, a payload from the local side goes out to the
/// peer byte for byte, and an idle flow is terminated.
pub fn relay_step(ev: RelayEvent) -> (act: RelayAction)
    ensures
        act == relay_decision(ev),
        (ev matches RelayEvent::FromPeer(b) ==> act matches RelayAction::SendLocal(c) && c@ == b@),
        (ev matches RelayEvent::FromLocal(b) ==> act matches RelayAction::SendPeer(c) && c@ == b@),
        ev is Idle ==> act is Terminate,
{
    match ev {
        RelayEvent::FromPeer(b) => RelayAction::SendLocal(b),
        RelayEvent::FromLocal(b) => RelayAction::SendPeer(b),
        RelayEvent::Idle => RelayAction::Terminate,
    }
}

/// Round-trip across a healthy flow: a payload entering on one side
/// leaves unchanged on the other, so what the requester's local source
/// sends is what the exposer's destination receives, and back.
pub proof fn lemma_relay_verbatim(b1: Vec<u8>, b2: Vec<u8>)
    ensures
        ({
            let there = relay_decision(RelayEvent::FromLocal(b1));
            let back = relay_decision(RelayEvent::FromPeer(b2));
            &&& (there matches RelayAction::SendPeer(c) && c@ == b1@)
            &&& (back matches RelayAction::SendLocal(c) && c@ == b2@)
        }),
{
}

} // verus!
