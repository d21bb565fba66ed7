//! Control messages exchanged over UDP between the three roles.
//!
//! One message travels per datagram. `UDPMessage` is the executable type;
//! `MessageView` is its mathematical image, with the service identifier as a
//! byte sequence, and is what every contract speaks of.

use vstd::prelude::*;

use crate::endpoint::Endpoint;

verus! {

/// Why the rendezvous refused a request.
#[derive(Clone, Copy, Debug, PartialEq, Eq, Structural)]
pub enum PunchError {
    /// Another exposer already advertises this service name.
    DuplicateKey,
    /// No exposer advertises this service name.
    NoServer,
}

/// The hole-punching sub-messages.
#[derive(Clone, Copy, Debug, PartialEq, Eq, Structural)]
pub enum PunchMessage {
    /// First step, sent by the exposer to the requester's public endpoint.
    PeerHandshake1,
    /// Second step, sent by the requester in reply.
    PeerHandshake2,
    /// Third step, sent by the exposer to confirm.
    PeerHandshake3,
    /// Sent by the rendezvous to each matched party, carrying the public
    /// endpoint of the other party.
    TURN(Endpoint),
}

/// A control message. Fits in a 128-byte datagram when well-formed.
#[derive(Debug)]
pub enum UDPMessage {
    /// A requester asks to be matched with the exposer of this service.
    Client { service_name: Vec<u8> },
    /// An exposer advertises itself under this service name.
    Server { service_name: Vec<u8> },
    /// The rendezvous refused the preceding message.
    Error(PunchError),
    /// A hole-punching message.
    Punch(PunchMessage),
    /// Refreshes the sender's advertisement and its NAT mapping.
    KeepAlive,
    /// The rendezvous accepted the preceding message.
    Okay,
}

/// The mathematical image of a `UDPMessage`.
pub enum MessageView {
    Client { service_name: Seq<u8> },
    Server { service_name: Seq<u8> },
    Error(PunchError),
    Punch(PunchMessage),
    KeepAlive,
    Okay,
}

impl View for UDPMessage {
    type V = MessageView;

    open spec fn view(&self) -> MessageView {
        match self {
            UDPMessage::Client { service_name } => MessageView::Client { service_name: service_name@ },
            UDPMessage::Server { service_name } => MessageView::Server { service_name: service_name@ },
            UDPMessage::Error(e) => MessageView::Error(*e),
            UDPMessage::Punch(p) => MessageView::Punch(*p),
            UDPMessage::KeepAlive => MessageView::KeepAlive,
            UDPMessage::Okay => MessageView::Okay,
        }
    }
}

/// The longest service name the wire format carries. A well-formed control
/// message then always fits in a 128-byte datagram.
pub const MAX_SERVICE_NAME_LEN: usize = 120;

/// A message the wire format can carry: its service name, if it has one,
/// is short enough for the single length byte and the 128-byte buffer.
pub open spec fn wf_message(m: MessageView) -> bool {
    match m {
        MessageView::Client { service_name } => service_name.len() <= MAX_SERVICE_NAME_LEN,
        MessageView::Server { service_name } => service_name.len() <= MAX_SERVICE_NAME_LEN,
        _ => true,
    }
}

} // verus!
