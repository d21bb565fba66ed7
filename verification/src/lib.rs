//! UDP hole punching between two NAT-bound peers, coordinated by a public
//! rendezvous service.
//!
//! The crate holds the protocol logic: the wire codec for control messages,
//! the rendezvous service registry, the three-step NAT-traversal handshake
//! state machines for both roles, the requester's session bookkeeping, and
//! the per-flow relay decision. All socket work is left to the binary that
//! drives these functions.

pub mod arguments;
pub mod codec;
pub mod endpoint;
pub mod handshake;
pub mod messages;
pub mod registry;
pub mod relay;
pub mod rendezvous;
pub mod session;
