//! The parsed command line: which role to run, on which addresses, for
//! which service.
//!
//! Parsing itself — flags, help, the process's argument list — happens
//! outside; what arrives here is the already-bound choice.

use vstd::prelude::*;

verus! {

/// Root of all command line arguments.
#[derive(Debug)]
pub struct Cli {
    /// The selected role and its arguments.
    pub command: Commands,
}

/// The three roles, with their positional arguments as given.
#[derive(Debug)]
pub enum Commands {
    /// Run as exposer: advertise `service` and forward matched flows to
    /// `forward`.
    Server { forward: String, turn: String, service: String },
    /// Run as requester: listen on `listen` and punch flows for
    /// `service`.
    Client { listen: String, turn: String, service: String },
    /// Run as the rendezvous service, listening on `listen`.
    TURN { listen: String },
}

} // verus!
