//! The command protocol between an unprivileged client and a privileged peer (a driver): the
//! payload of every command and its permanent id, the status and feature sets, version
//! negotiation, the rules for fixed text buffers, and the peer-side rules for filling the
//! client's buffers.
//!
//! Variable-length buffers are never stored in a payload: the client lends them for the one call
//! that handles a command, and the payload carries only their capacity. The peer-side functions
//! take the payload as `&mut` and the buffers as borrowed slices, so a payload cannot be the
//! target of two calls at once and no buffer outlives the call that was lent it; a peer that
//! serves several clients handles each call to completion on its own payload.
use vstd::prelude::*;

pub mod command;
pub mod peer;
pub mod result;
pub mod session;
pub mod types;
pub mod utils;

pub use result::CommandResult;

verus! {

/// The protocol version this build speaks.
pub const PROTOCOL_VERSION: u32 = 0x03;

} // verus!
