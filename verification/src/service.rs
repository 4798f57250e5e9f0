//! What the runtime asks of the code it hosts.

use crate::message::{DispatchError, MethodId};
use crate::packet::Packet;
use vstd::prelude::*;

verus! {

/// A service object as the registry sees it: something that runs a method,
/// named by its selector, on serialized arguments and gives the serialized
/// return value. Nothing is assumed of what an implementation returns.
pub trait Dispatch {
    /// Runs `method` on `args`.
    fn dispatch_and_call(&self, method: MethodId, args: &[u8]) -> Result<Vec<u8>, DispatchError>;
}

/// Whoever answers the requests that arrive at a port. The server hands each
/// request packet to it and sends back what it returns as the payload of the
/// response. Nothing is assumed of what an implementation returns.
pub trait Handler {
    /// The payload that answers `request`.
    fn handle(&self, request: &Packet) -> Vec<u8>;
}

} // verus!
