//! The port as callers and proxies see it: outbound calls, imports of the
//! peer's services, and the switch that stops proxies from sending delete
//! requests during teardown.

use crate::client::{response_view, spec_call_outcome, Client, ClientParts};
use crate::channel::{packet_queue_limit, CHANNEL_CAPACITY_LIMIT};
use crate::lifecycle::{spec_is_join_outcome, ShutdownError, Timed};
use crate::message::{
    export_root_request, parse_reply, spec_parse_reply, DispatchError, HandleToExchange, MethodId,
};
use crate::packet::{Packet, PacketView, RESPONSE_BIT};
use crate::proxy::{imported_view, spec_import, spec_import_reply, ImportError, Proxy};
use crate::slots::CallError;
use crossbeam::channel::Sender;
use vstd::prelude::*;

verus! {

/// Why an operation on a remote service failed.
#[derive(Clone, Copy, Debug, PartialEq, Eq, Structural)]
pub enum RemoteError {
    /// The call did not go through.
    Call(CallError),
    /// The peer answered with a failure.
    Failed(DispatchError),
    /// The peer's handle was issued under another epoch than its current
    /// one.
    StaleEpoch,
}

/// One endpoint of a connection, as callers and proxies see it.
pub struct Port {
    client: Client,
    peer_epoch: u32,
    gc_enabled: bool,
}

/// A new port and what the response task of its client needs.
pub struct PortParts {
    /// The port.
    pub port: Port,
    /// The sending ends of the client's mailboxes, by slot id.
    pub mailboxes: Vec<Sender<Packet>>,
    /// Where the response task says that it has ended.
    pub joined: Sender<()>,
}

/// What a caller makes of the response to an invocation: the return value,
/// or the failure of the call, or the failure that the peer reported.
pub open spec fn spec_conclude_invoke(response: Result<Seq<u8>, CallError>) -> Result<
    Seq<u8>,
    RemoteError,
> {
    match response {
        Err(e) => Err(RemoteError::Call(e)),
        Ok(reply) => match spec_parse_reply(reply) {
            Ok(value) => Ok(value),
            Err(e) => Err(RemoteError::Failed(e)),
        },
    }
}

/// What a caller makes of the response to a request for a handle, when the
/// peer's current epoch is `peer_epoch`.
pub open spec fn spec_conclude_import(response: Result<Seq<u8>, CallError>, peer_epoch: u32)
    -> Result<HandleToExchange, RemoteError> {
    match response {
        Err(e) => Err(RemoteError::Call(e)),
        Ok(reply) => match spec_import_reply(reply, peer_epoch) {
            Ok(handle) => Ok(handle),
            Err(ImportError::Failed(e)) => Err(RemoteError::Failed(e)),
            Err(ImportError::StaleEpoch) => Err(RemoteError::StaleEpoch),
        },
    }
}

/// The view of the outcome of an invocation.
pub open spec fn invoked_view(r: Result<Vec<u8>, RemoteError>) -> Result<Seq<u8>, RemoteError> {
    match r {
        Ok(value) => Ok(value@),
        Err(e) => Err(e),
    }
}

/// The handle behind the proxy that a request for a handle led to, or the
/// reason there is none.
pub open spec fn concluded_view(r: Result<Proxy, RemoteError>) -> Result<
    HandleToExchange,
    RemoteError,
> {
    match r {
        Ok(proxy) => Ok(proxy@),
        Err(e) => Err(e),
    }
}

/// Whether `r` is what a caller makes of some response to an invocation.
pub open spec fn spec_is_invoke_outcome(r: Result<Seq<u8>, RemoteError>) -> bool {
    exists|response: Result<Seq<u8>, CallError>| r == #[trigger] spec_conclude_invoke(response)
}

/// Whether `r` is what a caller makes of some response to a request for a
/// handle, when the peer's current epoch is `peer_epoch`.
pub open spec fn spec_is_import_outcome(r: Result<HandleToExchange, RemoteError>, peer_epoch: u32)
    -> bool {
    exists|response: Result<Seq<u8>, CallError>|
        r == #[trigger] spec_conclude_import(response, peer_epoch)
}

/// An invocation never ends as a stale epoch, and a request for a handle
/// never gives a handle of another epoch than the peer's current one.
pub proof fn lemma_outcomes_keep_the_epoch(
    invoked: Result<Seq<u8>, RemoteError>,
    imported: Result<HandleToExchange, RemoteError>,
    peer_epoch: u32,
)
    ensures
        spec_is_invoke_outcome(invoked) ==> invoked != Err::<Seq<u8>, RemoteError>(
            RemoteError::StaleEpoch,
        ),
        spec_is_import_outcome(imported, peer_epoch) ==> (imported matches Ok(handle)
            ==> handle.epoch == peer_epoch),
{
}

/// What a caller makes of the response to an invocation.
pub fn conclude_invoke(response: Result<Vec<u8>, CallError>) -> (r: Result<Vec<u8>, RemoteError>)
    ensures
        invoked_view(r) == spec_conclude_invoke(response_view(response)),
{
    match response {
        Err(e) => Err(RemoteError::Call(e)),
        Ok(reply) => match parse_reply(reply.as_slice()) {
            Ok(value) => Ok(value),
            Err(e) => Err(RemoteError::Failed(e)),
        },
    }
}

/// What a caller makes of the response to a request for a handle.
pub fn conclude_import(response: Result<Vec<u8>, CallError>, peer_epoch: u32) -> (r: Result<
    Proxy,
    RemoteError,
>)
    ensures
        concluded_view(r) == spec_conclude_import(response_view(response), peer_epoch),
{
    match response {
        Err(e) => Err(RemoteError::Call(e)),
        Ok(reply) => match Proxy::import_reply(reply.as_slice(), peer_epoch) {
            Ok(proxy) => Ok(proxy),
            Err(ImportError::Failed(e)) => Err(RemoteError::Failed(e)),
            Err(ImportError::StaleEpoch) => Err(RemoteError::StaleEpoch),
        },
    }
}

impl Port {
    /// Whether proxies of this port send delete requests when released.
    pub closed spec fn spec_gc_enabled(&self) -> bool {
        self.gc_enabled
    }

    /// The epoch under which the peer issues its handles.
    pub closed spec fn spec_peer_epoch(&self) -> u32 {
        self.peer_epoch
    }

    /// Number of call slots that the client's free pool was made to hold.
    pub closed spec fn spec_capacity(&self) -> nat {
        self.client.spec_capacity()
    }

    /// Longest wait of a call for a free slot, in milliseconds.
    pub closed spec fn spec_slot_timeout_ms(&self) -> u64 {
        self.client.spec_slot_timeout_ms()
    }

    /// The send half of the channel to the peer, into which the requests
    /// go.
    pub closed spec fn spec_ipc_send(&self) -> Sender<Vec<u8>> {
        self.client.spec_ipc_send()
    }

    /// A port whose client has `capacity` call slots, sends its frames into
    /// `ipc_send` and waits at most `slot_timeout_ms` milliseconds for a
    /// free slot. `peer_epoch` is the epoch under which the peer issues its
    /// handles. Garbage collection starts switched on. The mailboxes come
    /// back in slot order, one for each slot, and each holds one packet.
    /// Slot ids must fit in 31 bits, and the pool the address space.
    pub fn new(ipc_send: Sender<Vec<u8>>, capacity: u32, slot_timeout_ms: u64, peer_epoch: u32) -> (parts:
        PortParts)
        requires
            capacity <= RESPONSE_BIT,
            capacity <= CHANNEL_CAPACITY_LIMIT,
        ensures
            parts.port.spec_gc_enabled(),
            parts.port.spec_peer_epoch() == peer_epoch,
            parts.port.spec_capacity() == capacity,
            parts.port.spec_slot_timeout_ms() == slot_timeout_ms,
            parts.port.spec_ipc_send() == ipc_send,
            parts.mailboxes@.len() == capacity,
            forall|i: int|
                0 <= i < capacity ==> packet_queue_limit(#[trigger] parts.mailboxes@[i]) == 1,
    {
        let ClientParts { client, mailboxes, joined } = Client::new(
            ipc_send,
            capacity,
            slot_timeout_ms,
        );
        PortParts { port: Port { client, peer_epoch, gc_enabled: true }, mailboxes, joined }
    }

    /// Sends `payload` to the peer as a request and gives the payload of
    /// the response. It fails as too many in flight where no call slot
    /// comes free in time, and as peer gone where the channel is closed.
    /// How the wait for a slot ends, whether the request goes out and what
    /// comes back is the doing of other tasks and of the peer; the call
    /// ends as `spec_call_outcome` says of these three.
    ///
    /// The clause names the rule and excludes no result, as
    /// `lemma_any_call_outcome` shows. What binds the call is the exact
    /// contracts of `slot_wait` and `exchange_outcome` in the client.
    pub fn call(&self, payload: Vec<u8>) -> (r: Result<Vec<u8>, CallError>)
        ensures
            exists|w: Timed<()>, s: bool, p: Option<PacketView>|
                response_view(r) == #[trigger] spec_call_outcome(w, s, p),
    {
        self.client.call(payload)
    }

    /// Whether proxies of this port send delete requests when released.
    pub fn gc_enabled(&self) -> (enabled: bool)
        ensures
            enabled == self.spec_gc_enabled(),
    {
        self.gc_enabled
    }

    /// The epoch under which the peer issues its handles.
    pub fn peer_epoch(&self) -> (epoch: u32)
        ensures
            epoch == self.spec_peer_epoch(),
    {
        self.peer_epoch
    }

    /// Switches garbage collection off, for good: from now on no proxy of
    /// this port sends a delete request. Both peers do this before they go
    /// down together.
    pub fn disable_gc(&mut self)
        ensures
            !final(self).spec_gc_enabled(),
            final(self).spec_peer_epoch() == old(self).spec_peer_epoch(),
            final(self).spec_capacity() == old(self).spec_capacity(),
            final(self).spec_slot_timeout_ms() == old(self).spec_slot_timeout_ms(),
            final(self).spec_ipc_send() == old(self).spec_ipc_send(),
    {
        self.gc_enabled = false;
    }

    /// Turns a handle that the peer issued into a proxy.
    pub fn import(&self, handle: HandleToExchange) -> (r: Result<Proxy, ImportError>)
        ensures
            imported_view(r) == spec_import(handle, self.spec_peer_epoch()),
    {
        Proxy::import(handle, self.peer_epoch)
    }

    /// Asks the peer for its root service named `name` and gives the proxy
    /// for it. What the peer answers is its own doing; the outcome is what
    /// `conclude_import` makes of that answer under the peer's epoch, so a
    /// proxy that comes back carries that epoch.
    pub fn import_root(&self, name: &str) -> (r: Result<Proxy, RemoteError>)
        ensures
            spec_is_import_outcome(concluded_view(r), self.spec_peer_epoch()),
            r matches Ok(proxy) ==> proxy@.epoch == self.spec_peer_epoch(),
    {
        let response = self.call(export_root_request(name.as_bytes()));
        let ghost answered = response_view(response);
        let r = conclude_import(response, self.peer_epoch);
        proof {
            assert(concluded_view(r) == spec_conclude_import(answered, self.spec_peer_epoch()));
        }
        r
    }

    /// Invokes `method` on `args` at the service behind `proxy`. What the
    /// peer answers is its own doing; the outcome is what `conclude_invoke`
    /// makes of that answer, so it is never a stale epoch.
    pub fn invoke(&self, proxy: &Proxy, method: MethodId, args: &[u8]) -> (r: Result<
        Vec<u8>,
        RemoteError,
    >)
        ensures
            spec_is_invoke_outcome(invoked_view(r)),
            r != Err::<Vec<u8>, RemoteError>(RemoteError::StaleEpoch),
    {
        let response = self.call(proxy.request(method, args));
        let ghost answered = response_view(response);
        let r = conclude_invoke(response);
        proof {
            assert(invoked_view(r) == spec_conclude_invoke(answered));
        }
        r
    }

    /// Gives `proxy` up. With garbage collection on, the delete request goes
    /// to the peer and the result says that it was confirmed; with it off,
    /// nothing is sent.
    pub fn release(&self, proxy: Proxy) -> (r: Result<bool, CallError>)
        ensures
            !self.spec_gc_enabled() ==> r == Ok::<bool, CallError>(false),
            self.spec_gc_enabled() ==> r != Ok::<bool, CallError>(false),
    {
        match proxy.release(self.gc_enabled) {
            None => Ok(false),
            Some(request) => match self.call(request) {
                Ok(_) => Ok(true),
                Err(e) => Err(e),
            },
        }
    }

    /// Waits for the client's response task to end. How the wait ends is
    /// the task's doing; the result is what `join_outcome` makes of it.
    pub fn shutdown(&self) -> (r: Result<(), ShutdownError>)
        ensures
            spec_is_join_outcome(r),
    {
        self.client.shutdown()
    }
}

} // verus!
