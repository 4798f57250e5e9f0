//! The inbound call engine over channels.
//!
//! An intake task copies requests from the multiplexer's request stream into
//! a bounded queue, which holds the reader back when the workers are busy.
//! Each worker takes a request from the queue, has the handler answer it,
//! and sends the response under the request's slot id.

use crate::channel::{
    after_send, bounded, bounded_packets, packet_queue_limit, recv, recv_timeout, send,
    taken_item, Pumped,
};
use crate::lifecycle::{
    join_outcome, spec_is_join_outcome, spec_join_outcome, ShutdownError,
    SERVER_SHUTDOWN_TIMEOUT_MS,
};
use crate::packet::{spec_response_to, Packet};
use crate::service::Handler;
use crossbeam::channel::{Receiver, Sender};
use vstd::prelude::*;

verus! {

/// Requests that the queue between intake and workers holds.
pub const REQUEST_QUEUE_SIZE: usize = 100;

/// Worker tasks of a server. More than one is needed wherever a handler
/// calls back into the peer.
pub const SERVER_WORKERS: usize = 4;

/// The inbound call engine of a port.
pub struct Server {
    joined: Receiver<()>,
}

/// A new server and what its tasks need.
pub struct ServerParts {
    /// The server.
    pub server: Server,
    /// Where the intake task puts requests.
    pub queue_in: Sender<Packet>,
    /// Where the workers take requests from.
    pub queue_out: Receiver<Packet>,
    /// Where the intake task says that it and the workers have ended.
    pub joined: Sender<()>,
}

impl Server {
    /// A server with an empty request queue of `REQUEST_QUEUE_SIZE` places.
    pub fn new() -> (parts: ServerParts)
        ensures
            packet_queue_limit(parts.queue_in) == REQUEST_QUEUE_SIZE,
    {
        let (joined_in, joined_out) = bounded::<()>(1);
        let (queue_in, queue_out) = bounded_packets(REQUEST_QUEUE_SIZE);
        ServerParts { server: Server { joined: joined_out }, queue_in, queue_out, joined: joined_in }
    }

    /// Waits for the intake task to say that it and the workers have ended.
    /// A timeout means that the multiplexer was not shut down first. How the
    /// wait ends is the tasks' doing; the result is what `join_outcome`
    /// makes of it.
    pub fn shutdown(self) -> (r: Result<(), ShutdownError>)
        ensures
            spec_is_join_outcome(r),
    {
        let event = recv_timeout(&self.joined, SERVER_SHUTDOWN_TIMEOUT_MS);
        let ghost seen = event;
        let r = join_outcome(event);
        proof {
            assert(r == spec_join_outcome(seen));
        }
        r
    }
}

/// The response to `request` that carries `payload`: the request's slot id,
/// the direction bit flipped.
pub fn respond(request: &Packet, payload: &[u8]) -> (response: Packet)
    ensures
        response@ == spec_response_to(request@, payload@),
{
    let mut response: Packet = Packet::new_response_from_request(request);
    response.append_data(payload);
    proof {
        assert(Seq::<u8>::empty() + payload@ =~= payload@);
    }
    response
}

/// Has `handler` answer `request` and wraps what it returns as the
/// response.
pub fn answer<H: Handler>(handler: &H, request: &Packet) -> (response: Packet)
    ensures
        response@ == spec_response_to(request@, response@.payload),
{
    let payload: Vec<u8> = handler.handle(request);
    respond(request, payload.as_slice())
}

/// The work of one worker: takes up to `budget` requests from the queue,
/// has `handler` answer each, and sends the responses as frames. It ends
/// early where the queue is closed or the channel to the peer is: as
/// `taken_item` says of what the queue gave and `after_send` of the word of
/// the channel.
pub fn serve<H: Handler>(
    handler: &H,
    ipc_send: &Sender<Vec<u8>>,
    queue: &Receiver<Packet>,
    budget: usize,
) -> (r: Pumped)
    ensures
        budget == 0 ==> r == Pumped::BudgetSpent,
        r != Pumped::Malformed,
{
    let mut left: usize = budget;
    while left > 0
        invariant
            left <= budget,
        decreases left,
    {
        let request: Packet = match taken_item(recv(queue)) {
            Ok(request) => request,
            Err(end) => {
                return end;
            },
        };
        let response: Packet = answer(handler, &request);
        match after_send(send(ipc_send, response.encode())) {
            Some(end) => {
                return end;
            },
            None => {},
        }
        left = left - 1;
    }
    Pumped::BudgetSpent
}

/// The work of the intake task: copies up to `budget` requests from the
/// request stream into the queue. It ends early where the stream is closed
/// or no worker is left: as `taken_item` says of what the stream gave and
/// `after_send` of the word of the queue.
pub fn intake(ipc_recv: &Receiver<Packet>, queue: &Sender<Packet>, budget: usize) -> (r: Pumped)
    ensures
        budget == 0 ==> r == Pumped::BudgetSpent,
        r != Pumped::Malformed,
{
    let mut left: usize = budget;
    while left > 0
        invariant
            left <= budget,
        decreases left,
    {
        let request: Packet = match taken_item(recv(ipc_recv)) {
            Ok(request) => request,
            Err(end) => {
                return end;
            },
        };
        match after_send(send(queue, request)) {
            Some(end) => {
                return end;
            },
            None => {},
        }
        left = left - 1;
    }
    Pumped::BudgetSpent
}

} // verus!
