//! The outbound call engine over channels.
//!
//! What `CallTable` states for one task is carried out here by many: the
//! free pool is a channel of call slots, as large as there are slots. Each
//! slot owns the receiving end of its mailbox, a channel of one packet. The
//! response task owns the sending ends and puts each response into the
//! mailbox of the slot whose id it carries.

use crate::channel::{
    after_send, bounded, bounded_packets, bounded_slots, packet_queue_limit, recv, recv_timeout,
    send, slot_pool_limit, spec_after_send, taken_item, Pumped, CHANNEL_CAPACITY_LIMIT,
};
use crate::lifecycle::{
    join_outcome, spec_is_join_outcome, spec_join_outcome, ShutdownError, Timed,
    CLIENT_SHUTDOWN_TIMEOUT_MS,
};
use crate::multiplex::{spec_route, Route};
use crate::packet::{
    lemma_decode_encode, lemma_response_echoes_slot, spec_decode, spec_encode, spec_request,
    spec_response_to, Packet, PacketView, SlotId, RESPONSE_BIT,
};
use crate::slots::{
    spec_begin, spec_close, spec_deliver, spec_fresh, spec_take, CallError, CallTableView,
    DeliveryError, PollView,
};
use crossbeam::channel::{Receiver, Sender};
use vstd::prelude::*;

verus! {

/// One call slot: its id and the receiving end of its mailbox.
pub struct CallSlot {
    id: SlotId,
    response: Receiver<Packet>,
}

impl CallSlot {
    /// The id that the slot carries.
    pub closed spec fn spec_id(&self) -> u32 {
        self.id@
    }

    /// The id that the slot carries.
    pub fn id(&self) -> (id: SlotId)
        ensures
            id@ == self.spec_id(),
    {
        self.id
    }
}

/// The outbound call engine of a port.
pub struct Client {
    free_in: Sender<CallSlot>,
    free_out: Receiver<CallSlot>,
    ipc_send: Sender<Vec<u8>>,
    joined: Receiver<()>,
    slot_timeout_ms: u64,
}

/// A new client and what its response task needs.
pub struct ClientParts {
    /// The client.
    pub client: Client,
    /// The sending ends of the mailboxes, by slot id.
    pub mailboxes: Vec<Sender<Packet>>,
    /// Where the response task says that it has ended.
    pub joined: Sender<()>,
}

/// What a caller makes of what its mailbox gave: the payload of the packet,
/// or peer gone where the mailbox was closed.
pub open spec fn spec_accept(response: Option<PacketView>) -> Result<Seq<u8>, CallError> {
    match response {
        Some(p) => Ok(p.payload),
        None => Err(CallError::PeerGone),
    }
}

/// What a caller makes of the end of its wait for a free slot: a slot that
/// came is taken, a wait that timed out is too many calls in flight, and a
/// pool that is gone is a port that is gone.
pub open spec fn spec_slot_wait<T>(waited: Timed<T>) -> Result<T, CallError> {
    match waited {
        Timed::Item(slot) => Ok(slot),
        Timed::TimedOut => Err(CallError::TooManyInflight),
        Timed::Disconnected => Err(CallError::PeerGone),
    }
}

/// What a caller that holds a slot makes of the exchange with the peer: a
/// request that did not go out is a peer that is gone; one that went out
/// ends as the mailbox says.
pub open spec fn spec_exchange(sent: bool, response: Option<PacketView>) -> Result<
    Seq<u8>,
    CallError,
> {
    if sent {
        spec_accept(response)
    } else {
        Err(CallError::PeerGone)
    }
}

/// How a call ends, given how the wait for a free slot ended, whether the
/// request went out, and what the mailbox gave.
pub open spec fn spec_call_outcome(waited: Timed<()>, sent: bool, response: Option<PacketView>)
    -> Result<Seq<u8>, CallError> {
    match waited {
        Timed::TimedOut => Err(CallError::TooManyInflight),
        Timed::Disconnected => Err(CallError::PeerGone),
        Timed::Item(_) => if sent {
            spec_accept(response)
        } else {
            Err(CallError::PeerGone)
        },
    }
}

/// How a wait ended, without what it gave.
pub open spec fn spec_wait_seen<T>(waited: Timed<T>) -> Timed<()> {
    match waited {
        Timed::Item(_) => Timed::Item(()),
        Timed::TimedOut => Timed::TimedOut,
        Timed::Disconnected => Timed::Disconnected,
    }
}

/// The view of what a mailbox gave.
pub open spec fn packet_view(response: Option<Packet>) -> Option<PacketView> {
    match response {
        Some(p) => Some(p@),
        None => None,
    }
}

/// The view of the response to a call.
pub open spec fn response_view(response: Result<Vec<u8>, CallError>) -> Result<Seq<u8>, CallError> {
    match response {
        Ok(bytes) => Ok(bytes@),
        Err(e) => Err(e),
    }
}

/// What a task that fills mailboxes makes of a delivery: a packet that has
/// no place ends the run as malformed; else the word of the mailbox counts.
pub open spec fn spec_after_delivery(delivered: Result<bool, DeliveryError>) -> Option<Pumped> {
    match delivered {
        Ok(taken) => spec_after_send(taken),
        Err(_) => Some(Pumped::Malformed),
    }
}

/// What the table says of a look into a mailbox, as the outcome of a call:
/// nothing while the call is pending or where none is in flight.
pub open spec fn spec_poll_outcome(poll: PollView) -> Option<Result<Seq<u8>, CallError>> {
    match poll {
        PollView::Ready(payload) => Some(Ok(payload)),
        PollView::PeerGone => Some(Err(CallError::PeerGone)),
        PollView::Pending => None,
        PollView::NotInFlight => None,
    }
}

/// The mailbox that `p` goes to among `mailboxes` of them: the one of the
/// slot id that a response carries.
pub open spec fn spec_mailbox(p: PacketView, mailboxes: nat) -> Result<nat, DeliveryError> {
    if !p.is_response() {
        Err(DeliveryError::NotAResponse)
    } else if p.slot() >= mailboxes {
        Err(DeliveryError::UnknownSlot)
    } else {
        Ok(p.slot() as nat)
    }
}

/// The response task and the call table agree: a packet that the table
/// takes goes to the mailbox of the slot under which the table files it, and
/// a packet that has no mailbox is one that the table refuses for the same
/// reason.
pub proof fn lemma_mailbox_agrees_with_table(v: CallTableView, p: PacketView)
    ensures
        spec_deliver(v, p).1 matches Ok(slot) ==> spec_mailbox(p, v.capacity()) == Ok::<
            nat,
            DeliveryError,
        >(slot as nat),
        spec_mailbox(p, v.capacity()) matches Err(e) ==> spec_deliver(v, p) == (
            v,
            Err::<u32, DeliveryError>(e),
        ),
{
}

/// The call and the call table agree.
///
/// Where the table refuses to start a call, the call fails in the same way:
/// a full table is a wait that times out, a closed one a pool that is gone.
/// Where the table starts the call and the response to it is delivered, the
/// caller finds in its mailbox what the call returns. Where the channel
/// closes first, both end as peer gone, as does a request that did not go
/// out.
pub proof fn lemma_call_agrees_with_table(v: CallTableView, payload: Seq<u8>, answer: PacketView)
    requires
        v.wf(),
    ensures
        spec_begin(v, payload).1 is Err <==> v.closed || v.free.len() == 0,
        spec_begin(v, payload).1 matches Err(e) ==> Err::<Seq<u8>, CallError>(e) == (if v.closed {
            spec_call_outcome(Timed::Disconnected, true, Some(answer))
        } else {
            spec_call_outcome(Timed::TimedOut, true, Some(answer))
        }),
        spec_begin(v, payload).1 matches Ok(request) ==> {
            let started = spec_begin(v, payload).0;
            let slot = request.slot();
            &&& request == spec_request(v.free[0], payload)
            &&& slot == v.free[0]
            &&& (answer.is_response() && answer.slot() == slot ==> spec_poll_outcome(
                spec_take(spec_deliver(started, answer).0, slot).1,
            ) == Some(spec_call_outcome(Timed::Item(()), true, Some(answer))))
            &&& spec_poll_outcome(spec_take(spec_close(started), slot).1) == Some(
                spec_call_outcome(Timed::Item(()), true, None),
            )
            &&& spec_call_outcome(Timed::Item(()), false, Some(answer)) == Err::<
                Seq<u8>,
                CallError,
            >(CallError::PeerGone)
        },
{
    if !v.closed && v.free.len() > 0 {
        assert((v.free[0] as int) < v.states.len());
    }
}

/// A new client starts where a fresh call table starts: the table is well
/// formed, all its slots are free, and the slot at place `i` of its free
/// pool has the id `i`, which is the id that `fresh_slots` gives to slot
/// `i` and the place at which that slot's mailbox stands.
pub proof fn lemma_fresh_slots_match_table(capacity: u32)
    requires
        capacity <= RESPONSE_BIT,
    ensures
        spec_fresh(capacity).wf(),
        !spec_fresh(capacity).closed,
        spec_fresh(capacity).capacity() == capacity,
        spec_fresh(capacity).free.len() == capacity,
        forall|i: int| 0 <= i < capacity ==> #[trigger] spec_fresh(capacity).free[i] == i,
        forall|slot: u32| !spec_fresh(capacity).in_flight(slot),
{
    let v = spec_fresh(capacity);
    assert forall|s: int| 0 <= s < v.states.len() && (#[trigger] v.states[s]) is Free implies v.free.contains(
        s as u32,
    ) by {
        assert(v.free[s] == s as u32);
    }
}

/// Every result is the outcome of a call under some doing of the channels:
/// of itself the rule of `spec_call_outcome` excludes nothing. It says which
/// doing leads to which result.
pub proof fn lemma_any_call_outcome(r: Result<Seq<u8>, CallError>)
    ensures
        exists|w: Timed<()>, s: bool, p: Option<PacketView>|
            r == #[trigger] spec_call_outcome(w, s, p),
{
    match r {
        Ok(payload) => {
            let p = PacketView { slot_tag: RESPONSE_BIT, payload };
            assert(r == spec_call_outcome(Timed::Item(()), true, Some(p)));
        },
        Err(CallError::TooManyInflight) => {
            assert(r == spec_call_outcome(Timed::TimedOut, false, None));
        },
        Err(CallError::PeerGone) => {
            assert(r == spec_call_outcome(Timed::Disconnected, false, None));
        },
    }
}

/// The way of a payload through one call, step by step.
///
/// The request carries the payload under the caller's slot and arrives at
/// the peer as it left. It goes to the peer's server. The response that the
/// peer builds from it carries the answer, arrives as it left, goes to the
/// client, and there to the mailbox of the caller's slot. The call returns
/// the answer: with a peer that echoes, the caller gets back the bytes that
/// it sent.
pub proof fn lemma_call_round_trip(slot: u32, payload: Seq<u8>, answer: Seq<u8>, mailboxes: nat)
    requires
        slot < RESPONSE_BIT,
        slot < mailboxes,
    ensures
        ({
            let request = spec_request(slot, payload);
            let response = spec_response_to(request, answer);
            &&& spec_decode(spec_encode(request)) == Some(request)
            &&& spec_route(request) == Route::ToServer
            &&& spec_decode(spec_encode(response)) == Some(response)
            &&& spec_route(response) == Route::ToClient
            &&& spec_mailbox(response, mailboxes) == Ok::<nat, DeliveryError>(slot as nat)
            &&& spec_call_outcome(Timed::Item(()), true, Some(response)) == Ok::<
                Seq<u8>,
                CallError,
            >(answer)
        }),
{
    let request = spec_request(slot, payload);
    let response = spec_response_to(request, answer);
    lemma_decode_encode(request);
    lemma_decode_encode(response);
    lemma_response_echoes_slot(request, answer);
}

/// What a caller makes of the end of its wait for a free slot.
pub fn slot_wait<T>(waited: Timed<T>) -> (r: Result<T, CallError>)
    ensures
        r == spec_slot_wait(waited),
{
    match waited {
        Timed::Item(slot) => Ok(slot),
        Timed::TimedOut => Err(CallError::TooManyInflight),
        Timed::Disconnected => Err(CallError::PeerGone),
    }
}

/// What a caller makes of what its mailbox gave.
pub fn accept_response(response: Option<Packet>) -> (r: Result<Vec<u8>, CallError>)
    ensures
        response_view(r) == spec_accept(packet_view(response)),
{
    match response {
        Some(p) => Ok(p.into_data()),
        None => Err(CallError::PeerGone),
    }
}

/// What a caller that holds a slot makes of the exchange with the peer.
pub fn exchange_outcome(sent: bool, response: Option<Packet>) -> (r: Result<Vec<u8>, CallError>)
    ensures
        response_view(r) == spec_exchange(sent, packet_view(response)),
{
    if sent {
        accept_response(response)
    } else {
        Err(CallError::PeerGone)
    }
}

/// What a task that fills mailboxes makes of a delivery: `None` lets the
/// run go on.
pub fn after_delivery(delivered: Result<bool, DeliveryError>) -> (end: Option<Pumped>)
    ensures
        end == spec_after_delivery(delivered),
{
    match delivered {
        Ok(taken) => after_send(taken),
        Err(_) => Some(Pumped::Malformed),
    }
}

/// The index of the mailbox that `packet` goes to.
pub fn mailbox_of(packet: &Packet, mailboxes: usize) -> (r: Result<usize, DeliveryError>)
    ensures
        match r {
            Ok(i) => spec_mailbox(packet@, mailboxes as nat) == Ok::<nat, DeliveryError>(i as nat),
            Err(e) => spec_mailbox(packet@, mailboxes as nat) == Err::<nat, DeliveryError>(e),
        },
{
    if !packet.is_response() {
        return Err(DeliveryError::NotAResponse);
    }
    let slot: usize = packet.slot().as_usize();
    if slot >= mailboxes {
        Err(DeliveryError::UnknownSlot)
    } else {
        Ok(slot)
    }
}

/// The call slots of a client of `capacity` slots, and the sending ends of
/// their mailboxes. Slot `i` carries the id `i`, so the ids are dense and
/// no two slots share one; its mailbox holds one packet, and the sending end
/// of that mailbox stands at place `i`.
pub fn fresh_slots(capacity: u32) -> (made: (Vec<CallSlot>, Vec<Sender<Packet>>))
    requires
        capacity <= RESPONSE_BIT,
    ensures
        made.0@.len() == capacity,
        made.1@.len() == capacity,
        forall|i: int| 0 <= i < capacity ==> (#[trigger] made.0@[i]).spec_id() == i,
        forall|i: int| 0 <= i < capacity ==> packet_queue_limit(#[trigger] made.1@[i]) == 1,
{
    let mut slots: Vec<CallSlot> = Vec::new();
    let mut mailboxes: Vec<Sender<Packet>> = Vec::new();
    let mut i: u32 = 0;
    while i < capacity
        invariant
            i <= capacity,
            capacity <= RESPONSE_BIT,
            slots@.len() == i,
            mailboxes@.len() == i,
            forall|k: int| 0 <= k < i ==> (#[trigger] slots@[k]).spec_id() == k,
            forall|k: int| 0 <= k < i ==> packet_queue_limit(#[trigger] mailboxes@[k]) == 1,
        decreases capacity - i,
    {
        let (mailbox_in, mailbox_out) = bounded_packets(1);
        let id: SlotId = SlotId::new(i).unwrap();
        slots.push(CallSlot { id, response: mailbox_out });
        mailboxes.push(mailbox_in);
        i = i + 1;
    }
    (slots, mailboxes)
}

impl Client {
    /// Number of call slots that the free pool was made to hold.
    pub closed spec fn spec_capacity(&self) -> nat {
        slot_pool_limit(self.free_in)
    }

    /// Longest wait of a call for a free slot, in milliseconds.
    pub closed spec fn spec_slot_timeout_ms(&self) -> u64 {
        self.slot_timeout_ms
    }

    /// The send half of the channel to the peer, into which the requests
    /// go.
    pub closed spec fn spec_ipc_send(&self) -> Sender<Vec<u8>> {
        self.ipc_send
    }

    /// A client of `capacity` slots that sends its frames into `ipc_send`
    /// and waits at most `slot_timeout_ms` milliseconds for a free slot.
    /// The slots are those of `fresh_slots`, moved into the free pool lowest
    /// id first. The mailboxes come back in slot order, one for each slot,
    /// and each holds one packet. Slot ids must fit in 31 bits, and the pool
    /// the address space.
    pub fn new(ipc_send: Sender<Vec<u8>>, capacity: u32, slot_timeout_ms: u64) -> (parts:
        ClientParts)
        requires
            capacity <= RESPONSE_BIT,
            capacity <= CHANNEL_CAPACITY_LIMIT,
        ensures
            parts.client.spec_capacity() == capacity,
            parts.client.spec_slot_timeout_ms() == slot_timeout_ms,
            parts.client.spec_ipc_send() == ipc_send,
            parts.mailboxes@.len() == capacity,
            forall|i: int|
                0 <= i < capacity ==> packet_queue_limit(#[trigger] parts.mailboxes@[i]) == 1,
    {
        let (joined_in, joined_out) = bounded::<()>(1);
        let (free_in, free_out) = bounded_slots(capacity as usize);
        let (mut slots, mailboxes) = fresh_slots(capacity);
        while slots.len() > 0
            invariant
                slot_pool_limit(free_in) == capacity,
            decreases slots@.len(),
        {
            let slot: CallSlot = slots.remove(0);
            let _ = send(&free_in, slot);
        }
        ClientParts {
            client: Client { free_in, free_out, ipc_send, joined: joined_out, slot_timeout_ms },
            mailboxes,
            joined: joined_in,
        }
    }

    /// Makes one call: takes a free slot, sends the request under the slot's
    /// id, waits at the slot's mailbox, gives the slot back and hands out
    /// the payload of the response.
    ///
    /// Without a free slot within the time limit the call fails as too many
    /// in flight. Where the channel to the peer or the mailbox is closed it
    /// fails as peer gone. How the wait ends, whether the request goes out
    /// and what the mailbox gives is the doing of other tasks and of the
    /// peer; the call ends as `spec_call_outcome` says of these three.
    ///
    /// The clause names the rule and excludes no result: every result is the
    /// outcome of some wait, send and mailbox, as `lemma_any_call_outcome`
    /// shows. What binds the call is the exact contracts of `slot_wait` and
    /// `exchange_outcome`, which take what the channels gave and decide.
    pub fn call(&self, payload: Vec<u8>) -> (r: Result<Vec<u8>, CallError>)
        ensures
            exists|w: Timed<()>, s: bool, p: Option<PacketView>|
                response_view(r) == #[trigger] spec_call_outcome(w, s, p),
    {
        let waited = recv_timeout(&self.free_out, self.slot_timeout_ms);
        let ghost seen = spec_wait_seen(waited);
        match slot_wait(waited) {
            Err(e) => {
                proof {
                    assert(Err::<Seq<u8>, CallError>(e) == spec_call_outcome(seen, false, None));
                }
                Err(e)
            },
            Ok(slot) => {
                let request: Packet = Packet::new_request(slot.id, payload);
                let sent: bool = send(&self.ipc_send, request.encode());
                let response: Option<Packet> = if sent {
                    recv(&slot.response)
                } else {
                    None
                };
                let ghost answered = packet_view(response);
                let _ = send(&self.free_in, slot);
                let r = exchange_outcome(sent, response);
                proof {
                    assert(response_view(r) == spec_call_outcome(seen, sent, answered));
                }
                r
            },
        }
    }

    /// Waits for the response task to say that it has ended. A timeout means
    /// that the multiplexer was not shut down first. How the wait ends is
    /// the task's doing; the result is what `join_outcome` makes of it.
    pub fn shutdown(&self) -> (r: Result<(), ShutdownError>)
        ensures
            spec_is_join_outcome(r),
    {
        let event = recv_timeout(&self.joined, CLIENT_SHUTDOWN_TIMEOUT_MS);
        let ghost seen = event;
        let r = join_outcome(event);
        proof {
            assert(r == spec_join_outcome(seen));
        }
        r
    }
}

/// Puts `packet` into the mailbox that it belongs to. A packet that is no
/// response, or that carries the id of no slot, has no place.
pub fn deliver_response(packet: Packet, mailboxes: &Vec<Sender<Packet>>) -> (r: Result<
    bool,
    DeliveryError,
>)
    ensures
        r is Ok <==> spec_mailbox(packet@, mailboxes@.len()) is Ok,
        r matches Err(e) ==> spec_mailbox(packet@, mailboxes@.len()) == Err::<nat, DeliveryError>(
            e,
        ),
{
    match mailbox_of(&packet, mailboxes.len()) {
        Ok(i) => Ok(send(&mailboxes[i], packet)),
        Err(e) => Err(e),
    }
}

/// The work of the response task: takes up to `budget` responses from
/// `ipc_recv` and puts each into its mailbox. It ends early where the stream
/// is closed, where a caller is gone, or where a packet has no place: as
/// `taken_item` says of what the stream gave and `after_delivery` of what
/// became of the packet.
pub fn receive(ipc_recv: &Receiver<Packet>, mailboxes: &Vec<Sender<Packet>>, budget: usize) -> (r:
    Pumped)
    ensures
        budget == 0 ==> r == Pumped::BudgetSpent,
{
    let mut left: usize = budget;
    while left > 0
        invariant
            left <= budget,
        decreases left,
    {
        let packet: Packet = match taken_item(recv(ipc_recv)) {
            Ok(packet) => packet,
            Err(end) => {
                return end;
            },
        };
        match after_delivery(deliver_response(packet, mailboxes)) {
            Some(end) => {
                return end;
            },
            None => {},
        }
        left = left - 1;
    }
    Pumped::BudgetSpent
}

/// The last word of a task: tells whoever shuts the component down that the
/// task has ended.
pub fn announce_end(joined: &Sender<()>) -> (heard: bool) {
    send(joined, ())
}

} // verus!
