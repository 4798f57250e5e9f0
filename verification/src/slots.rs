//! Call slots: how outbound calls are matched with their responses.
//!
//! A client owns a fixed number of slots. A call checks a free slot out,
//! sends its request under the slot's id, and waits at the slot's mailbox.
//! A response is put into the mailbox of the slot whose id it carries. The
//! caller takes it from there and the slot goes back to the free pool, which
//! hands slots out in the order in which they came back.

use crate::packet::{spec_request, Packet, PacketView, RESPONSE_BIT};
use vstd::prelude::*;

verus! {

/// Slots of a client, unless it is made with another number.
pub const CALLSLOT_SIZE: u32 = 100;

/// Why a call failed.
#[derive(Clone, Copy, Debug, PartialEq, Eq, Structural)]
pub enum CallError {
    /// Every slot is in flight.
    TooManyInflight,
    /// The channel to the peer is closed.
    PeerGone,
}

/// Why a packet was not put into a mailbox.
#[derive(Clone, Copy, Debug, PartialEq, Eq, Structural)]
pub enum DeliveryError {
    /// The packet is a request.
    NotAResponse,
    /// The client has no slot of that id.
    UnknownSlot,
    /// No call waits at the slot.
    NotWaiting,
}

/// What one slot is doing.
pub enum SlotStateView {
    /// In the free pool.
    Free,
    /// Checked out; the response has not come.
    Waiting,
    /// Checked out; the payload of the response lies in the mailbox.
    Ready(Seq<u8>),
}

/// What a caller finds at its slot.
pub enum PollView {
    /// The payload of the response.
    Ready(Seq<u8>),
    /// The response has not come yet.
    Pending,
    /// The channel was closed before a response came.
    PeerGone,
    /// No call is in flight on the slot.
    NotInFlight,
}

/// What a call table is.
pub struct CallTableView {
    /// The state of each slot, by slot id.
    pub states: Seq<SlotStateView>,
    /// The free pool, next slot to hand out first.
    pub free: Seq<u32>,
    /// Whether the channel to the peer is closed.
    pub closed: bool,
}

impl CallTableView {
    /// The invariant: slot ids fit the tag, the free pool holds exactly the
    /// free slots, each once.
    pub open spec fn wf(self) -> bool {
        &&& self.states.len() <= RESPONSE_BIT
        &&& forall|i: int|
            0 <= i < self.free.len() ==> (#[trigger] self.free[i] as int) < self.states.len()
                && self.states[self.free[i] as int] is Free
        &&& forall|i: int, j: int|
            0 <= i < j < self.free.len() ==> #[trigger] self.free[i] != #[trigger] self.free[j]
        &&& forall|s: int|
            0 <= s < self.states.len() && (#[trigger] self.states[s]) is Free
                ==> self.free.contains(s as u32)
    }

    /// Number of slots.
    pub open spec fn capacity(self) -> nat {
        self.states.len()
    }

    /// Whether a call is in flight on `slot`.
    pub open spec fn in_flight(self, slot: u32) -> bool {
        (slot as int) < self.states.len() && !(self.states[slot as int] is Free)
    }

    /// The table with `slot` back in the free pool.
    pub open spec fn released(self, slot: u32) -> Self {
        CallTableView {
            states: self.states.update(slot as int, SlotStateView::Free),
            free: self.free.push(slot),
            closed: self.closed,
        }
    }
}

/// A table of `capacity` slots, all free, lowest id first.
pub open spec fn spec_fresh(capacity: u32) -> CallTableView {
    CallTableView {
        states: Seq::new(capacity as nat, |i: int| SlotStateView::Free),
        free: Seq::new(capacity as nat, |i: int| i as u32),
        closed: false,
    }
}

/// Starting a call: on a closed table it fails as peer gone, with no free
/// slot as too many in flight; else the first slot of the free pool is
/// checked out and the request carries its id and the payload.
pub open spec fn spec_begin(v: CallTableView, payload: Seq<u8>) -> (
    CallTableView,
    Result<PacketView, CallError>,
) {
    if v.closed {
        (v, Err(CallError::PeerGone))
    } else if v.free.len() == 0 {
        (v, Err(CallError::TooManyInflight))
    } else {
        let slot = v.free[0];
        (
            CallTableView {
                states: v.states.update(slot as int, SlotStateView::Waiting),
                free: v.free.remove(0),
                closed: v.closed,
            },
            Ok(spec_request(slot, payload)),
        )
    }
}

/// Delivering a packet: a response whose slot has a call waiting puts its
/// payload into that slot's mailbox; anything else changes nothing.
pub open spec fn spec_deliver(v: CallTableView, p: PacketView) -> (
    CallTableView,
    Result<u32, DeliveryError>,
) {
    if !p.is_response() {
        (v, Err(DeliveryError::NotAResponse))
    } else if p.slot() >= v.states.len() {
        (v, Err(DeliveryError::UnknownSlot))
    } else if !(v.states[p.slot() as int] is Waiting) {
        (v, Err(DeliveryError::NotWaiting))
    } else {
        (
            CallTableView {
                states: v.states.update(p.slot() as int, SlotStateView::Ready(p.payload)),
                free: v.free,
                closed: v.closed,
            },
            Ok(p.slot()),
        )
    }
}

/// Looking into the mailbox of `slot`: a payload that lies there is taken
/// and the slot is freed; a call that waits on a closed table fails as peer
/// gone and the slot is freed; else nothing changes.
pub open spec fn spec_take(v: CallTableView, slot: u32) -> (CallTableView, PollView) {
    if slot >= v.states.len() {
        (v, PollView::NotInFlight)
    } else {
        match v.states[slot as int] {
            SlotStateView::Free => (v, PollView::NotInFlight),
            SlotStateView::Ready(payload) => (v.released(slot), PollView::Ready(payload)),
            SlotStateView::Waiting => if v.closed {
                (v.released(slot), PollView::PeerGone)
            } else {
                (v, PollView::Pending)
            },
        }
    }
}

/// Closing: the channel to the peer is gone. Mailboxes keep what they hold.
pub open spec fn spec_close(v: CallTableView) -> CallTableView {
    CallTableView { states: v.states, free: v.free, closed: true }
}

/// Something that happens at a call table.
pub enum CallEvent {
    /// A caller starts a call with this payload.
    Begin(Seq<u8>),
    /// This packet arrives from the peer.
    Deliver(PacketView),
    /// The caller at this slot looks into its mailbox.
    Take(u32),
    /// The channel to the peer closes.
    Close,
}

/// Whether `e` is about the call on `slot`: a response that carries the
/// slot's id, or a look into the slot's mailbox.
pub open spec fn concerns(e: CallEvent, slot: u32) -> bool {
    match e {
        CallEvent::Deliver(p) => p.is_response() && p.slot() == slot,
        CallEvent::Take(s) => s == slot,
        _ => false,
    }
}

/// The table after `e`.
pub open spec fn spec_step(v: CallTableView, e: CallEvent) -> CallTableView {
    match e {
        CallEvent::Begin(payload) => spec_begin(v, payload).0,
        CallEvent::Deliver(p) => spec_deliver(v, p).0,
        CallEvent::Take(slot) => spec_take(v, slot).0,
        CallEvent::Close => spec_close(v),
    }
}

/// The table after `events`, in order.
pub open spec fn spec_run(v: CallTableView, events: Seq<CallEvent>) -> CallTableView
    decreases events.len(),
{
    if events.len() == 0 {
        v
    } else {
        spec_step(spec_run(v, events.drop_last()), events.last())
    }
}

/// Every event keeps the invariant.
pub proof fn lemma_step_wf(v: CallTableView, e: CallEvent)
    requires
        v.wf(),
    ensures
        spec_step(v, e).wf(),
        spec_step(v, e).states.len() == v.states.len(),
{
    let w = spec_step(v, e);
    match e {
        CallEvent::Begin(payload) => {
            if !v.closed && v.free.len() > 0 {
                let slot = v.free[0];
                assert forall|i: int| 0 <= i < w.free.len() implies (#[trigger] w.free[i] as int)
                    < w.states.len() && w.states[w.free[i] as int] is Free by {
                    assert(w.free[i] == v.free[i + 1]);
                    assert(v.free[0] != v.free[i + 1]);
                }
                assert forall|i: int, j: int| 0 <= i < j < w.free.len() implies #[trigger] w.free[i]
                    != #[trigger] w.free[j] by {
                    assert(w.free[i] == v.free[i + 1]);
                    assert(w.free[j] == v.free[j + 1]);
                }
                assert forall|s: int|
                    0 <= s < w.states.len() && (#[trigger] w.states[s]) is Free implies w.free.contains(
                    s as u32,
                ) by {
                    assert(v.states[s] is Free);
                    assert(v.free.contains(s as u32));
                    let k = choose|k: int| 0 <= k < v.free.len() && v.free[k] == s as u32;
                    assert(k != 0);
                    assert(w.free[k - 1] == s as u32);
                }
            }
        },
        CallEvent::Deliver(p) => {
            if w != v {
                assert forall|s: int|
                    0 <= s < w.states.len() && (#[trigger] w.states[s]) is Free implies w.free.contains(
                    s as u32,
                ) by {
                    assert(v.states[s] is Free);
                }
            }
        },
        CallEvent::Take(slot) => {
            if w != v {
                assert(w == v.released(slot));
                assert(!(v.states[slot as int] is Free));
                assert forall|i: int| 0 <= i < w.free.len() implies (#[trigger] w.free[i] as int)
                    < w.states.len() && w.states[w.free[i] as int] is Free by {
                    if i < v.free.len() {
                        assert(w.free[i] == v.free[i]);
                    }
                }
                assert forall|i: int, j: int| 0 <= i < j < w.free.len() implies #[trigger] w.free[i]
                    != #[trigger] w.free[j] by {
                    assert(w.free[i] == v.free[i]);
                    if j < v.free.len() {
                        assert(w.free[j] == v.free[j]);
                    }
                }
                assert forall|s: int|
                    0 <= s < w.states.len() && (#[trigger] w.states[s]) is Free implies w.free.contains(
                    s as u32,
                ) by {
                    if s == slot as int {
                        assert(w.free[v.free.len() as int] == slot);
                    } else {
                        assert(v.states[s] is Free);
                        assert(v.free.contains(s as u32));
                        let k = choose|k: int| 0 <= k < v.free.len() && v.free[k] == s as u32;
                        assert(w.free[k] == s as u32);
                    }
                }
            }
        },
        CallEvent::Close => {},
    }
}

/// An event that does not concern a call in flight leaves that call's slot
/// as it is.
pub proof fn lemma_step_isolated(v: CallTableView, e: CallEvent, slot: u32)
    requires
        v.wf(),
        v.in_flight(slot),
        !concerns(e, slot),
    ensures
        spec_step(v, e).states[slot as int] == v.states[slot as int],
        spec_step(v, e).in_flight(slot),
{
    match e {
        CallEvent::Begin(payload) => {
            if !v.closed && v.free.len() > 0 {
                assert(v.states[v.free[0] as int] is Free);
            }
        },
        _ => {},
    }
}

/// No run of events that do not concern a call in flight changes what lies
/// at that call's slot, and every run keeps the invariant.
pub proof fn lemma_run_isolated(v: CallTableView, events: Seq<CallEvent>, slot: u32)
    requires
        v.wf(),
        v.in_flight(slot),
        forall|k: int| 0 <= k < events.len() ==> !concerns(#[trigger] events[k], slot),
    ensures
        spec_run(v, events).wf(),
        spec_run(v, events).in_flight(slot),
        spec_run(v, events).states[slot as int] == v.states[slot as int],
    decreases events.len(),
{
    if events.len() > 0 {
        let shorter = events.drop_last();
        assert forall|k: int| 0 <= k < shorter.len() implies !concerns(
            #[trigger] shorter[k],
            slot,
        ) by {
            assert(shorter[k] == events[k]);
        }
        lemma_run_isolated(v, shorter, slot);
        let before = spec_run(v, shorter);
        assert(!concerns(events[events.len() - 1], slot));
        lemma_step_wf(before, events.last());
        lemma_step_isolated(before, events.last(), slot);
    }
}

/// Each caller receives exactly its own response, and payloads arrive
/// unchanged.
///
/// A call is started on a table with a free slot. Its request carries the
/// caller's payload. Whatever other callers and other responses do before
/// and after the response to this call arrives, in any order and number, the
/// caller finds in its mailbox the payload of the response that carries its
/// slot id, and nothing else.
pub proof fn lemma_caller_receives_own_response(
    v: CallTableView,
    payload: Seq<u8>,
    answer: PacketView,
    before: Seq<CallEvent>,
    after: Seq<CallEvent>,
)
    requires
        v.wf(),
        !v.closed,
        v.free.len() > 0,
        answer.is_response(),
        answer.slot() == v.free[0],
        forall|k: int| 0 <= k < before.len() ==> !concerns(#[trigger] before[k], v.free[0]),
        forall|k: int| 0 <= k < after.len() ==> !concerns(#[trigger] after[k], v.free[0]),
    ensures
        spec_begin(v, payload).1 == Ok::<PacketView, CallError>(spec_request(v.free[0], payload)),
        ({
            let slot = v.free[0];
            let started = spec_begin(v, payload).0;
            let delivered = spec_deliver(spec_run(started, before), answer);
            let last = spec_run(delivered.0, after);
            &&& delivered.1 == Ok::<u32, DeliveryError>(slot)
            &&& spec_take(last, slot).1 == PollView::Ready(answer.payload)
            &&& spec_take(last, slot).0.wf()
            &&& !spec_take(last, slot).0.in_flight(slot)
        }),
{
    let slot = v.free[0];
    let started = spec_begin(v, payload).0;
    lemma_step_wf(v, CallEvent::Begin(payload));
    assert(started == spec_step(v, CallEvent::Begin(payload)));
    assert(started.states[slot as int] is Waiting);
    lemma_run_isolated(started, before, slot);
    let arrived = spec_run(started, before);
    let delivered = spec_deliver(arrived, answer);
    lemma_step_wf(arrived, CallEvent::Deliver(answer));
    assert(delivered.0 == spec_step(arrived, CallEvent::Deliver(answer)));
    lemma_run_isolated(delivered.0, after, slot);
    let last = spec_run(delivered.0, after);
    lemma_step_wf(last, CallEvent::Take(slot));
    assert(spec_take(last, slot).0 == spec_step(last, CallEvent::Take(slot)));
}

/// A slot of a call table.
enum SlotState {
    Free,
    Waiting,
    Ready(Vec<u8>),
}

impl SlotState {
    spec fn model(&self) -> SlotStateView {
        match *self {
            SlotState::Free => SlotStateView::Free,
            SlotState::Waiting => SlotStateView::Waiting,
            SlotState::Ready(payload) => SlotStateView::Ready(payload@),
        }
    }
}

/// What a caller finds at its slot.
#[derive(Debug)]
pub enum Poll {
    /// The payload of the response.
    Ready(Vec<u8>),
    /// The response has not come yet.
    Pending,
    /// The channel was closed before a response came.
    PeerGone,
    /// No call is in flight on the slot.
    NotInFlight,
}

impl View for Poll {
    type V = PollView;

    open spec fn view(&self) -> PollView {
        match *self {
            Poll::Ready(payload) => PollView::Ready(payload@),
            Poll::Pending => PollView::Pending,
            Poll::PeerGone => PollView::PeerGone,
            Poll::NotInFlight => PollView::NotInFlight,
        }
    }
}

/// The request that a started call sends, or the reason it did not start.
pub open spec fn started_view(r: Result<Packet, CallError>) -> Result<PacketView, CallError> {
    match r {
        Ok(p) => Ok(p@),
        Err(e) => Err(e),
    }
}

/// The slots of one client and what lies in their mailboxes.
pub struct CallTable {
    states: Vec<SlotState>,
    free: Vec<u32>,
    closed: bool,
}

impl View for CallTable {
    type V = CallTableView;

    closed spec fn view(&self) -> CallTableView {
        CallTableView {
            states: Seq::new(self.states@.len(), |i: int| self.states@[i].model()),
            free: self.free@,
            closed: self.closed,
        }
    }
}

impl CallTable {
    /// The invariant of the table. The constructor gives it and every
    /// method keeps it.
    pub closed spec fn wf(&self) -> bool {
        self@.wf()
    }

    /// A well-formed table has a well-formed view.
    pub proof fn lemma_wf_view(&self)
        requires
            self.wf(),
        ensures
            self@.wf(),
    {
    }

    /// A table of `capacity` slots, all free. Slot ids must fit in 31 bits.
    pub fn new(capacity: u32) -> (t: CallTable)
        requires
            capacity <= RESPONSE_BIT,
        ensures
            t.wf(),
            t@ == spec_fresh(capacity),
    {
        let mut states: Vec<SlotState> = Vec::new();
        let mut free: Vec<u32> = Vec::new();
        let mut i: u32 = 0;
        while i < capacity
            invariant
                i <= capacity,
                states@.len() == i,
                free@.len() == i,
                forall|k: int| 0 <= k < i ==> states@[k] is Free,
                forall|k: int| 0 <= k < i ==> free@[k] == k as u32,
            decreases capacity - i,
        {
            states.push(SlotState::Free);
            free.push(i);
            i = i + 1;
        }
        let t = CallTable { states, free, closed: false };
        proof {
            assert(t@.states =~= spec_fresh(capacity).states);
            assert(t@.free =~= spec_fresh(capacity).free);
            assert forall|s: int|
                0 <= s < t@.states.len() && (#[trigger] t@.states[s]) is Free implies t@.free.contains(
                s as u32,
            ) by {
                assert(t@.free[s] == s as u32);
            }
        }
        t
    }

    /// Number of slots.
    pub fn capacity(&self) -> (n: usize)
        ensures
            n == self@.capacity(),
    {
        self.states.len()
    }

    /// Number of free slots.
    pub fn available(&self) -> (n: usize)
        ensures
            n == self@.free.len(),
    {
        self.free.len()
    }

    /// Whether the channel to the peer is closed.
    pub fn is_closed(&self) -> (closed: bool)
        ensures
            closed == self@.closed,
    {
        self.closed
    }

    /// Starts a call: checks out the next free slot and gives the request
    /// to send.
    pub fn begin_call(&mut self, payload: Vec<u8>) -> (r: Result<Packet, CallError>)
        requires
            old(self).wf(),
        ensures
            final(self).wf(),
            (final(self)@, started_view(r)) == spec_begin(old(self)@, payload@),
    {
        if self.closed {
            return Err(CallError::PeerGone);
        }
        if self.free.len() == 0 {
            return Err(CallError::TooManyInflight);
        }
        let slot: u32 = self.free.remove(0);
        self.states[slot as usize] = SlotState::Waiting;
        proof {
            lemma_step_wf(old(self)@, CallEvent::Begin(payload@));
            assert(self@.states =~= spec_begin(old(self)@, payload@).0.states);
        }
        Ok(Packet::new(slot, payload))
    }

    /// Puts a response into the mailbox of the slot whose id it carries, and
    /// gives that id.
    pub fn deliver(&mut self, response: Packet) -> (r: Result<u32, DeliveryError>)
        requires
            old(self).wf(),
        ensures
            final(self).wf(),
            (final(self)@, r) == spec_deliver(old(self)@, response@),
    {
        if !response.is_response() {
            return Err(DeliveryError::NotAResponse);
        }
        let slot: u32 = response.slot().as_raw();
        if slot as usize >= self.states.len() {
            return Err(DeliveryError::UnknownSlot);
        }
        let waiting: bool = match &self.states[slot as usize] {
            SlotState::Waiting => true,
            _ => false,
        };
        if !waiting {
            return Err(DeliveryError::NotWaiting);
        }
        let ghost packet = response@;
        self.states[slot as usize] = SlotState::Ready(response.into_data());
        proof {
            lemma_step_wf(old(self)@, CallEvent::Deliver(packet));
            assert(self@.states =~= spec_deliver(old(self)@, packet).0.states);
        }
        Ok(slot)
    }

    /// Looks into the mailbox of `slot` for the caller that waits there.
    pub fn take_response(&mut self, slot: u32) -> (r: Poll)
        requires
            old(self).wf(),
        ensures
            final(self).wf(),
            (final(self)@, r@) == spec_take(old(self)@, slot),
    {
        if slot as usize >= self.states.len() {
            return Poll::NotInFlight;
        }
        let mut state: SlotState = SlotState::Free;
        core::mem::swap(&mut state, &mut self.states[slot as usize]);
        proof {
            lemma_step_wf(old(self)@, CallEvent::Take(slot));
        }
        match state {
            SlotState::Free => {
                proof {
                    assert(self@.states =~= old(self)@.states);
                }
                Poll::NotInFlight
            },
            SlotState::Ready(payload) => {
                self.free.push(slot);
                proof {
                    assert(self@.states =~= old(self)@.released(slot).states);
                }
                Poll::Ready(payload)
            },
            SlotState::Waiting => {
                if self.closed {
                    self.free.push(slot);
                    proof {
                        assert(self@.states =~= old(self)@.released(slot).states);
                    }
                    Poll::PeerGone
                } else {
                    self.states[slot as usize] = SlotState::Waiting;
                    proof {
                        assert(self@.states =~= old(self)@.states);
                    }
                    Poll::Pending
                }
            },
        }
    }

    /// Records that the channel to the peer is closed. Calls that wait fail
    /// as peer gone from now on, and no call starts.
    pub fn close(&mut self)
        requires
            old(self).wf(),
        ensures
            final(self).wf(),
            final(self)@ == spec_close(old(self)@),
    {
        self.closed = true;
    }
}

} // verus!
