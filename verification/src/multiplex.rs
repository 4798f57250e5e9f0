//! The routing rule of the multiplexer: requests go to the local server,
//! responses to the local client, each stream in arrival order.

use crate::channel::{after_send, recv, send, Pumped};
use crate::packet::{spec_decode, Packet, PacketView};
use crossbeam::channel::{Receiver, Sender};
use vstd::prelude::*;

verus! {

/// Where an inbound packet goes.
#[derive(Clone, Copy, Debug, PartialEq, Eq, Structural)]
pub enum Route {
    /// To the local server: the packet is a request of the peer.
    ToServer,
    /// To the local client: the packet is a response to a local call.
    ToClient,
}

/// Where `p` goes.
pub open spec fn spec_route(p: PacketView) -> Route {
    if p.is_response() {
        Route::ToClient
    } else {
        Route::ToServer
    }
}

/// The packets of `arrived` that go to `route`, in arrival order.
pub open spec fn spec_stream(arrived: Seq<PacketView>, route: Route) -> Seq<PacketView>
    decreases arrived.len(),
{
    if arrived.len() == 0 {
        Seq::empty()
    } else if spec_route(arrived.last()) == route {
        spec_stream(arrived.drop_last(), route).push(arrived.last())
    } else {
        spec_stream(arrived.drop_last(), route)
    }
}

/// The views of the packets of `packets`, in order.
pub open spec fn views(packets: Seq<Packet>) -> Seq<PacketView> {
    Seq::new(packets.len(), |i: int| packets[i]@)
}

/// Where `packet` goes.
pub fn route(packet: &Packet) -> (r: Route)
    ensures
        r == spec_route(packet@),
{
    if packet.is_response() {
        Route::ToClient
    } else {
        Route::ToServer
    }
}

/// Splits what arrived into the stream for the server and the stream for
/// the client. Each keeps the arrival order.
pub fn demux(arrived: Vec<Packet>) -> (streams: (Vec<Packet>, Vec<Packet>))
    ensures
        views(streams.0@) == spec_stream(views(arrived@), Route::ToServer),
        views(streams.1@) == spec_stream(views(arrived@), Route::ToClient),
{
    let ghost all = views(arrived@);
    let mut arrived = arrived;
    let mut requests: Vec<Packet> = Vec::new();
    let mut responses: Vec<Packet> = Vec::new();
    let mut stack: Vec<Packet> = Vec::new();
    // Turn the input over, so that packets can be moved out in arrival order.
    while arrived.len() > 0
        invariant
            views(arrived@) + views(stack@).reverse() == all,
        decreases arrived@.len(),
    {
        let ghost before_arrived = views(arrived@);
        let ghost before_stack = views(stack@);
        match arrived.pop() {
            Some(p) => {
                stack.push(p);
                proof {
                    assert(views(stack@) =~= before_stack.push(p@));
                    assert(views(arrived@) =~= before_arrived.drop_last());
                    assert(before_arrived.last() == p@);
                    assert(views(arrived@) + views(stack@).reverse() =~= before_arrived
                        + before_stack.reverse());
                }
            },
            None => {},
        }
    }
    proof {
        assert(views(stack@).reverse() =~= all);
    }
    let ghost mut done: Seq<PacketView> = Seq::empty();
    while stack.len() > 0
        invariant
            done + views(stack@).reverse() == all,
            views(requests@) == spec_stream(done, Route::ToServer),
            views(responses@) == spec_stream(done, Route::ToClient),
        decreases stack@.len(),
    {
        let ghost before_stack = views(stack@);
        let ghost before_requests = views(requests@);
        let ghost before_responses = views(responses@);
        match stack.pop() {
            Some(p) => {
                proof {
                    assert(views(stack@) =~= before_stack.drop_last());
                    assert(before_stack.last() == p@);
                    assert(done.push(p@) + views(stack@).reverse() =~= done
                        + before_stack.reverse());
                    assert(done.push(p@).drop_last() =~= done);
                    done = done.push(p@);
                }
                if p.is_response() {
                    responses.push(p);
                    proof {
                        assert(views(responses@) =~= before_responses.push(p@));
                    }
                } else {
                    requests.push(p);
                    proof {
                        assert(views(requests@) =~= before_requests.push(p@));
                    }
                }
            },
            None => {},
        }
    }
    proof {
        assert(done =~= all);
    }
    (requests, responses)
}

/// Every packet of a stream goes where the stream goes.
pub proof fn lemma_stream_holds_its_route(arrived: Seq<PacketView>, route: Route, i: int)
    requires
        0 <= i < spec_stream(arrived, route).len(),
    ensures
        spec_route(spec_stream(arrived, route)[i]) == route,
    decreases arrived.len(),
{
    if arrived.len() > 0 {
        let shorter = spec_stream(arrived.drop_last(), route);
        if i < shorter.len() {
            lemma_stream_holds_its_route(arrived.drop_last(), route, i);
        }
    }
}

/// Arrival order is kept: the stream of what arrived first, followed by the
/// stream of what arrived later, is the stream of all of it.
pub proof fn lemma_stream_keeps_order(first: Seq<PacketView>, later: Seq<PacketView>, route: Route)
    ensures
        spec_stream(first + later, route) == spec_stream(first, route) + spec_stream(later, route),
    decreases later.len(),
{
    if later.len() == 0 {
        assert(first + later =~= first);
        assert(spec_stream(first, route) + spec_stream(later, route) =~= spec_stream(
            first,
            route,
        ));
    } else {
        let all = first + later;
        assert(all.drop_last() =~= first + later.drop_last());
        assert(all.last() == later.last());
        lemma_stream_keeps_order(first, later.drop_last(), route);
        if spec_route(later.last()) == route {
            assert(spec_stream(all, route) =~= spec_stream(first, route) + spec_stream(
                later,
                route,
            ));
        }
    }
}

/// Nothing is lost and nothing is made up: the two streams together hold as
/// many packets as arrived.
pub proof fn lemma_streams_partition(arrived: Seq<PacketView>)
    ensures
        spec_stream(arrived, Route::ToServer).len() + spec_stream(arrived, Route::ToClient).len()
            == arrived.len(),
    decreases arrived.len(),
{
    if arrived.len() > 0 {
        lemma_streams_partition(arrived.drop_last());
    }
}

/// What became of a packet that the reader sent on.
#[derive(Clone, Copy, Debug, PartialEq, Eq, Structural)]
pub struct Forwarded {
    /// The stream that the packet was sent down.
    pub route: Route,
    /// Whether the stream took it. A stream without a reader takes nothing.
    pub taken: bool,
}

/// Sends `packet` down the stream that it belongs to: a request to the
/// server, a response to the client. The result names that stream and says
/// whether it took the packet, which is the doing of the stream's reader.
pub fn forward(packet: Packet, to_server: &Sender<Packet>, to_client: &Sender<Packet>) -> (sent:
    Forwarded)
    ensures
        sent.route == spec_route(packet@),
{
    match route(&packet) {
        Route::ToServer => Forwarded { route: Route::ToServer, taken: send(to_server, packet) },
        Route::ToClient => Forwarded { route: Route::ToClient, taken: send(to_client, packet) },
    }
}

/// What the reader makes of what the inbound half gave: a frame that holds
/// a packet is that packet, one that holds none ends the run as malformed,
/// and an inbound half that is closed ends it as closed.
pub open spec fn spec_read_frame(frame: Option<Seq<u8>>) -> Result<PacketView, Pumped> {
    match frame {
        None => Err(Pumped::SourceClosed),
        Some(bytes) => match spec_decode(bytes) {
            Some(p) => Ok(p),
            None => Err(Pumped::Malformed),
        },
    }
}

/// The view of what the inbound half gave.
pub open spec fn frame_view(frame: Option<Vec<u8>>) -> Option<Seq<u8>> {
    match frame {
        Some(bytes) => Some(bytes@),
        None => None,
    }
}

/// The view of what the reader made of a frame.
pub open spec fn read_view(r: Result<Packet, Pumped>) -> Result<PacketView, Pumped> {
    match r {
        Ok(p) => Ok(p@),
        Err(end) => Err(end),
    }
}

/// What the reader makes of what the inbound half gave.
pub fn read_frame(frame: Option<Vec<u8>>) -> (r: Result<Packet, Pumped>)
    ensures
        read_view(r) == spec_read_frame(frame_view(frame)),
{
    match frame {
        None => Err(Pumped::SourceClosed),
        Some(bytes) => match Packet::decode(bytes.as_slice()) {
            Some(packet) => Ok(packet),
            None => Err(Pumped::Malformed),
        },
    }
}

/// The work of the reader task: takes up to `budget` frames from the
/// inbound half of the channel, one at a time, and sends each as a packet
/// down its stream. It ends early where the inbound half is closed, where a
/// frame is no packet, or where a stream has no reader left: as `read_frame`
/// says of what the inbound half gave and `after_send` of the word of the
/// stream.
pub fn pump(
    inbound: &Receiver<Vec<u8>>,
    to_server: &Sender<Packet>,
    to_client: &Sender<Packet>,
    budget: usize,
) -> (r: Pumped)
    ensures
        budget == 0 ==> r == Pumped::BudgetSpent,
{
    let mut left: usize = budget;
    while left > 0
        invariant
            left <= budget,
        decreases left,
    {
        let packet: Packet = match read_frame(recv(inbound)) {
            Ok(packet) => packet,
            Err(end) => {
                return end;
            },
        };
        match after_send(forward(packet, to_server, to_client).taken) {
            Some(end) => {
                return end;
            },
            None => {},
        }
        left = left - 1;
    }
    Pumped::BudgetSpent
}

} // verus!
