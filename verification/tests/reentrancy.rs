use crossbeam::channel::{unbounded, Receiver, Sender};
use remote_trait_object::channel::Pumped;
use remote_trait_object::client::{receive, Client, ClientParts};
use remote_trait_object::multiplex::pump;
use remote_trait_object::packet::Packet;
use remote_trait_object::server::{intake, serve, Server};
use remote_trait_object::service::Handler;

/// Answers a request of one byte `n`: zero is answered with zero; anything
/// else asks the peer for `n - 1` and answers with one more than the peer
/// said. Every level of the descent keeps one worker waiting.
struct Countdown<'a> {
    client: &'a Client,
}

impl Handler for Countdown<'_> {
    fn handle(&self, request: &Packet) -> Vec<u8> {
        match request.data()[0] {
            0 => vec![0],
            n => vec![self.client.call(vec![n - 1]).unwrap()[0] + 1],
        }
    }
}

fn to_the_end(mut step: impl FnMut() -> Pumped) -> Pumped {
    loop {
        match step() {
            Pumped::BudgetSpent => {}
            end => return end,
        }
    }
}

/// Runs the tasks of one peer until its inbound half is closed.
fn run_peer(
    parts: ClientParts,
    outbound: Sender<Vec<u8>>,
    inbound: Receiver<Vec<u8>>,
    workers: usize,
    caller: Option<(u8, Sender<Vec<u8>>)>,
) {
    let (to_server, requests) = unbounded();
    let (to_client, responses) = unbounded();
    let served = Server::new();
    let client = &parts.client;
    let mailboxes = &parts.mailboxes;
    crossbeam::scope(|scope| {
        scope.spawn(move |_| {
            assert_eq!(to_the_end(|| pump(&inbound, &to_server, &to_client, 7)), Pumped::Malformed);
        });
        scope.spawn(move |_| {
            assert_eq!(to_the_end(|| receive(&responses, mailboxes, 7)), Pumped::SourceClosed);
        });
        let queue_in = served.queue_in;
        scope.spawn(move |_| {
            assert_eq!(to_the_end(|| intake(&requests, &queue_in, 7)), Pumped::SourceClosed);
        });
        for _ in 0..workers {
            let queue_out = served.queue_out.clone();
            let outbound = outbound.clone();
            scope.spawn(move |_| {
                assert_eq!(to_the_end(|| serve(&Countdown { client }, &outbound, &queue_out, 7)), Pumped::SourceClosed);
            });
        }
        drop(served.queue_out);
        if let Some((depth, own_inbound)) = caller {
            assert_eq!(client.call(vec![depth]), Ok(vec![depth]));
            assert_eq!(client.call(vec![0]), Ok(vec![0]));
            // A frame that is no packet stops the reader of each side.
            outbound.send(vec![0]).unwrap();
            own_inbound.send(vec![0]).unwrap();
        }
    })
    .unwrap();
}

#[test]
fn a_handler_that_calls_back_is_answered() {
    let (a_to_b, b_inbound) = unbounded::<Vec<u8>>();
    let (b_to_a, a_inbound) = unbounded::<Vec<u8>>();
    let a = Client::new(a_to_b.clone(), 4, 5000);
    let b = Client::new(b_to_a.clone(), 4, 5000);
    let own_inbound = b_to_a.clone();
    crossbeam::scope(|scope| {
        scope.spawn(move |_| run_peer(b, b_to_a, b_inbound, 2, None));
        // Depth three keeps two workers of the peer and one of this side
        // waiting at the deepest point.
        scope.spawn(move |_| run_peer(a, a_to_b, a_inbound, 2, Some((3, own_inbound))));
    })
    .unwrap();
}
