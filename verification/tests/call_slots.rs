use remote_trait_object::packet::Packet;
use remote_trait_object::slots::{CallError, CallTable, DeliveryError, Poll, CALLSLOT_SIZE};

fn ready(poll: Poll) -> Vec<u8> {
    match poll {
        Poll::Ready(payload) => payload,
        other => panic!("no response in the mailbox: {:?}", other),
    }
}

fn echo(request: &Packet) -> Packet {
    let mut response = Packet::new_response_from_request(request);
    response.append_data(request.data());
    response
}

#[test]
fn a_fresh_table_has_all_its_slots_free() {
    let table = CallTable::new(CALLSLOT_SIZE);
    assert_eq!(table.capacity(), 100);
    assert_eq!(table.available(), 100);
    assert!(!table.is_closed());
    let none = CallTable::new(0);
    assert_eq!(none.capacity(), 0);
}

#[test]
fn slot_exhaustion() {
    let mut table = CallTable::new(4);
    let mut requests = Vec::new();
    for i in 0..4u8 {
        let request = table.begin_call(vec![i]).unwrap();
        assert!(request.is_request());
        assert_eq!(request.slot_tag(), i as u32);
        requests.push(request);
    }
    assert_eq!(table.available(), 0);
    assert_eq!(table.begin_call(vec![4]).unwrap_err(), CallError::TooManyInflight);
    assert_eq!(table.begin_call(vec![4]).unwrap_err(), CallError::TooManyInflight);
    assert_eq!(table.deliver(echo(&requests[2])), Ok(2));
    assert_eq!(ready(table.take_response(2)), vec![2]);
    assert_eq!(table.begin_call(vec![4]).unwrap().slot_tag(), 2);
}

#[test]
fn each_caller_receives_its_own_response() {
    let mut table = CallTable::new(8);
    let payloads: Vec<Vec<u8>> = (0..8u8).map(|i| vec![i, i + 1, i + 2]).collect();
    let requests: Vec<Packet> = payloads.iter().map(|p| table.begin_call(p.clone()).unwrap()).collect();
    for (request, payload) in requests.iter().zip(payloads.iter()) {
        assert_eq!(request.data(), payload);
    }
    for i in [5usize, 0, 7, 2, 6, 1, 3, 4] {
        assert!(matches!(table.take_response(i as u32), Poll::Pending));
        assert_eq!(table.deliver(echo(&requests[i])), Ok(i as u32));
    }
    for i in [3usize, 4, 0, 1, 7, 6, 5, 2] {
        assert_eq!(ready(table.take_response(i as u32)), payloads[i]);
        assert!(matches!(table.take_response(i as u32), Poll::NotInFlight));
    }
    assert_eq!(table.available(), 8);
}

#[test]
fn freed_slots_are_handed_out_in_the_order_they_came_back() {
    let mut table = CallTable::new(3);
    let a = table.begin_call(vec![]).unwrap();
    let b = table.begin_call(vec![]).unwrap();
    let c = table.begin_call(vec![]).unwrap();
    assert_eq!((a.slot_tag(), b.slot_tag(), c.slot_tag()), (0, 1, 2));
    for request in [&c, &a, &b] {
        table.deliver(echo(request)).unwrap();
        ready(table.take_response(request.slot_tag()));
    }
    assert_eq!(table.begin_call(vec![]).unwrap().slot_tag(), 2);
    assert_eq!(table.begin_call(vec![]).unwrap().slot_tag(), 0);
    assert_eq!(table.begin_call(vec![]).unwrap().slot_tag(), 1);
}

#[test]
fn a_packet_without_a_waiting_call_has_no_place() {
    let mut table = CallTable::new(2);
    let request = table.begin_call(vec![1]).unwrap();
    assert_eq!(table.deliver(request.duplicate()), Err(DeliveryError::NotAResponse));
    assert_eq!(table.deliver(Packet::new(0x8000_0002, vec![])), Err(DeliveryError::UnknownSlot));
    assert_eq!(table.deliver(Packet::new(0x8000_0001, vec![])), Err(DeliveryError::NotWaiting));
    assert_eq!(table.deliver(echo(&request)), Ok(0));
    assert_eq!(table.deliver(echo(&request)), Err(DeliveryError::NotWaiting));
    assert!(matches!(table.take_response(9), Poll::NotInFlight));
    assert_eq!(ready(table.take_response(0)), vec![1]);
}

#[test]
fn abrupt_peer_loss() {
    let mut table = CallTable::new(4);
    let first = table.begin_call(vec![1]).unwrap();
    let _second = table.begin_call(vec![2]).unwrap();
    let _third = table.begin_call(vec![3]).unwrap();
    table.deliver(echo(&first)).unwrap();
    table.close();
    assert!(table.is_closed());
    assert_eq!(ready(table.take_response(0)), vec![1]);
    assert!(matches!(table.take_response(1), Poll::PeerGone));
    assert!(matches!(table.take_response(2), Poll::PeerGone));
    assert!(matches!(table.take_response(2), Poll::NotInFlight));
    assert_eq!(table.begin_call(vec![4]).unwrap_err(), CallError::PeerGone);
    assert_eq!(table.available(), 4);
}
