use remote_trait_object::packet::{Packet, SlotId};

#[test]
fn encode_puts_the_tag_first_most_significant_byte_first() {
    let packet = Packet::new(0x8000_0102, vec![7, 8, 9]);
    assert_eq!(packet.encode(), vec![0x80, 0x00, 0x01, 0x02, 7, 8, 9]);
}

#[test]
fn decode_reads_back_what_encode_wrote() {
    let slot = SlotId::new(5).unwrap();
    let request = Packet::new_request(slot, vec![1, 2, 3]);
    let decoded = Packet::decode(&request.encode()).unwrap();
    assert_eq!(decoded.slot_tag(), 5);
    assert!(decoded.is_request());
    assert_eq!(decoded.data(), &vec![1, 2, 3]);
}

#[test]
fn decode_refuses_a_buffer_without_a_whole_tag() {
    assert!(Packet::decode(&[]).is_none());
    assert!(Packet::decode(&[0, 0, 1]).is_none());
    let bare = Packet::decode(&[0, 0, 0, 9]).unwrap();
    assert_eq!(bare.slot_tag(), 9);
    assert!(bare.data().is_empty());
}

#[test]
fn slot_ids_end_below_bit_31() {
    assert!(SlotId::new(0).is_some());
    assert_eq!(SlotId::new(0x7fff_ffff).unwrap().as_raw(), 0x7fff_ffff);
    assert!(SlotId::new(0x8000_0000).is_none());
    assert!(SlotId::new(u32::MAX).is_none());
    let id = SlotId::new(77).unwrap();
    assert_eq!(id.as_usize(), 77);
    assert_eq!(id.into_request(), 77);
    assert_eq!(id.into_response(), 0x8000_004d);
}

#[test]
fn a_response_echoes_the_slot_of_its_request() {
    let request = Packet::new_request(SlotId::new(41).unwrap(), vec![5, 5]);
    let mut response = Packet::new_response_from_request(&request);
    assert!(response.is_response());
    assert!(!response.is_request());
    assert_eq!(response.slot().as_raw(), 41);
    assert_eq!(response.slot_tag(), 0x8000_0029);
    assert!(response.data().is_empty());
    response.append_data(&[1, 2]);
    response.append_data(&[3]);
    assert_eq!(response.into_data(), vec![1, 2, 3]);
}

#[test]
fn set_slot_changes_the_tag_only() {
    let mut packet = Packet::new(3, vec![8]);
    packet.set_slot(0x8000_0007);
    assert_eq!(packet.slot_tag(), 0x8000_0007);
    assert_eq!(packet.slot().as_raw(), 7);
    assert_eq!(packet.data(), &vec![8]);
    let copy = packet.duplicate();
    assert_eq!(copy.encode(), packet.encode());
}

#[test]
fn codec_round_trips_both_ways() {
    for tag in [0u32, 1, 0x7fff_ffff, 0x8000_0000, 0xdead_beef, u32::MAX] {
        for payload in [vec![], vec![0u8], vec![1, 2, 3, 4, 5]] {
            let bytes = Packet::new(tag, payload.clone()).encode();
            let back = Packet::decode(&bytes).unwrap();
            assert_eq!(back.slot_tag(), tag);
            assert_eq!(back.data(), &payload);
            assert_eq!(back.encode(), bytes);
        }
    }
}
