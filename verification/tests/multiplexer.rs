use remote_trait_object::multiplex::{demux, route, Route};
use remote_trait_object::packet::Packet;

#[test]
fn requests_go_to_the_server_and_responses_to_the_client() {
    assert_eq!(route(&Packet::new(0, vec![])), Route::ToServer);
    assert_eq!(route(&Packet::new(0x7fff_ffff, vec![])), Route::ToServer);
    assert_eq!(route(&Packet::new(0x8000_0000, vec![])), Route::ToClient);
    assert_eq!(route(&Packet::new(u32::MAX, vec![])), Route::ToClient);
}

#[test]
fn each_stream_keeps_the_arrival_order() {
    let tags = [3u32, 0x8000_0001, 1, 0x8000_0007, 0x8000_0002, 9, 9, 0x8000_0001];
    let arrived: Vec<Packet> = tags.iter().enumerate().map(|(i, tag)| Packet::new(*tag, vec![i as u8])).collect();
    let (requests, responses) = demux(arrived);
    let seen = |packets: &Vec<Packet>| -> Vec<(u32, u8)> {
        packets.iter().map(|p| (p.slot_tag(), p.data()[0])).collect()
    };
    assert_eq!(seen(&requests), vec![(3, 0), (1, 2), (9, 5), (9, 6)]);
    assert_eq!(seen(&responses), vec![(0x8000_0001, 1), (0x8000_0007, 3), (0x8000_0002, 4), (0x8000_0001, 7)]);
    let (none, nothing) = demux(Vec::new());
    assert!(none.is_empty() && nothing.is_empty());
}
