use remote_trait_object::message::{
    delete_request, encode_failure, encode_reply, encode_request, encode_return, export_root_request,
    parse_delete_target, parse_reply, parse_request, DispatchError, HandleToExchange,
};

#[test]
fn a_request_is_service_id_method_and_arguments() {
    let payload = encode_request(0x0102_0304, 0x0a0b_0c0d, &[9, 8]);
    assert_eq!(payload, vec![1, 2, 3, 4, 0x0a, 0x0b, 0x0c, 0x0d, 9, 8]);
    let request = parse_request(&payload).unwrap();
    assert_eq!(request.service_id, 0x0102_0304);
    assert_eq!(request.method, 0x0a0b_0c0d);
    assert_eq!(request.args, vec![9, 8]);
}

#[test]
fn a_request_needs_a_whole_header() {
    assert!(parse_request(&[]).is_none());
    assert!(parse_request(&[0, 0, 0, 1, 0, 0, 0]).is_none());
    let bare = parse_request(&[0, 0, 0, 1, 0, 0, 0, 2]).unwrap();
    assert_eq!((bare.service_id, bare.method), (1, 2));
    assert!(bare.args.is_empty());
}

#[test]
fn replies_carry_a_status_byte() {
    assert_eq!(encode_return(&[4, 5]), vec![0, 4, 5]);
    assert_eq!(encode_return(&[]), vec![0]);
    assert_eq!(encode_failure(DispatchError::UnknownService), vec![1]);
    assert_eq!(encode_failure(DispatchError::UnknownMethod), vec![2]);
    assert_eq!(encode_failure(DispatchError::Decode), vec![3]);
    assert_eq!(encode_reply(&Ok(vec![7])), vec![0, 7]);
    assert_eq!(encode_reply(&Err(DispatchError::UnknownMethod)), vec![2]);
}

#[test]
fn replies_parse_back() {
    assert_eq!(parse_reply(&[0, 4, 5]), Ok(vec![4, 5]));
    assert_eq!(parse_reply(&[0]), Ok(vec![]));
    assert_eq!(parse_reply(&[]), Ok(vec![]));
    assert_eq!(parse_reply(&[1]), Err(DispatchError::UnknownService));
    assert_eq!(parse_reply(&[2]), Err(DispatchError::UnknownMethod));
    assert_eq!(parse_reply(&[3]), Err(DispatchError::Decode));
    for result in [Ok(vec![1u8, 2]), Ok(vec![]), Err(DispatchError::UnknownService), Err(DispatchError::Decode)] {
        assert_eq!(parse_reply(&encode_reply(&result)), result);
    }
}

#[test]
fn a_malformed_reply_is_a_decode_failure() {
    assert_eq!(parse_reply(&[9]), Err(DispatchError::Decode));
    assert_eq!(parse_reply(&[1, 0]), Err(DispatchError::Decode));
    assert_eq!(parse_reply(&[2, 7, 7]), Err(DispatchError::Decode));
    assert_eq!(parse_reply(&[3, 1]), Err(DispatchError::Decode));
}

#[test]
fn a_handle_is_epoch_and_service_id() {
    let handle = HandleToExchange { epoch: 0x0000_0102, service_id: 0x0300_0004 };
    assert_eq!(handle.encode(), vec![0, 0, 1, 2, 3, 0, 0, 4]);
    assert_eq!(HandleToExchange::decode(&handle.encode()), Some(handle));
    assert_eq!(HandleToExchange::decode(&[0, 0, 1, 2, 3, 0, 0]), None);
    assert_eq!(HandleToExchange::decode(&[0, 0, 1, 2, 3, 0, 0, 4, 5]), None);
    assert_eq!(HandleToExchange::decode(&[]), None);
}

#[test]
fn control_requests_go_to_service_zero() {
    assert_eq!(delete_request(0x0000_0105), vec![0, 0, 0, 0, 0, 0, 0, 0, 0, 0, 1, 5]);
    assert_eq!(export_root_request(b"ab"), vec![0, 0, 0, 0, 0, 0, 0, 1, b'a', b'b']);
    assert_eq!(parse_delete_target(&[0, 0, 1, 5]), Some(0x105));
    assert_eq!(parse_delete_target(&[0, 0, 1]), None);
    assert_eq!(parse_delete_target(&[0, 0, 1, 5, 0]), None);
}
