use remote_trait_object::message::{
    delete_request, encode_request, export_root_request, parse_reply, DispatchError, HandleToExchange,
};
use remote_trait_object::proxy::{ImportError, Proxy};
use remote_trait_object::registry::{invoke_service, Registry, RegistryError, Resolution};
use remote_trait_object::service::Dispatch;

struct Adder(u8);

impl Dispatch for Adder {
    fn dispatch_and_call(&self, method: u32, args: &[u8]) -> Result<Vec<u8>, DispatchError> {
        match method {
            0 => Ok(args.iter().map(|x| x.wrapping_add(self.0)).collect()),
            1 => Err(DispatchError::Decode),
            _ => Err(DispatchError::UnknownMethod),
        }
    }
}

fn reply_of(resolution: Resolution<&'static str>) -> (Vec<u8>, Option<&'static str>) {
    match resolution {
        Resolution::Reply { payload, released } => (payload, released),
        Resolution::Invoke { .. } => panic!("the registry did not answer by itself"),
    }
}

#[test]
fn ids_are_dense_and_recycled() {
    let mut registry: Registry<&'static str> = Registry::new(7);
    assert_eq!(registry.epoch(), 7);
    assert_eq!(registry.len(), 0);
    assert_eq!(registry.register("a"), Ok(1));
    assert_eq!(registry.register("b"), Ok(2));
    assert_eq!(registry.register("c"), Ok(3));
    assert_eq!(registry.len(), 3);
    assert!(!registry.contains(0));
    assert!(registry.contains(2));
    assert_eq!(registry.service(2), Some(&"b"));
    assert_eq!(registry.service(4), None);
    assert_eq!(registry.refcount_dec(2), Ok(Some("b")));
    assert_eq!(registry.refcount_dec(1), Ok(Some("a")));
    assert_eq!(registry.len(), 1);
    assert_eq!(registry.register("d"), Ok(1));
    assert_eq!(registry.register("e"), Ok(2));
    assert_eq!(registry.register("f"), Ok(4));
}

#[test]
fn a_registered_service_has_one_reference_and_an_exported_one_two() {
    let mut registry: Registry<&'static str> = Registry::new(7);
    assert_eq!(registry.register("local"), Ok(1));
    assert_eq!(registry.refcount(1), Some(1));
    assert_eq!(registry.export("shared"), Ok(HandleToExchange { epoch: 7, service_id: 2 }));
    assert_eq!(registry.refcount(2), Some(2));
    assert_eq!(registry.refcount(3), None);
    assert_eq!(registry.refcount(0), None);
}

#[test]
fn the_count_is_exports_minus_drops() {
    let mut registry: Registry<&'static str> = Registry::new(7);
    let handle = registry.export("x").unwrap();
    let id = handle.service_id;
    assert_eq!(registry.refcount_dec(id), Ok(None));
    let mut exports: u64 = 1;
    let mut drops: u64 = 0;
    for granted in [true, true, false, true, false, false, true, false] {
        if granted {
            assert_eq!(registry.refcount_inc(id), Ok(exports - drops + 1));
            exports += 1;
        } else {
            assert_eq!(registry.refcount_dec(id), Ok(None));
            drops += 1;
        }
        assert_eq!(registry.refcount(id), Some(exports - drops));
    }
    assert_eq!((exports, drops), (5, 4));
    assert_eq!(registry.refcount_dec(id), Ok(Some("x")));
    assert!(!registry.contains(id));
    assert_eq!(registry.len(), 0);
}

#[test]
fn counting_on_an_unknown_service_is_refused() {
    let mut registry: Registry<&'static str> = Registry::new(7);
    assert_eq!(registry.refcount_inc(1), Err(RegistryError::UnknownService));
    assert_eq!(registry.refcount_dec(1), Err(RegistryError::UnknownService));
    assert_eq!(registry.refcount_inc(0), Err(RegistryError::UnknownService));
    assert_eq!(registry.refcount_dec(u32::MAX), Err(RegistryError::UnknownService));
    assert_eq!(registry.len(), 0);
}

#[test]
fn delete_gives_up_one_reference_and_answers_with_the_empty_payload() {
    let mut registry: Registry<&'static str> = Registry::new(7);
    let handle = registry.export("x").unwrap();
    assert_eq!(reply_of(registry.resolve(&delete_request(handle.service_id))), (vec![], None));
    assert_eq!(registry.refcount(handle.service_id), Some(1));
    assert_eq!(reply_of(registry.resolve(&delete_request(handle.service_id))), (vec![], Some("x")));
    assert_eq!(registry.len(), 0);
    assert_eq!(reply_of(registry.resolve(&delete_request(handle.service_id))), (vec![1], None));
    assert_eq!(reply_of(registry.resolve(&encode_request(0, 0, &[0, 0, 1]))), (vec![3], None));
}

#[test]
fn export_root_hands_out_a_handle_and_a_reference() {
    let mut registry: Registry<&'static str> = Registry::new(7);
    assert_eq!(registry.register("other"), Ok(1));
    assert_eq!(registry.export_by_name(b"root", "the root"), Ok(2));
    assert_eq!(registry.refcount(2), Some(1));
    assert_eq!(registry.find_root(b"root"), Some(2));
    assert_eq!(registry.find_root(b"roo"), None);
    let (reply, released) = reply_of(registry.resolve(&export_root_request(b"root")));
    assert_eq!(reply, vec![0, 0, 0, 0, 7, 0, 0, 0, 2]);
    assert_eq!(released, None);
    assert_eq!(registry.refcount(2), Some(2));
    let proxy = Proxy::import_reply(&reply, 7).unwrap();
    assert_eq!(proxy.handle(), HandleToExchange { epoch: 7, service_id: 2 });
    assert_eq!(reply_of(registry.resolve(&export_root_request(b"none"))), (vec![1], None));
}

#[test]
fn a_root_name_is_bound_once_and_leaves_with_its_service() {
    let mut registry: Registry<&'static str> = Registry::new(7);
    assert_eq!(registry.export_by_name(b"root", "first"), Ok(1));
    assert_eq!(registry.export_by_name(b"root", "second"), Err((RegistryError::NameTaken, "second")));
    assert_eq!(registry.len(), 1);
    assert_eq!(registry.refcount_dec(1), Ok(Some("first")));
    assert_eq!(registry.find_root(b"root"), None);
    assert_eq!(registry.export_by_name(b"root", "second"), Ok(1));
    assert_eq!(registry.service(1), Some(&"second"));
}

#[test]
fn requests_resolve_to_invocations_or_failures() {
    let mut registry: Registry<&'static str> = Registry::new(7);
    assert_eq!(registry.register("x"), Ok(1));
    match registry.resolve(&encode_request(1, 9, &[4, 5])) {
        Resolution::Invoke { service_id, method, args } => {
            assert_eq!((service_id, method, args), (1, 9, vec![4, 5]));
        }
        Resolution::Reply { .. } => panic!("the request is for a registered service"),
    }
    assert_eq!(reply_of(registry.resolve(&encode_request(2, 9, &[]))), (vec![1], None));
    assert_eq!(reply_of(registry.resolve(&encode_request(0, 2, &[]))), (vec![2], None));
    assert_eq!(reply_of(registry.resolve(&[0, 0, 0, 1, 0, 0, 0])), (vec![3], None));
    assert_eq!(registry.len(), 1);
}

#[test]
fn dispatch_hands_the_request_to_the_service_and_frames_what_it_returns() {
    let mut registry: Registry<Adder> = Registry::new(7);
    let handle = match registry.export(Adder(10)) {
        Ok(handle) => handle,
        Err(_) => panic!("the table is full"),
    };
    let proxy = Proxy::import(handle, 7).unwrap();
    assert_eq!(proxy.service_id(), 1);
    let reply = registry.dispatch(&proxy.request(0, &[1, 2, 3]));
    assert_eq!(reply, vec![0, 11, 12, 13]);
    assert_eq!(parse_reply(&reply), Ok(vec![11, 12, 13]));
    assert_eq!(parse_reply(&registry.dispatch(&proxy.request(1, &[]))), Err(DispatchError::Decode));
    assert_eq!(parse_reply(&registry.dispatch(&proxy.request(5, &[]))), Err(DispatchError::UnknownMethod));
    assert_eq!(parse_reply(&registry.dispatch(&encode_request(2, 0, &[]))), Err(DispatchError::UnknownService));
    assert_eq!(registry.dispatch(&proxy.release(true).unwrap()), Vec::<u8>::new());
    assert_eq!(registry.refcount(1), Some(1));
}

#[test]
fn a_handle_of_another_epoch_is_stale() {
    let handle = HandleToExchange { epoch: 3, service_id: 1 };
    assert_eq!(Proxy::import(handle, 4).unwrap_err(), ImportError::StaleEpoch);
    assert_eq!(Proxy::import(handle, 3).unwrap().into_handle(), handle);
    assert_eq!(
        Proxy::import_reply(&[0, 0, 0, 0, 3, 0, 0, 0, 1], 4).unwrap_err(),
        ImportError::StaleEpoch
    );
    assert_eq!(
        Proxy::import_reply(&[0, 0, 0, 3], 3).unwrap_err(),
        ImportError::Failed(DispatchError::Decode)
    );
    assert_eq!(
        Proxy::import_reply(&[1], 3).unwrap_err(),
        ImportError::Failed(DispatchError::UnknownService)
    );
}

#[test]
fn a_released_proxy_sends_delete_unless_collection_is_off() {
    let handle = HandleToExchange { epoch: 3, service_id: 0x0102 };
    assert_eq!(Proxy::import(handle, 3).unwrap().release(true), Some(delete_request(0x0102)));
    assert_eq!(Proxy::import(handle, 3).unwrap().release(false), None);
}

#[test]
fn an_invocation_is_answered_with_the_frame_of_what_the_service_returned() {
    assert_eq!(invoke_service(&Adder(1), 0, &[1, 2]), vec![0, 2, 3]);
    assert_eq!(invoke_service(&Adder(1), 1, &[]), vec![3]);
    assert_eq!(invoke_service(&Adder(1), 9, &[]), vec![2]);
    let boxed: Box<dyn Dispatch> = Box::new(Adder(2));
    assert_eq!(invoke_service(&*boxed, 0, &[5]), vec![0, 7]);
}
