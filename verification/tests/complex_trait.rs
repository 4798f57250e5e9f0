use remote_trait_object::message::{encode_reply, DispatchError, HandleToExchange};
use remote_trait_object::proxy::Proxy;
use remote_trait_object::registry::{Registry, Resolution};
use std::sync::{Arc, Mutex, Weak};

const EPOCH: u32 = 1;

trait A: Send + Sync {
    fn service_object_as_argument(&self, b: Arc<dyn B>);
    fn service_object_as_return(&self) -> Arc<dyn B>;
    fn recursive_service_object(&self) -> Arc<dyn A>;
    fn get_recursion_count(&self) -> u32;
}

trait B: Send + Sync {
    fn inc(&self);
    fn get(&self) -> i32;
}

const A_SERVICE_OBJECT_AS_ARGUMENT: u32 = 0;
const A_SERVICE_OBJECT_AS_RETURN: u32 = 1;
const A_RECURSIVE_SERVICE_OBJECT: u32 = 2;
const A_GET_RECURSION_COUNT: u32 = 3;
const B_INC: u32 = 0;
const B_GET: u32 = 1;

/// What the table of a port holds: the skeleton of a hosted service.
trait Skeleton: Send + Sync {
    fn dispatch(&self, port: &Arc<TestPort>, method: u32, args: &[u8]) -> Result<Vec<u8>, DispatchError>;
}

/// A port whose peer is itself: calls go straight to its own registry. The
/// lock is held while the table is read or changed, never while a service
/// runs, so that a service can call back in.
struct TestPort {
    registry: Mutex<Registry<Arc<dyn Skeleton>>>,
}

impl TestPort {
    fn new() -> Self {
        TestPort { registry: Mutex::new(Registry::new(EPOCH)) }
    }

    fn register_len(&self) -> usize {
        self.registry.lock().unwrap().len()
    }

    /// Exports a service whose owner moves it in: the owner's share is let
    /// go at once and the peer's handle holds the only reference.
    fn export(&self, service: Arc<dyn Skeleton>) -> HandleToExchange {
        let mut registry = self.registry.lock().unwrap();
        let handle = match registry.export(service) {
            Ok(handle) => handle,
            Err(_) => panic!("the table is full"),
        };
        assert_eq!(registry.refcount(handle.service_id), Some(2));
        assert!(matches!(registry.refcount_dec(handle.service_id), Ok(None)));
        handle
    }

    fn call(self: &Arc<Self>, payload: Vec<u8>) -> Vec<u8> {
        let resolution = self.registry.lock().unwrap().resolve(&payload);
        match resolution {
            Resolution::Reply { payload, released } => {
                drop(released);
                payload
            }
            Resolution::Invoke { service_id, method, args } => {
                let service = self.registry.lock().unwrap().service(service_id).cloned();
                let result = match service {
                    Some(service) => service.dispatch(self, method, &args),
                    None => Err(DispatchError::UnknownService),
                };
                encode_reply(&result)
            }
        }
    }
}

/// A proxy bound to the port that it calls through.
struct Remote {
    port: Weak<TestPort>,
    proxy: Option<Proxy>,
}

impl Remote {
    fn import(port: &Arc<TestPort>, handle: HandleToExchange) -> Remote {
        Remote { port: Arc::downgrade(port), proxy: Some(Proxy::import(handle, EPOCH).unwrap()) }
    }

    fn invoke(&self, method: u32, args: &[u8]) -> Vec<u8> {
        let port = self.port.upgrade().unwrap();
        let request = self.proxy.as_ref().unwrap().request(method, args);
        remote_trait_object::message::parse_reply(&port.call(request)).unwrap()
    }
}

impl Drop for Remote {
    fn drop(&mut self) {
        if let (Some(port), Some(proxy)) = (self.port.upgrade(), self.proxy.take()) {
            let request = proxy.release(true).unwrap();
            assert_eq!(port.call(request), Vec::<u8>::new());
        }
    }
}

struct RemoteA(Remote);

struct RemoteB(Remote);

impl A for RemoteA {
    fn service_object_as_argument(&self, b: Arc<dyn B>) {
        let port = self.0.port.upgrade().unwrap();
        let handle = port.export(Arc::new(SkeletonB(b)));
        assert_eq!(self.0.invoke(A_SERVICE_OBJECT_AS_ARGUMENT, &handle.encode()), Vec::<u8>::new());
    }

    fn service_object_as_return(&self) -> Arc<dyn B> {
        let port = self.0.port.upgrade().unwrap();
        let handle = HandleToExchange::decode(&self.0.invoke(A_SERVICE_OBJECT_AS_RETURN, &[])).unwrap();
        Arc::new(RemoteB(Remote::import(&port, handle)))
    }

    fn recursive_service_object(&self) -> Arc<dyn A> {
        let port = self.0.port.upgrade().unwrap();
        let handle = HandleToExchange::decode(&self.0.invoke(A_RECURSIVE_SERVICE_OBJECT, &[])).unwrap();
        Arc::new(RemoteA(Remote::import(&port, handle)))
    }

    fn get_recursion_count(&self) -> u32 {
        let bytes = self.0.invoke(A_GET_RECURSION_COUNT, &[]);
        u32::from_be_bytes([bytes[0], bytes[1], bytes[2], bytes[3]])
    }
}

impl B for RemoteB {
    fn inc(&self) {
        assert_eq!(self.0.invoke(B_INC, &[]), Vec::<u8>::new());
    }

    fn get(&self) -> i32 {
        let bytes = self.0.invoke(B_GET, &[]);
        i32::from_be_bytes([bytes[0], bytes[1], bytes[2], bytes[3]])
    }
}

struct SkeletonA(Arc<dyn A>);

struct SkeletonB(Arc<dyn B>);

impl Skeleton for SkeletonA {
    fn dispatch(&self, port: &Arc<TestPort>, method: u32, args: &[u8]) -> Result<Vec<u8>, DispatchError> {
        match method {
            A_SERVICE_OBJECT_AS_ARGUMENT => {
                let handle = HandleToExchange::decode(args).ok_or(DispatchError::Decode)?;
                self.0.service_object_as_argument(Arc::new(RemoteB(Remote::import(port, handle))));
                Ok(Vec::new())
            }
            A_SERVICE_OBJECT_AS_RETURN => {
                Ok(port.export(Arc::new(SkeletonB(self.0.service_object_as_return()))).encode())
            }
            A_RECURSIVE_SERVICE_OBJECT => {
                Ok(port.export(Arc::new(SkeletonA(self.0.recursive_service_object()))).encode())
            }
            A_GET_RECURSION_COUNT => Ok(self.0.get_recursion_count().to_be_bytes().to_vec()),
            _ => Err(DispatchError::UnknownMethod),
        }
    }
}

impl Skeleton for SkeletonB {
    fn dispatch(&self, _port: &Arc<TestPort>, method: u32, _args: &[u8]) -> Result<Vec<u8>, DispatchError> {
        match method {
            B_INC => {
                self.0.inc();
                Ok(Vec::new())
            }
            B_GET => Ok(self.0.get().to_be_bytes().to_vec()),
            _ => Err(DispatchError::UnknownMethod),
        }
    }
}

struct SimpleA {
    recursion_count: u32,
}

impl SimpleA {
    pub fn new() -> Self {
        Self { recursion_count: 0 }
    }

    pub fn with_recursion_count(recursion_count: u32) -> Self {
        Self { recursion_count }
    }
}

impl A for SimpleA {
    fn service_object_as_argument(&self, b: Arc<dyn B>) {
        assert_eq!(0, b.get());
        b.inc();
        b.inc();
        b.inc();
        assert_eq!(3, b.get());
    }

    fn service_object_as_return(&self) -> Arc<dyn B> {
        Arc::new(SimpleB::new())
    }

    fn recursive_service_object(&self) -> Arc<dyn A> {
        Arc::new(SimpleA::with_recursion_count(self.recursion_count + 1))
    }

    fn get_recursion_count(&self) -> u32 {
        self.recursion_count
    }
}

struct SimpleB {
    count: Mutex<i32>,
}

impl SimpleB {
    pub fn new() -> Self {
        Self { count: Mutex::new(0) }
    }
}

impl B for SimpleB {
    fn inc(&self) {
        *self.count.lock().unwrap() += 1
    }

    fn get(&self) -> i32 {
        *self.count.lock().unwrap()
    }
}

fn create_remote_a(port: Arc<TestPort>) -> Arc<dyn A> {
    let a: Arc<dyn A> = Arc::new(SimpleA::new());
    let handle = port.export(Arc::new(SkeletonA(a)));
    Arc::new(RemoteA(Remote::import(&port, handle)))
}

#[test]
fn service_object_as_return() {
    let port = Arc::new(TestPort::new());
    let remote_a = create_remote_a(port.clone());

    let remote_b = remote_a.service_object_as_return();
    assert_eq!(remote_b.get(), 0);
    remote_b.inc();
    assert_eq!(remote_b.get(), 1);
    remote_b.inc();
    assert_eq!(remote_b.get(), 2);
    assert_eq!(port.register_len(), 2);

    drop(remote_a);
    drop(remote_b);
    assert_eq!(port.register_len(), 0);
    drop(port)
}

#[test]
fn service_object_as_argument() {
    let port = Arc::new(TestPort::new());
    let remote_a = create_remote_a(port.clone());

    let service_object_b = Arc::new(SimpleB::new());
    remote_a.service_object_as_argument(service_object_b.clone());
    assert_eq!(service_object_b.get(), 3);
    assert_eq!(port.register_len(), 1);

    drop(remote_a);
    assert_eq!(port.register_len(), 0);
    drop(port)
}

#[test]
fn recursive_service_object() {
    let port = Arc::new(TestPort::new());
    let mut remote_a = create_remote_a(port.clone());
    let mut remote_as = Vec::new();
    remote_as.push(Arc::clone(&remote_a));

    for i in 0..10 {
        assert_eq!(remote_a.get_recursion_count(), i);
        remote_a = remote_a.recursive_service_object();
        remote_as.push(Arc::clone(&remote_a));
    }
    assert_eq!(remote_a.get_recursion_count(), 10);

    let remote_b = remote_a.service_object_as_return();
    remote_b.inc();
    assert_eq!(remote_b.get(), 1);

    // remote_a + remote_b + recursive 10 remote_a = 12
    assert_eq!(port.register_len(), 12);

    drop(remote_as);
    drop(remote_a);
    drop(remote_b);
    assert_eq!(port.register_len(), 0);
    drop(port)
}
