//! A remote trait-object runtime: two peers exchange handles to service
//! objects over one duplex byte channel and invoke methods on them.
//!
//! The crate is the verified core of a port: the packet codec, the request
//! and reply framing, the call-slot coordination of the outbound engine, the
//! service registry with its handle exchange and reference counting, the
//! routing rule of the multiplexer, the teardown order, and the bindings of
//! these onto `crossbeam` channels.

pub mod bytes;
pub mod channel;
pub mod client;
pub mod control;
pub mod lifecycle;
pub mod message;
pub mod multiplex;
pub mod packet;
pub mod port;
pub mod proxy;
pub mod registry;
pub mod server;
pub mod service;
pub mod slots;
