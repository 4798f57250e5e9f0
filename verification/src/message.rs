//! What a payload means: requests, replies, control methods and handles.
//!
//! A request payload is the target service id, the method selector (both 32
//! bits, most significant byte first) and the serialized arguments. A reply
//! payload is one status byte and, after it, the serialized return value; the
//! empty payload is a bare confirmation, read as an empty return value.

use crate::bytes::{lemma_u32_bytes_round_trip, push_bytes, push_u32, read_u32, tail_of};
use crate::bytes::{spec_u32_at, spec_u32_bytes};
use vstd::prelude::*;

verus! {

/// Identifies a service within the registry that hosts it.
pub type ServiceId = u32;

/// Identifies a method within a service.
pub type MethodId = u32;

/// The service id that every port reserves for control methods.
pub const CONTROL_SERVICE_ID: ServiceId = 0;

/// Control method: give up one reference to a service. Argument: the
/// service id, four bytes.
pub const METHOD_DELETE: MethodId = 0;

/// Control method: ask for a handle to a named root service. Argument: the
/// name.
pub const METHOD_EXPORT_ROOT: MethodId = 1;

/// Bytes of a request payload before the arguments.
pub const REQUEST_HEADER_SIZE: usize = 8;

/// Bytes of an encoded handle.
pub const HANDLE_SIZE: usize = 8;

/// Status byte of a reply that carries a return value.
pub const STATUS_RETURN: u8 = 0;

/// Status byte of a reply to a request for a service that is not registered.
pub const STATUS_UNKNOWN_SERVICE: u8 = 1;

/// Status byte of a reply to a request for a method that the service lacks.
pub const STATUS_UNKNOWN_METHOD: u8 = 2;

/// Status byte of a reply to a request that could not be decoded.
pub const STATUS_DECODE: u8 = 3;

/// Why a request was not served. It travels in the reply; the port goes on.
#[derive(Clone, Copy, Debug, PartialEq, Eq, Structural)]
pub enum DispatchError {
    /// No service is registered under the id.
    UnknownService,
    /// The service has no method under the selector.
    UnknownMethod,
    /// The payload is malformed.
    Decode,
}

/// What a request payload is.
pub struct RequestView {
    pub service_id: ServiceId,
    pub method: MethodId,
    pub args: Seq<u8>,
}

/// A parsed request.
#[derive(Debug)]
pub struct Request {
    pub service_id: ServiceId,
    pub method: MethodId,
    pub args: Vec<u8>,
}

impl View for Request {
    type V = RequestView;

    open spec fn view(&self) -> RequestView {
        RequestView { service_id: self.service_id, method: self.method, args: self.args@ }
    }
}

/// The payload of request `r`.
pub open spec fn spec_encode_request(r: RequestView) -> Seq<u8> {
    spec_u32_bytes(r.service_id) + spec_u32_bytes(r.method) + r.args
}

/// The request that `payload` holds, if it holds a whole header.
pub open spec fn spec_parse_request(payload: Seq<u8>) -> Option<RequestView> {
    if payload.len() < REQUEST_HEADER_SIZE {
        None
    } else {
        Some(
            RequestView {
                service_id: spec_u32_at(payload, 0),
                method: spec_u32_at(payload, 4),
                args: payload.skip(REQUEST_HEADER_SIZE as int),
            },
        )
    }
}

/// The payload that asks `service_id` to run `method` on `args`.
pub fn encode_request(service_id: ServiceId, method: MethodId, args: &[u8]) -> (payload: Vec<u8>)
    ensures
        payload@ == spec_encode_request(RequestView { service_id, method, args: args@ }),
{
    let mut payload: Vec<u8> = Vec::new();
    push_u32(&mut payload, service_id);
    push_u32(&mut payload, method);
    push_bytes(&mut payload, args);
    payload
}

/// Reads a request payload. Any payload that holds a whole header is a
/// request; a shorter one is none.
pub fn parse_request(payload: &[u8]) -> (r: Option<Request>)
    ensures
        r is Some <==> payload@.len() >= REQUEST_HEADER_SIZE,
        match r {
            Some(request) => spec_parse_request(payload@) == Some(request@),
            None => spec_parse_request(payload@) is None,
        },
{
    if payload.len() < REQUEST_HEADER_SIZE {
        return None;
    }
    let service_id: u32 = read_u32(payload, 0);
    let method: u32 = read_u32(payload, 4);
    let args: Vec<u8> = tail_of(payload, REQUEST_HEADER_SIZE);
    Some(Request { service_id, method, args })
}

/// Parsing an encoded request gives the request back.
pub proof fn lemma_parse_encode_request(r: RequestView)
    ensures
        spec_parse_request(spec_encode_request(r)) == Some(r),
{
    let payload = spec_encode_request(r);
    lemma_u32_bytes_round_trip(r.service_id, payload, 0);
    lemma_u32_bytes_round_trip(r.method, payload, 4);
    assert(payload.skip(REQUEST_HEADER_SIZE as int) =~= r.args);
    assert(spec_u32_at(payload, 0) == spec_u32_at(spec_u32_bytes(r.service_id), 0));
    assert(spec_u32_at(payload, 4) == spec_u32_at(spec_u32_bytes(r.method), 0));
}

/// The status byte that stands for `e`.
pub open spec fn spec_status_of(e: DispatchError) -> u8 {
    match e {
        DispatchError::UnknownService => STATUS_UNKNOWN_SERVICE,
        DispatchError::UnknownMethod => STATUS_UNKNOWN_METHOD,
        DispatchError::Decode => STATUS_DECODE,
    }
}

/// The payload of the reply `r`.
pub open spec fn spec_encode_reply(r: Result<Seq<u8>, DispatchError>) -> Seq<u8> {
    match r {
        Ok(value) => seq![STATUS_RETURN] + value,
        Err(e) => seq![spec_status_of(e)],
    }
}

/// The reply that `payload` holds. The empty payload is a bare confirmation.
/// A failure status carries nothing after it; a status that is not known is
/// a decode failure.
pub open spec fn spec_parse_reply(payload: Seq<u8>) -> Result<Seq<u8>, DispatchError> {
    if payload.len() == 0 {
        Ok(Seq::<u8>::empty())
    } else if payload[0] == STATUS_RETURN {
        Ok(payload.skip(1))
    } else if payload[0] == STATUS_UNKNOWN_SERVICE && payload.len() == 1 {
        Err(DispatchError::UnknownService)
    } else if payload[0] == STATUS_UNKNOWN_METHOD && payload.len() == 1 {
        Err(DispatchError::UnknownMethod)
    } else {
        Err(DispatchError::Decode)
    }
}

/// The view of a reply held in exec types.
pub open spec fn reply_view(r: Result<Vec<u8>, DispatchError>) -> Result<Seq<u8>, DispatchError> {
    match r {
        Ok(value) => Ok(value@),
        Err(e) => Err(e),
    }
}

/// The payload that reports the return value `value`.
pub fn encode_return(value: &[u8]) -> (payload: Vec<u8>)
    ensures
        payload@ == spec_encode_reply(Ok(value@)),
{
    let mut payload: Vec<u8> = Vec::new();
    payload.push(STATUS_RETURN);
    push_bytes(&mut payload, value);
    payload
}

/// The payload that reports the failure `e`.
pub fn encode_failure(e: DispatchError) -> (payload: Vec<u8>)
    ensures
        payload@ == spec_encode_reply(Err(e)),
{
    let status: u8 = match e {
        DispatchError::UnknownService => STATUS_UNKNOWN_SERVICE,
        DispatchError::UnknownMethod => STATUS_UNKNOWN_METHOD,
        DispatchError::Decode => STATUS_DECODE,
    };
    let mut payload: Vec<u8> = Vec::new();
    payload.push(status);
    assert(payload@ =~= seq![status]);
    payload
}

/// The payload that reports `r`.
pub fn encode_reply(r: &Result<Vec<u8>, DispatchError>) -> (payload: Vec<u8>)
    ensures
        payload@ == spec_encode_reply(reply_view(*r)),
{
    match r {
        Ok(value) => encode_return(value.as_slice()),
        Err(e) => encode_failure(*e),
    }
}

/// Reads a reply payload.
pub fn parse_reply(payload: &[u8]) -> (r: Result<Vec<u8>, DispatchError>)
    ensures
        reply_view(r) == spec_parse_reply(payload@),
{
    if payload.len() == 0 {
        let value: Vec<u8> = Vec::new();
        return Ok(value);
    }
    let status: u8 = payload[0];
    if status == STATUS_RETURN {
        Ok(tail_of(payload, 1))
    } else if status == STATUS_UNKNOWN_SERVICE && payload.len() == 1 {
        Err(DispatchError::UnknownService)
    } else if status == STATUS_UNKNOWN_METHOD && payload.len() == 1 {
        Err(DispatchError::UnknownMethod)
    } else {
        Err(DispatchError::Decode)
    }
}

/// Parsing an encoded reply gives the reply back.
pub proof fn lemma_parse_encode_reply(r: Result<Seq<u8>, DispatchError>)
    ensures
        spec_parse_reply(spec_encode_reply(r)) == r,
{
    match r {
        Ok(value) => {
            assert(spec_encode_reply(r).skip(1) =~= value);
        },
        Err(e) => {},
    }
}

/// The token that names a service hosted by a peer: the epoch of the port
/// that issued it and the service's id there.
#[derive(Clone, Copy, Debug, PartialEq, Eq, Structural)]
pub struct HandleToExchange {
    pub epoch: u32,
    pub service_id: ServiceId,
}

/// The bytes of `h`: the epoch and the service id.
pub open spec fn spec_encode_handle(h: HandleToExchange) -> Seq<u8> {
    spec_u32_bytes(h.epoch) + spec_u32_bytes(h.service_id)
}

/// The handle that `bytes` hold, if they are exactly one handle.
pub open spec fn spec_decode_handle(bytes: Seq<u8>) -> Option<HandleToExchange> {
    if bytes.len() != HANDLE_SIZE {
        None
    } else {
        Some(HandleToExchange { epoch: spec_u32_at(bytes, 0), service_id: spec_u32_at(bytes, 4) })
    }
}

impl HandleToExchange {
    /// The handle as bytes.
    pub fn encode(&self) -> (bytes: Vec<u8>)
        ensures
            bytes@ == spec_encode_handle(*self),
            bytes@.len() == HANDLE_SIZE,
    {
        let mut bytes: Vec<u8> = Vec::new();
        push_u32(&mut bytes, self.epoch);
        push_u32(&mut bytes, self.service_id);
        bytes
    }

    /// Reads a handle. Exactly eight bytes are a handle; anything else is
    /// none.
    pub fn decode(bytes: &[u8]) -> (h: Option<HandleToExchange>)
        ensures
            h == spec_decode_handle(bytes@),
    {
        if bytes.len() != HANDLE_SIZE {
            return None;
        }
        let epoch: u32 = read_u32(bytes, 0);
        let service_id: u32 = read_u32(bytes, 4);
        Some(HandleToExchange { epoch, service_id })
    }
}

/// Decoding an encoded handle gives the handle back.
pub proof fn lemma_decode_encode_handle(h: HandleToExchange)
    ensures
        spec_decode_handle(spec_encode_handle(h)) == Some(h),
{
    let bytes = spec_encode_handle(h);
    lemma_u32_bytes_round_trip(h.epoch, bytes, 0);
    lemma_u32_bytes_round_trip(h.service_id, bytes, 4);
    assert(spec_u32_at(bytes, 0) == spec_u32_at(spec_u32_bytes(h.epoch), 0));
    assert(spec_u32_at(bytes, 4) == spec_u32_at(spec_u32_bytes(h.service_id), 0));
}

/// The control request that gives up one reference to `target`.
pub open spec fn spec_delete_request(target: ServiceId) -> Seq<u8> {
    spec_encode_request(
        RequestView {
            service_id: CONTROL_SERVICE_ID,
            method: METHOD_DELETE,
            args: spec_u32_bytes(target),
        },
    )
}

/// The control request that asks for the root service named `name`.
pub open spec fn spec_export_root_request(name: Seq<u8>) -> Seq<u8> {
    spec_encode_request(
        RequestView { service_id: CONTROL_SERVICE_ID, method: METHOD_EXPORT_ROOT, args: name },
    )
}

/// The payload of the control request that gives up one reference to
/// `target`.
pub fn delete_request(target: ServiceId) -> (payload: Vec<u8>)
    ensures
        payload@ == spec_delete_request(target),
{
    let mut args: Vec<u8> = Vec::new();
    push_u32(&mut args, target);
    encode_request(CONTROL_SERVICE_ID, METHOD_DELETE, args.as_slice())
}

/// The payload of the control request that asks for the root service named
/// `name`.
pub fn export_root_request(name: &[u8]) -> (payload: Vec<u8>)
    ensures
        payload@ == spec_export_root_request(name@),
{
    encode_request(CONTROL_SERVICE_ID, METHOD_EXPORT_ROOT, name)
}

/// Reads the argument of a delete request: exactly four bytes.
pub fn parse_delete_target(args: &[u8]) -> (target: Option<ServiceId>)
    ensures
        target == spec_delete_target(args@),
{
    if args.len() != 4 {
        return None;
    }
    Some(read_u32(args, 0))
}

/// The service id that the argument bytes of a delete request name.
pub open spec fn spec_delete_target(args: Seq<u8>) -> Option<ServiceId> {
    if args.len() != 4 {
        None
    } else {
        Some(spec_u32_at(args, 0))
    }
}

} // verus!
