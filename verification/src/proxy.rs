//! The receiving side of a handle: the proxy that stands in for a service
//! hosted by the peer.
//!
//! A proxy accounts for exactly one reference in the registry that issued its
//! handle. It gives that reference up with a delete request when it is
//! released, unless garbage collection is switched off or the reference is
//! passed on with the handle.

use crate::message::{
    delete_request, encode_request, lemma_decode_encode_handle, lemma_parse_encode_reply,
    lemma_parse_encode_request, parse_reply, spec_decode_handle, spec_delete_request,
    spec_encode_handle, spec_encode_reply, spec_encode_request, spec_parse_reply, DispatchError,
    HandleToExchange, MethodId, RequestView, ServiceId,
};
use crate::bytes::{lemma_u32_bytes_round_trip, spec_u32_bytes};
use crate::message::{CONTROL_SERVICE_ID, METHOD_DELETE};
use crate::registry::{spec_failure, spec_resolve, EntryView, RegistryView, ResolutionView};
use vstd::prelude::*;

verus! {

/// Why a handle did not become a proxy.
#[derive(Clone, Copy, Debug, PartialEq, Eq, Structural)]
pub enum ImportError {
    /// The peer answered the request for the handle with a failure, or with
    /// bytes that are no handle (a decode failure).
    Failed(DispatchError),
    /// The handle was issued under another epoch than the issuer's current
    /// one.
    StaleEpoch,
}

/// A local stand-in for a service that the peer hosts.
///
/// A proxy holds one reference at the issuer of its handle, and dropping the
/// value frees nothing there. Whoever is done with a proxy owes it to the
/// issuer to give it up through `Port::release`, which sends the delete
/// request, or to pass the reference on with `into_handle`.
#[must_use]
#[derive(Debug)]
pub struct Proxy {
    handle: HandleToExchange,
}

impl View for Proxy {
    type V = HandleToExchange;

    closed spec fn view(&self) -> HandleToExchange {
        self.handle
    }
}

/// The request payload with which a proxy for `h` invokes `method` on
/// `args`.
pub open spec fn spec_proxy_request(h: HandleToExchange, method: MethodId, args: Seq<u8>) -> Seq<
    u8,
> {
    spec_encode_request(RequestView { service_id: h.service_id, method, args })
}

/// What importing `handle` gives when the issuer's current epoch is
/// `issuer_epoch`.
pub open spec fn spec_import(handle: HandleToExchange, issuer_epoch: u32) -> Result<
    HandleToExchange,
    ImportError,
> {
    if handle.epoch == issuer_epoch {
        Ok(handle)
    } else {
        Err(ImportError::StaleEpoch)
    }
}

/// What the reply to a request for a handle gives when the issuer's current
/// epoch is `issuer_epoch`.
pub open spec fn spec_import_reply(reply: Seq<u8>, issuer_epoch: u32) -> Result<
    HandleToExchange,
    ImportError,
> {
    match spec_parse_reply(reply) {
        Err(e) => Err(ImportError::Failed(e)),
        Ok(bytes) => match spec_decode_handle(bytes) {
            None => Err(ImportError::Failed(DispatchError::Decode)),
            Some(handle) => spec_import(handle, issuer_epoch),
        },
    }
}

/// The handle behind an imported proxy, or the reason there is none.
pub open spec fn imported_view(r: Result<Proxy, ImportError>) -> Result<
    HandleToExchange,
    ImportError,
> {
    match r {
        Ok(p) => Ok(p@),
        Err(e) => Err(e),
    }
}

impl Proxy {
    /// Turns a handle into a proxy. The handle must carry the current epoch
    /// of the port that issued it.
    pub fn import(handle: HandleToExchange, issuer_epoch: u32) -> (r: Result<Proxy, ImportError>)
        ensures
            imported_view(r) == spec_import(handle, issuer_epoch),
    {
        if handle.epoch == issuer_epoch {
            Ok(Proxy { handle })
        } else {
            Err(ImportError::StaleEpoch)
        }
    }

    /// Turns the reply to a request for a handle into a proxy.
    pub fn import_reply(reply: &[u8], issuer_epoch: u32) -> (r: Result<Proxy, ImportError>)
        ensures
            imported_view(r) == spec_import_reply(reply@, issuer_epoch),
    {
        match parse_reply(reply) {
            Err(e) => Err(ImportError::Failed(e)),
            Ok(bytes) => match HandleToExchange::decode(bytes.as_slice()) {
                None => Err(ImportError::Failed(DispatchError::Decode)),
                Some(handle) => Proxy::import(handle, issuer_epoch),
            },
        }
    }

    /// The handle that the proxy stands for.
    pub fn handle(&self) -> (h: HandleToExchange)
        ensures
            h == self@,
    {
        self.handle
    }

    /// The id of the service at the issuer.
    pub fn service_id(&self) -> (id: ServiceId)
        ensures
            id == self@.service_id,
    {
        self.handle.service_id
    }

    /// The request payload that invokes `method` on `args`.
    pub fn request(&self, method: MethodId, args: &[u8]) -> (payload: Vec<u8>)
        ensures
            payload@ == spec_proxy_request(self@, method, args@),
    {
        encode_request(self.handle.service_id, method, args)
    }

    /// Gives the proxy up for its handle, to pass it on to another holder.
    /// The reference travels with the handle: no delete request is due.
    pub fn into_handle(self) -> (h: HandleToExchange)
        ensures
            h == self@,
    {
        self.handle
    }

    /// Gives the proxy up. With garbage collection on, the result is the
    /// delete request to send to the issuer; with it off, nothing is sent.
    pub fn release(self, gc_enabled: bool) -> (request: Option<Vec<u8>>)
        ensures
            request is Some <==> gc_enabled,
            request matches Some(payload) ==> payload@ == spec_delete_request(self@.service_id),
    {
        if gc_enabled {
            Some(delete_request(self.handle.service_id))
        } else {
            None
        }
    }
}

/// A call through the proxy of an exported service reaches that service with
/// the method and the arguments of the call unchanged, and whatever the
/// service returns comes back unchanged.
///
/// `v` is the registry before `service` is exported under `id`. The handle
/// imports under the registry's epoch; the proxy's request resolves, in the
/// registry after the export, to the invocation of `method` on `args` at
/// `id`, where `service` stands; and the reply frame of `result` parses back
/// to `result`.
pub proof fn lemma_proxy_call_reaches_service<S>(
    v: RegistryView<S>,
    id: ServiceId,
    service: S,
    method: MethodId,
    args: Seq<u8>,
    result: Result<Seq<u8>, DispatchError>,
)
    requires
        v.is_least_free(id),
    ensures
        ({
            let exported = v.with_entry(id, EntryView { refcount: 2, service, root_name: None });
            let handle = v.handle(id);
            &&& spec_import(handle, v.epoch) == Ok::<HandleToExchange, ImportError>(handle)
            &&& spec_resolve(exported, spec_proxy_request(handle, method, args)) == (
                exported,
                ResolutionView::<S>::Invoke { service_id: id, method, args },
            )
            &&& exported.entries[id].service == service
            &&& spec_parse_reply(spec_encode_reply(result)) == result
        }),
{
    lemma_parse_encode_request(RequestView { service_id: id, method, args });
    lemma_parse_encode_reply(result);
}

/// The delete request of a released proxy, at the registry that issued its
/// handle: one reference to the service is given up, the answer is the empty
/// payload, which the caller reads as a confirmation, and the service object
/// comes out with its last reference. For a service that is not registered
/// the table stays as it is and the answer is that failure.
pub proof fn lemma_release_reaches_registry<S>(v: RegistryView<S>, id: ServiceId)
    ensures
        v.contains(id) ==> spec_resolve(v, spec_delete_request(id)) == (
            v.released(id),
            ResolutionView::Reply {
                payload: Seq::<u8>::empty(),
                released: if v.entries[id].refcount == 1 {
                    Some(v.entries[id].service)
                } else {
                    None
                },
            },
        ),
        !v.contains(id) ==> spec_resolve(v, spec_delete_request(id)) == (
            v,
            spec_failure::<S>(DispatchError::UnknownService),
        ),
        spec_parse_reply(Seq::<u8>::empty()) == Ok::<Seq<u8>, DispatchError>(Seq::<u8>::empty()),
{
    lemma_parse_encode_request(
        RequestView {
            service_id: CONTROL_SERVICE_ID,
            method: METHOD_DELETE,
            args: spec_u32_bytes(id),
        },
    );
    lemma_u32_bytes_round_trip(id, spec_u32_bytes(id), 0);
}

/// The handle that travels in the reply to an export-root request imports as
/// the proxy of that handle.
pub proof fn lemma_handle_survives_reply(handle: HandleToExchange)
    ensures
        spec_import_reply(spec_encode_reply(Ok(spec_encode_handle(handle))), handle.epoch) == Ok::<
            HandleToExchange,
            ImportError,
        >(handle),
{
    lemma_parse_encode_reply(Ok(spec_encode_handle(handle)));
    lemma_decode_encode_handle(handle);
}

} // verus!
