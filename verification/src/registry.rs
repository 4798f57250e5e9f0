//! The service registry: which services a port hosts, under which ids, and
//! how many references each one has.
//!
//! Ids are dense and recycled: a new service takes the least id that is free.
//! Id 0 is never given out; requests to it are control methods. A service
//! lives while its count is positive. The count sums the shares of local
//! holders and of the handles that peers hold.

use crate::bytes::{copy_of, same_bytes};
use crate::message::{
    encode_failure, encode_return, parse_delete_target, parse_request, spec_delete_target,
    spec_encode_handle, spec_encode_reply, spec_parse_request, DispatchError, HandleToExchange,
    MethodId, ServiceId, CONTROL_SERVICE_ID, METHOD_DELETE, METHOD_EXPORT_ROOT,
};
use crate::service::Dispatch;
use vstd::prelude::*;

verus! {

/// What the registry holds for one service.
pub struct EntryView<S> {
    /// References to the service, local and remote together.
    pub refcount: nat,
    /// The service object.
    pub service: S,
    /// The name under which peers can ask for the service, if it is a root.
    pub root_name: Option<Seq<u8>>,
}

/// What a registry is: its epoch and its table.
pub struct RegistryView<S> {
    pub epoch: u32,
    pub entries: Map<ServiceId, EntryView<S>>,
}

impl<S> RegistryView<S> {
    /// Whether a service is registered under `id`.
    pub open spec fn contains(self, id: ServiceId) -> bool {
        self.entries.dom().contains(id)
    }

    /// Whether `id` is registered as the root named `name`.
    pub open spec fn names(self, id: ServiceId, name: Seq<u8>) -> bool {
        self.contains(id) && self.entries[id].root_name == Some(name)
    }

    /// The id of the root named `name`.
    pub open spec fn root(self, name: Seq<u8>) -> Option<ServiceId> {
        if exists|id: ServiceId| self.names(id, name) {
            Some(choose|id: ServiceId| self.names(id, name))
        } else {
            None
        }
    }

    /// The table's invariant: finitely many services, none under the control
    /// id, every count positive, no root name used twice.
    pub open spec fn wf(self) -> bool {
        &&& self.entries.dom().finite()
        &&& !self.contains(CONTROL_SERVICE_ID)
        &&& forall|id: ServiceId| self.contains(id) ==> (#[trigger] self.entries[id]).refcount >= 1
        &&& forall|a: ServiceId, b: ServiceId|
            self.contains(a) && self.contains(b) && (#[trigger] self.entries[a]).root_name is Some
                && self.entries[a].root_name == (#[trigger] self.entries[b]).root_name ==> a == b
    }

    /// Whether `id` is the id that the next registration takes: the least
    /// free id above the control id.
    pub open spec fn is_least_free(self, id: ServiceId) -> bool {
        &&& id >= 1
        &&& !self.contains(id)
        &&& forall|j: ServiceId| 1 <= j < id ==> self.contains(j)
    }

    /// Whether every id is taken.
    pub open spec fn full(self) -> bool {
        forall|id: ServiceId| id >= 1 ==> self.contains(id)
    }

    /// Number of registered services.
    pub open spec fn len(self) -> nat {
        self.entries.dom().len()
    }

    /// The registry with `entry` under `id`.
    pub open spec fn with_entry(self, id: ServiceId, entry: EntryView<S>) -> Self {
        RegistryView { epoch: self.epoch, entries: self.entries.insert(id, entry) }
    }

    /// The registry after one more reference to `id` was taken. Without a
    /// service under `id` nothing changes.
    pub open spec fn retained(self, id: ServiceId) -> Self {
        if self.contains(id) {
            let e = self.entries[id];
            self.with_entry(
                id,
                EntryView { refcount: e.refcount + 1, service: e.service, root_name: e.root_name },
            )
        } else {
            self
        }
    }

    /// The registry after one reference to `id` was given up: the count
    /// falls by one, and the entry leaves with its last reference. Without a
    /// service under `id` nothing changes.
    pub open spec fn released(self, id: ServiceId) -> Self {
        if !self.contains(id) {
            self
        } else if self.entries[id].refcount <= 1 {
            RegistryView { epoch: self.epoch, entries: self.entries.remove(id) }
        } else {
            let e = self.entries[id];
            self.with_entry(
                id,
                EntryView {
                    refcount: (e.refcount - 1) as nat,
                    service: e.service,
                    root_name: e.root_name,
                },
            )
        }
    }

    /// The handle that this registry issues for `id`.
    pub open spec fn handle(self, id: ServiceId) -> HandleToExchange {
        HandleToExchange { epoch: self.epoch, service_id: id }
    }
}

/// Why the registry refused.
#[derive(Clone, Copy, Debug, PartialEq, Eq, Structural)]
pub enum RegistryError {
    /// No service is registered under the id.
    UnknownService,
    /// The count of the service cannot grow any further.
    CountOverflow,
    /// Every id is taken.
    Full,
    /// A root of that name is registered already.
    NameTaken,
}

struct Entry<S> {
    refcount: u64,
    service: S,
    root_name: Option<Vec<u8>>,
}

impl<S> Entry<S> {
    spec fn name_view(&self) -> Option<Seq<u8>> {
        match self.root_name {
            Some(n) => Some(n@),
            None => None,
        }
    }

    spec fn model(&self) -> EntryView<S> {
        EntryView {
            refcount: self.refcount as nat,
            service: self.service,
            root_name: self.name_view(),
        }
    }
}

/// The services that a port hosts.
pub struct Registry<S> {
    epoch: u32,
    entries: Vec<Option<Entry<S>>>,
}

spec fn live_ids<S>(s: Seq<Option<Entry<S>>>) -> Set<ServiceId> {
    Set::new(|id: ServiceId| (id as int) < s.len() && s[id as int] is Some)
}

spec fn count_live<S>(s: Seq<Option<Entry<S>>>) -> nat
    decreases s.len(),
{
    if s.len() == 0 {
        0
    } else {
        count_live(s.drop_last()) + if s.last() is Some {
            1nat
        } else {
            0nat
        }
    }
}

proof fn lemma_live_ids<S>(s: Seq<Option<Entry<S>>>)
    requires
        s.len() <= u32::MAX + 1,
    ensures
        live_ids(s).finite(),
        live_ids(s).len() == count_live(s),
    decreases s.len(),
{
    if s.len() == 0 {
        assert(live_ids(s) =~= Set::<ServiceId>::empty());
    } else {
        let shorter = s.drop_last();
        lemma_live_ids(shorter);
        let top: ServiceId = (s.len() - 1) as ServiceId;
        if s.last() is Some {
            assert(live_ids(s) =~= live_ids(shorter).insert(top));
            assert(!live_ids(shorter).contains(top));
        } else {
            assert(live_ids(s) =~= live_ids(shorter));
        }
    }
}

impl<S> View for Registry<S> {
    type V = RegistryView<S>;

    closed spec fn view(&self) -> RegistryView<S> {
        RegistryView {
            epoch: self.epoch,
            entries: Map::new(
                |id: ServiceId| (id as int) < self.entries@.len() && self.entries@[id as int] is Some,
                |id: ServiceId| self.entries@[id as int].unwrap().model(),
            ),
        }
    }
}

impl<S> Registry<S> {
    /// The invariant of the table. Every constructor gives it and every
    /// method keeps it.
    pub closed spec fn wf(&self) -> bool {
        &&& 1 <= self.entries@.len() <= u32::MAX + 1
        &&& self.entries@[0] is None
        &&& self@.wf()
    }

    /// A well-formed registry has a well-formed table.
    pub proof fn lemma_wf_view(&self)
        requires
            self.wf(),
        ensures
            self@.wf(),
    {
    }

    proof fn lemma_shape(&self)
        requires
            1 <= self.entries@.len() <= u32::MAX + 1,
        ensures
            self@.entries.dom() == live_ids(self.entries@),
            self@.entries.dom().finite(),
            self@.len() == count_live(self.entries@),
            forall|id: ServiceId|
                self@.contains(id) <==> ((id as int) < self.entries@.len()
                    && self.entries@[id as int] is Some),
            forall|id: ServiceId|
                self@.contains(id) ==> self@.entries[id] == self.entries@[id as int].unwrap().model(),
    {
        assert(self@.entries.dom() =~= live_ids(self.entries@));
        lemma_live_ids(self.entries@);
    }

    /// An empty registry for the port of epoch `epoch`.
    pub fn new(epoch: u32) -> (r: Registry<S>)
        ensures
            r.wf(),
            r@ == (RegistryView::<S> { epoch, entries: Map::empty() }),
    {
        let mut entries: Vec<Option<Entry<S>>> = Vec::new();
        entries.push(None);
        let r = Registry { epoch, entries };
        proof {
            r.lemma_shape();
            assert(r@.entries =~= Map::<ServiceId, EntryView<S>>::empty());
        }
        r
    }

    /// The epoch that the handles of this registry carry.
    pub fn epoch(&self) -> (epoch: u32)
        ensures
            epoch == self@.epoch,
    {
        self.epoch
    }

    /// Number of registered services.
    pub fn len(&self) -> (n: usize)
        requires
            self.wf(),
        ensures
            n == self@.len(),
    {
        let mut n: usize = 0;
        let mut i: usize = 0;
        while i < self.entries.len()
            invariant
                i <= self.entries@.len(),
                n == count_live(self.entries@.take(i as int)),
                n <= i,
            decreases self.entries@.len() - i,
        {
            proof {
                assert(self.entries@.take(i + 1).drop_last() =~= self.entries@.take(i as int));
            }
            if self.entries[i].is_some() {
                n = n + 1;
            }
            i = i + 1;
        }
        proof {
            assert(self.entries@.take(i as int) =~= self.entries@);
            self.lemma_shape();
        }
        n
    }

    /// Whether a service is registered under `id`.
    pub fn contains(&self, id: ServiceId) -> (yes: bool)
        requires
            self.wf(),
        ensures
            yes == self@.contains(id),
    {
        proof {
            self.lemma_shape();
        }
        let i: usize = id as usize;
        i < self.entries.len() && self.entries[i].is_some()
    }

    /// The service registered under `id`.
    pub fn service(&self, id: ServiceId) -> (s: Option<&S>)
        requires
            self.wf(),
        ensures
            s is Some <==> self@.contains(id),
            s matches Some(found) ==> *found == self@.entries[id].service,
    {
        proof {
            self.lemma_shape();
        }
        let i: usize = id as usize;
        if i >= self.entries.len() {
            return None;
        }
        match &self.entries[i] {
            Some(e) => Some(&e.service),
            None => None,
        }
    }

    /// The count of the service registered under `id`.
    pub fn refcount(&self, id: ServiceId) -> (count: Option<u64>)
        requires
            self.wf(),
        ensures
            count is Some <==> self@.contains(id),
            count matches Some(c) ==> c == self@.entries[id].refcount,
    {
        proof {
            self.lemma_shape();
        }
        let i: usize = id as usize;
        if i >= self.entries.len() {
            return None;
        }
        match &self.entries[i] {
            Some(e) => Some(e.refcount),
            None => None,
        }
    }

    /// The id of the root named `name`.
    pub fn find_root(&self, name: &[u8]) -> (id: Option<ServiceId>)
        requires
            self.wf(),
        ensures
            id == self@.root(name@),
    {
        proof {
            self.lemma_shape();
        }
        let mut i: usize = 1;
        while i < self.entries.len()
            invariant
                self.wf(),
                1 <= i <= self.entries@.len(),
                forall|id: ServiceId| (id as int) < i ==> !self@.names(id, name@),
            decreases self.entries@.len() - i,
        {
            proof {
                self.lemma_shape();
            }
            let found: bool = match &self.entries[i] {
                Some(e) => match &e.root_name {
                    Some(n) => same_bytes(n.as_slice(), name),
                    None => false,
                },
                None => false,
            };
            if found {
                let id: ServiceId = i as ServiceId;
                proof {
                    assert(self@.names(id, name@));
                    let other = choose|id: ServiceId| self@.names(id, name@);
                    assert(self@.names(other, name@));
                    assert(self@.entries[id].root_name == self@.entries[other].root_name);
                }
                return Some(id);
            }
            i = i + 1;
        }
        proof {
            self.lemma_shape();
            assert forall|id: ServiceId| !self@.names(id, name@) by {
                if (id as int) < self.entries@.len() {
                }
            }
        }
        None
    }

    fn first_free(&self) -> (i: usize)
        requires
            self.wf(),
        ensures
            1 <= i <= self.entries@.len(),
            forall|j: int| 1 <= j < i ==> self.entries@[j] is Some,
            i < self.entries@.len() ==> self.entries@[i as int] is None,
    {
        let mut i: usize = 1;
        while i < self.entries.len()
            invariant
                1 <= i <= self.entries@.len(),
                forall|j: int| 1 <= j < i ==> self.entries@[j] is Some,
            decreases self.entries@.len() - i,
        {
            if self.entries[i].is_none() {
                return i;
            }
            i = i + 1;
        }
        i
    }

    fn insert(&mut self, entry: Entry<S>) -> (r: Result<ServiceId, Entry<S>>)
        requires
            old(self).wf(),
            entry.refcount >= 1,
            entry.name_view() matches Some(n) ==> old(self)@.root(n) is None,
        ensures
            final(self).wf(),
            match r {
                Ok(id) => old(self)@.is_least_free(id) && final(self)@ == old(self)@.with_entry(
                    id,
                    entry.model(),
                ),
                Err(e) => e == entry && old(self)@.full() && final(self)@ == old(self)@,
            },
    {
        proof {
            self.lemma_shape();
        }
        let i: usize = self.first_free();
        let ghost model = entry.model();
        if i < self.entries.len() {
            self.entries[i] = Some(entry);
        } else if self.entries.len() <= u32::MAX as usize {
            self.entries.push(Some(entry));
        } else {
            proof {
                assert forall|id: ServiceId| id >= 1 implies self@.contains(id) by {
                    assert(self.entries@[id as int] is Some);
                }
            }
            return Err(entry);
        }
        let id: ServiceId = i as ServiceId;
        proof {
            self.lemma_shape();
            assert(old(self)@.is_least_free(id)) by {
                assert forall|j: ServiceId| 1 <= j < id implies old(self)@.contains(j) by {
                    assert(old(self).entries@[j as int] is Some);
                }
            }
            assert(self@.entries =~= old(self)@.entries.insert(id, model));
            assert(self@ == old(self)@.with_entry(id, model));
            assert forall|a: ServiceId, b: ServiceId|
                self@.contains(a) && self@.contains(b) && (#[trigger] self@.entries[a]).root_name is Some
                    && self@.entries[a].root_name == (#[trigger] self@.entries[b]).root_name implies a
                == b by {
                if a != b && (a == id || b == id) {
                    let other = if a == id {
                        b
                    } else {
                        a
                    };
                    assert(old(self)@.names(other, model.root_name.unwrap()));
                }
            }
        }
        Ok(id)
    }

    /// Registers `service` under the least free id, with a count of one: the
    /// share of the local owner. A full table hands the service back.
    pub fn register(&mut self, service: S) -> (r: Result<ServiceId, S>)
        requires
            old(self).wf(),
        ensures
            final(self).wf(),
            match r {
                Ok(id) => old(self)@.is_least_free(id) && final(self)@ == old(self)@.with_entry(
                    id,
                    EntryView { refcount: 1, service, root_name: None },
                ),
                Err(s) => s == service && old(self)@.full() && final(self)@ == old(self)@,
            },
    {
        match self.insert(Entry { refcount: 1, service, root_name: None }) {
            Ok(id) => Ok(id),
            Err(e) => Err(e.service),
        }
    }

    /// Registers `service` and grants the peer one handle to it: the count
    /// is two, one share for the local owner and one for the peer. A full
    /// table hands the service back.
    pub fn export(&mut self, service: S) -> (r: Result<HandleToExchange, S>)
        requires
            old(self).wf(),
        ensures
            final(self).wf(),
            match r {
                Ok(h) => old(self)@.is_least_free(h.service_id) && h == old(self)@.handle(
                    h.service_id,
                ) && final(self)@ == old(self)@.with_entry(
                    h.service_id,
                    EntryView { refcount: 2, service, root_name: None },
                ),
                Err(s) => s == service && old(self)@.full() && final(self)@ == old(self)@,
            },
    {
        match self.insert(Entry { refcount: 2, service, root_name: None }) {
            Ok(id) => Ok(HandleToExchange { epoch: self.epoch, service_id: id }),
            Err(e) => Err(e.service),
        }
    }

    /// Registers `service` as the root named `name`, with a count of one:
    /// the share of the port. A name that is taken, or a full table, hands
    /// the service back.
    pub fn export_by_name(&mut self, name: &[u8], service: S) -> (r: Result<
        ServiceId,
        (RegistryError, S),
    >)
        requires
            old(self).wf(),
        ensures
            final(self).wf(),
            match r {
                Ok(id) => old(self)@.root(name@) is None && old(self)@.is_least_free(id) && final(self)@ == old(self)@.with_entry(
                    id,
                    EntryView { refcount: 1, service, root_name: Some(name@) },
                ),
                Err((e, s)) => s == service && final(self)@ == old(self)@ && if old(self)@.root(
                    name@,
                ) is Some {
                    e == RegistryError::NameTaken
                } else {
                    e == RegistryError::Full && old(self)@.full()
                },
            },
    {
        if self.find_root(name).is_some() {
            return Err((RegistryError::NameTaken, service));
        }
        match self.insert(Entry { refcount: 1, service, root_name: Some(copy_of(name)) }) {
            Ok(id) => Ok(id),
            Err(e) => Err((RegistryError::Full, e.service)),
        }
    }

    /// Takes one more reference to the service under `id` and gives the new
    /// count.
    pub fn refcount_inc(&mut self, id: ServiceId) -> (r: Result<u64, RegistryError>)
        requires
            old(self).wf(),
        ensures
            final(self).wf(),
            match r {
                Ok(count) => old(self)@.contains(id) && count == old(self)@.entries[id].refcount + 1
                    && final(self)@ == old(self)@.retained(id),
                Err(e) => final(self)@ == old(self)@ && if !old(self)@.contains(id) {
                    e == RegistryError::UnknownService
                } else {
                    e == RegistryError::CountOverflow && old(self)@.entries[id].refcount == u64::MAX
                },
            },
    {
        proof {
            self.lemma_shape();
        }
        let i: usize = id as usize;
        if i >= self.entries.len() {
            return Err(RegistryError::UnknownService);
        }
        let mut taken: Option<Entry<S>> = None;
        core::mem::swap(&mut taken, &mut self.entries[i]);
        match taken {
            None => {
                proof {
                    assert(self.entries@ =~= old(self).entries@);
                }
                Err(RegistryError::UnknownService)
            },
            Some(e) => {
                if e.refcount == u64::MAX {
                    self.entries[i] = Some(e);
                    proof {
                        assert(self.entries@ =~= old(self).entries@);
                    }
                    return Err(RegistryError::CountOverflow);
                }
                let count: u64 = e.refcount + 1;
                let ghost before = e.model();
                self.entries[i] = Some(
                    Entry { refcount: count, service: e.service, root_name: e.root_name },
                );
                proof {
                    self.lemma_shape();
                    let after = EntryView {
                        refcount: before.refcount + 1,
                        service: before.service,
                        root_name: before.root_name,
                    };
                    assert(self@.entries =~= old(self)@.entries.insert(id, after));
                    assert(self@ == old(self)@.retained(id));
                }
                Ok(count)
            },
        }
    }

    /// Gives up one reference to the service under `id`. With the last
    /// reference the entry leaves the table and the service object comes
    /// back to the caller, to be dropped.
    pub fn refcount_dec(&mut self, id: ServiceId) -> (r: Result<Option<S>, RegistryError>)
        requires
            old(self).wf(),
        ensures
            final(self).wf(),
            match r {
                Ok(freed) => old(self)@.contains(id) && final(self)@ == old(self)@.released(id)
                    && freed == (if old(self)@.entries[id].refcount == 1 {
                    Some(old(self)@.entries[id].service)
                } else {
                    None
                }),
                Err(e) => e == RegistryError::UnknownService && !old(self)@.contains(id) && final(self)@ == old(self)@,
            },
    {
        proof {
            self.lemma_shape();
        }
        let i: usize = id as usize;
        if i >= self.entries.len() {
            return Err(RegistryError::UnknownService);
        }
        let mut taken: Option<Entry<S>> = None;
        core::mem::swap(&mut taken, &mut self.entries[i]);
        match taken {
            None => {
                proof {
                    assert(self.entries@ =~= old(self).entries@);
                }
                Err(RegistryError::UnknownService)
            },
            Some(e) => {
                let ghost before = e.model();
                proof {
                    assert(old(self)@.entries[id] == before);
                    assert(before.refcount >= 1);
                }
                if e.refcount == 1 {
                    proof {
                        self.lemma_shape();
                        assert(self@.entries =~= old(self)@.entries.remove(id));
                        assert(self@ == old(self)@.released(id));
                    }
                    Ok(Some(e.service))
                } else {
                    let count: u64 = e.refcount - 1;
                    self.entries[i] = Some(
                        Entry { refcount: count, service: e.service, root_name: e.root_name },
                    );
                    proof {
                        self.lemma_shape();
                        let after = EntryView {
                            refcount: (before.refcount - 1) as nat,
                            service: before.service,
                            root_name: before.root_name,
                        };
                        assert(self@.entries =~= old(self)@.entries.insert(id, after));
                        assert(self@ == old(self)@.released(id));
                    }
                    Ok(None)
                }
            },
        }
    }
}

/// What the registry makes of a request.
pub enum ResolutionView<S> {
    /// The registry answered by itself. `released` is the service object
    /// that left the table with its last reference.
    Reply { payload: Seq<u8>, released: Option<S> },
    /// The request is for a registered service, which is to run `method` on
    /// `args`.
    Invoke { service_id: ServiceId, method: MethodId, args: Seq<u8> },
}

/// What the registry makes of a request.
pub enum Resolution<S> {
    /// The registry answered by itself. `released` is the service object
    /// that left the table with its last reference; the caller drops it.
    Reply { payload: Vec<u8>, released: Option<S> },
    /// The request is for a registered service, which is to run `method` on
    /// `args`.
    Invoke { service_id: ServiceId, method: MethodId, args: Vec<u8> },
}

impl<S> View for Resolution<S> {
    type V = ResolutionView<S>;

    open spec fn view(&self) -> ResolutionView<S> {
        match *self {
            Resolution::Reply { payload, released } => ResolutionView::Reply {
                payload: payload@,
                released,
            },
            Resolution::Invoke { service_id, method, args } => ResolutionView::Invoke {
                service_id,
                method,
                args: args@,
            },
        }
    }
}

/// The reply that reports the failure `e` and releases nothing.
pub open spec fn spec_failure<S>(e: DispatchError) -> ResolutionView<S> {
    ResolutionView::Reply { payload: spec_encode_reply(Err(e)), released: None }
}

/// What a control method does to the registry and what is answered.
///
/// Delete gives up one reference to the service that its four argument bytes
/// name and answers with the empty payload. Export-root takes one more
/// reference to the root that its argument names and answers with the
/// handle. A root whose count cannot grow is answered as unknown.
pub open spec fn spec_control<S>(v: RegistryView<S>, method: MethodId, args: Seq<u8>) -> (
    RegistryView<S>,
    ResolutionView<S>,
) {
    if method == METHOD_DELETE {
        match spec_delete_target(args) {
            None => (v, spec_failure(DispatchError::Decode)),
            Some(target) => if v.contains(target) {
                (
                    v.released(target),
                    ResolutionView::Reply {
                        payload: Seq::<u8>::empty(),
                        released: if v.entries[target].refcount == 1 {
                            Some(v.entries[target].service)
                        } else {
                            None
                        },
                    },
                )
            } else {
                (v, spec_failure(DispatchError::UnknownService))
            },
        }
    } else if method == METHOD_EXPORT_ROOT {
        match v.root(args) {
            None => (v, spec_failure(DispatchError::UnknownService)),
            Some(id) => if v.entries[id].refcount < u64::MAX {
                (
                    v.retained(id),
                    ResolutionView::Reply {
                        payload: spec_encode_reply(Ok(spec_encode_handle(v.handle(id)))),
                        released: None,
                    },
                )
            } else {
                (v, spec_failure(DispatchError::UnknownService))
            },
        }
    } else {
        (v, spec_failure(DispatchError::UnknownMethod))
    }
}

/// What a request payload does to the registry and what comes of it.
///
/// A payload without a whole header is a decode failure. A request to the
/// control id is a control method. A request to a registered service is to
/// be run by that service; one to any other id is answered as unknown.
pub open spec fn spec_resolve<S>(v: RegistryView<S>, payload: Seq<u8>) -> (
    RegistryView<S>,
    ResolutionView<S>,
) {
    match spec_parse_request(payload) {
        None => (v, spec_failure(DispatchError::Decode)),
        Some(r) => if r.service_id == CONTROL_SERVICE_ID {
            spec_control(v, r.method, r.args)
        } else if v.contains(r.service_id) {
            (
                v,
                ResolutionView::Invoke { service_id: r.service_id, method: r.method, args: r.args },
            )
        } else {
            (v, spec_failure(DispatchError::UnknownService))
        },
    }
}

impl<S> Registry<S> {
    fn failure(e: DispatchError) -> (r: Resolution<S>)
        ensures
            r@ == spec_failure::<S>(e),
    {
        Resolution::Reply { payload: encode_failure(e), released: None }
    }

    fn control(&mut self, method: MethodId, args: &[u8]) -> (r: Resolution<S>)
        requires
            old(self).wf(),
        ensures
            final(self).wf(),
            (final(self)@, r@) == spec_control(old(self)@, method, args@),
    {
        if method == METHOD_DELETE {
            match parse_delete_target(args) {
                None => Self::failure(DispatchError::Decode),
                Some(target) => match self.refcount_dec(target) {
                    Ok(freed) => Resolution::Reply { payload: Vec::new(), released: freed },
                    Err(_) => Self::failure(DispatchError::UnknownService),
                },
            }
        } else if method == METHOD_EXPORT_ROOT {
            match self.find_root(args) {
                None => Self::failure(DispatchError::UnknownService),
                Some(id) => {
                    let handle = HandleToExchange { epoch: self.epoch, service_id: id };
                    match self.refcount_inc(id) {
                        Ok(_) => {
                            let bytes: Vec<u8> = handle.encode();
                            Resolution::Reply {
                                payload: encode_return(bytes.as_slice()),
                                released: None,
                            }
                        },
                        Err(_) => Self::failure(DispatchError::UnknownService),
                    }
                },
            }
        } else {
            Self::failure(DispatchError::UnknownMethod)
        }
    }

    /// Takes a request payload as far as the registry can: control methods
    /// are carried out and answered; a request for a registered service
    /// comes back as the invocation to make; anything else is answered with
    /// its failure.
    pub fn resolve(&mut self, payload: &[u8]) -> (r: Resolution<S>)
        requires
            old(self).wf(),
        ensures
            final(self).wf(),
            (final(self)@, r@) == spec_resolve(old(self)@, payload@),
    {
        let request = match parse_request(payload) {
            None => {
                return Self::failure(DispatchError::Decode);
            },
            Some(request) => request,
        };
        if request.service_id == CONTROL_SERVICE_ID {
            self.control(request.method, request.args.as_slice())
        } else if self.contains(request.service_id) {
            Resolution::Invoke {
                service_id: request.service_id,
                method: request.method,
                args: request.args,
            }
        } else {
            Self::failure(DispatchError::UnknownService)
        }
    }
}

/// Has `service` run `method` on `args` and frames what it returns as the
/// reply. What the service returns is its own doing; the reply is the frame
/// of it.
pub fn invoke_service<S: Dispatch + ?Sized>(service: &S, method: MethodId, args: &[u8]) -> (reply:
    Vec<u8>)
    ensures
        exists|r: Result<Seq<u8>, DispatchError>| reply@ == #[trigger] spec_encode_reply(r),
{
    let result = service.dispatch_and_call(method, args);
    let reply: Vec<u8> = crate::message::encode_reply(&result);
    proof {
        assert(reply@ == spec_encode_reply(crate::message::reply_view(result)));
    }
    reply
}

impl<S: Dispatch> Registry<S> {
    /// Answers a request payload. What the registry decides by itself is
    /// answered as `spec_resolve` says. A request for a registered service is
    /// handed to that service, with the method and the arguments of the
    /// request, and the answer is the reply frame of whatever it returned.
    pub fn dispatch(&mut self, payload: &[u8]) -> (reply: Vec<u8>)
        requires
            old(self).wf(),
        ensures
            final(self).wf(),
            final(self)@ == spec_resolve(old(self)@, payload@).0,
            match spec_resolve(old(self)@, payload@).1 {
                ResolutionView::Reply { payload: answer, .. } => reply@ == answer,
                ResolutionView::Invoke { .. } => exists|r: Result<Seq<u8>, DispatchError>|
                    reply@ == #[trigger] spec_encode_reply(r),
            },
    {
        match self.resolve(payload) {
            Resolution::Reply { payload: answer, released: _ } => answer,
            Resolution::Invoke { service_id, method, args } => {
                match self.service(service_id) {
                    Some(service) => invoke_service(service, method, args.as_slice()),
                    None => {
                        let reply: Vec<u8> = encode_failure(DispatchError::UnknownService);
                        proof {
                            assert(reply@ == spec_encode_reply(
                                Err::<Seq<u8>, DispatchError>(DispatchError::UnknownService),
                            ));
                        }
                        reply
                    },
                }
            },
        }
    }
}

/// Something that happens to the handles of one service.
#[derive(Clone, Copy, Debug, PartialEq, Eq, Structural)]
pub enum HandleEvent {
    /// One more handle was given out: the count rises.
    Granted,
    /// A proxy was dropped: the count falls.
    Dropped,
}

/// Number of grants among `events`.
pub open spec fn grants(events: Seq<HandleEvent>) -> nat
    decreases events.len(),
{
    if events.len() == 0 {
        0
    } else {
        grants(events.drop_last()) + if events.last() == HandleEvent::Granted {
            1nat
        } else {
            0nat
        }
    }
}

/// Number of drops among `events`.
pub open spec fn drops(events: Seq<HandleEvent>) -> nat
    decreases events.len(),
{
    if events.len() == 0 {
        0
    } else {
        drops(events.drop_last()) + if events.last() == HandleEvent::Dropped {
            1nat
        } else {
            0nat
        }
    }
}

/// The registry after `events` happened, in order, to the handles of `id`.
pub open spec fn spec_after_events<S>(
    v: RegistryView<S>,
    id: ServiceId,
    events: Seq<HandleEvent>,
) -> RegistryView<S>
    decreases events.len(),
{
    if events.len() == 0 {
        v
    } else {
        let before = spec_after_events(v, id, events.drop_last());
        match events.last() {
            HandleEvent::Granted => before.retained(id),
            HandleEvent::Dropped => before.released(id),
        }
    }
}

/// Whether, starting from `count` references, every event of `events` finds
/// at least one reference left: no proxy is dropped that was not granted.
pub open spec fn never_overdrawn(count: nat, events: Seq<HandleEvent>) -> bool {
    forall|k: int|
        0 <= k < events.len() ==> count + grants(#[trigger] events.take(k)) > drops(events.take(k))
}

/// The count of a service is what it was, plus the handles granted, minus
/// the proxies dropped; the entry has left the table exactly if that is
/// zero; and no other entry is touched.
pub proof fn lemma_refcount_balance<S>(v: RegistryView<S>, id: ServiceId, events: Seq<HandleEvent>)
    requires
        v.contains(id),
        v.entries[id].refcount >= 1,
        never_overdrawn(v.entries[id].refcount, events),
    ensures
        v.entries[id].refcount + grants(events) >= drops(events),
        spec_after_events(v, id, events).contains(id) <==> v.entries[id].refcount + grants(events)
            > drops(events),
        spec_after_events(v, id, events).contains(id) ==> spec_after_events(
            v,
            id,
            events,
        ).entries[id].refcount == v.entries[id].refcount + grants(events) - drops(events),
        spec_after_events(v, id, events).contains(id) ==> spec_after_events(
            v,
            id,
            events,
        ).entries[id].service == v.entries[id].service,
        spec_after_events(v, id, events).epoch == v.epoch,
        forall|other: ServiceId|
            other != id ==> (#[trigger] spec_after_events(v, id, events).contains(other))
                == v.contains(other) && (v.contains(other) ==> spec_after_events(
                v,
                id,
                events,
            ).entries[other] == v.entries[other]),
    decreases events.len(),
{
    if events.len() > 0 {
        let shorter = events.drop_last();
        assert forall|k: int| 0 <= k < shorter.len() implies v.entries[id].refcount + grants(
            #[trigger] shorter.take(k),
        ) > drops(shorter.take(k)) by {
            assert(shorter.take(k) =~= events.take(k));
        }
        lemma_refcount_balance(v, id, shorter);
        assert(events.take(events.len() - 1) =~= shorter);
        let before = spec_after_events(v, id, shorter);
        let after = spec_after_events(v, id, events);
        assert(before.contains(id));
        assert forall|other: ServiceId| other != id implies (#[trigger] after.contains(other))
            == v.contains(other) && (v.contains(other) ==> after.entries[other]
            == v.entries[other]) by {
            assert(before.contains(other) == v.contains(other));
        }
    }
}

/// Once the exporter has let go of its own share, the count of a service is
/// the number of exports minus the number of drops, and the entry is freed
/// exactly if the two are equal. `exported` is the registry right after the
/// first export of `service` under `id`; `events` are the later grants and
/// the drops.
pub proof fn lemma_exports_minus_drops<S>(
    v: RegistryView<S>,
    id: ServiceId,
    service: S,
    events: Seq<HandleEvent>,
)
    requires
        v.is_least_free(id),
        never_overdrawn(1, events),
    ensures
        ({
            let exported = v.with_entry(id, EntryView { refcount: 2, service, root_name: None });
            let after = spec_after_events(exported.released(id), id, events);
            let exports = 1 + grants(events);
            &&& exports >= drops(events)
            &&& !after.contains(id) <==> exports == drops(events)
            &&& after.contains(id) ==> after.entries[id].refcount == exports - drops(events)
        }),
{
    let exported = v.with_entry(id, EntryView { refcount: 2, service, root_name: None });
    let held = exported.released(id);
    assert(held.contains(id));
    assert(held.entries[id].refcount == 1);
    lemma_refcount_balance(held, id, events);
}

} // verus!
