//! The table of requests that wait for a reply from another node.
//!
//! A caller registers the sending half of its reply channel under a fresh
//! identifier before the request leaves. Whoever receives the reply, the
//! failure, or the news that the connection is gone takes the entry out and
//! completes the channel. An entry leaves the table at most once, so a reply
//! that arrives twice finds nothing the second time.
use crate::actor::ActorRefErr;
use crate::ident::Id;
use crate::remote::RemoteResponse;
use std::collections::HashMap;
use vstd::prelude::*;

verus! {

/// A request in flight: the sending half of the caller's reply channel.
pub struct RemoteRequest<S> {
    pub res_tx: S,
}

/// The pending requests of one node, by request identifier.
pub struct RemoteHandler<S> {
    requests: HashMap<Id, RemoteRequest<S>>,
}

/// The table after `request` was registered under `id`.
pub open spec fn pushed<S>(table: Map<Id, RemoteRequest<S>>, id: Id, request: RemoteRequest<S>) -> Map<
    Id,
    RemoteRequest<S>,
> {
    table.insert(id, request)
}

/// The entry that a lookup of `id` takes out, if there is one.
pub open spec fn popped<S>(table: Map<Id, RemoteRequest<S>>, id: Id) -> Option<RemoteRequest<S>> {
    if table.contains_key(id) {
        Some(table[id])
    } else {
        None
    }
}

/// The table after a lookup of `id`.
pub open spec fn without<S>(table: Map<Id, RemoteRequest<S>>, id: Id) -> Map<Id, RemoteRequest<S>> {
    table.remove(id)
}

/// The table after every request named in `ids` was taken out, and the
/// requests that were taken, each once, in the order in which `ids` names
/// them first.
pub open spec fn taken<S>(table: Map<Id, RemoteRequest<S>>, ids: Seq<Id>) -> (
    Map<Id, RemoteRequest<S>>,
    Seq<RemoteRequest<S>>,
)
    decreases ids.len(),
{
    if ids.len() == 0 {
        (table, Seq::empty())
    } else {
        let (left, requests) = taken(table, ids.drop_last());
        match popped(left, ids.last()) {
            Some(request) => (without(left, ids.last()), requests.push(request)),
            None => (without(left, ids.last()), requests),
        }
    }
}

impl<S> View for RemoteHandler<S> {
    type V = Map<Id, RemoteRequest<S>>;

    closed spec fn view(&self) -> Map<Id, RemoteRequest<S>> {
        self.requests@
    }
}

impl<S> RemoteHandler<S> {
    /// A table without entries.
    pub fn new() -> (handler: RemoteHandler<S>)
        ensures
            handler@ == Map::<Id, RemoteRequest<S>>::empty(),
    {
        RemoteHandler { requests: HashMap::new() }
    }

    /// Registers a request under its identifier. An earlier entry under the
    /// same identifier is replaced and its channel dropped.
    pub fn push_request(&mut self, id: Id, request: RemoteRequest<S>)
        ensures
            final(self)@ == pushed(old(self)@, id, request),
    {
        self.requests.insert(id, request);
    }

    /// Takes the request registered under `id` out of the table.
    pub fn pop_request(&mut self, id: Id) -> (request: Option<RemoteRequest<S>>)
        ensures
            request == popped(old(self)@, id),
            final(self)@ == without(old(self)@, id),
    {
        self.requests.remove(&id)
    }

    /// Takes the requests named in `ids` out of the table, to be failed:
    /// the connection that their replies would have come on is gone, and
    /// each caller is to learn that the node is unreachable.
    pub fn fail_requests(&mut self, ids: &Vec<Id>) -> (failed: (Vec<RemoteRequest<S>>, RemoteResponse))
        ensures
            (final(self)@, failed.0@) == taken(old(self)@, ids@),
            failed.1 == RemoteResponse::Error(ActorRefErr::NodeUnreachable),
    {
        let mut requests: Vec<RemoteRequest<S>> = Vec::new();
        let mut i: usize = 0;
        proof {
            assert(ids@.take(0) =~= Seq::<Id>::empty());
        }
        while i < ids.len()
            invariant
                i <= ids.len(),
                (self@, requests@) == taken(old(self)@, ids@.take(i as int)),
            decreases ids.len() - i,
        {
            proof {
                assert(ids@.take(i as int + 1).drop_last() == ids@.take(i as int));
                assert(ids@.take(i as int + 1).last() == ids@[i as int]);
            }
            match self.pop_request(ids[i]) {
                Some(request) => {
                    requests.push(request);
                },
                None => {},
            }
            i += 1;
        }
        proof {
            assert(ids@.take(i as int) == ids@);
        }
        (requests, RemoteResponse::Error(ActorRefErr::NodeUnreachable))
    }

    /// How many requests wait for a reply.
    pub fn inflight_request_count(&self) -> (n: usize)
        ensures
            n == self@.len(),
            self@.dom().finite(),
    {
        self.requests.len()
    }
}

/// A request is handed back exactly once: the lookup that follows its
/// registration returns it, and every later lookup of the same identifier
/// finds nothing until the identifier is registered again.
pub proof fn request_is_returned_exactly_once<S>(
    table: Map<Id, RemoteRequest<S>>,
    id: Id,
    request: RemoteRequest<S>,
)
    ensures
        popped(pushed(table, id, request), id) == Some(request),
        popped(without(pushed(table, id, request), id), id) == None::<RemoteRequest<S>>,
        popped(without(table, id), id) == None::<RemoteRequest<S>>,
{
}

/// When a connection is lost, none of its requests waits on: whatever is
/// named in `ids` is out of the table afterwards.
pub proof fn failed_requests_wait_no_longer<S>(table: Map<Id, RemoteRequest<S>>, ids: Seq<Id>, k: int)
    requires
        0 <= k < ids.len(),
    ensures
        !taken(table, ids).0.contains_key(ids[k]),
        taken(table, ids).0.dom().subset_of(table.dom()),
    decreases ids.len(),
{
    let front = ids.drop_last();
    if k < ids.len() - 1 {
        failed_requests_wait_no_longer(table, front, k);
        assert(front[k] == ids[k]);
    } else if front.len() > 0 {
        failed_requests_wait_no_longer(table, front, 0);
    }
}

/// Taking one request out leaves every other request in place.
pub proof fn other_requests_stay<S>(table: Map<Id, RemoteRequest<S>>, id: Id, other: Id)
    requires
        id != other,
    ensures
        popped(without(table, id), other) == popped(table, other),
{
}

} // verus!
