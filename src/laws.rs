use vstd::prelude::*;

use crate::person::is_founder;
use crate::service::{is_failure, served, usable, Service};
use crate::session::{
    data_step, is_records, is_text, lemma_plan_steps, plan, unavailable_text, Endpoint, Policy,
    Reply,
};
use crate::store::Step;
use crate::stub::{MemoryStore, Record};

verus! {

/// Whether `r` is a successful reply listing records.
pub open spec fn lists_records(r: Reply<Record>) -> bool {
    r.status == 200 && r.body is Records
}

/// Whether the second of two requests under `v0` still finds a handle: under
/// `PerRequest` the connection counter must have room for two connections.
pub open spec fn room_for_two(s0: MemoryStore, v0: Service) -> bool {
    v0.policy == Policy::PerRequest ==> s0.connections + 1 < u64::MAX
}

/// Under every policy, an insert followed by a query on a store that answers
/// returns, among the queried records, the record the insert wrote, which is
/// the founder record.
pub proof fn insert_then_query_finds_founder(
    s0: MemoryStore,
    v0: Service,
    s1: MemoryStore,
    v1: Service,
    r1: Reply<Record>,
    s2: MemoryStore,
    v2: Service,
    r2: Reply<Record>,
)
    requires
        usable(s0, v0),
        room_for_two(s0, v0),
        served(s0, v0, Endpoint::InsertPerson, s1, v1, r1),
        served(s1, v1, Endpoint::QueryPerson, s2, v2, r2),
    ensures
        lists_records(r1),
        lists_records(r2),
        r2.body->Records_0@.contains(r1.body->Records_0@[0]),
        is_founder(r1.body->Records_0@[0].person),
{
    assert(usable(s1, v1));
    let rec = s1.records@.last();
    assert(r2.body->Records_0@[s1.records@.len() - 1] == rec);
}

/// The index route answers 200 with the greeting whatever the store's state.
pub proof fn index_ignores_store(
    s0: MemoryStore,
    v0: Service,
    s1: MemoryStore,
    v1: Service,
    r: Reply<Record>,
)
    requires
        served(s0, v0, Endpoint::Index, s1, v1, r),
    ensures
        r.status == 200,
        r.body is Text,
        r.body->Text_0@ == "Hello, World!"@,
{
}

/// When the store cannot be reached, both data routes answer 500 with their
/// error prefix (unless the shared lock is poisoned, which answers first).
pub proof fn unreachable_store_fails(
    s0: MemoryStore,
    v0: Service,
    e: Endpoint,
    s1: MemoryStore,
    v1: Service,
    r: Reply<Record>,
)
    requires
        !s0.reachable,
        e != Endpoint::Index,
        !(v0.policy == Policy::SharedMutex && v0.poisoned),
        served(s0, v0, e, s1, v1, r),
    ensures
        is_failure(r, e),
{
}

/// Under the shared-mutex policy every data request takes the lock first,
/// takes it once, and re-selects the scope immediately before its data step,
/// so scope selection and data step run within one hold of the lock.
pub proof fn shared_lock_covers_scope_and_data(e: Endpoint)
    requires
        e != Endpoint::Index,
    ensures
        plan(Policy::SharedMutex, e)[0] == Step::Lock,
        forall|i: int|
            1 <= i < plan(Policy::SharedMutex, e).len() ==> plan(Policy::SharedMutex, e)[i]
                != Step::Lock,
        plan(Policy::SharedMutex, e).last() == data_step(e),
        plan(Policy::SharedMutex, e)[plan(Policy::SharedMutex, e).len() - 2] == Step::UseScope,
{
    lemma_plan_steps(Policy::SharedMutex, e);
}

/// Under the shared-mutex policy with a poisoned lock, each data route answers
/// 503 with the unavailability message and leaves the store as it was.
pub proof fn poisoned_lock_answers_unavailable(
    s0: MemoryStore,
    v0: Service,
    e: Endpoint,
    s1: MemoryStore,
    v1: Service,
    r: Reply<Record>,
)
    requires
        v0.policy == Policy::SharedMutex,
        v0.poisoned,
        e != Endpoint::Index,
        served(s0, v0, e, s1, v1, r),
    ensures
        is_text(r, 503, unavailable_text()),
        r.body->Text_0@ == "Service is temporarily unavailable. Please try again later."@,
        s1.records@ == s0.records@,
        s1.connections == s0.connections,
{
}

/// Under the per-request policy each insert opens one new connection of its
/// own: the counter grows by one per insert, and two inserts write through
/// different connections.
pub proof fn per_request_inserts_use_fresh_connections(
    s0: MemoryStore,
    v0: Service,
    s1: MemoryStore,
    v1: Service,
    r1: Reply<Record>,
    s2: MemoryStore,
    v2: Service,
    r2: Reply<Record>,
)
    requires
        v0.policy == Policy::PerRequest,
        served(s0, v0, Endpoint::InsertPerson, s1, v1, r1),
        served(s1, v1, Endpoint::InsertPerson, s2, v2, r2),
    ensures
        lists_records(r1) ==> s1.connections == s0.connections + 1
            && r1.body->Records_0@[0].connection == s0.connections,
        lists_records(r2) ==> s2.connections == s1.connections + 1
            && r2.body->Records_0@[0].connection == s1.connections,
        lists_records(r1) && lists_records(r2) ==> r1.body->Records_0@[0].connection
            != r2.body->Records_0@[0].connection,
{
}

/// Two queries with nothing in between return the same records, and both
/// succeed wherever the first finds a usable handle.
pub proof fn repeated_query_is_stable(
    s0: MemoryStore,
    v0: Service,
    s1: MemoryStore,
    v1: Service,
    r1: Reply<Record>,
    s2: MemoryStore,
    v2: Service,
    r2: Reply<Record>,
)
    requires
        served(s0, v0, Endpoint::QueryPerson, s1, v1, r1),
        served(s1, v1, Endpoint::QueryPerson, s2, v2, r2),
    ensures
        lists_records(r1) && lists_records(r2) ==> r1.body->Records_0@ == r2.body->Records_0@,
        usable(s0, v0) && room_for_two(s0, v0) ==> lists_records(r1) && lists_records(r2),
        s2.records@ == s0.records@,
{
}

} // verus!
