use vstd::prelude::*;

use crate::person::{is_founder, Person};
use crate::session::{
    error_prefix, greeting_text, is_records, is_text, lemma_plan_steps, plan, unavailable_text,
    Action, Endpoint, Outcome, Policy, Reply, Session,
};
use crate::store::{HandleState, Step};
use crate::stub::{is_new_record, MemoryStore, Record, StubHandle};

verus! {

/// The HTTP routes served against an in-memory store under one policy.
pub struct Service {
    pub policy: Policy,
    /// The process-wide handle (unused under `PerRequest`).
    pub shared: StubHandle,
    /// Whether the lock around the shared handle is poisoned (`SharedMutex`).
    pub poisoned: bool,
}

pub open spec fn has_prefix(s: Seq<char>, p: Seq<char>) -> bool {
    p.len() <= s.len() && s.subrange(0, p.len() as int) == p
}

/// A 500 reply whose text starts with the route's error prefix.
pub open spec fn is_failure(r: Reply<Record>, e: Endpoint) -> bool {
    &&& r.status == 500
    &&& r.body is Text
    &&& has_prefix(r.body->Text_0@, error_prefix(e))
}

/// Whether a data request finds a handle it can use: the store answers, and
/// the handle the policy provides can reach `Ready`.
pub open spec fn usable(store: MemoryStore, svc: Service) -> bool {
    &&& store.reachable
    &&& match svc.policy {
        Policy::PerRequest => store.connections < u64::MAX,
        Policy::SharedMutex => !svc.poisoned && (svc.shared.state == HandleState::Authenticated
            || svc.shared.state == HandleState::Ready),
        Policy::SingletonLazy => svc.shared.state == HandleState::Ready,
    }
}

/// The connection a data request runs on.
pub open spec fn working_connection(store: MemoryStore, svc: Service) -> u64 {
    if svc.policy == Policy::PerRequest {
        store.connections
    } else {
        svc.shared.connection
    }
}

/// What one request on route `e` does: `s0`/`v0` before, `s1`/`v1` after,
/// `r` the reply.
pub open spec fn served(
    s0: MemoryStore,
    v0: Service,
    e: Endpoint,
    s1: MemoryStore,
    v1: Service,
    r: Reply<Record>,
) -> bool {
    &&& s1.reachable == s0.reachable
    &&& v1.policy == v0.policy
    &&& v1.poisoned == v0.poisoned
    &&& if e == Endpoint::Index {
        &&& is_text(r, 200, greeting_text())
        &&& s1.connections == s0.connections
        &&& s1.records@ == s0.records@
        &&& v1 == v0
    } else if v0.policy == Policy::SharedMutex && v0.poisoned {
        &&& is_text(r, 503, unavailable_text())
        &&& s1.connections == s0.connections
        &&& s1.records@ == s0.records@
        &&& v1 == v0
    } else if usable(s0, v0) {
        &&& e == Endpoint::InsertPerson ==> {
            &&& s1.records@.len() == s0.records@.len() + 1
            &&& s1.records@.drop_last() == s0.records@
            &&& is_new_record(s0, StubHandle { connection: working_connection(s0, v0), state: HandleState::Ready }, s1.records@.last())
            &&& is_records(r, seq![s1.records@.last()])
        }
        &&& e == Endpoint::QueryPerson ==> {
            &&& s1.records@ == s0.records@
            &&& is_records(r, s0.records@)
        }
        &&& if v0.policy == Policy::PerRequest {
            &&& s1.connections == s0.connections + 1
            &&& v1.shared == v0.shared
        } else {
            &&& s1.connections == s0.connections
            &&& v1.shared == (StubHandle { connection: v0.shared.connection, state: HandleState::Ready })
        }
    } else {
        &&& is_failure(r, e)
        &&& s1.records@ == s0.records@
        &&& s1.connections == s0.connections
        &&& if v0.policy == Policy::PerRequest {
            v1.shared == v0.shared
        } else {
            v1.shared == (StubHandle { connection: v0.shared.connection, state: HandleState::Unconnected })
        }
    }
}

/// The state while step `k` of a data request's plan is awaited and all
/// steps before it succeeded.
pub open spec fn midway(
    s0: MemoryStore,
    v0: Service,
    s: MemoryStore,
    v: Service,
    fresh: StubHandle,
    k: int,
) -> bool {
    &&& s.reachable == s0.reachable
    &&& s.records@ == s0.records@
    &&& v.policy == v0.policy
    &&& v.poisoned == v0.poisoned
    &&& match v0.policy {
        Policy::PerRequest => {
            &&& v.shared == v0.shared
            &&& k == 0 ==> s.connections == s0.connections
            &&& k > 0 ==> {
                &&& usable(s0, v0)
                &&& s.connections == s0.connections + 1
                &&& fresh.connection == s0.connections
                &&& fresh.state == if k == 1 {
                    HandleState::Connected
                } else if k == 2 {
                    HandleState::Authenticated
                } else {
                    HandleState::Ready
                }
            }
        },
        Policy::SharedMutex => {
            &&& s.connections == s0.connections
            &&& k >= 1 ==> !v0.poisoned
            &&& k <= 1 ==> v.shared == v0.shared
            &&& k >= 2 ==> usable(s0, v0) && v.shared == (StubHandle {
                connection: v0.shared.connection,
                state: HandleState::Ready,
            })
        },
        Policy::SingletonLazy => {
            &&& k == 0
            &&& s.connections == s0.connections
            &&& v.shared == v0.shared
        },
    }
}

proof fn lemma_prefix(p: Seq<char>, d: Seq<char>)
    ensures
        has_prefix(p + d, p),
{
    assert((p + d).subrange(0, p.len() as int) =~= p);
}

impl Service {
    /// Sets up a service under policy `p`. Under the two shared policies the
    /// process-wide handle is connected, signed in and scoped here; the error
    /// is the store's description of the step that failed.
    pub fn start(p: Policy, store: &mut MemoryStore) -> (r: Result<Service, String>)
        requires
            old(store).records@.len() < u64::MAX,
        ensures
            final(store).reachable == old(store).reachable,
            final(store).records@ == old(store).records@,
            p == Policy::PerRequest ==> r is Ok && final(store).connections == old(store).connections,
            p != Policy::PerRequest ==> (r is Ok <==> (old(store).reachable && old(store).connections
                < u64::MAX)),
            r is Err ==> final(store).connections == old(store).connections,
            r is Ok ==> {
                &&& r->Ok_0.policy == p
                &&& !r->Ok_0.poisoned
                &&& p != Policy::PerRequest ==> {
                    &&& r->Ok_0.shared == (StubHandle {
                        connection: old(store).connections,
                        state: HandleState::Ready,
                    })
                    &&& final(store).connections == old(store).connections + 1
                }
            },
    {
        let mut h = StubHandle { connection: 0, state: HandleState::Unconnected };
        if p == Policy::PerRequest {
            return Ok(Service { policy: p, shared: h, poisoned: false });
        }
        let person = Person::founder();
        match store.perform(&mut h, Step::Connect, false, &person) {
            Outcome::StoreError(d) => return Err(d),
            _ => {},
        }
        match store.perform(&mut h, Step::SignIn, false, &person) {
            Outcome::StoreError(d) => return Err(d),
            _ => {},
        }
        match store.perform(&mut h, Step::UseScope, false, &person) {
            Outcome::StoreError(d) => return Err(d),
            _ => {},
        }
        Ok(Service { policy: p, shared: h, poisoned: false })
    }

    /// Serves one request on route `e`, running its plan against `store`.
    #[verifier::rlimit(50)]
    pub fn serve(&mut self, store: &mut MemoryStore, e: Endpoint) -> (r: Reply<Record>)
        requires
            old(store).records@.len() < u64::MAX,
        ensures
            served(*old(store), *old(self), e, *final(store), *final(self), r),
    {
        let person = Person::founder();
        let poisoned = self.poisoned;
        let per_request = self.policy == Policy::PerRequest;
        let mut fresh = StubHandle { connection: 0, state: HandleState::Unconnected };
        let (mut session, mut action) = Session::begin::<Record>(self.policy, e);
        let ghost p = plan(self.policy, e);
        loop
            invariant
                session.wf(),
                session.policy == old(self).policy,
                session.endpoint == e,
                p == plan(old(self).policy, e),
                poisoned == old(self).poisoned,
                per_request == (old(self).policy == Policy::PerRequest),
                is_founder(person),
                old(store).records@.len() < u64::MAX,
                session.done ==> action is Respond && served(
                    *old(store),
                    *old(self),
                    e,
                    *store,
                    *self,
                    action->Respond_0,
                ),
                !session.done ==> {
                    &&& action == Action::<Record>::Perform(p[session.next as int])
                    &&& midway(*old(store), *old(self), *store, *self, fresh, session.next as int)
                },
            decreases session.steps@.len() - session.next + (if session.done { 0int } else { 1int }),
        {
            match action {
                Action::Respond(r) => {
                    return r;
                },
                Action::Perform(step) => {
                    let ghost k = session.next as int;
                    let ghost s_before = *store;
                    let ghost h_before = if per_request { fresh } else { self.shared };
                    let ev = if per_request {
                        store.perform(&mut fresh, step, poisoned, &person)
                    } else {
                        store.perform(&mut self.shared, step, poisoned, &person)
                    };
                    proof {
                        lemma_plan_steps(old(self).policy, e);
                        if ev is StoreError {
                            lemma_prefix(error_prefix(e), ev->StoreError_0@);
                        }
                    }
                    action = session.on_outcome(ev);
                },
            }
        }
    }
}

} // verus!
