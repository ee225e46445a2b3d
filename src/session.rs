use vstd::prelude::*;
use vstd::string::*;

use crate::store::Step;

verus! {

/// How requests obtain a store handle.
#[derive(PartialEq, Eq, Structural, Clone, Copy, Debug)]
pub enum Policy {
    /// One process-wide handle, made ready at startup and used without a lock.
    SingletonLazy,
    /// One process-wide handle behind a lock; each request re-selects the scope.
    SharedMutex,
    /// A fresh handle for every request, discarded when it ends.
    PerRequest,
}

/// The routes the service answers.
#[derive(PartialEq, Eq, Structural, Clone, Copy, Debug)]
pub enum Endpoint {
    Index,
    InsertPerson,
    QueryPerson,
}

/// What the store (or the lock) answered to the step last asked for.
pub enum Outcome<R> {
    /// The step succeeded; a data step carries the records the store returned.
    Completed(Vec<R>),
    /// The store refused or could not be reached; the text describes why.
    StoreError(String),
    /// The lock guarding the shared handle is poisoned.
    LockPoisoned,
}

/// The body of an HTTP reply: plain text, or records to be sent as JSON.
pub enum Body<R> {
    Text(String),
    Records(Vec<R>),
}

pub struct Reply<R> {
    pub status: u16,
    pub body: Body<R>,
}

/// What the caller is to do next on behalf of a request.
pub enum Action<R> {
    Perform(Step),
    Respond(Reply<R>),
}

pub open spec fn data_steps(e: Endpoint) -> Seq<Step> {
    match e {
        Endpoint::Index => seq![],
        Endpoint::InsertPerson => seq![Step::Create],
        Endpoint::QueryPerson => seq![Step::Select],
    }
}

/// The steps one request performs, in order, under a policy.
pub open spec fn plan(p: Policy, e: Endpoint) -> Seq<Step> {
    if e == Endpoint::Index {
        seq![]
    } else {
        match p {
            Policy::SingletonLazy => data_steps(e),
            Policy::SharedMutex => seq![Step::Lock, Step::UseScope] + data_steps(e),
            Policy::PerRequest => seq![Step::Connect, Step::SignIn, Step::UseScope] + data_steps(e),
        }
    }
}

/// The data step of route `e`.
pub open spec fn data_step(e: Endpoint) -> Step {
    if e == Endpoint::InsertPerson {
        Step::Create
    } else {
        Step::Select
    }
}

/// The plans written out step by step.
pub proof fn lemma_plan_steps(p: Policy, e: Endpoint)
    ensures
        e == Endpoint::Index ==> plan(p, e).len() == 0,
        e != Endpoint::Index ==> match p {
            Policy::SingletonLazy => plan(p, e).len() == 1 && plan(p, e)[0] == data_step(e),
            Policy::SharedMutex => {
                &&& plan(p, e).len() == 3
                &&& plan(p, e)[0] == Step::Lock
                &&& plan(p, e)[1] == Step::UseScope
                &&& plan(p, e)[2] == data_step(e)
            },
            Policy::PerRequest => {
                &&& plan(p, e).len() == 4
                &&& plan(p, e)[0] == Step::Connect
                &&& plan(p, e)[1] == Step::SignIn
                &&& plan(p, e)[2] == Step::UseScope
                &&& plan(p, e)[3] == data_step(e)
            },
        },
{
    if e != Endpoint::Index {
        assert(data_steps(e) =~= seq![data_step(e)]);
    }
}

/// The steps performed once at process startup, before any request.
pub open spec fn startup_plan(p: Policy) -> Seq<Step> {
    match p {
        Policy::PerRequest => seq![],
        _ => seq![Step::Connect, Step::SignIn, Step::UseScope],
    }
}

pub open spec fn greeting_text() -> Seq<char> {
    "Hello, World!"@
}

pub open spec fn unavailable_text() -> Seq<char> {
    "Service is temporarily unavailable. Please try again later."@
}

/// What precedes the store's description of a failure.
pub open spec fn error_prefix(e: Endpoint) -> Seq<char> {
    match e {
        Endpoint::InsertPerson => "Error inserting person: "@,
        _ => "Error querying person: "@,
    }
}

pub open spec fn is_text<R>(r: Reply<R>, status: u16, text: Seq<char>) -> bool {
    &&& r.status == status
    &&& r.body is Text
    &&& r.body->Text_0@ == text
}

pub open spec fn is_records<R>(r: Reply<R>, v: Seq<R>) -> bool {
    &&& r.status == 200
    &&& r.body is Records
    &&& r.body->Records_0@ == v
}

/// The plan of `plan(p, e)` as a vector.
pub fn request_plan(p: Policy, e: Endpoint) -> (r: Vec<Step>)
    ensures
        r@ == plan(p, e),
{
    let mut v: Vec<Step> = Vec::new();
    if e == Endpoint::Index {
        return v;
    }
    match p {
        Policy::SingletonLazy => {},
        Policy::SharedMutex => {
            v.push(Step::Lock);
            v.push(Step::UseScope);
        },
        Policy::PerRequest => {
            v.push(Step::Connect);
            v.push(Step::SignIn);
            v.push(Step::UseScope);
        },
    }
    if e == Endpoint::InsertPerson {
        v.push(Step::Create);
    } else {
        v.push(Step::Select);
    }
    assert(v@ =~= plan(p, e));
    v
}

/// The plan of `startup_plan(p)` as a vector.
pub fn startup_steps(p: Policy) -> (r: Vec<Step>)
    ensures
        r@ == startup_plan(p),
{
    let mut v: Vec<Step> = Vec::new();
    if p != Policy::PerRequest {
        v.push(Step::Connect);
        v.push(Step::SignIn);
        v.push(Step::UseScope);
    }
    assert(v@ =~= startup_plan(p));
    v
}

/// The text the index route answers with.
pub fn greeting() -> (r: String)
    ensures
        r@ == greeting_text(),
{
    String::from_str("Hello, World!")
}

/// The text sent when the shared handle's lock cannot be taken.
pub fn unavailable_message() -> (r: String)
    ensures
        r@ == unavailable_text(),
{
    String::from_str("Service is temporarily unavailable. Please try again later.")
}

/// The reply to a store failure on route `e`: status 500, the route's prefix,
/// then the store's description.
pub fn error_reply<R>(e: Endpoint, detail: &str) -> (r: Reply<R>)
    ensures
        is_text(r, 500, error_prefix(e) + detail@),
{
    let mut text = if e == Endpoint::InsertPerson {
        String::from_str("Error inserting person: ")
    } else {
        String::from_str("Error querying person: ")
    };
    text.append(detail);
    Reply { status: 500, body: Body::Text(text) }
}

/// The progress of one request through its plan.
pub struct Session {
    pub policy: Policy,
    pub endpoint: Endpoint,
    pub steps: Vec<Step>,
    /// The index in `steps` of the step whose outcome is awaited.
    pub next: usize,
    /// Whether the reply has been given.
    pub done: bool,
}

impl Session {
    pub open spec fn wf(&self) -> bool {
        &&& self.steps@ == plan(self.policy, self.endpoint)
        &&& self.next <= self.steps@.len()
        &&& (self.done || self.next < self.steps@.len())
    }

    /// Starts a request on route `e` under policy `p`: the first step to
    /// perform, or at once the reply where the route needs no store.
    pub fn begin<R>(p: Policy, e: Endpoint) -> (r: (Session, Action<R>))
        ensures
            r.0.wf(),
            r.0.policy == p,
            r.0.endpoint == e,
            plan(p, e).len() == 0 ==> r.0.done && r.1 is Respond && is_text(
                r.1->Respond_0,
                200,
                greeting_text(),
            ),
            plan(p, e).len() > 0 ==> !r.0.done && r.0.next == 0 && r.1 == Action::<R>::Perform(
                plan(p, e)[0],
            ),
    {
        let steps = request_plan(p, e);
        if steps.len() == 0 {
            let reply = Reply { status: 200, body: Body::Text(greeting()) };
            (Session { policy: p, endpoint: e, steps, next: 0, done: true }, Action::Respond(reply))
        } else {
            let first = steps[0];
            (Session { policy: p, endpoint: e, steps, next: 0, done: false }, Action::Perform(first))
        }
    }

    /// Takes the outcome of the awaited step and says what to do next: the
    /// following step after a success, the reply after the last step or after
    /// any failure.
    pub fn on_outcome<R>(&mut self, ev: Outcome<R>) -> (a: Action<R>)
        requires
            old(self).wf(),
            !old(self).done,
        ensures
            final(self).wf(),
            final(self).policy == old(self).policy,
            final(self).endpoint == old(self).endpoint,
            final(self).done ==> final(self).next == old(self).next,
            match ev {
                Outcome::Completed(v) => if old(self).next + 1 < old(self).steps@.len() {
                    &&& !final(self).done
                    &&& final(self).next == old(self).next + 1
                    &&& a == Action::<R>::Perform(old(self).steps@[old(self).next + 1])
                } else {
                    &&& final(self).done
                    &&& a is Respond
                    &&& is_records(a->Respond_0, v@)
                },
                Outcome::StoreError(d) => {
                    &&& final(self).done
                    &&& a is Respond
                    &&& is_text(a->Respond_0, 500, error_prefix(old(self).endpoint) + d@)
                },
                Outcome::LockPoisoned => {
                    &&& final(self).done
                    &&& a is Respond
                    &&& is_text(a->Respond_0, 503, unavailable_text())
                },
            },
    {
        match ev {
            Outcome::Completed(v) => {
                if self.next + 1 < self.steps.len() {
                    self.next = self.next + 1;
                    Action::Perform(self.steps[self.next])
                } else {
                    self.done = true;
                    Action::Respond(Reply { status: 200, body: Body::Records(v) })
                }
            },
            Outcome::StoreError(d) => {
                self.done = true;
                Action::Respond(error_reply(self.endpoint, d.as_str()))
            },
            Outcome::LockPoisoned => {
                self.done = true;
                Action::Respond(Reply { status: 503, body: Body::Text(unavailable_message()) })
            },
        }
    }
}

} // verus!
