use person_service::person::Person;
use person_service::service::Service;
use person_service::session::{
    error_reply, greeting, request_plan, startup_steps, unavailable_message, Action, Body,
    Endpoint, Outcome, Policy, Reply, Session,
};
use person_service::store::{HandleState, Step, StoreConfig};
use person_service::stub::{MemoryStore, Record, StubHandle};

const POLICIES: [Policy; 3] = [Policy::SingletonLazy, Policy::SharedMutex, Policy::PerRequest];

fn text_of(r: &Reply<Record>) -> String {
    match &r.body {
        Body::Text(t) => t.clone(),
        Body::Records(_) => panic!("expected text, got records"),
    }
}

fn records_of(r: &Reply<Record>) -> Vec<(u64, u64, String, String, bool)> {
    match &r.body {
        Body::Records(v) => v
            .iter()
            .map(|x| (x.id, x.connection, x.person.title.clone(), x.person.name.clone(), x.person.marketing))
            .collect(),
        Body::Text(t) => panic!("expected records, got text {t}"),
    }
}

fn is_founder(t: &(u64, u64, String, String, bool)) -> bool {
    t.2 == "Founder & CEO" && t.3 == "Rootster" && t.4
}

#[test]
fn founder_record_fields() {
    let p = Person::founder();
    assert_eq!(p.title, "Founder & CEO");
    assert_eq!(p.name, "Rootster");
    assert!(p.marketing);
    let q = p.copied();
    assert_eq!(q.title, p.title);
    assert_eq!(q.name, p.name);
}

#[test]
fn standard_config_values() {
    let c = StoreConfig::standard();
    assert_eq!(c.endpoint, "127.0.0.1:8000");
    assert_eq!(c.username, "root");
    assert_eq!(c.password, "root");
    assert_eq!(c.namespace, "test");
    assert_eq!(c.database, "test");
    assert_eq!(c.collection, "person");
}

#[test]
fn insert_then_query_returns_founder_under_every_policy() {
    for p in POLICIES {
        let mut store = MemoryStore::new(true);
        let mut svc = Service::start(p, &mut store).unwrap();
        let r1 = svc.serve(&mut store, Endpoint::InsertPerson);
        assert_eq!(r1.status, 200);
        let inserted = records_of(&r1);
        assert_eq!(inserted.len(), 1);
        assert!(is_founder(&inserted[0]));
        let r2 = svc.serve(&mut store, Endpoint::QueryPerson);
        assert_eq!(r2.status, 200);
        let queried = records_of(&r2);
        assert!(queried.contains(&inserted[0]));
        assert!(queried.iter().all(is_founder));
    }
}

#[test]
fn index_answers_greeting_even_without_store() {
    for p in POLICIES {
        let mut store = MemoryStore::new(false);
        let mut svc = Service { policy: p, shared: StubHandle { connection: 0, state: HandleState::Unconnected }, poisoned: true };
        let r = svc.serve(&mut store, Endpoint::Index);
        assert_eq!(r.status, 200);
        assert_eq!(text_of(&r), "Hello, World!");
        assert_eq!(store.connections, 0);
    }
    assert_eq!(greeting(), "Hello, World!");
}

#[test]
fn unreachable_store_gives_500_with_prefix() {
    for p in POLICIES {
        let mut store = MemoryStore::new(true);
        let mut svc = Service::start(p, &mut store).unwrap();
        store.reachable = false;
        let r = svc.serve(&mut store, Endpoint::InsertPerson);
        assert_eq!(r.status, 500);
        assert!(text_of(&r).starts_with("Error inserting person:"));
        let r = svc.serve(&mut store, Endpoint::QueryPerson);
        assert_eq!(r.status, 500);
        assert!(text_of(&r).starts_with("Error querying person:"));
        assert!(store.records.is_empty());
    }
}

#[test]
fn startup_fails_on_unreachable_store_except_per_request() {
    let mut store = MemoryStore::new(false);
    assert!(Service::start(Policy::SingletonLazy, &mut store).is_err());
    assert!(Service::start(Policy::SharedMutex, &mut store).is_err());
    assert!(Service::start(Policy::PerRequest, &mut store).is_ok());
    assert_eq!(store.connections, 0);
}

#[test]
fn shared_handle_is_not_reconnected_after_failure() {
    let mut store = MemoryStore::new(true);
    let mut svc = Service::start(Policy::SingletonLazy, &mut store).unwrap();
    assert_eq!(svc.shared, StubHandle { connection: 0, state: HandleState::Ready });
    store.reachable = false;
    assert_eq!(svc.serve(&mut store, Endpoint::QueryPerson).status, 500);
    assert_eq!(svc.shared.state, HandleState::Unconnected);
    store.reachable = true;
    let r = svc.serve(&mut store, Endpoint::QueryPerson);
    assert_eq!(r.status, 500);
    assert!(text_of(&r).starts_with("Error querying person: "));
    assert_eq!(store.connections, 1);
}

#[test]
fn shared_plan_takes_lock_then_scope_then_data() {
    assert_eq!(request_plan(Policy::SharedMutex, Endpoint::InsertPerson), vec![Step::Lock, Step::UseScope, Step::Create]);
    assert_eq!(request_plan(Policy::SharedMutex, Endpoint::QueryPerson), vec![Step::Lock, Step::UseScope, Step::Select]);
    assert_eq!(
        request_plan(Policy::PerRequest, Endpoint::InsertPerson),
        vec![Step::Connect, Step::SignIn, Step::UseScope, Step::Create]
    );
    assert_eq!(request_plan(Policy::SingletonLazy, Endpoint::QueryPerson), vec![Step::Select]);
    assert!(request_plan(Policy::SharedMutex, Endpoint::Index).is_empty());
    assert_eq!(startup_steps(Policy::SharedMutex), vec![Step::Connect, Step::SignIn, Step::UseScope]);
    assert!(startup_steps(Policy::PerRequest).is_empty());
}

#[test]
fn shared_handle_stays_scoped_between_requests() {
    let mut store = MemoryStore::new(true);
    let mut svc = Service::start(Policy::SharedMutex, &mut store).unwrap();
    for _ in 0..3 {
        assert_eq!(svc.serve(&mut store, Endpoint::InsertPerson).status, 200);
        assert_eq!(svc.shared.state, HandleState::Ready);
    }
    assert_eq!(store.connections, 1);
    assert!(store.records.iter().all(|r| r.connection == 0));
}

#[test]
fn poisoned_lock_gives_503() {
    let mut store = MemoryStore::new(true);
    let mut svc = Service::start(Policy::SharedMutex, &mut store).unwrap();
    svc.poisoned = true;
    for e in [Endpoint::InsertPerson, Endpoint::QueryPerson] {
        let r = svc.serve(&mut store, e);
        assert_eq!(r.status, 503);
        assert_eq!(text_of(&r), "Service is temporarily unavailable. Please try again later.");
    }
    assert!(store.records.is_empty());
    assert_eq!(unavailable_message(), "Service is temporarily unavailable. Please try again later.");
}

#[test]
fn per_request_inserts_open_distinct_connections() {
    let mut store = MemoryStore::new(true);
    let mut svc = Service::start(Policy::PerRequest, &mut store).unwrap();
    assert_eq!(store.connections, 0);
    let a = records_of(&svc.serve(&mut store, Endpoint::InsertPerson));
    assert_eq!(store.connections, 1);
    let b = records_of(&svc.serve(&mut store, Endpoint::InsertPerson));
    assert_eq!(store.connections, 2);
    assert_eq!(a[0].1, 0);
    assert_eq!(b[0].1, 1);
    assert_ne!(a[0].0, b[0].0);
}

#[test]
fn repeated_queries_return_same_records() {
    for p in POLICIES {
        let mut store = MemoryStore::new(true);
        let mut svc = Service::start(p, &mut store).unwrap();
        svc.serve(&mut store, Endpoint::InsertPerson);
        svc.serve(&mut store, Endpoint::InsertPerson);
        let a = records_of(&svc.serve(&mut store, Endpoint::QueryPerson));
        let b = records_of(&svc.serve(&mut store, Endpoint::QueryPerson));
        assert_eq!(a.len(), 2);
        assert_eq!(a, b);
        assert_eq!(a[0].0, 0);
        assert_eq!(a[1].0, 1);
    }
}

#[test]
fn empty_store_query_lists_nothing() {
    let mut store = MemoryStore::new(true);
    let mut svc = Service::start(Policy::PerRequest, &mut store).unwrap();
    let r = svc.serve(&mut store, Endpoint::QueryPerson);
    assert_eq!(r.status, 200);
    assert!(records_of(&r).is_empty());
}

#[test]
fn session_walks_plan_and_replies() {
    let (mut s, a) = Session::begin::<u32>(Policy::PerRequest, Endpoint::QueryPerson);
    assert!(matches!(a, Action::Perform(Step::Connect)));
    assert!(matches!(s.on_outcome::<u32>(Outcome::Completed(vec![])), Action::Perform(Step::SignIn)));
    assert!(matches!(s.on_outcome::<u32>(Outcome::Completed(vec![])), Action::Perform(Step::UseScope)));
    assert!(matches!(s.on_outcome::<u32>(Outcome::Completed(vec![])), Action::Perform(Step::Select)));
    match s.on_outcome(Outcome::Completed(vec![7u32, 9])) {
        Action::Respond(Reply { status: 200, body: Body::Records(v) }) => assert_eq!(v, vec![7, 9]),
        _ => panic!("expected records"),
    }
    assert!(s.done);
}

#[test]
fn session_store_error_gives_prefixed_500() {
    let (mut s, _) = Session::begin::<u32>(Policy::SingletonLazy, Endpoint::InsertPerson);
    match s.on_outcome::<u32>(Outcome::StoreError("socket closed".to_string())) {
        Action::Respond(Reply { status: 500, body: Body::Text(t) }) => {
            assert_eq!(t, "Error inserting person: socket closed")
        }
        _ => panic!("expected error text"),
    }
    let r: Reply<u32> = error_reply(Endpoint::QueryPerson, "timeout");
    assert_eq!(r.status, 500);
    assert!(matches!(r.body, Body::Text(ref t) if t == "Error querying person: timeout"));
}

#[test]
fn session_lock_poisoned_gives_503() {
    let (mut s, a) = Session::begin::<u32>(Policy::SharedMutex, Endpoint::QueryPerson);
    assert!(matches!(a, Action::Perform(Step::Lock)));
    match s.on_outcome::<u32>(Outcome::LockPoisoned) {
        Action::Respond(Reply { status: 503, body: Body::Text(t) }) => {
            assert_eq!(t, "Service is temporarily unavailable. Please try again later.")
        }
        _ => panic!("expected 503"),
    }
}

#[test]
fn index_session_replies_at_once() {
    for p in POLICIES {
        let (s, a) = Session::begin::<u32>(p, Endpoint::Index);
        assert!(s.done);
        assert!(matches!(a, Action::Respond(Reply { status: 200, body: Body::Text(ref t) }) if t == "Hello, World!"));
    }
}

#[test]
fn handle_state_transitions() {
    let s = HandleState::Unconnected;
    assert!(!s.permits(Step::SignIn));
    let s = s.advance(Step::Connect, true);
    assert_eq!(s, HandleState::Connected);
    assert!(s.permits(Step::SignIn));
    let s = s.advance(Step::SignIn, true).advance(Step::UseScope, true);
    assert_eq!(s, HandleState::Ready);
    assert!(s.permits(Step::Create) && s.permits(Step::Select) && s.permits(Step::UseScope));
    assert_eq!(s.advance(Step::Select, false), HandleState::Unconnected);
}

#[test]
fn stub_refuses_data_on_unready_handle() {
    let mut store = MemoryStore::new(true);
    let mut h = StubHandle { connection: 5, state: HandleState::Authenticated };
    let out = store.perform(&mut h, Step::Create, false, &Person::founder());
    assert!(matches!(out, Outcome::StoreError(_)));
    assert_eq!(h, StubHandle { connection: 5, state: HandleState::Unconnected });
    assert!(store.all().is_empty());
}
