use vstd::prelude::*;
use vstd::string::*;

use crate::person::{is_founder, Person};
use crate::session::Outcome;
use crate::store::{after, allowed, HandleState, Step};

verus! {

/// A record as the store keeps it: the person, the identifier the store gave
/// it, and the connection it came in on.
pub struct Record {
    pub id: u64,
    pub connection: u64,
    pub person: Person,
}

impl Record {
    /// A field-for-field copy.
    pub fn copied(&self) -> (r: Record)
        ensures
            r == *self,
    {
        Record { id: self.id, connection: self.connection, person: self.person.copied() }
    }
}

/// One connection to the in-memory store, numbered in the order opened.
#[derive(PartialEq, Eq, Structural, Clone, Copy, Debug)]
pub struct StubHandle {
    pub connection: u64,
    pub state: HandleState,
}

/// An in-memory stand-in for the remote store, with one collection of
/// persons. It counts the connections opened and can be made unreachable.
pub struct MemoryStore {
    pub reachable: bool,
    pub connections: u64,
    pub records: Vec<Record>,
}

/// Whether `step` succeeds on handle `h` of `store` (the lock step depends on
/// the lock alone).
pub open spec fn step_succeeds(store: MemoryStore, h: StubHandle, step: Step, poisoned: bool) -> bool {
    match step {
        Step::Lock => !poisoned,
        Step::Connect => store.reachable && store.connections < u64::MAX,
        _ => store.reachable && allowed(h.state, step),
    }
}

/// `r` is what an insert through handle `h` adds to `store`.
pub open spec fn is_new_record(store: MemoryStore, h: StubHandle, r: Record) -> bool {
    &&& r.id == store.records@.len()
    &&& r.connection == h.connection
    &&& is_founder(r.person)
}

impl MemoryStore {
    /// An empty store that has opened no connection yet.
    pub fn new(reachable: bool) -> (s: MemoryStore)
        ensures
            s.reachable == reachable,
            s.connections == 0,
            s.records@.len() == 0,
    {
        MemoryStore { reachable, connections: 0, records: Vec::new() }
    }

    /// Copies of all records, in insertion order.
    pub fn all(&self) -> (r: Vec<Record>)
        ensures
            r@ == self.records@,
    {
        let mut out: Vec<Record> = Vec::new();
        let mut i: usize = 0;
        while i < self.records.len()
            invariant
                i <= self.records@.len(),
                out@ == self.records@.subrange(0, i as int),
            decreases self.records@.len() - i,
        {
            out.push(self.records[i].copied());
            i = i + 1;
            assert(out@ =~= self.records@.subrange(0, i as int));
        }
        assert(out@ =~= self.records@);
        out
    }

    /// Performs `step` on handle `h`; `poisoned` is the state of the lock that
    /// guards a shared handle, and `person` is what `Create` inserts.
    pub fn perform(&mut self, h: &mut StubHandle, step: Step, poisoned: bool, person: &Person) -> (o: Outcome<Record>)
        requires
            is_founder(*person),
            old(self).records@.len() < u64::MAX,
        ensures
            final(self).reachable == old(self).reachable,
            step_succeeds(*old(self), *old(h), step, poisoned) ==> {
                &&& o is Completed
                &&& final(h).state == after(old(h).state, step, true)
                &&& step == Step::Connect ==> final(h).connection == old(self).connections
                    && final(self).connections == old(self).connections + 1
                &&& step != Step::Connect ==> final(h).connection == old(h).connection
                    && final(self).connections == old(self).connections
                &&& step == Step::Create ==> {
                    &&& final(self).records@.len() == old(self).records@.len() + 1
                    &&& final(self).records@.drop_last() == old(self).records@
                    &&& is_new_record(*old(self), *old(h), final(self).records@.last())
                    &&& o->Completed_0@ == seq![final(self).records@.last()]
                }
                &&& step != Step::Create ==> final(self).records@ == old(self).records@
                &&& step == Step::Select ==> o->Completed_0@ == old(self).records@
            },
            !step_succeeds(*old(self), *old(h), step, poisoned) ==> {
                &&& final(self).connections == old(self).connections
                &&& final(self).records@ == old(self).records@
                &&& step == Step::Lock ==> o is LockPoisoned && *final(h) == *old(h)
                &&& step != Step::Lock ==> o is StoreError
                    && *final(h) == (StubHandle { connection: old(h).connection, state: HandleState::Unconnected })
            },
    {
        if step == Step::Lock {
            if poisoned {
                return Outcome::LockPoisoned;
            }
            return Outcome::Completed(Vec::new());
        }
        if !self.reachable {
            h.state = HandleState::Unconnected;
            return Outcome::StoreError(String::from_str("connection refused"));
        }
        if step == Step::Connect {
            if self.connections == u64::MAX {
                h.state = HandleState::Unconnected;
                return Outcome::StoreError(String::from_str("too many connections"));
            }
            *h = StubHandle { connection: self.connections, state: HandleState::Connected };
            self.connections = self.connections + 1;
            return Outcome::Completed(Vec::new());
        }
        if !h.state.permits(step) {
            h.state = HandleState::Unconnected;
            return Outcome::StoreError(String::from_str("handle not ready for this operation"));
        }
        h.state = h.state.advance(step, true);
        if step == Step::Create {
            let r = Record { id: self.records.len() as u64, connection: h.connection, person: person.copied() };
            let back = r.copied();
            self.records.push(r);
            let mut v: Vec<Record> = Vec::new();
            v.push(back);
            assert(self.records@.drop_last() =~= old(self).records@);
            assert(v@ =~= seq![self.records@.last()]);
            Outcome::Completed(v)
        } else if step == Step::Select {
            Outcome::Completed(self.all())
        } else {
            Outcome::Completed(Vec::new())
        }
    }
}

} // verus!
