use vstd::prelude::*;
use vstd::string::*;

verus! {

/// Where a store handle stands on its way to serving data operations.
/// `Ready` means the namespace/database scope has been selected; only then
/// may records be created or selected.
#[derive(PartialEq, Eq, Structural, Clone, Copy, Debug)]
pub enum HandleState {
    Unconnected,
    Connected,
    Authenticated,
    Ready,
}

/// One step a request asks of its store handle, or of the lock guarding it.
#[derive(PartialEq, Eq, Structural, Clone, Copy, Debug)]
pub enum Step {
    Lock,
    Connect,
    SignIn,
    UseScope,
    Create,
    Select,
}

/// Whether `step` may be attempted on a handle in state `s`.
pub open spec fn allowed(s: HandleState, step: Step) -> bool {
    match step {
        Step::Lock => true,
        Step::Connect => true,
        Step::SignIn => s == HandleState::Connected,
        Step::UseScope => s == HandleState::Authenticated || s == HandleState::Ready,
        Step::Create | Step::Select => s == HandleState::Ready,
    }
}

/// The state after `step` on a handle in state `s`; a failed step drops the
/// handle back to `Unconnected`.
pub open spec fn after(s: HandleState, step: Step, ok: bool) -> HandleState {
    if !ok {
        HandleState::Unconnected
    } else {
        match step {
            Step::Connect => HandleState::Connected,
            Step::SignIn => HandleState::Authenticated,
            Step::UseScope => HandleState::Ready,
            _ => s,
        }
    }
}

impl HandleState {
    /// Whether `step` may be attempted in this state.
    pub fn permits(self, step: Step) -> (r: bool)
        ensures
            r == allowed(self, step),
    {
        match step {
            Step::Lock | Step::Connect => true,
            Step::SignIn => self == HandleState::Connected,
            Step::UseScope => self == HandleState::Authenticated || self == HandleState::Ready,
            Step::Create | Step::Select => self == HandleState::Ready,
        }
    }

    /// The state once `step` has succeeded (`ok`) or failed.
    pub fn advance(self, step: Step, ok: bool) -> (r: HandleState)
        ensures
            r == after(self, step, ok),
    {
        if !ok {
            HandleState::Unconnected
        } else {
            match step {
                Step::Connect => HandleState::Connected,
                Step::SignIn => HandleState::Authenticated,
                Step::UseScope => HandleState::Ready,
                _ => self,
            }
        }
    }
}

/// Where the store is and how this service addresses it.
pub struct StoreConfig {
    pub endpoint: String,
    pub username: String,
    pub password: String,
    pub namespace: String,
    pub database: String,
    pub collection: String,
}

impl StoreConfig {
    /// The settings the service runs with: a store on the local machine,
    /// root credentials, scope `test`/`test`, records in `person`.
    pub fn standard() -> (c: StoreConfig)
        ensures
            c.endpoint@ == "127.0.0.1:8000"@,
            c.username@ == "root"@,
            c.password@ == "root"@,
            c.namespace@ == "test"@,
            c.database@ == "test"@,
            c.collection@ == "person"@,
    {
        StoreConfig {
            endpoint: String::from_str("127.0.0.1:8000"),
            username: String::from_str("root"),
            password: String::from_str("root"),
            namespace: String::from_str("test"),
            database: String::from_str("test"),
            collection: String::from_str("person"),
        }
    }
}

} // verus!
