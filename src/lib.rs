//! A small HTTP record service: the routes `/`, `/insert_person` and
//! `/query_person`, and the policy by which requests obtain a store handle.
//! Each request is a session that asks for store steps and turns their
//! outcomes into a reply; an in-memory store lets whole requests be run
//! and reasoned about.
use vstd::prelude::*;

pub mod person;
pub mod store;
pub mod session;
pub mod stub;
pub mod service;
pub mod laws;

verus! {

} // verus!
