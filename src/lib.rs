//! A small user service's core: the user table with its uniqueness rules, the
//! classification of datastore failures, and the mapping of every outcome onto
//! an HTTP status and a uniform `{code, message}` error body.
use vstd::prelude::*;

pub mod error;
pub mod failure;
pub mod handlers;
pub mod laws;
pub mod models;
pub mod repository;

verus! {

} // verus!
