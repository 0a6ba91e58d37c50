//! Credentials for a TURN relay and the rules around them: usernames that
//! carry their expiry instant, passwords derived from a shared secret by
//! HMAC-SHA1, the check the relay makes on each request, static credentials,
//! and the decisions that start and stop the relay service.
use vstd::prelude::*;

pub mod auth;
pub mod credential;
pub mod crypto;
pub mod decimal;
pub mod freshness;
pub mod service;

verus! {

} // verus!
