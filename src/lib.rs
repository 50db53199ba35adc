//! User accounts and credential-based authentication: password hashing,
//! signed identity tokens, the per-request access guard and the login use case.
use vstd::prelude::*;

pub mod auth_service;
pub mod config;
pub mod entities;
pub mod errors;
pub mod middleware;
pub mod password;
pub mod response;
pub mod token;
pub mod user_service;
pub mod validations;

verus! {

} // verus!
