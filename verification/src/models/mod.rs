//! The values the library reads and writes.

pub mod audit;
pub mod auth;
pub mod facilitator;
pub mod policy;

use vstd::prelude::*;

verus! {

/// The access an administration request needs.
#[derive(Debug, Clone, Copy, PartialEq, Eq, Structural)]
pub enum RequireRole {
    Read,
    Write,
}

} // verus!
