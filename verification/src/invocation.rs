//! The invocation boundary: the context a caller hands to an entry point,
//! and the outcome an entry point hands back.

use vstd::prelude::*;

verus! {

/// The context of one invocation: the bundle of accounts the caller
/// passes to an entry point. Created fresh per call and consumed by it.
/// The accounts bundles of this library carry no fields, so any value of
/// one is well formed.
pub struct Context<A> {
    pub accounts: A,
}

impl<A> Context<A> {
    /// Wrap an accounts bundle for one invocation.
    pub fn new(accounts: A) -> (r: Context<A>)
        ensures
            r.accounts == accounts,
    {
        Context { accounts }
    }
}

/// The failure slot of an entry point's result. No failure path is
/// defined: no entry point of this library ever produces a value of this
/// type, and each one's contract says so (`r is Ok`). The slot stands so
/// that real error conditions can be added later without changing any
/// signature.
#[derive(Clone, Copy, PartialEq, Eq, Structural, Debug)]
pub struct ProgramError;

} // verus!
