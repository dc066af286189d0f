//! A bounded-concurrency dispatch engine for worker-local plugin chains.
//!
//! A session accumulates one plugin chain per worker until its quota is met,
//! then hands the collected pool over, exactly once, to a dispatcher.  The
//! dispatcher bounds concurrent hook evaluations by a permit pool sized to
//! the number of chains, evaluates resolve and render hooks sequentially and
//! short-circuiting within each chain, and carries a per-module metadata
//! store that render hooks use to pass state between calls.

pub mod direct_worker_bundler;
pub mod direct_worker_bundler_creator;
pub mod meta;
pub mod plugins;
pub mod result;
pub mod simple_bundler;
pub mod value;

use vstd::prelude::*;

verus! {

/// The two user-visible failures: a session that is gone (already handed
/// off, cancelled, or never created), and a hand-off of zero chains, which
/// could never issue a permit.
#[derive(Debug, Clone, Copy, PartialEq, Eq, Structural)]
pub enum BundlerError {
    SessionAlreadyTaken,
    EmptyWorkerPool,
}

impl BundlerError {
    /// The message the host sees for this failure.
    pub fn message(&self) -> (r: &'static str)
        ensures
            *self is SessionAlreadyTaken ==> r@ == "Bundler already created"@,
            *self is EmptyWorkerPool ==> r@ == "empty worker pool"@,
    {
        match self {
            BundlerError::SessionAlreadyTaken => "Bundler already created",
            BundlerError::EmptyWorkerPool => "empty worker pool",
        }
    }
}

} // verus!
