//! The registration barrier: a table of open sessions, each accumulating
//! one plugin chain per worker until its quota is met, and the one-time
//! hand-off of the collected pool to a dispatcher.
//!
//! A session is present in the table while it is open; both a successful
//! hand-off and a cancellation remove it, so every later hand-off attempt
//! finds nothing and fails rather than hanging.  The suspension itself —
//! waiting for the quota — belongs to the runner, which re-polls
//! [`SessionRegistry::poll_ready`] under its own signalling; the poll is
//! level-triggered, so a woken waiter always re-tests the state instead of
//! assuming it.

use std::collections::HashMap;
use vstd::prelude::*;

use crate::direct_worker_bundler::DirectWorkerBundler;
use crate::plugins::Plugin;
use crate::plugins::ThreadSafePlugin;
use crate::plugins::convert_plugin;
use crate::plugins::convert_plugins_to_thread_safe_plugins;
use crate::BundlerError;

verus! {

/// One open session: the quota it waits for and the worker chains
/// collected so far, in registration order.
pub struct SessionEntry {
    pub quota: u16,
    pub chains: Vec<Vec<ThreadSafePlugin>>,
}

/// The table of open sessions and the counter the next session identifier
/// is drawn from.  Identifiers wrap at the end of the 16-bit range, so
/// uniqueness over a whole process lifetime is not guaranteed; a collision
/// overwrites the older session, as an insert does.
pub struct SessionRegistry {
    table: HashMap<u16, SessionEntry>,
    counter: u16,
}

/// The identifier drawn after `id`: one higher, wrapping to zero at the
/// end of the 16-bit range.
pub open spec fn next_wrapped(id: u16) -> u16 {
    if id == 0xffff {
        0
    } else {
        (id + 1) as u16
    }
}

/// A registry with no open session.
pub open spec fn no_sessions() -> Map<u16, SessionEntry> {
    Map::empty()
}

/// What a waiter observes of a session: still collecting, ready for
/// hand-off, or gone (handed off, cancelled, or never created).
#[derive(Debug, Clone, Copy, PartialEq, Eq, Structural)]
pub enum AwaitPoll {
    Pending,
    Ready,
    Gone,
}

/// The level-triggered readiness predicate: a session is ready exactly
/// when it has collected at least its quota of chains.
pub open spec fn spec_poll(m: Map<u16, SessionEntry>, id: u16) -> AwaitPoll {
    if !m.contains_key(id) {
        AwaitPoll::Gone
    } else if m[id].chains@.len() >= m[id].quota {
        AwaitPoll::Ready
    } else {
        AwaitPoll::Pending
    }
}

impl SessionRegistry {
    /// The open sessions, by identifier.
    pub closed spec fn sessions(self) -> Map<u16, SessionEntry> {
        self.table@
    }

    /// The identifier the next session will get.
    pub closed spec fn next_id(self) -> u16 {
        self.counter
    }

    /// A fresh registry: no sessions, identifiers starting at one.
    pub fn new() -> (r: SessionRegistry)
        ensures
            r.sessions() == no_sessions(),
            r.next_id() == 1,
    {
        SessionRegistry { table: HashMap::new(), counter: 1 }
    }

    /// Reserves a fresh identifier and opens an empty session under it
    /// with the given quota.  Never fails; on identifier wrap-around a
    /// still-open session under the same identifier is overwritten.
    pub fn create_session(&mut self, quota: u16) -> (id: u16)
        ensures
            id == old(self).next_id(),
            final(self).next_id() == next_wrapped(id),
            final(self).sessions() == old(self).sessions().insert(
                id,
                final(self).sessions()[id],
            ),
            final(self).sessions()[id].quota == quota,
            final(self).sessions()[id].chains@.len() == 0,
    {
        let id = self.counter;
        self.counter = if self.counter == 0xffff {
            0
        } else {
            self.counter + 1
        };
        self.table.insert(id, SessionEntry { quota, chains: Vec::new() });
        id
    }

    /// What a waiter observes for `id` right now.
    pub fn poll_ready(&self, id: u16) -> (r: AwaitPoll)
        ensures
            r == spec_poll(self.sessions(), id),
    {
        match self.table.get(&id) {
            Some(entry) => {
                if entry.chains.len() >= entry.quota as usize {
                    AwaitPoll::Ready
                } else {
                    AwaitPoll::Pending
                }
            },
            None => AwaitPoll::Gone,
        }
    }
}

/// Appends one worker's plugin chain to its session.  Fire-and-forget:
/// when the session is gone — handed off, cancelled, or never created —
/// the registration is silently dropped and nothing changes.
pub fn register_plugins(registry: &mut SessionRegistry, id: u16, plugins: Vec<Plugin>)
    ensures
        final(registry).next_id() == old(registry).next_id(),
        !old(registry).sessions().contains_key(id) ==> final(registry).sessions() == old(registry).sessions(),
        old(registry).sessions().contains_key(id) ==> {
            &&& final(registry).sessions() == old(registry).sessions().insert(
                id,
                final(registry).sessions()[id],
            )
            &&& final(registry).sessions()[id].quota == old(registry).sessions()[id].quota
            &&& final(registry).sessions()[id].chains@.len() == old(registry).sessions()[id].chains@.len() + 1
            &&& forall|j: int|
                0 <= j < old(registry).sessions()[id].chains@.len() ==> final(registry).sessions()[id].chains@[j] == old(registry).sessions()[id].chains@[j]
            &&& final(registry).sessions()[id].chains@.last()@ == plugins@.map_values(
                |p: Plugin| convert_plugin(p),
            )
        },
{
    let ghost orig = registry.table@;
    let converted = convert_plugins_to_thread_safe_plugins(plugins);
    match registry.table.remove(&id) {
        Some(mut entry) => {
            entry.chains.push(converted);
            registry.table.insert(id, entry);
            proof {
                assert(registry.table@ =~= orig.insert(id, registry.table@[id]));
            }
        },
        None => {
            proof {
                assert(registry.table@ =~= orig);
            }
        },
    }
}

/// The host's handle on one session: it carries the reserved identifier.
pub struct DirectWorkerBundlerCreator {
    pub id: u16,
}

impl DirectWorkerBundlerCreator {
    /// Opens a session for `quota` workers and hands back its handle.
    pub fn new(registry: &mut SessionRegistry, quota: u16) -> (r: DirectWorkerBundlerCreator)
        ensures
            r.id == old(registry).next_id(),
            final(registry).next_id() == next_wrapped(r.id),
            final(registry).sessions() == old(registry).sessions().insert(
                r.id,
                final(registry).sessions()[r.id],
            ),
            final(registry).sessions()[r.id].quota == quota,
            final(registry).sessions()[r.id].chains@.len() == 0,
    {
        let id = registry.create_session(quota);
        DirectWorkerBundlerCreator { id }
    }

    /// The one-time hand-off: atomically removes the session and builds
    /// the dispatcher from its collected chains.  Fails with
    /// `SessionAlreadyTaken` when the session is gone — already handed
    /// off, cancelled, or never created — and with `EmptyWorkerPool` when
    /// it had collected no chain at all.  The caller is expected to have
    /// waited for readiness, but need not have.
    pub fn create(&self, registry: &mut SessionRegistry) -> (r: Result<
        DirectWorkerBundler,
        BundlerError,
    >)
        ensures
            final(registry).next_id() == old(registry).next_id(),
            final(registry).sessions() == old(registry).sessions().remove(self.id),
            !old(registry).sessions().contains_key(self.id) ==> (r matches Err(e) && e
                == BundlerError::SessionAlreadyTaken),
            old(registry).sessions().contains_key(self.id) && old(registry).sessions()[self.id].chains@.len() == 0 ==> (r matches Err(e) && e
                == BundlerError::EmptyWorkerPool),
            old(registry).sessions().contains_key(self.id) && old(registry).sessions()[self.id].chains@.len() > 0 ==> (r matches Ok(d) && {
                &&& d.wf()
                &&& d.chains() == old(registry).sessions()[self.id].chains@
                &&& d.available() == d.capacity()
                &&& forall|i: int| 0 <= i < d.locks().len() ==> !d.locks()[i]
                &&& d.meta() == crate::meta::empty_meta()
            }),
    {
        match registry.table.remove(&self.id) {
            None => Err(BundlerError::SessionAlreadyTaken),
            Some(entry) => DirectWorkerBundler::new(entry.chains),
        }
    }

    /// Tears the session down, whatever its state: the entry is removed
    /// if it is still present, so a pending waiter observes `Gone` and a
    /// later hand-off fails.  Idempotent, and safe to race with a
    /// hand-off: whichever runs second finds nothing.
    pub fn cancel(&self, registry: &mut SessionRegistry)
        ensures
            final(registry).next_id() == old(registry).next_id(),
            final(registry).sessions() == old(registry).sessions().remove(self.id),
    {
        registry.table.remove(&self.id);
    }
}

/// Law: once a session has collected at least its quota of chains — after
/// exactly `quota` registrations on a session that started empty — a
/// waiter observes `Ready` and the hand-off may proceed.
pub proof fn lemma_quota_met_ready(m: Map<u16, SessionEntry>, id: u16)
    requires
        m.contains_key(id),
        m[id].chains@.len() >= m[id].quota,
    ensures
        spec_poll(m, id) == AwaitPoll::Ready,
{
}

/// Law: the hand-off happens at most once.  It removes the session, so a
/// second hand-off on the same identifier finds no session and, by the
/// contract of `create`, fails with `SessionAlreadyTaken`.
pub proof fn lemma_second_take_gone(m: Map<u16, SessionEntry>, id: u16)
    ensures
        !m.remove(id).contains_key(id),
        spec_poll(m.remove(id), id) == AwaitPoll::Gone,
{
}

/// Law: cancellation never leaves a waiter hanging.  It removes the
/// session, so a pending waiter observes `Gone` instead of `Pending`, and
/// its hand-off attempt fails with `SessionAlreadyTaken` by the contract
/// of `create`.
pub proof fn lemma_cancelled_poll_gone(m: Map<u16, SessionEntry>, id: u16)
    ensures
        spec_poll(m.remove(id), id) == AwaitPoll::Gone,
{
}

} // verus!
