//! The dispatcher: a sealed pool of worker chains, a permit pool sized to
//! it, and the batch drivers that evaluate hook chains task by task.
//!
//! The permit pool is the sole concurrency bound: a task acquires one
//! permit before it evaluates a hook chain and returns it afterwards, so
//! no more evaluations are ever in flight than there are chains.  Chains
//! are mutually exclusive; a task picks the first free one and falls back
//! to chain zero when every chain is busy.

use vstd::prelude::*;

use crate::meta::MetaMap;
use crate::meta::ValueMetaEntries;
use crate::meta::empty_meta;
use crate::meta::meta_entries;
use crate::plugins::HookReply;
use crate::plugins::ThreadSafePlugin;
use crate::plugins::chain_result;
use crate::plugins::render_hooks;
use crate::plugins::resolve_hooks;
use crate::plugins::resolve_id;
use crate::plugins::render_chunk;
use crate::result::RunResult;
use crate::BundlerError;
use vstd::string::StringExecFns;

verus! {

/// `"worker"` repeated `n` times.
pub open spec fn repeat_seq(s: Seq<char>, n: nat) -> Seq<char>
    decreases n,
{
    if n == 0 {
        Seq::empty()
    } else {
        repeat_seq(s, (n - 1) as nat) + s
    }
}

/// The identifier a resolution task is given: the literal `"worker"`
/// repeated `id_length / 6` times, with truncating division, so the
/// effective identifier is shorter than `id_length` when `id_length` is
/// not a multiple of six.
pub open spec fn worker_input(id_length: u32) -> Seq<char> {
    repeat_seq("worker"@, (id_length / 6) as nat)
}

/// A repetition is as long as the repeated piece times the count.
pub proof fn lemma_repeat_len(s: Seq<char>, n: nat)
    ensures
        repeat_seq(s, n).len() == n * s.len(),
    decreases n,
{
    if n > 0 {
        lemma_repeat_len(s, (n - 1) as nat);
        assert(repeat_seq(s, n) == repeat_seq(s, (n - 1) as nat) + s);
        assert(repeat_seq(s, n).len() == repeat_seq(s, (n - 1) as nat).len() + s.len());
        assert(((n - 1) as nat) * s.len() + s.len() == n * s.len()) by (nonlinear_arith)
            requires
                n > 0,
        ;
    } else {
        assert(repeat_seq(s, n) == Seq::<char>::empty());
        assert(n * s.len() == 0) by (nonlinear_arith)
            requires
                n == 0,
        ;
    }
}

/// Law: the identifier used per resolution task has length
/// `6 * (id_length / 6)`, with truncating division.
pub proof fn lemma_worker_input_len(id_length: u32)
    ensures
        worker_input(id_length).len() == 6 * ((id_length / 6) as int),
{
    reveal_strlit("worker");
    lemma_repeat_len("worker"@, (id_length / 6) as nat);
}

/// Builds the identifier for one resolution task.
pub fn worker_id(id_length: u32) -> (r: String)
    ensures
        r@ == worker_input(id_length),
{
    let n: usize = (id_length / 6) as usize;
    let mut s = String::new();
    let mut i: usize = 0;
    while i < n
        invariant
            i <= n,
            s@ == repeat_seq("worker"@, i as nat),
        decreases n - i,
    {
        s.append("worker");
        i = i + 1;
    }
    s
}

/// The chain the picking policy settles on: the first free chain in array
/// order, or chain zero when every chain is busy (the fallback is a
/// blocking wait on chain zero alone, not a second sweep).
pub open spec fn first_unlocked_from(locks: Seq<bool>, i: int) -> int
    decreases locks.len() - i,
{
    if i < 0 || i >= locks.len() {
        0
    } else if !locks[i] {
        i
    } else {
        first_unlocked_from(locks, i + 1)
    }
}

pub open spec fn pick_chain_spec(locks: Seq<bool>) -> int {
    first_unlocked_from(locks, 0)
}

proof fn lemma_first_unlocked_from(locks: Seq<bool>, i: int)
    requires
        0 <= i <= locks.len(),
    ensures
        0 <= first_unlocked_from(locks, i) < locks.len() || locks.len() == 0,
        (exists|j: int| i <= j < locks.len() && !locks[j]) ==> {
            let k = first_unlocked_from(locks, i);
            i <= k < locks.len() && !locks[k] && (forall|j: int| i <= j < k ==> locks[j])
        },
        (forall|j: int| i <= j < locks.len() ==> locks[j]) ==> first_unlocked_from(locks, i) == 0,
    decreases locks.len() - i,
{
    if i < locks.len() && locks[i] {
        lemma_first_unlocked_from(locks, i + 1);
    }
}

/// Law: the picking policy returns the first free chain when one is free,
/// and falls back to chain zero when none is.
pub proof fn lemma_pick_chain(locks: Seq<bool>)
    requires
        locks.len() > 0,
    ensures
        0 <= pick_chain_spec(locks) < locks.len(),
        (exists|j: int| 0 <= j < locks.len() && !locks[j]) ==> {
            let k = pick_chain_spec(locks);
            !locks[k] && (forall|j: int| 0 <= j < k ==> locks[j])
        },
        (forall|j: int| 0 <= j < locks.len() ==> locks[j]) ==> pick_chain_spec(locks) == 0,
{
    lemma_first_unlocked_from(locks, 0);
}

/// The dispatcher that owns the sealed pool.
pub struct DirectWorkerBundler {
    plugins_list: Vec<Vec<ThreadSafePlugin>>,
    locked: Vec<bool>,
    permits: usize,
    meta_map: MetaMap,
}

impl DirectWorkerBundler {
    /// The sealed pool: one plugin chain per worker, fixed at hand-off.
    pub closed spec fn chains(self) -> Seq<Vec<ThreadSafePlugin>> {
        self.plugins_list@
    }

    /// Which chains are currently held by a task.
    pub closed spec fn locks(self) -> Seq<bool> {
        self.locked@
    }

    /// Permits still free in the pool.
    pub closed spec fn available(self) -> nat {
        self.permits as nat
    }

    /// The permit pool's size: the number of chains, fixed at construction.
    pub open spec fn capacity(self) -> nat {
        self.chains().len()
    }

    /// Hook evaluations in flight: permits handed out and not yet returned.
    pub open spec fn in_flight(self) -> int {
        self.capacity() - self.available()
    }

    /// The model of the dispatcher's metadata store.
    pub closed spec fn meta(self) -> ValueMetaEntries {
        meta_entries(self.meta_map)
    }

    pub open spec fn wf(self) -> bool {
        &&& self.chains().len() > 0
        &&& self.locks().len() == self.chains().len()
        &&& self.available() <= self.capacity()
    }

    /// Everything but the permit count and the lock states: what a batch
    /// must leave unchanged.
    pub open spec fn same_pool(self, other: DirectWorkerBundler) -> bool {
        self.chains() == other.chains() && self.meta() == other.meta()
    }

    /// Builds the fixed pool and a permit pool sized to it.  A pool of
    /// zero chains could never issue a permit, so it is refused outright
    /// rather than left to block every request forever.
    pub fn new(plugins_list: Vec<Vec<ThreadSafePlugin>>) -> (r: Result<
        DirectWorkerBundler,
        BundlerError,
    >)
        ensures
            plugins_list@.len() > 0 ==> (r matches Ok(d) && {
                &&& d.wf()
                &&& d.chains() == plugins_list@
                &&& d.available() == d.capacity()
                &&& forall|i: int| 0 <= i < d.locks().len() ==> !d.locks()[i]
                &&& d.meta() == empty_meta()
            }),
            plugins_list@.len() == 0 ==> (r matches Err(e) && e == BundlerError::EmptyWorkerPool),
    {
        let n = plugins_list.len();
        if n == 0 {
            return Err(BundlerError::EmptyWorkerPool);
        }
        let mut locked: Vec<bool> = Vec::new();
        let mut i: usize = 0;
        while i < n
            invariant
                i <= n,
                locked@.len() == i,
                forall|j: int| 0 <= j < i ==> !locked@[j],
            decreases n - i,
        {
            locked.push(false);
            i = i + 1;
        }
        Ok(DirectWorkerBundler { plugins_list, locked, permits: n, meta_map: MetaMap::new() })
    }

    /// The plugin count of chain zero.  Every chain is expected to carry
    /// the same plugin configuration; when they differ, this reports only
    /// chain zero's shape.
    pub fn get_plugin_count(&self) -> (r: u32)
        requires
            self.wf(),
            self.chains()[0]@.len() <= u32::MAX,
        ensures
            r == self.chains()[0]@.len(),
    {
        self.plugins_list[0].len() as u32
    }

    /// Takes one permit; the caller must know one is free.  The batch
    /// drivers run tasks back to back, so a permit always is; a concurrent
    /// runner uses `try_acquire_permit` and suspends on `false`.
    pub fn acquire_permit(&mut self)
        requires
            old(self).available() > 0,
        ensures
            final(self).available() == old(self).available() - 1,
            final(self).locks() == old(self).locks(),
            final(self).same_pool(*old(self)),
    {
        self.permits = self.permits - 1;
    }

    /// Takes one permit if the pool is not exhausted; a runner that gets
    /// `false` suspends and retries, which is the only blocking point.
    pub fn try_acquire_permit(&mut self) -> (r: bool)
        ensures
            final(self).locks() == old(self).locks(),
            final(self).same_pool(*old(self)),
            r ==> old(self).available() > 0 && final(self).available() == old(self).available()
                - 1,
            !r ==> old(self).available() == 0 && final(self).available() == 0,
    {
        if self.permits > 0 {
            self.permits = self.permits - 1;
            true
        } else {
            false
        }
    }

    /// Returns one permit; the pool never holds more than its size.
    pub fn release_permit(&mut self)
        requires
            old(self).available() < old(self).capacity(),
        ensures
            final(self).available() == old(self).available() + 1,
            final(self).locks() == old(self).locks(),
            final(self).same_pool(*old(self)),
    {
        let cap = self.plugins_list.len();
        proof {
            assert(self.permits < cap);
        }
        self.permits = self.permits + 1;
    }

    /// Picks the chain a task will use: the first free one in array order,
    /// or chain zero when every chain is busy.
    pub fn pick_chain(&self) -> (r: usize)
        requires
            self.wf(),
        ensures
            r == pick_chain_spec(self.locks()),
            r < self.chains().len(),
    {
        proof {
            lemma_pick_chain(self.locks());
        }
        let n = self.locked.len();
        let mut i: usize = 0;
        while i < n
            invariant
                self.wf(),
                i <= n,
                n == self.locks().len(),
                forall|j: int| 0 <= j < i ==> self.locks()[j],
                pick_chain_spec(self.locks()) == first_unlocked_from(self.locks(), i as int),
            decreases n - i,
        {
            if !self.locked[i] {
                return i;
            }
            i = i + 1;
        }
        0
    }

    /// Marks a free chain as held by the calling task.
    pub fn lock_chain(&mut self, i: usize)
        requires
            old(self).wf(),
            i < old(self).locks().len(),
            !old(self).locks()[i as int],
        ensures
            final(self).locks() == old(self).locks().update(i as int, true),
            final(self).available() == old(self).available(),
            final(self).same_pool(*old(self)),
    {
        self.locked.set(i, true);
    }

    /// How many permits are free right now.
    pub fn permits_available(&self) -> (r: usize)
        ensures
            r == self.available(),
    {
        self.permits
    }

    /// The pool's size: how many chains it was sealed with.
    pub fn pool_size(&self) -> (r: usize)
        ensures
            r == self.capacity(),
    {
        self.plugins_list.len()
    }

    /// Whether a chain is currently held by a task.
    pub fn chain_locked(&self, i: usize) -> (r: bool)
        requires
            i < self.locks().len(),
        ensures
            r == self.locks()[i as int],
    {
        self.locked[i]
    }

    /// The dispatcher's metadata store, for lookups after a batch.
    pub fn meta_map(&self) -> (r: &MetaMap)
        ensures
            meta_entries(*r) == self.meta(),
    {
        &self.meta_map
    }

    /// The dispatcher's metadata store, for building render contexts and
    /// for writes; only the store changes through the returned handle.
    pub fn meta_map_mut(&mut self) -> (r: &mut MetaMap)
        ensures
            meta_entries(*r) == old(self).meta(),
            final(self).meta() == meta_entries(*final(r)),
            final(self).chains() == old(self).chains(),
            final(self).locks() == old(self).locks(),
            final(self).available() == old(self).available(),
    {
        &mut self.meta_map
    }

    /// Releases a held chain.
    pub fn unlock_chain(&mut self, i: usize)
        requires
            old(self).wf(),
            i < old(self).locks().len(),
            old(self).locks()[i as int],
        ensures
            final(self).locks() == old(self).locks().update(i as int, false),
            final(self).available() == old(self).available(),
            final(self).same_pool(*old(self)),
    {
        self.locked.set(i, false);
    }
}

impl DirectWorkerBundler {
    /// Runs a batch of `count` independent resolution tasks.  Each task
    /// takes a permit, picks a chain, evaluates the chain's resolve hooks
    /// on the identifier built from `id_length`, then returns chain and
    /// permit.  One row of replies per task stands for what that task's
    /// hook invocations answered.  The batch returns how many tasks
    /// completed and, as a sample, the result read from the first slot.
    pub fn run(&mut self, count: u32, id_length: u32, replies: &Vec<Vec<HookReply>>) -> (r:
        RunResult)
        requires
            old(self).wf(),
            old(self).available() == old(self).capacity(),
            forall|i: int| 0 <= i < old(self).locks().len() ==> !old(self).locks()[i],
            count >= 1,
            replies@.len() == count,
            forall|t: int|
                0 <= t < replies@.len() ==> replies@[t]@.len() == old(self).chains()[0]@.len(),
        ensures
            final(self).wf(),
            final(self).same_pool(*old(self)),
            final(self).available() == old(self).available(),
            final(self).locks() == old(self).locks(),
            r.len == count,
            r.result@ == chain_result(
                resolve_hooks(old(self).chains()[0]@),
                replies@[0]@,
                "fallback"@,
            ),
    {
        let ghost orig = *self;
        let input = worker_id(id_length);
        let mut results: Vec<String> = Vec::new();
        let mut t: usize = 0;
        while t < count as usize
            invariant
                self.wf(),
                self.same_pool(orig),
                self.available() == self.capacity(),
                self.locks() == orig.locks(),
                forall|i: int| 0 <= i < self.locks().len() ==> !self.locks()[i],
                t <= count,
                results@.len() == t,
                replies@.len() == count,
                forall|tt: int|
                    0 <= tt < replies@.len() ==> replies@[tt]@.len() == self.chains()[0]@.len(),
                t >= 1 ==> results@[0]@ == chain_result(
                    resolve_hooks(orig.chains()[0]@),
                    replies@[0]@,
                    "fallback"@,
                ),
            decreases count - t,
        {
            self.acquire_permit();
            let idx = self.pick_chain();
            proof {
                assert(idx == 0);
            }
            self.lock_chain(idx);
            let res = resolve_id(&self.plugins_list[idx], input.clone(), &replies[t]);
            self.unlock_chain(idx);
            self.release_permit();
            results.push(res);
            proof {
                assert(self.locks() =~= orig.locks());
            }
            t = t + 1;
        }
        let result = results[0].clone();
        RunResult { len: count, result }
    }

    /// Runs a batch of `count` two-phase tasks.  Phase one resolves an
    /// identifier from the fixed literal `"worker"`; phase two takes the
    /// resolved value as code and evaluates the render hooks, which the
    /// runner binds to a fresh render context over this dispatcher's
    /// metadata store.  Each phase takes and returns its own permit and
    /// chain, so the two phases of one task may be served by different
    /// chains.  One row of resolve replies and one row of render replies
    /// stand for each task's hook invocations.
    pub fn resolve_and_render_batch(
        &mut self,
        count: u32,
        resolve_replies: &Vec<Vec<HookReply>>,
        render_replies: &Vec<Vec<HookReply>>,
    ) -> (r: RunResult)
        requires
            old(self).wf(),
            old(self).available() == old(self).capacity(),
            forall|i: int| 0 <= i < old(self).locks().len() ==> !old(self).locks()[i],
            count >= 1,
            resolve_replies@.len() == count,
            render_replies@.len() == count,
            forall|t: int|
                0 <= t < resolve_replies@.len() ==> resolve_replies@[t]@.len() == old(
                    self,
                ).chains()[0]@.len(),
            forall|t: int|
                0 <= t < render_replies@.len() ==> render_replies@[t]@.len() == old(
                    self,
                ).chains()[0]@.len(),
        ensures
            final(self).wf(),
            final(self).same_pool(*old(self)),
            final(self).available() == old(self).available(),
            final(self).locks() == old(self).locks(),
            r.len == count,
            r.result@ == chain_result(
                render_hooks(old(self).chains()[0]@),
                render_replies@[0]@,
                chain_result(
                    resolve_hooks(old(self).chains()[0]@),
                    resolve_replies@[0]@,
                    "fallback"@,
                ),
            ),
    {
        let ghost orig = *self;
        let mut results: Vec<String> = Vec::new();
        let mut t: usize = 0;
        while t < count as usize
            invariant
                self.wf(),
                self.same_pool(orig),
                self.available() == self.capacity(),
                self.locks() == orig.locks(),
                forall|i: int| 0 <= i < self.locks().len() ==> !self.locks()[i],
                t <= count,
                results@.len() == t,
                resolve_replies@.len() == count,
                render_replies@.len() == count,
                forall|tt: int|
                    0 <= tt < resolve_replies@.len() ==> resolve_replies@[tt]@.len()
                        == self.chains()[0]@.len(),
                forall|tt: int|
                    0 <= tt < render_replies@.len() ==> render_replies@[tt]@.len()
                        == self.chains()[0]@.len(),
                t >= 1 ==> results@[0]@ == chain_result(
                    render_hooks(orig.chains()[0]@),
                    render_replies@[0]@,
                    chain_result(
                        resolve_hooks(orig.chains()[0]@),
                        resolve_replies@[0]@,
                        "fallback"@,
                    ),
                ),
            decreases count - t,
        {
            self.acquire_permit();
            let idx = self.pick_chain();
            proof {
                assert(idx == 0);
            }
            self.lock_chain(idx);
            let code = resolve_id(
                &self.plugins_list[idx],
                String::from_str("worker"),
                &resolve_replies[t],
            );
            self.unlock_chain(idx);
            self.release_permit();
            self.acquire_permit();
            let idx2 = self.pick_chain();
            proof {
                assert(idx2 == 0);
            }
            self.lock_chain(idx2);
            let rendered = render_chunk(&self.plugins_list[idx2], code, &render_replies[t]);
            self.unlock_chain(idx2);
            self.release_permit();
            results.push(rendered);
            proof {
                assert(self.locks() =~= orig.locks());
            }
            t = t + 1;
        }
        let result = results[0].clone();
        RunResult { len: count, result }
    }
}

/// Law: the permit pool bounds concurrency.  In every well-formed
/// dispatcher state, the number of hook evaluations in flight is at most
/// the number of chains, whatever order permits were taken and returned
/// in.
pub proof fn lemma_permit_bound(d: DirectWorkerBundler)
    requires
        d.wf(),
    ensures
        0 <= d.in_flight() <= d.chains().len(),
{
}

} // verus!
