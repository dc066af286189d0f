//! The single-chain bundler: one shared plugin chain, read by every task,
//! with no permit pool — tasks only ever read the chain, so nothing bounds
//! how many run at once.

use vstd::prelude::*;

use crate::plugins::HookReply;
use crate::plugins::Plugin;
use crate::plugins::ThreadSafePlugin;
use crate::plugins::chain_result;
use crate::plugins::convert_plugin;
use crate::plugins::convert_plugins_to_thread_safe_plugins;
use crate::plugins::resolve_hooks;
use crate::plugins::resolve_id;
use crate::direct_worker_bundler::worker_id;
use crate::result::RunResult;

verus! {

pub struct SimpleBundler {
    plugins: Vec<ThreadSafePlugin>,
}

impl SimpleBundler {
    /// The one plugin chain every task reads.
    pub closed spec fn chain(self) -> Seq<ThreadSafePlugin> {
        self.plugins@
    }

    /// Converts the registered plugins once and keeps them as the chain.
    pub fn new(plugins: Vec<Plugin>) -> (r: SimpleBundler)
        ensures
            r.chain() == plugins@.map_values(|p: Plugin| convert_plugin(p)),
    {
        SimpleBundler { plugins: convert_plugins_to_thread_safe_plugins(plugins) }
    }

    pub fn get_plugin_count(&self) -> (r: u32)
        requires
            self.chain().len() <= u32::MAX,
        ensures
            r == self.chain().len(),
    {
        self.plugins.len() as u32
    }

    /// Runs a batch of `count` resolution tasks against the one chain,
    /// each on the identifier built from `id_length`, one row of replies
    /// per task; returns the task count and the first slot's result.
    pub fn run(&self, count: u32, id_length: u32, replies: &Vec<Vec<HookReply>>) -> (r: RunResult)
        requires
            count >= 1,
            replies@.len() == count,
            forall|t: int| 0 <= t < replies@.len() ==> replies@[t]@.len() == self.chain().len(),
        ensures
            r.len == count,
            r.result@ == chain_result(resolve_hooks(self.chain()), replies@[0]@, "fallback"@),
    {
        let input = worker_id(id_length);
        let mut results: Vec<String> = Vec::new();
        let mut t: usize = 0;
        while t < count as usize
            invariant
                t <= count,
                results@.len() == t,
                replies@.len() == count,
                forall|tt: int|
                    0 <= tt < replies@.len() ==> replies@[tt]@.len() == self.chain().len(),
                t >= 1 ==> results@[0]@ == chain_result(
                    resolve_hooks(self.chain()),
                    replies@[0]@,
                    "fallback"@,
                ),
            decreases count - t,
        {
            let res = resolve_id(&self.plugins, input.clone(), &replies[t]);
            results.push(res);
            t = t + 1;
        }
        let result = results[0].clone();
        RunResult { len: count, result }
    }
}

} // verus!
