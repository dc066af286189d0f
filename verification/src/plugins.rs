//! Plugin descriptors and the sequential, short-circuiting evaluation of a
//! chain of hooks.
//!
//! A hook itself is a capability of the host and runs outside this library;
//! what reaches the evaluation logic is one [`HookReply`] per plugin: the
//! hook failed, gave no answer, or answered with a value.  A failure is
//! treated exactly like no answer; the first answer wins and ends the walk;
//! when nobody answers, the caller's fallback is the result.

use vstd::prelude::*;
use vstd::string::StringExecFns;

verus! {

/// A plugin as the host registers it: a name, and whether it supplies a
/// resolve hook and a render hook.  The hook bodies stay with the runner.
pub struct Plugin {
    pub name: String,
    pub resolve_id: bool,
    pub render_chunk: bool,
}

/// A plugin as a worker chain carries it, converted for cross-thread use.
pub struct ThreadSafePlugin {
    pub name: String,
    pub resolve_id: bool,
    pub render_chunk: bool,
}

/// The outcome of invoking one plugin's hook: the invocation failed, it
/// answered nothing, or it answered with a value.
#[derive(Debug, Clone, PartialEq, Eq)]
pub enum HookReply {
    Failed,
    NoAnswer,
    Answer(String),
}

/// The value a reply carries, if it answers at all; a failed invocation is
/// swallowed and counts as no answer.
pub open spec fn reply_answer(r: HookReply) -> Option<Seq<char>> {
    match r {
        HookReply::Answer(s) => Some(s@),
        _ => None,
    }
}

/// The result of walking hooks `i..` in order: the first answer from a
/// plugin that has a hook, or `fallback` when none answers.
pub open spec fn chain_result_from(
    hooks: Seq<bool>,
    replies: Seq<HookReply>,
    fallback: Seq<char>,
    i: int,
) -> Seq<char>
    decreases hooks.len() - i,
{
    if i < 0 || i >= hooks.len() {
        fallback
    } else if hooks[i] && reply_answer(replies[i]) is Some {
        reply_answer(replies[i])->0
    } else {
        chain_result_from(hooks, replies, fallback, i + 1)
    }
}

/// The result of walking a whole chain.
pub open spec fn chain_result(hooks: Seq<bool>, replies: Seq<HookReply>, fallback: Seq<char>) -> Seq<
    char,
> {
    chain_result_from(hooks, replies, fallback, 0)
}

/// Which plugins of a chain carry a resolve hook.
pub open spec fn resolve_hooks(plugins: Seq<ThreadSafePlugin>) -> Seq<bool> {
    plugins.map_values(|p: ThreadSafePlugin| p.resolve_id)
}

/// Which plugins of a chain carry a render hook.
pub open spec fn render_hooks(plugins: Seq<ThreadSafePlugin>) -> Seq<bool> {
    plugins.map_values(|p: ThreadSafePlugin| p.render_chunk)
}

/// A registered plugin, readied for a worker chain: the name and the hook
/// set carry over unchanged.
pub open spec fn convert_plugin(p: Plugin) -> ThreadSafePlugin {
    ThreadSafePlugin { name: p.name, resolve_id: p.resolve_id, render_chunk: p.render_chunk }
}

/// Converts a list of registered plugins into the form a worker chain
/// carries, keeping order, names and hook sets.
pub fn convert_plugins_to_thread_safe_plugins(plugins: Vec<Plugin>) -> (r: Vec<ThreadSafePlugin>)
    ensures
        r@ == plugins@.map_values(|p: Plugin| convert_plugin(p)),
{
    let ghost orig = plugins@;
    let mut rest = plugins;
    let mut out: Vec<ThreadSafePlugin> = Vec::new();
    while rest.len() > 0
        invariant
            out@.len() + rest@.len() == orig.len(),
            rest@ == orig.subrange(out@.len() as int, orig.len() as int),
            forall|j: int| 0 <= j < out@.len() ==> out@[j] == convert_plugin(orig[j]),
        decreases rest@.len(),
    {
        let p = rest.remove(0);
        proof {
            assert(p == orig[out@.len() as int]);
        }
        out.push(ThreadSafePlugin {
            name: p.name,
            resolve_id: p.resolve_id,
            render_chunk: p.render_chunk,
        });
        proof {
            assert(rest@ =~= orig.subrange(out@.len() as int, orig.len() as int));
        }
    }
    proof {
        assert(out@ =~= orig.map_values(|p: Plugin| convert_plugin(p)));
    }
    out
}

/// Walks the chain's resolve hooks in order, one reply per plugin: the
/// first answer is returned; a plugin without a resolve hook, a failed
/// invocation and an empty answer slot are all skipped; when nobody
/// answers, the literal `"fallback"` is returned.
///
/// `id` is the identifier the runner hands to each invoked hook; the
/// replies already reflect it, so only they decide the result here.
#[allow(unused_variables)]
pub fn resolve_id(plugins: &Vec<ThreadSafePlugin>, id: String, replies: &Vec<HookReply>) -> (r:
    String)
    requires
        replies@.len() == plugins@.len(),
    ensures
        r@ == chain_result(resolve_hooks(plugins@), replies@, "fallback"@),
{
    let ghost hooks = resolve_hooks(plugins@);
    let mut i: usize = 0;
    while i < plugins.len()
        invariant
            i <= plugins@.len(),
            replies@.len() == plugins@.len(),
            hooks == resolve_hooks(plugins@),
            chain_result(hooks, replies@, "fallback"@) == chain_result_from(
                hooks,
                replies@,
                "fallback"@,
                i as int,
            ),
        decreases plugins@.len() - i,
    {
        if plugins[i].resolve_id {
            match &replies[i] {
                HookReply::Answer(s) => {
                    return s.clone();
                },
                _ => {},
            }
        }
        i = i + 1;
    }
    String::from_str("fallback")
}

/// Walks the chain's render hooks in order, one reply per plugin, with the
/// same short-circuit and failure-swallowing policy as `resolve_id`; when
/// nobody answers, `code` itself is returned unchanged.
///
/// The runner binds each real hook invocation to a render context over the
/// dispatcher's metadata store; the replies already reflect what the hooks
/// did with it.
pub fn render_chunk(plugins: &Vec<ThreadSafePlugin>, code: String, replies: &Vec<HookReply>) -> (r:
    String)
    requires
        replies@.len() == plugins@.len(),
    ensures
        r@ == chain_result(render_hooks(plugins@), replies@, code@),
{
    let ghost hooks = render_hooks(plugins@);
    let mut i: usize = 0;
    while i < plugins.len()
        invariant
            i <= plugins@.len(),
            replies@.len() == plugins@.len(),
            hooks == render_hooks(plugins@),
            chain_result(hooks, replies@, code@) == chain_result_from(
                hooks,
                replies@,
                code@,
                i as int,
            ),
        decreases plugins@.len() - i,
    {
        if plugins[i].render_chunk {
            match &replies[i] {
                HookReply::Answer(s) => {
                    return s.clone();
                },
                _ => {},
            }
        }
        i = i + 1;
    }
    code
}

/// The first plugin at or after `from` that carries a resolve hook, or
/// the chain's length when none is left.  A runner that invokes real
/// hooks walks the chain in exactly this order.
pub fn next_resolve_hook(plugins: &Vec<ThreadSafePlugin>, from: usize) -> (r: usize)
    requires
        from <= plugins@.len(),
    ensures
        from <= r <= plugins@.len(),
        forall|j: int| from <= j < r ==> !plugins@[j].resolve_id,
        r < plugins@.len() ==> plugins@[r as int].resolve_id,
{
    let mut i = from;
    while i < plugins.len()
        invariant
            from <= i <= plugins@.len(),
            forall|j: int| from <= j < i ==> !plugins@[j].resolve_id,
        decreases plugins@.len() - i,
    {
        if plugins[i].resolve_id {
            return i;
        }
        i = i + 1;
    }
    i
}

/// The first plugin at or after `from` that carries a render hook, or
/// the chain's length when none is left.
pub fn next_render_hook(plugins: &Vec<ThreadSafePlugin>, from: usize) -> (r: usize)
    requires
        from <= plugins@.len(),
    ensures
        from <= r <= plugins@.len(),
        forall|j: int| from <= j < r ==> !plugins@[j].render_chunk,
        r < plugins@.len() ==> plugins@[r as int].render_chunk,
{
    let mut i = from;
    while i < plugins.len()
        invariant
            from <= i <= plugins@.len(),
            forall|j: int| from <= j < i ==> !plugins@[j].render_chunk,
        decreases plugins@.len() - i,
    {
        if plugins[i].render_chunk {
            return i;
        }
        i = i + 1;
    }
    i
}

/// What one hook reply decides: an answer ends the walk with its value;
/// a failed invocation and no answer both continue to the next plugin.
pub fn reply_decision(reply: HookReply) -> (r: Option<String>)
    ensures
        (match r {
            Some(v) => reply_answer(reply) matches Some(a) && a == v@,
            None => reply_answer(reply) is None,
        }),
{
    match reply {
        HookReply::Answer(s) => Some(s),
        _ => None,
    }
}

/// The value a resolve walk ends with when no plugin answered.
pub fn resolve_fallback() -> (r: String)
    ensures
        r@ == "fallback"@,
{
    String::from_str("fallback")
}

/// The walk from `i` ends at the first answering hook at or after `i`.
proof fn lemma_chain_from_first_answer(
    hooks: Seq<bool>,
    replies: Seq<HookReply>,
    fallback: Seq<char>,
    i: int,
    k: int,
)
    requires
        replies.len() == hooks.len(),
        0 <= i <= k < hooks.len(),
        hooks[k] && reply_answer(replies[k]) is Some,
        forall|j: int| i <= j < k ==> !(hooks[j] && reply_answer(replies[j]) is Some),
    ensures
        chain_result_from(hooks, replies, fallback, i) == reply_answer(replies[k])->0,
    decreases k - i,
{
    if i < k {
        lemma_chain_from_first_answer(hooks, replies, fallback, i + 1, k);
    }
}

/// The walk from `i` falls back when no hook at or after `i` answers.
proof fn lemma_chain_from_no_answer(
    hooks: Seq<bool>,
    replies: Seq<HookReply>,
    fallback: Seq<char>,
    i: int,
)
    requires
        replies.len() == hooks.len(),
        0 <= i <= hooks.len(),
        forall|j: int| i <= j < hooks.len() ==> !(hooks[j] && reply_answer(replies[j]) is Some),
    ensures
        chain_result_from(hooks, replies, fallback, i) == fallback,
    decreases hooks.len() - i,
{
    if i < hooks.len() {
        lemma_chain_from_no_answer(hooks, replies, fallback, i + 1);
    }
}

/// Law: evaluation short-circuits.  When the first answering hook of the
/// chain stands at `k`, its answer is the chain's result, whatever every
/// later plugin would have replied.
pub proof fn lemma_chain_short_circuit(
    hooks: Seq<bool>,
    replies: Seq<HookReply>,
    fallback: Seq<char>,
    k: int,
)
    requires
        replies.len() == hooks.len(),
        0 <= k < hooks.len(),
        hooks[k] && reply_answer(replies[k]) is Some,
        forall|j: int| 0 <= j < k ==> !(hooks[j] && reply_answer(replies[j]) is Some),
    ensures
        chain_result(hooks, replies, fallback) == reply_answer(replies[k])->0,
{
    lemma_chain_from_first_answer(hooks, replies, fallback, 0, k);
}

/// Law: plugins after the first answering hook are never reached.  Two
/// reply rows that agree up to and including the first answer give the
/// same result, however they differ afterwards.
pub proof fn lemma_chain_later_replies_unread(
    hooks: Seq<bool>,
    replies: Seq<HookReply>,
    other: Seq<HookReply>,
    fallback: Seq<char>,
    k: int,
)
    requires
        replies.len() == hooks.len(),
        other.len() == hooks.len(),
        0 <= k < hooks.len(),
        hooks[k] && reply_answer(replies[k]) is Some,
        forall|j: int| 0 <= j < k ==> !(hooks[j] && reply_answer(replies[j]) is Some),
        forall|j: int| 0 <= j <= k ==> replies[j] == other[j],
    ensures
        chain_result(hooks, replies, fallback) == chain_result(hooks, other, fallback),
{
    lemma_chain_from_first_answer(hooks, replies, fallback, 0, k);
    lemma_chain_from_first_answer(hooks, other, fallback, 0, k);
}

/// Law: when no plugin answers, resolve evaluation returns the fallback
/// and render evaluation returns the input unchanged: the chain's result
/// is whatever the caller's fallback was.
pub proof fn lemma_chain_no_answer(hooks: Seq<bool>, replies: Seq<HookReply>, fallback: Seq<char>)
    requires
        replies.len() == hooks.len(),
        forall|j: int| 0 <= j < hooks.len() ==> !(hooks[j] && reply_answer(replies[j]) is Some),
    ensures
        chain_result(hooks, replies, fallback) == fallback,
{
    lemma_chain_from_no_answer(hooks, replies, fallback, 0);
}

} // verus!
