//! Hook-chain evaluation, the metadata store, values, and the
//! single-chain bundler.

use worker_bundler::meta::Context;
use worker_bundler::meta::MetaMap;
use worker_bundler::direct_worker_bundler::worker_id;
use worker_bundler::plugins::HookReply;
use worker_bundler::plugins::Plugin;
use worker_bundler::plugins::ThreadSafePlugin;
use worker_bundler::plugins::convert_plugins_to_thread_safe_plugins;
use worker_bundler::plugins::render_chunk;
use worker_bundler::plugins::resolve_id;
use worker_bundler::simple_bundler::SimpleBundler;
use worker_bundler::value::Value;

fn chain(hooks: &[bool]) -> Vec<ThreadSafePlugin> {
    hooks
        .iter()
        .enumerate()
        .map(|(i, &h)| ThreadSafePlugin {
            name: format!("plugin{}", i),
            resolve_id: h,
            render_chunk: h,
        })
        .collect()
}

#[test]
fn first_answer_short_circuits() {
    // plugin one answers "A"; plugin two would answer "B" but is never
    // reached, so "A" is the result.
    let plugins = chain(&[true, true]);
    let replies = vec![
        HookReply::Answer("A".to_string()),
        HookReply::Answer("B".to_string()),
    ];
    let r = resolve_id(&plugins, "id".to_string(), &replies);
    assert_eq!(r, "A");
}

#[test]
fn failures_are_swallowed() {
    let plugins = chain(&[true, true, true]);
    let replies = vec![
        HookReply::Failed,
        HookReply::NoAnswer,
        HookReply::Answer("C".to_string()),
    ];
    let r = resolve_id(&plugins, "id".to_string(), &replies);
    assert_eq!(r, "C");
}

#[test]
fn hookless_plugins_are_skipped() {
    let mut plugins = chain(&[false, true]);
    plugins[0].resolve_id = false;
    // the reply slot of a plugin without a hook is never read
    let replies = vec![
        HookReply::Answer("ignored".to_string()),
        HookReply::Answer("B".to_string()),
    ];
    let r = resolve_id(&plugins, "id".to_string(), &replies);
    assert_eq!(r, "B");
}

#[test]
fn no_answer_resolves_to_fallback() {
    let plugins = chain(&[true, true]);
    let replies = vec![HookReply::NoAnswer, HookReply::Failed];
    let r = resolve_id(&plugins, "id".to_string(), &replies);
    assert_eq!(r, "fallback");
}

#[test]
fn empty_chain_resolves_to_fallback() {
    let plugins: Vec<ThreadSafePlugin> = Vec::new();
    let replies: Vec<HookReply> = Vec::new();
    let r = resolve_id(&plugins, "id".to_string(), &replies);
    assert_eq!(r, "fallback");
}

#[test]
fn no_answer_renders_code_unchanged() {
    let plugins = chain(&[true, true]);
    let replies = vec![HookReply::Failed, HookReply::NoAnswer];
    let r = render_chunk(&plugins, "the code".to_string(), &replies);
    assert_eq!(r, "the code");
}

#[test]
fn render_answer_replaces_code() {
    let plugins = chain(&[true]);
    let replies = vec![HookReply::Answer("rendered".to_string())];
    let r = render_chunk(&plugins, "the code".to_string(), &replies);
    assert_eq!(r, "rendered");
}

#[test]
fn worker_identifier_truncates_to_whole_repetitions() {
    assert_eq!(worker_id(12), "workerworker");
    assert_eq!(worker_id(13).len(), 12);
    assert_eq!(worker_id(17).len(), 12);
    assert_eq!(worker_id(5), "");
    assert_eq!(worker_id(0), "");
    assert_eq!(worker_id(6), "worker");
}

#[test]
fn conversion_keeps_names_and_hooks() {
    let plugins = vec![
        Plugin { name: "first".to_string(), resolve_id: true, render_chunk: false },
        Plugin { name: "second".to_string(), resolve_id: false, render_chunk: true },
    ];
    let converted = convert_plugins_to_thread_safe_plugins(plugins);
    assert_eq!(converted.len(), 2);
    assert_eq!(converted[0].name, "first");
    assert!(converted[0].resolve_id);
    assert!(!converted[0].render_chunk);
    assert_eq!(converted[1].name, "second");
    assert!(!converted[1].resolve_id);
    assert!(converted[1].render_chunk);
}

#[test]
fn meta_set_then_get_returns_value() {
    let ctx = Context::new(MetaMap::new());
    let mut ctx = ctx;
    let info = ctx.get_module_info("module-a".to_string());
    info.meta.set(&mut ctx.meta_map, "k".to_string(), Value::Number(7));
    let got = info.meta.get(&ctx.meta_map, "k".to_string());
    assert_eq!(got, Value::Number(7));
}

#[test]
fn meta_get_unset_key_is_undefined() {
    let mut ctx = Context::new(MetaMap::new());
    let info = ctx.get_module_info("module-a".to_string());
    info.meta.set(&mut ctx.meta_map, "k".to_string(), Value::Number(7));
    assert_eq!(info.meta.get(&ctx.meta_map, "other".to_string()), Value::Undefined);
    let empty = ctx.get_module_info("module-b".to_string());
    assert_eq!(empty.meta.get(&ctx.meta_map, "k".to_string()), Value::Undefined);
}

#[test]
fn meta_modules_are_independent() {
    let mut ctx = Context::new(MetaMap::new());
    let a = ctx.get_module_info("a".to_string());
    let b = ctx.get_module_info("b".to_string());
    a.meta.set(&mut ctx.meta_map, "k".to_string(), Value::String("va".to_string()));
    b.meta.set(&mut ctx.meta_map, "k".to_string(), Value::String("vb".to_string()));
    assert_eq!(a.meta.get(&ctx.meta_map, "k".to_string()), Value::String("va".to_string()));
    assert_eq!(b.meta.get(&ctx.meta_map, "k".to_string()), Value::String("vb".to_string()));
}

#[test]
fn meta_set_overwrites() {
    let mut ctx = Context::new(MetaMap::new());
    let info = ctx.get_module_info("m".to_string());
    info.meta.set(&mut ctx.meta_map, "k".to_string(), Value::Null);
    info.meta.set(&mut ctx.meta_map, "k".to_string(), Value::Number(2));
    assert_eq!(info.meta.get(&ctx.meta_map, "k".to_string()), Value::Number(2));
}

#[test]
fn value_clone_is_deep() {
    let v = Value::Object(vec![
        ("s".to_string(), Value::String("text".to_string())),
        ("n".to_string(), Value::Number(-3)),
        ("inner".to_string(), Value::Object(vec![("u".to_string(), Value::Undefined)])),
    ]);
    let copy = v.clone();
    assert_eq!(copy, v);
}

#[test]
fn meta_stores_structured_values() {
    let mut ctx = Context::new(MetaMap::new());
    let info = ctx.get_module_info("m".to_string());
    let v = Value::Object(vec![("k".to_string(), Value::Null)]);
    info.meta.set(&mut ctx.meta_map, "obj".to_string(), v.clone());
    assert_eq!(info.meta.get(&ctx.meta_map, "obj".to_string()), v);
}

#[test]
fn simple_bundler_runs_batches() {
    let bundler = SimpleBundler::new(vec![
        Plugin { name: "a".to_string(), resolve_id: true, render_chunk: false },
    ]);
    assert_eq!(bundler.get_plugin_count(), 1);
    let replies = vec![
        vec![HookReply::Answer("R".to_string())],
        vec![HookReply::Answer("R".to_string())],
        vec![HookReply::Answer("R".to_string())],
    ];
    let out = bundler.run(3, 18, &replies);
    assert_eq!(out.len, 3);
    assert_eq!(out.result, "R");
}

#[test]
fn simple_bundler_falls_back() {
    let bundler = SimpleBundler::new(vec![
        Plugin { name: "a".to_string(), resolve_id: true, render_chunk: false },
    ]);
    let replies = vec![vec![HookReply::NoAnswer]];
    let out = bundler.run(1, 6, &replies);
    assert_eq!(out.result, "fallback");
}
