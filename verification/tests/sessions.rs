//! Registration barrier, hand-off and dispatcher batches, exercised end
//! to end with the real store and chains.

use worker_bundler::direct_worker_bundler::DirectWorkerBundler;
use worker_bundler::direct_worker_bundler_creator::AwaitPoll;
use worker_bundler::direct_worker_bundler_creator::DirectWorkerBundlerCreator;
use worker_bundler::direct_worker_bundler_creator::SessionRegistry;
use worker_bundler::direct_worker_bundler_creator::register_plugins;
use worker_bundler::plugins::HookReply;
use worker_bundler::plugins::Plugin;
use worker_bundler::BundlerError;

fn plugin(name: &str, resolve: bool, render: bool) -> Plugin {
    Plugin { name: name.to_string(), resolve_id: resolve, render_chunk: render }
}

#[test]
fn quota_met_after_exact_registrations() {
    let mut reg = SessionRegistry::new();
    let creator = DirectWorkerBundlerCreator::new(&mut reg, 2);

    assert_eq!(reg.poll_ready(creator.id), AwaitPoll::Pending);
    register_plugins(&mut reg, creator.id, vec![plugin("a", true, false)]);
    assert_eq!(reg.poll_ready(creator.id), AwaitPoll::Pending);
    register_plugins(&mut reg, creator.id, vec![plugin("b", true, false)]);
    assert_eq!(reg.poll_ready(creator.id), AwaitPoll::Ready);

    let dispatcher = creator.create(&mut reg).expect("quota met, hand-off must succeed");
    assert_eq!(dispatcher.get_plugin_count(), 1);
}

#[test]
fn plugin_count_reports_first_chain() {
    let mut reg = SessionRegistry::new();
    let creator = DirectWorkerBundlerCreator::new(&mut reg, 2);
    register_plugins(
        &mut reg,
        creator.id,
        vec![plugin("a", true, false), plugin("b", false, true), plugin("c", false, false)],
    );
    register_plugins(&mut reg, creator.id, vec![plugin("d", true, false)]);
    let dispatcher = creator.create(&mut reg).unwrap();
    assert_eq!(dispatcher.get_plugin_count(), 3);
}

#[test]
fn second_handoff_fails() {
    let mut reg = SessionRegistry::new();
    let creator = DirectWorkerBundlerCreator::new(&mut reg, 1);
    register_plugins(&mut reg, creator.id, vec![plugin("a", true, false)]);
    let first = creator.create(&mut reg);
    assert!(first.is_ok());
    let second = creator.create(&mut reg);
    assert_eq!(second.err(), Some(BundlerError::SessionAlreadyTaken));
}

#[test]
fn cancel_before_quota_never_hangs_waiters() {
    let mut reg = SessionRegistry::new();
    let creator = DirectWorkerBundlerCreator::new(&mut reg, 3);
    register_plugins(&mut reg, creator.id, vec![plugin("a", true, false)]);
    assert_eq!(reg.poll_ready(creator.id), AwaitPoll::Pending);

    creator.cancel(&mut reg);
    assert_eq!(reg.poll_ready(creator.id), AwaitPoll::Gone);
    assert_eq!(creator.create(&mut reg).err(), Some(BundlerError::SessionAlreadyTaken));
}

#[test]
fn cancel_is_idempotent() {
    let mut reg = SessionRegistry::new();
    let creator = DirectWorkerBundlerCreator::new(&mut reg, 1);
    creator.cancel(&mut reg);
    creator.cancel(&mut reg);
    assert_eq!(reg.poll_ready(creator.id), AwaitPoll::Gone);
}

#[test]
fn registration_after_teardown_is_dropped() {
    let mut reg = SessionRegistry::new();
    let creator = DirectWorkerBundlerCreator::new(&mut reg, 1);
    creator.cancel(&mut reg);
    register_plugins(&mut reg, creator.id, vec![plugin("late", true, false)]);
    assert_eq!(reg.poll_ready(creator.id), AwaitPoll::Gone);
}

#[test]
fn unknown_session_is_gone() {
    let reg = SessionRegistry::new();
    assert_eq!(reg.poll_ready(999), AwaitPoll::Gone);
}

#[test]
fn zero_quota_is_ready_at_once() {
    let mut reg = SessionRegistry::new();
    let creator = DirectWorkerBundlerCreator::new(&mut reg, 0);
    assert_eq!(reg.poll_ready(creator.id), AwaitPoll::Ready);
}

#[test]
fn session_ids_count_up() {
    let mut reg = SessionRegistry::new();
    let a = DirectWorkerBundlerCreator::new(&mut reg, 1);
    let b = DirectWorkerBundlerCreator::new(&mut reg, 1);
    assert_eq!(a.id, 1);
    assert_eq!(b.id, 2);
}

#[test]
fn empty_pool_is_refused() {
    let mut reg = SessionRegistry::new();
    let creator = DirectWorkerBundlerCreator::new(&mut reg, 0);
    assert_eq!(creator.create(&mut reg).err(), Some(BundlerError::EmptyWorkerPool));

    let direct = DirectWorkerBundler::new(Vec::new());
    assert_eq!(direct.err(), Some(BundlerError::EmptyWorkerPool));
}

#[test]
fn error_messages() {
    assert_eq!(BundlerError::SessionAlreadyTaken.message(), "Bundler already created");
    assert_eq!(BundlerError::EmptyWorkerPool.message(), "empty worker pool");
}

#[test]
fn late_registrations_before_handoff_are_kept() {
    // registrations arriving after the quota is met are still appended as
    // long as the hand-off has not happened; the pool seals all of them.
    let mut reg = SessionRegistry::new();
    let creator = DirectWorkerBundlerCreator::new(&mut reg, 2);
    register_plugins(&mut reg, creator.id, vec![plugin("a", true, false)]);
    register_plugins(&mut reg, creator.id, vec![plugin("b", true, false)]);
    assert_eq!(reg.poll_ready(creator.id), AwaitPoll::Ready);
    register_plugins(&mut reg, creator.id, vec![plugin("c", true, false)]);
    let dispatcher = creator.create(&mut reg).unwrap();
    assert_eq!(dispatcher.pool_size(), 3);
    assert_eq!(dispatcher.permits_available(), 3);
}

#[test]
fn picking_skips_busy_chains_and_falls_back_to_head() {
    let mut reg = SessionRegistry::new();
    let creator = DirectWorkerBundlerCreator::new(&mut reg, 3);
    register_plugins(&mut reg, creator.id, vec![plugin("a", true, false)]);
    register_plugins(&mut reg, creator.id, vec![plugin("b", true, false)]);
    register_plugins(&mut reg, creator.id, vec![plugin("c", true, false)]);
    let mut dispatcher = creator.create(&mut reg).unwrap();

    assert_eq!(dispatcher.pick_chain(), 0);
    dispatcher.lock_chain(0);
    assert_eq!(dispatcher.pick_chain(), 1);
    dispatcher.lock_chain(1);
    assert_eq!(dispatcher.pick_chain(), 2);
    dispatcher.lock_chain(2);
    // every chain busy: the policy falls back to chain zero
    assert_eq!(dispatcher.pick_chain(), 0);
    dispatcher.unlock_chain(1);
    assert_eq!(dispatcher.pick_chain(), 1);
    assert!(dispatcher.chain_locked(0));
    assert!(!dispatcher.chain_locked(1));
}

#[test]
fn permit_pool_bounds_admissions() {
    let mut reg = SessionRegistry::new();
    let creator = DirectWorkerBundlerCreator::new(&mut reg, 2);
    register_plugins(&mut reg, creator.id, vec![plugin("a", true, false)]);
    register_plugins(&mut reg, creator.id, vec![plugin("b", true, false)]);
    let mut dispatcher = creator.create(&mut reg).unwrap();

    assert!(dispatcher.try_acquire_permit());
    assert!(dispatcher.try_acquire_permit());
    assert!(!dispatcher.try_acquire_permit());
    dispatcher.release_permit();
    assert!(dispatcher.try_acquire_permit());
}

#[test]
fn resolve_batch_counts_every_task() {
    let mut reg = SessionRegistry::new();
    let creator = DirectWorkerBundlerCreator::new(&mut reg, 1);
    register_plugins(&mut reg, creator.id, vec![plugin("a", true, false)]);
    let mut dispatcher = creator.create(&mut reg).unwrap();

    let replies = vec![
        vec![HookReply::Answer("X".to_string())],
        vec![HookReply::Answer("X".to_string())],
        vec![HookReply::Answer("X".to_string())],
        vec![HookReply::Answer("X".to_string())],
    ];
    let out = dispatcher.run(4, 13, &replies);
    assert_eq!(out.len, 4);
    assert_eq!(out.result, "X");
}

#[test]
fn bounded_chain_assignment_scenario() {
    // quota two: chain A answers "X", chain B never answers; each
    // completed task's result depends only on which chain served it, so
    // every result is either the short-circuit answer or the fallback.
    let mut reg = SessionRegistry::new();
    let creator = DirectWorkerBundlerCreator::new(&mut reg, 2);
    register_plugins(&mut reg, creator.id, vec![plugin("answers", true, false)]);
    register_plugins(&mut reg, creator.id, vec![plugin("silent", true, false)]);
    let mut dispatcher = creator.create(&mut reg).unwrap();

    let answering = vec![HookReply::Answer("X".to_string())];
    let silent = vec![HookReply::NoAnswer];
    let replies = vec![answering.clone(), silent.clone(), answering, silent];
    let out = dispatcher.run(4, 12, &replies);
    assert_eq!(out.len, 4);
    assert!(out.result == "X" || out.result == "fallback");
}

#[test]
fn resolve_and_render_batch_composes_phases() {
    let mut reg = SessionRegistry::new();
    let creator = DirectWorkerBundlerCreator::new(&mut reg, 1);
    register_plugins(&mut reg, creator.id, vec![plugin("a", true, true)]);
    let mut dispatcher = creator.create(&mut reg).unwrap();

    let resolve_replies = vec![vec![HookReply::NoAnswer], vec![HookReply::NoAnswer]];
    let render_replies = vec![vec![HookReply::Answer("rendered".to_string())], vec![
        HookReply::Answer("rendered".to_string()),
    ]];
    let out = dispatcher.resolve_and_render_batch(2, &resolve_replies, &render_replies);
    assert_eq!(out.len, 2);
    assert_eq!(out.result, "rendered");
}

#[test]
fn render_phase_passes_resolved_code_through() {
    let mut reg = SessionRegistry::new();
    let creator = DirectWorkerBundlerCreator::new(&mut reg, 1);
    register_plugins(&mut reg, creator.id, vec![plugin("a", true, true)]);
    let mut dispatcher = creator.create(&mut reg).unwrap();

    // nobody resolves and nobody renders: phase one falls back, phase two
    // passes the code through unchanged.
    let resolve_replies = vec![vec![HookReply::NoAnswer]];
    let render_replies = vec![vec![HookReply::NoAnswer]];
    let out = dispatcher.resolve_and_render_batch(1, &resolve_replies, &render_replies);
    assert_eq!(out.result, "fallback");
}
