use aft::callgraph::{
    settle_build, BuildTicket, CallGraphStoreBuildEvent, CallGraphStoreError,
    CallgraphBackgroundWork, CallgraphStoreAccess, EnsureStep, OpsEnd, OpsReceived, OpsStep, RefreshAdmission,
};
use aft::config::{Config, Platform};
use aft::context::{AppContext, BuildSuspension, StoreHandle};
use aft::runtime::SessionBindings;
use aft::semantic_status::SemanticIndexStatus;

const STORE: StoreHandle = StoreHandle { id: 7, legacy_fallback: false };

fn cold_build_context() -> AppContext {
    let mut config = Config::default();
    config.project_root = Some("/project".to_string());
    config.storage_dir = Some("/storage".to_string());
    config.callgraph_chunk_size = 1;
    AppContext::new(config, Platform::Unix)
}

/// What stands around a query: what is published, and what a build comes to.
struct World {
    published: Option<StoreHandle>,
    granted: bool,
    ticket: Option<BuildTicket>,
}

impl World {
    fn empty() -> World {
        World { published: None, granted: true, ticket: None }
    }

    fn build(&mut self, ctx: &AppContext) -> CallGraphStoreBuildEvent {
        let ticket = self.ticket.take().expect("a build was started");
        let built = if self.granted {
            self.published = Some(STORE);
            Ok(Some(STORE.id))
        } else {
            Err(CallGraphStoreError::Unavailable(
                "/project: could not acquire writer capability".to_string(),
            ))
        };
        let current = ctx.callgraph_publication_is_current(ticket.publication_epoch);
        settle_build(&ticket, current, built)
    }

    /// Answers every step; a build is finished only where the query waits for it.
    fn query(&mut self, ctx: &mut AppContext, wait: bool) -> OpsEnd {
        let first = ctx.callgraph_store_for_ops(true, wait);
        self.run(ctx, first)
    }

    fn run(&mut self, ctx: &mut AppContext, first: OpsStep) -> OpsEnd {
        let mut step = first;
        let mut waited = (0, 0);
        loop {
            step = match step {
                OpsStep::Answer { access, .. } => {
                    return OpsEnd { access, replay: vec![], request_tier2_pull: false };
                }
                OpsStep::CheckSuspension(ticket) => ctx.ops_after_suspension_check(ticket, Ok(None)),
                OpsStep::OpenReadonly(ticket) => ctx.ops_after_open(ticket, Ok(self.published)),
                OpsStep::Spawn(ticket, work) => {
                    if let Some(build) = ctx.spawn_callgraph_store_cold_build(work, true) {
                        self.ticket = Some(build);
                    }
                    ctx.ops_after_spawn(ticket)
                }
                OpsStep::Await => {
                    waited = (ctx.callgraph_store_rx_generation(), ctx.callgraph_store_rx_epoch());
                    let event = self.build(ctx);
                    ctx.ops_after_wait(waited.0, waited.1, OpsReceived::Event(event))
                }
                OpsStep::Reopen { fulfilled_force_token } => {
                    let contained = ctx
                        .pending_callgraph_store_paths()
                        .iter()
                        .map(|path| path.starts_with("/project/"))
                        .collect();
                    return ctx.ops_after_reopen(
                        waited.0,
                        waited.1,
                        fulfilled_force_token,
                        Ok(self.published),
                        &contained,
                    );
                }
            };
        }
    }
}

#[test]
fn home_root_gate_blocks_callgraph_store_entry_points() {
    let mut ctx = cold_build_context();
    ctx.set_heavy_root_work_allowed(false);
    ctx.set_degraded_reasons(vec!["home_root".to_string()]);
    assert!(!ctx.heavy_root_work_allowed());
    assert!(ctx.is_home_root());
    assert!(ctx.degraded_reasons().iter().any(|reason| reason == "home_root"));

    ctx.reset_callgraph_cold_build_spawn_count_for_test();
    let end = World::empty().query(&mut ctx, true);
    assert!(matches!(end.access, CallgraphStoreAccess::Unavailable));
    assert!(
        matches!(
            ctx.ensure_callgraph_store(true),
            EnsureStep::Done { store: None, migrate: false }
        ),
        "synchronous standalone callgraph builds are blocked too"
    );
    assert_eq!(ctx.callgraph_cold_build_spawn_count_for_test(), 0);
    assert!(!ctx.callgraph.receiver.present);
}

#[test]
fn non_home_root_still_allows_callgraph_cold_builds() {
    let mut ctx = cold_build_context();
    ctx.reset_callgraph_cold_build_spawn_count_for_test();

    assert!(ctx.heavy_root_work_allowed());
    let end = World::empty().query(&mut ctx, false);
    assert!(matches!(
        end.access,
        CallgraphStoreAccess::Building | CallgraphStoreAccess::Ready(_)
    ));
    assert_eq!(
        ctx.callgraph_cold_build_spawn_count_for_test(),
        1,
        "non-home roots must still be able to cold-build the callgraph store"
    );
    assert!(
        ctx.callgraph.receiver.present,
        "non-home cold build should install an in-flight receiver"
    );
}

#[test]
fn semantic_ready_event_resumes_deferred_callgraph_and_tier2() {
    let mut ctx = cold_build_context();
    ctx.install_semantic_index_rx(ctx.configure_generation());
    ctx.schedule_semantic_cold_seed_gate_for_configure();
    let mut world = World::empty();

    assert!(matches!(world.query(&mut ctx, false).access, CallgraphStoreAccess::Building));
    assert_eq!(ctx.callgraph_cold_build_spawn_count_for_test(), 0);

    // The drain takes the finished index up and lets other cold work go on.
    ctx.semantic.resident = true;
    ctx.semantic.status = SemanticIndexStatus::ready(Platform::Unix);
    let resume = ctx.clear_semantic_cold_seed_gate_and_resume_deferred_work();

    assert!(
        !ctx.semantic_cold_seed_active(),
        "semantic Ready must clear the scheduled cold gate"
    );
    assert!(resume.request_tier2, "semantic Ready must resume deferred Tier-2 work");
    assert!(ctx.resume_warms_callgraph(resume));
    let warm = ctx.schedule_callgraph_store_warm(true);
    world.run(&mut ctx, warm);
    assert_eq!(
        ctx.callgraph_cold_build_spawn_count_for_test(),
        1,
        "semantic Ready must resume the deferred callgraph warm"
    );
    assert!(ctx.callgraph.receiver.present);
}

#[test]
fn semantic_failed_event_clears_scheduled_gate_and_requests_tier2_pull() {
    let mut ctx = AppContext::new(Config::default(), Platform::Unix);
    ctx.install_semantic_index_rx(ctx.configure_generation());
    ctx.schedule_semantic_cold_seed_gate_for_configure();

    ctx.semantic.status = SemanticIndexStatus::Failed("embedding backend failed".to_string());
    let resume = ctx.clear_semantic_cold_seed_gate_and_resume_deferred_work();

    assert!(
        !ctx.semantic_cold_seed_active(),
        "semantic Failed must clear the scheduled cold gate"
    );
    assert!(resume.request_tier2, "semantic Failed must resume deferred Tier-2 work");
}

#[test]
fn semantic_disconnect_clears_scheduled_gate_and_requests_tier2_pull() {
    let mut ctx = AppContext::new(Config::default(), Platform::Unix);
    ctx.install_semantic_index_rx(ctx.configure_generation());
    ctx.schedule_semantic_cold_seed_gate_for_configure();

    ctx.retire_semantic_index_rx();
    let resume = ctx.clear_semantic_cold_seed_gate_and_resume_deferred_work();

    assert!(
        !ctx.semantic_cold_seed_active(),
        "semantic worker disconnect must clear the scheduled cold gate"
    );
    assert!(
        resume.request_tier2,
        "semantic worker disconnect must resume deferred Tier-2 work"
    );
}

#[test]
fn semantic_gate_cleared_event_resumes_deferred_callgraph_and_tier2() {
    let mut ctx = cold_build_context();
    ctx.schedule_semantic_cold_seed_gate_for_configure();
    let mut world = World::empty();

    assert!(matches!(world.query(&mut ctx, false).access, CallgraphStoreAccess::Building));
    assert_eq!(ctx.callgraph_cold_build_spawn_count_for_test(), 0);
    let resume = ctx.resume_deferred_work_after_semantic_cold_seed_gate_cleared();

    assert!(!ctx.semantic_cold_seed_active());
    assert!(resume.request_tier2);
    assert!(ctx.resume_warms_callgraph(resume));
    let warm = ctx.schedule_callgraph_store_warm(true);
    world.run(&mut ctx, warm);
    assert_eq!(ctx.callgraph_cold_build_spawn_count_for_test(), 1);
    assert!(ctx.callgraph.receiver.present);
}

#[test]
fn semantic_cold_seed_gate_defers_callgraph_cold_spawn_until_resume() {
    let mut ctx = cold_build_context();
    ctx.schedule_semantic_cold_seed_gate_for_configure();
    let mut world = World::empty();

    assert!(
        matches!(world.query(&mut ctx, false).access, CallgraphStoreAccess::Building),
        "callgraph ops should degrade as building while the semantic cold gate is active"
    );
    assert_eq!(
        ctx.callgraph_cold_build_spawn_count_for_test(),
        0,
        "semantic cold gate must not spawn a competing callgraph cold build"
    );
    assert!(ctx.semantic.seed.callgraph_warm_deferred);

    let resume = ctx.clear_semantic_cold_seed_gate_and_resume_deferred_work();
    assert!(ctx.resume_warms_callgraph(resume));
    let warm = ctx.schedule_callgraph_store_warm(true);
    world.run(&mut ctx, warm);
    assert_eq!(
        ctx.callgraph_cold_build_spawn_count_for_test(),
        1,
        "clearing the semantic cold gate should resume the deferred callgraph warm"
    );
}

#[test]
fn semantic_cold_seed_gate_clear_requests_tier2_pull() {
    let mut ctx = AppContext::new(Config::default(), Platform::Unix);
    ctx.schedule_semantic_cold_seed_gate_for_configure();

    let resume = ctx.resume_deferred_work_after_semantic_cold_seed_gate_cleared();

    assert!(
        !ctx.semantic_cold_seed_active(),
        "retry-wait or cached-load events must reopen the semantic cold gate"
    );
    assert!(
        resume.request_tier2,
        "clearing the semantic cold gate should kick a Tier-2 pull refresh"
    );
}

#[test]
fn semantic_cold_seed_gate_is_per_context_for_tier2_scheduler() {
    let mut ctx_a = AppContext::new(Config::default(), Platform::Unix);
    let ctx_b = AppContext::new(Config::default(), Platform::Unix);
    ctx_a.schedule_semantic_cold_seed_gate_for_configure();

    let facts_a = ctx_a.tick_tier2_refresh_scheduler_at(false);
    let facts_b = ctx_b.tick_tier2_refresh_scheduler_at(false);
    assert!(
        facts_a.semantic_cold_seed_active,
        "root A should defer Tier-2 while its semantic cold seed is active"
    );
    assert!(
        !facts_b.semantic_cold_seed_active && facts_b.can_write,
        "root B must not inherit root A's semantic cold gate"
    );
}

#[test]
fn query_wait_joins_callgraph_build_scheduled_without_wait() {
    let mut ctx = cold_build_context();
    let mut world = World::empty();
    let warm = ctx.schedule_callgraph_store_warm(true);
    assert!(matches!(world.run(&mut ctx, warm).access, CallgraphStoreAccess::Building));
    assert_eq!(ctx.callgraph_cold_build_spawn_count_for_test(), 1);

    let end = world.query(&mut ctx, true);
    assert!(matches!(end.access, CallgraphStoreAccess::Ready(store) if store == STORE));
    assert_eq!(ctx.callgraph_cold_build_spawn_count_for_test(), 1);
}

#[test]
fn inline_wait_settled_event_clears_superseded_receiver() {
    let mut ctx = cold_build_context();
    let mut world = World::empty();
    world.query(&mut ctx, false);
    let (generation, epoch) = (ctx.callgraph_store_rx_generation(), ctx.callgraph_store_rx_epoch());
    ctx.next_callgraph_persist_epoch();
    let event = world.build(&ctx);
    assert!(matches!(event, CallGraphStoreBuildEvent::Settled));
    let step = ctx.ops_after_wait(generation, epoch, OpsReceived::Event(event));
    assert!(matches!(
        step,
        OpsStep::Answer { access: CallgraphStoreAccess::Building, migrate: false }
    ));
    assert!(
        !ctx.callgraph.receiver.present,
        "inline Settled handling must retire the matching receiver"
    );
    assert!(
        ctx.callgraph.resident.is_none(),
        "Settled must not reopen and install an older persisted store"
    );
}

#[test]
fn inline_ready_without_published_pointer_settles_and_preserves_pending_paths() {
    let mut ctx = cold_build_context();
    let pending = "/project/pending.rs".to_string();
    ctx.add_pending_callgraph_store_paths(vec![pending.clone()]);
    let mut world = World::empty();
    world.query(&mut ctx, false);
    let (generation, epoch) = (ctx.callgraph_store_rx_generation(), ctx.callgraph_store_rx_epoch());
    let event = world.build(&ctx);
    let step = ctx.ops_after_wait(generation, epoch, OpsReceived::Event(event));
    let OpsStep::Reopen { fulfilled_force_token } = step else {
        panic!("a finished build is opened: {step:?}");
    };
    let end =
        ctx.ops_after_reopen(generation, epoch, fulfilled_force_token, Ok(None), &vec![true]);

    assert!(matches!(end.access, CallgraphStoreAccess::Building));
    assert!(
        !ctx.callgraph.receiver.present,
        "inline Ready must settle after the published pointer disappears"
    );
    assert_eq!(
        ctx.take_pending_callgraph_store_paths(&vec![true]),
        vec![pending],
        "inline reopen failure must preserve pending watcher paths"
    );
}

#[test]
fn writer_denied_callgraph_build_is_terminal_not_building() {
    let mut denied_ctx = cold_build_context();
    let mut world = World { granted: false, ..World::empty() };
    let denied_reason = match world.query(&mut denied_ctx, true).access {
        CallgraphStoreAccess::Error(CallGraphStoreError::Unavailable(reason)) => reason,
        other => panic!("a denied root must terminate with an unavailable reason: {other:?}"),
    };
    assert!(denied_reason.contains("could not acquire writer capability"));
    assert!(matches!(
        world.query(&mut denied_ctx, true).access,
        CallgraphStoreAccess::Error(CallGraphStoreError::Unavailable(reason))
            if reason.contains("could not acquire writer capability")
    ));
    assert_eq!(
        denied_ctx.callgraph_cold_build_spawn_count_for_test(),
        1,
        "polling a denied root must not spawn another doomed build"
    );

    let mut writable_ctx = cold_build_context();
    assert!(
        matches!(
            World::empty().query(&mut writable_ctx, true).access,
            CallgraphStoreAccess::Ready(_)
        ),
        "removing the forced denial must change the terminal status"
    );
}

#[test]
fn concurrent_cold_callgraph_store_for_ops_spawns_one_build() {
    let mut ctx = cold_build_context();
    let mut world = World::empty();
    for _ in 0..2 {
        assert!(matches!(
            world.query(&mut ctx, false).access,
            CallgraphStoreAccess::Building | CallgraphStoreAccess::Ready(_)
        ));
    }
    assert_eq!(
        ctx.callgraph_cold_build_spawn_count_for_test(),
        1,
        "concurrent cold callers must share one background build"
    );
    assert!(ctx.callgraph.receiver.present);
}

#[test]
fn a_finished_build_replays_the_paths_that_waited() {
    let mut ctx = cold_build_context();
    ctx.add_pending_callgraph_store_paths(vec![
        "/project/b.rs".to_string(),
        "/foreign/c.rs".to_string(),
        "/project/a.rs".to_string(),
    ]);
    let mut world = World::empty();
    let end = world.query(&mut ctx, true);
    assert!(matches!(end.access, CallgraphStoreAccess::Ready(_)));
    assert_eq!(end.replay, vec!["/project/a.rs".to_string(), "/project/b.rs".to_string()]);
    assert!(end.request_tier2_pull);
    assert!(ctx.pending_callgraph_store_paths().is_empty());
}

#[test]
fn a_lost_route_installs_nothing() {
    let mut ctx = cold_build_context();
    let mut world = World::empty();
    world.query(&mut ctx, false);
    let (generation, epoch) = (ctx.callgraph_store_rx_generation(), ctx.callgraph_store_rx_epoch());
    let event = world.build(&ctx);
    ctx.mark_subc_unbound();
    if let OpsStep::Reopen { fulfilled_force_token } =
        ctx.ops_after_wait(generation, epoch, OpsReceived::Event(event))
    {
        let end = ctx.ops_after_reopen(
            generation,
            epoch,
            fulfilled_force_token,
            Ok(Some(STORE)),
            &vec![],
        );
        assert!(matches!(end.access, CallgraphStoreAccess::Unavailable));
    }
    assert!(ctx.callgraph.resident.is_none());
}

#[test]
fn forced_rebuilds_are_fulfilled_with_every_earlier_one() {
    let mut ctx = cold_build_context();
    let first = ctx.mark_callgraph_store_force_rebuild();
    let second = ctx.mark_callgraph_store_force_rebuild();
    assert!(second > first);
    assert_eq!(ctx.pending_callgraph_store_force_token(), Some(second));
    ctx.fulfill_callgraph_store_force_token(first);
    assert_eq!(ctx.pending_callgraph_store_force_token(), Some(second));
    ctx.fulfill_callgraph_store_force_token(second);
    assert_eq!(ctx.pending_callgraph_store_force_token(), None);
}

#[test]
fn a_requested_rebuild_is_not_answered_with_the_resident_store() {
    let mut ctx = cold_build_context();
    ctx.callgraph.resident = Some(STORE);
    let end = World::empty().query(&mut ctx, false);
    assert!(matches!(end.access, CallgraphStoreAccess::Ready(_)));
    ctx.mark_callgraph_store_force_rebuild();
    let end = World::empty().query(&mut ctx, false);
    assert!(matches!(end.access, CallgraphStoreAccess::Building));
}

#[test]
fn suspensions_answer_until_the_generation_changes() {
    let mut ctx = cold_build_context();
    let suspension = BuildSuspension {
        domain: "callgraph".to_string(),
        reason: "crashed".to_string(),
        death_count: 3,
    };
    ctx.record_callgraph_store_build_suspension(ctx.configure_generation(), suspension);
    let end = World::empty().query(&mut ctx, true);
    assert!(matches!(
        end.access,
        CallgraphStoreAccess::Suspended(found) if found.death_count == 3
    ));
    ctx.advance_configure_generation();
    let end = World::empty().query(&mut ctx, true);
    assert!(matches!(end.access, CallgraphStoreAccess::Ready(_)));
}

#[test]
fn read_only_roots_open_but_never_build() {
    let mut ctx = cold_build_context();
    ctx.set_cache_writer_capabilities(false, true);
    let end = World::empty().query(&mut ctx, true);
    assert!(matches!(end.access, CallgraphStoreAccess::Unavailable));
    assert_eq!(ctx.callgraph_cold_build_spawn_count_for_test(), 0);
    let end = World { published: Some(STORE), ..World::empty() }.query(&mut ctx, true);
    assert!(matches!(end.access, CallgraphStoreAccess::Ready(store) if store == STORE));
}

#[test]
fn changed_paths_wait_where_they_cannot_be_written() {
    let mut ctx = cold_build_context();
    let path = vec!["/project/a.rs".to_string()];
    assert!(matches!(
        ctx.enqueue_callgraph_store_refresh(path.clone()),
        RefreshAdmission::Enqueue { .. }
    ));
    ctx.set_cache_writer_capabilities(false, true);
    assert!(matches!(
        ctx.enqueue_callgraph_store_refresh(path.clone()),
        RefreshAdmission::Done(_)
    ));
    assert_eq!(ctx.pending_callgraph_store_paths(), path);
}

#[test]
fn delivered_build_counts_until_its_receiver_is_retired() {
    let mut ctx = cold_build_context();
    ctx.set_cache_writer_capabilities(true, true);
    assert!(!ctx.callgraph_store_rx_is_current(0, 0));
    let ticket = ctx
        .spawn_callgraph_store_cold_build(CallgraphBackgroundWork::Ensure, true)
        .expect("the build is admitted");
    assert!(ctx.callgraph_store_rx_is_current(ticket.generation, ticket.receiver_epoch));
    assert!(!ctx.callgraph_store_rx_is_current(ticket.generation, ticket.receiver_epoch + 1));
    ctx.retire_callgraph_store_rx();
    assert!(!ctx.callgraph_store_rx_is_current(ticket.generation, ticket.receiver_epoch));
}

#[test]
fn without_a_root_there_is_no_store_and_paths_wait() {
    let mut ctx = AppContext::new(Config::default(), Platform::Unix);
    assert!(!ctx.callgraph_root_known());
    assert!(matches!(
        ctx.ensure_callgraph_store(true),
        EnsureStep::Done { store: None, migrate: false }
    ));
    ctx.config.callgraph_store = true;
    let path = vec!["/project/a.rs".to_string()];
    assert!(matches!(
        ctx.enqueue_callgraph_store_refresh(path.clone()),
        RefreshAdmission::Done(false)
    ));
    assert_eq!(ctx.pending_callgraph_store_paths(), path);
    ctx.set_canonical_cache_root("/project".to_string());
    assert!(ctx.callgraph_root_known());
}

#[test]
fn the_end_of_migrations_is_logged_once() {
    let mut ctx = cold_build_context();
    assert!(!ctx.legacy_migration_summary_due(false));
    assert!(ctx.legacy_migration_summary_due(true));
    assert!(!ctx.legacy_migration_summary_due(true));
}

#[test]
fn configured_keys_are_those_of_every_session_and_the_current_root() {
    let mut ctx = cold_build_context();
    let mut sessions = SessionBindings::new(Platform::Unix);
    sessions.note_configure_session_binding("/b".to_string(), "s1".to_string());
    sessions.note_configure_session_binding("/a/".to_string(), "s1".to_string());
    sessions.note_configure_session_binding("/b".to_string(), "s2".to_string());
    ctx.memoized_artifact_cache_key("/a", "known".to_string());
    let roots = sessions.configured_roots("/project");
    assert_eq!(roots.to_list(), vec!["/a/", "/b", "/project"]);
    let derived = ["x", "same", "same"].iter().map(|key| key.to_string()).collect();
    let keys = ctx.configured_callgraph_keys(&roots, &derived);
    assert!(keys.contains("known") && keys.contains("same") && !keys.contains("x"));
    assert_eq!(ctx.cached_artifact_cache_key("/b//").as_deref(), Some("same"));
    assert_eq!(ctx.artifact_cache_key_derivations, 3);
}
