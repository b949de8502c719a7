use aft::config::{Config, Platform};
use aft::config::Harness;
use aft::context::{AppContext, ArtifactOwnerMode, SearchResidency, StoreHandle};
use aft::health::{CallgraphWriteMetrics, HealthProbes, ReadableParts, RootHealthState};

fn readable() -> ReadableParts {
    ReadableParts {
        config: true,
        search_index: true,
        search_receiver: true,
        semantic_status: true,
        semantic_progress: true,
        callgraph_store: true,
        callgraph_receiver: true,
        tier2: true,
    }
}

fn probes(ctx: &AppContext) -> HealthProbes<u32> {
    HealthProbes {
        bound: Some(ctx.lifecycle.is_bound()),
        readable: readable(),
        tier2_builder_busy: Some(false),
        bash: Some(0),
        suspended_domains: Some(vec![]),
    }
}

fn health_search_status(ctx: &AppContext) -> &'static str {
    let probes = probes(ctx);
    ctx.try_health_snapshot(probes, "/tmp/health".to_string(), None)
        .search_index
        .expect("search_index component present")
        .status
}

fn health_tier2_status(ctx: &AppContext) -> &'static str {
    let probes = probes(ctx);
    ctx.try_health_snapshot(probes, "/tmp/health".to_string(), None)
        .tier2
        .expect("tier2 component present")
        .status
}

#[test]
fn health_snapshot_returns_busy_before_locking_artifact_receivers() {
    let ctx = AppContext::new(Config::default(), Platform::Unix);
    let busy = HealthProbes { bound: None, ..probes(&ctx) };
    let snapshot = ctx.try_health_snapshot(busy, "health-root".to_string(), None);
    assert_eq!(snapshot.state, RootHealthState::Busy);
    assert_eq!(snapshot.project_root, "health-root");
    assert!(snapshot.callgraph_store.is_none());
}

#[test]
fn borrow_only_root_with_partial_tier2_aggregates_reports_disabled() {
    let mut ctx = AppContext::new(Config::default(), Platform::Unix);
    ctx.set_artifact_owner(Some(ArtifactOwnerMode::ReadOnly));
    ctx.update_status_bar_tier2(Some(4), None, None, None, true);

    assert_eq!(health_tier2_status(&ctx), "disabled");
}

#[test]
fn worktree_guard_prevents_partial_tier2_from_reporting_building() {
    let mut config = Config::default();
    config.project_root = Some("/tmp/writer-root".to_string());
    let mut ctx = AppContext::new(config, Platform::Unix);
    ctx.set_harness(Harness::Opencode);
    ctx.set_cache_writer_capabilities(true, true);
    ctx.update_status_bar_tier2(Some(4), None, None, None, true);
    assert_eq!(health_tier2_status(&ctx), "building");

    ctx.set_cache_role(true, None);

    assert_eq!(health_tier2_status(&ctx), "disabled");
    assert!(!ctx.callgraph_writer());
}

#[test]
fn write_denied_search_index_reports_ready_not_building() {
    let mut config = Config::default();
    config.search_index = true;
    let mut ctx = AppContext::new(config, Platform::Unix);
    ctx.search.resident =
        Some(SearchResidency { ready: false, build_denied: true, pending_disk_changes: false });

    assert_eq!(
        health_search_status(&ctx),
        "ready",
        "a build-denied index is a terminal settled state and must not report building forever"
    );
}

#[test]
fn in_progress_search_index_still_reports_building() {
    let mut config = Config::default();
    config.search_index = true;
    let mut ctx = AppContext::new(config, Platform::Unix);
    ctx.search.resident =
        Some(SearchResidency { ready: false, build_denied: false, pending_disk_changes: false });

    assert_eq!(health_search_status(&ctx), "building");
}

#[test]
fn tier2_blocked_on_callgraph_reports_ready_not_building() {
    let mut ctx = AppContext::new(Config::default(), Platform::Unix);
    ctx.update_status_bar_tier2(None, Some(3), Some(2), None, false);
    ctx.set_status_bar_tier2_dead_code_blocked_on_callgraph(true);

    assert_eq!(
        health_tier2_status(&ctx),
        "ready",
        "tier2 complete except dead_code-blocked-on-callgraph must not stay building"
    );
}

#[test]
fn health_tier2_and_inspect_builder_state_read_the_same_registry() {
    let mut ctx = AppContext::new(Config::default(), Platform::Unix);
    ctx.update_status_bar_tier2(Some(1), Some(2), Some(3), None, false);

    let in_flight = HealthProbes { tier2_builder_busy: Some(true), ..probes(&ctx) };
    let snapshot = ctx.try_health_snapshot(in_flight, "/tmp/health".to_string(), None);
    assert_eq!(snapshot.tier2.expect("tier2").status, "building");

    assert_eq!(health_tier2_status(&ctx), "ready");
}

#[test]
fn tier2_missing_dead_code_without_callgraph_block_reports_building() {
    let mut ctx = AppContext::new(Config::default(), Platform::Unix);
    ctx.update_status_bar_tier2(None, Some(3), Some(2), None, false);
    ctx.set_status_bar_tier2_dead_code_blocked_on_callgraph(false);

    assert_eq!(health_tier2_status(&ctx), "building");
}

#[test]
fn a_settled_root_is_fully_ready_and_reports_its_writes() {
    let mut ctx = AppContext::new(Config::default(), Platform::Unix);
    ctx.update_status_bar_tier2(Some(1), Some(2), Some(3), None, false);
    ctx.callgraph.resident = Some(StoreHandle { id: 1, legacy_fallback: false });
    let metrics = CallgraphWriteMetrics { commits_60s: 2, pages_or_bytes_written_60s: 9 };
    let probes = probes(&ctx);
    let summary = ctx.try_health_summary(probes);
    assert!(!summary.is_busy());
    assert!(summary.is_fully_ready());
    let snapshot = summary.into_snapshot("/tmp/health".to_string(), Some(metrics));
    assert!(snapshot.is_fully_ready());
    assert_eq!(snapshot.callgraph_commits_60s, Some(2));
    assert_eq!(snapshot.callgraph_pages_or_bytes_written_60s, Some(9));
    assert_eq!(snapshot.callgraph_store.expect("present").status, "ready");
}

#[test]
fn any_unreadable_part_is_busy() {
    let ctx = AppContext::new(Config::default(), Platform::Unix);
    let probes = HealthProbes {
        readable: ReadableParts { callgraph_receiver: false, ..readable() },
        ..probes(&ctx)
    };
    let summary = ctx.try_health_summary(probes);
    assert!(summary.is_busy());
    assert!(!summary.is_fully_ready());
}
