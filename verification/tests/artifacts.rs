use aft::artifacts::{DrainProbes, EvictionFacts, FlushStep};
use aft::config::{Config, Harness, Platform};
use aft::context::{AppContext, SearchResidency};
use aft::lifecycle::ReceiverTerminalGuard;
use aft::semantic_status::SemanticIndexStatus;

fn context(project_root: Option<&str>) -> AppContext {
    let mut config = Config::default();
    config.project_root = project_root.map(str::to_string);
    AppContext::new(config, Platform::Unix)
}

fn semantic_context() -> AppContext {
    let mut config = Config::default();
    config.project_root = Some("/project".to_string());
    config.semantic_search = true;
    AppContext::new(config, Platform::Unix)
}

fn quiet() -> DrainProbes {
    DrainProbes {
        search_events: Some(false),
        callgraph_events: Some(false),
        semantic_events: Some(false),
        refresh_events: Some(false),
        refresh_worker_finished: Some(false),
        inspect_completions: false,
        reuse_completions: 0,
    }
}

fn idle() -> EvictionFacts {
    EvictionFacts { build_in_flight: false, tier2_in_flight: false, running_bash_tasks: 0 }
}

#[test]
fn unbound_artifact_cancellation_clears_semantic_refresh_state() {
    let mut ctx = semantic_context();
    ctx.semantic.resident = true;
    let mut status = SemanticIndexStatus::ready(Platform::Unix);
    status.add_refreshing_file("/project/changed.rs".to_string());
    ctx.semantic.status = status;
    ctx.install_semantic_refresh_worker_for_build_epoch(ctx.semantic.receiver.epoch);

    ctx.cancel_unbound_artifact_work(0);

    assert!(!ctx.semantic.refresh.receiver.present);
    assert!(matches!(
        &ctx.semantic.status,
        SemanticIndexStatus::Ready { refreshing, .. } if refreshing.is_empty()
    ));
}

#[test]
fn terminal_empty_search_receiver_reports_completion_work() {
    let mut ctx = context(None);
    assert!(!ctx.completion_drains_have_work(quiet()));
    let epoch = ctx.install_search_index_rx(ctx.configure_generation());
    let terminal_guard = ReceiverTerminalGuard::new(epoch);
    assert!(!ctx.completion_drains_have_work(quiet()));
    ctx.search_worker_ended(terminal_guard);

    assert!(
        ctx.completion_drains_have_work(quiet()),
        "an empty disconnected one-shot receiver must wake the completion drain"
    );
}

#[test]
fn conditional_semantic_receiver_retire_preserves_replacement_epoch() {
    let mut ctx = context(None);
    let old_epoch = ctx.install_semantic_index_rx(ctx.configure_generation());
    let replacement_epoch = ctx.install_semantic_index_rx(ctx.configure_generation());

    assert!(replacement_epoch > old_epoch);
    assert_eq!(ctx.retire_semantic_index_rx_if_epoch(old_epoch), None);
    assert!(ctx.semantic.receiver.present);
    assert_eq!(ctx.semantic.receiver.epoch, replacement_epoch);
}

#[test]
fn stale_terminal_guard_cannot_hide_newer_finished_receiver() {
    let mut ctx = context(None);
    let old_epoch = ctx.install_search_index_rx(ctx.configure_generation());
    let old_guard = ReceiverTerminalGuard::new(old_epoch);
    let current_epoch = ctx.install_search_index_rx(ctx.configure_generation());
    let current_guard = ReceiverTerminalGuard::new(current_epoch);

    ctx.search_worker_ended(current_guard);
    ctx.search_worker_ended(old_guard);

    assert!(current_epoch > old_epoch);
    assert_eq!(
        ctx.search.terminal_epoch, current_epoch,
        "a stale worker must not move the terminal watermark backward"
    );
    assert!(ctx.completion_drains_have_work(quiet()));
}

#[test]
fn finished_semantic_refresh_worker_reports_completion_work() {
    let mut ctx = context(None);
    ctx.install_semantic_refresh_worker_for_build_epoch(ctx.semantic.receiver.epoch);
    assert!(!ctx.completion_drains_have_work(quiet()));
    let finished = DrainProbes { refresh_worker_finished: Some(true), ..quiet() };
    assert!(
        ctx.completion_drains_have_work(finished),
        "a finished refresh worker must wake the completion drain after its event queue empties"
    );
}

#[test]
fn watcher_gap_invalidation_keeps_semantic_reloadable_and_skips_readonly_force_token() {
    let mut ctx = semantic_context();
    ctx.set_canonical_cache_root("/project".to_string());
    ctx.set_cache_writer_capabilities(false, true);
    ctx.semantic.status = SemanticIndexStatus::ready(Platform::Unix);

    ctx.invalidate_artifacts_after_watcher_gap();

    assert!(
        matches!(ctx.semantic.status, SemanticIndexStatus::Ready { .. }),
        "semantic-enabled root must stay reloadable (Disabled has no self-healing path)"
    );
    assert_eq!(
        ctx.pending_callgraph_store_force_token(),
        None,
        "read-only root must not be stuck behind an unfulfillable force token"
    );
}

#[test]
fn watcher_gap_invalidation_marks_force_rebuild_for_writer_roots() {
    let mut ctx = context(Some("/project"));
    ctx.set_canonical_cache_root("/project".to_string());
    ctx.set_cache_writer_capabilities(true, true);

    ctx.invalidate_artifacts_after_watcher_gap();

    assert!(
        ctx.pending_callgraph_store_force_token().is_some(),
        "writer roots must still reconcile the store after the unobserved interval"
    );
    assert!(
        matches!(ctx.semantic.status, SemanticIndexStatus::Disabled),
        "semantic-disabled config maps to Disabled status"
    );
}

#[test]
fn watcher_gap_invalidation_gates_resident_artifacts_and_forces_strict_verify() {
    let mut ctx = context(Some("/project"));
    ctx.search.resident =
        Some(SearchResidency { ready: true, build_denied: false, pending_disk_changes: false });
    ctx.semantic.resident = true;
    ctx.semantic.status = SemanticIndexStatus::ready(Platform::Unix);

    ctx.set_canonical_cache_root("/project".to_string());
    let strict = ctx.invalidate_artifacts_after_watcher_gap();

    assert!(ctx.search.resident.is_none());
    assert!(!ctx.semantic.resident);
    assert!(ctx.pending_callgraph_store_force_token().is_some());
    assert_eq!(strict.as_deref(), Some("/project"));
}

#[test]
fn cancelled_semantic_refresh_transfers_refreshing_files_to_pending() {
    let mut ctx = semantic_context();
    ctx.semantic.resident = true;
    let refreshing_path = "/project/src/lib.rs";
    ctx.semantic.status = SemanticIndexStatus::ready(Platform::Unix);
    ctx.semantic.status.start_refreshing_file(refreshing_path.to_string());
    ctx.install_semantic_refresh_worker_for_build_epoch(ctx.semantic.receiver.epoch);

    ctx.cancel_unbound_artifact_work(0);

    assert_eq!(
        ctx.pending.semantic.to_list(),
        vec![refreshing_path.to_string()],
        "cancelled in-flight refresh files must transfer to the pending set"
    );
    assert!(matches!(
        &ctx.semantic.status,
        SemanticIndexStatus::Ready { refreshing, .. } if refreshing.is_empty()
    ));
}

#[test]
fn unbind_before_corpus_started_preserves_corpus_intent() {
    let mut ctx = semantic_context();
    ctx.semantic.resident = true;
    ctx.semantic.status = SemanticIndexStatus::Building {
        stage: "refreshing_corpus".to_string(),
        files: None,
        entries_done: None,
        entries_total: None,
    };
    ctx.install_semantic_refresh_worker_for_build_epoch(ctx.semantic.receiver.epoch);

    ctx.cancel_unbound_artifact_work(0);

    assert!(
        ctx.pending.corpus_refresh,
        "corpus intent stamped before CorpusStarted must survive the cancellation"
    );
}

#[test]
fn cancelled_search_corpus_refresh_drops_nonready_resident_index() {
    let mut ctx = context(Some("/project"));
    ctx.search.resident =
        Some(SearchResidency { ready: false, build_denied: false, pending_disk_changes: false });
    ctx.install_search_index_rx(ctx.configure_generation());

    ctx.cancel_unbound_artifact_work(0);

    assert!(
        ctx.search.resident.is_none(),
        "a cancelled corpus refresh must drop the non-ready resident so rebind reloads it"
    );
    assert!(!ctx.search.receiver.present);
}

#[test]
fn active_semantic_file_refresh_blocks_idle_eviction_until_completion() {
    let mut ctx = context(Some("/project"));
    ctx.semantic.resident = true;
    let refreshing_path = "/project/src/lib.rs";
    ctx.semantic.status = SemanticIndexStatus::ready(Platform::Unix);
    ctx.semantic.status.start_refreshing_file(refreshing_path.to_string());

    assert!(ctx.artifact_eviction_blocked(idle()));
    assert!(!ctx.evict_idle_artifacts(idle()));
    assert!(ctx.semantic.resident);

    ctx.semantic.status.complete_refreshing_file(refreshing_path);
    assert!(ctx.evict_idle_artifacts(idle()));
    assert!(!ctx.semantic.resident);
}

#[test]
fn running_work_blocks_idle_eviction() {
    let ctx = context(Some("/project"));
    assert!(!ctx.artifact_eviction_blocked(idle()));
    assert!(ctx.artifact_eviction_blocked(EvictionFacts { build_in_flight: true, ..idle() }));
    assert!(ctx.artifact_eviction_blocked(EvictionFacts { tier2_in_flight: true, ..idle() }));
    assert!(ctx.artifact_eviction_blocked(EvictionFacts { running_bash_tasks: 1, ..idle() }));
}

#[test]
fn cleared_semantic_worker_invalidates_orphaned_probe_timer() {
    let mut ctx = context(Some("/project"));
    ctx.install_semantic_refresh_worker_for_build_epoch(ctx.semantic.receiver.epoch);

    let token = ctx.ensure_semantic_refresh_probe_scheduled().expect("first probe is scheduled");
    assert!(ctx.semantic_refresh_probe_is_scheduled());
    assert_eq!(ctx.ensure_semantic_refresh_probe_scheduled(), None);
    ctx.clear_semantic_refresh_worker();
    ctx.semantic_refresh_probe_elapsed(token);

    assert!(!ctx.semantic_refresh_probe_ready());
    assert!(!ctx.semantic_refresh_probe_is_scheduled());
    assert!(!ctx.completion_drains_have_work(quiet()));
}

#[test]
fn elapsed_probes_are_taken_once() {
    let mut ctx = context(None);
    ctx.install_semantic_refresh_worker();
    let token = ctx.ensure_semantic_refresh_probe_scheduled().expect("scheduled");
    ctx.semantic_refresh_probe_elapsed(token);
    assert!(ctx.semantic_refresh_probe_ready());
    assert!(ctx.completion_drains_have_work(quiet()));
    assert!(ctx.take_semantic_refresh_probe_ready());
    assert!(!ctx.take_semantic_refresh_probe_ready());
}

#[test]
fn the_circuit_opens_at_its_threshold_and_closes_after_success() {
    let mut ctx = context(None);
    assert!(!ctx.record_semantic_refresh_transient_failure(3));
    assert!(!ctx.record_semantic_refresh_transient_failure(3));
    assert_eq!(ctx.semantic_refresh_transient_failure_count(), 2);
    assert!(ctx.record_semantic_refresh_transient_failure(3));
    assert!(ctx.semantic_refresh_circuit_is_open());
    ctx.reset_semantic_refresh_circuit_after_success();
    assert!(!ctx.semantic_refresh_circuit_is_open());
    assert_eq!(ctx.semantic_refresh_transient_failure_count(), 0);
}

#[test]
fn lost_search_workers_are_replaced_once_per_generation() {
    let mut ctx = context(None);
    assert!(ctx.allow_search_index_disconnect_reschedule());
    assert!(!ctx.allow_search_index_disconnect_reschedule());
    ctx.advance_configure_generation();
    assert!(ctx.allow_search_index_disconnect_reschedule());
}

#[test]
fn graceful_shutdown_writes_only_a_settled_writer_index() {
    let mut ctx = context(Some("/project"));
    ctx.set_canonical_cache_root("/project".to_string());
    ctx.set_cache_writer_capabilities(true, true);
    ctx.search.resident =
        Some(SearchResidency { ready: true, build_denied: false, pending_disk_changes: true });
    assert_eq!(ctx.flush_search_index_on_graceful_shutdown(false), FlushStep::Write);
    ctx.install_search_index_rx(ctx.configure_generation());
    assert_eq!(ctx.flush_search_index_on_graceful_shutdown(false), FlushStep::AwaitBuild);
    assert_eq!(ctx.flush_search_index_on_graceful_shutdown(true), FlushStep::Skip);
    ctx.retire_search_index_rx();
    ctx.set_cache_writer_capabilities(false, true);
    assert_eq!(ctx.flush_search_index_on_graceful_shutdown(false), FlushStep::Skip);
}

#[test]
fn shutdown_looks_at_a_running_search_build_for_five_seconds() {
    let mut ctx = context(Some("/project"));
    assert_eq!(ctx.search_build_shutdown_pause(0), None);
    ctx.install_search_index_rx(ctx.configure_generation());
    assert_eq!(ctx.search_build_shutdown_pause(0), Some(10_000_000));
    assert_eq!(ctx.search_build_shutdown_pause(4_990_000_000), Some(10_000_000));
    assert_eq!(ctx.search_build_shutdown_pause(4_999_999_999), Some(1));
    assert_eq!(ctx.search_build_shutdown_pause(5_000_000_000), None);
    ctx.retire_search_index_rx();
    assert_eq!(ctx.search_build_shutdown_pause(0), None);
}

#[test]
fn a_decided_refresh_starts_only_for_its_own_configuration() {
    let mut ctx = context(Some("/project"));
    ctx.set_cache_writer_capabilities(true, true);
    let decided = ctx.configure_generation();
    assert!(!ctx.tier2_refresh_starts(decided), "no harness is configured");
    ctx.set_harness(Harness::Opencode);
    assert!(ctx.tier2_refresh_starts(decided));
    ctx.config.inspect.enabled = false;
    assert!(!ctx.tier2_refresh_starts(decided));
    ctx.config.inspect.enabled = true;
    ctx.advance_configure_generation();
    assert!(!ctx.tier2_refresh_starts(decided));
}

#[test]
fn a_busy_slot_counts_as_completion_work() {
    let ctx = context(None);
    assert!(!ctx.completion_drains_have_work(quiet()));
    for busy in [
        DrainProbes { search_events: None, ..quiet() },
        DrainProbes { callgraph_events: None, ..quiet() },
        DrainProbes { semantic_events: None, ..quiet() },
        DrainProbes { refresh_events: None, ..quiet() },
        DrainProbes { refresh_worker_finished: None, ..quiet() },
    ] {
        assert!(ctx.completion_drains_have_work(busy));
    }
}
