use aft::config::Platform;
use aft::context::AppContext;
use aft::runtime::{
    automatic_tier2_refresh_categories, callgraph_build_wait_window, status_debounce_loop,
    CategoryFacts, ConfigureMaintenance, ConfigurePhaseTiming, DebounceEvent, DebounceState,
    DebounceStep, FilterRegistryState, SessionBindings, StatusEmitter, WatcherDrainSliceState,
    WatcherSlots, STATUS_DEBOUNCE_MS,
};

/// Runs the loop over timed events and counts what it pushes, at which times.
fn pushes(emitter: &mut StatusEmitter<u32>, signals: &[(u64, u32)], until: u64) -> Vec<(u64, u32)> {
    let mut out = Vec::new();
    let mut state = DebounceState::Idle;
    let mut deadline = None;
    let mut waiting = signals.iter();
    let mut next = waiting.next();
    loop {
        let (event, now) = match (next, deadline) {
            (Some((at, value)), Some(end)) if *at <= end => {
                emitter.signal(*value);
                next = waiting.next();
                (DebounceEvent::Signalled, *at)
            }
            (Some((at, value)), None) => {
                emitter.signal(*value);
                next = waiting.next();
                (DebounceEvent::Signalled, *at)
            }
            (_, Some(end)) if end <= until => (DebounceEvent::TimedOut, end),
            _ => return out,
        };
        let (after, step) = status_debounce_loop(state, event, now);
        state = after;
        match step {
            DebounceStep::Push => {
                deadline = None;
                if let Some(value) = emitter.take() {
                    out.push((now, value));
                }
            }
            DebounceStep::WaitAtMost(ms) => deadline = Some(now + ms),
            DebounceStep::WaitForSignal => deadline = None,
            DebounceStep::Stop => return out,
        }
    }
}

#[test]
fn status_emitter_signal_triggers_push() {
    let mut emitter = StatusEmitter::new();
    let seen = pushes(&mut emitter, &[(0, 1)], STATUS_DEBOUNCE_MS + 500);
    assert_eq!(seen, vec![(STATUS_DEBOUNCE_MS, 1)]);
}

#[test]
fn status_emitter_debounces_burst() {
    let mut emitter = StatusEmitter::new();
    let burst: Vec<(u64, u32)> = (0..10).map(|i| (i as u64, i)).collect();
    let seen = pushes(&mut emitter, &burst, STATUS_DEBOUNCE_MS + 500);
    assert_eq!(seen, vec![(STATUS_DEBOUNCE_MS, 9)]);
}

#[test]
fn status_emitter_separate_windows_separate_pushes() {
    let mut emitter = StatusEmitter::new();
    let seen = pushes(
        &mut emitter,
        &[(0, 1), (STATUS_DEBOUNCE_MS + 500, 2)],
        3 * STATUS_DEBOUNCE_MS,
    );
    assert_eq!(seen, vec![(STATUS_DEBOUNCE_MS, 1), (2 * STATUS_DEBOUNCE_MS + 500, 2)]);
}

#[test]
fn status_emitter_no_signal_no_push() {
    let mut emitter: StatusEmitter<u32> = StatusEmitter::new();
    assert!(pushes(&mut emitter, &[], STATUS_DEBOUNCE_MS + 100).is_empty());
    assert_eq!(emitter.take(), None);
}

#[test]
fn status_emitter_shutdown_cleanly_exits_debounce_thread() {
    for state in [DebounceState::Idle, DebounceState::Collecting(10)] {
        let (_, step) = status_debounce_loop(state, DebounceEvent::Disconnected, 5);
        assert_eq!(step, DebounceStep::Stop);
    }
}

#[test]
fn watcher_runtime_requires_both_thread_and_dispatch_receiver() {
    let mut slots = WatcherSlots::new();
    assert!(!slots.watcher_runtime_active(false));
    assert_eq!(slots.install_watcher_runtime(1), None);
    assert!(slots.watcher_runtime_active(false));

    slots.receiver = false;
    assert!(
        !slots.watcher_runtime_active(false),
        "a thread without its dispatch receiver is not a usable watcher runtime"
    );
    assert_eq!(slots.take_watcher_runtime(), Some(1));
}

#[test]
fn finished_watcher_thread_reports_inactive_and_is_reclaimed_with_invalidation() {
    let mut slots = WatcherSlots::new();
    slots.install_watcher_runtime(1);
    assert!(!slots.watcher_runtime_active(true));
    assert_eq!(slots.take_finished_watcher_runtime(false), None);
    assert_eq!(slots.take_finished_watcher_runtime(true), Some(1));
    assert_eq!(slots.take_finished_watcher_runtime(true), None, "reclaim is one-shot");
}

#[test]
fn a_replaced_watcher_is_handed_back() {
    let mut slots = WatcherSlots::new();
    slots.install_watcher_runtime(1);
    assert_eq!(slots.install_watcher_runtime(2), Some(1));
    assert_eq!(slots.runtime, Some(2));
}

#[test]
fn drains_have_work_until_their_paths_are_applied() {
    let mut slots = WatcherSlots::new();
    slots.install_watcher_runtime(1);
    assert!(!slots.watcher_drain_has_work(Some(false)));
    assert!(slots.watcher_drain_has_work(Some(true)));
    let mut drain = WatcherDrainSliceState::new(1, 1);
    assert!(!drain.has_pending_work());
    drain.pending_paths.push("/a".to_string());
    assert!(drain.has_pending_work());
    slots.drain = Some(drain);
    assert!(slots.watcher_drain_has_work(Some(false)));
    assert_eq!(slots.watcher_drain_pending_path_count(), 1);
    assert_eq!(slots.watcher_drain_path_slice_count(), 0);
}

#[test]
fn maintenance_is_refused_beyond_its_capacity_and_drained_in_order() {
    let mut queue = ConfigureMaintenance::new(2);
    assert!(!queue.configure_tail_has_work(false));
    assert!(queue.configure_tail_has_work(true));
    assert_eq!(queue.enqueue_configure_maintenance(1), Ok(()));
    assert!(queue.configure_maintenance_has_capacity());
    assert_eq!(queue.enqueue_configure_maintenance(2), Ok(()));
    assert!(!queue.configure_maintenance_has_capacity());
    assert_eq!(queue.enqueue_configure_maintenance(3), Err(3));
    assert_eq!(queue.drain_configure_maintenance(), vec![1, 2]);
    assert!(!queue.configure_tail_has_work(false));
}

#[test]
fn sessions_are_bound_to_their_roots() {
    let mut sessions = SessionBindings::new(Platform::Unix);
    assert!(sessions.note_configure_session_binding("/a".to_string(), "s".to_string()));
    assert!(!sessions.note_configure_session_binding("/a".to_string(), "s".to_string()));
    assert!(sessions.has_configure_session_binding("/a", "s"));
    assert!(sessions.has_configure_session_binding("//a/", "s"));
    assert!(!sessions.has_configure_session_binding("/b", "s"));
    assert_eq!(sessions.configured_roots("/b").to_list(), vec!["/a".to_string(), "/b".to_string()]);
    sessions.forget_configure_session_binding("/a", "s");
    assert!(!sessions.has_configure_session_binding("/a", "s"));
}

#[test]
fn phases_are_timed_from_one_configure_to_the_next() {
    let mut timing = ConfigurePhaseTiming::new(0);
    timing.begin_configure_ack_phase("canonicalize", 1_000_000);
    timing.begin_configure_ack_phase("resolve", 4_000_000);
    assert_eq!(timing.completed.len(), 1);
    assert_eq!(timing.completed[0].phase, "canonicalize");
    assert_eq!(timing.completed[0].elapsed, 3_000_000);
    let text = timing.configure_ack_phase_snapshot(9_000_000);
    assert!(text.contains("canonicalize=3ms,"), "{text}");
    assert!(text.contains("resolve=5ms"), "{text}");
    timing.begin_configure_ack_phase("canonicalize", 10_000_000);
    assert!(timing.completed.is_empty());
}

#[test]
fn filters_are_loaded_once() {
    let mut registry = FilterRegistryState::new();
    assert!(registry.needs_load());
    registry.note_rebuilt();
    assert!(!registry.needs_load());
    assert_eq!(registry.rebuilds, 1);
}

#[test]
fn dead_code_is_refreshed_only_with_a_store() {
    let dead_code = CategoryFacts { tier2: true, dead_code: true };
    let duplicates = CategoryFacts { tier2: true, dead_code: false };
    let metrics = CategoryFacts { tier2: false, dead_code: false };
    let all = vec![metrics, dead_code, duplicates];
    assert_eq!(automatic_tier2_refresh_categories(&all, true), vec![dead_code, duplicates]);
    assert_eq!(automatic_tier2_refresh_categories(&all, false), vec![duplicates]);
}

#[test]
fn wait_windows_are_read_or_left_at_their_default() {
    let default = callgraph_build_wait_window(None);
    assert_eq!(callgraph_build_wait_window(Some("250")), 250);
    assert_eq!(callgraph_build_wait_window(Some("0")), 0);
    assert_eq!(callgraph_build_wait_window(Some("soon")), default);
}

#[test]
fn a_busy_watcher_or_server_counts_as_work() {
    let slots = WatcherSlots::new();
    assert!(!slots.watcher_drain_has_work(Some(true)), "there is no receiver");
    assert!(slots.watcher_drain_has_work(None));
    assert!(AppContext::lsp_drain_has_work(None));
    assert!(AppContext::lsp_drain_has_work(Some(true)));
    assert!(!AppContext::lsp_drain_has_work(Some(false)));
}
