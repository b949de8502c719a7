use aft::config::{Config, Platform};
use aft::context::AppContext;
use aft::status_bar::{DiagnosticsReading, StatusBarCounts};

fn ctx() -> AppContext {
    AppContext::new(Config::default(), Platform::Unix)
}

fn no_reports() -> DiagnosticsReading {
    DiagnosticsReading {
        generation: 0,
        tsconfig_generation: 0,
        errors: 0,
        warnings: 0,
        provisional: false,
        has_reports: false,
    }
}

fn reports(generation: u64, errors: usize, warnings: usize) -> DiagnosticsReading {
    DiagnosticsReading {
        generation,
        tsconfig_generation: 0,
        errors,
        warnings,
        provisional: false,
        has_reports: true,
    }
}

#[test]
fn truthful_values_omit_unproven_categories_while_legacy_projection_stays_hidden() {
    let mut ctx = ctx();
    let values = ctx.status_bar_count_values(no_reports());
    assert_eq!(values.errors, None);
    assert_eq!(values.warnings, None);
    assert_eq!(values.dead_code, None);
    assert_eq!(values.unused_exports, None);
    assert_eq!(values.duplicates, None);
    assert_eq!(values.todos, None);
    assert!(ctx.status_bar_counts(no_reports()).is_none());

    ctx.update_status_bar_tier2(Some(5), Some(3), Some(7), Some(2), false);
    let values = ctx.status_bar_count_values(no_reports());
    assert_eq!(values.dead_code, Some(5));
    assert_eq!(values.unused_exports, Some(3));
    assert_eq!(values.duplicates, Some(7));
    assert_eq!(values.todos, Some(2));
    assert_eq!(values.errors, None, "no analyzer report is not a clean E0");
    assert_eq!(values.warnings, None, "no analyzer report is not a clean W0");
    assert!(!values.tier2_stale);

    let legacy = ctx.status_bar_counts(no_reports()).expect("legacy projection is populated");
    assert_eq!((legacy.errors, legacy.warnings), (0, 0));
}

#[test]
fn changing_root_clears_project_scoped_status_counts() {
    let mut ctx = ctx();
    ctx.set_canonical_cache_root("/tmp/first".to_string());
    ctx.update_status_bar_tier2(Some(5), Some(3), Some(7), Some(2), false);
    assert!(ctx.status_bar_counts(no_reports()).is_some());

    ctx.set_canonical_cache_root("/tmp/second".to_string());

    let values = ctx.status_bar_count_values(no_reports());
    assert_eq!(values.dead_code, None);
    assert_eq!(values.unused_exports, None);
    assert_eq!(values.duplicates, None);
    assert!(
        ctx.status_bar_counts(no_reports()).is_none(),
        "counts from the previous root must not appear in a newly bound root"
    );
}

#[test]
fn partial_tier2_keeps_proven_categories_and_cache_hit_preserves_omissions() {
    let mut ctx = ctx();
    ctx.update_status_bar_tier2(Some(5), None, None, None, true);

    let first = ctx.status_bar_count_values(no_reports());
    assert_eq!(first.dead_code, Some(5));
    assert_eq!(first.unused_exports, None);
    assert_eq!(first.duplicates, None);
    assert_eq!(first.todos, None);
    assert!(first.tier2_stale);
    assert!(ctx.status_bar_counts(no_reports()).is_none());

    let cached = ctx.status_bar_count_values(no_reports());
    assert_eq!(cached, first, "a cache hit must preserve every omission");
    assert_eq!(ctx.status_bar.cached.expect("cache is valid").counts, first);
    assert_eq!(ctx.status_bar.cached_values(0, 0), Some(first));

    ctx.update_status_bar_tier2(None, Some(3), None, None, true);
    let partial = ctx.status_bar_count_values(no_reports());
    assert_eq!(partial.dead_code, Some(5));
    assert_eq!(partial.unused_exports, Some(3));
    assert_eq!(partial.duplicates, None);

    ctx.update_status_bar_tier2(None, None, Some(7), None, false);
    let complete = ctx.status_bar_count_values(no_reports());
    assert_eq!(complete.dead_code, Some(5));
    assert_eq!(complete.unused_exports, Some(3));
    assert_eq!(complete.duplicates, Some(7));
}

#[test]
fn update_with_none_todos_preserves_last_known_todos() {
    let mut ctx = ctx();
    ctx.update_status_bar_tier2(Some(1), Some(1), Some(1), Some(9), false);
    ctx.update_status_bar_tier2(Some(2), Some(2), Some(2), None, false);
    let counts = ctx.status_bar_count_values(no_reports());
    assert_eq!(counts.todos, Some(9));
    assert_eq!(counts.dead_code, Some(2));
}

#[test]
fn update_with_none_count_preserves_last_known_count() {
    let mut ctx = ctx();
    ctx.update_status_bar_tier2(Some(10), Some(20), Some(30), None, false);
    ctx.update_status_bar_tier2(Some(11), None, None, None, false);
    let counts = ctx.status_bar_count_values(no_reports());
    assert_eq!(counts.dead_code, Some(11));
    assert_eq!(counts.unused_exports, Some(20));
    assert_eq!(counts.duplicates, Some(30));
}

#[test]
fn mark_stale_sets_flag_after_any_proven_category() {
    let mut ctx = ctx();
    ctx.mark_status_bar_tier2_stale();
    assert!(!ctx.status_bar_count_values(no_reports()).tier2_stale);

    ctx.update_status_bar_tier2(Some(4), None, None, None, false);
    ctx.mark_status_bar_tier2_stale();
    assert!(ctx.status_bar_count_values(no_reports()).tier2_stale);

    ctx.update_status_bar_tier2(Some(4), None, None, None, false);
    assert!(!ctx.status_bar_count_values(no_reports()).tier2_stale);
}

#[test]
fn clearing_diagnostics_for_deleted_file_drops_status_bar_errors() {
    let mut ctx = ctx();
    ctx.update_status_bar_tier2(Some(0), Some(0), Some(0), Some(0), false);
    assert_eq!(ctx.status_bar_counts(reports(1, 1, 0)).expect("populated").errors, 1);
    assert_eq!(ctx.status_bar_counts(reports(2, 0, 0)).expect("populated").errors, 0);
}

#[test]
fn status_bar_preserves_authoritative_counts_until_provisional_report_is_promoted() {
    let mut ctx = ctx();
    ctx.update_status_bar_tier2(Some(0), Some(0), Some(0), Some(0), false);

    let counts = ctx.status_bar_counts(reports(1, 1, 0)).expect("populated");
    assert_eq!((counts.errors, counts.warnings), (1, 0));

    let warming = DiagnosticsReading { provisional: true, ..reports(2, 0, 1) };
    let counts = ctx.status_bar_counts(warming).expect("populated");
    assert_eq!(
        (counts.errors, counts.warnings),
        (1, 0),
        "pre-quiescence diagnostics must not replace authoritative counts"
    );

    let counts = ctx.status_bar_counts(reports(3, 0, 1)).expect("populated");
    assert_eq!(
        (counts.errors, counts.warnings),
        (0, 1),
        "the latest report becomes authoritative at quiescence"
    );
}

#[test]
fn equal_counts_are_emitted_once() {
    let mut ctx = ctx();
    let counts = StatusBarCounts {
        errors: 1,
        warnings: 0,
        dead_code: 0,
        unused_exports: 0,
        duplicates: 0,
        todos: 0,
        tier2_stale: false,
    };
    assert!(ctx.should_emit_status_bar(&counts));
    assert!(!ctx.should_emit_status_bar(&counts));
    assert!(ctx.should_emit_status_bar(&StatusBarCounts { errors: 2, ..counts }));
}
