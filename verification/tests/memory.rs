use aft::config::Platform;
use aft::json::{parse_document, Json};
use aft::memory::{
    allocator_backend_name, allocator_memory_snapshot, allocator_relief_coverage,
    allocator_slack_relief_due, allocator_slack_scan_due, allocator_snapshot_from_document,
    allocator_snapshot_from_statistics, estimated_json_bytes, judge_pressure_relief,
    nonnegative_i64_to_u64, path_bytes, rss_from_statm, signed_difference, usize_to_u64,
    AllocatorMemorySnapshot, MemoryEstimate, MemoryRollupSnapshot, MemorySnapshot,
    NativePlatform, ProcessMeasurements, ProcessMemorySnapshot, RootMemorySnapshot,
    SqliteMemorySnapshot, ALLOCATOR_SLACK_RELIEF_THRESHOLD_BYTES,
    ALLOCATOR_SLACK_SCAN_MIN_INTERVAL, MEMORY_SNAPSHOT_ROOT_DETAIL_CAP,
};
use aft::text_map::TextMap;

fn estimate(bytes: u64) -> MemoryEstimate {
    MemoryEstimate::estimated(bytes)
}

fn root_with_bytes(bytes: u64) -> RootMemorySnapshot {
    RootMemorySnapshot::new(
        estimate(bytes),
        estimate(0),
        estimate(0),
        estimate(0),
        estimate(0),
        estimate(0),
        estimate(0),
        estimate(0),
        estimate(0),
    )
}

fn measured() -> ProcessMeasurements {
    ProcessMeasurements {
        rss_bytes: Some(100),
        phys_footprint_bytes: None,
        sqlite: SqliteMemorySnapshot::from_counters(11, 13),
        allocator: AllocatorMemorySnapshot::measured(30, 50),
    }
}

#[test]
fn detail_map_capped_but_totals_cover_all_roots() {
    let mut roots = TextMap::new();
    for i in 0..(MEMORY_SNAPSHOT_ROOT_DETAIL_CAP + 4) {
        // Distinct sizes so the kept set is deterministic: later roots larger.
        roots.put(format!("/root/{i:02}"), root_with_bytes((i as u64 + 1) * 1000));
    }
    let snapshot = MemorySnapshot::new("ready", roots, estimate(0), measured());

    assert_eq!(snapshot.roots.len(), MEMORY_SNAPSHOT_ROOT_DETAIL_CAP);
    assert_eq!(snapshot.roots_total, MEMORY_SNAPSHOT_ROOT_DETAIL_CAP + 4);
    assert_eq!(snapshot.roots_omitted, 4);
    // The four smallest (1000..=4000) are the omitted ones.
    assert_eq!(snapshot.roots_omitted_bytes, 1000 + 2000 + 3000 + 4000);
    // Largest roots are the ones kept.
    assert!(snapshot
        .roots
        .entries
        .iter()
        .all(|(_, root)| root.attributed_bytes > 4000));
    // Process totals include omitted roots' bytes.
    let expected_total: u64 = (1..=(MEMORY_SNAPSHOT_ROOT_DETAIL_CAP as u64 + 4))
        .map(|i| i * 1000)
        .sum();
    assert!(snapshot.process.total_attributed_bytes >= expected_total);
}

#[test]
fn rollup_cap_keeps_only_top_roots_while_totals_cover_all() {
    let mut roots = TextMap::new();
    for i in 0..(MEMORY_SNAPSHOT_ROOT_DETAIL_CAP + 4) {
        roots.put(
            format!("/rollup/{i:02}"),
            root_with_bytes((i as u64 + 1) * 1000).rollup(),
        );
    }
    let snapshot = MemoryRollupSnapshot::new("ready", roots, &estimate(0), measured());

    assert_eq!(snapshot.roots.len(), MEMORY_SNAPSHOT_ROOT_DETAIL_CAP);
    assert_eq!(snapshot.roots_total, MEMORY_SNAPSHOT_ROOT_DETAIL_CAP + 4);
    assert_eq!(snapshot.roots_omitted, 4);
    assert_eq!(snapshot.roots_omitted_bytes, 1000 + 2000 + 3000 + 4000);
    let expected_total: u64 = (1..=(MEMORY_SNAPSHOT_ROOT_DETAIL_CAP as u64 + 4))
        .map(|i| i * 1000)
        .sum();
    assert!(snapshot.process.total_attributed_bytes >= expected_total);
}

#[test]
fn standing_rollup_uses_the_shared_top_eight_cap() {
    let mut roots = TextMap::new();
    for i in 0..=MEMORY_SNAPSHOT_ROOT_DETAIL_CAP {
        let rollup = root_with_bytes((i as u64 + 1) * 1000).rollup();
        roots.put(format!("/root/{i:02}"), rollup);
    }
    roots.put(
        "standing-artifact-key".to_string(),
        root_with_bytes(20_000).rollup().with_standing(),
    );

    let snapshot = MemoryRollupSnapshot::new("ready", roots, &estimate(0), measured());
    assert_eq!(snapshot.roots.len(), MEMORY_SNAPSHOT_ROOT_DETAIL_CAP);
    assert_eq!(snapshot.roots_total, MEMORY_SNAPSHOT_ROOT_DETAIL_CAP + 2);
    assert_eq!(snapshot.roots_omitted, 2);
    assert_eq!(
        snapshot.roots.get("standing-artifact-key").unwrap().standing,
        Some(true),
        "standing memory stays in the ordinary per-root table"
    );
}

#[test]
fn under_cap_keeps_everything_with_zero_omitted() {
    let mut roots = TextMap::new();
    roots.put("/a".to_string(), root_with_bytes(10));
    roots.put("/b".to_string(), root_with_bytes(20));
    let snapshot = MemorySnapshot::new("ready", roots, estimate(0), measured());
    assert_eq!(snapshot.roots.len(), 2);
    assert_eq!(snapshot.roots_total, 2);
    assert_eq!(snapshot.roots_omitted, 0);
    assert_eq!(snapshot.roots_omitted_bytes, 0);
}

#[test]
fn process_snapshot_preserves_negative_residuals() {
    assert_eq!(signed_difference(5, 8), -3);
}

#[test]
fn allocator_backend_is_mimalloc() {
    assert_eq!(allocator_backend_name(), "mimalloc");
}

#[test]
fn allocator_snapshot_uses_mimalloc_statistics() {
    let snapshot = allocator_memory_snapshot();
    assert_eq!(snapshot.status, "measured");
    assert!(snapshot.bytes_in_use.is_some());
    assert!(snapshot.size_allocated.is_some());
    assert!(snapshot.retained_slack_bytes.is_some());
}

#[test]
fn pressure_relief_covers_rust_and_native_allocators() {
    for platform in [NativePlatform::MacOs, NativePlatform::LinuxGnu] {
        let coverage = allocator_relief_coverage(platform);
        assert!(coverage.mimalloc);
        assert!(coverage.platform_allocator);
    }
    let elsewhere = allocator_relief_coverage(NativePlatform::Other);
    assert!(elsewhere.mimalloc);
    assert!(!elsewhere.platform_allocator);
}

#[test]
fn slack_relief_requires_large_measured_slack() {
    let threshold = ALLOCATOR_SLACK_RELIEF_THRESHOLD_BYTES;
    assert!(!allocator_slack_relief_due(None));
    assert!(!allocator_slack_relief_due(Some(threshold - 1)));
    assert!(allocator_slack_relief_due(Some(threshold)));
}

#[test]
fn slack_scan_runs_once_per_interval() {
    let now = 1_000_000_000_000;
    assert!(allocator_slack_scan_due(None, now));
    assert!(!allocator_slack_scan_due(Some(now - 10_000_000_000), now));
    assert!(allocator_slack_scan_due(Some(now - ALLOCATOR_SLACK_SCAN_MIN_INTERVAL), now));
    assert!(!allocator_slack_scan_due(Some(now + 1), now));
}

#[test]
fn json_estimator_scales_with_payload_content() {
    let empty = estimated_json_bytes(&parse_document("{}").unwrap());
    let populated = estimated_json_bytes(&parse_document(r#"{"message": "hello"}"#).unwrap());
    assert_eq!(empty, 0);
    assert!(populated >= 12);
}

#[test]
fn json_estimator_adds_up_keys_and_values() {
    assert_eq!(estimated_json_bytes(&Json::Null), 0);
    assert_eq!(estimated_json_bytes(&Json::Bool(true)), 1);
    assert_eq!(estimated_json_bytes(&Json::Text("né".to_string())), 3);
    let value = parse_document(r#"{"ab": ["cde", true, null]}"#).unwrap();
    assert_eq!(estimated_json_bytes(&value), 2 + 3 + 1);
}

#[test]
fn process_snapshot_exposes_sqlite_and_allocator_sections() {
    let shared = estimate(7);
    let snapshot = ProcessMemorySnapshot::from_roots(&TextMap::new(), &shared, measured());
    assert_eq!(snapshot.sqlite.status, "measured");
    assert!(snapshot.sqlite.memory_highwater_bytes >= snapshot.sqlite.memory_used_bytes);
    assert_eq!(
        snapshot.total_attributed_bytes,
        snapshot.sqlite.memory_used_bytes.saturating_add(7)
    );
    assert!(snapshot.allocator.bytes_in_use.is_some());
    assert!(snapshot.allocator.size_allocated.is_some());
    assert!(snapshot.allocator.retained_slack_bytes.is_some());
}

#[test]
fn allocator_snapshot_reports_measured_slack() {
    let allocator = allocator_memory_snapshot();
    let in_use = allocator.bytes_in_use.expect("allocator bytes in use");
    let allocated = allocator.size_allocated.expect("allocator size allocated");
    assert_eq!(allocator.status, "measured");
    assert_eq!(
        allocator.retained_slack_bytes,
        Some(allocated.saturating_sub(in_use))
    );
}

#[test]
fn process_totals_are_the_sum_of_their_parts() {
    let mut roots = TextMap::new();
    roots.put("/a".to_string(), root_with_bytes(10));
    roots.put("/b".to_string(), root_with_bytes(20));
    let process = ProcessMemorySnapshot::from_roots(&roots, &estimate(7), measured());
    assert_eq!(process.total_attributed_bytes, 10 + 20 + 7 + 11);
    assert_eq!(process.root_count, 2);
    assert_eq!(process.rss_bytes, Some(100));
    assert_eq!(process.unattributed_bytes, Some(100 - 48));
}

#[test]
fn estimates_keep_counts_and_gaps() {
    let estimate = MemoryEstimate::partial(9).count("files", 3).gap("mapped pages");
    assert_eq!(estimate.estimated_bytes, Some(9));
    assert_eq!(estimate.counts.get("files"), Some(&3));
    assert_eq!(estimate.not_estimated, vec!["mapped pages".to_string()]);
    assert_eq!(MemoryEstimate::busy().estimated_bytes, None);
    assert_eq!(MemoryEstimate::not_estimated().estimated_bytes, None);
}

#[test]
fn a_root_counts_its_busy_and_unknown_subsystems() {
    let root = RootMemorySnapshot::new(
        estimate(5),
        MemoryEstimate::busy(),
        MemoryEstimate::not_estimated(),
        estimate(0),
        estimate(0),
        estimate(0),
        estimate(0),
        MemoryEstimate::busy(),
        estimate(1),
    );
    assert_eq!(root.attributed_bytes, 6);
    assert_eq!(root.busy_subsystem_count(), 2);
    let rollup = root.rollup();
    assert_eq!(rollup.attributed_bytes, 6);
    assert_eq!(rollup.busy_subsystems, 2);
    assert_eq!(rollup.standing, None);
    assert_eq!(rollup.not_estimated_subsystems, root.not_estimated_subsystem_count());
}

#[test]
fn allocator_statistics_are_read_or_named_missing() {
    let unavailable = allocator_snapshot_from_statistics(&None);
    assert_eq!(unavailable.not_estimated, Some("mimalloc_statistics_unavailable"));
    let not_text = allocator_snapshot_from_statistics(&Some(None));
    assert_eq!(not_text.not_estimated, Some("mimalloc_statistics_invalid"));
    let not_json = allocator_snapshot_from_statistics(&Some(Some("{".to_string())));
    assert_eq!(not_json.not_estimated, Some("mimalloc_statistics_invalid"));
    let empty = allocator_snapshot_from_document(&parse_document("{}"));
    assert_eq!(empty.not_estimated, Some("mimalloc_statistics_incomplete"));
    let read = allocator_snapshot_from_document(&parse_document(
        r#"{"malloc_requested": {"current": 30}, "committed": {"current": 50}}"#,
    ));
    assert_eq!(read, AllocatorMemorySnapshot::measured(30, 50));
    assert_eq!(read.retained_slack_bytes, Some(20));
}

#[test]
fn relief_reports_the_largest_observed_release() {
    let relief = judge_pressure_relief(
        Some(500),
        AllocatorMemorySnapshot::measured(10, 400),
        120,
        AllocatorMemorySnapshot::measured(10, 300),
        Some(350),
    );
    assert_eq!(relief.bytes_released, 150);
    let grown = judge_pressure_relief(
        Some(350),
        AllocatorMemorySnapshot::measured(10, 300),
        0,
        AllocatorMemorySnapshot::measured(10, 400),
        Some(500),
    );
    assert_eq!(grown.bytes_released, 0);
}

#[test]
fn resident_pages_are_the_second_word_of_statm() {
    assert_eq!(rss_from_statm("100 25 3 1 0 9 0\n", 4096), Some(25 * 4096));
    assert_eq!(rss_from_statm("100", 4096), None);
    assert_eq!(rss_from_statm("100 x", 4096), None);
    assert_eq!(rss_from_statm("100 25", -1), None);
    assert_eq!(rss_from_statm("1 18446744073709551615", 4096), None);
}

#[test]
fn conversions_clamp_at_their_bounds() {
    assert_eq!(usize_to_u64(3), 3);
    assert_eq!(nonnegative_i64_to_u64(-4), 0);
    assert_eq!(nonnegative_i64_to_u64(4), 4);
    assert_eq!(path_bytes(Platform::Unix, "/né"), 4);
    assert_eq!(path_bytes(Platform::Windows, "/né"), 6);
    assert_eq!(path_bytes(Platform::Windows, "\u{1F600}"), 4);
    assert_eq!(signed_difference(u64::MAX, 0), i64::MAX);
    assert_eq!(signed_difference(0, u64::MAX), i64::MIN);
}
