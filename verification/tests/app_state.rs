use aft::app_state::{adopt_resident_semantic_index, database_path_key, App, ResidentRoot};
use aft::borrowed_cache::{
    git_entry_signature, BorrowStep, BorrowedArtifactGeneration, BorrowedIndexCache,
    BorrowedIndexCacheKey, BorrowedIndexCacheValue, EntryProbe, GitEntryKind, ReadOnlyArtifact,
    WorktreeBridgeCache, BORROWED_INDEX_CACHE_CAPACITY,
};
use aft::config::Platform;
use aft::memory::{
    AllocatorMemorySnapshot, MemoryEstimate, ProcessMeasurements, SqliteMemorySnapshot,
};
use aft::root_memory::{
    collect_root_snapshots, memory_root_rollup, memory_root_snapshot, memory_snapshot, Probe,
    RootMemoryProbes,
};
use aft::semantic_status::SemanticIndexStatus;
use aft::text_map::TextMap;

#[test]
fn app_contexts_share_one_database_connection() {
    let mut app = App::new(Platform::Unix);
    let key = database_path_key(Platform::Unix, "/storage/aft.db", Some("/storage/aft.db"), None, None, None);
    assert_eq!(app.open_db(&key), None);
    app.install_db(key.clone(), 1);
    assert_eq!(app.open_db(&key), Some(1));
    assert_eq!(app.db(), Some(1));
    assert_eq!(app.open_db("/elsewhere/aft.db"), None);
}

#[test]
fn other_roots_keep_the_database() {
    let mut app = App::new(Platform::Unix);
    app.install_db("/storage/aft.db".to_string(), 1);
    app.clear_db_for_path("/elsewhere/aft.db");
    assert_eq!(app.db(), Some(1));
    app.clear_db_for_path("/storage/aft.db");
    assert_eq!(app.db(), None);
}

#[test]
fn database_keys_fall_back_to_the_directory() {
    let key = database_path_key(
        Platform::Unix,
        "/link/aft.db",
        None,
        Some("/link"),
        Some("/storage"),
        Some("aft.db"),
    );
    assert_eq!(key, "/storage/aft.db");
    assert_eq!(
        database_path_key(Platform::Unix, "/link/aft.db", None, Some("/link"), None, Some("aft.db")),
        "/link/aft.db"
    );
}

#[test]
fn counters_of_the_process_go_up_and_down() {
    let mut app = App::new(Platform::Unix);
    app.watcher_started();
    app.watcher_started();
    app.watcher_stopped();
    assert_eq!(app.watcher_count(), 1);
    app.actor_root_unregistered();
    assert_eq!(app.actor_root_count(), 0);
    app.actor_root_registered();
    assert_eq!(app.actor_root_count(), 1);
    app.set_open_route_count(4);
    assert_eq!(app.open_route_count(), 4);
}

fn resident(root: &str, cache_root: &str, key: &str, settled: bool) -> ResidentRoot {
    ResidentRoot {
        registered_root: root.to_string(),
        cache_root: Some(cache_root.to_string()),
        artifact_cache_key: Some(key.to_string()),
        semantic: if settled {
            SemanticIndexStatus::ready(Platform::Unix)
        } else {
            let mut status = SemanticIndexStatus::ready(Platform::Unix);
            status.add_refreshing_file("/a".to_string());
            status
        },
    }
}

#[test]
fn only_settled_roots_of_the_same_key_lend_their_index() {
    let roots = vec![
        resident("/borrower", "/borrower", "k", true),
        resident("/unsettled", "/unsettled", "k", false),
        resident("/other-key", "/other-key", "x", true),
        resident("/renamed", "/elsewhere", "k", true),
        resident("/lender", "/lender", "k", true),
    ];
    assert_eq!(adopt_resident_semantic_index(Platform::Unix, &roots, "/borrower", "k"), vec![4]);
}

fn key(root: &str, path: &str, generation: u64) -> BorrowedIndexCacheKey {
    BorrowedIndexCacheKey {
        canonical_root: root.to_string(),
        artifact: BorrowedArtifactGeneration { path: path.to_string(), generation },
    }
}

#[test]
fn borrowed_indexes_are_kept_up_to_the_capacity() {
    let mut cache = BorrowedIndexCache::new(Platform::Unix);
    for n in 0..=BORROWED_INDEX_CACHE_CAPACITY {
        cache.insert(
            key(&format!("/r{n}"), "a", 1),
            BorrowedIndexCacheValue::Search(ReadOnlyArtifact::Opened(n as u64)),
        );
    }
    assert_eq!(cache.entries.len(), BORROWED_INDEX_CACHE_CAPACITY);
    assert_eq!(cache.search(&key("/r0", "a", 1)), None);
    assert_eq!(cache.search(&key("/r1", "a", 1)), Some(ReadOnlyArtifact::Opened(1)));
    assert_eq!(cache.semantic(&key("/r1", "a", 1)), None);
    // The entry that was read last outlives the next insertion.
    cache.insert(key("/new", "a", 1), BorrowedIndexCacheValue::Search(ReadOnlyArtifact::Opened(9)));
    assert_eq!(cache.search(&key("/r1", "a", 1)), Some(ReadOnlyArtifact::Opened(1)));
    assert_eq!(cache.search(&key("/r2", "a", 1)), None);
    cache.clear();
    assert!(cache.entries.is_empty());
}

#[test]
fn newer_generations_replace_older_ones() {
    let mut cache = BorrowedIndexCache::new(Platform::Unix);
    let opened = |n| BorrowedIndexCacheValue::Semantic(ReadOnlyArtifact::Opened(n));
    cache.insert(key("/r", "a", 1), opened(1));
    cache.insert(key("/r", "a", 2), opened(2));
    assert_eq!(cache.semantic(&key("/r", "a", 1)), None);
    assert_eq!(cache.semantic(&key("/r", "a", 2)), Some(ReadOnlyArtifact::Opened(2)));
}

#[test]
fn borrowing_opens_what_is_not_cached_and_keeps_only_what_opened() {
    let mut cache = BorrowedIndexCache::new(Platform::Unix);
    let artifact = || Some(BorrowedArtifactGeneration { path: "a".to_string(), generation: 1 });
    assert!(matches!(
        cache.open_borrowed_index("/r".to_string(), None, false),
        BorrowStep::Answer(ReadOnlyArtifact::Absent)
    ));
    let BorrowStep::Open(missed) = cache.open_borrowed_index("/r".to_string(), artifact(), false)
    else {
        panic!("nothing is cached yet");
    };
    assert_eq!(
        cache.keep_opened(missed, ReadOnlyArtifact::Cancelled, false),
        ReadOnlyArtifact::Cancelled
    );
    let BorrowStep::Open(missed) = cache.open_borrowed_index("/r".to_string(), artifact(), false)
    else {
        panic!("a cancelled opening is not kept");
    };
    cache.keep_opened(missed, ReadOnlyArtifact::Opened(3), false);
    assert!(matches!(
        cache.open_borrowed_index("/r".to_string(), artifact(), false),
        BorrowStep::Answer(ReadOnlyArtifact::Opened(3))
    ));
}

#[test]
fn worktree_bridges_are_known_until_git_changes() {
    let mut cache = WorktreeBridgeCache::new(Platform::Unix);
    let file = git_entry_signature(EntryProbe::File, Some(5));
    assert_eq!(cache.cached_worktree_bridge("/r", file), None);
    cache.cache_worktree_bridge("/r".to_string(), file, true, "/main/.git".to_string());
    assert_eq!(
        cache.cached_worktree_bridge("/r", file),
        Some((true, Some("/main/.git".to_string())))
    );
    let touched = git_entry_signature(EntryProbe::File, Some(6));
    assert_eq!(cache.cached_worktree_bridge("/r", touched), None);
    let missing = git_entry_signature(EntryProbe::NotFound, Some(6));
    assert_eq!((missing.kind, missing.modified), (GitEntryKind::Missing, None));
}

#[test]
fn resolved_roots_are_known_until_git_changes() {
    let mut cache = BorrowedIndexCache::new(Platform::Unix);
    let dir = git_entry_signature(EntryProbe::Directory, Some(5));
    cache.remember_resolved_root("/r".to_string(), dir);
    assert_eq!(cache.resolved_root("/r", dir).as_deref(), Some("/r"));
    assert_eq!(cache.resolved_root("//r/", dir).as_deref(), Some("/r"));
    let touched = git_entry_signature(EntryProbe::Directory, Some(6));
    assert_eq!(cache.resolved_root("/r", touched), None);
}

#[test]
fn only_paths_that_are_roots_are_remembered() {
    let mut cache = BorrowedIndexCache::new(Platform::Unix);
    let dir = git_entry_signature(EntryProbe::Directory, Some(5));
    assert_eq!(cache.resolve_external_git_root(None), None);
    assert_eq!(cache.resolve_external_git_root(Some(("/r/src", dir))), None);
    cache.note_external_git_root(Some("/r/src"), "/r".to_string(), dir);
    assert_eq!(cache.resolve_external_git_root(Some(("/r/src", dir))), None);
    assert_eq!(cache.resolve_external_git_root(Some(("/r", dir))), None);
    cache.note_external_git_root(Some("/r"), "/r".to_string(), dir);
    assert_eq!(cache.resolve_external_git_root(Some(("/r", dir))).as_deref(), Some("/r"));
}

fn probes() -> RootMemoryProbes {
    RootMemoryProbes {
        semantic: Probe::Present(MemoryEstimate::estimated(5)),
        trigram: Probe::Absent,
        symbols: None,
        callgraph: Probe::Busy,
        callgraph_projection: MemoryEstimate::estimated(1),
        inspect: MemoryEstimate::estimated(2),
        bash: MemoryEstimate::estimated(0),
        lsp: Some(MemoryEstimate::estimated(3)),
    }
}

fn measured() -> ProcessMeasurements {
    ProcessMeasurements {
        rss_bytes: Some(1000),
        phys_footprint_bytes: None,
        sqlite: SqliteMemorySnapshot::from_counters(10, 20),
        allocator: AllocatorMemorySnapshot::measured(0, 0),
    }
}

#[test]
fn busy_subsystems_are_reported_and_not_counted() {
    let root = memory_root_snapshot(probes());
    assert_eq!(root.attributed_bytes, 5 + 1 + 2 + 3);
    assert_eq!(root.busy_subsystem_count(), 2);
    assert_eq!(root.trigram.counts.get("files"), Some(&0));
    assert_eq!(root.parser_pool.not_estimated, vec!["tree_sitter_parser_bytes".to_string()]);
    assert_eq!(memory_root_rollup(probes()), root.rollup());
}

#[test]
fn a_registered_root_is_not_counted_twice() {
    let mut registered = TextMap::new();
    registered.put("/r".to_string(), memory_root_snapshot(probes()));
    let (status, roots) =
        collect_root_snapshots(Some(registered), "/r".to_string(), memory_root_snapshot(probes()));
    assert_eq!(status, "ready");
    assert_eq!(roots.len(), 1);
    let (status, roots) =
        collect_root_snapshots(None, "/r".to_string(), memory_root_snapshot(probes()));
    assert_eq!(status, "busy");
    assert_eq!(roots.len(), 1);
}

#[test]
fn the_process_adds_up_roots_shared_bases_and_sqlite() {
    let snapshot = memory_snapshot(
        None,
        Some("/r".to_string()),
        memory_root_snapshot(probes()),
        MemoryEstimate::estimated(7),
        measured(),
    );
    assert_eq!(snapshot.process.total_attributed_bytes, 11 + 7 + 10);
    assert_eq!(snapshot.roots_total, 1);
}
