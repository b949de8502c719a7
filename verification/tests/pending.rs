use aft::config::{Config, Platform};
use aft::context::AppContext;
use aft::ignore_plan::{nested_ignore_file, walks_into};
use aft::json::{parse_document, Json};
use aft::lsp_params::{
    multi_file_write_paths, parse_file_change_type, post_write_wait, watched_entries_from_params,
    watched_file_events, FileChange, FileFacts, DEFAULT_WAIT_MS, MAX_WAIT_MS,
};
use aft::path_order::sort_paths;
use aft::path_prefix::PathPrefix;
use aft::path_set::PathSet;
use aft::path_text::{is_same_path, join_path, parts_of};
use aft::paths::Part;
use aft::pending::keep_contained;
use aft::semantic_status::{SemanticBuildProgress, SemanticIndexStatus};

fn context() -> AppContext {
    let mut config = Config::default();
    config.project_root = Some("/project".to_string());
    AppContext::new(config, Platform::Unix)
}

fn texts(items: &[&str]) -> Vec<String> {
    items.iter().map(|item| item.to_string()).collect()
}

#[test]
fn taking_and_restoring_loses_nothing() {
    let mut ctx = context();
    ctx.add_pending_search_index_paths(texts(&["/b", "/a"]));
    ctx.add_pending_semantic_index_paths(texts(&["/c"]));
    ctx.add_pending_tier2_paths(texts(&["/d"]));
    ctx.mark_pending_semantic_corpus_refresh();
    let state = ctx.take_pending_reconciliation_state();
    assert!(ctx.take_pending_search_index_paths().is_empty());
    assert!(!ctx.take_pending_semantic_corpus_refresh());
    ctx.add_pending_search_index_paths(texts(&["/e"]));
    ctx.restore_pending_reconciliation_state(state);
    assert_eq!(ctx.take_pending_search_index_paths(), texts(&["/a", "/b", "/e"]));
    assert_eq!(ctx.take_pending_semantic_index_paths(), texts(&["/c"]));
    assert_eq!(ctx.pending_tier2_paths(), texts(&["/d"]));
    assert!(ctx.take_pending_semantic_corpus_refresh());
}

#[test]
fn pending_watcher_path_invalidates_root_verify_memo() {
    let mut ctx = context();
    ctx.set_canonical_cache_root("/project".to_string());
    assert!(ctx.add_pending_search_index_paths(texts(&["/project/changed.rs"])));
    assert!(!ctx.add_pending_search_index_paths(vec![]));
    assert!(ctx.add_pending_semantic_index_paths(texts(&["/project/changed.rs"])));
}

#[test]
fn clearing_may_spare_the_callgraph() {
    let mut ctx = context();
    ctx.add_pending_callgraph_store_paths(texts(&["/a"]));
    ctx.add_pending_search_index_paths(texts(&["/b"]));
    ctx.clear_pending_index_updates_preserving_callgraph();
    assert_eq!(ctx.pending_callgraph_store_paths(), texts(&["/a"]));
    assert!(ctx.take_pending_search_index_paths().is_empty());
    ctx.clear_pending_index_updates();
    assert!(ctx.pending_callgraph_store_paths().is_empty());
}

#[test]
fn paths_are_replayed_below_the_known_roots() {
    let mut ctx = context();
    assert_eq!(ctx.replay_roots(), texts(&["/project"]));
    assert_eq!(ctx.callgraph_project_root(None).as_deref(), Some("/project"));
    assert_eq!(ctx.callgraph_project_root(Some("/private/project")).as_deref(), Some("/private/project"));
    ctx.set_canonical_cache_root("/cache".to_string());
    assert_eq!(ctx.replay_roots(), texts(&["/cache", "/project"]));
    assert_eq!(ctx.callgraph_project_root(Some("/private/project")).as_deref(), Some("/cache"));
}

#[test]
fn writes_wait_for_background_scans() {
    let mut ctx = context();
    ctx.update_status_bar_tier2(Some(1), None, None, None, false);
    let plan = ctx.lsp_post_write("/project/a.rs", &params("{}"));
    assert_eq!(plan.wait_ms, None);
    assert!(plan.watched.is_empty());
    assert_eq!(ctx.pending_tier2_paths(), texts(&["/project/a.rs"]));
    assert!(ctx.status_bar.tier2.stale);
    let plan = ctx.lsp_post_write(
        "/project/a.rs",
        &params(r#"{"multi_file_write_paths": ["/project/b.rs"], "diagnostics": true}"#),
    );
    assert_eq!(plan.wait_ms, Some(DEFAULT_WAIT_MS));
    assert_eq!(plan.watched.len(), 1);
    assert_eq!(ctx.pending_tier2_paths(), texts(&["/project/a.rs", "/project/b.rs"]));
    let plan = ctx.lsp_post_multi_file_write(
        texts(&["/project/c.rs", "/project/d.rs"]),
        &params(r#"{"diagnostics": false, "wait_ms": 7}"#),
    );
    assert_eq!((plan.watched.len(), plan.wait_ms), (2, None));
    ctx.remove_pending_tier2_paths(&texts(&["/project/a.rs", "/project/b.rs"]));
    assert_eq!(ctx.pending_tier2_paths(), texts(&["/project/c.rs", "/project/d.rs"]));
}

#[test]
fn only_contained_paths_are_kept() {
    let kept = keep_contained(texts(&["/a", "/b", "/c"]), &vec![true, false]);
    assert_eq!(kept, texts(&["/a"]));
}

#[test]
fn path_sets_hold_each_path_once_in_path_order() {
    let mut set = PathSet::new();
    assert!(set.insert(Platform::Unix, "/a/b".to_string()));
    assert!(set.insert(Platform::Unix, "/a-b".to_string()));
    assert!(!set.insert(Platform::Unix, "/a/b".to_string()));
    set.extend(Platform::Unix, texts(&["/a", "/z"]));
    // Components are compared, so what lies below `/a` comes before its siblings.
    assert_eq!(set.to_list(), texts(&["/a", "/a/b", "/a-b", "/z"]));
    set.remove(Platform::Unix, "/a/b");
    set.remove_all(Platform::Unix, &texts(&["/z"]));
    assert!(!set.contains(Platform::Unix, "/a/b"));
    assert_eq!(set.take_all(), texts(&["/a", "/a-b"]));
    assert!(set.is_empty());
}

#[test]
fn sorted_paths_follow_their_components() {
    let mut paths = texts(&["/b", "/a-b", "/a/c", "/a"]);
    sort_paths(Platform::Unix, &mut paths);
    assert_eq!(paths, texts(&["/a", "/a/c", "/a-b", "/b"]));
}

#[test]
fn a_newer_edit_survives_the_completion_of_an_older_one() {
    let mut status = SemanticIndexStatus::ready(Platform::Unix);
    status.add_refreshing_file("/a".to_string());
    status.start_refreshing_file("/a".to_string());
    status.add_refreshing_file("/a".to_string());
    assert_eq!(status.refreshing_count(), 1);
    status.complete_refreshing_file("/a");
    assert_eq!(status.refreshing_count(), 1, "the second edit is still pending");
    status.start_refreshing_file("/a".to_string());
    status.complete_refreshing_file("/a");
    assert_eq!(status.refreshing_count(), 0);
}

#[test]
fn only_a_ready_index_accounts_for_files() {
    let mut status = SemanticIndexStatus::Failed("no backend".to_string());
    status.add_refreshing_file("/a".to_string());
    assert_eq!(status.refreshing_count(), 0);
    assert!(status.take_refreshing_files().is_empty());
    assert!(!status.corpus_refresh_in_flight());
}

#[test]
fn progress_stays_within_its_total() {
    let mut progress = SemanticBuildProgress::new();
    progress.report(5, 10, 4);
    let snapshot = progress.snapshot();
    assert_eq!((snapshot.embedded_chunks, snapshot.total_chunks), (5, 10));
    assert_eq!((snapshot.current_batch, snapshot.total_batches), (2, 3));
    progress.report(11, 10, 4);
    assert!(progress.snapshot().embedded_chunks <= 10);
}

fn params(text: &str) -> Json {
    parse_document(text).expect("test document parses")
}

#[test]
fn file_changes_are_named_in_three_spellings() {
    assert_eq!(parse_file_change_type("created"), Some(FileChange::Created));
    assert_eq!(parse_file_change_type("CHANGED"), Some(FileChange::Changed));
    assert_eq!(parse_file_change_type("Deleted"), Some(FileChange::Deleted));
    assert_eq!(parse_file_change_type("cREATED"), None);
}

#[test]
fn written_paths_are_texts_or_entries() {
    let plain = params(r#"{"multi_file_write_paths": ["/a", 3, "/b"]}"#);
    assert_eq!(multi_file_write_paths(&plain), Some(texts(&["/a", "/b"])));
    assert_eq!(multi_file_write_paths(&params(r#"{"multi_file_write_paths": []}"#)), None);
    assert_eq!(multi_file_write_paths(&params("{}")), None);
    let entries = watched_entries_from_params(&params(
        r#"{"multi_file_write_paths": [{"path": "/a", "type": "deleted"}, {"path": "/b"}, {}]}"#,
    ));
    assert_eq!(entries.len(), 2);
    assert_eq!(entries[0].change, Some(FileChange::Deleted));
    assert_eq!(entries[1].change, None);
}

#[test]
fn only_configuration_files_become_events() {
    let entries = watched_entries_from_params(&params(
        r#"{"multi_file_write_paths": [{"path": "/a"}, {"path": "/b"}, {"path": "/c"}]}"#,
    ));
    let events = watched_file_events(
        entries,
        &vec![
            FileFacts { is_config: true, exists: true },
            FileFacts { is_config: false, exists: true },
            FileFacts { is_config: true, exists: false },
        ],
    );
    assert_eq!(
        events,
        vec![
            ("/a".to_string(), FileChange::Changed),
            ("/c".to_string(), FileChange::Deleted),
        ]
    );
}

#[test]
fn waits_for_diagnostics_are_capped() {
    assert_eq!(post_write_wait(&params("{}")), None);
    assert_eq!(post_write_wait(&params(r#"{"diagnostics": true}"#)), Some(DEFAULT_WAIT_MS));
    assert_eq!(post_write_wait(&params(r#"{"diagnostics": true, "wait_ms": 5}"#)), Some(5));
    assert_eq!(
        post_write_wait(&params(r#"{"diagnostics": true, "wait_ms": 999999}"#)),
        Some(MAX_WAIT_MS)
    );
}

#[test]
fn rebuild_gitignore_returns_none_without_project_root() {
    let ctx = AppContext::new(Config::default(), Platform::Unix);
    assert!(ctx.rebuild_gitignore(None, None).is_none());
}

#[test]
fn rebuild_gitignore_returns_none_for_project_with_no_gitignore() {
    let mut ctx = context();
    let files = ctx.rebuild_gitignore(Some("/project"), None).expect("a root is configured");
    assert_eq!(
        files,
        texts(&["/project/.gitignore", "/project/.aftignore", "/project/.git/info/exclude"])
    );
    // None of them exists, so no pattern was read and no matcher is kept.
    assert!(!ctx.set_gitignore(None));
    assert!(!ctx.set_gitignore(Some(0)));
    assert!(ctx.set_gitignore(Some(2)));
}

#[test]
fn gitignore_loads_info_exclude_when_present() {
    let mut ctx = context();
    ctx.set_cache_role(true, Some("/main/.git".to_string()));
    let files = ctx
        .rebuild_gitignore(Some("/canonical"), Some("/home/u/.gitignore"))
        .expect("a root is configured");
    assert_eq!(
        files,
        texts(&[
            "/home/u/.gitignore",
            "/canonical/.gitignore",
            "/canonical/.aftignore",
            "/main/.git/info/exclude",
        ])
    );
}

#[test]
fn matcher_picks_up_nested_gitignore() {
    assert!(nested_ignore_file(Platform::Unix, "/p", "/p/sub/.gitignore", ".gitignore"));
    assert!(nested_ignore_file(Platform::Unix, "/p", "/p/sub/.aftignore", ".aftignore"));
    assert!(!nested_ignore_file(Platform::Unix, "/p", "/p/.gitignore", ".gitignore"));
    assert!(!nested_ignore_file(Platform::Unix, "/p", "/p/sub/notes.txt", "notes.txt"));
    assert!(walks_into("src"));
    assert!(!walks_into("node_modules"));
    assert!(!walks_into("target"));
}

#[test]
fn spellings_of_one_path_are_one_path() {
    let mut set = PathSet::new();
    assert!(set.insert(Platform::Unix, "a/b".to_string()));
    assert!(!set.insert(Platform::Unix, "a//b".to_string()));
    assert!(!set.insert(Platform::Unix, "a/./b/".to_string()));
    assert!(set.insert(Platform::Unix, "./a/b".to_string()), "a leading dot is a component");
    assert!(set.insert(Platform::Unix, "../a".to_string()));
    assert!(set.insert(Platform::Unix, "!".to_string()));
    assert!(set.insert(Platform::Unix, "/z".to_string()));
    assert_eq!(set.to_list(), texts(&["/z", "./a/b", "../a", "!", "a/b"]));
    set.remove(Platform::Unix, "a/b/");
    assert!(!set.contains(Platform::Unix, "a//b"));

    let mut status = SemanticIndexStatus::ready(Platform::Unix);
    status.add_refreshing_file("a/b".to_string());
    status.add_refreshing_file("a//b".to_string());
    assert_eq!(status.refreshing_count(), 1);
    status.complete_refreshing_file("a/b/");
    assert_eq!(status.refreshing_count(), 1, "two refreshes were queued");
    status.complete_refreshing_file("a/./b");
    assert_eq!(status.refreshing_count(), 0);
}

#[test]
fn spellings_are_read_as_components() {
    for (given, same) in [
        ("//a///b/", "/a/b"),
        ("/./a/.", "/a"),
        ("./a", "./a/"),
        (".", "./."),
        ("a/../b", "a//../b"),
        ("..a/.b", "..a/./.b"),
    ] {
        assert!(is_same_path(Platform::Unix, given, same), "{given}");
    }
    assert!(!is_same_path(Platform::Unix, "a", "./a"));
    assert!(!is_same_path(Platform::Unix, "a", "/a"));
    assert!(!is_same_path(Platform::Unix, r"a\b", "a/b"), "a backslash is part of a name");
    assert!(!is_same_path(Platform::Unix, "C:/a", "c:/a"));
    assert_eq!(parts_of(Platform::Unix, "").parts, vec![]);
    assert_eq!(parts_of(Platform::Unix, "/").parts, vec![Part::Root]);
}

#[test]
fn windows_spellings_are_read_as_components() {
    for (given, same) in [
        (r"C:\a\b", "c:/a//b/"),
        (r"C:\a\.\b", r"C:\a\b"),
        ("c:a", "C:a/."),
        (r"\\server\share", "//server/share/"),
        (r"\\.\COM42", r"//./COM42\"),
        (r"\\?\c:\a", r"\\?\C:\a\\"),
        (r"\a", "/a"),
    ] {
        assert!(is_same_path(Platform::Windows, given, same), "{given}");
    }
    for (given, other) in [
        (r"C:\a", r"C:\A"),
        (r"C:\a", "C:a"),
        (r"\\?\C:\a", r"C:\a"),
        (r"\\?\C:\a/b", r"\\?\C:\a\b"),
        (r"\\?\C:\a\.", r"\\?\C:\a"),
        ("//?/C:", r"\\?\C:"),
        ("//?/x", r"\\?\x"),
        (r"\\server", r"\\server\share"),
    ] {
        assert!(!is_same_path(Platform::Windows, given, other), "{given}");
    }
    let name = |text: &str| Part::Normal(text.to_string());
    let prefix = |prefix: PathPrefix| Part::Prefix(prefix);
    let text = |text: &str| text.to_string();
    for (given, parts) in [
        ("c:x", vec![prefix(PathPrefix::Disk('C')), name("x")]),
        (r"C:.\x", vec![prefix(PathPrefix::Disk('C')), name("x")]),
        (r"\\?\pics", vec![prefix(PathPrefix::Verbatim(text("pics")))]),
        (
            r"\\?\pics\a/b\.",
            vec![
                prefix(PathPrefix::Verbatim(text("pics"))),
                Part::Root,
                name("a/b"),
                Part::Current,
            ],
        ),
        (r"\\?\d:", vec![prefix(PathPrefix::VerbatimDisk('D'))]),
        (r"\\?\d:x", vec![prefix(PathPrefix::Verbatim(text("d:x")))]),
        (
            r"\\?\UNC\s\h\x",
            vec![
                prefix(PathPrefix::VerbatimUnc(text("s"), text("h"))),
                Part::Root,
                name("x"),
            ],
        ),
        (r"\\?\UNC", vec![prefix(PathPrefix::Verbatim(text("UNC")))]),
        (r"\\.\COM42", vec![prefix(PathPrefix::DeviceNs(text("COM42"))), Part::Root]),
        ("//s/h", vec![prefix(PathPrefix::Unc(text("s"), text("h"))), Part::Root]),
        ("//?/h", vec![prefix(PathPrefix::Unc(text("?"), text("h"))), Part::Root]),
        ("//s", vec![Part::Root, name("s")]),
        (r".\x", vec![Part::Current, name("x")]),
        (r"\..\x", vec![Part::Root, Part::Parent, name("x")]),
    ] {
        assert_eq!(parts_of(Platform::Windows, given).parts, parts, "{given}");
    }
}

#[test]
fn windows_paths_are_ordered_and_collected_by_their_components() {
    let mut paths = texts(&[
        "b", "./b", "/b", "c:/b", "//s/h/b", "//./dev", r"\\?\C:\b", r"\\?\UNC\s\h",
        r"\\?\x", "B:/b", "../b",
    ]);
    sort_paths(Platform::Windows, &mut paths);
    assert_eq!(
        paths,
        texts(&[
            r"\\?\x", r"\\?\UNC\s\h", r"\\?\C:\b", "//./dev", "//s/h/b", "B:/b", "c:/b", "/b",
            "./b", "../b", "b",
        ])
    );
    let mut set = PathSet::new();
    assert!(set.insert(Platform::Windows, "C:/a".to_string()));
    assert!(!set.insert(Platform::Windows, r"c:\a\".to_string()));
    let mut status = SemanticIndexStatus::ready(Platform::Windows);
    status.add_refreshing_file(r"C:\a\b.rs".to_string());
    assert!(!status.is_settled());
    status.complete_refreshing_file("c:/a/b.rs");
    assert!(status.is_settled());
    assert!(!SemanticIndexStatus::Disabled.is_settled());
}

#[test]
fn paths_seen_from_a_verbatim_directory_are_resolved() {
    let join = |base: &str, rest: &str| join_path(Platform::Windows, base, rest);
    assert_eq!(join(r"\\?\C:\a\b", r"..\c/d"), r"\\?\C:\a\c\d");
    assert_eq!(join(r"\\?\C:\a\b", r".\.."), r"\\?\C:\a");
    assert_eq!(join(r"\\?\C:\a", r"..\.."), r"\\?\C:\");
    assert_eq!(join(r"\\?\C:\a", "/x/y"), r"\\?\C:\x\y");
    assert_eq!(join(r"\\?\C:\a/b", "c"), r"\\?\C:\a/b\c");
    assert_eq!(join(r"\\?\C:\a", "D:x"), "D:x");
    assert_eq!(join(r"\\?\C:\a/", ""), r"\\?\C:\a/");
    assert_eq!(join(r"\\?\pics", "x"), r"\\?\pics\x");
    assert_eq!(join(r"\\.\COM42", "x"), r"\\.\COM42\x");
    assert_eq!(join(r"\\s\h", "x"), r"\\s\h\x");
    let parts = |text: &str| parts_of(Platform::Windows, text);
    for (base, rest) in [
        (r"\\?\C:\a\b", r"..\c/d"),
        (r"\\?\C:\a", r"..\.."),
        (r"\\?\C:\a", "/x"),
        (r"\\?\pics", "x"),
        (r"\\?\pics", r"x\.."),
        (r"C:\a", r"\b"),
        ("C:", "b"),
        (r"\\s\h", "./x"),
    ] {
        assert_eq!(parts(base).join(&parts(rest)), parts(&join(base, rest)), "{base} {rest}");
    }
}

#[test]
fn texts_seen_from_a_directory_spell_joined_paths() {
    let parts = |text: &str| parts_of(Platform::Unix, text);
    for base in ["", ".", "/", "/a", "/a/", "a/..", "./b//"] {
        for rest in ["", ".", "./x", "x/./y", "..", "/z", "//z"] {
            let seen = join_path(Platform::Unix, base, rest);
            assert_eq!(parts(base).join(&parts(rest)), parts(&seen), "{base} {rest}");
        }
    }
}
