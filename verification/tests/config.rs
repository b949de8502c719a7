use aft::config::{
    expand_index_root_path, normalize_git_co_author, Config, Harness, Host, IndexKind,
    IndexResourcePolicy, Platform, SemanticBackend,
};
use aft::path_text::{is_absolute, join_path};

#[test]
fn memory_defaults_to_unlimited() {
    assert_eq!(Config::default().memory.limit_bytes, None);
}

#[test]
fn config_default_values() {
    let cfg = Config::default();
    assert!(cfg.project_root.is_none());
    assert_eq!(cfg.validation_depth, 1);
    assert_eq!(cfg.checkpoint_ttl_hours, 24);
    assert_eq!(cfg.max_symbol_depth, 10);
    assert_eq!(cfg.formatter_timeout_secs, 10);
    assert_eq!(cfg.type_checker_timeout_secs, 30);
}

fn host(platform: Platform, home: Option<&str>) -> Host {
    Host { platform, home: home.map(str::to_string) }
}

#[test]
fn index_root_path_expands_tilde_before_absolute_validation() {
    let home = "/tmp/aft-home";
    let with_home = host(Platform::Unix, Some(home));
    let homeless = host(Platform::Unix, None);
    assert_eq!(
        expand_index_root_path("~/workspace", &with_home).unwrap(),
        "/tmp/aft-home/workspace"
    );
    assert!(expand_index_root_path("relative/root", &with_home).is_err());
    assert!(expand_index_root_path("~", &homeless).is_err());
    assert_eq!(expand_index_root_path("~", &with_home).unwrap(), home);
    assert_eq!(expand_index_root_path("/srv/code", &homeless).unwrap(), "/srv/code");
    assert!(expand_index_root_path(r"C:\code", &homeless).is_err());
}

#[test]
fn windows_roots_need_a_prefix_and_a_root() {
    let windows = host(Platform::Windows, Some(r"C:\Users\me"));
    for absolute in [
        r"C:\code", "d:/code", r"\\server\share", "//server/share", r"\\?\C:\code", r"\\?\C:",
        r"\\?\pics", r"\\?\UNC\server\share", r"\\.\COM42", r"\\?\",
    ] {
        assert_eq!(expand_index_root_path(absolute, &windows).as_deref(), Ok(absolute));
    }
    for relative in ["C:code", r"\code", "/code", "code", r"\\server", "1:/x", ""] {
        assert!(expand_index_root_path(relative, &windows).is_err(), "{relative}");
    }
    assert_eq!(expand_index_root_path(r"~\code", &windows).unwrap(), r"C:\Users\me\code");
    assert_eq!(expand_index_root_path("~/code", &windows).unwrap(), r"C:\Users\me\code");
    assert_eq!(expand_index_root_path(r"~\\top", &windows).unwrap(), r"C:\top");
    assert_eq!(expand_index_root_path("~/D:/x", &windows).unwrap(), "D:/x");
}

#[test]
fn windows_paths_join_by_their_prefix_and_root() {
    let join = |base: &str, rest: &str| join_path(Platform::Windows, base, rest);
    assert_eq!(join(r"C:\a", "b"), r"C:\a\b");
    assert_eq!(join(r"C:\a\", "b"), r"C:\a\b");
    assert_eq!(join("C:", "b"), "C:b");
    assert_eq!(join("", "b"), "b");
    assert_eq!(join(r"\\server\share\a", r"\b"), r"\\server\share\b");
    assert_eq!(join(r"C:\a", r"\\server\share"), r"\\server\share");
    assert_eq!(join_path(Platform::Unix, "/a", "b"), "/a/b");
    assert!(is_absolute(Platform::Unix, "/a"));
    assert!(!is_absolute(Platform::Windows, "/a"));
}

#[test]
fn joined_paths_keep_one_separator_and_absolute_parts_win() {
    let join = |base: &str, rest: &str| join_path(Platform::Unix, base, rest);
    assert_eq!(join("/a", "b"), "/a/b");
    assert_eq!(join("/a/", "b"), "/a/b");
    assert_eq!(join("/a", "/b"), "/b");
    assert!(is_absolute(Platform::Unix, "/"));
    assert!(!is_absolute(Platform::Unix, "a/b"));
    assert!(!is_absolute(Platform::Unix, ""));
}

#[test]
fn co_authors_are_off_auto_or_an_identity() {
    assert_eq!(normalize_git_co_author("auto").as_deref(), Some("auto"));
    assert_eq!(normalize_git_co_author("off").as_deref(), Some("off"));
    assert_eq!(
        normalize_git_co_author("Pair Agent <pair@example.test>").as_deref(),
        Some("Pair Agent <pair@example.test>")
    );
    assert!(normalize_git_co_author("not-an-identity").is_none());
    assert!(normalize_git_co_author("").is_none());
}

#[test]
fn names_round_trip() {
    for kind in IndexKind::ALL {
        assert_eq!(IndexKind::from_name(kind.as_str()), Some(kind));
    }
    for policy in [IndexResourcePolicy::Balanced, IndexResourcePolicy::Performance] {
        assert_eq!(IndexResourcePolicy::from_name(policy.as_str()), Some(policy));
    }
    for backend in [
        SemanticBackend::Fastembed,
        SemanticBackend::OpenAiCompatible,
        SemanticBackend::Ollama,
        SemanticBackend::Synapse,
    ] {
        assert_eq!(SemanticBackend::from_name(backend.as_str()), Some(backend));
    }
    assert_eq!(IndexKind::from_name("Search"), None);
    assert_eq!(Harness::Opencode.wire_label(), "opencode");
    assert_eq!(Harness::Pi.wire_label(), "pi");
    assert_eq!(Config::default().semantic_backend_label(), "fastembed");
}
