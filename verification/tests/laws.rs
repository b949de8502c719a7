use aft::config::{Config, Harness, Host, Platform};
use aft::config_resolve::{
    resolve_config, resolve_config_for_harness, resolve_config_onto,
    resolve_config_onto_for_harness, resolve_config_onto_with_diagnostics, ConfigTier,
};
use aft::jsonc::strip_jsonc;
use aft::memory::{cap_root_detail, cap_root_rollups, MemoryEstimate, RootMemorySnapshot};
use aft::raw::{
    RawChecker, RawConfigureWarningsDelivery, RawFormatter, RawPythonLsp, RawToolSurface,
    RawValidateOnEdit,
};
use aft::text::trim;
use aft::text_map::TextMap;

const HOST: Host = Host { platform: Platform::Unix, home: None };

fn tier(tier: &str, doc: &str) -> ConfigTier {
    ConfigTier { tier: tier.to_string(), source: String::new(), doc: doc.to_string() }
}

const USER: &str = r#"{
    "restrict_to_project_root": true,
    "sandbox": { "enabled": true, "read_deny": ["/secret"] },
    "inspect": { "diagnostics_timeout_ms": 180000 },
    "semantic": { "model": "m", "timeout_ms": 5000 }
}"#;

const PROJECT: &str = r#"{
    "restrict_to_project_root": false,
    "search_index": true,
    "sandbox": { "enabled": false, "read_deny": ["/more"], "write_allow": ["/w"] },
    "inspect": { "diagnostics_timeout_ms": 10000 },
    "semantic": { "timeout_ms": 900000 }
}"#;

#[test]
fn empty_documents_are_neutral() {
    let alone = resolve_config(&[tier("user", USER)], &HOST);
    for tiers in [
        [tier("user", "{}"), tier("user", USER)],
        [tier("user", USER), tier("user", "{}")],
        [tier("user", USER), tier("project", "{}")],
    ] {
        assert_eq!(resolve_config(&tiers, &HOST), alone);
    }
    assert_eq!(resolve_config(&[], &HOST), resolve_config(&[tier("user", "{}")], &HOST));
}

#[test]
fn unreadable_tiers_have_no_effect() {
    let alone = resolve_config(&[tier("user", USER)], &HOST);
    for broken in ["{", "[]", "3", "", "null"] {
        let tiers = [tier("user", USER), tier("project", broken)];
        assert_eq!(resolve_config(&tiers, &HOST), alone, "{broken}");
    }
}

#[test]
fn resets_are_idempotent_and_inherit_only_process_state() {
    let tiers = [tier("user", USER), tier("project", PROJECT)];
    let mut first = Config::default();
    first.storage_dir = Some("/storage".to_string());
    first.callgraph_store = false;
    let diagnostics = resolve_config_onto_with_diagnostics(&tiers, &HOST, &mut first);
    assert!(!diagnostics.dropped.is_empty());
    assert_eq!(first.storage_dir.as_deref(), Some("/storage"));

    let mut second = Config::default();
    second.storage_dir = Some("/storage".to_string());
    resolve_config_onto(&tiers, &HOST, &mut second);
    assert_eq!(first, second);

    resolve_config_onto(&tiers, &HOST, &mut second);
    assert_eq!(first, second);
}

#[test]
fn user_only_settings_come_out_as_if_the_user_were_alone() {
    let both = resolve_config(&[tier("user", USER), tier("project", PROJECT)], &HOST);
    let alone = resolve_config(&[tier("user", USER)], &HOST);
    assert_eq!(both.config.restrict_to_project_root, alone.config.restrict_to_project_root);
    assert!(both.config.search_index);
    assert!(both.dropped.iter().all(|dropped| dropped.tier == "project"));
}

#[test]
fn a_project_never_weakens_what_the_user_set() {
    let both = resolve_config(&[tier("user", USER), tier("project", PROJECT)], &HOST);
    assert!(both.config.sandbox.enabled);
    assert_eq!(both.config.sandbox.read_deny, vec!["/secret".to_string(), "/more".to_string()]);
    assert!(both.config.sandbox.write_allow.is_empty());
    assert_eq!(both.config.inspect.diagnostics_timeout_ms, 180_000);
}

#[test]
fn budgets_stay_within_their_limits() {
    let both = resolve_config(&[tier("user", USER), tier("project", PROJECT)], &HOST);
    assert_eq!(both.config.semantic.timeout_ms, 120_000);
}

#[test]
fn without_a_harness_no_override_counts() {
    let doc = r#"{ "harnesses": { "pi": { "search_index": true } } }"#;
    let tiers = [tier("user", doc)];
    assert!(!resolve_config(&tiers, &HOST).config.search_index);
    let pi = resolve_config_for_harness(&tiers, Some(&Harness::Pi), &HOST);
    assert!(pi.config.search_index);
    let opencode = resolve_config_for_harness(&tiers, Some(&Harness::Opencode), &HOST);
    assert!(!opencode.config.search_index);
    let mut base = Config::default();
    resolve_config_onto_for_harness(&tiers, &Harness::Pi, &HOST, &mut base);
    assert!(base.search_index);
}

#[test]
fn plain_documents_are_kept() {
    for document in ["{}", "[1, 2]", "\"//\"", "{\"a\": \"/* b */\"}"] {
        assert_eq!(strip_jsonc(document), document);
    }
}

#[test]
fn enumerations_read_what_they_write() {
    for value in [RawValidateOnEdit::Syntax, RawValidateOnEdit::Full] {
        assert_eq!(RawValidateOnEdit::from_name(value.as_str()), Some(value));
    }
    for value in [RawFormatter::Biome, RawFormatter::Rustfmt, RawFormatter::NoTool] {
        assert_eq!(RawFormatter::from_name(value.as_str()), Some(value));
    }
    for value in [RawChecker::Tsc, RawChecker::Cargo, RawChecker::NoTool] {
        assert_eq!(RawChecker::from_name(value.as_str()), Some(value));
    }
    for value in [
        RawConfigureWarningsDelivery::Toast,
        RawConfigureWarningsDelivery::Log,
        RawConfigureWarningsDelivery::Chat,
    ] {
        assert_eq!(RawConfigureWarningsDelivery::from_name(value.as_str()), Some(value));
    }
    for value in [RawToolSurface::Minimal, RawToolSurface::Recommended, RawToolSurface::All] {
        assert_eq!(RawToolSurface::from_name(value.as_str()), Some(value));
    }
    for value in [RawPythonLsp::Pyright, RawPythonLsp::Ty, RawPythonLsp::Auto] {
        assert_eq!(RawPythonLsp::from_name(value.as_str()), Some(value));
    }
    assert_eq!(RawFormatter::NoTool.as_str(), "none");
}

#[test]
fn trimming_twice_is_trimming_once() {
    for text in ["", "  ", " a ", "\u{a0}b\u{3000}", "c"] {
        assert_eq!(trim(&trim(text)), trim(text));
        assert_eq!(trim(text), text.trim());
    }
}

fn root(bytes: u64) -> RootMemorySnapshot {
    let none = || MemoryEstimate::estimated(0);
    RootMemorySnapshot::new(
        MemoryEstimate::estimated(bytes),
        none(),
        none(),
        none(),
        none(),
        none(),
        none(),
        none(),
        none(),
    )
}

#[test]
fn the_heaviest_roots_are_kept_and_ties_go_by_name() {
    let mut roots = TextMap::new();
    for (name, bytes) in [("/a", 5), ("/b", 9), ("/c", 5), ("/d", 1)] {
        roots.put(name.to_string(), root(bytes));
    }
    let (kept, omitted, omitted_bytes) = cap_root_detail(roots, 2);
    let names: Vec<&str> = kept.entries.iter().map(|(name, _)| name.as_str()).collect();
    assert_eq!(names, vec!["/a", "/b"]);
    assert_eq!((omitted, omitted_bytes), (2, 6));
    let kept_bytes: u64 = kept.entries.iter().map(|(_, root)| root.attributed_bytes).sum();
    assert_eq!(kept_bytes + omitted_bytes, 5 + 9 + 5 + 1);

    let mut rollups = TextMap::new();
    rollups.put("/a".to_string(), root(5).rollup());
    let (kept, omitted, omitted_bytes) = cap_root_rollups(rollups, 2);
    assert_eq!((kept.len(), omitted, omitted_bytes), (1, 0, 0));
}
