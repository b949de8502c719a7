use aft::config::{
    Config, Harness, Host, IndexKind, IndexResourcePolicy, Platform, SemanticBackend,
    SemanticBackendConfig,
    MAX_INSPECT_DIAGNOSTICS_TIMEOUT_MS, MAX_SEMANTIC_QUERY_TIMEOUT_MS,
    MIN_INSPECT_DIAGNOSTICS_TIMEOUT_MS, MIN_SEMANTIC_QUERY_TIMEOUT_MS,
};
use aft::config_resolve::{
    parse_tier, resolve_bash_config, ConfigTier, ResolveResult,
    FOREGROUND_WAIT_WINDOW_DEFAULT_MS, FOREGROUND_WAIT_WINDOW_MIN_MS,
};
use aft::merge::{DroppedKey, USER_ONLY_REASON};

fn host() -> Host {
    Host { platform: Platform::Unix, home: Some("/home/tester".to_string()) }
}

fn tier(tier: &str, doc: &str) -> ConfigTier {
    ConfigTier {
        tier: tier.to_string(),
        source: format!("/tmp/{tier}/aft.jsonc"),
        doc: doc.to_string(),
    }
}

fn resolve_config(tiers: &[ConfigTier]) -> ResolveResult {
    aft::config_resolve::resolve_config(tiers, &host())
}

fn resolve_config_for_harness(tiers: &[ConfigTier], harness: Option<&Harness>) -> ResolveResult {
    aft::config_resolve::resolve_config_for_harness(tiers, harness, &host())
}

fn resolve_config_onto(tiers: &[ConfigTier], base: &mut Config) -> Vec<DroppedKey> {
    aft::config_resolve::resolve_config_onto(tiers, &host(), base)
}

fn drop_keys(result: &ResolveResult) -> Vec<String> {
    result.dropped.iter().map(|dropped| dropped.key.to_string()).collect()
}

#[test]
fn nested_unknown_keys_are_stripped_but_top_level_privileged_keys_cannot_smuggle() {
    let nested = resolve_config(&[tier(
        "user",
        r#"{ "tool_surface": "minimal", "bash": { "unknown_key": true } }"#,
    )]);
    assert!(nested.config.experimental_bash_rewrite);
    assert!(nested.config.experimental_bash_compress);
    assert!(nested.config.experimental_bash_background);

    let smuggle = resolve_config(&[
        tier("user", r#"{ "search_index": true }"#),
        tier(
            "project",
            r#"{ "storage_dir": "/tmp/evil", "bash_permissions": true, "search_index": false }"#,
        ),
    ]);
    assert!(!smuggle.config.search_index);
    assert!(smuggle.config.storage_dir.is_none());
    assert!(!smuggle.config.bash_permissions);
}

#[test]
fn config_resolve_empty_tiers_applies_bash_surface_default() {
    let result = resolve_config(&[]);
    let default_config = Config::default();

    assert!(result.dropped.is_empty());
    assert_eq!(result.config.format_on_edit, default_config.format_on_edit);
    assert_eq!(result.config.search_index, default_config.search_index);
    assert_eq!(
        result.config.semantic_search,
        default_config.semantic_search
    );
    assert_eq!(result.config.semantic, default_config.semantic);
    assert_eq!(
        result.config.inspect.enabled,
        default_config.inspect.enabled
    );
    assert_eq!(result.config.lsp_servers.len(), 0);
    assert!(result.config.experimental_bash_rewrite);
    assert!(result.config.experimental_bash_compress);
    assert!(result.config.experimental_bash_background);
}

#[test]
fn config_resolve_user_only_config_applies_fields() {
    let result = resolve_config(&[tier(
        "user",
        r#"{
          "$schema": "https://example.test/aft.schema.json",
          "format_on_edit": false,
          "formatter_timeout_secs": 42,
          "type_checker_timeout_secs": 43,
          "validate_on_edit": "full",
          "formatter": { "rust": "rustfmt", "typescript": "prettier" },
          "checker": { "rust": "cargo", "typescript": "tsc" },
          "restrict_to_project_root": true,
          "search_index": true,
          "semantic_search": true,
          "callgraph_store": false,
          "callgraph_chunk_size": 17,
          "url_fetch_allow_private": true,
          "semantic": {
            "backend": "openai_compatible",
            "model": "  user-model  ",
            "base_url": "https://semantic.example.test",
            "api_key_env": "AFT_API_KEY",
            "timeout_ms": 12345,
            "query_timeout_ms": 2345,
            "max_batch_size": 12,
            "max_files": 3456
          },
          "inspect": { "enabled": false, "diagnostics_timeout_ms": 15000 },
          "experimental": { "lsp_ty": true },
          "lsp": {
            "servers": {
              "rust": { "extensions": [".rs"], "binary": "rust-analyzer" }
            },
            "disabled": ["Python"],
            "python": "pyright"
          },
          "bash": { "rewrite": false, "compress": true, "background": false,
                    "long_running_reminder_enabled": false,
                    "long_running_reminder_interval_ms": 123000 }
        }"#,
    )]);

    assert!(result.dropped.is_empty());
    assert!(!result.config.format_on_edit);
    assert_eq!(result.config.formatter_timeout_secs, 42);
    assert_eq!(result.config.type_checker_timeout_secs, 43);
    assert_eq!(result.config.validate_on_edit.as_deref(), Some("full"));
    assert_eq!(
        result.config.formatter.get("rust").map(String::as_str),
        Some("rustfmt")
    );
    assert_eq!(
        result.config.checker.get("typescript").map(String::as_str),
        Some("tsc")
    );
    assert!(result.config.restrict_to_project_root);
    assert!(result.config.search_index);
    assert!(result.config.semantic_search);
    assert!(!result.config.callgraph_store);
    assert_eq!(result.config.callgraph_chunk_size, 17);
    assert!(result.config.url_fetch_allow_private);
    assert_eq!(
        result.config.semantic.backend,
        SemanticBackend::OpenAiCompatible
    );
    assert_eq!(result.config.semantic.model, "user-model");
    assert_eq!(
        result.config.semantic.base_url.as_deref(),
        Some("https://semantic.example.test")
    );
    assert_eq!(
        result.config.semantic.api_key_env.as_deref(),
        Some("AFT_API_KEY")
    );
    assert_eq!(result.config.semantic.timeout_ms, 12345);
    assert_eq!(result.config.semantic.query_timeout_ms, 2345);
    assert_eq!(result.config.semantic.max_batch_size, 12);
    assert_eq!(result.config.semantic.max_files, 3456);
    assert!(!result.config.inspect.enabled);
    assert_eq!(result.config.inspect.diagnostics_timeout_ms, 15_000);
    assert!(!result.config.experimental_lsp_ty);
    assert!(result.config.disabled_lsp.contains("ty"));
    assert_eq!(result.config.lsp_servers.len(), 1);
    assert_eq!(result.config.lsp_servers[0].id, "rust");
    assert_eq!(
        result.config.lsp_servers[0].extensions,
        vec!["rs".to_string()]
    );
    assert_eq!(result.config.lsp_servers[0].binary, "rust-analyzer");
    assert_eq!(result.config.lsp_servers[0].args, Vec::<String>::new());
    assert_eq!(
        result.config.lsp_servers[0].root_markers,
        vec![".git".to_string()]
    );
    assert!(!result.config.experimental_bash_rewrite);
    assert!(result.config.experimental_bash_compress);
    assert!(!result.config.experimental_bash_background);
    assert!(!result.config.bash_long_running_reminder_enabled);
    assert_eq!(result.config.bash_long_running_reminder_interval_ms, 123000);
}

#[test]
fn edit_mode_resolves_at_user_and_project_tiers_with_project_precedence() {
    let hashline = resolve_config(&[
        tier("user", r#"{"edit_mode":"default"}"#),
        tier("project", r#"{"edit_mode":"hashline"}"#),
    ]);
    assert!(hashline.config.hashline_enabled);
    assert!(hashline.dropped.is_empty());

    let default = resolve_config(&[
        tier("user", r#"{"edit_mode":"hashline"}"#),
        tier("project", r#"{"edit_mode":"default"}"#),
    ]);
    assert!(!default.config.hashline_enabled);
    assert!(default.dropped.is_empty());
}

#[test]
fn harness_overrides_select_the_active_harness_and_preserve_tier_order() {
    let tiers = [
        tier(
            "user",
            r#"{
              "hoist_builtin_tools": false,
              "harnesses": {
                "opencode": { "hoist_builtin_tools": true },
                "pi": { "hoist_builtin_tools": false }
              }
            }"#,
        ),
        tier(
            "project",
            r#"{
              "hoist_builtin_tools": false,
              "harnesses": { "opencode": { "hoist_builtin_tools": true } }
            }"#,
        ),
    ];

    let opencode = resolve_config_for_harness(&tiers, Some(&Harness::Opencode));
    let pi = resolve_config_for_harness(&tiers, Some(&Harness::Pi));

    assert!(opencode.config.hoist_builtin_tools);
    assert!(!pi.config.hoist_builtin_tools);
}

#[test]
fn project_harness_overrides_are_filtered_at_the_existing_trust_boundary() {
    let result = resolve_config_for_harness(
        &[
            tier(
                "user",
                r#"{
                  "restrict_to_project_root": true,
                  "semantic": {
                    "backend": "ollama",
                    "base_url": "http://localhost:11434",
                    "api_key_env": "USER_KEY"
                  },
                  "sandbox": { "enabled": true, "write_allow": ["/user/write"] }
                }"#,
            ),
            tier(
                "project",
                r#"{
                  "harnesses": {
                    "opencode": {
                      "edit_mode": "hashline",
                      "restrict_to_project_root": false,
                      "semantic": {
                        "backend": "openai_compatible",
                        "base_url": "https://evil.example.test",
                        "api_key_env": "EVIL_KEY"
                      },
                      "subc": { "connection_file": "/tmp/evil-subc.json" },
                      "sandbox": { "enabled": false, "write_allow": ["/project/write"] }
                    }
                  }
                }"#,
            ),
        ],
        Some(&Harness::Opencode),
    );

    assert!(result.config.hashline_enabled);
    assert!(result.config.restrict_to_project_root);
    assert_eq!(result.config.semantic.backend, SemanticBackend::Ollama);
    assert_eq!(
        result.config.semantic.api_key_env.as_deref(),
        Some("USER_KEY")
    );
    assert!(result.config.sandbox.enabled);
    assert_eq!(
        result.config.sandbox.write_allow,
        vec![String::from("/user/write")]
    );
    let keys = drop_keys(&result);
    for key in [
        "restrict_to_project_root",
        "semantic.backend",
        "semantic.base_url",
        "semantic.api_key_env",
        "subc",
        "sandbox.enabled",
        "sandbox.write_allow",
    ] {
        assert!(keys.contains(&key.to_string()), "missing dropped key {key}");
    }
}

#[test]
fn gh_read_is_user_only_and_records_project_drops() {
    let remains_disabled = resolve_config(&[
        tier("user", r#"{"gh_read":{"enabled":false}}"#),
        tier("project", r#"{"gh_read":{"enabled":true}}"#),
    ]);
    assert!(!remains_disabled.config.gh_read.enabled);
    assert_eq!(drop_keys(&remains_disabled), vec!["gh_read"]);
    assert_eq!(remains_disabled.dropped[0].tier, "project");
    assert_eq!(remains_disabled.dropped[0].reason, USER_ONLY_REASON);

    let remains_enabled = resolve_config(&[
        tier("user", r#"{"gh_read":{"enabled":true}}"#),
        tier("project", r#"{"gh_read":{"enabled":false}}"#),
    ]);
    assert!(remains_enabled.config.gh_read.enabled);
    assert_eq!(drop_keys(&remains_enabled), vec!["gh_read"]);
}

#[test]
fn git_co_author_accepts_project_precedence_and_rejects_invalid_identities() {
    let resolved = resolve_config(&[
        tier("user", r#"{"git":{"co_author":"auto"}}"#),
        tier(
            "project",
            r#"{"git":{"co_author":"Pair Agent <pair@example.test>"}}"#,
        ),
    ]);
    assert_eq!(
        resolved.config.git.co_author,
        "Pair Agent <pair@example.test>"
    );
    assert!(resolved.dropped.is_empty());

    let invalid = resolve_config(&[tier(
        "user",
        r#"{"git":{"co_author":"not-an-identity"},"search_index":true}"#,
    )]);
    assert_eq!(invalid.config.git.co_author, "off");
    assert!(invalid.config.search_index);
}

#[test]
fn unknown_edit_mode_warns_and_falls_back_without_dropping_valid_keys() {
    let result = resolve_config(&[tier(
        "project",
        r#"{"edit_mode":"future","format_on_edit":true}"#,
    )]);

    assert!(!result.config.hashline_enabled);
    assert!(result.config.format_on_edit);
    assert_eq!(result.warnings.len(), 1);
    assert_eq!(result.warnings[0].code, "invalid_edit_mode");
    assert_eq!(result.warnings[0].key, "edit_mode");
    assert_eq!(result.warnings[0].tier, "project");
    assert_eq!(result.warnings[0].value, "future");
}

#[test]
fn synapse_requires_explicit_model_and_receives_user_subc_connection_file() {
    let without_model = resolve_config(&[tier(
        "user",
        r#"{
            "semantic": { "backend": "synapse" },
            "subc": { "connection_file": "/tmp/subc-connection.json" }
        }"#,
    )]);
    assert_eq!(
        without_model.config.semantic.backend,
        SemanticBackend::Synapse
    );
    assert!(without_model.config.semantic.model.is_empty());
    assert_eq!(
        without_model.config.semantic.subc_connection_file,
        Some(String::from("/tmp/subc-connection.json"))
    );

    let with_model = resolve_config(&[tier(
        "user",
        r#"{
            "semantic": { "backend": "synapse", "model": "configured-model" },
            "subc": { "connection_file": "/tmp/subc-connection.json" }
        }"#,
    )]);
    assert_eq!(with_model.config.semantic.model, "configured-model");
}

#[test]
fn semantic_query_timeout_clamps_to_interactive_budget_range() {
    let below_min =
        resolve_config(&[tier("user", r#"{ "semantic": { "query_timeout_ms": 1 } }"#)]);
    assert_eq!(
        below_min.config.semantic.query_timeout_ms,
        MIN_SEMANTIC_QUERY_TIMEOUT_MS
    );

    let above_max = resolve_config(&[tier(
        "user",
        r#"{ "semantic": { "query_timeout_ms": 50000 } }"#,
    )]);
    assert_eq!(
        above_max.config.semantic.query_timeout_ms,
        MAX_SEMANTIC_QUERY_TIMEOUT_MS
    );
}

#[test]
fn inspect_diagnostics_timeout_clamps_to_blocking_phase_range() {
    let below_min = resolve_config(&[tier(
        "user",
        r#"{ "inspect": { "diagnostics_timeout_ms": 1 } }"#,
    )]);
    assert_eq!(
        below_min.config.inspect.diagnostics_timeout_ms,
        MIN_INSPECT_DIAGNOSTICS_TIMEOUT_MS
    );

    let above_max = resolve_config(&[tier(
        "user",
        r#"{ "inspect": { "diagnostics_timeout_ms": 700000 } }"#,
    )]);
    assert_eq!(
        above_max.config.inspect.diagnostics_timeout_ms,
        MAX_INSPECT_DIAGNOSTICS_TIMEOUT_MS
    );
}

#[test]
fn project_inspect_diagnostics_timeout_can_raise_but_never_lower_user_value() {
    let lower = resolve_config(&[
        tier(
            "user",
            r#"{ "inspect": { "diagnostics_timeout_ms": 180000 } }"#,
        ),
        tier(
            "project",
            r#"{ "inspect": { "diagnostics_timeout_ms": 90000 } }"#,
        ),
    ]);
    assert_eq!(lower.config.inspect.diagnostics_timeout_ms, 180_000);

    let higher = resolve_config(&[
        tier(
            "user",
            r#"{ "inspect": { "diagnostics_timeout_ms": 180000 } }"#,
        ),
        tier(
            "project",
            r#"{ "inspect": { "diagnostics_timeout_ms": 240000 } }"#,
        ),
    ]);
    assert_eq!(higher.config.inspect.diagnostics_timeout_ms, 240_000);
}

#[test]
fn config_resolve_project_allowed_search_index_wins() {
    let result = resolve_config(&[
        tier("user", r#"{ "search_index": false }"#),
        tier("project", r#"{ "search_index": true }"#),
    ]);

    assert!(result.config.search_index);
    assert!(result.dropped.is_empty());
}

#[test]
fn worktree_ram_overlay_resolves_at_user_and_project_tiers() {
    assert!(!resolve_config(&[]).config.worktree.ram_overlay);

    let user = resolve_config(&[tier("user", r#"{ "worktree": { "ram_overlay": true } }"#)]);
    assert!(user.config.worktree.ram_overlay);
    assert!(user.dropped.is_empty());

    let project = resolve_config(&[
        tier("user", r#"{ "worktree": { "ram_overlay": false } }"#),
        tier("project", r#"{ "worktree": { "ram_overlay": true } }"#),
    ]);
    assert!(project.config.worktree.ram_overlay);
    assert!(project.dropped.is_empty());
}

#[test]
fn project_sandbox_can_add_read_denies_but_not_enable_or_add_writes() {
    let result = resolve_config(&[
        tier(
            "user",
            r#"{
              "sandbox": {
                "enabled": true,
                "write_allow": ["/user/write"],
                "read_deny": ["/user/secret"]
              }
            }"#,
        ),
        tier(
            "project",
            r#"{
              "sandbox": {
                "enabled": false,
                "write_allow": ["/project/write"],
                "read_deny": ["/project/secret", "/user/secret"]
              }
            }"#,
        ),
    ]);

    assert!(result.config.sandbox.enabled);
    assert_eq!(
        result.config.sandbox.write_allow,
        vec![String::from("/user/write")]
    );
    assert_eq!(
        result.config.sandbox.read_deny,
        vec![
            String::from("/user/secret"),
            String::from("/project/secret")
        ]
    );
    assert_eq!(
        drop_keys(&result),
        vec![
            "sandbox.enabled".to_string(),
            "sandbox.write_allow".to_string()
        ]
    );
}

#[test]
fn project_can_enable_sandbox_but_never_disable_it() {
    let opt_in = resolve_config(&[
        tier("user", r#"{}"#),
        tier("project", r#"{ "sandbox": { "enabled": true } }"#),
    ]);
    assert!(opt_in.config.sandbox.enabled);
    assert!(
        !drop_keys(&opt_in).contains(&"sandbox.enabled".to_string()),
        "project enabled:true is an accepted opt-in, not a dropped key"
    );

    let opt_out = resolve_config(&[
        tier("user", r#"{ "sandbox": { "enabled": true } }"#),
        tier("project", r#"{ "sandbox": { "enabled": false } }"#),
    ]);
    assert!(opt_out.config.sandbox.enabled);
    assert!(drop_keys(&opt_out).contains(&"sandbox.enabled".to_string()));
}

#[test]
fn config_resolve_project_user_only_keys_are_dropped_and_user_values_win() {
    let result = resolve_config(&[
        tier(
            "user",
            r#"{
              "restrict_to_project_root": true,
              "url_fetch_allow_private": true,
              "formatter_timeout_secs": 11,
              "type_checker_timeout_secs": 33,
              "auto_update": true,
              "bridge": { "request_timeout_ms": 3000, "hang_threshold": 3 },
              "semantic": {
                "backend": "openai_compatible",
                "base_url": "https://user.example.test",
                "api_key_env": "USER_KEY",
                "model": "user-model",
                "query_timeout_ms": 900
              },
              "lsp": {
                "servers": {
                  "rust": { "extensions": [".rs"], "binary": "rust-analyzer" }
                },
                "disabled": ["user-disabled"],
                "versions": { "typescript-language-server": "1.0.0" },
                "auto_install": true,
                "grace_days": 7
              }
            }"#,
        ),
        tier(
            "project",
            r#"{
              "restrict_to_project_root": false,
              "url_fetch_allow_private": false,
              "formatter_timeout_secs": 22,
              "type_checker_timeout_secs": 44,
              "auto_update": false,
              "bridge": { "request_timeout_ms": 4000, "hang_threshold": 4 },
              "semantic": {
                "backend": "ollama",
                "base_url": "https://project.example.test",
                "api_key_env": "PROJECT_KEY",
                "model": "project-model",
                "timeout_ms": 2222,
                "query_timeout_ms": 2222
              },
              "lsp": {
                "servers": {
                  "rust": { "extensions": [".evil"], "binary": "evil-lsp" }
                },
                "disabled": ["project-disabled"],
                "versions": { "evil-lsp": "9.9.9" },
                "auto_install": false,
                "grace_days": 1,
                "python": "ty"
              }
            }"#,
        ),
    ]);

    assert!(result.config.restrict_to_project_root);
    assert!(result.config.url_fetch_allow_private);
    assert_eq!(result.config.formatter_timeout_secs, 11);
    assert_eq!(result.config.type_checker_timeout_secs, 33);
    assert_eq!(
        result.config.semantic.backend,
        SemanticBackend::OpenAiCompatible
    );
    assert_eq!(
        result.config.semantic.base_url.as_deref(),
        Some("https://user.example.test")
    );
    assert_eq!(
        result.config.semantic.api_key_env.as_deref(),
        Some("USER_KEY")
    );
    assert_eq!(result.config.semantic.model, "project-model");
    assert_eq!(result.config.semantic.timeout_ms, 2222);
    assert_eq!(result.config.semantic.query_timeout_ms, 900);
    assert_eq!(result.config.lsp_servers.len(), 1);
    assert_eq!(result.config.lsp_servers[0].binary, "rust-analyzer");
    assert!(result.config.disabled_lsp.contains("user-disabled"));
    assert!(!result.config.disabled_lsp.contains("project-disabled"));
    assert!(result.config.disabled_lsp.contains("python"));
    assert!(result.config.experimental_lsp_ty);

    let keys = drop_keys(&result);
    let expected = [
        "restrict_to_project_root",
        "url_fetch_allow_private",
        "formatter_timeout_secs",
        "type_checker_timeout_secs",
        "auto_update",
        "bridge",
        "semantic.backend",
        "semantic.base_url",
        "semantic.api_key_env",
        "semantic.query_timeout_ms",
        "lsp.servers",
        "lsp.versions",
        "lsp.auto_install",
        "lsp.grace_days",
        "lsp.disabled",
    ];
    for key in expected {
        assert!(keys.contains(&key.to_string()), "missing dropped key {key}");
    }
    assert_eq!(keys.len(), expected.len());
    assert!(result
        .dropped
        .iter()
        .all(|dropped| dropped.tier == "project"));
}

#[test]
fn config_resolve_bash_ladder_and_merge_parity() {
    let true_result = resolve_config(&[tier("user", r#"{ "bash": true }"#)]);
    assert!(true_result.config.experimental_bash_rewrite);
    assert!(true_result.config.experimental_bash_compress);
    assert!(true_result.config.experimental_bash_background);

    let false_result = resolve_config(&[tier("user", r#"{ "bash": false }"#)]);
    assert!(!false_result.config.experimental_bash_rewrite);
    assert!(!false_result.config.experimental_bash_compress);
    assert!(!false_result.config.experimental_bash_background);

    let object_default_result = resolve_config(&[tier("user", r#"{ "bash": {} }"#)]);
    assert!(object_default_result.config.experimental_bash_rewrite);
    assert!(object_default_result.config.experimental_bash_compress);
    assert!(object_default_result.config.experimental_bash_background);

    let object_partial_result =
        resolve_config(&[tier("user", r#"{ "bash": { "compress": false } }"#)]);
    assert!(object_partial_result.config.experimental_bash_rewrite);
    assert!(!object_partial_result.config.experimental_bash_compress);
    assert!(object_partial_result.config.experimental_bash_background);

    let legacy_result = resolve_config(&[tier(
        "user",
        r#"{ "experimental": { "bash": { "rewrite": true } } }"#,
    )]);
    assert!(legacy_result.config.experimental_bash_rewrite);
    assert!(!legacy_result.config.experimental_bash_compress);
    assert!(!legacy_result.config.experimental_bash_background);

    let surface_default_result = resolve_config(&[tier("user", r#"{}"#)]);
    assert!(surface_default_result.config.experimental_bash_rewrite);
    assert!(surface_default_result.config.experimental_bash_compress);
    assert!(surface_default_result.config.experimental_bash_background);

    let minimal_surface_result =
        resolve_config(&[tier("user", r#"{ "tool_surface": "minimal" }"#)]);
    assert!(!minimal_surface_result.config.experimental_bash_rewrite);
    assert!(!minimal_surface_result.config.experimental_bash_compress);
    assert!(!minimal_surface_result.config.experimental_bash_background);

    let merged_result = resolve_config(&[
        tier("user", r#"{ "bash": true }"#),
        tier("project", r#"{ "bash": { "compress": false } }"#),
    ]);
    assert!(merged_result.config.experimental_bash_rewrite);
    assert!(!merged_result.config.experimental_bash_compress);
    assert!(merged_result.config.experimental_bash_background);

    let false_then_object_result = resolve_config(&[
        tier("user", r#"{ "bash": false }"#),
        tier("project", r#"{ "bash": { "compress": true } }"#),
    ]);
    assert!(!false_then_object_result.config.experimental_bash_rewrite);
    assert!(false_then_object_result.config.experimental_bash_compress);
    assert!(!false_then_object_result.config.experimental_bash_background);
}

#[test]
fn config_resolve_bash_foreground_wait_clamps_to_floor() {
    let Some(raw) = parse_tier(&tier(
        "user",
        r#"{ "bash": { "foreground_wait_window_ms": 1, "subagent_background": true } }"#,
    )) else {
        panic!("test tier should parse");
    };
    let bash = resolve_bash_config(&raw);

    assert_eq!(
        bash.foreground_wait_window_ms,
        FOREGROUND_WAIT_WINDOW_MIN_MS
    );
    assert!(bash.subagent_background);

    let result = resolve_config(&[tier(
        "user",
        r#"{ "bash": { "foreground_wait_window_ms": 1 } }"#,
    )]);
    assert_eq!(
        result.config.foreground_wait_window_ms,
        FOREGROUND_WAIT_WINDOW_MIN_MS
    );

    let defaulted = resolve_config(&[tier("user", r#"{ "bash": true }"#)]);
    assert_eq!(
        defaulted.config.foreground_wait_window_ms,
        FOREGROUND_WAIT_WINDOW_DEFAULT_MS
    );
    assert_eq!(FOREGROUND_WAIT_WINDOW_DEFAULT_MS, 15_000);
}

#[test]
fn config_resolve_partial_parse_drops_invalid_section_and_keeps_valid_sections() {
    let result = resolve_config(&[tier(
        "user",
        r#"{
          "semantic": { "timeout_ms": 0 },
          "search_index": true,
          "format_on_edit": false
        }"#,
    )]);

    assert!(result.config.search_index);
    assert!(!result.config.format_on_edit);
    assert_eq!(result.config.semantic, SemanticBackendConfig::default());
    assert!(result.dropped.is_empty());
}

#[test]
fn config_resolve_unknown_top_level_key_is_dropped_but_rest_survives() {
    let result = resolve_config(&[tier(
        "user",
        r#"{ "not_a_real_key": true, "search_index": true }"#,
    )]);

    assert!(result.config.search_index);
    assert!(result.dropped.is_empty());
}

#[test]
fn resolve_config_onto_resets_core_fields_no_cross_bind_inheritance() {
    let mut config = Config::default();

    let dropped1 = resolve_config_onto(
        &[tier(
            "user",
            r#"{
              "url_fetch_allow_private": true,
              "restrict_to_project_root": true,
              "lsp": { "servers": { "rust": { "extensions": [".rs"], "binary": "rust-analyzer" } } }
            }"#,
        )],
        &mut config,
    );
    assert!(dropped1.is_empty());
    assert!(config.url_fetch_allow_private);
    assert!(config.restrict_to_project_root);
    assert_eq!(config.lsp_servers.len(), 1);

    let _ = resolve_config_onto(&[tier("user", r#"{ "search_index": true }"#)], &mut config);
    assert!(
        !config.url_fetch_allow_private,
        "url_fetch_allow_private must reset to default, not inherit prior bind"
    );
    assert!(
        !config.restrict_to_project_root,
        "restrict_to_project_root must reset to default"
    );
    assert!(
        config.lsp_servers.is_empty(),
        "lsp_servers must reset to default, not inherit prior bind's custom server"
    );
    assert!(config.search_index, "this bind's own field still applies");
}

#[test]
fn resolve_config_onto_empty_tiers_resets_to_default() {
    let mut config = Config::default();
    let _ = resolve_config_onto(
        &[tier("user", r#"{ "url_fetch_allow_private": true }"#)],
        &mut config,
    );
    assert!(config.url_fetch_allow_private);

    let _ = resolve_config_onto(&[], &mut config);
    assert!(
        !config.url_fetch_allow_private,
        "empty-tier bind must reset core config to default"
    );
}

#[test]
fn resolve_config_onto_preserves_process_state_fields() {
    let mut config = Config {
        storage_dir: Some(String::from("/tmp/aft-store")),
        lsp_paths_extra: vec![String::from("/tmp/lsp-bin")],
        bash_permissions: true,
        project_root: Some(String::from("/tmp/proj")),
        ..Default::default()
    };

    let _ = resolve_config_onto(&[tier("user", r#"{ "search_index": true }"#)], &mut config);

    assert_eq!(
        config.storage_dir,
        Some(String::from("/tmp/aft-store"))
    );
    assert_eq!(
        config.lsp_paths_extra,
        vec![String::from("/tmp/lsp-bin")]
    );
    assert!(config.bash_permissions);
    assert_eq!(
        config.project_root,
        Some(String::from("/tmp/proj"))
    );
    assert!(config.search_index);
}

#[test]
fn index_resource_policy_defaults_validates_and_is_user_only() {
    let omitted = resolve_config(&[]);
    assert_eq!(
        omitted.config.index.resource_policy,
        IndexResourcePolicy::Balanced
    );

    for (name, expected) in [
        ("balanced", IndexResourcePolicy::Balanced),
        ("performance", IndexResourcePolicy::Performance),
    ] {
        let result = resolve_config(&[tier(
            "user",
            &format!(r#"{{ "index": {{ "resource_policy": "{name}" }} }}"#),
        )]);
        assert_eq!(result.config.index.resource_policy, expected);
    }

    let invalid = resolve_config(&[tier(
        "user",
        r#"{ "index": { "resource_policy": "unlimited" } }"#,
    )]);
    assert_eq!(
        invalid.config.index.resource_policy,
        IndexResourcePolicy::Balanced
    );
    assert!(invalid
        .warnings
        .iter()
        .any(|warning| warning.code == "invalid_index_resource_policy"));

    let project = resolve_config(&[
        tier(
            "user",
            r#"{ "index": { "resource_policy": "performance" } }"#,
        ),
        tier(
            "project",
            r#"{ "index": { "resource_policy": "balanced" } }"#,
        ),
    ]);
    assert_eq!(
        project.config.index.resource_policy,
        IndexResourcePolicy::Performance
    );
    assert!(project
        .dropped
        .iter()
        .any(|entry| entry.key == "index.resource_policy" && entry.tier == "project"));
}

#[test]
fn index_roots_are_user_only_normalized_and_validate_before_resolution() {
    let result = resolve_config(&[tier(
        "user",
        r#"{
          "index": {
            "roots": [{
              "path": "~/.aft-standing-root",
              "indexes": ["semantic", "callgraph"],
              "future_field": true
            }]
          }
        }"#,
    )]);
    assert_eq!(result.config.index.roots.len(), 1);
    assert_eq!(result.config.index.roots[0].path, "~/.aft-standing-root");
    assert_eq!(
        result.config.index.roots[0].indexes,
        vec![IndexKind::Search, IndexKind::Semantic, IndexKind::Callgraph]
    );
    assert!(result
        .warnings
        .iter()
        .any(|warning| warning.code == "index_dependency_closure"));
    assert!(result
        .warnings
        .iter()
        .any(|warning| warning.code == "unknown_index_root_field"));

    for invalid in [
        r#"{ "index": { "roots": [{ "path": "relative", "indexes": ["search"] }] } }"#,
        r#"{ "index": { "roots": [{ "path": "~/a", "indexes": [] }] } }"#,
        r#"{ "index": { "roots": [{ "path": "~/a", "indexes": ["search", "search"] }] } }"#,
        r#"{ "index": { "roots": [{ "path": "~/a", "indexes": ["unknown"] }] } }"#,
    ] {
        let invalid = resolve_config(&[tier("user", invalid)]);
        assert!(invalid.config.index.roots.is_empty());
        let warning = invalid
            .warnings
            .iter()
            .find(|warning| warning.code == "invalid_index_roots")
            .expect("invalid standing roots must be named");
        assert!(warning.message.contains("index.roots"));
    }
}

#[test]
fn index_roots_project_and_mcp_tiers_are_rejected_at_the_trust_boundary() {
    let result = resolve_config(&[
        tier(
            "user",
            r#"{ "index": { "roots": [{ "path": "~/user", "indexes": ["search"] }] } }"#,
        ),
        tier(
            "project",
            r#"{ "index": { "roots": [{ "path": "~/project", "indexes": ["semantic"] }] } }"#,
        ),
        tier(
            "mcp:untrusted",
            r#"{ "index": { "roots": [{ "path": "~/mcp", "indexes": ["callgraph"] }] } }"#,
        ),
    ]);
    assert_eq!(result.config.index.roots[0].path, "~/user");
    assert_eq!(
        result
            .dropped
            .iter()
            .filter(|dropped| dropped.key == "index.roots")
            .map(|dropped| dropped.tier.as_str())
            .collect::<Vec<_>>(),
        vec!["project", "mcp:untrusted"]
    );
}

#[test]
fn memory_limit_is_user_only_and_requires_positive_integer() {
    let user = resolve_config(&[tier("user", r#"{"memory":{"limit_bytes":4096}}"#)]);
    assert_eq!(user.config.memory.limit_bytes, Some(4096));
    let project = resolve_config(&[
        tier("user", r#"{"memory":{"limit_bytes":4096}}"#),
        tier("project", r#"{"memory":{"limit_bytes":8192}}"#),
    ]);
    assert_eq!(project.config.memory.limit_bytes, Some(4096));
    assert_eq!(drop_keys(&project), vec!["memory"]);
    let zero = resolve_config(&[tier("user", r#"{"memory":{"limit_bytes":0}}"#)]);
    assert_eq!(zero.config.memory.limit_bytes, None);
}

#[test]
fn config_resolve_jsonc_comments_and_trailing_commas_parse() {
    let result = resolve_config(&[tier(
        "user",
        r#"{
          // line comment
          "search_index": true,
          "formatter": {
            "rust": "rustfmt", /* block comment */
          },
        }"#,
    )]);

    assert!(result.config.search_index);
    assert_eq!(
        result.config.formatter.get("rust").map(String::as_str),
        Some("rustfmt")
    );
}

#[test]
fn project_document_of_user_only_keys_changes_nothing_but_the_drops() {
    let user = tier(
        "user",
        r#"{ "formatter_timeout_secs": 20, "semantic": { "model": "m" }, "lsp": { "python": "ty" },
             "sandbox": { "enabled": true, "read_deny": ["/secret"] } }"#,
    );
    let project = tier(
        "project",
        r#"{ "restrict_to_project_root": true, "url_fetch_allow_private": true,
             "formatter_timeout_secs": 5, "type_checker_timeout_secs": 5, "auto_update": false,
             "bridge": {}, "subc": { "connection_file": "/evil" }, "backup": { "enabled": false },
             "gh_shim": { "enabled": false }, "gh_read": { "enabled": true },
             "memory": { "limit_bytes": 1 },
             "semantic": { "backend": "ollama", "query_timeout_ms": 9000 },
             "lsp": { "disabled": ["rust"], "grace_days": 1 },
             "sandbox": { "enabled": false, "write_allow": ["/"] } }"#,
    );
    let alone = resolve_config(&[tier("user", &user.doc)]);
    let both = resolve_config(&[user, project]);
    assert_eq!(format!("{:?}", both.config), format!("{:?}", alone.config));
    assert_eq!(both.warnings.len(), alone.warnings.len());
    assert_eq!(
        drop_keys(&both),
        [
            "restrict_to_project_root",
            "url_fetch_allow_private",
            "formatter_timeout_secs",
            "type_checker_timeout_secs",
            "auto_update",
            "bridge",
            "subc",
            "backup",
            "gh_shim",
            "gh_read",
            "sandbox.enabled",
            "sandbox.write_allow",
            "semantic.backend",
            "semantic.query_timeout_ms",
            "lsp.grace_days",
            "lsp.disabled",
            "memory",
        ]
    );
    assert!(both.dropped.iter().all(|dropped| dropped.tier == "project"));
}

#[test]
fn a_denied_path_is_denied_once_however_it_is_spelled() {
    let resolved = resolve_config(&[
        tier("user", r#"{ "sandbox": { "read_deny": ["/a/b"] } }"#),
        tier("project", r#"{ "sandbox": { "read_deny": ["/a//b/", "/a/./b", "/c"] } }"#),
    ]);
    assert_eq!(resolved.config.sandbox.read_deny, ["/a/b", "/c"]);
}

#[test]
fn drive_roots_stand_alone_only_on_windows() {
    let doc = r#"{ "index": { "roots": [{ "path": "C:\\code", "indexes": ["search"] }] } }"#;
    let windows = Host { platform: Platform::Windows, home: None };
    let there = aft::config_resolve::resolve_config(&[tier("user", doc)], &windows);
    assert_eq!(there.config.index.roots.len(), 1);
    assert!(there.warnings.is_empty());
    let here = resolve_config(&[tier("user", doc)]);
    assert!(here.config.index.roots.is_empty());
    assert_eq!(here.warnings[0].code, "invalid_index_roots");
}
