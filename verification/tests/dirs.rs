use aft::config::{Config, Harness, Platform};
use aft::context::AppContext;

const STORAGE: &str = "/tmp/cortexkit/aft";

fn ctx_with_harness(harness: Harness) -> AppContext {
    let mut config = Config::default();
    config.storage_dir = Some(STORAGE.to_string());
    let mut ctx = AppContext::new(config, Platform::Unix);
    ctx.set_harness(harness);
    ctx
}

#[test]
fn harness_dir_resolves_correctly() {
    let ctx = ctx_with_harness(Harness::Pi);
    assert_eq!(ctx.harness_dir(STORAGE), format!("{STORAGE}/pi"));
}

#[test]
fn bash_tasks_dir_uses_hash_session() {
    let ctx = ctx_with_harness(Harness::Opencode);
    assert_eq!(
        ctx.bash_tasks_dir(STORAGE, "hash-of-ses_abc"),
        format!("{STORAGE}/opencode/bash-tasks/hash-of-ses_abc")
    );
}

#[test]
fn backups_dir_includes_path_hash() {
    let ctx = ctx_with_harness(Harness::Pi);
    assert_eq!(
        ctx.backups_dir(STORAGE, "hash-of-ses_abc", "pathhash"),
        format!("{STORAGE}/pi/backups/hash-of-ses_abc/pathhash")
    );
}

#[test]
fn filters_dir_under_harness() {
    let ctx = ctx_with_harness(Harness::Opencode);
    assert_eq!(ctx.filters_dir(STORAGE), format!("{STORAGE}/opencode/filters"));
}

#[test]
fn trust_file_is_host_global() {
    let ctx = ctx_with_harness(Harness::Pi);
    assert_eq!(ctx.trust_file(STORAGE), format!("{STORAGE}/trusted-filter-projects.json"));
}

#[test]
fn same_session_different_harness_resolve_different_paths() {
    let opencode = ctx_with_harness(Harness::Opencode);
    let pi = ctx_with_harness(Harness::Pi);
    assert_ne!(
        opencode.bash_tasks_dir(STORAGE, "ses_same"),
        pi.bash_tasks_dir(STORAGE, "ses_same")
    );
}

#[test]
fn callgraph_and_inspect_dirs_are_root_keyed() {
    let mut ctx = ctx_with_harness(Harness::Opencode);
    ctx.set_canonical_cache_root("/tmp/checkout".to_string());
    let callgraph = ctx.callgraph_store_dir(STORAGE, Some("artifact-key"));
    let inspect = ctx.inspect_dir(STORAGE, Some("scope-key"));
    assert_eq!(callgraph, format!("{STORAGE}/callgraph/artifact-key"));
    assert_eq!(inspect, format!("{STORAGE}/inspect/scope-key"));
    assert!(!callgraph.starts_with(&ctx.harness_dir(STORAGE)));
    assert!(!inspect.starts_with(&ctx.harness_dir(STORAGE)));
}

#[test]
fn per_domain_capability_allows_inspect_writer_when_callgraph_read_only() {
    let mut ctx = ctx_with_harness(Harness::Opencode);
    ctx.set_cache_writer_capabilities(false, true);

    assert!(ctx.shared_artifacts_read_only());
    assert!(!ctx.callgraph_writer());
    assert!(ctx.inspect_writer());
}

#[test]
fn artifact_keys_are_derived_once() {
    let mut ctx = AppContext::new(Config::default(), Platform::Unix);
    assert_eq!(ctx.cached_artifact_cache_key("/root"), None);
    assert_eq!(ctx.memoized_artifact_cache_key("/root", "key".to_string()), "key");
    assert_eq!(ctx.cached_artifact_cache_key("/root").as_deref(), Some("key"));
    assert_eq!(ctx.memoized_artifact_cache_key("/root", "other".to_string()), "key");
    assert_eq!(ctx.artifact_cache_key_derivations, 1);
}

#[test]
fn failed_derivations_are_not_remembered() {
    let mut ctx = AppContext::new(Config::default(), Platform::Unix);
    let failed: Result<String, u8> = Err(3);
    assert_eq!(ctx.memoized_artifact_cache_key_for_configure("/raw", "/root", failed), Err(3));
    assert_eq!(ctx.cached_key_for_configure("/raw", "/root"), None);
    let derived: Result<String, u8> = Ok("key".to_string());
    assert_eq!(
        ctx.memoized_artifact_cache_key_for_configure("/raw", "/root", derived),
        Ok("key".to_string())
    );
    assert_eq!(ctx.cached_key_for_configure("/raw", "/root").as_deref(), Some("key"));
}

#[test]
fn build_deaths_are_recorded_beside_the_callgraph_store() {
    let ctx = ctx_with_harness(Harness::Pi);
    assert_eq!(
        ctx.build_breaker_path(STORAGE, "artifact-key"),
        format!("{STORAGE}/callgraph/artifact-key/build-breaker.sqlite")
    );
}
