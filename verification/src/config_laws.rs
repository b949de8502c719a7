//! What resolution promises as a whole.

use vstd::prelude::*;

use crate::config;
use crate::config::{
    ConfigView, Harness, HostView, IndexKind, IndexRootConfigView, Platform, SemanticBackend,
};
use crate::config_resolve;
use crate::config_resolve::{ParsedTierView, TierState};
use crate::decode::Decode;
use crate::json::JsonView;
use crate::merge;
use crate::merge::DroppedKeyView;
use crate::raw;
use crate::raw::{
    RawAftConfig, RawAftConfigView, RawBackup, RawBridge, RawGhRead, RawGhShimView, RawIndexRootView,
    RawIndexView, RawInspectView, RawLspServerEntryView, RawMemory, RawSandboxView, RawSubcView,
};

verus! {

/// Laying an unset document over another, or another over an unset one, changes nothing.
pub proof fn law_unset_document_is_neutral(document: RawAftConfigView)
    ensures
        merge::trusted(document, raw::unset_aft_config()) == document,
        merge::trusted(raw::unset_aft_config(), document) == document,
{
    reveal(merge::or_else);
}

/// Laying trusted documents over each other is associative.
pub proof fn law_trusted_merge_is_associative(
    a: RawAftConfigView,
    b: RawAftConfigView,
    c: RawAftConfigView,
)
    ensures
        merge::trusted(merge::trusted(a, b), c) == merge::trusted(a, merge::trusted(b, c)),
{
    lemma_or_else_is_associative(a.schema, b.schema, c.schema);
    lemma_or_else_is_associative(a.enabled, b.enabled, c.enabled);
    lemma_or_else_is_associative(a.edit_mode, b.edit_mode, c.edit_mode);
    lemma_or_else_is_associative(a.format_on_edit, b.format_on_edit, c.format_on_edit);
    lemma_or_else_is_associative(a.formatter_timeout_secs, b.formatter_timeout_secs, c.formatter_timeout_secs);
    lemma_or_else_is_associative(a.type_checker_timeout_secs, b.type_checker_timeout_secs, c.type_checker_timeout_secs);
    lemma_or_else_is_associative(a.validate_on_edit, b.validate_on_edit, c.validate_on_edit);
    lemma_or_else_is_associative(a.formatter, b.formatter, c.formatter);
    lemma_or_else_is_associative(a.checker, b.checker, c.checker);
    lemma_or_else_is_associative(a.configure_warnings_delivery, b.configure_warnings_delivery, c.configure_warnings_delivery);
    lemma_or_else_is_associative(a.hoist_builtin_tools, b.hoist_builtin_tools, c.hoist_builtin_tools);
    lemma_or_else_is_associative(a.tool_surface, b.tool_surface, c.tool_surface);
    lemma_or_else_is_associative(a.disabled_tools, b.disabled_tools, c.disabled_tools);
    lemma_or_else_is_associative(a.restrict_to_project_root, b.restrict_to_project_root, c.restrict_to_project_root);
    lemma_or_else_is_associative(a.search_index, b.search_index, c.search_index);
    lemma_or_else_is_associative(a.index, b.index, c.index);
    lemma_or_else_is_associative(a.memory, b.memory, c.memory);
    lemma_or_else_is_associative(a.semantic_search, b.semantic_search, c.semantic_search);
    lemma_or_else_is_associative(a.callgraph_store, b.callgraph_store, c.callgraph_store);
    lemma_or_else_is_associative(a.callgraph_chunk_size, b.callgraph_chunk_size, c.callgraph_chunk_size);
    lemma_or_else_is_associative(a.inspect, b.inspect, c.inspect);
    lemma_or_else_is_associative(a.backup, b.backup, c.backup);
    lemma_or_else_is_associative(a.worktree, b.worktree, c.worktree);
    lemma_or_else_is_associative(a.gh_shim, b.gh_shim, c.gh_shim);
    lemma_or_else_is_associative(a.gh_read, b.gh_read, c.gh_read);
    lemma_or_else_is_associative(a.git, b.git, c.git);
    lemma_or_else_is_associative(a.sandbox, b.sandbox, c.sandbox);
    lemma_or_else_is_associative(a.bash, b.bash, c.bash);
    lemma_or_else_is_associative(a.experimental, b.experimental, c.experimental);
    lemma_or_else_is_associative(a.lsp, b.lsp, c.lsp);
    lemma_or_else_is_associative(a.url_fetch_allow_private, b.url_fetch_allow_private, c.url_fetch_allow_private);
    lemma_or_else_is_associative(a.semantic, b.semantic, c.semantic);
    lemma_or_else_is_associative(a.auto_update, b.auto_update, c.auto_update);
    lemma_or_else_is_associative(a.bridge, b.bridge, c.bridge);
    lemma_or_else_is_associative(a.subc, b.subc, c.subc);
    lemma_or_else_is_associative(a.harnesses, b.harnesses, c.harnesses);
}

proof fn lemma_or_else_is_associative<T>(a: Option<T>, b: Option<T>, c: Option<T>)
    ensures
        merge::or_else(c, merge::or_else(b, a)) == merge::or_else(merge::or_else(c, b), a),
{
    reveal(merge::or_else);
}

/// A reset inherits nothing but the process state: what two configurations are reset to differs
/// in no other field.
pub proof fn law_reset_inherits_only_process_state(
    first: ConfigView,
    second: ConfigView,
    other: ConfigView,
    tiers: Seq<ParsedTierView>,
    harness: Option<Harness>,
    host: HostView,
)
    ensures
        config_resolve::process_state_carried(
            other,
            config_resolve::reset_config(first, tiers, harness, host),
        ) == config_resolve::process_state_carried(
            other,
            config_resolve::reset_config(second, tiers, harness, host),
        ),
{
}

/// A reset keeps the process state: carrying it once more changes nothing.
pub proof fn law_reset_keeps_process_state(
    base: ConfigView,
    tiers: Seq<ParsedTierView>,
    harness: Option<Harness>,
    host: HostView,
)
    ensures
        config_resolve::process_state_carried(
            base,
            config_resolve::reset_config(base, tiers, harness, host),
        ) == config_resolve::reset_config(base, tiers, harness, host),
{
}

/// Resetting twice to the same tiers is resetting once.
pub proof fn law_reset_is_idempotent(
    base: ConfigView,
    tiers: Seq<ParsedTierView>,
    harness: Option<Harness>,
    host: HostView,
)
    ensures
        config_resolve::reset_config(
            config_resolve::reset_config(base, tiers, harness, host),
            tiers,
            harness,
            host,
        ) == config_resolve::reset_config(base, tiers, harness, host),
{
}

/// A document that cannot be parsed, or is no object, has no effect.
pub proof fn law_unreadable_tier_has_no_effect(
    platform: Platform,
    state: TierState,
    tier: ParsedTierView,
    harness: Option<Harness>,
)
    requires
        !(tier.document matches Some(JsonView::Object(_))),
    ensures
        config_resolve::tier_applied(platform, state, tier, harness) == state,
{
}

/// Where no harness is active, the sections by harness have no effect.
pub proof fn law_no_harness_no_override(raw: RawAftConfigView, tier: Seq<char>)
    ensures
        config_resolve::overridden(raw, None, tier) == (
            (RawAftConfigView { harnesses: None, ..raw }),
            Seq::<config_resolve::ConfigWarningView>::empty(),
        ),
{
}

/// An entry with an unknown key adds nothing to a document that is read entry by entry.
pub proof fn law_unknown_key_adds_nothing(
    entries: Seq<(Seq<char>, JsonView)>,
    key: Seq<char>,
    value: JsonView,
)
    requires
        !crate::decode::is_aft_config_key(key),
    ensures
        config_resolve::partially_decoded(entries.push((key, value)))
            == config_resolve::partially_decoded(entries),
{
    let longer = entries.push((key, value));
    assert(longer.drop_last() =~= entries);
    let one = seq![longer.last()];
    assert(one[0].0 == key);
    assert(!crate::decode::all_keys_are(
        JsonView::Object(one),
        |k: Seq<char>| crate::decode::is_aft_config_key(k),
    )) by {
        assert(!(|k: Seq<char>| crate::decode::is_aft_config_key(k))(one[0].0));
    }
}

/// An empty object sets nothing.
pub proof fn law_empty_object_sets_nothing()
    ensures
        RawAftConfig::decoded(JsonView::Object(Seq::empty())) == Some(raw::unset_aft_config()),
{
    reveal(crate::decode::field_of);
}

/// No tiers at all resolve like one empty user document.
pub proof fn law_no_tiers_like_empty_document(harness: Option<Harness>, host: HostView)
    ensures
        config_resolve::resolved(Seq::empty(), harness, host) == config_resolve::resolved(
            seq![ParsedTierView { tier: "user"@, document: Some(JsonView::Object(Seq::empty())) }],
            harness,
            host,
        ),
{
    let tier = ParsedTierView { tier: "user"@, document: Some(JsonView::Object(Seq::empty())) };
    let tiers = seq![tier];
    assert(tiers.drop_last() =~= Seq::empty());
    law_empty_object_sets_nothing();
    law_unset_document_is_neutral(raw::unset_aft_config());
    let none = Seq::<config_resolve::ConfigWarningView>::empty();
    assert(none + none =~= none);
    reveal_with_fuel(config_resolve::tiers_applied, 2);
}

/// The settings that only the user tier may decide.
#[verifier::ext_equal]
pub struct UserOnly {
    pub restrict_to_project_root: Option<bool>,
    pub url_fetch_allow_private: Option<bool>,
    pub formatter_timeout_secs: Option<u32>,
    pub type_checker_timeout_secs: Option<u32>,
    pub auto_update: Option<bool>,
    pub bridge: Option<RawBridge>,
    pub subc: Option<RawSubcView>,
    pub backup: Option<RawBackup>,
    pub gh_shim: Option<RawGhShimView>,
    pub gh_read: Option<RawGhRead>,
    pub index: Option<RawIndexView>,
    pub memory: Option<RawMemory>,
    pub semantic_backend: Option<SemanticBackend>,
    pub semantic_base_url: Option<Seq<char>>,
    pub semantic_api_key_env: Option<Seq<char>>,
    pub semantic_query_timeout_ms: Option<u64>,
    pub lsp_servers: Option<Seq<(Seq<char>, RawLspServerEntryView)>>,
    pub lsp_versions: Option<Seq<(Seq<char>, Seq<char>)>>,
    pub lsp_auto_install: Option<bool>,
    pub lsp_grace_days: Option<u64>,
    pub lsp_disabled: Option<Seq<Seq<char>>>,
    pub sandbox_write_allow: Option<Seq<Seq<char>>>,
}

/// The user-only settings of a merged document.
pub open spec fn user_only(raw: RawAftConfigView) -> UserOnly {
    let semantic = merge::or_value(raw.semantic, raw::unset_semantic());
    let lsp = merge::or_value(raw.lsp, raw::unset_lsp());
    let sandbox = merge::or_value(raw.sandbox, raw::unset_sandbox());
    UserOnly {
        restrict_to_project_root: raw.restrict_to_project_root,
        url_fetch_allow_private: raw.url_fetch_allow_private,
        formatter_timeout_secs: raw.formatter_timeout_secs,
        type_checker_timeout_secs: raw.type_checker_timeout_secs,
        auto_update: raw.auto_update,
        bridge: raw.bridge,
        subc: raw.subc,
        backup: raw.backup,
        gh_shim: raw.gh_shim,
        gh_read: raw.gh_read,
        index: raw.index,
        memory: raw.memory,
        semantic_backend: semantic.backend,
        semantic_base_url: semantic.base_url,
        semantic_api_key_env: semantic.api_key_env,
        semantic_query_timeout_ms: semantic.query_timeout_ms,
        lsp_servers: lsp.servers,
        lsp_versions: lsp.versions,
        lsp_auto_install: lsp.auto_install,
        lsp_grace_days: lsp.grace_days,
        lsp_disabled: lsp.disabled,
        sandbox_write_allow: sandbox.write_allow,
    }
}


proof fn lemma_project_keeps_user_only(
    platform: Platform,
    base: RawAftConfigView,
    project: RawAftConfigView,
)
    ensures
        user_only(merge::project_laid(platform, base, project)) == user_only(base),
{
}

proof fn lemma_trusted_respects_user_only(
    a: RawAftConfigView,
    b: RawAftConfigView,
    over: RawAftConfigView,
)
    requires
        user_only(a) == user_only(b),
    ensures
        user_only(merge::trusted(a, over)) == user_only(merge::trusted(b, over)),
{
    reveal(merge::or_else);
}

/// The tiers of the user, in order.
pub open spec fn user_tiers(tiers: Seq<ParsedTierView>) -> Seq<ParsedTierView>
    decreases tiers.len(),
{
    if tiers.len() == 0 {
        Seq::empty()
    } else if tiers.last().tier == "user"@ {
        user_tiers(tiers.drop_last()).push(tiers.last())
    } else {
        user_tiers(tiers.drop_last())
    }
}

/// The user-only settings come out as if the user's tiers had been alone.
pub proof fn law_merged_user_only_settings_come_from_the_user(
    platform: Platform,
    tiers: Seq<ParsedTierView>,
    harness: Option<Harness>,
)
    ensures
        user_only(config_resolve::tiers_applied(platform, tiers, harness).merged) == user_only(
            config_resolve::tiers_applied(platform, user_tiers(tiers), harness).merged,
        ),
    decreases tiers.len(),
{
    if tiers.len() > 0 {
        let tier = tiers.last();
        law_merged_user_only_settings_come_from_the_user(platform, tiers.drop_last(), harness);
        let state = config_resolve::tiers_applied(platform, tiers.drop_last(), harness);
        let alone = config_resolve::tiers_applied(platform, user_tiers(tiers.drop_last()), harness);
        if tier.tier == "user"@ {
            let mine = user_tiers(tiers.drop_last()).push(tier);
            assert(mine.drop_last() =~= user_tiers(tiers.drop_last()));
            if let Some(raw) = config_resolve::document_config(tier.document) {
                let over = config_resolve::overridden(raw, harness, tier.tier).0;
                lemma_trusted_respects_user_only(state.merged, alone.merged, over);
            }
        } else {
            if let Some(raw) = config_resolve::document_config(tier.document) {
                let project = config_resolve::overridden(raw, harness, tier.tier).0;
                lemma_project_keeps_user_only(platform, state.merged, project);
            }
        }
    }
}

/// No tier but the user's decides these settings of the resolved configuration: they come out as
/// if the user's tiers had been alone.
pub proof fn law_user_only_settings_come_from_the_user(
    tiers: Seq<ParsedTierView>,
    harness: Option<Harness>,
    host: HostView,
)
    ensures
        ({
            let all = config_resolve::resolved(tiers, harness, host).config;
            let user = config_resolve::resolved(user_tiers(tiers), harness, host).config;
            &&& all.restrict_to_project_root == user.restrict_to_project_root
            &&& all.url_fetch_allow_private == user.url_fetch_allow_private
            &&& all.formatter_timeout_secs == user.formatter_timeout_secs
            &&& all.type_checker_timeout_secs == user.type_checker_timeout_secs
            &&& all.backup == user.backup
            &&& all.gh_shim == user.gh_shim
            &&& all.gh_read == user.gh_read
            &&& all.memory == user.memory
            &&& all.index == user.index
            &&& all.lsp_servers == user.lsp_servers
            &&& all.semantic.backend == user.semantic.backend
            &&& all.semantic.base_url == user.semantic.base_url
            &&& all.semantic.api_key_env == user.semantic.api_key_env
            &&& all.semantic.query_timeout_ms == user.semantic.query_timeout_ms
            &&& all.semantic.subc_connection_file == user.semantic.subc_connection_file
            &&& all.sandbox.write_allow == user.sandbox.write_allow
        }),
{
    law_merged_user_only_settings_come_from_the_user(host.platform, tiers, harness);
    let all = config_resolve::tiers_applied(host.platform, tiers, harness).merged;
    let user = config_resolve::tiers_applied(host.platform, user_tiers(tiers), harness).merged;
    let start = ConfigView::default_view();
    lemma_semantic_from_user_only(all, user);
    lemma_servers_from_user_only(all, user, start.lsp_servers);
    lemma_sandbox_from_user_only(all, user);
}

proof fn lemma_semantic_from_user_only(a: RawAftConfigView, b: RawAftConfigView)
    requires
        user_only(a) == user_only(b),
    ensures
        ({
            let all = config_resolve::semantic_resolved(a.semantic, a.subc);
            let user = config_resolve::semantic_resolved(b.semantic, b.subc);
            &&& all.backend == user.backend
            &&& all.base_url == user.base_url
            &&& all.api_key_env == user.api_key_env
            &&& all.query_timeout_ms == user.query_timeout_ms
            &&& all.subc_connection_file == user.subc_connection_file
        }),
{
}

proof fn lemma_servers_from_user_only(
    a: RawAftConfigView,
    b: RawAftConfigView,
    current: Seq<config::UserServerDefView>,
)
    requires
        user_only(a) == user_only(b),
    ensures
        config_resolve::servers_applied(a, current) == config_resolve::servers_applied(b, current),
{
    reveal(config_resolve::servers_applied);
}

proof fn lemma_sandbox_from_user_only(a: RawAftConfigView, b: RawAftConfigView)
    requires
        user_only(a) == user_only(b),
    ensures
        config_resolve::sandbox_resolved(a.sandbox).write_allow == config_resolve::sandbox_resolved(
            b.sandbox,
        ).write_allow,
{
}

/// Every recorded drop names a tier other than the user's.
pub proof fn law_drops_name_untrusted_tiers(
    platform: Platform,
    tiers: Seq<ParsedTierView>,
    harness: Option<Harness>,
)
    ensures
        forall|i: int|
            0 <= i < config_resolve::tiers_applied(platform, tiers, harness).dropped.len() ==> (
            #[trigger] config_resolve::tiers_applied(platform, tiers, harness).dropped[i]).tier != "user"@,
    decreases tiers.len(),
{
    if tiers.len() > 0 {
        let tier = tiers.last();
        law_drops_name_untrusted_tiers(platform, tiers.drop_last(), harness);
        let state = config_resolve::tiers_applied(platform, tiers.drop_last(), harness);
        if tier.tier != "user"@ {
            if let Some(raw) = config_resolve::document_config(tier.document) {
                let project = config_resolve::overridden(raw, harness, tier.tier).0;
                lemma_drops_named(project, tier.tier, state.dropped);
            }
        }
    }
}

/// Whether every drop names a tier other than the user's.
pub open spec fn names_no_user(dropped: Seq<DroppedKeyView>) -> bool {
    forall|i: int| 0 <= i < dropped.len() ==> (#[trigger] dropped[i]).tier != "user"@
}

proof fn lemma_noted_named(
    dropped: Seq<DroppedKeyView>,
    set: bool,
    key: Seq<char>,
    tier: Seq<char>,
    reason: Seq<char>,
)
    requires
        names_no_user(dropped),
        tier != "user"@,
    ensures
        names_no_user(merge::drop_noted(dropped, set, key, tier, reason)),
{
    reveal(merge::drop_noted);
}

proof fn lemma_drops_named(raw: RawAftConfigView, tier: Seq<char>, dropped: Seq<DroppedKeyView>)
    requires
        names_no_user(dropped),
        tier != "user"@,
    ensures
        names_no_user(merge::drops_recorded(raw, tier, dropped)),
{
    assert forall|d: Seq<DroppedKeyView>, set: bool, key: Seq<char>, reason: Seq<char>|
        names_no_user(d) implies names_no_user(
        #[trigger] merge::drop_noted(d, set, key, tier, reason),
    ) by {
        lemma_noted_named(d, set, key, tier, reason);
    }
    let shared = merge::shared_drops(raw, tier, dropped);
    assert(names_no_user(shared));
    let guarded = merge::guarded_drops(raw, tier, shared);
    assert(names_no_user(guarded));
    let semantic = merge::semantic_drops(raw, tier, guarded);
    assert(names_no_user(semantic));
}

/// A setting that only the user tier may decide: its key, whether a document sets it, and why
/// another tier's value is dropped.
pub struct Setting {
    pub key: Seq<char>,
    pub set: bool,
    pub reason: Seq<char>,
}

/// Whole sections and top-level switches.
pub open spec fn shared_settings(raw: RawAftConfigView) -> Seq<Setting> {
    seq![
        Setting { key: "restrict_to_project_root"@, set: raw.restrict_to_project_root is Some, reason: merge::USER_ONLY_REASON@ },
        Setting { key: "url_fetch_allow_private"@, set: raw.url_fetch_allow_private is Some, reason: merge::USER_ONLY_REASON@ },
        Setting { key: "formatter_timeout_secs"@, set: raw.formatter_timeout_secs is Some, reason: merge::USER_ONLY_REASON@ },
        Setting { key: "type_checker_timeout_secs"@, set: raw.type_checker_timeout_secs is Some, reason: merge::USER_ONLY_REASON@ },
        Setting { key: "auto_update"@, set: raw.auto_update is Some, reason: merge::USER_ONLY_REASON@ },
        Setting { key: "bridge"@, set: raw.bridge is Some, reason: merge::USER_ONLY_REASON@ },
        Setting { key: "subc"@, set: raw.subc is Some, reason: merge::USER_ONLY_REASON@ },
        Setting { key: "backup"@, set: raw.backup is Some, reason: merge::USER_ONLY_REASON@ },
        Setting { key: "gh_shim"@, set: raw.gh_shim is Some, reason: merge::USER_ONLY_REASON@ },
        Setting { key: "gh_read"@, set: raw.gh_read is Some, reason: merge::USER_ONLY_REASON@ },
    ]
}

/// Index, sandbox and tool settings.
pub open spec fn guarded_settings(raw: RawAftConfigView) -> Seq<Setting> {
    seq![
        Setting { key: "index.roots"@, set: raw.index is Some && raw.index->0.roots is Some, reason: merge::USER_ONLY_REASON@ },
        Setting { key: "index.resource_policy"@, set: raw.index is Some && raw.index->0.resource_policy is Some, reason: merge::USER_ONLY_REASON@ },
        Setting { key: "sandbox.enabled"@, set: raw.sandbox is Some && raw.sandbox->0.enabled == Some(false), reason: merge::USER_ONLY_REASON@ },
        Setting { key: "sandbox.write_allow"@, set: raw.sandbox is Some && raw.sandbox->0.write_allow is Some, reason: merge::USER_ONLY_REASON@ },
        Setting { key: "disabled_tools.aft_safety"@, set: raw.disabled_tools is Some && raw.disabled_tools->0.contains("aft_safety"@), reason: merge::USER_ONLY_REASON@ },
    ]
}

/// Settings of the semantic section.
pub open spec fn semantic_settings(raw: RawAftConfigView) -> Seq<Setting> {
    seq![
        Setting { key: "semantic.backend"@, set: raw.semantic is Some && raw.semantic->0.backend is Some, reason: merge::SEMANTIC_SECRET_REASON@ },
        Setting { key: "semantic.base_url"@, set: raw.semantic is Some && raw.semantic->0.base_url is Some, reason: merge::SEMANTIC_SECRET_REASON@ },
        Setting { key: "semantic.api_key_env"@, set: raw.semantic is Some && raw.semantic->0.api_key_env is Some, reason: merge::SEMANTIC_SECRET_REASON@ },
        Setting { key: "semantic.query_timeout_ms"@, set: raw.semantic is Some && raw.semantic->0.query_timeout_ms is Some, reason: merge::USER_ONLY_REASON@ },
    ]
}

/// Settings of the language server section, and the memory limit.
pub open spec fn lsp_settings(raw: RawAftConfigView) -> Seq<Setting> {
    seq![
        Setting { key: "lsp.servers"@, set: raw.lsp is Some && raw.lsp->0.servers is Some, reason: merge::LSP_USER_ONLY_REASON@ },
        Setting { key: "lsp.versions"@, set: raw.lsp is Some && raw.lsp->0.versions is Some, reason: merge::LSP_USER_ONLY_REASON@ },
        Setting { key: "lsp.auto_install"@, set: raw.lsp is Some && raw.lsp->0.auto_install is Some, reason: merge::LSP_USER_ONLY_REASON@ },
        Setting { key: "lsp.grace_days"@, set: raw.lsp is Some && raw.lsp->0.grace_days is Some, reason: merge::LSP_USER_ONLY_REASON@ },
        Setting { key: "lsp.disabled"@, set: raw.lsp is Some && raw.lsp->0.disabled is Some, reason: merge::LSP_USER_ONLY_REASON@ },
        Setting { key: "memory"@, set: raw.memory is Some, reason: merge::USER_ONLY_REASON@ },
    ]
}

/// The settings that only the user tier may decide, in the order in which drops are recorded.
pub open spec fn user_only_settings(raw: RawAftConfigView) -> Seq<Setting> {
    shared_settings(raw) + guarded_settings(raw) + semantic_settings(raw) + lsp_settings(raw)
}

/// `dropped` with an entry added for every setting that is set.
pub open spec fn noted(
    dropped: Seq<DroppedKeyView>,
    settings: Seq<Setting>,
    tier: Seq<char>,
) -> Seq<DroppedKeyView>
    decreases settings.len(),
{
    if settings.len() == 0 {
        dropped
    } else {
        let front = noted(dropped, settings.drop_last(), tier);
        let setting = settings.last();
        if setting.set {
            front.push(DroppedKeyView { key: setting.key, tier, reason: setting.reason })
        } else {
            front
        }
    }
}

proof fn lemma_noted_push(
    dropped: Seq<DroppedKeyView>,
    settings: Seq<Setting>,
    setting: Setting,
    tier: Seq<char>,
)
    ensures
        noted(dropped, settings.push(setting), tier) == merge::drop_noted(
            noted(dropped, settings, tier),
            setting.set,
            setting.key,
            tier,
            setting.reason,
        ),
{
    reveal(merge::drop_noted);
    assert(settings.push(setting).drop_last() =~= settings);
}

proof fn lemma_noted_in_turn(
    dropped: Seq<DroppedKeyView>,
    first: Seq<Setting>,
    more: Seq<Setting>,
    tier: Seq<char>,
)
    ensures
        noted(dropped, first + more, tier) == noted(noted(dropped, first, tier), more, tier),
    decreases more.len(),
{
    if more.len() > 0 {
        lemma_noted_in_turn(dropped, first, more.drop_last(), tier);
        assert((first + more).drop_last() =~= first + more.drop_last());
        assert((first + more).last() == more.last());
    } else {
        assert(first + more =~= first);
    }
}

proof fn lemma_shared_drops_are_noted(
    raw: RawAftConfigView,
    tier: Seq<char>,
    dropped: Seq<DroppedKeyView>,
)
    ensures
        merge::shared_drops(raw, tier, dropped) == noted(dropped, shared_settings(raw), tier),
{
    let s0 = Seq::<Setting>::empty();
    let e0 = Setting { key: "restrict_to_project_root"@, set: raw.restrict_to_project_root is Some, reason: merge::USER_ONLY_REASON@ };
    lemma_noted_push(dropped, s0, e0, tier);
    let s1 = s0.push(e0);
    let e1 = Setting { key: "url_fetch_allow_private"@, set: raw.url_fetch_allow_private is Some, reason: merge::USER_ONLY_REASON@ };
    lemma_noted_push(dropped, s1, e1, tier);
    let s2 = s1.push(e1);
    let e2 = Setting { key: "formatter_timeout_secs"@, set: raw.formatter_timeout_secs is Some, reason: merge::USER_ONLY_REASON@ };
    lemma_noted_push(dropped, s2, e2, tier);
    let s3 = s2.push(e2);
    let e3 = Setting { key: "type_checker_timeout_secs"@, set: raw.type_checker_timeout_secs is Some, reason: merge::USER_ONLY_REASON@ };
    lemma_noted_push(dropped, s3, e3, tier);
    let s4 = s3.push(e3);
    let e4 = Setting { key: "auto_update"@, set: raw.auto_update is Some, reason: merge::USER_ONLY_REASON@ };
    lemma_noted_push(dropped, s4, e4, tier);
    let s5 = s4.push(e4);
    let e5 = Setting { key: "bridge"@, set: raw.bridge is Some, reason: merge::USER_ONLY_REASON@ };
    lemma_noted_push(dropped, s5, e5, tier);
    let s6 = s5.push(e5);
    let e6 = Setting { key: "subc"@, set: raw.subc is Some, reason: merge::USER_ONLY_REASON@ };
    lemma_noted_push(dropped, s6, e6, tier);
    let s7 = s6.push(e6);
    let e7 = Setting { key: "backup"@, set: raw.backup is Some, reason: merge::USER_ONLY_REASON@ };
    lemma_noted_push(dropped, s7, e7, tier);
    let s8 = s7.push(e7);
    let e8 = Setting { key: "gh_shim"@, set: raw.gh_shim is Some, reason: merge::USER_ONLY_REASON@ };
    lemma_noted_push(dropped, s8, e8, tier);
    let s9 = s8.push(e8);
    let e9 = Setting { key: "gh_read"@, set: raw.gh_read is Some, reason: merge::USER_ONLY_REASON@ };
    lemma_noted_push(dropped, s9, e9, tier);
    let s10 = s9.push(e9);
    assert(s10 =~= shared_settings(raw));
}

proof fn lemma_guarded_drops_are_noted(
    raw: RawAftConfigView,
    tier: Seq<char>,
    dropped: Seq<DroppedKeyView>,
)
    ensures
        merge::guarded_drops(raw, tier, dropped) == noted(dropped, guarded_settings(raw), tier),
{
    let s0 = Seq::<Setting>::empty();
    let e0 = Setting { key: "index.roots"@, set: raw.index is Some && raw.index->0.roots is Some, reason: merge::USER_ONLY_REASON@ };
    lemma_noted_push(dropped, s0, e0, tier);
    let s1 = s0.push(e0);
    let e1 = Setting { key: "index.resource_policy"@, set: raw.index is Some && raw.index->0.resource_policy is Some, reason: merge::USER_ONLY_REASON@ };
    lemma_noted_push(dropped, s1, e1, tier);
    let s2 = s1.push(e1);
    let e2 = Setting { key: "sandbox.enabled"@, set: raw.sandbox is Some && raw.sandbox->0.enabled == Some(false), reason: merge::USER_ONLY_REASON@ };
    lemma_noted_push(dropped, s2, e2, tier);
    let s3 = s2.push(e2);
    let e3 = Setting { key: "sandbox.write_allow"@, set: raw.sandbox is Some && raw.sandbox->0.write_allow is Some, reason: merge::USER_ONLY_REASON@ };
    lemma_noted_push(dropped, s3, e3, tier);
    let s4 = s3.push(e3);
    let e4 = Setting { key: "disabled_tools.aft_safety"@, set: raw.disabled_tools is Some && raw.disabled_tools->0.contains("aft_safety"@), reason: merge::USER_ONLY_REASON@ };
    lemma_noted_push(dropped, s4, e4, tier);
    let s5 = s4.push(e4);
    assert(s5 =~= guarded_settings(raw));
}

proof fn lemma_semantic_drops_are_noted(
    raw: RawAftConfigView,
    tier: Seq<char>,
    dropped: Seq<DroppedKeyView>,
)
    ensures
        merge::semantic_drops(raw, tier, dropped) == noted(dropped, semantic_settings(raw), tier),
{
    let s0 = Seq::<Setting>::empty();
    let e0 = Setting { key: "semantic.backend"@, set: raw.semantic is Some && raw.semantic->0.backend is Some, reason: merge::SEMANTIC_SECRET_REASON@ };
    lemma_noted_push(dropped, s0, e0, tier);
    let s1 = s0.push(e0);
    let e1 = Setting { key: "semantic.base_url"@, set: raw.semantic is Some && raw.semantic->0.base_url is Some, reason: merge::SEMANTIC_SECRET_REASON@ };
    lemma_noted_push(dropped, s1, e1, tier);
    let s2 = s1.push(e1);
    let e2 = Setting { key: "semantic.api_key_env"@, set: raw.semantic is Some && raw.semantic->0.api_key_env is Some, reason: merge::SEMANTIC_SECRET_REASON@ };
    lemma_noted_push(dropped, s2, e2, tier);
    let s3 = s2.push(e2);
    let e3 = Setting { key: "semantic.query_timeout_ms"@, set: raw.semantic is Some && raw.semantic->0.query_timeout_ms is Some, reason: merge::USER_ONLY_REASON@ };
    lemma_noted_push(dropped, s3, e3, tier);
    let s4 = s3.push(e3);
    assert(s4 =~= semantic_settings(raw));
}

proof fn lemma_lsp_drops_are_noted(
    raw: RawAftConfigView,
    tier: Seq<char>,
    dropped: Seq<DroppedKeyView>,
)
    ensures
        merge::lsp_drops(raw, tier, dropped) == noted(dropped, lsp_settings(raw), tier),
{
    let s0 = Seq::<Setting>::empty();
    let e0 = Setting { key: "lsp.servers"@, set: raw.lsp is Some && raw.lsp->0.servers is Some, reason: merge::LSP_USER_ONLY_REASON@ };
    lemma_noted_push(dropped, s0, e0, tier);
    let s1 = s0.push(e0);
    let e1 = Setting { key: "lsp.versions"@, set: raw.lsp is Some && raw.lsp->0.versions is Some, reason: merge::LSP_USER_ONLY_REASON@ };
    lemma_noted_push(dropped, s1, e1, tier);
    let s2 = s1.push(e1);
    let e2 = Setting { key: "lsp.auto_install"@, set: raw.lsp is Some && raw.lsp->0.auto_install is Some, reason: merge::LSP_USER_ONLY_REASON@ };
    lemma_noted_push(dropped, s2, e2, tier);
    let s3 = s2.push(e2);
    let e3 = Setting { key: "lsp.grace_days"@, set: raw.lsp is Some && raw.lsp->0.grace_days is Some, reason: merge::LSP_USER_ONLY_REASON@ };
    lemma_noted_push(dropped, s3, e3, tier);
    let s4 = s3.push(e3);
    let e4 = Setting { key: "lsp.disabled"@, set: raw.lsp is Some && raw.lsp->0.disabled is Some, reason: merge::LSP_USER_ONLY_REASON@ };
    lemma_noted_push(dropped, s4, e4, tier);
    let s5 = s4.push(e4);
    let e5 = Setting { key: "memory"@, set: raw.memory is Some, reason: merge::USER_ONLY_REASON@ };
    lemma_noted_push(dropped, s5, e5, tier);
    let s6 = s5.push(e5);
    assert(s6 =~= lsp_settings(raw));
}

pub(crate) proof fn lemma_recorded_drops_are_noted(
    raw: RawAftConfigView,
    tier: Seq<char>,
    dropped: Seq<DroppedKeyView>,
)
    ensures
        merge::drops_recorded(raw, tier, dropped) == noted(dropped, user_only_settings(raw), tier),
{
    let shared = shared_settings(raw);
    let guarded = guarded_settings(raw);
    let semantic = semantic_settings(raw);
    let lsp = lsp_settings(raw);
    let first = merge::shared_drops(raw, tier, dropped);
    let second = merge::guarded_drops(raw, tier, first);
    let third = merge::semantic_drops(raw, tier, second);
    lemma_shared_drops_are_noted(raw, tier, dropped);
    lemma_guarded_drops_are_noted(raw, tier, first);
    lemma_semantic_drops_are_noted(raw, tier, second);
    lemma_lsp_drops_are_noted(raw, tier, third);
    lemma_noted_in_turn(dropped, shared, guarded, tier);
    lemma_noted_in_turn(dropped, shared + guarded, semantic, tier);
    lemma_noted_in_turn(dropped, shared + guarded + semantic, lsp, tier);
}

pub(crate) proof fn lemma_noted_appends(
    dropped: Seq<DroppedKeyView>,
    settings: Seq<Setting>,
    tier: Seq<char>,
)
    ensures
        noted(dropped, settings, tier) == dropped + noted(Seq::empty(), settings, tier),
    decreases settings.len(),
{
    if settings.len() > 0 {
        lemma_noted_appends(dropped, settings.drop_last(), tier);
    }
    assert(noted(dropped, settings, tier) =~= dropped + noted(Seq::empty(), settings, tier));
}

/// Whether a list of drops names a key.
pub open spec fn names_key(dropped: Seq<DroppedKeyView>, key: Seq<char>) -> bool {
    exists|i: int| 0 <= i < dropped.len() && (#[trigger] dropped[i]).key == key
}

/// Whether a key is among those that a document sets.
pub open spec fn sets_key(settings: Seq<Setting>, key: Seq<char>) -> bool {
    exists|i: int|
        0 <= i < settings.len() && (#[trigger] settings[i]).set && settings[i].key == key
}

/// No two settings share a key.
pub open spec fn keys_differ(settings: Seq<Setting>) -> bool {
    forall|i: int, j: int|
        0 <= i < j < settings.len() ==> (#[trigger] settings[i]).key != (#[trigger] settings[j]).key
}

/// One entry for each key that is set, and no other, all naming the tier.
pub open spec fn one_entry_each(
    dropped: Seq<DroppedKeyView>,
    settings: Seq<Setting>,
    tier: Seq<char>,
) -> bool {
    &&& forall|i: int| 0 <= i < dropped.len() ==> (#[trigger] dropped[i]).tier == tier
    &&& forall|i: int, j: int|
        0 <= i < j < dropped.len() ==> (#[trigger] dropped[i]).key != (#[trigger] dropped[j]).key
    &&& forall|key: Seq<char>| #[trigger] names_key(dropped, key) <==> sets_key(settings, key)
}

pub(crate) proof fn lemma_one_entry_each(settings: Seq<Setting>, tier: Seq<char>)
    requires
        keys_differ(settings),
    ensures
        one_entry_each(noted(Seq::empty(), settings, tier), settings, tier),
    decreases settings.len(),
{
    let out = noted(Seq::empty(), settings, tier);
    if settings.len() > 0 {
        let front = settings.drop_last();
        let last = settings[settings.len() - 1];
        assert(forall|i: int| 0 <= i < front.len() ==> front[i] == settings[i]);
        lemma_one_entry_each(front, tier);
        let before = noted(Seq::empty(), front, tier);
        assert(!sets_key(front, last.key));
        assert(!names_key(before, last.key));
        assert forall|key: Seq<char>| #[trigger] names_key(out, key) <==> sets_key(
            settings,
            key,
        ) by {
            assert(names_key(before, key) <==> sets_key(front, key));
            if names_key(before, key) {
                let i = choose|i: int| 0 <= i < before.len() && (#[trigger] before[i]).key == key;
                assert(out[i] == before[i]);
            }
            if sets_key(front, key) {
                let i = choose|i: int|
                    0 <= i < front.len() && (#[trigger] front[i]).set && front[i].key == key;
                assert(settings[i] == front[i]);
            }
            if last.set {
                assert(out[before.len() as int].key == last.key);
            }
            if names_key(out, key) {
                let i = choose|i: int| 0 <= i < out.len() && (#[trigger] out[i]).key == key;
                if i < before.len() {
                    assert(before[i].key == key);
                }
            }
            if sets_key(settings, key) {
                let i = choose|i: int|
                    0 <= i < settings.len() && (#[trigger] settings[i]).set && settings[i].key
                        == key;
                if i < front.len() {
                    assert(front[i].set && front[i].key == key);
                }
            }
        }
        assert forall|i: int, j: int| 0 <= i < j < out.len() implies (#[trigger] out[i]).key != (
        #[trigger] out[j]).key by {
            assert(out[i] == before[i]);
            if j < before.len() {
                assert(out[j] == before[j]);
            } else {
                assert(names_key(before, before[i].key));
            }
        }
    } else {
        assert forall|key: Seq<char>| #[trigger] names_key(out, key) <==> sets_key(
            settings,
            key,
        ) by {}
    }
}

/// The place of a key among the settings that only the user tier may decide.
spec fn key_place(key: Seq<char>) -> int {
    if key == "restrict_to_project_root"@ {
        0
    } else if key == "url_fetch_allow_private"@ {
        1
    } else if key == "formatter_timeout_secs"@ {
        2
    } else if key == "type_checker_timeout_secs"@ {
        3
    } else if key == "auto_update"@ {
        4
    } else if key == "bridge"@ {
        5
    } else if key == "subc"@ {
        6
    } else if key == "backup"@ {
        7
    } else if key == "gh_shim"@ {
        8
    } else if key == "gh_read"@ {
        9
    } else if key == "index.roots"@ {
        10
    } else if key == "index.resource_policy"@ {
        11
    } else if key == "sandbox.enabled"@ {
        12
    } else if key == "sandbox.write_allow"@ {
        13
    } else if key == "disabled_tools.aft_safety"@ {
        14
    } else if key == "semantic.backend"@ {
        15
    } else if key == "semantic.base_url"@ {
        16
    } else if key == "semantic.api_key_env"@ {
        17
    } else if key == "semantic.query_timeout_ms"@ {
        18
    } else if key == "lsp.servers"@ {
        19
    } else if key == "lsp.versions"@ {
        20
    } else if key == "lsp.auto_install"@ {
        21
    } else if key == "lsp.grace_days"@ {
        22
    } else if key == "lsp.disabled"@ {
        23
    } else if key == "memory"@ {
        24
    } else {
        -1
    }
}

proof fn lemma_key_places()
    ensures
        key_place("restrict_to_project_root"@) == 0,
        key_place("url_fetch_allow_private"@) == 1,
        key_place("formatter_timeout_secs"@) == 2,
        key_place("type_checker_timeout_secs"@) == 3,
        key_place("auto_update"@) == 4,
        key_place("bridge"@) == 5,
        key_place("subc"@) == 6,
        key_place("backup"@) == 7,
        key_place("gh_shim"@) == 8,
        key_place("gh_read"@) == 9,
        key_place("index.roots"@) == 10,
        key_place("index.resource_policy"@) == 11,
        key_place("sandbox.enabled"@) == 12,
        key_place("sandbox.write_allow"@) == 13,
        key_place("disabled_tools.aft_safety"@) == 14,
        key_place("semantic.backend"@) == 15,
        key_place("semantic.base_url"@) == 16,
        key_place("semantic.api_key_env"@) == 17,
        key_place("semantic.query_timeout_ms"@) == 18,
        key_place("lsp.servers"@) == 19,
        key_place("lsp.versions"@) == 20,
        key_place("lsp.auto_install"@) == 21,
        key_place("lsp.grace_days"@) == 22,
        key_place("lsp.disabled"@) == 23,
        key_place("memory"@) == 24,
{
    reveal_strlit("restrict_to_project_root");
    assert("restrict_to_project_root"@.len() == 24);
    reveal_strlit("url_fetch_allow_private");
    assert("url_fetch_allow_private"@.len() == 23);
    reveal_strlit("formatter_timeout_secs");
    assert("formatter_timeout_secs"@.len() == 22);
    reveal_strlit("type_checker_timeout_secs");
    assert("type_checker_timeout_secs"@.len() == 25);
    reveal_strlit("auto_update");
    assert("auto_update"@.len() == 11);
    reveal_strlit("bridge");
    assert("bridge"@.len() == 6);
    reveal_strlit("subc");
    assert("subc"@.len() == 4);
    reveal_strlit("backup");
    assert("backup"@.len() == 6);
    reveal_strlit("gh_shim");
    assert("gh_shim"@.len() == 7);
    reveal_strlit("gh_read");
    assert("gh_read"@.len() == 7);
    reveal_strlit("index.roots");
    assert("index.roots"@.len() == 11);
    reveal_strlit("index.resource_policy");
    assert("index.resource_policy"@.len() == 21);
    reveal_strlit("sandbox.enabled");
    assert("sandbox.enabled"@.len() == 15);
    reveal_strlit("sandbox.write_allow");
    assert("sandbox.write_allow"@.len() == 19);
    reveal_strlit("disabled_tools.aft_safety");
    assert("disabled_tools.aft_safety"@.len() == 25);
    reveal_strlit("semantic.backend");
    assert("semantic.backend"@.len() == 16);
    reveal_strlit("semantic.base_url");
    assert("semantic.base_url"@.len() == 17);
    reveal_strlit("semantic.api_key_env");
    assert("semantic.api_key_env"@.len() == 20);
    reveal_strlit("semantic.query_timeout_ms");
    assert("semantic.query_timeout_ms"@.len() == 25);
    reveal_strlit("lsp.servers");
    assert("lsp.servers"@.len() == 11);
    reveal_strlit("lsp.versions");
    assert("lsp.versions"@.len() == 12);
    reveal_strlit("lsp.auto_install");
    assert("lsp.auto_install"@.len() == 16);
    reveal_strlit("lsp.grace_days");
    assert("lsp.grace_days"@.len() == 14);
    reveal_strlit("lsp.disabled");
    assert("lsp.disabled"@.len() == 12);
    reveal_strlit("memory");
    assert("memory"@.len() == 6);
    assert("type_checker_timeout_secs"@[0] != "disabled_tools.aft_safety"@[0]);
    assert("type_checker_timeout_secs"@[0] != "semantic.query_timeout_ms"@[0]);
    assert("auto_update"@[0] != "index.roots"@[0]);
    assert("auto_update"@[0] != "lsp.servers"@[0]);
    assert("bridge"@[1] != "backup"@[1]);
    assert("bridge"@[0] != "memory"@[0]);
    assert("backup"@[0] != "memory"@[0]);
    assert("gh_shim"@[3] != "gh_read"@[3]);
    assert("index.roots"@[0] != "lsp.servers"@[0]);
    assert("disabled_tools.aft_safety"@[0] != "semantic.query_timeout_ms"@[0]);
    assert("semantic.backend"@[0] != "lsp.auto_install"@[0]);
    assert("lsp.versions"@[4] != "lsp.disabled"@[4]);
}

pub(crate) proof fn lemma_user_only_keys_differ(raw: RawAftConfigView)
    ensures
        keys_differ(user_only_settings(raw)),
{
    lemma_key_places();
    let settings = user_only_settings(raw);
    assert(forall|i: int| 0 <= i < 10 ==> settings[i] == #[trigger] shared_settings(raw)[i]);
    assert(forall|i: int| 0 <= i < 5 ==> settings[i + 10] == #[trigger] guarded_settings(raw)[i]);
    assert(forall|i: int| 0 <= i < 4 ==> settings[i + 15] == #[trigger] semantic_settings(raw)[i]);
    assert(forall|i: int| 0 <= i < 6 ==> settings[i + 19] == #[trigger] lsp_settings(raw)[i]);
    assert forall|i: int| 0 <= i < settings.len() implies key_place((#[trigger] settings[i]).key)
        == i by {
        assert(shared_settings(raw)[0].key == "restrict_to_project_root"@);
        assert(shared_settings(raw)[1].key == "url_fetch_allow_private"@);
        assert(shared_settings(raw)[2].key == "formatter_timeout_secs"@);
        assert(shared_settings(raw)[3].key == "type_checker_timeout_secs"@);
        assert(shared_settings(raw)[4].key == "auto_update"@);
        assert(shared_settings(raw)[5].key == "bridge"@);
        assert(shared_settings(raw)[6].key == "subc"@);
        assert(shared_settings(raw)[7].key == "backup"@);
        assert(shared_settings(raw)[8].key == "gh_shim"@);
        assert(shared_settings(raw)[9].key == "gh_read"@);
        assert(guarded_settings(raw)[0].key == "index.roots"@);
        assert(guarded_settings(raw)[1].key == "index.resource_policy"@);
        assert(guarded_settings(raw)[2].key == "sandbox.enabled"@);
        assert(guarded_settings(raw)[3].key == "sandbox.write_allow"@);
        assert(guarded_settings(raw)[4].key == "disabled_tools.aft_safety"@);
        assert(semantic_settings(raw)[0].key == "semantic.backend"@);
        assert(semantic_settings(raw)[1].key == "semantic.base_url"@);
        assert(semantic_settings(raw)[2].key == "semantic.api_key_env"@);
        assert(semantic_settings(raw)[3].key == "semantic.query_timeout_ms"@);
        assert(lsp_settings(raw)[0].key == "lsp.servers"@);
        assert(lsp_settings(raw)[1].key == "lsp.versions"@);
        assert(lsp_settings(raw)[2].key == "lsp.auto_install"@);
        assert(lsp_settings(raw)[3].key == "lsp.grace_days"@);
        assert(lsp_settings(raw)[4].key == "lsp.disabled"@);
        assert(lsp_settings(raw)[5].key == "memory"@);
    }
}

/// A document that sets nothing but what only the user tier may decide.
pub open spec fn sets_only_user_only(raw: RawAftConfigView) -> bool {
    &&& raw == RawAftConfigView {
        restrict_to_project_root: raw.restrict_to_project_root,
        url_fetch_allow_private: raw.url_fetch_allow_private,
        formatter_timeout_secs: raw.formatter_timeout_secs,
        type_checker_timeout_secs: raw.type_checker_timeout_secs,
        auto_update: raw.auto_update,
        bridge: raw.bridge,
        subc: raw.subc,
        backup: raw.backup,
        gh_shim: raw.gh_shim,
        gh_read: raw.gh_read,
        memory: raw.memory,
        index: raw.index,
        sandbox: raw.sandbox,
        semantic: raw.semantic,
        lsp: raw.lsp,
        ..raw::unset_aft_config()
    }
    &&& raw.sandbox matches Some(sandbox) ==> sandbox.enabled != Some(true) && sandbox.read_deny is
        None
    &&& raw.semantic matches Some(semantic) ==> semantic.model is None && semantic.timeout_ms is
        None && semantic.max_batch_size is None && semantic.max_files is None
    &&& raw.lsp matches Some(lsp) ==> lsp.python is None && lsp.diagnostics_on_edit is None
}

proof fn lemma_user_only_document_resolves_to_its_base(
    platform: Platform,
    base: RawAftConfigView,
    raw: RawAftConfigView,
    config: ConfigView,
)
    requires
        sets_only_user_only(raw),
    ensures
        merge::project_laid(platform, base, raw).index == base.index,
        config_resolve::applied(merge::project_laid(platform, base, raw), config) == config_resolve::applied(
            base,
            config,
        ),
{
    reveal(merge::or_else);
    reveal(config_resolve::servers_applied);
    reveal(config_resolve::disabled_applied);
    let laid = merge::project_laid(platform, base, raw);
    assert(config_resolve::semantic_resolved(laid.semantic, laid.subc)
        == config_resolve::semantic_resolved(base.semantic, base.subc));
    assert(config_resolve::sandbox_resolved(laid.sandbox) == config_resolve::sandbox_resolved(
        base.sandbox,
    ));
    assert(config_resolve::disabled_servers(laid) == config_resolve::disabled_servers(base));
    assert(config_resolve::bash_resolved(laid) == config_resolve::bash_resolved(base));
}

/// A document of another tier than the user's that sets nothing but what only the user tier may
/// decide leaves the whole configuration as it is without it. Each such key that it sets is
/// recorded as dropped, once and with its tier.
pub proof fn law_user_only_document_changes_nothing(
    tiers: Seq<ParsedTierView>,
    tier: ParsedTierView,
    harness: Option<Harness>,
    host: HostView,
)
    requires
        tier.tier != "user"@,
        config_resolve::document_config(tier.document) matches Some(raw) && sets_only_user_only(
            raw,
        ),
    ensures
        ({
            let raw = config_resolve::document_config(tier.document)->0;
            let before = config_resolve::resolved(tiers, harness, host);
            let after = config_resolve::resolved(tiers.push(tier), harness, host);
            let added = noted(Seq::empty(), user_only_settings(raw), tier.tier);
            &&& after.config == before.config
            &&& after.warnings == before.warnings
            &&& after.dropped == before.dropped + added
            &&& one_entry_each(added, user_only_settings(raw), tier.tier)
        }),
{
    assert(tiers.push(tier).drop_last() =~= tiers);
    let raw = config_resolve::document_config(tier.document)->0;
    let state = config_resolve::tiers_applied(host.platform, tiers, harness);
    let next = config_resolve::tiers_applied(host.platform, tiers.push(tier), harness);
    lemma_user_only_document_resolves_to_its_base(host.platform, state.merged, raw, ConfigView::default_view());
    lemma_recorded_drops_are_noted(raw, tier.tier, state.dropped);
    lemma_noted_appends(state.dropped, user_only_settings(raw), tier.tier);
    lemma_user_only_keys_differ(raw);
    lemma_one_entry_each(user_only_settings(raw), tier.tier);
    assert(config_resolve::overridden(raw, harness, tier.tier) == (
        raw,
        Seq::<config_resolve::ConfigWarningView>::empty(),
    ));
    assert(next.warnings =~= state.warnings);
}

/// `list` begins with all of `start`.
pub open spec fn extends_list(list: Seq<Seq<char>>, start: Seq<Seq<char>>) -> bool {
    start.len() <= list.len() && list.take(start.len() as int) == start
}

proof fn lemma_appended_extends(platform: Platform, list: Seq<Seq<char>>, more: Seq<Seq<char>>)
    ensures
        extends_list(merge::paths_appended(platform, list, more), list),
    decreases more.len(),
{
    if more.len() > 0 {
        lemma_appended_extends(platform, list, more.drop_last());
        let before = merge::paths_appended(platform, list, more.drop_last());
        assert(before.push(more.last()).take(list.len() as int) =~= before.take(list.len() as int));
    } else {
        assert(list.take(list.len() as int) =~= list);
    }
}

/// A project can only harden the sandbox: what was on stays on, every denied read stays denied,
/// and no write is allowed on top.
pub proof fn law_project_only_hardens_sandbox(
    platform: Platform,
    base: Option<RawSandboxView>,
    project: Option<RawSandboxView>,
)
    ensures
        ({
            let before = config_resolve::sandbox_resolved(base);
            let after = config_resolve::sandbox_resolved(merge::sandbox_merged(platform, base, project));
            &&& before.enabled ==> after.enabled
            &&& after.write_allow == before.write_allow
            &&& extends_list(after.read_deny, before.read_deny)
        }),
{
    let before = config_resolve::sandbox_resolved(base);
    assert(before.read_deny.take(before.read_deny.len() as int) =~= before.read_deny);
    if let Some(section) = project {
        let start = merge::or_value(base, raw::unset_sandbox());
        if let Some(denies) = section.read_deny {
            lemma_appended_extends(platform, merge::or_value(start.read_deny, Seq::empty()), denies);
        }
    }
}

/// A project may ask for more time for diagnostics, never for less.
pub proof fn law_project_only_raises_diagnostics_timeout(
    base: Option<RawInspectView>,
    project: Option<RawInspectView>,
)
    ensures
        config_resolve::inspect_resolved(merge::inspect_merged(base, project)).diagnostics_timeout_ms
            >= config_resolve::inspect_resolved(base).diagnostics_timeout_ms,
{
}

/// A tier other than the user's can neither weaken the sandbox nor shorten the diagnostics
/// deadline of the configuration that the tiers before it gave.
pub proof fn law_untrusted_tier_cannot_weaken(
    tiers: Seq<ParsedTierView>,
    tier: ParsedTierView,
    harness: Option<Harness>,
    host: HostView,
)
    requires
        tier.tier != "user"@,
    ensures
        ({
            let before = config_resolve::resolved(tiers, harness, host).config;
            let after = config_resolve::resolved(tiers.push(tier), harness, host).config;
            &&& before.sandbox.enabled ==> after.sandbox.enabled
            &&& after.sandbox.write_allow == before.sandbox.write_allow
            &&& extends_list(after.sandbox.read_deny, before.sandbox.read_deny)
            &&& after.inspect.diagnostics_timeout_ms >= before.inspect.diagnostics_timeout_ms
        }),
{
    assert(tiers.push(tier).drop_last() =~= tiers);
    let state = config_resolve::tiers_applied(host.platform, tiers, harness).merged;
    law_project_only_hardens_sandbox(host.platform, state.sandbox, None);
    law_project_only_raises_diagnostics_timeout(state.inspect, None);
    if let Some(raw) = config_resolve::document_config(tier.document) {
        let project = config_resolve::overridden(raw, harness, tier.tier).0;
        law_project_only_hardens_sandbox(host.platform, state.sandbox, project.sandbox);
        law_project_only_raises_diagnostics_timeout(state.inspect, project.inspect);
    }
}

/// Whatever the tiers say, the budgets of the resolved configuration stay within their limits.
pub proof fn law_budgets_stay_within_limits(
    tiers: Seq<ParsedTierView>,
    harness: Option<Harness>,
    host: HostView,
)
    ensures
        ({
            let config = config_resolve::resolved(tiers, harness, host).config;
            &&& 500 <= config.semantic.query_timeout_ms <= 15_000
            &&& config.semantic.timeout_ms <= 120_000
            &&& config.semantic.max_batch_size <= 1_024
            &&& 10_000 <= config.inspect.diagnostics_timeout_ms <= 600_000
            &&& config.foreground_wait_window_ms >= 5_000
        }),
{
}

/// Families stand in their fixed order, each at most once, and semantic search never without the
/// search index.
pub open spec fn are_normal_kinds(kinds: Seq<IndexKind>) -> bool {
    &&& kinds.len() <= 3
    &&& forall|i: int, j: int|
        0 <= i < j < kinds.len() ==> kind_rank(#[trigger] kinds[i]) < kind_rank(
            #[trigger] kinds[j],
        )
    &&& kinds.contains(IndexKind::Semantic) ==> kinds.contains(IndexKind::Search)
}

pub open spec fn kind_rank(kind: IndexKind) -> int {
    match kind {
        IndexKind::Search => 0,
        IndexKind::Semantic => 1,
        IndexKind::Callgraph => 2,
    }
}

/// Normalizing keeps what was selected, and yields families in order and closed under what they
/// depend on.
pub proof fn law_kinds_are_normalized(kinds: Seq<IndexKind>)
    ensures
        are_normal_kinds(config_resolve::normalized_kinds(kinds)),
        forall|kind: IndexKind| #[trigger]
            kinds.contains(kind) ==> config_resolve::normalized_kinds(kinds).contains(kind),
        forall|kind: IndexKind| #[trigger]
            config_resolve::normalized_kinds(kinds).contains(kind) ==> kinds.contains(kind) || (kind
                == IndexKind::Search && kinds.contains(IndexKind::Semantic)),
{
    let out = config_resolve::normalized_kinds(kinds);
    assert forall|kind: IndexKind| #[trigger] kinds.contains(kind) implies out.contains(kind) by {
        match kind {
            IndexKind::Search => assert(out[0] == kind),
            IndexKind::Semantic => assert(out[1] == kind),
            IndexKind::Callgraph => assert(out.last() == kind),
        }
    }
    if out.contains(IndexKind::Semantic) {
        assert(kinds.contains(IndexKind::Semantic));
        assert(out[0] == IndexKind::Search);
    }
}

/// A maintained root has a path that expands to an absolute one, and normalized families.
pub open spec fn is_valid_root(root: IndexRootConfigView, host: HostView) -> bool {
    &&& config::expanded_root(root.path, host) is Ok
    &&& are_normal_kinds(root.indexes)
}

/// Every root of the resolved configuration is valid.
pub proof fn law_resolved_roots_are_valid(raw: Option<RawIndexView>, host: HostView)
    ensures
        forall|i: int|
            0 <= i < config_resolve::index_resolved(raw, host).0.roots.len() ==> is_valid_root(
                #[trigger] config_resolve::index_resolved(raw, host).0.roots[i],
                host,
            ),
{
    if let Some(section) = raw {
        if let Some(roots) = section.roots {
            lemma_roots_valid(roots, host);
        }
    }
}

proof fn lemma_roots_valid(roots: Seq<RawIndexRootView>, host: HostView)
    ensures
        match config_resolve::roots_resolved(roots, host).0 {
            Some(done) => forall|i: int|
                0 <= i < done.len() ==> is_valid_root(#[trigger] done[i], host),
            None => true,
        },
    decreases roots.len(),
{
    if roots.len() > 0 {
        lemma_roots_valid(roots.drop_last(), host);
        if let Ok(kinds) = config_resolve::root_kinds(roots.last(), host) {
            law_kinds_are_normalized(kinds);
        }
    }
}

} // verus!
