//! What resolving promises of each setting.

use vstd::prelude::*;

use crate::config;
use crate::config::{
    ConfigView, Harness, HostView, IndexKind, IndexResourcePolicy, Platform, SemanticBackend,
};
use crate::config_resolve;
use crate::config_resolve::ParsedTierView;
use crate::decode::Decode;
use crate::json::JsonView;
use crate::merge;
use crate::merge_laws;
use crate::merge_laws::{later_wins, says};
use crate::raw;
use crate::raw::{
    RawAftConfig, RawAftConfigView, RawBackup, RawBash, RawChecker, RawEditModeView, RawFormatter,
    RawGhRead, RawGhShimView, RawGitView, RawIndexRootView, RawIndexView, RawInspectView,
    RawLspServerEntryView, RawMemory, RawPythonLsp, RawSandboxView, RawSemanticView, RawSubcView,
    RawToolSurface, RawWorktree,
};
use crate::text;
use crate::text_map;

verus! {

/// What is set comes out; where nothing is set, the fallback does.
pub open spec fn set_comes_out<T>(set: Option<T>, fallback: T, out: T) -> bool {
    &&& set matches Some(value) ==> out == value
    &&& set is None ==> out == fallback
}

/// A merged document decides each switch that it sets; every other keeps its value. The hashline
/// surface is chosen exactly where the document names it.
pub proof fn law_switches_come_from_the_document(document: RawAftConfigView, config: ConfigView)
    ensures
        ({
            let out = config_resolve::applied(document, config);
            &&& set_comes_out(document.hoist_builtin_tools, config.hoist_builtin_tools, out.hoist_builtin_tools)
            &&& set_comes_out(document.format_on_edit, config.format_on_edit, out.format_on_edit)
            &&& set_comes_out(document.formatter_timeout_secs, config.formatter_timeout_secs, out.formatter_timeout_secs)
            &&& set_comes_out(document.type_checker_timeout_secs, config.type_checker_timeout_secs, out.type_checker_timeout_secs)
            &&& set_comes_out(document.restrict_to_project_root, config.restrict_to_project_root, out.restrict_to_project_root)
            &&& set_comes_out(document.search_index, config.search_index, out.search_index)
            &&& set_comes_out(document.semantic_search, config.semantic_search, out.semantic_search)
            &&& set_comes_out(document.callgraph_store, config.callgraph_store, out.callgraph_store)
            &&& set_comes_out(document.callgraph_chunk_size, config.callgraph_chunk_size, out.callgraph_chunk_size)
            &&& set_comes_out(document.url_fetch_allow_private, config.url_fetch_allow_private, out.url_fetch_allow_private)
            &&& out.hashline_enabled == (document.edit_mode == Some(RawEditModeView::Hashline))
            &&& document.validate_on_edit is None ==> out.validate_on_edit
                == config.validate_on_edit
            &&& document.validate_on_edit matches Some(value) ==> out.validate_on_edit == Some(
                value.name(),
            )
        }),
{
    reveal(config_resolve::set_or);
    reveal(config_resolve::validation_applied);
}

/// A document says nothing about the running process: what describes it stays as it was, and a
/// reset takes exactly that from the configuration before, and everything else from the tiers.
pub proof fn law_process_state_is_no_setting(
    document: RawAftConfigView,
    config: ConfigView,
    resolved: ConfigView,
)
    ensures
        ({
            let out = config_resolve::applied(document, config);
            &&& out.project_root == config.project_root
            &&& out.harness == config.harness
            &&& out.validation_depth == config.validation_depth
            &&& out.checkpoint_ttl_hours == config.checkpoint_ttl_hours
            &&& out.max_symbol_depth == config.max_symbol_depth
            &&& out.diagnostic_cache_size == config.diagnostic_cache_size
            &&& out.aft_search_registered == config.aft_search_registered
            &&& out.max_background_bash_tasks == config.max_background_bash_tasks
            &&& out.bash_permissions == config.bash_permissions
            &&& out.search_index_max_file_size == config.search_index_max_file_size
            &&& out.storage_dir == config.storage_dir
            &&& out.lsp_paths_extra == config.lsp_paths_extra
            &&& out.lsp_auto_install_binaries == config.lsp_auto_install_binaries
            &&& out.lsp_inflight_installs == config.lsp_inflight_installs
            &&& out.index == config.index
        }),
        ({
            let out = config_resolve::process_state_carried(config, resolved);
            &&& out.project_root == config.project_root
            &&& out.harness == config.harness
            &&& out.validation_depth == config.validation_depth
            &&& out.checkpoint_ttl_hours == config.checkpoint_ttl_hours
            &&& out.max_symbol_depth == config.max_symbol_depth
            &&& out.diagnostic_cache_size == config.diagnostic_cache_size
            &&& out.aft_search_registered == config.aft_search_registered
            &&& out.max_background_bash_tasks == config.max_background_bash_tasks
            &&& out.bash_permissions == config.bash_permissions
            &&& out.search_index_max_file_size == config.search_index_max_file_size
            &&& out.storage_dir == config.storage_dir
            &&& out.lsp_paths_extra == config.lsp_paths_extra
            &&& out.lsp_auto_install_binaries == config.lsp_auto_install_binaries
            &&& out.lsp_inflight_installs == config.lsp_inflight_installs
            &&& out.formatter_timeout_secs == resolved.formatter_timeout_secs
            &&& out.type_checker_timeout_secs == resolved.type_checker_timeout_secs
            &&& out.format_on_edit == resolved.format_on_edit
            &&& out.hashline_enabled == resolved.hashline_enabled
            &&& out.validate_on_edit == resolved.validate_on_edit
            &&& out.formatter == resolved.formatter
            &&& out.checker == resolved.checker
            &&& out.restrict_to_project_root == resolved.restrict_to_project_root
            &&& out.search_index == resolved.search_index
            &&& out.index == resolved.index
            &&& out.semantic_search == resolved.semantic_search
            &&& out.callgraph_store == resolved.callgraph_store
            &&& out.callgraph_chunk_size == resolved.callgraph_chunk_size
            &&& out.experimental_bash_rewrite == resolved.experimental_bash_rewrite
            &&& out.experimental_bash_compress == resolved.experimental_bash_compress
            &&& out.experimental_bash_background == resolved.experimental_bash_background
            &&& out.bash_long_running_reminder_enabled == resolved.bash_long_running_reminder_enabled
            &&& out.bash_long_running_reminder_interval_ms == resolved.bash_long_running_reminder_interval_ms
            &&& out.foreground_wait_window_ms == resolved.foreground_wait_window_ms
            &&& out.bash == resolved.bash
            &&& out.sandbox == resolved.sandbox
            &&& out.semantic == resolved.semantic
            &&& out.inspect == resolved.inspect
            &&& out.backup == resolved.backup
            &&& out.memory == resolved.memory
            &&& out.worktree == resolved.worktree
            &&& out.gh_shim == resolved.gh_shim
            &&& out.gh_read == resolved.gh_read
            &&& out.git == resolved.git
            &&& out.experimental_lsp_ty == resolved.experimental_lsp_ty
            &&& out.lsp_servers == resolved.lsp_servers
            &&& out.disabled_lsp == resolved.disabled_lsp
            &&& out.diagnostics_on_edit == resolved.diagnostics_on_edit
            &&& out.url_fetch_allow_private == resolved.url_fetch_allow_private
            &&& out.hoist_builtin_tools == resolved.hoist_builtin_tools
        }),
{
}

/// A reset is what the tiers resolve to, with the process state carried over.
pub proof fn law_reset_resolves_the_tiers(
    base: ConfigView,
    tiers: Seq<ParsedTierView>,
    harness: Option<Harness>,
    host: HostView,
)
    ensures
        ({
            let out = config_resolve::reset_config(base, tiers, harness, host);
            let fresh = config_resolve::resolved(tiers, harness, host).config;
            &&& out.project_root == base.project_root
            &&& out.harness == base.harness
            &&& out.validation_depth == base.validation_depth
            &&& out.checkpoint_ttl_hours == base.checkpoint_ttl_hours
            &&& out.max_symbol_depth == base.max_symbol_depth
            &&& out.diagnostic_cache_size == base.diagnostic_cache_size
            &&& out.aft_search_registered == base.aft_search_registered
            &&& out.max_background_bash_tasks == base.max_background_bash_tasks
            &&& out.bash_permissions == base.bash_permissions
            &&& out.search_index_max_file_size == base.search_index_max_file_size
            &&& out.storage_dir == base.storage_dir
            &&& out.lsp_paths_extra == base.lsp_paths_extra
            &&& out.lsp_auto_install_binaries == base.lsp_auto_install_binaries
            &&& out.lsp_inflight_installs == base.lsp_inflight_installs
            &&& out.formatter_timeout_secs == fresh.formatter_timeout_secs
            &&& out.type_checker_timeout_secs == fresh.type_checker_timeout_secs
            &&& out.format_on_edit == fresh.format_on_edit
            &&& out.hashline_enabled == fresh.hashline_enabled
            &&& out.validate_on_edit == fresh.validate_on_edit
            &&& out.formatter == fresh.formatter
            &&& out.checker == fresh.checker
            &&& out.restrict_to_project_root == fresh.restrict_to_project_root
            &&& out.search_index == fresh.search_index
            &&& out.index == fresh.index
            &&& out.semantic_search == fresh.semantic_search
            &&& out.callgraph_store == fresh.callgraph_store
            &&& out.callgraph_chunk_size == fresh.callgraph_chunk_size
            &&& out.experimental_bash_rewrite == fresh.experimental_bash_rewrite
            &&& out.experimental_bash_compress == fresh.experimental_bash_compress
            &&& out.experimental_bash_background == fresh.experimental_bash_background
            &&& out.bash_long_running_reminder_enabled == fresh.bash_long_running_reminder_enabled
            &&& out.bash_long_running_reminder_interval_ms == fresh.bash_long_running_reminder_interval_ms
            &&& out.foreground_wait_window_ms == fresh.foreground_wait_window_ms
            &&& out.bash == fresh.bash
            &&& out.sandbox == fresh.sandbox
            &&& out.semantic == fresh.semantic
            &&& out.inspect == fresh.inspect
            &&& out.backup == fresh.backup
            &&& out.memory == fresh.memory
            &&& out.worktree == fresh.worktree
            &&& out.gh_shim == fresh.gh_shim
            &&& out.gh_read == fresh.gh_read
            &&& out.git == fresh.git
            &&& out.experimental_lsp_ty == fresh.experimental_lsp_ty
            &&& out.lsp_servers == fresh.lsp_servers
            &&& out.disabled_lsp == fresh.disabled_lsp
            &&& out.diagnostics_on_edit == fresh.diagnostics_on_edit
            &&& out.url_fetch_allow_private == fresh.url_fetch_allow_private
            &&& out.hoist_builtin_tools == fresh.hoist_builtin_tools
        }),
{
}

proof fn lemma_names_read(
    formatters: Seq<(Seq<char>, RawFormatter)>,
    checkers: Seq<(Seq<char>, RawChecker)>,
    key: Seq<char>,
)
    ensures
        text_map::map_get(config_resolve::formatter_names(formatters), key) == (
        match text_map::map_get(formatters, key) {
            Some(tool) => Some(tool.name()),
            None => None,
        }),
        text_map::map_get(config_resolve::checker_names(checkers), key) == (match text_map::map_get(
            checkers,
            key,
        ) {
            Some(tool) => Some(tool.name()),
            None => None,
        }),
    decreases formatters.len() + checkers.len(),
{
    if formatters.len() > 0 {
        assert(config_resolve::formatter_names(formatters).drop_first()
            =~= config_resolve::formatter_names(formatters.drop_first()));
        lemma_names_read(formatters.drop_first(), checkers, key);
    } else if checkers.len() > 0 {
        assert(config_resolve::checker_names(checkers).drop_first()
            =~= config_resolve::checker_names(checkers.drop_first()));
        lemma_names_read(formatters, checkers.drop_first(), key);
    }
}

/// The tool of a language is the one that the merged document names for it, under its own name;
/// where the document names no tools at all, the earlier ones stay.
pub proof fn law_tools_come_from_the_document(
    document: RawAftConfigView,
    config: ConfigView,
    language: Seq<char>,
)
    ensures
        ({
            let out = config_resolve::applied(document, config);
            &&& document.formatter is None ==> out.formatter == config.formatter
            &&& document.formatter matches Some(map) ==> text_map::map_get(out.formatter, language)
                == (match text_map::map_get(map, language) {
                Some(tool) => Some(tool.name()),
                None => None,
            })
            &&& document.checker is None ==> out.checker == config.checker
            &&& document.checker matches Some(map) ==> text_map::map_get(out.checker, language) == (
            match text_map::map_get(map, language) {
                Some(tool) => Some(tool.name()),
                None => None,
            })
        }),
{
    reveal(config_resolve::formatters_applied);
    reveal(config_resolve::checkers_applied);
    let formatters = match document.formatter {
        Some(map) => map,
        None => Seq::empty(),
    };
    let checkers = match document.checker {
        Some(map) => map,
        None => Seq::empty(),
    };
    lemma_names_read(formatters, checkers, language);
}

/// A number within limits stays as it is, and one outside counts as the nearest limit.
pub proof fn law_clamping_moves_to_the_nearest_limit(value: u64, least: u64, most: u64)
    requires
        least <= most,
    ensures
        least <= value <= most ==> config_resolve::clamped(value, least, most) == value,
        value < least ==> config_resolve::clamped(value, least, most) == least,
        value > most ==> config_resolve::clamped(value, least, most) == most,
{
}

/// The semantic settings come out as they are set, budgets within their limits; what is not set
/// has its default. Synapse has no default model. The connection file is trimmed, and an empty
/// one counts as none.
pub proof fn law_semantic_settings_come_out(
    section: Option<RawSemanticView>,
    subc: Option<RawSubcView>,
)
    ensures
        ({
            let out = config_resolve::semantic_resolved(section, subc);
            let file = (match subc { Some(s) => s.connection_file, None => None });
            &&& section matches Some(s) ==> {
                &&& set_comes_out(s.backend, SemanticBackend::Fastembed, out.backend)
                &&& out.base_url == s.base_url
                &&& out.api_key_env == s.api_key_env
                &&& set_comes_out(s.max_files, 20_000usize, out.max_files)
                &&& s.model matches Some(model) ==> out.model == model
                &&& (s.model is None && s.backend == Some(SemanticBackend::Synapse))
                    ==> out.model.len() == 0
                &&& (s.model is None && s.backend != Some(SemanticBackend::Synapse)) ==> out.model
                    == "all-MiniLM-L6-v2"@
                &&& s.timeout_ms is None ==> out.timeout_ms == 25_000
                &&& s.timeout_ms matches Some(ms) ==> out.timeout_ms == (if ms <= 120_000 {
                    ms
                } else {
                    120_000
                })
                &&& s.query_timeout_ms is None ==> out.query_timeout_ms == 3_000
                &&& s.query_timeout_ms matches Some(ms) ==> {
                    &&& 500 <= ms <= 15_000 ==> out.query_timeout_ms == ms
                    &&& ms < 500 ==> out.query_timeout_ms == 500
                    &&& ms > 15_000 ==> out.query_timeout_ms == 15_000
                }
                &&& s.max_batch_size is None ==> out.max_batch_size == 64
                &&& s.max_batch_size matches Some(n) ==> out.max_batch_size == (if n <= 1_024 {
                    n
                } else {
                    1_024
                })
            }
            &&& section is None ==> {
                &&& out.backend == SemanticBackend::Fastembed
                &&& out.model == "all-MiniLM-L6-v2"@
                &&& out.base_url is None
                &&& out.api_key_env is None
                &&& out.timeout_ms == 25_000
                &&& out.query_timeout_ms == 3_000
                &&& out.max_batch_size == 64
                &&& out.max_files == 20_000
            }
            &&& file is None ==> out.subc_connection_file is None
            &&& file matches Some(path) ==> {
                &&& text::trimmed(path).len() == 0 ==> out.subc_connection_file is None
                &&& text::trimmed(path).len() > 0 ==> out.subc_connection_file == Some(
                    text::trimmed(path),
                )
            }
            &&& out.route_project_root is None
            &&& out.route_harness is None
        }),
{
}

/// The smaller sections come out as they are set, and with their defaults where they are not.
pub proof fn law_sections_come_out(
    inspect: Option<RawInspectView>,
    backup: Option<RawBackup>,
    worktree: Option<RawWorktree>,
    gh_shim: Option<RawGhShimView>,
    gh_read: Option<RawGhRead>,
    git: Option<RawGitView>,
    sandbox: Option<RawSandboxView>,
    memory: Option<RawMemory>,
)
    ensures
        ({
            let out = config_resolve::inspect_resolved(inspect);
            let ms = (match inspect { Some(s) => s.diagnostics_timeout_ms, None => None });
            let duplicates = (match inspect { Some(s) => s.duplicates, None => None });
            let mirrors = (match duplicates { Some(s) => s.expected_mirrors, None => None });
            &&& set_comes_out(
                (match inspect { Some(s) => s.enabled, None => None }),
                true,
                out.enabled,
            )
            &&& ms is None ==> out.diagnostics_timeout_ms == 120_000
            &&& ms matches Some(ms) ==> {
                &&& 10_000 <= ms <= 600_000 ==> out.diagnostics_timeout_ms == ms
                &&& ms < 10_000 ==> out.diagnostics_timeout_ms == 10_000
                &&& ms > 600_000 ==> out.diagnostics_timeout_ms == 600_000
            }
            &&& set_comes_out(
                mirrors,
                Seq::<(Seq<char>, Seq<char>)>::empty(),
                out.duplicates.expected_mirrors,
            )
        }),
        ({
            let out = config_resolve::backup_resolved(backup);
            &&& later_wins(
                (match backup { Some(s) => s.enabled, None => None }),
                Some(true),
                out.enabled,
            )
            &&& later_wins(
                (match backup { Some(s) => s.max_depth, None => None }),
                Some(20usize),
                out.max_depth,
            )
            &&& out.max_file_size == (match backup { Some(s) => s.max_file_size, None => None })
        }),
        set_comes_out(
            (match worktree { Some(s) => s.ram_overlay, None => None }),
            false,
            config_resolve::worktree_resolved(worktree).ram_overlay,
        ),
        set_comes_out(
            (match gh_shim { Some(s) => s.enabled, None => None }),
            true,
            config_resolve::gh_shim_resolved(gh_shim).enabled,
        ),
        config_resolve::gh_shim_resolved(gh_shim).binary_path == (match gh_shim {
            Some(s) => s.binary_path,
            None => None,
        }),
        set_comes_out(
            (match gh_read { Some(s) => s.enabled, None => None }),
            false,
            config_resolve::gh_read_resolved(gh_read).enabled,
        ),
        set_comes_out(
            (match git { Some(s) => s.co_author, None => None }),
            "off"@,
            config_resolve::git_resolved(git).co_author,
        ),
        ({
            let out = config_resolve::sandbox_resolved(sandbox);
            &&& set_comes_out(
                (match sandbox { Some(s) => s.enabled, None => None }),
                false,
                out.enabled,
            )
            &&& set_comes_out(
                (match sandbox { Some(s) => s.write_allow, None => None }),
                Seq::<Seq<char>>::empty(),
                out.write_allow,
            )
            &&& set_comes_out(
                (match sandbox { Some(s) => s.read_deny, None => None }),
                Seq::<Seq<char>>::empty(),
                out.read_deny,
            )
        }),
        config_resolve::memory_resolved(memory).limit_bytes == (match memory {
            Some(s) => s.limit_bytes,
            None => None,
        }),
{
}

/// Each section of the resolved configuration comes from the section of the same name.
pub proof fn law_sections_come_from_their_namesakes(
    document: RawAftConfigView,
    config: ConfigView,
)
    ensures
        ({
            let out = config_resolve::applied(document, config);
            &&& out.semantic == config_resolve::semantic_resolved(document.semantic, document.subc)
            &&& out.inspect == config_resolve::inspect_resolved(document.inspect)
            &&& out.memory == config_resolve::memory_resolved(document.memory)
            &&& out.backup == config_resolve::backup_resolved(document.backup)
            &&& out.worktree == config_resolve::worktree_resolved(document.worktree)
            &&& out.gh_shim == config_resolve::gh_shim_resolved(document.gh_shim)
            &&& out.gh_read == config_resolve::gh_read_resolved(document.gh_read)
            &&& out.git == config_resolve::git_resolved(document.git)
            &&& out.sandbox == config_resolve::sandbox_resolved(document.sandbox)
        }),
{
}

/// The bash features: a switch speaks for all three, an object leaves on what it does not switch
/// off, and without a section the legacy flags count where one is set, else the tool surface. The
/// window that a command may keep the caller waiting has a least value.
pub proof fn law_bash_settings_come_out(document: RawAftConfigView, config: ConfigView)
    ensures
        ({
            let out = config_resolve::applied(document, config);
            let legacy = (match document.experimental { Some(s) => s.bash, None => None });
            let rewrite = (match legacy { Some(s) => s.rewrite, None => None });
            let compress = (match legacy { Some(s) => s.compress, None => None });
            let background = (match legacy { Some(s) => s.background, None => None });
            let flagged = rewrite is Some || compress is Some || background is Some;
            let full = document.tool_surface != Some(RawToolSurface::Minimal);
            &&& document.bash matches Some(RawBash::Bool(on)) ==> {
                &&& out.experimental_bash_rewrite == on
                &&& out.experimental_bash_compress == on
                &&& out.experimental_bash_background == on
            }
            &&& document.bash matches Some(RawBash::Features(f)) ==> {
                &&& set_comes_out(f.rewrite, true, out.experimental_bash_rewrite)
                &&& set_comes_out(f.compress, true, out.experimental_bash_compress)
                &&& set_comes_out(f.background, true, out.experimental_bash_background)
            }
            &&& document.bash is None && flagged ==> {
                &&& set_comes_out(rewrite, false, out.experimental_bash_rewrite)
                &&& set_comes_out(compress, false, out.experimental_bash_compress)
                &&& set_comes_out(background, false, out.experimental_bash_background)
            }
            &&& document.bash is None && !flagged ==> {
                &&& out.experimental_bash_rewrite == full
                &&& out.experimental_bash_compress == full
                &&& out.experimental_bash_background == full
            }
            &&& set_comes_out(
                merge_laws::says_host_fallback(document.bash),
                false,
                out.bash.host_fallback,
            )
            &&& set_comes_out(
                merge_laws::says_detach_on_user_message(document.bash),
                true,
                out.bash.detach_on_user_message,
            )
            &&& set_comes_out(
                merge_laws::says_powershell_tool(document.bash),
                false,
                out.bash.powershell_tool,
            )
            &&& ({
                let wait = merge_laws::says_foreground_wait_window_ms(document.bash);
                &&& wait is None ==> out.foreground_wait_window_ms == 15_000
                &&& wait matches Some(ms) ==> out.foreground_wait_window_ms == (if ms < 5_000 {
                    5_000
                } else {
                    ms
                })
            })
            &&& ({
                let own = merge_laws::says_long_running_reminder_enabled(document.bash);
                let old = (match legacy {
                    Some(s) => s.long_running_reminder_enabled,
                    None => None,
                });
                &&& own matches Some(on) ==> out.bash_long_running_reminder_enabled == on
                &&& own is None ==> set_comes_out(
                    old,
                    config.bash_long_running_reminder_enabled,
                    out.bash_long_running_reminder_enabled,
                )
            })
            &&& ({
                let own = merge_laws::says_long_running_reminder_interval_ms(document.bash);
                let old = (match legacy {
                    Some(s) => s.long_running_reminder_interval_ms,
                    None => None,
                });
                &&& own matches Some(ms) ==> out.bash_long_running_reminder_interval_ms == ms
                &&& own is None ==> set_comes_out(
                    old,
                    config.bash_long_running_reminder_interval_ms,
                    out.bash_long_running_reminder_interval_ms,
                )
            })
        }),
        ({
            let bash = config_resolve::bash_resolved(document);
            &&& set_comes_out(
                merge_laws::says_subagent_background(document.bash),
                false,
                bash.subagent_background,
            )
            &&& bash.enabled <==> bash.rewrite || bash.compress || bash.background || (
            document.bash matches Some(RawBash::Features(_)))
        }),
{
    reveal(config_resolve::set_or);
}

/// Whether a list of ids that may be unset names one, in whatever case.
pub open spec fn lists_id(listed: Option<Seq<Seq<char>>>, id: Seq<char>) -> bool {
    match listed {
        Some(ids) => exists|i: int|
            0 <= i < ids.len() && #[trigger] text::ascii_lowered(ids[i]) == id,
        None => false,
    }
}

proof fn lemma_lowered(ids: Seq<Seq<char>>, id: Seq<char>)
    ensures
        config_resolve::lowered_set(ids).contains(id) <==> exists|i: int|
            0 <= i < ids.len() && #[trigger] text::ascii_lowered(ids[i]) == id,
    decreases ids.len(),
{
    if ids.len() > 0 {
        let front = ids.drop_last();
        lemma_lowered(front, id);
        if config_resolve::lowered_set(front).contains(id) {
            let i = choose|i: int|
                0 <= i < front.len() && #[trigger] text::ascii_lowered(front[i]) == id;
            assert(text::ascii_lowered(ids[i]) == id);
        }
        if exists|i: int| 0 <= i < ids.len() && #[trigger] text::ascii_lowered(ids[i]) == id {
            let i = choose|i: int| 0 <= i < ids.len() && #[trigger] text::ascii_lowered(ids[i]) == id;
            if i < front.len() {
                assert(text::ascii_lowered(front[i]) == id);
            }
        }
        assert(ids[ids.len() - 1] == ids.last());
        if text::ascii_lowered(ids.last()) == id {
            assert(text::ascii_lowered(ids[ids.len() - 1]) == id);
        }
    }
}

/// The language server settings: a server is disabled exactly where the document lists it, in
/// whatever case, or chooses the other Python server; where it disables none, the earlier ones
/// stay disabled. Choosing a Python server decides whether the experimental one runs.
pub proof fn law_language_server_settings_come_out(
    document: RawAftConfigView,
    config: ConfigView,
    id: Seq<char>,
    place: int,
)
    ensures
        ({
            let out = config_resolve::applied(document, config);
            let python = (match document.lsp { Some(s) => s.python, None => None });
            let listed = (match document.lsp { Some(s) => s.disabled, None => None });
            let servers = (match document.lsp { Some(s) => s.servers, None => None });
            let legacy = (match document.experimental { Some(s) => s.lsp_ty, None => None });
            let barred = lists_id(listed, id) || (python == Some(RawPythonLsp::Ty) && id == "python"@) || (python
                == Some(RawPythonLsp::Pyright) && id == "ty"@);
            let none_barred = (listed is None || listed->0.len() == 0) && python != Some(
                RawPythonLsp::Ty,
            ) && python != Some(RawPythonLsp::Pyright);
            &&& none_barred ==> out.disabled_lsp == config.disabled_lsp
            &&& !none_barred ==> (out.disabled_lsp.contains(id) <==> barred)
            &&& python == Some(RawPythonLsp::Ty) ==> out.experimental_lsp_ty
            &&& python == Some(RawPythonLsp::Pyright) ==> !out.experimental_lsp_ty
            &&& (python is None || python == Some(RawPythonLsp::Auto)) ==> set_comes_out(
                legacy,
                config.experimental_lsp_ty,
                out.experimental_lsp_ty,
            )
            &&& set_comes_out(
                (match document.lsp { Some(s) => s.diagnostics_on_edit, None => None }),
                config.diagnostics_on_edit,
                out.diagnostics_on_edit,
            )
            &&& servers is None ==> out.lsp_servers == config.lsp_servers
            &&& servers matches Some(all) ==> {
                &&& out.lsp_servers.len() == all.len()
                &&& 0 <= place < all.len() ==> out.lsp_servers[place]
                    == config_resolve::server_resolved(all[place].0, all[place].1)
            }
        }),
{
    reveal(config_resolve::set_or);
    reveal(config_resolve::servers_applied);
    reveal(config_resolve::disabled_applied);
    let python = (match document.lsp { Some(s) => s.python, None => None });
    let listed = (match document.lsp { Some(s) => s.disabled, None => None });
    let barred = config_resolve::disabled_servers(document);
    let out = config_resolve::applied(document, config);
    assert(out.disabled_lsp == config_resolve::disabled_applied(document, config.disabled_lsp));
    if let Some(ids) = listed {
        lemma_lowered(ids, id);
        if ids.len() > 0 {
            lemma_lowered(ids, text::ascii_lowered(ids[0]));
            assert(barred.contains(text::ascii_lowered(ids[0])));
        }
    }
    if python == Some(RawPythonLsp::Ty) {
        assert(barred.contains("python"@));
    }
    if python == Some(RawPythonLsp::Pyright) {
        assert(barred.contains("ty"@));
    }
    if (listed is None || listed->0.len() == 0) && python != Some(RawPythonLsp::Ty) && python
        != Some(RawPythonLsp::Pyright) {
        assert(barred =~= Set::<Seq<char>>::empty());
    }
}

/// A user-defined server comes out under its id, as it is set: its extensions without leading dots,
/// marked by `.git` where no marker is set, enabled where nothing else is said.
pub proof fn law_user_server_comes_out(id: Seq<char>, server: RawLspServerEntryView, i: int)
    ensures
        ({
            let out = config_resolve::server_resolved(id, server);
            &&& out.id == id
            &&& set_comes_out(server.binary, Seq::<char>::empty(), out.binary)
            &&& set_comes_out(server.args, Seq::<Seq<char>>::empty(), out.args)
            &&& set_comes_out(server.root_markers, seq![".git"@], out.root_markers)
            &&& set_comes_out(server.env, Seq::<(Seq<char>, Seq<char>)>::empty(), out.env)
            &&& out.initialization_options == server.initialization_options
            &&& set_comes_out(server.disabled, false, out.disabled)
            &&& server.extensions is None ==> out.extensions.len() == 0
            &&& server.extensions matches Some(all) ==> {
                &&& out.extensions.len() == all.len()
                &&& 0 <= i < all.len() ==> out.extensions[i] == text::without_leading_dots(all[i])
            }
        }),
{
}

/// A resource policy is the one that is named; an unknown name counts as balanced and is warned
/// about, once, with the name.
pub proof fn law_resource_policy_is_the_named_one(name: Seq<char>)
    ensures
        config_resolve::policy_resolved(None) == IndexResourcePolicy::Balanced,
        config_resolve::policy_warnings(None).len() == 0,
        IndexResourcePolicy::named(name) matches Some(policy) ==> {
            &&& config_resolve::policy_resolved(Some(name)) == policy
            &&& config_resolve::policy_warnings(Some(name)).len() == 0
        },
        IndexResourcePolicy::named(name) is None ==> {
            let warnings = config_resolve::policy_warnings(Some(name));
            &&& config_resolve::policy_resolved(Some(name)) == IndexResourcePolicy::Balanced
            &&& warnings.len() == 1
            &&& warnings[0].code == "invalid_index_resource_policy"@
            &&& warnings[0].key == "index.resource_policy"@
            &&& warnings[0].tier == "user"@
            &&& warnings[0].value == name
        },
{
}

/// A list of family names is read name by name: it selects what each name stands for, in its order,
/// and is refused at the first name that is unknown or stands there twice.
pub proof fn law_family_names_are_read_one_by_one(names: Seq<Seq<char>>, name: Seq<char>)
    ensures
        config_resolve::listed_kinds(Seq::<Seq<char>>::empty()) == Ok::<
            Seq<IndexKind>,
            Seq<char>,
        >(Seq::empty()),
        ({
            let before = config_resolve::listed_kinds(names);
            let after = config_resolve::listed_kinds(names.push(name));
            let kind = IndexKind::named(name);
            &&& before is Err ==> after == before
            &&& (before matches Ok(kinds) && kind is None) ==> after is Err
            &&& (before matches Ok(kinds) && kind is Some && kinds.contains(kind->0)) ==> after is Err
            &&& (before matches Ok(kinds) && kind is Some && !kinds.contains(kind->0)) ==> after
                == Ok::<Seq<IndexKind>, Seq<char>>(before->Ok_0.push(kind->0))
        }),
{
    assert(names.push(name).drop_last() =~= names);
}

/// A root of the standing index is valid exactly where it has a path that expands to an absolute
/// one and a list of families that is not empty and can be read.
pub proof fn law_valid_root_has_path_and_families(root: RawIndexRootView, host: HostView)
    ensures
        config_resolve::root_kinds(root, host) is Ok <==> {
            &&& root.path matches Some(path)
            &&& config::expanded_root(path, host) is Ok
            &&& root.indexes matches Some(names)
            &&& names.len() > 0
            &&& config_resolve::listed_kinds(names) is Ok
        },
        config_resolve::root_kinds(root, host) matches Ok(kinds) ==> config_resolve::listed_kinds(
            root.indexes->0,
        ) == Ok::<Seq<IndexKind>, Seq<char>>(kinds),
{
}

/// The roots of the standing index are maintained as they are listed, each with its path and its
/// families, as long as every one is valid; with an invalid one none is, and that is warned about.
/// Each unknown field, and each family that had to be added, is warned about too.
pub proof fn law_standing_roots_are_all_or_none(
    roots: Seq<RawIndexRootView>,
    root: RawIndexRootView,
    host: HostView,
)
    ensures
        ({
            let (done, warnings) = config_resolve::roots_resolved(roots, host);
            let (all, more) = config_resolve::roots_resolved(roots.push(root), host);
            let kinds = config_resolve::root_kinds(root, host);
            let unknown = root.unknown.len();
            &&& config_resolve::roots_resolved(Seq::<RawIndexRootView>::empty(), host).0 == Some(
                Seq::<config::IndexRootConfigView>::empty(),
            )
            &&& done is None ==> all is None && more == warnings
            &&& (done is Some && kinds is Err) ==> {
                &&& all is None
                &&& more.len() == warnings.len() + unknown + 1
                &&& more.last().code == "invalid_index_roots"@
                &&& more.last().value == text::decimal(roots.len())
                &&& more.last().message == kinds->Err_0
            }
            &&& (done is Some && kinds is Ok) ==> {
                &&& all is Some
                &&& all->0.len() == done->0.len() + 1
                &&& all->0.drop_last() == done->0
                &&& all->0.last().path == root.path->0
                &&& all->0.last().indexes == config_resolve::normalized_kinds(kinds->Ok_0)
                &&& ({
                    let added = kinds->Ok_0.contains(IndexKind::Semantic) && !kinds->Ok_0.contains(
                        IndexKind::Search,
                    );
                    &&& more.len() == warnings.len() + unknown + (if added {
                        1int
                    } else {
                        0
                    })
                    &&& added ==> more.last().code == "index_dependency_closure"@
                        && more.last().value == root.path->0
                })
            }
            &&& done is Some ==> forall|i: int|
                0 <= i < unknown ==> (#[trigger] more[warnings.len() + i]).code
                    == "unknown_index_root_field"@ && more[warnings.len() + i].value
                    == root.unknown[i].0
            &&& forall|i: int| 0 <= i < warnings.len() ==> #[trigger] more[i] == warnings[i]
        }),
{
    assert(roots.push(root).drop_last() =~= roots);
    let (done, warnings) = config_resolve::roots_resolved(roots, host);
    if let Some(list) = done {
        if let Ok(kinds) = config_resolve::root_kinds(root, host) {
            let all = config_resolve::roots_resolved(roots.push(root), host).0->0;
            assert(all.drop_last() =~= list);
        }
    }
}

/// The standing index has the policy and the roots of its section, and nothing without one.
pub proof fn law_standing_index_comes_from_its_section(
    section: Option<RawIndexView>,
    host: HostView,
)
    ensures
        ({
            let (index, warnings) = config_resolve::index_resolved(section, host);
            &&& section is None ==> index.roots.len() == 0 && warnings.len() == 0
                && index.resource_policy == IndexResourcePolicy::Balanced
            &&& section matches Some(s) ==> {
                &&& index.resource_policy == config_resolve::policy_resolved(s.resource_policy)
                &&& s.roots is None ==> index.roots.len() == 0 && warnings
                    == config_resolve::policy_warnings(s.resource_policy)
                &&& s.roots matches Some(roots) ==> {
                    let (done, more) = config_resolve::roots_resolved(roots, host);
                    &&& warnings == config_resolve::policy_warnings(s.resource_policy) + more
                    &&& done matches Some(list) ==> index.roots == list
                    &&& done is None ==> index.roots.len() == 0
                }
            }
        }),
{
}

proof fn lemma_without_key(entries: Seq<(Seq<char>, JsonView)>, key: Seq<char>, query: Seq<char>)
    ensures
        text_map::map_get(config_resolve::without_key(entries, key), query) == (if query == key {
            None
        } else {
            text_map::map_get(entries, query)
        }),
    decreases entries.len(),
{
    if entries.len() > 0 {
        lemma_without_key(entries.drop_last(), key, query);
        text_map::lemma_get_push(
            config_resolve::without_key(entries.drop_last(), key),
            entries.last(),
            query,
        );
        text_map::lemma_get_push(entries.drop_last(), entries.last(), query);
        assert(entries.drop_last().push(entries.last()) =~= entries);
    }
}

/// Leaving out a key leaves every other one, with its value.
pub proof fn law_leaving_out_a_key_keeps_the_others(
    entries: Seq<(Seq<char>, JsonView)>,
    key: Seq<char>,
    query: Seq<char>,
)
    ensures
        text_map::map_get(config_resolve::without_key(entries, key), key) is None,
        query != key ==> text_map::map_get(config_resolve::without_key(entries, key), query)
            == text_map::map_get(entries, query),
{
    lemma_without_key(entries, key, key);
    lemma_without_key(entries, key, query);
}

/// The section of the active harness decides every setting that it sets; it is the only one that
/// counts, and none is left in the document. A section that cannot be read changes nothing and is
/// warned about; one within a section is ignored and warned about.
pub proof fn law_active_harness_overrides(
    document: RawAftConfigView,
    harness: Harness,
    tier: Seq<char>,
    section: Seq<(Seq<char>, JsonView)>,
)
    ensures
        ({
            let bare = RawAftConfigView { harnesses: None, ..document };
            let (out, warnings) = config_resolve::overridden(document, Some(harness), tier);
            let found = match document.harnesses {
                Some(all) => text_map::map_get(all, harness.label()),
                None => None,
            };
            let nested = text_map::map_get(section, "harnesses"@) is Some;
            let over = RawAftConfig::decoded(
                JsonView::Object(config_resolve::without_key(section, "harnesses"@)),
            );
            &&& found is None ==> out == bare && warnings.len() == 0
            &&& (found is Some && !(found->0 is Object)) ==> out == bare && warnings.len() == 1
                && warnings[0].code == "invalid_harness_override"@ && warnings[0].tier == tier
                && warnings[0].value == harness.label()
            &&& found == Some(JsonView::Object(section)) ==> {
                &&& over matches Some(over) ==> {
                    &&& later_wins(over.enabled, document.enabled, out.enabled)
                    &&& later_wins(over.search_index, document.search_index, out.search_index)
                    &&& later_wins(over.formatter, document.formatter, out.formatter)
                    &&& later_wins(over.semantic, document.semantic, out.semantic)
                    &&& later_wins(over.bash, document.bash, out.bash)
                    &&& later_wins(over.lsp, document.lsp, out.lsp)
                    &&& out == merge::trusted(bare, over)
                    &&& warnings.len() == (if nested {
                        1int
                    } else {
                        0
                    })
                }
                &&& over is None ==> {
                    &&& out == bare
                    &&& warnings.len() == (if nested {
                        2int
                    } else {
                        1
                    })
                    &&& warnings.last().code == "invalid_harness_override"@
                    &&& warnings.last().tier == tier
                    &&& warnings.last().value == harness.label()
                }
                &&& nested ==> warnings[0].code == "nested_harnesses_ignored"@ && warnings[0].tier
                    == tier && warnings[0].value == harness.label()
            }
        }),
{
    reveal(merge::or_else);
}

/// A document that is read entry by entry keeps every entry that can be read, and loses none of
/// them to one that cannot: a later readable entry decides what it sets.
pub proof fn law_readable_entries_are_kept(
    entries: Seq<(Seq<char>, JsonView)>,
    entry: (Seq<char>, JsonView),
)
    ensures
        ({
            let before = config_resolve::partially_decoded(entries);
            let after = config_resolve::partially_decoded(entries.push(entry));
            let one = RawAftConfig::decoded(JsonView::Object(seq![entry]));
            &&& one is None ==> after == before
            &&& one matches Some(one) ==> after == merge::trusted(before, one)
            &&& config_resolve::partially_decoded(Seq::<(Seq<char>, JsonView)>::empty())
                == raw::unset_aft_config()
        }),
{
    assert(entries.push(entry).drop_last() =~= entries);
}

/// An object is read as a whole where that is possible, and entry by entry where it is not.
pub proof fn law_document_is_read_as_a_whole(entries: Seq<(Seq<char>, JsonView)>)
    ensures
        ({
            let whole = RawAftConfig::decoded(JsonView::Object(entries));
            let read = config_resolve::document_config(Some(JsonView::Object(entries)));
            &&& read is Some
            &&& whole matches Some(config) ==> read == Some(config)
            &&& whole is None ==> read == Some(config_resolve::partially_decoded(entries))
            &&& config_resolve::document_config(None) is None
        }),
{
}

/// An unknown edit surface is warned about, once, with its name and its tier; no other is.
pub proof fn law_unknown_edit_surface_is_warned_about(
    mode: Option<RawEditModeView>,
    tier: Seq<char>,
)
    ensures
        ({
            let warnings = config_resolve::edit_mode_warnings(mode, tier);
            &&& mode matches Some(RawEditModeView::Unknown(value)) ==> {
                &&& warnings.len() == 1
                &&& warnings[0].code == "invalid_edit_mode"@
                &&& warnings[0].key == "edit_mode"@
                &&& warnings[0].tier == tier
                &&& warnings[0].value == value
            }
            &&& !(mode matches Some(RawEditModeView::Unknown(_))) ==> warnings.len() == 0
        }),
{
}

/// Tiers are laid over each other in their order. A readable document of the user tier decides
/// every setting that it sets and records no drop; one of another tier is laid as a project's, with
/// its drops recorded. Warnings only join those before.
pub proof fn law_tiers_are_laid_in_order(
    platform: Platform,
    tiers: Seq<ParsedTierView>,
    tier: ParsedTierView,
    harness: Option<Harness>,
)
    ensures
        ({
            let before = config_resolve::tiers_applied(platform, tiers, harness);
            let after = config_resolve::tiers_applied(platform, tiers.push(tier), harness);
            let read = config_resolve::document_config(tier.document);
            &&& read is None ==> after == before
            &&& read matches Some(document) ==> {
                let (document, noted) = config_resolve::overridden(document, harness, tier.tier);
                &&& tier.tier == "user"@ ==> {
                    &&& after.merged == merge::trusted(before.merged, document)
                    &&& after.dropped == before.dropped
                }
                &&& tier.tier != "user"@ ==> {
                    &&& after.merged == merge::project_laid(platform, before.merged, document)
                    &&& after.dropped == merge::drops_recorded(
                        document,
                        tier.tier,
                        before.dropped,
                    )
                }
                &&& after.warnings == before.warnings + noted + config_resolve::edit_mode_warnings(
                    document.edit_mode,
                    tier.tier,
                )
            }
            &&& config_resolve::tiers_applied(
                platform,
                Seq::<ParsedTierView>::empty(),
                harness,
            ).merged == raw::unset_aft_config()
        }),
{
    assert(tiers.push(tier).drop_last() =~= tiers);
}

/// Whether a tier's document, with its harness section laid over it, is `document`.
pub open spec fn reads_as(
    tier: ParsedTierView,
    harness: Option<Harness>,
    document: RawAftConfigView,
) -> bool {
    &&& config_resolve::document_config(tier.document) is Some
    &&& config_resolve::overridden(
        config_resolve::document_config(tier.document)->0,
        harness,
        tier.tier,
    ).0 == document
}

/// The last tier that sets a switch decides it in the resolved configuration, whether it is the
/// user's or a project's, where the switch is safe for a project; where it sets none, what the
/// tiers before gave stays.
pub proof fn law_last_tier_decides_safe_switches(
    tiers: Seq<ParsedTierView>,
    tier: ParsedTierView,
    harness: Option<Harness>,
    host: HostView,
    document: RawAftConfigView,
)
    requires
        reads_as(tier, harness, document),
    ensures
        ({
            let before = config_resolve::resolved(tiers, harness, host).config;
            let after = config_resolve::resolved(tiers.push(tier), harness, host).config;
            &&& set_comes_out(document.format_on_edit, before.format_on_edit, after.format_on_edit)
            &&& set_comes_out(document.hoist_builtin_tools, before.hoist_builtin_tools, after.hoist_builtin_tools)
            &&& set_comes_out(document.search_index, before.search_index, after.search_index)
            &&& set_comes_out(document.semantic_search, before.semantic_search, after.semantic_search)
            &&& set_comes_out(document.callgraph_store, before.callgraph_store, after.callgraph_store)
            &&& set_comes_out(document.callgraph_chunk_size, before.callgraph_chunk_size, after.callgraph_chunk_size)
        }),
{
    reveal(config_resolve::set_or);
    law_tiers_are_laid_in_order(host.platform, tiers, tier, harness);
    let state = config_resolve::tiers_applied(host.platform, tiers, harness);
    merge_laws::law_trusted_document_decides_what_it_sets(state.merged, document);
    merge_laws::law_project_document_decides_what_is_safe(host.platform, state.merged, document);
}

/// The user's last document decides every switch that it sets.
pub proof fn law_user_tier_decides_every_switch(
    tiers: Seq<ParsedTierView>,
    tier: ParsedTierView,
    harness: Option<Harness>,
    host: HostView,
    document: RawAftConfigView,
)
    requires
        tier.tier == "user"@,
        reads_as(tier, harness, document),
    ensures
        ({
            let before = config_resolve::resolved(tiers, harness, host).config;
            let after = config_resolve::resolved(tiers.push(tier), harness, host).config;
            &&& set_comes_out(document.hoist_builtin_tools, before.hoist_builtin_tools, after.hoist_builtin_tools)
            &&& set_comes_out(document.format_on_edit, before.format_on_edit, after.format_on_edit)
            &&& set_comes_out(document.formatter_timeout_secs, before.formatter_timeout_secs, after.formatter_timeout_secs)
            &&& set_comes_out(document.type_checker_timeout_secs, before.type_checker_timeout_secs, after.type_checker_timeout_secs)
            &&& set_comes_out(document.restrict_to_project_root, before.restrict_to_project_root, after.restrict_to_project_root)
            &&& set_comes_out(document.search_index, before.search_index, after.search_index)
            &&& set_comes_out(document.semantic_search, before.semantic_search, after.semantic_search)
            &&& set_comes_out(document.callgraph_store, before.callgraph_store, after.callgraph_store)
            &&& set_comes_out(document.callgraph_chunk_size, before.callgraph_chunk_size, after.callgraph_chunk_size)
            &&& set_comes_out(document.url_fetch_allow_private, before.url_fetch_allow_private, after.url_fetch_allow_private)
        }),
{
    reveal(config_resolve::set_or);
    law_tiers_are_laid_in_order(host.platform, tiers, tier, harness);
    let state = config_resolve::tiers_applied(host.platform, tiers, harness);
    merge_laws::law_trusted_document_decides_what_it_sets(state.merged, document);
}

/// Tools of two tiers join in the resolved configuration: after a project's document, the tool of a
/// language is the project's where it names one, and otherwise the one that the tiers before gave.
pub proof fn law_tools_of_two_tiers_join(
    tiers: Seq<ParsedTierView>,
    tier: ParsedTierView,
    harness: Option<Harness>,
    host: HostView,
    document: RawAftConfigView,
    language: Seq<char>,
)
    requires
        tier.tier != "user"@,
        reads_as(tier, harness, document),
        merge_laws::is_ordered(document.formatter),
        merge_laws::is_ordered(document.checker),
        ({
            let merged = config_resolve::tiers_applied(host.platform, tiers, harness).merged;
            merge_laws::is_ordered(merged.formatter) && merge_laws::is_ordered(merged.checker)
        }),
    ensures
        ({
            let before = config_resolve::resolved(tiers, harness, host).config;
            let after = config_resolve::resolved(tiers.push(tier), harness, host).config;
            &&& says(document.formatter, language) matches Some(tool) ==> text_map::map_get(
                after.formatter,
                language,
            ) == Some(tool.name())
            &&& says(document.formatter, language) is None ==> text_map::map_get(
                after.formatter,
                language,
            ) == text_map::map_get(before.formatter, language)
            &&& says(document.checker, language) matches Some(tool) ==> text_map::map_get(
                after.checker,
                language,
            ) == Some(tool.name())
            &&& says(document.checker, language) is None ==> text_map::map_get(
                after.checker,
                language,
            ) == text_map::map_get(before.checker, language)
        }),
{
    law_tiers_are_laid_in_order(host.platform, tiers, tier, harness);
    let merged = config_resolve::tiers_applied(host.platform, tiers, harness).merged;
    let laid = merge::project_laid(host.platform, merged, document);
    let start = ConfigView::default_view();
    merge_laws::law_project_tools_join_the_earlier_ones(
        host.platform,
        merged,
        document,
        language,
    );
    law_tools_come_from_the_document(merged, start, language);
    law_tools_come_from_the_document(laid, start, language);
}

/// Documents are parsed one by one, each under its own tier.
pub proof fn law_tiers_are_parsed_one_by_one(
    tiers: Seq<config_resolve::ConfigTierView>,
    i: int,
)
    requires
        0 <= i < tiers.len(),
    ensures
        config_resolve::parsed_tiers(tiers).len() == tiers.len(),
        config_resolve::parsed_tiers(tiers)[i].tier == tiers[i].tier,
        config_resolve::parsed_tiers(tiers)[i].document == config_resolve::document_of(
            tiers[i].doc,
        ),
{
}

} // verus!
