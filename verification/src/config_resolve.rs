//! Resolving configuration tiers into the flat runtime configuration.
//!
//! Documents are parsed, merged across the user/project trust boundary and applied onto the
//! defaults. Nothing here reads the environment: the documents, and what is asked of the machine,
//! are arguments.

use vstd::prelude::*;
use vstd::string::*;

use crate::config;
use crate::config::{
    BackupConfig, BackupConfigView, BashConfig, BashConfigView, Config, ConfigView, GhReadConfig,
    GhReadConfigView, GhShimConfig, GhShimConfigView, GitConfig, GitConfigView, Harness, Host,
    HostView, IndexConfig, IndexConfigView, IndexKind, IndexResourcePolicy, IndexRootConfig,
    IndexRootConfigView, InspectConfig, InspectConfigView, InspectDuplicatesConfig,
    InspectDuplicatesConfigView, MemoryConfig, MemoryConfigView, Platform, SandboxConfig,
    SandboxConfigView, SemanticBackend, SemanticBackendConfig, SemanticBackendConfigView,
    UserServerDef, UserServerDefView, WorktreeConfig, WorktreeConfigView,
    MAX_INSPECT_DIAGNOSTICS_TIMEOUT_MS, MAX_SEMANTIC_QUERY_TIMEOUT_MS,
    MIN_INSPECT_DIAGNOSTICS_TIMEOUT_MS, MIN_SEMANTIC_QUERY_TIMEOUT_MS,
};
use crate::decode::Decode;
use crate::json;
use crate::json::{Json, JsonView};
use crate::jsonc;
use crate::merge;
use crate::merge::{DroppedKey, DroppedKeyView};
use crate::raw;
use crate::raw::{
    RawAftConfig, RawAftConfigView, RawBackup, RawBash, RawBashFeatures, RawChecker, RawEditMode,
    RawEditModeView, RawExperimentalBash, RawFormatter, RawGhRead, RawGhShim, RawGhShimView,
    RawGit, RawGitView, RawIndex, RawIndexRoot, RawIndexRootView, RawIndexView, RawInspect,
    RawInspectView, RawLspServerEntry, RawLspServerEntryView, RawMemory, RawPythonLsp,
    RawSandbox, RawSandboxView, RawSemantic, RawSemanticView, RawSubc, RawSubcView,
    RawToolSurface, RawValidateOnEdit, RawWorktree,
};
use crate::text;
use crate::text_map;
use crate::text_map::{TextMap, TextSet};

verus! {

pub const FOREGROUND_WAIT_WINDOW_DEFAULT_MS: u64 = 15_000;

pub const FOREGROUND_WAIT_WINDOW_MIN_MS: u64 = 5_000;

pub const MAX_SEMANTIC_TIMEOUT_MS: u64 = 120_000;

pub const MAX_SEMANTIC_BATCH_SIZE: usize = 1_024;

/// One configuration document supplied by the host. The tier is trusted metadata stamped by the
/// caller; a document cannot relabel itself.
#[derive(Debug, PartialEq, Eq)]
pub struct ConfigTier {
    pub tier: String,
    pub source: String,
    pub doc: String,
}

/// The model of [`ConfigTier`].
pub struct ConfigTierView {
    pub tier: Seq<char>,
    pub source: Seq<char>,
    pub doc: Seq<char>,
}

impl DeepView for ConfigTier {
    type V = ConfigTierView;

    open spec fn deep_view(&self) -> ConfigTierView {
        ConfigTierView {
            tier: self.tier.deep_view(),
            source: self.source.deep_view(),
            doc: self.doc.deep_view(),
        }
    }
}

/// A configuration document after parsing; `None` where it is no JSON document.
#[derive(Debug, PartialEq, Eq)]
pub struct ParsedTier {
    pub tier: String,
    pub document: Option<Json>,
}

/// The model of [`ParsedTier`].
pub struct ParsedTierView {
    pub tier: Seq<char>,
    pub document: Option<JsonView>,
}

impl DeepView for ParsedTier {
    type V = ParsedTierView;

    open spec fn deep_view(&self) -> ParsedTierView {
        ParsedTierView {
            tier: self.tier.deep_view(),
            document: self.document.deep_view(),
        }
    }
}

/// A configuration issue that does not stop resolution.
#[derive(Debug, PartialEq, Eq)]
pub struct ConfigWarning {
    pub code: &'static str,
    pub key: &'static str,
    pub tier: String,
    pub value: String,
    pub message: String,
}

/// The model of [`ConfigWarning`].
pub struct ConfigWarningView {
    pub code: Seq<char>,
    pub key: Seq<char>,
    pub tier: Seq<char>,
    pub value: Seq<char>,
    pub message: Seq<char>,
}

impl DeepView for ConfigWarning {
    type V = ConfigWarningView;

    open spec fn deep_view(&self) -> ConfigWarningView {
        ConfigWarningView {
            code: self.code.deep_view(),
            key: self.key.deep_view(),
            tier: self.tier.deep_view(),
            value: self.value.deep_view(),
            message: self.message.deep_view(),
        }
    }
}

/// What resolution reports besides the configuration.
#[derive(Debug, PartialEq, Eq)]
pub struct ResolveDiagnostics {
    pub dropped: Vec<DroppedKey>,
    pub warnings: Vec<ConfigWarning>,
}

/// The model of [`ResolveDiagnostics`].
pub struct ResolveDiagnosticsView {
    pub dropped: Seq<DroppedKeyView>,
    pub warnings: Seq<ConfigWarningView>,
}

impl DeepView for ResolveDiagnostics {
    type V = ResolveDiagnosticsView;

    open spec fn deep_view(&self) -> ResolveDiagnosticsView {
        ResolveDiagnosticsView {
            dropped: self.dropped.deep_view(),
            warnings: self.warnings.deep_view(),
        }
    }
}

/// The resolved configuration and what was reported on the way.
#[derive(Debug, PartialEq, Eq)]
pub struct ResolveResult {
    pub config: Config,
    pub dropped: Vec<DroppedKey>,
    pub warnings: Vec<ConfigWarning>,
}

/// The model of [`ResolveResult`].
pub struct ResolveResultView {
    pub config: ConfigView,
    pub dropped: Seq<DroppedKeyView>,
    pub warnings: Seq<ConfigWarningView>,
}

impl DeepView for ResolveResult {
    type V = ResolveResultView;

    open spec fn deep_view(&self) -> ResolveResultView {
        ResolveResultView {
            config: self.config.deep_view(),
            dropped: self.dropped.deep_view(),
            warnings: self.warnings.deep_view(),
        }
    }
}


/// What is set where it is set, the current value otherwise.
#[verifier::opaque]
pub open spec fn set_or<T>(value: Option<T>, current: T) -> T {
    match value {
        Some(value) => value,
        None => current,
    }
}

fn pick<T>(value: Option<T>, current: T) -> (out: T)
    ensures
        out == set_or(value, current),
{
    reveal(set_or);
    match value {
        Some(value) => value,
        None => current,
    }
}

/// `value` within `least..=most`.
pub open spec fn clamped(value: u64, least: u64, most: u64) -> u64 {
    if value < least {
        least
    } else if value > most {
        most
    } else {
        value
    }
}

fn clamp(value: u64, least: u64, most: u64) -> (out: u64)
    ensures
        out == clamped(value, least, most),
{
    if value < least {
        least
    } else if value > most {
        most
    } else {
        value
    }
}

/// The connection file of the daemon: trimmed, and unset where nothing is left of it.
pub open spec fn connection_file(subc: Option<RawSubcView>) -> Option<Seq<char>> {
    match subc {
        Some(subc) => match subc.connection_file {
            Some(path) => if text::trimmed(path).len() > 0 {
                Some(text::trimmed(path))
            } else {
                None
            },
            None => None,
        },
        None => None,
    }
}

/// The model of embeddings: the configured one; the default one, except that Synapse has none.
pub open spec fn semantic_model(raw: RawSemanticView) -> Seq<char> {
    match raw.model {
        Some(model) => model,
        None => if raw.backend == Some(SemanticBackend::Synapse) {
            Seq::empty()
        } else {
            "all-MiniLM-L6-v2"@
        },
    }
}

pub open spec fn semantic_resolved(
    raw: Option<RawSemanticView>,
    subc: Option<RawSubcView>,
) -> SemanticBackendConfigView {
    let start = SemanticBackendConfigView {
        subc_connection_file: connection_file(subc),
        ..SemanticBackendConfigView::default_view()
    };
    match raw {
        None => start,
        Some(raw) => SemanticBackendConfigView {
            backend: merge::or_value(raw.backend, start.backend),
            model: semantic_model(raw),
            base_url: raw.base_url,
            api_key_env: raw.api_key_env,
            timeout_ms: match raw.timeout_ms {
                Some(value) => clamped(value, 0, MAX_SEMANTIC_TIMEOUT_MS),
                None => start.timeout_ms,
            },
            query_timeout_ms: match raw.query_timeout_ms {
                Some(value) => clamped(
                    value,
                    MIN_SEMANTIC_QUERY_TIMEOUT_MS,
                    MAX_SEMANTIC_QUERY_TIMEOUT_MS,
                ),
                None => start.query_timeout_ms,
            },
            max_batch_size: match raw.max_batch_size {
                Some(value) => if value > MAX_SEMANTIC_BATCH_SIZE {
                    MAX_SEMANTIC_BATCH_SIZE
                } else {
                    value
                },
                None => start.max_batch_size,
            },
            max_files: merge::or_value(raw.max_files, start.max_files),
            ..start
        },
    }
}

/// Resolves the semantic section; budgets are clamped.
pub fn resolve_semantic_config(raw: Option<&RawSemantic>, subc: Option<&RawSubc>) -> (out:
    SemanticBackendConfig)
    ensures
        out.deep_view() == semantic_resolved(raw.deep_view(), subc.deep_view()),
{
    let mut semantic = SemanticBackendConfig::default();
    semantic.subc_connection_file = match subc {
        Some(subc) => match &subc.connection_file {
            Some(path) => {
                let path = text::trim(path.as_str());
                if path.as_str().is_empty() {
                    None
                } else {
                    Some(path)
                }
            },
            None => None,
        },
        None => None,
    };
    let raw = match raw {
        Some(raw) => raw,
        None => {
            return semantic;
        },
    };
    if let Some(backend) = raw.backend {
        semantic.backend = backend;
        if backend == SemanticBackend::Synapse {
            semantic.model = String::new();
        }
    }
    if let Some(model) = &raw.model {
        semantic.model = model.clone();
    }
    semantic.base_url = raw.base_url.clone();
    semantic.api_key_env = raw.api_key_env.clone();
    if let Some(value) = raw.timeout_ms {
        semantic.timeout_ms = clamp(value, 0, MAX_SEMANTIC_TIMEOUT_MS);
    }
    if let Some(value) = raw.query_timeout_ms {
        semantic.query_timeout_ms =
            clamp(value, MIN_SEMANTIC_QUERY_TIMEOUT_MS, MAX_SEMANTIC_QUERY_TIMEOUT_MS);
    }
    if let Some(value) = raw.max_batch_size {
        semantic.max_batch_size =
            if value > MAX_SEMANTIC_BATCH_SIZE {
                MAX_SEMANTIC_BATCH_SIZE
            } else {
                value
            };
    }
    if let Some(value) = raw.max_files {
        semantic.max_files = value;
    }
    semantic
}

pub open spec fn inspect_resolved(raw: Option<RawInspectView>) -> InspectConfigView {
    let start = InspectConfigView::default_view();
    match raw {
        None => start,
        Some(raw) => InspectConfigView {
            enabled: merge::or_value(raw.enabled, start.enabled),
            diagnostics_timeout_ms: match raw.diagnostics_timeout_ms {
                Some(value) => clamped(
                    value,
                    MIN_INSPECT_DIAGNOSTICS_TIMEOUT_MS,
                    MAX_INSPECT_DIAGNOSTICS_TIMEOUT_MS,
                ),
                None => start.diagnostics_timeout_ms,
            },
            duplicates: InspectDuplicatesConfigView {
                expected_mirrors: match raw.duplicates {
                    Some(duplicates) => merge::or_value(
                        duplicates.expected_mirrors,
                        Seq::empty(),
                    ),
                    None => Seq::empty(),
                },
            },
        },
    }
}

fn copy_pairs(pairs: &Vec<(String, String)>) -> (out: Vec<(String, String)>)
    ensures
        out.deep_view() == pairs.deep_view(),
{
    let mut out: Vec<(String, String)> = Vec::new();
    let mut i: usize = 0;
    while i < pairs.len()
        invariant
            i <= pairs.len(),
            out@.len() == i,
            forall|k: int|
                0 <= k < i ==> (#[trigger] out@[k]).0@ == pairs@[k].0@ && out@[k].1@
                    == pairs@[k].1@,
        decreases pairs.len() - i,
    {
        out.push((pairs[i].0.clone(), pairs[i].1.clone()));
        i = i + 1;
    }
    assert(out.deep_view() =~= pairs.deep_view());
    out
}

fn no_texts() -> (out: Vec<String>)
    ensures
        out.deep_view() == Seq::<Seq<char>>::empty(),
{
    let out: Vec<String> = Vec::new();
    assert(out.deep_view() =~= Seq::<Seq<char>>::empty());
    out
}

/// Resolves the inspection section; the deadline is clamped.
pub fn resolve_inspect_config(raw: Option<&RawInspect>) -> (out: InspectConfig)
    ensures
        out.deep_view() == inspect_resolved(raw.deep_view()),
{
    let mut inspect = InspectConfig::default();
    let raw = match raw {
        Some(raw) => raw,
        None => {
            return inspect;
        },
    };
    if let Some(enabled) = raw.enabled {
        inspect.enabled = enabled;
    }
    if let Some(value) = raw.diagnostics_timeout_ms {
        inspect.diagnostics_timeout_ms = clamp(
            value,
            MIN_INSPECT_DIAGNOSTICS_TIMEOUT_MS,
            MAX_INSPECT_DIAGNOSTICS_TIMEOUT_MS,
        );
    }
    if let Some(duplicates) = &raw.duplicates {
        if let Some(mirrors) = &duplicates.expected_mirrors {
            inspect.duplicates = InspectDuplicatesConfig { expected_mirrors: copy_pairs(mirrors) };
        }
    }
    inspect
}

pub open spec fn backup_resolved(raw: Option<RawBackup>) -> BackupConfigView {
    let start = BackupConfigView::default_view();
    match raw {
        None => start,
        Some(raw) => BackupConfigView {
            enabled: if raw.enabled is Some {
                raw.enabled
            } else {
                start.enabled
            },
            max_depth: if raw.max_depth is Some {
                raw.max_depth
            } else {
                start.max_depth
            },
            max_file_size: raw.max_file_size,
        },
    }
}

/// Resolves the undo history section.
pub fn resolve_backup_config(raw: Option<&RawBackup>) -> (out: BackupConfig)
    ensures
        out.deep_view() == backup_resolved(raw.deep_view()),
{
    let mut backup = BackupConfig::default();
    if let Some(raw) = raw {
        if raw.enabled.is_some() {
            backup.enabled = raw.enabled;
        }
        if raw.max_depth.is_some() {
            backup.max_depth = raw.max_depth;
        }
        if raw.max_file_size.is_some() {
            backup.max_file_size = raw.max_file_size;
        }
    }
    backup
}

pub open spec fn worktree_resolved(raw: Option<RawWorktree>) -> WorktreeConfigView {
    WorktreeConfigView { ram_overlay: raw is Some && raw->0.ram_overlay == Some(true) }
}

/// Resolves the linked-worktree section.
pub fn resolve_worktree_config(raw: Option<&RawWorktree>) -> (out: WorktreeConfig)
    ensures
        out.deep_view() == worktree_resolved(raw.deep_view()),
{
    let ram_overlay = match raw {
        Some(raw) => raw.ram_overlay == Some(true),
        None => false,
    };
    WorktreeConfig { ram_overlay }
}

pub open spec fn gh_shim_resolved(raw: Option<RawGhShimView>) -> GhShimConfigView {
    GhShimConfigView {
        enabled: !(raw is Some && raw->0.enabled == Some(false)),
        binary_path: if raw is Some {
            raw->0.binary_path
        } else {
            None
        },
    }
}

/// Resolves the `gh` shim section.
pub fn resolve_gh_shim_config(raw: Option<&RawGhShim>) -> (out: GhShimConfig)
    ensures
        out.deep_view() == gh_shim_resolved(raw.deep_view()),
{
    let mut gh_shim = GhShimConfig::default();
    if let Some(raw) = raw {
        if let Some(enabled) = raw.enabled {
            gh_shim.enabled = enabled;
        }
        gh_shim.binary_path = raw.binary_path.clone();
    }
    gh_shim
}

pub open spec fn gh_read_resolved(raw: Option<RawGhRead>) -> GhReadConfigView {
    GhReadConfigView { enabled: raw is Some && raw->0.enabled == Some(true) }
}

/// Resolves the GitHub read section.
pub fn resolve_gh_read_config(raw: Option<&RawGhRead>) -> (out: GhReadConfig)
    ensures
        out.deep_view() == gh_read_resolved(raw.deep_view()),
{
    let enabled = match raw {
        Some(raw) => raw.enabled == Some(true),
        None => false,
    };
    GhReadConfig { enabled }
}

pub open spec fn git_resolved(raw: Option<RawGitView>) -> GitConfigView {
    GitConfigView {
        co_author: match raw {
            Some(raw) => merge::or_value(raw.co_author, "off"@),
            None => "off"@,
        },
    }
}

/// Resolves the git section.
pub fn resolve_git_config(raw: Option<&RawGit>) -> (out: GitConfig)
    ensures
        out.deep_view() == git_resolved(raw.deep_view()),
{
    if let Some(raw) = raw {
        if let Some(co_author) = &raw.co_author {
            return GitConfig { co_author: co_author.clone() };
        }
    }
    GitConfig { co_author: "off".to_owned() }
}

pub open spec fn sandbox_resolved(raw: Option<RawSandboxView>) -> SandboxConfigView {
    match raw {
        None => SandboxConfigView::default_view(),
        Some(raw) => SandboxConfigView {
            enabled: merge::or_value(raw.enabled, false),
            write_allow: merge::or_value(raw.write_allow, Seq::empty()),
            read_deny: merge::or_value(raw.read_deny, Seq::empty()),
        },
    }
}

/// Resolves the sandbox section.
pub fn resolve_sandbox_config(raw: Option<&RawSandbox>) -> (out: SandboxConfig)
    ensures
        out.deep_view() == sandbox_resolved(raw.deep_view()),
{
    let raw = match raw {
        Some(raw) => raw,
        None => {
            return SandboxConfig::default();
        },
    };
    SandboxConfig {
        enabled: match raw.enabled {
            Some(enabled) => enabled,
            None => false,
        },
        write_allow: match &raw.write_allow {
            Some(paths) => text::copy_texts(paths),
            None => no_texts(),
        },
        read_deny: match &raw.read_deny {
            Some(paths) => text::copy_texts(paths),
            None => no_texts(),
        },
    }
}

/// The memory section carries its limit over.
pub open spec fn memory_resolved(raw: Option<RawMemory>) -> MemoryConfigView {
    MemoryConfigView {
        limit_bytes: match raw {
            Some(raw) => raw.limit_bytes,
            None => None,
        },
    }
}

fn resolve_memory_config(raw: Option<&RawMemory>) -> (out: MemoryConfig)
    ensures
        out.deep_view() == memory_resolved(raw.deep_view()),
{
    MemoryConfig {
        limit_bytes: match raw {
            Some(raw) => raw.limit_bytes,
            None => None,
        },
    }
}

/// A server as it is started: extensions lose their leading dots, and the repository root is
/// marked by `.git` where nothing else is said.
pub open spec fn server_resolved(
    id: Seq<char>,
    server: RawLspServerEntryView,
) -> UserServerDefView {
    UserServerDefView {
        id,
        extensions: extensions_resolved(server.extensions),
        binary: merge::or_value(server.binary, Seq::empty()),
        args: merge::or_value(server.args, Seq::empty()),
        root_markers: merge::or_value(server.root_markers, seq![".git"@]),
        env: merge::or_value(server.env, Seq::empty()),
        initialization_options: server.initialization_options,
        disabled: merge::or_value(server.disabled, false),
    }
}

pub open spec fn extensions_resolved(extensions: Option<Seq<Seq<char>>>) -> Seq<Seq<char>> {
    let given = merge::or_value(extensions, Seq::empty());
    Seq::new(given.len(), |i: int| text::without_leading_dots(given[i]))
}

pub open spec fn servers_resolved(servers: Seq<(Seq<char>, RawLspServerEntryView)>) -> Seq<
    UserServerDefView,
> {
    Seq::new(servers.len(), |i: int| server_resolved(servers[i].0, servers[i].1))
}

fn resolve_extensions(extensions: &Option<Vec<String>>) -> (out: Vec<String>)
    ensures
        out.deep_view() == extensions_resolved(extensions.deep_view()),
{
    let mut out: Vec<String> = Vec::new();
    if let Some(given) = extensions {
        let mut i: usize = 0;
        while i < given.len()
            invariant
                i <= given.len(),
                out@.len() == i,
                forall|k: int|
                    0 <= k < i ==> (#[trigger] out@[k])@ == text::without_leading_dots(given@[k]@),
            decreases given.len() - i,
        {
            out.push(text::strip_leading_dots(given[i].as_str()));
            i = i + 1;
        }
    }
    assert(out.deep_view() =~= extensions_resolved(extensions.deep_view()));
    out
}

fn copy_map(map: &TextMap<String>) -> (out: TextMap<String>)
    ensures
        out.deep_view() == map.deep_view(),
{
    TextMap { entries: copy_pairs(&map.entries) }
}

fn resolve_server(id: &String, server: &RawLspServerEntry) -> (out: UserServerDef)
    ensures
        out.deep_view() == server_resolved(id@, server.deep_view()),
{
    let root_markers = match &server.root_markers {
        Some(markers) => text::copy_texts(markers),
        None => {
            let mut markers: Vec<String> = Vec::new();
            markers.push(".git".to_owned());
            assert(markers.deep_view() =~= seq![".git"@]);
            markers
        },
    };
    UserServerDef {
        id: id.clone(),
        extensions: resolve_extensions(&server.extensions),
        binary: match &server.binary {
            Some(binary) => binary.clone(),
            None => String::new(),
        },
        args: match &server.args {
            Some(args) => text::copy_texts(args),
            None => no_texts(),
        },
        root_markers,
        env: match &server.env {
            Some(env) => copy_map(env),
            None => TextMap::new(),
        },
        initialization_options: match &server.initialization_options {
            Some(options) => Some(options.copy()),
            None => None,
        },
        disabled: match server.disabled {
            Some(disabled) => disabled,
            None => false,
        },
    }
}

fn resolve_servers(servers: &TextMap<RawLspServerEntry>) -> (out: Vec<UserServerDef>)
    ensures
        out.deep_view() == servers_resolved(servers.deep_view()),
{
    let mut out: Vec<UserServerDef> = Vec::new();
    let mut i: usize = 0;
    while i < servers.entries.len()
        invariant
            i <= servers.entries.len(),
            out@.len() == i,
            forall|k: int|
                0 <= k < i ==> (#[trigger] out@[k]).deep_view() == server_resolved(
                    servers.entries@[k].0@,
                    servers.entries@[k].1.deep_view(),
                ),
        decreases servers.entries.len() - i,
    {
        let entry = &servers.entries[i];
        out.push(resolve_server(&entry.0, &entry.1));
        i = i + 1;
    }
    assert(out.deep_view() =~= servers_resolved(servers.deep_view()));
    out
}

/// The ids of disabled servers in lower case.
pub open spec fn lowered_set(ids: Seq<Seq<char>>) -> Set<Seq<char>>
    decreases ids.len(),
{
    if ids.len() == 0 {
        Set::empty()
    } else {
        lowered_set(ids.drop_last()).insert(text::ascii_lowered(ids.last()))
    }
}

fn lower_set(ids: &Vec<String>) -> (out: TextSet)
    ensures
        out.deep_view() == lowered_set(ids.deep_view()),
{
    let ghost model = ids.deep_view();
    let mut out = TextSet::new();
    let mut i: usize = 0;
    assert(model.take(0) =~= Seq::empty());
    while i < ids.len()
        invariant
            i <= ids.len(),
            model == ids.deep_view(),
            out.deep_view() == lowered_set(model.take(i as int)),
        decreases ids.len() - i,
    {
        proof {
            assert(model[i as int] == ids@[i as int]@);
            assert(model.take(i + 1).drop_last() =~= model.take(i as int));
            assert(model.take(i + 1).last() == model[i as int]);
        }
        out.insert(text::to_ascii_lower(ids[i].as_str()));
        i = i + 1;
    }
    assert(model.take(model.len() as int) =~= model);
    out
}

/// Which Python server is chosen.
pub open spec fn python_choice(raw: RawAftConfigView) -> RawPythonLsp {
    match raw.lsp {
        Some(lsp) => merge::or_value(lsp.python, RawPythonLsp::Auto),
        None => RawPythonLsp::Auto,
    }
}

/// The servers that are disabled: those that are listed, and the Python server that was not
/// chosen.
pub open spec fn disabled_servers(raw: RawAftConfigView) -> Set<Seq<char>> {
    let listed = match raw.lsp {
        Some(lsp) => lowered_set(merge::or_value(lsp.disabled, Seq::empty())),
        None => Set::empty(),
    };
    match python_choice(raw) {
        RawPythonLsp::Ty => listed.insert("python"@),
        RawPythonLsp::Pyright => listed.insert("ty"@),
        RawPythonLsp::Auto => listed,
    }
}

/// Whether the experimental Python server runs, where that is said.
pub open spec fn experimental_ty(raw: RawAftConfigView) -> Option<bool> {
    match python_choice(raw) {
        RawPythonLsp::Ty => Some(true),
        RawPythonLsp::Pyright => Some(false),
        RawPythonLsp::Auto => match raw.experimental {
            Some(experimental) => experimental.lsp_ty,
            None => None,
        },
    }
}

/// Whether diagnostics follow edits, where that is said.
pub open spec fn diagnostics_choice(raw: RawAftConfigView) -> Option<bool> {
    match raw.lsp {
        Some(lsp) => lsp.diagnostics_on_edit,
        None => None,
    }
}

/// The user-defined servers: those of the document where it lists any, the current ones
/// otherwise.
#[verifier::opaque]
pub open spec fn servers_applied(raw: RawAftConfigView, current: Seq<UserServerDefView>) -> Seq<
    UserServerDefView,
> {
    match raw.lsp {
        Some(lsp) => match lsp.servers {
            Some(servers) => servers_resolved(servers),
            None => current,
        },
        None => current,
    }
}

/// The disabled servers: those that the document disables where there are any, the current ones
/// otherwise.
#[verifier::opaque]
pub open spec fn disabled_applied(
    raw: RawAftConfigView,
    current: Set<Seq<char>>,
) -> Set<Seq<char>> {
    if disabled_servers(raw) == Set::<Seq<char>>::empty() {
        current
    } else {
        disabled_servers(raw)
    }
}

/// `config` with the language server settings of `raw`.
pub open spec fn lsp_applied(raw: RawAftConfigView, config: ConfigView) -> ConfigView {
    ConfigView {
        experimental_lsp_ty: set_or(experimental_ty(raw), config.experimental_lsp_ty),
        diagnostics_on_edit: set_or(diagnostics_choice(raw), config.diagnostics_on_edit),
        lsp_servers: servers_applied(raw, config.lsp_servers),
        disabled_lsp: disabled_applied(raw, config.disabled_lsp),
        ..config
    }
}

fn choose_python(raw: &RawAftConfig) -> (out: RawPythonLsp)
    ensures
        out == python_choice(raw.deep_view()),
{
    match &raw.lsp {
        Some(lsp) => match lsp.python {
            Some(python) => python,
            None => RawPythonLsp::Auto,
        },
        None => RawPythonLsp::Auto,
    }
}

fn choose_ty(raw: &RawAftConfig) -> (out: Option<bool>)
    ensures
        out == experimental_ty(raw.deep_view()),
{
    match choose_python(raw) {
        RawPythonLsp::Ty => Some(true),
        RawPythonLsp::Pyright => Some(false),
        RawPythonLsp::Auto => match &raw.experimental {
            Some(experimental) => experimental.lsp_ty,
            None => None,
        },
    }
}

fn choose_diagnostics(raw: &RawAftConfig) -> (out: Option<bool>)
    ensures
        out == diagnostics_choice(raw.deep_view()),
{
    match &raw.lsp {
        Some(lsp) => lsp.diagnostics_on_edit,
        None => None,
    }
}

fn apply_servers(raw: &RawAftConfig, current: Vec<UserServerDef>) -> (out: Vec<UserServerDef>)
    ensures
        out.deep_view() == servers_applied(raw.deep_view(), current.deep_view()),
{
    reveal(servers_applied);
    if let Some(lsp) = &raw.lsp {
        if let Some(servers) = &lsp.servers {
            return resolve_servers(servers);
        }
    }
    current
}

fn apply_disabled(raw: &RawAftConfig, current: TextSet) -> (out: TextSet)
    ensures
        out.deep_view() == disabled_applied(raw.deep_view(), current.deep_view()),
{
    reveal(disabled_applied);
    let mut disabled = match &raw.lsp {
        Some(lsp) => match &lsp.disabled {
            Some(ids) => lower_set(ids),
            None => TextSet::new(),
        },
        None => TextSet::new(),
    };
    match choose_python(raw) {
        RawPythonLsp::Ty => {
            disabled.insert("python".to_owned());
        },
        RawPythonLsp::Pyright => {
            disabled.insert("ty".to_owned());
        },
        RawPythonLsp::Auto => {},
    }
    if disabled.is_empty() {
        current
    } else {
        disabled
    }
}

/// Applies the language server settings.
pub fn resolve_lsp_config(raw: &RawAftConfig, config: Config) -> (out: Config)
    ensures
        out.deep_view() == lsp_applied(raw.deep_view(), config.deep_view()),
{
    Config {
        experimental_lsp_ty: pick(choose_ty(raw), config.experimental_lsp_ty),
        diagnostics_on_edit: pick(choose_diagnostics(raw), config.diagnostics_on_edit),
        lsp_servers: apply_servers(raw, config.lsp_servers),
        disabled_lsp: apply_disabled(raw, config.disabled_lsp),
        ..config
    }
}

/// The bash settings after all forms of them are weighed.
#[derive(Debug, Clone, Copy, PartialEq, Eq)]
pub struct ResolvedBashConfig {
    pub enabled: bool,
    pub rewrite: bool,
    pub compress: bool,
    pub background: bool,
    pub host_fallback: bool,
    pub subagent_background: bool,
    pub detach_on_user_message: bool,
    pub long_running_reminder_enabled: Option<bool>,
    pub long_running_reminder_interval_ms: Option<u64>,
    pub foreground_wait_window_ms: u64,
    pub powershell_tool: bool,
}

/// The features of the object form; none are set in the other forms.
pub open spec fn top_features(bash: Option<RawBash>) -> RawBashFeatures {
    match bash {
        Some(RawBash::Features(features)) => features,
        _ => raw::unset_bash_features(),
    }
}

/// The legacy flags.
pub open spec fn legacy_bash(raw: RawAftConfigView) -> RawExperimentalBash {
    match raw.experimental {
        Some(experimental) => merge::or_value(
            experimental.bash,
            raw::unset_experimental_bash(),
        ),
        None => raw::unset_experimental_bash(),
    }
}

/// Whether rewriting, compression and background execution are on. The bash section decides: a
/// switch sets all three, an object leaves on what it does not switch off. Without a section the
/// legacy flags decide where one is set, and otherwise the tool surface.
pub open spec fn bash_flags(raw: RawAftConfigView) -> (bool, bool, bool) {
    match raw.bash {
        Some(RawBash::Bool(on)) => (on, on, on),
        Some(RawBash::Features(features)) => (
            merge::or_value(features.rewrite, true),
            merge::or_value(features.compress, true),
            merge::or_value(features.background, true),
        ),
        None => {
            let legacy = legacy_bash(raw);
            let surface = raw.tool_surface != Some(RawToolSurface::Minimal);
            if raw::has_feature_flag(legacy) {
                (
                    legacy.rewrite == Some(true),
                    legacy.compress == Some(true),
                    legacy.background == Some(true),
                )
            } else {
                (surface, surface, surface)
            }
        },
    }
}

pub open spec fn bash_resolved(raw: RawAftConfigView) -> ResolvedBashConfig {
    let features = top_features(raw.bash);
    let legacy = legacy_bash(raw);
    let (rewrite, compress, background) = bash_flags(raw);
    let wait = merge::or_value(
        features.foreground_wait_window_ms,
        FOREGROUND_WAIT_WINDOW_DEFAULT_MS,
    );
    ResolvedBashConfig {
        enabled: rewrite || compress || background || (raw.bash matches Some(
            RawBash::Features(_),
        )),
        rewrite,
        compress,
        background,
        host_fallback: merge::or_value(features.host_fallback, false),
        subagent_background: merge::or_value(features.subagent_background, false),
        detach_on_user_message: merge::or_value(features.detach_on_user_message, true),
        long_running_reminder_enabled: if features.long_running_reminder_enabled is Some {
            features.long_running_reminder_enabled
        } else {
            legacy.long_running_reminder_enabled
        },
        long_running_reminder_interval_ms: if features.long_running_reminder_interval_ms is Some {
            features.long_running_reminder_interval_ms
        } else {
            legacy.long_running_reminder_interval_ms
        },
        foreground_wait_window_ms: if wait < FOREGROUND_WAIT_WINDOW_MIN_MS {
            FOREGROUND_WAIT_WINDOW_MIN_MS
        } else {
            wait
        },
        powershell_tool: merge::or_value(features.powershell_tool, false),
    }
}

fn flag(value: Option<bool>, fallback: bool) -> (out: bool)
    ensures
        out == merge::or_value(value, fallback),
{
    match value {
        Some(value) => value,
        None => fallback,
    }
}

/// Weighs all forms of the bash settings.
pub fn resolve_bash_config(raw: &RawAftConfig) -> (out: ResolvedBashConfig)
    ensures
        out == bash_resolved(raw.deep_view()),
{
    let features = match raw.bash {
        Some(RawBash::Features(features)) => features,
        _ => RawBashFeatures::default(),
    };
    let legacy = match raw.experimental {
        Some(experimental) => match experimental.bash {
            Some(bash) => bash,
            None => RawExperimentalBash::default(),
        },
        None => RawExperimentalBash::default(),
    };
    let surface = match raw.tool_surface {
        Some(RawToolSurface::Minimal) => false,
        _ => true,
    };
    let wait: u64 = match features.foreground_wait_window_ms {
        Some(wait) => wait,
        None => FOREGROUND_WAIT_WINDOW_DEFAULT_MS,
    };
    let base = ResolvedBashConfig {
        enabled: false,
        rewrite: false,
        compress: false,
        background: false,
        host_fallback: flag(features.host_fallback, false),
        subagent_background: flag(features.subagent_background, false),
        detach_on_user_message: flag(features.detach_on_user_message, true),
        long_running_reminder_enabled: match features.long_running_reminder_enabled {
            Some(enabled) => Some(enabled),
            None => legacy.long_running_reminder_enabled,
        },
        long_running_reminder_interval_ms: match features.long_running_reminder_interval_ms {
            Some(interval) => Some(interval),
            None => legacy.long_running_reminder_interval_ms,
        },
        foreground_wait_window_ms: if wait < FOREGROUND_WAIT_WINDOW_MIN_MS {
            FOREGROUND_WAIT_WINDOW_MIN_MS
        } else {
            wait
        },
        powershell_tool: flag(features.powershell_tool, false),
    };
    match raw.bash {
        Some(RawBash::Bool(on)) => ResolvedBashConfig {
            enabled: on,
            rewrite: on,
            compress: on,
            background: on,
            ..base
        },
        Some(RawBash::Features(features)) => ResolvedBashConfig {
            enabled: true,
            rewrite: flag(features.rewrite, true),
            compress: flag(features.compress, true),
            background: flag(features.background, true),
            ..base
        },
        None => {
            if legacy.has_legacy_feature_flag() {
                let rewrite = legacy.rewrite == Some(true);
                let compress = legacy.compress == Some(true);
                let background = legacy.background == Some(true);
                return ResolvedBashConfig {
                    enabled: rewrite || compress || background,
                    rewrite,
                    compress,
                    background,
                    ..base
                };
            }
            ResolvedBashConfig {
                enabled: surface,
                rewrite: surface,
                compress: surface,
                background: surface,
                ..base
            }
        },
    }
}

/// `config` with the bash settings of `raw`. Whether bash is registered at all, and for
/// subagents, is the plugin's business: the engine keeps neither.
pub open spec fn bash_applied(raw: RawAftConfigView, config: ConfigView) -> ConfigView {
    let bash = bash_resolved(raw);
    ConfigView {
        bash: BashConfigView {
            host_fallback: bash.host_fallback,
            detach_on_user_message: bash.detach_on_user_message,
            powershell_tool: bash.powershell_tool,
        },
        experimental_bash_rewrite: bash.rewrite,
        experimental_bash_compress: bash.compress,
        experimental_bash_background: bash.background,
        foreground_wait_window_ms: bash.foreground_wait_window_ms,
        bash_long_running_reminder_enabled: set_or(
            bash.long_running_reminder_enabled,
            config.bash_long_running_reminder_enabled,
        ),
        bash_long_running_reminder_interval_ms: set_or(
            bash.long_running_reminder_interval_ms,
            config.bash_long_running_reminder_interval_ms,
        ),
        ..config
    }
}

/// Applies the bash settings.
pub fn resolve_bash_fields(raw: &RawAftConfig, config: Config) -> (out: Config)
    ensures
        out.deep_view() == bash_applied(raw.deep_view(), config.deep_view()),
{
    let bash = resolve_bash_config(raw);
    Config {
        bash: BashConfig {
            host_fallback: bash.host_fallback,
            detach_on_user_message: bash.detach_on_user_message,
            powershell_tool: bash.powershell_tool,
        },
        experimental_bash_rewrite: bash.rewrite,
        experimental_bash_compress: bash.compress,
        experimental_bash_background: bash.background,
        foreground_wait_window_ms: bash.foreground_wait_window_ms,
        bash_long_running_reminder_enabled: pick(
            bash.long_running_reminder_enabled,
            config.bash_long_running_reminder_enabled,
        ),
        bash_long_running_reminder_interval_ms: pick(
            bash.long_running_reminder_interval_ms,
            config.bash_long_running_reminder_interval_ms,
        ),
        ..config
    }
}

pub open spec fn formatter_names(map: Seq<(Seq<char>, RawFormatter)>) -> Seq<
    (Seq<char>, Seq<char>),
> {
    Seq::new(map.len(), |i: int| (map[i].0, map[i].1.name()))
}

pub open spec fn checker_names(map: Seq<(Seq<char>, RawChecker)>) -> Seq<(Seq<char>, Seq<char>)> {
    Seq::new(map.len(), |i: int| (map[i].0, map[i].1.name()))
}

fn name_formatters(map: &TextMap<RawFormatter>) -> (out: TextMap<String>)
    ensures
        out.deep_view() == formatter_names(map.deep_view()),
{
    let mut entries: Vec<(String, String)> = Vec::new();
    let mut i: usize = 0;
    while i < map.entries.len()
        invariant
            i <= map.entries.len(),
            entries@.len() == i,
            forall|k: int|
                0 <= k < i ==> (#[trigger] entries@[k]).0@ == map.entries@[k].0@
                    && entries@[k].1@ == map.entries@[k].1.name(),
        decreases map.entries.len() - i,
    {
        let entry = &map.entries[i];
        entries.push((entry.0.clone(), entry.1.as_str().to_owned()));
        i = i + 1;
    }
    let out = TextMap { entries };
    assert(out.deep_view() =~= formatter_names(map.deep_view()));
    out
}

fn name_checkers(map: &TextMap<RawChecker>) -> (out: TextMap<String>)
    ensures
        out.deep_view() == checker_names(map.deep_view()),
{
    let mut entries: Vec<(String, String)> = Vec::new();
    let mut i: usize = 0;
    while i < map.entries.len()
        invariant
            i <= map.entries.len(),
            entries@.len() == i,
            forall|k: int|
                0 <= k < i ==> (#[trigger] entries@[k]).0@ == map.entries@[k].0@
                    && entries@[k].1@ == map.entries@[k].1.name(),
        decreases map.entries.len() - i,
    {
        let entry = &map.entries[i];
        entries.push((entry.0.clone(), entry.1.as_str().to_owned()));
        i = i + 1;
    }
    let out = TextMap { entries };
    assert(out.deep_view() =~= checker_names(map.deep_view()));
    out
}

/// Whether the hashline surface is chosen.
pub open spec fn is_hashline(mode: Option<RawEditModeView>) -> bool {
    mode == Some(RawEditModeView::Hashline)
}

/// The validation of edits: what the document says where it says it.
#[verifier::opaque]
pub open spec fn validation_applied(
    raw: Option<RawValidateOnEdit>,
    current: Option<Seq<char>>,
) -> Option<Seq<char>> {
    match raw {
        Some(value) => Some(value.name()),
        None => current,
    }
}

/// The formatters: those of the document where it names any.
#[verifier::opaque]
pub open spec fn formatters_applied(
    raw: Option<Seq<(Seq<char>, RawFormatter)>>,
    current: Seq<(Seq<char>, Seq<char>)>,
) -> Seq<(Seq<char>, Seq<char>)> {
    match raw {
        Some(map) => formatter_names(map),
        None => current,
    }
}

/// The type checkers: those of the document where it names any.
#[verifier::opaque]
pub open spec fn checkers_applied(
    raw: Option<Seq<(Seq<char>, RawChecker)>>,
    current: Seq<(Seq<char>, Seq<char>)>,
) -> Seq<(Seq<char>, Seq<char>)> {
    match raw {
        Some(map) => checker_names(map),
        None => current,
    }
}

fn chooses_hashline(mode: &Option<RawEditMode>) -> (yes: bool)
    ensures
        yes == is_hashline(mode.deep_view()),
{
    match mode {
        Some(RawEditMode::Hashline) => true,
        _ => false,
    }
}

fn apply_validation(
    raw: Option<RawValidateOnEdit>,
    current: Option<String>,
) -> (out: Option<String>)
    ensures
        out.deep_view() == validation_applied(raw, current.deep_view()),
{
    reveal(validation_applied);
    match raw {
        Some(value) => Some(value.as_str().to_owned()),
        None => current,
    }
}

fn apply_formatters(raw: &Option<TextMap<RawFormatter>>, current: TextMap<String>) -> (out: TextMap<
    String,
>)
    ensures
        out.deep_view() == formatters_applied(raw.deep_view(), current.deep_view()),
{
    reveal(formatters_applied);
    match raw {
        Some(map) => name_formatters(map),
        None => current,
    }
}

fn apply_checkers(raw: &Option<TextMap<RawChecker>>, current: TextMap<String>) -> (out: TextMap<
    String,
>)
    ensures
        out.deep_view() == checkers_applied(raw.deep_view(), current.deep_view()),
{
    reveal(checkers_applied);
    match raw {
        Some(map) => name_checkers(map),
        None => current,
    }
}

/// `config` with the switches of `raw`.
pub open spec fn switches_applied(raw: RawAftConfigView, config: ConfigView) -> ConfigView {
    ConfigView {
        hashline_enabled: is_hashline(raw.edit_mode),
        hoist_builtin_tools: set_or(raw.hoist_builtin_tools, config.hoist_builtin_tools),
        format_on_edit: set_or(raw.format_on_edit, config.format_on_edit),
        formatter_timeout_secs: set_or(raw.formatter_timeout_secs, config.formatter_timeout_secs),
        type_checker_timeout_secs: set_or(
            raw.type_checker_timeout_secs,
            config.type_checker_timeout_secs,
        ),
        restrict_to_project_root: set_or(
            raw.restrict_to_project_root,
            config.restrict_to_project_root,
        ),
        search_index: set_or(raw.search_index, config.search_index),
        semantic_search: set_or(raw.semantic_search, config.semantic_search),
        callgraph_store: set_or(raw.callgraph_store, config.callgraph_store),
        callgraph_chunk_size: set_or(raw.callgraph_chunk_size, config.callgraph_chunk_size),
        url_fetch_allow_private: set_or(
            raw.url_fetch_allow_private,
            config.url_fetch_allow_private,
        ),
        validate_on_edit: validation_applied(raw.validate_on_edit, config.validate_on_edit),
        formatter: formatters_applied(raw.formatter, config.formatter),
        checker: checkers_applied(raw.checker, config.checker),
        ..config
    }
}

fn apply_switches(raw: &RawAftConfig, config: Config) -> (out: Config)
    ensures
        out.deep_view() == switches_applied(raw.deep_view(), config.deep_view()),
{
    Config {
        hashline_enabled: chooses_hashline(&raw.edit_mode),
        hoist_builtin_tools: pick(raw.hoist_builtin_tools, config.hoist_builtin_tools),
        format_on_edit: pick(raw.format_on_edit, config.format_on_edit),
        formatter_timeout_secs: pick(raw.formatter_timeout_secs, config.formatter_timeout_secs),
        type_checker_timeout_secs: pick(raw.type_checker_timeout_secs, config.type_checker_timeout_secs),
        restrict_to_project_root: pick(raw.restrict_to_project_root, config.restrict_to_project_root),
        search_index: pick(raw.search_index, config.search_index),
        semantic_search: pick(raw.semantic_search, config.semantic_search),
        callgraph_store: pick(raw.callgraph_store, config.callgraph_store),
        callgraph_chunk_size: pick(raw.callgraph_chunk_size, config.callgraph_chunk_size),
        url_fetch_allow_private: pick(raw.url_fetch_allow_private, config.url_fetch_allow_private),
        validate_on_edit: apply_validation(raw.validate_on_edit, config.validate_on_edit),
        formatter: apply_formatters(&raw.formatter, config.formatter),
        checker: apply_checkers(&raw.checker, config.checker),
        ..config
    }
}

/// `config` with the sections of `raw`; a section that is not there resolves to its default.
pub open spec fn sections_applied(raw: RawAftConfigView, config: ConfigView) -> ConfigView {
    ConfigView {
        semantic: semantic_resolved(raw.semantic, raw.subc),
        inspect: inspect_resolved(raw.inspect),
        memory: memory_resolved(raw.memory),
        backup: backup_resolved(raw.backup),
        worktree: worktree_resolved(raw.worktree),
        gh_shim: gh_shim_resolved(raw.gh_shim),
        gh_read: gh_read_resolved(raw.gh_read),
        git: git_resolved(raw.git),
        sandbox: sandbox_resolved(raw.sandbox),
        ..config
    }
}

fn apply_sections(raw: &RawAftConfig, config: Config) -> (out: Config)
    ensures
        out.deep_view() == sections_applied(raw.deep_view(), config.deep_view()),
{
    Config {
        semantic: resolve_semantic_config(raw.semantic.as_ref(), raw.subc.as_ref()),
        inspect: resolve_inspect_config(raw.inspect.as_ref()),
        memory: resolve_memory_config(raw.memory.as_ref()),
        backup: resolve_backup_config(raw.backup.as_ref()),
        worktree: resolve_worktree_config(raw.worktree.as_ref()),
        gh_shim: resolve_gh_shim_config(raw.gh_shim.as_ref()),
        gh_read: resolve_gh_read_config(raw.gh_read.as_ref()),
        git: resolve_git_config(raw.git.as_ref()),
        sandbox: resolve_sandbox_config(raw.sandbox.as_ref()),
        ..config
    }
}

/// `config` with everything that a merged document says, but its standing index.
pub open spec fn applied(raw: RawAftConfigView, config: ConfigView) -> ConfigView {
    bash_applied(raw, lsp_applied(raw, sections_applied(raw, switches_applied(raw, config))))
}

/// Applies a merged document onto a configuration. Absent switches keep their values; sections
/// are resolved from the document alone.
pub fn apply_resolved_config(raw: &RawAftConfig, config: Config) -> (out: Config)
    ensures
        out.deep_view() == applied(raw.deep_view(), config.deep_view()),
{
    let config = apply_switches(raw, config);
    let config = apply_sections(raw, config);
    let config = resolve_lsp_config(raw, config);
    resolve_bash_fields(raw, config)
}

fn push_warning(
    warnings: &mut Vec<ConfigWarning>,
    code: &'static str,
    key: &'static str,
    tier: &str,
    value: &str,
    message: String,
)
    ensures
        final(warnings).deep_view() == old(warnings).deep_view().push(
            ConfigWarningView {
                code: code@,
                key: key@,
                tier: tier@,
                value: value@,
                message: message@,
            },
        ),
{
    let ghost before = warnings.deep_view();
    let ghost added = ConfigWarningView {
        code: code@,
        key: key@,
        tier: tier@,
        value: value@,
        message: message@,
    };
    warnings.push(
        ConfigWarning { code, key, tier: tier.to_owned(), value: value.to_owned(), message },
    );
    assert(warnings.deep_view() =~= before.push(added));
}

/// The resource policy of a name; an unknown one counts as balanced.
pub open spec fn policy_resolved(name: Option<Seq<char>>) -> IndexResourcePolicy {
    match name {
        Some(name) => merge::or_value(
            IndexResourcePolicy::named(name),
            IndexResourcePolicy::Balanced,
        ),
        None => IndexResourcePolicy::Balanced,
    }
}

pub open spec fn policy_warnings(name: Option<Seq<char>>) -> Seq<ConfigWarningView> {
    match name {
        Some(name) => if IndexResourcePolicy::named(name) is None {
            seq![
                ConfigWarningView {
                    code: "invalid_index_resource_policy"@,
                    key: "index.resource_policy"@,
                    tier: "user"@,
                    value: name,
                    message: "Invalid index.resource_policy "@ + text::debug_text(name)
                        + "; valid values: balanced, performance"@,
                },
            ]
        } else {
            Seq::empty()
        },
        None => Seq::empty(),
    }
}

fn resolve_policy(name: &Option<String>, warnings: &mut Vec<ConfigWarning>) -> (out:
    IndexResourcePolicy)
    ensures
        out == policy_resolved(name.deep_view()),
        final(warnings).deep_view() == old(warnings).deep_view() + policy_warnings(
            name.deep_view(),
        ),
{
    let ghost before = warnings.deep_view();
    match name {
        Some(name) => match IndexResourcePolicy::from_name(name.as_str()) {
            Some(policy) => {
                assert(before + Seq::<ConfigWarningView>::empty() =~= before);
                policy
            },
            None => {
                let mut message = "Invalid index.resource_policy ".to_owned();
                message.append(text::debug_quote(name.as_str()).as_str());
                message.append("; valid values: balanced, performance");
                push_warning(
                    warnings,
                    "invalid_index_resource_policy",
                    "index.resource_policy",
                    "user",
                    name.as_str(),
                    message,
                );
                assert(warnings.deep_view() =~= before + policy_warnings(Some(name@)));
                IndexResourcePolicy::Balanced
            },
        },
        None => {
            assert(before + Seq::<ConfigWarningView>::empty() =~= before);
            IndexResourcePolicy::Balanced
        },
    }
}

/// The warning about one unknown field of the root at `position`.
pub open spec fn unknown_field_warning(field: Seq<char>, position: nat) -> ConfigWarningView {
    ConfigWarningView {
        code: "unknown_index_root_field"@,
        key: "index.roots"@,
        tier: "user"@,
        value: field,
        message: "Ignoring unknown field index.roots["@ + text::decimal(position) + "]."@ + field
            + "; only path and indexes are defined"@,
    }
}

pub open spec fn unknown_field_warnings(
    unknown: Seq<(Seq<char>, JsonView)>,
    position: nat,
) -> Seq<ConfigWarningView> {
    Seq::new(unknown.len(), |i: int| unknown_field_warning(unknown[i].0, position))
}

fn warn_unknown_fields(
    unknown: &TextMap<Json>,
    position: usize,
    warnings: &mut Vec<ConfigWarning>,
)
    ensures
        final(warnings).deep_view() == old(warnings).deep_view() + unknown_field_warnings(
            unknown.deep_view(),
            position as nat,
        ),
{
    let ghost before = warnings.deep_view();
    let ghost expected = unknown_field_warnings(unknown.deep_view(), position as nat);
    let mut i: usize = 0;
    assert(before + expected.take(0) =~= before);
    while i < unknown.entries.len()
        invariant
            i <= unknown.entries.len(),
            expected == unknown_field_warnings(unknown.deep_view(), position as nat),
            warnings.deep_view() == before + expected.take(i as int),
        decreases unknown.entries.len() - i,
    {
        let field = unknown.entries[i].0.as_str();
        let mut message = "Ignoring unknown field index.roots[".to_owned();
        message.append(text::decimal_text(position as u64).as_str());
        message.append("].");
        message.append(field);
        message.append("; only path and indexes are defined");
        push_warning(
            warnings,
            "unknown_index_root_field",
            "index.roots",
            "user",
            field,
            message,
        );
        assert(expected[i as int] == unknown_field_warning(field@, position as nat));
        assert(warnings.deep_view() =~= before + expected.take(i + 1));
        i = i + 1;
    }
    assert(expected.take(expected.len() as int) =~= expected);
}

/// The families that a list of names selects, in its order: every name is known and none is
/// there twice.
pub open spec fn listed_kinds(names: Seq<Seq<char>>) -> Result<Seq<IndexKind>, Seq<char>>
    decreases names.len(),
{
    if names.len() == 0 {
        Ok(Seq::empty())
    } else {
        let name = names.last();
        match listed_kinds(names.drop_last()) {
            Err(message) => Err(message),
            Ok(kinds) => match IndexKind::named(name) {
                None => Err(
                    "index.roots indexes contains unknown name "@ + text::debug_text(name)
                        + "; valid names: search, semantic, callgraph"@,
                ),
                Some(kind) => if kinds.contains(kind) {
                    Err(
                        "index.roots indexes contains duplicate name "@ + text::debug_text(name),
                    )
                } else {
                    Ok(kinds.push(kind))
                },
            },
        }
    }
}

proof fn lemma_bad_names_prefix(names: Seq<Seq<char>>, n: int)
    requires
        0 <= n <= names.len(),
        listed_kinds(names.take(n)) is Err,
    ensures
        listed_kinds(names) == listed_kinds(names.take(n)),
    decreases names.len() - n,
{
    if n < names.len() {
        assert(names.take(n + 1).drop_last() =~= names.take(n));
        lemma_bad_names_prefix(names, n + 1);
    } else {
        assert(names.take(n) =~= names);
    }
}

fn has_kind(kinds: &Vec<IndexKind>, kind: IndexKind) -> (yes: bool)
    ensures
        yes == kinds@.contains(kind),
{
    let mut i: usize = 0;
    while i < kinds.len()
        invariant
            i <= kinds.len(),
            forall|k: int| 0 <= k < i ==> kinds@[k] != kind,
        decreases kinds.len() - i,
    {
        if kinds[i] == kind {
            assert(kinds@[i as int] == kind);
            return true;
        }
        i = i + 1;
    }
    false
}

fn list_kinds(names: &Vec<String>) -> (out: Result<Vec<IndexKind>, String>)
    ensures
        match out {
            Ok(kinds) => listed_kinds(names.deep_view()) == Ok::<Seq<IndexKind>, Seq<char>>(
                kinds@,
            ),
            Err(message) => listed_kinds(names.deep_view()) == Err::<Seq<IndexKind>, Seq<char>>(
                message@,
            ),
        },
{
    let ghost model = names.deep_view();
    let mut kinds: Vec<IndexKind> = Vec::new();
    let mut i: usize = 0;
    assert(model.take(0) =~= Seq::empty());
    while i < names.len()
        invariant
            i <= names.len(),
            model == names.deep_view(),
            listed_kinds(model.take(i as int)) == Ok::<Seq<IndexKind>, Seq<char>>(kinds@),
        decreases names.len() - i,
    {
        let name = names[i].as_str();
        proof {
            assert(model[i as int] == name@);
            assert(model.take(i + 1).drop_last() =~= model.take(i as int));
            assert(model.take(i + 1).last() == name@);
        }
        let kind = match IndexKind::from_name(name) {
            Some(kind) => kind,
            None => {
                let mut message = "index.roots indexes contains unknown name ".to_owned();
                message.append(text::debug_quote(name).as_str());
                message.append("; valid names: search, semantic, callgraph");
                proof {
                    lemma_bad_names_prefix(model, i + 1);
                }
                return Err(message);
            },
        };
        if has_kind(&kinds, kind) {
            let mut message = "index.roots indexes contains duplicate name ".to_owned();
            message.append(text::debug_quote(name).as_str());
            proof {
                lemma_bad_names_prefix(model, i + 1);
            }
            return Err(message);
        }
        kinds.push(kind);
        i = i + 1;
    }
    assert(model.take(model.len() as int) =~= model);
    Ok(kinds)
}

/// The families that a root selects, or why it is invalid.
pub open spec fn root_kinds(root: RawIndexRootView, host: HostView) -> Result<
    Seq<IndexKind>,
    Seq<char>,
> {
    match root.path {
        None => Err("index.roots entry is missing required string field path"@),
        Some(path) => match config::expanded_root(path, host) {
            Err(message) => Err(message),
            Ok(_) => match root.indexes {
                None => Err("index.roots entry is missing required non-empty indexes array"@),
                Some(names) => if names.len() == 0 {
                    Err("index.roots indexes must be a non-empty array"@)
                } else {
                    listed_kinds(names)
                },
            },
        },
    }
}

/// Semantic search reads the search index.
pub open spec fn lacks_search(kinds: Seq<IndexKind>) -> bool {
    kinds.contains(IndexKind::Semantic) && !kinds.contains(IndexKind::Search)
}

/// The selected families in their fixed order, closed under what they depend on.
pub open spec fn normalized_kinds(kinds: Seq<IndexKind>) -> Seq<IndexKind> {
    let search = if kinds.contains(IndexKind::Search) || lacks_search(kinds) {
        seq![IndexKind::Search]
    } else {
        Seq::empty()
    };
    let semantic = if kinds.contains(IndexKind::Semantic) {
        search.push(IndexKind::Semantic)
    } else {
        search
    };
    if kinds.contains(IndexKind::Callgraph) {
        semantic.push(IndexKind::Callgraph)
    } else {
        semantic
    }
}

fn normalize_kinds(kinds: &Vec<IndexKind>) -> (out: Vec<IndexKind>)
    ensures
        out.deep_view() == normalized_kinds(kinds@),
{
    let mut out: Vec<IndexKind> = Vec::new();
    if has_kind(kinds, IndexKind::Search) || has_kind(kinds, IndexKind::Semantic) {
        out.push(IndexKind::Search);
    }
    if has_kind(kinds, IndexKind::Semantic) {
        out.push(IndexKind::Semantic);
    }
    if has_kind(kinds, IndexKind::Callgraph) {
        out.push(IndexKind::Callgraph);
    }
    assert(out.deep_view() =~= normalized_kinds(kinds@));
    out
}

fn check_root(root: &RawIndexRoot, host: &Host) -> (out: Result<Vec<IndexKind>, String>)
    ensures
        match out {
            Ok(kinds) => root.path is Some && root_kinds(root.deep_view(), host.deep_view()) == Ok::<
                Seq<IndexKind>,
                Seq<char>,
            >(kinds@),
            Err(message) => root_kinds(root.deep_view(), host.deep_view()) == Err::<
                Seq<IndexKind>,
                Seq<char>,
            >(message@),
        },
{
    let path = match &root.path {
        Some(path) => path,
        None => {
            return Err("index.roots entry is missing required string field path".to_owned());
        },
    };
    match config::expand_index_root_path(path.as_str(), host) {
        Ok(_) => {},
        Err(message) => {
            return Err(message);
        },
    }
    match &root.indexes {
        None => Err("index.roots entry is missing required non-empty indexes array".to_owned()),
        Some(names) => if names.len() == 0 {
            Err("index.roots indexes must be a non-empty array".to_owned())
        } else {
            list_kinds(names)
        },
    }
}

pub open spec fn closure_warning(path: Seq<char>, position: nat) -> ConfigWarningView {
    ConfigWarningView {
        code: "index_dependency_closure"@,
        key: "index.roots"@,
        tier: "user"@,
        value: path,
        message: "Added search to index.roots["@ + text::decimal(position)
            + "].indexes because semantic depends on search"@,
    }
}

pub open spec fn invalid_root_warning(position: nat, message: Seq<char>) -> ConfigWarningView {
    ConfigWarningView {
        code: "invalid_index_roots"@,
        key: "index.roots"@,
        tier: "user"@,
        value: text::decimal(position),
        message,
    }
}

/// The roots that are maintained and the warnings about them. The first invalid root ends the
/// reading, and then there are no roots.
pub open spec fn roots_resolved(roots: Seq<RawIndexRootView>, host: HostView) -> (
    Option<Seq<IndexRootConfigView>>,
    Seq<ConfigWarningView>,
)
    decreases roots.len(),
{
    if roots.len() == 0 {
        (Some(Seq::empty()), Seq::empty())
    } else {
        let (done, warnings) = roots_resolved(roots.drop_last(), host);
        let position = (roots.len() - 1) as nat;
        let root = roots.last();
        match done {
            None => (None, warnings),
            Some(done) => {
                let warnings = warnings + unknown_field_warnings(root.unknown, position);
                match root_kinds(root, host) {
                    Err(message) => (None, warnings.push(invalid_root_warning(position, message))),
                    Ok(kinds) => (
                        Some(
                            done.push(
                                IndexRootConfigView {
                                    path: root.path->0,
                                    indexes: normalized_kinds(kinds),
                                },
                            ),
                        ),
                        if lacks_search(kinds) {
                            warnings.push(closure_warning(root.path->0, position))
                        } else {
                            warnings
                        },
                    ),
                }
            },
        }
    }
}

proof fn lemma_bad_roots_prefix(roots: Seq<RawIndexRootView>, host: HostView, n: int)
    requires
        0 <= n <= roots.len(),
        roots_resolved(roots.take(n), host).0 is None,
    ensures
        roots_resolved(roots, host) == roots_resolved(roots.take(n), host),
    decreases roots.len() - n,
{
    if n < roots.len() {
        assert(roots.take(n + 1).drop_last() =~= roots.take(n));
        lemma_bad_roots_prefix(roots, host, n + 1);
    } else {
        assert(roots.take(n) =~= roots);
    }
}

fn resolve_roots(
    roots: &Vec<RawIndexRoot>,
    host: &Host,
    warnings: &mut Vec<ConfigWarning>,
) -> (out: Option<Vec<IndexRootConfig>>)
    ensures
        out.deep_view() == roots_resolved(roots.deep_view(), host.deep_view()).0,
        final(warnings).deep_view() == old(warnings).deep_view() + roots_resolved(
            roots.deep_view(),
            host.deep_view(),
        ).1,
{
    let ghost model = roots.deep_view();
    let ghost place = host.deep_view();
    let ghost before = warnings.deep_view();
    let mut done: Vec<IndexRootConfig> = Vec::new();
    let mut i: usize = 0;
    proof {
        assert(model.take(0) =~= Seq::empty());
        assert(done.deep_view() =~= Seq::empty());
        assert(before + Seq::<ConfigWarningView>::empty() =~= before);
    }
    while i < roots.len()
        invariant
            i <= roots.len(),
            model == roots.deep_view(),
            place == host.deep_view(),
            before == old(warnings).deep_view(),
            roots_resolved(model.take(i as int), place).0 == Some(done.deep_view()),
            warnings.deep_view() == before + roots_resolved(model.take(i as int), place).1,
        decreases roots.len() - i,
    {
        let root = &roots[i];
        let ghost earlier = roots_resolved(model.take(i as int), place).1;
        let ghost kept = done.deep_view();
        proof {
            assert(model[i as int] == root.deep_view());
            assert(model.take(i + 1).drop_last() =~= model.take(i as int));
            assert(model.take(i + 1).last() == root.deep_view());
        }
        warn_unknown_fields(&root.unknown, i, warnings);
        let ghost noted = earlier + unknown_field_warnings(root.unknown.deep_view(), i as nat);
        assert(warnings.deep_view() =~= before + noted);
        match check_root(root, host) {
            Ok(kinds) => {
                let path = match &root.path {
                    Some(path) => path.clone(),
                    None => String::new(),
                };
                if has_kind(&kinds, IndexKind::Semantic) && !has_kind(&kinds, IndexKind::Search) {
                    let mut message = "Added search to index.roots[".to_owned();
                    message.append(text::decimal_text(i as u64).as_str());
                    message.append("].indexes because semantic depends on search");
                    push_warning(
                        warnings,
                        "index_dependency_closure",
                        "index.roots",
                        "user",
                        path.as_str(),
                        message,
                    );
                    assert(warnings.deep_view() =~= before + noted.push(
                        closure_warning(path@, i as nat),
                    ));
                }
                done.push(IndexRootConfig { path, indexes: normalize_kinds(&kinds) });
                assert(done.deep_view() =~= kept.push(
                    IndexRootConfigView {
                        path: root.deep_view().path->0,
                        indexes: normalized_kinds(kinds@),
                    },
                ));
            },
            Err(message) => {
                let value = text::decimal_text(i as u64);
                let ghost invalid = invalid_root_warning(i as nat, message@);
                push_warning(
                    warnings,
                    "invalid_index_roots",
                    "index.roots",
                    "user",
                    value.as_str(),
                    message,
                );
                proof {
                    assert(warnings.deep_view() =~= before + noted.push(invalid));
                    lemma_bad_roots_prefix(model, place, i + 1);
                }
                return None;
            },
        }
        i = i + 1;
    }
    assert(model.take(model.len() as int) =~= model);
    Some(done)
}

/// The standing index that a section asks for, and the warnings about it.
pub open spec fn index_resolved(raw: Option<RawIndexView>, host: HostView) -> (
    IndexConfigView,
    Seq<ConfigWarningView>,
) {
    match raw {
        None => (IndexConfigView::default_view(), Seq::empty()),
        Some(raw) => {
            let resource_policy = policy_resolved(raw.resource_policy);
            let warnings = policy_warnings(raw.resource_policy);
            match raw.roots {
                None => (IndexConfigView { resource_policy, roots: Seq::empty() }, warnings),
                Some(roots) => {
                    let (done, more) = roots_resolved(roots, host);
                    (
                        IndexConfigView {
                            resource_policy,
                            roots: merge::or_value(done, Seq::empty()),
                        },
                        warnings + more,
                    )
                },
            }
        },
    }
}

/// Resolves the standing index section.
pub fn resolve_index_config(
    raw: Option<&RawIndex>,
    host: &Host,
    warnings: &mut Vec<ConfigWarning>,
) -> (out: IndexConfig)
    ensures
        out.deep_view() == index_resolved(raw.deep_view(), host.deep_view()).0,
        final(warnings).deep_view() == old(warnings).deep_view() + index_resolved(
            raw.deep_view(),
            host.deep_view(),
        ).1,
{
    let ghost before = warnings.deep_view();
    let raw = match raw {
        Some(raw) => raw,
        None => {
            assert(before + Seq::<ConfigWarningView>::empty() =~= before);
            return IndexConfig::default();
        },
    };
    let resource_policy = resolve_policy(&raw.resource_policy, warnings);
    let none: Vec<IndexRootConfig> = Vec::new();
    assert(none.deep_view() =~= Seq::empty());
    let roots = match &raw.roots {
        None => none,
        Some(roots) => {
            let ghost noted = warnings.deep_view();
            let done = resolve_roots(roots, host, warnings);
            proof {
                let more = roots_resolved(roots.deep_view(), host.deep_view()).1;
                assert(warnings.deep_view() =~= before + (policy_warnings(
                    raw.resource_policy.deep_view(),
                ) + more));
            }
            match done {
                Some(done) => done,
                None => none,
            }
        },
    };
    IndexConfig { resource_policy, roots }
}

/// The entries of an object without one key.
pub open spec fn without_key(entries: Seq<(Seq<char>, JsonView)>, key: Seq<char>) -> Seq<
    (Seq<char>, JsonView),
>
    decreases entries.len(),
{
    if entries.len() == 0 {
        Seq::empty()
    } else {
        let rest = without_key(entries.drop_last(), key);
        if entries.last().0 == key {
            rest
        } else {
            rest.push(entries.last())
        }
    }
}

/// Copies an object without one key.
fn copy_without(entries: &Vec<(String, Json)>, key: &str) -> (out: Json)
    ensures
        out.deep_view() == JsonView::Object(
            without_key(json::json_view(Json::Object(*entries))->Object_0, key@),
        ),
{
    let ghost model = json::json_view(Json::Object(*entries))->Object_0;
    let mut out: Vec<(String, Json)> = Vec::new();
    let ghost mut copied: Seq<(Seq<char>, JsonView)> = Seq::empty();
    let mut i: usize = 0;
    assert(model.take(0) =~= Seq::empty());
    while i < entries.len()
        invariant
            i <= entries.len(),
            model == json::json_view(Json::Object(*entries))->Object_0,
            copied == without_key(model.take(i as int), key@),
            copied.len() == out@.len(),
            forall|k: int|
                0 <= k < out@.len() ==> copied[k] == (
                    (#[trigger] out@[k]).0@,
                    json::json_view(out@[k].1),
                ),
        decreases entries.len() - i,
    {
        proof {
            assert(model[i as int] == (
                entries@[i as int].0@,
                json::json_view(entries@[i as int].1),
            ));
            assert(model.take(i + 1).drop_last() =~= model.take(i as int));
            assert(model.take(i + 1).last() == model[i as int]);
        }
        if !text::same_text(entries[i].0.as_str(), key) {
            out.push((entries[i].0.clone(), entries[i].1.copy()));
            proof {
                copied = copied.push(model[i as int]);
            }
        }
        i = i + 1;
    }
    proof {
        assert(model.take(model.len() as int) =~= model);
        assert(json::json_view(Json::Object(out))->Object_0 =~= copied);
    }
    Json::Object(out)
}

pub open spec fn not_an_object_warning(tier: Seq<char>, label: Seq<char>) -> ConfigWarningView {
    ConfigWarningView {
        code: "invalid_harness_override"@,
        key: "harnesses"@,
        tier,
        value: label,
        message: "Ignoring non-object harness override; overrides must be config objects"@,
    }
}

pub open spec fn nested_override_warning(tier: Seq<char>, label: Seq<char>) -> ConfigWarningView {
    ConfigWarningView {
        code: "nested_harnesses_ignored"@,
        key: "harnesses"@,
        tier,
        value: label,
        message: "Ignoring nested harnesses in harnesses."@ + label
            + "; harness overrides cannot recurse"@,
    }
}

pub open spec fn bad_override_warning(tier: Seq<char>, label: Seq<char>) -> ConfigWarningView {
    ConfigWarningView {
        code: "invalid_harness_override"@,
        key: "harnesses"@,
        tier,
        value: label,
        message: "Ignoring invalid harness override; it must use the root config shape"@,
    }
}

/// A document with the section of the active harness laid over it, and the warnings about that
/// section. Other harnesses' sections have no effect.
pub open spec fn overridden(
    raw: RawAftConfigView,
    harness: Option<Harness>,
    tier: Seq<char>,
) -> (RawAftConfigView, Seq<ConfigWarningView>) {
    let bare = RawAftConfigView { harnesses: None, ..raw };
    match (raw.harnesses, harness) {
        (Some(overrides), Some(harness)) => {
            let label = harness.label();
            match text_map::map_get(overrides, label) {
                None => (bare, Seq::empty()),
                Some(JsonView::Object(entries)) => {
                    let warnings = if text_map::map_get(entries, "harnesses"@) is Some {
                        seq![nested_override_warning(tier, label)]
                    } else {
                        Seq::empty()
                    };
                    match RawAftConfig::decoded(
                        JsonView::Object(without_key(entries, "harnesses"@)),
                    ) {
                        Some(over) => (merge::trusted(bare, over), warnings),
                        None => (bare, warnings.push(bad_override_warning(tier, label))),
                    }
                },
                Some(_) => (bare, seq![not_an_object_warning(tier, label)]),
            }
        },
        _ => (bare, Seq::empty()),
    }
}

/// Lays the section of the active harness over a document.
pub fn apply_harness_override(
    raw: RawAftConfig,
    harness: Option<&Harness>,
    tier: &str,
    warnings: &mut Vec<ConfigWarning>,
) -> (out: RawAftConfig)
    ensures
        out.deep_view() == overridden(raw.deep_view(), harness.deep_view(), tier@).0,
        final(warnings).deep_view() == old(warnings).deep_view() + overridden(
            raw.deep_view(),
            harness.deep_view(),
            tier@,
        ).1,
{
    let ghost before = warnings.deep_view();
    let overrides = raw.harnesses;
    let bare = RawAftConfig { harnesses: None, ..raw };
    assert(before + Seq::<ConfigWarningView>::empty() =~= before);
    let (overrides, harness) = match (overrides, harness) {
        (Some(overrides), Some(harness)) => (overrides, harness),
        _ => {
            return bare;
        },
    };
    let label = harness.wire_label();
    let section = match overrides.get(label.as_str()) {
        Some(section) => section,
        None => {
            return bare;
        },
    };
    let entries = match section {
        Json::Object(entries) => entries,
        _ => {
            push_warning(
                warnings,
                "invalid_harness_override",
                "harnesses",
                tier,
                label.as_str(),
                "Ignoring non-object harness override; overrides must be config objects".to_owned(),
            );
            assert(warnings.deep_view() =~= before + seq![not_an_object_warning(tier@, label@)]);
            return bare;
        },
    };
    let ghost nested = text_map::map_get(section.deep_view()->Object_0, "harnesses"@) is Some;
    let ghost noted = if nested {
        seq![nested_override_warning(tier@, label@)]
    } else {
        Seq::empty()
    };
    if has_entry(section, "harnesses") {
        let mut message = "Ignoring nested harnesses in harnesses.".to_owned();
        message.append(label.as_str());
        message.append("; harness overrides cannot recurse");
        push_warning(
            warnings,
            "nested_harnesses_ignored",
            "harnesses",
            tier,
            label.as_str(),
            message,
        );
    }
    assert(warnings.deep_view() =~= before + noted);
    match RawAftConfig::decode(&copy_without(entries, "harnesses")) {
        Some(over) => merge::merge_trusted_config(bare, over),
        None => {
            push_warning(
                warnings,
                "invalid_harness_override",
                "harnesses",
                tier,
                label.as_str(),
                "Ignoring invalid harness override; it must use the root config shape".to_owned(),
            );
            assert(warnings.deep_view() =~= before + noted.push(
                bad_override_warning(tier@, label@),
            ));
            bare
        },
    }
}

fn has_entry(object: &Json, key: &str) -> (yes: bool)
    requires
        object is Object,
    ensures
        yes == (text_map::map_get(object.deep_view()->Object_0, key@) is Some),
{
    match object {
        Json::Object(entries) => {
            let ghost model = object.deep_view()->Object_0;
            let mut i: usize = 0;
            assert(model.skip(0) =~= model);
            while i < entries.len()
                invariant
                    i <= entries.len(),
                    *object == Json::Object(*entries),
                    model == object.deep_view()->Object_0,
                    text_map::map_get(model, key@) == text_map::map_get(model.skip(i as int), key@),
                decreases entries.len() - i,
            {
                assert(model.skip(i as int)[0].0 == entries@[i as int].0@);
                if text::same_text(entries[i].0.as_str(), key) {
                    return true;
                }
                assert(model.skip(i as int).drop_first() =~= model.skip(i + 1));
                i = i + 1;
            }
            false
        },
        _ => false,
    }
}

/// What is left of an object that is no valid document as a whole: its valid entries.
pub open spec fn partially_decoded(entries: Seq<(Seq<char>, JsonView)>) -> RawAftConfigView
    decreases entries.len(),
{
    if entries.len() == 0 {
        raw::unset_aft_config()
    } else {
        let partial = partially_decoded(entries.drop_last());
        match RawAftConfig::decoded(JsonView::Object(seq![entries.last()])) {
            Some(section) => merge::trusted(partial, section),
            None => partial,
        }
    }
}

/// Reads an object entry by entry and drops what is invalid.
pub fn parse_config_partially(entries: &Vec<(String, Json)>) -> (out: RawAftConfig)
    ensures
        out.deep_view() == partially_decoded(json::json_view(Json::Object(*entries))->Object_0),
{
    let ghost model = json::json_view(Json::Object(*entries))->Object_0;
    let mut partial = RawAftConfig::default();
    let mut i: usize = 0;
    assert(model.take(0) =~= Seq::empty());
    while i < entries.len()
        invariant
            i <= entries.len(),
            model == json::json_view(Json::Object(*entries))->Object_0,
            partial.deep_view() == partially_decoded(model.take(i as int)),
        decreases entries.len() - i,
    {
        let mut one: Vec<(String, Json)> = Vec::new();
        one.push((entries[i].0.clone(), entries[i].1.copy()));
        let section = Json::Object(one);
        proof {
            assert(model[i as int] == (
                entries@[i as int].0@,
                json::json_view(entries@[i as int].1),
            ));
            assert(json::json_view(section)->Object_0 =~= seq![model[i as int]]);
            assert(model.take(i + 1).drop_last() =~= model.take(i as int));
            assert(model.take(i + 1).last() == model[i as int]);
        }
        if let Some(section) = RawAftConfig::decode(&section) {
            partial = merge::merge_trusted_config(partial, section);
        }
        i = i + 1;
    }
    assert(model.take(model.len() as int) =~= model);
    partial
}

/// What a parsed document says: an object is read as a whole, or entry by entry where that
/// fails; anything else says nothing.
pub open spec fn document_config(document: Option<JsonView>) -> Option<RawAftConfigView> {
    match document {
        Some(JsonView::Object(entries)) => Some(
            match RawAftConfig::decoded(JsonView::Object(entries)) {
                Some(config) => config,
                None => partially_decoded(entries),
            },
        ),
        _ => None,
    }
}

/// Reads a parsed document.
pub fn config_from_document(document: &Option<Json>) -> (out: Option<RawAftConfig>)
    ensures
        out.deep_view() == document_config(document.deep_view()),
{
    match document {
        Some(value) => match value {
            Json::Object(entries) => match RawAftConfig::decode(value) {
                Some(config) => Some(config),
                None => Some(parse_config_partially(entries)),
            },
            _ => None,
        },
        None => None,
    }
}

/// What parsing makes of a document with comments.
pub open spec fn document_of(doc: Seq<char>) -> Option<JsonView> {
    json::parsed_document(jsonc::stripped(doc))
}

/// Parses one document.
pub fn parse_document(tier: &ConfigTier) -> (out: ParsedTier)
    ensures
        out.deep_view() == (ParsedTierView { tier: tier.tier@, document: document_of(tier.doc@) }),
{
    let stripped = jsonc::strip_jsonc(tier.doc.as_str());
    ParsedTier { tier: tier.tier.clone(), document: json::parse_document(stripped.as_str()) }
}

/// Parses and reads one document.
pub fn parse_tier(tier: &ConfigTier) -> (out: Option<RawAftConfig>)
    ensures
        out.deep_view() == document_config(document_of(tier.doc@)),
{
    let parsed = parse_document(tier);
    config_from_document(&parsed.document)
}

/// What the tiers so far gave.
pub struct TierState {
    pub merged: RawAftConfigView,
    pub dropped: Seq<DroppedKeyView>,
    pub warnings: Seq<ConfigWarningView>,
}

/// The warning about an unknown edit surface.
pub open spec fn edit_mode_warnings(mode: Option<RawEditModeView>, tier: Seq<char>) -> Seq<
    ConfigWarningView,
> {
    match mode {
        Some(RawEditModeView::Unknown(value)) => seq![
            ConfigWarningView {
                code: "invalid_edit_mode"@,
                key: "edit_mode"@,
                tier,
                value,
                message: "Unknown edit_mode value "@ + text::debug_text(value)
                    + "; falling back to \"default\""@,
            },
        ],
        _ => Seq::empty(),
    }
}

/// The state after one more tier. A document of the user tier is trusted; any other tier is laid
/// over it with a project's rights, and what it may not set is recorded.
pub open spec fn tier_applied(
    platform: Platform,
    state: TierState,
    tier: ParsedTierView,
    harness: Option<Harness>,
) -> TierState {
    match document_config(tier.document) {
        None => state,
        Some(raw) => {
            let (raw, noted) = overridden(raw, harness, tier.tier);
            let warnings = state.warnings + noted + edit_mode_warnings(raw.edit_mode, tier.tier);
            if tier.tier == "user"@ {
                TierState { merged: merge::trusted(state.merged, raw), warnings, ..state }
            } else {
                TierState {
                    merged: merge::project_laid(platform, state.merged, raw),
                    dropped: merge::drops_recorded(raw, tier.tier, state.dropped),
                    warnings,
                }
            }
        },
    }
}

/// The state after a list of tiers.
pub open spec fn tiers_applied(
    platform: Platform,
    tiers: Seq<ParsedTierView>,
    harness: Option<Harness>,
) -> TierState
    decreases tiers.len(),
{
    if tiers.len() == 0 {
        TierState {
            merged: raw::unset_aft_config(),
            dropped: Seq::empty(),
            warnings: Seq::empty(),
        }
    } else {
        tier_applied(
            platform,
            tiers_applied(platform, tiers.drop_last(), harness),
            tiers.last(),
            harness,
        )
    }
}

/// What a list of parsed tiers resolves to.
pub open spec fn resolved(
    tiers: Seq<ParsedTierView>,
    harness: Option<Harness>,
    host: HostView,
) -> ResolveResultView {
    let state = tiers_applied(host.platform, tiers, harness);
    let (index, more) = index_resolved(state.merged.index, host);
    ResolveResultView {
        config: ConfigView { index, ..applied(state.merged, ConfigView::default_view()) },
        dropped: state.dropped,
        warnings: state.warnings + more,
    }
}

fn warn_edit_mode(mode: &Option<RawEditMode>, tier: &str, warnings: &mut Vec<ConfigWarning>)
    ensures
        final(warnings).deep_view() == old(warnings).deep_view() + edit_mode_warnings(
            mode.deep_view(),
            tier@,
        ),
{
    let ghost before = warnings.deep_view();
    assert(before + Seq::<ConfigWarningView>::empty() =~= before);
    if let Some(RawEditMode::Unknown(value)) = mode {
        let mut message = "Unknown edit_mode value ".to_owned();
        message.append(text::debug_quote(value.as_str()).as_str());
        message.append("; falling back to \"default\"");
        push_warning(
            warnings,
            "invalid_edit_mode",
            "edit_mode",
            tier,
            value.as_str(),
            message,
        );
        assert(warnings.deep_view() =~= before + edit_mode_warnings(mode.deep_view(), tier@));
    }
}

fn apply_tier(
    platform: Platform,
    merged: RawAftConfig,
    tier: &ParsedTier,
    harness: Option<&Harness>,
    dropped: &mut Vec<DroppedKey>,
    warnings: &mut Vec<ConfigWarning>,
) -> (out: RawAftConfig)
    ensures
        (TierState {
            merged: out.deep_view(),
            dropped: final(dropped).deep_view(),
            warnings: final(warnings).deep_view(),
        }) == tier_applied(
            platform,
            TierState {
                merged: merged.deep_view(),
                dropped: old(dropped).deep_view(),
                warnings: old(warnings).deep_view(),
            },
            tier.deep_view(),
            harness.deep_view(),
        ),
{
    let raw = match config_from_document(&tier.document) {
        Some(raw) => raw,
        None => {
            return merged;
        },
    };
    let label = tier.tier.as_str();
    let raw = apply_harness_override(raw, harness, label, warnings);
    warn_edit_mode(&raw.edit_mode, label, warnings);
    if text::same_text(label, "user") {
        merge::merge_trusted_config(merged, raw)
    } else {
        merge::record_project_drops(&raw, label, dropped);
        merge::merge_project_config(platform, merged, raw)
    }
}

fn apply_tiers(
    platform: Platform,
    tiers: &Vec<ParsedTier>,
    harness: Option<&Harness>,
    dropped: &mut Vec<DroppedKey>,
    warnings: &mut Vec<ConfigWarning>,
) -> (out: RawAftConfig)
    requires
        old(dropped)@.len() == 0,
        old(warnings)@.len() == 0,
    ensures
        (TierState {
            merged: out.deep_view(),
            dropped: final(dropped).deep_view(),
            warnings: final(warnings).deep_view(),
        }) == tiers_applied(platform, tiers.deep_view(), harness.deep_view()),
{
    let ghost model = tiers.deep_view();
    let ghost active = harness.deep_view();
    let mut merged = RawAftConfig::default();
    let mut i: usize = 0;
    proof {
        assert(model.take(0) =~= Seq::empty());
        assert(dropped.deep_view() =~= Seq::empty());
        assert(warnings.deep_view() =~= Seq::empty());
    }
    while i < tiers.len()
        invariant
            i <= tiers.len(),
            model == tiers.deep_view(),
            active == harness.deep_view(),
            tiers_applied(platform, model.take(i as int), active) == (TierState {
                merged: merged.deep_view(),
                dropped: dropped.deep_view(),
                warnings: warnings.deep_view(),
            }),
        decreases tiers.len() - i,
    {
        proof {
            assert(model[i as int] == tiers@[i as int].deep_view());
            assert(model.take(i + 1).drop_last() =~= model.take(i as int));
            assert(model.take(i + 1).last() == model[i as int]);
        }
        merged = apply_tier(platform, merged, &tiers[i], harness, dropped, warnings);
        i = i + 1;
    }
    assert(model.take(model.len() as int) =~= model);
    merged
}

fn with_index(config: Config, index: IndexConfig) -> (out: Config)
    ensures
        out.deep_view() == (ConfigView { index: index.deep_view(), ..config.deep_view() }),
{
    Config { index, ..config }
}

/// Resolves parsed tiers for one active harness.
pub fn resolve_parsed(
    tiers: &Vec<ParsedTier>,
    harness: Option<&Harness>,
    host: &Host,
) -> (out: ResolveResult)
    ensures
        out.deep_view() == resolved(tiers.deep_view(), harness.deep_view(), host.deep_view()),
{
    let mut dropped: Vec<DroppedKey> = Vec::new();
    let mut warnings: Vec<ConfigWarning> = Vec::new();
    let merged = apply_tiers(host.platform, tiers, harness, &mut dropped, &mut warnings);
    let config = apply_resolved_config(&merged, Config::default());
    let index = resolve_index_config(merged.index.as_ref(), host, &mut warnings);
    ResolveResult { config: with_index(config, index), dropped, warnings }
}

/// The tiers as parsing leaves them.
pub open spec fn parsed_tiers(tiers: Seq<ConfigTierView>) -> Seq<ParsedTierView> {
    Seq::new(
        tiers.len(),
        |i: int| ParsedTierView { tier: tiers[i].tier, document: document_of(tiers[i].doc) },
    )
}

fn parse_tiers(tiers: &[ConfigTier]) -> (out: Vec<ParsedTier>)
    ensures
        out.deep_view() == parsed_tiers(tiers.deep_view()),
{
    let mut out: Vec<ParsedTier> = Vec::new();
    let mut i: usize = 0;
    while i < tiers.len()
        invariant
            i <= tiers.len(),
            out@.len() == i,
            forall|k: int|
                0 <= k < i ==> (#[trigger] out@[k]).deep_view() == (ParsedTierView {
                    tier: tiers@[k].tier@,
                    document: document_of(tiers@[k].doc@),
                }),
        decreases tiers.len() - i,
    {
        out.push(parse_document(&tiers[i]));
        i = i + 1;
    }
    assert(out.deep_view() =~= parsed_tiers(tiers.deep_view()));
    out
}

/// Resolves user and project tiers into the flat configuration. No tiers at all resolve like an
/// empty document.
pub fn resolve_config(tiers: &[ConfigTier], host: &Host) -> (out: ResolveResult)
    ensures
        out.deep_view() == resolved(parsed_tiers(tiers.deep_view()), None, host.deep_view()),
{
    resolve_config_for_harness(tiers, None, host)
}

/// Resolves tiers for one active harness. Each tier has its matching harness section laid over it
/// before it crosses the trust boundary.
pub fn resolve_config_for_harness(
    tiers: &[ConfigTier],
    harness: Option<&Harness>,
    host: &Host,
) -> (out: ResolveResult)
    ensures
        out.deep_view() == resolved(
            parsed_tiers(tiers.deep_view()),
            harness.deep_view(),
            host.deep_view(),
        ),
{
    let parsed = parse_tiers(tiers);
    resolve_parsed(&parsed, harness, host)
}

/// `resolved` with the fields of `base` that describe the running process.
pub open spec fn process_state_carried(base: ConfigView, resolved: ConfigView) -> ConfigView {
    ConfigView {
        project_root: base.project_root,
        harness: base.harness,
        validation_depth: base.validation_depth,
        checkpoint_ttl_hours: base.checkpoint_ttl_hours,
        max_symbol_depth: base.max_symbol_depth,
        diagnostic_cache_size: base.diagnostic_cache_size,
        aft_search_registered: base.aft_search_registered,
        max_background_bash_tasks: base.max_background_bash_tasks,
        bash_permissions: base.bash_permissions,
        search_index_max_file_size: base.search_index_max_file_size,
        storage_dir: base.storage_dir,
        lsp_paths_extra: base.lsp_paths_extra,
        lsp_auto_install_binaries: base.lsp_auto_install_binaries,
        lsp_inflight_installs: base.lsp_inflight_installs,
        ..resolved
    }
}

/// Carries the fields that describe the running process onto a freshly resolved configuration.
/// Every other field comes from the tiers.
pub fn carry_process_state(base: &Config, resolved: Config) -> (out: Config)
    ensures
        out.deep_view() == process_state_carried(base.deep_view(), resolved.deep_view()),
{
    Config {
        project_root: base.project_root.clone(),
        harness: base.harness,
        validation_depth: base.validation_depth,
        checkpoint_ttl_hours: base.checkpoint_ttl_hours,
        max_symbol_depth: base.max_symbol_depth,
        diagnostic_cache_size: base.diagnostic_cache_size,
        aft_search_registered: base.aft_search_registered,
        max_background_bash_tasks: base.max_background_bash_tasks,
        bash_permissions: base.bash_permissions,
        search_index_max_file_size: base.search_index_max_file_size,
        storage_dir: base.storage_dir.clone(),
        lsp_paths_extra: text::copy_texts(&base.lsp_paths_extra),
        lsp_auto_install_binaries: base.lsp_auto_install_binaries.copy(),
        lsp_inflight_installs: base.lsp_inflight_installs.copy(),
        ..resolved
    }
}

/// What resetting a configuration to its tiers leaves.
pub open spec fn reset_config(
    base: ConfigView,
    tiers: Seq<ParsedTierView>,
    harness: Option<Harness>,
    host: HostView,
) -> ConfigView {
    process_state_carried(base, resolved(tiers, harness, host).config)
}

/// Resets a runtime configuration to its tiers and keeps the fields that describe the running
/// process. A field that no tier sets returns to its default: nothing of an earlier
/// configuration is inherited.
pub fn resolve_config_onto_with_diagnostics_for_harness(
    tiers: &[ConfigTier],
    harness: Option<&Harness>,
    host: &Host,
    base: &mut Config,
) -> (out: ResolveDiagnostics)
    ensures
        final(base).deep_view() == reset_config(
            old(base).deep_view(),
            parsed_tiers(tiers.deep_view()),
            harness.deep_view(),
            host.deep_view(),
        ),
        out.deep_view().dropped == resolved(
            parsed_tiers(tiers.deep_view()),
            harness.deep_view(),
            host.deep_view(),
        ).dropped,
        out.deep_view().warnings == resolved(
            parsed_tiers(tiers.deep_view()),
            harness.deep_view(),
            host.deep_view(),
        ).warnings,
{
    let result = resolve_config_for_harness(tiers, harness, host);
    *base = carry_process_state(base, result.config);
    ResolveDiagnostics { dropped: result.dropped, warnings: result.warnings }
}

/// Resets a runtime configuration and reports drops and warnings.
pub fn resolve_config_onto_with_diagnostics(
    tiers: &[ConfigTier],
    host: &Host,
    base: &mut Config,
) -> (out: ResolveDiagnostics)
    ensures
        final(base).deep_view() == reset_config(
            old(base).deep_view(),
            parsed_tiers(tiers.deep_view()),
            None,
            host.deep_view(),
        ),
        out.deep_view().dropped == resolved(
            parsed_tiers(tiers.deep_view()),
            None,
            host.deep_view(),
        ).dropped,
        out.deep_view().warnings == resolved(
            parsed_tiers(tiers.deep_view()),
            None,
            host.deep_view(),
        ).warnings,
{
    resolve_config_onto_with_diagnostics_for_harness(tiers, None, host, base)
}

/// Resets a runtime configuration and reports what was dropped.
pub fn resolve_config_onto(tiers: &[ConfigTier], host: &Host, base: &mut Config) -> (out: Vec<
    DroppedKey,
>)
    ensures
        final(base).deep_view() == reset_config(
            old(base).deep_view(),
            parsed_tiers(tiers.deep_view()),
            None,
            host.deep_view(),
        ),
        out.deep_view() == resolved(
            parsed_tiers(tiers.deep_view()),
            None,
            host.deep_view(),
        ).dropped,
{
    resolve_config_onto_with_diagnostics(tiers, host, base).dropped
}

/// Resets a runtime configuration for the active harness and reports what was dropped.
pub fn resolve_config_onto_for_harness(
    tiers: &[ConfigTier],
    harness: &Harness,
    host: &Host,
    base: &mut Config,
) -> (out: Vec<DroppedKey>)
    ensures
        final(base).deep_view() == reset_config(
            old(base).deep_view(),
            parsed_tiers(tiers.deep_view()),
            Some(*harness),
            host.deep_view(),
        ),
        out.deep_view() == resolved(
            parsed_tiers(tiers.deep_view()),
            Some(*harness),
            host.deep_view(),
        ).dropped,
{
    resolve_config_onto_with_diagnostics_for_harness(tiers, Some(harness), host, base).dropped
}

} // verus!
