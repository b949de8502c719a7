//! The resolved runtime configuration and its defaults.
//!
//! Paths are kept as text. A type whose fields hold text or lists has a model of the same
//! shape, reached through `deep_view`.

use vstd::prelude::*;
use vstd::string::*;

use crate::json::{Json, JsonView};
use crate::path_text;
use crate::text;
use crate::text_map::{TextMap, TextSet};

verus! {

pub const DEFAULT_SEMANTIC_QUERY_TIMEOUT_MS: u64 = 3_000;

pub const MIN_SEMANTIC_QUERY_TIMEOUT_MS: u64 = 500;

pub const MAX_SEMANTIC_QUERY_TIMEOUT_MS: u64 = 15_000;

pub const DEFAULT_INSPECT_DIAGNOSTICS_TIMEOUT_MS: u64 = 120_000;

pub const MIN_INSPECT_DIAGNOSTICS_TIMEOUT_MS: u64 = 10_000;

pub const MAX_INSPECT_DIAGNOSTICS_TIMEOUT_MS: u64 = 600_000;

/// How many undo snapshots of one file are kept where nothing else is configured.
pub const DEFAULT_MAX_UNDO_DEPTH: usize = 20;

pub fn default_semantic_query_timeout_ms() -> (ms: u64)
    ensures
        ms == 3_000,
{
    DEFAULT_SEMANTIC_QUERY_TIMEOUT_MS
}

pub fn default_inspect_diagnostics_timeout_ms() -> (ms: u64)
    ensures
        ms == 120_000,
{
    DEFAULT_INSPECT_DIAGNOSTICS_TIMEOUT_MS
}

pub fn default_bash_detach_on_user_message() -> (yes: bool)
    ensures
        yes,
{
    true
}

pub fn default_foreground_wait_window_ms() -> (ms: u64)
    ensures
        ms == 15_000,
{
    15_000
}

/// The embedding model of the local backend.
pub fn default_semantic_model() -> (model: String)
    ensures
        model@ == "all-MiniLM-L6-v2"@,
{
    "all-MiniLM-L6-v2".to_owned()
}

/// The host that drives the engine.
#[derive(Debug, Clone, Copy, PartialEq, Eq, Structural)]
pub enum Harness {
    Opencode,
    Pi,
}

impl DeepView for Harness {
    type V = Harness;

    open spec fn deep_view(&self) -> Harness {
        *self
    }
}

impl Harness {
    /// The name of the harness on the wire and in per-harness configuration sections.
    pub open spec fn label(self) -> Seq<char> {
        match self {
            Harness::Opencode => "opencode"@,
            Harness::Pi => "pi"@,
        }
    }

    pub fn wire_label(&self) -> (out: String)
        ensures
            out@ == self.label(),
    {
        match self {
            Harness::Opencode => "opencode".to_owned(),
            Harness::Pi => "pi".to_owned(),
        }
    }
}

/// The durable index families that a standing root may maintain.
#[derive(Debug, Clone, Copy, PartialEq, Eq, Structural)]
pub enum IndexKind {
    Search,
    Semantic,
    Callgraph,
}

impl DeepView for IndexKind {
    type V = IndexKind;

    open spec fn deep_view(&self) -> IndexKind {
        *self
    }
}

impl IndexKind {
    /// Every kind, in the order in which kinds are listed.
    pub const ALL: [IndexKind; 3] = [
        IndexKind::Search,
        IndexKind::Semantic,
        IndexKind::Callgraph,
    ];

    /// The name under which a configuration writes the value.
    pub open spec fn name(self) -> Seq<char> {
        match self {
            IndexKind::Search => "search"@,
            IndexKind::Semantic => "semantic"@,
            IndexKind::Callgraph => "callgraph"@,
        }
    }

    /// The value that a name stands for.
    pub open spec fn named(name: Seq<char>) -> Option<IndexKind> {
        if name == "search"@ {
            Some(IndexKind::Search)
        } else if name == "semantic"@ {
            Some(IndexKind::Semantic)
        } else if name == "callgraph"@ {
            Some(IndexKind::Callgraph)
        } else {
            None
        }
    }

    /// The name of the index family.
    pub fn as_str(self) -> (out: &'static str)
        ensures
            out@ == self.name(),
    {
        match self {
            IndexKind::Search => "search",
            IndexKind::Semantic => "semantic",
            IndexKind::Callgraph => "callgraph",
        }
    }

    /// The value with the given name, if there is one.
    pub fn from_name(name: &str) -> (out: Option<IndexKind>)
        ensures
            out == IndexKind::named(name@),
    {
        if text::same_text(name, "search") {
            Some(IndexKind::Search)
        } else if text::same_text(name, "semantic") {
            Some(IndexKind::Semantic)
        } else if text::same_text(name, "callgraph") {
            Some(IndexKind::Callgraph)
        } else {
            None
        }
    }

    /// A value is found again under its own name, and only names of values are found.
    pub proof fn law_names_round_trip(self, name: Seq<char>)
        ensures
            IndexKind::named(self.name()) == Some(self),
            IndexKind::named(name) is Some ==> IndexKind::named(name)->0.name() == name,
    {
        reveal_strlit("search");
        reveal_strlit("semantic");
        reveal_strlit("callgraph");
        assert("search"@.len() != "semantic"@.len());
        assert("search"@.len() != "callgraph"@.len());
        assert("semantic"@.len() != "callgraph"@.len());
    }
}

/// Host resource policy for standing index maintenance: `Balanced` pauses new background
/// slices under host pressure, `Performance` ignores it.
#[derive(Debug, Clone, Copy, PartialEq, Eq, Structural)]
pub enum IndexResourcePolicy {
    Balanced,
    Performance,
}

impl DeepView for IndexResourcePolicy {
    type V = IndexResourcePolicy;

    open spec fn deep_view(&self) -> IndexResourcePolicy {
        *self
    }
}

impl IndexResourcePolicy {
    /// The name under which a configuration writes the value.
    pub open spec fn name(self) -> Seq<char> {
        match self {
            IndexResourcePolicy::Balanced => "balanced"@,
            IndexResourcePolicy::Performance => "performance"@,
        }
    }

    /// The value that a name stands for.
    pub open spec fn named(name: Seq<char>) -> Option<IndexResourcePolicy> {
        if name == "balanced"@ {
            Some(IndexResourcePolicy::Balanced)
        } else if name == "performance"@ {
            Some(IndexResourcePolicy::Performance)
        } else {
            None
        }
    }

    /// The name of the policy.
    pub fn as_str(self) -> (out: &'static str)
        ensures
            out@ == self.name(),
    {
        match self {
            IndexResourcePolicy::Balanced => "balanced",
            IndexResourcePolicy::Performance => "performance",
        }
    }

    /// The value with the given name, if there is one.
    pub fn from_name(name: &str) -> (out: Option<IndexResourcePolicy>)
        ensures
            out == IndexResourcePolicy::named(name@),
    {
        if text::same_text(name, "balanced") {
            Some(IndexResourcePolicy::Balanced)
        } else if text::same_text(name, "performance") {
            Some(IndexResourcePolicy::Performance)
        } else {
            None
        }
    }

    /// A value is found again under its own name, and only names of values are found.
    pub proof fn law_names_round_trip(self, name: Seq<char>)
        ensures
            IndexResourcePolicy::named(self.name()) == Some(self),
            IndexResourcePolicy::named(name) is Some ==> IndexResourcePolicy::named(name)->0.name() == name,
    {
        reveal_strlit("balanced");
        reveal_strlit("performance");
        assert("balanced"@.len() != "performance"@.len());
    }
}

/// Semantic backend selected by the resolved configuration.
#[derive(Debug, Clone, Copy, PartialEq, Eq, Structural)]
pub enum SemanticBackend {
    Fastembed,
    OpenAiCompatible,
    Ollama,
    Synapse,
}

impl DeepView for SemanticBackend {
    type V = SemanticBackend;

    open spec fn deep_view(&self) -> SemanticBackend {
        *self
    }
}

impl SemanticBackend {
    /// The name under which a configuration writes the value.
    pub open spec fn name(self) -> Seq<char> {
        match self {
            SemanticBackend::Fastembed => "fastembed"@,
            SemanticBackend::OpenAiCompatible => "openai_compatible"@,
            SemanticBackend::Ollama => "ollama"@,
            SemanticBackend::Synapse => "synapse"@,
        }
    }

    /// The value that a name stands for.
    pub open spec fn named(name: Seq<char>) -> Option<SemanticBackend> {
        if name == "fastembed"@ {
            Some(SemanticBackend::Fastembed)
        } else if name == "openai_compatible"@ {
            Some(SemanticBackend::OpenAiCompatible)
        } else if name == "ollama"@ {
            Some(SemanticBackend::Ollama)
        } else if name == "synapse"@ {
            Some(SemanticBackend::Synapse)
        } else {
            None
        }
    }

    /// The name of the backend.
    pub fn as_str(&self) -> (out: &'static str)
        ensures
            out@ == self.name(),
    {
        match self {
            SemanticBackend::Fastembed => "fastembed",
            SemanticBackend::OpenAiCompatible => "openai_compatible",
            SemanticBackend::Ollama => "ollama",
            SemanticBackend::Synapse => "synapse",
        }
    }

    /// The value with the given name, if there is one.
    pub fn from_name(name: &str) -> (out: Option<SemanticBackend>)
        ensures
            out == SemanticBackend::named(name@),
    {
        if text::same_text(name, "fastembed") {
            Some(SemanticBackend::Fastembed)
        } else if text::same_text(name, "openai_compatible") {
            Some(SemanticBackend::OpenAiCompatible)
        } else if text::same_text(name, "ollama") {
            Some(SemanticBackend::Ollama)
        } else if text::same_text(name, "synapse") {
            Some(SemanticBackend::Synapse)
        } else {
            None
        }
    }

    /// A value is found again under its own name, and only names of values are found.
    pub proof fn law_names_round_trip(self, name: Seq<char>)
        ensures
            SemanticBackend::named(self.name()) == Some(self),
            SemanticBackend::named(name) is Some ==> SemanticBackend::named(name)->0.name() == name,
    {
        reveal_strlit("fastembed");
        reveal_strlit("openai_compatible");
        reveal_strlit("ollama");
        reveal_strlit("synapse");
        assert("fastembed"@.len() != "openai_compatible"@.len());
        assert("fastembed"@.len() != "ollama"@.len());
        assert("fastembed"@.len() != "synapse"@.len());
        assert("openai_compatible"@.len() != "ollama"@.len());
        assert("openai_compatible"@.len() != "synapse"@.len());
        assert("ollama"@.len() != "synapse"@.len());
    }
}

/// One user-configured root whose literal path spelling is its durable identity.
#[derive(Debug, PartialEq, Eq)]
pub struct IndexRootConfig {
    /// The unmodified spelling supplied in `index.roots[].path`.
    pub path: String,
    /// The selected index families, in the order of [`IndexKind`].
    pub indexes: Vec<IndexKind>,
}

/// The model of [`IndexRootConfig`].
pub struct IndexRootConfigView {
    pub path: Seq<char>,
    pub indexes: Seq<IndexKind>,
}

impl DeepView for IndexRootConfig {
    type V = IndexRootConfigView;

    open spec fn deep_view(&self) -> IndexRootConfigView {
        IndexRootConfigView {
            path: self.path.deep_view(),
            indexes: self.indexes.deep_view(),
        }
    }
}

/// User-tier standing-index configuration.
#[derive(Debug, PartialEq, Eq)]
pub struct IndexConfig {
    pub resource_policy: IndexResourcePolicy,
    pub roots: Vec<IndexRootConfig>,
}

/// The model of [`IndexConfig`].
pub struct IndexConfigView {
    pub resource_policy: IndexResourcePolicy,
    pub roots: Seq<IndexRootConfigView>,
}

impl DeepView for IndexConfig {
    type V = IndexConfigView;

    open spec fn deep_view(&self) -> IndexConfigView {
        IndexConfigView {
            resource_policy: self.resource_policy,
            roots: self.roots.deep_view(),
        }
    }
}

/// How texts are embedded for semantic search.
#[derive(Debug, PartialEq, Eq)]
pub struct SemanticBackendConfig {
    pub backend: SemanticBackend,
    pub model: String,
    pub base_url: Option<String>,
    pub api_key_env: Option<String>,
    /// Deadline of one background embedding request.
    pub timeout_ms: u64,
    /// Deadline of one interactive query embedding request.
    pub query_timeout_ms: u64,
    pub max_batch_size: usize,
    /// How many project files are indexed at most.
    pub max_files: usize,
    /// User-tier connection file, used by the Synapse backend only.
    pub subc_connection_file: Option<String>,
    /// Project identity by which Synapse calls are routed.
    pub route_project_root: Option<String>,
    pub route_harness: Option<String>,
}

/// The model of [`SemanticBackendConfig`].
pub struct SemanticBackendConfigView {
    pub backend: SemanticBackend,
    pub model: Seq<char>,
    pub base_url: Option<Seq<char>>,
    pub api_key_env: Option<Seq<char>>,
    pub timeout_ms: u64,
    pub query_timeout_ms: u64,
    pub max_batch_size: usize,
    pub max_files: usize,
    pub subc_connection_file: Option<Seq<char>>,
    pub route_project_root: Option<Seq<char>>,
    pub route_harness: Option<Seq<char>>,
}

impl DeepView for SemanticBackendConfig {
    type V = SemanticBackendConfigView;

    open spec fn deep_view(&self) -> SemanticBackendConfigView {
        SemanticBackendConfigView {
            backend: self.backend,
            model: self.model.deep_view(),
            base_url: self.base_url.deep_view(),
            api_key_env: self.api_key_env.deep_view(),
            timeout_ms: self.timeout_ms,
            query_timeout_ms: self.query_timeout_ms,
            max_batch_size: self.max_batch_size,
            max_files: self.max_files,
            subc_connection_file: self.subc_connection_file.deep_view(),
            route_project_root: self.route_project_root.deep_view(),
            route_harness: self.route_harness.deep_view(),
        }
    }
}

/// A user-defined LSP server.
#[derive(Debug, PartialEq, Eq)]
pub struct UserServerDef {
    pub id: String,
    pub extensions: Vec<String>,
    pub binary: String,
    pub args: Vec<String>,
    pub root_markers: Vec<String>,
    pub env: TextMap<String>,
    pub initialization_options: Option<Json>,
    pub disabled: bool,
}

/// The model of [`UserServerDef`].
pub struct UserServerDefView {
    pub id: Seq<char>,
    pub extensions: Seq<Seq<char>>,
    pub binary: Seq<char>,
    pub args: Seq<Seq<char>>,
    pub root_markers: Seq<Seq<char>>,
    pub env: Seq<(Seq<char>, Seq<char>)>,
    pub initialization_options: Option<JsonView>,
    pub disabled: bool,
}

impl DeepView for UserServerDef {
    type V = UserServerDefView;

    open spec fn deep_view(&self) -> UserServerDefView {
        UserServerDefView {
            id: self.id.deep_view(),
            extensions: self.extensions.deep_view(),
            binary: self.binary.deep_view(),
            args: self.args.deep_view(),
            root_markers: self.root_markers.deep_view(),
            env: self.env.deep_view(),
            initialization_options: self.initialization_options.deep_view(),
            disabled: self.disabled,
        }
    }
}

/// Duplicate detection settings.
#[derive(Debug, PartialEq, Eq)]
pub struct InspectDuplicatesConfig {
    /// Pairs of paths that are expected to mirror each other.
    pub expected_mirrors: Vec<(String, String)>,
}

/// The model of [`InspectDuplicatesConfig`].
pub struct InspectDuplicatesConfigView {
    pub expected_mirrors: Seq<(Seq<char>, Seq<char>)>,
}

impl DeepView for InspectDuplicatesConfig {
    type V = InspectDuplicatesConfigView;

    open spec fn deep_view(&self) -> InspectDuplicatesConfigView {
        InspectDuplicatesConfigView {
            expected_mirrors: self.expected_mirrors.deep_view(),
        }
    }
}

/// Inspection settings.
#[derive(Debug, PartialEq, Eq)]
pub struct InspectConfig {
    pub enabled: bool,
    /// Deadline of the blocking diagnostics phase.
    pub diagnostics_timeout_ms: u64,
    pub duplicates: InspectDuplicatesConfig,
}

/// The model of [`InspectConfig`].
pub struct InspectConfigView {
    pub enabled: bool,
    pub diagnostics_timeout_ms: u64,
    pub duplicates: InspectDuplicatesConfigView,
}

impl DeepView for InspectConfig {
    type V = InspectConfigView;

    open spec fn deep_view(&self) -> InspectConfigView {
        InspectConfigView {
            enabled: self.enabled,
            diagnostics_timeout_ms: self.diagnostics_timeout_ms,
            duplicates: self.duplicates.deep_view(),
        }
    }
}

/// Undo history settings.
#[derive(Debug, PartialEq, Eq)]
pub struct BackupConfig {
    pub enabled: Option<bool>,
    pub max_depth: Option<usize>,
    pub max_file_size: Option<u64>,
}

/// The model of [`BackupConfig`].
pub struct BackupConfigView {
    pub enabled: Option<bool>,
    pub max_depth: Option<usize>,
    pub max_file_size: Option<u64>,
}

impl DeepView for BackupConfig {
    type V = BackupConfigView;

    open spec fn deep_view(&self) -> BackupConfigView {
        BackupConfigView {
            enabled: self.enabled.deep_view(),
            max_depth: self.max_depth.deep_view(),
            max_file_size: self.max_file_size.deep_view(),
        }
    }
}

/// The `gh` routing shim operator gate.
#[derive(Debug, PartialEq, Eq)]
pub struct GhShimConfig {
    /// When false, the shim passes bytes through before any daemon or catalog probe.
    pub enabled: bool,
    /// Image used by managed shim entries; the running executable where absent.
    pub binary_path: Option<String>,
}

/// The model of [`GhShimConfig`].
pub struct GhShimConfigView {
    pub enabled: bool,
    pub binary_path: Option<Seq<char>>,
}

impl DeepView for GhShimConfig {
    type V = GhShimConfigView;

    open spec fn deep_view(&self) -> GhShimConfigView {
        GhShimConfigView {
            enabled: self.enabled,
            binary_path: self.binary_path.deep_view(),
        }
    }
}

/// Operator opt-in for structured GitHub resource reads.
#[derive(Debug, PartialEq, Eq)]
pub struct GhReadConfig {
    pub enabled: bool,
}

/// The model of [`GhReadConfig`].
pub struct GhReadConfigView {
    pub enabled: bool,
}

impl DeepView for GhReadConfig {
    type V = GhReadConfigView;

    open spec fn deep_view(&self) -> GhReadConfigView {
        GhReadConfigView {
            enabled: self.enabled,
        }
    }
}

/// Git behavior applied only to spawned agent children.
#[derive(Debug, PartialEq, Eq)]
pub struct GitConfig {
    /// `off`, `auto`, or one explicit `Name <email>` identity.
    pub co_author: String,
}

/// The model of [`GitConfig`].
pub struct GitConfigView {
    pub co_author: Seq<char>,
}

impl DeepView for GitConfig {
    type V = GitConfigView;

    open spec fn deep_view(&self) -> GitConfigView {
        GitConfigView {
            co_author: self.co_author.deep_view(),
        }
    }
}

/// Linked-worktree behavior that never writes shared on-disk artifacts.
#[derive(Debug, PartialEq, Eq)]
pub struct WorktreeConfig {
    pub ram_overlay: bool,
}

/// The model of [`WorktreeConfig`].
pub struct WorktreeConfigView {
    pub ram_overlay: bool,
}

impl DeepView for WorktreeConfig {
    type V = WorktreeConfigView;

    open spec fn deep_view(&self) -> WorktreeConfigView {
        WorktreeConfigView {
            ram_overlay: self.ram_overlay,
        }
    }
}

/// Native sandbox policy for first-party bash commands.
#[derive(Debug, PartialEq, Eq)]
pub struct SandboxConfig {
    pub enabled: bool,
    /// User-approved writable roots besides projects, task artifacts and caches.
    pub write_allow: Vec<String>,
    /// Extra paths that may not be read.
    pub read_deny: Vec<String>,
}

/// The model of [`SandboxConfig`].
pub struct SandboxConfigView {
    pub enabled: bool,
    pub write_allow: Seq<Seq<char>>,
    pub read_deny: Seq<Seq<char>>,
}

impl DeepView for SandboxConfig {
    type V = SandboxConfigView;

    open spec fn deep_view(&self) -> SandboxConfigView {
        SandboxConfigView {
            enabled: self.enabled,
            write_allow: self.write_allow.deep_view(),
            read_deny: self.read_deny.deep_view(),
        }
    }
}

/// Plugin-owned bash settings, accepted for configuration parity and inert in the engine.
#[derive(Debug, PartialEq, Eq)]
pub struct BashConfig {
    pub host_fallback: bool,
    pub detach_on_user_message: bool,
    pub powershell_tool: bool,
}

/// The model of [`BashConfig`].
pub struct BashConfigView {
    pub host_fallback: bool,
    pub detach_on_user_message: bool,
    pub powershell_tool: bool,
}

impl DeepView for BashConfig {
    type V = BashConfigView;

    open spec fn deep_view(&self) -> BashConfigView {
        BashConfigView {
            host_fallback: self.host_fallback,
            detach_on_user_message: self.detach_on_user_message,
            powershell_tool: self.powershell_tool,
        }
    }
}

/// Process memory settings.
#[derive(Debug, PartialEq, Eq)]
pub struct MemoryConfig {
    /// Process memory ceiling in bytes; `None` is unlimited.
    pub limit_bytes: Option<u64>,
}

/// The model of [`MemoryConfig`].
pub struct MemoryConfigView {
    pub limit_bytes: Option<u64>,
}

impl DeepView for MemoryConfig {
    type V = MemoryConfigView;

    open spec fn deep_view(&self) -> MemoryConfigView {
        MemoryConfigView {
            limit_bytes: self.limit_bytes.deep_view(),
        }
    }
}

/// The flat runtime configuration.
#[derive(Debug, PartialEq, Eq)]
pub struct Config {
    /// Root directory of the project being analyzed; `None` if not scoped.
    pub project_root: Option<String>,
    /// How many levels of call-graph edges to follow during validation.
    pub validation_depth: u32,
    /// Hours before inactive backup-session history may be collected.
    pub checkpoint_ttl_hours: u32,
    /// Maximum depth of recursive symbol resolution.
    pub max_symbol_depth: u32,
    /// Seconds before a formatter subprocess is killed.
    pub formatter_timeout_secs: u32,
    /// Seconds before a type-checker subprocess is killed.
    pub type_checker_timeout_secs: u32,
    pub format_on_edit: bool,
    /// Whether the hashline edit and read surface is enabled.
    pub hashline_enabled: bool,
    /// `syntax` or `full` where edits are validated.
    pub validate_on_edit: Option<String>,
    /// Formatter by language.
    pub formatter: TextMap<String>,
    /// Type checker by language.
    pub checker: TextMap<String>,
    /// Whether file operations are confined to `project_root`.
    pub restrict_to_project_root: bool,
    pub search_index: bool,
    pub index: IndexConfig,
    pub semantic_search: bool,
    /// Whether the plugin registered the `aft_search` tool.
    pub aft_search_registered: bool,
    pub callgraph_store: bool,
    /// Files parsed in one batch of a cold build; 0 parses all at once.
    pub callgraph_chunk_size: usize,
    pub experimental_bash_rewrite: bool,
    pub experimental_bash_compress: bool,
    pub experimental_bash_background: bool,
    pub max_background_bash_tasks: usize,
    pub bash_long_running_reminder_enabled: bool,
    pub bash_long_running_reminder_interval_ms: u64,
    /// Milliseconds before a foreground bash task is promoted to the background.
    pub foreground_wait_window_ms: u64,
    pub bash: BashConfig,
    pub bash_permissions: bool,
    pub sandbox: SandboxConfig,
    /// Largest file that is fully indexed, in bytes.
    pub search_index_max_file_size: u64,
    pub semantic: SemanticBackendConfig,
    pub inspect: InspectConfig,
    pub backup: BackupConfig,
    pub memory: MemoryConfig,
    pub worktree: WorktreeConfig,
    pub gh_shim: GhShimConfig,
    pub gh_read: GhReadConfig,
    pub git: GitConfig,
    pub experimental_lsp_ty: bool,
    /// User-defined LSP servers.
    pub lsp_servers: Vec<UserServerDef>,
    /// Lower-case ids of disabled LSP servers.
    pub disabled_lsp: TextSet,
    pub diagnostics_on_edit: bool,
    /// Extra directories searched for LSP binaries.
    pub lsp_paths_extra: Vec<String>,
    /// Binaries that the plugin knows how to install.
    pub lsp_auto_install_binaries: TextSet,
    /// Binaries whose installation is in flight.
    pub lsp_inflight_installs: TextSet,
    /// Persistent storage directory for indexes.
    pub storage_dir: Option<String>,
    /// Whether URL fetches may reach private hosts.
    pub url_fetch_allow_private: bool,
    pub hoist_builtin_tools: bool,
    pub harness: Option<Harness>,
    /// Entries kept in the diagnostic cache; 0 is unbounded.
    pub diagnostic_cache_size: usize,
}

/// The model of [`Config`].
pub struct ConfigView {
    pub project_root: Option<Seq<char>>,
    pub validation_depth: u32,
    pub checkpoint_ttl_hours: u32,
    pub max_symbol_depth: u32,
    pub formatter_timeout_secs: u32,
    pub type_checker_timeout_secs: u32,
    pub format_on_edit: bool,
    pub hashline_enabled: bool,
    pub validate_on_edit: Option<Seq<char>>,
    pub formatter: Seq<(Seq<char>, Seq<char>)>,
    pub checker: Seq<(Seq<char>, Seq<char>)>,
    pub restrict_to_project_root: bool,
    pub search_index: bool,
    pub index: IndexConfigView,
    pub semantic_search: bool,
    pub aft_search_registered: bool,
    pub callgraph_store: bool,
    pub callgraph_chunk_size: usize,
    pub experimental_bash_rewrite: bool,
    pub experimental_bash_compress: bool,
    pub experimental_bash_background: bool,
    pub max_background_bash_tasks: usize,
    pub bash_long_running_reminder_enabled: bool,
    pub bash_long_running_reminder_interval_ms: u64,
    pub foreground_wait_window_ms: u64,
    pub bash: BashConfigView,
    pub bash_permissions: bool,
    pub sandbox: SandboxConfigView,
    pub search_index_max_file_size: u64,
    pub semantic: SemanticBackendConfigView,
    pub inspect: InspectConfigView,
    pub backup: BackupConfigView,
    pub memory: MemoryConfigView,
    pub worktree: WorktreeConfigView,
    pub gh_shim: GhShimConfigView,
    pub gh_read: GhReadConfigView,
    pub git: GitConfigView,
    pub experimental_lsp_ty: bool,
    pub lsp_servers: Seq<UserServerDefView>,
    pub disabled_lsp: Set<Seq<char>>,
    pub diagnostics_on_edit: bool,
    pub lsp_paths_extra: Seq<Seq<char>>,
    pub lsp_auto_install_binaries: Set<Seq<char>>,
    pub lsp_inflight_installs: Set<Seq<char>>,
    pub storage_dir: Option<Seq<char>>,
    pub url_fetch_allow_private: bool,
    pub hoist_builtin_tools: bool,
    pub harness: Option<Harness>,
    pub diagnostic_cache_size: usize,
}

impl DeepView for Config {
    type V = ConfigView;

    open spec fn deep_view(&self) -> ConfigView {
        ConfigView {
            project_root: self.project_root.deep_view(),
            validation_depth: self.validation_depth,
            checkpoint_ttl_hours: self.checkpoint_ttl_hours,
            max_symbol_depth: self.max_symbol_depth,
            formatter_timeout_secs: self.formatter_timeout_secs,
            type_checker_timeout_secs: self.type_checker_timeout_secs,
            format_on_edit: self.format_on_edit,
            hashline_enabled: self.hashline_enabled,
            validate_on_edit: self.validate_on_edit.deep_view(),
            formatter: self.formatter.deep_view(),
            checker: self.checker.deep_view(),
            restrict_to_project_root: self.restrict_to_project_root,
            search_index: self.search_index,
            index: self.index.deep_view(),
            semantic_search: self.semantic_search,
            aft_search_registered: self.aft_search_registered,
            callgraph_store: self.callgraph_store,
            callgraph_chunk_size: self.callgraph_chunk_size,
            experimental_bash_rewrite: self.experimental_bash_rewrite,
            experimental_bash_compress: self.experimental_bash_compress,
            experimental_bash_background: self.experimental_bash_background,
            max_background_bash_tasks: self.max_background_bash_tasks,
            bash_long_running_reminder_enabled: self.bash_long_running_reminder_enabled,
            bash_long_running_reminder_interval_ms: self.bash_long_running_reminder_interval_ms,
            foreground_wait_window_ms: self.foreground_wait_window_ms,
            bash: self.bash.deep_view(),
            bash_permissions: self.bash_permissions,
            sandbox: self.sandbox.deep_view(),
            search_index_max_file_size: self.search_index_max_file_size,
            semantic: self.semantic.deep_view(),
            inspect: self.inspect.deep_view(),
            backup: self.backup.deep_view(),
            memory: self.memory.deep_view(),
            worktree: self.worktree.deep_view(),
            gh_shim: self.gh_shim.deep_view(),
            gh_read: self.gh_read.deep_view(),
            git: self.git.deep_view(),
            experimental_lsp_ty: self.experimental_lsp_ty,
            lsp_servers: self.lsp_servers.deep_view(),
            disabled_lsp: self.disabled_lsp.deep_view(),
            diagnostics_on_edit: self.diagnostics_on_edit,
            lsp_paths_extra: self.lsp_paths_extra.deep_view(),
            lsp_auto_install_binaries: self.lsp_auto_install_binaries.deep_view(),
            lsp_inflight_installs: self.lsp_inflight_installs.deep_view(),
            storage_dir: self.storage_dir.deep_view(),
            url_fetch_allow_private: self.url_fetch_allow_private,
            hoist_builtin_tools: self.hoist_builtin_tools,
            harness: self.harness.deep_view(),
            diagnostic_cache_size: self.diagnostic_cache_size,
        }
    }
}

impl IndexConfigView {
    /// The default.
    pub open spec fn default_view() -> IndexConfigView {
        IndexConfigView {
            resource_policy: IndexResourcePolicy::Balanced,
            roots: Seq::empty(),
        }
    }
}

impl Default for IndexConfig {
    fn default() -> (out: Self)
        ensures
            out.deep_view() == IndexConfigView::default_view(),
    {
        let out = IndexConfig {
            resource_policy: IndexResourcePolicy::Balanced,
            roots: Vec::new(),
        };
        assert(out.roots.deep_view() =~= Seq::empty());
        out
    }
}

impl SemanticBackendConfigView {
    /// The default.
    pub open spec fn default_view() -> SemanticBackendConfigView {
        SemanticBackendConfigView {
            backend: SemanticBackend::Fastembed,
            model: "all-MiniLM-L6-v2"@,
            base_url: None,
            api_key_env: None,
            timeout_ms: 25_000,
            query_timeout_ms: 3_000,
            max_batch_size: 64,
            max_files: 20_000,
            subc_connection_file: None,
            route_project_root: None,
            route_harness: None,
        }
    }
}

impl Default for SemanticBackendConfig {
    fn default() -> (out: Self)
        ensures
            out.deep_view() == SemanticBackendConfigView::default_view(),
    {
        let out = SemanticBackendConfig {
            backend: SemanticBackend::Fastembed,
            model: default_semantic_model(),
            base_url: None,
            api_key_env: None,
            timeout_ms: 25_000,
            query_timeout_ms: default_semantic_query_timeout_ms(),
            max_batch_size: 64,
            max_files: 20_000,
            subc_connection_file: None,
            route_project_root: None,
            route_harness: None,
        };
        out
    }
}

impl InspectDuplicatesConfigView {
    /// The default.
    pub open spec fn default_view() -> InspectDuplicatesConfigView {
        InspectDuplicatesConfigView {
            expected_mirrors: Seq::empty(),
        }
    }
}

impl Default for InspectDuplicatesConfig {
    fn default() -> (out: Self)
        ensures
            out.deep_view() == InspectDuplicatesConfigView::default_view(),
    {
        let out = InspectDuplicatesConfig {
            expected_mirrors: Vec::new(),
        };
        assert(out.expected_mirrors.deep_view() =~= Seq::empty());
        out
    }
}

impl InspectConfigView {
    /// The default.
    pub open spec fn default_view() -> InspectConfigView {
        InspectConfigView {
            enabled: true,
            diagnostics_timeout_ms: 120_000,
            duplicates: InspectDuplicatesConfigView::default_view(),
        }
    }
}

impl Default for InspectConfig {
    fn default() -> (out: Self)
        ensures
            out.deep_view() == InspectConfigView::default_view(),
    {
        let out = InspectConfig {
            enabled: true,
            diagnostics_timeout_ms: default_inspect_diagnostics_timeout_ms(),
            duplicates: InspectDuplicatesConfig::default(),
        };
        out
    }
}

impl BackupConfigView {
    /// The default.
    pub open spec fn default_view() -> BackupConfigView {
        BackupConfigView {
            enabled: Some(true),
            max_depth: Some(DEFAULT_MAX_UNDO_DEPTH),
            max_file_size: None,
        }
    }
}

impl Default for BackupConfig {
    fn default() -> (out: Self)
        ensures
            out.deep_view() == BackupConfigView::default_view(),
    {
        let out = BackupConfig {
            enabled: Some(true),
            max_depth: Some(DEFAULT_MAX_UNDO_DEPTH),
            max_file_size: None,
        };
        out
    }
}

impl GhShimConfigView {
    /// The default.
    pub open spec fn default_view() -> GhShimConfigView {
        GhShimConfigView {
            enabled: true,
            binary_path: None,
        }
    }
}

impl Default for GhShimConfig {
    fn default() -> (out: Self)
        ensures
            out.deep_view() == GhShimConfigView::default_view(),
    {
        let out = GhShimConfig {
            enabled: true,
            binary_path: None,
        };
        out
    }
}

impl GhReadConfigView {
    /// The default.
    pub open spec fn default_view() -> GhReadConfigView {
        GhReadConfigView {
            enabled: false,
        }
    }
}

impl Default for GhReadConfig {
    fn default() -> (out: Self)
        ensures
            out.deep_view() == GhReadConfigView::default_view(),
    {
        let out = GhReadConfig {
            enabled: false,
        };
        out
    }
}

impl GitConfigView {
    /// The default.
    pub open spec fn default_view() -> GitConfigView {
        GitConfigView {
            co_author: "off"@,
        }
    }
}

impl Default for GitConfig {
    fn default() -> (out: Self)
        ensures
            out.deep_view() == GitConfigView::default_view(),
    {
        let out = GitConfig {
            co_author: "off".to_owned(),
        };
        out
    }
}

impl WorktreeConfigView {
    /// The default.
    pub open spec fn default_view() -> WorktreeConfigView {
        WorktreeConfigView {
            ram_overlay: false,
        }
    }
}

impl Default for WorktreeConfig {
    fn default() -> (out: Self)
        ensures
            out.deep_view() == WorktreeConfigView::default_view(),
    {
        let out = WorktreeConfig {
            ram_overlay: false,
        };
        out
    }
}

impl SandboxConfigView {
    /// The default.
    pub open spec fn default_view() -> SandboxConfigView {
        SandboxConfigView {
            enabled: false,
            write_allow: Seq::empty(),
            read_deny: Seq::empty(),
        }
    }
}

impl Default for SandboxConfig {
    fn default() -> (out: Self)
        ensures
            out.deep_view() == SandboxConfigView::default_view(),
    {
        let out = SandboxConfig {
            enabled: false,
            write_allow: Vec::new(),
            read_deny: Vec::new(),
        };
        assert(out.write_allow.deep_view() =~= Seq::empty());
        assert(out.read_deny.deep_view() =~= Seq::empty());
        out
    }
}

impl BashConfigView {
    /// The default.
    pub open spec fn default_view() -> BashConfigView {
        BashConfigView {
            host_fallback: false,
            detach_on_user_message: true,
            powershell_tool: false,
        }
    }
}

impl Default for BashConfig {
    fn default() -> (out: Self)
        ensures
            out.deep_view() == BashConfigView::default_view(),
    {
        let out = BashConfig {
            host_fallback: false,
            detach_on_user_message: default_bash_detach_on_user_message(),
            powershell_tool: false,
        };
        out
    }
}

impl MemoryConfigView {
    /// The default.
    pub open spec fn default_view() -> MemoryConfigView {
        MemoryConfigView {
            limit_bytes: None,
        }
    }
}

impl Default for MemoryConfig {
    fn default() -> (out: Self)
        ensures
            out.deep_view() == MemoryConfigView::default_view(),
    {
        let out = MemoryConfig {
            limit_bytes: None,
        };
        out
    }
}

impl ConfigView {
    /// The default.
    pub open spec fn default_view() -> ConfigView {
        ConfigView {
            project_root: None,
            validation_depth: 1,
            checkpoint_ttl_hours: 24,
            max_symbol_depth: 10,
            formatter_timeout_secs: 10,
            type_checker_timeout_secs: 30,
            format_on_edit: false,
            hashline_enabled: false,
            validate_on_edit: None,
            formatter: Seq::empty(),
            checker: Seq::empty(),
            restrict_to_project_root: false,
            search_index: false,
            index: IndexConfigView::default_view(),
            semantic_search: false,
            aft_search_registered: false,
            callgraph_store: true,
            callgraph_chunk_size: 100,
            experimental_bash_rewrite: false,
            experimental_bash_compress: false,
            experimental_bash_background: false,
            max_background_bash_tasks: 8,
            bash_long_running_reminder_enabled: true,
            bash_long_running_reminder_interval_ms: 600_000,
            foreground_wait_window_ms: 15_000,
            bash: BashConfigView::default_view(),
            bash_permissions: false,
            sandbox: SandboxConfigView::default_view(),
            search_index_max_file_size: 1_048_576,
            semantic: SemanticBackendConfigView::default_view(),
            inspect: InspectConfigView::default_view(),
            backup: BackupConfigView::default_view(),
            memory: MemoryConfigView::default_view(),
            worktree: WorktreeConfigView::default_view(),
            gh_shim: GhShimConfigView::default_view(),
            gh_read: GhReadConfigView::default_view(),
            git: GitConfigView::default_view(),
            experimental_lsp_ty: false,
            lsp_servers: Seq::empty(),
            disabled_lsp: Set::empty(),
            diagnostics_on_edit: false,
            lsp_paths_extra: Seq::empty(),
            lsp_auto_install_binaries: Set::empty(),
            lsp_inflight_installs: Set::empty(),
            storage_dir: None,
            url_fetch_allow_private: false,
            hoist_builtin_tools: true,
            harness: None,
            diagnostic_cache_size: 5000,
        }
    }
}

impl Default for Config {
    fn default() -> (out: Self)
        ensures
            out.deep_view() == ConfigView::default_view(),
    {
        let out = Config {
            project_root: None,
            validation_depth: 1,
            checkpoint_ttl_hours: 24,
            max_symbol_depth: 10,
            formatter_timeout_secs: 10,
            type_checker_timeout_secs: 30,
            format_on_edit: false,
            hashline_enabled: false,
            validate_on_edit: None,
            formatter: TextMap::new(),
            checker: TextMap::new(),
            restrict_to_project_root: false,
            search_index: false,
            index: IndexConfig::default(),
            semantic_search: false,
            aft_search_registered: false,
            callgraph_store: true,
            callgraph_chunk_size: 100,
            experimental_bash_rewrite: false,
            experimental_bash_compress: false,
            experimental_bash_background: false,
            max_background_bash_tasks: 8,
            bash_long_running_reminder_enabled: true,
            bash_long_running_reminder_interval_ms: 600_000,
            foreground_wait_window_ms: default_foreground_wait_window_ms(),
            bash: BashConfig::default(),
            bash_permissions: false,
            sandbox: SandboxConfig::default(),
            search_index_max_file_size: 1_048_576,
            semantic: SemanticBackendConfig::default(),
            inspect: InspectConfig::default(),
            backup: BackupConfig::default(),
            memory: MemoryConfig::default(),
            worktree: WorktreeConfig::default(),
            gh_shim: GhShimConfig::default(),
            gh_read: GhReadConfig::default(),
            git: GitConfig::default(),
            experimental_lsp_ty: false,
            lsp_servers: Vec::new(),
            disabled_lsp: TextSet::new(),
            diagnostics_on_edit: false,
            lsp_paths_extra: Vec::new(),
            lsp_auto_install_binaries: TextSet::new(),
            lsp_inflight_installs: TextSet::new(),
            storage_dir: None,
            url_fetch_allow_private: false,
            hoist_builtin_tools: true,
            harness: None,
            diagnostic_cache_size: 5000,
        };
        assert(out.lsp_servers.deep_view() =~= Seq::empty());
        assert(out.lsp_paths_extra.deep_view() =~= Seq::empty());
        out
    }
}

impl Config {
    /// The name of the configured semantic backend.
    pub fn semantic_backend_label(&self) -> (out: &'static str)
        ensures
            out@ == self.semantic.backend.name(),
    {
        self.semantic.backend.as_str()
    }
}

/// A family of platforms, by how they spell paths.
#[derive(Debug, Clone, Copy, PartialEq, Eq, Structural)]
pub enum Platform {
    Unix,
    Windows,
}

impl DeepView for Platform {
    type V = Platform;

    open spec fn deep_view(&self) -> Platform {
        *self
    }
}

/// The machine, as far as configured paths depend on it.
#[derive(Debug)]
pub struct Host {
    pub platform: Platform,
    /// The home directory of the user, where there is one.
    pub home: Option<String>,
}

/// The model of [`Host`].
pub struct HostView {
    pub platform: Platform,
    pub home: Option<Seq<char>>,
}

impl DeepView for Host {
    type V = HostView;

    open spec fn deep_view(&self) -> HostView {
        HostView { platform: self.platform, home: self.home.deep_view() }
    }
}

/// What a configured root path stands for: `~` forms are expanded first, and the outcome has
/// to be absolute. The second component is the message where it is not.
pub open spec fn expanded_root(path: Seq<char>, host: HostView) -> Result<
    Seq<char>,
    Seq<char>,
> {
    let under_home = text::begins_with(path, "~/"@) || text::begins_with(path, "~\\"@);
    if (path == "~"@ || under_home) && host.home is None {
        Err("index.roots path uses ~ but no home directory is available"@)
    } else {
        let expanded = if path == "~"@ {
            host.home->0
        } else if under_home {
            path_text::seen_from(host.platform, host.home->0, path.skip(2))
        } else {
            path
        };
        if path_text::stands_alone(host.platform, expanded) {
            Ok(expanded)
        } else {
            Err(
                "index.roots path must be absolute after ~ expansion: "@ + text::debug_text(path),
            )
        }
    }
}

/// Expands the supported `~` forms before validating that a configured root is absolute. The
/// literal spelling is kept separately for durable identity.
pub fn expand_index_root_path(path: &str, host: &Host) -> (out: Result<String, String>)
    ensures
        match out {
            Ok(expanded) => expanded_root(path@, host.deep_view()) == Ok::<Seq<char>, Seq<char>>(
                expanded@,
            ),
            Err(message) => expanded_root(path@, host.deep_view()) == Err::<Seq<char>, Seq<char>>(
                message@,
            ),
        },
{
    let bare = text::same_text(path, "~");
    let under_home = text::starts_with(path, "~/") || text::starts_with(path, "~\\");
    let expanded = if bare || under_home {
        match &host.home {
            None => {
                return Err("index.roots path uses ~ but no home directory is available".to_owned());
            },
            Some(home) => if bare {
                home.clone()
            } else {
                let chars = text::chars_of(path);
                proof {
                    reveal_strlit("~/");
                    reveal_strlit("~\\");
                    assert(chars@.subrange(2, chars@.len() as int) =~= path@.skip(2));
                }
                let remainder = text::text_of(&chars, 2, chars.len());
                path_text::join_path(host.platform, home.as_str(), remainder.as_str())
            },
        }
    } else {
        path.to_owned()
    };
    if !path_text::is_absolute(host.platform, expanded.as_str()) {
        let mut message = "index.roots path must be absolute after ~ expansion: ".to_owned();
        message.append(text::debug_quote(path).as_str());
        return Err(message);
    }
    Ok(expanded)
}

/// The position of the last `c`.
pub open spec fn last_position(chars: Seq<char>, c: char) -> Option<int>
    decreases chars.len(),
{
    if chars.len() == 0 {
        None
    } else if chars.last() == c {
        Some(chars.len() - 1)
    } else {
        last_position(chars.drop_last(), c)
    }
}

fn find_last(chars: &Vec<char>, c: char) -> (out: Option<usize>)
    ensures
        match out {
            Some(i) => i < chars.len() && last_position(chars@, c) == Some(i as int),
            None => last_position(chars@, c) is None,
        },
{
    let mut n: usize = chars.len();
    assert(chars@.take(n as int) =~= chars@);
    while n > 0
        invariant
            n <= chars.len(),
            last_position(chars@, c) == last_position(chars@.take(n as int), c),
        decreases n,
    {
        if chars[n - 1] == c {
            return Some(n - 1);
        }
        assert(chars@.take(n as int).drop_last() =~= chars@.take(n - 1));
        n = n - 1;
    }
    None
}

/// ASCII white space: space, tab, line feed, form feed, carriage return.
pub open spec fn is_ascii_white(c: char) -> bool {
    c == ' ' || c == '\t' || c == '\n' || c as u32 == 0xC || c == '\r'
}

/// The characters that no part of an identity may hold.
pub open spec fn is_bracket(c: char) -> bool {
    c == '<' || c == '>'
}

pub open spec fn is_identity_name(name: Seq<char>) -> bool {
    &&& name.len() > 0
    &&& forall|i: int| 0 <= i < name.len() ==> !is_bracket(#[trigger] name[i])
}

pub open spec fn is_identity_email(email: Seq<char>) -> bool {
    &&& email.contains('@')
    &&& forall|i: int|
        0 <= i < email.len() ==> !is_bracket(#[trigger] email[i]) && !text::is_white(email[i])
}

/// Whether a trimmed text is one `Name <email>` identity on one line.
pub open spec fn is_identity(value: Seq<char>) -> bool {
    &&& !value.contains('\n')
    &&& !value.contains('\r')
    &&& value.len() > 0
    &&& value.last() == '>'
    &&& match last_position(value, '<') {
        Some(open) => {
            &&& open > 0
            &&& is_ascii_white(value[open - 1])
            &&& is_identity_name(text::trimmed(value.take(open)))
            &&& is_identity_email(text::trimmed(value.subrange(open + 1, value.len() - 1)))
        },
        None => false,
    }
}

/// What a configured co-author normalizes to.
pub open spec fn co_author(value: Seq<char>) -> Option<Seq<char>> {
    let trimmed = text::trimmed(value);
    if trimmed == "off"@ || trimmed == "auto"@ || is_identity(trimmed) {
        Some(trimmed)
    } else {
        None
    }
}

fn check_name(name: &Vec<char>) -> (yes: bool)
    ensures
        yes == is_identity_name(name@),
{
    let mut i: usize = 0;
    while i < name.len()
        invariant
            i <= name.len(),
            forall|k: int| 0 <= k < i ==> !is_bracket(#[trigger] name@[k]),
        decreases name.len() - i,
    {
        if name[i] == '<' || name[i] == '>' {
            assert(is_bracket(name@[i as int]));
            return false;
        }
        i = i + 1;
    }
    name.len() > 0
}

fn check_email(email: &Vec<char>) -> (yes: bool)
    ensures
        yes == is_identity_email(email@),
{
    let mut i: usize = 0;
    let mut at = false;
    while i < email.len()
        invariant
            i <= email.len(),
            at == email@.take(i as int).contains('@'),
            forall|k: int|
                0 <= k < i ==> !is_bracket(#[trigger] email@[k]) && !text::is_white(email@[k]),
        decreases email.len() - i,
    {
        if email[i] == '<' || email[i] == '>' || text::white(email[i]) {
            assert(is_bracket(email@[i as int]) || text::is_white(email@[i as int]));
            return false;
        }
        proof {
            let before = email@.take(i as int);
            let after = email@.take(i + 1);
            assert(after =~= before.push(email@[i as int]));
            if before.contains('@') {
                let k = choose|k: int| 0 <= k < before.len() && before[k] == '@';
                assert(after[k] == '@');
            }
            assert(after[i as int] == email@[i as int]);
        }
        if email[i] == '@' {
            at = true;
        }
        i = i + 1;
    }
    assert(email@.take(email@.len() as int) =~= email@);
    at
}

fn holds_line_break(chars: &Vec<char>) -> (yes: bool)
    ensures
        yes == (chars@.contains('\n') || chars@.contains('\r')),
{
    let mut i: usize = 0;
    while i < chars.len()
        invariant
            i <= chars.len(),
            forall|k: int| 0 <= k < i ==> chars@[k] != '\n' && chars@[k] != '\r',
        decreases chars.len() - i,
    {
        if chars[i] == '\n' || chars[i] == '\r' {
            assert(chars@.contains(chars@[i as int]));
            return true;
        }
        i = i + 1;
    }
    false
}

fn check_identity(value: &Vec<char>) -> (yes: bool)
    ensures
        yes == is_identity(value@),
{
    if holds_line_break(value) {
        return false;
    }
    if value.len() == 0 || value[value.len() - 1] != '>' {
        return false;
    }
    let open = match find_last(value, '<') {
        Some(open) => open,
        None => {
            return false;
        },
    };
    if open == 0 {
        return false;
    }
    let before = value[open - 1];
    if !(before == ' ' || before == '\t' || before == '\n' || before as u32 == 0xC || before
        == '\r') {
        return false;
    }
    proof {
        lemma_last_position(value@, '<');
        assert(value@.subrange(0, open as int) =~= value@.take(open as int));
    }
    let name = text::trim(text::text_of(value, 0, open).as_str());
    let email = text::trim(text::text_of(value, open + 1, value.len() - 1).as_str());
    check_name(&text::chars_of(name.as_str())) && check_email(&text::chars_of(email.as_str()))
}

proof fn lemma_last_position(chars: Seq<char>, c: char)
    ensures
        match last_position(chars, c) {
            Some(i) => 0 <= i < chars.len() && chars[i] == c,
            None => true,
        },
    decreases chars.len(),
{
    if chars.len() > 0 && chars.last() != c {
        lemma_last_position(chars.drop_last(), c);
    }
}

/// Normalizes configuration values into `off`, `auto`, or `Name <email>`.
pub fn normalize_git_co_author(value: &str) -> (out: Option<String>)
    ensures
        out.deep_view() == co_author(value@),
{
    let value = text::trim(value);
    if text::same_text(value.as_str(), "off") || text::same_text(value.as_str(), "auto") {
        return Some(value);
    }
    if check_identity(&text::chars_of(value.as_str())) {
        Some(value)
    } else {
        None
    }
}

/// A normalized co-author normalizes to itself.
pub proof fn law_co_author_is_normal(value: Seq<char>)
    requires
        co_author(value) is Some,
    ensures
        co_author(co_author(value)->0) == co_author(value),
{
    text::law_trim_is_idempotent(value);
}

/// The harnesses have different labels.
pub proof fn law_labels_tell_harnesses_apart(a: Harness, b: Harness)
    ensures
        a.label() == b.label() <==> a == b,
{
    reveal_strlit("opencode");
    reveal_strlit("pi");
    assert("opencode"@.len() != "pi"@.len());
}

/// On Unix an index root that starts with a slash is taken as it is, one that is `~` is the home
/// directory, and one behind `~/` lies below it. Without a home directory neither of these can be
/// told, and any other root is refused with its text.
pub proof fn law_index_roots_are_expanded(host: HostView, home: Seq<char>, rest: Seq<char>)
    requires
        host.platform == Platform::Unix,
        home.len() > 0,
        home[0] == '/',
        home.last() != '/',
        rest.len() > 0,
        rest[0] != '/',
        rest[0] != '~',
    ensures
        expanded_root(seq!['/'] + rest, host) == Ok::<Seq<char>, Seq<char>>(seq!['/'] + rest),
        host.home == Some(home) ==> expanded_root(seq!['~'], host) == Ok::<Seq<char>, Seq<char>>(home),
        host.home == Some(home) ==> expanded_root(seq!['~', '/'] + rest, host) == Ok::<
            Seq<char>,
            Seq<char>,
        >(home + seq!['/'] + rest),
        host.home is None ==> expanded_root(seq!['~'], host) is Err,
        host.home is None ==> expanded_root(seq!['~', '/'] + rest, host) is Err,
        host.home is None ==> expanded_root(seq!['~'], host) == expanded_root(
            seq!['~', '/'] + rest,
            host,
        ),
        expanded_root(rest, host) == Err::<Seq<char>, Seq<char>>(
            "index.roots path must be absolute after ~ expansion: "@ + text::debug_text(rest),
        ),
{
    reveal_strlit("~");
    reveal_strlit("~/");
    reveal_strlit("~\\");
    assert("~"@ =~= seq!['~']);
    assert("~/"@ =~= seq!['~', '/']);
    assert("~\\"@ =~= seq!['~', '\\']);
    let absolute = seq!['/'] + rest;
    assert(absolute[0] == '/');
    assert("~"@[0] == '~' && "~/"@[0] == '~' && "~\\"@[0] == '~');
    let below = seq!['~', '/'] + rest;
    assert(below.len() > 1);
    assert(below.take(2) =~= "~/"@);
    assert(below.skip(2) =~= rest);
    assert(home.push('/') + rest =~= home + seq!['/'] + rest);
    path_text::law_texts_are_seen_from_directories(home, rest);
    assert((home + seq!['/'] + rest)[0] == '/');
}

proof fn lemma_last_is_last(chars: Seq<char>, c: char)
    ensures
        match last_position(chars, c) {
            Some(at) => 0 <= at < chars.len() && chars[at] == c && forall|i: int|
                at < i < chars.len() ==> #[trigger] chars[i] != c,
            None => !chars.contains(c),
        },
    decreases chars.len(),
{
    if chars.len() > 0 && chars.last() != c {
        lemma_last_is_last(chars.drop_last(), c);
        if last_position(chars, c) is None {
            if chars.contains(c) {
                let i = choose|i: int| 0 <= i < chars.len() && chars[i] == c;
                assert(chars.drop_last()[i] == c);
                assert(chars.drop_last().contains(c));
            }
        } else {
            let at = last_position(chars, c)->0;
            assert forall|i: int| at < i < chars.len() implies #[trigger] chars[i] != c by {
                if i < chars.len() - 1 {
                    assert(chars.drop_last()[i] != c);
                }
            }
        }
    }
}

/// A name without brackets, a space and an address in angle brackets, on one line, name a person.
pub proof fn law_name_and_address_name_a_person(name: Seq<char>, email: Seq<char>)
    requires
        name.len() > 0,
        forall|i: int|
            0 <= i < name.len() ==> #[trigger] name[i] != '<' && name[i] != '>' && name[i] != '\n'
                && name[i] != '\r',
        !text::is_white(name[0]),
        !text::is_white(name.last()),
        email.contains('@'),
        forall|i: int|
            0 <= i < email.len() ==> #[trigger] email[i] != '<' && email[i] != '>'
                && !text::is_white(email[i]),
    ensures
        co_author(name + seq![' ', '<'] + email + seq!['>']) == Some(
            name + seq![' ', '<'] + email + seq!['>'],
        ),
{
    let value = name + seq![' ', '<'] + email + seq!['>'];
    let open = name.len() + 1;
    assert(value[open as int] == '<');
    assert(value.last() == '>');
    assert(value[0] == name[0]);
    assert(text::trimmed(value) == value);
    assert forall|i: int| open < i < value.len() implies #[trigger] value[i] != '<' by {
        if i < value.len() - 1 {
            assert(value[i] == email[i - open - 1]);
        }
    }
    lemma_last_is_last(value, '<');
    if last_position(value, '<') is None {
        assert(value.contains('<'));
    }
    assert(last_position(value, '<') == Some(open as int));
    assert(value[open - 1] == ' ');
    let front = value.take(open as int);
    assert(front =~= name.push(' '));
    assert(front.drop_last() =~= name);
    assert(front.last() == ' ');
    assert(front[0] == name[0]);
    assert(text::trimmed(name) == name);
    assert(text::trimmed(front) == name);
    let inner = value.subrange(open as int + 1, value.len() - 1);
    assert(inner =~= email);
    let at = choose|i: int| 0 <= i < email.len() && email[i] == '@';
    assert(email.len() > 0);
    assert(!text::is_white(email[email.len() - 1]));
    assert(text::trimmed(email) == email);
    assert forall|i: int| 0 <= i < value.len() implies #[trigger] value[i] != '\n' && value[i]
        != '\r' by {
        if i < name.len() {
            assert(value[i] == name[i]);
        } else if i > open && i < value.len() - 1 {
            assert(value[i] == email[i - open - 1]);
        }
    }
}

/// A co-author is `off`, `auto` or a person, without white space around it: a person is named on
/// one line, by a name, white space and an address with an `@` in angle brackets, and by nothing
/// else.
pub proof fn law_co_author_is_a_word_or_a_person(value: Seq<char>) -> (open: int)
    requires
        co_author(value) is Some,
        text::trimmed(value) != "off"@,
        text::trimmed(value) != "auto"@,
    ensures
        ({
            let person = text::trimmed(value);
            &&& co_author(value) == Some(person)
            &&& 0 < open < person.len() - 1
            &&& person[open] == '<' && person.last() == '>'
            &&& is_ascii_white(person[open - 1])
            &&& !person.contains('\n') && !person.contains('\r')
            &&& text::trimmed(person.take(open)).len() > 0
            &&& text::trimmed(person.subrange(open + 1, person.len() - 1)).contains('@')
            &&& forall|i: int| open < i < person.len() ==> #[trigger] person[i] != '<'
        }),
{
    let person = text::trimmed(value);
    lemma_last_is_last(person, '<');
    last_position(person, '<')->0
}

} // verus!
