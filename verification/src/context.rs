//! The state of one root, as plain values: what is resident, what is being built, and which
//! work is admitted.
//!
//! The application holds the stores, channels and threads themselves. Here a store is the
//! number that it is known by, a channel is whether it is installed and for which generation and
//! epoch, and what only the application can learn comes in as an argument.

use vstd::prelude::*;
use vstd::string::*;

use crate::borrowed_cache::{BorrowedIndexCache, WorktreeBridgeCache};
use crate::config::{Config, Harness, Platform};
use crate::lifecycle;
use crate::lifecycle::{advance, ReceiverSlot, SubcLifecycleAdmission};
use crate::memory_admission;
use crate::memory_admission::MemoryAdmissionLedger;
use crate::path_map;
use crate::path_map::PathMap;
use crate::path_set;
use crate::path_set::PathSet;
use crate::path_text;
use crate::path_text::{components, join_path};
use crate::semantic_status::{SemanticBuildProgress, SemanticIndexStatus};
use crate::status_bar::{
    DiagnosticsReading, StatusBarCountValues, StatusBarCounts, StatusBarState, StatusBarTier2,
};
use crate::text;
use crate::text_map;
use crate::text_map::{TextMap, TextSet};

verus! {

/// A reader of the persisted callgraph store, by the number that the application gave it.
#[derive(Debug, Clone, Copy, PartialEq, Eq, Structural)]
pub struct StoreHandle {
    pub id: u64,
    /// The reader serves a partition of the older layout until that is migrated.
    pub legacy_fallback: bool,
}

/// Why builds of a domain are refused for now.
#[derive(Debug, PartialEq, Eq)]
pub struct BuildSuspension {
    pub domain: String,
    pub reason: String,
    pub death_count: u64,
}

impl BuildSuspension {
    pub fn copy(&self) -> (out: Self)
        ensures
            out == *self,
    {
        BuildSuspension {
            domain: self.domain.clone(),
            reason: self.reason.clone(),
            death_count: self.death_count,
        }
    }
}

/// What is known of the callgraph store and its builds.
#[derive(Debug)]
pub struct CallgraphSlots {
    pub resident: Option<StoreHandle>,
    pub receiver: ReceiverSlot,
    pub persist_epoch: u64,
    /// A build that was refused, and the generation in which.
    pub denied: Option<(u64, String)>,
    /// A suspension of builds, and the generation in which it was met.
    pub suspension: Option<(u64, BuildSuspension)>,
    pub force_requested: u64,
    pub force_fulfilled: u64,
    pub cold_builds_spawned: usize,
    /// That all legacy partitions were migrated was logged.
    pub migration_summary_logged: bool,
}

/// What is known of a resident search index.
#[derive(Debug, Clone, Copy, PartialEq, Eq, Structural)]
pub struct SearchResidency {
    pub ready: bool,
    pub build_denied: bool,
    pub pending_disk_changes: bool,
}

/// What is known of the search index and its builds.
#[derive(Debug, Clone, Copy, PartialEq, Eq, Structural)]
pub struct SearchSlots {
    pub resident: Option<SearchResidency>,
    pub receiver: ReceiverSlot,
    pub terminal_epoch: u64,
    pub persist_epoch: u64,
    /// The generation in which loads were rescheduled, and how many.
    pub reschedule_generation: u64,
    pub reschedules: u32,
}

/// The cold-seed gate: it holds back other cold work while the whole semantic corpus is
/// collected.
#[derive(Debug, Clone, Copy, PartialEq, Eq, Structural)]
pub struct ColdSeedGate {
    pub active: bool,
    pub generation: u64,
    /// A warm-up of the callgraph store waits for the cold-seed gate.
    pub callgraph_warm_deferred: bool,
}

/// The worker that embeds changed files again.
#[derive(Debug, Clone, Copy, PartialEq, Eq, Structural)]
pub struct RefreshWorkerSlot {
    pub sender: bool,
    pub receiver: ReceiverSlot,
    pub worker: bool,
    /// The epoch of the build that the worker refreshes; 0 without a worker.
    pub build_epoch: u64,
}

/// Retries stop while the embedding backend appears to be down.
#[derive(Debug, Clone, Copy, PartialEq, Eq, Structural)]
pub struct SemanticRefreshCircuit {
    pub consecutive_transient_failures: usize,
    pub open: bool,
    pub probe_in_flight: bool,
    pub probe_ready: bool,
    pub probe_token: u64,
}

/// What is known of the semantic index, its builds and its refreshes.
#[derive(Debug)]
pub struct SemanticSlots {
    pub resident: bool,
    pub status: SemanticIndexStatus,
    pub progress: Option<SemanticBuildProgress>,
    pub receiver: ReceiverSlot,
    pub terminal_epoch: u64,
    pub persist_epoch: u64,
    pub build_epoch: u64,
    pub fingerprint_generation: u64,
    pub seed: ColdSeedGate,
    pub refresh: RefreshWorkerSlot,
    pub circuit: SemanticRefreshCircuit,
    /// How often the refresh of each path was retried.
    pub retry_attempts: PathMap<usize>,
}

/// Paths that wait for an index to take them up.
#[derive(Debug)]
pub struct PendingReconciliationState {
    pub search: PathSet,
    pub callgraph: PathSet,
    pub tier2: PathSet,
    pub semantic: PathSet,
    /// The whole semantic corpus waits to be refreshed.
    pub corpus_refresh: bool,
}

/// Whether the shared artifacts of a root are written here or only read.
#[derive(Debug, Clone, Copy, PartialEq, Eq, Structural)]
pub enum ArtifactOwnerMode {
    Owner,
    ReadOnly,
}

/// The part that this process plays for its root.
#[derive(Debug)]
pub struct RootRole {
    pub canonical_cache_root: Option<String>,
    pub is_worktree_bridge: bool,
    pub git_common_dir: Option<String>,
    pub shared_artifacts_read_only: bool,
    pub daemonless_query_mode: bool,
    pub callgraph_writer: bool,
    pub inspect_writer: bool,
    pub artifact_owner: Option<ArtifactOwnerMode>,
    /// Why heavy work is switched off for this root, in the order in which it was noted.
    pub degraded_reasons: Vec<String>,
    pub heavy_root_work: bool,
    pub standing_artifact_exempt: bool,
    pub automatic_tier2_refresh: bool,
}

/// The identities of the configuration in force.
#[derive(Debug)]
pub struct ConfigureState {
    /// Advances when the configuration changes, not when a route is lost.
    pub content_generation: u64,
    pub warm_generation: u64,
    pub warm_key: Option<String>,
    pub callgraph_build_key: Option<String>,
}

/// A configured root and what it canonically is.
#[derive(Debug)]
pub struct PathRestrictionRootMemo {
    pub configured_root: String,
    pub resolved_root: String,
}

/// What the scheduler of background refreshes decides by, beside the time and the number of
/// changed paths: whether this root may run one, whether one is in flight, and whether other
/// cold work is held back.
#[derive(Debug, Clone, Copy, PartialEq, Eq, Structural)]
pub struct Tier2TickFacts {
    pub can_write: bool,
    pub in_flight: bool,
    pub semantic_cold_seed_active: bool,
}

/// The state of one root.
#[derive(Debug)]
pub struct AppContext {
    /// How paths are spelled.
    pub platform: Platform,
    pub config: Config,
    pub harness: Option<Harness>,
    pub lifecycle: SubcLifecycleAdmission,
    pub configure: ConfigureState,
    pub role: RootRole,
    pub callgraph: CallgraphSlots,
    pub search: SearchSlots,
    pub semantic: SemanticSlots,
    pub pending: PendingReconciliationState,
    pub status_bar: StatusBarState,
    pub path_restriction_root_memo: Option<PathRestrictionRootMemo>,
    /// How many requests with an id confine paths to the root.
    pub force_restrict_requests: TextMap<usize>,
    /// The key of each root's shared artifacts.
    pub artifact_cache_keys: PathMap<String>,
    pub artifact_cache_key_derivations: u64,
    pub borrowed_index_cache: BorrowedIndexCache,
    pub worktree_bridge_cache: WorktreeBridgeCache,
    pub last_seen_reuse_completions: u64,
    pub gitignore_generation: u64,
    pub bash_compress: bool,
}

/// The state of a root that was just configured for the first time.
pub open spec fn fresh_role(role: RootRole) -> bool {
    &&& role.canonical_cache_root is None
    &&& !role.is_worktree_bridge
    &&& role.git_common_dir is None
    &&& !role.shared_artifacts_read_only
    &&& !role.daemonless_query_mode
    &&& role.callgraph_writer
    &&& role.inspect_writer
    &&& role.artifact_owner is None
    &&& role.degraded_reasons@.len() == 0
    &&& role.heavy_root_work
    &&& !role.standing_artifact_exempt
    &&& role.automatic_tier2_refresh
}

/// Nothing is resident, installed, refused or asked for.
pub open spec fn fresh_callgraph() -> CallgraphSlots {
    CallgraphSlots {
        resident: None,
        receiver: ReceiverSlot { present: false, generation: 0, epoch: 0 },
        persist_epoch: 0,
        denied: None,
        suspension: None,
        force_requested: 0,
        force_fulfilled: 0,
        cold_builds_spawned: 0,
        migration_summary_logged: false,
    }
}

/// No index is resident or being built.
pub open spec fn fresh_search() -> SearchSlots {
    SearchSlots {
        resident: None,
        receiver: ReceiverSlot { present: false, generation: 0, epoch: 0 },
        terminal_epoch: 0,
        persist_epoch: 0,
        reschedule_generation: 0,
        reschedules: 0,
    }
}

/// The semantic index is disabled and nothing works on it.
pub open spec fn fresh_semantic(slots: SemanticSlots) -> bool {
    &&& !slots.resident
    &&& slots.status is Disabled
    &&& slots.progress is None
    &&& slots.receiver == (ReceiverSlot { present: false, generation: 0, epoch: 0 })
    &&& slots.terminal_epoch == 0
    &&& slots.persist_epoch == 0
    &&& slots.build_epoch == 0
    &&& slots.fingerprint_generation == 0
    &&& slots.seed == (ColdSeedGate {
        active: false,
        generation: 0,
        callgraph_warm_deferred: false,
    })
    &&& slots.refresh == (RefreshWorkerSlot {
        sender: false,
        receiver: ReceiverSlot { present: false, generation: 0, epoch: 0 },
        worker: false,
        build_epoch: 0,
    })
    &&& slots.circuit == (SemanticRefreshCircuit {
        consecutive_transient_failures: 0,
        open: false,
        probe_in_flight: false,
        probe_ready: false,
        probe_token: 0,
    })
    &&& slots.retry_attempts.deep_view() == Seq::<(Seq<char>, usize)>::empty()
}

/// No path waits for anything.
pub open spec fn nothing_pending(pending: PendingReconciliationState) -> bool {
    &&& pending.search.deep_view() == Seq::<Seq<char>>::empty()
    &&& pending.callgraph.deep_view() == Seq::<Seq<char>>::empty()
    &&& pending.tier2.deep_view() == Seq::<Seq<char>>::empty()
    &&& pending.semantic.deep_view() == Seq::<Seq<char>>::empty()
    &&& !pending.corpus_refresh
}

fn fresh_semantic_slots() -> (slots: SemanticSlots)
    ensures
        fresh_semantic(slots),
{
    SemanticSlots {
        resident: false,
        status: SemanticIndexStatus::Disabled,
        progress: None,
        receiver: ReceiverSlot::empty(),
        terminal_epoch: 0,
        persist_epoch: 0,
        build_epoch: 0,
        fingerprint_generation: 0,
        seed: ColdSeedGate { active: false, generation: 0, callgraph_warm_deferred: false },
        refresh: RefreshWorkerSlot {
            sender: false,
            receiver: ReceiverSlot::empty(),
            worker: false,
            build_epoch: 0,
        },
        circuit: SemanticRefreshCircuit {
            consecutive_transient_failures: 0,
            open: false,
            probe_in_flight: false,
            probe_ready: false,
            probe_token: 0,
        },
        retry_attempts: PathMap::new(),
    }
}

/// Pending state in which no path waits.
pub fn empty_pending() -> (pending: PendingReconciliationState)
    ensures
        nothing_pending(pending),
{
    PendingReconciliationState {
        search: PathSet::new(),
        callgraph: PathSet::new(),
        tier2: PathSet::new(),
        semantic: PathSet::new(),
        corpus_refresh: false,
    }
}

fn fresh_root_role() -> (role: RootRole)
    ensures
        fresh_role(role),
{
    RootRole {
        canonical_cache_root: None,
        is_worktree_bridge: false,
        git_common_dir: None,
        shared_artifacts_read_only: false,
        daemonless_query_mode: false,
        callgraph_writer: true,
        inspect_writer: true,
        artifact_owner: None,
        degraded_reasons: Vec::new(),
        heavy_root_work: true,
        standing_artifact_exempt: false,
        automatic_tier2_refresh: true,
    }
}

fn same_spelling(a: &Option<String>, b: &Option<String>) -> (same: bool)
    ensures
        same == (a.deep_view() == b.deep_view()),
{
    match (a, b) {
        (Some(a), Some(b)) => text::same_text(a.as_str(), b.as_str()),
        (None, None) => true,
        _ => false,
    }
}

/// The configuration with compression switched on or off.
#[verifier::opaque]
pub open spec fn compress_switched(config: Config, enabled: bool) -> Config {
    Config { experimental_bash_compress: enabled, ..config }
}

fn with_bash_compress(config: Config, enabled: bool) -> (out: Config)
    ensures
        out == compress_switched(config, enabled),
{
    reveal(compress_switched);
    Config { experimental_bash_compress: enabled, ..config }
}

impl AppContext {
    /// A context that was not configured yet.
    pub fn new(config: Config, platform: Platform) -> (context: Self)
        ensures
            context.platform == platform,
            context.config == config,
            context.bash_compress == config.experimental_bash_compress,
            context.harness is None,
            context.lifecycle == (SubcLifecycleAdmission { unbound: false, generation: 0 }),
            context.configure == (ConfigureState {
                content_generation: 0,
                warm_generation: 0,
                warm_key: None,
                callgraph_build_key: None,
            }),
            fresh_role(context.role),
            context.callgraph == fresh_callgraph(),
            context.search == fresh_search(),
            fresh_semantic(context.semantic),
            nothing_pending(context.pending),
            context.pending.deep_view().well_formed(platform),
            context.status_bar.tier2 == StatusBarTier2::unproven(0),
            context.status_bar.cached is None,
            context.status_bar.last_emitted.last is None,
            context.path_restriction_root_memo is None,
            context.force_restrict_requests.deep_view() == Seq::<(Seq<char>, usize)>::empty(),
            context.artifact_cache_keys.deep_view() == Seq::<(Seq<char>, Seq<char>)>::empty(),
            context.artifact_cache_key_derivations == 0,
            context.borrowed_index_cache.platform == platform,
            context.borrowed_index_cache.deep_view().entries.len() == 0,
            context.borrowed_index_cache.deep_view().resolved_roots.len() == 0,
            context.worktree_bridge_cache.platform == platform,
            context.worktree_bridge_cache.entries.deep_view().len() == 0,
            context.last_seen_reuse_completions == 0,
            context.gitignore_generation == 0,
    {
        let bash_compress = config.experimental_bash_compress;
        AppContext {
            platform,
            config,
            harness: None,
            lifecycle: SubcLifecycleAdmission::new(),
            configure: ConfigureState {
                content_generation: 0,
                warm_generation: 0,
                warm_key: None,
                callgraph_build_key: None,
            },
            role: fresh_root_role(),
            callgraph: CallgraphSlots {
                resident: None,
                receiver: ReceiverSlot::empty(),
                persist_epoch: 0,
                denied: None,
                suspension: None,
                force_requested: 0,
                force_fulfilled: 0,
                cold_builds_spawned: 0,
                migration_summary_logged: false,
            },
            search: SearchSlots {
                resident: None,
                receiver: ReceiverSlot::empty(),
                terminal_epoch: 0,
                persist_epoch: 0,
                reschedule_generation: 0,
                reschedules: 0,
            },
            semantic: fresh_semantic_slots(),
            pending: empty_pending(),
            status_bar: StatusBarState::new(),
            path_restriction_root_memo: None,
            force_restrict_requests: TextMap::new(),
            artifact_cache_keys: PathMap::new(),
            artifact_cache_key_derivations: 0,
            borrowed_index_cache: BorrowedIndexCache::new(platform),
            worktree_bridge_cache: WorktreeBridgeCache::new(platform),
            last_seen_reuse_completions: 0,
            gitignore_generation: 0,
            bash_compress,
        }
    }

    /// Publishes a configuration. The ledger takes over its memory ceiling. The remembered
    /// containment root stays only while the configured root is spelled the same.
    pub fn set_config(&mut self, config: Config, ledger: &mut MemoryAdmissionLedger)
        ensures
            *final(self) == (AppContext {
                config,
                path_restriction_root_memo: if old(self).config.project_root.deep_view()
                    == config.project_root.deep_view() {
                    old(self).path_restriction_root_memo
                } else {
                    None
                },
                ..*old(self)
            }),
            final(ledger)@ == (memory_admission::LedgerView {
                limit: memory_admission::effective_limit(config.memory.limit_bytes),
                ..old(ledger)@
            }),
    {
        ledger.set_limit(config.memory.limit_bytes);
        let changed = !same_spelling(&self.config.project_root, &config.project_root);
        self.config = config;
        if changed {
            self.path_restriction_root_memo = None;
        }
    }

    // ---- Lifecycle and generations ----

    /// The generation that work is admitted under.
    pub fn configure_generation(&self) -> (generation: u64)
        ensures
            generation == self.lifecycle.generation,
    {
        self.lifecycle.generation
    }

    /// The generation of the configuration's content.
    pub fn configure_content_generation(&self) -> (generation: u64)
        ensures
            generation == self.configure.content_generation,
    {
        self.configure.content_generation
    }

    /// Starts a new generation.
    pub fn advance_configure_generation(&mut self) -> (generation: u64)
        ensures
            generation == lifecycle::next_count(old(self).lifecycle.generation),
            *final(self) == (AppContext {
                lifecycle: SubcLifecycleAdmission { generation, ..old(self).lifecycle },
                ..*old(self)
            }),
    {
        self.lifecycle.advance_generation()
    }

    /// Notes that a route consumes the root's work.
    pub fn mark_subc_bound(&mut self)
        ensures
            *final(self) == (AppContext {
                lifecycle: SubcLifecycleAdmission { unbound: false, ..old(self).lifecycle },
                ..*old(self)
            }),
    {
        self.lifecycle.mark_bound();
    }

    /// Notes that the last route is gone.
    pub fn mark_subc_unbound(&mut self)
        ensures
            *final(self) == (AppContext {
                lifecycle: old(self).lifecycle.without_route(),
                ..*old(self)
            }),
    {
        self.lifecycle.mark_unbound();
    }

    /// Whether no route consumes the root's work.
    pub fn subc_unbound_quiesced(&self) -> (yes: bool)
        ensures
            yes == self.lifecycle.unbound,
    {
        self.lifecycle.is_unbound()
    }

    /// Whether heavy work may run: it is switched on for this root, and a route consumes it.
    pub open spec fn heavy_work(self) -> bool {
        self.role.heavy_root_work && !self.lifecycle.unbound
    }

    /// Whether heavy work may run.
    pub fn heavy_root_work_allowed(&self) -> (yes: bool)
        ensures
            yes == self.heavy_work(),
    {
        self.role.heavy_root_work && !self.lifecycle.is_unbound()
    }

    /// Whether heavy work may run, where the route's state was read without waiting: `None`
    /// where heavy work is on and the state could not be read.
    pub fn try_heavy_root_work_allowed(&self, bound: Option<bool>) -> (allowed: Option<bool>)
        ensures
            allowed == (if self.role.heavy_root_work {
                bound
            } else {
                Some(false)
            }),
    {
        if !self.role.heavy_root_work {
            return Some(false);
        }
        bound
    }

    pub fn set_heavy_root_work_allowed(&mut self, allowed: bool)
        ensures
            *final(self) == (AppContext {
                role: RootRole { heavy_root_work: allowed, ..old(self).role },
                ..*old(self)
            }),
    {
        self.role.heavy_root_work = allowed;
    }

    /// Whether a key is that of the warm configuration in force.
    pub open spec fn has_warm_key(self, key: Seq<char>) -> bool {
        self.configure.warm_key.deep_view() == Some(key)
    }

    /// Takes over the key of a configuration and answers its generation and whether the key is
    /// the one in force. An equal key keeps the running generation, so that the workers that
    /// were started under it still count; another one starts a new generation.
    pub fn note_configure_warm_key(&mut self, key: String) -> (out: (u64, bool))
        ensures
            out.1 == old(self).has_warm_key(key@),
            out.0 == (if out.1 {
                old(self).lifecycle.generation
            } else {
                lifecycle::next_count(old(self).lifecycle.generation)
            }),
            *final(self) == (AppContext {
                lifecycle: SubcLifecycleAdmission { generation: out.0, ..old(self).lifecycle },
                configure: ConfigureState {
                    content_generation: if out.1 {
                        old(self).configure.content_generation
                    } else {
                        lifecycle::next_count(old(self).configure.content_generation)
                    },
                    warm_generation: out.0,
                    warm_key: Some(key),
                    ..old(self).configure
                },
                ..*old(self)
            }),
    {
        let equivalent = self.configure_warm_key_matches(key.as_str());
        let generation: u64 = if equivalent {
            self.lifecycle.generation
        } else {
            self.configure.content_generation = advance(self.configure.content_generation);
            self.lifecycle.advance_generation()
        };
        self.configure.warm_generation = generation;
        self.configure.warm_key = Some(key);
        (generation, equivalent)
    }

    /// Whether a key is that of the warm configuration in force.
    pub fn configure_warm_key_matches(&self, key: &str) -> (yes: bool)
        ensures
            yes == self.has_warm_key(key@),
    {
        match &self.configure.warm_key {
            Some(current) => text::same_text(current.as_str(), key),
            None => false,
        }
    }

    /// Takes over the key of the callgraph's inputs and answers whether it is the one in force.
    pub fn note_callgraph_build_key(&mut self, key: String) -> (equivalent: bool)
        ensures
            equivalent == (old(self).configure.callgraph_build_key.deep_view() == Some(key@)),
            *final(self) == (AppContext {
                configure: ConfigureState {
                    callgraph_build_key: Some(key),
                    ..old(self).configure
                },
                ..*old(self)
            }),
    {
        let equivalent = match &self.configure.callgraph_build_key {
            Some(current) => text::same_text(current.as_str(), key.as_str()),
            None => false,
        };
        self.configure.callgraph_build_key = Some(key);
        equivalent
    }

    /// Forgets the warm configuration: the next one counts as changed.
    pub fn invalidate_configure_warm_state(&mut self)
        ensures
            *final(self) == (AppContext {
                configure: ConfigureState { warm_key: None, ..old(self).configure },
                ..*old(self)
            }),
    {
        self.configure.warm_key = None;
    }

    // ---- Role ----

    pub fn set_harness(&mut self, harness: Harness)
        ensures
            *final(self) == (AppContext { harness: Some(harness), ..*old(self) }),
    {
        self.harness = Some(harness);
    }

    pub fn harness_opt(&self) -> (harness: Option<Harness>)
        ensures
            harness == self.harness,
    {
        self.harness
    }

    /// The harness, once one was configured.
    pub fn harness(&self) -> (harness: Harness)
        requires
            self.harness is Some,
        ensures
            Some(harness) == self.harness,
    {
        self.harness.unwrap()
    }

    /// Takes over the canonical root. A changed root starts with no counts in its status bar.
    pub fn set_canonical_cache_root(&mut self, root: String)
        ensures
            *final(self) == (AppContext {
                role: RootRole { canonical_cache_root: Some(root), ..old(self).role },
                status_bar: if old(self).role.canonical_cache_root matches Some(current)
                    && path_text::same_path(old(self).platform, current@, root@) {
                    old(self).status_bar
                } else {
                    StatusBarState {
                        tier2: StatusBarTier2::unproven(
                            lifecycle::next_count(old(self).status_bar.tier2.generation),
                        ),
                        last_emitted: crate::status_bar::LegacyStatusBarEmission { last: None },
                        ..old(self).status_bar
                    }
                },
                ..*old(self)
            }),
    {
        let changed = match &self.role.canonical_cache_root {
            Some(current) => !path_text::is_same_path(
                self.platform,
                current.as_str(),
                root.as_str(),
            ),
            None => true,
        };
        self.role.canonical_cache_root = Some(root);
        if changed {
            self.status_bar.tier2.reset();
            self.status_bar.last_emitted.clear();
        }
    }

    /// The canonical root, once one was configured.
    pub fn canonical_cache_root(&self) -> (root: &String)
        requires
            self.role.canonical_cache_root is Some,
        ensures
            Some(*root) == self.role.canonical_cache_root,
    {
        match &self.role.canonical_cache_root {
            Some(root) => root,
            None => {
                assert(false);
                vstd::pervasive::unreached()
            },
        }
    }

    pub fn canonical_cache_root_opt(&self) -> (root: Option<String>)
        ensures
            root == self.role.canonical_cache_root,
    {
        match &self.role.canonical_cache_root {
            Some(root) => Some(root.clone()),
            None => None,
        }
    }

    /// Takes over whether the root is a linked worktree. Such a root neither writes the
    /// callgraph store nor refreshes on its own.
    pub fn set_cache_role(&mut self, is_worktree_bridge: bool, git_common_dir: Option<String>)
        ensures
            *final(self) == (AppContext {
                role: RootRole {
                    is_worktree_bridge,
                    git_common_dir,
                    automatic_tier2_refresh: !is_worktree_bridge,
                    callgraph_writer: !is_worktree_bridge
                        && !old(self).role.shared_artifacts_read_only,
                    ..old(self).role
                },
                ..*old(self)
            }),
    {
        self.role.is_worktree_bridge = is_worktree_bridge;
        self.role.git_common_dir = git_common_dir;
        self.role.automatic_tier2_refresh = !is_worktree_bridge;
        self.role.callgraph_writer = !is_worktree_bridge && !self.role.shared_artifacts_read_only;
    }

    /// Takes over who owns the shared artifacts. A read-only root does not write the callgraph
    /// store.
    pub fn set_artifact_owner(&mut self, owner: Option<ArtifactOwnerMode>)
        ensures
            *final(self) == (AppContext {
                role: RootRole {
                    artifact_owner: owner,
                    shared_artifacts_read_only: owner == Some(ArtifactOwnerMode::ReadOnly),
                    callgraph_writer: !old(self).role.is_worktree_bridge && owner != Some(
                        ArtifactOwnerMode::ReadOnly,
                    ),
                    inspect_writer: true,
                    ..old(self).role
                },
                ..*old(self)
            }),
    {
        let read_only = match owner {
            Some(ArtifactOwnerMode::ReadOnly) => true,
            _ => false,
        };
        self.role.shared_artifacts_read_only = read_only;
        self.role.callgraph_writer = !self.role.is_worktree_bridge && !read_only;
        self.role.inspect_writer = true;
        self.role.artifact_owner = owner;
    }

    pub fn set_cache_writer_capabilities(&mut self, callgraph_writer: bool, inspect_writer: bool)
        ensures
            *final(self) == (AppContext {
                role: RootRole { callgraph_writer, inspect_writer, ..old(self).role },
                ..*old(self)
            }),
    {
        self.role.callgraph_writer = callgraph_writer;
        self.role.inspect_writer = inspect_writer;
    }

    pub fn callgraph_writer(&self) -> (yes: bool)
        ensures
            yes == self.role.callgraph_writer,
    {
        self.role.callgraph_writer
    }

    pub fn inspect_writer(&self) -> (yes: bool)
        ensures
            yes == self.role.inspect_writer,
    {
        self.role.inspect_writer
    }

    /// Whether the shared artifacts are only read here.
    pub fn shared_artifacts_read_only(&self) -> (yes: bool)
        ensures
            yes == !self.role.callgraph_writer,
    {
        !self.callgraph_writer()
    }

    pub fn set_daemonless_query_mode(&mut self, enabled: bool)
        ensures
            *final(self) == (AppContext {
                role: RootRole { daemonless_query_mode: enabled, ..old(self).role },
                ..*old(self)
            }),
    {
        self.role.daemonless_query_mode = enabled;
    }

    pub fn daemonless_query_mode(&self) -> (yes: bool)
        ensures
            yes == self.role.daemonless_query_mode,
    {
        self.role.daemonless_query_mode
    }

    pub fn set_standing_artifact_exempt(&mut self, exempt: bool)
        ensures
            *final(self) == (AppContext {
                role: RootRole { standing_artifact_exempt: exempt, ..old(self).role },
                ..*old(self)
            }),
    {
        self.role.standing_artifact_exempt = exempt;
    }

    /// Whether local edits go into an overlay in memory: the root only reads the shared
    /// artifacts, and overlays are switched on.
    pub fn ram_overlay_active(&self) -> (yes: bool)
        ensures
            yes == (!self.role.callgraph_writer && self.config.worktree.ram_overlay),
    {
        self.shared_artifacts_read_only() && self.config.worktree.ram_overlay
    }

    pub fn artifact_owner_status(&self) -> (owner: Option<ArtifactOwnerMode>)
        ensures
            owner == self.role.artifact_owner,
    {
        self.role.artifact_owner
    }

    pub fn is_worktree_bridge(&self) -> (yes: bool)
        ensures
            yes == self.role.is_worktree_bridge,
    {
        self.role.is_worktree_bridge
    }

    pub fn git_common_dir(&self) -> (dir: Option<String>)
        ensures
            dir == self.role.git_common_dir,
    {
        match &self.role.git_common_dir {
            Some(dir) => Some(dir.clone()),
            None => None,
        }
    }

    /// The part that this process plays, by name.
    pub open spec fn role_name(self) -> Seq<char> {
        if self.role.canonical_cache_root is None {
            "not_initialized"@
        } else if self.role.is_worktree_bridge {
            "worktree"@
        } else if self.role.shared_artifacts_read_only {
            "read_only"@
        } else {
            "main"@
        }
    }

    /// The part that this process plays, by name.
    pub fn cache_role(&self) -> (name: &'static str)
        ensures
            name@ == self.role_name(),
    {
        if self.role.canonical_cache_root.is_none() {
            "not_initialized"
        } else if self.role.is_worktree_bridge {
            "worktree"
        } else if self.role.shared_artifacts_read_only {
            "read_only"
        } else {
            "main"
        }
    }

    // ---- Degraded mode ----

    pub fn set_degraded_reasons(&mut self, reasons: Vec<String>)
        ensures
            *final(self) == (AppContext {
                role: RootRole { degraded_reasons: reasons, ..old(self).role },
                ..*old(self)
            }),
    {
        self.role.degraded_reasons = reasons;
    }

    /// Notes a reason, once, and answers whether it is new.
    pub fn add_degraded_reason(&mut self, reason: String) -> (added: bool)
        ensures
            added == !old(self).role.degraded_reasons.deep_view().contains(reason@),
            final(self).role.degraded_reasons@ == (if added {
                old(self).role.degraded_reasons@.push(reason)
            } else {
                old(self).role.degraded_reasons@
            }),
            *final(self) == (AppContext {
                role: RootRole {
                    degraded_reasons: final(self).role.degraded_reasons,
                    ..old(self).role
                },
                ..*old(self)
            }),
    {
        if text::list_contains(&self.role.degraded_reasons, reason.as_str()) {
            return false;
        }
        self.role.degraded_reasons.push(reason);
        true
    }

    /// The reasons, in the order in which they were noted.
    pub fn degraded_reasons(&self) -> (reasons: Vec<String>)
        ensures
            reasons.deep_view() == self.role.degraded_reasons.deep_view(),
    {
        text::copy_texts(&self.role.degraded_reasons)
    }

    /// Whether any reason is noted.
    pub fn is_degraded(&self) -> (yes: bool)
        ensures
            yes == (self.role.degraded_reasons@.len() > 0),
    {
        self.role.degraded_reasons.len() > 0
    }

    /// Whether the root was found to be the user's home: never a project.
    pub fn is_home_root(&self) -> (yes: bool)
        ensures
            yes == self.role.degraded_reasons.deep_view().contains("home_root"@),
    {
        text::list_contains(&self.role.degraded_reasons, "home_root")
    }

    // ---- Status bar ----

    /// The status values for a reading of the diagnostics store.
    pub fn status_bar_count_values(&mut self, reading: DiagnosticsReading) -> (values:
        StatusBarCountValues)
        ensures
            values == old(self).status_bar.values(reading),
            *final(self) == (AppContext {
                status_bar: old(self).status_bar.after_reading(reading),
                ..*old(self)
            }),
    {
        self.status_bar.count_values(reading)
    }

    /// The numeric form of the status bar for a reading of the diagnostics store.
    pub fn status_bar_counts(&mut self, reading: DiagnosticsReading) -> (counts: Option<
        StatusBarCounts,
    >)
        ensures
            counts == old(self).status_bar.values(reading).projection(),
            *final(self) == (AppContext {
                status_bar: old(self).status_bar.after_reading(reading),
                ..*old(self)
            }),
    {
        self.status_bar_count_values(reading).legacy_projection()
    }

    /// Whether the numeric form differs from the one emitted last.
    pub fn should_emit_status_bar(&mut self, counts: &StatusBarCounts) -> (emit: bool)
        ensures
            emit == (old(self).status_bar.last_emitted.last != Some(*counts)),
            *final(self) == (AppContext {
                status_bar: StatusBarState {
                    last_emitted: crate::status_bar::LegacyStatusBarEmission {
                        last: Some(*counts),
                    },
                    ..old(self).status_bar
                },
                ..*old(self)
            }),
    {
        self.status_bar.last_emitted.should_emit(counts)
    }

    /// Marks the background counts as older than the latest edit and answers whether that is
    /// visible.
    pub fn mark_status_bar_tier2_stale(&mut self) -> (changed: bool)
        ensures
            changed == (old(self).status_bar.tier2.marked_stale() != old(self).status_bar.tier2),
            *final(self) == (AppContext {
                status_bar: StatusBarState {
                    tier2: old(self).status_bar.tier2.marked_stale(),
                    ..old(self).status_bar
                },
                ..*old(self)
            }),
    {
        self.status_bar.tier2.mark_stale()
    }

    /// Takes over the counts of a background scan.
    pub fn update_status_bar_tier2(
        &mut self,
        dead_code: Option<usize>,
        unused_exports: Option<usize>,
        duplicates: Option<usize>,
        todos: Option<usize>,
        stale: bool,
    )
        ensures
            *final(self) == (AppContext {
                status_bar: StatusBarState {
                    tier2: old(self).status_bar.tier2.updated(
                        dead_code,
                        unused_exports,
                        duplicates,
                        todos,
                        stale,
                    ),
                    ..old(self).status_bar
                },
                ..*old(self)
            }),
    {
        self.status_bar.tier2.update(dead_code, unused_exports, duplicates, todos, stale);
    }

    /// Notes whether the last dead-code scan found no callgraph store.
    pub fn set_status_bar_tier2_dead_code_blocked_on_callgraph(&mut self, blocked: bool)
        ensures
            *final(self) == (AppContext {
                status_bar: StatusBarState {
                    tier2: StatusBarTier2 {
                        dead_code_blocked_on_callgraph: blocked,
                        ..old(self).status_bar.tier2
                    },
                    ..old(self).status_bar
                },
                ..*old(self)
            }),
    {
        self.status_bar.tier2.dead_code_blocked_on_callgraph = blocked;
    }

    // ---- Requests that confine paths ----

    /// How many requests with an id confine paths.
    pub open spec fn restricting(self, req_id: Seq<char>) -> Option<usize> {
        text_map::map_get(self.force_restrict_requests.deep_view(), req_id)
    }

    /// Confines paths for a request; each call is undone by one release. Requests that share an
    /// id stay confined until the last of them is released.
    pub fn force_restrict_guard(&mut self, req_id: &str)
        requires
            old(self).restricting(req_id@) matches Some(count) ==> count < usize::MAX,
        ensures
            final(self).force_restrict_requests.deep_view() == text_map::map_put(
                old(self).force_restrict_requests.deep_view(),
                req_id@,
                match old(self).restricting(req_id@) {
                    Some(count) => (count + 1) as usize,
                    None => 1,
                },
            ),
            *final(self) == (AppContext {
                force_restrict_requests: final(self).force_restrict_requests,
                ..*old(self)
            }),
    {
        let count: usize = match self.force_restrict_requests.get(req_id) {
            Some(count) => *count + 1,
            None => 1,
        };
        self.force_restrict_requests.put(req_id.to_owned(), count);
    }

    /// Whether a request confines paths.
    pub fn request_force_restrict(&self, req_id: &str) -> (yes: bool)
        ensures
            yes == self.restricting(req_id@) is Some,
    {
        self.force_restrict_requests.get(req_id).is_some()
    }

    /// Undoes one confinement of a request.
    pub fn release_force_restrict(&mut self, req_id: &str)
        ensures
            final(self).force_restrict_requests.deep_view() == (match old(self).restricting(
                req_id@,
            ) {
                Some(count) => if count > 1 {
                    text_map::map_put(
                        old(self).force_restrict_requests.deep_view(),
                        req_id@,
                        (count - 1) as usize,
                    )
                } else {
                    text_map::map_remove(old(self).force_restrict_requests.deep_view(), req_id@)
                },
                None => old(self).force_restrict_requests.deep_view(),
            }),
            *final(self) == (AppContext {
                force_restrict_requests: final(self).force_restrict_requests,
                ..*old(self)
            }),
    {
        let count: Option<usize> = match self.force_restrict_requests.get(req_id) {
            Some(count) => Some(*count),
            None => None,
        };
        match count {
            Some(count) => {
                if count > 1 {
                    self.force_restrict_requests.put(req_id.to_owned(), count - 1);
                } else {
                    self.force_restrict_requests.remove(req_id);
                }
            },
            None => {},
        }
    }

    // ---- Background scans ----

    /// Whether background scans completed since they were last looked at, without taking note.
    pub fn has_new_reuse_completions(&self, completions: u64) -> (yes: bool)
        ensures
            yes == (completions != self.last_seen_reuse_completions),
    {
        completions != self.last_seen_reuse_completions
    }

    /// Whether background scans completed since they were last looked at.
    pub fn take_new_reuse_completions(&mut self, completions: u64) -> (yes: bool)
        ensures
            yes == (completions != old(self).last_seen_reuse_completions),
            *final(self) == (AppContext {
                last_seen_reuse_completions: completions,
                ..*old(self)
            }),
    {
        let previous = self.last_seen_reuse_completions;
        self.last_seen_reuse_completions = completions;
        completions != previous
    }

    /// The root that the callgraph store is built for: the cache root, or else the configured
    /// root in its canonical form, as far as it has one.
    pub fn callgraph_project_root(&self, canonical_project_root: Option<&str>) -> (root: Option<
        String,
    >)
        ensures
            root.deep_view() == (match (
                self.role.canonical_cache_root.deep_view(),
                self.config.project_root.deep_view(),
            ) {
                (Some(root), _) => Some(root),
                (None, Some(root)) => Some(
                    match canonical_project_root.deep_view() {
                        Some(canonical) => canonical,
                        None => root,
                    },
                ),
                (None, None) => None,
            }),
    {
        match &self.role.canonical_cache_root {
            Some(root) => Some(root.clone()),
            None => match (&self.config.project_root, canonical_project_root) {
                (Some(_), Some(canonical)) => Some(canonical.to_owned()),
                (Some(root), None) => Some(root.clone()),
                (None, _) => None,
            },
        }
    }

    /// Whether a background refresh may be scheduled.
    pub open spec fn tier2_refresh_schedulable(self) -> bool {
        self.role.inspect_writer && self.heavy_work() && self.role.automatic_tier2_refresh
    }

    /// Whether a background refresh may be scheduled.
    pub fn tier2_refresh_allowed(&self) -> (yes: bool)
        ensures
            yes == self.tier2_refresh_schedulable(),
    {
        self.inspect_writer() && self.heavy_root_work_allowed()
            && self.role.automatic_tier2_refresh
    }

    /// What the scheduler of background refreshes is told at each tick.
    pub fn tick_tier2_refresh_scheduler_at(&self, tier2_in_flight: bool) -> (facts: Tier2TickFacts)
        ensures
            facts == (Tier2TickFacts {
                can_write: self.tier2_refresh_schedulable(),
                in_flight: tier2_in_flight,
                semantic_cold_seed_active: self.semantic.seed.active,
            }),
    {
        Tier2TickFacts {
            can_write: self.tier2_refresh_allowed(),
            in_flight: tier2_in_flight,
            semantic_cold_seed_active: self.semantic.seed.active,
        }
    }

    /// Whether a refresh that the scheduler decided on is started: it may be scheduled, scans
    /// are enabled, a harness is configured, and the root was not reconfigured since the
    /// decision.
    pub fn tier2_refresh_starts(&self, decided_generation: u64) -> (yes: bool)
        ensures
            yes == (self.tier2_refresh_schedulable() && self.config.inspect.enabled
                && self.harness is Some && self.lifecycle.admits(decided_generation)),
    {
        self.tier2_refresh_allowed() && self.config.inspect.enabled && self.harness.is_some()
            && self.lifecycle.is_current(decided_generation)
    }

    // ---- Compression and ignore rules ----

    /// Brings the live compression flag in line with the configuration.
    pub fn sync_bash_compress_flag(&mut self)
        ensures
            *final(self) == (AppContext {
                bash_compress: old(self).config.experimental_bash_compress,
                ..*old(self)
            }),
    {
        self.bash_compress = self.config.experimental_bash_compress;
    }

    /// Switches compression on or off, in the configuration and in the live flag.
    pub fn set_bash_compress_enabled(&mut self, enabled: bool)
        ensures
            *final(self) == (AppContext {
                config: compress_switched(old(self).config, enabled),
                bash_compress: enabled,
                ..*old(self)
            }),
    {
        let mut config = Config::default();
        std::mem::swap(&mut config, &mut self.config);
        self.config = with_bash_compress(config, enabled);
        self.bash_compress = enabled;
    }

    /// Notes that the ignore rules were rebuilt or cleared.
    pub fn note_gitignore_changed(&mut self) -> (generation: u64)
        ensures
            generation == lifecycle::next_count(old(self).gitignore_generation),
            *final(self) == (AppContext { gitignore_generation: generation, ..*old(self) }),
    {
        self.gitignore_generation = advance(self.gitignore_generation);
        self.gitignore_generation
    }

    // ---- Keys of shared artifacts ----

    /// The key of a root's artifacts, where it is known.
    pub open spec fn known_key(self, root: Seq<char>) -> Option<Seq<char>> {
        path_map::path_get(
            self.platform,
            self.artifact_cache_keys.deep_view(),
            components(self.platform, root),
        )
    }

    /// The key of a root's artifacts, where it is known.
    pub fn cached_artifact_cache_key(&self, canonical_root: &str) -> (key: Option<String>)
        ensures
            key.deep_view() == self.known_key(canonical_root@),
    {
        match self.artifact_cache_keys.get(self.platform, canonical_root) {
            Some(key) => Some(key.clone()),
            None => None,
        }
    }

    /// The key of a root's artifacts: the known one, or the one that `derived` holds, which is
    /// then remembered. The key need be derived only where
    /// [`AppContext::cached_artifact_cache_key`] has none.
    pub fn memoized_artifact_cache_key(&mut self, canonical_root: &str, derived: String) -> (key:
        String)
        ensures
            key@ == (match old(self).known_key(canonical_root@) {
                Some(known) => known,
                None => derived@,
            }),
            final(self).artifact_cache_keys.deep_view() == (if old(self).known_key(
                canonical_root@,
            ) is Some {
                old(self).artifact_cache_keys.deep_view()
            } else {
                path_map::path_put(
                    old(self).platform,
                    old(self).artifact_cache_keys.deep_view(),
                    canonical_root@,
                    derived@,
                )
            }),
            *final(self) == (AppContext {
                artifact_cache_keys: final(self).artifact_cache_keys,
                artifact_cache_key_derivations: if old(self).known_key(canonical_root@) is Some {
                    old(self).artifact_cache_key_derivations
                } else {
                    lifecycle::next_count(old(self).artifact_cache_key_derivations)
                },
                ..*old(self)
            }),
    {
        if let Some(key) = self.cached_artifact_cache_key(canonical_root) {
            return key;
        }
        self.artifact_cache_key_derivations = advance(self.artifact_cache_key_derivations);
        let platform = self.platform;
        self.artifact_cache_keys.put(platform, canonical_root.to_owned(), derived.clone());
        derived
    }

    /// The keys of the callgraph stores of the configured roots, which
    /// [`crate::runtime::SessionBindings::configured_roots`] gives: for each root the known key,
    /// or the one that `derived` holds in its place, which is then remembered.
    pub fn configured_callgraph_keys(&mut self, roots: &PathSet, derived: &Vec<String>) -> (keys:
        TextSet)
        requires
            roots.well_formed(old(self).platform),
            derived@.len() == roots.deep_view().len(),
        ensures
            forall|key: Seq<char>| #[trigger]
                keys.deep_view().contains(key) <==> exists|i: int|
                    0 <= i < roots.deep_view().len() && key == root_key(
                        old(self).platform,
                        old(self).artifact_cache_keys.deep_view(),
                        #[trigger] roots.deep_view()[i],
                        derived.deep_view()[i],
                    ),
            (
                final(self).artifact_cache_keys.deep_view(),
                final(self).artifact_cache_key_derivations,
            ) == keys_noted(
                old(self).platform,
                old(self).artifact_cache_keys.deep_view(),
                old(self).artifact_cache_key_derivations,
                roots.deep_view(),
                derived.deep_view(),
            ),
            *final(self) == (AppContext {
                artifact_cache_keys: final(self).artifact_cache_keys,
                artifact_cache_key_derivations: final(self).artifact_cache_key_derivations,
                ..*old(self)
            }),
    {
        let platform = self.platform;
        let ghost start = *self;
        let ghost known = self.artifact_cache_keys.deep_view();
        let ghost all = roots.deep_view();
        let ghost found = derived.deep_view();
        let mut keys = TextSet::new();
        let mut i: usize = 0;
        assert(all.take(0) =~= Seq::<Seq<char>>::empty());
        while i < roots.paths.len()
            invariant
                i <= roots.paths@.len(),
                platform == self.platform,
                all == roots.deep_view(),
                found == derived.deep_view(),
                found.len() == all.len(),
                known == start.artifact_cache_keys.deep_view(),
                path_set::is_path_set(platform, all),
                (self.artifact_cache_keys.deep_view(), self.artifact_cache_key_derivations)
                    == keys_noted(
                    platform,
                    known,
                    start.artifact_cache_key_derivations,
                    all.take(i as int),
                    found,
                ),
                *self == (AppContext {
                    artifact_cache_keys: self.artifact_cache_keys,
                    artifact_cache_key_derivations: self.artifact_cache_key_derivations,
                    ..start
                }),
                forall|key: Seq<char>| #[trigger]
                    keys.deep_view().contains(key) <==> exists|k: int|
                        0 <= k < i && key == root_key(
                            platform,
                            known,
                            #[trigger] all[k],
                            found[k],
                        ),
            decreases roots.paths.len() - i,
        {
            let ghost before = keys.deep_view();
            let ghost place = i as int;
            proof {
                assert(all[place] == roots.paths@[place]@);
                assert(found[place] == derived@[place]@);
                assert(all.take(place + 1).drop_last() =~= all.take(place));
                assert(all.take(place + 1).last() == all[place]);
                lemma_noted_keys_before(
                    platform,
                    known,
                    start.artifact_cache_key_derivations,
                    all,
                    found,
                    place,
                    place,
                );
            }
            let key = self.memoized_artifact_cache_key(
                roots.paths[i].as_str(),
                derived[i].clone(),
            );
            let ghost added = key@;
            keys.insert(key);
            proof {
                assert(added == root_key(platform, known, all[place], found[place]));
                assert forall|other: Seq<char>| #[trigger]
                    keys.deep_view().contains(other) <==> exists|k: int|
                        0 <= k < place + 1 && other == root_key(
                            platform,
                            known,
                            #[trigger] all[k],
                            found[k],
                        ) by {
                    if before.contains(other) {
                        let k = choose|k: int|
                            0 <= k < place && other == root_key(
                                platform,
                                known,
                                #[trigger] all[k],
                                found[k],
                            );
                        assert(0 <= k < place + 1 && other == root_key(
                            platform,
                            known,
                            all[k],
                            found[k],
                        ));
                    }
                    if exists|k: int|
                        0 <= k < place + 1 && other == root_key(
                            platform,
                            known,
                            #[trigger] all[k],
                            found[k],
                        ) {
                        let k = choose|k: int|
                            0 <= k < place + 1 && other == root_key(
                                platform,
                                known,
                                #[trigger] all[k],
                                found[k],
                            );
                        if k < place {
                            assert(before.contains(other));
                        }
                    }
                }
            }
            i = i + 1;
        }
        assert(all.take(all.len() as int) =~= all);
        keys
    }

    /// The key that a configure knows: that of the canonical root, else that of the root as it
    /// is spelled.
    pub open spec fn known_configure_key(
        self,
        raw_root: Seq<char>,
        canonical_root: Seq<char>,
    ) -> Option<Seq<char>> {
        match self.known_key(canonical_root) {
            Some(key) => Some(key),
            None => self.known_key(raw_root),
        }
    }

    /// The key that a configure knows.
    pub fn cached_key_for_configure(&self, raw_root: &str, canonical_root: &str) -> (key: Option<
        String,
    >)
        ensures
            key.deep_view() == self.known_configure_key(raw_root@, canonical_root@),
    {
        match self.cached_artifact_cache_key(canonical_root) {
            Some(key) => Some(key),
            None => self.cached_artifact_cache_key(raw_root),
        }
    }

    /// The key of a root's artifacts for a configure: a known one, or the one that `derived`
    /// holds, which is then remembered under both spellings; a failed derivation is handed on
    /// and nothing is remembered.
    pub fn memoized_artifact_cache_key_for_configure<E>(
        &mut self,
        raw_root: &str,
        canonical_root: &str,
        derived: Result<String, E>,
    ) -> (key: Result<String, E>)
        ensures
            match old(self).known_configure_key(raw_root@, canonical_root@) {
                Some(known) => {
                    &&& key matches Ok(key) && key@ == known
                    &&& *final(self) == *old(self)
                },
                None => match derived {
                    Ok(derived) => {
                        &&& key matches Ok(key) && key@ == derived@
                        &&& final(self).artifact_cache_keys.deep_view() == path_map::path_put(
                            old(self).platform,
                            path_map::path_put(
                                old(self).platform,
                                old(self).artifact_cache_keys.deep_view(),
                                canonical_root@,
                                derived@,
                            ),
                            raw_root@,
                            derived@,
                        )
                        &&& *final(self) == (AppContext {
                            artifact_cache_keys: final(self).artifact_cache_keys,
                            artifact_cache_key_derivations: lifecycle::next_count(
                                old(self).artifact_cache_key_derivations,
                            ),
                            ..*old(self)
                        })
                    },
                    Err(error) => {
                        &&& key == Err::<String, E>(error)
                        &&& *final(self) == *old(self)
                    },
                },
            },
    {
        if let Some(key) = self.cached_key_for_configure(raw_root, canonical_root) {
            return Ok(key);
        }
        match derived {
            Ok(key) => {
                self.artifact_cache_key_derivations = advance(self.artifact_cache_key_derivations);
                let platform = self.platform;
                self.artifact_cache_keys.put(platform, canonical_root.to_owned(), key.clone());
                self.artifact_cache_keys.put(platform, raw_root.to_owned(), key.clone());
                Ok(key)
            },
            Err(error) => Err(error),
        }
    }

    // ---- Directories ----

    /// The directory of what belongs to the harness.
    pub fn harness_dir(&self, storage_dir: &str) -> (dir: String)
        requires
            self.harness is Some,
        ensures
            dir@ == path_text::seen_from(self.platform, storage_dir@, self.harness->0.label()),
    {
        join_path(self.platform, storage_dir, self.harness().wire_label().as_str())
    }

    /// The directory of scan results of the root whose scope key is `scope_key`; a root that was
    /// not configured has none of its own.
    pub fn inspect_dir(&self, storage_dir: &str, scope_key: Option<&str>) -> (dir: String)
        ensures
            dir@ == path_text::seen_from(
                self.platform,
                path_text::seen_from(self.platform, storage_dir@, "inspect"@),
                match scope_key {
                    Some(key) => key@,
                    None => "unconfigured"@,
                },
            ),
    {
        let base = join_path(self.platform, storage_dir, "inspect");
        match scope_key {
            Some(key) => join_path(self.platform, base.as_str(), key),
            None => join_path(self.platform, base.as_str(), "unconfigured"),
        }
    }

    /// The directory of the callgraph store whose artifacts have the key `key`; a root that was
    /// not configured has none of its own.
    pub fn callgraph_store_dir(&self, storage_dir: &str, key: Option<&str>) -> (dir: String)
        ensures
            dir@ == path_text::seen_from(
                self.platform,
                path_text::seen_from(self.platform, storage_dir@, "callgraph"@),
                match key {
                    Some(key) => key@,
                    None => "unconfigured"@,
                },
            ),
    {
        let base = join_path(self.platform, storage_dir, "callgraph");
        match key {
            Some(key) => join_path(self.platform, base.as_str(), key),
            None => join_path(self.platform, base.as_str(), "unconfigured"),
        }
    }

    /// The record of build deaths of the artifacts with the key `key`.
    pub fn build_breaker_path(&self, storage_dir: &str, key: &str) -> (path: String)
        ensures
            path@ == path_text::seen_from(
                self.platform,
                path_text::seen_from(
                    self.platform,
                    path_text::seen_from(self.platform, storage_dir@, "callgraph"@),
                    key@,
                ),
                "build-breaker.sqlite"@,
            ),
    {
        let dir = self.callgraph_store_dir(storage_dir, Some(key));
        join_path(self.platform, dir.as_str(), "build-breaker.sqlite")
    }

    /// The directory of a session's background tasks.
    pub fn bash_tasks_dir(&self, storage_dir: &str, session_hash: &str) -> (dir: String)
        requires
            self.harness is Some,
        ensures
            dir@ == path_text::seen_from(
                self.platform,
                path_text::seen_from(
                    self.platform,
                    path_text::seen_from(self.platform, storage_dir@, self.harness->0.label()),
                    "bash-tasks"@,
                ),
                session_hash@,
            ),
    {
        let base = self.harness_dir(storage_dir);
        let tasks = join_path(self.platform, base.as_str(), "bash-tasks");
        join_path(self.platform, tasks.as_str(), session_hash)
    }

    /// The directory of a session's backups of one file.
    pub fn backups_dir(&self, storage_dir: &str, session_hash: &str, path_hash: &str) -> (dir:
        String)
        requires
            self.harness is Some,
        ensures
            dir@ == path_text::seen_from(
                self.platform,
                path_text::seen_from(
                    self.platform,
                    path_text::seen_from(
                        self.platform,
                        path_text::seen_from(self.platform, storage_dir@, self.harness->0.label()),
                        "backups"@,
                    ),
                    session_hash@,
                ),
                path_hash@,
            ),
    {
        let base = self.harness_dir(storage_dir);
        let backups = join_path(self.platform, base.as_str(), "backups");
        let session = join_path(self.platform, backups.as_str(), session_hash);
        join_path(self.platform, session.as_str(), path_hash)
    }

    /// The directory of output filters.
    pub fn filters_dir(&self, storage_dir: &str) -> (dir: String)
        requires
            self.harness is Some,
        ensures
            dir@ == path_text::seen_from(
                self.platform,
                path_text::seen_from(self.platform, storage_dir@, self.harness->0.label()),
                "filters"@,
            ),
    {
        let base = self.harness_dir(storage_dir);
        join_path(self.platform, base.as_str(), "filters")
    }

    /// The file of trusted filter projects, which every harness of the host shares.
    pub fn trust_file(&self, storage_dir: &str) -> (file: String)
        ensures
            file@ == path_text::seen_from(self.platform, storage_dir@, "trusted-filter-projects.json"@),
    {
        join_path(self.platform, storage_dir, "trusted-filter-projects.json")
    }
}

/// The key of a root's artifacts: the known one, or the derived one.
pub open spec fn root_key(
    platform: Platform,
    known: Seq<(Seq<char>, Seq<char>)>,
    root: Seq<char>,
    derived: Seq<char>,
) -> Seq<char> {
    match path_map::path_get(platform, known, components(platform, root)) {
        Some(key) => key,
        None => derived,
    }
}

/// The keys, and how many were derived, once those of some roots were asked for in turn.
pub open spec fn keys_noted(
    platform: Platform,
    known: Seq<(Seq<char>, Seq<char>)>,
    derivations: u64,
    roots: Seq<Seq<char>>,
    derived: Seq<Seq<char>>,
) -> (Seq<(Seq<char>, Seq<char>)>, u64)
    decreases roots.len(),
{
    if roots.len() == 0 {
        (known, derivations)
    } else {
        let (keys, count) = keys_noted(platform, known, derivations, roots.drop_last(), derived);
        let root = roots.last();
        if path_map::path_get(platform, keys, components(platform, root)) is Some {
            (keys, count)
        } else {
            (
                path_map::path_put(platform, keys, root, derived[roots.len() - 1]),
                lifecycle::next_count(count),
            )
        }
    }
}

/// Noting the keys of other roots changes nothing about a root.
proof fn lemma_noted_keys_before(
    platform: Platform,
    known: Seq<(Seq<char>, Seq<char>)>,
    derivations: u64,
    roots: Seq<Seq<char>>,
    derived: Seq<Seq<char>>,
    place: int,
    count: int,
)
    requires
        path_set::is_path_set(platform, roots),
        0 <= count <= place < roots.len(),
    ensures
        ({
            let keys = keys_noted(platform, known, derivations, roots.take(count), derived).0;
            let parts = components(platform, roots[place]);
            path_map::path_get(platform, keys, parts) == path_map::path_get(
                platform,
                known,
                parts,
            )
        }),
    decreases count,
{
    if count > 0 {
        lemma_noted_keys_before(
            platform,
            known,
            derivations,
            roots,
            derived,
            place,
            count - 1,
        );
        let front = roots.take(count);
        assert(front.drop_last() =~= roots.take(count - 1));
        assert(front.last() == roots[count - 1]);
        assert(!path_text::same_path(platform, roots[count - 1], roots[place]));
        let keys = keys_noted(platform, known, derivations, roots.take(count - 1), derived).0;
        path_map::law_put_then_get(
            platform,
            keys,
            roots[count - 1],
            derived[count - 1],
            components(platform, roots[place]),
        );
    }
}

/// Confining a request and releasing it once leaves the request as it was, for every id.
pub proof fn law_release_undoes_guard(
    requests: Seq<(Seq<char>, usize)>,
    req_id: Seq<char>,
    query: Seq<char>,
)
    requires
        text_map::map_get(requests, req_id) matches Some(count) ==> 1 <= count < usize::MAX,
    ensures
        ({
            let before = text_map::map_get(requests, req_id);
            let guarded = text_map::map_put(
                requests,
                req_id,
                match before {
                    Some(count) => (count + 1) as usize,
                    None => 1usize,
                },
            );
            let count = text_map::map_get(guarded, req_id)->0;
            let released = if count > 1 {
                text_map::map_put(guarded, req_id, (count - 1) as usize)
            } else {
                text_map::map_remove(guarded, req_id)
            };
            &&& text_map::map_get(guarded, req_id) is Some
            &&& text_map::map_get(released, query) == text_map::map_get(requests, query)
        }),
{
    let guarded_count = match text_map::map_get(requests, req_id) {
        Some(count) => (count + 1) as usize,
        None => 1usize,
    };
    let guarded = text_map::map_put(requests, req_id, guarded_count);
    text_map::law_put_then_get(requests, req_id, guarded_count, req_id);
    text_map::law_put_then_get(requests, req_id, guarded_count, query);
    if guarded_count > 1 {
        text_map::law_put_then_get(guarded, req_id, (guarded_count - 1) as usize, query);
    } else {
        text_map::law_remove_then_get(guarded, req_id, query);
    }
}

/// Heavy work runs exactly where it is switched on and a route consumes it; a background refresh
/// besides only where this process writes scans and may refresh by itself.
pub proof fn law_heavy_work_needs_switch_and_route(context: AppContext)
    ensures
        context.heavy_work() <==> context.role.heavy_root_work && !context.lifecycle.unbound,
        context.tier2_refresh_schedulable() <==> context.role.heavy_root_work
            && !context.lifecycle.unbound && context.role.inspect_writer
            && context.role.automatic_tier2_refresh,
{
}

/// A root plays no part before its cache root is known; then a linked worktree is one, whatever
/// else it is, and of the others those that only read say so.
pub proof fn law_role_is_named(context: AppContext)
    ensures
        context.role.canonical_cache_root is None ==> context.role_name() == "not_initialized"@,
        context.role.canonical_cache_root is Some ==> {
            &&& context.role.is_worktree_bridge ==> context.role_name() == "worktree"@
            &&& !context.role.is_worktree_bridge && context.role.shared_artifacts_read_only
                ==> context.role_name() == "read_only"@
            &&& !context.role.is_worktree_bridge && !context.role.shared_artifacts_read_only
                ==> context.role_name() == "main"@
        },
{
}

/// A configuration is the one in force exactly where its key is, letter for letter.
pub proof fn law_warm_key_is_matched_exactly(context: AppContext, key: Seq<char>)
    ensures
        context.has_warm_key(key) <==> (context.configure.warm_key matches Some(own) && own@ == key),
{
}

/// A key that is known for a root counts, under any spelling of it; of two roots, the canonical one
/// is asked first. Only where none is known does the derived one count.
pub proof fn law_known_key_counts_before_a_derived_one(
    context: AppContext,
    raw_root: Seq<char>,
    canonical_root: Seq<char>,
    platform: Platform,
    known: Seq<(Seq<char>, Seq<char>)>,
    root: Seq<char>,
    spelled: Seq<char>,
    key: Seq<char>,
    derived: Seq<char>,
)
    ensures
        context.known_key(canonical_root) is Some ==> context.known_configure_key(
            raw_root,
            canonical_root,
        ) == context.known_key(canonical_root),
        context.known_key(canonical_root) is None ==> context.known_configure_key(
            raw_root,
            canonical_root,
        ) == context.known_key(raw_root),
        path_text::same_path(platform, root, spelled) ==> root_key(
            platform,
            path_map::path_put(platform, known, root, key),
            spelled,
            derived,
        ) == key,
        root_key(platform, Seq::<(Seq<char>, Seq<char>)>::empty(), root, derived) == derived,
{
    path_map::law_put_then_get(platform, known, root, key, components(platform, spelled));
}

/// Asking for the key of one more root derives it exactly where it is not known yet, counts that,
/// and from then on knows it; the keys that were known stay.
pub proof fn law_keys_are_derived_once(
    platform: Platform,
    known: Seq<(Seq<char>, Seq<char>)>,
    derivations: u64,
    roots: Seq<Seq<char>>,
    derived: Seq<Seq<char>>,
    root: Seq<char>,
    query: Seq<char>,
)
    ensures
        ({
            let (keys, count) = keys_noted(platform, known, derivations, roots, derived);
            let (more, after) = keys_noted(platform, known, derivations, roots.push(root), derived);
            let parts = components(platform, root);
            let fresh = path_map::path_get(platform, keys, parts) is None;
            let asked = components(platform, query);
            &&& !fresh ==> more == keys && after == count
            &&& fresh ==> after == lifecycle::next_count(count)
            &&& fresh ==> path_map::path_get(platform, more, parts) == Some(
                derived[roots.len() as int],
            )
            &&& asked != parts ==> path_map::path_get(platform, more, asked) == path_map::path_get(
                platform,
                keys,
                asked,
            )
        }),
{
    assert(roots.push(root).drop_last() =~= roots);
    let keys = keys_noted(platform, known, derivations, roots, derived).0;
    let key = derived[roots.len() as int];
    path_map::law_put_then_get(platform, keys, root, key, components(platform, root));
    path_map::law_put_then_get(platform, keys, root, key, components(platform, query));
}

/// A root that was just configured has nothing resident, nothing on its way and nothing pending; it
/// may do all work on its own account, and nothing has been counted.
pub proof fn law_new_root_is_idle(
    role: RootRole,
    semantic: SemanticSlots,
    pending: PendingReconciliationState,
    path: Seq<char>,
    platform: Platform,
)
    ensures
        fresh_callgraph().resident is None && fresh_search().resident is None,
        !fresh_callgraph().receiver.present && !fresh_search().receiver.present,
        fresh_callgraph().denied is None && fresh_callgraph().suspension is None,
        fresh_callgraph().force_requested == fresh_callgraph().force_fulfilled,
        fresh_callgraph().cold_builds_spawned == 0,
        !fresh_callgraph().migration_summary_logged,
        fresh_callgraph().persist_epoch == 0 && fresh_search().persist_epoch == 0,
        fresh_search().terminal_epoch == 0 && fresh_search().reschedules == 0,
        fresh_search().reschedule_generation == 0,
        fresh_role(role) ==> {
            &&& role.callgraph_writer && role.inspect_writer
            &&& role.heavy_root_work && role.automatic_tier2_refresh
            &&& !role.is_worktree_bridge && !role.shared_artifacts_read_only
            &&& !role.daemonless_query_mode && !role.standing_artifact_exempt
            &&& role.degraded_reasons@.len() == 0
            &&& role.canonical_cache_root is None && role.git_common_dir is None
            &&& role.artifact_owner is None
        },
        fresh_semantic(semantic) ==> {
            &&& !semantic.resident && semantic.status is Disabled && semantic.progress is None
            &&& !semantic.receiver.present && !semantic.refresh.sender && !semantic.refresh.worker
            &&& !semantic.refresh.receiver.present
            &&& !semantic.seed.active && !semantic.seed.callgraph_warm_deferred
            &&& !semantic.circuit.open && !semantic.circuit.probe_in_flight
            &&& !semantic.circuit.probe_ready
            &&& semantic.circuit.consecutive_transient_failures == 0
            &&& semantic.retry_attempts.deep_view().len() == 0
        },
        nothing_pending(pending) ==> {
            &&& !path_set::has_path(platform, pending.search.deep_view(), path)
            &&& !path_set::has_path(platform, pending.callgraph.deep_view(), path)
            &&& !path_set::has_path(platform, pending.tier2.deep_view(), path)
            &&& !path_set::has_path(platform, pending.semantic.deep_view(), path)
            &&& !pending.corpus_refresh
        },
{
}

/// Switching the compression of output changes nothing else, and switching it back undoes it.
pub proof fn law_compression_is_switched_alone(config: Config, enabled: bool)
    ensures
        compress_switched(config, enabled).experimental_bash_compress == enabled,
        compress_switched(compress_switched(config, enabled), config.experimental_bash_compress)
            == config,
{
    reveal(compress_switched);
}

} // verus!
