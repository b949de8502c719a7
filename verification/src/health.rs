//! Health of a root: a summary that is made without waiting for anything.

use vstd::prelude::*;
use vstd::string::*;

use crate::context::AppContext;
use crate::semantic_status::{SemanticBuildProgressSnapshot, SemanticIndexStatus};
use crate::text;

verus! {

/// Whether a root could be looked at.
#[derive(Debug, Clone, Copy, PartialEq, Eq, Structural)]
pub enum RootHealthState {
    Ready,
    Busy,
}

/// The state of one component.
#[derive(Debug, Clone, Copy, PartialEq, Eq)]
pub struct HealthComponentSnapshot {
    pub status: &'static str,
}

/// The state of the semantic index, with the progress of a build.
#[derive(Debug, PartialEq, Eq)]
pub struct SemanticHealthComponentSnapshot {
    pub status: &'static str,
    pub stage: Option<String>,
    pub embedded_chunks: Option<usize>,
    pub total_chunks: Option<usize>,
    pub current_batch: Option<usize>,
    pub total_batches: Option<usize>,
}

/// The state of background scans.
#[derive(Debug, Clone, Copy, PartialEq, Eq)]
pub struct Tier2HealthSnapshot {
    pub status: &'static str,
}

/// A domain whose builds are suspended.
#[derive(Debug, PartialEq, Eq)]
pub struct SuspendedDomainHealthSnapshot {
    pub domain: String,
    pub reason: String,
    pub death_count: u64,
    pub age_s: u64,
}

/// The health of a root as it is reported; `Bash` is the count of background tasks.
#[derive(Debug, PartialEq, Eq)]
pub struct RootHealthSnapshot<Bash> {
    pub project_root: String,
    pub actor_count: usize,
    pub state: RootHealthState,
    pub search_index: Option<HealthComponentSnapshot>,
    pub semantic_index: Option<SemanticHealthComponentSnapshot>,
    pub callgraph_store: Option<HealthComponentSnapshot>,
    pub callgraph_repair_entries_60s: Option<u64>,
    pub callgraph_commits_60s: Option<u64>,
    pub callgraph_pages_or_bytes_written_60s: Option<u64>,
    pub tier2: Option<Tier2HealthSnapshot>,
    pub bash: Option<Bash>,
    pub suspended_domains: Vec<SuspendedDomainHealthSnapshot>,
}

/// The health of a root.
#[derive(Debug, PartialEq, Eq)]
pub struct RootHealthSummary<Bash> {
    pub state: RootHealthState,
    pub search_index_status: Option<&'static str>,
    pub semantic_index: Option<SemanticHealthComponentSnapshot>,
    pub callgraph_store_status: Option<&'static str>,
    pub tier2_status: Option<&'static str>,
    pub bash: Option<Bash>,
    pub suspended_domains: Vec<SuspendedDomainHealthSnapshot>,
}

/// Writes to the callgraph store within the last minute.
#[derive(Debug, Clone, Copy, PartialEq, Eq, Structural)]
pub struct CallgraphWriteMetrics {
    pub commits_60s: u64,
    pub pages_or_bytes_written_60s: u64,
}

/// Which parts of the context could be read without waiting.
#[derive(Debug, Clone, Copy, PartialEq, Eq, Structural)]
pub struct ReadableParts {
    pub config: bool,
    pub search_index: bool,
    pub search_receiver: bool,
    pub semantic_status: bool,
    pub semantic_progress: bool,
    pub callgraph_store: bool,
    pub callgraph_receiver: bool,
    pub tier2: bool,
}

impl ReadableParts {
    /// Every part could be read.
    pub open spec fn all(self) -> bool {
        &&& self.config
        &&& self.search_index
        &&& self.search_receiver
        &&& self.semantic_status
        &&& self.semantic_progress
        &&& self.callgraph_store
        &&& self.callgraph_receiver
        &&& self.tier2
    }
}

/// What the application learned without waiting; `None` is a part that was busy.
#[derive(Debug)]
pub struct HealthProbes<Bash> {
    /// Whether a route consumes the root's work.
    pub bound: Option<bool>,
    pub readable: ReadableParts,
    /// Whether a background rebuild is registered.
    pub tier2_builder_busy: Option<bool>,
    pub bash: Option<Bash>,
    pub suspended_domains: Option<Vec<SuspendedDomainHealthSnapshot>>,
}

/// A component that a caller need not wait for.
pub open spec fn satisfied(status: &'static str) -> bool {
    status@ == "ready"@ || status@ == "disabled"@
}

fn is_satisfied(status: &'static str) -> (yes: bool)
    ensures
        yes == satisfied(status),
{
    text::same_text(status, "ready") || text::same_text(status, "disabled")
}

/// Whether anything was busy when the root was looked at.
pub open spec fn any_busy<Bash>(context: AppContext, probes: HealthProbes<Bash>) -> bool {
    ||| context.role.heavy_root_work && probes.bound is None
    ||| !probes.readable.all()
    ||| probes.tier2_builder_busy is None
    ||| probes.bash is None
    ||| probes.suspended_domains is None
}

/// Whether heavy work may run, by what was learned of the route.
pub open spec fn heavy_work_seen<Bash>(context: AppContext, probes: HealthProbes<Bash>) -> bool {
    context.role.heavy_root_work && probes.bound == Some(true)
}

/// The state of the search index. A root that borrows the shared index never builds its own.
pub open spec fn search_status(context: AppContext) -> &'static str {
    if (context.search.resident matches Some(index) && (index.ready || index.build_denied)) || (
    context.role.shared_artifacts_read_only && context.config.search_index) {
        "ready"
    } else if context.config.search_index || context.search.resident is Some
        || context.search.receiver.present {
        "building"
    } else {
        "disabled"
    }
}

/// The state of the semantic index, with its stage and progress while it is being built.
pub open spec fn semantic_health(context: AppContext) -> SemanticHealthComponentSnapshot {
    match context.semantic.status {
        SemanticIndexStatus::Building { stage, .. } => {
            let progress = match context.semantic.progress {
                Some(progress) => Some(progress.counters()),
                None => None,
            };
            SemanticHealthComponentSnapshot {
                status: "building",
                stage: Some(stage),
                embedded_chunks: match progress {
                    Some(progress) => Some(progress.embedded_chunks),
                    None => None,
                },
                total_chunks: match progress {
                    Some(progress) => Some(progress.total_chunks),
                    None => None,
                },
                current_batch: match progress {
                    Some(progress) => Some(progress.current_batch),
                    None => None,
                },
                total_batches: match progress {
                    Some(progress) => Some(progress.total_batches),
                    None => None,
                },
            }
        },
        SemanticIndexStatus::Ready { .. } => bare_semantic_health("ready"),
        SemanticIndexStatus::Disabled => bare_semantic_health("disabled"),
        SemanticIndexStatus::Failed(_) => bare_semantic_health("degraded"),
    }
}

/// The state of a semantic index that is not being built.
pub open spec fn bare_semantic_health(status: &'static str) -> SemanticHealthComponentSnapshot {
    SemanticHealthComponentSnapshot {
        status,
        stage: None,
        embedded_chunks: None,
        total_chunks: None,
        current_batch: None,
        total_batches: None,
    }
}

/// The state of the callgraph store. A read-only root reads the shared store on demand.
pub open spec fn callgraph_status(context: AppContext, heavy_work: bool) -> &'static str {
    if !heavy_work {
        "disabled"
    } else if context.callgraph.resident is Some {
        "ready"
    } else if !context.role.callgraph_writer && context.config.callgraph_store {
        "ready"
    } else if context.callgraph.receiver.present || context.config.callgraph_store {
        "building"
    } else {
        "disabled"
    }
}

/// Whether every background category has a value. Dead code that waits for the callgraph store
/// does not count: nothing recomputes it until there is a store.
pub open spec fn tier2_complete(context: AppContext) -> bool {
    let tier2 = context.status_bar.tier2;
    &&& tier2.dead_code is Some || tier2.dead_code_blocked_on_callgraph
    &&& tier2.unused_exports is Some
    &&& tier2.duplicates is Some
    &&& !tier2.stale
}

/// Whether this root may not run the refresh that would complete its scans.
pub open spec fn tier2_refresh_gated(context: AppContext, heavy_work: bool) -> bool {
    ||| context.role.shared_artifacts_read_only
    ||| !heavy_work
    ||| !context.role.inspect_writer
    ||| !context.role.automatic_tier2_refresh
}

/// The state of background scans. A rebuild that is registered counts before anything else; a
/// partial result is being built only where this root may complete it.
pub open spec fn tier2_status(context: AppContext, heavy_work: bool, builder_busy: bool) -> &'static str {
    let tier2 = context.status_bar.tier2;
    let has_aggregates = tier2.dead_code is Some || tier2.unused_exports is Some
        || tier2.duplicates is Some;
    if builder_busy {
        "building"
    } else if tier2_complete(context) {
        "ready"
    } else if !context.config.inspect.enabled || !has_aggregates || tier2_refresh_gated(
        context,
        heavy_work,
    ) {
        "disabled"
    } else {
        "building"
    }
}

impl<Bash> RootHealthSummary<Bash> {
    /// Nothing is known: something was busy.
    pub open spec fn is_empty_busy(self) -> bool {
        &&& self.state == RootHealthState::Busy
        &&& self.search_index_status is None
        &&& self.semantic_index is None
        &&& self.callgraph_store_status is None
        &&& self.tier2_status is None
        &&& self.bash is None
        &&& self.suspended_domains@.len() == 0
    }

    /// Every component is ready or switched off.
    pub open spec fn ready(self) -> bool {
        &&& self.state == RootHealthState::Ready
        &&& self.search_index_status matches Some(status) && satisfied(status)
        &&& self.semantic_index matches Some(semantic) && satisfied(semantic.status)
        &&& self.callgraph_store_status matches Some(status) && satisfied(status)
        &&& self.tier2_status matches Some(status) && satisfied(status)
    }

    /// The summary of a root at which something was busy.
    pub fn busy() -> (summary: Self)
        ensures
            summary.is_empty_busy(),
    {
        RootHealthSummary {
            state: RootHealthState::Busy,
            search_index_status: None,
            semantic_index: None,
            callgraph_store_status: None,
            tier2_status: None,
            bash: None,
            suspended_domains: Vec::new(),
        }
    }

    /// Whether something was busy.
    pub fn is_busy(&self) -> (yes: bool)
        ensures
            yes == (self.state == RootHealthState::Busy),
    {
        match self.state {
            RootHealthState::Busy => true,
            RootHealthState::Ready => false,
        }
    }

    /// Whether every component is ready or switched off.
    pub fn is_fully_ready(&self) -> (yes: bool)
        ensures
            yes == self.ready(),
    {
        if self.is_busy() {
            return false;
        }
        let search = match self.search_index_status {
            Some(status) => is_satisfied(status),
            None => false,
        };
        let semantic = match &self.semantic_index {
            Some(semantic) => is_satisfied(semantic.status),
            None => false,
        };
        let callgraph = match self.callgraph_store_status {
            Some(status) => is_satisfied(status),
            None => false,
        };
        let tier2 = match self.tier2_status {
            Some(status) => is_satisfied(status),
            None => false,
        };
        search && semantic && callgraph && tier2
    }

    /// The report on a root: what is known of a busy root is not reported, and writes to the
    /// callgraph store only where there were any.
    pub fn into_snapshot(self, project_root: String, metrics: Option<CallgraphWriteMetrics>) -> (snapshot:
        RootHealthSnapshot<Bash>)
        ensures
            self.state == RootHealthState::Busy ==> snapshot.is_empty_busy(project_root),
            self.state == RootHealthState::Ready ==> snapshot == (RootHealthSnapshot {
                project_root,
                actor_count: 1,
                state: RootHealthState::Ready,
                search_index: component(self.search_index_status),
                semantic_index: self.semantic_index,
                callgraph_store: component(self.callgraph_store_status),
                callgraph_repair_entries_60s: None,
                callgraph_commits_60s: if wrote(metrics) {
                    Some(metrics->0.commits_60s)
                } else {
                    None
                },
                callgraph_pages_or_bytes_written_60s: if wrote(metrics) {
                    Some(metrics->0.pages_or_bytes_written_60s)
                } else {
                    None
                },
                tier2: match self.tier2_status {
                    Some(status) => Some(Tier2HealthSnapshot { status }),
                    None => None,
                },
                bash: self.bash,
                suspended_domains: self.suspended_domains,
            }),
    {
        if self.is_busy() {
            return RootHealthSnapshot::busy(project_root);
        }
        let (commits, written): (Option<u64>, Option<u64>) = match metrics {
            Some(metrics) => {
                if metrics.commits_60s > 0 || metrics.pages_or_bytes_written_60s > 0 {
                    (Some(metrics.commits_60s), Some(metrics.pages_or_bytes_written_60s))
                } else {
                    (None, None)
                }
            },
            None => (None, None),
        };
        let search_index = match self.search_index_status {
            Some(status) => Some(HealthComponentSnapshot { status }),
            None => None,
        };
        let callgraph_store = match self.callgraph_store_status {
            Some(status) => Some(HealthComponentSnapshot { status }),
            None => None,
        };
        let tier2 = match self.tier2_status {
            Some(status) => Some(Tier2HealthSnapshot { status }),
            None => None,
        };
        RootHealthSnapshot {
            project_root,
            actor_count: 1,
            state: self.state,
            search_index,
            semantic_index: self.semantic_index,
            callgraph_store,
            callgraph_repair_entries_60s: None,
            callgraph_commits_60s: commits,
            callgraph_pages_or_bytes_written_60s: written,
            tier2,
            bash: self.bash,
            suspended_domains: self.suspended_domains,
        }
    }
}

/// The report on a component.
pub open spec fn component(status: Option<&'static str>) -> Option<HealthComponentSnapshot> {
    match status {
        Some(status) => Some(HealthComponentSnapshot { status }),
        None => None,
    }
}

/// Whether anything was written.
pub open spec fn wrote(metrics: Option<CallgraphWriteMetrics>) -> bool {
    metrics matches Some(metrics) && (metrics.commits_60s > 0 || metrics.pages_or_bytes_written_60s
        > 0)
}

impl<Bash> RootHealthSnapshot<Bash> {
    /// Nothing is reported but that something was busy.
    pub open spec fn is_empty_busy(self, project_root: String) -> bool {
        &&& self.project_root == project_root
        &&& self.actor_count == 1
        &&& self.state == RootHealthState::Busy
        &&& self.search_index is None
        &&& self.semantic_index is None
        &&& self.callgraph_store is None
        &&& self.callgraph_repair_entries_60s is None
        &&& self.callgraph_commits_60s is None
        &&& self.callgraph_pages_or_bytes_written_60s is None
        &&& self.tier2 is None
        &&& self.bash is None
        &&& self.suspended_domains@.len() == 0
    }

    /// Every component is reported as ready or switched off.
    pub open spec fn ready(self) -> bool {
        &&& self.state == RootHealthState::Ready
        &&& self.search_index matches Some(component) && satisfied(component.status)
        &&& self.semantic_index matches Some(semantic) && satisfied(semantic.status)
        &&& self.callgraph_store matches Some(component) && satisfied(component.status)
        &&& self.tier2 matches Some(tier2) && satisfied(tier2.status)
    }

    /// The report on a root at which something was busy.
    pub fn busy(project_root: String) -> (snapshot: Self)
        ensures
            snapshot.is_empty_busy(project_root),
    {
        RootHealthSnapshot {
            project_root,
            actor_count: 1,
            state: RootHealthState::Busy,
            search_index: None,
            semantic_index: None,
            callgraph_store: None,
            callgraph_repair_entries_60s: None,
            callgraph_commits_60s: None,
            callgraph_pages_or_bytes_written_60s: None,
            tier2: None,
            bash: None,
            suspended_domains: Vec::new(),
        }
    }

    /// Whether every component is reported as ready or switched off.
    pub fn is_fully_ready(&self) -> (yes: bool)
        ensures
            yes == self.ready(),
    {
        let state = match self.state {
            RootHealthState::Ready => true,
            RootHealthState::Busy => false,
        };
        let search = match &self.search_index {
            Some(component) => is_satisfied(component.status),
            None => false,
        };
        let semantic = match &self.semantic_index {
            Some(semantic) => is_satisfied(semantic.status),
            None => false,
        };
        let callgraph = match &self.callgraph_store {
            Some(component) => is_satisfied(component.status),
            None => false,
        };
        let tier2 = match &self.tier2 {
            Some(tier2) => is_satisfied(tier2.status),
            None => false,
        };
        state && search && semantic && callgraph && tier2
    }
}

impl AppContext {
    fn semantic_component(&self) -> (component: SemanticHealthComponentSnapshot)
        ensures
            component == semantic_health(*self),
    {
        let status = match &self.semantic.status {
            SemanticIndexStatus::Building { stage, .. } => {
                let progress: Option<SemanticBuildProgressSnapshot> = match &self.semantic.progress {
                    Some(progress) => Some(progress.snapshot()),
                    None => None,
                };
                let (embedded, total, batch, batches) = match progress {
                    Some(progress) => (
                        Some(progress.embedded_chunks),
                        Some(progress.total_chunks),
                        Some(progress.current_batch),
                        Some(progress.total_batches),
                    ),
                    None => (None, None, None, None),
                };
                return SemanticHealthComponentSnapshot {
                    status: "building",
                    stage: Some(stage.clone()),
                    embedded_chunks: embedded,
                    total_chunks: total,
                    current_batch: batch,
                    total_batches: batches,
                };
            },
            SemanticIndexStatus::Ready { .. } => "ready",
            SemanticIndexStatus::Disabled => "disabled",
            SemanticIndexStatus::Failed(_) => "degraded",
        };
        SemanticHealthComponentSnapshot {
            status,
            stage: None,
            embedded_chunks: None,
            total_chunks: None,
            current_batch: None,
            total_batches: None,
        }
    }

    fn search_component(&self) -> (status: &'static str)
        ensures
            status == search_status(*self),
    {
        let usable = match self.search.resident {
            Some(index) => index.ready || index.build_denied,
            None => false,
        };
        if usable || (self.role.shared_artifacts_read_only && self.config.search_index) {
            "ready"
        } else if self.config.search_index || self.search.resident.is_some()
            || self.search.receiver.present {
            "building"
        } else {
            "disabled"
        }
    }

    fn callgraph_component(&self, heavy_work: bool) -> (status: &'static str)
        ensures
            status == callgraph_status(*self, heavy_work),
    {
        if !heavy_work {
            "disabled"
        } else if self.callgraph.resident.is_some() {
            "ready"
        } else if !self.role.callgraph_writer && self.config.callgraph_store {
            "ready"
        } else if self.callgraph.receiver.present || self.config.callgraph_store {
            "building"
        } else {
            "disabled"
        }
    }

    fn tier2_component(&self, heavy_work: bool, builder_busy: bool) -> (status: &'static str)
        ensures
            status == tier2_status(*self, heavy_work, builder_busy),
    {
        let tier2 = self.status_bar.tier2;
        let complete = (tier2.dead_code.is_some() || tier2.dead_code_blocked_on_callgraph)
            && tier2.unused_exports.is_some() && tier2.duplicates.is_some() && !tier2.stale;
        let has_aggregates = tier2.dead_code.is_some() || tier2.unused_exports.is_some()
            || tier2.duplicates.is_some();
        let gated = self.role.shared_artifacts_read_only || !heavy_work
            || !self.role.inspect_writer || !self.role.automatic_tier2_refresh;
        if builder_busy {
            "building"
        } else if complete {
            "ready"
        } else if !self.config.inspect.enabled || !has_aggregates || gated {
            "disabled"
        } else {
            "building"
        }
    }

    /// The health of the root, by what could be learned without waiting. Where anything was
    /// busy, nothing is said of any component.
    pub fn try_health_summary<Bash>(&self, probes: HealthProbes<Bash>) -> (summary:
        RootHealthSummary<Bash>)
        ensures
            any_busy(*self, probes) ==> summary.is_empty_busy(),
            !any_busy(*self, probes) ==> summary == (RootHealthSummary {
                state: RootHealthState::Ready,
                search_index_status: Some(search_status(*self)),
                semantic_index: Some(semantic_health(*self)),
                callgraph_store_status: Some(
                    callgraph_status(*self, heavy_work_seen(*self, probes)),
                ),
                tier2_status: Some(
                    tier2_status(
                        *self,
                        heavy_work_seen(*self, probes),
                        probes.tier2_builder_busy->0,
                    ),
                ),
                bash: probes.bash,
                suspended_domains: probes.suspended_domains->0,
            }),
    {
        let heavy_work = match self.try_heavy_root_work_allowed(probes.bound) {
            Some(allowed) => allowed,
            None => {
                return RootHealthSummary::busy();
            },
        };
        let parts = probes.readable;
        if !parts.config || !parts.search_index || !parts.search_receiver || !parts.semantic_status
            || !parts.semantic_progress || !parts.callgraph_store || !parts.callgraph_receiver
            || !parts.tier2 {
            return RootHealthSummary::busy();
        }
        let builder_busy = match probes.tier2_builder_busy {
            Some(busy) => busy,
            None => {
                return RootHealthSummary::busy();
            },
        };
        let bash = match probes.bash {
            Some(bash) => bash,
            None => {
                return RootHealthSummary::busy();
            },
        };
        let suspended_domains = match probes.suspended_domains {
            Some(domains) => domains,
            None => {
                return RootHealthSummary::busy();
            },
        };
        RootHealthSummary {
            state: RootHealthState::Ready,
            search_index_status: Some(self.search_component()),
            semantic_index: Some(self.semantic_component()),
            callgraph_store_status: Some(self.callgraph_component(heavy_work)),
            tier2_status: Some(self.tier2_component(heavy_work, builder_busy)),
            bash: Some(bash),
            suspended_domains,
        }
    }

    /// The report on the root, by what could be learned without waiting.
    pub fn try_health_snapshot<Bash>(
        &self,
        probes: HealthProbes<Bash>,
        project_root: String,
        metrics: Option<CallgraphWriteMetrics>,
    ) -> (snapshot: RootHealthSnapshot<Bash>)
        ensures
            any_busy(*self, probes) ==> snapshot.is_empty_busy(project_root),
            !any_busy(*self, probes) ==> {
                &&& snapshot.state == RootHealthState::Ready
                &&& snapshot.project_root == project_root
                &&& snapshot.search_index == component(Some(search_status(*self)))
                &&& snapshot.semantic_index == Some(semantic_health(*self))
                &&& snapshot.callgraph_store == component(
                    Some(callgraph_status(*self, heavy_work_seen(*self, probes))),
                )
                &&& snapshot.tier2 == Some(
                    Tier2HealthSnapshot {
                        status: tier2_status(
                            *self,
                            heavy_work_seen(*self, probes),
                            probes.tier2_builder_busy->0,
                        ),
                    },
                )
                &&& snapshot.bash == probes.bash
                &&& snapshot.suspended_domains == probes.suspended_domains->0
                &&& snapshot.callgraph_commits_60s == (if wrote(metrics) {
                    Some(metrics->0.commits_60s)
                } else {
                    None
                })
                &&& snapshot.callgraph_pages_or_bytes_written_60s == (if wrote(metrics) {
                    Some(metrics->0.pages_or_bytes_written_60s)
                } else {
                    None
                })
            },
    {
        self.try_health_summary(probes).into_snapshot(project_root, metrics)
    }
}

/// A root at which something was busy is not ready.
pub proof fn law_busy_root_is_not_ready<Bash>(
    summary: RootHealthSummary<Bash>,
    snapshot: RootHealthSnapshot<Bash>,
    project_root: String,
)
    ensures
        summary.is_empty_busy() ==> !summary.ready(),
        snapshot.is_empty_busy(project_root) ==> !snapshot.ready(),
{
}

/// A report says that the root is ready exactly where the summary does.
pub proof fn law_report_agrees_with_summary<Bash>(
    summary: RootHealthSummary<Bash>,
    snapshot: RootHealthSnapshot<Bash>,
)
    requires
        snapshot.state == summary.state,
        snapshot.search_index == component(summary.search_index_status),
        snapshot.semantic_index == summary.semantic_index,
        snapshot.callgraph_store == component(summary.callgraph_store_status),
        snapshot.tier2 == (match summary.tier2_status {
            Some(status) => Some(Tier2HealthSnapshot { status }),
            None => None,
        }),
    ensures
        snapshot.ready() <==> summary.ready(),
{
}

/// A root that borrows the shared artifacts is never reported as building what it never builds.
pub proof fn law_borrowing_root_builds_nothing(
    context: AppContext,
    heavy_work: bool,
)
    requires
        context.role.shared_artifacts_read_only,
        !context.role.callgraph_writer,
        context.config.search_index,
        context.config.callgraph_store,
    ensures
        search_status(context)@ == "ready"@,
        callgraph_status(context, heavy_work)@ != "building"@,
        tier2_status(context, heavy_work, false)@ != "building"@,
{
    reveal_strlit("ready");
    reveal_strlit("disabled");
    reveal_strlit("building");
    assert("building"@[0] == 'b');
    assert("disabled"@[0] == 'd');
    assert("ready"@[0] == 'r');
}

/// A registered rebuild keeps the root from being ready, whatever was published before.
pub proof fn law_registered_rebuild_is_building(context: AppContext, heavy_work: bool)
    ensures
        tier2_status(context, heavy_work, true)@ == "building"@,
        !satisfied(tier2_status(context, heavy_work, true)),
{
    reveal_strlit("ready");
    reveal_strlit("disabled");
    reveal_strlit("building");
    assert("building"@[0] == 'b');
    assert("disabled"@[0] == 'd');
    assert("ready"@[0] == 'r');
}

/// The words for the state of a component differ, and a caller need wait for none that is ready
/// or switched off, but for every other.
pub proof fn law_only_ready_and_disabled_satisfy()
    ensures
        satisfied("ready"),
        satisfied("disabled"),
        !satisfied("building"),
        !satisfied("degraded"),
        "ready"@ != "building"@,
        "ready"@ != "disabled"@,
        "ready"@ != "degraded"@,
        "building"@ != "disabled"@,
        "building"@ != "degraded"@,
        "disabled"@ != "degraded"@,
{
    reveal_strlit("ready");
    reveal_strlit("disabled");
    reveal_strlit("building");
    reveal_strlit("degraded");
    assert("building"@[0] == 'b');
    assert("disabled"@[0] == 'd');
    assert("disabled"@[1] == 'i');
    assert("degraded"@[0] == 'd');
    assert("degraded"@[1] == 'e');
    assert("ready"@[0] == 'r');
}

/// A search index that is ready is reported as ready, whatever the role and the configuration, and
/// so is one whose build was denied, and a shared one that is only read. The index is building
/// only where none of that holds and one is configured, resident or on its way; else it is off.
pub proof fn law_search_status_tells_of_the_index(context: AppContext)
    ensures
        ({
            let status = search_status(context)@;
            let resident = context.search.resident;
            let shared = context.role.shared_artifacts_read_only && context.config.search_index;
            &&& (resident matches Some(index) && index.ready) ==> status == "ready"@
            &&& (resident matches Some(index) && index.build_denied) ==> status == "ready"@
            &&& shared ==> status == "ready"@
            &&& status == "ready"@ ==> shared || (resident matches Some(index) && (index.ready
                || index.build_denied))
            &&& status == "building"@ ==> !(resident matches Some(index) && (index.ready
                || index.build_denied)) && (context.config.search_index || resident is Some
                || context.search.receiver.present)
            &&& status == "disabled"@ ==> !context.config.search_index && resident is None
                && !context.search.receiver.present
            &&& status == "ready"@ || status == "building"@ || status == "disabled"@
        }),
{
    law_only_ready_and_disabled_satisfy();
}

/// The semantic index is reported as what its status is; a build is reported with its stage, and
/// with its counters where there are any.
pub proof fn law_semantic_health_tells_of_the_status(context: AppContext)
    ensures
        ({
            let health = semantic_health(context);
            let status = context.semantic.status;
            &&& status is Ready <==> health.status@ == "ready"@
            &&& status is Building <==> health.status@ == "building"@
            &&& status is Disabled <==> health.status@ == "disabled"@
            &&& status is Failed <==> health.status@ == "degraded"@
            &&& status matches SemanticIndexStatus::Building { stage, .. } ==> {
                &&& health.stage == Some(stage)
                &&& context.semantic.progress matches Some(progress) ==> {
                    &&& health.embedded_chunks == Some(progress.counters().embedded_chunks)
                    &&& health.total_chunks == Some(progress.counters().total_chunks)
                    &&& health.current_batch == Some(progress.counters().current_batch)
                    &&& health.total_batches == Some(progress.counters().total_batches)
                }
                &&& context.semantic.progress is None ==> health.embedded_chunks is None
                    && health.total_chunks is None && health.current_batch is None
                    && health.total_batches is None
            }
            &&& !(status is Building) ==> health.stage is None && health.embedded_chunks is None
                && health.total_chunks is None && health.current_batch is None
                && health.total_batches is None
        }),
{
    law_only_ready_and_disabled_satisfy();
}

/// The callgraph store is off where heavy work is; else a resident store is ready, and so is a
/// configured one that this process only reads. It is building only where a writer waits for one.
pub proof fn law_callgraph_status_tells_of_the_store(context: AppContext, heavy_work: bool)
    ensures
        ({
            let status = callgraph_status(context, heavy_work)@;
            let read_on_demand = !context.role.callgraph_writer && context.config.callgraph_store;
            let resident = context.callgraph.resident is Some;
            &&& !heavy_work ==> status == "disabled"@
            &&& heavy_work && resident ==> status == "ready"@
            &&& heavy_work && read_on_demand ==> status == "ready"@
            &&& status == "ready"@ ==> heavy_work && (resident || read_on_demand)
            &&& status == "building"@ <==> heavy_work && !resident && !read_on_demand && (
            context.callgraph.receiver.present || context.config.callgraph_store)
            &&& status == "ready"@ || status == "building"@ || status == "disabled"@
        }),
{
    law_only_ready_and_disabled_satisfy();
}

/// Background scans are ready exactly where no rebuild is registered and every category has a
/// fresh value, or is dead code that waits for the callgraph store. A partial result counts as
/// being built only where scans are switched on and this root may complete it.
pub proof fn law_tier2_status_tells_of_the_scans(
    context: AppContext,
    heavy_work: bool,
    builder_busy: bool,
)
    ensures
        ({
            let status = tier2_status(context, heavy_work, builder_busy)@;
            let tier2 = context.status_bar.tier2;
            let complete = (tier2.dead_code is Some || tier2.dead_code_blocked_on_callgraph)
                && tier2.unused_exports is Some && tier2.duplicates is Some && !tier2.stale;
            let some = tier2.dead_code is Some || tier2.unused_exports is Some
                || tier2.duplicates is Some;
            let may_complete = context.config.inspect.enabled && heavy_work
                && context.role.inspect_writer && context.role.automatic_tier2_refresh
                && !context.role.shared_artifacts_read_only;
            &&& status == "ready"@ <==> !builder_busy && complete
            &&& status == "building"@ <==> builder_busy || (!complete && some && may_complete)
            &&& status == "ready"@ || status == "building"@ || status == "disabled"@
        }),
{
    law_only_ready_and_disabled_satisfy();
}

/// Something is busy where any one part could not be looked at without waiting; whether a route
/// is bound matters only to a root whose heavy work is on, and without one heavy work does not
/// count as running.
pub proof fn law_one_busy_part_makes_the_root_busy<Bash>(
    context: AppContext,
    probes: HealthProbes<Bash>,
)
    ensures
        ({
            let parts = probes.readable;
            let busy = any_busy(context, probes);
            &&& !parts.config ==> busy
            &&& !parts.search_index ==> busy
            &&& !parts.search_receiver ==> busy
            &&& !parts.semantic_status ==> busy
            &&& !parts.semantic_progress ==> busy
            &&& !parts.callgraph_store ==> busy
            &&& !parts.callgraph_receiver ==> busy
            &&& !parts.tier2 ==> busy
            &&& probes.tier2_builder_busy is None ==> busy
            &&& probes.bash is None ==> busy
            &&& probes.suspended_domains is None ==> busy
            &&& (context.role.heavy_root_work && probes.bound is None) ==> busy
            &&& busy ==> {
                ||| !parts.config
                ||| !parts.search_index
                ||| !parts.search_receiver
                ||| !parts.semantic_status
                ||| !parts.semantic_progress
                ||| !parts.callgraph_store
                ||| !parts.callgraph_receiver
                ||| !parts.tier2
                ||| probes.tier2_builder_busy is None
                ||| probes.bash is None
                ||| probes.suspended_domains is None
                ||| context.role.heavy_root_work && probes.bound is None
            }
            &&& heavy_work_seen(context, probes) ==> context.role.heavy_root_work && probes.bound
                == Some(true)
            &&& (context.role.heavy_root_work && probes.bound == Some(true)) ==> heavy_work_seen(
                context,
                probes,
            )
        }),
{
}

/// A summary is ready exactly where it is of a root that could be looked at and each of its four
/// components is ready or switched off; a missing component is neither.
pub proof fn law_summary_is_ready_where_every_component_is<Bash>(
    summary: RootHealthSummary<Bash>,
)
    ensures
        summary.ready() ==> {
            &&& summary.state == RootHealthState::Ready
            &&& summary.search_index_status matches Some(status) && (status@ == "ready"@ || status@
                == "disabled"@)
            &&& summary.semantic_index matches Some(semantic) && (semantic.status@ == "ready"@
                || semantic.status@ == "disabled"@)
            &&& summary.callgraph_store_status matches Some(status) && (status@ == "ready"@
                || status@ == "disabled"@)
            &&& summary.tier2_status matches Some(status) && (status@ == "ready"@ || status@
                == "disabled"@)
        },
        (summary.state == RootHealthState::Ready && summary.search_index_status == Some("ready")
            && summary.semantic_index == Some(bare_semantic_health("ready"))
            && summary.callgraph_store_status == Some("ready") && summary.tier2_status == Some(
            "ready",
        )) ==> summary.ready(),
        (summary.state == RootHealthState::Ready && summary.search_index_status == Some("disabled")
            && summary.semantic_index == Some(bare_semantic_health("disabled"))
            && summary.callgraph_store_status == Some("disabled") && summary.tier2_status == Some(
            "disabled",
        )) ==> summary.ready(),
{
}

/// A component is reported exactly where its status is known, and writes to the callgraph store
/// exactly where there were any.
pub proof fn law_reports_tell_what_is_known(
    status: Option<&'static str>,
    metrics: Option<CallgraphWriteMetrics>,
)
    ensures
        status is None ==> component(status) is None,
        status matches Some(word) ==> (component(status) matches Some(reported) && reported.status
            == word),
        wrote(metrics) <==> metrics is Some && !(metrics->0.commits_60s == 0
            && metrics->0.pages_or_bytes_written_60s == 0),
{
}

/// A root at which something was busy is reported as busy, and nothing is told of its parts.
pub proof fn law_busy_root_tells_nothing<Bash>(
    summary: RootHealthSummary<Bash>,
    snapshot: RootHealthSnapshot<Bash>,
    project_root: String,
)
    ensures
        summary.is_empty_busy() ==> {
            &&& summary.state == RootHealthState::Busy
            &&& summary.search_index_status is None && summary.semantic_index is None
            &&& summary.callgraph_store_status is None && summary.tier2_status is None
            &&& summary.bash is None && summary.suspended_domains@.len() == 0
        },
        snapshot.is_empty_busy(project_root) ==> {
            &&& snapshot.state == RootHealthState::Busy
            &&& snapshot.project_root == project_root && snapshot.actor_count == 1
            &&& snapshot.search_index is None && snapshot.semantic_index is None
            &&& snapshot.callgraph_store is None && snapshot.tier2 is None
            &&& snapshot.callgraph_repair_entries_60s is None
            &&& snapshot.callgraph_commits_60s is None
            &&& snapshot.callgraph_pages_or_bytes_written_60s is None
            &&& snapshot.bash is None && snapshot.suspended_domains@.len() == 0
        },
{
}

} // verus!
