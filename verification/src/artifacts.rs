//! Search and semantic indexes of a root: their workers, the cold-seed gate
//! ([`ColdSeedGate`]), the circuit that stops retries, and what happens to all of them when the
//! route is lost, the watcher had a gap, or the root is idle.

use vstd::prelude::*;
use vstd::string::*;

use crate::borrowed_cache;
use crate::callgraph;
use crate::config::Platform;
use crate::context::{
    AppContext, CallgraphSlots, ColdSeedGate, PendingReconciliationState, RefreshWorkerSlot,
    SearchSlots, SemanticRefreshCircuit, SemanticSlots,
};
use crate::lifecycle;
use crate::lifecycle::{advance, ReceiverSlot, ReceiverTerminalGuard};
use crate::path_map;
use crate::path_map::PathMap;
use crate::path_set;
use crate::pending;
use crate::semantic_status;
use crate::semantic_status::{SemanticBuildProgress, SemanticIndexStatus};

verus! {

/// How long an orderly shutdown waits for a search build to settle, in nanoseconds.
pub const GRACEFUL_SHUTDOWN_SEARCH_BUILD_WAIT_NS: u64 = 5_000_000_000;

/// The longest pause between two looks at that build, in nanoseconds.
pub const GRACEFUL_SHUTDOWN_SEARCH_BUILD_POLL_NS: u64 = 10_000_000;

/// How many loads of the search index are started again in one generation after their worker
/// ended without an index.
pub const MAX_REPLACEMENTS_PER_GENERATION: u32 = 1;

/// The work that is taken up again once the cold semantic build no longer holds it back.
#[derive(Debug, Clone, Copy, PartialEq, Eq, Structural)]
pub struct SemanticColdSeedResume {
    pub request_tier2: bool,
    pub warm_callgraph: bool,
}

/// The circuit without the probe that was scheduled.
pub open spec fn probe_invalidated(circuit: SemanticRefreshCircuit) -> SemanticRefreshCircuit {
    SemanticRefreshCircuit {
        probe_token: lifecycle::next_count(circuit.probe_token),
        probe_ready: false,
        probe_in_flight: false,
        ..circuit
    }
}

/// The slot once its worker is gone.
pub open spec fn worker_cleared(refresh: RefreshWorkerSlot) -> RefreshWorkerSlot {
    RefreshWorkerSlot {
        sender: false,
        receiver: refresh.receiver.retired(),
        worker: false,
        build_epoch: 0,
    }
}

/// The slots once their refresh worker is gone.
pub open spec fn without_refresh_worker(slots: SemanticSlots) -> SemanticSlots {
    SemanticSlots {
        refresh: worker_cleared(slots.refresh),
        circuit: probe_invalidated(slots.circuit),
        ..slots
    }
}

/// The cold-seed gate for a new configuration.
pub open spec fn seed_reset(seed: ColdSeedGate) -> ColdSeedGate {
    ColdSeedGate {
        active: false,
        generation: lifecycle::next_count(seed.generation),
        callgraph_warm_deferred: false,
    }
}

/// The context with other semantic slots.
pub open spec fn with_semantic(context: AppContext, semantic: SemanticSlots) -> AppContext {
    AppContext { semantic, ..context }
}

/// The context once the cold-seed gate is open: nothing is held back.
pub open spec fn seed_opened(context: AppContext) -> AppContext {
    with_semantic(
        context,
        SemanticSlots {
            seed: ColdSeedGate {
                active: false,
                callgraph_warm_deferred: false,
                ..context.semantic.seed
            },
            ..context.semantic
        },
    )
}

/// The circuit after one more failure that may pass: it opens once there were as many in a row
/// as the threshold.
pub open spec fn failure_recorded(
    circuit: SemanticRefreshCircuit,
    trip_threshold: usize,
) -> SemanticRefreshCircuit {
    let failures: int = circuit.consecutive_transient_failures + 1;
    SemanticRefreshCircuit {
        consecutive_transient_failures: if failures > usize::MAX {
            0
        } else {
            failures as usize
        },
        open: circuit.open || failures >= trip_threshold,
        ..circuit
    }
}

/// The circuit after a success.
pub open spec fn circuit_closed(circuit: SemanticRefreshCircuit) -> SemanticRefreshCircuit {
    SemanticRefreshCircuit {
        consecutive_transient_failures: 0,
        probe_ready: false,
        open: false,
        ..circuit
    }
}

/// Whether a probe is scheduled anew: there is a worker, and no probe waits or is under way.
pub open spec fn probe_needed(slots: SemanticSlots) -> bool {
    slots.refresh.receiver.present && !slots.circuit.probe_ready && !slots.circuit.probe_in_flight
}

/// The files that a status says are refreshing.
pub open spec fn refreshing_files(status: SemanticIndexStatus) -> Seq<Seq<char>> {
    match status.deep_view() {
        semantic_status::SemanticStatusView::Ready { refreshing, .. } => refreshing,
        _ => Seq::empty(),
    }
}

/// Whether a status says that the whole corpus is being refreshed.
pub open spec fn corpus_refreshing(status: SemanticIndexStatus) -> bool {
    status.deep_view() matches semantic_status::SemanticStatusView::Building { stage, .. } && stage
        == "refreshing_corpus"@
}

/// The status of an index that is at rest: queryable where there is one.
pub open spec fn resting_status(
    platform: Platform,
    queryable: bool,
) -> semantic_status::SemanticStatusView {
    if queryable {
        semantic_status::SemanticStatusView::Ready {
            platform,
            refreshing: Seq::empty(),
            accounting: Map::empty(),
        }
    } else {
        semantic_status::SemanticStatusView::Disabled
    }
}

fn status_at_rest(platform: Platform, queryable: bool) -> (status: SemanticIndexStatus)
    ensures
        status.deep_view() == resting_status(platform, queryable),
{
    if queryable {
        SemanticIndexStatus::ready(platform)
    } else {
        SemanticIndexStatus::Disabled
    }
}

/// The search slots once work was cancelled: a resident index that was being refreshed and is
/// not ready is dropped, so that it is loaded again.
pub open spec fn search_cancelled(slots: SearchSlots) -> SearchSlots {
    SearchSlots {
        receiver: slots.receiver.retired(),
        resident: match slots.resident {
            Some(index) => if slots.receiver.present && !index.ready {
                None
            } else {
                Some(index)
            },
            None => None,
        },
        ..slots
    }
}

/// Whether losing the route cancels semantic work.
pub open spec fn semantic_work_cancelled(slots: SemanticSlots) -> bool {
    slots.receiver.present || slots.refresh.receiver.present
}

/// What evicting idle artifacts depends on beside the context.
#[derive(Debug, Clone, Copy, PartialEq, Eq, Structural)]
pub struct EvictionFacts {
    pub build_in_flight: bool,
    pub tier2_in_flight: bool,
    pub running_bash_tasks: usize,
}

/// Whether semantic work is under way.
pub open spec fn semantic_busy(status: SemanticIndexStatus) -> bool {
    match status.deep_view() {
        semantic_status::SemanticStatusView::Building { .. } => true,
        semantic_status::SemanticStatusView::Ready { refreshing, .. } => refreshing.len() > 0,
        _ => false,
    }
}

/// Whether paths wait to be taken up.
pub open spec fn paths_pending(pending: PendingReconciliationState) -> bool {
    pending.callgraph.deep_view().len() > 0 || pending.search.deep_view().len() > 0
        || pending.tier2.deep_view().len() > 0 || pending.semantic.deep_view().len() > 0
        || pending.corpus_refresh
}

/// Whether artifacts must stay: the root is standing, work is under way, or something is not on
/// disk yet.
pub open spec fn eviction_blocked(context: AppContext, facts: EvictionFacts) -> bool {
    ||| context.role.standing_artifact_exempt
    ||| facts.build_in_flight
    ||| semantic_busy(context.semantic.status)
    ||| facts.tier2_in_flight
    ||| facts.running_bash_tasks > 0
    ||| paths_pending(context.pending)
    ||| context.search.resident matches Some(index) && index.pending_disk_changes
}

/// What may be waiting to be drained, where the application looked without waiting; `None` where
/// the slot was busy.
#[derive(Debug, Clone, Copy, PartialEq, Eq, Structural)]
pub struct DrainProbes {
    /// Whether the receiver of the search worker holds events.
    pub search_events: Option<bool>,
    /// Whether the receiver of the callgraph build holds events.
    pub callgraph_events: Option<bool>,
    /// Whether the receiver of the semantic worker holds events.
    pub semantic_events: Option<bool>,
    /// Whether the receiver of the refresh worker holds events.
    pub refresh_events: Option<bool>,
    /// Whether the refresh worker's thread ended.
    pub refresh_worker_finished: Option<bool>,
    pub inspect_completions: bool,
    pub reuse_completions: u64,
}

/// Whether a completed piece of work may wait to be taken up. A slot that is busy counts as
/// work: skipping is never more than a saving.
pub open spec fn drains_have_work(context: AppContext, probes: DrainProbes) -> bool {
    ||| probes.search_events is None
    ||| probes.callgraph_events is None
    ||| probes.semantic_events is None
    ||| probes.refresh_events is None
    ||| probes.refresh_worker_finished is None
    ||| context.search.receiver.present && (probes.search_events == Some(true)
        || context.search.terminal_epoch == context.search.receiver.epoch)
    ||| context.callgraph.receiver.present && probes.callgraph_events == Some(true)
    ||| context.semantic.receiver.present && (probes.semantic_events == Some(true)
        || context.semantic.terminal_epoch == context.semantic.receiver.epoch)
    ||| context.semantic.refresh.receiver.present && (probes.refresh_events == Some(true)
        || context.semantic.circuit.probe_ready)
    ||| context.semantic.refresh.worker && probes.refresh_worker_finished == Some(true)
    ||| probes.inspect_completions
    ||| probes.reuse_completions != context.last_seen_reuse_completions
}

/// The steps of writing the search index out at an orderly shutdown.
#[derive(Debug, Clone, Copy, PartialEq, Eq, Structural)]
pub enum FlushStep {
    /// Nothing is written.
    Skip,
    /// A build is in flight: wait for it, within bounds, and ask again.
    AwaitBuild,
    /// Acquire the lock of the cache and write.
    Write,
}

/// What is done at an orderly shutdown, before and after a bounded wait for a build.
pub open spec fn flush_step(context: AppContext, waited: bool) -> FlushStep {
    if !context.role.callgraph_writer {
        FlushStep::Skip
    } else if context.search.receiver.present {
        if waited {
            FlushStep::Skip
        } else {
            FlushStep::AwaitBuild
        }
    } else if context.role.canonical_cache_root is None {
        FlushStep::Skip
    } else if flushable(context.search) {
        FlushStep::Write
    } else {
        FlushStep::Skip
    }
}

/// Whether the resident search index has anything to write.
pub open spec fn flushable(slots: SearchSlots) -> bool {
    slots.resident matches Some(index) && index.ready && index.pending_disk_changes
}

impl AppContext {
    // ---- Search index ----

    /// Installs the receiver of a search worker and returns its epoch.
    pub fn install_search_index_rx(&mut self, generation: u64) -> (epoch: u64)
        ensures
            *final(self) == (AppContext {
                search: SearchSlots {
                    receiver: old(self).search.receiver.with_receiver(generation),
                    ..old(self).search
                },
                ..*old(self)
            }),
            epoch == final(self).search.receiver.epoch,
    {
        self.search.receiver.install(generation)
    }

    /// Whether what a search worker delivered still counts.
    pub fn search_index_rx_is_current(&self, generation: u64, epoch: u64) -> (yes: bool)
        ensures
            yes == self.search.receiver.awaits(self.lifecycle, generation, epoch),
    {
        self.search.receiver.is_current(&self.lifecycle, generation, epoch)
    }

    /// Drops the receiver of the search worker.
    pub fn retire_search_index_rx(&mut self)
        ensures
            *final(self) == (AppContext {
                search: SearchSlots {
                    receiver: old(self).search.receiver.retired(),
                    ..old(self).search
                },
                ..*old(self)
            }),
    {
        self.search.receiver.retire();
    }

    /// Notes that a search worker ended.
    pub fn search_worker_ended(&mut self, guard: ReceiverTerminalGuard)
        ensures
            *final(self) == (AppContext {
                search: SearchSlots {
                    terminal_epoch: if guard.epoch > old(self).search.terminal_epoch {
                        guard.epoch
                    } else {
                        old(self).search.terminal_epoch
                    },
                    ..old(self).search
                },
                ..*old(self)
            }),
    {
        self.search.terminal_epoch = guard.release(self.search.terminal_epoch);
    }

    /// Whether a load whose worker ended without an index is started again: once in a
    /// generation.
    pub fn allow_search_index_disconnect_reschedule(&mut self) -> (allowed: bool)
        ensures
            allowed == (old(self).search.reschedule_generation != old(self).lifecycle.generation
                || old(self).search.reschedules < MAX_REPLACEMENTS_PER_GENERATION),
            *final(self) == (AppContext {
                search: if allowed {
                    SearchSlots {
                        reschedule_generation: old(self).lifecycle.generation,
                        reschedules: if old(self).search.reschedule_generation
                            == old(self).lifecycle.generation {
                            (old(self).search.reschedules + 1) as u32
                        } else {
                            1
                        },
                        ..old(self).search
                    }
                } else {
                    old(self).search
                },
                ..*old(self)
            }),
    {
        let generation = self.configure_generation();
        if self.search.reschedule_generation != generation {
            self.search.reschedule_generation = generation;
            self.search.reschedules = 0;
        }
        if self.search.reschedules >= MAX_REPLACEMENTS_PER_GENERATION {
            return false;
        }
        self.search.reschedules = self.search.reschedules + 1;
        true
    }

    /// Begins a new publication of the search index.
    pub fn next_search_persist_epoch(&mut self) -> (epoch: u64)
        ensures
            epoch == lifecycle::next_count(old(self).search.persist_epoch),
            *final(self) == (AppContext {
                search: SearchSlots { persist_epoch: epoch, ..old(self).search },
                ..*old(self)
            }),
    {
        self.search.persist_epoch = advance(self.search.persist_epoch);
        self.search.persist_epoch
    }

    /// How long to pause before a build is looked at again at an orderly shutdown, in
    /// nanoseconds, where `waited_ns` have passed: none where it has settled or the time is up.
    pub fn search_build_shutdown_pause(&self, waited_ns: u64) -> (pause: Option<u64>)
        ensures
            pause == (if !self.search.receiver.present || waited_ns
                >= GRACEFUL_SHUTDOWN_SEARCH_BUILD_WAIT_NS {
                None
            } else {
                let left = (GRACEFUL_SHUTDOWN_SEARCH_BUILD_WAIT_NS - waited_ns) as u64;
                Some(
                    if left < GRACEFUL_SHUTDOWN_SEARCH_BUILD_POLL_NS {
                        left
                    } else {
                        GRACEFUL_SHUTDOWN_SEARCH_BUILD_POLL_NS
                    },
                )
            }),
    {
        if !self.search.receiver.present || waited_ns >= GRACEFUL_SHUTDOWN_SEARCH_BUILD_WAIT_NS {
            return None;
        }
        let left: u64 = GRACEFUL_SHUTDOWN_SEARCH_BUILD_WAIT_NS - waited_ns;
        if left < GRACEFUL_SHUTDOWN_SEARCH_BUILD_POLL_NS {
            Some(left)
        } else {
            Some(GRACEFUL_SHUTDOWN_SEARCH_BUILD_POLL_NS)
        }
    }

    /// What is done at an orderly shutdown, before and after a bounded wait for a build.
    pub fn flush_search_index_on_graceful_shutdown(&self, waited: bool) -> (step: FlushStep)
        ensures
            step == flush_step(*self, waited),
    {
        if self.shared_artifacts_read_only() {
            return FlushStep::Skip;
        }
        if self.search.receiver.present {
            if waited {
                return FlushStep::Skip;
            }
            return FlushStep::AwaitBuild;
        }
        if self.role.canonical_cache_root.is_none() {
            return FlushStep::Skip;
        }
        if self.search_index_flushable() {
            FlushStep::Write
        } else {
            FlushStep::Skip
        }
    }

    /// Whether the resident search index has anything to write; asked again once the cache's
    /// lock is held.
    pub fn search_index_flushable(&self) -> (yes: bool)
        ensures
            yes == flushable(self.search),
    {
        match self.search.resident {
            Some(index) => index.ready && index.pending_disk_changes,
            None => false,
        }
    }

    // ---- Semantic index ----

    /// Installs the receiver of a semantic worker and returns its epoch.
    pub fn install_semantic_index_rx(&mut self, generation: u64) -> (epoch: u64)
        ensures
            *final(self) == with_semantic(
                *old(self),
                SemanticSlots {
                    receiver: old(self).semantic.receiver.with_receiver(generation),
                    ..old(self).semantic
                },
            ),
            epoch == final(self).semantic.receiver.epoch,
    {
        self.semantic.receiver.install(generation)
    }

    /// Whether what a semantic worker delivered still counts.
    pub fn semantic_index_rx_is_current(&self, generation: u64, epoch: u64) -> (yes: bool)
        ensures
            yes == self.semantic.receiver.awaits(self.lifecycle, generation, epoch),
    {
        self.semantic.receiver.is_current(&self.lifecycle, generation, epoch)
    }

    /// Drops the receiver of the semantic worker.
    pub fn retire_semantic_index_rx(&mut self)
        ensures
            *final(self) == with_semantic(
                *old(self),
                SemanticSlots {
                    receiver: old(self).semantic.receiver.retired(),
                    ..old(self).semantic
                },
            ),
    {
        self.semantic.receiver.retire();
    }

    /// Moves a semantic build in flight to another generation; answers whether there is one.
    pub fn adopt_semantic_index_rx_generation(&mut self, generation: u64) -> (adopted: bool)
        ensures
            adopted == old(self).semantic.receiver.present,
            *final(self) == with_semantic(
                *old(self),
                SemanticSlots {
                    receiver: if adopted {
                        ReceiverSlot { generation, ..old(self).semantic.receiver }
                    } else {
                        old(self).semantic.receiver
                    },
                    ..old(self).semantic
                },
            ),
    {
        self.semantic.receiver.adopt(generation)
    }

    /// Drops the receiver of the semantic worker unless another one replaced it: `None` where
    /// one did, else whether there was a receiver.
    pub fn retire_semantic_index_rx_if_epoch(&mut self, expected_epoch: u64) -> (retired: Option<
        bool,
    >)
        ensures
            retired == (if old(self).semantic.receiver.epoch == expected_epoch {
                Some(old(self).semantic.receiver.present)
            } else {
                None
            }),
            *final(self) == with_semantic(
                *old(self),
                SemanticSlots {
                    receiver: if retired == Some(true) {
                        old(self).semantic.receiver.retired()
                    } else {
                        old(self).semantic.receiver
                    },
                    ..old(self).semantic
                },
            ),
    {
        self.semantic.receiver.retire_if_epoch(expected_epoch)
    }

    /// Notes that a semantic worker ended.
    pub fn semantic_worker_ended(&mut self, guard: ReceiverTerminalGuard)
        ensures
            *final(self) == with_semantic(
                *old(self),
                SemanticSlots {
                    terminal_epoch: if guard.epoch > old(self).semantic.terminal_epoch {
                        guard.epoch
                    } else {
                        old(self).semantic.terminal_epoch
                    },
                    ..old(self).semantic
                },
            ),
    {
        self.semantic.terminal_epoch = guard.release(self.semantic.terminal_epoch);
    }

    /// Begins a new publication of the semantic index.
    pub fn next_semantic_persist_epoch(&mut self) -> (epoch: u64)
        ensures
            epoch == lifecycle::next_count(old(self).semantic.persist_epoch),
            *final(self) == with_semantic(
                *old(self),
                SemanticSlots { persist_epoch: epoch, ..old(self).semantic },
            ),
    {
        self.semantic.persist_epoch = advance(self.semantic.persist_epoch);
        self.semantic.persist_epoch
    }

    /// Supersedes a semantic build in flight: its corpus changed.
    pub fn advance_semantic_build_epoch(&mut self) -> (epoch: u64)
        ensures
            epoch == lifecycle::next_count(old(self).semantic.build_epoch),
            *final(self) == with_semantic(
                *old(self),
                SemanticSlots { build_epoch: epoch, ..old(self).semantic },
            ),
    {
        self.semantic.build_epoch = advance(self.semantic.build_epoch);
        self.semantic.build_epoch
    }

    pub fn semantic_build_epoch(&self) -> (epoch: u64)
        ensures
            epoch == self.semantic.build_epoch,
    {
        self.semantic.build_epoch
    }

    pub fn advance_semantic_fingerprint_generation(&mut self) -> (generation: u64)
        ensures
            generation == lifecycle::next_count(old(self).semantic.fingerprint_generation),
            *final(self) == with_semantic(
                *old(self),
                SemanticSlots { fingerprint_generation: generation, ..old(self).semantic },
            ),
    {
        self.semantic.fingerprint_generation = advance(self.semantic.fingerprint_generation);
        self.semantic.fingerprint_generation
    }

    pub fn semantic_fingerprint_generation(&self) -> (generation: u64)
        ensures
            generation == self.semantic.fingerprint_generation,
    {
        self.semantic.fingerprint_generation
    }

    pub fn set_semantic_build_progress(&mut self, progress: Option<SemanticBuildProgress>)
        ensures
            *final(self) == with_semantic(
                *old(self),
                SemanticSlots { progress, ..old(self).semantic },
            ),
    {
        self.semantic.progress = progress;
    }

    pub fn semantic_build_progress(&self) -> (progress: Option<SemanticBuildProgress>)
        ensures
            progress == self.semantic.progress,
    {
        self.semantic.progress
    }

    // ---- The cold-seed gate of the cold semantic build ----

    /// Opens the cold-seed gate for a new configuration and returns the generation of its worker.
    pub fn reset_semantic_cold_seed_gate_for_configure(&mut self) -> (generation: u64)
        ensures
            generation == final(self).semantic.seed.generation,
            *final(self) == with_semantic(
                *old(self),
                SemanticSlots {
                    seed: seed_reset(old(self).semantic.seed),
                    ..old(self).semantic
                },
            ),
    {
        self.semantic.seed.active = false;
        self.semantic.seed.callgraph_warm_deferred = false;
        self.semantic.seed.generation = advance(self.semantic.seed.generation);
        self.semantic.seed.generation
    }

    pub fn semantic_cold_seed_generation(&self) -> (generation: u64)
        ensures
            generation == self.semantic.seed.generation,
    {
        self.semantic.seed.generation
    }

    /// Whether the cold-seed gate is closed.
    pub fn semantic_cold_seed_active(&self) -> (yes: bool)
        ensures
            yes == self.semantic.seed.active,
    {
        self.semantic.seed.active
    }

    /// Closes the cold-seed gate: a cold build is scheduled.
    pub fn schedule_semantic_cold_seed_gate_for_configure(&mut self)
        ensures
            *final(self) == with_semantic(
                *old(self),
                SemanticSlots {
                    seed: ColdSeedGate { active: true, ..old(self).semantic.seed },
                    ..old(self).semantic
                },
            ),
    {
        self.semantic.seed.active = true;
    }

    /// Notes that a warm-up of the callgraph store waits for the cold-seed gate.
    pub fn defer_callgraph_store_warm_for_semantic_cold_seed(&mut self)
        ensures
            *final(self) == callgraph::with_deferred_warm(*old(self)),
    {
        self.semantic.seed.callgraph_warm_deferred = true;
    }

    /// Opens the cold-seed gate and says what it held back. `force` asks for a background
    /// refresh even where it was open already.
    pub fn take_semantic_cold_seed_resume(&mut self, force: bool) -> (resume:
        SemanticColdSeedResume)
        ensures
            resume == (SemanticColdSeedResume {
                request_tier2: force || old(self).semantic.seed.active
                    || old(self).semantic.seed.callgraph_warm_deferred,
                warm_callgraph: old(self).semantic.seed.callgraph_warm_deferred,
            }),
            *final(self) == seed_opened(*old(self)),
    {
        let was_active = self.semantic.seed.active;
        let warm_callgraph = self.semantic.seed.callgraph_warm_deferred;
        self.semantic.seed.active = false;
        self.semantic.seed.callgraph_warm_deferred = false;
        SemanticColdSeedResume {
            request_tier2: force || was_active || warm_callgraph,
            warm_callgraph,
        }
    }

    /// Whether the callgraph store is warmed up for what the cold-seed gate held back.
    pub fn resume_warms_callgraph(&self, resume: SemanticColdSeedResume) -> (yes: bool)
        ensures
            yes == (resume.warm_callgraph && self.config.callgraph_store && self.heavy_work()),
    {
        resume.warm_callgraph && self.config.callgraph_store && self.heavy_root_work_allowed()
    }

    /// Opens the cold-seed gate from the code that drains the worker's events.
    pub fn clear_semantic_cold_seed_gate_and_resume_deferred_work(&mut self) -> (resume:
        SemanticColdSeedResume)
        ensures
            resume == (SemanticColdSeedResume {
                request_tier2: old(self).semantic.seed.active
                    || old(self).semantic.seed.callgraph_warm_deferred,
                warm_callgraph: old(self).semantic.seed.callgraph_warm_deferred
                    && old(self).config.callgraph_store && old(self).heavy_work(),
            }),
            *final(self) == seed_opened(*old(self)),
    {
        self.resume_semantic_cold_seed_deferred_work(false)
    }

    /// Takes up what the cold-seed gate held back after the worker opened it itself.
    pub fn resume_deferred_work_after_semantic_cold_seed_gate_cleared(&mut self) -> (resume:
        SemanticColdSeedResume)
        ensures
            resume == (SemanticColdSeedResume {
                request_tier2: true,
                warm_callgraph: old(self).semantic.seed.callgraph_warm_deferred
                    && old(self).config.callgraph_store && old(self).heavy_work(),
            }),
            *final(self) == seed_opened(*old(self)),
    {
        self.resume_semantic_cold_seed_deferred_work(true)
    }

    fn resume_semantic_cold_seed_deferred_work(&mut self, force: bool) -> (resume:
        SemanticColdSeedResume)
        ensures
            resume == (SemanticColdSeedResume {
                request_tier2: force || old(self).semantic.seed.active
                    || old(self).semantic.seed.callgraph_warm_deferred,
                warm_callgraph: old(self).semantic.seed.callgraph_warm_deferred
                    && old(self).config.callgraph_store && old(self).heavy_work(),
            }),
            *final(self) == seed_opened(*old(self)),
    {
        let resume = self.take_semantic_cold_seed_resume(force);
        SemanticColdSeedResume {
            request_tier2: resume.request_tier2,
            warm_callgraph: self.resume_warms_callgraph(resume),
        }
    }

    // ---- The refresh worker ----

    /// Installs a worker for the build in force.
    pub fn install_semantic_refresh_worker(&mut self)
        ensures
            *final(self) == with_semantic(
                *old(self),
                with_worker(
                    old(self).semantic,
                    old(self).lifecycle.generation,
                    old(self).semantic.receiver.epoch,
                ),
            ),
    {
        let build_epoch = self.semantic.receiver.epoch;
        self.install_semantic_refresh_worker_for_build_epoch(build_epoch);
    }

    /// Installs a worker for a build; an earlier worker is gone, and so is its probe.
    pub fn install_semantic_refresh_worker_for_build_epoch(&mut self, build_epoch: u64)
        ensures
            *final(self) == with_semantic(
                *old(self),
                with_worker(old(self).semantic, old(self).lifecycle.generation, build_epoch),
            ),
    {
        self.clear_semantic_refresh_worker();
        let generation = self.configure_generation();
        let _ = self.semantic.refresh.receiver.install(generation);
        self.semantic.refresh.build_epoch = build_epoch;
        self.semantic.refresh.sender = true;
        self.semantic.refresh.worker = true;
    }

    /// Whether what the refresh worker delivered still counts.
    pub fn semantic_refresh_rx_is_current(&self, generation: u64, epoch: u64) -> (yes: bool)
        ensures
            yes == self.semantic.refresh.receiver.awaits(self.lifecycle, generation, epoch),
    {
        self.semantic.refresh.receiver.is_current(&self.lifecycle, generation, epoch)
    }

    /// Removes the worker, unless another one replaced it, and returns the epoch of its build.
    pub fn clear_semantic_refresh_worker_if_current(
        &mut self,
        generation: u64,
        epoch: u64,
    ) -> (build_epoch:
        Option<u64>)
        ensures
            ({
                let receiver = old(self).semantic.refresh.receiver;
                let current = receiver.present && receiver.generation == generation
                    && receiver.epoch == epoch;
                &&& build_epoch == (if current {
                    Some(old(self).semantic.refresh.build_epoch)
                } else {
                    None
                })
                &&& *final(self) == (if current {
                    with_semantic(*old(self), without_refresh_worker(old(self).semantic))
                } else {
                    *old(self)
                })
            }),
    {
        let receiver = self.semantic.refresh.receiver;
        if !receiver.present || receiver.generation != generation || receiver.epoch != epoch {
            return None;
        }
        let build_epoch = self.semantic.refresh.build_epoch;
        self.clear_semantic_refresh_worker();
        Some(build_epoch)
    }

    /// Removes the worker.
    pub fn clear_semantic_refresh_worker(&mut self)
        ensures
            *final(self) == with_semantic(
                *old(self),
                without_refresh_worker(old(self).semantic),
            ),
    {
        self.semantic.refresh.receiver.retire();
        self.semantic.refresh.sender = false;
        self.semantic.refresh.worker = false;
        self.semantic.refresh.build_epoch = 0;
        self.invalidate_semantic_refresh_probe();
    }

    /// Forgets how often the refreshes of files were retried.
    pub fn clear_semantic_refresh_retry_attempts(&mut self, paths: &Vec<String>)
        ensures
            final(self).semantic.retry_attempts.deep_view() == attempts_without(
                old(self).platform,
                old(self).semantic.retry_attempts.deep_view(),
                paths.deep_view(),
            ),
            *final(self) == with_semantic(
                *old(self),
                SemanticSlots {
                    retry_attempts: final(self).semantic.retry_attempts,
                    ..old(self).semantic
                },
            ),
    {
        let ghost start = self.semantic.retry_attempts.deep_view();
        let ghost gone = paths.deep_view();
        let platform = self.platform;
        let mut attempts: PathMap<usize> = PathMap::new();
        std::mem::swap(&mut attempts, &mut self.semantic.retry_attempts);
        let mut i: usize = 0;
        assert(gone.take(0) =~= Seq::<Seq<char>>::empty());
        while i < paths.len()
            invariant
                i <= paths.len(),
                gone == paths.deep_view(),
                attempts.deep_view() == attempts_without(platform, start, gone.take(i as int)),
            decreases paths.len() - i,
        {
            proof {
                assert(gone[i as int] == paths@[i as int]@);
                assert(gone.take(i + 1).drop_last() =~= gone.take(i as int));
                assert(gone.take(i + 1).last() == gone[i as int]);
            }
            attempts.remove(platform, paths[i].as_str());
            i = i + 1;
        }
        assert(gone.take(gone.len() as int) =~= gone);
        self.semantic.retry_attempts = attempts;
    }

    /// Forgets how often any refresh was retried.
    pub fn clear_all_semantic_refresh_retry_attempts(&mut self)
        ensures
            final(self).semantic.retry_attempts.deep_view() == Seq::<(Seq<char>, usize)>::empty(),
            *final(self) == with_semantic(
                *old(self),
                SemanticSlots {
                    retry_attempts: final(self).semantic.retry_attempts,
                    ..old(self).semantic
                },
            ),
    {
        self.semantic.retry_attempts = PathMap::new();
    }

    // ---- The circuit ----

    /// Whether retries are stopped.
    pub fn semantic_refresh_circuit_is_open(&self) -> (yes: bool)
        ensures
            yes == self.semantic.circuit.open,
    {
        self.semantic.circuit.open
    }

    /// Notes a failure that may pass and answers whether retries are stopped.
    pub fn record_semantic_refresh_transient_failure(&mut self, trip_threshold: usize) -> (open:
        bool)
        ensures
            *final(self) == with_semantic(
                *old(self),
                SemanticSlots {
                    circuit: failure_recorded(old(self).semantic.circuit, trip_threshold),
                    ..old(self).semantic
                },
            ),
            open == final(self).semantic.circuit.open,
    {
        let before = self.semantic.circuit.consecutive_transient_failures;
        let failures: usize = before.saturating_add(1);
        self.semantic.circuit.consecutive_transient_failures = before.wrapping_add(1);
        if failures >= trip_threshold {
            self.semantic.circuit.open = true;
        }
        self.semantic.circuit.open
    }

    /// Stops retries at once.
    pub fn trip_semantic_refresh_circuit(&mut self, trip_threshold: usize)
        ensures
            *final(self) == with_semantic(
                *old(self),
                SemanticSlots {
                    circuit: SemanticRefreshCircuit {
                        consecutive_transient_failures: trip_threshold,
                        open: true,
                        ..old(self).semantic.circuit
                    },
                    ..old(self).semantic
                },
            ),
    {
        self.semantic.circuit.consecutive_transient_failures = trip_threshold;
        self.semantic.circuit.open = true;
    }

    pub fn reset_semantic_refresh_transient_failure_count(&mut self)
        ensures
            *final(self) == with_semantic(
                *old(self),
                SemanticSlots {
                    circuit: SemanticRefreshCircuit {
                        consecutive_transient_failures: 0,
                        ..old(self).semantic.circuit
                    },
                    ..old(self).semantic
                },
            ),
    {
        self.semantic.circuit.consecutive_transient_failures = 0;
    }

    /// Lets retries go on: a refresh succeeded.
    pub fn reset_semantic_refresh_circuit_after_success(&mut self)
        ensures
            *final(self) == with_semantic(
                *old(self),
                SemanticSlots {
                    circuit: circuit_closed(old(self).semantic.circuit),
                    ..old(self).semantic
                },
            ),
    {
        self.reset_semantic_refresh_transient_failure_count();
        self.semantic.circuit.probe_ready = false;
        self.semantic.circuit.open = false;
    }

    pub fn semantic_refresh_transient_failure_count(&self) -> (count: usize)
        ensures
            count == self.semantic.circuit.consecutive_transient_failures,
    {
        self.semantic.circuit.consecutive_transient_failures
    }

    /// Whether a probe of the backend is under way or waits to be taken.
    pub fn semantic_refresh_probe_is_scheduled(&self) -> (yes: bool)
        ensures
            yes == (self.semantic.circuit.probe_in_flight || self.semantic.circuit.probe_ready),
    {
        self.semantic.circuit.probe_in_flight || self.semantic_refresh_probe_ready()
    }

    pub fn semantic_refresh_probe_ready(&self) -> (yes: bool)
        ensures
            yes == self.semantic.circuit.probe_ready,
    {
        self.semantic.circuit.probe_ready
    }

    /// Takes a probe that waits.
    pub fn take_semantic_refresh_probe_ready(&mut self) -> (ready: bool)
        ensures
            ready == old(self).semantic.circuit.probe_ready,
            *final(self) == with_semantic(
                *old(self),
                SemanticSlots {
                    circuit: SemanticRefreshCircuit {
                        probe_ready: false,
                        ..old(self).semantic.circuit
                    },
                    ..old(self).semantic
                },
            ),
    {
        let ready = self.semantic.circuit.probe_ready;
        self.semantic.circuit.probe_ready = false;
        ready
    }

    fn invalidate_semantic_refresh_probe(&mut self)
        ensures
            *final(self) == with_semantic(
                *old(self),
                SemanticSlots {
                    circuit: probe_invalidated(old(self).semantic.circuit),
                    ..old(self).semantic
                },
            ),
    {
        self.semantic.circuit.probe_token = advance(self.semantic.circuit.probe_token);
        self.semantic.circuit.probe_ready = false;
        self.semantic.circuit.probe_in_flight = false;
    }

    /// Schedules a probe of the backend, unless one is scheduled or there is no worker, and
    /// returns its token: the application calls
    /// [`AppContext::semantic_refresh_probe_elapsed`] once the delay is over.
    pub fn ensure_semantic_refresh_probe_scheduled(&mut self) -> (token: Option<u64>)
        ensures
            if probe_needed(old(self).semantic) {
                &&& token == Some(lifecycle::next_count(old(self).semantic.circuit.probe_token))
                &&& *final(self) == with_semantic(
                    *old(self),
                    SemanticSlots {
                        circuit: SemanticRefreshCircuit {
                            probe_in_flight: true,
                            probe_token: token->0,
                            ..old(self).semantic.circuit
                        },
                        ..old(self).semantic
                    },
                )
            } else {
                &&& token is None
                &&& *final(self) == *old(self)
            },
    {
        if !self.semantic.refresh.receiver.present || self.semantic.circuit.probe_ready
            || self.semantic.circuit.probe_in_flight {
            return None;
        }
        self.semantic.circuit.probe_in_flight = true;
        self.semantic.circuit.probe_token = advance(self.semantic.circuit.probe_token);
        Some(self.semantic.circuit.probe_token)
    }

    /// Makes a scheduled probe ready, unless it was invalidated since.
    pub fn semantic_refresh_probe_elapsed(&mut self, token: u64)
        ensures
            *final(self) == (if old(self).semantic.circuit.probe_token == token {
                with_semantic(
                    *old(self),
                    SemanticSlots {
                        circuit: SemanticRefreshCircuit {
                            probe_ready: true,
                            probe_in_flight: false,
                            ..old(self).semantic.circuit
                        },
                        ..old(self).semantic
                    },
                )
            } else {
                *old(self)
            }),
    {
        if self.semantic.circuit.probe_token == token {
            self.semantic.circuit.probe_ready = true;
            self.semantic.circuit.probe_in_flight = false;
        }
    }

    // ---- Across the indexes ----

    /// Cancels work that no route is left to consume. Receivers are dropped, so that a later
    /// route starts fresh work; paths that wait are kept, and those that were being embedded
    /// again join them, because the cancelled worker never finishes them.
    pub fn cancel_unbound_artifact_work(&mut self, reuse_completions: u64)
        ensures
            ({
                let before = *old(self);
                let cancelled = semantic_work_cancelled(before.semantic);
                let status = final(self).semantic.status;
                let pending = final(self).pending.semantic;
                &&& *final(self) == (AppContext {
                    search: search_cancelled(before.search),
                    callgraph: CallgraphSlots {
                        receiver: before.callgraph.receiver.retired(),
                        ..before.callgraph
                    },
                    semantic: SemanticSlots {
                        receiver: before.semantic.receiver.retired(),
                        seed: seed_reset(before.semantic.seed),
                        status,
                        progress: if cancelled {
                            None
                        } else {
                            before.semantic.progress
                        },
                        ..without_refresh_worker(before.semantic)
                    },
                    pending: PendingReconciliationState {
                        semantic: pending,
                        corpus_refresh: before.pending.corpus_refresh || (cancelled
                            && corpus_refreshing(before.semantic.status)),
                        ..before.pending
                    },
                    last_seen_reuse_completions: reuse_completions,
                    ..before
                })
                &&& if cancelled {
                    &&& status.deep_view() == resting_status(
                        before.platform,
                        before.semantic.resident,
                    )
                    &&& pending.deep_view() == path_set::with_paths(
                        before.platform,
                        before.pending.semantic.deep_view(),
                        refreshing_files(before.semantic.status),
                    )
                } else {
                    &&& status == before.semantic.status
                    &&& pending == before.pending.semantic
                }
            }),
            pending::keeps_pending_sets(*old(self), *final(self)),
    {
        let search_refresh_cancelled = self.search.receiver.present;
        self.retire_search_index_rx();
        if search_refresh_cancelled {
            if let Some(index) = self.search.resident {
                if !index.ready {
                    self.search.resident = None;
                }
            }
        }
        self.retire_callgraph_store_rx();
        let semantic_cancelled = self.semantic.receiver.present;
        self.retire_semantic_index_rx();
        let semantic_refresh_cancelled = self.semantic.refresh.receiver.present;
        self.clear_semantic_refresh_worker();
        let _ = self.reset_semantic_cold_seed_gate_for_configure();
        let _ = self.take_new_reuse_completions(reuse_completions);
        if semantic_cancelled || semantic_refresh_cancelled {
            let has_index = self.semantic.resident;
            let corpus = self.semantic.status.corpus_refresh_in_flight();
            let refreshing = self.semantic.status.take_refreshing_files();
            self.pending.semantic.extend(self.platform, refreshing);
            if corpus {
                self.pending.corpus_refresh = true;
            }
            self.semantic.status = status_at_rest(self.platform, has_index);
            self.set_semantic_build_progress(None);
        }
    }

    /// Drops every artifact that the watcher kept current, because edits may have been missed:
    /// a later use reads from disk. The semantic index stays loadable where it is enabled. A
    /// rebuild of the callgraph store is asked for only where this process can make one. The
    /// root whose verified state is forgotten is returned; the application also drops its scan,
    /// symbol and project-membership caches.
    pub fn invalidate_artifacts_after_watcher_gap(&mut self) -> (root: Option<String>)
        ensures
            ({
                let before = *old(self);
                let status = final(self).semantic.status;
                let borrowed = final(self).borrowed_index_cache;
                &&& *final(self) == (AppContext {
                    search: SearchSlots {
                        resident: None,
                        persist_epoch: lifecycle::next_count(before.search.persist_epoch),
                        ..before.search
                    },
                    semantic: SemanticSlots {
                        resident: false,
                        persist_epoch: lifecycle::next_count(before.semantic.persist_epoch),
                        status,
                        ..before.semantic
                    },
                    callgraph: CallgraphSlots {
                        resident: None,
                        persist_epoch: lifecycle::next_count(before.callgraph.persist_epoch),
                        force_requested: if before.role.callgraph_writer {
                            lifecycle::next_count(before.callgraph.force_requested)
                        } else {
                            before.callgraph.force_requested
                        },
                        ..before.callgraph
                    },
                    borrowed_index_cache: borrowed,
                    ..before
                })
                &&& status.deep_view() == resting_status(
                    before.platform,
                    before.config.semantic_search,
                )
                &&& borrowed.deep_view() == (borrowed_cache::BorrowedCacheView {
                    platform: before.borrowed_index_cache.platform,
                    entries: Seq::empty(),
                    resolved_roots: Seq::empty(),
                })
                &&& root.deep_view() == (match before.role.canonical_cache_root {
                    Some(root) => Some(root@),
                    None => before.config.project_root.deep_view(),
                })
            }),
    {
        let _ = self.next_search_persist_epoch();
        let _ = self.next_semantic_persist_epoch();
        let _ = self.next_callgraph_persist_epoch();
        self.search.resident = None;
        self.semantic.resident = false;
        self.callgraph.resident = None;
        self.semantic.status = status_at_rest(self.platform, self.config.semantic_search);
        if self.callgraph_writer() {
            let _ = self.mark_callgraph_store_force_rebuild();
        }
        self.borrowed_index_cache.clear();
        match &self.role.canonical_cache_root {
            Some(root) => Some(root.clone()),
            None => match &self.config.project_root {
                Some(root) => Some(root.clone()),
                None => None,
            },
        }
    }

    /// Whether artifacts must stay.
    pub fn artifact_eviction_blocked(&self, facts: EvictionFacts) -> (blocked: bool)
        ensures
            blocked == eviction_blocked(*self, facts),
    {
        if self.role.standing_artifact_exempt {
            return true;
        }
        let semantic_in_flight = match &self.semantic.status {
            SemanticIndexStatus::Building { .. } => true,
            SemanticIndexStatus::Ready { refreshing, .. } => refreshing.len() > 0,
            _ => false,
        };
        if facts.build_in_flight || semantic_in_flight || facts.tier2_in_flight
            || facts.running_bash_tasks > 0 || !self.pending.callgraph.is_empty()
            || !self.pending.search.is_empty() || !self.pending.tier2.is_empty()
            || !self.pending.semantic.is_empty() || self.pending.corpus_refresh {
            return true;
        }
        match self.search.resident {
            Some(index) => index.pending_disk_changes,
            None => false,
        }
    }

    /// Drops the artifacts of an idle root and answers whether it did; what is on disk stays,
    /// and the next use loads it again. The application then drops its scan, symbol and
    /// project-membership caches.
    pub fn evict_idle_artifacts(&mut self, facts: EvictionFacts) -> (evicted: bool)
        ensures
            evicted == !eviction_blocked(*old(self), facts),
            if evicted {
                &&& *final(self) == (AppContext {
                    callgraph: CallgraphSlots { resident: None, ..old(self).callgraph },
                    search: SearchSlots { resident: None, ..old(self).search },
                    semantic: SemanticSlots { resident: false, ..old(self).semantic },
                    borrowed_index_cache: final(self).borrowed_index_cache,
                    ..*old(self)
                })
                &&& final(self).borrowed_index_cache.deep_view() == (
                borrowed_cache::BorrowedCacheView {
                    platform: old(self).borrowed_index_cache.platform,
                    entries: Seq::empty(),
                    resolved_roots: Seq::empty(),
                })
            } else {
                *final(self) == *old(self)
            },
    {
        if self.artifact_eviction_blocked(facts) {
            return false;
        }
        self.callgraph.resident = None;
        self.search.resident = None;
        self.semantic.resident = false;
        self.borrowed_index_cache.clear();
        true
    }

    /// Whether a completed piece of work may wait to be taken up.
    pub fn completion_drains_have_work(&self, probes: DrainProbes) -> (yes: bool)
        ensures
            yes == drains_have_work(*self, probes),
    {
        match (
            probes.search_events,
            probes.callgraph_events,
            probes.semantic_events,
            probes.refresh_events,
            probes.refresh_worker_finished,
        ) {
            (Some(search), Some(callgraph), Some(semantic), Some(refresh), Some(finished)) => {
                if self.search.receiver.present && (search || self.search.terminal_epoch
                    == self.search.receiver.epoch) {
                    return true;
                }
                if self.callgraph.receiver.present && callgraph {
                    return true;
                }
                if self.semantic.receiver.present && (semantic || self.semantic.terminal_epoch
                    == self.semantic.receiver.epoch) {
                    return true;
                }
                if self.semantic.refresh.receiver.present && (refresh
                    || self.semantic_refresh_probe_ready()) {
                    return true;
                }
                if self.semantic.refresh.worker && finished {
                    return true;
                }
            },
            _ => {
                return true;
            },
        }
        probes.inspect_completions || self.has_new_reuse_completions(probes.reuse_completions)
    }
}

/// The slots with a new refresh worker.
pub open spec fn with_worker(
    slots: SemanticSlots,
    generation: u64,
    build_epoch: u64,
) -> SemanticSlots {
    let cleared = without_refresh_worker(slots);
    SemanticSlots {
        refresh: RefreshWorkerSlot {
            sender: true,
            receiver: cleared.refresh.receiver.with_receiver(generation),
            worker: true,
            build_epoch,
        },
        ..cleared
    }
}

/// The attempts without those of some paths.
pub open spec fn attempts_without(
    platform: Platform,
    attempts: Seq<(Seq<char>, usize)>,
    paths: Seq<Seq<char>>,
) -> Seq<(Seq<char>, usize)>
    decreases paths.len(),
{
    if paths.len() == 0 {
        attempts
    } else {
        path_map::path_remove(
            platform,
            attempts_without(platform, attempts, paths.drop_last()),
            paths.last(),
        )
    }
}

/// Losing the route loses no edit: every path that waited for the semantic index still waits,
/// and so does every file that was being embedded again.
pub proof fn law_cancelled_refreshes_wait(
    platform: Platform,
    pending: Seq<Seq<char>>,
    status: SemanticIndexStatus,
    path: Seq<char>,
)
    requires
        path_set::is_path_set(platform, pending),
        path_set::has_path(platform, pending, path) || path_set::has_path(
            platform,
            refreshing_files(status),
            path,
        ),
    ensures
        path_set::has_path(
            platform,
            path_set::with_paths(platform, pending, refreshing_files(status)),
            path,
        ),
{
    path_set::law_added_paths_are_members(platform, pending, refreshing_files(status));
}

/// A worker of the time before the route was lost delivers nothing that counts afterwards,
/// whatever it was working on and even if a route is found again.
pub proof fn law_cancelled_workers_are_not_current(
    search: SearchSlots,
    slots: SemanticSlots,
    admission: lifecycle::SubcLifecycleAdmission,
    generation: u64,
)
    ensures
        !search_cancelled(search).receiver.awaits(admission, generation, search.receiver.epoch),
        !slots.receiver.retired().awaits(admission, generation, slots.receiver.epoch),
        !without_refresh_worker(slots).refresh.receiver.awaits(
            admission,
            generation,
            slots.refresh.receiver.epoch,
        ),
{
}

/// An index that was ready stays resident when work is cancelled.
pub proof fn law_ready_search_index_survives_cancellation(slots: SearchSlots)
    requires
        slots.resident matches Some(index) && index.ready,
    ensures
        search_cancelled(slots).resident == slots.resident,
{
}

/// A probe that was scheduled before its worker was replaced never becomes ready.
pub proof fn law_replaced_worker_has_no_probe(slots: SemanticSlots, generation: u64, epoch: u64)
    ensures
        !with_worker(slots, generation, epoch).circuit.probe_ready,
        !with_worker(slots, generation, epoch).circuit.probe_in_flight,
        with_worker(slots, generation, epoch).circuit.probe_token != slots.circuit.probe_token,
{
}

/// Retries are stopped by as many failures in a row as the threshold, and go on after one
/// success.
pub proof fn law_circuit_opens_at_threshold_and_closes_on_success(
    circuit: SemanticRefreshCircuit,
    trip_threshold: usize,
)
    requires
        circuit.consecutive_transient_failures < usize::MAX,
        !circuit.open,
    ensures
        failure_recorded(circuit, trip_threshold).open <==> circuit.consecutive_transient_failures
            + 1 >= trip_threshold,
        !circuit_closed(failure_recorded(circuit, trip_threshold)).open,
        circuit_closed(circuit).consecutive_transient_failures == 0,
{
}

/// A root with unsaved work, work under way or paths that wait keeps its artifacts.
pub proof fn law_unsaved_work_blocks_eviction(context: AppContext, facts: EvictionFacts)
    ensures
        paths_pending(context.pending) ==> eviction_blocked(context, facts),
        facts.running_bash_tasks > 0 ==> eviction_blocked(context, facts),
        (context.search.resident matches Some(index) && index.pending_disk_changes)
            ==> eviction_blocked(context, facts),
{
}

/// A read-only root writes nothing at shutdown, nor does one whose index has nothing to write.
pub proof fn law_readonly_root_flushes_nothing(context: AppContext, waited: bool)
    ensures
        !context.role.callgraph_writer ==> flush_step(context, waited) == FlushStep::Skip,
        flush_step(context, waited) == FlushStep::Write ==> flushable(context.search)
            && context.role.callgraph_writer,
        flush_step(context, true) != FlushStep::AwaitBuild,
{
}

/// While the cold-seed gate is closed no build of the callgraph store is started, and the one
/// that was wanted is noted; once it was opened, that build is started.
pub proof fn law_held_back_build_is_resumed(context: AppContext, ticket: callgraph::OpsTicket)
    requires
        context.semantic.seed.active,
    ensures
        ({
            let (held, step) = callgraph::cold_build_step(context, ticket);
            let open = seed_opened(held);
            &&& step == callgraph::answer(callgraph::CallgraphStoreAccess::Building)
            &&& held.callgraph == context.callgraph
            &&& held.semantic.seed.callgraph_warm_deferred
            &&& !open.semantic.seed.active
            &&& !open.semantic.seed.callgraph_warm_deferred
            &&& callgraph::cold_build_step(open, ticket).1 is Spawn
        }),
{
}

} // verus!
