//! What the state of the search and semantic indexes promises as a whole.

use vstd::prelude::*;

use crate::artifacts;
use crate::artifacts::{DrainProbes, EvictionFacts, FlushStep};
use crate::config::Platform;
use crate::context::{
    AppContext, ColdSeedGate, SearchSlots, SemanticRefreshCircuit, SemanticSlots,
};
use crate::lifecycle;
use crate::path_map;
use crate::path_set;
use crate::path_text::components;
use crate::semantic_status::{SemanticIndexStatus, SemanticStatusView};

verus! {

/// Artifacts stay exactly where the root is standing, work on any of them or a command is under
/// way, a path or the corpus waits, or the search index has changes that are not on disk.
pub proof fn law_idle_artifacts_are_evicted(context: AppContext, facts: EvictionFacts)
    ensures
        ({
            let pending = context.pending;
            let refreshing = context.semantic.status.deep_view() matches SemanticStatusView::Ready {
                refreshing,
                ..
            } && refreshing.len() > 0;
            artifacts::eviction_blocked(context, facts) <==> {
                ||| context.role.standing_artifact_exempt
                ||| facts.build_in_flight
                ||| facts.tier2_in_flight
                ||| facts.running_bash_tasks != 0
                ||| context.semantic.status is Building
                ||| refreshing
                ||| pending.callgraph.deep_view().len() > 0
                ||| pending.search.deep_view().len() > 0
                ||| pending.tier2.deep_view().len() > 0
                ||| pending.semantic.deep_view().len() > 0
                ||| pending.corpus_refresh
                ||| context.search.resident matches Some(index) && index.pending_disk_changes
            }
        }),
{
}

/// There is nothing to drain only where every slot could be looked at and none of them holds an
/// event, an ended worker or a probe that waits, and no completion is new.
pub proof fn law_completions_are_never_skipped(context: AppContext, probes: DrainProbes)
    ensures
        ({
            let work = artifacts::drains_have_work(context, probes);
            let search = context.search;
            let semantic = context.semantic;
            let refresh = context.semantic.refresh;
            &&& probes.search_events is None ==> work
            &&& probes.callgraph_events is None ==> work
            &&& probes.semantic_events is None ==> work
            &&& probes.refresh_events is None ==> work
            &&& probes.refresh_worker_finished is None ==> work
            &&& probes.inspect_completions ==> work
            &&& probes.reuse_completions != context.last_seen_reuse_completions ==> work
            &&& search.receiver.present && probes.search_events == Some(true) ==> work
            &&& search.receiver.present && search.terminal_epoch == search.receiver.epoch ==> work
            &&& context.callgraph.receiver.present && probes.callgraph_events == Some(true) ==> work
            &&& semantic.receiver.present && probes.semantic_events == Some(true) ==> work
            &&& semantic.receiver.present && semantic.terminal_epoch == semantic.receiver.epoch
                ==> work
            &&& refresh.receiver.present && probes.refresh_events == Some(true) ==> work
            &&& refresh.receiver.present && semantic.circuit.probe_ready ==> work
            &&& refresh.worker && probes.refresh_worker_finished == Some(true) ==> work
            &&& (probes.search_events == Some(false) && probes.callgraph_events == Some(false)
                && probes.semantic_events == Some(false) && probes.refresh_events == Some(false)
                && probes.refresh_worker_finished == Some(false) && !probes.inspect_completions
                && probes.reuse_completions == context.last_seen_reuse_completions
                && search.terminal_epoch != search.receiver.epoch && semantic.terminal_epoch
                != semantic.receiver.epoch && !semantic.circuit.probe_ready) ==> !work
            &&& (!search.receiver.present && !context.callgraph.receiver.present
                && !semantic.receiver.present && !refresh.receiver.present && !refresh.worker
                && probes.search_events is Some && probes.callgraph_events is Some
                && probes.semantic_events is Some && probes.refresh_events is Some
                && probes.refresh_worker_finished is Some && !probes.inspect_completions
                && probes.reuse_completions == context.last_seen_reuse_completions) ==> !work
        }),
{
}

/// At an orderly shutdown a writer first waits for a build in flight, once, and then writes exactly
/// where its root is known and its index is ready and has changes that are not on disk.
pub proof fn law_writer_flushes_unsaved_changes(context: AppContext, waited: bool)
    ensures
        ({
            let step = artifacts::flush_step(context, waited);
            let writer = context.role.callgraph_writer;
            let building = context.search.receiver.present;
            let unsaved = context.search.resident matches Some(index) && index.ready
                && index.pending_disk_changes;
            &&& step == FlushStep::AwaitBuild <==> writer && building && !waited
            &&& step == FlushStep::Write <==> writer && !building && unsaved
                && context.role.canonical_cache_root is Some
            &&& artifacts::flushable(context.search) <==> unsaved
        }),
{
}

/// Losing the route drops the receiver of the search worker, and with it a resident index that was
/// being built and is not ready; nothing else of the search slots changes.
pub proof fn law_cancelled_search_build_is_forgotten(slots: SearchSlots)
    ensures
        ({
            let out = artifacts::search_cancelled(slots);
            let half_built = slots.receiver.present && (slots.resident matches Some(index)
                && !index.ready);
            &&& !out.receiver.present
            &&& out.receiver.epoch != slots.receiver.epoch
            &&& half_built ==> out.resident is None
            &&& !half_built ==> out.resident == slots.resident
            &&& out.terminal_epoch == slots.terminal_epoch
            &&& out.persist_epoch == slots.persist_epoch
            &&& out.reschedule_generation == slots.reschedule_generation
            &&& out.reschedules == slots.reschedules
        }),
{
}

/// Losing the route cancels semantic work exactly where a build or a refresh worker is there. What
/// a status says is refreshing is what it lists, and only a refresh of the whole corpus counts as
/// one.
pub proof fn law_cancelled_semantic_work(slots: SemanticSlots, status: SemanticIndexStatus)
    ensures
        artifacts::semantic_work_cancelled(slots) <==> slots.receiver.present
            || slots.refresh.receiver.present,
        status.deep_view() matches SemanticStatusView::Ready { refreshing, .. }
            ==> artifacts::refreshing_files(status) == refreshing,
        !(status is Ready) ==> artifacts::refreshing_files(status).len() == 0,
        artifacts::corpus_refreshing(status) <==> (status matches SemanticIndexStatus::Building {
            stage,
            ..
        } && stage@ == "refreshing_corpus"@),
{
}

/// An index that is at rest is ready with nothing refreshing where it can be queried, and switched
/// off where it cannot.
pub proof fn law_resting_index_has_nothing_to_do(platform: Platform, queryable: bool)
    ensures
        ({
            let status = artifacts::resting_status(platform, queryable);
            &&& queryable ==> status is Ready
            &&& queryable ==> status->refreshing.len() == 0
            &&& queryable ==> status->accounting.dom() =~= Set::empty()
            &&& queryable ==> status->platform == platform
            &&& !queryable ==> status is Disabled
        }),
{
}

/// Removing the refresh worker leaves neither sender, receiver nor worker, forgets its build, and
/// invalidates its probe; whatever it still delivers no longer counts. Nothing else changes.
pub proof fn law_removed_worker_leaves_nothing(
    slots: SemanticSlots,
    admission: lifecycle::SubcLifecycleAdmission,
    generation: u64,
)
    ensures
        ({
            let out = artifacts::without_refresh_worker(slots);
            &&& !out.refresh.sender
            &&& !out.refresh.worker
            &&& !out.refresh.receiver.present
            &&& out.refresh.build_epoch == 0
            &&& out.refresh.receiver.epoch != slots.refresh.receiver.epoch
            &&& !out.refresh.receiver.awaits(admission, generation, slots.refresh.receiver.epoch)
            &&& !out.circuit.probe_ready
            &&& !out.circuit.probe_in_flight
            &&& out.circuit.probe_token != slots.circuit.probe_token
            &&& out.circuit.open == slots.circuit.open
            &&& out.circuit.consecutive_transient_failures
                == slots.circuit.consecutive_transient_failures
            &&& out.resident == slots.resident
            &&& out.status == slots.status
            &&& out.receiver == slots.receiver
            &&& out.seed == slots.seed
            &&& out.retry_attempts == slots.retry_attempts
            &&& out.persist_epoch == slots.persist_epoch
            &&& out.build_epoch == slots.build_epoch
            &&& out.progress == slots.progress
        }),
{
}

/// A worker that is installed is there with its sender and its receiver, for the generation and
/// the build that it was installed for; its results count, and those of the worker before do not.
pub proof fn law_installed_worker_is_awaited(
    slots: SemanticSlots,
    generation: u64,
    build_epoch: u64,
    admission: lifecycle::SubcLifecycleAdmission,
)
    requires
        slots.refresh.receiver.epoch < u64::MAX - 2,
    ensures
        ({
            let out = artifacts::with_worker(slots, generation, build_epoch);
            &&& out.refresh.sender
            &&& out.refresh.worker
            &&& out.refresh.receiver.present
            &&& out.refresh.build_epoch == build_epoch
            &&& admission.admits(generation) ==> out.refresh.receiver.awaits(
                admission,
                generation,
                out.refresh.receiver.epoch,
            )
            &&& !out.refresh.receiver.awaits(
                admission,
                generation,
                slots.refresh.receiver.epoch,
            )
            &&& out.status == slots.status
            &&& out.receiver == slots.receiver
            &&& out.seed == slots.seed
            &&& out.resident == slots.resident
        }),
{
}

/// A new configuration opens the cold-seed gate, forgets what it held back and starts a new
/// generation of its worker; opening it otherwise keeps the generation.
pub proof fn law_cold_seed_gate_opens(seed: ColdSeedGate, context: AppContext)
    ensures
        ({
            let out = artifacts::seed_reset(seed);
            &&& !out.active
            &&& !out.callgraph_warm_deferred
            &&& out.generation != seed.generation
        }),
        ({
            let out = artifacts::seed_opened(context);
            &&& !out.semantic.seed.active
            &&& !out.semantic.seed.callgraph_warm_deferred
            &&& out.semantic.seed.generation == context.semantic.seed.generation
            &&& out.semantic.status == context.semantic.status
            &&& out.semantic.receiver == context.semantic.receiver
            &&& out.semantic.refresh == context.semantic.refresh
            &&& out.callgraph == context.callgraph
            &&& out.search == context.search
            &&& out.pending == context.pending
            &&& out.config == context.config
            &&& out.role == context.role
            &&& out.lifecycle == context.lifecycle
        }),
{
}

/// Each failure that may pass is counted; at the threshold retries stop, and they stay stopped
/// until a success, which also takes back a probe that waits. A success leaves a probe that is
/// under way.
pub proof fn law_circuit_counts_failures(
    circuit: SemanticRefreshCircuit,
    trip_threshold: usize,
)
    ensures
        ({
            let out = artifacts::failure_recorded(circuit, trip_threshold);
            &&& circuit.consecutive_transient_failures < usize::MAX
                ==> out.consecutive_transient_failures == circuit.consecutive_transient_failures + 1
            &&& circuit.open ==> out.open
            &&& (!circuit.open && circuit.consecutive_transient_failures + 1 < trip_threshold)
                ==> !out.open
            &&& circuit.consecutive_transient_failures + 1 >= trip_threshold ==> out.open
            &&& out.probe_ready == circuit.probe_ready
            &&& out.probe_in_flight == circuit.probe_in_flight
            &&& out.probe_token == circuit.probe_token
        }),
        ({
            let out = artifacts::circuit_closed(circuit);
            &&& !out.open
            &&& out.consecutive_transient_failures == 0
            &&& !out.probe_ready
            &&& out.probe_in_flight == circuit.probe_in_flight
            &&& out.probe_token == circuit.probe_token
        }),
{
}

/// A probe is scheduled exactly where there is a worker and none waits or is under way.
pub proof fn law_one_probe_at_a_time(slots: SemanticSlots)
    ensures
        artifacts::probe_needed(slots) <==> slots.refresh.receiver.present
            && !slots.circuit.probe_ready && !slots.circuit.probe_in_flight,
{
}

/// Forgetting the retries of some paths forgets exactly theirs, in whatever spelling.
pub proof fn law_forgotten_retries(
    platform: Platform,
    attempts: Seq<(Seq<char>, usize)>,
    paths: Seq<Seq<char>>,
    query: Seq<char>,
)
    ensures
        path_map::path_get(
            platform,
            artifacts::attempts_without(platform, attempts, paths),
            components(platform, query),
        ) == (if path_set::has_path(platform, paths, query) {
            None
        } else {
            path_map::path_get(platform, attempts, components(platform, query))
        }),
    decreases paths.len(),
{
    if paths.len() > 0 {
        let front = paths.drop_last();
        let last = paths.last();
        law_forgotten_retries(platform, attempts, front, query);
        path_map::law_remove_then_get(
            platform,
            artifacts::attempts_without(platform, attempts, front),
            last,
            components(platform, query),
        );
        if path_set::has_path(platform, front, query) {
            let n = choose|n: int|
                0 <= n < front.len() && crate::path_text::same_path(
                    platform,
                    #[trigger] front[n],
                    query,
                );
            assert(crate::path_text::same_path(platform, paths[n], query));
        }
        if path_set::has_path(platform, paths, query) {
            let n = choose|n: int|
                0 <= n < paths.len() && crate::path_text::same_path(
                    platform,
                    #[trigger] paths[n],
                    query,
                );
            if n < front.len() {
                assert(crate::path_text::same_path(platform, front[n], query));
            }
        }
        if components(platform, query) == components(platform, last) {
            assert(crate::path_text::same_path(platform, paths[paths.len() - 1], query));
        }
    }
}

} // verus!
