//! What the attribution of memory promises as a whole.

use vstd::prelude::*;

use crate::json::JsonView;
use crate::memory;
use crate::memory::{
    Attributed, MemoryEstimate, MemoryEstimateView, ProcessMeasurementsView, RootMemoryRollupView,
    RootMemorySnapshotView,
};
use crate::root_memory;
use crate::root_memory::{Probe, RootMemoryProbes};
use crate::text;
use crate::text_laws;
use crate::text_map;

verus! {

/// A sum that fits is reported as it is, one that does not as the largest number; a difference
/// likewise, at both ends.
pub proof fn law_reported_amounts_saturate(sum: int, lhs: u64, rhs: u64)
    ensures
        0 <= sum <= u64::MAX ==> memory::saturated(sum) == sum,
        sum > u64::MAX ==> memory::saturated(sum) == u64::MAX,
        0 <= sum <= usize::MAX ==> memory::saturated_usize(sum) == sum,
        sum > usize::MAX ==> memory::saturated_usize(sum) == usize::MAX,
        i64::MIN <= lhs - rhs <= i64::MAX ==> memory::clamped_difference(lhs, rhs) == lhs - rhs,
        lhs - rhs > i64::MAX ==> memory::clamped_difference(lhs, rhs) == i64::MAX,
        lhs - rhs < i64::MIN ==> memory::clamped_difference(lhs, rhs) == i64::MIN,
{
}

/// The bytes of an estimate, none where they are unknown.
pub open spec fn known_bytes(estimate: MemoryEstimateView) -> int {
    match estimate.estimated_bytes {
        Some(bytes) => bytes as int,
        None => 0,
    }
}

proof fn lemma_sums_nonnegative(estimates: Seq<MemoryEstimateView>)
    ensures
        memory::bytes_sum(estimates) >= 0,
        0 <= memory::busy_count(estimates) <= estimates.len(),
        0 <= memory::unknown_count(estimates) <= estimates.len(),
    decreases estimates.len(),
{
    if estimates.len() > 0 {
        lemma_sums_nonnegative(estimates.drop_last());
    }
}

/// A root without subsystems holds nothing; one subsystem more adds its bytes where they are
/// known, counts as busy exactly where it says so, and as not estimated exactly where its bytes
/// are unknown. A root is busy where one of its subsystems is.
pub proof fn law_each_estimate_counts_once(
    estimates: Seq<MemoryEstimateView>,
    one: MemoryEstimateView,
)
    requires
        estimates.len() < usize::MAX,
    ensures
        ({
            let none = memory::rolled_up(Seq::<MemoryEstimateView>::empty());
            let before = memory::rolled_up(estimates);
            let after = memory::rolled_up(estimates.push(one));
            &&& none.status == "ready"@
            &&& none.attributed_bytes == 0
            &&& none.busy_subsystems == 0
            &&& none.not_estimated_subsystems == 0
            &&& before.attributed_bytes + known_bytes(one) <= u64::MAX ==> after.attributed_bytes
                == before.attributed_bytes + known_bytes(one)
            &&& before.attributed_bytes + known_bytes(one) > u64::MAX ==> after.attributed_bytes
                == u64::MAX
            &&& one.status == "busy"@ ==> after.busy_subsystems == before.busy_subsystems + 1
                && after.status == "busy"@
            &&& one.status != "busy"@ ==> after.busy_subsystems == before.busy_subsystems
                && after.status == before.status
            &&& one.estimated_bytes is None ==> after.not_estimated_subsystems
                == before.not_estimated_subsystems + 1
            &&& one.estimated_bytes is Some ==> after.not_estimated_subsystems
                == before.not_estimated_subsystems
            &&& after.standing is None
        }),
{
    assert(estimates.push(one).drop_last() =~= estimates);
    lemma_sums_nonnegative(estimates);
}

/// The bytes that a probe found.
pub open spec fn probe_bytes(probe: Probe) -> int {
    match probe {
        Probe::Present(found) => known_bytes(found.deep_view()),
        _ => 0,
    }
}

/// The bytes that were found where a subsystem was not busy.
pub open spec fn found_bytes(found: Option<MemoryEstimate>) -> int {
    match found {
        Some(found) => known_bytes(found.deep_view()),
        None => 0,
    }
}

/// Whether a report of a subsystem says what its probe found: its own estimate where it is
/// resident, that it is busy where it was, and no bytes where there is nothing.
pub open spec fn tells_of(report: MemoryEstimateView, probe: Probe, counted: Seq<char>) -> bool {
    match probe {
        Probe::Present(found) => report == found.deep_view(),
        Probe::Busy => report.status == "busy"@ && report.estimated_bytes is None,
        Probe::Absent => report.status == "ready"@ && report.estimated_bytes == Some(0u64)
            && text_map::map_get(report.counts, counted) == Some(0u64),
    }
}

/// Whether a report of a subsystem that always has an estimate says what was found.
pub open spec fn tells_of_found(
    report: MemoryEstimateView,
    found: Option<MemoryEstimate>,
) -> bool {
    match found {
        Some(found) => report == found.deep_view(),
        None => report.status == "busy"@ && report.estimated_bytes is None,
    }
}

/// The bytes that all probes of a root found.
pub open spec fn all_probed_bytes(probes: RootMemoryProbes) -> int {
    probe_bytes(probes.semantic) + probe_bytes(probes.trigram) + found_bytes(probes.symbols)
        + probe_bytes(probes.callgraph) + known_bytes(probes.callgraph_projection.deep_view())
        + known_bytes(probes.inspect.deep_view()) + known_bytes(probes.bash.deep_view())
        + found_bytes(probes.lsp)
}

/// The memory of a root is reported subsystem by subsystem, each as it was probed, and its total is
/// what all probes found together.
pub proof fn law_root_is_reported_as_it_was_probed(
    probes: RootMemoryProbes,
    root: RootMemorySnapshotView,
)
    requires
        memory::root_estimates(root) == root_memory::estimates_of(probes),
        root.status == memory::rolled_up(root_memory::estimates_of(probes)).status,
        root.attributed_bytes == memory::rolled_up(
            root_memory::estimates_of(probes),
        ).attributed_bytes,
    ensures
        tells_of(root.semantic, probes.semantic, "entries"@),
        tells_of(root.trigram, probes.trigram, "files"@),
        tells_of_found(root.symbols, probes.symbols),
        tells_of(root.callgraph, probes.callgraph, "open_generation_handles"@),
        root.callgraph_projection == probes.callgraph_projection.deep_view(),
        root.inspect == probes.inspect.deep_view(),
        root.bash == probes.bash.deep_view(),
        tells_of_found(root.lsp, probes.lsp),
        root.parser_pool.estimated_bytes is None,
        root.parser_pool.status == "ready"@,
        all_probed_bytes(probes) <= u64::MAX ==> root.attributed_bytes == all_probed_bytes(probes),
        all_probed_bytes(probes) > u64::MAX ==> root.attributed_bytes == u64::MAX,
{
    let listed = memory::root_estimates(root);
    let probed = root_memory::estimates_of(probes);
    assert(listed[0] == probed[0]);
    assert(listed[1] == probed[1]);
    assert(listed[2] == probed[2]);
    assert(listed[3] == probed[3]);
    assert(listed[4] == probed[4]);
    assert(listed[5] == probed[5]);
    assert(listed[6] == probed[6]);
    assert(listed[7] == probed[7]);
    assert(listed[8] == probed[8]);
    let none = Seq::<(Seq<char>, u64)>::empty();
    text_map::law_put_then_get(none, "entries"@, 0u64, "entries"@);
    text_map::law_put_then_get(none, "files"@, 0u64, "files"@);
    text_map::law_put_then_get(
        none,
        "open_generation_handles"@,
        0u64,
        "open_generation_handles"@,
    );
    lemma_nine_bytes(probed);
}

proof fn lemma_nine_bytes(estimates: Seq<MemoryEstimateView>)
    requires
        estimates.len() == 9,
    ensures
        memory::bytes_sum(estimates) == known_bytes(estimates[0]) + known_bytes(estimates[1])
            + known_bytes(estimates[2]) + known_bytes(estimates[3]) + known_bytes(estimates[4])
            + known_bytes(estimates[5]) + known_bytes(estimates[6]) + known_bytes(estimates[7])
            + known_bytes(estimates[8]),
{
    lemma_bytes_at(estimates, 9);
    lemma_bytes_at(estimates, 8);
    lemma_bytes_at(estimates, 7);
    lemma_bytes_at(estimates, 6);
    lemma_bytes_at(estimates, 5);
    lemma_bytes_at(estimates, 4);
    lemma_bytes_at(estimates, 3);
    lemma_bytes_at(estimates, 2);
    lemma_bytes_at(estimates, 1);
    assert(estimates.take(9) =~= estimates);
    assert(estimates.take(0) =~= Seq::<MemoryEstimateView>::empty());
}

proof fn lemma_bytes_at(estimates: Seq<MemoryEstimateView>, n: int)
    requires
        0 < n <= estimates.len(),
    ensures
        memory::bytes_sum(estimates.take(n)) == memory::bytes_sum(estimates.take(n - 1))
            + known_bytes(estimates[n - 1]),
{
    assert(estimates.take(n).drop_last() =~= estimates.take(n - 1));
}

/// The roots of the process are the registered ones, each with its own snapshot, and the current
/// one where it is not among them.
pub proof fn law_every_root_is_listed(
    registered: Seq<(Seq<char>, RootMemorySnapshotView)>,
    label: Seq<char>,
    current: RootMemorySnapshotView,
    name: Seq<char>,
)
    requires
        memory::names_distinct(registered),
    ensures
        ({
            let roots = root_memory::roots_with_current(registered, label, current);
            let own = text_map::map_get(registered, name);
            &&& own is Some ==> text_map::map_get(roots, name) == own
            &&& own is None && name == label ==> text_map::map_get(roots, name) == Some(current)
            &&& own is None && name != label ==> text_map::map_get(roots, name) is None
        }),
{
    let all = text_map::map_put_all(Seq::empty(), registered);
    lemma_put_all_reads(Seq::empty(), registered, name);
    lemma_put_all_reads(Seq::empty(), registered, label);
    text_map::law_put_then_get(all, label, current, name);
}

/// With distinct names, a key reads as the pairs that were put in last say, else as before.
pub(crate) proof fn lemma_put_all_reads<V>(
    pairs: Seq<(Seq<char>, V)>,
    more: Seq<(Seq<char>, V)>,
    key: Seq<char>,
)
    requires
        memory::names_distinct(more),
    ensures
        text_map::map_get(text_map::map_put_all(pairs, more), key) == (match text_map::map_get(
            more,
            key,
        ) {
            Some(value) => Some(value),
            None => text_map::map_get(pairs, key),
        }),
    decreases more.len(),
{
    if more.len() > 0 {
        let front = more.drop_last();
        let last = more.last();
        assert(memory::names_distinct(front)) by {
            assert forall|i: int, j: int| 0 <= i < j < front.len() implies (#[trigger] front[i]).0
                != (#[trigger] front[j]).0 by {
                assert(more[i].0 != more[j].0);
            }
        }
        lemma_put_all_reads(pairs, front, key);
        let before = text_map::map_put_all(pairs, front);
        text_map::law_put_then_get(before, last.0, last.1, key);
        text_map::lemma_get_push(front, last, key);
        assert(front.push(last) =~= more);
        if key == last.0 {
            assert forall|i: int| 0 <= i < front.len() implies (#[trigger] front[i]).0 != key by {
                assert(more[i].0 != more[more.len() - 1].0);
            }
            lemma_unnamed_reads_nothing(front, key);
        }
    }
}

proof fn lemma_unnamed_reads_nothing<V>(pairs: Seq<(Seq<char>, V)>, key: Seq<char>)
    requires
        forall|i: int| 0 <= i < pairs.len() ==> (#[trigger] pairs[i]).0 != key,
    ensures
        text_map::map_get(pairs, key) is None,
    decreases pairs.len(),
{
    if pairs.len() > 0 {
        let rest = pairs.drop_first();
        assert(pairs[0].0 != key);
        assert forall|i: int| 0 <= i < rest.len() implies (#[trigger] rest[i]).0 != key by {
            assert(rest[i] == pairs[i + 1]);
        }
        lemma_unnamed_reads_nothing(rest, key);
    }
}

proof fn lemma_put_contains<V>(
    pairs: Seq<(Seq<char>, V)>,
    key: Seq<char>,
    value: V,
    one: (Seq<char>, V),
)
    requires
        text_map::map_get(pairs, key) is None,
    ensures
        text_map::map_put(pairs, key, value).contains(one) <==> pairs.contains(one) || one == (
            key,
            value,
        ),
    decreases pairs.len(),
{
    let out = text_map::map_put(pairs, key, value);
    if pairs.len() == 0 {
        assert(out[0] == (key, value));
    } else if text::text_less(key, pairs[0].0) {
        assert(out =~= seq![(key, value)] + pairs);
        assert(out[0] == (key, value));
        if pairs.contains(one) {
            let n = choose|n: int| 0 <= n < pairs.len() && pairs[n] == one;
            assert(out[n + 1] == one);
        }
        if out.contains(one) {
            let n = choose|n: int| 0 <= n < out.len() && out[n] == one;
            if n > 0 {
                assert(pairs[n - 1] == one);
            }
        }
    } else {
        let rest = pairs.drop_first();
        let inner = text_map::map_put(rest, key, value);
        lemma_put_contains(rest, key, value, one);
        assert(out =~= seq![pairs[0]] + inner);
        if pairs.contains(one) {
            let n = choose|n: int| 0 <= n < pairs.len() && pairs[n] == one;
            if n > 0 {
                assert(rest[n - 1] == one);
                let m = choose|m: int| 0 <= m < inner.len() && inner[m] == one;
                assert(out[m + 1] == one);
            } else {
                assert(out[0] == one);
            }
        }
        if one == (key, value) {
            let m = choose|m: int| 0 <= m < inner.len() && inner[m] == one;
            assert(out[m + 1] == one);
        }
        if out.contains(one) {
            let n = choose|n: int| 0 <= n < out.len() && out[n] == one;
            if n > 0 {
                assert(inner[n - 1] == one);
                if one != (key, value) {
                    let m = choose|m: int| 0 <= m < rest.len() && rest[m] == one;
                    assert(pairs[m + 1] == one);
                }
            } else {
                assert(pairs[0] == one);
            }
        }
    }
}

proof fn lemma_put_all_contains<V>(more: Seq<(Seq<char>, V)>, one: (Seq<char>, V))
    requires
        memory::names_distinct(more),
    ensures
        text_map::map_put_all(Seq::empty(), more).contains(one) <==> more.contains(one),
    decreases more.len(),
{
    if more.len() > 0 {
        let front = more.drop_last();
        let last = more.last();
        assert(memory::names_distinct(front)) by {
            assert forall|i: int, j: int| 0 <= i < j < front.len() implies (#[trigger] front[i]).0
                != (#[trigger] front[j]).0 by {
                assert(more[i].0 != more[j].0);
            }
        }
        lemma_put_all_contains(front, one);
        let before = text_map::map_put_all(Seq::<(Seq<char>, V)>::empty(), front);
        lemma_put_all_reads(Seq::<(Seq<char>, V)>::empty(), front, last.0);
        assert forall|i: int| 0 <= i < front.len() implies (#[trigger] front[i]).0 != last.0 by {
            assert(more[i].0 != more[more.len() - 1].0);
        }
        lemma_unnamed_reads_nothing(front, last.0);
        lemma_put_contains(before, last.0, last.1, one);
        if more.contains(one) {
            let n = choose|n: int| 0 <= n < more.len() && more[n] == one;
            if n < front.len() {
                assert(front[n] == one);
            }
        }
        if front.contains(one) {
            let n = choose|n: int| 0 <= n < front.len() && front[n] == one;
            assert(more[n] == one);
        }
        if one == last {
            assert(more[more.len() - 1] == one);
        }
    }
}

/// The cap keeps the heaviest roots: what is kept is among the roots, in the order of the names
/// where any is omitted, and no omitted root weighs more than a kept one, or as much under an
/// earlier name.
pub proof fn law_cap_keeps_the_heaviest_roots<T: Attributed>(
    roots: Seq<(Seq<char>, <T as DeepView>::V)>,
    cap: nat,
)
    requires
        memory::names_distinct(roots),
    ensures
        ({
            let (kept, omitted, _) = memory::capped::<T>(roots, cap);
            &&& kept.len() == (if roots.len() < cap {
                roots.len()
            } else {
                cap
            })
            &&& omitted == roots.len() - kept.len()
            &&& omitted > 0 ==> text_map::keys_in_order(kept)
            &&& forall|i: int| 0 <= i < kept.len() ==> roots.contains(#[trigger] kept[i])
            &&& forall|i: int, j: int|
                0 <= i < kept.len() && 0 <= j < roots.len() && !kept.contains(roots[j]) ==> {
                    &&& T::weight((#[trigger] kept[i]).1) >= T::weight((#[trigger] roots[j]).1)
                    &&& T::weight(kept[i].1) == T::weight(roots[j].1) ==> !text::text_less(
                        roots[j].0,
                        kept[i].0,
                    )
                }
        }),
{
    let (kept, omitted, _) = memory::capped::<T>(roots, cap);
    if roots.len() > cap {
        let ranking = memory::ranked::<T>(roots);
        let top = ranking.take(cap as int);
        memory::law_ranking_orders_all_roots::<T>(roots);
        memory::lemma_ranked_keeps::<T>(roots);
        assert(memory::names_distinct(top)) by {
            assert forall|i: int, j: int| 0 <= i < j < top.len() implies (#[trigger] top[i]).0 != (
            #[trigger] top[j]).0 by {
                assert(ranking[i].0 != ranking[j].0);
            }
        }
        memory::lemma_weight_of_put_all::<T>(top);
        text_map::law_put_all_keeps_order(Seq::<(Seq<char>, <T as DeepView>::V)>::empty(), top);
        assert forall|i: int| 0 <= i < kept.len() implies {
            &&& roots.contains(#[trigger] kept[i])
            &&& top.contains(kept[i])
        } by {
            assert(kept.contains(kept[i]));
            lemma_put_all_contains(top, kept[i]);
            let n = choose|n: int| 0 <= n < top.len() && top[n] == kept[i];
            assert(ranking[n] == kept[i]);
        }
        assert forall|i: int, j: int|
            0 <= i < kept.len() && 0 <= j < roots.len() && !kept.contains(roots[j]) implies {
            &&& T::weight((#[trigger] kept[i]).1) >= T::weight((#[trigger] roots[j]).1)
            &&& T::weight(kept[i].1) == T::weight(roots[j].1) ==> !text::text_less(
                roots[j].0,
                kept[i].0,
            )
        } by {
            let n = choose|n: int| 0 <= n < top.len() && top[n] == kept[i];
            assert(roots.contains(roots[j]));
            lemma_ranking_holds::<T>(roots, roots[j]);
            let m = choose|m: int| 0 <= m < ranking.len() && ranking[m] == roots[j];
            if m < cap {
                assert(top[m] == roots[j]);
                lemma_put_all_contains(top, roots[j]);
            }
            assert(!memory::ranks_before::<T>(ranking[m], ranking[n]));
        }
    } else {
        assert forall|i: int| 0 <= i < kept.len() implies roots.contains(#[trigger] kept[i]) by {
            assert(roots[i] == kept[i]);
        }
        assert forall|j: int| 0 <= j < roots.len() implies kept.contains(#[trigger] roots[j]) by {
            assert(kept[j] == roots[j]);
        }
    }
}

proof fn lemma_ranking_holds<T: Attributed>(
    roots: Seq<(Seq<char>, <T as DeepView>::V)>,
    one: (Seq<char>, <T as DeepView>::V),
)
    requires
        roots.contains(one),
    ensures
        memory::ranked::<T>(roots).contains(one),
{
    broadcast use vstd::seq_lib::group_to_multiset_ensures;

    memory::law_ranking_orders_all_roots::<T>(roots);
    assert(roots.to_multiset().count(one) > 0);
    assert(memory::ranked::<T>(roots).to_multiset().count(one) > 0);
}

proof fn lemma_root_sums_nonnegative(roots: Seq<RootMemoryRollupView>)
    ensures
        memory::root_bytes_sum(roots) >= 0,
        memory::root_busy_sum(roots) >= 0,
        memory::root_unknown_sum(roots) >= 0,
    decreases roots.len(),
{
    if roots.len() > 0 {
        lemma_root_sums_nonnegative(roots.drop_last());
    }
}

/// Without roots, what is attributed is the shared semantic data and what SQLite uses; each root
/// more adds its own bytes and its own busy and unknown subsystems.
pub proof fn law_each_root_counts_once(
    roots: Seq<RootMemoryRollupView>,
    one: RootMemoryRollupView,
    root_count: usize,
    shared: MemoryEstimateView,
    measured: ProcessMeasurementsView,
)
    ensures
        ({
            let none = memory::process_attributed(
                Seq::<RootMemoryRollupView>::empty(),
                root_count,
                shared,
                measured,
            );
            let before = memory::process_attributed(roots, root_count, shared, measured);
            let after = memory::process_attributed(roots.push(one), root_count, shared, measured);
            let start = known_bytes(shared) + measured.sqlite.memory_used_bytes;
            &&& none.total_attributed_bytes == (if start > u64::MAX {
                u64::MAX as int
            } else {
                start
            })
            &&& none.busy_subsystems == 0
            &&& none.not_estimated_subsystems == 0
            &&& after.total_attributed_bytes == (if before.total_attributed_bytes
                + one.attributed_bytes > u64::MAX {
                u64::MAX as int
            } else {
                before.total_attributed_bytes + one.attributed_bytes
            })
            &&& after.busy_subsystems == (if before.busy_subsystems + one.busy_subsystems
                > usize::MAX {
                usize::MAX as int
            } else {
                before.busy_subsystems + one.busy_subsystems
            })
            &&& after.not_estimated_subsystems == (if before.not_estimated_subsystems
                + one.not_estimated_subsystems > usize::MAX {
                usize::MAX as int
            } else {
                before.not_estimated_subsystems + one.not_estimated_subsystems
            })
            &&& after.root_count == root_count
        }),
{
    assert(roots.push(one).drop_last() =~= roots);
    lemma_root_sums_nonnegative(roots);
}

/// What is not attributed and what is attributed make up what the process holds: its physical
/// footprint where that is known, else its resident set. The measurements are reported as they
/// were taken, and a missing one is named.
pub proof fn law_attributed_and_unattributed_make_up_the_process(
    roots: Seq<RootMemoryRollupView>,
    root_count: usize,
    shared: MemoryEstimateView,
    measured: ProcessMeasurementsView,
)
    ensures
        ({
            let process = memory::process_attributed(roots, root_count, shared, measured);
            let total = process.total_attributed_bytes;
            &&& measured.phys_footprint_bytes matches Some(held) ==> {
                &&& process.unattributed_bytes is Some
                &&& i64::MIN <= held - total <= i64::MAX ==> process.unattributed_bytes->0 + total
                    == held
            }
            &&& measured.phys_footprint_bytes is None ==> (measured.rss_bytes matches Some(held)
                ==> {
                &&& process.unattributed_bytes is Some
                &&& i64::MIN <= held - total <= i64::MAX ==> process.unattributed_bytes->0 + total
                    == held
            })
            &&& (measured.phys_footprint_bytes is None && measured.rss_bytes is None)
                ==> process.unattributed_bytes is None
            &&& process.rss_bytes == measured.rss_bytes
            &&& process.phys_footprint_bytes == measured.phys_footprint_bytes
            &&& process.sqlite == measured.sqlite
            &&& process.allocator == measured.allocator
            &&& measured.rss_bytes is Some ==> process.rss_status == "estimated"@
                && process.rss_not_estimated is None
            &&& measured.rss_bytes is None ==> process.rss_status
                == "not_estimated_on_this_platform"@ && process.rss_not_estimated == Some(
                "platform_process_rss_unavailable"@,
            )
        }),
{
}

/// The roots of a map are rolled up one by one.
pub proof fn law_roots_are_rolled_up_one_by_one(
    roots: Seq<(Seq<char>, RootMemorySnapshotView)>,
    rollups: Seq<(Seq<char>, RootMemoryRollupView)>,
    i: int,
)
    ensures
        memory::snapshot_rollups(roots).len() == roots.len(),
        memory::values_of(rollups).len() == rollups.len(),
        0 <= i < roots.len() ==> memory::snapshot_rollups(roots)[i] == memory::rolled_up(
            seq![
                roots[i].1.semantic,
                roots[i].1.trigram,
                roots[i].1.symbols,
                roots[i].1.callgraph,
                roots[i].1.callgraph_projection,
                roots[i].1.inspect,
                roots[i].1.bash,
                roots[i].1.lsp,
                roots[i].1.parser_pool,
            ],
        ),
        0 <= i < rollups.len() ==> memory::values_of(rollups)[i] == rollups[i].1,
{
}

/// What the allocator holds is in use or slack; where more is in use than it says it holds there
/// is no slack.
pub proof fn law_allocator_slack_is_what_is_not_in_use(in_use: u64, allocated: u64)
    ensures
        ({
            let out = memory::allocator_measured(in_use, allocated);
            &&& out.status == "measured"@
            &&& out.bytes_in_use == Some(in_use)
            &&& out.size_allocated == Some(allocated)
            &&& out.retained_slack_bytes is Some
            &&& allocated >= in_use ==> in_use + out.retained_slack_bytes->0 == allocated
            &&& allocated < in_use ==> out.retained_slack_bytes->0 == 0
            &&& out.not_estimated is None
        }),
{
}

/// The allocator's statistics are read from the current values of what was requested and what is
/// committed; where one of them is missing nothing is measured, and the reason says whether there
/// were statistics at all.
pub proof fn law_allocator_statistics_are_read(
    entries: Seq<(Seq<char>, JsonView)>,
    requested: Seq<(Seq<char>, JsonView)>,
    committed: Seq<(Seq<char>, JsonView)>,
    in_use: u64,
    allocated: u64,
    document: JsonView,
)
    ensures
        (text_map::map_get(entries, "malloc_requested"@) == Some(JsonView::Object(requested))
            && text_map::map_get(entries, "committed"@) == Some(JsonView::Object(committed))
            && text_map::map_get(requested, "current"@) == Some(JsonView::Unsigned(in_use))
            && text_map::map_get(committed, "current"@) == Some(JsonView::Unsigned(allocated)))
            ==> {
            let out = memory::allocator_from_document(Some(JsonView::Object(entries)));
            out.bytes_in_use == Some(in_use) && out.size_allocated == Some(allocated)
        },
        text_map::map_get(entries, "malloc_requested"@) is None || text_map::map_get(
            entries,
            "committed"@,
        ) is None ==> memory::allocator_from_document(
            Some(JsonView::Object(entries)),
        ).not_estimated == Some("mimalloc_statistics_incomplete"@),
        !(document is Object) ==> memory::allocator_from_document(Some(document)).not_estimated
            == Some("mimalloc_statistics_incomplete"@),
        memory::allocator_from_document(None).not_estimated == Some(
            "mimalloc_statistics_invalid"@,
        ),
        memory::allocator_from_statistics(None).not_estimated == Some(
            "mimalloc_statistics_unavailable"@,
        ),
        memory::allocator_from_statistics(Some(None)).not_estimated == Some(
            "mimalloc_statistics_invalid"@,
        ),
        memory::allocator_from_statistics(None).status == "not_estimated_on_this_platform"@,
        memory::allocator_from_statistics(None).bytes_in_use is None,
        memory::allocator_from_statistics(None).size_allocated is None,
        memory::allocator_from_statistics(None).retained_slack_bytes is None,
{
}

/// A relief pass is credited with the most that one measurement shows: none of them exceeds it,
/// and one of them is it. A measurement that grew, or was not taken twice, shows nothing.
pub proof fn law_relief_is_the_largest_shrinkage(
    a: u64,
    b: u64,
    before: Option<u64>,
    after: Option<u64>,
)
    ensures
        memory::larger(a, b) >= a,
        memory::larger(a, b) >= b,
        memory::larger(a, b) == a || memory::larger(a, b) == b,
        (before is Some && after is Some && before->0 >= after->0) ==> memory::shrinkage(
            before,
            after,
        ) + after->0 == before->0,
        (before is Some && after is Some && before->0 < after->0) ==> memory::shrinkage(
            before,
            after,
        ) == 0,
        (before is None || after is None) ==> memory::shrinkage(before, after) == 0,
{
}

/// The resident set is the second number of the line, in pages: it is had exactly where there is
/// one, the page size is positive and the product fits.
pub proof fn law_resident_set_is_the_second_number(
    first_gap: Seq<char>,
    first: Seq<char>,
    gap: Seq<char>,
    second: Seq<char>,
    rest: Seq<char>,
    page_size: i64,
)
    requires
        text_laws::all_white(first_gap),
        text_laws::is_word(first),
        text_laws::all_white(gap),
        gap.len() > 0,
        text_laws::is_word(second),
        rest.len() == 0 || text::is_white(rest[0]),
    ensures
        ({
            let line = first_gap + first + (gap + second + rest);
            let pages = text::number_of(second);
            &&& (pages is Some && page_size > 0 && pages->0 * page_size <= u64::MAX)
                ==> memory::rss_from(line, page_size) == Some((pages->0 * page_size) as u64)
            &&& (pages is None || page_size <= 0 || pages->0 * page_size > u64::MAX)
                ==> memory::rss_from(line, page_size) is None
        }),
{
    let tail = gap + second + rest;
    assert(tail[0] == gap[0]);
    text_laws::law_words_are_counted_in_order(first_gap, first, tail, 0);
    text_laws::law_words_are_counted_in_order(gap, second, rest, 0);
    assert(text::word_at(first_gap + first + tail, 1) == Some(second));
}

/// A JSON value weighs what its texts and keys hold, sixteen for each number and one for each
/// switch: a list or an object weighs what its parts weigh together.
pub proof fn law_json_weighs_what_its_parts_weigh(
    items: Seq<JsonView>,
    entries: Seq<(Seq<char>, JsonView)>,
    key: Seq<char>,
    value: JsonView,
    written: Seq<char>,
    flag: bool,
    unsigned: u64,
)
    ensures
        memory::json_weight(JsonView::Null) == 0,
        memory::json_weight(JsonView::Bool(flag)) == 1,
        memory::json_weight(JsonView::Unsigned(unsigned)) == 16,
        memory::json_weight(JsonView::Text(written)) == text::byte_len(written),
        memory::json_weight(JsonView::List(Seq::empty())) == 0,
        memory::json_weight(JsonView::List(items.push(value))) == memory::json_weight(
            JsonView::List(items),
        ) + memory::json_weight(value),
        memory::json_weight(JsonView::Object(Seq::empty())) == 0,
        memory::json_weight(JsonView::Object(entries.push((key, value)))) == memory::json_weight(
            JsonView::Object(entries),
        ) + text::byte_len(key) + memory::json_weight(value),
        value is Negative ==> memory::json_weight(value) == 16,
        value is Float ==> memory::json_weight(value) == 16,
{
    assert(items.push(value).drop_last() =~= items);
    assert(entries.push((key, value)).drop_last() =~= entries);
}

/// No parser is pooled, whatever else a root holds: the pool comes last among the estimates, counts
/// none, names its bytes as a gap and adds none.
pub proof fn law_parser_pool_is_a_gap(probes: RootMemoryProbes)
    ensures
        ({
            let pool = root_memory::estimates_of(probes).last();
            &&& pool.status == "ready"@
            &&& pool.bytes_status == "not_estimated"@
            &&& pool.estimated_bytes is None
            &&& text_map::map_get(pool.counts, "pooled_parsers"@) == Some(0u64)
            &&& pool.counts.len() == 1
            &&& pool.not_estimated.len() == 1
            &&& pool.not_estimated[0] == "tree_sitter_parser_bytes"@
        }),
{
    text_map::law_put_then_get(
        Seq::<(Seq<char>, u64)>::empty(),
        "pooled_parsers"@,
        0u64,
        "pooled_parsers"@,
    );
}

} // verus!
