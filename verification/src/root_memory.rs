//! The memory of one root, from what could be looked at without waiting, and of all roots of the
//! process.

use vstd::prelude::*;

use crate::memory;
use crate::memory::{
    MemoryEstimate, MemoryEstimateView, MemorySnapshot, ProcessMeasurements, RootMemoryRollup,
    RootMemorySnapshot, RootMemorySnapshotView,
};
use crate::text_map;
use crate::text_map::TextMap;

verus! {

/// What looking at a subsystem without waiting told.
#[derive(Debug)]
pub enum Probe {
    Busy,
    /// Nothing is resident.
    Absent,
    Present(MemoryEstimate),
}

/// What looking at the subsystems of a root without waiting told.
#[derive(Debug)]
pub struct RootMemoryProbes {
    pub semantic: Probe,
    pub trigram: Probe,
    /// `None` where it was busy.
    pub symbols: Option<MemoryEstimate>,
    pub callgraph: Probe,
    pub callgraph_projection: MemoryEstimate,
    pub inspect: MemoryEstimate,
    pub bash: MemoryEstimate,
    /// `None` where it was busy.
    pub lsp: Option<MemoryEstimate>,
}

/// The estimate of a subsystem that is busy.
pub open spec fn busy_estimate() -> MemoryEstimateView {
    memory::estimate_of("busy"@, "not_estimated"@, None)
}

/// The estimate of a subsystem: one that holds nothing takes no bytes and counts none of what it
/// would hold.
pub open spec fn probed(probe: Probe, counted: Seq<char>) -> MemoryEstimateView {
    match probe {
        Probe::Busy => busy_estimate(),
        Probe::Absent => MemoryEstimateView {
            counts: text_map::map_put(Seq::empty(), counted, 0),
            ..memory::estimate_of("ready"@, "estimated"@, Some(0))
        },
        Probe::Present(estimate) => estimate.deep_view(),
    }
}

fn estimate(probe: Probe, counted: &str) -> (out: MemoryEstimate)
    ensures
        out.deep_view() == probed(probe, counted@),
{
    match probe {
        Probe::Busy => MemoryEstimate::busy(),
        Probe::Absent => MemoryEstimate::estimated(0).count(counted, 0),
        Probe::Present(estimate) => estimate,
    }
}

/// The estimate of a subsystem that always has one.
pub open spec fn estimate_or_busy(found: Option<MemoryEstimate>) -> MemoryEstimateView {
    match found {
        Some(estimate) => estimate.deep_view(),
        None => busy_estimate(),
    }
}

fn or_busy(found: Option<MemoryEstimate>) -> (out: MemoryEstimate)
    ensures
        out.deep_view() == estimate_or_busy(found),
{
    match found {
        Some(estimate) => estimate,
        None => MemoryEstimate::busy(),
    }
}

/// Parsers are made for each operation and kept in no pool: their bytes are a gap, not a guess.
pub open spec fn parser_pool_estimate() -> MemoryEstimateView {
    MemoryEstimateView {
        counts: text_map::map_put(Seq::empty(), "pooled_parsers"@, 0),
        not_estimated: seq!["tree_sitter_parser_bytes"@],
        ..memory::estimate_of("ready"@, "not_estimated"@, None)
    }
}

/// The estimates of a root's subsystems.
pub open spec fn estimates_of(probes: RootMemoryProbes) -> Seq<MemoryEstimateView> {
    seq![
        probed(probes.semantic, "entries"@),
        probed(probes.trigram, "files"@),
        estimate_or_busy(probes.symbols),
        probed(probes.callgraph, "open_generation_handles"@),
        probes.callgraph_projection.deep_view(),
        probes.inspect.deep_view(),
        probes.bash.deep_view(),
        estimate_or_busy(probes.lsp),
        parser_pool_estimate(),
    ]
}

/// The memory of one root; a subsystem that is busy is reported as such.
pub fn memory_root_snapshot(probes: RootMemoryProbes) -> (snapshot: RootMemorySnapshot)
    ensures
        memory::root_estimates(snapshot.deep_view()) == estimates_of(probes),
        snapshot.status@ == memory::rolled_up(estimates_of(probes)).status,
        snapshot.attributed_bytes == memory::rolled_up(estimates_of(probes)).attributed_bytes,
{
    let parser_pool = MemoryEstimate::not_estimated().count("pooled_parsers", 0).gap(
        "tree_sitter_parser_bytes",
    );
    proof {
        assert(parser_pool.deep_view().not_estimated =~= seq!["tree_sitter_parser_bytes"@]);
    }
    let snapshot = RootMemorySnapshot::new(
        estimate(probes.semantic, "entries"),
        estimate(probes.trigram, "files"),
        or_busy(probes.symbols),
        estimate(probes.callgraph, "open_generation_handles"),
        probes.callgraph_projection,
        probes.inspect,
        probes.bash,
        or_busy(probes.lsp),
        parser_pool,
    );
    assert(memory::root_estimates(snapshot.deep_view()) =~= estimates_of(probes));
    snapshot
}

/// The totals of one root.
pub fn memory_root_rollup(probes: RootMemoryProbes) -> (rollup: RootMemoryRollup)
    ensures
        rollup.deep_view() == memory::rolled_up(estimates_of(probes)),
{
    memory_root_snapshot(probes).rollup()
}

/// The roots of the process, by name, with the current one among them.
pub open spec fn roots_with_current(
    registered: Seq<(Seq<char>, RootMemorySnapshotView)>,
    label: Seq<char>,
    current: RootMemorySnapshotView,
) -> Seq<(Seq<char>, RootMemorySnapshotView)> {
    let roots = text_map::map_put_all(Seq::empty(), registered);
    if text_map::map_get(roots, label) is Some {
        roots
    } else {
        text_map::map_put(roots, label, current)
    }
}

/// The roots of the process, by name. A root that is registered is not counted twice, and where
/// the registry is busy only the current root is known.
pub fn collect_root_snapshots(
    registered: Option<TextMap<RootMemorySnapshot>>,
    label: String,
    current: RootMemorySnapshot,
) -> (out: (&'static str, TextMap<RootMemorySnapshot>))
    ensures
        out.0@ == (if registered is Some {
            "ready"@
        } else {
            "busy"@
        }),
        out.1.deep_view() == roots_with_current(
            match registered {
                Some(registered) => registered.deep_view(),
                None => Seq::empty(),
            },
            label@,
            current.deep_view(),
        ),
{
    let mut roots: TextMap<RootMemorySnapshot> = TextMap::new();
    let status = match registered {
        Some(registered) => {
            roots.extend(registered);
            "ready"
        },
        None => "busy",
    };
    let known = roots.get(label.as_str()).is_some();
    if !known {
        roots.put(label, current);
    }
    (status, roots)
}

/// The memory of the process, by root.
pub fn memory_snapshot(
    registered: Option<TextMap<RootMemorySnapshot>>,
    current_root: Option<String>,
    current: RootMemorySnapshot,
    shared_semantic_bases: MemoryEstimate,
    measured: ProcessMeasurements,
) -> (snapshot: MemorySnapshot)
    ensures
        ({
            let roots = roots_with_current(
                match registered {
                    Some(registered) => registered.deep_view(),
                    None => Seq::empty(),
                },
                match current_root {
                    Some(root) => root@,
                    None => "<unconfigured>"@,
                },
                current.deep_view(),
            );
            let (kept, omitted, omitted_bytes) = memory::capped::<RootMemorySnapshot>(roots, 8);
            snapshot.deep_view() == memory::MemorySnapshotView {
                roots_status: if registered is Some {
                    "ready"@
                } else {
                    "busy"@
                },
                roots: kept,
                roots_total: roots.len() as usize,
                roots_omitted: omitted as usize,
                roots_omitted_bytes: omitted_bytes,
                shared_semantic_bases: shared_semantic_bases.deep_view(),
                process: memory::process_attributed(
                    memory::snapshot_rollups(roots),
                    roots.len() as usize,
                    shared_semantic_bases.deep_view(),
                    measured.deep_view(),
                ),
            }
        }),
{
    let label = match current_root {
        Some(root) => root,
        None => "<unconfigured>".to_owned(),
    };
    let (status, roots) = collect_root_snapshots(registered, label, current);
    MemorySnapshot::new(status, roots, shared_semantic_bases, measured)
}

/// A registered root is listed with its own snapshot, not with a second one.
pub proof fn law_registered_root_is_not_counted_twice(
    registered: Seq<(Seq<char>, RootMemorySnapshotView)>,
    label: Seq<char>,
    current: RootMemorySnapshotView,
)
    requires
        text_map::map_get(text_map::map_put_all(Seq::empty(), registered), label) is Some,
    ensures
        roots_with_current(registered, label, current) == text_map::map_put_all(
            Seq::empty(),
            registered,
        ),
{
}

} // verus!
