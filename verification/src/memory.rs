//! Attributing the memory of the process to roots and subsystems.
//!
//! Sums saturate: a sum that does not fit counts as the largest number.

use vstd::prelude::*;

use crate::config::Platform;
use crate::json;
use crate::json::{object_get, Json, JsonView};
use crate::text;
use crate::text_map;
use crate::text_map::TextMap;

verus! {

/// A sum as it is reported.
pub open spec fn saturated(sum: int) -> u64 {
    if sum > u64::MAX {
        u64::MAX
    } else {
        sum as u64
    }
}

pub fn usize_to_u64(value: usize) -> (out: u64)
    ensures
        out == value,
{
    value as u64
}

/// The difference of two sizes, as far as it can be represented.
pub open spec fn clamped_difference(lhs: u64, rhs: u64) -> i64 {
    if lhs - rhs > i64::MAX {
        i64::MAX
    } else if lhs - rhs < i64::MIN {
        i64::MIN
    } else {
        (lhs - rhs) as i64
    }
}

pub fn signed_difference(lhs: u64, rhs: u64) -> (out: i64)
    ensures
        out == clamped_difference(lhs, rhs),
{
    let difference: i128 = lhs as i128 - rhs as i128;
    if difference > i64::MAX as i128 {
        i64::MAX
    } else if difference < i64::MIN as i128 {
        i64::MIN
    } else {
        difference as i64
    }
}

pub fn nonnegative_i64_to_u64(value: i64) -> (out: u64)
    ensures
        out == (if value < 0 {
            0
        } else {
            value as int
        }),
{
    if value < 0 {
        0
    } else {
        value as u64
    }
}

/// The size of a path as the platform holds it: in UTF-8, on Windows in UTF-16.
pub fn path_bytes(platform: Platform, path: &str) -> (out: u64)
    ensures
        out == saturated(
            match platform {
                Platform::Unix => text::byte_len(path@) as int,
                Platform::Windows => text::wide_len(path@) as int,
            },
        ),
{
    match platform {
        Platform::Unix => text::count_bytes(path),
        Platform::Windows => text::count_wide_bytes(path),
    }
}

/// What one subsystem holds in memory. The bytes are absent where the subsystem is busy or its
/// bytes cannot be observed cheaply; counts stay available.
#[derive(Debug, PartialEq, Eq)]
pub struct MemoryEstimate {
    pub status: &'static str,
    pub bytes_status: &'static str,
    pub estimated_bytes: Option<u64>,
    /// What the estimate leaves out.
    pub not_estimated: Vec<String>,
    pub counts: TextMap<u64>,
}

/// The model of [`MemoryEstimate`].
pub struct MemoryEstimateView {
    pub status: Seq<char>,
    pub bytes_status: Seq<char>,
    pub estimated_bytes: Option<u64>,
    pub not_estimated: Seq<Seq<char>>,
    pub counts: Seq<(Seq<char>, u64)>,
}

impl DeepView for MemoryEstimate {
    type V = MemoryEstimateView;

    open spec fn deep_view(&self) -> MemoryEstimateView {
        MemoryEstimateView {
            status: self.status.deep_view(),
            bytes_status: self.bytes_status.deep_view(),
            estimated_bytes: self.estimated_bytes.deep_view(),
            not_estimated: self.not_estimated.deep_view(),
            counts: self.counts.deep_view(),
        }
    }
}

impl MemoryEstimate {
    /// A subsystem whose bytes are known.
    pub fn estimated(bytes: u64) -> (out: Self)
        ensures
            out.deep_view() == estimate_of("ready"@, "estimated"@, Some(bytes)),
    {
        Self::make("ready", "estimated", Some(bytes))
    }

    /// A subsystem whose bytes are known in part.
    pub fn partial(bytes: u64) -> (out: Self)
        ensures
            out.deep_view() == estimate_of("ready"@, "partial"@, Some(bytes)),
    {
        Self::make("ready", "partial", Some(bytes))
    }

    /// A subsystem whose bytes cannot be observed.
    pub fn not_estimated() -> (out: Self)
        ensures
            out.deep_view() == estimate_of("ready"@, "not_estimated"@, None),
    {
        Self::make("ready", "not_estimated", None)
    }

    /// A subsystem that is busy.
    pub fn busy() -> (out: Self)
        ensures
            out.deep_view() == estimate_of("busy"@, "not_estimated"@, None),
    {
        Self::make("busy", "not_estimated", None)
    }

    fn make(
        status: &'static str,
        bytes_status: &'static str,
        estimated_bytes: Option<u64>,
    ) -> (out: Self)
        ensures
            out.deep_view() == estimate_of(status@, bytes_status@, estimated_bytes),
    {
        let not_estimated: Vec<String> = Vec::new();
        assert(not_estimated.deep_view() =~= Seq::empty());
        MemoryEstimate {
            status,
            bytes_status,
            estimated_bytes,
            not_estimated,
            counts: TextMap::new(),
        }
    }

    /// Adds a count.
    pub fn count(self, name: &str, value: usize) -> (out: Self)
        ensures
            out.deep_view() == (MemoryEstimateView {
                counts: text_map::map_put(self.deep_view().counts, name@, value as u64),
                ..self.deep_view()
            }),
    {
        self.count_u64(name, usize_to_u64(value))
    }

    /// Adds a count.
    pub fn count_u64(self, name: &str, value: u64) -> (out: Self)
        ensures
            out.deep_view() == (MemoryEstimateView {
                counts: text_map::map_put(self.deep_view().counts, name@, value),
                ..self.deep_view()
            }),
    {
        let mut counts = self.counts;
        counts.put(name.to_owned(), value);
        MemoryEstimate { counts, ..self }
    }

    /// Names something that the estimate leaves out.
    pub fn gap(self, name: &str) -> (out: Self)
        ensures
            out.deep_view() == (MemoryEstimateView {
                not_estimated: self.deep_view().not_estimated.push(name@),
                ..self.deep_view()
            }),
    {
        let ghost before = self.not_estimated.deep_view();
        let mut not_estimated = self.not_estimated;
        not_estimated.push(name.to_owned());
        assert(not_estimated.deep_view() =~= before.push(name@));
        MemoryEstimate { not_estimated, ..self }
    }
}

/// An estimate without counts and gaps.
pub open spec fn estimate_of(
    status: Seq<char>,
    bytes_status: Seq<char>,
    estimated_bytes: Option<u64>,
) -> MemoryEstimateView {
    MemoryEstimateView {
        status,
        bytes_status,
        estimated_bytes,
        not_estimated: Seq::empty(),
        counts: Seq::empty(),
    }
}

/// The totals of one root.
#[derive(Debug, PartialEq, Eq)]
pub struct RootMemoryRollup {
    pub status: &'static str,
    pub attributed_bytes: u64,
    pub busy_subsystems: usize,
    pub not_estimated_subsystems: usize,
    /// Set for standing roots only.
    pub standing: Option<bool>,
}

/// The model of [`RootMemoryRollup`].
pub struct RootMemoryRollupView {
    pub status: Seq<char>,
    pub attributed_bytes: u64,
    pub busy_subsystems: usize,
    pub not_estimated_subsystems: usize,
    pub standing: Option<bool>,
}

impl DeepView for RootMemoryRollup {
    type V = RootMemoryRollupView;

    open spec fn deep_view(&self) -> RootMemoryRollupView {
        RootMemoryRollupView {
            status: self.status.deep_view(),
            attributed_bytes: self.attributed_bytes,
            busy_subsystems: self.busy_subsystems,
            not_estimated_subsystems: self.not_estimated_subsystems,
            standing: self.standing.deep_view(),
        }
    }
}

/// The bytes of all estimates together.
pub open spec fn bytes_sum(estimates: Seq<MemoryEstimateView>) -> int
    decreases estimates.len(),
{
    if estimates.len() == 0 {
        0
    } else {
        bytes_sum(estimates.drop_last()) + match estimates.last().estimated_bytes {
            Some(bytes) => bytes as int,
            None => 0,
        }
    }
}

/// How many subsystems are busy.
pub open spec fn busy_count(estimates: Seq<MemoryEstimateView>) -> int
    decreases estimates.len(),
{
    if estimates.len() == 0 {
        0
    } else {
        busy_count(estimates.drop_last()) + if estimates.last().status == "busy"@ {
            1int
        } else {
            0
        }
    }
}

/// How many subsystems have no bytes.
pub open spec fn unknown_count(estimates: Seq<MemoryEstimateView>) -> int
    decreases estimates.len(),
{
    if estimates.len() == 0 {
        0
    } else {
        unknown_count(estimates.drop_last()) + if estimates.last().estimated_bytes is None {
            1int
        } else {
            0
        }
    }
}

/// The totals of a list of estimates.
pub open spec fn rolled_up(estimates: Seq<MemoryEstimateView>) -> RootMemoryRollupView {
    RootMemoryRollupView {
        status: if busy_count(estimates) > 0 {
            "busy"@
        } else {
            "ready"@
        },
        attributed_bytes: saturated(bytes_sum(estimates)),
        busy_subsystems: busy_count(estimates) as usize,
        not_estimated_subsystems: unknown_count(estimates) as usize,
        standing: None,
    }
}

impl RootMemoryRollup {
    /// Sums up the estimates of a root.
    pub fn from_estimates(estimates: &[&MemoryEstimate]) -> (out: Self)
        ensures
            out.deep_view() == rolled_up(estimates.deep_view()),
    {
        let ghost model = estimates.deep_view();
        let mut attributed_bytes: u64 = 0;
        let mut busy_subsystems: usize = 0;
        let mut not_estimated_subsystems: usize = 0;
        let mut i: usize = 0;
        assert(model.take(0) =~= Seq::empty());
        while i < estimates.len()
            invariant
                i <= estimates.len(),
                model == estimates.deep_view(),
                bytes_sum(model.take(i as int)) >= 0,
                attributed_bytes == saturated(bytes_sum(model.take(i as int))),
                busy_subsystems == busy_count(model.take(i as int)),
                not_estimated_subsystems == unknown_count(model.take(i as int)),
                busy_subsystems <= i,
                not_estimated_subsystems <= i,
            decreases estimates.len() - i,
        {
            let estimate = estimates[i];
            proof {
                assert(model[i as int] == estimate.deep_view());
                assert(model.take(i + 1).drop_last() =~= model.take(i as int));
                assert(model.take(i + 1).last() == model[i as int]);
            }
            match estimate.estimated_bytes {
                Some(bytes) => {
                    attributed_bytes = attributed_bytes.saturating_add(bytes);
                },
                None => {
                    not_estimated_subsystems = not_estimated_subsystems + 1;
                },
            }
            if text::same_text(estimate.status, "busy") {
                busy_subsystems = busy_subsystems + 1;
            }
            i = i + 1;
        }
        assert(model.take(model.len() as int) =~= model);
        RootMemoryRollup {
            status: if busy_subsystems > 0 {
                "busy"
            } else {
                "ready"
            },
            attributed_bytes,
            busy_subsystems,
            not_estimated_subsystems,
            standing: None,
        }
    }

    /// Marks the totals as those of a standing root.
    pub fn with_standing(self) -> (out: Self)
        ensures
            out.deep_view() == (RootMemoryRollupView { standing: Some(true), ..self.deep_view() }),
    {
        RootMemoryRollup { standing: Some(true), ..self }
    }
}

/// What one root holds in memory, by subsystem.
#[derive(Debug, PartialEq, Eq)]
pub struct RootMemorySnapshot {
    pub status: &'static str,
    pub attributed_bytes: u64,
    pub semantic: MemoryEstimate,
    pub trigram: MemoryEstimate,
    pub symbols: MemoryEstimate,
    pub callgraph: MemoryEstimate,
    pub callgraph_projection: MemoryEstimate,
    pub inspect: MemoryEstimate,
    pub bash: MemoryEstimate,
    pub lsp: MemoryEstimate,
    pub parser_pool: MemoryEstimate,
}

/// The model of [`RootMemorySnapshot`].
pub struct RootMemorySnapshotView {
    pub status: Seq<char>,
    pub attributed_bytes: u64,
    pub semantic: MemoryEstimateView,
    pub trigram: MemoryEstimateView,
    pub symbols: MemoryEstimateView,
    pub callgraph: MemoryEstimateView,
    pub callgraph_projection: MemoryEstimateView,
    pub inspect: MemoryEstimateView,
    pub bash: MemoryEstimateView,
    pub lsp: MemoryEstimateView,
    pub parser_pool: MemoryEstimateView,
}

impl DeepView for RootMemorySnapshot {
    type V = RootMemorySnapshotView;

    open spec fn deep_view(&self) -> RootMemorySnapshotView {
        RootMemorySnapshotView {
            status: self.status.deep_view(),
            attributed_bytes: self.attributed_bytes,
            semantic: self.semantic.deep_view(),
            trigram: self.trigram.deep_view(),
            symbols: self.symbols.deep_view(),
            callgraph: self.callgraph.deep_view(),
            callgraph_projection: self.callgraph_projection.deep_view(),
            inspect: self.inspect.deep_view(),
            bash: self.bash.deep_view(),
            lsp: self.lsp.deep_view(),
            parser_pool: self.parser_pool.deep_view(),
        }
    }
}

/// The estimates of a root, in order.
pub open spec fn root_estimates(root: RootMemorySnapshotView) -> Seq<MemoryEstimateView> {
    seq![root.semantic, root.trigram, root.symbols, root.callgraph, root.callgraph_projection, root.inspect, root.bash, root.lsp, root.parser_pool]
}

impl RootMemorySnapshot {
    /// A root's estimates with their totals.
    #[allow(clippy::too_many_arguments)]
    pub fn new(
        semantic: MemoryEstimate,
        trigram: MemoryEstimate,
        symbols: MemoryEstimate,
        callgraph: MemoryEstimate,
        callgraph_projection: MemoryEstimate,
        inspect: MemoryEstimate,
        bash: MemoryEstimate,
        lsp: MemoryEstimate,
        parser_pool: MemoryEstimate,
    ) -> (out: Self)
        ensures
            out.semantic == semantic,
            out.trigram == trigram,
            out.symbols == symbols,
            out.callgraph == callgraph,
            out.callgraph_projection == callgraph_projection,
            out.inspect == inspect,
            out.bash == bash,
            out.lsp == lsp,
            out.parser_pool == parser_pool,
            out.status@ == rolled_up(root_estimates(out.deep_view())).status,
            out.attributed_bytes == rolled_up(root_estimates(out.deep_view())).attributed_bytes,
    {
        let mut estimates: Vec<&MemoryEstimate> = Vec::new();
        estimates.push(&semantic);
        estimates.push(&trigram);
        estimates.push(&symbols);
        estimates.push(&callgraph);
        estimates.push(&callgraph_projection);
        estimates.push(&inspect);
        estimates.push(&bash);
        estimates.push(&lsp);
        estimates.push(&parser_pool);
        let listed = estimates.as_slice();
        let ghost model = listed.deep_view();
        let rollup = RootMemoryRollup::from_estimates(listed);
        let out = RootMemorySnapshot {
            status: rollup.status,
            attributed_bytes: rollup.attributed_bytes,
            semantic,
            trigram,
            symbols,
            callgraph,
            callgraph_projection,
            inspect,
            bash,
            lsp,
            parser_pool,
        };
        assert(model =~= root_estimates(out.deep_view()));
        out
    }

    /// The totals of the root.
    pub fn rollup(&self) -> (out: RootMemoryRollup)
        ensures
            out.deep_view() == rolled_up(root_estimates(self.deep_view())),
    {
        let mut estimates: Vec<&MemoryEstimate> = Vec::new();
        estimates.push(&self.semantic);
        estimates.push(&self.trigram);
        estimates.push(&self.symbols);
        estimates.push(&self.callgraph);
        estimates.push(&self.callgraph_projection);
        estimates.push(&self.inspect);
        estimates.push(&self.bash);
        estimates.push(&self.lsp);
        estimates.push(&self.parser_pool);
        let listed = estimates.as_slice();
        assert(listed.deep_view() =~= root_estimates(self.deep_view()));
        RootMemoryRollup::from_estimates(listed)
    }

    pub fn busy_subsystem_count(&self) -> (out: usize)
        ensures
            out == rolled_up(root_estimates(self.deep_view())).busy_subsystems,
    {
        self.rollup().busy_subsystems
    }

    pub fn not_estimated_subsystem_count(&self) -> (out: usize)
        ensures
            out == rolled_up(root_estimates(self.deep_view())).not_estimated_subsystems,
    {
        self.rollup().not_estimated_subsystems
    }
}

/// The process-wide counters of the SQLite allocator.
#[derive(Debug, PartialEq, Eq)]
pub struct SqliteMemorySnapshot {
    pub status: &'static str,
    pub memory_used_bytes: u64,
    pub memory_highwater_bytes: u64,
}

/// The model of [`SqliteMemorySnapshot`].
pub struct SqliteMemorySnapshotView {
    pub status: Seq<char>,
    pub memory_used_bytes: u64,
    pub memory_highwater_bytes: u64,
}

impl DeepView for SqliteMemorySnapshot {
    type V = SqliteMemorySnapshotView;

    open spec fn deep_view(&self) -> SqliteMemorySnapshotView {
        SqliteMemorySnapshotView {
            status: self.status.deep_view(),
            memory_used_bytes: self.memory_used_bytes,
            memory_highwater_bytes: self.memory_highwater_bytes,
        }
    }
}

impl SqliteMemorySnapshot {
    /// The counters as SQLite reports them; a negative one counts as zero.
    pub fn from_counters(used: i64, highwater: i64) -> (out: Self)
        ensures
            out.status@ == "measured"@,
            out.memory_used_bytes == (if used < 0 {
                0
            } else {
                used as int
            }),
            out.memory_highwater_bytes == (if highwater < 0 {
                0
            } else {
                highwater as int
            }),
    {
        SqliteMemorySnapshot {
            status: "measured",
            memory_used_bytes: nonnegative_i64_to_u64(used),
            memory_highwater_bytes: nonnegative_i64_to_u64(highwater),
        }
    }
}

/// What the allocator holds.
#[derive(Debug, PartialEq, Eq)]
pub struct AllocatorMemorySnapshot {
    pub status: &'static str,
    pub bytes_in_use: Option<u64>,
    pub size_allocated: Option<u64>,
    pub retained_slack_bytes: Option<u64>,
    pub not_estimated: Option<&'static str>,
}

/// The model of [`AllocatorMemorySnapshot`].
pub struct AllocatorMemorySnapshotView {
    pub status: Seq<char>,
    pub bytes_in_use: Option<u64>,
    pub size_allocated: Option<u64>,
    pub retained_slack_bytes: Option<u64>,
    pub not_estimated: Option<Seq<char>>,
}

impl DeepView for AllocatorMemorySnapshot {
    type V = AllocatorMemorySnapshotView;

    open spec fn deep_view(&self) -> AllocatorMemorySnapshotView {
        AllocatorMemorySnapshotView {
            status: self.status.deep_view(),
            bytes_in_use: self.bytes_in_use.deep_view(),
            size_allocated: self.size_allocated.deep_view(),
            retained_slack_bytes: self.retained_slack_bytes.deep_view(),
            not_estimated: self.not_estimated.deep_view(),
        }
    }
}

/// What is in use, what is held, and the slack between them.
pub open spec fn allocator_measured(
    bytes_in_use: u64,
    size_allocated: u64,
) -> AllocatorMemorySnapshotView {
    AllocatorMemorySnapshotView {
        status: "measured"@,
        bytes_in_use: Some(bytes_in_use),
        size_allocated: Some(size_allocated),
        retained_slack_bytes: Some(
            (if size_allocated > bytes_in_use {
                size_allocated - bytes_in_use
            } else {
                0
            }) as u64,
        ),
        not_estimated: None,
    }
}

pub open spec fn allocator_unknown(reason: Seq<char>) -> AllocatorMemorySnapshotView {
    AllocatorMemorySnapshotView {
        status: "not_estimated_on_this_platform"@,
        bytes_in_use: None,
        size_allocated: None,
        retained_slack_bytes: None,
        not_estimated: Some(reason),
    }
}

impl AllocatorMemorySnapshot {
    pub fn measured(bytes_in_use: u64, size_allocated: u64) -> (out: Self)
        ensures
            out.deep_view() == allocator_measured(bytes_in_use, size_allocated),
    {
        AllocatorMemorySnapshot {
            status: "measured",
            bytes_in_use: Some(bytes_in_use),
            size_allocated: Some(size_allocated),
            retained_slack_bytes: Some(size_allocated.saturating_sub(bytes_in_use)),
            not_estimated: None,
        }
    }

    pub fn not_estimated(reason: &'static str) -> (out: Self)
        ensures
            out.deep_view() == allocator_unknown(reason@),
    {
        AllocatorMemorySnapshot {
            status: "not_estimated_on_this_platform",
            bytes_in_use: None,
            size_allocated: None,
            retained_slack_bytes: None,
            not_estimated: Some(reason),
        }
    }
}

/// The current value of a statistics field.
pub open spec fn statistic(document: JsonView, field: Seq<char>) -> Option<u64> {
    match document {
        JsonView::Object(entries) => match text_map::map_get(entries, field) {
            Some(JsonView::Object(inner)) => match text_map::map_get(inner, "current"@) {
                Some(JsonView::Unsigned(n)) => Some(n),
                _ => None,
            },
            _ => None,
        },
        _ => None,
    }
}

fn read_statistic(document: &Json, field: &str) -> (out: Option<u64>)
    ensures
        out == statistic(document.deep_view(), field@),
{
    match object_get(document, field) {
        Some(inner) => match object_get(inner, "current") {
            Some(Json::Unsigned(n)) => Some(*n),
            _ => None,
        },
        None => None,
    }
}

/// What parsed allocator statistics say.
pub open spec fn allocator_from_document(document: Option<JsonView>) -> AllocatorMemorySnapshotView {
    match document {
        None => allocator_unknown("mimalloc_statistics_invalid"@),
        Some(document) => match (
            statistic(document, "malloc_requested"@),
            statistic(document, "committed"@),
        ) {
            (Some(in_use), Some(allocated)) => allocator_measured(in_use, allocated),
            _ => allocator_unknown("mimalloc_statistics_incomplete"@),
        },
    }
}

/// Reads parsed allocator statistics.
pub fn allocator_snapshot_from_document(document: &Option<Json>) -> (out: AllocatorMemorySnapshot)
    ensures
        out.deep_view() == allocator_from_document(document.deep_view()),
{
    let document = match document {
        Some(document) => document,
        None => {
            return AllocatorMemorySnapshot::not_estimated("mimalloc_statistics_invalid");
        },
    };
    let bytes_in_use = read_statistic(document, "malloc_requested");
    let size_allocated = read_statistic(document, "committed");
    match (bytes_in_use, size_allocated) {
        (Some(in_use), Some(allocated)) => AllocatorMemorySnapshot::measured(in_use, allocated),
        _ => AllocatorMemorySnapshot::not_estimated("mimalloc_statistics_incomplete"),
    }
}

/// What allocator statistics say: `None` where there are none, `Some(None)` where they are no
/// text.
pub open spec fn allocator_from_statistics(statistics: Option<Option<Seq<char>>>) ->
    AllocatorMemorySnapshotView {
    match statistics {
        None => allocator_unknown("mimalloc_statistics_unavailable"@),
        Some(None) => allocator_from_document(None),
        Some(Some(text)) => allocator_from_document(json::parsed_document(text)),
    }
}

/// Reads allocator statistics.
pub fn allocator_snapshot_from_statistics(statistics: &Option<Option<String>>) -> (out:
    AllocatorMemorySnapshot)
    ensures
        out.deep_view() == allocator_from_statistics(statistics.deep_view()),
{
    match statistics {
        None => AllocatorMemorySnapshot::not_estimated("mimalloc_statistics_unavailable"),
        Some(None) => allocator_snapshot_from_document(&None),
        Some(Some(text)) => {
            let document = json::parse_document(text.as_str());
            allocator_snapshot_from_document(&document)
        },
    }
}

/// `mimalloc::MiMalloc::stats_json`, the process-wide statistics of the allocator as JSON text.
/// They depend on the state of the process, so nothing is said of them: `None` where the
/// allocator reports none, `Some(None)` where they are not UTF-8.
#[verifier::external_body]
fn mimalloc_statistics() -> (out: Option<Option<String>>) {
    match mimalloc::MiMalloc::stats_json() {
        Ok(statistics) => Some(statistics.to_str().ok().map(|text| text.to_owned())),
        Err(_) => None,
    }
}

/// What the allocator holds now. Whatever the statistics say, a snapshot either measures all
/// three amounts, or none of them and says why.
pub fn allocator_memory_snapshot() -> (out: AllocatorMemorySnapshot)
    ensures
        exists|statistics: Option<Option<Seq<char>>>|
            out.deep_view() == #[trigger] allocator_from_statistics(statistics),
        out.status@ == "measured"@ || out.status@ == "not_estimated_on_this_platform"@,
        out.not_estimated is None <==> out.bytes_in_use is Some,
        out.not_estimated is None <==> out.size_allocated is Some,
        out.not_estimated is None <==> out.retained_slack_bytes is Some,
{
    let statistics = mimalloc_statistics();
    allocator_snapshot_from_statistics(&statistics)
}

/// What is measured of the process as a whole.
#[derive(Debug, PartialEq, Eq)]
pub struct ProcessMeasurements {
    pub rss_bytes: Option<u64>,
    /// Held pages without those that the kernel may reclaim, where the platform tells.
    pub phys_footprint_bytes: Option<u64>,
    pub sqlite: SqliteMemorySnapshot,
    pub allocator: AllocatorMemorySnapshot,
}

/// The model of [`ProcessMeasurements`].
pub struct ProcessMeasurementsView {
    pub rss_bytes: Option<u64>,
    pub phys_footprint_bytes: Option<u64>,
    pub sqlite: SqliteMemorySnapshotView,
    pub allocator: AllocatorMemorySnapshotView,
}

impl DeepView for ProcessMeasurements {
    type V = ProcessMeasurementsView;

    open spec fn deep_view(&self) -> ProcessMeasurementsView {
        ProcessMeasurementsView {
            rss_bytes: self.rss_bytes.deep_view(),
            phys_footprint_bytes: self.phys_footprint_bytes.deep_view(),
            sqlite: self.sqlite.deep_view(),
            allocator: self.allocator.deep_view(),
        }
    }
}

/// What the process holds in memory and how much of it is attributed.
#[derive(Debug, PartialEq, Eq)]
pub struct ProcessMemorySnapshot {
    pub rss_status: &'static str,
    pub rss_bytes: Option<u64>,
    pub phys_footprint_bytes: Option<u64>,
    pub rss_not_estimated: Option<&'static str>,
    pub sqlite: SqliteMemorySnapshot,
    pub allocator: AllocatorMemorySnapshot,
    pub total_attributed_bytes: u64,
    pub unattributed_bytes: Option<i64>,
    pub root_count: usize,
    pub busy_subsystems: usize,
    pub not_estimated_subsystems: usize,
}

/// The model of [`ProcessMemorySnapshot`].
pub struct ProcessMemorySnapshotView {
    pub rss_status: Seq<char>,
    pub rss_bytes: Option<u64>,
    pub phys_footprint_bytes: Option<u64>,
    pub rss_not_estimated: Option<Seq<char>>,
    pub sqlite: SqliteMemorySnapshotView,
    pub allocator: AllocatorMemorySnapshotView,
    pub total_attributed_bytes: u64,
    pub unattributed_bytes: Option<i64>,
    pub root_count: usize,
    pub busy_subsystems: usize,
    pub not_estimated_subsystems: usize,
}

impl DeepView for ProcessMemorySnapshot {
    type V = ProcessMemorySnapshotView;

    open spec fn deep_view(&self) -> ProcessMemorySnapshotView {
        ProcessMemorySnapshotView {
            rss_status: self.rss_status.deep_view(),
            rss_bytes: self.rss_bytes.deep_view(),
            phys_footprint_bytes: self.phys_footprint_bytes.deep_view(),
            rss_not_estimated: self.rss_not_estimated.deep_view(),
            sqlite: self.sqlite.deep_view(),
            allocator: self.allocator.deep_view(),
            total_attributed_bytes: self.total_attributed_bytes,
            unattributed_bytes: self.unattributed_bytes.deep_view(),
            root_count: self.root_count,
            busy_subsystems: self.busy_subsystems,
            not_estimated_subsystems: self.not_estimated_subsystems,
        }
    }
}

/// The bytes of all roots together.
pub open spec fn root_bytes_sum(roots: Seq<RootMemoryRollupView>) -> int
    decreases roots.len(),
{
    if roots.len() == 0 {
        0
    } else {
        root_bytes_sum(roots.drop_last()) + roots.last().attributed_bytes
    }
}

pub open spec fn root_busy_sum(roots: Seq<RootMemoryRollupView>) -> int
    decreases roots.len(),
{
    if roots.len() == 0 {
        0
    } else {
        root_busy_sum(roots.drop_last()) + roots.last().busy_subsystems
    }
}

pub open spec fn root_unknown_sum(roots: Seq<RootMemoryRollupView>) -> int
    decreases roots.len(),
{
    if roots.len() == 0 {
        0
    } else {
        root_unknown_sum(roots.drop_last()) + roots.last().not_estimated_subsystems
    }
}

pub open spec fn saturated_usize(sum: int) -> usize {
    if sum > usize::MAX {
        usize::MAX
    } else {
        sum as usize
    }
}

/// What is attributed: the roots, the shared semantic data, and what SQLite uses.
pub open spec fn attributed_total(
    roots: Seq<RootMemoryRollupView>,
    shared: MemoryEstimateView,
    sqlite: SqliteMemorySnapshotView,
) -> u64 {
    saturated(
        root_bytes_sum(roots) + (match shared.estimated_bytes {
            Some(bytes) => bytes as int,
            None => 0,
        }) + sqlite.memory_used_bytes,
    )
}

/// The process with its roots. What is not attributed is taken against the physical footprint
/// where that is known, against the resident set otherwise.
pub open spec fn process_attributed(
    roots: Seq<RootMemoryRollupView>,
    root_count: usize,
    shared: MemoryEstimateView,
    measured: ProcessMeasurementsView,
) -> ProcessMemorySnapshotView {
    let total = attributed_total(roots, shared, measured.sqlite);
    let basis = if measured.phys_footprint_bytes is Some {
        measured.phys_footprint_bytes
    } else {
        measured.rss_bytes
    };
    ProcessMemorySnapshotView {
        rss_status: if measured.rss_bytes is Some {
            "estimated"@
        } else {
            "not_estimated_on_this_platform"@
        },
        rss_bytes: measured.rss_bytes,
        phys_footprint_bytes: measured.phys_footprint_bytes,
        rss_not_estimated: if measured.rss_bytes is Some {
            None
        } else {
            Some("platform_process_rss_unavailable"@)
        },
        sqlite: measured.sqlite,
        allocator: measured.allocator,
        total_attributed_bytes: total,
        unattributed_bytes: match basis {
            Some(held) => Some(clamped_difference(held, total)),
            None => None,
        },
        root_count,
        busy_subsystems: saturated_usize(root_busy_sum(roots)),
        not_estimated_subsystems: saturated_usize(root_unknown_sum(roots)),
    }
}

/// The totals of all roots of a map.
pub open spec fn snapshot_rollups(roots: Seq<(Seq<char>, RootMemorySnapshotView)>) -> Seq<
    RootMemoryRollupView,
> {
    Seq::new(roots.len(), |i: int| rolled_up(root_estimates(roots[i].1)))
}

impl ProcessMemorySnapshot {
    /// Attributes the process to its roots.
    pub fn from_roots(
        roots: &TextMap<RootMemorySnapshot>,
        shared_semantic_bases: &MemoryEstimate,
        measured: ProcessMeasurements,
    ) -> (out: Self)
        ensures
            out.deep_view() == process_attributed(
                snapshot_rollups(roots.deep_view()),
                roots.deep_view().len() as usize,
                shared_semantic_bases.deep_view(),
                measured.deep_view(),
            ),
    {
        let mut rollups: Vec<RootMemoryRollup> = Vec::new();
        let mut i: usize = 0;
        while i < roots.entries.len()
            invariant
                i <= roots.entries.len(),
                rollups@.len() == i,
                forall|k: int|
                    0 <= k < i ==> (#[trigger] rollups@[k]).deep_view() == rolled_up(
                        root_estimates(roots.entries@[k].1.deep_view()),
                    ),
            decreases roots.entries.len() - i,
        {
            rollups.push(roots.entries[i].1.rollup());
            i = i + 1;
        }
        assert(rollups.deep_view() =~= snapshot_rollups(roots.deep_view()));
        Self::from_root_rollups(&rollups, roots.len(), shared_semantic_bases, measured)
    }

    /// Attributes the process to the totals of its roots.
    pub fn from_root_rollups(
        roots: &Vec<RootMemoryRollup>,
        root_count: usize,
        shared_semantic_bases: &MemoryEstimate,
        measured: ProcessMeasurements,
    ) -> (out: Self)
        ensures
            out.deep_view() == process_attributed(
                roots.deep_view(),
                root_count,
                shared_semantic_bases.deep_view(),
                measured.deep_view(),
            ),
    {
        let ghost model = roots.deep_view();
        let mut root_attributed_bytes: u64 = 0;
        let mut busy_subsystems: usize = 0;
        let mut not_estimated_subsystems: usize = 0;
        let mut i: usize = 0;
        assert(model.take(0) =~= Seq::empty());
        while i < roots.len()
            invariant
                i <= roots.len(),
                model == roots.deep_view(),
                root_bytes_sum(model.take(i as int)) >= 0,
                root_busy_sum(model.take(i as int)) >= 0,
                root_unknown_sum(model.take(i as int)) >= 0,
                root_attributed_bytes == saturated(root_bytes_sum(model.take(i as int))),
                busy_subsystems == saturated_usize(root_busy_sum(model.take(i as int))),
                not_estimated_subsystems == saturated_usize(
                    root_unknown_sum(model.take(i as int)),
                ),
            decreases roots.len() - i,
        {
            let root = &roots[i];
            proof {
                assert(model[i as int] == root.deep_view());
                assert(model.take(i + 1).drop_last() =~= model.take(i as int));
                assert(model.take(i + 1).last() == model[i as int]);
            }
            root_attributed_bytes = root_attributed_bytes.saturating_add(root.attributed_bytes);
            busy_subsystems = busy_subsystems.saturating_add(root.busy_subsystems);
            not_estimated_subsystems =
                not_estimated_subsystems.saturating_add(root.not_estimated_subsystems);
            i = i + 1;
        }
        assert(model.take(model.len() as int) =~= model);
        let shared: u64 = match shared_semantic_bases.estimated_bytes {
            Some(bytes) => bytes,
            None => 0,
        };
        let total_attributed_bytes: u64 = root_attributed_bytes.saturating_add(
            shared,
        ).saturating_add(measured.sqlite.memory_used_bytes);
        let rss_bytes = measured.rss_bytes;
        let basis = match measured.phys_footprint_bytes {
            Some(held) => Some(held),
            None => rss_bytes,
        };
        ProcessMemorySnapshot {
            rss_status: if rss_bytes.is_some() {
                "estimated"
            } else {
                "not_estimated_on_this_platform"
            },
            rss_bytes,
            phys_footprint_bytes: measured.phys_footprint_bytes,
            rss_not_estimated: if rss_bytes.is_some() {
                None
            } else {
                Some("platform_process_rss_unavailable")
            },
            sqlite: measured.sqlite,
            allocator: measured.allocator,
            total_attributed_bytes,
            unattributed_bytes: match basis {
                Some(held) => Some(signed_difference(held, total_attributed_bytes)),
                None => None,
            },
            root_count,
            busy_subsystems,
            not_estimated_subsystems,
        }
    }
}

/// How many roots are reported in detail.
pub const MEMORY_SNAPSHOT_ROOT_DETAIL_CAP: usize = 8;

/// A value that memory is attributed to.
pub trait Attributed: DeepView {
    spec fn weight(view: <Self as DeepView>::V) -> u64;

    fn attributed(&self) -> (bytes: u64)
        ensures
            bytes == Self::weight(self.deep_view()),
    ;
}

impl Attributed for RootMemoryRollup {
    open spec fn weight(view: RootMemoryRollupView) -> u64 {
        view.attributed_bytes
    }

    fn attributed(&self) -> (bytes: u64) {
        self.attributed_bytes
    }
}

impl Attributed for RootMemorySnapshot {
    open spec fn weight(view: RootMemorySnapshotView) -> u64 {
        view.attributed_bytes
    }

    fn attributed(&self) -> (bytes: u64) {
        self.attributed_bytes
    }
}

/// Whether one root ranks before another: it weighs more, or as much under an earlier name.
pub open spec fn ranks_before<T: Attributed>(
    a: (Seq<char>, <T as DeepView>::V),
    b: (Seq<char>, <T as DeepView>::V),
) -> bool {
    T::weight(a.1) > T::weight(b.1) || (T::weight(a.1) == T::weight(b.1) && text::text_less(
        a.0,
        b.0,
    ))
}

/// A ranking with one more root in its place.
pub open spec fn rank_inserted<T: Attributed>(
    ranking: Seq<(Seq<char>, <T as DeepView>::V)>,
    root: (Seq<char>, <T as DeepView>::V),
) -> Seq<(Seq<char>, <T as DeepView>::V)>
    decreases ranking.len(),
{
    if ranking.len() == 0 {
        seq![root]
    } else if ranks_before::<T>(root, ranking[0]) {
        seq![root] + ranking
    } else {
        seq![ranking[0]] + rank_inserted::<T>(ranking.drop_first(), root)
    }
}

/// The roots by rank.
pub open spec fn ranked<T: Attributed>(roots: Seq<(Seq<char>, <T as DeepView>::V)>) -> Seq<
    (Seq<char>, <T as DeepView>::V),
>
    decreases roots.len(),
{
    if roots.len() == 0 {
        Seq::empty()
    } else {
        rank_inserted::<T>(ranked::<T>(roots.drop_last()), roots.last())
    }
}

pub open spec fn weight_sum<T: Attributed>(roots: Seq<(Seq<char>, <T as DeepView>::V)>) -> int
    decreases roots.len(),
{
    if roots.len() == 0 {
        0
    } else {
        weight_sum::<T>(roots.drop_last()) + T::weight(roots.last().1)
    }
}

/// The heaviest `cap` roots in the order of their names, how many are left out, and what those
/// weigh.
pub open spec fn capped<T: Attributed>(roots: Seq<(Seq<char>, <T as DeepView>::V)>, cap: nat) -> (
    Seq<(Seq<char>, <T as DeepView>::V)>,
    nat,
    u64,
) {
    if roots.len() <= cap {
        (roots, 0, 0)
    } else {
        let ranking = ranked::<T>(roots);
        (
            text_map::map_put_all(Seq::empty(), ranking.take(cap as int)),
            (roots.len() - cap) as nat,
            saturated(weight_sum::<T>(ranking.skip(cap as int))),
        )
    }
}

fn rank_insert<T: Attributed>(ranking: &mut Vec<(String, T)>, root: (String, T))
    ensures
        final(ranking).deep_view() == rank_inserted::<T>(old(ranking).deep_view(), root.deep_view()),
{
    let ghost model = ranking.deep_view();
    let ghost added = root.deep_view();
    let mut i: usize = 0;
    assert(model.take(0) + rank_inserted::<T>(model.skip(0), added) =~= rank_inserted::<T>(
        model,
        added,
    )) by {
        assert(model.skip(0) =~= model);
    }
    while i < ranking.len()
        invariant
            i <= ranking.len(),
            model == ranking.deep_view(),
            model == old(ranking).deep_view(),
            added == root.deep_view(),
            rank_inserted::<T>(model, added) == model.take(i as int) + rank_inserted::<T>(
                model.skip(i as int),
                added,
            ),
        decreases ranking.len() - i,
    {
        let ghost rest = model.skip(i as int);
        assert(rest[0] == ranking@[i as int].deep_view());
        let mine: u64 = root.1.attributed();
        let other: u64 = ranking[i].1.attributed();
        if mine > other || (mine == other && text::text_before(
            root.0.as_str(),
            ranking[i].0.as_str(),
        )) {
            ranking.insert(i, root);
            assert(ranking.deep_view() =~= model.take(i as int) + (seq![added] + rest));
            return ;
        }
        proof {
            assert(rest.drop_first() =~= model.skip(i + 1));
            assert(model.take(i as int) + (seq![rest[0]] + rank_inserted::<T>(
                rest.drop_first(),
                added,
            )) =~= model.take(i + 1) + rank_inserted::<T>(model.skip(i + 1), added));
        }
        i = i + 1;
    }
    ranking.push(root);
    proof {
        assert(model.skip(i as int).len() == 0);
        assert(ranking.deep_view() =~= model.take(i as int) + seq![added]);
    }
}

/// Keeps the heaviest `cap` roots.
pub fn cap_roots<T: Attributed>(roots: TextMap<T>, cap: usize) -> (out: (TextMap<T>, usize, u64))
    ensures
        out.0.deep_view() == capped::<T>(roots.deep_view(), cap as nat).0,
        out.1 == capped::<T>(roots.deep_view(), cap as nat).1,
        out.2 == capped::<T>(roots.deep_view(), cap as nat).2,
{
    if roots.len() <= cap {
        return (roots, 0, 0);
    }
    let ghost model = roots.deep_view();
    let entries = roots.entries;
    let ghost all = entries@;
    let mut ranking: Vec<(String, T)> = Vec::new();
    proof {
        assert(ranking.deep_view() =~= Seq::empty());
        assert(model.take(0) =~= Seq::empty());
    }
    for entry in iter: entries
        invariant
            iter.seq() == all,
            model.len() == all.len(),
            forall|k: int| 0 <= k < all.len() ==> #[trigger] model[k] == all[k].deep_view(),
            ranking.deep_view() == ranked::<T>(model.take(iter.index() as int)),
            ranking@.len() == iter.index(),
    {
        let ghost i = iter.index() as int;
        proof {
            assert(model[i] == entry.deep_view());
            assert(model.take(i + 1).drop_last() =~= model.take(i));
            assert(model.take(i + 1).last() == model[i]);
            lemma_rank_insert_len::<T>(ranking.deep_view(), entry.deep_view());
        }
        rank_insert(&mut ranking, entry);
        assert(ranking.deep_view().len() == ranking@.len());
    }
    assert(model.take(model.len() as int) =~= model);
    let ghost ranks = ranking.deep_view();
    let omitted = ranking.split_off(cap);
    proof {
        assert(ranking.deep_view() =~= ranks.take(cap as int));
        assert(omitted.deep_view() =~= ranks.skip(cap as int));
    }
    let ghost left_out = omitted.deep_view();
    let mut omitted_bytes: u64 = 0;
    let mut i: usize = 0;
    assert(left_out.take(0) =~= Seq::empty());
    while i < omitted.len()
        invariant
            i <= omitted.len(),
            left_out == omitted.deep_view(),
            weight_sum::<T>(left_out.take(i as int)) >= 0,
            omitted_bytes == saturated(weight_sum::<T>(left_out.take(i as int))),
        decreases omitted.len() - i,
    {
        proof {
            assert(left_out[i as int] == omitted@[i as int].deep_view());
            assert(left_out.take(i + 1).drop_last() =~= left_out.take(i as int));
            assert(left_out.take(i + 1).last() == left_out[i as int]);
        }
        omitted_bytes = omitted_bytes.saturating_add(omitted[i].1.attributed());
        i = i + 1;
    }
    assert(left_out.take(left_out.len() as int) =~= left_out);
    let count: usize = omitted.len();
    let mut kept: TextMap<T> = TextMap::new();
    kept.extend(TextMap { entries: ranking });
    (kept, count, omitted_bytes)
}

proof fn lemma_rank_insert_len<T: Attributed>(
    ranking: Seq<(Seq<char>, <T as DeepView>::V)>,
    root: (Seq<char>, <T as DeepView>::V),
)
    ensures
        rank_inserted::<T>(ranking, root).len() == ranking.len() + 1,
    decreases ranking.len(),
{
    if ranking.len() > 0 && !ranks_before::<T>(root, ranking[0]) {
        lemma_rank_insert_len::<T>(ranking.drop_first(), root);
    }
}

/// Keeps the heaviest totals.
pub fn cap_root_rollups(roots: TextMap<RootMemoryRollup>, cap: usize) -> (out: (
    TextMap<RootMemoryRollup>,
    usize,
    u64,
))
    ensures
        out.0.deep_view() == capped::<RootMemoryRollup>(roots.deep_view(), cap as nat).0,
        out.1 == capped::<RootMemoryRollup>(roots.deep_view(), cap as nat).1,
        out.2 == capped::<RootMemoryRollup>(roots.deep_view(), cap as nat).2,
{
    cap_roots(roots, cap)
}

/// Keeps the heaviest roots in detail.
pub fn cap_root_detail(roots: TextMap<RootMemorySnapshot>, cap: usize) -> (out: (
    TextMap<RootMemorySnapshot>,
    usize,
    u64,
))
    ensures
        out.0.deep_view() == capped::<RootMemorySnapshot>(roots.deep_view(), cap as nat).0,
        out.1 == capped::<RootMemorySnapshot>(roots.deep_view(), cap as nat).1,
        out.2 == capped::<RootMemorySnapshot>(roots.deep_view(), cap as nat).2,
{
    cap_roots(roots, cap)
}

/// Memory by root and of the process. The roots are the heaviest ones; the rest is summed up.
#[derive(Debug, PartialEq, Eq)]
pub struct MemorySnapshot {
    pub roots_status: &'static str,
    pub roots: TextMap<RootMemorySnapshot>,
    pub roots_total: usize,
    pub roots_omitted: usize,
    pub roots_omitted_bytes: u64,
    pub shared_semantic_bases: MemoryEstimate,
    pub process: ProcessMemorySnapshot,
}

/// The model of [`MemorySnapshot`].
pub struct MemorySnapshotView {
    pub roots_status: Seq<char>,
    pub roots: Seq<(Seq<char>, RootMemorySnapshotView)>,
    pub roots_total: usize,
    pub roots_omitted: usize,
    pub roots_omitted_bytes: u64,
    pub shared_semantic_bases: MemoryEstimateView,
    pub process: ProcessMemorySnapshotView,
}

impl DeepView for MemorySnapshot {
    type V = MemorySnapshotView;

    open spec fn deep_view(&self) -> MemorySnapshotView {
        MemorySnapshotView {
            roots_status: self.roots_status.deep_view(),
            roots: self.roots.deep_view(),
            roots_total: self.roots_total,
            roots_omitted: self.roots_omitted,
            roots_omitted_bytes: self.roots_omitted_bytes,
            shared_semantic_bases: self.shared_semantic_bases.deep_view(),
            process: self.process.deep_view(),
        }
    }
}

/// Root totals and the process, for health reports.
#[derive(Debug, PartialEq, Eq)]
pub struct MemoryRollupSnapshot {
    pub roots_status: &'static str,
    pub roots: TextMap<RootMemoryRollup>,
    pub roots_total: usize,
    pub roots_omitted: usize,
    pub roots_omitted_bytes: u64,
    pub process: ProcessMemorySnapshot,
}

/// The model of [`MemoryRollupSnapshot`].
pub struct MemoryRollupSnapshotView {
    pub roots_status: Seq<char>,
    pub roots: Seq<(Seq<char>, RootMemoryRollupView)>,
    pub roots_total: usize,
    pub roots_omitted: usize,
    pub roots_omitted_bytes: u64,
    pub process: ProcessMemorySnapshotView,
}

impl DeepView for MemoryRollupSnapshot {
    type V = MemoryRollupSnapshotView;

    open spec fn deep_view(&self) -> MemoryRollupSnapshotView {
        MemoryRollupSnapshotView {
            roots_status: self.roots_status.deep_view(),
            roots: self.roots.deep_view(),
            roots_total: self.roots_total,
            roots_omitted: self.roots_omitted,
            roots_omitted_bytes: self.roots_omitted_bytes,
            process: self.process.deep_view(),
        }
    }
}

/// The totals of all roots of a map.
pub open spec fn values_of(roots: Seq<(Seq<char>, RootMemoryRollupView)>) -> Seq<
    RootMemoryRollupView,
> {
    Seq::new(roots.len(), |i: int| roots[i].1)
}

impl RootMemoryRollup {
    fn copy(&self) -> (out: RootMemoryRollup)
        ensures
            out.deep_view() == self.deep_view(),
    {
        RootMemoryRollup {
            status: self.status,
            attributed_bytes: self.attributed_bytes,
            busy_subsystems: self.busy_subsystems,
            not_estimated_subsystems: self.not_estimated_subsystems,
            standing: self.standing,
        }
    }
}

impl MemoryRollupSnapshot {
    /// Root totals for a health report. The totals of the process cover every root before the
    /// list of roots is capped.
    pub fn new(
        roots_status: &'static str,
        roots: TextMap<RootMemoryRollup>,
        shared_semantic_bases: &MemoryEstimate,
        measured: ProcessMeasurements,
    ) -> (out: Self)
        ensures
            ({
                let (kept, omitted, omitted_bytes) = capped::<RootMemoryRollup>(
                    roots.deep_view(),
                    8,
                );
                out.deep_view() == MemoryRollupSnapshotView {
                    roots_status: roots_status@,
                    roots: kept,
                    roots_total: roots.deep_view().len() as usize,
                    roots_omitted: omitted as usize,
                    roots_omitted_bytes: omitted_bytes,
                    process: process_attributed(
                        values_of(roots.deep_view()),
                        roots.deep_view().len() as usize,
                        shared_semantic_bases.deep_view(),
                        measured.deep_view(),
                    ),
                }
            }),
    {
        let mut rollups: Vec<RootMemoryRollup> = Vec::new();
        let mut i: usize = 0;
        while i < roots.entries.len()
            invariant
                i <= roots.entries.len(),
                rollups@.len() == i,
                forall|k: int|
                    0 <= k < i ==> (#[trigger] rollups@[k]).deep_view()
                        == roots.entries@[k].1.deep_view(),
            decreases roots.entries.len() - i,
        {
            rollups.push(roots.entries[i].1.copy());
            i = i + 1;
        }
        assert(rollups.deep_view() =~= values_of(roots.deep_view()));
        let roots_total: usize = roots.len();
        let process = ProcessMemorySnapshot::from_root_rollups(
            &rollups,
            roots_total,
            shared_semantic_bases,
            measured,
        );
        let (roots, roots_omitted, roots_omitted_bytes) = cap_root_rollups(
            roots,
            MEMORY_SNAPSHOT_ROOT_DETAIL_CAP,
        );
        MemoryRollupSnapshot {
            roots_status,
            roots,
            roots_total,
            roots_omitted,
            roots_omitted_bytes,
            process,
        }
    }
}

impl MemorySnapshot {
    /// Memory by root and of the process. The totals of the process cover every root before the
    /// list of roots is capped.
    pub fn new(
        roots_status: &'static str,
        roots: TextMap<RootMemorySnapshot>,
        shared_semantic_bases: MemoryEstimate,
        measured: ProcessMeasurements,
    ) -> (out: Self)
        ensures
            ({
                let (kept, omitted, omitted_bytes) = capped::<RootMemorySnapshot>(
                    roots.deep_view(),
                    8,
                );
                out.deep_view() == MemorySnapshotView {
                    roots_status: roots_status@,
                    roots: kept,
                    roots_total: roots.deep_view().len() as usize,
                    roots_omitted: omitted as usize,
                    roots_omitted_bytes: omitted_bytes,
                    shared_semantic_bases: shared_semantic_bases.deep_view(),
                    process: process_attributed(
                        snapshot_rollups(roots.deep_view()),
                        roots.deep_view().len() as usize,
                        shared_semantic_bases.deep_view(),
                        measured.deep_view(),
                    ),
                }
            }),
    {
        let process = ProcessMemorySnapshot::from_roots(&roots, &shared_semantic_bases, measured);
        let roots_total: usize = roots.len();
        let (roots, roots_omitted, roots_omitted_bytes) = cap_root_detail(
            roots,
            MEMORY_SNAPSHOT_ROOT_DETAIL_CAP,
        );
        MemorySnapshot {
            roots_status,
            roots,
            roots_total,
            roots_omitted,
            roots_omitted_bytes,
            shared_semantic_bases,
            process,
        }
    }
}

/// What a JSON value takes in memory, about: the bytes of its texts and keys, one byte for a
/// switch, sixteen for a number.
pub open spec fn json_weight(value: JsonView) -> int
    decreases value,
{
    match value {
        JsonView::Null => 0,
        JsonView::Bool(_) => 1,
        JsonView::Unsigned(_) => 16,
        JsonView::Negative(_) => 16,
        JsonView::Float(_) => 16,
        JsonView::Text(t) => text::byte_len(t) as int,
        JsonView::List(items) => json_weights(items),
        JsonView::Object(entries) => json_entry_weights(entries),
    }
}

pub open spec fn json_weights(items: Seq<JsonView>) -> int
    decreases items,
{
    if items.len() == 0 {
        0
    } else {
        json_weights(items.drop_last()) + json_weight(items.last())
    }
}

pub open spec fn json_entry_weights(entries: Seq<(Seq<char>, JsonView)>) -> int
    decreases entries,
{
    if entries.len() == 0 {
        0
    } else {
        json_entry_weights(entries.drop_last()) + text::byte_len(entries.last().0) + json_weight(
            entries.last().1,
        )
    }
}

proof fn lemma_json_weight_nonnegative(value: JsonView)
    ensures
        json_weight(value) >= 0,
    decreases value,
{
    match value {
        JsonView::List(items) => lemma_json_weights_nonnegative(items),
        JsonView::Object(entries) => lemma_json_entry_weights_nonnegative(entries),
        _ => {},
    }
}

proof fn lemma_json_weights_nonnegative(items: Seq<JsonView>)
    ensures
        json_weights(items) >= 0,
    decreases items,
{
    if items.len() > 0 {
        lemma_json_weights_nonnegative(items.drop_last());
        lemma_json_weight_nonnegative(items.last());
    }
}

proof fn lemma_json_entry_weights_nonnegative(entries: Seq<(Seq<char>, JsonView)>)
    ensures
        json_entry_weights(entries) >= 0,
    decreases entries,
{
    if entries.len() > 0 {
        lemma_json_entry_weights_nonnegative(entries.drop_last());
        lemma_json_weight_nonnegative(entries.last().1);
    }
}

/// Estimates what a JSON value takes in memory.
pub fn estimated_json_bytes(value: &Json) -> (out: u64)
    ensures
        out == saturated(json_weight(value.deep_view())),
    decreases value,
{
    match value {
        Json::Null => 0,
        Json::Bool(_) => 1,
        Json::Unsigned(_) => 16,
        Json::Negative(_) => 16,
        Json::Float(_) => 16,
        Json::Text(t) => text::count_bytes(t.as_str()),
        Json::List(items) => {
            let ghost model = value.deep_view()->List_0;
            let mut bytes: u64 = 0;
            let mut i: usize = 0;
            assert(model.take(0) =~= Seq::empty());
            while i < items.len()
                invariant
                    i <= items.len(),
                    *value == Json::List(*items),
                    model == value.deep_view()->List_0,
                    bytes == saturated(json_weights(model.take(i as int))),
                decreases items.len() - i,
            {
                proof {
                    assert(model[i as int] == items@[i as int].deep_view());
                    assert(model.take(i + 1).drop_last() =~= model.take(i as int));
                    assert(model.take(i + 1).last() == model[i as int]);
                    assert(decreases_to!(*value => value->List_0@[i as int]));
                    lemma_json_weights_nonnegative(model.take(i as int));
                    lemma_json_weight_nonnegative(model[i as int]);
                }
                bytes = bytes.saturating_add(estimated_json_bytes(&items[i]));
                i = i + 1;
            }
            assert(model.take(model.len() as int) =~= model);
            bytes
        },
        Json::Object(entries) => {
            let ghost model = value.deep_view()->Object_0;
            let mut bytes: u64 = 0;
            let mut i: usize = 0;
            assert(model.take(0) =~= Seq::empty());
            while i < entries.len()
                invariant
                    i <= entries.len(),
                    *value == Json::Object(*entries),
                    model == value.deep_view()->Object_0,
                    bytes == saturated(json_entry_weights(model.take(i as int))),
                decreases entries.len() - i,
            {
                proof {
                    assert(model[i as int] == (
                        entries@[i as int].0@,
                        entries@[i as int].1.deep_view(),
                    ));
                    assert(model.take(i + 1).drop_last() =~= model.take(i as int));
                    assert(model.take(i + 1).last() == model[i as int]);
                    assert(decreases_to!(*value => value->Object_0@[i as int].1));
                    lemma_json_entry_weights_nonnegative(model.take(i as int));
                    lemma_json_weight_nonnegative(model[i as int].1);
                }
                bytes = bytes.saturating_add(
                    text::count_bytes(entries[i].0.as_str()),
                ).saturating_add(estimated_json_bytes(&entries[i].1));
                i = i + 1;
            }
            assert(model.take(model.len() as int) =~= model);
            bytes
        },
    }
}

/// The allocator behind the process's own allocations.
pub fn allocator_backend_name() -> (out: &'static str)
    ensures
        out@ == "mimalloc"@,
{
    "mimalloc"
}

/// Which allocator native libraries use.
#[derive(Debug, Clone, Copy, PartialEq, Eq, Structural)]
pub enum NativePlatform {
    MacOs,
    LinuxGnu,
    Other,
}

/// Which allocators a relief pass reaches.
#[derive(Debug, Clone, Copy, PartialEq, Eq, Structural)]
pub struct AllocatorReliefCoverage {
    pub mimalloc: bool,
    pub platform_allocator: bool,
}

pub fn allocator_relief_coverage(platform: NativePlatform) -> (out: AllocatorReliefCoverage)
    ensures
        out.mimalloc,
        out.platform_allocator == (platform != NativePlatform::Other),
{
    AllocatorReliefCoverage {
        mimalloc: true,
        platform_allocator: match platform {
            NativePlatform::Other => false,
            _ => true,
        },
    }
}

/// Slack above which a relief pass is worth its contention: one gibibyte.
pub const ALLOCATOR_SLACK_RELIEF_THRESHOLD_BYTES: u64 = 1_073_741_824;

/// The least time between two slack scans, in nanoseconds: five minutes.
pub const ALLOCATOR_SLACK_SCAN_MIN_INTERVAL: u64 = 300_000_000_000;

/// Whether a slack scan is due; times are nanoseconds of one monotonic clock.
pub fn allocator_slack_scan_due(last_scan: Option<u64>, now: u64) -> (due: bool)
    ensures
        due == (match last_scan {
            None => true,
            Some(at) => now - at >= 300_000_000_000,
        }),
{
    match last_scan {
        None => true,
        Some(at) => now >= at && now - at >= ALLOCATOR_SLACK_SCAN_MIN_INTERVAL,
    }
}

/// Whether a relief pass is due for a measured slack.
pub fn allocator_slack_relief_due(retained_slack_bytes: Option<u64>) -> (due: bool)
    ensures
        due == (retained_slack_bytes is Some && retained_slack_bytes->0 >= 1_073_741_824),
{
    match retained_slack_bytes {
        Some(slack) => slack >= ALLOCATOR_SLACK_RELIEF_THRESHOLD_BYTES,
        None => false,
    }
}

/// What a relief pass gave back.
#[derive(Debug, PartialEq, Eq)]
pub struct AllocatorPressureRelief {
    pub bytes_released: u64,
    pub rss_before_bytes: Option<u64>,
    pub rss_after_bytes: Option<u64>,
    pub allocator_before: AllocatorMemorySnapshot,
    pub allocator_after: AllocatorMemorySnapshot,
}

/// The model of [`AllocatorPressureRelief`].
pub struct AllocatorPressureReliefView {
    pub bytes_released: u64,
    pub rss_before_bytes: Option<u64>,
    pub rss_after_bytes: Option<u64>,
    pub allocator_before: AllocatorMemorySnapshotView,
    pub allocator_after: AllocatorMemorySnapshotView,
}

impl DeepView for AllocatorPressureRelief {
    type V = AllocatorPressureReliefView;

    open spec fn deep_view(&self) -> AllocatorPressureReliefView {
        AllocatorPressureReliefView {
            bytes_released: self.bytes_released,
            rss_before_bytes: self.rss_before_bytes.deep_view(),
            rss_after_bytes: self.rss_after_bytes.deep_view(),
            allocator_before: self.allocator_before.deep_view(),
            allocator_after: self.allocator_after.deep_view(),
        }
    }
}

/// What shrank between two measurements.
pub open spec fn shrinkage(before: Option<u64>, after: Option<u64>) -> u64 {
    match (before, after) {
        (Some(before), Some(after)) => if before > after {
            (before - after) as u64
        } else {
            0
        },
        _ => 0,
    }
}

fn shrank_by(before: Option<u64>, after: Option<u64>) -> (out: u64)
    ensures
        out == shrinkage(before, after),
{
    match (before, after) {
        (Some(before), Some(after)) => before.saturating_sub(after),
        _ => 0,
    }
}

pub open spec fn larger(a: u64, b: u64) -> u64 {
    if a > b {
        a
    } else {
        b
    }
}

/// Judges a relief pass by what was measured around it: it released the most that the
/// allocator, the platform or the resident set shows.
pub fn judge_pressure_relief(
    rss_before_bytes: Option<u64>,
    allocator_before: AllocatorMemorySnapshot,
    platform_released: u64,
    allocator_after: AllocatorMemorySnapshot,
    rss_after_bytes: Option<u64>,
) -> (out: AllocatorPressureRelief)
    ensures
        out.bytes_released == larger(
            larger(
                shrinkage(allocator_before.size_allocated, allocator_after.size_allocated),
                platform_released,
            ),
            shrinkage(rss_before_bytes, rss_after_bytes),
        ),
        out.rss_before_bytes == rss_before_bytes,
        out.rss_after_bytes == rss_after_bytes,
        out.allocator_before == allocator_before,
        out.allocator_after == allocator_after,
{
    let allocator_released: u64 = shrank_by(
        allocator_before.size_allocated,
        allocator_after.size_allocated,
    );
    let rss_released: u64 = shrank_by(rss_before_bytes, rss_after_bytes);
    let mut bytes_released: u64 = allocator_released;
    if platform_released > bytes_released {
        bytes_released = platform_released;
    }
    if rss_released > bytes_released {
        bytes_released = rss_released;
    }
    AllocatorPressureRelief {
        bytes_released,
        rss_before_bytes,
        rss_after_bytes,
        allocator_before,
        allocator_after,
    }
}

/// The resident set that a `statm` line and a page size amount to.
pub open spec fn rss_from(statm: Seq<char>, page_size: i64) -> Option<u64> {
    match text::word_at(statm, 1) {
        Some(word) => match text::number_of(word) {
            Some(pages) => if page_size > 0 && pages * page_size <= u64::MAX {
                Some((pages * page_size) as u64)
            } else {
                None
            },
            None => None,
        },
        None => None,
    }
}

/// Reads the resident set out of a `statm` line: its second number counts pages.
pub fn rss_from_statm(statm: &str, page_size: i64) -> (out: Option<u64>)
    ensures
        out == rss_from(statm@, page_size),
{
    match text::nth_word(statm, 1) {
        Some(word) => match text::parse_number(word.as_str()) {
            Some(pages) => if page_size <= 0 {
                None
            } else {
                let size: u64 = page_size as u64;
                pages.checked_mul(size)
            },
            None => None,
        },
        None => None,
    }
}

/// Whether a ranking is in order.
pub open spec fn in_rank_order<T: Attributed>(ranking: Seq<(Seq<char>, <T as DeepView>::V)>) -> bool {
    forall|i: int, j: int|
        0 <= i < j < ranking.len() ==> !ranks_before::<T>(
            #[trigger] ranking[j],
            #[trigger] ranking[i],
        )
}

proof fn lemma_ranks_transitive<T: Attributed>(
    a: (Seq<char>, <T as DeepView>::V),
    b: (Seq<char>, <T as DeepView>::V),
    c: (Seq<char>, <T as DeepView>::V),
)
    requires
        ranks_before::<T>(a, b),
        !ranks_before::<T>(c, b),
    ensures
        !ranks_before::<T>(c, a),
{
    if ranks_before::<T>(c, a) {
        if T::weight(c.1) == T::weight(a.1) && T::weight(a.1) == T::weight(b.1) {
            text::lemma_text_less_transitive(c.0, a.0, b.0);
        }
    }
}

proof fn lemma_rank_insert_order<T: Attributed>(
    ranking: Seq<(Seq<char>, <T as DeepView>::V)>,
    root: (Seq<char>, <T as DeepView>::V),
)
    requires
        in_rank_order::<T>(ranking),
    ensures
        in_rank_order::<T>(rank_inserted::<T>(ranking, root)),
        rank_inserted::<T>(ranking, root).to_multiset() == ranking.to_multiset().insert(root),
        forall|k: int|
            0 <= k < rank_inserted::<T>(ranking, root).len() ==> {
                ||| #[trigger] rank_inserted::<T>(ranking, root)[k] == root
                ||| ranking.contains(rank_inserted::<T>(ranking, root)[k])
            },
    decreases ranking.len(),
{
    broadcast use vstd::seq_lib::group_to_multiset_ensures;

    let out = rank_inserted::<T>(ranking, root);
    if ranking.len() == 0 {
        assert(out =~= ranking.push(root));
    } else if ranks_before::<T>(root, ranking[0]) {
        assert forall|i: int, j: int| 0 <= i < j < out.len() implies !ranks_before::<T>(
            #[trigger] out[j],
            #[trigger] out[i],
        ) by {
            assert(out[j] == ranking[j - 1]);
            if i == 0 {
                if j > 1 {
                    assert(!ranks_before::<T>(ranking[j - 1], ranking[0]));
                    lemma_ranks_transitive::<T>(root, ranking[0], ranking[j - 1]);
                } else {
                    lemma_ranks_asymmetric::<T>(root, ranking[0]);
                }
            } else {
                assert(out[i] == ranking[i - 1]);
            }
        }
        assert forall|k: int| 0 <= k < out.len() implies (#[trigger] out[k] == root
            || ranking.contains(out[k])) by {
            if k > 0 {
                assert(out[k] == ranking[k - 1]);
            }
        }
        assert(out =~= ranking.insert(0, root));
    } else {
        let rest = ranking.drop_first();
        assert(in_rank_order::<T>(rest)) by {
            assert forall|i: int, j: int| 0 <= i < j < rest.len() implies !ranks_before::<T>(
                #[trigger] rest[j],
                #[trigger] rest[i],
            ) by {
                assert(rest[i] == ranking[i + 1] && rest[j] == ranking[j + 1]);
            }
        }
        lemma_rank_insert_order::<T>(rest, root);
        let tail = rank_inserted::<T>(rest, root);
        assert forall|k: int| 0 <= k < tail.len() implies !ranks_before::<T>(
            #[trigger] tail[k],
            ranking[0],
        ) by {
            if tail[k] != root {
                let m = choose|m: int| 0 <= m < rest.len() && rest[m] == tail[k];
                assert(ranking[m + 1] == rest[m]);
            }
        }
        assert forall|i: int, j: int| 0 <= i < j < out.len() implies !ranks_before::<T>(
            #[trigger] out[j],
            #[trigger] out[i],
        ) by {
            assert(out[j] == tail[j - 1]);
            if i > 0 {
                assert(out[i] == tail[i - 1]);
            }
        }
        assert forall|k: int| 0 <= k < out.len() implies (#[trigger] out[k] == root
            || ranking.contains(out[k])) by {
            if k == 0 {
                assert(ranking[0] == out[0]);
            } else {
                assert(out[k] == tail[k - 1]);
                if tail[k - 1] != root {
                    let m = choose|m: int| 0 <= m < rest.len() && rest[m] == tail[k - 1];
                    assert(ranking[m + 1] == rest[m]);
                }
            }
        }
        assert(ranking =~= rest.insert(0, ranking[0]));
        assert(out =~= tail.insert(0, ranking[0]));
        assert(out.to_multiset() =~= ranking.to_multiset().insert(root));
    }
}

proof fn lemma_ranks_asymmetric<T: Attributed>(
    a: (Seq<char>, <T as DeepView>::V),
    b: (Seq<char>, <T as DeepView>::V),
)
    requires
        ranks_before::<T>(a, b),
    ensures
        !ranks_before::<T>(b, a),
{
    if ranks_before::<T>(b, a) {
        text::lemma_text_less_transitive(a.0, b.0, a.0);
        text::lemma_text_less_irreflexive(a.0);
    }
}

/// Ranking roots orders them and neither adds nor loses one; so every reported root weighs at
/// least as much as every omitted one.
pub proof fn law_ranking_orders_all_roots<T: Attributed>(
    roots: Seq<(Seq<char>, <T as DeepView>::V)>,
)
    ensures
        in_rank_order::<T>(ranked::<T>(roots)),
        ranked::<T>(roots).to_multiset() == roots.to_multiset(),
        forall|i: int, j: int|
            0 <= i < j < ranked::<T>(roots).len() ==> T::weight(
                (#[trigger] ranked::<T>(roots)[i]).1,
            ) >= T::weight((#[trigger] ranked::<T>(roots)[j]).1),
    decreases roots.len(),
{
    broadcast use vstd::seq_lib::group_to_multiset_ensures;

    if roots.len() > 0 {
        law_ranking_orders_all_roots::<T>(roots.drop_last());
        lemma_rank_insert_order::<T>(ranked::<T>(roots.drop_last()), roots.last());
        assert(roots =~= roots.drop_last().push(roots.last()));
    }
    let ranking = ranked::<T>(roots);
    assert forall|i: int, j: int| 0 <= i < j < ranking.len() implies T::weight(
        (#[trigger] ranking[i]).1,
    ) >= T::weight((#[trigger] ranking[j]).1) by {
        assert(!ranks_before::<T>(ranking[j], ranking[i]));
    }
}

/// Under the cap everything is reported and nothing is omitted.
pub proof fn law_under_cap_nothing_is_omitted<T: Attributed>(
    roots: Seq<(Seq<char>, <T as DeepView>::V)>,
    cap: nat,
)
    requires
        roots.len() <= cap,
    ensures
        capped::<T>(roots, cap) == (roots, 0nat, 0u64),
{
}

proof fn lemma_weight_of_front<T: Attributed>(
    first: (Seq<char>, <T as DeepView>::V),
    rest: Seq<(Seq<char>, <T as DeepView>::V)>,
)
    ensures
        weight_sum::<T>(seq![first] + rest) == T::weight(first.1) + weight_sum::<T>(rest),
    decreases rest.len(),
{
    let whole = seq![first] + rest;
    if rest.len() == 0 {
        assert(whole.drop_last() =~= rest);
        assert(whole.last() == first);
    } else {
        assert(whole.drop_last() =~= seq![first] + rest.drop_last());
        assert(whole.last() == rest.last());
        lemma_weight_of_front::<T>(first, rest.drop_last());
    }
}

proof fn lemma_weight_of_halves<T: Attributed>(
    roots: Seq<(Seq<char>, <T as DeepView>::V)>,
    at: int,
)
    requires
        0 <= at <= roots.len(),
    ensures
        weight_sum::<T>(roots) == weight_sum::<T>(roots.take(at)) + weight_sum::<T>(roots.skip(at)),
    decreases roots.len() - at,
{
    if at == roots.len() {
        assert(roots.take(at) =~= roots);
        assert(roots.skip(at).len() == 0);
    } else {
        lemma_weight_of_halves::<T>(roots, at + 1);
        assert(roots.take(at + 1).drop_last() =~= roots.take(at));
        assert(roots.take(at + 1).last() == roots[at]);
        assert(roots.skip(at) =~= seq![roots[at]] + roots.skip(at + 1));
        lemma_weight_of_front::<T>(roots[at], roots.skip(at + 1));
    }
}

proof fn lemma_weights_nonnegative<T: Attributed>(roots: Seq<(Seq<char>, <T as DeepView>::V)>)
    ensures
        weight_sum::<T>(roots) >= 0,
    decreases roots.len(),
{
    if roots.len() > 0 {
        lemma_weights_nonnegative::<T>(roots.drop_last());
    }
}

/// No name occurs twice.
pub open spec fn names_distinct<V>(roots: Seq<(Seq<char>, V)>) -> bool {
    forall|i: int, j: int|
        0 <= i < j < roots.len() ==> (#[trigger] roots[i]).0 != (#[trigger] roots[j]).0
}

proof fn lemma_rank_insert_keeps<T: Attributed>(
    ranking: Seq<(Seq<char>, <T as DeepView>::V)>,
    root: (Seq<char>, <T as DeepView>::V),
)
    requires
        names_distinct(ranking),
        forall|i: int| 0 <= i < ranking.len() ==> (#[trigger] ranking[i]).0 != root.0,
    ensures
        names_distinct(rank_inserted::<T>(ranking, root)),
        rank_inserted::<T>(ranking, root).len() == ranking.len() + 1,
        weight_sum::<T>(rank_inserted::<T>(ranking, root)) == weight_sum::<T>(ranking) + T::weight(
            root.1,
        ),
        forall|k: int|
            0 <= k < rank_inserted::<T>(ranking, root).len() ==> {
                ||| (#[trigger] rank_inserted::<T>(ranking, root)[k]) == root
                ||| ranking.contains(rank_inserted::<T>(ranking, root)[k])
            },
    decreases ranking.len(),
{
    let out = rank_inserted::<T>(ranking, root);
    if ranking.len() == 0 {
        assert(out.drop_last() =~= ranking);
        assert(out.last() == root);
    } else if ranks_before::<T>(root, ranking[0]) {
        lemma_weight_of_front::<T>(root, ranking);
        assert forall|k: int| 0 <= k < out.len() implies (out[k] == root || ranking.contains(
            out[k],
        )) by {
            if k > 0 {
                assert(out[k] == ranking[k - 1]);
            }
        }
        assert forall|i: int, j: int| 0 <= i < j < out.len() implies (#[trigger] out[i]).0 != (
        #[trigger] out[j]).0 by {
            assert(out[j] == ranking[j - 1]);
            if i > 0 {
                assert(out[i] == ranking[i - 1]);
            }
        }
    } else {
        let rest = ranking.drop_first();
        let inner = rank_inserted::<T>(rest, root);
        assert forall|i: int, j: int| 0 <= i < j < rest.len() implies (#[trigger] rest[i]).0 != (
        #[trigger] rest[j]).0 by {
            assert(rest[i] == ranking[i + 1] && rest[j] == ranking[j + 1]);
        }
        assert forall|i: int| 0 <= i < rest.len() implies (#[trigger] rest[i]).0 != root.0 by {
            assert(rest[i] == ranking[i + 1]);
        }
        lemma_rank_insert_keeps::<T>(rest, root);
        lemma_weight_of_front::<T>(ranking[0], inner);
        lemma_weight_of_front::<T>(ranking[0], rest);
        assert(seq![ranking[0]] + rest =~= ranking);
        assert forall|k: int| 0 <= k < out.len() implies (out[k] == root || ranking.contains(
            out[k],
        )) by {
            if k > 0 {
                assert(out[k] == inner[k - 1]);
                if inner[k - 1] != root {
                    let n = choose|n: int| 0 <= n < rest.len() && rest[n] == inner[k - 1];
                    assert(ranking[n + 1] == out[k]);
                }
            }
        }
        assert forall|i: int, j: int| 0 <= i < j < out.len() implies (#[trigger] out[i]).0 != (
        #[trigger] out[j]).0 by {
            assert(out[j] == inner[j - 1]);
            if i > 0 {
                assert(out[i] == inner[i - 1]);
            } else if inner[j - 1] != root {
                let n = choose|n: int| 0 <= n < rest.len() && rest[n] == inner[j - 1];
                assert(ranking[n + 1] == out[j]);
                assert(ranking[0].0 != ranking[n + 1].0);
            }
        }
    }
}

pub(crate) proof fn lemma_ranked_keeps<T: Attributed>(roots: Seq<(Seq<char>, <T as DeepView>::V)>)
    requires
        names_distinct(roots),
    ensures
        names_distinct(ranked::<T>(roots)),
        ranked::<T>(roots).len() == roots.len(),
        weight_sum::<T>(ranked::<T>(roots)) == weight_sum::<T>(roots),
        forall|k: int|
            0 <= k < ranked::<T>(roots).len() ==> roots.contains(#[trigger] ranked::<T>(roots)[k]),
    decreases roots.len(),
{
    if roots.len() > 0 {
        let front = roots.drop_last();
        let last = roots.last();
        assert(names_distinct(front));
        lemma_ranked_keeps::<T>(front);
        let before = ranked::<T>(front);
        assert forall|i: int| 0 <= i < before.len() implies (#[trigger] before[i]).0 != last.0 by {
            let n = choose|n: int| 0 <= n < front.len() && front[n] == before[i];
            assert(roots[n].0 != roots[roots.len() - 1].0);
        }
        lemma_rank_insert_keeps::<T>(before, last);
        let out = ranked::<T>(roots);
        assert forall|k: int| 0 <= k < out.len() implies roots.contains(#[trigger] out[k]) by {
            if out[k] == last {
                assert(roots[roots.len() - 1] == out[k]);
            } else {
                let m = choose|m: int| 0 <= m < before.len() && before[m] == out[k];
                let n = choose|n: int| 0 <= n < front.len() && front[n] == before[m];
                assert(roots[n] == out[k]);
            }
        }
    }
}

proof fn lemma_weight_of_put<T: Attributed>(
    pairs: Seq<(Seq<char>, <T as DeepView>::V)>,
    key: Seq<char>,
    value: <T as DeepView>::V,
)
    requires
        text_map::map_get(pairs, key) is None,
    ensures
        weight_sum::<T>(text_map::map_put(pairs, key, value)) == weight_sum::<T>(pairs)
            + T::weight(value),
        text_map::map_put(pairs, key, value).len() == pairs.len() + 1,
    decreases pairs.len(),
{
    let out = text_map::map_put(pairs, key, value);
    if pairs.len() == 0 {
        assert(out.drop_last() =~= pairs);
        assert(out.last() == (key, value));
    } else if text::text_less(key, pairs[0].0) {
        lemma_weight_of_front::<T>((key, value), pairs);
    } else {
        let rest = pairs.drop_first();
        lemma_weight_of_put::<T>(rest, key, value);
        lemma_weight_of_front::<T>(pairs[0], text_map::map_put(rest, key, value));
        lemma_weight_of_front::<T>(pairs[0], rest);
        assert(seq![pairs[0]] + rest =~= pairs);
    }
}

pub(crate) proof fn lemma_weight_of_put_all<T: Attributed>(more: Seq<(Seq<char>, <T as DeepView>::V)>)
    requires
        names_distinct(more),
    ensures
        ({
            let all = text_map::map_put_all(Seq::empty(), more);
            &&& weight_sum::<T>(all) == weight_sum::<T>(more)
            &&& all.len() == more.len()
            &&& forall|key: Seq<char>|
                (forall|i: int| 0 <= i < more.len() ==> (#[trigger] more[i]).0 != key)
                    ==> #[trigger] text_map::map_get(all, key) is None
        }),
    decreases more.len(),
{
    if more.len() > 0 {
        let front = more.drop_last();
        let last = more.last();
        let before = text_map::map_put_all(Seq::empty(), front);
        assert(names_distinct(front));
        lemma_weight_of_put_all::<T>(front);
        assert forall|i: int| 0 <= i < front.len() implies (#[trigger] front[i]).0 != last.0 by {
            assert(more[i].0 != more[more.len() - 1].0);
        }
        lemma_weight_of_put::<T>(before, last.0, last.1);
        assert forall|key: Seq<char>|
            (forall|i: int| 0 <= i < more.len() ==> (#[trigger] more[i]).0 != key) implies (
        #[trigger] text_map::map_get(text_map::map_put_all(Seq::empty(), more), key)) is None by {
            assert(more[more.len() - 1].0 != key);
            assert forall|i: int| 0 <= i < front.len() implies (#[trigger] front[i]).0 != key by {
                assert(more[i].0 != key);
            }
            text_map::law_put_then_get(before, last.0, last.1, key);
        }
    }
}

/// The cap loses no byte and no root: what is reported and what is omitted weigh together what
/// all roots weigh, as long as that fits into 64 bits.
pub proof fn law_cap_loses_no_bytes<T: Attributed>(
    roots: Seq<(Seq<char>, <T as DeepView>::V)>,
    cap: nat,
)
    requires
        names_distinct(roots),
        weight_sum::<T>(roots) <= u64::MAX,
    ensures
        ({
            let (kept, omitted, omitted_bytes) = capped::<T>(roots, cap);
            &&& weight_sum::<T>(kept) + omitted_bytes == weight_sum::<T>(roots)
            &&& kept.len() + omitted == roots.len()
        }),
{
    if roots.len() > cap {
        let ranking = ranked::<T>(roots);
        let top = ranking.take(cap as int);
        lemma_ranked_keeps::<T>(roots);
        assert forall|i: int, j: int| 0 <= i < j < top.len() implies (#[trigger] top[i]).0 != (
        #[trigger] top[j]).0 by {
            assert(ranking[i].0 != ranking[j].0);
        }
        lemma_weight_of_halves::<T>(ranking, cap as int);
        lemma_weight_of_put_all::<T>(top);
        lemma_weights_nonnegative::<T>(top);
        lemma_weights_nonnegative::<T>(ranking.skip(cap as int));
    }
}

} // verus!
