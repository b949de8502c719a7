//! State of a root's runtime: sessions, deferred configure work, the phases of a configure, the
//! watcher's drain, and the status that is pushed after a pause.

use vstd::prelude::*;
use vstd::string::*;

use crate::config::Platform;
use crate::path_set;
use crate::path_set::PathSet;
use crate::path_text;
use crate::path_text::components;
use crate::paths::PartView;
use crate::text;

verus! {

/// How long status changes are collected before the last one is pushed, in milliseconds.
pub const STATUS_DEBOUNCE_MS: u64 = 1000;

// ---- Sessions ----

/// The sessions that were configured, each with its root.
#[derive(Debug)]
pub struct SessionBindings {
    /// How the roots are spelled.
    pub platform: Platform,
    pub bindings: Vec<(String, String)>,
}

/// Which sessions a list of bindings holds, each with the path of its root.
pub open spec fn bound(platform: Platform, bindings: Seq<(Seq<char>, Seq<char>)>) -> Seq<
    (Seq<PartView>, Seq<char>),
> {
    Seq::new(bindings.len(), |i: int| (components(platform, bindings[i].0), bindings[i].1))
}

impl DeepView for SessionBindings {
    type V = Set<(Seq<PartView>, Seq<char>)>;

    open spec fn deep_view(&self) -> Set<(Seq<PartView>, Seq<char>)> {
        bound(self.platform, self.bindings.deep_view()).to_set()
    }
}

impl SessionBindings {
    pub fn new(platform: Platform) -> (sessions: Self)
        ensures
            sessions.platform == platform,
            sessions.deep_view() == Set::<(Seq<PartView>, Seq<char>)>::empty(),
    {
        let sessions = SessionBindings { platform, bindings: Vec::new() };
        assert(sessions.deep_view() =~= Set::<(Seq<PartView>, Seq<char>)>::empty());
        sessions
    }

    /// Whether a session is configured for a root.
    pub fn has_configure_session_binding(&self, root: &str, session_id: &str) -> (yes: bool)
        ensures
            yes == self.deep_view().contains((components(self.platform, root@), session_id@)),
    {
        let ghost all = bound(self.platform, self.bindings.deep_view());
        let mut i: usize = 0;
        while i < self.bindings.len()
            invariant
                i <= self.bindings@.len(),
                all == bound(self.platform, self.bindings.deep_view()),
                forall|k: int| 0 <= k < i ==> #[trigger] all[k] != (components(self.platform, root@), session_id@),
            decreases self.bindings.len() - i,
        {
            let binding = &self.bindings[i];
            assert(all[i as int] == (components(self.platform, binding.0@), binding.1@));
            if path_text::is_same_path(self.platform, binding.0.as_str(), root) && text::same_text(
                binding.1.as_str(),
                session_id,
            ) {
                assert(all.contains((components(self.platform, root@), session_id@)));
                return true;
            }
            i = i + 1;
        }
        assert(!all.contains((components(self.platform, root@), session_id@)));
        false
    }

    /// Notes a session of a root and answers whether it is new.
    pub fn note_configure_session_binding(&mut self, root: String, session_id: String) -> (added:
        bool)
        ensures
            added == !old(self).deep_view().contains(
                (components(old(self).platform, root@), session_id@),
            ),
            final(self).deep_view() == old(self).deep_view().insert(
                (components(old(self).platform, root@), session_id@),
            ),
            final(self).platform == old(self).platform,
    {
        let ghost before = bound(self.platform, self.bindings.deep_view());
        let ghost added = (components(self.platform, root@), session_id@);
        if self.has_configure_session_binding(root.as_str(), session_id.as_str()) {
            assert(self.deep_view() =~= before.to_set().insert(added));
            return false;
        }
        self.bindings.push((root, session_id));
        proof {
            let after = bound(self.platform, self.bindings.deep_view());
            assert(after =~= before.push(added));
            assert forall|pair: (Seq<PartView>, Seq<char>)|
                after.contains(pair) == (before.contains(pair) || pair == added) by {
                if before.contains(pair) {
                    let k = choose|k: int| 0 <= k < before.len() && before[k] == pair;
                    assert(after[k] == pair);
                }
                assert(after[before.len() as int] == added);
            }
            assert(self.deep_view() =~= before.to_set().insert(added));
        }
        true
    }

    /// Forgets a session of a root: its next configure counts as its first.
    pub fn forget_configure_session_binding(&mut self, root: &str, session_id: &str)
        ensures
            final(self).deep_view() == old(self).deep_view().remove(
                (components(old(self).platform, root@), session_id@),
            ),
            final(self).platform == old(self).platform,
    {
        let platform = self.platform;
        let ghost all = bound(self.platform, self.bindings.deep_view());
        let ghost gone = (components(platform, root@), session_id@);
        let mut bindings: Vec<(String, String)> = Vec::new();
        std::mem::swap(&mut bindings, &mut self.bindings);
        for binding in iter: bindings
            invariant
                iter.seq() == bindings@,
                platform == self.platform,
                platform == old(self).platform,
                all == bound(platform, bindings.deep_view()),
                gone == (components(platform, root@), session_id@),
                forall|pair: (Seq<PartView>, Seq<char>)|
                    #[trigger] bound(self.platform, self.bindings.deep_view()).contains(pair) <==> pair != gone
                        && all.take(iter.index()).contains(pair),
        {
            let ghost place = iter.index();
            let ghost kept = bound(self.platform, self.bindings.deep_view());
            let ghost pair = (components(platform, binding.0@), binding.1@);
            assert(all[place] == pair);
            let same = path_text::is_same_path(platform, binding.0.as_str(), root) && text::same_text(
                binding.1.as_str(),
                session_id,
            );
            if !same {
                self.bindings.push(binding);
            }
            proof {
                let next = bound(self.platform, self.bindings.deep_view());
                assert(same == (pair == gone));
                assert(next =~= if same {
                    kept
                } else {
                    kept.push(pair)
                });
                let before = all.take(place);
                let upto = all.take(place + 1);
                assert forall|p: (Seq<PartView>, Seq<char>)| #[trigger] next.contains(p) <==> p != gone
                    && upto.contains(p) by {
                    assert(kept.contains(p) <==> p != gone && before.contains(p));
                    if kept.contains(p) {
                        let k = choose|k: int| 0 <= k < kept.len() && kept[k] == p;
                        assert(next[k] == p);
                        let m = choose|m: int|
                            0 <= m < before.len() && before[m] == p;
                        assert(upto[m] == p);
                    }
                    if !same {
                        assert(next[kept.len() as int] == pair);
                    }
                    assert(upto[place] == pair);
                    if upto.contains(p) {
                        let m = choose|m: int|
                            0 <= m < upto.len() && upto[m] == p;
                        if m < place {
                            assert(before[m] == p);
                        }
                    }
                    if next.contains(p) {
                        let k = choose|k: int| 0 <= k < next.len() && next[k] == p;
                        if k < kept.len() {
                            assert(kept[k] == p);
                        }
                    }
                }
            }
        }
        assert(all.take(all.len() as int) =~= all);
        assert(self.deep_view() =~= all.to_set().remove(gone));
    }

    /// The roots of all sessions, and one more.
    pub fn configured_roots(&self, current_root: &str) -> (roots: PathSet)
        ensures
            forall|root: Seq<char>| #[trigger]
                path_set::has_path(self.platform, roots.deep_view(), root) <==> path_text::same_path(
                    self.platform,
                    root,
                    current_root@,
                ) || exists|session: Seq<char>| #[trigger]
                    self.deep_view().contains((components(self.platform, root), session)),
            path_set::is_path_set(self.platform, roots.deep_view()),
    {
        let ghost all = bound(self.platform, self.bindings.deep_view());
        let mut roots = PathSet::new();
        let mut i: usize = 0;
        proof {
            path_set::lemma_with_path(self.platform, roots.deep_view(), current_root@);
        }
        let _ = roots.insert(self.platform, current_root.to_owned());
        assert forall|root: Seq<char>| #[trigger]
            path_set::has_path(self.platform, roots.deep_view(), root) <==> path_text::same_path(
                self.platform,
                root,
                current_root@,
            ) || exists|k: int| 0 <= k < 0 && (#[trigger] all[k]).0 == components(self.platform, root) by {}
        while i < self.bindings.len()
            invariant
                i <= self.bindings@.len(),
                all == bound(self.platform, self.bindings.deep_view()),
                path_set::is_path_set(self.platform, roots.deep_view()),
                forall|root: Seq<char>| #[trigger]
                    path_set::has_path(self.platform, roots.deep_view(), root) <==> path_text::same_path(
                        self.platform,
                        root,
                        current_root@,
                    ) || exists|k: int| 0 <= k < i && (#[trigger] all[k]).0 == components(self.platform, root),
            decreases self.bindings.len() - i,
        {
            let ghost before = roots.deep_view();
            let ghost added = self.bindings@[i as int].0@;
            proof {
                path_set::lemma_with_path(self.platform, before, added);
                assert(all[i as int].0 == components(self.platform, added));
            }
            let _ = roots.insert(self.platform, self.bindings[i].0.clone());
            proof {
                assert forall|root: Seq<char>| #[trigger]
                    path_set::has_path(self.platform, roots.deep_view(), root) <==> path_text::same_path(
                        self.platform,
                        root,
                        current_root@,
                    ) || exists|k: int|
                        0 <= k < i + 1 && (#[trigger] all[k]).0 == components(self.platform, root) by {
                    assert(path_set::has_path(self.platform, roots.deep_view(), root) <==> path_set::has_path(
                        self.platform,
                        before,
                        root,
                    ) || path_text::same_path(self.platform, root, added));
                    if exists|k: int| 0 <= k < i + 1 && (#[trigger] all[k]).0 == components(self.platform, root) {
                        let k = choose|k: int|
                            0 <= k < i + 1 && (#[trigger] all[k]).0 == components(self.platform, root);
                        if k < i {
                            assert(0 <= k < i && all[k].0 == components(self.platform, root));
                        }
                    }
                }
            }
            i = i + 1;
        }
        proof {
            assert forall|root: Seq<char>| #[trigger]
                path_set::has_path(self.platform, roots.deep_view(), root) <==> path_text::same_path(
                    self.platform,
                    root,
                    current_root@,
                ) || exists|session: Seq<char>| #[trigger]
                    self.deep_view().contains((components(self.platform, root), session)) by {
                let parts = components(self.platform, root);
                if exists|k: int| 0 <= k < all.len() && (#[trigger] all[k]).0 == parts {
                    let k = choose|k: int| 0 <= k < all.len() && (#[trigger] all[k]).0 == parts;
                    assert(all.contains(all[k]));
                    assert(self.deep_view().contains((parts, all[k].1)));
                }
                if exists|session: Seq<char>| #[trigger]
                    self.deep_view().contains((parts, session)) {
                    let session = choose|session: Seq<char>| #[trigger]
                        self.deep_view().contains((parts, session));
                    assert(all.contains((parts, session)));
                    let k = choose|k: int| 0 <= k < all.len() && all[k] == (parts, session);
                    assert(all[k].0 == parts);
                }
            }
        }
        roots
    }
}

// ---- Deferred configure work ----

/// Work that a configure put off until its answer is sent, in order, up to a number of jobs.
#[derive(Debug)]
pub struct ConfigureMaintenance<Job> {
    jobs: Vec<Job>,
    capacity: usize,
}

impl<Job> ConfigureMaintenance<Job> {
    /// The jobs that wait, in order.
    pub closed spec fn waiting(&self) -> Seq<Job> {
        self.jobs@
    }

    /// How many jobs may wait.
    pub closed spec fn limit(&self) -> usize {
        self.capacity
    }

    pub fn new(capacity: usize) -> (queue: Self)
        ensures
            queue.waiting() == Seq::<Job>::empty(),
            queue.limit() == capacity,
    {
        ConfigureMaintenance { jobs: Vec::new(), capacity }
    }

    /// Whether another job may wait.
    pub fn configure_maintenance_has_capacity(&self) -> (yes: bool)
        ensures
            yes == (self.waiting().len() < self.limit()),
    {
        self.jobs.len() < self.capacity
    }

    /// Puts a job at the end; a job for which there is no room is handed back.
    pub fn enqueue_configure_maintenance(&mut self, job: Job) -> (out: Result<(), Job>)
        ensures
            final(self).limit() == old(self).limit(),
            if old(self).waiting().len() < old(self).limit() {
                &&& out is Ok
                &&& final(self).waiting() == old(self).waiting().push(job)
            } else {
                &&& out == Err::<(), Job>(job)
                &&& final(self).waiting() == old(self).waiting()
            },
    {
        if self.jobs.len() >= self.capacity {
            return Err(job);
        }
        self.jobs.push(job);
        Ok(())
    }

    /// Takes all jobs, in order.
    pub fn drain_configure_maintenance(&mut self) -> (jobs: Vec<Job>)
        ensures
            jobs@ == old(self).waiting(),
            final(self).waiting() == Seq::<Job>::empty(),
            final(self).limit() == old(self).limit(),
    {
        let mut jobs: Vec<Job> = Vec::new();
        std::mem::swap(&mut jobs, &mut self.jobs);
        jobs
    }

    /// Whether anything is left to do after a configure was answered: a job, or warnings.
    pub fn configure_tail_has_work(&self, warnings_waiting: bool) -> (yes: bool)
        ensures
            yes == (self.waiting().len() > 0 || warnings_waiting),
    {
        self.jobs.len() > 0 || warnings_waiting
    }
}

// ---- Phases of a configure ----

/// A phase that is over, and how long it took, in nanoseconds.
#[derive(Debug)]
pub struct CompletedPhase {
    pub phase: String,
    pub elapsed: u64,
}

/// The model of [`CompletedPhase`].
pub struct CompletedPhaseView {
    pub phase: Seq<char>,
    pub elapsed: u64,
}

impl DeepView for CompletedPhase {
    type V = CompletedPhaseView;

    open spec fn deep_view(&self) -> CompletedPhaseView {
        CompletedPhaseView { phase: self.phase@, elapsed: self.elapsed }
    }
}

/// The phases of a configure until its answer is sent. Times are in nanoseconds since some fixed
/// moment.
#[derive(Debug)]
pub struct ConfigurePhaseTiming {
    pub phase: String,
    pub started_at: u64,
    pub completed: Vec<CompletedPhase>,
}

/// The model of [`ConfigurePhaseTiming`].
#[verifier::ext_equal]
pub struct PhaseTimingView {
    pub phase: Seq<char>,
    pub started_at: u64,
    pub completed: Seq<CompletedPhaseView>,
}

impl DeepView for ConfigurePhaseTiming {
    type V = PhaseTimingView;

    open spec fn deep_view(&self) -> PhaseTimingView {
        PhaseTimingView {
            phase: self.phase@,
            started_at: self.started_at,
            completed: self.completed.deep_view(),
        }
    }
}

/// The time from one moment to another; none where the second is earlier.
pub open spec fn elapsed_between(start: u64, now: u64) -> u64 {
    if now > start {
        (now - start) as u64
    } else {
        0
    }
}

/// The timing once a phase begins: the first phase of a configure forgets the phases of the one
/// before, and a phase that is neither idleness nor the finished answer counts as completed.
pub open spec fn phase_begun(
    timing: PhaseTimingView,
    phase: Seq<char>,
    now: u64,
) -> PhaseTimingView {
    PhaseTimingView {
        phase,
        started_at: now,
        completed: if phase == "canonicalize"@ {
            Seq::empty()
        } else if timing.phase != "idle"@ && timing.phase != "ack_ready"@ {
            timing.completed.push(
                CompletedPhaseView {
                    phase: timing.phase,
                    elapsed: elapsed_between(timing.started_at, now),
                },
            )
        } else {
            timing.completed
        },
    }
}

/// A phase and its time in milliseconds.
pub open spec fn phase_text(phase: Seq<char>, elapsed: u64) -> Seq<char> {
    phase + "="@ + text::decimal((elapsed / 1000000) as nat) + "ms"@
}

/// The completed phases, each with a comma behind it.
pub open spec fn completed_text(completed: Seq<CompletedPhaseView>) -> Seq<char>
    decreases completed.len(),
{
    if completed.len() == 0 {
        Seq::empty()
    } else {
        completed_text(completed.drop_last()) + phase_text(
            completed.last().phase,
            completed.last().elapsed,
        ) + ","@
    }
}

impl ConfigurePhaseTiming {
    /// No configure is under way.
    pub fn new(now: u64) -> (timing: Self)
        ensures
            timing.deep_view() == (PhaseTimingView {
                phase: "idle"@,
                started_at: now,
                completed: Seq::empty(),
            }),
    {
        let completed: Vec<CompletedPhase> = Vec::new();
        assert(completed.deep_view() =~= Seq::<CompletedPhaseView>::empty());
        ConfigurePhaseTiming { phase: "idle".to_owned(), started_at: now, completed }
    }

    /// Begins a phase.
    pub fn begin_configure_ack_phase(&mut self, phase: &str, now: u64)
        ensures
            final(self).deep_view() == phase_begun(old(self).deep_view(), phase@, now),
    {
        let ghost before = self.deep_view();
        if text::same_text(phase, "canonicalize") {
            self.completed = Vec::new();
            assert(self.completed.deep_view() =~= Seq::<CompletedPhaseView>::empty());
        } else if !text::same_text(self.phase.as_str(), "idle") && !text::same_text(
            self.phase.as_str(),
            "ack_ready",
        ) {
            let elapsed: u64 = now.saturating_sub(self.started_at);
            self.completed.push(CompletedPhase { phase: self.phase.clone(), elapsed });
            assert(self.completed.deep_view() =~= before.completed.push(
                CompletedPhaseView {
                    phase: before.phase,
                    elapsed: elapsed_between(before.started_at, now),
                },
            ));
        }
        self.phase = phase.to_owned();
        self.started_at = now;
    }

    /// The phases so far with their times, the current one last.
    pub fn configure_ack_phase_snapshot(&self, now: u64) -> (out: String)
        ensures
            out@ == completed_text(self.deep_view().completed) + phase_text(
                self.phase@,
                elapsed_between(self.started_at, now),
            ),
    {
        let ghost all = self.completed.deep_view();
        let mut out = String::new();
        let mut i: usize = 0;
        assert(out@ =~= completed_text(all.take(0)));
        while i < self.completed.len()
            invariant
                i <= self.completed@.len(),
                all == self.completed.deep_view(),
                out@ == completed_text(all.take(i as int)),
            decreases self.completed.len() - i,
        {
            proof {
                assert(all.take(i + 1).drop_last() =~= all.take(i as int));
                assert(all.take(i + 1).last() == self.completed@[i as int].deep_view());
            }
            let ghost before = out@;
            append_phase(&mut out, self.completed[i].phase.as_str(), self.completed[i].elapsed);
            out.append(",");
            i = i + 1;
        }
        assert(all.take(all.len() as int) =~= all);
        let elapsed: u64 = now.saturating_sub(self.started_at);
        append_phase(&mut out, self.phase.as_str(), elapsed);
        out
    }
}

fn append_phase(out: &mut String, phase: &str, elapsed: u64)
    ensures
        final(out)@ == old(out)@ + phase_text(phase@, elapsed),
{
    let ghost before = out@;
    out.append(phase);
    out.append("=");
    out.append(text::decimal_text(elapsed / 1000000).as_str());
    out.append("ms");
    assert(out@ =~= before + phase_text(phase@, elapsed));
}

/// A new configure forgets the phases of the one before.
pub proof fn law_first_phase_starts_afresh(timing: PhaseTimingView, now: u64)
    ensures
        phase_begun(timing, "canonicalize"@, now).completed == Seq::<CompletedPhaseView>::empty(),
{
}

// ---- The watcher's drain ----

/// What is done with the paths that were collected, in order.
#[derive(Debug, Clone, Copy, PartialEq, Eq, Structural)]
pub enum WatcherDrainApplyPhase {
    PendingTier2,
    PendingIndexes,
    SymbolCache,
    Callgraph,
    SearchIndex,
    SemanticIndex,
    LspDiagnostics,
    Complete,
}

/// Whether paths are being collected or applied.
#[derive(Debug)]
pub enum WatcherDrainPhase {
    Collect,
    Apply {
        stage: WatcherDrainApplyPhase,
        paths: Vec<String>,
        remaining: usize,
        oversized_inline_batch: bool,
    },
}

/// Where a drain of the watcher left off.
#[derive(Debug)]
pub struct WatcherDrainSliceState {
    pub configure_generation: u64,
    /// The configuration that the drain was started under: another one discards what is left.
    pub configure_content_generation: u64,
    pub phase: WatcherDrainPhase,
    pub pending_paths: Vec<String>,
    pub ignore_changed: bool,
    pub rescan_required: bool,
    pub status_changed: bool,
    pub scheduler_changed_path_count: usize,
    pub semantic_refresh_paths: Vec<String>,
    pub path_slice_count: usize,
}

impl WatcherDrainSliceState {
    /// How many paths are left.
    pub open spec fn paths_left(&self) -> nat {
        (match self.phase {
            WatcherDrainPhase::Collect => 0,
            WatcherDrainPhase::Apply { paths, .. } => paths@.len(),
        }) + self.pending_paths@.len()
    }

    /// Whether a drain has to go on.
    pub open spec fn unfinished(&self) -> bool {
        ||| !(self.phase is Collect)
        ||| self.pending_paths@.len() > 0
        ||| self.ignore_changed
        ||| self.rescan_required
    }

    /// A drain that has collected nothing yet.
    pub fn new(configure_generation: u64, configure_content_generation: u64) -> (state: Self)
        ensures
            state.configure_generation == configure_generation,
            state.configure_content_generation == configure_content_generation,
            state.phase is Collect,
            state.pending_paths@.len() == 0,
            state.semantic_refresh_paths@.len() == 0,
            !state.ignore_changed,
            !state.rescan_required,
            !state.status_changed,
            state.scheduler_changed_path_count == 0,
            state.path_slice_count == 0,
            !state.unfinished(),
    {
        WatcherDrainSliceState {
            configure_generation,
            configure_content_generation,
            phase: WatcherDrainPhase::Collect,
            pending_paths: Vec::new(),
            ignore_changed: false,
            rescan_required: false,
            status_changed: false,
            scheduler_changed_path_count: 0,
            semantic_refresh_paths: Vec::new(),
            path_slice_count: 0,
        }
    }

    /// Whether the drain has to go on.
    pub fn has_pending_work(&self) -> (yes: bool)
        ensures
            yes == self.unfinished(),
    {
        let applying = match &self.phase {
            WatcherDrainPhase::Collect => false,
            WatcherDrainPhase::Apply { .. } => true,
        };
        applying || self.pending_paths.len() > 0 || self.ignore_changed || self.rescan_required
    }
}

/// The watcher of a root: its thread, by the number that the application gave it, and where its
/// drain left off.
#[derive(Debug)]
pub struct WatcherSlots {
    pub runtime: Option<u64>,
    pub receiver: bool,
    pub drain: Option<WatcherDrainSliceState>,
}

impl WatcherSlots {
    /// No watcher.
    pub open spec fn stopped() -> WatcherSlots {
        WatcherSlots { runtime: None, receiver: false, drain: None }
    }

    pub fn new() -> (slots: Self)
        ensures
            slots == WatcherSlots::stopped(),
    {
        WatcherSlots { runtime: None, receiver: false, drain: None }
    }

    /// Installs a watcher and returns the one that it replaces, which has to be shut down.
    pub fn install_watcher_runtime(&mut self, runtime: u64) -> (replaced: Option<u64>)
        ensures
            replaced == old(self).runtime,
            *final(self) == (WatcherSlots { runtime: Some(runtime), receiver: true, drain: None }),
    {
        let replaced = self.runtime;
        self.runtime = Some(runtime);
        self.receiver = true;
        self.drain = None;
        replaced
    }

    /// Takes the watcher out; it has to be shut down.
    pub fn take_watcher_runtime(&mut self) -> (runtime: Option<u64>)
        ensures
            runtime == old(self).runtime,
            *final(self) == WatcherSlots::stopped(),
    {
        let runtime = self.runtime;
        self.runtime = None;
        self.receiver = false;
        self.drain = None;
        runtime
    }

    /// Takes a watcher out whose thread ended, and answers which; one that runs stays.
    pub fn take_finished_watcher_runtime(&mut self, finished: bool) -> (runtime: Option<u64>)
        ensures
            runtime == (if finished {
                old(self).runtime
            } else {
                None
            }),
            *final(self) == (if finished && old(self).runtime is Some {
                WatcherSlots::stopped()
            } else {
                *old(self)
            }),
    {
        if !finished || self.runtime.is_none() {
            return None;
        }
        self.take_watcher_runtime()
    }

    /// Whether a watcher runs: a thread that ended is none, though it is still installed.
    pub fn watcher_runtime_active(&self, finished: bool) -> (yes: bool)
        ensures
            yes == (self.runtime is Some && !finished && self.receiver),
    {
        self.runtime.is_some() && !finished && self.receiver
    }

    /// Whether the watcher's drain may have anything to do. `events` says whether the receiver
    /// holds events, where the application looked without waiting, and is `None` where the
    /// receiver was busy: that counts as work.
    pub fn watcher_drain_has_work(&self, events: Option<bool>) -> (yes: bool)
        ensures
            yes == (events is None || (self.receiver && events == Some(true)) || (
            self.drain matches Some(drain) && drain.unfinished())),
    {
        match events {
            None => {
                return true;
            },
            Some(waiting) => {
                if self.receiver && waiting {
                    return true;
                }
            },
        }
        match &self.drain {
            Some(drain) => drain.has_pending_work(),
            None => false,
        }
    }

    /// How many paths the drain has left.
    pub fn watcher_drain_pending_path_count(&self) -> (count: usize)
        requires
            self.drain matches Some(drain) ==> drain.paths_left() <= usize::MAX,
        ensures
            count == (match self.drain {
                Some(drain) => drain.paths_left(),
                None => 0,
            }),
    {
        match &self.drain {
            Some(drain) => {
                let active: usize = match &drain.phase {
                    WatcherDrainPhase::Collect => 0,
                    WatcherDrainPhase::Apply { paths, .. } => paths.len(),
                };
                active + drain.pending_paths.len()
            },
            None => 0,
        }
    }

    /// How many batches of paths were drained since the watcher was installed.
    pub fn watcher_drain_path_slice_count(&self) -> (count: usize)
        ensures
            count == (match self.drain {
                Some(drain) => drain.path_slice_count,
                None => 0,
            }),
    {
        match &self.drain {
            Some(drain) => drain.path_slice_count,
            None => 0,
        }
    }
}

// ---- Status pushes ----

/// The last status that was signalled and not pushed yet.
#[derive(Debug)]
pub struct StatusEmitter<Payload> {
    pub latest: Option<Payload>,
}

/// Where the pause before a push stands. Times are in milliseconds since some fixed moment.
#[derive(Debug, Clone, Copy, PartialEq, Eq, Structural)]
pub enum DebounceState {
    /// Nothing was signalled.
    Idle,
    /// Something was; it is pushed at the deadline.
    Collecting(u64),
}

/// What the pause waits for, and what it ends with.
#[derive(Debug, Clone, Copy, PartialEq, Eq, Structural)]
pub enum DebounceStep {
    /// Wait for a signal, however long.
    WaitForSignal,
    /// Wait for a signal, at most so many milliseconds.
    WaitAtMost(u64),
    /// Push the last status, then wait for a signal.
    Push,
    /// The sender is gone: nothing is pushed any more.
    Stop,
}

/// What happened while waiting.
#[derive(Debug, Clone, Copy, PartialEq, Eq, Structural)]
pub enum DebounceEvent {
    Signalled,
    TimedOut,
    Disconnected,
}

/// What is left of a pause.
pub open spec fn pause_step(deadline: u64, now: u64) -> (DebounceState, DebounceStep) {
    if deadline >= now {
        (DebounceState::Collecting(deadline), DebounceStep::WaitAtMost((deadline - now) as u64))
    } else {
        (DebounceState::Idle, DebounceStep::Push)
    }
}

/// The next step: the first signal starts a pause of fixed length, later ones do not lengthen
/// it, and at its end the last status is pushed.
pub open spec fn debounce(state: DebounceState, event: DebounceEvent, now: u64) -> (
    DebounceState,
    DebounceStep,
) {
    match (state, event) {
        (_, DebounceEvent::Disconnected) => (state, DebounceStep::Stop),
        (DebounceState::Idle, DebounceEvent::Signalled) => pause_step(
            if now + STATUS_DEBOUNCE_MS > u64::MAX {
                u64::MAX
            } else {
                (now + STATUS_DEBOUNCE_MS) as u64
            },
            now,
        ),
        (DebounceState::Idle, DebounceEvent::TimedOut) => (state, DebounceStep::WaitForSignal),
        (DebounceState::Collecting(deadline), DebounceEvent::Signalled) => pause_step(
            deadline,
            now,
        ),
        (DebounceState::Collecting(_), DebounceEvent::TimedOut) => (
            DebounceState::Idle,
            DebounceStep::Push,
        ),
    }
}

fn pause(deadline: u64, now: u64) -> (out: (DebounceState, DebounceStep))
    ensures
        out == pause_step(deadline, now),
{
    if deadline >= now {
        (DebounceState::Collecting(deadline), DebounceStep::WaitAtMost(deadline - now))
    } else {
        (DebounceState::Idle, DebounceStep::Push)
    }
}

/// The next step of the loop that pushes statuses.
pub fn status_debounce_loop(state: DebounceState, event: DebounceEvent, now: u64) -> (out: (
    DebounceState,
    DebounceStep,
))
    ensures
        out == debounce(state, event, now),
{
    match (state, event) {
        (_, DebounceEvent::Disconnected) => (state, DebounceStep::Stop),
        (DebounceState::Idle, DebounceEvent::Signalled) => pause(
            now.saturating_add(STATUS_DEBOUNCE_MS),
            now,
        ),
        (DebounceState::Idle, DebounceEvent::TimedOut) => (state, DebounceStep::WaitForSignal),
        (DebounceState::Collecting(deadline), DebounceEvent::Signalled) => pause(deadline, now),
        (DebounceState::Collecting(_), DebounceEvent::TimedOut) => (
            DebounceState::Idle,
            DebounceStep::Push,
        ),
    }
}

impl<Payload> StatusEmitter<Payload> {
    pub fn new() -> (emitter: Self)
        ensures
            emitter.latest is None,
    {
        StatusEmitter { latest: None }
    }

    /// Signals a status: it takes the place of one that was not pushed yet.
    pub fn signal(&mut self, snapshot: Payload)
        ensures
            final(self).latest == Some(snapshot),
    {
        self.latest = Some(snapshot);
    }

    /// Takes the status that is pushed, where there is one.
    pub fn take(&mut self) -> (snapshot: Option<Payload>)
        ensures
            snapshot == old(self).latest,
            final(self).latest is None,
    {
        let mut snapshot: Option<Payload> = None;
        std::mem::swap(&mut snapshot, &mut self.latest);
        snapshot
    }
}

/// A pause ends: however many signals come, none makes it last longer than the first one did.
pub proof fn law_signals_do_not_prolong_the_pause(deadline: u64, now: u64)
    ensures
        ({
            let (next, step) = debounce(
                DebounceState::Collecting(deadline),
                DebounceEvent::Signalled,
                now,
            );
            ||| next == DebounceState::Collecting(deadline)
            ||| step == DebounceStep::Push
        }),
{
}

// ---- Output filters ----

/// Whether the output filters were loaded, and how often they were built.
#[derive(Debug, Clone, Copy, PartialEq, Eq, Structural)]
pub struct FilterRegistryState {
    pub loaded: bool,
    pub rebuilds: u64,
}

impl FilterRegistryState {
    pub fn new() -> (state: Self)
        ensures
            state == (FilterRegistryState { loaded: false, rebuilds: 0 }),
    {
        FilterRegistryState { loaded: false, rebuilds: 0 }
    }

    /// Whether the filters have to be built before they are read.
    pub fn needs_load(&self) -> (yes: bool)
        ensures
            yes == !self.loaded,
    {
        !self.loaded
    }

    /// Notes that the filters were built and are in place.
    pub fn note_rebuilt(&mut self)
        ensures
            *final(self) == (FilterRegistryState {
                loaded: true,
                rebuilds: crate::lifecycle::next_count(old(self).rebuilds),
            }),
    {
        self.rebuilds = crate::lifecycle::advance(self.rebuilds);
        self.loaded = true;
    }
}

// ---- Small decisions ----

/// The wait of a query for a build of the callgraph store, in milliseconds, as the environment
/// says; it does not wait where nothing readable is said.
pub fn callgraph_build_wait_window(raw: Option<&str>) -> (wait_ms: u64)
    ensures
        wait_ms == (match raw {
            Some(raw) => match text::number_of(raw@) {
                Some(wait) => wait,
                None => 0,
            },
            None => 0,
        }),
{
    match raw {
        Some(raw) => match text::parse_number(raw) {
            Some(wait) => wait,
            None => 0,
        },
        None => 0,
    }
}

/// What is known of a category of scans.
#[derive(Debug, Clone, Copy, PartialEq, Eq, Structural)]
pub struct CategoryFacts {
    /// The category is scanned in the background.
    pub tier2: bool,
    pub dead_code: bool,
}

/// Whether a category is refreshed on its own: without a callgraph store a scan for dead code
/// produces nothing that can be used again.
pub open spec fn refreshed(category: CategoryFacts, callgraph_store: bool) -> bool {
    category.tier2 && (!category.dead_code || callgraph_store)
}

/// The categories that are refreshed on their own.
pub open spec fn refreshed_categories(
    categories: Seq<CategoryFacts>,
    callgraph_store: bool,
) -> Seq<CategoryFacts>
    decreases categories.len(),
{
    if categories.len() == 0 {
        categories
    } else {
        let front = refreshed_categories(categories.drop_last(), callgraph_store);
        if refreshed(categories.last(), callgraph_store) {
            front.push(categories.last())
        } else {
            front
        }
    }
}

/// The categories that are refreshed on their own, in order.
pub fn automatic_tier2_refresh_categories(
    categories: &Vec<CategoryFacts>,
    callgraph_store: bool,
) -> (out: Vec<CategoryFacts>)
    ensures
        out@ == refreshed_categories(categories@, callgraph_store),
{
    let ghost all = categories@;
    let mut out: Vec<CategoryFacts> = Vec::new();
    let mut i: usize = 0;
    assert(out@ =~= refreshed_categories(all.take(0), callgraph_store));
    while i < categories.len()
        invariant
            i <= categories@.len(),
            all == categories@,
            out@ == refreshed_categories(all.take(i as int), callgraph_store),
        decreases categories.len() - i,
    {
        proof {
            assert(all.take(i + 1).drop_last() =~= all.take(i as int));
            assert(all.take(i + 1).last() == all[i as int]);
        }
        let category = categories[i];
        if category.tier2 && (!category.dead_code || callgraph_store) {
            out.push(category);
        }
        i = i + 1;
    }
    assert(all.take(all.len() as int) =~= all);
    out
}

/// A session is bound to the path of its root, whatever its spelling: two lists of bindings that
/// differ in nothing else hold the same sessions.
pub proof fn law_sessions_are_bound_to_paths(
    platform: Platform,
    bindings: Seq<(Seq<char>, Seq<char>)>,
    i: int,
    root: Seq<char>,
    session: Seq<char>,
)
    requires
        0 <= i < bindings.len(),
    ensures
        bound(platform, bindings).len() == bindings.len(),
        bound(platform, bindings)[i] == (components(platform, root), session) <==> (
        path_text::same_path(platform, bindings[i].0, root) && bindings[i].1 == session),
{
}

/// A phase that ends is listed with the time that it took, behind those before it, and the next one
/// starts at that moment. Waiting for a configure, or for its answer to be fetched, is no phase.
pub proof fn law_ended_phase_is_listed(timing: PhaseTimingView, phase: Seq<char>, now: u64)
    ensures
        phase_begun(timing, phase, now).phase == phase,
        phase_begun(timing, phase, now).started_at == now,
        (phase != "canonicalize"@ && timing.phase != "idle"@ && timing.phase != "ack_ready"@) ==> {
            let completed = phase_begun(timing, phase, now).completed;
            &&& completed.len() == timing.completed.len() + 1
            &&& completed.drop_last() == timing.completed
            &&& completed.last().phase == timing.phase
            &&& timing.started_at <= now ==> timing.started_at + completed.last().elapsed == now
            &&& timing.started_at > now ==> completed.last().elapsed == 0
        },
        (phase != "canonicalize"@ && (timing.phase == "idle"@ || timing.phase == "ack_ready"@))
            ==> phase_begun(timing, phase, now).completed == timing.completed,
{
    assert(phase_begun(timing, phase, now).completed.drop_last() =~= timing.completed || phase
        == "canonicalize"@ || timing.phase == "idle"@ || timing.phase == "ack_ready"@);
}

/// A phase is written with its time in whole milliseconds; phases stand one behind another, with
/// commas between them.
pub proof fn law_phases_are_written_in_order(
    completed: Seq<CompletedPhaseView>,
    next: CompletedPhaseView,
    phase: Seq<char>,
    milliseconds: u64,
    rest: u64,
)
    requires
        milliseconds * 1000000 + rest <= u64::MAX,
        rest < 1000000,
    ensures
        phase_text(phase, (milliseconds * 1000000 + rest) as u64) == phase + "="@ + text::decimal(
            milliseconds as nat,
        ) + "ms"@,
        completed_text(Seq::empty()).len() == 0,
        completed_text(completed.push(next)) == completed_text(completed) + phase_text(
            next.phase,
            next.elapsed,
        ) + ","@,
{
    assert(completed.push(next).drop_last() =~= completed);
    assert((milliseconds * 1000000 + rest) / 1000000 == milliseconds);
}

/// The paths that are left are those that wait and those that are being applied; a drain that
/// collects and has collected nothing goes on for nothing but a change of what is ignored, or a
/// rescan.
pub proof fn law_drain_goes_on_while_anything_is_left(drain: WatcherDrainSliceState)
    ensures
        drain.paths_left() > 0 ==> drain.unfinished(),
        drain.ignore_changed ==> drain.unfinished(),
        drain.rescan_required ==> drain.unfinished(),
        drain.phase is Apply ==> drain.unfinished(),
        (drain.phase is Collect && drain.pending_paths@.len() == 0 && !drain.ignore_changed
            && !drain.rescan_required) ==> !drain.unfinished() && drain.paths_left() == 0,
        drain.phase is Collect ==> drain.paths_left() == drain.pending_paths@.len(),
        (drain.phase matches WatcherDrainPhase::Apply { paths, .. } ==> drain.paths_left()
            == drain.pending_paths@.len() + paths@.len()),
        WatcherSlots::stopped().runtime is None,
        !WatcherSlots::stopped().receiver,
        WatcherSlots::stopped().drain is None,
{
}

/// The first signal starts a pause of a second, in which further signals only wait for what is left
/// of it; at its end the status is pushed once, and the next signal starts another.
pub proof fn law_status_is_pushed_once_after_a_pause(deadline: u64, now: u64, state: DebounceState)
    ensures
        now + 1000 <= u64::MAX ==> debounce(DebounceState::Idle, DebounceEvent::Signalled, now) == (
            DebounceState::Collecting((now + 1000) as u64),
            DebounceStep::WaitAtMost(1000),
        ),
        now + 1000 > u64::MAX ==> debounce(DebounceState::Idle, DebounceEvent::Signalled, now) == (
            DebounceState::Collecting(u64::MAX),
            DebounceStep::WaitAtMost((u64::MAX - now) as u64),
        ),
        now <= deadline ==> debounce(
            DebounceState::Collecting(deadline),
            DebounceEvent::Signalled,
            now,
        ) == (
            DebounceState::Collecting(deadline),
            DebounceStep::WaitAtMost((deadline - now) as u64),
        ),
        now > deadline ==> debounce(
            DebounceState::Collecting(deadline),
            DebounceEvent::Signalled,
            now,
        ) == (DebounceState::Idle, DebounceStep::Push),
        debounce(DebounceState::Collecting(deadline), DebounceEvent::TimedOut, now) == (
            DebounceState::Idle,
            DebounceStep::Push,
        ),
        debounce(DebounceState::Idle, DebounceEvent::TimedOut, now) == (
            DebounceState::Idle,
            DebounceStep::WaitForSignal,
        ),
        debounce(state, DebounceEvent::Disconnected, now) == (state, DebounceStep::Stop),
{
}

/// Each category is decided on its own, and those that are refreshed keep their order: every
/// background category is, but that for dead code only where there is a callgraph store.
pub proof fn law_categories_are_refreshed_one_by_one(
    categories: Seq<CategoryFacts>,
    next: CategoryFacts,
    callgraph_store: bool,
)
    ensures
        refreshed_categories(Seq::empty(), callgraph_store).len() == 0,
        !next.tier2 ==> refreshed_categories(categories.push(next), callgraph_store)
            == refreshed_categories(categories, callgraph_store),
        next.tier2 && next.dead_code && !callgraph_store ==> refreshed_categories(
            categories.push(next),
            callgraph_store,
        ) == refreshed_categories(categories, callgraph_store),
        next.tier2 && (callgraph_store || !next.dead_code) ==> refreshed_categories(
            categories.push(next),
            callgraph_store,
        ) == refreshed_categories(categories, callgraph_store).push(next),
{
    assert(categories.push(next).drop_last() =~= categories);
}

} // verus!
