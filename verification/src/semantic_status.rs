//! What a root's semantic index is doing: its build, its progress, and the files that are being
//! embedded again after edits.

use vstd::prelude::*;
use vstd::string::*;

use crate::config::Platform;
use crate::path_map;
use crate::path_map::PathMap;
use crate::path_set;
use crate::path_set::{add_path, remove_path};
use crate::path_text::components;
use crate::paths::PartView;
use crate::text;

verus! {

/// How many refreshes of one file are queued, and how many of them the worker has picked up.
#[derive(Debug, Clone, Copy, PartialEq, Eq, Structural)]
pub struct SemanticRefreshAccounting {
    pub pending: usize,
    pub in_flight: usize,
}

impl DeepView for SemanticRefreshAccounting {
    type V = SemanticRefreshAccounting;

    open spec fn deep_view(&self) -> SemanticRefreshAccounting {
        *self
    }
}

/// The state of a root's semantic index.
#[derive(Debug)]
pub enum SemanticIndexStatus {
    Disabled,
    /// A cold build: the index cannot be queried.
    Building {
        stage: String,
        files: Option<usize>,
        entries_done: Option<usize>,
        entries_total: Option<usize>,
    },
    /// The index can be queried; results for the `refreshing` files may be missing. Paths are
    /// those of `platform`.
    Ready {
        platform: Platform,
        refreshing: Vec<String>,
        accounting: PathMap<SemanticRefreshAccounting>,
    },
    Failed(String),
}

/// The model of [`SemanticIndexStatus`].
#[verifier::ext_equal]
pub enum SemanticStatusView {
    Disabled,
    Building {
        stage: Seq<char>,
        files: Option<usize>,
        entries_done: Option<usize>,
        entries_total: Option<usize>,
    },
    Ready {
        platform: Platform,
        refreshing: Seq<Seq<char>>,
        /// By the components of each path.
        accounting: Map<Seq<PartView>, SemanticRefreshAccounting>,
    },
    Failed(Seq<char>),
}

impl DeepView for SemanticIndexStatus {
    type V = SemanticStatusView;

    open spec fn deep_view(&self) -> SemanticStatusView {
        match *self {
            SemanticIndexStatus::Disabled => SemanticStatusView::Disabled,
            SemanticIndexStatus::Building { stage, files, entries_done, entries_total } =>
                SemanticStatusView::Building { stage: stage@, files, entries_done, entries_total },
            SemanticIndexStatus::Ready { platform, refreshing, accounting } =>
                SemanticStatusView::Ready {
                    platform,
                    refreshing: refreshing.deep_view(),
                    accounting: path_map::by_path(platform, accounting.deep_view()),
                },
            SemanticIndexStatus::Failed(error) => SemanticStatusView::Failed(error@),
        }
    }
}

/// The accounting of a path that has none yet.
pub open spec fn no_refreshes() -> SemanticRefreshAccounting {
    SemanticRefreshAccounting { pending: 0, in_flight: 0 }
}

/// The accounting of the path with the components `parts`.
pub open spec fn accounting_of(
    accounting: Map<Seq<PartView>, SemanticRefreshAccounting>,
    parts: Seq<PartView>,
) -> SemanticRefreshAccounting {
    if accounting.dom().contains(parts) {
        accounting[parts]
    } else {
        no_refreshes()
    }
}

/// One more queued refresh; the count stops at its largest value.
pub open spec fn one_more_pending(state: SemanticRefreshAccounting) -> SemanticRefreshAccounting {
    SemanticRefreshAccounting {
        pending: if state.pending == usize::MAX {
            usize::MAX
        } else {
            (state.pending + 1) as usize
        },
        ..state
    }
}

/// A refresh that the worker picks up covers everything that is queued by then; a later start
/// changes nothing until that one is finished.
pub open spec fn picked_up(state: SemanticRefreshAccounting) -> SemanticRefreshAccounting {
    let pending = if state.pending == 0 {
        1usize
    } else {
        state.pending
    };
    SemanticRefreshAccounting {
        pending,
        in_flight: if state.in_flight == 0 {
            pending
        } else {
            state.in_flight
        },
    }
}

/// What is left once a refresh ended: a completion settles all that was in flight, and at least
/// one refresh; a cancellation settles one.
pub open spec fn finished(
    state: SemanticRefreshAccounting,
    complete_in_flight: bool,
) -> SemanticRefreshAccounting {
    let settled: int = if complete_in_flight && state.in_flight > 1 {
        state.in_flight as int
    } else {
        1
    };
    let pending = if settled >= state.pending {
        0usize
    } else {
        (state.pending - settled) as usize
    };
    SemanticRefreshAccounting {
        pending,
        in_flight: if complete_in_flight {
            0
        } else if state.in_flight < pending {
            state.in_flight
        } else {
            pending
        },
    }
}

/// The status with a refresh of `path` queued.
pub open spec fn status_with_added(
    status: SemanticStatusView,
    path: Seq<char>,
) -> SemanticStatusView {
    match status {
        SemanticStatusView::Ready { platform, refreshing, accounting } => SemanticStatusView::Ready {
            platform,
            refreshing: path_set::with_path(platform, refreshing, path),
            accounting: accounting.insert(
                components(platform, path),
                one_more_pending(accounting_of(accounting, components(platform, path))),
            ),
        },
        _ => status,
    }
}

/// The status with the refresh of `path` picked up.
pub open spec fn status_with_started(
    status: SemanticStatusView,
    path: Seq<char>,
) -> SemanticStatusView {
    match status {
        SemanticStatusView::Ready { platform, refreshing, accounting } => SemanticStatusView::Ready {
            platform,
            refreshing: path_set::with_path(platform, refreshing, path),
            accounting: accounting.insert(
                components(platform, path),
                picked_up(accounting_of(accounting, components(platform, path))),
            ),
        },
        _ => status,
    }
}

/// The status after a refresh of `path` ended: the path leaves once nothing of it is queued.
pub open spec fn status_with_finished(
    status: SemanticStatusView,
    path: Seq<char>,
    complete_in_flight: bool,
) -> SemanticStatusView {
    match status {
        SemanticStatusView::Ready { platform, refreshing, accounting } => {
            let left = finished(
                accounting_of(accounting, components(platform, path)),
                complete_in_flight,
            );
            if accounting.dom().contains(components(platform, path)) && left.pending > 0 {
                SemanticStatusView::Ready {
                    platform,
                    refreshing,
                    accounting: accounting.insert(components(platform, path), left),
                }
            } else {
                SemanticStatusView::Ready {
                    platform,
                    refreshing: path_set::without_path(platform, refreshing, path),
                    accounting: accounting.remove(components(platform, path)),
                }
            }
        },
        _ => status,
    }
}

/// The invariant of a status: the files that are refreshing stand in order and once, they are
/// those with an accounting, and an accounting has queued work, at least as much as is in
/// flight.
#[verifier::opaque]
pub open spec fn status_well_formed(status: SemanticStatusView) -> bool {
    match status {
        SemanticStatusView::Ready { platform, refreshing, accounting } => {
            &&& path_set::is_path_set(platform, refreshing)
            &&& forall|path: Seq<char>|
                path_set::has_path(platform, refreshing, path) <==> accounting.dom().contains(
                    #[trigger] components(platform, path),
                )
            &&& forall|key: Seq<PartView>| #[trigger]
                accounting.dom().contains(key) ==> {
                    &&& accounting[key].pending > 0
                    &&& accounting[key].in_flight <= accounting[key].pending
                }
        },
        _ => true,
    }
}

/// Lists a path as refreshing.
pub fn ensure_refreshing_path(platform: Platform, refreshing: &mut Vec<String>, path: String)
    ensures
        final(refreshing).deep_view() == path_set::with_path(
            platform,
            old(refreshing).deep_view(),
            path@,
        ),
{
    add_path(platform, refreshing, path);
}

/// Takes a path off the list of those refreshing.
pub fn remove_refreshing_path(platform: Platform, refreshing: &mut Vec<String>, path: &str)
    ensures
        final(refreshing).deep_view() == path_set::without_path(
            platform,
            old(refreshing).deep_view(),
            path@,
        ),
{
    remove_path(platform, refreshing, path);
}

/// The accounting of a path, or an empty one.
fn accounting_for(
    platform: Platform,
    accounting: &PathMap<SemanticRefreshAccounting>,
    path: &str,
) -> (state: SemanticRefreshAccounting)
    ensures
        state == accounting_of(
            path_map::by_path(platform, accounting.deep_view()),
            components(platform, path@),
        ),
{
    match accounting.get(platform, path) {
        Some(state) => *state,
        None => SemanticRefreshAccounting { pending: 0, in_flight: 0 },
    }
}

impl SemanticIndexStatus {
    /// A status in which nothing is being refreshed.
    pub fn ready(platform: Platform) -> (status: Self)
        ensures
            status.deep_view() == (SemanticStatusView::Ready {
                platform,
                refreshing: Seq::empty(),
                accounting: Map::empty(),
            }),
            status_well_formed(status.deep_view()),
    {
        let refreshing: Vec<String> = Vec::new();
        let accounting: PathMap<SemanticRefreshAccounting> = PathMap::new();
        proof {
            assert(refreshing.deep_view() =~= Seq::<Seq<char>>::empty());
            assert(path_map::by_path(platform, accounting.deep_view()) =~= Map::empty());
            reveal(status_well_formed);
        }
        SemanticIndexStatus::Ready { platform, refreshing, accounting }
    }

    /// Queues a refresh of a file.
    pub fn add_refreshing_file(&mut self, path: String)
        ensures
            final(self).deep_view() == status_with_added(old(self).deep_view(), path@),
    {
        match self {
            SemanticIndexStatus::Ready { platform, refreshing, accounting } => {
                let mut state = accounting_for(*platform, accounting, path.as_str());
                state.pending = state.pending.saturating_add(1);
                proof {
                    path_map::law_put_inserts(*platform, accounting.deep_view(), path@, state);
                }
                accounting.put(*platform, path.clone(), state);
                ensure_refreshing_path(*platform, refreshing, path);
            },
            _ => {},
        }
    }

    /// Notes that the worker picked up the refresh of a file.
    pub fn start_refreshing_file(&mut self, path: String)
        ensures
            final(self).deep_view() == status_with_started(old(self).deep_view(), path@),
    {
        match self {
            SemanticIndexStatus::Ready { platform, refreshing, accounting } => {
                let mut state = accounting_for(*platform, accounting, path.as_str());
                if state.pending == 0 {
                    state.pending = 1;
                }
                if state.in_flight == 0 {
                    state.in_flight = state.pending;
                }
                proof {
                    path_map::law_put_inserts(*platform, accounting.deep_view(), path@, state);
                }
                accounting.put(*platform, path.clone(), state);
                ensure_refreshing_path(*platform, refreshing, path);
            },
            _ => {},
        }
    }

    /// Takes back one queued refresh of a file.
    pub fn cancel_refreshing_file(&mut self, path: &str)
        ensures
            final(self).deep_view() == status_with_finished(old(self).deep_view(), path@, false),
    {
        self.finish_refreshing_file(path, false);
    }

    /// Takes every file that is refreshing, for a replacement worker to queue again.
    pub fn take_refreshing_files(&mut self) -> (files: Vec<String>)
        ensures
            match old(self).deep_view() {
                SemanticStatusView::Ready { platform, refreshing, .. } => {
                    &&& files.deep_view() == refreshing
                    &&& final(self).deep_view() == (SemanticStatusView::Ready {
                        platform,
                        refreshing: Seq::empty(),
                        accounting: Map::empty(),
                    })
                },
                _ => {
                    &&& files.deep_view() == Seq::<Seq<char>>::empty()
                    &&& final(self).deep_view() == old(self).deep_view()
                },
            },
    {
        let mut files: Vec<String> = Vec::new();
        assert(files.deep_view() =~= Seq::<Seq<char>>::empty());
        match self {
            SemanticIndexStatus::Ready { platform, refreshing, accounting } => {
                *accounting = PathMap::new();
                std::mem::swap(&mut files, refreshing);
                proof {
                    assert(path_map::by_path(*platform, accounting.deep_view()) =~= Map::empty());
                }
            },
            _ => {},
        }
        files
    }

    /// Whether a refresh of the whole corpus, not of single files, is running.
    pub fn corpus_refresh_in_flight(&self) -> (yes: bool)
        ensures
            yes == (self.deep_view() matches SemanticStatusView::Building { stage, .. } && stage
                == "refreshing_corpus"@),
    {
        match self {
            SemanticIndexStatus::Building { stage, .. } => text::same_text(
                stage.as_str(),
                "refreshing_corpus",
            ),
            _ => false,
        }
    }

    /// Notes that the refresh of a file that was in flight is done.
    pub fn complete_refreshing_file(&mut self, path: &str)
        ensures
            final(self).deep_view() == status_with_finished(old(self).deep_view(), path@, true),
    {
        self.finish_refreshing_file(path, true);
    }

    /// The same as [`SemanticIndexStatus::complete_refreshing_file`].
    pub fn remove_refreshing_file(&mut self, path: &str)
        ensures
            final(self).deep_view() == status_with_finished(old(self).deep_view(), path@, true),
    {
        self.complete_refreshing_file(path);
    }

    fn finish_refreshing_file(&mut self, path: &str, complete_in_flight: bool)
        ensures
            final(self).deep_view() == status_with_finished(
                old(self).deep_view(),
                path@,
                complete_in_flight,
            ),
    {
        match self {
            SemanticIndexStatus::Ready { platform, refreshing, accounting } => {
                let ghost pairs = accounting.deep_view();
                let known = accounting.get(*platform, path).is_some();
                if known {
                    let mut state = accounting_for(*platform, accounting, path);
                    let settled: usize = if complete_in_flight && state.in_flight > 1 {
                        state.in_flight
                    } else {
                        1
                    };
                    state.pending = state.pending.saturating_sub(settled);
                    if complete_in_flight {
                        state.in_flight = 0;
                    } else if state.in_flight > state.pending {
                        state.in_flight = state.pending;
                    }
                    if state.pending > 0 {
                        proof {
                            path_map::law_put_inserts(*platform, pairs, path@, state);
                        }
                        accounting.put(*platform, path.to_owned(), state);
                        return;
                    }
                    accounting.remove(*platform, path);
                }
                proof {
                    path_map::law_remove_removes(*platform, pairs, path@);
                    if !known {
                        let all = path_map::by_path(*platform, pairs);
                        assert(all.remove(components(*platform, path@)) =~= all);
                    }
                }
                remove_refreshing_path(*platform, refreshing, path);
            },
            _ => {},
        }
    }

    /// Whether the index is ready and nothing is being refreshed.
    pub fn is_settled(&self) -> (yes: bool)
        ensures
            yes == (self.deep_view() matches SemanticStatusView::Ready { refreshing, .. }
                && refreshing.len() == 0),
    {
        match self {
            SemanticIndexStatus::Ready { refreshing, .. } => refreshing.len() == 0,
            _ => false,
        }
    }

    /// How many files are refreshing.
    pub fn refreshing_count(&self) -> (count: usize)
        ensures
            count == (match self.deep_view() {
                SemanticStatusView::Ready { refreshing, .. } => refreshing.len(),
                _ => 0,
            }),
    {
        match self {
            SemanticIndexStatus::Ready { refreshing, .. } => refreshing.len(),
            _ => 0,
        }
    }
}

/// Queuing a refresh keeps the invariant.
pub proof fn law_adding_keeps_the_invariant(status: SemanticStatusView, path: Seq<char>)
    requires
        status_well_formed(status),
    ensures
        status_well_formed(status_with_added(status, path)),
{
    reveal(status_well_formed);
    if let SemanticStatusView::Ready { platform, refreshing, accounting } = status {
        path_set::lemma_with_path(platform, refreshing, path);
    }
}

/// Picking up a refresh keeps the invariant.
pub proof fn law_starting_keeps_the_invariant(status: SemanticStatusView, path: Seq<char>)
    requires
        status_well_formed(status),
    ensures
        status_well_formed(status_with_started(status, path)),
{
    reveal(status_well_formed);
    if let SemanticStatusView::Ready { platform, refreshing, accounting } = status {
        path_set::lemma_with_path(platform, refreshing, path);
    }
}

/// Completing and cancelling a refresh keep the invariant.
pub proof fn law_finishing_keeps_the_invariant(
    status: SemanticStatusView,
    path: Seq<char>,
    complete_in_flight: bool,
)
    requires
        status_well_formed(status),
    ensures
        status_well_formed(status_with_finished(status, path, complete_in_flight)),
{
    reveal(status_well_formed);
    if let SemanticStatusView::Ready { platform, refreshing, accounting } = status {
        path_set::lemma_without_path(platform, refreshing, path);
    }
}

/// A file is listed as refreshing exactly where it has an accounting, and then something of it is
/// queued, at least as much as is in flight.
proof fn lemma_listed(status: SemanticStatusView, path: Seq<char>)
    requires
        status_well_formed(status),
        status is Ready,
    ensures
        ({
            let parts = components(status->platform, path);
            let known = status->accounting.dom().contains(parts);
            &&& path_set::has_path(status->platform, status->refreshing, path) == known
            &&& known ==> status->accounting[parts].pending > 0
            &&& known ==> status->accounting[parts].in_flight <= status->accounting[parts].pending
        }),
{
    reveal(status_well_formed);
}

/// The completion of an older refresh does not end a newer one: where a file was queued again
/// after its refresh had been picked up, it is still refreshing once that refresh completes.
pub proof fn law_newer_edit_survives_an_older_completion(
    status: SemanticStatusView,
    path: Seq<char>,
)
    requires
        status_well_formed(status),
        status is Ready,
        accounting_of(status->accounting, components(status->platform, path)).pending < usize::MAX,
    ensures
        ({
            let started = status_with_started(status, path);
            let edited = status_with_added(started, path);
            let completed = status_with_finished(edited, path, true);
            &&& path_set::has_path(status->platform, completed->refreshing, path)
            &&& accounting_of(completed->accounting, components(status->platform, path)).pending >= 1
            &&& accounting_of(completed->accounting, components(status->platform, path)).in_flight == 0
        }),
{
    let started = status_with_started(status, path);
    let edited = status_with_added(started, path);
    let completed = status_with_finished(edited, path, true);
    law_starting_keeps_the_invariant(status, path);
    law_adding_keeps_the_invariant(started, path);
    law_finishing_keeps_the_invariant(edited, path, true);
    lemma_listed(status, path);
    lemma_listed(started, path);
    lemma_listed(edited, path);
    lemma_listed(completed, path);
}

/// A file that was queued once and whose refresh completes is no longer refreshing, and the
/// other files are as they were.
pub proof fn law_completion_settles_one_edit(status: SemanticStatusView, path: Seq<char>)
    requires
        status_well_formed(status),
        status is Ready,
        !path_set::has_path(status->platform, status->refreshing, path),
    ensures
        ({
            let added = status_with_added(status, path);
            let completed = status_with_finished(status_with_started(added, path), path, true);
            &&& !path_set::has_path(status->platform, completed->refreshing, path)
            &&& completed->accounting =~= status->accounting
            &&& forall|other: Seq<char>| #[trigger]
                path_set::has_path(
                    status->platform,
                    completed->refreshing,
                    other,
                ) <==> path_set::has_path(
                    status->platform,
                    status->refreshing,
                    other,
                )
        }),
{
    let added = status_with_added(status, path);
    let started = status_with_started(added, path);
    let completed = status_with_finished(started, path, true);
    law_adding_keeps_the_invariant(status, path);
    law_starting_keeps_the_invariant(added, path);
    law_finishing_keeps_the_invariant(started, path, true);
    lemma_listed(status, path);
    lemma_listed(completed, path);
    assert forall|other: Seq<char>| #[trigger]
        path_set::has_path(status->platform, completed->refreshing, other) <==> path_set::has_path(
            status->platform,
            status->refreshing,
            other,
        ) by {
        lemma_listed(completed, other);
        lemma_listed(status, other);
    }
}

/// A status with a refresh of a file queued `times` more.
pub open spec fn status_with_edits(
    status: SemanticStatusView,
    path: Seq<char>,
    times: nat,
) -> SemanticStatusView
    decreases times,
{
    if times == 0 {
        status
    } else {
        status_with_added(status_with_edits(status, path, (times - 1) as nat), path)
    }
}

/// How many refreshes of a file are queued.
pub open spec fn queued(status: SemanticStatusView, path: Seq<char>) -> int {
    let parts = components(status->platform, path);
    if status->accounting.dom().contains(parts) {
        status->accounting[parts].pending as int
    } else {
        0
    }
}

/// How many of the queued refreshes of a file the worker has picked up.
pub open spec fn picked(status: SemanticStatusView, path: Seq<char>) -> int {
    let parts = components(status->platform, path);
    if status->accounting.dom().contains(parts) {
        status->accounting[parts].in_flight as int
    } else {
        0
    }
}

/// Whether two statuses agree on a file.
pub open spec fn agree_on(a: SemanticStatusView, b: SemanticStatusView, path: Seq<char>) -> bool {
    &&& queued(a, path) == queued(b, path)
    &&& picked(a, path) == picked(b, path)
    &&& path_set::has_path(a->platform, a->refreshing, path) == path_set::has_path(
        b->platform,
        b->refreshing,
        path,
    )
}

/// Whether two statuses agree on every file but one.
pub open spec fn agree_elsewhere(
    a: SemanticStatusView,
    b: SemanticStatusView,
    path: Seq<char>,
) -> bool {
    &&& a is Ready
    &&& b is Ready
    &&& a->platform == b->platform
    &&& forall|other: Seq<char>|
        components(a->platform, other) != components(a->platform, path) ==> #[trigger] agree_on(
            a,
            b,
            other,
        )
}

/// Each edit queues one refresh of its file, on top of those that are queued, and makes the file
/// one that is refreshing; what the worker has picked up stays as it is, and so does every other
/// file.
pub proof fn law_edits_queue_up(status: SemanticStatusView, path: Seq<char>, times: nat)
    requires
        status_well_formed(status),
        status is Ready,
        queued(status, path) + times <= usize::MAX,
    ensures
        ({
            let edited = status_with_edits(status, path, times);
            &&& status_well_formed(edited)
            &&& queued(edited, path) == queued(status, path) + times
            &&& picked(edited, path) == picked(status, path)
            &&& times > 0 ==> path_set::has_path(status->platform, edited->refreshing, path)
            &&& agree_elsewhere(status, edited, path)
        }),
    decreases times,
{
    if times > 0 {
        let before = status_with_edits(status, path, (times - 1) as nat);
        law_edits_queue_up(status, path, (times - 1) as nat);
        law_adding_keeps_the_invariant(before, path);
        lemma_added_elsewhere(before, path);
        lemma_listed(status_with_added(before, path), path);
        lemma_agree_in_turn(status, before, status_with_added(before, path), path);
    }
}

proof fn lemma_agree_in_turn(
    a: SemanticStatusView,
    b: SemanticStatusView,
    c: SemanticStatusView,
    path: Seq<char>,
)
    requires
        agree_elsewhere(a, b, path),
        agree_elsewhere(b, c, path),
    ensures
        agree_elsewhere(a, c, path),
{
    assert forall|other: Seq<char>|
        components(a->platform, other) != components(a->platform, path) implies #[trigger] agree_on(
        a,
        c,
        other,
    ) by {
        assert(agree_on(a, b, other));
        assert(agree_on(b, c, other));
    }
}

proof fn lemma_added_elsewhere(status: SemanticStatusView, path: Seq<char>)
    requires
        status_well_formed(status),
        status is Ready,
    ensures
        agree_elsewhere(status, status_with_added(status, path), path),
        agree_elsewhere(status, status_with_started(status, path), path),
{
    let added = status_with_added(status, path);
    let started = status_with_started(status, path);
    law_adding_keeps_the_invariant(status, path);
    law_starting_keeps_the_invariant(status, path);
    let platform = status->platform;
    assert forall|other: Seq<char>|
        components(platform, other) != components(platform, path) implies #[trigger] agree_on(
        status,
        added,
        other,
    ) by {
        lemma_listed(status, other);
        lemma_listed(added, other);
    }
    assert forall|other: Seq<char>|
        components(platform, other) != components(platform, path) implies #[trigger] agree_on(
        status,
        started,
        other,
    ) by {
        lemma_listed(status, other);
        lemma_listed(started, other);
    }
}

proof fn lemma_finished_elsewhere(
    status: SemanticStatusView,
    path: Seq<char>,
    complete_in_flight: bool,
)
    requires
        status_well_formed(status),
        status is Ready,
    ensures
        agree_elsewhere(status, status_with_finished(status, path, complete_in_flight), path),
{
    let done = status_with_finished(status, path, complete_in_flight);
    law_finishing_keeps_the_invariant(status, path, complete_in_flight);
    let platform = status->platform;
    assert forall|other: Seq<char>|
        components(platform, other) != components(platform, path) implies #[trigger] agree_on(
        status,
        done,
        other,
    ) by {
        lemma_listed(status, other);
        lemma_listed(done, other);
    }
}

/// A refresh covers everything that is queued when the worker picks it up, and nothing that is
/// queued later: after `earlier` edits, the pick-up, `later` edits and the completion, the `later`
/// edits are what is left to do. With none of them the file is no longer refreshing.
pub proof fn law_refresh_covers_what_was_queued(
    status: SemanticStatusView,
    path: Seq<char>,
    earlier: nat,
    later: nat,
)
    requires
        status_well_formed(status),
        status is Ready,
        picked(status, path) == 0,
        queued(status, path) + earlier + later < usize::MAX,
    ensures
        ({
            let edited = status_with_edits(status, path, earlier);
            let started = status_with_started(edited, path);
            let again = status_with_edits(started, path, later);
            let done = status_with_finished(again, path, true);
            &&& queued(done, path) == later
            &&& picked(done, path) == 0
            &&& path_set::has_path(status->platform, done->refreshing, path) == (later > 0)
            &&& agree_elsewhere(status, done, path)
            &&& status_well_formed(done)
        }),
{
    let edited = status_with_edits(status, path, earlier);
    let started = status_with_started(edited, path);
    let again = status_with_edits(started, path, later);
    let done = status_with_finished(again, path, true);
    law_edits_queue_up(status, path, earlier);
    law_starting_keeps_the_invariant(edited, path);
    lemma_added_elsewhere(edited, path);
    law_edits_queue_up(started, path, later);
    law_finishing_keeps_the_invariant(again, path, true);
    lemma_finished_elsewhere(again, path, true);
    lemma_agree_in_turn(status, edited, started, path);
    lemma_agree_in_turn(status, started, again, path);
    lemma_agree_in_turn(status, again, done, path);
    lemma_listed(edited, path);
    lemma_listed(started, path);
    lemma_listed(again, path);
    lemma_listed(done, path);
}

/// Whatever number of edits of a file is queued, the completion of a refresh that was picked up
/// after all of them settles the file.
pub proof fn law_completion_settles_every_queued_edit(
    status: SemanticStatusView,
    path: Seq<char>,
)
    requires
        status_well_formed(status),
        status is Ready,
        accounting_of(status->accounting, components(status->platform, path)).in_flight == 0,
    ensures
        ({
            let done = status_with_finished(status_with_started(status, path), path, true);
            &&& !path_set::has_path(status->platform, done->refreshing, path)
            &&& !done->accounting.dom().contains(components(status->platform, path))
        }),
{
    let started = status_with_started(status, path);
    law_starting_keeps_the_invariant(status, path);
    law_finishing_keeps_the_invariant(started, path, true);
    let done = status_with_finished(started, path, true);
    lemma_listed(status, path);
    lemma_listed(done, path);
}

/// A pick-up makes its file one that is refreshing, with at least one refresh queued, and a second
/// pick-up of the same file before the first one is completed changes nothing.
pub proof fn law_second_pick_up_changes_nothing(status: SemanticStatusView, path: Seq<char>)
    requires
        status_well_formed(status),
        status is Ready,
    ensures
        ({
            let started = status_with_started(status, path);
            &&& path_set::has_path(status->platform, started->refreshing, path)
            &&& queued(started, path) == (if queued(status, path) == 0 {
                1
            } else {
                queued(status, path)
            })
            &&& picked(started, path) > 0
            &&& picked(status, path) > 0 ==> picked(started, path) == picked(status, path)
            &&& status_with_started(started, path) =~= started
            &&& agree_elsewhere(status, started, path)
        }),
{
    let started = status_with_started(status, path);
    law_starting_keeps_the_invariant(status, path);
    lemma_added_elsewhere(status, path);
    lemma_listed(status, path);
    lemma_listed(started, path);
    let again = status_with_started(started, path);
    assert(again->accounting =~= started->accounting);
}

/// A cancellation takes back one edit: right after the edit it leaves the status as it was, and
/// otherwise one refresh less is queued, until none is.
pub proof fn law_cancellation_takes_one_edit_back(status: SemanticStatusView, path: Seq<char>)
    requires
        status_well_formed(status),
        status is Ready,
        queued(status, path) < usize::MAX,
    ensures
        ({
            let undone = status_with_finished(status_with_added(status, path), path, false);
            &&& queued(undone, path) == queued(status, path)
            &&& picked(undone, path) == picked(status, path)
            &&& path_set::has_path(status->platform, undone->refreshing, path)
                == path_set::has_path(status->platform, status->refreshing, path)
            &&& undone->accounting =~= status->accounting
            &&& agree_elsewhere(status, undone, path)
        }),
        ({
            let less = status_with_finished(status, path, false);
            &&& queued(less, path) == (if queued(status, path) == 0 {
                0
            } else {
                queued(status, path) - 1
            })
            &&& picked(less, path) <= picked(status, path)
            &&& path_set::has_path(status->platform, less->refreshing, path) == (queued(
                less,
                path,
            ) > 0)
            &&& agree_elsewhere(status, less, path)
        }),
{
    let added = status_with_added(status, path);
    let undone = status_with_finished(added, path, false);
    let less = status_with_finished(status, path, false);
    let platform = status->platform;
    law_adding_keeps_the_invariant(status, path);
    lemma_added_elsewhere(status, path);
    law_finishing_keeps_the_invariant(added, path, false);
    lemma_finished_elsewhere(added, path, false);
    lemma_agree_in_turn(status, added, undone, path);
    law_finishing_keeps_the_invariant(status, path, false);
    lemma_finished_elsewhere(status, path, false);
    lemma_listed(status, path);
    lemma_listed(undone, path);
    lemma_listed(less, path);
    assert(undone->accounting =~= status->accounting);
}

/// A completion settles what was in flight, and one refresh where nothing was.
pub proof fn law_completion_settles_what_was_in_flight(
    status: SemanticStatusView,
    path: Seq<char>,
)
    requires
        status_well_formed(status),
        status is Ready,
    ensures
        ({
            let done = status_with_finished(status, path, true);
            let settled = if picked(status, path) == 0 {
                1
            } else {
                picked(status, path)
            };
            &&& queued(done, path) == (if queued(status, path) < settled {
                0
            } else {
                queued(status, path) - settled
            })
            &&& picked(done, path) == 0
            &&& path_set::has_path(status->platform, done->refreshing, path) == (queued(
                done,
                path,
            ) > 0)
            &&& agree_elsewhere(status, done, path)
        }),
{
    let done = status_with_finished(status, path, true);
    law_finishing_keeps_the_invariant(status, path, true);
    lemma_finished_elsewhere(status, path, true);
    lemma_listed(status, path);
    lemma_listed(done, path);
}

/// An index that cannot be queried has no files that refresh: edits, pick-ups and completions
/// leave its status as it is.
pub proof fn law_only_a_ready_index_refreshes_files(
    status: SemanticStatusView,
    path: Seq<char>,
    complete_in_flight: bool,
)
    requires
        !(status is Ready),
    ensures
        status_with_added(status, path) == status,
        status_with_started(status, path) == status,
        status_with_finished(status, path, complete_in_flight) == status,
{
}

/// Live counters of a semantic build.
#[derive(Debug, Clone, Copy, PartialEq, Eq, Structural)]
pub struct SemanticBuildProgress {
    embedded_chunks: usize,
    total_chunks: usize,
    current_batch: usize,
    total_batches: usize,
}

/// The counters of a semantic build at one moment.
#[derive(Debug, Clone, Copy, PartialEq, Eq, Structural)]
pub struct SemanticBuildProgressSnapshot {
    pub embedded_chunks: usize,
    pub total_chunks: usize,
    pub current_batch: usize,
    pub total_batches: usize,
}

/// How many batches of `size` it takes to hold `count` chunks.
pub open spec fn batches(count: int, size: int) -> int {
    (count + size - 1) / size
}

/// What a report of `embedded` chunks out of `total`, in batches of `batch_size`, amounts to: no
/// more is embedded than there is, and a batch holds at least one chunk.
pub open spec fn reported(
    embedded: usize,
    total: usize,
    batch_size: usize,
) -> SemanticBuildProgressSnapshot {
    let size: int = if batch_size == 0 {
        1
    } else {
        batch_size as int
    };
    let done = if embedded < total {
        embedded
    } else {
        total
    };
    SemanticBuildProgressSnapshot {
        embedded_chunks: done,
        total_chunks: total,
        current_batch: batches(done as int, size) as usize,
        total_batches: batches(total as int, size) as usize,
    }
}

proof fn lemma_batches(count: int, size: int)
    requires
        count >= 0,
        size >= 1,
    ensures
        0 <= batches(count, size) <= count,
        count > 0 ==> batches(count, size) == (count - 1) / size + 1,
        count == 0 ==> batches(count, size) == 0,
{
    if count > 0 {
        vstd::arithmetic::div_mod::lemma_div_plus_one(count - 1, size);
        vstd::arithmetic::div_mod::lemma_div_nonincreasing(count - 1, size);
        vstd::arithmetic::div_mod::lemma_div_pos_is_pos(count - 1, size);
        assert(size + (count - 1) == count + size - 1);
    } else {
        vstd::arithmetic::div_mod::lemma_basic_div(size - 1, size);
    }
}

fn count_batches(count: usize, size: usize) -> (n: usize)
    requires
        size >= 1,
    ensures
        n == batches(count as int, size as int),
{
    proof {
        lemma_batches(count as int, size as int);
    }
    if count == 0 {
        0
    } else {
        (count - 1) / size + 1
    }
}

impl SemanticBuildProgress {
    /// The counters, as a snapshot.
    pub closed spec fn counters(&self) -> SemanticBuildProgressSnapshot {
        SemanticBuildProgressSnapshot {
            embedded_chunks: self.embedded_chunks,
            total_chunks: self.total_chunks,
            current_batch: self.current_batch,
            total_batches: self.total_batches,
        }
    }

    /// Progress of a build that has not reported yet.
    pub fn new() -> (progress: Self)
        ensures
            progress.counters() == (SemanticBuildProgressSnapshot {
                embedded_chunks: 0,
                total_chunks: 0,
                current_batch: 0,
                total_batches: 0,
            }),
    {
        SemanticBuildProgress {
            embedded_chunks: 0,
            total_chunks: 0,
            current_batch: 0,
            total_batches: 0,
        }
    }

    /// Notes how far the build has come.
    pub fn report(&mut self, embedded_chunks: usize, total_chunks: usize, batch_size: usize)
        ensures
            final(self).counters() == reported(embedded_chunks, total_chunks, batch_size),
    {
        let size: usize = if batch_size == 0 {
            1
        } else {
            batch_size
        };
        let done: usize = if embedded_chunks < total_chunks {
            embedded_chunks
        } else {
            total_chunks
        };
        self.total_chunks = total_chunks;
        self.embedded_chunks = done;
        self.current_batch = count_batches(done, size);
        self.total_batches = count_batches(total_chunks, size);
    }

    /// The counters at this moment.
    pub fn snapshot(&self) -> (out: SemanticBuildProgressSnapshot)
        ensures
            out == self.counters(),
    {
        SemanticBuildProgressSnapshot {
            embedded_chunks: self.embedded_chunks,
            total_chunks: self.total_chunks,
            current_batch: self.current_batch,
            total_batches: self.total_batches,
        }
    }
}

/// Progress never runs past its end, in chunks or in batches.
pub proof fn law_progress_stays_within_total(embedded: usize, total: usize, batch_size: usize)
    ensures
        reported(embedded, total, batch_size).embedded_chunks <= total,
        reported(embedded, total, batch_size).current_batch <= reported(
            embedded,
            total,
            batch_size,
        ).total_batches,
        embedded >= total ==> reported(embedded, total, batch_size).current_batch == reported(
            embedded,
            total,
            batch_size,
        ).total_batches,
{
    let size: int = if batch_size == 0 {
        1
    } else {
        batch_size as int
    };
    let done = reported(embedded, total, batch_size).embedded_chunks as int;
    lemma_batches(done, size);
    lemma_batches(total as int, size);
    vstd::arithmetic::div_mod::lemma_div_is_ordered(done + size - 1, total + size - 1, size);
}

/// A report says how many chunks there are and how many of them are embedded, and counts as many
/// batches as it takes to hold them: the last one is needed, and no further one is.
pub proof fn law_progress_counts_chunks_and_batches(
    embedded: usize,
    total: usize,
    batch_size: usize,
)
    ensures
        ({
            let counters = reported(embedded, total, batch_size);
            let size: int = if batch_size == 0 {
                1
            } else {
                batch_size as int
            };
            &&& counters.total_chunks == total
            &&& counters.embedded_chunks <= embedded
            &&& embedded <= total ==> counters.embedded_chunks == embedded
            &&& embedded > total ==> counters.embedded_chunks == total
            &&& counters.total_batches * size >= total
            &&& total > 0 ==> (counters.total_batches - 1) * size < total
            &&& total == 0 ==> counters.total_batches == 0
            &&& counters.current_batch * size >= counters.embedded_chunks
            &&& counters.embedded_chunks > 0 ==> (counters.current_batch - 1) * size
                < counters.embedded_chunks
            &&& counters.embedded_chunks == 0 ==> counters.current_batch == 0
        }),
{
    let size: int = if batch_size == 0 {
        1
    } else {
        batch_size as int
    };
    let done = reported(embedded, total, batch_size).embedded_chunks as int;
    lemma_batches(done, size);
    lemma_batches(total as int, size);
    lemma_batches_hold(done, size);
    lemma_batches_hold(total as int, size);
}

proof fn lemma_batches_hold(count: int, size: int)
    requires
        count >= 0,
        size >= 1,
    ensures
        batches(count, size) * size >= count,
        count > 0 ==> (batches(count, size) - 1) * size < count,
{
    let rounded = count + size - 1;
    vstd::arithmetic::div_mod::lemma_fundamental_div_mod(rounded, size);
    vstd::arithmetic::div_mod::lemma_mod_bound(rounded, size);
    let n = batches(count, size);
    assert(size * n == n * size) by (nonlinear_arith);
    assert((n - 1) * size == n * size - size) by (nonlinear_arith);
}

/// What a semantic worker tells its root; `Index` is the index that it built.
pub enum SemanticIndexEvent<Index> {
    Progress {
        stage: String,
        files: Option<usize>,
        entries_done: Option<usize>,
        entries_total: Option<usize>,
    },
    /// The worker does not collect the whole corpus for now: work that waited for the full index
    /// can go on.
    ColdSeedGateCleared,
    Ready(Index),
    Failed(String),
}

/// What a root asks of its refresh worker.
#[derive(Debug)]
pub enum SemanticRefreshRequest {
    Files { paths: Vec<String> },
    /// The whole corpus; the worker walks the project itself.
    Corpus,
}

/// What a refresh worker tells its root.
#[derive(Debug)]
pub enum SemanticRefreshEvent<Index, Entry, Freshness> {
    Started { paths: Vec<String> },
    CorpusStarted { files: usize },
    Completed {
        added_entries: Vec<Entry>,
        updated_metadata: Vec<(String, Freshness)>,
        completed_paths: Vec<String>,
    },
    CorpusCompleted {
        index: Index,
        changed: usize,
        added: usize,
        deleted: usize,
        total_processed: usize,
    },
    Failed { paths: Vec<String>, error: String },
    CorpusFailed { error: String },
}

} // verus!
