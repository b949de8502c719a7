//! Paths that wait for an index: the only record that what was read from the watcher still has
//! to be taken up.

use vstd::prelude::*;

use crate::config::Platform;
use crate::context::{empty_pending, AppContext, PendingReconciliationState};
use crate::path_set;
use crate::path_set::PathSet;

verus! {

/// The model of [`PendingReconciliationState`].
#[verifier::ext_equal]
pub struct PendingView {
    pub search: Seq<Seq<char>>,
    pub callgraph: Seq<Seq<char>>,
    pub tier2: Seq<Seq<char>>,
    pub semantic: Seq<Seq<char>>,
    pub corpus_refresh: bool,
}

impl DeepView for PendingReconciliationState {
    type V = PendingView;

    open spec fn deep_view(&self) -> PendingView {
        PendingView {
            search: self.search.deep_view(),
            callgraph: self.callgraph.deep_view(),
            tier2: self.tier2.deep_view(),
            semantic: self.semantic.deep_view(),
            corpus_refresh: self.corpus_refresh,
        }
    }
}

impl PendingView {
    /// No path waits for anything.
    pub open spec fn nothing() -> PendingView {
        PendingView {
            search: Seq::empty(),
            callgraph: Seq::empty(),
            tier2: Seq::empty(),
            semantic: Seq::empty(),
            corpus_refresh: false,
        }
    }

    /// What waits once a state that was taken is put back.
    pub open spec fn with_restored(self, platform: Platform, state: PendingView) -> PendingView {
        PendingView {
            search: path_set::with_paths(platform, self.search, state.search),
            callgraph: path_set::with_paths(platform, self.callgraph, state.callgraph),
            tier2: path_set::with_paths(platform, self.tier2, state.tier2),
            semantic: path_set::with_paths(platform, self.semantic, state.semantic),
            corpus_refresh: self.corpus_refresh || state.corpus_refresh,
        }
    }

    /// The invariant: every part is a set of paths.
    pub open spec fn well_formed(self, platform: Platform) -> bool {
        &&& path_set::is_path_set(platform, self.search)
        &&& path_set::is_path_set(platform, self.callgraph)
        &&& path_set::is_path_set(platform, self.tier2)
        &&& path_set::is_path_set(platform, self.semantic)
    }
}

/// Everything but the pending paths is as it was.
pub open spec fn only_pending_changed(before: AppContext, after: AppContext) -> bool {
    after == (AppContext { pending: after.pending, ..before })
}

/// Paths that wait stay sets: in order, and each once.
pub open spec fn keeps_pending_sets(before: AppContext, after: AppContext) -> bool {
    before.pending.deep_view().well_formed(before.platform)
        ==> after.pending.deep_view().well_formed(after.platform)
}

/// The paths that are kept: those with a verdict that says so.
pub open spec fn kept_paths(paths: Seq<Seq<char>>, keep: Seq<bool>) -> Seq<Seq<char>>
    decreases paths.len(),
{
    if paths.len() == 0 {
        paths
    } else {
        let front = kept_paths(paths.drop_last(), keep);
        if paths.len() <= keep.len() && keep[paths.len() - 1] {
            front.push(paths.last())
        } else {
            front
        }
    }
}

/// A root that may be unknown, as a list.
pub open spec fn known_root(root: Option<Seq<char>>) -> Seq<Seq<char>> {
    match root {
        Some(root) => seq![root],
        None => Seq::empty(),
    }
}

/// Keeps the paths that lie within the root, by one verdict for each.
pub fn keep_contained(paths: Vec<String>, contained: &Vec<bool>) -> (kept: Vec<String>)
    ensures
        kept.deep_view() == kept_paths(paths.deep_view(), contained@),
{
    let ghost all = paths.deep_view();
    let mut kept: Vec<String> = Vec::new();
    let count: usize = paths.len();
    let mut i: usize = 0;
    assert(kept.deep_view() =~= kept_paths(all.take(0), contained@));
    for path in iter: paths
        invariant
            iter.seq() == paths@,
            all == paths.deep_view(),
            i == iter.index(),
            count == paths@.len(),
            kept.deep_view() == kept_paths(all.take(iter.index()), contained@),
    {
        let ghost place = iter.index();
        proof {
            assert(all[place] == path@);
            assert(all.take(place + 1).drop_last() =~= all.take(place));
            assert(all.take(place + 1).last() == path@);
        }
        if i < contained.len() && contained[i] {
            let ghost before = kept.deep_view();
            let ghost added = path@;
            kept.push(path);
            assert(kept.deep_view() =~= before.push(added));
        }
        i = i + 1;
    }
    assert(all.take(all.len() as int) =~= all);
    kept
}

impl AppContext {
    /// The roots that a path may lie within to be replayed into the callgraph store: the cache
    /// root and the configured root, as far as they are known.
    pub fn replay_roots(&self) -> (roots: Vec<String>)
        ensures
            roots.deep_view() == known_root(self.role.canonical_cache_root.deep_view())
                + known_root(self.config.project_root.deep_view()),
    {
        let mut roots: Vec<String> = Vec::new();
        if let Some(root) = &self.role.canonical_cache_root {
            roots.push(root.clone());
        }
        let ghost before = roots.deep_view();
        assert(before =~= known_root(self.role.canonical_cache_root.deep_view()));
        if let Some(root) = &self.config.project_root {
            roots.push(root.clone());
        }
        assert(roots.deep_view() =~= before + known_root(self.config.project_root.deep_view()));
        roots
    }

    /// Takes the paths that wait for the callgraph store. `contained` has a verdict for each of
    /// them, in order: whether it lies within a current root. The others are dropped.
    pub fn take_pending_callgraph_store_paths(&mut self, contained: &Vec<bool>) -> (paths: Vec<
        String,
    >)
        ensures
            paths.deep_view() == kept_paths(
                old(self).pending.callgraph.deep_view(),
                contained@,
            ),
            final(self).pending.deep_view() == (PendingView {
                callgraph: Seq::empty(),
                ..old(self).pending.deep_view()
            }),
            only_pending_changed(*old(self), *final(self)),
            keeps_pending_sets(*old(self), *final(self)),
    {
        let taken = self.pending.callgraph.take_all();
        keep_contained(taken, contained)
    }

    /// The paths that wait for the callgraph store, in order.
    pub fn pending_callgraph_store_paths(&self) -> (paths: Vec<String>)
        ensures
            paths.deep_view() == self.pending.callgraph.deep_view(),
    {
        self.pending.callgraph.to_list()
    }

    /// Notes paths for the search index and answers whether what was verified of the root has to
    /// be verified again.
    pub fn add_pending_search_index_paths(&mut self, paths: Vec<String>) -> (invalidate: bool)
        ensures
            invalidate == (paths@.len() > 0),
            final(self).pending.deep_view() == (PendingView {
                search: path_set::with_paths(
                    old(self).platform,
                    old(self).pending.deep_view().search,
                    paths.deep_view(),
                ),
                ..old(self).pending.deep_view()
            }),
            only_pending_changed(*old(self), *final(self)),
            keeps_pending_sets(*old(self), *final(self)),
    {
        let invalidate = paths.len() > 0;
        self.pending.search.extend(self.platform, paths);
        invalidate
    }

    /// Takes the paths that wait for the search index, in order.
    pub fn take_pending_search_index_paths(&mut self) -> (paths: Vec<String>)
        ensures
            paths.deep_view() == old(self).pending.deep_view().search,
            final(self).pending.deep_view() == (PendingView {
                search: Seq::empty(),
                ..old(self).pending.deep_view()
            }),
            only_pending_changed(*old(self), *final(self)),
            keeps_pending_sets(*old(self), *final(self)),
    {
        self.pending.search.take_all()
    }

    /// Notes paths for the semantic index and answers whether what was verified of the root has
    /// to be verified again.
    pub fn add_pending_semantic_index_paths(&mut self, paths: Vec<String>) -> (invalidate: bool)
        ensures
            invalidate == (paths@.len() > 0),
            final(self).pending.deep_view() == (PendingView {
                semantic: path_set::with_paths(
                    old(self).platform,
                    old(self).pending.deep_view().semantic,
                    paths.deep_view(),
                ),
                ..old(self).pending.deep_view()
            }),
            only_pending_changed(*old(self), *final(self)),
            keeps_pending_sets(*old(self), *final(self)),
    {
        let invalidate = paths.len() > 0;
        self.pending.semantic.extend(self.platform, paths);
        invalidate
    }

    /// Takes the paths that wait for the semantic index, in order.
    pub fn take_pending_semantic_index_paths(&mut self) -> (paths: Vec<String>)
        ensures
            paths.deep_view() == old(self).pending.deep_view().semantic,
            final(self).pending.deep_view() == (PendingView {
                semantic: Seq::empty(),
                ..old(self).pending.deep_view()
            }),
            only_pending_changed(*old(self), *final(self)),
            keeps_pending_sets(*old(self), *final(self)),
    {
        self.pending.semantic.take_all()
    }

    /// Notes that the whole semantic corpus has to be refreshed.
    pub fn mark_pending_semantic_corpus_refresh(&mut self)
        ensures
            final(self).pending.deep_view() == (PendingView {
                corpus_refresh: true,
                ..old(self).pending.deep_view()
            }),
            only_pending_changed(*old(self), *final(self)),
            keeps_pending_sets(*old(self), *final(self)),
    {
        self.pending.corpus_refresh = true;
    }

    /// Takes the note that the whole semantic corpus has to be refreshed.
    pub fn take_pending_semantic_corpus_refresh(&mut self) -> (noted: bool)
        ensures
            noted == old(self).pending.corpus_refresh,
            final(self).pending.deep_view() == (PendingView {
                corpus_refresh: false,
                ..old(self).pending.deep_view()
            }),
            only_pending_changed(*old(self), *final(self)),
            keeps_pending_sets(*old(self), *final(self)),
    {
        let noted = self.pending.corpus_refresh;
        self.pending.corpus_refresh = false;
        noted
    }

    /// Notes paths for background scans.
    pub fn add_pending_tier2_paths(&mut self, paths: Vec<String>)
        ensures
            final(self).pending.deep_view() == (PendingView {
                tier2: path_set::with_paths(
                    old(self).platform,
                    old(self).pending.deep_view().tier2,
                    paths.deep_view(),
                ),
                ..old(self).pending.deep_view()
            }),
            only_pending_changed(*old(self), *final(self)),
            keeps_pending_sets(*old(self), *final(self)),
    {
        self.pending.tier2.extend(self.platform, paths);
    }

    /// The paths that wait for background scans, in order.
    pub fn pending_tier2_paths(&self) -> (paths: Vec<String>)
        ensures
            paths.deep_view() == self.pending.tier2.deep_view(),
    {
        self.pending.tier2.to_list()
    }

    /// Takes paths off those that wait for background scans.
    pub fn remove_pending_tier2_paths(&mut self, paths: &Vec<String>)
        ensures
            final(self).pending.deep_view() == (PendingView {
                tier2: path_set::without_paths(
                    old(self).platform,
                    old(self).pending.deep_view().tier2,
                    paths.deep_view(),
                ),
                ..old(self).pending.deep_view()
            }),
            only_pending_changed(*old(self), *final(self)),
            keeps_pending_sets(*old(self), *final(self)),
    {
        self.pending.tier2.remove_all(self.platform, paths);
    }

    /// Forgets everything that waits.
    pub fn clear_pending_index_updates(&mut self)
        ensures
            final(self).pending.deep_view() == PendingView::nothing(),
            only_pending_changed(*old(self), *final(self)),
            keeps_pending_sets(*old(self), *final(self)),
    {
        self.clear_pending_index_updates_with_callgraph(true);
    }

    /// Forgets everything that waits, but for the paths of the callgraph store.
    pub fn clear_pending_index_updates_preserving_callgraph(&mut self)
        ensures
            final(self).pending.deep_view() == (PendingView {
                callgraph: old(self).pending.deep_view().callgraph,
                ..PendingView::nothing()
            }),
            only_pending_changed(*old(self), *final(self)),
            keeps_pending_sets(*old(self), *final(self)),
    {
        self.clear_pending_index_updates_with_callgraph(false);
    }

    fn clear_pending_index_updates_with_callgraph(&mut self, clear_callgraph: bool)
        ensures
            final(self).pending.deep_view() == (PendingView {
                callgraph: if clear_callgraph {
                    Seq::empty()
                } else {
                    old(self).pending.deep_view().callgraph
                },
                ..PendingView::nothing()
            }),
            only_pending_changed(*old(self), *final(self)),
            keeps_pending_sets(*old(self), *final(self)),
    {
        self.pending.search = PathSet::new();
        if clear_callgraph {
            self.pending.callgraph = PathSet::new();
        }
        self.pending.tier2 = PathSet::new();
        self.pending.semantic = PathSet::new();
        self.pending.corpus_refresh = false;
    }

    /// Takes everything that waits, for a teardown that may still be called off.
    pub fn take_pending_reconciliation_state(&mut self) -> (state: PendingReconciliationState)
        ensures
            state == old(self).pending,
            final(self).pending.deep_view() == PendingView::nothing(),
            only_pending_changed(*old(self), *final(self)),
            keeps_pending_sets(*old(self), *final(self)),
    {
        let mut state = empty_pending();
        std::mem::swap(&mut state, &mut self.pending);
        state
    }

    /// Puts back what was taken, beside what was noted since.
    pub fn restore_pending_reconciliation_state(&mut self, state: PendingReconciliationState)
        ensures
            final(self).pending.deep_view() == old(self).pending.deep_view().with_restored(
                old(self).platform,
                state.deep_view(),
            ),
            only_pending_changed(*old(self), *final(self)),
            keeps_pending_sets(*old(self), *final(self)),
    {
        self.pending.search.extend(self.platform, state.search.paths);
        self.pending.callgraph.extend(self.platform, state.callgraph.paths);
        self.pending.tier2.extend(self.platform, state.tier2.paths);
        self.pending.semantic.extend(self.platform, state.semantic.paths);
        if state.corpus_refresh {
            self.pending.corpus_refresh = true;
        }
    }
}

/// Adding a set in order to an empty one gives that set.
proof fn lemma_rebuilt(platform: Platform, paths: Seq<Seq<char>>)
    requires
        path_set::is_path_set(platform, paths),
    ensures
        path_set::with_paths(platform, Seq::empty(), paths) == paths,
    decreases paths.len(),
{
    if paths.len() > 0 {
        let front = paths.drop_last();
        assert(forall|k: int| 0 <= k < front.len() ==> front[k] == paths[k]);
        lemma_rebuilt(platform, front);
        assert(!path_set::has_path(platform, front, paths.last())) by {
            if path_set::has_path(platform, front, paths.last()) {
                let k = choose|k: int|
                    0 <= k < front.len() && crate::path_text::same_path(
                        platform,
                        #[trigger] front[k],
                        paths.last(),
                    );
                assert(crate::path_text::same_path(platform, paths[k], paths[paths.len() - 1]));
            }
        }
        assert(front.push(paths.last()) =~= paths);
        crate::path_order::law_sorting_keeps_order(platform, paths);
    }
}

/// Taking everything that waits and putting it back at once changes nothing.
pub proof fn law_restore_undoes_take(platform: Platform, pending: PendingView)
    requires
        pending.well_formed(platform),
    ensures
        PendingView::nothing().with_restored(platform, pending) == pending,
{
    lemma_rebuilt(platform, pending.search);
    lemma_rebuilt(platform, pending.callgraph);
    lemma_rebuilt(platform, pending.tier2);
    lemma_rebuilt(platform, pending.semantic);
}

/// Putting back loses no path: what was taken and what was noted since both wait afterwards.
pub proof fn law_restore_loses_nothing(
    platform: Platform,
    noted: PendingView,
    taken: PendingView,
    path: Seq<char>,
)
    requires
        noted.well_formed(platform),
    ensures
        noted.with_restored(platform, taken).well_formed(platform),
        path_set::has_path(platform, noted.with_restored(platform, taken).search, path) <==> path_set::has_path(
            platform,
            noted.search,
            path,
        ) || path_set::has_path(platform, taken.search, path),
        path_set::has_path(platform, noted.with_restored(platform, taken).callgraph, path) <==> path_set::has_path(
            platform,
            noted.callgraph,
            path,
        ) || path_set::has_path(platform, taken.callgraph, path),
        path_set::has_path(platform, noted.with_restored(platform, taken).tier2, path) <==> path_set::has_path(
            platform,
            noted.tier2,
            path,
        ) || path_set::has_path(platform, taken.tier2, path),
        path_set::has_path(platform, noted.with_restored(platform, taken).semantic, path) <==> path_set::has_path(
            platform,
            noted.semantic,
            path,
        ) || path_set::has_path(platform, taken.semantic, path),
{
    path_set::law_added_paths_are_members(platform, noted.search, taken.search);
    path_set::law_added_paths_are_members(platform, noted.callgraph, taken.callgraph);
    path_set::law_added_paths_are_members(platform, noted.tier2, taken.tier2);
    path_set::law_added_paths_are_members(platform, noted.semantic, taken.semantic);
}

/// Of the paths that wait, those are kept whose verdict says so, in their order, and no other.
pub proof fn law_verdicts_decide_what_is_kept(
    paths: Seq<Seq<char>>,
    keep: Seq<bool>,
    path: Seq<char>,
    place: int,
)
    ensures
        (0 <= place < paths.len() && place < keep.len() && keep[place]) ==> kept_paths(
            paths,
            keep,
        ).contains(paths[place]),
        kept_paths(paths, keep).contains(path) ==> exists|i: int|
            0 <= i < paths.len() && i < keep.len() && #[trigger] keep[i] && paths[i] == path,
        kept_paths(paths, keep).len() <= paths.len(),
    decreases paths.len(),
{
    if paths.len() > 0 {
        let front = paths.drop_last();
        let last = paths.len() - 1;
        let before = kept_paths(front, keep);
        let out = kept_paths(paths, keep);
        law_verdicts_decide_what_is_kept(front, keep, path, place);
        if 0 <= place < front.len() && place < keep.len() && keep[place] {
            let n = choose|n: int| 0 <= n < before.len() && before[n] == paths[place];
            assert(out[n] == paths[place]);
        }
        if place == last && place < keep.len() && keep[place] {
            assert(out[before.len() as int] == paths[place]);
        }
        if out.contains(path) {
            if before.contains(path) {
                let i = choose|i: int|
                    0 <= i < front.len() && i < keep.len() && #[trigger] keep[i] && front[i] == path;
                assert(keep[i] && paths[i] == path);
            } else {
                let n = choose|n: int| 0 <= n < out.len() && out[n] == path;
                if n < before.len() {
                    assert(before[n] == path);
                }
                assert(keep[last] && paths[last] == path);
            }
        }
    }
}

/// A path that is noted behind others comes out behind them, where its verdict says so.
pub proof fn law_kept_paths_stay_in_order(paths: Seq<Seq<char>>, keep: Seq<bool>, path: Seq<char>)
    requires
        paths.len() < keep.len(),
    ensures
        keep[paths.len() as int] ==> kept_paths(paths.push(path), keep) == kept_paths(
            paths,
            keep,
        ).push(path),
        !keep[paths.len() as int] ==> kept_paths(paths.push(path), keep) == kept_paths(paths, keep),
{
    assert(paths.push(path).drop_last() =~= paths);
}

/// Paths of other roots are kept together: a known root is a list of one, an unknown one of none.
/// Putting back keeps a refresh of the corpus that waits on either side.
pub proof fn law_corpus_refresh_survives(
    platform: Platform,
    noted: PendingView,
    taken: PendingView,
    root: Seq<char>,
)
    ensures
        noted.with_restored(platform, taken).corpus_refresh == (noted.corpus_refresh
            || taken.corpus_refresh),
        known_root(Some(root)).len() == 1,
        known_root(Some(root))[0] == root,
        known_root(None).len() == 0,
        !PendingView::nothing().corpus_refresh,
        PendingView::nothing().search.len() == 0,
        PendingView::nothing().callgraph.len() == 0,
        PendingView::nothing().tier2.len() == 0,
        PendingView::nothing().semantic.len() == 0,
{
}

/// Where nothing but the pending paths changed, putting the earlier ones back gives the earlier
/// context.
pub proof fn law_pending_paths_change_alone(before: AppContext, after: AppContext)
    ensures
        only_pending_changed(before, after) <==> (AppContext { pending: before.pending, ..after })
            == before,
        only_pending_changed(before, after) ==> after.platform == before.platform && after.config
            == before.config && after.search == before.search && after.callgraph
            == before.callgraph && after.semantic == before.semantic,
{
}

} // verus!
