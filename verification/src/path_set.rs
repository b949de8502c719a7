//! Sets of paths, held in path order.

use vstd::prelude::*;

use crate::config::Platform;
use crate::path_order;
use crate::path_order::sort_paths;
use crate::path_text;
use crate::path_text::same_path;
use crate::text;

verus! {

/// Whether a path is among others, in whatever spelling.
pub open spec fn has_path(platform: Platform, paths: Seq<Seq<char>>, path: Seq<char>) -> bool {
    exists|i: int| 0 <= i < paths.len() && same_path(platform, #[trigger] paths[i], path)
}

/// The paths with one more among them: a new one puts the list in order.
pub open spec fn with_path(
    platform: Platform,
    paths: Seq<Seq<char>>,
    path: Seq<char>,
) -> Seq<Seq<char>> {
    if has_path(platform, paths, path) {
        paths
    } else {
        path_order::path_sorted(platform, paths.push(path))
    }
}

/// The paths without one of them.
pub open spec fn without_path(
    platform: Platform,
    paths: Seq<Seq<char>>,
    path: Seq<char>,
) -> Seq<Seq<char>>
    decreases paths.len(),
{
    if paths.len() == 0 {
        paths
    } else {
        let kept = without_path(platform, paths.drop_last(), path);
        if same_path(platform, paths.last(), path) {
            kept
        } else {
            kept.push(paths.last())
        }
    }
}

/// The paths with every one of `more` among them.
pub open spec fn with_paths(
    platform: Platform,
    paths: Seq<Seq<char>>,
    more: Seq<Seq<char>>,
) -> Seq<Seq<char>>
    decreases more.len(),
{
    if more.len() == 0 {
        paths
    } else {
        with_path(platform, with_paths(platform, paths, more.drop_last()), more.last())
    }
}

/// The paths without any of `gone`.
pub open spec fn without_paths(
    platform: Platform,
    paths: Seq<Seq<char>>,
    gone: Seq<Seq<char>>,
) -> Seq<Seq<char>>
    decreases gone.len(),
{
    if gone.len() == 0 {
        paths
    } else {
        without_path(platform, without_paths(platform, paths, gone.drop_last()), gone.last())
    }
}

/// No two of the paths are the same.
pub open spec fn paths_differ(platform: Platform, paths: Seq<Seq<char>>) -> bool {
    forall|i: int, j: int|
        0 <= i < j < paths.len() ==> !same_path(platform, #[trigger] paths[i], #[trigger] paths[j])
}

/// The invariant of a set: its paths stand in order, and each once.
pub open spec fn is_path_set(platform: Platform, paths: Seq<Seq<char>>) -> bool {
    path_order::in_path_order(platform, paths) && paths_differ(platform, paths)
}

/// Whether a path is on a list, in whatever spelling.
pub fn holds_path(platform: Platform, paths: &Vec<String>, path: &str) -> (yes: bool)
    ensures
        yes == has_path(platform, paths.deep_view(), path@),
{
    let ghost all = paths.deep_view();
    let mut i: usize = 0;
    while i < paths.len()
        invariant
            i <= paths@.len(),
            all == paths.deep_view(),
            forall|k: int| 0 <= k < i ==> !same_path(platform, #[trigger] all[k], path@),
        decreases paths.len() - i,
    {
        assert(all[i as int] == paths@[i as int]@);
        if path_text::is_same_path(platform, paths[i].as_str(), path) {
            return true;
        }
        i = i + 1;
    }
    false
}

/// Adds a path to a list, once.
pub fn add_path(platform: Platform, paths: &mut Vec<String>, path: String)
    ensures
        final(paths).deep_view() == with_path(platform, old(paths).deep_view(), path@),
{
    if !holds_path(platform, paths, path.as_str()) {
        let ghost before = paths.deep_view();
        paths.push(path);
        assert(paths.deep_view() =~= before.push(path@));
        sort_paths(platform, paths);
    }
}

/// Takes a path off a list.
pub fn remove_path(platform: Platform, paths: &mut Vec<String>, path: &str)
    ensures
        final(paths).deep_view() == without_path(platform, old(paths).deep_view(), path@),
{
    let ghost start = paths.deep_view();
    let mut all: Vec<String> = Vec::new();
    std::mem::swap(&mut all, paths);
    assert(paths.deep_view() =~= without_path(platform, start.take(0), path@));
    for item in iter: all
        invariant
            iter.seq() == all@,
            all.deep_view() == start,
            paths.deep_view() == without_path(platform, start.take(iter.index()), path@),
    {
        let ghost place = iter.index();
        proof {
            assert(start[place] == item@);
            assert(start.take(place + 1).drop_last() =~= start.take(place));
            assert(start.take(place + 1).last() == item@);
        }
        if !path_text::is_same_path(platform, item.as_str(), path) {
            let ghost before = paths.deep_view();
            let ghost kept = item@;
            paths.push(item);
            assert(paths.deep_view() =~= before.push(kept));
        }
    }
    assert(start.take(start.len() as int) =~= start);
}

proof fn lemma_same_as_same(platform: Platform, paths: Seq<Seq<char>>, a: Seq<char>, b: Seq<char>)
    requires
        same_path(platform, a, b),
    ensures
        has_path(platform, paths, a) == has_path(platform, paths, b),
{
    if has_path(platform, paths, a) {
        let k = choose|k: int| 0 <= k < paths.len() && same_path(platform, #[trigger] paths[k], a);
        assert(same_path(platform, paths[k], b));
    }
    if has_path(platform, paths, b) {
        let k = choose|k: int| 0 <= k < paths.len() && same_path(platform, #[trigger] paths[k], b);
        assert(same_path(platform, paths[k], a));
    }
}

/// What is left of a list was on it, and is none of the path that left.
proof fn lemma_kept(platform: Platform, paths: Seq<Seq<char>>, path: Seq<char>)
    ensures
        forall|k: int|
            0 <= k < without_path(platform, paths, path).len() ==> paths.contains(
                #[trigger] without_path(platform, paths, path)[k],
            ) && !same_path(platform, without_path(platform, paths, path)[k], path),
        forall|k: int|
            0 <= k < paths.len() && !same_path(platform, #[trigger] paths[k], path) ==> without_path(
                platform,
                paths,
                path,
            ).contains(paths[k]),
    decreases paths.len(),
{
    if paths.len() > 0 {
        let front = paths.drop_last();
        let last = paths.last();
        lemma_kept(platform, front, path);
        let kept = without_path(platform, front, path);
        let out = without_path(platform, paths, path);
        assert forall|k: int| 0 <= k < out.len() implies paths.contains(#[trigger] out[k])
            && !same_path(platform, out[k], path) by {
            if k < kept.len() {
                assert(out[k] == kept[k]);
                let m = choose|m: int| 0 <= m < front.len() && front[m] == kept[k];
                assert(paths[m] == out[k]);
            } else {
                assert(paths[paths.len() - 1] == out[k]);
            }
        }
        assert forall|k: int| 0 <= k < paths.len() && !same_path(
            platform,
            #[trigger] paths[k],
            path,
        ) implies out.contains(paths[k]) by {
            if k < front.len() {
                assert(front[k] == paths[k]);
                let m = choose|m: int| 0 <= m < kept.len() && kept[m] == front[k];
                assert(out[m] == paths[k]);
            } else {
                assert(out[out.len() - 1] == paths[k]);
            }
        }
    }
}

/// A path leaves the list and no other one does; the order stays.
pub proof fn lemma_without_path(platform: Platform, paths: Seq<Seq<char>>, path: Seq<char>)
    requires
        is_path_set(platform, paths),
    ensures
        is_path_set(platform, without_path(platform, paths, path)),
        forall|other: Seq<char>|
            #[trigger] has_path(platform, without_path(platform, paths, path), other)
                <==> has_path(platform, paths, other) && !same_path(platform, other, path),
    decreases paths.len(),
{
    let out = without_path(platform, paths, path);
    lemma_kept(platform, paths, path);
    assert forall|other: Seq<char>|
        #[trigger] has_path(platform, out, other) <==> has_path(platform, paths, other) && !same_path(
            platform,
            other,
            path,
        ) by {
        if has_path(platform, out, other) {
            let k = choose|k: int| 0 <= k < out.len() && same_path(platform, #[trigger] out[k], other);
            let m = choose|m: int| 0 <= m < paths.len() && paths[m] == out[k];
            assert(same_path(platform, paths[m], other));
        }
        if has_path(platform, paths, other) && !same_path(platform, other, path) {
            let k = choose|k: int| 0 <= k < paths.len() && same_path(platform, #[trigger] paths[k], other);
            let m = choose|m: int| 0 <= m < out.len() && out[m] == paths[k];
            assert(same_path(platform, out[m], other));
        }
    }
    if paths.len() > 0 {
        let front = paths.drop_last();
        let last = paths.last();
        assert(forall|k: int| 0 <= k < front.len() ==> front[k] == paths[k]);
        lemma_without_path(platform, front, path);
        lemma_kept(platform, front, path);
        let kept = without_path(platform, front, path);
        if !same_path(platform, last, path) {
            assert forall|i: int, j: int| 0 <= i < j < out.len() implies !path_order::path_less(
                platform,
                #[trigger] out[j],
                #[trigger] out[i],
            ) && !same_path(platform, out[i], out[j]) by {
                assert(out[i] == kept[i]);
                if j < kept.len() {
                    assert(out[j] == kept[j]);
                } else {
                    let m = choose|m: int| 0 <= m < front.len() && front[m] == kept[i];
                    assert(paths[m] == out[i] && paths[paths.len() - 1] == out[j]);
                }
            }
        }
    }
}

/// A new path joins the list in its place; no other one joins or leaves.
pub proof fn lemma_with_path(platform: Platform, paths: Seq<Seq<char>>, path: Seq<char>)
    requires
        is_path_set(platform, paths),
    ensures
        is_path_set(platform, with_path(platform, paths, path)),
        forall|other: Seq<char>|
            #[trigger] has_path(platform, with_path(platform, paths, path), other)
                <==> has_path(platform, paths, other) || same_path(platform, other, path),
{
    broadcast use vstd::seq_lib::group_to_multiset_ensures;

    let out = with_path(platform, paths, path);
    if has_path(platform, paths, path) {
        assert forall|other: Seq<char>|
            #[trigger] has_path(platform, out, other) <==> has_path(platform, paths, other) || same_path(
                platform,
                other,
                path,
            ) by {
            if same_path(platform, other, path) {
                lemma_same_as_same(platform, paths, other, path);
            }
        }
    } else {
        let longer = paths.push(path);
        path_order::law_sorting_orders_paths(platform, longer);
        assert forall|text: Seq<char>| #[trigger] out.contains(text) <==> longer.contains(
            text,
        ) by {
            assert(out.contains(text) <==> out.to_multiset().count(text) > 0);
            assert(longer.contains(text) <==> longer.to_multiset().count(text) > 0);
        }
        assert forall|other: Seq<char>|
            #[trigger] has_path(platform, out, other) <==> has_path(platform, paths, other) || same_path(
                platform,
                other,
                path,
            ) by {
            if has_path(platform, out, other) {
                let k = choose|k: int| 0 <= k < out.len() && same_path(platform, #[trigger] out[k], other);
                assert(out.contains(out[k]));
                let m = choose|m: int| 0 <= m < longer.len() && longer[m] == out[k];
                if m < paths.len() {
                    assert(same_path(platform, paths[m], other));
                }
            }
            if has_path(platform, paths, other) {
                let k = choose|k: int|
                    0 <= k < paths.len() && same_path(platform, #[trigger] paths[k], other);
                assert(longer[k] == paths[k]);
                assert(out.contains(longer[k]));
                let m = choose|m: int| 0 <= m < out.len() && out[m] == longer[k];
                assert(same_path(platform, out[m], other));
            }
            if same_path(platform, other, path) {
                assert(longer[paths.len() as int] == path);
                assert(out.contains(path));
                let m = choose|m: int| 0 <= m < out.len() && out[m] == path;
                assert(same_path(platform, out[m], other));
            }
        }
        lemma_sorted_paths_differ(platform, paths, path);
    }
}

/// Sorting paths of which no two are the same leaves no two the same.
proof fn lemma_sorted_paths_differ(platform: Platform, paths: Seq<Seq<char>>, path: Seq<char>)
    requires
        paths_differ(platform, paths),
        !has_path(platform, paths, path),
    ensures
        paths_differ(platform, path_order::path_sorted(platform, paths.push(path))),
{
    broadcast use vstd::seq_lib::group_to_multiset_ensures;

    let longer = paths.push(path);
    let out = path_order::path_sorted(platform, longer);
    path_order::law_sorting_orders_paths(platform, longer);
    assert(longer.no_duplicates()) by {
        assert forall|i: int, j: int| 0 <= i < j < longer.len() implies longer[i] != longer[j] by {
            if j < paths.len() {
                assert(!same_path(platform, paths[i], paths[j]));
            } else {
                assert(!same_path(platform, paths[i], path));
            }
        }
    }
    longer.lemma_multiset_has_no_duplicates();
    out.lemma_multiset_has_no_duplicates_conv();
    assert forall|i: int, j: int| 0 <= i < j < out.len() implies !same_path(
        platform,
        #[trigger] out[i],
        #[trigger] out[j],
    ) by {
        assert(out.to_multiset().count(out[i]) > 0 && out.to_multiset().count(out[j]) > 0) by {
            assert(out.contains(out[i]) && out.contains(out[j]));
        }
        assert(longer.contains(out[i]) && longer.contains(out[j]));
        let m = choose|m: int| 0 <= m < longer.len() && longer[m] == out[i];
        let n = choose|n: int| 0 <= n < longer.len() && longer[n] == out[j];
        assert(m != n);
        if same_path(platform, longer[m], longer[n]) {
            if m < paths.len() && n < paths.len() {
                if m < n {
                    assert(!same_path(platform, paths[m], paths[n]));
                } else {
                    assert(!same_path(platform, paths[n], paths[m]));
                }
            } else if m < paths.len() {
                assert(same_path(platform, paths[m], path));
            } else {
                assert(same_path(platform, paths[n], path));
            }
        }
    }
}

/// Adding paths keeps a set a set, and its members are those it had and those that were added.
pub proof fn law_added_paths_are_members(
    platform: Platform,
    paths: Seq<Seq<char>>,
    more: Seq<Seq<char>>,
)
    requires
        is_path_set(platform, paths),
    ensures
        is_path_set(platform, with_paths(platform, paths, more)),
        forall|path: Seq<char>| #[trigger]
            has_path(platform, with_paths(platform, paths, more), path) <==> has_path(
                platform,
                paths,
                path,
            ) || has_path(
                platform,
                more,
                path,
            ),
    decreases more.len(),
{
    if more.len() > 0 {
        let front = more.drop_last();
        let last = more.last();
        law_added_paths_are_members(platform, paths, front);
        lemma_with_path(platform, with_paths(platform, paths, front), last);
        assert forall|path: Seq<char>| #[trigger]
            has_path(platform, with_paths(platform, paths, more), path) <==> has_path(
                platform,
                paths,
                path,
            ) || has_path(
                platform,
                more,
                path,
            ) by {
            assert(has_path(platform, with_paths(platform, paths, more), path) <==> has_path(
                platform,
                with_paths(platform, paths, front),
                path,
            ) || same_path(platform, path, last));
            lemma_last_or_before(platform, more, path);
        }
    }
}

proof fn lemma_last_or_before(platform: Platform, paths: Seq<Seq<char>>, path: Seq<char>)
    requires
        paths.len() > 0,
    ensures
        has_path(platform, paths, path) <==> has_path(platform, paths.drop_last(), path) || same_path(
            platform,
            path,
            paths.last(),
        ),
{
    let front = paths.drop_last();
    if has_path(platform, paths, path) {
        let k = choose|k: int| 0 <= k < paths.len() && same_path(platform, #[trigger] paths[k], path);
        if k < front.len() {
            assert(same_path(platform, front[k], path));
        }
    }
    if has_path(platform, front, path) {
        let k = choose|k: int| 0 <= k < front.len() && same_path(platform, #[trigger] front[k], path);
        assert(same_path(platform, paths[k], path));
    }
    if same_path(platform, path, paths.last()) {
        assert(same_path(platform, paths[paths.len() - 1], path));
    }
}

/// Removing paths leaves a set without them, and with every other path that was in it.
pub proof fn law_removed_paths_are_no_members(
    platform: Platform,
    paths: Seq<Seq<char>>,
    gone: Seq<Seq<char>>,
)
    requires
        is_path_set(platform, paths),
    ensures
        is_path_set(platform, without_paths(platform, paths, gone)),
        forall|path: Seq<char>| #[trigger]
            has_path(platform, without_paths(platform, paths, gone), path) <==> has_path(
                platform,
                paths,
                path,
            ) && !has_path(
                platform,
                gone,
                path,
            ),
    decreases gone.len(),
{
    if gone.len() > 0 {
        let front = gone.drop_last();
        let last = gone.last();
        law_removed_paths_are_no_members(platform, paths, front);
        lemma_without_path(platform, without_paths(platform, paths, front), last);
        assert forall|path: Seq<char>| #[trigger]
            has_path(platform, without_paths(platform, paths, gone), path) <==> has_path(
                platform,
                paths,
                path,
            ) && !has_path(
                platform,
                gone,
                path,
            ) by {
            assert(has_path(platform, without_paths(platform, paths, gone), path) <==> has_path(
                platform,
                without_paths(platform, paths, front),
                path,
            ) && !same_path(platform, path, last));
            lemma_last_or_before(platform, gone, path);
        }
    }
}

/// A set of paths.
#[derive(Debug)]
pub struct PathSet {
    pub paths: Vec<String>,
}

impl DeepView for PathSet {
    type V = Seq<Seq<char>>;

    open spec fn deep_view(&self) -> Seq<Seq<char>> {
        self.paths.deep_view()
    }
}

impl PathSet {
    /// The invariant: the paths stand in order, and each once.
    pub open spec fn well_formed(&self, platform: Platform) -> bool {
        is_path_set(platform, self.deep_view())
    }

    pub fn new() -> (set: Self)
        ensures
            set.deep_view() == Seq::<Seq<char>>::empty(),
            forall|platform: Platform| #[trigger] set.well_formed(platform),
    {
        let set = PathSet { paths: Vec::new() };
        assert(set.deep_view() =~= Seq::<Seq<char>>::empty());
        set
    }

    pub fn is_empty(&self) -> (yes: bool)
        ensures
            yes == (self.deep_view().len() == 0),
    {
        self.paths.len() == 0
    }

    pub fn contains(&self, platform: Platform, path: &str) -> (yes: bool)
        ensures
            yes == has_path(platform, self.deep_view(), path@),
    {
        holds_path(platform, &self.paths, path)
    }

    /// Adds a path and answers whether it was new.
    pub fn insert(&mut self, platform: Platform, path: String) -> (added: bool)
        ensures
            final(self).deep_view() == with_path(platform, old(self).deep_view(), path@),
            added == !has_path(platform, old(self).deep_view(), path@),
            old(self).well_formed(platform) ==> final(self).well_formed(platform),
    {
        proof {
            if self.well_formed(platform) {
                lemma_with_path(platform, self.deep_view(), path@);
            }
        }
        let added = !self.contains(platform, path.as_str());
        add_path(platform, &mut self.paths, path);
        added
    }

    /// Removes a path.
    pub fn remove(&mut self, platform: Platform, path: &str)
        ensures
            final(self).deep_view() == without_path(platform, old(self).deep_view(), path@),
            old(self).well_formed(platform) ==> final(self).well_formed(platform),
    {
        proof {
            if self.well_formed(platform) {
                lemma_without_path(platform, self.deep_view(), path@);
            }
        }
        remove_path(platform, &mut self.paths, path);
    }

    /// Adds every path of a list.
    pub fn extend(&mut self, platform: Platform, more: Vec<String>)
        ensures
            final(self).deep_view() == with_paths(platform, old(self).deep_view(), more.deep_view()),
            old(self).well_formed(platform) ==> final(self).well_formed(platform),
    {
        let ghost start = self.deep_view();
        let ghost added = more.deep_view();
        proof {
            if self.well_formed(platform) {
                law_added_paths_are_members(platform, start, added);
            }
        }
        assert(added.take(0) =~= Seq::<Seq<char>>::empty());
        for path in iter: more
            invariant
                iter.seq() == more@,
                added == more.deep_view(),
                self.deep_view() == with_paths(platform, start, added.take(iter.index())),
        {
            let ghost place = iter.index();
            proof {
                assert(added[place] == path@);
                assert(added.take(place + 1).drop_last() =~= added.take(place));
                assert(added.take(place + 1).last() == path@);
            }
            let _ = self.insert(platform, path);
        }
        assert(added.take(added.len() as int) =~= added);
    }

    /// Removes every path of a list.
    pub fn remove_all(&mut self, platform: Platform, gone: &Vec<String>)
        ensures
            final(self).deep_view() == without_paths(platform, old(self).deep_view(), gone.deep_view()),
            old(self).well_formed(platform) ==> final(self).well_formed(platform),
    {
        let ghost start = self.deep_view();
        let ghost removed = gone.deep_view();
        proof {
            if self.well_formed(platform) {
                law_removed_paths_are_no_members(platform, start, removed);
            }
        }
        let mut i: usize = 0;
        assert(removed.take(0) =~= Seq::<Seq<char>>::empty());
        while i < gone.len()
            invariant
                i <= gone.len(),
                removed == gone.deep_view(),
                self.deep_view() == without_paths(platform, start, removed.take(i as int)),
            decreases gone.len() - i,
        {
            proof {
                assert(removed[i as int] == gone@[i as int]@);
                assert(removed.take(i + 1).drop_last() =~= removed.take(i as int));
                assert(removed.take(i + 1).last() == removed[i as int]);
            }
            self.remove(platform, gone[i].as_str());
            i = i + 1;
        }
        assert(removed.take(removed.len() as int) =~= removed);
    }

    /// Takes all paths, in order, and leaves the set empty.
    pub fn take_all(&mut self) -> (paths: Vec<String>)
        ensures
            paths == old(self).paths,
            final(self).deep_view() == Seq::<Seq<char>>::empty(),
            forall|platform: Platform| #[trigger] final(self).well_formed(platform),
    {
        let mut paths: Vec<String> = Vec::new();
        assert(paths.deep_view() =~= Seq::<Seq<char>>::empty());
        std::mem::swap(&mut paths, &mut self.paths);
        paths
    }

    /// The paths, in order.
    pub fn to_list(&self) -> (paths: Vec<String>)
        ensures
            paths.deep_view() == self.deep_view(),
    {
        text::copy_texts(&self.paths)
    }
}

/// A path that is in a set already keeps its spelling there; a new one comes in as it is spelled,
/// and every path that was there stays, as it is spelled.
pub proof fn law_added_path_keeps_spellings(
    platform: Platform,
    paths: Seq<Seq<char>>,
    path: Seq<char>,
)
    ensures
        has_path(platform, paths, path) ==> with_path(platform, paths, path) == paths,
        !has_path(platform, paths, path) ==> with_path(platform, paths, path).to_multiset()
            == paths.to_multiset().insert(path),
{
    broadcast use vstd::seq_lib::group_to_multiset_ensures;

    path_order::law_sorting_orders_paths(platform, paths.push(path));
}

} // verus!
