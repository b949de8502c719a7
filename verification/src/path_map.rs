//! Maps keyed by paths, in whatever spelling.
//!
//! The model of a [`PathMap`] is the sequence of its pairs; the map that it stands for is keyed
//! by the components of the paths.

use vstd::prelude::*;

use crate::config::Platform;
use crate::path_text;
use crate::path_text::components;
use crate::paths::PartView;

verus! {

/// The value of the first pair whose path has the components `parts`.
pub open spec fn path_get<V>(
    platform: Platform,
    pairs: Seq<(Seq<char>, V)>,
    parts: Seq<PartView>,
) -> Option<V>
    decreases pairs.len(),
{
    if pairs.len() == 0 {
        None
    } else if components(platform, pairs[0].0) == parts {
        Some(pairs[0].1)
    } else {
        path_get(platform, pairs.drop_first(), parts)
    }
}

/// `pairs` with `path` bound to `value`: a path that is present keeps its place and its spelling,
/// a new one comes last.
pub open spec fn path_put<V>(
    platform: Platform,
    pairs: Seq<(Seq<char>, V)>,
    path: Seq<char>,
    value: V,
) -> Seq<(Seq<char>, V)>
    decreases pairs.len(),
{
    if pairs.len() == 0 {
        seq![(path, value)]
    } else if path_text::same_path(platform, pairs[0].0, path) {
        pairs.update(0, (pairs[0].0, value))
    } else {
        seq![pairs[0]] + path_put(platform, pairs.drop_first(), path, value)
    }
}

/// `pairs` without those of a path.
pub open spec fn path_remove<V>(
    platform: Platform,
    pairs: Seq<(Seq<char>, V)>,
    path: Seq<char>,
) -> Seq<(Seq<char>, V)>
    decreases pairs.len(),
{
    if pairs.len() == 0 {
        pairs
    } else {
        let kept = path_remove(platform, pairs.drop_last(), path);
        if path_text::same_path(platform, pairs.last().0, path) {
            kept
        } else {
            kept.push(pairs.last())
        }
    }
}

/// The map that a list of pairs stands for.
pub open spec fn by_path<V>(platform: Platform, pairs: Seq<(Seq<char>, V)>) -> Map<
    Seq<PartView>,
    V,
> {
    Map::new(
        |parts: Seq<PartView>| path_get(platform, pairs, parts) is Some,
        |parts: Seq<PartView>| path_get(platform, pairs, parts)->0,
    )
}

/// After a put, the path reads as the new value, in whatever spelling, and every other path reads
/// as before.
pub proof fn law_put_then_get<V>(
    platform: Platform,
    pairs: Seq<(Seq<char>, V)>,
    path: Seq<char>,
    value: V,
    query: Seq<PartView>,
)
    ensures
        path_get(platform, path_put(platform, pairs, path, value), query) == (if query
            == components(platform, path) {
            Some(value)
        } else {
            path_get(platform, pairs, query)
        }),
    decreases pairs.len(),
{
    let out = path_put(platform, pairs, path, value);
    if pairs.len() == 0 {
        assert(out.drop_first() =~= pairs);
    } else if path_text::same_path(platform, pairs[0].0, path) {
        assert(out.drop_first() =~= pairs.drop_first());
    } else {
        assert(out.drop_first() =~= path_put(platform, pairs.drop_first(), path, value));
        law_put_then_get(platform, pairs.drop_first(), path, value, query);
    }
}

proof fn lemma_get_push<V>(
    platform: Platform,
    pairs: Seq<(Seq<char>, V)>,
    pair: (Seq<char>, V),
    query: Seq<PartView>,
)
    ensures
        path_get(platform, pairs.push(pair), query) == (match path_get(platform, pairs, query) {
            Some(value) => Some(value),
            None => if components(platform, pair.0) == query {
                Some(pair.1)
            } else {
                None
            },
        }),
    decreases pairs.len(),
{
    let out = pairs.push(pair);
    if pairs.len() == 0 {
        assert(out.drop_first() =~= pairs);
    } else {
        assert(out.drop_first() =~= pairs.drop_first().push(pair));
        lemma_get_push(platform, pairs.drop_first(), pair, query);
    }
}

/// After a removal the path reads as nothing, in whatever spelling, and every other path reads as
/// before.
pub proof fn law_remove_then_get<V>(
    platform: Platform,
    pairs: Seq<(Seq<char>, V)>,
    path: Seq<char>,
    query: Seq<PartView>,
)
    ensures
        path_get(platform, path_remove(platform, pairs, path), query) == (if query == components(
            platform,
            path,
        ) {
            None
        } else {
            path_get(platform, pairs, query)
        }),
    decreases pairs.len(),
{
    if pairs.len() > 0 {
        let front = pairs.drop_last();
        law_remove_then_get(platform, front, path, query);
        lemma_get_push(platform, path_remove(platform, front, path), pairs.last(), query);
        lemma_get_push(platform, front, pairs.last(), query);
        assert(front.push(pairs.last()) =~= pairs);
    }
}

/// A put inserts into the map that the pairs stand for.
pub proof fn law_put_inserts<V>(
    platform: Platform,
    pairs: Seq<(Seq<char>, V)>,
    path: Seq<char>,
    value: V,
)
    ensures
        by_path(platform, path_put(platform, pairs, path, value)) == by_path(
            platform,
            pairs,
        ).insert(components(platform, path), value),
{
    let out = path_put(platform, pairs, path, value);
    let parts = components(platform, path);
    assert forall|query: Seq<PartView>| path_get(platform, out, query) == (if query == parts {
        Some(value)
    } else {
        path_get(platform, pairs, query)
    }) by {
        law_put_then_get(platform, pairs, path, value, query);
    }
    assert(by_path(platform, out) =~= by_path(platform, pairs).insert(parts, value));
}

/// A removal removes from the map that the pairs stand for.
pub proof fn law_remove_removes<V>(platform: Platform, pairs: Seq<(Seq<char>, V)>, path: Seq<char>)
    ensures
        by_path(platform, path_remove(platform, pairs, path)) == by_path(platform, pairs).remove(
            components(platform, path),
        ),
{
    let out = path_remove(platform, pairs, path);
    let parts = components(platform, path);
    assert forall|query: Seq<PartView>| path_get(platform, out, query) == (if query == parts {
        None
    } else {
        path_get(platform, pairs, query)
    }) by {
        law_remove_then_get(platform, pairs, path, query);
    }
    assert(by_path(platform, out) =~= by_path(platform, pairs).remove(parts));
}

/// A map from paths to `T`.
#[derive(Debug)]
pub struct PathMap<T> {
    pub entries: Vec<(String, T)>,
}

impl<T: DeepView> DeepView for PathMap<T> {
    type V = Seq<(Seq<char>, T::V)>;

    open spec fn deep_view(&self) -> Seq<(Seq<char>, T::V)> {
        self.entries.deep_view()
    }
}

impl<T: DeepView> PathMap<T> {
    pub fn new() -> (map: Self)
        ensures
            map.deep_view() == Seq::<(Seq<char>, T::V)>::empty(),
    {
        let map = PathMap { entries: Vec::new() };
        assert(map.deep_view() =~= Seq::<(Seq<char>, T::V)>::empty());
        map
    }

    /// The value of a path, if there is one.
    pub fn get(&self, platform: Platform, path: &str) -> (found: Option<&T>)
        ensures
            match found {
                Some(value) => path_get(platform, self.deep_view(), components(platform, path@))
                    == Some(value.deep_view()),
                None => path_get(platform, self.deep_view(), components(platform, path@)) is None,
            },
    {
        let ghost pairs = self.deep_view();
        let ghost parts = components(platform, path@);
        let mut i: usize = 0;
        assert(pairs.skip(0) =~= pairs);
        while i < self.entries.len()
            invariant
                i <= self.entries.len(),
                pairs == self.deep_view(),
                parts == components(platform, path@),
                path_get(platform, pairs, parts) == path_get(
                    platform,
                    pairs.skip(i as int),
                    parts,
                ),
            decreases self.entries.len() - i,
        {
            let entry = &self.entries[i];
            assert(pairs.skip(i as int)[0] == (entry.0@, entry.1.deep_view()));
            if path_text::is_same_path(platform, entry.0.as_str(), path) {
                return Some(&entry.1);
            }
            assert(pairs.skip(i as int).drop_first() =~= pairs.skip(i + 1));
            i = i + 1;
        }
        None
    }

    /// Binds a path to a value.
    pub fn put(&mut self, platform: Platform, path: String, value: T)
        ensures
            final(self).deep_view() == path_put(
                platform,
                old(self).deep_view(),
                path@,
                value.deep_view(),
            ),
    {
        let ghost pairs = self.deep_view();
        let ghost bound = (path@, value.deep_view());
        let mut i: usize = 0;
        assert(pairs.take(0) + path_put(platform, pairs.skip(0), bound.0, bound.1) =~= path_put(
            platform,
            pairs,
            bound.0,
            bound.1,
        )) by {
            assert(pairs.skip(0) =~= pairs);
        }
        while i < self.entries.len()
            invariant
                i <= self.entries.len(),
                pairs == self.deep_view(),
                pairs == old(self).deep_view(),
                bound == (path@, value.deep_view()),
                path_put(platform, pairs, bound.0, bound.1) == pairs.take(i as int) + path_put(
                    platform,
                    pairs.skip(i as int),
                    bound.0,
                    bound.1,
                ),
            decreases self.entries.len() - i,
        {
            let ghost rest = pairs.skip(i as int);
            assert(rest[0] == self.entries@[i as int].deep_view());
            if path_text::is_same_path(platform, self.entries[i].0.as_str(), path.as_str()) {
                let known = self.entries[i].0.clone();
                self.entries[i] = (known, value);
                assert(self.deep_view() =~= pairs.take(i as int) + rest.update(
                    0,
                    (rest[0].0, bound.1),
                ));
                return ;
            }
            proof {
                assert(rest.drop_first() =~= pairs.skip(i + 1));
                assert(pairs.take(i as int) + (seq![rest[0]] + path_put(
                    platform,
                    rest.drop_first(),
                    bound.0,
                    bound.1,
                )) =~= pairs.take(i + 1) + path_put(
                    platform,
                    pairs.skip(i + 1),
                    bound.0,
                    bound.1,
                ));
            }
            i = i + 1;
        }
        self.entries.push((path, value));
        proof {
            assert(pairs.skip(i as int).len() == 0);
            assert(self.deep_view() =~= pairs.take(i as int) + seq![bound]);
        }
    }

    /// Removes a path.
    pub fn remove(&mut self, platform: Platform, path: &str)
        ensures
            final(self).deep_view() == path_remove(platform, old(self).deep_view(), path@),
    {
        let ghost pairs = self.deep_view();
        let mut entries: Vec<(String, T)> = Vec::new();
        std::mem::swap(&mut entries, &mut self.entries);
        assert(self.deep_view() =~= path_remove(platform, pairs.take(0), path@));
        for entry in iter: entries
            invariant
                iter.seq() == entries@,
                entries.deep_view() == pairs,
                self.deep_view() == path_remove(platform, pairs.take(iter.index()), path@),
        {
            let ghost place = iter.index();
            proof {
                assert(pairs[place] == entry.deep_view());
                assert(pairs.take(place + 1).drop_last() =~= pairs.take(place));
                assert(pairs.take(place + 1).last() == pairs[place]);
            }
            if !path_text::is_same_path(platform, entry.0.as_str(), path) {
                let ghost before = self.deep_view();
                let ghost pair = entry.deep_view();
                self.entries.push(entry);
                assert(self.deep_view() =~= before.push(pair));
            }
        }
        assert(pairs.take(pairs.len() as int) =~= pairs);
    }
}

} // verus!
