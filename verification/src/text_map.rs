//! Maps and sets keyed by text.
//!
//! A [`TextMap`] is an association list that `put` keeps in key order; its model is the
//! sequence of its pairs. A [`TextSet`] holds each text once; its model is a `Set`.

use vstd::prelude::*;

use crate::text;

verus! {

/// The value of the first pair whose key is `key`.
pub open spec fn map_get<V>(pairs: Seq<(Seq<char>, V)>, key: Seq<char>) -> Option<V>
    decreases pairs.len(),
{
    if pairs.len() == 0 {
        None
    } else if pairs[0].0 == key {
        Some(pairs[0].1)
    } else {
        map_get(pairs.drop_first(), key)
    }
}

/// `pairs` with `key` bound to `value`: a present key keeps its place, a new one is placed
/// before the first key that comes after it.
pub open spec fn map_put<V>(pairs: Seq<(Seq<char>, V)>, key: Seq<char>, value: V) -> Seq<
    (Seq<char>, V),
>
    decreases pairs.len(),
{
    if pairs.len() == 0 {
        seq![(key, value)]
    } else if pairs[0].0 == key {
        pairs.update(0, (key, value))
    } else if text::text_less(key, pairs[0].0) {
        seq![(key, value)] + pairs
    } else {
        seq![pairs[0]] + map_put(pairs.drop_first(), key, value)
    }
}

/// `pairs` with every pair of `more` put in, in order.
pub open spec fn map_put_all<V>(pairs: Seq<(Seq<char>, V)>, more: Seq<(Seq<char>, V)>) -> Seq<
    (Seq<char>, V),
>
    decreases more.len(),
{
    if more.len() == 0 {
        pairs
    } else {
        let last = more.last();
        map_put(map_put_all(pairs, more.drop_last()), last.0, last.1)
    }
}

/// `pairs` without those whose key is `key`.
pub open spec fn map_remove<V>(pairs: Seq<(Seq<char>, V)>, key: Seq<char>) -> Seq<(Seq<char>, V)>
    decreases pairs.len(),
{
    if pairs.len() == 0 {
        pairs
    } else {
        let kept = map_remove(pairs.drop_last(), key);
        if pairs.last().0 == key {
            kept
        } else {
            kept.push(pairs.last())
        }
    }
}

/// Keys stand in strictly increasing order, so none occurs twice.
pub open spec fn keys_in_order<V>(pairs: Seq<(Seq<char>, V)>) -> bool {
    forall|i: int, j: int|
        0 <= i < j < pairs.len() ==> text::text_less(#[trigger] pairs[i].0, #[trigger] pairs[j].0)
}

/// After a put, the key reads as the new value and every other key reads as before.
pub proof fn law_put_then_get<V>(
    pairs: Seq<(Seq<char>, V)>,
    key: Seq<char>,
    value: V,
    query: Seq<char>,
)
    ensures
        map_get(map_put(pairs, key, value), query) == (if query == key {
            Some(value)
        } else {
            map_get(pairs, query)
        }),
    decreases pairs.len(),
{
    let out = map_put(pairs, key, value);
    if pairs.len() == 0 {
        assert(out.drop_first() =~= pairs);
    } else if pairs[0].0 == key {
        assert(out.drop_first() =~= pairs.drop_first());
    } else if text::text_less(key, pairs[0].0) {
        assert(out.drop_first() =~= pairs);
    } else {
        assert(out.drop_first() =~= map_put(pairs.drop_first(), key, value));
        law_put_then_get(pairs.drop_first(), key, value, query);
    }
}

/// Only the last pair decides what a key reads as, where no earlier one binds it.
pub proof fn lemma_get_push<V>(
    pairs: Seq<(Seq<char>, V)>,
    pair: (Seq<char>, V),
    query: Seq<char>,
)
    ensures
        map_get(pairs.push(pair), query) == (match map_get(pairs, query) {
            Some(value) => Some(value),
            None => if pair.0 == query {
                Some(pair.1)
            } else {
                None
            },
        }),
    decreases pairs.len(),
{
    let out = pairs.push(pair);
    if pairs.len() == 0 {
        assert(out.drop_first() =~= pairs);
    } else {
        assert(out.drop_first() =~= pairs.drop_first().push(pair));
        lemma_get_push(pairs.drop_first(), pair, query);
    }
}

/// After a removal the key reads as nothing and every other key reads as before.
pub proof fn law_remove_then_get<V>(pairs: Seq<(Seq<char>, V)>, key: Seq<char>, query: Seq<char>)
    ensures
        map_get(map_remove(pairs, key), query) == (if query == key {
            None
        } else {
            map_get(pairs, query)
        }),
    decreases pairs.len(),
{
    if pairs.len() > 0 {
        law_remove_then_get(pairs.drop_last(), key, query);
        lemma_get_push(map_remove(pairs.drop_last(), key), pairs.last(), query);
        lemma_get_push(pairs.drop_last(), pairs.last(), query);
        assert(pairs.drop_last().push(pairs.last()) =~= pairs);
    }
}

/// A put keeps the keys in order and binds nothing but its own key anew.
pub proof fn law_put_keeps_order<V>(pairs: Seq<(Seq<char>, V)>, key: Seq<char>, value: V)
    requires
        keys_in_order(pairs),
    ensures
        keys_in_order(map_put(pairs, key, value)),
        forall|k: int|
            0 <= k < map_put(pairs, key, value).len() ==> {
                ||| (#[trigger] map_put(pairs, key, value)[k]).0 == key
                ||| pairs.contains(map_put(pairs, key, value)[k])
            },
    decreases pairs.len(),
{
    let out = map_put(pairs, key, value);
    if pairs.len() == 0 {
    } else if pairs[0].0 == key {
        assert forall|k: int| 0 <= k < out.len() implies (out[k].0 == key || pairs.contains(
            out[k],
        )) by {
            if k > 0 {
                assert(pairs[k] == out[k]);
            }
        }
        assert forall|i: int, j: int| 0 <= i < j < out.len() implies text::text_less(
            #[trigger] out[i].0,
            #[trigger] out[j].0,
        ) by {
            assert(out[i].0 == pairs[i].0 && out[j].0 == pairs[j].0);
        }
    } else if text::text_less(key, pairs[0].0) {
        assert forall|k: int| 0 <= k < out.len() implies (out[k].0 == key || pairs.contains(
            out[k],
        )) by {
            if k > 0 {
                assert(pairs[k - 1] == out[k]);
            }
        }
        assert forall|i: int, j: int| 0 <= i < j < out.len() implies text::text_less(
            #[trigger] out[i].0,
            #[trigger] out[j].0,
        ) by {
            assert(out[j] == pairs[j - 1]);
            if i == 0 {
                if j > 1 {
                    text::lemma_text_less_transitive(key, pairs[0].0, pairs[j - 1].0);
                }
            } else {
                assert(out[i] == pairs[i - 1]);
            }
        }
    } else {
        let rest = pairs.drop_first();
        assert(keys_in_order(rest)) by {
            assert forall|i: int, j: int| 0 <= i < j < rest.len() implies text::text_less(
                #[trigger] rest[i].0,
                #[trigger] rest[j].0,
            ) by {
                assert(rest[i] == pairs[i + 1] && rest[j] == pairs[j + 1]);
            }
        }
        law_put_keeps_order(rest, key, value);
        text::lemma_text_less_total(pairs[0].0, key);
        let tail = map_put(rest, key, value);
        assert forall|k: int| 0 <= k < tail.len() implies text::text_less(pairs[0].0, #[trigger] tail[k].0) by {
            if tail[k].0 != key {
                let m = choose|m: int| 0 <= m < rest.len() && rest[m] == tail[k];
                assert(pairs[m + 1] == rest[m]);
            }
        }
        assert forall|k: int| 0 <= k < out.len() implies (out[k].0 == key || pairs.contains(
            out[k],
        )) by {
            if k == 0 {
                assert(pairs[0] == out[0]);
            } else {
                assert(out[k] == tail[k - 1]);
                if tail[k - 1].0 != key {
                    let m = choose|m: int| 0 <= m < rest.len() && rest[m] == tail[k - 1];
                    assert(pairs[m + 1] == rest[m]);
                }
            }
        }
        assert forall|i: int, j: int| 0 <= i < j < out.len() implies text::text_less(
            #[trigger] out[i].0,
            #[trigger] out[j].0,
        ) by {
            assert(out[j] == tail[j - 1]);
            if i > 0 {
                assert(out[i] == tail[i - 1]);
            }
        }
    }
}

/// Putting in several pairs keeps the keys in order.
pub proof fn law_put_all_keeps_order<V>(pairs: Seq<(Seq<char>, V)>, more: Seq<(Seq<char>, V)>)
    requires
        keys_in_order(pairs),
    ensures
        keys_in_order(map_put_all(pairs, more)),
    decreases more.len(),
{
    if more.len() > 0 {
        law_put_all_keeps_order(pairs, more.drop_last());
        law_put_keeps_order(map_put_all(pairs, more.drop_last()), more.last().0, more.last().1);
    }
}

/// A removal keeps the keys in order and leaves only pairs that were there.
pub proof fn law_remove_keeps_order<V>(pairs: Seq<(Seq<char>, V)>, key: Seq<char>)
    requires
        keys_in_order(pairs),
    ensures
        keys_in_order(map_remove(pairs, key)),
        forall|k: int|
            0 <= k < map_remove(pairs, key).len() ==> pairs.contains(
                #[trigger] map_remove(pairs, key)[k],
            ),
    decreases pairs.len(),
{
    if pairs.len() > 0 {
        let front = pairs.drop_last();
        let last = pairs.last();
        let kept = map_remove(front, key);
        let out = map_remove(pairs, key);
        law_remove_keeps_order(front, key);
        assert forall|k: int| 0 <= k < kept.len() implies {
            &&& pairs.contains(#[trigger] kept[k])
            &&& text::text_less(kept[k].0, last.0)
        } by {
            let place = choose|n: int| 0 <= n < front.len() && front[n] == kept[k];
            assert(pairs[place] == kept[k]);
            assert(text::text_less(pairs[place].0, pairs[pairs.len() - 1].0));
        }
        assert(pairs[pairs.len() - 1] == last);
        assert forall|k: int| 0 <= k < out.len() implies pairs.contains(#[trigger] out[k]) by {
            if k < kept.len() {
                assert(out[k] == kept[k]);
            }
        }
        assert forall|i: int, j: int| 0 <= i < j < out.len() implies text::text_less(
            #[trigger] out[i].0,
            #[trigger] out[j].0,
        ) by {
            assert(out[i] == kept[i]);
            if j < kept.len() {
                assert(out[j] == kept[j]);
            }
        }
    }
}

/// A map from text to `T`.
#[derive(Debug, PartialEq, Eq)]
pub struct TextMap<T> {
    pub entries: Vec<(String, T)>,
}

impl<T: DeepView> DeepView for TextMap<T> {
    type V = Seq<(Seq<char>, T::V)>;

    open spec fn deep_view(&self) -> Seq<(Seq<char>, T::V)> {
        self.entries.deep_view()
    }
}

impl<T: DeepView> TextMap<T> {
    /// The invariant: keys stand in order, and each once.
    pub open spec fn well_formed(&self) -> bool {
        keys_in_order(self.deep_view())
    }

    pub fn new() -> (map: Self)
        ensures
            map.deep_view() == Seq::<(Seq<char>, T::V)>::empty(),
            map.well_formed(),
    {
        let map = TextMap { entries: Vec::new() };
        assert(map.deep_view() =~= Seq::<(Seq<char>, T::V)>::empty());
        map
    }

    pub fn len(&self) -> (n: usize)
        ensures
            n == self.deep_view().len(),
    {
        self.entries.len()
    }

    pub fn is_empty(&self) -> (yes: bool)
        ensures
            yes == (self.deep_view().len() == 0),
    {
        self.entries.len() == 0
    }

    /// The value bound to a key, if there is one.
    pub fn get(&self, key: &str) -> (found: Option<&T>)
        ensures
            match found {
                Some(value) => map_get(self.deep_view(), key@) == Some(value.deep_view()),
                None => map_get(self.deep_view(), key@) is None,
            },
    {
        let ghost pairs = self.deep_view();
        let mut i: usize = 0;
        assert(pairs.skip(0) =~= pairs);
        while i < self.entries.len()
            invariant
                i <= self.entries.len(),
                pairs == self.deep_view(),
                map_get(pairs, key@) == map_get(pairs.skip(i as int), key@),
            decreases self.entries.len() - i,
        {
            let entry = &self.entries[i];
            assert(pairs.skip(i as int)[0] == (entry.0@, entry.1.deep_view()));
            if text::same_text(entry.0.as_str(), key) {
                return Some(&entry.1);
            }
            assert(pairs.skip(i as int).drop_first() =~= pairs.skip(i + 1));
            i = i + 1;
        }
        None
    }

    /// Binds a key to a value.
    pub fn put(&mut self, key: String, value: T)
        ensures
            final(self).deep_view() == map_put(old(self).deep_view(), key@, value.deep_view()),
            old(self).well_formed() ==> final(self).well_formed(),
    {
        let ghost pairs = self.deep_view();
        let ghost bound = (key@, value.deep_view());
        proof {
            if keys_in_order(pairs) {
                law_put_keeps_order(pairs, bound.0, bound.1);
            }
        }
        let mut i: usize = 0;
        assert(pairs.take(0) + map_put(pairs.skip(0), bound.0, bound.1) =~= map_put(
            pairs,
            bound.0,
            bound.1,
        )) by {
            assert(pairs.skip(0) =~= pairs);
        }
        while i < self.entries.len()
            invariant
                i <= self.entries.len(),
                pairs == self.deep_view(),
                pairs == old(self).deep_view(),
                bound == (key@, value.deep_view()),
                keys_in_order(pairs) ==> keys_in_order(map_put(pairs, bound.0, bound.1)),
                map_put(pairs, bound.0, bound.1) == pairs.take(i as int) + map_put(
                    pairs.skip(i as int),
                    bound.0,
                    bound.1,
                ),
            decreases self.entries.len() - i,
        {
            let ghost rest = pairs.skip(i as int);
            assert(rest[0] == self.entries@[i as int].deep_view());
            if text::same_text(self.entries[i].0.as_str(), key.as_str()) {
                self.entries[i] = (key, value);
                assert(self.deep_view() =~= pairs.take(i as int) + rest.update(0, bound));
                return;
            }
            if text::text_before(key.as_str(), self.entries[i].0.as_str()) {
                self.entries.insert(i, (key, value));
                assert(self.deep_view() =~= pairs.take(i as int) + (seq![bound] + rest));
                return;
            }
            proof {
                assert(rest.drop_first() =~= pairs.skip(i + 1));
                assert(pairs.take(i as int) + (seq![rest[0]] + map_put(
                    rest.drop_first(),
                    bound.0,
                    bound.1,
                )) =~= pairs.take(i + 1) + map_put(pairs.skip(i + 1), bound.0, bound.1));
            }
            i = i + 1;
        }
        self.entries.push((key, value));
        proof {
            assert(pairs.skip(i as int).len() == 0);
            assert(self.deep_view() =~= pairs.take(i as int) + seq![bound]);
        }
    }

    /// Removes a key.
    pub fn remove(&mut self, key: &str)
        ensures
            final(self).deep_view() == map_remove(old(self).deep_view(), key@),
            old(self).well_formed() ==> final(self).well_formed(),
    {
        let ghost pairs = self.deep_view();
        proof {
            if keys_in_order(pairs) {
                law_remove_keeps_order(pairs, key@);
            }
        }
        let mut entries: Vec<(String, T)> = Vec::new();
        std::mem::swap(&mut entries, &mut self.entries);
        assert(self.deep_view() =~= map_remove(pairs.take(0), key@));
        for entry in iter: entries
            invariant
                iter.seq() == entries@,
                entries.deep_view() == pairs,
                self.deep_view() == map_remove(pairs.take(iter.index()), key@),
        {
            let ghost place = iter.index();
            proof {
                assert(pairs[place] == entry.deep_view());
                assert(pairs.take(place + 1).drop_last() =~= pairs.take(place));
                assert(pairs.take(place + 1).last() == pairs[place]);
            }
            if !text::same_text(entry.0.as_str(), key) {
                let ghost before = self.deep_view();
                let ghost pair = entry.deep_view();
                self.entries.push(entry);
                assert(self.deep_view() =~= before.push(pair));
            }
        }
        assert(pairs.take(pairs.len() as int) =~= pairs);
    }

    /// Puts every pair of `more` into the map, in order.
    pub fn extend(&mut self, more: TextMap<T>)
        ensures
            final(self).deep_view() == map_put_all(old(self).deep_view(), more.deep_view()),
            old(self).well_formed() ==> final(self).well_formed(),
    {
        let ghost start = self.deep_view();
        let ghost added = more.deep_view();
        proof {
            if keys_in_order(start) {
                law_put_all_keeps_order(start, added);
            }
        }
        let mut waiting: Vec<(String, T)> = Vec::new();
        let mut entries = more.entries;
        // Reverse the pairs, so that popping hands them out in order.
        assert(added.take(added.len() as int) =~= added);
        while entries.len() > 0
            invariant
                entries@.len() + waiting@.len() == added.len(),
                entries.deep_view() == added.take(entries@.len() as int),
                forall|k: int|
                    0 <= k < waiting@.len() ==> (#[trigger] waiting@[k]).deep_view()
                        == added[added.len() - 1 - k],
            decreases entries.len(),
        {
            let ghost before = entries.deep_view();
            let ghost place = entries@.len() - 1;
            match entries.pop() {
                Some(entry) => {
                    assert(before[place] == entry.deep_view());
                    assert(entries.deep_view() =~= added.take(place));
                    assert(added.take(place + 1)[place] == added[place]);
                    waiting.push(entry);
                },
                None => {},
            }
        }
        assert(added.take(0) =~= Seq::empty());
        while waiting.len() > 0
            invariant
                waiting@.len() <= added.len(),
                forall|k: int|
                    0 <= k < waiting@.len() ==> (#[trigger] waiting@[k]).deep_view()
                        == added[added.len() - 1 - k],
                self.deep_view() == map_put_all(start, added.take(added.len() - waiting@.len())),
            decreases waiting.len(),
        {
            let ghost place = added.len() - waiting@.len();
            match waiting.pop() {
                Some(entry) => {
                    assert(entry.deep_view() == added[place]);
                    assert(added.take(place + 1).drop_last() =~= added.take(place));
                    self.put(entry.0, entry.1);
                },
                None => {},
            }
        }
        assert(added.take(added.len() as int) =~= added);
    }
}

/// A set of texts.
#[derive(Debug, PartialEq, Eq)]
pub struct TextSet {
    pub items: Vec<String>,
}

impl DeepView for TextSet {
    type V = Set<Seq<char>>;

    open spec fn deep_view(&self) -> Set<Seq<char>> {
        self.items.deep_view().to_set()
    }
}

impl TextSet {
    pub fn new() -> (set: Self)
        ensures
            set.deep_view() == Set::<Seq<char>>::empty(),
    {
        let set = TextSet { items: Vec::new() };
        assert(set.deep_view() =~= Set::<Seq<char>>::empty());
        set
    }

    pub fn is_empty(&self) -> (yes: bool)
        ensures
            yes == (self.deep_view() == Set::<Seq<char>>::empty()),
    {
        if self.items.len() == 0 {
            assert(self.deep_view() =~= Set::<Seq<char>>::empty());
            true
        } else {
            assert(self.items.deep_view().contains(self.items.deep_view()[0]));
            assert(self.deep_view().contains(self.items.deep_view()[0]));
            false
        }
    }

    pub fn contains(&self, item: &str) -> (yes: bool)
        ensures
            yes == self.deep_view().contains(item@),
    {
        text::list_contains(&self.items, item)
    }

    pub fn insert(&mut self, item: String)
        ensures
            final(self).deep_view() == old(self).deep_view().insert(item@),
    {
        let ghost before = self.items.deep_view();
        if text::list_contains(&self.items, item.as_str()) {
            assert(self.deep_view() =~= before.to_set().insert(item@));
            return;
        }
        self.items.push(item);
        proof {
            let after = self.items.deep_view();
            assert(after =~= before.push(item@));
            assert forall|t: Seq<char>| after.contains(t) == (before.contains(t) || t == item@) by {
                if before.contains(t) {
                    let k = choose|k: int| 0 <= k < before.len() && before[k] == t;
                    assert(after[k] == t);
                }
                assert(after[before.len() as int] == item@);
            }
            assert(self.deep_view() =~= before.to_set().insert(item@));
        }
    }

    /// A copy of the set.
    pub fn copy(&self) -> (out: TextSet)
        ensures
            out.deep_view() == self.deep_view(),
    {
        TextSet { items: text::copy_texts(&self.items) }
    }
}

} // verus!
