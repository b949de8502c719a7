//! The order of paths: component by component. A prefix comes before the root, that before `.`,
//! that before `..`, and that before every name; prefixes are compared by their kind first, and
//! names by code point. Two spellings of one path rank alike.

use vstd::prelude::*;

use crate::config::Platform;
use crate::path_prefix;
use crate::path_text;
use crate::path_text::components;
use crate::path_text::same_path;
use crate::paths::{Part, PartView};
use crate::text;

verus! {

/// The rank of a component among the kinds of components.
pub open spec fn part_rank(part: PartView) -> int {
    match part {
        PartView::Prefix(_) => 0,
        PartView::Root => 1,
        PartView::Current => 2,
        PartView::Parent => 3,
        PartView::Normal(_) => 4,
    }
}

/// Whether a component ranks before another.
pub open spec fn part_less(a: PartView, b: PartView) -> bool {
    match (a, b) {
        (PartView::Prefix(a), PartView::Prefix(b)) => path_prefix::prefix_less(a, b),
        (PartView::Normal(a), PartView::Normal(b)) => text::text_less(a, b),
        _ => part_rank(a) < part_rank(b),
    }
}

/// Whether a list of components comes before another.
pub open spec fn parts_less(a: Seq<PartView>, b: Seq<PartView>) -> bool
    decreases a.len(),
{
    if b.len() == 0 {
        false
    } else if a.len() == 0 {
        true
    } else if a[0] == b[0] {
        parts_less(a.drop_first(), b.drop_first())
    } else {
        part_less(a[0], b[0])
    }
}

/// Whether path `a` comes before path `b`.
pub open spec fn path_less(platform: Platform, a: Seq<char>, b: Seq<char>) -> bool {
    parts_less(components(platform, a), components(platform, b))
}

/// `paths`, which are in order, with one more put in after those that do not come after it.
pub open spec fn path_placed(
    platform: Platform,
    paths: Seq<Seq<char>>,
    path: Seq<char>,
) -> Seq<Seq<char>>
    decreases paths.len(),
{
    if paths.len() == 0 || !path_less(platform, path, paths.last()) {
        paths.push(path)
    } else {
        path_placed(platform, paths.drop_last(), path).push(paths.last())
    }
}

/// `paths` in order.
pub open spec fn path_sorted(platform: Platform, paths: Seq<Seq<char>>) -> Seq<Seq<char>>
    decreases paths.len(),
{
    if paths.len() == 0 {
        paths
    } else {
        path_placed(platform, path_sorted(platform, paths.drop_last()), paths.last())
    }
}

/// No path comes before one that stands ahead of it.
pub open spec fn in_path_order(platform: Platform, paths: Seq<Seq<char>>) -> bool {
    forall|i: int, j: int|
        0 <= i < j < paths.len() ==> !path_less(platform, #[trigger] paths[j], #[trigger] paths[i])
}

proof fn lemma_part_less_transitive(a: PartView, b: PartView, c: PartView)
    requires
        part_less(a, b),
        part_less(b, c),
    ensures
        part_less(a, c),
{
    match (a, b, c) {
        (PartView::Prefix(x), PartView::Prefix(y), PartView::Prefix(z)) => {
            path_prefix::lemma_prefix_less_transitive(x, y, z);
        },
        (PartView::Normal(x), PartView::Normal(y), PartView::Normal(z)) => {
            text::lemma_text_less_transitive(x, y, z);
        },
        _ => {},
    }
}

proof fn lemma_part_less_irreflexive(a: PartView)
    ensures
        !part_less(a, a),
{
    match a {
        PartView::Prefix(prefix) => path_prefix::lemma_prefix_less_irreflexive(prefix),
        PartView::Normal(name) => text::lemma_text_less_irreflexive(name),
        _ => {},
    }
}

proof fn lemma_parts_less_irreflexive(a: Seq<PartView>)
    ensures
        !parts_less(a, a),
    decreases a.len(),
{
    if a.len() > 0 {
        lemma_parts_less_irreflexive(a.drop_first());
    }
}

proof fn lemma_parts_less_transitive(a: Seq<PartView>, b: Seq<PartView>, c: Seq<PartView>)
    requires
        parts_less(a, b),
        parts_less(b, c),
    ensures
        parts_less(a, c),
    decreases a.len(),
{
    if a.len() > 0 {
        if a[0] == b[0] && b[0] == c[0] {
            lemma_parts_less_transitive(a.drop_first(), b.drop_first(), c.drop_first());
        } else if a[0] != b[0] && b[0] != c[0] {
            lemma_part_less_transitive(a[0], b[0], c[0]);
            if a[0] == c[0] {
                lemma_part_less_irreflexive(a[0]);
            }
        }
    }
}

proof fn lemma_parts_less_total(a: Seq<PartView>, b: Seq<PartView>)
    ensures
        a == b || parts_less(a, b) || parts_less(b, a),
    decreases a.len(),
{
    if a.len() == 0 {
        assert(b.len() == 0 ==> a =~= b);
    } else if b.len() > 0 {
        if a[0] == b[0] {
            lemma_parts_less_total(a.drop_first(), b.drop_first());
            if a.drop_first() == b.drop_first() {
                assert(a =~= seq![a[0]] + a.drop_first());
                assert(b =~= seq![b[0]] + b.drop_first());
            }
        } else {
            match (a[0], b[0]) {
                (PartView::Prefix(x), PartView::Prefix(y)) => path_prefix::lemma_prefix_less_total(
                    x,
                    y,
                ),
                (PartView::Normal(x), PartView::Normal(y)) => text::lemma_text_less_total(x, y),
                _ => {},
            }
        }
    }
}

/// No path comes before itself.
pub proof fn lemma_path_less_irreflexive(platform: Platform, a: Seq<char>)
    ensures
        !path_less(platform, a, a),
{
    lemma_parts_less_irreflexive(components(platform, a));
}

/// The order of paths is transitive.
pub proof fn lemma_path_less_transitive(
    platform: Platform,
    a: Seq<char>,
    b: Seq<char>,
    c: Seq<char>,
)
    requires
        path_less(platform, a, b),
        path_less(platform, b, c),
    ensures
        path_less(platform, a, c),
{
    lemma_parts_less_transitive(
        components(platform, a),
        components(platform, b),
        components(platform, c),
    );
}

/// Of two different paths one comes before the other.
pub proof fn lemma_path_less_total(platform: Platform, a: Seq<char>, b: Seq<char>)
    ensures
        same_path(platform, a, b) || path_less(platform, a, b) || path_less(platform, b, a),
{
    lemma_parts_less_total(components(platform, a), components(platform, b));
}

/// Placing a path keeps the order and adds that path once.
pub proof fn lemma_path_placed(platform: Platform, paths: Seq<Seq<char>>, path: Seq<char>)
    requires
        in_path_order(platform, paths),
    ensures
        in_path_order(platform, path_placed(platform, paths, path)),
        path_placed(platform, paths, path).to_multiset() == paths.to_multiset().insert(path),
        path_placed(platform, paths, path).len() == paths.len() + 1,
        forall|k: int|
            0 <= k < path_placed(platform, paths, path).len() ==> {
                ||| #[trigger] path_placed(platform, paths, path)[k] == path
                ||| paths.contains(path_placed(platform, paths, path)[k])
            },
    decreases paths.len(),
{
    broadcast use vstd::seq_lib::group_to_multiset_ensures;

    let out = path_placed(platform, paths, path);
    if paths.len() == 0 || !path_less(platform, path, paths.last()) {
        assert forall|k: int| 0 <= k < out.len() implies (#[trigger] out[k] == path
            || paths.contains(out[k])) by {
            if k < paths.len() {
                assert(paths[k] == out[k]);
            }
        }
        assert forall|i: int, j: int| 0 <= i < j < out.len() implies !path_less(
            platform,
            #[trigger] out[j],
            #[trigger] out[i],
        ) by {
            if j == paths.len() {
                let last = paths.last();
                if path_less(platform, path, paths[i]) {
                    if i < paths.len() - 1 {
                        assert(!path_less(platform, paths[paths.len() - 1], paths[i]));
                        lemma_path_less_total(platform, paths[i], last);
                        if path_less(platform, paths[i], last) {
                            lemma_path_less_transitive(platform, path, paths[i], last);
                        }
                    }
                }
            } else {
                assert(out[i] == paths[i] && out[j] == paths[j]);
            }
        }
    } else {
        let front = paths.drop_last();
        let last = paths.last();
        assert(in_path_order(platform, front)) by {
            assert forall|i: int, j: int| 0 <= i < j < front.len() implies !path_less(
                platform,
                #[trigger] front[j],
                #[trigger] front[i],
            ) by {
                assert(front[i] == paths[i] && front[j] == paths[j]);
            }
        }
        lemma_path_placed(platform, front, path);
        let head = path_placed(platform, front, path);
        assert forall|k: int| 0 <= k < out.len() implies (#[trigger] out[k] == path
            || paths.contains(out[k])) by {
            if k < head.len() {
                assert(out[k] == head[k]);
                if head[k] != path {
                    let m = choose|m: int| 0 <= m < front.len() && front[m] == head[k];
                    assert(paths[m] == out[k]);
                }
            } else {
                assert(paths[paths.len() - 1] == out[k]);
            }
        }
        assert forall|i: int, j: int| 0 <= i < j < out.len() implies !path_less(
            platform,
            #[trigger] out[j],
            #[trigger] out[i],
        ) by {
            assert(out[i] == head[i]);
            if j == head.len() {
                if head[i] == path {
                    if path_less(platform, last, path) {
                        lemma_path_less_transitive(platform, path, last, path);
                        lemma_path_less_irreflexive(platform, path);
                    }
                } else {
                    let m = choose|m: int| 0 <= m < front.len() && front[m] == head[i];
                    assert(paths[m] == head[i]);
                    assert(!path_less(platform, paths[paths.len() - 1], paths[m]));
                }
            } else {
                assert(out[j] == head[j]);
            }
        }
        assert(paths =~= front.push(last));
        assert(out.to_multiset() =~= paths.to_multiset().insert(path));
    }
}

/// Sorting paths puts them in order and neither adds nor loses one.
pub proof fn law_sorting_orders_paths(platform: Platform, paths: Seq<Seq<char>>)
    ensures
        in_path_order(platform, path_sorted(platform, paths)),
        path_sorted(platform, paths).to_multiset() == paths.to_multiset(),
        path_sorted(platform, paths).len() == paths.len(),
    decreases paths.len(),
{
    broadcast use vstd::seq_lib::group_to_multiset_ensures;

    if paths.len() > 0 {
        law_sorting_orders_paths(platform, paths.drop_last());
        lemma_path_placed(platform, path_sorted(platform, paths.drop_last()), paths.last());
        assert(paths =~= paths.drop_last().push(paths.last()));
    }
}

/// Sorting leaves alone what is already in order.
pub proof fn law_sorting_keeps_order(platform: Platform, paths: Seq<Seq<char>>)
    requires
        in_path_order(platform, paths),
    ensures
        path_sorted(platform, paths) == paths,
    decreases paths.len(),
{
    if paths.len() > 0 {
        let front = paths.drop_last();
        assert(in_path_order(platform, front)) by {
            assert forall|i: int, j: int| 0 <= i < j < front.len() implies !path_less(
                platform,
                #[trigger] front[j],
                #[trigger] front[i],
            ) by {
                assert(front[i] == paths[i] && front[j] == paths[j]);
            }
        }
        law_sorting_keeps_order(platform, front);
        if front.len() > 0 {
            assert(!path_less(platform, paths[paths.len() - 1], paths[paths.len() - 2]));
        }
        assert(front.push(paths.last()) =~= paths);
    }
}

fn rank_of(part: &Part) -> (rank: u8)
    ensures
        rank == part_rank(part.deep_view()),
{
    match part {
        Part::Prefix(_) => 0,
        Part::Root => 1,
        Part::Current => 2,
        Part::Parent => 3,
        Part::Normal(_) => 4,
    }
}

fn part_before(a: &Part, b: &Part) -> (less: bool)
    ensures
        less == part_less(a.deep_view(), b.deep_view()),
{
    match (a, b) {
        (Part::Prefix(a), Part::Prefix(b)) => a.before(b),
        (Part::Normal(a), Part::Normal(b)) => text::text_before(a.as_str(), b.as_str()),
        _ => rank_of(a) < rank_of(b),
    }
}

/// Whether path `a` comes before path `b`.
pub fn path_before(platform: Platform, a: &str, b: &str) -> (less: bool)
    ensures
        less == path_less(platform, a@, b@),
{
    let left = path_text::parts_of(platform, a);
    let right = path_text::parts_of(platform, b);
    let ghost first = left.deep_view();
    let ghost second = right.deep_view();
    let mut i: usize = 0;
    assert(first.skip(0) =~= first);
    assert(second.skip(0) =~= second);
    while i < left.parts.len() && i < right.parts.len()
        invariant
            i <= left.parts@.len(),
            i <= right.parts@.len(),
            first == left.deep_view(),
            first == components(platform, a@),
            second == right.deep_view(),
            second == components(platform, b@),
            parts_less(first, second) == parts_less(first.skip(i as int), second.skip(i as int)),
        decreases left.parts.len() - i,
    {
        assert(first.skip(i as int)[0] == left.parts@[i as int].deep_view());
        assert(second.skip(i as int)[0] == right.parts@[i as int].deep_view());
        if !left.parts[i].same(&right.parts[i]) {
            return part_before(&left.parts[i], &right.parts[i]);
        }
        proof {
            assert(first.skip(i as int).drop_first() =~= first.skip(i + 1));
            assert(second.skip(i as int).drop_first() =~= second.skip(i + 1));
        }
        i = i + 1;
    }
    i < right.parts.len()
}

/// Places a path among paths that are in order.
fn place_path(platform: Platform, paths: &mut Vec<String>, path: String)
    ensures
        final(paths).deep_view() == path_placed(platform, old(paths).deep_view(), path@),
{
    let ghost start = paths.deep_view();
    let ghost added = path@;
    let mut at: usize = paths.len();
    assert(start.take(at as int) =~= start);
    assert(start.skip(at as int) =~= Seq::<Seq<char>>::empty());
    assert(path_placed(platform, start.take(at as int), added) + start.skip(at as int) =~= path_placed(
        platform,
        start,
        added,
    ));
    while at > 0 && path_before(platform, path.as_str(), paths[at - 1].as_str())
        invariant
            at <= paths.len(),
            paths.deep_view() == start,
            added == path@,
            path_placed(platform, start, added) == path_placed(
                platform,
                start.take(at as int),
                added,
            ) + start.skip(at as int),
        decreases at,
    {
        proof {
            let head = start.take(at as int);
            assert(start[at - 1] == paths@[at - 1]@);
            assert(head.last() == start[at - 1]);
            assert(head.drop_last() =~= start.take(at - 1));
            assert(path_placed(platform, head, added) + start.skip(at as int) =~= path_placed(
                platform,
                start.take(at - 1),
                added,
            ) + start.skip(at - 1)) by {
                assert(start.skip(at - 1) =~= seq![start[at - 1]] + start.skip(at as int));
            }
        }
        at = at - 1;
    }
    proof {
        let head = start.take(at as int);
        if at > 0 {
            assert(start[at - 1] == paths@[at - 1]@);
            assert(head.last() == start[at - 1]);
        }
        assert(path_placed(platform, head, added) =~= head.push(added));
    }
    paths.insert(at, path);
    assert(paths.deep_view() =~= start.take(at as int).push(added) + start.skip(at as int));
}

/// Puts paths in order.
pub fn sort_paths(platform: Platform, paths: &mut Vec<String>)
    ensures
        final(paths).deep_view() == path_sorted(platform, old(paths).deep_view()),
{
    let ghost start = paths.deep_view();
    let mut all: Vec<String> = Vec::new();
    std::mem::swap(&mut all, paths);
    assert(paths.deep_view() =~= path_sorted(platform, start.take(0)));
    for path in iter: all
        invariant
            iter.seq() == all@,
            all.deep_view() == start,
            paths.deep_view() == path_sorted(platform, start.take(iter.index())),
    {
        let ghost place = iter.index();
        proof {
            assert(start[place] == path@);
            assert(start.take(place + 1).drop_last() =~= start.take(place));
            assert(start.take(place + 1).last() == path@);
        }
        place_path(platform, paths, path);
    }
    assert(start.take(start.len() as int) =~= start);
}

/// Paths are ordered by their first component that differs, and a directory comes before what lies
/// in it. Of two components, prefixes come first, then the root, `.`, `..` and names, and names go
/// by their text.
pub proof fn law_paths_are_ordered_by_their_first_difference(
    common: Seq<PartView>,
    a: PartView,
    b: PartView,
    rest_a: Seq<PartView>,
    rest_b: Seq<PartView>,
    name: Seq<char>,
    other: Seq<char>,
)
    requires
        a != b,
    ensures
        parts_less(common + seq![a] + rest_a, common + seq![b] + rest_b) == part_less(a, b),
        parts_less(common, common + seq![b] + rest_b),
        !parts_less(common + seq![a] + rest_a, common),
        part_less(PartView::Root, PartView::Current),
        part_less(PartView::Current, PartView::Parent),
        part_less(PartView::Parent, PartView::Normal(name)),
        (a is Prefix && !(b is Prefix)) ==> part_less(a, b),
        part_less(PartView::Normal(name), PartView::Normal(other)) == text::text_less(name, other),
        !part_less(PartView::Current, PartView::Root),
        !part_less(PartView::Parent, PartView::Current),
        !part_less(PartView::Normal(name), PartView::Parent),
    decreases common.len(),
{
    let left = common + seq![a] + rest_a;
    let right = common + seq![b] + rest_b;
    if common.len() > 0 {
        let tail = common.drop_first();
        assert(left.drop_first() =~= tail + seq![a] + rest_a);
        assert(right.drop_first() =~= tail + seq![b] + rest_b);
        law_paths_are_ordered_by_their_first_difference(
            tail,
            a,
            b,
            rest_a,
            rest_b,
            name,
            other,
        );
    } else {
        assert(left[0] == a);
        assert(right[0] == b);
    }
}

} // verus!
