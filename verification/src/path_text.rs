//! Paths as texts: which components a text spells, when two texts are the same path, and what a
//! text means seen from a directory.
//!
//! On Unix components stand between slashes. On Windows a slash and a backslash both separate, a
//! path may start with a prefix, and behind a verbatim prefix only a backslash separates.
//! Repeated and closing separators spell nothing, and neither does a `.` behind another
//! component, but for one behind a verbatim prefix; so one path has many spellings. Texts are the
//! same path where they spell the same components.

use vstd::prelude::*;
use vstd::string::*;

use crate::config::Platform;
use crate::path_prefix;
use crate::path_prefix::{is_separator, is_verbatim, separates, windows_prefix};
use crate::paths;
use crate::paths::{Part, PartView, PathParts};
use crate::text;

verus! {

/// What separates the components behind the prefix and the root of a path.
#[derive(Debug, Clone, Copy, PartialEq, Eq, Structural)]
pub enum Separation {
    Slash,
    /// A slash or a backslash.
    Either,
    /// A backslash alone, as behind a verbatim prefix.
    Verbatim,
}

/// Whether a character separates components.
pub open spec fn parts_at(separation: Separation, c: char) -> bool {
    match separation {
        Separation::Slash => c == '/',
        Separation::Either => separates(c),
        Separation::Verbatim => c == '\\',
    }
}

/// The components with what stands between two separators added.
pub open spec fn with_piece(
    separation: Separation,
    front: Seq<PartView>,
    piece: Seq<char>,
) -> Seq<PartView> {
    if piece.len() == 0 {
        front
    } else if piece == seq!['.'] {
        if front.len() == 0 || separation == Separation::Verbatim {
            front.push(PartView::Current)
        } else {
            front
        }
    } else if piece == seq!['.', '.'] {
        front.push(PartView::Parent)
    } else {
        front.push(PartView::Normal(piece))
    }
}

/// What stands behind the last separator of a text.
pub open spec fn last_piece(separation: Separation, body: Seq<char>) -> Seq<char>
    decreases body.len(),
{
    if body.len() == 0 || parts_at(separation, body.last()) {
        Seq::empty()
    } else {
        last_piece(separation, body.drop_last()).push(body.last())
    }
}

/// The components `start` with those that a text spells up to its last separator.
pub open spec fn leading_components(
    separation: Separation,
    start: Seq<PartView>,
    body: Seq<char>,
) -> Seq<PartView>
    decreases body.len(),
{
    if body.len() == 0 {
        start
    } else {
        let shorter = body.drop_last();
        let front = leading_components(separation, start, shorter);
        if parts_at(separation, body.last()) {
            with_piece(separation, front, last_piece(separation, shorter))
        } else {
            front
        }
    }
}

/// The components `start` with those that a text spells.
pub open spec fn body_components(
    separation: Separation,
    start: Seq<PartView>,
    body: Seq<char>,
) -> Seq<PartView> {
    with_piece(
        separation,
        leading_components(separation, start, body),
        last_piece(separation, body),
    )
}

/// How a path starts: its prefix and its root, how many characters spell them, and what
/// separates the components behind them. Behind a prefix that is neither a drive nor verbatim
/// the root goes without saying.
pub open spec fn anchor(platform: Platform, path: Seq<char>) -> (
    Seq<PartView>,
    int,
    Separation,
) {
    match platform {
        Platform::Unix => if path.len() > 0 && path[0] == '/' {
            (seq![PartView::Root], 1, Separation::Slash)
        } else {
            (Seq::empty(), 0, Separation::Slash)
        },
        Platform::Windows => match windows_prefix(path) {
            Some((prefix, end)) => {
                let separation = if is_verbatim(prefix) {
                    Separation::Verbatim
                } else {
                    Separation::Either
                };
                let first = PartView::Prefix(prefix);
                if end < path.len() && separates(path[end]) {
                    (seq![first, PartView::Root], end + 1, separation)
                } else if prefix is Disk || is_verbatim(prefix) {
                    (seq![first], end, separation)
                } else {
                    (seq![first, PartView::Root], end, separation)
                }
            },
            None => if path.len() > 0 && separates(path[0]) {
                (seq![PartView::Root], 1, Separation::Either)
            } else {
                (Seq::empty(), 0, Separation::Either)
            },
        },
    }
}

/// The components that a text spells.
#[verifier::opaque]
pub open spec fn components(platform: Platform, path: Seq<char>) -> Seq<PartView> {
    let (start, end, separation) = anchor(platform, path);
    body_components(separation, start, path.skip(end))
}

/// Whether two texts are the same path.
pub open spec fn same_path(platform: Platform, a: Seq<char>, b: Seq<char>) -> bool {
    components(platform, a) == components(platform, b)
}

/// Whether a path stands on its own: it starts at the root, on Windows at that of a drive, or at
/// another prefix.
pub open spec fn stands_alone(platform: Platform, path: Seq<char>) -> bool {
    match platform {
        Platform::Unix => path.len() > 0 && path[0] == '/',
        Platform::Windows => match windows_prefix(path) {
            Some((prefix, end)) => !(prefix is Disk) || (end < path.len() && separates(path[end])),
            None => false,
        },
    }
}

/// How a component behind the prefix and the root is spelled.
pub open spec fn word(part: PartView) -> Seq<char> {
    match part {
        PartView::Current => seq!['.'],
        PartView::Parent => seq!['.', '.'],
        PartView::Normal(name) => name,
        _ => Seq::empty(),
    }
}

/// A prefix with components spelled behind it, each but the root behind a backslash.
pub open spec fn spelled_behind(prefix: Seq<char>, parts: Seq<PartView>) -> Seq<char>
    decreases parts.len(),
{
    if parts.len() == 0 {
        prefix
    } else {
        let front = spelled_behind(prefix, parts.drop_last());
        if parts.last() is Root {
            front.push('\\')
        } else if parts.len() > 1 && parts[parts.len() - 2] is Root {
            front + word(parts.last())
        } else {
            front.push('\\') + word(parts.last())
        }
    }
}

/// `rest` seen from the directory `base`. On Windows a path with a prefix replaces the directory,
/// and one with a root but no prefix all of it but its prefix; behind a verbatim prefix `.` and
/// `..` are resolved by their spelling.
pub open spec fn seen_from(platform: Platform, base: Seq<char>, rest: Seq<char>) -> Seq<char> {
    match platform {
        Platform::Unix => if stands_alone(platform, rest) {
            rest
        } else if base.len() == 0 || base.last() == '/' {
            base + rest
        } else {
            base.push('/') + rest
        },
        Platform::Windows => if windows_prefix(rest) is Some {
            rest
        } else {
            match windows_prefix(base) {
                Some((prefix, end)) => if is_verbatim(prefix) && rest.len() > 0 {
                    spelled_behind(
                        base.take(end),
                        paths::taken_up(
                            components(platform, base),
                            components(platform, rest),
                        ).drop_first(),
                    )
                } else if rest.len() > 0 && separates(rest[0]) {
                    base.take(end) + rest
                } else if separates(base.last()) || (prefix is Disk && base.len() == end) {
                    base + rest
                } else {
                    base.push('\\') + rest
                },
                None => if rest.len() > 0 && separates(rest[0]) {
                    rest
                } else if base.len() == 0 || separates(base.last()) {
                    base + rest
                } else {
                    base.push('\\') + rest
                },
            }
        },
    }
}

proof fn lemma_word_behind_separator(
    separation: Separation,
    start: Seq<PartView>,
    front: Seq<char>,
    word: Seq<char>,
)
    requires
        front.len() == 0 || parts_at(separation, front.last()),
        forall|k: int| 0 <= k < word.len() ==> !parts_at(separation, #[trigger] word[k]),
    ensures
        last_piece(separation, front + word) == word,
        leading_components(separation, start, front + word) == leading_components(
            separation,
            start,
            front,
        ),
    decreases word.len(),
{
    if word.len() == 0 {
        assert(front + word =~= front);
    } else {
        let shorter = word.drop_last();
        lemma_word_behind_separator(separation, start, front, shorter);
        assert((front + word).drop_last() =~= front + shorter);
        assert((front + word).last() == word[word.len() - 1]);
        assert(shorter.push(word.last()) =~= word);
    }
}

/// On Unix closing and repeated slashes spell nothing.
pub proof fn law_extra_slashes_spell_nothing(path: Seq<char>, rest: Seq<char>)
    requires
        path.len() > 0,
        !rest.contains('/'),
    ensures
        same_path(Platform::Unix, path.push('/'), path),
        same_path(Platform::Unix, path.push('/').push('/') + rest, path.push('/') + rest),
{
    reveal(components);
    let (start, end, separation) = anchor(Platform::Unix, path);
    let once = path.push('/');
    let twice = once.push('/');
    let body = path.skip(end);
    assert(once.skip(end) =~= body.push('/'));
    assert(twice.skip(end) =~= body.push('/').push('/'));
    assert(body.push('/').drop_last() =~= body);
    assert(body.push('/').push('/').drop_last() =~= body.push('/'));
    assert forall|k: int| 0 <= k < rest.len() implies !parts_at(separation, #[trigger] rest[k]) by {
        assert(rest.contains(rest[k]));
    }
    assert((once + rest).skip(end) =~= body.push('/') + rest);
    assert((twice + rest).skip(end) =~= body.push('/').push('/') + rest);
    lemma_word_behind_separator(separation, start, body.push('/'), rest);
    lemma_word_behind_separator(separation, start, body.push('/').push('/'), rest);
}

/// On Windows a drive may be spelled in either case.
pub proof fn law_drive_letters_count_in_either_case(a: char, b: char, rest: Seq<char>)
    requires
        path_prefix::is_letter(a),
        path_prefix::is_letter(b),
        path_prefix::upper(a) == path_prefix::upper(b),
    ensures
        same_path(Platform::Windows, seq![a, ':'] + rest, seq![b, ':'] + rest),
{
    reveal(components);
    let first = seq![a, ':'] + rest;
    let second = seq![b, ':'] + rest;
    assert(first[0] == a && first[1] == ':');
    assert(second[0] == b && second[1] == ':');
    assert(!separates(a) && !separates(b));
    let (_, end, _) = anchor(Platform::Windows, first);
    assert(first.skip(2) =~= rest);
    assert(second.skip(2) =~= rest);
    if rest.len() > 0 {
        assert(first[2] == rest[0] && second[2] == rest[0]);
    }
    assert(first.skip(end) =~= second.skip(end));
}

/// What is added to the start of a path follows it, and holds neither a prefix nor a root.
proof fn lemma_start_stays(separation: Separation, start: Seq<PartView>, body: Seq<char>)
    ensures
        ({
            let all = leading_components(separation, start, body);
            &&& start.len() <= all.len()
            &&& forall|i: int| 0 <= i < start.len() ==> #[trigger] all[i] == start[i]
            &&& forall|i: int|
                start.len() <= i < all.len() ==> !(#[trigger] all[i] is Root) && !(
                all[i] is Prefix)
        }),
    decreases body.len(),
{
    if body.len() > 0 {
        lemma_start_stays(separation, start, body.drop_last());
    }
}

/// A text stands on its own where its components do.
pub proof fn law_absolute_texts_spell_absolute_paths(platform: Platform, path: Seq<char>)
    ensures
        stands_alone(platform, path) == paths::is_absolute(platform, components(platform, path)),
{
    reveal(components);
    let (start, end, separation) = anchor(platform, path);
    lemma_start_stays(separation, start, path.skip(end));
    let all = components(platform, path);
    assert(forall|i: int| 0 <= i < start.len() ==> #[trigger] all[i] == start[i]);
}

/// A path that stands on its own means the same from every directory.
pub proof fn law_absolute_paths_mean_the_same_everywhere(
    platform: Platform,
    base: Seq<char>,
    rest: Seq<char>,
)
    requires
        stands_alone(platform, rest),
    ensures
        seen_from(platform, base, rest) == rest,
{
}

/// Behind a separator a text spells what it spells alone, behind the components before it.
proof fn lemma_spelled_in_two(
    separation: Separation,
    start: Seq<PartView>,
    front: Seq<char>,
    rest: Seq<char>,
)
    requires
        front.len() == 0 || parts_at(separation, front.last()),
    ensures
        last_piece(separation, front + rest) == last_piece(separation, rest),
        leading_components(separation, start, front + rest) == leading_components(
            separation,
            leading_components(separation, start, front),
            rest,
        ),
    decreases rest.len(),
{
    if rest.len() == 0 {
        assert(front + rest =~= front);
    } else {
        lemma_spelled_in_two(separation, start, front, rest.drop_last());
        assert((front + rest).drop_last() =~= front + rest.drop_last());
        assert((front + rest).last() == rest.last());
    }
}

/// Components behind others: a leading `.` goes.
pub open spec fn behind(front: Seq<PartView>, rest: Seq<PartView>) -> Seq<PartView> {
    if rest.len() > 0 && rest[0] is Current {
        front + rest.drop_first()
    } else {
        front + rest
    }
}

proof fn lemma_piece_behind(front: Seq<PartView>, rest: Seq<PartView>, piece: Seq<char>)
    requires
        front.len() > 0,
    ensures
        with_piece(Separation::Slash, behind(front, rest), piece) == behind(
            front,
            with_piece(Separation::Slash, rest, piece),
        ),
{
    let longer = with_piece(Separation::Slash, rest, piece);
    assert(with_piece(Separation::Slash, behind(front, rest), piece) =~= behind(front, longer));
}

proof fn lemma_leading_behind(front: Seq<PartView>, body: Seq<char>)
    requires
        front.len() > 0,
    ensures
        leading_components(Separation::Slash, front, body) == behind(
            front,
            leading_components(Separation::Slash, Seq::empty(), body),
        ),
    decreases body.len(),
{
    if body.len() == 0 {
        assert(behind(front, Seq::empty()) =~= front);
    } else {
        let shorter = body.drop_last();
        lemma_leading_behind(front, shorter);
        lemma_piece_behind(
            front,
            leading_components(Separation::Slash, Seq::empty(), shorter),
            last_piece(Separation::Slash, shorter),
        );
    }
}

proof fn lemma_names_are_spelled(body: Seq<char>)
    requires
        body.len() > 0,
        body[0] != '/',
    ensures
        body_components(Separation::Slash, Seq::empty(), body).len() > 0,
    decreases body.len(),
{
    if body.last() == '/' {
        lemma_names_are_spelled(body.drop_last());
    }
}

/// On Unix a text seen from a directory spells the path of its components below those of the
/// directory.
pub proof fn law_seen_texts_spell_joined_paths(base: Seq<char>, rest: Seq<char>)
    ensures
        components(Platform::Unix, seen_from(Platform::Unix, base, rest)) == paths::joined(
            components(Platform::Unix, base),
            components(Platform::Unix, rest),
        ),
{
    reveal(components);
    let platform = Platform::Unix;
    let slash = Separation::Slash;
    let (start, end, _) = anchor(platform, base);
    let (first, at, _) = anchor(platform, rest);
    let body = base.skip(end);
    lemma_start_stays(slash, start, body);
    lemma_start_stays(slash, first, rest.skip(at));
    let directory = components(platform, base);
    let path = components(platform, rest);
    assert(!(directory.len() > 0 && directory[0] is Prefix)) by {
        if start.len() > 0 {
            assert(directory[0] == start[0]);
        }
    }
    if stands_alone(platform, rest) {
        assert(path[0] == first[0]);
    } else {
        assert(rest.skip(0) =~= rest);
        assert(path == body_components(slash, Seq::empty(), rest));
        assert(!(path.len() > 0 && (path[0] is Root || path[0] is Prefix)));
        if base.len() == 0 {
            assert(base + rest =~= rest);
            assert(directory =~= Seq::<PartView>::empty());
            assert(paths::joined(directory, path) =~= path);
        } else {
            let closed = if base.last() == '/' {
                base
            } else {
                base.push('/')
            };
            let front = closed.skip(end);
            let whole = seen_from(platform, base, rest);
            assert(whole =~= closed + rest);
            assert(whole.skip(end) =~= front + rest);
            assert(anchor(platform, whole) == anchor(platform, base)) by {
                assert(whole[0] == base[0]);
            }
            assert(leading_components(slash, start, front) == directory) by {
                if base.last() == '/' {
                    assert(front == body);
                    if body.len() == 0 {
                        assert(last_piece(slash, body) =~= Seq::<char>::empty());
                    }
                } else {
                    assert(front =~= body.push('/'));
                    assert(front.drop_last() =~= body);
                }
            }
            assert(directory.len() > 0) by {
                if start.len() == 0 {
                    assert(base.skip(0) =~= base);
                    lemma_names_are_spelled(base);
                }
            }
            lemma_spelled_in_two(slash, start, front, rest);
            lemma_leading_behind(directory, rest);
            lemma_piece_behind(
                directory,
                leading_components(slash, Seq::empty(), rest),
                last_piece(slash, rest),
            );
            assert(paths::joined(directory, path) =~= behind(directory, path));
        }
    }
}

fn separates_parts(separation: Separation, c: char) -> (yes: bool)
    ensures
        yes == parts_at(separation, c),
{
    match separation {
        Separation::Slash => c == '/',
        Separation::Either => is_separator(c),
        Separation::Verbatim => c == '\\',
    }
}

fn add_piece(separation: Separation, parts: &mut PathParts, piece: &String)
    ensures
        final(parts).deep_view() == with_piece(separation, old(parts).deep_view(), piece@),
{
    let ghost before = parts.deep_view();
    let chars = text::chars_of(piece.as_str());
    if chars.len() == 0 {
        return ;
    }
    if chars.len() == 1 && chars[0] == '.' {
        assert(piece@ =~= seq!['.']);
        if parts.parts.len() == 0 || separation == Separation::Verbatim {
            parts.parts.push(Part::Current);
            assert(parts.deep_view() =~= before.push(PartView::Current));
        }
        return ;
    }
    if chars.len() == 2 && chars[0] == '.' && chars[1] == '.' {
        assert(piece@ =~= seq!['.', '.']);
        assert(piece@.len() == 2);
        parts.parts.push(Part::Parent);
        assert(parts.deep_view() =~= before.push(PartView::Parent));
        return ;
    }
    proof {
        assert(piece@.len() > 0);
        if piece@ == seq!['.'] {
            assert(piece@[0] == '.');
        }
        if piece@ == seq!['.', '.'] {
            assert(piece@[0] == '.' && piece@[1] == '.');
        }
    }
    parts.parts.push(Part::Normal(piece.clone()));
    assert(parts.deep_view() =~= before.push(PartView::Normal(piece@)));
}

/// How a path starts.
fn find_anchor(platform: Platform, chars: &Vec<char>) -> (found: (PathParts, usize, Separation))
    ensures
        (found.0.deep_view(), found.1 as int, found.2) == anchor(platform, chars@),
        found.1 <= chars@.len(),
{
    let mut parts = PathParts::new();
    match platform {
        Platform::Unix => {
            if chars.len() > 0 && chars[0] == '/' {
                parts.parts.push(Part::Root);
                assert(parts.deep_view() =~= seq![PartView::Root]);
                return (parts, 1, Separation::Slash);
            }
            (parts, 0, Separation::Slash)
        },
        Platform::Windows => match path_prefix::find_prefix(chars) {
            Some((prefix, end)) => {
                let verbatim = prefix.is_verbatim();
                let disk = prefix.is_disk();
                let ghost first = PartView::Prefix(prefix.deep_view());
                let separation = if verbatim {
                    Separation::Verbatim
                } else {
                    Separation::Either
                };
                parts.parts.push(Part::Prefix(prefix));
                assert(parts.deep_view() =~= seq![first]);
                if end < chars.len() && is_separator(chars[end]) {
                    parts.parts.push(Part::Root);
                    assert(parts.deep_view() =~= seq![first, PartView::Root]);
                    return (parts, end + 1, separation);
                }
                if !disk && !verbatim {
                    parts.parts.push(Part::Root);
                    assert(parts.deep_view() =~= seq![first, PartView::Root]);
                }
                (parts, end, separation)
            },
            None => {
                if chars.len() > 0 && is_separator(chars[0]) {
                    parts.parts.push(Part::Root);
                    assert(parts.deep_view() =~= seq![PartView::Root]);
                    return (parts, 1, Separation::Either);
                }
                (parts, 0, Separation::Either)
            },
        },
    }
}

/// The components that a text spells.
pub fn parts_of(platform: Platform, path: &str) -> (parts: PathParts)
    ensures
        parts.deep_view() == components(platform, path@),
{
    proof {
        reveal(components);
    }
    let chars = text::chars_of(path);
    let (start, end, separation) = find_anchor(platform, &chars);
    let ghost first = start.deep_view();
    let ghost body = chars@.skip(end as int);
    let mut parts = start;
    let mut piece = String::new();
    let mut i: usize = end;
    assert(body.take(0) =~= Seq::<char>::empty());
    assert(piece@ =~= Seq::<char>::empty());
    while i < chars.len()
        invariant
            end <= i <= chars@.len(),
            body == chars@.skip(end as int),
            parts.deep_view() == leading_components(separation, first, body.take(i - end)),
            piece@ == last_piece(separation, body.take(i - end)),
        decreases chars.len() - i,
    {
        let c = chars[i];
        proof {
            let place = i - end;
            assert(body.take(place + 1).drop_last() =~= body.take(place));
            assert(body.take(place + 1).last() == chars@[i as int]);
        }
        if separates_parts(separation, c) {
            add_piece(separation, &mut parts, &piece);
            piece = String::new();
            assert(piece@ =~= Seq::<char>::empty());
        } else {
            piece.push(c);
        }
        i = i + 1;
    }
    assert(body.take(body.len() as int) =~= body);
    add_piece(separation, &mut parts, &piece);
    parts
}

/// Whether two texts are the same path.
pub fn is_same_path(platform: Platform, a: &str, b: &str) -> (same: bool)
    ensures
        same == same_path(platform, a@, b@),
{
    let left = parts_of(platform, a);
    let right = parts_of(platform, b);
    if left.parts.len() != right.parts.len() {
        assert(left.deep_view().len() != right.deep_view().len());
        return false;
    }
    assert(left.deep_view().take(left.deep_view().len() as int) =~= left.deep_view());
    left.starts_with(&right)
}

/// Whether a path stands on its own.
pub fn is_absolute(platform: Platform, path: &str) -> (yes: bool)
    ensures
        yes == stands_alone(platform, path@),
{
    let chars = text::chars_of(path);
    match platform {
        Platform::Unix => chars.len() > 0 && chars[0] == '/',
        Platform::Windows => match path_prefix::find_prefix(&chars) {
            Some((prefix, end)) => !prefix.is_disk() || (end < chars.len() && is_separator(
                chars[end],
            )),
            None => false,
        },
    }
}

fn append_word(out: &mut String, part: &Part)
    ensures
        final(out)@ == old(out)@ + word(part.deep_view()),
{
    proof {
        reveal_strlit(".");
        reveal_strlit("..");
        assert("."@ =~= seq!['.']);
        assert(".."@ =~= seq!['.', '.']);
        assert(out@ + Seq::<char>::empty() =~= out@);
    }
    match part {
        Part::Current => {
            out.append(".");
        },
        Part::Parent => {
            out.append("..");
        },
        Part::Normal(name) => {
            out.append(name.as_str());
        },
        _ => {},
    }
}

/// Spells the components of a path behind the text of its prefix.
fn spell_behind(prefix: String, path: &PathParts) -> (out: String)
    requires
        path.parts@.len() > 0,
    ensures
        out@ == spelled_behind(prefix@, path.deep_view().drop_first()),
{
    let ghost first = prefix@;
    let ghost all = path.deep_view().drop_first();
    let mut out = prefix;
    let mut i: usize = 1;
    let mut behind_root = false;
    assert(all.take(0) =~= Seq::<PartView>::empty());
    while i < path.parts.len()
        invariant
            1 <= i <= path.parts@.len(),
            all == path.deep_view().drop_first(),
            out@ == spelled_behind(first, all.take(i - 1)),
            behind_root == (i > 1 && all[i - 2] is Root),
        decreases path.parts.len() - i,
    {
        let ghost before = out@;
        proof {
            assert(all[i - 1] == path.parts@[i as int].deep_view());
            assert(all.take(i as int).drop_last() =~= all.take(i - 1));
            assert(all.take(i as int).last() == all[i - 1]);
        }
        let root = match &path.parts[i] {
            Part::Root => true,
            _ => false,
        };
        if root {
            out.push('\\');
        } else {
            if !behind_root {
                out.push('\\');
            }
            append_word(&mut out, &path.parts[i]);
        }
        behind_root = root;
        i = i + 1;
    }
    assert(all.take(all.len() as int) =~= all);
    out
}

/// A path seen from a directory.
pub fn join_path(platform: Platform, base: &str, rest: &str) -> (out: String)
    ensures
        out@ == seen_from(platform, base@, rest@),
{
    let chars = text::chars_of(base);
    let more = text::chars_of(rest);
    match platform {
        Platform::Unix => {
            if more.len() > 0 && more[0] == '/' {
                return rest.to_owned();
            }
            let mut out = base.to_owned();
            if chars.len() > 0 && chars[chars.len() - 1] != '/' {
                out.push('/');
            }
            out.append(rest);
            out
        },
        Platform::Windows => {
            if path_prefix::find_prefix(&more).is_some() {
                return rest.to_owned();
            }
            let anchored = more.len() > 0 && is_separator(more[0]);
            let mut closed = chars.len() == 0 || is_separator(chars[chars.len() - 1]);
            let mut end: usize = 0;
            if let Some((prefix, prefix_end)) = path_prefix::find_prefix(&chars) {
                if prefix.is_verbatim() && more.len() > 0 {
                    let start = text::text_of(&chars, 0, prefix_end);
                    let directory = parts_of(platform, base);
                    let below = parts_of(platform, rest);
                    proof {
                        assert(chars@.subrange(0, prefix_end as int) =~= chars@.take(
                            prefix_end as int,
                        ));
                        reveal(components);
                        let (first, at, separation) = anchor(platform, base@);
                        lemma_start_stays(separation, first, base@.skip(at));
                        assert(directory.deep_view()[0] == first[0]);
                    }
                    let whole = directory.take_up(&below);
                    return spell_behind(start, &whole);
                }
                if prefix.is_disk() && chars.len() == prefix_end {
                    closed = true;
                }
                end = prefix_end;
            }
            if anchored {
                let mut out = text::text_of(&chars, 0, end);
                proof {
                    assert(chars@.subrange(0, end as int) =~= chars@.take(end as int));
                    assert(Seq::<char>::empty() + rest@ =~= rest@);
                    assert(chars@.take(0) =~= Seq::<char>::empty());
                }
                out.append(rest);
                return out;
            }
            let mut out = base.to_owned();
            if !closed {
                out.push('\\');
            }
            out.append(rest);
            out
        },
    }
}

/// Whether a text holds no separator.
pub open spec fn is_piece(separation: Separation, text: Seq<char>) -> bool {
    forall|i: int| 0 <= i < text.len() ==> !parts_at(separation, #[trigger] text[i])
}

proof fn lemma_last_piece(separation: Separation, body: Seq<char>, c: char, piece: Seq<char>)
    requires
        parts_at(separation, c),
        is_piece(separation, piece),
    ensures
        last_piece(separation, body.push(c) + piece) == piece,
    decreases piece.len(),
{
    let whole = body.push(c) + piece;
    if piece.len() == 0 {
        assert(whole =~= body.push(c));
        assert(whole.last() == c);
        assert(piece =~= Seq::<char>::empty());
    } else {
        assert(whole.drop_last() =~= body.push(c) + piece.drop_last());
        assert(whole.last() == piece[piece.len() - 1]);
        lemma_last_piece(separation, body, c, piece.drop_last());
        assert(piece.drop_last().push(piece.last()) =~= piece);
    }
}

proof fn lemma_leading(
    separation: Separation,
    start: Seq<PartView>,
    body: Seq<char>,
    c: char,
    piece: Seq<char>,
)
    requires
        parts_at(separation, c),
        is_piece(separation, piece),
    ensures
        leading_components(separation, start, body.push(c) + piece) == body_components(
            separation,
            start,
            body,
        ),
    decreases piece.len(),
{
    let whole = body.push(c) + piece;
    if piece.len() == 0 {
        assert(whole =~= body.push(c));
        assert(whole.drop_last() =~= body);
    } else {
        assert(whole.drop_last() =~= body.push(c) + piece.drop_last());
        assert(whole.last() == piece[piece.len() - 1]);
        lemma_leading(separation, start, body, c, piece.drop_last());
    }
}

/// A path is spelled piece by piece: what stands behind a separator is one more component. An empty
/// piece says nothing, `..` is the parent, `.` counts only in front of everything or behind a
/// verbatim prefix, and anything else is a name.
pub proof fn law_paths_are_spelled_piece_by_piece(
    separation: Separation,
    start: Seq<PartView>,
    body: Seq<char>,
    c: char,
    piece: Seq<char>,
)
    requires
        parts_at(separation, c),
        is_piece(separation, piece),
    ensures
        ({
            let before = body_components(separation, start, body);
            let after = body_components(separation, start, body.push(c) + piece);
            &&& piece.len() == 0 ==> after == before
            &&& piece == seq!['.', '.'] ==> after == before.push(PartView::Parent)
            &&& piece == seq!['.'] ==> after == (if before.len() == 0 || separation
                == Separation::Verbatim {
                before.push(PartView::Current)
            } else {
                before
            })
            &&& (piece.len() > 0 && piece != seq!['.'] && piece != seq!['.', '.']) ==> after
                == before.push(PartView::Normal(piece))
        }),
{
    lemma_last_piece(separation, body, c, piece);
    lemma_leading(separation, start, body, c, piece);
    assert(seq!['.'].len() == 1);
    assert(seq!['.', '.'].len() == 2);
}

/// What separates components: a slash on Unix, a slash or a backslash on Windows, and behind a
/// verbatim prefix a backslash alone.
pub proof fn law_separators(c: char)
    ensures
        parts_at(Separation::Slash, c) <==> c == '/',
        parts_at(Separation::Either, c) <==> c == '/' || c == '\\',
        parts_at(Separation::Verbatim, c) <==> c == '\\',
{
}

/// On Unix, a name behind a slash is one more component of a path that is not empty; the leading
/// slash is the root.
pub proof fn law_name_behind_a_slash(base: Seq<char>, name: Seq<char>)
    requires
        base.len() > 0,
        is_piece(Separation::Slash, name),
        name.len() > 0,
        name != seq!['.'],
        name != seq!['.', '.'],
    ensures
        components(Platform::Unix, base.push('/') + name) == components(Platform::Unix, base).push(
            PartView::Normal(name),
        ),
        components(Platform::Unix, name) == seq![PartView::Normal(name)],
        components(Platform::Unix, seq!['/'] + name) == seq![
            PartView::Root,
            PartView::Normal(name),
        ],
        components(Platform::Unix, base).len() > 0 && (base[0] == '/' <==> components(
            Platform::Unix,
            base,
        )[0] is Root),
{
    reveal(components);
    let whole = base.push('/') + name;
    assert(whole[0] == base[0]);
    if base[0] == '/' {
        assert(whole.skip(1) =~= base.skip(1).push('/') + name);
        law_paths_are_spelled_piece_by_piece(
            Separation::Slash,
            seq![PartView::Root],
            base.skip(1),
            '/',
            name,
        );
        lemma_components_keep_start(Separation::Slash, seq![PartView::Root], base.skip(1));
    } else {
        assert(whole.skip(0) =~= base.push('/') + name);
        assert(base.skip(0) =~= base);
        law_paths_are_spelled_piece_by_piece(
            Separation::Slash,
            Seq::<PartView>::empty(),
            base,
            '/',
            name,
        );
        lemma_spelled_text_has_components(base);
    }
    assert(name[0] != '/');
    assert(name.skip(0) =~= name);
    let rooted = seq!['/'] + name;
    assert(rooted[0] == '/');
    assert(rooted.skip(1) =~= name);
    lemma_plain_piece(Separation::Slash, Seq::<PartView>::empty(), name);
    lemma_plain_piece(Separation::Slash, seq![PartView::Root], name);
    assert(Seq::<PartView>::empty().push(PartView::Normal(name)) =~= seq![PartView::Normal(name)]);
    assert(seq![PartView::Root].push(PartView::Normal(name)) =~= seq![
        PartView::Root,
        PartView::Normal(name),
    ]);
}

proof fn lemma_plain_piece(separation: Separation, start: Seq<PartView>, piece: Seq<char>)
    requires
        is_piece(separation, piece),
    ensures
        leading_components(separation, start, piece) == start,
        last_piece(separation, piece) == piece,
    decreases piece.len(),
{
    if piece.len() > 0 {
        assert(piece[piece.len() - 1] == piece.last());
        lemma_plain_piece(separation, start, piece.drop_last());
        assert(piece.drop_last().push(piece.last()) =~= piece);
    } else {
        assert(piece =~= Seq::<char>::empty());
    }
}

proof fn lemma_components_keep_start(
    separation: Separation,
    start: Seq<PartView>,
    body: Seq<char>,
)
    ensures
        leading_components(separation, start, body).len() >= start.len(),
        leading_components(separation, start, body).take(start.len() as int) =~= start,
        body_components(separation, start, body).len() >= start.len(),
        body_components(separation, start, body).take(start.len() as int) =~= start,
    decreases body.len(),
{
    if body.len() > 0 {
        lemma_components_keep_start(separation, start, body.drop_last());
    }
}

proof fn lemma_spelled_text_has_components(body: Seq<char>)
    requires
        body.len() > 0,
        body[0] != '/',
    ensures
        ({
            let out = body_components(Separation::Slash, Seq::<PartView>::empty(), body);
            out.len() > 0 && !(out[0] is Root)
        }),
    decreases body.len(),
{
    let none = Seq::<PartView>::empty();
    let shorter = body.drop_last();
    let front = leading_components(Separation::Slash, none, shorter);
    lemma_leading_has_no_root(body);
    lemma_leading_has_no_root(shorter);
    if parts_at(Separation::Slash, body.last()) {
        assert(shorter.len() > 0) by {
            assert(body.last() == body[body.len() - 1]);
        }
        lemma_spelled_text_has_components(shorter);
        assert(last_piece(Separation::Slash, body).len() == 0);
        assert(leading_components(Separation::Slash, none, body) == body_components(
            Separation::Slash,
            none,
            shorter,
        ));
    } else {
        assert(leading_components(Separation::Slash, none, body) == front);
        assert(last_piece(Separation::Slash, body).len() > 0);
    }
}

proof fn lemma_leading_has_no_root(body: Seq<char>)
    ensures
        ({
            let front = leading_components(Separation::Slash, Seq::<PartView>::empty(), body);
            front.len() > 0 ==> !(front[0] is Root)
        }),
    decreases body.len(),
{
    if body.len() > 0 {
        lemma_leading_has_no_root(body.drop_last());
    }
}

/// A text stands on its own on Unix exactly where it starts with a slash; seen from a directory,
/// such a text is itself, and any other stands behind the directory and a slash.
pub proof fn law_texts_are_seen_from_directories(base: Seq<char>, rest: Seq<char>)
    ensures
        stands_alone(Platform::Unix, rest) <==> rest.len() > 0 && rest[0] == '/',
        (rest.len() > 0 && rest[0] == '/') ==> seen_from(Platform::Unix, base, rest) == rest,
        !(rest.len() > 0 && rest[0] == '/') && base.len() > 0 && base.last() != '/' ==> seen_from(
            Platform::Unix,
            base,
            rest,
        ) == base + seq!['/'] + rest,
        !(rest.len() > 0 && rest[0] == '/') && (base.len() == 0 || base.last() == '/')
            ==> seen_from(Platform::Unix, base, rest) == base + rest,
        windows_prefix(rest) is Some ==> seen_from(Platform::Windows, base, rest) == rest,
        (windows_prefix(rest) is None && windows_prefix(base) is None && rest.len() > 0 && (rest[0]
            == '/' || rest[0] == '\\')) ==> seen_from(Platform::Windows, base, rest) == rest,
        (windows_prefix(rest) is None && windows_prefix(base) is None && base.len() > 0
            && base.last() != '/' && base.last() != '\\' && rest.len() > 0 && rest[0] != '/'
            && rest[0] != '\\') ==> seen_from(Platform::Windows, base, rest) == base + seq!['\\']
            + rest,
{
    assert(base.push('/') + rest =~= base + seq!['/'] + rest);
    assert(base.push('\\') + rest =~= base + seq!['\\'] + rest);
}

} // verus!
