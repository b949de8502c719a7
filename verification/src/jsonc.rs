//! JSON with comments: line comments, block comments and trailing commas outside strings.

use vstd::prelude::*;

use crate::text;

verus! {

/// Where a scan of a document stands.
#[derive(Debug, Clone, Copy, PartialEq, Eq, Structural)]
pub enum Place {
    /// Between strings and comments.
    Plain,
    /// Inside a string.
    Quoted,
    /// Behind a backslash inside a string.
    Escaped,
    /// Inside a line comment.
    LineComment,
    /// Inside a block comment.
    BlockComment,
}

/// The rest of a document without its comments. A line comment ends before its newline, which
/// stays; a block comment leaves one space.
pub open spec fn without_comments(rest: Seq<char>, place: Place) -> Seq<char>
    decreases rest.len(),
{
    if rest.len() == 0 {
        Seq::empty()
    } else {
        let c = rest[0];
        let next = if rest.len() > 1 {
            Some(rest[1])
        } else {
            None
        };
        match place {
            Place::Plain => if c == '/' && next == Some('/') {
                without_comments(rest.skip(2), Place::LineComment)
            } else if c == '/' && next == Some('*') {
                seq![' '] + without_comments(rest.skip(2), Place::BlockComment)
            } else {
                seq![c] + without_comments(
                    rest.skip(1),
                    if c == '"' {
                        Place::Quoted
                    } else {
                        Place::Plain
                    },
                )
            },
            Place::Quoted => seq![c] + without_comments(
                rest.skip(1),
                if c == '\\' {
                    Place::Escaped
                } else if c == '"' {
                    Place::Plain
                } else {
                    Place::Quoted
                },
            ),
            Place::Escaped => seq![c] + without_comments(rest.skip(1), Place::Quoted),
            Place::LineComment => if c == '\n' {
                seq![c] + without_comments(rest.skip(1), Place::Plain)
            } else {
                without_comments(rest.skip(1), Place::LineComment)
            },
            Place::BlockComment => if c == '*' && next == Some('/') {
                without_comments(rest.skip(2), Place::Plain)
            } else {
                without_comments(rest.skip(1), Place::BlockComment)
            },
        }
    }
}

/// The first character that is no white space.
pub open spec fn first_solid(rest: Seq<char>) -> Option<char>
    decreases rest.len(),
{
    if rest.len() == 0 {
        None
    } else if text::is_white(rest[0]) {
        first_solid(rest.skip(1))
    } else {
        Some(rest[0])
    }
}

/// Whether what follows a comma closes an object or a list.
pub open spec fn closes_next(rest: Seq<char>) -> bool {
    first_solid(rest) == Some('}') || first_solid(rest) == Some(']')
}

/// The rest of a comment-free document without its trailing commas.
pub open spec fn without_trailing_commas(rest: Seq<char>, place: Place) -> Seq<char>
    decreases rest.len(),
{
    if rest.len() == 0 {
        Seq::empty()
    } else {
        let c = rest[0];
        match place {
            Place::Quoted => seq![c] + without_trailing_commas(
                rest.skip(1),
                if c == '\\' {
                    Place::Escaped
                } else if c == '"' {
                    Place::Plain
                } else {
                    Place::Quoted
                },
            ),
            Place::Escaped => seq![c] + without_trailing_commas(rest.skip(1), Place::Quoted),
            _ => if c == ',' && closes_next(rest.skip(1)) {
                without_trailing_commas(rest.skip(1), Place::Plain)
            } else {
                seq![c] + without_trailing_commas(
                    rest.skip(1),
                    if c == '"' {
                        Place::Quoted
                    } else {
                        Place::Plain
                    },
                )
            },
        }
    }
}

/// The plain JSON text of a document with comments.
pub open spec fn stripped(document: Seq<char>) -> Seq<char> {
    without_trailing_commas(without_comments(document, Place::Plain), Place::Plain)
}

fn strip_comments(chars: &Vec<char>) -> (out: Vec<char>)
    ensures
        out@ == without_comments(chars@, Place::Plain),
{
    let mut out: Vec<char> = Vec::new();
    let mut place = Place::Plain;
    let mut i: usize = 0;
    let ghost all = chars@;
    assert(out@ + without_comments(all.skip(0), place) =~= without_comments(all, place)) by {
        assert(all.skip(0) =~= all);
    }
    while i < chars.len()
        invariant
            i <= chars.len(),
            all == chars@,
            out@ + without_comments(all.skip(i as int), place) == without_comments(
                all,
                Place::Plain,
            ),
        decreases chars.len() - i,
    {
        let c = chars[i];
        let ghost rest = all.skip(i as int);
        let ghost before = out@;
        assert(rest[0] == c);
        assert(rest.skip(1) =~= all.skip(i + 1));
        let next = if chars.len() - i > 1 {
            assert(rest[1] == all[i + 1]);
            Some(chars[i + 1])
        } else {
            None
        };
        let pair = match place {
            Place::Plain => c == '/' && (next == Some('/') || next == Some('*')),
            Place::BlockComment => c == '*' && next == Some('/'),
            _ => false,
        };
        if pair {
            assert(rest.skip(2) =~= all.skip(i + 2));
            if let Place::Plain = place {
                if next == Some('/') {
                    place = Place::LineComment;
                } else {
                    out.push(' ');
                    place = Place::BlockComment;
                }
            } else {
                place = Place::Plain;
            }
            i = i + 2;
            assert(out@ + without_comments(all.skip(i as int), place) =~= without_comments(
                all,
                Place::Plain,
            ));
        } else {
            let keep = match place {
                Place::LineComment => c == '\n',
                Place::BlockComment => false,
                _ => true,
            };
            if keep {
                out.push(c);
            }
            place = match place {
                Place::Plain => if c == '"' {
                    Place::Quoted
                } else {
                    Place::Plain
                },
                Place::Quoted => if c == '\\' {
                    Place::Escaped
                } else if c == '"' {
                    Place::Plain
                } else {
                    Place::Quoted
                },
                Place::Escaped => Place::Quoted,
                Place::LineComment => if c == '\n' {
                    Place::Plain
                } else {
                    Place::LineComment
                },
                Place::BlockComment => Place::BlockComment,
            };
            i = i + 1;
            assert(out@ + without_comments(all.skip(i as int), place) =~= without_comments(
                all,
                Place::Plain,
            ));
        }
    }
    assert(out@ + Seq::<char>::empty() =~= out@);
    out
}

fn comma_is_trailing(chars: &Vec<char>, from: usize) -> (yes: bool)
    requires
        from <= chars.len(),
    ensures
        yes == closes_next(chars@.skip(from as int)),
{
    let mut i: usize = from;
    while i < chars.len()
        invariant
            from <= i <= chars.len(),
            first_solid(chars@.skip(from as int)) == first_solid(chars@.skip(i as int)),
        decreases chars.len() - i,
    {
        assert(chars@.skip(i as int)[0] == chars@[i as int]);
        if !text::white(chars[i]) {
            return chars[i] == '}' || chars[i] == ']';
        }
        assert(chars@.skip(i as int).skip(1) =~= chars@.skip(i + 1));
        i = i + 1;
    }
    false
}

fn strip_trailing_commas(chars: &Vec<char>) -> (out: String)
    ensures
        out@ == without_trailing_commas(chars@, Place::Plain),
{
    let mut out = String::new();
    let mut place = Place::Plain;
    let mut i: usize = 0;
    let ghost all = chars@;
    assert(out@ + without_trailing_commas(all.skip(0), place) =~= without_trailing_commas(
        all,
        place,
    )) by {
        assert(all.skip(0) =~= all);
    }
    while i < chars.len()
        invariant
            i <= chars.len(),
            all == chars@,
            place is Plain || place is Quoted || place is Escaped,
            out@ + without_trailing_commas(all.skip(i as int), place) == without_trailing_commas(
                all,
                Place::Plain,
            ),
        decreases chars.len() - i,
    {
        let c = chars[i];
        let ghost rest = all.skip(i as int);
        assert(rest[0] == c);
        assert(rest.skip(1) =~= all.skip(i + 1));
        let dropped = match place {
            Place::Plain => c == ',' && comma_is_trailing(chars, i + 1),
            _ => false,
        };
        if !dropped {
            out.push(c);
        }
        place = match place {
            Place::Quoted => if c == '\\' {
                Place::Escaped
            } else if c == '"' {
                Place::Plain
            } else {
                Place::Quoted
            },
            Place::Escaped => Place::Quoted,
            _ => if c == '"' {
                Place::Quoted
            } else {
                Place::Plain
            },
        };
        i = i + 1;
        assert(out@ + without_trailing_commas(all.skip(i as int), place)
            =~= without_trailing_commas(all, Place::Plain));
    }
    assert(out@ + Seq::<char>::empty() =~= out@);
    out
}

/// Turns a document with comments and trailing commas into plain JSON text.
pub fn strip_jsonc(document: &str) -> (out: String)
    ensures
        out@ == stripped(document@),
{
    let chars = text::chars_of(document);
    let bare = strip_comments(&chars);
    strip_trailing_commas(&bare)
}

proof fn lemma_no_slash_no_comment(rest: Seq<char>, place: Place)
    requires
        !rest.contains('/'),
        place is Plain || place is Quoted || place is Escaped,
    ensures
        without_comments(rest, place) == rest,
    decreases rest.len(),
{
    if rest.len() > 0 {
        let tail = rest.skip(1);
        assert(rest.contains(rest[0]));
        assert forall|k: int| 0 <= k < tail.len() implies tail[k] != '/' by {
            assert(rest.contains(rest[k + 1]));
        }
        lemma_no_slash_no_comment(tail, Place::Plain);
        lemma_no_slash_no_comment(tail, Place::Quoted);
        lemma_no_slash_no_comment(tail, Place::Escaped);
        assert(seq![rest[0]] + tail =~= rest);
    }
}

proof fn lemma_no_comma_no_trailing_comma(rest: Seq<char>, place: Place)
    requires
        !rest.contains(','),
        place is Plain || place is Quoted || place is Escaped,
    ensures
        without_trailing_commas(rest, place) == rest,
    decreases rest.len(),
{
    if rest.len() > 0 {
        let tail = rest.skip(1);
        assert(rest.contains(rest[0]));
        assert forall|k: int| 0 <= k < tail.len() implies tail[k] != ',' by {
            assert(rest.contains(rest[k + 1]));
        }
        lemma_no_comma_no_trailing_comma(tail, Place::Plain);
        lemma_no_comma_no_trailing_comma(tail, Place::Quoted);
        lemma_no_comma_no_trailing_comma(tail, Place::Escaped);
        assert(seq![rest[0]] + tail =~= rest);
    }
}

/// A document in which no slash and no comma occurs passes unchanged.
pub proof fn law_plain_document_is_kept(document: Seq<char>)
    requires
        !document.contains('/'),
        !document.contains(','),
    ensures
        stripped(document) == document,
{
    lemma_no_slash_no_comment(document, Place::Plain);
    lemma_no_comma_no_trailing_comma(document, Place::Plain);
}

/// A line comment goes away up to the end of its line, and the line ends where it did.
pub proof fn law_line_comment_goes_away(comment: Seq<char>, rest: Seq<char>)
    requires
        !comment.contains('\n'),
    ensures
        without_comments(seq!['/', '/'] + comment + seq!['\n'] + rest, Place::Plain) == seq!['\n']
            + without_comments(rest, Place::Plain),
        without_comments(seq!['/', '/'] + comment, Place::Plain).len() == 0,
{
    let whole = seq!['/', '/'] + comment + seq!['\n'] + rest;
    assert(whole[0] == '/' && whole[1] == '/');
    assert(whole.skip(2) =~= comment + seq!['\n'] + rest);
    lemma_in_line_comment(comment, rest);
    let alone = seq!['/', '/'] + comment;
    assert(alone[0] == '/' && alone[1] == '/');
    assert(alone.skip(2) =~= comment);
}

proof fn lemma_in_line_comment(comment: Seq<char>, rest: Seq<char>)
    requires
        !comment.contains('\n'),
    ensures
        without_comments(comment + seq!['\n'] + rest, Place::LineComment) == seq!['\n']
            + without_comments(rest, Place::Plain),
        without_comments(comment, Place::LineComment).len() == 0,
    decreases comment.len(),
{
    let whole = comment + seq!['\n'] + rest;
    if comment.len() == 0 {
        assert(whole[0] == '\n');
        assert(whole.skip(1) =~= rest);
    } else {
        assert(comment.contains(comment[0]));
        assert(whole[0] == comment[0]);
        assert(whole.skip(1) =~= comment.skip(1) + seq!['\n'] + rest);
        assert forall|i: int| 0 <= i < comment.skip(1).len() implies comment.skip(1)[i] != '\n' by {
            assert(comment.contains(comment[i + 1]));
        }
        lemma_in_line_comment(comment.skip(1), rest);
    }
}

/// Whether a text holds the end of a block comment.
pub open spec fn ends_comment(text: Seq<char>) -> bool {
    exists|i: int| 0 <= i < text.len() - 1 && #[trigger] text[i] == '*' && text[i + 1] == '/'
}

/// A block comment becomes a space, however many lines it spans.
pub proof fn law_block_comment_becomes_a_space(comment: Seq<char>, rest: Seq<char>)
    requires
        !ends_comment(comment),
    ensures
        without_comments(seq!['/', '*'] + comment + seq!['*', '/'] + rest, Place::Plain) == seq![' ']
            + without_comments(rest, Place::Plain),
{
    let whole = seq!['/', '*'] + comment + seq!['*', '/'] + rest;
    assert(whole[0] == '/' && whole[1] == '*');
    assert(whole.skip(2) =~= comment + seq!['*', '/'] + rest);
    lemma_in_block_comment(comment, rest);
}

proof fn lemma_in_block_comment(comment: Seq<char>, rest: Seq<char>)
    requires
        !ends_comment(comment),
    ensures
        without_comments(comment + seq!['*', '/'] + rest, Place::BlockComment) == without_comments(
            rest,
            Place::Plain,
        ),
    decreases comment.len(),
{
    let whole = comment + seq!['*', '/'] + rest;
    if comment.len() == 0 {
        assert(whole[0] == '*' && whole[1] == '/');
        assert(whole.skip(2) =~= rest);
    } else {
        assert(whole[0] == comment[0]);
        if comment.len() > 1 {
            assert(whole[1] == comment[1]);
        } else {
            assert(whole[1] == '*');
        }
        assert(whole.skip(1) =~= comment.skip(1) + seq!['*', '/'] + rest);
        if ends_comment(comment.skip(1)) {
            let i = choose|i: int|
                0 <= i < comment.skip(1).len() - 1 && #[trigger] comment.skip(1)[i] == '*'
                    && comment.skip(1)[i + 1] == '/';
            assert(comment[i + 1] == '*' && comment[i + 2] == '/');
        }
        lemma_in_block_comment(comment.skip(1), rest);
    }
}

/// Whether a text can stand between two quotes: it holds neither a quote nor a backslash.
pub open spec fn is_quotable(text: Seq<char>) -> bool {
    forall|i: int| 0 <= i < text.len() ==> #[trigger] text[i] != '"' && text[i] != '\\'
}

/// What stands between quotes is kept as it is, whether it looks like a comment or like a trailing
/// comma, and so is a character behind a backslash, which ends no string.
pub proof fn law_quoted_text_is_kept(quoted: Seq<char>, escaped: char, rest: Seq<char>)
    requires
        is_quotable(quoted),
    ensures
        without_comments(seq!['"'] + quoted + seq!['"'] + rest, Place::Plain) == seq!['"'] + quoted
            + seq!['"'] + without_comments(rest, Place::Plain),
        without_trailing_commas(seq!['"'] + quoted + seq!['"'] + rest, Place::Plain) == seq!['"']
            + quoted + seq!['"'] + without_trailing_commas(rest, Place::Plain),
        without_comments(quoted + seq!['\\', escaped] + rest, Place::Quoted) == quoted + seq![
            '\\',
            escaped,
        ] + without_comments(rest, Place::Quoted),
        without_trailing_commas(quoted + seq!['\\', escaped] + rest, Place::Quoted) == quoted + seq![
            '\\',
            escaped,
        ] + without_trailing_commas(rest, Place::Quoted),
{
    let whole = seq!['"'] + quoted + seq!['"'] + rest;
    assert(whole[0] == '"');
    assert(whole.skip(1) =~= quoted + (seq!['"'] + rest));
    lemma_in_quotes(quoted, seq!['"'] + rest);
    let closing = seq!['"'] + rest;
    assert(closing[0] == '"');
    assert(closing.skip(1) =~= rest);
    assert(seq!['"'] + (quoted + (seq!['"'] + without_comments(rest, Place::Plain))) =~= seq!['"']
        + quoted + seq!['"'] + without_comments(rest, Place::Plain));
    assert(seq!['"'] + (quoted + (seq!['"'] + without_trailing_commas(rest, Place::Plain)))
        =~= seq!['"'] + quoted + seq!['"'] + without_trailing_commas(rest, Place::Plain));

    let tail = seq!['\\', escaped] + rest;
    assert(quoted + seq!['\\', escaped] + rest =~= quoted + tail);
    lemma_in_quotes(quoted, tail);
    assert(tail[0] == '\\');
    assert(tail.skip(1) =~= seq![escaped] + rest);
    let behind = seq![escaped] + rest;
    assert(behind[0] == escaped);
    assert(behind.skip(1) =~= rest);
    assert(without_comments(behind, Place::Escaped) == seq![escaped] + without_comments(
        rest,
        Place::Quoted,
    ));
    assert(without_trailing_commas(behind, Place::Escaped) == seq![escaped]
        + without_trailing_commas(rest, Place::Quoted));
    assert(without_comments(tail, Place::Quoted) == seq!['\\'] + without_comments(
        behind,
        Place::Escaped,
    ));
    assert(without_trailing_commas(tail, Place::Quoted) == seq!['\\'] + without_trailing_commas(
        behind,
        Place::Escaped,
    ));
    assert(quoted + (seq!['\\'] + (seq![escaped] + without_comments(rest, Place::Quoted)))
        =~= quoted + seq!['\\', escaped] + without_comments(rest, Place::Quoted));
    assert(quoted + (seq!['\\'] + (seq![escaped] + without_trailing_commas(rest, Place::Quoted)))
        =~= quoted + seq!['\\', escaped] + without_trailing_commas(rest, Place::Quoted));
}

proof fn lemma_in_quotes(quoted: Seq<char>, rest: Seq<char>)
    requires
        is_quotable(quoted),
    ensures
        without_comments(quoted + rest, Place::Quoted) == quoted + without_comments(
            rest,
            Place::Quoted,
        ),
        without_trailing_commas(quoted + rest, Place::Quoted) == quoted + without_trailing_commas(
            rest,
            Place::Quoted,
        ),
    decreases quoted.len(),
{
    let whole = quoted + rest;
    if quoted.len() == 0 {
        assert(whole =~= rest);
        assert(quoted + without_comments(rest, Place::Quoted) =~= without_comments(
            rest,
            Place::Quoted,
        ));
        assert(quoted + without_trailing_commas(rest, Place::Quoted) =~= without_trailing_commas(
            rest,
            Place::Quoted,
        ));
    } else {
        assert(whole[0] == quoted[0]);
        assert(whole.skip(1) =~= quoted.skip(1) + rest);
        lemma_in_quotes(quoted.skip(1), rest);
        assert(seq![quoted[0]] + (quoted.skip(1) + without_comments(rest, Place::Quoted)) =~= quoted
            + without_comments(rest, Place::Quoted));
        assert(seq![quoted[0]] + (quoted.skip(1) + without_trailing_commas(rest, Place::Quoted))
            =~= quoted + without_trailing_commas(rest, Place::Quoted));
    }
}

/// Outside strings every other character is kept: a slash that starts no comment, and any
/// character that is neither a slash nor a quote.
pub proof fn law_plain_text_is_kept(c: char, rest: Seq<char>)
    requires
        c != '"',
        c != '/' || rest.len() == 0 || (rest[0] != '/' && rest[0] != '*'),
    ensures
        without_comments(seq![c] + rest, Place::Plain) == seq![c] + without_comments(
            rest,
            Place::Plain,
        ),
        c != ',' ==> without_trailing_commas(seq![c] + rest, Place::Plain) == seq![c]
            + without_trailing_commas(rest, Place::Plain),
{
    let whole = seq![c] + rest;
    assert(whole[0] == c);
    assert(whole.skip(1) =~= rest);
    if rest.len() > 0 {
        assert(whole[1] == rest[0]);
    }
}

proof fn lemma_first_solid(space: Seq<char>, rest: Seq<char>)
    requires
        forall|i: int| 0 <= i < space.len() ==> text::is_white(#[trigger] space[i]),
    ensures
        first_solid(space + rest) == first_solid(rest),
    decreases space.len(),
{
    let whole = space + rest;
    if space.len() == 0 {
        assert(whole =~= rest);
    } else {
        assert(whole[0] == space[0]);
        assert(whole.skip(1) =~= space.skip(1) + rest);
        lemma_first_solid(space.skip(1), rest);
    }
}

/// Outside strings a comma goes away where, behind white space, a brace or a bracket closes, and
/// is kept in front of anything else and at the end.
pub proof fn law_trailing_comma_goes_away(space: Seq<char>, next: char, rest: Seq<char>)
    requires
        forall|i: int| 0 <= i < space.len() ==> text::is_white(#[trigger] space[i]),
        !text::is_white(next),
    ensures
        ({
            let behind = space + seq![next] + rest;
            &&& next == '}' || next == ']' ==> without_trailing_commas(seq![','] + behind, Place::Plain)
                == without_trailing_commas(behind, Place::Plain)
            &&& next != '}' && next != ']' ==> without_trailing_commas(
                seq![','] + behind,
                Place::Plain,
            ) == seq![','] + without_trailing_commas(behind, Place::Plain)
            &&& without_trailing_commas(seq![','] + space, Place::Plain) == seq![',']
                + without_trailing_commas(space, Place::Plain)
        }),
{
    let behind = space + seq![next] + rest;
    assert(behind =~= space + (seq![next] + rest));
    lemma_first_solid(space, seq![next] + rest);
    assert((seq![next] + rest)[0] == next);
    let whole = seq![','] + behind;
    assert(whole[0] == ',');
    assert(whole.skip(1) =~= behind);
    lemma_first_solid(space, Seq::empty());
    assert(space + Seq::<char>::empty() =~= space);
    let alone = seq![','] + space;
    assert(alone[0] == ',');
    assert(alone.skip(1) =~= space);
}

/// A comma that only a comment parts from the closing brace is a trailing one: what is left of the
/// document is the same without both.
pub proof fn law_comma_before_a_comment_goes_away(comment: Seq<char>, rest: Seq<char>)
    requires
        !comment.contains('\n'),
    ensures
        stripped(seq![',', '/', '/'] + comment + seq!['\n', '}'] + rest) == stripped(
            seq!['\n', '}'] + rest,
        ),
{
    let closing = seq!['\n', '}'] + rest;
    let brace = seq!['}'] + rest;
    let commented = seq!['/', '/'] + comment + seq!['\n'] + brace;
    let whole = seq![',', '/', '/'] + comment + closing;
    assert(whole =~= seq![',', '/', '/'] + comment + seq!['\n', '}'] + rest);
    assert(whole =~= seq![','] + commented);
    law_plain_text_is_kept(',', commented);
    law_line_comment_goes_away(comment, brace);
    assert(closing =~= seq!['\n'] + brace);
    law_plain_text_is_kept('\n', brace);
    law_plain_text_is_kept('}', rest);
    let left = without_comments(rest, Place::Plain);
    let behind = seq!['\n'] + seq!['}'] + left;
    assert(without_comments(closing, Place::Plain) =~= behind);
    assert(without_comments(whole, Place::Plain) =~= seq![','] + behind);
    law_trailing_comma_goes_away(seq!['\n'], '}', left);
}

} // verus!
