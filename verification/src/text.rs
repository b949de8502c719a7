//! Character-level text operations with exact contracts.
//!
//! Text is modelled as `Seq<char>`. Everything here is written over characters, so the
//! contracts of the callers never have to mention UTF-8.

use vstd::prelude::*;
use vstd::string::*;

verus! {

/// `String::push`: the given character is appended to the end of the text.
pub assume_specification[ String::push ](s: &mut String, ch: char)
    ensures
        final(s)@ == old(s)@.push(ch),
;

/// The characters with the Unicode `White_Space` property.
pub open spec fn is_white(c: char) -> bool {
    let n = c as u32;
    ||| 0x9 <= n <= 0xD
    ||| n == 0x20
    ||| n == 0x85
    ||| n == 0xA0
    ||| n == 0x1680
    ||| 0x2000 <= n <= 0x200A
    ||| n == 0x2028
    ||| n == 0x2029
    ||| n == 0x202F
    ||| n == 0x205F
    ||| n == 0x3000
}

pub fn white(c: char) -> (b: bool)
    ensures
        b == is_white(c),
{
    let n: u32 = c as u32;
    (0x9 <= n && n <= 0xD) || n == 0x20 || n == 0x85 || n == 0xA0 || n == 0x1680 || (0x2000 <= n
        && n <= 0x200A) || n == 0x2028 || n == 0x2029 || n == 0x202F || n == 0x205F || n == 0x3000
}

/// Whether two texts hold the same characters.
pub fn same_text(a: &str, b: &str) -> (same: bool)
    ensures
        same == (a@ == b@),
{
    let left = chars_of(a);
    let right = chars_of(b);
    if left.len() != right.len() {
        return false;
    }
    let mut i: usize = 0;
    while i < left.len()
        invariant
            i <= left.len(),
            left.len() == right.len(),
            left@ == a@,
            right@ == b@,
            forall|k: int| 0 <= k < i ==> left@[k] == right@[k],
        decreases left.len() - i,
    {
        if left[i] != right[i] {
            return false;
        }
        i = i + 1;
    }
    assert(a@ =~= b@);
    true
}

/// The characters of a text, in order.
pub fn chars_of(text: &str) -> (chars: Vec<char>)
    ensures
        chars@ == text@,
{
    let mut chars: Vec<char> = Vec::new();
    for c in iter: text.chars()
        invariant
            iter.seq() == text@,
            chars@ == text@.take(iter.index() as int),
    {
        proof {
            assert(text@.take(iter.index() as int).push(c) =~= text@.take(iter.index() as int + 1));
        }
        chars.push(c);
    }
    assert(text@.take(text@.len() as int) =~= text@);
    chars
}

/// The text that holds `chars[from..to]`.
pub fn text_of(chars: &Vec<char>, from: usize, to: usize) -> (text: String)
    requires
        from <= to <= chars.len(),
    ensures
        text@ == chars@.subrange(from as int, to as int),
{
    let mut text = String::new();
    let mut i: usize = from;
    while i < to
        invariant
            from <= i <= to <= chars.len(),
            text@ == chars@.subrange(from as int, i as int),
        decreases to - i,
    {
        proof {
            assert(chars@.subrange(from as int, i as int).push(chars@[i as int])
                =~= chars@.subrange(from as int, i + 1));
        }
        text.push(chars[i]);
        i = i + 1;
    }
    text
}

/// How `<str as Debug>::fmt` writes a text: quoted, with its escapes.
pub uninterp spec fn debug_text(text: Seq<char>) -> Seq<char>;

/// `format!("{:?}")` of a text, which is `<str as Debug>::fmt`: the same text is always written
/// the same way.
#[verifier::external_body]
pub(crate) fn debug_quote(text: &str) -> (out: String)
    ensures
        out@ == debug_text(text@),
{
    format!("{text:?}")
}

/// `text` without its leading and trailing white space.
pub open spec fn trimmed(text: Seq<char>) -> Seq<char>
    decreases text.len(),
{
    if text.len() == 0 {
        text
    } else if is_white(text[0]) {
        trimmed(text.drop_first())
    } else if is_white(text.last()) {
        trimmed(text.drop_last())
    } else {
        text
    }
}

pub fn trim(text: &str) -> (out: String)
    ensures
        out@ == trimmed(text@),
{
    let chars = chars_of(text);
    let mut from: usize = 0;
    let mut to: usize = chars.len();
    assert(chars@.subrange(0, chars@.len() as int) =~= chars@);
    while from < to && white(chars[from])
        invariant
            from <= to == chars.len(),
            trimmed(chars@) == trimmed(chars@.subrange(from as int, to as int)),
        ensures
            from <= to == chars.len(),
            trimmed(chars@) == trimmed(chars@.subrange(from as int, to as int)),
            from < to ==> !is_white(chars@[from as int]),
        decreases to - from,
    {
        proof {
            assert(chars@.subrange(from as int, to as int).drop_first() =~= chars@.subrange(
                from + 1,
                to as int,
            ));
        }
        from = from + 1;
    }
    while from < to && white(chars[to - 1])
        invariant
            from <= to <= chars.len(),
            trimmed(chars@) == trimmed(chars@.subrange(from as int, to as int)),
            from < to ==> !is_white(chars@[from as int]),
        ensures
            from <= to <= chars.len(),
            trimmed(chars@) == trimmed(chars@.subrange(from as int, to as int)),
            from < to ==> !is_white(chars@[from as int]) && !is_white(chars@[to - 1]),
        decreases to,
    {
        proof {
            assert(chars@.subrange(from as int, to as int).drop_last() =~= chars@.subrange(
                from as int,
                to - 1,
            ));
        }
        to = to - 1;
    }
    text_of(&chars, from, to)
}

/// Trimming a trimmed text changes nothing.
pub proof fn law_trim_is_idempotent(text: Seq<char>)
    ensures
        trimmed(trimmed(text)) == trimmed(text),
    decreases text.len(),
{
    if text.len() != 0 {
        if is_white(text[0]) {
            law_trim_is_idempotent(text.drop_first());
        } else if is_white(text.last()) {
            law_trim_is_idempotent(text.drop_last());
        }
    }
}

/// `text` without the dots it starts with.
pub open spec fn without_leading_dots(text: Seq<char>) -> Seq<char>
    decreases text.len(),
{
    if text.len() > 0 && text[0] == '.' {
        without_leading_dots(text.drop_first())
    } else {
        text
    }
}

pub fn strip_leading_dots(text: &str) -> (out: String)
    ensures
        out@ == without_leading_dots(text@),
{
    let chars = chars_of(text);
    let mut from: usize = 0;
    assert(chars@.subrange(0, chars@.len() as int) =~= chars@);
    while from < chars.len() && chars[from] == '.'
        invariant
            from <= chars.len(),
            without_leading_dots(chars@) == without_leading_dots(
                chars@.subrange(from as int, chars@.len() as int),
            ),
        ensures
            from <= chars.len(),
            without_leading_dots(chars@) == without_leading_dots(
                chars@.subrange(from as int, chars@.len() as int),
            ),
            from < chars.len() ==> chars@[from as int] != '.',
        decreases chars.len() - from,
    {
        proof {
            assert(chars@.subrange(from as int, chars@.len() as int).drop_first()
                =~= chars@.subrange(from + 1, chars@.len() as int));
        }
        from = from + 1;
    }
    let to: usize = chars.len();
    text_of(&chars, from, to)
}

/// The lower-case form of one ASCII letter; every other character is its own.
pub open spec fn ascii_lower_char(c: char) -> char {
    if 'A' <= c <= 'Z' {
        ((c as u32 + 32) as u32) as char
    } else {
        c
    }
}

/// `text` with its ASCII letters in lower case.
pub open spec fn ascii_lowered(text: Seq<char>) -> Seq<char> {
    Seq::new(text.len(), |i: int| ascii_lower_char(text[i]))
}

pub fn lower_char(c: char) -> (out: char)
    ensures
        out == ascii_lower_char(c),
{
    if 'A' <= c && c <= 'Z' {
        let n: u8 = c as u8;
        (n + 32) as char
    } else {
        c
    }
}

pub fn to_ascii_lower(text: &str) -> (out: String)
    ensures
        out@ == ascii_lowered(text@),
{
    let chars = chars_of(text);
    let mut out = String::new();
    let mut i: usize = 0;
    while i < chars.len()
        invariant
            i <= chars.len(),
            chars@ == text@,
            out@.len() == i,
            forall|k: int| 0 <= k < i ==> out@[k] == ascii_lower_char(text@[k]),
        decreases chars.len() - i,
    {
        out.push(lower_char(chars[i]));
        i = i + 1;
    }
    assert(out@ =~= ascii_lowered(text@));
    out
}

/// Whether `prefix` is the beginning of `text`.
pub open spec fn begins_with(text: Seq<char>, prefix: Seq<char>) -> bool {
    prefix.len() <= text.len() && text.take(prefix.len() as int) == prefix
}

pub fn starts_with(text: &str, prefix: &str) -> (yes: bool)
    ensures
        yes == begins_with(text@, prefix@),
{
    let chars = chars_of(text);
    let head = chars_of(prefix);
    if head.len() > chars.len() {
        return false;
    }
    let mut i: usize = 0;
    while i < head.len()
        invariant
            i <= head.len() <= chars.len(),
            chars@ == text@,
            head@ == prefix@,
            forall|k: int| 0 <= k < i ==> text@[k] == prefix@[k],
        decreases head.len() - i,
    {
        if head[i] != chars[i] {
            assert(text@.take(prefix@.len() as int)[i as int] != prefix@[i as int]);
            return false;
        }
        i = i + 1;
    }
    assert(text@.take(prefix@.len() as int) =~= prefix@);
    true
}

/// Whether a text ends with another.
pub open spec fn closes_with(text: Seq<char>, suffix: Seq<char>) -> bool {
    suffix.len() <= text.len() && text.skip(text.len() - suffix.len()) == suffix
}

pub fn ends_with(text: &str, suffix: &str) -> (yes: bool)
    ensures
        yes == closes_with(text@, suffix@),
{
    let whole = chars_of(text);
    let tail = chars_of(suffix);
    if tail.len() > whole.len() {
        return false;
    }
    let offset: usize = whole.len() - tail.len();
    let mut i: usize = 0;
    while i < tail.len()
        invariant
            i <= tail.len(),
            offset == whole.len() - tail.len(),
            tail.len() <= whole.len(),
            whole@ == text@,
            tail@ == suffix@,
            forall|k: int| 0 <= k < i ==> text@[offset + k] == suffix@[k],
        decreases tail.len() - i,
    {
        if whole[offset + i] != tail[i] {
            assert(text@.skip(offset as int)[i as int] == text@[offset + i]);
            return false;
        }
        i = i + 1;
    }
    assert(text@.skip(offset as int) =~= suffix@);
    true
}

/// The decimal digits of a number, without leading zeros.
pub open spec fn decimal(n: nat) -> Seq<char>
    decreases n,
{
    if n < 10 {
        seq![digit(n)]
    } else {
        decimal(n / 10).push(digit(n % 10))
    }
}

pub open spec fn digit(n: nat) -> char {
    ((n + 48) as u32) as char
}

pub fn decimal_text(n: u64) -> (out: String)
    ensures
        out@ == decimal(n as nat),
    decreases n,
{
    let last: u8 = (n % 10) as u8;
    let mut out = if n < 10 {
        String::new()
    } else {
        decimal_text(n / 10)
    };
    out.push((last + 48) as char);
    proof {
        if n < 10 {
            assert(out@ =~= seq![digit(n as nat)]);
        }
    }
    out
}

/// Whether `a` comes before `b` in the order of their characters' code points.
pub open spec fn text_less(a: Seq<char>, b: Seq<char>) -> bool
    decreases a.len(),
{
    if b.len() == 0 {
        false
    } else if a.len() == 0 {
        true
    } else if a[0] == b[0] {
        text_less(a.drop_first(), b.drop_first())
    } else {
        a[0] < b[0]
    }
}

pub fn text_before(a: &str, b: &str) -> (less: bool)
    ensures
        less == text_less(a@, b@),
{
    let left = chars_of(a);
    let right = chars_of(b);
    let mut i: usize = 0;
    assert(left@.skip(0) =~= left@);
    assert(right@.skip(0) =~= right@);
    while i < left.len() && i < right.len()
        invariant
            i <= left.len(),
            i <= right.len(),
            left@ == a@,
            right@ == b@,
            text_less(a@, b@) == text_less(a@.skip(i as int), b@.skip(i as int)),
        decreases left.len() - i,
    {
        assert(a@.skip(i as int)[0] == a@[i as int]);
        assert(b@.skip(i as int)[0] == b@[i as int]);
        if left[i] != right[i] {
            return left[i] < right[i];
        }
        proof {
            assert(a@.skip(i as int).drop_first() =~= a@.skip(i + 1));
            assert(b@.skip(i as int).drop_first() =~= b@.skip(i + 1));
        }
        i = i + 1;
    }
    i < right.len()
}

/// No text comes before itself.
pub proof fn lemma_text_less_irreflexive(a: Seq<char>)
    ensures
        !text_less(a, a),
    decreases a.len(),
{
    if a.len() > 0 {
        lemma_text_less_irreflexive(a.drop_first());
    }
}

/// The order of texts is transitive.
pub proof fn lemma_text_less_transitive(a: Seq<char>, b: Seq<char>, c: Seq<char>)
    requires
        text_less(a, b),
        text_less(b, c),
    ensures
        text_less(a, c),
    decreases a.len(),
{
    if a.len() > 0 && a[0] == b[0] && b[0] == c[0] {
        lemma_text_less_transitive(a.drop_first(), b.drop_first(), c.drop_first());
    }
}

/// Of two different texts one comes before the other.
pub proof fn lemma_text_less_total(a: Seq<char>, b: Seq<char>)
    ensures
        a == b || text_less(a, b) || text_less(b, a),
    decreases a.len(),
{
    if a.len() == 0 {
        assert(b.len() == 0 ==> a =~= b);
    } else if b.len() > 0 && a[0] == b[0] {
        lemma_text_less_total(a.drop_first(), b.drop_first());
        if a.drop_first() == b.drop_first() {
            assert(a =~= b) by {
                assert(a.len() == a.drop_first().len() + 1);
                assert(b.len() == b.drop_first().len() + 1);
                assert forall|k: int| 0 <= k < a.len() implies a[k] == b[k] by {
                    if k > 0 {
                        assert(a[k] == a.drop_first()[k - 1]);
                        assert(b[k] == b.drop_first()[k - 1]);
                    }
                }
            }
        }
    }
}

/// A copy of a list of texts.
pub fn copy_texts(texts: &Vec<String>) -> (out: Vec<String>)
    ensures
        out.deep_view() == texts.deep_view(),
{
    let mut out: Vec<String> = Vec::new();
    let mut i: usize = 0;
    while i < texts.len()
        invariant
            i <= texts.len(),
            out@.len() == i,
            forall|k: int| 0 <= k < i ==> out@[k]@ == texts@[k]@,
        decreases texts.len() - i,
    {
        out.push(texts[i].clone());
        i = i + 1;
    }
    assert(out.deep_view() =~= texts.deep_view());
    out
}

/// Whether a text is one of a list.
pub fn list_contains(texts: &Vec<String>, text: &str) -> (yes: bool)
    ensures
        yes == texts.deep_view().contains(text@),
{
    let mut i: usize = 0;
    while i < texts.len()
        invariant
            i <= texts.len(),
            forall|k: int| 0 <= k < i ==> texts@[k]@ != text@,
        decreases texts.len() - i,
    {
        if same_text(texts[i].as_str(), text) {
            assert(texts.deep_view()[i as int] == text@);
            return true;
        }
        i = i + 1;
    }
    assert forall|k: int| 0 <= k < texts.deep_view().len() implies texts.deep_view()[k]
        != text@ by {
        assert(texts.deep_view()[k] == texts@[k]@);
    }
    false
}

/// The bytes of one character in UTF-8.
pub open spec fn char_bytes(c: char) -> nat {
    let n = c as u32;
    if n < 0x80 {
        1
    } else if n < 0x800 {
        2
    } else if n < 0x10000 {
        3
    } else {
        4
    }
}

/// The bytes of a text in UTF-8.
pub open spec fn byte_len(text: Seq<char>) -> nat
    decreases text.len(),
{
    if text.len() == 0 {
        0
    } else {
        byte_len(text.drop_last()) + char_bytes(text.last())
    }
}

pub fn count_bytes(text: &str) -> (n: u64)
    ensures
        n == (if byte_len(text@) > u64::MAX {
            u64::MAX as nat
        } else {
            byte_len(text@)
        }),
{
    let chars = chars_of(text);
    let mut n: u64 = 0;
    let mut i: usize = 0;
    assert(text@.take(0) =~= Seq::empty());
    while i < chars.len()
        invariant
            i <= chars.len(),
            chars@ == text@,
            n == (if byte_len(text@.take(i as int)) > u64::MAX {
                u64::MAX as nat
            } else {
                byte_len(text@.take(i as int))
            }),
        decreases chars.len() - i,
    {
        proof {
            assert(text@.take(i + 1).drop_last() =~= text@.take(i as int));
        }
        let c: u32 = chars[i] as u32;
        let width: u64 = if c < 0x80 {
            1
        } else if c < 0x800 {
            2
        } else if c < 0x10000 {
            3
        } else {
            4
        };
        n = n.saturating_add(width);
        i = i + 1;
    }
    assert(text@.take(text@.len() as int) =~= text@);
    n
}

/// The bytes of a character in UTF-16.
pub open spec fn char_wide_bytes(c: char) -> nat {
    if (c as u32) < 0x10000 {
        2
    } else {
        4
    }
}

/// The bytes of a text in UTF-16.
pub open spec fn wide_len(text: Seq<char>) -> nat
    decreases text.len(),
{
    if text.len() == 0 {
        0
    } else {
        wide_len(text.drop_last()) + char_wide_bytes(text.last())
    }
}

pub fn count_wide_bytes(text: &str) -> (n: u64)
    ensures
        n == (if wide_len(text@) > u64::MAX {
            u64::MAX as nat
        } else {
            wide_len(text@)
        }),
{
    let chars = chars_of(text);
    let mut n: u64 = 0;
    let mut i: usize = 0;
    assert(text@.take(0) =~= Seq::empty());
    while i < chars.len()
        invariant
            i <= chars.len(),
            chars@ == text@,
            n == (if wide_len(text@.take(i as int)) > u64::MAX {
                u64::MAX as nat
            } else {
                wide_len(text@.take(i as int))
            }),
        decreases chars.len() - i,
    {
        proof {
            assert(text@.take(i + 1).drop_last() =~= text@.take(i as int));
        }
        let c: u32 = chars[i] as u32;
        let width: u64 = if c < 0x10000 {
            2
        } else {
            4
        };
        n = n.saturating_add(width);
        i = i + 1;
    }
    assert(text@.take(text@.len() as int) =~= text@);
    n
}

/// The rest of a text behind its first word, and that word: the longest run of characters that
/// are no white space. `None` where there is no word.
pub open spec fn first_word(text: Seq<char>) -> Option<(Seq<char>, Seq<char>)>
    decreases text.len(),
{
    if text.len() == 0 {
        None
    } else if is_white(text[0]) {
        first_word(text.drop_first())
    } else {
        let n = run_len(text);
        Some((text.take(n as int), text.skip(n as int)))
    }
}

/// How many characters before the first white space.
pub open spec fn run_len(text: Seq<char>) -> nat
    decreases text.len(),
{
    if text.len() == 0 || is_white(text[0]) {
        0
    } else {
        1 + run_len(text.drop_first())
    }
}

/// The word at a place, words counted from zero.
pub open spec fn word_at(text: Seq<char>, place: nat) -> Option<Seq<char>>
    decreases place,
{
    match first_word(text) {
        None => None,
        Some((word, rest)) => if place == 0 {
            Some(word)
        } else {
            word_at(rest, (place - 1) as nat)
        },
    }
}

pub fn nth_word(text: &str, place: usize) -> (out: Option<String>)
    ensures
        out.deep_view() == word_at(text@, place as nat),
{
    let chars = chars_of(text);
    let mut from: usize = 0;
    let mut left: usize = place;
    assert(chars@.skip(0) =~= chars@);
    loop
        invariant
            from <= chars.len(),
            left <= place,
            chars@ == text@,
            word_at(text@, place as nat) == word_at(chars@.skip(from as int), left as nat),
        decreases chars.len() - from, left,
    {
        let ghost entry = from;
        while from < chars.len() && white(chars[from])
            invariant
                entry <= from <= chars.len(),
                first_word(chars@.skip(entry as int)) == first_word(chars@.skip(from as int)),
            ensures
                entry <= from <= chars.len(),
                first_word(chars@.skip(entry as int)) == first_word(chars@.skip(from as int)),
                from < chars.len() ==> !is_white(chars@[from as int]),
            decreases chars.len() - from,
        {
            assert(chars@.skip(from as int)[0] == chars@[from as int]);
            assert(chars@.skip(from as int).drop_first() =~= chars@.skip(from + 1));
            from = from + 1;
        }
        if from >= chars.len() {
            assert(chars@.skip(from as int).len() == 0);
            return None;
        }
        let ghost tail = chars@.skip(from as int);
        assert(tail[0] == chars@[from as int]);
        let mut to: usize = from;
        assert(tail.skip(0) =~= tail);
        while to < chars.len() && !white(chars[to])
            invariant
                from <= to <= chars.len(),
                tail == chars@.skip(from as int),
                run_len(tail) == (to - from) + run_len(tail.skip(to - from)),
            ensures
                from <= to <= chars.len(),
                tail == chars@.skip(from as int),
                run_len(tail) == to - from,
            decreases chars.len() - to,
        {
            assert(tail.skip(to - from)[0] == chars@[to as int]);
            assert(tail.skip(to - from).drop_first() =~= tail.skip(to - from + 1));
            to = to + 1;
            proof {
                if to < chars.len() {
                    assert(tail.skip(to - from)[0] == chars@[to as int]);
                }
            }
        }
        proof {
            assert(tail.take(to - from) =~= chars@.subrange(from as int, to as int));
            assert(tail.skip(to - from) =~= chars@.skip(to as int));
            assert(run_len(tail) >= 1);
        }
        if left == 0 {
            return Some(text_of(&chars, from, to));
        }
        from = to;
        left = left - 1;
    }
}

/// The number that decimal digits stand for.
pub open spec fn digits_value(digits: Seq<char>) -> nat
    decreases digits.len(),
{
    if digits.len() == 0 {
        0
    } else {
        digits_value(digits.drop_last()) * 10 + (digits.last() as nat - 48) as nat
    }
}

pub open spec fn all_digits(text: Seq<char>) -> bool {
    forall|i: int| 0 <= i < text.len() ==> '0' <= #[trigger] text[i] <= '9'
}

/// The number that a text writes: decimal digits, at least one, perhaps behind a plus sign, and
/// no more than the largest number.
pub open spec fn number_of(text: Seq<char>) -> Option<u64> {
    let digits = if text.len() > 0 && text[0] == '+' {
        text.skip(1)
    } else {
        text
    };
    if digits.len() > 0 && all_digits(digits) && digits_value(digits) <= u64::MAX {
        Some(digits_value(digits) as u64)
    } else {
        None
    }
}

proof fn lemma_digits_grow(digits: Seq<char>, n: int)
    requires
        0 <= n <= digits.len(),
    ensures
        digits_value(digits.take(n)) <= digits_value(digits),
    decreases digits.len() - n,
{
    if n < digits.len() {
        assert(digits.take(n + 1).drop_last() =~= digits.take(n));
        lemma_digits_grow(digits, n + 1);
    } else {
        assert(digits.take(n) =~= digits);
    }
}

pub fn parse_number(text: &str) -> (out: Option<u64>)
    ensures
        out == number_of(text@),
{
    let chars = chars_of(text);
    let from: usize = if chars.len() > 0 && chars[0] == '+' {
        1
    } else {
        0
    };
    let ghost digits = if text@.len() > 0 && text@[0] == '+' {
        text@.skip(1)
    } else {
        text@
    };
    assert(text@.skip(0) =~= text@);
    if from >= chars.len() {
        return None;
    }
    let mut n: u64 = 0;
    let mut i: usize = from;
    assert(digits.take(0) =~= Seq::empty());
    while i < chars.len()
        invariant
            from <= i <= chars.len(),
            chars@ == text@,
            digits == text@.skip(from as int),
            digits == (if text@.len() > 0 && text@[0] == '+' {
                text@.skip(1)
            } else {
                text@
            }),
            from < chars.len(),
            n == digits_value(digits.take(i - from)),
            forall|k: int| 0 <= k < i - from ==> '0' <= #[trigger] digits[k] <= '9',
        decreases chars.len() - i,
    {
        let c = chars[i];
        assert(digits[i - from] == c);
        if c < '0' || c > '9' {
            assert(!all_digits(digits));
            return None;
        }
        let digit: u64 = c as u64 - 48;
        proof {
            assert(digits.take(i - from + 1).drop_last() =~= digits.take(i - from));
            assert(digits.take(i - from + 1).last() == c);
            lemma_digits_grow(digits, i - from + 1);
        }
        n = match n.checked_mul(10) {
            Some(tens) => match tens.checked_add(digit) {
                Some(next) => next,
                None => {
                    return None;
                },
            },
            None => {
                return None;
            },
        };
        i = i + 1;
    }
    assert(digits.take(digits.len() as int) =~= digits);
    Some(n)
}

} // verus!
