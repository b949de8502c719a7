//! What the text operations promise.

use vstd::prelude::*;

use crate::text;

verus! {

/// Whether a text is nothing but white space.
pub open spec fn all_white(text: Seq<char>) -> bool {
    forall|i: int| 0 <= i < text.len() ==> text::is_white(#[trigger] text[i])
}

/// Trimming takes white space off both ends and nothing else: the text is white space, the
/// trimmed text and white space, and the trimmed text neither starts nor ends with any.
pub proof fn law_trim_takes_off_white_space_only(text: Seq<char>) -> (ends: (Seq<char>, Seq<char>))
    ensures
        text == ends.0 + text::trimmed(text) + ends.1,
        all_white(ends.0),
        all_white(ends.1),
        text::trimmed(text).len() > 0 ==> !text::is_white(text::trimmed(text)[0])
            && !text::is_white(text::trimmed(text).last()),
    decreases text.len(),
{
    let none = Seq::<char>::empty();
    if text.len() == 0 {
        assert(text =~= none + text + none);
        (none, none)
    } else if text::is_white(text[0]) {
        let inner = law_trim_takes_off_white_space_only(text.drop_first());
        let front = seq![text[0]] + inner.0;
        assert(text =~= seq![text[0]] + text.drop_first());
        assert(text =~= front + text::trimmed(text) + inner.1);
        (front, inner.1)
    } else if text::is_white(text.last()) {
        let inner = law_trim_takes_off_white_space_only(text.drop_last());
        let back = inner.1.push(text.last());
        assert(text =~= text.drop_last().push(text.last()));
        assert(text =~= inner.0 + text::trimmed(text) + back);
        (inner.0, back)
    } else {
        assert(text =~= none + text + none);
        (none, none)
    }
}

/// Stripping takes dots off the front and nothing else.
pub proof fn law_stripping_takes_off_dots_only(text: Seq<char>) -> (dots: Seq<char>)
    ensures
        text == dots + text::without_leading_dots(text),
        forall|i: int| 0 <= i < dots.len() ==> #[trigger] dots[i] == '.',
        text::without_leading_dots(text).len() > 0 ==> text::without_leading_dots(text)[0] != '.',
    decreases text.len(),
{
    if text.len() > 0 && text[0] == '.' {
        let rest = law_stripping_takes_off_dots_only(text.drop_first());
        let dots = seq!['.'] + rest;
        assert(text =~= seq!['.'] + text.drop_first());
        assert(text =~= dots + text::without_leading_dots(text));
        dots
    } else {
        assert(text =~= Seq::<char>::empty() + text);
        Seq::empty()
    }
}

/// Lowering maps each capital ASCII letter to the small one, and leaves every other character and
/// the length as they are.
pub proof fn law_lowering_maps_capitals_only(text: Seq<char>, i: int)
    requires
        0 <= i < text.len(),
    ensures
        ({
            let low = text::ascii_lowered(text);
            &&& low.len() == text.len()
            &&& ('A' <= text[i] && text[i] <= 'Z') ==> {
                &&& 'a' <= low[i] && low[i] <= 'z'
                &&& low[i] as int - 'a' as int == text[i] as int - 'A' as int
            }
            &&& !('A' <= text[i] && text[i] <= 'Z') ==> low[i] == text[i]
        }),
{
}

/// Texts are ordered by their first difference, and a text comes before its continuations.
pub proof fn law_texts_are_ordered_by_their_first_difference(
    common: Seq<char>,
    a: char,
    b: char,
    rest_a: Seq<char>,
    rest_b: Seq<char>,
)
    ensures
        a < b ==> text::text_less(common + seq![a] + rest_a, common + seq![b] + rest_b),
        a > b ==> !text::text_less(common + seq![a] + rest_a, common + seq![b] + rest_b),
        text::text_less(common, common + seq![b] + rest_b),
        !text::text_less(common + seq![a] + rest_a, common),
    decreases common.len(),
{
    let left = common + seq![a] + rest_a;
    let right = common + seq![b] + rest_b;
    if common.len() > 0 {
        let tail = common.drop_first();
        assert(left.drop_first() =~= tail + seq![a] + rest_a);
        assert(right.drop_first() =~= tail + seq![b] + rest_b);
        law_texts_are_ordered_by_their_first_difference(tail, a, b, rest_a, rest_b);
    } else {
        assert(left[0] == a);
        assert(right[0] == b);
    }
}

/// A number that is written in decimal reads back as itself.
pub proof fn law_written_number_reads_back(n: u64)
    ensures
        text::number_of(text::decimal(n as nat)) == Some(n),
{
    lemma_decimal_digits(n as nat);
}

proof fn lemma_decimal_digits(n: nat)
    ensures
        text::decimal(n).len() > 0,
        text::all_digits(text::decimal(n)),
        text::decimal(n)[0] != '+',
        text::digits_value(text::decimal(n)) == n,
    decreases n,
{
    let out = text::decimal(n);
    if n < 10 {
        assert(out.drop_last() =~= Seq::<char>::empty());
        assert(text::digits_value(Seq::<char>::empty()) == 0);
    } else {
        lemma_decimal_digits(n / 10);
        assert(out.drop_last() =~= text::decimal(n / 10));
        assert forall|i: int| 0 <= i < out.len() implies '0' <= #[trigger] out[i] <= '9' by {
            if i < out.len() - 1 {
                assert(out[i] == text::decimal(n / 10)[i]);
            }
        }
        assert(out[0] == text::decimal(n / 10)[0]);
    }
}

/// A text is read as a number exactly by its digits: each one counts ten times the ones behind
/// it, a plus sign in front counts nothing, and anything else is no number.
pub proof fn law_numbers_are_read_digit_by_digit(digits: Seq<char>, last: char)
    requires
        text::all_digits(digits),
        digits.len() > 0,
    ensures
        ('0' <= last && last <= '9') ==> text::number_of(digits.push(last)) == (match text::number_of(
            digits,
        ) {
            Some(n) => if n * 10 + (last as int - '0' as int) <= u64::MAX {
                Some((n * 10 + (last as int - '0' as int)) as u64)
            } else {
                None
            },
            None => None,
        }),
        !('0' <= last && last <= '9') ==> text::number_of(digits.push(last)) is None,
        text::number_of(seq!['+'] + digits) == text::number_of(digits),
        text::number_of(Seq::<char>::empty()) is None,
{
    let more = digits.push(last);
    assert(more.drop_last() =~= digits);
    assert(digits[0] != '+');
    assert(more[0] == digits[0]);
    assert((seq!['+'] + digits).skip(1) =~= digits);
    if '0' <= last && last <= '9' {
        assert forall|i: int| 0 <= i < more.len() implies '0' <= #[trigger] more[i] <= '9' by {
            if i < digits.len() {
                assert(more[i] == digits[i]);
            }
        }
    } else {
        assert(more[digits.len() as int] == last);
    }
}

/// The bytes of a text are those of its parts together; an ASCII character takes one byte in
/// UTF-8, no character takes more than four, and in UTF-16 a character takes two or four.
pub proof fn law_bytes_add_up(a: Seq<char>, b: Seq<char>, c: char)
    ensures
        text::byte_len(a + b) == text::byte_len(a) + text::byte_len(b),
        text::wide_len(a + b) == text::wide_len(a) + text::wide_len(b),
        text::byte_len(seq![c]) == (if (c as u32) <= 0x7f {
            1nat
        } else if (c as u32) <= 0x7ff {
            2
        } else if (c as u32) <= 0xffff {
            3
        } else {
            4
        }),
        text::wide_len(seq![c]) == (if (c as u32) <= 0xffff {
            2nat
        } else {
            4
        }),
    decreases b.len(),
{
    assert(seq![c].drop_last() =~= Seq::<char>::empty());
    assert(text::byte_len(Seq::<char>::empty()) == 0);
    assert(text::wide_len(Seq::<char>::empty()) == 0);
    if b.len() == 0 {
        assert(a + b =~= a);
    } else {
        law_bytes_add_up(a, b.drop_last(), c);
        assert((a + b).drop_last() =~= a + b.drop_last());
        assert((a + b).last() == b.last());
    }
}

/// Whether a text holds no white space.
pub open spec fn is_word(text: Seq<char>) -> bool {
    &&& text.len() > 0
    &&& forall|i: int| 0 <= i < text.len() ==> !text::is_white(#[trigger] text[i])
}

/// Words are what white space stands between: behind white space and a word comes the rest of the
/// words, counted from one.
pub proof fn law_words_are_counted_in_order(
    gap: Seq<char>,
    word: Seq<char>,
    rest: Seq<char>,
    place: nat,
)
    requires
        all_white(gap),
        is_word(word),
        rest.len() == 0 || text::is_white(rest[0]),
    ensures
        text::word_at(gap + word + rest, 0) == Some(word),
        text::word_at(gap + word + rest, place + 1) == text::word_at(rest, place),
        text::word_at(gap, place) is None,
{
    lemma_first_word(gap, word, rest);
    lemma_no_word(gap);
}

proof fn lemma_no_word(gap: Seq<char>)
    requires
        all_white(gap),
    ensures
        text::first_word(gap) is None,
    decreases gap.len(),
{
    if gap.len() > 0 {
        lemma_no_word(gap.drop_first());
    }
}

proof fn lemma_first_word(gap: Seq<char>, word: Seq<char>, rest: Seq<char>)
    requires
        all_white(gap),
        is_word(word),
        rest.len() == 0 || text::is_white(rest[0]),
    ensures
        text::first_word(gap + word + rest) == Some((word, rest)),
    decreases gap.len(),
{
    let whole = gap + word + rest;
    if gap.len() > 0 {
        assert(whole.drop_first() =~= gap.drop_first() + word + rest);
        lemma_first_word(gap.drop_first(), word, rest);
        assert(whole[0] == gap[0]);
    } else {
        assert(whole =~= word + rest);
        assert(whole[0] == word[0]);
        lemma_run(word, rest);
        assert(whole.take(word.len() as int) =~= word);
        assert(whole.skip(word.len() as int) =~= rest);
    }
}

proof fn lemma_run(word: Seq<char>, rest: Seq<char>)
    requires
        forall|i: int| 0 <= i < word.len() ==> !text::is_white(#[trigger] word[i]),
        rest.len() == 0 || text::is_white(rest[0]),
    ensures
        text::run_len(word + rest) == word.len(),
    decreases word.len(),
{
    let whole = word + rest;
    if word.len() > 0 {
        assert(whole[0] == word[0]);
        assert(whole.drop_first() =~= word.drop_first() + rest);
        lemma_run(word.drop_first(), rest);
    } else {
        assert(whole =~= rest);
    }
}

/// The white space characters are those that Unicode calls so: of ASCII, the tab, the line feed,
/// the vertical tab, the form feed, the carriage return and the space.
pub proof fn law_ascii_white_space(c: char)
    requires
        (c as u32) < 0x80,
    ensures
        text::is_white(c) <==> c == '\t' || c == '\n' || c == '\x0b' || c == '\x0c' || c == '\r' || c
            == ' ',
{
}

/// A text begins with, and ends with, exactly the parts that it is made of.
pub proof fn law_parts_are_recognized(front: Seq<char>, back: Seq<char>, other: Seq<char>)
    ensures
        text::begins_with(front + back, front),
        text::closes_with(front + back, back),
        text::begins_with(other, front) ==> other == front + other.skip(front.len() as int),
        text::closes_with(other, back) ==> other == other.take(other.len() - back.len()) + back,
{
    assert((front + back).take(front.len() as int) =~= front);
    assert((front + back).skip((front + back).len() - back.len()) =~= back);
    if text::begins_with(other, front) {
        assert(other =~= front + other.skip(front.len() as int));
    }
    if text::closes_with(other, back) {
        assert(other =~= other.take(other.len() - back.len()) + back);
    }
}

} // verus!
