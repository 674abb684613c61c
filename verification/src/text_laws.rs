//! What cutting, trimming and searching of text mean.
use vstd::prelude::*;

use crate::bounded::{bounded_detail, BoundedTextView};
use crate::text::{
    byte_len, char_width, contains_text, find_text, is_white, lemma_char_width,
    lemma_encode_concat, lemma_encode_first, lemma_prefix_within, lemma_skip_bytes,
    lemma_suffix_within, prefix_within, sat_add_u64, skip_bytes, suffix_within, trim_end,
    trim_start, trimmed,
};

verus! {

/// Whether `part` stands in `whole`, somewhere.
pub open spec fn stands_in(part: Seq<char>, whole: Seq<char>) -> bool {
    exists|at: int|
        0 <= at && at + part.len() <= whole.len() && #[trigger] whole.subrange(
            at,
            at + part.len(),
        ) == part
}

/// A text is found in another if and only if it stands there at some position, and it is
/// found at the first one.
pub proof fn text_is_found_where_it_stands(whole: Seq<char>, part: Seq<char>)
    ensures
        contains_text(whole, part) <==> stands_in(part, whole),
        match find_text(whole, part) {
            Some(at) => {
                &&& 0 <= at && at + part.len() <= whole.len()
                &&& whole.subrange(at, at + part.len()) == part
                &&& forall|k: int|
                    0 <= k < at ==> #[trigger] whole.subrange(k, k + part.len()) != part
            },
            None => true,
        },
    decreases whole.len(),
{
    if part.is_prefix_of(whole) {
        assert(whole.subrange(0, 0int + part.len()) =~= part);
    } else if whole.len() == 0 {
        assert forall|at: int| 0 <= at && at + part.len() <= whole.len() implies
            #[trigger] whole.subrange(at, at + part.len()) != part by {
            assert(part =~= whole);
            assert(part.is_prefix_of(whole));
        }
    } else {
        let rest = whole.drop_first();
        text_is_found_where_it_stands(rest, part);
        assert forall|at: int| 0 < at && at + part.len() <= whole.len() implies
            #[trigger] whole.subrange(at, at + part.len()) =~= rest.subrange(
            at - 1,
            at - 1 + part.len(),
        ) by {}
        assert(part.len() <= whole.len() ==> whole.subrange(0, 0int + part.len()) != part) by {
            if part.len() <= whole.len() && whole.subrange(0, 0int + part.len()) == part {
                assert(part.is_prefix_of(whole)) by {
                    assert(whole.take(part.len() as int) =~= part);
                }
            }
        }
        if stands_in(part, rest) {
            let at = choose|at: int|
                0 <= at && at + part.len() <= rest.len() && #[trigger] rest.subrange(
                    at,
                    at + part.len(),
                ) == part;
            assert(whole.subrange(at + 1, at + 1 + part.len()) =~= part);
        }
        if stands_in(part, whole) {
            let at = choose|at: int|
                0 <= at && at + part.len() <= whole.len() && #[trigger] whole.subrange(
                    at,
                    at + part.len(),
                ) == part;
            assert(at > 0);
            assert(rest.subrange(at - 1, at - 1 + part.len()) == part);
        }
        match find_text(rest, part) {
            Some(at) => {
                assert forall|k: int| 0 <= k < at + 1 implies #[trigger] whole.subrange(
                    k,
                    k + part.len(),
                ) != part by {
                    if k > 0 {
                        assert(rest.subrange(k - 1, k - 1 + part.len()) != part);
                    }
                }
            },
            None => {},
        }
    }
}

/// Among the characters of ASCII, white space is the space and the control characters
/// from the tabulator to the carriage return.
pub proof fn white_space_of_ascii(c: char)
    requires
        (c as u32) < 0x80,
    ensures
        is_white(c) <==> c == ' ' || c == '\t' || c == '\n' || c == '\r' || c as u32 == 0xb
            || c as u32 == 0xc,
{
    let code = c as u32;
    if code == 0x20 {
        assert(c == ' ');
    }
    if code == 0x9 {
        assert(c == '\t');
    }
    if code == 0xa {
        assert(c == '\n');
    }
    if code == 0xd {
        assert(c == '\r');
    }
}

proof fn lemma_trim_start(s: Seq<char>) -> (from: int)
    ensures
        0 <= from <= s.len(),
        trim_start(s) == s.subrange(from, s.len() as int),
        forall|k: int| 0 <= k < from ==> is_white(#[trigger] s[k]),
        from < s.len() ==> !is_white(s[from]),
    decreases s.len(),
{
    if s.len() > 0 && is_white(s[0]) {
        let rest = s.drop_first();
        let from = lemma_trim_start(rest);
        assert(rest.subrange(from, rest.len() as int) =~= s.subrange(from + 1, s.len() as int));
        assert forall|k: int| 0 <= k < from + 1 implies is_white(#[trigger] s[k]) by {
            if k > 0 {
                assert(rest[k - 1] == s[k]);
            }
        }
        from + 1
    } else {
        assert(s.subrange(0, s.len() as int) =~= s);
        0
    }
}

proof fn lemma_trim_end(s: Seq<char>) -> (to: int)
    ensures
        0 <= to <= s.len(),
        trim_end(s) == s.subrange(0, to),
        forall|k: int| to <= k < s.len() ==> is_white(#[trigger] s[k]),
        to > 0 ==> !is_white(s[to - 1]),
    decreases s.len(),
{
    if s.len() > 0 && is_white(s.last()) {
        let rest = s.drop_last();
        let to = lemma_trim_end(rest);
        assert(rest.subrange(0, to) =~= s.subrange(0, to));
        assert forall|k: int| to <= k < s.len() implies is_white(#[trigger] s[k]) by {
            if k < rest.len() {
                assert(rest[k] == s[k]);
            }
        }
        to
    } else {
        assert(s.subrange(0, s.len() as int) =~= s);
        s.len() as int
    }
}

/// Trimming takes the white space around a text away, all of it and nothing else.
pub proof fn trimming_takes_only_the_white_space_around(s: Seq<char>)
    ensures
        exists|from: int, to: int|
            0 <= from <= to <= s.len() && trimmed(s) == #[trigger] s.subrange(from, to) && (
            forall|k: int| 0 <= k < from || to <= k < s.len() ==> is_white(#[trigger] s[k])),
        trimmed(s).len() > 0 ==> !is_white(trimmed(s)[0]) && !is_white(trimmed(s).last()),
        trimmed(s).len() == 0 <==> (forall|k: int| 0 <= k < s.len() ==> is_white(#[trigger] s[k])),
        s.len() > 0 && !is_white(s[0]) && !is_white(s.last()) ==> trimmed(s) == s,
{
    let from = lemma_trim_start(s);
    let rest = s.subrange(from, s.len() as int);
    let cut = lemma_trim_end(rest);
    let to = from + cut;
    assert(rest.subrange(0, cut) =~= s.subrange(from, to));
    assert forall|k: int| 0 <= k < from || to <= k < s.len() implies is_white(#[trigger] s[k]) by {
        if k >= to {
            assert(rest[k - from] == s[k]);
        }
    }
    if cut > 0 {
        assert(rest[cut - 1] == s[to - 1]);
        assert(rest[0] == s[from]);
        assert(!is_white(s[from]));
    } else {
        assert forall|k: int| 0 <= k < s.len() implies is_white(#[trigger] s[k]) by {
            if k >= from {
                assert(rest[k - from] == s[k]);
            }
        }
    }
    if s.len() > 0 && !is_white(s[0]) && !is_white(s.last()) {
        assert(from == 0);
        assert(rest =~= s);
        assert(to == s.len()) by {
            if to < s.len() {
                assert(is_white(s[s.len() - 1]));
            }
        }
        assert(s.subrange(0, s.len() as int) =~= s);
    }
}

proof fn lemma_prefix_longest(s: Seq<char>, max: nat)
    ensures
        prefix_within(s, max).len() < s.len() ==> byte_len(
            s.take(1 + prefix_within(s, max).len() as int),
        ) > max,
    decreases s.len(),
{
    lemma_prefix_within(s, max);
    if s.len() > 0 {
        let rest = s.drop_first();
        if char_width(s[0]) > max {
            let first = s.take(1);
            lemma_encode_first(first);
            assert(first[0] == s[0]);
        } else {
            let left = (max - char_width(s[0])) as nat;
            lemma_prefix_longest(rest, left);
            let n = prefix_within(rest, left).len() as int;
            assert(prefix_within(s, max).len() == n + 1);
            if n < rest.len() {
                let longer = s.take(n + 2);
                lemma_encode_first(longer);
                assert(longer[0] == s[0]);
                assert(longer.drop_first() =~= rest.take(n + 1));
            }
        }
    }
}

/// A bounded start of a text is the longest that fits: it starts where the text starts,
/// one character more would be too much, and a text that fits is kept whole.
pub proof fn bounded_start_is_the_longest(s: Seq<char>, max: nat)
    ensures
        byte_len(prefix_within(s, max)) <= max,
        prefix_within(s, max).len() <= s.len(),
        prefix_within(s, max) == s.take(prefix_within(s, max).len() as int),
        prefix_within(s, max).len() < s.len() ==> byte_len(
            s.take(1 + prefix_within(s, max).len() as int),
        ) > max,
        byte_len(s) <= max <==> prefix_within(s, max) == s,
{
    lemma_prefix_within(s, max);
    lemma_prefix_longest(s, max);
}

proof fn lemma_skip_shortest(s: Seq<char>, count: nat)
    requires
        0 < count <= byte_len(s),
    ensures
        skip_bytes(s, count).len() < s.len(),
        byte_len(s.skip(s.len() - skip_bytes(s, count).len() - 1)) + count > byte_len(s),
    decreases s.len(),
{
    assert(s.len() > 0) by {
        if s.len() == 0 {
            assert(s =~= Seq::<char>::empty());
        }
    }
    lemma_encode_first(s);
    lemma_char_width(s[0]);
    lemma_skip_bytes(s, count);
    let rest = s.drop_first();
    if count <= char_width(s[0]) {
        assert(s.skip(0) =~= s);
    } else {
        let less = (count - char_width(s[0])) as nat;
        lemma_skip_shortest(rest, less);
        let kept = skip_bytes(rest, less).len();
        assert(rest.skip(rest.len() - kept - 1) =~= s.skip(s.len() - kept - 1));
    }
}

/// A bounded end of a text is the longest that fits: it ends where the text ends, one
/// character more would be too much, and a text that fits is kept whole.
pub proof fn bounded_end_is_the_longest(s: Seq<char>, max: nat)
    ensures
        byte_len(suffix_within(s, max)) <= max,
        suffix_within(s, max).len() <= s.len(),
        suffix_within(s, max) == s.skip(s.len() - suffix_within(s, max).len()),
        suffix_within(s, max).len() < s.len() ==> byte_len(
            s.skip(s.len() - suffix_within(s, max).len() - 1),
        ) > max,
        byte_len(s) <= max <==> suffix_within(s, max) == s,
{
    lemma_suffix_within(s, max);
    if byte_len(s) > max {
        lemma_skip_shortest(s, (byte_len(s) - max) as nat);
    }
}

/// Diagnostic text keeps its newest part: all of it where it fits, and else the longest
/// end that does, with the mark that something is missing.
pub proof fn details_keep_their_newest_part(value: Seq<char>, max: nat)
    ensures
        bounded_detail(value, max).1 <==> byte_len(value) > max,
        byte_len(value) <= max ==> bounded_detail(value, max).0 == value,
        byte_len(bounded_detail(value, max).0) <= max,
        ({
            let kept = bounded_detail(value, max).0;
            &&& kept.len() <= value.len()
            &&& kept == value.skip(value.len() - kept.len())
            &&& kept.len() < value.len() ==> byte_len(value.skip(value.len() - kept.len() - 1)) > max
        }),
{
    bounded_end_is_the_longest(value, max);
}

/// Text that grows holds what it held and then what is added, as long as that fits; what
/// does not fit goes from its front, and every byte is either held or counted as dropped.
pub proof fn growing_text_loses_only_its_front(text: BoundedTextView, delta: Seq<char>)
    requires
        text.wf(),
    ensures
        ({
            let grown = text.appended(delta);
            let whole = text.text + delta;
            &&& grown.max_bytes == text.max_bytes
            &&& byte_len(whole) <= text.max_bytes ==> grown.text == whole && grown.dropped_bytes
                == text.dropped_bytes
            &&& grown.text.len() <= whole.len()
            &&& grown.text == whole.skip(whole.len() - grown.text.len())
            &&& byte_len(grown.text) <= text.max_bytes
            &&& text.dropped_bytes + byte_len(whole) <= u64::MAX ==> grown.dropped_bytes + byte_len(
                grown.text,
            ) == text.dropped_bytes + byte_len(text.text) + byte_len(delta)
        }),
{
    let whole = text.text + delta;
    bounded_end_is_the_longest(whole, text.max_bytes);
    lemma_encode_concat(text.text, delta);
}

/// Text that is replaced holds the new text alone, as long as that fits; else its end.
/// What was held or dropped before does not matter.
pub proof fn replaced_text_forgets_what_it_held(
    text: BoundedTextView,
    other: BoundedTextView,
    value: Seq<char>,
)
    requires
        text.max_bytes == other.max_bytes,
    ensures
        ({
            let replaced = text.replaced(value);
            &&& replaced == other.replaced(value)
            &&& replaced.max_bytes == text.max_bytes
            &&& byte_len(value) <= text.max_bytes ==> replaced.text == value
                && replaced.dropped_bytes == 0
            &&& replaced.text.len() <= value.len()
            &&& replaced.text == value.skip(value.len() - replaced.text.len())
            &&& byte_len(replaced.text) <= text.max_bytes
            &&& byte_len(value) <= u64::MAX ==> replaced.dropped_bytes + byte_len(replaced.text)
                == byte_len(value)
        }),
{
    bounded_end_is_the_longest(value, text.max_bytes);
}

/// Dropping old bytes leaves the end of a text, and counts what went.
pub proof fn dropped_bytes_are_counted(text: BoundedTextView, count: nat)
    ensures
        ({
            let left = text.without_oldest(count);
            &&& left.max_bytes == text.max_bytes
            &&& left.text.len() <= text.text.len()
            &&& left.text == text.text.skip(text.text.len() - left.text.len())
            &&& count <= byte_len(text.text) ==> byte_len(left.text) + count <= byte_len(text.text)
            &&& count >= byte_len(text.text) ==> left.text.len() == 0
            &&& text.dropped_bytes + byte_len(text.text) <= u64::MAX ==> left.dropped_bytes
                + byte_len(left.text) == text.dropped_bytes + byte_len(text.text)
        }),
{
    lemma_skip_bytes(text.text, count);
}

/// Counters stop at their largest value instead of starting again.
pub proof fn counters_stop_at_their_largest_value(a: u64, b: u64)
    ensures
        a + b <= u64::MAX ==> sat_add_u64(a, b) == a + b,
        a + b > u64::MAX ==> sat_add_u64(a, b) == u64::MAX,
{
}

} // verus!
