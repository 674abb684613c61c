//! UTF-8 text measured in bytes and cut only between characters.
use vstd::prelude::*;
use vstd::string::*;
use vstd::utf8::*;

verus! {

/// Number of bytes in the UTF-8 encoding of `s`.
pub open spec fn byte_len(s: Seq<char>) -> nat {
    encode_utf8(s).len()
}

/// Number of bytes in the UTF-8 encoding of one character.
pub open spec fn char_width(c: char) -> nat {
    encode_scalar(c as u32).len()
}

/// What is left of `s` once whole characters holding at least `count` bytes
/// (all of them, where `s` is shorter) have been taken from its front.
pub open spec fn skip_bytes(s: Seq<char>, count: nat) -> Seq<char>
    decreases s.len(),
{
    if count == 0 || s.len() == 0 {
        s
    } else if count <= char_width(s[0]) {
        s.drop_first()
    } else {
        skip_bytes(s.drop_first(), (count - char_width(s[0])) as nat)
    }
}

/// The longest suffix of `s` that encodes to at most `max` bytes.
pub open spec fn suffix_within(s: Seq<char>, max: nat) -> Seq<char> {
    if byte_len(s) <= max {
        s
    } else {
        skip_bytes(s, (byte_len(s) - max) as nat)
    }
}

/// The longest prefix of `s` that encodes to at most `max` bytes.
pub open spec fn prefix_within(s: Seq<char>, max: nat) -> Seq<char>
    decreases s.len(),
{
    if s.len() == 0 || char_width(s[0]) > max {
        Seq::empty()
    } else {
        seq![s[0]] + prefix_within(s.drop_first(), (max - char_width(s[0])) as nat)
    }
}

pub open spec fn sat_add_usize(a: usize, b: usize) -> usize {
    if a + b > usize::MAX {
        usize::MAX
    } else {
        (a + b) as usize
    }
}

pub open spec fn sat_add_u64(a: u64, b: u64) -> u64 {
    if a + b > u64::MAX {
        u64::MAX
    } else {
        (a + b) as u64
    }
}

pub open spec fn sat_sub_usize(a: usize, b: usize) -> usize {
    if a >= b {
        (a - b) as usize
    } else {
        0
    }
}

pub proof fn lemma_char_width(c: char)
    ensures
        1 <= char_width(c) <= 4,
{
}

pub proof fn lemma_encode_first(s: Seq<char>)
    requires
        s.len() > 0,
    ensures
        encode_utf8(s) == encode_scalar(s[0] as u32) + encode_utf8(s.drop_first()),
        valid_utf8(encode_utf8(s)),
        valid_utf8(encode_utf8(s.drop_first())),
        length_of_first_scalar(encode_utf8(s)) == char_width(s[0]),
        pop_first_scalar(encode_utf8(s)) == encode_utf8(s.drop_first()),
        byte_len(s) == char_width(s[0]) + byte_len(s.drop_first()),
        byte_len(s) > 0,
{
    encode_utf8_valid_utf8(s);
    encode_utf8_valid_utf8(s.drop_first());
    encode_utf8_first_scalar(s);
    lemma_char_width(s[0]);
    assert(pop_first_scalar(encode_utf8(s)) =~= encode_utf8(s.drop_first()));
}

pub proof fn lemma_encode_concat(a: Seq<char>, b: Seq<char>)
    ensures
        encode_utf8(a + b) == encode_utf8(a) + encode_utf8(b),
        byte_len(a + b) == byte_len(a) + byte_len(b),
    decreases a.len(),
{
    if a.len() == 0 {
        assert(a + b =~= b);
        assert(encode_utf8(a) + encode_utf8(b) =~= encode_utf8(b));
    } else {
        assert((a + b).drop_first() =~= a.drop_first() + b);
        lemma_encode_concat(a.drop_first(), b);
        assert(encode_utf8(a + b) =~= encode_utf8(a) + encode_utf8(b));
    }
}

/// Two texts with the same encoding are the same text.
pub proof fn lemma_encode_injective(a: Seq<char>, b: Seq<char>)
    requires
        encode_utf8(a) == encode_utf8(b),
    ensures
        a == b,
{
    encode_utf8_decode_utf8(a);
    encode_utf8_decode_utf8(b);
}

/// Dropping from the front takes at least the bytes asked for, while there are
/// any, and leaves a suffix.
pub proof fn lemma_skip_bytes(s: Seq<char>, count: nat)
    ensures
        count <= byte_len(s) ==> byte_len(skip_bytes(s, count)) + count <= byte_len(s),
        byte_len(skip_bytes(s, count)) <= byte_len(s),
        count >= byte_len(s) ==> skip_bytes(s, count).len() == 0,
        skip_bytes(s, count).len() <= s.len(),
        skip_bytes(s, count) == s.skip(s.len() - skip_bytes(s, count).len()),
    decreases s.len(),
{
    if count == 0 || s.len() == 0 {
        assert(s.skip(0) =~= s);
        if s.len() > 0 {
            lemma_encode_first(s);
        }
    } else {
        lemma_encode_first(s);
        lemma_char_width(s[0]);
        let rest = s.drop_first();
        if count <= char_width(s[0]) {
            assert(rest =~= s.skip(1));
            if rest.len() > 0 {
                lemma_encode_first(rest);
            }
        } else {
            lemma_skip_bytes(rest, (count - char_width(s[0])) as nat);
            let kept = skip_bytes(s, count);
            assert(rest.skip(rest.len() - kept.len()) =~= s.skip(s.len() - kept.len()));
        }
    }
}

/// A bounded suffix fits its bound and ends where the text ends.
pub proof fn lemma_suffix_within(s: Seq<char>, max: nat)
    ensures
        byte_len(suffix_within(s, max)) <= max,
        byte_len(suffix_within(s, max)) <= byte_len(s),
        suffix_within(s, max).len() <= s.len(),
        suffix_within(s, max) == s.skip(s.len() - suffix_within(s, max).len()),
{
    if byte_len(s) <= max {
        assert(s.skip(0) =~= s);
    } else {
        lemma_skip_bytes(s, (byte_len(s) - max) as nat);
    }
}

/// A bounded prefix fits its bound and starts where the text starts.
pub proof fn lemma_prefix_within(s: Seq<char>, max: nat)
    ensures
        byte_len(prefix_within(s, max)) <= max,
        prefix_within(s, max).len() <= s.len(),
        prefix_within(s, max) == s.take(prefix_within(s, max).len() as int),
        byte_len(s) <= max ==> prefix_within(s, max) == s,
    decreases s.len(),
{
    if s.len() == 0 || char_width(s[0]) > max {
        assert(s.take(0) =~= Seq::<char>::empty());
        if s.len() > 0 {
            lemma_encode_first(s);
        } else {
            assert(s =~= Seq::<char>::empty());
        }
    } else {
        lemma_encode_first(s);
        let rest = s.drop_first();
        let left = (max - char_width(s[0])) as nat;
        lemma_prefix_within(rest, left);
        let kept = prefix_within(s, max);
        lemma_encode_concat(seq![s[0]], prefix_within(rest, left));
        assert(seq![s[0]].drop_first() =~= Seq::<char>::empty());
        lemma_encode_first(seq![s[0]]);
        assert(kept =~= s.take(kept.len() as int));
        if byte_len(s) <= max {
            assert(kept =~= s);
        }
    }
}

proof fn lemma_skip_cut(s: Seq<char>, count: nat, cut: int)
    requires
        count <= cut <= byte_len(s),
        is_char_boundary(encode_utf8(s), cut),
        forall|k: int| count <= k < cut ==> !is_char_boundary(encode_utf8(s), k),
    ensures
        encode_utf8(skip_bytes(s, count)) == encode_utf8(s).subrange(cut, byte_len(s) as int),
    decreases s.len(),
{
    encode_utf8_valid_utf8(s);
    let bytes = encode_utf8(s);
    if count == 0 {
        assert(is_char_boundary(bytes, 0));
        assert(cut == 0);
        assert(bytes.subrange(0, bytes.len() as int) =~= bytes);
    } else if s.len() == 0 {
        assert(false);
    } else {
        lemma_encode_first(s);
        lemma_char_width(s[0]);
        let w = char_width(s[0]) as int;
        let rest = s.drop_first();
        let tail = encode_utf8(rest);
        assert(is_char_boundary(tail, cut - w));
        assert(cut >= w) by {
            reveal_with_fuel(is_char_boundary, 2);
        }
        if count <= w {
            assert(is_char_boundary(tail, 0));
            assert(is_char_boundary(bytes, w));
            assert(cut == w);
            assert(bytes.subrange(cut, bytes.len() as int) =~= tail);
        } else {
            assert forall|k: int| count - w <= k < cut - w implies !is_char_boundary(tail, k) by {
                assert(!is_char_boundary(bytes, k + w));
            }
            lemma_skip_cut(rest, (count - w) as nat, cut - w);
            assert(tail.subrange(cut - w, tail.len() as int) =~= bytes.subrange(
                cut,
                bytes.len() as int,
            ));
        }
    }
}

proof fn lemma_prefix_cut(s: Seq<char>, max: nat, cut: int)
    requires
        0 <= cut <= max,
        cut <= byte_len(s),
        is_char_boundary(encode_utf8(s), cut),
        forall|k: int| cut < k <= max ==> !is_char_boundary(encode_utf8(s), k),
    ensures
        encode_utf8(prefix_within(s, max)) == encode_utf8(s).subrange(0, cut),
    decreases s.len(),
{
    encode_utf8_valid_utf8(s);
    let bytes = encode_utf8(s);
    if s.len() == 0 {
        assert(bytes.subrange(0, cut) =~= Seq::<u8>::empty());
    } else {
        lemma_encode_first(s);
        lemma_char_width(s[0]);
        let w = char_width(s[0]) as int;
        let rest = s.drop_first();
        let tail = encode_utf8(rest);
        if w > max {
            assert(cut == 0) by {
                if cut != 0 {
                    assert(is_char_boundary(tail, cut - w));
                    reveal_with_fuel(is_char_boundary, 2);
                }
            }
            assert(bytes.subrange(0, 0) =~= Seq::<u8>::empty());
        } else {
            assert(is_char_boundary(tail, 0));
            assert(is_char_boundary(bytes, w));
            assert(cut >= w);
            assert(is_char_boundary(tail, cut - w));
            assert forall|k: int| cut - w < k <= max - w implies !is_char_boundary(tail, k) by {
                assert(!is_char_boundary(bytes, k + w));
            }
            lemma_prefix_cut(rest, (max - w) as nat, cut - w);
            let kept = prefix_within(rest, (max - w) as nat);
            lemma_encode_concat(seq![s[0]], kept);
            assert(seq![s[0]].drop_first() =~= Seq::<char>::empty());
            lemma_encode_first(seq![s[0]]);
            assert(encode_utf8(seq![s[0]]) =~= encode_scalar(s[0] as u32));
            assert(encode_utf8(seq![s[0]] + kept) =~= bytes.subrange(0, cut));
        }
    }
}

/// Length of `s` in bytes.
pub fn text_bytes(s: &str) -> (n: usize)
    ensures
        n == byte_len(s@),
{
    s.as_bytes().len()
}

/// Whether two texts are the same.
pub fn same_text(a: &str, b: &str) -> (same: bool)
    ensures
        same == (a@ == b@),
{
    let left = a.as_bytes();
    let right = b.as_bytes();
    proof {
        if a.spec_bytes() == b.spec_bytes() {
            lemma_encode_injective(a@, b@);
        }
    }
    if left.len() != right.len() {
        return false;
    }
    let mut i: usize = 0;
    while i < left.len()
        invariant
            left@ == a.spec_bytes(),
            right@ == b.spec_bytes(),
            left.len() == right.len(),
            i <= left.len(),
            forall|k: int| 0 <= k < i ==> left@[k] == right@[k],
        decreases left.len() - i,
    {
        if left[i] != right[i] {
            return false;
        }
        i += 1;
    }
    assert(left@ =~= right@);
    true
}

/// Copy of `s` without the characters that hold its first `count` bytes.
pub fn skip_leading_bytes(s: &str, count: usize) -> (r: String)
    ensures
        r@ == skip_bytes(s@, count as nat),
{
    let total: usize = text_bytes(s);
    proof {
        encode_utf8_valid_utf8(s@);
        is_char_boundary_start_end_of_seq(s.spec_bytes());
        lemma_skip_bytes(s@, count as nat);
    }
    if count >= total {
        let r = String::new();
        assert(r@ =~= skip_bytes(s@, count as nat));
        return r;
    }
    let mut cut: usize = count;
    while !s.is_char_boundary(cut)
        invariant
            count <= cut <= total,
            total == byte_len(s@),
            valid_utf8(s.spec_bytes()),
            is_char_boundary(s.spec_bytes(), total as int),
            forall|k: int| count <= k < cut ==> !is_char_boundary(s.spec_bytes(), k),
        decreases total - cut,
    {
        cut += 1;
    }
    let parts = s.split_at(cut);
    proof {
        lemma_skip_cut(s@, count as nat, cut as int);
        lemma_encode_injective(parts.1@, skip_bytes(s@, count as nat));
    }
    parts.1.to_owned()
}

/// Copy of the longest suffix of `s` that fits in `max` bytes.
pub fn keep_suffix(s: &str, max: usize) -> (r: String)
    ensures
        r@ == suffix_within(s@, max as nat),
{
    let total: usize = text_bytes(s);
    if total <= max {
        s.to_owned()
    } else {
        skip_leading_bytes(s, total - max)
    }
}

/// Copy of the longest prefix of `s` that fits in `max` bytes.
pub fn keep_prefix(s: &str, max: usize) -> (r: String)
    ensures
        r@ == prefix_within(s@, max as nat),
{
    let total: usize = text_bytes(s);
    proof {
        encode_utf8_valid_utf8(s@);
        is_char_boundary_start_end_of_seq(s.spec_bytes());
        lemma_prefix_within(s@, max as nat);
    }
    if total <= max {
        return s.to_owned();
    }
    let mut cut: usize = max;
    while !s.is_char_boundary(cut)
        invariant
            cut <= max < total,
            total == byte_len(s@),
            valid_utf8(s.spec_bytes()),
            is_char_boundary(s.spec_bytes(), 0),
            forall|k: int| cut < k <= max ==> !is_char_boundary(s.spec_bytes(), k),
        decreases cut,
    {
        cut -= 1;
    }
    let parts = s.split_at(cut);
    proof {
        lemma_prefix_cut(s@, max as nat, cut as int);
        lemma_encode_injective(parts.0@, prefix_within(s@, max as nat));
    }
    parts.0.to_owned()
}

/// `a` followed by `b`.
pub fn join(a: &str, b: &str) -> (r: String)
    ensures
        r@ == a@ + b@,
{
    let mut r = a.to_owned();
    r.append(b);
    r
}

/// `String::push`: the character stands at the end of the text.
pub assume_specification[ String::push ](text: &mut String, c: char)
    ensures
        final(text)@ == old(text)@.push(c),
;

/// The characters of `s` in a vector.
pub fn chars_of(s: &str) -> (r: Vec<char>)
    ensures
        r@ == s@,
{
    let mut r: Vec<char> = Vec::new();
    for c in it: s.chars()
        invariant
            r@ == it.seq().take(it.index() as int),
            it.seq() == s@,
    {
        r.push(c);
        assert(it.seq().take(it.index() + 1) =~= it.seq().take(it.index() as int).push(c));
    }
    assert(s@.take(s@.len() as int) =~= s@);
    r
}

/// The text made of `chars[from..to]`.
pub fn text_of(chars: &[char], from: usize, to: usize) -> (r: String)
    requires
        from <= to <= chars@.len(),
    ensures
        r@ == chars@.subrange(from as int, to as int),
{
    let mut r = String::new();
    let mut i: usize = from;
    assert(r@ =~= chars@.subrange(from as int, from as int));
    while i < to
        invariant
            from <= i <= to <= chars@.len(),
            r@ == chars@.subrange(from as int, i as int),
        decreases to - i,
    {
        r.push(chars[i]);
        i += 1;
        assert(chars@.subrange(from as int, i as int) =~= chars@.subrange(
            from as int,
            i - 1,
        ).push(chars@[i - 1]));
    }
    r
}

/// A copy of a list of texts.
pub fn copy_texts(values: &Vec<String>) -> (r: Vec<String>)
    ensures
        r@ == values@,
{
    let mut r: Vec<String> = Vec::new();
    let mut i: usize = 0;
    while i < values.len()
        invariant
            i <= values@.len(),
            r@ =~= values@.take(i as int),
        decreases values@.len() - i,
    {
        r.push(values[i].clone());
        i += 1;
    }
    assert(r@ =~= values@);
    r
}

/// Unicode white space.
pub open spec fn is_white(c: char) -> bool {
    let code = c as u32;
    ||| 0x9 <= code <= 0xd
    ||| code == 0x20
    ||| code == 0x85
    ||| code == 0xa0
    ||| code == 0x1680
    ||| 0x2000 <= code <= 0x200a
    ||| code == 0x2028
    ||| code == 0x2029
    ||| code == 0x202f
    ||| code == 0x205f
    ||| code == 0x3000
}

/// `s` without the white space at its start.
pub open spec fn trim_start(s: Seq<char>) -> Seq<char>
    decreases s.len(),
{
    if s.len() > 0 && is_white(s[0]) {
        trim_start(s.drop_first())
    } else {
        s
    }
}

/// `s` without the white space at its end.
pub open spec fn trim_end(s: Seq<char>) -> Seq<char>
    decreases s.len(),
{
    if s.len() > 0 && is_white(s.last()) {
        trim_end(s.drop_last())
    } else {
        s
    }
}

/// `s` without the white space around it.
pub open spec fn trimmed(s: Seq<char>) -> Seq<char> {
    trim_end(trim_start(s))
}

pub fn white(c: char) -> (r: bool)
    ensures
        r == is_white(c),
{
    let code: u32 = c as u32;
    (0x9 <= code && code <= 0xd) || code == 0x20 || code == 0x85 || code == 0xa0 || code == 0x1680
        || (0x2000 <= code && code <= 0x200a) || code == 0x2028 || code == 0x2029 || code == 0x202f
        || code == 0x205f || code == 0x3000
}

/// The position at which `chars` goes on after its leading white space.
pub fn skip_white(chars: &Vec<char>, from: usize) -> (at: usize)
    requires
        from <= chars@.len(),
    ensures
        from <= at <= chars@.len(),
        chars@.skip(at as int) == trim_start(chars@.skip(from as int)),
        at < chars@.len() ==> !is_white(chars@[at as int]),
{
    let mut at: usize = from;
    while at < chars.len() && white(chars[at])
        invariant
            from <= at <= chars@.len(),
            trim_start(chars@.skip(at as int)) == trim_start(chars@.skip(from as int)),
        decreases chars@.len() - at,
    {
        assert(chars@.skip(at as int).drop_first() =~= chars@.skip(at + 1));
        assert(chars@.skip(at as int)[0] == chars@[at as int]);
        at += 1;
    }
    assert(at < chars@.len() ==> chars@.skip(at as int)[0] == chars@[at as int]);
    at
}

/// Copy of a text without the white space around it.
pub fn trim_text(s: &str) -> (r: String)
    ensures
        r@ == trimmed(s@),
{
    let chars = chars_of(s);
    let start: usize = skip_white(&chars, 0);
    assert(s@.skip(0) =~= s@);
    let ghost rest = chars@.skip(start as int);
    let mut end: usize = chars.len();
    assert(chars@.subrange(start as int, end as int) =~= rest);
    while end > start && white(chars[end - 1])
        invariant
            start <= end <= chars@.len(),
            rest == chars@.skip(start as int),
            trim_end(chars@.subrange(start as int, end as int)) == trim_end(rest),
        decreases end,
    {
        assert(chars@.subrange(start as int, end as int).drop_last() =~= chars@.subrange(
            start as int,
            end - 1,
        ));
        end -= 1;
    }
    text_of(chars.as_slice(), start, end)
}

/// The first position at which `needle` stands in `s`.
pub open spec fn find_text(s: Seq<char>, needle: Seq<char>) -> Option<int>
    decreases s.len(),
{
    if needle.is_prefix_of(s) {
        Some(0int)
    } else if s.len() == 0 {
        None
    } else {
        match find_text(s.drop_first(), needle) {
            Some(i) => Some(i + 1),
            None => None,
        }
    }
}

/// Whether `needle` stands in `s`.
pub open spec fn contains_text(s: Seq<char>, needle: Seq<char>) -> bool {
    find_text(s, needle) is Some
}

/// Whether `needle` stands in `chars` at position `at`.
pub fn stands_at(chars: &Vec<char>, at: usize, needle: &Vec<char>) -> (r: bool)
    requires
        at <= chars@.len(),
    ensures
        r == needle@.is_prefix_of(chars@.skip(at as int)),
{
    let total: usize = chars.len();
    if needle.len() > total - at {
        return false;
    }
    let mut k: usize = 0;
    while k < needle.len()
        invariant
            at + needle@.len() <= total == chars@.len(),
            k <= needle@.len(),
            forall|m: int| 0 <= m < k ==> needle@[m] == chars@.skip(at as int)[m],
        decreases needle@.len() - k,
    {
        assert(chars@.skip(at as int)[k as int] == chars@[at + k]);
        if needle[k] != chars[at + k] {
            return false;
        }
        k += 1;
    }
    assert(needle@ =~= chars@.skip(at as int).take(needle@.len() as int));
    true
}

/// Finds the first position, from `from` on, at which `needle` stands.
pub fn find_chars(chars: &Vec<char>, from: usize, needle: &Vec<char>) -> (r: Option<usize>)
    requires
        from <= chars@.len(),
    ensures
        match r {
            Some(at) => from <= at && at + needle@.len() <= chars@.len() && find_text(
                chars@.skip(from as int),
                needle@,
            ) == Some(at - from),
            None => find_text(chars@.skip(from as int), needle@) is None,
        },
{
    let mut at: usize = from;
    loop
        invariant
            from <= at <= chars@.len(),
            find_text(chars@.skip(from as int), needle@) == (match find_text(
                chars@.skip(at as int),
                needle@,
            ) {
                Some(i) => Some(i + (at - from)),
                None => None,
            }),
        decreases chars@.len() - at,
    {
        if stands_at(chars, at, needle) {
            return Some(at);
        }
        if at == chars.len() {
            return None;
        }
        assert(chars@.skip(at as int).drop_first() =~= chars@.skip(at + 1));
        at += 1;
    }
}

/// Whether `needle` stands in `s`.
pub fn has_text(s: &str, needle: &str) -> (r: bool)
    ensures
        r == contains_text(s@, needle@),
{
    let chars = chars_of(s);
    let wanted = chars_of(needle);
    assert(chars@.skip(0) =~= chars@);
    match find_chars(&chars, 0, &wanted) {
        Some(_) => true,
        None => false,
    }
}

/// A copy of an optional text.
pub fn copy_optional(value: &Option<String>) -> (r: Option<String>)
    ensures
        r == *value,
{
    match value {
        Some(text) => Some(text.clone()),
        None => None,
    }
}

/// The characters of an optional text.
pub open spec fn optional_view(value: Option<String>) -> Option<Seq<char>> {
    match value {
        Some(text) => Some(text@),
        None => None,
    }
}

/// The characters of each text of a list.
pub open spec fn texts_view(values: Seq<String>) -> Seq<Seq<char>> {
    values.map_values(|value: String| value@)
}

/// Whether two lists hold the same texts in the same order.
pub fn same_texts(a: &Vec<String>, b: &Vec<String>) -> (r: bool)
    ensures
        r == (texts_view(a@) == texts_view(b@)),
{
    let ghost left = texts_view(a@);
    let ghost right = texts_view(b@);
    if a.len() != b.len() {
        assert(left.len() != right.len());
        return false;
    }
    let mut i: usize = 0;
    while i < a.len()
        invariant
            i <= a@.len() == b@.len(),
            left == texts_view(a@),
            right == texts_view(b@),
            forall|k: int| 0 <= k < i ==> left[k] == right[k],
        decreases a@.len() - i,
    {
        if !same_text(a[i].as_str(), b[i].as_str()) {
            assert(left[i as int] != right[i as int]);
            return false;
        }
        i += 1;
    }
    assert(left =~= right);
    true
}

/// Whether both are absent, or both there and the same text.
pub fn same_optional(a: &Option<String>, b: &Option<String>) -> (r: bool)
    ensures
        r == (optional_view(*a) == optional_view(*b)),
{
    match (a, b) {
        (Some(a), Some(b)) => same_text(a.as_str(), b.as_str()),
        (None, None) => true,
        _ => false,
    }
}

/// Calls `str::from_utf8`: the text that the bytes encode, where they encode one.
#[verifier::external_body]
pub(crate) fn decode_strict(bytes: &[u8]) -> (r: Option<String>)
    ensures
        match r {
            Some(text) => valid_utf8(bytes@) && text@ == decode_utf8(bytes@),
            None => !valid_utf8(bytes@),
        },
{
    std::str::from_utf8(bytes).ok().map(str::to_owned)
}

} // verus!
