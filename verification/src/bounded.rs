//! Text that keeps only its newest bytes.
use vstd::prelude::*;
use vstd::string::*;

use crate::text::{
    byte_len, keep_suffix, lemma_encode_concat, lemma_skip_bytes, lemma_suffix_within, sat_add_u64,
    skip_bytes, skip_leading_bytes, suffix_within, text_bytes,
};

verus! {

/// Model of a [`BoundedText`].
pub struct BoundedTextView {
    pub text: Seq<char>,
    pub max_bytes: nat,
    pub dropped_bytes: u64,
}

impl BoundedTextView {
    pub open spec fn empty(max_bytes: nat) -> Self {
        BoundedTextView { text: Seq::empty(), max_bytes, dropped_bytes: 0 }
    }

    /// The text never holds more bytes than its bound.
    pub open spec fn wf(self) -> bool {
        byte_len(self.text) <= self.max_bytes
    }

    /// Holding `full`, of which only the newest bytes stay; `before` bytes had
    /// been dropped earlier.
    pub open spec fn holding(max_bytes: nat, full: Seq<char>, before: u64) -> Self {
        let kept = suffix_within(full, max_bytes);
        BoundedTextView {
            text: kept,
            max_bytes,
            dropped_bytes: sat_add_u64(before, (byte_len(full) - byte_len(kept)) as u64),
        }
    }

    pub open spec fn appended(self, delta: Seq<char>) -> Self {
        Self::holding(self.max_bytes, self.text + delta, self.dropped_bytes)
    }

    pub open spec fn replaced(self, value: Seq<char>) -> Self {
        Self::holding(self.max_bytes, value, 0)
    }

    pub open spec fn without_oldest(self, count: nat) -> Self {
        let kept = skip_bytes(self.text, count);
        BoundedTextView {
            text: kept,
            max_bytes: self.max_bytes,
            dropped_bytes: sat_add_u64(
                self.dropped_bytes,
                (byte_len(self.text) - byte_len(kept)) as u64,
            ),
        }
    }
}

/// Text bounded to a number of bytes. What does not fit is dropped from its
/// front, in whole characters, and counted.
#[derive(Debug)]
pub struct BoundedText {
    text: String,
    max_bytes: usize,
    dropped_bytes: u64,
}

impl View for BoundedText {
    type V = BoundedTextView;

    closed spec fn view(&self) -> BoundedTextView {
        BoundedTextView {
            text: self.text@,
            max_bytes: self.max_bytes as nat,
            dropped_bytes: self.dropped_bytes,
        }
    }
}

impl BoundedText {
    /// The text fits its bound.
    #[verifier::type_invariant]
    pub closed spec fn fits(&self) -> bool {
        self@.wf()
    }

    pub fn new(max_bytes: usize) -> (r: Self)
        ensures
            r@ == BoundedTextView::empty(max_bytes as nat),
            r@.wf(),
    {
        let text = String::new();
        assert(text@ =~= Seq::<char>::empty());
        BoundedText { text, max_bytes, dropped_bytes: 0 }
    }

    /// Adds `delta` at the end.
    pub fn append(&mut self, delta: &str)
        ensures
            final(self)@ == old(self)@.appended(delta@),
            final(self)@.wf(),
    {
        let mut full = self.text.clone();
        full.append(delta);
        let kept = keep_suffix(full.as_str(), self.max_bytes);
        let kept_bytes: usize = text_bytes(kept.as_str());
        let full_bytes: usize = text_bytes(full.as_str());
        proof {
            use_type_invariant(&*self);
            lemma_suffix_within(full@, self.max_bytes as nat);
            lemma_encode_concat(self.text@, delta@);
        }
        self.dropped_bytes = self.dropped_bytes.saturating_add((full_bytes - kept_bytes) as u64);
        self.text = kept;
    }

    /// Holds `value` in place of what was there; the count of dropped bytes
    /// starts again.
    pub fn replace(&mut self, value: &str)
        ensures
            final(self)@ == old(self)@.replaced(value@),
            final(self)@.wf(),
    {
        let kept = keep_suffix(value, self.max_bytes);
        let kept_bytes: usize = text_bytes(kept.as_str());
        let full_bytes: usize = text_bytes(value);
        proof {
            use_type_invariant(&*self);
            lemma_suffix_within(value@, self.max_bytes as nat);
        }
        self.dropped_bytes = (full_bytes - kept_bytes) as u64;
        self.text = kept;
    }

    /// Drops whole characters from the front until at least `count` bytes are
    /// gone, and returns how many bytes went.
    pub fn drop_oldest_bytes(&mut self, count: usize) -> (dropped: usize)
        ensures
            final(self)@ == old(self)@.without_oldest(count as nat),
            final(self)@.wf(),
            dropped == byte_len(old(self)@.text) - byte_len(final(self)@.text),
    {
        proof {
            use_type_invariant(&*self);
        }
        let before: usize = text_bytes(self.text.as_str());
        let kept = skip_leading_bytes(self.text.as_str(), count);
        let after: usize = text_bytes(kept.as_str());
        proof {
            lemma_skip_bytes(self.text@, count as nat);
        }
        let dropped: usize = before - after;
        self.dropped_bytes = self.dropped_bytes.saturating_add(dropped as u64);
        self.text = kept;
        dropped
    }

    pub fn as_str(&self) -> (r: &str)
        ensures
            r@ == self@.text,
    {
        self.text.as_str()
    }

    pub fn len_bytes(&self) -> (n: usize)
        ensures
            n == byte_len(self@.text),
            n <= self@.max_bytes,
    {
        proof {
            use_type_invariant(self);
        }
        text_bytes(self.text.as_str())
    }

    pub fn dropped_bytes(&self) -> (n: u64)
        ensures
            n == self@.dropped_bytes,
    {
        self.dropped_bytes
    }

    pub fn max_bytes(&self) -> (n: usize)
        ensures
            n == self@.max_bytes,
    {
        self.max_bytes
    }
}

/// The newest `max_bytes` bytes of `value`, and whether anything was dropped.
pub open spec fn bounded_detail(value: Seq<char>, max_bytes: nat) -> (Seq<char>, bool) {
    (suffix_within(value, max_bytes), byte_len(value) > max_bytes)
}

/// Bounds a piece of diagnostic text to its newest bytes.
pub fn bound_detail(value: &str, max_bytes: usize) -> (r: (String, bool))
    ensures
        (r.0@, r.1) == bounded_detail(value@, max_bytes as nat),
        byte_len(r.0@) <= max_bytes,
{
    let total: usize = text_bytes(value);
    let mut bounded = BoundedText::new(max_bytes);
    bounded.replace(value);
    proof {
        lemma_suffix_within(value@, max_bytes as nat);
    }
    assert(total == byte_len(value@));
    (bounded.as_str().to_owned(), bounded.dropped_bytes() > 0)
}

} // verus!
