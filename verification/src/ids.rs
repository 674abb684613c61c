//! Identities of runs, projects and requests.
use vstd::prelude::*;
use vstd::string::*;

use crate::digest::{hex_char, hex_digit};
use crate::keyed::{order_text, text_before, KeyOrder, OrderedKey};
use crate::text::same_text;

verus! {

/// Identity of one live run.
#[derive(Clone, Copy, Debug, PartialEq, Eq, Hash, Structural)]
pub struct RunId {
    pub value: u128,
}

/// Identity of a project, independent of where a run of it executes.
#[derive(Clone, Copy, Debug, PartialEq, Eq, Hash, Structural)]
pub struct ProjectId {
    pub value: u128,
}

/// Identity of one planned or created worktree.
#[derive(Clone, Copy, Debug, PartialEq, Eq, Hash, Structural)]
pub struct WorktreeId {
    pub value: u128,
}

/// Identity of one supervision.
#[derive(Clone, Copy, Debug, PartialEq, Eq, Hash, Structural)]
pub struct SupervisionId {
    pub value: u128,
}

/// Identity of one image attached to a draft.
#[derive(Clone, Copy, Debug, PartialEq, Eq, Hash, Structural)]
pub struct DraftImageId {
    pub value: u128,
}

impl View for RunId {
    type V = RunId;

    open spec fn view(&self) -> RunId {
        *self
    }
}

impl OrderedKey for RunId {
    type Model = RunId;

    open spec fn model(&self) -> RunId {
        *self
    }

    open spec fn before(a: RunId, b: RunId) -> bool {
        a.value < b.value
    }

    proof fn order_is_total(a: RunId, b: RunId) {
    }

    proof fn order_is_transitive(a: RunId, b: RunId, c: RunId) {
    }

    fn order(&self, other: &RunId) -> (r: KeyOrder) {
        if self.value < other.value {
            KeyOrder::Before
        } else if self.value == other.value {
            KeyOrder::Same
        } else {
            KeyOrder::After
        }
    }

    fn copy_key(&self) -> (r: RunId) {
        *self
    }
}

impl OrderedKey for WorktreeId {
    type Model = WorktreeId;

    open spec fn model(&self) -> WorktreeId {
        *self
    }

    open spec fn before(a: WorktreeId, b: WorktreeId) -> bool {
        a.value < b.value
    }

    proof fn order_is_total(a: WorktreeId, b: WorktreeId) {
    }

    proof fn order_is_transitive(a: WorktreeId, b: WorktreeId, c: WorktreeId) {
    }

    fn order(&self, other: &WorktreeId) -> (r: KeyOrder) {
        if self.value < other.value {
            KeyOrder::Before
        } else if self.value == other.value {
            KeyOrder::Same
        } else {
            KeyOrder::After
        }
    }

    fn copy_key(&self) -> (r: WorktreeId) {
        *self
    }
}

/// Correlation identity of one request on the wire.
#[derive(Debug, PartialEq, Eq, Hash)]
pub struct RequestId {
    value: String,
}

impl View for RequestId {
    type V = Seq<char>;

    closed spec fn view(&self) -> Seq<char> {
        self.value@
    }
}

impl Clone for RequestId {
    fn clone(&self) -> (r: Self)
        ensures
            r == *self,
    {
        RequestId { value: self.value.clone() }
    }
}

impl RequestId {
    pub fn from_wire(value: &str) -> (r: Self)
        ensures
            r@ == value@,
    {
        RequestId { value: value.to_owned() }
    }

    pub fn as_str(&self) -> (r: &str)
        ensures
            r@ == self@,
    {
        self.value.as_str()
    }

    /// Whether both are the same identity.
    pub fn same(&self, other: &RequestId) -> (r: bool)
        ensures
            r == (self@ == other@),
    {
        same_text(self.value.as_str(), other.value.as_str())
    }
}

impl OrderedKey for RequestId {
    type Model = Seq<char>;

    open spec fn model(&self) -> Seq<char> {
        self@
    }

    open spec fn before(a: Seq<char>, b: Seq<char>) -> bool {
        text_before(a, b)
    }

    proof fn order_is_total(a: Seq<char>, b: Seq<char>) {
        <String as OrderedKey>::order_is_total(a, b);
    }

    proof fn order_is_transitive(a: Seq<char>, b: Seq<char>, c: Seq<char>) {
        <String as OrderedKey>::order_is_transitive(a, b, c);
    }

    fn order(&self, other: &RequestId) -> (r: KeyOrder) {
        order_text(self.value.as_str(), other.value.as_str())
    }

    fn copy_key(&self) -> (r: RequestId) {
        self.clone()
    }
}

/// The lowest `count` hexadecimal digits of a number.
pub open spec fn low_digits(value: nat, count: nat) -> Seq<char>
    decreases count,
{
    if count == 0 {
        Seq::empty()
    } else {
        low_digits(value / 16, (count - 1) as nat).push(hex_digit(value % 16))
    }
}

/// The text of an identity: its 32 hexadecimal digits.
pub open spec fn id_digits(value: u128) -> Seq<char> {
    low_digits(value as nat, 32)
}

fn write_digits(value: u128, count: usize) -> (r: String)
    ensures
        r@ == low_digits(value as nat, count as nat),
    decreases count,
{
    if count == 0 {
        let r = String::new();
        assert(r@ =~= Seq::<char>::empty());
        return r;
    }
    let mut r = write_digits(value / 16, count - 1);
    r.push(hex_char((value % 16) as u8));
    r
}

/// Writes an identity.
pub fn id_text(value: u128) -> (r: String)
    ensures
        r@ == id_digits(value),
{
    write_digits(value, 32)
}

} // verus!
