//! Bounded hot data of the part of a run that is streaming now.
use vstd::prelude::*;
use vstd::string::*;

use crate::bounded::{BoundedText, BoundedTextView};
use crate::ids::RequestId;
use crate::keyed::{strictly_ordered, KeyMap, OrderedKey};
use crate::limits::RuntimeLimits;
use crate::text::{
    byte_len, keep_suffix, lemma_skip_bytes, lemma_suffix_within, skip_bytes, suffix_within,
};

verus! {

#[derive(Clone, Copy, Debug, PartialEq, Eq, Structural)]
pub enum AssistantContentKind {
    Text,
    Thinking,
    ToolCall,
}

/// One content block of the assistant message that is streaming.
#[derive(Debug)]
pub struct AssistantContentBlock {
    pub content_index: usize,
    pub kind: AssistantContentKind,
    pub content: BoundedText,
    pub complete: bool,
}

/// Model of an [`AssistantContentBlock`].
pub struct AssistantContentBlockView {
    pub content_index: usize,
    pub kind: AssistantContentKind,
    pub content: BoundedTextView,
    pub complete: bool,
}

impl View for AssistantContentBlock {
    type V = AssistantContentBlockView;

    open spec fn view(&self) -> AssistantContentBlockView {
        AssistantContentBlockView {
            content_index: self.content_index,
            kind: self.kind,
            content: self.content@,
            complete: self.complete,
        }
    }
}

/// Bytes that the blocks hold together.
pub open spec fn total_bytes(blocks: Seq<AssistantContentBlockView>) -> nat
    decreases blocks.len(),
{
    if blocks.len() == 0 {
        0
    } else {
        byte_len(blocks[0].content.text) + total_bytes(blocks.drop_first())
    }
}

/// The blocks once `excess` bytes, at least, have been dropped from the oldest
/// text of the first blocks.
pub open spec fn trimmed(blocks: Seq<AssistantContentBlockView>, excess: nat) -> Seq<
    AssistantContentBlockView,
>
    decreases blocks.len(),
{
    if blocks.len() == 0 || excess == 0 {
        blocks
    } else {
        let first = AssistantContentBlockView {
            content: blocks[0].content.without_oldest(excess),
            ..blocks[0]
        };
        let dropped = byte_len(blocks[0].content.text) - byte_len(first.content.text);
        let left = if dropped >= excess {
            0
        } else {
            (excess - dropped) as nat
        };
        seq![first] + trimmed(blocks.drop_first(), left)
    }
}

/// The blocks trimmed to `max` bytes together.
pub open spec fn within_budget(blocks: Seq<AssistantContentBlockView>, max: nat) -> Seq<
    AssistantContentBlockView,
> {
    if total_bytes(blocks) <= max {
        blocks
    } else {
        trimmed(blocks, (total_bytes(blocks) - max) as nat)
    }
}

/// The blocks with one more, in the order of the content indices.
pub open spec fn with_block(
    blocks: Seq<AssistantContentBlockView>,
    block: AssistantContentBlockView,
) -> Seq<AssistantContentBlockView>
    decreases blocks.len(),
{
    if blocks.len() == 0 || block.content_index < blocks[0].content_index {
        seq![block] + blocks
    } else {
        seq![blocks[0]] + with_block(blocks.drop_first(), block)
    }
}

pub open spec fn has_block(blocks: Seq<AssistantContentBlockView>, content_index: usize) -> bool {
    exists|i: int| 0 <= i < blocks.len() && (#[trigger] blocks[i]).content_index == content_index
}

/// The position of the block with this content index.
pub open spec fn block_position(
    blocks: Seq<AssistantContentBlockView>,
    content_index: usize,
) -> int {
    choose|i: int|
        0 <= i < blocks.len() && (#[trigger] blocks[i]).content_index == content_index
}

/// Content indices strictly increase, and the blocks fit `max` bytes together.
pub open spec fn blocks_wf(blocks: Seq<AssistantContentBlockView>, max: nat) -> bool {
    &&& forall|i: int, j: int|
        0 <= i < j < blocks.len() ==> (#[trigger] blocks[i]).content_index < (
        #[trigger] blocks[j]).content_index
    &&& forall|i: int|
        0 <= i < blocks.len() ==> (#[trigger] blocks[i]).content.max_bytes == max
            && blocks[i].content.wf()
    &&& total_bytes(blocks) <= max
}

proof fn lemma_total_update(
    blocks: Seq<AssistantContentBlockView>,
    at: int,
    block: AssistantContentBlockView,
)
    requires
        0 <= at < blocks.len(),
    ensures
        total_bytes(blocks.update(at, block)) + byte_len(blocks[at].content.text) == total_bytes(
            blocks,
        ) + byte_len(block.content.text),
    decreases blocks.len(),
{
    if at == 0 {
        assert(blocks.update(0, block).drop_first() =~= blocks.drop_first());
    } else {
        assert(blocks.update(at, block).drop_first() =~= blocks.drop_first().update(at - 1, block));
        lemma_total_update(blocks.drop_first(), at - 1, block);
    }
}

proof fn lemma_total_concat(
    a: Seq<AssistantContentBlockView>,
    b: Seq<AssistantContentBlockView>,
)
    ensures
        total_bytes(a + b) == total_bytes(a) + total_bytes(b),
    decreases a.len(),
{
    if a.len() == 0 {
        assert(a + b =~= b);
    } else {
        assert((a + b).drop_first() =~= a.drop_first() + b);
        lemma_total_concat(a.drop_first(), b);
    }
}

pub(crate) proof fn lemma_with_block(
    blocks: Seq<AssistantContentBlockView>,
    block: AssistantContentBlockView,
    at: int,
)
    requires
        0 <= at <= blocks.len(),
        forall|i: int|
            0 <= i < at ==> (#[trigger] blocks[i]).content_index < block.content_index,
        forall|i: int|
            at <= i < blocks.len() ==> block.content_index < (#[trigger] blocks[i]).content_index,
    ensures
        with_block(blocks, block) == blocks.insert(at, block),
        total_bytes(with_block(blocks, block)) == total_bytes(blocks) + byte_len(
            block.content.text,
        ),
    decreases blocks.len(),
{
    if at == 0 {
        assert(seq![block] + blocks =~= blocks.insert(0, block));
        assert((seq![block] + blocks).drop_first() =~= blocks);
    } else {
        let rest = blocks.drop_first();
        assert forall|i: int| 0 <= i < at - 1 implies (#[trigger] rest[i]).content_index
            < block.content_index by {
            assert(rest[i] == blocks[i + 1]);
        }
        assert forall|i: int| at - 1 <= i < rest.len() implies block.content_index < (
        #[trigger] rest[i]).content_index by {
            assert(rest[i] == blocks[i + 1]);
        }
        assert(blocks[0].content_index < block.content_index);
        lemma_with_block(rest, block, at - 1);
        assert(with_block(blocks, block) =~= blocks.insert(at, block));
        assert(with_block(blocks, block).drop_first() =~= with_block(rest, block));
    }
}

/// Trimming keeps every block, and drops what it is asked to.
pub proof fn lemma_trimmed(blocks: Seq<AssistantContentBlockView>, excess: nat)
    ensures
        trimmed(blocks, excess).len() == blocks.len(),
        forall|i: int|
            #![trigger trimmed(blocks, excess)[i]]
            0 <= i < blocks.len() ==> {
                let t = trimmed(blocks, excess)[i];
                &&& t.content_index == blocks[i].content_index
                &&& t.kind == blocks[i].kind
                &&& t.complete == blocks[i].complete
                &&& t.content.max_bytes == blocks[i].content.max_bytes
                &&& blocks[i].content.wf() ==> t.content.wf()
            },
        excess <= total_bytes(blocks) ==> total_bytes(trimmed(blocks, excess)) + excess
            <= total_bytes(blocks),
        total_bytes(trimmed(blocks, excess)) <= total_bytes(blocks),
    decreases blocks.len(),
{
    if blocks.len() == 0 || excess == 0 {
    } else {
        lemma_skip_bytes(blocks[0].content.text, excess);
        let first = AssistantContentBlockView {
            content: blocks[0].content.without_oldest(excess),
            ..blocks[0]
        };
        let dropped = byte_len(blocks[0].content.text) - byte_len(first.content.text);
        let left = if dropped >= excess {
            0
        } else {
            (excess - dropped) as nat
        };
        let rest = blocks.drop_first();
        lemma_trimmed(rest, left);
        let t = trimmed(blocks, excess);
        assert(t.drop_first() =~= trimmed(rest, left));
        assert(t[0] == first);
        assert forall|i: int| #![trigger t[i]] 0 <= i < blocks.len() implies {
            &&& t[i].content_index == blocks[i].content_index
            &&& t[i].kind == blocks[i].kind
            &&& t[i].complete == blocks[i].complete
            &&& t[i].content.max_bytes == blocks[i].content.max_bytes
            &&& blocks[i].content.wf() ==> t[i].content.wf()
        } by {
            if i > 0 {
                assert(t[i] == trimmed(rest, left)[i - 1]);
                assert(rest[i - 1] == blocks[i]);
            }
        }
    }
}

/// What is trimmed to a budget fits it, and keeps every block.
pub proof fn lemma_within_budget(blocks: Seq<AssistantContentBlockView>, max: nat)
    ensures
        total_bytes(within_budget(blocks, max)) <= max,
        within_budget(blocks, max).len() == blocks.len(),
        forall|i: int|
            #![trigger within_budget(blocks, max)[i]]
            0 <= i < blocks.len() ==> {
                let t = within_budget(blocks, max)[i];
                &&& t.content_index == blocks[i].content_index
                &&& t.kind == blocks[i].kind
                &&& t.complete == blocks[i].complete
                &&& t.content.max_bytes == blocks[i].content.max_bytes
                &&& blocks[i].content.wf() ==> t.content.wf()
            },
{
    if total_bytes(blocks) > max {
        lemma_trimmed(blocks, (total_bytes(blocks) - max) as nat);
    }
}

/// The content blocks of the assistant message that is streaming.
#[derive(Debug)]
pub struct AssistantBlocks {
    blocks: Vec<AssistantContentBlock>,
    max_bytes: usize,
}

/// The models of a list of blocks.
pub open spec fn block_views(blocks: Seq<AssistantContentBlock>) -> Seq<AssistantContentBlockView> {
    blocks.map_values(|block: AssistantContentBlock| block@)
}

impl AssistantBlocks {
    /// The blocks in the order of their content indices.
    pub closed spec fn seq(&self) -> Seq<AssistantContentBlockView> {
        block_views(self.blocks@)
    }

    pub closed spec fn max(&self) -> nat {
        self.max_bytes as nat
    }

    #[verifier::type_invariant]
    pub closed spec fn wf(&self) -> bool {
        blocks_wf(self.seq(), self.max())
    }

    fn new(max_bytes: usize) -> (r: Self)
        ensures
            r.seq() == Seq::<AssistantContentBlockView>::empty(),
            r.max() == max_bytes,
    {
        let r = AssistantBlocks { blocks: Vec::new(), max_bytes };
        assert(r.seq() =~= Seq::<AssistantContentBlockView>::empty());
        r
    }

    fn len(&self) -> (n: usize)
        ensures
            n == self.seq().len(),
            blocks_wf(self.seq(), self.max()),
    {
        proof {
            use_type_invariant(self);
        }
        self.blocks.len()
    }

    fn at(&self, i: usize) -> (r: &AssistantContentBlock)
        requires
            i < self.seq().len(),
        ensures
            r@ == self.seq()[i as int],
    {
        &self.blocks[i]
    }

    /// The position of a block, or `None`.
    fn position(&self, content_index: usize) -> (r: Option<usize>)
        ensures
            match r {
                Some(i) => i < self.seq().len() && self.seq()[i as int].content_index
                    == content_index && has_block(self.seq(), content_index) && block_position(
                    self.seq(),
                    content_index,
                ) == i,
                None => !has_block(self.seq(), content_index),
            },
    {
        proof {
            use_type_invariant(self);
        }
        let mut i: usize = 0;
        while i < self.blocks.len()
            invariant
                i <= self.blocks@.len(),
                blocks_wf(self.seq(), self.max()),
                forall|k: int|
                    0 <= k < i ==> (#[trigger] self.seq()[k]).content_index != content_index,
            decreases self.blocks@.len() - i,
        {
            if self.blocks[i].content_index == content_index {
                proof {
                    assert(self.seq()[i as int].content_index == content_index);
                    let p = block_position(self.seq(), content_index);
                    assert(0 <= p < self.seq().len() && self.seq()[p].content_index
                        == content_index);
                    assert(p == i) by {
                        if p < i {
                        } else if p > i {
                            assert(self.seq()[i as int].content_index
                                < self.seq()[p].content_index);
                        }
                    }
                }
                return Some(i);
            }
            assert(self.seq()[i as int].content_index != content_index);
            i += 1;
        }
        None
    }

    fn total(&self) -> (n: usize)
        ensures
            n == total_bytes(self.seq()),
            n <= self.max(),
    {
        proof {
            use_type_invariant(self);
        }
        let mut n: usize = 0;
        let mut i: usize = self.blocks.len();
        let ghost all = self.seq();
        assert(all.skip(all.len() as int) =~= Seq::<AssistantContentBlockView>::empty());
        while i > 0
            invariant
                i <= self.blocks@.len(),
                all == self.seq(),
                all.len() == self.blocks@.len(),
                n == total_bytes(all.skip(i as int)),
                total_bytes(all) <= self.max_bytes,
            decreases i,
        {
            i -= 1;
            proof {
                assert(all.skip(i as int).drop_first() =~= all.skip(i + 1));
                assert(all.skip(i as int)[0] == self.blocks@[i as int]@);
                lemma_total_concat(all.take(i as int), all.skip(i as int));
                assert(all.take(i as int) + all.skip(i as int) =~= all);
            }
            n = n + self.blocks[i].content.len_bytes();
        }
        assert(all.skip(0) =~= all);
        n
    }

    /// Adds an empty block.
    fn start(&mut self, content_index: usize, kind: AssistantContentKind)
        requires
            !has_block(old(self).seq(), content_index),
        ensures
            final(self).max() == old(self).max(),
            final(self).seq() == with_block(
                old(self).seq(),
                AssistantContentBlockView {
                    content_index,
                    kind,
                    content: BoundedTextView::empty(old(self).max()),
                    complete: false,
                },
            ),
    {
        proof {
            use_type_invariant(&*self);
        }
        let ghost before = self.seq();
        let mut at: usize = 0;
        while at < self.blocks.len() && self.blocks[at].content_index < content_index
            invariant
                at <= self.blocks@.len(),
                self.seq() == before,
                before == block_views(self.blocks@),
                forall|k: int|
                    0 <= k < at ==> (#[trigger] before[k]).content_index < content_index,
            decreases self.blocks@.len() - at,
        {
            assert(before[at as int].content_index < content_index);
            at += 1;
        }
        let block = AssistantContentBlock {
            content_index,
            kind,
            content: BoundedText::new(self.max_bytes),
            complete: false,
        };
        let ghost model = block@;
        proof {
            assert forall|k: int| at <= k < before.len() implies content_index < (
            #[trigger] before[k]).content_index by {
                assert(before[at as int].content_index == self.blocks@[at as int].content_index);
                assert(before[at as int].content_index != content_index);
                if k > at {
                    assert(before[at as int].content_index < before[k].content_index);
                }
            }
            lemma_with_block(before, model, at as int);
        }
        let mut blocks = Vec::new();
        core::mem::swap(&mut blocks, &mut self.blocks);
        let ghost old_blocks = blocks@;
        blocks.insert(at, block);
        proof {
            let after = block_views(blocks@);
            assert(after =~= before.insert(at as int, model));
            assert forall|i: int, j: int| 0 <= i < j < after.len() implies (
            #[trigger] after[i]).content_index < (#[trigger] after[j]).content_index by {
                let x = if i < at { i } else { i - 1 };
                let y = if j < at { j } else { j - 1 };
                if i != at && j != at {
                    assert(before[x].content_index < before[y].content_index);
                } else if i == at {
                    assert(after[j] == before[j - 1]);
                } else {
                    assert(after[i] == before[i]);
                }
            }
            assert forall|i: int| 0 <= i < after.len() implies (
            #[trigger] after[i]).content.max_bytes == self.max() && after[i].content.wf() by {
                if i < at {
                    assert(after[i] == before[i]);
                } else if i > at {
                    assert(after[i] == before[i - 1]);
                }
            }
        }
        self.blocks = blocks;
    }

    /// Adds text to a block, or puts text in place of what it holds.
    fn edit(&mut self, at: usize, append: Option<&str>, replace: Option<&str>, complete: bool)
        requires
            at < old(self).seq().len(),
            append is None || replace is None,
        ensures
            final(self).max() == old(self).max(),
            final(self).seq() == within_budget(
                old(self).seq().update(
                    at as int,
                    AssistantContentBlockView {
                        content: match (append, replace) {
                            (Some(delta), _) => old(self).seq()[at as int].content.appended(delta@),
                            (None, Some(value)) => old(self).seq()[at as int].content.replaced(
                                value@,
                            ),
                            (None, None) => old(self).seq()[at as int].content,
                        },
                        complete: old(self).seq()[at as int].complete || complete,
                        ..old(self).seq()[at as int]
                    },
                ),
                old(self).max(),
            ),
    {
        proof {
            use_type_invariant(&*self);
        }
        let ghost before = self.seq();
        let total: usize = self.total();
        let max_bytes: usize = self.max_bytes;
        let mut blocks = Vec::new();
        core::mem::swap(&mut blocks, &mut self.blocks);
        let old_bytes: usize = blocks[at].content.len_bytes();
        let mut block = blocks.remove(at);
        let ghost removed = blocks@;
        match append {
            Some(delta) => {
                block.content.append(delta);
            },
            None => match replace {
                Some(value) => {
                    block.content.replace(value);
                },
                None => {},
            },
        }
        if complete {
            block.complete = true;
        }
        let new_bytes: usize = block.content.len_bytes();
        let ghost model = block@;
        blocks.insert(at, block);
        let ghost edited = before.update(at as int, model);
        proof {
            assert(block_views(blocks@) =~= edited);
            lemma_total_update(before, at as int, model);
            lemma_total_concat(before.take(at as int), before.skip(at as int));
            assert(before.take(at as int) + before.skip(at as int) =~= before);
            assert(before.skip(at as int)[0] == before[at as int]);
        }
        let others: usize = total - old_bytes;
        let room: usize = max_bytes - others;
        let excess: u128 = if new_bytes > room {
            (new_bytes - room) as u128
        } else {
            0
        };
        trim_blocks(&mut blocks, excess);
        proof {
            lemma_within_budget(edited, max_bytes as nat);
            assert(block_views(blocks@) == within_budget(edited, max_bytes as nat));
            let after = within_budget(edited, max_bytes as nat);
            assert forall|i: int| 0 <= i < edited.len() implies (
            #[trigger] edited[i]).content.max_bytes == max_bytes && edited[i].content.wf()
                && edited[i].content_index == before[i].content_index by {
                if i != at {
                    assert(edited[i] == before[i]);
                }
            }
            assert forall|i: int, j: int| 0 <= i < j < after.len() implies (
            #[trigger] after[i]).content_index < (#[trigger] after[j]).content_index by {
                assert(before[i].content_index < before[j].content_index);
                assert(edited[i].content_index == before[i].content_index);
                assert(edited[j].content_index == before[j].content_index);
            }
            assert forall|i: int| 0 <= i < after.len() implies (
            #[trigger] after[i]).content.max_bytes == max_bytes && after[i].content.wf() by {
                assert(edited[i].content.wf());
            }
        }
        self.blocks = blocks;
    }

    fn clear(&mut self)
        ensures
            final(self).seq() == Seq::<AssistantContentBlockView>::empty(),
            final(self).max() == old(self).max(),
    {
        self.blocks = Vec::new();
        assert(self.seq() =~= Seq::<AssistantContentBlockView>::empty());
    }
}

/// Drops the oldest text of the first blocks until `excess` bytes are gone.
fn trim_blocks(blocks: &mut Vec<AssistantContentBlock>, excess: u128)
    ensures
        block_views(final(blocks)@) == trimmed(block_views(old(blocks)@), excess as nat),
{
    let ghost all = block_views(blocks@);
    let mut left: u128 = excess;
    let mut i: usize = 0;
    assert(all.skip(0) =~= all);
    while i < blocks.len() && left > 0
        invariant
            i <= blocks@.len() == all.len(),
            forall|k: int| i <= k < all.len() ==> (#[trigger] blocks@[k])@ == all[k],
            trimmed(all, excess as nat) == block_views(blocks@.take(i as int)) + trimmed(
                all.skip(i as int),
                left as nat,
            ),
        decreases all.len() - i,
    {
        let ghost done = blocks@.take(i as int);
        let ghost rest = all.skip(i as int);
        let ghost wanted = left as nat;
        let mut block = blocks.remove(i);
        let ghost original = block@;
        let bytes: usize = block.content.len_bytes();
        let count: usize = if left > bytes as u128 {
            bytes
        } else {
            left as usize
        };
        let dropped: usize = block.content.drop_oldest_bytes(count);
        proof {
            lemma_skip_bytes(original.content.text, count as nat);
            lemma_skip_bytes(original.content.text, wanted);
            assert(skip_bytes(original.content.text, count as nat) =~= skip_bytes(
                original.content.text,
                wanted,
            ));
            assert(rest[0] == all[i as int]);
            assert(rest.drop_first() =~= all.skip(i + 1));
        }
        left = if dropped as u128 >= left {
            0
        } else {
            left - dropped as u128
        };
        let ghost changed = block@;
        blocks.insert(i, block);
        i += 1;
        proof {
            assert(block_views(blocks@.take(i as int)) =~= block_views(done).push(changed));
            assert(trimmed(rest, wanted) =~= seq![changed] + trimmed(
                all.skip(i as int),
                left as nat,
            ));
            assert(trimmed(all, excess as nat) =~= block_views(blocks@.take(i as int)) + trimmed(
                all.skip(i as int),
                left as nat,
            ));
        }
    }
    proof {
        assert(trimmed(all.skip(i as int), left as nat) =~= all.skip(i as int));
        assert(block_views(blocks@) =~= block_views(blocks@.take(i as int)) + all.skip(i as int));
    }
}

#[derive(Debug)]
pub struct ToolPreview {
    pub tool_name: String,
    pub output: BoundedText,
}

/// Model of a [`ToolPreview`].
pub struct ToolPreviewView {
    pub tool_name: Seq<char>,
    pub output: BoundedTextView,
}

impl View for ToolPreview {
    type V = ToolPreviewView;

    open spec fn view(&self) -> ToolPreviewView {
        ToolPreviewView { tool_name: self.tool_name@, output: self.output@ }
    }
}

#[derive(Clone, Debug, PartialEq, Eq)]
pub struct AssistantContentSnapshot {
    pub content_index: usize,
    pub kind: AssistantContentKind,
    pub text: String,
    pub dropped_bytes: u64,
    pub complete: bool,
}

impl AssistantContentSnapshot {
    /// Whether this is the picture of `block`.
    pub open spec fn shows(self, block: AssistantContentBlockView) -> bool {
        &&& self.content_index == block.content_index
        &&& self.kind == block.kind
        &&& self.text@ == block.content.text
        &&& self.dropped_bytes == block.content.dropped_bytes
        &&& self.complete == block.complete
    }
}

#[derive(Clone, Debug, PartialEq, Eq)]
pub struct ToolPreviewSnapshot {
    pub tool_call_id: String,
    pub tool_name: String,
    pub output: String,
    pub dropped_bytes: u64,
}

impl ToolPreviewSnapshot {
    /// Whether this is the picture of the tool call `id`.
    pub open spec fn shows(self, id: Seq<char>, tool: ToolPreviewView) -> bool {
        &&& self.tool_call_id@ == id
        &&& self.tool_name@ == tool.tool_name
        &&& self.output@ == tool.output.text
        &&& self.dropped_bytes == tool.output.dropped_bytes
    }
}

#[derive(Clone, Debug, PartialEq, Eq)]
pub struct DirectBashSnapshot {
    pub request_id: RequestId,
    pub output: String,
    pub dropped_bytes: u64,
}

impl DirectBashSnapshot {
    /// Whether this is the picture of the bash request `id`.
    pub open spec fn shows(self, id: Seq<char>, output: BoundedTextView) -> bool {
        &&& self.request_id@ == id
        &&& self.output@ == output.text
        &&& self.dropped_bytes == output.dropped_bytes
    }
}

#[derive(Clone, Debug, PartialEq, Eq)]
pub struct LiveProjectionSnapshot {
    pub assistant_blocks: Vec<AssistantContentSnapshot>,
    pub active_tools: Vec<ToolPreviewSnapshot>,
    pub direct_bash: Vec<DirectBashSnapshot>,
    pub reasoning: String,
}

/// Why a change to the projection was refused.
#[derive(Debug, PartialEq, Eq)]
pub enum ProjectionError {
    DuplicateAssistantBlock { content_index: usize },
    TooManyAssistantBlocks { limit: usize },
    UnknownAssistantBlock { content_index: usize },
    AssistantBlockKindMismatch {
        content_index: usize,
        expected: AssistantContentKind,
        actual: AssistantContentKind,
    },
    DuplicateTool { tool_call_id: String },
    TooManyActiveTools { limit: usize },
    UnknownTool { tool_call_id: String },
    DuplicateDirectBash { request_id: RequestId },
    TooManyDirectBash { limit: usize },
    UnknownDirectBash { request_id: RequestId },
}

/// Model of a [`LiveProjection`].
pub struct LiveProjectionView {
    /// The blocks in the order of their content indices.
    pub blocks: Seq<AssistantContentBlockView>,
    pub max_assistant_bytes: nat,
    pub max_assistant_blocks: usize,
    /// Reasoning of the earlier messages of this turn.
    pub carried_reasoning: Seq<char>,
    pub tools: Map<Seq<char>, ToolPreviewView>,
    pub max_active_tools: usize,
    pub max_tool_preview_bytes: nat,
    pub direct_bash: Map<Seq<char>, BoundedTextView>,
    pub max_active_direct_bash: usize,
}

/// The reasoning of a turn: what was carried, then the thinking of each block,
/// with an empty line between.
pub open spec fn reasoning_with(
    carried: Seq<char>,
    blocks: Seq<AssistantContentBlockView>,
) -> Seq<char>
    decreases blocks.len(),
{
    if blocks.len() == 0 {
        carried
    } else {
        let before = reasoning_with(carried, blocks.drop_last());
        let block = blocks.last();
        if block.kind != AssistantContentKind::Thinking || block.content.text.len() == 0 {
            before
        } else if before.len() == 0 {
            block.content.text
        } else {
            before + "\n\n"@ + block.content.text
        }
    }
}

impl LiveProjectionView {
    pub open spec fn empty(limits: RuntimeLimits) -> Self {
        LiveProjectionView {
            blocks: Seq::empty(),
            max_assistant_bytes: limits.max_stream_text_bytes_per_run as nat,
            max_assistant_blocks: limits.max_stream_content_blocks_per_message,
            carried_reasoning: Seq::empty(),
            tools: Map::empty(),
            max_active_tools: limits.max_active_tools_per_run,
            max_tool_preview_bytes: limits.max_tool_preview_bytes as nat,
            direct_bash: Map::empty(),
            max_active_direct_bash: limits.max_pending_rpc_requests_per_run,
        }
    }

    /// Everything that is live stays within its limits: the blocks are in the order of
    /// their content indices, few enough, and fit their budget together; tools and bash
    /// requests are few enough, and each preview fits its bound.
    pub open spec fn within_limits(self) -> bool {
        &&& blocks_wf(self.blocks, self.max_assistant_bytes)
        &&& self.blocks.len() <= self.max_assistant_blocks
        &&& self.tools.dom().finite()
        &&& self.tools.dom().len() <= self.max_active_tools
        &&& forall|id: Seq<char>| #[trigger]
            self.tools.contains_key(id) ==> self.tools[id].output.wf()
                && self.tools[id].output.max_bytes == self.max_tool_preview_bytes
        &&& self.direct_bash.dom().finite()
        &&& self.direct_bash.dom().len() <= self.max_active_direct_bash
        &&& forall|id: Seq<char>| #[trigger]
            self.direct_bash.contains_key(id) ==> self.direct_bash[id].wf()
                && self.direct_bash[id].max_bytes == self.max_tool_preview_bytes
    }

    /// The reasoning of the whole turn, bounded like the rest of the stream.
    pub open spec fn reasoning(self) -> Seq<char> {
        suffix_within(
            reasoning_with(self.carried_reasoning, self.blocks),
            self.max_assistant_bytes,
        )
    }

    /// Why a block of `kind` cannot be edited, if it cannot.
    pub open spec fn edit_refusal(
        self,
        content_index: usize,
        kind: AssistantContentKind,
    ) -> Option<ProjectionError> {
        if !has_block(self.blocks, content_index) {
            Some(ProjectionError::UnknownAssistantBlock { content_index })
        } else {
            let actual = self.blocks[block_position(self.blocks, content_index)].kind;
            if actual != kind {
                Some(
                    ProjectionError::AssistantBlockKindMismatch {
                        content_index,
                        expected: kind,
                        actual,
                    },
                )
            } else {
                None
            }
        }
    }

    /// The projection with one block changed and all blocks within budget.
    pub open spec fn with_edited(
        self,
        content_index: usize,
        content: BoundedTextView,
        complete: bool,
    ) -> Self {
        let at = block_position(self.blocks, content_index);
        LiveProjectionView {
            blocks: within_budget(
                self.blocks.update(
                    at,
                    AssistantContentBlockView { content, complete, ..self.blocks[at] },
                ),
                self.max_assistant_bytes,
            ),
            ..self
        }
    }

    /// The block that is edited.
    pub open spec fn block(self, content_index: usize) -> AssistantContentBlockView {
        self.blocks[block_position(self.blocks, content_index)]
    }

    pub open spec fn with_tool_output(self, tool_call_id: Seq<char>, output: Seq<char>) -> Self {
        let tool = self.tools[tool_call_id];
        LiveProjectionView {
            tools: self.tools.insert(
                tool_call_id,
                ToolPreviewView { output: tool.output.replaced(output), ..tool },
            ),
            ..self
        }
    }

    pub open spec fn without_tool(self, tool_call_id: Seq<char>) -> Self {
        LiveProjectionView { tools: self.tools.remove(tool_call_id), ..self }
    }

    pub open spec fn with_tool(self, tool_call_id: Seq<char>, tool_name: Seq<char>) -> Self {
        LiveProjectionView {
            tools: self.tools.insert(
                tool_call_id,
                ToolPreviewView {
                    tool_name,
                    output: BoundedTextView::empty(self.max_tool_preview_bytes),
                },
            ),
            ..self
        }
    }

    /// Why a tool call cannot start, if it cannot.
    pub open spec fn tool_refusal(self, tool_call_id: String) -> Option<ProjectionError> {
        if self.tools.contains_key(tool_call_id@) {
            Some(ProjectionError::DuplicateTool { tool_call_id })
        } else if self.tools.dom().len() >= self.max_active_tools {
            Some(ProjectionError::TooManyActiveTools { limit: self.max_active_tools })
        } else {
            None
        }
    }

    pub open spec fn with_bash(self, request_id: Seq<char>) -> Self {
        LiveProjectionView {
            direct_bash: self.direct_bash.insert(
                request_id,
                BoundedTextView::empty(self.max_tool_preview_bytes),
            ),
            ..self
        }
    }

    pub open spec fn with_bash_delta(self, request_id: Seq<char>, delta: Seq<char>) -> Self {
        LiveProjectionView {
            direct_bash: self.direct_bash.insert(
                request_id,
                self.direct_bash[request_id].appended(delta),
            ),
            ..self
        }
    }

    pub open spec fn without_bash(self, request_id: Seq<char>) -> Self {
        LiveProjectionView { direct_bash: self.direct_bash.remove(request_id), ..self }
    }

    /// Why a direct bash request cannot start, if it cannot.
    pub open spec fn bash_refusal(self, request_id: RequestId) -> Option<ProjectionError> {
        if self.direct_bash.contains_key(request_id@) {
            Some(ProjectionError::DuplicateDirectBash { request_id })
        } else if self.direct_bash.dom().len() >= self.max_active_direct_bash {
            Some(ProjectionError::TooManyDirectBash { limit: self.max_active_direct_bash })
        } else {
            None
        }
    }

    /// Why an empty block cannot be added, if it cannot.
    pub open spec fn block_refusal(self, content_index: usize) -> Option<ProjectionError> {
        if has_block(self.blocks, content_index) {
            Some(ProjectionError::DuplicateAssistantBlock { content_index })
        } else if self.blocks.len() >= self.max_assistant_blocks {
            Some(ProjectionError::TooManyAssistantBlocks { limit: self.max_assistant_blocks })
        } else {
            None
        }
    }

    pub open spec fn with_empty_block(
        self,
        content_index: usize,
        kind: AssistantContentKind,
    ) -> Self {
        LiveProjectionView {
            blocks: with_block(
                self.blocks,
                AssistantContentBlockView {
                    content_index,
                    kind,
                    content: BoundedTextView::empty(self.max_assistant_bytes),
                    complete: false,
                },
            ),
            ..self
        }
    }

    /// A new turn: no streamed message and no reasoning.
    pub open spec fn new_turn(self) -> Self {
        LiveProjectionView { carried_reasoning: Seq::empty(), ..self.without_message() }
    }

    /// A new message of the same turn, which carries the reasoning over.
    pub open spec fn new_message(self) -> Self {
        LiveProjectionView { carried_reasoning: self.reasoning(), ..self.without_message() }
    }

    pub open spec fn without_tools(self) -> Self {
        LiveProjectionView { tools: Map::empty(), ..self }
    }

    /// With the complete blocks of a message, trimmed to the budget.
    pub open spec fn with_message(self, blocks: Seq<AssistantContentBlockView>) -> Self {
        LiveProjectionView {
            blocks: within_budget(blocks, self.max_assistant_bytes),
            ..self
        }
    }

    /// Without the blocks of the message that was streaming.
    pub open spec fn without_message(self) -> Self {
        LiveProjectionView { blocks: Seq::empty(), ..self }
    }
}

/// What is live, and the limits of it.
#[derive(Debug)]
struct ProjectionState {
    assistant: AssistantBlocks,
    max_assistant_blocks: usize,
    carried_reasoning: String,
    active_tools: KeyMap<String, ToolPreview>,
    max_active_tools: usize,
    max_tool_preview_bytes: usize,
    direct_bash: KeyMap<RequestId, BoundedText>,
    max_active_direct_bash: usize,
}

impl View for ProjectionState {
    type V = LiveProjectionView;

    closed spec fn view(&self) -> LiveProjectionView {
        LiveProjectionView {
            blocks: self.assistant.seq(),
            max_assistant_bytes: self.assistant.max(),
            max_assistant_blocks: self.max_assistant_blocks,
            carried_reasoning: self.carried_reasoning@,
            tools: self.active_tools@,
            max_active_tools: self.max_active_tools,
            max_tool_preview_bytes: self.max_tool_preview_bytes as nat,
            direct_bash: self.direct_bash@,
            max_active_direct_bash: self.max_active_direct_bash,
        }
    }
}

/// Adds the thinking of one block to the reasoning before it.
fn add_reasoning(before: String, block: &AssistantContentBlock) -> (r: String)
    ensures
        r@ == (if block@.kind != AssistantContentKind::Thinking || block@.content.text.len() == 0 {
            before@
        } else if before@.len() == 0 {
            block@.content.text
        } else {
            before@ + "\n\n"@ + block@.content.text
        }),
{
    let text = block.content.as_str();
    if block.kind != AssistantContentKind::Thinking || text.is_empty() {
        before
    } else if before.as_str().is_empty() {
        text.to_owned()
    } else {
        let mut joined = before;
        joined.append("\n\n");
        joined.append(text);
        joined
    }
}

impl ProjectionState {
    /// Nothing, with no room for anything.
    fn blank() -> (r: Self)
        ensures
            r@.within_limits(),
    {
        let carried_reasoning = String::new();
        let r = ProjectionState {
            assistant: AssistantBlocks::new(0),
            max_assistant_blocks: 0,
            carried_reasoning,
            active_tools: KeyMap::new(),
            max_active_tools: 0,
            max_tool_preview_bytes: 0,
            direct_bash: KeyMap::new(),
            max_active_direct_bash: 0,
        };
        r
    }

    /// The identities of the active tool calls, in order.
    closed spec fn tool_ids(&self) -> Seq<Seq<char>> {
        self.active_tools.key_models()
    }

    /// The identities of the active bash requests, in order.
    closed spec fn bash_ids(&self) -> Seq<Seq<char>> {
        self.direct_bash.key_models()
    }

    fn new(limits: RuntimeLimits) -> (r: Self)
        ensures
            r@ == LiveProjectionView::empty(limits),
    {
        let carried_reasoning = String::new();
        assert(carried_reasoning@ =~= Seq::<char>::empty());
        ProjectionState {
            assistant: AssistantBlocks::new(limits.max_stream_text_bytes_per_run),
            max_assistant_blocks: limits.max_stream_content_blocks_per_message,
            carried_reasoning,
            active_tools: KeyMap::new(),
            max_active_tools: limits.max_active_tools_per_run,
            max_tool_preview_bytes: limits.max_tool_preview_bytes,
            direct_bash: KeyMap::new(),
            max_active_direct_bash: limits.max_pending_rpc_requests_per_run,
        }
    }

    fn start_direct_bash(&mut self, request_id: RequestId) -> (r: Result<(), ProjectionError>)
        ensures
            match old(self)@.bash_refusal(request_id) {
                Some(error) => r == Err::<(), ProjectionError>(error) && final(self)@ == old(self)@,
                None => r is Ok && final(self)@ == old(self)@.with_bash(request_id@),
            },
    {
        if self.direct_bash.contains_key(&request_id) {
            return Err(ProjectionError::DuplicateDirectBash { request_id });
        }
        if self.direct_bash.len() >= self.max_active_direct_bash {
            return Err(ProjectionError::TooManyDirectBash { limit: self.max_active_direct_bash });
        }
        self.direct_bash.insert(request_id, BoundedText::new(self.max_tool_preview_bytes));
        Ok(())
    }

    fn append_direct_bash_delta(&mut self, request_id: &RequestId, delta: &str) -> (r: Result<
        (),
        ProjectionError,
    >)
        ensures
            if old(self)@.direct_bash.contains_key(request_id@) {
                r is Ok && final(self)@ == old(self)@.with_bash_delta(request_id@, delta@)
            } else {
                r == Err::<(), ProjectionError>(
                    ProjectionError::UnknownDirectBash { request_id: *request_id },
                ) && final(self)@ == old(self)@
            },
    {
        let ghost before = self.direct_bash@;
        match self.direct_bash.remove(request_id) {
            Some(mut preview) => {
                preview.append(delta);
                let ghost text = preview@;
                self.direct_bash.insert(request_id.clone(), preview);
                assert(self.direct_bash@ =~= before.insert(request_id@, text));
                Ok(())
            },
            None => {
                assert(self.direct_bash@ =~= before);
                Err(ProjectionError::UnknownDirectBash { request_id: request_id.clone() })
            },
        }
    }

    fn finish_direct_bash(&mut self, request_id: &RequestId) -> (r: Result<
        BoundedText,
        ProjectionError,
    >)
        ensures
            final(self)@ == old(self)@.without_bash(request_id@),
            match r {
                Ok(text) => {
                    old(self)@.direct_bash.contains_key(request_id@) && text@ == old(self)@.direct_bash[request_id@]
                },
                Err(error) => !old(self)@.direct_bash.contains_key(request_id@) && error
                    == (ProjectionError::UnknownDirectBash { request_id: *request_id }),
            },
    {
        match self.direct_bash.remove(request_id) {
            Some(text) => Ok(text),
            None => Err(ProjectionError::UnknownDirectBash { request_id: request_id.clone() }),
        }
    }

    fn cancel_direct_bash(&mut self, request_id: &RequestId) -> (r: Option<BoundedText>)
        ensures
            final(self)@ == old(self)@.without_bash(request_id@),
            match r {
                Some(text) => {
                    old(self)@.direct_bash.contains_key(request_id@) && text@ == old(self)@.direct_bash[request_id@]
                },
                None => !old(self)@.direct_bash.contains_key(request_id@),
            },
    {
        self.direct_bash.remove(request_id)
    }

    fn direct_bash_preview(&self, request_id: &RequestId) -> (r: Option<&BoundedText>)
        ensures
            match r {
                Some(text) => self@.direct_bash.contains_key(request_id@) && text@
                    == self@.direct_bash[request_id@],
                None => !self@.direct_bash.contains_key(request_id@),
            },
    {
        self.direct_bash.get(request_id)
    }

    fn active_direct_bash_count(&self) -> (n: usize)
        ensures
            n == self@.direct_bash.dom().len(),
    {
        self.direct_bash.len()
    }

    fn start_assistant_block(&mut self, content_index: usize, kind: AssistantContentKind) -> (r:
        Result<(), ProjectionError>)
        ensures
            match old(self)@.block_refusal(content_index) {
                Some(error) => r == Err::<(), ProjectionError>(error) && final(self)@ == old(self)@,
                None => r is Ok && final(self)@ == old(self)@.with_empty_block(
                    content_index,
                    kind,
                ),
            },
    {
        match self.assistant.position(content_index) {
            Some(_) => {
                return Err(ProjectionError::DuplicateAssistantBlock { content_index });
            },
            None => {},
        }
        if self.assistant.len() >= self.max_assistant_blocks {
            return Err(
                ProjectionError::TooManyAssistantBlocks { limit: self.max_assistant_blocks },
            );
        }
        self.assistant.start(content_index, kind);
        Ok(())
    }

    /// The position of the block to edit, once its kind has been checked.
    fn editable_block(&self, content_index: usize, kind: AssistantContentKind) -> (r: Result<
        usize,
        ProjectionError,
    >)
        ensures
            match r {
                Ok(at) => self@.edit_refusal(content_index, kind) is None && at
                    < self@.blocks.len() && at == block_position(self@.blocks, content_index),
                Err(error) => self@.edit_refusal(content_index, kind) == Some(error),
            },
    {
        match self.assistant.position(content_index) {
            None => Err(ProjectionError::UnknownAssistantBlock { content_index }),
            Some(at) => {
                let actual = self.assistant.at(at).kind;
                if actual != kind {
                    Err(
                        ProjectionError::AssistantBlockKindMismatch {
                            content_index,
                            expected: kind,
                            actual,
                        },
                    )
                } else {
                    Ok(at)
                }
            },
        }
    }

    fn append_assistant_delta(
        &mut self,
        content_index: usize,
        kind: AssistantContentKind,
        delta: &str,
    ) -> (r: Result<(), ProjectionError>)
        ensures
            match old(self)@.edit_refusal(content_index, kind) {
                Some(error) => r == Err::<(), ProjectionError>(error) && final(self)@ == old(self)@,
                None => r is Ok && final(self)@ == old(self)@.with_edited(
                    content_index,
                    old(self)@.block(content_index).content.appended(delta@),
                    old(self)@.block(content_index).complete,
                ),
            },
    {
        let at: usize = match self.editable_block(content_index, kind) {
            Ok(at) => at,
            Err(error) => {
                return Err(error);
            },
        };
        self.assistant.edit(at, Some(delta), None, false);
        Ok(())
    }

    fn finish_assistant_block(
        &mut self,
        content_index: usize,
        kind: AssistantContentKind,
        authoritative_content: Option<&str>,
    ) -> (r: Result<(), ProjectionError>)
        ensures
            match old(self)@.edit_refusal(content_index, kind) {
                Some(error) => r == Err::<(), ProjectionError>(error) && final(self)@ == old(self)@,
                None => r is Ok && final(self)@ == old(self)@.with_edited(
                    content_index,
                    match authoritative_content {
                        Some(text) => old(self)@.block(content_index).content.replaced(text@),
                        None => old(self)@.block(content_index).content,
                    },
                    true,
                ),
            },
    {
        let at: usize = match self.editable_block(content_index, kind) {
            Ok(at) => at,
            Err(error) => {
                return Err(error);
            },
        };
        self.assistant.edit(at, None, authoritative_content, true);
        Ok(())
    }

    fn clear_assistant_message(&mut self)
        ensures
            final(self)@ == old(self)@.without_message(),
    {
        self.assistant.clear();
    }

    fn start_agent_turn(&mut self)
        ensures
            final(self)@ == old(self)@.new_turn(),
    {
        self.assistant.clear();
        self.carried_reasoning = String::new();
        assert(self.carried_reasoning@ =~= Seq::<char>::empty());
    }

    fn start_assistant_message(&mut self)
        ensures
            final(self)@ == old(self)@.new_message(),
    {
        self.carried_reasoning = self.reasoning_text();
        self.assistant.clear();
    }

    fn settle_agent_turn(&mut self) -> (unfinished: usize)
        ensures
            final(self)@ == old(self)@.without_tools(),
            unfinished == old(self)@.tools.dom().len(),
    {
        let unfinished: usize = self.active_tools.len();
        self.active_tools.clear();
        unfinished
    }

    fn reasoning_text(&self) -> (r: String)
        ensures
            r@ == self@.reasoning(),
    {
        let n: usize = self.assistant.len();
        let mut text = self.carried_reasoning.clone();
        let mut i: usize = 0;
        assert(self@.blocks.take(0) =~= Seq::<AssistantContentBlockView>::empty());
        while i < n
            invariant
                i <= n == self@.blocks.len(),
                self@.blocks == self.assistant.seq(),
                text@ == reasoning_with(self@.carried_reasoning, self@.blocks.take(i as int)),
            decreases n - i,
        {
            assert(self@.blocks.take(i + 1).drop_last() =~= self@.blocks.take(i as int));
            text = add_reasoning(text, self.assistant.at(i));
            i += 1;
        }
        assert(self@.blocks.take(n as int) =~= self@.blocks);
        keep_suffix(text.as_str(), self.assistant.max_bytes)
    }

    fn start_tool(&mut self, tool_call_id: String, tool_name: String) -> (r: Result<
        (),
        ProjectionError,
    >)
        ensures
            match old(self)@.tool_refusal(tool_call_id) {
                Some(error) => r == Err::<(), ProjectionError>(error) && final(self)@ == old(self)@,
                None => r is Ok && final(self)@ == old(self)@.with_tool(
                    tool_call_id@,
                    tool_name@,
                ),
            },
    {
        if self.active_tools.contains_key(&tool_call_id) {
            return Err(ProjectionError::DuplicateTool { tool_call_id });
        }
        if self.active_tools.len() >= self.max_active_tools {
            return Err(ProjectionError::TooManyActiveTools { limit: self.max_active_tools });
        }
        self.active_tools.insert(
            tool_call_id,
            ToolPreview { tool_name, output: BoundedText::new(self.max_tool_preview_bytes) },
        );
        Ok(())
    }

    fn replace_tool_output(&mut self, tool_call_id: &str, accumulated_output: &str) -> (r:
        Result<(), ProjectionError>)
        ensures
            if old(self)@.tools.contains_key(tool_call_id@) {
                r is Ok && final(self)@ == old(self)@.with_tool_output(
                    tool_call_id@,
                    accumulated_output@,
                )
            } else {
                r is Err && r->Err_0 is UnknownTool && r->Err_0->UnknownTool_tool_call_id@
                    == tool_call_id@ && final(self)@ == old(self)@
            },
    {
        self.replace_output_of(&tool_call_id.to_owned(), accumulated_output)
    }

    fn replace_output_of(&mut self, tool_call_id: &String, accumulated_output: &str) -> (r:
        Result<(), ProjectionError>)
        ensures
            if old(self)@.tools.contains_key(tool_call_id@) {
                r is Ok && final(self)@ == old(self)@.with_tool_output(
                    tool_call_id@,
                    accumulated_output@,
                )
            } else {
                r == Err::<(), ProjectionError>(
                    ProjectionError::UnknownTool { tool_call_id: *tool_call_id },
                ) && final(self)@ == old(self)@
            },
    {
        let ghost before = self.active_tools@;
        match self.active_tools.remove(tool_call_id) {
            Some(mut preview) => {
                preview.output.replace(accumulated_output);
                let ghost changed = preview@;
                self.active_tools.insert(tool_call_id.clone(), preview);
                assert(self.active_tools@ =~= before.insert(tool_call_id@, changed));
                Ok(())
            },
            None => {
                assert(self.active_tools@ =~= before);
                Err(ProjectionError::UnknownTool { tool_call_id: tool_call_id.clone() })
            },
        }
    }

    fn finish_tool(&mut self, tool_call_id: &str) -> (r: Result<ToolPreview, ProjectionError>)
        ensures
            final(self)@ == old(self)@.without_tool(tool_call_id@),
            match r {
                Ok(preview) => {
                    old(self)@.tools.contains_key(tool_call_id@) && preview@ == old(self)@.tools[tool_call_id@]
                },
                Err(error) => !old(self)@.tools.contains_key(tool_call_id@)
                    && error is UnknownTool && error->UnknownTool_tool_call_id@ == tool_call_id@,
            },
    {
        self.finish_tool_call(&tool_call_id.to_owned())
    }

    fn finish_tool_call(&mut self, tool_call_id: &String) -> (r: Result<
        ToolPreview,
        ProjectionError,
    >)
        ensures
            final(self)@ == old(self)@.without_tool(tool_call_id@),
            match r {
                Ok(preview) => {
                    old(self)@.tools.contains_key(tool_call_id@) && preview@ == old(self)@.tools[tool_call_id@]
                },
                Err(error) => !old(self)@.tools.contains_key(tool_call_id@) && error
                    == (ProjectionError::UnknownTool { tool_call_id: *tool_call_id }),
            },
    {
        match self.active_tools.remove(tool_call_id) {
            Some(preview) => Ok(preview),
            None => Err(ProjectionError::UnknownTool { tool_call_id: tool_call_id.clone() }),
        }
    }

    fn assistant_block(&self, content_index: usize) -> (r: Option<&AssistantContentBlock>)
        ensures
            match r {
                Some(block) => has_block(self@.blocks, content_index) && block@ == self@.block(
                    content_index,
                ),
                None => !has_block(self@.blocks, content_index),
            },
    {
        match self.assistant.position(content_index) {
            Some(at) => Some(self.assistant.at(at)),
            None => None,
        }
    }

    fn assistant_block_snapshot(&self, content_index: usize) -> (r: Option<
        AssistantContentSnapshot,
    >)
        ensures
            match r {
                Some(snapshot) => has_block(self@.blocks, content_index) && snapshot.shows(
                    self@.block(content_index),
                ),
                None => !has_block(self@.blocks, content_index),
            },
    {
        match self.assistant_block(content_index) {
            Some(block) => Some(show_block(block)),
            None => None,
        }
    }

    fn assistant_blocks(&self) -> (r: Vec<&AssistantContentBlock>)
        ensures
            r@.len() == self@.blocks.len(),
            forall|i: int| 0 <= i < r@.len() ==> (#[trigger] r@[i])@ == self@.blocks[i],
    {
        let n: usize = self.assistant.len();
        let mut r: Vec<&AssistantContentBlock> = Vec::new();
        let mut i: usize = 0;
        while i < n
            invariant
                i <= n == self@.blocks.len(),
                self@.blocks == self.assistant.seq(),
                r@.len() == i,
                forall|k: int| 0 <= k < i ==> (#[trigger] r@[k])@ == self@.blocks[k],
            decreases n - i,
        {
            r.push(self.assistant.at(i));
            i += 1;
        }
        r
    }

    fn assistant_resident_bytes(&self) -> (n: usize)
        ensures
            n == total_bytes(self@.blocks),
            n <= self@.max_assistant_bytes,
    {
        self.assistant.total()
    }

    fn active_tool_count(&self) -> (n: usize)
        ensures
            n == self@.tools.dom().len(),
    {
        self.active_tools.len()
    }

    fn tool_snapshot(&self, tool_call_id: &str) -> (r: Option<ToolPreviewSnapshot>)
        ensures
            match r {
                Some(snapshot) => self@.tools.contains_key(tool_call_id@) && snapshot.shows(
                    tool_call_id@,
                    self@.tools[tool_call_id@],
                ),
                None => !self@.tools.contains_key(tool_call_id@),
            },
    {
        let key = tool_call_id.to_owned();
        match self.active_tools.get(&key) {
            Some(preview) => Some(show_tool(&key, preview)),
            None => None,
        }
    }

    fn direct_bash_snapshot(&self, request_id: &RequestId) -> (r: Option<DirectBashSnapshot>)
        ensures
            match r {
                Some(snapshot) => self@.direct_bash.contains_key(request_id@) && snapshot.shows(
                    request_id@,
                    self@.direct_bash[request_id@],
                ),
                None => !self@.direct_bash.contains_key(request_id@),
            },
    {
        match self.direct_bash.get(request_id) {
            Some(preview) => Some(show_bash(request_id, preview)),
            None => None,
        }
    }

    fn assistant_block_count(&self) -> (n: usize)
        ensures
            n == self@.blocks.len(),
    {
        self.assistant.len()
    }

    fn reconcile_assistant_message(
        &mut self,
        blocks: Vec<(usize, AssistantContentKind, String)>,
    ) -> (r: Result<(), ProjectionError>)
        ensures
            match reconciled(
                message_blocks(blocks@),
                old(self)@.max_assistant_bytes,
                old(self)@.max_assistant_blocks,
            ) {
                Ok(next) => r is Ok && final(self)@ == old(self)@.with_message(next),
                Err(error) => r == Err::<(), ProjectionError>(error) && final(self)@ == old(self)@,
            },
    {
        match build_message(blocks, self.assistant.max_bytes, self.max_assistant_blocks) {
            Ok(assistant) => {
                self.assistant = assistant;
                Ok(())
            },
            Err(error) => Err(error),
        }
    }

    fn snapshot(&self) -> (r: LiveProjectionSnapshot)
        ensures
            pictured(self@, self.tool_ids(), self.bash_ids(), r),
    {
        let mut assistant_blocks: Vec<AssistantContentSnapshot> = Vec::new();
        let block_count: usize = self.assistant.len();
        let mut i: usize = 0;
        while i < block_count
            invariant
                i <= block_count == self@.blocks.len(),
                self@.blocks == self.assistant.seq(),
                assistant_blocks@.len() == i,
                forall|k: int|
                    0 <= k < i ==> (#[trigger] assistant_blocks@[k]).shows(self@.blocks[k]),
            decreases block_count - i,
        {
            assistant_blocks.push(show_block(self.assistant.at(i)));
            i += 1;
        }
        let mut active_tools: Vec<ToolPreviewSnapshot> = Vec::new();
        let tool_count: usize = self.active_tools.len();
        let mut j: usize = 0;
        while j < tool_count
            invariant
                j <= tool_count == self.active_tools.key_models().len(),
                active_tools@.len() == j,
                forall|k: int|
                    0 <= k < j ==> (#[trigger] active_tools@[k]).shows(
                        self.active_tools.key_models()[k],
                        self.active_tools@[self.active_tools.key_models()[k]],
                    ),
            decreases tool_count - j,
        {
            active_tools.push(
                show_tool(self.active_tools.key_at(j), self.active_tools.value_at(j)),
            );
            j += 1;
        }
        let mut direct_bash: Vec<DirectBashSnapshot> = Vec::new();
        let bash_count: usize = self.direct_bash.len();
        let mut m: usize = 0;
        while m < bash_count
            invariant
                m <= bash_count == self.direct_bash.key_models().len(),
                direct_bash@.len() == m,
                forall|k: int|
                    0 <= k < m ==> (#[trigger] direct_bash@[k]).shows(
                        self.direct_bash.key_models()[k],
                        self.direct_bash@[self.direct_bash.key_models()[k]],
                    ),
            decreases bash_count - m,
        {
            direct_bash.push(show_bash(self.direct_bash.key_at(m), self.direct_bash.value_at(m)));
            m += 1;
        }
        let reasoning = self.reasoning_text();
        LiveProjectionSnapshot { assistant_blocks, active_tools, direct_bash, reasoning }
    }
}

/// Whether `snapshot` is the picture of what is live; the identities of the tool calls
/// and bash requests are given in order.
pub open spec fn pictured(
    live: LiveProjectionView,
    tool_ids: Seq<Seq<char>>,
    bash_ids: Seq<Seq<char>>,
    snapshot: LiveProjectionSnapshot,
) -> bool {
    &&& snapshot.assistant_blocks@.len() == live.blocks.len()
    &&& forall|i: int|
        0 <= i < live.blocks.len() ==> (#[trigger] snapshot.assistant_blocks@[i]).shows(
            live.blocks[i],
        )
    &&& forall|i: int, j: int|
        0 <= i < j < live.blocks.len() ==> (#[trigger] snapshot.assistant_blocks@[i]).content_index
            < (#[trigger] snapshot.assistant_blocks@[j]).content_index
    &&& snapshot.active_tools@.len() == tool_ids.len()
    &&& tool_ids.to_set() == live.tools.dom()
    &&& tool_ids.len() == live.tools.dom().len()
    &&& strictly_ordered::<String>(tool_ids)
    &&& forall|i: int|
        0 <= i < tool_ids.len() ==> (#[trigger] snapshot.active_tools@[i]).shows(
            tool_ids[i],
            live.tools[tool_ids[i]],
        )
    &&& snapshot.direct_bash@.len() == bash_ids.len()
    &&& bash_ids.to_set() == live.direct_bash.dom()
    &&& bash_ids.len() == live.direct_bash.dom().len()
    &&& strictly_ordered::<RequestId>(bash_ids)
    &&& forall|i: int|
        0 <= i < bash_ids.len() ==> (#[trigger] snapshot.direct_bash@[i]).shows(
            bash_ids[i],
            live.direct_bash[bash_ids[i]],
        )
    &&& snapshot.reasoning@ == live.reasoning()
}

/// Bounded hot data of one run. Every projection stays within its limits.
#[derive(Debug)]
pub struct LiveProjection {
    state: ProjectionState,
}

impl View for LiveProjection {
    type V = LiveProjectionView;

    closed spec fn view(&self) -> LiveProjectionView {
        self.state@
    }
}

impl LiveProjection {
    #[verifier::type_invariant]
    closed spec fn keeps_its_limits(&self) -> bool {
        self.state@.within_limits()
    }

    /// The identities of the active tool calls, in order.
    pub closed spec fn tool_ids(&self) -> Seq<Seq<char>> {
        self.state.tool_ids()
    }

    /// The identities of the active bash requests, in order.
    pub closed spec fn bash_ids(&self) -> Seq<Seq<char>> {
        self.state.bash_ids()
    }

    pub fn new(limits: RuntimeLimits) -> (r: Self)
        ensures
            r@ == LiveProjectionView::empty(limits),
            r@.within_limits(),
    {
        proof {
            assert(LiveProjectionView::empty(limits).within_limits());
        }
        LiveProjection { state: ProjectionState::new(limits) }
    }

    /// Starts a bounded preview for a direct bash request. Its request id is the
    /// only correlation key.
    pub fn start_direct_bash(&mut self, request_id: RequestId) -> (r: Result<(), ProjectionError>)
        ensures
            match old(self)@.bash_refusal(request_id) {
                Some(error) => r == Err::<(), ProjectionError>(error) && final(self)@ == old(self)@,
                None => r is Ok && final(self)@ == old(self)@.with_bash(request_id@),
            },
            final(self)@.within_limits(),
    {
        proof {
            use_type_invariant(&*self);
        }
        let ghost before = self@;
        let mut state = ProjectionState::blank();
        core::mem::swap(&mut state, &mut self.state);
        let ghost id = request_id@;
        let r = state.start_direct_bash(request_id);
        proof {
            use_type_invariant(&state.assistant);
            lemma_live_entries(
                before.direct_bash,
                id,
                Some(BoundedTextView::empty(before.max_tool_preview_bytes)),
            );
        }
        self.state = state;
        r
    }

    pub fn append_direct_bash_delta(&mut self, request_id: &RequestId, delta: &str) -> (r: Result<
        (),
        ProjectionError,
    >)
        ensures
            if old(self)@.direct_bash.contains_key(request_id@) {
                r is Ok && final(self)@ == old(self)@.with_bash_delta(request_id@, delta@)
            } else {
                r == Err::<(), ProjectionError>(
                    ProjectionError::UnknownDirectBash { request_id: *request_id },
                ) && final(self)@ == old(self)@
            },
            final(self)@.within_limits(),
    {
        proof {
            use_type_invariant(&*self);
        }
        let ghost before = self@;
        let mut state = ProjectionState::blank();
        core::mem::swap(&mut state, &mut self.state);
        let r = state.append_direct_bash_delta(request_id, delta);
        proof {
            use_type_invariant(&state.assistant);
            if before.direct_bash.contains_key(request_id@) {
                lemma_appended(before.direct_bash[request_id@], delta@);
                lemma_live_entries(
                    before.direct_bash,
                    request_id@,
                    Some(before.direct_bash[request_id@].appended(delta@)),
                );
            }
        }
        self.state = state;
        r
    }

    pub fn finish_direct_bash(&mut self, request_id: &RequestId) -> (r: Result<
        BoundedText,
        ProjectionError,
    >)
        ensures
            final(self)@ == old(self)@.without_bash(request_id@),
            match r {
                Ok(text) => {
                    old(self)@.direct_bash.contains_key(request_id@) && text@ == old(self)@.direct_bash[request_id@]
                },
                Err(error) => !old(self)@.direct_bash.contains_key(request_id@) && error
                    == (ProjectionError::UnknownDirectBash { request_id: *request_id }),
            },
            final(self)@.within_limits(),
    {
        proof {
            use_type_invariant(&*self);
        }
        let ghost before = self@;
        let mut state = ProjectionState::blank();
        core::mem::swap(&mut state, &mut self.state);
        let r = state.finish_direct_bash(request_id);
        proof {
            use_type_invariant(&state.assistant);
            lemma_live_entries(before.direct_bash, request_id@, None);
        }
        self.state = state;
        r
    }

    pub fn cancel_direct_bash(&mut self, request_id: &RequestId) -> (r: Option<BoundedText>)
        ensures
            final(self)@ == old(self)@.without_bash(request_id@),
            match r {
                Some(text) => {
                    old(self)@.direct_bash.contains_key(request_id@) && text@ == old(self)@.direct_bash[request_id@]
                },
                None => !old(self)@.direct_bash.contains_key(request_id@),
            },
            final(self)@.within_limits(),
    {
        proof {
            use_type_invariant(&*self);
        }
        let ghost before = self@;
        let mut state = ProjectionState::blank();
        core::mem::swap(&mut state, &mut self.state);
        let r = state.cancel_direct_bash(request_id);
        proof {
            use_type_invariant(&state.assistant);
            lemma_live_entries(before.direct_bash, request_id@, None);
        }
        self.state = state;
        r
    }

    pub fn direct_bash_preview(&self, request_id: &RequestId) -> (r: Option<&BoundedText>)
        ensures
            match r {
                Some(text) => self@.direct_bash.contains_key(request_id@) && text@
                    == self@.direct_bash[request_id@],
                None => !self@.direct_bash.contains_key(request_id@),
            },
            self@.within_limits(),
    {
        proof {
            use_type_invariant(self);
        }
        self.state.direct_bash_preview(request_id)
    }

    pub fn active_direct_bash_count(&self) -> (n: usize)
        ensures
            n == self@.direct_bash.dom().len(),
            self@.within_limits(),
    {
        proof {
            use_type_invariant(self);
        }
        self.state.active_direct_bash_count()
    }

    pub fn start_assistant_block(&mut self, content_index: usize, kind: AssistantContentKind) -> (r:
        Result<(), ProjectionError>)
        ensures
            match old(self)@.block_refusal(content_index) {
                Some(error) => r == Err::<(), ProjectionError>(error) && final(self)@ == old(self)@,
                None => r is Ok && final(self)@ == old(self)@.with_empty_block(
                    content_index,
                    kind,
                ),
            },
            final(self)@.within_limits(),
    {
        proof {
            use_type_invariant(&*self);
        }
        let ghost before = self@;
        let mut state = ProjectionState::blank();
        core::mem::swap(&mut state, &mut self.state);
        let r = state.start_assistant_block(content_index, kind);
        proof {
            use_type_invariant(&state.assistant);
            lemma_with_block_len(
                before.blocks,
                AssistantContentBlockView {
                    content_index,
                    kind,
                    content: BoundedTextView::empty(before.max_assistant_bytes),
                    complete: false,
                },
            );
        }
        self.state = state;
        r
    }

    /// Adds streamed text to a block. The blocks then drop their oldest text, the
    /// lowest content index first, until they fit their budget together.
    pub fn append_assistant_delta(
        &mut self,
        content_index: usize,
        kind: AssistantContentKind,
        delta: &str,
    ) -> (r: Result<(), ProjectionError>)
        ensures
            match old(self)@.edit_refusal(content_index, kind) {
                Some(error) => r == Err::<(), ProjectionError>(error) && final(self)@ == old(self)@,
                None => r is Ok && final(self)@ == old(self)@.with_edited(
                    content_index,
                    old(self)@.block(content_index).content.appended(delta@),
                    old(self)@.block(content_index).complete,
                ),
            },
            final(self)@.within_limits(),
    {
        proof {
            use_type_invariant(&*self);
        }
        let ghost before = self@;
        let mut state = ProjectionState::blank();
        core::mem::swap(&mut state, &mut self.state);
        let r = state.append_assistant_delta(content_index, kind, delta);
        proof {
            use_type_invariant(&state.assistant);
            lemma_edited_len(
                before,
                content_index,
                before.block(content_index).content.appended(delta@),
                before.block(content_index).complete,
            );
        }
        self.state = state;
        r
    }

    /// Marks a block complete. Text that comes with its end replaces what was
    /// streamed before the budget is applied again.
    pub fn finish_assistant_block(
        &mut self,
        content_index: usize,
        kind: AssistantContentKind,
        authoritative_content: Option<&str>,
    ) -> (r: Result<(), ProjectionError>)
        ensures
            match old(self)@.edit_refusal(content_index, kind) {
                Some(error) => r == Err::<(), ProjectionError>(error) && final(self)@ == old(self)@,
                None => r is Ok && final(self)@ == old(self)@.with_edited(
                    content_index,
                    match authoritative_content {
                        Some(text) => old(self)@.block(content_index).content.replaced(text@),
                        None => old(self)@.block(content_index).content,
                    },
                    true,
                ),
            },
            final(self)@.within_limits(),
    {
        proof {
            use_type_invariant(&*self);
        }
        let ghost before = self@;
        let mut state = ProjectionState::blank();
        core::mem::swap(&mut state, &mut self.state);
        let r = state.finish_assistant_block(content_index, kind, authoritative_content);
        proof {
            use_type_invariant(&state.assistant);
            lemma_edited_len(
                before,
                content_index,
                match authoritative_content {
                    Some(text) => before.block(content_index).content.replaced(text@),
                    None => before.block(content_index).content,
                },
                true,
            );
        }
        self.state = state;
        r
    }

    pub fn clear_assistant_message(&mut self)
        ensures
            final(self)@ == old(self)@.without_message(),
            final(self)@.within_limits(),
    {
        proof {
            use_type_invariant(&*self);
        }
        let ghost before = self@;
        let mut state = ProjectionState::blank();
        core::mem::swap(&mut state, &mut self.state);
        state.clear_assistant_message();
        proof {
            use_type_invariant(&state.assistant);
        }
        self.state = state;
    }

    /// A new turn starts with no streamed message and no reasoning.
    pub fn start_agent_turn(&mut self)
        ensures
            final(self)@ == old(self)@.new_turn(),
            final(self)@.within_limits(),
    {
        proof {
            use_type_invariant(&*self);
        }
        let ghost before = self@;
        let mut state = ProjectionState::blank();
        core::mem::swap(&mut state, &mut self.state);
        state.start_agent_turn();
        proof {
            use_type_invariant(&state.assistant);
        }
        self.state = state;
    }

    /// A new message of the same turn: its blocks start empty, and the reasoning
    /// so far is carried over.
    pub fn start_assistant_message(&mut self)
        ensures
            final(self)@ == old(self)@.new_message(),
            final(self)@.within_limits(),
    {
        proof {
            use_type_invariant(&*self);
        }
        let ghost before = self@;
        let mut state = ProjectionState::blank();
        core::mem::swap(&mut state, &mut self.state);
        state.start_assistant_message();
        proof {
            use_type_invariant(&state.assistant);
        }
        self.state = state;
    }

    /// Forgets the tools that never finished, and says how many there were.
    pub fn settle_agent_turn(&mut self) -> (unfinished: usize)
        ensures
            final(self)@ == old(self)@.without_tools(),
            unfinished == old(self)@.tools.dom().len(),
            final(self)@.within_limits(),
    {
        proof {
            use_type_invariant(&*self);
        }
        let ghost before = self@;
        let mut state = ProjectionState::blank();
        core::mem::swap(&mut state, &mut self.state);
        let r = state.settle_agent_turn();
        proof {
            use_type_invariant(&state.assistant);
        }
        self.state = state;
        r
    }

    pub fn start_tool(&mut self, tool_call_id: String, tool_name: String) -> (r: Result<
        (),
        ProjectionError,
    >)
        ensures
            match old(self)@.tool_refusal(tool_call_id) {
                Some(error) => r == Err::<(), ProjectionError>(error) && final(self)@ == old(self)@,
                None => r is Ok && final(self)@ == old(self)@.with_tool(
                    tool_call_id@,
                    tool_name@,
                ),
            },
            final(self)@.within_limits(),
    {
        proof {
            use_type_invariant(&*self);
        }
        let ghost before = self@;
        let mut state = ProjectionState::blank();
        core::mem::swap(&mut state, &mut self.state);
        let ghost id = tool_call_id@;
        let ghost name = tool_name@;
        let r = state.start_tool(tool_call_id, tool_name);
        proof {
            use_type_invariant(&state.assistant);
            lemma_live_entries(
                before.tools,
                id,
                Some(
                    ToolPreviewView {
                        tool_name: name,
                        output: BoundedTextView::empty(before.max_tool_preview_bytes),
                    },
                ),
            );
        }
        self.state = state;
        r
    }

    /// Puts the accumulated output of a tool in place of what was shown.
    pub fn replace_tool_output(&mut self, tool_call_id: &str, accumulated_output: &str) -> (r:
        Result<(), ProjectionError>)
        ensures
            if old(self)@.tools.contains_key(tool_call_id@) {
                r is Ok && final(self)@ == old(self)@.with_tool_output(
                    tool_call_id@,
                    accumulated_output@,
                )
            } else {
                r is Err && r->Err_0 is UnknownTool && r->Err_0->UnknownTool_tool_call_id@
                    == tool_call_id@ && final(self)@ == old(self)@
            },
            final(self)@.within_limits(),
    {
        proof {
            use_type_invariant(&*self);
        }
        let ghost before = self@;
        let mut state = ProjectionState::blank();
        core::mem::swap(&mut state, &mut self.state);
        let r = state.replace_tool_output(tool_call_id, accumulated_output);
        proof {
            use_type_invariant(&state.assistant);
            lemma_tool_output(before, tool_call_id@, accumulated_output@);
        }
        self.state = state;
        r
    }

    pub(crate) fn replace_output_of(&mut self, tool_call_id: &String, accumulated_output: &str) -> (r:
        Result<(), ProjectionError>)
        ensures
            if old(self)@.tools.contains_key(tool_call_id@) {
                r is Ok && final(self)@ == old(self)@.with_tool_output(
                    tool_call_id@,
                    accumulated_output@,
                )
            } else {
                r == Err::<(), ProjectionError>(
                    ProjectionError::UnknownTool { tool_call_id: *tool_call_id },
                ) && final(self)@ == old(self)@
            },
            final(self)@.within_limits(),
    {
        proof {
            use_type_invariant(&*self);
        }
        let ghost before = self@;
        let mut state = ProjectionState::blank();
        core::mem::swap(&mut state, &mut self.state);
        let r = state.replace_output_of(tool_call_id, accumulated_output);
        proof {
            use_type_invariant(&state.assistant);
            lemma_tool_output(before, tool_call_id@, accumulated_output@);
        }
        self.state = state;
        r
    }

    pub fn finish_tool(&mut self, tool_call_id: &str) -> (r: Result<ToolPreview, ProjectionError>)
        ensures
            final(self)@ == old(self)@.without_tool(tool_call_id@),
            match r {
                Ok(preview) => {
                    old(self)@.tools.contains_key(tool_call_id@) && preview@ == old(self)@.tools[tool_call_id@]
                },
                Err(error) => !old(self)@.tools.contains_key(tool_call_id@)
                    && error is UnknownTool && error->UnknownTool_tool_call_id@ == tool_call_id@,
            },
            final(self)@.within_limits(),
    {
        proof {
            use_type_invariant(&*self);
        }
        let ghost before = self@;
        let mut state = ProjectionState::blank();
        core::mem::swap(&mut state, &mut self.state);
        let r = state.finish_tool(tool_call_id);
        proof {
            use_type_invariant(&state.assistant);
            lemma_live_entries(before.tools, tool_call_id@, None);
        }
        self.state = state;
        r
    }

    pub(crate) fn finish_tool_call(&mut self, tool_call_id: &String) -> (r: Result<
        ToolPreview,
        ProjectionError,
    >)
        ensures
            final(self)@ == old(self)@.without_tool(tool_call_id@),
            match r {
                Ok(preview) => {
                    old(self)@.tools.contains_key(tool_call_id@) && preview@ == old(self)@.tools[tool_call_id@]
                },
                Err(error) => !old(self)@.tools.contains_key(tool_call_id@) && error
                    == (ProjectionError::UnknownTool { tool_call_id: *tool_call_id }),
            },
            final(self)@.within_limits(),
    {
        proof {
            use_type_invariant(&*self);
        }
        let ghost before = self@;
        let mut state = ProjectionState::blank();
        core::mem::swap(&mut state, &mut self.state);
        let r = state.finish_tool_call(tool_call_id);
        proof {
            use_type_invariant(&state.assistant);
            lemma_live_entries(before.tools, tool_call_id@, None);
        }
        self.state = state;
        r
    }

    pub fn assistant_block(&self, content_index: usize) -> (r: Option<&AssistantContentBlock>)
        ensures
            match r {
                Some(block) => has_block(self@.blocks, content_index) && block@ == self@.block(
                    content_index,
                ),
                None => !has_block(self@.blocks, content_index),
            },
    {
        self.state.assistant_block(content_index)
    }

    pub fn assistant_block_snapshot(&self, content_index: usize) -> (r: Option<
        AssistantContentSnapshot,
    >)
        ensures
            match r {
                Some(snapshot) => has_block(self@.blocks, content_index) && snapshot.shows(
                    self@.block(content_index),
                ),
                None => !has_block(self@.blocks, content_index),
            },
            self@.within_limits(),
    {
        proof {
            use_type_invariant(self);
        }
        self.state.assistant_block_snapshot(content_index)
    }

    /// The blocks in the order of their content indices.
    pub fn assistant_blocks(&self) -> (r: Vec<&AssistantContentBlock>)
        ensures
            r@.len() == self@.blocks.len(),
            forall|i: int| 0 <= i < r@.len() ==> (#[trigger] r@[i])@ == self@.blocks[i],
            self@.within_limits(),
    {
        proof {
            use_type_invariant(self);
        }
        self.state.assistant_blocks()
    }

    /// Bytes of streamed assistant text that are held; never more than the limit.
    pub fn assistant_resident_bytes(&self) -> (n: usize)
        ensures
            n == total_bytes(self@.blocks),
            n <= self@.max_assistant_bytes,
            self@.within_limits(),
    {
        proof {
            use_type_invariant(self);
        }
        self.state.assistant_resident_bytes()
    }

    pub fn active_tool_count(&self) -> (n: usize)
        ensures
            n == self@.tools.dom().len(),
            self@.within_limits(),
    {
        proof {
            use_type_invariant(self);
        }
        self.state.active_tool_count()
    }

    pub fn tool_snapshot(&self, tool_call_id: &str) -> (r: Option<ToolPreviewSnapshot>)
        ensures
            match r {
                Some(snapshot) => self@.tools.contains_key(tool_call_id@) && snapshot.shows(
                    tool_call_id@,
                    self@.tools[tool_call_id@],
                ),
                None => !self@.tools.contains_key(tool_call_id@),
            },
            self@.within_limits(),
    {
        proof {
            use_type_invariant(self);
        }
        self.state.tool_snapshot(tool_call_id)
    }

    pub fn direct_bash_snapshot(&self, request_id: &RequestId) -> (r: Option<DirectBashSnapshot>)
        ensures
            match r {
                Some(snapshot) => self@.direct_bash.contains_key(request_id@) && snapshot.shows(
                    request_id@,
                    self@.direct_bash[request_id@],
                ),
                None => !self@.direct_bash.contains_key(request_id@),
            },
            self@.within_limits(),
    {
        proof {
            use_type_invariant(self);
        }
        self.state.direct_bash_snapshot(request_id)
    }

    pub fn assistant_block_count(&self) -> (n: usize)
        ensures
            n == self@.blocks.len(),
            self@.within_limits(),
    {
        proof {
            use_type_invariant(self);
        }
        self.state.assistant_block_count()
    }

    /// Puts the completed content of the assistant message in place of what was
    /// streamed, all at once or not at all.
    pub fn reconcile_assistant_message(
        &mut self,
        blocks: Vec<(usize, AssistantContentKind, String)>,
    ) -> (r: Result<(), ProjectionError>)
        ensures
            match reconciled(
                message_blocks(blocks@),
                old(self)@.max_assistant_bytes,
                old(self)@.max_assistant_blocks,
            ) {
                Ok(next) => r is Ok && final(self)@ == old(self)@.with_message(next),
                Err(error) => r == Err::<(), ProjectionError>(error) && final(self)@ == old(self)@,
            },
            final(self)@.within_limits(),
    {
        proof {
            use_type_invariant(&*self);
        }
        let ghost before = self@;
        let mut state = ProjectionState::blank();
        core::mem::swap(&mut state, &mut self.state);
        let ghost message = message_blocks(blocks@);
        let r = state.reconcile_assistant_message(blocks);
        proof {
            use_type_invariant(&state.assistant);
            lemma_reconciled_len(message, before.max_assistant_bytes, before.max_assistant_blocks);
            match reconciled(message, before.max_assistant_bytes, before.max_assistant_blocks) {
                Ok(next) => {
                    lemma_within_budget(next, before.max_assistant_bytes);
                },
                Err(_) => {},
            }
        }
        self.state = state;
        r
    }

    /// A picture of everything that is live, tools and bash requests in the order
    /// of their identities.
    pub fn snapshot(&self) -> (r: LiveProjectionSnapshot)
        ensures
            self.shown_by(r),
            self@.within_limits(),
    {
        proof {
            use_type_invariant(self);
        }
        self.state.snapshot()
    }

    /// Whether `snapshot` is the picture of this projection.
    pub open spec fn shown_by(&self, snapshot: LiveProjectionSnapshot) -> bool {
        pictured(self@, self.tool_ids(), self.bash_ids(), snapshot)
    }
}

fn show_block(block: &AssistantContentBlock) -> (r: AssistantContentSnapshot)
    ensures
        r.shows(block@),
{
    AssistantContentSnapshot {
        content_index: block.content_index,
        kind: block.kind,
        text: block.content.as_str().to_owned(),
        dropped_bytes: block.content.dropped_bytes(),
        complete: block.complete,
    }
}

fn show_tool(tool_call_id: &String, preview: &ToolPreview) -> (r: ToolPreviewSnapshot)
    ensures
        r.shows(tool_call_id@, preview@),
{
    ToolPreviewSnapshot {
        tool_call_id: tool_call_id.clone(),
        tool_name: preview.tool_name.clone(),
        output: preview.output.as_str().to_owned(),
        dropped_bytes: preview.output.dropped_bytes(),
    }
}

fn show_bash(request_id: &RequestId, preview: &BoundedText) -> (r: DirectBashSnapshot)
    ensures
        r.shows(request_id@, preview@),
{
    DirectBashSnapshot {
        request_id: request_id.clone(),
        output: preview.as_str().to_owned(),
        dropped_bytes: preview.dropped_bytes(),
    }
}

/// The blocks of a completed message: index, kind and text.
pub open spec fn message_blocks(blocks: Seq<(usize, AssistantContentKind, String)>) -> Seq<
    (usize, AssistantContentKind, Seq<char>),
> {
    blocks.map_values(|block: (usize, AssistantContentKind, String)| (block.0, block.1, block.2@))
}

/// The complete blocks of a message, before the budget is applied, or what is
/// wrong with the first block that cannot be taken.
pub open spec fn reconciled(
    blocks: Seq<(usize, AssistantContentKind, Seq<char>)>,
    max_bytes: nat,
    max_blocks: usize,
) -> Result<Seq<AssistantContentBlockView>, ProjectionError>
    decreases blocks.len(),
{
    if blocks.len() == 0 {
        Ok(Seq::empty())
    } else {
        let (content_index, kind, text) = blocks.last();
        match reconciled(blocks.drop_last(), max_bytes, max_blocks) {
            Err(error) => Err(error),
            Ok(next) => if has_block(next, content_index) {
                Err(ProjectionError::DuplicateAssistantBlock { content_index })
            } else if next.len() >= max_blocks {
                Err(ProjectionError::TooManyAssistantBlocks { limit: max_blocks })
            } else {
                Ok(
                    with_block(
                        next,
                        AssistantContentBlockView {
                            content_index,
                            kind,
                            content: BoundedTextView::empty(max_bytes).replaced(text),
                            complete: true,
                        },
                    ),
                )
            },
        }
    }
}

/// The blocks before the budget is applied: in order, each within its bound.
spec fn unbudgeted_wf(blocks: Seq<AssistantContentBlockView>, max: nat) -> bool {
    &&& forall|i: int, j: int|
        0 <= i < j < blocks.len() ==> (#[trigger] blocks[i]).content_index < (
        #[trigger] blocks[j]).content_index
    &&& forall|i: int|
        0 <= i < blocks.len() ==> (#[trigger] blocks[i]).content.max_bytes == max
            && blocks[i].content.wf()
}

proof fn lemma_reconciled_prefix(
    blocks: Seq<(usize, AssistantContentKind, Seq<char>)>,
    n: int,
    max_bytes: nat,
    max_blocks: usize,
)
    requires
        0 <= n <= blocks.len(),
        reconciled(blocks.take(n), max_bytes, max_blocks) is Err,
    ensures
        reconciled(blocks, max_bytes, max_blocks) == reconciled(
            blocks.take(n),
            max_bytes,
            max_blocks,
        ),
    decreases blocks.len(),
{
    if n == blocks.len() {
        assert(blocks.take(n) =~= blocks);
    } else {
        assert(blocks.drop_last().take(n) =~= blocks.take(n));
        lemma_reconciled_prefix(blocks.drop_last(), n, max_bytes, max_blocks);
    }
}

proof fn lemma_total_bound(blocks: Seq<AssistantContentBlockView>, max: nat)
    requires
        unbudgeted_wf(blocks, max),
    ensures
        total_bytes(blocks) <= max * blocks.len(),
    decreases blocks.len(),
{
    if blocks.len() > 0 {
        let rest = blocks.drop_first();
        assert(unbudgeted_wf(rest, max)) by {
            assert forall|i: int, j: int| 0 <= i < j < rest.len() implies (
            #[trigger] rest[i]).content_index < (#[trigger] rest[j]).content_index by {
                assert(blocks[i + 1].content_index < blocks[j + 1].content_index);
            }
            assert forall|i: int| 0 <= i < rest.len() implies (
            #[trigger] rest[i]).content.max_bytes == max && rest[i].content.wf() by {
                assert(rest[i] == blocks[i + 1]);
            }
        }
        lemma_total_bound(rest, max);
        assert(blocks[0].content.wf());
        assert(max * blocks.len() == max * rest.len() + max) by (nonlinear_arith)
            requires
                blocks.len() == rest.len() + 1,
        ;
    }
}

/// Builds the blocks of a completed message.
fn build_message(
    blocks: Vec<(usize, AssistantContentKind, String)>,
    max_bytes: usize,
    max_blocks: usize,
) -> (r: Result<AssistantBlocks, ProjectionError>)
    ensures
        match reconciled(message_blocks(blocks@), max_bytes as nat, max_blocks) {
            Ok(next) => r is Ok && r->Ok_0.seq() == within_budget(next, max_bytes as nat)
                && r->Ok_0.max() == max_bytes,
            Err(error) => r == Err::<AssistantBlocks, ProjectionError>(error),
        },
{
    let ghost message = message_blocks(blocks@);
    let mut next: Vec<AssistantContentBlock> = Vec::new();
    let mut total: u128 = 0;
    let mut i: usize = 0;
    assert(message.take(0) =~= Seq::<(usize, AssistantContentKind, Seq<char>)>::empty());
    assert(block_views(next@) =~= Seq::<AssistantContentBlockView>::empty());
    while i < blocks.len()
        invariant
            i <= blocks@.len(),
            message == message_blocks(blocks@),
            next@.len() <= i,
            reconciled(message.take(i as int), max_bytes as nat, max_blocks) == Ok::<
                Seq<AssistantContentBlockView>,
                ProjectionError,
            >(block_views(next@)),
            unbudgeted_wf(block_views(next@), max_bytes as nat),
            total == total_bytes(block_views(next@)),
        decreases blocks@.len() - i,
    {
        let content_index: usize = blocks[i].0;
        let kind = blocks[i].1;
        let ghost before = block_views(next@);
        proof {
            assert(message.take(i + 1).drop_last() =~= message.take(i as int));
            assert(message.take(i + 1).last() == (content_index, kind, blocks@[i as int].2@));
        }
        let mut at: usize = 0;
        while at < next.len() && next[at].content_index < content_index
            invariant
                at <= next@.len(),
                before == block_views(next@),
                forall|k: int|
                    0 <= k < at ==> (#[trigger] before[k]).content_index < content_index,
            decreases next@.len() - at,
        {
            assert(before[at as int].content_index < content_index);
            at += 1;
        }
        if at < next.len() && next[at].content_index == content_index {
            proof {
                assert(before[at as int].content_index == content_index);
                lemma_reconciled_prefix(message, i + 1, max_bytes as nat, max_blocks);
            }
            return Err(ProjectionError::DuplicateAssistantBlock { content_index });
        }
        proof {
            assert forall|k: int| at <= k < before.len() implies content_index < (
            #[trigger] before[k]).content_index by {
                assert(before[at as int].content_index == next@[at as int].content_index);
                if k > at {
                    assert(before[at as int].content_index < before[k].content_index);
                }
            }
            assert(!has_block(before, content_index));
        }
        if next.len() >= max_blocks {
            proof {
                lemma_reconciled_prefix(message, i + 1, max_bytes as nat, max_blocks);
            }
            return Err(ProjectionError::TooManyAssistantBlocks { limit: max_blocks });
        }
        let mut content = BoundedText::new(max_bytes);
        content.replace(blocks[i].2.as_str());
        let added: usize = content.len_bytes();
        let block = AssistantContentBlock { content_index, kind, content, complete: true };
        let ghost model = block@;
        next.insert(at, block);
        proof {
            let after = block_views(next@);
            assert(after =~= before.insert(at as int, model));
            lemma_with_block(before, model, at as int);
            assert forall|x: int, y: int| 0 <= x < y < after.len() implies (
            #[trigger] after[x]).content_index < (#[trigger] after[y]).content_index by {
                let p = if x < at { x } else { x - 1 };
                let q = if y < at { y } else { y - 1 };
                if x != at && y != at {
                    assert(before[p].content_index < before[q].content_index);
                } else if x == at {
                    assert(after[y] == before[y - 1]);
                } else {
                    assert(after[x] == before[x]);
                }
            }
            assert forall|x: int| 0 <= x < after.len() implies (
            #[trigger] after[x]).content.max_bytes == max_bytes && after[x].content.wf() by {
                if x < at {
                    assert(after[x] == before[x]);
                } else if x > at {
                    assert(after[x] == before[x - 1]);
                }
            }
            assert(unbudgeted_wf(after, max_bytes as nat));
            lemma_total_bound(after, max_bytes as nat);
            assert(max_bytes * after.len() <= usize::MAX * usize::MAX) by (nonlinear_arith)
                requires
                    0 <= max_bytes <= usize::MAX,
                    0 <= after.len() <= usize::MAX,
            ;
            assert(usize::MAX * usize::MAX <= u128::MAX) by (nonlinear_arith)
                requires
                    0 <= usize::MAX <= 0xffff_ffff_ffff_ffff,
            ;
        }
        total = total + added as u128;
        i += 1;
    }
    assert(message.take(message.len() as int) =~= message);
    let ghost all = block_views(next@);
    let excess: u128 = if total > max_bytes as u128 {
        total - max_bytes as u128
    } else {
        0
    };
    trim_blocks(&mut next, excess);
    proof {
        lemma_within_budget(all, max_bytes as nat);
        let after = block_views(next@);
        assert(after == within_budget(all, max_bytes as nat));
        assert forall|x: int, y: int| 0 <= x < y < after.len() implies (
        #[trigger] after[x]).content_index < (#[trigger] after[y]).content_index by {
            assert(all[x].content_index < all[y].content_index);
        }
        assert forall|x: int| 0 <= x < after.len() implies (#[trigger] after[x]).content.max_bytes
            == max_bytes && after[x].content.wf() by {
            assert(all[x].content.wf());
        }
    }
    Ok(AssistantBlocks { blocks: next, max_bytes })
}

proof fn lemma_live_entries<V>(entries: Map<Seq<char>, V>, id: Seq<char>, value: Option<V>)
    requires
        entries.dom().finite(),
    ensures
        entries.remove(id).dom().finite(),
        entries.remove(id).dom().len() <= entries.dom().len(),
        value is Some ==> entries.insert(id, value->0).dom().finite(),
        value is Some ==> entries.insert(id, value->0).dom().len() == entries.dom().len() + (
        if entries.contains_key(id) {
            0int
        } else {
            1
        }),
{
    assert(entries.remove(id).dom() =~= entries.dom().remove(id));
    match value {
        Some(value) => {
            assert(entries.insert(id, value).dom() =~= entries.dom().insert(id));
        },
        None => {},
    }
}

proof fn lemma_appended(text: BoundedTextView, delta: Seq<char>)
    ensures
        text.appended(delta).wf(),
        text.appended(delta).max_bytes == text.max_bytes,
        text.replaced(delta).wf(),
        text.replaced(delta).max_bytes == text.max_bytes,
{
    lemma_suffix_within(text.text + delta, text.max_bytes);
    lemma_suffix_within(delta, text.max_bytes);
}

proof fn lemma_tool_output(live: LiveProjectionView, id: Seq<char>, output: Seq<char>)
    requires
        live.within_limits(),
    ensures
        live.tools.contains_key(id) ==> live.with_tool_output(id, output).within_limits(),
{
    if live.tools.contains_key(id) {
        let tool = live.tools[id];
        lemma_appended(tool.output, output);
        lemma_live_entries(
            live.tools,
            id,
            Some(ToolPreviewView { output: tool.output.replaced(output), ..tool }),
        );
    }
}

proof fn lemma_with_block_len(
    blocks: Seq<AssistantContentBlockView>,
    block: AssistantContentBlockView,
)
    ensures
        with_block(blocks, block).len() == blocks.len() + 1,
    decreases blocks.len(),
{
    if blocks.len() > 0 && !(block.content_index < blocks[0].content_index) {
        lemma_with_block_len(blocks.drop_first(), block);
    }
}

proof fn lemma_edited_len(
    live: LiveProjectionView,
    content_index: usize,
    content: BoundedTextView,
    complete: bool,
)
    ensures
        has_block(live.blocks, content_index) ==> live.with_edited(
            content_index,
            content,
            complete,
        ).blocks.len() == live.blocks.len(),
{
    let at = block_position(live.blocks, content_index);
    lemma_within_budget(
        live.blocks.update(
            at,
            AssistantContentBlockView { content, complete, ..live.blocks[at] },
        ),
        live.max_assistant_bytes,
    );
}

proof fn lemma_reconciled_len(
    blocks: Seq<(usize, AssistantContentKind, Seq<char>)>,
    max_bytes: nat,
    max_blocks: usize,
)
    ensures
        match reconciled(blocks, max_bytes, max_blocks) {
            Ok(next) => next.len() <= max_blocks,
            Err(_) => true,
        },
    decreases blocks.len(),
{
    if blocks.len() > 0 {
        lemma_reconciled_len(blocks.drop_last(), max_bytes, max_blocks);
        let (content_index, kind, text) = blocks.last();
        match reconciled(blocks.drop_last(), max_bytes, max_blocks) {
            Ok(next) => {
                lemma_with_block_len(
                    next,
                    AssistantContentBlockView {
                        content_index,
                        kind,
                        content: BoundedTextView::empty(max_bytes).replaced(text),
                        complete: true,
                    },
                );
            },
            Err(_) => {},
        }
    }
}

} // verus!
