//! What the streamed message of a run shows.
use vstd::prelude::*;
use vstd::string::*;

use crate::bounded::BoundedTextView;
use crate::runtime::projection::{
    block_position, has_block, lemma_trimmed, lemma_with_block, lemma_within_budget,
    reasoning_with, reconciled, total_bytes, trimmed, with_block, AssistantContentBlockView,
    AssistantContentKind, LiveProjectionView,
};
use crate::text::{byte_len, lemma_skip_bytes};
use crate::text_laws::{growing_text_loses_only_its_front, replaced_text_forgets_what_it_held};

verus! {

/// Whether content indices strictly increase.
pub open spec fn in_order(blocks: Seq<AssistantContentBlockView>) -> bool {
    forall|i: int, j: int|
        0 <= i < j < blocks.len() ==> (#[trigger] blocks[i]).content_index < (
        #[trigger] blocks[j]).content_index
}

proof fn lemma_place(blocks: Seq<AssistantContentBlockView>, content_index: usize) -> (at: int)
    requires
        in_order(blocks),
        !has_block(blocks, content_index),
    ensures
        0 <= at <= blocks.len(),
        forall|i: int| 0 <= i < at ==> (#[trigger] blocks[i]).content_index < content_index,
        forall|i: int|
            at <= i < blocks.len() ==> content_index < (#[trigger] blocks[i]).content_index,
    decreases blocks.len(),
{
    if blocks.len() == 0 {
        0
    } else {
        let last = blocks[blocks.len() - 1];
        let rest = blocks.drop_last();
        assert(last.content_index != content_index);
        if last.content_index < content_index {
            assert forall|i: int| 0 <= i < blocks.len() implies (
            #[trigger] blocks[i]).content_index < content_index by {
                if i < blocks.len() - 1 {
                    assert(blocks[i].content_index < blocks[blocks.len() - 1].content_index);
                }
            }
            blocks.len() as int
        } else {
            assert(in_order(rest)) by {
                assert forall|i: int, j: int| 0 <= i < j < rest.len() implies (
                #[trigger] rest[i]).content_index < (#[trigger] rest[j]).content_index by {
                    assert(blocks[i].content_index < blocks[j].content_index);
                }
            }
            assert(!has_block(rest, content_index)) by {
                assert forall|i: int| 0 <= i < rest.len() implies (
                #[trigger] rest[i]).content_index != content_index by {
                    assert(blocks[i].content_index != content_index);
                }
            }
            let at = lemma_place(rest, content_index);
            assert forall|i: int| 0 <= i < at implies (#[trigger] blocks[i]).content_index
                < content_index by {
                assert(rest[i] == blocks[i]);
            }
            assert forall|i: int| at <= i < blocks.len() implies content_index < (
            #[trigger] blocks[i]).content_index by {
                if i < rest.len() {
                    assert(rest[i] == blocks[i]);
                }
            }
            at
        }
    }
}

/// A block that starts is empty, open and of its kind, and stands where its index belongs;
/// all other blocks are as they were.
pub proof fn a_block_starts_empty(
    live: LiveProjectionView,
    content_index: usize,
    kind: AssistantContentKind,
)
    requires
        in_order(live.blocks),
        live.block_refusal(content_index) is None,
    ensures
        ({
            let after = live.with_empty_block(content_index, kind).blocks;
            &&& in_order(after)
            &&& exists|at: int|
                {
                    &&& 0 <= at <= live.blocks.len()
                    &&& #[trigger] after[at].content_index == content_index
                    &&& after[at].kind == kind
                    &&& after[at].content.text.len() == 0
                    &&& after[at].content.dropped_bytes == 0
                    &&& !after[at].complete
                    &&& after == live.blocks.insert(at, after[at])
                }
        }),
{
    let block = AssistantContentBlockView {
        content_index,
        kind,
        content: BoundedTextView::empty(live.max_assistant_bytes),
        complete: false,
    };
    let at = lemma_place(live.blocks, content_index);
    lemma_with_block(live.blocks, block, at);
    let after = live.blocks.insert(at, block);
    assert(after[at] == block);
    assert forall|i: int, j: int| 0 <= i < j < after.len() implies (
    #[trigger] after[i]).content_index < (#[trigger] after[j]).content_index by {
        let x = if i < at {
            i
        } else {
            i - 1
        };
        let y = if j < at {
            j
        } else {
            j - 1
        };
        if i != at && j != at {
            assert(after[i] == live.blocks[x] && after[j] == live.blocks[y]);
        } else if i == at {
            assert(after[j] == live.blocks[j - 1]);
        } else {
            assert(after[i] == live.blocks[i]);
        }
    }
}

/// Whether `after` holds these blocks with text gone from their front: what went, went from
/// the first blocks, and a block lost text only where all before it are empty.
pub open spec fn lost_from_the_front(
    blocks: Seq<AssistantContentBlockView>,
    after: Seq<AssistantContentBlockView>,
) -> bool {
    &&& after.len() == blocks.len()
    &&& forall|i: int|
        0 <= i < blocks.len() ==> {
            let text = (#[trigger] after[i]).content.text;
            &&& after[i].content_index == blocks[i].content_index
            &&& after[i].kind == blocks[i].kind
            &&& after[i].complete == blocks[i].complete
            &&& text.len() <= blocks[i].content.text.len()
            &&& text == blocks[i].content.text.skip(blocks[i].content.text.len() - text.len())
        }
    &&& forall|i: int, j: int|
        0 <= i < j < blocks.len() && (#[trigger] after[j]).content.text != blocks[j].content.text
            ==> (#[trigger] after[i]).content.text.len() == 0
}

proof fn lemma_trimmed_front(blocks: Seq<AssistantContentBlockView>, excess: nat)
    ensures
        lost_from_the_front(blocks, trimmed(blocks, excess)),
    decreases blocks.len(),
{
    lemma_trimmed(blocks, excess);
    let t = trimmed(blocks, excess);
    if blocks.len() == 0 || excess == 0 {
        assert forall|i: int| 0 <= i < blocks.len() implies {
            let text = (#[trigger] t[i]).content.text;
            text == blocks[i].content.text.skip(blocks[i].content.text.len() - text.len())
        } by {
            assert(blocks[i].content.text.skip(0) =~= blocks[i].content.text);
        }
    } else {
        let text = blocks[0].content.text;
        lemma_skip_bytes(text, excess);
        let first = AssistantContentBlockView {
            content: blocks[0].content.without_oldest(excess),
            ..blocks[0]
        };
        let dropped = byte_len(text) - byte_len(first.content.text);
        let left = if dropped >= excess {
            0
        } else {
            (excess - dropped) as nat
        };
        let rest = blocks.drop_first();
        lemma_trimmed_front(rest, left);
        let tail = trimmed(rest, left);
        assert(t == seq![first] + tail);
        assert forall|i: int| 0 <= i < blocks.len() implies {
            let text = (#[trigger] t[i]).content.text;
            &&& t[i].content_index == blocks[i].content_index
            &&& t[i].kind == blocks[i].kind
            &&& t[i].complete == blocks[i].complete
            &&& text.len() <= blocks[i].content.text.len()
            &&& text == blocks[i].content.text.skip(blocks[i].content.text.len() - text.len())
        } by {
            if i > 0 {
                assert(t[i] == tail[i - 1]);
                assert(rest[i - 1] == blocks[i]);
            }
        }
        assert forall|i: int, j: int|
            0 <= i < j < blocks.len() && (#[trigger] t[j]).content.text
                != blocks[j].content.text implies (#[trigger] t[i]).content.text.len() == 0 by {
            assert(t[j] == tail[j - 1]);
            assert(rest[j - 1] == blocks[j]);
            if i > 0 {
                assert(t[i] == tail[i - 1]);
            } else if left == 0 {
                assert(tail == rest);
            } else {
                assert(excess > byte_len(text));
            }
        }
    }
}

/// A block that is edited holds its new text, and every other block what it held, as long as
/// all of them fit together. Where they do not, text goes from the front of the first blocks,
/// until they do.
pub proof fn an_edited_block_holds_its_text(
    live: LiveProjectionView,
    at: int,
    content: BoundedTextView,
    complete: bool,
)
    requires
        in_order(live.blocks),
        0 <= at < live.blocks.len(),
    ensures
        ({
            let content_index = live.blocks[at].content_index;
            let after = live.with_edited(content_index, content, complete).blocks;
            let edited = live.blocks.update(
                at,
                AssistantContentBlockView {
                    content_index,
                    kind: live.blocks[at].kind,
                    content,
                    complete,
                },
            );
            &&& live.block(content_index) == live.blocks[at]
            &&& total_bytes(edited) <= live.max_assistant_bytes ==> after == edited
            &&& total_bytes(after) <= live.max_assistant_bytes
            &&& lost_from_the_front(edited, after)
        }),
{
    let content_index = live.blocks[at].content_index;
    let p = block_position(live.blocks, content_index);
    assert(0 <= p < live.blocks.len() && live.blocks[p].content_index == content_index);
    assert(p == at) by {
        if p < at {
            assert(live.blocks[p].content_index < live.blocks[at].content_index);
        } else if at < p {
            assert(live.blocks[at].content_index < live.blocks[p].content_index);
        }
    }
    let edited = live.blocks.update(
        at,
        AssistantContentBlockView { content, complete, ..live.blocks[at] },
    );
    lemma_within_budget(edited, live.max_assistant_bytes);
    if total_bytes(edited) > live.max_assistant_bytes {
        lemma_trimmed_front(edited, (total_bytes(edited) - live.max_assistant_bytes) as nat);
    } else {
        lemma_trimmed_front(edited, 0);
    }
}

/// Text of a message arrives in pieces: as long as everything fits, a block holds all its
/// pieces in order, and its end holds exactly what Pi says it is.
pub proof fn streamed_text_is_shown_in_order(
    live: LiveProjectionView,
    at: int,
    delta: Seq<char>,
    whole: Seq<char>,
)
    requires
        in_order(live.blocks),
        0 <= at < live.blocks.len(),
        live.blocks[at].content.wf(),
        live.blocks[at].content.max_bytes == live.max_assistant_bytes,
    ensures
        ({
            let held = live.blocks[at].content;
            let grown = held.appended(delta);
            let put = held.replaced(whole);
            &&& byte_len(held.text + delta) <= live.max_assistant_bytes ==> grown.text == held.text
                + delta
            &&& byte_len(whole) <= live.max_assistant_bytes ==> put.text == whole
        }),
{
    growing_text_loses_only_its_front(live.blocks[at].content, delta);
    replaced_text_forgets_what_it_held(
        live.blocks[at].content,
        live.blocks[at].content,
        whole,
    );
}

/// Whether a block of the finished message is shown by this block, before the budget of all of
/// them is applied.
pub open spec fn shows_finished(
    shown: AssistantContentBlockView,
    block: (usize, AssistantContentKind, Seq<char>),
    max_bytes: nat,
) -> bool {
    &&& shown.content_index == block.0
    &&& shown.kind == block.1
    &&& shown.complete
    &&& byte_len(block.2) <= max_bytes ==> shown.content.text == block.2
    &&& shown.content.text.len() <= block.2.len()
    &&& shown.content.text == block.2.skip(block.2.len() - shown.content.text.len())
}

/// Whether a block of the finished message is shown by one of these.
#[verifier::opaque]
pub open spec fn is_shown(
    shown: Seq<AssistantContentBlockView>,
    block: (usize, AssistantContentKind, Seq<char>),
    max_bytes: nat,
) -> bool {
    exists|k: int| 0 <= k < shown.len() && shows_finished(#[trigger] shown[k], block, max_bytes)
}

/// Whether a block that is shown is one of the finished message.
#[verifier::opaque]
pub open spec fn is_of_message(
    message: Seq<(usize, AssistantContentKind, Seq<char>)>,
    block: AssistantContentBlockView,
    max_bytes: nat,
) -> bool {
    exists|i: int| 0 <= i < message.len() && shows_finished(block, #[trigger] message[i], max_bytes)
}

/// Whether exactly the blocks of a finished message are shown.
pub open spec fn shows_message(
    message: Seq<(usize, AssistantContentKind, Seq<char>)>,
    shown: Seq<AssistantContentBlockView>,
    max_bytes: nat,
) -> bool {
    &&& shown.len() == message.len()
    &&& in_order(shown)
    &&& forall|i: int| 0 <= i < message.len() ==> is_shown(shown, #[trigger] message[i], max_bytes)
    &&& forall|k: int|
        0 <= k < shown.len() ==> is_of_message(message, #[trigger] shown[k], max_bytes)
}

/// Whether the blocks of a message have each its own index.
pub open spec fn own_indices(message: Seq<(usize, AssistantContentKind, Seq<char>)>) -> bool {
    forall|i: int, j: int|
        0 <= i < j < message.len() ==> (#[trigger] message[i]).0 != (#[trigger] message[j]).0
}

proof fn lemma_index_shown(
    message: Seq<(usize, AssistantContentKind, Seq<char>)>,
    shown: Seq<AssistantContentBlockView>,
    max_bytes: nat,
    content_index: usize,
)
    requires
        shows_message(message, shown, max_bytes),
    ensures
        has_block(shown, content_index) <==> exists|i: int|
            0 <= i < message.len() && (#[trigger] message[i]).0 == content_index,
{
    if has_block(shown, content_index) {
        let k = choose|k: int|
            0 <= k < shown.len() && (#[trigger] shown[k]).content_index == content_index;
        assert(is_of_message(message, shown[k], max_bytes));
        reveal(is_of_message);
        let i = choose|i: int|
            0 <= i < message.len() && shows_finished(shown[k], #[trigger] message[i], max_bytes);
        assert(message[i].0 == content_index);
    }
    if exists|i: int| 0 <= i < message.len() && (#[trigger] message[i]).0 == content_index {
        let i = choose|i: int|
            0 <= i < message.len() && (#[trigger] message[i]).0 == content_index;
        assert(is_shown(shown, message[i], max_bytes));
        reveal(is_shown);
        let k = choose|k: int|
            0 <= k < shown.len() && shows_finished(#[trigger] shown[k], message[i], max_bytes);
        assert(shown[k].content_index == content_index);
    }
}

proof fn lemma_finished_block(
    before: Seq<(usize, AssistantContentKind, Seq<char>)>,
    next: Seq<AssistantContentBlockView>,
    last: (usize, AssistantContentKind, Seq<char>),
    max_bytes: nat,
)
    requires
        shows_message(before, next, max_bytes),
        !has_block(next, last.0),
    ensures
        shows_message(
            before.push(last),
            with_block(
                next,
                AssistantContentBlockView {
                    content_index: last.0,
                    kind: last.1,
                    content: BoundedTextView::empty(max_bytes).replaced(last.2),
                    complete: true,
                },
            ),
            max_bytes,
        ),
{
    let message = before.push(last);
    let block = AssistantContentBlockView {
        content_index: last.0,
        kind: last.1,
        content: BoundedTextView::empty(max_bytes).replaced(last.2),
        complete: true,
    };
    let none = BoundedTextView::empty(max_bytes);
    replaced_text_forgets_what_it_held(none, none, last.2);
    assert(shows_finished(block, last, max_bytes));
    let at = lemma_place(next, last.0);
    lemma_with_block(next, block, at);
    let shown = next.insert(at, block);
    assert forall|i: int| 0 <= i < message.len() implies is_shown(
        shown,
        #[trigger] message[i],
        max_bytes,
    ) by {
        if i < before.len() {
            assert(is_shown(next, before[i], max_bytes));
            lemma_still_shown(next, at, block, before[i], max_bytes);
        } else {
            reveal(is_shown);
            assert(shown[at] == block);
        }
    }
    assert forall|k: int| 0 <= k < shown.len() implies is_of_message(
        message,
        #[trigger] shown[k],
        max_bytes,
    ) by {
        if k == at {
            reveal(is_of_message);
            assert(message[before.len() as int] == last);
        } else {
            let old = if k < at {
                k
            } else {
                k - 1
            };
            assert(shown[k] == next[old]);
            assert(is_of_message(before, next[old], max_bytes));
            lemma_still_of_message(before, last, next[old], max_bytes);
        }
    }
    lemma_insert_in_order(next, at, block);
}

proof fn lemma_still_shown(
    shown: Seq<AssistantContentBlockView>,
    at: int,
    added: AssistantContentBlockView,
    block: (usize, AssistantContentKind, Seq<char>),
    max_bytes: nat,
)
    requires
        is_shown(shown, block, max_bytes),
        0 <= at <= shown.len(),
    ensures
        is_shown(shown.insert(at, added), block, max_bytes),
{
    reveal(is_shown);
    let k = choose|k: int|
        0 <= k < shown.len() && shows_finished(#[trigger] shown[k], block, max_bytes);
    let moved = if k < at {
        k
    } else {
        k + 1
    };
    assert(shown.insert(at, added)[moved] == shown[k]);
}

proof fn lemma_still_of_message(
    message: Seq<(usize, AssistantContentKind, Seq<char>)>,
    last: (usize, AssistantContentKind, Seq<char>),
    block: AssistantContentBlockView,
    max_bytes: nat,
)
    requires
        is_of_message(message, block, max_bytes),
    ensures
        is_of_message(message.push(last), block, max_bytes),
{
    reveal(is_of_message);
    let i = choose|i: int|
        0 <= i < message.len() && shows_finished(block, #[trigger] message[i], max_bytes);
    assert(message.push(last)[i] == message[i]);
}

proof fn lemma_insert_in_order(
    blocks: Seq<AssistantContentBlockView>,
    at: int,
    block: AssistantContentBlockView,
)
    requires
        in_order(blocks),
        0 <= at <= blocks.len(),
        forall|i: int| 0 <= i < at ==> (#[trigger] blocks[i]).content_index < block.content_index,
        forall|i: int|
            at <= i < blocks.len() ==> block.content_index < (#[trigger] blocks[i]).content_index,
    ensures
        in_order(blocks.insert(at, block)),
{
    let after = blocks.insert(at, block);
    assert forall|i: int, j: int| 0 <= i < j < after.len() implies (
    #[trigger] after[i]).content_index < (#[trigger] after[j]).content_index by {
        let x = if i < at {
            i
        } else {
            i - 1
        };
        let y = if j < at {
            j
        } else {
            j - 1
        };
        if i != at && j != at {
            assert(after[i] == blocks[x] && after[j] == blocks[y]);
        } else if i == at {
            assert(after[j] == blocks[j - 1]);
        } else {
            assert(after[i] == blocks[i]);
        }
    }
}

/// A finished message is shown with all its blocks, each complete, in the order of their
/// indices. It is refused if and only if two of its blocks have one index, or it has too many.
pub proof fn a_finished_message_is_shown_whole(
    message: Seq<(usize, AssistantContentKind, Seq<char>)>,
    max_bytes: nat,
    max_blocks: usize,
)
    ensures
        reconciled(message, max_bytes, max_blocks) is Ok <==> own_indices(message) && message.len()
            <= max_blocks,
        reconciled(message, max_bytes, max_blocks) is Ok ==> shows_message(
            message,
            reconciled(message, max_bytes, max_blocks)->Ok_0,
            max_bytes,
        ),
    decreases message.len(),
{
    if message.len() > 0 {
        let before = message.drop_last();
        let last = message.last();
        a_finished_message_is_shown_whole(before, max_bytes, max_blocks);
        assert(before.push(last) =~= message);
        let taken = exists|i: int| 0 <= i < before.len() && (#[trigger] before[i]).0 == last.0;
        assert(own_indices(message) <==> own_indices(before) && !taken) by {
            if own_indices(message) {
                assert forall|i: int, j: int| 0 <= i < j < before.len() implies (
                #[trigger] before[i]).0 != (#[trigger] before[j]).0 by {
                    assert(message[i].0 != message[j].0);
                }
                assert forall|i: int| 0 <= i < before.len() implies (#[trigger] before[i]).0
                    != last.0 by {
                    assert(message[i].0 != message[message.len() - 1].0);
                }
            }
            if own_indices(before) && !taken {
                assert forall|i: int, j: int| 0 <= i < j < message.len() implies (
                #[trigger] message[i]).0 != (#[trigger] message[j]).0 by {
                    assert(message[i] == before[i]);
                    if j < before.len() {
                        assert(message[j] == before[j]);
                    }
                }
            }
        }
        match reconciled(before, max_bytes, max_blocks) {
            Err(_) => {},
            Ok(next) => {
                lemma_index_shown(before, next, max_bytes, last.0);
                if !has_block(next, last.0) {
                    lemma_finished_block(before, next, last, max_bytes);
                }
            },
        }
    }
}

/// The thoughts among these blocks: the text of those that think and hold any.
pub open spec fn thoughts(blocks: Seq<AssistantContentBlockView>) -> Seq<Seq<char>>
    decreases blocks.len(),
{
    if blocks.len() == 0 {
        Seq::empty()
    } else {
        let before = thoughts(blocks.drop_last());
        let block = blocks.last();
        if block.kind == AssistantContentKind::Thinking && block.content.text.len() > 0 {
            before.push(block.content.text)
        } else {
            before
        }
    }
}

/// The texts with an empty line between each two.
pub open spec fn in_paragraphs(texts: Seq<Seq<char>>) -> Seq<char>
    decreases texts.len(),
{
    if texts.len() == 0 {
        Seq::empty()
    } else if texts.len() == 1 {
        texts[0]
    } else {
        in_paragraphs(texts.drop_last()) + seq!['\n', '\n'] + texts.last()
    }
}

/// The reasoning of a turn is what was carried over and then every thought of the message,
/// in order, with an empty line between each two. Text and tool calls are no part of it.
pub proof fn reasoning_is_every_thought_in_order(
    carried: Seq<char>,
    blocks: Seq<AssistantContentBlockView>,
)
    ensures
        ({
            let all = if carried.len() == 0 {
                thoughts(blocks)
            } else {
                seq![carried] + thoughts(blocks)
            };
            &&& reasoning_with(carried, blocks) == in_paragraphs(all)
            &&& all.len() > 0 ==> reasoning_with(carried, blocks).len() > 0
        }),
    decreases blocks.len(),
{
    reveal_strlit("\n\n");
    assert("\n\n"@ =~= seq!['\n', '\n']);
    if blocks.len() == 0 {
        if carried.len() == 0 {
            assert(carried =~= Seq::<char>::empty());
        } else {
            assert(seq![carried] + thoughts(blocks) =~= seq![carried]);
        }
    } else {
        let rest = blocks.drop_last();
        let block = blocks.last();
        reasoning_is_every_thought_in_order(carried, rest);
        let before = if carried.len() == 0 {
            thoughts(rest)
        } else {
            seq![carried] + thoughts(rest)
        };
        let all = if carried.len() == 0 {
            thoughts(blocks)
        } else {
            seq![carried] + thoughts(blocks)
        };
        if block.kind == AssistantContentKind::Thinking && block.content.text.len() > 0 {
            assert(all =~= before.push(block.content.text));
            assert(all.drop_last() =~= before);
            if before.len() == 0 {
                assert(reasoning_with(carried, rest).len() == 0);
            }
        } else {
            assert(all =~= before);
        }
    }
}

/// A shell command or a block starts exactly where its identity is new and as many may run or
/// stand as the limit says; nothing runs or stands at first.
pub proof fn starts_are_refused_at_their_limits(
    live: LiveProjectionView,
    request_id: crate::ids::RequestId,
    content_index: usize,
    limits: crate::limits::RuntimeLimits,
)
    ensures
        live.bash_refusal(request_id) is None <==> !live.direct_bash.contains_key(request_id@)
            && live.direct_bash.dom().len() < live.max_active_direct_bash,
        live.block_refusal(content_index) is None <==> live.blocks.len()
            < live.max_assistant_blocks && forall|i: int|
            0 <= i < live.blocks.len() ==> (#[trigger] live.blocks[i]).content_index
                != content_index,
        ({
            let fresh = LiveProjectionView::empty(limits);
            &&& fresh.blocks.len() == 0 && fresh.carried_reasoning.len() == 0
            &&& fresh.tools == Map::<Seq<char>, crate::runtime::projection::ToolPreviewView>::empty()
            &&& fresh.max_assistant_bytes == limits.max_stream_text_bytes_per_run
            &&& fresh.max_assistant_blocks == limits.max_stream_content_blocks_per_message
            &&& fresh.max_active_tools == limits.max_active_tools_per_run
            &&& fresh.max_tool_preview_bytes == limits.max_tool_preview_bytes
            &&& fresh.max_active_direct_bash == limits.max_pending_rpc_requests_per_run
        }),
{
}

} // verus!
