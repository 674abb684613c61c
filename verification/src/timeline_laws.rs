//! What the items of a timeline show of the entries of a session.
use vstd::prelude::*;
use vstd::string::*;

use crate::bounded::BoundedTextView;
use crate::json::JsonTree;
use crate::text::{
    byte_len, char_width, lemma_encode_concat, lemma_encode_first, lemma_prefix_within,
    lemma_suffix_within, prefix_within, suffix_within, trimmed,
};
use crate::text_laws::{
    bounded_end_is_the_longest, bounded_start_is_the_longest,
    trimming_takes_only_the_white_space_around,
};
use crate::timeline::{
    assistant_blocks, assistant_content, content_of, entry_timeline, output_blocks, output_of,
    output_segment, text_blocks, with_names, Gathered, SessionTimelineKind, TimelineItemView,
};

verus! {

/// What an object holds under a key is what its members hold, and nothing else holds
/// anything under a key.
pub proof fn members_are_what_an_object_holds(
    value: JsonTree,
    key: Seq<char>,
    text: Seq<char>,
    default: bool,
)
    ensures
        value.member(key) is Some <==> value is Object && value->Object_0.contains_key(key),
        value.member(key) is Some ==> value.member(key)->0 == value->Object_0[key],
        value.text_at(key) == Some(text) <==> value.member(key) == Some(JsonTree::Text(text)),
        value.bool_at(key, default) <==> value.member(key) == Some(JsonTree::Bool(true)) || (default
            && value.member(key) != Some(JsonTree::Bool(false))),
{
}

/// The lines of these texts, with a line feed between each two.
pub open spec fn in_lines(lines: Seq<Seq<char>>) -> Seq<char>
    decreases lines.len(),
{
    if lines.len() == 0 {
        Seq::empty()
    } else if lines.len() == 1 {
        lines[0]
    } else {
        in_lines(lines.drop_last()) + seq!['\n'] + lines.last()
    }
}

/// The texts without the white space around them, and without those that are empty then.
pub open spec fn visible(texts: Seq<Seq<char>>) -> Seq<Seq<char>>
    decreases texts.len(),
{
    if texts.len() == 0 {
        Seq::empty()
    } else if trimmed(texts.last()).len() == 0 {
        visible(texts.drop_last())
    } else {
        visible(texts.drop_last()).push(trimmed(texts.last()))
    }
}

/// What the blocks of this type hold under `key`, in order.
pub open spec fn texts_under(blocks: Seq<JsonTree>, kind: Seq<char>, key: Seq<char>) -> Seq<
    Seq<char>,
>
    decreases blocks.len(),
{
    if blocks.len() == 0 {
        Seq::empty()
    } else {
        let before = texts_under(blocks.drop_last(), kind, key);
        match (blocks.last().member("type"@), blocks.last().member(key)) {
            (Some(JsonTree::Text(actual)), Some(JsonTree::Text(text))) => if actual == kind {
                before.push(text)
            } else {
                before
            },
            _ => before,
        }
    }
}

/// The lines that the text blocks of a message make.
pub open spec fn text_lines(blocks: Seq<JsonTree>) -> Seq<Seq<char>> {
    visible(texts_under(blocks, "text"@, "text"@))
}

/// How many of the blocks are of this type.
pub open spec fn blocks_of(blocks: Seq<JsonTree>, kind: Seq<char>) -> nat
    decreases blocks.len(),
{
    if blocks.len() == 0 {
        0
    } else {
        blocks_of(blocks.drop_last(), kind) + if blocks.last().member("type"@) == Some(
            JsonTree::Text(kind),
        ) {
            1nat
        } else {
            0
        }
    }
}

/// Whether `shown` is `whole` as far as it fits: whole and not marked where it fits, and
/// marked as cut where it does not.
pub open spec fn shows_what_fits(
    shown: (Seq<char>, bool),
    whole: Seq<char>,
    max_bytes: nat,
) -> bool {
    &&& shown.1 <==> byte_len(whole) > max_bytes
    &&& byte_len(whole) <= max_bytes ==> shown.0 == whole
    &&& byte_len(shown.0) <= max_bytes
}

proof fn lemma_prefix_concat(a: Seq<char>, b: Seq<char>, max: nat)
    requires
        byte_len(a) <= max,
    ensures
        prefix_within(a + b, max) == a + prefix_within(b, (max - byte_len(a)) as nat),
    decreases a.len(),
{
    if a.len() == 0 {
        assert(a =~= Seq::<char>::empty());
        assert(a + b =~= b);
        assert(a + prefix_within(b, max) =~= prefix_within(b, max));
    } else {
        lemma_encode_first(a);
        let rest = a.drop_first();
        let left = (max - char_width(a[0])) as nat;
        lemma_prefix_concat(rest, b, left);
        assert((a + b).drop_first() =~= rest + b);
        assert(seq![a[0]] + (rest + prefix_within(b, (left - byte_len(rest)) as nat)) =~= a
            + prefix_within(b, (max - byte_len(a)) as nat));
    }
}

proof fn lemma_newline()
    ensures
        byte_len(seq!['\n']) == 1,
{
    let newline = seq!['\n'];
    assert(newline.drop_first() =~= Seq::<char>::empty());
    lemma_encode_first(newline);
}

/// Pieces of text are gathered line by line: a piece without visible text adds nothing,
/// one that fits stands on a line of its own without the white space around it, and of one
/// that does not fit as much as does is kept, with the mark that something is missing.
pub proof fn pieces_are_gathered_line_by_line(gathered: Gathered, piece: Seq<char>, max_bytes: nat)
    requires
        byte_len(gathered.text) <= max_bytes,
    ensures
        ({
            let after = gathered.with(piece, max_bytes);
            let value = trimmed(piece);
            let whole = if gathered.text.len() == 0 {
                value
            } else {
                gathered.text + seq!['\n'] + value
            };
            &&& value.len() == 0 ==> after == gathered
            &&& value.len() > 0 && byte_len(whole) <= max_bytes ==> after.text == whole
                && after.truncated == gathered.truncated
            &&& value.len() > 0 && byte_len(whole) > max_bytes ==> after.truncated
            &&& value.len() > 0 && (gathered.text.len() == 0 || byte_len(gathered.text) + 1
                < max_bytes) ==> after.text == prefix_within(whole, max_bytes)
            &&& value.len() > 0 && gathered.text.len() > 0 && byte_len(gathered.text) + 1
                >= max_bytes ==> after.text == gathered.text
            &&& byte_len(after.text) <= max_bytes
        }),
{
    let value = trimmed(piece);
    let newline = seq!['\n'];
    lemma_newline();
    assert(gathered.text.push('\n') =~= gathered.text + newline);
    lemma_encode_concat(gathered.text, newline);
    lemma_encode_concat(gathered.text + newline, value);
    if gathered.text.len() == 0 {
        assert(gathered.text =~= Seq::<char>::empty());
        lemma_prefix_within(value, max_bytes);
        assert(gathered.text + prefix_within(value, max_bytes) =~= prefix_within(value, max_bytes));
        if value.len() > 0 {
            lemma_encode_first(value);
        }
        if max_bytes == 0 && value.len() > 0 {
            bounded_start_is_the_longest(value, 0);
            assert(prefix_within(value, 0) =~= Seq::<char>::empty()) by {
                if prefix_within(value, 0).len() > 0 {
                    lemma_encode_first(prefix_within(value, 0));
                }
            }
        }
    } else {
        if value.len() > 0 {
            lemma_encode_first(value);
        }
        if byte_len(gathered.text) + 1 < max_bytes {
            lemma_prefix_concat(gathered.text + newline, value, max_bytes);
        }
        lemma_prefix_within(gathered.text + newline + value, max_bytes);
    }
}

proof fn lemma_lines_not_empty(lines: Seq<Seq<char>>)
    requires
        forall|i: int| 0 <= i < lines.len() ==> (#[trigger] lines[i]).len() > 0,
        lines.len() > 0,
    ensures
        in_lines(lines).len() > 0,
{
    if lines.len() == 1 {
        assert(lines[0].len() > 0);
    }
}

proof fn lemma_visible(texts: Seq<Seq<char>>)
    ensures
        forall|i: int| 0 <= i < visible(texts).len() ==> (#[trigger] visible(texts)[i]).len() > 0,
    decreases texts.len(),
{
    if texts.len() > 0 {
        let before = visible(texts.drop_last());
        lemma_visible(texts.drop_last());
        assert forall|i: int| 0 <= i < visible(texts).len() implies (
        #[trigger] visible(texts)[i]).len() > 0 by {
            if i < before.len() {
                assert(visible(texts)[i] == before[i]);
            }
        }
    }
}

proof fn lemma_mentions()
    ensures
        trimmed("[1 image attachment]"@) == "[1 image attachment]"@,
        "[1 image attachment]"@.len() > 0,
        trimmed("[image attachments]"@) == "[image attachments]"@,
        "[image attachments]"@.len() > 0,
        trimmed("Tool calls:"@) == "Tool calls:"@,
        "Tool calls:"@.len() > 0,
{
    lemma_one_image();
    lemma_images();
    lemma_heading();
}

proof fn lemma_one_image()
    ensures
        trimmed("[1 image attachment]"@) == "[1 image attachment]"@,
        "[1 image attachment]"@.len() > 0,
{
    reveal_strlit("[1 image attachment]");
    trimming_takes_only_the_white_space_around("[1 image attachment]"@);
}

proof fn lemma_images()
    ensures
        trimmed("[image attachments]"@) == "[image attachments]"@,
        "[image attachments]"@.len() > 0,
{
    reveal_strlit("[image attachments]");
    trimming_takes_only_the_white_space_around("[image attachments]"@);
}

proof fn lemma_heading()
    ensures
        trimmed("Tool calls:"@) == "Tool calls:"@,
        "Tool calls:"@.len() > 0,
{
    reveal_strlit("Tool calls:");
    trimming_takes_only_the_white_space_around("Tool calls:"@);
}

/// A gathered text against the lines that were to be gathered.
spec fn holds_lines(gathered: Gathered, lines: Seq<Seq<char>>, max_bytes: nat) -> bool {
    &&& gathered.truncated <==> byte_len(in_lines(lines)) > max_bytes
    &&& byte_len(in_lines(lines)) <= max_bytes ==> gathered.text == in_lines(lines)
    &&& byte_len(gathered.text) <= max_bytes
}

proof fn lemma_gather(
    gathered: Gathered,
    lines: Seq<Seq<char>>,
    piece: Seq<char>,
    max_bytes: nat,
)
    requires
        holds_lines(gathered, lines, max_bytes),
        forall|i: int| 0 <= i < lines.len() ==> (#[trigger] lines[i]).len() > 0,
    ensures
        ({
            let next = if trimmed(piece).len() == 0 {
                lines
            } else {
                lines.push(trimmed(piece))
            };
            holds_lines(gathered.with(piece, max_bytes), next, max_bytes)
        }),
{
    pieces_are_gathered_line_by_line(gathered, piece, max_bytes);
    let value = trimmed(piece);
    let newline = seq!['\n'];
    lemma_newline();
    if value.len() > 0 {
        let next = lines.push(value);
        assert(next.drop_last() =~= lines);
        if lines.len() == 0 {
            assert(in_lines(next) == value);
            assert(in_lines(lines) =~= Seq::<char>::empty());
            assert(byte_len(Seq::<char>::empty()) == 0);
        } else {
            lemma_lines_not_empty(lines);
            assert(in_lines(next) == in_lines(lines) + newline + value);
            lemma_encode_concat(in_lines(lines), newline);
            lemma_encode_concat(in_lines(lines) + newline, value);
            if !gathered.truncated {
                assert(gathered.text == in_lines(lines));
            }
        }
    }
}

proof fn lemma_text_blocks(blocks: Seq<JsonTree>, max_bytes: nat)
    ensures
        holds_lines(text_blocks(blocks, max_bytes).0, text_lines(blocks), max_bytes),
        text_blocks(blocks, max_bytes).1 == blocks_of(blocks, "image"@),
    decreases blocks.len(),
{
    reveal_strlit("text");
    reveal_strlit("image");
    if blocks.len() == 0 {
        assert(byte_len(Seq::<char>::empty()) == 0);
    } else {
        let before = blocks.drop_last();
        lemma_text_blocks(before, max_bytes);
        lemma_visible(texts_under(before, "text"@, "text"@));
        assert("text"@ != "image"@) by {
            assert("text"@.len() != "image"@.len());
        }
        let gathered = text_blocks(before, max_bytes).0;
        match (blocks.last().member("type"@), blocks.last().member("text"@)) {
            (Some(JsonTree::Text(actual)), Some(JsonTree::Text(text))) => {
                if actual == "text"@ {
                    let texts = texts_under(before, "text"@, "text"@);
                    assert(texts.push(text).drop_last() =~= texts);
                    lemma_gather(gathered, text_lines(before), text, max_bytes);
                }
            },
            _ => {},
        }
    }
}

/// The text of a message in blocks is the text of its text blocks, each on a line of its
/// own, in order and without the white space around it: whole where it fits, and marked as
/// cut where it does not. Only where no block has visible text, images are mentioned, and a
/// message with neither shows nothing.
pub proof fn text_blocks_are_shown_in_order(blocks: Seq<JsonTree>, max_bytes: nat)
    ensures
        ({
            let shown = content_of(JsonTree::List(blocks), max_bytes);
            let lines = text_lines(blocks);
            let images = blocks_of(blocks, "image"@);
            &&& lines.len() > 0 ==> (shown.1 <==> byte_len(in_lines(lines)) > max_bytes)
            &&& lines.len() > 0 && byte_len(in_lines(lines)) <= max_bytes ==> shown.0 == in_lines(
                lines,
            )
            &&& lines.len() == 0 && images == 0 ==> shown == (Seq::<char>::empty(), false)
            &&& lines.len() == 0 && images == 1 ==> shows_what_fits(
                shown,
                "[1 image attachment]"@,
                max_bytes,
            )
            &&& lines.len() == 0 && images > 1 ==> shows_what_fits(
                shown,
                "[image attachments]"@,
                max_bytes,
            )
            &&& byte_len(shown.0) <= max_bytes
        }),
{
    lemma_text_blocks(blocks, max_bytes);
    lemma_visible(texts_under(blocks, "text"@, "text"@));
    let (gathered, images) = text_blocks(blocks, max_bytes);
    let lines = text_lines(blocks);
    lemma_mentions();
    pieces_are_gathered_line_by_line(gathered, "[1 image attachment]"@, max_bytes);
    pieces_are_gathered_line_by_line(gathered, "[image attachments]"@, max_bytes);
    if lines.len() > 0 {
        lemma_lines_not_empty(lines);
    } else {
        assert(in_lines(lines) =~= Seq::<char>::empty());
        assert(byte_len(Seq::<char>::empty()) == 0);
        assert(gathered.text =~= Seq::<char>::empty());
    }
}

/// A message of one text block shows the text of it, without the white space around it.
pub proof fn a_single_text_block_is_shown(block: JsonTree, text: Seq<char>, max_bytes: nat)
    requires
        block.member("type"@) == Some(JsonTree::Text("text"@)),
        block.member("text"@) == Some(JsonTree::Text(text)),
        byte_len(trimmed(text)) <= max_bytes,
    ensures
        content_of(JsonTree::List(seq![block]), max_bytes) == (trimmed(text), false),
        assistant_content(JsonTree::List(seq![block]), max_bytes) == (trimmed(text), false),
{
    let blocks = seq![block];
    assert(blocks.drop_last() =~= Seq::<JsonTree>::empty());
    let texts = texts_under(blocks, "text"@, "text"@);
    assert(texts_under(blocks.drop_last(), "text"@, "text"@) =~= Seq::<Seq<char>>::empty());
    assert(texts =~= seq![text]);
    assert(texts.drop_last() =~= Seq::<Seq<char>>::empty());
    assert(visible(texts.drop_last()) =~= Seq::<Seq<char>>::empty());
    let lines = text_lines(blocks);
    reveal_strlit("text");
    reveal_strlit("image");
    reveal_strlit("toolCall");
    assert("text"@.len() != "image"@.len());
    assert("text"@.len() != "toolCall"@.len());
    assert(blocks_of(blocks, "image"@) == 0) by {
        assert(blocks_of(blocks.drop_last(), "image"@) == 0);
    }
    assert(blocks_of(blocks, "toolCall"@) == 0) by {
        assert(blocks_of(blocks.drop_last(), "toolCall"@) == 0);
    }
    if trimmed(text).len() == 0 {
        assert(trimmed(text) =~= Seq::<char>::empty());
    } else {
        assert(lines =~= seq![trimmed(text)]);
    }
    text_blocks_are_shown_in_order(blocks, max_bytes);
    assistant_text_goes_before_tool_names(blocks, max_bytes);
    assert(tool_names(blocks) =~= Seq::<Seq<char>>::empty()) by {
        assert(texts_under(blocks.drop_last(), "toolCall"@, "name"@) =~= Seq::<
            Seq<char>,
        >::empty());
    }
}

/// Content that is one text is shown from its start, as far as it fits. Content that is
/// neither a text nor a list of blocks shows nothing.
pub proof fn plain_content_is_shown_from_its_start(content: JsonTree, max_bytes: nat)
    requires
        !(content is List),
    ensures
        ({
            let shown = content_of(content, max_bytes);
            &&& content is Text ==> shows_what_fits(shown, content->Text_0, max_bytes)
                && shown.0 == content->Text_0.take(shown.0.len() as int)
            &&& !(content is Text) ==> shown == (Seq::<char>::empty(), false)
            &&& assistant_content(content, max_bytes) == shown
        }),
{
    match content {
        JsonTree::Text(text) => {
            lemma_prefix_within(text, max_bytes);
        },
        _ => {},
    }
}

/// The names of the tool calls among these blocks, in order.
pub open spec fn tool_names(blocks: Seq<JsonTree>) -> Seq<Seq<char>> {
    texts_under(blocks, "toolCall"@, "name"@)
}

/// The first sixteen of these, or all.
pub open spec fn first_sixteen(names: Seq<Seq<char>>) -> Seq<Seq<char>> {
    if names.len() <= 16 {
        names
    } else {
        names.take(16)
    }
}

proof fn lemma_assistant_blocks(blocks: Seq<JsonTree>, max_bytes: nat)
    ensures
        assistant_blocks(blocks, max_bytes).0 == text_blocks(blocks, max_bytes).0,
        assistant_blocks(blocks, max_bytes).1 == first_sixteen(tool_names(blocks)),
    decreases blocks.len(),
{
    reveal_strlit("text");
    reveal_strlit("toolCall");
    if blocks.len() > 0 {
        let before = blocks.drop_last();
        lemma_assistant_blocks(before, max_bytes);
        assert("text"@.len() != "toolCall"@.len());
        let names = tool_names(before);
        match (blocks.last().member("type"@), blocks.last().member("name"@)) {
            (Some(JsonTree::Text(actual)), Some(JsonTree::Text(name))) => {
                if actual == "toolCall"@ {
                    assert(tool_names(blocks) == names.push(name));
                    if names.len() < 16 {
                        assert(first_sixteen(names.push(name)) =~= names.push(name));
                    } else {
                        assert(first_sixteen(names.push(name)) =~= first_sixteen(names));
                    }
                }
            },
            _ => {},
        }
    }
}

proof fn lemma_visible_push(texts: Seq<Seq<char>>, text: Seq<char>)
    ensures
        visible(texts.push(text)) == (if trimmed(text).len() == 0 {
            visible(texts)
        } else {
            visible(texts).push(trimmed(text))
        }),
{
    assert(texts.push(text).drop_last() =~= texts);
}

proof fn lemma_with_names(
    gathered: Gathered,
    texts: Seq<Seq<char>>,
    names: Seq<Seq<char>>,
    max_bytes: nat,
)
    requires
        holds_lines(gathered, visible(texts), max_bytes),
    ensures
        holds_lines(with_names(gathered, names, max_bytes), visible(texts + names), max_bytes),
    decreases names.len(),
{
    if names.len() == 0 {
        assert(texts + names =~= texts);
    } else {
        lemma_with_names(gathered, texts, names.drop_last(), max_bytes);
        let before = texts + names.drop_last();
        lemma_visible(before);
        assert(texts + names =~= before.push(names.last()));
        lemma_visible_push(before, names.last());
        lemma_gather(
            with_names(gathered, names.drop_last(), max_bytes),
            visible(before),
            names.last(),
            max_bytes,
        );
    }
}

/// The text of an assistant message in blocks is that of its text blocks, as for any
/// message. Only where it has none, its tool calls are named under a heading, in order,
/// sixteen of them at most; a message with neither shows nothing.
pub proof fn assistant_text_goes_before_tool_names(blocks: Seq<JsonTree>, max_bytes: nat)
    ensures
        ({
            let shown = assistant_content(JsonTree::List(blocks), max_bytes);
            let lines = text_lines(blocks);
            let names = tool_names(blocks);
            let named = in_lines(visible(seq!["Tool calls:"@] + first_sixteen(names)));
            &&& lines.len() > 0 ==> (shown.1 <==> byte_len(in_lines(lines)) > max_bytes) || (
            shown.1 && text_blocks(blocks, max_bytes).0.text.len() == 0)
            &&& lines.len() > 0 && byte_len(in_lines(lines)) <= max_bytes ==> shown == (
                in_lines(lines),
                false,
            )
            &&& lines.len() == 0 && names.len() == 0 ==> shown == (Seq::<char>::empty(), false)
            &&& lines.len() == 0 && names.len() > 0 ==> shows_what_fits(shown, named, max_bytes)
        }),
{
    lemma_text_blocks(blocks, max_bytes);
    lemma_assistant_blocks(blocks, max_bytes);
    lemma_visible(texts_under(blocks, "text"@, "text"@));
    let gathered = text_blocks(blocks, max_bytes).0;
    let lines = text_lines(blocks);
    let names = first_sixteen(tool_names(blocks));
    lemma_mentions();
    if lines.len() > 0 {
        lemma_lines_not_empty(lines);
        pieces_are_gathered_line_by_line(gathered, "Tool calls:"@, max_bytes);
        if gathered.truncated && gathered.text.len() == 0 && names.len() > 0 {
            lemma_names_stay_truncated(gathered.with("Tool calls:"@, max_bytes), names, max_bytes);
        }
    } else {
        assert(in_lines(lines) =~= Seq::<char>::empty());
        assert(byte_len(Seq::<char>::empty()) == 0);
        assert(gathered.text =~= Seq::<char>::empty());
        let heading = seq!["Tool calls:"@];
        assert(heading =~= Seq::<Seq<char>>::empty().push("Tool calls:"@));
        lemma_visible_push(Seq::empty(), "Tool calls:"@);
        lemma_gather(gathered, lines, "Tool calls:"@, max_bytes);
        assert(lines =~= Seq::<Seq<char>>::empty());
        assert(visible(heading) =~= lines.push("Tool calls:"@));
        lemma_with_names(gathered.with("Tool calls:"@, max_bytes), heading, names, max_bytes);
        assert(names.len() > 0 <==> tool_names(blocks).len() > 0);
    }
}

proof fn lemma_names_stay_truncated(gathered: Gathered, names: Seq<Seq<char>>, max_bytes: nat)
    requires
        gathered.truncated,
        byte_len(gathered.text) <= max_bytes,
    ensures
        with_names(gathered, names, max_bytes).truncated,
        byte_len(with_names(gathered, names, max_bytes).text) <= max_bytes,
    decreases names.len(),
{
    if names.len() > 0 {
        lemma_names_stay_truncated(gathered, names.drop_last(), max_bytes);
        pieces_are_gathered_line_by_line(
            with_names(gathered, names.drop_last(), max_bytes),
            names.last(),
            max_bytes,
        );
    }
}

/// What the blocks of a tool's result hold: the texts of the text blocks, and a mention for
/// each image.
pub open spec fn output_pieces(blocks: Seq<JsonTree>) -> Seq<Seq<char>>
    decreases blocks.len(),
{
    if blocks.len() == 0 {
        Seq::empty()
    } else {
        let before = output_pieces(blocks.drop_last());
        match (blocks.last().member("type"@), blocks.last().member("text"@)) {
            (Some(JsonTree::Text(kind)), text) => if kind == "image"@ {
                before.push("[image attachment]"@)
            } else if kind == "text"@ && text is Some && text->0 is Text {
                before.push(text->0->Text_0)
            } else {
                before
            },
            _ => before,
        }
    }
}

proof fn lemma_suffix_concat(a: Seq<char>, b: Seq<char>, max: nat)
    ensures
        suffix_within(suffix_within(a, max) + b, max) == suffix_within(a + b, max),
{
    let kept = suffix_within(a, max);
    let narrow = kept + b;
    let wide = a + b;
    bounded_end_is_the_longest(a, max);
    bounded_end_is_the_longest(narrow, max);
    bounded_end_is_the_longest(wide, max);
    let n = suffix_within(narrow, max).len();
    let w = suffix_within(wide, max).len();
    assert(narrow =~= wide.skip(a.len() - kept.len()));
    assert(wide.skip(wide.len() - n) =~= narrow.skip(narrow.len() - n));
    if w > n {
        if n < narrow.len() {
            assert(wide.skip(wide.len() - n - 1) =~= narrow.skip(narrow.len() - n - 1));
            lemma_shorter_end(wide, wide.len() - w, wide.len() - n - 1);
        } else {
            assert(n == narrow.len());
            assert(kept.len() < a.len());
            let more = a.skip(a.len() - kept.len() - 1);
            assert(wide.skip(wide.len() - narrow.len() - 1) =~= more + b);
            lemma_encode_concat(more, b);
            lemma_shorter_end(wide, wide.len() - w, wide.len() - narrow.len() - 1);
        }
    } else if n > w {
        assert(wide.skip(wide.len() - w - 1) =~= narrow.skip(narrow.len() - w - 1));
        lemma_shorter_end(narrow, narrow.len() - n, narrow.len() - w - 1);
    }
}

proof fn lemma_shorter_end(s: Seq<char>, from: int, to: int)
    requires
        0 <= from <= to <= s.len(),
    ensures
        byte_len(s.skip(to)) <= byte_len(s.skip(from)),
{
    assert(s.skip(from) =~= s.subrange(from, to) + s.skip(to));
    lemma_encode_concat(s.subrange(from, to), s.skip(to));
}

proof fn lemma_output_blocks(blocks: Seq<JsonTree>, max_bytes: nat)
    requires
        byte_len(in_lines(output_pieces(blocks))) <= u64::MAX,
    ensures
        ({
            let (output, has_content) = output_blocks(blocks, max_bytes);
            let whole = in_lines(output_pieces(blocks));
            &&& has_content <==> output_pieces(blocks).len() > 0
            &&& output.max_bytes == max_bytes
            &&& output.text == suffix_within(whole, max_bytes)
            &&& output.dropped_bytes > 0 <==> byte_len(whole) > max_bytes
        }),
    decreases blocks.len(),
{
    let pieces = output_pieces(blocks);
    if blocks.len() == 0 {
        assert(byte_len(Seq::<char>::empty()) == 0);
    } else {
        reveal_strlit("text");
        reveal_strlit("image");
        reveal_strlit("\n");
        assert("text"@.len() != "image"@.len());
        let before = output_pieces(blocks.drop_last());
        let newline = seq!['\n'];
        assert("\n"@ =~= newline);
        lemma_newline();
        match output_segment(blocks.last()) {
            Some(segment) => {
                assert(pieces == before.push(segment));
                assert(pieces.drop_last() =~= before);
                let held = in_lines(before);
                if before.len() > 0 {
                    lemma_encode_concat(held, newline);
                    lemma_encode_concat(held + newline, segment);
                    assert(in_lines(pieces) == held + newline + segment);
                } else {
                    assert(held =~= Seq::<char>::empty());
                    assert(byte_len(Seq::<char>::empty()) == 0);
                    assert(in_lines(pieces) == segment);
                }
                lemma_output_blocks(blocks.drop_last(), max_bytes);
                let (output, has_content) = output_blocks(blocks.drop_last(), max_bytes);
                lemma_suffix_within(held, max_bytes);
                if before.len() > 0 {
                    let line = output.appended("\n"@);
                    lemma_suffix_concat(held, newline, max_bytes);
                    lemma_suffix_concat(held + newline, segment, max_bytes);
                    lemma_encode_concat(output.text, newline);
                    lemma_suffix_within(output.text + newline, max_bytes);
                    lemma_encode_concat(line.text, segment);
                    lemma_suffix_within(line.text + segment, max_bytes);
                    bounded_end_is_the_longest(output.text + newline, max_bytes);
                    bounded_end_is_the_longest(line.text + segment, max_bytes);
                    lemma_dropped(output, newline, held, max_bytes);
                    lemma_dropped(line, segment, held + newline, max_bytes);
                } else {
                    assert(output.text =~= Seq::<char>::empty());
                    assert(output.text + segment =~= segment);
                    lemma_suffix_within(segment, max_bytes);
                    lemma_dropped(output, segment, held, max_bytes);
                    assert(held + segment =~= segment);
                }
            },
            None => {
                lemma_output_blocks(blocks.drop_last(), max_bytes);
            },
        }
    }
}

proof fn lemma_dropped(output: BoundedTextView, delta: Seq<char>, held: Seq<char>, max_bytes: nat)
    requires
        output.max_bytes == max_bytes,
        output.text == suffix_within(held, max_bytes),
        output.dropped_bytes > 0 <==> byte_len(held) > max_bytes,
        byte_len(held + delta) <= u64::MAX,
    ensures
        output.appended(delta).max_bytes == max_bytes,
        output.appended(delta).text == suffix_within(held + delta, max_bytes),
        output.appended(delta).dropped_bytes > 0 <==> byte_len(held + delta) > max_bytes,
{
    lemma_suffix_concat(held, delta, max_bytes);
    lemma_encode_concat(held, delta);
    lemma_encode_concat(output.text, delta);
    lemma_suffix_within(held, max_bytes);
    lemma_suffix_within(output.text + delta, max_bytes);
}

/// The output of a tool keeps its newest part: the texts of its blocks, and a mention for
/// each image, with a line feed between each two, or the one text that it is; all of it where
/// it fits, and else the longest end that does, marked as cut.
pub proof fn tool_output_keeps_its_newest_part(content: JsonTree, max_bytes: nat)
    requires
        content is List ==> byte_len(in_lines(output_pieces(content->List_0))) <= u64::MAX,
    ensures
        ({
            let shown = output_of(content, max_bytes);
            let whole = match content {
                JsonTree::Text(text) => text,
                JsonTree::List(blocks) => in_lines(output_pieces(blocks)),
                _ => Seq::empty(),
            };
            &&& shows_what_fits(shown, whole, max_bytes)
            &&& shown.0.len() <= whole.len()
            &&& shown.0 == whole.skip(whole.len() - shown.0.len())
            &&& shown.0.len() < whole.len() ==> byte_len(
                whole.skip(whole.len() - shown.0.len() - 1),
            ) > max_bytes
        }),
{
    assert(byte_len(Seq::<char>::empty()) == 0);
    match content {
        JsonTree::Text(text) => {
            bounded_end_is_the_longest(text, max_bytes);
        },
        JsonTree::List(blocks) => {
            lemma_output_blocks(blocks, max_bytes);
            bounded_end_is_the_longest(in_lines(output_pieces(blocks)), max_bytes);
        },
        _ => {
            assert(Seq::<char>::empty().skip(0) =~= Seq::<char>::empty());
        },
    }
}

/// An entry that holds this message.
pub open spec fn is_message(entry: JsonTree, id: Seq<char>, role: Seq<char>, message: JsonTree) -> bool {
    &&& entry.member("id"@) == Some(JsonTree::Text(id))
    &&& entry.member("type"@) == Some(JsonTree::Text("message"@))
    &&& entry.member("message"@) == Some(message)
    &&& message.member("role"@) == Some(JsonTree::Text(role))
}

/// Whether this is the start of the text under `key`, of 256 bytes at most, or nothing
/// where there is no such text.
pub open spec fn titled(
    title: Option<Seq<char>>,
    message: JsonTree,
    key: Seq<char>,
    max_bytes: nat,
) -> bool {
    match message.member(key) {
        Some(JsonTree::Text(text)) => title == Some(prefix_within(text, max_bytes)),
        _ => title is None,
    }
}

/// Every item names its entry and the time of it.
pub proof fn items_name_their_entry(entry: JsonTree, max_bytes: nat)
    ensures
        match entry_timeline(entry, max_bytes) {
            Some(item) => {
                &&& entry.member("id"@) == Some(JsonTree::Text(item.entry_id))
                &&& titled(item.timestamp, entry, "timestamp"@, 128)
            },
            None => true,
        },
{
}

/// A message of the user is shown as what the user wrote, and never as an error.
pub proof fn user_messages_are_shown(
    entry: JsonTree,
    id: Seq<char>,
    message: JsonTree,
    content: JsonTree,
    max_bytes: nat,
)
    requires
        is_message(entry, id, "user"@, message),
        message.member("content"@) == Some(content),
    ensures
        match entry_timeline(entry, max_bytes) {
            Some(item) => {
                &&& item.kind == SessionTimelineKind::User
                &&& item.title == Some("You"@)
                &&& (item.text, item.text_truncated) == content_of(content, max_bytes)
                &&& !item.is_error
            },
            None => false,
        },
{
}

/// A message of the assistant is shown under the name of its model. Where it has no text of
/// its own, its error is shown. It is an error if and only if it stopped because of one.
pub proof fn assistant_messages_are_shown(
    entry: JsonTree,
    id: Seq<char>,
    message: JsonTree,
    content: JsonTree,
    max_bytes: nat,
)
    requires
        is_message(entry, id, "assistant"@, message),
        message.member("content"@) == Some(content),
    ensures
        match entry_timeline(entry, max_bytes) {
            Some(item) => {
                let own = assistant_content(content, max_bytes);
                &&& item.kind == SessionTimelineKind::Assistant
                &&& titled(item.title, message, "model"@, 256)
                &&& item.is_error <==> message.member("stopReason"@) == Some(
                    JsonTree::Text("error"@),
                )
                &&& own.0.len() > 0 ==> (item.text, item.text_truncated) == own
                &&& own.0.len() == 0 ==> match message.member("errorMessage"@) {
                    Some(JsonTree::Text(error)) => shows_what_fits(
                        (item.text, item.text_truncated),
                        error,
                        max_bytes,
                    ),
                    _ => (item.text, item.text_truncated) == own,
                }
            },
            None => false,
        },
{
    role_names_differ();
    match message.member("errorMessage"@) {
        Some(JsonTree::Text(error)) => {
            lemma_prefix_within(error, max_bytes);
        },
        _ => {},
    }
}

/// The result of a tool is shown under the name of the tool, with its newest output. It is
/// an error if and only if the tool reported one.
pub proof fn tool_results_are_shown(
    entry: JsonTree,
    id: Seq<char>,
    message: JsonTree,
    content: JsonTree,
    max_bytes: nat,
)
    requires
        is_message(entry, id, "toolResult"@, message),
        message.member("content"@) == Some(content),
    ensures
        match entry_timeline(entry, max_bytes) {
            Some(item) => {
                &&& item.kind == SessionTimelineKind::Tool
                &&& titled(item.title, message, "toolName"@, 256)
                &&& (item.text, item.text_truncated) == output_of(content, max_bytes)
                &&& item.is_error <==> message.member("isError"@) == Some(JsonTree::Bool(true))
            },
            None => false,
        },
{
    role_names_differ();
}

/// A shell command is shown under its command line, with its newest output. It is an error
/// if and only if it left an exit code that is not zero, and it counts as cut also where Pi
/// had cut its output already.
pub proof fn shell_commands_are_shown(
    entry: JsonTree,
    id: Seq<char>,
    message: JsonTree,
    max_bytes: nat,
)
    requires
        is_message(entry, id, "bashExecution"@, message),
    ensures
        match entry_timeline(entry, max_bytes) {
            Some(item) => {
                let output = match message.member("output"@) {
                    Some(JsonTree::Text(text)) => text,
                    _ => Seq::empty(),
                };
                &&& item.kind == SessionTimelineKind::Bash
                &&& titled(item.title, message, "command"@, 512)
                &&& byte_len(output) <= max_bytes ==> item.text == output
                &&& item.text.len() <= output.len()
                &&& item.text == output.skip(output.len() - item.text.len())
                &&& item.text_truncated <==> byte_len(output) > max_bytes || message.member(
                    "truncated"@,
                ) == Some(JsonTree::Bool(true))
                &&& item.is_error <==> match message.member("exitCode"@) {
                    Some(JsonTree::Integer(code)) => code != 0,
                    _ => false,
                }
            },
            None => false,
        },
{
    role_names_differ();
    let output = match message.member("output"@) {
        Some(JsonTree::Text(text)) => text,
        _ => Seq::empty(),
    };
    bounded_end_is_the_longest(output, max_bytes);
}

/// Whether an item shows the text under `summary` from its start.
pub open spec fn shows_summary(item: TimelineItemView, value: JsonTree, max_bytes: nat) -> bool {
    let summary = match value.member("summary"@) {
        Some(JsonTree::Text(text)) => text,
        _ => Seq::empty(),
    };
    &&& shows_what_fits((item.text, item.text_truncated), summary, max_bytes)
    &&& item.text == summary.take(item.text.len() as int)
    &&& !item.is_error
}

/// Summaries are shown as what they summarize, whether they are entries of their own or
/// messages.
pub proof fn summaries_are_shown(
    entry: JsonTree,
    id: Seq<char>,
    message: JsonTree,
    max_bytes: nat,
)
    requires
        entry.member("id"@) == Some(JsonTree::Text(id)),
    ensures
        entry.member("type"@) == Some(JsonTree::Text("compaction"@)) ==> match entry_timeline(
            entry,
            max_bytes,
        ) {
            Some(item) => item.kind == SessionTimelineKind::Compaction && item.title == Some(
                "Compaction"@,
            ) && shows_summary(item, entry, max_bytes),
            None => false,
        },
        entry.member("type"@) == Some(JsonTree::Text("branch_summary"@)) ==> match entry_timeline(
            entry,
            max_bytes,
        ) {
            Some(item) => item.kind == SessionTimelineKind::BranchSummary && item.title == Some(
                "Branch summary"@,
            ) && shows_summary(item, entry, max_bytes),
            None => false,
        },
        is_message(entry, id, "compactionSummary"@, message) ==> match entry_timeline(
            entry,
            max_bytes,
        ) {
            Some(item) => item.kind == SessionTimelineKind::Compaction && item.title == Some(
                "Compaction"@,
            ) && shows_summary(item, message, max_bytes),
            None => false,
        },
        is_message(entry, id, "branchSummary"@, message) ==> match entry_timeline(
            entry,
            max_bytes,
        ) {
            Some(item) => item.kind == SessionTimelineKind::BranchSummary && item.title == Some(
                "Branch summary"@,
            ) && shows_summary(item, message, max_bytes),
            None => false,
        },
{
    role_names_differ();
    entry_names_differ();
    lemma_summary(entry, max_bytes);
    lemma_summary(message, max_bytes);
}

proof fn lemma_summary(value: JsonTree, max_bytes: nat)
    ensures
        match value.member("summary"@) {
            Some(JsonTree::Text(text)) => {
                let kept = prefix_within(text, max_bytes);
                &&& byte_len(kept) <= max_bytes
                &&& kept == text.take(kept.len() as int)
                &&& byte_len(text) <= max_bytes ==> kept == text
            },
            _ => {
                let kept = prefix_within(Seq::empty(), max_bytes);
                kept == Seq::<char>::empty() && byte_len(kept) == 0 && kept == Seq::<
                    char,
                >::empty().take(0)
            },
        },
{
    match value.member("summary"@) {
        Some(JsonTree::Text(text)) => {
            lemma_prefix_within(text, max_bytes);
        },
        _ => {
            lemma_prefix_within(Seq::empty(), max_bytes);
            assert(Seq::<char>::empty().take(0) =~= Seq::<char>::empty());
        },
    }
}

/// What an extension wrote is shown under its own name, where it has content and is to be
/// shown: an entry unless it says otherwise, a message only if it says so.
pub proof fn extension_messages_are_shown_on_demand(
    entry: JsonTree,
    id: Seq<char>,
    message: JsonTree,
    max_bytes: nat,
)
    requires
        entry.member("id"@) == Some(JsonTree::Text(id)),
    ensures
        entry.member("type"@) == Some(JsonTree::Text("custom_message"@)) ==> match entry_timeline(
            entry,
            max_bytes,
        ) {
            Some(item) => {
                &&& entry.member("display"@) != Some(JsonTree::Bool(false))
                &&& entry.member("content"@) is Some
                &&& item.kind == SessionTimelineKind::Custom
                &&& titled(item.title, entry, "customType"@, 256)
                &&& (item.text, item.text_truncated) == content_of(
                    entry.member("content"@)->0,
                    max_bytes,
                )
                &&& !item.is_error
            },
            None => entry.member("display"@) == Some(JsonTree::Bool(false)) || entry.member(
                "content"@,
            ) is None,
        },
        is_message(entry, id, "custom"@, message) ==> match entry_timeline(entry, max_bytes) {
            Some(item) => {
                &&& message.member("display"@) == Some(JsonTree::Bool(true))
                &&& message.member("content"@) is Some
                &&& item.kind == SessionTimelineKind::Custom
                &&& titled(item.title, message, "customType"@, 256)
                &&& (item.text, item.text_truncated) == content_of(
                    message.member("content"@)->0,
                    max_bytes,
                )
                &&& !item.is_error
            },
            None => message.member("display"@) != Some(JsonTree::Bool(true)) || message.member(
                "content"@,
            ) is None,
        },
{
    role_names_differ();
    entry_names_differ();
}

/// Nothing else is shown: an entry of another type, a message of another role, and an entry
/// without identity give no item.
pub proof fn other_entries_are_not_shown(entry: JsonTree, max_bytes: nat)
    ensures
        entry_timeline(entry, max_bytes) is Some ==> {
            &&& entry.member("id"@) is Some
            &&& entry.member("type"@) == Some(JsonTree::Text("compaction"@)) || entry.member(
                "type"@,
            ) == Some(JsonTree::Text("branch_summary"@)) || entry.member("type"@) == Some(
                JsonTree::Text("custom_message"@),
            ) || (entry.member("type"@) == Some(JsonTree::Text("message"@)) && entry.member(
                "message"@,
            ) is Some && known_role(entry.member("message"@)->0))
        },
{
}

/// Whether a message has a role that is shown.
pub open spec fn known_role(message: JsonTree) -> bool {
    match message.member("role"@) {
        Some(JsonTree::Text(role)) => role == "user"@ || role == "assistant"@ || role
            == "toolResult"@ || role == "bashExecution"@ || role == "custom"@ || role
            == "branchSummary"@ || role == "compactionSummary"@,
        _ => false,
    }
}

proof fn role_names_differ()
    ensures
        "user"@.len() == 4,
        "assistant"@.len() == 9,
        "toolResult"@.len() == 10,
        "bashExecution"@.len() == 13,
        "custom"@.len() == 6,
        "branchSummary"@.len() == 13,
        "compactionSummary"@.len() == 17,
        "bashExecution"@ != "branchSummary"@,
{
    reveal_strlit("user");
    reveal_strlit("assistant");
    reveal_strlit("toolResult");
    reveal_strlit("bashExecution");
    reveal_strlit("custom");
    reveal_strlit("branchSummary");
    reveal_strlit("compactionSummary");
    assert("bashExecution"@[1] != "branchSummary"@[1]);
}

proof fn entry_names_differ()
    ensures
        "message"@.len() == 7,
        "compaction"@.len() == 10,
        "branch_summary"@.len() == 14,
        "custom_message"@.len() == 14,
        "branch_summary"@ != "custom_message"@,
{
    reveal_strlit("message");
    reveal_strlit("compaction");
    reveal_strlit("branch_summary");
    reveal_strlit("custom_message");
    assert("branch_summary"@[0] != "custom_message"@[0]);
}

} // verus!
