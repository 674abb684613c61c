//! How many bytes things take as JSON.
use vstd::prelude::*;
use vstd::string::*;
use vstd::utf8::*;

use crate::json::{json_char_len, json_chars_len, json_text_len};
use crate::number_laws::numbers_are_read_back;
use crate::numbers::decimal;
use crate::session_catalog::entry_json_len;
use crate::session_history::{
    cursor_json_len, item_json_len, items_json_len, page_json_len, HistoryCursorView,
    HistoryPageView,
};
use crate::session_preview::CatalogEntryView;
use crate::text::{byte_len, char_width, lemma_encode_concat, lemma_encode_first};
use crate::timeline::{SessionTimelineKind, TimelineItemView};

verus! {

/// Two hexadecimal digits of a number under 32.
pub open spec fn low_code(code: u32) -> Seq<char> {
    seq![
        if code < 16 {
            '0'
        } else {
            '1'
        },
        if code % 16 < 10 {
            (('0' as u32) + code % 16) as char
        } else {
            (('a' as u32) + (code % 16 - 10)) as char
        },
    ]
}

/// A character inside a JSON text: quotes, backslashes and control characters are escaped, the
/// usual ones by a letter and the others by their code.
pub open spec fn escaped(c: char) -> Seq<char> {
    if c == '"' {
        seq!['\\', '"']
    } else if c == '\\' {
        seq!['\\', '\\']
    } else if c == '\n' {
        seq!['\\', 'n']
    } else if c == '\r' {
        seq!['\\', 'r']
    } else if c == '\t' {
        seq!['\\', 't']
    } else if c == '\u{8}' {
        seq!['\\', 'b']
    } else if c == '\u{c}' {
        seq!['\\', 'f']
    } else if (c as u32) < 0x20 {
        seq!['\\', 'u', '0', '0'] + low_code(c as u32)
    } else {
        seq![c]
    }
}

/// The characters of a text inside a JSON text.
pub open spec fn all_escaped(s: Seq<char>) -> Seq<char>
    decreases s.len(),
{
    if s.len() == 0 {
        Seq::empty()
    } else {
        all_escaped(s.drop_last()) + escaped(s.last())
    }
}

/// A text as JSON.
pub open spec fn quoted(s: Seq<char>) -> Seq<char> {
    seq!['"'] + all_escaped(s) + seq!['"']
}

/// A text as JSON, where there is one.
pub open spec fn quoted_or_null(s: Option<Seq<char>>) -> Seq<char> {
    match s {
        Some(text) => quoted(text),
        None => "null"@,
    }
}

/// A truth as JSON.
pub open spec fn truth(value: bool) -> Seq<char> {
    if value {
        "true"@
    } else {
        "false"@
    }
}

/// The kind of an item as JSON.
pub open spec fn kind_name(kind: SessionTimelineKind) -> Seq<char> {
    match kind {
        SessionTimelineKind::User => "\"user\""@,
        SessionTimelineKind::Assistant => "\"assistant\""@,
        SessionTimelineKind::Tool => "\"tool\""@,
        SessionTimelineKind::Bash => "\"bash\""@,
        SessionTimelineKind::Compaction => "\"compaction\""@,
        SessionTimelineKind::BranchSummary => "\"branch_summary\""@,
        SessionTimelineKind::Custom => "\"custom\""@,
    }
}

/// An item as JSON.
pub open spec fn item_document(item: TimelineItemView) -> Seq<char> {
    "{\"entryId\":"@ + quoted(item.entry_id)
        + ",\"timestamp\":"@ + quoted_or_null(item.timestamp)
        + ",\"kind\":"@ + kind_name(item.kind)
        + ",\"title\":"@ + quoted_or_null(item.title)
        + ",\"text\":"@ + quoted(item.text)
        + ",\"textTruncated\":"@ + truth(item.text_truncated)
        + ",\"isError\":"@ + truth(item.is_error)
        + "}"@
}

/// The items of a page, with commas between them.
pub open spec fn between_commas(items: Seq<TimelineItemView>) -> Seq<char>
    decreases items.len(),
{
    if items.len() == 0 {
        Seq::empty()
    } else if items.len() == 1 {
        item_document(items.last())
    } else {
        between_commas(items.drop_last()) + seq![','] + item_document(items.last())
    }
}

/// The items of a page as JSON.
pub open spec fn in_brackets(items: Seq<TimelineItemView>) -> Seq<char> {
    seq!['['] + between_commas(items) + seq![']']
}

/// A cursor as JSON.
pub open spec fn cursor_document(cursor: HistoryCursorView) -> Seq<char> {
    "{\"sessionId\":"@ + quoted(cursor.session_id)
        + ",\"beforeOffset\":"@ + decimal(cursor.before_offset as nat)
        + ",\"nextEntryId\":"@ + quoted_or_null(cursor.next_entry_id)
        + ",\"seekLatest\":"@ + truth(cursor.seek_latest)
        + "}"@
}

/// A cursor as JSON, where there is one.
pub open spec fn cursor_or_null(cursor: Option<HistoryCursorView>) -> Seq<char> {
    match cursor {
        Some(cursor) => cursor_document(cursor),
        None => "null"@,
    }
}

/// A page as JSON.
pub open spec fn page_document(page: HistoryPageView) -> Seq<char> {
    "{\"sessionId\":"@ + quoted(page.session_id)
        + ",\"appendCursor\":"@ + quoted_or_null(page.append_cursor)
        + ",\"leafId\":"@ + quoted_or_null(page.leaf_id)
        + ",\"items\":"@ + in_brackets(page.items)
        + ",\"nextCursor\":"@ + cursor_or_null(page.next_cursor)
        + ",\"scannedBytes\":"@ + decimal(page.scanned_bytes as nat)
        + ",\"encodedBytes\":"@ + decimal(page.encoded_bytes as nat)
        + "}"@
}

/// An entry of the catalog as JSON.
pub open spec fn entry_document(entry: CatalogEntryView) -> Seq<char> {
    "{\"path\":"@ + quoted(entry.path)
        + ",\"id\":"@ + quoted(entry.id)
        + ",\"name\":"@ + quoted_or_null(entry.name)
        + ",\"firstMessage\":"@ + quoted_or_null(entry.first_message)
        + ",\"modifiedUnixMs\":"@ + decimal(entry.modified_unix_ms as nat)
        + ",\"previewIncomplete\":"@ + truth(entry.preview_incomplete)
        + "}"@
}

proof fn lemma_one(c: char)
    ensures
        byte_len(seq![c]) == char_width(c),
{
    lemma_encode_first(seq![c]);
    assert(seq![c].drop_first() =~= Seq::<char>::empty());
    lemma_encode_concat(Seq::<char>::empty(), Seq::<char>::empty());
}

proof fn lemma_ascii(s: Seq<char>)
    requires
        is_ascii_chars(s),
    ensures
        byte_len(s) == s.len(),
{
    is_ascii_chars_encode_utf8(s);
}

proof fn lemma_escaped(c: char)
    ensures
        byte_len(escaped(c)) == json_char_len(c),
{
    if c == '"' || c == '\\' || c == '\n' || c == '\r' || c == '\t' || c == '\u{8}' || c == '\u{c}' || (
    c as u32) < 0x20 {
        lemma_ascii(escaped(c));
    } else {
        lemma_one(c);
    }
}

proof fn lemma_all_escaped(s: Seq<char>)
    ensures
        byte_len(all_escaped(s)) == json_chars_len(s),
    decreases s.len(),
{
    if s.len() > 0 {
        lemma_all_escaped(s.drop_last());
        lemma_escaped(s.last());
        lemma_encode_concat(all_escaped(s.drop_last()), escaped(s.last()));
    } else {
        lemma_ascii(all_escaped(s));
    }
}

/// A text takes as many bytes as JSON as it has when it is written out, with its quotes and
/// with everything escaped that has to be.
pub proof fn texts_take_their_bytes_as_json(s: Seq<char>)
    ensures
        byte_len(quoted(s)) == json_text_len(s),
{
    lemma_all_escaped(s);
    lemma_one('"');
    lemma_encode_concat(seq!['"'], all_escaped(s));
    lemma_encode_concat(seq!['"'] + all_escaped(s), seq!['"']);
}

proof fn lemma_null()
    ensures
        byte_len("null"@) == 4,
{
    reveal_strlit("null");
    lemma_ascii("null"@);
}

proof fn lemma_optional(s: Option<Seq<char>>)
    ensures
        byte_len(quoted_or_null(s)) == crate::session_history::json_optional_len(s),
{
    lemma_null();
    if s is Some {
        texts_take_their_bytes_as_json(s->0);
    }
}

proof fn lemma_truth(value: bool)
    ensures
        byte_len(truth(value)) == crate::session_history::json_bool_len(value),
{
    reveal_strlit("true");
    reveal_strlit("false");
    lemma_ascii(truth(value));
}

proof fn lemma_kind(kind: SessionTimelineKind)
    ensures
        byte_len(kind_name(kind)) == crate::session_history::json_kind_len(kind),
{
    reveal_strlit("\"user\"");
    reveal_strlit("\"assistant\"");
    reveal_strlit("\"tool\"");
    reveal_strlit("\"bash\"");
    reveal_strlit("\"compaction\"");
    reveal_strlit("\"branch_summary\"");
    reveal_strlit("\"custom\"");
    lemma_ascii(kind_name(kind));
}

proof fn lemma_decimal(n: nat)
    ensures
        byte_len(decimal(n)) == decimal(n).len(),
{
    numbers_are_read_back(n);
    lemma_ascii(decimal(n));
}

proof fn lemma_item_names()
    ensures
        byte_len("{\"entryId\":"@) == 11,
        byte_len(",\"timestamp\":"@) == 13,
        byte_len(",\"kind\":"@) == 8,
        byte_len(",\"title\":"@) == 9,
        byte_len(",\"text\":"@) == 8,
        byte_len(",\"textTruncated\":"@) == 17,
        byte_len(",\"isError\":"@) == 11,
        byte_len("}"@) == 1,
{
    assert(byte_len("{\"entryId\":"@) == 11) by {
        reveal_strlit("{\"entryId\":");
        lemma_ascii("{\"entryId\":"@);
    }
    assert(byte_len(",\"timestamp\":"@) == 13) by {
        reveal_strlit(",\"timestamp\":");
        lemma_ascii(",\"timestamp\":"@);
    }
    assert(byte_len(",\"kind\":"@) == 8) by {
        reveal_strlit(",\"kind\":");
        lemma_ascii(",\"kind\":"@);
    }
    assert(byte_len(",\"title\":"@) == 9) by {
        reveal_strlit(",\"title\":");
        lemma_ascii(",\"title\":"@);
    }
    assert(byte_len(",\"text\":"@) == 8) by {
        reveal_strlit(",\"text\":");
        lemma_ascii(",\"text\":"@);
    }
    assert(byte_len(",\"textTruncated\":"@) == 17) by {
        reveal_strlit(",\"textTruncated\":");
        lemma_ascii(",\"textTruncated\":"@);
    }
    assert(byte_len(",\"isError\":"@) == 11) by {
        reveal_strlit(",\"isError\":");
        lemma_ascii(",\"isError\":"@);
    }
    assert(byte_len("}"@) == 1) by {
        reveal_strlit("}");
        lemma_ascii("}"@);
    }
}

proof fn lemma_cursor_names()
    ensures
        byte_len("{\"sessionId\":"@) == 13,
        byte_len(",\"beforeOffset\":"@) == 16,
        byte_len(",\"nextEntryId\":"@) == 15,
        byte_len(",\"seekLatest\":"@) == 14,
        byte_len("}"@) == 1,
{
    assert(byte_len("{\"sessionId\":"@) == 13) by {
        reveal_strlit("{\"sessionId\":");
        lemma_ascii("{\"sessionId\":"@);
    }
    assert(byte_len(",\"beforeOffset\":"@) == 16) by {
        reveal_strlit(",\"beforeOffset\":");
        lemma_ascii(",\"beforeOffset\":"@);
    }
    assert(byte_len(",\"nextEntryId\":"@) == 15) by {
        reveal_strlit(",\"nextEntryId\":");
        lemma_ascii(",\"nextEntryId\":"@);
    }
    assert(byte_len(",\"seekLatest\":"@) == 14) by {
        reveal_strlit(",\"seekLatest\":");
        lemma_ascii(",\"seekLatest\":"@);
    }
    assert(byte_len("}"@) == 1) by {
        reveal_strlit("}");
        lemma_ascii("}"@);
    }
}

proof fn lemma_page_names()
    ensures
        byte_len("{\"sessionId\":"@) == 13,
        byte_len(",\"appendCursor\":"@) == 16,
        byte_len(",\"leafId\":"@) == 10,
        byte_len(",\"items\":"@) == 9,
        byte_len(",\"nextCursor\":"@) == 14,
        byte_len(",\"scannedBytes\":"@) == 16,
        byte_len(",\"encodedBytes\":"@) == 16,
        byte_len("}"@) == 1,
{
    assert(byte_len("{\"sessionId\":"@) == 13) by {
        reveal_strlit("{\"sessionId\":");
        lemma_ascii("{\"sessionId\":"@);
    }
    assert(byte_len(",\"appendCursor\":"@) == 16) by {
        reveal_strlit(",\"appendCursor\":");
        lemma_ascii(",\"appendCursor\":"@);
    }
    assert(byte_len(",\"leafId\":"@) == 10) by {
        reveal_strlit(",\"leafId\":");
        lemma_ascii(",\"leafId\":"@);
    }
    assert(byte_len(",\"items\":"@) == 9) by {
        reveal_strlit(",\"items\":");
        lemma_ascii(",\"items\":"@);
    }
    assert(byte_len(",\"nextCursor\":"@) == 14) by {
        reveal_strlit(",\"nextCursor\":");
        lemma_ascii(",\"nextCursor\":"@);
    }
    assert(byte_len(",\"scannedBytes\":"@) == 16) by {
        reveal_strlit(",\"scannedBytes\":");
        lemma_ascii(",\"scannedBytes\":"@);
    }
    assert(byte_len(",\"encodedBytes\":"@) == 16) by {
        reveal_strlit(",\"encodedBytes\":");
        lemma_ascii(",\"encodedBytes\":"@);
    }
    assert(byte_len("}"@) == 1) by {
        reveal_strlit("}");
        lemma_ascii("}"@);
    }
}

proof fn lemma_entry_names()
    ensures
        byte_len("{\"path\":"@) == 8,
        byte_len(",\"id\":"@) == 6,
        byte_len(",\"name\":"@) == 8,
        byte_len(",\"firstMessage\":"@) == 16,
        byte_len(",\"modifiedUnixMs\":"@) == 18,
        byte_len(",\"previewIncomplete\":"@) == 21,
        byte_len("}"@) == 1,
{
    assert(byte_len("{\"path\":"@) == 8) by {
        reveal_strlit("{\"path\":");
        lemma_ascii("{\"path\":"@);
    }
    assert(byte_len(",\"id\":"@) == 6) by {
        reveal_strlit(",\"id\":");
        lemma_ascii(",\"id\":"@);
    }
    assert(byte_len(",\"name\":"@) == 8) by {
        reveal_strlit(",\"name\":");
        lemma_ascii(",\"name\":"@);
    }
    assert(byte_len(",\"firstMessage\":"@) == 16) by {
        reveal_strlit(",\"firstMessage\":");
        lemma_ascii(",\"firstMessage\":"@);
    }
    assert(byte_len(",\"modifiedUnixMs\":"@) == 18) by {
        reveal_strlit(",\"modifiedUnixMs\":");
        lemma_ascii(",\"modifiedUnixMs\":"@);
    }
    assert(byte_len(",\"previewIncomplete\":"@) == 21) by {
        reveal_strlit(",\"previewIncomplete\":");
        lemma_ascii(",\"previewIncomplete\":"@);
    }
    assert(byte_len("}"@) == 1) by {
        reveal_strlit("}");
        lemma_ascii("}"@);
    }
}

/// An item takes as many bytes as JSON as it has when it is written out, each field under its
/// name.
pub proof fn items_take_their_bytes_as_json(item: TimelineItemView)
    ensures
        byte_len(item_document(item)) == item_json_len(item),
{
    lemma_item_names();
    let d0 = "{\"entryId\":"@;
    texts_take_their_bytes_as_json(item.entry_id);
    lemma_encode_concat(d0, quoted(item.entry_id));
    let d1 = d0 + quoted(item.entry_id);
    lemma_encode_concat(d1, ",\"timestamp\":"@);
    let d2 = d1 + ",\"timestamp\":"@;
    lemma_optional(item.timestamp);
    lemma_encode_concat(d2, quoted_or_null(item.timestamp));
    let d3 = d2 + quoted_or_null(item.timestamp);
    lemma_encode_concat(d3, ",\"kind\":"@);
    let d4 = d3 + ",\"kind\":"@;
    lemma_kind(item.kind);
    lemma_encode_concat(d4, kind_name(item.kind));
    let d5 = d4 + kind_name(item.kind);
    lemma_encode_concat(d5, ",\"title\":"@);
    let d6 = d5 + ",\"title\":"@;
    lemma_optional(item.title);
    lemma_encode_concat(d6, quoted_or_null(item.title));
    let d7 = d6 + quoted_or_null(item.title);
    lemma_encode_concat(d7, ",\"text\":"@);
    let d8 = d7 + ",\"text\":"@;
    texts_take_their_bytes_as_json(item.text);
    lemma_encode_concat(d8, quoted(item.text));
    let d9 = d8 + quoted(item.text);
    lemma_encode_concat(d9, ",\"textTruncated\":"@);
    let d10 = d9 + ",\"textTruncated\":"@;
    lemma_truth(item.text_truncated);
    lemma_encode_concat(d10, truth(item.text_truncated));
    let d11 = d10 + truth(item.text_truncated);
    lemma_encode_concat(d11, ",\"isError\":"@);
    let d12 = d11 + ",\"isError\":"@;
    lemma_truth(item.is_error);
    lemma_encode_concat(d12, truth(item.is_error));
    let d13 = d12 + truth(item.is_error);
    lemma_encode_concat(d13, "}"@);
    let d14 = d13 + "}"@;
    assert(item_document(item) == d14);
}

proof fn lemma_between(items: Seq<TimelineItemView>)
    ensures
        byte_len(between_commas(items)) == items_json_len(items),
    decreases items.len(),
{
    if items.len() == 0 {
        lemma_ascii(between_commas(items));
    } else {
        items_take_their_bytes_as_json(items.last());
        if items.len() > 1 {
            lemma_between(items.drop_last());
            lemma_one(',');
            let front = between_commas(items.drop_last());
            lemma_encode_concat(front, seq![',']);
            lemma_encode_concat(front + seq![','], item_document(items.last()));
        }
    }
}

proof fn lemma_items(items: Seq<TimelineItemView>)
    ensures
        byte_len(in_brackets(items)) == 2 + items_json_len(items),
{
    lemma_between(items);
    lemma_one('[');
    lemma_one(']');
    lemma_encode_concat(seq!['['], between_commas(items));
    lemma_encode_concat(seq!['['] + between_commas(items), seq![']']);
}

/// A cursor takes as many bytes as JSON as it has when it is written out.
pub proof fn cursors_take_their_bytes_as_json(cursor: HistoryCursorView)
    ensures
        byte_len(cursor_document(cursor)) == cursor_json_len(Some(cursor)),
{
    lemma_cursor_names();
    let d0 = "{\"sessionId\":"@;
    texts_take_their_bytes_as_json(cursor.session_id);
    lemma_encode_concat(d0, quoted(cursor.session_id));
    let d1 = d0 + quoted(cursor.session_id);
    lemma_encode_concat(d1, ",\"beforeOffset\":"@);
    let d2 = d1 + ",\"beforeOffset\":"@;
    lemma_decimal(cursor.before_offset as nat);
    lemma_encode_concat(d2, decimal(cursor.before_offset as nat));
    let d3 = d2 + decimal(cursor.before_offset as nat);
    lemma_encode_concat(d3, ",\"nextEntryId\":"@);
    let d4 = d3 + ",\"nextEntryId\":"@;
    lemma_optional(cursor.next_entry_id);
    lemma_encode_concat(d4, quoted_or_null(cursor.next_entry_id));
    let d5 = d4 + quoted_or_null(cursor.next_entry_id);
    lemma_encode_concat(d5, ",\"seekLatest\":"@);
    let d6 = d5 + ",\"seekLatest\":"@;
    lemma_truth(cursor.seek_latest);
    lemma_encode_concat(d6, truth(cursor.seek_latest));
    let d7 = d6 + truth(cursor.seek_latest);
    lemma_encode_concat(d7, "}"@);
    let d8 = d7 + "}"@;
    assert(cursor_document(cursor) == d8);
}

proof fn lemma_cursor(cursor: Option<HistoryCursorView>)
    ensures
        byte_len(cursor_or_null(cursor)) == cursor_json_len(cursor),
{
    lemma_null();
    if cursor is Some {
        cursors_take_their_bytes_as_json(cursor->0);
    }
}

/// A page is counted as it is written out before its own size is known.
pub proof fn pages_take_their_bytes_as_json(page: HistoryPageView)
    requires
        page.encoded_bytes == 0,
    ensures
        byte_len(page_document(page)) == page_json_len(page),
{
    lemma_page_names();
    let d0 = "{\"sessionId\":"@;
    texts_take_their_bytes_as_json(page.session_id);
    lemma_encode_concat(d0, quoted(page.session_id));
    let d1 = d0 + quoted(page.session_id);
    lemma_encode_concat(d1, ",\"appendCursor\":"@);
    let d2 = d1 + ",\"appendCursor\":"@;
    lemma_optional(page.append_cursor);
    lemma_encode_concat(d2, quoted_or_null(page.append_cursor));
    let d3 = d2 + quoted_or_null(page.append_cursor);
    lemma_encode_concat(d3, ",\"leafId\":"@);
    let d4 = d3 + ",\"leafId\":"@;
    lemma_optional(page.leaf_id);
    lemma_encode_concat(d4, quoted_or_null(page.leaf_id));
    let d5 = d4 + quoted_or_null(page.leaf_id);
    lemma_encode_concat(d5, ",\"items\":"@);
    let d6 = d5 + ",\"items\":"@;
    lemma_items(page.items);
    lemma_encode_concat(d6, in_brackets(page.items));
    let d7 = d6 + in_brackets(page.items);
    lemma_encode_concat(d7, ",\"nextCursor\":"@);
    let d8 = d7 + ",\"nextCursor\":"@;
    lemma_cursor(page.next_cursor);
    lemma_encode_concat(d8, cursor_or_null(page.next_cursor));
    let d9 = d8 + cursor_or_null(page.next_cursor);
    lemma_encode_concat(d9, ",\"scannedBytes\":"@);
    let d10 = d9 + ",\"scannedBytes\":"@;
    lemma_decimal(page.scanned_bytes as nat);
    lemma_encode_concat(d10, decimal(page.scanned_bytes as nat));
    let d11 = d10 + decimal(page.scanned_bytes as nat);
    lemma_encode_concat(d11, ",\"encodedBytes\":"@);
    let d12 = d11 + ",\"encodedBytes\":"@;
    lemma_decimal(page.encoded_bytes as nat);
    lemma_encode_concat(d12, decimal(page.encoded_bytes as nat));
    let d13 = d12 + decimal(page.encoded_bytes as nat);
    lemma_encode_concat(d13, "}"@);
    let d14 = d13 + "}"@;
    assert(page_document(page) == d14);
}

/// An entry of the catalog takes as many bytes as JSON as it has when it is written out.
pub proof fn entries_take_their_bytes_as_json(entry: CatalogEntryView)
    ensures
        byte_len(entry_document(entry)) == entry_json_len(entry),
{
    lemma_entry_names();
    let d0 = "{\"path\":"@;
    texts_take_their_bytes_as_json(entry.path);
    lemma_encode_concat(d0, quoted(entry.path));
    let d1 = d0 + quoted(entry.path);
    lemma_encode_concat(d1, ",\"id\":"@);
    let d2 = d1 + ",\"id\":"@;
    texts_take_their_bytes_as_json(entry.id);
    lemma_encode_concat(d2, quoted(entry.id));
    let d3 = d2 + quoted(entry.id);
    lemma_encode_concat(d3, ",\"name\":"@);
    let d4 = d3 + ",\"name\":"@;
    lemma_optional(entry.name);
    lemma_encode_concat(d4, quoted_or_null(entry.name));
    let d5 = d4 + quoted_or_null(entry.name);
    lemma_encode_concat(d5, ",\"firstMessage\":"@);
    let d6 = d5 + ",\"firstMessage\":"@;
    lemma_optional(entry.first_message);
    lemma_encode_concat(d6, quoted_or_null(entry.first_message));
    let d7 = d6 + quoted_or_null(entry.first_message);
    lemma_encode_concat(d7, ",\"modifiedUnixMs\":"@);
    let d8 = d7 + ",\"modifiedUnixMs\":"@;
    lemma_decimal(entry.modified_unix_ms as nat);
    lemma_encode_concat(d8, decimal(entry.modified_unix_ms as nat));
    let d9 = d8 + decimal(entry.modified_unix_ms as nat);
    lemma_encode_concat(d9, ",\"previewIncomplete\":"@);
    let d10 = d9 + ",\"previewIncomplete\":"@;
    lemma_truth(entry.preview_incomplete);
    lemma_encode_concat(d10, truth(entry.preview_incomplete));
    let d11 = d10 + truth(entry.preview_incomplete);
    lemma_encode_concat(d11, "}"@);
    let d12 = d11 + "}"@;
    assert(entry_document(entry) == d12);
}

} // verus!
