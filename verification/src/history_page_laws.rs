//! How a page of history is gathered, and how a file is read from its end.
use vstd::prelude::*;
use vstd::string::*;

use crate::json::JsonTree;
use crate::json_laws::{page_document, pages_take_their_bytes_as_json};
use crate::limits::RuntimeLimits;
use crate::reverse_lines::{
    content_end, last_newline, ReverseOutcome, ReverseView, REVERSE_SCAN_BLOCK_BYTES,
};
use crate::session_history::{
    GatheringView, HistoryCursorView, HistoryErrorView, HistoryPageView, HistoryTargetView,
    ScanOutcome,
};
use crate::text::byte_len;
use crate::timeline::entry_timeline;

verus! {

/// A page holds what was gathered, the oldest first, with the entry from which a reader can go
/// on, the cursor of the next page and what was scanned. Its size is that of its JSON before the
/// size itself is known, and a page over its limit is an error with that size.
pub proof fn a_page_holds_what_was_gathered(
    gathering: GatheringView,
    next_cursor: Option<HistoryCursorView>,
    scanned_bytes: usize,
)
    ensures
        ({
            let uncounted = HistoryPageView {
                session_id: gathering.session_id,
                append_cursor: gathering.append_cursor,
                leaf_id: gathering.append_cursor,
                items: gathering.items.reverse(),
                next_cursor,
                scanned_bytes,
                encoded_bytes: 0,
            };
            let bytes = byte_len(page_document(uncounted));
            let limit = gathering.limits.max_session_history_page_bytes;
            let outcome = gathering.page(next_cursor, scanned_bytes);
            &&& bytes <= limit ==> outcome == ScanOutcome::Page(
                HistoryPageView { encoded_bytes: bytes as usize, ..uncounted },
            )
            &&& bytes > limit && bytes <= usize::MAX ==> outcome == ScanOutcome::Fail(
                HistoryErrorView::PageTooLarge { actual: bytes as usize, limit },
            )
        }),
        forall|i: int|
            #![trigger gathering.items.reverse()[i]]
            0 <= i < gathering.items.len() ==> gathering.items.reverse()[i]
                == gathering.items[gathering.items.len() - 1 - i],
{
    let uncounted = HistoryPageView {
        session_id: gathering.session_id,
        append_cursor: gathering.append_cursor,
        leaf_id: gathering.append_cursor,
        items: gathering.items.reverse(),
        next_cursor,
        scanned_bytes,
        encoded_bytes: 0,
    };
    pages_take_their_bytes_as_json(uncounted);
}

/// A gathering that is interrupted goes on where it stopped: at the entry that comes next, or
/// at the newest one where none was found yet; one that has reached the first entry is over.
pub proof fn a_gathering_goes_on_where_it_stopped(gathering: GatheringView, before_offset: u64)
    ensures
        ({
            let cursor = gathering.cursor_at(before_offset);
            &&& cursor is None <==> gathering.target is Done
            &&& cursor is Some ==> {
                &&& cursor->0.session_id == gathering.session_id
                &&& cursor->0.before_offset == before_offset
                &&& cursor->0.target() == gathering.target
                &&& cursor->0.seek_latest <==> gathering.target is Latest
                &&& cursor->0.next_entry_id is Some <==> gathering.target is Entry
            }
        }),
{
}

/// A page starts with nothing gathered.
pub proof fn a_page_starts_empty(
    session_id: Seq<char>,
    target: HistoryTargetView,
    limits: RuntimeLimits,
)
    ensures
        ({
            let gathering = GatheringView::begun(session_id, target, limits);
            &&& gathering.items.len() == 0 && gathering.resident_bytes == 0
            &&& gathering.session_id == session_id && gathering.target == target
            &&& gathering.append_cursor is None && gathering.limits == limits
            &&& forall|id: Seq<char>| !#[trigger] gathering.seen.contains(id)
        }),
{
}

/// The entry that comes next is shown if there is anything of it to show and room for it, and
/// after it comes its parent. An entry without a parent is the first of the session, and one
/// without room begins the next page.
pub proof fn an_entry_leads_to_its_parent(
    gathering: GatheringView,
    entry: JsonTree,
    id: Seq<char>,
    parent: Option<Seq<char>>,
    retry_before: u64,
)
    requires
        entry.member("id"@) == Some(JsonTree::Text(id)),
        0 < id.len(),
        byte_len(id) <= gathering.limits.max_session_cursor_bytes,
        entry.member("type"@) != Some(JsonTree::Text("session"@)),
        gathering.target.names(id),
        !gathering.seen.contains(id),
        parent is Some ==> entry.member("parentId"@) == Some(JsonTree::Text(parent->0))
            && parent->0.len() > 0 && parent->0 != id,
        parent is None ==> entry.member("parentId"@) is None,
    ensures
        ({
            let item = entry_timeline(
                entry,
                gathering.limits.max_session_history_item_text_bytes as nat,
            );
            let verdict = gathering.value_taken(entry, retry_before);
            &&& parent is Some && item is None ==> verdict is Continue && {
                let next = verdict->Continue_0;
                &&& next.items == gathering.items
                &&& next.target == HistoryTargetView::Entry(parent->0)
                &&& next.resident_bytes == gathering.resident_bytes
                &&& next.seen == gathering.seen.insert(id)
            }
            &&& verdict is Continue && item is Some ==> {
                let next = verdict->Continue_0;
                &&& next.items == gathering.items.push(item->0)
                &&& parent is Some && next.target == HistoryTargetView::Entry(parent->0)
                &&& next.resident_bytes > gathering.resident_bytes || next.resident_bytes
                    == usize::MAX
                &&& next.resident_bytes <= gathering.limits.max_session_history_page_bytes
            }
            &&& parent is None && item is None ==> verdict is Finish && verdict->Finish_1 is None
                && verdict->Finish_0.items == gathering.items
            &&& verdict is Finish && verdict->Finish_1 is Some ==> {
                let cursor = verdict->Finish_1->0;
                &&& item is Some
                &&& verdict->Finish_0.items == gathering.items
                &&& cursor.session_id == gathering.session_id
                &&& cursor.next_entry_id == Some(id)
                &&& cursor.before_offset == retry_before
                &&& !cursor.seek_latest
            }
            &&& verdict is Finish && verdict->Finish_1 is None && item is Some
                ==> verdict->Finish_0.items == gathering.items.push(item->0) && parent is None
            &&& !(verdict is Fail)
        }),
{
}

/// A page with as many items as it may have is done, and the next one continues at the line
/// where it stopped.
pub proof fn a_full_page_is_done(gathering: GatheringView, reader: ReverseView)
    requires
        gathering.items.len() >= gathering.limits.max_session_history_page_items,
    ensures
        gathering.scanned(reader) == gathering.page(
            gathering.cursor_at((reader.buffer_start + reader.cursor) as u64),
            reader.scanned_bytes,
        ),
{
}

/// What a scan comes to where no line is left in the buffer: more bytes are asked for while the
/// budget lasts; a used up budget ends the page; and the start of the file ends it too, unless
/// an entry of the branch is still missing.
pub proof fn a_scan_ends_with_its_budget_or_the_file(gathering: GatheringView, reader: ReverseView)
    requires
        gathering.items.len() < gathering.limits.max_session_history_page_items,
    ensures
        match reader.next() {
            ReverseOutcome::NeedBlock { offset, len, .. } => {
                let outcome = gathering.scanned(reader);
                &&& outcome is NeedBlock
                &&& outcome->NeedBlock_offset == offset && outcome->NeedBlock_len == len
                &&& outcome->gathering == gathering && outcome->reader == reader
            },
            ReverseOutcome::BudgetExhausted => gathering.scanned(reader) == gathering.page(
                gathering.cursor_at((reader.buffer_start + reader.cursor) as u64),
                reader.scanned_bytes,
            ),
            ReverseOutcome::Eof => if gathering.target is Entry {
                gathering.scanned(reader) == ScanOutcome::Fail(
                    HistoryErrorView::BrokenAncestry { entry_id: gathering.target->Entry_0 },
                )
            } else {
                gathering.scanned(reader) == gathering.page(None, reader.scanned_bytes)
            },
            ReverseOutcome::LineTooLarge => gathering.scanned(reader) == ScanOutcome::Fail(
                HistoryErrorView::LineTooLarge { limit: reader.max_line_bytes },
            ),
            ReverseOutcome::Line { .. } => true,
        },
{
}

proof fn lemma_last_newline(buffer: Seq<u8>, end: int)
    requires
        0 <= end <= buffer.len(),
    ensures
        -1 <= last_newline(buffer, end) < end || end == 0 && last_newline(buffer, end) == -1,
        last_newline(buffer, end) >= 0 ==> buffer[last_newline(buffer, end)] == 10,
        forall|k: int| last_newline(buffer, end) < k < end ==> #[trigger] buffer[k] != 10,
    decreases end,
{
    if end > 0 && buffer[end - 1] != 10 {
        lemma_last_newline(buffer, end - 1);
    }
}

/// A line is returned without its line feed, and without a carriage return before that; nothing
/// else of it is left out.
pub proof fn lines_lose_only_their_ends(reader: ReverseView, start: int, end: int)
    requires
        reader.wf(),
        reader.next() == (ReverseOutcome::Line { start, end }),
    ensures
        ({
            let b = reader.buffer;
            let n = reader.cursor;
            let fed = n > 0 && b[n - 1] == 10;
            let returned = n > 1 && fed && b[n - 2] == 13;
            &&& fed && returned ==> end == n - 2
            &&& fed && !returned ==> end == n - 1
            &&& !fed && n > 0 && b[n - 1] == 13 ==> end == n - 1
            &&& !fed && n > 0 && b[n - 1] != 13 ==> end == n
            &&& start == 0 || b[start - 1] == 10
            &&& forall|k: int| start <= k < end ==> #[trigger] b[k] != 10
            &&& start == 0 ==> reader.buffer_start == 0
        }),
{
    lemma_last_newline(reader.buffer, content_end(reader.buffer, reader.cursor));
}

/// A line is too large exactly where more bytes than a line may have stand before its end
/// without a line feed among them; and bytes are asked for only while that is not known.
pub proof fn only_long_lines_are_too_large(reader: ReverseView)
    requires
        reader.wf(),
    ensures
        ({
            let end = content_end(reader.buffer, reader.cursor);
            let from = end - reader.max_line_bytes - 1;
            let long = reader.cursor > 0 && from >= 0 && forall|k: int|
                from <= k < end ==> #[trigger] reader.buffer[k] != 10;
            &&& reader.next() is LineTooLarge <==> long
            &&& reader.next() is NeedBlock && reader.cursor > 0 ==> end <= reader.max_line_bytes
                && forall|k: int| 0 <= k < end ==> #[trigger] reader.buffer[k] != 10
        }),
{
    let end = content_end(reader.buffer, reader.cursor);
    lemma_last_newline(reader.buffer, end);
}

/// As many bytes are asked for at once as a block has, as the budget allows and as the file has
/// left, directly before those that are known.
pub proof fn blocks_are_as_large_as_they_may_be(reader: ReverseView)
    requires
        reader.wf(),
        reader.next() is NeedBlock,
    ensures
        ({
            let offset = reader.next()->offset;
            let len = reader.next()->len;
            &&& offset + len == reader.buffer_start
            &&& len <= REVERSE_SCAN_BLOCK_BYTES
            &&& len <= reader.max_scan_bytes - reader.scanned_bytes
            &&& len == REVERSE_SCAN_BLOCK_BYTES || len == reader.max_scan_bytes
                - reader.scanned_bytes || offset == 0
            &&& len > 0
        }),
        REVERSE_SCAN_BLOCK_BYTES == 65536,
{
}

/// A file is at its end only at its first byte, and its budget is used up only after as many
/// bytes as it allows.
pub proof fn a_file_ends_at_its_first_byte(reader: ReverseView)
    requires
        reader.wf(),
    ensures
        reader.next() is Eof ==> reader.buffer_start == 0 && reader.cursor == 0,
        reader.buffer_start == 0 && reader.cursor == 0 ==> reader.next() is Eof,
        reader.next() is BudgetExhausted ==> reader.scanned_bytes == reader.max_scan_bytes
            && reader.buffer_start > 0,
{
    if reader.cursor > 0 {
        lemma_last_newline(reader.buffer, content_end(reader.buffer, reader.cursor));
    }
}

} // verus!
