//! What the pages of a session's history show together.
use vstd::prelude::*;

use crate::json::JsonTree;
use crate::limits::RuntimeLimits;
use crate::reverse_lines::{
    content_end, ends_lines, last_newline, lemma_last_newline, returned_line_is_a_line,
    supplied_block_agrees, ReverseOutcome, ReverseView,
};
use crate::session_history::{
    cursor_refusal, line_value, parent_of, GatheringView, HistoryCursorView, HistoryPageView,
    HistoryTargetView, LineVerdict, ScanOutcome,
};
use crate::text::byte_len;
use crate::timeline::{entry_timeline, TimelineItemView};

verus! {

/// Where what lies before `before` ends, once all ends of lines are cut off.
pub open spec fn text_end(file: Seq<u8>, before: int) -> int
    decreases before,
{
    if before > 0 && ends_lines(file[before - 1]) {
        text_end(file, before - 1)
    } else {
        before
    }
}

/// An entry of the branch of a session.
pub struct BranchEntry {
    /// Where its line starts in the file.
    pub offset: int,
    pub id: Seq<char>,
    pub parent: Option<Seq<char>>,
    /// What is shown of it, if anything is.
    pub item: Option<TimelineItemView>,
}

/// The identity of an entry, where it is the one that comes next.
pub open spec fn awaited_id(
    target: HistoryTargetView,
    value: JsonTree,
    limits: RuntimeLimits,
) -> Option<Seq<char>> {
    match value.text_at("id"@) {
        Some(id) => if id.len() > 0 && byte_len(id) <= limits.max_session_cursor_bytes
            && target.names(id) {
            Some(id)
        } else {
            None
        },
        None => None,
    }
}

/// The branch of a session, the newest entry first: from the lines before `before` the
/// nearest one that `target` names, from the lines before that one the nearest that is
/// its parent, and so on to an entry without parent or to the header.
pub open spec fn branch(
    file: Seq<u8>,
    before: int,
    target: HistoryTargetView,
    limits: RuntimeLimits,
) -> Seq<BranchEntry>
    decreases before,
{
    let end = text_end(file, before);
    let start = last_newline(file, end) + 1;
    if target is Done || !(0 <= start < end <= before) {
        Seq::empty()
    } else {
        match line_value(file.subrange(start, end)) {
            None => branch(file, start, target, limits),
            Some(value) => if value.text_at("type"@) == Some("session"@) {
                Seq::empty()
            } else {
                match awaited_id(target, value, limits) {
                    None => branch(file, start, target, limits),
                    Some(id) => seq![
                        BranchEntry {
                            offset: start,
                            id,
                            parent: parent_of(value),
                            item: entry_timeline(
                                value,
                                limits.max_session_history_item_text_bytes as nat,
                            ),
                        },
                    ] + branch(file, start, parent_target(value), limits),
                }
            },
        }
    }
}

/// What comes next after an entry.
pub open spec fn parent_target(value: JsonTree) -> HistoryTargetView {
    match parent_of(value) {
        Some(parent) => HistoryTargetView::Entry(parent),
        None => HistoryTargetView::Done,
    }
}

/// What is shown of these entries, in their order.
pub open spec fn shown_items(entries: Seq<BranchEntry>) -> Seq<TimelineItemView>
    decreases entries.len(),
{
    if entries.len() == 0 {
        Seq::empty()
    } else {
        let rest = shown_items(entries.drop_first());
        match entries[0].item {
            Some(item) => seq![item] + rest,
            None => rest,
        }
    }
}

/// What is still to be shown before `before`, the newest first.
pub open spec fn shown_before(
    file: Seq<u8>,
    before: int,
    target: HistoryTargetView,
    limits: RuntimeLimits,
) -> Seq<TimelineItemView> {
    shown_items(branch(file, before, target, limits))
}

/// What is still to be shown where a page leaves off.
pub open spec fn shown_after(
    file: Seq<u8>,
    cursor: Option<HistoryCursorView>,
    limits: RuntimeLimits,
) -> Seq<TimelineItemView> {
    match cursor {
        Some(cursor) => shown_before(file, cursor.before_offset as int, cursor.target(), limits),
        None => Seq::empty(),
    }
}

/// Whether a line holds the same with the byte at `at` behind it as without.
pub open spec fn blank_at(file: Seq<u8>, from: int, at: int) -> bool {
    line_value(file.subrange(from, at + 1)) == line_value(file.subrange(from, at))
}

/// Where two carriage returns follow each other, the first is blank at the end of a line.
/// JSON takes it for a space; a file without two of them in a row has none to ask of.
pub open spec fn returns_are_blank(file: Seq<u8>) -> bool {
    forall|from: int, at: int|
        0 <= from <= at && at + 1 < file.len() && file[at] == 13 && file[at + 1] == 13
            ==> #[trigger] blank_at(file, from, at)
}

impl GatheringView {
    /// The page that a file gives from where `reader` stands, each block read as it is
    /// needed.
    pub open spec fn read_from(self, reader: ReverseView, file: Seq<u8>) -> ScanOutcome
        decreases reader.buffer_start,
    {
        let outcome = self.scanned(reader);
        match outcome {
            ScanOutcome::NeedBlock { gathering, reader: waiting, offset, len, keep } => {
                let after = waiting.supplied(file.subrange(offset as int, offset + len), keep);
                if after.buffer_start < reader.buffer_start {
                    gathering.read_from(after, file)
                } else {
                    outcome
                }
            },
            _ => outcome,
        }
    }
}

/// The page of a file at `cursor`, or at its end.
pub open spec fn history_page(
    file: Seq<u8>,
    session_id: Seq<char>,
    cursor: Option<HistoryCursorView>,
    limits: RuntimeLimits,
) -> ScanOutcome {
    let refusal = match cursor {
        Some(cursor) => cursor_refusal(cursor, session_id, file.len() as u64, limits),
        None => None,
    };
    let target = match cursor {
        Some(cursor) => cursor.target(),
        None => HistoryTargetView::Latest,
    };
    let before_offset = match cursor {
        Some(cursor) => cursor.before_offset,
        None => file.len() as u64,
    };
    match refusal {
        Some(error) => ScanOutcome::Fail(error),
        None => if target is Done {
            ScanOutcome::Page(HistoryPageView::empty(session_id))
        } else {
            GatheringView::begun(session_id, target, limits).read_from(
                ReverseView::begun(
                    before_offset,
                    limits.max_session_history_scan_bytes_per_page,
                    limits.max_session_history_line_bytes,
                ),
                file,
            )
        },
    }
}

/// Whether these are the pages of a file, the newest first, each begun where the one
/// before left off.
pub open spec fn pages_in_turn(
    file: Seq<u8>,
    session_id: Seq<char>,
    limits: RuntimeLimits,
    pages: Seq<HistoryPageView>,
) -> bool
    decreases pages.len(),
{
    if pages.len() == 0 {
        false
    } else if pages.len() == 1 {
        history_page(file, session_id, None, limits) == ScanOutcome::Page(pages[0])
    } else {
        let newer = pages.drop_last();
        &&& pages_in_turn(file, session_id, limits, newer)
        &&& newer.last().next_cursor is Some
        &&& history_page(file, session_id, newer.last().next_cursor, limits) == ScanOutcome::Page(
            pages.last(),
        )
    }
}

/// What these pages show, the newest item first.
pub open spec fn shown_by_pages(pages: Seq<HistoryPageView>) -> Seq<TimelineItemView>
    decreases pages.len(),
{
    if pages.len() == 0 {
        Seq::empty()
    } else {
        shown_by_pages(pages.drop_last()) + pages.last().items.reverse()
    }
}

proof fn lemma_text_end(file: Seq<u8>, before: int)
    requires
        0 <= before <= file.len(),
    ensures
        0 <= text_end(file, before) <= before,
        text_end(file, before) > 0 ==> !ends_lines(file[text_end(file, before) - 1]),
        forall|k: int| text_end(file, before) <= k < before ==> ends_lines(#[trigger] file[k]),
    decreases before,
{
    if before > 0 && ends_lines(file[before - 1]) {
        lemma_text_end(file, before - 1);
    }
}

/// Whether only ends of lines lie between two places.
pub open spec fn only_ends_between(file: Seq<u8>, from: int, to: int) -> bool {
    forall|k: int| from <= k < to ==> ends_lines(#[trigger] file[k])
}

proof fn lemma_same_text_end(file: Seq<u8>, from: int, to: int)
    requires
        0 <= from <= to <= file.len(),
        only_ends_between(file, from, to),
    ensures
        text_end(file, from) == text_end(file, to),
    decreases to,
{
    if from < to {
        assert(ends_lines(file[to - 1]));
        lemma_same_text_end(file, from, to - 1);
    }
}

proof fn lemma_same_branch(
    file: Seq<u8>,
    from: int,
    to: int,
    target: HistoryTargetView,
    limits: RuntimeLimits,
)
    requires
        0 <= from <= to <= file.len(),
        only_ends_between(file, from, to),
    ensures
        branch(file, from, target, limits) == branch(file, to, target, limits),
{
    lemma_same_text_end(file, from, to);
    lemma_text_end(file, from);
    lemma_last_newline(file, text_end(file, from));
}

proof fn lemma_returns(file: Seq<u8>, from: int, end: int, to: int)
    requires
        returns_are_blank(file),
        0 <= from <= end <= to <= file.len(),
        forall|k: int| end <= k < to ==> #[trigger] file[k] == 13,
        end < to ==> to < file.len() && file[to] == 13,
    ensures
        line_value(file.subrange(from, to)) == line_value(file.subrange(from, end)),
    decreases to,
{
    if end < to {
        assert(file[to - 1] == 13);
        assert(blank_at(file, from, to - 1));
        lemma_returns(file, from, end, to - 1);
    }
}

/// What a line that the reader returns holds, against the line of the file.
proof fn lemma_line_read(reader: ReverseView, file: Seq<u8>, start: int, end: int)
    requires
        returns_are_blank(file),
        reader.wf(),
        reader.agrees(file),
        reader.next() == (ReverseOutcome::Line { start, end }),
    ensures
        ({
            let before = reader.before_offset();
            let from = reader.buffer_start + start;
            let text = text_end(file, before);
            let value = line_value(reader.buffer.subrange(start, end));
            &&& 0 <= from < before
            &&& text <= from ==> value is None && only_ends_between(file, from, before)
            &&& text > from ==> last_newline(file, text) + 1 == from && from < text <= before
                && value == line_value(file.subrange(from, text))
        }),
{
    returned_line_is_a_line(reader, file, start, end);
    let before = reader.before_offset();
    let from = reader.buffer_start + start;
    let to = reader.buffer_start + end;
    let text = text_end(file, before);
    lemma_text_end(file, before);
    lemma_same_text_end(file, to, before);
    lemma_text_end(file, to);
    lemma_last_newline(reader.buffer, content_end(reader.buffer, reader.cursor));
    if from < to && file[to - 1] == 13 {
        assert(reader.buffer[end - 1] == file[to - 1]);
        assert(reader.buffer[end] == 13);
        assert(reader.buffer[end] == file[to]);
    }
    if text <= from {
        assert forall|k: int| from <= k < to implies #[trigger] file[k] == 13 by {
            assert(ends_lines(file[k]));
        }
        lemma_returns(file, from, from, to);
    } else {
        assert forall|k: int| text <= k < to implies #[trigger] file[k] == 13 by {
            assert(ends_lines(file[k]));
        }
        lemma_returns(file, from, text, to);
        lemma_last_newline(file, text);
        let newline = last_newline(file, text);
        if newline >= from {
            assert(file[newline] == 10);
        }
    }
}

/// What holds while a page is read: the buffer holds what the file holds, and the line
/// that comes next can be read again.
pub open spec fn reads(reader: ReverseView, file: Seq<u8>) -> bool {
    &&& reader.wf()
    &&& reader.agrees(file)
    &&& reader.line_end <= file.len()
    &&& only_ends_between(file, reader.before_offset(), reader.line_end as int)
}

proof fn lemma_shown_first(entry: BranchEntry, rest: Seq<BranchEntry>)
    ensures
        shown_items(seq![entry] + rest) == (match entry.item {
            Some(item) => seq![item] + shown_items(rest),
            None => shown_items(rest),
        }),
{
    assert((seq![entry] + rest).drop_first() =~= rest);
}

proof fn lemma_entry_taken(
    gathering: GatheringView,
    value: JsonTree,
    id: Seq<char>,
    retry_before: u64,
    file: Seq<u8>,
    before: int,
)
    requires
        0 <= before <= retry_before <= file.len(),
        only_ends_between(file, before, retry_before as int),
        awaited_id(gathering.target, value, gathering.limits) == Some(id),
        value.text_at("type"@) != Some("session"@),
        ({
            let text = text_end(file, before);
            let start = last_newline(file, text) + 1;
            0 <= start < text <= before && line_value(file.subrange(start, text)) == Some(value)
        }),
    ensures
        ({
            let start = last_newline(file, text_end(file, before)) + 1;
            let left = gathering.items + shown_before(
                file,
                before,
                gathering.target,
                gathering.limits,
            );
            match gathering.entry_taken(value, id, retry_before) {
                LineVerdict::Continue(next) => next.limits == gathering.limits && next.items
                    + shown_before(file, start, next.target, next.limits) == left,
                LineVerdict::Finish(last, cursor) => last.limits == gathering.limits && last.items
                    + shown_after(file, cursor, last.limits) == left,
                LineVerdict::Fail(_) => true,
            }
        }),
{
    let limits = gathering.limits;
    let start = last_newline(file, text_end(file, before)) + 1;
    let item = entry_timeline(value, limits.max_session_history_item_text_bytes as nat);
    let entry = BranchEntry { offset: start, id, parent: parent_of(value), item };
    let rest = branch(file, start, parent_target(value), limits);
    assert(branch(file, before, gathering.target, limits) == seq![entry] + rest);
    lemma_shown_first(entry, rest);
    match gathering.entry_taken(value, id, retry_before) {
        LineVerdict::Continue(next) => {
            assert(next.items + shown_items(rest) =~= gathering.items + shown_items(
                seq![entry] + rest,
            ));
        },
        LineVerdict::Finish(last, cursor) => {
            if cursor is Some {
                let again = HistoryTargetView::Entry(id);
                assert(branch(file, before, again, limits) == seq![entry] + rest);
                lemma_same_branch(file, before, retry_before as int, again, limits);
            } else {
                assert(rest =~= Seq::<BranchEntry>::empty());
                assert(last.items + Seq::<TimelineItemView>::empty() =~= gathering.items
                    + shown_items(seq![entry] + rest));
            }
        },
        LineVerdict::Fail(_) => {},
    }
}

proof fn lemma_line_taken(
    gathering: GatheringView,
    reader: ReverseView,
    file: Seq<u8>,
    start: int,
    end: int,
)
    requires
        returns_are_blank(file),
        reads(reader, file),
        reader.next() == (ReverseOutcome::Line { start, end }),
    ensures
        reads(reader.at(start), file),
        0 <= start < reader.cursor,
        ({
            let line = reader.buffer.subrange(start, end);
            let left = gathering.items + shown_before(
                file,
                reader.before_offset(),
                gathering.target,
                gathering.limits,
            );
            match gathering.line_taken(line, reader.line_end) {
                LineVerdict::Continue(next) => next.limits == gathering.limits && next.items
                    + shown_before(
                    file,
                    reader.at(start).before_offset(),
                    next.target,
                    next.limits,
                ) == left,
                LineVerdict::Finish(last, cursor) => last.limits == gathering.limits && last.items
                    + shown_after(file, cursor, last.limits) == left,
                LineVerdict::Fail(_) => true,
            }
        }),
{
    returned_line_is_a_line(reader, file, start, end);
    lemma_line_read(reader, file, start, end);
    let before = reader.before_offset();
    let from = reader.buffer_start + start;
    let text = text_end(file, before);
    let line = reader.buffer.subrange(start, end);
    let limits = gathering.limits;
    if text <= from {
        lemma_same_branch(file, from, before, gathering.target, limits);
    } else {
        match line_value(line) {
            None => {},
            Some(value) => {
                if value.text_at("type"@) != Some("session"@) {
                    match awaited_id(gathering.target, value, limits) {
                        Some(id) => {
                            lemma_entry_taken(
                                gathering,
                                value,
                                id,
                                reader.line_end,
                                file,
                                before,
                            );
                        },
                        None => {},
                    }
                }
            },
        }
    }
}

proof fn lemma_page(
    gathering: GatheringView,
    cursor: Option<HistoryCursorView>,
    scanned_bytes: usize,
)
    ensures
        match gathering.page(cursor, scanned_bytes) {
            ScanOutcome::Page(page) => page.items.reverse() == gathering.items && page.next_cursor
                == cursor,
            ScanOutcome::Fail(_) => true,
            ScanOutcome::NeedBlock { .. } => false,
        },
{
    assert(gathering.items.reverse().reverse() =~= gathering.items);
}

/// Whether nothing was lost of what `left` holds: the rest of it is shown where
/// `outcome` leaves off.
pub open spec fn nothing_lost(
    outcome: ScanOutcome,
    file: Seq<u8>,
    limits: RuntimeLimits,
    left: Seq<TimelineItemView>,
) -> bool {
    match outcome {
        ScanOutcome::Page(page) => page.items.reverse() + shown_after(
            file,
            page.next_cursor,
            limits,
        ) == left,
        ScanOutcome::NeedBlock { gathering, reader, offset, len, keep } => {
            &&& reads(reader, file)
            &&& reader.next() == (ReverseOutcome::NeedBlock { offset, len, keep })
            &&& gathering.limits == limits
            &&& gathering.items + shown_before(
                file,
                reader.before_offset(),
                gathering.target,
                limits,
            ) == left
        },
        ScanOutcome::Fail(_) => true,
    }
}

proof fn lemma_scan_loses_nothing(gathering: GatheringView, reader: ReverseView, file: Seq<u8>)
    requires
        returns_are_blank(file),
        reads(reader, file),
    ensures
        nothing_lost(
            gathering.scanned(reader),
            file,
            gathering.limits,
            gathering.items + shown_before(
                file,
                reader.before_offset(),
                gathering.target,
                gathering.limits,
            ),
        ),
        match gathering.scanned(reader) {
            ScanOutcome::NeedBlock { reader: waiting, .. } => waiting.buffer_start
                == reader.buffer_start,
            _ => true,
        },
    decreases reader.cursor,
{
    let here = reader.before_offset();
    let at_here = gathering.cursor_at(here as u64);
    lemma_page(gathering, at_here, reader.scanned_bytes);
    lemma_page(gathering, None, reader.scanned_bytes);
    assert(at_here is Some ==> at_here->0.target() == gathering.target);
    assert(gathering.target is Done ==> shown_before(
        file,
        here,
        gathering.target,
        gathering.limits,
    ) =~= Seq::<TimelineItemView>::empty());
    if gathering.items.len() < gathering.limits.max_session_history_page_items {
        match reader.next() {
            ReverseOutcome::Line { start, end } => {
                lemma_line_taken(gathering, reader, file, start, end);
                let line = reader.buffer.subrange(start, end);
                match gathering.line_taken(line, reader.line_end) {
                    LineVerdict::Continue(next) => {
                        lemma_scan_loses_nothing(next, reader.at(start), file);
                    },
                    LineVerdict::Finish(last, cursor) => {
                        lemma_page(last, cursor, reader.scanned_bytes);
                    },
                    LineVerdict::Fail(_) => {},
                }
            },
            ReverseOutcome::Eof => {
                assert(here == 0);
                assert(text_end(file, 0) == 0);
                assert(shown_before(
                    file,
                    here,
                    gathering.target,
                    gathering.limits,
                ) =~= Seq::<TimelineItemView>::empty());
            },
            _ => {},
        }
    }
}

proof fn lemma_read_loses_nothing(gathering: GatheringView, reader: ReverseView, file: Seq<u8>)
    requires
        returns_are_blank(file),
        reads(reader, file),
    ensures
        nothing_lost(
            gathering.read_from(reader, file),
            file,
            gathering.limits,
            gathering.items + shown_before(
                file,
                reader.before_offset(),
                gathering.target,
                gathering.limits,
            ),
        ),
    decreases reader.buffer_start,
{
    lemma_scan_loses_nothing(gathering, reader, file);
    match gathering.scanned(reader) {
        ScanOutcome::NeedBlock { gathering: held, reader: waiting, offset, len, keep } => {
            supplied_block_agrees(waiting, file, offset, len, keep);
            let after = waiting.supplied(file.subrange(offset as int, offset + len), keep);
            lemma_same_branch(
                file,
                after.before_offset(),
                waiting.before_offset(),
                held.target,
                held.limits,
            );
            assert(reads(after, file));
            lemma_read_loses_nothing(held, after, file);
        },
        _ => {},
    }
}

proof fn lemma_page_loses_nothing(
    file: Seq<u8>,
    session_id: Seq<char>,
    cursor: Option<HistoryCursorView>,
    limits: RuntimeLimits,
)
    requires
        file.len() <= u64::MAX,
        returns_are_blank(file),
    ensures
        match history_page(file, session_id, cursor, limits) {
            ScanOutcome::Page(page) => page.items.reverse() + shown_after(
                file,
                page.next_cursor,
                limits,
            ) == (match cursor {
                Some(_) => shown_after(file, cursor, limits),
                None => shown_before(file, file.len() as int, HistoryTargetView::Latest, limits),
            }),
            _ => true,
        },
{
    let target = match cursor {
        Some(cursor) => cursor.target(),
        None => HistoryTargetView::Latest,
    };
    let before_offset = match cursor {
        Some(cursor) => cursor.before_offset,
        None => file.len() as u64,
    };
    if before_offset <= file.len() {
        let gathering = GatheringView::begun(session_id, target, limits);
        let reader = ReverseView::begun(
            before_offset,
            limits.max_session_history_scan_bytes_per_page,
            limits.max_session_history_line_bytes,
        );
        assert(reader.buffer =~= file.subrange(before_offset as int, before_offset as int));
        assert(reads(reader, file));
        lemma_read_loses_nothing(gathering, reader, file);
        let left = shown_before(file, before_offset as int, target, limits);
        assert(gathering.items + left =~= left);
        if target is Done {
            assert(left =~= Seq::<TimelineItemView>::empty());
            assert(HistoryPageView::empty(session_id).items.reverse() + Seq::<
                TimelineItemView,
            >::empty() =~= left);
        }
    }
}

/// The pages of an unchanged file, taken in turn by their cursors, show what is shown of
/// the branch, from its newest entry on, in order, with nothing left out and nothing shown
/// twice: what they have shown and what is left where the last one leaves off are the
/// whole. Where there is no next page, they have shown all of it.
pub proof fn pages_show_the_branch_once(
    file: Seq<u8>,
    session_id: Seq<char>,
    limits: RuntimeLimits,
    pages: Seq<HistoryPageView>,
)
    requires
        file.len() <= u64::MAX,
        returns_are_blank(file),
        pages_in_turn(file, session_id, limits, pages),
    ensures
        ({
            let whole = shown_items(
                branch(file, file.len() as int, HistoryTargetView::Latest, limits),
            );
            &&& shown_by_pages(pages) + shown_after(file, pages.last().next_cursor, limits)
                == whole
            &&& pages.last().next_cursor is None ==> shown_by_pages(pages) == whole
        }),
    decreases pages.len(),
{
    let whole = shown_before(file, file.len() as int, HistoryTargetView::Latest, limits);
    let last = pages.last();
    let newer = pages.drop_last();
    let left = shown_after(file, last.next_cursor, limits);
    if pages.len() == 1 {
        lemma_page_loses_nothing(file, session_id, None, limits);
        assert(newer =~= Seq::<HistoryPageView>::empty());
        assert(shown_by_pages(newer) =~= Seq::<TimelineItemView>::empty());
    } else {
        pages_show_the_branch_once(file, session_id, limits, newer);
        lemma_page_loses_nothing(file, session_id, newer.last().next_cursor, limits);
    }
    assert(shown_by_pages(pages) + left =~= shown_by_pages(newer) + (last.items.reverse() + left));
    assert(shown_by_pages(pages) + left =~= whole);
    if last.next_cursor is None {
        assert(shown_by_pages(pages) + left =~= shown_by_pages(pages));
    }
}

/// The branch goes back through the file: each entry is a line before that of the entry
/// before it, and the parent of it. So no line is on the branch twice.
pub proof fn branch_goes_back(
    file: Seq<u8>,
    before: int,
    target: HistoryTargetView,
    limits: RuntimeLimits,
)
    requires
        0 <= before <= file.len(),
    ensures
        ({
            let entries = branch(file, before, target, limits);
            &&& forall|i: int|
                0 <= i < entries.len() ==> 0 <= (#[trigger] entries[i]).offset < before
            &&& forall|i: int, j: int|
                0 <= i < j < entries.len() ==> (#[trigger] entries[i]).offset > (
                #[trigger] entries[j]).offset
            &&& forall|i: int|
                0 < i < entries.len() ==> entries[i - 1].parent == Some(
                    (#[trigger] entries[i]).id,
                )
            &&& entries.len() > 0 && target is Entry ==> entries[0].id == target->Entry_0
            &&& entries.len() > 0 ==> !(target is Done)
        }),
    decreases before,
{
    let entries = branch(file, before, target, limits);
    let end = text_end(file, before);
    let start = last_newline(file, end) + 1;
    if !(target is Done) && 0 <= start < end <= before {
        branch_goes_back(file, start, target, limits);
        match line_value(file.subrange(start, end)) {
            Some(value) => {
                branch_goes_back(file, start, parent_target(value), limits);
                let rest = branch(file, start, parent_target(value), limits);
                if value.text_at("type"@) != Some("session"@) && awaited_id(
                    target,
                    value,
                    limits,
                ) is Some {
                    assert forall|i: int| 0 < i < entries.len() implies entries[i - 1].parent
                        == Some((#[trigger] entries[i]).id) by {
                        assert(entries[i] == rest[i - 1]);
                        if i > 1 {
                            assert(entries[i - 1] == rest[i - 2]);
                        }
                    }
                }
            },
            None => {},
        }
    }
}

} // verus!
