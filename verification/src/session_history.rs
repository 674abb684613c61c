//! Bounded pages of the active branch of a persisted session.
use vstd::prelude::*;
use vstd::string::*;

use crate::json::{
    json_parsed, json_text_at, json_text_bytes, json_text_is, json_text_len, json_tree, parse_json,
    JsonTree,
};
use crate::keyed::{KeyMap, OrderedKey};
use crate::limits::RuntimeLimits;
use crate::numbers::{decimal, decimal_text};
use crate::reverse_lines::{
    copy_bytes, returned_line_is_a_line, ReverseLineReader, ReverseOutcome, ReverseRead, ReverseView,
};
use crate::rpc::counted;
use crate::text::{
    byte_len, copy_optional, optional_view, same_text, sat_add_usize, text_bytes,
};
use crate::timeline::{
    entry_timeline, timeline_item, SessionTimelineItem, SessionTimelineKind, TimelineItemView,
};

verus! {

/// Where the next older page continues.
#[derive(Clone, Debug, PartialEq, Eq)]
pub struct SessionHistoryCursor {
    pub session_id: String,
    pub before_offset: u64,
    pub next_entry_id: Option<String>,
    pub seek_latest: bool,
}

/// Model of a [`SessionHistoryCursor`].
pub struct HistoryCursorView {
    pub session_id: Seq<char>,
    pub before_offset: u64,
    pub next_entry_id: Option<Seq<char>>,
    pub seek_latest: bool,
}

impl View for SessionHistoryCursor {
    type V = HistoryCursorView;

    open spec fn view(&self) -> HistoryCursorView {
        HistoryCursorView {
            session_id: self.session_id@,
            before_offset: self.before_offset,
            next_entry_id: optional_view(self.next_entry_id),
            seek_latest: self.seek_latest,
        }
    }
}

/// The model of an optional cursor.
pub open spec fn cursor_option(cursor: Option<SessionHistoryCursor>) -> Option<HistoryCursorView> {
    match cursor {
        Some(cursor) => Some(cursor@),
        None => None,
    }
}

#[derive(Clone, Debug, PartialEq, Eq)]
pub struct SessionHistoryPage {
    pub session_id: String,
    /// The newest persisted entry, where this page starts from it. The incremental
    /// synchronization can be seeded with it.
    pub append_cursor: Option<String>,
    pub leaf_id: Option<String>,
    pub items: Vec<SessionTimelineItem>,
    pub next_cursor: Option<SessionHistoryCursor>,
    pub scanned_bytes: usize,
    pub encoded_bytes: usize,
}

/// Model of a [`SessionHistoryPage`].
pub struct HistoryPageView {
    pub session_id: Seq<char>,
    pub append_cursor: Option<Seq<char>>,
    pub leaf_id: Option<Seq<char>>,
    pub items: Seq<TimelineItemView>,
    pub next_cursor: Option<HistoryCursorView>,
    pub scanned_bytes: usize,
    pub encoded_bytes: usize,
}

impl HistoryPageView {
    /// The page where there is nothing older.
    pub open spec fn empty(session_id: Seq<char>) -> Self {
        HistoryPageView {
            session_id,
            append_cursor: None,
            leaf_id: None,
            items: Seq::empty(),
            next_cursor: None,
            scanned_bytes: 0,
            encoded_bytes: 0,
        }
    }
}

/// The models of a list of items.
pub open spec fn item_views(items: Seq<SessionTimelineItem>) -> Seq<TimelineItemView> {
    items.map_values(|item: SessionTimelineItem| item@)
}

impl View for SessionHistoryPage {
    type V = HistoryPageView;

    open spec fn view(&self) -> HistoryPageView {
        HistoryPageView {
            session_id: self.session_id@,
            append_cursor: optional_view(self.append_cursor),
            leaf_id: optional_view(self.leaf_id),
            items: item_views(self.items@),
            next_cursor: cursor_option(self.next_cursor),
            scanned_bytes: self.scanned_bytes,
            encoded_bytes: self.encoded_bytes,
        }
    }
}

#[allow(inconsistent_fields)]
#[derive(Debug, PartialEq, Eq)]
pub enum SessionHistoryError {
    Open { path: String, detail: String },
    Read { path: String, detail: String },
    HeaderTooLarge { limit: usize },
    InvalidHeader,
    SessionMismatch { expected: String, actual: String },
    ProjectMismatch { expected: String, actual: String },
    CursorSessionMismatch { expected: String },
    CursorEntryTooLong { actual: usize, limit: usize },
    CursorBeyondFile { offset: u64, file_size: u64 },
    LineTooLarge { limit: usize },
    BrokenAncestry { entry_id: String },
    RepeatedEntry { entry_id: String },
    PageTooLarge { actual: usize, limit: usize },
}

/// Model of a [`SessionHistoryError`].
#[allow(inconsistent_fields)]
pub enum HistoryErrorView {
    Open { path: Seq<char>, detail: Seq<char> },
    Read { path: Seq<char>, detail: Seq<char> },
    HeaderTooLarge { limit: usize },
    InvalidHeader,
    SessionMismatch { expected: Seq<char>, actual: Seq<char> },
    ProjectMismatch { expected: Seq<char>, actual: Seq<char> },
    CursorSessionMismatch { expected: Seq<char> },
    CursorEntryTooLong { actual: nat, limit: usize },
    CursorBeyondFile { offset: u64, file_size: u64 },
    LineTooLarge { limit: usize },
    BrokenAncestry { entry_id: Seq<char> },
    RepeatedEntry { entry_id: Seq<char> },
    PageTooLarge { actual: usize, limit: usize },
}

impl View for SessionHistoryError {
    type V = HistoryErrorView;

    open spec fn view(&self) -> HistoryErrorView {
        match self {
            SessionHistoryError::Open { path, detail } => HistoryErrorView::Open {
                path: path@,
                detail: detail@,
            },
            SessionHistoryError::Read { path, detail } => HistoryErrorView::Read {
                path: path@,
                detail: detail@,
            },
            SessionHistoryError::HeaderTooLarge { limit } => HistoryErrorView::HeaderTooLarge {
                limit: *limit,
            },
            SessionHistoryError::InvalidHeader => HistoryErrorView::InvalidHeader,
            SessionHistoryError::SessionMismatch { expected, actual } =>
                HistoryErrorView::SessionMismatch { expected: expected@, actual: actual@ },
            SessionHistoryError::ProjectMismatch { expected, actual } =>
                HistoryErrorView::ProjectMismatch { expected: expected@, actual: actual@ },
            SessionHistoryError::CursorSessionMismatch { expected } =>
                HistoryErrorView::CursorSessionMismatch { expected: expected@ },
            SessionHistoryError::CursorEntryTooLong { actual, limit } =>
                HistoryErrorView::CursorEntryTooLong { actual: *actual as nat, limit: *limit },
            SessionHistoryError::CursorBeyondFile { offset, file_size } =>
                HistoryErrorView::CursorBeyondFile { offset: *offset, file_size: *file_size },
            SessionHistoryError::LineTooLarge { limit } => HistoryErrorView::LineTooLarge {
                limit: *limit,
            },
            SessionHistoryError::BrokenAncestry { entry_id } => HistoryErrorView::BrokenAncestry {
                entry_id: entry_id@,
            },
            SessionHistoryError::RepeatedEntry { entry_id } => HistoryErrorView::RepeatedEntry {
                entry_id: entry_id@,
            },
            SessionHistoryError::PageTooLarge { actual, limit } => HistoryErrorView::PageTooLarge {
                actual: *actual,
                limit: *limit,
            },
        }
    }
}

/// Bytes of an optional text as JSON.
pub open spec fn json_optional_len(value: Option<Seq<char>>) -> nat {
    match value {
        Some(text) => json_text_len(text),
        None => 4,
    }
}

/// Bytes of a truth value as JSON.
pub open spec fn json_bool_len(value: bool) -> nat {
    if value {
        4
    } else {
        5
    }
}

/// Bytes of the name of a kind as JSON, in snake case.
pub open spec fn json_kind_len(kind: SessionTimelineKind) -> nat {
    match kind {
        SessionTimelineKind::User => 6,
        SessionTimelineKind::Assistant => 11,
        SessionTimelineKind::Tool => 6,
        SessionTimelineKind::Bash => 6,
        SessionTimelineKind::Compaction => 12,
        SessionTimelineKind::BranchSummary => 16,
        SessionTimelineKind::Custom => 8,
    }
}

/// Bytes of the names and signs of an encoded item.
pub const ITEM_FRAME_BYTES: usize = 78;

/// Bytes of the names and signs of an encoded cursor.
pub const CURSOR_FRAME_BYTES: usize = 59;

/// Bytes of the names and signs of an encoded page, with its own size still zero.
pub const PAGE_FRAME_BYTES: usize = 98;

/// Bytes of an item as a JSON object with its fields in camel case.
pub open spec fn item_json_len(item: TimelineItemView) -> nat {
    ITEM_FRAME_BYTES as nat + json_text_len(item.entry_id) + json_optional_len(item.timestamp)
        + json_kind_len(item.kind) + json_optional_len(item.title) + json_text_len(item.text)
        + json_bool_len(item.text_truncated) + json_bool_len(item.is_error)
}

/// Bytes of a list of items, with the commas between them.
pub open spec fn items_json_len(items: Seq<TimelineItemView>) -> nat
    decreases items.len(),
{
    if items.len() == 0 {
        0
    } else if items.len() == 1 {
        item_json_len(items.last())
    } else {
        items_json_len(items.drop_last()) + 1 + item_json_len(items.last())
    }
}

/// Bytes of an optional cursor as JSON.
pub open spec fn cursor_json_len(cursor: Option<HistoryCursorView>) -> nat {
    match cursor {
        Some(cursor) => CURSOR_FRAME_BYTES as nat + json_text_len(cursor.session_id) + decimal(
            cursor.before_offset as nat,
        ).len() + json_optional_len(cursor.next_entry_id) + json_bool_len(cursor.seek_latest),
        None => 4,
    }
}

/// Bytes of a page as a JSON object, with its own size still zero.
pub open spec fn page_json_len(page: HistoryPageView) -> nat {
    PAGE_FRAME_BYTES as nat + json_text_len(page.session_id) + json_optional_len(
        page.append_cursor,
    ) + json_optional_len(page.leaf_id) + items_json_len(page.items) + cursor_json_len(
        page.next_cursor,
    ) + decimal(page.scanned_bytes as nat).len()
}

/// Which entry of the branch comes next.
#[derive(Debug, PartialEq, Eq)]
pub enum HistoryTarget {
    Latest,
    Entry(String),
    Done,
}

/// Model of a [`HistoryTarget`].
pub enum HistoryTargetView {
    Latest,
    Entry(Seq<char>),
    Done,
}

impl HistoryTargetView {
    /// Whether the entry `id` is the one that comes next.
    pub open spec fn names(self, id: Seq<char>) -> bool {
        match self {
            HistoryTargetView::Latest => true,
            HistoryTargetView::Entry(expected) => id == expected,
            HistoryTargetView::Done => false,
        }
    }
}

impl View for HistoryTarget {
    type V = HistoryTargetView;

    open spec fn view(&self) -> HistoryTargetView {
        match self {
            HistoryTarget::Latest => HistoryTargetView::Latest,
            HistoryTarget::Entry(id) => HistoryTargetView::Entry(id@),
            HistoryTarget::Done => HistoryTargetView::Done,
        }
    }
}

impl HistoryCursorView {
    /// Which entry of the branch comes next at a cursor.
    pub open spec fn target(self) -> HistoryTargetView {
        if self.seek_latest {
            HistoryTargetView::Latest
        } else {
            match self.next_entry_id {
                Some(id) => HistoryTargetView::Entry(id),
                None => HistoryTargetView::Done,
            }
        }
    }
}

/// Model of a page that is being gathered.
pub struct GatheringView {
    pub session_id: Seq<char>,
    pub target: HistoryTargetView,
    /// The items so far, the newest first.
    pub items: Seq<TimelineItemView>,
    pub resident_bytes: usize,
    pub seen: Set<Seq<char>>,
    pub append_cursor: Option<Seq<char>>,
    pub limits: RuntimeLimits,
}

/// What one line does to the page.
pub enum LineVerdict {
    Continue(GatheringView),
    Finish(GatheringView, Option<HistoryCursorView>),
    Fail(HistoryErrorView),
}

/// What a scan of the buffered lines comes to.
pub enum ScanOutcome {
    Page(HistoryPageView),
    Fail(HistoryErrorView),
    NeedBlock {
        gathering: GatheringView,
        reader: ReverseView,
        offset: u64,
        len: usize,
        keep: int,
    },
}

/// The identity of the parent of an entry.
pub open spec fn parent_of(entry: JsonTree) -> Option<Seq<char>> {
    match entry.text_at("parentId"@) {
        Some(id) => if id.len() == 0 {
            None
        } else {
            Some(id)
        },
        None => None,
    }
}

/// What a line holds, if it holds anything.
pub open spec fn line_value(line: Seq<u8>) -> Option<JsonTree> {
    if line.len() == 0 {
        None
    } else {
        json_parsed(line)
    }
}

impl GatheringView {
    /// A page of which nothing is gathered yet.
    pub open spec fn begun(
        session_id: Seq<char>,
        target: HistoryTargetView,
        limits: RuntimeLimits,
    ) -> Self {
        GatheringView {
            session_id,
            target,
            items: Seq::empty(),
            resident_bytes: 0,
            seen: Set::empty(),
            append_cursor: None,
            limits,
        }
    }

    /// The cursor at which the gathering could go on.
    pub open spec fn cursor_at(self, before_offset: u64) -> Option<HistoryCursorView> {
        match self.target {
            HistoryTargetView::Done => None,
            HistoryTargetView::Latest => Some(
                HistoryCursorView {
                    session_id: self.session_id,
                    before_offset,
                    next_entry_id: None,
                    seek_latest: true,
                },
            ),
            HistoryTargetView::Entry(id) => Some(
                HistoryCursorView {
                    session_id: self.session_id,
                    before_offset,
                    next_entry_id: Some(id),
                    seek_latest: false,
                },
            ),
        }
    }

    /// Whether the entry `id` is the one that comes next.
    pub open spec fn wants(self, id: Seq<char>) -> bool {
        self.target.names(id)
    }

    /// What the entry that comes next does to the page.
    pub open spec fn entry_taken(self, entry: JsonTree, id: Seq<char>, retry_before: u64) -> LineVerdict {
        let known = GatheringView {
            append_cursor: if self.target is Latest {
                Some(id)
            } else {
                self.append_cursor
            },
            seen: self.seen.insert(id),
            ..self
        };
        if self.seen.contains(id) || parent_of(entry) == Some(id) {
            LineVerdict::Fail(HistoryErrorView::RepeatedEntry { entry_id: id })
        } else {
            let item = entry_timeline(
                entry,
                self.limits.max_session_history_item_text_bytes as nat,
            );
            let bytes = if item is Some {
                counted(item_json_len(item->0))
            } else {
                0
            };
            if item is Some && sat_add_usize(self.resident_bytes, bytes)
                > self.limits.max_session_history_page_bytes {
                LineVerdict::Finish(
                    known,
                    Some(
                        HistoryCursorView {
                            session_id: self.session_id,
                            before_offset: retry_before,
                            next_entry_id: Some(id),
                            seek_latest: false,
                        },
                    ),
                )
            } else {
                let taken = GatheringView {
                    items: if item is Some {
                        self.items.push(item->0)
                    } else {
                        self.items
                    },
                    resident_bytes: sat_add_usize(self.resident_bytes, bytes),
                    target: match parent_of(entry) {
                        Some(parent) => HistoryTargetView::Entry(parent),
                        None => HistoryTargetView::Done,
                    },
                    ..known
                };
                if parent_of(entry) is None {
                    LineVerdict::Finish(taken, None)
                } else {
                    LineVerdict::Continue(taken)
                }
            }
        }
    }

    /// What one line does to the page. Lines that hold no entry of the branch are
    /// passed over.
    pub open spec fn line_taken(self, line: Seq<u8>, retry_before: u64) -> LineVerdict {
        match line_value(line) {
            None => LineVerdict::Continue(self),
            Some(value) => self.value_taken(value, retry_before),
        }
    }

    /// What a line that was read does to the page.
    pub open spec fn value_taken(self, value: JsonTree, retry_before: u64) -> LineVerdict {
        if value.text_at("type"@) == Some("session"@) {
            match self.target {
                HistoryTargetView::Entry(id) => LineVerdict::Fail(
                    HistoryErrorView::BrokenAncestry { entry_id: id },
                ),
                _ => LineVerdict::Finish(self, None),
            }
        } else {
            match value.text_at("id"@) {
                None => LineVerdict::Continue(self),
                Some(id) => if id.len() == 0 || byte_len(id) > self.limits.max_session_cursor_bytes
                    || !self.wants(id) {
                    LineVerdict::Continue(self)
                } else {
                    self.entry_taken(value, id, retry_before)
                },
            }
        }
    }

    /// The page of what was gathered, the oldest item first.
    pub open spec fn page(
        self,
        next_cursor: Option<HistoryCursorView>,
        scanned_bytes: usize,
    ) -> ScanOutcome {
        let page = HistoryPageView {
            session_id: self.session_id,
            append_cursor: self.append_cursor,
            leaf_id: self.append_cursor,
            items: self.items.reverse(),
            next_cursor,
            scanned_bytes,
            encoded_bytes: 0,
        };
        let encoded_bytes = counted(page_json_len(page));
        if encoded_bytes > self.limits.max_session_history_page_bytes {
            ScanOutcome::Fail(
                HistoryErrorView::PageTooLarge {
                    actual: encoded_bytes,
                    limit: self.limits.max_session_history_page_bytes,
                },
            )
        } else {
            ScanOutcome::Page(HistoryPageView { encoded_bytes, ..page })
        }
    }

    /// What becomes of the page with the lines that `reader` has in its buffer.
    pub open spec fn scanned(self, reader: ReverseView) -> ScanOutcome
        decreases reader.cursor,
    {
        if self.items.len() >= self.limits.max_session_history_page_items {
            self.page(self.cursor_at(reader.before_offset() as u64), reader.scanned_bytes)
        } else {
            match reader.next() {
                ReverseOutcome::NeedBlock { offset, len, keep } => ScanOutcome::NeedBlock {
                    gathering: self,
                    reader,
                    offset,
                    len,
                    keep,
                },
                ReverseOutcome::BudgetExhausted => self.page(
                    self.cursor_at(reader.before_offset() as u64),
                    reader.scanned_bytes,
                ),
                ReverseOutcome::Eof => match self.target {
                    HistoryTargetView::Entry(id) => ScanOutcome::Fail(
                        HistoryErrorView::BrokenAncestry { entry_id: id },
                    ),
                    _ => self.page(None, reader.scanned_bytes),
                },
                ReverseOutcome::LineTooLarge => ScanOutcome::Fail(
                    HistoryErrorView::LineTooLarge { limit: reader.max_line_bytes },
                ),
                ReverseOutcome::Line { start, end } => {
                    let line = reader.buffer.subrange(start, end);
                    match self.line_taken(line, reader.line_end) {
                        LineVerdict::Continue(next) => if 0 <= start < reader.cursor {
                            next.scanned(reader.at(start))
                        } else {
                            self.page(None, reader.scanned_bytes)
                        },
                        LineVerdict::Finish(last, next_cursor) => last.page(
                            next_cursor,
                            reader.scanned_bytes,
                        ),
                        LineVerdict::Fail(error) => ScanOutcome::Fail(error),
                    }
                },
            }
        }
    }
}

/// What is wrong with a cursor, if anything is.
pub open spec fn cursor_refusal(
    cursor: HistoryCursorView,
    expected_session_id: Seq<char>,
    file_size: u64,
    limits: RuntimeLimits,
) -> Option<HistoryErrorView> {
    if cursor.session_id != expected_session_id {
        Some(HistoryErrorView::CursorSessionMismatch { expected: expected_session_id })
    } else if cursor.next_entry_id is Some && (cursor.next_entry_id->0.len() == 0 || byte_len(
        cursor.next_entry_id->0,
    ) > limits.max_session_cursor_bytes) {
        Some(
            HistoryErrorView::CursorEntryTooLong {
                actual: byte_len(cursor.next_entry_id->0),
                limit: limits.max_session_cursor_bytes,
            },
        )
    } else if cursor.before_offset > file_size {
        Some(
            HistoryErrorView::CursorBeyondFile { offset: cursor.before_offset, file_size },
        )
    } else if cursor.seek_latest && cursor.next_entry_id is Some {
        Some(HistoryErrorView::BrokenAncestry { entry_id: cursor.next_entry_id->0 })
    } else {
        None
    }
}

fn validate_cursor(
    cursor: &SessionHistoryCursor,
    expected_session_id: &str,
    file_size: u64,
    limits: RuntimeLimits,
) -> (r: Result<(), SessionHistoryError>)
    ensures
        match cursor_refusal(cursor@, expected_session_id@, file_size, limits) {
            Some(error) => r is Err && r->Err_0@ == error,
            None => r is Ok,
        },
{
    if !same_text(cursor.session_id.as_str(), expected_session_id) {
        return Err(
            SessionHistoryError::CursorSessionMismatch { expected: expected_session_id.to_owned() },
        );
    }
    match &cursor.next_entry_id {
        Some(entry_id) => {
            let actual: usize = text_bytes(entry_id.as_str());
            if entry_id.as_str().is_empty() || actual > limits.max_session_cursor_bytes {
                return Err(
                    SessionHistoryError::CursorEntryTooLong {
                        actual,
                        limit: limits.max_session_cursor_bytes,
                    },
                );
            }
        },
        None => {},
    }
    if cursor.before_offset > file_size {
        return Err(
            SessionHistoryError::CursorBeyondFile { offset: cursor.before_offset, file_size },
        );
    }
    match &cursor.next_entry_id {
        Some(entry_id) => {
            if cursor.seek_latest {
                return Err(SessionHistoryError::BrokenAncestry { entry_id: entry_id.clone() });
            }
        },
        None => {},
    }
    Ok(())
}

/// Bytes of the first line, or of everything where there is no line feed.
pub open spec fn first_line_len(bytes: Seq<u8>) -> int
    decreases bytes.len(),
{
    if bytes.len() == 0 || bytes[0] == 10 {
        0
    } else {
        1 + first_line_len(bytes.drop_first())
    }
}

/// Finds the end of the first line.
pub fn first_line_end(bytes: &[u8]) -> (at: usize)
    ensures
        at == first_line_len(bytes@),
        at <= bytes@.len(),
{
    let mut at: usize = 0;
    assert(bytes@.skip(0) =~= bytes@);
    while at < bytes.len() && bytes[at] != 10
        invariant
            at <= bytes@.len(),
            first_line_len(bytes@) == at + first_line_len(bytes@.skip(at as int)),
        decreases bytes@.len() - at,
    {
        assert(bytes@.skip(at as int).drop_first() =~= bytes@.skip(at + 1));
        assert(bytes@.skip(at as int)[0] == bytes@[at as int]);
        at += 1;
    }
    assert(at < bytes@.len() ==> bytes@.skip(at as int)[0] == bytes@[at as int]);
    at
}

/// The working directory that the header of a session names, or what is wrong
/// with the header. `bytes` are the first bytes of the file, one more than the
/// limit where it has as many.
pub open spec fn header_directory(
    bytes: Seq<u8>,
    expected_session_id: Seq<char>,
    limits: RuntimeLimits,
) -> Result<Seq<char>, HistoryErrorView> {
    let end = first_line_len(bytes);
    if end > limits.max_session_header_scan_bytes {
        Err(HistoryErrorView::HeaderTooLarge { limit: limits.max_session_header_scan_bytes })
    } else {
        match json_parsed(bytes.take(end)) {
            None => Err(HistoryErrorView::InvalidHeader),
            Some(header) => named_directory(header, expected_session_id),
        }
    }
}

/// The working directory that a header names, or what is wrong with it.
pub open spec fn named_directory(header: JsonTree, expected_session_id: Seq<char>) -> Result<
    Seq<char>,
    HistoryErrorView,
> {
    if header.text_at("type"@) != Some("session"@) || header.text_at("id"@) is None {
        Err(HistoryErrorView::InvalidHeader)
    } else if header.text_at("id"@)->0 != expected_session_id {
        Err(
            HistoryErrorView::SessionMismatch {
                expected: expected_session_id,
                actual: header.text_at("id"@)->0,
            },
        )
    } else {
        match header.text_at("cwd"@) {
            Some(cwd) => Ok(cwd),
            None => Err(HistoryErrorView::InvalidHeader),
        }
    }
}

/// Checks a header that was read, and gives the working directory that it names.
pub fn check_header(header: &serde_json::Value, expected_session_id: &str) -> (r: Result<
    String,
    SessionHistoryError,
>)
    ensures
        match named_directory(json_tree(*header), expected_session_id@) {
            Ok(cwd) => r is Ok && r->Ok_0@ == cwd,
            Err(error) => r is Err && r->Err_0@ == error,
        },
{
    if !json_text_is(header, "type", "session") {
        return Err(SessionHistoryError::InvalidHeader);
    }
    match json_text_at(header, "id") {
        Some(actual) => {
            if !same_text(actual, expected_session_id) {
                return Err(
                    SessionHistoryError::SessionMismatch {
                        expected: expected_session_id.to_owned(),
                        actual: actual.to_owned(),
                    },
                );
            }
        },
        None => {
            return Err(SessionHistoryError::InvalidHeader);
        },
    }
    match json_text_at(header, "cwd") {
        Some(cwd) => Ok(cwd.to_owned()),
        None => Err(SessionHistoryError::InvalidHeader),
    }
}

/// Checks the header of a session, and gives the working directory that it names.
pub fn read_header(bytes: &[u8], expected_session_id: &str, limits: RuntimeLimits) -> (r: Result<
    String,
    SessionHistoryError,
>)
    ensures
        match header_directory(bytes@, expected_session_id@, limits) {
            Ok(cwd) => r is Ok && r->Ok_0@ == cwd,
            Err(error) => r is Err && r->Err_0@ == error,
        },
{
    let end: usize = first_line_end(bytes);
    if end > limits.max_session_header_scan_bytes {
        return Err(
            SessionHistoryError::HeaderTooLarge { limit: limits.max_session_header_scan_bytes },
        );
    }
    let line = copy_bytes(bytes, 0, end);
    assert(line@ =~= bytes@.take(end as int));
    match parse_json(line.as_slice()) {
        Some(header) => check_header(&header, expected_session_id),
        None => Err(SessionHistoryError::InvalidHeader),
    }
}

/// Checks that a session belongs to a project. `actual` is the directory that the
/// header names, as the file system resolves it, where it does.
pub fn require_project(actual: Option<String>, expected: &str) -> (r: Result<
    (),
    SessionHistoryError,
>)
    ensures
        match actual {
            None => r is Err && r->Err_0@ == HistoryErrorView::InvalidHeader,
            Some(directory) => if directory@ == expected@ {
                r is Ok
            } else {
                r is Err && r->Err_0@ == (HistoryErrorView::ProjectMismatch {
                    expected: expected@,
                    actual: directory@,
                })
            },
        },
{
    match actual {
        None => Err(SessionHistoryError::InvalidHeader),
        Some(directory) => {
            if same_text(directory.as_str(), expected) {
                Ok(())
            } else {
                Err(
                    SessionHistoryError::ProjectMismatch {
                        expected: expected.to_owned(),
                        actual: directory,
                    },
                )
            }
        },
    }
}

fn optional_json_bytes(value: &Option<String>) -> (n: usize)
    ensures
        n == counted(json_optional_len(optional_view(*value))),
{
    match value {
        Some(text) => json_text_bytes(text.as_str()),
        None => 4,
    }
}

fn bool_json_bytes(value: bool) -> (n: usize)
    ensures
        n == json_bool_len(value),
{
    if value {
        4
    } else {
        5
    }
}

fn kind_json_bytes(kind: SessionTimelineKind) -> (n: usize)
    ensures
        n == json_kind_len(kind),
{
    match kind {
        SessionTimelineKind::User => 6,
        SessionTimelineKind::Assistant => 11,
        SessionTimelineKind::Tool => 6,
        SessionTimelineKind::Bash => 6,
        SessionTimelineKind::Compaction => 12,
        SessionTimelineKind::BranchSummary => 16,
        SessionTimelineKind::Custom => 8,
    }
}

/// Bytes of an item as JSON, at most `usize::MAX`.
pub fn item_json_bytes(item: &SessionTimelineItem) -> (n: usize)
    ensures
        n == counted(item_json_len(item@)),
{
    ITEM_FRAME_BYTES.saturating_add(json_text_bytes(item.entry_id.as_str())).saturating_add(
        optional_json_bytes(&item.timestamp),
    ).saturating_add(kind_json_bytes(item.kind)).saturating_add(
        optional_json_bytes(&item.title),
    ).saturating_add(json_text_bytes(item.text.as_str())).saturating_add(
        bool_json_bytes(item.text_truncated),
    ).saturating_add(bool_json_bytes(item.is_error))
}

fn items_json_bytes(items: &Vec<SessionTimelineItem>) -> (n: usize)
    ensures
        n == counted(items_json_len(item_views(items@))),
{
    let ghost all = item_views(items@);
    let mut n: usize = 0;
    let mut i: usize = 0;
    while i < items.len()
        invariant
            i <= items@.len(),
            all == item_views(items@),
            n == counted(items_json_len(all.take(i as int))),
        decreases items@.len() - i,
    {
        assert(all.take(i + 1).drop_last() =~= all.take(i as int));
        if i > 0 {
            n = n.saturating_add(1);
        }
        n = n.saturating_add(item_json_bytes(&items[i]));
        i += 1;
    }
    assert(all.take(i as int) =~= all);
    n
}

fn decimal_bytes(value: u64) -> (n: usize)
    ensures
        n == counted(decimal(value as nat).len()),
{
    let text = decimal_text(value);
    proof {
        lemma_decimal_ascii(value as nat);
        vstd::utf8::is_ascii_chars_encode_utf8(text@);
    }
    text_bytes(text.as_str())
}

proof fn lemma_decimal_ascii(n: nat)
    ensures
        vstd::utf8::is_ascii_chars(decimal(n)),
    decreases n,
{
    if n >= 10 {
        lemma_decimal_ascii(n / 10);
    }
}

fn cursor_json_bytes(cursor: &Option<SessionHistoryCursor>) -> (n: usize)
    ensures
        n == counted(cursor_json_len(cursor_option(*cursor))),
{
    match cursor {
        Some(cursor) => CURSOR_FRAME_BYTES.saturating_add(
            json_text_bytes(cursor.session_id.as_str()),
        ).saturating_add(decimal_bytes(cursor.before_offset)).saturating_add(
            optional_json_bytes(&cursor.next_entry_id),
        ).saturating_add(bool_json_bytes(cursor.seek_latest)),
        None => 4,
    }
}

/// Bytes of a page as JSON while its own size is zero, at most `usize::MAX`.
pub fn page_json_bytes(page: &SessionHistoryPage) -> (n: usize)
    ensures
        n == counted(page_json_len(page@)),
{
    PAGE_FRAME_BYTES.saturating_add(json_text_bytes(page.session_id.as_str())).saturating_add(
        optional_json_bytes(&page.append_cursor),
    ).saturating_add(optional_json_bytes(&page.leaf_id)).saturating_add(
        items_json_bytes(&page.items),
    ).saturating_add(cursor_json_bytes(&page.next_cursor)).saturating_add(
        decimal_bytes(page.scanned_bytes as u64),
    )
}

/// A page that is being gathered.
#[derive(Debug)]
pub struct HistoryGathering {
    session_id: String,
    target: HistoryTarget,
    items: Vec<SessionTimelineItem>,
    resident_bytes: usize,
    seen: KeyMap<String, ()>,
    append_cursor: Option<String>,
    limits: RuntimeLimits,
}

impl View for HistoryGathering {
    type V = GatheringView;

    closed spec fn view(&self) -> GatheringView {
        GatheringView {
            session_id: self.session_id@,
            target: self.target@,
            items: item_views(self.items@),
            resident_bytes: self.resident_bytes,
            seen: self.seen@.dom(),
            append_cursor: optional_view(self.append_cursor),
            limits: self.limits,
        }
    }
}

/// What a line did.
#[derive(Debug, PartialEq, Eq)]
pub enum LineStep {
    Continue,
    Finish(Option<SessionHistoryCursor>),
    Fail(SessionHistoryError),
}

impl LineStep {
    /// Whether this, and what was gathered, is what a line does.
    pub open spec fn is(&self, after: GatheringView, verdict: LineVerdict) -> bool {
        match verdict {
            LineVerdict::Continue(next) => *self is Continue && after == next,
            LineVerdict::Finish(last, cursor) => *self is Finish && after == last && cursor_option(
                self->Finish_0,
            ) == cursor,
            LineVerdict::Fail(error) => *self is Fail && self->Fail_0@ == error,
        }
    }
}

fn parent_id(entry: &serde_json::Value) -> (r: Option<String>)
    ensures
        optional_view(r) == parent_of(json_tree(*entry)),
{
    match json_text_at(entry, "parentId") {
        Some(id) => {
            if id.is_empty() {
                None
            } else {
                Some(id.to_owned())
            }
        },
        None => None,
    }
}

impl HistoryGathering {
    /// A page of which nothing is gathered yet.
    pub fn new(session_id: &str, target: HistoryTarget, limits: RuntimeLimits) -> (r: Self)
        ensures
            r@ == GatheringView::begun(session_id@, target@, limits),
    {
        let items: Vec<SessionTimelineItem> = Vec::new();
        let seen: KeyMap<String, ()> = KeyMap::new();
        assert(item_views(items@) =~= Seq::<TimelineItemView>::empty());
        assert(seen@.dom() =~= Set::<Seq<char>>::empty());
        HistoryGathering {
            session_id: session_id.to_owned(),
            target,
            items,
            resident_bytes: 0,
            seen,
            append_cursor: None,
            limits,
        }
    }

    fn cursor_for_target(&self, before_offset: u64) -> (r: Option<SessionHistoryCursor>)
        ensures
            cursor_option(r) == self@.cursor_at(before_offset),
    {
        match &self.target {
            HistoryTarget::Done => None,
            HistoryTarget::Latest => Some(
                SessionHistoryCursor {
                    session_id: self.session_id.clone(),
                    before_offset,
                    next_entry_id: None,
                    seek_latest: true,
                },
            ),
            HistoryTarget::Entry(id) => Some(
                SessionHistoryCursor {
                    session_id: self.session_id.clone(),
                    before_offset,
                    next_entry_id: Some(id.clone()),
                    seek_latest: false,
                },
            ),
        }
    }

    fn take_entry(&mut self, entry: &serde_json::Value, id: &str, retry_before: u64) -> (r: LineStep)
        ensures
            r.is(
                final(self)@,
                old(self)@.entry_taken(json_tree(*entry), id@, retry_before),
            ),
    {
        let key = id.to_owned();
        let parent = parent_id(entry);
        let own_parent = match &parent {
            Some(parent) => same_text(parent.as_str(), id),
            None => false,
        };
        if self.seen.contains_key(&key) || own_parent {
            return LineStep::Fail(SessionHistoryError::RepeatedEntry { entry_id: key });
        }
        let latest = match &self.target {
            HistoryTarget::Latest => true,
            _ => false,
        };
        if latest {
            self.append_cursor = Some(id.to_owned());
        }
        let ghost seen_before = self.seen@.dom();
        self.seen.insert(key, ());
        assert(self.seen@.dom() =~= seen_before.insert(id@));
        match timeline_item(entry, self.limits) {
            Some(item) => {
                let bytes: usize = item_json_bytes(&item);
                if self.resident_bytes.saturating_add(bytes)
                    > self.limits.max_session_history_page_bytes {
                    return LineStep::Finish(
                        Some(
                            SessionHistoryCursor {
                                session_id: self.session_id.clone(),
                                before_offset: retry_before,
                                next_entry_id: Some(id.to_owned()),
                                seek_latest: false,
                            },
                        ),
                    );
                }
                self.resident_bytes = self.resident_bytes.saturating_add(bytes);
                let ghost items_before = item_views(self.items@);
                let ghost added = item@;
                self.items.push(item);
                assert(item_views(self.items@) =~= items_before.push(added));
            },
            None => {},
        }
        match parent {
            Some(parent) => {
                self.target = HistoryTarget::Entry(parent);
                LineStep::Continue
            },
            None => {
                self.target = HistoryTarget::Done;
                LineStep::Finish(None)
            },
        }
    }

    fn take_line(&mut self, line: &Vec<u8>, retry_before: u64) -> (r: LineStep)
        ensures
            r.is(final(self)@, old(self)@.line_taken(line@, retry_before)),
    {
        if line.len() == 0 {
            return LineStep::Continue;
        }
        match parse_json(line.as_slice()) {
            Some(value) => self.take_value(&value, retry_before),
            None => LineStep::Continue,
        }
    }

    /// Takes a line that was read. `retry_before` is where the line ends, its
    /// terminator included.
    pub fn take_value(&mut self, value: &serde_json::Value, retry_before: u64) -> (r: LineStep)
        ensures
            r.is(final(self)@, old(self)@.value_taken(json_tree(*value), retry_before)),
    {
        if json_text_is(value, "type", "session") {
            return match &self.target {
                HistoryTarget::Entry(id) => LineStep::Fail(
                    SessionHistoryError::BrokenAncestry { entry_id: id.clone() },
                ),
                _ => LineStep::Finish(None),
            };
        }
        let id = match json_text_at(value, "id") {
            Some(id) => id,
            None => {
                return LineStep::Continue;
            },
        };
        if id.is_empty() || text_bytes(id) > self.limits.max_session_cursor_bytes {
            return LineStep::Continue;
        }
        let wanted = match &self.target {
            HistoryTarget::Latest => true,
            HistoryTarget::Entry(expected) => same_text(id, expected.as_str()),
            HistoryTarget::Done => false,
        };
        if !wanted {
            return LineStep::Continue;
        }
        self.take_entry(value, id, retry_before)
    }

    /// The page of what was gathered. The gathering is empty afterwards.
    fn finish(&mut self, next_cursor: Option<SessionHistoryCursor>, scanned_bytes: usize) -> (r:
        Result<SessionHistoryPage, SessionHistoryError>)
        ensures
            match old(self)@.page(cursor_option(next_cursor), scanned_bytes) {
                ScanOutcome::Page(page) => r is Ok && r->Ok_0@ == page,
                ScanOutcome::Fail(error) => r is Err && r->Err_0@ == error,
                _ => false,
            },
    {
        let ghost gathered = item_views(self.items@);
        let mut newest_first: Vec<SessionTimelineItem> = Vec::new();
        core::mem::swap(&mut newest_first, &mut self.items);
        let mut items: Vec<SessionTimelineItem> = Vec::new();
        let n: usize = newest_first.len();
        while newest_first.len() > 0
            invariant
                newest_first@.len() + items@.len() == n == gathered.len(),
                item_views(newest_first@) =~= gathered.take(newest_first@.len() as int),
                item_views(items@) =~= gathered.skip(newest_first@.len() as int).reverse(),
            decreases newest_first@.len(),
        {
            let ghost left = newest_first@.len() as int;
            let ghost before = items@;
            let ghost remaining = newest_first@;
            assert(item_views(remaining)[left - 1] == remaining[left - 1]@);
            assert(gathered.take(left)[left - 1] == gathered[left - 1]);
            match newest_first.pop() {
                Some(item) => {
                    assert(item_views(newest_first@) =~= item_views(remaining).drop_last());
                    assert(item@ == gathered[left - 1]);
                    items.push(item);
                    assert(item_views(items@) =~= item_views(before).push(item@));
                    assert(gathered.skip(left - 1).reverse() =~= gathered.skip(
                        left,
                    ).reverse().push(gathered[left - 1]));
                },
                None => {},
            }
        }
        assert(gathered.skip(0) =~= gathered);
        let mut page = SessionHistoryPage {
            session_id: self.session_id.clone(),
            append_cursor: copy_optional(&self.append_cursor),
            leaf_id: copy_optional(&self.append_cursor),
            items,
            next_cursor,
            scanned_bytes,
            encoded_bytes: 0,
        };
        let encoded_bytes: usize = page_json_bytes(&page);
        if encoded_bytes > self.limits.max_session_history_page_bytes {
            return Err(
                SessionHistoryError::PageTooLarge {
                    actual: encoded_bytes,
                    limit: self.limits.max_session_history_page_bytes,
                },
            );
        }
        page.encoded_bytes = encoded_bytes;
        Ok(page)
    }
}

/// What the owner of the session file has to do next.
#[derive(Debug, PartialEq, Eq)]
pub enum HistoryAction {
    /// Read exactly `len` bytes from `offset` and hand them in.
    ReadBlock { offset: u64, len: usize },
    Page(SessionHistoryPage),
    Fail(SessionHistoryError),
}

/// Gathers one page by scanning a session file backwards. It does not read: it
/// says which bytes it needs.
#[derive(Debug)]
pub struct SessionHistoryScan {
    reader: ReverseLineReader,
    gathering: HistoryGathering,
}

/// How a page is begun.
#[derive(Debug)]
pub enum HistoryStart {
    Scan(SessionHistoryScan),
    /// There is nothing older.
    Page(SessionHistoryPage),
}

impl SessionHistoryScan {
    pub closed spec fn reading(&self) -> ReverseView {
        self.reader@
    }

    pub closed spec fn gathered(&self) -> GatheringView {
        self.gathering@
    }

    /// The bytes of the present buffer that the next block continues.
    pub closed spec fn keeps(&self) -> int {
        self.reader.keeps()
    }

    pub open spec fn wf(&self) -> bool {
        self.reading().wf()
    }

    /// Whether the scan waits for these bytes.
    pub open spec fn awaits(&self, offset: u64, len: usize) -> bool {
        self.reading().next() == (ReverseOutcome::NeedBlock { offset, len, keep: self.keeps() })
    }

    /// Starts a page at `cursor`, or at the end of the file. `file_size` is the
    /// size of the session file.
    pub fn begin(
        session_id: &str,
        cursor: Option<&SessionHistoryCursor>,
        file_size: u64,
        limits: RuntimeLimits,
    ) -> (r: Result<HistoryStart, SessionHistoryError>)
        ensures
            ({
                let refusal = match cursor {
                    Some(cursor) => cursor_refusal(cursor@, session_id@, file_size, limits),
                    None => None,
                };
                match refusal {
                    Some(error) => r is Err && r->Err_0@ == error,
                    None => match r {
                        Err(_) => false,
                        Ok(HistoryStart::Page(page)) => cursor is Some && cursor->0@.target()
                            is Done && page@ == HistoryPageView::empty(session_id@),
                        Ok(HistoryStart::Scan(scan)) => {
                            &&& cursor is Some ==> !(cursor->0@.target() is Done)
                            &&& scan.wf()
                            &&& scan.reading() == ReverseView::begun(
                                match cursor {
                                    Some(cursor) => cursor.before_offset,
                                    None => file_size,
                                },
                                limits.max_session_history_scan_bytes_per_page,
                                limits.max_session_history_line_bytes,
                            )
                            &&& scan.gathered() == GatheringView::begun(
                                session_id@,
                                match cursor {
                                    Some(cursor) => cursor@.target(),
                                    None => HistoryTargetView::Latest,
                                },
                                limits,
                            )
                        },
                    },
                }
            }),
    {
        let mut before_offset: u64 = file_size;
        let mut target = HistoryTarget::Latest;
        match cursor {
            Some(cursor) => {
                match validate_cursor(cursor, session_id, file_size, limits) {
                    Ok(()) => {},
                    Err(error) => {
                        return Err(error);
                    },
                }
                before_offset = cursor.before_offset;
                if !cursor.seek_latest {
                    match &cursor.next_entry_id {
                        Some(id) => {
                            target = HistoryTarget::Entry(id.clone());
                        },
                        None => {
                            let items: Vec<SessionTimelineItem> = Vec::new();
                            assert(item_views(items@) =~= Seq::<TimelineItemView>::empty());
                            return Ok(
                                HistoryStart::Page(
                                    SessionHistoryPage {
                                        session_id: session_id.to_owned(),
                                        append_cursor: None,
                                        leaf_id: None,
                                        items,
                                        next_cursor: None,
                                        scanned_bytes: 0,
                                        encoded_bytes: 0,
                                    },
                                ),
                            );
                        },
                    }
                }
            },
            None => {},
        }
        Ok(
            HistoryStart::Scan(
                SessionHistoryScan {
                    reader: ReverseLineReader::new(
                        before_offset,
                        limits.max_session_history_scan_bytes_per_page,
                        limits.max_session_history_line_bytes,
                    ),
                    gathering: HistoryGathering::new(session_id, target, limits),
                },
            ),
        )
    }

    /// Takes all lines that are in the buffer, and says what comes next.
    pub fn advance(&mut self) -> (r: HistoryAction)
        requires
            old(self).wf(),
        ensures
            match old(self).gathered().scanned(old(self).reading()) {
                ScanOutcome::Page(page) => r is Page && r->Page_0@ == page,
                ScanOutcome::Fail(error) => r is Fail && r->Fail_0@ == error,
                ScanOutcome::NeedBlock { gathering, reader, offset, len, keep } => {
                    &&& r == (HistoryAction::ReadBlock { offset, len })
                    &&& final(self).gathered() == gathering
                    &&& final(self).reading() == reader
                    &&& final(self).keeps() == keep
                    &&& final(self).wf()
                    &&& final(self).awaits(offset, len)
                },
            },
    {
        let ghost outcome = self.gathering@.scanned(self.reader@);
        loop
            invariant
                self.reader@.wf(),
                outcome == old(self).gathered().scanned(old(self).reading()),
                outcome == self.gathering@.scanned(self.reader@),
            decreases self.reader@.cursor,
        {
            let before_offset: u64 = self.reader.before_offset();
            let retry_before: u64 = self.reader.line_end();
            if self.gathering.items.len() >= self.gathering.limits.max_session_history_page_items {
                let cursor = self.gathering.cursor_for_target(before_offset);
                let scanned: usize = self.reader.scanned_bytes();
                return match self.gathering.finish(cursor, scanned) {
                    Ok(page) => HistoryAction::Page(page),
                    Err(error) => HistoryAction::Fail(error),
                };
            }
            let ghost before = self.reader@;
            match self.reader.next_line() {
                ReverseRead::NeedBlock { offset, len } => {
                    return HistoryAction::ReadBlock { offset, len };
                },
                ReverseRead::BudgetExhausted => {
                    let cursor = self.gathering.cursor_for_target(before_offset);
                    let scanned: usize = self.reader.scanned_bytes();
                    return match self.gathering.finish(cursor, scanned) {
                        Ok(page) => HistoryAction::Page(page),
                        Err(error) => HistoryAction::Fail(error),
                    };
                },
                ReverseRead::Eof => {
                    match &self.gathering.target {
                        HistoryTarget::Entry(id) => {
                            return HistoryAction::Fail(
                                SessionHistoryError::BrokenAncestry { entry_id: id.clone() },
                            );
                        },
                        _ => {},
                    }
                    let scanned: usize = self.reader.scanned_bytes();
                    return match self.gathering.finish(None, scanned) {
                        Ok(page) => HistoryAction::Page(page),
                        Err(error) => HistoryAction::Fail(error),
                    };
                },
                ReverseRead::LineTooLarge { limit } => {
                    return HistoryAction::Fail(SessionHistoryError::LineTooLarge { limit });
                },
                ReverseRead::Line(line) => {
                    match self.gathering.take_line(&line, retry_before) {
                        LineStep::Continue => {},
                        LineStep::Finish(cursor) => {
                            let scanned: usize = self.reader.scanned_bytes();
                            return match self.gathering.finish(cursor, scanned) {
                                Ok(page) => HistoryAction::Page(page),
                                Err(error) => HistoryAction::Fail(error),
                            };
                        },
                        LineStep::Fail(error) => {
                            return HistoryAction::Fail(error);
                        },
                    }
                },
            }
        }
    }

    /// Hands in the block that [`SessionHistoryScan::advance`] asked for.
    pub fn supply(&mut self, offset: u64, block: Vec<u8>)
        requires
            old(self).wf(),
            block@.len() <= usize::MAX,
            old(self).awaits(offset, block@.len() as usize),
        ensures
            final(self).wf(),
            final(self).gathered() == old(self).gathered(),
            final(self).reading() == old(self).reading().supplied(block@, old(self).keeps()),
    {
        self.reader.supply(block);
    }
}

/// A page never shows more items or bytes than its limits, and says exactly how
/// many bytes it takes.
pub proof fn page_is_bounded(gathering: GatheringView, cursor: Option<HistoryCursorView>, scanned: usize)
    ensures
        match gathering.page(cursor, scanned) {
            ScanOutcome::Page(page) => {
                &&& page.encoded_bytes <= gathering.limits.max_session_history_page_bytes
                &&& page.encoded_bytes == counted(
                    page_json_len(HistoryPageView { encoded_bytes: 0, ..page }),
                )
                &&& page.items == gathering.items.reverse()
                &&& page.items.len() == gathering.items.len()
                &&& page.scanned_bytes == scanned
            },
            _ => true,
        },
{
}

/// A gathered page never grows beyond the number of items that its limits name.
pub proof fn gathering_stops_at_the_item_limit(
    gathering: GatheringView,
    line: Seq<u8>,
    retry_before: u64,
)
    requires
        gathering.items.len() < gathering.limits.max_session_history_page_items,
    ensures
        match gathering.line_taken(line, retry_before) {
            LineVerdict::Continue(next) => next.items.len()
                <= gathering.limits.max_session_history_page_items && next.limits
                == gathering.limits,
            LineVerdict::Finish(last, _) => last.items.len()
                <= gathering.limits.max_session_history_page_items && last.limits
                == gathering.limits,
            LineVerdict::Fail(_) => true,
        },
{
}

/// Only the branch is followed: an entry that is not the one that comes next
/// changes nothing, and one that is makes its parent the next.
pub proof fn only_the_branch_is_followed(
    gathering: GatheringView,
    line: Seq<u8>,
    entry: JsonTree,
    id: Seq<char>,
    retry_before: u64,
)
    requires
        line.len() > 0,
        json_parsed(line) == Some(entry),
        entry.text_at("type"@) != Some("session"@),
        entry.text_at("id"@) == Some(id),
    ensures
        !gathering.wants(id) ==> gathering.line_taken(line, retry_before) == LineVerdict::Continue(
            gathering,
        ),
        match gathering.line_taken(line, retry_before) {
            LineVerdict::Continue(next) => next == gathering || (gathering.wants(id)
                && next.target == HistoryTargetView::Entry(parent_of(entry)->0)
                && next.seen == gathering.seen.insert(id) && !gathering.seen.contains(id)),
            _ => true,
        },
{
}

impl GatheringView {
    /// Whether the line at this offset of the file gives an item of the page, out of
    /// the lines that `reader` has in its buffer.
    pub open spec fn shows_line(self, reader: ReverseView, offset: int) -> bool
        decreases reader.cursor,
    {
        if self.items.len() >= self.limits.max_session_history_page_items {
            false
        } else {
            match reader.next() {
                ReverseOutcome::Line { start, end } => {
                    let line = reader.buffer.subrange(start, end);
                    match self.line_taken(line, reader.line_end) {
                        LineVerdict::Continue(next) => {
                            ||| next.items.len() > self.items.len() && offset
                                == reader.buffer_start + start
                            ||| 0 <= start < reader.cursor && next.shows_line(
                                reader.at(start),
                                offset,
                            )
                        },
                        LineVerdict::Finish(last, _) => last.items.len() > self.items.len()
                            && offset == reader.buffer_start + start,
                        LineVerdict::Fail(_) => false,
                    }
                },
                _ => false,
            }
        }
    }
}

/// No line is shown twice: what a page shows lies before the place where it was
/// begun and behind the place where the next one, or the next block, continues.
pub proof fn pages_do_not_overlap(
    gathering: GatheringView,
    reader: ReverseView,
    file: Seq<u8>,
    offset: int,
)
    requires
        reader.wf(),
        reader.agrees(file),
        gathering.shows_line(reader, offset),
    ensures
        offset < reader.before_offset(),
        match gathering.scanned(reader) {
            ScanOutcome::Page(page) => match page.next_cursor {
                Some(cursor) => cursor.before_offset <= offset,
                None => true,
            },
            ScanOutcome::NeedBlock { reader: after, .. } => after.before_offset() <= offset
                && after.line_end <= offset,
            ScanOutcome::Fail(_) => true,
        },
    decreases reader.cursor,
{
    lemma_scan_goes_back(gathering, reader, file);
    match reader.next() {
        ReverseOutcome::Line { start, end } => {
            returned_line_is_a_line(reader, file, start, end);
            let line = reader.buffer.subrange(start, end);
            match gathering.line_taken(line, reader.line_end) {
                LineVerdict::Continue(next) => {
                    if next.shows_line(reader.at(start), offset) {
                        pages_do_not_overlap(next, reader.at(start), file, offset);
                    } else {
                        lemma_scan_goes_back(next, reader.at(start), file);
                    }
                },
                _ => {},
            }
        },
        _ => {},
    }
}

proof fn lemma_scan_goes_back(gathering: GatheringView, reader: ReverseView, file: Seq<u8>)
    requires
        reader.wf(),
        reader.agrees(file),
    ensures
        match gathering.scanned(reader) {
            ScanOutcome::Page(page) => match page.next_cursor {
                Some(cursor) => cursor.before_offset <= reader.line_end,
                None => true,
            },
            ScanOutcome::NeedBlock { reader: after, .. } => after.before_offset() <= after.line_end
                && after.line_end <= reader.line_end,
            ScanOutcome::Fail(_) => true,
        },
    decreases reader.cursor,
{
    match reader.next() {
        ReverseOutcome::Line { start, end } => {
            returned_line_is_a_line(reader, file, start, end);
            let line = reader.buffer.subrange(start, end);
            match gathering.line_taken(line, reader.line_end) {
                LineVerdict::Continue(next) => {
                    lemma_scan_goes_back(next, reader.at(start), file);
                },
                _ => {},
            }
        },
        _ => {},
    }
}

/// A cursor for the next page is accepted when that page is asked for.
pub proof fn next_cursor_is_accepted(
    gathering: GatheringView,
    before_offset: u64,
    file_size: u64,
    limits: RuntimeLimits,
)
    requires
        before_offset <= file_size,
        gathering.target is Entry ==> gathering.target->Entry_0.len() > 0 && byte_len(
            gathering.target->Entry_0,
        ) <= limits.max_session_cursor_bytes,
    ensures
        match gathering.cursor_at(before_offset) {
            Some(cursor) => cursor_refusal(cursor, gathering.session_id, file_size, limits) is None,
            None => true,
        },
{
}

} // verus!
