//! Cursor of the live synchronization with a persisted session.
use vstd::prelude::*;
use vstd::string::*;

use crate::limits::RuntimeLimits;
use crate::rpc::{SessionEntriesPage, SessionEntriesPageView, SessionEntryEnvelope};
use crate::text::{
    byte_len, copy_optional, optional_view, same_optional, same_text, sat_add_u64, text_bytes,
};

verus! {

/// The characters of an optional borrowed text.
pub open spec fn borrowed_view(value: Option<&str>) -> Option<Seq<char>> {
    match value {
        Some(text) => Some(text@),
        None => None,
    }
}

/// Cursor of one session. The entries themselves are not kept here.
#[derive(Debug, PartialEq, Eq)]
pub struct SessionSyncState {
    initialized: bool,
    cursor: Option<String>,
    leaf_id: Option<String>,
    resync_required: bool,
    revision: u64,
}

/// Model of a [`SessionSyncState`].
pub struct SessionSyncView {
    pub initialized: bool,
    pub cursor: Option<Seq<char>>,
    pub leaf_id: Option<Seq<char>>,
    pub resync_required: bool,
    pub revision: u64,
}

impl View for SessionSyncState {
    type V = SessionSyncView;

    closed spec fn view(&self) -> SessionSyncView {
        SessionSyncView {
            initialized: self.initialized,
            cursor: optional_view(self.cursor),
            leaf_id: optional_view(self.leaf_id),
            resync_required: self.resync_required,
            revision: self.revision,
        }
    }
}

#[derive(Clone, Copy, Debug, PartialEq, Eq, Structural)]
pub struct SessionSyncApplied {
    pub appended_entries: usize,
    pub cursor_changed: bool,
    pub leaf_changed: bool,
    pub revision: u64,
}

#[derive(Debug, PartialEq, Eq)]
pub struct SessionSyncResync {
    pub rejected_since: String,
    pub revision: u64,
}

#[allow(inconsistent_fields)]
#[derive(Debug, PartialEq, Eq)]
pub enum SessionSyncError {
    InvalidCursorLength { actual: usize, limit: usize },
    ResyncRequired,
    CursorMismatch { expected: Option<String>, actual: Option<String> },
    DuplicateEntryId { id: String },
}

/// Model of a [`SessionSyncError`].
#[allow(inconsistent_fields)]
pub enum SessionSyncErrorView {
    InvalidCursorLength { actual: nat, limit: usize },
    ResyncRequired,
    CursorMismatch { expected: Option<Seq<char>>, actual: Option<Seq<char>> },
    DuplicateEntryId { id: Seq<char> },
}

impl View for SessionSyncError {
    type V = SessionSyncErrorView;

    open spec fn view(&self) -> SessionSyncErrorView {
        match self {
            SessionSyncError::InvalidCursorLength { actual, limit } =>
                SessionSyncErrorView::InvalidCursorLength { actual: *actual as nat, limit: *limit },
            SessionSyncError::ResyncRequired => SessionSyncErrorView::ResyncRequired,
            SessionSyncError::CursorMismatch { expected, actual } =>
                SessionSyncErrorView::CursorMismatch {
                expected: optional_view(*expected),
                actual: optional_view(*actual),
            },
            SessionSyncError::DuplicateEntryId { id } => SessionSyncErrorView::DuplicateEntryId {
                id: id@,
            },
        }
    }
}

/// What is wrong with the length of a cursor, if anything is.
pub open spec fn cursor_refusal(
    cursor: Option<Seq<char>>,
    limits: RuntimeLimits,
) -> Option<SessionSyncErrorView> {
    match cursor {
        Some(text) => if text.len() == 0 || byte_len(text) > limits.max_session_cursor_bytes {
            Some(
                SessionSyncErrorView::InvalidCursorLength {
                    actual: byte_len(text),
                    limit: limits.max_session_cursor_bytes,
                },
            )
        } else {
            None
        },
        None => None,
    }
}

/// The identities of the entries of a page.
pub open spec fn entry_ids(entries: Seq<SessionEntryEnvelope>) -> Seq<Seq<char>> {
    entries.map_values(|entry: SessionEntryEnvelope| entry.id@)
}

/// The first identity that occurs for the second time.
pub open spec fn first_repeated(ids: Seq<Seq<char>>) -> Option<Seq<char>>
    decreases ids.len(),
{
    if ids.len() == 0 {
        None
    } else {
        match first_repeated(ids.drop_last()) {
            Some(id) => Some(id),
            None => if ids.drop_last().contains(ids.last()) {
                Some(ids.last())
            } else {
                None
            },
        }
    }
}

impl SessionSyncView {
    pub open spec fn unknown() -> Self {
        SessionSyncView {
            initialized: false,
            cursor: None,
            leaf_id: None,
            resync_required: false,
            revision: 0,
        }
    }

    /// Why entries after `since` cannot be asked for, if they cannot.
    pub open spec fn request_refusal(
        self,
        since: Option<Seq<char>>,
        limits: RuntimeLimits,
    ) -> Option<SessionSyncErrorView> {
        match cursor_refusal(since, limits) {
            Some(error) => Some(error),
            None => if self.resync_required && since is Some {
                Some(SessionSyncErrorView::ResyncRequired)
            } else if self.initialized && !self.resync_required && since != self.cursor {
                Some(
                    SessionSyncErrorView::CursorMismatch { expected: self.cursor, actual: since },
                )
            } else {
                None
            },
        }
    }

    /// Why a page cannot be applied, if it cannot.
    pub open spec fn page_refusal(
        self,
        since: Option<Seq<char>>,
        page: SessionEntriesPageView,
        limits: RuntimeLimits,
    ) -> Option<SessionSyncErrorView> {
        match self.request_refusal(since, limits) {
            Some(error) => Some(error),
            None => match first_repeated(entry_ids(page.entries)) {
                Some(id) => Some(SessionSyncErrorView::DuplicateEntryId { id }),
                None => None,
            },
        }
    }

    /// Why a cursor cannot be seeded, if it cannot.
    pub open spec fn seed_refusal(
        cursor: Option<Seq<char>>,
        leaf_id: Option<Seq<char>>,
        limits: RuntimeLimits,
    ) -> Option<SessionSyncErrorView> {
        match cursor_refusal(cursor, limits) {
            Some(error) => Some(error),
            None => cursor_refusal(leaf_id, limits),
        }
    }

    pub open spec fn seeded(self, cursor: Option<Seq<char>>, leaf_id: Option<Seq<char>>) -> Self {
        SessionSyncView {
            initialized: true,
            cursor,
            leaf_id,
            resync_required: false,
            revision: sat_add_u64(self.revision, 1),
        }
    }

    /// The cursor after a page: at its last entry, if it has one.
    pub open spec fn page_cursor(
        self,
        since: Option<Seq<char>>,
        page: SessionEntriesPageView,
    ) -> Option<Seq<char>> {
        if page.entries.len() > 0 {
            Some(page.entries.last().id@)
        } else if !self.initialized {
            since
        } else {
            self.cursor
        }
    }

    /// Whether a page changes anything that is observed.
    pub open spec fn page_changes(
        self,
        since: Option<Seq<char>>,
        page: SessionEntriesPageView,
    ) -> bool {
        self.page_cursor(since, page) != self.cursor || optional_view(page.leaf_id) != self.leaf_id
            || page.entries.len() > 0
    }

    pub open spec fn page_applied(
        self,
        since: Option<Seq<char>>,
        page: SessionEntriesPageView,
    ) -> Self {
        SessionSyncView {
            initialized: true,
            cursor: self.page_cursor(since, page),
            leaf_id: optional_view(page.leaf_id),
            resync_required: false,
            revision: if self.page_changes(since, page) {
                sat_add_u64(self.revision, 1)
            } else {
                self.revision
            },
        }
    }

    /// What applying a page reports.
    pub open spec fn page_report(
        self,
        since: Option<Seq<char>>,
        page: SessionEntriesPageView,
    ) -> SessionSyncApplied {
        SessionSyncApplied {
            appended_entries: page.entries.len() as usize,
            cursor_changed: self.page_cursor(since, page) != self.cursor,
            leaf_changed: optional_view(page.leaf_id) != self.leaf_id,
            revision: self.page_applied(since, page).revision,
        }
    }

    pub open spec fn resync(self) -> Self {
        SessionSyncView {
            resync_required: true,
            revision: sat_add_u64(self.revision, 1),
            ..self
        }
    }
}

fn owned(value: Option<&str>) -> (r: Option<String>)
    ensures
        optional_view(r) == borrowed_view(value),
{
    match value {
        Some(text) => Some(text.to_owned()),
        None => None,
    }
}

fn validate_cursor(cursor: Option<&str>, limits: RuntimeLimits) -> (r: Result<(), SessionSyncError>)
    ensures
        match cursor_refusal(borrowed_view(cursor), limits) {
            Some(error) => r is Err && r->Err_0@ == error,
            None => r is Ok,
        },
{
    match cursor {
        Some(text) => {
            let actual: usize = text_bytes(text);
            if text.is_empty() || actual > limits.max_session_cursor_bytes {
                Err(
                    SessionSyncError::InvalidCursorLength {
                        actual,
                        limit: limits.max_session_cursor_bytes,
                    },
                )
            } else {
                Ok(())
            }
        },
        None => Ok(()),
    }
}

fn borrow_optional(value: &Option<String>) -> (r: Option<&str>)
    ensures
        borrowed_view(r) == optional_view(*value),
{
    match value {
        Some(text) => Some(text.as_str()),
        None => None,
    }
}

proof fn lemma_repeated_prefix(ids: Seq<Seq<char>>, n: int)
    requires
        0 <= n <= ids.len(),
        first_repeated(ids.take(n)) is Some,
    ensures
        first_repeated(ids) == first_repeated(ids.take(n)),
    decreases ids.len(),
{
    if n == ids.len() {
        assert(ids.take(n) =~= ids);
    } else {
        assert(ids.drop_last().take(n) =~= ids.take(n));
        lemma_repeated_prefix(ids.drop_last(), n);
    }
}

/// Finds the first entry whose identity an earlier one has.
fn find_repeated(entries: &Vec<SessionEntryEnvelope>) -> (r: Option<String>)
    ensures
        optional_view(r) == first_repeated(entry_ids(entries@)),
{
    let ghost ids = entry_ids(entries@);
    let mut i: usize = 0;
    assert(ids.take(0) =~= Seq::<Seq<char>>::empty());
    while i < entries.len()
        invariant
            ids == entry_ids(entries@),
            i <= entries@.len(),
            first_repeated(ids.take(i as int)) is None,
        decreases entries@.len() - i,
    {
        let ghost before = ids.take(i as int);
        let ghost upto = ids.take(i + 1);
        assert(upto.drop_last() =~= before);
        assert(upto.last() == ids[i as int]);
        let mut k: usize = 0;
        while k < i
            invariant
                ids == entry_ids(entries@),
                k <= i < entries@.len(),
                before == ids.take(i as int),
                upto == ids.take(i + 1),
                upto.drop_last() == before,
                upto.last() == ids[i as int],
                first_repeated(before) is None,
                forall|m: int| 0 <= m < k ==> before[m] != ids[i as int],
            decreases i - k,
        {
            if same_text(entries[k].id.as_str(), entries[i].id.as_str()) {
                proof {
                    assert(before[k as int] == ids[i as int]);
                    lemma_repeated_prefix(ids, i + 1);
                }
                return Some(entries[i].id.clone());
            }
            assert(before[k as int] != ids[i as int]);
            k += 1;
        }
        assert(!before.contains(ids[i as int]));
        i += 1;
    }
    assert(ids.take(i as int) =~= ids);
    None
}

impl Default for SessionSyncState {
    fn default() -> (r: Self)
        ensures
            r@ == SessionSyncView::unknown(),
    {
        SessionSyncState {
            initialized: false,
            cursor: None,
            leaf_id: None,
            resync_required: false,
            revision: 0,
        }
    }
}

impl Clone for SessionSyncState {
    fn clone(&self) -> (r: Self)
        ensures
            r@ == self@,
    {
        SessionSyncState {
            initialized: self.initialized,
            cursor: copy_optional(&self.cursor),
            leaf_id: copy_optional(&self.leaf_id),
            resync_required: self.resync_required,
            revision: self.revision,
        }
    }
}

impl SessionSyncState {
    pub fn initialized(&self) -> (r: bool)
        ensures
            r == self@.initialized,
    {
        self.initialized
    }

    pub fn cursor(&self) -> (r: Option<&str>)
        ensures
            borrowed_view(r) == self@.cursor,
    {
        borrow_optional(&self.cursor)
    }

    pub fn leaf_id(&self) -> (r: Option<&str>)
        ensures
            borrowed_view(r) == self@.leaf_id,
    {
        borrow_optional(&self.leaf_id)
    }

    pub fn resync_required(&self) -> (r: bool)
        ensures
            r == self@.resync_required,
    {
        self.resync_required
    }

    pub fn revision(&self) -> (r: u64)
        ensures
            r == self@.revision,
    {
        self.revision
    }

    /// Whether the entries after `since` may be asked for now.
    pub fn validate_request(&self, since: Option<&str>, limits: RuntimeLimits) -> (r: Result<
        (),
        SessionSyncError,
    >)
        ensures
            match self@.request_refusal(borrowed_view(since), limits) {
                Some(error) => r is Err && r->Err_0@ == error,
                None => r is Ok,
            },
    {
        match validate_cursor(since, limits) {
            Ok(()) => {},
            Err(error) => {
                return Err(error);
            },
        }
        if self.resync_required && since.is_some() {
            return Err(SessionSyncError::ResyncRequired);
        }
        let actual = owned(since);
        if self.initialized && !self.resync_required && !same_optional(&actual, &self.cursor) {
            return Err(
                SessionSyncError::CursorMismatch { expected: copy_optional(&self.cursor), actual },
            );
        }
        Ok(())
    }

    /// Sets the cursor after the session was read from disk.
    pub fn seed(
        &mut self,
        cursor: Option<String>,
        leaf_id: Option<String>,
        limits: RuntimeLimits,
    ) -> (r: Result<(), SessionSyncError>)
        ensures
            match SessionSyncView::seed_refusal(
                optional_view(cursor),
                optional_view(leaf_id),
                limits,
            ) {
                Some(error) => r is Err && r->Err_0@ == error && final(self)@ == old(self)@,
                None => r is Ok && final(self)@ == old(self)@.seeded(
                    optional_view(cursor),
                    optional_view(leaf_id),
                ),
            },
    {
        match validate_cursor(borrow_optional(&cursor), limits) {
            Ok(()) => {},
            Err(error) => {
                return Err(error);
            },
        }
        match validate_cursor(borrow_optional(&leaf_id), limits) {
            Ok(()) => {},
            Err(error) => {
                return Err(error);
            },
        }
        self.initialized = true;
        self.cursor = cursor;
        self.leaf_id = leaf_id;
        self.resync_required = false;
        self.revision = self.revision.saturating_add(1);
        Ok(())
    }

    /// Moves the cursor behind a page of appended entries.
    pub fn apply_page(
        &mut self,
        requested_since: Option<&str>,
        page: &SessionEntriesPage,
        limits: RuntimeLimits,
    ) -> (r: Result<SessionSyncApplied, SessionSyncError>)
        ensures
            match old(self)@.page_refusal(borrowed_view(requested_since), page@, limits) {
                Some(error) => r is Err && r->Err_0@ == error && final(self)@ == old(self)@,
                None => r == Ok::<SessionSyncApplied, SessionSyncError>(
                    old(self)@.page_report(borrowed_view(requested_since), page@),
                ) && final(self)@ == old(self)@.page_applied(
                    borrowed_view(requested_since),
                    page@,
                ),
            },
    {
        match self.validate_request(requested_since, limits) {
            Ok(()) => {},
            Err(error) => {
                return Err(error);
            },
        }
        match find_repeated(&page.entries) {
            Some(id) => {
                return Err(SessionSyncError::DuplicateEntryId { id });
            },
            None => {},
        }
        let count: usize = page.entries.len();
        let cursor = if count > 0 {
            Some(page.entries[count - 1].id.clone())
        } else if !self.initialized {
            owned(requested_since)
        } else {
            copy_optional(&self.cursor)
        };
        let cursor_changed = !same_optional(&cursor, &self.cursor);
        let leaf_changed = !same_optional(&page.leaf_id, &self.leaf_id);
        self.cursor = cursor;
        self.leaf_id = copy_optional(&page.leaf_id);
        self.initialized = true;
        self.resync_required = false;
        if cursor_changed || leaf_changed || count > 0 {
            self.revision = self.revision.saturating_add(1);
        }
        Ok(
            SessionSyncApplied {
                appended_entries: count,
                cursor_changed,
                leaf_changed,
                revision: self.revision,
            },
        )
    }

    /// Pi no longer knows the cursor: nothing incremental until a new seed.
    pub fn mark_resync_required(&mut self, rejected_since: &str, limits: RuntimeLimits) -> (r:
        Result<SessionSyncResync, SessionSyncError>)
        ensures
            match cursor_refusal(Some(rejected_since@), limits) {
                Some(error) => r is Err && r->Err_0@ == error && final(self)@ == old(self)@,
                None => r is Ok && r->Ok_0.rejected_since@ == rejected_since@ && r->Ok_0.revision
                    == final(self)@.revision && final(self)@ == old(self)@.resync(),
            },
    {
        match validate_cursor(Some(rejected_since), limits) {
            Ok(()) => {},
            Err(error) => {
                return Err(error);
            },
        }
        self.resync_required = true;
        self.revision = self.revision.saturating_add(1);
        Ok(
            SessionSyncResync {
                rejected_since: rejected_since.to_owned(),
                revision: self.revision,
            },
        )
    }

    /// A page was too large to take over: the cursor stays known, but nothing
    /// incremental follows until a new seed.
    pub fn mark_projection_resync_required(&mut self) -> (revision: u64)
        ensures
            final(self)@ == old(self)@.resync(),
            revision == final(self)@.revision,
    {
        self.resync_required = true;
        self.revision = self.revision.saturating_add(1);
        self.revision
    }

    pub fn reset_for_session_replacement(&mut self)
        ensures
            final(self)@ == SessionSyncView::unknown(),
    {
        *self = SessionSyncState::default();
    }
}

/// Once a resync is due, no incremental request is accepted until a seed, and a
/// seed makes its own cursor acceptable.
pub proof fn resync_blocks_until_seed(
    sync: SessionSyncView,
    since: Seq<char>,
    cursor: Seq<char>,
    limits: RuntimeLimits,
)
    requires
        cursor_refusal(Some(since), limits) is None,
        cursor_refusal(Some(cursor), limits) is None,
    ensures
        sync.resync().request_refusal(Some(since), limits) == Some(
            SessionSyncErrorView::ResyncRequired,
        ),
        sync.resync().cursor == sync.cursor,
        sync.resync().leaf_id == sync.leaf_id,
        sync.resync().seeded(Some(cursor), None).request_refusal(Some(cursor), limits) is None,
{
}

/// An applied page leaves the cursor at which the next request has to start.
pub proof fn applied_page_is_continued(
    sync: SessionSyncView,
    since: Option<Seq<char>>,
    page: SessionEntriesPageView,
    limits: RuntimeLimits,
)
    requires
        sync.page_refusal(since, page, limits) is None,
        cursor_refusal(sync.page_cursor(since, page), limits) is None,
    ensures
        sync.page_applied(since, page).request_refusal(sync.page_cursor(since, page), limits)
            is None,
        sync.page_applied(since, page).revision >= sync.revision,
{
}

} // verus!
