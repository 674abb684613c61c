//! Pages of the sessions of a project, newest first.
use vstd::bytes::*;
use vstd::prelude::*;
use vstd::string::*;
use vstd::utf8::*;

use crate::digest::{
    digest_hex, hex_text, hex_text_is_a_digest, is_digest, sha256, sha256_of, valid_digest,
};
use crate::json::{
    json_parsed, json_text_at, json_text_bytes, json_text_is, json_text_len, json_tree, parse_json,
    JsonTree,
};
use crate::keyed::{order_text, text_before, KeyOrder, OrderedKey};
use crate::limits::RuntimeLimits;
use crate::numbers::{decimal, decimal_text};
use crate::paths::{path_place, place_of};
use crate::reverse_lines::copy_bytes;
use crate::rpc::counted;
use crate::session_history::{
    first_line_end, first_line_len, json_bool_len, json_optional_len,
};
use crate::session_preview::{
    entry_found, entry_matches, file_name, file_name_of, lowercase, lowercased, CatalogEntryView,
    SessionCatalogEntry,
};
use crate::text::{
    byte_len, chars_of, optional_view, same_text, sat_add_usize, stands_at,
    text_bytes, trim_text, trimmed,
};

verus! {

#[derive(Clone, Copy, Debug, PartialEq, Eq, Structural)]
pub enum SessionDirectorySource {
    Environment,
    Settings,
    Default,
}

#[derive(Clone, Debug, PartialEq, Eq)]
pub struct SessionCatalogCursor {
    pub modified_unix_ms: u64,
    pub path: String,
    pub scope_sha256: String,
    pub snapshot_sha256: String,
}

/// Model of a [`SessionCatalogCursor`].
pub struct CatalogCursorView {
    pub modified_unix_ms: u64,
    pub path: Seq<char>,
    pub scope_sha256: Seq<char>,
    pub snapshot_sha256: Seq<char>,
}

impl View for SessionCatalogCursor {
    type V = CatalogCursorView;

    open spec fn view(&self) -> CatalogCursorView {
        CatalogCursorView {
            modified_unix_ms: self.modified_unix_ms,
            path: self.path@,
            scope_sha256: self.scope_sha256@,
            snapshot_sha256: self.snapshot_sha256@,
        }
    }
}

/// The model of an optional cursor.
pub open spec fn catalog_cursor_option(cursor: Option<SessionCatalogCursor>) -> Option<
    CatalogCursorView,
> {
    match cursor {
        Some(cursor) => Some(cursor@),
        None => None,
    }
}

#[derive(Clone, Debug, PartialEq, Eq)]
pub struct ResolvedSessionDirectory {
    pub path: String,
    pub source: SessionDirectorySource,
}

#[derive(Clone, Debug, PartialEq, Eq)]
pub struct SessionCatalogPage {
    pub sessions: Vec<SessionCatalogEntry>,
    pub candidate_files: usize,
    pub scanned_files: usize,
    pub truncated: bool,
    pub next_cursor: Option<SessionCatalogCursor>,
    pub directory_source: SessionDirectorySource,
}

/// Model of a [`SessionCatalogPage`].
pub struct CatalogPageView {
    pub sessions: Seq<CatalogEntryView>,
    pub candidate_files: usize,
    pub scanned_files: usize,
    pub truncated: bool,
    pub next_cursor: Option<CatalogCursorView>,
    pub directory_source: SessionDirectorySource,
}

/// The models of a list of entries.
pub open spec fn entry_views(entries: Seq<SessionCatalogEntry>) -> Seq<CatalogEntryView> {
    entries.map_values(|entry: SessionCatalogEntry| entry@)
}

impl View for SessionCatalogPage {
    type V = CatalogPageView;

    open spec fn view(&self) -> CatalogPageView {
        CatalogPageView {
            sessions: entry_views(self.sessions@),
            candidate_files: self.candidate_files,
            scanned_files: self.scanned_files,
            truncated: self.truncated,
            next_cursor: catalog_cursor_option(self.next_cursor),
            directory_source: self.directory_source,
        }
    }
}

#[derive(Debug, PartialEq, Eq)]
pub enum SessionCatalogError {
    ProjectPath { detail: String },
    HomeUnavailable,
    TildeWithoutHome { value: String },
    SettingsTooLarge { path: String, actual: usize, limit: usize },
    ReadSettings { path: String, detail: String },
    QueryTooLarge { actual: usize, limit: usize },
    CursorTooLarge { actual: usize, limit: usize },
    InvalidCursorDigest,
    CursorScopeMismatch,
    CursorPositionMissing,
    CatalogChanged,
    PageEntryTooLarge { actual: usize, limit: usize },
    ReadDirectory { path: String, detail: String },
    InvalidProjectSession { path: String },
    UnterminatedSessionTail { path: String },
}

/// The query as it is searched for: without white space around it and in lower
/// case, if there is anything to search for.
pub open spec fn searched(query: Option<&str>) -> Option<Seq<char>> {
    match query {
        Some(text) => if trimmed(text@).len() == 0 {
            None
        } else {
            Some(lowercased(trimmed(text@)))
        },
        None => None,
    }
}

/// What is wrong with a request for a page, if anything is.
pub open spec fn request_refusal(
    query: Option<&str>,
    cursor: Option<CatalogCursorView>,
    limits: RuntimeLimits,
) -> Option<SessionCatalogError> {
    if query is Some && trimmed(query->0@).len() > 0 && byte_len(trimmed(query->0@))
        > limits.max_session_catalog_query_bytes {
        Some(
            SessionCatalogError::QueryTooLarge {
                actual: byte_len(trimmed(query->0@)) as usize,
                limit: limits.max_session_catalog_query_bytes,
            },
        )
    } else {
        match cursor {
            Some(cursor) => if byte_len(cursor.path) > limits.max_session_cursor_bytes {
                Some(
                    SessionCatalogError::CursorTooLarge {
                        actual: byte_len(cursor.path) as usize,
                        limit: limits.max_session_cursor_bytes,
                    },
                )
            } else if !is_digest(cursor.scope_sha256) || !is_digest(cursor.snapshot_sha256) {
                Some(SessionCatalogError::InvalidCursorDigest)
            } else {
                None
            },
            None => None,
        }
    }
}

/// Checks a request for a page, and gives the query to search for.
pub fn prepare_request(
    query: Option<&str>,
    cursor: Option<&SessionCatalogCursor>,
    limits: RuntimeLimits,
) -> (r: Result<Option<String>, SessionCatalogError>)
    ensures
        match request_refusal(
            query,
            match cursor {
                Some(cursor) => Some(cursor@),
                None => None,
            },
            limits,
        ) {
            Some(error) => r == Err::<Option<String>, SessionCatalogError>(error),
            None => r is Ok && optional_view(r->Ok_0) == searched(query),
        },
{
    let mut lower: Option<String> = None;
    match query {
        Some(text) => {
            let text = trim_text(text);
            if !text.as_str().is_empty() {
                let actual: usize = text_bytes(text.as_str());
                if actual > limits.max_session_catalog_query_bytes {
                    return Err(
                        SessionCatalogError::QueryTooLarge {
                            actual,
                            limit: limits.max_session_catalog_query_bytes,
                        },
                    );
                }
                lower = Some(lowercase(text.as_str()));
            }
        },
        None => {},
    }
    match cursor {
        Some(cursor) => {
            let actual: usize = text_bytes(cursor.path.as_str());
            if actual > limits.max_session_cursor_bytes {
                return Err(
                    SessionCatalogError::CursorTooLarge {
                        actual,
                        limit: limits.max_session_cursor_bytes,
                    },
                );
            }
            if !valid_digest(cursor.scope_sha256.as_str()) || !valid_digest(
                cursor.snapshot_sha256.as_str(),
            ) {
                return Err(SessionCatalogError::InvalidCursorDigest);
            }
        },
        None => {},
    }
    Ok(lower)
}

/// What a scope is digested from: project, directory and query, each ended by a
/// zero byte but the last.
pub open spec fn scope_bytes(
    project_root: Seq<char>,
    directory: Seq<char>,
    query: Option<Seq<char>>,
) -> Seq<u8> {
    encode_utf8("pi-wizard-session-catalog-scope-v1\0"@) + encode_utf8(project_root) + seq![0u8]
        + encode_utf8(directory) + seq![0u8] + (match query {
        Some(text) => encode_utf8(text),
        None => Seq::empty(),
    })
}

/// The digest of a scope.
pub open spec fn scope_digest(
    project_root: Seq<char>,
    directory: Seq<char>,
    query: Option<Seq<char>>,
) -> Seq<char> {
    hex_text(sha256(scope_bytes(project_root, directory, query)))
}

fn append_text(bytes: &mut Vec<u8>, text: &str)
    ensures
        final(bytes)@ == old(bytes)@ + encode_utf8(text@),
{
    let mut added = copy_bytes(text.as_bytes(), 0, text.as_bytes().len());
    assert(added@ =~= encode_utf8(text@));
    bytes.append(&mut added);
}

pub fn catalog_scope_sha256(project_root: &str, directory: &str, query: Option<&str>) -> (r: String)
    ensures
        r@ == scope_digest(
            project_root@,
            directory@,
            match query {
                Some(text) => Some(text@),
                None => None,
            },
        ),
        is_digest(r@),
{
    let mut bytes: Vec<u8> = Vec::new();
    append_text(&mut bytes, "pi-wizard-session-catalog-scope-v1\0");
    append_text(&mut bytes, project_root);
    bytes.push(0);
    append_text(&mut bytes, directory);
    bytes.push(0);
    match query {
        Some(text) => {
            append_text(&mut bytes, text);
        },
        None => {},
    }
    assert(bytes@ =~= scope_bytes(
        project_root@,
        directory@,
        match query {
            Some(text) => Some(text@),
            None => None,
        },
    ));
    let digest = sha256_of(bytes.as_slice());
    proof {
        hex_text_is_a_digest(digest@);
    }
    digest_hex(digest.as_slice())
}

/// What one candidate is digested from: its time of change and its path.
pub open spec fn entry_bytes(modified_unix_ms: u64, path: Seq<char>) -> Seq<u8> {
    encode_utf8("pi-wizard-session-catalog-entry-v1\0"@) + spec_u64_to_le_bytes(modified_unix_ms)
        + encode_utf8(path)
}

/// Byte by byte, `a` or `b` but not both.
pub open spec fn xor_bytes(a: Seq<u8>, b: Seq<u8>) -> Seq<u8> {
    Seq::new(a.len(), |i: int| a[i] ^ b[i])
}

/// The accumulated digest with one more candidate.
pub open spec fn with_entry_digest(
    accumulator: Seq<u8>,
    modified_unix_ms: u64,
    path: Seq<char>,
) -> Seq<u8> {
    xor_bytes(accumulator, sha256(entry_bytes(modified_unix_ms, path)))
}

pub fn xor_catalog_entry_digest(accumulator: &mut Vec<u8>, modified_unix_ms: u64, path: &str)
    requires
        old(accumulator)@.len() == 32,
    ensures
        final(accumulator)@ == with_entry_digest(old(accumulator)@, modified_unix_ms, path@),
        final(accumulator)@.len() == 32,
{
    let mut bytes: Vec<u8> = Vec::new();
    append_text(&mut bytes, "pi-wizard-session-catalog-entry-v1\0");
    let mut time = u64_to_le_bytes(modified_unix_ms);
    bytes.append(&mut time);
    append_text(&mut bytes, path);
    assert(bytes@ =~= entry_bytes(modified_unix_ms, path@));
    let digest = sha256_of(bytes.as_slice());
    xor_digest(accumulator, &digest);
}

/// Mixes a digest into an accumulated one.
pub fn xor_digest(accumulator: &mut Vec<u8>, digest: &Vec<u8>)
    requires
        old(accumulator)@.len() == digest@.len(),
    ensures
        final(accumulator)@ == xor_bytes(old(accumulator)@, digest@),
        final(accumulator)@.len() == old(accumulator)@.len(),
{
    let ghost before = accumulator@;
    let n: usize = accumulator.len();
    let mut mixed: Vec<u8> = Vec::new();
    let mut i: usize = 0;
    while i < n
        invariant
            i <= n,
            before.len() == n,
            accumulator@ == before,
            digest@.len() == n,
            mixed@ =~= xor_bytes(before, digest@).take(i as int),
        decreases n - i,
    {
        mixed.push(accumulator[i] ^ digest[i]);
        i += 1;
    }
    assert(mixed@ =~= xor_bytes(before, digest@));
    *accumulator = mixed;
}

/// What a snapshot is digested from: the accumulated digest and the number of
/// candidates, in as many bytes as a `usize` has, the lowest first.
pub open spec fn snapshot_bytes(entry_xor: Seq<u8>, candidate_files: usize) -> Seq<u8> {
    encode_utf8("pi-wizard-session-catalog-snapshot-v1\0"@) + entry_xor + spec_u64_to_le_bytes(
        candidate_files as u64,
    ).take((usize::BITS / 8) as int)
}

/// The digest of a snapshot.
pub open spec fn snapshot_digest(entry_xor: Seq<u8>, candidate_files: usize) -> Seq<char> {
    hex_text(sha256(snapshot_bytes(entry_xor, candidate_files)))
}

pub fn catalog_snapshot_sha256(entry_xor: &Vec<u8>, candidate_files: usize) -> (r: String)
    ensures
        r@ == snapshot_digest(entry_xor@, candidate_files),
        is_digest(r@),
{
    let mut bytes: Vec<u8> = Vec::new();
    append_text(&mut bytes, "pi-wizard-session-catalog-snapshot-v1\0");
    let mut mixed = copy_bytes(entry_xor.as_slice(), 0, entry_xor.len());
    assert(mixed@ =~= entry_xor@);
    bytes.append(&mut mixed);
    let mut count = u64_to_le_bytes(candidate_files as u64);
    count.truncate((usize::BITS / 8) as usize);
    assert(count@ =~= spec_u64_to_le_bytes(candidate_files as u64).take(
        (usize::BITS / 8) as int,
    ));
    bytes.append(&mut count);
    assert(bytes@ =~= snapshot_bytes(entry_xor@, candidate_files));
    let digest = sha256_of(bytes.as_slice());
    proof {
        hex_text_is_a_digest(digest@);
    }
    digest_hex(digest.as_slice())
}

/// The snapshot does not depend on the order in which a directory lists its
/// files: two candidates in either order accumulate to the same.
pub proof fn snapshot_ignores_listing_order(
    accumulator: Seq<u8>,
    first_ms: u64,
    first: Seq<char>,
    second_ms: u64,
    second: Seq<char>,
)
    requires
        accumulator.len() == 32,
    ensures
        with_entry_digest(
            with_entry_digest(accumulator, first_ms, first),
            second_ms,
            second,
        ) == with_entry_digest(
            with_entry_digest(accumulator, second_ms, second),
            first_ms,
            first,
        ),
{
    let a = sha256(entry_bytes(first_ms, first));
    let b = sha256(entry_bytes(second_ms, second));
    let left = xor_bytes(xor_bytes(accumulator, a), b);
    let right = xor_bytes(xor_bytes(accumulator, b), a);
    assert forall|i: int| 0 <= i < 32 implies left[i] == right[i] by {
        let x = accumulator[i];
        let y = a[i];
        let z = b[i];
        assert((x ^ y) ^ z == (x ^ z) ^ y) by (bit_vector);
    }
    assert(left =~= right);
}

/// A session file that may be shown.
#[derive(Debug, PartialEq, Eq)]
pub struct CatalogCandidate {
    pub modified_unix_ms: u64,
    pub path: String,
    /// The place of the path among others.
    pub place: String,
}

/// Model of a [`CatalogCandidate`].
pub struct CandidateView {
    pub modified_unix_ms: u64,
    pub path: Seq<char>,
    pub place: Seq<char>,
}

impl View for CatalogCandidate {
    type V = CandidateView;

    open spec fn view(&self) -> CandidateView {
        CandidateView {
            modified_unix_ms: self.modified_unix_ms,
            path: self.path@,
            place: self.place@,
        }
    }
}

impl CandidateView {
    /// The candidate of a file.
    pub open spec fn of(modified_unix_ms: u64, path: Seq<char>) -> Self {
        CandidateView { modified_unix_ms, path, place: path_place(path) }
    }

    /// Whether the two stand at the same position of a catalog.
    pub open spec fn level_with(self, other: Self) -> bool {
        self.modified_unix_ms == other.modified_unix_ms && self.place == other.place
    }

    /// Whether this candidate comes before `other` in a catalog: it changed later
    /// or, at the same time, its path comes after.
    pub open spec fn newer(self, other: Self) -> bool {
        self.modified_unix_ms > other.modified_unix_ms || (self.modified_unix_ms
            == other.modified_unix_ms && text_before(other.place, self.place))
    }
}

/// The candidates with one more, the newest first.
pub open spec fn with_candidate(
    candidates: Seq<CandidateView>,
    candidate: CandidateView,
) -> Seq<CandidateView>
    decreases candidates.len(),
{
    if candidates.len() == 0 || candidate.newer(candidates[0]) {
        seq![candidate] + candidates
    } else {
        seq![candidates[0]] + with_candidate(candidates.drop_first(), candidate)
    }
}

/// The newest `limit` of the candidates.
pub open spec fn newest(candidates: Seq<CandidateView>, limit: usize) -> Seq<CandidateView> {
    if candidates.len() <= limit {
        candidates
    } else {
        candidates.take(limit as int)
    }
}

/// Where a page continues.
pub open spec fn cursor_position(cursor: CatalogCursorView) -> CandidateView {
    CandidateView::of(cursor.modified_unix_ms, cursor.path)
}

/// How many candidates are kept while a directory is listed.
pub open spec fn window_limit(limits: RuntimeLimits) -> usize {
    let scans = if limits.max_session_catalog_scan_files * 8 > usize::MAX {
        usize::MAX
    } else {
        (limits.max_session_catalog_scan_files * 8) as usize
    };
    let window: usize = if scans < 1 {
        1
    } else {
        scans
    };
    if limits.max_session_catalog_candidates < window {
        limits.max_session_catalog_candidates
    } else {
        window
    }
}

/// Model of a [`CatalogWindow`].
pub struct CatalogWindowView {
    pub scope_sha256: Seq<char>,
    pub cursor: Option<CatalogCursorView>,
    pub query: Option<Seq<char>>,
    pub directory_source: SessionDirectorySource,
    pub limits: RuntimeLimits,
    /// The candidates that are kept, the newest first.
    pub candidates: Seq<CandidateView>,
    pub candidate_files: usize,
    pub candidates_after_cursor: usize,
    pub snapshot_xor: Seq<u8>,
    pub cursor_seen: bool,
}

impl CatalogWindowView {
    /// Before anything was listed.
    pub open spec fn begun(
        scope_sha256: Seq<char>,
        cursor: Option<CatalogCursorView>,
        query: Option<Seq<char>>,
        directory_source: SessionDirectorySource,
        limits: RuntimeLimits,
    ) -> Self {
        CatalogWindowView {
            scope_sha256,
            cursor,
            query,
            directory_source,
            limits,
            candidates: Seq::empty(),
            candidate_files: 0,
            candidates_after_cursor: 0,
            snapshot_xor: Seq::new(32, |i: int| 0u8),
            cursor_seen: cursor is None,
        }
    }

    /// Whether a candidate belongs to pages before this one.
    pub open spec fn already_shown(self, candidate: CandidateView) -> bool {
        match self.cursor {
            Some(cursor) => candidate.newer(cursor_position(cursor)) || candidate.level_with(
                cursor_position(cursor),
            ),
            None => false,
        }
    }

    /// After one more candidate.
    pub open spec fn listed(self, candidate: CandidateView) -> Self {
        let counted_view = CatalogWindowView {
            candidate_files: sat_add_usize(self.candidate_files, 1),
            snapshot_xor: with_entry_digest(
                self.snapshot_xor,
                candidate.modified_unix_ms,
                candidate.path,
            ),
            cursor_seen: self.cursor_seen || (self.cursor is Some && candidate.level_with(
                cursor_position(self.cursor->0),
            )),
            ..self
        };
        if self.already_shown(candidate) {
            counted_view
        } else {
            CatalogWindowView {
                candidates_after_cursor: sat_add_usize(self.candidates_after_cursor, 1),
                candidates: newest(
                    with_candidate(self.candidates, candidate),
                    window_limit(self.limits),
                ),
                ..counted_view
            }
        }
    }

    /// What stands against going on with the listed candidates, if anything does.
    pub open spec fn refusal(self) -> Option<SessionCatalogError> {
        let snapshot = snapshot_digest(self.snapshot_xor, self.candidate_files);
        if self.cursor is Some && self.cursor->0.snapshot_sha256 != snapshot {
            Some(SessionCatalogError::CatalogChanged)
        } else if !self.cursor_seen {
            Some(SessionCatalogError::CursorPositionMissing)
        } else {
            None
        }
    }
}

/// The newest candidates of a directory that lie behind a cursor.
#[derive(Debug)]
pub struct CatalogWindow {
    scope_sha256: String,
    cursor: Option<SessionCatalogCursor>,
    query: Option<String>,
    directory_source: SessionDirectorySource,
    limits: RuntimeLimits,
    candidates: Vec<CatalogCandidate>,
    candidate_files: usize,
    candidates_after_cursor: usize,
    snapshot_xor: Vec<u8>,
    cursor_seen: bool,
}

/// The models of a list of candidates.
pub open spec fn candidate_views(candidates: Seq<CatalogCandidate>) -> Seq<CandidateView> {
    candidates.map_values(|candidate: CatalogCandidate| candidate@)
}

impl View for CatalogWindow {
    type V = CatalogWindowView;

    closed spec fn view(&self) -> CatalogWindowView {
        CatalogWindowView {
            scope_sha256: self.scope_sha256@,
            cursor: catalog_cursor_option(self.cursor),
            query: optional_view(self.query),
            directory_source: self.directory_source,
            limits: self.limits,
            candidates: candidate_views(self.candidates@),
            candidate_files: self.candidate_files,
            candidates_after_cursor: self.candidates_after_cursor,
            snapshot_xor: self.snapshot_xor@,
            cursor_seen: self.cursor_seen,
        }
    }
}

fn is_newer(modified_unix_ms: u64, place: &str, other_ms: u64, other: &str) -> (r: bool)
    ensures
        r == (modified_unix_ms > other_ms || (modified_unix_ms == other_ms && text_before(
            other@,
            place@,
        ))),
{
    if modified_unix_ms > other_ms {
        true
    } else if modified_unix_ms < other_ms {
        false
    } else {
        order_text(other, place) == KeyOrder::Before
    }
}

proof fn lemma_with_candidate(
    candidates: Seq<CandidateView>,
    candidate: CandidateView,
    at: int,
)
    requires
        0 <= at <= candidates.len(),
        forall|k: int| 0 <= k < at ==> !candidate.newer(#[trigger] candidates[k]),
        at < candidates.len() ==> candidate.newer(candidates[at]),
    ensures
        with_candidate(candidates, candidate) == candidates.insert(at, candidate),
    decreases candidates.len(),
{
    if at == 0 {
        assert(seq![candidate] + candidates =~= candidates.insert(0, candidate));
    } else {
        let rest = candidates.drop_first();
        assert forall|k: int| 0 <= k < at - 1 implies !candidate.newer(#[trigger] rest[k]) by {
            assert(rest[k] == candidates[k + 1]);
        }
        assert(!candidate.newer(candidates[0]));
        lemma_with_candidate(rest, candidate, at - 1);
        assert(with_candidate(candidates, candidate) =~= candidates.insert(at, candidate));
    }
}

impl CatalogWindow {
    /// Starts to list a directory. A cursor of another scope is refused.
    pub fn begin(
        project_root: &str,
        directory: &ResolvedSessionDirectory,
        query: Option<String>,
        cursor: Option<SessionCatalogCursor>,
        limits: RuntimeLimits,
    ) -> (r: Result<Self, SessionCatalogError>)
        ensures
            ({
                let scope = scope_digest(project_root@, directory.path@, optional_view(query));
                if cursor is Some && cursor->0.scope_sha256@ != scope {
                    r == Err::<Self, SessionCatalogError>(SessionCatalogError::CursorScopeMismatch)
                } else {
                    r is Ok && r->Ok_0@ == CatalogWindowView::begun(
                        scope,
                        catalog_cursor_option(cursor),
                        optional_view(query),
                        directory.source,
                        limits,
                    )
                }
            }),
    {
        let query_text = match &query {
            Some(text) => Some(text.as_str()),
            None => None,
        };
        let scope_sha256 = catalog_scope_sha256(project_root, directory.path.as_str(), query_text);
        match &cursor {
            Some(cursor) => {
                if !same_text(cursor.scope_sha256.as_str(), scope_sha256.as_str()) {
                    return Err(SessionCatalogError::CursorScopeMismatch);
                }
            },
            None => {},
        }
        let cursor_seen = cursor.is_none();
        let candidates: Vec<CatalogCandidate> = Vec::new();
        assert(candidate_views(candidates@) =~= Seq::<CandidateView>::empty());
        let mut snapshot_xor: Vec<u8> = Vec::new();
        let mut i: usize = 0;
        while i < 32
            invariant
                i <= 32,
                snapshot_xor@ =~= Seq::new(i as nat, |k: int| 0u8),
            decreases 32 - i,
        {
            snapshot_xor.push(0);
            i += 1;
        }
        assert(snapshot_xor@ =~= Seq::new(32, |i: int| 0u8));
        Ok(
            CatalogWindow {
                scope_sha256,
                cursor,
                query,
                directory_source: directory.source,
                limits,
                candidates,
                candidate_files: 0,
                candidates_after_cursor: 0,
                snapshot_xor,
                cursor_seen,
            },
        )
    }

    /// Ends the listing of a directory that does not exist: there are no sessions
    /// yet, or those of earlier pages are gone.
    pub fn directory_missing(self) -> (r: Result<SessionCatalogPage, SessionCatalogError>)
        ensures
            match self@.cursor {
                Some(_) => r == Err::<SessionCatalogPage, SessionCatalogError>(
                    SessionCatalogError::CatalogChanged,
                ),
                None => r is Ok && r->Ok_0@ == (CatalogPageView {
                    sessions: Seq::empty(),
                    candidate_files: 0,
                    scanned_files: 0,
                    truncated: false,
                    next_cursor: None,
                    directory_source: self@.directory_source,
                }),
            },
    {
        if self.cursor.is_some() {
            return Err(SessionCatalogError::CatalogChanged);
        }
        let sessions: Vec<SessionCatalogEntry> = Vec::new();
        assert(entry_views(sessions@) =~= Seq::<CatalogEntryView>::empty());
        Ok(
            SessionCatalogPage {
                sessions,
                candidate_files: 0,
                scanned_files: 0,
                truncated: false,
                next_cursor: None,
                directory_source: self.directory_source,
            },
        )
    }

    /// Takes one session file that the directory lists.
    pub fn list(&mut self, modified_unix_ms: u64, path: String)
        requires
            old(self)@.snapshot_xor.len() == 32,
        ensures
            final(self)@ == old(self)@.listed(CandidateView::of(modified_unix_ms, path@)),
            final(self)@.snapshot_xor.len() == 32,
    {
        let ghost candidate = CandidateView::of(modified_unix_ms, path@);
        let place = place_of(path.as_str());
        let ghost start = self@;
        self.candidate_files = self.candidate_files.saturating_add(1);
        xor_catalog_entry_digest(&mut self.snapshot_xor, modified_unix_ms, path.as_str());
        let mut shown = false;
        match &self.cursor {
            Some(cursor) => {
                let cursor_place = place_of(cursor.path.as_str());
                let here = modified_unix_ms == cursor.modified_unix_ms && same_text(
                    place.as_str(),
                    cursor_place.as_str(),
                );
                assert(here == candidate.level_with(cursor_position(cursor@)));
                if here {
                    self.cursor_seen = true;
                    shown = true;
                } else {
                    shown =
                    is_newer(
                        modified_unix_ms,
                        place.as_str(),
                        cursor.modified_unix_ms,
                        cursor_place.as_str(),
                    );
                }
            },
            None => {},
        }
        if shown {
            return;
        }
        self.candidates_after_cursor = self.candidates_after_cursor.saturating_add(1);
        let limit: usize = self.window_size();
        let ghost before = candidate_views(self.candidates@);
        let mut at: usize = 0;
        while at < self.candidates.len() && !is_newer(
            modified_unix_ms,
            place.as_str(),
            self.candidates[at].modified_unix_ms,
            self.candidates[at].place.as_str(),
        )
            invariant
                at <= self.candidates@.len(),
                before == candidate_views(self.candidates@),
                candidate == CandidateView::of(modified_unix_ms, path@),
                place@ == candidate.place,
                forall|k: int| 0 <= k < at ==> !candidate.newer(#[trigger] before[k]),
            decreases self.candidates@.len() - at,
        {
            assert(!candidate.newer(before[at as int]));
            at += 1;
        }
        proof {
            if at < before.len() {
                assert(candidate.newer(before[at as int]));
            }
            lemma_with_candidate(before, candidate, at as int);
        }
        self.candidates.insert(at, CatalogCandidate { modified_unix_ms, path, place });
        assert(candidate_views(self.candidates@) =~= with_candidate(before, candidate));
        if self.candidates.len() > limit {
            let ghost full = self.candidates@;
            self.candidates.truncate(limit);
            assert(candidate_views(self.candidates@) =~= candidate_views(full).take(limit as int));
        }
    }

    fn window_size(&self) -> (n: usize)
        ensures
            n == window_limit(self@.limits),
    {
        let scans: usize = if self.limits.max_session_catalog_scan_files as u128 * 8
            > usize::MAX as u128 {
            usize::MAX
        } else {
            self.limits.max_session_catalog_scan_files * 8
        };
        let window: usize = if scans < 1 {
            1
        } else {
            scans
        };
        if self.limits.max_session_catalog_candidates < window {
            self.limits.max_session_catalog_candidates
        } else {
            window
        }
    }

    /// Ends the listing. A cursor of an older listing, or one that points at
    /// nothing, is refused.
    pub fn close(self) -> (r: Result<CatalogScan, SessionCatalogError>)
        ensures
            match self@.refusal() {
                Some(error) => r == Err::<CatalogScan, SessionCatalogError>(error),
                None => r is Ok && r->Ok_0@ == CatalogScanView::of(self@),
            },
    {
        let snapshot_sha256 = catalog_snapshot_sha256(&self.snapshot_xor, self.candidate_files);
        match &self.cursor {
            Some(cursor) => {
                if !same_text(cursor.snapshot_sha256.as_str(), snapshot_sha256.as_str()) {
                    return Err(SessionCatalogError::CatalogChanged);
                }
            },
            None => {},
        }
        if !self.cursor_seen {
            return Err(SessionCatalogError::CursorPositionMissing);
        }
        let window_has_older = self.candidates_after_cursor > self.candidates.len();
        let sessions: Vec<SessionCatalogEntry> = Vec::new();
        assert(entry_views(sessions@) =~= Seq::<CatalogEntryView>::empty());
        Ok(
            CatalogScan {
                scope_sha256: self.scope_sha256,
                snapshot_sha256,
                query: self.query,
                directory_source: self.directory_source,
                limits: self.limits,
                candidates: self.candidates,
                next: 0,
                candidate_files: self.candidate_files,
                window_has_older,
                sessions,
                page_bytes: 0,
                scanned_files: 0,
                consumed: None,
            },
        )
    }
}

/// Whether candidates stand newest first.
pub open spec fn newest_first(candidates: Seq<CandidateView>) -> bool {
    forall|i: int, j: int|
        0 <= i < j < candidates.len() ==> !(#[trigger] candidates[j]).newer(
            #[trigger] candidates[i],
        )
}

/// Two candidates are never each newer than the other, and of three the order
/// carries over.
pub proof fn newer_is_an_order(a: CandidateView, b: CandidateView, c: CandidateView)
    ensures
        !(a.newer(b) && b.newer(a)),
        a.newer(b) && b.newer(c) ==> a.newer(c),
        a.newer(b) || b.newer(a) || a.level_with(b),
        !(a.newer(b) && a.level_with(b)),
        !a.newer(b) && !b.newer(c) ==> !a.newer(c),
{
    <String as OrderedKey>::order_is_total(a.place, b.place);
    <String as OrderedKey>::order_is_total(b.place, c.place);
    <String as OrderedKey>::order_is_total(a.place, c.place);
    if text_before(b.place, a.place) && text_before(c.place, b.place) {
        <String as OrderedKey>::order_is_transitive(c.place, b.place, a.place);
    }
    if text_before(a.place, b.place) && text_before(b.place, c.place) {
        <String as OrderedKey>::order_is_transitive(a.place, b.place, c.place);
    }
}

proof fn lemma_insert_sorted(candidates: Seq<CandidateView>, candidate: CandidateView)
    requires
        newest_first(candidates),
    ensures
        newest_first(with_candidate(candidates, candidate)),
        with_candidate(candidates, candidate).len() == candidates.len() + 1,
        with_candidate(candidates, candidate).contains(candidate),
        forall|c: CandidateView| #[trigger]
            with_candidate(candidates, candidate).contains(c) <==> candidates.contains(c) || c
                == candidate,
    decreases candidates.len(),
{
    let after = with_candidate(candidates, candidate);
    if candidates.len() == 0 || candidate.newer(candidates[0]) {
        assert forall|i: int, j: int| 0 <= i < j < after.len() implies !(
        #[trigger] after[j]).newer(#[trigger] after[i]) by {
            if i == 0 {
                assert(after[j] == candidates[j - 1]);
                newer_is_an_order(candidate, candidates[0], candidates[j - 1]);
                newer_is_an_order(candidates[j - 1], candidates[0], candidate);
                if j > 1 {
                    assert(!candidates[j - 1].newer(candidates[0]));
                }
                newer_is_an_order(candidate, candidates[j - 1], candidate);
                newer_is_an_order(candidates[0], candidates[j - 1], candidate);
            } else {
                assert(after[i] == candidates[i - 1]);
                assert(after[j] == candidates[j - 1]);
            }
        }
        assert(after[0] == candidate);
        assert forall|c: CandidateView| #[trigger] after.contains(c) <==> candidates.contains(c)
            || c == candidate by {
            if candidates.contains(c) {
                let k = candidates.index_of(c);
                assert(after[k + 1] == c);
            }
            if after.contains(c) && c != candidate {
                let k = after.index_of(c);
                assert(candidates[k - 1] == c);
            }
        }
    } else {
        let rest = candidates.drop_first();
        assert forall|i: int, j: int| 0 <= i < j < rest.len() implies !(#[trigger] rest[j]).newer(
            #[trigger] rest[i],
        ) by {
            assert(rest[i] == candidates[i + 1]);
            assert(rest[j] == candidates[j + 1]);
        }
        lemma_insert_sorted(rest, candidate);
        let tail = with_candidate(rest, candidate);
        assert(after.drop_first() =~= tail);
        assert forall|i: int, j: int| 0 <= i < j < after.len() implies !(
        #[trigger] after[j]).newer(#[trigger] after[i]) by {
            assert(after[j] == tail[j - 1]);
            if i == 0 {
                assert(tail.contains(tail[j - 1]));
                if tail[j - 1] != candidate {
                    assert(rest.contains(tail[j - 1]));
                    let k = rest.index_of(tail[j - 1]);
                    assert(rest[k] == candidates[k + 1]);
                    assert(!candidates[k + 1].newer(candidates[0]));
                }
            } else {
                assert(after[i] == tail[i - 1]);
            }
        }
        assert forall|c: CandidateView| #[trigger] after.contains(c) <==> candidates.contains(c)
            || c == candidate by {
            if after.contains(c) {
                let k = after.index_of(c);
                if k > 0 {
                    assert(tail[k - 1] == c);
                    assert(tail.contains(c));
                    if c != candidate {
                        assert(rest.contains(c));
                        let m = rest.index_of(c);
                        assert(candidates[m + 1] == c);
                    }
                } else {
                    assert(candidates[0] == c);
                }
            }
            if candidates.contains(c) || c == candidate {
                if c == candidate || c != candidates[0] {
                    if c != candidate {
                        let m = candidates.index_of(c);
                        assert(rest[m - 1] == c);
                        assert(rest.contains(c));
                    }
                    assert(tail.contains(c));
                    let k = tail.index_of(c);
                    assert(after[k + 1] == c);
                } else {
                    assert(after[0] == c);
                }
            }
        }
        assert(after.contains(candidate));
    }
}

/// The window always holds the newest of the candidates: it stays in order, and
/// what it does not take in, or lets go, is not newer than anything it keeps.
pub proof fn window_keeps_the_newest(
    candidates: Seq<CandidateView>,
    candidate: CandidateView,
    limit: usize,
)
    requires
        newest_first(candidates),
        candidates.len() <= limit,
    ensures
        ({
            let kept = newest(with_candidate(candidates, candidate), limit);
            &&& newest_first(kept)
            &&& kept.len() <= limit
            &&& forall|lost: CandidateView, held: CandidateView|
                (candidates.contains(lost) || lost == candidate) && !kept.contains(lost)
                    && #[trigger] kept.contains(held) ==> !(#[trigger] lost.newer(held))
        }),
{
    let all = with_candidate(candidates, candidate);
    let kept = newest(all, limit);
    lemma_insert_sorted(candidates, candidate);
    assert forall|lost: CandidateView, held: CandidateView|
        (candidates.contains(lost) || lost == candidate) && !kept.contains(lost)
            && #[trigger] kept.contains(held) implies !(#[trigger] lost.newer(held)) by {
        assert(all.contains(lost));
        let i = all.index_of(lost);
        let j = kept.index_of(held);
        assert(all[i] == lost);
        assert(kept[j] == held);
        assert(all[j] == held);
        if i < kept.len() {
            assert(kept[i] == lost);
            assert(kept.contains(lost));
        }
        assert(!all[i].newer(all[j]));
    }
}

/// Bytes of the names and signs of an encoded entry.
pub const ENTRY_FRAME_BYTES: usize = 78;

/// Bytes of an entry as a JSON object with its fields in camel case.
pub open spec fn entry_json_len(entry: CatalogEntryView) -> nat {
    ENTRY_FRAME_BYTES as nat + json_text_len(entry.path) + json_text_len(entry.id)
        + json_optional_len(entry.name) + json_optional_len(entry.first_message) + decimal(
        entry.modified_unix_ms as nat,
    ).len() + json_bool_len(entry.preview_incomplete)
}

/// Model of a [`CatalogScan`].
pub struct CatalogScanView {
    pub scope_sha256: Seq<char>,
    pub snapshot_sha256: Seq<char>,
    pub query: Option<Seq<char>>,
    pub directory_source: SessionDirectorySource,
    pub limits: RuntimeLimits,
    pub candidates: Seq<CandidateView>,
    pub next: int,
    pub candidate_files: usize,
    pub window_has_older: bool,
    pub sessions: Seq<CatalogEntryView>,
    pub page_bytes: usize,
    pub scanned_files: usize,
    /// The last candidate that this page has dealt with.
    pub consumed: Option<CandidateView>,
}

/// What has to be found out next, or what the page is.
pub enum CatalogStep {
    /// Whether the header of this file names the project.
    CheckHeader(Seq<char>),
    /// What a preview of this file shows.
    Preview(Seq<char>),
    Page(CatalogPageView),
    Fail(SessionCatalogError),
}

impl CatalogScanView {
    pub open spec fn of(window: CatalogWindowView) -> Self {
        CatalogScanView {
            scope_sha256: window.scope_sha256,
            snapshot_sha256: snapshot_digest(window.snapshot_xor, window.candidate_files),
            query: window.query,
            directory_source: window.directory_source,
            limits: window.limits,
            candidates: window.candidates,
            next: 0,
            candidate_files: window.candidate_files,
            window_has_older: window.candidates_after_cursor > window.candidates.len(),
            sessions: Seq::empty(),
            page_bytes: 0,
            scanned_files: 0,
            consumed: None,
        }
    }

    /// The page as it stands. It continues behind the last candidate that was
    /// dealt with, where it stopped early or where older candidates remain.
    pub open spec fn page(self, stopped_early: bool) -> CatalogPageView {
        let next_cursor = if stopped_early || self.window_has_older {
            match self.consumed {
                Some(candidate) => Some(
                    CatalogCursorView {
                        modified_unix_ms: candidate.modified_unix_ms,
                        path: candidate.path,
                        scope_sha256: self.scope_sha256,
                        snapshot_sha256: self.snapshot_sha256,
                    },
                ),
                None => None,
            }
        } else {
            None
        };
        CatalogPageView {
            sessions: self.sessions,
            candidate_files: self.candidate_files,
            scanned_files: self.scanned_files,
            truncated: next_cursor is Some,
            next_cursor,
            directory_source: self.directory_source,
        }
    }

    /// After the present candidate has been dealt with.
    pub open spec fn passed(self) -> Self {
        CatalogScanView {
            consumed: Some(self.candidates[self.next]),
            next: self.next + 1,
            ..self
        }
    }

    /// What comes next.
    pub open spec fn step(self) -> CatalogStep {
        if self.next < self.candidates.len() {
            CatalogStep::CheckHeader(self.candidates[self.next].path)
        } else {
            CatalogStep::Page(self.page(false))
        }
    }

    /// What follows from whether the header names the project. Other sessions do
    /// not count as scanned.
    pub open spec fn header_checked(self, matches_project: bool) -> (Self, CatalogStep) {
        if !matches_project {
            (self.passed(), self.passed().step())
        } else if self.scanned_files >= self.limits.max_session_catalog_scan_files {
            (self, CatalogStep::Page(self.page(true)))
        } else {
            (
                CatalogScanView {
                    scanned_files: sat_add_usize(self.scanned_files, 1),
                    ..self
                },
                CatalogStep::Preview(self.candidates[self.next].path),
            )
        }
    }

    /// What follows from what a preview shows.
    pub open spec fn previewed(self, preview: Option<CatalogEntryView>) -> (Self, CatalogStep) {
        let passed = self.passed();
        match preview {
            None => (passed, passed.step()),
            Some(shown) => {
                let entry = CatalogEntryView {
                    modified_unix_ms: self.candidates[self.next].modified_unix_ms,
                    ..shown
                };
                let encoded = counted(entry_json_len(entry));
                let total = sat_add_usize(self.page_bytes, encoded);
                if self.query is Some && !entry_found(entry, self.query->0) {
                    (passed, passed.step())
                } else if self.sessions.len() >= self.limits.max_session_catalog_page_entries {
                    (self, CatalogStep::Page(self.page(true)))
                } else if total > self.limits.max_session_catalog_page_bytes {
                    if self.sessions.len() == 0 {
                        (
                            self,
                            CatalogStep::Fail(
                                SessionCatalogError::PageEntryTooLarge {
                                    actual: encoded,
                                    limit: self.limits.max_session_catalog_page_bytes,
                                },
                            ),
                        )
                    } else {
                        (self, CatalogStep::Page(self.page(true)))
                    }
                } else {
                    let taken = CatalogScanView {
                        sessions: self.sessions.push(entry),
                        page_bytes: total,
                        ..passed
                    };
                    (taken, taken.step())
                }
            },
        }
    }
}

/// What the owner of the files has to find out next, or what the page is.
#[derive(Debug, PartialEq, Eq)]
pub enum CatalogAction {
    CheckHeader(String),
    Preview(String),
    Page(SessionCatalogPage),
    Fail(SessionCatalogError),
}

impl CatalogAction {
    pub open spec fn is(self, step: CatalogStep) -> bool {
        match step {
            CatalogStep::CheckHeader(path) => self is CheckHeader && self->CheckHeader_0@ == path,
            CatalogStep::Preview(path) => self is Preview && self->Preview_0@ == path,
            CatalogStep::Page(page) => self is Page && self->Page_0@ == page,
            CatalogStep::Fail(error) => self is Fail && self->Fail_0 == error,
        }
    }
}

/// Goes through the candidates and gathers one page.
#[derive(Debug)]
pub struct CatalogScan {
    scope_sha256: String,
    snapshot_sha256: String,
    query: Option<String>,
    directory_source: SessionDirectorySource,
    limits: RuntimeLimits,
    candidates: Vec<CatalogCandidate>,
    next: usize,
    candidate_files: usize,
    window_has_older: bool,
    sessions: Vec<SessionCatalogEntry>,
    page_bytes: usize,
    scanned_files: usize,
    consumed: Option<CatalogCandidate>,
}

/// The model of an optional candidate.
pub open spec fn candidate_option(candidate: Option<CatalogCandidate>) -> Option<CandidateView> {
    match candidate {
        Some(candidate) => Some(candidate@),
        None => None,
    }
}

impl View for CatalogScan {
    type V = CatalogScanView;

    closed spec fn view(&self) -> CatalogScanView {
        CatalogScanView {
            scope_sha256: self.scope_sha256@,
            snapshot_sha256: self.snapshot_sha256@,
            query: optional_view(self.query),
            directory_source: self.directory_source,
            limits: self.limits,
            candidates: candidate_views(self.candidates@),
            next: self.next as int,
            candidate_files: self.candidate_files,
            window_has_older: self.window_has_older,
            sessions: entry_views(self.sessions@),
            page_bytes: self.page_bytes,
            scanned_files: self.scanned_files,
            consumed: candidate_option(self.consumed),
        }
    }
}

fn decimal_len(value: u64) -> (n: usize)
    ensures
        n == counted(decimal(value as nat).len()),
{
    let text = decimal_text(value);
    let chars = chars_of(text.as_str());
    chars.len()
}

fn optional_len(value: &Option<String>) -> (n: usize)
    ensures
        n == counted(json_optional_len(optional_view(*value))),
{
    match value {
        Some(text) => json_text_bytes(text.as_str()),
        None => 4,
    }
}

/// Bytes of an entry as JSON, at most `usize::MAX`.
pub fn entry_json_bytes(entry: &SessionCatalogEntry) -> (n: usize)
    ensures
        n == counted(entry_json_len(entry@)),
{
    let flag: usize = if entry.preview_incomplete {
        4
    } else {
        5
    };
    ENTRY_FRAME_BYTES.saturating_add(json_text_bytes(entry.path.as_str())).saturating_add(
        json_text_bytes(entry.id.as_str()),
    ).saturating_add(optional_len(&entry.name)).saturating_add(
        optional_len(&entry.first_message),
    ).saturating_add(decimal_len(entry.modified_unix_ms)).saturating_add(flag)
}

impl CatalogScan {
    /// Whether a candidate is being dealt with.
    pub open spec fn at_candidate(&self) -> bool {
        0 <= self@.next < self@.candidates.len()
    }

    fn make_page(&mut self, stopped_early: bool) -> (r: SessionCatalogPage)
        ensures
            r@ == old(self)@.page(stopped_early),
    {
        let next_cursor = if stopped_early || self.window_has_older {
            match &self.consumed {
                Some(candidate) => Some(
                    SessionCatalogCursor {
                        modified_unix_ms: candidate.modified_unix_ms,
                        path: candidate.path.clone(),
                        scope_sha256: self.scope_sha256.clone(),
                        snapshot_sha256: self.snapshot_sha256.clone(),
                    },
                ),
                None => None,
            }
        } else {
            None
        };
        let mut sessions: Vec<SessionCatalogEntry> = Vec::new();
        core::mem::swap(&mut sessions, &mut self.sessions);
        SessionCatalogPage {
            sessions,
            candidate_files: self.candidate_files,
            scanned_files: self.scanned_files,
            truncated: next_cursor.is_some(),
            next_cursor,
            directory_source: self.directory_source,
        }
    }

    /// What comes first.
    pub fn begin(&mut self) -> (r: CatalogAction)
        ensures
            r.is(old(self)@.step()),
            !(r is Page) ==> final(self)@ == old(self)@,
            r is CheckHeader ==> old(self)@.next < old(self)@.candidates.len(),
    {
        if self.next < self.candidates.len() {
            CatalogAction::CheckHeader(self.candidates[self.next].path.clone())
        } else {
            CatalogAction::Page(self.make_page(false))
        }
    }

    fn pass(&mut self)
        requires
            old(self).at_candidate(),
        ensures
            final(self)@ == old(self)@.passed(),
    {
        let candidate = &self.candidates[self.next];
        self.consumed =
        Some(
            CatalogCandidate {
                modified_unix_ms: candidate.modified_unix_ms,
                path: candidate.path.clone(),
                place: candidate.place.clone(),
            },
        );
        assert(self.next < self.candidates.len());
        self.next = self.next + 1;
    }

    /// Takes whether the header of the present candidate names the project.
    pub fn on_header(&mut self, matches_project: bool) -> (r: CatalogAction)
        requires
            old(self).at_candidate(),
        ensures
            r.is(old(self)@.header_checked(matches_project).1),
            !(r is Page) ==> final(self)@ == old(self)@.header_checked(matches_project).0,
            !(r is Page) ==> final(self).at_candidate(),
    {
        if !matches_project {
            self.pass();
            return self.begin();
        }
        if self.scanned_files >= self.limits.max_session_catalog_scan_files {
            return CatalogAction::Page(self.make_page(true));
        }
        self.scanned_files = self.scanned_files.saturating_add(1);
        CatalogAction::Preview(self.candidates[self.next].path.clone())
    }

    /// Takes what a preview of the present candidate shows, if it can be shown.
    pub fn on_preview(&mut self, preview: Option<SessionCatalogEntry>) -> (r: CatalogAction)
        requires
            old(self).at_candidate(),
        ensures
            ({
                let shown = match preview {
                    Some(entry) => Some(entry@),
                    None => None,
                };
                &&& r.is(old(self)@.previewed(shown).1)
                &&& !(r is Page) ==> final(self)@ == old(self)@.previewed(shown).0
                &&& r is CheckHeader ==> final(self).at_candidate()
            }),
    {
        let mut entry = match preview {
            Some(entry) => entry,
            None => {
                self.pass();
                return self.begin();
            },
        };
        entry.modified_unix_ms = self.candidates[self.next].modified_unix_ms;
        match &self.query {
            Some(query) => {
                if !entry_matches(&entry, query.as_str()) {
                    self.pass();
                    return self.begin();
                }
            },
            None => {},
        }
        if self.sessions.len() >= self.limits.max_session_catalog_page_entries {
            return CatalogAction::Page(self.make_page(true));
        }
        let encoded: usize = entry_json_bytes(&entry);
        let total: usize = self.page_bytes.saturating_add(encoded);
        if total > self.limits.max_session_catalog_page_bytes {
            if self.sessions.len() == 0 {
                return CatalogAction::Fail(
                    SessionCatalogError::PageEntryTooLarge {
                        actual: encoded,
                        limit: self.limits.max_session_catalog_page_bytes,
                    },
                );
            }
            return CatalogAction::Page(self.make_page(true));
        }
        self.page_bytes = total;
        let ghost before = entry_views(self.sessions@);
        let ghost added = entry@;
        self.sessions.push(entry);
        assert(entry_views(self.sessions@) =~= before.push(added));
        self.pass();
        self.begin()
    }
}

/// Whether a path names a session file: something, a dot and `jsonl`.
pub open spec fn names_session_file(path: Seq<char>) -> bool {
    match file_name_of(path) {
        Some(name) => name.len() > ".jsonl"@.len() && name.skip(name.len() - ".jsonl"@.len())
            == ".jsonl"@,
        None => false,
    }
}

/// Whether a path names a session file.
pub fn is_session_file(path: &str) -> (r: bool)
    ensures
        r == names_session_file(path@),
{
    let suffix = chars_of(".jsonl");
    match file_name(path) {
        Some(name) => {
            let chars = chars_of(name.as_str());
            if chars.len() <= suffix.len() {
                return false;
            }
            let at: usize = chars.len() - suffix.len();
            let r = stands_at(&chars, at, &suffix);
            proof {
                let rest = chars@.skip(at as int);
                assert(rest.take(rest.len() as int) =~= rest);
                if r {
                    assert(rest =~= suffix@);
                }
            }
            r
        },
        None => false,
    }
}

/// The directory that the header of a session names, where its first line ends
/// within the limit.
pub open spec fn header_cwd(bytes: Seq<u8>, max_bytes: usize) -> Option<Seq<char>> {
    let end = first_line_len(bytes);
    if end >= bytes.len() || end > max_bytes {
        None
    } else {
        match json_parsed(bytes.take(end)) {
            Some(header) => session_cwd_of(header),
            None => None,
        }
    }
}

/// The directory that a header names, if it is that of a session.
pub open spec fn session_cwd_of(header: JsonTree) -> Option<Seq<char>> {
    if header.text_at("type"@) == Some("session"@) {
        header.text_at("cwd"@)
    } else {
        None
    }
}

/// The directory that a header that was read names, if it is that of a session.
pub fn session_cwd(header: &serde_json::Value) -> (r: Option<String>)
    ensures
        optional_view(r) == session_cwd_of(json_tree(*header)),
{
    if !json_text_is(header, "type", "session") {
        return None;
    }
    match json_text_at(header, "cwd") {
        Some(cwd) => Some(cwd.to_owned()),
        None => None,
    }
}

/// Reads the directory that the header of a session names. `bytes` are the first
/// bytes of the file, one more than the limit where it has as many.
pub fn session_header_directory(bytes: &[u8], max_bytes: usize) -> (r: Option<String>)
    ensures
        optional_view(r) == header_cwd(bytes@, max_bytes),
{
    let end: usize = first_line_end(bytes);
    if end >= bytes.len() || end > max_bytes {
        return None;
    }
    let line = copy_bytes(bytes, 0, end);
    assert(line@ =~= bytes@.take(end as int));
    match parse_json(line.as_slice()) {
        Some(header) => session_cwd(&header),
        None => None,
    }
}

/// Whether the header of a session names the project. `session_cwd` is the
/// directory that it names as the file system resolves it, where it does.
pub fn session_header_matches_project(
    bytes: &[u8],
    session_cwd: Option<&str>,
    project_root: &str,
    max_bytes: usize,
) -> (r: bool)
    ensures
        r == (header_cwd(bytes@, max_bytes) is Some && session_cwd is Some && session_cwd->0@
            == project_root@),
{
    if session_header_directory(bytes, max_bytes).is_none() {
        return false;
    }
    match session_cwd {
        Some(cwd) => same_text(cwd, project_root),
        None => false,
    }
}

/// Decides whether a session may be resumed, which lets Pi append to its file.
/// `resolved` is its path as the file system resolves it, `preview` what a preview
/// shows of it and `last_byte` the last byte of the file, each where there is one.
/// A file whose last line does not end is refused: the next append would run into
/// that line.
pub fn validate_project_session(
    session_path: &str,
    resolved: Option<String>,
    preview: Option<SessionCatalogEntry>,
    last_byte: Option<u8>,
) -> (r: Result<SessionCatalogEntry, SessionCatalogError>)
    ensures
        match r {
            Ok(entry) => resolved is Some && preview == Some(entry) && last_byte == Some(10u8),
            Err(SessionCatalogError::InvalidProjectSession { path }) => (resolved is None && path@
                == session_path@) || (resolved is Some && path@ == resolved->0@ && (preview is None
                || last_byte is None)),
            Err(SessionCatalogError::UnterminatedSessionTail { path }) => resolved is Some
                && preview is Some && path@ == resolved->0@ && last_byte is Some && last_byte->0
                != 10,
            Err(_) => false,
        },
{
    let path = match resolved {
        Some(path) => path,
        None => {
            return Err(
                SessionCatalogError::InvalidProjectSession { path: session_path.to_owned() },
            );
        },
    };
    match preview {
        None => Err(SessionCatalogError::InvalidProjectSession { path }),
        Some(entry) => match last_byte {
            None => Err(SessionCatalogError::InvalidProjectSession { path }),
            Some(byte) => if byte != 10 {
                Err(SessionCatalogError::UnterminatedSessionTail { path })
            } else {
                Ok(entry)
            },
        },
    }
}

/// A page never shows more sessions than its limit, and never scans more files.
pub proof fn catalog_page_is_bounded(scan: CatalogScanView, preview: Option<CatalogEntryView>)
    requires
        scan.sessions.len() <= scan.limits.max_session_catalog_page_entries,
        scan.scanned_files <= scan.limits.max_session_catalog_scan_files,
    ensures
        scan.previewed(preview).0.sessions.len() <= scan.limits.max_session_catalog_page_entries,
        scan.header_checked(true).0.scanned_files <= scan.limits.max_session_catalog_scan_files,
        scan.header_checked(false).0.scanned_files == scan.scanned_files,
        scan.previewed(preview).0.scanned_files == scan.scanned_files,
{
}

/// A page that stopped at a candidate continues with it: the cursor stands at the
/// candidate before, and everything dealt with before it is shown already, while
/// the candidate itself is not.
pub proof fn no_candidate_is_skipped(scan: CatalogScanView, window: CatalogWindowView)
    requires
        newest_first(scan.candidates),
        0 < scan.next < scan.candidates.len(),
        scan.consumed == Some(scan.candidates[scan.next - 1]),
        !scan.candidates[scan.next].level_with(scan.candidates[scan.next - 1]),
        scan.candidates[scan.next - 1].place == path_place(scan.candidates[scan.next - 1].path),
        window.cursor == scan.page(true).next_cursor,
    ensures
        !window.already_shown(scan.candidates[scan.next]),
        forall|k: int|
            0 <= k < scan.next ==> window.already_shown(#[trigger] scan.candidates[k]),
{
    let last = scan.candidates[scan.next - 1];
    assert(window.cursor is Some);
    assert(cursor_position(window.cursor->0) == last);
    assert(!scan.candidates[scan.next].newer(last));
    assert forall|k: int| 0 <= k < scan.next implies window.already_shown(
        #[trigger] scan.candidates[k],
    ) by {
        newer_is_an_order(scan.candidates[k], last, last);
        if k < scan.next - 1 {
            assert(!last.newer(scan.candidates[k]));
        }
    }
}

} // verus!
