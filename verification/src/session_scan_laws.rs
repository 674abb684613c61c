//! What tells one listing of sessions from another.
use vstd::prelude::*;
use vstd::bytes::*;
use vstd::utf8::*;

use crate::json::{json_parsed, JsonTree};
use crate::keyed::bytes_before;
use crate::limits::RuntimeLimits;
use crate::session_catalog::{
    cursor_position, entry_bytes, header_cwd, scope_bytes, snapshot_bytes, snapshot_digest,
    window_limit, with_entry_digest, xor_bytes, CandidateView, CatalogScanView, CatalogStep,
    CatalogWindowView, SessionCatalogError,
};
use crate::session_history::first_line_len;

verus! {

/// Whether a text holds no zero byte, as no path and no query does.
pub open spec fn without_zero(s: Seq<char>) -> bool {
    forall|i: int| 0 <= i < encode_utf8(s).len() ==> #[trigger] encode_utf8(s)[i] != 0
}

proof fn lemma_first_zero(a: Seq<u8>, x: Seq<u8>, b: Seq<u8>, y: Seq<u8>)
    requires
        forall|i: int| 0 <= i < a.len() ==> #[trigger] a[i] != 0,
        forall|i: int| 0 <= i < b.len() ==> #[trigger] b[i] != 0,
        a + seq![0u8] + x == b + seq![0u8] + y,
    ensures
        a == b,
        x == y,
{
    let whole = a + seq![0u8] + x;
    let other = b + seq![0u8] + y;
    assert(whole[a.len() as int] == 0);
    assert(other[b.len() as int] == 0);
    if a.len() < b.len() {
        assert(other[a.len() as int] == b[a.len() as int]);
    }
    if b.len() < a.len() {
        assert(whole[b.len() as int] == a[b.len() as int]);
    }
    assert(a =~= b) by {
        assert forall|i: int| 0 <= i < a.len() implies a[i] == b[i] by {
            assert(whole[i] == a[i] && other[i] == b[i]);
        }
    }
    assert(x =~= y) by {
        assert(whole.len() == other.len());
        assert forall|i: int| 0 <= i < x.len() implies x[i] == y[i] by {
            assert(whole[a.len() + 1 + i] == x[i] && other[a.len() + 1 + i] == y[i]);
        }
    }
}

proof fn lemma_same_start(start: Seq<u8>, x: Seq<u8>, y: Seq<u8>)
    requires
        start + x == start + y,
    ensures
        x == y,
{
    assert((start + x).len() == start.len() + x.len());
    assert((start + y).len() == start.len() + y.len());
    assert forall|i: int| 0 <= i < x.len() implies x[i] == y[i] by {
        assert((start + x)[start.len() + i] == x[i]);
        assert((start + y)[start.len() + i] == y[i]);
    }
    assert(x =~= y);
}

/// A cursor belongs to one project, one directory and one query: what is digested for it is
/// different where any of them is.
pub proof fn scopes_are_told_apart(
    project: Seq<char>,
    directory: Seq<char>,
    query: Seq<char>,
    other_project: Seq<char>,
    other_directory: Seq<char>,
    other_query: Seq<char>,
)
    requires
        without_zero(project),
        without_zero(directory),
        without_zero(other_project),
        without_zero(other_directory),
        scope_bytes(project, directory, Some(query)) == scope_bytes(
            other_project,
            other_directory,
            Some(other_query),
        ),
    ensures
        project == other_project,
        directory == other_directory,
        query == other_query,
{
    let head = encode_utf8("pi-wizard-session-catalog-scope-v1\0"@);
    let (p, d, q) = (encode_utf8(project), encode_utf8(directory), encode_utf8(query));
    let (op, od, oq) = (
        encode_utf8(other_project),
        encode_utf8(other_directory),
        encode_utf8(other_query),
    );
    let rest = d + seq![0u8] + q;
    let other_rest = od + seq![0u8] + oq;
    assert(scope_bytes(project, directory, Some(query)) =~= head + (p + seq![0u8] + rest));
    assert(scope_bytes(other_project, other_directory, Some(other_query)) =~= head + (op
        + seq![0u8] + other_rest));
    lemma_same_start(head, p + seq![0u8] + rest, op + seq![0u8] + other_rest);
    lemma_first_zero(p, rest, op, other_rest);
    lemma_first_zero(d, q, od, oq);
    crate::text::lemma_encode_injective(project, other_project);
    crate::text::lemma_encode_injective(directory, other_directory);
    crate::text::lemma_encode_injective(query, other_query);
}

proof fn lemma_le_bytes(x: u64, y: u64)
    requires
        spec_u64_to_le_bytes(x) == spec_u64_to_le_bytes(y),
    ensures
        x == y,
{
    lemma_auto_spec_u64_to_from_le_bytes();
}

/// An entry of a listing is told apart by its time and its path.
pub proof fn entries_are_told_apart(
    modified: u64,
    path: Seq<char>,
    other_modified: u64,
    other_path: Seq<char>,
)
    requires
        entry_bytes(modified, path) == entry_bytes(other_modified, other_path),
    ensures
        modified == other_modified,
        path == other_path,
{
    lemma_auto_spec_u64_to_from_le_bytes();
    let head = encode_utf8("pi-wizard-session-catalog-entry-v1\0"@);
    let (t, ot) = (spec_u64_to_le_bytes(modified), spec_u64_to_le_bytes(other_modified));
    let (p, op) = (encode_utf8(path), encode_utf8(other_path));
    assert(entry_bytes(modified, path) =~= head + (t + p));
    assert(entry_bytes(other_modified, other_path) =~= head + (ot + op));
    lemma_same_start(head, t + p, ot + op);
    assert(t.len() == 8 && ot.len() == 8);
    assert forall|i: int| 0 <= i < 8 implies t[i] == ot[i] by {
        assert((t + p)[i] == t[i] && (ot + op)[i] == ot[i]);
    }
    assert(t =~= ot);
    lemma_le_bytes(modified, other_modified);
    lemma_same_start(t, p, op);
    crate::text::lemma_encode_injective(path, other_path);
}

proof fn lemma_low_bytes(x: u64, y: u64, size: int)
    requires
        size == 4 && x < 0x1_0000_0000 && y < 0x1_0000_0000 || size == 8,
        spec_u64_to_le_bytes(x).take(size) == spec_u64_to_le_bytes(y).take(size),
    ensures
        x == y,
{
    lemma_auto_spec_u64_to_from_le_bytes();
    spec_u64_to_le_bytes_to_open(x);
    spec_u64_to_le_bytes_to_open(y);
    let (a, b) = (spec_u64_to_le_bytes(x), spec_u64_to_le_bytes(y));
    assert forall|i: int| 0 <= i < size implies a[i] == b[i] by {
        assert(a.take(size)[i] == b.take(size)[i]);
    }
    if size == 4 {
        assert(((x >> 32) & 0xff) == 0 && ((x >> 40) & 0xff) == 0 && ((x >> 48) & 0xff) == 0 && ((x
            >> 56) & 0xff) == 0) by (bit_vector)
            requires
                x < 0x1_0000_0000,
        ;
        assert(((y >> 32) & 0xff) == 0 && ((y >> 40) & 0xff) == 0 && ((y >> 48) & 0xff) == 0 && ((y
            >> 56) & 0xff) == 0) by (bit_vector)
            requires
                y < 0x1_0000_0000,
        ;
        assert(a[0] == b[0] && a[1] == b[1] && a[2] == b[2] && a[3] == b[3]);
    }
    assert(a =~= b);
    lemma_le_bytes(x, y);
}

/// A snapshot is told apart by what was listed.
pub proof fn snapshots_are_told_apart(
    entries: Seq<u8>,
    files: usize,
    other_entries: Seq<u8>,
    other_files: usize,
)
    requires
        entries.len() == other_entries.len(),
        snapshot_bytes(entries, files) == snapshot_bytes(other_entries, other_files),
    ensures
        entries == other_entries,
        files == other_files,
{
    lemma_auto_spec_u64_to_from_le_bytes();
    let head = encode_utf8("pi-wizard-session-catalog-snapshot-v1\0"@);
    let n = spec_u64_to_le_bytes(files as u64);
    let on = spec_u64_to_le_bytes(other_files as u64);
    assert(n.len() == 8 && on.len() == 8);
    let size = (usize::BITS / 8) as int;
    let (some, other_some) = (n.take(size), on.take(size));
    assert(snapshot_bytes(entries, files) =~= head + (entries + some));
    assert(snapshot_bytes(other_entries, other_files) =~= head + (other_entries + other_some));
    lemma_same_start(head, entries + some, other_entries + other_some);
    assert forall|i: int| 0 <= i < entries.len() implies entries[i] == other_entries[i] by {
        assert((entries + some)[i] == entries[i]);
        assert((other_entries + other_some)[i] == other_entries[i]);
    }
    assert(entries =~= other_entries);
    lemma_same_start(entries, some, other_some);
    lemma_low_bytes(files as u64, other_files as u64, size);
}

/// Digests of entries are gathered so that each can be taken out again, and their order does
/// not matter.
pub proof fn a_digest_undoes_itself(all: Seq<u8>, one: Seq<u8>, other: Seq<u8>)
    requires
        all.len() == one.len(),
        all.len() == other.len(),
    ensures
        xor_bytes(all, one).len() == all.len(),
        xor_bytes(xor_bytes(all, one), one) == all,
        xor_bytes(xor_bytes(all, one), other) == xor_bytes(xor_bytes(all, other), one),
        xor_bytes(all, one) == all ==> forall|i: int| 0 <= i < one.len() ==> #[trigger] one[i] == 0,
{
    assert forall|i: int| 0 <= i < all.len() implies xor_bytes(xor_bytes(all, one), one)[i]
        == all[i] by {
        let (a, b) = (all[i], one[i]);
        assert((a ^ b) ^ b == a) by (bit_vector);
    }
    assert(xor_bytes(xor_bytes(all, one), one) =~= all);
    assert forall|i: int| 0 <= i < all.len() implies xor_bytes(xor_bytes(all, one), other)[i]
        == xor_bytes(xor_bytes(all, other), one)[i] by {
        let (a, b, c) = (all[i], one[i], other[i]);
        assert((a ^ b) ^ c == (a ^ c) ^ b) by (bit_vector);
    }
    assert(xor_bytes(xor_bytes(all, one), other) =~= xor_bytes(xor_bytes(all, other), one));
    if xor_bytes(all, one) == all {
        assert forall|i: int| 0 <= i < one.len() implies #[trigger] one[i] == 0 by {
            let (a, b) = (all[i], one[i]);
            assert(xor_bytes(all, one)[i] == a);
            assert((a ^ b) == a ==> b == 0) by (bit_vector);
        }
    }
}

/// A page continues only the listing that it belongs to: where the files have changed, or
/// where the file at which it stopped is gone, it is refused.
pub proof fn changed_listings_are_refused(window: CatalogWindowView)
    ensures
        ({
            let now = snapshot_digest(window.snapshot_xor, window.candidate_files);
            &&& window.refusal() is None <==> window.cursor_seen && (window.cursor is Some
                ==> window.cursor->0.snapshot_sha256 == now)
            &&& window.cursor is Some && window.cursor->0.snapshot_sha256 != now
                ==> window.refusal() == Some(SessionCatalogError::CatalogChanged)
            &&& window.refusal() == Some(SessionCatalogError::CursorPositionMissing)
                ==> !window.cursor_seen
        }),
{
}

/// Every file is counted once, whether it belongs to this page or an earlier one; the file at
/// which the last page stopped is remembered once it is seen, and is not shown again.
pub proof fn every_file_is_counted(window: CatalogWindowView, candidate: CandidateView)
    ensures
        ({
            let after = window.listed(candidate);
            let at_cursor = window.cursor is Some && candidate.modified_unix_ms
                == window.cursor->0.modified_unix_ms && candidate.place == cursor_position(
                window.cursor->0,
            ).place;
            &&& window.candidate_files < usize::MAX ==> after.candidate_files
                == window.candidate_files + 1
            &&& after.cursor_seen <==> window.cursor_seen || at_cursor
            &&& at_cursor ==> after.candidates == window.candidates
            &&& window.cursor is Some && candidate.modified_unix_ms
                > window.cursor->0.modified_unix_ms ==> after.candidates == window.candidates
            &&& window.cursor is Some && candidate.modified_unix_ms
                < window.cursor->0.modified_unix_ms && window.candidates_after_cursor < usize::MAX
                ==> after.candidates_after_cursor == window.candidates_after_cursor + 1
            &&& window.cursor is None && window.candidates_after_cursor < usize::MAX
                ==> after.candidates_after_cursor == window.candidates_after_cursor + 1
            &&& after.snapshot_xor == with_entry_digest(
                window.snapshot_xor,
                candidate.modified_unix_ms,
                candidate.path,
            )
            &&& after.candidates.len() <= window_limit(window.limits) || after.candidates
                == window.candidates
        }),
{
}

/// As many files are kept as eight pages may look at, at least one, and never more than may be
/// kept at all.
pub proof fn the_window_is_bounded(limits: RuntimeLimits)
    ensures
        window_limit(limits) <= limits.max_session_catalog_candidates,
        limits.max_session_catalog_scan_files > 0 ==> window_limit(limits)
            <= limits.max_session_catalog_scan_files * 8,
        limits.max_session_catalog_candidates > 0 ==> window_limit(limits) > 0,
        limits.max_session_catalog_scan_files == 0 ==> window_limit(limits) <= 1,
        limits.max_session_catalog_scan_files > 0 && limits.max_session_catalog_scan_files * 8
            <= limits.max_session_catalog_candidates ==> window_limit(limits)
            == limits.max_session_catalog_scan_files * 8,
        limits.max_session_catalog_candidates > 0 && limits.max_session_catalog_candidates
            <= limits.max_session_catalog_scan_files * 8 ==> window_limit(limits)
            == limits.max_session_catalog_candidates,
{
}

/// A page says where it stopped, if anything is left, so that the next one continues there.
pub proof fn a_page_says_where_it_stopped(scan: CatalogScanView, stopped_early: bool)
    ensures
        ({
            let page = scan.page(stopped_early);
            let left = stopped_early || scan.window_has_older;
            &&& page.next_cursor is Some <==> left && scan.consumed is Some
            &&& page.next_cursor is Some ==> {
                let cursor = page.next_cursor->0;
                &&& cursor.path == scan.consumed->0.path
                &&& cursor.modified_unix_ms == scan.consumed->0.modified_unix_ms
                &&& cursor.scope_sha256 == scan.scope_sha256
                &&& cursor.snapshot_sha256 == scan.snapshot_sha256
            }
            &&& page.truncated <==> page.next_cursor is Some
            &&& page.sessions == scan.sessions
            &&& page.candidate_files == scan.candidate_files
            &&& page.scanned_files == scan.scanned_files
            &&& page.directory_source == scan.directory_source
        }),
{
}

/// Files are looked at one after the other, and the page ends with the last.
pub proof fn files_are_looked_at_in_order(scan: CatalogScanView)
    ensures
        0 <= scan.next < scan.candidates.len() ==> scan.step() == CatalogStep::CheckHeader(
            scan.candidates[scan.next].path,
        ),
        scan.next >= scan.candidates.len() ==> scan.step() is Page && scan.step()->Page_0.sessions
            == scan.sessions,
        scan.passed().next == scan.next + 1,
        scan.passed().consumed == Some(scan.candidates[scan.next]),
        scan.passed().sessions == scan.sessions,
{
}

/// Texts stand in the order of their bytes: the first byte that differs decides, and a text
/// that another one starts with goes first.
pub proof fn the_first_difference_decides(a: Seq<u8>, b: Seq<u8>)
    ensures
        bytes_before(a, b) <==> exists|k: int|
            {
                &&& 0 <= k <= a.len() && k < b.len()
                &&& #[trigger] a.take(k) == b.take(k)
                &&& k == a.len() || a[k] < b[k]
            },
    decreases a.len(),
{
    if b.len() > 0 && a.len() > 0 && a[0] == b[0] {
        let (x, y) = (a.drop_first(), b.drop_first());
        the_first_difference_decides(x, y);
        if bytes_before(x, y) {
            let k = choose|k: int|
                {
                    &&& 0 <= k <= x.len() && k < y.len()
                    &&& #[trigger] x.take(k) == y.take(k)
                    &&& k == x.len() || x[k] < y[k]
                };
            assert(a.take(k + 1) =~= seq![a[0]] + x.take(k));
            assert(b.take(k + 1) =~= seq![b[0]] + y.take(k));
            assert(a.take(k + 1) == b.take(k + 1));
        }
        if exists|k: int|
            {
                &&& 0 <= k <= a.len() && k < b.len()
                &&& #[trigger] a.take(k) == b.take(k)
                &&& k == a.len() || a[k] < b[k]
            } {
            let k = choose|k: int|
                {
                    &&& 0 <= k <= a.len() && k < b.len()
                    &&& #[trigger] a.take(k) == b.take(k)
                    &&& k == a.len() || a[k] < b[k]
                };
            assert(k > 0);
            assert(x.take(k - 1) =~= a.take(k).drop_first());
            assert(y.take(k - 1) =~= b.take(k).drop_first());
            assert(x.take(k - 1) == y.take(k - 1));
        }
    } else if b.len() > 0 && a.len() > 0 {
        if a[0] < b[0] {
            assert(a.take(0) =~= b.take(0));
        }
        if exists|k: int|
            {
                &&& 0 <= k <= a.len() && k < b.len()
                &&& #[trigger] a.take(k) == b.take(k)
                &&& k == a.len() || a[k] < b[k]
            } {
            let k = choose|k: int|
                {
                    &&& 0 <= k <= a.len() && k < b.len()
                    &&& #[trigger] a.take(k) == b.take(k)
                    &&& k == a.len() || a[k] < b[k]
                };
            if k > 0 {
                assert(a.take(k)[0] == a[0] && b.take(k)[0] == b[0]);
            }
        }
    } else if b.len() > 0 {
        assert(a.take(0) =~= b.take(0));
    }
}

/// The directory of a session is the one that the header in its first line names, if that line
/// ends within the limit and is the header of a session.
pub proof fn a_header_names_its_directory(bytes: Seq<u8>, max_bytes: usize, header: JsonTree)
    requires
        json_parsed(bytes.take(first_line_len(bytes) as int)) == Some(header),
    ensures
        ({
            let end = first_line_len(bytes);
            let directory = header_cwd(bytes, max_bytes);
            &&& end < bytes.len() && end <= max_bytes && header.text_at("type"@) == Some(
                "session"@,
            ) ==> directory == header.text_at("cwd"@)
            &&& header.text_at("type"@) != Some("session"@) ==> directory is None
            &&& end >= bytes.len() || end > max_bytes ==> directory is None
        }),
{
}

} // verus!
