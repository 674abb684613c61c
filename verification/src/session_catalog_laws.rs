//! What holds of all pages of a catalog together.
use vstd::prelude::*;

use crate::paths::path_place;
use crate::session_catalog::{
    cursor_position, newer_is_an_order, newest, window_limit, with_candidate,
    CandidateView, CatalogCursorView, CatalogPageView, CatalogScanView, CatalogStep,
    CatalogWindowView, SessionCatalogError,
};
use crate::session_preview::{entry_found, CatalogEntryView};

verus! {

/// What the session files hold, by their paths.
pub struct SessionFiles {
    /// Whether the header of a file names the project.
    pub headers: spec_fn(Seq<char>) -> bool,
    /// What a preview of a file shows.
    pub previews: spec_fn(Seq<char>) -> Option<CatalogEntryView>,
}

impl SessionFiles {
    /// What a catalog shows of a file, if it belongs to the project and is found.
    pub open spec fn shown(
        self,
        query: Option<Seq<char>>,
        candidate: CandidateView,
    ) -> Option<CatalogEntryView> {
        if !(self.headers)(candidate.path) {
            None
        } else {
            match (self.previews)(candidate.path) {
                None => None,
                Some(preview) => {
                    let entry = CatalogEntryView {
                        modified_unix_ms: candidate.modified_unix_ms,
                        ..preview
                    };
                    if query is Some && !entry_found(entry, query->0) {
                        None
                    } else {
                        Some(entry)
                    }
                },
            }
        }
    }

    /// What a catalog shows of these files, in order.
    pub open spec fn shown_all(
        self,
        query: Option<Seq<char>>,
        candidates: Seq<CandidateView>,
    ) -> Seq<CatalogEntryView>
        decreases candidates.len(),
    {
        if candidates.len() == 0 {
            Seq::empty()
        } else {
            let before = self.shown_all(query, candidates.drop_last());
            match self.shown(query, candidates.last()) {
                Some(entry) => before.push(entry),
                None => before,
            }
        }
    }
}

/// Whether these are files with each its own place, the newest first.
pub open spec fn ranked(files: Seq<CandidateView>) -> bool {
    &&& forall|i: int, j: int|
        0 <= i < j < files.len() ==> (#[trigger] files[i]).newer(#[trigger] files[j])
    &&& forall|i: int|
        0 <= i < files.len() ==> (#[trigger] files[i]).place == path_place(files[i].path)
}

/// Whether a directory lists exactly these files, in whatever order.
pub open spec fn lists_exactly(listing: Seq<CandidateView>, files: Seq<CandidateView>) -> bool {
    &&& listing.no_duplicates()
    &&& forall|c: CandidateView| #[trigger] listing.contains(c) <==> files.contains(c)
}

impl CatalogWindowView {
    /// After a whole listing.
    pub open spec fn listed_all(self, listing: Seq<CandidateView>) -> Self
        decreases listing.len(),
    {
        if listing.len() == 0 {
            self
        } else {
            self.listed_all(listing.drop_last()).listed(listing.last())
        }
    }
}

impl CatalogScanView {
    /// How a scan of these files ends.
    pub open spec fn gathered(self, files: SessionFiles) -> CatalogStep
        decreases self.candidates.len() - self.next,
    {
        if self.next < 0 || self.next >= self.candidates.len() {
            self.step()
        } else {
            let path = self.candidates[self.next].path;
            let (checked, after_header) = self.header_checked((files.headers)(path));
            match after_header {
                CatalogStep::CheckHeader(_) => self.passed().gathered(files),
                CatalogStep::Preview(_) => {
                    let (taken, after_preview) = checked.previewed((files.previews)(path));
                    match after_preview {
                        CatalogStep::CheckHeader(_) => if taken.next == self.next + 1
                            && taken.candidates == self.candidates {
                            taken.gathered(files)
                        } else {
                            after_preview
                        },
                        _ => after_preview,
                    }
                },
                _ => after_header,
            }
        }
    }
}

/// The page of a catalog for which a directory lists these files.
pub open spec fn catalog_page(
    window: CatalogWindowView,
    listing: Seq<CandidateView>,
    files: SessionFiles,
) -> Result<CatalogPageView, SessionCatalogError> {
    let listed = window.listed_all(listing);
    match listed.refusal() {
        Some(error) => Err(error),
        None => match CatalogScanView::of(listed).gathered(files) {
            CatalogStep::Page(page) => Ok(page),
            CatalogStep::Fail(error) => Err(error),
            _ => Err(SessionCatalogError::CatalogChanged),
        },
    }
}

/// All sessions of these pages, one page after the other.
pub open spec fn all_sessions(pages: Seq<CatalogPageView>) -> Seq<CatalogEntryView>
    decreases pages.len(),
{
    if pages.len() == 0 {
        Seq::empty()
    } else {
        all_sessions(pages.drop_last()) + pages.last().sessions
    }
}

/// Where the page of this number begins: the first has no cursor, and each other has
/// that of the page before.
pub open spec fn cursor_of(pages: Seq<CatalogPageView>, k: int) -> Option<CatalogCursorView> {
    if k == 0 {
        None
    } else {
        pages[k - 1].next_cursor
    }
}

proof fn lemma_shown_concat(
    files: SessionFiles,
    query: Option<Seq<char>>,
    a: Seq<CandidateView>,
    b: Seq<CandidateView>,
)
    ensures
        files.shown_all(query, a + b) == files.shown_all(query, a) + files.shown_all(query, b),
    decreases b.len(),
{
    if b.len() == 0 {
        assert(a + b =~= a);
        assert(files.shown_all(query, a) + files.shown_all(query, b) =~= files.shown_all(query, a));
    } else {
        assert((a + b).drop_last() =~= a + b.drop_last());
        lemma_shown_concat(files, query, a, b.drop_last());
        assert(files.shown_all(query, a + b) =~= files.shown_all(query, a) + files.shown_all(
            query,
            b,
        ));
    }
}

proof fn lemma_shown_one(files: SessionFiles, query: Option<Seq<char>>, c: CandidateView)
    ensures
        files.shown_all(query, seq![c]) == (match files.shown(query, c) {
            Some(entry) => seq![entry],
            None => Seq::empty(),
        }),
{
    assert(seq![c].drop_last() =~= Seq::<CandidateView>::empty());
    assert(seq![c].last() == c);
    assert(files.shown_all(query, seq![c].drop_last()) =~= Seq::<CatalogEntryView>::empty());
    assert(files.shown_all(query, seq![c]) =~= (match files.shown(query, c) {
        Some(entry) => seq![entry],
        None => Seq::empty(),
    }));
}

/// Where a page that dealt with the first `n` candidates continues.
pub open spec fn continues_at(scan: CatalogScanView, n: int) -> Option<CandidateView> {
    if n == scan.next {
        scan.consumed
    } else {
        Some(scan.candidates[n - 1])
    }
}

/// The last candidate that a page dealt with, as its cursor.
pub open spec fn cursor_after(
    scan: CatalogScanView,
    candidate: Option<CandidateView>,
) -> Option<CatalogCursorView> {
    match candidate {
        Some(candidate) => Some(
            CatalogCursorView {
                modified_unix_ms: candidate.modified_unix_ms,
                path: candidate.path,
                scope_sha256: scan.scope_sha256,
                snapshot_sha256: scan.snapshot_sha256,
            },
        ),
        None => None,
    }
}

/// Whether a page shows what the candidates up to `n` hold, and continues there.
pub open spec fn covers(
    scan: CatalogScanView,
    files: SessionFiles,
    page: CatalogPageView,
    n: int,
) -> bool {
    &&& scan.next <= n <= scan.candidates.len()
    &&& page.sessions == scan.sessions + files.shown_all(
        scan.query,
        scan.candidates.subrange(scan.next, n),
    )
    &&& page.next_cursor == (if n < scan.candidates.len() || scan.window_has_older {
        cursor_after(scan, continues_at(scan, n))
    } else {
        None
    })
    &&& page.truncated == (page.next_cursor is Some)
    &&& page.sessions.len() <= scan.limits.max_session_catalog_page_entries
    &&& page.scanned_files <= scan.limits.max_session_catalog_scan_files
}

proof fn lemma_covers_step(
    scan: CatalogScanView,
    next: CatalogScanView,
    files: SessionFiles,
    page: CatalogPageView,
    n: int,
)
    requires
        0 <= scan.next < scan.candidates.len(),
        next.next == scan.next + 1,
        next.candidates == scan.candidates,
        next.query == scan.query,
        next.limits == scan.limits,
        next.window_has_older == scan.window_has_older,
        next.scope_sha256 == scan.scope_sha256,
        next.snapshot_sha256 == scan.snapshot_sha256,
        next.consumed == Some(scan.candidates[scan.next]),
        next.sessions == scan.sessions + files.shown_all(
            scan.query,
            seq![scan.candidates[scan.next]],
        ),
        covers(next, files, page, n),
    ensures
        covers(scan, files, page, n),
        n > scan.next,
{
    let here = scan.candidates[scan.next];
    let rest = scan.candidates.subrange(scan.next + 1, n);
    assert(scan.candidates.subrange(scan.next, n) =~= seq![here] + rest);
    lemma_shown_concat(files, scan.query, seq![here], rest);
    assert(page.sessions =~= scan.sessions + files.shown_all(
        scan.query,
        scan.candidates.subrange(scan.next, n),
    ));
}

proof fn lemma_stops_here(
    scan: CatalogScanView,
    files: SessionFiles,
    page: CatalogPageView,
    stopped_early: bool,
)
    requires
        0 <= scan.next <= scan.candidates.len(),
        scan.next == scan.candidates.len() || stopped_early,
        scan.next < scan.candidates.len() || !stopped_early,
        page.sessions == scan.page(stopped_early).sessions,
        page.next_cursor == scan.page(stopped_early).next_cursor,
        page.truncated == scan.page(stopped_early).truncated,
        page.scanned_files <= scan.limits.max_session_catalog_scan_files,
        scan.sessions.len() <= scan.limits.max_session_catalog_page_entries,
    ensures
        covers(scan, files, page, scan.next),
{
    assert(scan.candidates.subrange(scan.next, scan.next) =~= Seq::<CandidateView>::empty());
    assert(scan.sessions + files.shown_all(scan.query, Seq::<CandidateView>::empty())
        =~= scan.sessions);
}

proof fn lemma_gathered(scan: CatalogScanView, files: SessionFiles) -> (n: int)
    requires
        0 <= scan.next <= scan.candidates.len(),
        scan.sessions.len() <= scan.limits.max_session_catalog_page_entries,
        scan.scanned_files <= scan.limits.max_session_catalog_scan_files,
    ensures
        scan.gathered(files) is Page ==> covers(scan, files, scan.gathered(files)->Page_0, n),
        scan.gathered(files) is Page && scan.next < scan.candidates.len() && scan.scanned_files
            < scan.limits.max_session_catalog_scan_files && scan.sessions.len() == 0
            && scan.limits.max_session_catalog_page_entries > 0 ==> n > scan.next,
    decreases scan.candidates.len() - scan.next,
{
    if scan.next >= scan.candidates.len() {
        lemma_stops_here(scan, files, scan.page(false), false);
        scan.next
    } else {
        let here = scan.candidates[scan.next];
        let (checked, after_header) = scan.header_checked((files.headers)(here.path));
        lemma_shown_one(files, scan.query, here);
        let passed = scan.passed();
        if !(files.headers)(here.path) {
            assert(passed.sessions =~= scan.sessions + files.shown_all(scan.query, seq![here]));
            let n = lemma_gathered(passed, files);
            if passed.next >= passed.candidates.len() {
                assert(scan.gathered(files) == passed.step());
                assert(passed.gathered(files) == passed.step());
            } else {
                assert(scan.gathered(files) == passed.gathered(files));
            }
            if scan.gathered(files) is Page {
                lemma_covers_step(scan, passed, files, scan.gathered(files)->Page_0, n);
            }
            n
        } else if scan.scanned_files >= scan.limits.max_session_catalog_scan_files {
            lemma_stops_here(scan, files, scan.page(true), true);
            scan.next
        } else {
            let (taken, after_preview) = checked.previewed((files.previews)(here.path));
            if taken.next == scan.next + 1 {
                assert(taken.sessions =~= scan.sessions + files.shown_all(
                    scan.query,
                    seq![here],
                ));
                let n = lemma_gathered(taken, files);
                if taken.next >= taken.candidates.len() {
                    assert(taken.gathered(files) == taken.step());
                    assert(scan.gathered(files) == taken.step());
                } else {
                    assert(scan.gathered(files) == taken.gathered(files));
                }
                if scan.gathered(files) is Page {
                    lemma_covers_step(scan, taken, files, scan.gathered(files)->Page_0, n);
                }
                n
            } else {
                assert(scan.gathered(files) == after_preview);
                if after_preview is Page {
                    lemma_stops_here(scan, files, after_preview->Page_0, true);
                }
                scan.next
            }
        }
    }
}

/// Whether each candidate is newer than all that follow.
pub open spec fn strictly_newest_first(candidates: Seq<CandidateView>) -> bool {
    forall|i: int, j: int|
        0 <= i < j < candidates.len() ==> (#[trigger] candidates[i]).newer(
            #[trigger] candidates[j],
        )
}

proof fn lemma_insert_strict(candidates: Seq<CandidateView>, candidate: CandidateView)
    requires
        strictly_newest_first(candidates),
        forall|i: int|
            0 <= i < candidates.len() ==> !candidate.level_with(#[trigger] candidates[i]),
    ensures
        ({
            let after = with_candidate(candidates, candidate);
            &&& strictly_newest_first(after)
            &&& after.len() == candidates.len() + 1
            &&& forall|c: CandidateView| #[trigger]
                after.contains(c) <==> candidates.contains(c) || c == candidate
        }),
    decreases candidates.len(),
{
    let after = with_candidate(candidates, candidate);
    if candidates.len() == 0 || candidate.newer(candidates[0]) {
        assert forall|i: int, j: int| 0 <= i < j < after.len() implies (#[trigger] after[i]).newer(
            #[trigger] after[j],
        ) by {
            assert(after[j] == candidates[j - 1]);
            if i == 0 {
                if j > 1 {
                    newer_is_an_order(candidate, candidates[0], candidates[j - 1]);
                }
            } else {
                assert(after[i] == candidates[i - 1]);
            }
        }
        assert(after[0] == candidate);
        assert forall|c: CandidateView| #[trigger] after.contains(c) <==> candidates.contains(c)
            || c == candidate by {
            if candidates.contains(c) {
                let k = candidates.index_of(c);
                assert(after[k + 1] == c);
            }
            if after.contains(c) && c != candidate {
                let k = after.index_of(c);
                assert(candidates[k - 1] == c);
            }
        }
    } else {
        let rest = candidates.drop_first();
        assert forall|i: int, j: int| 0 <= i < j < rest.len() implies (#[trigger] rest[i]).newer(
            #[trigger] rest[j],
        ) by {
            assert(rest[i] == candidates[i + 1]);
            assert(rest[j] == candidates[j + 1]);
        }
        assert forall|i: int| 0 <= i < rest.len() implies !candidate.level_with(
            #[trigger] rest[i],
        ) by {
            assert(rest[i] == candidates[i + 1]);
        }
        lemma_insert_strict(rest, candidate);
        let tail = with_candidate(rest, candidate);
        assert(after =~= seq![candidates[0]] + tail);
        newer_is_an_order(candidate, candidates[0], candidate);
        assert(!candidate.level_with(candidates[0]));
        assert(candidates[0].newer(candidate));
        assert forall|i: int, j: int| 0 <= i < j < after.len() implies (#[trigger] after[i]).newer(
            #[trigger] after[j],
        ) by {
            assert(after[j] == tail[j - 1]);
            if i == 0 {
                assert(tail.contains(tail[j - 1]));
                if tail[j - 1] != candidate {
                    assert(rest.contains(tail[j - 1]));
                    let k = rest.index_of(tail[j - 1]);
                    assert(rest[k] == candidates[k + 1]);
                }
            } else {
                assert(after[i] == tail[i - 1]);
            }
        }
        assert forall|c: CandidateView| #[trigger] after.contains(c) <==> candidates.contains(c)
            || c == candidate by {
            if after.contains(c) {
                let k = after.index_of(c);
                if k > 0 {
                    assert(tail[k - 1] == c);
                    assert(tail.contains(c));
                    if c != candidate {
                        assert(rest.contains(c));
                        let m = rest.index_of(c);
                        assert(candidates[m + 1] == c);
                    }
                } else {
                    assert(candidates[0] == c);
                }
            }
            if candidates.contains(c) || c == candidate {
                if c == candidate || c != candidates[0] {
                    if c != candidate {
                        let m = candidates.index_of(c);
                        assert(rest[m - 1] == c);
                        assert(rest.contains(c));
                    }
                    assert(tail.contains(c));
                    let k = tail.index_of(c);
                    assert(after[k + 1] == c);
                } else {
                    assert(after[0] == c);
                }
            }
        }
    }
}

/// The files of a listing that pages before this one did not show.
pub open spec fn unshown(window: CatalogWindowView, listing: Seq<CandidateView>) -> Set<
    CandidateView,
>
    decreases listing.len(),
{
    if listing.len() == 0 {
        Set::empty()
    } else if window.already_shown(listing.last()) {
        unshown(window, listing.drop_last())
    } else {
        unshown(window, listing.drop_last()).insert(listing.last())
    }
}

/// Whether a window holds the newest of these files.
pub open spec fn holds_newest(window: CatalogWindowView, unseen: Set<CandidateView>) -> bool {
    &&& strictly_newest_first(window.candidates)
    &&& window.candidates.len() <= window_limit(window.limits)
    &&& forall|c: CandidateView| #[trigger] window.candidates.contains(c) ==> unseen.contains(c)
    &&& forall|lost: CandidateView, held: CandidateView|
        unseen.contains(lost) && !window.candidates.contains(lost)
            && #[trigger] window.candidates.contains(held) ==> #[trigger] held.newer(lost)
    &&& forall|lost: CandidateView|
        #[trigger] unseen.contains(lost) && !window.candidates.contains(lost)
            ==> window.candidates.len() == window_limit(window.limits)
}

proof fn lemma_level(files: Seq<CandidateView>, a: CandidateView, b: CandidateView)
    requires
        ranked(files),
        files.contains(a),
        files.contains(b),
        a.level_with(b),
    ensures
        a == b,
{
    let i = files.index_of(a);
    let j = files.index_of(b);
    newer_is_an_order(a, b, a);
    newer_is_an_order(b, a, b);
    if i < j {
        assert(files[i].newer(files[j]));
    } else if j < i {
        assert(files[j].newer(files[i]));
    }
}

proof fn lemma_window(
    start: CatalogWindowView,
    listing: Seq<CandidateView>,
    files: Seq<CandidateView>,
)
    requires
        ranked(files),
        start.candidates.len() == 0,
        start.candidates_after_cursor == 0,
        listing.no_duplicates(),
        listing.len() <= usize::MAX,
        window_limit(start.limits) > 0,
        forall|c: CandidateView| #[trigger] listing.contains(c) ==> files.contains(c),
    ensures
        ({
            let after = start.listed_all(listing);
            let unseen = unshown(start, listing);
            &&& after.limits == start.limits
            &&& after.cursor == start.cursor
            &&& after.query == start.query
            &&& after.scope_sha256 == start.scope_sha256
            &&& after.directory_source == start.directory_source
            &&& unseen.finite()
            &&& unseen.len() <= listing.len()
            &&& after.candidates_after_cursor == unseen.len()
            &&& forall|c: CandidateView| #[trigger]
                unseen.contains(c) <==> listing.contains(c) && !start.already_shown(c)
            &&& holds_newest(after, unseen)
        }),
    decreases listing.len(),
{
    if listing.len() > 0 {
        let rest = listing.drop_last();
        let c = listing.last();
        assert(rest.no_duplicates());
        assert forall|d: CandidateView| #[trigger] rest.contains(d) implies files.contains(d) by {
            let k = rest.index_of(d);
            assert(listing[k] == d);
            assert(listing.contains(d));
        }
        lemma_window(start, rest, files);
        let before = start.listed_all(rest);
        let after = start.listed_all(listing);
        let seen = unshown(start, rest);
        let unseen = unshown(start, listing);
        assert(after == before.listed(c));
        assert(listing.contains(c)) by {
            assert(listing[listing.len() - 1] == c);
        }
        assert(!rest.contains(c)) by {
            if rest.contains(c) {
                let k = rest.index_of(c);
                assert(listing[k] == listing[listing.len() - 1]);
            }
        }
        assert forall|d: CandidateView| #[trigger] unseen.contains(d) <==> listing.contains(d)
            && !start.already_shown(d) by {
            if rest.contains(d) {
                let k = rest.index_of(d);
                assert(listing[k] == d);
            }
            if listing.contains(d) && d != c {
                let k = listing.index_of(d);
                assert(rest[k] == d);
            }
        }
        assert(before.already_shown(c) == start.already_shown(c));
        if !start.already_shown(c) {
            assert(!seen.contains(c));
            let limit = window_limit(start.limits);
            assert forall|i: int| 0 <= i < before.candidates.len() implies !c.level_with(
                #[trigger] before.candidates[i],
            ) by {
                let d = before.candidates[i];
                assert(before.candidates.contains(d));
                assert(seen.contains(d));
                assert(rest.contains(d));
                if c.level_with(d) {
                    lemma_level(files, c, d);
                }
            }
            lemma_insert_strict(before.candidates, c);
            let all = with_candidate(before.candidates, c);
            let kept = newest(all, limit);
            assert(after.candidates == kept);
            assert forall|d: CandidateView| #[trigger] kept.contains(d) implies unseen.contains(
                d,
            ) by {
                let k = kept.index_of(d);
                assert(all[k] == d);
                assert(all.contains(d));
                if d != c {
                    assert(before.candidates.contains(d));
                    assert(seen.contains(d));
                }
            }
            assert forall|lost: CandidateView, held: CandidateView|
                unseen.contains(lost) && !kept.contains(lost) && #[trigger] kept.contains(
                    held,
                ) implies #[trigger] held.newer(lost) by {
                let j = kept.index_of(held);
                assert(all[j] == held);
                assert(all.contains(held));
                if all.contains(lost) {
                    let i = all.index_of(lost);
                    if i < kept.len() {
                        assert(kept[i] == lost);
                        assert(kept.contains(lost));
                    }
                    assert(all[j].newer(all[i]));
                } else {
                    assert(lost != c);
                    assert(seen.contains(lost));
                    assert(!before.candidates.contains(lost));
                    assert(before.candidates.len() == limit);
                    if held == c {
                        let last = all[limit as int];
                        assert(all.contains(last));
                        assert(all[j].newer(last));
                        newer_is_an_order(c, c, c);
                        assert(last != c);
                        assert(before.candidates.contains(last));
                        assert(last.newer(lost));
                        newer_is_an_order(held, last, lost);
                    } else {
                        assert(before.candidates.contains(held));
                    }
                }
            }
            assert forall|lost: CandidateView| #[trigger] unseen.contains(lost) && !kept.contains(
                lost,
            ) implies kept.len() == limit by {
                if all.len() <= limit {
                    assert(kept == all);
                    assert(!all.contains(lost));
                    assert(lost != c);
                    assert(seen.contains(lost));
                    assert(!before.candidates.contains(lost));
                    assert(before.candidates.len() == limit);
                }
            }
        }
    }
}

proof fn lemma_head(
    window: CatalogWindowView,
    unseen: Set<CandidateView>,
    rest: Seq<CandidateView>,
    i: int,
)
    requires
        holds_newest(window, unseen),
        strictly_newest_first(rest),
        forall|c: CandidateView| #[trigger] unseen.contains(c) <==> rest.contains(c),
        0 <= i < window.candidates.len(),
    ensures
        i < rest.len(),
        window.candidates[i] == rest[i],
    decreases i,
{
    let held = window.candidates;
    if i > 0 {
        lemma_head(window, unseen, rest, i - 1);
    }
    assert forall|k: int| 0 <= k < i implies held[k] == #[trigger] rest[k] by {
        lemma_head(window, unseen, rest, k);
    }
    let c = held[i];
    assert(held.contains(c));
    assert(unseen.contains(c));
    assert(rest.contains(c));
    let t = rest.index_of(c);
    if t < i {
        assert(held[t] == rest[t]);
        assert(held[t].newer(held[i]));
        newer_is_an_order(c, c, c);
    }
    assert(i <= t);
    let wanted = rest[i];
    assert(rest.contains(wanted));
    assert(unseen.contains(wanted));
    if !held.contains(wanted) {
        assert(c.newer(wanted));
        newer_is_an_order(c, wanted, c);
        if i < t {
            assert(rest[i].newer(rest[t]));
        }
        assert(c != wanted);
        assert(false);
    }
    let s = held.index_of(wanted);
    if s < i {
        assert(rest[s] == wanted);
        assert(rest[s].newer(rest[i]));
        newer_is_an_order(wanted, wanted, wanted);
    } else if s > i {
        assert(held[i].newer(held[s]));
        newer_is_an_order(c, wanted, c);
        if i < t {
            assert(rest[i].newer(rest[t]));
        }
    }
}

proof fn lemma_window_is_head(
    window: CatalogWindowView,
    unseen: Set<CandidateView>,
    rest: Seq<CandidateView>,
)
    requires
        holds_newest(window, unseen),
        strictly_newest_first(rest),
        forall|c: CandidateView| #[trigger] unseen.contains(c) <==> rest.contains(c),
    ensures
        window.candidates == newest(rest, window_limit(window.limits)),
{
    let held = window.candidates;
    let limit = window_limit(window.limits);
    assert forall|i: int| 0 <= i < held.len() implies held[i] == #[trigger] rest[i] && i
        < rest.len() by {
        lemma_head(window, unseen, rest, i);
    }
    if held.len() > 0 {
        lemma_head(window, unseen, rest, held.len() - 1);
    }
    if held.len() < rest.len() && held.len() < limit {
        let c = rest[held.len() as int];
        assert(rest.contains(c));
        assert(unseen.contains(c));
        assert(held.contains(c));
        let k = held.index_of(c);
        assert(rest[k] == c);
        assert(rest[k].newer(rest[held.len() as int]));
        newer_is_an_order(c, c, c);
    }
    assert(held =~= newest(rest, limit));
}

proof fn lemma_distinct(files: Seq<CandidateView>)
    requires
        strictly_newest_first(files),
    ensures
        files.no_duplicates(),
{
    assert forall|i: int, j: int| 0 <= i < j < files.len() implies files[i] != files[j] by {
        assert(files[i].newer(files[j]));
        newer_is_an_order(files[i], files[j], files[i]);
    }
}

/// A page that begins behind the first `p` files deals with some more of them.
proof fn lemma_page(
    start: CatalogWindowView,
    listing: Seq<CandidateView>,
    files: SessionFiles,
    order: Seq<CandidateView>,
    p: int,
) -> (q: int)
    requires
        ranked(order),
        order.len() <= usize::MAX,
        0 <= p <= order.len(),
        start.limits.max_session_catalog_candidates > 0,
        start.limits.max_session_catalog_scan_files > 0,
        start.limits.max_session_catalog_page_entries > 0,
        start.candidates.len() == 0,
        start.candidates_after_cursor == 0,
        lists_exactly(listing, order),
        p == 0 ==> start.cursor is None,
        p > 0 ==> start.cursor is Some && cursor_position(start.cursor->0).level_with(order[p - 1]),
        catalog_page(start, listing, files) is Ok,
    ensures
        ({
            let page = catalog_page(start, listing, files)->Ok_0;
            &&& p <= q <= order.len()
            &&& page.sessions == files.shown_all(start.query, order.subrange(p, q))
            &&& page.truncated == (page.next_cursor is Some)
            &&& page.sessions.len() <= start.limits.max_session_catalog_page_entries
            &&& page.scanned_files <= start.limits.max_session_catalog_scan_files
            &&& page.next_cursor is None ==> q == order.len()
            &&& page.next_cursor is Some ==> q > p && cursor_position(
                page.next_cursor->0,
            ).level_with(order[q - 1])
        }),
{
    let rest = order.skip(p);
    assert(strictly_newest_first(rest)) by {
        assert forall|i: int, j: int| 0 <= i < j < rest.len() implies (#[trigger] rest[i]).newer(
            #[trigger] rest[j],
        ) by {
            assert(rest[i] == order[p + i]);
            assert(rest[j] == order[p + j]);
        }
    }
    assert(strictly_newest_first(order));
    lemma_distinct(order);
    lemma_distinct(rest);
    assert(listing.to_set() =~= order.to_set()) by {
        assert forall|c: CandidateView| listing.to_set().contains(c) == order.to_set().contains(
            c,
        ) by {
            assert(listing.contains(c) <==> order.contains(c));
        }
    }
    listing.unique_seq_to_set();
    order.unique_seq_to_set();
    assert(listing.len() == order.len());
    lemma_window(start, listing, order);
    let window = start.listed_all(listing);
    let unseen = unshown(start, listing);
    assert forall|c: CandidateView| #[trigger] unseen.contains(c) <==> rest.contains(c) by {
        if order.contains(c) {
            let k = order.index_of(c);
            assert(order[k] == c);
            if p > 0 {
                let at = cursor_position(start.cursor->0);
                let last = order[p - 1];
                newer_is_an_order(c, at, last);
                newer_is_an_order(c, last, at);
                newer_is_an_order(last, c, at);
                if k < p - 1 {
                    assert(order[k].newer(order[p - 1]));
                } else if k >= p {
                    assert(order[p - 1].newer(order[k]));
                    newer_is_an_order(last, c, last);
                }
            }
            if k >= p {
                assert(rest[k - p] == c);
            }
        }
        if rest.contains(c) {
            let k = rest.index_of(c);
            assert(order[p + k] == c);
            assert(order.contains(c));
            assert(order.index_of(c) == p + k);
        }
    }
    lemma_window_is_head(window, unseen, rest);
    assert(unseen =~= rest.to_set());
    rest.unique_seq_to_set();
    let scan = CatalogScanView::of(window);
    let n = lemma_gathered(scan, files);
    let page = catalog_page(start, listing, files)->Ok_0;
    assert(covers(scan, files, page, n));
    assert(scan.candidates.subrange(0, n) =~= order.subrange(p, p + n));
    assert(page.sessions =~= files.shown_all(start.query, order.subrange(p, p + n)));
    if page.next_cursor is Some {
        if n == 0 {
            assert(scan.consumed is None);
        }
        assert(scan.candidates[n - 1] == order[p + n - 1]);
    } else {
        if scan.candidates.len() > 0 {
            assert(n > 0);
        }
    }
    p + n
}

proof fn lemma_pages(
    start: CatalogWindowView,
    files: SessionFiles,
    order: Seq<CandidateView>,
    listings: Seq<Seq<CandidateView>>,
    pages: Seq<CatalogPageView>,
    k: int,
) -> (q: int)
    requires
        paged(start, files, order, listings, pages),
        0 <= k <= pages.len(),
    ensures
        0 <= q <= order.len(),
        all_sessions(pages.take(k)) == files.shown_all(start.query, order.take(q)),
        k == 0 ==> q == 0,
        k > 0 ==> {
            let page = pages[k - 1];
            &&& page.truncated == (page.next_cursor is Some)
            &&& page.sessions.len() <= start.limits.max_session_catalog_page_entries
            &&& page.scanned_files <= start.limits.max_session_catalog_scan_files
            &&& page.next_cursor is None ==> q == order.len()
            &&& page.next_cursor is Some ==> q > 0 && cursor_position(
                page.next_cursor->0,
            ).level_with(order[q - 1])
        },
    decreases k,
{
    if k == 0 {
        assert(pages.take(0) =~= Seq::<CatalogPageView>::empty());
        assert(order.take(0) =~= Seq::<CandidateView>::empty());
        0
    } else {
        let p = lemma_pages(start, files, order, listings, pages, k - 1);
        let from = begins_at(start, pages, k - 1);
        assert(catalog_page(from, listings[k - 1], files) == Ok::<
            CatalogPageView,
            SessionCatalogError,
        >(pages[k - 1]));
        if k > 1 {
            assert(pages[k - 2].next_cursor is Some);
        }
        let q = lemma_page(from, listings[k - 1], files, order, p);
        assert(pages.take(k).drop_last() =~= pages.take(k - 1));
        assert(order.take(q) =~= order.take(p) + order.subrange(p, q));
        lemma_shown_concat(files, start.query, order.take(p), order.subrange(p, q));
        q
    }
}

/// How the listing for the page of this number begins.
pub open spec fn begins_at(
    start: CatalogWindowView,
    pages: Seq<CatalogPageView>,
    k: int,
) -> CatalogWindowView {
    CatalogWindowView::begun(
        start.scope_sha256,
        cursor_of(pages, k),
        start.query,
        start.directory_source,
        start.limits,
    )
}

/// Whether these are all pages of a catalog, each continued by the next, of a directory
/// that lists the same files every time, in whatever order.
pub open spec fn paged(
    start: CatalogWindowView,
    files: SessionFiles,
    order: Seq<CandidateView>,
    listings: Seq<Seq<CandidateView>>,
    pages: Seq<CatalogPageView>,
) -> bool {
    &&& ranked(order)
    &&& order.len() <= usize::MAX
    &&& start.limits.max_session_catalog_candidates > 0
    &&& start.limits.max_session_catalog_scan_files > 0
    &&& start.limits.max_session_catalog_page_entries > 0
    &&& listings.len() == pages.len()
    &&& forall|k: int| 0 <= k < pages.len() ==> lists_exactly(#[trigger] listings[k], order)
    &&& forall|k: int|
        0 <= k < pages.len() ==> catalog_page(
            begins_at(start, pages, k),
            #[trigger] listings[k],
            files,
        ) == Ok::<CatalogPageView, SessionCatalogError>(pages[k])
    &&& forall|k: int|
        0 <= k < pages.len() - 1 ==> (#[trigger] pages[k]).next_cursor is Some
}

proof fn lemma_shown_in_order(
    files: SessionFiles,
    query: Option<Seq<char>>,
    order: Seq<CandidateView>,
)
    requires
        strictly_newest_first(order),
    ensures
        forall|i: int, j: int|
            0 <= i < j < files.shown_all(query, order).len() ==> (#[trigger] files.shown_all(
                query,
                order,
            )[i]).modified_unix_ms >= (#[trigger] files.shown_all(query, order)[j]).modified_unix_ms,
        forall|i: int|
            0 <= i < files.shown_all(query, order).len() ==> (#[trigger] files.shown_all(
                query,
                order,
            )[i]).modified_unix_ms >= order.last().modified_unix_ms,
    decreases order.len(),
{
    if order.len() > 0 {
        let rest = order.drop_last();
        assert(strictly_newest_first(rest));
        lemma_shown_in_order(files, query, rest);
        if rest.len() > 0 {
            assert(order[order.len() - 2].newer(order[order.len() - 1]));
            assert(rest.last() == order[order.len() - 2]);
        }
    }
}

/// All pages of a catalog together show each session of the project that the query
/// finds exactly once, the newest first, and no other; and each page keeps its limits.
/// The directory lists the same files every time, in whatever order.
pub proof fn pages_show_each_session_once(
    start: CatalogWindowView,
    files: SessionFiles,
    order: Seq<CandidateView>,
    listings: Seq<Seq<CandidateView>>,
    pages: Seq<CatalogPageView>,
)
    requires
        paged(start, files, order, listings, pages),
        pages.len() > 0,
        pages.last().next_cursor is None,
    ensures
        all_sessions(pages) == files.shown_all(start.query, order),
        forall|i: int, j: int|
            0 <= i < j < all_sessions(pages).len() ==> (#[trigger] all_sessions(
                pages,
            )[i]).modified_unix_ms >= (#[trigger] all_sessions(pages)[j]).modified_unix_ms,
        forall|k: int|
            0 <= k < pages.len() ==> {
                let page = #[trigger] pages[k];
                &&& page.truncated == (page.next_cursor is Some)
                &&& page.sessions.len() <= start.limits.max_session_catalog_page_entries
                &&& page.scanned_files <= start.limits.max_session_catalog_scan_files
            },
{
    let q = lemma_pages(start, files, order, listings, pages, pages.len() as int);
    assert(pages.take(pages.len() as int) =~= pages);
    assert(pages[pages.len() - 1].next_cursor is None);
    assert(order.take(q) =~= order);
    assert(strictly_newest_first(order));
    lemma_shown_in_order(files, start.query, order);
    assert forall|k: int| 0 <= k < pages.len() implies {
        let page = #[trigger] pages[k];
        &&& page.truncated == (page.next_cursor is Some)
        &&& page.sessions.len() <= start.limits.max_session_catalog_page_entries
        &&& page.scanned_files <= start.limits.max_session_catalog_scan_files
    } by {
        let _ = lemma_pages(start, files, order, listings, pages, k + 1);
    }
}

} // verus!
