//! What the previews of sessions show, and what a search finds.
use vstd::prelude::*;
use vstd::string::*;
use vstd::utf8::*;

use crate::json::{json_parsed, JsonTree};
use crate::limits::RuntimeLimits;
use crate::paths::split_on;
use crate::session_catalog::{
    names_session_file, request_refusal, searched, session_cwd_of, CandidateView,
    CatalogCursorView, CatalogScanView, CatalogStep, SessionCatalogError,
};
use crate::session_preview::{
    entry_found, file_name_of, joined_blocks, lowercased, message_preview, preview_lengths,
    session_named_by, shown_entry, text_lines, user_preview, CatalogEntryView, PreviewView,
};
use crate::text::{
    byte_len, find_text, lemma_encode_concat, lemma_encode_first, lemma_prefix_within,
    prefix_within, trimmed,
};
use crate::text_laws::{stands_in, text_is_found_where_it_stands};
use crate::timeline_laws::texts_under;

verus! {

/// A query finds an entry if and only if it stands, whatever the case, in the identity of the
/// session, in the name of its file, in its name or in its first message.
pub proof fn a_search_looks_everywhere(entry: CatalogEntryView, query: Seq<char>)
    ensures
        entry_found(entry, query) <==> {
            ||| stands_in(query, lowercased(entry.id))
            ||| file_name_of(entry.path) is Some && stands_in(
                query,
                lowercased(file_name_of(entry.path)->0),
            )
            ||| entry.name is Some && stands_in(query, lowercased(entry.name->0))
            ||| entry.first_message is Some && stands_in(query, lowercased(entry.first_message->0))
        },
{
    text_is_found_where_it_stands(lowercased(entry.id), query);
    if file_name_of(entry.path) is Some {
        text_is_found_where_it_stands(lowercased(file_name_of(entry.path)->0), query);
    }
    if entry.name is Some {
        text_is_found_where_it_stands(lowercased(entry.name->0), query);
    }
    if entry.first_message is Some {
        text_is_found_where_it_stands(lowercased(entry.first_message->0), query);
    }
}

/// What a longer query finds, a query that stands in it finds as well.
pub proof fn a_shorter_query_finds_no_less(
    entry: CatalogEntryView,
    query: Seq<char>,
    shorter: Seq<char>,
)
    requires
        entry_found(entry, query),
        stands_in(shorter, query),
    ensures
        entry_found(entry, shorter),
{
    a_search_looks_everywhere(entry, query);
    a_search_looks_everywhere(entry, shorter);
    lemma_stands_through(shorter, query, lowercased(entry.id));
    if file_name_of(entry.path) is Some {
        lemma_stands_through(shorter, query, lowercased(file_name_of(entry.path)->0));
    }
    if entry.name is Some {
        lemma_stands_through(shorter, query, lowercased(entry.name->0));
    }
    if entry.first_message is Some {
        lemma_stands_through(shorter, query, lowercased(entry.first_message->0));
    }
}

proof fn lemma_stands_through(a: Seq<char>, b: Seq<char>, c: Seq<char>)
    requires
        stands_in(a, b),
    ensures
        stands_in(b, c) ==> stands_in(a, c),
{
    if stands_in(b, c) {
        let i = choose|at: int|
            0 <= at && at + a.len() <= b.len() && #[trigger] b.subrange(at, at + a.len()) == a;
        let j = choose|at: int|
            0 <= at && at + b.len() <= c.len() && #[trigger] c.subrange(at, at + b.len()) == b;
        assert(c.subrange(i + j, i + j + a.len()) =~= b.subrange(i, i + a.len()));
    }
}

/// What is searched for is what the user typed, without the white space around it and in
/// lower case; white space alone searches for nothing.
pub proof fn a_query_is_searched_in_lower_case(query: Option<&str>)
    ensures
        query is None ==> searched(query) is None,
        query is Some && trimmed(query->0@).len() == 0 ==> searched(query) is None,
        query is Some && trimmed(query->0@).len() > 0 ==> searched(query) == Some(
            lowercased(trimmed(query->0@)),
        ),
{
}

/// A request for a page is refused if and only if its query or the path of its cursor is too
/// long, or a digest of its cursor is none.
pub proof fn requests_for_pages_are_bounded(
    query: Option<&str>,
    cursor: Option<CatalogCursorView>,
    limits: RuntimeLimits,
)
    ensures
        ({
            let long = query is Some && byte_len(trimmed(query->0@))
                > limits.max_session_catalog_query_bytes && trimmed(query->0@).len() > 0;
            let far = cursor is Some && byte_len(cursor->0.path) > limits.max_session_cursor_bytes;
            let odd = cursor is Some && (!crate::digest::is_digest(cursor->0.scope_sha256)
                || !crate::digest::is_digest(cursor->0.snapshot_sha256));
            &&& request_refusal(query, cursor, limits) is Some <==> long || far || odd
            &&& long ==> request_refusal(query, cursor, limits)->0 is QueryTooLarge
            &&& !long && far ==> request_refusal(query, cursor, limits)->0 is CursorTooLarge
            &&& !long && !far && odd ==> request_refusal(query, cursor, limits) == Some(
                SessionCatalogError::InvalidCursorDigest,
            )
        }),
{
}

/// What a search does not find is passed over; what it finds is shown with the time of its
/// file, behind what is shown already, as long as the page has room for it.
pub proof fn a_page_shows_what_is_found(scan: CatalogScanView, shown: CatalogEntryView)
    requires
        0 <= scan.next < scan.candidates.len(),
    ensures
        ({
            let entry = CatalogEntryView {
                modified_unix_ms: scan.candidates[scan.next].modified_unix_ms,
                ..shown
            };
            let found = scan.query is None || entry_found(entry, scan.query->0);
            let (after, step) = scan.previewed(Some(shown));
            &&& !found ==> after.sessions == scan.sessions && after.next == scan.next + 1 && !(step
                is Fail)
            &&& found && after.next == scan.next + 1 ==> after.sessions == scan.sessions.push(entry)
            &&& found && after.next != scan.next + 1 ==> after == scan && (step is Page || step
                is Fail)
            &&& found && step is Fail ==> scan.sessions.len() == 0
            &&& step is Page && after == scan ==> step->Page_0.next_cursor is Some
                || scan.consumed is None
        }),
        scan.previewed(None).0.sessions == scan.sessions,
        scan.previewed(None).0.next == scan.next + 1,
        scan.header_checked(false).0.sessions == scan.sessions,
        scan.header_checked(false).0.next == scan.next + 1,
        scan.header_checked(false).0.scanned_files == scan.scanned_files,
        scan.header_checked(true).0.next == scan.next,
        scan.scanned_files < scan.limits.max_session_catalog_scan_files
            ==> scan.header_checked(true).1 == CatalogStep::Preview(
            scan.candidates[scan.next].path,
        ) && scan.header_checked(true).0.scanned_files == scan.scanned_files + 1,
        scan.scanned_files >= scan.limits.max_session_catalog_scan_files
            ==> scan.header_checked(true).1 is Page,
{
}

/// Later changes go first, and among files of the same time the later path.
pub proof fn the_newest_session_goes_first(a: CandidateView, b: CandidateView)
    ensures
        a.modified_unix_ms > b.modified_unix_ms ==> a.newer(b) && !b.newer(a),
        a.modified_unix_ms == b.modified_unix_ms ==> (a.newer(b) <==> crate::keyed::text_before(
            b.place,
            a.place,
        )),
{
}

/// The pieces of a text with a separator between each two make the text again, and no piece
/// holds the separator.
pub proof fn pieces_make_the_text_again(s: Seq<char>, separator: char)
    ensures
        split_on(s, separator).len() > 0,
        with_between(split_on(s, separator), separator) == s,
        forall|i: int, k: int|
            0 <= i < split_on(s, separator).len() && 0 <= k < split_on(s, separator)[i].len()
                ==> #[trigger] split_on(s, separator)[i][k] != separator,
    decreases s.len(),
{
    if s.len() == 0 {
        let pieces = split_on(s, separator);
        assert(pieces =~= seq![Seq::<char>::empty()]);
        assert(with_between(pieces, separator) =~= s);
    } else {
        let rest = s.drop_last();
        pieces_make_the_text_again(rest, separator);
        let before = split_on(rest, separator);
        let pieces = split_on(s, separator);
        if s.last() == separator {
            assert(pieces.drop_last() =~= before);
            assert(with_between(pieces, separator) =~= s);
        } else {
            let longer = before.last().push(s.last());
            assert(pieces.drop_last() =~= before.drop_last());
            assert(pieces.last() == longer);
            assert(rest.push(s.last()) =~= s);
            if before.len() == 1 {
                assert(pieces.len() == 1);
                assert(before.last() == before[0]);
                assert(pieces[0] == longer);
                assert(with_between(pieces, separator) == longer);
            } else {
                assert(pieces.len() == before.len());
                assert(with_between(before, separator) == with_between(
                    before.drop_last(),
                    separator,
                ).push(separator) + before.last());
                assert(with_between(pieces, separator) =~= s);
            }
        }
        assert forall|i: int, k: int|
            0 <= i < pieces.len() && 0 <= k < pieces[i].len() implies #[trigger] pieces[i][k]
            != separator by {
            if i < pieces.len() - 1 {
                assert(pieces[i] == before[i]);
                assert(before[i][k] != separator);
            } else if s.last() != separator && k < before.last().len() {
                assert(before[before.len() - 1][k] != separator);
            }
        }
    }
}

/// These pieces with a separator between each two.
pub open spec fn with_between(pieces: Seq<Seq<char>>, separator: char) -> Seq<char>
    decreases pieces.len(),
{
    if pieces.len() == 0 {
        Seq::empty()
    } else if pieces.len() == 1 {
        pieces[0]
    } else {
        with_between(pieces.drop_last(), separator).push(separator) + pieces.last()
    }
}

/// The lines of a text are its pieces between line feeds: what follows the last one only
/// where it is not empty, and each ended line without a carriage return before its end.
pub proof fn lines_are_what_stands_between_line_feeds(s: Seq<char>)
    ensures
        ({
            let pieces = split_on(s, '\n');
            let lines = text_lines(s);
            let n = pieces.len() - 1;
            &&& n <= lines.len() <= n + 1
            &&& lines.len() == n + 1 <==> s.len() > 0 && s.last() != '\n'
            &&& lines.len() == n + 1 ==> lines.last() == pieces.last()
            &&& forall|i: int|
                0 <= i < n ==> #[trigger] lines[i] == pieces[i] || (pieces[i].len() > 0
                    && pieces[i].last() == '\r' && lines[i] == pieces[i].drop_last())
            &&& forall|i: int|
                0 <= i < n && (pieces[i].len() == 0 || pieces[i].last() != '\r')
                    ==> #[trigger] lines[i] == pieces[i]
            &&& forall|i: int|
                0 <= i < n && pieces[i].len() > 0 && pieces[i].last() == '\r'
                    ==> #[trigger] lines[i] == pieces[i].drop_last()
        }),
{
    pieces_make_the_text_again(s, '\n');
    let pieces = split_on(s, '\n');
    if s.len() > 0 {
        if s.last() == '\n' {
            assert(pieces.last() =~= Seq::<char>::empty());
        } else {
            assert(pieces.last().len() > 0);
        }
    }
}

/// A preview of a message shows its start without the white space around it, up to a bound;
/// one without visible text shows nothing.
pub proof fn plain_messages_are_previewed_from_their_start(message: Seq<char>)
    ensures
        user_preview(message) is None <==> trimmed(message).len() == 0,
        trimmed(message).len() > 0 && !("<skill name=\""@.is_prefix_of(trimmed(message)))
            ==> user_preview(message) == Some(prefix_within(trimmed(message), 1024)),
        trimmed(message).len() > 0 && !stands_in("</skill>"@, trimmed(message)) ==> user_preview(
            message,
        ) == Some(prefix_within(trimmed(message), 1024)),
{
    text_is_found_where_it_stands(trimmed(message), "</skill>"@);
}

/// Of a message that a skill was put in front of, only what the user wrote is shown: what
/// follows the end of the skill, without the mark of the user. Where that is nothing, the
/// name of the skill is shown.
pub proof fn skills_are_not_shown_in_place_of_the_task(
    message: Seq<char>,
    name: Seq<char>,
    body: Seq<char>,
    task: Seq<char>,
)
    requires
        trimmed(message) == "<skill name=\""@ + name + "\""@ + body + "</skill>"@ + task,
        !stands_in("\""@, name),
        find_text(trimmed(message), "</skill>"@) == Some(
            ("<skill name=\""@ + name + "\""@ + body).len() as int,
        ),
    ensures
        ({
            let rest = trimmed(task);
            let own = if "User:"@.is_prefix_of(rest) {
                trimmed(rest.skip("User:"@.len() as int))
            } else {
                rest
            };
            user_preview(message) == (if own.len() > 0 {
                Some(prefix_within(own, 1024))
            } else {
                Some("[skill] "@ + prefix_within(name, 256))
            })
        }),
{
    let value = trimmed(message);
    let opening = "<skill name=\""@;
    let quote = "\""@;
    reveal_strlit("\"");
    reveal_strlit("</skill>");
    assert(quote.len() == 1);
    assert(opening.is_prefix_of(value)) by {
        assert(value.take(opening.len() as int) =~= opening);
    }
    let after = value.skip(opening.len() as int);
    assert(after =~= name + quote + body + "</skill>"@ + task);
    text_is_found_where_it_stands(after, quote);
    assert(after.subrange(name.len() as int, name.len() as int + quote.len()) =~= quote);
    assert(stands_in(quote, after));
    let at = find_text(after, quote)->0;
    assert(at == name.len()) by {
        if at < name.len() {
            assert(after.subrange(at, at + quote.len()) =~= name.subrange(at, at + quote.len()));
        } else if at > name.len() {
            assert(after.subrange(name.len() as int, name.len() as int + quote.len()) != quote);
        }
    }
    assert(after.take(at) =~= name);
    let end = ("<skill name=\""@ + name + "\""@ + body).len() as int;
    assert(value.skip(end + "</skill>"@.len()) =~= task);
    assert(value.len() > 0);
}

/// The texts one behind the other, with a space between.
pub open spec fn in_words(texts: Seq<Seq<char>>) -> Seq<char>
    decreases texts.len(),
{
    if texts.len() == 0 {
        Seq::empty()
    } else {
        let before = in_words(texts.drop_last());
        if before.len() == 0 {
            texts.last()
        } else {
            before + seq![' '] + texts.last()
        }
    }
}

proof fn lemma_words_grow(texts: Seq<Seq<char>>, more: Seq<Seq<char>>)
    ensures
        byte_len(in_words(texts)) <= byte_len(in_words(texts + more)),
        in_words(texts).len() > 0 && more.len() > 0 ==> byte_len(in_words(texts)) < byte_len(
            in_words(texts + more),
        ),
    decreases more.len(),
{
    if more.len() == 0 {
        assert(texts + more =~= texts);
    } else {
        let less = more.drop_last();
        lemma_words_grow(texts, less);
        assert((texts + more).drop_last() =~= texts + less);
        let before = in_words(texts + less);
        lemma_encode_concat(before, seq![' ']);
        lemma_encode_concat(before + seq![' '], more.last());
        lemma_encode_first(seq![' ']);
        if before.len() == 0 {
            assert(before =~= Seq::<char>::empty());
            assert(byte_len(Seq::<char>::empty()) == 0);
            if in_words(texts).len() > 0 {
                lemma_encode_first(in_words(texts));
            }
        }
    }
}

proof fn lemma_joined(blocks: Seq<JsonTree>, done: Seq<JsonTree>)
    requires
        byte_len(in_words(texts_under(done + blocks, "text"@, "text"@))) <= 1024,
    ensures
        joined_blocks(blocks, in_words(texts_under(done, "text"@, "text"@))) == in_words(
            texts_under(done + blocks, "text"@, "text"@),
        ),
    decreases blocks.len(),
{
    let texts = texts_under(done, "text"@, "text"@);
    let gathered = in_words(texts);
    if blocks.len() == 0 {
        assert(done + blocks =~= done);
    } else {
        let block = blocks[0];
        let rest = blocks.drop_first();
        let next = done.push(block);
        assert(next + rest =~= done + blocks);
        assert(next.drop_last() =~= done);
        assert(next.last() == block);
        lemma_joined(rest, next);
        let all = texts_under(done + blocks, "text"@, "text"@);
        lemma_under_concat(next, rest);
        match (block.member("type"@), block.member("text"@)) {
            (Some(JsonTree::Text(kind)), Some(JsonTree::Text(text))) => {
                if kind == "text"@ {
                    let more = texts_under(next, "text"@, "text"@);
                    assert(more == texts.push(text));
                    assert(more.drop_last() =~= texts);
                    let added = in_words(more);
                    lemma_words_grow(more, texts_under(rest, "text"@, "text"@));
                    assert(byte_len(added) <= 1024);
                    let spaced = if gathered.len() == 0 {
                        gathered
                    } else {
                        gathered.push(' ')
                    };
                    assert(gathered.push(' ') =~= gathered + seq![' ']);
                    if gathered.len() == 0 {
                        assert(gathered =~= Seq::<char>::empty());
                        assert(byte_len(Seq::<char>::empty()) == 0);
                        assert(spaced + text =~= text);
                        assert(added == text);
                    } else {
                        assert(added == spaced + text);
                    }
                    lemma_encode_concat(spaced, text);
                    if byte_len(spaced) >= 1024 {
                        assert(byte_len(text) == 0);
                        assert(text.len() == 0) by {
                            if text.len() > 0 {
                                lemma_encode_first(text);
                            }
                        }
                        assert(spaced + text =~= spaced);
                        assert(spaced.len() > 0) by {
                            if spaced.len() == 0 {
                                assert(spaced =~= Seq::<char>::empty());
                            }
                        }
                    } else {
                        lemma_prefix_within(text, (1024 - byte_len(spaced)) as nat);
                    }
                    if byte_len(added) >= 1024 {
                        assert(added.len() > 0) by {
                            if added.len() == 0 {
                                assert(added =~= Seq::<char>::empty());
                            }
                        }
                        lemma_nothing_follows(more, texts_under(rest, "text"@, "text"@));
                        assert(all =~= more);
                    }
                }
            },
            _ => {},
        }
    }
}

proof fn lemma_nothing_follows(texts: Seq<Seq<char>>, more: Seq<Seq<char>>)
    requires
        in_words(texts).len() > 0,
        byte_len(in_words(texts)) >= 1024,
        byte_len(in_words(texts + more)) <= 1024,
    ensures
        more.len() == 0,
{
    lemma_words_grow(texts, more);
}

proof fn lemma_under_concat(a: Seq<JsonTree>, b: Seq<JsonTree>)
    ensures
        texts_under(a + b, "text"@, "text"@) == texts_under(a, "text"@, "text"@) + texts_under(
            b,
            "text"@,
            "text"@,
        ),
    decreases b.len(),
{
    if b.len() == 0 {
        assert(a + b =~= a);
        assert(texts_under(a, "text"@, "text"@) + texts_under(b, "text"@, "text"@) =~= texts_under(
            a,
            "text"@,
            "text"@,
        ));
    } else {
        lemma_under_concat(a, b.drop_last());
        assert((a + b).drop_last() =~= a + b.drop_last());
        assert(texts_under(a + b, "text"@, "text"@) =~= texts_under(a, "text"@, "text"@)
            + texts_under(b, "text"@, "text"@));
    }
}

/// The preview of a message in blocks is that of the texts of its text blocks with a space
/// between, where they are no longer than a preview takes. A message that is one text is
/// previewed as that text, and one without content is not.
pub proof fn messages_in_blocks_are_previewed_together(message: JsonTree, blocks: Seq<JsonTree>)
    ensures
        message.member("content"@) == Some(JsonTree::List(blocks)) && byte_len(
            in_words(texts_under(blocks, "text"@, "text"@)),
        ) <= 1024 ==> message_preview(message) == user_preview(
            in_words(texts_under(blocks, "text"@, "text"@)),
        ),
        match message.member("content"@) {
            Some(JsonTree::Text(text)) => message_preview(message) == user_preview(text),
            Some(JsonTree::List(_)) => true,
            _ => message_preview(message) is None,
        },
{
    if byte_len(in_words(texts_under(blocks, "text"@, "text"@))) <= 1024 {
        let none = Seq::<JsonTree>::empty();
        assert(none + blocks =~= blocks);
        assert(in_words(texts_under(none, "text"@, "text"@)) =~= Seq::<char>::empty());
        lemma_joined(blocks, none);
    }
}

/// The name of a session is the one that was given last, and its first message is the first
/// one of the user with visible text; nothing else in a session changes either.
pub proof fn a_session_has_its_last_name_and_its_first_message(
    preview: PreviewView,
    entry: JsonTree,
)
    ensures
        ({
            let after = preview.with_entry(entry);
            let is_name = entry.member("type"@) == Some(JsonTree::Text("session_info"@));
            let is_message = entry.member("type"@) == Some(JsonTree::Text("message"@));
            &&& is_name ==> after.first_message == preview.first_message && match entry.member(
                "name"@,
            ) {
                Some(JsonTree::Text(name)) => after.name == (if trimmed(name).len() == 0 {
                    None
                } else {
                    Some(trimmed(name))
                }),
                _ => after.name is None,
            }
            &&& !is_name ==> after.name == preview.name
            &&& preview.first_message is Some ==> after.first_message == preview.first_message
            &&& is_message && preview.first_message is None ==> match entry.member("message"@) {
                Some(message) => if message.member("role"@) == Some(JsonTree::Text("user"@)) {
                    after.first_message == message_preview(message)
                } else {
                    after.first_message is None
                },
                None => after.first_message is None,
            }
            &&& !is_name && !is_message ==> after == preview
        }),
{
    reveal_strlit("session_info");
    reveal_strlit("message");
    assert("session_info"@.len() != "message"@.len());
}

/// A preview reads lines one after the other, whatever they are split into: those that are
/// no documents change nothing.
pub proof fn previews_read_line_by_line(
    preview: PreviewView,
    a: Seq<Seq<char>>,
    b: Seq<Seq<char>>,
)
    ensures
        preview.with_lines(a + b) == preview.with_lines(a).with_lines(b),
        b.len() == 1 ==> preview.with_lines(b) == match json_parsed(encode_utf8(b[0])) {
            Some(entry) => preview.with_entry(entry),
            None => preview,
        },
    decreases b.len(),
{
    if b.len() == 0 {
        assert(a + b =~= a);
    } else {
        previews_read_line_by_line(preview, a, b.drop_last());
        assert((a + b).drop_last() =~= a + b.drop_last());
        if b.len() == 1 {
            assert(b.drop_last() =~= Seq::<Seq<char>>::empty());
            assert(preview.with_lines(b.drop_last()) == preview);
        }
    }
}

/// A file that fits the budget is read whole. Of a longer one as much as the budget allows is
/// read, two thirds of it from the start and the rest from the end.
pub proof fn previews_use_their_whole_budget(file_len: usize, budget: usize)
    ensures
        ({
            let (head, tail) = preview_lengths(file_len, budget);
            &&& file_len <= budget ==> head == file_len && tail == 0
            &&& file_len > budget ==> head + tail == budget && 3 * head <= 2 * budget && 2 * budget
                < 3 * head + 3
            &&& head + tail <= file_len
        }),
{
}

/// A header names a session if it is of that type and has an identity and a directory.
pub proof fn headers_name_their_session(header: JsonTree, id: Seq<char>, cwd: Seq<char>)
    ensures
        session_named_by(header) == Some((id, cwd)) <==> header.member("type"@) == Some(
            JsonTree::Text("session"@),
        ) && header.member("id"@) == Some(JsonTree::Text(id)) && header.member("cwd"@) == Some(
            JsonTree::Text(cwd),
        ),
        session_cwd_of(header) == Some(cwd) <==> header.member("type"@) == Some(
            JsonTree::Text("session"@),
        ) && header.member("cwd"@) == Some(JsonTree::Text(cwd)),
{
}

/// An entry shows the path, and the start of the identity, of the name and of the first
/// message; each whole where it is short enough.
pub proof fn entries_show_what_the_preview_found(
    path: Seq<char>,
    id: Seq<char>,
    preview: PreviewView,
    incomplete: bool,
    limits: RuntimeLimits,
)
    ensures
        ({
            let entry = shown_entry(path, id, preview, incomplete, limits);
            &&& entry.path == path
            &&& entry.preview_incomplete == incomplete
            &&& entry.id.is_prefix_of(id)
            &&& byte_len(id) <= 512 && byte_len(id) <= limits.max_session_cursor_bytes ==> entry.id
                == id
            &&& byte_len(entry.id) <= 512 && byte_len(entry.id) <= limits.max_session_cursor_bytes
            &&& entry.name is Some <==> preview.name is Some
            &&& preview.name is Some ==> entry.name->0 == prefix_within(preview.name->0, 512) && (
            byte_len(preview.name->0) <= 512 ==> entry.name == preview.name)
            &&& entry.first_message is Some <==> preview.first_message is Some
            &&& preview.first_message is Some ==> entry.first_message->0 == prefix_within(
                preview.first_message->0,
                512,
            ) && (byte_len(preview.first_message->0) <= 512 ==> entry.first_message
                == preview.first_message)
        }),
{
    let max = if limits.max_session_cursor_bytes < 512 {
        limits.max_session_cursor_bytes as nat
    } else {
        512
    };
    lemma_prefix_within(id, max);
    if preview.name is Some {
        lemma_prefix_within(preview.name->0, 512);
    }
    if preview.first_message is Some {
        lemma_prefix_within(preview.first_message->0, 512);
    }
}

/// A path names a session file if and only if its last component ends in `.jsonl` and is
/// longer than that.
pub proof fn session_files_end_in_jsonl(path: Seq<char>, stem: Seq<char>)
    ensures
        file_name_of(path) == Some(stem + ".jsonl"@) && stem.len() > 0 ==> names_session_file(path),
        names_session_file(path) ==> file_name_of(path) is Some && exists|before: Seq<char>|
            before.len() > 0 && file_name_of(path)->0 == #[trigger] (before + ".jsonl"@),
{
    reveal_strlit(".jsonl");
    let suffix = ".jsonl"@;
    if file_name_of(path) == Some(stem + suffix) {
        let name = stem + suffix;
        assert(name.skip(name.len() - suffix.len()) =~= suffix);
    }
    if names_session_file(path) {
        let name = file_name_of(path)->0;
        let before = name.take(name.len() - suffix.len());
        assert(before + suffix =~= name);
    }
}

} // verus!
