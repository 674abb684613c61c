//! Where sessions are looked for, and what their files have to say.
use vstd::prelude::*;
use vstd::string::*;

use crate::json::JsonTree;
use crate::jsonc::{plain_json, uncommented, without_trailing_commas, JsoncMode};
use crate::limits::RuntimeLimits;
use crate::paths::{
    named_pieces, path_components, path_is_absolute, path_joined, path_within, split_on,
};
use crate::session_directory::{
    chosen_setting, in_home, pi_path, project_directory_name, without_root,
};
use crate::session_history::{
    cursor_refusal, first_line_len, named_directory, GatheringView, HistoryCursorView,
    HistoryErrorView, HistoryTargetView, LineVerdict,
};
use crate::session_preview_laws::pieces_make_the_text_again;
use crate::text::byte_len;

verus! {

/// The environment decides before the settings of the project, and those before the settings
/// of the user.
pub proof fn the_environment_decides_first(
    environment: Option<&str>,
    project: Option<&str>,
    global: Option<&str>,
)
    ensures
        environment is Some ==> chosen_setting(environment, project, global) == Some(
            environment->0@,
        ),
        environment is None && project is Some ==> chosen_setting(environment, project, global)
            == Some(project->0@),
        environment is None && project is None && global is Some ==> chosen_setting(
            environment,
            project,
            global,
        ) == Some(global->0@),
        environment is None && project is None && global is None ==> chosen_setting(
            environment,
            project,
            global,
        ) is None,
{
}

/// A setting is an absolute path as it stands, a path in the home directory behind a tilde, or
/// else a path below the present directory.
pub proof fn settings_name_absolute_paths(
    rest: Seq<char>,
    value: Seq<char>,
    cwd: Seq<char>,
    home: Seq<char>,
)
    requires
        path_is_absolute(home),
        path_is_absolute(cwd),
    ensures
        path_is_absolute(value) ==> !in_home(value) && pi_path(value, cwd, home) == value,
        pi_path("~"@, cwd, home) == home,
        pi_path("~/"@ + rest, cwd, home) == path_joined(home, rest),
        pi_path("~\\"@ + rest, cwd, home) == path_joined(home, rest),
        !path_is_absolute(value) && !in_home(value) ==> pi_path(value, cwd, home) == path_joined(
            cwd,
            value,
        ),
        in_home(value) <==> value == "~"@ || (value.len() >= 2 && value[0] == '~' && (value[1]
            == '/' || value[1] == '\\')),
{
    reveal_strlit("~");
    reveal_strlit("~/");
    reveal_strlit("~\\");
    let slash = "~/"@ + rest;
    let backslash = "~\\"@ + rest;
    assert(slash.skip(2) =~= rest);
    assert(backslash.skip(2) =~= rest);
    assert("~/"@.is_prefix_of(slash)) by {
        assert(slash.take(2) =~= "~/"@);
    }
    assert("~\\"@.is_prefix_of(backslash)) by {
        assert(backslash.take(2) =~= "~\\"@);
    }
    assert(slash != "~"@) by {
        assert(slash.len() != "~"@.len());
    }
    assert(backslash != "~"@) by {
        assert(backslash.len() != "~"@.len());
    }
    assert(path_is_absolute(path_joined(home, rest)));
    if value.len() >= 2 && value[0] == '~' && value[1] == '/' {
        assert(value.take(2) =~= "~/"@);
    }
    if value.len() >= 2 && value[0] == '~' && value[1] == '\\' {
        assert(value.take(2) =~= "~\\"@);
    }
    if "~/"@.is_prefix_of(value) {
        assert(value.take(2)[0] == '~' && value.take(2)[1] == '/');
    }
    if "~\\"@.is_prefix_of(value) {
        assert(value.take(2)[0] == '~' && value.take(2)[1] == '\\');
    }
}

proof fn lemma_without_root(path: Seq<char>) -> (from: int)
    ensures
        0 <= from <= path.len(),
        without_root(path) == path.skip(from),
        forall|k: int| 0 <= k < from ==> path[k] == '/' || path[k] == '\\',
        from < path.len() ==> path[from] != '/' && path[from] != '\\',
    decreases path.len(),
{
    if path.len() > 0 && (path[0] == '/' || path[0] == '\\') {
        let rest = path.drop_first();
        let from = lemma_without_root(rest);
        assert(rest.skip(from) =~= path.skip(from + 1));
        assert forall|k: int| 0 <= k < from + 1 implies path[k] == '/' || path[k] == '\\' by {
            if k > 0 {
                assert(rest[k - 1] == path[k]);
            }
        }
        from + 1
    } else {
        assert(path.skip(0) =~= path);
        0
    }
}

/// The directory of a project is named after its path, without the separators at its start: a
/// separator or a colon becomes a hyphen, every other character stays, and two hyphens stand
/// on either side.
pub proof fn project_directories_are_named_after_their_path(path: Seq<char>)
    ensures
        ({
            let name = project_directory_name(path);
            exists|from: int|
                {
                    &&& 0 <= from <= path.len()
                    &&& forall|k: int| 0 <= k < from ==> path[k] == '/' || path[k] == '\\'
                    &&& from < path.len() ==> path[from] != '/' && path[from] != '\\'
                    &&& name.len() == path.len() - from + 4
                    &&& name[0] == '-' && name[1] == '-'
                    &&& name[name.len() - 1] == '-' && name[name.len() - 2] == '-'
                    &&& forall|k: int|
                        #![trigger path[k]]
                        from <= k < path.len() ==> name[k - from + 2] == (if path[k] == '/'
                            || path[k] == '\\' || path[k] == ':' {
                            '-'
                        } else {
                            path[k]
                        })
                    &&& #[trigger] path.skip(from) == without_root(path)
                }
        }),
{
    reveal_strlit("--");
    let from = lemma_without_root(path);
    let rest = without_root(path);
    let name = project_directory_name(path);
    assert forall|k: int| #![trigger path[k]] from <= k < path.len() implies name[k - from + 2] == (
    if path[k] == '/' || path[k] == '\\' || path[k] == ':' {
        '-'
    } else {
        path[k]
    }) by {
        assert(rest[k - from] == path[k]);
    }
    assert(path.skip(from) == without_root(path));
}

/// A document without comments and without commas before a closing bracket is left as it is:
/// here one without any slash and without any comma.
pub proof fn plain_documents_stay_as_they_are(bytes: Seq<u8>)
    requires
        forall|k: int| 0 <= k < bytes.len() ==> #[trigger] bytes[k] != 47 && bytes[k] != 44,
    ensures
        plain_json(bytes) == bytes,
{
    lemma_no_comment(bytes, JsoncMode::Code);
    lemma_no_comma(bytes, JsoncMode::Code);
}

proof fn lemma_no_comment(bytes: Seq<u8>, mode: JsoncMode)
    requires
        forall|k: int| 0 <= k < bytes.len() ==> #[trigger] bytes[k] != 47,
        mode == JsoncMode::Code || mode == JsoncMode::Text || mode == JsoncMode::Escaped,
    ensures
        uncommented(bytes, mode) == bytes,
    decreases bytes.len(),
{
    if bytes.len() > 0 {
        let rest = bytes.drop_first();
        assert forall|k: int| 0 <= k < rest.len() implies #[trigger] rest[k] != 47 by {
            assert(bytes[k + 1] != 47);
        }
        lemma_no_comment(rest, JsoncMode::Code);
        lemma_no_comment(rest, JsoncMode::Text);
        lemma_no_comment(rest, JsoncMode::Escaped);
        assert(bytes[0] != 47);
        assert(seq![bytes[0]] + rest =~= bytes);
    }
}

proof fn lemma_no_comma(bytes: Seq<u8>, mode: JsoncMode)
    requires
        forall|k: int| 0 <= k < bytes.len() ==> #[trigger] bytes[k] != 44,
        mode == JsoncMode::Code || mode == JsoncMode::Text || mode == JsoncMode::Escaped,
    ensures
        without_trailing_commas(bytes, mode) == bytes,
    decreases bytes.len(),
{
    if bytes.len() > 0 {
        let rest = bytes.drop_first();
        assert forall|k: int| 0 <= k < rest.len() implies #[trigger] rest[k] != 44 by {
            assert(bytes[k + 1] != 44);
        }
        lemma_no_comma(rest, JsoncMode::Code);
        lemma_no_comma(rest, JsoncMode::Text);
        lemma_no_comma(rest, JsoncMode::Escaped);
        assert(bytes[0] != 44);
        assert(seq![bytes[0]] + rest =~= bytes);
    }
}

/// What stands between quotes is text, whatever it looks like: neither a comment nor a comma
/// in it is touched.
pub proof fn texts_are_not_touched(text: Seq<u8>, rest: Seq<u8>)
    requires
        forall|k: int| 0 <= k < text.len() ==> #[trigger] text[k] != 34 && text[k] != 92,
    ensures
        uncommented(seq![34u8] + text + seq![34u8] + rest, JsoncMode::Code) == seq![34u8] + text
            + seq![34u8] + uncommented(rest, JsoncMode::Code),
        without_trailing_commas(seq![34u8] + text + seq![34u8] + rest, JsoncMode::Code) == seq![
            34u8,
        ] + text + seq![34u8] + without_trailing_commas(rest, JsoncMode::Code),
{
    lemma_in_text(text, rest);
    let whole = seq![34u8] + text + seq![34u8] + rest;
    assert(whole.drop_first() =~= text + seq![34u8] + rest);
    assert(whole[0] == 34u8);
    assert(seq![34u8] + (text + seq![34u8] + uncommented(rest, JsoncMode::Code)) =~= seq![34u8]
        + text + seq![34u8] + uncommented(rest, JsoncMode::Code));
    assert(seq![34u8] + (text + seq![34u8] + without_trailing_commas(rest, JsoncMode::Code))
        =~= seq![34u8] + text + seq![34u8] + without_trailing_commas(rest, JsoncMode::Code));
}

proof fn lemma_in_text(text: Seq<u8>, rest: Seq<u8>)
    requires
        forall|k: int| 0 <= k < text.len() ==> #[trigger] text[k] != 34 && text[k] != 92,
    ensures
        uncommented(text + seq![34u8] + rest, JsoncMode::Text) == text + seq![34u8] + uncommented(
            rest,
            JsoncMode::Code,
        ),
        without_trailing_commas(text + seq![34u8] + rest, JsoncMode::Text) == text + seq![34u8]
            + without_trailing_commas(rest, JsoncMode::Code),
    decreases text.len(),
{
    let whole = text + seq![34u8] + rest;
    if text.len() == 0 {
        assert(whole =~= seq![34u8] + rest);
        assert(whole.drop_first() =~= rest);
        assert(whole[0] == 34u8);
        assert(text + seq![34u8] =~= seq![34u8]);
        assert(uncommented(whole, JsoncMode::Text) =~= text + seq![34u8] + uncommented(
            rest,
            JsoncMode::Code,
        ));
        assert(without_trailing_commas(whole, JsoncMode::Text) =~= text + seq![34u8]
            + without_trailing_commas(rest, JsoncMode::Code));
    } else {
        let less = text.drop_first();
        assert forall|k: int| 0 <= k < less.len() implies #[trigger] less[k] != 34 && less[k]
            != 92 by {
            assert(text[k + 1] != 34 && text[k + 1] != 92);
        }
        lemma_in_text(less, rest);
        assert(whole.drop_first() =~= less + seq![34u8] + rest);
        assert(whole[0] == text[0]);
        assert(text[0] != 34 && text[0] != 92);
        assert(uncommented(whole, JsoncMode::Text) =~= text + seq![34u8] + uncommented(
            rest,
            JsoncMode::Code,
        ));
        assert(without_trailing_commas(whole, JsoncMode::Text) =~= text + seq![34u8]
            + without_trailing_commas(rest, JsoncMode::Code));
    }
}

/// A comment to the end of its line is blanked, and what follows the line is read as before.
pub proof fn line_comments_are_blanked(comment: Seq<u8>, rest: Seq<u8>)
    requires
        forall|k: int| 0 <= k < comment.len() ==> #[trigger] comment[k] != 10,
    ensures
        uncommented(seq![47u8, 47u8] + comment + seq![10u8] + rest, JsoncMode::Code) == Seq::new(
            comment.len() + 2,
            |i: int| 32u8,
        ) + seq![10u8] + uncommented(rest, JsoncMode::Code),
{
    let whole = seq![47u8, 47u8] + comment + seq![10u8] + rest;
    let inner = comment + seq![10u8] + rest;
    lemma_line_comment(comment, rest);
    assert(whole[0] == 47 && whole.drop_first()[0] == 47);
    assert(whole.drop_first().drop_first() =~= inner);
    let blanks = Seq::new(comment.len(), |i: int| 32u8);
    let more = Seq::new(comment.len() + 2, |i: int| 32u8);
    assert(seq![32u8, 32u8] + (blanks + seq![10u8] + uncommented(rest, JsoncMode::Code)) =~= more
        + seq![10u8] + uncommented(rest, JsoncMode::Code));
}

proof fn lemma_line_comment(comment: Seq<u8>, rest: Seq<u8>)
    requires
        forall|k: int| 0 <= k < comment.len() ==> #[trigger] comment[k] != 10,
    ensures
        uncommented(comment + seq![10u8] + rest, JsoncMode::LineComment) == Seq::new(
            comment.len(),
            |i: int| 32u8,
        ) + seq![10u8] + uncommented(rest, JsoncMode::Code),
    decreases comment.len(),
{
    let whole = comment + seq![10u8] + rest;
    let blanks = Seq::new(comment.len(), |i: int| 32u8);
    if comment.len() == 0 {
        assert(whole =~= seq![10u8] + rest);
        assert(whole[0] == 10u8);
        assert(whole.drop_first() =~= rest);
        assert(uncommented(whole, JsoncMode::LineComment) == uncommented(whole, JsoncMode::Code));
        assert(uncommented(whole, JsoncMode::Code) == seq![10u8] + uncommented(
            rest,
            JsoncMode::Code,
        ));
        assert(blanks + seq![10u8] =~= seq![10u8]);
    } else {
        let less = comment.drop_first();
        assert forall|k: int| 0 <= k < less.len() implies #[trigger] less[k] != 10 by {
            assert(comment[k + 1] != 10);
        }
        lemma_line_comment(less, rest);
        assert(whole.drop_first() =~= less + seq![10u8] + rest);
        assert(whole[0] == comment[0]);
        let fewer = Seq::new(less.len(), |i: int| 32u8);
        assert(seq![32u8] + (fewer + seq![10u8] + uncommented(rest, JsoncMode::Code)) =~= blanks
            + seq![10u8] + uncommented(rest, JsoncMode::Code));
    }
}

/// A comma before a closing bracket is left out, whatever white space stands between; every
/// other comma stays.
pub proof fn only_trailing_commas_are_left_out(spaces: Seq<u8>, rest: Seq<u8>, next: u8)
    requires
        forall|k: int| 0 <= k < spaces.len() ==> #[trigger] spaces[k] == 32 || spaces[k] == 10,
        next != 9 && next != 10 && next != 12 && next != 13 && next != 32,
    ensures
        ({
            let after = spaces + seq![next] + rest;
            let whole = seq![44u8] + after;
            without_trailing_commas(whole, JsoncMode::Code) == (if next == 125 || next == 93 {
                without_trailing_commas(after, JsoncMode::Code)
            } else {
                seq![44u8] + without_trailing_commas(after, JsoncMode::Code)
            })
        }),
{
    let after = spaces + seq![next] + rest;
    let whole = seq![44u8] + after;
    assert(whole.drop_first() =~= after);
    lemma_first_solid(spaces, rest, next);
}

proof fn lemma_first_solid(spaces: Seq<u8>, rest: Seq<u8>, next: u8)
    requires
        forall|k: int| 0 <= k < spaces.len() ==> #[trigger] spaces[k] == 32 || spaces[k] == 10,
        next != 9 && next != 10 && next != 12 && next != 13 && next != 32,
    ensures
        crate::jsonc::first_solid(spaces + seq![next] + rest) == Some(next),
    decreases spaces.len(),
{
    let whole = spaces + seq![next] + rest;
    if spaces.len() == 0 {
        assert(whole[0] == next);
    } else {
        let less = spaces.drop_first();
        assert forall|k: int| 0 <= k < less.len() implies #[trigger] less[k] == 32 || less[k]
            == 10 by {
            assert(spaces[k + 1] == 32 || spaces[k + 1] == 10);
        }
        lemma_first_solid(less, rest, next);
        assert(whole[0] == spaces[0]);
        assert(whole.drop_first() =~= less + seq![next] + rest);
    }
}

/// A header names the directory of its session if it is the header of that session.
pub proof fn headers_have_to_name_their_session(
    header: JsonTree,
    expected: Seq<char>,
    cwd: Seq<char>,
    actual: Seq<char>,
)
    ensures
        named_directory(header, expected) == Ok::<Seq<char>, HistoryErrorView>(cwd)
            <==> header.member("type"@) == Some(JsonTree::Text("session"@)) && header.member("id"@)
            == Some(JsonTree::Text(expected)) && header.member("cwd"@) == Some(JsonTree::Text(cwd)),
        header.member("type"@) == Some(JsonTree::Text("session"@)) && header.member("id"@) == Some(
            JsonTree::Text(actual),
        ) && actual != expected ==> named_directory(header, expected) == Err::<
            Seq<char>,
            HistoryErrorView,
        >(HistoryErrorView::SessionMismatch { expected, actual }),
{
}

/// The first line of a file ends before its first line feed, or with the file.
pub proof fn the_first_line_ends_at_the_first_line_feed(bytes: Seq<u8>)
    ensures
        0 <= first_line_len(bytes) <= bytes.len(),
        forall|k: int| 0 <= k < first_line_len(bytes) ==> #[trigger] bytes[k] != 10,
        first_line_len(bytes) < bytes.len() ==> bytes[first_line_len(bytes)] == 10,
    decreases bytes.len(),
{
    if bytes.len() > 0 && bytes[0] != 10 {
        let rest = bytes.drop_first();
        the_first_line_ends_at_the_first_line_feed(rest);
        let n = first_line_len(rest);
        assert forall|k: int| 0 <= k < n + 1 implies #[trigger] bytes[k] != 10 by {
            if k > 0 {
                assert(rest[k - 1] == bytes[k]);
            }
        }
        if n < rest.len() {
            assert(rest[n] == bytes[n + 1]);
        }
    }
}

/// A cursor into the history is taken if and only if it is of this session, lies within the
/// file, and names an entry of usable length or seeks the latest, but not both.
pub proof fn cursors_fit_their_session(
    cursor: HistoryCursorView,
    session_id: Seq<char>,
    file_size: u64,
    limits: RuntimeLimits,
)
    ensures
        ({
            let refused = cursor_refusal(cursor, session_id, file_size, limits);
            let named = cursor.next_entry_id is Some;
            let usable = named ==> 0 < cursor.next_entry_id->0.len() && byte_len(
                cursor.next_entry_id->0,
            ) <= limits.max_session_cursor_bytes;
            &&& refused is None <==> cursor.session_id == session_id && usable
                && cursor.before_offset <= file_size && !(cursor.seek_latest && named)
            &&& cursor.session_id != session_id ==> refused == Some(
                HistoryErrorView::CursorSessionMismatch { expected: session_id },
            )
            &&& cursor.session_id == session_id && usable && cursor.before_offset > file_size
                ==> refused == Some(
                HistoryErrorView::CursorBeyondFile { offset: cursor.before_offset, file_size },
            )
        }),
        cursor.seek_latest ==> cursor.target() is Latest,
        !cursor.seek_latest && cursor.next_entry_id is Some ==> cursor.target()
            == HistoryTargetView::Entry(cursor.next_entry_id->0),
        !cursor.seek_latest && cursor.next_entry_id is None ==> cursor.target() is Done,
{
}

/// A branch that comes back to an entry, or breaks off at the header, is an error that names
/// the entry. The newest entry is where an incremental reader can go on from.
pub proof fn broken_branches_are_errors(
    gathering: GatheringView,
    entry: JsonTree,
    id: Seq<char>,
    retry_before: u64,
)
    requires
        entry.member("id"@) == Some(JsonTree::Text(id)),
        0 < id.len(),
        byte_len(id) <= gathering.limits.max_session_cursor_bytes,
    ensures
        ({
            let header = entry.member("type"@) == Some(JsonTree::Text("session"@));
            let verdict = gathering.value_taken(entry, retry_before);
            &&& header && gathering.target is Entry ==> verdict == LineVerdict::Fail(
                HistoryErrorView::BrokenAncestry { entry_id: gathering.target->Entry_0 },
            )
            &&& header && !(gathering.target is Entry) ==> verdict == LineVerdict::Finish(
                gathering,
                None,
            )
            &&& !header && gathering.target.names(id) && (gathering.seen.contains(id)
                || entry.member("parentId"@) == Some(JsonTree::Text(id))) ==> verdict
                == LineVerdict::Fail(HistoryErrorView::RepeatedEntry { entry_id: id })
            &&& !header && !gathering.target.names(id) ==> verdict == LineVerdict::Continue(
                gathering,
            )
            &&& verdict is Continue && gathering.target is Latest && !header
                ==> verdict->Continue_0.append_cursor == Some(id)
            &&& verdict is Continue && gathering.target is Entry ==> verdict->Continue_0.append_cursor
                == gathering.append_cursor
        }),
        gathering.target is Latest ==> gathering.target.names(id),
        gathering.target is Done ==> !gathering.target.names(id),
        gathering.target is Entry ==> (gathering.target.names(id) <==> gathering.target->Entry_0
            == id),
{
}

pub(crate) proof fn lemma_split_concat(a: Seq<char>, b: Seq<char>, separator: char)
    ensures
        split_on(a + seq![separator] + b, separator) == split_on(a, separator) + split_on(
            b,
            separator,
        ),
    decreases b.len(),
{
    let whole = a + seq![separator] + b;
    pieces_make_the_text_again(a, separator);
    pieces_make_the_text_again(b, separator);
    if b.len() == 0 {
        assert(whole.drop_last() =~= a);
        assert(whole.last() == separator);
        assert(split_on(whole, separator) =~= split_on(a, separator) + split_on(b, separator));
    } else {
        let less = b.drop_last();
        lemma_split_concat(a, less, separator);
        pieces_make_the_text_again(less, separator);
        assert(whole.drop_last() =~= a + seq![separator] + less);
        assert(whole.last() == b.last());
        let before = split_on(a, separator) + split_on(less, separator);
        assert(before.last() == split_on(less, separator).last());
        assert(before.drop_last() =~= split_on(a, separator) + split_on(
            less,
            separator,
        ).drop_last());
        assert(split_on(whole, separator) =~= split_on(a, separator) + split_on(b, separator));
    }
}

/// The components of a path that is no start of another: those that are not empty and no
/// single dot.
pub open spec fn inner_components(pieces: Seq<Seq<char>>) -> Seq<Seq<char>>
    decreases pieces.len(),
{
    if pieces.len() == 0 {
        Seq::empty()
    } else {
        let before = inner_components(pieces.drop_last());
        let piece = pieces.last();
        if piece.len() > 0 && piece != "."@ {
            before.push(piece)
        } else {
            before
        }
    }
}

pub(crate) proof fn lemma_named_concat(a: Seq<Seq<char>>, b: Seq<Seq<char>>)
    requires
        a.len() > 0,
    ensures
        named_pieces(a + b) == named_pieces(a) + inner_components(b),
    decreases b.len(),
{
    if b.len() == 0 {
        assert(a + b =~= a);
        assert(named_pieces(a) + inner_components(b) =~= named_pieces(a));
    } else {
        lemma_named_concat(a, b.drop_last());
        assert((a + b).drop_last() =~= a + b.drop_last());
        assert(named_pieces(a + b) =~= named_pieces(a) + inner_components(b));
    }
}

/// What is joined to a path lies below it: its components follow those of the path.
pub proof fn joined_paths_lie_below(base: Seq<char>, rest: Seq<char>)
    requires
        !path_is_absolute(rest),
        base.len() > 0,
    ensures
        path_components(path_joined(base, rest)) == path_components(base) + inner_components(
            split_on(rest, '/'),
        ),
        path_is_absolute(path_joined(base, rest)) == path_is_absolute(base),
        path_is_absolute(rest) || path_within(path_joined(base, rest), base),
{
    let pieces = split_on(base, '/');
    pieces_make_the_text_again(base, '/');
    if base.last() == '/' {
        let less = base.drop_last();
        assert(base =~= less + seq!['/'] + Seq::<char>::empty());
        lemma_split_concat(less, Seq::empty(), '/');
        lemma_split_concat(less, rest, '/');
        assert(base + rest =~= less + seq!['/'] + rest);
        pieces_make_the_text_again(less, '/');
        let none = split_on(Seq::<char>::empty(), '/');
        assert(none =~= seq![Seq::<char>::empty()]);
        lemma_named_concat(split_on(less, '/'), none);
        lemma_named_concat(split_on(less, '/'), split_on(rest, '/'));
        assert(none.drop_last() =~= Seq::<Seq<char>>::empty());
        assert(inner_components(none.drop_last()) =~= Seq::<Seq<char>>::empty());
        assert(inner_components(none) =~= Seq::<Seq<char>>::empty());
        assert(named_pieces(split_on(less, '/')) + inner_components(none) =~= named_pieces(
            split_on(less, '/'),
        ));
    } else {
        lemma_split_concat(base, rest, '/');
        assert(base.push('/') + rest =~= base + seq!['/'] + rest);
        lemma_named_concat(pieces, split_on(rest, '/'));
    }
    let whole = path_components(path_joined(base, rest));
    assert(path_components(base).is_prefix_of(whole)) by {
        assert(whole.take(path_components(base).len() as int) =~= path_components(base));
    }
}

/// A component is not empty, holds no separator, and is a single dot only at the start.
pub proof fn components_are_names(path: Seq<char>)
    ensures
        forall|i: int|
            0 <= i < path_components(path).len() ==> (#[trigger] path_components(path)[i]).len() > 0,
        forall|i: int, k: int|
            0 <= i < path_components(path).len() && 0 <= k < path_components(path)[i].len()
                ==> #[trigger] path_components(path)[i][k] != '/',
        forall|i: int|
            0 < i < path_components(path).len() ==> #[trigger] path_components(path)[i] != "."@,
        path_is_absolute(path) && path_components(path).len() > 0 ==> path_components(path)[0]
            != "."@,
{
    let pieces = split_on(path, '/');
    pieces_make_the_text_again(path, '/');
    lemma_names(pieces);
    if path_is_absolute(path) {
        let rest = path.drop_first();
        assert(path =~= Seq::<char>::empty() + seq!['/'] + rest);
        lemma_split_concat(Seq::empty(), rest, '/');
        let none = split_on(Seq::<char>::empty(), '/');
        assert(none =~= seq![Seq::<char>::empty()]);
        lemma_named_concat(none, split_on(rest, '/'));
        assert(none.drop_last() =~= Seq::<Seq<char>>::empty());
        assert(named_pieces(none.drop_last()) =~= Seq::<Seq<char>>::empty());
        assert(named_pieces(none) =~= Seq::<Seq<char>>::empty());
        lemma_inner_names(split_on(rest, '/'));
        assert(path_components(path) =~= inner_components(split_on(rest, '/')));
    }
}

proof fn lemma_inner_names(pieces: Seq<Seq<char>>)
    ensures
        forall|i: int|
            0 <= i < inner_components(pieces).len() ==> #[trigger] inner_components(pieces)[i]
                != "."@,
    decreases pieces.len(),
{
    if pieces.len() > 0 {
        lemma_inner_names(pieces.drop_last());
        let before = inner_components(pieces.drop_last());
        let all = inner_components(pieces);
        assert forall|i: int| 0 <= i < all.len() implies #[trigger] all[i] != "."@ by {
            if i < before.len() {
                assert(all[i] == before[i]);
            }
        }
    }
}

proof fn lemma_names(pieces: Seq<Seq<char>>)
    ensures
        named_pieces(pieces).len() <= pieces.len(),
        forall|i: int|
            0 <= i < named_pieces(pieces).len() ==> pieces.contains(
                #[trigger] named_pieces(pieces)[i],
            ) && named_pieces(pieces)[i].len() > 0,
        forall|i: int|
            0 < i < named_pieces(pieces).len() ==> #[trigger] named_pieces(pieces)[i] != "."@,
    decreases pieces.len(),
{
    if pieces.len() > 0 {
        let rest = pieces.drop_last();
        lemma_names(rest);
        let before = named_pieces(rest);
        let all = named_pieces(pieces);
        assert forall|i: int| 0 <= i < all.len() implies pieces.contains(#[trigger] all[i])
            && all[i].len() > 0 by {
            if i < before.len() {
                assert(all[i] == before[i]);
                let k = rest.index_of(before[i]);
                assert(rest.contains(before[i]));
                assert(pieces[k] == before[i]);
            } else {
                assert(pieces[pieces.len() - 1] == all[i]);
            }
        }
        assert forall|i: int| 0 < i < all.len() implies #[trigger] all[i] != "."@ by {
            if i < before.len() {
                assert(all[i] == before[i]);
            }
        }
    }
}

} // verus!
