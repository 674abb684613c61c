//! What a catalog shows of a session: its identity, name and first message.
use vstd::prelude::*;
use vstd::string::*;
use vstd::utf8::*;

use crate::json::{
    json_list, json_member, json_parsed, json_text, json_text_at, json_text_is, json_tree,
    parse_json, JsonTree,
};
use crate::limits::RuntimeLimits;
use crate::paths::{components_of, path_components, split_on, split_text};
use crate::text::{
    byte_len, chars_of, contains_text, find_chars, find_text, has_text, keep_prefix, optional_view,
    prefix_within, same_text, stands_at, text_bytes, text_of, texts_view, trim_text, trimmed,
};
use crate::timeline::trees;

verus! {

/// The text that `String::from_utf8_lossy` reads from these bytes.
pub uninterp spec fn lossy_text(bytes: Seq<u8>) -> Seq<char>;

/// Calls `String::from_utf8_lossy`. The text that it reads is named `lossy_text`:
/// what the bytes encode where they are valid UTF-8, with replacement characters
/// where they are not.
#[verifier::external_body]
fn decode_lossy(bytes: &[u8]) -> (r: String)
    ensures
        r@ == lossy_text(bytes@),
        valid_utf8(bytes@) ==> r@ == decode_utf8(bytes@),
{
    String::from_utf8_lossy(bytes).into_owned()
}

/// The text that `str::to_lowercase` makes of this one.
pub uninterp spec fn lowercased(s: Seq<char>) -> Seq<char>;

/// Calls `str::to_lowercase`; its result is named `lowercased`.
#[verifier::external_body]
pub(crate) fn lowercase(s: &str) -> (r: String)
    ensures
        r@ == lowercased(s@),
{
    s.to_lowercase()
}

/// `s` without one carriage return at its end.
pub open spec fn without_return(s: Seq<char>) -> Seq<char> {
    if s.len() > 0 && s.last() == '\r' {
        s.drop_last()
    } else {
        s
    }
}

/// The lines of a text. What follows the last line feed is a line where it is not
/// empty; a carriage return before a line feed belongs to the end of its line.
pub open spec fn text_lines(s: Seq<char>) -> Seq<Seq<char>> {
    let pieces = split_on(s, '\n');
    let ended = pieces.drop_last().map_values(|piece: Seq<char>| without_return(piece));
    if pieces.last().len() == 0 {
        ended
    } else {
        ended.push(pieces.last())
    }
}

fn strip_return(s: &String) -> (r: String)
    ensures
        r@ == without_return(s@),
{
    let chars = chars_of(s.as_str());
    let n: usize = chars.len();
    if n > 0 && chars[n - 1] == '\r' {
        let r = text_of(chars.as_slice(), 0, n - 1);
        assert(r@ =~= s@.drop_last());
        r
    } else {
        s.clone()
    }
}

/// The lines of a text.
pub fn lines_of(s: &str) -> (r: Vec<String>)
    ensures
        texts_view(r@) == text_lines(s@),
{
    let pieces = split_text(s, '\n');
    let ghost texts = texts_view(pieces@);
    let last: usize = pieces.len() - 1;
    let mut r: Vec<String> = Vec::new();
    let mut i: usize = 0;
    let ghost ended = texts.drop_last().map_values(|piece: Seq<char>| without_return(piece));
    while i < last
        invariant
            i <= last,
            last + 1 == pieces@.len(),
            texts == texts_view(pieces@),
            ended == texts.drop_last().map_values(|piece: Seq<char>| without_return(piece)),
            texts_view(r@) =~= ended.take(i as int),
        decreases last - i,
    {
        let ghost before = r@;
        r.push(strip_return(&pieces[i]));
        assert(texts_view(r@) =~= texts_view(before).push(ended[i as int]));
        i += 1;
    }
    assert(ended.take(last as int) =~= ended);
    if !pieces[last].as_str().is_empty() {
        let ghost before = r@;
        r.push(pieces[last].clone());
        assert(texts_view(r@) =~= texts_view(before).push(texts.last()));
    }
    r
}

/// The most bytes of a message that a preview takes over.
pub const MAX_PREVIEW_BYTES: usize = 1024;

/// What identifies the task in a message of the user. Pi expands a skill before
/// it stores the message: of such a message only what the user wrote is shown,
/// or else the name of the skill.
pub open spec fn user_preview(message: Seq<char>) -> Option<Seq<char>> {
    let value = trimmed(message);
    let opening = "<skill name=\""@;
    let after_name = value.skip(opening.len() as int);
    let name_end = find_text(after_name, "\""@);
    let skill_end = find_text(value, "</skill>"@);
    if value.len() == 0 {
        None
    } else if opening.is_prefix_of(value) && name_end is Some && skill_end is Some {
        let trailing = trimmed(value.skip(skill_end->0 + "</skill>"@.len()));
        let task = if "User:"@.is_prefix_of(trailing) {
            trimmed(trailing.skip("User:"@.len() as int))
        } else {
            trailing
        };
        if task.len() > 0 {
            Some(prefix_within(task, MAX_PREVIEW_BYTES as nat))
        } else {
            Some("[skill] "@ + prefix_within(after_name.take(name_end->0), 256))
        }
    } else {
        Some(prefix_within(value, MAX_PREVIEW_BYTES as nat))
    }
}

/// What identifies the task in a message of the user.
pub fn catalog_user_preview(value: &str) -> (r: Option<String>)
    ensures
        optional_view(r) == user_preview(value@),
{
    let value = trim_text(value);
    if value.as_str().is_empty() {
        return None;
    }
    let chars = chars_of(value.as_str());
    let opening = chars_of("<skill name=\"");
    let quote = chars_of("\"");
    let closing = chars_of("</skill>");
    assert(chars@.skip(0) =~= chars@);
    if stands_at(&chars, 0, &opening) {
        let name_start: usize = opening.len();
        match find_chars(&chars, name_start, &quote) {
            Some(name_stop) => match find_chars(&chars, 0, &closing) {
                Some(skill_end) => {
                    let rest_from: usize = skill_end + closing.len();
                    let rest = text_of(chars.as_slice(), rest_from, chars.len());
                    assert(rest@ =~= chars@.skip(rest_from as int));
                    let trailing = trim_text(rest.as_str());
                    let trailing_chars = chars_of(trailing.as_str());
                    let user = chars_of("User:");
                    assert(trailing_chars@.skip(0) =~= trailing_chars@);
                    let task = if stands_at(&trailing_chars, 0, &user) {
                        let after = text_of(
                            trailing_chars.as_slice(),
                            user.len(),
                            trailing_chars.len(),
                        );
                        assert(after@ =~= trailing@.skip(user@.len() as int));
                        trim_text(after.as_str())
                    } else {
                        trailing
                    };
                    if !task.as_str().is_empty() {
                        return Some(keep_prefix(task.as_str(), MAX_PREVIEW_BYTES));
                    }
                    let name = text_of(chars.as_slice(), name_start, name_stop);
                    assert(name@ =~= chars@.skip(name_start as int).take(name_stop - name_start));
                    let mut label = "[skill] ".to_owned();
                    label.append(keep_prefix(name.as_str(), 256).as_str());
                    return Some(label);
                },
                None => {},
            },
            None => {},
        }
    }
    Some(keep_prefix(value.as_str(), MAX_PREVIEW_BYTES))
}

/// The text blocks of a message behind `gathered`, with a space between, up to
/// the most that a preview takes.
pub open spec fn joined_blocks(blocks: Seq<JsonTree>, gathered: Seq<char>) -> Seq<char>
    decreases blocks.len(),
{
    if blocks.len() == 0 {
        gathered
    } else {
        let block = blocks[0];
        let rest = blocks.drop_first();
        if block.text_at("type"@) != Some("text"@) || block.text_at("text"@) is None {
            joined_blocks(rest, gathered)
        } else {
            let spaced = if gathered.len() == 0 {
                gathered
            } else {
                gathered.push(' ')
            };
            if byte_len(spaced) >= MAX_PREVIEW_BYTES {
                spaced
            } else {
                let added = spaced + prefix_within(
                    block.text_at("text"@)->0,
                    (MAX_PREVIEW_BYTES - byte_len(spaced)) as nat,
                );
                if byte_len(added) >= MAX_PREVIEW_BYTES {
                    added
                } else {
                    joined_blocks(rest, added)
                }
            }
        }
    }
}

/// What identifies the task in a stored message of the user.
pub open spec fn message_preview(message: JsonTree) -> Option<Seq<char>> {
    match message.member("content"@) {
        None => None,
        Some(content) => match content {
            JsonTree::Text(text) => user_preview(text),
            JsonTree::List(blocks) => user_preview(joined_blocks(blocks, Seq::empty())),
            _ => None,
        },
    }
}

fn join_blocks(blocks: &Vec<serde_json::Value>) -> (r: String)
    ensures
        r@ == joined_blocks(trees(blocks@), Seq::empty()),
{
    let ghost all = trees(blocks@);
    let mut combined = String::new();
    let mut i: usize = 0;
    assert(combined@ =~= Seq::<char>::empty());
    assert(all.skip(0) =~= all);
    while i < blocks.len()
        invariant
            i <= blocks@.len(),
            all == trees(blocks@),
            joined_blocks(all, Seq::empty()) == joined_blocks(all.skip(i as int), combined@),
        decreases blocks@.len() - i,
    {
        let block = &blocks[i];
        assert(all.skip(i as int)[0] == json_tree(*block));
        assert(all.skip(i as int).drop_first() =~= all.skip(i + 1));
        i += 1;
        if !json_text_is(block, "type", "text") {
            continue;
        }
        let text = match json_text_at(block, "text") {
            Some(text) => text,
            None => {
                continue;
            },
        };
        if !combined.as_str().is_empty() {
            combined.push(' ');
        }
        let used: usize = text_bytes(combined.as_str());
        if used >= MAX_PREVIEW_BYTES {
            return combined;
        }
        combined.append(keep_prefix(text, MAX_PREVIEW_BYTES - used).as_str());
        if text_bytes(combined.as_str()) >= MAX_PREVIEW_BYTES {
            return combined;
        }
    }
    combined
}

/// What identifies the task in a stored message of the user.
pub fn extract_message_text(message: &serde_json::Value) -> (r: Option<String>)
    ensures
        optional_view(r) == message_preview(json_tree(*message)),
{
    let content = match json_member(message, "content") {
        Some(content) => content,
        None => {
            return None;
        },
    };
    match json_text(content) {
        Some(text) => {
            return catalog_user_preview(text);
        },
        None => {},
    }
    match json_list(content) {
        Some(blocks) => {
            let combined = join_blocks(blocks);
            catalog_user_preview(combined.as_str())
        },
        None => None,
    }
}

/// What the lines of a session say about it: the latest name and the first
/// message of the user.
pub struct PreviewView {
    pub name: Option<Seq<char>>,
    pub first_message: Option<Seq<char>>,
}

impl PreviewView {
    /// After one more entry.
    pub open spec fn with_entry(self, entry: JsonTree) -> Self {
        if entry.text_at("type"@) == Some("session_info"@) {
            PreviewView {
                name: match entry.text_at("name"@) {
                    Some(name) => if trimmed(name).len() == 0 {
                        None
                    } else {
                        Some(trimmed(name))
                    },
                    None => None,
                },
                ..self
            }
        } else if entry.text_at("type"@) == Some("message"@) && self.first_message is None {
            match entry.member("message"@) {
                Some(message) => if message.text_at("role"@) == Some("user"@) {
                    PreviewView { first_message: message_preview(message), ..self }
                } else {
                    self
                },
                None => self,
            }
        } else {
            self
        }
    }

    /// After these lines; those that are no JSON are passed over.
    pub open spec fn with_lines(self, lines: Seq<Seq<char>>) -> Self
        decreases lines.len(),
    {
        if lines.len() == 0 {
            self
        } else {
            let before = self.with_lines(lines.drop_last());
            match json_parsed(encode_utf8(lines.last())) {
                Some(entry) => before.with_entry(entry),
                None => before,
            }
        }
    }
}

/// What the lines read so far say about a session.
#[derive(Debug, PartialEq, Eq)]
pub struct SessionPreview {
    pub name: Option<String>,
    pub first_message: Option<String>,
}

impl View for SessionPreview {
    type V = PreviewView;

    open spec fn view(&self) -> PreviewView {
        PreviewView {
            name: optional_view(self.name),
            first_message: optional_view(self.first_message),
        }
    }
}

/// Takes over what an entry that was read says about a session.
pub fn take_preview_entry(preview: &mut SessionPreview, entry: &serde_json::Value)
    ensures
        final(preview)@ == old(preview)@.with_entry(json_tree(*entry)),
{
    if json_text_is(entry, "type", "session_info") {
        preview.name =
        match json_text_at(entry, "name") {
            Some(name) => {
                let name = trim_text(name);
                if name.as_str().is_empty() {
                    None
                } else {
                    Some(name)
                }
            },
            None => None,
        };
    } else if json_text_is(entry, "type", "message") && preview.first_message.is_none() {
        match json_member(entry, "message") {
            Some(message) => {
                if json_text_is(message, "role", "user") {
                    preview.first_message = extract_message_text(message);
                }
            },
            None => {},
        }
    }
}

/// Takes over what the lines of `text` say about a session.
pub fn scan_preview_lines(text: &str, preview: &mut SessionPreview)
    ensures
        final(preview)@ == old(preview)@.with_lines(text_lines(text@)),
{
    let lines = lines_of(text);
    let ghost texts = texts_view(lines@);
    let ghost start = preview@;
    let mut i: usize = 0;
    assert(texts.take(0) =~= Seq::<Seq<char>>::empty());
    while i < lines.len()
        invariant
            i <= lines@.len(),
            texts == texts_view(lines@),
            preview@ == start.with_lines(texts.take(i as int)),
        decreases lines@.len() - i,
    {
        assert(texts.take(i + 1).drop_last() =~= texts.take(i as int));
        assert(texts.take(i + 1).last() == lines@[i as int]@);
        match parse_json(lines[i].as_str().as_bytes()) {
            Some(entry) => {
                take_preview_entry(preview, &entry);
            },
            None => {},
        }
        i += 1;
    }
    assert(texts.take(i as int) =~= texts);
}

/// How many bytes of a file of this length a preview reads from its start and
/// from its end.
pub open spec fn preview_lengths(file_len: usize, budget: usize) -> (usize, usize) {
    if file_len <= budget {
        (file_len, 0)
    } else {
        let head = (budget * 2 / 3) as usize;
        let left = budget - head;
        let rest = file_len - head;
        (
            head,
            (if left < rest {
                left
            } else {
                rest
            }) as usize,
        )
    }
}

/// How many bytes of a file a preview reads from its start and from its end; never
/// more than the budget together.
pub fn plan_preview(file_len: usize, budget: usize) -> (r: (usize, usize))
    ensures
        r == preview_lengths(file_len, budget),
        r.0 + r.1 <= budget,
        r.0 + r.1 <= file_len,
{
    if file_len <= budget {
        return (file_len, 0);
    }
    let head: usize = (budget as u128 * 2 / 3) as usize;
    let left: usize = budget - head;
    let rest: usize = file_len - head;
    if left < rest {
        (head, left)
    } else {
        (head, rest)
    }
}

/// The identity and the directory that the header of a session names.
pub open spec fn header_of(head: Seq<u8>) -> Option<(Seq<char>, Seq<char>)> {
    let lines = text_lines(lossy_text(head));
    if lines.len() == 0 {
        None
    } else {
        match json_parsed(encode_utf8(lines[0])) {
            None => None,
            Some(header) => session_named_by(header),
        }
    }
}

/// The identity and the directory that a header names, if it is that of a session.
pub open spec fn session_named_by(header: JsonTree) -> Option<(Seq<char>, Seq<char>)> {
    if header.text_at("type"@) == Some("session"@) && header.text_at("id"@) is Some
        && header.text_at("cwd"@) is Some {
        Some((header.text_at("id"@)->0, header.text_at("cwd"@)->0))
    } else {
        None
    }
}

/// The identity and the directory that a header that was read names, if it is that
/// of a session.
pub fn named_session(header: &serde_json::Value) -> (r: Option<(String, String)>)
    ensures
        match r {
            Some((id, cwd)) => session_named_by(json_tree(*header)) == Some((id@, cwd@)),
            None => session_named_by(json_tree(*header)) is None,
        },
{
    if !json_text_is(header, "type", "session") {
        return None;
    }
    match (json_text_at(header, "id"), json_text_at(header, "cwd")) {
        (Some(id), Some(cwd)) => Some((id.to_owned(), cwd.to_owned())),
        _ => None,
    }
}

/// Reads the identity and the directory that the header of a session names.
pub fn preview_header(head: &[u8]) -> (r: Option<(String, String)>)
    ensures
        match r {
            Some((id, cwd)) => header_of(head@) == Some((id@, cwd@)),
            None => header_of(head@) is None,
        },
{
    let text = decode_lossy(head);
    let lines = lines_of(text.as_str());
    if lines.len() == 0 {
        return None;
    }
    assert(texts_view(lines@)[0] == lines@[0]@);
    match parse_json(lines[0].as_str().as_bytes()) {
        Some(header) => named_session(&header),
        None => None,
    }
}

#[derive(Clone, Debug, PartialEq, Eq)]
pub struct SessionCatalogEntry {
    pub path: String,
    pub id: String,
    pub name: Option<String>,
    pub first_message: Option<String>,
    pub modified_unix_ms: u64,
    pub preview_incomplete: bool,
}

/// Model of a [`SessionCatalogEntry`].
pub struct CatalogEntryView {
    pub path: Seq<char>,
    pub id: Seq<char>,
    pub name: Option<Seq<char>>,
    pub first_message: Option<Seq<char>>,
    pub modified_unix_ms: u64,
    pub preview_incomplete: bool,
}

impl View for SessionCatalogEntry {
    type V = CatalogEntryView;

    open spec fn view(&self) -> CatalogEntryView {
        CatalogEntryView {
            path: self.path@,
            id: self.id@,
            name: optional_view(self.name),
            first_message: optional_view(self.first_message),
            modified_unix_ms: self.modified_unix_ms,
            preview_incomplete: self.preview_incomplete,
        }
    }
}

/// The start of an optional text, up to the most that an entry shows.
pub open spec fn shown_prefix(value: Option<Seq<char>>) -> Option<Seq<char>> {
    match value {
        Some(text) => Some(prefix_within(text, 512)),
        None => None,
    }
}

/// The most bytes of an identity that an entry shows.
pub open spec fn shown_id_bytes(limits: RuntimeLimits) -> nat {
    if limits.max_session_cursor_bytes < 512 {
        limits.max_session_cursor_bytes as nat
    } else {
        512
    }
}

/// The entry of a session whose first bytes are `head` and last are `tail`.
pub open spec fn previewed(
    path: Seq<char>,
    id: Seq<char>,
    head: Seq<u8>,
    tail: Seq<u8>,
    file_len: usize,
    limits: RuntimeLimits,
) -> CatalogEntryView {
    let from_head = PreviewView { name: None, first_message: None }.with_lines(
        text_lines(lossy_text(head)),
    );
    let preview = if tail.len() == 0 {
        from_head
    } else {
        from_head.with_lines(text_lines(lossy_text(tail)))
    };
    shown_entry(path, id, preview, file_len > head.len() + tail.len(), limits)
}

/// The entry that shows what a preview found.
pub open spec fn shown_entry(
    path: Seq<char>,
    id: Seq<char>,
    preview: PreviewView,
    incomplete: bool,
    limits: RuntimeLimits,
) -> CatalogEntryView {
    CatalogEntryView {
        path,
        id: prefix_within(id, shown_id_bytes(limits)),
        name: shown_prefix(preview.name),
        first_message: shown_prefix(preview.first_message),
        modified_unix_ms: 0,
        preview_incomplete: incomplete,
    }
}

/// Makes the entry that shows what a preview found.
pub fn preview_entry(
    path: String,
    id: &str,
    preview: &SessionPreview,
    incomplete: bool,
    limits: RuntimeLimits,
) -> (r: SessionCatalogEntry)
    ensures
        r@ == shown_entry(path@, id@, preview@, incomplete, limits),
{
    let id_bytes: usize = if limits.max_session_cursor_bytes < 512 {
        limits.max_session_cursor_bytes
    } else {
        512
    };
    SessionCatalogEntry {
        path,
        id: keep_prefix(id, id_bytes),
        name: shown(&preview.name),
        first_message: shown(&preview.first_message),
        modified_unix_ms: 0,
        preview_incomplete: incomplete,
    }
}

fn shown(value: &Option<String>) -> (r: Option<String>)
    ensures
        optional_view(r) == shown_prefix(optional_view(*value)),
{
    match value {
        Some(text) => Some(keep_prefix(text.as_str(), 512)),
        None => None,
    }
}

/// Makes the entry of a session from the bytes that a preview reads, where its
/// header names the project. `path` is the path of the session as the file system
/// resolves it, and `session_cwd` the directory that its header names, where that
/// resolves.
pub fn read_session_preview(
    path: String,
    session_cwd: Option<&str>,
    expected_project_root: &str,
    head: &[u8],
    tail: &[u8],
    file_len: usize,
    limits: RuntimeLimits,
) -> (r: Option<SessionCatalogEntry>)
    ensures
        match r {
            Some(entry) => header_of(head@) is Some && session_cwd is Some && session_cwd->0@
                == expected_project_root@ && entry@ == previewed(
                path@,
                (header_of(head@)->0).0,
                head@,
                tail@,
                file_len,
                limits,
            ),
            None => header_of(head@) is None || session_cwd is None || session_cwd->0@
                != expected_project_root@,
        },
{
    let id = match preview_header(head) {
        Some((id, _)) => id,
        None => {
            return None;
        },
    };
    match session_cwd {
        Some(cwd) => {
            if !same_text(cwd, expected_project_root) {
                return None;
            }
        },
        None => {
            return None;
        },
    }
    let mut preview = SessionPreview { name: None, first_message: None };
    let head_text = decode_lossy(head);
    scan_preview_lines(head_text.as_str(), &mut preview);
    if tail.len() > 0 {
        let tail_text = decode_lossy(tail);
        scan_preview_lines(tail_text.as_str(), &mut preview);
    }
    let incomplete = file_len as u128 > head.len() as u128 + tail.len() as u128;
    Some(preview_entry(path, id.as_str(), &preview, incomplete, limits))
}

/// The last component of a path, where it names a file.
pub open spec fn file_name_of(path: Seq<char>) -> Option<Seq<char>> {
    let parts = path_components(path);
    if parts.len() == 0 || parts.last() == "."@ || parts.last() == ".."@ {
        None
    } else {
        Some(parts.last())
    }
}

/// The last component of a path, where it names a file.
pub fn file_name(path: &str) -> (r: Option<String>)
    ensures
        optional_view(r) == file_name_of(path@),
{
    let parts = components_of(path);
    let n: usize = parts.len();
    if n == 0 {
        return None;
    }
    assert(texts_view(parts@).last() == parts@[n - 1]@);
    if same_text(parts[n - 1].as_str(), ".") || same_text(parts[n - 1].as_str(), "..") {
        None
    } else {
        Some(parts[n - 1].clone())
    }
}

/// Whether a lower-case query stands in a text, whatever its case.
pub open spec fn matches_text(value: Option<Seq<char>>, query: Seq<char>) -> bool {
    value is Some && contains_text(lowercased(value->0), query)
}

/// Whether a lower-case query finds an entry: by its identity, the name of its
/// file, its name or its first message.
pub open spec fn entry_found(entry: CatalogEntryView, query: Seq<char>) -> bool {
    matches_text(Some(entry.id), query) || matches_text(file_name_of(entry.path), query)
        || matches_text(entry.name, query) || matches_text(entry.first_message, query)
}

fn text_matches(value: &Option<String>, query: &str) -> (r: bool)
    ensures
        r == matches_text(optional_view(*value), query@),
{
    match value {
        Some(text) => {
            let lower = lowercase(text.as_str());
            has_text(lower.as_str(), query)
        },
        None => false,
    }
}

/// Whether a lower-case query finds an entry.
pub fn entry_matches(entry: &SessionCatalogEntry, query: &str) -> (r: bool)
    ensures
        r == entry_found(entry@, query@),
{
    let lower_id = lowercase(entry.id.as_str());
    if has_text(lower_id.as_str(), query) {
        return true;
    }
    let name = file_name(entry.path.as_str());
    text_matches(&name, query) || text_matches(&entry.name, query) || text_matches(
        &entry.first_message,
        query,
    )
}

} // verus!
