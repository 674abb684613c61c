//! Entries of a persisted session as items of a timeline.
use vstd::prelude::*;
use vstd::string::*;

use crate::bounded::{bound_detail, bounded_detail, BoundedText, BoundedTextView};
use crate::json::{
    json_bool_at, json_integer, json_list, json_member, json_text, json_text_at, json_text_is,
    json_tree, JsonTree,
};
use crate::limits::RuntimeLimits;
use crate::text::{
    byte_len, keep_prefix, lemma_encode_concat, lemma_encode_first, lemma_prefix_within,
    lemma_suffix_within, optional_view, prefix_within, same_text, text_bytes, trim_text, trimmed,
};

verus! {

#[derive(Clone, Copy, Debug, PartialEq, Eq, Structural)]
pub enum SessionTimelineKind {
    User,
    Assistant,
    Tool,
    Bash,
    Compaction,
    BranchSummary,
    Custom,
}

#[derive(Clone, Debug, PartialEq, Eq)]
pub struct SessionTimelineItem {
    pub entry_id: String,
    pub timestamp: Option<String>,
    pub kind: SessionTimelineKind,
    pub title: Option<String>,
    pub text: String,
    pub text_truncated: bool,
    pub is_error: bool,
}

/// Model of a [`SessionTimelineItem`].
pub struct TimelineItemView {
    pub entry_id: Seq<char>,
    pub timestamp: Option<Seq<char>>,
    pub kind: SessionTimelineKind,
    pub title: Option<Seq<char>>,
    pub text: Seq<char>,
    pub text_truncated: bool,
    pub is_error: bool,
}

impl View for SessionTimelineItem {
    type V = TimelineItemView;

    open spec fn view(&self) -> TimelineItemView {
        TimelineItemView {
            entry_id: self.entry_id@,
            timestamp: optional_view(self.timestamp),
            kind: self.kind,
            title: optional_view(self.title),
            text: self.text@,
            text_truncated: self.text_truncated,
            is_error: self.is_error,
        }
    }
}

/// The start of a text within a bound, and whether anything was cut off.
pub open spec fn prefix_of(value: Seq<char>, max_bytes: nat) -> (Seq<char>, bool) {
    (prefix_within(value, max_bytes), byte_len(value) > max_bytes)
}

/// The start of an optional text within a bound.
pub open spec fn optional_prefix(value: Option<Seq<char>>, max_bytes: nat) -> Option<Seq<char>> {
    match value {
        Some(text) => Some(prefix_within(text, max_bytes)),
        None => None,
    }
}

/// Text gathered from several pieces, within a bound.
pub struct Gathered {
    pub text: Seq<char>,
    pub truncated: bool,
}

impl Gathered {
    pub open spec fn empty() -> Self {
        Gathered { text: Seq::empty(), truncated: false }
    }

    /// With one more piece, on a line of its own and without white space around
    /// it; of a piece that does not fit, as much as does.
    pub open spec fn with(self, piece: Seq<char>, max_bytes: nat) -> Self {
        let value = trimmed(piece);
        let separator: nat = if self.text.len() == 0 {
            0
        } else {
            1
        };
        let used = byte_len(self.text) + separator;
        if value.len() == 0 {
            self
        } else if used >= max_bytes {
            Gathered { truncated: true, ..self }
        } else {
            let available = (max_bytes - used) as nat;
            let line = if separator == 1 {
                self.text.push('\n')
            } else {
                self.text
            };
            Gathered {
                text: line + prefix_within(value, available),
                truncated: self.truncated || byte_len(value) > available,
            }
        }
    }
}

/// The text of the text blocks, and how many images stand beside them.
pub open spec fn text_blocks(blocks: Seq<JsonTree>, max_bytes: nat) -> (Gathered, nat)
    decreases blocks.len(),
{
    if blocks.len() == 0 {
        (Gathered::empty(), 0)
    } else {
        let (gathered, images) = text_blocks(blocks.drop_last(), max_bytes);
        let block = blocks.last();
        if block.text_at("type"@) == Some("text"@) {
            match block.text_at("text"@) {
                Some(text) => (gathered.with(text, max_bytes), images),
                None => (gathered, images),
            }
        } else if block.text_at("type"@) == Some("image"@) {
            (gathered, images + 1)
        } else {
            (gathered, images)
        }
    }
}

/// The text of a message: as it is, or gathered from its blocks. Images alone are
/// mentioned.
pub open spec fn content_of(content: JsonTree, max_bytes: nat) -> (Seq<char>, bool) {
    match content {
        JsonTree::Text(text) => prefix_of(text, max_bytes),
        JsonTree::List(blocks) => {
            let (gathered, images) = text_blocks(blocks, max_bytes);
            let shown = if gathered.text.len() == 0 && images == 1 {
                gathered.with("[1 image attachment]"@, max_bytes)
            } else if gathered.text.len() == 0 && images > 1 {
                gathered.with("[image attachments]"@, max_bytes)
            } else {
                gathered
            };
            (shown.text, shown.truncated)
        },
        _ => (Seq::empty(), false),
    }
}

/// The most names of tool calls that stand in for a message without text.
pub const MAX_TOOL_NAMES: usize = 16;

/// The text of the text blocks, and the names of the first tool calls.
pub open spec fn assistant_blocks(blocks: Seq<JsonTree>, max_bytes: nat) -> (
    Gathered,
    Seq<Seq<char>>,
)
    decreases blocks.len(),
{
    if blocks.len() == 0 {
        (Gathered::empty(), Seq::empty())
    } else {
        let (gathered, names) = assistant_blocks(blocks.drop_last(), max_bytes);
        let block = blocks.last();
        if block.text_at("type"@) == Some("text"@) {
            match block.text_at("text"@) {
                Some(text) => (gathered.with(text, max_bytes), names),
                None => (gathered, names),
            }
        } else if block.text_at("type"@) == Some("toolCall"@) && names.len() < MAX_TOOL_NAMES {
            match block.text_at("name"@) {
                Some(name) => (gathered, names.push(name)),
                None => (gathered, names),
            }
        } else {
            (gathered, names)
        }
    }
}

/// With each of the names on a line of its own.
pub open spec fn with_names(gathered: Gathered, names: Seq<Seq<char>>, max_bytes: nat) -> Gathered
    decreases names.len(),
{
    if names.len() == 0 {
        gathered
    } else {
        with_names(gathered, names.drop_last(), max_bytes).with(names.last(), max_bytes)
    }
}

/// The text of an assistant message. Where it has none, its tool calls are named.
pub open spec fn assistant_content(content: JsonTree, max_bytes: nat) -> (Seq<char>, bool) {
    match content {
        JsonTree::List(blocks) => {
            let (gathered, names) = assistant_blocks(blocks, max_bytes);
            let shown = if gathered.text.len() == 0 && names.len() > 0 {
                with_names(gathered.with("Tool calls:"@, max_bytes), names, max_bytes)
            } else {
                gathered
            };
            (shown.text, shown.truncated)
        },
        _ => content_of(content, max_bytes),
    }
}

/// What a block contributes to the output of a tool.
pub open spec fn output_segment(block: JsonTree) -> Option<Seq<char>> {
    if block.text_at("type"@) == Some("text"@) {
        block.text_at("text"@)
    } else if block.text_at("type"@) == Some("image"@) {
        Some("[image attachment]"@)
    } else {
        None
    }
}

/// The newest output that the blocks hold, and whether they hold any.
pub open spec fn output_blocks(blocks: Seq<JsonTree>, max_bytes: nat) -> (BoundedTextView, bool)
    decreases blocks.len(),
{
    if blocks.len() == 0 {
        (BoundedTextView::empty(max_bytes), false)
    } else {
        let (output, has_content) = output_blocks(blocks.drop_last(), max_bytes);
        match output_segment(blocks.last()) {
            Some(segment) => (
                (if has_content {
                    output.appended("\n"@)
                } else {
                    output
                }).appended(segment),
                true,
            ),
            None => (output, has_content),
        }
    }
}

/// The newest part of the output of a tool, where failures are reported.
pub open spec fn output_of(content: JsonTree, max_bytes: nat) -> (Seq<char>, bool) {
    match content {
        JsonTree::Text(text) => bounded_detail(text, max_bytes),
        JsonTree::List(blocks) => {
            let output = output_blocks(blocks, max_bytes).0;
            (output.text, output.dropped_bytes > 0)
        },
        _ => (Seq::empty(), false),
    }
}

/// The text under `key`, or nothing.
pub open spec fn text_or_empty(value: JsonTree, key: Seq<char>) -> Seq<char> {
    match value.text_at(key) {
        Some(text) => text,
        None => Seq::empty(),
    }
}

/// The item of a summary.
pub open spec fn summary_item(
    value: JsonTree,
    entry_id: Seq<char>,
    timestamp: Option<Seq<char>>,
    kind: SessionTimelineKind,
    title: Seq<char>,
    max_bytes: nat,
) -> TimelineItemView {
    let (text, text_truncated) = prefix_of(text_or_empty(value, "summary"@), max_bytes);
    TimelineItemView {
        entry_id,
        timestamp,
        kind,
        title: Some(title),
        text,
        text_truncated,
        is_error: false,
    }
}

/// The item of something that an extension wrote.
pub open spec fn custom_item(
    value: JsonTree,
    entry_id: Seq<char>,
    timestamp: Option<Seq<char>>,
    shown_by_default: bool,
    max_bytes: nat,
) -> Option<TimelineItemView> {
    if !value.bool_at("display"@, shown_by_default) || value.member("content"@) is None {
        None
    } else {
        let (text, text_truncated) = content_of(value.member("content"@)->0, max_bytes);
        Some(
            TimelineItemView {
                entry_id,
                timestamp,
                kind: SessionTimelineKind::Custom,
                title: optional_prefix(value.text_at("customType"@), 256),
                text,
                text_truncated,
                is_error: false,
            },
        )
    }
}

/// The item of a message of the user.
pub open spec fn user_item(
    message: JsonTree,
    entry_id: Seq<char>,
    timestamp: Option<Seq<char>>,
    max_bytes: nat,
) -> Option<TimelineItemView> {
    match message.member("content"@) {
        Some(content) => {
            let (text, text_truncated) = content_of(content, max_bytes);
            Some(
                TimelineItemView {
                    entry_id,
                    timestamp,
                    kind: SessionTimelineKind::User,
                    title: Some("You"@),
                    text,
                    text_truncated,
                    is_error: false,
                },
            )
        },
        None => None,
    }
}

/// The item of a message of the assistant. Without any text, its error is shown.
pub open spec fn assistant_item(
    message: JsonTree,
    entry_id: Seq<char>,
    timestamp: Option<Seq<char>>,
    max_bytes: nat,
) -> Option<TimelineItemView> {
    match message.member("content"@) {
        Some(content) => {
            let (own, own_truncated) = assistant_content(content, max_bytes);
            let (text, text_truncated) = if own.len() == 0 && message.text_at("errorMessage"@)
                is Some {
                prefix_of(message.text_at("errorMessage"@)->0, max_bytes)
            } else {
                (own, own_truncated)
            };
            Some(
                TimelineItemView {
                    entry_id,
                    timestamp,
                    kind: SessionTimelineKind::Assistant,
                    title: optional_prefix(message.text_at("model"@), 256),
                    text,
                    text_truncated,
                    is_error: message.text_at("stopReason"@) == Some("error"@),
                },
            )
        },
        None => None,
    }
}

/// The item of the result of a tool.
pub open spec fn tool_item(
    message: JsonTree,
    entry_id: Seq<char>,
    timestamp: Option<Seq<char>>,
    max_bytes: nat,
) -> Option<TimelineItemView> {
    match message.member("content"@) {
        Some(content) => {
            let (text, text_truncated) = output_of(content, max_bytes);
            Some(
                TimelineItemView {
                    entry_id,
                    timestamp,
                    kind: SessionTimelineKind::Tool,
                    title: optional_prefix(message.text_at("toolName"@), 256),
                    text,
                    text_truncated,
                    is_error: message.bool_at("isError"@, false),
                },
            )
        },
        None => None,
    }
}

/// The exit code of a shell command, if it has one.
pub open spec fn exit_code_of(message: JsonTree) -> Option<i64> {
    match message.member("exitCode"@) {
        Some(code) => code.integer(),
        None => None,
    }
}

/// The item of a shell command.
pub open spec fn bash_item(
    message: JsonTree,
    entry_id: Seq<char>,
    timestamp: Option<Seq<char>>,
    max_bytes: nat,
) -> TimelineItemView {
    let (text, text_truncated) = bounded_detail(text_or_empty(message, "output"@), max_bytes);
    TimelineItemView {
        entry_id,
        timestamp,
        kind: SessionTimelineKind::Bash,
        title: optional_prefix(message.text_at("command"@), 512),
        text,
        text_truncated: text_truncated || message.bool_at("truncated"@, false),
        is_error: exit_code_of(message) is Some && exit_code_of(message)->0 != 0,
    }
}

/// The item of a message, by its role.
pub open spec fn message_timeline(
    message: JsonTree,
    entry_id: Seq<char>,
    timestamp: Option<Seq<char>>,
    max_bytes: nat,
) -> Option<TimelineItemView> {
    match message.text_at("role"@) {
        None => None,
        Some(role) => if role == "user"@ {
            user_item(message, entry_id, timestamp, max_bytes)
        } else if role == "assistant"@ {
            assistant_item(message, entry_id, timestamp, max_bytes)
        } else if role == "toolResult"@ {
            tool_item(message, entry_id, timestamp, max_bytes)
        } else if role == "bashExecution"@ {
            Some(bash_item(message, entry_id, timestamp, max_bytes))
        } else if role == "custom"@ {
            custom_item(message, entry_id, timestamp, false, max_bytes)
        } else if role == "branchSummary"@ {
            Some(
                summary_item(
                    message,
                    entry_id,
                    timestamp,
                    SessionTimelineKind::BranchSummary,
                    "Branch summary"@,
                    max_bytes,
                ),
            )
        } else if role == "compactionSummary"@ {
            Some(
                summary_item(
                    message,
                    entry_id,
                    timestamp,
                    SessionTimelineKind::Compaction,
                    "Compaction"@,
                    max_bytes,
                ),
            )
        } else {
            None
        },
    }
}

/// The item of an entry of a session, if it is shown.
pub open spec fn entry_timeline(entry: JsonTree, max_bytes: nat) -> Option<TimelineItemView> {
    match entry.text_at("id"@) {
        None => None,
        Some(id) => {
            let timestamp = optional_prefix(entry.text_at("timestamp"@), 128);
            match entry.text_at("type"@) {
                None => None,
                Some(kind) => if kind == "message"@ {
                    match entry.member("message"@) {
                        Some(message) => message_timeline(message, id, timestamp, max_bytes),
                        None => None,
                    }
                } else if kind == "compaction"@ {
                    Some(
                        summary_item(
                            entry,
                            id,
                            timestamp,
                            SessionTimelineKind::Compaction,
                            "Compaction"@,
                            max_bytes,
                        ),
                    )
                } else if kind == "branch_summary"@ {
                    Some(
                        summary_item(
                            entry,
                            id,
                            timestamp,
                            SessionTimelineKind::BranchSummary,
                            "Branch summary"@,
                            max_bytes,
                        ),
                    )
                } else if kind == "custom_message"@ {
                    custom_item(entry, id, timestamp, true, max_bytes)
                } else {
                    None
                },
            }
        },
    }
}

fn bounded_prefix(value: &str, max_bytes: usize) -> (r: (String, bool))
    ensures
        (r.0@, r.1) == prefix_of(value@, max_bytes as nat),
{
    (keep_prefix(value, max_bytes), text_bytes(value) > max_bytes)
}

/// The start of the text under `key`, if there is one.
fn prefix_at(value: &serde_json::Value, key: &str, max_bytes: usize) -> (r: Option<String>)
    ensures
        optional_view(r) == optional_prefix(json_tree(*value).text_at(key@), max_bytes as nat),
{
    match json_text_at(value, key) {
        Some(text) => Some(keep_prefix(text, max_bytes)),
        None => None,
    }
}

struct TextCollector {
    text: String,
    max_bytes: usize,
    truncated: bool,
}

impl TextCollector {
    spec fn gathered(&self) -> Gathered {
        Gathered { text: self.text@, truncated: self.truncated }
    }

    fn new(max_bytes: usize) -> (r: Self)
        ensures
            r.gathered() == Gathered::empty(),
            r.max_bytes == max_bytes,
    {
        let text = String::new();
        assert(text@ =~= Seq::<char>::empty());
        TextCollector { text, max_bytes, truncated: false }
    }

    fn append_segment(&mut self, value: &str)
        ensures
            final(self).gathered() == old(self).gathered().with(
                value@,
                old(self).max_bytes as nat,
            ),
            final(self).max_bytes == old(self).max_bytes,
    {
        let value = trim_text(value);
        if value.as_str().is_empty() {
            return;
        }
        let separator: usize = if self.text.as_str().is_empty() {
            0
        } else {
            1
        };
        let used: usize = text_bytes(self.text.as_str()).saturating_add(separator);
        if used >= self.max_bytes {
            self.truncated = true;
            return;
        }
        let available: usize = self.max_bytes - used;
        if separator == 1 {
            self.text.push('\n');
        }
        let (prefix, truncated) = bounded_prefix(value.as_str(), available);
        self.text.append(prefix.as_str());
        self.truncated = self.truncated || truncated;
    }
}

/// The trees of a list of values.
pub open spec fn trees(values: Seq<serde_json::Value>) -> Seq<JsonTree> {
    values.map_values(|item: serde_json::Value| json_tree(item))
}

pub fn content_text(content: &serde_json::Value, max_bytes: usize) -> (r: (String, bool))
    ensures
        (r.0@, r.1) == content_of(json_tree(*content), max_bytes as nat),
{
    match json_text(content) {
        Some(text) => {
            return bounded_prefix(text, max_bytes);
        },
        None => {},
    }
    let blocks = match json_list(content) {
        Some(blocks) => blocks,
        None => {
            let empty = String::new();
            assert(empty@ =~= Seq::<char>::empty());
            return (empty, false);
        },
    };
    let ghost all = trees(blocks@);
    let mut collector = TextCollector::new(max_bytes);
    let mut images: usize = 0;
    let mut i: usize = 0;
    assert(all.take(0) =~= Seq::<JsonTree>::empty());
    while i < blocks.len()
        invariant
            i <= blocks@.len(),
            all == trees(blocks@),
            images <= i,
            collector.max_bytes == max_bytes,
            (collector.gathered(), images as nat) == text_blocks(
                all.take(i as int),
                max_bytes as nat,
            ),
        decreases blocks@.len() - i,
    {
        let block = &blocks[i];
        assert(all.take(i + 1).drop_last() =~= all.take(i as int));
        assert(all.take(i + 1).last() == json_tree(*block));
        if json_text_is(block, "type", "text") {
            match json_text_at(block, "text") {
                Some(text) => {
                    collector.append_segment(text);
                },
                None => {},
            }
        } else if json_text_is(block, "type", "image") {
            images += 1;
        }
        i += 1;
    }
    assert(all.take(i as int) =~= all);
    if collector.text.as_str().is_empty() && images > 0 {
        if images == 1 {
            collector.append_segment("[1 image attachment]");
        } else {
            collector.append_segment("[image attachments]");
        }
    }
    (collector.text, collector.truncated)
}

pub fn assistant_text(content: &serde_json::Value, max_bytes: usize) -> (r: (String, bool))
    ensures
        (r.0@, r.1) == assistant_content(json_tree(*content), max_bytes as nat),
{
    let blocks = match json_list(content) {
        Some(blocks) => blocks,
        None => {
            return content_text(content, max_bytes);
        },
    };
    let ghost all = trees(blocks@);
    let mut collector = TextCollector::new(max_bytes);
    let mut names: Vec<&str> = Vec::new();
    let ghost mut name_texts: Seq<Seq<char>> = Seq::empty();
    let mut i: usize = 0;
    assert(all.take(0) =~= Seq::<JsonTree>::empty());
    while i < blocks.len()
        invariant
            i <= blocks@.len(),
            all == trees(blocks@),
            collector.max_bytes == max_bytes,
            names@.len() == name_texts.len(),
            forall|k: int| 0 <= k < names@.len() ==> (#[trigger] names@[k])@ == name_texts[k],
            (collector.gathered(), name_texts) == assistant_blocks(
                all.take(i as int),
                max_bytes as nat,
            ),
        decreases blocks@.len() - i,
    {
        let block = &blocks[i];
        assert(all.take(i + 1).drop_last() =~= all.take(i as int));
        assert(all.take(i + 1).last() == json_tree(*block));
        if json_text_is(block, "type", "text") {
            match json_text_at(block, "text") {
                Some(text) => {
                    collector.append_segment(text);
                },
                None => {},
            }
        } else if json_text_is(block, "type", "toolCall") && names.len() < MAX_TOOL_NAMES {
            match json_text_at(block, "name") {
                Some(name) => {
                    names.push(name);
                    proof {
                        name_texts = name_texts.push(name@);
                    }
                },
                None => {},
            }
        }
        i += 1;
    }
    assert(all.take(i as int) =~= all);
    if collector.text.as_str().is_empty() && names.len() > 0 {
        collector.append_segment("Tool calls:");
        let ghost start = collector.gathered();
        let mut k: usize = 0;
        assert(name_texts.take(0) =~= Seq::<Seq<char>>::empty());
        while k < names.len()
            invariant
                k <= names@.len() == name_texts.len(),
                forall|m: int| 0 <= m < names@.len() ==> (#[trigger] names@[m])@ == name_texts[m],
                collector.max_bytes == max_bytes,
                collector.gathered() == with_names(
                    start,
                    name_texts.take(k as int),
                    max_bytes as nat,
                ),
            decreases names@.len() - k,
        {
            assert(name_texts.take(k + 1).drop_last() =~= name_texts.take(k as int));
            assert(names@[k as int]@ == name_texts[k as int]);
            collector.append_segment(names[k]);
            k += 1;
        }
        assert(name_texts.take(k as int) =~= name_texts);
    }
    (collector.text, collector.truncated)
}

pub fn content_text_tail(content: &serde_json::Value, max_bytes: usize) -> (r: (String, bool))
    ensures
        (r.0@, r.1) == output_of(json_tree(*content), max_bytes as nat),
{
    match json_text(content) {
        Some(text) => {
            return bound_detail(text, max_bytes);
        },
        None => {},
    }
    let blocks = match json_list(content) {
        Some(blocks) => blocks,
        None => {
            let empty = String::new();
            assert(empty@ =~= Seq::<char>::empty());
            return (empty, false);
        },
    };
    let ghost all = trees(blocks@);
    let mut output = BoundedText::new(max_bytes);
    let mut has_content = false;
    let mut i: usize = 0;
    assert(all.take(0) =~= Seq::<JsonTree>::empty());
    while i < blocks.len()
        invariant
            i <= blocks@.len(),
            all == trees(blocks@),
            (output@, has_content) == output_blocks(all.take(i as int), max_bytes as nat),
        decreases blocks@.len() - i,
    {
        let block = &blocks[i];
        assert(all.take(i + 1).drop_last() =~= all.take(i as int));
        assert(all.take(i + 1).last() == json_tree(*block));
        let segment = if json_text_is(block, "type", "text") {
            json_text_at(block, "text")
        } else if json_text_is(block, "type", "image") {
            Some("[image attachment]")
        } else {
            None
        };
        match segment {
            Some(segment) => {
                if has_content {
                    output.append("\n");
                }
                output.append(segment);
                has_content = true;
            },
            None => {},
        }
        i += 1;
    }
    assert(all.take(i as int) =~= all);
    (output.as_str().to_owned(), output.dropped_bytes() > 0)
}

fn text_at_or_empty(value: &serde_json::Value, key: &str) -> (r: String)
    ensures
        r@ == text_or_empty(json_tree(*value), key@),
{
    match json_text_at(value, key) {
        Some(text) => text.to_owned(),
        None => {
            let empty = String::new();
            assert(empty@ =~= Seq::<char>::empty());
            empty
        },
    }
}

fn make_summary_item(
    value: &serde_json::Value,
    entry_id: String,
    timestamp: Option<String>,
    kind: SessionTimelineKind,
    title: &str,
    max_bytes: usize,
) -> (r: SessionTimelineItem)
    ensures
        r@ == summary_item(
            json_tree(*value),
            entry_id@,
            optional_view(timestamp),
            kind,
            title@,
            max_bytes as nat,
        ),
{
    let summary = text_at_or_empty(value, "summary");
    let (text, text_truncated) = bounded_prefix(summary.as_str(), max_bytes);
    SessionTimelineItem {
        entry_id,
        timestamp,
        kind,
        title: Some(title.to_owned()),
        text,
        text_truncated,
        is_error: false,
    }
}

fn make_custom_item(
    value: &serde_json::Value,
    entry_id: String,
    timestamp: Option<String>,
    shown_by_default: bool,
    max_bytes: usize,
) -> (r: Option<SessionTimelineItem>)
    ensures
        item_option(r) == custom_item(
            json_tree(*value),
            entry_id@,
            optional_view(timestamp),
            shown_by_default,
            max_bytes as nat,
        ),
{
    if !json_bool_at(value, "display", shown_by_default) {
        return None;
    }
    let content = match json_member(value, "content") {
        Some(content) => content,
        None => {
            return None;
        },
    };
    let (text, text_truncated) = content_text(content, max_bytes);
    Some(
        SessionTimelineItem {
            entry_id,
            timestamp,
            kind: SessionTimelineKind::Custom,
            title: prefix_at(value, "customType", 256),
            text,
            text_truncated,
            is_error: false,
        },
    )
}

/// The model of an optional item.
pub open spec fn item_option(item: Option<SessionTimelineItem>) -> Option<TimelineItemView> {
    match item {
        Some(item) => Some(item@),
        None => None,
    }
}

fn make_user_item(
    message: &serde_json::Value,
    entry_id: String,
    timestamp: Option<String>,
    max_bytes: usize,
) -> (r: Option<SessionTimelineItem>)
    ensures
        item_option(r) == user_item(
            json_tree(*message),
            entry_id@,
            optional_view(timestamp),
            max_bytes as nat,
        ),
{
    match json_member(message, "content") {
        Some(content) => {
            let (text, text_truncated) = content_text(content, max_bytes);
            Some(
                SessionTimelineItem {
                    entry_id,
                    timestamp,
                    kind: SessionTimelineKind::User,
                    title: Some("You".to_owned()),
                    text,
                    text_truncated,
                    is_error: false,
                },
            )
        },
        None => None,
    }
}

fn make_assistant_item(
    message: &serde_json::Value,
    entry_id: String,
    timestamp: Option<String>,
    max_bytes: usize,
) -> (r: Option<SessionTimelineItem>)
    ensures
        item_option(r) == assistant_item(
            json_tree(*message),
            entry_id@,
            optional_view(timestamp),
            max_bytes as nat,
        ),
{
    match json_member(message, "content") {
        Some(content) => {
            let (mut text, mut text_truncated) = assistant_text(content, max_bytes);
            if text.as_str().is_empty() {
                match json_text_at(message, "errorMessage") {
                    Some(error) => {
                        let (error_text, error_truncated) = bounded_prefix(error, max_bytes);
                        text = error_text;
                        text_truncated = error_truncated;
                    },
                    None => {},
                }
            }
            Some(
                SessionTimelineItem {
                    entry_id,
                    timestamp,
                    kind: SessionTimelineKind::Assistant,
                    title: prefix_at(message, "model", 256),
                    text,
                    text_truncated,
                    is_error: json_text_is(message, "stopReason", "error"),
                },
            )
        },
        None => None,
    }
}

fn make_tool_item(
    message: &serde_json::Value,
    entry_id: String,
    timestamp: Option<String>,
    max_bytes: usize,
) -> (r: Option<SessionTimelineItem>)
    ensures
        item_option(r) == tool_item(
            json_tree(*message),
            entry_id@,
            optional_view(timestamp),
            max_bytes as nat,
        ),
{
    match json_member(message, "content") {
        Some(content) => {
            let (text, text_truncated) = content_text_tail(content, max_bytes);
            Some(
                SessionTimelineItem {
                    entry_id,
                    timestamp,
                    kind: SessionTimelineKind::Tool,
                    title: prefix_at(message, "toolName", 256),
                    text,
                    text_truncated,
                    is_error: json_bool_at(message, "isError", false),
                },
            )
        },
        None => None,
    }
}

fn make_bash_item(
    message: &serde_json::Value,
    entry_id: String,
    timestamp: Option<String>,
    max_bytes: usize,
) -> (r: SessionTimelineItem)
    ensures
        r@ == bash_item(
            json_tree(*message),
            entry_id@,
            optional_view(timestamp),
            max_bytes as nat,
        ),
{
    let output = text_at_or_empty(message, "output");
    let (text, text_truncated) = bound_detail(output.as_str(), max_bytes);
    let exit_code = match json_member(message, "exitCode") {
        Some(code) => json_integer(code),
        None => None,
    };
    let failed = match exit_code {
        Some(code) => code != 0,
        None => false,
    };
    let cut_by_pi = json_bool_at(message, "truncated", false);
    SessionTimelineItem {
        entry_id,
        timestamp,
        kind: SessionTimelineKind::Bash,
        title: prefix_at(message, "command", 512),
        text,
        text_truncated: text_truncated || cut_by_pi,
        is_error: failed,
    }
}

/// The item of a message, by its role.
pub fn message_item(
    message: &serde_json::Value,
    entry_id: String,
    timestamp: Option<String>,
    limits: RuntimeLimits,
) -> (r: Option<SessionTimelineItem>)
    ensures
        item_option(r) == message_timeline(
            json_tree(*message),
            entry_id@,
            optional_view(timestamp),
            limits.max_session_history_item_text_bytes as nat,
        ),
{
    let max_bytes: usize = limits.max_session_history_item_text_bytes;
    let role = match json_text_at(message, "role") {
        Some(role) => role,
        None => {
            return None;
        },
    };
    if same_text(role, "user") {
        make_user_item(message, entry_id, timestamp, max_bytes)
    } else if same_text(role, "assistant") {
        make_assistant_item(message, entry_id, timestamp, max_bytes)
    } else if same_text(role, "toolResult") {
        make_tool_item(message, entry_id, timestamp, max_bytes)
    } else if same_text(role, "bashExecution") {
        Some(make_bash_item(message, entry_id, timestamp, max_bytes))
    } else if same_text(role, "custom") {
        make_custom_item(message, entry_id, timestamp, false, max_bytes)
    } else if same_text(role, "branchSummary") {
        Some(
            make_summary_item(
                message,
                entry_id,
                timestamp,
                SessionTimelineKind::BranchSummary,
                "Branch summary",
                max_bytes,
            ),
        )
    } else if same_text(role, "compactionSummary") {
        Some(
            make_summary_item(
                message,
                entry_id,
                timestamp,
                SessionTimelineKind::Compaction,
                "Compaction",
                max_bytes,
            ),
        )
    } else {
        None
    }
}

/// The item of an entry of a session, if it is shown.
pub fn timeline_item(entry: &serde_json::Value, limits: RuntimeLimits) -> (r: Option<
    SessionTimelineItem,
>)
    ensures
        item_option(r) == entry_timeline(
            json_tree(*entry),
            limits.max_session_history_item_text_bytes as nat,
        ),
{
    let max_bytes: usize = limits.max_session_history_item_text_bytes;
    let id = match json_text_at(entry, "id") {
        Some(id) => id.to_owned(),
        None => {
            return None;
        },
    };
    let timestamp = prefix_at(entry, "timestamp", 128);
    let kind = match json_text_at(entry, "type") {
        Some(kind) => kind,
        None => {
            return None;
        },
    };
    if same_text(kind, "message") {
        match json_member(entry, "message") {
            Some(message) => message_item(message, id, timestamp, limits),
            None => None,
        }
    } else if same_text(kind, "compaction") {
        Some(
            make_summary_item(
                entry,
                id,
                timestamp,
                SessionTimelineKind::Compaction,
                "Compaction",
                max_bytes,
            ),
        )
    } else if same_text(kind, "branch_summary") {
        Some(
            make_summary_item(
                entry,
                id,
                timestamp,
                SessionTimelineKind::BranchSummary,
                "Branch summary",
                max_bytes,
            ),
        )
    } else if same_text(kind, "custom_message") {
        make_custom_item(entry, id, timestamp, true, max_bytes)
    } else {
        None
    }
}

proof fn lemma_with_fits(gathered: Gathered, piece: Seq<char>, max_bytes: nat)
    requires
        byte_len(gathered.text) <= max_bytes,
    ensures
        byte_len(gathered.with(piece, max_bytes).text) <= max_bytes,
{
    let value = trimmed(piece);
    let separator: nat = if gathered.text.len() == 0 {
        0
    } else {
        1
    };
    let used = byte_len(gathered.text) + separator;
    if value.len() > 0 && used < max_bytes {
        let available = (max_bytes - used) as nat;
        lemma_prefix_within(value, available);
        let newline = seq!['\n'];
        assert(newline.drop_first() =~= Seq::<char>::empty());
        lemma_encode_first(newline);
        lemma_encode_concat(gathered.text, newline);
        assert(gathered.text.push('\n') =~= gathered.text + newline);
        let line = if separator == 1 {
            gathered.text.push('\n')
        } else {
            gathered.text
        };
        lemma_encode_concat(line, prefix_within(value, available));
    }
}

proof fn lemma_text_blocks_fit(blocks: Seq<JsonTree>, max_bytes: nat)
    ensures
        byte_len(text_blocks(blocks, max_bytes).0.text) <= max_bytes,
    decreases blocks.len(),
{
    if blocks.len() > 0 {
        lemma_text_blocks_fit(blocks.drop_last(), max_bytes);
        let gathered = text_blocks(blocks.drop_last(), max_bytes).0;
        match blocks.last().text_at("text"@) {
            Some(text) => {
                lemma_with_fits(gathered, text, max_bytes);
            },
            None => {},
        }
    }
}

proof fn lemma_assistant_blocks_fit(blocks: Seq<JsonTree>, max_bytes: nat)
    ensures
        byte_len(assistant_blocks(blocks, max_bytes).0.text) <= max_bytes,
    decreases blocks.len(),
{
    if blocks.len() > 0 {
        lemma_assistant_blocks_fit(blocks.drop_last(), max_bytes);
        let gathered = assistant_blocks(blocks.drop_last(), max_bytes).0;
        match blocks.last().text_at("text"@) {
            Some(text) => {
                lemma_with_fits(gathered, text, max_bytes);
            },
            None => {},
        }
    }
}

proof fn lemma_names_fit(gathered: Gathered, names: Seq<Seq<char>>, max_bytes: nat)
    requires
        byte_len(gathered.text) <= max_bytes,
    ensures
        byte_len(with_names(gathered, names, max_bytes).text) <= max_bytes,
    decreases names.len(),
{
    if names.len() > 0 {
        lemma_names_fit(gathered, names.drop_last(), max_bytes);
        lemma_with_fits(
            with_names(gathered, names.drop_last(), max_bytes),
            names.last(),
            max_bytes,
        );
    }
}

proof fn lemma_output_fits(blocks: Seq<JsonTree>, max_bytes: nat)
    ensures
        output_blocks(blocks, max_bytes).0.wf(),
        output_blocks(blocks, max_bytes).0.max_bytes == max_bytes,
    decreases blocks.len(),
{
    if blocks.len() > 0 {
        lemma_output_fits(blocks.drop_last(), max_bytes);
        let (output, has_content) = output_blocks(blocks.drop_last(), max_bytes);
        match output_segment(blocks.last()) {
            Some(segment) => {
                let line = if has_content {
                    output.appended("\n"@)
                } else {
                    output
                };
                lemma_suffix_within(output.text + "\n"@, max_bytes);
                lemma_suffix_within(line.text + segment, max_bytes);
            },
            None => {},
        }
    }
}

proof fn lemma_content_fits(content: JsonTree, max_bytes: nat)
    ensures
        byte_len(content_of(content, max_bytes).0) <= max_bytes,
        byte_len(assistant_content(content, max_bytes).0) <= max_bytes,
        byte_len(output_of(content, max_bytes).0) <= max_bytes,
{
    match content {
        JsonTree::Text(text) => {
            lemma_prefix_within(text, max_bytes);
            lemma_suffix_within(text, max_bytes);
        },
        JsonTree::List(blocks) => {
            lemma_text_blocks_fit(blocks, max_bytes);
            lemma_with_fits(
                text_blocks(blocks, max_bytes).0,
                "[1 image attachment]"@,
                max_bytes,
            );
            lemma_with_fits(text_blocks(blocks, max_bytes).0, "[image attachments]"@, max_bytes);
            lemma_assistant_blocks_fit(blocks, max_bytes);
            let (gathered, names) = assistant_blocks(blocks, max_bytes);
            lemma_with_fits(gathered, "Tool calls:"@, max_bytes);
            lemma_names_fit(gathered.with("Tool calls:"@, max_bytes), names, max_bytes);
            lemma_output_fits(blocks, max_bytes);
        },
        _ => {},
    }
}

/// Whether the text of an item, where there is one, is within the bound.
pub open spec fn text_fits(item: Option<TimelineItemView>, max_bytes: nat) -> bool {
    item is Some ==> byte_len(item->0.text) <= max_bytes
}

proof fn lemma_summary_item_fits(
    value: JsonTree,
    entry_id: Seq<char>,
    timestamp: Option<Seq<char>>,
    kind: SessionTimelineKind,
    title: Seq<char>,
    max_bytes: nat,
)
    ensures
        text_fits(
            Some(summary_item(value, entry_id, timestamp, kind, title, max_bytes)),
            max_bytes,
        ),
{
    lemma_prefix_within(text_or_empty(value, "summary"@), max_bytes);
}

proof fn lemma_custom_item_fits(
    value: JsonTree,
    entry_id: Seq<char>,
    timestamp: Option<Seq<char>>,
    shown_by_default: bool,
    max_bytes: nat,
)
    ensures
        text_fits(custom_item(value, entry_id, timestamp, shown_by_default, max_bytes), max_bytes),
{
    match value.member("content"@) {
        Some(content) => {
            lemma_content_fits(content, max_bytes);
        },
        None => {},
    }
}

proof fn lemma_message_items_fit(
    message: JsonTree,
    entry_id: Seq<char>,
    timestamp: Option<Seq<char>>,
    max_bytes: nat,
)
    ensures
        text_fits(user_item(message, entry_id, timestamp, max_bytes), max_bytes),
        text_fits(assistant_item(message, entry_id, timestamp, max_bytes), max_bytes),
        text_fits(tool_item(message, entry_id, timestamp, max_bytes), max_bytes),
{
    match message.member("content"@) {
        Some(content) => {
            lemma_content_fits(content, max_bytes);
        },
        None => {},
    }
    match message.text_at("errorMessage"@) {
        Some(error) => {
            lemma_prefix_within(error, max_bytes);
        },
        None => {},
    }
}

proof fn lemma_bash_item_fits(
    message: JsonTree,
    entry_id: Seq<char>,
    timestamp: Option<Seq<char>>,
    max_bytes: nat,
)
    ensures
        text_fits(Some(bash_item(message, entry_id, timestamp, max_bytes)), max_bytes),
{
    lemma_suffix_within(text_or_empty(message, "output"@), max_bytes);
}

proof fn lemma_message_timeline_fits(
    message: JsonTree,
    entry_id: Seq<char>,
    timestamp: Option<Seq<char>>,
    max_bytes: nat,
)
    ensures
        text_fits(message_timeline(message, entry_id, timestamp, max_bytes), max_bytes),
{
    lemma_message_items_fit(message, entry_id, timestamp, max_bytes);
    lemma_bash_item_fits(message, entry_id, timestamp, max_bytes);
    lemma_custom_item_fits(message, entry_id, timestamp, false, max_bytes);
    lemma_summary_item_fits(
        message,
        entry_id,
        timestamp,
        SessionTimelineKind::BranchSummary,
        "Branch summary"@,
        max_bytes,
    );
    lemma_summary_item_fits(
        message,
        entry_id,
        timestamp,
        SessionTimelineKind::Compaction,
        "Compaction"@,
        max_bytes,
    );
}

/// However long an entry is, the text of its item stays within the bound.
pub proof fn timeline_text_is_bounded(entry: JsonTree, max_bytes: nat)
    ensures
        entry_timeline(entry, max_bytes) is Some ==> byte_len(
            entry_timeline(entry, max_bytes)->0.text,
        ) <= max_bytes,
{
    match entry.text_at("id"@) {
        None => {},
        Some(id) => {
            let timestamp = optional_prefix(entry.text_at("timestamp"@), 128);
            match entry.member("message"@) {
                Some(message) => {
                    lemma_message_timeline_fits(message, id, timestamp, max_bytes);
                },
                None => {},
            }
            lemma_custom_item_fits(entry, id, timestamp, true, max_bytes);
            lemma_summary_item_fits(
                entry,
                id,
                timestamp,
                SessionTimelineKind::Compaction,
                "Compaction"@,
                max_bytes,
            );
            lemma_summary_item_fits(
                entry,
                id,
                timestamp,
                SessionTimelineKind::BranchSummary,
                "Branch summary"@,
                max_bytes,
            );
        },
    }
}

} // verus!
