use pi_wizard_core::session_history::{
    check_header, item_json_bytes, page_json_bytes, read_header, require_project, HistoryAction,
    HistoryGathering, HistoryStart, HistoryTarget, LineStep, SessionHistoryCursor,
    SessionHistoryError, SessionHistoryPage, SessionHistoryScan,
};
use pi_wizard_core::timeline::{timeline_item, SessionTimelineItem, SessionTimelineKind};
use pi_wizard_core::RuntimeLimits;

const PROJECT: &str = "/fixture/project";

fn session_file(entries: &[String]) -> Vec<u8> {
    let mut text = format!(
        "{{\"type\":\"session\",\"version\":3,\"id\":\"session-1\",\"timestamp\":\"2026-08-27T00:00:00.000Z\",\"cwd\":\"{PROJECT}\"}}\n"
    );
    for entry in entries {
        text.push_str(entry);
        text.push('\n');
    }
    text.into_bytes()
}

fn parent_json(parent: Option<&str>) -> String {
    match parent {
        Some(parent) => format!("\"{parent}\""),
        None => "null".to_owned(),
    }
}

fn user(id: &str, parent: Option<&str>, text: &str) -> String {
    let parent = parent_json(parent);
    format!(
        "{{\"type\":\"message\",\"id\":\"{id}\",\"parentId\":{parent},\"timestamp\":\"2026-08-27T00:00:01.000Z\",\"message\":{{\"role\":\"user\",\"content\":\"{text}\"}}}}"
    )
}

fn assistant(id: &str, parent: Option<&str>, text: &str) -> String {
    let parent = parent_json(parent);
    format!(
        "{{\"type\":\"message\",\"id\":\"{id}\",\"parentId\":{parent},\"timestamp\":\"2026-08-27T00:00:02.000Z\",\"message\":{{\"role\":\"assistant\",\"content\":[{{\"type\":\"text\",\"text\":\"{text}\"}}],\"model\":\"fixture\",\"stopReason\":\"stop\"}}}}"
    )
}

fn read_page(
    file: &[u8],
    session_id: &str,
    cursor: Option<&SessionHistoryCursor>,
    limits: RuntimeLimits,
) -> Result<SessionHistoryPage, SessionHistoryError> {
    let directory = read_header(file, session_id, limits)?;
    require_project(Some(directory), PROJECT)?;
    let mut scan = match SessionHistoryScan::begin(session_id, cursor, file.len() as u64, limits)? {
        HistoryStart::Scan(scan) => scan,
        HistoryStart::Page(page) => return Ok(page),
    };
    loop {
        match scan.advance() {
            HistoryAction::ReadBlock { offset, len } => {
                let start = offset as usize;
                scan.supply(offset, file[start..start + len].to_vec());
            }
            HistoryAction::Page(page) => return Ok(page),
            HistoryAction::Fail(error) => return Err(error),
        }
    }
}

fn ids(page: &SessionHistoryPage) -> Vec<&str> {
    page.items.iter().map(|item| item.entry_id.as_str()).collect()
}

#[test]
fn latest_page_follows_only_the_persisted_active_branch() {
    let file = session_file(&[
        user("u1", None, "root"),
        assistant("a1", Some("u1"), "root answer"),
        user("abandoned-u", Some("a1"), "abandoned"),
        assistant("abandoned-a", Some("abandoned-u"), "wrong branch"),
        "{\"type\":\"model_change\",\"id\":\"model\",\"parentId\":\"a1\",\"timestamp\":\"2026-08-27T00:00:03.000Z\",\"provider\":\"x\",\"modelId\":\"y\"}".to_owned(),
        user("u2", Some("model"), "active"),
        assistant("a2", Some("u2"), "active answer"),
    ]);
    let page = read_page(&file, "session-1", None, RuntimeLimits::default()).expect("latest history");
    assert_eq!(ids(&page), ["u1", "a1", "u2", "a2"]);
    assert!(page.next_cursor.is_none());
    assert_eq!(page.append_cursor.as_deref(), Some("a2"));
    assert_eq!(page.items[3].text, "active answer");
}

#[test]
fn older_cursor_continues_without_repeating_newer_items() {
    let file = session_file(&[
        user("u1", None, "one"),
        assistant("a1", Some("u1"), "one-a"),
        user("u2", Some("a1"), "two"),
        assistant("a2", Some("u2"), "two-a"),
        user("u3", Some("a2"), "three"),
        assistant("a3", Some("u3"), "three-a"),
    ]);
    let limits = RuntimeLimits { max_session_history_page_items: 2, ..RuntimeLimits::default() };
    let latest = read_page(&file, "session-1", None, limits).expect("latest page");
    assert_eq!(ids(&latest), ["u3", "a3"]);
    let older =
        read_page(&file, "session-1", latest.next_cursor.as_ref(), limits).expect("older page");
    assert_eq!(ids(&older), ["u2", "a2"]);
    assert_eq!(older.append_cursor, None);
    let oldest =
        read_page(&file, "session-1", older.next_cursor.as_ref(), limits).expect("oldest page");
    assert_eq!(ids(&oldest), ["u1", "a1"]);
}

#[test]
fn scan_budget_returns_a_progress_cursor_instead_of_loading_the_whole_file() {
    let mut entries = vec![user("root", None, "root")];
    let mut parent = "root".to_owned();
    for index in 0..80 {
        let id = format!("m{index:03}");
        entries.push(format!(
            "{{\"type\":\"model_change\",\"id\":\"{id}\",\"parentId\":\"{parent}\",\"timestamp\":\"2026-08-27T00:00:02.000Z\",\"provider\":\"fake\",\"modelId\":\"fake\"}}"
        ));
        parent = id;
    }
    entries.push(assistant("leaf", Some(&parent), "latest"));
    let file = session_file(&entries);
    let limits = RuntimeLimits {
        max_session_history_scan_bytes_per_page: 1024,
        max_session_history_line_bytes: 512,
        ..RuntimeLimits::default()
    };
    let page = read_page(&file, "session-1", None, limits).expect("bounded page");
    assert!(page.scanned_bytes <= limits.max_session_history_scan_bytes_per_page);
    assert!(page.next_cursor.is_some());
    assert!(page.items.iter().any(|item| item.entry_id == "leaf"));

    let mut cursor = page.next_cursor;
    let mut pages = 0usize;
    let mut found = Vec::new();
    while let Some(at) = cursor {
        let page = read_page(&file, "session-1", Some(&at), limits).expect("older page");
        found.extend(page.items.iter().map(|item| item.entry_id.clone()));
        cursor = page.next_cursor;
        pages += 1;
        assert!(pages < 50, "paging does not end");
    }
    assert_eq!(found, ["root"]);
}

#[test]
fn cursor_cannot_be_reused_for_another_session() {
    let file = session_file(&[user("u1", None, "one")]);
    let cursor = SessionHistoryCursor {
        session_id: "other-session".to_owned(),
        before_offset: file.len() as u64,
        next_entry_id: Some("u1".to_owned()),
        seek_latest: false,
    };
    assert!(matches!(
        read_page(&file, "session-1", Some(&cursor), RuntimeLimits::default()),
        Err(SessionHistoryError::CursorSessionMismatch { .. })
    ));
}

#[test]
fn history_text_and_jsonl_lines_have_independent_hard_bounds() {
    let file = session_file(&[user("u1", None, &"x".repeat(1024))]);
    let limits = RuntimeLimits {
        max_session_history_item_text_bytes: 32,
        max_session_history_line_bytes: 2048,
        max_session_history_scan_bytes_per_page: 4096,
        ..RuntimeLimits::default()
    };
    let page = read_page(&file, "session-1", None, limits).expect("truncated item");
    assert_eq!(page.items[0].text.len(), 32);
    assert!(page.items[0].text_truncated);

    let too_small = RuntimeLimits {
        max_session_history_item_text_bytes: 16,
        max_session_history_line_bytes: 128,
        max_session_history_scan_bytes_per_page: 512,
        ..RuntimeLimits::default()
    };
    assert!(matches!(
        read_page(&file, "session-1", None, too_small),
        Err(SessionHistoryError::LineTooLarge { limit: 128 })
    ));
}

#[test]
fn historical_tool_and_bash_output_keep_the_newest_bounded_suffix() {
    let file = session_file(&[
        "{\"type\":\"message\",\"id\":\"tool\",\"parentId\":null,\"timestamp\":\"2026-08-27T00:00:01.000Z\",\"message\":{\"role\":\"toolResult\",\"toolCallId\":\"call\",\"toolName\":\"bash\",\"content\":[{\"type\":\"text\",\"text\":\"0123456789\"}],\"isError\":true}}".to_owned(),
        "{\"type\":\"message\",\"id\":\"bash\",\"parentId\":\"tool\",\"timestamp\":\"2026-08-27T00:00:02.000Z\",\"message\":{\"role\":\"bashExecution\",\"command\":\"fixture\",\"output\":\"abcdefghij\",\"exitCode\":1,\"cancelled\":false,\"truncated\":false}}".to_owned(),
    ]);
    let limits =
        RuntimeLimits { max_session_history_item_text_bytes: 6, ..RuntimeLimits::default() };
    let page = read_page(&file, "session-1", None, limits).expect("history page");
    assert_eq!(page.items[0].text, "456789");
    assert_eq!(page.items[1].text, "efghij");
    assert!(page.items.iter().all(|item| item.text_truncated));
    assert!(page.items.iter().all(|item| item.is_error));
    assert_eq!(page.items[0].kind, SessionTimelineKind::Tool);
    assert_eq!(page.items[1].kind, SessionTimelineKind::Bash);
}

#[test]
fn twenty_five_megabyte_session_opens_latest_page_with_bounded_scan_and_page_memory() {
    let payload = "x".repeat(2600);
    let mut entries = Vec::new();
    let mut parent: Option<String> = None;
    for index in 0..10_000usize {
        let id = format!("entry-{index:05}");
        entries.push(user(&id, parent.as_deref(), &payload));
        parent = Some(id);
    }
    let file = session_file(&entries);
    assert!(file.len() >= 25 * 1024 * 1024, "fixture must exceed 25 MiB");
    let limits = RuntimeLimits::default();
    let page = read_page(&file, "session-1", None, limits)
        .expect("bounded latest page from large session");
    assert_eq!(page.items.len(), limits.max_session_history_page_items);
    assert!(page.next_cursor.is_some());
    assert!(page.scanned_bytes <= limits.max_session_history_scan_bytes_per_page);
    assert!(page.encoded_bytes <= limits.max_session_history_page_bytes);
    assert!(
        page.scanned_bytes * 20 < file.len(),
        "latest-page open must not scan a material fraction of the full session"
    );
}

#[test]
fn headers_are_checked_before_the_history() {
    let limits = RuntimeLimits::default();
    let file = session_file(&[]);
    assert_eq!(read_header(&file, "session-1", limits), Ok(PROJECT.to_owned()));
    assert_eq!(
        read_header(&file, "session-2", limits),
        Err(SessionHistoryError::SessionMismatch {
            expected: "session-2".to_owned(),
            actual: "session-1".to_owned(),
        })
    );
    assert_eq!(read_header(b"{}\n", "x", limits), Err(SessionHistoryError::InvalidHeader));
    assert_eq!(read_header(b"no json\n", "x", limits), Err(SessionHistoryError::InvalidHeader));
    let narrow = RuntimeLimits { max_session_header_scan_bytes: 10, ..limits };
    assert_eq!(
        read_header(&file, "session-1", narrow),
        Err(SessionHistoryError::HeaderTooLarge { limit: 10 })
    );
    assert_eq!(require_project(None, PROJECT), Err(SessionHistoryError::InvalidHeader));
    assert_eq!(
        require_project(Some("/other".to_owned()), PROJECT),
        Err(SessionHistoryError::ProjectMismatch {
            expected: PROJECT.to_owned(),
            actual: "/other".to_owned(),
        })
    );
}

#[test]
fn cursors_are_checked_against_the_file() {
    let limits = RuntimeLimits { max_session_cursor_bytes: 3, ..RuntimeLimits::default() };
    let mut cursor = SessionHistoryCursor {
        session_id: "s".to_owned(),
        before_offset: 11,
        next_entry_id: Some("abc".to_owned()),
        seek_latest: false,
    };
    assert!(matches!(
        SessionHistoryScan::begin("s", Some(&cursor), 10, limits),
        Err(SessionHistoryError::CursorBeyondFile { offset: 11, file_size: 10 })
    ));
    cursor.before_offset = 10;
    assert!(matches!(
        SessionHistoryScan::begin("s", Some(&cursor), 10, limits),
        Ok(HistoryStart::Scan(_))
    ));
    cursor.next_entry_id = Some("abcd".to_owned());
    assert!(matches!(
        SessionHistoryScan::begin("s", Some(&cursor), 10, limits),
        Err(SessionHistoryError::CursorEntryTooLong { actual: 4, limit: 3 })
    ));
    cursor.next_entry_id = None;
    assert!(matches!(
        SessionHistoryScan::begin("s", Some(&cursor), 10, limits),
        Ok(HistoryStart::Page(page)) if page.items.is_empty() && page.next_cursor.is_none()
    ));
}

#[test]
fn a_branch_that_breaks_off_or_repeats_is_an_error() {
    let limits = RuntimeLimits::default();
    let file = session_file(&[user("u2", Some("gone"), "two")]);
    assert_eq!(
        read_page(&file, "session-1", None, limits),
        Err(SessionHistoryError::BrokenAncestry { entry_id: "gone".to_owned() })
    );
    let file = session_file(&[user("u1", Some("u1"), "one"), user("u1", Some("u1"), "again")]);
    assert_eq!(
        read_page(&file, "session-1", None, limits),
        Err(SessionHistoryError::RepeatedEntry { entry_id: "u1".to_owned() })
    );
}

#[test]
fn a_page_over_its_limit_is_cut_or_refused() {
    let limits = RuntimeLimits { max_session_history_page_bytes: 10, ..RuntimeLimits::default() };
    let file = session_file(&[user("u1", None, "one")]);
    let result = read_page(&file, "session-1", None, limits);
    assert!(matches!(result, Err(SessionHistoryError::PageTooLarge { limit: 10, .. })));
}

fn text(value: &str) -> serde_json::Value {
    serde_json::Value::from(value)
}

fn optional(value: &Option<String>) -> serde_json::Value {
    serde_json::Value::from(value.clone())
}

fn encoded_item(item: &SessionTimelineItem, kind: &str) -> serde_json::Value {
    let mut object = serde_json::Map::new();
    object.insert("entryId".to_owned(), text(&item.entry_id));
    object.insert("timestamp".to_owned(), optional(&item.timestamp));
    object.insert("kind".to_owned(), text(kind));
    object.insert("title".to_owned(), optional(&item.title));
    object.insert("text".to_owned(), text(&item.text));
    object.insert("textTruncated".to_owned(), serde_json::Value::from(item.text_truncated));
    object.insert("isError".to_owned(), serde_json::Value::from(item.is_error));
    serde_json::Value::Object(object)
}

#[test]
fn the_sizes_of_items_and_pages_are_those_of_their_encodings() {
    let kinds = [
        (SessionTimelineKind::User, "user"),
        (SessionTimelineKind::Assistant, "assistant"),
        (SessionTimelineKind::Tool, "tool"),
        (SessionTimelineKind::Bash, "bash"),
        (SessionTimelineKind::Compaction, "compaction"),
        (SessionTimelineKind::BranchSummary, "branch_summary"),
        (SessionTimelineKind::Custom, "custom"),
    ];
    let mut items = Vec::new();
    let mut encoded = Vec::new();
    for (index, (kind, name)) in kinds.into_iter().enumerate() {
        let item = SessionTimelineItem {
            entry_id: format!("e\"{index}"),
            timestamp: (index % 2 == 0).then_some("2026".to_owned()),
            kind,
            title: (index % 3 == 0).then_some("t\u{e9}\n".to_owned()),
            text: "line\n\u{0}\u{8}\u{c}\u{1f}\\".repeat(index),
            text_truncated: index > 2,
            is_error: index > 4,
        };
        let value = encoded_item(&item, name);
        assert_eq!(item_json_bytes(&item), serde_json::to_vec(&value).expect("encode").len());
        items.push(item);
        encoded.push(value);
    }
    for count in [0usize, 1, 7] {
        for cursor in [
            None,
            Some(SessionHistoryCursor {
                session_id: "s".to_owned(),
                before_offset: 1234,
                next_entry_id: None,
                seek_latest: true,
            }),
        ] {
            let page = SessionHistoryPage {
                session_id: "session".to_owned(),
                append_cursor: Some("a".to_owned()),
                leaf_id: None,
                items: items[..count].to_vec(),
                next_cursor: cursor.clone(),
                scanned_bytes: 98765,
                encoded_bytes: 0,
            };
            let mut object = serde_json::Map::new();
            object.insert("sessionId".to_owned(), text("session"));
            object.insert("appendCursor".to_owned(), text("a"));
            object.insert("leafId".to_owned(), serde_json::Value::Null);
            object.insert("items".to_owned(), serde_json::Value::Array(encoded[..count].to_vec()));
            let cursor = match cursor {
                None => serde_json::Value::Null,
                Some(cursor) => {
                    let mut object = serde_json::Map::new();
                    object.insert("sessionId".to_owned(), text(&cursor.session_id));
                    object.insert("beforeOffset".to_owned(), serde_json::Value::from(cursor.before_offset));
                    object.insert("nextEntryId".to_owned(), optional(&cursor.next_entry_id));
                    object.insert("seekLatest".to_owned(), serde_json::Value::from(cursor.seek_latest));
                    serde_json::Value::Object(object)
                }
            };
            object.insert("nextCursor".to_owned(), cursor);
            object.insert("scannedBytes".to_owned(), serde_json::Value::from(98765u64));
            object.insert("encodedBytes".to_owned(), serde_json::Value::from(0u64));
            let bytes = serde_json::to_vec(&serde_json::Value::Object(object)).expect("encode");
            assert_eq!(page_json_bytes(&page), bytes.len());
        }
    }
}

fn item(entry: &str) -> Option<SessionTimelineItem> {
    let entry: serde_json::Value = serde_json::from_str(entry).expect("an entry");
    timeline_item(&entry, RuntimeLimits::default())
}

#[test]
fn entries_are_shown_by_their_kind() {
    let shown = item("{\"type\":\"compaction\",\"id\":\"c\",\"summary\":\"short\"}").expect("compaction");
    assert_eq!(shown.kind, SessionTimelineKind::Compaction);
    assert_eq!(shown.title.as_deref(), Some("Compaction"));
    assert_eq!(shown.text, "short");
    let shown = item("{\"type\":\"branch_summary\",\"id\":\"b\",\"summary\":\"s\"}").expect("branch");
    assert_eq!(shown.kind, SessionTimelineKind::BranchSummary);
    assert_eq!(shown.title.as_deref(), Some("Branch summary"));
    assert_eq!(item("{\"type\":\"model_change\",\"id\":\"m\"}"), None);
    assert_eq!(item("{\"type\":\"message\",\"message\":{\"role\":\"user\",\"content\":\"x\"}}"), None);
    let shown = item("{\"type\":\"message\",\"id\":\"a\",\"message\":{\"role\":\"assistant\",\"content\":[{\"type\":\"text\",\"text\":\"one\"},{\"type\":\"toolCall\"},{\"type\":\"text\",\"text\":\"two\"}],\"stopReason\":\"error\"}}")
        .expect("assistant");
    assert_eq!(shown.kind, SessionTimelineKind::Assistant);
    assert!(shown.is_error);
    assert!(shown.text.starts_with("one"));
    assert!(shown.text.ends_with("two"));
}

#[test]
fn lines_that_were_read_are_taken_one_by_one() {
    let value = |text: &str| -> serde_json::Value { serde_json::from_str(text).expect("JSON") };
    assert_eq!(
        check_header(&value("{\"type\":\"session\",\"id\":\"s\",\"cwd\":\"/p\"}"), "s"),
        Ok("/p".to_owned())
    );
    let limits = RuntimeLimits::default();
    let mut page = HistoryGathering::new("s", HistoryTarget::Latest, limits);
    let entry = value(&user("u2", Some("u1"), "two"));
    assert_eq!(page.take_value(&entry, 40), LineStep::Continue);
    assert_eq!(page.take_value(&value("{\"id\":\"other\"}"), 30), LineStep::Continue);
    assert_eq!(
        page.take_value(&value("{\"type\":\"session\"}"), 20),
        LineStep::Fail(SessionHistoryError::BrokenAncestry { entry_id: "u1".to_owned() })
    );
    assert_eq!(page.take_value(&value(&user("u1", None, "one")), 10), LineStep::Finish(None));
    assert_eq!(
        SessionHistoryError::CursorBeyondFile { offset: 7, file_size: 5 }.message(),
        "history cursor offset 7 is beyond session file size 5"
    );
}

#[test]
fn a_line_across_blocks_is_read_again_from_its_end() {
    let limits =
        RuntimeLimits { max_session_history_page_bytes: 40_000, ..RuntimeLimits::default() };
    for terminator in ["\n", "\r\n"] {
        let newest = user("u2", Some("a1"), &"n".repeat(20_000));
        let file = session_file(&[
            user("u1", None, "one"),
            assistant("a1", Some("u1"), &"o".repeat(70_000)),
            newest.clone(),
        ]);
        let file = String::from_utf8(file).expect("text").replace('\n', terminator).into_bytes();
        let latest = read_page(&file, "session-1", None, limits).expect("latest page");
        assert_eq!(ids(&latest), ["u2"]);
        let cursor = latest.next_cursor.expect("an older page");
        assert_eq!(
            cursor,
            SessionHistoryCursor {
                session_id: "session-1".to_owned(),
                before_offset: (file.len() - newest.len() - terminator.len()) as u64,
                next_entry_id: Some("a1".to_owned()),
                seek_latest: false,
            }
        );
        let older = read_page(&file, "session-1", Some(&cursor), limits).expect("older page");
        assert_eq!(ids(&older), ["u1", "a1"]);
        assert_eq!(older.next_cursor, None);
    }
}

#[test]
fn pages_together_show_the_branch_once() {
    let mut entries = vec![user("e0", None, "root")];
    for index in 1..40 {
        entries.push(assistant(&format!("lost-{index}"), Some(&format!("e{}", index - 1)), "x"));
        let text = "t".repeat(400);
        entries.push(user(&format!("e{index}"), Some(&format!("e{}", index - 1)), &text));
        entries.push(String::new());
    }
    let expected: Vec<String> = (0..40).rev().map(|index| format!("e{index}")).collect();
    for terminator in ["\n", "\r\n"] {
        let file = session_file(&entries);
        let file = String::from_utf8(file).expect("text").replace('\n', terminator).into_bytes();
        for (scan, page_items, page_bytes) in [
            (8_388_608, 1, 524_288),
            (1_000, 100, 524_288),
            (1_500, 3, 2_000),
            (99_999, 100, 2_000),
        ] {
            let limits = RuntimeLimits {
                max_session_history_scan_bytes_per_page: scan,
                max_session_history_page_items: page_items,
                max_session_history_page_bytes: page_bytes,
                ..RuntimeLimits::default()
            };
            let mut shown = Vec::new();
            let mut cursor = None;
            let mut pages = 0usize;
            loop {
                let page =
                    read_page(&file, "session-1", cursor.as_ref(), limits).expect("a page");
                shown.extend(page.items.iter().rev().map(|item| item.entry_id.clone()));
                cursor = page.next_cursor;
                pages += 1;
                assert!(pages < 500, "paging does not end");
                if cursor.is_none() {
                    break;
                }
            }
            assert!(pages > 1);
            assert_eq!(shown, expected);
        }
    }
}
