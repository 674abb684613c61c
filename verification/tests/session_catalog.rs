use pi_wizard_core::digest::{digest_hex, valid_digest};
use pi_wizard_core::session_catalog::{
    catalog_scope_sha256, catalog_snapshot_sha256, entry_json_bytes, is_session_file,
    prepare_request, session_header_directory, session_header_matches_project,
    validate_project_session, xor_catalog_entry_digest, CatalogAction, CatalogWindow,
    ResolvedSessionDirectory, SessionCatalogCursor, SessionCatalogError, SessionCatalogPage,
    SessionDirectorySource,
};
use pi_wizard_core::session_directory::{
    agent_directory, check_settings_size, default_project_session_dir_name,
    read_session_dir_setting, resolve_pi_path, resolve_session_directory,
};
use pi_wizard_core::session_preview::{
    catalog_user_preview, plan_preview, preview_header, read_session_preview, SessionCatalogEntry,
};
use pi_wizard_core::RuntimeLimits;

struct SessionFile {
    path: String,
    modified: u64,
    bytes: Vec<u8>,
}

struct Disk {
    files: Vec<SessionFile>,
    directories: Vec<String>,
}

impl Disk {
    fn new() -> Disk {
        Disk {
            files: Vec::new(),
            directories: vec!["/fixture/project".to_owned(), "/fixture/other".to_owned()],
        }
    }

    fn write(&mut self, path: &str, modified: u64, bytes: Vec<u8>) {
        self.files.push(SessionFile { path: path.to_owned(), modified, bytes });
    }

    fn read(&self, path: &str) -> Option<&[u8]> {
        self.files.iter().find(|file| file.path == path).map(|file| file.bytes.as_slice())
    }

    fn canonicalize(&self, path: &str) -> Option<String> {
        let known = self.directories.iter().any(|known| known == path)
            || self.files.iter().any(|file| file.path == path);
        known.then_some(path.to_owned())
    }

    fn preview(&self, path: &str, root: &str, limits: RuntimeLimits) -> Option<SessionCatalogEntry> {
        let bytes = self.read(path)?;
        let (head_len, tail_len) = plan_preview(bytes.len(), limits.max_session_metadata_scan_bytes);
        let head = &bytes[..head_len];
        let tail = &bytes[bytes.len() - tail_len..];
        let (_, cwd) = preview_header(head)?;
        let cwd = self.canonicalize(&cwd);
        read_session_preview(
            path.to_owned(),
            cwd.as_deref(),
            root,
            head,
            tail,
            bytes.len(),
            limits,
        )
    }

    fn validate(
        &self,
        root: &str,
        path: &str,
        limits: RuntimeLimits,
    ) -> Result<SessionCatalogEntry, SessionCatalogError> {
        validate_project_session(
            path,
            self.canonicalize(path),
            self.preview(path, root, limits),
            self.read(path).and_then(|bytes| bytes.last().copied()),
        )
    }

    fn list(
        &self,
        query: Option<&str>,
        cursor: Option<&SessionCatalogCursor>,
        limits: RuntimeLimits,
    ) -> Result<SessionCatalogPage, SessionCatalogError> {
        let root = "/fixture/project";
        let directory = ResolvedSessionDirectory {
            path: "/fixture/sessions".to_owned(),
            source: SessionDirectorySource::Environment,
        };
        let query = prepare_request(query, cursor, limits)?;
        let mut window = CatalogWindow::begin(root, &directory, query, cursor.cloned(), limits)?;
        if !self.files.iter().any(|file| file.path.starts_with("/fixture/sessions/")) {
            return window.directory_missing();
        }
        for file in &self.files {
            if file.path.starts_with("/fixture/sessions/") && is_session_file(&file.path) {
                window.list(file.modified, file.path.clone());
            }
        }
        let mut scan = window.close()?;
        let mut action = scan.begin();
        loop {
            action = match action {
                CatalogAction::CheckHeader(path) => {
                    let bytes = self.read(&path).unwrap_or_default();
                    let max = limits.max_session_header_scan_bytes;
                    let bytes = &bytes[..bytes.len().min(max + 1)];
                    let cwd = session_header_directory(bytes, max)
                        .and_then(|cwd| self.canonicalize(&cwd));
                    let matches = session_header_matches_project(bytes, cwd.as_deref(), root, max);
                    scan.on_header(matches)
                }
                CatalogAction::Preview(path) => scan.on_preview(self.preview(&path, root, limits)),
                CatalogAction::Page(page) => return Ok(page),
                CatalogAction::Fail(error) => return Err(error),
            };
        }
    }
}

fn header(id: &str, cwd: &str) -> String {
    format!(
        "{{\"type\":\"session\",\"version\":3,\"id\":\"{id}\",\"timestamp\":\"x\",\"cwd\":\"{cwd}\"}}"
    )
}

fn user(text: &str) -> String {
    format!(
        "{{\"type\":\"message\",\"id\":\"m1\",\"parentId\":null,\"timestamp\":\"x\",\"message\":{{\"role\":\"user\",\"content\":\"{text}\"}}}}"
    )
}

fn session(id: &str, cwd: &str, prompt: &str) -> Vec<u8> {
    format!("{}\n{}\n", header(id, cwd), user(prompt)).into_bytes()
}

#[test]
fn default_directory_matches_pi_cwd_encoding() {
    assert_eq!(
        default_project_session_dir_name("/Users/test/code/pi"),
        "--Users-test-code-pi--"
    );
}

#[test]
fn project_jsonc_session_dir_overrides_global_setting() {
    let home = "/fixture/home";
    let project = "/fixture/project";
    let agent = agent_directory(None, project, Some(home)).expect("agent directory");
    assert_eq!(agent, "/fixture/home/.pi/agent");
    let global = read_session_dir_setting(r#"{"sessionDir":"global-sessions"}"#);
    assert_eq!(global.as_deref(), Some("global-sessions"));
    let local =
        read_session_dir_setting("{ // project wins\n \"sessionDir\": \"local-sessions\",\n}");
    let resolved = resolve_session_directory(
        project,
        &agent,
        Some(home),
        None,
        local.as_deref(),
        global.as_deref(),
    )
    .expect("resolve directory");
    assert_eq!(resolved.source, SessionDirectorySource::Settings);
    assert_eq!(resolved.path, "/fixture/project/local-sessions");
}

#[test]
fn the_environment_decides_before_settings_and_settings_before_the_default() {
    let resolved = resolve_session_directory(
        "/p",
        "/home/.pi/agent",
        Some("/home"),
        Some("~/sessions"),
        Some("local"),
        None,
    )
    .expect("environment");
    assert_eq!(resolved.source, SessionDirectorySource::Environment);
    assert_eq!(resolved.path, "/home/sessions");
    let resolved =
        resolve_session_directory("/p", "/a", Some("/home"), None, None, Some("~")).expect("global");
    assert_eq!(resolved.source, SessionDirectorySource::Settings);
    assert_eq!(resolved.path, "/home");
    let resolved =
        resolve_session_directory("/p/q", "/a", None, None, None, None).expect("default");
    assert_eq!(resolved.source, SessionDirectorySource::Default);
    assert_eq!(resolved.path, "/a/sessions/--p-q--");
}

#[test]
fn a_path_in_the_home_directory_needs_one() {
    assert_eq!(
        resolve_pi_path("~/x", "/p", None),
        Err(SessionCatalogError::TildeWithoutHome { value: "~/x".to_owned() })
    );
    assert_eq!(resolve_pi_path("~\\x", "/p", Some("/home")), Ok("/home/x".to_owned()));
    assert_eq!(resolve_pi_path("~x", "/p", None), Ok("/p/~x".to_owned()));
    assert_eq!(resolve_pi_path("/abs", "/p", None), Ok("/abs".to_owned()));
    assert_eq!(
        agent_directory(None, "/p", None),
        Err(SessionCatalogError::HomeUnavailable)
    );
    assert_eq!(agent_directory(Some("pi"), "/p", None), Ok("/p/pi".to_owned()));
}

#[test]
fn settings_are_bounded_and_malformed_ones_name_nothing() {
    let limits = RuntimeLimits { max_session_entry_page_bytes: 10, ..RuntimeLimits::default() };
    assert_eq!(check_settings_size("s", 10, limits), Ok(()));
    assert_eq!(
        check_settings_size("s", 11, limits),
        Err(SessionCatalogError::SettingsTooLarge { path: "s".to_owned(), actual: 11, limit: 10 })
    );
    assert_eq!(read_session_dir_setting("{not json"), None);
    assert_eq!(read_session_dir_setting("{\"sessionDir\": 3}"), None);
    assert_eq!(
        read_session_dir_setting("/* a */ {\"sessionDir\": \"x // y\"} // end").as_deref(),
        Some("x // y")
    );
}

#[test]
fn writable_resume_refuses_valid_but_unterminated_jsonl_tail_without_modifying_it() {
    let mut disk = Disk::new();
    let path = "/fixture/unterminated-valid.jsonl";
    let bytes = format!("{}\n{}", header("tail-valid", "/fixture/project"), user("keep me"));
    disk.write(path, 1, bytes.clone().into_bytes());
    assert!(matches!(
        disk.validate("/fixture/project", path, RuntimeLimits::default()),
        Err(SessionCatalogError::UnterminatedSessionTail { .. })
    ));
    assert_eq!(disk.read(path), Some(bytes.as_bytes()));
}

#[test]
fn writable_resume_refuses_invalid_unterminated_fragment_tail_without_modifying_it() {
    let mut disk = Disk::new();
    let path = "/fixture/unterminated-invalid.jsonl";
    let bytes = format!(
        "{}\n{}\n{{\"type\":\"message\"",
        header("tail-invalid", "/fixture/project"),
        user("keep me")
    );
    disk.write(path, 1, bytes.clone().into_bytes());
    assert!(matches!(
        disk.validate("/fixture/project", path, RuntimeLimits::default()),
        Err(SessionCatalogError::UnterminatedSessionTail { .. })
    ));
    assert_eq!(disk.read(path), Some(bytes.as_bytes()));
}

#[test]
fn a_session_of_another_project_or_none_is_not_resumed() {
    let mut disk = Disk::new();
    disk.write("/fixture/other.jsonl", 1, session("o", "/fixture/other", "x"));
    disk.write("/fixture/empty.jsonl", 1, Vec::new());
    let limits = RuntimeLimits::default();
    for path in ["/fixture/other.jsonl", "/fixture/empty.jsonl", "/fixture/missing.jsonl"] {
        assert_eq!(
            disk.validate("/fixture/project", path, limits),
            Err(SessionCatalogError::InvalidProjectSession { path: path.to_owned() })
        );
    }
}

#[test]
fn catalog_cursor_is_bound_to_the_original_query() {
    let mut disk = Disk::new();
    for index in 0..2u64 {
        disk.write(
            &format!("/fixture/sessions/query-{index}.jsonl"),
            index,
            session(&format!("query-{index}"), "/fixture/project", "alpha task"),
        );
    }
    let limits = RuntimeLimits {
        max_session_catalog_scan_files: 1,
        max_session_catalog_page_entries: 1,
        ..RuntimeLimits::default()
    };
    let first = disk.list(Some("alpha"), None, limits).expect("first query page");
    let cursor = first.next_cursor.expect("query should have another page");
    assert!(matches!(
        disk.list(Some("beta"), Some(&cursor), limits),
        Err(SessionCatalogError::CursorScopeMismatch)
    ));
}

#[test]
fn catalog_cursor_fails_stale_when_candidate_snapshot_changes() {
    let mut disk = Disk::new();
    disk.write("/fixture/sessions/one.jsonl", 1, session("one", "/fixture/project", "task"));
    disk.write("/fixture/sessions/two.jsonl", 2, session("two", "/fixture/project", "task"));
    let limits = RuntimeLimits {
        max_session_catalog_scan_files: 1,
        max_session_catalog_page_entries: 1,
        ..RuntimeLimits::default()
    };
    let first = disk.list(None, None, limits).expect("first catalog page");
    let cursor = first.next_cursor.expect("catalog should have another page");
    disk.write("/fixture/sessions/three.jsonl", 3, session("three", "/fixture/project", "task"));
    assert!(matches!(
        disk.list(None, Some(&cursor), limits),
        Err(SessionCatalogError::CatalogChanged)
    ));
}

#[test]
fn unrelated_flat_directory_sessions_do_not_consume_detailed_scan_budget() {
    let mut disk = Disk::new();
    disk.write(
        "/fixture/sessions/target.jsonl",
        1,
        session("target-session", "/fixture/project", "target prompt"),
    );
    disk.write(
        "/fixture/sessions/other-newer.jsonl",
        2,
        session("other-session", "/fixture/other", "other prompt"),
    );
    let limits = RuntimeLimits {
        max_session_catalog_scan_files: 1,
        max_session_catalog_page_entries: 1,
        ..RuntimeLimits::default()
    };
    let page = disk.list(None, None, limits).expect("list sessions");
    assert_eq!(page.scanned_files, 1);
    assert_eq!(page.sessions.len(), 1);
    assert_eq!(page.sessions[0].id, "target-session");
}

#[test]
fn flat_custom_directory_is_filtered_by_canonical_session_cwd() {
    let mut disk = Disk::new();
    for (name, cwd, id, prompt) in [
        ("one.jsonl", "/fixture/project", "session-one", "alpha task"),
        ("two.jsonl", "/fixture/other", "session-two", "wrong project"),
    ] {
        let message = format!(
            "{{\"type\":\"message\",\"id\":\"m1\",\"parentId\":null,\"timestamp\":\"x\",\"message\":{{\"role\":\"user\",\"content\":[{{\"type\":\"text\",\"text\":\"{prompt}\"}}]}}}}"
        );
        disk.write(
            &format!("/fixture/sessions/{name}"),
            1,
            format!("{}\n{message}\n", header(id, cwd)).into_bytes(),
        );
    }
    let page = disk.list(Some("alpha"), None, RuntimeLimits::default()).expect("list sessions");
    assert_eq!(page.sessions.len(), 1);
    assert_eq!(page.sessions[0].id, "session-one");
}

#[test]
fn thousand_session_catalog_remains_page_and_scan_bounded() {
    let mut disk = Disk::new();
    for index in 0..1_200u64 {
        disk.write(
            &format!("/fixture/sessions/session-{index:04}.jsonl"),
            7,
            session(
                &format!("scale-session-{index:04}"),
                "/fixture/project",
                &format!("historical task {index}"),
            ),
        );
    }
    let limits = RuntimeLimits {
        max_session_catalog_candidates: 1_500,
        max_session_catalog_scan_files: 64,
        max_session_catalog_page_entries: 32,
        ..RuntimeLimits::default()
    };
    let mut cursor: Option<SessionCatalogCursor> = None;
    let mut seen = Vec::new();
    let mut pages = 0usize;
    loop {
        let page = disk.list(None, cursor.as_ref(), limits).expect("scale catalog page");
        pages += 1;
        assert_eq!(page.candidate_files, 1_200);
        assert!(page.scanned_files <= 64);
        assert!(page.sessions.len() <= 32);
        seen.extend(page.sessions.iter().map(|session| session.id.clone()));
        cursor = page.next_cursor;
        if cursor.is_none() {
            break;
        }
        assert!(pages < 50, "catalog paging did not converge");
    }
    seen.sort();
    seen.dedup();
    assert_eq!(seen.len(), 1_200);
    assert!(pages > 1, "scale fixture must exercise continuation paging");
}

#[test]
fn catalog_cursor_pages_without_skipping_boundary_sessions() {
    let mut disk = Disk::new();
    for index in 0..5u64 {
        disk.write(
            &format!("/fixture/sessions/session-{index}.jsonl"),
            1 + index / 2,
            session(&format!("paged-{index}"), "/fixture/project", &format!("task {index}")),
        );
    }
    let limits = RuntimeLimits {
        max_session_catalog_scan_files: 2,
        max_session_catalog_page_entries: 2,
        ..RuntimeLimits::default()
    };
    let mut cursor: Option<SessionCatalogCursor> = None;
    let mut ids = Vec::new();
    for _ in 0..4 {
        let page = disk.list(None, cursor.as_ref(), limits).expect("paged catalog");
        ids.extend(page.sessions.iter().map(|session| session.id.clone()));
        cursor = page.next_cursor;
        if cursor.is_none() {
            break;
        }
    }
    assert_eq!(ids, ["paged-4", "paged-3", "paged-2", "paged-1", "paged-0"]);
    assert!(cursor.is_none(), "cursor should reach the end of the catalog");
}

#[test]
fn preview_reads_head_and_tail_without_materializing_middle_history() {
    let mut disk = Disk::new();
    let path = "/fixture/session.jsonl";
    let mut text = format!("{}\n{}\n", header("bounded", "/fixture/project"), user("first prompt"));
    for _ in 0..200 {
        text.push_str("{\"type\":\"custom\",\"id\":\"x\",\"parentId\":null,\"timestamp\":\"x\",\"data\":\"xxxxxxxxxxxxxxxxxxxxxxxxxxxxxxxxxxxxxxxxxxxxxxxxxxxxxxxxxxxxxxxx\"}\n");
    }
    text.push_str("{\"type\":\"session_info\",\"id\":\"n\",\"parentId\":null,\"timestamp\":\"x\",\"name\":\"latest name\"}\n");
    disk.write(path, 1, text.into_bytes());
    let limits = RuntimeLimits { max_session_metadata_scan_bytes: 4096, ..RuntimeLimits::default() };
    let preview = disk.validate("/fixture/project", path, limits).expect("preview");
    assert_eq!(preview.first_message.as_deref(), Some("first prompt"));
    assert_eq!(preview.name.as_deref(), Some("latest name"));
    assert!(preview.preview_incomplete);
}

#[test]
fn skill_expansion_preview_keeps_user_task_instead_of_skill_body() {
    let expanded = "<skill name=\"agent-reach\" location=\"C:/skills/agent-reach/SKILL.md\">\n# Agent Reach\ngenerated instructions that should not identify the session\n</skill>\n\nUser: research websocket reconnect failures";
    assert_eq!(
        catalog_user_preview(expanded).as_deref(),
        Some("research websocket reconnect failures")
    );

    let bare = "<skill name=\"pdf-tools\" location=\"C:/skills/pdf-tools/SKILL.md\">\nlarge generated skill body\n</skill>";
    assert_eq!(catalog_user_preview(bare).as_deref(), Some("[skill] pdf-tools"));
    assert_eq!(catalog_user_preview(" \n "), None);
    assert_eq!(catalog_user_preview(" plain ").as_deref(), Some("plain"));
}

#[test]
fn catalog_search_uses_normalized_skill_arguments() {
    let mut disk = Disk::new();
    disk.write(
        "/fixture/sessions/skill-session.jsonl",
        1,
        session(
            "skill-search",
            "/fixture/project",
            "<skill name=\\\"agent-reach\\\" location=\\\"C:/skills/a/SKILL.md\\\">\\nnoise noise noise\\n</skill>\\n\\nUser: investigate reconnect regression",
        ),
    );
    let page = disk
        .list(Some("reconnect regression"), None, RuntimeLimits::default())
        .expect("catalog search");
    assert_eq!(page.sessions.len(), 1);
    assert_eq!(
        page.sessions[0].first_message.as_deref(),
        Some("investigate reconnect regression")
    );
    let page = disk.list(Some(" RECONNECT "), None, RuntimeLimits::default()).expect("any case");
    assert_eq!(page.sessions.len(), 1);
    let page = disk.list(Some("noise"), None, RuntimeLimits::default()).expect("no match");
    assert!(page.sessions.is_empty());
    let page = disk.list(Some("skill-session.JSONL"), None, RuntimeLimits::default());
    assert_eq!(page.expect("file name").sessions.len(), 1);
}

#[test]
fn requests_are_checked_before_anything_is_read() {
    let limits = RuntimeLimits {
        max_session_catalog_query_bytes: 3,
        max_session_cursor_bytes: 4,
        ..RuntimeLimits::default()
    };
    assert_eq!(
        prepare_request(Some(" abcd "), None, limits),
        Err(SessionCatalogError::QueryTooLarge { actual: 4, limit: 3 })
    );
    assert_eq!(prepare_request(Some("  "), None, limits), Ok(None));
    assert_eq!(prepare_request(Some(" AbC"), None, limits), Ok(Some("abc".to_owned())));
    let digest = "0123456789abcdef".repeat(4);
    let mut cursor = SessionCatalogCursor {
        modified_unix_ms: 1,
        path: "abcde".to_owned(),
        scope_sha256: digest.clone(),
        snapshot_sha256: digest,
    };
    assert_eq!(
        prepare_request(None, Some(&cursor), limits),
        Err(SessionCatalogError::CursorTooLarge { actual: 5, limit: 4 })
    );
    cursor.path = "abcd".to_owned();
    assert_eq!(prepare_request(None, Some(&cursor), limits), Ok(None));
    cursor.scope_sha256 = cursor.scope_sha256.to_uppercase();
    assert_eq!(
        prepare_request(None, Some(&cursor), limits),
        Err(SessionCatalogError::InvalidCursorDigest)
    );
}

#[test]
fn a_missing_directory_is_empty_but_not_for_a_cursor() {
    let disk = Disk::new();
    let limits = RuntimeLimits::default();
    let page = disk.list(None, None, limits).expect("empty page");
    assert!(page.sessions.is_empty());
    assert!(!page.truncated);
    let scope = catalog_scope_sha256("/fixture/project", "/fixture/sessions", None);
    let cursor = SessionCatalogCursor {
        modified_unix_ms: 1,
        path: "/fixture/sessions/a.jsonl".to_owned(),
        scope_sha256: scope.clone(),
        snapshot_sha256: scope,
    };
    assert_eq!(
        disk.list(None, Some(&cursor), limits),
        Err(SessionCatalogError::CatalogChanged)
    );
}

#[test]
fn a_cursor_that_points_at_nothing_is_refused() {
    let mut disk = Disk::new();
    disk.write("/fixture/sessions/a.jsonl", 1, session("a", "/fixture/project", "x"));
    let limits = RuntimeLimits::default();
    let mut xor = vec![0u8; 32];
    xor_catalog_entry_digest(&mut xor, 1, "/fixture/sessions/a.jsonl");
    let cursor = SessionCatalogCursor {
        modified_unix_ms: 1,
        path: "/fixture/sessions/b.jsonl".to_owned(),
        scope_sha256: catalog_scope_sha256("/fixture/project", "/fixture/sessions", None),
        snapshot_sha256: catalog_snapshot_sha256(&xor, 1),
    };
    assert_eq!(
        disk.list(None, Some(&cursor), limits),
        Err(SessionCatalogError::CursorPositionMissing)
    );
}

#[test]
fn an_entry_that_fits_no_page_is_an_error() {
    let mut disk = Disk::new();
    disk.write("/fixture/sessions/a.jsonl", 1, session("a", "/fixture/project", "x"));
    let page = disk.list(None, None, RuntimeLimits::default()).expect("page");
    let size = entry_json_bytes(&page.sessions[0]);
    let limits = RuntimeLimits {
        max_session_catalog_page_bytes: size - 1,
        ..RuntimeLimits::default()
    };
    assert_eq!(
        disk.list(None, None, limits),
        Err(SessionCatalogError::PageEntryTooLarge { actual: size, limit: size - 1 })
    );
    let limits = RuntimeLimits { max_session_catalog_page_bytes: size, ..RuntimeLimits::default() };
    assert_eq!(disk.list(None, None, limits).expect("page").sessions.len(), 1);
}

#[test]
fn the_size_of_an_entry_is_that_of_its_encoding() {
    for (name, incomplete, modified) in [
        (None, false, 0u64),
        (Some("a \"quoted\" \\ name\n\u{1}\u{e9}\u{1f600}"), true, 1_700_000_000_123),
    ] {
        let entry = SessionCatalogEntry {
            path: "/a/b\t.jsonl".to_owned(),
            id: "id-1".to_owned(),
            name: name.map(str::to_owned),
            first_message: Some("first\u{7f}".to_owned()),
            modified_unix_ms: modified,
            preview_incomplete: incomplete,
        };
        let mut object = serde_json::Map::new();
        object.insert("path".to_owned(), serde_json::Value::from(entry.path.clone()));
        object.insert("id".to_owned(), serde_json::Value::from(entry.id.clone()));
        object.insert("name".to_owned(), serde_json::Value::from(entry.name.clone()));
        object.insert(
            "firstMessage".to_owned(),
            serde_json::Value::from(entry.first_message.clone()),
        );
        object.insert("modifiedUnixMs".to_owned(), serde_json::Value::from(modified));
        object.insert("previewIncomplete".to_owned(), serde_json::Value::from(incomplete));
        let encoded = serde_json::to_vec(&serde_json::Value::Object(object)).expect("encode");
        assert_eq!(entry_json_bytes(&entry), encoded.len());
    }
}

#[test]
fn digests_are_those_of_sha256() {
    assert_eq!(digest_hex(&[0x00, 0x1f, 0xa0, 0xff]), "001fa0ff");
    assert!(valid_digest(&"a".repeat(64)));
    assert!(!valid_digest(&"a".repeat(63)));
    assert!(!valid_digest(&"g".repeat(64)));
    let scope = catalog_scope_sha256("/root", "/dir", Some("query"));
    let expected = <sha2::Sha256 as sha2::Digest>::digest(
        b"pi-wizard-session-catalog-scope-v1\0/root\0/dir\0query",
    );
    assert_eq!(scope, digest_hex(&expected));
    let mut xor = vec![0u8; 32];
    xor_catalog_entry_digest(&mut xor, 258, "/a");
    let mut bytes = b"pi-wizard-session-catalog-entry-v1\0".to_vec();
    bytes.extend_from_slice(&258u64.to_le_bytes());
    bytes.extend_from_slice(b"/a");
    assert_eq!(xor, <sha2::Sha256 as sha2::Digest>::digest(&bytes).to_vec());
}

#[test]
fn the_snapshot_does_not_depend_on_the_listing_order() {
    let mut first = vec![0u8; 32];
    xor_catalog_entry_digest(&mut first, 1, "/a");
    xor_catalog_entry_digest(&mut first, 2, "/b");
    let mut second = vec![0u8; 32];
    xor_catalog_entry_digest(&mut second, 2, "/b");
    xor_catalog_entry_digest(&mut second, 1, "/a");
    assert_eq!(first, second);
    assert_ne!(catalog_snapshot_sha256(&first, 2), catalog_snapshot_sha256(&first, 3));
}

#[test]
fn session_files_have_a_name_before_their_extension() {
    assert!(is_session_file("/a/b.jsonl"));
    assert!(is_session_file("/a/.b.jsonl"));
    assert!(!is_session_file("/a/.jsonl"));
    assert!(!is_session_file("/a/b.json"));
    assert!(!is_session_file("/a/b.jsonl.bak"));
}

#[test]
fn bytes_that_are_no_text_are_read_with_replacement_characters() {
    let mut bytes = b"{\"type\":\"session\",\"id\":\"x".to_vec();
    bytes.push(0xff);
    bytes.extend_from_slice(b"\",\"cwd\":\"/fixture/project\"}\n");
    assert_eq!(
        preview_header(&bytes),
        Some(("x\u{fffd}".to_owned(), "/fixture/project".to_owned()))
    );
}

#[test]
fn errors_of_the_catalog_are_told_in_words() {
    assert_eq!(
        SessionCatalogError::TildeWithoutHome { value: "~/a\"b".to_owned() }.message(),
        "Pi path setting \"~/a\\\"b\" requires a home directory for ~ expansion"
    );
    assert_eq!(
        SessionCatalogError::QueryTooLarge { actual: 12, limit: 3 }.message(),
        "session catalog query is 12 bytes; limit is 3"
    );
    assert_eq!(
        SessionCatalogError::CatalogChanged.message(),
        "session catalog changed while paging; restart the search from the newest page"
    );
}

#[test]
fn a_cursor_names_its_place_however_the_path_is_spelled() {
    let mut disk = Disk::new();
    for index in 0..3u64 {
        disk.write(
            &format!("/fixture/sessions/s-{index}.jsonl"),
            index,
            session(&format!("s-{index}"), "/fixture/project", "task"),
        );
    }
    let limits = RuntimeLimits {
        max_session_catalog_page_entries: 1,
        ..RuntimeLimits::default()
    };
    let first = disk.list(None, None, limits).expect("first page");
    let mut cursor = first.next_cursor.expect("another page");
    assert_eq!(cursor.path, "/fixture/sessions/s-2.jsonl");
    for spelled in ["/fixture//sessions/s-2.jsonl", "/fixture/./sessions/s-2.jsonl"] {
        cursor.path = spelled.to_owned();
        let page = disk.list(None, Some(&cursor), limits).expect("second page");
        let ids: Vec<&str> = page.sessions.iter().map(|session| session.id.as_str()).collect();
        assert_eq!(ids, ["s-1"]);
    }
    cursor.path = "/fixture/other/../sessions/s-2.jsonl".to_owned();
    assert_eq!(
        disk.list(None, Some(&cursor), limits),
        Err(SessionCatalogError::CursorPositionMissing)
    );
}
