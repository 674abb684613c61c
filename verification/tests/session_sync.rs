use pi_wizard_core::rpc::{SessionEntriesPage, SessionEntryEnvelope};
use pi_wizard_core::runtime::{SessionSyncError, SessionSyncState};
use pi_wizard_core::RuntimeLimits;

fn page(ids: &[&str], leaf: Option<&str>) -> SessionEntriesPage {
    SessionEntriesPage {
        entries: ids
            .iter()
            .map(|id| SessionEntryEnvelope {
                id: (*id).to_owned(),
                parent_id: None,
                entry_type: "message".to_owned(),
                timestamp: None,
                raw: format!("{{\"type\":\"message\",\"id\":\"{id}\"}}"),
            })
            .collect(),
        leaf_id: leaf.map(str::to_owned),
        encoded_bytes: 0,
    }
}

#[test]
fn append_cursor_advances_to_last_entry_while_leaf_moves_independently() {
    let limits = RuntimeLimits::default();
    let mut sync = SessionSyncState::default();
    sync.seed(Some("a".to_owned()), Some("a".to_owned()), limits)
        .expect("seed");
    let applied = sync
        .apply_page(Some("a"), &page(&["b", "c"], Some("b")), limits)
        .expect("page");

    assert_eq!(sync.cursor(), Some("c"));
    assert_eq!(sync.leaf_id(), Some("b"));
    assert_eq!(applied.appended_entries, 2);
    assert!(applied.cursor_changed);
    assert!(applied.leaf_changed);
}

#[test]
fn stale_cursor_is_rejected_before_outbound_rpc() {
    let limits = RuntimeLimits::default();
    let mut sync = SessionSyncState::default();
    sync.seed(Some("current".to_owned()), None, limits)
        .expect("seed");

    assert_eq!(
        sync.validate_request(Some("old"), limits),
        Err(SessionSyncError::CursorMismatch {
            expected: Some("current".to_owned()),
            actual: Some("old".to_owned()),
        })
    );
}

#[test]
fn rejected_cursor_blocks_incremental_tail_until_explicit_resync_seed() {
    let limits = RuntimeLimits::default();
    let mut sync = SessionSyncState::default();
    sync.seed(Some("a".to_owned()), Some("a".to_owned()), limits)
        .expect("seed");
    sync.mark_resync_required("a", limits).expect("mark resync");

    assert_eq!(
        sync.validate_request(Some("a"), limits),
        Err(SessionSyncError::ResyncRequired)
    );
    sync.seed(Some("z".to_owned()), Some("z".to_owned()), limits)
        .expect("offline resync seed");
    assert_eq!(sync.cursor(), Some("z"));
    assert!(!sync.resync_required());
}

#[test]
fn local_projection_overflow_marks_resync_without_destroying_cursor_identity() {
    let limits = RuntimeLimits::default();
    let mut sync = SessionSyncState::default();
    sync.seed(Some("a".to_owned()), Some("a".to_owned()), limits)
        .expect("seed");
    let revision = sync.mark_projection_resync_required();

    assert!(sync.resync_required());
    assert_eq!(sync.cursor(), Some("a"));
    assert_eq!(sync.leaf_id(), Some("a"));
    assert_eq!(revision, 2);
    assert_eq!(
        sync.validate_request(Some("a"), limits),
        Err(SessionSyncError::ResyncRequired)
    );
}

#[test]
fn duplicate_page_ids_do_not_advance_cursor() {
    let limits = RuntimeLimits::default();
    let mut sync = SessionSyncState::default();
    sync.seed(Some("a".to_owned()), None, limits).expect("seed");

    assert_eq!(
        sync.apply_page(Some("a"), &page(&["b", "b"], Some("b")), limits),
        Err(SessionSyncError::DuplicateEntryId { id: "b".to_owned() })
    );
    assert_eq!(sync.cursor(), Some("a"));
}

#[test]
fn cursors_are_neither_empty_nor_too_long() {
    let limits = RuntimeLimits { max_session_cursor_bytes: 4, ..RuntimeLimits::default() };
    let mut sync = SessionSyncState::default();
    assert_eq!(
        sync.seed(Some(String::new()), None, limits),
        Err(SessionSyncError::InvalidCursorLength { actual: 0, limit: 4 })
    );
    assert_eq!(
        sync.seed(Some("abcde".to_owned()), None, limits),
        Err(SessionSyncError::InvalidCursorLength { actual: 5, limit: 4 })
    );
    assert!(!sync.initialized());
    sync.seed(Some("abcd".to_owned()), None, limits).expect("seed");
    assert!(sync.initialized());
    sync.reset_for_session_replacement();
    assert!(!sync.initialized());
    assert_eq!(sync.cursor(), None);
}

#[test]
fn errors_of_synchronization_are_told_in_words() {
    let error = SessionSyncError::CursorMismatch {
        expected: Some("a\"b".to_owned()),
        actual: None,
    };
    assert_eq!(
        error.message(),
        "session synchronization expected cursor Some(\"a\\\"b\"), got None"
    );
}
