use pi_wizard_core::runtime::coalescing::FRAME_ACCOUNTING_OVERHEAD_BYTES;
use pi_wizard_core::runtime::{
    UiBacklogError, UiBacklogFrame, UiBacklogPush, UiCoalesceKey, UiEventBacklog,
};
use pi_wizard_core::RequestId;

#[test]
fn same_stream_key_is_replaced_and_moves_behind_newer_semantic_state() {
    let mut backlog = UiEventBacklog::new(1024);
    assert_eq!(
        backlog.push_coalescible(UiCoalesceKey::AssistantBlock(0), b"old".to_vec()),
        UiBacklogPush::Queued
    );
    backlog
        .push_semantic(b"semantic".to_vec())
        .expect("semantic");
    assert_eq!(
        backlog.push_coalescible(UiCoalesceKey::AssistantBlock(0), b"new".to_vec()),
        UiBacklogPush::Coalesced
    );

    assert_eq!(
        backlog.pop_front(),
        Some(UiBacklogFrame::Semantic(b"semantic".to_vec()))
    );
    assert_eq!(
        backlog.pop_front(),
        Some(UiBacklogFrame::Coalescible {
            key: UiCoalesceKey::AssistantBlock(0),
            payload: b"new".to_vec(),
        })
    );
    assert_eq!(backlog.stats().coalesced_frames, 1);
}

#[test]
fn display_pressure_evicts_display_frames_but_never_semantic_transition() {
    let semantic_cost = FRAME_ACCOUNTING_OVERHEAD_BYTES + 8;
    let display_cost = FRAME_ACCOUNTING_OVERHEAD_BYTES + std::mem::size_of::<usize>() + 8;
    let mut backlog = UiEventBacklog::new(semantic_cost + display_cost);
    backlog
        .push_semantic(b"semantic".to_vec())
        .expect("semantic");
    backlog.push_coalescible(UiCoalesceKey::AssistantBlock(0), b"display0".to_vec());

    assert_eq!(
        backlog.push_coalescible(UiCoalesceKey::AssistantBlock(1), b"display1".to_vec()),
        UiBacklogPush::Queued
    );
    assert_eq!(
        backlog.pop_front(),
        Some(UiBacklogFrame::Semantic(b"semantic".to_vec()))
    );
    assert_eq!(backlog.stats().dropped_display_frames, 1);
}

#[test]
fn semantic_only_overflow_is_explicit_rehydration_condition() {
    let cost = FRAME_ACCOUNTING_OVERHEAD_BYTES + 1;
    let mut backlog = UiEventBacklog::new(cost);
    backlog.push_semantic(vec![1]).expect("first semantic");

    assert_eq!(
        backlog.push_semantic(vec![2]),
        Err(UiBacklogError::SemanticCapacityExhausted {
            resident: cost,
            incoming: cost,
            limit: cost,
        })
    );
    assert_eq!(backlog.stats().frame_count, 1);
}

#[test]
fn accounting_overhead_bounds_empty_frame_count() {
    let mut backlog = UiEventBacklog::new(FRAME_ACCOUNTING_OVERHEAD_BYTES * 2);
    backlog.push_semantic(Vec::new()).expect("first empty");
    backlog.push_semantic(Vec::new()).expect("second empty");
    assert!(matches!(
        backlog.push_semantic(Vec::new()),
        Err(UiBacklogError::SemanticCapacityExhausted { .. })
    ));
}

#[test]
fn oversized_display_frame_is_dropped_without_disturbing_semantic_queue() {
    let mut backlog = UiEventBacklog::new(64);
    backlog
        .push_semantic(b"important".to_vec())
        .expect("semantic");
    assert_eq!(
        backlog.push_coalescible(UiCoalesceKey::ToolPreview("call".to_owned()), vec![0; 128],),
        UiBacklogPush::DroppedDisplayFrame
    );
    assert_eq!(backlog.stats().frame_count, 1);
}

#[test]
fn a_frame_larger_than_the_backlog_is_refused() {
    let mut backlog = UiEventBacklog::new(FRAME_ACCOUNTING_OVERHEAD_BYTES);
    assert_eq!(
        backlog.push_semantic(vec![1]),
        Err(UiBacklogError::FrameTooLarge {
            actual: FRAME_ACCOUNTING_OVERHEAD_BYTES + 1,
            limit: FRAME_ACCOUNTING_OVERHEAD_BYTES,
        })
    );
    assert_eq!(backlog.pop_front(), None);
}

#[test]
fn keys_are_charged_with_their_bytes() {
    let mut backlog = UiEventBacklog::new(1024);
    backlog.push_coalescible(UiCoalesceKey::ToolPreview("abcd".to_owned()), vec![1, 2]);
    assert_eq!(backlog.stats().resident_bytes, FRAME_ACCOUNTING_OVERHEAD_BYTES + 4 + 2);
    backlog.push_coalescible(UiCoalesceKey::DirectBash(RequestId::from_wire("xy")), vec![]);
    assert_eq!(backlog.stats().resident_bytes, 2 * FRAME_ACCOUNTING_OVERHEAD_BYTES + 4 + 2 + 2);
    backlog.clear();
    assert_eq!(backlog.stats().resident_bytes, 0);
    assert_eq!(backlog.stats().frame_count, 0);
}

#[test]
fn what_is_resident_covers_every_frame_and_never_the_limit() {
    let limit = 4 * FRAME_ACCOUNTING_OVERHEAD_BYTES + 9;
    let mut backlog = UiEventBacklog::new(limit);
    for index in 0..20usize {
        backlog.push_coalescible(UiCoalesceKey::AssistantBlock(index), vec![0; index % 3]);
        let stats = backlog.stats();
        assert!(stats.frame_count * FRAME_ACCOUNTING_OVERHEAD_BYTES <= stats.resident_bytes);
        assert!(stats.resident_bytes <= limit);
    }
    let before = backlog.stats();
    let mut popped = 0;
    while backlog.pop_front().is_some() {
        popped += 1;
    }
    assert_eq!(popped, before.frame_count);
    assert_eq!(backlog.stats().resident_bytes, 0);
    assert_eq!(backlog.stats().dropped_display_frames, before.dropped_display_frames);
}
