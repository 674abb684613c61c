use pi_wizard_core::runtime::{AssistantContentKind, LiveProjection, ProjectionError};
use pi_wizard_core::{RequestId, RuntimeLimits};

#[test]
fn assistant_stream_preserves_content_index_and_kind() {
    let mut projection = LiveProjection::new(RuntimeLimits::default());
    projection
        .start_assistant_block(2, AssistantContentKind::Thinking)
        .expect("thinking block");
    projection
        .start_assistant_block(0, AssistantContentKind::Text)
        .expect("text block");
    projection
        .start_assistant_block(1, AssistantContentKind::ToolCall)
        .expect("tool-call block");

    projection
        .append_assistant_delta(2, AssistantContentKind::Thinking, "reason")
        .expect("thinking delta");
    projection
        .append_assistant_delta(0, AssistantContentKind::Text, "answer")
        .expect("text delta");
    projection
        .append_assistant_delta(1, AssistantContentKind::ToolCall, "{\"path\":")
        .expect("tool-call delta");

    let blocks = projection.assistant_blocks();
    assert_eq!(blocks.len(), 3);
    assert_eq!(blocks[0].content_index, 0);
    assert_eq!(blocks[0].kind, AssistantContentKind::Text);
    assert_eq!(blocks[0].content.as_str(), "answer");
    assert_eq!(blocks[1].content_index, 1);
    assert_eq!(blocks[1].kind, AssistantContentKind::ToolCall);
    assert_eq!(blocks[2].content_index, 2);
    assert_eq!(blocks[2].kind, AssistantContentKind::Thinking);
    assert_eq!(blocks[2].content.as_str(), "reason");
}

#[test]
fn assistant_stream_aggregate_never_exceeds_byte_limit() {
    let limits = RuntimeLimits {
        max_stream_text_bytes_per_run: 8,
        ..RuntimeLimits::default()
    };
    let mut projection = LiveProjection::new(limits);
    projection
        .start_assistant_block(0, AssistantContentKind::Text)
        .expect("text block");
    projection
        .append_assistant_delta(0, AssistantContentKind::Text, "abcd")
        .expect("text delta");
    projection
        .start_assistant_block(1, AssistantContentKind::Thinking)
        .expect("thinking block");
    projection
        .append_assistant_delta(1, AssistantContentKind::Thinking, "uvwxyz")
        .expect("thinking delta");

    assert_eq!(projection.assistant_resident_bytes(), 8);
    assert_eq!(
        projection
            .assistant_block(0)
            .expect("text")
            .content
            .as_str(),
        "cd"
    );
    assert_eq!(
        projection
            .assistant_block(1)
            .expect("thinking")
            .content
            .as_str(),
        "uvwxyz"
    );
}

#[test]
fn assistant_block_kind_mismatch_is_rejected() {
    let mut projection = LiveProjection::new(RuntimeLimits::default());
    projection
        .start_assistant_block(0, AssistantContentKind::Text)
        .expect("text block");

    assert_eq!(
        projection.append_assistant_delta(0, AssistantContentKind::Thinking, "wrong"),
        Err(ProjectionError::AssistantBlockKindMismatch {
            content_index: 0,
            expected: AssistantContentKind::Thinking,
            actual: AssistantContentKind::Text,
        })
    );
}

#[test]
fn assistant_block_count_is_bounded_without_sparse_index_allocation() {
    let limits = RuntimeLimits {
        max_stream_content_blocks_per_message: 1,
        ..RuntimeLimits::default()
    };
    let mut projection = LiveProjection::new(limits);
    projection
        .start_assistant_block(10_000_000, AssistantContentKind::Text)
        .expect("sparse content index should not allocate a huge vector");

    assert_eq!(
        projection.start_assistant_block(1, AssistantContentKind::Thinking),
        Err(ProjectionError::TooManyAssistantBlocks { limit: 1 })
    );
}

#[test]
fn assistant_end_content_replaces_streamed_delta_before_final_message() {
    let mut projection = LiveProjection::new(RuntimeLimits::default());
    projection
        .start_assistant_block(0, AssistantContentKind::Text)
        .expect("text block");
    projection
        .append_assistant_delta(0, AssistantContentKind::Text, "partial")
        .expect("partial");
    projection
        .finish_assistant_block(0, AssistantContentKind::Text, Some("authoritative block"))
        .expect("finish");

    let block = projection.assistant_block(0).expect("block");
    assert!(block.complete);
    assert_eq!(block.content.as_str(), "authoritative block");
}

#[test]
fn completed_assistant_message_replaces_stream_preview_atomically_and_stays_bounded() {
    let limits = RuntimeLimits {
        max_stream_text_bytes_per_run: 10,
        max_stream_content_blocks_per_message: 2,
        ..RuntimeLimits::default()
    };
    let mut projection = LiveProjection::new(limits);
    projection
        .start_assistant_block(0, AssistantContentKind::Text)
        .expect("stream block");
    projection
        .append_assistant_delta(0, AssistantContentKind::Text, "stale")
        .expect("stream delta");

    projection
        .reconcile_assistant_message(vec![
            (0, AssistantContentKind::Text, "final".to_owned()),
            (1, AssistantContentKind::Thinking, "reasoning".to_owned()),
        ])
        .expect("final message");
    assert_eq!(projection.assistant_block_count(), 2);
    assert_eq!(
        projection
            .assistant_block(0)
            .expect("text")
            .content
            .as_str(),
        "l"
    );
    assert_eq!(
        projection
            .assistant_block(1)
            .expect("thinking")
            .content
            .as_str(),
        "reasoning"
    );
    assert!(projection.assistant_blocks().iter().all(|block| block.complete));
    assert_eq!(projection.assistant_resident_bytes(), 10);

    let before = projection.snapshot();
    assert_eq!(
        projection.reconcile_assistant_message(vec![
            (0, AssistantContentKind::Text, "one".to_owned()),
            (1, AssistantContentKind::Thinking, "two".to_owned()),
            (2, AssistantContentKind::Text, "three".to_owned()),
        ]),
        Err(ProjectionError::TooManyAssistantBlocks { limit: 2 })
    );
    assert_eq!(projection.snapshot(), before);
}

#[test]
fn tool_updates_replace_accumulated_output_and_remain_bounded() {
    let limits = RuntimeLimits {
        max_tool_preview_bytes: 6,
        ..RuntimeLimits::default()
    };
    let mut projection = LiveProjection::new(limits);
    projection.start_tool("call-1".to_owned(), "bash".to_owned()).expect("start tool");
    projection
        .replace_tool_output("call-1", "first")
        .expect("first update");
    projection
        .replace_tool_output("call-1", "0123456789")
        .expect("second update");

    let finished = projection.finish_tool("call-1").expect("finish tool");
    assert_eq!(finished.output.as_str(), "456789");
    assert_eq!(finished.output.dropped_bytes(), 4);
}

#[test]
fn active_tool_count_is_bounded() {
    let limits = RuntimeLimits {
        max_active_tools_per_run: 1,
        ..RuntimeLimits::default()
    };
    let mut projection = LiveProjection::new(limits);
    projection.start_tool("a".to_owned(), "read".to_owned()).expect("first tool");

    assert_eq!(
        projection.start_tool("b".to_owned(), "write".to_owned()),
        Err(ProjectionError::TooManyActiveTools { limit: 1 })
    );
}

#[test]
fn direct_bash_stream_is_request_correlated_and_bounded() {
    let limits = RuntimeLimits {
        max_tool_preview_bytes: 6,
        ..RuntimeLimits::default()
    };
    let mut projection = LiveProjection::new(limits);
    let first = RequestId::from_wire("bash-1");
    let second = RequestId::from_wire("bash-2");
    projection
        .start_direct_bash(first.clone())
        .expect("first bash");
    projection
        .start_direct_bash(second.clone())
        .expect("second bash");

    projection
        .append_direct_bash_delta(&first, "0123456789")
        .expect("first output");
    projection
        .append_direct_bash_delta(&second, "other")
        .expect("second output");

    assert_eq!(
        projection
            .direct_bash_preview(&first)
            .expect("first preview")
            .as_str(),
        "456789"
    );
    assert_eq!(
        projection
            .direct_bash_preview(&second)
            .expect("second preview")
            .as_str(),
        "other"
    );
    assert_eq!(projection.active_direct_bash_count(), 2);

    let finished = projection.finish_direct_bash(&first).expect("finish first");
    assert_eq!(finished.as_str(), "456789");
    assert!(projection.direct_bash_preview(&first).is_none());
}

#[test]
fn direct_bash_count_is_bounded_by_pending_rpc_capacity() {
    let limits = RuntimeLimits {
        max_pending_rpc_requests_per_run: 1,
        ..RuntimeLimits::default()
    };
    let mut projection = LiveProjection::new(limits);
    projection
        .start_direct_bash(RequestId::from_wire("one"))
        .expect("first bash");

    assert_eq!(
        projection.start_direct_bash(RequestId::from_wire("two")),
        Err(ProjectionError::TooManyDirectBash { limit: 1 })
    );
}

#[test]
fn unknown_tools_blocks_and_commands_are_refused() {
    let mut projection = LiveProjection::new(RuntimeLimits::default());
    assert_eq!(
        projection.append_assistant_delta(3, AssistantContentKind::Text, "x"),
        Err(ProjectionError::UnknownAssistantBlock { content_index: 3 })
    );
    assert_eq!(
        projection.replace_tool_output("gone", "x"),
        Err(ProjectionError::UnknownTool { tool_call_id: "gone".to_owned() })
    );
    let request_id = RequestId::from_wire("bash");
    assert_eq!(
        projection.append_direct_bash_delta(&request_id, "x"),
        Err(ProjectionError::UnknownDirectBash { request_id: request_id.clone() })
    );
    projection.start_direct_bash(request_id.clone()).expect("bash");
    assert_eq!(
        projection.start_direct_bash(request_id.clone()),
        Err(ProjectionError::DuplicateDirectBash { request_id })
    );
    projection.start_tool("call".to_owned(), "bash".to_owned()).expect("tool");
    assert_eq!(
        projection.start_tool("call".to_owned(), "bash".to_owned()),
        Err(ProjectionError::DuplicateTool { tool_call_id: "call".to_owned() })
    );
    projection.start_assistant_block(0, AssistantContentKind::Text).expect("block");
    assert_eq!(
        projection.start_assistant_block(0, AssistantContentKind::Text),
        Err(ProjectionError::DuplicateAssistantBlock { content_index: 0 })
    );
}

#[test]
fn reasoning_outlives_the_messages_of_one_turn() {
    let mut projection = LiveProjection::new(RuntimeLimits::default());
    projection.start_agent_turn();
    projection.start_assistant_message();
    projection.start_assistant_block(0, AssistantContentKind::Thinking).expect("thinking");
    projection
        .append_assistant_delta(0, AssistantContentKind::Thinking, "first thought")
        .expect("delta");
    projection.start_assistant_message();
    assert_eq!(projection.assistant_block_count(), 0);
    assert_eq!(projection.snapshot().reasoning, "first thought");
    projection.start_agent_turn();
    assert_eq!(projection.snapshot().reasoning, "");
}

#[test]
fn settling_drops_unfinished_tools() {
    let mut projection = LiveProjection::new(RuntimeLimits::default());
    projection.start_tool("a".to_owned(), "bash".to_owned()).expect("tool");
    projection.start_tool("b".to_owned(), "read".to_owned()).expect("tool");
    assert_eq!(projection.settle_agent_turn(), 2);
    assert_eq!(projection.active_tool_count(), 0);
}

#[test]
fn errors_of_the_projection_are_told_in_words() {
    let error = ProjectionError::AssistantBlockKindMismatch {
        content_index: 4,
        expected: AssistantContentKind::Thinking,
        actual: AssistantContentKind::Text,
    };
    assert_eq!(
        error.message(),
        "assistant content block 4 kind mismatch: expected Thinking, got Text"
    );
}

#[test]
fn snapshots_are_in_order_and_within_their_bounds() {
    let limits = RuntimeLimits {
        max_stream_text_bytes_per_run: 6,
        max_tool_preview_bytes: 4,
        ..RuntimeLimits::default()
    };
    let mut projection = LiveProjection::new(limits);
    for index in [5, 1, 3] {
        projection.start_assistant_block(index, AssistantContentKind::Text).expect("block");
        projection
            .append_assistant_delta(index, AssistantContentKind::Text, "abcd")
            .expect("delta");
    }
    for call in ["tool-b", "tool-a"] {
        projection.start_tool(call.to_owned(), "read".to_owned()).expect("tool");
        projection.replace_tool_output(call, "0123456789").expect("output");
    }
    let snapshot = projection.snapshot();
    let indices: Vec<usize> =
        snapshot.assistant_blocks.iter().map(|block| block.content_index).collect();
    assert_eq!(indices, [1, 3, 5]);
    assert_eq!(projection.assistant_resident_bytes(), 6);
    let calls: Vec<&str> =
        snapshot.active_tools.iter().map(|tool| tool.tool_call_id.as_str()).collect();
    assert_eq!(calls, ["tool-a", "tool-b"]);
    assert!(snapshot.active_tools.iter().all(|tool| tool.output == "6789"));
}
