use pi_wizard_core::events::{
    AssistantMessageBlockKind, AssistantMessageEnd, AssistantMessageUpdate, ExtensionDialogMethod,
    ExtensionDialogRequest, ExtensionFireAndForget, ExtensionUiRequest, RpcEvent,
};
use pi_wizard_core::launch::ProjectTrustPolicy;
use pi_wizard_core::rpc::{
    AssistantStopReason, ClearQueueResult, ModelSummary, QueueMode, RpcCommand, RpcRequest,
    RpcResponse, RpcResponseOutcome, RpcResponsePayload, RpcResponsePayloadError, RpcStateSnapshot,
    SessionEntriesPage, SessionEntryEnvelope, ThinkingLevel,
};
use pi_wizard_core::runtime::{
    ActivityState, AssistantContentKind, ExecutionIsolation, ProcessState, QueueState, RunMutation,
    RunRecord, RunRpcController, RunRpcControllerError, RunRpcEffect, RuntimeStore,
    SessionSyncCompletion, SessionSyncError,
};
use pi_wizard_core::{ProjectId, RequestId, RunId, RuntimeLimits};

const NOW_MS: u64 = 10_000;
const NOW: u64 = 2_000;

fn ready_store(run_id: RunId) -> RuntimeStore {
    let mut store = RuntimeStore::new(RuntimeLimits::default());
    store
        .register(
            RunRecord::starting(
                run_id,
                ProjectId { value: 7 },
                "project".to_owned(),
                ExecutionIsolation::LocalCheckout,
                ProjectTrustPolicy::Ignore,
                NOW,
            )
            .expect("local run"),
        )
        .expect("register");
    store.apply(run_id, RunMutation::ProcessReady, NOW).expect("ready");
    store
}

fn dialog(
    id: &str,
    method: ExtensionDialogMethod,
    title: &str,
    message: Option<&str>,
    timeout_ms: Option<u64>,
) -> RpcEvent {
    RpcEvent::ExtensionUiRequest(ExtensionUiRequest::Dialog(ExtensionDialogRequest {
        id: id.to_owned(),
        method,
        title: title.to_owned(),
        message: message.map(str::to_owned),
        options: Vec::new(),
        text: None,
        timeout_ms,
    }))
}

fn assistant_end(
    stop_reason: AssistantStopReason,
    blocks: Vec<(usize, AssistantMessageBlockKind, String)>,
) -> RpcEvent {
    RpcEvent::MessageEnd(Some(AssistantMessageEnd { stop_reason, error_message: None, blocks }))
}

fn entry(id: &str, parent: &str) -> SessionEntryEnvelope {
    SessionEntryEnvelope {
        id: id.to_owned(),
        parent_id: Some(parent.to_owned()),
        entry_type: "message".to_owned(),
        timestamp: None,
        raw: "{}".to_owned(),
    }
}

fn response(id: &str, command: &str, payload: RpcResponsePayload) -> RpcResponse {
    RpcResponse {
        id: Some(id.to_owned()),
        command: command.to_owned(),
        success: true,
        cancelled: false,
        payload,
        error: None,
    }
}

#[test]
fn extension_dialog_survives_projection_until_exact_response() {
    let run_id = RunId { value: 1 };
    let mut store = ready_store(run_id);
    let mut controller = RunRpcController::new(run_id, RuntimeLimits::default());
    let effect = controller
        .apply_event(
            dialog("confirm-1", ExtensionDialogMethod::Confirm, "Continue?", Some("Proceed"), Some(1000)),
            &mut store, NOW_MS, NOW)
        .expect("dialog");
    assert!(matches!(effect, RunRpcEffect::ExtensionDialogRequested(_)));
    assert_eq!(store.get(run_id).expect("run").pending_ui_requests(), 1);
    assert_eq!(controller.pending_extension_dialogs().len(), 1);

    let resolved = controller
        .complete_extension_ui_response(&"confirm-1".to_owned(), &mut store, NOW)
        .expect("resolve exact dialog");
    assert_eq!(resolved.id, "confirm-1");
    assert_eq!(store.get(run_id).expect("run").pending_ui_requests(), 0);
}

#[test]
fn extension_fire_and_forget_updates_state_without_pending_dialog() {
    let run_id = RunId { value: 1 };
    let mut store = ready_store(run_id);
    let mut controller = RunRpcController::new(run_id, RuntimeLimits::default());
    controller
        .apply_event(
            RpcEvent::ExtensionUiRequest(ExtensionUiRequest::FireAndForget(ExtensionFireAndForget::SetStatus { key: "build".to_owned(), text: Some("running".to_owned()) })),
            &mut store, NOW_MS, NOW)
        .expect("status");

    assert_eq!(store.get(run_id).expect("run").pending_ui_requests(), 0);
    assert_eq!(controller.extension_ui_state().status_count(), 1);
}

#[test]
fn timed_extension_dialog_can_be_expired_without_polling_semantics() {
    let run_id = RunId { value: 1 };
    let mut store = ready_store(run_id);
    let mut controller = RunRpcController::new(run_id, RuntimeLimits::default());
    let before = NOW_MS;
    controller
        .apply_event(
            dialog("input-1", ExtensionDialogMethod::Input, "Value", None, Some(1)),
            &mut store, NOW_MS, NOW)
        .expect("dialog");
    let expired = controller
        .expire_extension_dialogs(before + 1_000, &mut store, NOW)
        .expect("expire");
    assert_eq!(expired, ["input-1"]);
    assert_eq!(controller.pending_extension_dialogs().len(), 0);
}

#[test]
fn session_name_event_cannot_bypass_retained_runtime_state_budget() {
    let run_id = RunId { value: 1 };
    let mut store = ready_store(run_id);
    let limits = RuntimeLimits {
        max_runtime_state_bytes_per_run: 8,
        ..RuntimeLimits::default()
    };
    let mut controller = RunRpcController::new(run_id, limits);
    assert!(matches!(
        controller.apply_event(
            RpcEvent::SessionInfoChanged { name: Some("0123456789".to_owned()) },
            &mut store, NOW_MS, NOW),
        Err(RunRpcControllerError::ResponsePayload(
            RpcResponsePayloadError::RuntimeStateByteLimit { limit: 8, .. }
        ))
    ));
    assert!(
        store
            .get(run_id)
            .expect("run")
            .session_state()
            .session_name
            .is_none()
    );
}

#[test]
fn capability_responses_replace_revisioned_backend_projection() {
    let run_id = RunId { value: 1 };
    let mut store = ready_store(run_id);
    let mut controller = RunRpcController::new(run_id, RuntimeLimits::default());
    let request = RpcRequest::with_id(
        RequestId::from_wire("models"),
        RpcCommand::GetAvailableModels,
    );
    controller
        .begin_request(&request, None)
        .expect("begin models");
    let completed = controller
        .complete_response(
            &response(
                "models",
                "get_available_models",
                RpcResponsePayload::Models(vec![ModelSummary { provider: "openai".to_owned(), id: "gpt-5.6".to_owned(), name: Some("GPT-5.6".to_owned()), supports_images: Some(true) }]),
            ),
            &mut store, NOW)
        .expect("models response");

    assert!(completed.capabilities_changed);
    assert_eq!(controller.capabilities().revision(), 1);
    assert_eq!(
        controller.capabilities().models().expect("models")[0].id,
        "gpt-5.6"
    );
    assert_eq!(
        controller.capabilities().models().expect("models")[0].supports_images,
        Some(true)
    );
}

#[test]
fn writer_failure_cancellation_releases_all_request_owners() {
    let run_id = RunId { value: 1 };
    let mut controller = RunRpcController::new(run_id, RuntimeLimits::default());
    let request = RpcRequest::with_id(
        RequestId::from_wire("bash-1"),
        RpcCommand::Bash {
            command: "pwd".to_owned(),
            exclude_from_context: None,
        },
    );
    controller.begin_request(&request, None).expect("begin");
    assert_eq!(controller.pending_request_count(), 1);
    assert_eq!(controller.active_command_count(), 1);
    assert_eq!(controller.live_projection().active_direct_bash_count(), 1);

    let cancelled = controller.cancel_request(&request.id);
    assert!(cancelled.pending.is_some());
    assert!(cancelled.active.is_some());
    assert!(cancelled.direct_bash_preview.is_some());
    assert!(!cancelled.session_sync_cancelled);
    assert_eq!(controller.pending_request_count(), 0);
    assert_eq!(controller.active_command_count(), 0);
    assert_eq!(controller.live_projection().active_direct_bash_count(), 0);
}

#[test]
fn get_entries_advances_exact_cursor_and_exposes_bounded_page_without_retaining_history() {
    let run_id = RunId { value: 1 };
    let mut store = ready_store(run_id);
    let mut controller = RunRpcController::new(run_id, RuntimeLimits::default());
    controller
        .seed_session_sync(Some("a".to_owned()), Some("a".to_owned()))
        .expect("seed cursor");
    let request = RpcRequest::with_id(
        RequestId::from_wire("entries-1"),
        RpcCommand::GetEntries {
            since: Some("a".to_owned()),
        },
    );
    controller
        .begin_request(&request, None)
        .expect("begin entries");

    let completed = controller
        .complete_response(
            &response(
                "entries-1",
                "get_entries",
                RpcResponsePayload::Entries(SessionEntriesPage { entries: vec![entry("b", "a"), entry("c", "b")], leaf_id: Some("b".to_owned()), encoded_bytes: 180 }),
            ),
            &mut store, NOW)
        .expect("entries response");

    let Some(SessionSyncCompletion::Page { page, applied }) = completed.session_sync else {
        panic!("expected session page");
    };
    assert_eq!(page.entries.len(), 2);
    assert_eq!(applied.appended_entries, 2);
    assert_eq!(controller.session_sync_state().cursor(), Some("c"));
    assert_eq!(controller.session_sync_state().leaf_id(), Some("b"));
}

#[test]
fn oversized_successful_get_entries_page_requests_cold_resync_instead_of_failing_protocol() {
    let run_id = RunId { value: 1 };
    let mut store = ready_store(run_id);
    let limits = RuntimeLimits::default();
    let mut controller = RunRpcController::new(run_id, limits);
    controller
        .seed_session_sync(Some("a".to_owned()), Some("a".to_owned()))
        .expect("seed cursor");
    let request = RpcRequest::with_id(
        RequestId::from_wire("entries-large"),
        RpcCommand::GetEntries {
            since: Some("a".to_owned()),
        },
    );
    controller
        .begin_request(&request, None)
        .expect("begin entries");

    let completed = controller
        .complete_response(
            &response(
                "entries-large",
                "get_entries",
                RpcResponsePayload::Entries(SessionEntriesPage { entries: vec![entry("b", "a")], leaf_id: Some("b".to_owned()), encoded_bytes: limits.max_session_entry_page_bytes + 90 }),
            ),
            &mut store, NOW)
        .expect("oversized app projection is recoverable");

    let Some(SessionSyncCompletion::ResyncRequired { revision, error }) =
        completed.session_sync
    else {
        panic!("expected bounded resync request");
    };
    assert_eq!(revision, 2);
    assert!(error.is_some_and(|detail| detail.contains("524288")));
    assert!(controller.session_sync_state().resync_required());
    assert_eq!(controller.session_sync_state().cursor(), Some("a"));
    assert_eq!(
        store.get(run_id).expect("run").process_state(),
        ProcessState::Ready
    );
}

#[test]
fn rejected_incremental_cursor_requires_explicit_resync_instead_of_full_message_fallback() {
    let run_id = RunId { value: 1 };
    let mut store = ready_store(run_id);
    let mut controller = RunRpcController::new(run_id, RuntimeLimits::default());
    controller
        .seed_session_sync(Some("gone".to_owned()), None)
        .expect("seed");
    let request = RpcRequest::with_id(
        RequestId::from_wire("entries-stale"),
        RpcCommand::GetEntries {
            since: Some("gone".to_owned()),
        },
    );
    controller.begin_request(&request, None).expect("begin");
    let rejected = RpcResponse {
        id: Some("entries-stale".to_owned()),
        command: "get_entries".to_owned(),
        success: false,
        cancelled: false,
        payload: RpcResponsePayload::Empty,
        error: Some("since entry not found".to_owned()),
    };
    let completed = controller
        .complete_response(&rejected, &mut store, NOW)
        .expect("classified rejection");

    assert!(matches!(
        completed.session_sync,
        Some(SessionSyncCompletion::ResyncRequired { .. })
    ));
    assert!(controller.session_sync_state().resync_required());
    assert!(matches!(
        controller.begin_request(
            &RpcRequest::with_id(
                RequestId::from_wire("entries-again"),
                RpcCommand::GetEntries {
                    since: Some("gone".to_owned())
                },
            ),
            None,
        ),
        Err(RunRpcControllerError::SessionSync(
            SessionSyncError::ResyncRequired
        ))
    ));
}

#[test]
fn concurrent_get_entries_is_rejected_before_cross_response_can_exist() {
    let run_id = RunId { value: 1 };
    let mut controller = RunRpcController::new(run_id, RuntimeLimits::default());
    let first = RpcRequest::with_id(
        RequestId::from_wire("entries-1"),
        RpcCommand::GetEntries { since: None },
    );
    let second = RpcRequest::with_id(
        RequestId::from_wire("entries-2"),
        RpcCommand::GetEntries { since: None },
    );
    controller.begin_request(&first, None).expect("first");
    assert!(matches!(
        controller.begin_request(&second, None),
        Err(RunRpcControllerError::SessionSyncInFlight {
            request_id
        })
            if request_id == RequestId::from_wire("entries-1")
    ));
    let cancelled = controller.cancel_request(&first.id);
    assert!(cancelled.session_sync_cancelled);
}

#[test]
fn direct_bash_stream_and_response_are_correlated_to_exact_request() {
    let run_id = RunId { value: 1 };
    let mut store = ready_store(run_id);
    let limits = RuntimeLimits {
        max_tool_preview_bytes: 6,
        ..RuntimeLimits::default()
    };
    let mut controller = RunRpcController::new(run_id, limits);
    let request = RpcRequest::with_id(
        RequestId::from_wire("bash-7"),
        RpcCommand::Bash {
            command: "long command".to_owned(),
            exclude_from_context: Some(true),
        },
    );
    controller
        .begin_request(&request, None)
        .expect("begin bash");
    controller
        .apply_event(
            RpcEvent::BashExecutionUpdate { request_id: Some(RequestId::from_wire("bash-7")), delta: "0123456789".to_owned() },
            &mut store, NOW_MS, NOW)
        .expect("bash update");

    let completed = controller
        .complete_response(
            &response(
                "bash-7",
                "bash",
                RpcResponsePayload::Other,
            ),
            &mut store, NOW)
        .expect("bash response");
    assert_eq!(completed.outcome, RpcResponseOutcome::Accepted);
    assert_eq!(store.get(run_id).expect("run").change_revision(), 1);
    assert_eq!(
        completed
            .direct_bash_preview
            .expect("stream preview")
            .as_str(),
        "456789"
    );
    assert_eq!(controller.pending_request_count(), 0);
}

#[test]
fn get_state_response_reconciles_runtime_after_hydration_gap() {
    let run_id = RunId { value: 1 };
    let mut store = ready_store(run_id);
    let mut controller = RunRpcController::new(run_id, RuntimeLimits::default());
    let request = RpcRequest::with_id(RequestId::from_wire("state"), RpcCommand::GetState);
    controller
        .begin_request(&request, None)
        .expect("begin state");
    controller
        .complete_response(
            &response(
                "state",
                "get_state",
                RpcResponsePayload::State(RpcStateSnapshot {
                    model: Some(ModelSummary { provider: "openai".to_owned(), id: "gpt-5.6".to_owned(), name: Some("GPT-5.6".to_owned()), supports_images: None }),
                    thinking_level: ThinkingLevel::High,
                    is_streaming: true,
                    is_compacting: false,
                    steering_mode: QueueMode::All,
                    follow_up_mode: QueueMode::OneAtATime,
                    session_file: Some("session.jsonl".to_owned()),
                    session_id: "session-9".to_owned(),
                    session_name: Some("resume me".to_owned()),
                    auto_compaction_enabled: true,
                    message_count: 99,
                    pending_message_count: 1,
                }),
            ),
            &mut store, NOW)
        .expect("state response");

    let run = store.get(run_id).expect("run");
    assert_eq!(run.process_state(), ProcessState::Ready);
    assert_eq!(run.activity_state(), ActivityState::Working);
    assert_eq!(run.session_state().session_id.as_deref(), Some("session-9"));
    assert_eq!(run.session_state().message_count, Some(99));
}

#[test]
fn message_end_reconciles_final_assistant_content_over_stream_preview() {
    let run_id = RunId { value: 1 };
    let mut store = ready_store(run_id);
    let mut controller = RunRpcController::new(run_id, RuntimeLimits::default());

    controller
        .apply_event(RpcEvent::MessageStart, &mut store, NOW_MS, NOW)
        .expect("message start");
    controller
        .apply_event(
            RpcEvent::MessageUpdate(AssistantMessageUpdate::Start { content_index: 0, kind: AssistantMessageBlockKind::Text }),
            &mut store, NOW_MS, NOW)
        .expect("text start");
    controller
        .apply_event(
            RpcEvent::MessageUpdate(AssistantMessageUpdate::Delta { content_index: 0, kind: AssistantMessageBlockKind::Text, delta: "stale preview".to_owned() }),
            &mut store, NOW_MS, NOW)
        .expect("text delta");

    let effect = controller
        .apply_event(
            assistant_end(AssistantStopReason::Stop, vec![(0, AssistantMessageBlockKind::Text, "final answer".to_owned()), (1, AssistantMessageBlockKind::Thinking, "final reasoning".to_owned())]),
            &mut store, NOW_MS, NOW)
        .expect("message end");
    assert!(matches!(effect, RunRpcEffect::SemanticStateChanged));
    assert_eq!(
        store
            .get(run_id)
            .expect("run")
            .assistant_message_generation(),
        1
    );
    assert_eq!(
        store.get(run_id).expect("run").last_assistant_stop_reason(),
        Some(&AssistantStopReason::Stop)
    );
    let snapshot = controller.live_projection().snapshot();
    assert_eq!(snapshot.assistant_blocks.len(), 2);
    assert_eq!(snapshot.assistant_blocks[0].text, "final answer");
    assert_eq!(
        snapshot.assistant_blocks[0].kind,
        AssistantContentKind::Text
    );
    assert!(snapshot.assistant_blocks[0].complete);
    assert_eq!(snapshot.assistant_blocks[1].text, "final reasoning");
    assert_eq!(
        snapshot.assistant_blocks[1].kind,
        AssistantContentKind::Thinking
    );
    assert!(snapshot.assistant_blocks[1].complete);
    assert_eq!(snapshot.reasoning, "final reasoning");

    controller
        .apply_event(RpcEvent::MessageStart, &mut store, NOW_MS, NOW)
        .expect("next assistant message");
    let carried = controller.live_projection().snapshot();
    assert_eq!(carried.reasoning, "final reasoning");
    assert!(carried.assistant_blocks.is_empty());

    controller
        .apply_event(
            RpcEvent::MessageUpdate(AssistantMessageUpdate::Start { content_index: 0, kind: AssistantMessageBlockKind::Thinking }),
            &mut store, NOW_MS, NOW)
        .expect("next thinking start");
    controller
        .apply_event(
            RpcEvent::MessageUpdate(AssistantMessageUpdate::Delta { content_index: 0, kind: AssistantMessageBlockKind::Thinking, delta: "next step".to_owned() }),
            &mut store, NOW_MS, NOW)
        .expect("next thinking delta");
    assert_eq!(
        controller.live_projection().snapshot().reasoning,
        "final reasoning\n\nnext step"
    );

    controller
        .apply_event(RpcEvent::AgentStart, &mut store, NOW_MS, NOW)
        .expect("new agent turn");
    assert!(controller.live_projection().snapshot().reasoning.is_empty());
}

#[test]
fn tool_result_message_end_does_not_advance_assistant_generation_and_settlement_is_separate() {
    let run_id = RunId { value: 1 };
    let mut store = ready_store(run_id);
    let mut controller = RunRpcController::new(run_id, RuntimeLimits::default());
    controller
        .apply_event(RpcEvent::AgentStart, &mut store, NOW_MS, NOW)
        .expect("agent start");
    controller
        .apply_event(
            assistant_end(AssistantStopReason::ToolUse, vec![(0, AssistantMessageBlockKind::ToolCall, "{\"path\":\"README.md\"}".to_owned())]),
            &mut store, NOW_MS, NOW)
        .expect("assistant tool-use message");
    assert_eq!(
        store
            .get(run_id)
            .expect("run")
            .assistant_message_generation(),
        1
    );
    assert_eq!(
        store.get(run_id).expect("run").agent_settled_generation(),
        0
    );

    let effect = controller
        .apply_event(
            RpcEvent::MessageEnd(None),
            &mut store, NOW_MS, NOW)
        .expect("tool result message");
    assert!(matches!(effect, RunRpcEffect::Nothing));
    assert_eq!(
        store
            .get(run_id)
            .expect("run")
            .assistant_message_generation(),
        1
    );
    assert_eq!(
        store.get(run_id).expect("run").agent_settled_generation(),
        0
    );

    controller
        .apply_event(RpcEvent::AgentSettled, &mut store, NOW_MS, NOW)
        .expect("agent settled");
    assert_eq!(
        store.get(run_id).expect("run").agent_settled_generation(),
        1
    );
    assert_eq!(
        store.get(run_id).expect("run").activity_state(),
        ActivityState::Idle
    );
}

#[test]
fn event_projection_preserves_accumulated_tool_output_and_semantic_state() {
    let run_id = RunId { value: 1 };
    let mut store = ready_store(run_id);
    let mut controller = RunRpcController::new(run_id, RuntimeLimits::default());
    controller
        .apply_event(RpcEvent::AgentStart, &mut store, NOW_MS, NOW)
        .expect("agent start");
    assert_eq!(
        store.get(run_id).expect("run").activity_state(),
        ActivityState::Working
    );

    controller
        .apply_event(
            RpcEvent::ToolExecutionStart { tool_call_id: "call-1".to_owned(), tool_name: "bash".to_owned() },
            &mut store, NOW_MS, NOW)
        .expect("tool start");
    controller
        .apply_event(
            RpcEvent::ToolExecutionUpdate { tool_call_id: "call-1".to_owned(), accumulated_text: "first".to_owned() },
            &mut store, NOW_MS, NOW)
        .expect("tool update");
    controller
        .apply_event(
            RpcEvent::ToolExecutionUpdate { tool_call_id: "call-1".to_owned(), accumulated_text: "accumulated".to_owned() },
            &mut store, NOW_MS, NOW)
        .expect("tool replacement");
    let effect = controller
        .apply_event(
            RpcEvent::ToolExecutionEnd { tool_call_id: "call-1".to_owned(), tool_name: "bash".to_owned(), final_text: "final".to_owned(), is_error: false },
            &mut store, NOW_MS, NOW)
        .expect("tool end");
    let RunRpcEffect::ToolFinished { preview, .. } = effect else {
        panic!("expected finished tool");
    };
    assert_eq!(preview.output.as_str(), "final");
    assert_eq!(store.get(run_id).expect("run").change_revision(), 1);

    controller
        .apply_event(
            RpcEvent::QueueUpdate(ClearQueueResult { steering: vec!["one".to_owned()], follow_up: vec!["two".to_owned(), "three".to_owned()] }),
            &mut store, NOW_MS, NOW)
        .expect("queue update");
    assert_eq!(
        store.get(run_id).expect("run").queue(),
        QueueState {
            steering: 1,
            follow_up: 2
        }
    );
    assert_eq!(controller.observed_queue_recovery().steering, ["one"]);
    assert_eq!(
        controller.observed_queue_recovery().follow_up,
        ["two", "three"]
    );
    controller
        .apply_event(RpcEvent::AgentSettled, &mut store, NOW_MS, NOW)
        .expect("settled");
    assert_eq!(
        store.get(run_id).expect("run").activity_state(),
        ActivityState::Idle
    );
}

#[test]
fn agent_settled_discards_unfinished_tool_preview_and_invalidates_review() {
    let run_id = RunId { value: 1 };
    let mut store = ready_store(run_id);
    let mut controller = RunRpcController::new(run_id, RuntimeLimits::default());
    controller
        .apply_event(RpcEvent::AgentStart, &mut store, NOW_MS, NOW)
        .expect("agent start");
    controller
        .apply_event(
            RpcEvent::ToolExecutionStart { tool_call_id: "orphan-tool".to_owned(), tool_name: "write".to_owned() },
            &mut store, NOW_MS, NOW)
        .expect("tool start");
    controller
        .apply_event(
            RpcEvent::ToolExecutionUpdate { tool_call_id: "orphan-tool".to_owned(), accumulated_text: "partial".to_owned() },
            &mut store, NOW_MS, NOW)
        .expect("tool update");
    assert_eq!(controller.live_projection().active_tool_count(), 1);
    assert_eq!(store.get(run_id).expect("run").change_revision(), 0);

    controller
        .apply_event(RpcEvent::AgentSettled, &mut store, NOW_MS, NOW)
        .expect("agent settled");

    assert_eq!(controller.live_projection().active_tool_count(), 0);
    assert_eq!(
        store.get(run_id).expect("run").activity_state(),
        ActivityState::Idle
    );
    assert_eq!(
        store.get(run_id).expect("run").change_revision(),
        1,
        "an unfinished tool at semantic settlement conservatively invalidates Git review"
    );
}

#[test]
fn retry_summarization_and_extension_errors_are_bounded_in_hydration() {
    let run_id = RunId { value: 1 };
    let mut store = ready_store(run_id);
    let limits = RuntimeLimits {
        max_failure_detail_bytes: 8,
        ..RuntimeLimits::default()
    };
    let mut controller = RunRpcController::new(run_id, limits);

    controller
        .apply_event(
            RpcEvent::AutoRetryStart { attempt: 1, max_attempts: 4, delay_ms: 2000, error_message: "retry-detail-is-long".to_owned() },
            &mut store, NOW_MS, NOW)
        .expect("retry scheduled");
    assert!(store.get(run_id).expect("run").is_retry_waiting());
    let snapshot = controller.hydration_snapshot(NOW_MS);
    let retry = snapshot.retry.expect("retry snapshot");
    assert!(retry.waiting);
    assert_eq!(retry.attempt, 1);
    assert!(retry.error_truncated);
    assert!(retry.error_message.len() <= 8);

    controller
        .apply_event(RpcEvent::AgentStart, &mut store, NOW_MS, NOW)
        .expect("retry attempt start");
    assert!(!store.get(run_id).expect("run").is_retry_waiting());
    assert!(
        !controller
            .hydration_snapshot(NOW_MS)
            .retry
            .expect("retry remains visible while attempt runs")
            .waiting
    );

    controller
        .apply_event(
            RpcEvent::SummarizationRetryScheduled { attempt: 2, max_attempts: 3, delay_ms: 500, error_message: "summary-detail-is-long".to_owned() },
            &mut store, NOW_MS, NOW)
        .expect("summary retry");
    assert!(store.get(run_id).expect("run").has_summarization_retry());

    controller
        .apply_event(
            RpcEvent::ExtensionError { extension_path: "C:/extensions/very-long-name.ts".to_owned(), event: "session_start".to_owned(), error: "extension-detail-is-long".to_owned() },
            &mut store, NOW_MS, NOW)
        .expect("extension error");
    let snapshot = controller.hydration_snapshot(NOW_MS);
    let summary = snapshot
        .summarization_retry
        .expect("summary retry snapshot");
    assert!(summary.error_truncated);
    assert!(summary.error_message.len() <= 8);
    let extension = snapshot
        .last_extension_error
        .expect("extension error snapshot");
    assert!(extension.detail_truncated);
    assert!(extension.extension_path.len() <= 8);
    assert!(extension.error.len() <= 8);

    controller
        .apply_event(
            RpcEvent::SummarizationRetryFinished,
            &mut store, NOW_MS, NOW)
        .expect("summary retry finished");
    assert!(!store.get(run_id).expect("run").has_summarization_retry());
    assert!(
        controller
            .hydration_snapshot(NOW_MS)
            .summarization_retry
            .expect("finished state retained for UI settlement")
            .finished
    );
}

#[test]
fn compaction_reason_and_failure_are_bounded_and_overflow_retry_clears_on_agent_restart() {
    let run_id = RunId { value: 1 };
    let mut store = ready_store(run_id);
    let limits = RuntimeLimits {
        max_failure_detail_bytes: 8,
        ..RuntimeLimits::default()
    };
    let mut controller = RunRpcController::new(run_id, limits);

    controller
        .apply_event(
            RpcEvent::CompactionStart { reason: "overflow-is-long".to_owned() },
            &mut store, NOW_MS, NOW)
        .expect("compaction start");
    let active = controller
        .hydration_snapshot(NOW_MS)
        .compaction
        .expect("active compaction");
    assert!(!active.finished);
    assert!(active.reason_truncated);
    assert!(active.reason.len() <= 8);

    controller
        .apply_event(
            RpcEvent::CompactionEnd { reason: "overflow".to_owned(), aborted: false, will_retry: true, error_message: Some("quota-error-is-long".to_owned()) },
            &mut store, NOW_MS, NOW)
        .expect("compaction end");
    let ended = controller
        .hydration_snapshot(NOW_MS)
        .compaction
        .expect("finished compaction");
    assert!(ended.finished);
    assert!(ended.will_retry);
    assert!(ended.error_truncated);
    assert!(
        ended
            .error_message
            .as_ref()
            .is_some_and(|value| value.len() <= 8)
    );

    controller
        .apply_event(RpcEvent::AgentStart, &mut store, NOW_MS, NOW)
        .expect("overflow retry agent start");
    assert!(
        controller
            .hydration_snapshot(NOW_MS)
            .compaction
            .is_none()
    );
}

#[test]
fn missing_direct_bash_request_id_never_falls_back_to_oldest_request() {
    let run_id = RunId { value: 1 };
    let mut store = ready_store(run_id);
    let mut controller = RunRpcController::new(run_id, RuntimeLimits::default());

    assert!(matches!(
        controller.apply_event(
            RpcEvent::BashExecutionUpdate { request_id: None, delta: "uncorrelated".to_owned() },
            &mut store, NOW_MS, NOW),
        Err(RunRpcControllerError::MissingBashRequestId)
    ));
}

#[test]
fn a_second_session_replacement_waits_for_the_first() {
    let mut controller = RunRpcController::new(RunId { value: 1 }, RuntimeLimits::default());
    let first = RpcRequest::with_id(RequestId::from_wire("clone"), RpcCommand::Clone);
    let second = RpcRequest::with_id(RequestId::from_wire("new"), RpcCommand::NewSession);
    controller.begin_request(&first, None).expect("first replacement");
    let error = controller.begin_request(&second, None).expect_err("second replacement");
    assert!(matches!(error, RunRpcControllerError::Gate(_)));
    assert_eq!(error.message(), "a session replacement is already in flight");
    assert_eq!(controller.pending_request_count(), 1);
}

#[test]
fn a_response_without_request_is_refused() {
    let run_id = RunId { value: 1 };
    let mut store = ready_store(run_id);
    let mut controller = RunRpcController::new(run_id, RuntimeLimits::default());
    let error = controller
        .complete_response(&response("nobody", "abort", RpcResponsePayload::Empty), &mut store, NOW)
        .expect_err("unknown response");
    assert_eq!(error.message(), "RPC response nobody has no pending request");
}

#[test]
fn questions_of_extensions_are_bounded_together() {
    let run_id = RunId { value: 1 };
    let mut store = ready_store(run_id);
    let limits = RuntimeLimits {
        max_extension_ui_bytes_per_run: 20,
        ..RuntimeLimits::default()
    };
    let mut controller = RunRpcController::new(run_id, limits);
    controller
        .apply_event(
            dialog("a", ExtensionDialogMethod::Input, "short", None, None),
            &mut store,
            NOW_MS,
            NOW,
        )
        .expect("fits");
    let result = controller.apply_event(
        dialog("b", ExtensionDialogMethod::Input, "much too long to fit", None, None),
        &mut store,
        NOW_MS,
        NOW,
    );
    assert!(result.is_err());
    assert_eq!(controller.pending_extension_dialogs().len(), 1);
    assert!(controller.has_pending_extension_dialog(&"a".to_owned()));
    assert_eq!(store.get(run_id).expect("run").pending_ui_requests(), 1);
}

#[test]
fn the_end_of_a_process_keeps_only_what_does_not_depend_on_it() {
    let run_id = RunId { value: 1 };
    let mut store = ready_store(run_id);
    let mut controller = RunRpcController::new(run_id, RuntimeLimits::default());
    controller
        .begin_request(
            &RpcRequest::with_id(RequestId::from_wire("models"), RpcCommand::GetAvailableModels),
            None,
        )
        .expect("request");
    controller
        .complete_response(
            &response(
                "models",
                "get_available_models",
                RpcResponsePayload::Models(Vec::new()),
            ),
            &mut store,
            NOW,
        )
        .expect("models");
    controller
        .begin_request(
            &RpcRequest::with_id(RequestId::from_wire("state"), RpcCommand::GetState),
            None,
        )
        .expect("request");
    controller.process_ended();
    assert_eq!(controller.pending_request_count(), 0);
    assert_eq!(controller.active_command_count(), 0);
    assert_eq!(controller.capabilities().revision(), 1);
}

#[test]
fn a_quiet_stream_is_noted_once() {
    let mut controller = RunRpcController::new(RunId { value: 1 }, RuntimeLimits::default());
    assert!(controller.set_stream_stalled(true));
    assert!(!controller.set_stream_stalled(true));
    assert!(controller.hydration_snapshot(NOW_MS).stream_stalled);
    assert!(controller.set_stream_stalled(false));
}

#[test]
fn cancelling_a_request_for_entries_lets_another_begin() {
    let run_id = RunId { value: 1 };
    let mut controller = RunRpcController::new(run_id, RuntimeLimits::default());
    let first = RpcRequest::with_id(
        RequestId::from_wire("entries-1"),
        RpcCommand::GetEntries { since: None },
    );
    let second = RpcRequest::with_id(
        RequestId::from_wire("entries-2"),
        RpcCommand::GetEntries { since: None },
    );
    controller.begin_request(&first, None).expect("first");
    assert!(matches!(
        controller.begin_request(&second, None),
        Err(RunRpcControllerError::SessionSyncInFlight { .. })
    ));
    let cancelled = controller.cancel_request(&first.id);
    assert!(cancelled.pending.is_some());
    assert!(cancelled.active.is_some());
    assert!(cancelled.direct_bash_preview.is_none());
    assert!(cancelled.session_sync_cancelled);
    assert_eq!(controller.pending_request_count(), 0);
    assert_eq!(controller.active_command_count(), 0);
    controller.begin_request(&second, None).expect("second");
}

#[test]
fn questions_expire_once_and_the_next_expiry_is_later() {
    let run_id = RunId { value: 1 };
    let mut store = ready_store(run_id);
    let mut controller = RunRpcController::new(run_id, RuntimeLimits::default());
    for (id, timeout_ms) in [("c", Some(50)), ("a", Some(10)), ("b", Some(20)), ("d", None)] {
        controller
            .apply_event(
                dialog(id, ExtensionDialogMethod::Confirm, "Go on?", None, timeout_ms),
                &mut store,
                NOW_MS,
                NOW,
            )
            .expect("dialog");
    }
    let ids: Vec<&str> = controller
        .pending_extension_dialogs()
        .iter()
        .map(|request| request.id.as_str())
        .collect();
    assert_eq!(ids, ["a", "b", "c", "d"]);
    assert_eq!(controller.next_extension_dialog_expiry(), Some(NOW_MS + 10));
    let at = NOW_MS + 20;
    assert_eq!(controller.expire_extension_dialogs(at, &mut store, NOW).expect("once"), ["a", "b"]);
    assert_eq!(store.get(run_id).expect("run").pending_ui_requests(), 2);
    assert_eq!(controller.next_extension_dialog_expiry(), Some(NOW_MS + 50));
    let revision = store.revision();
    let again = controller.expire_extension_dialogs(at, &mut store, NOW).expect("twice");
    assert!(again.is_empty());
    assert_eq!(store.revision(), revision);
    assert_eq!(controller.pending_extension_dialogs().len(), 2);
}
