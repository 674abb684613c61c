use pi_wizard_core::events::{ExtensionUiResponse, InboundMessage, RpcEvent};
use pi_wizard_core::launch::ProjectTrustPolicy;
use pi_wizard_core::process::{PiProcessDiagnostics, PiProcessIdentity};
use pi_wizard_core::rpc::{
    ClearQueueResult, CommandSummary, RpcCommand, RpcRequest, RpcResponse, RpcResponseOutcome,
    RpcResponsePayload,
};
use pi_wizard_core::runtime::composer::{
    compose_command, draft_is_extension_command, slash_command_name, submit_result, DraftSubmission,
};
use pi_wizard_core::runtime::hydration::RunControllers;
use pi_wizard_core::runtime::operations::{
    continue_operation, rejected_operation, require_accepted, ManagedOperation, OperationKind,
    OperationStage, OperationStep,
};
use pi_wizard_core::runtime::process_actor::{
    after_write, extension_response_id, ActorAction, ActorInput, OfferOutcome, ProcessActor,
    RunProcessCommand, RunProcessWriterEvent,
};
use pi_wizard_core::runtime::stop_recovery::{plan_draft_recovery, DraftRecovery};
use pi_wizard_core::runtime::ui_queue::RuntimeUiQueue;
use pi_wizard_core::runtime::{
    ComposerAction, ComposerAvailability, ExecutionIsolation, ManagedRpcCompletion,
    ProcessTerminationReport, RunCapabilities, RunMutation, RunProcessCommandError,
    RunProcessEvent, RunRecord, RunRpcController, RuntimeHydrationSnapshot, RuntimeManagerError,
    RuntimeStopResult, RuntimeStore, SessionReplacementResult, UiCoalesceKey,
    RUNTIME_HYDRATION_SCHEMA_VERSION,
};
use pi_wizard_core::{ProjectId, RequestId, RunId, RuntimeLimits};

#[test]
fn ui_queue_editor_delivery_rearms_dirty_signal_after_drain() {
    let mut queue = RuntimeUiQueue::new(RuntimeLimits::default());
    queue.pending_editor_text = Some("first".to_owned());
    assert!(queue.mark_dirty());
    let drained = queue.drain(8);
    assert_eq!(drained.pending_editor_text.as_deref(), Some("first"));
    assert!(!drained.has_more);
    queue.pending_editor_text = Some("second".to_owned());
    assert!(queue.mark_dirty());
}

#[test]
fn explicit_ui_recovery_preserves_out_of_snapshot_editor_text_for_redelivery() {
    let mut queue = RuntimeUiQueue::new(RuntimeLimits::default());
    queue.pending_editor_text = Some("extension text".to_owned());
    queue.push_semantic(Some(b"editor text changed".to_vec()));
    assert!(queue.reset_after_recovery());
    let drained = queue.drain(8);
    assert!(drained.events.is_empty());
    assert_eq!(drained.pending_editor_text.as_deref(), Some("extension text"));
}

#[test]
fn ui_drain_reports_remaining_bounded_work() {
    let mut queue = RuntimeUiQueue::new(RuntimeLimits::default());
    queue.push_semantic(Some(b"assistant message reset".to_vec()));
    queue.push_semantic(Some(b"assistant message reset".to_vec()));
    let first = queue.drain(1);
    assert_eq!(first.events.len(), 1);
    assert!(first.has_more);
    let second = queue.drain(1);
    assert_eq!(second.events.len(), 1);
    assert!(!second.has_more);
}

#[test]
fn a_renderer_is_woken_once_between_two_visits() {
    let mut queue = RuntimeUiQueue::new(RuntimeLimits::default());
    assert!(queue.push_semantic(Some(b"one".to_vec())));
    assert!(!queue.push_semantic(Some(b"two".to_vec())));
    assert!(!queue.push_coalescible(UiCoalesceKey::AssistantBlock(0), Some(b"three".to_vec())));
    assert!(queue.has_pending_delivery());
    assert_eq!(queue.drain(8).events, [b"one".to_vec(), b"two".to_vec(), b"three".to_vec()]);
    assert!(!queue.has_pending_delivery());
    assert!(queue.push_semantic(Some(b"four".to_vec())));
}

#[test]
fn an_event_that_cannot_be_kept_makes_the_renderer_read_anew() {
    let mut queue = RuntimeUiQueue::new(RuntimeLimits::default());
    queue.push_semantic(None);
    assert!(queue.drain(8).rehydrate_required);
    let limits = RuntimeLimits { max_ui_backlog_bytes_per_run: 4, ..RuntimeLimits::default() };
    let mut queue = RuntimeUiQueue::new(limits);
    queue.push_semantic(Some(b"too large".to_vec()));
    let drained = queue.drain(8);
    assert!(drained.rehydrate_required);
    assert!(drained.events.is_empty());
}

#[test]
fn hydration_is_schema_versioned_revisioned_and_deterministically_ordered() {
    let limits = RuntimeLimits::default();
    let mut store = RuntimeStore::new(limits);
    let first = RunId { value: 0x0123 };
    let second = RunId { value: 0xfedc_0000_0000_0000_0000 };
    for id in [second, first] {
        store
            .register(
                RunRecord::starting(
                    id,
                    ProjectId { value: 5 },
                    format!("project-{}", id.value),
                    ExecutionIsolation::LocalCheckout,
                    ProjectTrustPolicy::Ignore,
                    1_000,
                )
                .expect("local run"),
            )
            .expect("register");
    }
    store.apply(first, RunMutation::ProcessReady, 1_000).expect("ready first");
    let mut controllers = RunControllers::new();
    controllers.insert(first, RunRpcController::new(first, limits));

    let snapshot = RuntimeHydrationSnapshot::build(&store, &controllers, 1_000);
    assert_eq!(snapshot.schema_version, RUNTIME_HYDRATION_SCHEMA_VERSION);
    assert_eq!(snapshot.runtime_revision, 3);
    assert_eq!(snapshot.runs.len(), 2);
    assert!(snapshot.runs.iter().any(|run| run.rpc.is_some()));
    let ids: Vec<String> =
        snapshot.runs.iter().map(|run| format!("{:032x}", run.run.id().value)).collect();
    let mut sorted = ids.clone();
    sorted.sort();
    assert_eq!(ids, sorted);

    let again = RuntimeHydrationSnapshot::build(&store, &controllers, 1_000);
    assert_eq!(snapshot, again);
}

fn diagnostics(tail: &str) -> PiProcessDiagnostics {
    PiProcessDiagnostics { stderr_tail: tail.to_owned(), stderr_dropped_bytes: 0 }
}

fn exited(kill_requested: bool) -> ProcessTerminationReport {
    ProcessTerminationReport::Exited { code: None, diagnostics: diagnostics(""), kill_requested }
}

fn response(success: bool, cancelled: bool, error: Option<&str>) -> RpcResponse {
    RpcResponse {
        id: Some("state-1".to_owned()),
        command: "get_state".to_owned(),
        success,
        cancelled,
        payload: RpcResponsePayload::Empty,
        error: error.map(str::to_owned),
    }
}

#[test]
fn actor_keeps_process_alive_across_requests_until_exact_termination() {
    let (mut actor, first) = ProcessActor::new(RuntimeLimits::default());
    assert_eq!(first, ActorAction::Listen { control_open: true });
    let message = InboundMessage::Response(response(true, false, None));
    let ActorAction::Offer(RunProcessEvent::Inbound(InboundMessage::Response(response))) =
        actor.advance(ActorInput::Message(Some(Ok(message))))
    else {
        panic!("expected response");
    };
    assert_eq!(response.outcome(), RpcResponseOutcome::Accepted);
    assert_eq!(
        actor.advance(ActorInput::Offered(OfferOutcome::Accepted)),
        ActorAction::Listen { control_open: true }
    );
    assert_eq!(
        actor.advance(ActorInput::Control(Some(1_000))),
        ActorAction::Terminate { deadline_ms: 1_000 }
    );
    assert!(matches!(
        actor.advance(ActorInput::Terminated(Ok(exited(true)))),
        ActorAction::Deliver(RunProcessEvent::TerminationFinished {
            result: Ok(ProcessTerminationReport::Exited { kill_requested: true, .. })
        })
    ));
    assert_eq!(actor.advance(ActorInput::Delivered), ActorAction::End);
}

#[test]
fn an_actor_whose_events_nobody_takes_ends_its_process() {
    let limits = RuntimeLimits { stop_termination_deadline_ms: 7, ..RuntimeLimits::default() };
    let (mut actor, _) = ProcessActor::new(limits);
    actor.advance(ActorInput::Message(Some(Ok(InboundMessage::Event(RpcEvent::AgentStart)))));
    assert_eq!(
        actor.advance(ActorInput::Offered(OfferOutcome::QueueFull)),
        ActorAction::Terminate { deadline_ms: 7 }
    );
    assert_eq!(
        actor.advance(ActorInput::Terminated(Ok(exited(true)))),
        ActorAction::Deliver(RunProcessEvent::ProtocolFailure {
            detail: "bounded internal Pi event queue exhausted".to_owned(),
            termination: exited(true),
        })
    );
    let (mut actor, _) = ProcessActor::new(limits);
    actor.advance(ActorInput::Message(Some(Ok(InboundMessage::Event(RpcEvent::AgentStart)))));
    actor.advance(ActorInput::Offered(OfferOutcome::Closed));
    assert_eq!(actor.advance(ActorInput::Terminated(Ok(exited(true)))), ActorAction::End);
}

#[test]
fn an_actor_tells_how_its_process_ended() {
    let limits = RuntimeLimits { stop_termination_deadline_ms: 7, ..RuntimeLimits::default() };
    let (mut actor, _) = ProcessActor::new(limits);
    assert_eq!(actor.advance(ActorInput::Control(None)), ActorAction::Listen { control_open: false });
    assert_eq!(actor.advance(ActorInput::Message(None)), ActorAction::Wait);
    assert_eq!(
        actor.advance(ActorInput::Waited(Ok(Some(2)))),
        ActorAction::DrainDiagnostics { deadline_ms: 7 }
    );
    assert_eq!(
        actor.advance(ActorInput::Drained(Ok(diagnostics("last words")))),
        ActorAction::Deliver(RunProcessEvent::Exited {
            code: Some(2),
            diagnostics: diagnostics("last words"),
        })
    );

    let (mut actor, _) = ProcessActor::new(limits);
    actor.advance(ActorInput::Message(None));
    assert_eq!(actor.advance(ActorInput::Waited(Err("gone".to_owned()))), ActorAction::Observe);
    let identity = PiProcessIdentity { pid: Some(9) };
    assert_eq!(
        actor.advance(ActorInput::Observed { identity, diagnostics: diagnostics("") }),
        ActorAction::Deliver(RunProcessEvent::ProtocolFailure {
            detail: "Pi stdout closed and process wait failed: gone".to_owned(),
            termination: ProcessTerminationReport::Unconfirmed {
                identity,
                diagnostics: diagnostics(""),
            },
        })
    );

    let (mut actor, _) = ProcessActor::new(limits);
    actor.advance(ActorInput::Writer(None));
    assert_eq!(actor.advance(ActorInput::Terminated(Err("stuck".to_owned()))), ActorAction::Observe);
    assert!(matches!(
        actor.advance(ActorInput::Observed { identity, diagnostics: diagnostics("") }),
        ActorAction::Deliver(RunProcessEvent::ProtocolFailure { detail, .. })
            if detail == "Pi stdin writer task ended unexpectedly"
    ));
}

#[test]
fn only_answers_and_failed_writes_are_reported() {
    let request = RunProcessCommand::SendRequest {
        request: RpcRequest::with_id(RequestId::from_wire("r"), RpcCommand::GetState),
    };
    let (event, ended) = after_write(&request, Ok(()));
    assert_eq!(event, None);
    assert!(!ended);
    let (event, ended) = after_write(&request, Err("broken pipe".to_owned()));
    assert_eq!(
        event,
        Some(RunProcessWriterEvent::RequestWriteFailed {
            request_id: RequestId::from_wire("r"),
            detail: "broken pipe".to_owned(),
        })
    );
    assert!(ended);
    let response = ExtensionUiResponse::Value { id: "d".to_owned(), value: "v".to_owned() };
    assert_eq!(extension_response_id(&response), "d");
    let answer = RunProcessCommand::SendExtensionUiResponse { response };
    let (event, ended) = after_write(&answer, Ok(()));
    assert_eq!(
        event,
        Some(RunProcessWriterEvent::ExtensionUiResponseWritten { request_id: "d".to_owned() })
    );
    assert!(!ended);
    assert_eq!(
        RunProcessCommandError::CommandQueueFull.message(),
        "run process actor command queue is full"
    );
}

fn submission(text: &str) -> DraftSubmission {
    DraftSubmission { text: text.to_owned(), images: Vec::new(), generation: 4 }
}

#[test]
fn commands_are_named_by_their_first_word() {
    assert_eq!(slash_command_name(" /review now").as_deref(), Some("review"));
    assert_eq!(slash_command_name("/review\nnow").as_deref(), Some("review"));
    assert_eq!(slash_command_name("review"), None);
    assert_eq!(slash_command_name("/"), None);
    let mut capabilities = RunCapabilities::default();
    assert!(!draft_is_extension_command("/review", &capabilities));
    capabilities.replace_commands(vec![
        CommandSummary {
            name: "review".to_owned(),
            description: None,
            source: "extension".to_owned(),
        },
        CommandSummary { name: "model".to_owned(), description: None, source: "prompt".to_owned() },
    ]);
    assert!(draft_is_extension_command("/review now", &capabilities));
    assert!(!draft_is_extension_command("/model", &capabilities));
}

#[test]
fn drafts_are_sent_as_the_run_allows() {
    let ready = ComposerAvailability::Ready;
    let working = ComposerAvailability::AgentWorking;
    assert_eq!(
        compose_command(ComposerAction::Send, ready, None, false, submission("hi")),
        Ok(RpcCommand::Prompt {
            message: "hi".to_owned(),
            images: Vec::new(),
            streaming_behavior: None,
        })
    );
    assert_eq!(
        compose_command(ComposerAction::FollowUp, working, None, false, submission("hi")),
        Ok(RpcCommand::FollowUp { message: "hi".to_owned(), images: Vec::new() })
    );
    assert_eq!(
        compose_command(ComposerAction::Send, ready, None, false, submission(" \n")),
        Err("composer draft is empty".to_owned())
    );
    assert_eq!(
        compose_command(ComposerAction::RunCommand, working, None, false, submission("hi")),
        Err("Run command is reserved for discovered Pi extension commands while the agent is working".to_owned())
    );
    assert_eq!(
        compose_command(ComposerAction::Steer, ready, None, false, submission("hi")),
        Err("composer action Steer is not valid while availability is Ready".to_owned())
    );
    let told = submit_result(
        ComposerAction::Send,
        RpcResponseOutcome::Rejected,
        &Some("no".to_owned()),
        true,
    );
    assert!(!told.accepted && !told.draft_cleared);
    assert_eq!(told.error.as_deref(), Some("no"));
}

#[test]
fn recovered_messages_stand_before_the_draft() {
    let limits = RuntimeLimits { max_draft_bytes_per_session: 9, ..RuntimeLimits::default() };
    let one = vec!["a".to_owned(), "b".to_owned()];
    let two = vec!["cc".to_owned()];
    let none: Vec<String> = Vec::new();
    assert_eq!(
        plan_draft_recovery(&one, &two, Some("dd"), false, limits),
        DraftRecovery::Replace { text: "a\nb\ncc\ndd".to_owned() }
    );
    assert_eq!(
        plan_draft_recovery(&one, &two, Some("ddd"), false, limits),
        DraftRecovery::Refused {
            detail: "recovered queue plus current draft is 10 bytes, exceeding draft limit 9".to_owned(),
        }
    );
    assert_eq!(
        plan_draft_recovery(&one, &none, Some(""), false, limits),
        DraftRecovery::Replace { text: "a\nb".to_owned() }
    );
    assert_eq!(plan_draft_recovery(&none, &none, None, true, limits), DraftRecovery::Unneeded);
    assert_eq!(
        plan_draft_recovery(&one, &none, Some(""), true, limits),
        DraftRecovery::Refused { detail: "session draft restore is still pending".to_owned() }
    );
    assert_eq!(
        plan_draft_recovery(&one, &none, None, false, limits),
        DraftRecovery::Refused { detail: "active session draft is unavailable".to_owned() }
    );
}

#[test]
fn stop_results_carry_what_was_recovered() {
    let queue = ClearQueueResult { steering: vec!["s".to_owned()], follow_up: vec!["f".to_owned()] };
    let hard = RuntimeStopResult::terminated(Some(&queue), true);
    assert_eq!(hard.recovered_steering, ["s"]);
    assert_eq!(hard.recovered_follow_up, ["f"]);
    assert!(hard.process_terminated && hard.quarantined);
    let normal = RuntimeStopResult::normal(queue);
    assert_eq!(normal.recovered_steering, ["s"]);
    assert!(!normal.process_terminated && !normal.quarantined && !normal.draft_restored);
}

fn completion(success: bool, cancelled: bool, error: Option<&str>) -> ManagedRpcCompletion {
    ManagedRpcCompletion {
        response: response(success, cancelled, error),
        session_entries: None,
        session_resync_required: false,
    }
}

#[test]
fn operations_end_with_the_state_that_came_of_them() {
    let (kind, command) = ManagedOperation::CloneSession.begin();
    assert_eq!((kind, command), (OperationKind::CloneSession, RpcCommand::Clone));
    let accepted = completion(true, false, None);
    assert_eq!(
        continue_operation(kind, OperationStage::Change, &accepted),
        OperationStep::Request { stage: OperationStage::State, command: RpcCommand::GetState }
    );
    assert_eq!(
        continue_operation(kind, OperationStage::State, &accepted),
        OperationStep::Replaced(SessionReplacementResult { cancelled: false })
    );
    assert_eq!(
        continue_operation(kind, OperationStage::Change, &completion(true, true, None)),
        OperationStep::Replaced(SessionReplacementResult { cancelled: true })
    );
    assert_eq!(
        continue_operation(OperationKind::SetModel, OperationStage::Change, &accepted),
        OperationStep::Request {
            stage: OperationStage::Refresh,
            command: RpcCommand::GetAvailableThinkingLevels,
        }
    );
    assert_eq!(
        continue_operation(OperationKind::SessionStats, OperationStage::Change, &accepted),
        OperationStep::Done
    );
    assert!(matches!(
        continue_operation(OperationKind::SetModel, OperationStage::Change, &completion(true, true, None)),
        OperationStep::Fail(RuntimeManagerError::Operation(_))
    ));
}

#[test]
fn refusals_say_why() {
    assert_eq!(require_accepted("set model", &completion(true, false, None)), Ok(()));
    assert_eq!(
        require_accepted("set model", &completion(false, false, Some("no such model"))),
        Err(RuntimeManagerError::Operation("set model: no such model".to_owned()))
    );
    assert_eq!(
        rejected_operation("fork", &completion(true, true, None)),
        RuntimeManagerError::Operation(
            "fork: operation was cancelled by a Pi extension".to_owned()
        )
    );
    assert_eq!(
        rejected_operation("fork", &completion(false, false, None)),
        RuntimeManagerError::Operation("fork: Pi rejected the operation".to_owned())
    );
}

#[test]
fn usual_limits_leave_room_in_every_queue() {
    let limits = RuntimeLimits::default();
    assert_eq!(limits.max_ui_backlog_bytes_per_run, 1_048_576);
    assert_eq!(limits.max_session_entry_page_bytes, 524_288);
    assert_eq!(limits.max_git_ref_bytes, 255);
    assert_eq!(limits.validate(), Ok(limits));
}
