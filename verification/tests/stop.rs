use pi_wizard_core::launch::ProjectTrustPolicy;
use pi_wizard_core::rpc::{
    ClearQueueResult, RpcCommand, RpcRequest, RpcResponse, RpcResponsePayload,
};
use pi_wizard_core::runtime::{
    ActivityState, ExecutionIsolation, ProcessState, RunMutation, RunRecord, RuntimeStore,
    StopDirective, StopEscalationReason, StopPhase, StopTransaction, StopTransactionError,
};
use pi_wizard_core::{ProjectId, RequestId, RunId, RuntimeLimits};

const NOW: u64 = 2_000;

fn store_with_activity(run_id: RunId, working: bool, compacting: bool) -> RuntimeStore {
    let mut store = RuntimeStore::new(RuntimeLimits::default());
    store
        .register(
            RunRecord::starting(
                run_id,
                ProjectId { value: 7 },
                "project".to_owned(),
                ExecutionIsolation::LocalCheckout,
                ProjectTrustPolicy::Ignore,
                NOW,
            )
            .expect("local run"),
        )
        .expect("register");
    store.apply(run_id, RunMutation::ProcessReady, NOW).expect("ready");
    if working {
        store.apply(run_id, RunMutation::AgentStarted, NOW).expect("working");
    }
    if compacting {
        store.apply(run_id, RunMutation::CompactionStarted, NOW).expect("compacting");
    }
    store
}

fn queue(steering: &[&str], follow_up: &[&str]) -> RpcResponsePayload {
    RpcResponsePayload::ClearedQueue(ClearQueueResult {
        steering: steering.iter().map(|text| (*text).to_owned()).collect(),
        follow_up: follow_up.iter().map(|text| (*text).to_owned()).collect(),
    })
}

fn success(id: &RequestId, command: &str, payload: RpcResponsePayload) -> RpcResponse {
    RpcResponse {
        id: Some(id.as_str().to_owned()),
        command: command.to_owned(),
        success: true,
        cancelled: false,
        payload,
        error: None,
    }
}

fn rejected(id: &RequestId, command: &str) -> RpcResponse {
    RpcResponse {
        id: Some(id.as_str().to_owned()),
        command: command.to_owned(),
        success: false,
        cancelled: false,
        payload: RpcResponsePayload::Empty,
        error: Some("rejected".to_owned()),
    }
}

fn sent_request(directive: StopDirective) -> RpcRequest {
    let StopDirective::Send(request) = directive else {
        panic!("expected request directive");
    };
    request
}

#[test]
fn normal_stop_clears_queue_before_abort_and_keeps_process_reusable() {
    let run_id = RunId { value: 1 };
    let now = 50_000u64;
    let mut store = store_with_activity(run_id, true, false);
    let (mut stop, first) =
        StopTransaction::begin(run_id, now, RuntimeLimits::default(), RequestId::from_wire("clear"), &mut store, NOW)
            .expect("begin stop");
    let clear = sent_request(first);
    assert!(matches!(clear.command, RpcCommand::ClearQueue));

    let abort = sent_request(
        stop.on_response(
            &success(
                &clear.id,
                "clear_queue",
                queue(&["fix this"], &["then test"]),
            ),
            RequestId::from_wire("abort"),
            &mut store,
            NOW,
        )
        .expect("clear queue response"),
    );
    assert!(matches!(abort.command, RpcCommand::Abort));
    assert_eq!(
        store.get(run_id).expect("run").activity_state(),
        ActivityState::Aborting
    );

    assert_eq!(
        stop.on_response(&success(&abort.id, "abort", RpcResponsePayload::Empty), RequestId::from_wire("abort"), &mut store, NOW)
            .expect("abort accepted"),
        StopDirective::WaitForAgentSettled
    );
    store.apply(run_id, RunMutation::AgentSettled, NOW)
        .expect("settled");
    assert_eq!(
        stop.on_agent_settled(),
        StopDirective::Complete {
            recovered: ClearQueueResult {
                steering: vec!["fix this".to_owned()],
                follow_up: vec!["then test".to_owned()],
            }
        }
    );
    assert_eq!(
        store.get(run_id).expect("run").process_state(),
        ProcessState::Ready
    );
    assert_eq!(
        store.get(run_id).expect("run").activity_state(),
        ActivityState::Idle
    );
}

#[test]
fn agent_settling_during_clear_queue_still_recovers_text_but_skips_abort() {
    let run_id = RunId { value: 1 };
    let mut store = store_with_activity(run_id, true, false);
    let (mut stop, first) =
        StopTransaction::begin(run_id, 50_000, RuntimeLimits::default(), RequestId::from_wire("clear"), &mut store, NOW)
            .expect("begin");
    let clear = sent_request(first);
    store.apply(run_id, RunMutation::AgentSettled, NOW)
        .expect("settled during clear");
    assert_eq!(stop.on_agent_settled(), StopDirective::Nothing);

    assert_eq!(
        stop.on_response(
            &success(
                &clear.id,
                "clear_queue",
                queue(&[], &["preserve"]),
            ),
            RequestId::from_wire("abort"),
            &mut store,
            NOW,
        )
        .expect("clear response"),
        StopDirective::Complete {
            recovered: ClearQueueResult {
                steering: Vec::new(),
                follow_up: vec!["preserve".to_owned()],
            }
        }
    );
}

#[test]
fn active_compaction_escalates_after_queue_recovery_instead_of_fake_abort() {
    let run_id = RunId { value: 1 };
    let mut store = store_with_activity(run_id, false, true);
    let (mut stop, first) =
        StopTransaction::begin(run_id, 50_000, RuntimeLimits::default(), RequestId::from_wire("clear"), &mut store, NOW)
            .expect("begin");
    let clear = sent_request(first);
    let directive = stop
        .on_response(
            &success(
                &clear.id,
                "clear_queue",
                queue(&[], &[]),
            ),
            RequestId::from_wire("abort"),
            &mut store,
            NOW,
        )
        .expect("clear response");

    assert!(matches!(
        directive,
        StopDirective::TerminateProcess {
            reason: StopEscalationReason::CompactionHasNoRpcAbort,
            ..
        }
    ));
    assert_eq!(
        store.get(run_id).expect("run").process_state(),
        ProcessState::Stopping
    );
}

#[test]
fn clear_queue_or_abort_rejection_escalates_to_exact_process_termination_path() {
    let run_id = RunId { value: 1 };
    let mut store = store_with_activity(run_id, true, false);
    let (mut stop, first) =
        StopTransaction::begin(run_id, 50_000, RuntimeLimits::default(), RequestId::from_wire("clear"), &mut store, NOW)
            .expect("begin");
    let clear = sent_request(first);
    assert!(matches!(
        stop.on_response(&rejected(&clear.id, "clear_queue"), RequestId::from_wire("abort"), &mut store, NOW)
            .expect("escalate"),
        StopDirective::TerminateProcess {
            reason: StopEscalationReason::ClearQueueRejected,
            recovered: None,
            ..
        }
    ));
    assert_eq!(
        store.get(run_id).expect("run").process_state(),
        ProcessState::Stopping
    );
}

#[test]
fn stop_deadline_never_optimistically_marks_run_idle() {
    let run_id = RunId { value: 1 };
    let now = 50_000u64;
    let limits = RuntimeLimits {
        stop_abort_deadline_ms: 10,
        ..RuntimeLimits::default()
    };
    let mut store = store_with_activity(run_id, true, false);
    let (mut stop, _) = StopTransaction::begin(run_id, now, limits, RequestId::from_wire("clear"), &mut store, NOW).expect("begin");

    assert_eq!(
        stop.on_deadline(now + 9, &mut store, NOW)
            .expect("before deadline"),
        StopDirective::Nothing
    );
    assert!(matches!(
        stop.on_deadline(now + 10, &mut store, NOW)
            .expect("deadline"),
        StopDirective::TerminateProcess {
            reason: StopEscalationReason::RpcDeadlineExpired,
            ..
        }
    ));
    assert_eq!(
        store.get(run_id).expect("run").process_state(),
        ProcessState::Stopping
    );
}

#[test]
fn a_process_that_is_still_starting_is_terminated_at_once() {
    let run_id = RunId { value: 1 };
    let mut store = RuntimeStore::new(RuntimeLimits::default());
    store
        .register(
            RunRecord::starting(
                run_id,
                ProjectId { value: 7 },
                "project".to_owned(),
                ExecutionIsolation::LocalCheckout,
                ProjectTrustPolicy::Ignore,
                NOW,
            )
            .expect("local run"),
        )
        .expect("register");
    let (_, directive) = StopTransaction::begin(
        run_id,
        0,
        RuntimeLimits::default(),
        RequestId::from_wire("clear"),
        &mut store,
        NOW,
    )
    .expect("begin");
    assert!(matches!(
        directive,
        StopDirective::TerminateProcess {
            reason: StopEscalationReason::ProcessStillStarting,
            ..
        }
    ));
    assert_eq!(
        StopTransaction::begin(
            run_id,
            0,
            RuntimeLimits::default(),
            RequestId::from_wire("clear"),
            &mut store,
            NOW,
        )
        .err(),
        Some(StopTransactionError::AlreadyStopping { run_id })
    );
}

#[test]
fn an_unknown_or_ended_run_cannot_be_stopped() {
    let run_id = RunId { value: 1 };
    let mut store = store_with_activity(run_id, false, false);
    let other = RunId { value: 2 };
    assert_eq!(
        StopTransaction::begin(
            other,
            0,
            RuntimeLimits::default(),
            RequestId::from_wire("clear"),
            &mut store,
            NOW,
        )
        .err(),
        Some(StopTransactionError::UnknownRun { run_id: other })
    );
    store
        .apply(run_id, RunMutation::ProcessExited { code: Some(0) }, NOW)
        .expect("exit");
    assert_eq!(
        StopTransaction::begin(
            run_id,
            0,
            RuntimeLimits::default(),
            RequestId::from_wire("clear"),
            &mut store,
            NOW,
        )
        .err(),
        Some(StopTransactionError::TerminalRun { run_id, process: ProcessState::Exited })
    );
}

#[test]
fn a_response_under_another_identity_is_no_answer() {
    let run_id = RunId { value: 1 };
    let mut store = store_with_activity(run_id, true, false);
    let (mut stop, _) = StopTransaction::begin(
        run_id,
        0,
        RuntimeLimits::default(),
        RequestId::from_wire("clear"),
        &mut store,
        NOW,
    )
    .expect("begin");
    let error = stop
        .on_response(
            &success(&RequestId::from_wire("other"), "clear_queue", queue(&[], &[])),
            RequestId::from_wire("abort"),
            &mut store,
            NOW,
        )
        .expect_err("another response");
    assert_eq!(
        error,
        StopTransactionError::UnexpectedResponseId {
            expected: RequestId::from_wire("clear"),
            actual: Some("other".to_owned()),
        }
    );
    assert_eq!(
        error.message(),
        "Stop response id Some(\"other\") did not match expected request clear"
    );
}

#[test]
fn summarization_retry_escalates_like_active_compaction() {
    for working in [false, true] {
        let run_id = RunId { value: 1 };
        let mut store = store_with_activity(run_id, working, false);
        store.apply(run_id, RunMutation::SummarizationRetryStarted, NOW).expect("retry");
        let (mut stop, first) = StopTransaction::begin(
            run_id,
            50_000,
            RuntimeLimits::default(),
            RequestId::from_wire("clear"),
            &mut store,
            NOW,
        )
        .expect("begin");
        let clear = sent_request(first);
        let directive = stop
            .on_response(
                &success(&clear.id, "clear_queue", queue(&["keep"], &[])),
                RequestId::from_wire("abort"),
                &mut store,
                NOW,
            )
            .expect("clear response");
        let StopDirective::TerminateProcess { reason, recovered, .. } = directive else {
            panic!("the process is terminated");
        };
        assert_eq!(reason, StopEscalationReason::CompactionHasNoRpcAbort);
        assert_eq!(recovered.expect("recovered").steering, ["keep"]);
        assert_eq!(stop.phase(), &StopPhase::EscalationRequired);
        assert_eq!(store.get(run_id).expect("run").process_state(), ProcessState::Stopping);
    }
}
