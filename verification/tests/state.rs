use pi_wizard_core::launch::ProjectTrustPolicy;
use pi_wizard_core::rpc::{QueueMode, ThinkingLevel};
use pi_wizard_core::runtime::{
    ActivityState, ComposerAvailability, ExecutionIsolation, GitWorktreeIdentity, ProcessState,
    QueueState, RunFailure, RunFailureKind, RunModelState, RunMutation, RunRecord,
    RunStateObservation, RuntimeError, RuntimeStore,
};
use pi_wizard_core::{ProjectId, RunId, RuntimeLimits};

const STARTED: u64 = 1_000;
const NOW: u64 = 2_000;

fn apply(store: &mut RuntimeStore, id: RunId, mutation: RunMutation) -> Result<(), RuntimeError> {
    store.apply(id, mutation, NOW)
}

fn record(id: RunId) -> RunRecord {
    RunRecord::starting(
        id,
        ProjectId { value: 7 },
        "project".to_owned(),
        ExecutionIsolation::LocalCheckout,
        ProjectTrustPolicy::Ignore,
        STARTED,
    )
    .expect("local run")
}

#[test]
fn lifecycle_timestamps_are_backend_owned_and_terminal_time_is_frozen() {
    let id = RunId { value: 1 };
    let mut store = RuntimeStore::new(RuntimeLimits::default());
    store.register(record(id)).expect("register");
    let started = store.get(id).expect("run").started_unix_ms();
    assert!(started > 0);
    assert_eq!(store.get(id).expect("run").terminal_unix_ms(), None);

    apply(&mut store, id, RunMutation::ProcessExited { code: Some(0) })
        .expect("exit run");
    let run = store.get(id).expect("terminal run");
    assert!(run.terminal_unix_ms().is_some_and(|terminal| terminal > 0));
    assert_eq!(run.started_unix_ms(), started);
    assert_eq!(run.terminal_unix_ms(), Some(NOW));
    assert!(apply(&mut store, id, RunMutation::AgentStarted).is_err());
    assert_eq!(store.get(id).expect("terminal run").terminal_unix_ms(), Some(NOW));
}

#[test]
fn change_revision_is_monotonic_backend_invalidation_state() {
    let id = RunId { value: 1 };
    let mut store = RuntimeStore::new(RuntimeLimits::default());
    store.register(record(id)).expect("register");
    apply(&mut store, id, RunMutation::ProcessReady).expect("ready");
    assert_eq!(store.get(id).expect("run").change_revision(), 0);

    apply(&mut store, id, RunMutation::ChangesMayHaveChanged)
        .expect("first invalidation");
    apply(&mut store, id, RunMutation::ChangesMayHaveChanged)
        .expect("second invalidation");
    let run = store.get(id).expect("run");
    assert_eq!(run.change_revision(), 2);
}

#[test]
fn compaction_blocks_all_composer_submission_without_faking_process_stop() {
    let id = RunId { value: 1 };
    let mut store = RuntimeStore::new(RuntimeLimits::default());
    store.register(record(id)).expect("register");
    apply(&mut store, id, RunMutation::ProcessReady).expect("ready");
    apply(&mut store, id, RunMutation::CompactionStarted)
        .expect("compaction starts");

    let run = store.get(id).expect("run");
    assert_eq!(run.process_state(), ProcessState::Ready);
    assert_eq!(run.activity_state(), ActivityState::Compacting);
    assert_eq!(
        run.composer_availability(),
        ComposerAvailability::BlockedByCompaction
    );

    apply(&mut store, id, RunMutation::CompactionEnded)
        .expect("compaction ends");
    assert_eq!(
        store.get(id).expect("run").composer_availability(),
        ComposerAvailability::Ready
    );
}

#[test]
fn get_state_observation_rehydrates_live_activity_and_session_identity() {
    let id = RunId { value: 1 };
    let mut store = RuntimeStore::new(RuntimeLimits::default());
    store.register(record(id)).expect("register");
    apply(&mut store, id, RunMutation::ProcessReady).expect("ready");
    apply(&mut store, 
            id,
            RunMutation::StateObserved(RunStateObservation {
                model: Some(RunModelState {
                    provider: "openai".to_owned(),
                    id: "gpt-5.6".to_owned(),
                    name: Some("GPT-5.6".to_owned()),
                    supports_images: Some(true),
                }),
                thinking_level: ThinkingLevel::Xhigh,
                is_streaming: true,
                is_compacting: false,
                steering_mode: QueueMode::OneAtATime,
                follow_up_mode: QueueMode::All,
                session_file: Some("session.jsonl".to_owned()),
                session_id: "session-1".to_owned(),
                session_name: Some("feature".to_owned()),
                auto_compaction_enabled: true,
                message_count: 12,
                pending_message_count: 2,
            }),
        )
        .expect("observe state");

    let run = store.get(id).expect("run");
    assert_eq!(run.activity_state(), ActivityState::Working);
    assert_eq!(
        run.session_state().model,
        Some(RunModelState {
            provider: "openai".to_owned(),
            id: "gpt-5.6".to_owned(),
            name: Some("GPT-5.6".to_owned()),
            supports_images: Some(true),
        })
    );
    assert_eq!(
        run.session_state().thinking_level,
        Some(ThinkingLevel::Xhigh)
    );
    assert_eq!(run.session_state().session_id.as_deref(), Some("session-1"));
    assert_eq!(run.session_state().pending_message_count, Some(2));

    apply(&mut store, 
            id,
            RunMutation::StateObserved(RunStateObservation {
                model: None,
                thinking_level: ThinkingLevel::Medium,
                is_streaming: false,
                is_compacting: true,
                steering_mode: QueueMode::All,
                follow_up_mode: QueueMode::OneAtATime,
                session_file: None,
                session_id: "session-1".to_owned(),
                session_name: None,
                auto_compaction_enabled: false,
                message_count: 13,
                pending_message_count: 0,
            }),
        )
        .expect("reconcile state");
    assert_eq!(
        store.get(id).expect("run").activity_state(),
        ActivityState::Compacting
    );
}

#[test]
fn startup_state_observation_populates_identity_without_prematurely_marking_process_ready() {
    let id = RunId { value: 1 };
    let mut store = RuntimeStore::new(RuntimeLimits::default());
    store.register(record(id)).expect("register starting run");
    apply(&mut store, 
            id,
            RunMutation::StateObserved(RunStateObservation {
                model: None,
                thinking_level: ThinkingLevel::Medium,
                is_streaming: false,
                is_compacting: false,
                steering_mode: QueueMode::All,
                follow_up_mode: QueueMode::OneAtATime,
                session_file: None,
                session_id: "startup-session".to_owned(),
                session_name: None,
                auto_compaction_enabled: true,
                message_count: 0,
                pending_message_count: 0,
            }),
        )
        .expect("startup state observation");

    let starting = store.get(id).expect("run");
    assert_eq!(starting.process_state(), ProcessState::Starting);
    assert_eq!(
        starting.session_state().session_id.as_deref(),
        Some("startup-session")
    );
    assert_eq!(
        starting.composer_availability(),
        ComposerAvailability::Unavailable
    );

    apply(&mut store, id, RunMutation::ProcessReady)
        .expect("handshake completes readiness");
    assert_eq!(
        store.get(id).expect("run").process_state(),
        ProcessState::Ready
    );
}

#[test]
fn session_metadata_events_update_only_their_owned_fields() {
    let id = RunId { value: 1 };
    let mut store = RuntimeStore::new(RuntimeLimits::default());
    store.register(record(id)).expect("register");
    apply(&mut store, id, RunMutation::ProcessReady).expect("ready");
    apply(&mut store, id, RunMutation::ThinkingLevelChanged(ThinkingLevel::High))
        .expect("thinking change");
    apply(&mut store, 
            id,
            RunMutation::SessionNameChanged(Some("renamed".to_owned())),
        )
        .expect("name change");

    let session = store.get(id).expect("run").session_state();
    assert_eq!(session.thinking_level, Some(ThinkingLevel::High));
    assert_eq!(session.session_name.as_deref(), Some("renamed"));
    assert!(session.model.is_none());
}

#[test]
fn logical_project_identity_is_independent_from_execution_root() {
    let run_id = RunId { value: 1 };
    let project_id = ProjectId { value: 7 };
    let identity = GitWorktreeIdentity {
        repository_root: "repo".to_owned(),
        worktree_root: "project-worktree".to_owned(),
        branch: "agent/feature".to_owned(),
        base_commit: "abc123".to_owned(),
    };
    let run = RunRecord::starting_with_worktree(
        run_id,
        project_id,
        "project-worktree".to_owned(),
        ExecutionIsolation::GitWorktree,
        ProjectTrustPolicy::Inherit,
        Some(identity.clone()),
        None,
        STARTED,
    )
    .expect("worktree run");

    assert_eq!(run.id(), run_id);
    assert_eq!(run.project_id(), project_id);
    assert_eq!(run.execution_root().as_str(), "project-worktree");
    assert_eq!(run.worktree_identity(), Some(&identity));
}

#[test]
fn worktree_identity_is_required_and_must_contain_execution_root() {
    let id = RunId { value: 1 };
    assert_eq!(
        RunRecord::starting(
            id,
            ProjectId { value: 7 },
            "worktree".to_owned(),
            ExecutionIsolation::GitWorktree,
            ProjectTrustPolicy::Inherit,
            STARTED,
        ),
        Err(RuntimeError::MissingWorktreeIdentity)
    );

    let identity = GitWorktreeIdentity {
        repository_root: "repo".to_owned(),
        worktree_root: "other-worktree".to_owned(),
        branch: "agent/feature".to_owned(),
        base_commit: "abc123".to_owned(),
    };
    assert!(matches!(
        RunRecord::starting_with_worktree(
            id,
            ProjectId { value: 7 },
            "worktree/project".to_owned(),
            ExecutionIsolation::GitWorktree,
            ProjectTrustPolicy::Inherit,
            Some(identity),
            None,
            STARTED,
        ),
        Err(RuntimeError::WorktreeExecutionRootMismatch { .. })
    ));
}

#[test]
fn agent_settled_returns_to_idle_without_ending_process() {
    let id = RunId { value: 1 };
    let mut store = RuntimeStore::new(RuntimeLimits::default());
    store.register(record(id)).expect("register");
    apply(&mut store, id, RunMutation::ProcessReady).expect("ready");
    apply(&mut store, id, RunMutation::AgentStarted).expect("start");
    apply(&mut store, id, RunMutation::AgentSettled).expect("settle");

    let run = store.get(id).expect("run remains registered");
    assert_eq!(run.process_state(), ProcessState::Ready);
    assert_eq!(run.activity_state(), ActivityState::Idle);
    assert_eq!(run.agent_settled_generation(), 1);

    apply(&mut store, id, RunMutation::AgentStarted)
        .expect("same process can run another prompt");
    assert_eq!(
        store.get(id).expect("run").activity_state(),
        ActivityState::Working
    );
}

#[test]
fn abort_requires_active_agent_work() {
    let id = RunId { value: 1 };
    let mut store = RuntimeStore::new(RuntimeLimits::default());
    store.register(record(id)).expect("register");
    apply(&mut store, id, RunMutation::ProcessReady).expect("ready");

    assert_eq!(
        apply(&mut store, id, RunMutation::AbortRequested),
        Err(RuntimeError::AbortWhileIdle)
    );
}

#[test]
fn pending_ui_requests_are_bounded_and_drive_attention_state() {
    let id = RunId { value: 1 };
    let limits = RuntimeLimits {
        max_pending_ui_requests_per_run: 1,
        ..RuntimeLimits::default()
    };
    let mut store = RuntimeStore::new(limits);
    store.register(record(id)).expect("register");
    apply(&mut store, id, RunMutation::ProcessReady).expect("ready");
    apply(&mut store, 
            id,
            RunMutation::UiRequestOpened {
                request_id: "request-a".to_owned(),
            },
        )
        .expect("first request");

    assert_eq!(
        store.get(id).expect("run").activity_state(),
        ActivityState::WaitingForInput
    );
    assert_eq!(
        apply(&mut store, 
            id,
            RunMutation::UiRequestOpened {
                request_id: "request-b".to_owned(),
            },
        ),
        Err(RuntimeError::PendingUiLimit { limit: 1 })
    );
    assert!(
        store
            .get(id)
            .expect("run")
            .has_pending_ui_request("request-a")
    );
}

#[test]
fn ui_request_identity_prevents_cross_resolution() {
    let id = RunId { value: 1 };
    let mut store = RuntimeStore::new(RuntimeLimits::default());
    store.register(record(id)).expect("register");
    apply(&mut store, id, RunMutation::ProcessReady).expect("ready");
    apply(&mut store, 
            id,
            RunMutation::UiRequestOpened {
                request_id: "request-a".to_owned(),
            },
        )
        .expect("open request");

    assert_eq!(
        apply(&mut store, 
            id,
            RunMutation::UiRequestClosed {
                request_id: "request-b".to_owned(),
            },
        ),
        Err(RuntimeError::UnknownUiRequest {
            request_id: "request-b".to_owned(),
        })
    );
    assert!(
        store
            .get(id)
            .expect("run")
            .has_pending_ui_request("request-a")
    );
}

#[test]
fn terminal_process_rejects_further_activity_mutation() {
    let id = RunId { value: 1 };
    let mut store = RuntimeStore::new(RuntimeLimits::default());
    store.register(record(id)).expect("register");
    apply(&mut store, id, RunMutation::ProcessReady).expect("ready");
    apply(&mut store, id, RunMutation::ProcessExited { code: Some(0) })
        .expect("exit");

    assert_eq!(
        apply(&mut store, id, RunMutation::AgentStarted),
        Err(RuntimeError::InvalidProcessState {
            mutation: "agent_started",
            actual: ProcessState::Exited,
        })
    );
}

#[test]
fn live_runs_cannot_be_removed_from_authoritative_store() {
    let id = RunId { value: 1 };
    let mut store = RuntimeStore::new(RuntimeLimits::default());
    store.register(record(id)).expect("register");

    assert_eq!(
        store.remove_terminal(id),
        Err(RuntimeError::RemoveLiveRun { run_id: id })
    );
}

#[test]
fn failed_run_wire_shape_exposes_bounded_failure_and_exit_code_contract() {
    let id = RunId { value: 1 };
    let mut run = record(id);
    run.apply(
        RunMutation::ProcessFailed {
            failure: RunFailure::bounded(
                RunFailureKind::UnexpectedExit,
                "process failed with a deliberately longer detail",
                20,
            ),
            code: Some(17),
        },
        RuntimeLimits::default().max_pending_ui_requests_per_run,
        NOW,
    )
    .expect("fail run");

    assert_eq!(run.process_state(), ProcessState::Failed);
    assert_eq!(run.exit_code(), Some(17));
    assert_eq!(
        run.failure(),
        Some(&RunFailure {
            kind: RunFailureKind::UnexpectedExit,
            detail: "rately longer detail".to_owned(),
            detail_truncated: true,
        })
    );
}

#[test]
fn uncertain_stop_is_quarantined_and_cannot_accept_more_activity() {
    let id = RunId { value: 1 };
    let limits = RuntimeLimits::default();
    let mut store = RuntimeStore::new(limits);
    store.register(record(id)).expect("register");
    apply(&mut store, id, RunMutation::ProcessReady).expect("ready");
    apply(&mut store, id, RunMutation::BeginStop).expect("begin stop");
    apply(&mut store, 
            id,
            RunMutation::ProcessQuarantined {
                failure: RunFailure::from_runtime_limits(
                    RunFailureKind::Stop,
                    "termination deadline expired",
                    limits,
                ),
            },
        )
        .expect("quarantine");

    assert_eq!(
        store.get(id).expect("run").process_state(),
        ProcessState::Quarantined
    );
    assert_eq!(
        apply(&mut store, id, RunMutation::AgentStarted),
        Err(RuntimeError::InvalidProcessState {
            mutation: "agent_started",
            actual: ProcessState::Quarantined,
        })
    );
    store
        .remove_terminal(id)
        .expect("quarantined run is removable");
}

#[test]
fn queue_counts_and_revisions_follow_every_mutation() {
    let id = RunId { value: 1 };
    let mut store = RuntimeStore::new(RuntimeLimits::default());
    store.register(record(id)).expect("register");
    assert_eq!(store.revision(), 1);
    apply(&mut store, id, RunMutation::ProcessReady).expect("ready");
    apply(
        &mut store,
        id,
        RunMutation::QueueChanged(QueueState { steering: 2, follow_up: 3 }),
    )
    .expect("queue");
    let run = store.get(id).expect("run");
    assert_eq!(run.queue(), QueueState { steering: 2, follow_up: 3 });
    assert_eq!(store.revision(), 3);
    let revision = run.revision();
    assert!(apply(&mut store, id, RunMutation::AbortRequested).is_err());
    assert_eq!(store.get(id).expect("run").revision(), revision);
    assert_eq!(store.revision(), 3);
}

#[test]
fn a_run_is_registered_once_and_an_unknown_run_takes_nothing() {
    let id = RunId { value: 1 };
    let mut store = RuntimeStore::new(RuntimeLimits::default());
    store.register(record(id)).expect("register");
    assert_eq!(
        store.register(record(id)),
        Err(RuntimeError::DuplicateRun { run_id: id })
    );
    let other = RunId { value: 2 };
    assert_eq!(
        apply(&mut store, other, RunMutation::ProcessReady),
        Err(RuntimeError::UnknownRun { run_id: other })
    );
    assert_eq!(
        store.remove_terminal(other),
        Err(RuntimeError::UnknownRun { run_id: other })
    );
    assert_eq!(store.len(), 1);
    assert!(!store.is_empty());
}

#[test]
fn a_local_checkout_holds_no_worktree() {
    let identity = GitWorktreeIdentity {
        repository_root: "repo".to_owned(),
        worktree_root: "worktree".to_owned(),
        branch: "branch".to_owned(),
        base_commit: "abc".to_owned(),
    };
    assert_eq!(
        RunRecord::starting_with_worktree(
            RunId { value: 1 },
            ProjectId { value: 7 },
            "worktree".to_owned(),
            ExecutionIsolation::LocalCheckout,
            ProjectTrustPolicy::Inherit,
            Some(identity),
            None,
            STARTED,
        ),
        Err(RuntimeError::UnexpectedWorktreeIdentity)
    );
}

#[test]
fn failures_are_told_in_full_where_they_fit() {
    let failure = RunFailure::bounded(RunFailureKind::Stop, "short", 20);
    assert_eq!(failure.detail, "short");
    assert!(!failure.detail_truncated);
}
