//! What holds of every run through every change of its state.
use vstd::prelude::*;

use crate::ids::RunId;
use crate::runtime::state::{
    ActivityState, ComposerAvailability, ProcessState, RunMutation, RunRecordView, RuntimeError,
    RuntimeStoreView,
};

verus! {

/// A run whose process has ended accepts no further mutation, so that its
/// terminal time, exit code and failure never change again.
pub proof fn terminal_run_is_final(run: RunRecordView, mutation: RunMutation, max: usize)
    requires
        run.process.terminal(),
    ensures
        run.refusal(mutation, max) == Some(
            RuntimeError::InvalidProcessState {
                mutation: mutation.spec_name(),
                actual: run.process,
            },
        ),
{
}

/// No mutation changes who a run is or where it executes.
pub proof fn identity_never_changes(run: RunRecordView, mutation: RunMutation, now: u64)
    ensures
        run.applied(mutation, now).id == run.id,
        run.applied(mutation, now).project_id == run.project_id,
        run.applied(mutation, now).execution_root == run.execution_root,
        run.applied(mutation, now).execution_isolation == run.execution_isolation,
        run.applied(mutation, now).worktree == run.worktree,
        run.applied(mutation, now).project_trust == run.project_trust,
        run.applied(mutation, now).started_unix_ms == run.started_unix_ms,
{
}

/// Revisions and generations never go back.
pub proof fn counters_never_go_back(run: RunRecordView, mutation: RunMutation, now: u64)
    ensures
        run.applied(mutation, now).revision >= run.revision,
        run.revision < u64::MAX ==> run.applied(mutation, now).revision == run.revision + 1,
        run.applied(mutation, now).change_revision >= run.change_revision,
        run.applied(mutation, now).assistant_message_generation
            >= run.assistant_message_generation,
        run.applied(mutation, now).agent_settled_generation >= run.agent_settled_generation,
        run.applied(mutation, now).session_replacement_generation
            >= run.session_replacement_generation,
{
}

/// A run never holds more open UI requests than its limit.
pub proof fn pending_ui_requests_stay_bounded(
    run: RunRecordView,
    mutation: RunMutation,
    max: usize,
    now: u64,
)
    requires
        run.pending_ui_requests.finite(),
        run.pending_ui_requests.len() <= max,
        run.refusal(mutation, max) is None,
    ensures
        run.applied(mutation, now).pending_ui_requests.finite(),
        run.applied(mutation, now).pending_ui_requests.len() <= max,
{
}

/// Closing the request that was just opened leaves the same requests open.
pub proof fn closing_undoes_opening(
    run: RunRecordView,
    request_id: String,
    max: usize,
    opened_at: u64,
    closed_at: u64,
)
    requires
        run.refusal(RunMutation::UiRequestOpened { request_id }, max) is None,
    ensures
        ({
            let opened = run.applied(RunMutation::UiRequestOpened { request_id }, opened_at);
            let close = RunMutation::UiRequestClosed { request_id };
            &&& opened.refusal(close, max) is None
            &&& opened.applied(close, closed_at).pending_ui_requests == run.pending_ui_requests
        }),
{
    let opened = run.applied(RunMutation::UiRequestOpened { request_id }, opened_at);
    let closed = opened.applied(RunMutation::UiRequestClosed { request_id }, closed_at);
    assert(closed.pending_ui_requests =~= run.pending_ui_requests);
}

/// Closing one request never closes another.
pub proof fn closing_touches_no_other_request(
    run: RunRecordView,
    request_id: String,
    other: Seq<char>,
    now: u64,
)
    requires
        other != request_id@,
    ensures
        run.applied(
            RunMutation::UiRequestClosed { request_id },
            now,
        ).pending_ui_requests.contains(other) == run.pending_ui_requests.contains(other),
{
}

/// Settling ends the agent's work but not the process, which can work again.
pub proof fn settling_keeps_the_process(run: RunRecordView, max: usize, now: u64, later: u64)
    requires
        run.process == ProcessState::Ready,
    ensures
        ({
            let settled = run.applied(RunMutation::AgentSettled, now);
            &&& run.refusal(RunMutation::AgentSettled, max) is None
            &&& settled.process == ProcessState::Ready
            &&& !settled.agent_working
            &&& !run.compacting && run.pending_ui_requests.len() == 0 ==> settled.activity()
                == ActivityState::Idle
            &&& settled.refusal(RunMutation::AgentStarted, max) is None
            &&& settled.applied(RunMutation::AgentStarted, later).agent_working
        }),
{
}

/// Compaction blocks the composer and leaves the process as it is.
pub proof fn compaction_only_blocks_the_composer(run: RunRecordView, max: usize, now: u64)
    requires
        run.process == ProcessState::Ready,
    ensures
        ({
            let compacting = run.applied(RunMutation::CompactionStarted, now);
            let ended = compacting.applied(RunMutation::CompactionEnded, now);
            &&& run.refusal(RunMutation::CompactionStarted, max) is None
            &&& compacting.process == ProcessState::Ready
            &&& compacting.availability() == ComposerAvailability::BlockedByCompaction
            &&& compacting.refusal(RunMutation::CompactionEnded, max) is None
            &&& !run.compacting ==> ended.availability() == run.availability()
        }),
{
}

/// Observing the state of a starting process fills in its session and does not
/// make it ready.
pub proof fn observation_does_not_make_ready(run: RunRecordView, mutation: RunMutation, now: u64)
    requires
        mutation is StateObserved,
        run.process == ProcessState::Starting,
    ensures
        run.applied(mutation, now).process == ProcessState::Starting,
        run.applied(mutation, now).availability() == ComposerAvailability::Unavailable,
        run.applied(mutation, now).session.session_id is Some,
{
}

/// A process is quarantined only once a stop has begun.
pub proof fn quarantine_follows_a_stop(run: RunRecordView, mutation: RunMutation, max: usize, now: u64)
    requires
        run.refusal(mutation, max) is None,
        run.applied(mutation, now).process == ProcessState::Quarantined,
    ensures
        run.process == ProcessState::Stopping,
{
}

/// A mutation of one run leaves every other run as it was.
pub proof fn mutation_touches_one_run(
    store: RuntimeStoreView,
    run_id: RunId,
    other: RunId,
    mutation: RunMutation,
    now: u64,
)
    requires
        other != run_id,
        store.runs.contains_key(run_id),
    ensures
        store.applied(run_id, mutation, now).runs.contains_key(other) == store.runs.contains_key(
            other,
        ),
        store.runs.contains_key(other) ==> store.applied(run_id, mutation, now).runs[other]
            == store.runs[other],
        store.applied(run_id, mutation, now).revision >= store.revision,
{
}

} // verus!
