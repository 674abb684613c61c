//! What each change of state does to a run, and when it is accepted.
use vstd::prelude::*;

use crate::ids::{ProjectId, RunId};
use crate::launch::ProjectTrustPolicy;
use crate::rpc::RpcStateSnapshot;
use crate::runtime::rpc_controller::observation_of;
use crate::runtime::state::{
    ActivityState, ComposerAvailability, ExecutionIsolation, ProcessState, RunMutation,
    RunRecordView, RuntimeError, RuntimeStoreView,
};
use crate::worktree::GitWorktreeIdentity;

verus! {

/// Whether a run has not ended.
pub open spec fn lives(run: RunRecordView) -> bool {
    run.process == ProcessState::Starting || run.process == ProcessState::Ready || run.process
        == ProcessState::Stopping
}

/// Whether a mutation ends a run.
pub open spec fn ends(mutation: RunMutation) -> bool {
    mutation is ProcessExited || mutation is ProcessFailed || mutation is ProcessQuarantined
}

/// Which state of the process lets a mutation happen: a process becomes ready once, its state
/// can be observed and it can be stopped before it stops, it can end until it has ended, and it
/// is given up only while it stops. Everything else asks for a ready process.
pub proof fn the_process_decides_what_may_happen(run: RunRecordView, mutation: RunMutation, max: usize)
    ensures
        ({
            let refused = run.refusal(mutation, max);
            let process = run.process;
            &&& mutation is ProcessReady ==> (refused is None <==> process
                == ProcessState::Starting)
            &&& mutation is StateObserved || mutation is BeginStop ==> (refused is None <==> process
                == ProcessState::Starting || process == ProcessState::Ready)
            &&& mutation is ProcessExited || mutation is ProcessFailed ==> (refused is None
                <==> lives(run))
            &&& mutation is ProcessQuarantined ==> (refused is None <==> process
                == ProcessState::Stopping)
            &&& mutation is UiRequestOpened ==> (refused is None <==> process
                == ProcessState::Ready && !run.pending_ui_requests.contains(
                mutation->UiRequestOpened_request_id@,
            ) && run.pending_ui_requests.len() < max)
            &&& mutation is UiRequestClosed ==> (refused is None <==> process
                == ProcessState::Ready && run.pending_ui_requests.contains(
                mutation->UiRequestClosed_request_id@,
            ))
            &&& mutation is AbortRequested ==> (refused is None <==> process == ProcessState::Ready
                && run.agent_working)
            &&& !(mutation is ProcessReady || mutation is StateObserved || mutation is BeginStop
                || ends(mutation) || mutation is UiRequestOpened || mutation is UiRequestClosed
                || mutation is AbortRequested) ==> (refused is None <==> process
                == ProcessState::Ready)
        }),
{
}

/// A refusal says what is wrong: the state of the process where that is it, and else what
/// the mutation asks for.
pub proof fn refusals_say_what_is_wrong(run: RunRecordView, mutation: RunMutation, max: usize)
    ensures
        match run.refusal(mutation, max) {
            Some(RuntimeError::InvalidProcessState { actual, .. }) => actual == run.process,
            Some(RuntimeError::DuplicateUiRequest { request_id }) => mutation == (
            RunMutation::UiRequestOpened { request_id }) && run.pending_ui_requests.contains(
                request_id@,
            ),
            Some(RuntimeError::PendingUiLimit { limit }) => mutation is UiRequestOpened && limit
                == max && run.pending_ui_requests.len() >= max,
            Some(RuntimeError::UnknownUiRequest { request_id }) => mutation == (
            RunMutation::UiRequestClosed { request_id }) && !run.pending_ui_requests.contains(
                request_id@,
            ),
            Some(RuntimeError::AbortWhileIdle) => mutation is AbortRequested && !run.agent_working,
            Some(_) => false,
            None => true,
        },
        run.process == ProcessState::Ready && run.refusal(mutation, max) is Some && !(mutation
            is ProcessReady || mutation is ProcessQuarantined) ==> !(run.refusal(mutation, max)->0
            is InvalidProcessState),
{
}

/// What each mutation sets.
pub proof fn mutations_set_what_they_name(run: RunRecordView, mutation: RunMutation, now: u64)
    ensures
        ({
            let after = run.applied(mutation, now);
            &&& mutation is ProcessReady ==> after.process == ProcessState::Ready
            &&& mutation is AgentStarted ==> after.agent_working && !after.abort_requested
                && !after.retry_waiting
            &&& mutation is AgentSettled ==> !after.agent_working && !after.abort_requested
                && !after.retry_waiting && !after.summarization_retry_active && (
            run.agent_settled_generation < u64::MAX ==> after.agent_settled_generation
                == run.agent_settled_generation + 1)
            &&& mutation is AssistantMessageCompleted ==> after.last_assistant_stop_reason == Some(
                mutation->stop_reason,
            ) && after.last_assistant_error
                == mutation->AssistantMessageCompleted_error_message && (
            run.assistant_message_generation < u64::MAX ==> after.assistant_message_generation
                == run.assistant_message_generation + 1)
            &&& mutation is SessionReplacementAccepted ==> after.last_assistant_stop_reason is None
                && after.last_assistant_error is None && (run.session_replacement_generation
                < u64::MAX ==> after.session_replacement_generation
                == run.session_replacement_generation + 1)
            &&& mutation is AutoRetryStarted ==> after.retry_waiting
            &&& mutation is AutoRetryEnded ==> !after.retry_waiting
            &&& mutation is SummarizationRetryStarted ==> after.summarization_retry_active
            &&& mutation is SummarizationRetryEnded ==> !after.summarization_retry_active
            &&& mutation is CompactionStarted ==> after.compacting
            &&& mutation is CompactionEnded ==> !after.compacting
            &&& mutation is UiRequestOpened ==> after.pending_ui_requests
                == run.pending_ui_requests.insert(mutation->UiRequestOpened_request_id@)
            &&& mutation is UiRequestClosed ==> after.pending_ui_requests
                == run.pending_ui_requests.remove(mutation->UiRequestClosed_request_id@)
            &&& mutation is AbortRequested ==> after.abort_requested
            &&& mutation is QueueChanged ==> after.queue == mutation->QueueChanged_0
            &&& mutation is ThinkingLevelChanged ==> after.session.thinking_level == Some(
                mutation->ThinkingLevelChanged_0,
            )
            &&& mutation is SessionNameChanged ==> after.session.session_name
                == mutation->SessionNameChanged_0
            &&& mutation is ChangesMayHaveChanged ==> (run.change_revision < u64::MAX
                ==> after.change_revision == run.change_revision + 1)
            &&& mutation is BeginStop ==> after.process == ProcessState::Stopping
                && after.abort_requested == run.agent_working
            &&& mutation is ProcessExited ==> after.process == ProcessState::Exited
                && after.exit_code == mutation->ProcessExited_code && after.failure == run.failure
            &&& mutation is ProcessFailed ==> after.process == ProcessState::Failed
                && after.exit_code == mutation->ProcessFailed_code && after.failure == Some(
                mutation->ProcessFailed_failure,
            )
            &&& mutation is ProcessQuarantined ==> after.process == ProcessState::Quarantined
                && after.failure == Some(mutation->ProcessQuarantined_failure) && after.exit_code
                == run.exit_code
        }),
{
}

/// A run that ends does nothing any more, and the time of its end is kept.
pub proof fn an_ended_run_does_nothing(run: RunRecordView, mutation: RunMutation, now: u64)
    requires
        ends(mutation),
    ensures
        ({
            let after = run.applied(mutation, now);
            &&& !lives(after)
            &&& after.terminal_unix_ms == Some(now)
            &&& !after.agent_working && !after.compacting && !after.abort_requested
            &&& !after.retry_waiting && !after.summarization_retry_active
            &&& after.pending_ui_requests == Set::<Seq<char>>::empty()
            &&& after.queue.steering == 0 && after.queue.follow_up == 0
            &&& after.activity() == ActivityState::Idle
            &&& after.availability() == ComposerAvailability::Unavailable
            &&& after.session == run.session
        }),
{
}

/// What a mutation does not name, it leaves alone.
pub proof fn mutations_leave_the_rest_alone(run: RunRecordView, mutation: RunMutation, now: u64)
    ensures
        ({
            let after = run.applied(mutation, now);
            let ended = ends(mutation);
            &&& !ended && !(mutation is ProcessReady || mutation is BeginStop) ==> after.process
                == run.process
            &&& !ended ==> after.terminal_unix_ms == run.terminal_unix_ms && after.exit_code
                == run.exit_code && after.failure == run.failure
            &&& !ended && !(mutation is AgentStarted || mutation is AgentSettled || mutation
                is StateObserved) ==> after.agent_working == run.agent_working
            &&& !ended && !(mutation is CompactionStarted || mutation is CompactionEnded || mutation
                is StateObserved) ==> after.compacting == run.compacting
            &&& !ended && !(mutation is AgentStarted || mutation is AgentSettled || mutation
                is AbortRequested || mutation is StateObserved || mutation is BeginStop)
                ==> after.abort_requested == run.abort_requested
            &&& !ended && !(mutation is AgentStarted || mutation is AgentSettled || mutation
                is AutoRetryStarted || mutation is AutoRetryEnded) ==> after.retry_waiting
                == run.retry_waiting
            &&& !ended && !(mutation is AgentSettled || mutation is SummarizationRetryStarted
                || mutation is SummarizationRetryEnded) ==> after.summarization_retry_active
                == run.summarization_retry_active
            &&& !ended && !(mutation is UiRequestOpened || mutation is UiRequestClosed)
                ==> after.pending_ui_requests == run.pending_ui_requests
            &&& !ended && !(mutation is QueueChanged) ==> after.queue == run.queue
            &&& !(mutation is StateObserved || mutation is ThinkingLevelChanged || mutation
                is SessionNameChanged) ==> after.session == run.session
            &&& mutation is ThinkingLevelChanged || mutation is SessionNameChanged ==> {
                &&& after.session.model == run.session.model
                &&& after.session.session_id == run.session.session_id
                &&& after.session.session_file == run.session.session_file
                &&& after.session.steering_mode == run.session.steering_mode
                &&& after.session.follow_up_mode == run.session.follow_up_mode
                &&& after.session.message_count == run.session.message_count
                &&& after.session.pending_message_count == run.session.pending_message_count
                &&& after.session.auto_compaction_enabled == run.session.auto_compaction_enabled
            }
            &&& mutation is ThinkingLevelChanged ==> after.session.session_name
                == run.session.session_name
            &&& mutation is SessionNameChanged ==> after.session.thinking_level
                == run.session.thinking_level
            &&& !(mutation is ChangesMayHaveChanged) ==> after.change_revision
                == run.change_revision
            &&& !(mutation is AssistantMessageCompleted) ==> after.assistant_message_generation
                == run.assistant_message_generation
            &&& !(mutation is AssistantMessageCompleted || mutation is SessionReplacementAccepted)
                ==> after.last_assistant_stop_reason == run.last_assistant_stop_reason
                && after.last_assistant_error == run.last_assistant_error
            &&& !(mutation is AgentSettled) ==> after.agent_settled_generation
                == run.agent_settled_generation
            &&& !(mutation is SessionReplacementAccepted) ==> after.session_replacement_generation
                == run.session_replacement_generation
        }),
{
}

/// What Pi says of its state is what the run shows of it, field by field.
pub proof fn an_observed_state_is_shown(run: RunRecordView, snapshot: RpcStateSnapshot, now: u64)
    ensures
        ({
            let after = run.applied(RunMutation::StateObserved(observation_of(snapshot)), now);
            let session = after.session;
            &&& after.agent_working == snapshot.is_streaming
            &&& after.compacting == snapshot.is_compacting
            &&& after.abort_requested <==> run.abort_requested && snapshot.is_streaming
            &&& session.model is Some <==> snapshot.model is Some
            &&& snapshot.model is Some ==> {
                &&& session.model->0.provider == snapshot.model->0.provider
                &&& session.model->0.id == snapshot.model->0.id
                &&& session.model->0.name == snapshot.model->0.name
                &&& session.model->0.supports_images == snapshot.model->0.supports_images
            }
            &&& session.thinking_level == Some(snapshot.thinking_level)
            &&& session.steering_mode == Some(snapshot.steering_mode)
            &&& session.follow_up_mode == Some(snapshot.follow_up_mode)
            &&& session.session_file == snapshot.session_file
            &&& session.session_id == Some(snapshot.session_id)
            &&& session.session_name == snapshot.session_name
            &&& session.auto_compaction_enabled == Some(snapshot.auto_compaction_enabled)
            &&& session.message_count == Some(snapshot.message_count)
            &&& session.pending_message_count == Some(snapshot.pending_message_count)
        }),
{
}

/// What a run is seen to do: an abort that was asked for goes before compaction, compaction
/// before a question, and a question before work; and it is idle where none of these is.
pub proof fn activity_is_what_matters_most(run: RunRecordView)
    requires
        run.pending_ui_requests.finite(),
    ensures
        ({
            let asked = run.pending_ui_requests != Set::<Seq<char>>::empty();
            &&& run.activity() == ActivityState::Aborting <==> run.abort_requested
            &&& run.activity() == ActivityState::Compacting <==> !run.abort_requested
                && run.compacting
            &&& run.activity() == ActivityState::WaitingForInput <==> !run.abort_requested
                && !run.compacting && asked
            &&& run.activity() == ActivityState::Working <==> !run.abort_requested
                && !run.compacting && !asked && run.agent_working
            &&& run.activity() == ActivityState::Idle <==> !run.abort_requested && !run.compacting
                && !asked && !run.agent_working
        }),
{
    if run.pending_ui_requests.len() == 0 {
        run.pending_ui_requests.lemma_len0_is_empty();
    }
}

/// What can be sent to a run: nothing unless its process is ready, nothing while it compacts,
/// and steering or a follow-up while the agent works.
pub proof fn the_composer_follows_the_run(run: RunRecordView)
    ensures
        run.availability() == ComposerAvailability::Unavailable <==> run.process
            != ProcessState::Ready,
        run.availability() == ComposerAvailability::BlockedByCompaction <==> run.process
            == ProcessState::Ready && run.compacting,
        run.availability() == ComposerAvailability::AgentWorking <==> run.process
            == ProcessState::Ready && !run.compacting && run.agent_working,
        run.availability() == ComposerAvailability::Ready <==> run.process == ProcessState::Ready
            && !run.compacting && !run.agent_working,
{
}

/// A run starts with nothing going on: its process is starting, and nothing is known yet of
/// its session.
pub proof fn a_run_starts_with_nothing_going_on(
    id: RunId,
    project_id: ProjectId,
    execution_root: String,
    execution_isolation: ExecutionIsolation,
    project_trust: ProjectTrustPolicy,
    worktree: Option<GitWorktreeIdentity>,
    started_unix_ms: u64,
)
    ensures
        ({
            let run = RunRecordView::starting(
                id,
                project_id,
                execution_root,
                execution_isolation,
                project_trust,
                worktree,
                started_unix_ms,
            );
            &&& run.id == id && run.project_id == project_id
            &&& run.execution_root == execution_root
            &&& run.execution_isolation == execution_isolation
            &&& run.project_trust == project_trust && run.worktree == worktree
            &&& run.started_unix_ms == started_unix_ms && run.terminal_unix_ms is None
            &&& run.process == ProcessState::Starting
            &&& !run.agent_working && !run.compacting && !run.abort_requested
            &&& !run.retry_waiting && !run.summarization_retry_active
            &&& run.pending_ui_requests == Set::<Seq<char>>::empty()
            &&& run.session.session_id is None && run.session.model is None
            &&& run.exit_code is None && run.failure is None
            &&& run.change_revision == 0 && run.assistant_message_generation == 0
            &&& run.agent_settled_generation == 0 && run.session_replacement_generation == 0
            &&& run.revision == 0
        }),
{
}

/// A change of one run makes the whole of the runs newer, and leaves every other run alone.
/// A run that is not known cannot change.
pub proof fn a_change_makes_the_runs_newer(
    store: RuntimeStoreView,
    run_id: RunId,
    other: RunId,
    mutation: RunMutation,
    now: u64,
)
    requires
        other != run_id,
    ensures
        ({
            let after = store.applied(run_id, mutation, now);
            &&& store.revision < u64::MAX ==> after.revision == store.revision + 1
            &&& after.runs.contains_key(other) <==> store.runs.contains_key(other)
            &&& store.runs.contains_key(other) ==> after.runs[other] == store.runs[other]
            &&& after.runs[run_id] == store.runs[run_id].applied(mutation, now)
            &&& after.max_pending_ui_requests_per_run == store.max_pending_ui_requests_per_run
        }),
        !store.runs.contains_key(run_id) ==> store.refusal(run_id, mutation) == Some(
            RuntimeError::UnknownRun { run_id },
        ),
        store.runs.contains_key(run_id) ==> store.refusal(run_id, mutation)
            == store.runs[run_id].refusal(mutation, store.max_pending_ui_requests_per_run),
{
}

} // verus!
