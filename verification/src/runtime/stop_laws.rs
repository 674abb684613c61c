//! What a Stop does in each of its phases, and what the draft becomes after it.
use vstd::prelude::*;

use crate::ids::{RequestId, RunId};
use crate::limits::RuntimeLimits;
use crate::rpc::{all_bytes, ClearQueueView, RpcCommand, RpcRequest, RpcResponse};
use crate::runtime::manager::stops::begun_stop;
use crate::runtime::state::{ActivityState, ProcessState, RuntimeStoreView};
use crate::runtime::stop::{
    StopDirectiveView, StopEscalationReason, StopPhase, StopTransactionError, StopTransactionView,
};
use crate::runtime::stop_recovery::{joined_lines, recovered_bytes, recovered_parts};
use crate::text::{byte_len, texts_view};
use crate::timeline_laws::in_lines;

verus! {

/// Whether a directive terminates the process for this reason, within the time that the
/// limits give, and hands on what was recovered.
pub open spec fn terminates(
    directive: StopDirectiveView,
    stop: StopTransactionView,
    reason: StopEscalationReason,
    recovered: Option<ClearQueueView>,
) -> bool {
    &&& directive is TerminateProcess
    &&& directive->reason == reason
    &&& directive->TerminateProcess_recovered == recovered
    &&& directive->TerminateProcess_termination_deadline_ms == stop.termination_deadline_ms
}

/// A Stop of a ready process asks for its queue first and leaves the process alone; a process
/// that is still starting is terminated. A process that is stopping or has ended cannot be
/// stopped again. Both deadlines are those of the limits.
pub proof fn a_stop_asks_for_the_queue_first(
    run_id: RunId,
    now_ms: u64,
    limits: RuntimeLimits,
    clear_queue_id: RequestId,
    store: RuntimeStoreView,
    now: u64,
)
    ensures
        ({
            let (after, result) = begun_stop(run_id, now_ms, limits, clear_queue_id, store, now);
            let process = store.runs[run_id].process;
            &&& !store.runs.contains_key(run_id) ==> result is Err && result->Err_0 == (
            StopTransactionError::UnknownRun { run_id })
            &&& store.runs.contains_key(run_id) ==> {
                &&& result is Ok <==> process == ProcessState::Starting || process
                    == ProcessState::Ready
                &&& process == ProcessState::Stopping ==> result->Err_0 == (
                StopTransactionError::AlreadyStopping { run_id })
                &&& result is Err && process != ProcessState::Stopping ==> result->Err_0 == (
                StopTransactionError::TerminalRun { run_id, process })
                &&& process == ProcessState::Ready ==> {
                    let (stop, directive) = result->Ok_0;
                    &&& after == store
                    &&& stop.phase == (StopPhase::AwaitingClearQueue {
                        request_id: clear_queue_id,
                    })
                    &&& directive == StopDirectiveView::Send(
                        RpcRequest { id: clear_queue_id, command: RpcCommand::ClearQueue },
                    )
                }
                &&& process == ProcessState::Starting ==> {
                    let (stop, directive) = result->Ok_0;
                    &&& after.runs[run_id].process == ProcessState::Stopping
                    &&& stop.phase is EscalationRequired
                    &&& terminates(
                        directive,
                        stop,
                        StopEscalationReason::ProcessStillStarting,
                        None,
                    )
                }
                &&& result is Ok ==> {
                    let stop = result->Ok_0.0;
                    &&& stop.run_id == run_id && stop.limits == limits
                    &&& stop.recovered is None && !stop.agent_settled
                    &&& now_ms + limits.stop_abort_deadline_ms <= u64::MAX ==> stop.rpc_deadline_ms
                        == now_ms + limits.stop_abort_deadline_ms
                    &&& stop.termination_deadline_ms == limits.stop_termination_deadline_ms
                }
                &&& result is Err ==> after == store
            }
        }),
{
}

/// What follows from the answer to the request for the queue: without a valid queue the
/// process is terminated; with it an agent that rests ends the Stop and hands the queue back,
/// and one that works is asked to abort.
pub proof fn a_recovered_queue_leads_on(
    stop: StopTransactionView,
    request_id: RequestId,
    response: RpcResponse,
    abort_id: RequestId,
    store: RuntimeStoreView,
    now: u64,
)
    requires
        stop.phase == (StopPhase::AwaitingClearQueue { request_id }),
        store.runs.contains_key(stop.run_id),
        store.runs[stop.run_id].process == ProcessState::Ready,
    ensures
        ({
            let step = stop.responded(response, abort_id, store, now);
            let run = store.runs[stop.run_id];
            let mine = response.id is Some && response.id->0@ == request_id@;
            let accepted = response.success && !response.cancelled;
            let valid = response.payload is ClearedQueue && (all_bytes(
                response.payload->ClearedQueue_0.steering@,
            ) + all_bytes(response.payload->ClearedQueue_0.follow_up@)
                <= stop.limits.max_recovered_queue_bytes_per_run);
            let queue = response.payload->ClearedQueue_0@;
            let settled = stop.agent_settled || run.activity() == ActivityState::Idle;
            let rests = settled && !(!stop.agent_settled && run.summarization_retry_active
                && !run.abort_requested);
            &&& !mine ==> step.result is Err && step.stop == stop && step.store == store
            &&& mine && !accepted ==> step.result is Ok && terminates(
                step.result->Ok_0,
                stop,
                StopEscalationReason::ClearQueueRejected,
                stop.recovered,
            )
            &&& mine && accepted && !(response.payload is ClearedQueue) ==> step.result is Ok
                && terminates(
                step.result->Ok_0,
                stop,
                StopEscalationReason::ClearQueueInvalidResponse,
                stop.recovered,
            )
            &&& mine && accepted && valid ==> step.stop.recovered == Some(queue)
            &&& mine && accepted && valid && rests ==> {
                &&& step.result is Ok
                &&& step.result->Ok_0 == (StopDirectiveView::Complete { recovered: queue })
                &&& step.stop.phase is Complete
                &&& step.store == store
            }
            &&& mine && accepted && valid && !stop.agent_settled && run.agent_working
                && !run.compacting && !run.summarization_retry_active ==> {
                &&& step.result is Ok
                &&& step.result->Ok_0 == StopDirectiveView::Send(
                    RpcRequest { id: abort_id, command: RpcCommand::Abort },
                )
                &&& step.stop.phase == (StopPhase::AwaitingAbort { request_id: abort_id })
                &&& step.store.runs[stop.run_id].abort_requested
                &&& step.store.runs[stop.run_id].process == ProcessState::Ready
            }
        }),
{
}

/// What follows from the answer to the abort: refused, the process is terminated; accepted,
/// the Stop waits for the agent to settle, or ends at once where it has.
pub proof fn an_abort_waits_for_the_agent(
    stop: StopTransactionView,
    request_id: RequestId,
    response: RpcResponse,
    abort_id: RequestId,
    store: RuntimeStoreView,
    now: u64,
)
    requires
        stop.phase == (StopPhase::AwaitingAbort { request_id }),
        store.runs.contains_key(stop.run_id),
    ensures
        ({
            let step = stop.responded(response, abort_id, store, now);
            let mine = response.id is Some && response.id->0@ == request_id@;
            let accepted = response.success && !response.cancelled;
            &&& !mine ==> step.result is Err && step.stop == stop && step.store == store
            &&& mine && !accepted ==> step.result is Ok && terminates(
                step.result->Ok_0,
                stop,
                StopEscalationReason::AbortRejected,
                stop.recovered,
            )
            &&& mine && accepted && !stop.agent_settled ==> step.result is Ok && step.result->Ok_0
                is WaitForAgentSettled && step.stop.phase is WaitingForAgentSettled && step.store
                == store
            &&& mine && accepted && stop.agent_settled && stop.recovered is Some ==> step.result
                is Ok && step.result->Ok_0 == (StopDirectiveView::Complete {
                recovered: stop.recovered->0,
            }) && step.stop.phase is Complete
        }),
{
}

/// An agent that settles ends a Stop that waits for it, with what was recovered; before, it is
/// only noted, and afterwards nothing happens.
pub proof fn a_settled_agent_ends_the_stop(stop: StopTransactionView, queue: ClearQueueView)
    requires
        stop.recovered == Some(queue),
    ensures
        ({
            let (after, directive) = stop.settled();
            let waits = stop.phase is AwaitingAbort || stop.phase is WaitingForAgentSettled;
            &&& after.agent_settled
            &&& waits ==> directive == (StopDirectiveView::Complete { recovered: queue })
                && after.phase is Complete
            &&& !waits ==> directive is Nothing && after.phase == stop.phase
            &&& after.recovered == stop.recovered
        }),
{
}

/// Before its deadline a Stop is left to wait; past it the process is terminated, and what was
/// recovered is handed on. A Stop that has ended or gives up already is left alone.
pub proof fn a_late_stop_terminates_the_process(
    stop: StopTransactionView,
    now_ms: u64,
    store: RuntimeStoreView,
    now: u64,
)
    requires
        store.runs.contains_key(stop.run_id),
    ensures
        ({
            let step = stop.timed(now_ms, store, now);
            let over = stop.phase is Complete || stop.phase is EscalationRequired;
            &&& now_ms < stop.rpc_deadline_ms || over ==> step.result is Ok && step.result->Ok_0
                is Nothing && step.stop == stop && step.store == store
            &&& now_ms >= stop.rpc_deadline_ms && !over ==> {
                &&& step.result is Ok
                &&& terminates(
                    step.result->Ok_0,
                    stop,
                    StopEscalationReason::RpcDeadlineExpired,
                    stop.recovered,
                )
                &&& step.stop.phase is EscalationRequired
                &&& store.runs[stop.run_id].process == ProcessState::Ready
                    ==> step.store.runs[stop.run_id].process == ProcessState::Stopping
            }
        }),
{
}

/// After a Stop the draft holds, on a line each and in order, what was to steer, what was to
/// follow and the draft as it was: nothing that was queued is lost, and nothing is added.
pub proof fn a_stop_gives_the_queue_back_in_order(
    steering: Seq<String>,
    follow_up: Seq<String>,
    draft: Seq<char>,
)
    ensures
        ({
            let parts = recovered_parts(steering, follow_up, draft);
            let n = steering.len() as int;
            let m = follow_up.len() as int;
            &&& parts.len() == n + m + (if draft.len() == 0 {
                0int
            } else {
                1
            })
            &&& forall|i: int| 0 <= i < n ==> #[trigger] parts[i] == steering[i]@
            &&& forall|i: int| n <= i < n + m ==> #[trigger] parts[i] == follow_up[i - n]@
            &&& draft.len() > 0 ==> parts[n + m] == draft
            &&& joined_lines(parts) == in_lines(parts)
        }),
{
    lemma_lines(recovered_parts(steering, follow_up, draft));
}

proof fn lemma_lines(parts: Seq<Seq<char>>)
    ensures
        joined_lines(parts) == in_lines(parts),
    decreases parts.len(),
{
    if parts.len() > 1 {
        lemma_lines(parts.drop_last());
        let before = in_lines(parts.drop_last());
        assert(before.push('\n') =~= before + seq!['\n']);
    }
}

/// The bytes that are held against the limit of a draft are those that it would hold.
pub proof fn the_bytes_of_a_draft_are_those_it_would_hold(
    steering: Seq<String>,
    follow_up: Seq<String>,
    draft: Seq<char>,
)
    requires
        steering.len() + follow_up.len() > 0,
        byte_len(joined_lines(recovered_parts(steering, follow_up, draft))) < usize::MAX,
        steering.len() + follow_up.len() <= usize::MAX,
        byte_len(draft) <= usize::MAX,
    ensures
        recovered_bytes(steering, follow_up, draft) == byte_len(
            joined_lines(recovered_parts(steering, follow_up, draft)),
        ),
{
    let messages = texts_view(steering) + texts_view(follow_up);
    let parts = recovered_parts(steering, follow_up, draft);
    crate::runtime::stop_recovery::joined_lines_bytes(parts);
    lemma_sum_concat(texts_view(steering), texts_view(follow_up));
    lemma_sum_texts(steering);
    lemma_sum_texts(follow_up);
    if draft.len() > 0 {
        assert(messages.push(draft).drop_last() =~= messages);
    } else {
        assert(draft =~= Seq::<char>::empty());
        assert(byte_len(Seq::<char>::empty()) == 0);
    }
}

proof fn lemma_sum_concat(a: Seq<Seq<char>>, b: Seq<Seq<char>>)
    ensures
        crate::runtime::stop_recovery::sum_of_bytes(a + b)
            == crate::runtime::stop_recovery::sum_of_bytes(a)
            + crate::runtime::stop_recovery::sum_of_bytes(b),
    decreases b.len(),
{
    if b.len() == 0 {
        assert(a + b =~= a);
    } else {
        lemma_sum_concat(a, b.drop_last());
        assert((a + b).drop_last() =~= a + b.drop_last());
    }
}

proof fn lemma_sum_texts(texts: Seq<String>)
    ensures
        crate::runtime::stop_recovery::sum_of_bytes(texts_view(texts)) == all_bytes(texts),
    decreases texts.len(),
{
    if texts.len() > 0 {
        lemma_sum_texts(texts.drop_last());
        assert(texts_view(texts).drop_last() =~= texts_view(texts.drop_last()));
    }
}

} // verus!
