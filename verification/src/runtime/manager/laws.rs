//! What holds of every manager.
use vstd::prelude::*;
use vstd::string::*;

use crate::draft::{DraftClearing, DraftDurability};
use crate::ids::{RequestId, RunId};
use crate::rpc::{RpcCommand, RpcConcurrencyClass, RpcRequest, RpcResponse, RpcResponseOutcome};
use crate::runtime::manager::actions::{ActionView, ReplyView};
use crate::runtime::manager::basics::{rejections, waiter_at, waiters_of_others};
use crate::runtime::manager::lifecycle::{lists_processes, ShutdownProgress};
use crate::runtime::manager::{ManagerView, ShutdownView, WaiterView};
use crate::runtime::process_actor::CommandRoom;
use crate::runtime::rpc_controller::CompletedRpcView;
use crate::runtime::state::{ProcessState, RunFailure, RunFailureKind, RuntimeStoreView};
use crate::text::{optional_view, sat_add_u64};

verus! {

/// Whether nobody waits for anything of a run.
pub open spec fn nobody_waits(manager: ManagerView, run_id: RunId) -> bool {
    &&& forall|i: int|
        0 <= i < manager.waiters.len() ==> (#[trigger] manager.waiters[i]).run_id != run_id
    &&& !manager.submissions.contains_key(run_id)
    &&& !manager.replacements.contains_key(run_id)
}

proof fn lemma_others(waiters: Seq<WaiterView>, run_id: RunId)
    ensures
        forall|i: int|
            0 <= i < waiters_of_others(waiters, run_id).len() ==> (#[trigger] waiters_of_others(
                waiters,
                run_id,
            )[i]).run_id != run_id,
    decreases waiters.len(),
{
    if waiters.len() > 0 {
        let before = waiters_of_others(waiters.drop_last(), run_id);
        let all = waiters_of_others(waiters, run_id);
        lemma_others(waiters.drop_last(), run_id);
        assert forall|i: int| 0 <= i < all.len() implies (#[trigger] all[i]).run_id != run_id by {
            if i < before.len() {
                assert(all[i] == before[i]);
            }
        }
    }
}

proof fn lemma_rejections(waiters: Seq<WaiterView>, run_id: RunId, detail: Seq<char>, i: int)
    requires
        0 <= i < waiters.len(),
        waiters[i].run_id == run_id,
    ensures
        rejections(waiters, run_id, detail).contains(
            ActionView::Reply { ticket: waiters[i].ticket, reply: ReplyView::Refused(detail) },
        ),
    decreases waiters.len(),
{
    let reply = ActionView::Reply { ticket: waiters[i].ticket, reply: ReplyView::Refused(detail) };
    let all = rejections(waiters, run_id, detail);
    if i == waiters.len() - 1 {
        assert(all.last() == reply);
    } else {
        let before = rejections(waiters.drop_last(), run_id, detail);
        assert(waiters.drop_last()[i] == waiters[i]);
        lemma_rejections(waiters.drop_last(), run_id, detail, i);
        let k = before.index_of(reply);
        assert(all[k] == reply);
    }
}

/// Once all who wait for a run are told that nothing comes any more, nobody waits
/// for it, and each of them was answered.
pub proof fn failing_answers_everyone(manager: ManagerView, run_id: RunId, detail: Seq<char>, i: int)
    requires
        0 <= i < manager.waiters.len(),
        manager.waiters[i].run_id == run_id,
    ensures
        nobody_waits(manager.waiters_failed(run_id, detail), run_id),
        manager.waiters_failed(run_id, detail).outbox.contains(
            ActionView::Reply {
                ticket: manager.waiters[i].ticket,
                reply: ReplyView::Refused(detail),
            },
        ),
{
    lemma_others(manager.waiters, run_id);
    lemma_rejections(manager.waiters, run_id, detail, i);
    let reply = ActionView::Reply {
        ticket: manager.waiters[i].ticket,
        reply: ReplyView::Refused(detail),
    };
    let told = rejections(manager.waiters, run_id, detail);
    let k = told.index_of(reply);
    let after = manager.waiters_failed(run_id, detail);
    assert(after.outbox[manager.outbox.len() + k] == reply);
}

/// A failure of the transport stops the run for good: nobody waits for it any more,
/// its process is no longer running, what it held of requests is gone, and the
/// failure is kept for its end.
pub proof fn transport_failure_closes_the_run(
    manager: ManagerView,
    run_id: RunId,
    kind: RunFailureKind,
    detail: Seq<char>,
    now: u64,
)
    requires
        manager.can_end(run_id),
    ensures
        ({
            let after = manager.transport_failed(run_id, kind, detail, now);
            &&& nobody_waits(after, run_id)
            &&& !after.startups.contains_key(run_id)
            &&& after.failures.contains_key(run_id)
            &&& after.failures[run_id].detail == detail
            &&& after.store.runs.contains_key(run_id)
            &&& !after.store.runs[run_id].process.running()
            &&& manager.controllers.contains_key(run_id) ==> after.controllers[run_id]
                == manager.controllers[run_id].ended()
        }),
{
    lemma_others(manager.waiters, run_id);
}

/// A failure of one run leaves the processes, controllers and states of all others
/// as they were.
pub proof fn transport_failure_touches_one_run(
    manager: ManagerView,
    run_id: RunId,
    other: RunId,
    kind: RunFailureKind,
    detail: Seq<char>,
    now: u64,
)
    requires
        other != run_id,
    ensures
        ({
            let after = manager.transport_failed(run_id, kind, detail, now);
            &&& after.processes == manager.processes
            &&& after.controllers.contains_key(other) == manager.controllers.contains_key(other)
            &&& manager.controllers.contains_key(other) ==> after.controllers[other]
                == manager.controllers[other]
            &&& after.store.runs.contains_key(other) == manager.store.runs.contains_key(other)
            &&& manager.store.runs.contains_key(other) ==> after.store.runs[other]
                == manager.store.runs[other]
            &&& after.stops == manager.stops
            &&& after.sessions == manager.sessions
        }),
{
}

/// A run whose process has exited is over: it is in a final state, nobody waits for
/// it, and a Stop that was under way is answered.
pub proof fn exit_ends_the_run(
    manager: ManagerView,
    run_id: RunId,
    code: Option<i32>,
    failure: RunFailure,
    now: u64,
)
    requires
        manager.can_end(run_id),
    ensures
        ({
            let after = manager.exited(run_id, code, failure, now);
            &&& after.store.runs[run_id].process.terminal()
            &&& nobody_waits(after, run_id)
            &&& !after.processes.contains_key(run_id)
            &&& !after.stops.contains_key(run_id)
            &&& !after.failures.contains_key(run_id)
            &&& manager.stops.contains_key(run_id) ==> after.outbox.last() is FinishStop
                && after.outbox.last()->FinishStop_ticket == manager.stops[run_id].ticket
                && after.outbox.last()->process_terminated
        }),
{
    lemma_others(manager.waiters, run_id);
}

/// A run of whose process nobody knows whether it has ended is put under quarantine,
/// whatever state it was in.
pub proof fn uncertain_end_is_quarantine(
    manager: ManagerView,
    run_id: RunId,
    detail: Seq<char>,
    failure: RunFailure,
    now: u64,
)
    requires
        manager.can_end(run_id),
    ensures
        ({
            let after = manager.quarantined(run_id, detail, failure, now);
            &&& after.store.runs[run_id].process == ProcessState::Quarantined
            &&& nobody_waits(after, run_id)
            &&& !after.processes.contains_key(run_id)
            &&& !after.stops.contains_key(run_id)
        }),
{
    lemma_others(manager.waiters, run_id);
}

/// Nothing is written to a process whose queue is full or closed. Who asks for it is told
/// which of the two it was, unless the request was refused before.
pub proof fn full_queue_takes_nothing(manager: ManagerView, run_id: RunId, request: RpcRequest)
    requires
        manager.processes.contains_key(run_id),
        manager.processes[run_id].refusal() is Some,
    ensures
        manager.sent(run_id, request).1 is Err,
        manager.controllers.contains_key(run_id) && manager.controllers[run_id].request_refusal(
            request,
        ) is None ==> manager.sent(run_id, request).1 == Err::<(), Seq<char>>(
            manager.processes[run_id].refusal()->0.text(),
        ),
        manager.sent(run_id, request).0.outbox == manager.outbox,
        manager.sent(run_id, request).0.processes == manager.processes,
{
}

/// A session is not replaced before its draft is stored: such a request is not sent
/// while the draft is anything but saved.
pub proof fn replacement_waits_for_the_draft(
    manager: ManagerView,
    run_id: RunId,
    request: RpcRequest,
    ticket: u64,
    draft: Option<DraftDurability>,
    now: u64,
)
    requires
        manager.persistence,
        request.command.spec_kind().class() == RpcConcurrencyClass::SessionReplacement,
        draft != Some(DraftDurability::Saved),
    ensures
        ({
            let after = manager.request_begun(run_id, request, ticket, draft, now);
            &&& after.controllers == manager.controllers
            &&& after.processes == manager.processes
            &&& after.outbox.len() <= manager.outbox.len() + 1
            &&& after.outbox.len() > manager.outbox.len() ==> !(after.outbox.last() is SendRequest)
        }),
{
}

/// A draft is cleared only where Pi has accepted what was sent, and only the one
/// that was sent.
pub proof fn only_an_accepted_draft_is_cleared(
    manager: ManagerView,
    run_id: RunId,
    response: RpcResponse,
    outcome: RpcResponseOutcome,
)
    requires
        manager.draft_to_clear(run_id, response, outcome) is Some,
    ensures
        outcome == RpcResponseOutcome::Accepted,
        manager.submissions.contains_key(run_id),
        response.id is Some,
        response.id->0@ == manager.submissions[run_id].request_id,
        manager.draft_to_clear(run_id, response, outcome)
            == Some(manager.submissions[run_id].draft_generation),
{
}

/// The sender of a draft that Pi did not accept is told so, with the error that Pi
/// gave, and no draft is cleared.
pub proof fn a_rejected_draft_is_kept(
    manager: ManagerView,
    run_id: RunId,
    response: RpcResponse,
    outcome: RpcResponseOutcome,
    cleared: Result<DraftClearing, String>,
    now_ms: u64,
)
    requires
        manager.answers_submission(run_id, response),
        outcome != RpcResponseOutcome::Accepted,
    ensures
        manager.draft_to_clear(run_id, response, outcome) is None,
        ({
            let (after, result) = manager.submission_completed(
                run_id,
                response,
                outcome,
                cleared,
                now_ms,
            );
            &&& result is Ok
            &&& !after.submissions.contains_key(run_id)
            &&& after.save_deadlines == manager.save_deadlines
            &&& after.outbox[manager.outbox.len() as int] == (ActionView::AnswerSender {
                ticket: manager.submissions[run_id].ticket,
                action: manager.submissions[run_id].action,
                accepted: false,
                draft_cleared: false,
                error: optional_view(response.error),
            })
        }),
{
}

/// A Stop takes a run over: the time that a new process has for its first answer
/// does not count any more, and no replacement of the session waits.
pub proof fn stop_takes_the_run_over(
    manager: ManagerView,
    run_id: RunId,
    ticket: u64,
    clear_queue_id: RequestId,
    now_ms: u64,
    now_unix_ms: u64,
)
    requires
        !manager.stops.contains_key(run_id),
        manager.store.runs.contains_key(run_id),
        manager.store.runs[run_id].process.running(),
    ensures
        ({
            let after = manager.stop_begun(run_id, ticket, clear_queue_id, now_ms, now_unix_ms);
            &&& !after.startups.contains_key(run_id)
            &&& !after.replacements.contains_key(run_id)
            &&& after.stops.contains_key(run_id)
            &&& after.stops[run_id].ticket == ticket
        }),
{
}

pub(crate) proof fn lemma_flushing(manager: ManagerView, sessions: Seq<Seq<char>>)
    ensures
        manager.flushed(sessions).shutdown == manager.shutdown,
        manager.flushed(sessions).processes == manager.processes,
        manager.flushed(sessions).store == manager.store,
        manager.flushed(sessions).limits == manager.limits,
    decreases sessions.len(),
{
    if sessions.len() > 0 {
        lemma_flushing(manager, sessions.drop_last());
    }
}

/// Whether a run has no process that runs and is not told to end.
pub open spec fn told_to_end(store: RuntimeStoreView, run_id: RunId) -> bool {
    store.runs.contains_key(run_id) ==> !store.runs[run_id].process.running()
}

proof fn lemma_shutting_down(manager: ManagerView, runs: Seq<RunId>, now_unix_ms: u64)
    ensures
        ({
            let after = manager.all_shut_down(runs, now_unix_ms);
            &&& after.shutdown == manager.shutdown
            &&& after.processes == manager.processes
            &&& after.limits == manager.limits
            &&& forall|i: int|
                0 <= i < runs.len() ==> told_to_end(after.store, #[trigger] runs[i])
                    && after.outbox.contains(
                    ActionView::Terminate {
                        run_id: runs[i],
                        deadline_ms: manager.limits.stop_termination_deadline_ms,
                    },
                )
        }),
    decreases runs.len(),
{
    if runs.len() > 0 {
        let rest = runs.drop_last();
        let last = runs.last();
        lemma_shutting_down(manager, rest, now_unix_ms);
        let before = manager.all_shut_down(rest, now_unix_ms);
        let after = manager.all_shut_down(runs, now_unix_ms);
        assert(after == before.shut_down(last, now_unix_ms));
        let end = ActionView::Terminate {
            run_id: last,
            deadline_ms: manager.limits.stop_termination_deadline_ms,
        };
        assert(after.outbox.last() == end);
        assert forall|i: int| 0 <= i < runs.len() implies told_to_end(
            after.store,
            #[trigger] runs[i],
        ) && after.outbox.contains(
            ActionView::Terminate {
                run_id: runs[i],
                deadline_ms: manager.limits.stop_termination_deadline_ms,
            },
        ) by {
            if i < rest.len() {
                assert(rest[i] == runs[i]);
                let told = ActionView::Terminate {
                    run_id: runs[i],
                    deadline_ms: manager.limits.stop_termination_deadline_ms,
                };
                let at = choose|at: int|
                    0 <= at < before.outbox.len() && before.outbox[at] == told;
                assert(after.outbox[at] == told);
            } else {
                assert(after.outbox[after.outbox.len() - 1] == end);
            }
        }
    }
}

/// A shutdown reaches every process: each is told to end, none counts as running any
/// more, and all of them are waited for.
pub proof fn shutdown_reaches_every_process(
    manager: ManagerView,
    ticket: Option<u64>,
    runs: Seq<RunId>,
    sessions: Seq<Seq<char>>,
    now_ms: u64,
    now_unix_ms: u64,
    run_id: RunId,
)
    requires
        lists_processes(manager, runs),
        manager.processes.contains_key(run_id),
    ensures
        ({
            let after = manager.shutdown_begun(ticket, runs, sessions, now_ms, now_unix_ms);
            &&& after.shutdown is Some
            &&& after.shutdown->0.ticket == ticket
            &&& after.shutdown->0.target_runs.contains(run_id)
            &&& after.processes == manager.processes
            &&& told_to_end(after.store, run_id)
            &&& after.outbox.contains(
                ActionView::Terminate {
                    run_id,
                    deadline_ms: manager.limits.stop_termination_deadline_ms,
                },
            )
        }),
{
    let begun = ManagerView {
        shutdown: Some(
            ShutdownView {
                ticket,
                target_runs: runs,
                draft_deadline_ms: sat_add_u64(now_ms, manager.limits.draft_flush_deadline_ms),
            },
        ),
        ..manager
    };
    lemma_flushing(begun, sessions);
    let flushed = if manager.persistence {
        begun.flushed(sessions)
    } else {
        begun
    };
    lemma_shutting_down(flushed, runs, now_unix_ms);
    assert(runs.to_set().contains(run_id));
    let i = choose|i: int| 0 <= i < runs.len() && runs[i] == run_id;
    assert(told_to_end(flushed.all_shut_down(runs, now_unix_ms).store, runs[i]));
}

/// A shutdown does not end before the last process has, nor without one that asked
/// for it.
pub proof fn shutdown_outlives_the_processes(
    manager: ManagerView,
    saves_in_flight: bool,
    now_ms: u64,
)
    requires
        manager.processes.dom().finite(),
        manager.shutdown_progress(saves_in_flight, now_ms) != ShutdownProgress::NotYet,
    ensures
        manager.shutdown is Some,
        manager.processes == Map::<RunId, CommandRoom>::empty(),
{
    manager.processes.dom().lemma_len0_is_empty();
    assert(manager.processes =~= Map::<RunId, CommandRoom>::empty());
}

/// A replaced session is observed before the one who replaced it is answered: the
/// question which session is active goes to Pi ahead of the answer.
pub proof fn replacement_is_observed_before_its_answer(
    manager: ManagerView,
    run_id: RunId,
    done: CompletedRpcView,
    state_id: RequestId,
    request_id: Seq<char>,
    reply: ReplyView,
    now_unix_ms: u64,
)
    requires
        done.outcome == RpcResponseOutcome::Accepted,
        done.active.class == RpcConcurrencyClass::SessionReplacement,
        manager.sent(run_id, RpcRequest { id: state_id, command: RpcCommand::GetState }).1 is Ok,
        waiter_at(manager.waiters, run_id, request_id, false) is Some,
    ensures
        ({
            let after = manager.replacement_observed(
                run_id,
                done,
                state_id,
                now_unix_ms,
            ).waiter_answered(run_id, request_id, false, reply);
            let n = after.outbox.len();
            &&& n >= 2
            &&& after.outbox[n - 1] is Reply
            &&& after.outbox[n - 1]->reply == reply
            &&& after.outbox[n - 2] == ActionView::SendRequest {
                run_id,
                request: RpcRequest { id: state_id, command: RpcCommand::GetState },
            }
        }),
{
}

} // verus!
