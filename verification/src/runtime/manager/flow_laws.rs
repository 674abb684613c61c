//! What events, answers and the passing of time lead to in the manager.
use vstd::prelude::*;
use vstd::string::*;

use crate::draft::DraftClearing;
use crate::events::RpcEvent;
use crate::ids::{RequestId, RunId};
use crate::rpc::{RpcConcurrencyClass, RpcRequest, RpcResponse, RpcResponseOutcome};
use crate::runtime::event_laws::a_tool_is_told_as_it_ended;
use crate::runtime::hydration::RuntimeHydrationSnapshot;
use crate::runtime::manager::actions::{ActionView, NoticeView, ReplyView};
use crate::runtime::manager::commands::{
    command_handled, hydrates, CommandOutcome, RuntimeManagerCommand,
};
use crate::runtime::manager::deadlines::{
    gives_up_at, replacements_expired, saves_started, DeadlineKind,
};
use crate::runtime::manager::lifecycle::{quarantined_among, startup_requests, StartupIds};
use crate::runtime::manager::replies::DraftReplies;
use crate::runtime::manager::work_laws::{also_does, answers_go_to_who_waits_for_them};
use crate::runtime::manager::{ManagerView, StartupView};
use crate::runtime::process_actor::CommandRoom;
use crate::runtime::rpc_controller::CompletedRpcView;
use crate::runtime::state::{ProcessState, RunFailureKind, RunRecordView};
use crate::runtime::state::RuntimeStoreView;
use crate::runtime::stop::{StopDirectiveView, StopTransactionError, StopTransactionView};
use crate::text::sat_add_u64;

verus! {

/// A renderer is told of a tool that ended what Pi told of it: its identity, its name, its
/// last output, and whether it failed.
pub proof fn a_renderer_is_told_how_a_tool_ended(
    manager: ManagerView,
    run_id: RunId,
    tool_call_id: String,
    tool_name: String,
    output: String,
    is_error: bool,
    sync_id: RequestId,
    now_ms: u64,
    now_unix_ms: u64,
    cursor: String,
)
    requires
        manager.controllers.contains_key(run_id),
        manager.controllers[run_id].run_id == run_id,
        manager.renderers.contains_key(run_id),
        manager.store.runs.contains_key(run_id),
        manager.store.runs[run_id].process == ProcessState::Ready,
        manager.controllers[run_id].live.tools.contains_key(tool_call_id@),
    ensures
        ({
            let after = manager.event_handled(
                run_id,
                RpcEvent::ToolExecutionEnd {
                    tool_call_id,
                    tool_name,
                    final_text: output,
                    is_error,
                },
                sync_id,
                now_ms,
                now_unix_ms,
                None,
                cursor,
            );
            let told = after.outbox.last();
            &&& after.outbox.len() == manager.outbox.len() + 1
            &&& told is Notify
            &&& told->Notify_run_id == run_id
            &&& told->notice is ToolFinished
            &&& told->notice->ToolFinished_tool_call_id == tool_call_id@
            &&& told->notice->tool_name == tool_name@
            &&& told->notice->is_error == is_error
        }),
{
    a_tool_is_told_as_it_ended(
        manager.controllers[run_id],
        tool_call_id,
        tool_name,
        output,
        is_error,
        manager.store,
        now_ms,
        now_unix_ms,
    );
}

/// The sender of a draft is told what became of it: that Pi has taken it, with whether the
/// draft is cleared, or that it has not, with the error that Pi gave. Answers to other
/// requests say nothing about the draft.
pub proof fn the_sender_of_a_draft_is_told(
    manager: ManagerView,
    run_id: RunId,
    response: RpcResponse,
    outcome: RpcResponseOutcome,
    cleared: Result<DraftClearing, String>,
    now_ms: u64,
)
    ensures
        ({
            let (after, result) = manager.submission_completed(
                run_id,
                response,
                outcome,
                cleared,
                now_ms,
            );
            let n = manager.outbox.len() as int;
            let sent = manager.submissions[run_id];
            let answers = manager.submissions.contains_key(run_id) && response.id is Some
                && response.id->0@ == sent.request_id;
            let accepted = outcome == RpcResponseOutcome::Accepted;
            &&& !answers ==> after == manager && result is Ok
            &&& answers ==> {
                &&& after.submissions == manager.submissions.remove(run_id)
                &&& after.outbox.len() > n
                &&& result is Err <==> accepted && cleared is Err
                &&& result is Err ==> after.outbox[n] == (ActionView::Reply {
                    ticket: sent.ticket,
                    reply: ReplyView::Dropped,
                })
                &&& result is Ok ==> {
                    let told = after.outbox[n];
                    &&& told is AnswerSender
                    &&& told->AnswerSender_ticket == sent.ticket
                    &&& told->action == sent.action
                    &&& told->accepted == accepted
                    &&& told->draft_cleared == (accepted && cleared->Ok_0.cleared)
                    &&& accepted ==> told->error is None
                    &&& !accepted && response.error is Some ==> told->error == Some(
                        response.error->0@,
                    )
                    &&& !accepted && response.error is None ==> told->error is None
                }
            }
        }),
{
}

/// Who waits for an answer that Pi gives gets it as Pi gave it, with the entries that it
/// brought, or with the word that the session has to be read anew.
pub proof fn an_answer_reaches_who_asked(
    manager: ManagerView,
    run_id: RunId,
    response: RpcResponse,
    done: CompletedRpcView,
    abort_id: RequestId,
    state_id: RequestId,
    replies: DraftReplies,
    now_ms: u64,
    now_unix_ms: u64,
    i: int,
)
    requires
        response.id is Some,
        response.command@ != "get_state"@,
        !manager.stops.contains_key(run_id),
        !manager.submissions.contains_key(run_id),
        done.active.class != RpcConcurrencyClass::SessionReplacement,
        0 <= i < manager.waiters.len(),
        manager.waiters[i].run_id == run_id,
        manager.waiters[i].request_id == response.id->0@,
        !manager.waiters[i].extension,
    ensures
        ({
            let after = manager.answer_taken(
                run_id,
                response,
                done,
                abort_id,
                state_id,
                replies,
                now_ms,
                now_unix_ms,
            );
            let told = after.outbox.last();
            &&& told is Reply
            &&& told->reply is Completed
            &&& told->reply->Completed_0.response == response
            &&& done.session_sync is Some && done.session_sync->0 is Page
                ==> told->reply->Completed_0.session_entries == Some(done.session_sync->0->page)
            &&& !(done.session_sync is Some && done.session_sync->0 is Page)
                ==> told->reply->Completed_0.session_entries is None
            &&& told->reply->Completed_0.session_resync_required <==> done.session_sync is Some
                && done.session_sync->0 is ResyncRequired
            &&& exists|k: int|
                0 <= k < manager.waiters.len() && (#[trigger] manager.waiters[k]).run_id == run_id
                    && manager.waiters[k].request_id == response.id->0@
                    && !manager.waiters[k].extension && manager.waiters[k].ticket
                    == told->Reply_ticket
            &&& after.waiters.len() == manager.waiters.len() - 1
            &&& after.store == manager.store
        }),
{
    let shown = manager.answer_shown(run_id, done);
    let after = manager.answer_taken(
        run_id,
        response,
        done,
        abort_id,
        state_id,
        replies,
        now_ms,
        now_unix_ms,
    );
    assert(shown.waiters == manager.waiters);
    answers_go_to_who_waits_for_them(
        shown,
        run_id,
        response.id->0@,
        false,
        after.outbox.last()->reply,
    );
    assert(shown.waiters[i].run_id == run_id);
}

/// The first failure of a run is kept with its kind and its text until the process has ended,
/// which it is told to do within its time.
pub proof fn failures_are_kept_with_their_kind(
    manager: ManagerView,
    run_id: RunId,
    kind: RunFailureKind,
    detail: Seq<char>,
    now: u64,
)
    requires
        manager.store.runs.contains_key(run_id),
        !manager.store.runs[run_id].process.terminal(),
    ensures
        ({
            let after = manager.transport_failed(run_id, kind, detail, now);
            &&& after.failures.contains_key(run_id)
            &&& after.failures[run_id].kind == kind
            &&& after.failures[run_id].detail == detail
            &&& after.store.runs[run_id].process == ProcessState::Stopping
            &&& !after.startups.contains_key(run_id)
            &&& !after.submissions.contains_key(run_id)
            &&& !after.replacements.contains_key(run_id)
            &&& after.stops == manager.stops
            &&& manager.processes.contains_key(run_id) ==> after.outbox.last() == (
            ActionView::Terminate {
                run_id,
                deadline_ms: manager.limits.stop_termination_deadline_ms,
            })
        }),
{
}

proof fn lemma_answered(
    manager: ManagerView,
    run_id: RunId,
    request_id: Seq<char>,
    extension: bool,
    reply: ReplyView,
)
    ensures
        manager.waiter_answered(run_id, request_id, extension, reply).store == manager.store,
{
}

/// A request that could not be written is not known any longer, its run is about to end as
/// broken, and who sent a draft by it is told.
pub proof fn a_failed_write_ends_the_run(
    manager: ManagerView,
    run_id: RunId,
    request_id: RequestId,
    detail: Seq<char>,
    now_unix_ms: u64,
)
    requires
        manager.store.runs.contains_key(run_id),
        !manager.store.runs[run_id].process.terminal(),
    ensures
        ({
            let after = manager.request_write_failed(run_id, request_id, detail, now_unix_ms);
            &&& after.failures.contains_key(run_id)
            &&& after.failures[run_id].kind == RunFailureKind::Protocol
            &&& after.failures[run_id].detail == "Pi RPC write failed: "@ + detail
            &&& after.store.runs[run_id].process == ProcessState::Stopping
            &&& !after.submissions.contains_key(run_id)
            &&& !after.replacements.contains_key(run_id)
        }),
        ({
            let after = manager.extension_write_failed(
                run_id,
                request_id@,
                detail,
                now_unix_ms,
            );
            &&& after.failures[run_id].kind == RunFailureKind::Protocol
            &&& after.failures[run_id].detail == "extension UI response write failed: "@ + detail
            &&& after.store.runs[run_id].process == ProcessState::Stopping
        }),
{
    let gone = ManagerView {
        controllers: if manager.controllers.contains_key(run_id) {
            manager.controllers.insert(
                run_id,
                manager.controllers[run_id].without_request(request_id@),
            )
        } else {
            manager.controllers
        },
        ..manager
    };
    let reply = ReplyView::Refused(detail);
    lemma_answered(gone, run_id, request_id@, false, reply);
    lemma_answered(manager, run_id, request_id@, true, reply);
    let told = gone.waiter_answered(run_id, request_id@, false, reply).submission_failed(
        run_id,
        Some(request_id@),
        detail,
    );
    failures_are_kept_with_their_kind(
        told,
        run_id,
        RunFailureKind::Protocol,
        "Pi RPC write failed: "@ + detail,
        now_unix_ms,
    );
    failures_are_kept_with_their_kind(
        manager.waiter_answered(run_id, request_id@, true, reply),
        run_id,
        RunFailureKind::Protocol,
        "extension UI response write failed: "@ + detail,
        now_unix_ms,
    );
}

/// Who answered a question is told once the answer is written, and told why if the question
/// was not open any more; a renderer learns that the questions have changed.
pub proof fn who_answered_a_question_is_told(
    manager: ManagerView,
    run_id: RunId,
    request_id: String,
    now_unix_ms: u64,
    i: int,
)
    requires
        manager.controllers.contains_key(run_id),
        0 <= i < manager.waiters.len(),
        manager.waiters[i].run_id == run_id,
        manager.waiters[i].request_id == request_id@,
        manager.waiters[i].extension,
    ensures
        ({
            let after = manager.extension_written(run_id, request_id, now_unix_ms);
            let told = after.outbox.last();
            let result = manager.controllers[run_id].dialog_answered(
                request_id,
                manager.store,
                now_unix_ms,
            ).result;
            &&& after.waiters.len() == manager.waiters.len() - 1
            &&& told is Reply
            &&& result is Ok <==> told->reply is Done
            &&& result is Err <==> told->reply is Refused
            &&& result is Ok && manager.renderers.contains_key(run_id) ==> after.outbox[
                manager.outbox.len() as int] == (ActionView::Notify {
                run_id,
                notice: NoticeView::ExtensionDialogsChanged,
            })
        }),
{
    let step = manager.controllers[run_id].dialog_answered(request_id, manager.store, now_unix_ms);
    let after = manager.controlled(run_id, step.controller, step.store);
    let shown = after.notified(run_id, NoticeView::ExtensionDialogsChanged).state_notified(run_id);
    assert(shown.waiters[i].run_id == run_id && after.waiters[i].run_id == run_id);
    answers_go_to_who_waits_for_them(shown, run_id, request_id@, true, ReplyView::Done);
    if step.result is Err {
        answers_go_to_who_waits_for_them(
            after,
            run_id,
            request_id@,
            true,
            ReplyView::Refused(step.result->Err_0.text()),
        );
    }
}

/// A step of a Stop that fails ends the Stop: who asked for it is told, and the run is about to
/// end. One that succeeds leaves the Stop where the step has brought it.
pub proof fn a_failed_stop_is_over(
    manager: ManagerView,
    run_id: RunId,
    ticket: u64,
    stop: StopTransactionView,
    store: RuntimeStoreView,
    result: Result<StopDirectiveView, StopTransactionError>,
    now_unix_ms: u64,
)
    requires
        store.runs.contains_key(run_id),
        !store.runs[run_id].process.terminal(),
    ensures
        ({
            let after = manager.stop_stepped(run_id, ticket, stop, store, result, now_unix_ms);
            let n = manager.outbox.len() as int;
            match result {
                Err(error) => {
                    &&& !after.stops.contains_key(run_id)
                    &&& after.outbox[n] == (ActionView::Reply {
                        ticket,
                        reply: ReplyView::Refused(error.text()),
                    })
                    &&& after.failures[run_id].kind == RunFailureKind::Stop
                    &&& after.store.runs[run_id].process == ProcessState::Stopping
                },
                Ok(directive) => {
                    &&& directive is WaitForAgentSettled || directive is Nothing
                        ==> after.stops.contains_key(run_id) && after.stops[run_id].transaction
                        == stop && after.stops[run_id].ticket == ticket && after.store == store
                    &&& directive is Complete ==> !after.stops.contains_key(run_id)
                },
            }
        }),
{
    if result is Err {
        let error = result->Err_0;
        let gone = ManagerView { store, stops: manager.stops.remove(run_id), ..manager };
        assert(gone.refused(ticket, error.text()).outbox[manager.outbox.len() as int]
            == (ActionView::Reply { ticket, reply: ReplyView::Refused(error.text()) }));
    }
}

/// Everything that can be late has a deadline: every Stop, every process that has not answered
/// yet, every replacement that waits, every draft that is to be stored, the drafts at a
/// shutdown, and every question that Pi gives up; and nothing else has one.
pub proof fn everything_that_can_be_late_has_a_deadline(
    manager: ManagerView,
    run_id: RunId,
    session_id: Seq<char>,
    request_id: Seq<char>,
    at: u64,
)
    ensures
        manager.stops.contains_key(run_id) ==> manager.is_deadline(
            manager.stops[run_id].transaction.rpc_deadline_ms,
        ),
        manager.startups.contains_key(run_id) ==> manager.is_deadline(
            manager.startups[run_id].deadline_ms,
        ),
        manager.replacements.contains_key(run_id) ==> manager.is_deadline(
            manager.replacements[run_id].deadline_ms,
        ),
        manager.save_deadlines.contains_key(session_id) ==> manager.is_deadline(
            manager.save_deadlines[session_id],
        ),
        manager.shutdown is Some ==> manager.is_deadline(manager.shutdown->0.draft_deadline_ms),
        manager.controllers.contains_key(run_id)
            && manager.controllers[run_id].pending_dialogs.contains_key(request_id)
            && manager.controllers[run_id].pending_dialogs[request_id].expires_at_ms is Some
            ==> manager.is_deadline(
            manager.controllers[run_id].pending_dialogs[request_id].expires_at_ms->0,
        ),
        manager.stops.dom().is_empty() && manager.startups.dom().is_empty()
            && manager.replacements.dom().is_empty() && manager.save_deadlines.dom().is_empty()
            && manager.shutdown is None && manager.controllers.dom().is_empty()
            ==> !manager.is_deadline(at),
{
    if manager.controllers.contains_key(run_id)
        && manager.controllers[run_id].pending_dialogs.contains_key(request_id)
        && manager.controllers[run_id].pending_dialogs[request_id].expires_at_ms is Some {
        let late = manager.controllers[run_id].pending_dialogs[request_id].expires_at_ms->0;
        assert(gives_up_at(manager.controllers[run_id], late));
    }
}

proof fn lemma_replacements(manager: ManagerView, ids: Seq<RunId>, now_ms: u64, id: RunId)
    ensures
        ({
            let after = manager.runs_timed(DeadlineKind::Replacement, ids, now_ms, 0);
            let late = manager.replacements[id].deadline_ms <= now_ms && ids.contains(id);
            &&& after.replacements.contains_key(id) <==> manager.replacements.contains_key(id)
                && !late
            &&& after.replacements.contains_key(id) ==> after.replacements[id]
                == manager.replacements[id]
            &&& after.store == manager.store && after.controllers == manager.controllers
        }),
    decreases ids.len(),
{
    if ids.len() > 0 {
        let rest = ids.drop_last();
        lemma_replacements(manager, rest, now_ms, id);
        lemma_replacements(manager, rest, now_ms, ids.last());
        assert(ids.contains(id) <==> rest.contains(id) || ids.last() == id) by {
            if ids.contains(id) && ids.last() != id {
                let k = choose|k: int| 0 <= k < ids.len() && ids[k] == id;
                assert(rest[k] == id);
            }
            if rest.contains(id) {
                let k = choose|k: int| 0 <= k < rest.len() && rest[k] == id;
                assert(ids[k] == id);
            }
            assert(ids[ids.len() - 1] == ids.last());
        }
    }
}

/// Every replacement whose time is over is given up, and every other one goes on waiting.
pub proof fn late_replacements_are_given_up(
    before: ManagerView,
    after: ManagerView,
    now_ms: u64,
    id: RunId,
)
    requires
        replacements_expired(before, after, now_ms),
    ensures
        after.replacements.contains_key(id) <==> before.replacements.contains_key(id)
            && before.replacements[id].deadline_ms > now_ms,
        after.replacements.contains_key(id) ==> after.replacements[id] == before.replacements[id],
        after.store == before.store,
        after.controllers == before.controllers,
{
    let ids = choose|ids: Seq<RunId>|
        crate::keyed::strictly_ordered::<RunId>(ids) && ids.to_set() == before.replacements.dom()
            && after == #[trigger] before.runs_timed(DeadlineKind::Replacement, ids, now_ms, 0);
    lemma_replacements(before, ids, now_ms, id);
    assert(ids.to_set().contains(id) == before.replacements.dom().contains(id));
    assert(ids.to_set().contains(id) <==> ids.contains(id));
}

proof fn lemma_saves(manager: ManagerView, ids: Seq<Seq<char>>, now_ms: u64, id: Seq<char>)
    ensures
        ({
            let after = manager.saves_timed(ids, now_ms);
            let late = manager.save_deadlines[id] <= now_ms && ids.contains(id);
            &&& after.save_deadlines.contains_key(id) <==> manager.save_deadlines.contains_key(id)
                && !late
            &&& after.save_deadlines.contains_key(id) ==> after.save_deadlines[id]
                == manager.save_deadlines[id]
            &&& after.outbox.len() >= manager.outbox.len()
            &&& manager.save_deadlines.contains_key(id) && late ==> exists|k: int|
                manager.outbox.len() <= k < after.outbox.len() && #[trigger] after.outbox[k] == (
                ActionView::SaveDraft { session_id: id })
            &&& after.store == manager.store && after.controllers == manager.controllers
        }),
    decreases ids.len(),
{
    if ids.len() > 0 {
        let rest = ids.drop_last();
        let after = manager.saves_timed(ids, now_ms);
        let before = manager.saves_timed(rest, now_ms);
        lemma_saves(manager, rest, now_ms, id);
        lemma_saves(manager, rest, now_ms, ids.last());
        assert(ids.contains(id) <==> rest.contains(id) || ids.last() == id) by {
            if ids.contains(id) && ids.last() != id {
                let k = choose|k: int| 0 <= k < ids.len() && ids[k] == id;
                assert(rest[k] == id);
            }
            if rest.contains(id) {
                let k = choose|k: int| 0 <= k < rest.len() && rest[k] == id;
                assert(ids[k] == id);
            }
            assert(ids[ids.len() - 1] == ids.last());
        }
        let late = manager.save_deadlines[id] <= now_ms && ids.contains(id);
        if manager.save_deadlines.contains_key(id) && late {
            if rest.contains(id) {
                let k = choose|k: int|
                    manager.outbox.len() <= k < before.outbox.len() && #[trigger] before.outbox[k]
                        == (ActionView::SaveDraft { session_id: id });
                assert(after.outbox[k] == before.outbox[k]);
            } else {
                assert(after.outbox[before.outbox.len() as int] == (ActionView::SaveDraft {
                    session_id: id,
                }));
            }
        }
    }
}

/// Every draft that has rested for its time is stored, and every other one goes on resting.
pub proof fn rested_drafts_are_stored(
    before: ManagerView,
    after: ManagerView,
    now_ms: u64,
    id: Seq<char>,
)
    requires
        saves_started(before, after, now_ms),
    ensures
        after.save_deadlines.contains_key(id) <==> before.save_deadlines.contains_key(id)
            && before.save_deadlines[id] > now_ms,
        after.save_deadlines.contains_key(id) ==> after.save_deadlines[id]
            == before.save_deadlines[id],
        before.save_deadlines.contains_key(id) && before.save_deadlines[id] <= now_ms ==> exists|
            k: int,
        |
            before.outbox.len() <= k < after.outbox.len() && #[trigger] after.outbox[k] == (
            ActionView::SaveDraft { session_id: id }),
{
    let ids = choose|ids: Seq<Seq<char>>|
        crate::keyed::strictly_ordered::<String>(ids) && ids.to_set()
            == before.save_deadlines.dom() && after == #[trigger] before.saves_timed(ids, now_ms);
    lemma_saves(before, ids, now_ms, id);
    assert(ids.to_set().contains(id) == before.save_deadlines.dom().contains(id));
    assert(ids.to_set().contains(id) <==> ids.contains(id));
}

proof fn lemma_probed(manager: ManagerView, run_id: RunId, requests: Seq<RpcRequest>, now: u64)
    requires
        manager.store.runs.contains_key(run_id),
        !manager.store.runs[run_id].process.terminal(),
    ensures
        ({
            let (after, going) = manager.probed(run_id, requests, now);
            &&& !going ==> after.failures.contains_key(run_id)
            &&& going ==> {
                &&& after.outbox.len() == manager.outbox.len() + requests.len()
                &&& forall|i: int|
                    0 <= i < requests.len() ==> #[trigger] after.outbox[manager.outbox.len() + i]
                        == (ActionView::SendRequest { run_id, request: requests[i] })
                &&& after.startups == manager.startups && after.store == manager.store
            }
        }),
    decreases requests.len(),
{
    if requests.len() > 0 {
        let rest = requests.drop_last();
        lemma_probed(manager, run_id, rest, now);
        let (before, went) = manager.probed(run_id, rest, now);
        let (after, going) = manager.probed(run_id, requests, now);
        if went {
            lemma_sent(before, run_id, requests.last());
            let (sent, result) = before.sent(run_id, requests.last());
            if result is Err {
                failures_are_kept_with_their_kind(
                    sent,
                    run_id,
                    RunFailureKind::Protocol,
                    "failed queuing startup RPC probe: "@ + result->Err_0,
                    now,
                );
            } else {
                assert forall|i: int| 0 <= i < requests.len() implies #[trigger] after.outbox[
                    manager.outbox.len() + i] == (ActionView::SendRequest {
                    run_id,
                    request: requests[i],
                }) by {
                    if i < rest.len() {
                        assert(after.outbox[manager.outbox.len() + i]
                            == before.outbox[manager.outbox.len() + i]);
                    }
                }
            }
        }
    }
}

proof fn lemma_sent(manager: ManagerView, run_id: RunId, request: RpcRequest)
    ensures
        ({
            let (after, result) = manager.sent(run_id, request);
            &&& after.store == manager.store && after.startups == manager.startups
            &&& result is Ok ==> after.outbox == manager.outbox.push(
                ActionView::SendRequest { run_id, request },
            )
        }),
{
}

/// A new process that can be asked everything is waited for until its time is over, and its
/// renderer is told of it.
pub proof fn a_new_process_is_waited_for(
    manager: ManagerView,
    record: RunRecordView,
    session_id: Option<Seq<char>>,
    room: CommandRoom,
    ids: StartupIds,
    now_ms: u64,
    now_unix_ms: u64,
)
    requires
        manager.run_registered(record, session_id, room, ids, now_ms, now_unix_ms).failures
            == manager.failures,
        !manager.failures.contains_key(record.id),
        !record.process.terminal(),
    ensures
        ({
            let after = manager.run_registered(
                record,
                session_id,
                room,
                ids,
                now_ms,
                now_unix_ms,
            );
            let n = after.outbox.len() as int;
            &&& after.startups.contains_key(record.id)
            &&& after.startups[record.id].request_id == ids.state@
            &&& now_ms + manager.limits.startup_rpc_deadline_ms <= u64::MAX
                ==> after.startups[record.id].deadline_ms == now_ms
                + manager.limits.startup_rpc_deadline_ms
            &&& n >= manager.outbox.len() + 5
            &&& after.outbox[n - 4] is SendRequest
            &&& after.outbox[n - 4]->request.id == ids.state
            &&& after.outbox[n - 4]->request.command is GetState
            &&& after.outbox[n - 3] is SendRequest
            &&& after.outbox[n - 3]->request.id == ids.models
            &&& after.outbox[n - 3]->request.command is GetAvailableModels
            &&& after.outbox[n - 2] is SendRequest
            &&& after.outbox[n - 2]->request.id == ids.thinking_levels
            &&& after.outbox[n - 2]->request.command is GetAvailableThinkingLevels
            &&& after.outbox[n - 1] is SendRequest
            &&& after.outbox[n - 1]->request.id == ids.commands
            &&& after.outbox[n - 1]->request.command is GetCommands
            &&& after.store.runs[record.id] == record
        }),
{
    let shown = manager.with_run(record, session_id, room).load_queued(record.id).state_notified(
        record.id,
    );
    let waiting = ManagerView {
        startups: shown.startups.insert(
            record.id,
            StartupView {
                request_id: ids.state@,
                deadline_ms: sat_add_u64(now_ms, manager.limits.startup_rpc_deadline_ms),
            },
        ),
        ..shown
    };
    let requests = startup_requests(ids);
    assert(waiting.store.runs.contains_key(record.id));
    assert(waiting.store.runs[record.id] == record);
    assert(waiting.outbox.len() >= manager.outbox.len() + 1);
    lemma_probed(waiting, record.id, requests, now_unix_ms);
    let after = manager.run_registered(record, session_id, room, ids, now_ms, now_unix_ms);
    let base = waiting.outbox.len() as int;
    assert(after == waiting.probed(record.id, requests, now_unix_ms).0);
    let asked = |i: int| ActionView::SendRequest { run_id: record.id, request: requests[i] };
    assert(after.outbox[base + 0] == asked(0));
    assert(after.outbox[base + 1] == asked(1));
    assert(after.outbox[base + 2] == asked(2));
    assert(after.outbox[base + 3] == asked(3));
}

/// What a renderer reads of the runs is what they are: the record of each, whether a draft is
/// under way or still being read, and what its process has told.
pub proof fn hydration_shows_the_runs(
    manager: ManagerView,
    snapshot: RuntimeHydrationSnapshot,
    now_ms: u64,
    i: int,
)
    requires
        hydrates(manager, snapshot, now_ms),
        0 <= i < snapshot.runs@.len(),
    ensures
        ({
            let shown = snapshot.runs@[i];
            let id = shown.run@.id;
            &&& snapshot.runtime_revision == manager.store.revision
            &&& manager.store.runs.contains_key(id)
            &&& shown.run@ == manager.store.runs[id]
            &&& shown.composer_submission_pending <==> manager.submissions.contains_key(id)
            &&& shown.draft_restore_pending <==> manager.sessions.contains_key(id)
                && manager.loads_pending.contains_key(manager.sessions[id])
            &&& shown.rpc is Some <==> manager.controllers.contains_key(id)
            &&& shown.draft is None
        }),
{
}

/// While everything ends, nothing new begins: no run starts, nothing is sent and no draft
/// changes.
pub proof fn nothing_begins_during_a_shutdown(
    before: ManagerView,
    after: ManagerView,
    command: RuntimeManagerCommand,
    outcome: CommandOutcome,
    now_ms: u64,
)
    requires
        command_handled(before, after, command, outcome, now_ms),
        before.shutdown is Some,
    ensures
        command is StartRun || command is ChangeDraft ==> outcome is Refused && after == before,
        command is Request ==> outcome is Queued && after.controllers == before.controllers
            && also_does(
            before,
            after,
            ActionView::Reply {
                ticket: command->Request_ticket,
                reply: ReplyView::Refused("runtime manager is shutting down"@),
            },
        ),
        command is SubmitDraft ==> outcome is Queued && after.submissions == before.submissions
            && also_does(
            before,
            after,
            ActionView::Reply {
                ticket: command->SubmitDraft_ticket,
                reply: ReplyView::Refused("runtime manager is shutting down"@),
            },
        ),
{
}

/// While nothing ends, runs may start, and what is asked for goes its way.
pub proof fn commands_go_their_way(
    before: ManagerView,
    after: ManagerView,
    command: RuntimeManagerCommand,
    outcome: CommandOutcome,
    now_ms: u64,
)
    requires
        command_handled(before, after, command, outcome, now_ms),
        before.shutdown is None,
    ensures
        command is StartRun ==> outcome is Granted && after == before,
        command is Request ==> outcome is Queued && after == before.request_begun(
            command->Request_run_id,
            command->request,
            command->Request_ticket,
            command->Request_draft,
            now_ms,
        ),
        command is SubmitDraft ==> outcome is Queued && after == before.submission_begun(
            command->SubmitDraft_run_id,
            command->action,
            command->SubmitDraft_draft,
            command->SubmitDraft_ticket,
            command->request_id,
        ),
        command is DrainUi ==> (outcome is Drained <==> before.renderers.contains_key(
            command->DrainUi_run_id,
        )),
        command is RecoverUi ==> (outcome is Hydrated <==> before.renderers.contains_key(
            command->RecoverUi_run_id,
        )),
        command is Hydrate ==> outcome is Hydrated,
{
}

/// A worktree is in use from the start of a run there until its process has ended, and a
/// place where no run is is free.
pub proof fn a_run_occupies_its_worktree(manager: ManagerView, run_id: RunId)
    requires
        manager.store.runs.contains_key(run_id),
    ensures
        ({
            let process = manager.store.runs[run_id].process;
            process != ProcessState::Exited && process != ProcessState::Failed && process
                != ProcessState::Quarantined ==> manager.occupied(
                manager.store.runs[run_id].execution_root@,
            )
        }),
        forall|root: Seq<char>|
            (forall|id: RunId| #[trigger]
                manager.store.runs.contains_key(id) ==> manager.store.runs[id].process
                    == ProcessState::Exited || manager.store.runs[id].process
                    == ProcessState::Failed) ==> !#[trigger] manager.occupied(root),
{
}

/// A shutdown reports all its runs, those under quarantine among them, and every draft that
/// could not be stored.
pub proof fn the_report_counts_every_run(manager: ManagerView, failed_sessions: usize)
    requires
        manager.shutdown is Some,
        manager.shutdown->0.target_runs.len() <= usize::MAX,
    ensures
        ({
            let report = manager.shutdown_report(failed_sessions);
            let runs = manager.shutdown->0.target_runs;
            &&& report.terminal_runs == runs.len()
            &&& report.quarantined_runs == quarantined_among(runs, manager.store)
            &&& report.quarantined_runs <= report.terminal_runs
            &&& report.draft_flush_failed_sessions == failed_sessions
        }),
{
    crate::runtime::manager::work_laws::a_shutdown_reports_what_it_ended(
        manager.shutdown->0.target_runs,
        RunId { value: 0 },
        manager.store,
    );
}

/// Without a place to store drafts nothing is stored or read any longer.
pub proof fn nothing_is_stored_without_a_place(manager: ManagerView, run_id: RunId)
    ensures
        !manager.unpersisted().persistence,
        manager.unpersisted().save_deadlines.dom().is_empty(),
        !manager.unpersisted().restore_pending(run_id),
        manager.unpersisted().store == manager.store,
        manager.unpersisted().outbox == manager.outbox,
{
}

/// A text that an extension puts into the editor waits for the renderer of its run, in place
/// of an earlier one.
pub proof fn the_editor_shows_the_newest_text(
    manager: ManagerView,
    run_id: RunId,
    earlier: Seq<char>,
    text: Seq<char>,
)
    ensures
        manager.renderers.contains_key(run_id) ==> manager.editor_text_kept(
            run_id,
            text,
        ).renderers[run_id].pending_editor_text == Some(text),
        manager.editor_text_kept(run_id, earlier).editor_text_kept(run_id, text)
            == manager.editor_text_kept(run_id, text),
        manager.editor_text_kept(run_id, text).outbox == manager.outbox,
{
    if manager.renderers.contains_key(run_id) {
        assert(manager.editor_text_kept(run_id, earlier).editor_text_kept(run_id, text).renderers
            =~= manager.editor_text_kept(run_id, text).renderers);
    }
}

} // verus!
