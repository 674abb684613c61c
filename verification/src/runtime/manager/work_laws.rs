//! What the manager does with requests, answers and events, and whom it tells.
use vstd::prelude::*;
use vstd::string::*;

use crate::draft::DraftDurability;
use crate::events::ExtensionUiResponse;
use crate::ids::{RequestId, RunId};
use crate::rpc::{RpcCommand, RpcRequest, RpcResponse, RpcResponseOutcome};
use crate::runtime::composer::{
    calls_extension, submission_command, ComposerAction, DraftSubmission,
};
use crate::runtime::composer_laws::a_draft_is_sent_when_the_action_fits;
use crate::runtime::coalescing::UiCoalesceKeyView;
use crate::runtime::manager::actions::{display_key, ActionView, NoticeView, ReplyView, UiNotice};
use crate::runtime::manager::basics::{waiter_at, waits_for};
use crate::runtime::manager::lifecycle::{
    quarantined_among, startup_requests, ShutdownProgress, StartupIds,
};
use crate::runtime::manager::replies::page_of;
use crate::runtime::manager::surface::shows_notice;
use crate::runtime::manager::{ManagerView, WaiterView};
use crate::runtime::process_actor::{answered, CommandRoom};
use crate::runtime::projection::has_block;
use crate::runtime::rpc_controller::{
    CompletedRpcView, ControllerView, RunRpcController, RunRpcEffectView,
    SessionSyncCompletionView,
};
use crate::runtime::state::{ProcessState, RunFailureKind, RunRecordView, RuntimeStoreView};
use crate::runtime::stop::StopDirectiveView;
use crate::runtime::ui_queue::RuntimeUiEvent;

verus! {

/// Whether one more thing is to be done, and what.
pub open spec fn also_does(before: ManagerView, after: ManagerView, action: ActionView) -> bool {
    after.outbox == before.outbox.push(action)
}

/// Whether a renderer is told one more thing.
pub open spec fn also_tells(
    before: ManagerView,
    after: ManagerView,
    run_id: RunId,
    notice: NoticeView,
) -> bool {
    also_does(before, after, ActionView::Notify { run_id, notice })
}

/// A renderer is told of a run what happened to it, and a run without one tells nobody.
pub proof fn notices_go_to_the_renderer_of_the_run(
    manager: ManagerView,
    run_id: RunId,
    notice: NoticeView,
)
    ensures
        manager.renderers.contains_key(run_id) ==> also_tells(
            manager,
            manager.notified(run_id, notice),
            run_id,
            notice,
        ),
        !manager.renderers.contains_key(run_id) ==> manager.notified(run_id, notice) == manager,
        manager.renderers.contains_key(run_id) ==> also_tells(
            manager,
            manager.state_notified(run_id),
            run_id,
            NoticeView::StateChanged { runtime_revision: manager.store.revision },
        ),
{
}

/// What an event changed is told as it is: a finished tool with its identity, name, last
/// output and outcome, a notification with its text and kind, and so on. Nothing is told of
/// events that changed nothing.
pub proof fn effects_are_told_as_they_are(
    manager: ManagerView,
    run_id: RunId,
    effect: RunRpcEffectView,
)
    requires
        manager.renderers.contains_key(run_id),
        manager.controllers.contains_key(run_id),
    ensures
        ({
            let after = manager.effected(run_id, effect);
            let live = manager.controllers[run_id].live;
            match effect {
                RunRpcEffectView::Nothing => after == manager,
                RunRpcEffectView::ForwardCompatibleIgnored => after == manager,
                RunRpcEffectView::AssistantMessageReset => also_tells(
                    manager,
                    after,
                    run_id,
                    NoticeView::AssistantMessageReset,
                ),
                RunRpcEffectView::AssistantBlockUpdated { content_index } => has_block(
                    live.blocks,
                    content_index,
                ) ==> also_tells(
                    manager,
                    after,
                    run_id,
                    NoticeView::AssistantBlock { content_index },
                ),
                RunRpcEffectView::ToolUpdated { tool_call_id } => live.tools.contains_key(
                    tool_call_id,
                ) ==> also_tells(manager, after, run_id, NoticeView::Tool { tool_call_id }),
                RunRpcEffectView::DirectBashUpdated { request_id } => live.direct_bash.contains_key(
                    request_id,
                ) ==> also_tells(manager, after, run_id, NoticeView::DirectBash { request_id }),
                RunRpcEffectView::SemanticStateChanged => also_tells(
                    manager,
                    after,
                    run_id,
                    NoticeView::StateChanged { runtime_revision: manager.store.revision },
                ),
                RunRpcEffectView::ToolFinished { tool_call_id, tool_name, preview, is_error } => {
                    let told = after.outbox.last();
                    &&& after.outbox.len() == manager.outbox.len() + 1
                    &&& after.outbox.drop_last() == manager.outbox
                    &&& told is Notify && told->Notify_run_id == run_id
                    &&& told->notice is ToolFinished
                    &&& told->notice->ToolFinished_tool_call_id == tool_call_id
                    &&& told->notice->tool_name == tool_name
                    &&& told->notice->output == preview.output.text
                    &&& told->notice->dropped_bytes == preview.output.dropped_bytes
                    &&& told->notice->is_error == is_error
                },
                RunRpcEffectView::ExtensionDialogRequested(_) => {
                    &&& after.outbox.len() == manager.outbox.len() + 2
                    &&& after.outbox.take(manager.outbox.len() as int) == manager.outbox
                    &&& after.outbox[manager.outbox.len() as int] == (ActionView::Notify {
                        run_id,
                        notice: NoticeView::ExtensionDialogsChanged,
                    })
                    &&& after.outbox.last() == (ActionView::Notify {
                        run_id,
                        notice: NoticeView::StateChanged {
                            runtime_revision: manager.store.revision,
                        },
                    })
                },
                RunRpcEffectView::ExtensionNotification { message, notify_type } => also_tells(
                    manager,
                    after,
                    run_id,
                    NoticeView::ExtensionNotification { message, notify_type },
                ),
                RunRpcEffectView::ExtensionUiStateChanged => also_tells(
                    manager,
                    after,
                    run_id,
                    NoticeView::ExtensionUiStateChanged,
                ),
                RunRpcEffectView::SetEditorText { text } => also_does(
                    manager,
                    after,
                    ActionView::SetDraft { run_id, text },
                ),
            }
        }),
        manager.effected(run_id, effect).store == manager.store,
        manager.effected(run_id, effect).controllers == manager.controllers,
{
    let after = manager.effected(run_id, effect);
    if effect is ToolFinished {
        assert(after.outbox.drop_last() =~= manager.outbox);
    }
    if effect is ExtensionDialogRequested {
        assert(after.outbox.take(manager.outbox.len() as int) =~= manager.outbox);
    }
}

/// What a renderer sees is what the notice says: of a finished tool its identity, name, output
/// and outcome, of a notification its text and kind, of a process how it ended.
pub proof fn events_show_what_the_notice_says(
    event: RuntimeUiEvent,
    run_id: RunId,
    notice: UiNotice,
    controller: Option<RunRpcController>,
)
    requires
        shows_notice(event, run_id, notice, controller),
    ensures
        match notice {
            UiNotice::StateChanged { runtime_revision } => event is StateChanged
                && event->StateChanged_run_id == run_id && event->runtime_revision
                == runtime_revision,
            UiNotice::ToolFinished {
                tool_call_id,
                tool_name,
                output,
                dropped_bytes,
                is_error,
            } => {
                &&& event is ToolFinished
                &&& event->ToolFinished_run_id == run_id
                &&& event->tool_call_id == tool_call_id
                &&& event->tool_name == tool_name
                &&& event->output == output
                &&& event->dropped_bytes == dropped_bytes
                &&& event->is_error == is_error
            },
            UiNotice::CapabilitiesChanged { revision } => event is CapabilitiesChanged
                && event->CapabilitiesChanged_revision == revision,
            UiNotice::SessionSyncChanged { revision, resync_required } => event
                is SessionSyncChanged && event->SessionSyncChanged_revision == revision
                && event->resync_required == resync_required,
            UiNotice::ExtensionNotification { message, notify_type } => event
                is ExtensionNotification && event->message == message && event->notify_type
                == notify_type,
            UiNotice::ProcessTerminal { process } => event is ProcessTerminal && event->process
                == process && event->ProcessTerminal_run_id == run_id,
            UiNotice::AssistantMessageReset => event is AssistantMessageReset,
            UiNotice::AssistantBlock { content_index } => event is AssistantBlockUpdated && {
                let block = controller->0@.live.block(content_index);
                &&& event->block.content_index == block.content_index
                &&& event->block.kind == block.kind
                &&& event->block.text@ == block.content.text
                &&& event->block.complete == block.complete
            },
            UiNotice::Tool { tool_call_id } => event is ToolUpdated && {
                let tool = controller->0@.live.tools[tool_call_id@];
                &&& event->tool.tool_call_id@ == tool_call_id@
                &&& event->tool.tool_name@ == tool.tool_name
                &&& event->tool.output@ == tool.output.text
            },
            UiNotice::DirectBash { request_id } => event is DirectBashUpdated && {
                let output = controller->0@.live.direct_bash[request_id@];
                &&& event->bash.request_id@ == request_id@
                &&& event->bash.output@ == output.text
            },
            UiNotice::ExtensionDialogsChanged => event is ExtensionDialogsChanged,
            UiNotice::ExtensionUiStateChanged => event is ExtensionUiStateChanged,
            UiNotice::EditorTextChanged => event is EditorTextChanged,
            UiNotice::DraftChanged => event is DraftChanged,
            UiNotice::ComposerChanged => event is ComposerChanged,
        },
{
}

/// Only notices of progress stand in for each other, each under what it shows progress of.
pub proof fn only_progress_is_superseded(notice: NoticeView)
    ensures
        match notice {
            NoticeView::AssistantBlock { content_index } => display_key(notice) == Some(
                UiCoalesceKeyView::AssistantBlock(content_index),
            ),
            NoticeView::Tool { tool_call_id } => display_key(notice) == Some(
                UiCoalesceKeyView::ToolPreview(tool_call_id),
            ),
            NoticeView::DirectBash { request_id } => display_key(notice) == Some(
                UiCoalesceKeyView::DirectBash(request_id),
            ),
            _ => display_key(notice) is None,
        },
{
}

/// A request goes out as it is, once, and is known to its controller from then on; it takes
/// one place in the queue of the process. One that cannot go out leaves nothing to be done.
pub proof fn a_sent_request_goes_out_as_it_is(
    manager: ManagerView,
    run_id: RunId,
    request: RpcRequest,
)
    ensures
        ({
            let (after, result) = manager.sent(run_id, request);
            &&& result is Ok ==> {
                &&& also_does(manager, after, ActionView::SendRequest { run_id, request })
                &&& after.controllers[run_id].pending.requests.contains_key(request.id@)
                &&& after.controllers[run_id].pending.requests[request.id@].command
                    == request.command.spec_kind()
                &&& manager.processes[run_id] is Open
                &&& after.processes == manager.processes.insert(
                    run_id,
                    CommandRoom::Open((manager.processes[run_id]->Open_0 - 1) as usize),
                )
            }
            &&& result is Err ==> after.outbox == manager.outbox && after.processes
                == manager.processes
            &&& manager.controllers.contains_key(run_id)
                && manager.controllers[run_id].request_refusal(request) is None
                && manager.processes.contains_key(run_id) && manager.processes[run_id] is Open
                && manager.processes[run_id]->Open_0 > 0 ==> result is Ok
            &&& after.store == manager.store && after.waiters == manager.waiters
            &&& after.submissions == manager.submissions && after.stops == manager.stops
        }),
{
}

/// Who asks for a request waits for its answer if it went out, and is told why if it did not.
pub proof fn who_asks_waits_or_is_refused(
    manager: ManagerView,
    run_id: RunId,
    request: RpcRequest,
    ticket: u64,
)
    ensures
        ({
            let (sent, result) = manager.sent(run_id, request);
            let after = manager.dispatched(run_id, request, ticket);
            &&& result is Ok ==> after.outbox == sent.outbox && after.waiters
                == manager.waiters.push(
                WaiterView { run_id, request_id: request.id@, extension: false, ticket },
            )
            &&& result is Err ==> after.waiters == manager.waiters && also_does(
                manager,
                after,
                ActionView::Reply { ticket, reply: ReplyView::Refused(result->Err_0) },
            )
        }),
{
}

/// A request goes out at once unless it would replace the session while drafts are stored;
/// while a replacement waits for the draft, every request of the run is refused.
pub proof fn requests_go_out_at_once(
    manager: ManagerView,
    run_id: RunId,
    request: RpcRequest,
    ticket: u64,
    draft: Option<DraftDurability>,
    now_ms: u64,
)
    ensures
        ({
            let after = manager.request_begun(run_id, request, ticket, draft, now_ms);
            let replaces = request.command is NewSession || request.command is SwitchSession
                || request.command is Fork || request.command is Clone;
            &&& manager.replacements.contains_key(run_id) ==> after.controllers
                == manager.controllers && after.outbox.len() == manager.outbox.len() + 1
                && after.outbox.last() is Reply && after.outbox.last()->Reply_ticket == ticket
                && after.outbox.last()->reply is Refused
            &&& !manager.replacements.contains_key(run_id) && (!replaces || !manager.persistence)
                ==> after == manager.dispatched(run_id, request, ticket)
            &&& !manager.replacements.contains_key(run_id) && replaces && manager.persistence
                && draft == Some(DraftDurability::Saved) && !manager.restore_pending(run_id)
                && manager.sessions.contains_key(run_id) ==> after == manager.dispatched(
                run_id,
                request,
                ticket,
            )
            &&& !manager.replacements.contains_key(run_id) && replaces && manager.persistence
                && draft is Some && draft != Some(DraftDurability::Saved)
                && !manager.restore_pending(run_id) && manager.sessions.contains_key(run_id) ==> {
                let waiting = after.replacements[run_id];
                &&& after.replacements.contains_key(run_id)
                &&& waiting.request == request && waiting.ticket == ticket
                &&& waiting.session_id == manager.sessions[run_id]
                &&& now_ms + manager.limits.draft_flush_deadline_ms <= u64::MAX
                    ==> waiting.deadline_ms == now_ms + manager.limits.draft_flush_deadline_ms
                &&& draft != Some(DraftDurability::Saving) ==> also_does(
                    manager,
                    after,
                    ActionView::SaveDraft { session_id: manager.sessions[run_id] },
                )
                &&& draft == Some(DraftDurability::Saving) ==> after.outbox == manager.outbox
            }
        }),
{
}

/// A replacement that waits goes out once the draft is stored, with the request that was asked
/// for, and is given up where the draft cannot be; until then it waits.
pub proof fn a_replacement_goes_out_once_the_draft_is_stored(
    manager: ManagerView,
    run_id: RunId,
    session_id: Seq<char>,
    draft: Option<DraftDurability>,
    error: Option<&str>,
)
    requires
        manager.replacements.contains_key(run_id),
    ensures
        ({
            let after = manager.replacement_continued(run_id, session_id, draft, error);
            let pending = manager.replacements[run_id];
            let without = ManagerView {
                replacements: manager.replacements.remove(run_id),
                ..manager
            };
            &&& draft == Some(DraftDurability::Saved) ==> after == without.dispatched(
                run_id,
                pending.request,
                pending.ticket,
            )
            &&& draft is None || draft == Some(DraftDurability::Failed) ==> {
                &&& !after.replacements.contains_key(run_id)
                &&& after.outbox.len() == manager.outbox.len() + 1
                &&& after.outbox.last() is Reply
                &&& after.outbox.last()->Reply_ticket == pending.ticket
                &&& after.outbox.last()->reply is Refused
                &&& after.controllers == manager.controllers
            }
            &&& draft == Some(DraftDurability::Failed) && error is Some
                ==> after.outbox.last()->reply == ReplyView::Refused(error->0@)
            &&& draft == Some(DraftDurability::Dirty) ==> after.replacements
                == manager.replacements && also_does(
                manager,
                after,
                ActionView::SaveDraft { session_id },
            )
            &&& draft == Some(DraftDurability::Saving) ==> after == manager
        }),
{
}

proof fn lemma_waiter(
    waiters: Seq<WaiterView>,
    run_id: RunId,
    request_id: Seq<char>,
    extension: bool,
)
    ensures
        match waiter_at(waiters, run_id, request_id, extension) {
            Some(i) => 0 <= i < waiters.len() && waiters[i].run_id == run_id
                && waiters[i].request_id == request_id && waiters[i].extension == extension,
            None => forall|i: int|
                0 <= i < waiters.len() ==> !((#[trigger] waiters[i]).run_id == run_id
                    && waiters[i].request_id == request_id && waiters[i].extension == extension),
        },
    decreases waiters.len(),
{
    if waiters.len() > 0 && !waits_for(waiters.last(), run_id, request_id, extension) {
        let rest = waiters.drop_last();
        lemma_waiter(rest, run_id, request_id, extension);
        if waiter_at(rest, run_id, request_id, extension) is None {
            assert forall|i: int| 0 <= i < waiters.len() implies !((
            #[trigger] waiters[i]).run_id == run_id && waiters[i].request_id == request_id
                && waiters[i].extension == extension) by {
                if i < rest.len() {
                    assert(rest[i] == waiters[i]);
                }
            }
        }
    }
}

/// An answer goes to one who waits for exactly this request of this run, and to nobody else:
/// all others go on waiting.
pub proof fn answers_go_to_who_waits_for_them(
    manager: ManagerView,
    run_id: RunId,
    request_id: Seq<char>,
    extension: bool,
    reply: ReplyView,
)
    ensures
        ({
            let after = manager.waiter_answered(run_id, request_id, extension, reply);
            let waited = exists|i: int|
                0 <= i < manager.waiters.len() && (#[trigger] manager.waiters[i]).run_id == run_id
                    && manager.waiters[i].request_id == request_id && manager.waiters[i].extension
                    == extension;
            &&& !waited ==> after == manager
            &&& waited ==> exists|i: int|
                {
                    let waiter = #[trigger] manager.waiters[i];
                    &&& 0 <= i < manager.waiters.len()
                    &&& waiter.run_id == run_id && waiter.request_id == request_id
                    &&& waiter.extension == extension
                    &&& after.waiters == manager.waiters.remove(i)
                    &&& also_does(
                        manager,
                        after,
                        ActionView::Reply { ticket: waiter.ticket, reply },
                    )
                }
        }),
{
    lemma_waiter(manager.waiters, run_id, request_id, extension);
    match waiter_at(manager.waiters, run_id, request_id, extension) {
        Some(i) => {
            assert(manager.waiters[i].run_id == run_id);
        },
        None => {},
    }
}

/// A draft that goes out goes out as what was asked for, from a run that is ready for it, and
/// its sender waits under the identity of the request. One that does not is refused, and
/// nothing goes out.
pub proof fn a_draft_goes_out_from_a_run_that_is_ready(
    manager: ManagerView,
    run_id: RunId,
    action: ComposerAction,
    draft: DraftSubmission,
    ticket: u64,
    request_id: RequestId,
)
    requires
        !manager.submissions.contains_key(run_id),
    ensures
        ({
            let after = manager.submission_begun(run_id, action, Ok(draft), ticket, request_id);
            let run = manager.store.runs[run_id];
            let extension = manager.controllers.contains_key(run_id) && calls_extension(
                draft.text@,
                manager.controllers[run_id].capabilities,
            );
            &&& after.submissions.contains_key(run_id) ==> {
                let sent = after.submissions[run_id];
                &&& sent.action == action && sent.ticket == ticket
                &&& sent.request_id == request_id@
                &&& sent.draft_generation == draft.generation
                &&& manager.store.runs.contains_key(run_id)
                &&& run.process == ProcessState::Ready && !run.compacting
                &&& action == ComposerAction::Send <==> !run.agent_working
                &&& action == ComposerAction::RunCommand <==> run.agent_working && extension
                &&& after.outbox.len() > manager.outbox.len()
                &&& after.outbox[manager.outbox.len() as int] == (ActionView::SendRequest {
                    run_id,
                    request: RpcRequest {
                        id: request_id,
                        command: submission_command(action, draft),
                    },
                })
            }
            &&& !after.submissions.contains_key(run_id) ==> {
                &&& after.outbox.len() == manager.outbox.len() + 1
                &&& after.outbox.last() is Reply
                &&& after.outbox.last()->Reply_ticket == ticket
                &&& after.outbox.last()->reply is Refused
            }
        }),
{
    if manager.composer_blocked(run_id) is None {
        let run = manager.store.runs[run_id];
        a_draft_is_sent_when_the_action_fits(
            action,
            run.availability(),
            match run.session.model {
                Some(model) => model.supports_images,
                None => None,
            },
            manager.controllers.contains_key(run_id) && calls_extension(
                draft.text@,
                manager.controllers[run_id].capabilities,
            ),
            draft,
        );
    }
}

/// A draft cannot be sent while another one is under way, while the session is being replaced,
/// or while the draft is being read; and it cannot be changed while the session is being
/// replaced, while it is being read, or once everything ends.
pub proof fn drafts_wait_for_what_is_under_way(manager: ManagerView, run_id: RunId)
    ensures
        ({
            let reading = manager.sessions.contains_key(run_id)
                && manager.loads_pending.contains_key(manager.sessions[run_id]);
            &&& manager.composer_blocked(run_id) is None <==> !manager.submissions.contains_key(
                run_id,
            ) && !manager.replacements.contains_key(run_id) && !reading
                && manager.store.runs.contains_key(run_id)
            &&& manager.draft_refusal(run_id) is None <==> manager.shutdown is None
                && manager.store.runs.contains_key(run_id) && !manager.replacements.contains_key(
                run_id,
            ) && !reading
        }),
{
}

/// A session that was read from disk is followed from where it was read up to, if it is the
/// session of the run; one that is followed already is left alone.
pub proof fn a_session_is_followed_from_where_it_was_read(
    manager: ManagerView,
    run_id: RunId,
    expected: Seq<char>,
    cursor: String,
    leaf_id: Option<Seq<char>>,
    sync_id: RequestId,
)
    ensures
        ({
            let (after, result) = manager.sync_bootstrapped(
                run_id,
                expected,
                cursor,
                leaf_id,
                sync_id,
            );
            let run = manager.store.runs[run_id];
            let sync = manager.controllers[run_id].session_sync;
            let request = RpcRequest {
                id: sync_id,
                command: RpcCommand::GetEntries { since: Some(cursor) },
            };
            &&& result is Ok ==> manager.store.runs.contains_key(run_id) && run.session.session_id
                is Some && run.session.session_id->0@ == expected
                && manager.controllers.contains_key(run_id)
            &&& result is Ok && sync.initialized && !sync.resync_required ==> after == manager
            &&& result is Ok && !(sync.initialized && !sync.resync_required) ==> {
                &&& after.controllers[run_id].session_sync.cursor == Some(cursor@)
                &&& after.controllers[run_id].session_sync.leaf_id == leaf_id
                &&& after.controllers[run_id].session_sync.initialized
                &&& !after.controllers[run_id].session_sync.resync_required
                &&& after.outbox.last() == (ActionView::SendRequest { run_id, request })
            }
        }),
{
}

/// After the agent has settled, new entries are asked for from where the session was read up
/// to, unless it is not followed, a Stop is under way or everything ends.
pub proof fn new_entries_are_asked_for(manager: ManagerView, run_id: RunId, sync_id: RequestId, cursor: String)
    ensures
        ({
            let sync = manager.controllers[run_id].session_sync;
            let follows = manager.shutdown is None && !manager.stops.contains_key(run_id)
                && manager.controllers.contains_key(run_id) && sync.initialized
                && !sync.resync_required && sync.cursor is Some;
            &&& manager.sync_cursor(run_id) is Some <==> follows
            &&& follows ==> manager.sync_cursor(run_id) == sync.cursor
            &&& !follows ==> manager.synced(run_id, sync_id, cursor) == manager
            &&& follows ==> manager.synced(run_id, sync_id, cursor) == manager.sent(
                run_id,
                RpcRequest {
                    id: sync_id,
                    command: RpcCommand::GetEntries { since: Some(cursor) },
                },
            ).0
        }),
{
}

/// An answer to a question goes out as it is if the question is open and nobody else answers
/// it, and who answers waits until it is written.
pub proof fn an_answer_to_a_question_goes_out_once(
    manager: ManagerView,
    run_id: RunId,
    response: ExtensionUiResponse,
    ticket: u64,
)
    ensures
        ({
            let id = answered(response)@;
            let after = manager.extension_answered(run_id, response, ticket);
            let open = manager.controllers.contains_key(run_id)
                && manager.controllers[run_id].pending_dialogs.contains_key(id);
            let taken = exists|i: int|
                0 <= i < manager.waiters.len() && (#[trigger] manager.waiters[i]).run_id == run_id
                    && manager.waiters[i].request_id == id && manager.waiters[i].extension;
            let room = manager.processes.contains_key(run_id) && manager.processes[run_id] is Open
                && manager.processes[run_id]->Open_0 > 0;
            &&& open && !taken && room ==> also_does(
                manager,
                after,
                ActionView::SendExtensionResponse { run_id, response },
            ) && after.waiters == manager.waiters.push(
                WaiterView { run_id, request_id: id, extension: true, ticket },
            )
            &&& !(open && !taken && room) ==> {
                &&& after.waiters == manager.waiters
                &&& after.outbox.len() == manager.outbox.len() + 1
                &&& after.outbox.last() is Reply
                &&& after.outbox.last()->Reply_ticket == ticket
                &&& after.outbox.last()->reply is Refused
            }
        }),
{
    lemma_waiter(manager.waiters, run_id, answered(response)@, true);
}

/// A new process is asked for its state, its models, its levels of thinking and its commands,
/// in that order.
pub proof fn a_new_process_is_asked_what_it_is_about(ids: StartupIds)
    ensures
        ({
            let requests = startup_requests(ids);
            &&& requests.len() == 4
            &&& requests[0] == (RpcRequest { id: ids.state, command: RpcCommand::GetState })
            &&& requests[1] == (RpcRequest {
                id: ids.models,
                command: RpcCommand::GetAvailableModels,
            })
            &&& requests[2] == (RpcRequest {
                id: ids.thinking_levels,
                command: RpcCommand::GetAvailableThinkingLevels,
            })
            &&& requests[3] == (RpcRequest { id: ids.commands, command: RpcCommand::GetCommands })
        }),
{
}

/// A run that is registered is known with its record, a fresh controller and an empty queue to
/// its renderer; other runs are as they were.
pub proof fn a_registered_run_is_known(
    manager: ManagerView,
    record: RunRecordView,
    session_id: Option<Seq<char>>,
    room: CommandRoom,
    other: RunId,
)
    requires
        other != record.id,
    ensures
        ({
            let after = manager.with_run(record, session_id, room);
            &&& after.store.runs.contains_key(record.id) && after.store.runs[record.id] == record
            &&& after.controllers[record.id] == ControllerView::fresh(record.id, manager.limits)
            &&& after.renderers[record.id].backlog.frames.len() == 0
            &&& after.processes[record.id] == room
            &&& session_id is Some ==> after.sessions[record.id] == session_id->0
            &&& after.store.runs.contains_key(other) == manager.store.runs.contains_key(other)
            &&& manager.store.runs.contains_key(other) ==> after.store.runs[other]
                == manager.store.runs[other]
            &&& manager.store.revision < u64::MAX ==> after.store.revision
                == manager.store.revision + 1
            &&& after.outbox == manager.outbox
        }),
{
}

/// A process is ready once its first question was answered with its state and the draft of its
/// session can be shown; a refusal of that question, or of the draft, fails the run instead.
pub proof fn a_process_is_ready_once_its_state_is_known(
    manager: ManagerView,
    run_id: RunId,
    response: RpcResponse,
    outcome: RpcResponseOutcome,
    bound: Result<Option<DraftDurability>, String>,
    now_ms: u64,
    now_unix_ms: u64,
)
    requires
        manager.store.runs.contains_key(run_id),
        manager.store.runs[run_id].process == ProcessState::Starting,
        response.command@ == "get_state"@,
    ensures
        ({
            let (after, result) = manager.state_taken(
                run_id,
                response,
                outcome,
                true,
                bound,
                now_ms,
                now_unix_ms,
            );
            let session = manager.store.runs[run_id].session.session_id;
            let accepted = outcome == RpcResponseOutcome::Accepted;
            &&& accepted && session is None ==> result is Err
            &&& accepted && session is Some && bound is Err ==> result == Err::<(), Seq<char>>(
                bound->Err_0@,
            ) && after == manager
            &&& accepted && session is Some && bound is Ok ==> {
                &&& result is Ok
                &&& after.store.runs[run_id].process == ProcessState::Ready
                &&& after.sessions.contains_key(run_id)
                &&& after.sessions[run_id] == session->0@
            }
        }),
{
}

/// What an answer brought is told: changed capabilities, a page of entries or that a new start
/// is due, and the state of the run in any case.
pub proof fn what_an_answer_brought_is_told(
    manager: ManagerView,
    run_id: RunId,
    done: CompletedRpcView,
)
    requires
        manager.renderers.contains_key(run_id),
    ensures
        ({
            let after = manager.answer_shown(run_id, done);
            let n = manager.outbox.len() as int;
            &&& after.outbox.last() == (ActionView::Notify {
                run_id,
                notice: NoticeView::StateChanged { runtime_revision: manager.store.revision },
            })
            &&& done.capabilities_changed ==> after.outbox[n] == (ActionView::Notify {
                run_id,
                notice: NoticeView::CapabilitiesChanged {
                    revision: manager.controllers[run_id].capabilities.revision,
                },
            })
            &&& done.session_sync is Some && done.session_sync->0 is Page ==> after.outbox[
                after.outbox.len() - 2] == (ActionView::Notify {
                run_id,
                notice: NoticeView::SessionSyncChanged {
                    revision: done.session_sync->0->applied.revision,
                    resync_required: false,
                },
            })
            &&& done.session_sync is Some && done.session_sync->0 is ResyncRequired
                ==> after.outbox[after.outbox.len() - 2] == (ActionView::Notify {
                run_id,
                notice: NoticeView::SessionSyncChanged {
                    revision: done.session_sync->0->ResyncRequired_revision,
                    resync_required: true,
                },
            })
            &&& !done.capabilities_changed && done.session_sync is None ==> after.outbox.len() == n
                + 1
        }),
{
}

/// Who waits for an answer gets the answer itself, with the page of entries that it brought,
/// or with the word that a new start is due.
pub proof fn who_waits_gets_the_answer_itself(done: CompletedRpcView, response: RpcResponse)
    ensures
        match done.session_sync {
            Some(SessionSyncCompletionView::Page { page, .. }) => page_of(done.session_sync)
                == Some(page),
            _ => page_of(done.session_sync) is None,
        },
{
}

/// The draft of a session is read once, when the session of a run becomes known.
pub proof fn a_draft_is_read_once(manager: ManagerView, run_id: RunId)
    ensures
        ({
            let after = manager.load_queued(run_id);
            let due = manager.persistence && manager.sessions.contains_key(run_id)
                && !manager.loads_attempted.contains_key(manager.sessions[run_id]);
            &&& due ==> also_does(
                manager,
                after,
                ActionView::LoadDraft { session_id: manager.sessions[run_id] },
            ) && after.loads_pending.contains_key(manager.sessions[run_id])
                && after.loads_attempted.contains_key(manager.sessions[run_id])
            &&& !due ==> after == manager
            &&& after.load_queued(run_id) == after
        }),
{
}

/// A draft that changed is stored once it has rested for its time; a stored one, or one that
/// cannot be stored, is not scheduled.
pub proof fn changed_drafts_are_stored_after_a_rest(
    manager: ManagerView,
    run_id: RunId,
    draft: Option<DraftDurability>,
    now_ms: u64,
)
    ensures
        ({
            let after = manager.save_scheduled(run_id, draft, now_ms);
            let due = manager.persistence && draft == Some(DraftDurability::Dirty)
                && manager.sessions.contains_key(run_id);
            &&& due ==> after.save_deadlines.contains_key(manager.sessions[run_id]) && (now_ms
                + manager.limits.draft_save_debounce_ms <= u64::MAX
                ==> after.save_deadlines[manager.sessions[run_id]] == now_ms
                + manager.limits.draft_save_debounce_ms)
            &&& !due ==> after == manager
            &&& after.outbox == manager.outbox
        }),
{
}

/// What is due happens, and what is not waits: a replacement is given up, a draft is stored, a
/// process that has not answered fails, and a Stop goes on by force.
pub proof fn what_is_due_happens(
    manager: ManagerView,
    run_id: RunId,
    session_id: Seq<char>,
    now_ms: u64,
    now_unix_ms: u64,
)
    ensures
        ({
            let due = manager.replacements.contains_key(run_id)
                && manager.replacements[run_id].deadline_ms <= now_ms;
            let after = manager.replacement_timed(run_id, now_ms);
            &&& !due ==> after == manager
            &&& due ==> !after.replacements.contains_key(run_id) && after.outbox.last() is Reply
                && after.outbox.last()->Reply_ticket == manager.replacements[run_id].ticket
                && after.outbox.last()->reply is Refused
        }),
        ({
            let due = manager.save_deadlines.contains_key(session_id)
                && manager.save_deadlines[session_id] <= now_ms;
            let after = manager.save_timed(session_id, now_ms);
            &&& !due ==> after == manager
            &&& due ==> !after.save_deadlines.contains_key(session_id) && also_does(
                manager,
                after,
                ActionView::SaveDraft { session_id },
            )
        }),
        ({
            let due = manager.startups.contains_key(run_id) && manager.startups[run_id].deadline_ms
                <= now_ms;
            let after = manager.startup_timed(run_id, now_ms, now_unix_ms);
            &&& !due ==> after == manager
            &&& due ==> !after.startups.contains_key(run_id)
            &&& due && manager.store.runs.contains_key(run_id)
                && manager.store.runs[run_id].process == ProcessState::Starting
                ==> after.store.runs[run_id].process == ProcessState::Stopping
                && after.failures[run_id].kind == RunFailureKind::Protocol
        }),
        ({
            let due = manager.stops.contains_key(run_id)
                && manager.stops[run_id].transaction.rpc_deadline_ms <= now_ms;
            !due ==> manager.stop_timed(run_id, now_ms, now_unix_ms) == manager
        }),
{
}

/// A Stop that ends hands what was recovered to who asked for it, and is over.
pub proof fn a_finished_stop_hands_the_queue_back(
    manager: ManagerView,
    run_id: RunId,
    directive: StopDirectiveView,
    now_unix_ms: u64,
)
    requires
        manager.stops.contains_key(run_id),
    ensures
        ({
            let after = manager.directed(run_id, directive, now_unix_ms);
            match directive {
                StopDirectiveView::Complete { recovered } => {
                    let done = after.outbox.last();
                    &&& !after.stops.contains_key(run_id)
                    &&& after.outbox.len() == manager.outbox.len() + 1
                    &&& done is FinishStop
                    &&& done->FinishStop_run_id == run_id
                    &&& done->FinishStop_ticket == manager.stops[run_id].ticket
                    &&& done->steering == recovered.steering
                    &&& done->follow_up == recovered.follow_up
                    &&& !done->process_terminated && !done->quarantined
                },
                StopDirectiveView::TerminateProcess { termination_deadline_ms, .. } => {
                    &&& after.stops == manager.stops
                    &&& manager.processes.contains_key(run_id) ==> after.outbox.last() == (
                    ActionView::Terminate { run_id, deadline_ms: termination_deadline_ms })
                },
                StopDirectiveView::Send(request) => manager.sent(run_id, request).1 is Ok ==> after
                    == manager.sent(run_id, request).0,
                StopDirectiveView::WaitForAgentSettled => after == manager,
                StopDirectiveView::Nothing => after == manager,
            }
        }),
{
}

/// A shutdown is done once no process is left and no draft waits to be stored; drafts that are
/// late are given up after their time.
pub proof fn a_shutdown_waits_for_processes_and_drafts(
    manager: ManagerView,
    saves_in_flight: bool,
    now_ms: u64,
)
    requires
        manager.processes.dom().finite(),
        manager.save_deadlines.dom().finite(),
    ensures
        ({
            let progress = manager.shutdown_progress(saves_in_flight, now_ms);
            let ended = manager.processes.dom() =~= Set::<RunId>::empty();
            let stored = !saves_in_flight && manager.save_deadlines.dom() =~= Set::<
                Seq<char>,
            >::empty();
            &&& progress == ShutdownProgress::Done <==> manager.shutdown is Some && ended && stored
            &&& progress == ShutdownProgress::DraftsLate <==> manager.shutdown is Some && ended
                && !stored && now_ms >= manager.shutdown->0.draft_deadline_ms
        }),
{
    if manager.processes.dom().len() == 0 {
        manager.processes.dom().lemma_len0_is_empty();
    }
    if manager.save_deadlines.dom().len() == 0 {
        manager.save_deadlines.dom().lemma_len0_is_empty();
    }
}

/// A shutdown reports how many runs it ended and how many of them are under quarantine.
pub proof fn a_shutdown_reports_what_it_ended(
    runs: Seq<RunId>,
    run_id: RunId,
    store: RuntimeStoreView,
)
    ensures
        quarantined_among(Seq::empty(), store) == 0,
        quarantined_among(runs.push(run_id), store) == quarantined_among(runs, store) + (
        if store.runs.contains_key(run_id) && store.runs[run_id].process
            == ProcessState::Quarantined {
            1int
        } else {
            0
        }),
        quarantined_among(runs, store) <= runs.len(),
    decreases runs.len(),
{
    assert(runs.push(run_id).drop_last() =~= runs);
    if runs.len() > 0 {
        a_shutdown_reports_what_it_ended(runs.drop_last(), run_id, store);
    }
}

/// How a run that exits by itself ended: as it was told to where it was stopping, and else as
/// a failure, which is the one that was noted before or that it exited at all.
pub proof fn an_exit_is_a_failure_unless_it_was_asked_for(
    manager: ManagerView,
    run_id: RunId,
    code: Option<i32>,
    detail: Seq<char>,
)
    ensures
        manager.failures.contains_key(run_id) ==> manager.exit_failure(run_id, code) == Some(
            manager.failures[run_id],
        ),
        !manager.failures.contains_key(run_id) ==> (manager.exit_failure(run_id, code) is None
            <==> manager.store.runs[run_id].process == ProcessState::Stopping),
        !manager.failures.contains_key(run_id) && manager.store.runs[run_id].process
            != ProcessState::Stopping ==> manager.exit_failure(run_id, code)->0.kind
            == RunFailureKind::UnexpectedExit,
        manager.failures.contains_key(run_id) ==> manager.quarantine_failure(run_id, detail)
            == manager.failures[run_id],
        !manager.failures.contains_key(run_id) ==> manager.quarantine_failure(run_id, detail).kind
            == RunFailureKind::Stop && manager.quarantine_failure(run_id, detail).detail == detail,
{
}

/// A renderer is woken once for everything that came since its last visit, and again on demand
/// for what still waits; a visit brings no more than the queue of commands is long.
pub proof fn renderers_are_woken_for_what_waits(
    manager: ManagerView,
    run_id: RunId,
    key: Option<UiCoalesceKeyView>,
    payload: Seq<u8>,
    max_events: usize,
)
    requires
        manager.renderers.contains_key(run_id),
    ensures
        ({
            let after = manager.delivered(run_id, key, Some(payload));
            let woken = manager.renderers[run_id].dirty_signaled;
            &&& after.renderers[run_id].dirty_signaled
            &&& !woken ==> also_does(manager, after, ActionView::Wake { run_id })
            &&& woken ==> after.outbox == manager.outbox
        }),
        manager.renderers[run_id].pending() ==> also_does(
            manager,
            manager.resignaled(run_id),
            ActionView::Wake { run_id },
        ),
        !manager.renderers[run_id].pending() ==> manager.resignaled(run_id) == manager,
        manager.drain_limit(max_events) <= max_events,
        manager.drain_limit(max_events) <= manager.limits.max_runtime_command_queue,
        manager.drain_limit(max_events) == max_events || manager.drain_limit(max_events)
            == manager.limits.max_runtime_command_queue,
{
}

} // verus!
