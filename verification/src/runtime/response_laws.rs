//! What the answers of Pi do, and to which request they belong.
use vstd::prelude::*;
use vstd::string::*;

use crate::limits::RuntimeLimits;
use crate::rpc::{
    gate_refusal, ActiveRpcCommand, PendingRequestError, PendingRequestsView, RpcCommand,
    RpcCommandKind, RpcGateError, RpcRequest, RpcResponse, RpcResponseOutcome,
    SessionEntriesPageView,
};
use crate::runtime::controller_laws::{coherent, correlated_response_finds_its_owners};
use crate::runtime::event_laws::ready;
use crate::runtime::rpc_controller::{
    ControllerErrorView, ControllerView, SessionSyncCompletionView,
};
use crate::runtime::session_sync::{cursor_refusal, entry_ids, first_repeated, SessionSyncView};
use crate::runtime::state::{RunMutation, RuntimeStoreView};
use crate::text::{byte_len, optional_view};

verus! {

/// Commands go to Pi by these names.
pub proof fn commands_go_by_their_names(kind: RpcCommandKind)
    ensures
        kind == RpcCommandKind::Prompt ==> kind.wire()@ == "prompt"@,
        kind == RpcCommandKind::Steer ==> kind.wire()@ == "steer"@,
        kind == RpcCommandKind::FollowUp ==> kind.wire()@ == "follow_up"@,
        kind == RpcCommandKind::ClearQueue ==> kind.wire()@ == "clear_queue"@,
        kind == RpcCommandKind::Abort ==> kind.wire()@ == "abort"@,
        kind == RpcCommandKind::GetState ==> kind.wire()@ == "get_state"@,
        kind == RpcCommandKind::GetEntries ==> kind.wire()@ == "get_entries"@,
        kind == RpcCommandKind::GetAvailableModels ==> kind.wire()@ == "get_available_models"@,
        kind == RpcCommandKind::GetAvailableThinkingLevels ==> kind.wire()@
            == "get_available_thinking_levels"@,
        kind == RpcCommandKind::GetCommands ==> kind.wire()@ == "get_commands"@,
        kind == RpcCommandKind::GetSessionStats ==> kind.wire()@ == "get_session_stats"@,
        kind == RpcCommandKind::Bash ==> kind.wire()@ == "bash"@,
        kind == RpcCommandKind::SetModel ==> kind.wire()@ == "set_model"@,
        kind == RpcCommandKind::SetThinkingLevel ==> kind.wire()@ == "set_thinking_level"@,
        kind == RpcCommandKind::SetAutoCompaction ==> kind.wire()@ == "set_auto_compaction"@,
        kind == RpcCommandKind::SetSessionName ==> kind.wire()@ == "set_session_name"@,
        kind == RpcCommandKind::Compact ==> kind.wire()@ == "compact"@,
        kind == RpcCommandKind::NewSession ==> kind.wire()@ == "new_session"@,
        kind == RpcCommandKind::SwitchSession ==> kind.wire()@ == "switch_session"@,
        kind == RpcCommandKind::Fork ==> kind.wire()@ == "fork"@,
        kind == RpcCommandKind::Clone ==> kind.wire()@ == "clone"@,
{
}

/// Each command is of its own kind, and exactly those that put another session in place of
/// the present one replace the session.
pub proof fn commands_are_of_their_kind(command: RpcCommand)
    ensures
        ({
            let kind = command.spec_kind();
            &&& command is Prompt <==> kind == RpcCommandKind::Prompt
            &&& command is Steer <==> kind == RpcCommandKind::Steer
            &&& command is FollowUp <==> kind == RpcCommandKind::FollowUp
            &&& command is ClearQueue <==> kind == RpcCommandKind::ClearQueue
            &&& command is Abort <==> kind == RpcCommandKind::Abort
            &&& command is GetState <==> kind == RpcCommandKind::GetState
            &&& command is GetEntries <==> kind == RpcCommandKind::GetEntries
            &&& command is GetAvailableModels <==> kind == RpcCommandKind::GetAvailableModels
            &&& command is GetAvailableThinkingLevels <==> kind
                == RpcCommandKind::GetAvailableThinkingLevels
            &&& command is GetCommands <==> kind == RpcCommandKind::GetCommands
            &&& command is GetSessionStats <==> kind == RpcCommandKind::GetSessionStats
            &&& command is Bash <==> kind == RpcCommandKind::Bash
            &&& command is SetModel <==> kind == RpcCommandKind::SetModel
            &&& command is SetThinkingLevel <==> kind == RpcCommandKind::SetThinkingLevel
            &&& command is SetAutoCompaction <==> kind == RpcCommandKind::SetAutoCompaction
            &&& command is SetSessionName <==> kind == RpcCommandKind::SetSessionName
            &&& command is Compact <==> kind == RpcCommandKind::Compact
            &&& command is NewSession <==> kind == RpcCommandKind::NewSession
            &&& command is SwitchSession <==> kind == RpcCommandKind::SwitchSession
            &&& command is Fork <==> kind == RpcCommandKind::Fork
            &&& command is Clone <==> kind == RpcCommandKind::Clone
            &&& kind.replaces_session() <==> command is NewSession || command is SwitchSession
                || command is Fork || command is Clone
        }),
{
}

/// An answer is a rejection if and only if it reports no success; a success that was
/// cancelled is neither accepted nor rejected.
pub proof fn answers_are_accepted_cancelled_or_rejected(response: RpcResponse)
    ensures
        response.spec_outcome() == RpcResponseOutcome::Rejected <==> !response.success,
        response.spec_outcome() == RpcResponseOutcome::Cancelled <==> response.success
            && response.cancelled,
        response.spec_outcome() == RpcResponseOutcome::Accepted <==> response.success
            && !response.cancelled,
{
}

/// An answer belongs to a request if and only if it names the request and the command of it.
pub proof fn answers_belong_to_their_request(pending: PendingRequestsView, response: RpcResponse)
    ensures
        pending.mismatch(response) is None <==> response.id is Some
            && pending.requests.contains_key(response.id->0@)
            && pending.requests[response.id->0@].command.wire()@ == response.command@,
        response.id is None ==> pending.mismatch(response) == Some(
            PendingRequestError::MissingResponseId,
        ),
        response.id is Some && !pending.requests.contains_key(response.id->0@)
            ==> pending.mismatch(response) == Some(
            PendingRequestError::UnknownResponse { id: response.id->0 },
        ),
{
}

/// A request is registered unless its identity is taken or too many wait already; it then
/// waits under its identity, as what it is, until the time that was given.
pub proof fn requests_wait_under_their_identity(
    pending: PendingRequestsView,
    request: RpcRequest,
    expires_at_ms: Option<u64>,
)
    ensures
        pending.refusal(request) is None <==> !pending.requests.contains_key(request.id@)
            && pending.requests.dom().len() < pending.limit,
        ({
            let after = pending.registered(request, expires_at_ms);
            &&& after.limit == pending.limit
            &&& after.requests.contains_key(request.id@)
            &&& after.requests[request.id@].id == request.id@
            &&& after.requests[request.id@].command == request.command.spec_kind()
            &&& after.requests[request.id@].expires_at_ms == expires_at_ms
            &&& after.requests.remove(request.id@) == pending.requests.remove(request.id@)
        }),
{
    let after = pending.registered(request, expires_at_ms);
    assert(after.requests.remove(request.id@) =~= pending.requests.remove(request.id@));
}

/// A command may start unless its identity is taken or a second replacement of the session
/// would be under way; nothing else has to wait.
pub proof fn only_a_second_replacement_waits(
    active: Map<Seq<char>, ActiveRpcCommand>,
    request: RpcRequest,
)
    requires
        forall|id: Seq<char>| #[trigger]
            active.contains_key(id) ==> active[id].class == active[id].command.class(),
    ensures
        ({
            let replacing = exists|id: Seq<char>| #[trigger]
                active.contains_key(id) && active[id].command.replaces_session();
            &&& gate_refusal(active, request) is None <==> !active.contains_key(request.id@) && !(
            request.command.spec_kind().replaces_session() && replacing)
            &&& active.contains_key(request.id@) ==> gate_refusal(active, request) == Some(
                RpcGateError::DuplicateCommand { request_id: request.id },
            )
        }),
        ActiveRpcCommand::of(request.command).command == request.command.spec_kind(),
        ActiveRpcCommand::of(request.command).class == request.command.spec_kind().class(),
{
}

/// A request that has just begun is known as what it is, and a request for entries remembers
/// where it continues.
pub proof fn a_begun_request_is_known(
    c: ControllerView,
    request: RpcRequest,
    expires_at_ms: Option<u64>,
)
    ensures
        ({
            let after = c.with_request(request, expires_at_ms);
            &&& after.gate[request.id@].command == request.command.spec_kind()
            &&& after.pending.requests[request.id@].command == request.command.spec_kind()
            &&& request.command is GetEntries ==> after.session_sync_request is Some
                && after.session_sync_request->0.request_id == request.id
                && after.session_sync_request->0.since == request.command->since
            &&& request.command is Bash ==> after.live.direct_bash[request.id@].text.len() == 0
            &&& after.capabilities == c.capabilities && after.session_sync == c.session_sync
            &&& after.pending_dialogs == c.pending_dialogs && after.extension_ui == c.extension_ui
        }),
{
}

/// An answer that belongs to a request tells of that request, with the outcome of the answer,
/// and releases it; what it tells of a shell command is the output that was shown of it.
pub proof fn an_answer_tells_of_its_request(
    c: ControllerView,
    response: RpcResponse,
    store: RuntimeStoreView,
    now: u64,
)
    requires
        coherent(c),
    ensures
        ({
            let step = c.response_completed(response, store, now);
            let id = response.id->0@;
            &&& step.result is Ok ==> {
                let told = step.result->Ok_0;
                &&& response.id is Some && c.pending.requests.contains_key(id)
                &&& told.pending == c.pending.requests[id]
                &&& told.active == c.gate[id]
                &&& told.outcome == response.spec_outcome()
                &&& told.direct_bash_preview is Some <==> c.pending.requests[id].command
                    == RpcCommandKind::Bash
                &&& told.direct_bash_preview is Some ==> told.direct_bash_preview->0
                    == c.live.direct_bash[id]
                &&& told.session_sync is Some <==> c.pending.requests[id].command
                    == RpcCommandKind::GetEntries
                &&& step.controller.pending.requests == c.pending.requests.remove(id)
                &&& step.controller.gate == c.gate.remove(id)
            }
            &&& c.pending.mismatch(response) is Some ==> step.result is Err && step.controller == c
                && step.store == store
        }),
{
    if c.pending.mismatch(response) is None {
        correlated_response_finds_its_owners(c, response);
        assert(c.pending.requests[response.id->0@].id == response.id->0@);
    }
}

/// The capabilities that Pi reports take the place of those that were known of the same kind;
/// the others stay, and the change is told. An answer that was not accepted changes none.
pub proof fn reported_capabilities_are_taken_over(
    c: ControllerView,
    response: RpcResponse,
    store: RuntimeStoreView,
    now: u64,
)
    requires
        coherent(c),
        c.pending.mismatch(response) is None,
        c.capabilities.revision < u64::MAX,
    ensures
        ({
            let step = c.response_completed(response, store, now);
            let command = c.pending.requests[response.id->0@].command;
            let accepted = response.success && !response.cancelled;
            let known = c.capabilities;
            let after = step.controller.capabilities;
            let reports = command == RpcCommandKind::GetAvailableModels || command
                == RpcCommandKind::GetAvailableThinkingLevels || command
                == RpcCommandKind::GetCommands;
            &&& !accepted || !reports ==> after == known
            &&& step.result is Ok ==> (step.result->Ok_0.capabilities_changed <==> accepted
                && reports)
            &&& accepted && command == RpcCommandKind::GetAvailableModels && response.payload
                is Models ==> {
                &&& step.result is Ok
                &&& after.models == Some(response.payload->Models_0@)
                &&& after.thinking_levels == known.thinking_levels
                &&& after.commands == known.commands
                &&& after.revision == known.revision + 1
            }
            &&& accepted && command == RpcCommandKind::GetAvailableThinkingLevels
                && response.payload is ThinkingLevels ==> {
                &&& step.result is Ok
                &&& after.thinking_levels == Some(response.payload->ThinkingLevels_0@)
                &&& after.models == known.models
                &&& after.commands == known.commands
                &&& after.revision == known.revision + 1
            }
            &&& accepted && command == RpcCommandKind::GetCommands && response.payload is Commands
                ==> {
                &&& step.result is Ok
                &&& after.commands == Some(response.payload->Commands_0@)
                &&& after.models == known.models
                &&& after.thinking_levels == known.thinking_levels
                &&& after.revision == known.revision + 1
            }
            &&& accepted && command == RpcCommandKind::GetAvailableModels && !(response.payload
                is Models) ==> step.result is Err && after == known
            &&& accepted && command == RpcCommandKind::GetAvailableThinkingLevels && !(
            response.payload is ThinkingLevels) ==> step.result is Err && after == known
            &&& accepted && command == RpcCommandKind::GetCommands && !(response.payload
                is Commands) ==> step.result is Err && after == known
        }),
{
    correlated_response_finds_its_owners(c, response);
}

/// The end of a shell command makes the changes of its run out of date, whatever its outcome,
/// and the state that Pi reports is taken over where it fits. Other answers leave the run
/// alone, except that a replaced session is counted.
pub proof fn answers_change_their_run(
    c: ControllerView,
    response: RpcResponse,
    store: RuntimeStoreView,
    now: u64,
)
    requires
        coherent(c),
        ready(c, store),
        c.pending.mismatch(response) is None,
    ensures
        ({
            let step = c.response_completed(response, store, now);
            let command = c.pending.requests[response.id->0@].command;
            let accepted = response.success && !response.cancelled;
            &&& command == RpcCommandKind::Bash ==> step.result is Ok && step.store
                == store.applied(c.run_id, RunMutation::ChangesMayHaveChanged, now)
            &&& accepted && command == RpcCommandKind::GetState && response.state_refusal(c.limits)
                is None ==> step.result is Ok && step.store == store.applied(
                c.run_id,
                RunMutation::StateObserved(
                    crate::runtime::rpc_controller::observation_of(response.payload->State_0),
                ),
                now,
            )
            &&& accepted && command.replaces_session() ==> step.result is Ok && step.store
                == store.applied(c.run_id, RunMutation::SessionReplacementAccepted, now)
                && !step.controller.session_sync.initialized
                && step.controller.session_sync.cursor is None
            &&& !accepted && command != RpcCommandKind::Bash ==> step.store == store
            &&& command != RpcCommandKind::Bash && command != RpcCommandKind::GetState
                && !command.replaces_session() ==> step.store == store
            &&& !(accepted && command.replaces_session()) && command != RpcCommandKind::GetEntries
                ==> step.controller.session_sync == c.session_sync
        }),
{
    correlated_response_finds_its_owners(c, response);
}

/// A page of entries that fits is handed on and moves the cursor. One that is too large is not
/// taken: a new start is asked for. So is one where Pi refuses to go on from a cursor; refused
/// without a cursor, nothing changes.
pub proof fn pages_of_entries_move_the_cursor(
    c: ControllerView,
    response: RpcResponse,
    store: RuntimeStoreView,
    now: u64,
)
    requires
        coherent(c),
        c.pending.mismatch(response) is None,
        c.pending.requests[response.id->0@].command == RpcCommandKind::GetEntries,
    ensures
        ({
            let step = c.response_completed(response, store, now);
            let since = optional_view(c.session_sync_request->0.since);
            let limits = c.limits;
            &&& step.controller.session_sync_request is None
            &&& response.success && response.payload is Entries ==> {
                let page = response.payload->Entries_0@;
                let fits = page.entries.len() <= limits.max_session_entries_per_page
                    && page.encoded_bytes <= limits.max_session_entry_page_bytes;
                &&& fits && c.session_sync.page_refusal(since, page, limits) is None ==> {
                    &&& step.controller.session_sync == c.session_sync.page_applied(since, page)
                    &&& step.result is Ok
                    &&& step.result->Ok_0.session_sync->0 is Page
                    &&& step.result->Ok_0.session_sync->0->page == page
                }
                &&& !fits ==> {
                    &&& step.controller.session_sync.resync_required
                    &&& step.controller.session_sync.cursor == c.session_sync.cursor
                    &&& step.result is Ok
                    &&& step.result->Ok_0.session_sync->0 is ResyncRequired
                }
            }
            &&& !response.success && since is None ==> {
                &&& step.result is Ok
                &&& step.result->Ok_0.session_sync->0 == (SessionSyncCompletionView::Rejected {
                    error: optional_view(response.error),
                })
                &&& step.controller.session_sync == c.session_sync
            }
            &&& !response.success && since is Some && cursor_refusal(since, limits) is None ==> {
                &&& step.controller.session_sync.resync_required
                &&& step.result is Ok
                &&& step.result->Ok_0.session_sync->0 is ResyncRequired
                &&& step.result->Ok_0.session_sync->0->ResyncRequired_error == optional_view(
                    response.error,
                )
            }
        }),
{
    correlated_response_finds_its_owners(c, response);
}

proof fn lemma_first_repeated(ids: Seq<Seq<char>>)
    ensures
        first_repeated(ids) is None <==> ids.no_duplicates(),
        first_repeated(ids) is Some ==> exists|i: int, j: int|
            0 <= i < j < ids.len() && #[trigger] ids[i] == #[trigger] ids[j] && ids[j]
                == first_repeated(ids)->0,
    decreases ids.len(),
{
    if ids.len() > 0 {
        let before = ids.drop_last();
        lemma_first_repeated(before);
        if first_repeated(before) is Some {
            let (i, j) = choose|i: int, j: int|
                0 <= i < j < before.len() && #[trigger] before[i] == #[trigger] before[j]
                    && before[j] == first_repeated(before)->0;
            assert(ids[i] == ids[j]);
        } else if before.contains(ids.last()) {
            let i = before.index_of(ids.last());
            assert(before[i] == ids.last());
            assert(ids[i] == ids[ids.len() - 1]);
        } else {
            assert(ids.no_duplicates()) by {
                assert forall|i: int, j: int|
                    0 <= i < ids.len() && 0 <= j < ids.len() && i != j implies ids[i] != ids[j] by {
                    if i < before.len() && j < before.len() {
                        assert(before[i] != before[j]);
                    } else if i < before.len() {
                        assert(before[i] == ids[i]);
                        assert(before.contains(ids[i]));
                    } else {
                        assert(before[j] == ids[j]);
                        assert(before.contains(ids[j]));
                    }
                }
            }
        }
    }
}

/// Entries are asked for from where the last page ended: a request with another cursor is
/// refused, and one with any cursor while a new start is due. A page is taken where the
/// request could be made and no entry stands in it twice.
pub proof fn entries_continue_where_the_last_page_ended(
    sync: SessionSyncView,
    since: Option<Seq<char>>,
    page: SessionEntriesPageView,
    limits: RuntimeLimits,
)
    ensures
        ({
            let usable = since is None || (0 < since->0.len() && byte_len(since->0)
                <= limits.max_session_cursor_bytes);
            &&& sync.request_refusal(since, limits) is None <==> usable && !(sync.resync_required
                && since is Some) && (sync.initialized && !sync.resync_required ==> since
                == sync.cursor)
            &&& sync.page_refusal(since, page, limits) is None <==> sync.request_refusal(
                since,
                limits,
            ) is None && entry_ids(page.entries).no_duplicates()
        }),
{
    lemma_first_repeated(entry_ids(page.entries));
}

/// A page leaves the cursor at its last entry, or where it was if it has none, and the leaf
/// that Pi tells. What it reports is what it changed, and only a change makes it newer.
pub proof fn a_page_leaves_the_cursor_at_its_end(
    sync: SessionSyncView,
    since: Option<Seq<char>>,
    page: SessionEntriesPageView,
)
    requires
        sync.revision < u64::MAX,
        page.entries.len() <= usize::MAX,
    ensures
        ({
            let after = sync.page_applied(since, page);
            let report = sync.page_report(since, page);
            let changed = after.cursor != sync.cursor || after.leaf_id != sync.leaf_id
                || page.entries.len() > 0;
            &&& after.initialized && !after.resync_required
            &&& after.leaf_id == optional_view(page.leaf_id)
            &&& page.entries.len() > 0 ==> after.cursor == Some(page.entries.last().id@)
            &&& page.entries.len() == 0 && sync.initialized ==> after.cursor == sync.cursor
            &&& page.entries.len() == 0 && !sync.initialized ==> after.cursor == since
            &&& report.appended_entries == page.entries.len()
            &&& report.cursor_changed <==> after.cursor != sync.cursor
            &&& report.leaf_changed <==> after.leaf_id != sync.leaf_id
            &&& report.revision == after.revision
            &&& after.revision == sync.revision + (if changed {
                1int
            } else {
                0
            })
        }),
{
}

/// A seed sets the cursor and the leaf, and ends a new start that was due. Where a new start
/// is asked for, what is known stays. Both make it newer.
pub proof fn seeds_set_the_cursor(
    sync: SessionSyncView,
    cursor: Option<Seq<char>>,
    leaf_id: Option<Seq<char>>,
    limits: RuntimeLimits,
)
    requires
        sync.revision < u64::MAX,
    ensures
        ({
            let after = sync.seeded(cursor, leaf_id);
            &&& after.initialized && !after.resync_required
            &&& after.cursor == cursor && after.leaf_id == leaf_id
            &&& after.revision == sync.revision + 1
        }),
        ({
            let after = sync.resync();
            &&& after.resync_required && after.initialized == sync.initialized
            &&& after.cursor == sync.cursor && after.leaf_id == sync.leaf_id
            &&& after.revision == sync.revision + 1
        }),
        SessionSyncView::seed_refusal(cursor, leaf_id, limits) is None <==> (cursor is None || (0
            < cursor->0.len() && byte_len(cursor->0) <= limits.max_session_cursor_bytes)) && (
        leaf_id is None || (0 < leaf_id->0.len() && byte_len(leaf_id->0)
            <= limits.max_session_cursor_bytes)),
{
}

/// A question that is answered is open no more, here and in its run, and what it took is
/// free again; one that is not open cannot be answered.
pub proof fn an_answered_question_is_closed(
    c: ControllerView,
    id: String,
    store: RuntimeStoreView,
    now: u64,
)
    ensures
        ({
            let step = c.dialog_answered(id, store, now);
            &&& step.result is Ok ==> {
                &&& c.pending_dialogs.contains_key(id@)
                &&& step.result->Ok_0 == c.pending_dialogs[id@].request
                &&& step.controller.pending_dialogs == c.pending_dialogs.remove(id@)
                &&& step.store.runs[c.run_id].pending_ui_requests
                    == store.runs[c.run_id].pending_ui_requests.remove(id@)
                &&& c.pending_dialogs[id@].request.bytes() <= c.pending_dialog_bytes
                    ==> step.controller.pending_dialog_bytes == c.pending_dialog_bytes
                    - c.pending_dialogs[id@].request.bytes()
            }
            &&& step.result is Err ==> step.controller == c && step.store == store
            &&& !c.pending_dialogs.contains_key(id@) ==> step.result == Err::<
                crate::events::ExtensionDialogView,
                ControllerErrorView,
            >(ControllerErrorView::UnknownExtensionDialog { request_id: id@ })
            &&& ready(c, store) && c.pending_dialogs.contains_key(id@)
                && store.runs[c.run_id].pending_ui_requests.contains(id@) ==> step.result is Ok
        }),
{
}

} // verus!
