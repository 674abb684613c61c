//! What holds of every controller through every request, response and event.
use vstd::prelude::*;

use crate::bounded::bounded_detail;
use crate::events::{AssistantMessageUpdate, RpcEvent};
use crate::ids::RunId;
use crate::keyed::OrderedKey;
use crate::limits::RuntimeLimits;
use crate::rpc::{RpcCommandKind, RpcRequest, RpcResponse};
use crate::runtime::rpc_controller::{
    lists_expired, stepped, ControllerStep, ControllerView, RunRpcControllerError, RunRpcEffect,
    RunRpcEffectView,
};
use crate::runtime::state::{ProcessState, RunRecordView, RuntimeStoreView};
use crate::text::{byte_len, lemma_suffix_within, optional_view, texts_view};

verus! {

/// Whether each open question stands under its own identity.
pub open spec fn questions_keyed(c: ControllerView) -> bool {
    forall|id: Seq<char>| #[trigger]
        c.pending_dialogs.contains_key(id) ==> c.pending_dialogs[id].request.id == id
}

/// The owners of a request agree on it: each pending request has its gate entry,
/// bash requests and no others have a preview, and the request for session
/// entries in flight is the one that is pending. Each open question stands under
/// its own identity.
pub open spec fn coherent(c: ControllerView) -> bool {
    &&& c.gate.dom() == c.pending.requests.dom()
    &&& forall|id: Seq<char>| #[trigger]
        c.pending.requests.contains_key(id) ==> c.pending.requests[id].id == id
    &&& forall|id: Seq<char>| #[trigger]
        c.live.direct_bash.contains_key(id) <==> c.pending.requests.contains_key(id)
            && c.pending.requests[id].command == RpcCommandKind::Bash
    &&& forall|id: Seq<char>| #[trigger]
        c.syncs_under(id) <==> c.pending.requests.contains_key(id)
            && c.pending.requests[id].command == RpcCommandKind::GetEntries
    &&& questions_keyed(c)
}

/// A new controller is coherent.
pub proof fn fresh_controller_is_coherent(run_id: RunId, limits: RuntimeLimits)
    ensures
        coherent(ControllerView::fresh(run_id, limits)),
{
    let c = ControllerView::fresh(run_id, limits);
    assert(c.gate.dom() =~= c.pending.requests.dom());
}

/// A controller whose process has ended holds nothing that could still be
/// answered, and keeps what is known of the session and of the capabilities.
pub proof fn ended_controller_holds_nothing(c: ControllerView)
    ensures
        coherent(c.ended()),
        c.ended().pending.requests.dom().len() == 0,
        c.ended().gate.dom().len() == 0,
        c.ended().pending_dialogs.dom().len() == 0,
        c.ended().live.tools.dom().len() == 0,
        c.ended().live.direct_bash.dom().len() == 0,
        c.ended().live.blocks.len() == 0,
        c.ended().session_sync == c.session_sync,
        c.ended().capabilities == c.capabilities,
{
    fresh_controller_is_coherent(c.run_id, c.limits);
    let e = c.ended();
    assert(e.gate.dom() =~= e.pending.requests.dom());
    assert forall|id: Seq<char>| #[trigger] e.syncs_under(id) <==> e.pending.requests.contains_key(
        id,
    ) && e.pending.requests[id].command == RpcCommandKind::GetEntries by {}
}

/// Registering a request keeps the owners of requests in agreement.
pub proof fn beginning_keeps_coherence(
    c: ControllerView,
    request: RpcRequest,
    expires_at_ms: Option<u64>,
)
    requires
        coherent(c),
        c.request_refusal(request) is None,
    ensures
        coherent(c.with_request(request, expires_at_ms)),
{
    let next = c.with_request(request, expires_at_ms);
    assert(next.gate.dom() =~= next.pending.requests.dom());
    assert forall|id: Seq<char>| #[trigger] next.syncs_under(
        id,
    ) <==> next.pending.requests.contains_key(id) && next.pending.requests[id].command
        == RpcCommandKind::GetEntries by {
        assert(c.syncs_under(id) <==> c.pending.requests.contains_key(id)
            && c.pending.requests[id].command == RpcCommandKind::GetEntries);
        assert(!c.pending.requests.contains_key(request.id@));
    }
    assert forall|id: Seq<char>| #[trigger] next.live.direct_bash.contains_key(
        id,
    ) <==> next.pending.requests.contains_key(id) && next.pending.requests[id].command
        == RpcCommandKind::Bash by {
        assert(c.live.direct_bash.contains_key(id) <==> c.pending.requests.contains_key(id)
            && c.pending.requests[id].command == RpcCommandKind::Bash);
    }
}

/// A request that was just begun is held by each of its owners: bash by a preview as
/// well, a request for session entries by the synchronisation. Cancelling it gives all
/// of that back and leaves the controller exactly as it was.
pub proof fn cancelling_undoes_beginning(
    c: ControllerView,
    request: RpcRequest,
    expires_at_ms: Option<u64>,
)
    requires
        coherent(c),
        c.request_refusal(request) is None,
    ensures
        c.with_request(request, expires_at_ms).without_request(request.id@) == c,
        ({
            let begun = c.with_request(request, expires_at_ms);
            &&& begun.pending.requests.contains_key(request.id@)
            &&& begun.gate.contains_key(request.id@)
            &&& begun.live.direct_bash.contains_key(request.id@) <==> request.command is Bash
            &&& begun.syncs_under(request.id@) <==> request.command is GetEntries
        }),
{
    let id = request.id@;
    let begun = c.with_request(request, expires_at_ms);
    let cancelled = begun.without_request(id);
    assert(!c.pending.requests.contains_key(id));
    assert(!c.live.direct_bash.contains_key(id));
    assert(!c.syncs_under(id));
    assert(cancelled.gate =~= c.gate);
    assert(cancelled.pending.requests =~= c.pending.requests);
    assert(cancelled.live.direct_bash =~= c.live.direct_bash);
}

/// Cancelling any request keeps the owners of requests in agreement.
pub proof fn cancelling_keeps_coherence(c: ControllerView, id: Seq<char>)
    requires
        coherent(c),
    ensures
        coherent(c.without_request(id)),
        !c.without_request(id).pending.requests.contains_key(id),
        !c.without_request(id).gate.contains_key(id),
        !c.without_request(id).live.direct_bash.contains_key(id),
        !c.without_request(id).syncs_under(id),
{
    let next = c.without_request(id);
    assert(next.gate.dom() =~= next.pending.requests.dom());
    assert forall|other: Seq<char>| #[trigger] next.syncs_under(
        other,
    ) <==> next.pending.requests.contains_key(other) && next.pending.requests[other].command
        == RpcCommandKind::GetEntries by {
        assert(c.syncs_under(other) <==> c.pending.requests.contains_key(other)
            && c.pending.requests[other].command == RpcCommandKind::GetEntries);
        assert(c.syncs_under(id) <==> c.pending.requests.contains_key(id)
            && c.pending.requests[id].command == RpcCommandKind::GetEntries);
    }
    assert forall|other: Seq<char>| #[trigger] next.live.direct_bash.contains_key(
        other,
    ) <==> next.pending.requests.contains_key(other) && next.pending.requests[other].command
        == RpcCommandKind::Bash by {
        assert(c.live.direct_bash.contains_key(other) <==> c.pending.requests.contains_key(other)
            && c.pending.requests[other].command == RpcCommandKind::Bash);
    }
}

/// A second request for session entries is refused while one is in flight.
pub proof fn entries_are_requested_one_at_a_time(c: ControllerView, request: RpcRequest)
    requires
        c.session_sync_request is Some,
        request.command is GetEntries,
    ensures
        c.request_refusal(request) is Some,
{
}

/// In a coherent controller a response that answers a pending request finds its
/// gate entry, and for bash its preview: neither can be missing.
pub proof fn correlated_response_finds_its_owners(c: ControllerView, response: RpcResponse)
    requires
        coherent(c),
        c.pending.mismatch(response) is None,
    ensures
        c.gate.contains_key(c.pending.requests[response.id->0@].id),
        c.pending.requests[response.id->0@].command == RpcCommandKind::Bash
            ==> c.live.direct_bash.contains_key(response.id->0@),
        c.pending.requests[response.id->0@].command == RpcCommandKind::GetEntries ==> c.syncs_under(
            response.id->0@,
        ),
{
    let id = response.id->0@;
    assert(c.pending.requests.contains_key(id));
    assert(c.pending.requests[id].id == id);
    assert(c.gate.dom().contains(id));
    assert(c.live.direct_bash.contains_key(id) <==> c.pending.requests.contains_key(id)
        && c.pending.requests[id].command == RpcCommandKind::Bash);
    assert(c.syncs_under(id) <==> c.pending.requests.contains_key(id)
        && c.pending.requests[id].command == RpcCommandKind::GetEntries);
}

/// Whatever a response says, and whether it is accepted or refused, completing it
/// keeps the owners of requests in agreement, and a correlated request is gone
/// from all of them.
pub proof fn responding_keeps_coherence(
    c: ControllerView,
    response: RpcResponse,
    store: RuntimeStoreView,
    now_unix_ms: u64,
)
    requires
        coherent(c),
    ensures
        coherent(c.response_completed(response, store, now_unix_ms).controller),
        c.pending.mismatch(response) is None ==> !c.response_completed(
            response,
            store,
            now_unix_ms,
        ).controller.pending.requests.contains_key(response.id->0@),
{
    if c.pending.mismatch(response) is None {
        correlated_response_finds_its_owners(c, response);
        let id = response.id->0@;
        cancelling_keeps_coherence(c, id);
        let base = c.without_request(id);
        let done = c.response_completed(response, store, now_unix_ms).controller;
        assert(c.live.direct_bash.contains_key(id) <==> c.pending.requests.contains_key(id)
            && c.pending.requests[id].command == RpcCommandKind::Bash);
        assert(done.gate == base.gate);
        assert(done.pending == base.pending);
        assert(done.live.direct_bash =~= base.live.direct_bash);
        assert(done.session_sync_request == base.session_sync_request);
        assert forall|other: Seq<char>| #[trigger] done.syncs_under(
            other,
        ) <==> done.pending.requests.contains_key(other) && done.pending.requests[other].command
            == RpcCommandKind::GetEntries by {
            assert(base.syncs_under(other) == done.syncs_under(other));
        }
        assert forall|other: Seq<char>| #[trigger] done.live.direct_bash.contains_key(
            other,
        ) <==> done.pending.requests.contains_key(other) && done.pending.requests[other].command
            == RpcCommandKind::Bash by {
            assert(base.live.direct_bash.contains_key(other) == done.live.direct_bash.contains_key(
                other,
            ));
        }
    }
}

/// Whether two controllers hold the same for every request.
pub open spec fn same_owners(a: ControllerView, b: ControllerView) -> bool {
    &&& a.gate == b.gate
    &&& a.pending == b.pending
    &&& a.session_sync_request == b.session_sync_request
    &&& a.live.direct_bash.dom() == b.live.direct_bash.dom()
}

proof fn lemma_live_events(
    c: ControllerView,
    event: RpcEvent,
    store: RuntimeStoreView,
    now_ms: u64,
    now_unix_ms: u64,
    error_message: Option<String>,
)
    requires
        event is MessageUpdate || event is MessageEnd || event is ToolExecutionStart
            || event is ToolExecutionUpdate || event is ToolExecutionEnd
            || event is BashExecutionUpdate || event is MessageStart || event is AgentStart
            || event is AgentSettled,
    ensures
        same_owners(
            c,
            c.event_applied(event, store, now_ms, now_unix_ms, error_message).controller,
        ),
        questions_keyed(c) ==> questions_keyed(
            c.event_applied(event, store, now_ms, now_unix_ms, error_message).controller,
        ),
{
    reveal(ControllerView::event_applied);
    let done = c.event_applied(event, store, now_ms, now_unix_ms, error_message).controller;
    assert(done.live.direct_bash.dom() =~= c.live.direct_bash.dom());
}

proof fn lemma_activity_events(
    c: ControllerView,
    event: RpcEvent,
    store: RuntimeStoreView,
    now_ms: u64,
    now_unix_ms: u64,
    error_message: Option<String>,
)
    requires
        event is CompactionStart || event is CompactionEnd || event is AutoRetryStart
            || event is AutoRetryEnd || event is SummarizationRetryScheduled
            || event is SummarizationRetryAttemptStart || event is SummarizationRetryFinished
            || event is ExtensionError,
    ensures
        same_owners(
            c,
            c.event_applied(event, store, now_ms, now_unix_ms, error_message).controller,
        ),
        questions_keyed(c) ==> questions_keyed(
            c.event_applied(event, store, now_ms, now_unix_ms, error_message).controller,
        ),
{
    reveal(ControllerView::event_applied);
}

proof fn lemma_other_events(
    c: ControllerView,
    event: RpcEvent,
    store: RuntimeStoreView,
    now_ms: u64,
    now_unix_ms: u64,
    error_message: Option<String>,
)
    requires
        event is QueueUpdate || event is SessionInfoChanged || event is ThinkingLevelChanged
            || event is ExtensionUiRequest || event is Malformed || event is MalformedExtensionUi
            || event is Other,
    ensures
        same_owners(
            c,
            c.event_applied(event, store, now_ms, now_unix_ms, error_message).controller,
        ),
        questions_keyed(c) ==> questions_keyed(
            c.event_applied(event, store, now_ms, now_unix_ms, error_message).controller,
        ),
{
    reveal(ControllerView::event_applied);
}

/// No event touches the owners of requests.
pub proof fn events_keep_coherence(
    c: ControllerView,
    event: RpcEvent,
    store: RuntimeStoreView,
    now_ms: u64,
    now_unix_ms: u64,
    error_message: Option<String>,
)
    requires
        coherent(c),
    ensures
        coherent(
            c.event_applied(event, store, now_ms, now_unix_ms, error_message).controller,
        ),
{
    let done = c.event_applied(event, store, now_ms, now_unix_ms, error_message).controller;
    assert(same_owners(c, done) && questions_keyed(done)) by {
        if event is MessageUpdate || event is MessageEnd || event is ToolExecutionStart
            || event is ToolExecutionUpdate || event is ToolExecutionEnd
            || event is BashExecutionUpdate || event is MessageStart || event is AgentStart
            || event is AgentSettled {
            lemma_live_events(c, event, store, now_ms, now_unix_ms, error_message);
        } else if event is QueueUpdate || event is SessionInfoChanged
            || event is ThinkingLevelChanged || event is ExtensionUiRequest || event is Malformed
            || event is MalformedExtensionUi || event is Other {
            lemma_other_events(c, event, store, now_ms, now_unix_ms, error_message);
        } else {
            lemma_activity_events(c, event, store, now_ms, now_unix_ms, error_message);
        }
    }
    lemma_same_owners(c, done);
}

pub(crate) proof fn lemma_event_coherence(
    c: ControllerView,
    event: RpcEvent,
    store: RuntimeStoreView,
    now_ms: u64,
    now_unix_ms: u64,
    after: ControllerView,
    store_after: RuntimeStoreView,
    returned: Result<RunRpcEffect, RunRpcControllerError>,
)
    requires
        coherent(c),
        exists|error_message: Option<String>|
            optional_view(error_message) == c.message_error(event) && #[trigger] stepped(
                c.event_applied(event, store, now_ms, now_unix_ms, error_message),
                after,
                store_after,
                returned,
            ),
    ensures
        coherent(after),
{
    let error_message = choose|error_message: Option<String>|
        optional_view(error_message) == c.message_error(event) && #[trigger] stepped(
            c.event_applied(event, store, now_ms, now_unix_ms, error_message),
            after,
            store_after,
            returned,
        );
    events_keep_coherence(c, event, store, now_ms, now_unix_ms, error_message);
}

pub(crate) proof fn lemma_same_owners(c: ControllerView, done: ControllerView)
    requires
        coherent(c),
        same_owners(c, done),
        questions_keyed(done),
    ensures
        coherent(done),
{
    assert forall|other: Seq<char>| #[trigger] done.syncs_under(
        other,
    ) <==> done.pending.requests.contains_key(other) && done.pending.requests[other].command
        == RpcCommandKind::GetEntries by {
        assert(c.syncs_under(other) == done.syncs_under(other));
    }
    assert forall|other: Seq<char>| #[trigger] done.live.direct_bash.contains_key(
        other,
    ) <==> done.pending.requests.contains_key(other) && done.pending.requests[other].command
        == RpcCommandKind::Bash by {
        assert(c.live.direct_bash.dom().contains(other) == done.live.direct_bash.dom().contains(
            other,
        ));
    }
}

/// Closing a question, or failing to, keeps the owners of requests in agreement.
pub proof fn answering_keeps_coherence(
    c: ControllerView,
    id: String,
    store: RuntimeStoreView,
    now_unix_ms: u64,
)
    requires
        coherent(c),
    ensures
        coherent(c.dialog_answered(id, store, now_unix_ms).controller),
{
    lemma_same_owners(c, c.dialog_answered(id, store, now_unix_ms).controller);
}

pub(crate) proof fn lemma_answers_keep_coherence(
    c: ControllerView,
    ids: Seq<String>,
    store: RuntimeStoreView,
    now_unix_ms: u64,
)
    requires
        coherent(c),
    ensures
        coherent(c.dialogs_answered(ids, store, now_unix_ms).controller),
    decreases ids.len(),
{
    if ids.len() > 0 {
        lemma_answers_keep_coherence(c, ids.drop_last(), store, now_unix_ms);
        let before = c.dialogs_answered(ids.drop_last(), store, now_unix_ms);
        answering_keeps_coherence(before.controller, ids.last(), before.store, now_unix_ms);
    }
}

/// Questions can be closed as long as the run is ready and knows them.
pub open spec fn questions_known(c: ControllerView, store: RuntimeStoreView) -> bool {
    &&& store.runs.contains_key(c.run_id)
    &&& store.runs[c.run_id].process == ProcessState::Ready
    &&& forall|id: Seq<char>| #[trigger]
        c.pending_dialogs.contains_key(id)
            ==> store.runs[c.run_id].pending_ui_requests.contains(id)
}

/// The questions `ids` are open no more, neither here nor in the run. But for the
/// bytes that are counted and the revisions everything else is as it was.
pub open spec fn questions_closed(
    c: ControllerView,
    store: RuntimeStoreView,
    ids: Set<Seq<char>>,
    after: ControllerView,
    store_after: RuntimeStoreView,
) -> bool {
    &&& after.pending_dialogs == c.pending_dialogs.remove_keys(ids)
    &&& after == (ControllerView {
        pending_dialogs: after.pending_dialogs,
        pending_dialog_bytes: after.pending_dialog_bytes,
        ..c
    })
    &&& store_after == (RuntimeStoreView {
        runs: store.runs.insert(
            c.run_id,
            RunRecordView {
                pending_ui_requests: store.runs[c.run_id].pending_ui_requests.difference(ids),
                revision: store_after.runs[c.run_id].revision,
                ..store.runs[c.run_id]
            },
        ),
        revision: store_after.revision,
        ..store
    })
}

proof fn lemma_questions_closed(
    c: ControllerView,
    ids: Seq<String>,
    store: RuntimeStoreView,
    now_unix_ms: u64,
)
    requires
        questions_known(c, store),
        texts_view(ids).no_duplicates(),
        forall|id: Seq<char>| #[trigger]
            texts_view(ids).contains(id) ==> c.pending_dialogs.contains_key(id),
    ensures
        ({
            let step = c.dialogs_answered(ids, store, now_unix_ms);
            &&& step.result is Ok
            &&& questions_closed(
                c,
                store,
                texts_view(ids).to_set(),
                step.controller,
                step.store,
            )
        }),
    decreases ids.len(),
{
    let all = texts_view(ids);
    let step = c.dialogs_answered(ids, store, now_unix_ms);
    let run = store.runs[c.run_id];
    if ids.len() == 0 {
        assert(all.to_set() =~= Set::empty());
        assert(c.pending_dialogs.remove_keys(all.to_set()) =~= c.pending_dialogs);
        assert(run.pending_ui_requests.difference(all.to_set()) =~= run.pending_ui_requests);
        assert(store.runs.insert(c.run_id, run) =~= store.runs);
    } else {
        let rest = ids.drop_last();
        let last = ids.last();
        assert(texts_view(rest) =~= all.drop_last());
        assert(all.last() == last@);
        assert forall|id: Seq<char>| #[trigger]
            texts_view(rest).contains(id) implies c.pending_dialogs.contains_key(id) by {
            let k = texts_view(rest).index_of(id);
            assert(all[k] == id);
            assert(all.contains(id));
        }
        lemma_questions_closed(c, rest, store, now_unix_ms);
        let before = c.dialogs_answered(rest, store, now_unix_ms);
        assert(all.contains(last@)) by {
            assert(all[all.len() - 1] == last@);
        }
        assert(!texts_view(rest).contains(last@)) by {
            if texts_view(rest).contains(last@) {
                let k = texts_view(rest).index_of(last@);
                assert(all[k] == last@ && all[all.len() - 1] == last@);
            }
        }
        assert(all.to_set() =~= texts_view(rest).to_set().insert(last@)) by {
            assert forall|id: Seq<char>| all.contains(id) implies texts_view(rest).contains(id)
                || id == last@ by {
                let k = all.index_of(id);
                if k < rest.len() {
                    assert(texts_view(rest)[k] == id);
                }
            }
            assert forall|id: Seq<char>| texts_view(rest).contains(id) implies all.contains(id) by {
                let k = texts_view(rest).index_of(id);
                assert(all[k] == id);
            }
        }
        assert(step.controller.pending_dialogs =~= c.pending_dialogs.remove_keys(all.to_set()));
        assert(step.store.runs[c.run_id].pending_ui_requests
            =~= run.pending_ui_requests.difference(all.to_set()));
        assert(step.store.runs =~= store.runs.insert(
            c.run_id,
            RunRecordView {
                pending_ui_requests: run.pending_ui_requests.difference(all.to_set()),
                revision: step.store.runs[c.run_id].revision,
                ..run
            },
        ));
    }
}

/// Closing the questions that Pi has given up on succeeds while the run is ready and
/// knows its open questions. It closes those and no others; closing again at the same
/// moment lists nothing and changes nothing, and the next expiry is later.
pub proof fn expired_questions_are_closed_once(
    c: ControllerView,
    ids: Seq<String>,
    store: RuntimeStoreView,
    now_ms: u64,
    now_unix_ms: u64,
)
    requires
        questions_known(c, store),
        lists_expired(c, ids, now_ms),
    ensures
        ({
            let step = c.dialogs_answered(ids, store, now_unix_ms);
            &&& texts_view(ids).no_duplicates()
            &&& step.result is Ok
            &&& questions_closed(
                c,
                store,
                texts_view(ids).to_set(),
                step.controller,
                step.store,
            )
            &&& questions_known(step.controller, step.store)
            &&& forall|id: Seq<char>|
                #![trigger step.controller.pending_dialogs.contains_key(id)]
                step.controller.pending_dialogs.contains_key(id)
                    <==> c.pending_dialogs.contains_key(id) && !c.dialog_expired(id, now_ms)
            &&& forall|again: Seq<String>, later_unix_ms: u64|
                lists_expired(step.controller, again, now_ms) ==> again.len() == 0
                    && #[trigger] step.controller.dialogs_answered(
                    again,
                    step.store,
                    later_unix_ms,
                ) == (ControllerStep {
                    controller: step.controller,
                    store: step.store,
                    result: Ok(()),
                })
            &&& forall|next: Option<u64>| #[trigger]
                step.controller.is_next_expiry(next) ==> next is None || next->0 > now_ms
        }),
{
    let all = texts_view(ids);
    assert forall|id: Seq<char>| #[trigger] all.contains(id) implies c.pending_dialogs.contains_key(
        id,
    ) by {
        assert(c.dialog_expired(id, now_ms));
    }
    assert(all.no_duplicates()) by {
        assert forall|a: int, b: int| 0 <= a < all.len() && 0 <= b < all.len() && a
            != b implies all[a] != all[b] by {
            if a < b {
                assert(<String as OrderedKey>::before(all[a], all[b]));
            } else {
                assert(<String as OrderedKey>::before(all[b], all[a]));
            }
            <String as OrderedKey>::order_is_total(all[a], all[b]);
        }
    }
    lemma_questions_closed(c, ids, store, now_unix_ms);
    let step = c.dialogs_answered(ids, store, now_unix_ms);
    assert forall|id: Seq<char>| #[trigger]
        step.controller.pending_dialogs.contains_key(id) <==> c.pending_dialogs.contains_key(id)
            && !c.dialog_expired(id, now_ms) by {
        assert(all.to_set().contains(id) == all.contains(id));
    }
    assert forall|again: Seq<String>, later_unix_ms: u64|
        lists_expired(step.controller, again, now_ms) implies again.len() == 0
            && #[trigger] step.controller.dialogs_answered(again, step.store, later_unix_ms) == (
    ControllerStep { controller: step.controller, store: step.store, result: Ok(()) }) by {
        if again.len() > 0 {
            let id = texts_view(again)[0];
            assert(texts_view(again).contains(id));
            assert(step.controller.dialog_expired(id, now_ms));
            assert(c.dialog_expired(id, now_ms));
        }
    }
    assert forall|next: Option<u64>| #[trigger]
        step.controller.is_next_expiry(next) implies next is None || next->0 > now_ms by {
        if next is Some && next->0 <= now_ms {
            let id = choose|id: Seq<char>| #[trigger]
                step.controller.pending_dialogs.contains_key(id)
                    && step.controller.pending_dialogs[id].expires_at_ms == Some(next->0);
            assert(c.dialog_expired(id, now_ms));
        }
    }
}

/// Diagnostic text never exceeds its bound, however long it arrives.
pub proof fn details_stay_bounded(value: Seq<char>, max: nat)
    ensures
        byte_len(bounded_detail(value, max).0) <= max,
        bounded_detail(value, max).1 <==> byte_len(value) > max,
        !bounded_detail(value, max).1 ==> bounded_detail(value, max).0 == value,
{
    lemma_suffix_within(value, max);
}

/// Reasoning of a turn survives the start of the next message of the turn and is
/// gone with the start of the next turn.
pub proof fn reasoning_is_carried_within_a_turn(c: ControllerView)
    ensures
        c.live.new_message().carried_reasoning == c.live.reasoning(),
        c.live.new_message().blocks.len() == 0,
        c.live.new_message().reasoning() == c.live.reasoning(),
        c.live.new_turn().reasoning().len() == 0,
{
    lemma_suffix_within(
        crate::runtime::projection::reasoning_with(c.live.carried_reasoning, c.live.blocks),
        c.live.max_assistant_bytes,
    );
    assert(c.live.new_turn().carried_reasoning =~= Seq::<char>::empty());
}

/// An event of a kind that is not known here changes nothing.
pub proof fn unknown_events_change_nothing(
    c: ControllerView,
    store: RuntimeStoreView,
    now_ms: u64,
    now_unix_ms: u64,
)
    ensures
        c.event_applied(RpcEvent::Other, store, now_ms, now_unix_ms, None) == (ControllerStep {
            controller: c,
            store,
            result: Ok(RunRpcEffectView::Nothing),
        }),
        c.event_applied(
            RpcEvent::MessageUpdate(AssistantMessageUpdate::Unknown),
            store,
            now_ms,
            now_unix_ms,
            None,
        ) == (ControllerStep {
            controller: c,
            store,
            result: Ok(RunRpcEffectView::ForwardCompatibleIgnored),
        }),
{
    reveal(ControllerView::event_applied);
}

} // verus!
