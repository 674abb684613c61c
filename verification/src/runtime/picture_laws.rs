//! What a renderer reads of a run, and what Pi may say about it.
use vstd::prelude::*;
use vstd::string::*;

use crate::keyed::strictly_ordered;
use crate::ids::RequestId;
use crate::limits::RuntimeLimits;
use crate::rpc::{all_bytes, RpcResponse, RpcResponsePayloadError};
use crate::runtime::hydration::RunRpcHydrationSnapshot;
use crate::runtime::rpc_controller::ControllerView;
use crate::runtime::state::RunRecordView;
use crate::text::{byte_len, optional_view};

verus! {

/// Whether a snapshot shows an open question, with the time that is left for it.
pub open spec fn shows_question(
    c: ControllerView,
    snapshot: RunRpcHydrationSnapshot,
    now_ms: u64,
    id: Seq<char>,
    i: int,
) -> bool {
    let pending = c.pending_dialogs[id];
    &&& 0 <= i < snapshot.pending_dialogs@.len()
    &&& snapshot.pending_dialogs@[i].request@ == pending.request
    &&& pending.expires_at_ms is None <==> snapshot.pending_dialogs@[i].remaining_timeout_ms is None
    &&& pending.expires_at_ms is Some && pending.expires_at_ms->0 >= now_ms
        ==> snapshot.pending_dialogs@[i].remaining_timeout_ms == Some(
        (pending.expires_at_ms->0 - now_ms) as u64,
    )
    &&& pending.expires_at_ms is Some && pending.expires_at_ms->0 < now_ms
        ==> snapshot.pending_dialogs@[i].remaining_timeout_ms == Some(0u64)
}

/// Every open question is shown, with the time that is left for it.
pub proof fn open_questions_are_shown(
    c: ControllerView,
    snapshot: RunRpcHydrationSnapshot,
    now_ms: u64,
    id: Seq<char>,
)
    requires
        c.pictured(snapshot, now_ms),
        c.pending_dialogs.contains_key(id),
    ensures
        exists|i: int| shows_question(c, snapshot, now_ms, id, i),
{
    let shown = snapshot.pending_dialogs@;
    let ids = choose|ids: Seq<Seq<char>>|
        {
            &&& #[trigger] strictly_ordered::<String>(ids)
            &&& ids.to_set() == c.pending_dialogs.dom()
            &&& shown.len() == ids.len()
            &&& forall|i: int|
                0 <= i < ids.len() ==> (#[trigger] shown[i]).request@
                    == c.pending_dialogs[ids[i]].request && shown[i].remaining_timeout_ms
                    == crate::runtime::rpc_controller::remaining_ms(
                    c.pending_dialogs[ids[i]].expires_at_ms,
                    now_ms,
                )
        };
    assert(ids.to_set().contains(id));
    let i = choose|i: int| 0 <= i < ids.len() && ids[i] == id;
    assert(shown[i].request@ == c.pending_dialogs[ids[i]].request);
    assert(shows_question(c, snapshot, now_ms, id, i));
}

/// Whether a snapshot shows a tool that runs, with its newest output.
pub open spec fn shows_tool(
    c: ControllerView,
    snapshot: RunRpcHydrationSnapshot,
    id: Seq<char>,
    i: int,
) -> bool {
    &&& 0 <= i < snapshot.live.active_tools@.len()
    &&& snapshot.live.active_tools@[i].tool_call_id@ == id
    &&& snapshot.live.active_tools@[i].tool_name@ == c.live.tools[id].tool_name
    &&& snapshot.live.active_tools@[i].output@ == c.live.tools[id].output.text
    &&& snapshot.live.active_tools@[i].dropped_bytes == c.live.tools[id].output.dropped_bytes
}

/// Every tool that runs is shown, with its newest output.
pub proof fn running_tools_are_shown(
    c: ControllerView,
    snapshot: RunRpcHydrationSnapshot,
    now_ms: u64,
    id: Seq<char>,
)
    requires
        c.pictured(snapshot, now_ms),
        c.live.tools.contains_key(id),
    ensures
        exists|i: int| shows_tool(c, snapshot, id, i),
{
    let shown = snapshot.live.active_tools@;
    let ids = choose|ids: Seq<Seq<char>>|
        {
            &&& #[trigger] strictly_ordered::<String>(ids)
            &&& ids.to_set() == c.live.tools.dom()
            &&& shown.len() == ids.len()
            &&& forall|i: int|
                0 <= i < ids.len() ==> (#[trigger] shown[i]).shows(ids[i], c.live.tools[ids[i]])
        };
    assert(ids.to_set().contains(id));
    let i = choose|i: int| 0 <= i < ids.len() && ids[i] == id;
    assert(shown[i].shows(ids[i], c.live.tools[ids[i]]));
    assert(shows_tool(c, snapshot, id, i));
}

/// Whether a snapshot shows the output of a shell command.
pub open spec fn shows_shell(
    c: ControllerView,
    snapshot: RunRpcHydrationSnapshot,
    id: Seq<char>,
    i: int,
) -> bool {
    &&& 0 <= i < snapshot.live.direct_bash@.len()
    &&& snapshot.live.direct_bash@[i].request_id@ == id
    &&& snapshot.live.direct_bash@[i].output@ == c.live.direct_bash[id].text
    &&& snapshot.live.direct_bash@[i].dropped_bytes == c.live.direct_bash[id].dropped_bytes
}

/// Every shell command that runs is shown, with its newest output.
pub proof fn running_shell_commands_are_shown(
    c: ControllerView,
    snapshot: RunRpcHydrationSnapshot,
    now_ms: u64,
    id: Seq<char>,
)
    requires
        c.pictured(snapshot, now_ms),
        c.live.direct_bash.contains_key(id),
    ensures
        exists|i: int| shows_shell(c, snapshot, id, i),
{
    let shown = snapshot.live.direct_bash@;
    let ids = choose|ids: Seq<Seq<char>>|
        {
            &&& #[trigger] strictly_ordered::<RequestId>(ids)
            &&& ids.to_set() == c.live.direct_bash.dom()
            &&& shown.len() == ids.len()
            &&& forall|i: int|
                0 <= i < ids.len() ==> (#[trigger] shown[i]).shows(
                    ids[i],
                    c.live.direct_bash[ids[i]],
                )
        };
    assert(ids.to_set().contains(id));
    let i = choose|i: int| 0 <= i < ids.len() && ids[i] == id;
    assert(shown[i].shows(ids[i], c.live.direct_bash[ids[i]]));
    assert(shows_shell(c, snapshot, id, i));
}

/// A snapshot shows the message that is streamed block by block, what Pi can do, where the
/// session was read up to, and what goes on besides.
pub proof fn a_snapshot_shows_what_goes_on(
    c: ControllerView,
    snapshot: RunRpcHydrationSnapshot,
    now_ms: u64,
)
    requires
        c.pictured(snapshot, now_ms),
    ensures
        snapshot.run_id == c.run_id,
        snapshot.stream_stalled == c.stream_stalled,
        snapshot.capabilities@ == c.capabilities,
        snapshot.session_sync@ == c.session_sync,
        snapshot.live.reasoning@ == c.live.reasoning(),
        snapshot.live.assistant_blocks@.len() == c.live.blocks.len(),
        forall|i: int|
            0 <= i < c.live.blocks.len() ==> {
                let shown = #[trigger] snapshot.live.assistant_blocks@[i];
                &&& shown.content_index == c.live.blocks[i].content_index
                &&& shown.kind == c.live.blocks[i].kind
                &&& shown.text@ == c.live.blocks[i].content.text
                &&& shown.dropped_bytes == c.live.blocks[i].content.dropped_bytes
                &&& shown.complete == c.live.blocks[i].complete
            },
        snapshot.compaction is Some <==> c.compaction is Some,
        snapshot.compaction is Some ==> snapshot.compaction->0@ == c.compaction->0,
        snapshot.retry is Some <==> c.retry is Some,
        snapshot.retry is Some ==> snapshot.retry->0@ == c.retry->0,
        snapshot.summarization_retry is Some <==> c.summarization_retry is Some,
        snapshot.summarization_retry is Some ==> snapshot.summarization_retry->0@
            == c.summarization_retry->0,
        snapshot.last_extension_error is Some <==> c.last_extension_error is Some,
        snapshot.last_extension_error is Some ==> snapshot.last_extension_error->0@
            == c.last_extension_error->0,
        optional_view(snapshot.extension_ui.title) == c.extension_ui.title,
{
    assert forall|i: int| 0 <= i < c.live.blocks.len() implies {
        let shown = #[trigger] snapshot.live.assistant_blocks@[i];
        &&& shown.content_index == c.live.blocks[i].content_index
        &&& shown.kind == c.live.blocks[i].kind
        &&& shown.text@ == c.live.blocks[i].content.text
        &&& shown.dropped_bytes == c.live.blocks[i].content.dropped_bytes
        &&& shown.complete == c.live.blocks[i].complete
    } by {
        assert(snapshot.live.assistant_blocks@[i].shows(c.live.blocks[i]));
    }
}

/// Bytes of a text that may be missing.
pub open spec fn bytes_of(value: Option<String>) -> nat {
    match value {
        Some(text) => byte_len(text@),
        None => 0,
    }
}

/// The state that Pi tells is taken exactly where its texts are no more bytes together than may
/// be kept: the provider, identity and name of the model, and the file, identity and name of
/// the session.
pub proof fn told_states_are_bounded(response: RpcResponse, limits: RuntimeLimits)
    ensures
        !(response.payload is State) ==> response.state_refusal(limits) is Some,
        response.payload is State ==> {
            let state = response.payload->State_0;
            let model = match state.model {
                Some(model) => byte_len(model.provider@) + byte_len(model.id@) + bytes_of(
                    model.name,
                ),
                None => 0,
            };
            let bytes = model + bytes_of(state.session_file) + byte_len(state.session_id@)
                + bytes_of(state.session_name);
            let refusal = response.state_refusal(limits);
            &&& limits.max_runtime_state_bytes_per_run < usize::MAX ==> (refusal is None <==> bytes
                <= limits.max_runtime_state_bytes_per_run)
            &&& refusal is Some && bytes <= usize::MAX ==> refusal->0 == (
            RpcResponsePayloadError::RuntimeStateByteLimit {
                attempted: bytes as usize,
                limit: limits.max_runtime_state_bytes_per_run,
            })
        },
{
}

/// A page of entries is taken exactly where it has no more entries and no more bytes than a
/// page may have.
pub proof fn told_pages_are_bounded(response: RpcResponse, limits: RuntimeLimits)
    ensures
        !(response.payload is Entries) ==> response.page_refusal(limits) is Some,
        response.payload is Entries ==> {
            let page = response.payload->Entries_0;
            let refusal = response.page_refusal(limits);
            &&& refusal is None <==> page.entries@.len() <= limits.max_session_entries_per_page
                && page.encoded_bytes <= limits.max_session_entry_page_bytes
            &&& page.entries@.len() > limits.max_session_entries_per_page ==> refusal is Some
                && refusal->0 is SessionEntryLimit
            &&& refusal is Some && refusal->0 is SessionEntryByteLimit ==> refusal->0 == (
            RpcResponsePayloadError::SessionEntryByteLimit {
                attempted: page.encoded_bytes,
                limit: limits.max_session_entry_page_bytes,
            })
        },
{
}

/// A queue that Pi gives back is taken exactly where its texts are no more bytes together than
/// may be recovered.
pub proof fn recovered_queues_are_bounded(response: RpcResponse, limits: RuntimeLimits)
    ensures
        !(response.payload is ClearedQueue) ==> response.queue_refusal(limits) is Some,
        response.payload is ClearedQueue ==> {
            let queue = response.payload->ClearedQueue_0@;
            let bytes = all_bytes(queue.steering) + all_bytes(queue.follow_up);
            let refusal = response.queue_refusal(limits);
            limits.max_recovered_queue_bytes_per_run < usize::MAX ==> (refusal is None <==> bytes
                <= limits.max_recovered_queue_bytes_per_run)
        },
{
}

/// The bytes of a list of texts are those of each of them.
pub proof fn every_text_is_counted(texts: Seq<String>, text: String)
    ensures
        all_bytes(Seq::<String>::empty()) == 0,
        all_bytes(texts.push(text)) == all_bytes(texts) + byte_len(text@),
{
    assert(texts.push(text).drop_last() =~= texts);
}

/// What a run keeps of its session takes the bytes of the texts that it holds.
pub proof fn kept_sessions_take_their_bytes(run: RunRecordView, name: Option<Seq<char>>)
    ensures
        ({
            let model = match run.session.model {
                Some(model) => byte_len(model.provider@) + byte_len(model.id@) + bytes_of(
                    model.name,
                ),
                None => 0,
            };
            &&& name is Some ==> run.retained_bytes(name) == model + bytes_of(
                run.session.session_file,
            ) + bytes_of(run.session.session_id) + byte_len(name->0)
            &&& name is None ==> run.retained_bytes(name) == model + bytes_of(
                run.session.session_file,
            ) + bytes_of(run.session.session_id)
        }),
{
}

} // verus!
