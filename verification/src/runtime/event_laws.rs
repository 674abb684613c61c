//! What the events of Pi do to the live state of a run, and what is told of them.
use vstd::prelude::*;
use vstd::string::*;

use crate::bounded::{bounded_detail, BoundedTextView};
use crate::events::{
    AssistantMessageBlockKind, AssistantMessageEnd, AssistantMessageUpdate, ExtensionDialogRequest,
    ExtensionFireAndForget, ExtensionNotifyType, ExtensionUiParseError, ExtensionUiRequest,
    ExtensionWidgetPlacement, RpcEvent, RpcEventPayloadError,
};
use crate::ids::{RequestId, RunId};
use crate::rpc::{all_bytes, ClearQueueResult, ThinkingLevel};
use crate::runtime::extension_ui::WidgetPlacement;
use crate::runtime::projection::AssistantContentKind;
use crate::runtime::rpc_controller::{
    ControllerErrorView, ControllerStep, ControllerView, RunRpcEffectView,
};
use crate::runtime::state::{ProcessState, RuntimeStoreView};
use crate::text::{byte_len, optional_view};
use crate::text_laws::{details_keep_their_newest_part, replaced_text_forgets_what_it_held};

verus! {

/// Whether the run of a controller is known and ready.
pub open spec fn ready(c: ControllerView, store: RuntimeStoreView) -> bool {
    store.runs.contains_key(c.run_id) && store.runs[c.run_id].process == ProcessState::Ready
}

/// Whether no other run has changed, and no run has come or gone.
pub open spec fn others_kept(
    before: RuntimeStoreView,
    after: RuntimeStoreView,
    run_id: RunId,
) -> bool {
    &&& after.runs.dom() == before.runs.dom()
    &&& after.max_pending_ui_requests_per_run == before.max_pending_ui_requests_per_run
    &&& forall|id: RunId| #[trigger]
        before.runs.contains_key(id) && id != run_id ==> after.runs[id] == before.runs[id]
}

/// Whether `shown` is a detail that arrived as `full`, and `cut` says whether it was cut:
/// it is whole where it fits, and else the end of it.
pub open spec fn shows_detail(shown: Seq<char>, cut: bool, full: Seq<char>, max: nat) -> bool {
    &&& cut <==> byte_len(full) > max
    &&& byte_len(full) <= max ==> shown == full
    &&& shown.len() <= full.len()
    &&& shown == full.skip(full.len() - shown.len())
    &&& byte_len(shown) <= max
}

/// The same of a detail that need not be there.
pub open spec fn shows_optional(
    shown: Option<Seq<char>>,
    cut: bool,
    full: Option<String>,
    max: nat,
) -> bool {
    match full {
        Some(full) => shown is Some && shows_detail(shown->0, cut, full@, max),
        None => shown is None && !cut,
    }
}

proof fn lemma_detail(full: Seq<char>, max: nat)
    ensures
        shows_detail(bounded_detail(full, max).0, bounded_detail(full, max).1, full, max),
{
    details_keep_their_newest_part(full, max);
}

proof fn lemma_optional(full: Option<String>, max: nat)
    ensures
        full is Some ==> shows_detail(
            bounded_detail(full->0@, max).0,
            bounded_detail(full->0@, max).1,
            full->0@,
            max,
        ),
{
    if full is Some {
        lemma_detail(full->0@, max);
    }
}

/// Whether everything that an event has no part in is as it was: requests that wait, what is
/// known of the session and of the capabilities, and each activity that the event does not
/// speak of.
pub open spec fn rest_is_kept(c: ControllerView, event: RpcEvent, after: ControllerView) -> bool {
    &&& after.run_id == c.run_id
    &&& after.limits == c.limits
    &&& after.pending == c.pending
    &&& after.gate == c.gate
    &&& after.capabilities == c.capabilities
    &&& after.session_sync == c.session_sync
    &&& after.session_sync_request == c.session_sync_request
    &&& after.stream_stalled == c.stream_stalled
    &&& !(event is CompactionStart || event is CompactionEnd || event is AgentStart)
        ==> after.compaction == c.compaction
    &&& !(event is AutoRetryStart || event is AutoRetryEnd || event is AgentStart) ==> after.retry
        == c.retry
    &&& !(event is SummarizationRetryScheduled || event is SummarizationRetryAttemptStart
        || event is SummarizationRetryFinished) ==> after.summarization_retry
        == c.summarization_retry
    &&& !(event is ExtensionError) ==> after.last_extension_error == c.last_extension_error
    &&& !(event is QueueUpdate) ==> after.observed_queue_recovery == c.observed_queue_recovery
    &&& !(event is ExtensionUiRequest) ==> after.extension_ui == c.extension_ui
        && after.pending_dialogs == c.pending_dialogs && after.pending_dialog_bytes
        == c.pending_dialog_bytes
    &&& !(event is AgentStart || event is MessageStart || event is MessageUpdate
        || event is MessageEnd) ==> after.live.blocks == c.live.blocks
        && after.live.carried_reasoning == c.live.carried_reasoning
    &&& !(event is ToolExecutionStart || event is ToolExecutionUpdate || event is ToolExecutionEnd
        || event is AgentSettled) ==> after.live.tools == c.live.tools
    &&& !(event is BashExecutionUpdate) ==> after.live.direct_bash == c.live.direct_bash
}

/// What a step leaves of the runs: a refused one changes none, and none changes another run.
pub open spec fn runs_are_kept(
    c: ControllerView,
    store: RuntimeStoreView,
    step: ControllerStep<RunRpcEffectView>,
) -> bool {
    &&& step.result is Err ==> step.store == store
    &&& others_kept(store, step.store, c.run_id)
}

proof fn lemma_agent_events_keep(
    c: ControllerView,
    event: RpcEvent,
    store: RuntimeStoreView,
    now_ms: u64,
    now_unix_ms: u64,
    error_message: Option<String>,
)
    requires
        event is AgentStart || event is AgentSettled || event is MessageStart,
    ensures
        ({
            let step = c.event_applied(event, store, now_ms, now_unix_ms, error_message);
            rest_is_kept(c, event, step.controller) && runs_are_kept(c, store, step)
        }),
{
    reveal(ControllerView::event_applied);
    let after = c.event_applied(event, store, now_ms, now_unix_ms, error_message).store;
    assert(after.runs.dom() =~= store.runs.dom());
}

proof fn lemma_compaction_events_keep(
    c: ControllerView,
    event: RpcEvent,
    store: RuntimeStoreView,
    now_ms: u64,
    now_unix_ms: u64,
    error_message: Option<String>,
)
    requires
        event is CompactionStart || event is CompactionEnd,
    ensures
        ({
            let step = c.event_applied(event, store, now_ms, now_unix_ms, error_message);
            rest_is_kept(c, event, step.controller) && runs_are_kept(c, store, step)
        }),
{
    reveal(ControllerView::event_applied);
    let after = c.event_applied(event, store, now_ms, now_unix_ms, error_message).store;
    assert(after.runs.dom() =~= store.runs.dom());
}

proof fn lemma_retry_events_keep(
    c: ControllerView,
    event: RpcEvent,
    store: RuntimeStoreView,
    now_ms: u64,
    now_unix_ms: u64,
    error_message: Option<String>,
)
    requires
        event is AutoRetryStart || event is AutoRetryEnd,
    ensures
        ({
            let step = c.event_applied(event, store, now_ms, now_unix_ms, error_message);
            rest_is_kept(c, event, step.controller) && runs_are_kept(c, store, step)
        }),
{
    reveal(ControllerView::event_applied);
    let after = c.event_applied(event, store, now_ms, now_unix_ms, error_message).store;
    assert(after.runs.dom() =~= store.runs.dom());
}

proof fn lemma_summarization_events_keep(
    c: ControllerView,
    event: RpcEvent,
    store: RuntimeStoreView,
    now_ms: u64,
    now_unix_ms: u64,
    error_message: Option<String>,
)
    requires
        event is SummarizationRetryScheduled || event is SummarizationRetryAttemptStart
            || event is SummarizationRetryFinished,
    ensures
        ({
            let step = c.event_applied(event, store, now_ms, now_unix_ms, error_message);
            rest_is_kept(c, event, step.controller) && runs_are_kept(c, store, step)
        }),
{
    reveal(ControllerView::event_applied);
    let after = c.event_applied(event, store, now_ms, now_unix_ms, error_message).store;
    assert(after.runs.dom() =~= store.runs.dom());
}

proof fn lemma_session_events_keep(
    c: ControllerView,
    event: RpcEvent,
    store: RuntimeStoreView,
    now_ms: u64,
    now_unix_ms: u64,
    error_message: Option<String>,
)
    requires
        event is SessionInfoChanged || event is ThinkingLevelChanged || event is QueueUpdate
            || event is ExtensionError,
    ensures
        ({
            let step = c.event_applied(event, store, now_ms, now_unix_ms, error_message);
            rest_is_kept(c, event, step.controller) && runs_are_kept(c, store, step)
        }),
{
    reveal(ControllerView::event_applied);
    let after = c.event_applied(event, store, now_ms, now_unix_ms, error_message).store;
    assert(after.runs.dom() =~= store.runs.dom());
}

proof fn lemma_message_events_keep(
    c: ControllerView,
    event: RpcEvent,
    store: RuntimeStoreView,
    now_ms: u64,
    now_unix_ms: u64,
    error_message: Option<String>,
)
    requires
        event is MessageUpdate || event is MessageEnd,
    ensures
        ({
            let step = c.event_applied(event, store, now_ms, now_unix_ms, error_message);
            rest_is_kept(c, event, step.controller) && runs_are_kept(c, store, step)
        }),
{
    reveal(ControllerView::event_applied);
    let after = c.event_applied(event, store, now_ms, now_unix_ms, error_message).store;
    assert(after.runs.dom() =~= store.runs.dom());
}

proof fn lemma_tool_events_keep(
    c: ControllerView,
    event: RpcEvent,
    store: RuntimeStoreView,
    now_ms: u64,
    now_unix_ms: u64,
    error_message: Option<String>,
)
    requires
        event is ToolExecutionStart || event is ToolExecutionUpdate || event is ToolExecutionEnd
            || event is BashExecutionUpdate,
    ensures
        ({
            let step = c.event_applied(event, store, now_ms, now_unix_ms, error_message);
            rest_is_kept(c, event, step.controller) && runs_are_kept(c, store, step)
        }),
{
    reveal(ControllerView::event_applied);
    let after = c.event_applied(event, store, now_ms, now_unix_ms, error_message).store;
    assert(after.runs.dom() =~= store.runs.dom());
}

proof fn lemma_extension_events_keep(
    c: ControllerView,
    event: RpcEvent,
    store: RuntimeStoreView,
    now_ms: u64,
    now_unix_ms: u64,
    error_message: Option<String>,
)
    requires
        event is ExtensionUiRequest,
    ensures
        ({
            let step = c.event_applied(event, store, now_ms, now_unix_ms, error_message);
            rest_is_kept(c, event, step.controller) && runs_are_kept(c, store, step)
        }),
{
    reveal(ControllerView::event_applied);
    let after = c.event_applied(event, store, now_ms, now_unix_ms, error_message).store;
    assert(after.runs.dom() =~= store.runs.dom());
}

proof fn lemma_unread_events_keep(
    c: ControllerView,
    event: RpcEvent,
    store: RuntimeStoreView,
    now_ms: u64,
    now_unix_ms: u64,
    error_message: Option<String>,
)
    requires
        event is Malformed || event is MalformedExtensionUi || event is Other,
    ensures
        ({
            let step = c.event_applied(event, store, now_ms, now_unix_ms, error_message);
            rest_is_kept(c, event, step.controller) && runs_are_kept(c, store, step)
        }),
{
    reveal(ControllerView::event_applied);
    let after = c.event_applied(event, store, now_ms, now_unix_ms, error_message).store;
    assert(after.runs.dom() =~= store.runs.dom());
}

/// What an event has no part in, it leaves alone, and a refused event changes no run.
pub proof fn events_leave_the_rest_alone(
    c: ControllerView,
    event: RpcEvent,
    store: RuntimeStoreView,
    now_ms: u64,
    now_unix_ms: u64,
    error_message: Option<String>,
)
    ensures
        ({
            let step = c.event_applied(event, store, now_ms, now_unix_ms, error_message);
            rest_is_kept(c, event, step.controller) && runs_are_kept(c, store, step)
        }),
{
    match event {
        RpcEvent::AgentStart
        | RpcEvent::AgentSettled
        | RpcEvent::MessageStart => {
            lemma_agent_events_keep(c, event, store, now_ms, now_unix_ms, error_message);
        },
        RpcEvent::CompactionStart { .. }
        | RpcEvent::CompactionEnd { .. } => {
            lemma_compaction_events_keep(c, event, store, now_ms, now_unix_ms, error_message);
        },
        RpcEvent::AutoRetryStart { .. }
        | RpcEvent::AutoRetryEnd { .. } => {
            lemma_retry_events_keep(c, event, store, now_ms, now_unix_ms, error_message);
        },
        RpcEvent::SummarizationRetryScheduled { .. }
        | RpcEvent::SummarizationRetryAttemptStart { .. }
        | RpcEvent::SummarizationRetryFinished => {
            lemma_summarization_events_keep(c, event, store, now_ms, now_unix_ms, error_message);
        },
        RpcEvent::SessionInfoChanged { .. }
        | RpcEvent::ThinkingLevelChanged(_)
        | RpcEvent::QueueUpdate(_)
        | RpcEvent::ExtensionError { .. } => {
            lemma_session_events_keep(c, event, store, now_ms, now_unix_ms, error_message);
        },
        RpcEvent::MessageUpdate(_)
        | RpcEvent::MessageEnd(_) => {
            lemma_message_events_keep(c, event, store, now_ms, now_unix_ms, error_message);
        },
        RpcEvent::ToolExecutionStart { .. }
        | RpcEvent::ToolExecutionUpdate { .. }
        | RpcEvent::ToolExecutionEnd { .. }
        | RpcEvent::BashExecutionUpdate { .. } => {
            lemma_tool_events_keep(c, event, store, now_ms, now_unix_ms, error_message);
        },
        RpcEvent::ExtensionUiRequest(_) => {
            lemma_extension_events_keep(c, event, store, now_ms, now_unix_ms, error_message);
        },
        RpcEvent::Malformed(_)
        | RpcEvent::MalformedExtensionUi(_)
        | RpcEvent::Other => {
            lemma_unread_events_keep(c, event, store, now_ms, now_unix_ms, error_message);
        },
    }
}

/// An agent that starts works: the run says so, nothing of the last turn is shown, and a
/// retry that was waited for is under way. What has ended is cleared away.
pub proof fn a_started_agent_works(
    c: ControllerView,
    store: RuntimeStoreView,
    now_ms: u64,
    now_unix_ms: u64,
)
    requires
        ready(c, store),
    ensures
        ({
            let step = c.event_applied(RpcEvent::AgentStart, store, now_ms, now_unix_ms, None);
            let after = step.controller;
            let run = step.store.runs[c.run_id];
            &&& step.result == Ok::<RunRpcEffectView, ControllerErrorView>(
                RunRpcEffectView::SemanticStateChanged,
            )
            &&& run.agent_working
            &&& !run.abort_requested
            &&& !run.retry_waiting
            &&& run.process == ProcessState::Ready
            &&& after.live.blocks.len() == 0
            &&& after.live.carried_reasoning.len() == 0
            &&& after.compaction == (if c.compaction is Some && c.compaction->0.finished
                && c.compaction->0.will_retry {
                None
            } else {
                c.compaction
            })
            &&& c.retry is None || c.retry->0.finished ==> after.retry is None
            &&& c.retry is Some && !c.retry->0.finished ==> {
                &&& after.retry is Some
                &&& !after.retry->0.waiting
                &&& !after.retry->0.finished
                &&& after.retry->0.attempt == c.retry->0.attempt
                &&& after.retry->0.max_attempts == c.retry->0.max_attempts
                &&& after.retry->0.delay_ms == c.retry->0.delay_ms
                &&& after.retry->0.error_message == c.retry->0.error_message
                &&& after.retry->0.success == c.retry->0.success
            }
        }),
{
    reveal(ControllerView::event_applied);
}

/// An agent that settles works no longer, and waits for no retry. Its tools are gone, and
/// where one of them never finished, the changes of the run are out of date.
pub proof fn a_settled_agent_rests(
    c: ControllerView,
    store: RuntimeStoreView,
    now_ms: u64,
    now_unix_ms: u64,
)
    requires
        ready(c, store),
        store.runs[c.run_id].change_revision < u64::MAX,
        store.runs[c.run_id].agent_settled_generation < u64::MAX,
        c.live.tools.dom().finite(),
    ensures
        ({
            let step = c.event_applied(RpcEvent::AgentSettled, store, now_ms, now_unix_ms, None);
            let before = store.runs[c.run_id];
            let run = step.store.runs[c.run_id];
            &&& step.result == Ok::<RunRpcEffectView, ControllerErrorView>(
                RunRpcEffectView::SemanticStateChanged,
            )
            &&& !run.agent_working
            &&& !run.abort_requested
            &&& !run.retry_waiting
            &&& !run.summarization_retry_active
            &&& run.compacting == before.compacting
            &&& run.agent_settled_generation == before.agent_settled_generation + 1
            &&& step.controller.live.tools == Map::<
                Seq<char>,
                crate::runtime::projection::ToolPreviewView,
            >::empty()
            &&& run.change_revision == before.change_revision + (if c.live.tools.dom()
                =~= Set::<Seq<char>>::empty() {
                0int
            } else {
                1
            })
        }),
{
    reveal(ControllerView::event_applied);
    if c.live.tools.dom().len() == 0 {
        c.live.tools.dom().lemma_len0_is_empty();
    }
}

/// Compaction is shown from its start to its end with its reason, and the run is compacting
/// in between. How it ended is shown as Pi told it.
pub proof fn compaction_is_shown_from_start_to_end(
    c: ControllerView,
    reason: String,
    aborted: bool,
    will_retry: bool,
    error: Option<String>,
    store: RuntimeStoreView,
    now_ms: u64,
    now_unix_ms: u64,
)
    requires
        ready(c, store),
    ensures
        ({
            let max = c.limits.max_failure_detail_bytes as nat;
            let started = c.event_applied(
                RpcEvent::CompactionStart { reason },
                store,
                now_ms,
                now_unix_ms,
                None,
            );
            let ended = c.event_applied(
                RpcEvent::CompactionEnd { reason, aborted, will_retry, error_message: error },
                store,
                now_ms,
                now_unix_ms,
                None,
            );
            let a = started.controller.compaction;
            let b = ended.controller.compaction;
            &&& started.result == Ok::<RunRpcEffectView, ControllerErrorView>(
                RunRpcEffectView::SemanticStateChanged,
            )
            &&& started.store.runs[c.run_id].compacting
            &&& started.store.runs[c.run_id].agent_working == store.runs[c.run_id].agent_working
            &&& a is Some
            &&& shows_detail(a->0.reason, a->0.reason_truncated, reason@, max)
            &&& !a->0.finished && !a->0.aborted && !a->0.will_retry
            &&& a->0.error_message is None && !a->0.error_truncated
            &&& ended.result == Ok::<RunRpcEffectView, ControllerErrorView>(
                RunRpcEffectView::SemanticStateChanged,
            )
            &&& !ended.store.runs[c.run_id].compacting
            &&& ended.store.runs[c.run_id].agent_working == store.runs[c.run_id].agent_working
            &&& b is Some
            &&& shows_detail(b->0.reason, b->0.reason_truncated, reason@, max)
            &&& b->0.finished
            &&& b->0.aborted == aborted
            &&& b->0.will_retry == will_retry
            &&& shows_optional(b->0.error_message, b->0.error_truncated, error, max)
        }),
{
    reveal(ControllerView::event_applied);
    let max = c.limits.max_failure_detail_bytes as nat;
    lemma_detail(reason@, max);
    lemma_optional(error, max);
}

/// A retry is shown as waiting from its start, with the numbers and the error that Pi told,
/// and the run waits for it.
pub proof fn a_retry_is_shown_while_it_waits(
    c: ControllerView,
    attempt: usize,
    max_attempts: usize,
    delay_ms: u64,
    error: String,
    store: RuntimeStoreView,
    now_ms: u64,
    now_unix_ms: u64,
)
    requires
        ready(c, store),
    ensures
        ({
            let step = c.event_applied(
                RpcEvent::AutoRetryStart { attempt, max_attempts, delay_ms, error_message: error },
                store,
                now_ms,
                now_unix_ms,
                None,
            );
            let retry = step.controller.retry;
            &&& step.result == Ok::<RunRpcEffectView, ControllerErrorView>(
                RunRpcEffectView::SemanticStateChanged,
            )
            &&& step.store.runs[c.run_id].retry_waiting
            &&& retry is Some
            &&& retry->0.attempt == attempt
            &&& retry->0.max_attempts == max_attempts
            &&& retry->0.delay_ms == delay_ms
            &&& shows_detail(
                retry->0.error_message,
                retry->0.error_truncated,
                error@,
                c.limits.max_failure_detail_bytes as nat,
            )
            &&& retry->0.waiting && !retry->0.finished
            &&& retry->0.success is None && retry->0.final_error is None
            &&& !retry->0.final_error_truncated
        }),
{
    reveal(ControllerView::event_applied);
    lemma_detail(error@, c.limits.max_failure_detail_bytes as nat);
}

/// The end of a retry is shown as Pi told it, beside what was known of the retry. The run
/// waits no longer.
pub proof fn the_end_of_a_retry_is_shown(
    c: ControllerView,
    attempt: usize,
    success: bool,
    error: Option<String>,
    store: RuntimeStoreView,
    now_ms: u64,
    now_unix_ms: u64,
)
    requires
        ready(c, store),
    ensures
        ({
            let step = c.event_applied(
                RpcEvent::AutoRetryEnd { attempt, success, final_error: error },
                store,
                now_ms,
                now_unix_ms,
                None,
            );
            let retry = step.controller.retry;
            &&& step.result == Ok::<RunRpcEffectView, ControllerErrorView>(
                RunRpcEffectView::SemanticStateChanged,
            )
            &&& !step.store.runs[c.run_id].retry_waiting
            &&& retry is Some
            &&& retry->0.attempt == attempt
            &&& retry->0.success == Some(success)
            &&& retry->0.finished && !retry->0.waiting
            &&& shows_optional(
                retry->0.final_error,
                retry->0.final_error_truncated,
                error,
                c.limits.max_failure_detail_bytes as nat,
            )
            &&& c.retry is Some ==> {
                &&& retry->0.max_attempts == c.retry->0.max_attempts
                &&& retry->0.delay_ms == c.retry->0.delay_ms
                &&& retry->0.error_message == c.retry->0.error_message
                &&& retry->0.error_truncated == c.retry->0.error_truncated
            }
            &&& c.retry is None ==> retry->0.max_attempts == attempt && retry->0.delay_ms == 0
                && retry->0.error_message.len() == 0
        }),
{
    reveal(ControllerView::event_applied);
    lemma_optional(error, c.limits.max_failure_detail_bytes as nat);
}

/// The retry of a summarization is shown from the moment it is scheduled until it is
/// finished, and the run says all that time that one is active.
pub proof fn a_summarization_retry_is_shown_until_it_is_finished(
    c: ControllerView,
    attempt: usize,
    max_attempts: usize,
    delay_ms: u64,
    error: String,
    source: String,
    reason: Option<String>,
    store: RuntimeStoreView,
    now_ms: u64,
    now_unix_ms: u64,
)
    requires
        ready(c, store),
    ensures
        ({
            let max = c.limits.max_failure_detail_bytes as nat;
            let step = c.event_applied(
                RpcEvent::SummarizationRetryScheduled {
                    attempt,
                    max_attempts,
                    delay_ms,
                    error_message: error,
                },
                store,
                now_ms,
                now_unix_ms,
                None,
            );
            let retry = step.controller.summarization_retry;
            &&& step.result == Ok::<RunRpcEffectView, ControllerErrorView>(
                RunRpcEffectView::SemanticStateChanged,
            )
            &&& step.store.runs[c.run_id].summarization_retry_active
            &&& retry is Some
            &&& retry->0.attempt == attempt
            &&& retry->0.max_attempts == max_attempts
            &&& retry->0.delay_ms == delay_ms
            &&& shows_detail(retry->0.error_message, retry->0.error_truncated, error@, max)
            &&& retry->0.source is None && retry->0.reason is None && !retry->0.finished
        }),
        ({
            let max = c.limits.max_failure_detail_bytes as nat;
            let step = c.event_applied(
                RpcEvent::SummarizationRetryAttemptStart { source, reason },
                store,
                now_ms,
                now_unix_ms,
                None,
            );
            let retry = step.controller.summarization_retry;
            &&& step.result == Ok::<RunRpcEffectView, ControllerErrorView>(
                RunRpcEffectView::SemanticStateChanged,
            )
            &&& step.store.runs[c.run_id].summarization_retry_active
            &&& retry is Some
            &&& retry->0.source is Some
            &&& shows_detail(retry->0.source->0, byte_len(source@) > max, source@, max)
            &&& reason is Some ==> retry->0.reason is Some && shows_detail(
                retry->0.reason->0,
                byte_len(reason->0@) > max,
                reason->0@,
                max,
            )
            &&& reason is None ==> retry->0.reason is None
            &&& !retry->0.finished
            &&& c.summarization_retry is Some ==> {
                let known = c.summarization_retry->0;
                &&& retry->0.attempt == known.attempt
                &&& retry->0.max_attempts == known.max_attempts
                &&& retry->0.delay_ms == known.delay_ms
                &&& retry->0.error_message == known.error_message
                &&& retry->0.error_truncated <==> known.error_truncated || byte_len(source@) > max
                    || (reason is Some && byte_len(reason->0@) > max)
            }
            &&& c.summarization_retry is None ==> retry->0.attempt == 0 && retry->0.max_attempts == 0
                && retry->0.delay_ms == 0 && retry->0.error_message.len() == 0
        }),
        ({
            let step = c.event_applied(
                RpcEvent::SummarizationRetryFinished,
                store,
                now_ms,
                now_unix_ms,
                None,
            );
            let retry = step.controller.summarization_retry;
            &&& step.result == Ok::<RunRpcEffectView, ControllerErrorView>(
                RunRpcEffectView::SemanticStateChanged,
            )
            &&& !step.store.runs[c.run_id].summarization_retry_active
            &&& retry is Some <==> c.summarization_retry is Some
            &&& retry is Some ==> {
                let known = c.summarization_retry->0;
                &&& retry->0.finished
                &&& retry->0.attempt == known.attempt
                &&& retry->0.max_attempts == known.max_attempts
                &&& retry->0.error_message == known.error_message
                &&& retry->0.source == known.source
                &&& retry->0.reason == known.reason
            }
        }),
{
    reveal(ControllerView::event_applied);
    let max = c.limits.max_failure_detail_bytes as nat;
    lemma_detail(error@, max);
    lemma_detail(source@, max);
    lemma_optional(reason, max);
}

/// The last error of an extension is kept with its place, and the run is left alone.
pub proof fn extension_errors_are_kept(
    c: ControllerView,
    extension_path: String,
    event: String,
    error: String,
    store: RuntimeStoreView,
    now_ms: u64,
    now_unix_ms: u64,
)
    ensures
        ({
            let max = c.limits.max_failure_detail_bytes as nat;
            let step = c.event_applied(
                RpcEvent::ExtensionError { extension_path, event, error },
                store,
                now_ms,
                now_unix_ms,
                None,
            );
            let kept = step.controller.last_extension_error;
            &&& step.result == Ok::<RunRpcEffectView, ControllerErrorView>(
                RunRpcEffectView::SemanticStateChanged,
            )
            &&& step.store == store
            &&& kept is Some
            &&& shows_detail(
                kept->0.extension_path,
                byte_len(extension_path@) > max,
                extension_path@,
                max,
            )
            &&& shows_detail(kept->0.event, byte_len(event@) > max, event@, max)
            &&& shows_detail(kept->0.error, byte_len(error@) > max, error@, max)
            &&& kept->0.detail_truncated <==> byte_len(extension_path@) > max || byte_len(event@)
                > max || byte_len(error@) > max
        }),
{
    reveal(ControllerView::event_applied);
    let max = c.limits.max_failure_detail_bytes as nat;
    lemma_detail(extension_path@, max);
    lemma_detail(event@, max);
    lemma_detail(error@, max);
}

/// A queue that Pi shows is kept with all its texts, and the run counts both kinds; one that
/// takes too many bytes is refused, and the last one stays.
pub proof fn a_queue_is_kept_with_its_counts(
    c: ControllerView,
    queue: ClearQueueResult,
    store: RuntimeStoreView,
    now_ms: u64,
    now_unix_ms: u64,
)
    requires
        ready(c, store),
    ensures
        ({
            let step = c.event_applied(
                RpcEvent::QueueUpdate(queue),
                store,
                now_ms,
                now_unix_ms,
                None,
            );
            let bytes = all_bytes(queue.steering@) + all_bytes(queue.follow_up@);
            let limit = c.limits.max_recovered_queue_bytes_per_run;
            &&& bytes <= limit ==> {
                &&& step.result == Ok::<RunRpcEffectView, ControllerErrorView>(
                    RunRpcEffectView::SemanticStateChanged,
                )
                &&& step.store.runs[c.run_id].queue.steering == queue.steering@.len()
                &&& step.store.runs[c.run_id].queue.follow_up == queue.follow_up@.len()
                &&& step.controller.observed_queue_recovery.steering == queue.steering@
                &&& step.controller.observed_queue_recovery.follow_up == queue.follow_up@
            }
            &&& bytes > limit && limit < usize::MAX ==> {
                &&& step.result is Err
                &&& step.result->Err_0 is EventPayload
                &&& step.result->Err_0->EventPayload_0 is QueueByteLimit
                &&& step.store == store
                &&& step.controller == c
            }
        }),
{
    let step = c.event_applied(RpcEvent::QueueUpdate(queue), store, now_ms, now_unix_ms, None);
    assert(step == c.on_queue_update(queue@, store, now_unix_ms)) by {
        reveal(ControllerView::event_applied);
    }
    assert(queue.steering@.len() == queue.steering.len());
    assert(queue.follow_up@.len() == queue.follow_up.len());
}

/// The name of a session and the level of thinking are taken over as Pi tells them, and
/// nothing else of the session changes.
pub proof fn names_and_levels_are_taken_over(
    c: ControllerView,
    name: Option<String>,
    level: ThinkingLevel,
    store: RuntimeStoreView,
    now_ms: u64,
    now_unix_ms: u64,
)
    requires
        ready(c, store),
    ensures
        ({
            let step = c.event_applied(
                RpcEvent::SessionInfoChanged { name },
                store,
                now_ms,
                now_unix_ms,
                None,
            );
            let before = store.runs[c.run_id];
            let run = step.store.runs[c.run_id];
            let bytes = before.retained_bytes(optional_view(name));
            let limit = c.limits.max_runtime_state_bytes_per_run;
            &&& bytes <= limit ==> {
                &&& step.result == Ok::<RunRpcEffectView, ControllerErrorView>(
                    RunRpcEffectView::SemanticStateChanged,
                )
                &&& run.session.session_name == name
                &&& run.session.session_id == before.session.session_id
                &&& run.session.model == before.session.model
                &&& run.session.thinking_level == before.session.thinking_level
            }
            &&& bytes > limit && limit < usize::MAX ==> step.result is Err && step.store == store
                && step.controller == c
        }),
        ({
            let step = c.event_applied(
                RpcEvent::ThinkingLevelChanged(level),
                store,
                now_ms,
                now_unix_ms,
                None,
            );
            let before = store.runs[c.run_id];
            let run = step.store.runs[c.run_id];
            &&& step.result == Ok::<RunRpcEffectView, ControllerErrorView>(
                RunRpcEffectView::SemanticStateChanged,
            )
            &&& run.session.thinking_level == Some(level)
            &&& run.session.session_name == before.session.session_name
            &&& run.session.session_id == before.session.session_id
            &&& run.session.model == before.session.model
        }),
{
    reveal(ControllerView::event_applied);
}

/// A message that starts clears the one that was streaming and keeps its reasoning.
pub proof fn a_started_message_replaces_the_last(
    c: ControllerView,
    store: RuntimeStoreView,
    now_ms: u64,
    now_unix_ms: u64,
)
    ensures
        ({
            let step = c.event_applied(RpcEvent::MessageStart, store, now_ms, now_unix_ms, None);
            &&& step.result == Ok::<RunRpcEffectView, ControllerErrorView>(
                RunRpcEffectView::AssistantMessageReset,
            )
            &&& step.store == store
            &&& step.controller.live.blocks.len() == 0
            &&& step.controller.live.carried_reasoning == c.live.reasoning()
        }),
{
    reveal(ControllerView::event_applied);
}

/// Whether a block of a message and a block that is shown are of the same kind.
pub open spec fn same_kind(kind: AssistantMessageBlockKind, shown: AssistantContentKind) -> bool {
    match kind {
        AssistantMessageBlockKind::Text => shown == AssistantContentKind::Text,
        AssistantMessageBlockKind::Thinking => shown == AssistantContentKind::Thinking,
        AssistantMessageBlockKind::ToolCall => shown == AssistantContentKind::ToolCall,
    }
}

/// An update of a message names the block that it changed. It succeeds if and only if the
/// block is new, where one starts, or there and of the same kind; it never touches a run.
pub proof fn updates_name_their_block(
    c: ControllerView,
    content_index: usize,
    kind: AssistantMessageBlockKind,
    delta: String,
    content: Option<String>,
    store: RuntimeStoreView,
    now_ms: u64,
    now_unix_ms: u64,
)
    ensures
        ({
            let start = c.event_applied(
                RpcEvent::MessageUpdate(AssistantMessageUpdate::Start { content_index, kind }),
                store,
                now_ms,
                now_unix_ms,
                None,
            );
            let known = exists|i: int|
                0 <= i < c.live.blocks.len() && (#[trigger] c.live.blocks[i]).content_index
                    == content_index;
            &&& start.store == store
            &&& start.result is Ok <==> !known && c.live.blocks.len() < c.live.max_assistant_blocks
            &&& start.result is Ok ==> start.result->Ok_0 == (
            RunRpcEffectView::AssistantBlockUpdated { content_index })
            &&& start.result is Err ==> start.controller == c
        }),
        ({
            let grown = c.event_applied(
                RpcEvent::MessageUpdate(AssistantMessageUpdate::Delta { content_index, kind, delta }),
                store,
                now_ms,
                now_unix_ms,
                None,
            );
            &&& grown.store == store
            &&& grown.result is Ok ==> grown.result->Ok_0 == (
            RunRpcEffectView::AssistantBlockUpdated { content_index })
            &&& grown.result is Ok ==> exists|i: int|
                0 <= i < c.live.blocks.len() && (#[trigger] c.live.blocks[i]).content_index
                    == content_index && same_kind(kind, c.live.blocks[i].kind)
            &&& grown.result is Err ==> grown.controller == c
        }),
        ({
            let ended = c.event_applied(
                RpcEvent::MessageUpdate(AssistantMessageUpdate::End { content_index, kind, content }),
                store,
                now_ms,
                now_unix_ms,
                None,
            );
            &&& ended.store == store
            &&& ended.result is Ok ==> ended.result->Ok_0 == (
            RunRpcEffectView::AssistantBlockUpdated { content_index })
            &&& ended.result is Ok ==> exists|i: int|
                0 <= i < c.live.blocks.len() && (#[trigger] c.live.blocks[i]).content_index
                    == content_index && same_kind(kind, c.live.blocks[i].kind)
            &&& ended.result is Err ==> ended.controller == c
        }),
{
    reveal(ControllerView::event_applied);
    if crate::runtime::projection::has_block(c.live.blocks, content_index) {
        let at = crate::runtime::projection::block_position(c.live.blocks, content_index);
        assert(0 <= at < c.live.blocks.len() && c.live.blocks[at].content_index == content_index);
    }
}

/// The end of an assistant message is kept in the run: why it stopped, and its error. The end
/// of a message of another role changes nothing.
pub proof fn the_end_of_a_message_is_kept(
    c: ControllerView,
    message: AssistantMessageEnd,
    error_message: Option<String>,
    store: RuntimeStoreView,
    now_ms: u64,
    now_unix_ms: u64,
)
    requires
        ready(c, store),
        store.runs[c.run_id].assistant_message_generation < u64::MAX,
    ensures
        ({
            let event = RpcEvent::MessageEnd(Some(message));
            let step = c.event_applied(event, store, now_ms, now_unix_ms, error_message);
            let before = store.runs[c.run_id];
            let run = step.store.runs[c.run_id];
            &&& step.result is Ok ==> {
                &&& step.result->Ok_0 is SemanticStateChanged
                &&& run.last_assistant_stop_reason == Some(message.stop_reason)
                &&& run.last_assistant_error == error_message
                &&& run.assistant_message_generation == before.assistant_message_generation + 1
                &&& run.agent_settled_generation == before.agent_settled_generation
                &&& run.agent_working == before.agent_working
            }
            &&& match message.error_message {
                Some(error) => c.message_error(event) is Some && shows_detail(
                    c.message_error(event)->0,
                    byte_len(error@) > c.limits.max_failure_detail_bytes,
                    error@,
                    c.limits.max_failure_detail_bytes as nat,
                ),
                None => c.message_error(event) is None,
            }
        }),
        c.event_applied(RpcEvent::MessageEnd(None), store, now_ms, now_unix_ms, error_message) == (
        ControllerStep {
            controller: c,
            store,
            result: Ok::<RunRpcEffectView, ControllerErrorView>(RunRpcEffectView::Nothing),
        }),
{
    reveal(ControllerView::event_applied);
    lemma_optional(message.error_message, c.limits.max_failure_detail_bytes as nat);
}

/// Whether `shown` is the newest part of `full`.
pub open spec fn shows_output(shown: BoundedTextView, full: Seq<char>) -> bool {
    &&& byte_len(full) <= shown.max_bytes ==> shown.text == full && shown.dropped_bytes == 0
    &&& shown.text.len() <= full.len()
    &&& shown.text == full.skip(full.len() - shown.text.len())
    &&& byte_len(shown.text) <= shown.max_bytes
}

/// A tool call is shown from its start under its name and without output, unless it is shown
/// already or there are too many. Each update puts its output in place of what was shown.
pub proof fn a_tool_shows_its_newest_output(
    c: ControllerView,
    tool_call_id: String,
    tool_name: String,
    output: String,
    store: RuntimeStoreView,
    now_ms: u64,
    now_unix_ms: u64,
)
    ensures
        ({
            let step = c.event_applied(
                RpcEvent::ToolExecutionStart { tool_call_id, tool_name },
                store,
                now_ms,
                now_unix_ms,
                None,
            );
            let id = tool_call_id@;
            &&& step.store == store
            &&& step.result is Ok <==> !c.live.tools.contains_key(id) && c.live.tools.dom().len()
                < c.live.max_active_tools
            &&& step.result is Ok ==> {
                &&& step.result->Ok_0 == (RunRpcEffectView::ToolUpdated { tool_call_id: id })
                &&& step.controller.live.tools.dom() == c.live.tools.dom().insert(id)
                &&& step.controller.live.tools[id].tool_name == tool_name@
                &&& step.controller.live.tools[id].output.text.len() == 0
                &&& step.controller.live.tools[id].output.dropped_bytes == 0
                &&& forall|other: Seq<char>| #[trigger]
                    c.live.tools.contains_key(other) ==> step.controller.live.tools[other]
                        == c.live.tools[other]
            }
            &&& step.result is Err ==> step.controller == c
        }),
        ({
            let step = c.event_applied(
                RpcEvent::ToolExecutionUpdate { tool_call_id, accumulated_text: output },
                store,
                now_ms,
                now_unix_ms,
                None,
            );
            let id = tool_call_id@;
            &&& step.store == store
            &&& step.result is Ok <==> c.live.tools.contains_key(id)
            &&& step.result is Ok ==> {
                &&& step.result->Ok_0 == (RunRpcEffectView::ToolUpdated { tool_call_id: id })
                &&& step.controller.live.tools.dom() == c.live.tools.dom()
                &&& step.controller.live.tools[id].tool_name == c.live.tools[id].tool_name
                &&& step.controller.live.tools[id].output.max_bytes
                    == c.live.tools[id].output.max_bytes
                &&& shows_output(step.controller.live.tools[id].output, output@)
                &&& forall|other: Seq<char>| #[trigger]
                    c.live.tools.contains_key(other) && other != id
                        ==> step.controller.live.tools[other] == c.live.tools[other]
            }
            &&& step.result is Err ==> step.controller == c
        }),
{
    reveal(ControllerView::event_applied);
    let id = tool_call_id@;
    if c.live.tools.contains_key(id) {
        let shown = c.live.tools[id].output;
        replaced_text_forgets_what_it_held(shown, shown, output@);
        assert(c.live.tools.dom().insert(id) =~= c.live.tools.dom());
    }
}

/// A tool that ends is told with the identity, the name and the outcome that Pi told, and
/// with its last output: one that failed as failed, and one that succeeded as successful. It
/// is shown no longer, and the changes of the run are out of date.
pub proof fn a_tool_is_told_as_it_ended(
    c: ControllerView,
    tool_call_id: String,
    tool_name: String,
    output: String,
    is_error: bool,
    store: RuntimeStoreView,
    now_ms: u64,
    now_unix_ms: u64,
)
    ensures
        ({
            let step = c.event_applied(
                RpcEvent::ToolExecutionEnd {
                    tool_call_id,
                    tool_name,
                    final_text: output,
                    is_error,
                },
                store,
                now_ms,
                now_unix_ms,
                None,
            );
            let id = tool_call_id@;
            &&& ready(c, store) ==> (step.result is Ok <==> c.live.tools.contains_key(id))
            &&& step.result is Ok ==> {
                let effect = step.result->Ok_0;
                &&& c.live.tools.contains_key(id)
                &&& effect is ToolFinished
                &&& effect->ToolFinished_tool_call_id == id
                &&& effect->ToolFinished_tool_name == tool_name@
                &&& effect->ToolFinished_is_error == is_error
                &&& effect->preview.tool_name == c.live.tools[id].tool_name
                &&& effect->preview.output.max_bytes == c.live.tools[id].output.max_bytes
                &&& shows_output(effect->preview.output, output@)
                &&& step.controller.live.tools == c.live.tools.remove(id)
                &&& store.runs[c.run_id].change_revision < u64::MAX
                    ==> step.store.runs[c.run_id].change_revision
                    == store.runs[c.run_id].change_revision + 1
            }
            &&& !c.live.tools.contains_key(id) ==> step.controller == c && step.store == store
        }),
{
    reveal(ControllerView::event_applied);
    let id = tool_call_id@;
    if c.live.tools.contains_key(id) {
        let shown = c.live.tools[id].output;
        replaced_text_forgets_what_it_held(shown, shown, output@);
    }
}

/// The output of a shell command goes to the request that Pi names, behind what was there;
/// without a name, or under one that is not known, it goes nowhere.
pub proof fn shell_output_goes_to_its_request(
    c: ControllerView,
    request_id: Option<RequestId>,
    delta: String,
    store: RuntimeStoreView,
    now_ms: u64,
    now_unix_ms: u64,
)
    requires
        c.live.within_limits(),
    ensures
        ({
            let step = c.event_applied(
                RpcEvent::BashExecutionUpdate { request_id, delta },
                store,
                now_ms,
                now_unix_ms,
                None,
            );
            &&& step.store == store
            &&& request_id is None ==> step.result == Err::<RunRpcEffectView, ControllerErrorView>(
                ControllerErrorView::MissingBashRequestId,
            )
            &&& step.result is Ok <==> request_id is Some && c.live.direct_bash.contains_key(
                request_id->0@,
            )
            &&& step.result is Err ==> step.controller == c
            &&& step.result is Ok ==> {
                let id = request_id->0@;
                let before = c.live.direct_bash[id];
                let after = step.controller.live.direct_bash[id];
                &&& step.result->Ok_0 == (RunRpcEffectView::DirectBashUpdated { request_id: id })
                &&& step.controller.live.direct_bash.dom() == c.live.direct_bash.dom()
                &&& after.max_bytes == before.max_bytes
                &&& byte_len(before.text + delta@) <= before.max_bytes ==> after.text == before.text
                    + delta@ && after.dropped_bytes == before.dropped_bytes
                &&& after.text.len() <= before.text.len() + delta@.len()
                &&& after.text == (before.text + delta@).skip(
                    before.text.len() + delta@.len() - after.text.len(),
                )
                &&& forall|other: Seq<char>| #[trigger]
                    c.live.direct_bash.contains_key(other) && other != id
                        ==> step.controller.live.direct_bash[other] == c.live.direct_bash[other]
            }
        }),
{
    reveal(ControllerView::event_applied);
    if request_id is Some && c.live.direct_bash.contains_key(request_id->0@) {
        let id = request_id->0@;
        crate::text_laws::growing_text_loses_only_its_front(c.live.direct_bash[id], delta@);
        assert(c.live.direct_bash.dom().insert(id) =~= c.live.direct_bash.dom());
    }
}

/// A question of an extension is open from when it is asked, here and in the run, with what
/// it asks and the time after which Pi gives up on it.
pub proof fn a_question_is_open_once_it_is_asked(
    c: ControllerView,
    request: ExtensionDialogRequest,
    store: RuntimeStoreView,
    now_ms: u64,
    now_unix_ms: u64,
)
    ensures
        ({
            let step = c.event_applied(
                RpcEvent::ExtensionUiRequest(ExtensionUiRequest::Dialog(request)),
                store,
                now_ms,
                now_unix_ms,
                None,
            );
            let id = request.id@;
            let bytes = c.pending_dialog_bytes + request@.bytes();
            let limit = c.limits.max_extension_ui_bytes_per_run;
            &&& step.result is Err ==> step.controller == c && step.store == store
            &&& step.result is Ok ==> {
                let open = step.controller.pending_dialogs;
                &&& step.result->Ok_0 == RunRpcEffectView::ExtensionDialogRequested(request@)
                &&& open.dom() == c.pending_dialogs.dom().insert(id)
                &&& open[id].request.id == id
                &&& open[id].request.method == request.method
                &&& open[id].request.title == request.title@
                &&& open[id].request.message == optional_view(request.message)
                &&& open[id].request.options == request.options@
                &&& open[id].request.text == optional_view(request.text)
                &&& request.timeout_ms is None ==> open[id].expires_at_ms is None
                &&& request.timeout_ms is Some && now_ms + request.timeout_ms->0 <= u64::MAX
                    ==> open[id].expires_at_ms is Some && open[id].expires_at_ms->0 == now_ms
                    + request.timeout_ms->0
                &&& bytes <= usize::MAX ==> step.controller.pending_dialog_bytes == bytes && bytes
                    <= limit
                &&& step.store.runs[c.run_id].pending_ui_requests
                    == store.runs[c.run_id].pending_ui_requests.insert(id)
            }
            &&& ready(c, store) && bytes <= limit
                && !store.runs[c.run_id].pending_ui_requests.contains(id)
                && store.runs[c.run_id].pending_ui_requests.len()
                < store.max_pending_ui_requests_per_run ==> step.result is Ok
            &&& bytes > limit && limit < usize::MAX ==> step.result is Err
        }),
{
    reveal(ControllerView::event_applied);
}

/// What an extension shows without asking is shown as it wants: a status, a widget and a
/// title change what is shown and nothing of the run; a notification and a text for the
/// editor are passed on as they are.
pub proof fn extensions_show_what_they_want(
    c: ControllerView,
    key: String,
    text: Option<String>,
    lines: Option<Vec<String>>,
    placement: ExtensionWidgetPlacement,
    plain: String,
    notify_type: ExtensionNotifyType,
    store: RuntimeStoreView,
    now_ms: u64,
    now_unix_ms: u64,
)
    ensures
        ({
            let step = c.event_applied(
                RpcEvent::ExtensionUiRequest(
                    ExtensionUiRequest::FireAndForget(
                        ExtensionFireAndForget::SetStatus { key, text },
                    ),
                ),
                store,
                now_ms,
                now_unix_ms,
                None,
            );
            let ui = step.controller.extension_ui;
            &&& step.store == store
            &&& step.result is Err ==> step.controller == c
            &&& step.result is Ok ==> {
                &&& step.result->Ok_0 is ExtensionUiStateChanged
                &&& text is Some ==> ui.statuses == c.extension_ui.statuses.insert(key@, text->0@)
                &&& text is None ==> ui.statuses == c.extension_ui.statuses.remove(key@)
                &&& ui.widgets == c.extension_ui.widgets && ui.title == c.extension_ui.title
            }
        }),
        ({
            let step = c.event_applied(
                RpcEvent::ExtensionUiRequest(
                    ExtensionUiRequest::FireAndForget(
                        ExtensionFireAndForget::SetWidget { key, lines, placement },
                    ),
                ),
                store,
                now_ms,
                now_unix_ms,
                None,
            );
            let ui = step.controller.extension_ui;
            &&& step.store == store
            &&& step.result is Err ==> step.controller == c
            &&& step.result is Ok ==> {
                &&& step.result->Ok_0 is ExtensionUiStateChanged
                &&& lines is Some ==> {
                    &&& ui.widgets.dom() == c.extension_ui.widgets.dom().insert(key@)
                    &&& ui.widgets[key@].lines == lines->0@
                    &&& ui.widgets[key@].placement == WidgetPlacement::AboveEditor <==> placement
                        == ExtensionWidgetPlacement::AboveEditor
                    &&& ui.widgets.remove(key@) == c.extension_ui.widgets.remove(key@)
                }
                &&& lines is None ==> ui.widgets == c.extension_ui.widgets.remove(key@)
                &&& ui.statuses == c.extension_ui.statuses && ui.title == c.extension_ui.title
            }
        }),
        ({
            let step = c.event_applied(
                RpcEvent::ExtensionUiRequest(
                    ExtensionUiRequest::FireAndForget(
                        ExtensionFireAndForget::SetTitle { title: plain },
                    ),
                ),
                store,
                now_ms,
                now_unix_ms,
                None,
            );
            let ui = step.controller.extension_ui;
            &&& step.store == store
            &&& step.result is Err ==> step.controller == c
            &&& step.result is Ok ==> {
                &&& step.result->Ok_0 is ExtensionUiStateChanged
                &&& ui.title == Some(plain@)
                &&& ui.statuses == c.extension_ui.statuses && ui.widgets == c.extension_ui.widgets
            }
        }),
        c.event_applied(
            RpcEvent::ExtensionUiRequest(
                ExtensionUiRequest::FireAndForget(
                    ExtensionFireAndForget::Notify { message: plain, notify_type },
                ),
            ),
            store,
            now_ms,
            now_unix_ms,
            None,
        ) == (ControllerStep {
            controller: c,
            store,
            result: Ok::<RunRpcEffectView, ControllerErrorView>(
                RunRpcEffectView::ExtensionNotification { message: plain@, notify_type },
            ),
        }),
        c.event_applied(
            RpcEvent::ExtensionUiRequest(
                ExtensionUiRequest::FireAndForget(
                    ExtensionFireAndForget::SetEditorText { text: plain },
                ),
            ),
            store,
            now_ms,
            now_unix_ms,
            None,
        ) == (ControllerStep {
            controller: c,
            store,
            result: Ok::<RunRpcEffectView, ControllerErrorView>(
                RunRpcEffectView::SetEditorText { text: plain@ },
            ),
        }),
{
    reveal(ControllerView::event_applied);
    let widgets = c.extension_ui.widgets;
    match lines {
        Some(lines) => {
            let widget = crate::runtime::extension_ui::ExtensionWidgetView {
                lines: lines@,
                placement: crate::runtime::rpc_controller::widget_placement(placement),
            };
            assert(widgets.insert(key@, widget).remove(key@) =~= widgets.remove(key@));
        },
        None => {},
    }
}

/// What cannot be read is an error that changes nothing, and a request of an extension that
/// is not known is passed over.
pub proof fn unreadable_events_are_errors(
    c: ControllerView,
    payload: RpcEventPayloadError,
    request: ExtensionUiParseError,
    store: RuntimeStoreView,
    now_ms: u64,
    now_unix_ms: u64,
)
    ensures
        c.event_applied(RpcEvent::Malformed(payload), store, now_ms, now_unix_ms, None) == (
        ControllerStep {
            controller: c,
            store,
            result: Err::<RunRpcEffectView, ControllerErrorView>(
                ControllerErrorView::EventPayload(payload),
            ),
        }),
        c.event_applied(RpcEvent::MalformedExtensionUi(request), store, now_ms, now_unix_ms, None)
            == (ControllerStep {
            controller: c,
            store,
            result: Err::<RunRpcEffectView, ControllerErrorView>(
                ControllerErrorView::ExtensionUiParse(request),
            ),
        }),
        c.event_applied(
            RpcEvent::ExtensionUiRequest(ExtensionUiRequest::Unknown),
            store,
            now_ms,
            now_unix_ms,
            None,
        ) == (ControllerStep {
            controller: c,
            store,
            result: Ok::<RunRpcEffectView, ControllerErrorView>(
                RunRpcEffectView::ForwardCompatibleIgnored,
            ),
        }),
{
    reveal(ControllerView::event_applied);
}

} // verus!
