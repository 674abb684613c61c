//! Owner of one live run's request correlation and transient projection.
use vstd::prelude::*;
use vstd::string::*;

use crate::bounded::{bound_detail, bounded_detail, BoundedText, BoundedTextView};
use crate::events::{
    AssistantMessageBlockKind, AssistantMessageEnd, AssistantMessageUpdate, ExtensionDialogRequest,
    ExtensionDialogView, ExtensionFireAndForget, ExtensionNotifyType, ExtensionUiParseError,
    ExtensionUiRequest, ExtensionWidgetPlacement, RpcEvent, RpcEventPayloadError,
};
use crate::ids::{RequestId, RunId};
use crate::keyed::{strictly_ordered, text_before, KeyMap, OrderedKey};
use crate::limits::RuntimeLimits;
use crate::rpc::{
    counted, gate_refusal, ActiveRpcCommand, ClearQueueResult, ClearQueueView, PendingRequest,
    PendingRequestError, PendingRequestView, PendingRequests, PendingRequestsView, RpcCommand,
    RpcCommandGate, RpcCommandKind, RpcGateError, RpcRequest, RpcResponse, RpcResponseOutcome,
    RpcResponsePayload, RpcResponsePayloadError, RpcStateSnapshot, SessionEntriesPage,
    SessionEntriesPageView,
};
use crate::runtime::activity::{
    RunCompactionSnapshot, RunCompactionView, RunExtensionErrorSnapshot, RunExtensionErrorView,
    RunRetrySnapshot, RunRetryView, RunSummarizationRetrySnapshot, RunSummarizationRetryView,
};
use crate::runtime::capabilities::{RunCapabilities, RunCapabilitiesView};
use crate::runtime::controller_laws::{
    answering_keeps_coherence, beginning_keeps_coherence, cancelling_keeps_coherence, coherent,
    ended_controller_holds_nothing, fresh_controller_is_coherent, lemma_answers_keep_coherence,
    lemma_event_coherence, lemma_same_owners, responding_keeps_coherence,
};
use crate::runtime::extension_ui::{
    ExtensionUiError, ExtensionUiSnapshot, ExtensionUiState, ExtensionUiView, ExtensionWidget,
    ExtensionWidgetView, WidgetPlacement,
};
use crate::runtime::hydration::{PendingExtensionDialogSnapshot, RunRpcHydrationSnapshot};
use crate::runtime::projection::{
    message_blocks, reconciled, AssistantContentKind, LiveProjection, LiveProjectionSnapshot,
    LiveProjectionView, ProjectionError, ToolPreview, ToolPreviewView,
};
use crate::runtime::session_sync::{
    cursor_refusal, SessionSyncApplied, SessionSyncError, SessionSyncErrorView, SessionSyncState,
    SessionSyncView,
};
use crate::runtime::state::{
    QueueState, RunModelState, RunMutation, RunStateObservation, RuntimeError, RuntimeStore,
    RuntimeStoreView,
};
use crate::text::{
    copy_optional, optional_view, sat_add_u64, sat_add_usize, sat_sub_usize, texts_view,
};

verus! {

/// A question of an extension that is open.
#[derive(Debug)]
pub struct PendingExtensionDialog {
    pub request: ExtensionDialogRequest,
    /// When Pi gives up on it, in milliseconds of the runtime's clock.
    pub expires_at_ms: Option<u64>,
}

/// Model of a [`PendingExtensionDialog`].
pub struct PendingDialogView {
    pub request: ExtensionDialogView,
    pub expires_at_ms: Option<u64>,
}

impl View for PendingExtensionDialog {
    type V = PendingDialogView;

    open spec fn view(&self) -> PendingDialogView {
        PendingDialogView { request: self.request@, expires_at_ms: self.expires_at_ms }
    }
}

#[derive(Debug)]
struct PendingSessionSyncRequest {
    request_id: RequestId,
    since: Option<String>,
}

/// A request for session entries that waits for its page.
pub struct SyncRequestView {
    pub request_id: RequestId,
    pub since: Option<String>,
}

/// How a request for session entries ended.
#[derive(Debug, PartialEq, Eq)]
pub enum SessionSyncCompletion {
    Page { page: SessionEntriesPage, applied: SessionSyncApplied },
    ResyncRequired { revision: u64, error: Option<String> },
    Rejected { error: Option<String> },
}

/// Model of a [`SessionSyncCompletion`].
pub enum SessionSyncCompletionView {
    Page { page: SessionEntriesPageView, applied: SessionSyncApplied },
    ResyncRequired { revision: u64, error: Option<Seq<char>> },
    Rejected { error: Option<Seq<char>> },
}

impl View for SessionSyncCompletion {
    type V = SessionSyncCompletionView;

    open spec fn view(&self) -> SessionSyncCompletionView {
        match self {
            SessionSyncCompletion::Page { page, applied } => SessionSyncCompletionView::Page {
                page: page@,
                applied: *applied,
            },
            SessionSyncCompletion::ResyncRequired { revision, error } =>
                SessionSyncCompletionView::ResyncRequired {
                revision: *revision,
                error: optional_view(*error),
            },
            SessionSyncCompletion::Rejected { error } => SessionSyncCompletionView::Rejected {
                error: optional_view(*error),
            },
        }
    }
}

/// A request that was answered.
#[derive(Debug)]
pub struct CompletedRpcRequest {
    pub pending: PendingRequest,
    pub active: ActiveRpcCommand,
    pub outcome: RpcResponseOutcome,
    pub direct_bash_preview: Option<BoundedText>,
    pub capabilities_changed: bool,
    pub session_sync: Option<SessionSyncCompletion>,
}

/// Model of a [`CompletedRpcRequest`].
pub struct CompletedRpcView {
    pub pending: PendingRequestView,
    pub active: ActiveRpcCommand,
    pub outcome: RpcResponseOutcome,
    pub direct_bash_preview: Option<BoundedTextView>,
    pub capabilities_changed: bool,
    pub session_sync: Option<SessionSyncCompletionView>,
}

impl View for CompletedRpcRequest {
    type V = CompletedRpcView;

    open spec fn view(&self) -> CompletedRpcView {
        CompletedRpcView {
            pending: self.pending@,
            active: self.active,
            outcome: self.outcome,
            direct_bash_preview: preview_option(self.direct_bash_preview),
            capabilities_changed: self.capabilities_changed,
            session_sync: match self.session_sync {
                Some(completion) => Some(completion@),
                None => None,
            },
        }
    }
}

pub open spec fn preview_option(preview: Option<BoundedText>) -> Option<BoundedTextView> {
    match preview {
        Some(text) => Some(text@),
        None => None,
    }
}

/// What a cancelled request had held.
#[derive(Debug)]
pub struct CancelledRpcRequest {
    pub pending: Option<PendingRequest>,
    pub active: Option<ActiveRpcCommand>,
    pub direct_bash_preview: Option<BoundedText>,
    pub session_sync_cancelled: bool,
}

/// What an event changed, for those that watch.
#[derive(Debug)]
pub enum RunRpcEffect {
    Nothing,
    AssistantMessageReset,
    AssistantBlockUpdated { content_index: usize },
    ToolUpdated { tool_call_id: String },
    DirectBashUpdated { request_id: RequestId },
    SemanticStateChanged,
    ForwardCompatibleIgnored,
    ToolFinished {
        tool_call_id: String,
        tool_name: String,
        preview: ToolPreview,
        is_error: bool,
    },
    ExtensionDialogRequested(ExtensionDialogRequest),
    ExtensionNotification { message: String, notify_type: ExtensionNotifyType },
    ExtensionUiStateChanged,
    SetEditorText { text: String },
}

/// Model of a [`RunRpcEffect`].
pub enum RunRpcEffectView {
    Nothing,
    AssistantMessageReset,
    AssistantBlockUpdated { content_index: usize },
    ToolUpdated { tool_call_id: Seq<char> },
    DirectBashUpdated { request_id: Seq<char> },
    SemanticStateChanged,
    ForwardCompatibleIgnored,
    ToolFinished {
        tool_call_id: Seq<char>,
        tool_name: Seq<char>,
        preview: ToolPreviewView,
        is_error: bool,
    },
    ExtensionDialogRequested(ExtensionDialogView),
    ExtensionNotification { message: Seq<char>, notify_type: ExtensionNotifyType },
    ExtensionUiStateChanged,
    SetEditorText { text: Seq<char> },
}

impl View for RunRpcEffect {
    type V = RunRpcEffectView;

    open spec fn view(&self) -> RunRpcEffectView {
        match self {
            RunRpcEffect::Nothing => RunRpcEffectView::Nothing,
            RunRpcEffect::AssistantMessageReset => RunRpcEffectView::AssistantMessageReset,
            RunRpcEffect::AssistantBlockUpdated { content_index } =>
                RunRpcEffectView::AssistantBlockUpdated { content_index: *content_index },
            RunRpcEffect::ToolUpdated { tool_call_id } => RunRpcEffectView::ToolUpdated {
                tool_call_id: tool_call_id@,
            },
            RunRpcEffect::DirectBashUpdated { request_id } => RunRpcEffectView::DirectBashUpdated {
                request_id: request_id@,
            },
            RunRpcEffect::SemanticStateChanged => RunRpcEffectView::SemanticStateChanged,
            RunRpcEffect::ForwardCompatibleIgnored => RunRpcEffectView::ForwardCompatibleIgnored,
            RunRpcEffect::ToolFinished { tool_call_id, tool_name, preview, is_error } =>
                RunRpcEffectView::ToolFinished {
                tool_call_id: tool_call_id@,
                tool_name: tool_name@,
                preview: preview@,
                is_error: *is_error,
            },
            RunRpcEffect::ExtensionDialogRequested(request) =>
                RunRpcEffectView::ExtensionDialogRequested(request@),
            RunRpcEffect::ExtensionNotification { message, notify_type } =>
                RunRpcEffectView::ExtensionNotification {
                message: message@,
                notify_type: *notify_type,
            },
            RunRpcEffect::ExtensionUiStateChanged => RunRpcEffectView::ExtensionUiStateChanged,
            RunRpcEffect::SetEditorText { text } => RunRpcEffectView::SetEditorText { text: text@ },
        }
    }
}

#[allow(inconsistent_fields)]
#[derive(Debug, PartialEq, Eq)]
pub enum RunRpcControllerError {
    Gate(RpcGateError),
    Pending(PendingRequestError),
    Projection(ProjectionError),
    EventPayload(RpcEventPayloadError),
    ResponsePayload(RpcResponsePayloadError),
    Runtime(RuntimeError),
    MissingGateEntry { request_id: RequestId },
    MissingBashRequestId,
    ExtensionUiParse(ExtensionUiParseError),
    ExtensionUiState(ExtensionUiError),
    SessionSync(SessionSyncError),
    ExtensionDialogByteLimit { attempted: usize, limit: usize },
    UnknownExtensionDialog { request_id: String },
    SessionSyncInFlight { request_id: RequestId },
    MissingSessionSyncRequest { request_id: RequestId },
    SessionSyncResponseMismatch { expected: RequestId, actual: RequestId },
}

/// Model of a [`RunRpcControllerError`].
pub enum ControllerErrorView {
    Gate(RpcGateError),
    Pending(PendingRequestError),
    Projection(ProjectionError),
    /// A direct bash request without a preview.
    UnansweredBash { request_id: Seq<char> },
    EventPayload(RpcEventPayloadError),
    ResponsePayload(RpcResponsePayloadError),
    Runtime(RuntimeError),
    MissingGateEntry { request_id: Seq<char> },
    MissingBashRequestId,
    ExtensionUiParse(ExtensionUiParseError),
    ExtensionUiState(ExtensionUiError),
    SessionSync(SessionSyncErrorView),
    ExtensionDialogByteLimit { attempted: usize, limit: usize },
    UnknownExtensionDialog { request_id: Seq<char> },
    SessionSyncInFlight { request_id: Seq<char> },
    MissingSessionSyncRequest { request_id: Seq<char> },
    SessionSyncResponseMismatch { expected: Seq<char>, actual: Seq<char> },
}

impl View for RunRpcControllerError {
    type V = ControllerErrorView;

    open spec fn view(&self) -> ControllerErrorView {
        match self {
            RunRpcControllerError::Gate(error) => ControllerErrorView::Gate(*error),
            RunRpcControllerError::Pending(error) => ControllerErrorView::Pending(*error),
            RunRpcControllerError::Projection(error) => projection_refused(*error),
            RunRpcControllerError::EventPayload(error) => ControllerErrorView::EventPayload(*error),
            RunRpcControllerError::ResponsePayload(error) =>
                ControllerErrorView::ResponsePayload(*error),
            RunRpcControllerError::Runtime(error) => ControllerErrorView::Runtime(*error),
            RunRpcControllerError::MissingGateEntry { request_id } =>
                ControllerErrorView::MissingGateEntry { request_id: request_id@ },
            RunRpcControllerError::MissingBashRequestId =>
                ControllerErrorView::MissingBashRequestId,
            RunRpcControllerError::ExtensionUiParse(error) =>
                ControllerErrorView::ExtensionUiParse(*error),
            RunRpcControllerError::ExtensionUiState(error) =>
                ControllerErrorView::ExtensionUiState(*error),
            RunRpcControllerError::SessionSync(error) => ControllerErrorView::SessionSync(error@),
            RunRpcControllerError::ExtensionDialogByteLimit { attempted, limit } =>
                ControllerErrorView::ExtensionDialogByteLimit {
                attempted: *attempted,
                limit: *limit,
            },
            RunRpcControllerError::UnknownExtensionDialog { request_id } =>
                ControllerErrorView::UnknownExtensionDialog { request_id: request_id@ },
            RunRpcControllerError::SessionSyncInFlight { request_id } =>
                ControllerErrorView::SessionSyncInFlight { request_id: request_id@ },
            RunRpcControllerError::MissingSessionSyncRequest { request_id } =>
                ControllerErrorView::MissingSessionSyncRequest { request_id: request_id@ },
            RunRpcControllerError::SessionSyncResponseMismatch { expected, actual } =>
                ControllerErrorView::SessionSyncResponseMismatch {
                expected: expected@,
                actual: actual@,
            },
        }
    }
}

/// A refusal of the projection. A bash request is named by its characters.
pub open spec fn projection_refused(error: ProjectionError) -> ControllerErrorView {
    match error {
        ProjectionError::UnknownDirectBash { request_id } => ControllerErrorView::UnansweredBash {
            request_id: request_id@,
        },
        _ => ControllerErrorView::Projection(error),
    }
}

/// Model of a [`RunRpcController`].
pub struct ControllerView {
    pub run_id: RunId,
    pub pending: PendingRequestsView,
    pub gate: Map<Seq<char>, ActiveRpcCommand>,
    pub live: LiveProjectionView,
    pub capabilities: RunCapabilitiesView,
    pub extension_ui: ExtensionUiView,
    pub pending_dialogs: Map<Seq<char>, PendingDialogView>,
    pub pending_dialog_bytes: usize,
    pub session_sync: SessionSyncView,
    pub session_sync_request: Option<SyncRequestView>,
    pub compaction: Option<RunCompactionView>,
    pub retry: Option<RunRetryView>,
    pub summarization_retry: Option<RunSummarizationRetryView>,
    pub last_extension_error: Option<RunExtensionErrorView>,
    pub stream_stalled: bool,
    pub observed_queue_recovery: ClearQueueView,
    pub limits: RuntimeLimits,
}

/// A controller and the runs it acts on, after one step, with what the step
/// reports.
pub struct ControllerStep<T> {
    pub controller: ControllerView,
    pub store: RuntimeStoreView,
    pub result: Result<T, ControllerErrorView>,
}

/// The bounded form of an optional text, and whether it was cut.
pub open spec fn bounded_option(value: Option<String>, max: nat) -> (Option<Seq<char>>, bool) {
    match value {
        Some(text) => (Some(bounded_detail(text@, max).0), bounded_detail(text@, max).1),
        None => (None, false),
    }
}

pub open spec fn content_kind(kind: AssistantMessageBlockKind) -> AssistantContentKind {
    match kind {
        AssistantMessageBlockKind::Text => AssistantContentKind::Text,
        AssistantMessageBlockKind::Thinking => AssistantContentKind::Thinking,
        AssistantMessageBlockKind::ToolCall => AssistantContentKind::ToolCall,
    }
}

/// The blocks of a completed message as the projection takes them.
pub open spec fn completed_blocks(
    blocks: Seq<(usize, AssistantMessageBlockKind, String)>,
) -> Seq<(usize, AssistantContentKind, Seq<char>)> {
    blocks.map_values(
        |block: (usize, AssistantMessageBlockKind, String)|
            (block.0, content_kind(block.1), block.2@),
    )
}

pub open spec fn observation_of(snapshot: RpcStateSnapshot) -> RunStateObservation {
    RunStateObservation {
        model: match snapshot.model {
            Some(model) => Some(
                RunModelState {
                    provider: model.provider,
                    id: model.id,
                    name: model.name,
                    supports_images: model.supports_images,
                },
            ),
            None => None,
        },
        thinking_level: snapshot.thinking_level,
        is_streaming: snapshot.is_streaming,
        is_compacting: snapshot.is_compacting,
        steering_mode: snapshot.steering_mode,
        follow_up_mode: snapshot.follow_up_mode,
        session_file: snapshot.session_file,
        session_id: snapshot.session_id,
        session_name: snapshot.session_name,
        auto_compaction_enabled: snapshot.auto_compaction_enabled,
        message_count: snapshot.message_count,
        pending_message_count: snapshot.pending_message_count,
    }
}

pub open spec fn widget_placement(placement: ExtensionWidgetPlacement) -> WidgetPlacement {
    match placement {
        ExtensionWidgetPlacement::AboveEditor => WidgetPlacement::AboveEditor,
        ExtensionWidgetPlacement::BelowEditor => WidgetPlacement::BelowEditor,
    }
}

impl ControllerView {
    pub open spec fn fresh(run_id: RunId, limits: RuntimeLimits) -> Self {
        ControllerView {
            run_id,
            pending: PendingRequestsView::empty(limits),
            gate: Map::empty(),
            live: LiveProjectionView::empty(limits),
            capabilities: RunCapabilitiesView::unknown(),
            extension_ui: ExtensionUiView::empty(limits),
            pending_dialogs: Map::empty(),
            pending_dialog_bytes: 0,
            session_sync: SessionSyncView::unknown(),
            session_sync_request: None,
            compaction: None,
            retry: None,
            summarization_retry: None,
            last_extension_error: None,
            stream_stalled: false,
            observed_queue_recovery: ClearQueueView::empty(),
            limits,
        }
    }

    /// Everything that a dead process can no longer answer for is gone.
    pub open spec fn ended(self) -> Self {
        ControllerView {
            capabilities: self.capabilities,
            extension_ui: self.extension_ui,
            session_sync: self.session_sync,
            last_extension_error: self.last_extension_error,
            ..Self::fresh(self.run_id, self.limits)
        }
    }

    pub open spec fn max_detail(self) -> nat {
        self.limits.max_failure_detail_bytes as nat
    }

    /// A step that ends with one mutation of the run: refused, it leaves the run
    /// as it was.
    pub open spec fn mutate(
        self,
        store: RuntimeStoreView,
        mutation: RunMutation,
        now_unix_ms: u64,
    ) -> ControllerStep<RunRpcEffectView> {
        match store.refusal(self.run_id, mutation) {
            Some(error) => ControllerStep {
                controller: self,
                store,
                result: Err(ControllerErrorView::Runtime(error)),
            },
            None => ControllerStep {
                controller: self,
                store: store.applied(self.run_id, mutation, now_unix_ms),
                result: Ok(RunRpcEffectView::SemanticStateChanged),
            },
        }
    }

    pub open spec fn unchanged(
        self,
        store: RuntimeStoreView,
        result: Result<RunRpcEffectView, ControllerErrorView>,
    ) -> ControllerStep<RunRpcEffectView> {
        ControllerStep { controller: self, store, result }
    }

    /// Why `request` cannot be registered, if it cannot.
    pub open spec fn request_refusal(self, request: RpcRequest) -> Option<ControllerErrorView> {
        let sync_refusal = match request.command {
            RpcCommand::GetEntries { since } => match self.session_sync.request_refusal(
                optional_view(since),
                self.limits,
            ) {
                Some(error) => Some(ControllerErrorView::SessionSync(error)),
                None => match self.session_sync_request {
                    Some(active) => Some(
                        ControllerErrorView::SessionSyncInFlight { request_id: active.request_id@ },
                    ),
                    None => None,
                },
            },
            _ => None,
        };
        match sync_refusal {
            Some(error) => Some(error),
            None => match gate_refusal(self.gate, request) {
                Some(error) => Some(ControllerErrorView::Gate(error)),
                None => match self.pending.refusal(request) {
                    Some(error) => Some(ControllerErrorView::Pending(error)),
                    None => if request.command is Bash {
                        match self.live.bash_refusal(request.id) {
                            Some(error) => Some(projection_refused(error)),
                            None => None,
                        }
                    } else {
                        None
                    },
                },
            },
        }
    }

    /// With everything that a request holds until it is answered.
    pub open spec fn with_request(self, request: RpcRequest, expires_at_ms: Option<u64>) -> Self {
        ControllerView {
            gate: self.gate.insert(request.id@, ActiveRpcCommand::of(request.command)),
            pending: self.pending.registered(request, expires_at_ms),
            live: if request.command is Bash {
                self.live.with_bash(request.id@)
            } else {
                self.live
            },
            session_sync_request: match request.command {
                RpcCommand::GetEntries { since } => Some(
                    SyncRequestView { request_id: request.id, since },
                ),
                _ => self.session_sync_request,
            },
            ..self
        }
    }

    /// Whether the request for session entries in flight is this one.
    pub open spec fn syncs_under(self, id: Seq<char>) -> bool {
        self.session_sync_request is Some && self.session_sync_request->0.request_id@ == id
    }

    /// Without anything that request `id` held.
    pub open spec fn without_request(self, id: Seq<char>) -> Self {
        ControllerView {
            pending: self.pending.without(id),
            gate: self.gate.remove(id),
            live: self.live.without_bash(id),
            session_sync_request: if self.syncs_under(id) {
                None
            } else {
                self.session_sync_request
            },
            ..self
        }
    }

    pub open spec fn on_agent_start(
        self,
        store: RuntimeStoreView,
        now_unix_ms: u64,
    ) -> ControllerStep<RunRpcEffectView> {
        ControllerView {
            live: self.live.new_turn(),
            compaction: if self.compaction is Some && self.compaction->0.finished
                && self.compaction->0.will_retry {
                None
            } else {
                self.compaction
            },
            retry: match self.retry {
                Some(retry) => if retry.finished {
                    None
                } else {
                    Some(RunRetryView { waiting: false, ..retry })
                },
                None => None,
            },
            ..self
        }.mutate(store, RunMutation::AgentStarted, now_unix_ms)
    }

    /// Settling also invalidates the review of changes where a tool never
    /// finished.
    pub open spec fn on_agent_settled(
        self,
        store: RuntimeStoreView,
        now_unix_ms: u64,
    ) -> ControllerStep<RunRpcEffectView> {
        let step = self.mutate(store, RunMutation::AgentSettled, now_unix_ms);
        if step.result is Err {
            step
        } else {
            let settled = ControllerView { live: self.live.without_tools(), ..self };
            if self.live.tools.dom().len() > 0 {
                settled.mutate(step.store, RunMutation::ChangesMayHaveChanged, now_unix_ms)
            } else {
                ControllerStep { controller: settled, ..step }
            }
        }
    }

    pub open spec fn on_compaction_start(
        self,
        reason: Seq<char>,
        store: RuntimeStoreView,
        now_unix_ms: u64,
    ) -> ControllerStep<RunRpcEffectView> {
        let (reason, reason_truncated) = bounded_detail(reason, self.max_detail());
        ControllerView {
            compaction: Some(
                RunCompactionView {
                    reason,
                    reason_truncated,
                    finished: false,
                    aborted: false,
                    will_retry: false,
                    error_message: None,
                    error_truncated: false,
                },
            ),
            ..self
        }.mutate(store, RunMutation::CompactionStarted, now_unix_ms)
    }

    pub open spec fn on_compaction_end(
        self,
        reason: Seq<char>,
        aborted: bool,
        will_retry: bool,
        error_message: Option<String>,
        store: RuntimeStoreView,
        now_unix_ms: u64,
    ) -> ControllerStep<RunRpcEffectView> {
        let (reason, reason_truncated) = bounded_detail(reason, self.max_detail());
        let (error_message, error_truncated) = bounded_option(error_message, self.max_detail());
        ControllerView {
            compaction: Some(
                RunCompactionView {
                    reason,
                    reason_truncated,
                    finished: true,
                    aborted,
                    will_retry,
                    error_message,
                    error_truncated,
                },
            ),
            ..self
        }.mutate(store, RunMutation::CompactionEnded, now_unix_ms)
    }

    pub open spec fn on_auto_retry_start(
        self,
        attempt: usize,
        max_attempts: usize,
        delay_ms: u64,
        error_message: Seq<char>,
        store: RuntimeStoreView,
        now_unix_ms: u64,
    ) -> ControllerStep<RunRpcEffectView> {
        let (error_message, error_truncated) = bounded_detail(error_message, self.max_detail());
        ControllerView {
            retry: Some(
                RunRetryView {
                    attempt,
                    max_attempts,
                    delay_ms,
                    error_message,
                    error_truncated,
                    waiting: true,
                    finished: false,
                    success: None,
                    final_error: None,
                    final_error_truncated: false,
                },
            ),
            ..self
        }.mutate(store, RunMutation::AutoRetryStarted, now_unix_ms)
    }

    pub open spec fn on_auto_retry_end(
        self,
        attempt: usize,
        success: bool,
        final_error: Option<String>,
        store: RuntimeStoreView,
        now_unix_ms: u64,
    ) -> ControllerStep<RunRpcEffectView> {
        let (final_error, final_error_truncated) = bounded_option(final_error, self.max_detail());
        let known = match self.retry {
            Some(retry) => retry,
            None => RunRetryView {
                attempt,
                max_attempts: attempt,
                delay_ms: 0,
                error_message: Seq::empty(),
                error_truncated: false,
                waiting: false,
                finished: false,
                success: None,
                final_error: None,
                final_error_truncated: false,
            },
        };
        ControllerView {
            retry: Some(
                RunRetryView {
                    attempt,
                    waiting: false,
                    finished: true,
                    success: Some(success),
                    final_error,
                    final_error_truncated,
                    ..known
                },
            ),
            ..self
        }.mutate(store, RunMutation::AutoRetryEnded, now_unix_ms)
    }

    pub open spec fn on_summarization_scheduled(
        self,
        attempt: usize,
        max_attempts: usize,
        delay_ms: u64,
        error_message: Seq<char>,
        store: RuntimeStoreView,
        now_unix_ms: u64,
    ) -> ControllerStep<RunRpcEffectView> {
        let (error_message, error_truncated) = bounded_detail(error_message, self.max_detail());
        ControllerView {
            summarization_retry: Some(
                RunSummarizationRetryView {
                    attempt,
                    max_attempts,
                    delay_ms,
                    error_message,
                    error_truncated,
                    source: None,
                    reason: None,
                    finished: false,
                },
            ),
            ..self
        }.mutate(store, RunMutation::SummarizationRetryStarted, now_unix_ms)
    }

    pub open spec fn on_summarization_attempt(
        self,
        source: Seq<char>,
        reason: Option<String>,
        store: RuntimeStoreView,
        now_unix_ms: u64,
    ) -> ControllerStep<RunRpcEffectView> {
        let (source, source_truncated) = bounded_detail(source, self.max_detail());
        let (reason, reason_truncated) = bounded_option(reason, self.max_detail());
        let known = match self.summarization_retry {
            Some(retry) => retry,
            None => RunSummarizationRetryView {
                attempt: 0,
                max_attempts: 0,
                delay_ms: 0,
                error_message: Seq::empty(),
                error_truncated: false,
                source: None,
                reason: None,
                finished: false,
            },
        };
        ControllerView {
            summarization_retry: Some(
                RunSummarizationRetryView {
                    source: Some(source),
                    reason,
                    error_truncated: known.error_truncated || source_truncated || reason_truncated,
                    finished: false,
                    ..known
                },
            ),
            ..self
        }.mutate(store, RunMutation::SummarizationRetryStarted, now_unix_ms)
    }

    pub open spec fn on_summarization_finished(
        self,
        store: RuntimeStoreView,
        now_unix_ms: u64,
    ) -> ControllerStep<RunRpcEffectView> {
        ControllerView {
            summarization_retry: match self.summarization_retry {
                Some(retry) => Some(RunSummarizationRetryView { finished: true, ..retry }),
                None => None,
            },
            ..self
        }.mutate(store, RunMutation::SummarizationRetryEnded, now_unix_ms)
    }

    pub open spec fn on_extension_error(
        self,
        extension_path: Seq<char>,
        event: Seq<char>,
        error: Seq<char>,
    ) -> Self {
        let (extension_path, path_truncated) = bounded_detail(extension_path, self.max_detail());
        let (event, event_truncated) = bounded_detail(event, self.max_detail());
        let (error, error_truncated) = bounded_detail(error, self.max_detail());
        ControllerView {
            last_extension_error: Some(
                RunExtensionErrorView {
                    extension_path,
                    event,
                    error,
                    detail_truncated: path_truncated || event_truncated || error_truncated,
                },
            ),
            ..self
        }
    }

    /// The queue is taken over only once the run has accepted its counts.
    pub open spec fn on_queue_update(
        self,
        queue: ClearQueueView,
        store: RuntimeStoreView,
        now_unix_ms: u64,
    ) -> ControllerStep<RunRpcEffectView> {
        let bytes = counted(queue.bytes());
        if bytes > self.limits.max_recovered_queue_bytes_per_run {
            self.unchanged(
                store,
                Err(
                    ControllerErrorView::EventPayload(
                        RpcEventPayloadError::QueueByteLimit {
                            attempted: bytes,
                            limit: self.limits.max_recovered_queue_bytes_per_run,
                        },
                    ),
                ),
            )
        } else {
            let counts = QueueState {
                steering: queue.steering.len() as usize,
                follow_up: queue.follow_up.len() as usize,
            };
            let step = self.mutate(store, RunMutation::QueueChanged(counts), now_unix_ms);
            if step.result is Err {
                step
            } else {
                ControllerStep {
                    controller: ControllerView { observed_queue_recovery: queue, ..self },
                    ..step
                }
            }
        }
    }

    pub open spec fn on_session_info(
        self,
        name: Option<String>,
        store: RuntimeStoreView,
        now_unix_ms: u64,
    ) -> ControllerStep<RunRpcEffectView> {
        if !store.runs.contains_key(self.run_id) {
            self.unchanged(
                store,
                Err(ControllerErrorView::Runtime(RuntimeError::UnknownRun { run_id: self.run_id })),
            )
        } else {
            let retained = counted(
                store.runs[self.run_id].retained_bytes(optional_view(name)),
            );
            if retained > self.limits.max_runtime_state_bytes_per_run {
                self.unchanged(
                    store,
                    Err(
                        ControllerErrorView::ResponsePayload(
                            RpcResponsePayloadError::RuntimeStateByteLimit {
                                attempted: retained,
                                limit: self.limits.max_runtime_state_bytes_per_run,
                            },
                        ),
                    ),
                )
            } else {
                self.mutate(store, RunMutation::SessionNameChanged(name), now_unix_ms)
            }
        }
    }

    pub open spec fn with_live(self, live: LiveProjectionView) -> Self {
        ControllerView { live, ..self }
    }

    pub open spec fn on_message_update(
        self,
        update: AssistantMessageUpdate,
        store: RuntimeStoreView,
    ) -> ControllerStep<RunRpcEffectView> {
        match update {
            AssistantMessageUpdate::Start { content_index, kind } => match self.live.block_refusal(
                content_index,
            ) {
                Some(error) => self.unchanged(store, Err(projection_refused(error))),
                None => self.with_live(
                    self.live.with_empty_block(content_index, content_kind(kind)),
                ).unchanged(store, Ok(RunRpcEffectView::AssistantBlockUpdated { content_index })),
            },
            AssistantMessageUpdate::Delta { content_index, kind, delta } => match
                self.live.edit_refusal(content_index, content_kind(kind)) {
                Some(error) => self.unchanged(store, Err(projection_refused(error))),
                None => self.with_live(
                    self.live.with_edited(
                        content_index,
                        self.live.block(content_index).content.appended(delta@),
                        self.live.block(content_index).complete,
                    ),
                ).unchanged(store, Ok(RunRpcEffectView::AssistantBlockUpdated { content_index })),
            },
            AssistantMessageUpdate::End { content_index, kind, content } => match
                self.live.edit_refusal(content_index, content_kind(kind)) {
                Some(error) => self.unchanged(store, Err(projection_refused(error))),
                None => self.with_live(
                    self.live.with_edited(
                        content_index,
                        match content {
                            Some(text) => self.live.block(content_index).content.replaced(text@),
                            None => self.live.block(content_index).content,
                        },
                        true,
                    ),
                ).unchanged(store, Ok(RunRpcEffectView::AssistantBlockUpdated { content_index })),
            },
            AssistantMessageUpdate::Unknown => self.unchanged(
                store,
                Ok(RunRpcEffectView::ForwardCompatibleIgnored),
            ),
        }
    }

    pub open spec fn on_message_end(
        self,
        message: AssistantMessageEnd,
        store: RuntimeStoreView,
        now_unix_ms: u64,
        error_message: Option<String>,
    ) -> ControllerStep<RunRpcEffectView> {
        match reconciled(
            completed_blocks(message.blocks@),
            self.live.max_assistant_bytes,
            self.live.max_assistant_blocks,
        ) {
            Err(error) => self.unchanged(store, Err(projection_refused(error))),
            Ok(blocks) => self.with_live(self.live.with_message(blocks)).mutate(
                store,
                RunMutation::AssistantMessageCompleted {
                    stop_reason: message.stop_reason,
                    error_message,
                },
                now_unix_ms,
            ),
        }
    }

    pub open spec fn on_tool_start(
        self,
        tool_call_id: String,
        tool_name: Seq<char>,
        store: RuntimeStoreView,
    ) -> ControllerStep<RunRpcEffectView> {
        match self.live.tool_refusal(tool_call_id) {
            Some(error) => self.unchanged(store, Err(projection_refused(error))),
            None => self.with_live(self.live.with_tool(tool_call_id@, tool_name)).unchanged(
                store,
                Ok(RunRpcEffectView::ToolUpdated { tool_call_id: tool_call_id@ }),
            ),
        }
    }

    pub open spec fn on_tool_update(
        self,
        tool_call_id: String,
        text: Seq<char>,
        store: RuntimeStoreView,
    ) -> ControllerStep<RunRpcEffectView> {
        if !self.live.tools.contains_key(tool_call_id@) {
            self.unchanged(
                store,
                Err(projection_refused(ProjectionError::UnknownTool { tool_call_id })),
            )
        } else {
            self.with_live(self.live.with_tool_output(tool_call_id@, text)).unchanged(
                store,
                Ok(RunRpcEffectView::ToolUpdated { tool_call_id: tool_call_id@ }),
            )
        }
    }

    /// Any finished tool invalidates the review of changes: which tools change
    /// files is not known here.
    pub open spec fn on_tool_end(
        self,
        tool_call_id: String,
        tool_name: Seq<char>,
        text: Seq<char>,
        is_error: bool,
        store: RuntimeStoreView,
        now_unix_ms: u64,
    ) -> ControllerStep<RunRpcEffectView> {
        if !self.live.tools.contains_key(tool_call_id@) {
            self.unchanged(
                store,
                Err(projection_refused(ProjectionError::UnknownTool { tool_call_id })),
            )
        } else {
            let preview = self.live.with_tool_output(tool_call_id@, text).tools[tool_call_id@];
            let step = self.with_live(self.live.without_tool(tool_call_id@)).mutate(
                store,
                RunMutation::ChangesMayHaveChanged,
                now_unix_ms,
            );
            if step.result is Err {
                step
            } else {
                ControllerStep {
                    result: Ok(
                        RunRpcEffectView::ToolFinished {
                            tool_call_id: tool_call_id@,
                            tool_name,
                            preview,
                            is_error,
                        },
                    ),
                    ..step
                }
            }
        }
    }

    pub open spec fn on_bash_update(
        self,
        request_id: Option<RequestId>,
        delta: Seq<char>,
        store: RuntimeStoreView,
    ) -> ControllerStep<RunRpcEffectView> {
        match request_id {
            None => self.unchanged(store, Err(ControllerErrorView::MissingBashRequestId)),
            Some(id) => if !self.live.direct_bash.contains_key(id@) {
                self.unchanged(
                    store,
                    Err(ControllerErrorView::UnansweredBash { request_id: id@ }),
                )
            } else {
                self.with_live(self.live.with_bash_delta(id@, delta)).unchanged(
                    store,
                    Ok(RunRpcEffectView::DirectBashUpdated { request_id: id@ }),
                )
            },
        }
    }

    /// Opens a question, within the bytes and the number that a run may have open.
    pub open spec fn on_dialog(
        self,
        request: ExtensionDialogRequest,
        store: RuntimeStoreView,
        now_ms: u64,
        now_unix_ms: u64,
    ) -> ControllerStep<RunRpcEffectView> {
        let attempted = sat_add_usize(self.pending_dialog_bytes, counted(request@.bytes()));
        if attempted > self.limits.max_extension_ui_bytes_per_run {
            self.unchanged(
                store,
                Err(
                    ControllerErrorView::ExtensionDialogByteLimit {
                        attempted,
                        limit: self.limits.max_extension_ui_bytes_per_run,
                    },
                ),
            )
        } else {
            let step = self.mutate(
                store,
                RunMutation::UiRequestOpened { request_id: request.id },
                now_unix_ms,
            );
            if step.result is Err {
                step
            } else {
                ControllerStep {
                    controller: ControllerView {
                        pending_dialog_bytes: attempted,
                        pending_dialogs: self.pending_dialogs.insert(
                            request.id@,
                            PendingDialogView {
                                request: request@,
                                expires_at_ms: match request.timeout_ms {
                                    Some(timeout) => if now_ms + timeout <= u64::MAX {
                                        Some((now_ms + timeout) as u64)
                                    } else {
                                        None
                                    },
                                    None => None,
                                },
                            },
                        ),
                        ..self
                    },
                    result: Ok(RunRpcEffectView::ExtensionDialogRequested(request@)),
                    ..step
                }
            }
        }
    }

    pub open spec fn with_extension_ui(
        self,
        next: ExtensionUiView,
        store: RuntimeStoreView,
    ) -> ControllerStep<RunRpcEffectView> {
        match self.extension_ui.refusal(next) {
            Some(error) => self.unchanged(store, Err(ControllerErrorView::ExtensionUiState(error))),
            None => ControllerView { extension_ui: next, ..self }.unchanged(
                store,
                Ok(RunRpcEffectView::ExtensionUiStateChanged),
            ),
        }
    }

    pub open spec fn on_fire_and_forget(
        self,
        action: ExtensionFireAndForget,
        store: RuntimeStoreView,
    ) -> ControllerStep<RunRpcEffectView> {
        match action {
            ExtensionFireAndForget::Notify { message, notify_type } => self.unchanged(
                store,
                Ok(RunRpcEffectView::ExtensionNotification { message: message@, notify_type }),
            ),
            ExtensionFireAndForget::SetStatus { key, text } => self.with_extension_ui(
                self.extension_ui.with_status(key@, optional_view(text)),
                store,
            ),
            ExtensionFireAndForget::SetWidget { key, lines, placement } => self.with_extension_ui(
                self.extension_ui.with_widget(
                    key@,
                    match lines {
                        Some(lines) => Some(
                            ExtensionWidgetView {
                                lines: lines@,
                                placement: widget_placement(placement),
                            },
                        ),
                        None => None,
                    },
                ),
                store,
            ),
            ExtensionFireAndForget::SetTitle { title } => self.with_extension_ui(
                self.extension_ui.with_title(Some(title@)),
                store,
            ),
            ExtensionFireAndForget::SetEditorText { text } => self.unchanged(
                store,
                Ok(RunRpcEffectView::SetEditorText { text: text@ }),
            ),
        }
    }

    /// What an event does. `error_message` is the bounded error of a completed
    /// message.
    #[verifier::opaque]
    pub open spec fn event_applied(
        self,
        event: RpcEvent,
        store: RuntimeStoreView,
        now_ms: u64,
        now_unix_ms: u64,
        error_message: Option<String>,
    ) -> ControllerStep<RunRpcEffectView> {
        match event {
            RpcEvent::AgentStart => self.on_agent_start(store, now_unix_ms),
            RpcEvent::AgentSettled => self.on_agent_settled(store, now_unix_ms),
            RpcEvent::CompactionStart { reason } => self.on_compaction_start(
                reason@,
                store,
                now_unix_ms,
            ),
            RpcEvent::CompactionEnd { reason, aborted, will_retry, error_message } =>
                self.on_compaction_end(
                reason@,
                aborted,
                will_retry,
                error_message,
                store,
                now_unix_ms,
            ),
            RpcEvent::AutoRetryStart { attempt, max_attempts, delay_ms, error_message } =>
                self.on_auto_retry_start(
                attempt,
                max_attempts,
                delay_ms,
                error_message@,
                store,
                now_unix_ms,
            ),
            RpcEvent::AutoRetryEnd { attempt, success, final_error } => self.on_auto_retry_end(
                attempt,
                success,
                final_error,
                store,
                now_unix_ms,
            ),
            RpcEvent::SummarizationRetryScheduled {
                attempt,
                max_attempts,
                delay_ms,
                error_message,
            } => self.on_summarization_scheduled(
                attempt,
                max_attempts,
                delay_ms,
                error_message@,
                store,
                now_unix_ms,
            ),
            RpcEvent::SummarizationRetryAttemptStart { source, reason } =>
                self.on_summarization_attempt(source@, reason, store, now_unix_ms),
            RpcEvent::SummarizationRetryFinished => self.on_summarization_finished(
                store,
                now_unix_ms,
            ),
            RpcEvent::ExtensionError { extension_path, event, error } => self.on_extension_error(
                extension_path@,
                event@,
                error@,
            ).unchanged(store, Ok(RunRpcEffectView::SemanticStateChanged)),
            RpcEvent::QueueUpdate(queue) => self.on_queue_update(queue@, store, now_unix_ms),
            RpcEvent::SessionInfoChanged { name } => self.on_session_info(name, store, now_unix_ms),
            RpcEvent::ThinkingLevelChanged(level) => self.mutate(
                store,
                RunMutation::ThinkingLevelChanged(level),
                now_unix_ms,
            ),
            RpcEvent::MessageStart => self.with_live(self.live.new_message()).unchanged(
                store,
                Ok(RunRpcEffectView::AssistantMessageReset),
            ),
            RpcEvent::MessageUpdate(update) => self.on_message_update(update, store),
            RpcEvent::MessageEnd(message) => match message {
                None => self.unchanged(store, Ok(RunRpcEffectView::Nothing)),
                Some(message) => self.on_message_end(message, store, now_unix_ms, error_message),
            },
            RpcEvent::ToolExecutionStart { tool_call_id, tool_name } => self.on_tool_start(
                tool_call_id,
                tool_name@,
                store,
            ),
            RpcEvent::ToolExecutionUpdate { tool_call_id, accumulated_text } => self.on_tool_update(
                tool_call_id,
                accumulated_text@,
                store,
            ),
            RpcEvent::ToolExecutionEnd { tool_call_id, tool_name, final_text, is_error } =>
                self.on_tool_end(
                tool_call_id,
                tool_name@,
                final_text@,
                is_error,
                store,
                now_unix_ms,
            ),
            RpcEvent::BashExecutionUpdate { request_id, delta } => self.on_bash_update(
                request_id,
                delta@,
                store,
            ),
            RpcEvent::ExtensionUiRequest(request) => match request {
                ExtensionUiRequest::Dialog(request) => self.on_dialog(
                    request,
                    store,
                    now_ms,
                    now_unix_ms,
                ),
                ExtensionUiRequest::FireAndForget(action) => self.on_fire_and_forget(
                    action,
                    store,
                ),
                ExtensionUiRequest::Unknown => self.unchanged(
                    store,
                    Ok(RunRpcEffectView::ForwardCompatibleIgnored),
                ),
            },
            RpcEvent::Malformed(error) => self.unchanged(
                store,
                Err(ControllerErrorView::EventPayload(error)),
            ),
            RpcEvent::MalformedExtensionUi(error) => self.unchanged(
                store,
                Err(ControllerErrorView::ExtensionUiParse(error)),
            ),
            RpcEvent::Other => self.unchanged(store, Ok(RunRpcEffectView::Nothing)),
        }
    }

    /// The bounded error that a completed message carries into the run.
    pub open spec fn message_error(self, event: RpcEvent) -> Option<Seq<char>> {
        match event {
            RpcEvent::MessageEnd(Some(message)) => bounded_option(
                message.error_message,
                self.max_detail(),
            ).0,
            _ => None,
        }
    }

    /// What the response to a request for session entries does to the cursor.
    pub open spec fn sync_completed(
        self,
        request: SyncRequestView,
        response: RpcResponse,
    ) -> (Self, Result<SessionSyncCompletionView, ControllerErrorView>) {
        if response.success {
            match response.page_refusal(self.limits) {
                None => {
                    let page = response.payload->Entries_0@;
                    let since = optional_view(request.since);
                    match self.session_sync.page_refusal(since, page, self.limits) {
                        Some(error) => (self, Err(ControllerErrorView::SessionSync(error))),
                        None => (
                            ControllerView {
                                session_sync: self.session_sync.page_applied(since, page),
                                ..self
                            },
                            Ok(
                                SessionSyncCompletionView::Page {
                                    page,
                                    applied: self.session_sync.page_report(since, page),
                                },
                            ),
                        ),
                    }
                },
                Some(error) => match error {
                    RpcResponsePayloadError::SessionEntryByteLimit { .. }
                    | RpcResponsePayloadError::SessionEntryLimit { .. } => (
                        ControllerView { session_sync: self.session_sync.resync(), ..self },
                        Ok(
                            SessionSyncCompletionView::ResyncRequired {
                                revision: self.session_sync.resync().revision,
                                error: Some(error.text()),
                            },
                        ),
                    ),
                    _ => (self, Err(ControllerErrorView::ResponsePayload(error))),
                },
            }
        } else {
            match request.since {
                Some(since) => match cursor_refusal(Some(since@), self.limits) {
                    Some(error) => (self, Err(ControllerErrorView::SessionSync(error))),
                    None => (
                        ControllerView { session_sync: self.session_sync.resync(), ..self },
                        Ok(
                            SessionSyncCompletionView::ResyncRequired {
                                revision: self.session_sync.resync().revision,
                                error: optional_view(response.error),
                            },
                        ),
                    ),
                },
                None => (
                    self,
                    Ok(
                        SessionSyncCompletionView::Rejected {
                            error: optional_view(response.error),
                        },
                    ),
                ),
            }
        }
    }

    /// What the response to the request for session entries under `id` does.
    pub open spec fn entries_answered(
        self,
        id: Seq<char>,
        response: RpcResponse,
    ) -> (Self, Result<SessionSyncCompletionView, ControllerErrorView>) {
        match self.session_sync_request {
            None => (self, Err(ControllerErrorView::MissingSessionSyncRequest { request_id: id })),
            Some(request) => if request.request_id@ != id {
                (
                    self,
                    Err(
                        ControllerErrorView::SessionSyncResponseMismatch {
                            expected: id,
                            actual: request.request_id@,
                        },
                    ),
                )
            } else {
                ControllerView { session_sync_request: None, ..self }.sync_completed(
                    request,
                    response,
                )
            },
        }
    }

    /// What an accepted response does, and whether it changes the capabilities.
    pub open spec fn accepted(
        self,
        command: RpcCommandKind,
        response: RpcResponse,
        store: RuntimeStoreView,
        now_unix_ms: u64,
    ) -> ControllerStep<bool> {
        let refused = |error: ControllerErrorView|
            ControllerStep { controller: self, store, result: Err(error) };
        let unexpected = ControllerErrorView::ResponsePayload(
            RpcResponsePayloadError::UnexpectedData { command },
        );
        if command == RpcCommandKind::GetState {
            match response.state_refusal(self.limits) {
                Some(error) => refused(ControllerErrorView::ResponsePayload(error)),
                None => {
                    let mutation = RunMutation::StateObserved(
                        observation_of(response.payload->State_0),
                    );
                    match store.refusal(self.run_id, mutation) {
                        Some(error) => refused(ControllerErrorView::Runtime(error)),
                        None => ControllerStep {
                            controller: self,
                            store: store.applied(self.run_id, mutation, now_unix_ms),
                            result: Ok(false),
                        },
                    }
                },
            }
        } else if command == RpcCommandKind::GetAvailableModels {
            match response.payload {
                RpcResponsePayload::Models(models) => ControllerStep {
                    controller: ControllerView {
                        capabilities: RunCapabilitiesView {
                            models: Some(models@),
                            revision: sat_add_u64(self.capabilities.revision, 1),
                            ..self.capabilities
                        },
                        ..self
                    },
                    store,
                    result: Ok(true),
                },
                _ => refused(unexpected),
            }
        } else if command == RpcCommandKind::GetAvailableThinkingLevels {
            match response.payload {
                RpcResponsePayload::ThinkingLevels(levels) => ControllerStep {
                    controller: ControllerView {
                        capabilities: RunCapabilitiesView {
                            thinking_levels: Some(levels@),
                            revision: sat_add_u64(self.capabilities.revision, 1),
                            ..self.capabilities
                        },
                        ..self
                    },
                    store,
                    result: Ok(true),
                },
                _ => refused(unexpected),
            }
        } else if command == RpcCommandKind::GetCommands {
            match response.payload {
                RpcResponsePayload::Commands(commands) => ControllerStep {
                    controller: ControllerView {
                        capabilities: RunCapabilitiesView {
                            commands: Some(commands@),
                            revision: sat_add_u64(self.capabilities.revision, 1),
                            ..self.capabilities
                        },
                        ..self
                    },
                    store,
                    result: Ok(true),
                },
                _ => refused(unexpected),
            }
        } else if command.replaces_session() {
            match store.refusal(self.run_id, RunMutation::SessionReplacementAccepted) {
                Some(error) => refused(ControllerErrorView::Runtime(error)),
                None => ControllerStep {
                    controller: ControllerView {
                        session_sync: SessionSyncView::unknown(),
                        ..self
                    },
                    store: store.applied(
                        self.run_id,
                        RunMutation::SessionReplacementAccepted,
                        now_unix_ms,
                    ),
                    result: Ok(false),
                },
            }
        } else {
            ControllerStep { controller: self, store, result: Ok(false) }
        }
    }

    /// What a response does once it has been correlated and its barrier released.
    pub open spec fn answered(
        self,
        pending: PendingRequestView,
        active: ActiveRpcCommand,
        response: RpcResponse,
        store: RuntimeStoreView,
        now_unix_ms: u64,
    ) -> ControllerStep<CompletedRpcView> {
        let is_bash = pending.command == RpcCommandKind::Bash;
        if is_bash && !self.live.direct_bash.contains_key(pending.id) {
            ControllerStep {
                controller: self,
                store,
                result: Err(ControllerErrorView::UnansweredBash { request_id: pending.id }),
            }
        } else {
            let preview = if is_bash {
                Some(self.live.direct_bash[pending.id])
            } else {
                None
            };
            let after_bash = if is_bash {
                self.with_live(self.live.without_bash(pending.id))
            } else {
                self
            };
            let refused_change = if is_bash {
                store.refusal(self.run_id, RunMutation::ChangesMayHaveChanged)
            } else {
                None
            };
            let changed = if is_bash && refused_change is None {
                store.applied(self.run_id, RunMutation::ChangesMayHaveChanged, now_unix_ms)
            } else {
                store
            };
            if refused_change is Some {
                ControllerStep {
                    controller: after_bash,
                    store,
                    result: Err(ControllerErrorView::Runtime(refused_change->0)),
                }
            } else {
                let (after_sync, sync) = if pending.command == RpcCommandKind::GetEntries {
                    after_bash.entries_answered(pending.id, response)
                } else {
                    (
                        after_bash,
                        Ok(SessionSyncCompletionView::Rejected { error: None }),
                    )
                };
                match sync {
                    Err(error) => ControllerStep {
                        controller: after_sync,
                        store: changed,
                        result: Err(error),
                    },
                    Ok(completion) => {
                        let step = if response.spec_outcome() == RpcResponseOutcome::Accepted {
                            after_sync.accepted(pending.command, response, changed, now_unix_ms)
                        } else {
                            ControllerStep {
                                controller: after_sync,
                                store: changed,
                                result: Ok(false),
                            }
                        };
                        ControllerStep {
                            controller: step.controller,
                            store: step.store,
                            result: match step.result {
                                Err(error) => Err(error),
                                Ok(capabilities_changed) => Ok(
                                    CompletedRpcView {
                                        pending,
                                        active,
                                        outcome: response.spec_outcome(),
                                        direct_bash_preview: preview,
                                        capabilities_changed,
                                        session_sync: if pending.command
                                            == RpcCommandKind::GetEntries {
                                            Some(completion)
                                        } else {
                                            None
                                        },
                                    },
                                ),
                            },
                        }
                    },
                }
            }
        }
    }

    /// What a response does.
    pub open spec fn response_completed(
        self,
        response: RpcResponse,
        store: RuntimeStoreView,
        now_unix_ms: u64,
    ) -> ControllerStep<CompletedRpcView> {
        match self.pending.mismatch(response) {
            Some(error) => ControllerStep {
                controller: self,
                store,
                result: Err(ControllerErrorView::Pending(error)),
            },
            None => {
                let id = response.id->0@;
                let pending = self.pending.requests[id];
                let taken = ControllerView {
                    pending: self.pending.without(id),
                    gate: self.gate.remove(pending.id),
                    ..self
                };
                if !self.gate.contains_key(pending.id) {
                    ControllerStep {
                        controller: taken,
                        store,
                        result: Err(
                            ControllerErrorView::MissingGateEntry { request_id: pending.id },
                        ),
                    }
                } else {
                    taken.answered(pending, self.gate[pending.id], response, store, now_unix_ms)
                }
            },
        }
    }

    /// Closes the question `id` once its answer has been written.
    pub open spec fn dialog_answered(
        self,
        id: String,
        store: RuntimeStoreView,
        now_unix_ms: u64,
    ) -> ControllerStep<ExtensionDialogView> {
        if !self.pending_dialogs.contains_key(id@) {
            ControllerStep {
                controller: self,
                store,
                result: Err(ControllerErrorView::UnknownExtensionDialog { request_id: id@ }),
            }
        } else {
            let request = self.pending_dialogs[id@].request;
            match store.refusal(self.run_id, RunMutation::UiRequestClosed { request_id: id }) {
                Some(error) => ControllerStep {
                    controller: self,
                    store,
                    result: Err(ControllerErrorView::Runtime(error)),
                },
                None => ControllerStep {
                    controller: ControllerView {
                        pending_dialogs: self.pending_dialogs.remove(id@),
                        pending_dialog_bytes: sat_sub_usize(
                            self.pending_dialog_bytes,
                            counted(request.bytes()),
                        ),
                        ..self
                    },
                    store: store.applied(
                        self.run_id,
                        RunMutation::UiRequestClosed { request_id: id },
                        now_unix_ms,
                    ),
                    result: Ok(request),
                },
            }
        }
    }

    /// Closes the questions `ids` one after the other, up to the first that cannot
    /// be closed.
    pub open spec fn dialogs_answered(
        self,
        ids: Seq<String>,
        store: RuntimeStoreView,
        now_unix_ms: u64,
    ) -> ControllerStep<()>
        decreases ids.len(),
    {
        if ids.len() == 0 {
            ControllerStep { controller: self, store, result: Ok(()) }
        } else {
            let before = self.dialogs_answered(ids.drop_last(), store, now_unix_ms);
            match before.result {
                Err(_) => before,
                Ok(_) => {
                    let step = before.controller.dialog_answered(
                        ids.last(),
                        before.store,
                        now_unix_ms,
                    );
                    ControllerStep {
                        controller: step.controller,
                        store: step.store,
                        result: match step.result {
                            Err(error) => Err(error),
                            Ok(_) => Ok(()),
                        },
                    }
                },
            }
        }
    }

    /// Whether Pi has given up on the question `id` by `now_ms`.
    pub open spec fn dialog_expired(self, id: Seq<char>, now_ms: u64) -> bool {
        self.pending_dialogs.contains_key(id) && self.pending_dialogs[id].expires_at_ms is Some
            && self.pending_dialogs[id].expires_at_ms->0 <= now_ms
    }

    /// The earliest moment at which Pi gives up on a question.
    pub open spec fn is_next_expiry(self, next: Option<u64>) -> bool {
        match next {
            Some(at) => {
                &&& exists|id: Seq<char>| #[trigger]
                    self.pending_dialogs.contains_key(id)
                        && self.pending_dialogs[id].expires_at_ms == Some(at)
                &&& forall|id: Seq<char>| #[trigger]
                    self.pending_dialogs.contains_key(id)
                        && self.pending_dialogs[id].expires_at_ms is Some ==> at
                        <= self.pending_dialogs[id].expires_at_ms->0
            },
            None => forall|id: Seq<char>| #[trigger]
                self.pending_dialogs.contains_key(id)
                    ==> self.pending_dialogs[id].expires_at_ms is None,
        }
    }

    /// Whether `snapshot` is the picture of this controller at `now_ms`. The queue
    /// that was last observed is no part of it.
    pub open spec fn pictured(self, snapshot: RunRpcHydrationSnapshot, now_ms: u64) -> bool {
        &&& snapshot.run_id == self.run_id
        &&& snapshot.capabilities@ == self.capabilities
        &&& snapshot.session_sync@ == self.session_sync
        &&& live_pictured(self.live, snapshot.live)
        &&& extension_ui_pictured(self.extension_ui, snapshot.extension_ui)
        &&& dialogs_pictured(self.pending_dialogs, snapshot.pending_dialogs@, now_ms)
        &&& compaction_option(snapshot.compaction) == self.compaction
        &&& retry_option(snapshot.retry) == self.retry
        &&& summarization_option(snapshot.summarization_retry) == self.summarization_retry
        &&& extension_error_option(snapshot.last_extension_error) == self.last_extension_error
        &&& snapshot.stream_stalled == self.stream_stalled
    }
}

/// Milliseconds that are left until `expires_at_ms`.
pub open spec fn remaining_ms(expires_at_ms: Option<u64>, now_ms: u64) -> Option<u64> {
    match expires_at_ms {
        Some(at) => Some(
            if at >= now_ms {
                (at - now_ms) as u64
            } else {
                0
            },
        ),
        None => None,
    }
}

/// The open questions, each once, in the order of their identities.
pub open spec fn dialogs_pictured(
    dialogs: Map<Seq<char>, PendingDialogView>,
    shown: Seq<PendingExtensionDialogSnapshot>,
    now_ms: u64,
) -> bool {
    exists|ids: Seq<Seq<char>>|
        {
            &&& #[trigger] strictly_ordered::<String>(ids)
            &&& ids.to_set() == dialogs.dom()
            &&& shown.len() == ids.len()
            &&& forall|i: int|
                0 <= i < ids.len() ==> (#[trigger] shown[i]).request@ == dialogs[ids[i]].request
                    && shown[i].remaining_timeout_ms == remaining_ms(
                    dialogs[ids[i]].expires_at_ms,
                    now_ms,
                )
        }
}

/// The live projection: blocks, tools and bash requests each once and in order.
pub open spec fn live_pictured(live: LiveProjectionView, shown: LiveProjectionSnapshot) -> bool {
    &&& shown.assistant_blocks@.len() == live.blocks.len()
    &&& forall|i: int|
        0 <= i < live.blocks.len() ==> (#[trigger] shown.assistant_blocks@[i]).shows(live.blocks[i])
    &&& exists|ids: Seq<Seq<char>>|
        {
            &&& #[trigger] strictly_ordered::<String>(ids)
            &&& ids.to_set() == live.tools.dom()
            &&& shown.active_tools@.len() == ids.len()
            &&& forall|i: int|
                0 <= i < ids.len() ==> (#[trigger] shown.active_tools@[i]).shows(
                    ids[i],
                    live.tools[ids[i]],
                )
        }
    &&& exists|ids: Seq<Seq<char>>|
        {
            &&& #[trigger] strictly_ordered::<RequestId>(ids)
            &&& ids.to_set() == live.direct_bash.dom()
            &&& shown.direct_bash@.len() == ids.len()
            &&& forall|i: int|
                0 <= i < ids.len() ==> (#[trigger] shown.direct_bash@[i]).shows(
                    ids[i],
                    live.direct_bash[ids[i]],
                )
        }
    &&& shown.reasoning@ == live.reasoning()
}

/// Statuses and widgets each once and in the order of their keys.
pub open spec fn extension_ui_pictured(ui: ExtensionUiView, shown: ExtensionUiSnapshot) -> bool {
    &&& exists|keys: Seq<Seq<char>>|
        {
            &&& #[trigger] strictly_ordered::<String>(keys)
            &&& keys.to_set() == ui.statuses.dom()
            &&& shown.statuses@.len() == keys.len()
            &&& forall|i: int|
                0 <= i < keys.len() ==> (#[trigger] shown.statuses@[i]).key@ == keys[i]
                    && shown.statuses@[i].text@ == ui.statuses[keys[i]]
        }
    &&& exists|keys: Seq<Seq<char>>|
        {
            &&& #[trigger] strictly_ordered::<String>(keys)
            &&& keys.to_set() == ui.widgets.dom()
            &&& shown.widgets@.len() == keys.len()
            &&& forall|i: int|
                0 <= i < keys.len() ==> (#[trigger] shown.widgets@[i]).key@ == keys[i]
                    && shown.widgets@[i].widget@ == ui.widgets[keys[i]]
        }
    &&& optional_view(shown.title) == ui.title
}

/// Whether `ids` lists the questions that Pi has given up on by `now_ms`, in order.
pub open spec fn lists_expired(controller: ControllerView, ids: Seq<String>, now_ms: u64) -> bool {
    &&& strictly_ordered::<String>(texts_view(ids))
    &&& forall|id: Seq<char>|
        texts_view(ids).contains(id) <==> #[trigger] controller.dialog_expired(id, now_ms)
}

/// The model of an optional snapshot.
pub open spec fn compaction_option(value: Option<RunCompactionSnapshot>) -> Option<
    RunCompactionView,
> {
    match value {
        Some(value) => Some(value@),
        None => None,
    }
}

/// The model of an optional snapshot.
pub open spec fn retry_option(value: Option<RunRetrySnapshot>) -> Option<RunRetryView> {
    match value {
        Some(value) => Some(value@),
        None => None,
    }
}

/// The model of an optional snapshot.
pub open spec fn summarization_option(value: Option<RunSummarizationRetrySnapshot>) -> Option<
    RunSummarizationRetryView,
> {
    match value {
        Some(value) => Some(value@),
        None => None,
    }
}

/// The model of an optional snapshot.
pub open spec fn extension_error_option(value: Option<RunExtensionErrorSnapshot>) -> Option<
    RunExtensionErrorView,
> {
    match value {
        Some(value) => Some(value@),
        None => None,
    }
}

/// What a controller holds.
#[derive(Debug)]
struct ControllerState {
    run_id: RunId,
    pending: PendingRequests,
    gate: RpcCommandGate,
    live: LiveProjection,
    capabilities: RunCapabilities,
    extension_ui: ExtensionUiState,
    pending_dialogs: KeyMap<String, PendingExtensionDialog>,
    pending_dialog_bytes: usize,
    session_sync: SessionSyncState,
    session_sync_request: Option<PendingSessionSyncRequest>,
    compaction: Option<RunCompactionSnapshot>,
    retry: Option<RunRetrySnapshot>,
    summarization_retry: Option<RunSummarizationRetrySnapshot>,
    last_extension_error: Option<RunExtensionErrorSnapshot>,
    stream_stalled: bool,
    observed_queue_recovery: ClearQueueResult,
    limits: RuntimeLimits,
}

impl View for ControllerState {
    type V = ControllerView;

    closed spec fn view(&self) -> ControllerView {
        ControllerView {
            run_id: self.run_id,
            pending: self.pending@,
            gate: self.gate@,
            live: self.live@,
            capabilities: self.capabilities@,
            extension_ui: self.extension_ui@,
            pending_dialogs: self.pending_dialogs@,
            pending_dialog_bytes: self.pending_dialog_bytes,
            session_sync: self.session_sync@,
            session_sync_request: match self.session_sync_request {
                Some(request) => Some(
                    SyncRequestView { request_id: request.request_id, since: request.since },
                ),
                None => None,
            },
            compaction: compaction_option(self.compaction),
            retry: retry_option(self.retry),
            summarization_retry: summarization_option(self.summarization_retry),
            last_extension_error: extension_error_option(self.last_extension_error),
            stream_stalled: self.stream_stalled,
            observed_queue_recovery: self.observed_queue_recovery@,
            limits: self.limits,
        }
    }
}

/// Whether a step ended in this state and returned this.
pub open spec fn stepped(
    step: ControllerStep<RunRpcEffectView>,
    controller: ControllerView,
    store: RuntimeStoreView,
    returned: Result<RunRpcEffect, RunRpcControllerError>,
) -> bool {
    &&& controller == step.controller
    &&& store == step.store
    &&& match step.result {
        Ok(effect) => returned is Ok && returned->Ok_0@ == effect,
        Err(error) => returned is Err && returned->Err_0@ == error,
    }
}

fn assistant_kind(kind: AssistantMessageBlockKind) -> (r: AssistantContentKind)
    ensures
        r == content_kind(kind),
{
    match kind {
        AssistantMessageBlockKind::Text => AssistantContentKind::Text,
        AssistantMessageBlockKind::Thinking => AssistantContentKind::Thinking,
        AssistantMessageBlockKind::ToolCall => AssistantContentKind::ToolCall,
    }
}

/// The bounded form of an optional text, and whether it was cut.
fn bound_optional(value: &Option<String>, max: usize) -> (r: (Option<String>, bool))
    ensures
        (optional_view(r.0), r.1) == bounded_option(*value, max as nat),
{
    match value {
        Some(text) => {
            let (bounded, truncated) = bound_detail(text.as_str(), max);
            (Some(bounded), truncated)
        },
        None => (None, false),
    }
}

fn projection_blocks(blocks: Vec<(usize, AssistantMessageBlockKind, String)>) -> (r: Vec<
    (usize, AssistantContentKind, String),
>)
    ensures
        message_blocks(r@) == completed_blocks(blocks@),
{
    let mut r: Vec<(usize, AssistantContentKind, String)> = Vec::new();
    let mut i: usize = 0;
    while i < blocks.len()
        invariant
            i <= blocks@.len(),
            message_blocks(r@) =~= completed_blocks(blocks@).take(i as int),
        decreases blocks@.len() - i,
    {
        let ghost before = r@;
        r.push((blocks[i].0, assistant_kind(blocks[i].1), blocks[i].2.clone()));
        assert(message_blocks(r@) =~= message_blocks(before).push(
            completed_blocks(blocks@)[i as int],
        ));
        i += 1;
    }
    assert(completed_blocks(blocks@).take(i as int) =~= completed_blocks(blocks@));
    r
}

impl ControllerState {
    fn new(run_id: RunId, limits: RuntimeLimits) -> (r: Self)
        ensures
            r@ == ControllerView::fresh(run_id, limits),
    {
        ControllerState {
            run_id,
            pending: PendingRequests::from_limits(limits),
            gate: RpcCommandGate::new(),
            live: LiveProjection::new(limits),
            capabilities: RunCapabilities::default(),
            extension_ui: ExtensionUiState::new(limits),
            pending_dialogs: KeyMap::new(),
            pending_dialog_bytes: 0,
            session_sync: SessionSyncState::default(),
            session_sync_request: None,
            compaction: None,
            retry: None,
            summarization_retry: None,
            last_extension_error: None,
            stream_stalled: false,
            observed_queue_recovery: ClearQueueResult::default(),
            limits,
        }
    }

    fn run_id(&self) -> (r: RunId)
        ensures
            r == self@.run_id,
    {
        self.run_id
    }

    fn begin_request(&mut self, request: &RpcRequest, expires_at_ms: Option<u64>) -> (r: Result<
        (),
        RunRpcControllerError,
    >)
        ensures
            match old(self)@.request_refusal(*request) {
                Some(error) => r is Err && r->Err_0@ == error && final(self)@ == old(self)@,
                None => r is Ok && final(self)@ == old(self)@.with_request(*request, expires_at_ms),
            },
    {
        let ghost before = self@;
        match &request.command {
            RpcCommand::GetEntries { since } => {
                let since_text = match since {
                    Some(text) => Some(text.as_str()),
                    None => None,
                };
                match self.session_sync.validate_request(since_text, self.limits) {
                    Ok(()) => {},
                    Err(error) => {
                        return Err(RunRpcControllerError::SessionSync(error));
                    },
                }
                match &self.session_sync_request {
                    Some(active) => {
                        return Err(
                            RunRpcControllerError::SessionSyncInFlight {
                                request_id: active.request_id.clone(),
                            },
                        );
                    },
                    None => {},
                }
            },
            _ => {},
        }
        match self.gate.begin(request) {
            Ok(()) => {},
            Err(error) => {
                return Err(RunRpcControllerError::Gate(error));
            },
        }
        match self.pending.register(request, expires_at_ms) {
            Ok(()) => {},
            Err(error) => {
                let released = self.gate.finish(&request.id);
                assert(self.gate@ =~= before.gate);
                return Err(RunRpcControllerError::Pending(error));
            },
        }
        let is_bash = match &request.command {
            RpcCommand::Bash { .. } => true,
            _ => false,
        };
        if is_bash {
            match self.live.start_direct_bash(request.id.clone()) {
                Ok(()) => {},
                Err(error) => {
                    let cancelled = self.pending.cancel(&request.id);
                    let released = self.gate.finish(&request.id);
                    assert(self.gate@ =~= before.gate);
                    assert(self.pending@.requests =~= before.pending.requests);
                    return Err(RunRpcControllerError::Projection(error));
                },
            }
        }
        match &request.command {
            RpcCommand::GetEntries { since } => {
                self.session_sync_request =
                Some(
                    PendingSessionSyncRequest {
                        request_id: request.id.clone(),
                        since: copy_optional(since),
                    },
                );
            },
            _ => {},
        }
        Ok(())
    }

    fn cancel_request(&mut self, id: &RequestId) -> (r: CancelledRpcRequest)
        ensures
            final(self)@ == old(self)@.without_request(id@),
            r.session_sync_cancelled == old(self)@.syncs_under(id@),
            match r.pending {
                Some(pending) => {
                    old(self)@.pending.requests.contains_key(id@) && pending@ == old(self)@.pending.requests[id@]
                },
                None => !old(self)@.pending.requests.contains_key(id@),
            },
            match r.active {
                Some(active) => old(self)@.gate.contains_key(id@) && active == old(self)@.gate[id@],
                None => !old(self)@.gate.contains_key(id@),
            },
            match r.direct_bash_preview {
                Some(text) => {
                    old(self)@.live.direct_bash.contains_key(id@) && text@ == old(self)@.live.direct_bash[id@]
                },
                None => !old(self)@.live.direct_bash.contains_key(id@),
            },
    {
        let session_sync_cancelled = match &self.session_sync_request {
            Some(request) => request.request_id.same(id),
            None => false,
        };
        if session_sync_cancelled {
            self.session_sync_request = None;
        }
        let pending = self.pending.cancel(id);
        let active = self.gate.finish(id);
        let direct_bash_preview = self.live.cancel_direct_bash(id);
        CancelledRpcRequest { pending, active, direct_bash_preview, session_sync_cancelled }
    }

    /// Applies one mutation to the run of this controller.
    fn mutate(&self, store: &mut RuntimeStore, mutation: RunMutation, now_unix_ms: u64) -> (r:
        Result<RunRpcEffect, RunRpcControllerError>)
        ensures
            stepped(
                self@.mutate(old(store)@, mutation, now_unix_ms),
                self@,
                final(store)@,
                r,
            ),
            old(store)@.wf() ==> final(store)@.wf(),
    {
        match store.apply(self.run_id, mutation, now_unix_ms) {
            Ok(()) => Ok(RunRpcEffect::SemanticStateChanged),
            Err(error) => Err(RunRpcControllerError::Runtime(error)),
        }
    }

    fn apply_agent_start(&mut self, store: &mut RuntimeStore, now_unix_ms: u64) -> (r: Result<
        RunRpcEffect,
        RunRpcControllerError,
    >)
        ensures
            stepped(
                old(self)@.on_agent_start(old(store)@, now_unix_ms),
                final(self)@,
                final(store)@,
                r,
            ),
            old(store)@.wf() ==> final(store)@.wf(),
    {
        self.live.start_agent_turn();
        let retried = match &self.compaction {
            Some(compaction) => compaction.finished && compaction.will_retry,
            None => false,
        };
        if retried {
            self.compaction = None;
        }
        self.retry =
        match self.retry.take() {
            Some(mut retry) => {
                if retry.finished {
                    None
                } else {
                    retry.waiting = false;
                    Some(retry)
                }
            },
            None => None,
        };
        self.mutate(store, RunMutation::AgentStarted, now_unix_ms)
    }

    fn apply_agent_settled(&mut self, store: &mut RuntimeStore, now_unix_ms: u64) -> (r: Result<
        RunRpcEffect,
        RunRpcControllerError,
    >)
        ensures
            stepped(
                old(self)@.on_agent_settled(old(store)@, now_unix_ms),
                final(self)@,
                final(store)@,
                r,
            ),
            old(store)@.wf() ==> final(store)@.wf(),
    {
        match self.mutate(store, RunMutation::AgentSettled, now_unix_ms) {
            Ok(effect) => {
                let unfinished: usize = self.live.settle_agent_turn();
                if unfinished > 0 {
                    self.mutate(store, RunMutation::ChangesMayHaveChanged, now_unix_ms)
                } else {
                    Ok(effect)
                }
            },
            Err(error) => Err(error),
        }
    }

    fn apply_compaction_start(
        &mut self,
        reason: &str,
        store: &mut RuntimeStore,
        now_unix_ms: u64,
    ) -> (r: Result<RunRpcEffect, RunRpcControllerError>)
        ensures
            stepped(
                old(self)@.on_compaction_start(reason@, old(store)@, now_unix_ms),
                final(self)@,
                final(store)@,
                r,
            ),
            old(store)@.wf() ==> final(store)@.wf(),
    {
        let (reason, reason_truncated) = self.bound_detail(reason);
        self.compaction =
        Some(
            RunCompactionSnapshot {
                reason,
                reason_truncated,
                finished: false,
                aborted: false,
                will_retry: false,
                error_message: None,
                error_truncated: false,
            },
        );
        self.mutate(store, RunMutation::CompactionStarted, now_unix_ms)
    }

    fn apply_compaction_end(
        &mut self,
        reason: &str,
        aborted: bool,
        will_retry: bool,
        error_message: &Option<String>,
        store: &mut RuntimeStore,
        now_unix_ms: u64,
    ) -> (r: Result<RunRpcEffect, RunRpcControllerError>)
        ensures
            stepped(
                old(self)@.on_compaction_end(
                    reason@,
                    aborted,
                    will_retry,
                    *error_message,
                    old(store)@,
                    now_unix_ms,
                ),
                final(self)@,
                final(store)@,
                r,
            ),
            old(store)@.wf() ==> final(store)@.wf(),
    {
        let (reason, reason_truncated) = self.bound_detail(reason);
        let (error_message, error_truncated) = bound_optional(
            error_message,
            self.limits.max_failure_detail_bytes,
        );
        self.compaction =
        Some(
            RunCompactionSnapshot {
                reason,
                reason_truncated,
                finished: true,
                aborted,
                will_retry,
                error_message,
                error_truncated,
            },
        );
        self.mutate(store, RunMutation::CompactionEnded, now_unix_ms)
    }

    fn apply_auto_retry_start(
        &mut self,
        attempt: usize,
        max_attempts: usize,
        delay_ms: u64,
        error_message: &str,
        store: &mut RuntimeStore,
        now_unix_ms: u64,
    ) -> (r: Result<RunRpcEffect, RunRpcControllerError>)
        ensures
            stepped(
                old(self)@.on_auto_retry_start(
                    attempt,
                    max_attempts,
                    delay_ms,
                    error_message@,
                    old(store)@,
                    now_unix_ms,
                ),
                final(self)@,
                final(store)@,
                r,
            ),
            old(store)@.wf() ==> final(store)@.wf(),
    {
        let (error_message, error_truncated) = self.bound_detail(error_message);
        self.retry =
        Some(
            RunRetrySnapshot {
                attempt,
                max_attempts,
                delay_ms,
                error_message,
                error_truncated,
                waiting: true,
                finished: false,
                success: None,
                final_error: None,
                final_error_truncated: false,
            },
        );
        self.mutate(store, RunMutation::AutoRetryStarted, now_unix_ms)
    }

    fn apply_auto_retry_end(
        &mut self,
        attempt: usize,
        success: bool,
        final_error: &Option<String>,
        store: &mut RuntimeStore,
        now_unix_ms: u64,
    ) -> (r: Result<RunRpcEffect, RunRpcControllerError>)
        ensures
            stepped(
                old(self)@.on_auto_retry_end(
                    attempt,
                    success,
                    *final_error,
                    old(store)@,
                    now_unix_ms,
                ),
                final(self)@,
                final(store)@,
                r,
            ),
            old(store)@.wf() ==> final(store)@.wf(),
    {
        let (final_error, final_error_truncated) = bound_optional(
            final_error,
            self.limits.max_failure_detail_bytes,
        );
        let mut retry = match self.retry.take() {
            Some(retry) => retry,
            None => {
                let error_message = String::new();
                assert(error_message@ =~= Seq::<char>::empty());
                RunRetrySnapshot {
                    attempt,
                    max_attempts: attempt,
                    delay_ms: 0,
                    error_message,
                    error_truncated: false,
                    waiting: false,
                    finished: false,
                    success: None,
                    final_error: None,
                    final_error_truncated: false,
                }
            },
        };
        retry.attempt = attempt;
        retry.waiting = false;
        retry.finished = true;
        retry.success = Some(success);
        retry.final_error = final_error;
        retry.final_error_truncated = final_error_truncated;
        self.retry = Some(retry);
        self.mutate(store, RunMutation::AutoRetryEnded, now_unix_ms)
    }

    fn apply_summarization_scheduled(
        &mut self,
        attempt: usize,
        max_attempts: usize,
        delay_ms: u64,
        error_message: &str,
        store: &mut RuntimeStore,
        now_unix_ms: u64,
    ) -> (r: Result<RunRpcEffect, RunRpcControllerError>)
        ensures
            stepped(
                old(self)@.on_summarization_scheduled(
                    attempt,
                    max_attempts,
                    delay_ms,
                    error_message@,
                    old(store)@,
                    now_unix_ms,
                ),
                final(self)@,
                final(store)@,
                r,
            ),
            old(store)@.wf() ==> final(store)@.wf(),
    {
        let (error_message, error_truncated) = self.bound_detail(error_message);
        self.summarization_retry =
        Some(
            RunSummarizationRetrySnapshot {
                attempt,
                max_attempts,
                delay_ms,
                error_message,
                error_truncated,
                source: None,
                reason: None,
                finished: false,
            },
        );
        self.mutate(store, RunMutation::SummarizationRetryStarted, now_unix_ms)
    }

    fn apply_summarization_attempt(
        &mut self,
        source: &str,
        reason: &Option<String>,
        store: &mut RuntimeStore,
        now_unix_ms: u64,
    ) -> (r: Result<RunRpcEffect, RunRpcControllerError>)
        ensures
            stepped(
                old(self)@.on_summarization_attempt(source@, *reason, old(store)@, now_unix_ms),
                final(self)@,
                final(store)@,
                r,
            ),
            old(store)@.wf() ==> final(store)@.wf(),
    {
        let (source, source_truncated) = self.bound_detail(source);
        let (reason, reason_truncated) = bound_optional(
            reason,
            self.limits.max_failure_detail_bytes,
        );
        let mut retry = match self.summarization_retry.take() {
            Some(retry) => retry,
            None => {
                let error_message = String::new();
                assert(error_message@ =~= Seq::<char>::empty());
                RunSummarizationRetrySnapshot {
                    attempt: 0,
                    max_attempts: 0,
                    delay_ms: 0,
                    error_message,
                    error_truncated: false,
                    source: None,
                    reason: None,
                    finished: false,
                }
            },
        };
        retry.source = Some(source);
        retry.reason = reason;
        retry.error_truncated = retry.error_truncated || source_truncated || reason_truncated;
        retry.finished = false;
        self.summarization_retry = Some(retry);
        self.mutate(store, RunMutation::SummarizationRetryStarted, now_unix_ms)
    }

    fn apply_summarization_finished(&mut self, store: &mut RuntimeStore, now_unix_ms: u64) -> (r:
        Result<RunRpcEffect, RunRpcControllerError>)
        ensures
            stepped(
                old(self)@.on_summarization_finished(old(store)@, now_unix_ms),
                final(self)@,
                final(store)@,
                r,
            ),
            old(store)@.wf() ==> final(store)@.wf(),
    {
        self.summarization_retry =
        match self.summarization_retry.take() {
            Some(mut retry) => {
                retry.finished = true;
                Some(retry)
            },
            None => None,
        };
        self.mutate(store, RunMutation::SummarizationRetryEnded, now_unix_ms)
    }

    fn apply_extension_error(&mut self, extension_path: &str, event: &str, error: &str)
        ensures
            final(self)@ == old(self)@.on_extension_error(extension_path@, event@, error@),
    {
        let (extension_path, path_truncated) = self.bound_detail(extension_path);
        let (event, event_truncated) = self.bound_detail(event);
        let (error, error_truncated) = self.bound_detail(error);
        self.last_extension_error =
        Some(
            RunExtensionErrorSnapshot {
                extension_path,
                event,
                error,
                detail_truncated: path_truncated || event_truncated || error_truncated,
            },
        );
    }

    fn apply_queue_update(
        &mut self,
        queue: ClearQueueResult,
        store: &mut RuntimeStore,
        now_unix_ms: u64,
    ) -> (r: Result<RunRpcEffect, RunRpcControllerError>)
        ensures
            stepped(
                old(self)@.on_queue_update(queue@, old(store)@, now_unix_ms),
                final(self)@,
                final(store)@,
                r,
            ),
            old(store)@.wf() ==> final(store)@.wf(),
    {
        let attempted: usize = queue.resident_bytes();
        let limit: usize = self.limits.max_recovered_queue_bytes_per_run;
        if attempted > limit {
            return Err(
                RunRpcControllerError::EventPayload(
                    RpcEventPayloadError::QueueByteLimit { attempted, limit },
                ),
            );
        }
        let counts = QueueState {
            steering: queue.steering.len(),
            follow_up: queue.follow_up.len(),
        };
        match self.mutate(store, RunMutation::QueueChanged(counts), now_unix_ms) {
            Ok(effect) => {
                self.observed_queue_recovery = queue;
                Ok(effect)
            },
            Err(error) => Err(error),
        }
    }

    fn apply_session_info(
        &mut self,
        name: Option<String>,
        store: &mut RuntimeStore,
        now_unix_ms: u64,
    ) -> (r: Result<RunRpcEffect, RunRpcControllerError>)
        ensures
            stepped(
                old(self)@.on_session_info(name, old(store)@, now_unix_ms),
                final(self)@,
                final(store)@,
                r,
            ),
            old(store)@.wf() ==> final(store)@.wf(),
    {
        let name_text = match &name {
            Some(text) => Some(text.as_str()),
            None => None,
        };
        let retained: usize = match store.get(self.run_id) {
            Some(run) => run.retained_runtime_state_bytes_with_name(name_text),
            None => {
                return Err(
                    RunRpcControllerError::Runtime(RuntimeError::UnknownRun { run_id: self.run_id }),
                );
            },
        };
        let limit: usize = self.limits.max_runtime_state_bytes_per_run;
        if retained > limit {
            return Err(
                RunRpcControllerError::ResponsePayload(
                    RpcResponsePayloadError::RuntimeStateByteLimit { attempted: retained, limit },
                ),
            );
        }
        self.mutate(store, RunMutation::SessionNameChanged(name), now_unix_ms)
    }

    fn apply_message_update(&mut self, update: AssistantMessageUpdate, store: &RuntimeStore) -> (r:
        Result<RunRpcEffect, RunRpcControllerError>)
        ensures
            stepped(old(self)@.on_message_update(update, store@), final(self)@, store@, r),
    {
        match update {
            AssistantMessageUpdate::Start { content_index, kind } => {
                match self.live.start_assistant_block(content_index, assistant_kind(kind)) {
                    Ok(()) => Ok(RunRpcEffect::AssistantBlockUpdated { content_index }),
                    Err(error) => Err(RunRpcControllerError::Projection(error)),
                }
            },
            AssistantMessageUpdate::Delta { content_index, kind, delta } => {
                match self.live.append_assistant_delta(
                    content_index,
                    assistant_kind(kind),
                    delta.as_str(),
                ) {
                    Ok(()) => Ok(RunRpcEffect::AssistantBlockUpdated { content_index }),
                    Err(error) => Err(RunRpcControllerError::Projection(error)),
                }
            },
            AssistantMessageUpdate::End { content_index, kind, content } => {
                let text = match &content {
                    Some(text) => Some(text.as_str()),
                    None => None,
                };
                match self.live.finish_assistant_block(
                    content_index,
                    assistant_kind(kind),
                    text,
                ) {
                    Ok(()) => Ok(RunRpcEffect::AssistantBlockUpdated { content_index }),
                    Err(error) => Err(RunRpcControllerError::Projection(error)),
                }
            },
            AssistantMessageUpdate::Unknown => Ok(RunRpcEffect::ForwardCompatibleIgnored),
        }
    }

    fn apply_message_end(
        &mut self,
        message: AssistantMessageEnd,
        store: &mut RuntimeStore,
        now_unix_ms: u64,
    ) -> (r: Result<RunRpcEffect, RunRpcControllerError>)
        ensures
            exists|error_message: Option<String>|
                optional_view(error_message) == bounded_option(
                    message.error_message,
                    old(self)@.max_detail(),
                ).0 && #[trigger] stepped(
                    old(self)@.on_message_end(message, old(store)@, now_unix_ms, error_message),
                    final(self)@,
                    final(store)@,
                    r,
                ),
            old(store)@.wf() ==> final(store)@.wf(),
    {
        let ghost start = self@;
        let ghost start_store = store@;
        let (error_message, truncated) = bound_optional(
            &message.error_message,
            self.limits.max_failure_detail_bytes,
        );
        let ghost bounded = error_message;
        let blocks = projection_blocks(message.blocks);
        match self.live.reconcile_assistant_message(blocks) {
            Ok(()) => {},
            Err(error) => {
                let r: Result<RunRpcEffect, RunRpcControllerError> = Err(
                    RunRpcControllerError::Projection(error),
                );
                assert(stepped(
                    start.on_message_end(message, start_store, now_unix_ms, bounded),
                    self@,
                    store@,
                    r,
                ));
                return r;
            },
        }
        let r = self.mutate(
            store,
            RunMutation::AssistantMessageCompleted {
                stop_reason: message.stop_reason,
                error_message,
            },
            now_unix_ms,
        );
        assert(stepped(
            start.on_message_end(message, start_store, now_unix_ms, bounded),
            self@,
            store@,
            r,
        ));
        r
    }

    fn apply_tool_start(
        &mut self,
        tool_call_id: String,
        tool_name: String,
        store: &RuntimeStore,
    ) -> (r: Result<RunRpcEffect, RunRpcControllerError>)
        ensures
            stepped(
                old(self)@.on_tool_start(tool_call_id, tool_name@, store@),
                final(self)@,
                store@,
                r,
            ),
    {
        match self.live.start_tool(tool_call_id.clone(), tool_name) {
            Ok(()) => Ok(RunRpcEffect::ToolUpdated { tool_call_id }),
            Err(error) => Err(RunRpcControllerError::Projection(error)),
        }
    }

    fn apply_tool_update(&mut self, tool_call_id: String, text: &str, store: &RuntimeStore) -> (r:
        Result<RunRpcEffect, RunRpcControllerError>)
        ensures
            stepped(
                old(self)@.on_tool_update(tool_call_id, text@, store@),
                final(self)@,
                store@,
                r,
            ),
    {
        match self.live.replace_output_of(&tool_call_id, text) {
            Ok(()) => Ok(RunRpcEffect::ToolUpdated { tool_call_id }),
            Err(error) => Err(RunRpcControllerError::Projection(error)),
        }
    }

    fn apply_tool_end(
        &mut self,
        tool_call_id: String,
        tool_name: String,
        text: &str,
        is_error: bool,
        store: &mut RuntimeStore,
        now_unix_ms: u64,
    ) -> (r: Result<RunRpcEffect, RunRpcControllerError>)
        ensures
            stepped(
                old(self)@.on_tool_end(
                    tool_call_id,
                    tool_name@,
                    text@,
                    is_error,
                    old(store)@,
                    now_unix_ms,
                ),
                final(self)@,
                final(store)@,
                r,
            ),
            old(store)@.wf() ==> final(store)@.wf(),
    {
        let ghost before = self@.live;
        match self.live.replace_output_of(&tool_call_id, text) {
            Ok(()) => {},
            Err(error) => {
                return Err(RunRpcControllerError::Projection(error));
            },
        }
        let preview = match self.live.finish_tool_call(&tool_call_id) {
            Ok(preview) => preview,
            Err(error) => {
                return Err(RunRpcControllerError::Projection(error));
            },
        };
        assert(self@.live.tools =~= before.without_tool(tool_call_id@).tools);
        match self.mutate(store, RunMutation::ChangesMayHaveChanged, now_unix_ms) {
            Ok(_) => Ok(RunRpcEffect::ToolFinished { tool_call_id, tool_name, preview, is_error }),
            Err(error) => Err(error),
        }
    }

    fn apply_bash_update(
        &mut self,
        request_id: Option<RequestId>,
        delta: &str,
        store: &RuntimeStore,
    ) -> (r: Result<RunRpcEffect, RunRpcControllerError>)
        ensures
            stepped(
                old(self)@.on_bash_update(request_id, delta@, store@),
                final(self)@,
                store@,
                r,
            ),
    {
        match request_id {
            None => Err(RunRpcControllerError::MissingBashRequestId),
            Some(request_id) => match self.live.append_direct_bash_delta(&request_id, delta) {
                Ok(()) => Ok(RunRpcEffect::DirectBashUpdated { request_id }),
                Err(error) => Err(RunRpcControllerError::Projection(error)),
            },
        }
    }

    fn apply_dialog(
        &mut self,
        request: ExtensionDialogRequest,
        store: &mut RuntimeStore,
        now_ms: u64,
        now_unix_ms: u64,
    ) -> (r: Result<RunRpcEffect, RunRpcControllerError>)
        ensures
            stepped(
                old(self)@.on_dialog(request, old(store)@, now_ms, now_unix_ms),
                final(self)@,
                final(store)@,
                r,
            ),
            old(store)@.wf() ==> final(store)@.wf(),
    {
        let bytes: usize = request.resident_bytes();
        let attempted: usize = self.pending_dialog_bytes.saturating_add(bytes);
        let limit: usize = self.limits.max_extension_ui_bytes_per_run;
        if attempted > limit {
            return Err(RunRpcControllerError::ExtensionDialogByteLimit { attempted, limit });
        }
        match self.mutate(
            store,
            RunMutation::UiRequestOpened { request_id: request.id.clone() },
            now_unix_ms,
        ) {
            Ok(_) => {},
            Err(error) => {
                return Err(error);
            },
        }
        let expires_at_ms = match request.timeout_ms {
            Some(timeout_ms) => now_ms.checked_add(timeout_ms),
            None => None,
        };
        self.pending_dialog_bytes = attempted;
        self.pending_dialogs.insert(
            request.id.clone(),
            PendingExtensionDialog { request: request.clone(), expires_at_ms },
        );
        Ok(RunRpcEffect::ExtensionDialogRequested(request))
    }

    fn apply_fire_and_forget(&mut self, action: ExtensionFireAndForget, store: &RuntimeStore) -> (r:
        Result<RunRpcEffect, RunRpcControllerError>)
        ensures
            stepped(old(self)@.on_fire_and_forget(action, store@), final(self)@, store@, r),
    {
        match action {
            ExtensionFireAndForget::Notify { message, notify_type } => Ok(
                RunRpcEffect::ExtensionNotification { message, notify_type },
            ),
            ExtensionFireAndForget::SetStatus { key, text } => {
                match self.extension_ui.set_status(key, text) {
                    Ok(()) => Ok(RunRpcEffect::ExtensionUiStateChanged),
                    Err(error) => Err(RunRpcControllerError::ExtensionUiState(error)),
                }
            },
            ExtensionFireAndForget::SetWidget { key, lines, placement } => {
                let widget = match lines {
                    Some(lines) => Some(
                        ExtensionWidget {
                            lines,
                            placement: match placement {
                                ExtensionWidgetPlacement::AboveEditor =>
                                    WidgetPlacement::AboveEditor,
                                ExtensionWidgetPlacement::BelowEditor =>
                                    WidgetPlacement::BelowEditor,
                            },
                        },
                    ),
                    None => None,
                };
                match self.extension_ui.set_widget(key, widget) {
                    Ok(()) => Ok(RunRpcEffect::ExtensionUiStateChanged),
                    Err(error) => Err(RunRpcControllerError::ExtensionUiState(error)),
                }
            },
            ExtensionFireAndForget::SetTitle { title } => {
                match self.extension_ui.set_title(Some(title)) {
                    Ok(()) => Ok(RunRpcEffect::ExtensionUiStateChanged),
                    Err(error) => Err(RunRpcControllerError::ExtensionUiState(error)),
                }
            },
            ExtensionFireAndForget::SetEditorText { text } => Ok(
                RunRpcEffect::SetEditorText { text },
            ),
        }
    }

    fn apply_event(
        &mut self,
        event: RpcEvent,
        store: &mut RuntimeStore,
        now_ms: u64,
        now_unix_ms: u64,
    ) -> (r: Result<RunRpcEffect, RunRpcControllerError>)
        ensures
            exists|error_message: Option<String>|
                optional_view(error_message) == old(self)@.message_error(event)
                    && #[trigger] stepped(
                    old(self)@.event_applied(
                        event,
                        old(store)@,
                        now_ms,
                        now_unix_ms,
                        error_message,
                    ),
                    final(self)@,
                    final(store)@,
                    r,
                ),
            old(store)@.wf() ==> final(store)@.wf(),
    {
        proof {
            reveal(ControllerView::event_applied);
        }
        let ghost start = self@;
        let ghost start_store = store@;
        let ghost whole = event;
        match event {
            RpcEvent::MessageEnd(message) => match message {
                None => {
                    let r: Result<RunRpcEffect, RunRpcControllerError> = Ok(RunRpcEffect::Nothing);
                    assert(optional_view(None::<String>) == start.message_error(whole));
                    assert(stepped(
                        start.event_applied(whole, start_store, now_ms, now_unix_ms, None),
                        self@,
                        store@,
                        r,
                    ));
                    r
                },
                Some(message) => {
                    let r = self.apply_message_end(message, store, now_unix_ms);
                    proof {
                        let error_message = choose|error_message: Option<String>|
                            optional_view(error_message) == bounded_option(
                                message.error_message,
                                start.max_detail(),
                            ).0 && #[trigger] stepped(
                                start.on_message_end(
                                    message,
                                    start_store,
                                    now_unix_ms,
                                    error_message,
                                ),
                                self@,
                                store@,
                                r,
                            );
                        assert(stepped(
                            start.event_applied(
                                whole,
                                start_store,
                                now_ms,
                                now_unix_ms,
                                error_message,
                            ),
                            self@,
                            store@,
                            r,
                        ));
                    }
                    r
                },
            },
            event => {
                let r = self.apply_other_event(event, store, now_ms, now_unix_ms);
                assert(optional_view(None::<String>) == start.message_error(whole));
                assert(stepped(
                    start.event_applied(whole, start_store, now_ms, now_unix_ms, None),
                    self@,
                    store@,
                    r,
                ));
                r
            },
        }
    }

    fn apply_other_event(
        &mut self,
        event: RpcEvent,
        store: &mut RuntimeStore,
        now_ms: u64,
        now_unix_ms: u64,
    ) -> (r: Result<RunRpcEffect, RunRpcControllerError>)
        requires
            !(event is MessageEnd),
        ensures
            stepped(
                old(self)@.event_applied(event, old(store)@, now_ms, now_unix_ms, None),
                final(self)@,
                final(store)@,
                r,
            ),
            old(store)@.wf() ==> final(store)@.wf(),
    {
        proof {
            reveal(ControllerView::event_applied);
        }
        match event {
            RpcEvent::AgentStart => self.apply_agent_start(store, now_unix_ms),
            RpcEvent::AgentSettled => self.apply_agent_settled(store, now_unix_ms),
            RpcEvent::CompactionStart { reason } => self.apply_compaction_start(
                reason.as_str(),
                store,
                now_unix_ms,
            ),
            RpcEvent::CompactionEnd { reason, aborted, will_retry, error_message } =>
                self.apply_compaction_end(
                reason.as_str(),
                aborted,
                will_retry,
                &error_message,
                store,
                now_unix_ms,
            ),
            RpcEvent::AutoRetryStart { attempt, max_attempts, delay_ms, error_message } =>
                self.apply_auto_retry_start(
                attempt,
                max_attempts,
                delay_ms,
                error_message.as_str(),
                store,
                now_unix_ms,
            ),
            RpcEvent::AutoRetryEnd { attempt, success, final_error } => self.apply_auto_retry_end(
                attempt,
                success,
                &final_error,
                store,
                now_unix_ms,
            ),
            RpcEvent::SummarizationRetryScheduled {
                attempt,
                max_attempts,
                delay_ms,
                error_message,
            } => self.apply_summarization_scheduled(
                attempt,
                max_attempts,
                delay_ms,
                error_message.as_str(),
                store,
                now_unix_ms,
            ),
            RpcEvent::SummarizationRetryAttemptStart { source, reason } =>
                self.apply_summarization_attempt(source.as_str(), &reason, store, now_unix_ms),
            RpcEvent::SummarizationRetryFinished => self.apply_summarization_finished(
                store,
                now_unix_ms,
            ),
            RpcEvent::ExtensionError { extension_path, event, error } => {
                self.apply_extension_error(extension_path.as_str(), event.as_str(), error.as_str());
                Ok(RunRpcEffect::SemanticStateChanged)
            },
            RpcEvent::QueueUpdate(queue) => self.apply_queue_update(queue, store, now_unix_ms),
            RpcEvent::SessionInfoChanged { name } => self.apply_session_info(
                name,
                store,
                now_unix_ms,
            ),
            RpcEvent::ThinkingLevelChanged(level) => self.mutate(
                store,
                RunMutation::ThinkingLevelChanged(level),
                now_unix_ms,
            ),
            RpcEvent::MessageStart => {
                self.live.start_assistant_message();
                Ok(RunRpcEffect::AssistantMessageReset)
            },
            RpcEvent::MessageUpdate(update) => self.apply_message_update(update, store),
            RpcEvent::MessageEnd(_) => Ok(RunRpcEffect::Nothing),
            RpcEvent::ToolExecutionStart { tool_call_id, tool_name } => self.apply_tool_start(
                tool_call_id,
                tool_name,
                store,
            ),
            RpcEvent::ToolExecutionUpdate { tool_call_id, accumulated_text } =>
                self.apply_tool_update(tool_call_id, accumulated_text.as_str(), store),
            RpcEvent::ToolExecutionEnd { tool_call_id, tool_name, final_text, is_error } =>
                self.apply_tool_end(
                tool_call_id,
                tool_name,
                final_text.as_str(),
                is_error,
                store,
                now_unix_ms,
            ),
            RpcEvent::BashExecutionUpdate { request_id, delta } => self.apply_bash_update(
                request_id,
                delta.as_str(),
                store,
            ),
            RpcEvent::ExtensionUiRequest(request) => match request {
                ExtensionUiRequest::Dialog(request) => self.apply_dialog(
                    request,
                    store,
                    now_ms,
                    now_unix_ms,
                ),
                ExtensionUiRequest::FireAndForget(action) => self.apply_fire_and_forget(
                    action,
                    store,
                ),
                ExtensionUiRequest::Unknown => Ok(RunRpcEffect::ForwardCompatibleIgnored),
            },
            RpcEvent::Malformed(error) => Err(RunRpcControllerError::EventPayload(error)),
            RpcEvent::MalformedExtensionUi(error) => Err(
                RunRpcControllerError::ExtensionUiParse(error),
            ),
            RpcEvent::Other => Ok(RunRpcEffect::Nothing),
        }
    }

    fn bound_detail(&self, value: &str) -> (r: (String, bool))
        ensures
            (r.0@, r.1) == bounded_detail(value@, self@.max_detail()),
    {
        bound_detail(value, self.limits.max_failure_detail_bytes)
    }

    fn take_session_sync_request(&mut self, request_id: &RequestId) -> (r: Result<
        PendingSessionSyncRequest,
        RunRpcControllerError,
    >)
        ensures
            match old(self)@.session_sync_request {
                None => r is Err && r->Err_0@ == (ControllerErrorView::MissingSessionSyncRequest {
                    request_id: request_id@,
                }) && final(self)@ == old(self)@,
                Some(request) => if request.request_id@ != request_id@ {
                    r is Err && r->Err_0@ == (ControllerErrorView::SessionSyncResponseMismatch {
                        expected: request_id@,
                        actual: request.request_id@,
                    }) && final(self)@ == old(self)@
                } else {
                    r is Ok && r->Ok_0.request_id == request.request_id && r->Ok_0.since
                        == request.since && final(self)@ == (ControllerView {
                        session_sync_request: None,
                        ..old(self)@
                    })
                },
            },
    {
        match self.session_sync_request.take() {
            None => Err(
                RunRpcControllerError::MissingSessionSyncRequest { request_id: request_id.clone() },
            ),
            Some(pending) => {
                if !pending.request_id.same(request_id) {
                    let actual = pending.request_id.clone();
                    self.session_sync_request = Some(pending);
                    return Err(
                        RunRpcControllerError::SessionSyncResponseMismatch {
                            expected: request_id.clone(),
                            actual,
                        },
                    );
                }
                Ok(pending)
            },
        }
    }

    fn complete_entries(&mut self, id: &RequestId, response: &RpcResponse) -> (r: Result<
        SessionSyncCompletion,
        RunRpcControllerError,
    >)
        ensures
            ({
                let (controller, result) = old(self)@.entries_answered(id@, *response);
                &&& final(self)@ == controller
                &&& match result {
                    Ok(completion) => r is Ok && r->Ok_0@ == completion,
                    Err(error) => r is Err && r->Err_0@ == error,
                }
            }),
    {
        let request = match self.take_session_sync_request(id) {
            Ok(request) => request,
            Err(error) => {
                return Err(error);
            },
        };
        if response.success {
            match response.entries_page(self.limits) {
                Ok(page) => {
                    let since = match &request.since {
                        Some(text) => Some(text.as_str()),
                        None => None,
                    };
                    match self.session_sync.apply_page(since, &page, self.limits) {
                        Ok(applied) => Ok(SessionSyncCompletion::Page { page, applied }),
                        Err(error) => Err(RunRpcControllerError::SessionSync(error)),
                    }
                },
                Err(error) => match error {
                    RpcResponsePayloadError::SessionEntryByteLimit { .. }
                    | RpcResponsePayloadError::SessionEntryLimit { .. } => {
                        let revision: u64 = self.session_sync.mark_projection_resync_required();
                        Ok(
                            SessionSyncCompletion::ResyncRequired {
                                revision,
                                error: Some(error.message()),
                            },
                        )
                    },
                    _ => Err(RunRpcControllerError::ResponsePayload(error)),
                },
            }
        } else {
            match &request.since {
                Some(since) => match self.session_sync.mark_resync_required(
                    since.as_str(),
                    self.limits,
                ) {
                    Ok(resync) => Ok(
                        SessionSyncCompletion::ResyncRequired {
                            revision: resync.revision,
                            error: copy_optional(&response.error),
                        },
                    ),
                    Err(error) => Err(RunRpcControllerError::SessionSync(error)),
                },
                None => Ok(
                    SessionSyncCompletion::Rejected { error: copy_optional(&response.error) },
                ),
            }
        }
    }

    fn apply_accepted(
        &mut self,
        command: RpcCommandKind,
        response: &RpcResponse,
        store: &mut RuntimeStore,
        now_unix_ms: u64,
    ) -> (r: Result<bool, RunRpcControllerError>)
        ensures
            ({
                let step = old(self)@.accepted(command, *response, old(store)@, now_unix_ms);
                &&& final(self)@ == step.controller
                &&& final(store)@ == step.store
                &&& match step.result {
                    Ok(changed) => r == Ok::<bool, RunRpcControllerError>(changed),
                    Err(error) => r is Err && r->Err_0@ == error,
                }
            }),
            old(store)@.wf() ==> final(store)@.wf(),
    {
        match command {
            RpcCommandKind::GetState => {
                let snapshot = match response.state_snapshot(self.limits) {
                    Ok(snapshot) => snapshot,
                    Err(error) => {
                        return Err(RunRpcControllerError::ResponsePayload(error));
                    },
                };
                match store.apply(
                    self.run_id,
                    RunMutation::StateObserved(observe(snapshot)),
                    now_unix_ms,
                ) {
                    Ok(()) => Ok(false),
                    Err(error) => Err(RunRpcControllerError::Runtime(error)),
                }
            },
            RpcCommandKind::GetAvailableModels => match response.available_models() {
                Ok(models) => {
                    self.capabilities.replace_models(models);
                    Ok(true)
                },
                Err(error) => Err(RunRpcControllerError::ResponsePayload(error)),
            },
            RpcCommandKind::GetAvailableThinkingLevels => match
                response.available_thinking_levels() {
                Ok(levels) => {
                    self.capabilities.replace_thinking_levels(levels);
                    Ok(true)
                },
                Err(error) => Err(RunRpcControllerError::ResponsePayload(error)),
            },
            RpcCommandKind::GetCommands => match response.available_commands() {
                Ok(commands) => {
                    self.capabilities.replace_commands(commands);
                    Ok(true)
                },
                Err(error) => Err(RunRpcControllerError::ResponsePayload(error)),
            },
            RpcCommandKind::NewSession
            | RpcCommandKind::SwitchSession
            | RpcCommandKind::Fork
            | RpcCommandKind::Clone => {
                match store.apply(
                    self.run_id,
                    RunMutation::SessionReplacementAccepted,
                    now_unix_ms,
                ) {
                    Ok(()) => {
                        self.session_sync.reset_for_session_replacement();
                        Ok(false)
                    },
                    Err(error) => Err(RunRpcControllerError::Runtime(error)),
                }
            },
            _ => Ok(false),
        }
    }

    fn answer(
        &mut self,
        pending: PendingRequest,
        active: ActiveRpcCommand,
        response: &RpcResponse,
        store: &mut RuntimeStore,
        now_unix_ms: u64,
    ) -> (r: Result<CompletedRpcRequest, RunRpcControllerError>)
        ensures
            completed(
                old(self)@.answered(pending@, active, *response, old(store)@, now_unix_ms),
                final(self)@,
                final(store)@,
                r,
            ),
            old(store)@.wf() ==> final(store)@.wf(),
    {
        let is_bash = pending.command == RpcCommandKind::Bash;
        let direct_bash_preview = if is_bash {
            match self.live.cancel_direct_bash(&pending.id) {
                Some(preview) => Some(preview),
                None => {
                    assert(self@.live.direct_bash =~= old(self)@.live.direct_bash);
                    return Err(
                        RunRpcControllerError::Projection(
                            ProjectionError::UnknownDirectBash { request_id: pending.id.clone() },
                        ),
                    );
                },
            }
        } else {
            None
        };
        if is_bash {
            // A shell command may have changed files even where it was rejected,
            // cancelled or failed.
            match store.apply(self.run_id, RunMutation::ChangesMayHaveChanged, now_unix_ms) {
                Ok(()) => {},
                Err(error) => {
                    return Err(RunRpcControllerError::Runtime(error));
                },
            }
        }
        let mut session_sync = None;
        if pending.command == RpcCommandKind::GetEntries {
            match self.complete_entries(&pending.id, response) {
                Ok(completion) => {
                    session_sync = Some(completion);
                },
                Err(error) => {
                    return Err(error);
                },
            }
        }
        let outcome = response.outcome();
        let mut capabilities_changed = false;
        if outcome == RpcResponseOutcome::Accepted {
            match self.apply_accepted(pending.command, response, store, now_unix_ms) {
                Ok(changed) => {
                    capabilities_changed = changed;
                },
                Err(error) => {
                    return Err(error);
                },
            }
        }
        Ok(
            CompletedRpcRequest {
                pending,
                active,
                outcome,
                direct_bash_preview,
                capabilities_changed,
                session_sync,
            },
        )
    }

    fn complete_response(
        &mut self,
        response: &RpcResponse,
        store: &mut RuntimeStore,
        now_unix_ms: u64,
    ) -> (r: Result<CompletedRpcRequest, RunRpcControllerError>)
        ensures
            completed(
                old(self)@.response_completed(*response, old(store)@, now_unix_ms),
                final(self)@,
                final(store)@,
                r,
            ),
            old(store)@.wf() ==> final(store)@.wf(),
    {
        let pending = match self.pending.complete(response) {
            Ok(pending) => pending,
            Err(error) => {
                return Err(RunRpcControllerError::Pending(error));
            },
        };
        match self.gate.finish(&pending.id) {
            None => Err(
                RunRpcControllerError::MissingGateEntry { request_id: pending.id.clone() },
            ),
            Some(active) => self.answer(pending, active, response, store, now_unix_ms),
        }
    }

    fn hydration_snapshot(&self, now_ms: u64) -> (r: RunRpcHydrationSnapshot)
        ensures
            self@.pictured(r, now_ms),
            self@.live.within_limits(),
    {
        let n: usize = self.pending_dialogs.len();
        let ghost ids = self.pending_dialogs.key_models();
        let mut pending_dialogs: Vec<PendingExtensionDialogSnapshot> = Vec::new();
        let mut i: usize = 0;
        while i < n
            invariant
                i <= n == ids.len(),
                ids == self.pending_dialogs.key_models(),
                pending_dialogs@.len() == i,
                forall|k: int|
                    0 <= k < i ==> (#[trigger] pending_dialogs@[k]).request@
                        == self.pending_dialogs@[ids[k]].request
                        && pending_dialogs@[k].remaining_timeout_ms == remaining_ms(
                        self.pending_dialogs@[ids[k]].expires_at_ms,
                        now_ms,
                    ),
            decreases n - i,
        {
            let dialog = self.pending_dialogs.value_at(i);
            pending_dialogs.push(
                PendingExtensionDialogSnapshot {
                    request: dialog.request.clone(),
                    remaining_timeout_ms: match dialog.expires_at_ms {
                        Some(at) => Some(at.saturating_sub(now_ms)),
                        None => None,
                    },
                },
            );
            i += 1;
        }
        let live = self.live.snapshot();
        let extension_ui = self.extension_ui.snapshot();
        proof {
            assert(strictly_ordered::<String>(ids));
            assert(strictly_ordered::<String>(self.live.tool_ids()));
            assert(strictly_ordered::<RequestId>(self.live.bash_ids()));
            assert(strictly_ordered::<String>(self.extension_ui.status_keys()));
            assert(strictly_ordered::<String>(self.extension_ui.widget_keys()));
        }
        RunRpcHydrationSnapshot {
            run_id: self.run_id,
            capabilities: self.capabilities.clone(),
            session_sync: self.session_sync.clone(),
            live,
            extension_ui,
            pending_dialogs,
            compaction: match &self.compaction {
                Some(compaction) => Some(compaction.clone()),
                None => None,
            },
            retry: match &self.retry {
                Some(retry) => Some(retry.clone()),
                None => None,
            },
            summarization_retry: match &self.summarization_retry {
                Some(retry) => Some(retry.clone()),
                None => None,
            },
            last_extension_error: match &self.last_extension_error {
                Some(error) => Some(error.clone()),
                None => None,
            },
            stream_stalled: self.stream_stalled,
        }
    }

    fn live_projection(&self) -> (r: &LiveProjection)
        ensures
            r@ == self@.live,
    {
        &self.live
    }

    fn pending_request_count(&self) -> (n: usize)
        ensures
            n == self@.pending.requests.dom().len(),
    {
        self.pending.len()
    }

    fn active_command_count(&self) -> (n: usize)
        ensures
            n == self@.gate.dom().len(),
    {
        self.gate.len()
    }

    fn capabilities(&self) -> (r: &RunCapabilities)
        ensures
            r@ == self@.capabilities,
    {
        &self.capabilities
    }

    fn extension_ui_state(&self) -> (r: &ExtensionUiState)
        ensures
            r@ == self@.extension_ui,
    {
        &self.extension_ui
    }

    fn session_sync_state(&self) -> (r: &SessionSyncState)
        ensures
            r@ == self@.session_sync,
    {
        &self.session_sync
    }

    fn seed_session_sync(&mut self, cursor: Option<String>, leaf_id: Option<String>) -> (r:
        Result<(), RunRpcControllerError>)
        ensures
            match old(self)@.session_sync_request {
                Some(active) => r is Err && r->Err_0@ == (ControllerErrorView::SessionSyncInFlight {
                    request_id: active.request_id@,
                }) && final(self)@ == old(self)@,
                None => match SessionSyncView::seed_refusal(
                    optional_view(cursor),
                    optional_view(leaf_id),
                    old(self)@.limits,
                ) {
                    Some(error) => r is Err && r->Err_0@ == ControllerErrorView::SessionSync(error)
                        && final(self)@ == old(self)@,
                    None => r is Ok && final(self)@ == (ControllerView {
                        session_sync: old(self)@.session_sync.seeded(
                            optional_view(cursor),
                            optional_view(leaf_id),
                        ),
                        ..old(self)@
                    }),
                },
            },
    {
        match &self.session_sync_request {
            Some(active) => {
                return Err(
                    RunRpcControllerError::SessionSyncInFlight {
                        request_id: active.request_id.clone(),
                    },
                );
            },
            None => {},
        }
        match self.session_sync.seed(cursor, leaf_id, self.limits) {
            Ok(()) => Ok(()),
            Err(error) => Err(RunRpcControllerError::SessionSync(error)),
        }
    }

    fn pending_extension_dialogs(&self) -> (r: Vec<&ExtensionDialogRequest>)
        ensures
            r@.len() == self.dialog_ids().len(),
            self.dialog_ids().to_set() == self@.pending_dialogs.dom(),
            strictly_ordered::<String>(self.dialog_ids()),
            forall|i: int|
                0 <= i < r@.len() ==> (#[trigger] r@[i])@
                    == self@.pending_dialogs[self.dialog_ids()[i]].request,
    {
        let n: usize = self.pending_dialogs.len();
        let mut r: Vec<&ExtensionDialogRequest> = Vec::new();
        let mut i: usize = 0;
        while i < n
            invariant
                i <= n == self.pending_dialogs.key_models().len(),
                r@.len() == i,
                forall|k: int|
                    0 <= k < i ==> (#[trigger] r@[k])@
                        == self.pending_dialogs@[self.pending_dialogs.key_models()[k]].request,
            decreases n - i,
        {
            r.push(&self.pending_dialogs.value_at(i).request);
            i += 1;
        }
        r
    }

    /// The identities of the open questions, in order.
    closed spec fn dialog_ids(&self) -> Seq<Seq<char>> {
        self.pending_dialogs.key_models()
    }

    fn has_pending_extension_dialogs(&self) -> (r: bool)
        ensures
            r == (self@.pending_dialogs.dom().len() > 0),
    {
        !self.pending_dialogs.is_empty()
    }

    fn has_pending_extension_dialog(&self, id: &String) -> (r: bool)
        ensures
            r == self@.pending_dialogs.contains_key(id@),
    {
        self.pending_dialogs.contains_key(id)
    }

    fn observed_queue_recovery(&self) -> (r: &ClearQueueResult)
        ensures
            r@ == self@.observed_queue_recovery,
    {
        &self.observed_queue_recovery
    }

    fn set_stream_stalled(&mut self, stalled: bool) -> (changed: bool)
        ensures
            changed == (old(self)@.stream_stalled != stalled),
            final(self)@ == (ControllerView { stream_stalled: stalled, ..old(self)@ }),
    {
        if self.stream_stalled == stalled {
            return false;
        }
        self.stream_stalled = stalled;
        true
    }

    fn next_extension_dialog_expiry(&self) -> (next: Option<u64>)
        ensures
            self@.is_next_expiry(next),
    {
        let n: usize = self.pending_dialogs.len();
        let ghost keys = self.pending_dialogs.key_models();
        let ghost dialogs = self.pending_dialogs@;
        let mut next: Option<u64> = None;
        let mut i: usize = 0;
        while i < n
            invariant
                i <= n == keys.len(),
                keys == self.pending_dialogs.key_models(),
                dialogs == self.pending_dialogs@,
                dialogs.dom() == keys.to_set(),
                match next {
                    Some(at) => {
                        &&& exists|k: int|
                            0 <= k < i && dialogs[#[trigger] keys[k]].expires_at_ms == Some(at)
                        &&& forall|k: int|
                            0 <= k < i && dialogs[#[trigger] keys[k]].expires_at_ms is Some ==> at
                                <= dialogs[keys[k]].expires_at_ms->0
                    },
                    None => forall|k: int|
                        0 <= k < i ==> dialogs[#[trigger] keys[k]].expires_at_ms is None,
                },
            decreases n - i,
        {
            let expires = self.pending_dialogs.value_at(i).expires_at_ms;
            assert(dialogs[keys[i as int]].expires_at_ms == expires);
            match expires {
                Some(at) => {
                    match next {
                        Some(known) => {
                            if at < known {
                                next = Some(at);
                            }
                        },
                        None => {
                            next = Some(at);
                        },
                    }
                },
                None => {},
            }
            i += 1;
        }
        proof {
            assert forall|id: Seq<char>| #[trigger] dialogs.contains_key(id) implies exists|k: int|
                0 <= k < keys.len() && #[trigger] keys[k] == id by {
                assert(keys.to_set().contains(id));
            }
            assert forall|k: int| 0 <= k < keys.len() implies dialogs.contains_key(
                #[trigger] keys[k],
            ) by {
                assert(keys.to_set().contains(keys[k]));
            }
        }
        next
    }

    fn process_ended(&mut self)
        ensures
            final(self)@ == old(self)@.ended(),
    {
        self.pending = PendingRequests::from_limits(self.limits);
        self.gate = RpcCommandGate::new();
        self.live = LiveProjection::new(self.limits);
        self.pending_dialogs.clear();
        self.pending_dialog_bytes = 0;
        self.session_sync_request = None;
        self.compaction = None;
        self.retry = None;
        self.summarization_retry = None;
        self.stream_stalled = false;
        self.observed_queue_recovery = ClearQueueResult::default();
    }

    fn complete_extension_ui_response(
        &mut self,
        request_id: &String,
        store: &mut RuntimeStore,
        now_unix_ms: u64,
    ) -> (r: Result<ExtensionDialogRequest, RunRpcControllerError>)
        ensures
            ({
                let step = old(self)@.dialog_answered(*request_id, old(store)@, now_unix_ms);
                &&& final(self)@ == step.controller
                &&& final(store)@ == step.store
                &&& match step.result {
                    Ok(request) => r is Ok && r->Ok_0@ == request,
                    Err(error) => r is Err && r->Err_0@ == error,
                }
            }),
            old(store)@.wf() ==> final(store)@.wf(),
    {
        let ghost before = self@.pending_dialogs;
        match self.pending_dialogs.remove(request_id) {
            None => {
                assert(self.pending_dialogs@ =~= before);
                Err(
                    RunRpcControllerError::UnknownExtensionDialog { request_id: request_id.clone() },
                )
            },
            Some(pending) => {
                match store.apply(
                    self.run_id,
                    RunMutation::UiRequestClosed { request_id: request_id.clone() },
                    now_unix_ms,
                ) {
                    Err(error) => {
                        self.pending_dialogs.insert(request_id.clone(), pending);
                        assert(self.pending_dialogs@ =~= before);
                        Err(RunRpcControllerError::Runtime(error))
                    },
                    Ok(()) => {
                        self.pending_dialog_bytes =
                        self.pending_dialog_bytes.saturating_sub(pending.request.resident_bytes());
                        Ok(pending.request)
                    },
                }
            },
        }
    }

    /// The questions that Pi has given up on by `now_ms`, in order.
    fn expired_dialogs(&self, now_ms: u64) -> (r: Vec<String>)
        ensures
            lists_expired(self@, r@, now_ms),
    {
        let n: usize = self.pending_dialogs.len();
        let ghost keys = self.pending_dialogs.key_models();
        let ghost mut places: Seq<int> = Seq::empty();
        let mut r: Vec<String> = Vec::new();
        let mut i: usize = 0;
        while i < n
            invariant
                i <= n == keys.len(),
                keys == self.pending_dialogs.key_models(),
                strictly_ordered::<String>(keys),
                self.pending_dialogs@.dom() == keys.to_set(),
                places.len() == r@.len(),
                forall|k: int|
                    0 <= k < places.len() ==> 0 <= #[trigger] places[k] < i && keys[places[k]]
                        == r@[k]@ && self@.dialog_expired(keys[places[k]], now_ms),
                forall|a: int, b: int|
                    0 <= a < b < places.len() ==> #[trigger] places[a] < #[trigger] places[b],
                forall|j: int|
                    0 <= j < i && self@.dialog_expired(#[trigger] keys[j], now_ms)
                        ==> places.contains(j),
            decreases n - i,
        {
            let dialog = self.pending_dialogs.value_at(i);
            let due = match dialog.expires_at_ms {
                Some(at) => at <= now_ms,
                None => false,
            };
            assert(self.pending_dialogs@.contains_key(keys[i as int]));
            assert(due == self@.dialog_expired(keys[i as int], now_ms));
            if due {
                let ghost before = places;
                r.push(self.pending_dialogs.key_at(i).clone());
                proof {
                    places = places.push(i as int);
                    assert forall|j: int|
                        0 <= j < i + 1 && self@.dialog_expired(
                            #[trigger] keys[j],
                            now_ms,
                        ) implies places.contains(j) by {
                        if j == i {
                            assert(places[before.len() as int] == j);
                        } else {
                            let k = before.index_of(j);
                            assert(before.contains(j));
                            assert(places[k] == j);
                        }
                    }
                }
            }
            i += 1;
        }
        proof {
            let ids = texts_view(r@);
            assert forall|a: int, b: int| 0 <= a < b < ids.len() implies text_before(
                #[trigger] ids[a],
                #[trigger] ids[b],
            ) by {
                assert(places[a] < places[b]);
                assert(<String as OrderedKey>::before(keys[places[a]], keys[places[b]]));
            }
            assert forall|id: Seq<char>|
                ids.contains(id) <==> #[trigger] self@.dialog_expired(id, now_ms) by {
                if ids.contains(id) {
                    let k = ids.index_of(id);
                    assert(ids[k] == id);
                    assert(keys[places[k]] == r@[k]@);
                }
                if self@.dialog_expired(id, now_ms) {
                    assert(keys.to_set().contains(id));
                    let j = keys.index_of(id);
                    assert(keys[j] == id);
                    let k = places.index_of(j);
                    assert(places.contains(j));
                    assert(places[k] == j);
                    assert(ids[k] == id);
                }
            }
        }
        r
    }

    fn expire_extension_dialogs(
        &mut self,
        now_ms: u64,
        store: &mut RuntimeStore,
        now_unix_ms: u64,
    ) -> (r: Result<Vec<String>, RunRpcControllerError>)
        ensures
            exists|ids: Seq<String>|
                #![trigger old(self)@.dialogs_answered(ids, old(store)@, now_unix_ms)]
                {
                    let step = old(self)@.dialogs_answered(ids, old(store)@, now_unix_ms);
                    &&& lists_expired(old(self)@, ids, now_ms)
                    &&& final(self)@ == step.controller
                    &&& final(store)@ == step.store
                    &&& match step.result {
                        Ok(_) => r is Ok && r->Ok_0@ == ids,
                        Err(error) => r is Err && r->Err_0@ == error,
                    }
                },
            old(store)@.wf() ==> final(store)@.wf(),
    {
        let ghost start = self@;
        let ghost start_store = store@;
        let expired = self.expired_dialogs(now_ms);
        let mut i: usize = 0;
        assert(expired@.take(0) =~= Seq::<String>::empty());
        while i < expired.len()
            invariant
                i <= expired@.len(),
                start == old(self)@,
                start_store == old(store)@,
                lists_expired(start, expired@, now_ms),
                start.dialogs_answered(expired@.take(i as int), start_store, now_unix_ms) == (
                ControllerStep { controller: self@, store: store@, result: Ok(()) }),
                start_store.wf() ==> store@.wf(),
            decreases expired@.len() - i,
        {
            assert(expired@.take(i + 1).drop_last() =~= expired@.take(i as int));
            match self.complete_extension_ui_response(&expired[i], store, now_unix_ms) {
                Ok(_) => {},
                Err(error) => {
                    proof {
                        lemma_answered_prefix(start, expired@, i + 1, start_store, now_unix_ms);
                    }
                    return Err(error);
                },
            }
            i += 1;
        }
        assert(expired@.take(i as int) =~= expired@);
        Ok(expired)
    }
}

/// Owner of one live run's request correlation, command barriers, streamed
/// projection and extension dialogs. The process and its input and output are
/// owned elsewhere.
#[derive(Debug)]
pub struct RunRpcController {
    state: ControllerState,
}

impl View for RunRpcController {
    type V = ControllerView;

    closed spec fn view(&self) -> ControllerView {
        self.state@
    }
}

impl RunRpcController {
    #[verifier::type_invariant]
    closed spec fn is_coherent(&self) -> bool {
        coherent(self.state@)
    }

    pub fn new(run_id: RunId, limits: RuntimeLimits) -> (r: Self)
        ensures
            r@ == ControllerView::fresh(run_id, limits),
            coherent(r@),
    {
        proof {
            fresh_controller_is_coherent(run_id, limits);
        }
        RunRpcController { state: ControllerState::new(run_id, limits) }
    }

    pub fn run_id(&self) -> (r: RunId)
        ensures
            r == self@.run_id,
    {
        self.state.run_id()
    }

    /// Registers everything that a request holds before its frame is written. If
    /// the write fails, the caller cancels the request.
    pub fn begin_request(&mut self, request: &RpcRequest, expires_at_ms: Option<u64>) -> (r: Result<
        (),
        RunRpcControllerError,
    >)
        ensures
            match old(self)@.request_refusal(*request) {
                Some(error) => r is Err && r->Err_0@ == error && final(self)@ == old(self)@,
                None => r is Ok && final(self)@ == old(self)@.with_request(*request, expires_at_ms),
            },
            coherent(old(self)@),
            coherent(final(self)@),
    {
        proof {
            use_type_invariant(&*self);
        }
        let ghost before = self@;
        let mut state = ControllerState::new(self.state.run_id, self.state.limits);
        core::mem::swap(&mut state, &mut self.state);
        let r = state.begin_request(request, expires_at_ms);
        proof {
            if before.request_refusal(*request) is None {
                beginning_keeps_coherence(before, *request, expires_at_ms);
            }
        }
        self.state = state;
        r
    }

    /// Releases everything that a request held which never reached Pi or was
    /// given up.
    pub fn cancel_request(&mut self, id: &RequestId) -> (r: CancelledRpcRequest)
        ensures
            final(self)@ == old(self)@.without_request(id@),
            r.session_sync_cancelled == old(self)@.syncs_under(id@),
            match r.pending {
                Some(pending) => {
                    old(self)@.pending.requests.contains_key(id@) && pending@ == old(self)@.pending.requests[id@]
                },
                None => !old(self)@.pending.requests.contains_key(id@),
            },
            match r.active {
                Some(active) => old(self)@.gate.contains_key(id@) && active == old(self)@.gate[id@],
                None => !old(self)@.gate.contains_key(id@),
            },
            match r.direct_bash_preview {
                Some(text) => {
                    old(self)@.live.direct_bash.contains_key(id@) && text@ == old(self)@.live.direct_bash[id@]
                },
                None => !old(self)@.live.direct_bash.contains_key(id@),
            },
            coherent(old(self)@),
            coherent(final(self)@),
    {
        proof {
            use_type_invariant(&*self);
        }
        let ghost before = self@;
        let mut state = ControllerState::new(self.state.run_id, self.state.limits);
        core::mem::swap(&mut state, &mut self.state);
        let r = state.cancel_request(id);
        proof {
            cancelling_keeps_coherence(before, id@);
        }
        self.state = state;
        r
    }

    /// Applies one event of Pi to the projection and to the run. Kinds of events
    /// that are not known change nothing.
    pub fn apply_event(
        &mut self,
        event: RpcEvent,
        store: &mut RuntimeStore,
        now_ms: u64,
        now_unix_ms: u64,
    ) -> (r: Result<RunRpcEffect, RunRpcControllerError>)
        ensures
            exists|error_message: Option<String>|
                optional_view(error_message) == old(self)@.message_error(event)
                    && #[trigger] stepped(
                    old(self)@.event_applied(
                        event,
                        old(store)@,
                        now_ms,
                        now_unix_ms,
                        error_message,
                    ),
                    final(self)@,
                    final(store)@,
                    r,
                ),
            old(store)@.wf() ==> final(store)@.wf(),
            coherent(old(self)@),
            coherent(final(self)@),
    {
        proof {
            use_type_invariant(&*self);
        }
        let ghost before = self@;
        let ghost store_before = store@;
        let mut state = ControllerState::new(self.state.run_id, self.state.limits);
        core::mem::swap(&mut state, &mut self.state);
        let r = state.apply_event(event, store, now_ms, now_unix_ms);
        proof {
            lemma_event_coherence(
                before,
                event,
                store_before,
                now_ms,
                now_unix_ms,
                state@,
                store@,
                r,
            );
        }
        let ghost error_message = choose|error_message: Option<String>|
            optional_view(error_message) == before.message_error(event) && #[trigger] stepped(
                before.event_applied(event, store_before, now_ms, now_unix_ms, error_message),
                state@,
                store@,
                r,
            );
        self.state = state;
        assert(stepped(
            before.event_applied(event, store_before, now_ms, now_unix_ms, error_message),
            self@,
            store@,
            r,
        ));
        r
    }

    /// Correlates a response with its request, releases what the request held and
    /// applies what the response says.
    pub fn complete_response(
        &mut self,
        response: &RpcResponse,
        store: &mut RuntimeStore,
        now_unix_ms: u64,
    ) -> (r: Result<CompletedRpcRequest, RunRpcControllerError>)
        ensures
            completed(
                old(self)@.response_completed(*response, old(store)@, now_unix_ms),
                final(self)@,
                final(store)@,
                r,
            ),
            old(store)@.wf() ==> final(store)@.wf(),
            coherent(old(self)@),
            coherent(final(self)@),
    {
        proof {
            use_type_invariant(&*self);
        }
        let ghost before = self@;
        let ghost store_before = store@;
        let mut state = ControllerState::new(self.state.run_id, self.state.limits);
        core::mem::swap(&mut state, &mut self.state);
        let r = state.complete_response(response, store, now_unix_ms);
        proof {
            responding_keeps_coherence(before, *response, store_before, now_unix_ms);
        }
        self.state = state;
        r
    }

    /// A picture of this controller.
    pub fn hydration_snapshot(&self, now_ms: u64) -> (r: RunRpcHydrationSnapshot)
        ensures
            self@.pictured(r, now_ms),
            coherent(self@),
            self@.live.within_limits(),
    {
        proof {
            use_type_invariant(self);
        }
        self.state.hydration_snapshot(now_ms)
    }

    pub fn live_projection(&self) -> (r: &LiveProjection)
        ensures
            r@ == self@.live,
    {
        self.state.live_projection()
    }

    pub fn pending_request_count(&self) -> (n: usize)
        ensures
            n == self@.pending.requests.dom().len(),
            coherent(self@),
    {
        proof {
            use_type_invariant(self);
        }
        self.state.pending_request_count()
    }

    pub fn active_command_count(&self) -> (n: usize)
        ensures
            n == self@.gate.dom().len(),
            coherent(self@),
    {
        proof {
            use_type_invariant(self);
        }
        self.state.active_command_count()
    }

    pub fn capabilities(&self) -> (r: &RunCapabilities)
        ensures
            r@ == self@.capabilities,
    {
        self.state.capabilities()
    }

    pub fn extension_ui_state(&self) -> (r: &ExtensionUiState)
        ensures
            r@ == self@.extension_ui,
    {
        self.state.extension_ui_state()
    }

    pub fn session_sync_state(&self) -> (r: &SessionSyncState)
        ensures
            r@ == self@.session_sync,
    {
        self.state.session_sync_state()
    }

    /// Sets the cursor after the session was read from disk.
    pub fn seed_session_sync(&mut self, cursor: Option<String>, leaf_id: Option<String>) -> (r:
        Result<(), RunRpcControllerError>)
        ensures
            match old(self)@.session_sync_request {
                Some(active) => r is Err && r->Err_0@ == (ControllerErrorView::SessionSyncInFlight {
                    request_id: active.request_id@,
                }) && final(self)@ == old(self)@,
                None => match SessionSyncView::seed_refusal(
                    optional_view(cursor),
                    optional_view(leaf_id),
                    old(self)@.limits,
                ) {
                    Some(error) => r is Err && r->Err_0@ == ControllerErrorView::SessionSync(error)
                        && final(self)@ == old(self)@,
                    None => r is Ok && final(self)@ == (ControllerView {
                        session_sync: old(self)@.session_sync.seeded(
                            optional_view(cursor),
                            optional_view(leaf_id),
                        ),
                        ..old(self)@
                    }),
                },
            },
            coherent(old(self)@),
            coherent(final(self)@),
    {
        proof {
            use_type_invariant(&*self);
        }
        let ghost before = self@;
        let mut state = ControllerState::new(self.state.run_id, self.state.limits);
        core::mem::swap(&mut state, &mut self.state);
        let r = state.seed_session_sync(cursor, leaf_id);
        proof {
            lemma_same_owners(before, state@);
        }
        self.state = state;
        r
    }

    /// The open questions, in the order of their identities.
    pub fn pending_extension_dialogs(&self) -> (r: Vec<&ExtensionDialogRequest>)
        ensures
            r@.len() == self.dialog_ids().len(),
            self.dialog_ids().to_set() == self@.pending_dialogs.dom(),
            strictly_ordered::<String>(self.dialog_ids()),
            forall|i: int|
                0 <= i < r@.len() ==> (#[trigger] r@[i])@
                    == self@.pending_dialogs[self.dialog_ids()[i]].request,
            coherent(self@),
    {
        proof {
            use_type_invariant(self);
        }
        self.state.pending_extension_dialogs()
    }

    /// The identities of the open questions, in order.
    pub closed spec fn dialog_ids(&self) -> Seq<Seq<char>> {
        self.state.dialog_ids()
    }

    pub fn has_pending_extension_dialogs(&self) -> (r: bool)
        ensures
            r == (self@.pending_dialogs.dom().len() > 0),
    {
        self.state.has_pending_extension_dialogs()
    }

    /// Whether the question `id` is open.
    pub fn has_pending_extension_dialog(&self, id: &String) -> (r: bool)
        ensures
            r == self@.pending_dialogs.contains_key(id@),
            coherent(self@),
    {
        proof {
            use_type_invariant(self);
        }
        self.state.has_pending_extension_dialog(id)
    }

    /// The queue that Pi last showed. It never becomes part of a hydration, and
    /// serves only where Pi refuses to give its queue back.
    pub fn observed_queue_recovery(&self) -> (r: &ClearQueueResult)
        ensures
            r@ == self@.observed_queue_recovery,
    {
        self.state.observed_queue_recovery()
    }

    /// Sets the advisory that the stream is quiet, and says whether that changed
    /// anything.
    pub fn set_stream_stalled(&mut self, stalled: bool) -> (changed: bool)
        ensures
            changed == (old(self)@.stream_stalled != stalled),
            final(self)@ == (ControllerView { stream_stalled: stalled, ..old(self)@ }),
            coherent(old(self)@),
            coherent(final(self)@),
    {
        proof {
            use_type_invariant(&*self);
        }
        let ghost before = self@;
        let mut state = ControllerState::new(self.state.run_id, self.state.limits);
        core::mem::swap(&mut state, &mut self.state);
        let r = state.set_stream_stalled(stalled);
        proof {
            lemma_same_owners(before, state@);
        }
        self.state = state;
        r
    }

    /// The earliest moment at which Pi gives up on a question.
    pub fn next_extension_dialog_expiry(&self) -> (next: Option<u64>)
        ensures
            self@.is_next_expiry(next),
    {
        self.state.next_extension_dialog_expiry()
    }

    /// Revokes everything that only a live process could answer for. What is known
    /// of the session and of the capabilities stays for inspection.
    pub fn process_ended(&mut self)
        ensures
            final(self)@ == old(self)@.ended(),
            coherent(old(self)@),
            coherent(final(self)@),
    {
        proof {
            use_type_invariant(&*self);
        }
        let ghost before = self@;
        let mut state = ControllerState::new(self.state.run_id, self.state.limits);
        core::mem::swap(&mut state, &mut self.state);
        state.process_ended();
        proof {
            ended_controller_holds_nothing(before);
        }
        self.state = state;
    }

    /// Closes a question once its answer has been written: nothing acknowledges it.
    pub fn complete_extension_ui_response(
        &mut self,
        request_id: &String,
        store: &mut RuntimeStore,
        now_unix_ms: u64,
    ) -> (r: Result<ExtensionDialogRequest, RunRpcControllerError>)
        ensures
            ({
                let step = old(self)@.dialog_answered(*request_id, old(store)@, now_unix_ms);
                &&& final(self)@ == step.controller
                &&& final(store)@ == step.store
                &&& match step.result {
                    Ok(request) => r is Ok && r->Ok_0@ == request,
                    Err(error) => r is Err && r->Err_0@ == error,
                }
            }),
            old(store)@.wf() ==> final(store)@.wf(),
            coherent(old(self)@),
            coherent(final(self)@),
    {
        proof {
            use_type_invariant(&*self);
        }
        let ghost before = self@;
        let ghost store_before = store@;
        let mut state = ControllerState::new(self.state.run_id, self.state.limits);
        core::mem::swap(&mut state, &mut self.state);
        let r = state.complete_extension_ui_response(request_id, store, now_unix_ms);
        proof {
            answering_keeps_coherence(before, *request_id, store_before, now_unix_ms);
        }
        self.state = state;
        r
    }

    /// Closes the questions that Pi has given up on, and lists them.
    pub fn expire_extension_dialogs(
        &mut self,
        now_ms: u64,
        store: &mut RuntimeStore,
        now_unix_ms: u64,
    ) -> (r: Result<Vec<String>, RunRpcControllerError>)
        ensures
            exists|ids: Seq<String>|
                #![trigger old(self)@.dialogs_answered(ids, old(store)@, now_unix_ms)]
                {
                    let step = old(self)@.dialogs_answered(ids, old(store)@, now_unix_ms);
                    &&& lists_expired(old(self)@, ids, now_ms)
                    &&& final(self)@ == step.controller
                    &&& final(store)@ == step.store
                    &&& match step.result {
                        Ok(_) => r is Ok && r->Ok_0@ == ids,
                        Err(error) => r is Err && r->Err_0@ == error,
                    }
                },
            old(store)@.wf() ==> final(store)@.wf(),
            coherent(old(self)@),
            coherent(final(self)@),
    {
        proof {
            use_type_invariant(&*self);
        }
        let ghost before = self@;
        let ghost store_before = store@;
        let mut state = ControllerState::new(self.state.run_id, self.state.limits);
        core::mem::swap(&mut state, &mut self.state);
        let r = state.expire_extension_dialogs(now_ms, store, now_unix_ms);
        proof {
            let ids = choose|ids: Seq<String>|
                #![trigger before.dialogs_answered(ids, store_before, now_unix_ms)]
                {
                    let step = before.dialogs_answered(ids, store_before, now_unix_ms);
                    &&& lists_expired(before, ids, now_ms)
                    &&& state@ == step.controller
                    &&& store@ == step.store
                    &&& match step.result {
                        Ok(_) => r is Ok && r->Ok_0@ == ids,
                        Err(error) => r is Err && r->Err_0@ == error,
                    }
                };
            lemma_answers_keep_coherence(before, ids, store_before, now_unix_ms);
        }
        self.state = state;
        r
    }
}

proof fn lemma_answered_prefix(
    controller: ControllerView,
    ids: Seq<String>,
    n: int,
    store: RuntimeStoreView,
    now_unix_ms: u64,
)
    requires
        0 <= n <= ids.len(),
        controller.dialogs_answered(ids.take(n), store, now_unix_ms).result is Err,
    ensures
        controller.dialogs_answered(ids, store, now_unix_ms) == controller.dialogs_answered(
            ids.take(n),
            store,
            now_unix_ms,
        ),
    decreases ids.len(),
{
    if n == ids.len() {
        assert(ids.take(n) =~= ids);
    } else {
        assert(ids.drop_last().take(n) =~= ids.take(n));
        lemma_answered_prefix(controller, ids.drop_last(), n, store, now_unix_ms);
    }
}

/// Whether a step ended in this state and returned this.
pub open spec fn completed(
    step: ControllerStep<CompletedRpcView>,
    controller: ControllerView,
    store: RuntimeStoreView,
    returned: Result<CompletedRpcRequest, RunRpcControllerError>,
) -> bool {
    &&& controller == step.controller
    &&& store == step.store
    &&& match step.result {
        Ok(request) => returned is Ok && returned->Ok_0@ == request,
        Err(error) => returned is Err && returned->Err_0@ == error,
    }
}

fn observe(snapshot: RpcStateSnapshot) -> (r: RunStateObservation)
    ensures
        r == observation_of(snapshot),
{
    RunStateObservation {
        model: match snapshot.model {
            Some(model) => Some(
                RunModelState {
                    provider: model.provider,
                    id: model.id,
                    name: model.name,
                    supports_images: model.supports_images,
                },
            ),
            None => None,
        },
        thinking_level: snapshot.thinking_level,
        is_streaming: snapshot.is_streaming,
        is_compacting: snapshot.is_compacting,
        steering_mode: snapshot.steering_mode,
        follow_up_mode: snapshot.follow_up_mode,
        session_file: snapshot.session_file,
        session_id: snapshot.session_id,
        session_name: snapshot.session_name,
        auto_compaction_enabled: snapshot.auto_compaction_enabled,
        message_count: snapshot.message_count,
        pending_message_count: snapshot.pending_message_count,
    }
}

} // verus!
