//! What the manager asks to be done.
use vstd::prelude::*;
use vstd::string::*;

use crate::events::{ExtensionNotifyType, ExtensionUiResponse};
use crate::ids::{RequestId, RunId};
use crate::rpc::{RpcRequest, RpcResponse, SessionEntriesPage, SessionEntriesPageView};
use crate::runtime::coalescing::{UiCoalesceKey, UiCoalesceKeyView};
use crate::runtime::composer::{ComposerAction, ComposerSubmitResult};
use crate::runtime::state::ProcessState;
use crate::runtime::stop_recovery::RuntimeStopResult;
use crate::text::optional_view;

verus! {

/// What a renderer is told about a run.
#[derive(Debug, PartialEq, Eq)]
pub enum UiNotice {
    StateChanged { runtime_revision: u64 },
    AssistantMessageReset,
    /// The block as it stands is shown.
    AssistantBlock { content_index: usize },
    /// The preview of the tool as it stands is shown.
    Tool { tool_call_id: String },
    /// The output of the command as it stands is shown.
    DirectBash { request_id: RequestId },
    ToolFinished {
        tool_call_id: String,
        tool_name: String,
        output: String,
        dropped_bytes: u64,
        is_error: bool,
    },
    CapabilitiesChanged { revision: u64 },
    SessionSyncChanged { revision: u64, resync_required: bool },
    ExtensionDialogsChanged,
    ExtensionNotification { message: String, notify_type: ExtensionNotifyType },
    ExtensionUiStateChanged,
    EditorTextChanged,
    DraftChanged,
    ComposerChanged,
    ProcessTerminal { process: ProcessState },
}

/// Model of a [`UiNotice`].
pub enum NoticeView {
    StateChanged { runtime_revision: u64 },
    AssistantMessageReset,
    AssistantBlock { content_index: usize },
    Tool { tool_call_id: Seq<char> },
    DirectBash { request_id: Seq<char> },
    ToolFinished {
        tool_call_id: Seq<char>,
        tool_name: Seq<char>,
        output: Seq<char>,
        dropped_bytes: u64,
        is_error: bool,
    },
    CapabilitiesChanged { revision: u64 },
    SessionSyncChanged { revision: u64, resync_required: bool },
    ExtensionDialogsChanged,
    ExtensionNotification { message: Seq<char>, notify_type: ExtensionNotifyType },
    ExtensionUiStateChanged,
    EditorTextChanged,
    DraftChanged,
    ComposerChanged,
    ProcessTerminal { process: ProcessState },
}

impl View for UiNotice {
    type V = NoticeView;

    open spec fn view(&self) -> NoticeView {
        match *self {
            UiNotice::StateChanged { runtime_revision } => NoticeView::StateChanged {
                runtime_revision,
            },
            UiNotice::AssistantMessageReset => NoticeView::AssistantMessageReset,
            UiNotice::AssistantBlock { content_index } => NoticeView::AssistantBlock {
                content_index,
            },
            UiNotice::Tool { tool_call_id } => NoticeView::Tool { tool_call_id: tool_call_id@ },
            UiNotice::DirectBash { request_id } => NoticeView::DirectBash {
                request_id: request_id@,
            },
            UiNotice::ToolFinished {
                tool_call_id,
                tool_name,
                output,
                dropped_bytes,
                is_error,
            } => NoticeView::ToolFinished {
                tool_call_id: tool_call_id@,
                tool_name: tool_name@,
                output: output@,
                dropped_bytes,
                is_error,
            },
            UiNotice::CapabilitiesChanged { revision } => NoticeView::CapabilitiesChanged {
                revision,
            },
            UiNotice::SessionSyncChanged { revision, resync_required } => {
                NoticeView::SessionSyncChanged { revision, resync_required }
            },
            UiNotice::ExtensionDialogsChanged => NoticeView::ExtensionDialogsChanged,
            UiNotice::ExtensionNotification { message, notify_type } => {
                NoticeView::ExtensionNotification { message: message@, notify_type }
            },
            UiNotice::ExtensionUiStateChanged => NoticeView::ExtensionUiStateChanged,
            UiNotice::EditorTextChanged => NoticeView::EditorTextChanged,
            UiNotice::DraftChanged => NoticeView::DraftChanged,
            UiNotice::ComposerChanged => NoticeView::ComposerChanged,
            UiNotice::ProcessTerminal { process } => NoticeView::ProcessTerminal { process },
        }
    }
}

/// A request that was answered, with what the answer brought.
#[derive(Clone, Debug, PartialEq, Eq)]
pub struct ManagedRpcCompletion {
    pub response: RpcResponse,
    pub session_entries: Option<SessionEntriesPage>,
    pub session_resync_required: bool,
}

/// Model of a [`ManagedRpcCompletion`].
pub struct CompletionView {
    pub response: RpcResponse,
    pub session_entries: Option<SessionEntriesPageView>,
    pub session_resync_required: bool,
}

impl View for ManagedRpcCompletion {
    type V = CompletionView;

    open spec fn view(&self) -> CompletionView {
        CompletionView {
            response: self.response,
            session_entries: match self.session_entries {
                Some(page) => Some(page@),
                None => None,
            },
            session_resync_required: self.session_resync_required,
        }
    }
}

#[derive(Clone, Copy, Debug, PartialEq, Eq, Structural)]
pub struct SessionReplacementResult {
    pub cancelled: bool,
}

#[derive(Clone, Copy, Debug, PartialEq, Eq, Structural)]
pub struct RuntimeShutdownReport {
    pub terminal_runs: usize,
    pub quarantined_runs: usize,
    pub draft_flush_failed_sessions: usize,
}

/// What one who waits is answered.
#[derive(Debug, PartialEq, Eq)]
pub enum ManagerReply {
    Done,
    Refused(String),
    /// No answer will come: the way back is closed.
    Dropped,
    Completed(ManagedRpcCompletion),
    ShutDown(RuntimeShutdownReport),
}

/// Model of a [`ManagerReply`].
pub enum ReplyView {
    Done,
    Refused(Seq<char>),
    Dropped,
    Completed(CompletionView),
    ShutDown(RuntimeShutdownReport),
}

impl View for ManagerReply {
    type V = ReplyView;

    open spec fn view(&self) -> ReplyView {
        match *self {
            ManagerReply::Done => ReplyView::Done,
            ManagerReply::Refused(detail) => ReplyView::Refused(detail@),
            ManagerReply::Dropped => ReplyView::Dropped,
            ManagerReply::Completed(completion) => ReplyView::Completed(completion@),
            ManagerReply::ShutDown(report) => ReplyView::ShutDown(report),
        }
    }
}

/// Something to be done.
#[allow(inconsistent_fields)]
#[derive(Debug, PartialEq, Eq)]
pub enum ManagerAction {
    SendRequest { run_id: RunId, request: RpcRequest },
    SendExtensionResponse { run_id: RunId, response: ExtensionUiResponse },
    Terminate { run_id: RunId, deadline_ms: u64 },
    Reply { ticket: u64, reply: ManagerReply },
    Notify { run_id: RunId, notice: UiNotice },
    Wake { run_id: RunId },
    LoadDraft { session_id: String },
    SaveDraft { session_id: String },
    /// The draft becomes the text that an extension put into the editor.
    SetDraft { run_id: RunId, text: String },
    /// The sender of a draft is answered.
    AnswerSender { ticket: u64, result: ComposerSubmitResult },
    /// The recovered messages go into the draft; then who asked for the Stop is
    /// answered.
    FinishStop { run_id: RunId, ticket: u64, result: RuntimeStopResult },
}

/// Model of a [`ManagerAction`].
#[allow(inconsistent_fields)]
pub enum ActionView {
    SendRequest { run_id: RunId, request: RpcRequest },
    SendExtensionResponse { run_id: RunId, response: ExtensionUiResponse },
    Terminate { run_id: RunId, deadline_ms: u64 },
    Reply { ticket: u64, reply: ReplyView },
    Notify { run_id: RunId, notice: NoticeView },
    Wake { run_id: RunId },
    LoadDraft { session_id: Seq<char> },
    SaveDraft { session_id: Seq<char> },
    SetDraft { run_id: RunId, text: Seq<char> },
    AnswerSender {
        ticket: u64,
        action: ComposerAction,
        accepted: bool,
        draft_cleared: bool,
        error: Option<Seq<char>>,
    },
    FinishStop {
        run_id: RunId,
        ticket: u64,
        steering: Seq<String>,
        follow_up: Seq<String>,
        draft_restored: bool,
        draft_restore_error: Option<Seq<char>>,
        process_terminated: bool,
        quarantined: bool,
    },
}

impl View for ManagerAction {
    type V = ActionView;

    open spec fn view(&self) -> ActionView {
        match *self {
            ManagerAction::SendRequest { run_id, request } => ActionView::SendRequest {
                run_id,
                request,
            },
            ManagerAction::SendExtensionResponse { run_id, response } => {
                ActionView::SendExtensionResponse { run_id, response }
            },
            ManagerAction::Terminate { run_id, deadline_ms } => ActionView::Terminate {
                run_id,
                deadline_ms,
            },
            ManagerAction::Reply { ticket, reply } => ActionView::Reply { ticket, reply: reply@ },
            ManagerAction::Notify { run_id, notice } => ActionView::Notify {
                run_id,
                notice: notice@,
            },
            ManagerAction::Wake { run_id } => ActionView::Wake { run_id },
            ManagerAction::LoadDraft { session_id } => ActionView::LoadDraft {
                session_id: session_id@,
            },
            ManagerAction::SaveDraft { session_id } => ActionView::SaveDraft {
                session_id: session_id@,
            },
            ManagerAction::SetDraft { run_id, text } => ActionView::SetDraft {
                run_id,
                text: text@,
            },
            ManagerAction::AnswerSender { ticket, result } => ActionView::AnswerSender {
                ticket,
                action: result.action,
                accepted: result.accepted,
                draft_cleared: result.draft_cleared,
                error: optional_view(result.error),
            },
            ManagerAction::FinishStop { run_id, ticket, result } => ActionView::FinishStop {
                run_id,
                ticket,
                steering: result.recovered_steering@,
                follow_up: result.recovered_follow_up@,
                draft_restored: result.draft_restored,
                draft_restore_error: optional_view(result.draft_restore_error),
                process_terminated: result.process_terminated,
                quarantined: result.quarantined,
            },
        }
    }
}

/// What progress a notice shows: only the newest of each counts.
pub open spec fn display_key(notice: NoticeView) -> Option<UiCoalesceKeyView> {
    match notice {
        NoticeView::AssistantBlock { content_index } => Some(
            UiCoalesceKeyView::AssistantBlock(content_index),
        ),
        NoticeView::Tool { tool_call_id } => Some(UiCoalesceKeyView::ToolPreview(tool_call_id)),
        NoticeView::DirectBash { request_id } => Some(UiCoalesceKeyView::DirectBash(request_id)),
        _ => None,
    }
}

impl UiNotice {
    /// What progress the notice shows, if it shows any.
    pub fn coalesce_key(&self) -> (r: Option<UiCoalesceKey>)
        ensures
            match r {
                Some(key) => display_key(self@) == Some(key@),
                None => display_key(self@) is None,
            },
    {
        match self {
            UiNotice::AssistantBlock { content_index } => Some(
                UiCoalesceKey::AssistantBlock(*content_index),
            ),
            UiNotice::Tool { tool_call_id } => Some(
                UiCoalesceKey::ToolPreview(tool_call_id.clone()),
            ),
            UiNotice::DirectBash { request_id } => Some(
                UiCoalesceKey::DirectBash(request_id.clone()),
            ),
            _ => None,
        }
    }
}

} // verus!
