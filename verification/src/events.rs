//! Events of a Pi child process, decoded.
use vstd::prelude::*;
use vstd::string::*;

use crate::ids::RequestId;
use crate::rpc::{
    all_bytes, count_bytes, counted, AssistantStopReason, ClearQueueResult, RpcResponse,
    ThinkingLevel,
};
use crate::text::{
    byte_len, copy_optional, copy_texts, optional_view, text_bytes,
};

verus! {

#[derive(Clone, Copy, Debug, PartialEq, Eq, Structural)]
pub enum AssistantMessageBlockKind {
    Text,
    Thinking,
    ToolCall,
}

/// One piece of a streaming assistant message.
#[derive(Debug, PartialEq, Eq)]
pub enum AssistantMessageUpdate {
    Start { content_index: usize, kind: AssistantMessageBlockKind },
    Delta { content_index: usize, kind: AssistantMessageBlockKind, delta: String },
    End { content_index: usize, kind: AssistantMessageBlockKind, content: Option<String> },
    /// A kind of update that is not known here.
    Unknown,
}

/// A completed assistant message.
#[derive(Debug, PartialEq, Eq)]
pub struct AssistantMessageEnd {
    pub stop_reason: AssistantStopReason,
    pub error_message: Option<String>,
    pub blocks: Vec<(usize, AssistantMessageBlockKind, String)>,
}

#[derive(Clone, Copy, Debug, PartialEq, Eq, Structural)]
pub enum ExtensionNotifyType {
    Info,
    Warning,
    Error,
}

#[derive(Clone, Copy, Debug, PartialEq, Eq, Structural)]
pub enum ExtensionWidgetPlacement {
    AboveEditor,
    BelowEditor,
}

#[derive(Clone, Copy, Debug, PartialEq, Eq, Structural)]
pub enum ExtensionDialogMethod {
    Select,
    Confirm,
    Input,
    Editor,
}

/// A question of an extension that the user has to answer.
#[derive(Debug, PartialEq, Eq)]
pub struct ExtensionDialogRequest {
    pub id: String,
    pub method: ExtensionDialogMethod,
    pub title: String,
    pub message: Option<String>,
    pub options: Vec<String>,
    pub text: Option<String>,
    pub timeout_ms: Option<u64>,
}

/// Model of an [`ExtensionDialogRequest`].
pub struct ExtensionDialogView {
    pub id: Seq<char>,
    pub method: ExtensionDialogMethod,
    pub title: Seq<char>,
    pub message: Option<Seq<char>>,
    pub options: Seq<String>,
    pub text: Option<Seq<char>>,
    pub timeout_ms: Option<u64>,
}

impl View for ExtensionDialogRequest {
    type V = ExtensionDialogView;

    open spec fn view(&self) -> ExtensionDialogView {
        ExtensionDialogView {
            id: self.id@,
            method: self.method,
            title: self.title@,
            message: optional_view(self.message),
            options: self.options@,
            text: optional_view(self.text),
            timeout_ms: self.timeout_ms,
        }
    }
}

impl Clone for ExtensionDialogRequest {
    fn clone(&self) -> (r: Self)
        ensures
            r@ == self@,
    {
        ExtensionDialogRequest {
            id: self.id.clone(),
            method: self.method,
            title: self.title.clone(),
            message: copy_optional(&self.message),
            options: copy_texts(&self.options),
            text: copy_optional(&self.text),
            timeout_ms: self.timeout_ms,
        }
    }
}

/// Bytes of an optional text.
pub open spec fn optional_chars_bytes(value: Option<Seq<char>>) -> nat {
    match value {
        Some(text) => byte_len(text),
        None => 0,
    }
}

impl ExtensionDialogView {
    /// Bytes that the question takes while it is open.
    pub open spec fn bytes(self) -> nat {
        byte_len(self.id) + byte_len(self.title) + optional_chars_bytes(self.message) + all_bytes(
            self.options,
        ) + optional_chars_bytes(self.text)
    }
}

fn count_optional_text(value: &Option<String>) -> (n: usize)
    ensures
        n == optional_chars_bytes(optional_view(*value)),
{
    match value {
        Some(text) => text_bytes(text.as_str()),
        None => 0,
    }
}

impl ExtensionDialogRequest {
    /// Bytes that the question takes, at most `usize::MAX`.
    pub fn resident_bytes(&self) -> (n: usize)
        ensures
            n == counted(self@.bytes()),
    {
        text_bytes(self.id.as_str()).saturating_add(text_bytes(self.title.as_str())).saturating_add(
            count_optional_text(&self.message),
        ).saturating_add(count_bytes(&self.options)).saturating_add(
            count_optional_text(&self.text),
        )
    }
}

/// Something an extension shows without asking.
#[allow(inconsistent_fields)]
#[derive(Debug, PartialEq, Eq)]
pub enum ExtensionFireAndForget {
    Notify { message: String, notify_type: ExtensionNotifyType },
    SetStatus { key: String, text: Option<String> },
    SetWidget { key: String, lines: Option<Vec<String>>, placement: ExtensionWidgetPlacement },
    SetTitle { title: String },
    SetEditorText { text: String },
}

#[derive(Debug, PartialEq, Eq)]
pub enum ExtensionUiRequest {
    Dialog(ExtensionDialogRequest),
    FireAndForget(ExtensionFireAndForget),
    /// A method that is not known here.
    Unknown,
}

/// What an answer to a question says.
#[derive(Clone, Debug, PartialEq, Eq)]
pub enum ExtensionUiResponse {
    Value { id: String, value: String },
    Confirmation { id: String, confirmed: bool },
    Cancelled { id: String },
}

/// The data of an event is not what its kind carries.
#[derive(Clone, Copy, Debug, PartialEq, Eq, Structural)]
pub enum RpcEventPayloadError {
    Malformed,
    QueueByteLimit { attempted: usize, limit: usize },
}

/// The data of an extension UI request is not what its method carries.
#[derive(Clone, Copy, Debug, PartialEq, Eq, Structural)]
pub enum ExtensionUiParseError {
    Malformed,
    TooLarge { attempted: usize, limit: usize },
}

/// One event of Pi.
#[allow(inconsistent_fields)]
#[derive(Debug, PartialEq, Eq)]
pub enum RpcEvent {
    AgentStart,
    AgentSettled,
    CompactionStart { reason: String },
    CompactionEnd {
        reason: String,
        aborted: bool,
        will_retry: bool,
        error_message: Option<String>,
    },
    AutoRetryStart { attempt: usize, max_attempts: usize, delay_ms: u64, error_message: String },
    AutoRetryEnd { attempt: usize, success: bool, final_error: Option<String> },
    SummarizationRetryScheduled {
        attempt: usize,
        max_attempts: usize,
        delay_ms: u64,
        error_message: String,
    },
    SummarizationRetryAttemptStart { source: String, reason: Option<String> },
    SummarizationRetryFinished,
    ExtensionError { extension_path: String, event: String, error: String },
    QueueUpdate(ClearQueueResult),
    SessionInfoChanged { name: Option<String> },
    ThinkingLevelChanged(ThinkingLevel),
    MessageStart,
    MessageUpdate(AssistantMessageUpdate),
    /// The end of an assistant message, or of a message of another role.
    MessageEnd(Option<AssistantMessageEnd>),
    ToolExecutionStart { tool_call_id: String, tool_name: String },
    ToolExecutionUpdate { tool_call_id: String, accumulated_text: String },
    ToolExecutionEnd {
        tool_call_id: String,
        tool_name: String,
        final_text: String,
        is_error: bool,
    },
    BashExecutionUpdate { request_id: Option<RequestId>, delta: String },
    ExtensionUiRequest(ExtensionUiRequest),
    /// An event whose data could not be decoded.
    Malformed(RpcEventPayloadError),
    MalformedExtensionUi(ExtensionUiParseError),
    /// An event of another kind.
    Other,
}

/// One message of Pi.
#[derive(Debug, PartialEq, Eq)]
pub enum InboundMessage {
    Event(RpcEvent),
    Response(RpcResponse),
}

} // verus!
