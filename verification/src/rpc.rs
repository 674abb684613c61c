//! Values exchanged with a Pi child process.
use vstd::prelude::*;
use vstd::string::*;

use crate::ids::RequestId;
use crate::keyed::{KeyMap, OrderedKey};
use crate::limits::RuntimeLimits;
use crate::numbers::{decimal, decimal_text};
use crate::text::{byte_len, copy_optional, copy_texts, same_text, text_bytes};

verus! {

#[derive(Clone, Copy, Debug, PartialEq, Eq, Structural)]
pub enum ThinkingLevel {
    Off,
    Minimal,
    Low,
    Medium,
    High,
    Xhigh,
}

#[derive(Clone, Copy, Debug, PartialEq, Eq, Structural)]
pub enum QueueMode {
    All,
    OneAtATime,
}

/// Why an assistant message ended.
#[derive(Debug, PartialEq, Eq)]
pub enum AssistantStopReason {
    Stop,
    Length,
    ToolUse,
    Error,
    Aborted,
    Other(String),
}

impl Clone for AssistantStopReason {
    fn clone(&self) -> (r: Self)
        ensures
            r == *self,
    {
        match self {
            AssistantStopReason::Stop => AssistantStopReason::Stop,
            AssistantStopReason::Length => AssistantStopReason::Length,
            AssistantStopReason::ToolUse => AssistantStopReason::ToolUse,
            AssistantStopReason::Error => AssistantStopReason::Error,
            AssistantStopReason::Aborted => AssistantStopReason::Aborted,
            AssistantStopReason::Other(name) => AssistantStopReason::Other(name.clone()),
        }
    }
}

/// A model that a run can use.
#[derive(Debug, PartialEq, Eq)]
pub struct ModelSummary {
    pub provider: String,
    pub id: String,
    pub name: Option<String>,
    pub supports_images: Option<bool>,
}

impl Clone for ModelSummary {
    fn clone(&self) -> (r: Self)
        ensures
            r == *self,
    {
        ModelSummary {
            provider: self.provider.clone(),
            id: self.id.clone(),
            name: copy_optional(&self.name),
            supports_images: self.supports_images,
        }
    }
}

/// A command that Pi or one of its extensions offers.
#[derive(Debug, PartialEq, Eq)]
pub struct CommandSummary {
    pub name: String,
    pub description: Option<String>,
    pub source: String,
}

impl Clone for CommandSummary {
    fn clone(&self) -> (r: Self)
        ensures
            r == *self,
    {
        CommandSummary {
            name: self.name.clone(),
            description: copy_optional(&self.description),
            source: self.source.clone(),
        }
    }
}

/// Queued user input that was taken back from Pi.
#[derive(Debug, PartialEq, Eq)]
pub struct ClearQueueResult {
    pub steering: Vec<String>,
    pub follow_up: Vec<String>,
}

/// Model of a [`ClearQueueResult`].
pub struct ClearQueueView {
    pub steering: Seq<String>,
    pub follow_up: Seq<String>,
}

impl ClearQueueView {
    pub open spec fn empty() -> Self {
        ClearQueueView { steering: Seq::empty(), follow_up: Seq::empty() }
    }

    /// Bytes of all the queued input.
    pub open spec fn bytes(self) -> nat {
        all_bytes(self.steering) + all_bytes(self.follow_up)
    }
}

/// Bytes of a list of texts.
pub open spec fn all_bytes(texts: Seq<String>) -> nat
    decreases texts.len(),
{
    if texts.len() == 0 {
        0
    } else {
        all_bytes(texts.drop_last()) + byte_len(texts.last()@)
    }
}

/// A number of bytes as a machine can count it.
pub open spec fn counted(bytes: nat) -> usize {
    if bytes > usize::MAX {
        usize::MAX
    } else {
        bytes as usize
    }
}

impl View for ClearQueueResult {
    type V = ClearQueueView;

    open spec fn view(&self) -> ClearQueueView {
        ClearQueueView { steering: self.steering@, follow_up: self.follow_up@ }
    }
}

impl Clone for ClearQueueResult {
    fn clone(&self) -> (r: Self)
        ensures
            r@ == self@,
    {
        ClearQueueResult {
            steering: copy_texts(&self.steering),
            follow_up: copy_texts(&self.follow_up),
        }
    }
}

impl Default for ClearQueueResult {
    fn default() -> (r: Self)
        ensures
            r@ == ClearQueueView::empty(),
    {
        let r = ClearQueueResult { steering: Vec::new(), follow_up: Vec::new() };
        assert(r@.steering =~= Seq::<String>::empty());
        assert(r@.follow_up =~= Seq::<String>::empty());
        r
    }
}

/// Bytes of a list of texts, at most `usize::MAX`.
pub fn count_bytes(texts: &Vec<String>) -> (n: usize)
    ensures
        n == counted(all_bytes(texts@)),
{
    let mut n: usize = 0;
    let mut i: usize = 0;
    assert(texts@.take(0) =~= Seq::<String>::empty());
    while i < texts.len()
        invariant
            i <= texts@.len(),
            n == counted(all_bytes(texts@.take(i as int))),
        decreases texts@.len() - i,
    {
        assert(texts@.take(i + 1).drop_last() =~= texts@.take(i as int));
        n = n.saturating_add(text_bytes(texts[i].as_str()));
        i += 1;
    }
    assert(texts@.take(i as int) =~= texts@);
    n
}

impl ClearQueueResult {
    /// Bytes of all the queued input, at most `usize::MAX`.
    pub fn resident_bytes(&self) -> (n: usize)
        ensures
            n == counted(self@.bytes()),
    {
        count_bytes(&self.steering).saturating_add(count_bytes(&self.follow_up))
    }
}

/// One entry of a persisted session, with its encoded form.
#[derive(Debug, PartialEq, Eq)]
pub struct SessionEntryEnvelope {
    pub id: String,
    pub parent_id: Option<String>,
    pub entry_type: String,
    pub timestamp: Option<String>,
    pub raw: String,
}

impl Clone for SessionEntryEnvelope {
    fn clone(&self) -> (r: Self)
        ensures
            r == *self,
    {
        SessionEntryEnvelope {
            id: self.id.clone(),
            parent_id: copy_optional(&self.parent_id),
            entry_type: self.entry_type.clone(),
            timestamp: copy_optional(&self.timestamp),
            raw: self.raw.clone(),
        }
    }
}

/// One bounded page of session entries.
#[derive(Debug, PartialEq, Eq)]
pub struct SessionEntriesPage {
    pub entries: Vec<SessionEntryEnvelope>,
    pub leaf_id: Option<String>,
    pub encoded_bytes: usize,
}

/// Model of a [`SessionEntriesPage`].
pub struct SessionEntriesPageView {
    pub entries: Seq<SessionEntryEnvelope>,
    pub leaf_id: Option<String>,
    pub encoded_bytes: usize,
}

impl View for SessionEntriesPage {
    type V = SessionEntriesPageView;

    open spec fn view(&self) -> SessionEntriesPageView {
        SessionEntriesPageView {
            entries: self.entries@,
            leaf_id: self.leaf_id,
            encoded_bytes: self.encoded_bytes,
        }
    }
}

impl Clone for SessionEntriesPage {
    fn clone(&self) -> (r: Self)
        ensures
            r@ == self@,
    {
        let entries = self.entries.clone();
        assert(entries@ =~= self.entries@);
        SessionEntriesPage {
            entries,
            leaf_id: copy_optional(&self.leaf_id),
            encoded_bytes: self.encoded_bytes,
        }
    }
}

/// An image that goes with a message.
#[derive(Clone, Debug, PartialEq, Eq)]
pub struct ImageContent {
    pub data: String,
    pub mime_type: String,
}

#[derive(Clone, Copy, Debug, PartialEq, Eq, Structural)]
pub enum StreamingBehavior {
    Steer,
    FollowUp,
}

/// A command for Pi.
#[derive(Clone, Debug, PartialEq, Eq)]
pub enum RpcCommand {
    Prompt {
        message: String,
        images: Vec<ImageContent>,
        streaming_behavior: Option<StreamingBehavior>,
    },
    Steer { message: String, images: Vec<ImageContent> },
    FollowUp { message: String, images: Vec<ImageContent> },
    ClearQueue,
    Abort,
    GetState,
    GetEntries { since: Option<String> },
    GetAvailableModels,
    GetAvailableThinkingLevels,
    GetCommands,
    GetSessionStats,
    Bash { command: String, exclude_from_context: Option<bool> },
    SetModel { provider: String, model_id: String },
    SetThinkingLevel { level: ThinkingLevel },
    SetAutoCompaction { enabled: bool },
    SetSessionName { name: String },
    Compact { custom_instructions: Option<String> },
    NewSession,
    SwitchSession { session_path: String },
    Fork { entry_id: String },
    Clone,
}

/// Which command a request carries.
#[derive(Clone, Copy, Debug, PartialEq, Eq, Structural)]
pub enum RpcCommandKind {
    Prompt,
    Steer,
    FollowUp,
    ClearQueue,
    Abort,
    GetState,
    GetEntries,
    GetAvailableModels,
    GetAvailableThinkingLevels,
    GetCommands,
    GetSessionStats,
    Bash,
    SetModel,
    SetThinkingLevel,
    SetAutoCompaction,
    SetSessionName,
    Compact,
    NewSession,
    SwitchSession,
    Fork,
    Clone,
}

/// Commands that replace the session stand apart from all others.
#[derive(Clone, Copy, Debug, PartialEq, Eq, Structural)]
pub enum RpcConcurrencyClass {
    Concurrent,
    SessionReplacement,
}

impl RpcCommandKind {
    /// The name of the command on the wire.
    pub open spec fn wire(self) -> &'static str {
        match self {
            RpcCommandKind::Prompt => "prompt",
            RpcCommandKind::Steer => "steer",
            RpcCommandKind::FollowUp => "follow_up",
            RpcCommandKind::ClearQueue => "clear_queue",
            RpcCommandKind::Abort => "abort",
            RpcCommandKind::GetState => "get_state",
            RpcCommandKind::GetEntries => "get_entries",
            RpcCommandKind::GetAvailableModels => "get_available_models",
            RpcCommandKind::GetAvailableThinkingLevels => "get_available_thinking_levels",
            RpcCommandKind::GetCommands => "get_commands",
            RpcCommandKind::GetSessionStats => "get_session_stats",
            RpcCommandKind::Bash => "bash",
            RpcCommandKind::SetModel => "set_model",
            RpcCommandKind::SetThinkingLevel => "set_thinking_level",
            RpcCommandKind::SetAutoCompaction => "set_auto_compaction",
            RpcCommandKind::SetSessionName => "set_session_name",
            RpcCommandKind::Compact => "compact",
            RpcCommandKind::NewSession => "new_session",
            RpcCommandKind::SwitchSession => "switch_session",
            RpcCommandKind::Fork => "fork",
            RpcCommandKind::Clone => "clone",
        }
    }

    pub fn wire_name(self) -> (r: &'static str)
        ensures
            r == self.wire(),
    {
        match self {
            RpcCommandKind::Prompt => "prompt",
            RpcCommandKind::Steer => "steer",
            RpcCommandKind::FollowUp => "follow_up",
            RpcCommandKind::ClearQueue => "clear_queue",
            RpcCommandKind::Abort => "abort",
            RpcCommandKind::GetState => "get_state",
            RpcCommandKind::GetEntries => "get_entries",
            RpcCommandKind::GetAvailableModels => "get_available_models",
            RpcCommandKind::GetAvailableThinkingLevels => "get_available_thinking_levels",
            RpcCommandKind::GetCommands => "get_commands",
            RpcCommandKind::GetSessionStats => "get_session_stats",
            RpcCommandKind::Bash => "bash",
            RpcCommandKind::SetModel => "set_model",
            RpcCommandKind::SetThinkingLevel => "set_thinking_level",
            RpcCommandKind::SetAutoCompaction => "set_auto_compaction",
            RpcCommandKind::SetSessionName => "set_session_name",
            RpcCommandKind::Compact => "compact",
            RpcCommandKind::NewSession => "new_session",
            RpcCommandKind::SwitchSession => "switch_session",
            RpcCommandKind::Fork => "fork",
            RpcCommandKind::Clone => "clone",
        }
    }

    pub open spec fn replaces_session(self) -> bool {
        self == RpcCommandKind::NewSession || self == RpcCommandKind::SwitchSession || self
            == RpcCommandKind::Fork || self == RpcCommandKind::Clone
    }

    pub open spec fn class(self) -> RpcConcurrencyClass {
        if self.replaces_session() {
            RpcConcurrencyClass::SessionReplacement
        } else {
            RpcConcurrencyClass::Concurrent
        }
    }

    pub fn concurrency_class(self) -> (r: RpcConcurrencyClass)
        ensures
            r == self.class(),
    {
        match self {
            RpcCommandKind::NewSession
            | RpcCommandKind::SwitchSession
            | RpcCommandKind::Fork
            | RpcCommandKind::Clone => RpcConcurrencyClass::SessionReplacement,
            _ => RpcConcurrencyClass::Concurrent,
        }
    }
}

impl RpcCommand {
    pub open spec fn spec_kind(self) -> RpcCommandKind {
        match self {
            RpcCommand::Prompt { .. } => RpcCommandKind::Prompt,
            RpcCommand::Steer { .. } => RpcCommandKind::Steer,
            RpcCommand::FollowUp { .. } => RpcCommandKind::FollowUp,
            RpcCommand::ClearQueue => RpcCommandKind::ClearQueue,
            RpcCommand::Abort => RpcCommandKind::Abort,
            RpcCommand::GetState => RpcCommandKind::GetState,
            RpcCommand::GetEntries { .. } => RpcCommandKind::GetEntries,
            RpcCommand::GetAvailableModels => RpcCommandKind::GetAvailableModels,
            RpcCommand::GetAvailableThinkingLevels => RpcCommandKind::GetAvailableThinkingLevels,
            RpcCommand::GetCommands => RpcCommandKind::GetCommands,
            RpcCommand::GetSessionStats => RpcCommandKind::GetSessionStats,
            RpcCommand::Bash { .. } => RpcCommandKind::Bash,
            RpcCommand::SetModel { .. } => RpcCommandKind::SetModel,
            RpcCommand::SetThinkingLevel { .. } => RpcCommandKind::SetThinkingLevel,
            RpcCommand::SetAutoCompaction { .. } => RpcCommandKind::SetAutoCompaction,
            RpcCommand::SetSessionName { .. } => RpcCommandKind::SetSessionName,
            RpcCommand::Compact { .. } => RpcCommandKind::Compact,
            RpcCommand::NewSession => RpcCommandKind::NewSession,
            RpcCommand::SwitchSession { .. } => RpcCommandKind::SwitchSession,
            RpcCommand::Fork { .. } => RpcCommandKind::Fork,
            RpcCommand::Clone => RpcCommandKind::Clone,
        }
    }

    pub fn kind(&self) -> (r: RpcCommandKind)
        ensures
            r == self.spec_kind(),
    {
        match self {
            RpcCommand::Prompt { .. } => RpcCommandKind::Prompt,
            RpcCommand::Steer { .. } => RpcCommandKind::Steer,
            RpcCommand::FollowUp { .. } => RpcCommandKind::FollowUp,
            RpcCommand::ClearQueue => RpcCommandKind::ClearQueue,
            RpcCommand::Abort => RpcCommandKind::Abort,
            RpcCommand::GetState => RpcCommandKind::GetState,
            RpcCommand::GetEntries { .. } => RpcCommandKind::GetEntries,
            RpcCommand::GetAvailableModels => RpcCommandKind::GetAvailableModels,
            RpcCommand::GetAvailableThinkingLevels => RpcCommandKind::GetAvailableThinkingLevels,
            RpcCommand::GetCommands => RpcCommandKind::GetCommands,
            RpcCommand::GetSessionStats => RpcCommandKind::GetSessionStats,
            RpcCommand::Bash { .. } => RpcCommandKind::Bash,
            RpcCommand::SetModel { .. } => RpcCommandKind::SetModel,
            RpcCommand::SetThinkingLevel { .. } => RpcCommandKind::SetThinkingLevel,
            RpcCommand::SetAutoCompaction { .. } => RpcCommandKind::SetAutoCompaction,
            RpcCommand::SetSessionName { .. } => RpcCommandKind::SetSessionName,
            RpcCommand::Compact { .. } => RpcCommandKind::Compact,
            RpcCommand::NewSession => RpcCommandKind::NewSession,
            RpcCommand::SwitchSession { .. } => RpcCommandKind::SwitchSession,
            RpcCommand::Fork { .. } => RpcCommandKind::Fork,
            RpcCommand::Clone => RpcCommandKind::Clone,
        }
    }
}

/// A command with its correlation identity.
#[derive(Clone, Debug, PartialEq, Eq)]
pub struct RpcRequest {
    pub id: RequestId,
    pub command: RpcCommand,
}

impl RpcRequest {
    pub fn with_id(id: RequestId, command: RpcCommand) -> (r: Self)
        ensures
            r.id == id,
            r.command == command,
    {
        RpcRequest { id, command }
    }
}

#[derive(Clone, Copy, Debug, PartialEq, Eq, Structural)]
pub enum RpcResponseOutcome {
    Accepted,
    Rejected,
    /// A Pi extension cancelled the operation.
    Cancelled,
}

/// The state that Pi reports of itself.
#[derive(Debug, PartialEq, Eq)]
pub struct RpcStateSnapshot {
    pub model: Option<ModelSummary>,
    pub thinking_level: ThinkingLevel,
    pub is_streaming: bool,
    pub is_compacting: bool,
    pub steering_mode: QueueMode,
    pub follow_up_mode: QueueMode,
    pub session_file: Option<String>,
    pub session_id: String,
    pub session_name: Option<String>,
    pub auto_compaction_enabled: bool,
    pub message_count: usize,
    pub pending_message_count: usize,
}

impl Clone for RpcStateSnapshot {
    fn clone(&self) -> (r: Self)
        ensures
            r == *self,
    {
        RpcStateSnapshot {
            model: match &self.model {
                Some(model) => Some(model.clone()),
                None => None,
            },
            thinking_level: self.thinking_level,
            is_streaming: self.is_streaming,
            is_compacting: self.is_compacting,
            steering_mode: self.steering_mode,
            follow_up_mode: self.follow_up_mode,
            session_file: copy_optional(&self.session_file),
            session_id: self.session_id.clone(),
            session_name: copy_optional(&self.session_name),
            auto_compaction_enabled: self.auto_compaction_enabled,
            message_count: self.message_count,
            pending_message_count: self.pending_message_count,
        }
    }
}

/// What a response carries beside its outcome.
#[derive(Clone, Debug, PartialEq, Eq)]
pub enum RpcResponsePayload {
    Empty,
    ClearedQueue(ClearQueueResult),
    State(RpcStateSnapshot),
    Models(Vec<ModelSummary>),
    ThinkingLevels(Vec<ThinkingLevel>),
    Commands(Vec<CommandSummary>),
    Entries(SessionEntriesPage),
    /// Data that is none of these.
    Other,
}

/// What is wrong with the data of a response.
#[derive(Clone, Copy, Debug, PartialEq, Eq, Structural)]
pub enum RpcResponsePayloadError {
    /// The data is not what the command answers with.
    UnexpectedData { command: RpcCommandKind },
    RecoveredQueueByteLimit { attempted: usize, limit: usize },
    RuntimeStateByteLimit { attempted: usize, limit: usize },
    SessionEntryLimit { attempted: usize, limit: usize },
    SessionEntryByteLimit { attempted: usize, limit: usize },
}

/// The text `subject <attempted> exceeds limit <limit>`.
pub open spec fn over_limit(subject: Seq<char>, attempted: usize, limit: usize) -> Seq<char> {
    subject + " "@ + decimal(attempted as nat) + " exceeds limit "@ + decimal(limit as nat)
}

fn over_limit_text(subject: &str, attempted: usize, limit: usize) -> (r: String)
    ensures
        r@ == over_limit(subject@, attempted, limit),
{
    let mut r = subject.to_owned();
    r.append(" ");
    r.append(decimal_text(attempted as u64).as_str());
    r.append(" exceeds limit ");
    r.append(decimal_text(limit as u64).as_str());
    r
}

impl RpcResponsePayloadError {
    pub open spec fn text(self) -> Seq<char> {
        match self {
            RpcResponsePayloadError::UnexpectedData { command } =>
                "unexpected response data for "@ + command.wire()@,
            RpcResponsePayloadError::RecoveredQueueByteLimit { attempted, limit } => over_limit(
                "recovered queue bytes"@,
                attempted,
                limit,
            ),
            RpcResponsePayloadError::RuntimeStateByteLimit { attempted, limit } => over_limit(
                "runtime state bytes"@,
                attempted,
                limit,
            ),
            RpcResponsePayloadError::SessionEntryLimit { attempted, limit } => over_limit(
                "session entry count"@,
                attempted,
                limit,
            ),
            RpcResponsePayloadError::SessionEntryByteLimit { attempted, limit } => over_limit(
                "session entry page bytes"@,
                attempted,
                limit,
            ),
        }
    }

    /// The error as a sentence.
    pub fn message(self) -> (r: String)
        ensures
            r@ == self.text(),
    {
        match self {
            RpcResponsePayloadError::UnexpectedData { command } => {
                let mut r = "unexpected response data for ".to_owned();
                r.append(command.wire_name());
                r
            },
            RpcResponsePayloadError::RecoveredQueueByteLimit { attempted, limit } =>
                over_limit_text("recovered queue bytes", attempted, limit),
            RpcResponsePayloadError::RuntimeStateByteLimit { attempted, limit } =>
                over_limit_text("runtime state bytes", attempted, limit),
            RpcResponsePayloadError::SessionEntryLimit { attempted, limit } => over_limit_text(
                "session entry count",
                attempted,
                limit,
            ),
            RpcResponsePayloadError::SessionEntryByteLimit { attempted, limit } =>
                over_limit_text("session entry page bytes", attempted, limit),
        }
    }
}

/// One response of Pi.
#[derive(Clone, Debug, PartialEq, Eq)]
pub struct RpcResponse {
    pub id: Option<String>,
    pub command: String,
    pub success: bool,
    /// Set where a Pi extension cancelled the operation.
    pub cancelled: bool,
    pub payload: RpcResponsePayload,
    pub error: Option<String>,
}

/// Bytes of the identity in a state report.
pub open spec fn snapshot_bytes(snapshot: RpcStateSnapshot) -> nat {
    (match snapshot.model {
        Some(model) => byte_len(model.provider@) + byte_len(model.id@) + optional_text_len(
            model.name,
        ),
        None => 0,
    }) + optional_text_len(snapshot.session_file) + byte_len(snapshot.session_id@)
        + optional_text_len(snapshot.session_name)
}

pub open spec fn optional_text_len(value: Option<String>) -> nat {
    match value {
        Some(text) => byte_len(text@),
        None => 0,
    }
}

fn count_optional(value: &Option<String>) -> (n: usize)
    ensures
        n == optional_text_len(*value),
{
    match value {
        Some(text) => text_bytes(text.as_str()),
        None => 0,
    }
}

impl RpcResponse {
    pub open spec fn spec_outcome(self) -> RpcResponseOutcome {
        if !self.success {
            RpcResponseOutcome::Rejected
        } else if self.cancelled {
            RpcResponseOutcome::Cancelled
        } else {
            RpcResponseOutcome::Accepted
        }
    }

    pub fn outcome(&self) -> (r: RpcResponseOutcome)
        ensures
            r == self.spec_outcome(),
    {
        if !self.success {
            RpcResponseOutcome::Rejected
        } else if self.cancelled {
            RpcResponseOutcome::Cancelled
        } else {
            RpcResponseOutcome::Accepted
        }
    }

    /// What stands against the queue in this response, if anything does.
    pub open spec fn queue_refusal(self, limits: RuntimeLimits) -> Option<RpcResponsePayloadError> {
        match self.payload {
            RpcResponsePayload::ClearedQueue(queue) => if counted(queue@.bytes())
                > limits.max_recovered_queue_bytes_per_run {
                Some(
                    RpcResponsePayloadError::RecoveredQueueByteLimit {
                        attempted: counted(queue@.bytes()),
                        limit: limits.max_recovered_queue_bytes_per_run,
                    },
                )
            } else {
                None
            },
            _ => Some(
                RpcResponsePayloadError::UnexpectedData { command: RpcCommandKind::ClearQueue },
            ),
        }
    }

    /// The queue that Pi gave back, within its bound.
    pub fn clear_queue_result(&self, limits: RuntimeLimits) -> (r: Result<
        ClearQueueResult,
        RpcResponsePayloadError,
    >)
        ensures
            match r {
                Ok(queue) => self.queue_refusal(limits) is None && queue@
                    == self.payload->ClearedQueue_0@,
                Err(error) => self.queue_refusal(limits) == Some(error),
            },
    {
        match &self.payload {
            RpcResponsePayload::ClearedQueue(queue) => {
                let attempted: usize = queue.resident_bytes();
                if attempted > limits.max_recovered_queue_bytes_per_run {
                    Err(
                        RpcResponsePayloadError::RecoveredQueueByteLimit {
                            attempted,
                            limit: limits.max_recovered_queue_bytes_per_run,
                        },
                    )
                } else {
                    Ok(queue.clone())
                }
            },
            _ => Err(
                RpcResponsePayloadError::UnexpectedData { command: RpcCommandKind::ClearQueue },
            ),
        }
    }

    /// What stands against the page in this response, if anything does.
    pub open spec fn page_refusal(self, limits: RuntimeLimits) -> Option<RpcResponsePayloadError> {
        match self.payload {
            RpcResponsePayload::Entries(page) => if page.entries@.len()
                > limits.max_session_entries_per_page {
                Some(
                    RpcResponsePayloadError::SessionEntryLimit {
                        attempted: page.entries@.len() as usize,
                        limit: limits.max_session_entries_per_page,
                    },
                )
            } else if page.encoded_bytes > limits.max_session_entry_page_bytes {
                Some(
                    RpcResponsePayloadError::SessionEntryByteLimit {
                        attempted: page.encoded_bytes,
                        limit: limits.max_session_entry_page_bytes,
                    },
                )
            } else {
                None
            },
            _ => Some(
                RpcResponsePayloadError::UnexpectedData { command: RpcCommandKind::GetEntries },
            ),
        }
    }

    /// The page of session entries, within its bounds.
    pub fn entries_page(&self, limits: RuntimeLimits) -> (r: Result<
        SessionEntriesPage,
        RpcResponsePayloadError,
    >)
        ensures
            match r {
                Ok(page) => self.page_refusal(limits) is None && page@
                    == self.payload->Entries_0@,
                Err(error) => self.page_refusal(limits) == Some(error),
            },
    {
        match &self.payload {
            RpcResponsePayload::Entries(page) => {
                if page.entries.len() > limits.max_session_entries_per_page {
                    Err(
                        RpcResponsePayloadError::SessionEntryLimit {
                            attempted: page.entries.len(),
                            limit: limits.max_session_entries_per_page,
                        },
                    )
                } else if page.encoded_bytes > limits.max_session_entry_page_bytes {
                    Err(
                        RpcResponsePayloadError::SessionEntryByteLimit {
                            attempted: page.encoded_bytes,
                            limit: limits.max_session_entry_page_bytes,
                        },
                    )
                } else {
                    Ok(page.clone())
                }
            },
            _ => Err(
                RpcResponsePayloadError::UnexpectedData { command: RpcCommandKind::GetEntries },
            ),
        }
    }

    /// What stands against the state in this response, if anything does.
    pub open spec fn state_refusal(self, limits: RuntimeLimits) -> Option<RpcResponsePayloadError> {
        match self.payload {
            RpcResponsePayload::State(snapshot) => if counted(snapshot_bytes(snapshot))
                > limits.max_runtime_state_bytes_per_run {
                Some(
                    RpcResponsePayloadError::RuntimeStateByteLimit {
                        attempted: counted(snapshot_bytes(snapshot)),
                        limit: limits.max_runtime_state_bytes_per_run,
                    },
                )
            } else {
                None
            },
            _ => Some(
                RpcResponsePayloadError::UnexpectedData { command: RpcCommandKind::GetState },
            ),
        }
    }

    /// The state of Pi, within its bound.
    pub fn state_snapshot(&self, limits: RuntimeLimits) -> (r: Result<
        RpcStateSnapshot,
        RpcResponsePayloadError,
    >)
        ensures
            match r {
                Ok(snapshot) => self.state_refusal(limits) is None && snapshot
                    == self.payload->State_0,
                Err(error) => self.state_refusal(limits) == Some(error),
            },
    {
        match &self.payload {
            RpcResponsePayload::State(snapshot) => {
                let model_bytes: usize = match &snapshot.model {
                    Some(model) => text_bytes(model.provider.as_str()).saturating_add(
                        text_bytes(model.id.as_str()),
                    ).saturating_add(count_optional(&model.name)),
                    None => 0,
                };
                let attempted: usize = model_bytes.saturating_add(
                    count_optional(&snapshot.session_file),
                ).saturating_add(text_bytes(snapshot.session_id.as_str())).saturating_add(
                    count_optional(&snapshot.session_name),
                );
                if attempted > limits.max_runtime_state_bytes_per_run {
                    Err(
                        RpcResponsePayloadError::RuntimeStateByteLimit {
                            attempted,
                            limit: limits.max_runtime_state_bytes_per_run,
                        },
                    )
                } else {
                    Ok(snapshot.clone())
                }
            },
            _ => Err(RpcResponsePayloadError::UnexpectedData { command: RpcCommandKind::GetState }),
        }
    }

    pub fn available_models(&self) -> (r: Result<Vec<ModelSummary>, RpcResponsePayloadError>)
        ensures
            match self.payload {
                RpcResponsePayload::Models(models) => r is Ok && r->Ok_0@ == models@,
                _ => r == Err::<Vec<ModelSummary>, RpcResponsePayloadError>(
                    RpcResponsePayloadError::UnexpectedData {
                        command: RpcCommandKind::GetAvailableModels,
                    },
                ),
            },
    {
        match &self.payload {
            RpcResponsePayload::Models(models) => {
                let copy = models.clone();
                assert(copy@ =~= models@);
                Ok(copy)
            },
            _ => Err(
                RpcResponsePayloadError::UnexpectedData {
                    command: RpcCommandKind::GetAvailableModels,
                },
            ),
        }
    }

    pub fn available_thinking_levels(&self) -> (r: Result<
        Vec<ThinkingLevel>,
        RpcResponsePayloadError,
    >)
        ensures
            match self.payload {
                RpcResponsePayload::ThinkingLevels(levels) => r is Ok && r->Ok_0@ == levels@,
                _ => r == Err::<Vec<ThinkingLevel>, RpcResponsePayloadError>(
                    RpcResponsePayloadError::UnexpectedData {
                        command: RpcCommandKind::GetAvailableThinkingLevels,
                    },
                ),
            },
    {
        match &self.payload {
            RpcResponsePayload::ThinkingLevels(levels) => {
                let copy = levels.clone();
                assert(copy@ =~= levels@);
                Ok(copy)
            },
            _ => Err(
                RpcResponsePayloadError::UnexpectedData {
                    command: RpcCommandKind::GetAvailableThinkingLevels,
                },
            ),
        }
    }

    pub fn available_commands(&self) -> (r: Result<Vec<CommandSummary>, RpcResponsePayloadError>)
        ensures
            match self.payload {
                RpcResponsePayload::Commands(commands) => r is Ok && r->Ok_0@ == commands@,
                _ => r == Err::<Vec<CommandSummary>, RpcResponsePayloadError>(
                    RpcResponsePayloadError::UnexpectedData {
                        command: RpcCommandKind::GetCommands,
                    },
                ),
            },
    {
        match &self.payload {
            RpcResponsePayload::Commands(commands) => {
                let copy = commands.clone();
                assert(copy@ =~= commands@);
                Ok(copy)
            },
            _ => Err(
                RpcResponsePayloadError::UnexpectedData { command: RpcCommandKind::GetCommands },
            ),
        }
    }
}

/// A request that waits for its response.
#[derive(Debug, PartialEq, Eq)]
pub struct PendingRequest {
    pub id: RequestId,
    pub command: RpcCommandKind,
    /// When its owner gives up on it, in milliseconds of the runtime's clock.
    pub expires_at_ms: Option<u64>,
}

/// Model of a [`PendingRequest`].
pub struct PendingRequestView {
    pub id: Seq<char>,
    pub command: RpcCommandKind,
    pub expires_at_ms: Option<u64>,
}

impl View for PendingRequest {
    type V = PendingRequestView;

    open spec fn view(&self) -> PendingRequestView {
        PendingRequestView {
            id: self.id@,
            command: self.command,
            expires_at_ms: self.expires_at_ms,
        }
    }
}

/// Why a request cannot be registered or a response not correlated.
#[derive(Debug, PartialEq, Eq)]
pub enum PendingRequestError {
    DuplicateRequest { request_id: RequestId },
    TooManyRequests { limit: usize },
    MissingResponseId,
    UnknownResponse { id: String },
    CommandMismatch { id: String, expected: RpcCommandKind },
}

/// The requests of one run that wait for their responses.
#[derive(Debug)]
pub struct PendingRequests {
    requests: KeyMap<RequestId, PendingRequest>,
    limit: usize,
}

/// Model of [`PendingRequests`].
pub struct PendingRequestsView {
    pub requests: Map<Seq<char>, PendingRequestView>,
    pub limit: usize,
}

impl View for PendingRequests {
    type V = PendingRequestsView;

    closed spec fn view(&self) -> PendingRequestsView {
        PendingRequestsView { requests: self.requests@, limit: self.limit }
    }
}

impl PendingRequestsView {
    pub open spec fn empty(limits: RuntimeLimits) -> Self {
        PendingRequestsView {
            requests: Map::empty(),
            limit: limits.max_pending_rpc_requests_per_run,
        }
    }

    /// Why `request` cannot be registered, if it cannot.
    pub open spec fn refusal(self, request: RpcRequest) -> Option<PendingRequestError> {
        if self.requests.contains_key(request.id@) {
            Some(PendingRequestError::DuplicateRequest { request_id: request.id })
        } else if self.requests.dom().len() >= self.limit {
            Some(PendingRequestError::TooManyRequests { limit: self.limit })
        } else {
            None
        }
    }

    pub open spec fn registered(self, request: RpcRequest, expires_at_ms: Option<u64>) -> Self {
        PendingRequestsView {
            requests: self.requests.insert(
                request.id@,
                PendingRequestView {
                    id: request.id@,
                    command: request.command.spec_kind(),
                    expires_at_ms,
                },
            ),
            ..self
        }
    }

    pub open spec fn without(self, id: Seq<char>) -> Self {
        PendingRequestsView { requests: self.requests.remove(id), ..self }
    }

    /// Why `response` answers no pending request, if it does not.
    pub open spec fn mismatch(self, response: RpcResponse) -> Option<PendingRequestError> {
        match response.id {
            None => Some(PendingRequestError::MissingResponseId),
            Some(id) => if !self.requests.contains_key(id@) {
                Some(PendingRequestError::UnknownResponse { id })
            } else if self.requests[id@].command.wire()@ != response.command@ {
                Some(
                    PendingRequestError::CommandMismatch {
                        id,
                        expected: self.requests[id@].command,
                    },
                )
            } else {
                None
            },
        }
    }
}

impl PendingRequests {
    pub fn from_limits(limits: RuntimeLimits) -> (r: Self)
        ensures
            r@ == PendingRequestsView::empty(limits),
    {
        PendingRequests {
            requests: KeyMap::new(),
            limit: limits.max_pending_rpc_requests_per_run,
        }
    }

    pub fn len(&self) -> (n: usize)
        ensures
            n == self@.requests.dom().len(),
    {
        self.requests.len()
    }

    pub fn register(&mut self, request: &RpcRequest, expires_at_ms: Option<u64>) -> (r: Result<
        (),
        PendingRequestError,
    >)
        ensures
            match old(self)@.refusal(*request) {
                Some(error) => {
                    r == Err::<(), PendingRequestError>(error) && final(self)@ == old(self)@
                },
                None => r is Ok && final(self)@ == old(self)@.registered(*request, expires_at_ms),
            },
    {
        if self.requests.contains_key(&request.id) {
            return Err(PendingRequestError::DuplicateRequest { request_id: request.id.clone() });
        }
        if self.requests.len() >= self.limit {
            return Err(PendingRequestError::TooManyRequests { limit: self.limit });
        }
        let id = request.id.clone();
        self.requests.insert(
            request.id.clone(),
            PendingRequest { id, command: request.command.kind(), expires_at_ms },
        );
        Ok(())
    }

    /// Forgets a request.
    pub fn cancel(&mut self, id: &RequestId) -> (r: Option<PendingRequest>)
        ensures
            final(self)@ == old(self)@.without(id@),
            match r {
                Some(request) => {
                    old(self)@.requests.contains_key(id@) && request@ == old(self)@.requests[id@]
                },
                None => !old(self)@.requests.contains_key(id@),
            },
    {
        self.requests.remove(id)
    }

    /// Takes out the request that `response` answers.
    pub fn complete(&mut self, response: &RpcResponse) -> (r: Result<
        PendingRequest,
        PendingRequestError,
    >)
        ensures
            match old(self)@.mismatch(*response) {
                Some(error) => {
                    r == Err::<PendingRequest, PendingRequestError>(error) && final(self)@ == old(self)@
                },
                None => r is Ok && r->Ok_0@ == old(self)@.requests[response.id->0@] && final(self)@
                    == old(self)@.without(response.id->0@),
            },
    {
        let ghost before = self@;
        let id = match &response.id {
            Some(id) => id,
            None => {
                return Err(PendingRequestError::MissingResponseId);
            },
        };
        let key = RequestId::from_wire(id.as_str());
        match self.requests.get(&key) {
            None => {
                return Err(PendingRequestError::UnknownResponse { id: id.clone() });
            },
            Some(pending) => {
                if !same_text(pending.command.wire_name(), response.command.as_str()) {
                    let expected = pending.command;
                    return Err(PendingRequestError::CommandMismatch { id: id.clone(), expected });
                }
            },
        }
        match self.requests.remove(&key) {
            Some(pending) => Ok(pending),
            None => Err(PendingRequestError::UnknownResponse { id: id.clone() }),
        }
    }
}

/// A command that was handed to Pi and has not been answered.
#[derive(Clone, Copy, Debug, PartialEq, Eq, Structural)]
pub struct ActiveRpcCommand {
    pub command: RpcCommandKind,
    pub class: RpcConcurrencyClass,
}

impl View for ActiveRpcCommand {
    type V = ActiveRpcCommand;

    open spec fn view(&self) -> ActiveRpcCommand {
        *self
    }
}

impl ActiveRpcCommand {
    pub open spec fn of(command: RpcCommand) -> Self {
        ActiveRpcCommand { command: command.spec_kind(), class: command.spec_kind().class() }
    }
}

/// Why a command cannot start now.
#[derive(Debug, PartialEq, Eq)]
pub enum RpcGateError {
    DuplicateCommand { request_id: RequestId },
    SessionReplacementInFlight,
}

/// The commands of one run that are active. At most one of them replaces the
/// session.
#[derive(Debug)]
pub struct RpcCommandGate {
    active: KeyMap<RequestId, ActiveRpcCommand>,
}

/// Whether a session replacement is among the active commands.
pub open spec fn replacement_active(active: Map<Seq<char>, ActiveRpcCommand>) -> bool {
    exists|id: Seq<char>| #[trigger]
        active.contains_key(id) && active[id].class == RpcConcurrencyClass::SessionReplacement
}

/// Why `request` cannot start beside the active commands, if it cannot.
pub open spec fn gate_refusal(
    active: Map<Seq<char>, ActiveRpcCommand>,
    request: RpcRequest,
) -> Option<RpcGateError> {
    if active.contains_key(request.id@) {
        Some(RpcGateError::DuplicateCommand { request_id: request.id })
    } else if request.command.spec_kind().replaces_session() && replacement_active(active) {
        Some(RpcGateError::SessionReplacementInFlight)
    } else {
        None
    }
}

impl View for RpcCommandGate {
    type V = Map<Seq<char>, ActiveRpcCommand>;

    closed spec fn view(&self) -> Map<Seq<char>, ActiveRpcCommand> {
        self.active@
    }
}

impl RpcCommandGate {
    pub fn new() -> (r: Self)
        ensures
            r@ == Map::<Seq<char>, ActiveRpcCommand>::empty(),
    {
        RpcCommandGate { active: KeyMap::new() }
    }

    pub fn len(&self) -> (n: usize)
        ensures
            n == self@.dom().len(),
    {
        self.active.len()
    }

    fn replacement_in_flight(&self) -> (r: bool)
        ensures
            r == replacement_active(self@),
    {
        let n: usize = self.active.len();
        let mut i: usize = 0;
        while i < n
            invariant
                i <= n == self.active.key_models().len(),
                self.active@.dom() == self.active.key_models().to_set(),
                forall|k: int|
                    0 <= k < i ==> self.active@[#[trigger] self.active.key_models()[k]].class
                        != RpcConcurrencyClass::SessionReplacement,
            decreases n - i,
        {
            match self.active.value_at(i).class {
                RpcConcurrencyClass::SessionReplacement => {
                    assert(self@.contains_key(self.active.key_models()[i as int]));
                    return true;
                },
                RpcConcurrencyClass::Concurrent => {},
            }
            i += 1;
        }
        proof {
            assert forall|id: Seq<char>| #[trigger] self@.contains_key(id) implies self@[id].class
                != RpcConcurrencyClass::SessionReplacement by {
                assert(self.active.key_models().to_set().contains(id));
                let k = self.active.key_models().index_of(id);
                assert(self.active.key_models()[k] == id);
            }
        }
        false
    }

    /// Admits a command, or refuses it and changes nothing.
    pub fn begin(&mut self, request: &RpcRequest) -> (r: Result<(), RpcGateError>)
        ensures
            match gate_refusal(old(self)@, *request) {
                Some(error) => r == Err::<(), RpcGateError>(error) && final(self)@ == old(self)@,
                None => r is Ok && final(self)@ == old(self)@.insert(
                    request.id@,
                    ActiveRpcCommand::of(request.command),
                ),
            },
    {
        if self.active.contains_key(&request.id) {
            return Err(RpcGateError::DuplicateCommand { request_id: request.id.clone() });
        }
        let command = request.command.kind();
        let class = command.concurrency_class();
        match class {
            RpcConcurrencyClass::SessionReplacement => {
                if self.replacement_in_flight() {
                    return Err(RpcGateError::SessionReplacementInFlight);
                }
            },
            RpcConcurrencyClass::Concurrent => {},
        }
        self.active.insert(request.id.clone(), ActiveRpcCommand { command, class });
        Ok(())
    }

    /// Releases what a command held.
    pub fn finish(&mut self, id: &RequestId) -> (r: Option<ActiveRpcCommand>)
        ensures
            final(self)@ == old(self)@.remove(id@),
            r == (if old(self)@.contains_key(id@) {
                Some(old(self)@[id@])
            } else {
                None
            }),
    {
        self.active.remove(id)
    }
}

} // verus!
