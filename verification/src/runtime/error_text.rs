//! What is told of the errors of a run.
use vstd::prelude::*;
use vstd::string::*;

use crate::events::{ExtensionUiParseError, RpcEventPayloadError};
use crate::ids::{id_digits, id_text};
use crate::numbers::{decimal, decimal_text};
use crate::rpc::{PendingRequestError, RpcGateError};
use crate::runtime::coalescing::UiBacklogError;
use crate::runtime::extension_ui::ExtensionUiError;
use crate::runtime::projection::{AssistantContentKind, ProjectionError};
use crate::runtime::rpc_controller::{ControllerErrorView, RunRpcControllerError};
use crate::runtime::session_sync::{SessionSyncError, SessionSyncErrorView};
use crate::runtime::state::{ProcessState, RuntimeError};
use crate::runtime::stop::StopTransactionError;
use crate::text::optional_view;
use crate::worktree_error::{optional_text, write_optional};

verus! {

/// The name of a state of the process.
pub open spec fn process_name(process: ProcessState) -> Seq<char> {
    match process {
        ProcessState::Starting => "Starting"@,
        ProcessState::Ready => "Ready"@,
        ProcessState::Stopping => "Stopping"@,
        ProcessState::Exited => "Exited"@,
        ProcessState::Failed => "Failed"@,
        ProcessState::Quarantined => "Quarantined"@,
    }
}

fn write_process(process: ProcessState) -> (r: &'static str)
    ensures
        r@ == process_name(process),
{
    match process {
        ProcessState::Starting => "Starting",
        ProcessState::Ready => "Ready",
        ProcessState::Stopping => "Stopping",
        ProcessState::Exited => "Exited",
        ProcessState::Failed => "Failed",
        ProcessState::Quarantined => "Quarantined",
    }
}

/// The name of a kind of assistant content.
pub open spec fn content_name(kind: AssistantContentKind) -> Seq<char> {
    match kind {
        AssistantContentKind::Text => "Text"@,
        AssistantContentKind::Thinking => "Thinking"@,
        AssistantContentKind::ToolCall => "ToolCall"@,
    }
}

fn write_content(kind: AssistantContentKind) -> (r: &'static str)
    ensures
        r@ == content_name(kind),
{
    match kind {
        AssistantContentKind::Text => "Text",
        AssistantContentKind::Thinking => "Thinking",
        AssistantContentKind::ToolCall => "ToolCall",
    }
}

impl RuntimeError {
    pub open spec fn text(self) -> Seq<char> {
        match self {
            RuntimeError::DuplicateRun { run_id } => {
                "run "@ + id_digits(run_id.value) + " is already registered"@
            },
            RuntimeError::UnknownRun { run_id } => {
                "run "@ + id_digits(run_id.value) + " is not registered"@
            },
            RuntimeError::InvalidProcessState { mutation, actual } => {
                "mutation "@ + mutation@ + " is invalid while process is "@ + process_name(actual)
            },
            RuntimeError::PendingUiLimit { limit } => {
                "pending extension UI request limit "@ + decimal(limit as nat) + " reached"@
            },
            RuntimeError::DuplicateUiRequest { request_id } => {
                "extension UI request "@ + request_id@ + " is already pending"@
            },
            RuntimeError::UnknownUiRequest { request_id } => {
                "extension UI request "@ + request_id@ + " is not pending"@
            },
            RuntimeError::AbortWhileIdle => "cannot request abort while the agent is idle"@,
            RuntimeError::RemoveLiveRun { run_id } => {
                "cannot remove live run "@ + id_digits(run_id.value)
            },
            RuntimeError::UnexpectedWorktreeIdentity => {
                "local-checkout run cannot retain Git worktree identity"@
            },
            RuntimeError::MissingWorktreeIdentity => {
                "Git-worktree run requires immutable worktree identity"@
            },
            RuntimeError::WorktreeExecutionRootMismatch { execution_root, worktree_root } => {
                "run execution root "@ + execution_root@ + " is not inside worktree root "@
                    + worktree_root@
            },
        }
    }

    /// The error as a sentence.
    pub fn message(&self) -> (r: String)
        ensures
            r@ == self.text(),
    {
        match self {
            RuntimeError::DuplicateRun { run_id } => {
                let mut r = "run ".to_owned();
                r.append(id_text(run_id.value).as_str());
                r.append(" is already registered");
                r
            },
            RuntimeError::UnknownRun { run_id } => {
                let mut r = "run ".to_owned();
                r.append(id_text(run_id.value).as_str());
                r.append(" is not registered");
                r
            },
            RuntimeError::InvalidProcessState { mutation, actual } => {
                let mut r = "mutation ".to_owned();
                r.append(mutation);
                r.append(" is invalid while process is ");
                r.append(write_process(*actual));
                r
            },
            RuntimeError::PendingUiLimit { limit } => {
                let mut r = "pending extension UI request limit ".to_owned();
                r.append(decimal_text(*limit as u64).as_str());
                r.append(" reached");
                r
            },
            RuntimeError::DuplicateUiRequest { request_id } => {
                let mut r = "extension UI request ".to_owned();
                r.append(request_id.as_str());
                r.append(" is already pending");
                r
            },
            RuntimeError::UnknownUiRequest { request_id } => {
                let mut r = "extension UI request ".to_owned();
                r.append(request_id.as_str());
                r.append(" is not pending");
                r
            },
            RuntimeError::AbortWhileIdle => {
                "cannot request abort while the agent is idle".to_owned()
            },
            RuntimeError::RemoveLiveRun { run_id } => {
                let mut r = "cannot remove live run ".to_owned();
                r.append(id_text(run_id.value).as_str());
                r
            },
            RuntimeError::UnexpectedWorktreeIdentity => {
                "local-checkout run cannot retain Git worktree identity".to_owned()
            },
            RuntimeError::MissingWorktreeIdentity => {
                "Git-worktree run requires immutable worktree identity".to_owned()
            },
            RuntimeError::WorktreeExecutionRootMismatch { execution_root, worktree_root } => {
                let mut r = "run execution root ".to_owned();
                r.append(execution_root.as_str());
                r.append(" is not inside worktree root ");
                r.append(worktree_root.as_str());
                r
            },
        }
    }
}

impl StopTransactionError {
    pub open spec fn text(self) -> Seq<char> {
        match self {
            StopTransactionError::UnknownRun { run_id } => {
                "run "@ + id_digits(run_id.value) + " is not registered"@
            },
            StopTransactionError::AlreadyStopping { run_id } => {
                "run "@ + id_digits(run_id.value) + " is already stopping"@
            },
            StopTransactionError::TerminalRun { run_id, process } => {
                "run "@ + id_digits(run_id.value) + " is already terminal in state "@
                    + process_name(process)
            },
            StopTransactionError::UnexpectedResponseId { expected, actual } => {
                "Stop response id "@ + optional_text(optional_view(actual))
                    + " did not match expected request "@ + expected@
            },
            StopTransactionError::Runtime(error) => error.text(),
        }
    }

    /// The error as a sentence.
    pub fn message(&self) -> (r: String)
        ensures
            r@ == self.text(),
    {
        match self {
            StopTransactionError::UnknownRun { run_id } => {
                let mut r = "run ".to_owned();
                r.append(id_text(run_id.value).as_str());
                r.append(" is not registered");
                r
            },
            StopTransactionError::AlreadyStopping { run_id } => {
                let mut r = "run ".to_owned();
                r.append(id_text(run_id.value).as_str());
                r.append(" is already stopping");
                r
            },
            StopTransactionError::TerminalRun { run_id, process } => {
                let mut r = "run ".to_owned();
                r.append(id_text(run_id.value).as_str());
                r.append(" is already terminal in state ");
                r.append(write_process(*process));
                r
            },
            StopTransactionError::UnexpectedResponseId { expected, actual } => {
                let mut r = "Stop response id ".to_owned();
                r.append(write_optional(actual).as_str());
                r.append(" did not match expected request ");
                r.append(expected.as_str());
                r
            },
            StopTransactionError::Runtime(error) => error.message(),
        }
    }
}

impl ProjectionError {
    pub open spec fn text(self) -> Seq<char> {
        match self {
            ProjectionError::DuplicateAssistantBlock { content_index } => {
                "assistant content block "@ + decimal(content_index as nat)
                    + " is already active"@
            },
            ProjectionError::TooManyAssistantBlocks { limit } => {
                "assistant content block limit "@ + decimal(limit as nat) + " reached"@
            },
            ProjectionError::UnknownAssistantBlock { content_index } => {
                "assistant content block "@ + decimal(content_index as nat) + " has not started"@
            },
            ProjectionError::AssistantBlockKindMismatch { content_index, expected, actual } => {
                "assistant content block "@ + decimal(content_index as nat)
                    + " kind mismatch: expected "@ + content_name(expected) + ", got "@
                    + content_name(actual)
            },
            ProjectionError::DuplicateTool { tool_call_id } => {
                "tool "@ + tool_call_id@ + " is already active"@
            },
            ProjectionError::TooManyActiveTools { limit } => {
                "active tool limit "@ + decimal(limit as nat) + " reached"@
            },
            ProjectionError::UnknownTool { tool_call_id } => {
                "tool "@ + tool_call_id@ + " is not active"@
            },
            ProjectionError::DuplicateDirectBash { request_id } => {
                "direct bash request "@ + request_id@ + " is already active"@
            },
            ProjectionError::TooManyDirectBash { limit } => {
                "active direct bash limit "@ + decimal(limit as nat) + " reached"@
            },
            ProjectionError::UnknownDirectBash { request_id } => {
                "direct bash request "@ + request_id@ + " is not active"@
            },
        }
    }

    /// The error as a sentence.
    pub fn message(&self) -> (r: String)
        ensures
            r@ == self.text(),
    {
        match self {
            ProjectionError::DuplicateAssistantBlock { content_index } => {
                let mut r = "assistant content block ".to_owned();
                r.append(decimal_text(*content_index as u64).as_str());
                r.append(" is already active");
                r
            },
            ProjectionError::TooManyAssistantBlocks { limit } => {
                let mut r = "assistant content block limit ".to_owned();
                r.append(decimal_text(*limit as u64).as_str());
                r.append(" reached");
                r
            },
            ProjectionError::UnknownAssistantBlock { content_index } => {
                let mut r = "assistant content block ".to_owned();
                r.append(decimal_text(*content_index as u64).as_str());
                r.append(" has not started");
                r
            },
            ProjectionError::AssistantBlockKindMismatch { content_index, expected, actual } => {
                let mut r = "assistant content block ".to_owned();
                r.append(decimal_text(*content_index as u64).as_str());
                r.append(" kind mismatch: expected ");
                r.append(write_content(*expected));
                r.append(", got ");
                r.append(write_content(*actual));
                r
            },
            ProjectionError::DuplicateTool { tool_call_id } => {
                let mut r = "tool ".to_owned();
                r.append(tool_call_id.as_str());
                r.append(" is already active");
                r
            },
            ProjectionError::TooManyActiveTools { limit } => {
                let mut r = "active tool limit ".to_owned();
                r.append(decimal_text(*limit as u64).as_str());
                r.append(" reached");
                r
            },
            ProjectionError::UnknownTool { tool_call_id } => {
                let mut r = "tool ".to_owned();
                r.append(tool_call_id.as_str());
                r.append(" is not active");
                r
            },
            ProjectionError::DuplicateDirectBash { request_id } => {
                let mut r = "direct bash request ".to_owned();
                r.append(request_id.as_str());
                r.append(" is already active");
                r
            },
            ProjectionError::TooManyDirectBash { limit } => {
                let mut r = "active direct bash limit ".to_owned();
                r.append(decimal_text(*limit as u64).as_str());
                r.append(" reached");
                r
            },
            ProjectionError::UnknownDirectBash { request_id } => {
                let mut r = "direct bash request ".to_owned();
                r.append(request_id.as_str());
                r.append(" is not active");
                r
            },
        }
    }
}

impl ExtensionUiError {
    pub open spec fn text(self) -> Seq<char> {
        match self {
            ExtensionUiError::EntryLimit { limit } => {
                "extension UI entry limit "@ + decimal(limit as nat) + " reached"@
            },
            ExtensionUiError::ByteLimit { attempted, limit } => {
                "extension UI state would use "@ + decimal(attempted as nat)
                    + " bytes, exceeding limit "@ + decimal(limit as nat)
            },
        }
    }

    /// The error as a sentence.
    pub fn message(&self) -> (r: String)
        ensures
            r@ == self.text(),
    {
        match self {
            ExtensionUiError::EntryLimit { limit } => {
                let mut r = "extension UI entry limit ".to_owned();
                r.append(decimal_text(*limit as u64).as_str());
                r.append(" reached");
                r
            },
            ExtensionUiError::ByteLimit { attempted, limit } => {
                let mut r = "extension UI state would use ".to_owned();
                r.append(decimal_text(*attempted as u64).as_str());
                r.append(" bytes, exceeding limit ");
                r.append(decimal_text(*limit as u64).as_str());
                r
            },
        }
    }
}

impl RpcGateError {
    pub open spec fn text(self) -> Seq<char> {
        match self {
            RpcGateError::DuplicateCommand { request_id } => {
                "RPC command "@ + request_id@ + " is already active"@
            },
            RpcGateError::SessionReplacementInFlight => {
                "a session replacement is already in flight"@
            },
        }
    }

    /// The error as a sentence.
    pub fn message(&self) -> (r: String)
        ensures
            r@ == self.text(),
    {
        match self {
            RpcGateError::DuplicateCommand { request_id } => {
                let mut r = "RPC command ".to_owned();
                r.append(request_id.as_str());
                r.append(" is already active");
                r
            },
            RpcGateError::SessionReplacementInFlight => {
                "a session replacement is already in flight".to_owned()
            },
        }
    }
}

impl PendingRequestError {
    pub open spec fn text(self) -> Seq<char> {
        match self {
            PendingRequestError::DuplicateRequest { request_id } => {
                "RPC request "@ + request_id@ + " is already pending"@
            },
            PendingRequestError::TooManyRequests { limit } => {
                "pending RPC request limit "@ + decimal(limit as nat) + " reached"@
            },
            PendingRequestError::MissingResponseId => "RPC response is missing its request id"@,
            PendingRequestError::UnknownResponse { id } => {
                "RPC response "@ + id@ + " has no pending request"@
            },
            PendingRequestError::CommandMismatch { id, expected } => {
                "RPC response "@ + id@ + " does not answer a "@ + expected.wire()@ + " request"@
            },
        }
    }

    /// The error as a sentence.
    pub fn message(&self) -> (r: String)
        ensures
            r@ == self.text(),
    {
        match self {
            PendingRequestError::DuplicateRequest { request_id } => {
                let mut r = "RPC request ".to_owned();
                r.append(request_id.as_str());
                r.append(" is already pending");
                r
            },
            PendingRequestError::TooManyRequests { limit } => {
                let mut r = "pending RPC request limit ".to_owned();
                r.append(decimal_text(*limit as u64).as_str());
                r.append(" reached");
                r
            },
            PendingRequestError::MissingResponseId => {
                "RPC response is missing its request id".to_owned()
            },
            PendingRequestError::UnknownResponse { id } => {
                let mut r = "RPC response ".to_owned();
                r.append(id.as_str());
                r.append(" has no pending request");
                r
            },
            PendingRequestError::CommandMismatch { id, expected } => {
                let mut r = "RPC response ".to_owned();
                r.append(id.as_str());
                r.append(" does not answer a ");
                r.append(expected.wire_name());
                r.append(" request");
                r
            },
        }
    }
}

impl RpcEventPayloadError {
    pub open spec fn text(self) -> Seq<char> {
        match self {
            RpcEventPayloadError::Malformed => "RPC event data is malformed"@,
            RpcEventPayloadError::QueueByteLimit { attempted, limit } => {
                "queued messages use "@ + decimal(attempted as nat) + " bytes, exceeding limit "@
                    + decimal(limit as nat)
            },
        }
    }

    /// The error as a sentence.
    pub fn message(&self) -> (r: String)
        ensures
            r@ == self.text(),
    {
        match self {
            RpcEventPayloadError::Malformed => "RPC event data is malformed".to_owned(),
            RpcEventPayloadError::QueueByteLimit { attempted, limit } => {
                let mut r = "queued messages use ".to_owned();
                r.append(decimal_text(*attempted as u64).as_str());
                r.append(" bytes, exceeding limit ");
                r.append(decimal_text(*limit as u64).as_str());
                r
            },
        }
    }
}

impl ExtensionUiParseError {
    pub open spec fn text(self) -> Seq<char> {
        match self {
            ExtensionUiParseError::Malformed => "extension UI request is malformed"@,
            ExtensionUiParseError::TooLarge { attempted, limit } => {
                "extension UI request uses "@ + decimal(attempted as nat)
                    + " bytes, exceeding limit "@ + decimal(limit as nat)
            },
        }
    }

    /// The error as a sentence.
    pub fn message(&self) -> (r: String)
        ensures
            r@ == self.text(),
    {
        match self {
            ExtensionUiParseError::Malformed => "extension UI request is malformed".to_owned(),
            ExtensionUiParseError::TooLarge { attempted, limit } => {
                let mut r = "extension UI request uses ".to_owned();
                r.append(decimal_text(*attempted as u64).as_str());
                r.append(" bytes, exceeding limit ");
                r.append(decimal_text(*limit as u64).as_str());
                r
            },
        }
    }
}

impl UiBacklogError {
    pub open spec fn text(self) -> Seq<char> {
        match self {
            UiBacklogError::FrameTooLarge { actual, limit } => {
                "one semantic UI frame costs "@ + decimal(actual as nat)
                    + " bytes, exceeding backlog limit "@ + decimal(limit as nat)
            },
            UiBacklogError::SemanticCapacityExhausted { resident, incoming, limit } => {
                "semantic UI backlog exhausted: resident "@ + decimal(resident as nat)
                    + " + incoming "@ + decimal(incoming as nat) + " exceeds limit "@
                    + decimal(limit as nat)
            },
        }
    }

    /// The error as a sentence.
    pub fn message(&self) -> (r: String)
        ensures
            r@ == self.text(),
    {
        match self {
            UiBacklogError::FrameTooLarge { actual, limit } => {
                let mut r = "one semantic UI frame costs ".to_owned();
                r.append(decimal_text(*actual as u64).as_str());
                r.append(" bytes, exceeding backlog limit ");
                r.append(decimal_text(*limit as u64).as_str());
                r
            },
            UiBacklogError::SemanticCapacityExhausted { resident, incoming, limit } => {
                let mut r = "semantic UI backlog exhausted: resident ".to_owned();
                r.append(decimal_text(*resident as u64).as_str());
                r.append(" + incoming ");
                r.append(decimal_text(*incoming as u64).as_str());
                r.append(" exceeds limit ");
                r.append(decimal_text(*limit as u64).as_str());
                r
            },
        }
    }
}

impl SessionSyncErrorView {
    pub open spec fn text(self) -> Seq<char> {
        match self {
            SessionSyncErrorView::InvalidCursorLength { actual, limit } => {
                "session cursor is "@ + decimal(actual) + " bytes; expected 1..="@
                    + decimal(limit as nat)
            },
            SessionSyncErrorView::ResyncRequired => {
                
                    "session synchronization requires an explicit resync before another cursor request"@
            },
            SessionSyncErrorView::CursorMismatch { expected, actual } => {
                "session synchronization expected cursor "@ + optional_text(expected) + ", got "@
                    + optional_text(actual)
            },
            SessionSyncErrorView::DuplicateEntryId { id } => {
                "get_entries page contains duplicate entry id "@ + id
            },
        }
    }
}

impl SessionSyncError {
    /// The error as a sentence.
    pub fn message(&self) -> (r: String)
        ensures
            r@ == self@.text(),
    {
        match self {
            SessionSyncError::InvalidCursorLength { actual, limit } => {
                let mut r = "session cursor is ".to_owned();
                r.append(decimal_text(*actual as u64).as_str());
                r.append(" bytes; expected 1..=");
                r.append(decimal_text(*limit as u64).as_str());
                r
            },
            SessionSyncError::ResyncRequired => {
                "session synchronization requires an explicit resync before another cursor request".to_owned()
            },
            SessionSyncError::CursorMismatch { expected, actual } => {
                let mut r = "session synchronization expected cursor ".to_owned();
                r.append(write_optional(expected).as_str());
                r.append(", got ");
                r.append(write_optional(actual).as_str());
                r
            },
            SessionSyncError::DuplicateEntryId { id } => {
                let mut r = "get_entries page contains duplicate entry id ".to_owned();
                r.append(id.as_str());
                r
            },
        }
    }
}

impl ControllerErrorView {
    pub open spec fn text(self) -> Seq<char> {
        match self {
            ControllerErrorView::Gate(error) => error.text(),
            ControllerErrorView::Pending(error) => error.text(),
            ControllerErrorView::Projection(error) => error.text(),
            ControllerErrorView::EventPayload(error) => error.text(),
            ControllerErrorView::ResponsePayload(error) => error.text(),
            ControllerErrorView::Runtime(error) => error.text(),
            ControllerErrorView::MissingGateEntry { request_id } => {
                "pending RPC request "@ + request_id
                    + " had no matching active command gate entry"@
            },
            ControllerErrorView::MissingBashRequestId => {
                "direct bash stream update is missing its originating RPC request id"@
            },
            ControllerErrorView::ExtensionUiParse(error) => error.text(),
            ControllerErrorView::ExtensionUiState(error) => error.text(),
            ControllerErrorView::SessionSync(error) => error.text(),
            ControllerErrorView::ExtensionDialogByteLimit { attempted, limit } => {
                "extension dialog payloads would use "@ + decimal(attempted as nat)
                    + " bytes, exceeding limit "@ + decimal(limit as nat)
            },
            ControllerErrorView::UnknownExtensionDialog { request_id } => {
                "extension dialog "@ + request_id + " is not pending"@
            },
            ControllerErrorView::SessionSyncInFlight { request_id } => {
                "get_entries request "@ + request_id + " is already in flight"@
            },
            ControllerErrorView::MissingSessionSyncRequest { request_id } => {
                "get_entries response "@ + request_id
                    + " has no controller-owned synchronization request"@
            },
            ControllerErrorView::SessionSyncResponseMismatch { expected, actual } => {
                "get_entries response "@ + expected + " crossed active synchronization request "@
                    + actual
            },
            ControllerErrorView::UnansweredBash { request_id } => {
                "direct bash request "@ + request_id + " is not active"@
            },
        }
    }
}

impl RunRpcControllerError {
    /// The error as a sentence.
    pub fn message(&self) -> (r: String)
        ensures
            r@ == self@.text(),
    {
        match self {
            RunRpcControllerError::Gate(error) => error.message(),
            RunRpcControllerError::Pending(error) => error.message(),
            RunRpcControllerError::Projection(error) => error.message(),
            RunRpcControllerError::EventPayload(error) => error.message(),
            RunRpcControllerError::ResponsePayload(error) => error.message(),
            RunRpcControllerError::Runtime(error) => error.message(),
            RunRpcControllerError::MissingGateEntry { request_id } => {
                let mut r = "pending RPC request ".to_owned();
                r.append(request_id.as_str());
                r.append(" had no matching active command gate entry");
                r
            },
            RunRpcControllerError::MissingBashRequestId => {
                "direct bash stream update is missing its originating RPC request id".to_owned()
            },
            RunRpcControllerError::ExtensionUiParse(error) => error.message(),
            RunRpcControllerError::ExtensionUiState(error) => error.message(),
            RunRpcControllerError::SessionSync(error) => error.message(),
            RunRpcControllerError::ExtensionDialogByteLimit { attempted, limit } => {
                let mut r = "extension dialog payloads would use ".to_owned();
                r.append(decimal_text(*attempted as u64).as_str());
                r.append(" bytes, exceeding limit ");
                r.append(decimal_text(*limit as u64).as_str());
                r
            },
            RunRpcControllerError::UnknownExtensionDialog { request_id } => {
                let mut r = "extension dialog ".to_owned();
                r.append(request_id.as_str());
                r.append(" is not pending");
                r
            },
            RunRpcControllerError::SessionSyncInFlight { request_id } => {
                let mut r = "get_entries request ".to_owned();
                r.append(request_id.as_str());
                r.append(" is already in flight");
                r
            },
            RunRpcControllerError::MissingSessionSyncRequest { request_id } => {
                let mut r = "get_entries response ".to_owned();
                r.append(request_id.as_str());
                r.append(" has no controller-owned synchronization request");
                r
            },
            RunRpcControllerError::SessionSyncResponseMismatch { expected, actual } => {
                let mut r = "get_entries response ".to_owned();
                r.append(expected.as_str());
                r.append(" crossed active synchronization request ");
                r.append(actual.as_str());
                r
            },
        }
    }
}

} // verus!
