//! Authoritative lifecycle state of runs.
use vstd::prelude::*;
use vstd::string::*;

use crate::bounded::{bound_detail, bounded_detail};
use crate::ids::{ProjectId, RunId};
use crate::keyed::{strictly_ordered, KeyMap, OrderedKey};
use crate::launch::ProjectTrustPolicy;
use crate::limits::RuntimeLimits;
use crate::paths::{is_within, path_within};
use crate::rpc::{AssistantStopReason, QueueMode, ThinkingLevel};
use crate::text::{byte_len, copy_optional, sat_add_u64, text_bytes};
use crate::worktree::GitWorktreeIdentity;

verus! {

#[derive(Clone, Copy, Debug, PartialEq, Eq, Structural)]
pub enum ExecutionIsolation {
    LocalCheckout,
    GitWorktree,
}

/// Lifecycle of the owned operating-system process only.
#[derive(Clone, Copy, Debug, PartialEq, Eq, Structural)]
pub enum ProcessState {
    Starting,
    Ready,
    Stopping,
    Exited,
    Failed,
    /// The control path was revoked because termination could not be confirmed.
    Quarantined,
}

impl ProcessState {
    pub open spec fn terminal(self) -> bool {
        self == ProcessState::Exited || self == ProcessState::Failed || self
            == ProcessState::Quarantined
    }

    /// Starting or ready: a stop can still begin.
    pub open spec fn running(self) -> bool {
        self == ProcessState::Starting || self == ProcessState::Ready
    }

    pub fn is_terminal(self) -> (r: bool)
        ensures
            r == self.terminal(),
    {
        self == ProcessState::Exited || self == ProcessState::Failed || self
            == ProcessState::Quarantined
    }
}

/// Derived agent activity, separate from the process lifecycle.
#[derive(Clone, Copy, Debug, PartialEq, Eq, Structural)]
pub enum ActivityState {
    Idle,
    Working,
    WaitingForInput,
    Aborting,
    Compacting,
}

#[derive(Clone, Copy, Debug, PartialEq, Eq, Structural)]
pub enum ComposerAvailability {
    Ready,
    AgentWorking,
    BlockedByCompaction,
    Unavailable,
}

#[derive(Clone, Copy, Debug, PartialEq, Eq, Structural)]
pub struct QueueState {
    pub steering: usize,
    pub follow_up: usize,
}

impl QueueState {
    pub open spec fn empty() -> Self {
        QueueState { steering: 0, follow_up: 0 }
    }
}

impl Default for QueueState {
    fn default() -> (r: Self)
        ensures
            r == QueueState::empty(),
    {
        QueueState { steering: 0, follow_up: 0 }
    }
}

#[derive(Debug, PartialEq, Eq)]
pub struct RunModelState {
    pub provider: String,
    pub id: String,
    pub name: Option<String>,
    pub supports_images: Option<bool>,
}

impl Clone for RunModelState {
    fn clone(&self) -> (r: Self)
        ensures
            r == *self,
    {
        RunModelState {
            provider: self.provider.clone(),
            id: self.id.clone(),
            name: copy_optional(&self.name),
            supports_images: self.supports_images,
        }
    }
}

#[derive(Debug, PartialEq, Eq)]
pub struct RunSessionState {
    pub model: Option<RunModelState>,
    pub thinking_level: Option<ThinkingLevel>,
    pub steering_mode: Option<QueueMode>,
    pub follow_up_mode: Option<QueueMode>,
    pub session_file: Option<String>,
    pub session_id: Option<String>,
    pub session_name: Option<String>,
    pub auto_compaction_enabled: Option<bool>,
    pub message_count: Option<usize>,
    pub pending_message_count: Option<usize>,
}

impl RunSessionState {
    pub open spec fn unknown() -> Self {
        RunSessionState {
            model: None,
            thinking_level: None,
            steering_mode: None,
            follow_up_mode: None,
            session_file: None,
            session_id: None,
            session_name: None,
            auto_compaction_enabled: None,
            message_count: None,
            pending_message_count: None,
        }
    }

    pub open spec fn observed(observation: RunStateObservation) -> Self {
        RunSessionState {
            model: observation.model,
            thinking_level: Some(observation.thinking_level),
            steering_mode: Some(observation.steering_mode),
            follow_up_mode: Some(observation.follow_up_mode),
            session_file: observation.session_file,
            session_id: Some(observation.session_id),
            session_name: observation.session_name,
            auto_compaction_enabled: Some(observation.auto_compaction_enabled),
            message_count: Some(observation.message_count),
            pending_message_count: Some(observation.pending_message_count),
        }
    }
}

impl Default for RunSessionState {
    fn default() -> (r: Self)
        ensures
            r == RunSessionState::unknown(),
    {
        RunSessionState {
            model: None,
            thinking_level: None,
            steering_mode: None,
            follow_up_mode: None,
            session_file: None,
            session_id: None,
            session_name: None,
            auto_compaction_enabled: None,
            message_count: None,
            pending_message_count: None,
        }
    }
}

impl Clone for RunSessionState {
    fn clone(&self) -> (r: Self)
        ensures
            r == *self,
    {
        RunSessionState {
            model: match &self.model {
                Some(model) => Some(model.clone()),
                None => None,
            },
            thinking_level: self.thinking_level,
            steering_mode: self.steering_mode,
            follow_up_mode: self.follow_up_mode,
            session_file: copy_optional(&self.session_file),
            session_id: copy_optional(&self.session_id),
            session_name: copy_optional(&self.session_name),
            auto_compaction_enabled: self.auto_compaction_enabled,
            message_count: self.message_count,
            pending_message_count: self.pending_message_count,
        }
    }
}

/// One authoritative observation of the state of the current Pi child.
#[derive(Debug, PartialEq, Eq)]
pub struct RunStateObservation {
    pub model: Option<RunModelState>,
    pub thinking_level: ThinkingLevel,
    pub is_streaming: bool,
    pub is_compacting: bool,
    pub steering_mode: QueueMode,
    pub follow_up_mode: QueueMode,
    pub session_file: Option<String>,
    pub session_id: String,
    pub session_name: Option<String>,
    pub auto_compaction_enabled: bool,
    pub message_count: usize,
    pub pending_message_count: usize,
}

#[derive(Clone, Copy, Debug, PartialEq, Eq, Structural)]
pub enum RunFailureKind {
    Spawn,
    Protocol,
    UnexpectedExit,
    Stop,
    Internal,
}

#[derive(Debug, PartialEq, Eq)]
pub struct RunFailure {
    pub kind: RunFailureKind,
    pub detail: String,
    pub detail_truncated: bool,
}

impl Clone for RunFailure {
    fn clone(&self) -> (r: Self)
        ensures
            r == *self,
    {
        RunFailure {
            kind: self.kind,
            detail: self.detail.clone(),
            detail_truncated: self.detail_truncated,
        }
    }
}

impl RunFailure {
    /// Whether this failure reports `detail` within `max_detail_bytes`.
    pub open spec fn reports(self, kind: RunFailureKind, detail: Seq<char>, max: nat) -> bool {
        &&& self.kind == kind
        &&& (self.detail@, self.detail_truncated) == bounded_detail(detail, max)
    }

    pub fn bounded(kind: RunFailureKind, detail: &str, max_detail_bytes: usize) -> (r: Self)
        ensures
            r.reports(kind, detail@, max_detail_bytes as nat),
            byte_len(r.detail@) <= max_detail_bytes,
    {
        let (detail, detail_truncated) = bound_detail(detail, max_detail_bytes);
        RunFailure { kind, detail, detail_truncated }
    }

    pub fn from_runtime_limits(kind: RunFailureKind, detail: &str, limits: RuntimeLimits) -> (r:
        Self)
        ensures
            r.reports(kind, detail@, limits.max_failure_detail_bytes as nat),
            byte_len(r.detail@) <= limits.max_failure_detail_bytes,
    {
        Self::bounded(kind, detail, limits.max_failure_detail_bytes)
    }
}

/// One change to the state of a run.
#[derive(Debug, PartialEq, Eq)]
pub enum RunMutation {
    ProcessReady,
    AgentStarted,
    AgentSettled,
    AssistantMessageCompleted { stop_reason: AssistantStopReason, error_message: Option<String> },
    SessionReplacementAccepted,
    AutoRetryStarted,
    AutoRetryEnded,
    SummarizationRetryStarted,
    SummarizationRetryEnded,
    CompactionStarted,
    CompactionEnded,
    UiRequestOpened { request_id: String },
    UiRequestClosed { request_id: String },
    AbortRequested,
    QueueChanged(QueueState),
    StateObserved(RunStateObservation),
    ThinkingLevelChanged(ThinkingLevel),
    SessionNameChanged(Option<String>),
    ChangesMayHaveChanged,
    BeginStop,
    ProcessExited { code: Option<i32> },
    ProcessFailed { failure: RunFailure, code: Option<i32> },
    ProcessQuarantined { failure: RunFailure },
}

impl RunMutation {
    /// The name by which a refusal reports this mutation.
    pub open spec fn spec_name(self) -> &'static str {
        match self {
            RunMutation::ProcessReady => "process_ready",
            RunMutation::AgentStarted => "agent_started",
            RunMutation::AgentSettled => "agent_settled",
            RunMutation::AssistantMessageCompleted { .. } => "assistant_message_completed",
            RunMutation::SessionReplacementAccepted => "session_replacement_accepted",
            RunMutation::AutoRetryStarted => "auto_retry_started",
            RunMutation::AutoRetryEnded => "auto_retry_ended",
            RunMutation::SummarizationRetryStarted => "summarization_retry_started",
            RunMutation::SummarizationRetryEnded => "summarization_retry_ended",
            RunMutation::CompactionStarted => "compaction_started",
            RunMutation::CompactionEnded => "compaction_ended",
            RunMutation::UiRequestOpened { .. } => "ui_request_opened",
            RunMutation::UiRequestClosed { .. } => "ui_request_closed",
            RunMutation::AbortRequested => "abort_requested",
            RunMutation::QueueChanged(_) => "queue_changed",
            RunMutation::StateObserved(_) => "state_observed",
            RunMutation::ThinkingLevelChanged(_) => "thinking_level_changed",
            RunMutation::SessionNameChanged(_) => "session_name_changed",
            RunMutation::ChangesMayHaveChanged => "changes_may_have_changed",
            RunMutation::BeginStop => "begin_stop",
            RunMutation::ProcessExited { .. } => "process_exited",
            RunMutation::ProcessFailed { .. } => "process_failed",
            RunMutation::ProcessQuarantined { .. } => "process_quarantined",
        }
    }

    /// Whether the process lifecycle lets this mutation happen.
    pub open spec fn allowed_in(self, process: ProcessState) -> bool {
        match self {
            RunMutation::ProcessReady => process == ProcessState::Starting,
            RunMutation::StateObserved(_) | RunMutation::BeginStop => process.running(),
            RunMutation::ProcessExited { .. } | RunMutation::ProcessFailed { .. } =>
                !process.terminal(),
            RunMutation::ProcessQuarantined { .. } => process == ProcessState::Stopping,
            _ => process == ProcessState::Ready,
        }
    }

    fn name(&self) -> (r: &'static str)
        ensures
            r == self.spec_name(),
    {
        match self {
            RunMutation::ProcessReady => "process_ready",
            RunMutation::AgentStarted => "agent_started",
            RunMutation::AgentSettled => "agent_settled",
            RunMutation::AssistantMessageCompleted { .. } => "assistant_message_completed",
            RunMutation::SessionReplacementAccepted => "session_replacement_accepted",
            RunMutation::AutoRetryStarted => "auto_retry_started",
            RunMutation::AutoRetryEnded => "auto_retry_ended",
            RunMutation::SummarizationRetryStarted => "summarization_retry_started",
            RunMutation::SummarizationRetryEnded => "summarization_retry_ended",
            RunMutation::CompactionStarted => "compaction_started",
            RunMutation::CompactionEnded => "compaction_ended",
            RunMutation::UiRequestOpened { .. } => "ui_request_opened",
            RunMutation::UiRequestClosed { .. } => "ui_request_closed",
            RunMutation::AbortRequested => "abort_requested",
            RunMutation::QueueChanged(_) => "queue_changed",
            RunMutation::StateObserved(_) => "state_observed",
            RunMutation::ThinkingLevelChanged(_) => "thinking_level_changed",
            RunMutation::SessionNameChanged(_) => "session_name_changed",
            RunMutation::ChangesMayHaveChanged => "changes_may_have_changed",
            RunMutation::BeginStop => "begin_stop",
            RunMutation::ProcessExited { .. } => "process_exited",
            RunMutation::ProcessFailed { .. } => "process_failed",
            RunMutation::ProcessQuarantined { .. } => "process_quarantined",
        }
    }

    fn is_allowed_in(&self, process: ProcessState) -> (r: bool)
        ensures
            r == self.allowed_in(process),
    {
        match self {
            RunMutation::ProcessReady => process == ProcessState::Starting,
            RunMutation::StateObserved(_) | RunMutation::BeginStop => process
                == ProcessState::Starting || process == ProcessState::Ready,
            RunMutation::ProcessExited { .. } | RunMutation::ProcessFailed { .. } =>
                !process.is_terminal(),
            RunMutation::ProcessQuarantined { .. } => process == ProcessState::Stopping,
            _ => process == ProcessState::Ready,
        }
    }
}

/// Why a change to the runtime state was refused.
#[derive(Debug, PartialEq, Eq)]
pub enum RuntimeError {
    DuplicateRun { run_id: RunId },
    UnknownRun { run_id: RunId },
    InvalidProcessState { mutation: &'static str, actual: ProcessState },
    PendingUiLimit { limit: usize },
    DuplicateUiRequest { request_id: String },
    UnknownUiRequest { request_id: String },
    AbortWhileIdle,
    RemoveLiveRun { run_id: RunId },
    UnexpectedWorktreeIdentity,
    MissingWorktreeIdentity,
    WorktreeExecutionRootMismatch { execution_root: String, worktree_root: String },
}

/// Model of a [`RunRecord`].
pub struct RunRecordView {
    pub id: RunId,
    pub project_id: ProjectId,
    pub execution_root: String,
    pub execution_isolation: ExecutionIsolation,
    pub worktree: Option<GitWorktreeIdentity>,
    pub project_trust: ProjectTrustPolicy,
    pub started_unix_ms: u64,
    pub terminal_unix_ms: Option<u64>,
    pub change_revision: u64,
    pub assistant_message_generation: u64,
    pub agent_settled_generation: u64,
    pub last_assistant_stop_reason: Option<AssistantStopReason>,
    pub last_assistant_error: Option<String>,
    pub session_replacement_generation: u64,
    pub process: ProcessState,
    pub agent_working: bool,
    pub compacting: bool,
    pub abort_requested: bool,
    pub retry_waiting: bool,
    pub summarization_retry_active: bool,
    /// The open extension UI requests.
    pub pending_ui_requests: Set<Seq<char>>,
    pub queue: QueueState,
    pub session: RunSessionState,
    pub exit_code: Option<i32>,
    pub failure: Option<RunFailure>,
    pub revision: u64,
}

impl RunRecordView {
    /// A run whose process has just been started.
    pub open spec fn starting(
        id: RunId,
        project_id: ProjectId,
        execution_root: String,
        execution_isolation: ExecutionIsolation,
        project_trust: ProjectTrustPolicy,
        worktree: Option<GitWorktreeIdentity>,
        started_unix_ms: u64,
    ) -> Self {
        RunRecordView {
            id,
            project_id,
            execution_root,
            execution_isolation,
            worktree,
            project_trust,
            started_unix_ms,
            terminal_unix_ms: None,
            change_revision: 0,
            assistant_message_generation: 0,
            agent_settled_generation: 0,
            last_assistant_stop_reason: None,
            last_assistant_error: None,
            session_replacement_generation: 0,
            process: ProcessState::Starting,
            agent_working: false,
            compacting: false,
            abort_requested: false,
            retry_waiting: false,
            summarization_retry_active: false,
            pending_ui_requests: Set::empty(),
            queue: QueueState::empty(),
            session: RunSessionState::unknown(),
            exit_code: None,
            failure: None,
            revision: 0,
        }
    }

    pub open spec fn activity(self) -> ActivityState {
        if self.abort_requested {
            ActivityState::Aborting
        } else if self.compacting {
            ActivityState::Compacting
        } else if self.pending_ui_requests.len() > 0 {
            ActivityState::WaitingForInput
        } else if self.agent_working {
            ActivityState::Working
        } else {
            ActivityState::Idle
        }
    }

    /// Whether Pi does what no request can cancel: it compacts, or retries a
    /// summarization.
    pub open spec fn uncancellable(self) -> bool {
        !self.abort_requested && (self.compacting || self.summarization_retry_active)
    }

    pub open spec fn availability(self) -> ComposerAvailability {
        if self.process != ProcessState::Ready {
            ComposerAvailability::Unavailable
        } else if self.compacting {
            ComposerAvailability::BlockedByCompaction
        } else if self.agent_working {
            ComposerAvailability::AgentWorking
        } else {
            ComposerAvailability::Ready
        }
    }

    /// Nothing is going on any more.
    pub open spec fn without_activity(self) -> Self {
        RunRecordView {
            agent_working: false,
            compacting: false,
            abort_requested: false,
            retry_waiting: false,
            summarization_retry_active: false,
            pending_ui_requests: Set::empty(),
            queue: QueueState::empty(),
            ..self
        }
    }

    /// Why `mutation` is refused in this state, if it is.
    pub open spec fn refusal(self, mutation: RunMutation, max_pending_ui_requests: usize) -> Option<
        RuntimeError,
    > {
        if !mutation.allowed_in(self.process) {
            Some(
                RuntimeError::InvalidProcessState {
                    mutation: mutation.spec_name(),
                    actual: self.process,
                },
            )
        } else {
            match mutation {
                RunMutation::UiRequestOpened { request_id } => if self.pending_ui_requests.contains(
                    request_id@,
                ) {
                    Some(RuntimeError::DuplicateUiRequest { request_id })
                } else if self.pending_ui_requests.len() >= max_pending_ui_requests {
                    Some(RuntimeError::PendingUiLimit { limit: max_pending_ui_requests })
                } else {
                    None
                },
                RunMutation::UiRequestClosed { request_id } => if self.pending_ui_requests.contains(
                    request_id@,
                ) {
                    None
                } else {
                    Some(RuntimeError::UnknownUiRequest { request_id })
                },
                RunMutation::AbortRequested => if self.agent_working {
                    None
                } else {
                    Some(RuntimeError::AbortWhileIdle)
                },
                _ => None,
            }
        }
    }

    /// The fields that an accepted `mutation` sets.
    pub open spec fn effect(self, mutation: RunMutation, now_unix_ms: u64) -> Self {
        match mutation {
            RunMutation::ProcessReady => RunRecordView { process: ProcessState::Ready, ..self },
            RunMutation::AgentStarted => RunRecordView {
                agent_working: true,
                abort_requested: false,
                retry_waiting: false,
                ..self
            },
            RunMutation::AgentSettled => RunRecordView {
                agent_working: false,
                abort_requested: false,
                retry_waiting: false,
                summarization_retry_active: false,
                agent_settled_generation: sat_add_u64(self.agent_settled_generation, 1),
                ..self
            },
            RunMutation::AssistantMessageCompleted { stop_reason, error_message } => RunRecordView {
                assistant_message_generation: sat_add_u64(self.assistant_message_generation, 1),
                last_assistant_stop_reason: Some(stop_reason),
                last_assistant_error: error_message,
                ..self
            },
            RunMutation::SessionReplacementAccepted => RunRecordView {
                session_replacement_generation: sat_add_u64(self.session_replacement_generation, 1),
                last_assistant_stop_reason: None,
                last_assistant_error: None,
                ..self
            },
            RunMutation::AutoRetryStarted => RunRecordView { retry_waiting: true, ..self },
            RunMutation::AutoRetryEnded => RunRecordView { retry_waiting: false, ..self },
            RunMutation::SummarizationRetryStarted => RunRecordView {
                summarization_retry_active: true,
                ..self
            },
            RunMutation::SummarizationRetryEnded => RunRecordView {
                summarization_retry_active: false,
                ..self
            },
            RunMutation::CompactionStarted => RunRecordView { compacting: true, ..self },
            RunMutation::CompactionEnded => RunRecordView { compacting: false, ..self },
            RunMutation::UiRequestOpened { request_id } => RunRecordView {
                pending_ui_requests: self.pending_ui_requests.insert(request_id@),
                ..self
            },
            RunMutation::UiRequestClosed { request_id } => RunRecordView {
                pending_ui_requests: self.pending_ui_requests.remove(request_id@),
                ..self
            },
            RunMutation::AbortRequested => RunRecordView { abort_requested: true, ..self },
            RunMutation::QueueChanged(queue) => RunRecordView { queue, ..self },
            RunMutation::StateObserved(observation) => RunRecordView {
                agent_working: observation.is_streaming,
                compacting: observation.is_compacting,
                abort_requested: self.abort_requested && observation.is_streaming,
                session: RunSessionState::observed(observation),
                ..self
            },
            RunMutation::ThinkingLevelChanged(level) => RunRecordView {
                session: RunSessionState { thinking_level: Some(level), ..self.session },
                ..self
            },
            RunMutation::SessionNameChanged(name) => RunRecordView {
                session: RunSessionState { session_name: name, ..self.session },
                ..self
            },
            RunMutation::ChangesMayHaveChanged => RunRecordView {
                change_revision: sat_add_u64(self.change_revision, 1),
                ..self
            },
            RunMutation::BeginStop => RunRecordView {
                process: ProcessState::Stopping,
                abort_requested: self.agent_working,
                ..self
            },
            RunMutation::ProcessExited { code } => RunRecordView {
                process: ProcessState::Exited,
                terminal_unix_ms: Some(now_unix_ms),
                exit_code: code,
                ..self.without_activity()
            },
            RunMutation::ProcessFailed { failure, code } => RunRecordView {
                process: ProcessState::Failed,
                terminal_unix_ms: Some(now_unix_ms),
                exit_code: code,
                failure: Some(failure),
                ..self.without_activity()
            },
            RunMutation::ProcessQuarantined { failure } => RunRecordView {
                process: ProcessState::Quarantined,
                terminal_unix_ms: Some(now_unix_ms),
                failure: Some(failure),
                ..self.without_activity()
            },
        }
    }

    /// The state after an accepted `mutation`.
    pub open spec fn applied(self, mutation: RunMutation, now_unix_ms: u64) -> Self {
        RunRecordView {
            revision: sat_add_u64(self.revision, 1),
            ..self.effect(mutation, now_unix_ms)
        }
    }

    /// Bytes that the retained session identity takes, with `name` in place of
    /// the present session name.
    pub open spec fn retained_bytes(self, name: Option<Seq<char>>) -> nat {
        (match self.session.model {
            Some(model) => byte_len(model.provider@) + byte_len(model.id@) + optional_bytes(
                model.name,
            ),
            None => 0,
        }) + optional_bytes(self.session.session_file) + optional_bytes(self.session.session_id) + (
        match name {
            Some(text) => byte_len(text),
            None => 0,
        })
    }
}

/// Bytes of an optional text.
pub open spec fn optional_bytes(value: Option<String>) -> nat {
    match value {
        Some(text) => byte_len(text@),
        None => 0,
    }
}

/// Authoritative live state of one owned Pi process.
#[derive(Debug, PartialEq, Eq)]
pub struct RunRecord {
    id: RunId,
    project_id: ProjectId,
    execution_root: String,
    execution_isolation: ExecutionIsolation,
    worktree: Option<GitWorktreeIdentity>,
    project_trust: ProjectTrustPolicy,
    started_unix_ms: u64,
    terminal_unix_ms: Option<u64>,
    change_revision: u64,
    assistant_message_generation: u64,
    agent_settled_generation: u64,
    last_assistant_stop_reason: Option<AssistantStopReason>,
    last_assistant_error: Option<String>,
    session_replacement_generation: u64,
    process: ProcessState,
    agent_working: bool,
    compacting: bool,
    abort_requested: bool,
    retry_waiting: bool,
    summarization_retry_active: bool,
    pending_ui_requests: KeyMap<String, ()>,
    queue: QueueState,
    session: RunSessionState,
    exit_code: Option<i32>,
    failure: Option<RunFailure>,
    revision: u64,
}

impl View for RunRecord {
    type V = RunRecordView;

    closed spec fn view(&self) -> RunRecordView {
        RunRecordView {
            id: self.id,
            project_id: self.project_id,
            execution_root: self.execution_root,
            execution_isolation: self.execution_isolation,
            worktree: self.worktree,
            project_trust: self.project_trust,
            started_unix_ms: self.started_unix_ms,
            terminal_unix_ms: self.terminal_unix_ms,
            change_revision: self.change_revision,
            assistant_message_generation: self.assistant_message_generation,
            agent_settled_generation: self.agent_settled_generation,
            last_assistant_stop_reason: self.last_assistant_stop_reason,
            last_assistant_error: self.last_assistant_error,
            session_replacement_generation: self.session_replacement_generation,
            process: self.process,
            agent_working: self.agent_working,
            compacting: self.compacting,
            abort_requested: self.abort_requested,
            retry_waiting: self.retry_waiting,
            summarization_retry_active: self.summarization_retry_active,
            pending_ui_requests: self.pending_ui_requests@.dom(),
            queue: self.queue,
            session: self.session,
            exit_code: self.exit_code,
            failure: self.failure,
            revision: self.revision,
        }
    }
}

impl RunRecord {
    /// A run in a local checkout. A run in a worktree needs the identity of its
    /// worktree: see [`RunRecord::starting_with_worktree`].
    pub fn starting(
        id: RunId,
        project_id: ProjectId,
        execution_root: String,
        execution_isolation: ExecutionIsolation,
        project_trust: ProjectTrustPolicy,
        started_unix_ms: u64,
    ) -> (r: Result<Self, RuntimeError>)
        ensures
            match r {
                Ok(record) => execution_isolation == ExecutionIsolation::LocalCheckout && record@
                    == RunRecordView::starting(
                    id,
                    project_id,
                    execution_root,
                    execution_isolation,
                    project_trust,
                    None,
                    started_unix_ms,
                ),
                Err(error) => execution_isolation == ExecutionIsolation::GitWorktree && error
                    == RuntimeError::MissingWorktreeIdentity,
            },
    {
        match execution_isolation {
            ExecutionIsolation::GitWorktree => Err(RuntimeError::MissingWorktreeIdentity),
            ExecutionIsolation::LocalCheckout => Ok(
                Self::starting_unchecked(
                    id,
                    project_id,
                    execution_root,
                    execution_isolation,
                    project_trust,
                    None,
                    started_unix_ms,
                ),
            ),
        }
    }

    fn starting_unchecked(
        id: RunId,
        project_id: ProjectId,
        execution_root: String,
        execution_isolation: ExecutionIsolation,
        project_trust: ProjectTrustPolicy,
        worktree: Option<GitWorktreeIdentity>,
        started_unix_ms: u64,
    ) -> (r: Self)
        ensures
            r@ == RunRecordView::starting(
                id,
                project_id,
                execution_root,
                execution_isolation,
                project_trust,
                worktree,
                started_unix_ms,
            ),
    {
        let pending_ui_requests: KeyMap<String, ()> = KeyMap::new();
        assert(pending_ui_requests@.dom() =~= Set::<Seq<char>>::empty());
        RunRecord {
            id,
            project_id,
            execution_root,
            execution_isolation,
            worktree,
            project_trust,
            started_unix_ms,
            terminal_unix_ms: None,
            change_revision: 0,
            assistant_message_generation: 0,
            agent_settled_generation: 0,
            last_assistant_stop_reason: None,
            last_assistant_error: None,
            session_replacement_generation: 0,
            process: ProcessState::Starting,
            agent_working: false,
            compacting: false,
            abort_requested: false,
            retry_waiting: false,
            summarization_retry_active: false,
            pending_ui_requests,
            queue: QueueState::default(),
            session: RunSessionState::default(),
            exit_code: None,
            failure: None,
            revision: 0,
        }
    }

    /// Whether the execution root lies in the worktree. `canonical` holds both
    /// paths as the file system resolves them, where it resolves both; the
    /// paths as given decide otherwise.
    pub open spec fn root_in_worktree(
        execution_root: Seq<char>,
        worktree_root: Seq<char>,
        canonical: Option<(String, String)>,
    ) -> bool {
        match canonical {
            Some((path, root)) => path_within(path@, root@),
            None => path_within(execution_root, worktree_root),
        }
    }

    /// A run whose isolation and worktree identity agree.
    pub fn starting_with_worktree(
        id: RunId,
        project_id: ProjectId,
        execution_root: String,
        execution_isolation: ExecutionIsolation,
        project_trust: ProjectTrustPolicy,
        worktree: Option<GitWorktreeIdentity>,
        canonical: Option<(String, String)>,
        started_unix_ms: u64,
    ) -> (r: Result<Self, RuntimeError>)
        ensures
            match (execution_isolation, worktree) {
                (ExecutionIsolation::LocalCheckout, Some(_)) => r == Err::<Self, RuntimeError>(
                    RuntimeError::UnexpectedWorktreeIdentity,
                ),
                (ExecutionIsolation::GitWorktree, None) => r == Err::<Self, RuntimeError>(
                    RuntimeError::MissingWorktreeIdentity,
                ),
                (ExecutionIsolation::GitWorktree, Some(identity)) if !Self::root_in_worktree(
                    execution_root@,
                    identity.worktree_root@,
                    canonical,
                ) => r == Err::<Self, RuntimeError>(
                    RuntimeError::WorktreeExecutionRootMismatch {
                        execution_root,
                        worktree_root: identity.worktree_root,
                    },
                ),
                _ => r is Ok && r->Ok_0@ == RunRecordView::starting(
                    id,
                    project_id,
                    execution_root,
                    execution_isolation,
                    project_trust,
                    worktree,
                    started_unix_ms,
                ),
            },
    {
        match (execution_isolation, &worktree) {
            (ExecutionIsolation::LocalCheckout, Some(_)) => {
                return Err(RuntimeError::UnexpectedWorktreeIdentity);
            },
            (ExecutionIsolation::GitWorktree, None) => {
                return Err(RuntimeError::MissingWorktreeIdentity);
            },
            (ExecutionIsolation::GitWorktree, Some(identity)) => {
                let inside = match &canonical {
                    Some((path, root)) => is_within(path.as_str(), root.as_str()),
                    None => is_within(execution_root.as_str(), identity.worktree_root.as_str()),
                };
                if !inside {
                    let worktree_root = identity.worktree_root.clone();
                    return Err(
                        RuntimeError::WorktreeExecutionRootMismatch { execution_root, worktree_root },
                    );
                }
            },
            (ExecutionIsolation::LocalCheckout, None) => {},
        }
        Ok(
            Self::starting_unchecked(
                id,
                project_id,
                execution_root,
                execution_isolation,
                project_trust,
                worktree,
                started_unix_ms,
            ),
        )
    }

    pub fn id(&self) -> (r: RunId)
        ensures
            r == self@.id,
    {
        self.id
    }

    pub fn project_id(&self) -> (r: ProjectId)
        ensures
            r == self@.project_id,
    {
        self.project_id
    }

    pub fn started_unix_ms(&self) -> (r: u64)
        ensures
            r == self@.started_unix_ms,
    {
        self.started_unix_ms
    }

    pub fn terminal_unix_ms(&self) -> (r: Option<u64>)
        ensures
            r == self@.terminal_unix_ms,
    {
        self.terminal_unix_ms
    }

    pub fn change_revision(&self) -> (r: u64)
        ensures
            r == self@.change_revision,
    {
        self.change_revision
    }

    /// Counts completed assistant messages; results of tools do not count.
    pub fn assistant_message_generation(&self) -> (r: u64)
        ensures
            r == self@.assistant_message_generation,
    {
        self.assistant_message_generation
    }

    /// Counts the turns that Pi has settled.
    pub fn agent_settled_generation(&self) -> (r: u64)
        ensures
            r == self@.agent_settled_generation,
    {
        self.agent_settled_generation
    }

    pub fn last_assistant_stop_reason(&self) -> (r: Option<&AssistantStopReason>)
        ensures
            match r {
                Some(reason) => self@.last_assistant_stop_reason == Some(*reason),
                None => self@.last_assistant_stop_reason is None,
            },
    {
        self.last_assistant_stop_reason.as_ref()
    }

    pub fn last_assistant_error(&self) -> (r: Option<&str>)
        ensures
            match r {
                Some(text) => self@.last_assistant_error is Some && text@
                    == self@.last_assistant_error->0@,
                None => self@.last_assistant_error is None,
            },
    {
        match &self.last_assistant_error {
            Some(text) => Some(text.as_str()),
            None => None,
        }
    }

    /// Counts the session replacements that Pi has accepted.
    pub fn session_replacement_generation(&self) -> (r: u64)
        ensures
            r == self@.session_replacement_generation,
    {
        self.session_replacement_generation
    }

    pub fn execution_root(&self) -> (r: &String)
        ensures
            *r == self@.execution_root,
    {
        &self.execution_root
    }

    pub fn execution_isolation(&self) -> (r: ExecutionIsolation)
        ensures
            r == self@.execution_isolation,
    {
        self.execution_isolation
    }

    pub fn project_trust(&self) -> (r: ProjectTrustPolicy)
        ensures
            r == self@.project_trust,
    {
        self.project_trust
    }

    pub fn worktree_identity(&self) -> (r: Option<&GitWorktreeIdentity>)
        ensures
            match r {
                Some(identity) => self@.worktree == Some(*identity),
                None => self@.worktree is None,
            },
    {
        self.worktree.as_ref()
    }

    pub fn process_state(&self) -> (r: ProcessState)
        ensures
            r == self@.process,
    {
        self.process
    }

    pub fn activity_state(&self) -> (r: ActivityState)
        ensures
            r == self@.activity(),
    {
        if self.abort_requested {
            ActivityState::Aborting
        } else if self.compacting {
            ActivityState::Compacting
        } else if !self.pending_ui_requests.is_empty() {
            ActivityState::WaitingForInput
        } else if self.agent_working {
            ActivityState::Working
        } else {
            ActivityState::Idle
        }
    }

    pub fn is_compacting(&self) -> (r: bool)
        ensures
            r == self@.compacting,
    {
        self.compacting
    }

    /// True only while Pi waits before an automatic retry.
    pub fn is_retry_waiting(&self) -> (r: bool)
        ensures
            r == self@.retry_waiting,
    {
        self.retry_waiting
    }

    /// True while Pi retries a summarization. No request cancels that, so a Stop treats
    /// it like active compaction and terminates the process.
    pub fn has_summarization_retry(&self) -> (r: bool)
        ensures
            r == self@.summarization_retry_active,
    {
        self.summarization_retry_active
    }

    pub fn composer_availability(&self) -> (r: ComposerAvailability)
        ensures
            r == self@.availability(),
    {
        if self.process != ProcessState::Ready {
            ComposerAvailability::Unavailable
        } else if self.compacting {
            ComposerAvailability::BlockedByCompaction
        } else if self.agent_working {
            ComposerAvailability::AgentWorking
        } else {
            ComposerAvailability::Ready
        }
    }

    pub fn queue(&self) -> (r: QueueState)
        ensures
            r == self@.queue,
    {
        self.queue
    }

    pub fn session_state(&self) -> (r: &RunSessionState)
        ensures
            *r == self@.session,
    {
        &self.session
    }

    pub fn exit_code(&self) -> (r: Option<i32>)
        ensures
            r == self@.exit_code,
    {
        self.exit_code
    }

    pub fn failure(&self) -> (r: Option<&RunFailure>)
        ensures
            match r {
                Some(failure) => self@.failure == Some(*failure),
                None => self@.failure is None,
            },
    {
        self.failure.as_ref()
    }

    /// Bytes that the retained session identity would take under `name`, at
    /// most `usize::MAX`.
    pub fn retained_runtime_state_bytes_with_name(&self, name: Option<&str>) -> (r: usize)
        ensures
            r == (if self@.retained_bytes(
                match name {
                    Some(text) => Some(text@),
                    None => None,
                },
            ) > usize::MAX {
                usize::MAX as nat
            } else {
                self@.retained_bytes(
                    match name {
                        Some(text) => Some(text@),
                        None => None,
                    },
                )
            }),
    {
        let model_bytes: usize = match &self.session.model {
            Some(model) => text_bytes(model.provider.as_str()).saturating_add(
                text_bytes(model.id.as_str()),
            ).saturating_add(optional_text_bytes(&model.name)),
            None => 0,
        };
        let name_bytes: usize = match name {
            Some(text) => text_bytes(text),
            None => 0,
        };
        model_bytes.saturating_add(optional_text_bytes(&self.session.session_file)).saturating_add(
            optional_text_bytes(&self.session.session_id),
        ).saturating_add(name_bytes)
    }

    pub fn pending_ui_requests(&self) -> (r: usize)
        ensures
            r == self@.pending_ui_requests.len(),
            self@.pending_ui_requests.finite(),
    {
        self.pending_ui_requests.len()
    }

    pub fn has_pending_ui_request(&self, request_id: &str) -> (r: bool)
        ensures
            r == self@.pending_ui_requests.contains(request_id@),
    {
        self.pending_ui_requests.contains_key(&request_id.to_owned())
    }

    pub fn revision(&self) -> (r: u64)
        ensures
            r == self@.revision,
    {
        self.revision
    }

    /// Applies one mutation, or refuses it and changes nothing.
    pub fn apply(
        &mut self,
        mutation: RunMutation,
        max_pending_ui_requests: usize,
        now_unix_ms: u64,
    ) -> (r: Result<(), RuntimeError>)
        ensures
            match old(self)@.refusal(mutation, max_pending_ui_requests) {
                Some(error) => r == Err::<(), RuntimeError>(error) && *final(self) == *old(self),
                None => r is Ok && final(self)@ == old(self)@.applied(mutation, now_unix_ms),
            },
    {
        match self.refuse(&mutation, max_pending_ui_requests) {
            Some(error) => Err(error),
            None => {
                self.perform(mutation, now_unix_ms);
                self.revision = self.revision.saturating_add(1);
                Ok(())
            },
        }
    }

    fn refuse(&self, mutation: &RunMutation, max_pending_ui_requests: usize) -> (r: Option<
        RuntimeError,
    >)
        ensures
            r == self@.refusal(*mutation, max_pending_ui_requests),
    {
        if !mutation.is_allowed_in(self.process) {
            return Some(
                RuntimeError::InvalidProcessState {
                    mutation: mutation.name(),
                    actual: self.process,
                },
            );
        }
        match mutation {
            RunMutation::UiRequestOpened { request_id } => {
                if self.pending_ui_requests.contains_key(request_id) {
                    Some(RuntimeError::DuplicateUiRequest { request_id: request_id.clone() })
                } else if self.pending_ui_requests.len() >= max_pending_ui_requests {
                    Some(RuntimeError::PendingUiLimit { limit: max_pending_ui_requests })
                } else {
                    None
                }
            },
            RunMutation::UiRequestClosed { request_id } => {
                if self.pending_ui_requests.contains_key(request_id) {
                    None
                } else {
                    Some(RuntimeError::UnknownUiRequest { request_id: request_id.clone() })
                }
            },
            RunMutation::AbortRequested => {
                if self.agent_working {
                    None
                } else {
                    Some(RuntimeError::AbortWhileIdle)
                }
            },
            _ => None,
        }
    }

    fn perform(&mut self, mutation: RunMutation, now_unix_ms: u64)
        ensures
            final(self)@ == old(self)@.effect(mutation, now_unix_ms),
    {
        match &mutation {
            RunMutation::AgentStarted | RunMutation::CompactionStarted
            | RunMutation::CompactionEnded | RunMutation::AgentSettled
            | RunMutation::AutoRetryStarted | RunMutation::AutoRetryEnded
            | RunMutation::SummarizationRetryStarted | RunMutation::SummarizationRetryEnded
            | RunMutation::AbortRequested | RunMutation::UiRequestOpened { .. }
            | RunMutation::UiRequestClosed { .. } | RunMutation::QueueChanged(_) => {
                self.perform_turn(mutation);
            },
            RunMutation::ProcessReady | RunMutation::BeginStop | RunMutation::ProcessExited { .. }
            | RunMutation::ProcessFailed { .. } | RunMutation::ProcessQuarantined { .. } => {
                self.perform_lifecycle(mutation, now_unix_ms);
            },
            _ => {
                self.perform_session(mutation);
            },
        }
    }

    fn perform_turn(&mut self, mutation: RunMutation)
        requires
            matches!(
                mutation,
                RunMutation::AgentStarted | RunMutation::CompactionStarted
                    | RunMutation::CompactionEnded | RunMutation::AgentSettled
                    | RunMutation::AutoRetryStarted | RunMutation::AutoRetryEnded
                    | RunMutation::SummarizationRetryStarted
                    | RunMutation::SummarizationRetryEnded | RunMutation::AbortRequested
                    | RunMutation::UiRequestOpened { .. } | RunMutation::UiRequestClosed { .. }
                    | RunMutation::QueueChanged(_)
            ),
        ensures
            final(self)@ == old(self)@.effect(mutation, 0),
    {
        match mutation {
            RunMutation::AgentStarted => {
                self.agent_working = true;
                self.abort_requested = false;
                self.retry_waiting = false;
            },
            RunMutation::CompactionStarted => {
                self.compacting = true;
            },
            RunMutation::CompactionEnded => {
                self.compacting = false;
            },
            RunMutation::AgentSettled => {
                self.agent_working = false;
                self.abort_requested = false;
                self.retry_waiting = false;
                self.summarization_retry_active = false;
                self.agent_settled_generation = self.agent_settled_generation.saturating_add(1);
            },
            RunMutation::AutoRetryStarted => {
                self.retry_waiting = true;
            },
            RunMutation::AutoRetryEnded => {
                self.retry_waiting = false;
            },
            RunMutation::SummarizationRetryStarted => {
                self.summarization_retry_active = true;
            },
            RunMutation::SummarizationRetryEnded => {
                self.summarization_retry_active = false;
            },
            RunMutation::UiRequestOpened { request_id } => {
                let ghost pending = self.pending_ui_requests@.dom();
                let ghost opened = request_id@;
                self.pending_ui_requests.insert(request_id, ());
                assert(self.pending_ui_requests@.dom() =~= pending.insert(opened));
            },
            RunMutation::UiRequestClosed { request_id } => {
                let ghost pending = self.pending_ui_requests@.dom();
                let closed = self.pending_ui_requests.remove(&request_id);
                assert(self.pending_ui_requests@.dom() =~= pending.remove(request_id@));
            },
            RunMutation::AbortRequested => {
                self.abort_requested = true;
            },
            RunMutation::QueueChanged(queue) => {
                self.queue = queue;
            },
            _ => {},
        }
    }

    fn perform_session(&mut self, mutation: RunMutation)
        requires
            matches!(
                mutation,
                RunMutation::AssistantMessageCompleted { .. }
                    | RunMutation::SessionReplacementAccepted | RunMutation::StateObserved(_)
                    | RunMutation::ThinkingLevelChanged(_) | RunMutation::SessionNameChanged(_)
                    | RunMutation::ChangesMayHaveChanged
            ),
        ensures
            final(self)@ == old(self)@.effect(mutation, 0),
    {
        match mutation {
            RunMutation::AssistantMessageCompleted { stop_reason, error_message } => {
                self.assistant_message_generation =
                self.assistant_message_generation.saturating_add(1);
                self.last_assistant_stop_reason = Some(stop_reason);
                self.last_assistant_error = error_message;
            },
            RunMutation::SessionReplacementAccepted => {
                self.session_replacement_generation =
                self.session_replacement_generation.saturating_add(1);
                self.last_assistant_stop_reason = None;
                self.last_assistant_error = None;
            },
            RunMutation::StateObserved(observation) => {
                self.agent_working = observation.is_streaming;
                self.compacting = observation.is_compacting;
                if !observation.is_streaming {
                    self.abort_requested = false;
                }
                self.session =
                RunSessionState {
                    model: observation.model,
                    thinking_level: Some(observation.thinking_level),
                    steering_mode: Some(observation.steering_mode),
                    follow_up_mode: Some(observation.follow_up_mode),
                    session_file: observation.session_file,
                    session_id: Some(observation.session_id),
                    session_name: observation.session_name,
                    auto_compaction_enabled: Some(observation.auto_compaction_enabled),
                    message_count: Some(observation.message_count),
                    pending_message_count: Some(observation.pending_message_count),
                };
            },
            RunMutation::ThinkingLevelChanged(level) => {
                self.session.thinking_level = Some(level);
            },
            RunMutation::SessionNameChanged(name) => {
                self.session.session_name = name;
            },
            RunMutation::ChangesMayHaveChanged => {
                self.change_revision = self.change_revision.saturating_add(1);
            },
            _ => {},
        }
    }

    fn perform_lifecycle(&mut self, mutation: RunMutation, now_unix_ms: u64)
        requires
            matches!(
                mutation,
                RunMutation::ProcessReady | RunMutation::BeginStop
                    | RunMutation::ProcessExited { .. } | RunMutation::ProcessFailed { .. }
                    | RunMutation::ProcessQuarantined { .. }
            ),
        ensures
            final(self)@ == old(self)@.effect(mutation, now_unix_ms),
    {
        match mutation {
            RunMutation::ProcessReady => {
                self.process = ProcessState::Ready;
            },
            RunMutation::BeginStop => {
                self.process = ProcessState::Stopping;
                self.abort_requested = self.agent_working;
            },
            RunMutation::ProcessExited { code } => {
                self.process = ProcessState::Exited;
                self.terminal_unix_ms = Some(now_unix_ms);
                self.exit_code = code;
                self.clear_hot_activity();
            },
            RunMutation::ProcessFailed { failure, code } => {
                self.process = ProcessState::Failed;
                self.terminal_unix_ms = Some(now_unix_ms);
                self.exit_code = code;
                self.failure = Some(failure);
                self.clear_hot_activity();
            },
            RunMutation::ProcessQuarantined { failure } => {
                self.process = ProcessState::Quarantined;
                self.terminal_unix_ms = Some(now_unix_ms);
                self.failure = Some(failure);
                self.clear_hot_activity();
            },
            _ => {},
        }
    }

    fn clear_hot_activity(&mut self)
        ensures
            final(self)@ == old(self)@.without_activity(),
    {
        self.agent_working = false;
        self.compacting = false;
        self.abort_requested = false;
        self.retry_waiting = false;
        self.summarization_retry_active = false;
        self.pending_ui_requests.clear();
        self.queue = QueueState::default();
        assert(self.pending_ui_requests@.dom() =~= Set::<Seq<char>>::empty());
    }
}

/// Bytes of an optional text.
fn optional_text_bytes(value: &Option<String>) -> (n: usize)
    ensures
        n == optional_bytes(*value),
{
    match value {
        Some(text) => text_bytes(text.as_str()),
        None => 0,
    }
}

/// A copy of a set of texts.
fn copy_text_set(set: &KeyMap<String, ()>) -> (r: KeyMap<String, ()>)
    ensures
        r@.dom() == set@.dom(),
{
    let mut r: KeyMap<String, ()> = KeyMap::new();
    let n: usize = set.len();
    let mut i: usize = 0;
    assert(r@.dom() =~= set.key_models().take(0).to_set());
    while i < n
        invariant
            i <= n == set.key_models().len(),
            r@.dom() == set.key_models().take(i as int).to_set(),
        decreases n - i,
    {
        let key = set.key_at(i);
        let ghost before = set.key_models().take(i as int);
        let ghost after = set.key_models().take(i + 1);
        r.insert(key.clone(), ());
        proof {
            assert(after =~= before.push(set.key_models()[i as int]));
            assert(after.to_set() =~= before.to_set().insert(set.key_models()[i as int])) by {
                assert forall|x: Seq<char>| before.to_set().insert(
                    set.key_models()[i as int],
                ).contains(x) implies after.to_set().contains(x) by {
                    if x == set.key_models()[i as int] {
                        assert(after[i as int] == x);
                    } else {
                        let k = choose|k: int| 0 <= k < before.len() && before[k] == x;
                        assert(after[k] == x);
                    }
                }
            }
            assert(r@.dom() =~= after.to_set());
        }
        i += 1;
    }
    assert(set.key_models().take(n as int) =~= set.key_models());
    r
}

impl Clone for RunRecord {
    fn clone(&self) -> (r: Self)
        ensures
            r@ == self@,
    {
        RunRecord {
            id: self.id,
            project_id: self.project_id,
            execution_root: self.execution_root.clone(),
            execution_isolation: self.execution_isolation,
            worktree: match &self.worktree {
                Some(identity) => Some(identity.clone()),
                None => None,
            },
            project_trust: self.project_trust,
            started_unix_ms: self.started_unix_ms,
            terminal_unix_ms: self.terminal_unix_ms,
            change_revision: self.change_revision,
            assistant_message_generation: self.assistant_message_generation,
            agent_settled_generation: self.agent_settled_generation,
            last_assistant_stop_reason: match &self.last_assistant_stop_reason {
                Some(reason) => Some(reason.clone()),
                None => None,
            },
            last_assistant_error: copy_optional(&self.last_assistant_error),
            session_replacement_generation: self.session_replacement_generation,
            process: self.process,
            agent_working: self.agent_working,
            compacting: self.compacting,
            abort_requested: self.abort_requested,
            retry_waiting: self.retry_waiting,
            summarization_retry_active: self.summarization_retry_active,
            pending_ui_requests: copy_text_set(&self.pending_ui_requests),
            queue: self.queue,
            session: self.session.clone(),
            exit_code: self.exit_code,
            failure: match &self.failure {
                Some(failure) => Some(failure.clone()),
                None => None,
            },
            revision: self.revision,
        }
    }
}

/// Model of a [`RuntimeStore`].
pub struct RuntimeStoreView {
    pub runs: Map<RunId, RunRecordView>,
    pub max_pending_ui_requests_per_run: usize,
    pub revision: u64,
}

impl RuntimeStoreView {
    /// Every run stands under its own identity.
    pub open spec fn wf(self) -> bool {
        forall|id: RunId| #[trigger]
            self.runs.contains_key(id) ==> self.runs[id].id == id
    }

    /// Why a mutation of run `run_id` is refused, if it is.
    pub open spec fn refusal(self, run_id: RunId, mutation: RunMutation) -> Option<RuntimeError> {
        if self.runs.contains_key(run_id) {
            self.runs[run_id].refusal(mutation, self.max_pending_ui_requests_per_run)
        } else {
            Some(RuntimeError::UnknownRun { run_id })
        }
    }

    /// The store after an accepted mutation of run `run_id`.
    pub open spec fn applied(self, run_id: RunId, mutation: RunMutation, now_unix_ms: u64) -> Self {
        RuntimeStoreView {
            runs: self.runs.insert(run_id, self.runs[run_id].applied(mutation, now_unix_ms)),
            revision: sat_add_u64(self.revision, 1),
            ..self
        }
    }
}

/// All runs of one runtime.
#[derive(Debug)]
pub struct RuntimeStore {
    runs: KeyMap<RunId, RunRecord>,
    max_pending_ui_requests_per_run: usize,
    revision: u64,
}

impl View for RuntimeStore {
    type V = RuntimeStoreView;

    closed spec fn view(&self) -> RuntimeStoreView {
        RuntimeStoreView {
            runs: self.runs@,
            max_pending_ui_requests_per_run: self.max_pending_ui_requests_per_run,
            revision: self.revision,
        }
    }
}

impl RuntimeStore {
    #[verifier::type_invariant]
    closed spec fn keyed(&self) -> bool {
        forall|id: RunId| #[trigger] self.runs@.contains_key(id) ==> self.runs@[id].id == id
    }

    /// The identities of the runs, in order.
    pub closed spec fn run_ids(&self) -> Seq<RunId> {
        self.runs.key_models()
    }

    pub fn new(limits: RuntimeLimits) -> (r: Self)
        ensures
            r@ == (RuntimeStoreView {
                runs: Map::empty(),
                max_pending_ui_requests_per_run: limits.max_pending_ui_requests_per_run,
                revision: 0,
            }),
            r@.wf(),
    {
        RuntimeStore {
            runs: KeyMap::new(),
            max_pending_ui_requests_per_run: limits.max_pending_ui_requests_per_run,
            revision: 0,
        }
    }

    pub fn register(&mut self, record: RunRecord) -> (r: Result<(), RuntimeError>)
        ensures
            old(self)@.runs.contains_key(record@.id) ==> r == Err::<(), RuntimeError>(
                RuntimeError::DuplicateRun { run_id: record@.id },
            ) && final(self)@ == old(self)@,
            !old(self)@.runs.contains_key(record@.id) ==> r is Ok && final(self)@ == (
            RuntimeStoreView {
                runs: old(self)@.runs.insert(record@.id, record@),
                revision: sat_add_u64(old(self)@.revision, 1),
                ..old(self)@
            }),
            old(self)@.wf() ==> final(self)@.wf(),
    {
        let id = record.id();
        if self.runs.contains_key(&id) {
            return Err(RuntimeError::DuplicateRun { run_id: id });
        }
        proof {
            use_type_invariant(&*self);
        }
        let mut runs: KeyMap<RunId, RunRecord> = KeyMap::new();
        core::mem::swap(&mut runs, &mut self.runs);
        runs.insert(id, record);
        self.runs = runs;
        self.revision = self.revision.saturating_add(1);
        Ok(())
    }

    /// Applies one mutation to one run, or refuses it and changes nothing.
    pub fn apply(&mut self, run_id: RunId, mutation: RunMutation, now_unix_ms: u64) -> (r: Result<
        (),
        RuntimeError,
    >)
        ensures
            match old(self)@.refusal(run_id, mutation) {
                Some(error) => r == Err::<(), RuntimeError>(error) && final(self)@ == old(self)@,
                None => r is Ok && final(self)@ == old(self)@.applied(
                    run_id,
                    mutation,
                    now_unix_ms,
                ),
            },
            old(self)@.wf() ==> final(self)@.wf(),
    {
        let ghost before = self@;
        proof {
            use_type_invariant(&*self);
        }
        let mut runs: KeyMap<RunId, RunRecord> = KeyMap::new();
        core::mem::swap(&mut runs, &mut self.runs);
        match runs.remove(&run_id) {
            None => {
                assert(runs@ =~= before.runs);
                self.runs = runs;
                Err(RuntimeError::UnknownRun { run_id })
            },
            Some(mut record) => {
                let result = record.apply(
                    mutation,
                    self.max_pending_ui_requests_per_run,
                    now_unix_ms,
                );
                runs.insert(run_id, record);
                self.runs = runs;
                match result {
                    Ok(()) => {
                        self.revision = self.revision.saturating_add(1);
                        assert(self@.runs =~= before.applied(run_id, mutation, now_unix_ms).runs);
                        Ok(())
                    },
                    Err(error) => {
                        assert(self@.runs =~= before.runs);
                        Err(error)
                    },
                }
            },
        }
    }

    pub fn get(&self, run_id: RunId) -> (r: Option<&RunRecord>)
        ensures
            match r {
                Some(record) => self@.runs.contains_key(run_id) && record@ == self@.runs[run_id],
                None => !self@.runs.contains_key(run_id),
            },
    {
        self.runs.get(&run_id)
    }

    /// All runs, in the order of their identities.
    pub fn records(&self) -> (r: Vec<&RunRecord>)
        ensures
            r@.len() == self.run_ids().len(),
            forall|i: int|
                0 <= i < r@.len() ==> (#[trigger] r@[i])@ == self@.runs[self.run_ids()[i]],
            self.run_ids().to_set() == self@.runs.dom(),
            strictly_ordered::<RunId>(self.run_ids()),
    {
        let n: usize = self.runs.len();
        let mut r: Vec<&RunRecord> = Vec::new();
        let mut i: usize = 0;
        while i < n
            invariant
                i <= n == self.runs.key_models().len(),
                r@.len() == i,
                forall|k: int|
                    0 <= k < i ==> (#[trigger] r@[k])@ == self.runs@[self.runs.key_models()[k]],
            decreases n - i,
        {
            let record = self.runs.value_at(i);
            r.push(record);
            i += 1;
        }
        r
    }

    pub fn revision(&self) -> (r: u64)
        ensures
            r == self@.revision,
    {
        self.revision
    }

    /// Takes out a run whose process has ended.
    pub fn remove_terminal(&mut self, run_id: RunId) -> (r: Result<RunRecord, RuntimeError>)
        ensures
            match r {
                Ok(record) => old(self)@.runs.contains_key(run_id)
                    && record@ == old(self)@.runs[run_id] && record@.process.terminal()
                    && final(self)@ == (
                RuntimeStoreView {
                    runs: old(self)@.runs.remove(run_id),
                    revision: sat_add_u64(old(self)@.revision, 1),
                    ..old(self)@
                }),
                Err(error) => final(self)@ == old(self)@ && if old(self)@.runs.contains_key(
                    run_id,
                ) {
                    !old(self)@.runs[run_id].process.terminal() && error
                        == (RuntimeError::RemoveLiveRun { run_id })
                } else {
                    error == (RuntimeError::UnknownRun { run_id })
                },
            },
            old(self)@.wf() ==> final(self)@.wf(),
    {
        match self.runs.get(&run_id) {
            None => {
                return Err(RuntimeError::UnknownRun { run_id });
            },
            Some(record) => {
                if !record.process_state().is_terminal() {
                    return Err(RuntimeError::RemoveLiveRun { run_id });
                }
            },
        }
        proof {
            use_type_invariant(&*self);
        }
        let ghost before = self@;
        let mut runs: KeyMap<RunId, RunRecord> = KeyMap::new();
        core::mem::swap(&mut runs, &mut self.runs);
        let removed = runs.remove(&run_id);
        self.runs = runs;
        match removed {
            Some(removed) => {
                self.revision = self.revision.saturating_add(1);
                Ok(removed)
            },
            None => Err(RuntimeError::UnknownRun { run_id }),
        }
    }

    /// How many runs there are. Each stands under its own identity.
    pub fn len(&self) -> (r: usize)
        ensures
            r == self@.runs.dom().len(),
            self@.runs.dom().finite(),
            self@.wf(),
    {
        proof {
            use_type_invariant(self);
        }
        self.runs.len()
    }

    pub fn is_empty(&self) -> (r: bool)
        ensures
            r == (self@.runs.dom().len() == 0),
    {
        self.runs.is_empty()
    }
}

} // verus!
