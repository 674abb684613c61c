//! Operations of a caller that take several requests.
//!
//! A change is followed by a look at the state of the session, so that who asked for
//! it sees what Pi made of it.
use vstd::prelude::*;
use vstd::string::*;

use crate::rpc::{RpcCommand, RpcResponse, RpcResponseOutcome, ThinkingLevel};
use crate::runtime::manager::actions::{ManagedRpcCompletion, SessionReplacementResult};
use crate::runtime::manager::lifecycle::{ManagerErrorView, RuntimeManagerError};
use crate::text::join;

verus! {

/// What a caller wants done.
#[derive(Debug, PartialEq, Eq)]
pub enum ManagedOperation {
    SetModel { provider: String, model_id: String },
    SetThinkingLevel { level: ThinkingLevel },
    SetAutoCompaction { enabled: bool },
    CompactSession,
    SessionStats,
    SetSessionName { name: String },
    CloneSession,
    ForkSession { entry_id: String },
}

/// Which operation is under way.
#[derive(Clone, Copy, Debug, PartialEq, Eq, Structural)]
pub enum OperationKind {
    SetModel,
    SetThinkingLevel,
    SetAutoCompaction,
    CompactSession,
    SessionStats,
    SetSessionName,
    CloneSession,
    ForkSession,
}

/// What an operation waits for.
#[derive(Clone, Copy, Debug, PartialEq, Eq, Structural)]
pub enum OperationStage {
    /// Its own request.
    Change,
    /// The thinking levels of a new model.
    Refresh,
    /// The state of the session.
    State,
}

/// How an operation goes on.
#[derive(Debug, PartialEq, Eq)]
pub enum OperationStep {
    Request { stage: OperationStage, command: RpcCommand },
    /// It is done.
    Done,
    /// The session was replaced, or a Pi extension did not allow it.
    Replaced(SessionReplacementResult),
    Fail(RuntimeManagerError),
}

impl ManagedOperation {
    pub open spec fn spec_kind(self) -> OperationKind {
        match self {
            ManagedOperation::SetModel { .. } => OperationKind::SetModel,
            ManagedOperation::SetThinkingLevel { .. } => OperationKind::SetThinkingLevel,
            ManagedOperation::SetAutoCompaction { .. } => OperationKind::SetAutoCompaction,
            ManagedOperation::CompactSession => OperationKind::CompactSession,
            ManagedOperation::SessionStats => OperationKind::SessionStats,
            ManagedOperation::SetSessionName { .. } => OperationKind::SetSessionName,
            ManagedOperation::CloneSession => OperationKind::CloneSession,
            ManagedOperation::ForkSession { .. } => OperationKind::ForkSession,
        }
    }

    /// The request of its own.
    pub open spec fn own_command(self) -> RpcCommand {
        match self {
            ManagedOperation::SetModel { provider, model_id } => RpcCommand::SetModel {
                provider,
                model_id,
            },
            ManagedOperation::SetThinkingLevel { level } => RpcCommand::SetThinkingLevel { level },
            ManagedOperation::SetAutoCompaction { enabled } => RpcCommand::SetAutoCompaction {
                enabled,
            },
            ManagedOperation::CompactSession => RpcCommand::Compact { custom_instructions: None },
            ManagedOperation::SessionStats => RpcCommand::GetSessionStats,
            ManagedOperation::SetSessionName { name } => RpcCommand::SetSessionName { name },
            ManagedOperation::CloneSession => RpcCommand::Clone,
            ManagedOperation::ForkSession { entry_id } => RpcCommand::Fork { entry_id },
        }
    }

    /// Begins an operation: which one it is, and its own request.
    pub fn begin(self) -> (r: (OperationKind, RpcCommand))
        ensures
            r.0 == self.spec_kind(),
            r.1 == self.own_command(),
    {
        match self {
            ManagedOperation::SetModel { provider, model_id } => (
                OperationKind::SetModel,
                RpcCommand::SetModel { provider, model_id },
            ),
            ManagedOperation::SetThinkingLevel { level } => (
                OperationKind::SetThinkingLevel,
                RpcCommand::SetThinkingLevel { level },
            ),
            ManagedOperation::SetAutoCompaction { enabled } => (
                OperationKind::SetAutoCompaction,
                RpcCommand::SetAutoCompaction { enabled },
            ),
            ManagedOperation::CompactSession => (
                OperationKind::CompactSession,
                RpcCommand::Compact { custom_instructions: None },
            ),
            ManagedOperation::SessionStats => (
                OperationKind::SessionStats,
                RpcCommand::GetSessionStats,
            ),
            ManagedOperation::SetSessionName { name } => (
                OperationKind::SetSessionName,
                RpcCommand::SetSessionName { name },
            ),
            ManagedOperation::CloneSession => (OperationKind::CloneSession, RpcCommand::Clone),
            ManagedOperation::ForkSession { entry_id } => (
                OperationKind::ForkSession,
                RpcCommand::Fork { entry_id },
            ),
        }
    }
}

/// What is being done, in words.
pub open spec fn operation_name(kind: OperationKind, stage: OperationStage) -> Seq<char> {
    match stage {
        OperationStage::Change => match kind {
            OperationKind::SetModel => "set model"@,
            OperationKind::SetThinkingLevel => "set thinking level"@,
            OperationKind::SetAutoCompaction => "set automatic compaction"@,
            OperationKind::CompactSession => "compact session"@,
            OperationKind::SessionStats => "get session stats"@,
            OperationKind::SetSessionName => "set session name"@,
            OperationKind::CloneSession => "clone session"@,
            OperationKind::ForkSession => "fork session"@,
        },
        OperationStage::Refresh => "refresh thinking levels after model change"@,
        OperationStage::State => match kind {
            OperationKind::SetModel => "reconcile model state"@,
            OperationKind::SetThinkingLevel => "reconcile thinking state"@,
            OperationKind::SetAutoCompaction => "reconcile automatic compaction state"@,
            OperationKind::CompactSession => "reconcile compacted session"@,
            OperationKind::SessionStats => "reconcile session stats"@,
            OperationKind::SetSessionName => "reconcile session name"@,
            OperationKind::CloneSession => "reconcile cloned session"@,
            OperationKind::ForkSession => "reconcile forked session"@,
        },
    }
}

fn name_operation(kind: OperationKind, stage: OperationStage) -> (r: &'static str)
    ensures
        r@ == operation_name(kind, stage),
{
    match stage {
        OperationStage::Change => match kind {
            OperationKind::SetModel => "set model",
            OperationKind::SetThinkingLevel => "set thinking level",
            OperationKind::SetAutoCompaction => "set automatic compaction",
            OperationKind::CompactSession => "compact session",
            OperationKind::SessionStats => "get session stats",
            OperationKind::SetSessionName => "set session name",
            OperationKind::CloneSession => "clone session",
            OperationKind::ForkSession => "fork session",
        },
        OperationStage::Refresh => "refresh thinking levels after model change",
        OperationStage::State => match kind {
            OperationKind::SetModel => "reconcile model state",
            OperationKind::SetThinkingLevel => "reconcile thinking state",
            OperationKind::SetAutoCompaction => "reconcile automatic compaction state",
            OperationKind::CompactSession => "reconcile compacted session",
            OperationKind::SessionStats => "reconcile session stats",
            OperationKind::SetSessionName => "reconcile session name",
            OperationKind::CloneSession => "reconcile cloned session",
            OperationKind::ForkSession => "reconcile forked session",
        },
    }
}

/// Why an operation did not succeed.
pub open spec fn rejection(response: RpcResponse) -> Seq<char> {
    match response.error {
        Some(error) => error@,
        None => match response.spec_outcome() {
            RpcResponseOutcome::Cancelled => "operation was cancelled by a Pi extension"@,
            RpcResponseOutcome::Rejected => "Pi rejected the operation"@,
            RpcResponseOutcome::Accepted => "operation did not complete as expected"@,
        },
    }
}

/// The error of an operation that did not succeed.
pub open spec fn rejected(operation: Seq<char>, response: RpcResponse) -> ManagerErrorView {
    ManagerErrorView::Operation(operation + ": "@ + rejection(response))
}

/// The error of an operation that did not succeed.
pub fn rejected_operation(operation: &str, completion: &ManagedRpcCompletion) -> (r:
    RuntimeManagerError)
    ensures
        r@ == rejected(operation@, completion.response),
{
    let detail = match &completion.response.error {
        Some(error) => error.as_str(),
        None => match completion.response.outcome() {
            RpcResponseOutcome::Cancelled => "operation was cancelled by a Pi extension",
            RpcResponseOutcome::Rejected => "Pi rejected the operation",
            RpcResponseOutcome::Accepted => "operation did not complete as expected",
        },
    };
    let mut text = join(operation, ": ");
    text.append(detail);
    RuntimeManagerError::Operation(text)
}

/// Whether Pi accepted a request, or the error that says why not.
pub fn require_accepted(operation: &str, completion: &ManagedRpcCompletion) -> (r: Result<
    (),
    RuntimeManagerError,
>)
    ensures
        if completion.response.spec_outcome() == RpcResponseOutcome::Accepted {
            r is Ok
        } else {
            r is Err && r->Err_0@ == rejected(operation@, completion.response)
        },
{
    match completion.response.outcome() {
        RpcResponseOutcome::Accepted => Ok(()),
        RpcResponseOutcome::Rejected | RpcResponseOutcome::Cancelled => Err(
            rejected_operation(operation, completion),
        ),
    }
}

/// Model of an [`OperationStep`].
pub enum OperationStepView {
    Request { stage: OperationStage, command: RpcCommand },
    Done,
    Replaced(SessionReplacementResult),
    Fail(ManagerErrorView),
}

impl View for OperationStep {
    type V = OperationStepView;

    open spec fn view(&self) -> OperationStepView {
        match *self {
            OperationStep::Request { stage, command } => OperationStepView::Request {
                stage,
                command,
            },
            OperationStep::Done => OperationStepView::Done,
            OperationStep::Replaced(result) => OperationStepView::Replaced(result),
            OperationStep::Fail(error) => OperationStepView::Fail(error@),
        }
    }
}

/// Whether an operation replaces the session.
pub open spec fn replaces(kind: OperationKind) -> bool {
    kind == OperationKind::CloneSession || kind == OperationKind::ForkSession
}

/// How an operation goes on once Pi has answered.
pub open spec fn operation_after(
    kind: OperationKind,
    stage: OperationStage,
    response: RpcResponse,
) -> OperationStepView {
    let outcome = response.spec_outcome();
    if replaces(kind) && stage == OperationStage::Change && outcome
        == RpcResponseOutcome::Cancelled {
        OperationStepView::Replaced(SessionReplacementResult { cancelled: true })
    } else if outcome != RpcResponseOutcome::Accepted {
        OperationStepView::Fail(rejected(operation_name(kind, stage), response))
    } else {
        match stage {
            OperationStage::Change => if kind == OperationKind::SessionStats {
                OperationStepView::Done
            } else if kind == OperationKind::SetModel {
                OperationStepView::Request {
                    stage: OperationStage::Refresh,
                    command: RpcCommand::GetAvailableThinkingLevels,
                }
            } else {
                OperationStepView::Request {
                    stage: OperationStage::State,
                    command: RpcCommand::GetState,
                }
            },
            OperationStage::Refresh => OperationStepView::Request {
                stage: OperationStage::State,
                command: RpcCommand::GetState,
            },
            OperationStage::State => if replaces(kind) {
                OperationStepView::Replaced(SessionReplacementResult { cancelled: false })
            } else {
                OperationStepView::Done
            },
        }
    }
}

/// How an operation goes on once Pi has answered.
pub fn continue_operation(
    kind: OperationKind,
    stage: OperationStage,
    completion: &ManagedRpcCompletion,
) -> (r: OperationStep)
    ensures
        r@ == operation_after(kind, stage, completion.response),
{
    let replacing = kind == OperationKind::CloneSession || kind == OperationKind::ForkSession;
    let outcome = completion.response.outcome();
    if replacing && stage == OperationStage::Change && outcome == RpcResponseOutcome::Cancelled {
        return OperationStep::Replaced(SessionReplacementResult { cancelled: true });
    }
    match require_accepted(name_operation(kind, stage), completion) {
        Err(error) => {
            return OperationStep::Fail(error);
        },
        Ok(_) => {},
    }
    match stage {
        OperationStage::Change => {
            if kind == OperationKind::SessionStats {
                OperationStep::Done
            } else if kind == OperationKind::SetModel {
                OperationStep::Request {
                    stage: OperationStage::Refresh,
                    command: RpcCommand::GetAvailableThinkingLevels,
                }
            } else {
                OperationStep::Request {
                    stage: OperationStage::State,
                    command: RpcCommand::GetState,
                }
            }
        },
        OperationStage::Refresh => OperationStep::Request {
            stage: OperationStage::State,
            command: RpcCommand::GetState,
        },
        OperationStage::State => {
            if replacing {
                OperationStep::Replaced(SessionReplacementResult { cancelled: false })
            } else {
                OperationStep::Done
            }
        },
    }
}

/// An operation that changes anything is done only after Pi has shown the state that
/// came of it.
pub proof fn changes_end_with_the_state(
    kind: OperationKind,
    stage: OperationStage,
    response: RpcResponse,
)
    ensures
        operation_after(kind, stage, response) is Done && kind != OperationKind::SessionStats
            ==> stage == OperationStage::State,
        operation_after(kind, stage, response) == OperationStepView::Replaced(
            SessionReplacementResult { cancelled: false },
        ) ==> stage == OperationStage::State,
{
}

} // verus!
