//! The user-facing Stop of one run.
use vstd::prelude::*;
use vstd::string::*;

use crate::ids::{RequestId, RunId};
use crate::limits::RuntimeLimits;
use crate::rpc::{
    ClearQueueResult, ClearQueueView, RpcCommand, RpcRequest, RpcResponse, RpcResponseOutcome,
};
use crate::runtime::state::{
    ActivityState, ProcessState, RunMutation, RuntimeError, RuntimeStore, RuntimeStoreView,
};
use crate::text::{copy_optional, same_text, sat_add_u64};

verus! {

#[derive(Clone, Copy, Debug, PartialEq, Eq, Structural)]
pub enum StopEscalationReason {
    ProcessStillStarting,
    ClearQueueRejected,
    ClearQueueInvalidResponse,
    AbortRejected,
    RpcDeadlineExpired,
    CompactionHasNoRpcAbort,
}

#[derive(Debug, PartialEq, Eq)]
pub enum StopPhase {
    AwaitingClearQueue { request_id: RequestId },
    AwaitingAbort { request_id: RequestId },
    WaitingForAgentSettled,
    Complete,
    EscalationRequired,
}

/// What the owner of the process has to do next.
#[allow(inconsistent_fields)]
#[derive(Debug, PartialEq, Eq)]
pub enum StopDirective {
    Send(RpcRequest),
    WaitForAgentSettled,
    Complete { recovered: ClearQueueResult },
    TerminateProcess {
        reason: StopEscalationReason,
        recovered: Option<ClearQueueResult>,
        termination_deadline_ms: u64,
    },
    Nothing,
}

/// Model of a [`StopDirective`].
#[allow(inconsistent_fields)]
pub enum StopDirectiveView {
    Send(RpcRequest),
    WaitForAgentSettled,
    Complete { recovered: ClearQueueView },
    TerminateProcess {
        reason: StopEscalationReason,
        recovered: Option<ClearQueueView>,
        termination_deadline_ms: u64,
    },
    Nothing,
}

/// The model of an optional recovered queue.
pub open spec fn queue_option(queue: Option<ClearQueueResult>) -> Option<ClearQueueView> {
    match queue {
        Some(queue) => Some(queue@),
        None => None,
    }
}

impl View for StopDirective {
    type V = StopDirectiveView;

    open spec fn view(&self) -> StopDirectiveView {
        match self {
            StopDirective::Send(request) => StopDirectiveView::Send(*request),
            StopDirective::WaitForAgentSettled => StopDirectiveView::WaitForAgentSettled,
            StopDirective::Complete { recovered } => StopDirectiveView::Complete {
                recovered: recovered@,
            },
            StopDirective::TerminateProcess { reason, recovered, termination_deadline_ms } =>
                StopDirectiveView::TerminateProcess {
                reason: *reason,
                recovered: queue_option(*recovered),
                termination_deadline_ms: *termination_deadline_ms,
            },
            StopDirective::Nothing => StopDirectiveView::Nothing,
        }
    }
}

#[derive(Debug, PartialEq, Eq)]
pub enum StopTransactionError {
    UnknownRun { run_id: RunId },
    AlreadyStopping { run_id: RunId },
    TerminalRun { run_id: RunId, process: ProcessState },
    UnexpectedResponseId { expected: RequestId, actual: Option<String> },
    Runtime(RuntimeError),
}

/// One Stop. Aborting the work of the agent is kept apart from terminating the
/// process: a normal Stop leaves the child alive and reusable, and escalation
/// moves the process to `Stopping` before it is terminated.
#[derive(Debug)]
pub struct StopTransaction {
    run_id: RunId,
    limits: RuntimeLimits,
    phase: StopPhase,
    recovered: Option<ClearQueueResult>,
    agent_settled: bool,
    rpc_deadline_ms: u64,
    termination_deadline_ms: u64,
}

/// Model of a [`StopTransaction`].
pub struct StopTransactionView {
    pub run_id: RunId,
    pub limits: RuntimeLimits,
    pub phase: StopPhase,
    pub recovered: Option<ClearQueueView>,
    pub agent_settled: bool,
    pub rpc_deadline_ms: u64,
    pub termination_deadline_ms: u64,
}

impl View for StopTransaction {
    type V = StopTransactionView;

    closed spec fn view(&self) -> StopTransactionView {
        StopTransactionView {
            run_id: self.run_id,
            limits: self.limits,
            phase: self.phase,
            recovered: queue_option(self.recovered),
            agent_settled: self.agent_settled,
            rpc_deadline_ms: self.rpc_deadline_ms,
            termination_deadline_ms: self.termination_deadline_ms,
        }
    }
}

/// A Stop and the runs it acts on, after one step, with what the step reports.
pub struct StopStep {
    pub stop: StopTransactionView,
    pub store: RuntimeStoreView,
    pub result: Result<StopDirectiveView, StopTransactionError>,
}

impl StopTransactionView {
    /// A Stop that has just begun and has done nothing yet.
    pub open spec fn fresh(run_id: RunId, now_ms: u64, limits: RuntimeLimits) -> Self {
        StopTransactionView {
            run_id,
            limits,
            phase: StopPhase::Complete,
            recovered: None,
            agent_settled: false,
            rpc_deadline_ms: sat_add_u64(now_ms, limits.stop_abort_deadline_ms),
            termination_deadline_ms: limits.stop_termination_deadline_ms,
        }
    }

    pub open spec fn in_phase(self, phase: StopPhase) -> Self {
        StopTransactionView { phase, ..self }
    }

    pub open spec fn terminate(self, reason: StopEscalationReason) -> StopDirectiveView {
        StopDirectiveView::TerminateProcess {
            reason,
            recovered: self.recovered,
            termination_deadline_ms: self.termination_deadline_ms,
        }
    }

    /// Gives up on the agent and has the process terminated.
    pub open spec fn escalated(
        self,
        reason: StopEscalationReason,
        store: RuntimeStoreView,
        now_unix_ms: u64,
    ) -> StopStep {
        if self.phase is EscalationRequired {
            StopStep { stop: self, store, result: Ok(self.terminate(reason)) }
        } else if !store.runs.contains_key(self.run_id) {
            StopStep {
                stop: self,
                store,
                result: Err(StopTransactionError::UnknownRun { run_id: self.run_id }),
            }
        } else {
            StopStep {
                stop: self.in_phase(StopPhase::EscalationRequired),
                store: if store.runs[self.run_id].process.running() {
                    store.applied(self.run_id, RunMutation::BeginStop, now_unix_ms)
                } else {
                    store
                },
                result: Ok(self.terminate(reason)),
            }
        }
    }

    /// Ends the Stop with what was recovered from the queue.
    pub open spec fn completed(self, store: RuntimeStoreView) -> StopStep {
        StopStep {
            stop: self.in_phase(StopPhase::Complete),
            store,
            result: Ok(
                StopDirectiveView::Complete {
                    recovered: match self.recovered {
                        Some(queue) => queue,
                        None => ClearQueueView::empty(),
                    },
                },
            ),
        }
    }

    /// Asks Pi to abort.
    pub open spec fn aborting(self, abort_id: RequestId, store: RuntimeStoreView) -> StopStep {
        StopStep {
            stop: self.in_phase(StopPhase::AwaitingAbort { request_id: abort_id }),
            store,
            result: Ok(
                StopDirectiveView::Send(RpcRequest { id: abort_id, command: RpcCommand::Abort }),
            ),
        }
    }

    /// Goes on once the queue has been recovered.
    pub open spec fn after_recovery(
        self,
        abort_id: RequestId,
        store: RuntimeStoreView,
        now_unix_ms: u64,
    ) -> StopStep {
        if self.agent_settled {
            self.completed(store)
        } else if !store.runs.contains_key(self.run_id) {
            StopStep {
                stop: self,
                store,
                result: Err(StopTransactionError::UnknownRun { run_id: self.run_id }),
            }
        } else if store.runs[self.run_id].uncancellable() {
            self.escalated(StopEscalationReason::CompactionHasNoRpcAbort, store, now_unix_ms)
        } else {
            match store.runs[self.run_id].activity() {
                ActivityState::Compacting => self.escalated(
                    StopEscalationReason::CompactionHasNoRpcAbort,
                    store,
                    now_unix_ms,
                ),
                ActivityState::Idle => self.completed(store),
                ActivityState::Working | ActivityState::WaitingForInput => match store.refusal(
                    self.run_id,
                    RunMutation::AbortRequested,
                ) {
                    Some(error) => StopStep {
                        stop: self,
                        store,
                        result: Err(StopTransactionError::Runtime(error)),
                    },
                    None => self.aborting(
                        abort_id,
                        store.applied(self.run_id, RunMutation::AbortRequested, now_unix_ms),
                    ),
                },
                ActivityState::Aborting => self.aborting(abort_id, store),
            }
        }
    }

    /// Whether the response answers the request that this Stop waits for.
    pub open spec fn answers(response: RpcResponse, expected: RequestId) -> bool {
        response.id is Some && response.id->0@ == expected@
    }

    pub open spec fn unexpected(
        self,
        response: RpcResponse,
        expected: RequestId,
        store: RuntimeStoreView,
    ) -> StopStep {
        StopStep {
            stop: self,
            store,
            result: Err(
                StopTransactionError::UnexpectedResponseId { expected, actual: response.id },
            ),
        }
    }

    /// What a response does.
    pub open spec fn responded(
        self,
        response: RpcResponse,
        abort_id: RequestId,
        store: RuntimeStoreView,
        now_unix_ms: u64,
    ) -> StopStep {
        match self.phase {
            StopPhase::AwaitingClearQueue { request_id } => if !Self::answers(
                response,
                request_id,
            ) {
                self.unexpected(response, request_id, store)
            } else if response.spec_outcome() != RpcResponseOutcome::Accepted {
                self.escalated(StopEscalationReason::ClearQueueRejected, store, now_unix_ms)
            } else if response.queue_refusal(self.limits) is Some {
                self.escalated(StopEscalationReason::ClearQueueInvalidResponse, store, now_unix_ms)
            } else {
                StopTransactionView {
                    recovered: Some(response.payload->ClearedQueue_0@),
                    ..self
                }.after_recovery(abort_id, store, now_unix_ms)
            },
            StopPhase::AwaitingAbort { request_id } => if !Self::answers(response, request_id) {
                self.unexpected(response, request_id, store)
            } else if response.spec_outcome() != RpcResponseOutcome::Accepted {
                self.escalated(StopEscalationReason::AbortRejected, store, now_unix_ms)
            } else if self.agent_settled {
                self.completed(store)
            } else {
                StopStep {
                    stop: self.in_phase(StopPhase::WaitingForAgentSettled),
                    store,
                    result: Ok(StopDirectiveView::WaitForAgentSettled),
                }
            },
            _ => StopStep { stop: self, store, result: Ok(StopDirectiveView::Nothing) },
        }
    }

    /// What the settling of the agent does.
    pub open spec fn settled(self) -> (Self, StopDirectiveView) {
        let stop = StopTransactionView { agent_settled: true, ..self };
        match self.phase {
            StopPhase::AwaitingAbort { .. } | StopPhase::WaitingForAgentSettled => (
                stop.in_phase(StopPhase::Complete),
                StopDirectiveView::Complete {
                    recovered: match self.recovered {
                        Some(queue) => queue,
                        None => ClearQueueView::empty(),
                    },
                },
            ),
            _ => (stop, StopDirectiveView::Nothing),
        }
    }

    /// What the passing of time does.
    pub open spec fn timed(
        self,
        now_ms: u64,
        store: RuntimeStoreView,
        now_unix_ms: u64,
    ) -> StopStep {
        if now_ms < self.rpc_deadline_ms || self.phase is Complete
            || self.phase is EscalationRequired {
            StopStep { stop: self, store, result: Ok(StopDirectiveView::Nothing) }
        } else {
            self.escalated(StopEscalationReason::RpcDeadlineExpired, store, now_unix_ms)
        }
    }
}

/// Whether what was returned is what a step reports.
pub open spec fn reports(
    returned: Result<StopDirective, StopTransactionError>,
    reported: Result<StopDirectiveView, StopTransactionError>,
) -> bool {
    match reported {
        Ok(directive) => returned is Ok && returned->Ok_0@ == directive,
        Err(error) => returned == Err::<StopDirective, StopTransactionError>(error),
    }
}

fn copy_queue(queue: &Option<ClearQueueResult>) -> (r: Option<ClearQueueResult>)
    ensures
        queue_option(r) == queue_option(*queue),
{
    match queue {
        Some(queue) => Some(queue.clone()),
        None => None,
    }
}

fn require_response_id(response: &RpcResponse, expected: &RequestId) -> (r: Result<
    (),
    StopTransactionError,
>)
    ensures
        if StopTransactionView::answers(*response, *expected) {
            r is Ok
        } else {
            r == Err::<(), StopTransactionError>(
                StopTransactionError::UnexpectedResponseId {
                    expected: *expected,
                    actual: response.id,
                },
            )
        },
{
    let matching = match &response.id {
        Some(actual) => same_text(actual.as_str(), expected.as_str()),
        None => false,
    };
    if matching {
        Ok(())
    } else {
        Err(
            StopTransactionError::UnexpectedResponseId {
                expected: expected.clone(),
                actual: copy_optional(&response.id),
            },
        )
    }
}

impl StopTransaction {
    /// Begins a Stop. A ready process is first asked for its queue, under the
    /// identity `clear_queue_id`; one that is still starting is terminated.
    pub fn begin(
        run_id: RunId,
        now_ms: u64,
        limits: RuntimeLimits,
        clear_queue_id: RequestId,
        store: &mut RuntimeStore,
        now_unix_ms: u64,
    ) -> (r: Result<(Self, StopDirective), StopTransactionError>)
        ensures
            ({
                let fresh = StopTransactionView::fresh(run_id, now_ms, limits);
                if !old(store)@.runs.contains_key(run_id) {
                    &&& r == Err::<(Self, StopDirective), StopTransactionError>(
                        StopTransactionError::UnknownRun { run_id },
                    )
                    &&& final(store)@ == old(store)@
                } else {
                    let process = old(store)@.runs[run_id].process;
                    match process {
                        ProcessState::Starting => {
                            &&& r is Ok
                            &&& r->Ok_0.0@ == fresh.in_phase(StopPhase::EscalationRequired)
                            &&& r->Ok_0.1@ == fresh.terminate(
                                StopEscalationReason::ProcessStillStarting,
                            )
                            &&& final(store)@ == old(store)@.applied(
                                run_id,
                                RunMutation::BeginStop,
                                now_unix_ms,
                            )
                        },
                        ProcessState::Ready => {
                            &&& r is Ok
                            &&& r->Ok_0.0@ == fresh.in_phase(
                                StopPhase::AwaitingClearQueue { request_id: clear_queue_id },
                            )
                            &&& r->Ok_0.1@ == StopDirectiveView::Send(
                                RpcRequest { id: clear_queue_id, command: RpcCommand::ClearQueue },
                            )
                            &&& final(store)@ == old(store)@
                        },
                        ProcessState::Stopping => {
                            &&& r == Err::<(Self, StopDirective), StopTransactionError>(
                                StopTransactionError::AlreadyStopping { run_id },
                            )
                            &&& final(store)@ == old(store)@
                        },
                        _ => {
                            &&& r == Err::<(Self, StopDirective), StopTransactionError>(
                                StopTransactionError::TerminalRun { run_id, process },
                            )
                            &&& final(store)@ == old(store)@
                        },
                    }
                }
            }),
            old(store)@.wf() ==> final(store)@.wf(),
    {
        let process = match store.get(run_id) {
            Some(run) => run.process_state(),
            None => {
                return Err(StopTransactionError::UnknownRun { run_id });
            },
        };
        let mut transaction = StopTransaction {
            run_id,
            limits,
            phase: StopPhase::Complete,
            recovered: None,
            agent_settled: false,
            rpc_deadline_ms: now_ms.saturating_add(limits.stop_abort_deadline_ms),
            termination_deadline_ms: limits.stop_termination_deadline_ms,
        };
        match process {
            ProcessState::Starting => {
                match transaction.escalate(
                    StopEscalationReason::ProcessStillStarting,
                    store,
                    now_unix_ms,
                ) {
                    Ok(directive) => Ok((transaction, directive)),
                    Err(error) => Err(error),
                }
            },
            ProcessState::Ready => {
                let request = RpcRequest::with_id(clear_queue_id, RpcCommand::ClearQueue);
                transaction.phase =
                StopPhase::AwaitingClearQueue { request_id: request.id.clone() };
                Ok((transaction, StopDirective::Send(request)))
            },
            ProcessState::Stopping => Err(StopTransactionError::AlreadyStopping { run_id }),
            ProcessState::Exited | ProcessState::Failed | ProcessState::Quarantined => Err(
                StopTransactionError::TerminalRun { run_id, process },
            ),
        }
    }

    pub fn phase(&self) -> (r: &StopPhase)
        ensures
            *r == self@.phase,
    {
        &self.phase
    }

    pub fn recovered(&self) -> (r: Option<&ClearQueueResult>)
        ensures
            match r {
                Some(queue) => self@.recovered == Some(queue@),
                None => self@.recovered is None,
            },
    {
        self.recovered.as_ref()
    }

    pub fn rpc_deadline(&self) -> (r: u64)
        ensures
            r == self@.rpc_deadline_ms,
    {
        self.rpc_deadline_ms
    }

    /// The request whose response this Stop waits for.
    pub fn awaited_request(&self) -> (r: Option<&RequestId>)
        ensures
            match self@.phase {
                StopPhase::AwaitingClearQueue { request_id } => r is Some && *r->0 == request_id,
                StopPhase::AwaitingAbort { request_id } => r is Some && *r->0 == request_id,
                _ => r is None,
            },
    {
        match &self.phase {
            StopPhase::AwaitingClearQueue { request_id } => Some(request_id),
            StopPhase::AwaitingAbort { request_id } => Some(request_id),
            _ => None,
        }
    }

    /// Takes a response. An abort that becomes necessary goes out under `abort_id`.
    pub fn on_response(
        &mut self,
        response: &RpcResponse,
        abort_id: RequestId,
        store: &mut RuntimeStore,
        now_unix_ms: u64,
    ) -> (r: Result<StopDirective, StopTransactionError>)
        ensures
            ({
                let step = old(self)@.responded(*response, abort_id, old(store)@, now_unix_ms);
                &&& final(self)@ == step.stop
                &&& final(store)@ == step.store
                &&& reports(r, step.result)
            }),
            old(store)@.wf() ==> final(store)@.wf(),
    {
        match &self.phase {
            StopPhase::AwaitingClearQueue { request_id } => {
                match require_response_id(response, request_id) {
                    Ok(()) => {},
                    Err(error) => {
                        return Err(error);
                    },
                }
                if response.outcome() != RpcResponseOutcome::Accepted {
                    return self.escalate(
                        StopEscalationReason::ClearQueueRejected,
                        store,
                        now_unix_ms,
                    );
                }
                match response.clear_queue_result(self.limits) {
                    Ok(recovered) => {
                        self.recovered = Some(recovered);
                    },
                    Err(_) => {
                        return self.escalate(
                            StopEscalationReason::ClearQueueInvalidResponse,
                            store,
                            now_unix_ms,
                        );
                    },
                }
                if self.agent_settled {
                    return Ok(self.complete());
                }
                let (activity, retrying) = match store.get(self.run_id) {
                    Some(run) => (run.activity_state(), run.has_summarization_retry()),
                    None => {
                        return Err(StopTransactionError::UnknownRun { run_id: self.run_id });
                    },
                };
                if retrying && activity != ActivityState::Aborting {
                    return self.escalate(
                        StopEscalationReason::CompactionHasNoRpcAbort,
                        store,
                        now_unix_ms,
                    );
                }
                match activity {
                    ActivityState::Compacting => self.escalate(
                        StopEscalationReason::CompactionHasNoRpcAbort,
                        store,
                        now_unix_ms,
                    ),
                    ActivityState::Idle => Ok(self.complete()),
                    ActivityState::Working | ActivityState::WaitingForInput => {
                        match store.apply(self.run_id, RunMutation::AbortRequested, now_unix_ms) {
                            Ok(()) => Ok(self.make_abort_request(abort_id)),
                            Err(error) => Err(StopTransactionError::Runtime(error)),
                        }
                    },
                    ActivityState::Aborting => Ok(self.make_abort_request(abort_id)),
                }
            },
            StopPhase::AwaitingAbort { request_id } => {
                match require_response_id(response, request_id) {
                    Ok(()) => {},
                    Err(error) => {
                        return Err(error);
                    },
                }
                if response.outcome() != RpcResponseOutcome::Accepted {
                    return self.escalate(
                        StopEscalationReason::AbortRejected,
                        store,
                        now_unix_ms,
                    );
                }
                if self.agent_settled {
                    Ok(self.complete())
                } else {
                    self.phase = StopPhase::WaitingForAgentSettled;
                    Ok(StopDirective::WaitForAgentSettled)
                }
            },
            StopPhase::WaitingForAgentSettled
            | StopPhase::Complete
            | StopPhase::EscalationRequired => Ok(StopDirective::Nothing),
        }
    }

    /// Records that Pi has settled the agent. While the queue is still being
    /// recovered, the Stop waits for that; otherwise settling completes it.
    pub fn on_agent_settled(&mut self) -> (r: StopDirective)
        ensures
            (final(self)@, r@) == old(self)@.settled(),
    {
        self.agent_settled = true;
        match &self.phase {
            StopPhase::AwaitingAbort { .. } | StopPhase::WaitingForAgentSettled => self.complete(),
            _ => StopDirective::Nothing,
        }
    }

    pub fn on_deadline(&mut self, now_ms: u64, store: &mut RuntimeStore, now_unix_ms: u64) -> (r:
        Result<StopDirective, StopTransactionError>)
        ensures
            ({
                let step = old(self)@.timed(now_ms, old(store)@, now_unix_ms);
                &&& final(self)@ == step.stop
                &&& final(store)@ == step.store
                &&& reports(r, step.result)
            }),
            old(store)@.wf() ==> final(store)@.wf(),
    {
        let over = match &self.phase {
            StopPhase::Complete | StopPhase::EscalationRequired => true,
            _ => false,
        };
        if now_ms < self.rpc_deadline_ms || over {
            return Ok(StopDirective::Nothing);
        }
        self.escalate(StopEscalationReason::RpcDeadlineExpired, store, now_unix_ms)
    }

    fn make_abort_request(&mut self, abort_id: RequestId) -> (r: StopDirective)
        ensures
            final(self)@ == old(self)@.in_phase(
                StopPhase::AwaitingAbort { request_id: abort_id },
            ),
            r@ == StopDirectiveView::Send(RpcRequest { id: abort_id, command: RpcCommand::Abort }),
    {
        let request = RpcRequest::with_id(abort_id, RpcCommand::Abort);
        self.phase = StopPhase::AwaitingAbort { request_id: request.id.clone() };
        StopDirective::Send(request)
    }

    fn complete(&mut self) -> (r: StopDirective)
        ensures
            final(self)@ == old(self)@.in_phase(StopPhase::Complete),
            r@ == (StopDirectiveView::Complete {
                recovered: match old(self)@.recovered {
                    Some(queue) => queue,
                    None => ClearQueueView::empty(),
                },
            }),
    {
        self.phase = StopPhase::Complete;
        let recovered = match &self.recovered {
            Some(queue) => queue.clone(),
            None => ClearQueueResult::default(),
        };
        StopDirective::Complete { recovered }
    }

    fn escalate(
        &mut self,
        reason: StopEscalationReason,
        store: &mut RuntimeStore,
        now_unix_ms: u64,
    ) -> (r: Result<StopDirective, StopTransactionError>)
        ensures
            ({
                let step = old(self)@.escalated(reason, old(store)@, now_unix_ms);
                &&& final(self)@ == step.stop
                &&& final(store)@ == step.store
                &&& reports(r, step.result)
            }),
            old(store)@.wf() ==> final(store)@.wf(),
    {
        let escalating = match &self.phase {
            StopPhase::EscalationRequired => true,
            _ => false,
        };
        if !escalating {
            let process = match store.get(self.run_id) {
                Some(run) => run.process_state(),
                None => {
                    return Err(StopTransactionError::UnknownRun { run_id: self.run_id });
                },
            };
            if process == ProcessState::Starting || process == ProcessState::Ready {
                match store.apply(self.run_id, RunMutation::BeginStop, now_unix_ms) {
                    Ok(()) => {},
                    Err(error) => {
                        return Err(StopTransactionError::Runtime(error));
                    },
                }
            }
            self.phase = StopPhase::EscalationRequired;
        }
        Ok(
            StopDirective::TerminateProcess {
                reason,
                recovered: copy_queue(&self.recovered),
                termination_deadline_ms: self.termination_deadline_ms,
            },
        )
    }
}

/// A Stop never loses what it recovered: whatever a later response does, the
/// recovered queue is kept or, where none was known, taken from the response.
pub proof fn recovered_queue_is_never_lost(
    stop: StopTransactionView,
    response: RpcResponse,
    abort_id: RequestId,
    store: RuntimeStoreView,
    now: u64,
)
    requires
        stop.recovered is Some,
        !(stop.phase is AwaitingClearQueue),
    ensures
        stop.responded(response, abort_id, store, now).stop.recovered == stop.recovered,
        stop.settled().0.recovered == stop.recovered,
        stop.timed(now, store, now).stop.recovered == stop.recovered,
{
}

/// A normal Stop leaves the process alone: whatever the agent was doing, no step
/// that does not terminate the process takes it out of `Ready`.
pub proof fn normal_stop_keeps_the_process(
    stop: StopTransactionView,
    response: RpcResponse,
    abort_id: RequestId,
    store: RuntimeStoreView,
    now: u64,
)
    requires
        store.runs.contains_key(stop.run_id),
        store.runs[stop.run_id].process == ProcessState::Ready,
        stop.responded(response, abort_id, store, now).result is Ok,
        !(stop.responded(response, abort_id, store, now).result->Ok_0 is TerminateProcess),
    ensures
        stop.responded(response, abort_id, store, now).store.runs.contains_key(stop.run_id),
        stop.responded(response, abort_id, store, now).store.runs[stop.run_id].process
            == ProcessState::Ready,
{
}

/// What no request can cancel is ended with the process: where Pi compacts or retries
/// a summarization, the Stop sends no abort once it has recovered the queue, but has
/// the process terminated and hands the queue on.
pub proof fn uncancellable_work_is_terminated(
    stop: StopTransactionView,
    response: RpcResponse,
    abort_id: RequestId,
    store: RuntimeStoreView,
    now: u64,
)
    requires
        stop.phase is AwaitingClearQueue,
        !stop.agent_settled,
        store.runs.contains_key(stop.run_id),
        store.runs[stop.run_id].process == ProcessState::Ready,
        !store.runs[stop.run_id].abort_requested,
        store.runs[stop.run_id].compacting || store.runs[stop.run_id].summarization_retry_active,
        StopTransactionView::answers(response, stop.phase->AwaitingClearQueue_request_id),
        response.spec_outcome() == RpcResponseOutcome::Accepted,
        response.queue_refusal(stop.limits) is None,
    ensures
        ({
            let step = stop.responded(response, abort_id, store, now);
            &&& step.result == Ok::<StopDirectiveView, StopTransactionError>(
                StopDirectiveView::TerminateProcess {
                    reason: StopEscalationReason::CompactionHasNoRpcAbort,
                    recovered: Some(response.payload->ClearedQueue_0@),
                    termination_deadline_ms: stop.termination_deadline_ms,
                },
            )
            &&& step.stop.phase is EscalationRequired
            &&& step.store.runs[stop.run_id].process == ProcessState::Stopping
        }),
{
}

/// Before the process is told to terminate its run is moved out of `Ready`, so
/// that no further work can start in it.
pub proof fn escalation_stops_the_run(
    stop: StopTransactionView,
    reason: StopEscalationReason,
    store: RuntimeStoreView,
    now: u64,
)
    requires
        !(stop.phase is EscalationRequired),
        store.runs.contains_key(stop.run_id),
    ensures
        stop.escalated(reason, store, now).result is Ok,
        stop.escalated(reason, store, now).result->Ok_0 == stop.terminate(reason),
        !stop.escalated(reason, store, now).store.runs[stop.run_id].process.running(),
        stop.escalated(reason, store, now).stop.phase is EscalationRequired,
{
}

/// The deadline never ends a Stop quietly: once it has passed, a Stop that is
/// still waiting has its process terminated.
pub proof fn deadline_terminates(
    stop: StopTransactionView,
    now_ms: u64,
    store: RuntimeStoreView,
    now: u64,
)
    requires
        now_ms >= stop.rpc_deadline_ms,
        !(stop.phase is Complete),
        !(stop.phase is EscalationRequired),
        store.runs.contains_key(stop.run_id),
    ensures
        stop.timed(now_ms, store, now).result is Ok,
        stop.timed(now_ms, store, now).result->Ok_0 == stop.terminate(
            StopEscalationReason::RpcDeadlineExpired,
        ),
{
}

} // verus!
