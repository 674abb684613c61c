//! Stops of runs, and the ends of their processes.
use vstd::prelude::*;
use vstd::string::*;

use crate::ids::{RequestId, RunId};
use crate::limits::RuntimeLimits;
use crate::rpc::{ClearQueueView, RpcCommand, RpcRequest, RpcResponse};
use crate::runtime::manager::actions::{ActionView, ManagerAction, NoticeView, UiNotice};
use crate::runtime::manager::basics::{of_run, run_text, stopping};
use crate::runtime::manager::{
    ActiveStop, ActiveStopView, FailureView, ManagerView, RuntimeManager,
};
use crate::runtime::state::{
    ProcessState, RunFailure, RunFailureKind, RunMutation, RuntimeStoreView,
};
use crate::runtime::stop::{
    reports, StopDirective, StopDirectiveView, StopEscalationReason, StopPhase, StopTransaction,
    StopTransactionError, StopTransactionView,
};
use crate::runtime::stop_recovery::RuntimeStopResult;
use crate::text::{join, same_text};
use crate::worktree_error::{code_text, write_code};

verus! {

/// How a Stop begins.
pub open spec fn begun_stop(
    run_id: RunId,
    now_ms: u64,
    limits: RuntimeLimits,
    clear_queue_id: RequestId,
    store: RuntimeStoreView,
    now_unix_ms: u64,
) -> (
    RuntimeStoreView,
    Result<(StopTransactionView, StopDirectiveView), StopTransactionError>,
) {
    let fresh = StopTransactionView::fresh(run_id, now_ms, limits);
    if !store.runs.contains_key(run_id) {
        (store, Err(StopTransactionError::UnknownRun { run_id }))
    } else {
        let process = store.runs[run_id].process;
        match process {
            ProcessState::Starting => (
                store.applied(run_id, RunMutation::BeginStop, now_unix_ms),
                Ok(
                    (
                        fresh.in_phase(StopPhase::EscalationRequired),
                        fresh.terminate(StopEscalationReason::ProcessStillStarting),
                    ),
                ),
            ),
            ProcessState::Ready => (
                store,
                Ok(
                    (
                        fresh.in_phase(
                            StopPhase::AwaitingClearQueue { request_id: clear_queue_id },
                        ),
                        StopDirectiveView::Send(
                            RpcRequest { id: clear_queue_id, command: RpcCommand::ClearQueue },
                        ),
                    ),
                ),
            ),
            ProcessState::Stopping => (
                store,
                Err(StopTransactionError::AlreadyStopping { run_id }),
            ),
            _ => (store, Err(StopTransactionError::TerminalRun { run_id, process })),
        }
    }
}

/// The request that a Stop waits for.
pub open spec fn awaited(stop: StopTransactionView) -> Option<Seq<char>> {
    match stop.phase {
        StopPhase::AwaitingClearQueue { request_id } => Some(request_id@),
        StopPhase::AwaitingAbort { request_id } => Some(request_id@),
        _ => None,
    }
}

/// The queue that a Stop gives back, or nothing.
pub open spec fn given_back(recovered: Option<ClearQueueView>) -> ClearQueueView {
    match recovered {
        Some(queue) => queue,
        None => ClearQueueView { steering: Seq::empty(), follow_up: Seq::empty() },
    }
}

impl ManagerView {
    /// A Stop ends, and who asked for it is answered once the draft is restored.
    pub open spec fn stop_finished(
        self,
        run_id: RunId,
        recovered: ClearQueueView,
        process_terminated: bool,
        quarantined: bool,
    ) -> Self {
        if self.stops.contains_key(run_id) {
            ManagerView {
                stops: self.stops.remove(run_id),
                ..self
            }.with_action(
                ActionView::FinishStop {
                    run_id,
                    ticket: self.stops[run_id].ticket,
                    steering: recovered.steering,
                    follow_up: recovered.follow_up,
                    draft_restored: false,
                    draft_restore_error: None,
                    process_terminated,
                    quarantined,
                },
            )
        } else {
            self
        }
    }

    /// Does what a Stop asks for.
    pub open spec fn directed(
        self,
        run_id: RunId,
        directive: StopDirectiveView,
        now_unix_ms: u64,
    ) -> Self {
        match directive {
            StopDirectiveView::Send(request) => {
                let (after, result) = self.sent(run_id, request);
                match result {
                    Ok(_) => after,
                    Err(error) => after.transport_failed(
                        run_id,
                        RunFailureKind::Stop,
                        "Stop RPC could not be queued: "@ + error,
                        now_unix_ms,
                    ),
                }
            },
            StopDirectiveView::WaitForAgentSettled | StopDirectiveView::Nothing => self,
            StopDirectiveView::Complete { recovered } => self.stop_finished(
                run_id,
                recovered,
                false,
                false,
            ),
            StopDirectiveView::TerminateProcess { termination_deadline_ms, .. } => {
                let after = self.state_notified(run_id);
                if self.processes.contains_key(run_id) {
                    after.with_action(
                        ActionView::Terminate { run_id, deadline_ms: termination_deadline_ms },
                    )
                } else {
                    after
                }
            },
        }
    }

    pub open spec fn with_stop(self, run_id: RunId, stop: StopTransactionView, ticket: u64) -> Self {
        ManagerView {
            stops: self.stops.insert(run_id, ActiveStopView { transaction: stop, ticket }),
            ..self
        }
    }

    /// A Stop of a run is asked for.
    pub open spec fn stop_begun(
        self,
        run_id: RunId,
        ticket: u64,
        clear_queue_id: RequestId,
        now_ms: u64,
        now_unix_ms: u64,
    ) -> Self {
        if self.stops.contains_key(run_id) {
            self.refused(ticket, of_run(run_id, " already has a Stop transaction"@))
        } else {
            let free = self.replacement_failed(
                run_id,
                "Stop superseded the pending session replacement"@,
            );
            let (store, result) = begun_stop(
                run_id,
                now_ms,
                self.limits,
                clear_queue_id,
                self.store,
                now_unix_ms,
            );
            match result {
                Err(error) => free.refused(ticket, error.text()),
                Ok((stop, directive)) => ManagerView {
                    store,
                    startups: self.startups.remove(run_id),
                    ..free
                }.with_stop(run_id, stop, ticket).state_notified(run_id).directed(
                    run_id,
                    directive,
                    now_unix_ms,
                ),
            }
        }
    }

    /// Whether a response is the one that the Stop of a run waits for.
    pub open spec fn stop_awaits(self, run_id: RunId, response: RpcResponse) -> bool {
        self.stops.contains_key(run_id) && response.id is Some && awaited(
            self.stops[run_id].transaction,
        ) == Some(response.id->0@)
    }

    /// What a response means for the Stop of a run.
    pub open spec fn stop_answered(
        self,
        run_id: RunId,
        response: RpcResponse,
        abort_id: RequestId,
        now_unix_ms: u64,
    ) -> Self {
        if !self.stop_awaits(run_id, response) {
            self
        } else {
            let active = self.stops[run_id];
            let step = active.transaction.responded(response, abort_id, self.store, now_unix_ms);
            self.stop_stepped(run_id, active.ticket, step.stop, step.store, step.result, now_unix_ms)
        }
    }

    /// What a step of a Stop leads to.
    pub open spec fn stop_stepped(
        self,
        run_id: RunId,
        ticket: u64,
        stop: StopTransactionView,
        store: RuntimeStoreView,
        result: Result<StopDirectiveView, StopTransactionError>,
        now_unix_ms: u64,
    ) -> Self {
        match result {
            Ok(directive) => ManagerView { store, ..self }.with_stop(
                run_id,
                stop,
                ticket,
            ).state_notified(run_id).directed(run_id, directive, now_unix_ms),
            Err(error) => ManagerView {
                store,
                stops: self.stops.remove(run_id),
                ..self
            }.refused(ticket, error.text()).transport_failed(
                run_id,
                RunFailureKind::Stop,
                error.text(),
                now_unix_ms,
            ),
        }
    }

    /// The agent of a run has settled.
    pub open spec fn stop_settled(self, run_id: RunId, now_unix_ms: u64) -> Self {
        if !self.stops.contains_key(run_id) {
            self
        } else {
            let active = self.stops[run_id];
            let (stop, directive) = active.transaction.settled();
            self.with_stop(run_id, stop, active.ticket).directed(run_id, directive, now_unix_ms)
        }
    }

    /// Why a process that has exited has failed, unless it was told to stop.
    pub open spec fn exit_failure(self, run_id: RunId, code: Option<i32>) -> Option<FailureView> {
        if self.failures.contains_key(run_id) {
            Some(self.failures[run_id])
        } else if self.store.runs[run_id].process == ProcessState::Stopping {
            None
        } else {
            Some(
                FailureView {
                    kind: RunFailureKind::UnexpectedExit,
                    detail: "Pi process exited unexpectedly with code "@ + code_text(code),
                },
            )
        }
    }

    /// Whether a run can still end: it is known, and its process has not ended.
    pub open spec fn can_end(self, run_id: RunId) -> bool {
        self.store.runs.contains_key(run_id) && !self.store.runs[run_id].process.terminal()
    }

    /// Nothing more is known of a process.
    pub open spec fn unlinked(self, run_id: RunId) -> Self {
        ManagerView {
            startups: self.startups.remove(run_id),
            processes: self.processes.remove(run_id),
            ..self
        }
    }

    /// A run has ended: who waits for it is told, and so is its renderer.
    pub open spec fn ended(
        self,
        run_id: RunId,
        mutation: RunMutation,
        detail: Seq<char>,
        quarantined: bool,
        now_unix_ms: u64,
    ) -> Self {
        let stop = if self.stops.contains_key(run_id) {
            given_back(self.stops[run_id].transaction.recovered)
        } else {
            given_back(None)
        };
        ManagerView {
            store: if self.store.refusal(run_id, mutation) is None {
                self.store.applied(run_id, mutation, now_unix_ms)
            } else {
                self.store
            },
            controllers: if self.controllers.contains_key(run_id) {
                self.controllers.insert(run_id, self.controllers[run_id].ended())
            } else {
                self.controllers
            },
            failures: self.failures.remove(run_id),
            ..self.unlinked(run_id)
        }.waiters_failed(run_id, detail).terminal_notified(run_id).stop_finished(
            run_id,
            stop,
            true,
            quarantined,
        )
    }

    /// The renderer of a run is told how its process ended.
    pub open spec fn terminal_notified(self, run_id: RunId) -> Self {
        if self.store.runs.contains_key(run_id) {
            self.notified(
                run_id,
                NoticeView::ProcessTerminal { process: self.store.runs[run_id].process },
            ).state_notified(run_id)
        } else {
            self
        }
    }

    /// A process has exited. `failure` is how its failure is recorded, where it has
    /// failed.
    pub open spec fn exited(
        self,
        run_id: RunId,
        code: Option<i32>,
        failure: RunFailure,
        now_unix_ms: u64,
    ) -> Self {
        if !self.can_end(run_id) {
            self.unlinked(run_id)
        } else {
            let mutation = match self.exit_failure(run_id, code) {
                Some(_) => RunMutation::ProcessFailed { failure, code },
                None => RunMutation::ProcessExited { code },
            };
            self.ended(run_id, mutation, "Pi process exited"@, false, now_unix_ms)
        }
    }

    /// Why the process of a run is beyond reach.
    pub open spec fn quarantine_failure(self, run_id: RunId, detail: Seq<char>) -> FailureView {
        if self.failures.contains_key(run_id) {
            self.failures[run_id]
        } else {
            FailureView { kind: RunFailureKind::Stop, detail }
        }
    }

    /// Nobody knows whether a process has ended: the run is put under quarantine.
    pub open spec fn quarantined(
        self,
        run_id: RunId,
        detail: Seq<char>,
        failure: RunFailure,
        now_unix_ms: u64,
    ) -> Self {
        if !self.can_end(run_id) {
            self.unlinked(run_id)
        } else {
            ManagerView {
                store: if self.store.runs[run_id].process.running() {
                    stopping(self.store, run_id, now_unix_ms)
                } else {
                    self.store
                },
                ..self
            }.ended(
                run_id,
                RunMutation::ProcessQuarantined { failure },
                detail,
                true,
                now_unix_ms,
            )
        }
    }
}

/// Whether a failure is recorded as it is to be told, within its limit.
pub open spec fn recorded(failure: RunFailure, told: FailureView, limits: RuntimeLimits) -> bool {
    failure.reports(told.kind, told.detail, limits.max_failure_detail_bytes as nat)
}

/// What is told of a process whose end nobody confirmed.
pub open spec fn unconfirmed_text() -> Seq<char> {
    "Pi process termination could not be confirmed"@
}

impl RuntimeManager {
    fn finish_stop(&mut self, run_id: RunId, result: RuntimeStopResult)
        requires
            !result.draft_restored,
            result.draft_restore_error is None,
        ensures
            final(self)@ == old(self)@.stop_finished(
                run_id,
                ClearQueueView {
                    steering: result.recovered_steering@,
                    follow_up: result.recovered_follow_up@,
                },
                result.process_terminated,
                result.quarantined,
            ),
    {
        let ghost before = self@;
        match self.stops.remove(&run_id) {
            Some(active) => {
                self.act(ManagerAction::FinishStop { run_id, ticket: active.ticket, result });
            },
            None => {
                assert(self.stops@ =~= before.stops);
            },
        }
    }

    pub(crate) fn apply_stop_directive(
        &mut self,
        run_id: RunId,
        directive: StopDirective,
        now_unix_ms: u64,
    )
        ensures
            final(self)@ == old(self)@.directed(run_id, directive@, now_unix_ms),
    {
        match directive {
            StopDirective::Send(request) => match self.send_request(run_id, request) {
                Ok(_) => {},
                Err(error) => {
                    let detail = join("Stop RPC could not be queued: ", error.as_str());
                    self.begin_transport_failure(
                        run_id,
                        RunFailureKind::Stop,
                        detail.as_str(),
                        now_unix_ms,
                    );
                },
            },
            StopDirective::WaitForAgentSettled | StopDirective::Nothing => {},
            StopDirective::Complete { recovered } => {
                self.finish_stop(run_id, RuntimeStopResult::normal(recovered));
            },
            StopDirective::TerminateProcess { termination_deadline_ms, .. } => {
                self.notify_state(run_id);
                if self.processes.contains_key(&run_id) {
                    self.act(
                        ManagerAction::Terminate { run_id, deadline_ms: termination_deadline_ms },
                    );
                }
            },
        }
    }

    pub(crate) fn keep_stop(&mut self, run_id: RunId, transaction: StopTransaction, ticket: u64)
        ensures
            final(self)@ == old(self)@.with_stop(run_id, transaction@, ticket),
    {
        self.stops.insert(run_id, ActiveStop { transaction, ticket });
    }

    /// Begins a Stop of a run. The queue of a ready process is asked for under
    /// `clear_queue_id`.
    pub fn begin_stop(
        &mut self,
        run_id: RunId,
        ticket: u64,
        clear_queue_id: RequestId,
        now_ms: u64,
        now_unix_ms: u64,
    )
        ensures
            final(self)@ == old(self)@.stop_begun(
                run_id,
                ticket,
                clear_queue_id,
                now_ms,
                now_unix_ms,
            ),
    {
        if self.stops.contains_key(&run_id) {
            let detail = run_text(run_id, " already has a Stop transaction");
            self.refuse(ticket, detail.as_str());
            return;
        }
        self.fail_replacement(run_id, "Stop superseded the pending session replacement");
        let limits = self.limits;
        match StopTransaction::begin(
            run_id,
            now_ms,
            limits,
            clear_queue_id,
            &mut self.store,
            now_unix_ms,
        ) {
            Ok((transaction, directive)) => {
                let _ = self.startups.remove(&run_id);
                self.keep_stop(run_id, transaction, ticket);
                self.notify_state(run_id);
                self.apply_stop_directive(run_id, directive, now_unix_ms);
            },
            Err(error) => {
                let detail = error.message();
                self.refuse(ticket, detail.as_str());
            },
        }
    }

    pub(crate) fn after_stop_step(
        &mut self,
        run_id: RunId,
        active: ActiveStop,
        result: Result<StopDirective, StopTransactionError>,
        now_unix_ms: u64,
        Ghost(reported): Ghost<Result<StopDirectiveView, StopTransactionError>>,
    )
        requires
            !old(self)@.stops.contains_key(run_id),
            reports(result, reported),
        ensures
            final(self)@ == old(self)@.stop_stepped(
                run_id,
                active.ticket,
                active.transaction@,
                old(self)@.store,
                reported,
                now_unix_ms,
            ),
    {
        let ghost before = self@;
        match result {
            Ok(directive) => {
                let ActiveStop { transaction, ticket } = active;
                self.keep_stop(run_id, transaction, ticket);
                self.notify_state(run_id);
                self.apply_stop_directive(run_id, directive, now_unix_ms);
            },
            Err(error) => {
                let detail = error.message();
                assert(before.stops.remove(run_id) =~= before.stops);
                self.refuse(active.ticket, detail.as_str());
                self.begin_transport_failure(
                    run_id,
                    RunFailureKind::Stop,
                    detail.as_str(),
                    now_unix_ms,
                );
            },
        }
    }

    pub(crate) fn handle_stop_response(
        &mut self,
        run_id: RunId,
        response: &RpcResponse,
        abort_id: RequestId,
        now_unix_ms: u64,
    )
        ensures
            final(self)@ == old(self)@.stop_answered(run_id, *response, abort_id, now_unix_ms),
    {
        let ghost before = self@;
        let owns = match self.stops.get(&run_id) {
            Some(active) => match (active.transaction.awaited_request(), &response.id) {
                (Some(expected), Some(actual)) => same_text(expected.as_str(), actual.as_str()),
                _ => false,
            },
            None => false,
        };
        if !owns {
            return;
        }
        match self.stops.remove(&run_id) {
            Some(mut active) => {
                let ghost step = active.transaction@.responded(
                    *response,
                    abort_id,
                    self.store@,
                    now_unix_ms,
                );
                let result = active.transaction.on_response(
                    response,
                    abort_id,
                    &mut self.store,
                    now_unix_ms,
                );
                let ghost middle = self@;
                self.after_stop_step(run_id, active, result, now_unix_ms, Ghost(step.result));
                proof {
                    lemma_stop_stepped(
                        before,
                        middle,
                        run_id,
                        active.ticket,
                        step.stop,
                        step.store,
                        step.result,
                        now_unix_ms,
                    );
                }
            },
            None => {},
        }
    }

    pub(crate) fn handle_stop_settled(&mut self, run_id: RunId, now_unix_ms: u64)
        ensures
            final(self)@ == old(self)@.stop_settled(run_id, now_unix_ms),
    {
        let ghost before = self@;
        match self.stops.remove(&run_id) {
            Some(mut active) => {
                let directive = active.transaction.on_agent_settled();
                let ActiveStop { transaction, ticket } = active;
                self.keep_stop(run_id, transaction, ticket);
                assert(self.stops@ =~= before.stops.insert(
                    run_id,
                    ActiveStopView { transaction: transaction@, ticket },
                ));
                self.apply_stop_directive(run_id, directive, now_unix_ms);
            },
            None => {
                assert(self.stops@ =~= before.stops);
            },
        }
    }

    fn end(
        &mut self,
        run_id: RunId,
        mutation: RunMutation,
        detail: &str,
        quarantined: bool,
        now_unix_ms: u64,
    )
        ensures
            final(self)@ == old(self)@.ended(run_id, mutation, detail@, quarantined, now_unix_ms),
    {
        let _ = self.startups.remove(&run_id);
        self.end_controller(run_id);
        let _ = self.failures.remove(&run_id);
        let _ = self.store.apply(run_id, mutation, now_unix_ms);
        let _ = self.processes.remove(&run_id);
        self.fail_run_waiters(run_id, detail);
        match self.store.get(run_id) {
            Some(record) => {
                let process = record.process_state();
                self.notify(run_id, UiNotice::ProcessTerminal { process });
                self.notify_state(run_id);
            },
            None => {},
        }
        let result = match self.stops.get(&run_id) {
            Some(active) => RuntimeStopResult::terminated(
                active.transaction.recovered(),
                quarantined,
            ),
            None => RuntimeStopResult::terminated(None, quarantined),
        };
        self.finish_stop(run_id, result);
    }

    fn unlink(&mut self, run_id: RunId)
        ensures
            final(self)@ == old(self)@.unlinked(run_id),
    {
        let _ = self.startups.remove(&run_id);
        let _ = self.processes.remove(&run_id);
    }

    /// Records that a process has exited.
    pub fn finalize_natural_exit(&mut self, run_id: RunId, code: Option<i32>, now_unix_ms: u64)
        ensures
            exists|failure: RunFailure|
                final(self)@ == #[trigger] old(self)@.exited(run_id, code, failure, now_unix_ms)
                    && (old(self)@.can_end(run_id) && old(self)@.exit_failure(run_id, code) is Some
                    ==> recorded(
                    failure,
                    old(self)@.exit_failure(run_id, code)->0,
                    old(self)@.limits,
                )),
    {
        let ghost before = self@;
        let process = match self.store.get(run_id) {
            Some(record) => record.process_state(),
            None => {
                self.unlink(run_id);
                assert(self@ == before.exited(run_id, code, arbitrary(), now_unix_ms));
                return;
            },
        };
        if process.is_terminal() {
            self.unlink(run_id);
            assert(self@ == before.exited(run_id, code, arbitrary(), now_unix_ms));
            return;
        }
        let limits = self.limits;
        let failure = match self.failures.get(&run_id) {
            Some(pending) => Some(
                RunFailure::from_runtime_limits(pending.kind, pending.detail.as_str(), limits),
            ),
            None => if process == ProcessState::Stopping {
                None
            } else {
                let detail = join(
                    "Pi process exited unexpectedly with code ",
                    write_code(code).as_str(),
                );
                Some(
                    RunFailure::from_runtime_limits(
                        RunFailureKind::UnexpectedExit,
                        detail.as_str(),
                        limits,
                    ),
                )
            },
        };
        match failure {
            Some(failure) => {
                self.end(
                    run_id,
                    RunMutation::ProcessFailed { failure, code },
                    "Pi process exited",
                    false,
                    now_unix_ms,
                );
                assert(self@ == before.exited(run_id, code, failure, now_unix_ms));
            },
            None => {
                self.end(
                    run_id,
                    RunMutation::ProcessExited { code },
                    "Pi process exited",
                    false,
                    now_unix_ms,
                );
                assert(self@ == before.exited(run_id, code, arbitrary(), now_unix_ms));
            },
        }
    }

    /// Puts a run under quarantine whose process may or may not have ended.
    pub fn finalize_uncertain_termination(&mut self, run_id: RunId, detail: &str, now_unix_ms: u64)
        ensures
            exists|failure: RunFailure|
                final(self)@ == #[trigger] old(self)@.quarantined(
                    run_id,
                    detail@,
                    failure,
                    now_unix_ms,
                ) && (old(self)@.can_end(run_id) ==> recorded(
                    failure,
                    old(self)@.quarantine_failure(run_id, detail@),
                    old(self)@.limits,
                )),
    {
        let ghost before = self@;
        let process = match self.store.get(run_id) {
            Some(record) => record.process_state(),
            None => {
                self.unlink(run_id);
                assert(self@ == before.quarantined(run_id, detail@, arbitrary(), now_unix_ms));
                return;
            },
        };
        if process.is_terminal() {
            self.unlink(run_id);
            assert(self@ == before.quarantined(run_id, detail@, arbitrary(), now_unix_ms));
            return;
        }
        if process == ProcessState::Starting || process == ProcessState::Ready {
            self.tell_to_stop(run_id, now_unix_ms);
        }
        let limits = self.limits;
        let failure = match self.failures.get(&run_id) {
            Some(pending) => RunFailure::from_runtime_limits(
                pending.kind,
                pending.detail.as_str(),
                limits,
            ),
            None => RunFailure::from_runtime_limits(RunFailureKind::Stop, detail, limits),
        };
        self.end(
            run_id,
            RunMutation::ProcessQuarantined { failure },
            detail,
            true,
            now_unix_ms,
        );
        assert(self@ == before.quarantined(run_id, detail@, failure, now_unix_ms));
    }
}

pub proof fn lemma_stop_stepped(
    before: ManagerView,
    middle: ManagerView,
    run_id: RunId,
    ticket: u64,
    stop: StopTransactionView,
    store: RuntimeStoreView,
    result: Result<StopDirectiveView, StopTransactionError>,
    now_unix_ms: u64,
)
    requires
        middle == (ManagerView { store, stops: before.stops.remove(run_id), ..before }),
    ensures
        middle.stop_stepped(run_id, ticket, stop, store, result, now_unix_ms)
            == before.stop_stepped(run_id, ticket, stop, store, result, now_unix_ms),
{
    let active = ActiveStopView { transaction: stop, ticket };
    assert(before.stops.remove(run_id).insert(run_id, active) =~= before.stops.insert(
        run_id,
        active,
    ));
    assert(before.stops.remove(run_id).remove(run_id) =~= before.stops.remove(run_id));
}

} // verus!
