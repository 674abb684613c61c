//! The start of runs, and the shutdown of all of them.
use vstd::prelude::*;
use vstd::string::*;

use crate::ids::{ProjectId, RequestId, RunId};
use crate::keyed::{strictly_ordered, OrderedKey};
use crate::launch::ProjectTrustPolicy;
use crate::paths::{same_path, same_place};
use crate::rpc::{RpcCommand, RpcRequest};
use crate::runtime::manager::actions::{
    ActionView, ManagerAction, ManagerReply, ReplyView, RuntimeShutdownReport,
};
use crate::runtime::manager::basics::{stopping, told};
use crate::runtime::manager::drafts::all_keys;
use crate::runtime::manager::laws::lemma_flushing;
use crate::runtime::manager::{
    ManagerView, RuntimeManager, ShutdownState, ShutdownView, StartupHandshake, StartupView,
};
use crate::runtime::process_actor::CommandRoom;
use crate::runtime::rpc_controller::{ControllerView, RunRpcController};
use crate::runtime::state::{
    ExecutionIsolation, ProcessState, RunFailureKind, RunRecord, RunRecordView, RuntimeError,
    RuntimeStoreView,
};
use crate::runtime::ui_queue::{RuntimeUiQueue, UiQueueView};
use crate::text::{join, optional_view, sat_add_u64, texts_view};
use crate::worktree::GitWorktreeIdentity;

verus! {

/// What a run is started with.
#[derive(Clone, Debug, PartialEq, Eq)]
pub struct RunStartSpec {
    pub project_id: ProjectId,
    pub execution_isolation: ExecutionIsolation,
    pub worktree: Option<GitWorktreeIdentity>,
    pub execution_root: String,
    pub project_trust: ProjectTrustPolicy,
    /// The session, where the run starts one under a given identity.
    pub session_id: Option<String>,
}

#[derive(Debug, PartialEq, Eq)]
pub enum RuntimeManagerError {
    AsyncRuntimeUnavailable,
    ManagerClosed,
    WorktreeAlreadyActive { execution_root: String },
    Operation(String),
}

/// Model of a [`RuntimeManagerError`].
pub enum ManagerErrorView {
    AsyncRuntimeUnavailable,
    ManagerClosed,
    WorktreeAlreadyActive { execution_root: Seq<char> },
    Operation(Seq<char>),
}

impl View for RuntimeManagerError {
    type V = ManagerErrorView;

    open spec fn view(&self) -> ManagerErrorView {
        match *self {
            RuntimeManagerError::AsyncRuntimeUnavailable => {
                ManagerErrorView::AsyncRuntimeUnavailable
            },
            RuntimeManagerError::ManagerClosed => ManagerErrorView::ManagerClosed,
            RuntimeManagerError::WorktreeAlreadyActive { execution_root } => {
                ManagerErrorView::WorktreeAlreadyActive { execution_root: execution_root@ }
            },
            RuntimeManagerError::Operation(detail) => ManagerErrorView::Operation(detail@),
        }
    }
}

impl ManagerErrorView {
    pub open spec fn text(self) -> Seq<char> {
        match self {
            ManagerErrorView::AsyncRuntimeUnavailable => {
                "runtime manager requires an active Tokio runtime"@
            },
            ManagerErrorView::ManagerClosed => "runtime manager is closed"@,
            ManagerErrorView::WorktreeAlreadyActive { execution_root } => {
                "Git worktree execution root is already owned by a live run: "@ + execution_root
            },
            ManagerErrorView::Operation(detail) => "runtime manager operation failed: "@ + detail,
        }
    }
}

impl RuntimeManagerError {
    /// The error as a sentence.
    pub fn message(&self) -> (r: String)
        ensures
            r@ == self@.text(),
    {
        match self {
            RuntimeManagerError::AsyncRuntimeUnavailable => {
                "runtime manager requires an active Tokio runtime".to_owned()
            },
            RuntimeManagerError::ManagerClosed => "runtime manager is closed".to_owned(),
            RuntimeManagerError::WorktreeAlreadyActive { execution_root } => join(
                "Git worktree execution root is already owned by a live run: ",
                execution_root.as_str(),
            ),
            RuntimeManagerError::Operation(detail) => join(
                "runtime manager operation failed: ",
                detail.as_str(),
            ),
        }
    }
}

/// The identities of the first requests to a new process.
#[derive(Debug)]
pub struct StartupIds {
    pub state: RequestId,
    pub models: RequestId,
    pub thinking_levels: RequestId,
    pub commands: RequestId,
}

/// The first requests to a new process.
pub open spec fn startup_requests(ids: StartupIds) -> Seq<RpcRequest> {
    seq![
        RpcRequest { id: ids.state, command: RpcCommand::GetState },
        RpcRequest { id: ids.models, command: RpcCommand::GetAvailableModels },
        RpcRequest { id: ids.thinking_levels, command: RpcCommand::GetAvailableThinkingLevels },
        RpcRequest { id: ids.commands, command: RpcCommand::GetCommands },
    ]
}

/// How many of these runs are under quarantine.
pub open spec fn quarantined_among(runs: Seq<RunId>, store: RuntimeStoreView) -> nat
    decreases runs.len(),
{
    if runs.len() == 0 {
        0
    } else {
        quarantined_among(runs.drop_last(), store) + (if store.runs.contains_key(runs.last())
            && store.runs[runs.last()].process == ProcessState::Quarantined {
            1nat
        } else {
            0nat
        })
    }
}

impl ManagerView {
    /// Whether a live run executes in this directory.
    pub open spec fn occupied(self, execution_root: Seq<char>) -> bool {
        exists|id: RunId| #[trigger]
            self.store.runs.contains_key(id) && !self.store.runs[id].process.terminal()
                && same_place(self.store.runs[id].execution_root@, execution_root)
    }

    /// Writes requests one after the other, up to the first that cannot be written;
    /// that is a failure of the transport.
    pub open spec fn probed(self, run_id: RunId, requests: Seq<RpcRequest>, now: u64) -> (Self, bool)
        decreases requests.len(),
    {
        if requests.len() == 0 {
            (self, true)
        } else {
            let (before, going) = self.probed(run_id, requests.drop_last(), now);
            if !going {
                (before, false)
            } else {
                let (after, result) = before.sent(run_id, requests.last());
                match result {
                    Ok(_) => (after, true),
                    Err(error) => (
                        after.protocol_failed(
                            run_id,
                            "failed queuing startup RPC probe: "@ + error,
                            now,
                        ),
                        false,
                    ),
                }
            }
        }
    }

    /// The manager with a run whose process was just started.
    pub open spec fn with_run(
        self,
        record: RunRecordView,
        session_id: Option<Seq<char>>,
        room: CommandRoom,
    ) -> Self {
        ManagerView {
            store: RuntimeStoreView {
                runs: self.store.runs.insert(record.id, record),
                revision: sat_add_u64(self.store.revision, 1),
                ..self.store
            },
            controllers: self.controllers.insert(
                record.id,
                ControllerView::fresh(record.id, self.limits),
            ),
            renderers: self.renderers.insert(record.id, UiQueueView::empty(self.limits)),
            processes: self.processes.insert(record.id, room),
            sessions: match session_id {
                Some(session_id) => self.sessions.insert(record.id, session_id),
                None => self.sessions,
            },
            ..self
        }
    }

    /// A process was started for a run: it is asked what it is about.
    pub open spec fn run_registered(
        self,
        record: RunRecordView,
        session_id: Option<Seq<char>>,
        room: CommandRoom,
        ids: StartupIds,
        now_ms: u64,
        now_unix_ms: u64,
    ) -> Self {
        let shown = self.with_run(record, session_id, room).load_queued(record.id).state_notified(
            record.id,
        );
        ManagerView {
            startups: shown.startups.insert(
                record.id,
                StartupView {
                    request_id: ids.state@,
                    deadline_ms: sat_add_u64(now_ms, self.limits.startup_rpc_deadline_ms),
                },
            ),
            ..shown
        }.probed(record.id, startup_requests(ids), now_unix_ms).0
    }

    /// The drafts of these sessions are stored at once.
    pub open spec fn flushed(self, sessions: Seq<Seq<char>>) -> Self
        decreases sessions.len(),
    {
        if sessions.len() == 0 {
            self
        } else {
            let before = self.flushed(sessions.drop_last());
            ManagerView {
                save_deadlines: before.save_deadlines.remove(sessions.last()),
                ..before
            }.with_action(ActionView::SaveDraft { session_id: sessions.last() })
        }
    }

    /// The process of a run is terminated because everything ends.
    pub open spec fn shut_down(self, run_id: RunId, now_unix_ms: u64) -> Self {
        let unstarted = ManagerView { startups: self.startups.remove(run_id), ..self };
        let stopped = if self.store.runs.contains_key(run_id)
            && self.store.runs[run_id].process.running() {
            ManagerView {
                store: stopping(self.store, run_id, now_unix_ms),
                ..unstarted
            }.state_notified(run_id)
        } else {
            unstarted
        };
        stopped.with_action(
            ActionView::Terminate {
                run_id,
                deadline_ms: self.limits.stop_termination_deadline_ms,
            },
        )
    }

    /// The processes of these runs are terminated.
    pub open spec fn all_shut_down(self, runs: Seq<RunId>, now_unix_ms: u64) -> Self
        decreases runs.len(),
    {
        if runs.len() == 0 {
            self
        } else {
            self.all_shut_down(runs.drop_last(), now_unix_ms).shut_down(runs.last(), now_unix_ms)
        }
    }

    /// Everything is to end. `runs` are those with a live process, `sessions` those
    /// whose drafts are not stored.
    pub open spec fn shutdown_begun(
        self,
        ticket: Option<u64>,
        runs: Seq<RunId>,
        sessions: Seq<Seq<char>>,
        now_ms: u64,
        now_unix_ms: u64,
    ) -> Self {
        let begun = ManagerView {
            shutdown: Some(
                ShutdownView {
                    ticket,
                    target_runs: runs,
                    draft_deadline_ms: sat_add_u64(now_ms, self.limits.draft_flush_deadline_ms),
                },
            ),
            ..self
        };
        let flushed = if self.persistence {
            begun.flushed(sessions)
        } else {
            begun
        };
        flushed.all_shut_down(runs, now_unix_ms)
    }

    /// How far a shutdown has come.
    pub open spec fn shutdown_progress(self, saves_in_flight: bool, now_ms: u64) -> ShutdownProgress {
        match self.shutdown {
            None => ShutdownProgress::NotYet,
            Some(shutdown) => if self.processes.dom().len() > 0 {
                ShutdownProgress::NotYet
            } else if !saves_in_flight && self.save_deadlines.dom().len() == 0 {
                ShutdownProgress::Done
            } else if now_ms < shutdown.draft_deadline_ms {
                ShutdownProgress::NotYet
            } else {
                ShutdownProgress::DraftsLate
            },
        }
    }

    /// What a finished shutdown reports.
    pub open spec fn shutdown_report(self, failed_sessions: usize) -> RuntimeShutdownReport {
        RuntimeShutdownReport {
            terminal_runs: self.shutdown->0.target_runs.len() as usize,
            quarantined_runs: quarantined_among(
                self.shutdown->0.target_runs,
                self.store,
            ) as usize,
            draft_flush_failed_sessions: failed_sessions,
        }
    }
}

/// How far a shutdown has come.
#[derive(Clone, Copy, Debug, PartialEq, Eq, Structural)]
pub enum ShutdownProgress {
    /// Processes or drafts are still being waited for, or there is no shutdown.
    NotYet,
    /// All processes have ended, but drafts are not stored in time.
    DraftsLate,
    Done,
}

/// Whether these are the runs with a live process, in order.
pub open spec fn lists_processes(manager: ManagerView, runs: Seq<RunId>) -> bool {
    strictly_ordered::<RunId>(runs) && runs.to_set() == manager.processes.dom()
}

impl RuntimeManager {
    fn is_occupied(&self, execution_root: &str) -> (r: bool)
        ensures
            r == self@.occupied(execution_root@),
    {
        let records = self.store.records();
        let ghost ids = self.store.run_ids();
        let mut i: usize = 0;
        while i < records.len()
            invariant
                i <= records@.len() == ids.len(),
                ids == self.store.run_ids(),
                forall|k: int|
                    0 <= k < records@.len() ==> (#[trigger] records@[k])@
                        == self.store@.runs[ids[k]],
                ids.to_set() == self.store@.runs.dom(),
                forall|k: int|
                    0 <= k < i ==> {
                        let record = self.store@.runs[#[trigger] ids[k]];
                        record.process.terminal() || !same_place(
                            record.execution_root@,
                            execution_root@,
                        )
                    },
            decreases records@.len() - i,
        {
            let record = records[i];
            if !record.process_state().is_terminal() && same_path(
                record.execution_root().as_str(),
                execution_root,
            ) {
                proof {
                    assert(records@[i as int]@ == self.store@.runs[ids[i as int]]);
                    assert(ids.to_set().contains(ids[i as int]));
                    assert(self@.store.runs.contains_key(ids[i as int]));
                }
                return true;
            }
            i += 1;
        }
        proof {
            assert forall|id: RunId| #[trigger] self@.store.runs.contains_key(id) implies {
                let record = self@.store.runs[id];
                record.process.terminal() || !same_place(record.execution_root@, execution_root@)
            } by {
                assert(ids.to_set().contains(id));
                let k = ids.index_of(id);
                assert(ids[k] == id);
            }
        }
        false
    }

    /// The record of a run that may be started. A Git worktree holds one live run at
    /// most. `canonical` is the execution root and the root of its worktree, as the
    /// file system resolves them, where it does.
    pub fn check_start(
        &self,
        run_id: RunId,
        spec: RunStartSpec,
        canonical: Option<(String, String)>,
        now_unix_ms: u64,
    ) -> (r: Result<RunRecord, RuntimeManagerError>)
        ensures
            if spec.execution_isolation == ExecutionIsolation::GitWorktree && self@.occupied(
                spec.execution_root@,
            ) {
                r is Err && r->Err_0@ == (ManagerErrorView::WorktreeAlreadyActive {
                    execution_root: spec.execution_root@,
                })
            } else {
                match (spec.execution_isolation, spec.worktree) {
                    (ExecutionIsolation::LocalCheckout, Some(_)) => r is Err && r->Err_0@
                        == ManagerErrorView::Operation(
                        RuntimeError::UnexpectedWorktreeIdentity.text(),
                    ),
                    (ExecutionIsolation::GitWorktree, None) => r is Err && r->Err_0@
                        == ManagerErrorView::Operation(
                        RuntimeError::MissingWorktreeIdentity.text(),
                    ),
                    (
                        ExecutionIsolation::GitWorktree,
                        Some(identity),
                    ) if !RunRecord::root_in_worktree(
                        spec.execution_root@,
                        identity.worktree_root@,
                        canonical,
                    ) => r is Err && r->Err_0@ == ManagerErrorView::Operation(
                        RuntimeError::WorktreeExecutionRootMismatch {
                            execution_root: spec.execution_root,
                            worktree_root: identity.worktree_root,
                        }.text(),
                    ),
                    _ => r is Ok && r->Ok_0@ == RunRecordView::starting(
                        run_id,
                        spec.project_id,
                        spec.execution_root,
                        spec.execution_isolation,
                        spec.project_trust,
                        spec.worktree,
                        now_unix_ms,
                    ),
                }
            },
    {
        if spec.execution_isolation == ExecutionIsolation::GitWorktree && self.is_occupied(
            spec.execution_root.as_str(),
        ) {
            return Err(
                RuntimeManagerError::WorktreeAlreadyActive { execution_root: spec.execution_root },
            );
        }
        let RunStartSpec {
            project_id,
            execution_isolation,
            worktree,
            execution_root,
            project_trust,
            session_id: _,
        } = spec;
        match RunRecord::starting_with_worktree(
            run_id,
            project_id,
            execution_root,
            execution_isolation,
            project_trust,
            worktree,
            canonical,
            now_unix_ms,
        ) {
            Ok(record) => Ok(record),
            Err(error) => Err(RuntimeManagerError::Operation(error.message())),
        }
    }

    fn probe(&mut self, run_id: RunId, request: RpcRequest, going: bool, now_unix_ms: u64, Ghost(
        start,
    ): Ghost<ManagerView>, Ghost(done): Ghost<Seq<RpcRequest>>) -> (r: bool)
        requires
            (old(self)@, going) == start.probed(run_id, done, now_unix_ms),
        ensures
            (final(self)@, r) == start.probed(run_id, done.push(request), now_unix_ms),
    {
        assert(done.push(request).drop_last() =~= done);
        if !going {
            return false;
        }
        match self.send_request(run_id, request) {
            Ok(_) => true,
            Err(error) => {
                let detail = join("failed queuing startup RPC probe: ", error.as_str());
                self.begin_transport_failure(
                    run_id,
                    RunFailureKind::Protocol,
                    detail.as_str(),
                    now_unix_ms,
                );
                false
            },
        }
    }

    /// Takes over a run whose process was just started, and asks the process what it
    /// is about. `room` is what the queue of the process can take.
    pub fn register_run(
        &mut self,
        record: RunRecord,
        session_id: Option<String>,
        room: CommandRoom,
        ids: StartupIds,
        now_ms: u64,
        now_unix_ms: u64,
    ) -> (r: Result<(), String>)
        requires
            old(self)@.limits.max_ui_backlog_bytes_per_run > 0,
        ensures
            if old(self)@.store.runs.contains_key(record@.id) {
                told(r) == Err::<(), Seq<char>>(
                    RuntimeError::DuplicateRun { run_id: record@.id }.text(),
                ) && final(self)@ == old(self)@
            } else {
                r is Ok && final(self)@ == old(self)@.run_registered(
                    record@,
                    optional_view(session_id),
                    room,
                    ids,
                    now_ms,
                    now_unix_ms,
                )
            },
    {
        let ghost start = self@;
        let ghost view = record@;
        let run_id = record.id();
        match self.store.register(record) {
            Ok(_) => {},
            Err(error) => {
                return Err(error.message());
            },
        }
        let limits = self.limits;
        self.controllers.insert(run_id, RunRpcController::new(run_id, limits));
        self.renderers.insert(run_id, RuntimeUiQueue::new(limits));
        self.processes.insert(run_id, room);
        match &session_id {
            Some(session) => {
                self.sessions.insert(run_id, session.clone());
            },
            None => {},
        }
        assert(self@ == start.with_run(view, optional_view(session_id), room));
        self.queue_draft_load(run_id);
        self.notify_state(run_id);
        let deadline_ms: u64 = now_ms.saturating_add(limits.startup_rpc_deadline_ms);
        self.startups.insert(
            run_id,
            StartupHandshake { request_id: ids.state.clone(), deadline_ms },
        );
        let ghost asked = self@;
        let ghost requests = startup_requests(ids);
        let StartupIds { state, models, thinking_levels, commands } = ids;
        let first = RpcRequest::with_id(state, RpcCommand::GetState);
        let second = RpcRequest::with_id(models, RpcCommand::GetAvailableModels);
        let third = RpcRequest::with_id(thinking_levels, RpcCommand::GetAvailableThinkingLevels);
        let fourth = RpcRequest::with_id(commands, RpcCommand::GetCommands);
        let ghost none = Seq::<RpcRequest>::empty();
        let ghost one = none.push(first);
        let ghost two = one.push(second);
        let ghost three = two.push(third);
        assert(three.push(fourth) =~= requests);
        let going = self.probe(run_id, first, true, now_unix_ms, Ghost(asked), Ghost(none));
        let going = self.probe(run_id, second, going, now_unix_ms, Ghost(asked), Ghost(one));
        let going = self.probe(run_id, third, going, now_unix_ms, Ghost(asked), Ghost(two));
        let _ = self.probe(run_id, fourth, going, now_unix_ms, Ghost(asked), Ghost(three));
        Ok(())
    }

    fn flush(&mut self, sessions: &Vec<String>)
        ensures
            final(self)@ == old(self)@.flushed(texts_view(sessions@)),
    {
        let ghost before = self@;
        let ghost texts = texts_view(sessions@);
        let mut i: usize = 0;
        assert(texts.take(0) =~= Seq::<Seq<char>>::empty());
        while i < sessions.len()
            invariant
                i <= sessions@.len(),
                texts == texts_view(sessions@),
                self@ == before.flushed(texts.take(i as int)),
            decreases sessions@.len() - i,
        {
            assert(texts.take(i + 1).drop_last() =~= texts.take(i as int));
            assert(texts.take(i + 1).last() == sessions@[i as int]@);
            let _ = self.save_deadlines.remove(&sessions[i]);
            self.act(ManagerAction::SaveDraft { session_id: sessions[i].clone() });
            i += 1;
        }
        assert(texts.take(i as int) =~= texts);
    }

    fn shut_down_run(&mut self, run_id: RunId, now_unix_ms: u64)
        ensures
            final(self)@ == old(self)@.shut_down(run_id, now_unix_ms),
    {
        let _ = self.startups.remove(&run_id);
        let running = match self.store.get(run_id) {
            Some(record) => {
                let process = record.process_state();
                process == ProcessState::Starting || process == ProcessState::Ready
            },
            None => false,
        };
        if running {
            self.tell_to_stop(run_id, now_unix_ms);
            self.notify_state(run_id);
        }
        let deadline_ms: u64 = self.limits.stop_termination_deadline_ms;
        self.act(ManagerAction::Terminate { run_id, deadline_ms });
    }

    /// Begins to end everything. `sessions` are those whose drafts are not stored. A
    /// second shutdown is refused.
    pub fn begin_shutdown(
        &mut self,
        ticket: Option<u64>,
        sessions: &Vec<String>,
        now_ms: u64,
        now_unix_ms: u64,
    )
        ensures
            if old(self)@.shutdown is Some {
                final(self)@ == (match ticket {
                    Some(ticket) => old(self)@.refused(
                        ticket,
                        "runtime manager is already shutting down"@,
                    ),
                    None => old(self)@,
                })
            } else {
                exists|runs: Seq<RunId>|
                    lists_processes(old(self)@, runs) && final(self)@
                        == #[trigger] old(self)@.shutdown_begun(
                        ticket,
                        runs,
                        texts_view(sessions@),
                        now_ms,
                        now_unix_ms,
                    )
            },
            final(self)@.shutdown is Some,
    {
        let ghost start = self@;
        if self.shutdown.is_some() {
            match ticket {
                Some(ticket) => {
                    self.refuse(ticket, "runtime manager is already shutting down");
                },
                None => {},
            }
            return;
        }
        let runs = all_keys(&self.processes);
        let target_runs = all_keys(&self.processes);
        proof {
            lemma_same_listing(runs@, target_runs@);
        }
        let draft_deadline_ms: u64 = now_ms.saturating_add(self.limits.draft_flush_deadline_ms);
        self.shutdown = Some(ShutdownState { ticket, target_runs, draft_deadline_ms });
        let ghost begun = self@;
        if self.persistence {
            self.flush(sessions);
        }
        proof {
            lemma_flushing(begun, texts_view(sessions@));
        }
        let ghost flushed = self@;
        let mut i: usize = 0;
        assert(runs@.take(0) =~= Seq::<RunId>::empty());
        while i < runs.len()
            invariant
                i <= runs@.len(),
                self@ == flushed.all_shut_down(runs@.take(i as int), now_unix_ms),
                self@.shutdown is Some,
            decreases runs@.len() - i,
        {
            assert(runs@.take(i + 1).drop_last() =~= runs@.take(i as int));
            let id: RunId = runs[i];
            self.shut_down_run(id, now_unix_ms);
            i += 1;
        }
        assert(runs@.take(i as int) =~= runs@);
        assert(self@ == start.shutdown_begun(
            ticket,
            runs@,
            texts_view(sessions@),
            now_ms,
            now_unix_ms,
        ));
    }

    /// How far a shutdown has come. Once drafts are late, nobody waits for them any
    /// more.
    pub fn check_shutdown(&mut self, saves_in_flight: bool, now_ms: u64) -> (r: ShutdownProgress)
        ensures
            r == old(self)@.shutdown_progress(saves_in_flight, now_ms),
            final(self)@ == (if r == ShutdownProgress::DraftsLate {
                ManagerView { save_deadlines: Map::empty(), ..old(self)@ }
            } else {
                old(self)@
            }),
    {
        let draft_deadline_ms: u64 = match &self.shutdown {
            Some(shutdown) => shutdown.draft_deadline_ms,
            None => {
                return ShutdownProgress::NotYet;
            },
        };
        if self.processes.len() > 0 {
            return ShutdownProgress::NotYet;
        }
        if !saves_in_flight && self.save_deadlines.len() == 0 {
            return ShutdownProgress::Done;
        }
        if now_ms < draft_deadline_ms {
            return ShutdownProgress::NotYet;
        }
        self.save_deadlines.clear();
        ShutdownProgress::DraftsLate
    }

    fn count_quarantined(&self, runs: &Vec<RunId>) -> (n: usize)
        ensures
            n == quarantined_among(runs@, self@.store),
            n <= runs@.len(),
    {
        let mut n: usize = 0;
        let mut i: usize = 0;
        assert(runs@.take(0) =~= Seq::<RunId>::empty());
        while i < runs.len()
            invariant
                i <= runs@.len(),
                n <= i,
                n == quarantined_among(runs@.take(i as int), self@.store),
            decreases runs@.len() - i,
        {
            assert(runs@.take(i + 1).drop_last() =~= runs@.take(i as int));
            match self.store.get(runs[i]) {
                Some(record) => {
                    if record.process_state() == ProcessState::Quarantined {
                        n += 1;
                    }
                },
                None => {},
            }
            i += 1;
        }
        assert(runs@.take(i as int) =~= runs@);
        n
    }

    /// Ends a shutdown: who waits for it gets the report. `failed_sessions` is how
    /// many drafts could not be stored.
    pub fn finish_shutdown(&mut self, failed_sessions: usize)
        ensures
            final(self)@ == (match old(self)@.shutdown {
                None => old(self)@,
                Some(shutdown) => {
                    let ended = ManagerView { shutdown: None, ..old(self)@ };
                    match shutdown.ticket {
                        Some(ticket) => ended.answered(
                            ticket,
                            ReplyView::ShutDown(old(self)@.shutdown_report(failed_sessions)),
                        ),
                        None => ended,
                    }
                },
            }),
    {
        let mut taken: Option<ShutdownState> = None;
        core::mem::swap(&mut taken, &mut self.shutdown);
        match taken {
            None => {},
            Some(shutdown) => {
                let quarantined_runs: usize = self.count_quarantined(&shutdown.target_runs);
                let report = RuntimeShutdownReport {
                    terminal_runs: shutdown.target_runs.len(),
                    quarantined_runs,
                    draft_flush_failed_sessions: failed_sessions,
                };
                match shutdown.ticket {
                    Some(ticket) => {
                        self.answer(ticket, ManagerReply::ShutDown(report));
                    },
                    None => {},
                }
            },
        }
    }
}

proof fn lemma_same_listing(a: Seq<RunId>, b: Seq<RunId>)
    requires
        strictly_ordered::<RunId>(a),
        strictly_ordered::<RunId>(b),
        a.to_set() == b.to_set(),
    ensures
        a == b,
    decreases a.len(),
{
    if a.len() == 0 {
        if b.len() > 0 {
            assert(b.to_set().contains(b[0]));
            assert(a.to_set().contains(b[0]));
        }
        assert(a =~= b);
    } else {
        assert(a.to_set().contains(a.last()));
        assert(b.to_set().contains(a.last()));
        let j = b.index_of(a.last());
        assert(b.to_set().contains(b.last()));
        assert(a.to_set().contains(b.last()));
        let i = a.index_of(b.last());
        assert(a[i] == b.last() && b[j] == a.last());
        if i < a.len() - 1 {
            assert(RunId::before(a[i], a[a.len() - 1]));
            if j < b.len() - 1 {
                assert(RunId::before(b[j], b[b.len() - 1]));
            }
        }
        assert(a.last() == b.last());
        let short_a = a.drop_last();
        let short_b = b.drop_last();
        assert forall|x: RunId| short_a.to_set().contains(x) == short_b.to_set().contains(x) by {
            if short_a.contains(x) {
                let k = short_a.index_of(x);
                assert(a[k] == x);
                assert(RunId::before(a[k], a[a.len() - 1]));
                assert(a.to_set().contains(x));
                assert(b.to_set().contains(x));
                let m = b.index_of(x);
                assert(b[m] == x);
                assert(short_b[m] == x);
            }
            if short_b.contains(x) {
                let k = short_b.index_of(x);
                assert(b[k] == x);
                assert(RunId::before(b[k], b[b.len() - 1]));
                assert(b.to_set().contains(x));
                assert(a.to_set().contains(x));
                let m = a.index_of(x);
                assert(a[m] == x);
                assert(short_a[m] == x);
            }
        }
        assert(short_a.to_set() =~= short_b.to_set());
        lemma_same_listing(short_a, short_b);
        assert(a =~= short_a.push(a.last()));
        assert(b =~= short_b.push(b.last()));
    }
}

} // verus!
