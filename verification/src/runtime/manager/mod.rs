//! The manager of all runs: what it knows, and what it asks to be done.
//!
//! The manager does nothing itself. Each call takes one thing that happened, changes
//! what the manager knows, and puts into an outbox what is to be done about it: what
//! to write to which process, whom to answer, which renderer to tell what.
pub mod actions;
pub mod basics;
pub mod commands;
pub mod deadlines;
pub mod drafts;
pub mod flow_laws;
pub mod laws;
pub mod lifecycle;
pub mod replies;
pub mod requests;
pub mod stops;
pub mod surface;
pub mod work_laws;

use vstd::prelude::*;
use vstd::string::*;

use crate::ids::{RequestId, RunId};
use crate::keyed::KeyMap;
use crate::limits::RuntimeLimits;
use crate::rpc::RpcRequest;
use crate::runtime::composer::ComposerAction;
use crate::runtime::hydration::RunControllers;
use crate::runtime::manager::actions::{ActionView, ManagerAction};
use crate::runtime::process_actor::CommandRoom;
use crate::runtime::rpc_controller::ControllerView;
use crate::runtime::state::{RunFailureKind, RuntimeStore, RuntimeStoreView};
use crate::runtime::stop::{StopTransaction, StopTransactionView};
use crate::runtime::ui_queue::{RuntimeUiQueue, UiQueueView};

verus! {

/// One who waits for an answer of a process.
#[derive(Debug)]
pub struct Waiter {
    pub run_id: RunId,
    /// The request, or the question of an extension, that is waited for.
    pub request_id: String,
    pub extension: bool,
    pub ticket: u64,
}

/// Model of a [`Waiter`].
pub struct WaiterView {
    pub run_id: RunId,
    pub request_id: Seq<char>,
    pub extension: bool,
    pub ticket: u64,
}

impl View for Waiter {
    type V = WaiterView;

    open spec fn view(&self) -> WaiterView {
        WaiterView {
            run_id: self.run_id,
            request_id: self.request_id@,
            extension: self.extension,
            ticket: self.ticket,
        }
    }
}

/// The models of a list of waiters.
pub open spec fn waiter_views(waiters: Seq<Waiter>) -> Seq<WaiterView> {
    waiters.map_values(|waiter: Waiter| waiter@)
}

/// A draft that was sent and is not answered yet.
#[derive(Debug)]
pub struct ActiveComposerSubmission {
    pub request_id: RequestId,
    pub action: ComposerAction,
    pub draft_generation: u64,
    pub ticket: u64,
}

/// Model of an [`ActiveComposerSubmission`].
pub struct SubmissionView {
    pub request_id: Seq<char>,
    pub action: ComposerAction,
    pub draft_generation: u64,
    pub ticket: u64,
}

impl View for ActiveComposerSubmission {
    type V = SubmissionView;

    open spec fn view(&self) -> SubmissionView {
        SubmissionView {
            request_id: self.request_id@,
            action: self.action,
            draft_generation: self.draft_generation,
            ticket: self.ticket,
        }
    }
}

/// A replacement of the session that waits until the draft is stored.
#[derive(Debug)]
pub struct PendingSessionReplacement {
    pub request: RpcRequest,
    pub session_id: String,
    pub deadline_ms: u64,
    pub ticket: u64,
}

/// Model of a [`PendingSessionReplacement`].
pub struct ReplacementView {
    pub request: RpcRequest,
    pub session_id: Seq<char>,
    pub deadline_ms: u64,
    pub ticket: u64,
}

impl View for PendingSessionReplacement {
    type V = ReplacementView;

    open spec fn view(&self) -> ReplacementView {
        ReplacementView {
            request: self.request,
            session_id: self.session_id@,
            deadline_ms: self.deadline_ms,
            ticket: self.ticket,
        }
    }
}

/// The first question to a new process, and when it has to be answered.
#[derive(Debug)]
pub struct StartupHandshake {
    pub request_id: RequestId,
    pub deadline_ms: u64,
}

/// Model of a [`StartupHandshake`].
pub struct StartupView {
    pub request_id: Seq<char>,
    pub deadline_ms: u64,
}

impl View for StartupHandshake {
    type V = StartupView;

    open spec fn view(&self) -> StartupView {
        StartupView { request_id: self.request_id@, deadline_ms: self.deadline_ms }
    }
}

/// A Stop that is under way, and who asked for it.
#[derive(Debug)]
pub struct ActiveStop {
    pub transaction: StopTransaction,
    pub ticket: u64,
}

/// Model of an [`ActiveStop`].
pub struct ActiveStopView {
    pub transaction: StopTransactionView,
    pub ticket: u64,
}

impl View for ActiveStop {
    type V = ActiveStopView;

    open spec fn view(&self) -> ActiveStopView {
        ActiveStopView { transaction: self.transaction@, ticket: self.ticket }
    }
}

/// Why a process is being terminated.
#[derive(Debug)]
pub struct PendingFailure {
    pub kind: RunFailureKind,
    pub detail: String,
}

/// Model of a [`PendingFailure`].
pub struct FailureView {
    pub kind: RunFailureKind,
    pub detail: Seq<char>,
}

impl View for PendingFailure {
    type V = FailureView;

    open spec fn view(&self) -> FailureView {
        FailureView { kind: self.kind, detail: self.detail@ }
    }
}

/// A shutdown that is under way. Nobody may wait for it.
#[derive(Debug)]
pub struct ShutdownState {
    pub ticket: Option<u64>,
    pub target_runs: Vec<RunId>,
    pub draft_deadline_ms: u64,
}

/// Model of a [`ShutdownState`].
pub struct ShutdownView {
    pub ticket: Option<u64>,
    pub target_runs: Seq<RunId>,
    pub draft_deadline_ms: u64,
}

impl View for ShutdownState {
    type V = ShutdownView;

    open spec fn view(&self) -> ShutdownView {
        ShutdownView {
            ticket: self.ticket,
            target_runs: self.target_runs@,
            draft_deadline_ms: self.draft_deadline_ms,
        }
    }
}

/// Model of a [`RuntimeManager`].
pub struct ManagerView {
    pub limits: RuntimeLimits,
    pub store: RuntimeStoreView,
    pub controllers: Map<RunId, ControllerView>,
    /// The live processes, and what the queue of each can still take.
    pub processes: Map<RunId, CommandRoom>,
    pub renderers: Map<RunId, UiQueueView>,
    pub waiters: Seq<WaiterView>,
    pub submissions: Map<RunId, SubmissionView>,
    pub replacements: Map<RunId, ReplacementView>,
    /// The session whose draft a run shows, once it is known.
    pub sessions: Map<RunId, Seq<char>>,
    /// Whether drafts are stored at all.
    pub persistence: bool,
    pub loads_attempted: Map<Seq<char>, bool>,
    pub loads_pending: Map<Seq<char>, bool>,
    pub save_deadlines: Map<Seq<char>, u64>,
    pub startups: Map<RunId, StartupView>,
    pub stops: Map<RunId, ActiveStopView>,
    pub failures: Map<RunId, FailureView>,
    pub shutdown: Option<ShutdownView>,
    pub outbox: Seq<ActionView>,
}

/// The manager of all runs.
#[derive(Debug)]
pub struct RuntimeManager {
    limits: RuntimeLimits,
    store: RuntimeStore,
    controllers: RunControllers,
    processes: KeyMap<RunId, CommandRoom>,
    renderers: KeyMap<RunId, RuntimeUiQueue>,
    waiters: Vec<Waiter>,
    submissions: KeyMap<RunId, ActiveComposerSubmission>,
    replacements: KeyMap<RunId, PendingSessionReplacement>,
    sessions: KeyMap<RunId, String>,
    persistence: bool,
    loads_attempted: KeyMap<String, bool>,
    loads_pending: KeyMap<String, bool>,
    save_deadlines: KeyMap<String, u64>,
    startups: KeyMap<RunId, StartupHandshake>,
    stops: KeyMap<RunId, ActiveStop>,
    failures: KeyMap<RunId, PendingFailure>,
    shutdown: Option<ShutdownState>,
    outbox: Vec<ManagerAction>,
}

/// The models of a list of actions.
pub open spec fn action_views(actions: Seq<ManagerAction>) -> Seq<ActionView> {
    actions.map_values(|action: ManagerAction| action@)
}

impl View for RuntimeManager {
    type V = ManagerView;

    closed spec fn view(&self) -> ManagerView {
        ManagerView {
            limits: self.limits,
            store: self.store@,
            controllers: self.controllers.by_run@,
            processes: self.processes@,
            renderers: self.renderers@,
            waiters: waiter_views(self.waiters@),
            submissions: self.submissions@,
            replacements: self.replacements@,
            sessions: self.sessions@,
            persistence: self.persistence,
            loads_attempted: self.loads_attempted@,
            loads_pending: self.loads_pending@,
            save_deadlines: self.save_deadlines@,
            startups: self.startups@,
            stops: self.stops@,
            failures: self.failures@,
            shutdown: match self.shutdown {
                Some(shutdown) => Some(shutdown@),
                None => None,
            },
            outbox: action_views(self.outbox@),
        }
    }
}

impl ManagerView {
    pub open spec fn empty(limits: RuntimeLimits, persistence: bool) -> Self {
        ManagerView {
            limits,
            store: RuntimeStoreView {
                runs: Map::empty(),
                max_pending_ui_requests_per_run: limits.max_pending_ui_requests_per_run,
                revision: 0,
            },
            controllers: Map::empty(),
            processes: Map::empty(),
            renderers: Map::empty(),
            waiters: Seq::empty(),
            submissions: Map::empty(),
            replacements: Map::empty(),
            sessions: Map::empty(),
            persistence,
            loads_attempted: Map::empty(),
            loads_pending: Map::empty(),
            save_deadlines: Map::empty(),
            startups: Map::empty(),
            stops: Map::empty(),
            failures: Map::empty(),
            shutdown: None,
            outbox: Seq::empty(),
        }
    }
}

impl RuntimeManager {
    /// A manager without runs.
    pub fn new(limits: RuntimeLimits, persistence: bool) -> (r: Self)
        ensures
            r@ == ManagerView::empty(limits, persistence),
    {
        let waiters: Vec<Waiter> = Vec::new();
        let outbox: Vec<ManagerAction> = Vec::new();
        assert(waiter_views(waiters@) =~= Seq::<WaiterView>::empty());
        assert(action_views(outbox@) =~= Seq::<ActionView>::empty());
        RuntimeManager {
            limits,
            store: RuntimeStore::new(limits),
            controllers: RunControllers::new(),
            processes: KeyMap::new(),
            renderers: KeyMap::new(),
            waiters,
            submissions: KeyMap::new(),
            replacements: KeyMap::new(),
            sessions: KeyMap::new(),
            persistence,
            loads_attempted: KeyMap::new(),
            loads_pending: KeyMap::new(),
            save_deadlines: KeyMap::new(),
            startups: KeyMap::new(),
            stops: KeyMap::new(),
            failures: KeyMap::new(),
            shutdown: None,
            outbox,
        }
    }
}

} // verus!
