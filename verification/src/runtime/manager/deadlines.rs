//! What happens when time has run out.
use vstd::prelude::*;
use vstd::string::*;

use crate::ids::RunId;
use crate::keyed::{strictly_ordered, OrderedKey};
use crate::runtime::manager::actions::{
    ActionView, ManagerAction, ManagerReply, NoticeView, ReplyView, UiNotice,
};
use crate::runtime::manager::drafts::all_keys;
use crate::runtime::manager::{ManagerView, RuntimeManager};
use crate::runtime::rpc_controller::{lists_expired, ControllerView, RunRpcController};
use crate::runtime::state::RunFailureKind;

verus! {

/// Whether a question of a run is given up at this moment.
pub open spec fn gives_up_at(controller: ControllerView, at: u64) -> bool {
    exists|id: Seq<char>| #[trigger]
        controller.pending_dialogs.contains_key(id)
            && controller.pending_dialogs[id].expires_at_ms == Some(at)
}

/// Whether Pi has given up a question of a run.
pub open spec fn has_late_dialog(controller: ControllerView, now_ms: u64) -> bool {
    exists|at: u64| at <= now_ms && #[trigger] gives_up_at(controller, at)
}

/// What is told of a replacement that waited too long for its draft.
pub open spec fn late_flush_text() -> Seq<char> {
    "draft flush deadline expired before session replacement"@
}

impl ManagerView {
    /// Whether something is due at this moment.
    pub open spec fn is_deadline(self, at: u64) -> bool {
        ||| exists|id: RunId| #[trigger]
            self.stops.contains_key(id) && self.stops[id].transaction.rpc_deadline_ms == at
        ||| exists|id: RunId| #[trigger]
            self.startups.contains_key(id) && self.startups[id].deadline_ms == at
        ||| exists|id: RunId| #[trigger]
            self.replacements.contains_key(id) && self.replacements[id].deadline_ms == at
        ||| exists|id: Seq<char>| #[trigger]
            self.save_deadlines.contains_key(id) && self.save_deadlines[id] == at
        ||| self.shutdown is Some && self.shutdown->0.draft_deadline_ms == at
        ||| exists|id: RunId| #[trigger]
            self.controllers.contains_key(id) && gives_up_at(self.controllers[id], at)
    }

    /// The replacement of a run, if it is due, does not wait any longer.
    pub open spec fn replacement_timed(self, run_id: RunId, now_ms: u64) -> Self {
        if self.replacements.contains_key(run_id) && self.replacements[run_id].deadline_ms
            <= now_ms {
            self.replacement_failed(run_id, late_flush_text())
        } else {
            self
        }
    }

    /// The draft of a session, if it is due, is stored.
    pub open spec fn save_timed(self, session_id: Seq<char>, now_ms: u64) -> Self {
        if self.save_deadlines.contains_key(session_id) && self.save_deadlines[session_id]
            <= now_ms {
            ManagerView {
                save_deadlines: self.save_deadlines.remove(session_id),
                ..self
            }.with_action(ActionView::SaveDraft { session_id })
        } else {
            self
        }
    }

    /// A new process that has not answered in time has failed.
    pub open spec fn startup_timed(self, run_id: RunId, now_ms: u64, now_unix_ms: u64) -> Self {
        if self.startups.contains_key(run_id) && self.startups[run_id].deadline_ms <= now_ms {
            self.protocol_failed(
                run_id,
                "Pi RPC startup handshake exceeded its deadline"@,
                now_unix_ms,
            )
        } else {
            self
        }
    }

    /// A Stop that is not done in time goes on by force.
    pub open spec fn stop_timed(self, run_id: RunId, now_ms: u64, now_unix_ms: u64) -> Self {
        if self.stops.contains_key(run_id) && self.stops[run_id].transaction.rpc_deadline_ms
            <= now_ms {
            let active = self.stops[run_id];
            let step = active.transaction.timed(now_ms, self.store, now_unix_ms);
            self.stop_stepped(run_id, active.ticket, step.stop, step.store, step.result, now_unix_ms)
        } else {
            self
        }
    }

    /// Who waits to have answered these questions is told that they are given up.
    pub open spec fn dialogs_refused(self, run_id: RunId, ids: Seq<String>) -> Self
        decreases ids.len(),
    {
        if ids.len() == 0 {
            self
        } else {
            self.dialogs_refused(run_id, ids.drop_last()).waiter_answered(
                run_id,
                ids.last()@,
                true,
                ReplyView::Refused("extension dialog timed out in Pi"@),
            )
        }
    }

    /// The questions `ids` of a run are given up.
    pub open spec fn dialogs_timed(self, run_id: RunId, ids: Seq<String>, now_unix_ms: u64) -> Self {
        if !self.controllers.contains_key(run_id) {
            self
        } else {
            let step = self.controllers[run_id].dialogs_answered(ids, self.store, now_unix_ms);
            let after = self.controlled(run_id, step.controller, step.store);
            match step.result {
                Ok(_) => if ids.len() == 0 {
                    after
                } else {
                    after.dialogs_refused(run_id, ids).notified(
                        run_id,
                        NoticeView::ExtensionDialogsChanged,
                    ).state_notified(run_id)
                },
                Err(error) => after.protocol_failed(run_id, error.text(), now_unix_ms),
            }
        }
    }

    /// One kind of deadline for each of these runs, one after the other.
    pub open spec fn runs_timed(
        self,
        kind: DeadlineKind,
        ids: Seq<RunId>,
        now_ms: u64,
        now_unix_ms: u64,
    ) -> Self
        decreases ids.len(),
    {
        if ids.len() == 0 {
            self
        } else {
            let before = self.runs_timed(kind, ids.drop_last(), now_ms, now_unix_ms);
            match kind {
                DeadlineKind::Replacement => before.replacement_timed(ids.last(), now_ms),
                DeadlineKind::Startup => before.startup_timed(ids.last(), now_ms, now_unix_ms),
                DeadlineKind::Stop => before.stop_timed(ids.last(), now_ms, now_unix_ms),
            }
        }
    }

    /// The drafts of these sessions, one after the other.
    pub open spec fn saves_timed(self, sessions: Seq<Seq<char>>, now_ms: u64) -> Self
        decreases sessions.len(),
    {
        if sessions.len() == 0 {
            self
        } else {
            self.saves_timed(sessions.drop_last(), now_ms).save_timed(sessions.last(), now_ms)
        }
    }
}

/// Whether the replacements that waited too long have failed.
pub open spec fn replacements_expired(before: ManagerView, after: ManagerView, now_ms: u64) -> bool {
    exists|ids: Seq<RunId>|
        strictly_ordered::<RunId>(ids) && ids.to_set() == before.replacements.dom() && after
            == #[trigger] before.runs_timed(DeadlineKind::Replacement, ids, now_ms, 0)
}

/// Whether the drafts that have rested long enough are being stored.
pub open spec fn saves_started(before: ManagerView, after: ManagerView, now_ms: u64) -> bool {
    exists|sessions: Seq<Seq<char>>|
        strictly_ordered::<String>(sessions) && sessions.to_set() == before.save_deadlines.dom()
            && after == #[trigger] before.saves_timed(sessions, now_ms)
}

/// Whether the processes that have not answered in time have failed.
pub open spec fn startups_expired(
    before: ManagerView,
    after: ManagerView,
    now_ms: u64,
    now_unix_ms: u64,
) -> bool {
    exists|ids: Seq<RunId>|
        strictly_ordered::<RunId>(ids) && ids.to_set() == before.startups.dom() && after
            == #[trigger] before.runs_timed(DeadlineKind::Startup, ids, now_ms, now_unix_ms)
}

/// Whether the Stops that are not done in time go on by force.
pub open spec fn stops_expired(
    before: ManagerView,
    after: ManagerView,
    now_ms: u64,
    now_unix_ms: u64,
) -> bool {
    exists|ids: Seq<RunId>|
        strictly_ordered::<RunId>(ids) && ids.to_set() == before.stops.dom() && after
            == #[trigger] before.runs_timed(DeadlineKind::Stop, ids, now_ms, now_unix_ms)
}

/// Whether the questions of a run whose time has run out are given up.
pub open spec fn dialogs_expired(
    before: ManagerView,
    after: ManagerView,
    run_id: RunId,
    now_ms: u64,
    now_unix_ms: u64,
) -> bool {
    exists|ids: Seq<String>|
        (before.controllers.contains_key(run_id) ==> lists_expired(
            before.controllers[run_id],
            ids,
            now_ms,
        )) && after == #[trigger] before.dialogs_timed(run_id, ids, now_unix_ms)
}

/// Whether the questions of these runs whose time has run out are given up, one run
/// after the other.
pub open spec fn all_dialogs_expired(
    before: ManagerView,
    after: ManagerView,
    runs: Seq<RunId>,
    now_ms: u64,
    now_unix_ms: u64,
) -> bool
    decreases runs.len(),
{
    if runs.len() == 0 {
        after == before
    } else {
        exists|middle: ManagerView|
            all_dialogs_expired(before, middle, runs.drop_last(), now_ms, now_unix_ms)
                && #[trigger] dialogs_expired(middle, after, runs.last(), now_ms, now_unix_ms)
    }
}

/// Whether these are the runs that have questions which Pi has given up.
pub open spec fn lists_late_runs(manager: ManagerView, runs: Seq<RunId>, now_ms: u64) -> bool {
    &&& strictly_ordered::<RunId>(runs)
    &&& forall|i: int|
        0 <= i < runs.len() ==> manager.controllers.contains_key(#[trigger] runs[i])
            && has_late_dialog(manager.controllers[runs[i]], now_ms)
    &&& forall|id: RunId| #[trigger]
        manager.controllers.contains_key(id) && has_late_dialog(manager.controllers[id], now_ms)
            ==> runs.contains(id)
}

/// What can be due for a run.
#[derive(Clone, Copy, Debug, PartialEq, Eq, Structural)]
pub enum DeadlineKind {
    Replacement,
    Startup,
    Stop,
}

fn earlier(a: Option<u64>, b: u64) -> (r: Option<u64>)
    ensures
        r is Some,
        r->0 <= b,
        a is Some ==> r->0 <= a->0,
        r->0 == b || r == a,
{
    match a {
        Some(a) => if a <= b {
            Some(a)
        } else {
            Some(b)
        },
        None => Some(b),
    }
}

fn has_late(controller: &RunRpcController, now_ms: u64) -> (r: bool)
    ensures
        r == has_late_dialog(controller@, now_ms),
{
    match controller.next_extension_dialog_expiry() {
        Some(at) => {
            assert(gives_up_at(controller@, at));
            at <= now_ms
        },
        None => false,
    }
}

impl RuntimeManager {
    fn earliest_stop(&self) -> (r: Option<u64>)
        ensures
            match r {
                Some(at) => {
                    &&& exists|id: RunId| #[trigger]
                        self@.stops.contains_key(id)
                            && self@.stops[id].transaction.rpc_deadline_ms == at
                    &&& forall|id: RunId| #[trigger]
                        self@.stops.contains_key(id) ==> at
                            <= self@.stops[id].transaction.rpc_deadline_ms
                },
                None => forall|id: RunId| !#[trigger] self@.stops.contains_key(id),
            },
    {
        let keys = all_keys(&self.stops);
        let mut r: Option<u64> = None;
        let mut i: usize = 0;
        while i < keys.len()
            invariant
                i <= keys@.len(),
                forall|k: int| 0 <= k < keys@.len() ==> self.stops@.contains_key(
                    #[trigger] keys@[k],
                ),
                r is None ==> i == 0,
                r is Some ==> exists|id: RunId| #[trigger]
                    self.stops@.contains_key(id) && self.stops@[id].transaction.rpc_deadline_ms
                        == r->0,
                forall|k: int|
                    0 <= k < i ==> r is Some && r->0
                        <= self.stops@[#[trigger] keys@[k]].transaction.rpc_deadline_ms,
            decreases keys@.len() - i,
        {
            match self.stops.get(&keys[i]) {
                Some(active) => {
                    r = earlier(r, active.transaction.rpc_deadline());
                },
                None => {},
            }
            i += 1;
        }
        proof {
            assert(self@.stops == self.stops@);
            assert forall|id: RunId| #[trigger] self.stops@.contains_key(id) implies r is Some
                && r->0 <= self.stops@[id].transaction.rpc_deadline_ms by {
                let k = keys@.index_of(id);
                assert(keys@[k] == id);
            }
        }
        r
    }

    fn earliest_startup(&self) -> (r: Option<u64>)
        ensures
            match r {
                Some(at) => {
                    &&& exists|id: RunId| #[trigger]
                        self@.startups.contains_key(id) && self@.startups[id].deadline_ms == at
                    &&& forall|id: RunId| #[trigger]
                        self@.startups.contains_key(id) ==> at <= self@.startups[id].deadline_ms
                },
                None => forall|id: RunId| !#[trigger] self@.startups.contains_key(id),
            },
    {
        let keys = all_keys(&self.startups);
        let mut r: Option<u64> = None;
        let mut i: usize = 0;
        while i < keys.len()
            invariant
                i <= keys@.len(),
                forall|k: int| 0 <= k < keys@.len() ==> self.startups@.contains_key(
                    #[trigger] keys@[k],
                ),
                r is None ==> i == 0,
                r is Some ==> exists|id: RunId| #[trigger]
                    self.startups@.contains_key(id) && self.startups@[id].deadline_ms == r->0,
                forall|k: int|
                    0 <= k < i ==> r is Some && r->0
                        <= self.startups@[#[trigger] keys@[k]].deadline_ms,
            decreases keys@.len() - i,
        {
            match self.startups.get(&keys[i]) {
                Some(startup) => {
                    r = earlier(r, startup.deadline_ms);
                },
                None => {},
            }
            i += 1;
        }
        proof {
            assert(self@.startups == self.startups@);
            assert forall|id: RunId| #[trigger] self.startups@.contains_key(id) implies r is Some
                && r->0 <= self.startups@[id].deadline_ms by {
                let k = keys@.index_of(id);
                assert(keys@[k] == id);
            }
        }
        r
    }

    fn earliest_replacement(&self) -> (r: Option<u64>)
        ensures
            match r {
                Some(at) => {
                    &&& exists|id: RunId| #[trigger]
                        self@.replacements.contains_key(id)
                            && self@.replacements[id].deadline_ms == at
                    &&& forall|id: RunId| #[trigger]
                        self@.replacements.contains_key(id) ==> at
                            <= self@.replacements[id].deadline_ms
                },
                None => forall|id: RunId| !#[trigger] self@.replacements.contains_key(id),
            },
    {
        let keys = all_keys(&self.replacements);
        let mut r: Option<u64> = None;
        let mut i: usize = 0;
        while i < keys.len()
            invariant
                i <= keys@.len(),
                forall|k: int| 0 <= k < keys@.len() ==> self.replacements@.contains_key(
                    #[trigger] keys@[k],
                ),
                r is None ==> i == 0,
                r is Some ==> exists|id: RunId| #[trigger]
                    self.replacements@.contains_key(id) && self.replacements@[id].deadline_ms
                        == r->0,
                forall|k: int|
                    0 <= k < i ==> r is Some && r->0
                        <= self.replacements@[#[trigger] keys@[k]].deadline_ms,
            decreases keys@.len() - i,
        {
            match self.replacements.get(&keys[i]) {
                Some(pending) => {
                    r = earlier(r, pending.deadline_ms);
                },
                None => {},
            }
            i += 1;
        }
        proof {
            assert(self@.replacements == self.replacements@);
            assert forall|id: RunId| #[trigger] self.replacements@.contains_key(id) implies r is Some
                && r->0 <= self.replacements@[id].deadline_ms by {
                let k = keys@.index_of(id);
                assert(keys@[k] == id);
            }
        }
        r
    }

    fn earliest_save(&self) -> (r: Option<u64>)
        ensures
            match r {
                Some(at) => {
                    &&& exists|id: Seq<char>| #[trigger]
                        self@.save_deadlines.contains_key(id) && self@.save_deadlines[id] == at
                    &&& forall|id: Seq<char>| #[trigger]
                        self@.save_deadlines.contains_key(id) ==> at <= self@.save_deadlines[id]
                },
                None => forall|id: Seq<char>| !#[trigger] self@.save_deadlines.contains_key(id),
            },
    {
        let n: usize = self.save_deadlines.len();
        let ghost keys = self.save_deadlines.key_models();
        let mut r: Option<u64> = None;
        let mut i: usize = 0;
        while i < n
            invariant
                i <= n == keys.len(),
                keys == self.save_deadlines.key_models(),
                r is None ==> i == 0,
                r is Some ==> exists|id: Seq<char>| #[trigger]
                    self.save_deadlines@.contains_key(id) && self.save_deadlines@[id] == r->0,
                forall|k: int|
                    0 <= k < i ==> r is Some && r->0 <= self.save_deadlines@[#[trigger] keys[k]],
            decreases n - i,
        {
            let at: u64 = *self.save_deadlines.value_at(i);
            r = earlier(r, at);
            i += 1;
        }
        proof {
            assert(self@.save_deadlines == self.save_deadlines@);
            assert forall|id: Seq<char>| #[trigger]
                self.save_deadlines@.contains_key(id) implies r is Some && r->0
                <= self.save_deadlines@[id] by {
                assert(keys.to_set().contains(id));
                let k = keys.index_of(id);
                assert(keys[k] == id);
            }
        }
        r
    }

    fn earliest_dialog(&self) -> (r: Option<u64>)
        ensures
            match r {
                Some(at) => {
                    &&& exists|id: RunId| #[trigger]
                        self@.controllers.contains_key(id) && gives_up_at(
                            self@.controllers[id],
                            at,
                        )
                    &&& forall|id: RunId, other: u64|
                        self@.controllers.contains_key(id) && #[trigger] gives_up_at(
                            self@.controllers[id],
                            other,
                        ) ==> at <= other
                },
                None => forall|id: RunId, other: u64|
                    self@.controllers.contains_key(id) ==> !#[trigger] gives_up_at(
                        self@.controllers[id],
                        other,
                    ),
            },
    {
        let keys = all_keys(&self.controllers.by_run);
        let ghost controllers = self.controllers.by_run@;
        let mut r: Option<u64> = None;
        let mut i: usize = 0;
        while i < keys.len()
            invariant
                i <= keys@.len(),
                controllers == self.controllers.by_run@,
                forall|k: int| 0 <= k < keys@.len() ==> controllers.contains_key(
                    #[trigger] keys@[k],
                ),
                r is Some ==> exists|id: RunId| #[trigger]
                    controllers.contains_key(id) && gives_up_at(controllers[id], r->0),
                forall|k: int, other: u64|
                    0 <= k < i && #[trigger] gives_up_at(controllers[keys@[k]], other) ==> r is Some
                        && r->0 <= other,
            decreases keys@.len() - i,
        {
            let ghost before = r;
            match self.controllers.by_run.get(&keys[i]) {
                Some(controller) => match controller.next_extension_dialog_expiry() {
                    Some(at) => {
                        assert(gives_up_at(controllers[keys@[i as int]], at));
                        r = earlier(r, at);
                    },
                    None => {},
                },
                None => {},
            }
            i += 1;
        }
        proof {
            assert(self@.controllers == controllers);
            assert forall|id: RunId, other: u64|
                controllers.contains_key(id) && #[trigger] gives_up_at(
                    controllers[id],
                    other,
                ) implies r is Some && r->0 <= other by {
                let k = keys@.index_of(id);
                assert(keys@[k] == id);
                assert(gives_up_at(controllers[keys@[k]], other));
            }
        }
        r
    }

    /// The next moment at which something is due, if anything is.
    pub fn next_deadline(&self) -> (r: Option<u64>)
        ensures
            match r {
                Some(at) => self@.is_deadline(at) && forall|other: u64| #[trigger]
                    self@.is_deadline(other) ==> at <= other,
                None => forall|other: u64| !#[trigger] self@.is_deadline(other),
            },
    {
        let mut r: Option<u64> = self.earliest_stop();
        match self.earliest_startup() {
            Some(at) => {
                r = earlier(r, at);
            },
            None => {},
        }
        match self.earliest_replacement() {
            Some(at) => {
                r = earlier(r, at);
            },
            None => {},
        }
        match self.earliest_save() {
            Some(at) => {
                r = earlier(r, at);
            },
            None => {},
        }
        match &self.shutdown {
            Some(shutdown) => {
                r = earlier(r, shutdown.draft_deadline_ms);
            },
            None => {},
        }
        match self.earliest_dialog() {
            Some(at) => {
                r = earlier(r, at);
            },
            None => {},
        }
        r
    }

    fn time_run(&mut self, kind: DeadlineKind, run_id: RunId, now_ms: u64, now_unix_ms: u64)
        ensures
            final(self)@ == (match kind {
                DeadlineKind::Replacement => old(self)@.replacement_timed(run_id, now_ms),
                DeadlineKind::Startup => old(self)@.startup_timed(run_id, now_ms, now_unix_ms),
                DeadlineKind::Stop => old(self)@.stop_timed(run_id, now_ms, now_unix_ms),
            }),
    {
        match kind {
            DeadlineKind::Replacement => {
                let due = match self.replacements.get(&run_id) {
                    Some(pending) => pending.deadline_ms <= now_ms,
                    None => false,
                };
                if due {
                    self.fail_replacement(
                        run_id,
                        "draft flush deadline expired before session replacement",
                    );
                }
            },
            DeadlineKind::Startup => {
                let due = match self.startups.get(&run_id) {
                    Some(startup) => startup.deadline_ms <= now_ms,
                    None => false,
                };
                if due {
                    self.begin_transport_failure(
                        run_id,
                        RunFailureKind::Protocol,
                        "Pi RPC startup handshake exceeded its deadline",
                        now_unix_ms,
                    );
                }
            },
            DeadlineKind::Stop => {
                self.time_stop(run_id, now_ms, now_unix_ms);
            },
        }
    }

    fn time_stop(&mut self, run_id: RunId, now_ms: u64, now_unix_ms: u64)
        ensures
            final(self)@ == old(self)@.stop_timed(run_id, now_ms, now_unix_ms),
    {
        let ghost before = self@;
        let due = match self.stops.get(&run_id) {
            Some(active) => active.transaction.rpc_deadline() <= now_ms,
            None => false,
        };
        if !due {
            return;
        }
        match self.stops.remove(&run_id) {
            Some(mut active) => {
                let ghost step = active.transaction@.timed(now_ms, self.store@, now_unix_ms);
                let result = active.transaction.on_deadline(
                    now_ms,
                    &mut self.store,
                    now_unix_ms,
                );
                let ghost middle = self@;
                self.after_stop_step(run_id, active, result, now_unix_ms, Ghost(step.result));
                proof {
                    crate::runtime::manager::stops::lemma_stop_stepped(
                        before,
                        middle,
                        run_id,
                        active.ticket,
                        step.stop,
                        step.store,
                        step.result,
                        now_unix_ms,
                    );
                }
            },
            None => {},
        }
    }

    fn time_runs(&mut self, kind: DeadlineKind, ids: &Vec<RunId>, now_ms: u64, now_unix_ms: u64)
        ensures
            final(self)@ == old(self)@.runs_timed(kind, ids@, now_ms, now_unix_ms),
    {
        let ghost before = self@;
        let mut i: usize = 0;
        assert(ids@.take(0) =~= Seq::<RunId>::empty());
        while i < ids.len()
            invariant
                i <= ids@.len(),
                self@ == before.runs_timed(kind, ids@.take(i as int), now_ms, now_unix_ms),
            decreases ids@.len() - i,
        {
            assert(ids@.take(i + 1).drop_last() =~= ids@.take(i as int));
            let id: RunId = ids[i];
            self.time_run(kind, id, now_ms, now_unix_ms);
            i += 1;
        }
        assert(ids@.take(i as int) =~= ids@);
    }

    /// Lets all replacements that waited too long fail.
    pub fn expire_replacements(&mut self, now_ms: u64)
        ensures
            replacements_expired(old(self)@, final(self)@, now_ms),
    {
        let ids = all_keys(&self.replacements);
        self.time_runs(DeadlineKind::Replacement, &ids, now_ms, 0);
    }

    /// Has all drafts stored that have rested long enough.
    pub fn start_due_saves(&mut self, now_ms: u64)
        ensures
            saves_started(old(self)@, final(self)@, now_ms),
    {
        let ghost before = self@;
        let n: usize = self.save_deadlines.len();
        let ghost keys = self.save_deadlines.key_models();
        let mut all: Vec<String> = Vec::new();
        let mut i: usize = 0;
        while i < n
            invariant
                i <= n == keys.len(),
                keys == self.save_deadlines.key_models(),
                self@ == before,
                all@.len() == i,
                forall|k: int| 0 <= k < i ==> (#[trigger] all@[k])@ == keys[k],
            decreases n - i,
        {
            all.push(self.save_deadlines.key_at(i).clone());
            i += 1;
        }
        let mut j: usize = 0;
        assert(keys.take(0) =~= Seq::<Seq<char>>::empty());
        while j < n
            invariant
                j <= n == keys.len(),
                all@.len() == n,
                forall|k: int| 0 <= k < n ==> (#[trigger] all@[k])@ == keys[k],
                self@ == before.saves_timed(keys.take(j as int), now_ms),
            decreases n - j,
        {
            assert(keys.take(j + 1).drop_last() =~= keys.take(j as int));
            let session_id = all[j].clone();
            let due = match self.save_deadlines.get(&session_id) {
                Some(at) => *at <= now_ms,
                None => false,
            };
            if due {
                let _ = self.save_deadlines.remove(&session_id);
                self.act(ManagerAction::SaveDraft { session_id });
            }
            j += 1;
        }
        assert(keys.take(j as int) =~= keys);
    }

    /// Lets all processes fail that have not answered their first question in time.
    pub fn expire_startups(&mut self, now_ms: u64, now_unix_ms: u64)
        ensures
            startups_expired(old(self)@, final(self)@, now_ms, now_unix_ms),
    {
        let ids = all_keys(&self.startups);
        self.time_runs(DeadlineKind::Startup, &ids, now_ms, now_unix_ms);
    }

    /// Has all Stops go on by force that are not done in time.
    pub fn expire_stops(&mut self, now_ms: u64, now_unix_ms: u64)
        ensures
            stops_expired(old(self)@, final(self)@, now_ms, now_unix_ms),
    {
        let ids = all_keys(&self.stops);
        self.time_runs(DeadlineKind::Stop, &ids, now_ms, now_unix_ms);
    }

    fn refuse_dialogs(&mut self, run_id: RunId, ids: &Vec<String>)
        ensures
            final(self)@ == old(self)@.dialogs_refused(run_id, ids@),
    {
        let ghost before = self@;
        let mut i: usize = 0;
        assert(ids@.take(0) =~= Seq::<String>::empty());
        while i < ids.len()
            invariant
                i <= ids@.len(),
                self@ == before.dialogs_refused(run_id, ids@.take(i as int)),
            decreases ids@.len() - i,
        {
            assert(ids@.take(i + 1).drop_last() =~= ids@.take(i as int));
            self.answer_waiter(
                run_id,
                ids[i].as_str(),
                true,
                ManagerReply::Refused("extension dialog timed out in Pi".to_owned()),
            );
            i += 1;
        }
        assert(ids@.take(i as int) =~= ids@);
    }

    /// Gives up the questions of a run whose time has run out in Pi.
    pub fn expire_dialogs(&mut self, run_id: RunId, now_ms: u64, now_unix_ms: u64)
        ensures
            dialogs_expired(old(self)@, final(self)@, run_id, now_ms, now_unix_ms),
    {
        let ghost before = self@;
        let mut controller = match self.controllers.by_run.remove(&run_id) {
            Some(controller) => controller,
            None => {
                assert(self.controllers.by_run@ =~= before.controllers);
                assert(self@ == before.dialogs_timed(run_id, Seq::empty(), now_unix_ms));
                return;
            },
        };
        let ghost start = controller@;
        let result = controller.expire_extension_dialogs(now_ms, &mut self.store, now_unix_ms);
        let ghost ids = choose|ids: Seq<String>|
            #![trigger start.dialogs_answered(ids, before.store, now_unix_ms)]
            {
                let step = start.dialogs_answered(ids, before.store, now_unix_ms);
                &&& lists_expired(start, ids, now_ms)
                &&& controller@ == step.controller
                &&& self.store@ == step.store
                &&& match step.result {
                    Ok(_) => result is Ok && result->Ok_0@ == ids,
                    Err(error) => result is Err && result->Err_0@ == error,
                }
            };
        let ghost step = start.dialogs_answered(ids, before.store, now_unix_ms);
        self.controllers.by_run.insert(run_id, controller);
        assert(self.controllers.by_run@ =~= before.controllers.insert(run_id, step.controller));
        assert(self@ == before.controlled(run_id, step.controller, step.store));
        match result {
            Ok(expired) => {
                if expired.len() > 0 {
                    self.refuse_dialogs(run_id, &expired);
                    self.notify(run_id, UiNotice::ExtensionDialogsChanged);
                    self.notify_state(run_id);
                }
            },
            Err(error) => {
                let detail = error.message();
                self.begin_transport_failure(
                    run_id,
                    RunFailureKind::Protocol,
                    detail.as_str(),
                    now_unix_ms,
                );
            },
        }
        assert(self@ == before.dialogs_timed(run_id, ids, now_unix_ms));
    }

    /// The runs that have questions which Pi has given up.
    pub fn runs_with_expired_dialogs(&self, now_ms: u64) -> (r: Vec<RunId>)
        ensures
            lists_late_runs(self@, r@, now_ms),
    {
        let keys = all_keys(&self.controllers.by_run);
        let ghost controllers = self.controllers.by_run@;
        let mut r: Vec<RunId> = Vec::new();
        let mut i: usize = 0;
        while i < keys.len()
            invariant
                i <= keys@.len(),
                controllers == self.controllers.by_run@,
                strictly_ordered::<RunId>(keys@),
                strictly_ordered::<RunId>(r@),
                forall|k: int| 0 <= k < keys@.len() ==> controllers.contains_key(
                    #[trigger] keys@[k],
                ),
                forall|k: int|
                    0 <= k < r@.len() ==> controllers.contains_key(#[trigger] r@[k])
                        && has_late_dialog(controllers[r@[k]], now_ms) && (i < keys@.len()
                        ==> RunId::before(r@[k], keys@[i as int])),
                forall|k: int|
                    0 <= k < i && has_late_dialog(controllers[keys@[k]], now_ms) ==> r@.contains(
                        #[trigger] keys@[k],
                    ),
            decreases keys@.len() - i,
        {
            let id: RunId = keys[i];
            assert(i + 1 < keys@.len() ==> RunId::before(keys@[i as int], keys@[i + 1]));
            let due = match self.controllers.by_run.get(&id) {
                Some(controller) => has_late(controller, now_ms),
                None => false,
            };
            let ghost before = r@;
            if due {
                r.push(id);
            }
            proof {
                assert forall|k: int|
                    0 <= k < i + 1 && has_late_dialog(
                        controllers[keys@[k]],
                        now_ms,
                    ) implies r@.contains(#[trigger] keys@[k]) by {
                    if k < i {
                        let m = before.index_of(keys@[k]);
                        assert(r@[m] == keys@[k]);
                    } else {
                        assert(r@[before.len() as int] == id);
                    }
                }
            }
            i += 1;
        }
        proof {
            assert(self@.controllers == controllers);
            assert forall|id: RunId| #[trigger]
                controllers.contains_key(id) && has_late_dialog(
                    controllers[id],
                    now_ms,
                ) implies r@.contains(id) by {
                let k = keys@.index_of(id);
                assert(keys@[k] == id);
            }
        }
        r
    }

    /// Does everything that is due, one kind after the other.
    pub fn handle_deadlines(&mut self, now_ms: u64, now_unix_ms: u64)
        ensures
            exists|a: ManagerView, b: ManagerView, c: ManagerView, d: ManagerView, runs: Seq<RunId>|
                {
                    &&& #[trigger] replacements_expired(old(self)@, a, now_ms)
                    &&& #[trigger] saves_started(a, b, now_ms)
                    &&& #[trigger] startups_expired(b, c, now_ms, now_unix_ms)
                    &&& #[trigger] stops_expired(c, d, now_ms, now_unix_ms)
                    &&& lists_late_runs(d, runs, now_ms)
                    &&& #[trigger] all_dialogs_expired(d, final(self)@, runs, now_ms, now_unix_ms)
                },
    {
        let ghost start = self@;
        self.expire_replacements(now_ms);
        let ghost a = self@;
        self.start_due_saves(now_ms);
        let ghost b = self@;
        self.expire_startups(now_ms, now_unix_ms);
        let ghost c = self@;
        self.expire_stops(now_ms, now_unix_ms);
        let ghost d = self@;
        let runs = self.runs_with_expired_dialogs(now_ms);
        let mut i: usize = 0;
        assert(runs@.take(0) =~= Seq::<RunId>::empty());
        while i < runs.len()
            invariant
                i <= runs@.len(),
                all_dialogs_expired(d, self@, runs@.take(i as int), now_ms, now_unix_ms),
            decreases runs@.len() - i,
        {
            let id: RunId = runs[i];
            let ghost middle = self@;
            assert(runs@.take(i + 1).drop_last() =~= runs@.take(i as int));
            assert(runs@.take(i + 1).last() == id);
            self.expire_dialogs(id, now_ms, now_unix_ms);
            assert(dialogs_expired(middle, self@, runs@.take(i + 1).last(), now_ms, now_unix_ms));
            i += 1;
        }
        assert(runs@.take(i as int) =~= runs@);
        assert(replacements_expired(start, a, now_ms));
        assert(saves_started(a, b, now_ms));
        assert(startups_expired(b, c, now_ms, now_unix_ms));
        assert(stops_expired(c, d, now_ms, now_unix_ms));
    }
}

} // verus!
