//! The steps that all other steps of the manager are made of.
use vstd::prelude::*;
use vstd::string::*;

use crate::ids::{id_digits, id_text, RequestId, RunId};
use crate::keyed::OrderedKey;
use crate::rpc::RpcRequest;
use crate::runtime::manager::actions::{
    ActionView, ManagerAction, ManagerReply, NoticeView, ReplyView, UiNotice,
};
use crate::runtime::manager::{
    action_views, waiter_views, FailureView, ManagerView, PendingFailure, RuntimeManager, Waiter,
    WaiterView,
};
use crate::runtime::process_actor::CommandRoom;
use crate::runtime::state::{ProcessState, RunFailureKind, RunMutation, RuntimeStoreView};

verus! {

/// `run <run><suffix>`.
pub open spec fn of_run(run_id: RunId, suffix: Seq<char>) -> Seq<char> {
    "run "@ + id_digits(run_id.value) + suffix
}

/// Writes `run <run><suffix>`.
pub fn run_text(run_id: RunId, suffix: &str) -> (r: String)
    ensures
        r@ == of_run(run_id, suffix@),
{
    let mut r = "run ".to_owned();
    r.append(id_text(run_id.value).as_str());
    r.append(suffix);
    r
}

/// The answers to all who wait for something of a run: it does not come any more.
pub open spec fn rejections(waiters: Seq<WaiterView>, run_id: RunId, detail: Seq<char>) -> Seq<
    ActionView,
>
    decreases waiters.len(),
{
    if waiters.len() == 0 {
        Seq::empty()
    } else {
        let before = rejections(waiters.drop_last(), run_id, detail);
        if waiters.last().run_id == run_id {
            before.push(
                ActionView::Reply {
                    ticket: waiters.last().ticket,
                    reply: ReplyView::Refused(detail),
                },
            )
        } else {
            before
        }
    }
}

/// Those who wait for other runs.
pub open spec fn waiters_of_others(waiters: Seq<WaiterView>, run_id: RunId) -> Seq<WaiterView>
    decreases waiters.len(),
{
    if waiters.len() == 0 {
        Seq::empty()
    } else {
        let before = waiters_of_others(waiters.drop_last(), run_id);
        if waiters.last().run_id == run_id {
            before
        } else {
            before.push(waiters.last())
        }
    }
}

/// Whether this is who waits for that answer.
pub open spec fn waits_for(
    waiter: WaiterView,
    run_id: RunId,
    request_id: Seq<char>,
    extension: bool,
) -> bool {
    waiter.run_id == run_id && waiter.request_id == request_id && waiter.extension == extension
}

/// The position of who waits for an answer.
pub open spec fn waiter_at(
    waiters: Seq<WaiterView>,
    run_id: RunId,
    request_id: Seq<char>,
    extension: bool,
) -> Option<int>
    decreases waiters.len(),
{
    if waiters.len() == 0 {
        None
    } else if waits_for(waiters.last(), run_id, request_id, extension) {
        Some(waiters.len() - 1)
    } else {
        waiter_at(waiters.drop_last(), run_id, request_id, extension)
    }
}

/// A store after the process of a run was told to stop, where it can be.
pub open spec fn stopping(
    store: RuntimeStoreView,
    run_id: RunId,
    now_unix_ms: u64,
) -> RuntimeStoreView {
    if store.refusal(run_id, RunMutation::BeginStop) is None {
        store.applied(run_id, RunMutation::BeginStop, now_unix_ms)
    } else {
        store
    }
}

impl ManagerView {
    pub open spec fn with_action(self, action: ActionView) -> Self {
        ManagerView { outbox: self.outbox.push(action), ..self }
    }

    pub open spec fn answered(self, ticket: u64, reply: ReplyView) -> Self {
        self.with_action(ActionView::Reply { ticket, reply })
    }

    pub open spec fn refused(self, ticket: u64, detail: Seq<char>) -> Self {
        self.answered(ticket, ReplyView::Refused(detail))
    }

    /// With a notice for the renderer of a run, where the run has one.
    pub open spec fn notified(self, run_id: RunId, notice: NoticeView) -> Self {
        if self.renderers.contains_key(run_id) {
            self.with_action(ActionView::Notify { run_id, notice })
        } else {
            self
        }
    }

    pub open spec fn state_notified(self, run_id: RunId) -> Self {
        self.notified(
            run_id,
            NoticeView::StateChanged { runtime_revision: self.store.revision },
        )
    }

    /// Writes a request to a process. It is registered first; where the queue of
    /// the process is full or closed, that is taken back.
    pub open spec fn sent(self, run_id: RunId, request: RpcRequest) -> (
        Self,
        Result<(), Seq<char>>,
    ) {
        if !self.controllers.contains_key(run_id) {
            (self, Err(of_run(run_id, " has no RPC controller"@)))
        } else {
            let controller = self.controllers[run_id];
            match controller.request_refusal(request) {
                Some(error) => (self, Err(error.text())),
                None => {
                    let registered = controller.with_request(request, None);
                    let begun = ManagerView {
                        controllers: self.controllers.insert(run_id, registered),
                        ..self
                    };
                    if !self.processes.contains_key(run_id) {
                        (begun, Err(of_run(run_id, " has no live process"@)))
                    } else {
                        match self.processes[run_id].refusal() {
                            Some(error) => (
                                ManagerView {
                                    controllers: self.controllers.insert(
                                        run_id,
                                        registered.without_request(request.id@),
                                    ),
                                    ..self
                                },
                                Err(error.text()),
                            ),
                            None => (
                                ManagerView {
                                    processes: self.processes.insert(
                                        run_id,
                                        self.processes[run_id].after_one(),
                                    ),
                                    ..begun
                                }.with_action(ActionView::SendRequest { run_id, request }),
                                Ok(()),
                            ),
                        }
                    }
                },
            }
        }
    }

    /// Nobody waits any more for a replacement of the session of a run.
    pub open spec fn replacement_failed(self, run_id: RunId, detail: Seq<char>) -> Self {
        if self.replacements.contains_key(run_id) {
            ManagerView {
                replacements: self.replacements.remove(run_id),
                ..self
            }.refused(self.replacements[run_id].ticket, detail)
        } else {
            self
        }
    }

    /// The draft that was sent from a run will not be answered; where a request is
    /// named, only if it is that one.
    pub open spec fn submission_failed(
        self,
        run_id: RunId,
        request_id: Option<Seq<char>>,
        detail: Seq<char>,
    ) -> Self {
        if self.submissions.contains_key(run_id) && (request_id is None || request_id->0
            == self.submissions[run_id].request_id) {
            ManagerView {
                submissions: self.submissions.remove(run_id),
                ..self
            }.refused(self.submissions[run_id].ticket, detail).notified(
                run_id,
                NoticeView::ComposerChanged,
            )
        } else {
            self
        }
    }

    /// Nobody waits any more for anything of a run.
    pub open spec fn waiters_failed(self, run_id: RunId, detail: Seq<char>) -> Self {
        ManagerView {
            waiters: waiters_of_others(self.waiters, run_id),
            outbox: self.outbox + rejections(self.waiters, run_id, detail),
            ..self
        }.replacement_failed(run_id, detail).submission_failed(run_id, None, detail)
    }

    /// The transport of a run failed: its process is terminated, and the failure is
    /// kept until it has ended.
    pub open spec fn transport_failed(
        self,
        run_id: RunId,
        kind: RunFailureKind,
        detail: Seq<char>,
        now_unix_ms: u64,
    ) -> Self {
        let unstarted = ManagerView { startups: self.startups.remove(run_id), ..self };
        if !self.store.runs.contains_key(run_id)
            || self.store.runs[run_id].process.terminal() {
            unstarted
        } else {
            let failed = ManagerView {
                failures: self.failures.insert(run_id, FailureView { kind, detail }),
                store: if self.store.runs[run_id].process.running() {
                    stopping(self.store, run_id, now_unix_ms)
                } else {
                    self.store
                },
                controllers: if self.controllers.contains_key(run_id) {
                    self.controllers.insert(run_id, self.controllers[run_id].ended())
                } else {
                    self.controllers
                },
                ..unstarted
            }.waiters_failed(run_id, detail).state_notified(run_id);
            if self.processes.contains_key(run_id) {
                failed.with_action(
                    ActionView::Terminate {
                        run_id,
                        deadline_ms: self.limits.stop_termination_deadline_ms,
                    },
                )
            } else {
                failed
            }
        }
    }
}

/// The model of a result that may tell what went wrong.
pub open spec fn told(r: Result<(), String>) -> Result<(), Seq<char>> {
    match r {
        Ok(_) => Ok(()),
        Err(detail) => Err(detail@),
    }
}

impl RuntimeManager {
    /// Takes what is to be done, in order.
    pub fn take_actions(&mut self) -> (r: Vec<ManagerAction>)
        ensures
            action_views(r@) == old(self)@.outbox,
            final(self)@ == (ManagerView { outbox: Seq::empty(), ..old(self)@ }),
    {
        let mut actions: Vec<ManagerAction> = Vec::new();
        assert(action_views(actions@) =~= Seq::<ActionView>::empty());
        core::mem::swap(&mut actions, &mut self.outbox);
        actions
    }

    /// Takes note of what the queue of a process can take at the moment.
    pub fn observe_room(&mut self, run_id: RunId, room: CommandRoom)
        ensures
            final(self)@ == (if old(self)@.processes.contains_key(run_id) {
                ManagerView {
                    processes: old(self)@.processes.insert(run_id, room),
                    ..old(self)@
                }
            } else {
                old(self)@
            }),
    {
        if self.processes.contains_key(&run_id) {
            self.processes.insert(run_id, room);
        }
    }

    pub(crate) fn act(&mut self, action: ManagerAction)
        ensures
            final(self)@ == old(self)@.with_action(action@),
    {
        let ghost before = action_views(self.outbox@);
        let ghost added = action@;
        self.outbox.push(action);
        assert(action_views(self.outbox@) =~= before.push(added));
    }

    pub(crate) fn answer(&mut self, ticket: u64, reply: ManagerReply)
        ensures
            final(self)@ == old(self)@.answered(ticket, reply@),
    {
        self.act(ManagerAction::Reply { ticket, reply });
    }

    pub(crate) fn refuse(&mut self, ticket: u64, detail: &str)
        ensures
            final(self)@ == old(self)@.refused(ticket, detail@),
    {
        self.answer(ticket, ManagerReply::Refused(detail.to_owned()));
    }

    pub(crate) fn notify(&mut self, run_id: RunId, notice: UiNotice)
        ensures
            final(self)@ == old(self)@.notified(run_id, notice@),
    {
        if self.renderers.contains_key(&run_id) {
            self.act(ManagerAction::Notify { run_id, notice });
        }
    }

    pub(crate) fn notify_state(&mut self, run_id: RunId)
        ensures
            final(self)@ == old(self)@.state_notified(run_id),
    {
        let runtime_revision: u64 = self.store.revision();
        self.notify(run_id, UiNotice::StateChanged { runtime_revision });
    }

    pub(crate) fn send_request(&mut self, run_id: RunId, request: RpcRequest) -> (r: Result<
        (),
        String,
    >)
        ensures
            (final(self)@, told(r)) == old(self)@.sent(run_id, request),
    {
        let ghost before = self@;
        let mut controller = match self.controllers.by_run.remove(&run_id) {
            Some(controller) => controller,
            None => {
                assert(self.controllers.by_run@ =~= before.controllers);
                return Err(run_text(run_id, " has no RPC controller"));
            },
        };
        match controller.begin_request(&request, None) {
            Err(error) => {
                self.controllers.by_run.insert(run_id, controller);
                assert(self.controllers.by_run@ =~= before.controllers);
                return Err(error.message());
            },
            Ok(_) => {},
        }
        let room = match self.processes.get(&run_id) {
            Some(room) => *room,
            None => {
                self.controllers.by_run.insert(run_id, controller);
                assert(self.controllers.by_run@ =~= before.sent(run_id, request).0.controllers);
                return Err(run_text(run_id, " has no live process"));
            },
        };
        let left = match room.take_place() {
            Ok(left) => left,
            Err(error) => {
                let _ = controller.cancel_request(&request.id);
                self.controllers.by_run.insert(run_id, controller);
                assert(self.controllers.by_run@ =~= before.sent(run_id, request).0.controllers);
                return Err(error.message());
            },
        };
        self.controllers.by_run.insert(run_id, controller);
        assert(self.controllers.by_run@ =~= before.sent(run_id, request).0.controllers);
        self.processes.insert(run_id, left);
        self.act(ManagerAction::SendRequest { run_id, request });
        Ok(())
    }

    pub(crate) fn fail_replacement(&mut self, run_id: RunId, detail: &str)
        ensures
            final(self)@ == old(self)@.replacement_failed(run_id, detail@),
    {
        let ghost before = self@;
        match self.replacements.remove(&run_id) {
            Some(pending) => {
                self.refuse(pending.ticket, detail);
            },
            None => {
                assert(self.replacements@ =~= before.replacements);
            },
        }
    }

    pub(crate) fn fail_submission(
        &mut self,
        run_id: RunId,
        request_id: Option<&RequestId>,
        detail: &str,
    )
        ensures
            final(self)@ == old(self)@.submission_failed(
                run_id,
                match request_id {
                    Some(id) => Some(id@),
                    None => None,
                },
                detail@,
            ),
    {
        let fails = match self.submissions.get(&run_id) {
            Some(submission) => match request_id {
                Some(id) => id.same(&submission.request_id),
                None => true,
            },
            None => false,
        };
        if !fails {
            return;
        }
        match self.submissions.remove(&run_id) {
            Some(submission) => {
                self.refuse(submission.ticket, detail);
                self.notify(run_id, UiNotice::ComposerChanged);
            },
            None => {},
        }
    }

    fn reject_waiters(&mut self, run_id: RunId, detail: &str)
        ensures
            final(self)@ == (ManagerView {
                waiters: waiters_of_others(old(self)@.waiters, run_id),
                outbox: old(self)@.outbox + rejections(old(self)@.waiters, run_id, detail@),
                ..old(self)@
            }),
    {
        let ghost before = self@;
        let mut all: Vec<Waiter> = Vec::new();
        core::mem::swap(&mut all, &mut self.waiters);
        let ghost list = waiter_views(all@);
        let mut kept: Vec<Waiter> = Vec::new();
        let mut i: usize = 0;
        assert(waiter_views(kept@) =~= waiters_of_others(list.take(0), run_id));
        assert(rejections(list.take(0), run_id, detail@) =~= Seq::<ActionView>::empty());
        assert(self@.outbox =~= before.outbox + rejections(list.take(0), run_id, detail@));
        while i < all.len()
            invariant
                i <= all@.len(),
                list == waiter_views(all@),
                waiter_views(kept@) == waiters_of_others(list.take(i as int), run_id),
                self@ == (ManagerView {
                    waiters: self@.waiters,
                    outbox: before.outbox + rejections(list.take(i as int), run_id, detail@),
                    ..before
                }),
            decreases all@.len() - i,
        {
            let waiter = &all[i];
            assert(list.take(i + 1).drop_last() =~= list.take(i as int));
            assert(list.take(i + 1).last() == waiter@);
            if waiter.run_id.value == run_id.value {
                self.refuse(waiter.ticket, detail);
                assert(self@.outbox =~= before.outbox + rejections(
                    list.take(i + 1),
                    run_id,
                    detail@,
                ));
            } else {
                let ghost held = waiter_views(kept@);
                kept.push(
                    Waiter {
                        run_id: waiter.run_id,
                        request_id: waiter.request_id.clone(),
                        extension: waiter.extension,
                        ticket: waiter.ticket,
                    },
                );
                assert(waiter_views(kept@) =~= held.push(list[i as int]));
            }
            i += 1;
        }
        assert(list.take(i as int) =~= list);
        self.waiters = kept;
    }

    pub(crate) fn fail_run_waiters(&mut self, run_id: RunId, detail: &str)
        ensures
            final(self)@ == old(self)@.waiters_failed(run_id, detail@),
    {
        self.reject_waiters(run_id, detail);
        self.fail_replacement(run_id, detail);
        self.fail_submission(run_id, None, detail);
    }

    pub(crate) fn tell_to_stop(&mut self, run_id: RunId, now_unix_ms: u64)
        ensures
            final(self)@ == (ManagerView {
                store: stopping(old(self)@.store, run_id, now_unix_ms),
                ..old(self)@
            }),
    {
        let _ = self.store.apply(run_id, RunMutation::BeginStop, now_unix_ms);
    }

    pub(crate) fn end_controller(&mut self, run_id: RunId)
        ensures
            final(self)@ == (ManagerView {
                controllers: if old(self)@.controllers.contains_key(run_id) {
                    old(self)@.controllers.insert(run_id, old(self)@.controllers[run_id].ended())
                } else {
                    old(self)@.controllers
                },
                ..old(self)@
            }),
    {
        let ghost before = self@;
        match self.controllers.by_run.remove(&run_id) {
            Some(mut controller) => {
                controller.process_ended();
                self.controllers.by_run.insert(run_id, controller);
                assert(self.controllers.by_run@ =~= before.controllers.insert(
                    run_id,
                    before.controllers[run_id].ended(),
                ));
            },
            None => {
                assert(self.controllers.by_run@ =~= before.controllers);
            },
        }
    }

    /// Terminates the process of a run whose transport failed.
    pub fn begin_transport_failure(
        &mut self,
        run_id: RunId,
        kind: RunFailureKind,
        detail: &str,
        now_unix_ms: u64,
    )
        ensures
            final(self)@ == old(self)@.transport_failed(run_id, kind, detail@, now_unix_ms),
    {
        let _ = self.startups.remove(&run_id);
        let process = match self.store.get(run_id) {
            Some(record) => record.process_state(),
            None => {
                return;
            },
        };
        if process.is_terminal() {
            return;
        }
        self.failures.insert(run_id, PendingFailure { kind, detail: detail.to_owned() });
        if process == ProcessState::Starting || process == ProcessState::Ready {
            self.tell_to_stop(run_id, now_unix_ms);
        }
        self.end_controller(run_id);
        self.fail_run_waiters(run_id, detail);
        self.notify_state(run_id);
        if self.processes.contains_key(&run_id) {
            let deadline_ms: u64 = self.limits.stop_termination_deadline_ms;
            self.act(ManagerAction::Terminate { run_id, deadline_ms });
        }
    }
}

} // verus!
