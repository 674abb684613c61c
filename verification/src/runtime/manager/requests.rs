//! Requests to the processes of runs.
use vstd::prelude::*;
use vstd::string::*;

use crate::draft::DraftDurability;
use crate::events::ExtensionUiResponse;
use crate::ids::{RequestId, RunId};
use crate::keyed::{strictly_ordered, KeyMap, OrderedKey};
use crate::rpc::{RpcCommand, RpcConcurrencyClass, RpcRequest};
use crate::runtime::composer::{
    calls_extension, compose_command, draft_is_extension_command, submission_command,
    submission_refusal, ComposerAction, DraftSubmission,
};
use crate::runtime::manager::actions::{
    ActionView, ManagerAction, ManagerReply, NoticeView, ReplyView, UiNotice,
};
use crate::runtime::manager::basics::{of_run, run_text, told, waiter_at};
use crate::runtime::manager::{
    waiter_views, ActiveComposerSubmission, ManagerView, PendingSessionReplacement,
    ReplacementView, RuntimeManager, SubmissionView, Waiter, WaiterView,
};
use crate::runtime::process_actor::{answered, extension_response_id, CommandRoom};
use crate::runtime::rpc_controller::{ControllerErrorView, ControllerView};
use crate::runtime::session_sync::SessionSyncView;
use crate::runtime::state::RunFailureKind;
use crate::text::{join, optional_view, same_text, sat_add_u64};

verus! {

/// The identities under which a map holds something with a property, in order.
pub open spec fn lists_where<K: OrderedKey, W>(
    ids: Seq<K::Model>,
    map: Map<K::Model, W>,
    property: spec_fn(W) -> bool,
) -> bool {
    &&& strictly_ordered::<K>(ids)
    &&& forall|i: int|
        0 <= i < ids.len() ==> map.contains_key(#[trigger] ids[i]) && property(map[ids[i]])
    &&& forall|id: K::Model| #[trigger]
        map.contains_key(id) && property(map[id]) ==> ids.contains(id)
}

/// Replacements that wait for the draft of a session.
pub open spec fn waits_for_session(session_id: Seq<char>) -> spec_fn(ReplacementView) -> bool {
    |pending: ReplacementView| pending.session_id == session_id
}

/// `session <session><suffix>`.
pub open spec fn of_session(session_id: Seq<char>, suffix: Seq<char>) -> Seq<char> {
    "session "@ + session_id + suffix
}

fn session_text(session_id: &str, suffix: &str) -> (r: String)
    ensures
        r@ == of_session(session_id@, suffix@),
{
    join(join("session ", session_id).as_str(), suffix)
}

/// What is told of a draft that could not be stored.
pub open spec fn flush_failure(error: Option<&str>) -> Seq<char> {
    match error {
        Some(detail) => detail@,
        None => "draft persistence failed before session replacement"@,
    }
}

impl ManagerView {
    /// Whether the draft that a run shows is still being read.
    pub open spec fn restore_pending(self, run_id: RunId) -> bool {
        self.sessions.contains_key(run_id) && self.loads_pending.contains_key(
            self.sessions[run_id],
        )
    }

    pub open spec fn with_waiter(self, waiter: WaiterView) -> Self {
        ManagerView { waiters: self.waiters.push(waiter), ..self }
    }

    /// Sends a request, and remembers who waits for its answer.
    pub open spec fn dispatched(self, run_id: RunId, request: RpcRequest, ticket: u64) -> Self {
        let (after, result) = self.sent(run_id, request);
        match result {
            Err(error) => after.refused(ticket, error),
            Ok(_) => after.with_waiter(
                WaiterView { run_id, request_id: request.id@, extension: false, ticket },
            ),
        }
    }

    /// A replacement of the session is asked for, and drafts are stored: the draft
    /// has to be, first.
    pub open spec fn replacement_begun(
        self,
        run_id: RunId,
        request: RpcRequest,
        ticket: u64,
        draft: Option<DraftDurability>,
        now_ms: u64,
    ) -> Self {
        if self.restore_pending(run_id) {
            self.refused(ticket, "session draft restore is still pending"@)
        } else if !self.sessions.contains_key(run_id) {
            self.refused(
                ticket,
                of_run(run_id, " has no authoritative session id for durable replacement"@),
            )
        } else {
            let session_id = self.sessions[run_id];
            match draft {
                None => self.refused(ticket, of_session(session_id, " has no draft record"@)),
                Some(DraftDurability::Saved) => self.dispatched(run_id, request, ticket),
                Some(durability) => {
                    let waiting = ManagerView {
                        replacements: self.replacements.insert(
                            run_id,
                            ReplacementView {
                                request,
                                session_id,
                                deadline_ms: sat_add_u64(
                                    now_ms,
                                    self.limits.draft_flush_deadline_ms,
                                ),
                                ticket,
                            },
                        ),
                        save_deadlines: self.save_deadlines.remove(session_id),
                        ..self
                    };
                    if durability == DraftDurability::Saving {
                        waiting
                    } else {
                        waiting.with_action(ActionView::SaveDraft { session_id })
                    }
                },
            }
        }
    }

    /// A request of a caller.
    pub open spec fn request_begun(
        self,
        run_id: RunId,
        request: RpcRequest,
        ticket: u64,
        draft: Option<DraftDurability>,
        now_ms: u64,
    ) -> Self {
        if self.replacements.contains_key(run_id) {
            self.refused(
                ticket,
                of_run(
                    run_id,
                    " is waiting for draft durability before session replacement"@,
                ),
            )
        } else if request.command.spec_kind().class() == RpcConcurrencyClass::SessionReplacement
            && self.persistence {
            self.replacement_begun(run_id, request, ticket, draft, now_ms)
        } else {
            self.dispatched(run_id, request, ticket)
        }
    }

    /// What the state of the draft means for a replacement that waits for it.
    pub open spec fn replacement_continued(
        self,
        run_id: RunId,
        session_id: Seq<char>,
        draft: Option<DraftDurability>,
        error: Option<&str>,
    ) -> Self {
        match draft {
            None => self.replacement_failed(
                run_id,
                of_session(session_id, " draft disappeared during replacement flush"@),
            ),
            Some(DraftDurability::Saved) => if self.replacements.contains_key(run_id) {
                let pending = self.replacements[run_id];
                ManagerView {
                    replacements: self.replacements.remove(run_id),
                    ..self
                }.dispatched(run_id, pending.request, pending.ticket)
            } else {
                self
            },
            Some(DraftDurability::Dirty) => self.with_action(ActionView::SaveDraft { session_id }),
            Some(DraftDurability::Saving) => self,
            Some(DraftDurability::Failed) => self.replacement_failed(
                run_id,
                flush_failure(error),
            ),
        }
    }

    /// What it means for those of these runs.
    pub open spec fn replacements_continued(
        self,
        ids: Seq<RunId>,
        session_id: Seq<char>,
        draft: Option<DraftDurability>,
        error: Option<&str>,
    ) -> Self
        decreases ids.len(),
    {
        if ids.len() == 0 {
            self
        } else {
            self.replacements_continued(
                ids.drop_last(),
                session_id,
                draft,
                error,
            ).replacement_continued(ids.last(), session_id, draft, error)
        }
    }

    /// Why the draft of a run cannot be sent at all at the moment.
    pub open spec fn composer_blocked(self, run_id: RunId) -> Option<Seq<char>> {
        if self.submissions.contains_key(run_id) {
            Some(of_run(run_id, " already has a composer submission in flight"@))
        } else if self.replacements.contains_key(run_id) {
            Some("session replacement is waiting for draft durability"@)
        } else if self.restore_pending(run_id) {
            Some("session draft restore is still pending"@)
        } else if !self.store.runs.contains_key(run_id) {
            Some(of_run(run_id, " is not registered"@))
        } else {
            None
        }
    }

    /// Why this draft of a run cannot be sent, if it cannot.
    pub open spec fn composer_refusal(
        self,
        run_id: RunId,
        action: ComposerAction,
        draft: DraftSubmission,
    ) -> Option<Seq<char>> {
        let record = self.store.runs[run_id];
        submission_refusal(
            action,
            record.availability(),
            match record.session.model {
                Some(model) => model.supports_images,
                None => None,
            },
            self.controllers.contains_key(run_id) && calls_extension(
                draft.text@,
                self.controllers[run_id].capabilities,
            ),
            draft,
        )
    }

    /// The draft of a run is sent.
    pub open spec fn submission_begun(
        self,
        run_id: RunId,
        action: ComposerAction,
        draft: Result<DraftSubmission, String>,
        ticket: u64,
        request_id: RequestId,
    ) -> Self {
        match (self.composer_blocked(run_id), draft) {
            (Some(detail), _) => self.refused(ticket, detail),
            (None, Err(detail)) => self.refused(ticket, detail@),
            (None, Ok(draft)) => match self.composer_refusal(run_id, action, draft) {
                Some(detail) => self.refused(ticket, detail),
                None => {
                    let (after, result) = self.sent(
                        run_id,
                        RpcRequest { id: request_id, command: submission_command(action, draft) },
                    );
                    match result {
                        Err(error) => after.refused(ticket, error),
                        Ok(_) => ManagerView {
                            submissions: after.submissions.insert(
                                run_id,
                                SubmissionView {
                                    request_id: request_id@,
                                    action,
                                    draft_generation: draft.generation,
                                    ticket,
                                },
                            ),
                            ..after
                        }.notified(run_id, NoticeView::ComposerChanged),
                    }
                },
            },
        }
    }

    /// The session of a run was read from disk: what comes after is asked for. A
    /// session that is followed already is left alone.
    pub open spec fn sync_bootstrapped(
        self,
        run_id: RunId,
        expected_session_id: Seq<char>,
        cursor: String,
        leaf_id: Option<Seq<char>>,
        sync_id: RequestId,
    ) -> (Self, Result<(), Seq<char>>) {
        let session_id = if self.store.runs.contains_key(run_id) {
            self.store.runs[run_id].session.session_id
        } else {
            None
        };
        if session_id is None {
            (self, Err(of_run(run_id, " has no authoritative session id"@)))
        } else if session_id->0@ != expected_session_id {
            (
                self,
                Err(
                    of_run(
                        run_id,
                        " changed Pi sessions before history synchronization could start"@,
                    ),
                ),
            )
        } else if !self.controllers.contains_key(run_id) {
            (self, Err(of_run(run_id, " has no RPC controller"@)))
        } else {
            let controller = self.controllers[run_id];
            if controller.session_sync.initialized && !controller.session_sync.resync_required {
                (self, Ok(()))
            } else {
                match controller.session_sync_request {
                    Some(active) => (
                        self,
                        Err(
                            ControllerErrorView::SessionSyncInFlight {
                                request_id: active.request_id@,
                            }.text(),
                        ),
                    ),
                    None => match SessionSyncView::seed_refusal(
                        Some(cursor@),
                        leaf_id,
                        controller.limits,
                    ) {
                        Some(error) => (
                            self,
                            Err(ControllerErrorView::SessionSync(error).text()),
                        ),
                        None => {
                            let seeded = ControllerView {
                                session_sync: controller.session_sync.seeded(
                                    Some(cursor@),
                                    leaf_id,
                                ),
                                ..controller
                            };
                            ManagerView {
                                controllers: self.controllers.insert(run_id, seeded),
                                ..self
                            }.notified(
                                run_id,
                                NoticeView::SessionSyncChanged {
                                    revision: seeded.session_sync.revision,
                                    resync_required: false,
                                },
                            ).sent(
                                run_id,
                                RpcRequest {
                                    id: sync_id,
                                    command: RpcCommand::GetEntries { since: Some(cursor) },
                                },
                            )
                        },
                    },
                }
            }
        }
    }

    /// Why an answer to the question of an extension cannot be written, if it
    /// cannot.
    pub open spec fn extension_refusal(self, run_id: RunId, id: Seq<char>) -> Option<Seq<char>> {
        if !self.controllers.contains_key(run_id) {
            Some(of_run(run_id, " has no RPC controller"@))
        } else if !self.controllers[run_id].pending_dialogs.contains_key(id) {
            Some("extension dialog "@ + id + " is not pending for "@ + of_run(run_id, ""@))
        } else if waiter_at(self.waiters, run_id, id, true) is Some {
            Some("extension dialog "@ + id + " already has a response write in flight"@)
        } else if !self.processes.contains_key(run_id) {
            Some(of_run(run_id, " has no live process"@))
        } else {
            match self.processes[run_id].refusal() {
                Some(error) => Some(error.text()),
                None => None,
            }
        }
    }

    /// An answer to the question of an extension is written.
    pub open spec fn extension_answered(
        self,
        run_id: RunId,
        response: ExtensionUiResponse,
        ticket: u64,
    ) -> Self {
        let id = answered(response)@;
        match self.extension_refusal(run_id, id) {
            Some(detail) => self.refused(ticket, detail),
            None => ManagerView {
                processes: self.processes.insert(run_id, self.processes[run_id].after_one()),
                ..self
            }.with_action(
                ActionView::SendExtensionResponse { run_id, response },
            ).with_waiter(WaiterView { run_id, request_id: id, extension: true, ticket }),
        }
    }

    /// A request could not be written to its process.
    pub open spec fn request_write_failed(
        self,
        run_id: RunId,
        request_id: RequestId,
        detail: Seq<char>,
        now_unix_ms: u64,
    ) -> Self {
        ManagerView {
            controllers: if self.controllers.contains_key(run_id) {
                self.controllers.insert(
                    run_id,
                    self.controllers[run_id].without_request(request_id@),
                )
            } else {
                self.controllers
            },
            ..self
        }.waiter_answered(
            run_id,
            request_id@,
            false,
            ReplyView::Refused(detail),
        ).submission_failed(run_id, Some(request_id@), detail).protocol_failed(
            run_id,
            "Pi RPC write failed: "@ + detail,
            now_unix_ms,
        )
    }

    /// The answer to a question of an extension was written.
    pub open spec fn extension_written(
        self,
        run_id: RunId,
        request_id: String,
        now_unix_ms: u64,
    ) -> Self {
        if !self.controllers.contains_key(run_id) {
            self.waiter_answered(
                run_id,
                request_id@,
                true,
                ReplyView::Refused(of_run(run_id, " has no RPC controller"@)),
            )
        } else {
            let step = self.controllers[run_id].dialog_answered(
                request_id,
                self.store,
                now_unix_ms,
            );
            let after = self.controlled(run_id, step.controller, step.store);
            match step.result {
                Ok(_) => after.notified(
                    run_id,
                    NoticeView::ExtensionDialogsChanged,
                ).state_notified(run_id).waiter_answered(
                    run_id,
                    request_id@,
                    true,
                    ReplyView::Done,
                ),
                Err(error) => after.waiter_answered(
                    run_id,
                    request_id@,
                    true,
                    ReplyView::Refused(error.text()),
                ),
            }
        }
    }

    /// The answer to a question of an extension could not be written.
    pub open spec fn extension_write_failed(
        self,
        run_id: RunId,
        request_id: Seq<char>,
        detail: Seq<char>,
        now_unix_ms: u64,
    ) -> Self {
        self.waiter_answered(
            run_id,
            request_id,
            true,
            ReplyView::Refused(detail),
        ).protocol_failed(run_id, "extension UI response write failed: "@ + detail, now_unix_ms)
    }
}

fn runs_waiting_for(
    replacements: &KeyMap<RunId, PendingSessionReplacement>,
    session_id: &str,
) -> (r: Vec<RunId>)
    ensures
        lists_where::<RunId, ReplacementView>(
            r@,
            replacements@,
            waits_for_session(session_id@),
        ),
{
    let n: usize = replacements.len();
    let ghost keys = replacements.key_models();
    let ghost property = waits_for_session(session_id@);
    let mut r: Vec<RunId> = Vec::new();
    let mut i: usize = 0;
    while i < n
        invariant
            i <= n == keys.len(),
            keys == replacements.key_models(),
            strictly_ordered::<RunId>(keys),
            property == waits_for_session(session_id@),
            strictly_ordered::<RunId>(r@),
            forall|k: int|
                0 <= k < r@.len() ==> replacements@.contains_key(#[trigger] r@[k]) && property(
                    replacements@[r@[k]],
                ) && (i < keys.len() ==> RunId::before(r@[k], keys[i as int])),
            forall|k: int|
                0 <= k < i && property(replacements@[keys[k]]) ==> r@.contains(
                    #[trigger] keys[k],
                ),
        decreases n - i,
    {
        let id: RunId = *replacements.key_at(i);
        assert(i + 1 < n ==> RunId::before(keys[i as int], keys[i + 1]));
        let ghost before = r@;
        if same_text(replacements.value_at(i).session_id.as_str(), session_id) {
            r.push(id);
            proof {
                assert forall|k: int|
                    0 <= k < i + 1 && property(replacements@[keys[k]]) implies r@.contains(
                    #[trigger] keys[k],
                ) by {
                    if k < i {
                        let m = before.index_of(keys[k]);
                        assert(r@[m] == keys[k]);
                    } else {
                        assert(r@[before.len() as int] == keys[k]);
                    }
                }
            }
        }
        i += 1;
    }
    proof {
        assert forall|id: RunId| #[trigger]
            replacements@.contains_key(id) && property(replacements@[id]) implies r@.contains(
            id,
        ) by {
            assert(keys.to_set().contains(id));
            let k = keys.index_of(id);
            assert(keys[k] == id);
        }
    }
    r
}

impl RuntimeManager {
    /// Whether the draft that a run shows is still being read.
    pub fn draft_restore_pending(&self, run_id: RunId) -> (r: bool)
        ensures
            r == self@.restore_pending(run_id),
    {
        match self.sessions.get(&run_id) {
            Some(session_id) => self.loads_pending.contains_key(session_id),
            None => false,
        }
    }

    fn wait(&mut self, run_id: RunId, request_id: String, extension: bool, ticket: u64)
        ensures
            final(self)@ == old(self)@.with_waiter(
                WaiterView { run_id, request_id: request_id@, extension, ticket },
            ),
    {
        let ghost before = waiter_views(self.waiters@);
        let ghost added = WaiterView { run_id, request_id: request_id@, extension, ticket };
        self.waiters.push(Waiter { run_id, request_id, extension, ticket });
        assert(waiter_views(self.waiters@) =~= before.push(added));
    }

    fn dispatch(&mut self, run_id: RunId, request: RpcRequest, ticket: u64)
        ensures
            final(self)@ == old(self)@.dispatched(run_id, request, ticket),
    {
        let request_id = request.id.as_str().to_owned();
        match self.send_request(run_id, request) {
            Err(error) => {
                self.refuse(ticket, error.as_str());
            },
            Ok(_) => {
                self.wait(run_id, request_id, false, ticket);
            },
        }
    }

    fn begin_replacement(
        &mut self,
        run_id: RunId,
        request: RpcRequest,
        ticket: u64,
        draft: Option<DraftDurability>,
        now_ms: u64,
    )
        ensures
            final(self)@ == old(self)@.replacement_begun(run_id, request, ticket, draft, now_ms),
    {
        if self.draft_restore_pending(run_id) {
            self.refuse(ticket, "session draft restore is still pending");
            return;
        }
        let session_id = match self.sessions.get(&run_id) {
            Some(session_id) => session_id.clone(),
            None => {
                let detail = run_text(
                    run_id,
                    " has no authoritative session id for durable replacement",
                );
                self.refuse(ticket, detail.as_str());
                return;
            },
        };
        let durability = match draft {
            Some(durability) => durability,
            None => {
                let detail = session_text(session_id.as_str(), " has no draft record");
                self.refuse(ticket, detail.as_str());
                return;
            },
        };
        if durability == DraftDurability::Saved {
            self.dispatch(run_id, request, ticket);
            return;
        }
        let deadline_ms: u64 = now_ms.saturating_add(self.limits.draft_flush_deadline_ms);
        self.replacements.insert(
            run_id,
            PendingSessionReplacement {
                request,
                session_id: session_id.clone(),
                deadline_ms,
                ticket,
            },
        );
        let _ = self.save_deadlines.remove(&session_id);
        if durability != DraftDurability::Saving {
            self.act(ManagerAction::SaveDraft { session_id });
        }
    }

    /// Begins a request of a caller, who is answered once Pi has. A request that
    /// replaces the session waits until the draft is stored; `draft` says how it
    /// stands with the draft of the session, where there is one.
    pub fn begin_managed_request(
        &mut self,
        run_id: RunId,
        request: RpcRequest,
        ticket: u64,
        draft: Option<DraftDurability>,
        now_ms: u64,
    )
        ensures
            final(self)@ == old(self)@.request_begun(run_id, request, ticket, draft, now_ms),
    {
        if self.replacements.contains_key(&run_id) {
            let detail = run_text(
                run_id,
                " is waiting for draft durability before session replacement",
            );
            self.refuse(ticket, detail.as_str());
            return;
        }
        if request.command.kind().concurrency_class() == RpcConcurrencyClass::SessionReplacement
            && self.persistence {
            self.begin_replacement(run_id, request, ticket, draft, now_ms);
        } else {
            self.dispatch(run_id, request, ticket);
        }
    }

    fn continue_replacement(
        &mut self,
        run_id: RunId,
        session_id: &str,
        draft: Option<DraftDurability>,
        error: Option<&str>,
    )
        ensures
            final(self)@ == old(self)@.replacement_continued(run_id, session_id@, draft, error),
    {
        let ghost before = self@;
        match draft {
            None => {
                let detail = session_text(
                    session_id,
                    " draft disappeared during replacement flush",
                );
                self.fail_replacement(run_id, detail.as_str());
            },
            Some(DraftDurability::Saved) => match self.replacements.remove(&run_id) {
                Some(pending) => {
                    let PendingSessionReplacement { request, ticket, .. } = pending;
                    self.dispatch(run_id, request, ticket);
                },
                None => {
                    assert(self.replacements@ =~= before.replacements);
                },
            },
            Some(DraftDurability::Dirty) => {
                self.act(ManagerAction::SaveDraft { session_id: session_id.to_owned() });
            },
            Some(DraftDurability::Saving) => {},
            Some(DraftDurability::Failed) => {
                let detail = match error {
                    Some(detail) => detail,
                    None => "draft persistence failed before session replacement",
                };
                self.fail_replacement(run_id, detail);
            },
        }
    }

    /// Goes on with the replacements that wait for the draft of a session. `draft`
    /// says how it stands with that draft, where there is one, and `error` why it
    /// could not be stored.
    pub fn continue_pending_session_replacements(
        &mut self,
        session_id: &str,
        draft: Option<DraftDurability>,
        error: Option<&str>,
    )
        ensures
            exists|ids: Seq<RunId>|
                lists_where::<RunId, ReplacementView>(
                    ids,
                    old(self)@.replacements,
                    waits_for_session(session_id@),
                ) && final(self)@ == #[trigger] old(self)@.replacements_continued(
                    ids,
                    session_id@,
                    draft,
                    error,
                ),
    {
        let ghost before = self@;
        let ids = runs_waiting_for(&self.replacements, session_id);
        let mut i: usize = 0;
        assert(ids@.take(0) =~= Seq::<RunId>::empty());
        while i < ids.len()
            invariant
                i <= ids@.len(),
                self@ == before.replacements_continued(
                    ids@.take(i as int),
                    session_id@,
                    draft,
                    error,
                ),
            decreases ids@.len() - i,
        {
            assert(ids@.take(i + 1).drop_last() =~= ids@.take(i as int));
            let id: RunId = ids[i];
            self.continue_replacement(id, session_id, draft, error);
            i += 1;
        }
        assert(ids@.take(i as int) =~= ids@);
    }

    fn blocked(&self, run_id: RunId) -> (r: Option<String>)
        ensures
            optional_view(r) == self@.composer_blocked(run_id),
    {
        if self.submissions.contains_key(&run_id) {
            Some(run_text(run_id, " already has a composer submission in flight"))
        } else if self.replacements.contains_key(&run_id) {
            Some("session replacement is waiting for draft durability".to_owned())
        } else if self.draft_restore_pending(run_id) {
            Some("session draft restore is still pending".to_owned())
        } else if self.store.get(run_id).is_none() {
            Some(run_text(run_id, " is not registered"))
        } else {
            None
        }
    }

    fn compose(&self, run_id: RunId, action: ComposerAction, draft: DraftSubmission) -> (r: Result<
        RpcCommand,
        String,
    >)
        requires
            self@.store.runs.contains_key(run_id),
        ensures
            match self@.composer_refusal(run_id, action, draft) {
                Some(text) => r is Err && r->Err_0@ == text,
                None => r == Ok::<RpcCommand, String>(submission_command(action, draft)),
            },
    {
        let is_extension_command = match self.controllers.by_run.get(&run_id) {
            Some(controller) => draft_is_extension_command(
                draft.text.as_str(),
                controller.capabilities(),
            ),
            None => false,
        };
        match self.store.get(run_id) {
            Some(record) => {
                let supports_images = match &record.session_state().model {
                    Some(model) => model.supports_images,
                    None => None,
                };
                compose_command(
                    action,
                    record.composer_availability(),
                    supports_images,
                    is_extension_command,
                    draft,
                )
            },
            None => Err(String::new()),
        }
    }

    /// Sends the draft of a run, under `request_id`. `draft` is what it holds, or
    /// why it cannot be read.
    pub fn begin_composer_submission(
        &mut self,
        run_id: RunId,
        action: ComposerAction,
        draft: Result<DraftSubmission, String>,
        ticket: u64,
        request_id: RequestId,
    )
        ensures
            final(self)@ == old(self)@.submission_begun(
                run_id,
                action,
                draft,
                ticket,
                request_id,
            ),
    {
        match self.blocked(run_id) {
            Some(detail) => {
                self.refuse(ticket, detail.as_str());
                return;
            },
            None => {},
        }
        let draft = match draft {
            Ok(draft) => draft,
            Err(detail) => {
                self.refuse(ticket, detail.as_str());
                return;
            },
        };
        let draft_generation: u64 = draft.generation;
        match self.compose(run_id, action, draft) {
            Err(detail) => {
                self.refuse(ticket, detail.as_str());
            },
            Ok(command) => {
                let kept_id = request_id.clone();
                match self.send_request(run_id, RpcRequest::with_id(request_id, command)) {
                    Err(error) => {
                        self.refuse(ticket, error.as_str());
                    },
                    Ok(_) => {
                        self.submissions.insert(
                            run_id,
                            ActiveComposerSubmission {
                                request_id: kept_id,
                                action,
                                draft_generation,
                                ticket,
                            },
                        );
                        self.notify(run_id, UiNotice::ComposerChanged);
                    },
                }
            },
        }
    }

    /// Starts to follow a session that was read from disk, unless it is followed
    /// already: what came after `cursor` is asked for under `sync_id`.
    pub fn bootstrap_session_sync(
        &mut self,
        run_id: RunId,
        expected_session_id: &str,
        cursor: String,
        leaf_id: Option<String>,
        sync_id: RequestId,
    ) -> (r: Result<(), String>)
        ensures
            (final(self)@, told(r)) == old(self)@.sync_bootstrapped(
                run_id,
                expected_session_id@,
                cursor,
                optional_view(leaf_id),
                sync_id,
            ),
    {
        let ghost before = self@;
        match self.store.get(run_id) {
            Some(record) => match &record.session_state().session_id {
                Some(session_id) => {
                    if !same_text(session_id.as_str(), expected_session_id) {
                        return Err(
                            run_text(
                                run_id,
                                " changed Pi sessions before history synchronization could start",
                            ),
                        );
                    }
                },
                None => {
                    return Err(run_text(run_id, " has no authoritative session id"));
                },
            },
            None => {
                return Err(run_text(run_id, " has no authoritative session id"));
            },
        }
        let mut controller = match self.controllers.by_run.remove(&run_id) {
            Some(controller) => controller,
            None => {
                assert(self.controllers.by_run@ =~= before.controllers);
                return Err(run_text(run_id, " has no RPC controller"));
            },
        };
        let followed = {
            let sync = controller.session_sync_state();
            sync.initialized() && !sync.resync_required()
        };
        if followed {
            self.controllers.by_run.insert(run_id, controller);
            assert(self.controllers.by_run@ =~= before.controllers);
            return Ok(());
        }
        match controller.seed_session_sync(Some(cursor.clone()), leaf_id) {
            Err(error) => {
                self.controllers.by_run.insert(run_id, controller);
                assert(self.controllers.by_run@ =~= before.controllers);
                return Err(error.message());
            },
            Ok(_) => {},
        }
        let revision: u64 = controller.session_sync_state().revision();
        let ghost seeded = controller@;
        self.controllers.by_run.insert(run_id, controller);
        assert(self.controllers.by_run@ =~= before.controllers.insert(run_id, seeded));
        self.notify(run_id, UiNotice::SessionSyncChanged { revision, resync_required: false });
        self.send_request(
            run_id,
            RpcRequest::with_id(sync_id, RpcCommand::GetEntries { since: Some(cursor) }),
        )
    }

    fn extension_refused(&self, run_id: RunId, id: &String) -> (r: Option<String>)
        ensures
            optional_view(r) == self@.extension_refusal(run_id, id@),
    {
        match self.controllers.by_run.get(&run_id) {
            None => {
                return Some(run_text(run_id, " has no RPC controller"));
            },
            Some(controller) => {
                if !controller.has_pending_extension_dialog(id) {
                    let mut detail = join("extension dialog ", id.as_str());
                    detail.append(" is not pending for ");
                    detail.append(run_text(run_id, "").as_str());
                    return Some(detail);
                }
            },
        }
        if self.is_waited_for(run_id, id.as_str(), true) {
            let mut detail = join("extension dialog ", id.as_str());
            detail.append(" already has a response write in flight");
            return Some(detail);
        }
        match self.processes.get(&run_id) {
            None => Some(run_text(run_id, " has no live process")),
            Some(room) => match room.take_place() {
                Err(error) => Some(error.message()),
                Ok(_) => None,
            },
        }
    }

    fn is_waited_for(&self, run_id: RunId, request_id: &str, extension: bool) -> (r: bool)
        ensures
            r == (waiter_at(self@.waiters, run_id, request_id@, extension) is Some),
    {
        let ghost list = waiter_views(self.waiters@);
        let mut i: usize = self.waiters.len();
        assert(list.take(i as int) =~= list);
        while i > 0
            invariant
                i <= self.waiters@.len(),
                list == waiter_views(self.waiters@),
                waiter_at(list, run_id, request_id@, extension) == waiter_at(
                    list.take(i as int),
                    run_id,
                    request_id@,
                    extension,
                ),
            decreases i,
        {
            i -= 1;
            let ghost taken = list.take(i + 1);
            assert(taken.drop_last() =~= list.take(i as int));
            assert(taken.last() == self.waiters@[i as int]@);
            if self.waiters[i].run_id.value == run_id.value && self.waiters[i].extension
                == extension && same_text(self.waiters[i].request_id.as_str(), request_id) {
                return true;
            }
        }
        false
    }

    /// Writes an answer to the question of an extension.
    pub fn queue_extension_response(
        &mut self,
        run_id: RunId,
        response: ExtensionUiResponse,
        ticket: u64,
    )
        ensures
            final(self)@ == old(self)@.extension_answered(run_id, response, ticket),
    {
        let id = extension_response_id(&response).clone();
        match self.extension_refused(run_id, &id) {
            Some(detail) => {
                self.refuse(ticket, detail.as_str());
            },
            None => {
                let room = match self.processes.get(&run_id) {
                    Some(room) => *room,
                    None => CommandRoom::Closed,
                };
                match room.take_place() {
                    Ok(left) => {
                        self.processes.insert(run_id, left);
                    },
                    Err(_) => {},
                }
                self.act(ManagerAction::SendExtensionResponse { run_id, response });
                self.wait(run_id, id, true, ticket);
            },
        }
    }

    pub(crate) fn on_request_write_failed(
        &mut self,
        run_id: RunId,
        request_id: RequestId,
        detail: &str,
        now_unix_ms: u64,
    )
        ensures
            final(self)@ == old(self)@.request_write_failed(
                run_id,
                request_id,
                detail@,
                now_unix_ms,
            ),
    {
        let ghost before = self@;
        match self.controllers.by_run.remove(&run_id) {
            Some(mut controller) => {
                let _ = controller.cancel_request(&request_id);
                self.controllers.by_run.insert(run_id, controller);
                assert(self.controllers.by_run@ =~= before.controllers.insert(
                    run_id,
                    before.controllers[run_id].without_request(request_id@),
                ));
            },
            None => {
                assert(self.controllers.by_run@ =~= before.controllers);
            },
        }
        self.answer_waiter(
            run_id,
            request_id.as_str(),
            false,
            ManagerReply::Refused(detail.to_owned()),
        );
        self.fail_submission(run_id, Some(&request_id), detail);
        let failure = join("Pi RPC write failed: ", detail);
        self.begin_transport_failure(
            run_id,
            RunFailureKind::Protocol,
            failure.as_str(),
            now_unix_ms,
        );
    }

    pub(crate) fn on_extension_written(
        &mut self,
        run_id: RunId,
        request_id: String,
        now_unix_ms: u64,
    )
        ensures
            final(self)@ == old(self)@.extension_written(run_id, request_id, now_unix_ms),
    {
        let ghost before = self@;
        let mut controller = match self.controllers.by_run.remove(&run_id) {
            Some(controller) => controller,
            None => {
                assert(self.controllers.by_run@ =~= before.controllers);
                let detail = run_text(run_id, " has no RPC controller");
                self.answer_waiter(
                    run_id,
                    request_id.as_str(),
                    true,
                    ManagerReply::Refused(detail),
                );
                return;
            },
        };
        let ghost step = controller@.dialog_answered(request_id, before.store, now_unix_ms);
        let result = controller.complete_extension_ui_response(
            &request_id,
            &mut self.store,
            now_unix_ms,
        );
        self.controllers.by_run.insert(run_id, controller);
        assert(self.controllers.by_run@ =~= before.controllers.insert(run_id, step.controller));
        assert(self@ == before.controlled(run_id, step.controller, step.store));
        match result {
            Ok(_) => {
                self.notify(run_id, UiNotice::ExtensionDialogsChanged);
                self.notify_state(run_id);
                self.answer_waiter(run_id, request_id.as_str(), true, ManagerReply::Done);
            },
            Err(error) => {
                self.answer_waiter(
                    run_id,
                    request_id.as_str(),
                    true,
                    ManagerReply::Refused(error.message()),
                );
            },
        }
    }

    pub(crate) fn on_extension_write_failed(
        &mut self,
        run_id: RunId,
        request_id: &str,
        detail: &str,
        now_unix_ms: u64,
    )
        ensures
            final(self)@ == old(self)@.extension_write_failed(
                run_id,
                request_id@,
                detail@,
                now_unix_ms,
            ),
    {
        self.answer_waiter(run_id, request_id, true, ManagerReply::Refused(detail.to_owned()));
        let failure = join("extension UI response write failed: ", detail);
        self.begin_transport_failure(
            run_id,
            RunFailureKind::Protocol,
            failure.as_str(),
            now_unix_ms,
        );
    }
}

} // verus!
