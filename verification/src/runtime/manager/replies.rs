//! What the answers and events of a process lead to.
use vstd::prelude::*;
use vstd::string::*;

use crate::draft::{DraftClearing, DraftDurability};
use crate::events::RpcEvent;
use crate::ids::{RequestId, RunId};
use crate::rpc::{
    RpcCommand, RpcConcurrencyClass, RpcRequest, RpcResponse, RpcResponseOutcome,
    SessionEntriesPageView,
};
use crate::runtime::composer::submit_result;
use crate::runtime::manager::actions::{
    ActionView, CompletionView, ManagedRpcCompletion, ManagerAction, ManagerReply, NoticeView,
    ReplyView, UiNotice,
};
use crate::runtime::manager::basics::{of_run, run_text, told, waiter_at};
use crate::runtime::manager::{waiter_views, ManagerView, RuntimeManager};
use crate::runtime::projection::has_block;
use crate::runtime::rpc_controller::{
    stepped, CompletedRpcRequest, CompletedRpcView, ControllerView, RunRpcEffect, RunRpcEffectView,
    SessionSyncCompletion, SessionSyncCompletionView,
};
use crate::runtime::state::{RunFailureKind, RunMutation};
use crate::text::{copy_optional, join, optional_view, same_text};

verus! {

/// The page that an answer brought, if it brought one.
pub open spec fn page_of(sync: Option<SessionSyncCompletionView>) -> Option<SessionEntriesPageView> {
    match sync {
        Some(SessionSyncCompletionView::Page { page, .. }) => Some(page),
        _ => None,
    }
}

impl ManagerView {
    /// Without who waits for an answer, and who that is.
    pub open spec fn waiter_taken(
        self,
        run_id: RunId,
        request_id: Seq<char>,
        extension: bool,
    ) -> (Self, Option<u64>) {
        match waiter_at(self.waiters, run_id, request_id, extension) {
            Some(i) => (
                ManagerView { waiters: self.waiters.remove(i), ..self },
                Some(self.waiters[i].ticket),
            ),
            None => (self, None),
        }
    }

    /// Who waits for an answer, if anyone does, gets it.
    pub open spec fn waiter_answered(
        self,
        run_id: RunId,
        request_id: Seq<char>,
        extension: bool,
        reply: ReplyView,
    ) -> Self {
        let (after, ticket) = self.waiter_taken(run_id, request_id, extension);
        match ticket {
            Some(ticket) => after.answered(ticket, reply),
            None => after,
        }
    }

    /// What an event changed is shown.
    pub open spec fn effected(self, run_id: RunId, effect: RunRpcEffectView) -> Self {
        let live = self.controllers[run_id].live;
        let known = self.controllers.contains_key(run_id);
        match effect {
            RunRpcEffectView::Nothing | RunRpcEffectView::ForwardCompatibleIgnored => self,
            RunRpcEffectView::AssistantMessageReset => self.notified(
                run_id,
                NoticeView::AssistantMessageReset,
            ),
            RunRpcEffectView::AssistantBlockUpdated { content_index } => if known && has_block(
                live.blocks,
                content_index,
            ) {
                self.notified(run_id, NoticeView::AssistantBlock { content_index })
            } else {
                self
            },
            RunRpcEffectView::ToolUpdated { tool_call_id } => if known
                && live.tools.contains_key(tool_call_id) {
                self.notified(run_id, NoticeView::Tool { tool_call_id })
            } else {
                self
            },
            RunRpcEffectView::DirectBashUpdated { request_id } => if known
                && live.direct_bash.contains_key(request_id) {
                self.notified(run_id, NoticeView::DirectBash { request_id })
            } else {
                self
            },
            RunRpcEffectView::SemanticStateChanged => self.state_notified(run_id),
            RunRpcEffectView::ToolFinished { tool_call_id, tool_name, preview, is_error } => {
                self.notified(
                    run_id,
                    NoticeView::ToolFinished {
                        tool_call_id,
                        tool_name,
                        output: preview.output.text,
                        dropped_bytes: preview.output.dropped_bytes,
                        is_error,
                    },
                )
            },
            RunRpcEffectView::ExtensionDialogRequested(_) => self.notified(
                run_id,
                NoticeView::ExtensionDialogsChanged,
            ).state_notified(run_id),
            RunRpcEffectView::ExtensionNotification { message, notify_type } => self.notified(
                run_id,
                NoticeView::ExtensionNotification { message, notify_type },
            ),
            RunRpcEffectView::ExtensionUiStateChanged => self.notified(
                run_id,
                NoticeView::ExtensionUiStateChanged,
            ),
            RunRpcEffectView::SetEditorText { text } => self.with_action(
                ActionView::SetDraft { run_id, text },
            ),
        }
    }

    /// Where the entries of a session were read up to, if new ones may be asked for
    /// now.
    pub open spec fn sync_cursor(self, run_id: RunId) -> Option<Seq<char>> {
        if self.shutdown is Some || self.stops.contains_key(run_id)
            || !self.controllers.contains_key(run_id) {
            None
        } else {
            let sync = self.controllers[run_id].session_sync;
            if sync.initialized && !sync.resync_required {
                sync.cursor
            } else {
                None
            }
        }
    }

    /// Asks for the entries that are new since they were last read; `cursor` says
    /// since when.
    pub open spec fn synced(self, run_id: RunId, sync_id: RequestId, cursor: String) -> Self {
        if self.sync_cursor(run_id) is Some {
            self.sent(
                run_id,
                RpcRequest {
                    id: sync_id,
                    command: RpcCommand::GetEntries { since: Some(cursor) },
                },
            ).0
        } else {
            self
        }
    }

    /// With the controller of a run and the runs as they are after a step.
    pub open spec fn controlled(
        self,
        run_id: RunId,
        controller: ControllerView,
        store: crate::runtime::state::RuntimeStoreView,
    ) -> Self {
        ManagerView { controllers: self.controllers.insert(run_id, controller), store, ..self }
    }

    pub open spec fn protocol_failed(self, run_id: RunId, detail: Seq<char>, now: u64) -> Self {
        self.transport_failed(run_id, RunFailureKind::Protocol, detail, now)
    }

    /// The manager once an event is shown and, where the agent has settled, its Stop
    /// knows.
    pub open spec fn event_shown(
        self,
        run_id: RunId,
        event: RpcEvent,
        now_ms: u64,
        now_unix_ms: u64,
        error_message: Option<String>,
    ) -> (Self, bool) {
        if !self.controllers.contains_key(run_id) {
            (
                self.protocol_failed(
                    run_id,
                    of_run(run_id, " has no RPC controller"@),
                    now_unix_ms,
                ),
                false,
            )
        } else {
            let step = self.controllers[run_id].event_applied(
                event,
                self.store,
                now_ms,
                now_unix_ms,
                error_message,
            );
            let after = self.controlled(run_id, step.controller, step.store);
            match step.result {
                Err(error) => (after.protocol_failed(run_id, error.text(), now_unix_ms), false),
                Ok(effect) => if event is AgentSettled {
                    (after.effected(run_id, effect).stop_settled(run_id, now_unix_ms), true)
                } else {
                    (after.effected(run_id, effect), false)
                },
            }
        }
    }

    /// An event has come. After the agent has settled, new entries are asked for.
    pub open spec fn event_handled(
        self,
        run_id: RunId,
        event: RpcEvent,
        sync_id: RequestId,
        now_ms: u64,
        now_unix_ms: u64,
        error_message: Option<String>,
        cursor: String,
    ) -> Self {
        let (shown, settled) = self.event_shown(run_id, event, now_ms, now_unix_ms, error_message);
        if settled {
            shown.synced(run_id, sync_id, cursor)
        } else {
            shown
        }
    }

    /// Whether a response answers the draft that a run has sent.
    pub open spec fn answers_submission(self, run_id: RunId, response: RpcResponse) -> bool {
        self.submissions.contains_key(run_id) && response.id is Some && response.id->0@
            == self.submissions[run_id].request_id
    }

    /// The generation of the draft that is to be cleared because Pi has taken it, if
    /// one is.
    pub open spec fn draft_to_clear(
        self,
        run_id: RunId,
        response: RpcResponse,
        outcome: RpcResponseOutcome,
    ) -> Option<u64> {
        if self.answers_submission(run_id, response) && outcome == RpcResponseOutcome::Accepted {
            Some(self.submissions[run_id].draft_generation)
        } else {
            None
        }
    }

    /// The draft that was sent is answered. If Pi took it, `cleared` is what came of
    /// clearing it; that this failed is the fault of the run, and its sender gets no
    /// answer.
    pub open spec fn submission_completed(
        self,
        run_id: RunId,
        response: RpcResponse,
        outcome: RpcResponseOutcome,
        cleared: Result<DraftClearing, String>,
        now_ms: u64,
    ) -> (Self, Result<(), Seq<char>>) {
        if self.answers_submission(run_id, response) {
            let submission = self.submissions[run_id];
            let released = ManagerView { submissions: self.submissions.remove(run_id), ..self };
            if outcome != RpcResponseOutcome::Accepted {
                (
                    released.with_action(
                        ActionView::AnswerSender {
                            ticket: submission.ticket,
                            action: submission.action,
                            accepted: false,
                            draft_cleared: false,
                            error: optional_view(response.error),
                        },
                    ).notified(run_id, NoticeView::ComposerChanged),
                    Ok(()),
                )
            } else {
                match cleared {
                    Err(error) => (
                        released.answered(submission.ticket, ReplyView::Dropped),
                        Err(error@),
                    ),
                    Ok(clearing) => (
                        (if clearing.cleared {
                            released.save_scheduled(run_id, clearing.durability, now_ms)
                        } else {
                            released
                        }).with_action(
                            ActionView::AnswerSender {
                                ticket: submission.ticket,
                                action: submission.action,
                                accepted: true,
                                draft_cleared: clearing.cleared,
                                error: None,
                            },
                        ).notified(run_id, NoticeView::ComposerChanged),
                        Ok(()),
                    ),
                }
            }
        } else {
            (self, Ok(()))
        }
    }

    /// Whether a response answers the first question to a new process.
    pub open spec fn completes_startup(self, run_id: RunId, response: RpcResponse) -> bool {
        self.startups.contains_key(run_id) && response.id is Some && response.id->0@
            == self.startups[run_id].request_id && response.command@ == "get_state"@
    }

    /// The draft of a session that was not read before is asked for.
    pub open spec fn load_queued(self, run_id: RunId) -> Self {
        if self.persistence && self.sessions.contains_key(run_id)
            && !self.loads_attempted.contains_key(self.sessions[run_id]) {
            let session_id = self.sessions[run_id];
            ManagerView {
                loads_attempted: self.loads_attempted.insert(session_id, true),
                loads_pending: self.loads_pending.insert(session_id, true),
                ..self
            }.with_action(ActionView::LoadDraft { session_id })
        } else {
            self
        }
    }

    /// The session of a run is known, and its draft is the one that the run shows;
    /// `draft` says how it stands with it.
    pub open spec fn session_bound(
        self,
        run_id: RunId,
        session_id: Seq<char>,
        draft: Option<DraftDurability>,
        now_ms: u64,
    ) -> Self {
        ManagerView {
            sessions: self.sessions.insert(run_id, session_id),
            ..self
        }.load_queued(run_id).save_scheduled(run_id, draft, now_ms)
    }

    /// Whether an answer shows the state of a process.
    pub open spec fn shows_state(response: RpcResponse, outcome: RpcResponseOutcome) -> bool {
        outcome == RpcResponseOutcome::Accepted && response.command@ == "get_state"@
    }

    /// The session that a run is known to be in.
    pub open spec fn known_session(self, run_id: RunId) -> Option<String> {
        if self.store.runs.contains_key(run_id) {
            self.store.runs[run_id].session.session_id
        } else {
            None
        }
    }

    /// The session whose draft a run is to show because of an answer, if there is one.
    pub open spec fn session_to_bind(
        self,
        run_id: RunId,
        response: RpcResponse,
        outcome: RpcResponseOutcome,
    ) -> Option<Seq<char>> {
        if Self::shows_state(response, outcome) {
            optional_view(self.known_session(run_id))
        } else {
            None
        }
    }

    /// What an answer says about the session is taken over: its identity, and that
    /// a new process is ready. Or why that cannot be. `bound` is what came of showing
    /// the draft of the session, where there is one.
    pub open spec fn state_taken(
        self,
        run_id: RunId,
        response: RpcResponse,
        outcome: RpcResponseOutcome,
        startup: bool,
        bound: Result<Option<DraftDurability>, String>,
        now_ms: u64,
        now_unix_ms: u64,
    ) -> (Self, Result<(), Seq<char>>) {
        let observed = Self::shows_state(response, outcome);
        if observed && self.known_session(run_id) is None {
            (self, Err(of_run(run_id, " get_state did not establish a session id"@)))
        } else if observed && bound is Err {
            (self, Err(bound->Err_0@))
        } else {
            let shown = if observed {
                self.session_bound(run_id, self.known_session(run_id)->0@, bound->Ok_0, now_ms)
            } else {
                self
            };
            if !startup {
                (shown, Ok(()))
            } else {
                match shown.store.refusal(run_id, RunMutation::ProcessReady) {
                    Some(error) => (shown, Err(error.text())),
                    None => (
                        ManagerView {
                            store: shown.store.applied(
                                run_id,
                                RunMutation::ProcessReady,
                                now_unix_ms,
                            ),
                            ..shown
                        },
                        Ok(()),
                    ),
                }
            }
        }
    }

    /// What an answer changed is shown.
    pub open spec fn answer_shown(self, run_id: RunId, done: CompletedRpcView) -> Self {
        let capable = if done.capabilities_changed {
            self.notified(
                run_id,
                NoticeView::CapabilitiesChanged {
                    revision: self.controllers[run_id].capabilities.revision,
                },
            )
        } else {
            self
        };
        let synced = match done.session_sync {
            Some(SessionSyncCompletionView::Page { applied, .. }) => capable.notified(
                run_id,
                NoticeView::SessionSyncChanged {
                    revision: applied.revision,
                    resync_required: false,
                },
            ),
            Some(SessionSyncCompletionView::ResyncRequired { revision, .. }) => capable.notified(
                run_id,
                NoticeView::SessionSyncChanged { revision, resync_required: true },
            ),
            _ => capable,
        };
        synced.state_notified(run_id)
    }

    /// After a session was replaced, Pi is asked which one is active now.
    pub open spec fn replacement_observed(
        self,
        run_id: RunId,
        done: CompletedRpcView,
        state_id: RequestId,
        now_unix_ms: u64,
    ) -> Self {
        if done.outcome == RpcResponseOutcome::Accepted && done.active.class
            == RpcConcurrencyClass::SessionReplacement {
            let (after, result) = self.sent(
                run_id,
                RpcRequest { id: state_id, command: RpcCommand::GetState },
            );
            match result {
                Ok(_) => after,
                Err(error) => after.protocol_failed(
                    run_id,
                    "failed queuing post-session-replacement state reconciliation: "@ + error,
                    now_unix_ms,
                ),
            }
        } else {
            self
        }
    }

    /// Without waiting for the first answer of a process, where this is it.
    pub open spec fn started(self, run_id: RunId, response: RpcResponse) -> Self {
        if self.completes_startup(run_id, response) {
            ManagerView { startups: self.startups.remove(run_id), ..self }
        } else {
            self
        }
    }

    /// Whether an answer refuses the first question to a new process.
    pub open spec fn startup_refused(
        self,
        run_id: RunId,
        response: RpcResponse,
        done: CompletedRpcView,
    ) -> bool {
        self.completes_startup(run_id, response) && done.outcome != RpcResponseOutcome::Accepted
    }

    /// The session whose draft a run is to show because of a correlated answer.
    pub open spec fn answer_binds(
        self,
        run_id: RunId,
        response: RpcResponse,
        done: CompletedRpcView,
    ) -> Option<Seq<char>> {
        if self.startup_refused(run_id, response, done) {
            None
        } else {
            self.started(run_id, response).session_to_bind(run_id, response, done.outcome)
        }
    }

    /// A correlated answer up to the point where the draft that it answers is cleared;
    /// or how it ends before that.
    pub open spec fn answer_reached(
        self,
        run_id: RunId,
        response: RpcResponse,
        done: CompletedRpcView,
        abort_id: RequestId,
        bound: Result<Option<DraftDurability>, String>,
        now_ms: u64,
        now_unix_ms: u64,
    ) -> (Self, bool) {
        let started = self.started(run_id, response);
        if self.startup_refused(run_id, response, done) {
            (
                started.protocol_failed(
                    run_id,
                    "Pi rejected the startup get_state handshake"@,
                    now_unix_ms,
                ),
                false,
            )
        } else {
            let (taken, result) = started.state_taken(
                run_id,
                response,
                done.outcome,
                self.completes_startup(run_id, response),
                bound,
                now_ms,
                now_unix_ms,
            );
            match result {
                Err(error) => (taken.protocol_failed(run_id, error, now_unix_ms), false),
                Ok(_) => (
                    taken.answer_shown(run_id, done).stop_answered(
                        run_id,
                        response,
                        abort_id,
                        now_unix_ms,
                    ),
                    true,
                ),
            }
        }
    }

    /// The generation of the draft that a correlated answer has cleared, if one is.
    pub open spec fn answer_clears(
        self,
        run_id: RunId,
        response: RpcResponse,
        done: CompletedRpcView,
        abort_id: RequestId,
        bound: Result<Option<DraftDurability>, String>,
        now_ms: u64,
        now_unix_ms: u64,
    ) -> Option<u64> {
        let (reached, going) = self.answer_reached(
            run_id,
            response,
            done,
            abort_id,
            bound,
            now_ms,
            now_unix_ms,
        );
        if going {
            reached.draft_to_clear(run_id, response, done.outcome)
        } else {
            None
        }
    }

    /// What follows once an answer was correlated with its request.
    pub open spec fn answer_taken(
        self,
        run_id: RunId,
        response: RpcResponse,
        done: CompletedRpcView,
        abort_id: RequestId,
        state_id: RequestId,
        replies: DraftReplies,
        now_ms: u64,
        now_unix_ms: u64,
    ) -> Self {
        let (reached, going) = self.answer_reached(
            run_id,
            response,
            done,
            abort_id,
            replies.bound,
            now_ms,
            now_unix_ms,
        );
        if !going {
            reached
        } else {
            let (completed, result) = reached.submission_completed(
                run_id,
                response,
                done.outcome,
                replies.cleared,
                now_ms,
            );
            match result {
                Err(error) => completed.protocol_failed(run_id, error, now_unix_ms),
                Ok(_) => completed.replacement_observed(
                    run_id,
                    done,
                    state_id,
                    now_unix_ms,
                ).waiter_answered(
                    run_id,
                    response.id->0@,
                    false,
                    ReplyView::Completed(
                        CompletionView {
                            response,
                            session_entries: page_of(done.session_sync),
                            session_resync_required: done.session_sync is Some
                                && done.session_sync->0 is ResyncRequired,
                        },
                    ),
                ),
            }
        }
    }

    /// An answer has come.
    pub open spec fn response_handled(
        self,
        run_id: RunId,
        response: RpcResponse,
        abort_id: RequestId,
        state_id: RequestId,
        replies: DraftReplies,
        now_ms: u64,
        now_unix_ms: u64,
    ) -> Self {
        if response.id is None {
            self.protocol_failed(run_id, "correlated Pi response is missing id"@, now_unix_ms)
        } else if !self.controllers.contains_key(run_id) {
            self.protocol_failed(run_id, of_run(run_id, " has no RPC controller"@), now_unix_ms)
        } else {
            let step = self.controllers[run_id].response_completed(
                response,
                self.store,
                now_unix_ms,
            );
            let after = self.controlled(run_id, step.controller, step.store);
            match step.result {
                Err(error) => after.protocol_failed(run_id, error.text(), now_unix_ms),
                Ok(done) => after.answer_taken(
                    run_id,
                    response,
                    done,
                    abort_id,
                    state_id,
                    replies,
                    now_ms,
                    now_unix_ms,
                ),
            }
        }
    }
}

/// What the keeper of drafts replies while an answer is taken.
pub struct DraftReplies {
    /// What came of showing the draft of a session: how it stands with it, where there
    /// is one.
    pub bound: Result<Option<DraftDurability>, String>,
    /// What came of clearing the draft that was sent.
    pub cleared: Result<DraftClearing, String>,
}

/// Whether showing the draft of a session came to this.
pub open spec fn bound_as<B: FnOnce(String) -> Result<Option<DraftDurability>, String>>(
    bind: B,
    session_id: Seq<char>,
    bound: Result<Option<DraftDurability>, String>,
) -> bool {
    exists|session: String| session@ == session_id && #[trigger] call_ensures(
        bind,
        (session,),
        bound,
    )
}

/// Whether a correlated answer was taken: whatever has to be shown or cleared is what
/// the keeper of drafts was asked for, and its replies decide how it goes on.
pub open spec fn answer_followed<
    B: FnOnce(String) -> Result<Option<DraftDurability>, String>,
    C: FnOnce(u64) -> Result<DraftClearing, String>,
>(
    before: ManagerView,
    after: ManagerView,
    run_id: RunId,
    response: RpcResponse,
    done: CompletedRpcView,
    abort_id: RequestId,
    state_id: RequestId,
    replies: DraftReplies,
    now_ms: u64,
    now_unix_ms: u64,
    bind: B,
    clear: C,
) -> bool {
    &&& after == before.answer_taken(
        run_id,
        response,
        done,
        abort_id,
        state_id,
        replies,
        now_ms,
        now_unix_ms,
    )
    &&& match before.answer_binds(run_id, response, done) {
        Some(session_id) => bound_as(bind, session_id, replies.bound),
        None => true,
    }
    &&& match before.answer_clears(
        run_id,
        response,
        done,
        abort_id,
        replies.bound,
        now_ms,
        now_unix_ms,
    ) {
        Some(generation) => call_ensures(clear, (generation,), replies.cleared),
        None => true,
    }
}

/// Whether an answer that has come was handled as it is to be.
pub open spec fn response_followed<
    B: FnOnce(String) -> Result<Option<DraftDurability>, String>,
    C: FnOnce(u64) -> Result<DraftClearing, String>,
>(
    before: ManagerView,
    after: ManagerView,
    run_id: RunId,
    response: RpcResponse,
    abort_id: RequestId,
    state_id: RequestId,
    replies: DraftReplies,
    now_ms: u64,
    now_unix_ms: u64,
    bind: B,
    clear: C,
) -> bool {
    &&& after == before.response_handled(
        run_id,
        response,
        abort_id,
        state_id,
        replies,
        now_ms,
        now_unix_ms,
    )
    &&& response.id is Some && before.controllers.contains_key(run_id) ==> {
        let step = before.controllers[run_id].response_completed(
            response,
            before.store,
            now_unix_ms,
        );
        match step.result {
            Err(_) => true,
            Ok(done) => answer_followed(
                before.controlled(run_id, step.controller, step.store),
                after,
                run_id,
                response,
                done,
                abort_id,
                state_id,
                replies,
                now_ms,
                now_unix_ms,
                bind,
                clear,
            ),
        }
    }
}

impl RuntimeManager {
    pub(crate) fn take_waiter(&mut self, run_id: RunId, request_id: &str, extension: bool) -> (r:
        Option<u64>)
        ensures
            (final(self)@, r) == old(self)@.waiter_taken(run_id, request_id@, extension),
    {
        let ghost list = waiter_views(self.waiters@);
        let mut i: usize = self.waiters.len();
        assert(list.take(i as int) =~= list);
        while i > 0
            invariant
                i <= self.waiters@.len(),
                list == waiter_views(self.waiters@),
                self@ == old(self)@,
                waiter_at(list, run_id, request_id@, extension) == waiter_at(
                    list.take(i as int),
                    run_id,
                    request_id@,
                    extension,
                ),
            decreases i,
        {
            i -= 1;
            let ghost taken = list.take(i + 1);
            assert(taken.drop_last() =~= list.take(i as int));
            assert(taken.last() == self.waiters@[i as int]@);
            if self.waiters[i].run_id.value == run_id.value && self.waiters[i].extension
                == extension && same_text(self.waiters[i].request_id.as_str(), request_id) {
                let waiter = self.waiters.remove(i);
                assert(waiter_views(self.waiters@) =~= list.remove(i as int));
                return Some(waiter.ticket);
            }
        }
        None
    }

    pub(crate) fn answer_waiter(
        &mut self,
        run_id: RunId,
        request_id: &str,
        extension: bool,
        reply: ManagerReply,
    )
        ensures
            final(self)@ == old(self)@.waiter_answered(run_id, request_id@, extension, reply@),
    {
        match self.take_waiter(run_id, request_id, extension) {
            Some(ticket) => {
                self.answer(ticket, reply);
            },
            None => {},
        }
    }

    fn show_effect(&mut self, run_id: RunId, effect: RunRpcEffect)
        ensures
            final(self)@ == old(self)@.effected(run_id, effect@),
    {
        match effect {
            RunRpcEffect::Nothing | RunRpcEffect::ForwardCompatibleIgnored => {},
            RunRpcEffect::AssistantMessageReset => {
                self.notify(run_id, UiNotice::AssistantMessageReset);
            },
            RunRpcEffect::AssistantBlockUpdated { content_index } => {
                let shown = match self.controllers.by_run.get(&run_id) {
                    Some(controller) => controller.live_projection().assistant_block(
                        content_index,
                    ).is_some(),
                    None => false,
                };
                if shown {
                    self.notify(run_id, UiNotice::AssistantBlock { content_index });
                }
            },
            RunRpcEffect::ToolUpdated { tool_call_id } => {
                let shown = match self.controllers.by_run.get(&run_id) {
                    Some(controller) => controller.live_projection().tool_snapshot(
                        tool_call_id.as_str(),
                    ).is_some(),
                    None => false,
                };
                if shown {
                    self.notify(run_id, UiNotice::Tool { tool_call_id });
                }
            },
            RunRpcEffect::DirectBashUpdated { request_id } => {
                let shown = match self.controllers.by_run.get(&run_id) {
                    Some(controller) => controller.live_projection().direct_bash_snapshot(
                        &request_id,
                    ).is_some(),
                    None => false,
                };
                if shown {
                    self.notify(run_id, UiNotice::DirectBash { request_id });
                }
            },
            RunRpcEffect::SemanticStateChanged => {
                self.notify_state(run_id);
            },
            RunRpcEffect::ToolFinished { tool_call_id, tool_name, preview, is_error } => {
                let output = preview.output.as_str().to_owned();
                let dropped_bytes: u64 = preview.output.dropped_bytes();
                self.notify(
                    run_id,
                    UiNotice::ToolFinished {
                        tool_call_id,
                        tool_name,
                        output,
                        dropped_bytes,
                        is_error,
                    },
                );
            },
            RunRpcEffect::ExtensionDialogRequested(_) => {
                self.notify(run_id, UiNotice::ExtensionDialogsChanged);
                self.notify_state(run_id);
            },
            RunRpcEffect::ExtensionNotification { message, notify_type } => {
                self.notify(run_id, UiNotice::ExtensionNotification { message, notify_type });
            },
            RunRpcEffect::ExtensionUiStateChanged => {
                self.notify(run_id, UiNotice::ExtensionUiStateChanged);
            },
            RunRpcEffect::SetEditorText { text } => {
                self.act(ManagerAction::SetDraft { run_id, text });
            },
        }
    }

    fn sync_from(&self, run_id: RunId) -> (r: Option<String>)
        ensures
            optional_view(r) == self@.sync_cursor(run_id),
    {
        if self.shutdown.is_some() || self.stops.contains_key(&run_id) {
            return None;
        }
        match self.controllers.by_run.get(&run_id) {
            None => None,
            Some(controller) => {
                let sync = controller.session_sync_state();
                if sync.initialized() && !sync.resync_required() {
                    match sync.cursor() {
                        Some(cursor) => Some(cursor.to_owned()),
                        None => None,
                    }
                } else {
                    None
                }
            },
        }
    }

    fn show_event(&mut self, run_id: RunId, event: RpcEvent, now_ms: u64, now_unix_ms: u64) -> (r:
        bool)
        ensures
            exists|error_message: Option<String>| {
                &&& (old(self)@.controllers.contains_key(run_id) ==> optional_view(error_message)
                    == old(self)@.controllers[run_id].message_error(event))
                &&& (final(self)@, r) == #[trigger] old(self)@.event_shown(
                    run_id,
                    event,
                    now_ms,
                    now_unix_ms,
                    error_message,
                )
            },
    {
        let ghost before = self@;
        let settled = match &event {
            RpcEvent::AgentSettled => true,
            _ => false,
        };
        let mut controller = match self.controllers.by_run.remove(&run_id) {
            Some(controller) => controller,
            None => {
                assert(self.controllers.by_run@ =~= before.controllers);
                let detail = run_text(run_id, " has no RPC controller");
                self.begin_transport_failure(
                    run_id,
                    RunFailureKind::Protocol,
                    detail.as_str(),
                    now_unix_ms,
                );
                assert((self@, false) == before.event_shown(
                    run_id,
                    event,
                    now_ms,
                    now_unix_ms,
                    None,
                ));
                return false;
            },
        };
        let ghost start = controller@;
        let result = controller.apply_event(event, &mut self.store, now_ms, now_unix_ms);
        let ghost error_message = choose|error_message: Option<String>|
            optional_view(error_message) == start.message_error(event) && #[trigger] stepped(
                start.event_applied(event, before.store, now_ms, now_unix_ms, error_message),
                controller@,
                self.store@,
                result,
            );
        self.controllers.by_run.insert(run_id, controller);
        let ghost step = start.event_applied(
            event,
            before.store,
            now_ms,
            now_unix_ms,
            error_message,
        );
        assert(self.controllers.by_run@ =~= before.controllers.insert(run_id, step.controller));
        assert(self@ == before.controlled(run_id, step.controller, step.store));
        match result {
            Err(error) => {
                let detail = error.message();
                self.begin_transport_failure(
                    run_id,
                    RunFailureKind::Protocol,
                    detail.as_str(),
                    now_unix_ms,
                );
                assert((self@, false) == before.event_shown(
                    run_id,
                    event,
                    now_ms,
                    now_unix_ms,
                    error_message,
                ));
                false
            },
            Ok(effect) => {
                self.show_effect(run_id, effect);
                if settled {
                    self.handle_stop_settled(run_id, now_unix_ms);
                }
                assert((self@, settled) == before.event_shown(
                    run_id,
                    event,
                    now_ms,
                    now_unix_ms,
                    error_message,
                ));
                settled
            },
        }
    }

    /// Takes an event of a process. New entries of the session are asked for under
    /// `sync_id`.
    pub fn handle_event(
        &mut self,
        run_id: RunId,
        event: RpcEvent,
        sync_id: RequestId,
        now_ms: u64,
        now_unix_ms: u64,
    )
        ensures
            exists|error_message: Option<String>, cursor: String| {
                &&& (old(self)@.controllers.contains_key(run_id) ==> optional_view(error_message)
                    == old(self)@.controllers[run_id].message_error(event))
                &&& final(self)@ == #[trigger] old(self)@.event_handled(
                    run_id,
                    event,
                    sync_id,
                    now_ms,
                    now_unix_ms,
                    error_message,
                    cursor,
                )
                &&& ({
                    let shown = old(self)@.event_shown(
                        run_id,
                        event,
                        now_ms,
                        now_unix_ms,
                        error_message,
                    ).0;
                    shown.sync_cursor(run_id) is Some ==> shown.sync_cursor(run_id) == Some(
                        cursor@,
                    )
                })
            },
    {
        let ghost before = self@;
        let settled = self.show_event(run_id, event, now_ms, now_unix_ms);
        let ghost shown = self@;
        let ghost error_message = choose|error_message: Option<String>| {
            &&& (before.controllers.contains_key(run_id) ==> optional_view(error_message)
                == before.controllers[run_id].message_error(event))
            &&& (shown, settled) == #[trigger] before.event_shown(
                run_id,
                event,
                now_ms,
                now_unix_ms,
                error_message,
            )
        };
        let cursor = self.sync_from(run_id);
        match cursor {
            Some(cursor) => {
                if settled {
                    let request = RpcRequest::with_id(
                        sync_id,
                        RpcCommand::GetEntries { since: Some(cursor) },
                    );
                    let _ = self.send_request(run_id, request);
                }
                assert(self@ == before.event_handled(
                    run_id,
                    event,
                    sync_id,
                    now_ms,
                    now_unix_ms,
                    error_message,
                    cursor,
                ));
            },
            None => {
                let ghost cursor: String = arbitrary();
                assert(self@ == before.event_handled(
                    run_id,
                    event,
                    sync_id,
                    now_ms,
                    now_unix_ms,
                    error_message,
                    cursor,
                ));
            },
        }
    }

    fn find_draft_to_clear(
        &self,
        run_id: RunId,
        response: &RpcResponse,
        outcome: RpcResponseOutcome,
    ) -> (r: Option<u64>)
        ensures
            r == self@.draft_to_clear(run_id, *response, outcome),
    {
        match (self.submissions.get(&run_id), &response.id) {
            (Some(submission), Some(id)) => {
                if outcome == RpcResponseOutcome::Accepted && same_text(
                    id.as_str(),
                    submission.request_id.as_str(),
                ) {
                    Some(submission.draft_generation)
                } else {
                    None
                }
            },
            _ => None,
        }
    }

    fn complete_submission(
        &mut self,
        run_id: RunId,
        response: &RpcResponse,
        outcome: RpcResponseOutcome,
        cleared: &Result<DraftClearing, String>,
        now_ms: u64,
    ) -> (r: Result<(), String>)
        ensures
            (final(self)@, told(r)) == old(self)@.submission_completed(
                run_id,
                *response,
                outcome,
                *cleared,
                now_ms,
            ),
    {
        let owns = match (self.submissions.get(&run_id), &response.id) {
            (Some(submission), Some(id)) => same_text(id.as_str(), submission.request_id.as_str()),
            _ => false,
        };
        if !owns {
            return Ok(());
        }
        let submission = match self.submissions.remove(&run_id) {
            Some(submission) => submission,
            None => {
                return Ok(());
            },
        };
        let mut draft_cleared = false;
        if outcome == RpcResponseOutcome::Accepted {
            match cleared {
                Err(error) => {
                    self.answer(submission.ticket, ManagerReply::Dropped);
                    return Err(error.clone());
                },
                Ok(clearing) => {
                    draft_cleared = clearing.cleared;
                    if clearing.cleared {
                        self.schedule_draft_save(run_id, clearing.durability, now_ms);
                    }
                },
            }
        }
        let result = submit_result(submission.action, outcome, &response.error, draft_cleared);
        self.act(ManagerAction::AnswerSender { ticket: submission.ticket, result });
        self.notify(run_id, UiNotice::ComposerChanged);
        Ok(())
    }

    pub(crate) fn queue_draft_load(&mut self, run_id: RunId)
        ensures
            final(self)@ == old(self)@.load_queued(run_id),
    {
        if !self.persistence {
            return;
        }
        let session_id = match self.sessions.get(&run_id) {
            Some(session_id) => session_id.clone(),
            None => {
                return;
            },
        };
        if self.loads_attempted.contains_key(&session_id) {
            return;
        }
        self.loads_attempted.insert(session_id.clone(), true);
        self.loads_pending.insert(session_id.clone(), true);
        self.act(ManagerAction::LoadDraft { session_id });
    }

    fn bind_session(
        &mut self,
        run_id: RunId,
        session_id: String,
        draft: Option<DraftDurability>,
        now_ms: u64,
    )
        ensures
            final(self)@ == old(self)@.session_bound(run_id, session_id@, draft, now_ms),
    {
        self.sessions.insert(run_id, session_id);
        self.queue_draft_load(run_id);
        self.schedule_draft_save(run_id, draft, now_ms);
    }

    fn find_session_to_bind(
        &self,
        run_id: RunId,
        response: &RpcResponse,
        outcome: RpcResponseOutcome,
    ) -> (r: Option<String>)
        ensures
            optional_view(r) == self@.session_to_bind(run_id, *response, outcome),
    {
        if outcome == RpcResponseOutcome::Accepted && same_text(
            response.command.as_str(),
            "get_state",
        ) {
            match self.store.get(run_id) {
                Some(record) => copy_optional(&record.session_state().session_id),
                None => None,
            }
        } else {
            None
        }
    }

    fn take_state(
        &mut self,
        run_id: RunId,
        response: &RpcResponse,
        outcome: RpcResponseOutcome,
        startup: bool,
        bound: &Result<Option<DraftDurability>, String>,
        now_ms: u64,
        now_unix_ms: u64,
    ) -> (r: Result<(), String>)
        ensures
            (final(self)@, told(r)) == old(self)@.state_taken(
                run_id,
                *response,
                outcome,
                startup,
                *bound,
                now_ms,
                now_unix_ms,
            ),
    {
        if outcome == RpcResponseOutcome::Accepted && same_text(
            response.command.as_str(),
            "get_state",
        ) {
            let session_id = match self.store.get(run_id) {
                Some(record) => copy_optional(&record.session_state().session_id),
                None => None,
            };
            match session_id {
                Some(session_id) => match bound {
                    Ok(draft) => {
                        let draft: Option<DraftDurability> = *draft;
                        self.bind_session(run_id, session_id, draft, now_ms);
                    },
                    Err(error) => {
                        return Err(error.clone());
                    },
                },
                None => {
                    return Err(run_text(run_id, " get_state did not establish a session id"));
                },
            }
        }
        if startup {
            match self.store.apply(run_id, RunMutation::ProcessReady, now_unix_ms) {
                Ok(_) => Ok(()),
                Err(error) => Err(error.message()),
            }
        } else {
            Ok(())
        }
    }

    fn show_answer(
        &mut self,
        run_id: RunId,
        capabilities_changed: bool,
        session_sync: &Option<SessionSyncCompletion>,
        Ghost(done): Ghost<CompletedRpcView>,
    )
        requires
            old(self)@.controllers.contains_key(run_id),
            done.capabilities_changed == capabilities_changed,
            done.session_sync == (match *session_sync {
                Some(sync) => Some(sync@),
                None => None,
            }),
        ensures
            final(self)@ == old(self)@.answer_shown(run_id, done),
    {
        if capabilities_changed {
            let revision: u64 = match self.controllers.by_run.get(&run_id) {
                Some(controller) => controller.capabilities().revision(),
                None => 0,
            };
            self.notify(run_id, UiNotice::CapabilitiesChanged { revision });
        }
        match session_sync {
            Some(SessionSyncCompletion::Page { applied, .. }) => {
                let revision: u64 = applied.revision;
                self.notify(
                    run_id,
                    UiNotice::SessionSyncChanged { revision, resync_required: false },
                );
            },
            Some(SessionSyncCompletion::ResyncRequired { revision, .. }) => {
                let revision: u64 = *revision;
                self.notify(
                    run_id,
                    UiNotice::SessionSyncChanged { revision, resync_required: true },
                );
            },
            _ => {},
        }
        self.notify_state(run_id);
    }

    fn observe_replacement(
        &mut self,
        run_id: RunId,
        replaced: bool,
        state_id: RequestId,
        now_unix_ms: u64,
        Ghost(done): Ghost<CompletedRpcView>,
    )
        requires
            replaced == (done.outcome == RpcResponseOutcome::Accepted && done.active.class
                == RpcConcurrencyClass::SessionReplacement),
        ensures
            final(self)@ == old(self)@.replacement_observed(run_id, done, state_id, now_unix_ms),
    {
        if !replaced {
            return;
        }
        match self.send_request(run_id, RpcRequest::with_id(state_id, RpcCommand::GetState)) {
            Ok(_) => {},
            Err(error) => {
                let detail = join(
                    "failed queuing post-session-replacement state reconciliation: ",
                    error.as_str(),
                );
                self.begin_transport_failure(
                    run_id,
                    RunFailureKind::Protocol,
                    detail.as_str(),
                    now_unix_ms,
                );
            },
        }
    }

    /// Takes an answer of a process. An abort that becomes necessary goes out under
    /// `abort_id`, and a look at a replaced session under `state_id`. `bind` has the run
    /// show the draft of a session, and `clear` clears the draft that was sent, if it
    /// still is of the generation.
    pub fn handle_response<
        B: FnOnce(String) -> Result<Option<DraftDurability>, String>,
        C: FnOnce(u64) -> Result<DraftClearing, String>,
    >(
        &mut self,
        run_id: RunId,
        response: RpcResponse,
        abort_id: RequestId,
        state_id: RequestId,
        now_ms: u64,
        now_unix_ms: u64,
        bind: B,
        clear: C,
    )
        requires
            forall|session: String| #[trigger] call_requires(bind, (session,)),
            forall|generation: u64| #[trigger] call_requires(clear, (generation,)),
        ensures
            exists|replies: DraftReplies| #[trigger]
                response_followed(
                    old(self)@,
                    final(self)@,
                    run_id,
                    response,
                    abort_id,
                    state_id,
                    replies,
                    now_ms,
                    now_unix_ms,
                    bind,
                    clear,
                ),
    {
        let ghost before = self@;
        let ghost none = DraftReplies {
            bound: Ok(None),
            cleared: Ok(DraftClearing { cleared: false, durability: None }),
        };
        let response_id = match &response.id {
            Some(id) => id.clone(),
            None => {
                self.begin_transport_failure(
                    run_id,
                    RunFailureKind::Protocol,
                    "correlated Pi response is missing id",
                    now_unix_ms,
                );
                assert(response_followed(
                    before,
                    self@,
                    run_id,
                    response,
                    abort_id,
                    state_id,
                    none,
                    now_ms,
                    now_unix_ms,
                    bind,
                    clear,
                ));
                return;
            },
        };
        let mut controller = match self.controllers.by_run.remove(&run_id) {
            Some(controller) => controller,
            None => {
                assert(self.controllers.by_run@ =~= before.controllers);
                let detail = run_text(run_id, " has no RPC controller");
                self.begin_transport_failure(
                    run_id,
                    RunFailureKind::Protocol,
                    detail.as_str(),
                    now_unix_ms,
                );
                assert(response_followed(
                    before,
                    self@,
                    run_id,
                    response,
                    abort_id,
                    state_id,
                    none,
                    now_ms,
                    now_unix_ms,
                    bind,
                    clear,
                ));
                return;
            },
        };
        let ghost step = controller@.response_completed(response, before.store, now_unix_ms);
        let result = controller.complete_response(&response, &mut self.store, now_unix_ms);
        self.controllers.by_run.insert(run_id, controller);
        assert(self.controllers.by_run@ =~= before.controllers.insert(run_id, step.controller));
        assert(self@ == before.controlled(run_id, step.controller, step.store));
        match result {
            Err(error) => {
                let detail = error.message();
                self.begin_transport_failure(
                    run_id,
                    RunFailureKind::Protocol,
                    detail.as_str(),
                    now_unix_ms,
                );
                assert(response_followed(
                    before,
                    self@,
                    run_id,
                    response,
                    abort_id,
                    state_id,
                    none,
                    now_ms,
                    now_unix_ms,
                    bind,
                    clear,
                ));
            },
            Ok(done) => {
                let ghost view = done@;
                let ghost after = self@;
                self.take_answer(
                    run_id,
                    response,
                    response_id,
                    done,
                    abort_id,
                    state_id,
                    now_ms,
                    now_unix_ms,
                    bind,
                    clear,
                );
                proof {
                    let replies = choose|replies: DraftReplies| #[trigger]
                        answer_followed(
                            after,
                            self@,
                            run_id,
                            response,
                            view,
                            abort_id,
                            state_id,
                            replies,
                            now_ms,
                            now_unix_ms,
                            bind,
                            clear,
                        );
                    assert(response_followed(
                        before,
                        self@,
                        run_id,
                        response,
                        abort_id,
                        state_id,
                        replies,
                        now_ms,
                        now_unix_ms,
                        bind,
                        clear,
                    ));
                }
            },
        }
    }

    fn take_answer<
        B: FnOnce(String) -> Result<Option<DraftDurability>, String>,
        C: FnOnce(u64) -> Result<DraftClearing, String>,
    >(
        &mut self,
        run_id: RunId,
        response: RpcResponse,
        response_id: String,
        done: CompletedRpcRequest,
        abort_id: RequestId,
        state_id: RequestId,
        now_ms: u64,
        now_unix_ms: u64,
        bind: B,
        clear: C,
    )
        requires
            old(self)@.controllers.contains_key(run_id),
            response.id == Some(response_id),
            forall|session: String| #[trigger] call_requires(bind, (session,)),
            forall|generation: u64| #[trigger] call_requires(clear, (generation,)),
        ensures
            exists|replies: DraftReplies| #[trigger]
                answer_followed(
                    old(self)@,
                    final(self)@,
                    run_id,
                    response,
                    done@,
                    abort_id,
                    state_id,
                    replies,
                    now_ms,
                    now_unix_ms,
                    bind,
                    clear,
                ),
    {
        let ghost before = self@;
        let ghost view = done@;
        let ghost unasked: Result<DraftClearing, String> = Ok(
            DraftClearing { cleared: false, durability: None },
        );
        let startup = match self.startups.get(&run_id) {
            Some(startup) => same_text(startup.request_id.as_str(), response_id.as_str())
                && same_text(response.command.as_str(), "get_state"),
            None => false,
        };
        if startup {
            let _ = self.startups.remove(&run_id);
            if done.outcome != RpcResponseOutcome::Accepted {
                self.begin_transport_failure(
                    run_id,
                    RunFailureKind::Protocol,
                    "Pi rejected the startup get_state handshake",
                    now_unix_ms,
                );
                assert(answer_followed(
                    before,
                    self@,
                    run_id,
                    response,
                    view,
                    abort_id,
                    state_id,
                    DraftReplies { bound: Ok(None), cleared: unasked },
                    now_ms,
                    now_unix_ms,
                    bind,
                    clear,
                ));
                return;
            }
        }
        assert(self@ == before.started(run_id, response));
        let bound = match self.find_session_to_bind(run_id, &response, done.outcome) {
            Some(session_id) => {
                let ghost session = session_id;
                let bound = bind(session_id);
                assert(call_ensures(bind, (session,), bound));
                assert(bound_as(bind, session@, bound));
                bound
            },
            None => Ok(None),
        };
        match self.take_state(
            run_id,
            &response,
            done.outcome,
            startup,
            &bound,
            now_ms,
            now_unix_ms,
        ) {
            Ok(_) => {},
            Err(detail) => {
                self.begin_transport_failure(
                    run_id,
                    RunFailureKind::Protocol,
                    detail.as_str(),
                    now_unix_ms,
                );
                assert(answer_followed(
                    before,
                    self@,
                    run_id,
                    response,
                    view,
                    abort_id,
                    state_id,
                    DraftReplies { bound, cleared: unasked },
                    now_ms,
                    now_unix_ms,
                    bind,
                    clear,
                ));
                return;
            },
        }
        let replaced = done.outcome == RpcResponseOutcome::Accepted && done.active.class
            == RpcConcurrencyClass::SessionReplacement;
        self.show_answer(run_id, done.capabilities_changed, &done.session_sync, Ghost(view));
        self.handle_stop_response(run_id, &response, abort_id, now_unix_ms);
        assert((self@, true) == before.answer_reached(
            run_id,
            response,
            view,
            abort_id,
            bound,
            now_ms,
            now_unix_ms,
        ));
        let cleared = match self.find_draft_to_clear(run_id, &response, done.outcome) {
            Some(generation) => clear(generation),
            None => Ok(DraftClearing { cleared: false, durability: None }),
        };
        let ghost replies = DraftReplies { bound, cleared };
        match self.complete_submission(run_id, &response, done.outcome, &cleared, now_ms) {
            Ok(_) => {},
            Err(detail) => {
                self.begin_transport_failure(
                    run_id,
                    RunFailureKind::Protocol,
                    detail.as_str(),
                    now_unix_ms,
                );
                assert(answer_followed(
                    before,
                    self@,
                    run_id,
                    response,
                    view,
                    abort_id,
                    state_id,
                    replies,
                    now_ms,
                    now_unix_ms,
                    bind,
                    clear,
                ));
                return;
            },
        }
        self.observe_replacement(run_id, replaced, state_id, now_unix_ms, Ghost(view));
        let (session_entries, session_resync_required) = match done.session_sync {
            Some(SessionSyncCompletion::Page { page, .. }) => (Some(page), false),
            Some(SessionSyncCompletion::ResyncRequired { .. }) => (None, true),
            _ => (None, false),
        };
        self.answer_waiter(
            run_id,
            response_id.as_str(),
            false,
            ManagerReply::Completed(
                ManagedRpcCompletion { response, session_entries, session_resync_required },
            ),
        );
        assert(answer_followed(
            before,
            self@,
            run_id,
            response,
            view,
            abort_id,
            state_id,
            replies,
            now_ms,
            now_unix_ms,
            bind,
            clear,
        ));
    }
}

} // verus!
