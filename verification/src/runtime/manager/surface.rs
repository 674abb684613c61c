//! What renderers and callers see of the runs.
use vstd::prelude::*;
use vstd::string::*;

use crate::draft::{DraftClearing, DraftDurability};
use crate::events::InboundMessage;
use crate::ids::{RequestId, RunId};
use crate::keyed::{strictly_ordered, OrderedKey};
use crate::runtime::coalescing::{UiCoalesceKey, UiCoalesceKeyView};
use crate::runtime::hydration::{RunHydrationSnapshot, RuntimeHydrationSnapshot};
use crate::runtime::manager::actions::{ActionView, ManagerAction, UiNotice};
use crate::runtime::manager::basics::{of_run, run_text};
use crate::runtime::manager::drafts::all_keys;
use crate::runtime::manager::replies::{response_followed, DraftReplies};
use crate::runtime::manager::stops::{recorded, unconfirmed_text};
use crate::runtime::manager::{FailureView, ManagerView, PendingFailure, RuntimeManager};
use crate::runtime::process_actor::{
    ProcessTerminationReport, RunProcessEnvelope, RunProcessEvent,
};
use crate::runtime::projection::has_block;
use crate::runtime::rpc_controller::RunRpcController;
use crate::runtime::state::{RunFailure, RunFailureKind};
use crate::runtime::ui_queue::{RuntimeUiDrain, RuntimeUiEvent, UiQueueView};
use crate::text::optional_view;

verus! {

/// What an encoded notice does to what waits for a renderer.
pub open spec fn queued(
    queue: UiQueueView,
    key: Option<UiCoalesceKeyView>,
    payload: Option<Seq<u8>>,
) -> UiQueueView {
    match key {
        Some(key) => queue.with_display(key, payload),
        None => queue.with_semantic(payload),
    }
}

/// The model of an optional payload.
pub open spec fn payload_option(payload: Option<Vec<u8>>) -> Option<Seq<u8>> {
    match payload {
        Some(bytes) => Some(bytes@),
        None => None,
    }
}

/// The model of an optional key.
pub open spec fn key_option(key: Option<UiCoalesceKey>) -> Option<UiCoalesceKeyView> {
    match key {
        Some(key) => Some(key@),
        None => None,
    }
}

impl ManagerView {
    pub open spec fn with_queue(self, run_id: RunId, queue: UiQueueView) -> Self {
        ManagerView { renderers: self.renderers.insert(run_id, queue), ..self }
    }

    /// An encoded notice waits for the renderer of a run, which is woken for it if it
    /// was not woken already.
    pub open spec fn delivered(
        self,
        run_id: RunId,
        key: Option<UiCoalesceKeyView>,
        payload: Option<Seq<u8>>,
    ) -> Self {
        if !self.renderers.contains_key(run_id) {
            self
        } else {
            let queue = self.renderers[run_id];
            let after = self.with_queue(run_id, queued(queue, key, payload));
            if !queue.dirty_signaled && (key is None || payload is Some) {
                after.with_action(ActionView::Wake { run_id })
            } else {
                after
            }
        }
    }

    /// How many events a renderer gets at once.
    pub open spec fn drain_limit(self, max_events: usize) -> usize {
        if max_events < self.limits.max_runtime_command_queue {
            max_events
        } else {
            self.limits.max_runtime_command_queue
        }
    }

    /// The renderer of a run has read everything anew.
    pub open spec fn ui_recovered(self, run_id: RunId) -> Self {
        let queue = self.renderers[run_id];
        let after = self.with_queue(run_id, queue.recovered());
        if queue.pending_editor_text is Some {
            after.with_action(ActionView::Wake { run_id })
        } else {
            after
        }
    }

    /// The renderer of a run is woken again, if anything waits for it.
    pub open spec fn resignaled(self, run_id: RunId) -> Self {
        if self.renderers.contains_key(run_id) && self.renderers[run_id].pending() {
            self.with_queue(run_id, self.renderers[run_id].marked()).with_action(
                ActionView::Wake { run_id },
            )
        } else {
            self
        }
    }

    /// The renderers of these runs are woken again.
    pub open spec fn all_resignaled(self, runs: Seq<RunId>) -> Self
        decreases runs.len(),
    {
        if runs.len() == 0 {
            self
        } else {
            self.all_resignaled(runs.drop_last()).resignaled(runs.last())
        }
    }

    /// Whether this pictures a run: its state, what its process has told, and what is
    /// under way. The draft is filled in by its owner.
    pub open spec fn pictures(self, shown: RunHydrationSnapshot, now_ms: u64) -> bool {
        &&& self.store.runs.contains_key(shown.run@.id)
        &&& shown.run@ == self.store.runs[shown.run@.id]
        &&& shown.composer_availability == shown.run@.availability()
        &&& shown.draft is None
        &&& shown.composer_submission_pending == self.submissions.contains_key(shown.run@.id)
        &&& shown.draft_restore_pending == self.restore_pending(shown.run@.id)
        &&& match shown.rpc {
            Some(rpc) => self.controllers.contains_key(shown.run@.id)
                && self.controllers[shown.run@.id].pictured(rpc, now_ms),
            None => !self.controllers.contains_key(shown.run@.id),
        }
    }

    /// What a report of a termination leads to; `failure` is how a failure is
    /// recorded.
    pub open spec fn reported(
        self,
        run_id: RunId,
        report: ProcessTerminationReport,
        failure: RunFailure,
        now_unix_ms: u64,
    ) -> Self {
        match report {
            ProcessTerminationReport::Exited { code, .. } => self.exited(
                run_id,
                code,
                failure,
                now_unix_ms,
            ),
            ProcessTerminationReport::Unconfirmed { .. } => self.quarantined(
                run_id,
                unconfirmed_text(),
                failure,
                now_unix_ms,
            ),
        }
    }

    /// Whether a failure is recorded as this report has it told.
    pub open spec fn records(
        self,
        run_id: RunId,
        report: ProcessTerminationReport,
        failure: RunFailure,
    ) -> bool {
        self.can_end(run_id) ==> match report {
            ProcessTerminationReport::Exited { code, .. } => self.exit_failure(
                run_id,
                code,
            ) is Some ==> recorded(failure, self.exit_failure(run_id, code)->0, self.limits),
            ProcessTerminationReport::Unconfirmed { .. } => recorded(
                failure,
                self.quarantine_failure(run_id, unconfirmed_text()),
                self.limits,
            ),
        }
    }

    pub open spec fn with_failure(self, run_id: RunId, detail: Seq<char>) -> Self {
        ManagerView {
            failures: self.failures.insert(
                run_id,
                FailureView { kind: RunFailureKind::Protocol, detail },
            ),
            ..self
        }
    }
}

/// Whether an event shows a notice about a run.
pub open spec fn shows_notice(
    event: RuntimeUiEvent,
    run_id: RunId,
    notice: UiNotice,
    controller: Option<RunRpcController>,
) -> bool {
    match notice {
        UiNotice::StateChanged { runtime_revision } => event == (RuntimeUiEvent::StateChanged {
            run_id,
            runtime_revision,
        }),
        UiNotice::AssistantMessageReset => event == (RuntimeUiEvent::AssistantMessageReset {
            run_id,
        }),
        UiNotice::AssistantBlock { content_index } => match event {
            RuntimeUiEvent::AssistantBlockUpdated { run_id: told_of, block } => told_of == run_id
                && controller is Some && has_block(controller->0@.live.blocks, content_index)
                && block.shows(controller->0@.live.block(content_index)),
            _ => false,
        },
        UiNotice::Tool { tool_call_id } => match event {
            RuntimeUiEvent::ToolUpdated { run_id: told_of, tool } => told_of == run_id
                && controller is Some && controller->0@.live.tools.contains_key(tool_call_id@)
                && tool.shows(tool_call_id@, controller->0@.live.tools[tool_call_id@]),
            _ => false,
        },
        UiNotice::DirectBash { request_id } => match event {
            RuntimeUiEvent::DirectBashUpdated { run_id: told_of, bash } => told_of == run_id
                && controller is Some && controller->0@.live.direct_bash.contains_key(request_id@)
                && bash.shows(request_id@, controller->0@.live.direct_bash[request_id@]),
            _ => false,
        },
        UiNotice::ToolFinished { tool_call_id, tool_name, output, dropped_bytes, is_error } => {
            event == (RuntimeUiEvent::ToolFinished {
                run_id,
                tool_call_id,
                tool_name,
                output,
                dropped_bytes,
                is_error,
            })
        },
        UiNotice::CapabilitiesChanged { revision } => event == (
        RuntimeUiEvent::CapabilitiesChanged { run_id, revision }),
        UiNotice::SessionSyncChanged { revision, resync_required } => event == (
        RuntimeUiEvent::SessionSyncChanged { run_id, revision, resync_required }),
        UiNotice::ExtensionDialogsChanged => event == (RuntimeUiEvent::ExtensionDialogsChanged {
            run_id,
        }),
        UiNotice::ExtensionNotification { message, notify_type } => event == (
        RuntimeUiEvent::ExtensionNotification { run_id, message, notify_type }),
        UiNotice::ExtensionUiStateChanged => event == (RuntimeUiEvent::ExtensionUiStateChanged {
            run_id,
        }),
        UiNotice::EditorTextChanged => event == (RuntimeUiEvent::EditorTextChanged { run_id }),
        UiNotice::DraftChanged => event == (RuntimeUiEvent::DraftChanged { run_id }),
        UiNotice::ComposerChanged => event == (RuntimeUiEvent::ComposerChanged { run_id }),
        UiNotice::ProcessTerminal { process } => event == (RuntimeUiEvent::ProcessTerminal {
            run_id,
            process,
        }),
    }
}

/// Whether what a notice shows is there to be shown.
pub open spec fn can_show(notice: UiNotice, controller: Option<RunRpcController>) -> bool {
    match notice {
        UiNotice::AssistantBlock { content_index } => controller is Some && has_block(
            controller->0@.live.blocks,
            content_index,
        ),
        UiNotice::Tool { tool_call_id } => controller is Some
            && controller->0@.live.tools.contains_key(tool_call_id@),
        UiNotice::DirectBash { request_id } => controller is Some
            && controller->0@.live.direct_bash.contains_key(request_id@),
        _ => true,
    }
}

/// The event that shows a notice about a run, where what it shows is there.
pub fn ui_event(run_id: RunId, notice: UiNotice, controller: Option<&RunRpcController>) -> (r: Option<
    RuntimeUiEvent,
>)
    ensures
        ({
            let held = match controller {
                Some(controller) => Some(*controller),
                None => None,
            };
            match r {
                Some(event) => can_show(notice, held) && shows_notice(event, run_id, notice, held),
                None => !can_show(notice, held),
            }
        }),
{
    match notice {
        UiNotice::StateChanged { runtime_revision } => Some(
            RuntimeUiEvent::StateChanged { run_id, runtime_revision },
        ),
        UiNotice::AssistantMessageReset => Some(RuntimeUiEvent::AssistantMessageReset { run_id }),
        UiNotice::AssistantBlock { content_index } => match controller {
            Some(controller) => match controller.live_projection().assistant_block_snapshot(
                content_index,
            ) {
                Some(block) => Some(RuntimeUiEvent::AssistantBlockUpdated { run_id, block }),
                None => None,
            },
            None => None,
        },
        UiNotice::Tool { tool_call_id } => match controller {
            Some(controller) => match controller.live_projection().tool_snapshot(
                tool_call_id.as_str(),
            ) {
                Some(tool) => Some(RuntimeUiEvent::ToolUpdated { run_id, tool }),
                None => None,
            },
            None => None,
        },
        UiNotice::DirectBash { request_id } => match controller {
            Some(controller) => match controller.live_projection().direct_bash_snapshot(
                &request_id,
            ) {
                Some(bash) => Some(RuntimeUiEvent::DirectBashUpdated { run_id, bash }),
                None => None,
            },
            None => None,
        },
        UiNotice::ToolFinished { tool_call_id, tool_name, output, dropped_bytes, is_error } => Some(
            RuntimeUiEvent::ToolFinished {
                run_id,
                tool_call_id,
                tool_name,
                output,
                dropped_bytes,
                is_error,
            },
        ),
        UiNotice::CapabilitiesChanged { revision } => Some(
            RuntimeUiEvent::CapabilitiesChanged { run_id, revision },
        ),
        UiNotice::SessionSyncChanged { revision, resync_required } => Some(
            RuntimeUiEvent::SessionSyncChanged { run_id, revision, resync_required },
        ),
        UiNotice::ExtensionDialogsChanged => Some(
            RuntimeUiEvent::ExtensionDialogsChanged { run_id },
        ),
        UiNotice::ExtensionNotification { message, notify_type } => Some(
            RuntimeUiEvent::ExtensionNotification { run_id, message, notify_type },
        ),
        UiNotice::ExtensionUiStateChanged => Some(
            RuntimeUiEvent::ExtensionUiStateChanged { run_id },
        ),
        UiNotice::EditorTextChanged => Some(RuntimeUiEvent::EditorTextChanged { run_id }),
        UiNotice::DraftChanged => Some(RuntimeUiEvent::DraftChanged { run_id }),
        UiNotice::ComposerChanged => Some(RuntimeUiEvent::ComposerChanged { run_id }),
        UiNotice::ProcessTerminal { process } => Some(
            RuntimeUiEvent::ProcessTerminal { run_id, process },
        ),
    }
}

/// The identities under which requests go out that an event of a process makes
/// necessary.
#[derive(Debug)]
pub struct EventIds {
    pub sync: RequestId,
    pub abort: RequestId,
    pub state: RequestId,
}

impl RuntimeManager {
    /// The controller of a run.
    pub fn controller(&self, run_id: RunId) -> (r: Option<&RunRpcController>)
        ensures
            match r {
                Some(controller) => self@.controllers.contains_key(run_id) && controller@
                    == self@.controllers[run_id],
                None => !self@.controllers.contains_key(run_id),
            },
    {
        self.controllers.by_run.get(&run_id)
    }

    /// Takes an encoded notice for the renderer of a run. Progress is put under
    /// `key`.
    pub fn deliver(&mut self, run_id: RunId, key: Option<UiCoalesceKey>, payload: Option<Vec<u8>>)
        ensures
            final(self)@ == old(self)@.delivered(
                run_id,
                key_option(key),
                payload_option(payload),
            ),
    {
        let ghost before = self@;
        match self.renderers.remove(&run_id) {
            None => {
                assert(self.renderers@ =~= before.renderers);
            },
            Some(mut queue) => {
                let signal = match key {
                    Some(key) => queue.push_coalescible(key, payload),
                    None => queue.push_semantic(payload),
                };
                let ghost after = queue@;
                self.renderers.insert(run_id, queue);
                assert(self.renderers@ =~= before.renderers.insert(run_id, after));
                if signal {
                    self.act(ManagerAction::Wake { run_id });
                }
            },
        }
    }

    /// Hands out what waits for the renderer of a run.
    pub fn drain_ui(&mut self, run_id: RunId, max_events: usize) -> (r: Result<
        RuntimeUiDrain,
        String,
    >)
        ensures
            if old(self)@.renderers.contains_key(run_id) {
                let queue = old(self)@.renderers[run_id];
                let limit = old(self)@.drain_limit(max_events);
                r is Ok && queue.brings(limit, r->Ok_0) && final(self)@ == old(self)@.with_queue(
                    run_id,
                    queue.drained(limit),
                )
            } else {
                r is Err && r->Err_0@ == of_run(run_id, " has no UI backlog"@) && final(self)@
                    == old(self)@
            },
    {
        let ghost before = self@;
        let limit: usize = if max_events < self.limits.max_runtime_command_queue {
            max_events
        } else {
            self.limits.max_runtime_command_queue
        };
        match self.renderers.remove(&run_id) {
            None => {
                assert(self.renderers@ =~= before.renderers);
                Err(run_text(run_id, " has no UI backlog"))
            },
            Some(mut queue) => {
                let drain = queue.drain(limit);
                let ghost after = queue@;
                self.renderers.insert(run_id, queue);
                assert(self.renderers@ =~= before.renderers.insert(run_id, after));
                Ok(drain)
            },
        }
    }

    /// Takes note that an encoded event for the renderer of a run could not be read.
    pub fn note_unreadable(&mut self, run_id: RunId)
        ensures
            final(self)@ == (if old(self)@.renderers.contains_key(run_id) {
                old(self)@.with_queue(
                    run_id,
                    UiQueueView {
                        rehydrate_required: true,
                        ..old(self)@.renderers[run_id]
                    },
                )
            } else {
                old(self)@
            }),
    {
        let ghost before = self@;
        match self.renderers.remove(&run_id) {
            None => {
                assert(self.renderers@ =~= before.renderers);
            },
            Some(mut queue) => {
                queue.note_unreadable();
                let ghost after = queue@;
                self.renderers.insert(run_id, queue);
                assert(self.renderers@ =~= before.renderers.insert(run_id, after));
            },
        }
    }

    /// Forgets what waits for the renderer of a run, which reads everything anew.
    pub fn recover_ui(&mut self, run_id: RunId) -> (r: Result<(), String>)
        ensures
            if old(self)@.renderers.contains_key(run_id) {
                r is Ok && final(self)@ == old(self)@.ui_recovered(run_id)
            } else {
                r is Err && r->Err_0@ == of_run(run_id, " has no UI backlog"@) && final(self)@
                    == old(self)@
            },
    {
        let ghost before = self@;
        match self.renderers.remove(&run_id) {
            None => {
                assert(self.renderers@ =~= before.renderers);
                Err(run_text(run_id, " has no UI backlog"))
            },
            Some(mut queue) => {
                let wakes = queue.reset_after_recovery();
                let ghost after = queue@;
                self.renderers.insert(run_id, queue);
                assert(self.renderers@ =~= before.renderers.insert(run_id, after));
                if wakes {
                    self.act(ManagerAction::Wake { run_id });
                }
                Ok(())
            },
        }
    }

    fn resignal(&mut self, run_id: RunId)
        ensures
            final(self)@ == old(self)@.resignaled(run_id),
    {
        let ghost before = self@;
        let waits = match self.renderers.get(&run_id) {
            Some(queue) => queue.has_pending_delivery(),
            None => false,
        };
        if !waits {
            return;
        }
        match self.renderers.remove(&run_id) {
            None => {},
            Some(mut queue) => {
                let _ = queue.mark_dirty();
                let ghost after = queue@;
                self.renderers.insert(run_id, queue);
                assert(self.renderers@ =~= before.renderers.insert(run_id, after));
                self.act(ManagerAction::Wake { run_id });
            },
        }
    }

    /// Wakes again all renderers for which something waits. One may have come after
    /// it was woken; nothing that waits is taken away.
    pub fn resignal_pending(&mut self)
        ensures
            exists|runs: Seq<RunId>|
                strictly_ordered::<RunId>(runs) && runs.to_set() == old(self)@.renderers.dom()
                    && final(self)@ == #[trigger] old(self)@.all_resignaled(runs),
    {
        let ghost before = self@;
        let runs = all_keys(&self.renderers);
        let mut i: usize = 0;
        assert(runs@.take(0) =~= Seq::<RunId>::empty());
        while i < runs.len()
            invariant
                i <= runs@.len(),
                self@ == before.all_resignaled(runs@.take(i as int)),
            decreases runs@.len() - i,
        {
            assert(runs@.take(i + 1).drop_last() =~= runs@.take(i as int));
            let id: RunId = runs[i];
            self.resignal(id);
            i += 1;
        }
        assert(runs@.take(i as int) =~= runs@);
        assert(self@ == before.all_resignaled(runs@));
    }

    /// Pictures all runs, in the order of their identities. The drafts are filled in
    /// by their owner.
    pub fn hydration_snapshot(&self, now_ms: u64) -> (r: RuntimeHydrationSnapshot)
        ensures
            r.schema_version == crate::runtime::hydration::RUNTIME_HYDRATION_SCHEMA_VERSION,
            r.runtime_revision == self@.store.revision,
            r.runs@.len() == self@.store.runs.dom().len(),
            forall|i: int|
                0 <= i < r.runs@.len() ==> self@.pictures(#[trigger] r.runs@[i], now_ms),
            forall|i: int, j: int|
                0 <= i < j < r.runs@.len() ==> RunId::before(
                    (#[trigger] r.runs@[i]).run@.id,
                    (#[trigger] r.runs@[j]).run@.id,
                ),
    {
        let built = RuntimeHydrationSnapshot::build(&self.store, &self.controllers, now_ms);
        let ghost ids = self.store.run_ids();
        let ghost all = built.runs@;
        let _count: usize = self.store.len();
        proof {
            ids.unique_seq_to_set();
        }
        let RuntimeHydrationSnapshot { schema_version, runtime_revision, runs } = built;
        let mut rest = runs;
        let mut turned: Vec<RunHydrationSnapshot> = Vec::new();
        while rest.len() > 0
            invariant
                rest@ + turned@.reverse() == all,
            decreases rest@.len(),
        {
            let ghost before = rest@;
            let ghost done = turned@;
            match rest.pop() {
                Some(shown) => {
                    turned.push(shown);
                    assert(rest@ + turned@.reverse() =~= before + done.reverse());
                },
                None => {},
            }
        }
        assert(turned@.reverse() =~= all);
        let mut shown: Vec<RunHydrationSnapshot> = Vec::new();
        while turned.len() > 0
            invariant
                all.len() == ids.len(),
                shown@.len() + turned@.len() == all.len(),
                forall|k: int|
                    0 <= k < turned@.len() ==> #[trigger] turned@[k] == all[all.len() - 1 - k],
                ids == self.store.run_ids(),
                ids.to_set() == self@.store.runs.dom(),
                strictly_ordered::<RunId>(ids),
                self@.store.wf(),
                forall|i: int|
                    0 <= i < all.len() ==> {
                        let one = #[trigger] all[i];
                        &&& one.run@ == self.store@.runs[ids[i]]
                        &&& one.composer_availability == one.run@.availability()
                        &&& one.draft is None
                        &&& match one.rpc {
                            Some(rpc) => self.controllers.by_run@.contains_key(one.run@.id)
                                && self.controllers.by_run@[one.run@.id].pictured(rpc, now_ms),
                            None => !self.controllers.by_run@.contains_key(one.run@.id),
                        }
                    },
                forall|k: int|
                    0 <= k < shown@.len() ==> self@.pictures(#[trigger] shown@[k], now_ms)
                        && shown@[k].run@.id == ids[k],
            decreases turned@.len(),
        {
            let ghost at = shown@.len() as int;
            let ghost left = turned@;
            match turned.pop() {
                Some(mut one) => {
                    proof {
                        assert(one == left[left.len() - 1]);
                        assert(one == all[at]);
                        assert(ids.to_set().contains(ids[at]));
                        assert(self@.store.runs.contains_key(ids[at]));
                    }
                    let run_id = one.run.id();
                    one.composer_submission_pending = self.submissions.contains_key(&run_id);
                    one.draft_restore_pending = self.draft_restore_pending(run_id);
                    assert(self@.pictures(one, now_ms));
                    shown.push(one);
                },
                None => {},
            }
        }
        RuntimeHydrationSnapshot { schema_version, runtime_revision, runs: shown }
    }

    /// Records how the process of a run ended.
    pub fn finalize_termination_report(
        &mut self,
        run_id: RunId,
        report: &ProcessTerminationReport,
        now_unix_ms: u64,
    )
        ensures
            exists|failure: RunFailure|
                old(self)@.records(run_id, *report, failure) && final(self)@
                    == #[trigger] old(self)@.reported(run_id, *report, failure, now_unix_ms),
    {
        let ghost before = self@;
        match report {
            ProcessTerminationReport::Exited { code, .. } => {
                let code: Option<i32> = *code;
                self.finalize_natural_exit(run_id, code, now_unix_ms);
                proof {
                    let failure = choose|failure: RunFailure|
                        self@ == #[trigger] before.exited(run_id, code, failure, now_unix_ms) && (
                        before.can_end(run_id) && before.exit_failure(run_id, code) is Some
                            ==> recorded(
                            failure,
                            before.exit_failure(run_id, code)->0,
                            before.limits,
                        ));
                    assert(self@ == before.reported(run_id, *report, failure, now_unix_ms));
                }
            },
            ProcessTerminationReport::Unconfirmed { .. } => {
                self.finalize_uncertain_termination(
                    run_id,
                    "Pi process termination could not be confirmed",
                    now_unix_ms,
                );
                proof {
                    let failure = choose|failure: RunFailure|
                        self@ == #[trigger] before.quarantined(
                            run_id,
                            unconfirmed_text(),
                            failure,
                            now_unix_ms,
                        ) && (before.can_end(run_id) ==> recorded(
                            failure,
                            before.quarantine_failure(run_id, unconfirmed_text()),
                            before.limits,
                        ));
                    assert(self@ == before.reported(run_id, *report, failure, now_unix_ms));
                }
            },
        }
    }

    fn note_failure(&mut self, run_id: RunId, detail: String)
        ensures
            final(self)@ == old(self)@.with_failure(run_id, detail@),
    {
        self.failures.insert(run_id, PendingFailure { kind: RunFailureKind::Protocol, detail });
    }

    /// Takes an event of the process of a run. `bind` has the run show the draft of a
    /// session, and `clear` clears the draft that was sent, if it still is of the
    /// generation.
    pub fn handle_process_event<
        B: FnOnce(String) -> Result<Option<DraftDurability>, String>,
        C: FnOnce(u64) -> Result<DraftClearing, String>,
    >(
        &mut self,
        envelope: RunProcessEnvelope,
        ids: EventIds,
        now_ms: u64,
        now_unix_ms: u64,
        bind: B,
        clear: C,
    )
        requires
            forall|session: String| #[trigger] call_requires(bind, (session,)),
            forall|generation: u64| #[trigger] call_requires(clear, (generation,)),
        ensures
            ({
                let before = old(self)@;
                let after = final(self)@;
                let run_id = envelope.run_id;
                match envelope.event {
                    RunProcessEvent::Inbound(InboundMessage::Event(event)) => exists|
                        error_message: Option<String>,
                        cursor: String,
                    | {
                        &&& (before.controllers.contains_key(run_id) ==> optional_view(
                            error_message,
                        ) == before.controllers[run_id].message_error(event))
                        &&& after == #[trigger] before.event_handled(
                            run_id,
                            event,
                            ids.sync,
                            now_ms,
                            now_unix_ms,
                            error_message,
                            cursor,
                        )
                        &&& ({
                            let shown = before.event_shown(
                                run_id,
                                event,
                                now_ms,
                                now_unix_ms,
                                error_message,
                            ).0;
                            shown.sync_cursor(run_id) is Some ==> shown.sync_cursor(run_id)
                                == Some(cursor@)
                        })
                    },
                    RunProcessEvent::Inbound(InboundMessage::Response(response)) => exists|
                        replies: DraftReplies,
                    | #[trigger]
                        response_followed(
                            before,
                            after,
                            run_id,
                            response,
                            ids.abort,
                            ids.state,
                            replies,
                            now_ms,
                            now_unix_ms,
                            bind,
                            clear,
                        ),
                    RunProcessEvent::RequestWriteFailed { request_id, detail } => after
                        == before.request_write_failed(run_id, request_id, detail@, now_unix_ms),
                    RunProcessEvent::ExtensionUiResponseWritten { request_id } => after
                        == before.extension_written(run_id, request_id, now_unix_ms),
                    RunProcessEvent::ExtensionUiResponseWriteFailed { request_id, detail } => after
                        == before.extension_write_failed(
                        run_id,
                        request_id@,
                        detail@,
                        now_unix_ms,
                    ),
                    RunProcessEvent::Exited { code, .. } => exists|failure: RunFailure|
                        after == #[trigger] before.exited(run_id, code, failure, now_unix_ms) && (
                        before.can_end(run_id) && before.exit_failure(run_id, code) is Some
                            ==> recorded(
                            failure,
                            before.exit_failure(run_id, code)->0,
                            before.limits,
                        )),
                    RunProcessEvent::ProtocolFailure { detail, termination } => exists|
                        failure: RunFailure,
                    |
                        before.with_failure(run_id, detail@).records(run_id, termination, failure)
                            && after == #[trigger] before.with_failure(run_id, detail@).reported(
                            run_id,
                            termination,
                            failure,
                            now_unix_ms,
                        ),
                    RunProcessEvent::TerminationFinished { result: Ok(report) } => exists|
                        failure: RunFailure,
                    |
                        before.records(run_id, report, failure) && after
                            == #[trigger] before.reported(run_id, report, failure, now_unix_ms),
                    RunProcessEvent::TerminationFinished { result: Err(detail) } => exists|
                        failure: RunFailure,
                    |
                        after == #[trigger] before.quarantined(
                            run_id,
                            detail@,
                            failure,
                            now_unix_ms,
                        ) && (before.can_end(run_id) ==> recorded(
                            failure,
                            before.quarantine_failure(run_id, detail@),
                            before.limits,
                        )),
                }
            }),
    {
        let RunProcessEnvelope { run_id, event } = envelope;
        let EventIds { sync, abort, state } = ids;
        match event {
            RunProcessEvent::Inbound(InboundMessage::Event(event)) => {
                self.handle_event(run_id, event, sync, now_ms, now_unix_ms);
            },
            RunProcessEvent::Inbound(InboundMessage::Response(response)) => {
                self.handle_response(
                    run_id,
                    response,
                    abort,
                    state,
                    now_ms,
                    now_unix_ms,
                    bind,
                    clear,
                );
            },
            RunProcessEvent::RequestWriteFailed { request_id, detail } => {
                self.on_request_write_failed(run_id, request_id, detail.as_str(), now_unix_ms);
            },
            RunProcessEvent::ExtensionUiResponseWritten { request_id } => {
                self.on_extension_written(run_id, request_id, now_unix_ms);
            },
            RunProcessEvent::ExtensionUiResponseWriteFailed { request_id, detail } => {
                self.on_extension_write_failed(
                    run_id,
                    request_id.as_str(),
                    detail.as_str(),
                    now_unix_ms,
                );
            },
            RunProcessEvent::Exited { code, .. } => {
                self.finalize_natural_exit(run_id, code, now_unix_ms);
            },
            RunProcessEvent::ProtocolFailure { detail, termination } => {
                self.note_failure(run_id, detail);
                self.finalize_termination_report(run_id, &termination, now_unix_ms);
            },
            RunProcessEvent::TerminationFinished { result: Ok(report) } => {
                self.finalize_termination_report(run_id, &report, now_unix_ms);
            },
            RunProcessEvent::TerminationFinished { result: Err(detail) } => {
                self.finalize_uncertain_termination(run_id, detail.as_str(), now_unix_ms);
            },
        }
    }
}

} // verus!
