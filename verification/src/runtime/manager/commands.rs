//! Commands to the manager.
use vstd::prelude::*;
use vstd::string::*;

use crate::draft::DraftDurability;
use crate::events::ExtensionUiResponse;
use crate::ids::{RequestId, RunId};
use crate::keyed::{strictly_ordered, OrderedKey};
use crate::rpc::RpcRequest;
use crate::runtime::composer::{ComposerAction, DraftSubmission};
use crate::runtime::hydration::RuntimeHydrationSnapshot;
use crate::runtime::manager::basics::of_run;
use crate::runtime::manager::lifecycle::lists_processes;
use crate::runtime::manager::{ManagerView, RuntimeManager};
use crate::runtime::ui_queue::RuntimeUiDrain;
use crate::text::{optional_view, texts_view};

verus! {

/// What a caller asks of the manager.
#[allow(inconsistent_fields)]
#[derive(Debug)]
pub enum RuntimeManagerCommand {
    /// A picture of all runs.
    Hydrate,
    /// A picture of all runs, after which nothing older is told about this one.
    RecoverUi { run_id: RunId },
    /// To start a run.
    StartRun,
    /// To send a request; `draft` says how it stands with the draft of the session.
    Request { run_id: RunId, request: RpcRequest, ticket: u64, draft: Option<DraftDurability> },
    /// To follow a session that was read from disk.
    BootstrapSessionSync {
        run_id: RunId,
        expected_session_id: String,
        cursor: String,
        leaf_id: Option<String>,
        sync_id: RequestId,
    },
    /// To change the draft that a run shows: its text or its images.
    ChangeDraft { run_id: RunId },
    /// To send the draft that a run shows.
    SubmitDraft {
        run_id: RunId,
        action: ComposerAction,
        draft: Result<DraftSubmission, String>,
        ticket: u64,
        request_id: RequestId,
    },
    /// What waits for the renderer of a run.
    DrainUi { run_id: RunId, max_events: usize },
}

/// What a caller gets at once.
#[derive(Debug)]
pub enum CommandOutcome {
    /// The answer comes with what is to be done, then or later.
    Queued,
    /// The caller may go on.
    Granted,
    Refused(String),
    Hydrated(RuntimeHydrationSnapshot),
    Drained(RuntimeUiDrain),
}

/// What is told to all once everything is to end.
pub open spec fn shutting_down() -> Seq<char> {
    "runtime manager is shutting down"@
}

/// Whether a picture shows these runs at this time.
pub open spec fn hydrates(
    manager: ManagerView,
    snapshot: RuntimeHydrationSnapshot,
    now_ms: u64,
) -> bool {
    &&& snapshot.schema_version == crate::runtime::hydration::RUNTIME_HYDRATION_SCHEMA_VERSION
    &&& snapshot.runtime_revision == manager.store.revision
    &&& snapshot.runs@.len() == manager.store.runs.dom().len()
    &&& forall|i: int|
        0 <= i < snapshot.runs@.len() ==> manager.pictures(#[trigger] snapshot.runs@[i], now_ms)
    &&& forall|i: int, j: int|
        0 <= i < j < snapshot.runs@.len() ==> RunId::before(
            (#[trigger] snapshot.runs@[i]).run@.id,
            (#[trigger] snapshot.runs@[j]).run@.id,
        )
}

/// Whether all renderers for which something waited were woken again.
pub open spec fn all_woken(before: ManagerView, after: ManagerView) -> bool {
    exists|runs: Seq<RunId>|
        strictly_ordered::<RunId>(runs) && runs.to_set() == before.renderers.dom() && after
            == #[trigger] before.all_resignaled(runs)
}

/// Whether a command was handled as it is to be.
pub open spec fn command_handled(
    before: ManagerView,
    after: ManagerView,
    command: RuntimeManagerCommand,
    outcome: CommandOutcome,
    now_ms: u64,
) -> bool {
    match command {
        RuntimeManagerCommand::Hydrate => outcome is Hydrated && hydrates(
            before,
            outcome->Hydrated_0,
            now_ms,
        ) && all_woken(before, after),
        RuntimeManagerCommand::RecoverUi { run_id } => if before.renderers.contains_key(run_id) {
            after == before.ui_recovered(run_id) && outcome is Hydrated && hydrates(
                after,
                outcome->Hydrated_0,
                now_ms,
            )
        } else {
            after == before && outcome is Refused && outcome->Refused_0@ == of_run(
                run_id,
                " has no UI backlog"@,
            )
        },
        RuntimeManagerCommand::StartRun => after == before && if before.shutdown is Some {
            outcome is Refused && outcome->Refused_0@ == shutting_down()
        } else {
            outcome is Granted
        },
        RuntimeManagerCommand::Request { run_id, request, ticket, draft } => outcome is Queued
            && after == if before.shutdown is Some {
            before.refused(ticket, shutting_down())
        } else {
            before.request_begun(run_id, request, ticket, draft, now_ms)
        },
        RuntimeManagerCommand::BootstrapSessionSync {
            run_id,
            expected_session_id,
            cursor,
            leaf_id,
            sync_id,
        } => {
            let (synced, result) = before.sync_bootstrapped(
                run_id,
                expected_session_id@,
                cursor,
                optional_view(leaf_id),
                sync_id,
            );
            after == synced && match result {
                Ok(_) => outcome is Granted,
                Err(detail) => outcome is Refused && outcome->Refused_0@ == detail,
            }
        },
        RuntimeManagerCommand::ChangeDraft { run_id } => after == before
            && match before.draft_refusal(run_id) {
            Some(detail) => outcome is Refused && outcome->Refused_0@ == detail,
            None => outcome is Granted,
        },
        RuntimeManagerCommand::SubmitDraft { run_id, action, draft, ticket, request_id } => {
            outcome is Queued && after == if before.shutdown is Some {
                before.refused(ticket, shutting_down())
            } else {
                before.submission_begun(run_id, action, draft, ticket, request_id)
            }
        },
        RuntimeManagerCommand::DrainUi { run_id, max_events } => if before.renderers.contains_key(
            run_id,
        ) {
            let queue = before.renderers[run_id];
            let limit = before.drain_limit(max_events);
            outcome is Drained && queue.brings(limit, outcome->Drained_0) && after
                == before.with_queue(run_id, queue.drained(limit))
        } else {
            after == before && outcome is Refused && outcome->Refused_0@ == of_run(
                run_id,
                " has no UI backlog"@,
            )
        },
    }
}

/// What a caller asks of the manager ahead of all commands.
#[derive(Debug)]
pub enum RuntimeManagerControlCommand {
    RespondExtensionUi { run_id: RunId, response: ExtensionUiResponse, ticket: u64 },
    StopRun { run_id: RunId, ticket: u64, clear_queue_id: RequestId },
    /// To end everything; `sessions` are those whose drafts are not stored.
    Shutdown { ticket: u64, sessions: Vec<String> },
}

impl RuntimeManager {
    fn granted(&self) -> (r: CommandOutcome)
        ensures
            if self@.shutdown is Some {
                r is Refused && r->Refused_0@ == shutting_down()
            } else {
                r is Granted
            },
    {
        if self.shutdown.is_some() {
            CommandOutcome::Refused("runtime manager is shutting down".to_owned())
        } else {
            CommandOutcome::Granted
        }
    }

    /// Handles a command.
    pub fn handle_command(&mut self, command: RuntimeManagerCommand, now_ms: u64) -> (r:
        CommandOutcome)
        ensures
            command_handled(old(self)@, final(self)@, command, r, now_ms),
    {
        match command {
            RuntimeManagerCommand::Hydrate => {
                let snapshot = self.hydration_snapshot(now_ms);
                self.resignal_pending();
                CommandOutcome::Hydrated(snapshot)
            },
            RuntimeManagerCommand::RecoverUi { run_id } => match self.recover_ui(run_id) {
                Ok(_) => CommandOutcome::Hydrated(self.hydration_snapshot(now_ms)),
                Err(detail) => CommandOutcome::Refused(detail),
            },
            RuntimeManagerCommand::StartRun => self.granted(),
            RuntimeManagerCommand::Request { run_id, request, ticket, draft } => {
                if self.shutdown.is_some() {
                    self.refuse(ticket, "runtime manager is shutting down");
                } else {
                    self.begin_managed_request(run_id, request, ticket, draft, now_ms);
                }
                CommandOutcome::Queued
            },
            RuntimeManagerCommand::BootstrapSessionSync {
                run_id,
                expected_session_id,
                cursor,
                leaf_id,
                sync_id,
            } => match self.bootstrap_session_sync(
                run_id,
                expected_session_id.as_str(),
                cursor,
                leaf_id,
                sync_id,
            ) {
                Ok(_) => CommandOutcome::Granted,
                Err(detail) => CommandOutcome::Refused(detail),
            },
            RuntimeManagerCommand::ChangeDraft { run_id } => match self.check_draft_edit(run_id) {
                Ok(_) => CommandOutcome::Granted,
                Err(detail) => CommandOutcome::Refused(detail),
            },
            RuntimeManagerCommand::SubmitDraft { run_id, action, draft, ticket, request_id } => {
                if self.shutdown.is_some() {
                    self.refuse(ticket, "runtime manager is shutting down");
                } else {
                    self.begin_composer_submission(run_id, action, draft, ticket, request_id);
                }
                CommandOutcome::Queued
            },
            RuntimeManagerCommand::DrainUi { run_id, max_events } => match self.drain_ui(
                run_id,
                max_events,
            ) {
                Ok(drain) => CommandOutcome::Drained(drain),
                Err(detail) => CommandOutcome::Refused(detail),
            },
        }
    }

    /// Handles a command that goes ahead of all others.
    pub fn handle_control(
        &mut self,
        command: RuntimeManagerControlCommand,
        now_ms: u64,
        now_unix_ms: u64,
    )
        ensures
            match command {
                RuntimeManagerControlCommand::RespondExtensionUi { run_id, response, ticket } => {
                    final(self)@ == if old(self)@.shutdown is Some {
                        old(self)@.refused(ticket, shutting_down())
                    } else {
                        old(self)@.extension_answered(run_id, response, ticket)
                    }
                },
                RuntimeManagerControlCommand::StopRun { run_id, ticket, clear_queue_id } => {
                    final(self)@ == if old(self)@.shutdown is Some {
                        old(self)@.refused(ticket, shutting_down())
                    } else {
                        old(self)@.stop_begun(run_id, ticket, clear_queue_id, now_ms, now_unix_ms)
                    }
                },
                RuntimeManagerControlCommand::Shutdown { ticket, sessions } => {
                    if old(self)@.shutdown is Some {
                        final(self)@ == old(self)@.refused(
                            ticket,
                            "runtime manager is already shutting down"@,
                        )
                    } else {
                        exists|runs: Seq<RunId>|
                            lists_processes(old(self)@, runs) && final(self)@
                                == #[trigger] old(self)@.shutdown_begun(
                                Some(ticket),
                                runs,
                                texts_view(sessions@),
                                now_ms,
                                now_unix_ms,
                            )
                    }
                },
            },
            command is Shutdown ==> final(self)@.shutdown is Some,
    {
        match command {
            RuntimeManagerControlCommand::RespondExtensionUi { run_id, response, ticket } => {
                if self.shutdown.is_some() {
                    self.refuse(ticket, "runtime manager is shutting down");
                } else {
                    self.queue_extension_response(run_id, response, ticket);
                }
            },
            RuntimeManagerControlCommand::StopRun { run_id, ticket, clear_queue_id } => {
                if self.shutdown.is_some() {
                    self.refuse(ticket, "runtime manager is shutting down");
                } else {
                    self.begin_stop(run_id, ticket, clear_queue_id, now_ms, now_unix_ms);
                }
            },
            RuntimeManagerControlCommand::Shutdown { ticket, sessions } => {
                self.begin_shutdown(Some(ticket), &sessions, now_ms, now_unix_ms);
            },
        }
    }
}

} // verus!
