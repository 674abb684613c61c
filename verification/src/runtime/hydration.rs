//! Pictures of a whole runtime from which a renderer starts anew.
use vstd::prelude::*;
use vstd::string::*;

use crate::draft::DraftSnapshot;
use crate::events::ExtensionDialogRequest;
use crate::ids::RunId;
use crate::keyed::{strictly_ordered, KeyMap, OrderedKey};
use crate::runtime::activity::{
    RunCompactionSnapshot, RunExtensionErrorSnapshot, RunRetrySnapshot,
    RunSummarizationRetrySnapshot,
};
use crate::runtime::capabilities::RunCapabilities;
use crate::runtime::extension_ui::ExtensionUiSnapshot;
use crate::runtime::projection::LiveProjectionSnapshot;
use crate::runtime::rpc_controller::{ControllerView, RunRpcController};
use crate::runtime::session_sync::SessionSyncState;
use crate::runtime::state::{ComposerAvailability, RunRecord, RuntimeStore};

verus! {

/// Version of the shape of a [`RuntimeHydrationSnapshot`].
pub const RUNTIME_HYDRATION_SCHEMA_VERSION: u32 = 10;

#[derive(Debug, PartialEq, Eq)]
pub struct PendingExtensionDialogSnapshot {
    pub request: ExtensionDialogRequest,
    pub remaining_timeout_ms: Option<u64>,
}

#[derive(Debug, PartialEq, Eq)]
pub struct RunRpcHydrationSnapshot {
    pub run_id: RunId,
    pub capabilities: RunCapabilities,
    pub session_sync: SessionSyncState,
    pub live: LiveProjectionSnapshot,
    pub extension_ui: ExtensionUiSnapshot,
    pub pending_dialogs: Vec<PendingExtensionDialogSnapshot>,
    pub compaction: Option<RunCompactionSnapshot>,
    pub retry: Option<RunRetrySnapshot>,
    pub summarization_retry: Option<RunSummarizationRetrySnapshot>,
    pub last_extension_error: Option<RunExtensionErrorSnapshot>,
    pub stream_stalled: bool,
}

#[derive(Debug, PartialEq, Eq)]
pub struct RunHydrationSnapshot {
    pub run: RunRecord,
    pub draft: Option<DraftSnapshot>,
    pub composer_availability: ComposerAvailability,
    pub composer_submission_pending: bool,
    pub draft_restore_pending: bool,
    pub rpc: Option<RunRpcHydrationSnapshot>,
}

#[derive(Debug, PartialEq, Eq)]
pub struct RuntimeHydrationSnapshot {
    pub schema_version: u32,
    pub runtime_revision: u64,
    pub runs: Vec<RunHydrationSnapshot>,
}

/// The controllers of the runs of a runtime.
#[derive(Debug)]
pub struct RunControllers {
    pub by_run: KeyMap<RunId, RunRpcController>,
}

impl RunControllers {
    pub fn new() -> (r: Self)
        ensures
            r.by_run@ == Map::<RunId, ControllerView>::empty(),
    {
        RunControllers { by_run: KeyMap::new() }
    }

    pub fn insert(&mut self, run_id: RunId, controller: RunRpcController)
        ensures
            final(self).by_run@ == old(self).by_run@.insert(run_id, controller@),
    {
        self.by_run.insert(run_id, controller);
    }
}

impl RuntimeHydrationSnapshot {
    /// Pictures every run, in the order of the identities, with its controller
    /// where it has one. Drafts and submissions are filled in by their owner.
    pub fn build(store: &RuntimeStore, controllers: &RunControllers, now_ms: u64) -> (r: Self)
        ensures
            r.schema_version == RUNTIME_HYDRATION_SCHEMA_VERSION,
            r.runtime_revision == store@.revision,
            r.runs@.len() == store.run_ids().len(),
            store.run_ids().to_set() == store@.runs.dom(),
            strictly_ordered::<RunId>(store.run_ids()),
            forall|i: int|
                0 <= i < r.runs@.len() ==> {
                    let shown = #[trigger] r.runs@[i];
                    &&& shown.run@ == store@.runs[store.run_ids()[i]]
                    &&& shown.composer_availability == shown.run@.availability()
                    &&& shown.draft is None
                    &&& !shown.composer_submission_pending
                    &&& !shown.draft_restore_pending
                    &&& match shown.rpc {
                        Some(rpc) => controllers.by_run@.contains_key(shown.run@.id)
                            && controllers.by_run@[shown.run@.id].pictured(rpc, now_ms),
                        None => !controllers.by_run@.contains_key(shown.run@.id),
                    }
                },
    {
        let records = store.records();
        let mut runs: Vec<RunHydrationSnapshot> = Vec::new();
        let mut i: usize = 0;
        while i < records.len()
            invariant
                i <= records@.len() == store.run_ids().len(),
                forall|k: int|
                    0 <= k < records@.len() ==> (#[trigger] records@[k])@
                        == store@.runs[store.run_ids()[k]],
                runs@.len() == i,
                forall|k: int|
                    0 <= k < i ==> {
                        let shown = #[trigger] runs@[k];
                        &&& shown.run@ == store@.runs[store.run_ids()[k]]
                        &&& shown.composer_availability == shown.run@.availability()
                        &&& shown.draft is None
                        &&& !shown.composer_submission_pending
                        &&& !shown.draft_restore_pending
                        &&& match shown.rpc {
                            Some(rpc) => controllers.by_run@.contains_key(shown.run@.id)
                                && controllers.by_run@[shown.run@.id].pictured(rpc, now_ms),
                            None => !controllers.by_run@.contains_key(shown.run@.id),
                        }
                    },
            decreases records@.len() - i,
        {
            let record = records[i];
            let rpc = match controllers.by_run.get(&record.id()) {
                Some(controller) => Some(controller.hydration_snapshot(now_ms)),
                None => None,
            };
            runs.push(
                RunHydrationSnapshot {
                    run: record.clone(),
                    draft: None,
                    composer_availability: record.composer_availability(),
                    composer_submission_pending: false,
                    draft_restore_pending: false,
                    rpc,
                },
            );
            i += 1;
        }
        RuntimeHydrationSnapshot {
            schema_version: RUNTIME_HYDRATION_SCHEMA_VERSION,
            runtime_revision: store.revision(),
            runs,
        }
    }
}

} // verus!
