//! Live state of the runs of one runtime.
pub mod activity;
pub mod actor_laws;
pub mod capabilities;
pub mod coalescing;
pub mod error_text;
pub mod composer;
pub mod composer_laws;
pub mod controller_laws;
pub mod event_laws;
pub mod extension_ui;
pub mod hydration;
pub mod live_laws;
pub mod manager;
pub mod mutation_laws;
pub mod operations;
pub mod picture_laws;
pub mod process_actor;
pub mod projection;
pub mod queue_laws;
pub mod response_laws;
pub mod rpc_controller;
pub mod session_sync;
pub mod state;
pub mod state_laws;
pub mod stop;
pub mod stop_laws;
pub mod stop_recovery;
pub mod ui_queue;

pub use crate::runtime::capabilities::RunCapabilities;
pub use crate::runtime::coalescing::{
    UiBacklogError, UiBacklogFrame, UiBacklogPush, UiBacklogStats, UiCoalesceKey, UiEventBacklog,
};
pub use crate::runtime::composer::{ComposerAction, ComposerSubmitResult};
pub use crate::runtime::extension_ui::{
    ExtensionStatusSnapshot, ExtensionUiError, ExtensionUiSnapshot, ExtensionUiState,
    ExtensionWidget, ExtensionWidgetSnapshot, WidgetPlacement,
};
pub use crate::runtime::hydration::{
    PendingExtensionDialogSnapshot, RunHydrationSnapshot, RunRpcHydrationSnapshot,
    RuntimeHydrationSnapshot, RUNTIME_HYDRATION_SCHEMA_VERSION,
};
pub use crate::runtime::manager::actions::{
    ManagedRpcCompletion, RuntimeShutdownReport, SessionReplacementResult,
};
pub use crate::runtime::manager::lifecycle::{RunStartSpec, RuntimeManagerError};
pub use crate::runtime::manager::RuntimeManager;
pub use crate::runtime::process_actor::{
    CommandRoom, ProcessTerminationReport, RunProcessCommandError, RunProcessEnvelope,
    RunProcessEvent,
};
pub use crate::runtime::projection::{
    AssistantContentBlock, AssistantContentKind, AssistantContentSnapshot, DirectBashSnapshot,
    LiveProjection, LiveProjectionSnapshot, ProjectionError, ToolPreview, ToolPreviewSnapshot,
};
pub use crate::runtime::rpc_controller::{
    CancelledRpcRequest, CompletedRpcRequest, RunRpcController, RunRpcControllerError, RunRpcEffect,
    SessionSyncCompletion,
};
pub use crate::runtime::session_sync::{
    SessionSyncApplied, SessionSyncError, SessionSyncResync, SessionSyncState,
};
pub use crate::runtime::state::{
    ActivityState, ComposerAvailability, ExecutionIsolation, ProcessState, QueueState, RunFailure,
    RunFailureKind, RunModelState, RunMutation, RunRecord, RunSessionState, RunStateObservation,
    RuntimeError, RuntimeStore,
};
pub use crate::runtime::stop::{
    StopDirective, StopEscalationReason, StopPhase, StopTransaction, StopTransactionError,
};
pub use crate::runtime::stop_recovery::RuntimeStopResult;
pub use crate::runtime::ui_queue::{RuntimeManagerSignal, RuntimeUiDrain, RuntimeUiEvent};
pub use crate::worktree::GitWorktreeIdentity;
