//! Hard bounds on everything a run may retain.
use vstd::prelude::*;

verus! {

/// Bounds that apply to every run of one runtime.
#[derive(Clone, Copy, Debug, PartialEq, Eq, Structural)]
pub struct RuntimeLimits {
    pub max_ui_backlog_bytes_per_run: usize,
    pub stop_abort_deadline_ms: u64,
    pub stop_termination_deadline_ms: u64,
    pub startup_rpc_deadline_ms: u64,
    pub draft_save_debounce_ms: u64,
    pub draft_flush_deadline_ms: u64,
    pub git_command_deadline_ms: u64,
    pub max_session_cursor_bytes: usize,
    pub max_session_entry_page_bytes: usize,
    pub max_session_entries_per_page: usize,
    pub max_extension_ui_entries_per_run: usize,
    pub max_extension_ui_bytes_per_run: usize,
    pub max_stream_text_bytes_per_run: usize,
    pub max_stream_content_blocks_per_message: usize,
    pub max_active_tools_per_run: usize,
    pub max_tool_preview_bytes: usize,
    pub max_pending_rpc_requests_per_run: usize,
    pub max_pending_ui_requests_per_run: usize,
    pub max_failure_detail_bytes: usize,
    pub max_runtime_state_bytes_per_run: usize,
    pub max_runtime_command_queue: usize,
    pub max_process_event_queue: usize,
    pub max_draft_bytes_per_session: usize,
    pub max_recovered_queue_bytes_per_run: usize,
    pub max_session_history_scan_bytes_per_page: usize,
    pub max_session_history_line_bytes: usize,
    pub max_session_history_page_items: usize,
    pub max_session_history_page_bytes: usize,
    pub max_session_history_item_text_bytes: usize,
    pub max_session_header_scan_bytes: usize,
    pub max_session_metadata_scan_bytes: usize,
    pub max_session_catalog_query_bytes: usize,
    pub max_session_catalog_candidates: usize,
    pub max_session_catalog_scan_files: usize,
    pub max_session_catalog_page_entries: usize,
    pub max_session_catalog_page_bytes: usize,
    pub max_worktree_registry_entries: usize,
    pub max_worktree_registry_bytes: usize,
    pub max_worktree_path_bytes: usize,
    pub max_git_ref_bytes: usize,
    pub max_git_command_output_bytes: usize,
}

/// The bound that stands at zero and cannot.
#[derive(Clone, Copy, Debug, PartialEq, Eq, Structural)]
pub enum RuntimeLimitsError {
    UiBacklogBytes,
    RuntimeCommandQueue,
    ProcessEventQueue,
}

impl RuntimeLimits {
    /// The bounds that hold where none are given.
    pub open spec fn usual() -> Self {
        RuntimeLimits {
            max_ui_backlog_bytes_per_run: 1048576,
            stop_abort_deadline_ms: 5000,
            stop_termination_deadline_ms: 5000,
            startup_rpc_deadline_ms: 15000,
            draft_save_debounce_ms: 400,
            draft_flush_deadline_ms: 2000,
            git_command_deadline_ms: 30000,
            max_session_cursor_bytes: 256,
            max_session_entry_page_bytes: 524288,
            max_session_entries_per_page: 512,
            max_extension_ui_entries_per_run: 64,
            max_extension_ui_bytes_per_run: 262144,
            max_stream_text_bytes_per_run: 262144,
            max_stream_content_blocks_per_message: 128,
            max_active_tools_per_run: 64,
            max_tool_preview_bytes: 65536,
            max_pending_rpc_requests_per_run: 64,
            max_pending_ui_requests_per_run: 32,
            max_failure_detail_bytes: 4096,
            max_runtime_state_bytes_per_run: 65536,
            max_runtime_command_queue: 256,
            max_process_event_queue: 1024,
            max_draft_bytes_per_session: 1048576,
            max_recovered_queue_bytes_per_run: 262144,
            max_session_history_scan_bytes_per_page: 8388608,
            max_session_history_line_bytes: 4194304,
            max_session_history_page_items: 100,
            max_session_history_page_bytes: 524288,
            max_session_history_item_text_bytes: 32768,
            max_session_header_scan_bytes: 65536,
            max_session_metadata_scan_bytes: 262144,
            max_session_catalog_query_bytes: 256,
            max_session_catalog_candidates: 10000,
            max_session_catalog_scan_files: 200,
            max_session_catalog_page_entries: 50,
            max_session_catalog_page_bytes: 262144,
            max_worktree_registry_entries: 256,
            max_worktree_registry_bytes: 1048576,
            max_worktree_path_bytes: 4096,
            max_git_ref_bytes: 255,
            max_git_command_output_bytes: 262144,
        }
    }

    /// What the queues need: each of them holds at least something.
    pub open spec fn queues_hold_something(self) -> bool {
        &&& self.max_ui_backlog_bytes_per_run > 0
        &&& self.max_runtime_command_queue > 0
        &&& self.max_process_event_queue > 0
    }

    /// Refuses bounds under which a queue could hold nothing.
    pub fn validate(self) -> (r: Result<RuntimeLimits, RuntimeLimitsError>)
        ensures
            match r {
                Ok(limits) => limits == self && self.queues_hold_something(),
                Err(RuntimeLimitsError::UiBacklogBytes) => self.max_ui_backlog_bytes_per_run == 0,
                Err(RuntimeLimitsError::RuntimeCommandQueue) => self.max_ui_backlog_bytes_per_run
                    > 0 && self.max_runtime_command_queue == 0,
                Err(RuntimeLimitsError::ProcessEventQueue) => self.max_ui_backlog_bytes_per_run > 0
                    && self.max_runtime_command_queue > 0 && self.max_process_event_queue == 0,
            },
    {
        if self.max_ui_backlog_bytes_per_run == 0 {
            Err(RuntimeLimitsError::UiBacklogBytes)
        } else if self.max_runtime_command_queue == 0 {
            Err(RuntimeLimitsError::RuntimeCommandQueue)
        } else if self.max_process_event_queue == 0 {
            Err(RuntimeLimitsError::ProcessEventQueue)
        } else {
            Ok(self)
        }
    }
}

impl Default for RuntimeLimits {
    fn default() -> (r: RuntimeLimits)
        ensures
            r == RuntimeLimits::usual(),
            r.queues_hold_something(),
    {
        RuntimeLimits {
            max_ui_backlog_bytes_per_run: 1048576,
            stop_abort_deadline_ms: 5000,
            stop_termination_deadline_ms: 5000,
            startup_rpc_deadline_ms: 15000,
            draft_save_debounce_ms: 400,
            draft_flush_deadline_ms: 2000,
            git_command_deadline_ms: 30000,
            max_session_cursor_bytes: 256,
            max_session_entry_page_bytes: 524288,
            max_session_entries_per_page: 512,
            max_extension_ui_entries_per_run: 64,
            max_extension_ui_bytes_per_run: 262144,
            max_stream_text_bytes_per_run: 262144,
            max_stream_content_blocks_per_message: 128,
            max_active_tools_per_run: 64,
            max_tool_preview_bytes: 65536,
            max_pending_rpc_requests_per_run: 64,
            max_pending_ui_requests_per_run: 32,
            max_failure_detail_bytes: 4096,
            max_runtime_state_bytes_per_run: 65536,
            max_runtime_command_queue: 256,
            max_process_event_queue: 1024,
            max_draft_bytes_per_session: 1048576,
            max_recovered_queue_bytes_per_run: 262144,
            max_session_history_scan_bytes_per_page: 8388608,
            max_session_history_line_bytes: 4194304,
            max_session_history_page_items: 100,
            max_session_history_page_bytes: 524288,
            max_session_history_item_text_bytes: 32768,
            max_session_header_scan_bytes: 65536,
            max_session_metadata_scan_bytes: 262144,
            max_session_catalog_query_bytes: 256,
            max_session_catalog_candidates: 10000,
            max_session_catalog_scan_files: 200,
            max_session_catalog_page_entries: 50,
            max_session_catalog_page_bytes: 262144,
            max_worktree_registry_entries: 256,
            max_worktree_registry_bytes: 1048576,
            max_worktree_path_bytes: 4096,
            max_git_ref_bytes: 255,
            max_git_command_output_bytes: 262144,
        }
    }
}

/// The bounds that hold where none are given, one by one; under them every queue holds
/// something.
pub proof fn the_usual_bounds()
    ensures
        ({
            let limits = RuntimeLimits::usual();
            &&& limits.max_ui_backlog_bytes_per_run == 1048576
            &&& limits.stop_abort_deadline_ms == 5000
            &&& limits.stop_termination_deadline_ms == 5000
            &&& limits.startup_rpc_deadline_ms == 15000
            &&& limits.draft_save_debounce_ms == 400
            &&& limits.draft_flush_deadline_ms == 2000
            &&& limits.git_command_deadline_ms == 30000
            &&& limits.max_session_cursor_bytes == 256
            &&& limits.max_session_entry_page_bytes == 524288
            &&& limits.max_session_entries_per_page == 512
            &&& limits.max_extension_ui_entries_per_run == 64
            &&& limits.max_extension_ui_bytes_per_run == 262144
            &&& limits.max_stream_text_bytes_per_run == 262144
            &&& limits.max_stream_content_blocks_per_message == 128
            &&& limits.max_active_tools_per_run == 64
            &&& limits.max_tool_preview_bytes == 65536
            &&& limits.max_pending_rpc_requests_per_run == 64
            &&& limits.max_pending_ui_requests_per_run == 32
            &&& limits.max_failure_detail_bytes == 4096
            &&& limits.max_runtime_state_bytes_per_run == 65536
            &&& limits.max_runtime_command_queue == 256
            &&& limits.max_process_event_queue == 1024
            &&& limits.max_draft_bytes_per_session == 1048576
            &&& limits.max_recovered_queue_bytes_per_run == 262144
            &&& limits.max_session_history_scan_bytes_per_page == 8388608
            &&& limits.max_session_history_line_bytes == 4194304
            &&& limits.max_session_history_page_items == 100
            &&& limits.max_session_history_page_bytes == 524288
            &&& limits.max_session_history_item_text_bytes == 32768
            &&& limits.max_session_header_scan_bytes == 65536
            &&& limits.max_session_metadata_scan_bytes == 262144
            &&& limits.max_session_catalog_query_bytes == 256
            &&& limits.max_session_catalog_candidates == 10000
            &&& limits.max_session_catalog_scan_files == 200
            &&& limits.max_session_catalog_page_entries == 50
            &&& limits.max_session_catalog_page_bytes == 262144
            &&& limits.max_worktree_registry_entries == 256
            &&& limits.max_worktree_registry_bytes == 1048576
            &&& limits.max_worktree_path_bytes == 4096
            &&& limits.max_git_ref_bytes == 255
            &&& limits.max_git_command_output_bytes == 262144
            &&& limits.queues_hold_something()
        }),
{
}

} // verus!
