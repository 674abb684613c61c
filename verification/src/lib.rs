//! Core of a desktop for Pi, a coding agent that runs as a child process.
//!
//! The library decides and never acts: it holds the state of runs, reads what Pi
//! stores, and says what is to be done. Whoever owns the processes, the files and the
//! clock does it and tells the library what came of it.
pub mod bounded;
pub mod digest;
pub mod draft;
pub mod events;
pub mod history_page_laws;
pub mod ids;
pub mod json;
pub mod json_laws;
pub mod jsonc;
pub mod keyed;
pub mod launch;
pub mod limits;
pub mod number_laws;
pub mod numbers;
pub mod path_laws;
pub mod paths;
pub mod process;
pub mod reverse_lines;
pub mod rpc;
pub mod runtime;
pub mod session_activation;
pub mod session_catalog;
pub mod session_catalog_laws;
pub mod session_directory;
pub mod session_error_text;
pub mod session_history;
pub mod session_history_laws;
pub mod session_preview;
pub mod session_preview_laws;
pub mod session_scan_laws;
pub mod session_source_laws;
pub mod supervision;
pub mod text;
pub mod text_laws;
pub mod timeline;
pub mod timeline_laws;
pub mod totals;
pub mod worktree;
pub mod worktree_cleanup;
pub mod worktree_creation;
pub mod worktree_error;
pub mod worktree_flow;
pub mod worktree_laws;
pub mod worktree_recovery;
pub mod worktree_registry;
pub mod worktree_registry_error;
pub mod worktree_registry_laws;

pub use crate::ids::{DraftImageId, ProjectId, RequestId, RunId, SupervisionId, WorktreeId};
pub use crate::limits::RuntimeLimits;
