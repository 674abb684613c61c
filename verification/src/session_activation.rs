//! How a session of some directory may be activated.
use vstd::prelude::*;
use vstd::string::*;

use crate::paths::{same_path, same_place};

verus! {

/// Safe activation of a session. Pi can replace its runtime with a session from
/// another directory; a run never does, because what it owns is attached to its
/// execution root.
#[derive(Clone, Debug, PartialEq, Eq)]
pub enum SessionActivationPlan {
    ReplaceInProcess,
    SpawnNewRun { canonical_target_root: String },
}

#[derive(Debug, PartialEq, Eq)]
pub enum SessionActivationError {
    CanonicalizeCurrentRoot { path: String, detail: String },
    CanonicalizeSessionRoot { path: String, detail: String },
}

/// Decides how the session of `session_cwd` is activated from a run that executes
/// in `current_execution_root`. Each comes with what the file system resolves it
/// to, or why it does not.
pub fn plan_session_activation(
    current_execution_root: &str,
    canonical_current: Result<String, String>,
    session_cwd: &str,
    canonical_target: Result<String, String>,
) -> (r: Result<SessionActivationPlan, SessionActivationError>)
    ensures
        match (canonical_current, canonical_target) {
            (Err(reason), _) => r is Err && (match r->Err_0 {
                SessionActivationError::CanonicalizeCurrentRoot { path, detail } => path@
                    == current_execution_root@ && detail == reason,
                _ => false,
            }),
            (Ok(_), Err(reason)) => r is Err && (match r->Err_0 {
                SessionActivationError::CanonicalizeSessionRoot { path, detail } => path@
                    == session_cwd@ && detail == reason,
                _ => false,
            }),
            (Ok(current), Ok(target)) => r == Ok::<SessionActivationPlan, SessionActivationError>(
                if same_place(current@, target@) {
                    SessionActivationPlan::ReplaceInProcess
                } else {
                    SessionActivationPlan::SpawnNewRun { canonical_target_root: target }
                },
            ),
        },
{
    let current = match canonical_current {
        Ok(current) => current,
        Err(detail) => {
            return Err(
                SessionActivationError::CanonicalizeCurrentRoot {
                    path: current_execution_root.to_owned(),
                    detail,
                },
            );
        },
    };
    let target = match canonical_target {
        Ok(target) => target,
        Err(detail) => {
            return Err(
                SessionActivationError::CanonicalizeSessionRoot {
                    path: session_cwd.to_owned(),
                    detail,
                },
            );
        },
    };
    if same_path(current.as_str(), target.as_str()) {
        Ok(SessionActivationPlan::ReplaceInProcess)
    } else {
        Ok(SessionActivationPlan::SpawnNewRun { canonical_target_root: target })
    }
}

} // verus!
