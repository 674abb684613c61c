use pi_wizard_core::rpc::ThinkingLevel;
use pi_wizard_core::session_activation::{
    plan_session_activation, SessionActivationError, SessionActivationPlan,
};
use pi_wizard_core::supervision::{SupervisionSnapshot, SupervisionStatus};
use pi_wizard_core::{ProjectId, SupervisionId};

#[test]
fn supervision_state_is_independent_from_automation_identity() {
    let first = ProjectId { value: 2 };
    let second = ProjectId { value: 1 };
    let snapshot = SupervisionSnapshot::new(
        SupervisionId { value: 3 },
        vec![first, second],
        first,
        Some("provider".to_owned()),
        Some("model".to_owned()),
        Some(ThinkingLevel::High),
    );
    assert_eq!(snapshot.status, SupervisionStatus::Starting);
    assert_eq!(snapshot.project_ids.len(), 2);
    assert_eq!(snapshot.host_project_id, first);
    assert!(snapshot.last_decision.is_none());
    assert!(snapshot.supervisor_run_id.is_none());
    assert_eq!(snapshot.project_ids, [second, first]);
}

#[test]
fn projects_of_a_supervision_are_listed_once() {
    let ids = [5u128, 1, 5, 3, 1].map(|value| ProjectId { value }).to_vec();
    let snapshot =
        SupervisionSnapshot::new(SupervisionId { value: 1 }, ids, ProjectId { value: 5 }, None, None, None);
    assert_eq!(
        snapshot.project_ids,
        [1u128, 3, 5].map(|value| ProjectId { value })
    );
}

#[test]
fn a_supervision_has_ended_once_completed_stopped_or_failed() {
    assert!(!SupervisionStatus::Starting.is_terminal());
    assert!(!SupervisionStatus::Running.is_terminal());
    assert!(SupervisionStatus::Completed.is_terminal());
    assert!(SupervisionStatus::Stopped.is_terminal());
    assert!(SupervisionStatus::Failed.is_terminal());
}

#[test]
fn same_canonical_root_may_replace_session_in_process() {
    assert_eq!(
        plan_session_activation("/r", Ok("/root".to_owned()), "/link", Ok("/root".to_owned())),
        Ok(SessionActivationPlan::ReplaceInProcess)
    );
}

#[test]
fn different_root_requires_new_run_instead_of_retargeting_process() {
    assert_eq!(
        plan_session_activation(
            "/current",
            Ok("/current".to_owned()),
            "/target",
            Ok("/target".to_owned())
        ),
        Ok(SessionActivationPlan::SpawnNewRun { canonical_target_root: "/target".to_owned() })
    );
}

#[test]
fn missing_target_is_explicit_failure_not_current_root_fallback() {
    assert!(matches!(
        plan_session_activation(
            "/current",
            Ok("/current".to_owned()),
            "/current/gone",
            Err("no such file".to_owned())
        ),
        Err(SessionActivationError::CanonicalizeSessionRoot { .. })
    ));
    assert!(matches!(
        plan_session_activation("/gone", Err("no".to_owned()), "/x", Ok("/x".to_owned())),
        Err(SessionActivationError::CanonicalizeCurrentRoot { .. })
    ));
}
