use pi_wizard_core::worktree::{
    CreatedWorktree, WorktreeBaseSnapshot, WorktreeCreatePlan, WorktreeRecoveryProbe,
};
use pi_wizard_core::worktree_registry::{
    check_registry_bytes, PersistedWorktreeRegistry, StoredRecord, WorktreeRecoveryRecord,
    WorktreeRecoveryState, WorktreeRegistry, WORKTREE_REGISTRY_SCHEMA_VERSION,
};
use pi_wizard_core::worktree_registry_error::WorktreeRegistryError;
use pi_wizard_core::{ProjectId, RuntimeLimits, WorktreeId};

const PROJECT: ProjectId = ProjectId { value: 7 };

fn plan() -> WorktreeCreatePlan {
    WorktreeCreatePlan {
        base: WorktreeBaseSnapshot {
            repository_root: "/root/repo".to_owned(),
            project_root: "/root/repo/project".to_owned(),
            project_relative_path: "project".to_owned(),
            source_branch: Some("main".to_owned()),
            base_commit: "abc123".to_owned(),
            dirty: false,
        },
        branch: "agent/task".to_owned(),
        worktree_path: "/root/task-worktree".to_owned(),
    }
}

fn created(plan: &WorktreeCreatePlan) -> CreatedWorktree {
    CreatedWorktree {
        repository_root: plan.base.repository_root.clone(),
        worktree_root: plan.worktree_path.clone(),
        execution_root: plan.worktree_path.clone(),
        branch: plan.branch.clone(),
        base_commit: plan.base.base_commit.clone(),
    }
}

fn reopen(records: &[WorktreeRecoveryRecord], limits: RuntimeLimits) -> WorktreeRegistry {
    let journal = PersistedWorktreeRegistry {
        schema_version: WORKTREE_REGISTRY_SCHEMA_VERSION,
        records: records
            .iter()
            .map(|record| StoredRecord { record: record.clone(), resolved_path: None })
            .collect(),
    };
    let opened = WorktreeRegistry::open(limits, Ok(Some(journal))).expect("open");
    assert!(opened.quarantine.is_none());
    opened.registry
}

#[test]
fn planned_intent_is_durable_before_git_creation() {
    let mut registry = WorktreeRegistry::open(RuntimeLimits::default(), Ok(None))
        .expect("open")
        .registry;
    let mut stored: Vec<WorktreeRecoveryRecord> = Vec::new();
    let planned = registry
        .begin_creation(WorktreeId { value: 1 }, PROJECT, &plan(), |records| {
            stored = records.clone();
            Ok(())
        })
        .expect("plan");
    assert_eq!(planned.state(), WorktreeRecoveryState::Planned);
    let reopened = reopen(&stored, RuntimeLimits::default());
    assert_eq!(reopened.get(planned.id), Some(&planned));
    assert_eq!(planned.plan(), plan());
}

#[test]
fn a_plan_that_cannot_be_stored_is_not_recorded() {
    let mut registry = WorktreeRegistry::ephemeral(RuntimeLimits::default());
    let error = registry
        .begin_creation(WorktreeId { value: 1 }, PROJECT, &plan(), |_| {
            Err(WorktreeRegistryError::Encode { detail: "full".to_owned() })
        })
        .expect_err("not stored");
    assert_eq!(error, WorktreeRegistryError::Encode { detail: "full".to_owned() });
    assert!(registry.records().is_empty());
}

#[test]
fn created_record_survives_reopen_after_external_worktree_removal() {
    let plan = plan();
    let mut registry = WorktreeRegistry::ephemeral(RuntimeLimits::default());
    let planned = registry
        .begin_creation(WorktreeId { value: 1 }, PROJECT, &plan, |_| Ok(()))
        .expect("plan");
    let mut stored: Vec<WorktreeRecoveryRecord> = Vec::new();
    registry
        .mark_created(
            planned.id,
            created(&plan),
            Some(plan.worktree_path.clone()),
            |records| {
                stored = records.clone();
                Ok(())
            },
        )
        .expect("mark created");
    let reopened = reopen(&stored, RuntimeLimits::default());
    assert!(reopened.recovery_notice().is_none());
    assert!(reopened.get(planned.id).is_some());
}

#[test]
fn created_record_can_retire_only_with_explicit_absence_proof() {
    let plan = plan();
    let mut registry = WorktreeRegistry::ephemeral(RuntimeLimits::default());
    let planned = registry
        .begin_creation(WorktreeId { value: 1 }, PROJECT, &plan, |_| Ok(()))
        .expect("plan");
    registry
        .mark_created(planned.id, created(&plan), None, |_| Ok(()))
        .expect("mark created");
    let partial = WorktreeRecoveryProbe::Partial {
        branch_exists: true,
        path_exists: false,
        detail: "branch remains".to_owned(),
    };
    assert!(matches!(
        registry.discard_proven_absent(planned.id, &partial, |_| Ok(())),
        Err(WorktreeRegistryError::RecoveryStillPresent { id }) if id == planned.id
    ));
    assert!(registry.get(planned.id).is_some());
    assert_eq!(
        registry.discard_unmutated_plan(planned.id, |_| Ok(())),
        Err(WorktreeRegistryError::CannotDiscardCreated { id: planned.id })
    );
    registry
        .discard_proven_absent(planned.id, &WorktreeRecoveryProbe::NotCreated, |_| Ok(()))
        .expect("absence proof retires record");
    assert!(registry.get(planned.id).is_none());
}

#[test]
fn created_identity_is_committed_without_losing_original_plan() {
    let plan = plan();
    let mut registry = WorktreeRegistry::ephemeral(RuntimeLimits::default());
    let planned = registry
        .begin_creation(WorktreeId { value: 1 }, PROJECT, &plan, |_| Ok(()))
        .expect("plan");
    let mut stored: Vec<WorktreeRecoveryRecord> = Vec::new();
    let updated = registry
        .mark_created(planned.id, created(&plan), None, |records| {
            stored = records.clone();
            Ok(())
        })
        .expect("mark created");
    assert_eq!(updated.state(), WorktreeRecoveryState::Created);
    assert_eq!(updated.created, Some(created(&plan)));
    assert_eq!(updated.plan(), plan);
    let reopened = reopen(&stored, RuntimeLimits::default());
    assert_eq!(reopened.get(planned.id), Some(&updated));
}

#[test]
fn duplicate_branch_or_target_reuses_existing_recovery_instead_of_overwriting_it() {
    let mut registry = WorktreeRegistry::ephemeral(RuntimeLimits::default());
    let first = registry
        .begin_creation(WorktreeId { value: 1 }, PROJECT, &plan(), |_| Ok(()))
        .expect("first");
    assert!(matches!(
        registry.begin_creation(WorktreeId { value: 2 }, PROJECT, &plan(), |_| Ok(())),
        Err(WorktreeRegistryError::RecoveryConflict { existing_id }) if existing_id == first.id
    ));
    let mut other_branch = plan();
    other_branch.branch = "other".to_owned();
    assert!(registry
        .begin_creation(WorktreeId { value: 2 }, PROJECT, &other_branch, |_| Ok(()))
        .is_err());
    let mut other_path = plan();
    other_path.worktree_path = "/root/elsewhere".to_owned();
    assert!(registry
        .begin_creation(WorktreeId { value: 2 }, PROJECT, &other_path, |_| Ok(()))
        .is_err());
    other_path.branch = "other".to_owned();
    assert_eq!(
        registry.begin_creation(first.id, PROJECT, &other_path, |_| Ok(())),
        Err(WorktreeRegistryError::DuplicateRecoveryId { id: first.id })
    );
    registry
        .begin_creation(WorktreeId { value: 0 }, PROJECT, &other_path, |_| Ok(()))
        .expect("another worktree");
    let ids: Vec<u128> = registry.records().iter().map(|record| record.id.value).collect();
    assert_eq!(ids, [0, 1]);
}

#[test]
fn corrupt_registry_is_quarantined_without_touching_git_paths() {
    let opened = WorktreeRegistry::open(
        RuntimeLimits::default(),
        Err(WorktreeRegistryError::Decode { detail: "expected ident".to_owned() }),
    )
    .expect("recover");
    assert!(opened.registry.records().is_empty());
    assert_eq!(
        opened.registry.recovery_notice(),
        Some("could not decode worktree recovery registry: expected ident")
    );
    assert!(opened.quarantine.is_some());
}

#[test]
fn a_registry_that_cannot_be_read_is_not_put_aside() {
    let error = WorktreeRegistryError::Read { path: "x".to_owned(), detail: "denied".to_owned() };
    assert!(WorktreeRegistry::open(RuntimeLimits::default(), Err(error)).is_err());
}

#[test]
fn journals_of_other_shapes_sizes_or_with_twins_are_corrupt() {
    let limits = RuntimeLimits { max_worktree_registry_entries: 1, ..RuntimeLimits::default() };
    let record = WorktreeRecoveryRecord {
        id: WorktreeId { value: 1 },
        project_id: PROJECT,
        base: plan().base,
        branch: plan().branch,
        requested_path: plan().worktree_path,
        created: None,
    };
    let stored = |records: Vec<WorktreeRecoveryRecord>, schema_version: u32| {
        Ok(Some(PersistedWorktreeRegistry {
            schema_version,
            records: records
                .into_iter()
                .map(|record| StoredRecord { record, resolved_path: None })
                .collect(),
        }))
    };
    let cause = |limits: RuntimeLimits, records: Vec<WorktreeRecoveryRecord>, version: u32| {
        WorktreeRegistry::open(limits, stored(records, version)).expect("recover").quarantine
    };
    assert_eq!(
        cause(limits, vec![record.clone()], 2),
        Some(WorktreeRegistryError::UnsupportedSchema { actual: 2, supported: 1 })
    );
    assert_eq!(
        cause(limits, vec![record.clone(), record.clone()], 1),
        Some(WorktreeRegistryError::EntryLimit { attempted: 2, limit: 1 })
    );
    let limits = RuntimeLimits::default();
    assert_eq!(
        cause(limits, vec![record.clone(), record.clone()], 1),
        Some(WorktreeRegistryError::DuplicateRecoveryId { id: record.id })
    );
    let mut twin = record.clone();
    twin.id = WorktreeId { value: 2 };
    assert_eq!(
        cause(limits, vec![record.clone(), twin.clone()], 1),
        Some(WorktreeRegistryError::DuplicateRequestedPath { path: record.requested_path.clone() })
    );
    twin.requested_path = "/elsewhere".to_owned();
    assert_eq!(
        cause(limits, vec![record.clone(), twin.clone()], 1),
        Some(WorktreeRegistryError::DuplicateBranch {
            repository: "/root/repo".to_owned(),
            branch: "agent/task".to_owned(),
        })
    );
    let mut wrong = record.clone();
    let mut other = created(&plan());
    other.branch = "other".to_owned();
    wrong.created = Some(other);
    assert_eq!(
        cause(limits, vec![wrong], 1),
        Some(WorktreeRegistryError::CreatedIdentityMismatch { id: record.id })
    );
    let short = RuntimeLimits { max_git_ref_bytes: 3, ..limits };
    assert_eq!(
        cause(short, vec![record.clone()], 1),
        Some(WorktreeRegistryError::GitRefTooLong { actual: 6, limit: 3 })
    );
    let narrow = RuntimeLimits { max_worktree_path_bytes: 3, ..limits };
    assert!(matches!(
        cause(narrow, vec![record], 1),
        Some(WorktreeRegistryError::PathTooLong { actual: 10, limit: 3, .. })
    ));
}

#[test]
fn unknown_recoveries_and_full_registries_are_refused() {
    let limits = RuntimeLimits { max_worktree_registry_entries: 0, ..RuntimeLimits::default() };
    let mut registry = WorktreeRegistry::ephemeral(limits);
    let id = WorktreeId { value: 9 };
    assert_eq!(
        registry.begin_creation(id, PROJECT, &plan(), |_| Ok(())),
        Err(WorktreeRegistryError::EntryLimit { attempted: 1, limit: 0 })
    );
    assert_eq!(
        registry.mark_created(id, created(&plan()), None, |_| Ok(())),
        Err(WorktreeRegistryError::UnknownRecovery { id })
    );
    assert_eq!(
        registry.discard_unmutated_plan(id, |_| Ok(())),
        Err(WorktreeRegistryError::UnknownRecovery { id })
    );
    assert_eq!(
        registry.discard_proven_absent(id, &WorktreeRecoveryProbe::NotCreated, |_| Ok(())),
        Err(WorktreeRegistryError::UnknownRecovery { id })
    );
    assert_eq!(
        WorktreeRegistryError::UnknownRecovery { id }.message(),
        "worktree recovery transaction 00000000000000000000000000000009 is unknown"
    );
    let limits = RuntimeLimits { max_worktree_registry_bytes: 10, ..RuntimeLimits::default() };
    assert_eq!(check_registry_bytes(10, limits), Ok(()));
    assert_eq!(
        check_registry_bytes(11, limits),
        Err(WorktreeRegistryError::ByteLimit { attempted: 11, limit: 10 })
    );
}
