//! What the journal of worktrees takes up, and what it reads back.
use vstd::prelude::*;
use vstd::string::*;

use crate::ids::{ProjectId, WorktreeId};
use crate::limits::RuntimeLimits;
use crate::paths::{path_within, same_place};
use crate::text::byte_len;
use crate::worktree::{CreatedWorktreeView, WorktreePlanView};
use crate::worktree_registry::{
    all_stored, loaded, matches_plan, record_refusal, RecoveryRecordView, RegistryView,
    StoredRecordView, WORKTREE_REGISTRY_SCHEMA_VERSION,
};
use crate::worktree_registry_error::RegistryErrorView;

verus! {

/// Whether a path is short enough.
pub open spec fn path_fits(path: Seq<char>, limits: RuntimeLimits) -> bool {
    byte_len(path) <= limits.max_worktree_path_bytes
}

/// Whether the name of a branch or commit is there and short enough.
pub open spec fn ref_fits(name: Seq<char>, limits: RuntimeLimits) -> bool {
    0 < name.len() && byte_len(name) <= limits.max_git_ref_bytes
}

/// A created worktree is the planned one exactly where it belongs to the same repository, is on
/// the planned branch at the planned commit, stands where it was planned, and runs inside.
pub proof fn a_created_worktree_is_the_planned_one(
    record: RecoveryRecordView,
    created: CreatedWorktreeView,
    resolved: Option<Seq<char>>,
)
    ensures
        matches_plan(record, created, resolved) <==> {
            &&& same_place(created.repository_root, record.base.repository_root)
            &&& created.branch == record.branch
            &&& created.base_commit == record.base.base_commit
            &&& resolved is Some ==> same_place(resolved->0, created.worktree_root)
            &&& resolved is None ==> same_place(record.requested_path, created.worktree_root)
            &&& path_within(created.execution_root, created.worktree_root)
        },
{
}

/// A record is in order exactly where all its paths and names are of a length that can be
/// stored and, once its worktree is created, that one is the planned one.
pub proof fn a_record_in_order_is_short_and_consistent(
    record: RecoveryRecordView,
    resolved: Option<Seq<char>>,
    limits: RuntimeLimits,
)
    ensures
        record_refusal(record, resolved, limits) is None <==> {
            &&& path_fits(record.base.repository_root, limits)
            &&& path_fits(record.base.project_root, limits)
            &&& path_fits(record.base.project_relative_path, limits)
            &&& path_fits(record.requested_path, limits)
            &&& ref_fits(record.base.base_commit, limits)
            &&& ref_fits(record.branch, limits)
            &&& record.base.source_branch is Some ==> ref_fits(
                record.base.source_branch->0,
                limits,
            )
            &&& record.created is Some ==> {
                let created = record.created->0;
                &&& same_place(created.repository_root, record.base.repository_root)
                &&& created.branch == record.branch
                &&& created.base_commit == record.base.base_commit
                &&& same_place(
                    if resolved is Some {
                        resolved->0
                    } else {
                        record.requested_path
                    },
                    created.worktree_root,
                )
                &&& path_within(created.execution_root, created.worktree_root)
                &&& path_fits(created.repository_root, limits)
                &&& path_fits(created.worktree_root, limits)
                &&& path_fits(created.execution_root, limits)
            }
        },
{
}

/// A refusal of a record names the text that is too long with its length and the limit, or the
/// record whose worktree is another one than planned.
pub proof fn refusals_of_records_say_what_is_wrong(
    record: RecoveryRecordView,
    resolved: Option<Seq<char>>,
    limits: RuntimeLimits,
)
    requires
        byte_len(record.base.repository_root) <= usize::MAX,
        byte_len(record.base.project_root) <= usize::MAX,
        byte_len(record.base.project_relative_path) <= usize::MAX,
        byte_len(record.requested_path) <= usize::MAX,
        record.created is None,
    ensures
        match record_refusal(record, resolved, limits) {
            None => true,
            Some(RegistryErrorView::PathTooLong { path, actual, limit }) => {
                &&& path == record.base.repository_root || path == record.base.project_root || path
                    == record.base.project_relative_path || path == record.requested_path
                &&& actual == byte_len(path)
                &&& limit == limits.max_worktree_path_bytes
                &&& actual > limit
            },
            Some(RegistryErrorView::GitRefTooLong { limit, .. }) => limit
                == limits.max_git_ref_bytes,
            Some(_) => false,
        },
{
}

/// A plan is taken up exactly where there is room, where no record plans a worktree at the same
/// place or on the same branch of the same repository, where its identity is new, and where it
/// can be stored.
pub proof fn a_new_plan_is_taken_up(
    registry: RegistryView,
    id: WorktreeId,
    project_id: ProjectId,
    plan: WorktreePlanView,
)
    ensures
        registry.accepts_plan(id, project_id, plan) <==> {
            &&& registry.records.dom().len() < registry.limits.max_worktree_registry_entries
            &&& !registry.records.contains_key(id)
            &&& forall|other: WorktreeId| #[trigger]
                registry.records.contains_key(other) ==> !same_place(
                    registry.records[other].requested_path,
                    plan.worktree_path,
                )
            &&& forall|other: WorktreeId| #[trigger]
                registry.records.contains_key(other) && same_place(
                    registry.records[other].base.repository_root,
                    plan.base.repository_root,
                ) ==> registry.records[other].branch != plan.branch
            &&& path_fits(plan.base.repository_root, registry.limits)
            &&& path_fits(plan.base.project_root, registry.limits)
            &&& path_fits(plan.base.project_relative_path, registry.limits)
            &&& path_fits(plan.worktree_path, registry.limits)
            &&& ref_fits(plan.base.base_commit, registry.limits)
            &&& ref_fits(plan.branch, registry.limits)
            &&& plan.base.source_branch is Some ==> ref_fits(
                plan.base.source_branch->0,
                registry.limits,
            )
        },
{
}

/// What is planned is recorded as it is planned, with nothing created yet; once it is created,
/// only that is added.
pub proof fn plans_are_recorded_as_they_are(
    registry: RegistryView,
    id: WorktreeId,
    project_id: ProjectId,
    plan: WorktreePlanView,
    created: CreatedWorktreeView,
)
    ensures
        ({
            let record = RegistryView::planned(id, project_id, plan);
            let after = registry.with_record(record);
            let done = after.with_record(after.completed(id, created));
            &&& record.id == id && record.project_id == project_id
            &&& record.base == plan.base && record.branch == plan.branch
            &&& record.requested_path == plan.worktree_path
            &&& record.created is None
            &&& after.records == registry.records.insert(id, record)
            &&& done.records.dom() == after.records.dom()
            &&& done.records[id].created == Some(created)
            &&& done.records[id].base == plan.base && done.records[id].branch == plan.branch
            &&& done.records[id].requested_path == plan.worktree_path
            &&& done.records[id].project_id == project_id
            &&& !done.without_record(id).records.contains_key(id)
            &&& forall|other: WorktreeId|
                other != id ==> (#[trigger] done.without_record(id).records.contains_key(other)
                    <==> registry.records.contains_key(other))
        }),
{
    let record = RegistryView::planned(id, project_id, plan);
    let after = registry.with_record(record);
    let done = after.with_record(after.completed(id, created));
    assert(done.records.dom() =~= after.records.dom());
}

/// A plan that is refused is refused for what is wrong with it.
pub proof fn refusals_of_plans_say_why(
    registry: RegistryView,
    id: WorktreeId,
    project_id: ProjectId,
    plan: WorktreePlanView,
    error: RegistryErrorView,
)
    requires
        registry.refuses_plan(id, project_id, plan, error),
    ensures
        registry.accepts_plan(id, project_id, plan) ==> false,
        error is EntryLimit <==> registry.records.dom().len()
            >= registry.limits.max_worktree_registry_entries,
        error is EntryLimit ==> error->EntryLimit_limit
            == registry.limits.max_worktree_registry_entries,
        error is RecoveryConflict ==> {
            let other = error->RecoveryConflict_existing_id;
            let held = registry.records[other];
            &&& registry.records.contains_key(other)
            &&& same_place(held.requested_path, plan.worktree_path) || (same_place(
                held.base.repository_root,
                plan.base.repository_root,
            ) && held.branch == plan.branch)
        },
        error is DuplicateRecoveryId ==> registry.records.contains_key(id)
            && error->DuplicateRecoveryId_id == id,
{
}

/// A worktree is recorded as created exactly where it was planned, is the planned one, and can
/// be stored.
pub proof fn only_planned_worktrees_are_recorded(
    registry: RegistryView,
    id: WorktreeId,
    created: CreatedWorktreeView,
    resolved: Option<Seq<char>>,
)
    ensures
        ({
            let refusal = registry.created_refusal(id, created, resolved);
            let record = registry.records[id];
            &&& refusal is None ==> {
                &&& registry.records.contains_key(id)
                &&& same_place(created.repository_root, record.base.repository_root)
                &&& created.branch == record.branch
                &&& created.base_commit == record.base.base_commit
                &&& path_within(created.execution_root, created.worktree_root)
                &&& same_place(
                    if resolved is Some {
                        resolved->0
                    } else {
                        record.requested_path
                    },
                    created.worktree_root,
                )
                &&& path_fits(created.worktree_root, registry.limits)
                &&& path_fits(created.execution_root, registry.limits)
            }
            &&& !registry.records.contains_key(id) ==> refusal == Some(
                RegistryErrorView::UnknownRecovery { id },
            )
            &&& registry.records.contains_key(id) && (created.branch != record.branch
                || created.base_commit != record.base.base_commit) ==> refusal == Some(
                RegistryErrorView::CreatedIdentityMismatch { id },
            )
        }),
{
}

proof fn lemma_all_stored(list: Seq<StoredRecordView>, limits: RuntimeLimits, i: int)
    requires
        all_stored(list, limits) is Ok,
        0 <= i < list.len(),
    ensures
        ({
            let records = all_stored(list, limits)->Ok_0;
            &&& records.contains_key(list[i].record.id)
            &&& records[list[i].record.id] == list[i].record
            &&& record_refusal(list[i].record, list[i].resolved_path, limits) is None
        }),
    decreases list.len(),
{
    let rest = list.drop_last();
    if i < rest.len() {
        lemma_all_stored(rest, limits, i);
        assert(rest[i] == list[i]);
    }
}

proof fn lemma_only_stored(list: Seq<StoredRecordView>, limits: RuntimeLimits, id: WorktreeId) -> (i:
    int)
    requires
        all_stored(list, limits) is Ok,
        all_stored(list, limits)->Ok_0.contains_key(id),
    ensures
        0 <= i < list.len(),
        list[i].record.id == id,
    decreases list.len(),
{
    let rest = list.drop_last();
    if list.len() > 0 && list.last().record.id == id {
        list.len() - 1
    } else {
        lemma_only_stored(rest, limits, id)
    }
}

proof fn lemma_distinct(list: Seq<StoredRecordView>, limits: RuntimeLimits, i: int, j: int)
    requires
        all_stored(list, limits) is Ok,
        0 <= i < j < list.len(),
    ensures
        list[i].record.id != list[j].record.id,
        !same_place(list[i].record.requested_path, list[j].record.requested_path),
        same_place(
            list[i].record.base.repository_root,
            list[j].record.base.repository_root,
        ) ==> list[i].record.branch != list[j].record.branch,
    decreases list.len(),
{
    let rest = list.drop_last();
    if j < rest.len() {
        lemma_distinct(rest, limits, i, j);
        assert(rest[i] == list[i] && rest[j] == list[j]);
    } else {
        lemma_all_stored(rest, limits, i);
        assert(rest[i] == list[i]);
        let records = all_stored(rest, limits)->Ok_0;
        assert(records.contains_key(list[i].record.id));
    }
}

/// A journal is read back whole or not at all: it has the version that is known, no more
/// records than may be kept, each of them in order, and no two with the same identity, place
/// or branch.
pub proof fn a_journal_is_read_back_whole(
    schema_version: u32,
    list: Seq<StoredRecordView>,
    limits: RuntimeLimits,
)
    requires
        loaded(schema_version, list, limits) is Ok,
    ensures
        schema_version == WORKTREE_REGISTRY_SCHEMA_VERSION,
        list.len() <= limits.max_worktree_registry_entries,
        ({
            let records = loaded(schema_version, list, limits)->Ok_0;
            &&& forall|i: int|
                0 <= i < list.len() ==> records.contains_key((#[trigger] list[i]).record.id)
                    && records[list[i].record.id] == list[i].record && record_refusal(
                    list[i].record,
                    list[i].resolved_path,
                    limits,
                ) is None
            &&& forall|id: WorktreeId| #[trigger]
                records.contains_key(id) ==> exists|i: int|
                    0 <= i < list.len() && (#[trigger] list[i]).record.id == id
        }),
        forall|i: int, j: int|
            0 <= i < j < list.len() ==> (#[trigger] list[i]).record.id != (
            #[trigger] list[j]).record.id && !same_place(
                list[i].record.requested_path,
                list[j].record.requested_path,
            ) && (same_place(
                list[i].record.base.repository_root,
                list[j].record.base.repository_root,
            ) ==> list[i].record.branch != list[j].record.branch),
{
    let records = loaded(schema_version, list, limits)->Ok_0;
    assert forall|i: int| 0 <= i < list.len() implies records.contains_key(
        (#[trigger] list[i]).record.id,
    ) && records[list[i].record.id] == list[i].record && record_refusal(
        list[i].record,
        list[i].resolved_path,
        limits,
    ) is None by {
        lemma_all_stored(list, limits, i);
    }
    assert forall|id: WorktreeId| #[trigger] records.contains_key(id) implies exists|i: int|
        0 <= i < list.len() && (#[trigger] list[i]).record.id == id by {
        let i = lemma_only_stored(list, limits, id);
        assert(list[i].record.id == id);
    }
    assert forall|i: int, j: int| 0 <= i < j < list.len() implies (#[trigger] list[i]).record.id
        != (#[trigger] list[j]).record.id && !same_place(
        list[i].record.requested_path,
        list[j].record.requested_path,
    ) && (same_place(
        list[i].record.base.repository_root,
        list[j].record.base.repository_root,
    ) ==> list[i].record.branch != list[j].record.branch) by {
        lemma_distinct(list, limits, i, j);
    }
}

/// A journal of another version, or with more records than may be kept, is refused for that.
pub proof fn other_journals_are_refused(
    schema_version: u32,
    list: Seq<StoredRecordView>,
    limits: RuntimeLimits,
)
    requires
        list.len() <= usize::MAX,
    ensures
        ({
            let r = loaded(schema_version, list, limits);
            &&& schema_version != WORKTREE_REGISTRY_SCHEMA_VERSION ==> r is Err && r->Err_0
                is UnsupportedSchema && r->Err_0->UnsupportedSchema_actual == schema_version
                && r->Err_0->supported == WORKTREE_REGISTRY_SCHEMA_VERSION
            &&& schema_version == WORKTREE_REGISTRY_SCHEMA_VERSION && list.len()
                > limits.max_worktree_registry_entries ==> r is Err && r->Err_0 is EntryLimit
                && r->Err_0->EntryLimit_attempted == list.len() && r->Err_0->EntryLimit_limit
                == limits.max_worktree_registry_entries
        }),
{
}

} // verus!
