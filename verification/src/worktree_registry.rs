//! The journal of worktrees that were planned or created.
use vstd::prelude::*;
use vstd::string::*;

use crate::ids::{ProjectId, WorktreeId};
use crate::keyed::{strictly_ordered, KeyMap, OrderedKey};
use crate::limits::RuntimeLimits;
use crate::paths::{is_within, path_within, same_path, same_place};
use crate::text::{byte_len, optional_view, same_text, sat_add_usize, text_bytes};
use crate::worktree::{
    CreatedWorktree, CreatedWorktreeView, WorktreeBaseSnapshot, WorktreeBaseView,
    WorktreeCreatePlan, WorktreePlanView, WorktreeRecoveryProbe,
};
use crate::worktree_registry_error::{RegistryErrorView, WorktreeRegistryError};

verus! {

/// Version of the shape of a stored journal.
pub const WORKTREE_REGISTRY_SCHEMA_VERSION: u32 = 1;

#[derive(Clone, Copy, Debug, PartialEq, Eq, Structural)]
pub enum WorktreeRecoveryState {
    Planned,
    Created,
}

#[derive(Debug, PartialEq, Eq)]
pub struct WorktreeRecoveryRecord {
    pub id: WorktreeId,
    pub project_id: ProjectId,
    pub base: WorktreeBaseSnapshot,
    pub branch: String,
    pub requested_path: String,
    pub created: Option<CreatedWorktree>,
}

/// Model of a [`WorktreeRecoveryRecord`].
pub struct RecoveryRecordView {
    pub id: WorktreeId,
    pub project_id: ProjectId,
    pub base: WorktreeBaseView,
    pub branch: Seq<char>,
    pub requested_path: Seq<char>,
    pub created: Option<CreatedWorktreeView>,
}

/// The model of an optional worktree.
pub open spec fn created_option(created: Option<CreatedWorktree>) -> Option<CreatedWorktreeView> {
    match created {
        Some(created) => Some(created@),
        None => None,
    }
}

impl View for WorktreeRecoveryRecord {
    type V = RecoveryRecordView;

    open spec fn view(&self) -> RecoveryRecordView {
        RecoveryRecordView {
            id: self.id,
            project_id: self.project_id,
            base: self.base@,
            branch: self.branch@,
            requested_path: self.requested_path@,
            created: created_option(self.created),
        }
    }
}

impl Clone for WorktreeRecoveryRecord {
    fn clone(&self) -> (r: Self)
        ensures
            r@ == self@,
    {
        WorktreeRecoveryRecord {
            id: self.id,
            project_id: self.project_id,
            base: self.base.clone(),
            branch: self.branch.clone(),
            requested_path: self.requested_path.clone(),
            created: match &self.created {
                Some(created) => Some(created.clone()),
                None => None,
            },
        }
    }
}

impl WorktreeRecoveryRecord {
    pub fn state(&self) -> (r: WorktreeRecoveryState)
        ensures
            r == (if self@.created is Some {
                WorktreeRecoveryState::Created
            } else {
                WorktreeRecoveryState::Planned
            }),
    {
        if self.created.is_some() {
            WorktreeRecoveryState::Created
        } else {
            WorktreeRecoveryState::Planned
        }
    }

    /// The plan that the record was made for.
    pub fn plan(&self) -> (r: WorktreeCreatePlan)
        ensures
            r@ == (WorktreePlanView {
                base: self@.base,
                branch: self@.branch,
                worktree_path: self@.requested_path,
            }),
    {
        WorktreeCreatePlan {
            base: self.base.clone(),
            branch: self.branch.clone(),
            worktree_path: self.requested_path.clone(),
        }
    }
}

/// What is wrong with the length of a path, if anything is.
pub open spec fn path_limit(path: Seq<char>, limits: RuntimeLimits) -> Option<RegistryErrorView> {
    if byte_len(path) > limits.max_worktree_path_bytes {
        Some(
            RegistryErrorView::PathTooLong {
                path,
                actual: byte_len(path) as usize,
                limit: limits.max_worktree_path_bytes,
            },
        )
    } else {
        None
    }
}

/// What is wrong with the name of a branch or commit, if anything is.
pub open spec fn ref_limit(value: Seq<char>, limits: RuntimeLimits) -> Option<RegistryErrorView> {
    if value.len() == 0 || byte_len(value) > limits.max_git_ref_bytes {
        Some(
            RegistryErrorView::GitRefTooLong {
                actual: byte_len(value) as usize,
                limit: limits.max_git_ref_bytes,
            },
        )
    } else {
        None
    }
}

/// The first of two errors.
pub open spec fn first_error(
    first: Option<RegistryErrorView>,
    second: Option<RegistryErrorView>,
) -> Option<RegistryErrorView> {
    if first is Some {
        first
    } else {
        second
    }
}

/// Whether a created worktree is the one that was planned. `resolved` is the path
/// of the plan as the file system resolves it, where it does.
pub open spec fn matches_plan(
    record: RecoveryRecordView,
    created: CreatedWorktreeView,
    resolved: Option<Seq<char>>,
) -> bool {
    let requested = match resolved {
        Some(path) => path,
        None => record.requested_path,
    };
    same_place(created.repository_root, record.base.repository_root) && created.branch
        == record.branch && created.base_commit == record.base.base_commit && same_place(
        requested,
        created.worktree_root,
    ) && path_within(created.execution_root, created.worktree_root)
}

/// What is wrong with the plan in a record, if anything is.
pub open spec fn plan_limits(record: RecoveryRecordView, limits: RuntimeLimits) -> Option<
    RegistryErrorView,
> {
    let paths = first_error(
        path_limit(record.base.repository_root, limits),
        first_error(
            path_limit(record.base.project_root, limits),
            first_error(
                path_limit(record.base.project_relative_path, limits),
                path_limit(record.requested_path, limits),
            ),
        ),
    );
    let source_branch = match record.base.source_branch {
        Some(branch) => ref_limit(branch, limits),
        None => None,
    };
    first_error(
        paths,
        first_error(
            ref_limit(record.base.base_commit, limits),
            first_error(source_branch, ref_limit(record.branch, limits)),
        ),
    )
}

/// What is wrong with the names of a created worktree, if anything is.
pub open spec fn created_limits(created: CreatedWorktreeView, limits: RuntimeLimits) -> Option<
    RegistryErrorView,
> {
    first_error(
        path_limit(created.repository_root, limits),
        first_error(
            path_limit(created.worktree_root, limits),
            first_error(
                path_limit(created.execution_root, limits),
                first_error(
                    ref_limit(created.branch, limits),
                    ref_limit(created.base_commit, limits),
                ),
            ),
        ),
    )
}

/// What is wrong with a record, if anything is.
pub open spec fn record_refusal(
    record: RecoveryRecordView,
    resolved: Option<Seq<char>>,
    limits: RuntimeLimits,
) -> Option<RegistryErrorView> {
    first_error(
        plan_limits(record, limits),
        match record.created {
            None => None,
            Some(created) => if !matches_plan(record, created, resolved) {
                Some(RegistryErrorView::CreatedIdentityMismatch { id: record.id })
            } else {
                created_limits(created, limits)
            },
        },
    )
}

/// Whether a result is the error that is due, or success where none is.
pub open spec fn refused_as(
    r: Result<(), WorktreeRegistryError>,
    error: Option<RegistryErrorView>,
) -> bool {
    match error {
        Some(error) => r is Err && r->Err_0@ == error,
        None => r is Ok,
    }
}

fn validate_path(path: &str, limits: RuntimeLimits) -> (r: Result<(), WorktreeRegistryError>)
    ensures
        refused_as(r, path_limit(path@, limits)),
{
    let actual: usize = text_bytes(path);
    if actual > limits.max_worktree_path_bytes {
        return Err(
            WorktreeRegistryError::PathTooLong {
                path: path.to_owned(),
                actual,
                limit: limits.max_worktree_path_bytes,
            },
        );
    }
    Ok(())
}

fn validate_ref(value: &str, limits: RuntimeLimits) -> (r: Result<(), WorktreeRegistryError>)
    ensures
        refused_as(r, ref_limit(value@, limits)),
{
    let actual: usize = text_bytes(value);
    if value.is_empty() || actual > limits.max_git_ref_bytes {
        return Err(
            WorktreeRegistryError::GitRefTooLong { actual, limit: limits.max_git_ref_bytes },
        );
    }
    Ok(())
}

fn validate_plan(record: &WorktreeRecoveryRecord, limits: RuntimeLimits) -> (r: Result<
    (),
    WorktreeRegistryError,
>)
    ensures
        refused_as(r, plan_limits(record@, limits)),
{
    match validate_path(record.base.repository_root.as_str(), limits) {
        Err(error) => {
            return Err(error);
        },
        Ok(_) => {},
    }
    match validate_path(record.base.project_root.as_str(), limits) {
        Err(error) => {
            return Err(error);
        },
        Ok(_) => {},
    }
    match validate_path(record.base.project_relative_path.as_str(), limits) {
        Err(error) => {
            return Err(error);
        },
        Ok(_) => {},
    }
    match validate_path(record.requested_path.as_str(), limits) {
        Err(error) => {
            return Err(error);
        },
        Ok(_) => {},
    }
    match validate_ref(record.base.base_commit.as_str(), limits) {
        Err(error) => {
            return Err(error);
        },
        Ok(_) => {},
    }
    match &record.base.source_branch {
        Some(branch) => match validate_ref(branch.as_str(), limits) {
            Err(error) => {
                return Err(error);
            },
            Ok(_) => {},
        },
        None => {},
    }
    validate_ref(record.branch.as_str(), limits)
}

fn validate_created(created: &CreatedWorktree, limits: RuntimeLimits) -> (r: Result<
    (),
    WorktreeRegistryError,
>)
    ensures
        refused_as(r, created_limits(created@, limits)),
{
    match validate_path(created.repository_root.as_str(), limits) {
        Err(error) => {
            return Err(error);
        },
        Ok(_) => {},
    }
    match validate_path(created.worktree_root.as_str(), limits) {
        Err(error) => {
            return Err(error);
        },
        Ok(_) => {},
    }
    match validate_path(created.execution_root.as_str(), limits) {
        Err(error) => {
            return Err(error);
        },
        Ok(_) => {},
    }
    match validate_ref(created.branch.as_str(), limits) {
        Err(error) => {
            return Err(error);
        },
        Ok(_) => {},
    }
    validate_ref(created.base_commit.as_str(), limits)
}

/// Whether a created worktree is the one that was planned.
pub fn created_matches_plan(
    record: &WorktreeRecoveryRecord,
    created: &CreatedWorktree,
    resolved: &Option<String>,
) -> (r: bool)
    ensures
        r == matches_plan(record@, created@, optional_view(*resolved)),
{
    let requested = match resolved {
        Some(path) => path.as_str(),
        None => record.requested_path.as_str(),
    };
    same_path(created.repository_root.as_str(), record.base.repository_root.as_str())
        && same_text(created.branch.as_str(), record.branch.as_str()) && same_text(
        created.base_commit.as_str(),
        record.base.base_commit.as_str(),
    ) && same_path(requested, created.worktree_root.as_str()) && is_within(
        created.execution_root.as_str(),
        created.worktree_root.as_str(),
    )
}

/// Refuses a record that is too long, or that names another worktree than the one
/// that was planned.
pub fn validate_record(
    record: &WorktreeRecoveryRecord,
    resolved: &Option<String>,
    limits: RuntimeLimits,
) -> (r: Result<(), WorktreeRegistryError>)
    ensures
        refused_as(r, record_refusal(record@, optional_view(*resolved), limits)),
{
    match validate_plan(record, limits) {
        Err(error) => {
            return Err(error);
        },
        Ok(_) => {},
    }
    match &record.created {
        None => Ok(()),
        Some(created) => {
            if !created_matches_plan(record, created, resolved) {
                return Err(WorktreeRegistryError::CreatedIdentityMismatch { id: record.id });
            }
            validate_created(created, limits)
        },
    }
}

/// The records of a journal, by identity.
pub type RecordMap = Map<WorktreeId, RecoveryRecordView>;

/// Whether a record asks for this path.
pub open spec fn takes_path(record: RecoveryRecordView, path: Seq<char>) -> bool {
    same_place(record.requested_path, path)
}

/// Whether a record asks for this branch of this repository.
pub open spec fn takes_branch(
    record: RecoveryRecordView,
    repository_root: Seq<char>,
    branch: Seq<char>,
) -> bool {
    same_place(record.base.repository_root, repository_root) && record.branch == branch
}

pub open spec fn path_taken(records: RecordMap, path: Seq<char>) -> bool {
    exists|id: WorktreeId| #[trigger] records.contains_key(id) && takes_path(records[id], path)
}

pub open spec fn branch_taken(
    records: RecordMap,
    repository_root: Seq<char>,
    branch: Seq<char>,
) -> bool {
    exists|id: WorktreeId| #[trigger]
        records.contains_key(id) && takes_branch(records[id], repository_root, branch)
}

/// Whether each record stands under its identity.
pub open spec fn keyed_by_id(records: RecordMap) -> bool {
    forall|id: WorktreeId| #[trigger] records.contains_key(id) ==> records[id].id == id
}

/// Whether no two records ask for the same path, or for the same branch of a
/// repository.
pub open spec fn all_distinct(records: RecordMap) -> bool {
    forall|a: WorktreeId, b: WorktreeId| #[trigger]
        records.contains_key(a) && #[trigger] records.contains_key(b) && a != b ==> !takes_path(
            records[a],
            records[b].requested_path,
        ) && !takes_branch(records[a], records[b].base.repository_root, records[b].branch)
}

/// The models of a list of records.
pub open spec fn record_views(records: Seq<WorktreeRecoveryRecord>) -> Seq<RecoveryRecordView> {
    records.map_values(|record: WorktreeRecoveryRecord| record@)
}

/// Whether a list holds the records of a journal, in the order of their
/// identities.
pub open spec fn lists_all(list: Seq<RecoveryRecordView>, records: RecordMap) -> bool {
    &&& forall|i: int|
        0 <= i < list.len() ==> records.contains_key((#[trigger] list[i]).id) && records[list[i].id]
            == list[i]
    &&& forall|i: int, j: int|
        0 <= i < j < list.len() ==> (#[trigger] list[i]).id.value < (#[trigger] list[j]).id.value
    &&& forall|id: WorktreeId| #[trigger]
        records.contains_key(id) ==> exists|i: int|
            0 <= i < list.len() && (#[trigger] list[i]).id == id
}

fn holder_of_path(map: &KeyMap<WorktreeId, WorktreeRecoveryRecord>, path: &str) -> (r: Option<
    WorktreeId,
>)
    ensures
        match r {
            Some(id) => map@.contains_key(id) && takes_path(map@[id], path@),
            None => !path_taken(map@, path@),
        },
{
    let n: usize = map.len();
    let mut i: usize = 0;
    while i < n
        invariant
            i <= n == map.key_models().len(),
            map@.dom() == map.key_models().to_set(),
            forall|k: int| 0 <= k < i ==> !takes_path(map@[#[trigger] map.key_models()[k]], path@),
        decreases n - i,
    {
        if same_path(map.value_at(i).requested_path.as_str(), path) {
            return Some(*map.key_at(i));
        }
        i += 1;
    }
    proof {
        assert forall|id: WorktreeId| #[trigger] map@.contains_key(id) implies !takes_path(
            map@[id],
            path@,
        ) by {
            assert(map.key_models().to_set().contains(id));
            let k = map.key_models().index_of(id);
            assert(map.key_models()[k] == id);
        }
    }
    None
}

fn holder_of_branch(
    map: &KeyMap<WorktreeId, WorktreeRecoveryRecord>,
    repository_root: &str,
    branch: &str,
) -> (r: Option<WorktreeId>)
    ensures
        match r {
            Some(id) => map@.contains_key(id) && takes_branch(
                map@[id],
                repository_root@,
                branch@,
            ),
            None => !branch_taken(map@, repository_root@, branch@),
        },
{
    let n: usize = map.len();
    let mut i: usize = 0;
    while i < n
        invariant
            i <= n == map.key_models().len(),
            map@.dom() == map.key_models().to_set(),
            forall|k: int|
                0 <= k < i ==> !takes_branch(
                    map@[#[trigger] map.key_models()[k]],
                    repository_root@,
                    branch@,
                ),
        decreases n - i,
    {
        let record = map.value_at(i);
        if same_path(record.base.repository_root.as_str(), repository_root) && same_text(
            record.branch.as_str(),
            branch,
        ) {
            return Some(*map.key_at(i));
        }
        i += 1;
    }
    proof {
        assert forall|id: WorktreeId| #[trigger] map@.contains_key(id) implies !takes_branch(
            map@[id],
            repository_root@,
            branch@,
        ) by {
            assert(map.key_models().to_set().contains(id));
            let k = map.key_models().index_of(id);
            assert(map.key_models()[k] == id);
        }
    }
    None
}

/// A record as it was read, with its path as the file system resolves it, where
/// it does.
#[derive(Debug, PartialEq, Eq)]
pub struct StoredRecord {
    pub record: WorktreeRecoveryRecord,
    pub resolved_path: Option<String>,
}

/// Model of a [`StoredRecord`].
pub struct StoredRecordView {
    pub record: RecoveryRecordView,
    pub resolved_path: Option<Seq<char>>,
}

impl View for StoredRecord {
    type V = StoredRecordView;

    open spec fn view(&self) -> StoredRecordView {
        StoredRecordView {
            record: self.record@,
            resolved_path: optional_view(self.resolved_path),
        }
    }
}

/// A journal as it was read.
#[derive(Debug, PartialEq, Eq)]
pub struct PersistedWorktreeRegistry {
    pub schema_version: u32,
    pub records: Vec<StoredRecord>,
}

/// The models of a list of stored records.
pub open spec fn stored_views(records: Seq<StoredRecord>) -> Seq<StoredRecordView> {
    records.map_values(|stored: StoredRecord| stored@)
}

/// The records with one more that was read, or what is wrong with it.
pub open spec fn with_stored(
    records: RecordMap,
    stored: StoredRecordView,
    limits: RuntimeLimits,
) -> Result<RecordMap, RegistryErrorView> {
    let record = stored.record;
    match record_refusal(record, stored.resolved_path, limits) {
        Some(error) => Err(error),
        None => if records.contains_key(record.id) {
            Err(RegistryErrorView::DuplicateRecoveryId { id: record.id })
        } else if path_taken(records, record.requested_path) {
            Err(RegistryErrorView::DuplicateRequestedPath { path: record.requested_path })
        } else if branch_taken(records, record.base.repository_root, record.branch) {
            Err(
                RegistryErrorView::DuplicateBranch {
                    repository: record.base.repository_root,
                    branch: record.branch,
                },
            )
        } else {
            Ok(records.insert(record.id, record))
        },
    }
}

/// The records that were read, or what is wrong with the first that is wrong.
pub open spec fn all_stored(list: Seq<StoredRecordView>, limits: RuntimeLimits) -> Result<
    RecordMap,
    RegistryErrorView,
>
    decreases list.len(),
{
    if list.len() == 0 {
        Ok(Map::empty())
    } else {
        match all_stored(list.drop_last(), limits) {
            Err(error) => Err(error),
            Ok(records) => with_stored(records, list.last(), limits),
        }
    }
}

/// The records of a journal that was read, or what is wrong with it.
pub open spec fn loaded(
    schema_version: u32,
    list: Seq<StoredRecordView>,
    limits: RuntimeLimits,
) -> Result<RecordMap, RegistryErrorView> {
    if schema_version != WORKTREE_REGISTRY_SCHEMA_VERSION {
        Err(
            RegistryErrorView::UnsupportedSchema {
                actual: schema_version,
                supported: WORKTREE_REGISTRY_SCHEMA_VERSION,
            },
        )
    } else if list.len() > limits.max_worktree_registry_entries {
        Err(
            RegistryErrorView::EntryLimit {
                attempted: list.len() as usize,
                limit: limits.max_worktree_registry_entries,
            },
        )
    } else {
        all_stored(list, limits)
    }
}

proof fn lemma_insert_keeps_order(records: RecordMap, record: RecoveryRecordView)
    requires
        keyed_by_id(records),
        all_distinct(records),
        !path_taken(records, record.requested_path),
        !branch_taken(records, record.base.repository_root, record.branch),
    ensures
        keyed_by_id(records.insert(record.id, record)),
        all_distinct(records.insert(record.id, record)),
{
    let after = records.insert(record.id, record);
    assert forall|a: WorktreeId, b: WorktreeId| #[trigger]
        after.contains_key(a) && #[trigger] after.contains_key(b) && a != b implies !takes_path(
        after[a],
        after[b].requested_path,
    ) && !takes_branch(after[a], after[b].base.repository_root, after[b].branch) by {
        if a == record.id {
            assert(records.contains_key(b));
            assert(!takes_path(records[b], record.requested_path));
            assert(!takes_branch(records[b], record.base.repository_root, record.branch));
        } else if b == record.id {
            assert(records.contains_key(a));
        } else {
            assert(records.contains_key(a));
            assert(records.contains_key(b));
        }
    }
    assert forall|id: WorktreeId| #[trigger] after.contains_key(id) implies after[id].id == id by {
        if id != record.id {
            assert(records.contains_key(id));
        }
    }
}

/// Reads the records of a journal.
fn load(schema_version: u32, records: Vec<StoredRecord>, limits: RuntimeLimits) -> (r: Result<
    KeyMap<WorktreeId, WorktreeRecoveryRecord>,
    WorktreeRegistryError,
>)
    ensures
        match loaded(schema_version, stored_views(records@), limits) {
            Ok(map) => r is Ok && r->Ok_0@ == map && keyed_by_id(map) && all_distinct(map),
            Err(error) => r is Err && r->Err_0@ == error,
        },
{
    if schema_version != WORKTREE_REGISTRY_SCHEMA_VERSION {
        return Err(
            WorktreeRegistryError::UnsupportedSchema {
                actual: schema_version,
                supported: WORKTREE_REGISTRY_SCHEMA_VERSION,
            },
        );
    }
    if records.len() > limits.max_worktree_registry_entries {
        return Err(
            WorktreeRegistryError::EntryLimit {
                attempted: records.len(),
                limit: limits.max_worktree_registry_entries,
            },
        );
    }
    let ghost list = stored_views(records@);
    let mut map: KeyMap<WorktreeId, WorktreeRecoveryRecord> = KeyMap::new();
    let mut i: usize = 0;
    assert(list.take(0) =~= Seq::<StoredRecordView>::empty());
    while i < records.len()
        invariant
            i <= records@.len(),
            list == stored_views(records@),
            schema_version == WORKTREE_REGISTRY_SCHEMA_VERSION,
            records@.len() <= limits.max_worktree_registry_entries,
            all_stored(list.take(i as int), limits) == Ok::<RecordMap, RegistryErrorView>(map@),
            keyed_by_id(map@),
            all_distinct(map@),
        decreases records@.len() - i,
    {
        let stored = &records[i];
        let record = &stored.record;
        assert(list.take(i + 1).drop_last() =~= list.take(i as int));
        assert(list.take(i + 1).last() == stored@);
        let refused: Option<WorktreeRegistryError> = match validate_record(
            record,
            &stored.resolved_path,
            limits,
        ) {
            Err(error) => Some(error),
            Ok(_) => {
                if map.contains_key(&record.id) {
                    Some(WorktreeRegistryError::DuplicateRecoveryId { id: record.id })
                } else if holder_of_path(&map, record.requested_path.as_str()).is_some() {
                    Some(
                        WorktreeRegistryError::DuplicateRequestedPath {
                            path: record.requested_path.clone(),
                        },
                    )
                } else if holder_of_branch(
                    &map,
                    record.base.repository_root.as_str(),
                    record.branch.as_str(),
                ).is_some() {
                    Some(
                        WorktreeRegistryError::DuplicateBranch {
                            repository: record.base.repository_root.clone(),
                            branch: record.branch.clone(),
                        },
                    )
                } else {
                    None
                }
            },
        };
        match refused {
            Some(error) => {
                proof {
                    lemma_stored_error(list, limits, i + 1, error@);
                }
                return Err(error);
            },
            None => {},
        }
        proof {
            lemma_insert_keeps_order(map@, record@);
        }
        map.insert(record.id, record.clone());
        i += 1;
    }
    assert(list.take(i as int) =~= list);
    Ok(map)
}

proof fn lemma_stored_error(
    list: Seq<StoredRecordView>,
    limits: RuntimeLimits,
    n: int,
    error: RegistryErrorView,
)
    requires
        0 <= n <= list.len(),
        all_stored(list.take(n), limits) == Err::<RecordMap, RegistryErrorView>(error),
    ensures
        all_stored(list, limits) == Err::<RecordMap, RegistryErrorView>(error),
    decreases list.len() - n,
{
    if n == list.len() {
        assert(list.take(n) =~= list);
    } else {
        assert(list.take(n + 1).drop_last() =~= list.take(n));
        lemma_stored_error(list, limits, n + 1, error);
    }
}

/// Model of a [`WorktreeRegistry`].
pub struct RegistryView {
    pub records: RecordMap,
    pub limits: RuntimeLimits,
    pub recovery_notice: Option<Seq<char>>,
}

/// Journal of the worktrees that were planned or created. A plan is stored before
/// Git is asked to change anything: after a crash it is enough to look for the
/// branch and the path. The journal itself removes nothing from Git.
#[derive(Debug)]
pub struct WorktreeRegistry {
    limits: RuntimeLimits,
    by_id: KeyMap<WorktreeId, WorktreeRecoveryRecord>,
    recovery_notice: Option<String>,
}

impl View for WorktreeRegistry {
    type V = RegistryView;

    closed spec fn view(&self) -> RegistryView {
        RegistryView {
            records: self.by_id@,
            limits: self.limits,
            recovery_notice: optional_view(self.recovery_notice),
        }
    }
}

/// What a journal holds after it was opened, and what has to be put aside first.
#[derive(Debug)]
pub struct OpenedRegistry {
    pub registry: WorktreeRegistry,
    /// Why the stored journal has to be put aside, if it has to be.
    pub quarantine: Option<WorktreeRegistryError>,
}

impl RegistryView {
    pub open spec fn empty(limits: RuntimeLimits) -> Self {
        RegistryView { records: Map::empty(), limits, recovery_notice: None }
    }

    /// The record of a new plan.
    pub open spec fn planned(
        id: WorktreeId,
        project_id: ProjectId,
        plan: WorktreePlanView,
    ) -> RecoveryRecordView {
        RecoveryRecordView {
            id,
            project_id,
            base: plan.base,
            branch: plan.branch,
            requested_path: plan.worktree_path,
            created: None,
        }
    }

    pub open spec fn with_record(self, record: RecoveryRecordView) -> Self {
        RegistryView { records: self.records.insert(record.id, record), ..self }
    }

    pub open spec fn without_record(self, id: WorktreeId) -> Self {
        RegistryView { records: self.records.remove(id), ..self }
    }

    /// Whether an error refuses a new plan.
    pub open spec fn refuses_plan(
        self,
        id: WorktreeId,
        project_id: ProjectId,
        plan: WorktreePlanView,
        error: RegistryErrorView,
    ) -> bool {
        let conflict = path_taken(self.records, plan.worktree_path) || branch_taken(
            self.records,
            plan.base.repository_root,
            plan.branch,
        );
        if self.records.dom().len() >= self.limits.max_worktree_registry_entries {
            error == (RegistryErrorView::EntryLimit {
                attempted: sat_add_usize(self.records.dom().len() as usize, 1),
                limit: self.limits.max_worktree_registry_entries,
            })
        } else if conflict {
            error is RecoveryConflict && self.records.contains_key(
                error->RecoveryConflict_existing_id,
            ) && {
                let held = self.records[error->RecoveryConflict_existing_id];
                takes_path(held, plan.worktree_path) || takes_branch(
                    held,
                    plan.base.repository_root,
                    plan.branch,
                )
            }
        } else if self.records.contains_key(id) {
            error == (RegistryErrorView::DuplicateRecoveryId { id })
        } else {
            Some(error) == record_refusal(Self::planned(id, project_id, plan), None, self.limits)
        }
    }

    /// Whether a new plan can be recorded.
    pub open spec fn accepts_plan(
        self,
        id: WorktreeId,
        project_id: ProjectId,
        plan: WorktreePlanView,
    ) -> bool {
        self.records.dom().len() < self.limits.max_worktree_registry_entries && !path_taken(
            self.records,
            plan.worktree_path,
        ) && !branch_taken(self.records, plan.base.repository_root, plan.branch)
            && !self.records.contains_key(id) && record_refusal(
            Self::planned(id, project_id, plan),
            None,
            self.limits,
        ) is None
    }

    /// The record of `id` with its created worktree.
    pub open spec fn completed(
        self,
        id: WorktreeId,
        created: CreatedWorktreeView,
    ) -> RecoveryRecordView {
        RecoveryRecordView { created: Some(created), ..self.records[id] }
    }

    /// What stands against recording a created worktree, if anything does.
    pub open spec fn created_refusal(
        self,
        id: WorktreeId,
        created: CreatedWorktreeView,
        resolved: Option<Seq<char>>,
    ) -> Option<RegistryErrorView> {
        if !self.records.contains_key(id) {
            Some(RegistryErrorView::UnknownRecovery { id })
        } else if !matches_plan(self.records[id], created, resolved) {
            Some(RegistryErrorView::CreatedIdentityMismatch { id })
        } else {
            record_refusal(self.completed(id, created), resolved, self.limits)
        }
    }
}

/// Whether storing was tried with this list, and came to this.
pub open spec fn stored_as<F: FnOnce(&Vec<WorktreeRecoveryRecord>) -> Result<
    (),
    WorktreeRegistryError,
>>(
    persist: F,
    list: Vec<WorktreeRecoveryRecord>,
    outcome: Result<(), WorktreeRegistryError>,
) -> bool {
    call_ensures(persist, (&list,), outcome)
}

impl WorktreeRegistry {
    #[verifier::type_invariant]
    closed spec fn wf(&self) -> bool {
        keyed_by_id(self.by_id@) && all_distinct(self.by_id@)
    }

    /// A journal that is stored nowhere.
    pub fn ephemeral(limits: RuntimeLimits) -> (r: Self)
        ensures
            r@ == RegistryView::empty(limits),
    {
        WorktreeRegistry { limits, by_id: KeyMap::new(), recovery_notice: None }
    }

    /// Opens a journal. `stored` is what was read: nothing where there is no file.
    /// A journal that is itself at fault is put aside, and an empty one that says
    /// why takes its place; other errors are passed on.
    pub fn open(
        limits: RuntimeLimits,
        stored: Result<Option<PersistedWorktreeRegistry>, WorktreeRegistryError>,
    ) -> (r: Result<OpenedRegistry, WorktreeRegistryError>)
        ensures
            ({
                let read = match stored {
                    Err(error) => Err(error@),
                    Ok(None) => Ok(Map::empty()),
                    Ok(Some(journal)) => loaded(
                        journal.schema_version,
                        stored_views(journal.records@),
                        limits,
                    ),
                };
                match read {
                    Ok(records) => r is Ok && r->Ok_0.quarantine is None && r->Ok_0.registry@ == (
                    RegistryView { records, ..RegistryView::empty(limits) }),
                    Err(error) => if error.corrupt() {
                        r is Ok && r->Ok_0.quarantine is Some && r->Ok_0.quarantine->0@ == error
                            && r->Ok_0.registry@ == (RegistryView {
                            recovery_notice: Some(error.message()),
                            ..RegistryView::empty(limits)
                        })
                    } else {
                        r is Err && r->Err_0@ == error
                    },
                }
            }),
    {
        let read = match stored {
            Err(error) => Err(error),
            Ok(None) => Ok(KeyMap::new()),
            Ok(Some(journal)) => load(journal.schema_version, journal.records, limits),
        };
        match read {
            Ok(by_id) => Ok(
                OpenedRegistry {
                    registry: WorktreeRegistry { limits, by_id, recovery_notice: None },
                    quarantine: None,
                },
            ),
            Err(error) => {
                if error.is_recoverable_corruption() {
                    let notice = error.message();
                    Ok(
                        OpenedRegistry {
                            registry: WorktreeRegistry {
                                limits,
                                by_id: KeyMap::new(),
                                recovery_notice: Some(notice),
                            },
                            quarantine: Some(error),
                        },
                    )
                } else {
                    Err(error)
                }
            },
        }
    }

    /// Why the stored journal was put aside, if it was.
    pub fn recovery_notice(&self) -> (r: Option<&str>)
        ensures
            match r {
                Some(notice) => self@.recovery_notice == Some(notice@),
                None => self@.recovery_notice is None,
            },
    {
        match &self.recovery_notice {
            Some(notice) => Some(notice.as_str()),
            None => None,
        }
    }

    pub fn get(&self, id: WorktreeId) -> (r: Option<&WorktreeRecoveryRecord>)
        ensures
            match r {
                Some(record) => self@.records.contains_key(id) && record@ == self@.records[id],
                None => !self@.records.contains_key(id),
            },
    {
        self.by_id.get(&id)
    }

    /// The records in the order of their identities. No two ask for the same path,
    /// or for the same branch of a repository.
    pub fn records(&self) -> (r: Vec<WorktreeRecoveryRecord>)
        ensures
            lists_all(record_views(r@), self@.records),
            keyed_by_id(self@.records),
            all_distinct(self@.records),
            r@.len() == self@.records.dom().len(),
    {
        proof {
            use_type_invariant(self);
        }
        let n: usize = self.by_id.len();
        let mut r: Vec<WorktreeRecoveryRecord> = Vec::new();
        let mut i: usize = 0;
        while i < n
            invariant
                i <= n == self.by_id.key_models().len(),
                strictly_ordered::<WorktreeId>(self.by_id.key_models()),
                self.by_id@.dom() == self.by_id.key_models().to_set(),
                keyed_by_id(self.by_id@),
                r@.len() == i,
                forall|k: int|
                    0 <= k < i ==> (#[trigger] r@[k])@
                        == self.by_id@[self.by_id.key_models()[k]] && r@[k]@.id
                        == self.by_id.key_models()[k],
            decreases n - i,
        {
            let record = self.by_id.value_at(i).clone();
            assert(record@.id == self.by_id.key_models()[i as int]);
            r.push(record);
            i += 1;
        }
        proof {
            let list = record_views(r@);
            let keys = self.by_id.key_models();
            assert forall|k: int| 0 <= k < list.len() implies self.by_id@.contains_key(
                (#[trigger] list[k]).id,
            ) && self.by_id@[list[k].id] == list[k] by {
                assert(list[k] == r@[k]@);
                assert(keys.to_set().contains(keys[k]));
            }
            assert forall|a: int, b: int| 0 <= a < b < list.len() implies (
            #[trigger] list[a]).id.value < (#[trigger] list[b]).id.value by {
                assert(list[a] == r@[a]@);
                assert(list[b] == r@[b]@);
                assert(<WorktreeId as OrderedKey>::before(keys[a], keys[b]));
            }
            assert forall|id: WorktreeId| #[trigger] self.by_id@.contains_key(id) implies exists|
                k: int,
            |
                0 <= k < list.len() && (#[trigger] list[k]).id == id by {
                assert(keys.to_set().contains(id));
                let k = keys.index_of(id);
                assert(keys[k] == id);
                assert(list[k] == r@[k]@);
            }
        }
        r
    }

    /// Records a plan under a new identity. The plan is stored with all other
    /// records first; where that fails, the journal stays as it is.
    pub fn begin_creation<F: FnOnce(&Vec<WorktreeRecoveryRecord>) -> Result<
        (),
        WorktreeRegistryError,
    >>(
        &mut self,
        id: WorktreeId,
        project_id: ProjectId,
        plan: &WorktreeCreatePlan,
        persist: F,
    ) -> (r: Result<WorktreeRecoveryRecord, WorktreeRegistryError>)
        requires
            forall|list: Vec<WorktreeRecoveryRecord>| #[trigger] call_requires(persist, (&list,)),
        ensures
            if old(self)@.accepts_plan(id, project_id, plan@) {
                let record = RegistryView::planned(id, project_id, plan@);
                exists|list: Vec<WorktreeRecoveryRecord>, outcome: Result<(), WorktreeRegistryError>|
                    {
                        &&& #[trigger] stored_as(persist, list, outcome)
                        &&& record_views(list@).len() > 0
                        &&& record_views(list@).last() == record
                        &&& lists_all(record_views(list@).drop_last(), old(self)@.records)
                        &&& match outcome {
                            Ok(_) => r is Ok && r->Ok_0@ == record && final(self)@
                                == old(self)@.with_record(record),
                            Err(error) => r == Err::<WorktreeRecoveryRecord, WorktreeRegistryError>(
                                error,
                            ) && final(self)@ == old(self)@,
                        }
                    }
            } else {
                r is Err && old(self)@.refuses_plan(id, project_id, plan@, r->Err_0@) && final(self)@ == old(self)@
            },
    {
        proof {
            use_type_invariant(&*self);
        }
        let count: usize = self.by_id.len();
        if count >= self.limits.max_worktree_registry_entries {
            return Err(
                WorktreeRegistryError::EntryLimit {
                    attempted: count.saturating_add(1),
                    limit: self.limits.max_worktree_registry_entries,
                },
            );
        }
        match holder_of_path(&self.by_id, plan.worktree_path.as_str()) {
            Some(existing_id) => {
                assert(path_taken(self.by_id@, plan@.worktree_path));
                return Err(WorktreeRegistryError::RecoveryConflict { existing_id });
            },
            None => {},
        }
        match holder_of_branch(
            &self.by_id,
            plan.base.repository_root.as_str(),
            plan.branch.as_str(),
        ) {
            Some(existing_id) => {
                assert(branch_taken(self.by_id@, plan@.base.repository_root, plan@.branch));
                return Err(WorktreeRegistryError::RecoveryConflict { existing_id });
            },
            None => {},
        }
        if self.by_id.contains_key(&id) {
            return Err(WorktreeRegistryError::DuplicateRecoveryId { id });
        }
        let record = WorktreeRecoveryRecord {
            id,
            project_id,
            base: plan.base.clone(),
            branch: plan.branch.clone(),
            requested_path: plan.worktree_path.clone(),
            created: None,
        };
        match validate_record(&record, &None, self.limits) {
            Err(error) => {
                return Err(error);
            },
            Ok(_) => {},
        }
        let mut next = self.records();
        let ghost before = record_views(next@);
        next.push(record.clone());
        assert(record_views(next@) =~= before.push(record@));
        assert(record_views(next@).drop_last() =~= before);
        let outcome = persist(&next);
        assert(stored_as(persist, next, outcome));
        match outcome {
            Err(error) => Err(error),
            Ok(_) => {
                proof {
                    lemma_insert_keeps_order(self.by_id@, record@);
                }
                self.put(record.clone());
                Ok(record)
            },
        }
    }

    fn put(&mut self, record: WorktreeRecoveryRecord)
        requires
            keyed_by_id(old(self)@.records.insert(record.id, record@)),
            all_distinct(old(self)@.records.insert(record.id, record@)),
        ensures
            final(self)@ == old(self)@.with_record(record@),
    {
        let mut by_id: KeyMap<WorktreeId, WorktreeRecoveryRecord> = KeyMap::new();
        core::mem::swap(&mut by_id, &mut self.by_id);
        by_id.insert(record.id, record);
        self.by_id = by_id;
    }

    fn drop_record(&mut self, id: WorktreeId)
        ensures
            final(self)@ == old(self)@.without_record(id),
    {
        proof {
            use_type_invariant(&*self);
        }
        let ghost records = self.by_id@;
        let mut by_id: KeyMap<WorktreeId, WorktreeRecoveryRecord> = KeyMap::new();
        core::mem::swap(&mut by_id, &mut self.by_id);
        let _ = by_id.remove(&id);
        proof {
            lemma_remove_keeps_order(records, id);
        }
        self.by_id = by_id;
    }

    /// The records with `record` in place of the one of its identity.
    fn list_with(&self, record: &WorktreeRecoveryRecord) -> (r: Vec<WorktreeRecoveryRecord>)
        requires
            self@.records.contains_key(record.id),
        ensures
            lists_all(record_views(r@), self@.with_record(record@).records),
    {
        let all = self.records();
        let ghost list = record_views(all@);
        let mut r: Vec<WorktreeRecoveryRecord> = Vec::new();
        let mut i: usize = 0;
        while i < all.len()
            invariant
                i <= all@.len(),
                list == record_views(all@),
                r@.len() == i,
                forall|k: int|
                    0 <= k < i ==> (#[trigger] r@[k])@ == (if list[k].id == record.id {
                        record@
                    } else {
                        list[k]
                    }),
            decreases all@.len() - i,
        {
            if all[i].id.value == record.id.value {
                r.push(record.clone());
            } else {
                r.push(all[i].clone());
            }
            i += 1;
        }
        proof {
            let after = record_views(r@);
            let records = self@.with_record(record@).records;
            assert forall|k: int| 0 <= k < after.len() implies records.contains_key(
                (#[trigger] after[k]).id,
            ) && records[after[k].id] == after[k] by {
                assert(after[k] == r@[k]@);
                assert(self@.records.contains_key(list[k].id));
            }
            assert forall|a: int, b: int| 0 <= a < b < after.len() implies (
            #[trigger] after[a]).id.value < (#[trigger] after[b]).id.value by {
                assert(after[a] == r@[a]@);
                assert(after[b] == r@[b]@);
                assert(list[a].id.value < list[b].id.value);
            }
            assert forall|id: WorktreeId| #[trigger] records.contains_key(id) implies exists|k: int|
                0 <= k < after.len() && (#[trigger] after[k]).id == id by {
                assert(self@.records.contains_key(id));
                let k = choose|k: int| 0 <= k < list.len() && (#[trigger] list[k]).id == id;
                assert(after[k] == r@[k]@);
            }
        }
        r
    }

    /// The records but the one of `id`.
    fn list_without(&self, id: WorktreeId) -> (r: Vec<WorktreeRecoveryRecord>)
        ensures
            lists_all(record_views(r@), self@.without_record(id).records),
    {
        let all = self.records();
        let ghost list = record_views(all@);
        let ghost records = self@.without_record(id).records;
        let mut r: Vec<WorktreeRecoveryRecord> = Vec::new();
        let mut i: usize = 0;
        while i < all.len()
            invariant
                i <= all@.len(),
                list == record_views(all@),
                lists_all(list, self@.records),
                records == self@.without_record(id).records,
                forall|k: int|
                    0 <= k < r@.len() ==> records.contains_key((#[trigger] r@[k])@.id)
                        && records[r@[k]@.id] == r@[k]@ && (i < list.len() ==> r@[k]@.id.value
                        < list[i as int].id.value),
                forall|a: int, b: int|
                    0 <= a < b < r@.len() ==> (#[trigger] r@[a])@.id.value < (
                    #[trigger] r@[b])@.id.value,
                forall|k: int|
                    0 <= k < i && list[k].id != id ==> exists|m: int|
                        0 <= m < r@.len() && (#[trigger] r@[m])@.id == (#[trigger] list[k]).id,
            decreases all@.len() - i,
        {
            let ghost before = r@;
            assert(list[i as int] == all@[i as int]@);
            if all[i].id.value != id.value {
                assert(self@.records.contains_key(list[i as int].id));
                let kept = all[i].clone();
                assert(records.contains_key(kept@.id));
                r.push(kept);
                assert forall|k: int| 0 <= k < i + 1 && list[k].id != id implies exists|m: int|
                    0 <= m < r@.len() && (#[trigger] r@[m])@.id == (#[trigger] list[k]).id by {
                    if k < i {
                        let m = choose|m: int|
                            0 <= m < before.len() && (#[trigger] before[m])@.id == list[k].id;
                        assert(r@[m] == before[m]);
                    } else {
                        assert(r@[before.len() as int]@.id == list[k].id);
                    }
                }
            }
            assert(i + 1 < list.len() ==> list[i as int].id.value < list[i + 1].id.value);
            i += 1;
        }
        proof {
            let after = record_views(r@);
            assert forall|k: int| 0 <= k < after.len() implies records.contains_key(
                (#[trigger] after[k]).id,
            ) && records[after[k].id] == after[k] by {
                assert(after[k] == r@[k]@);
            }
            assert forall|a: int, b: int| 0 <= a < b < after.len() implies (
            #[trigger] after[a]).id.value < (#[trigger] after[b]).id.value by {
                assert(after[a] == r@[a]@);
                assert(after[b] == r@[b]@);
            }
            assert forall|key: WorktreeId| #[trigger] records.contains_key(key) implies exists|
                k: int,
            |
                0 <= k < after.len() && (#[trigger] after[k]).id == key by {
                assert(self@.records.contains_key(key));
                let k = choose|k: int| 0 <= k < list.len() && (#[trigger] list[k]).id == key;
                let m = choose|m: int|
                    0 <= m < r@.len() && (#[trigger] r@[m])@.id == list[k].id;
                assert(after[m] == r@[m]@);
            }
        }
        r
    }

    /// Records that a planned worktree was created. `resolved` is the path of the
    /// plan as the file system resolves it, where it does. The record is stored
    /// with all others first; where that fails, the journal stays as it is.
    pub fn mark_created<F: FnOnce(&Vec<WorktreeRecoveryRecord>) -> Result<
        (),
        WorktreeRegistryError,
    >>(
        &mut self,
        id: WorktreeId,
        created: CreatedWorktree,
        resolved: Option<String>,
        persist: F,
    ) -> (r: Result<WorktreeRecoveryRecord, WorktreeRegistryError>)
        requires
            forall|list: Vec<WorktreeRecoveryRecord>| #[trigger] call_requires(persist, (&list,)),
        ensures
            match old(self)@.created_refusal(id, created@, optional_view(resolved)) {
                Some(error) => r is Err && r->Err_0@ == error && final(self)@ == old(self)@,
                None => {
                    let record = old(self)@.completed(id, created@);
                    exists|
                        list: Vec<WorktreeRecoveryRecord>,
                        outcome: Result<(), WorktreeRegistryError>,
                    |
                        {
                            &&& #[trigger] stored_as(persist, list, outcome)
                            &&& lists_all(
                                record_views(list@),
                                old(self)@.with_record(record).records,
                            )
                            &&& match outcome {
                                Ok(_) => r is Ok && r->Ok_0@ == record && final(self)@
                                    == old(self)@.with_record(record),
                                Err(error) => r == Err::<
                                    WorktreeRecoveryRecord,
                                    WorktreeRegistryError,
                                >(error) && final(self)@ == old(self)@,
                            }
                        }
                },
            },
    {
        proof {
            use_type_invariant(&*self);
        }
        let ghost records = self.by_id@;
        let mut updated = match self.by_id.get(&id) {
            Some(current) => current.clone(),
            None => {
                return Err(WorktreeRegistryError::UnknownRecovery { id });
            },
        };
        if !created_matches_plan(&updated, &created, &resolved) {
            return Err(WorktreeRegistryError::CreatedIdentityMismatch { id });
        }
        updated.created = Some(created);
        match validate_record(&updated, &resolved, self.limits) {
            Err(error) => {
                return Err(error);
            },
            Ok(_) => {},
        }
        let next = self.list_with(&updated);
        let outcome = persist(&next);
        assert(stored_as(persist, next, outcome));
        match outcome {
            Err(error) => Err(error),
            Ok(_) => {
                proof {
                    lemma_replace_keeps_order(records, updated@);
                }
                self.put(updated.clone());
                Ok(updated)
            },
        }
    }

    /// Drops a plan that the caller has proven to have changed nothing in Git. The
    /// record of a created worktree is not dropped here.
    pub fn discard_unmutated_plan<F: FnOnce(&Vec<WorktreeRecoveryRecord>) -> Result<
        (),
        WorktreeRegistryError,
    >>(&mut self, id: WorktreeId, persist: F) -> (r: Result<(), WorktreeRegistryError>)
        requires
            forall|list: Vec<WorktreeRecoveryRecord>| #[trigger] call_requires(persist, (&list,)),
        ensures
            if !old(self)@.records.contains_key(id) {
                r is Err && r->Err_0@ == (RegistryErrorView::UnknownRecovery { id }) && final(self)@
                    == old(self)@
            } else if old(self)@.records[id].created is Some {
                r is Err && r->Err_0@ == (RegistryErrorView::CannotDiscardCreated { id })
                    && final(self)@ == old(self)@
            } else {
                Self::dropped(old(self)@, final(self)@, id, persist, r)
            },
    {
        match self.by_id.get(&id) {
            None => {
                return Err(WorktreeRegistryError::UnknownRecovery { id });
            },
            Some(current) => {
                if current.created.is_some() {
                    return Err(WorktreeRegistryError::CannotDiscardCreated { id });
                }
            },
        }
        self.discard(id, persist)
    }

    /// Whether the record of `id` was dropped once the others were stored, or
    /// nothing was changed where that failed.
    pub open spec fn dropped<F: FnOnce(&Vec<WorktreeRecoveryRecord>) -> Result<
        (),
        WorktreeRegistryError,
    >>(
        before: RegistryView,
        after: RegistryView,
        id: WorktreeId,
        persist: F,
        r: Result<(), WorktreeRegistryError>,
    ) -> bool {
        exists|list: Vec<WorktreeRecoveryRecord>| {
            &&& #[trigger] stored_as(persist, list, r)
            &&& lists_all(record_views(list@), before.without_record(id).records)
            &&& after == (if r is Ok {
                before.without_record(id)
            } else {
                before
            })
        }
    }

    fn discard<F: FnOnce(&Vec<WorktreeRecoveryRecord>) -> Result<(), WorktreeRegistryError>>(
        &mut self,
        id: WorktreeId,
        persist: F,
    ) -> (r: Result<(), WorktreeRegistryError>)
        requires
            forall|list: Vec<WorktreeRecoveryRecord>| #[trigger] call_requires(persist, (&list,)),
        ensures
            Self::dropped(old(self)@, final(self)@, id, persist, r),
    {
        let next = self.list_without(id);
        let outcome = persist(&next);
        assert(stored_as(persist, next, outcome));
        if outcome.is_ok() {
            self.drop_record(id);
        }
        outcome
    }

    /// Drops a record only where a fresh probe has found neither the branch nor
    /// the path.
    pub fn discard_proven_absent<F: FnOnce(&Vec<WorktreeRecoveryRecord>) -> Result<
        (),
        WorktreeRegistryError,
    >>(&mut self, id: WorktreeId, proof_of_absence: &WorktreeRecoveryProbe, persist: F) -> (r: Result<
        (),
        WorktreeRegistryError,
    >)
        requires
            forall|list: Vec<WorktreeRecoveryRecord>| #[trigger] call_requires(persist, (&list,)),
        ensures
            if !(proof_of_absence is NotCreated) {
                r is Err && r->Err_0@ == (RegistryErrorView::RecoveryStillPresent { id })
                    && final(self)@ == old(self)@
            } else if !old(self)@.records.contains_key(id) {
                r is Err && r->Err_0@ == (RegistryErrorView::UnknownRecovery { id }) && final(self)@
                    == old(self)@
            } else {
                Self::dropped(old(self)@, final(self)@, id, persist, r)
            },
    {
        match proof_of_absence {
            WorktreeRecoveryProbe::NotCreated => {},
            _ => {
                return Err(WorktreeRegistryError::RecoveryStillPresent { id });
            },
        }
        if !self.by_id.contains_key(&id) {
            return Err(WorktreeRegistryError::UnknownRecovery { id });
        }
        self.discard(id, persist)
    }
}

proof fn lemma_remove_keeps_order(records: RecordMap, id: WorktreeId)
    requires
        keyed_by_id(records),
        all_distinct(records),
    ensures
        keyed_by_id(records.remove(id)),
        all_distinct(records.remove(id)),
{
    let after = records.remove(id);
    assert forall|a: WorktreeId, b: WorktreeId| #[trigger]
        after.contains_key(a) && #[trigger] after.contains_key(b) && a != b implies !takes_path(
        after[a],
        after[b].requested_path,
    ) && !takes_branch(after[a], after[b].base.repository_root, after[b].branch) by {
        assert(records.contains_key(a) && records.contains_key(b));
    }
    assert forall|key: WorktreeId| #[trigger] after.contains_key(key) implies after[key].id
        == key by {
        assert(records.contains_key(key));
    }
}

proof fn lemma_replace_keeps_order(records: RecordMap, record: RecoveryRecordView)
    requires
        keyed_by_id(records),
        all_distinct(records),
        records.contains_key(record.id),
        record.base == records[record.id].base,
        record.branch == records[record.id].branch,
        record.requested_path == records[record.id].requested_path,
    ensures
        keyed_by_id(records.insert(record.id, record)),
        all_distinct(records.insert(record.id, record)),
{
    let after = records.insert(record.id, record);
    assert forall|a: WorktreeId, b: WorktreeId| #[trigger]
        after.contains_key(a) && #[trigger] after.contains_key(b) && a != b implies !takes_path(
        after[a],
        after[b].requested_path,
    ) && !takes_branch(after[a], after[b].base.repository_root, after[b].branch) by {
        assert(records.contains_key(a) && records.contains_key(b));
    }
    assert forall|key: WorktreeId| #[trigger] after.contains_key(key) implies after[key].id
        == key by {
        assert(records.contains_key(key));
    }
}

/// Refuses a stored journal, or one to be stored, that is too large.
pub fn check_registry_bytes(size: u64, limits: RuntimeLimits) -> (r: Result<
    (),
    WorktreeRegistryError,
>)
    ensures
        refused_as(
            r,
            if size > limits.max_worktree_registry_bytes {
                Some(
                    RegistryErrorView::ByteLimit {
                        attempted: (if size > usize::MAX {
                            usize::MAX as int
                        } else {
                            size as int
                        }) as usize,
                        limit: limits.max_worktree_registry_bytes,
                    },
                )
            } else {
                None
            },
        ),
{
    if size as u128 > limits.max_worktree_registry_bytes as u128 {
        let attempted: usize = if size as u128 > usize::MAX as u128 {
            usize::MAX
        } else {
            size as usize
        };
        return Err(
            WorktreeRegistryError::ByteLimit {
                attempted,
                limit: limits.max_worktree_registry_bytes,
            },
        );
    }
    Ok(())
}

/// A journal that was stored opens again as it was: its records, each of which was
/// found in order when it was recorded, are all read back.
pub proof fn stored_journal_opens_again(
    records: RecordMap,
    list: Seq<StoredRecordView>,
    limits: RuntimeLimits,
)
    requires
        keyed_by_id(records),
        all_distinct(records),
        list.len() <= limits.max_worktree_registry_entries,
        forall|i: int|
            0 <= i < list.len() ==> records.contains_key((#[trigger] list[i]).record.id)
                && records[list[i].record.id] == list[i].record,
        forall|i: int, j: int|
            0 <= i < j < list.len() ==> (#[trigger] list[i]).record.id != (
            #[trigger] list[j]).record.id,
        forall|id: WorktreeId| #[trigger]
            records.contains_key(id) ==> exists|i: int|
                0 <= i < list.len() && (#[trigger] list[i]).record.id == id,
        forall|i: int|
            0 <= i < list.len() ==> record_refusal(
                (#[trigger] list[i]).record,
                list[i].resolved_path,
                limits,
            ) is None,
    ensures
        loaded(WORKTREE_REGISTRY_SCHEMA_VERSION, list, limits) == Ok::<
            RecordMap,
            RegistryErrorView,
        >(records),
{
    lemma_reads_back(records, list, limits);
    let read = all_stored(list, limits)->Ok_0;
    assert(read =~= records) by {
        assert forall|id: WorktreeId| read.contains_key(id) == records.contains_key(id) by {
            if records.contains_key(id) {
                let i = choose|i: int| 0 <= i < list.len() && (#[trigger] list[i]).record.id == id;
                assert(list[i].record.id == id);
            }
        }
    }
}

proof fn lemma_reads_back(records: RecordMap, list: Seq<StoredRecordView>, limits: RuntimeLimits)
    requires
        all_distinct(records),
        forall|i: int|
            0 <= i < list.len() ==> records.contains_key((#[trigger] list[i]).record.id)
                && records[list[i].record.id] == list[i].record,
        forall|i: int, j: int|
            0 <= i < j < list.len() ==> (#[trigger] list[i]).record.id != (
            #[trigger] list[j]).record.id,
        forall|i: int|
            0 <= i < list.len() ==> record_refusal(
                (#[trigger] list[i]).record,
                list[i].resolved_path,
                limits,
            ) is None,
    ensures
        ({
            let read = all_stored(list, limits);
            &&& read is Ok
            &&& forall|id: WorktreeId| #[trigger]
                read->Ok_0.contains_key(id) ==> records.contains_key(id) && read->Ok_0[id]
                    == records[id] && exists|i: int|
                    0 <= i < list.len() && (#[trigger] list[i]).record.id == id
            &&& forall|i: int|
                0 <= i < list.len() ==> read->Ok_0.contains_key((#[trigger] list[i]).record.id)
        }),
    decreases list.len(),
{
    if list.len() > 0 {
        let rest = list.drop_last();
        assert forall|i: int, j: int| 0 <= i < j < rest.len() implies (
        #[trigger] rest[i]).record.id != (#[trigger] rest[j]).record.id by {
            assert(list[i].record.id != list[j].record.id);
        }
        assert forall|i: int| 0 <= i < rest.len() implies records.contains_key(
            (#[trigger] rest[i]).record.id,
        ) && records[rest[i].record.id] == rest[i].record by {
            assert(rest[i] == list[i]);
        }
        assert forall|i: int| 0 <= i < rest.len() implies record_refusal(
            (#[trigger] rest[i]).record,
            rest[i].resolved_path,
            limits,
        ) is None by {
            assert(rest[i] == list[i]);
        }
        lemma_reads_back(records, rest, limits);
        let before = all_stored(rest, limits)->Ok_0;
        let last = list.last();
        let n = list.len() - 1;
        assert(last == list[n]);
        assert(records.contains_key(last.record.id));
        assert forall|id: WorktreeId| #[trigger] before.contains_key(id) implies id
            != last.record.id && !takes_path(before[id], last.record.requested_path)
            && !takes_branch(
            before[id],
            last.record.base.repository_root,
            last.record.branch,
        ) by {
            let i = choose|i: int| 0 <= i < rest.len() && (#[trigger] rest[i]).record.id == id;
            assert(list[i].record.id != list[n].record.id);
            assert(records.contains_key(id) && records.contains_key(last.record.id));
        }
        let read = all_stored(list, limits)->Ok_0;
        assert(read == before.insert(last.record.id, last.record));
        assert forall|id: WorktreeId| #[trigger] read.contains_key(id) implies records.contains_key(
            id,
        ) && read[id] == records[id] && exists|i: int|
            0 <= i < list.len() && (#[trigger] list[i]).record.id == id by {
            if id == last.record.id {
                assert(list[n].record.id == id);
            } else {
                assert(before.contains_key(id));
                let i = choose|i: int| 0 <= i < rest.len() && (#[trigger] rest[i]).record.id == id;
                assert(list[i].record.id == id);
            }
        }
        assert forall|i: int| 0 <= i < list.len() implies read.contains_key(
            (#[trigger] list[i]).record.id,
        ) by {
            if i < n {
                assert(rest[i] == list[i]);
                assert(before.contains_key(rest[i].record.id));
            }
        }
    }
}

} // verus!
