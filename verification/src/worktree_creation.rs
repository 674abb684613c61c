//! The creation of a worktree: everything is checked before Git changes anything,
//! and what Git made is verified after.
use vstd::prelude::*;
use vstd::string::*;

use crate::limits::RuntimeLimits;
use crate::paths::{
    is_within, parent_of_path, parent_path, path_join, path_joined, path_within, same_path, same_place,
};
use crate::session_preview::{file_name, file_name_of};
use crate::text::{same_optional, same_text};
use crate::worktree::{
    branch_exists_at_result, branch_found, git_run, path_refusal, succeeded, validate_path_bytes,
    CreatedWorktree, CreatedWorktreeView, GitFailure, GitOutput, GitOutputView,
    WorktreeBaseSnapshot, WorktreeBaseView, WorktreeCreatePlan, WorktreePlanView,
};
use crate::worktree_error::{GitOperation, WorktreeError, WorktreeErrorView};
use crate::worktree_flow::{
    args3, args6, git_at, inspect_worktree_base, progress_view, run_git, verify_existing_worktree,
    BaseInspection, BaseInspectionView, NeedView, Progress, ReplyView, VerificationView,
    WorktreeNeed, WorktreeReply, WorktreeVerification,
};
use crate::worktree_recovery::{
    absolute_plan_refusal, check_absolute_plan, look_for_branch, show_ref,
};

verus! {

/// How `git worktree add` failed.
#[derive(Debug, PartialEq, Eq)]
pub enum AddFailure {
    /// It ended with this code.
    Failed { code: Option<i32> },
    /// Nobody knows how far it came.
    Indeterminate { detail: String },
}

/// Model of an [`AddFailure`].
pub enum AddFailureView {
    Failed { code: Option<i32> },
    Indeterminate { detail: Seq<char> },
}

impl View for AddFailure {
    type V = AddFailureView;

    open spec fn view(&self) -> AddFailureView {
        match *self {
            AddFailure::Failed { code } => AddFailureView::Failed { code },
            AddFailure::Indeterminate { detail } => AddFailureView::Indeterminate {
                detail: detail@,
            },
        }
    }
}

/// Where the creation of a worktree stands.
#[derive(Debug, PartialEq, Eq)]
pub enum CreateStage {
    Absent,
    Inspect { inspection: BaseInspection },
    CheckRef { current: WorktreeBaseSnapshot },
    CheckBranch { current: WorktreeBaseSnapshot },
    Parent { current: WorktreeBaseSnapshot, parent: String },
    Add { current: WorktreeBaseSnapshot, target: String },
    FailedBranch { current: WorktreeBaseSnapshot, target: String, failure: AddFailure },
    FailedPath { target: String, failure: AddFailure, branch_may_exist: bool },
    Verify { target: String, verification: WorktreeVerification },
}

/// Model of a [`CreateStage`].
pub enum CreateStageView {
    Absent,
    Inspect { inspection: BaseInspectionView },
    CheckRef { current: WorktreeBaseView },
    CheckBranch { current: WorktreeBaseView },
    Parent { current: WorktreeBaseView, parent: Seq<char> },
    Add { current: WorktreeBaseView, target: Seq<char> },
    FailedBranch { current: WorktreeBaseView, target: Seq<char>, failure: AddFailureView },
    FailedPath { target: Seq<char>, failure: AddFailureView, branch_may_exist: bool },
    Verify { target: Seq<char>, verification: VerificationView },
}

impl View for CreateStage {
    type V = CreateStageView;

    open spec fn view(&self) -> CreateStageView {
        match *self {
            CreateStage::Absent => CreateStageView::Absent,
            CreateStage::Inspect { inspection } => CreateStageView::Inspect {
                inspection: inspection@,
            },
            CreateStage::CheckRef { current } => CreateStageView::CheckRef { current: current@ },
            CreateStage::CheckBranch { current } => CreateStageView::CheckBranch {
                current: current@,
            },
            CreateStage::Parent { current, parent } => CreateStageView::Parent {
                current: current@,
                parent: parent@,
            },
            CreateStage::Add { current, target } => CreateStageView::Add {
                current: current@,
                target: target@,
            },
            CreateStage::FailedBranch { current, target, failure } => {
                CreateStageView::FailedBranch {
                    current: current@,
                    target: target@,
                    failure: failure@,
                }
            },
            CreateStage::FailedPath { target, failure, branch_may_exist } => {
                CreateStageView::FailedPath { target: target@, failure: failure@, branch_may_exist }
            },
            CreateStage::Verify { target, verification } => CreateStageView::Verify {
                target: target@,
                verification: verification@,
            },
        }
    }
}

/// Creates a worktree for a new branch.
#[derive(Debug, PartialEq, Eq)]
pub struct WorktreeCreation {
    stage: CreateStage,
    plan: WorktreeCreatePlan,
    limits: RuntimeLimits,
}

/// Model of a [`WorktreeCreation`].
pub struct CreationView {
    pub stage: CreateStageView,
    pub plan: WorktreePlanView,
    pub limits: RuntimeLimits,
}

impl View for WorktreeCreation {
    type V = CreationView;

    closed spec fn view(&self) -> CreationView {
        CreationView { stage: self.stage@, plan: self.plan@, limits: self.limits }
    }
}

/// How a creation goes on.
pub type CreateStep = Progress<CreationView, CreatedWorktreeView, WorktreeErrorView>;

/// Whether a base is still where a plan was made; new changes in its working tree
/// do not count.
pub open spec fn same_base(current: WorktreeBaseView, planned: WorktreeBaseView) -> bool {
    same_place(current.repository_root, planned.repository_root) && same_place(
        current.project_root,
        planned.project_root,
    ) && same_place(current.project_relative_path, planned.project_relative_path)
        && current.source_branch == planned.source_branch && current.base_commit
        == planned.base_commit
}

impl CreationView {
    pub open spec fn begun(plan: WorktreePlanView, limits: RuntimeLimits) -> CreateStep {
        match absolute_plan_refusal(plan, limits) {
            Some(error) => Progress::Done(Err(error)),
            None => Progress::Continue(
                CreationView { stage: CreateStageView::Absent, plan, limits },
            ),
        }
    }

    pub open spec fn at(self, stage: CreateStageView) -> CreateStep {
        Progress::Continue(CreationView { stage, ..self })
    }

    /// What the creation needs to know or have done next.
    pub open spec fn need(self) -> NeedView {
        match self.stage {
            CreateStageView::Absent => NeedView::Exists(self.plan.worktree_path),
            CreateStageView::Inspect { inspection } => inspection.need(),
            CreateStageView::CheckRef { current } => git_at(
                current.repository_root,
                seq!["check-ref-format"@, "--branch"@, self.plan.branch],
                self.limits.max_git_ref_bytes,
            ),
            CreateStageView::CheckBranch { current } => show_ref(
                current.repository_root,
                self.plan.branch,
            ),
            CreateStageView::Parent { parent, .. } => NeedView::Canonicalize(parent),
            CreateStageView::Add { current, target } => git_at(
                current.repository_root,
                seq![
                    "worktree"@,
                    "add"@,
                    "-b"@,
                    self.plan.branch,
                    target,
                    current.base_commit,
                ],
                self.limits.max_git_command_output_bytes,
            ),
            CreateStageView::FailedBranch { current, .. } => show_ref(
                current.repository_root,
                self.plan.branch,
            ),
            CreateStageView::FailedPath { target, .. } => NeedView::Exists(target),
            CreateStageView::Verify { verification, .. } => verification.need(),
        }
    }

    pub open spec fn after_inspect(
        self,
        inspection: BaseInspectionView,
        reply: ReplyView,
    ) -> CreateStep {
        match inspection.after(reply) {
            Progress::Continue(inspection) => self.at(CreateStageView::Inspect { inspection }),
            Progress::Done(Err(error)) => Progress::Done(Err(error)),
            Progress::Done(Ok(current)) => if !same_base(current, self.plan.base) {
                Progress::Done(
                    Err(
                        WorktreeErrorView::SourceChanged {
                            expected_branch: self.plan.base.source_branch,
                            expected_commit: self.plan.base.base_commit,
                            actual_branch: current.source_branch,
                            actual_commit: current.base_commit,
                        },
                    ),
                )
            } else {
                self.at(CreateStageView::CheckRef { current })
            },
        }
    }

    pub open spec fn after_check_ref(
        self,
        current: WorktreeBaseView,
        run: Result<GitOutputView, WorktreeErrorView>,
    ) -> CreateStep {
        match run {
            Err(error) => Progress::Done(Err(error)),
            Ok(output) => if output.code != Some(0i32) {
                Progress::Done(Err(WorktreeErrorView::InvalidBranch { branch: self.plan.branch }))
            } else {
                self.at(CreateStageView::CheckBranch { current })
            },
        }
    }

    pub open spec fn after_check_branch(
        self,
        current: WorktreeBaseView,
        run: Result<GitOutputView, WorktreeErrorView>,
    ) -> CreateStep {
        match branch_found(run, GitOperation::CheckTargetBranch) {
            Err(error) => Progress::Done(Err(error)),
            Ok(true) => Progress::Done(
                Err(WorktreeErrorView::BranchExists { branch: self.plan.branch }),
            ),
            Ok(false) => match parent_of_path(self.plan.worktree_path) {
                None => Progress::Done(
                    Err(
                        WorktreeErrorView::WorktreeParentMissing { path: self.plan.worktree_path },
                    ),
                ),
                Some(parent) => self.at(CreateStageView::Parent { current, parent }),
            },
        }
    }

    pub open spec fn after_parent(
        self,
        current: WorktreeBaseView,
        parent: Seq<char>,
        resolved: Result<Seq<char>, Seq<char>>,
    ) -> CreateStep {
        match (resolved, file_name_of(self.plan.worktree_path)) {
            (Err(detail), _) => Progress::Done(
                Err(WorktreeErrorView::CanonicalizeWorktreeParent { path: parent, detail }),
            ),
            (Ok(_), None) => Progress::Done(
                Err(WorktreeErrorView::WorktreeParentMissing { path: self.plan.worktree_path }),
            ),
            (Ok(directory), Some(leaf)) => {
                let target = path_joined(directory, leaf);
                match path_refusal(target, self.limits) {
                    Some(error) => Progress::Done(Err(error)),
                    None => if path_within(target, current.repository_root) {
                        Progress::Done(
                            Err(
                                WorktreeErrorView::WorktreeInsideSourceRepository {
                                    path: target,
                                    repository: current.repository_root,
                                },
                            ),
                        )
                    } else {
                        self.at(CreateStageView::Add { current, target })
                    },
                }
            },
        }
    }

    pub open spec fn after_add(
        self,
        current: WorktreeBaseView,
        target: Seq<char>,
        run: Result<GitOutputView, WorktreeErrorView>,
    ) -> CreateStep {
        match run {
            Err(error) => self.at(
                CreateStageView::FailedBranch {
                    current,
                    target,
                    failure: AddFailureView::Indeterminate { detail: error.message() },
                },
            ),
            Ok(output) => if output.code != Some(0i32) {
                self.at(
                    CreateStageView::FailedBranch {
                        current,
                        target,
                        failure: AddFailureView::Failed { code: output.code },
                    },
                )
            } else {
                self.at(
                    CreateStageView::Verify {
                        target,
                        verification: VerificationView::begun(
                            current,
                            self.plan.branch,
                            target,
                            true,
                            self.limits,
                        ),
                    },
                )
            },
        }
    }

    /// The error that tells of a failed `git worktree add` and what it left.
    pub open spec fn add_error(
        self,
        target: Seq<char>,
        failure: AddFailureView,
        branch_may_exist: bool,
        path_exists: bool,
    ) -> WorktreeErrorView {
        match failure {
            AddFailureView::Failed { code } => WorktreeErrorView::CreateFailed {
                branch: self.plan.branch,
                path: target,
                code,
                branch_may_exist,
                path_exists,
            },
            AddFailureView::Indeterminate { detail } => WorktreeErrorView::CreateIndeterminate {
                branch: self.plan.branch,
                path: target,
                detail,
                branch_may_exist,
                path_exists,
            },
        }
    }

    pub open spec fn after_verify(
        self,
        target: Seq<char>,
        verification: VerificationView,
        reply: ReplyView,
    ) -> CreateStep {
        match verification.after(reply) {
            Progress::Continue(verification) => self.at(
                CreateStageView::Verify { target, verification },
            ),
            Progress::Done(Ok(created)) => Progress::Done(Ok(created)),
            Progress::Done(Err(error)) => Progress::Done(
                Err(
                    WorktreeErrorView::PostCreateVerification {
                        path: target,
                        detail: error.message(),
                    },
                ),
            ),
        }
    }

    /// How the creation goes on with an answer to what it needs.
    pub open spec fn after(self, reply: ReplyView) -> CreateStep {
        match (self.stage, reply) {
            (CreateStageView::Absent, ReplyView::Exists(true)) => Progress::Done(
                Err(WorktreeErrorView::WorktreePathExists { path: self.plan.worktree_path }),
            ),
            (CreateStageView::Absent, ReplyView::Exists(false)) => self.at(
                CreateStageView::Inspect {
                    inspection: BaseInspectionView::begun(
                        self.plan.base.project_root,
                        self.limits,
                    ),
                },
            ),
            (CreateStageView::Inspect { inspection }, _) => self.after_inspect(inspection, reply),
            (CreateStageView::CheckRef { current }, ReplyView::Git(run)) => self.after_check_ref(
                current,
                run,
            ),
            (CreateStageView::CheckBranch { current }, ReplyView::Git(run)) => {
                self.after_check_branch(current, run)
            },
            (
                CreateStageView::Parent { current, parent },
                ReplyView::Canonical(resolved),
            ) => self.after_parent(current, parent, resolved),
            (CreateStageView::Add { current, target }, ReplyView::Git(run)) => self.after_add(
                current,
                target,
                run,
            ),
            (
                CreateStageView::FailedBranch { target, failure, .. },
                ReplyView::Git(run),
            ) => self.at(
                CreateStageView::FailedPath {
                    target,
                    failure,
                    branch_may_exist: branch_found(run, GitOperation::CheckRecoveryBranch)
                        == Ok::<bool, WorktreeErrorView>(true),
                },
            ),
            (
                CreateStageView::FailedPath { target, failure, branch_may_exist },
                ReplyView::Exists(path_exists),
            ) => Progress::Done(
                Err(self.add_error(target, failure, branch_may_exist, path_exists)),
            ),
            (CreateStageView::Verify { target, verification }, _) => self.after_verify(
                target,
                verification,
                reply,
            ),
            _ => Progress::Continue(self),
        }
    }
}

/// Starts to create a worktree for a new branch.
pub fn create_worktree(plan: WorktreeCreatePlan, limits: RuntimeLimits) -> (r: Progress<
    WorktreeCreation,
    CreatedWorktree,
    WorktreeError,
>)
    ensures
        progress_view(r) == CreationView::begun(plan@, limits),
{
    match check_absolute_plan(&plan, limits) {
        Err(error) => Progress::Done(Err(error)),
        Ok(_) => Progress::Continue(WorktreeCreation { stage: CreateStage::Absent, plan, limits }),
    }
}

fn is_same_base(current: &WorktreeBaseSnapshot, planned: &WorktreeBaseSnapshot) -> (r: bool)
    ensures
        r == same_base(current@, planned@),
{
    same_path(current.repository_root.as_str(), planned.repository_root.as_str()) && same_path(
        current.project_root.as_str(),
        planned.project_root.as_str(),
    ) && same_path(
        current.project_relative_path.as_str(),
        planned.project_relative_path.as_str(),
    ) && same_optional(&current.source_branch, &planned.source_branch) && same_text(
        current.base_commit.as_str(),
        planned.base_commit.as_str(),
    )
}

impl WorktreeCreation {
    /// What the creation needs to know or have done next.
    pub fn need(&self) -> (r: WorktreeNeed)
        ensures
            r@ == self@.need(),
    {
        let branch = self.plan.branch.as_str();
        match &self.stage {
            CreateStage::Absent => WorktreeNeed::Exists(self.plan.worktree_path.clone()),
            CreateStage::Inspect { inspection } => inspection.need(),
            CreateStage::CheckRef { current } => run_git(
                current.repository_root.as_str(),
                args3("check-ref-format", "--branch", branch),
                self.limits.max_git_ref_bytes,
            ),
            CreateStage::CheckBranch { current } => look_for_branch(
                current.repository_root.as_str(),
                branch,
            ),
            CreateStage::Parent { parent, .. } => WorktreeNeed::Canonicalize(parent.clone()),
            CreateStage::Add { current, target } => run_git(
                current.repository_root.as_str(),
                args6(
                    "worktree",
                    "add",
                    "-b",
                    branch,
                    target.as_str(),
                    current.base_commit.as_str(),
                ),
                self.limits.max_git_command_output_bytes,
            ),
            CreateStage::FailedBranch { current, .. } => look_for_branch(
                current.repository_root.as_str(),
                branch,
            ),
            CreateStage::FailedPath { target, .. } => WorktreeNeed::Exists(target.clone()),
            CreateStage::Verify { verification, .. } => verification.need(),
        }
    }

    fn on_inspect(
        plan: WorktreeCreatePlan,
        limits: RuntimeLimits,
        inspection: BaseInspection,
        reply: WorktreeReply,
    ) -> (r: Progress<WorktreeCreation, CreatedWorktree, WorktreeError>)
        requires
            reply@.answers(inspection@.need()),
        ensures
            progress_view(r) == (CreationView {
                stage: CreateStageView::Inspect { inspection: inspection@ },
                plan: plan@,
                limits,
            }).after_inspect(inspection@, reply@),
    {
        match inspection.advance(reply) {
            Progress::Continue(inspection) => Progress::Continue(
                WorktreeCreation { stage: CreateStage::Inspect { inspection }, plan, limits },
            ),
            Progress::Done(Err(error)) => Progress::Done(Err(error)),
            Progress::Done(Ok(current)) => {
                if is_same_base(&current, &plan.base) {
                    Progress::Continue(
                        WorktreeCreation { stage: CreateStage::CheckRef { current }, plan, limits },
                    )
                } else {
                    Progress::Done(
                        Err(
                            WorktreeError::SourceChanged {
                                expected_branch: plan.base.source_branch,
                                expected_commit: plan.base.base_commit,
                                actual_branch: current.source_branch,
                                actual_commit: current.base_commit,
                            },
                        ),
                    )
                }
            },
        }
    }

    fn on_check_branch(
        plan: WorktreeCreatePlan,
        limits: RuntimeLimits,
        current: WorktreeBaseSnapshot,
        run: Result<GitOutput, GitFailure>,
    ) -> (r: Progress<WorktreeCreation, CreatedWorktree, WorktreeError>)
        ensures
            progress_view(r) == (CreationView {
                stage: CreateStageView::CheckBranch { current: current@ },
                plan: plan@,
                limits,
            }).after_check_branch(current@, git_run(run)),
    {
        match branch_exists_at_result(run, GitOperation::CheckTargetBranch) {
            Err(error) => Progress::Done(Err(error)),
            Ok(true) => Progress::Done(Err(WorktreeError::BranchExists { branch: plan.branch })),
            Ok(false) => match parent_path(plan.worktree_path.as_str()) {
                None => Progress::Done(
                    Err(WorktreeError::WorktreeParentMissing { path: plan.worktree_path }),
                ),
                Some(parent) => Progress::Continue(
                    WorktreeCreation {
                        stage: CreateStage::Parent { current, parent },
                        plan,
                        limits,
                    },
                ),
            },
        }
    }

    fn on_parent(
        plan: WorktreeCreatePlan,
        limits: RuntimeLimits,
        current: WorktreeBaseSnapshot,
        parent: String,
        resolved: Result<String, String>,
    ) -> (r: Progress<WorktreeCreation, CreatedWorktree, WorktreeError>)
        ensures
            progress_view(r) == (CreationView {
                stage: CreateStageView::Parent { current: current@, parent: parent@ },
                plan: plan@,
                limits,
            }).after(WorktreeReply::Canonical(resolved)@),
    {
        let directory = match resolved {
            Err(detail) => {
                return Progress::Done(
                    Err(WorktreeError::CanonicalizeWorktreeParent { path: parent, detail }),
                );
            },
            Ok(directory) => directory,
        };
        let leaf = match file_name(plan.worktree_path.as_str()) {
            None => {
                return Progress::Done(
                    Err(WorktreeError::WorktreeParentMissing { path: plan.worktree_path }),
                );
            },
            Some(leaf) => leaf,
        };
        let target = path_join(directory.as_str(), leaf.as_str());
        match validate_path_bytes(target.as_str(), limits) {
            Err(error) => {
                return Progress::Done(Err(error));
            },
            Ok(_) => {},
        }
        if is_within(target.as_str(), current.repository_root.as_str()) {
            return Progress::Done(
                Err(
                    WorktreeError::WorktreeInsideSourceRepository {
                        path: target,
                        repository: current.repository_root,
                    },
                ),
            );
        }
        Progress::Continue(
            WorktreeCreation { stage: CreateStage::Add { current, target }, plan, limits },
        )
    }

    fn on_add(
        plan: WorktreeCreatePlan,
        limits: RuntimeLimits,
        current: WorktreeBaseSnapshot,
        target: String,
        run: Result<GitOutput, GitFailure>,
    ) -> (r: Progress<WorktreeCreation, CreatedWorktree, WorktreeError>)
        ensures
            progress_view(r) == (CreationView {
                stage: CreateStageView::Add { current: current@, target: target@ },
                plan: plan@,
                limits,
            }).after_add(current@, target@, git_run(run)),
    {
        let failure = match run {
            Err(failure) => {
                let error = failure.error();
                AddFailure::Indeterminate { detail: error.message() }
            },
            Ok(output) => {
                if succeeded(&output) {
                    let verification = verify_existing_worktree(
                        current,
                        plan.branch.as_str(),
                        target.as_str(),
                        true,
                        limits,
                    );
                    return Progress::Continue(
                        WorktreeCreation {
                            stage: CreateStage::Verify { target, verification },
                            plan,
                            limits,
                        },
                    );
                }
                AddFailure::Failed { code: output.code }
            },
        };
        Progress::Continue(
            WorktreeCreation {
                stage: CreateStage::FailedBranch { current, target, failure },
                plan,
                limits,
            },
        )
    }

    fn on_failed_path(
        plan: WorktreeCreatePlan,
        Ghost(limits): Ghost<RuntimeLimits>,
        target: String,
        failure: AddFailure,
        branch_may_exist: bool,
        path_exists: bool,
    ) -> (r: Progress<WorktreeCreation, CreatedWorktree, WorktreeError>)
        ensures
            progress_view(r) == (CreationView {
                stage: CreateStageView::FailedPath {
                    target: target@,
                    failure: failure@,
                    branch_may_exist,
                },
                plan: plan@,
                limits,
            }).after(ReplyView::Exists(path_exists)),
    {
        match failure {
            AddFailure::Failed { code } => Progress::Done(
                Err(
                    WorktreeError::CreateFailed {
                        branch: plan.branch,
                        path: target,
                        code,
                        branch_may_exist,
                        path_exists,
                    },
                ),
            ),
            AddFailure::Indeterminate { detail } => Progress::Done(
                Err(
                    WorktreeError::CreateIndeterminate {
                        branch: plan.branch,
                        path: target,
                        detail,
                        branch_may_exist,
                        path_exists,
                    },
                ),
            ),
        }
    }

    fn on_verify(
        plan: WorktreeCreatePlan,
        limits: RuntimeLimits,
        target: String,
        verification: WorktreeVerification,
        reply: WorktreeReply,
    ) -> (r: Progress<WorktreeCreation, CreatedWorktree, WorktreeError>)
        requires
            reply@.answers(verification@.need()),
        ensures
            progress_view(r) == (CreationView {
                stage: CreateStageView::Verify { target: target@, verification: verification@ },
                plan: plan@,
                limits,
            }).after_verify(target@, verification@, reply@),
    {
        match verification.advance(reply) {
            Progress::Continue(verification) => Progress::Continue(
                WorktreeCreation {
                    stage: CreateStage::Verify { target, verification },
                    plan,
                    limits,
                },
            ),
            Progress::Done(Ok(created)) => Progress::Done(Ok(created)),
            Progress::Done(Err(error)) => Progress::Done(
                Err(
                    WorktreeError::PostCreateVerification { path: target, detail: error.message() },
                ),
            ),
        }
    }

    fn on_git(
        stage: CreateStage,
        plan: WorktreeCreatePlan,
        limits: RuntimeLimits,
        run: Result<GitOutput, GitFailure>,
    ) -> (r: Progress<WorktreeCreation, CreatedWorktree, WorktreeError>)
        requires
            !(stage is Inspect || stage is Verify),
        ensures
            progress_view(r) == (CreationView { stage: stage@, plan: plan@, limits }).after(
                WorktreeReply::Git(run)@,
            ),
    {
        match stage {
            CreateStage::CheckRef { current } => match run {
                Err(failure) => Progress::Done(Err(failure.error())),
                Ok(output) => {
                    if succeeded(&output) {
                        Progress::Continue(
                            WorktreeCreation {
                                stage: CreateStage::CheckBranch { current },
                                plan,
                                limits,
                            },
                        )
                    } else {
                        Progress::Done(Err(WorktreeError::InvalidBranch { branch: plan.branch }))
                    }
                },
            },
            CreateStage::CheckBranch { current } => {
                Self::on_check_branch(plan, limits, current, run)
            },
            CreateStage::Add { current, target } => {
                Self::on_add(plan, limits, current, target, run)
            },
            CreateStage::FailedBranch { target, failure, .. } => {
                let branch_may_exist = match branch_exists_at_result(
                    run,
                    GitOperation::CheckRecoveryBranch,
                ) {
                    Ok(found) => found,
                    Err(_) => false,
                };
                Progress::Continue(
                    WorktreeCreation {
                        stage: CreateStage::FailedPath { target, failure, branch_may_exist },
                        plan,
                        limits,
                    },
                )
            },
            stage => Progress::Continue(WorktreeCreation { stage, plan, limits }),
        }
    }

    /// Goes on with an answer to what the creation needs.
    pub fn advance(self, reply: WorktreeReply) -> (r: Progress<
        WorktreeCreation,
        CreatedWorktree,
        WorktreeError,
    >)
        requires
            reply@.answers(self@.need()),
        ensures
            progress_view(r) == self@.after(reply@),
    {
        let plan = self.plan;
        let limits = self.limits;
        match self.stage {
            CreateStage::Inspect { inspection } => {
                Self::on_inspect(plan, limits, inspection, reply)
            },
            CreateStage::Verify { target, verification } => Self::on_verify(
                plan,
                limits,
                target,
                verification,
                reply,
            ),
            stage => match reply {
                WorktreeReply::Git(run) => Self::on_git(stage, plan, limits, run),
                WorktreeReply::Canonical(resolved) => match stage {
                    CreateStage::Parent { current, parent } => Self::on_parent(
                        plan,
                        limits,
                        current,
                        parent,
                        resolved,
                    ),
                    stage => Progress::Continue(WorktreeCreation { stage, plan, limits }),
                },
                WorktreeReply::Exists(exists) => match stage {
                    CreateStage::Absent => {
                        if exists {
                            Progress::Done(
                                Err(WorktreeError::WorktreePathExists { path: plan.worktree_path }),
                            )
                        } else {
                            let inspection = inspect_worktree_base(
                                plan.base.project_root.as_str(),
                                limits,
                            );
                            Progress::Continue(
                                WorktreeCreation {
                                    stage: CreateStage::Inspect { inspection },
                                    plan,
                                    limits,
                                },
                            )
                        }
                    },
                    CreateStage::FailedPath { target, failure, branch_may_exist } => {
                        Self::on_failed_path(
                            plan,
                            Ghost(limits),
                            target,
                            failure,
                            branch_may_exist,
                            exists,
                        )
                    },
                    stage => Progress::Continue(WorktreeCreation { stage, plan, limits }),
                },
            },
        }
    }
}

/// Whether a command changes what Git holds.
pub open spec fn adds_worktree(need: NeedView) -> bool {
    need is Git && need->Git_0.args.len() == 6
}

/// Git is asked to add the worktree in one stage of the creation only. It is
/// reached only where the source is still where the plan was made, the branch was
/// not there, and the new worktree lies outside the repository.
pub proof fn nothing_is_added_before_the_checks(creation: CreationView, reply: ReplyView)
    requires
        reply.answers(creation.need()),
    ensures
        adds_worktree(creation.need()) ==> creation.stage is Add,
        creation.after(reply) is Continue && creation.after(reply)->Continue_0.stage is Add
            && !(creation.stage is Add) ==> {
            let target = creation.after(reply)->Continue_0.stage->Add_target;
            let current = creation.after(reply)->Continue_0.stage->Add_current;
            creation.stage is Parent && creation.stage->Parent_current == current && !path_within(
                target,
                current.repository_root,
            )
        },
        creation.after(reply) is Continue && creation.after(reply)->Continue_0.stage is Parent
            && !(creation.stage is Parent) ==> creation.stage is CheckBranch && reply
            == ReplyView::Git(
            Ok(
                GitOutputView {
                    code: Some(1i32),
                    stdout: reply->Git_0->Ok_0.stdout,
                    stdout_exceeded: reply->Git_0->Ok_0.stdout_exceeded,
                },
            ),
        ),
        creation.after(reply) is Continue && creation.after(reply)->Continue_0.stage is CheckRef
            && !(creation.stage is CheckRef) ==> same_base(
            creation.after(reply)->Continue_0.stage->CheckRef_current,
            creation.plan.base,
        ),
{
}

/// An error from before Git was asked to add the worktree says that nothing was
/// left behind; one from after says what may have been.
pub proof fn errors_tell_what_was_left(creation: CreationView, reply: ReplyView)
    requires
        reply.answers(creation.need()),
        reply.from_git(),
        creation.after(reply) is Done,
        creation.after(reply)->Done_0 is Err,
    ensures
        ({
            let error = creation.after(reply)->Done_0->Err_0;
            let started = creation.stage is FailedPath || creation.stage is Verify;
            &&& !started ==> !error.left_traces()
            &&& started ==> error is CreateFailed || error is CreateIndeterminate
                || error is PostCreateVerification
            &&& creation.stage is Verify ==> error.left_traces()
            &&& creation.stage is FailedPath && creation.stage->FailedPath_branch_may_exist
                ==> error.left_traces()
            &&& creation.stage is FailedPath && reply == ReplyView::Exists(true)
                ==> error.left_traces()
        }),
{
}

impl CreationView {
    /// Whether what the creation has found out so far belongs to its plan: the source is
    /// still where the plan was made, and what is verified is the branch of the plan at
    /// the commit of the plan.
    pub open spec fn follows_plan(self) -> bool {
        match self.stage {
            CreateStageView::Absent
            | CreateStageView::Inspect { .. }
            | CreateStageView::FailedPath { .. } => true,
            CreateStageView::CheckRef { current }
            | CreateStageView::CheckBranch { current }
            | CreateStageView::Parent { current, .. }
            | CreateStageView::FailedBranch { current, .. } => same_base(current, self.plan.base),
            CreateStageView::Add { current, target } => same_base(current, self.plan.base)
                && self.placed(target, current),
            CreateStageView::Verify { target, verification } => {
                &&& same_base(verification.base, self.plan.base)
                &&& self.placed(target, verification.base)
                &&& verification.branch == self.plan.branch
                &&& verification.target == target
                &&& verification.require_head_at_base
                &&& !(verification.stage is Ancestry)
                &&& verification.stage is ExecutionRoot ==> verification.commit
                    == self.plan.base.base_commit
            },
        }
    }

    /// Whether `target` has the last name of the planned path and lies outside the
    /// repository.
    pub open spec fn placed(self, target: Seq<char>, current: WorktreeBaseView) -> bool {
        &&& exists|directory: Seq<char>|
            target == #[trigger] path_joined(
                directory,
                file_name_of(self.plan.worktree_path)->0,
            )
        &&& file_name_of(self.plan.worktree_path) is Some
        &&& !path_within(target, current.repository_root)
    }
}

/// Every step of a creation follows its plan.
pub proof fn creation_follows_its_plan(creation: CreationView, reply: ReplyView)
    requires
        creation.follows_plan(),
    ensures
        match creation.after(reply) {
            Progress::Continue(next) => next.follows_plan() && next.plan == creation.plan
                && next.limits == creation.limits,
            Progress::Done(_) => true,
        },
{
}

/// A worktree that was created has the branch of the plan, belongs to the repository
/// of the plan, and starts at the commit of the plan, where its head was found.
pub proof fn created_worktree_is_the_planned_one(creation: CreationView, reply: ReplyView)
    requires
        creation.follows_plan(),
        reply.answers(creation.need()),
        creation.after(reply) is Done,
        creation.after(reply)->Done_0 is Ok,
    ensures
        ({
            let created = creation.after(reply)->Done_0->Ok_0;
            let verification = creation.stage->Verify_verification;
            &&& creation.stage is Verify
            &&& created.branch == creation.plan.branch
            &&& created.base_commit == creation.plan.base.base_commit
            &&& same_place(created.repository_root, creation.plan.base.repository_root)
            &&& created.worktree_root == verification.worktree_root
            &&& verification.commit == creation.plan.base.base_commit
        }),
{
}

/// Where the creation of a planned worktree stands after these answers.
pub open spec fn creation_after(
    plan: WorktreePlanView,
    limits: RuntimeLimits,
    replies: Seq<ReplyView>,
) -> CreateStep
    decreases replies.len(),
{
    if replies.len() == 0 {
        CreationView::begun(plan, limits)
    } else {
        match creation_after(plan, limits, replies.drop_last()) {
            Progress::Continue(creation) => creation.after(replies.last()),
            Progress::Done(result) => Progress::Done(result),
        }
    }
}

/// Whatever is answered, a creation that ends well has made the worktree of its plan.
pub proof fn every_creation_makes_the_planned_worktree(
    plan: WorktreePlanView,
    limits: RuntimeLimits,
    replies: Seq<ReplyView>,
)
    ensures
        match creation_after(plan, limits, replies) {
            Progress::Continue(creation) => {
                &&& creation.follows_plan()
                &&& creation.plan == plan
                &&& creation.limits == limits
            },
            Progress::Done(Ok(created)) => {
                &&& created.branch == plan.branch
                &&& created.base_commit == plan.base.base_commit
                &&& same_place(created.repository_root, plan.base.repository_root)
            },
            Progress::Done(Err(_)) => true,
        },
    decreases replies.len(),
{
    if replies.len() > 0 {
        every_creation_makes_the_planned_worktree(plan, limits, replies.drop_last());
        match creation_after(plan, limits, replies.drop_last()) {
            Progress::Continue(creation) => {
                creation_follows_its_plan(creation, replies.last());
            },
            Progress::Done(_) => {},
        }
    }
}

} // verus!
