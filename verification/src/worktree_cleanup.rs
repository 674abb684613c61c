//! The removal of a worktree in which nothing was done.
use vstd::prelude::*;
use vstd::string::*;

use crate::limits::RuntimeLimits;
use crate::text::{join, prefix_within, same_text};
use crate::worktree::{
    git_run, git_text, run_text, succeeded, CreatedWorktree, CreatedWorktreeView, GitFailure,
    GitOutput, GitOutputView, WorktreeCleanupResult, WorktreeCleanupView, WorktreeCreatePlan,
    WorktreePlanView, WorktreeProbeView, WorktreeRecoveryProbe,
};
use crate::worktree_error::{code_text, write_code, GitOperation, WorktreeError, WorktreeErrorView};
use crate::worktree_flow::{
    args3, args4, git_at, progress_view, run_git, verify_existing_worktree, NeedView, Progress,
    ReplyView, VerificationView, WorktreeNeed, WorktreeReply, WorktreeVerification,
};
use crate::worktree_recovery::{
    bounded_failure_detail, branch_ref, check_plan, plan_refusal, probe_worktree_recovery,
    RecoveryProbe, RecoveryProbeView,
};

verus! {

/// Where a cleanup stands.
#[allow(inconsistent_fields)]
#[derive(Debug, PartialEq, Eq)]
pub enum CleanupStage {
    Verify { verification: WorktreeVerification },
    Head { created: CreatedWorktree },
    Status { created: CreatedWorktree },
    Remove { created: CreatedWorktree },
    RemoveFailed { code: Option<i32> },
    DeleteBranch,
    /// Looks at what is left. Where the branch was not deleted, `fallback` tells
    /// why.
    Probe { probe: RecoveryProbe, fallback: Option<String> },
    ProbeFailed { fallback: String },
}

/// Model of a [`CleanupStage`].
#[allow(inconsistent_fields)]
pub enum CleanupStageView {
    Verify { verification: VerificationView },
    Head { created: CreatedWorktreeView },
    Status { created: CreatedWorktreeView },
    Remove { created: CreatedWorktreeView },
    RemoveFailed { code: Option<i32> },
    DeleteBranch,
    Probe { probe: RecoveryProbeView, fallback: Option<Seq<char>> },
    ProbeFailed { fallback: Seq<char> },
}

impl View for CleanupStage {
    type V = CleanupStageView;

    open spec fn view(&self) -> CleanupStageView {
        match *self {
            CleanupStage::Verify { verification } => CleanupStageView::Verify {
                verification: verification@,
            },
            CleanupStage::Head { created } => CleanupStageView::Head { created: created@ },
            CleanupStage::Status { created } => CleanupStageView::Status { created: created@ },
            CleanupStage::Remove { created } => CleanupStageView::Remove { created: created@ },
            CleanupStage::RemoveFailed { code } => CleanupStageView::RemoveFailed { code },
            CleanupStage::DeleteBranch => CleanupStageView::DeleteBranch,
            CleanupStage::Probe { probe, fallback } => CleanupStageView::Probe {
                probe: probe@,
                fallback: match fallback {
                    Some(text) => Some(text@),
                    None => None,
                },
            },
            CleanupStage::ProbeFailed { fallback } => CleanupStageView::ProbeFailed {
                fallback: fallback@,
            },
        }
    }
}

/// Removes a worktree and its branch, if it is still as it was created.
#[derive(Debug, PartialEq, Eq)]
pub struct WorktreeCleanup {
    stage: CleanupStage,
    plan: WorktreeCreatePlan,
    limits: RuntimeLimits,
}

/// Model of a [`WorktreeCleanup`].
pub struct CleanupView {
    pub stage: CleanupStageView,
    pub plan: WorktreePlanView,
    pub limits: RuntimeLimits,
}

impl View for WorktreeCleanup {
    type V = CleanupView;

    closed spec fn view(&self) -> CleanupView {
        CleanupView { stage: self.stage@, plan: self.plan@, limits: self.limits }
    }
}

/// How a cleanup goes on.
pub type CleanupStep = Progress<CleanupView, WorktreeCleanupView, WorktreeErrorView>;

/// What a probe after the cleanup means. `fallback` tells why the branch was not
/// deleted, if it was not.
pub open spec fn cleanup_result(
    probed: WorktreeProbeView,
    fallback: Option<Seq<char>>,
) -> WorktreeCleanupView {
    match probed {
        WorktreeProbeView::NotCreated => WorktreeCleanupView::Removed,
        WorktreeProbeView::Partial { branch_exists, path_exists, detail } => {
            WorktreeCleanupView::Partial { branch_exists, path_exists, detail }
        },
        WorktreeProbeView::Exact { .. } => WorktreeCleanupView::Partial {
            branch_exists: true,
            path_exists: true,
            detail: match fallback {
                Some(detail) => detail,
                None => "cleanup commands completed but the recorded worktree still exists"@,
            },
        },
    }
}

/// What a probe after the cleanup means.
fn read_probe(probed: WorktreeRecoveryProbe, fallback: Option<String>) -> (r: WorktreeCleanupResult)
    ensures
        r@ == cleanup_result(
            probed@,
            match fallback {
                Some(text) => Some(text@),
                None => None,
            },
        ),
{
    match probed {
        WorktreeRecoveryProbe::NotCreated => WorktreeCleanupResult::Removed,
        WorktreeRecoveryProbe::Partial { branch_exists, path_exists, detail } => {
            WorktreeCleanupResult::Partial { branch_exists, path_exists, detail }
        },
        WorktreeRecoveryProbe::Exact { .. } => WorktreeCleanupResult::Partial {
            branch_exists: true,
            path_exists: true,
            detail: match fallback {
                Some(detail) => detail,
                None => "cleanup commands completed but the recorded worktree still exists".to_owned(),
            },
        },
    }
}

impl CleanupView {
    pub open spec fn begun(plan: WorktreePlanView, limits: RuntimeLimits) -> CleanupStep {
        match plan_refusal(plan, limits) {
            Some(error) => Progress::Done(Err(error)),
            None => Progress::Continue(
                CleanupView {
                    stage: CleanupStageView::Verify {
                        verification: VerificationView::begun(
                            plan.base,
                            plan.branch,
                            plan.worktree_path,
                            false,
                            limits,
                        ),
                    },
                    plan,
                    limits,
                },
            ),
        }
    }

    pub open spec fn at(self, stage: CleanupStageView) -> CleanupStep {
        Progress::Continue(CleanupView { stage, ..self })
    }

    /// What the cleanup needs to know or have done next.
    pub open spec fn need(self) -> NeedView {
        let output = self.limits.max_git_command_output_bytes;
        match self.stage {
            CleanupStageView::Verify { verification } => verification.need(),
            CleanupStageView::Head { created } => git_at(
                created.worktree_root,
                seq!["rev-parse"@, "--verify"@, "HEAD^{commit}"@],
                output,
            ),
            CleanupStageView::Status { created } => git_at(
                created.worktree_root,
                seq!["status"@, "--porcelain=v1"@, "--untracked-files=normal"@],
                1,
            ),
            CleanupStageView::Remove { created } => git_at(
                self.plan.base.repository_root,
                seq!["worktree"@, "remove"@, created.worktree_root],
                output,
            ),
            CleanupStageView::RemoveFailed { .. } => NeedView::Exists(self.plan.worktree_path),
            CleanupStageView::DeleteBranch => git_at(
                self.plan.base.repository_root,
                seq!["update-ref"@, "-d"@, branch_ref(self.plan.branch), self.plan.base.base_commit],
                output,
            ),
            CleanupStageView::Probe { probe, .. } => probe.need(),
            CleanupStageView::ProbeFailed { .. } => NeedView::Exists(self.plan.worktree_path),
        }
    }

    /// How the cleanup goes on with a step of the probe.
    pub open spec fn probing(
        self,
        step: Progress<RecoveryProbeView, WorktreeProbeView, WorktreeErrorView>,
        fallback: Option<Seq<char>>,
    ) -> CleanupStep {
        match step {
            Progress::Continue(probe) => self.at(CleanupStageView::Probe { probe, fallback }),
            Progress::Done(Ok(probed)) => Progress::Done(Ok(cleanup_result(probed, fallback))),
            Progress::Done(Err(error)) => match fallback {
                Some(fallback) => self.at(CleanupStageView::ProbeFailed { fallback }),
                None => Progress::Done(Err(error)),
            },
        }
    }

    pub open spec fn after_head(
        self,
        created: CreatedWorktreeView,
        run: Result<GitOutputView, WorktreeErrorView>,
    ) -> CleanupStep {
        match run_text(run, GitOperation::VerifyCleanupHead, self.limits) {
            Err(error) => Progress::Done(Err(error)),
            Ok(head) => if head != self.plan.base.base_commit {
                Progress::Done(
                    Err(
                        WorktreeErrorView::CleanupContainsCommits {
                            base_commit: self.plan.base.base_commit,
                            head,
                        },
                    ),
                )
            } else {
                self.at(CleanupStageView::Status { created })
            },
        }
    }

    pub open spec fn after_status(
        self,
        created: CreatedWorktreeView,
        run: Result<GitOutputView, WorktreeErrorView>,
    ) -> CleanupStep {
        match run {
            Err(error) => Progress::Done(Err(error)),
            Ok(output) => if output.code != Some(0i32) {
                Progress::Done(
                    Err(
                        WorktreeErrorView::GitCommandFailed {
                            operation: GitOperation::VerifyCleanupStatus,
                            code: output.code,
                        },
                    ),
                )
            } else if output.stdout_exceeded || output.stdout.len() > 0 {
                Progress::Done(
                    Err(WorktreeErrorView::CleanupDirty { path: created.worktree_root }),
                )
            } else {
                self.at(CleanupStageView::Remove { created })
            },
        }
    }

    pub open spec fn after_remove(
        self,
        run: Result<GitOutputView, WorktreeErrorView>,
    ) -> CleanupStep {
        match run {
            Err(error) => Progress::Done(Err(error)),
            Ok(output) => if output.code != Some(0i32) {
                self.at(CleanupStageView::RemoveFailed { code: output.code })
            } else {
                self.at(CleanupStageView::DeleteBranch)
            },
        }
    }

    pub open spec fn after_delete(
        self,
        run: Result<GitOutputView, WorktreeErrorView>,
    ) -> CleanupStep {
        let fallback = match run {
            Err(error) => Some(
                "worktree path was removed but branch deletion became indeterminate: "@
                    + error.message(),
            ),
            Ok(output) => if output.code != Some(0i32) {
                Some(
                    "worktree path was removed but exact branch deletion failed with exit code "@
                        + code_text(output.code),
                )
            } else {
                None
            },
        };
        self.probing(RecoveryProbeView::begun(self.plan, self.limits), fallback)
    }

    /// How the cleanup goes on with an answer to what it needs.
    pub open spec fn after(self, reply: ReplyView) -> CleanupStep {
        match (self.stage, reply) {
            (CleanupStageView::Verify { verification }, _) => match verification.after(reply) {
                Progress::Continue(verification) => self.at(
                    CleanupStageView::Verify { verification },
                ),
                Progress::Done(Ok(created)) => self.at(CleanupStageView::Head { created }),
                Progress::Done(Err(error)) => Progress::Done(Err(error)),
            },
            (CleanupStageView::Head { created }, ReplyView::Git(run)) => self.after_head(
                created,
                run,
            ),
            (CleanupStageView::Status { created }, ReplyView::Git(run)) => self.after_status(
                created,
                run,
            ),
            (CleanupStageView::Remove { .. }, ReplyView::Git(run)) => self.after_remove(run),
            (CleanupStageView::RemoveFailed { code }, ReplyView::Exists(path_exists)) => {
                Progress::Done(
                    Err(
                        WorktreeErrorView::CleanupCommandFailed {
                            operation: GitOperation::RemovePristine,
                            code,
                            path_exists,
                        },
                    ),
                )
            },
            (CleanupStageView::DeleteBranch, ReplyView::Git(run)) => self.after_delete(run),
            (CleanupStageView::Probe { probe, fallback }, _) => self.probing(
                probe.after(reply),
                fallback,
            ),
            (CleanupStageView::ProbeFailed { fallback }, ReplyView::Exists(path_exists)) => {
                Progress::Done(
                    Ok(
                        WorktreeCleanupView::Partial {
                            branch_exists: true,
                            path_exists,
                            detail: prefix_within(
                                fallback,
                                self.limits.max_failure_detail_bytes as nat,
                            ),
                        },
                    ),
                )
            },
            _ => Progress::Continue(self),
        }
    }
}

/// Starts to remove a worktree and its branch. They go only if the worktree is
/// still the recorded one, has no changes, and its branch never came on from the
/// base; the branch is deleted only if it still stands there.
pub fn cleanup_pristine_worktree(plan: WorktreeCreatePlan, limits: RuntimeLimits) -> (r: Progress<
    WorktreeCleanup,
    WorktreeCleanupResult,
    WorktreeError,
>)
    ensures
        progress_view(r) == CleanupView::begun(plan@, limits),
{
    match check_plan(&plan, limits) {
        Err(error) => Progress::Done(Err(error)),
        Ok(_) => {
            let verification = verify_existing_worktree(
                plan.base.clone(),
                plan.branch.as_str(),
                plan.worktree_path.as_str(),
                false,
                limits,
            );
            Progress::Continue(
                WorktreeCleanup { stage: CleanupStage::Verify { verification }, plan, limits },
            )
        },
    }
}

impl WorktreeCleanup {
    /// What the cleanup needs to know or have done next.
    pub fn need(&self) -> (r: WorktreeNeed)
        ensures
            r@ == self@.need(),
    {
        let output: usize = self.limits.max_git_command_output_bytes;
        match &self.stage {
            CleanupStage::Verify { verification } => verification.need(),
            CleanupStage::Head { created } => run_git(
                created.worktree_root.as_str(),
                args3("rev-parse", "--verify", "HEAD^{commit}"),
                output,
            ),
            CleanupStage::Status { created } => run_git(
                created.worktree_root.as_str(),
                args3("status", "--porcelain=v1", "--untracked-files=normal"),
                1,
            ),
            CleanupStage::Remove { created } => run_git(
                self.plan.base.repository_root.as_str(),
                args3("worktree", "remove", created.worktree_root.as_str()),
                output,
            ),
            CleanupStage::RemoveFailed { .. } | CleanupStage::ProbeFailed { .. } => {
                WorktreeNeed::Exists(self.plan.worktree_path.clone())
            },
            CleanupStage::DeleteBranch => {
                let full_ref = join("refs/heads/", self.plan.branch.as_str());
                run_git(
                    self.plan.base.repository_root.as_str(),
                    args4(
                        "update-ref",
                        "-d",
                        full_ref.as_str(),
                        self.plan.base.base_commit.as_str(),
                    ),
                    output,
                )
            },
            CleanupStage::Probe { probe, .. } => probe.need(),
        }
    }

    fn on_probe(
        plan: WorktreeCreatePlan,
        limits: RuntimeLimits,
        step: Progress<RecoveryProbe, WorktreeRecoveryProbe, WorktreeError>,
        fallback: Option<String>,
        Ghost(stage): Ghost<CleanupStageView>,
    ) -> (r: Progress<WorktreeCleanup, WorktreeCleanupResult, WorktreeError>)
        ensures
            progress_view(r) == (CleanupView { stage, plan: plan@, limits }).probing(
                progress_view(step),
                match fallback {
                    Some(text) => Some(text@),
                    None => None,
                },
            ),
    {
        match step {
            Progress::Continue(probe) => Progress::Continue(
                WorktreeCleanup { stage: CleanupStage::Probe { probe, fallback }, plan, limits },
            ),
            Progress::Done(Ok(probed)) => Progress::Done(Ok(read_probe(probed, fallback))),
            Progress::Done(Err(error)) => match fallback {
                Some(fallback) => Progress::Continue(
                    WorktreeCleanup { stage: CleanupStage::ProbeFailed { fallback }, plan, limits },
                ),
                None => Progress::Done(Err(error)),
            },
        }
    }

    fn on_head(
        plan: WorktreeCreatePlan,
        limits: RuntimeLimits,
        created: CreatedWorktree,
        run: Result<GitOutput, GitFailure>,
    ) -> (r: Progress<WorktreeCleanup, WorktreeCleanupResult, WorktreeError>)
        ensures
            progress_view(r) == (CleanupView {
                stage: CleanupStageView::Head { created: created@ },
                plan: plan@,
                limits,
            }).after_head(created@, git_run(run)),
    {
        match git_text(run, GitOperation::VerifyCleanupHead, limits) {
            Err(error) => Progress::Done(Err(error)),
            Ok(head) => {
                if same_text(head.as_str(), plan.base.base_commit.as_str()) {
                    Progress::Continue(
                        WorktreeCleanup { stage: CleanupStage::Status { created }, plan, limits },
                    )
                } else {
                    Progress::Done(
                        Err(
                            WorktreeError::CleanupContainsCommits {
                                base_commit: plan.base.base_commit,
                                head,
                            },
                        ),
                    )
                }
            },
        }
    }

    fn on_status(
        plan: WorktreeCreatePlan,
        limits: RuntimeLimits,
        created: CreatedWorktree,
        run: Result<GitOutput, GitFailure>,
    ) -> (r: Progress<WorktreeCleanup, WorktreeCleanupResult, WorktreeError>)
        ensures
            progress_view(r) == (CleanupView {
                stage: CleanupStageView::Status { created: created@ },
                plan: plan@,
                limits,
            }).after_status(created@, git_run(run)),
    {
        match run {
            Err(failure) => Progress::Done(Err(failure.error())),
            Ok(output) => {
                if !succeeded(&output) {
                    Progress::Done(
                        Err(
                            WorktreeError::GitCommandFailed {
                                operation: GitOperation::VerifyCleanupStatus,
                                code: output.code,
                            },
                        ),
                    )
                } else if output.stdout_exceeded || output.stdout.len() > 0 {
                    Progress::Done(
                        Err(WorktreeError::CleanupDirty { path: created.worktree_root }),
                    )
                } else {
                    Progress::Continue(
                        WorktreeCleanup { stage: CleanupStage::Remove { created }, plan, limits },
                    )
                }
            },
        }
    }

    fn on_delete(
        plan: WorktreeCreatePlan,
        limits: RuntimeLimits,
        run: Result<GitOutput, GitFailure>,
    ) -> (r: Progress<WorktreeCleanup, WorktreeCleanupResult, WorktreeError>)
        ensures
            progress_view(r) == (CleanupView {
                stage: CleanupStageView::DeleteBranch,
                plan: plan@,
                limits,
            }).after_delete(git_run(run)),
    {
        let fallback = match run {
            Err(failure) => {
                let error = failure.error();
                Some(
                    join(
                        "worktree path was removed but branch deletion became indeterminate: ",
                        error.message().as_str(),
                    ),
                )
            },
            Ok(output) => {
                if succeeded(&output) {
                    None
                } else {
                    Some(
                        join(
                            "worktree path was removed but exact branch deletion failed with exit code ",
                            write_code(output.code).as_str(),
                        ),
                    )
                }
            },
        };
        let step = probe_worktree_recovery(plan.clone(), limits);
        Self::on_probe(plan, limits, step, fallback, Ghost(CleanupStageView::DeleteBranch))
    }

    fn on_git(
        stage: CleanupStage,
        plan: WorktreeCreatePlan,
        limits: RuntimeLimits,
        run: Result<GitOutput, GitFailure>,
    ) -> (r: Progress<WorktreeCleanup, WorktreeCleanupResult, WorktreeError>)
        requires
            !(stage is Verify || stage is Probe),
        ensures
            progress_view(r) == (CleanupView { stage: stage@, plan: plan@, limits }).after(
                WorktreeReply::Git(run)@,
            ),
    {
        match stage {
            CleanupStage::Head { created } => Self::on_head(plan, limits, created, run),
            CleanupStage::Status { created } => Self::on_status(plan, limits, created, run),
            CleanupStage::Remove { .. } => match run {
                Err(failure) => Progress::Done(Err(failure.error())),
                Ok(output) => {
                    let stage = if succeeded(&output) {
                        CleanupStage::DeleteBranch
                    } else {
                        CleanupStage::RemoveFailed { code: output.code }
                    };
                    Progress::Continue(WorktreeCleanup { stage, plan, limits })
                },
            },
            CleanupStage::DeleteBranch => Self::on_delete(plan, limits, run),
            stage => Progress::Continue(WorktreeCleanup { stage, plan, limits }),
        }
    }

    /// Goes on with an answer to what the cleanup needs.
    pub fn advance(self, reply: WorktreeReply) -> (r: Progress<
        WorktreeCleanup,
        WorktreeCleanupResult,
        WorktreeError,
    >)
        requires
            reply@.answers(self@.need()),
        ensures
            progress_view(r) == self@.after(reply@),
    {
        let ghost view = self@;
        let plan = self.plan;
        let limits = self.limits;
        match self.stage {
            CleanupStage::Verify { verification } => match verification.advance(reply) {
                Progress::Continue(verification) => Progress::Continue(
                    WorktreeCleanup { stage: CleanupStage::Verify { verification }, plan, limits },
                ),
                Progress::Done(Ok(created)) => Progress::Continue(
                    WorktreeCleanup { stage: CleanupStage::Head { created }, plan, limits },
                ),
                Progress::Done(Err(error)) => Progress::Done(Err(error)),
            },
            CleanupStage::Probe { probe, fallback } => {
                let step = probe.advance(reply);
                Self::on_probe(plan, limits, step, fallback, Ghost(view.stage))
            },
            stage => match reply {
                WorktreeReply::Git(run) => Self::on_git(stage, plan, limits, run),
                WorktreeReply::Exists(path_exists) => match stage {
                    CleanupStage::RemoveFailed { code } => Progress::Done(
                        Err(
                            WorktreeError::CleanupCommandFailed {
                                operation: GitOperation::RemovePristine,
                                code,
                                path_exists,
                            },
                        ),
                    ),
                    CleanupStage::ProbeFailed { fallback } => Progress::Done(
                        Ok(
                            WorktreeCleanupResult::Partial {
                                branch_exists: true,
                                path_exists,
                                detail: bounded_failure_detail(fallback.as_str(), limits),
                            },
                        ),
                    ),
                    stage => Progress::Continue(WorktreeCleanup { stage, plan, limits }),
                },
                WorktreeReply::Canonical(_) => Progress::Continue(
                    WorktreeCleanup { stage, plan, limits },
                ),
            },
        }
    }
}

/// A worktree is removed only after Git said that it has no changes, which it is
/// asked only after its HEAD was found at the base.
pub proof fn only_a_pristine_worktree_is_removed(cleanup: CleanupView, reply: ReplyView)
    requires
        reply.answers(cleanup.need()),
        cleanup.after(reply) is Continue,
    ensures
        ({
            let next = cleanup.after(reply)->Continue_0.stage;
            &&& next is Remove && !(cleanup.stage is Remove) ==> cleanup.stage == (
            CleanupStageView::Status { created: next->Remove_created }) && reply
                == ReplyView::Git(
                Ok(
                    GitOutputView {
                        code: Some(0i32),
                        stdout: reply->Git_0->Ok_0.stdout,
                        stdout_exceeded: false,
                    },
                ),
            ) && reply->Git_0->Ok_0.stdout.len() == 0
            &&& next is Status && !(cleanup.stage is Status) ==> cleanup.stage == (
            CleanupStageView::Head { created: next->Status_created }) && run_text(
                reply->Git_0,
                GitOperation::VerifyCleanupHead,
                cleanup.limits,
            ) == Ok::<Seq<char>, WorktreeErrorView>(cleanup.plan.base.base_commit)
            &&& next is DeleteBranch && !(cleanup.stage is DeleteBranch)
                ==> cleanup.stage is Remove
        }),
{
}

/// A cleanup says that all is removed only after a probe found neither the branch
/// nor the path.
pub proof fn removed_means_nothing_is_left(cleanup: CleanupView, reply: ReplyView)
    requires
        reply.answers(cleanup.need()),
        cleanup.after(reply) == CleanupStep::Done(Ok(WorktreeCleanupView::Removed)),
    ensures
        cleanup.stage is Probe,
        cleanup.stage->Probe_probe.after(reply) == Progress::<
            RecoveryProbeView,
            WorktreeProbeView,
            WorktreeErrorView,
        >::Done(Ok(WorktreeProbeView::NotCreated)),
{
}

} // verus!
