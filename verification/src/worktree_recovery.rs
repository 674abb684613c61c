//! What became of a planned worktree, found out without changing anything.
use vstd::prelude::*;
use vstd::string::*;

use crate::limits::RuntimeLimits;
use crate::paths::{is_absolute, path_is_absolute};
use crate::text::{join, keep_prefix, prefix_within};
use crate::worktree::{
    branch_exists_at_result, branch_found, path_refusal, ref_refusal, validate_path_bytes,
    validate_ref_text, GitOutputView, WorktreeCreatePlan, WorktreePlanView, WorktreeProbeView,
    WorktreeRecoveryProbe,
};
use crate::worktree_error::{GitOperation, WorktreeError, WorktreeErrorView};
use crate::worktree_flow::{
    args4, git_at, progress_view, run_git, verify_existing_worktree, NeedView, Progress, ReplyView,
    VerificationView, WorktreeNeed, WorktreeReply, WorktreeVerification,
};

verus! {

/// The full name of a branch.
pub open spec fn branch_ref(branch: Seq<char>) -> Seq<char> {
    "refs/heads/"@ + branch
}

/// The command that looks for a branch.
pub open spec fn show_ref(repository_root: Seq<char>, branch: Seq<char>) -> NeedView {
    git_at(
        repository_root,
        seq!["show-ref"@, "--verify"@, "--quiet"@, branch_ref(branch)],
        1,
    )
}

/// The command that looks for a branch.
pub(crate) fn look_for_branch(repository_root: &str, branch: &str) -> (r: WorktreeNeed)
    ensures
        r@ == show_ref(repository_root@, branch@),
{
    let full_ref = join("refs/heads/", branch);
    run_git(repository_root, args4("show-ref", "--verify", "--quiet", full_ref.as_str()), 1)
}

/// Keeps a detail within its limit.
pub fn bounded_failure_detail(detail: &str, limits: RuntimeLimits) -> (r: String)
    ensures
        r@ == prefix_within(detail@, limits.max_failure_detail_bytes as nat),
{
    keep_prefix(detail, limits.max_failure_detail_bytes)
}

/// What is wrong with the names of a plan, if anything is.
pub open spec fn plan_refusal(plan: WorktreePlanView, limits: RuntimeLimits) -> Option<
    WorktreeErrorView,
> {
    match ref_refusal(plan.branch, limits) {
        Some(error) => Some(error),
        None => path_refusal(plan.worktree_path, limits),
    }
}

/// What is wrong with a plan whose path has to be absolute, if anything is.
pub open spec fn absolute_plan_refusal(plan: WorktreePlanView, limits: RuntimeLimits) -> Option<
    WorktreeErrorView,
> {
    match plan_refusal(plan, limits) {
        Some(error) => Some(error),
        None => if !path_is_absolute(plan.worktree_path) {
            Some(WorktreeErrorView::WorktreePathMustBeAbsolute { path: plan.worktree_path })
        } else {
            None
        },
    }
}

/// Refuses a plan whose names are too long.
pub(crate) fn check_plan(plan: &WorktreeCreatePlan, limits: RuntimeLimits) -> (r: Result<
    (),
    WorktreeError,
>)
    ensures
        match plan_refusal(plan@, limits) {
            Some(error) => r is Err && r->Err_0@ == error,
            None => r is Ok,
        },
{
    match validate_ref_text(plan.branch.as_str(), limits) {
        Err(error) => Err(error),
        Ok(_) => validate_path_bytes(plan.worktree_path.as_str(), limits),
    }
}

/// Refuses a plan whose names are too long or whose path is not absolute.
pub(crate) fn check_absolute_plan(plan: &WorktreeCreatePlan, limits: RuntimeLimits) -> (r: Result<
    (),
    WorktreeError,
>)
    ensures
        match absolute_plan_refusal(plan@, limits) {
            Some(error) => r is Err && r->Err_0@ == error,
            None => r is Ok,
        },
{
    match check_plan(plan, limits) {
        Err(error) => Err(error),
        Ok(_) => {
            if is_absolute(plan.worktree_path.as_str()) {
                Ok(())
            } else {
                Err(
                    WorktreeError::WorktreePathMustBeAbsolute {
                        path: plan.worktree_path.clone(),
                    },
                )
            }
        },
    }
}

/// Where a recovery probe stands.
#[derive(Debug, PartialEq, Eq)]
pub enum ProbeStage {
    Branch,
    Path { branch_exists: bool },
    Verify { branch_exists: bool, verification: WorktreeVerification },
}

/// Model of a [`ProbeStage`].
pub enum ProbeStageView {
    Branch,
    Path { branch_exists: bool },
    Verify { branch_exists: bool, verification: VerificationView },
}

impl View for ProbeStage {
    type V = ProbeStageView;

    open spec fn view(&self) -> ProbeStageView {
        match *self {
            ProbeStage::Branch => ProbeStageView::Branch,
            ProbeStage::Path { branch_exists } => ProbeStageView::Path { branch_exists },
            ProbeStage::Verify { branch_exists, verification } => ProbeStageView::Verify {
                branch_exists,
                verification: verification@,
            },
        }
    }
}

/// Finds out what became of a planned worktree.
#[derive(Debug, PartialEq, Eq)]
pub struct RecoveryProbe {
    stage: ProbeStage,
    plan: WorktreeCreatePlan,
    limits: RuntimeLimits,
}

/// Model of a [`RecoveryProbe`].
pub struct RecoveryProbeView {
    pub stage: ProbeStageView,
    pub plan: WorktreePlanView,
    pub limits: RuntimeLimits,
}

impl View for RecoveryProbe {
    type V = RecoveryProbeView;

    closed spec fn view(&self) -> RecoveryProbeView {
        RecoveryProbeView { stage: self.stage@, plan: self.plan@, limits: self.limits }
    }
}

/// How a probe goes on.
pub type ProbeStep = Progress<RecoveryProbeView, WorktreeProbeView, WorktreeErrorView>;

impl RecoveryProbeView {
    pub open spec fn begun(plan: WorktreePlanView, limits: RuntimeLimits) -> ProbeStep {
        match absolute_plan_refusal(plan, limits) {
            Some(error) => Progress::Done(Err(error)),
            None => Progress::Continue(
                RecoveryProbeView { stage: ProbeStageView::Branch, plan, limits },
            ),
        }
    }

    /// What the probe needs to know next.
    pub open spec fn need(self) -> NeedView {
        match self.stage {
            ProbeStageView::Branch => show_ref(self.plan.base.repository_root, self.plan.branch),
            ProbeStageView::Path { .. } => NeedView::Exists(self.plan.worktree_path),
            ProbeStageView::Verify { verification, .. } => verification.need(),
        }
    }

    pub open spec fn after_branch(self, run: Result<GitOutputView, WorktreeErrorView>) -> ProbeStep {
        match branch_found(run, GitOperation::CheckRecoveryBranch) {
            Err(error) => Progress::Done(Err(error)),
            Ok(branch_exists) => Progress::Continue(
                RecoveryProbeView { stage: ProbeStageView::Path { branch_exists }, ..self },
            ),
        }
    }

    /// `NotCreated` only where neither the branch nor the path is there.
    pub open spec fn after_path(self, branch_exists: bool, path_exists: bool) -> ProbeStep {
        if path_exists {
            Progress::Continue(
                RecoveryProbeView {
                    stage: ProbeStageView::Verify {
                        branch_exists,
                        verification: VerificationView::begun(
                            self.plan.base,
                            self.plan.branch,
                            self.plan.worktree_path,
                            false,
                            self.limits,
                        ),
                    },
                    ..self
                },
            )
        } else if branch_exists {
            Progress::Done(
                Ok(
                    WorktreeProbeView::Partial {
                        branch_exists,
                        path_exists,
                        detail: "captured branch exists but requested worktree path does not"@,
                    },
                ),
            )
        } else {
            Progress::Done(Ok(WorktreeProbeView::NotCreated))
        }
    }

    pub open spec fn after_verify(
        self,
        branch_exists: bool,
        verification: VerificationView,
        reply: ReplyView,
    ) -> ProbeStep {
        match verification.after(reply) {
            Progress::Continue(verification) => Progress::Continue(
                RecoveryProbeView {
                    stage: ProbeStageView::Verify { branch_exists, verification },
                    ..self
                },
            ),
            Progress::Done(Ok(created)) => Progress::Done(Ok(WorktreeProbeView::Exact { created })),
            Progress::Done(Err(error)) => Progress::Done(
                Ok(
                    WorktreeProbeView::Partial {
                        branch_exists,
                        path_exists: true,
                        detail: prefix_within(
                            error.message(),
                            self.limits.max_failure_detail_bytes as nat,
                        ),
                    },
                ),
            ),
        }
    }

    /// How the probe goes on with an answer to what it needs.
    pub open spec fn after(self, reply: ReplyView) -> ProbeStep {
        match (self.stage, reply) {
            (ProbeStageView::Branch, ReplyView::Git(run)) => self.after_branch(run),
            (ProbeStageView::Path { branch_exists }, ReplyView::Exists(path_exists)) => {
                self.after_path(branch_exists, path_exists)
            },
            (ProbeStageView::Verify { branch_exists, verification }, _) => self.after_verify(
                branch_exists,
                verification,
                reply,
            ),
            _ => Progress::Continue(self),
        }
    }
}

/// Starts to find out what became of a planned worktree after a restart, without
/// changing anything.
pub fn probe_worktree_recovery(plan: WorktreeCreatePlan, limits: RuntimeLimits) -> (r: Progress<
    RecoveryProbe,
    WorktreeRecoveryProbe,
    WorktreeError,
>)
    ensures
        progress_view(r) == RecoveryProbeView::begun(plan@, limits),
{
    match check_absolute_plan(&plan, limits) {
        Err(error) => Progress::Done(Err(error)),
        Ok(_) => Progress::Continue(RecoveryProbe { stage: ProbeStage::Branch, plan, limits }),
    }
}

impl RecoveryProbe {
    /// What the probe needs to know next.
    pub fn need(&self) -> (r: WorktreeNeed)
        ensures
            r@ == self@.need(),
    {
        match &self.stage {
            ProbeStage::Branch => look_for_branch(
                self.plan.base.repository_root.as_str(),
                self.plan.branch.as_str(),
            ),
            ProbeStage::Path { .. } => WorktreeNeed::Exists(self.plan.worktree_path.clone()),
            ProbeStage::Verify { verification, .. } => verification.need(),
        }
    }

    /// Goes on with an answer to what the probe needs.
    pub fn advance(self, reply: WorktreeReply) -> (r: Progress<
        RecoveryProbe,
        WorktreeRecoveryProbe,
        WorktreeError,
    >)
        requires
            reply@.answers(self@.need()),
        ensures
            progress_view(r) == self@.after(reply@),
    {
        let plan = self.plan;
        let limits = self.limits;
        match self.stage {
            ProbeStage::Branch => match reply {
                WorktreeReply::Git(run) => match branch_exists_at_result(
                    run,
                    GitOperation::CheckRecoveryBranch,
                ) {
                    Err(error) => Progress::Done(Err(error)),
                    Ok(branch_exists) => Progress::Continue(
                        RecoveryProbe { stage: ProbeStage::Path { branch_exists }, plan, limits },
                    ),
                },
                _ => Progress::Continue(RecoveryProbe { stage: ProbeStage::Branch, plan, limits }),
            },
            ProbeStage::Path { branch_exists } => {
                let path_exists = match reply {
                    WorktreeReply::Exists(path_exists) => path_exists,
                    _ => false,
                };
                if path_exists {
                    let verification = verify_existing_worktree(
                        plan.base.clone(),
                        plan.branch.as_str(),
                        plan.worktree_path.as_str(),
                        false,
                        limits,
                    );
                    Progress::Continue(
                        RecoveryProbe {
                            stage: ProbeStage::Verify { branch_exists, verification },
                            plan,
                            limits,
                        },
                    )
                } else if branch_exists {
                    Progress::Done(
                        Ok(
                            WorktreeRecoveryProbe::Partial {
                                branch_exists,
                                path_exists,
                                detail: "captured branch exists but requested worktree path does not".to_owned(),
                            },
                        ),
                    )
                } else {
                    Progress::Done(Ok(WorktreeRecoveryProbe::NotCreated))
                }
            },
            ProbeStage::Verify { branch_exists, verification } => match verification.advance(reply) {
                Progress::Continue(verification) => Progress::Continue(
                    RecoveryProbe {
                        stage: ProbeStage::Verify { branch_exists, verification },
                        plan,
                        limits,
                    },
                ),
                Progress::Done(Ok(created)) => Progress::Done(
                    Ok(WorktreeRecoveryProbe::Exact { created }),
                ),
                Progress::Done(Err(error)) => {
                    let message = error.message();
                    Progress::Done(
                        Ok(
                            WorktreeRecoveryProbe::Partial {
                                branch_exists,
                                path_exists: true,
                                detail: bounded_failure_detail(message.as_str(), limits),
                            },
                        ),
                    )
                },
            },
        }
    }
}

/// A probe says that nothing was created only after Git has said that the branch
/// is not there and the file system that the path is not.
pub proof fn not_created_needs_both_absent(probe: RecoveryProbeView, reply: ReplyView)
    requires
        reply.answers(probe.need()),
        probe.after(reply) == ProbeStep::Done(Ok(WorktreeProbeView::NotCreated)),
    ensures
        probe.stage == (ProbeStageView::Path { branch_exists: false }),
        reply == ReplyView::Exists(false),
{
}

/// What a probe says of the branch is what Git said.
pub proof fn probe_remembers_the_branch(
    probe: RecoveryProbeView,
    run: Result<GitOutputView, WorktreeErrorView>,
)
    requires
        probe.stage is Branch,
        probe.after(ReplyView::Git(run)) is Continue,
    ensures
        probe.after(ReplyView::Git(run))->Continue_0.stage == (ProbeStageView::Path {
            branch_exists: run->Ok_0.code == Some(0i32),
        }),
        run->Ok_0.code == Some(0i32) || run->Ok_0.code == Some(1i32),
{
}

} // verus!
