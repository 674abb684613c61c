//! What the steps on Git worktrees find out, and what they rely on.
use vstd::prelude::*;
use vstd::string::*;
use vstd::utf8::*;

use crate::limits::RuntimeLimits;
use crate::paths::{parent_of_path, path_joined, path_within, relative_to, same_place};
use crate::session_preview::file_name_of;
use crate::text::{byte_len, trimmed};
use crate::worktree::{
    branch_found, path_refusal, ref_refusal, run_text, GitCommandView, GitOutputView,
    WorktreeBaseView, WorktreeCleanupView, WorktreePlanView, WorktreeProbeView,
};
use crate::worktree_cleanup::{cleanup_result, CleanupStageView, CleanupView};
use crate::worktree_creation::{AddFailureView, CreateStageView, CreationView};
use crate::worktree_error::{GitOperation, WorktreeErrorView};
use crate::worktree_flow::{
    slashed, BaseInspectionView, InspectStage, InspectStep, NeedView, Progress, ReplyView,
    VerificationView, VerifyStage,
};
use crate::worktree_recovery::{ProbeStageView, ProbeStep, RecoveryProbeView};

verus! {

/// What Git and the file system answer, as long as nothing changes.
pub struct World {
    pub answer: spec_fn(NeedView) -> ReplyView,
}

impl World {
    /// Whether each question gets an answer of its kind.
    pub open spec fn answers_all(self) -> bool {
        forall|need: NeedView| (#[trigger] (self.answer)(need)).answers(need)
    }

    /// How Git ends with these arguments in a directory, where at most `max_bytes` of its
    /// output are kept, and at least one.
    pub open spec fn git(self, cwd: Seq<char>, args: Seq<Seq<char>>, max_bytes: usize) -> Result<
        GitOutputView,
        WorktreeErrorView,
    > {
        let kept = if max_bytes == 0 {
            1
        } else {
            max_bytes
        };
        (self.answer)(NeedView::Git(GitCommandView { cwd, args, max_bytes: kept }))->Git_0
    }

    /// Whether a path resolves to this one.
    pub open spec fn resolves(self, path: Seq<char>, to: Seq<char>) -> bool {
        (self.answer)(NeedView::Canonicalize(path)) == ReplyView::Canonical(Ok(to))
    }
}

/// Whether a command succeeded and wrote this text, with white space around it or not, and
/// nothing of it was lost.
pub open spec fn wrote(run: Result<GitOutputView, WorktreeErrorView>, text: Seq<char>) -> bool {
    &&& run is Ok
    &&& run->Ok_0.code == Some(0i32)
    &&& !run->Ok_0.stdout_exceeded
    &&& valid_utf8(run->Ok_0.stdout)
    &&& trimmed(decode_utf8(run->Ok_0.stdout)) == text
    &&& text.len() > 0
}

/// Whether a command succeeded, whatever it wrote.
pub open spec fn succeeded_with(run: Result<GitOutputView, WorktreeErrorView>, code: i32) -> bool {
    run is Ok && run->Ok_0.code == Some(code)
}

/// Whether a command succeeded and wrote nothing at all.
pub open spec fn wrote_nothing(run: Result<GitOutputView, WorktreeErrorView>) -> bool {
    succeeded_with(run, 0) && !run->Ok_0.stdout_exceeded && run->Ok_0.stdout.len() == 0
}

/// The text of a command is taken if and only if it succeeded and wrote that text.
pub proof fn texts_are_what_commands_wrote(
    run: Result<GitOutputView, WorktreeErrorView>,
    operation: GitOperation,
    limits: RuntimeLimits,
    text: Seq<char>,
)
    ensures
        run_text(run, operation, limits) == Ok::<Seq<char>, WorktreeErrorView>(text) <==> wrote(
            run,
            text,
        ),
        run is Ok && run->Ok_0.code != Some(0i32) ==> run_text(run, operation, limits) == Err::<
            Seq<char>,
            WorktreeErrorView,
        >(WorktreeErrorView::GitCommandFailed { operation, code: run->Ok_0.code }),
        run is Err ==> run_text(run, operation, limits) == Err::<Seq<char>, WorktreeErrorView>(
            run->Err_0,
        ),
        run is Ok && run->Ok_0.code == Some(0i32) && run->Ok_0.stdout_exceeded ==> run_text(
            run,
            operation,
            limits,
        ) is Err && run_text(run, operation, limits)->Err_0 is GitOutputTooLarge,
{
}

/// A branch is there if Git found it, and not there if Git said so with its code for that;
/// anything else is an error.
pub proof fn branches_are_found_by_exit_code(
    run: Result<GitOutputView, WorktreeErrorView>,
    operation: GitOperation,
)
    ensures
        branch_found(run, operation) == Ok::<bool, WorktreeErrorView>(true) <==> succeeded_with(
            run,
            0,
        ),
        branch_found(run, operation) == Ok::<bool, WorktreeErrorView>(false) <==> succeeded_with(
            run,
            1,
        ),
{
}

/// Names and paths are taken up to their limits, and a name has to be there at all.
pub proof fn names_and_paths_are_bounded(name: Seq<char>, limits: RuntimeLimits)
    ensures
        ref_refusal(name, limits) is None <==> 0 < name.len() && byte_len(name)
            <= limits.max_git_ref_bytes,
        path_refusal(name, limits) is None <==> byte_len(name) <= limits.max_worktree_path_bytes,
{
}

/// How an inspection ends in a world, within so many steps.
pub open spec fn inspected(inspection: BaseInspectionView, world: World, steps: nat) -> InspectStep
    decreases steps,
{
    if steps == 0 {
        Progress::Continue(inspection)
    } else {
        match inspection.after((world.answer)(inspection.need())) {
            Progress::Continue(next) => inspected(next, world, (steps - 1) as nat),
            done => done,
        }
    }
}

/// Whether a base is what Git and the file system say of a project: where the project and
/// its repository resolve to, the commit and the branch that are checked out, that the
/// project is part of that commit, and whether anything was changed since.
pub open spec fn is_base(
    world: World,
    asked: Seq<char>,
    base: WorktreeBaseView,
    limits: RuntimeLimits,
) -> bool {
    let output = limits.max_git_command_output_bytes;
    let root = base.repository_root;
    let branch = world.git(
        root,
        seq!["symbolic-ref"@, "--quiet"@, "--short"@, "HEAD"@],
        limits.max_git_ref_bytes,
    );
    let status = world.git(
        root,
        seq!["status"@, "--porcelain=v1"@, "--untracked-files=normal"@],
        1,
    );
    &&& world.resolves(asked, base.project_root)
    &&& byte_len(base.project_root) <= limits.max_worktree_path_bytes
    &&& exists|top: Seq<char>|
        wrote(
            world.git(base.project_root, seq!["rev-parse"@, "--show-toplevel"@], output),
            top,
        ) && #[trigger] world.resolves(top, root)
    &&& byte_len(root) <= limits.max_worktree_path_bytes
    &&& path_within(base.project_root, root)
    &&& base.project_relative_path == relative_to(base.project_root, root)
    &&& wrote(
        world.git(root, seq!["rev-parse"@, "--verify"@, "HEAD^{commit}"@], output),
        base.base_commit,
    )
    &&& byte_len(base.base_commit) <= limits.max_git_ref_bytes
    &&& match base.source_branch {
        Some(name) => wrote(branch, name) && byte_len(name) <= limits.max_git_ref_bytes,
        None => succeeded_with(branch, 1),
    }
    &&& base.project_relative_path.len() > 0 ==> succeeded_with(
        world.git(
            root,
            seq![
                "cat-file"@,
                "-e"@,
                base.base_commit + ":"@ + slashed(base.project_relative_path),
            ],
            1,
        ),
        0,
    )
    &&& succeeded_with(status, 0)
    &&& base.dirty <==> !wrote_nothing(status)
}

/// An inspection ends well if and only if Git and the file system say so, and then with what
/// they say. In particular a base is clean if and only if Git reported no change at all.
pub proof fn an_inspection_finds_what_is_there(
    world: World,
    asked: Seq<char>,
    base: WorktreeBaseView,
    limits: RuntimeLimits,
)
    requires
        world.answers_all(),
    ensures
        inspected(BaseInspectionView::begun(asked, limits), world, 7) == InspectStep::Done(
            Ok(base),
        ) <==> is_base(world, asked, base, limits),
{
    let start = BaseInspectionView::begun(asked, limits);
    assert((world.answer)(start.need()).answers(start.need()));
    match start.after((world.answer)(start.need())) {
        Progress::Continue(a) => {
            assert(inspected(start, world, 7) == inspected(a, world, 6));
            lemma_top_level(world, asked, a, base);
        },
        Progress::Done(_) => {},
    }
}

proof fn lemma_top_level(
    world: World,
    asked: Seq<char>,
    at: BaseInspectionView,
    base: WorktreeBaseView,
)
    requires
        world.answers_all(),
        at.stage == InspectStage::TopLevel,
        at.asked == asked,
        world.resolves(asked, at.project_root),
        byte_len(at.project_root) <= at.limits.max_worktree_path_bytes,
    ensures
        inspected(at, world, 6) == InspectStep::Done(Ok(base)) <==> at.project_root
            == base.project_root && is_base(world, asked, base, at.limits),
{
    let run = world.git(
        at.project_root,
        seq!["rev-parse"@, "--show-toplevel"@],
        at.limits.max_git_command_output_bytes,
    );
    assert((world.answer)(at.need()).answers(at.need()));
    assert((world.answer)(at.need())->Git_0 == run);
    match at.after((world.answer)(at.need())) {
        Progress::Continue(b) => {
            let top = b.top_level;
            assert(inspected(at, world, 6) == inspected(b, world, 5));
            assert(wrote(run, top));
            assert((world.answer)(b.need()).answers(b.need()));
            assert forall|other: Seq<char>| wrote(run, other) implies other == top by {}
            match b.after((world.answer)(b.need())) {
                Progress::Continue(c) => {
                    assert(inspected(b, world, 5) == inspected(c, world, 4));
                    assert(world.resolves(top, c.repository_root));
                    lemma_base_commit(world, c, base);
                    if at.project_root == base.project_root && is_base(
                        world,
                        asked,
                        base,
                        at.limits,
                    ) {
                        let other = choose|other: Seq<char>|
                            wrote(run, other) && #[trigger] world.resolves(
                                other,
                                base.repository_root,
                            );
                        assert(other == top);
                        assert(c.repository_root == base.repository_root);
                    }
                },
                Progress::Done(_) => {
                    if at.project_root == base.project_root && is_base(
                        world,
                        asked,
                        base,
                        at.limits,
                    ) {
                        let other = choose|other: Seq<char>|
                            wrote(run, other) && #[trigger] world.resolves(
                                other,
                                base.repository_root,
                            );
                        assert(other == top);
                    }
                },
            }
        },
        Progress::Done(_) => {
            if at.project_root == base.project_root && is_base(world, asked, base, at.limits) {
                let other = choose|other: Seq<char>|
                    wrote(run, other) && #[trigger] world.resolves(other, base.repository_root);
                texts_are_what_commands_wrote(
                    run,
                    GitOperation::ResolveRepositoryRoot,
                    at.limits,
                    other,
                );
            }
        },
    }
}

/// What is left to be found out once the repository is known.
spec fn rest_of_base(world: World, at: BaseInspectionView, base: WorktreeBaseView) -> bool {
    let limits = at.limits;
    let root = at.repository_root;
    let branch = world.git(
        root,
        seq!["symbolic-ref"@, "--quiet"@, "--short"@, "HEAD"@],
        limits.max_git_ref_bytes,
    );
    &&& base.repository_root == root
    &&& base.project_root == at.project_root
    &&& base.project_relative_path == at.relative
    &&& wrote(
        world.git(
            root,
            seq!["rev-parse"@, "--verify"@, "HEAD^{commit}"@],
            limits.max_git_command_output_bytes,
        ),
        base.base_commit,
    )
    &&& byte_len(base.base_commit) <= limits.max_git_ref_bytes
    &&& match base.source_branch {
        Some(name) => wrote(branch, name) && byte_len(name) <= limits.max_git_ref_bytes,
        None => succeeded_with(branch, 1),
    }
    &&& rest_of_status(world, root, base)
}

spec fn rest_of_status(world: World, root: Seq<char>, base: WorktreeBaseView) -> bool {
    let status = world.git(
        root,
        seq!["status"@, "--porcelain=v1"@, "--untracked-files=normal"@],
        1,
    );
    &&& base.project_relative_path.len() > 0 ==> succeeded_with(
        world.git(
            root,
            seq![
                "cat-file"@,
                "-e"@,
                base.base_commit + ":"@ + slashed(base.project_relative_path),
            ],
            1,
        ),
        0,
    )
    &&& succeeded_with(status, 0)
    &&& base.dirty <==> !wrote_nothing(status)
}

proof fn lemma_base_commit(world: World, at: BaseInspectionView, base: WorktreeBaseView)
    requires
        world.answers_all(),
        at.stage == InspectStage::BaseCommit,
    ensures
        inspected(at, world, 4) == InspectStep::Done(Ok(base)) <==> rest_of_base(world, at, base),
{
    let run = world.git(
        at.repository_root,
        seq!["rev-parse"@, "--verify"@, "HEAD^{commit}"@],
        at.limits.max_git_command_output_bytes,
    );
    assert((world.answer)(at.need()).answers(at.need()));
    assert((world.answer)(at.need())->Git_0 == run);
    texts_are_what_commands_wrote(
        run,
        GitOperation::ResolveBaseCommit,
        at.limits,
        base.base_commit,
    );
    match at.after((world.answer)(at.need())) {
        Progress::Continue(next) => {
            assert(inspected(at, world, 4) == inspected(next, world, 3));
            lemma_branch(world, next, base);
        },
        Progress::Done(_) => {},
    }
}

proof fn lemma_branch(world: World, at: BaseInspectionView, base: WorktreeBaseView)
    requires
        world.answers_all(),
        at.stage == InspectStage::Branch,
    ensures
        inspected(at, world, 3) == InspectStep::Done(Ok(base)) <==> {
            let branch = world.git(
                at.repository_root,
                seq!["symbolic-ref"@, "--quiet"@, "--short"@, "HEAD"@],
                at.limits.max_git_ref_bytes,
            );
            &&& base.repository_root == at.repository_root
            &&& base.project_root == at.project_root
            &&& base.project_relative_path == at.relative
            &&& base.base_commit == at.base_commit
            &&& match base.source_branch {
                Some(name) => wrote(branch, name) && byte_len(name) <= at.limits.max_git_ref_bytes,
                None => succeeded_with(branch, 1),
            }
            &&& rest_of_status(world, at.repository_root, base)
        },
{
    let run = world.git(
        at.repository_root,
        seq!["symbolic-ref"@, "--quiet"@, "--short"@, "HEAD"@],
        at.limits.max_git_ref_bytes,
    );
    assert((world.answer)(at.need()).answers(at.need()));
    assert((world.answer)(at.need())->Git_0 == run);
    match at.after((world.answer)(at.need())) {
        Progress::Continue(next) => {
            assert(inspected(at, world, 3) == inspected(next, world, 2));
            lemma_status(world, next, base);
        },
        Progress::Done(_) => {},
    }
}

proof fn lemma_status(world: World, at: BaseInspectionView, base: WorktreeBaseView)
    requires
        world.answers_all(),
        at.stage == (if at.relative.len() == 0 {
            InspectStage::Status
        } else {
            InspectStage::InBase
        }),
    ensures
        inspected(at, world, 2) == InspectStep::Done(Ok(base)) <==> {
            &&& base.repository_root == at.repository_root
            &&& base.project_root == at.project_root
            &&& base.project_relative_path == at.relative
            &&& base.base_commit == at.base_commit
            &&& base.source_branch == at.source_branch
            &&& rest_of_status(world, at.repository_root, base)
        },
{
    assert((world.answer)(at.need()).answers(at.need()));
    if at.stage == InspectStage::InBase {
        match at.after((world.answer)(at.need())) {
            Progress::Continue(next) => {
                assert(inspected(at, world, 2) == inspected(next, world, 1));
                assert((world.answer)(next.need()).answers(next.need()));
                reveal_with_fuel(inspected, 2);
            },
            Progress::Done(_) => {},
        }
    } else {
        reveal_with_fuel(inspected, 2);
    }
}

/// The answers of a world to a verification, stage by stage: each question is asked where it
/// belongs, and only the expected answer leads on.
pub proof fn a_verification_asks_where_it_belongs(at: VerificationView, world: World)
    requires
        world.answers_all(),
    ensures
        ({
            let output = at.limits.max_git_command_output_bytes;
            let next = at.after((world.answer)(at.need()));
            let root = at.worktree_root;
            let source_common = world.git(
                at.base.repository_root,
                seq!["rev-parse"@, "--git-common-dir"@],
                output,
            );
            let own_common = world.git(root, seq!["rev-parse"@, "--git-common-dir"@], output);
            &&& at.stage == VerifyStage::Root && next is Continue ==> {
                &&& world.resolves(at.target, next->Continue_0.worktree_root)
                &&& next->Continue_0.stage == VerifyStage::TopLevel
            }
            &&& at.stage == VerifyStage::TopLevel && next is Continue ==> {
                &&& wrote(
                    world.git(root, seq!["rev-parse"@, "--show-toplevel"@], output),
                    next->Continue_0.pending,
                )
                &&& next->Continue_0.stage == VerifyStage::VerifiedRoot
            }
            &&& at.stage == VerifyStage::VerifiedRoot ==> (next is Continue <==> exists|
                path: Seq<char>,
            | #[trigger]
                world.resolves(at.pending, path) && same_place(path, root))
            &&& at.stage == VerifyStage::VerifiedRoot && next is Continue
                ==> next->Continue_0.stage == VerifyStage::SourceCommon
            &&& at.stage == VerifyStage::SourceCommon && next is Continue ==> {
                &&& exists|text: Seq<char>| #[trigger]
                    wrote(source_common, text) && next->Continue_0.pending == path_joined(
                        at.base.repository_root,
                        text,
                    )
                &&& next->Continue_0.stage == VerifyStage::SourceCommonPath
            }
            &&& at.stage == VerifyStage::SourceCommonPath && next is Continue ==> world.resolves(
                at.pending,
                next->Continue_0.source_common,
            ) && next->Continue_0.stage == VerifyStage::WorktreeCommon
            &&& at.stage == VerifyStage::WorktreeCommon && next is Continue ==> {
                &&& exists|text: Seq<char>| #[trigger]
                    wrote(own_common, text) && next->Continue_0.pending == path_joined(root, text)
                &&& next->Continue_0.stage == VerifyStage::WorktreeCommonPath
            }
            &&& at.stage == VerifyStage::WorktreeCommonPath ==> (next is Continue <==> exists|
                path: Seq<char>,
            | #[trigger]
                world.resolves(at.pending, path) && same_place(at.source_common, path))
            &&& at.stage == VerifyStage::WorktreeCommonPath && next is Continue
                ==> next->Continue_0.stage == VerifyStage::Commit
            &&& at.stage == VerifyStage::Commit && next is Continue ==> wrote(
                world.git(root, seq!["rev-parse"@, "--verify"@, "HEAD^{commit}"@], output),
                next->Continue_0.commit,
            ) && next->Continue_0.stage == VerifyStage::Branch
            &&& at.stage == VerifyStage::Branch ==> (next is Continue <==> wrote(
                world.git(
                    root,
                    seq!["symbolic-ref"@, "--quiet"@, "--short"@, "HEAD"@],
                    output,
                ),
                at.branch,
            ) && (at.require_head_at_base ==> at.commit == at.base.base_commit))
            &&& at.stage == VerifyStage::Branch && next is Continue ==> (next->Continue_0.stage
                == VerifyStage::ExecutionRoot <==> at.require_head_at_base) && (
            next->Continue_0.stage == VerifyStage::Ancestry <==> !at.require_head_at_base)
            &&& at.stage == VerifyStage::Ancestry ==> (next is Continue <==> succeeded_with(
                world.git(
                    root,
                    seq!["merge-base"@, "--is-ancestor"@, at.base.base_commit, "HEAD"@],
                    output,
                ),
                0,
            ))
            &&& at.stage == VerifyStage::Ancestry && next is Continue ==> next->Continue_0.stage
                == VerifyStage::ExecutionRoot
            &&& at.stage == VerifyStage::ExecutionRoot ==> (next is Done && next->Done_0 is Ok
                <==> exists|path: Seq<char>| #[trigger]
                world.resolves(path_joined(root, at.base.project_relative_path), path))
            &&& at.stage != VerifyStage::ExecutionRoot ==> !(next is Done && next->Done_0 is Ok)
        }),
{
    let reply = (world.answer)(at.need());
    assert(reply.answers(at.need()));
    if reply is Git && !(at.stage is Ancestry) {
        match run_text(reply->Git_0, at.operation(), at.limits) {
            Ok(text) => {
                texts_are_what_commands_wrote(reply->Git_0, at.operation(), at.limits, text);
                assert(wrote(reply->Git_0, text));
            },
            Err(_) => {
                texts_are_what_commands_wrote(reply->Git_0, at.operation(), at.limits, at.branch);
            },
        }
    }
    match reply {
        ReplyView::Canonical(Ok(path)) => {
            match at.need() {
                NeedView::Canonicalize(asked) => {
                    assert(world.resolves(asked, path));
                },
                _ => {},
            }
        },
        _ => {},
    }
}

/// What a verification has found stays as it was found, and what it looks for never changes.
pub proof fn a_verification_keeps_what_it_found(at: VerificationView, reply: ReplyView)
    ensures
        match at.after(reply) {
            Progress::Continue(next) => {
                &&& next.base == at.base
                &&& next.branch == at.branch
                &&& next.target == at.target
                &&& next.require_head_at_base == at.require_head_at_base
                &&& next.limits == at.limits
                &&& at.stage != VerifyStage::Root ==> next.worktree_root == at.worktree_root
                &&& at.stage != VerifyStage::SourceCommonPath ==> next.source_common
                    == at.source_common
                &&& at.stage != VerifyStage::Commit ==> next.commit == at.commit
            },
            Progress::Done(Ok(created)) => {
                &&& created.repository_root == at.base.repository_root
                &&& created.worktree_root == at.worktree_root
                &&& created.branch == at.branch
                &&& created.base_commit == at.base.base_commit
                &&& reply == ReplyView::Canonical(Ok(created.execution_root))
            },
            Progress::Done(Err(_)) => true,
        },
{
}

/// How a probe ends in a world, within so many steps.
pub open spec fn probed(probe: RecoveryProbeView, world: World, steps: nat) -> ProbeStep
    decreases steps,
{
    if steps == 0 {
        Progress::Continue(probe)
    } else {
        match probe.after((world.answer)(probe.need())) {
            Progress::Continue(next) => probed(next, world, (steps - 1) as nat),
            done => done,
        }
    }
}

/// The branch of a plan, as Git looks for it.
pub open spec fn looked_for(world: World, plan: WorktreePlanView) -> Result<
    GitOutputView,
    WorktreeErrorView,
> {
    world.git(
        plan.base.repository_root,
        seq!["show-ref"@, "--verify"@, "--quiet"@, "refs/heads/"@ + plan.branch],
        1,
    )
}

/// A probe tells what is there: nothing was created if there is neither the branch nor the
/// path; a branch without the path, or a path that is not the planned worktree, is a part; and
/// exactly the planned worktree is told only where it was verified.
pub proof fn a_probe_tells_what_is_there(
    world: World,
    plan: WorktreePlanView,
    limits: RuntimeLimits,
    probe: RecoveryProbeView,
)
    requires
        world.answers_all(),
        probe == (RecoveryProbeView { stage: ProbeStageView::Branch, plan, limits }),
    ensures
        ({
            let found = looked_for(world, plan);
            let there = (world.answer)(NeedView::Exists(plan.worktree_path))->Exists_0;
            let verification = VerificationView::begun(
                plan.base,
                plan.branch,
                plan.worktree_path,
                false,
                limits,
            );
            &&& succeeded_with(found, 1) && !there ==> probed(probe, world, 2) == ProbeStep::Done(
                Ok(WorktreeProbeView::NotCreated),
            )
            &&& succeeded_with(found, 0) && !there ==> {
                &&& probed(probe, world, 2) is Done
                &&& probed(probe, world, 2)->Done_0 is Ok
                &&& probed(probe, world, 2)->Done_0->Ok_0 is Partial
                &&& probed(probe, world, 2)->Done_0->Ok_0->Partial_branch_exists
                &&& !probed(probe, world, 2)->Done_0->Ok_0->Partial_path_exists
            }
            &&& (succeeded_with(found, 0) || succeeded_with(found, 1)) && there ==> probed(
                probe,
                world,
                2,
            ) == ProbeStep::Continue(
                RecoveryProbeView {
                    stage: ProbeStageView::Verify {
                        branch_exists: succeeded_with(found, 0),
                        verification,
                    },
                    ..probe
                },
            )
            &&& !succeeded_with(found, 0) && !succeeded_with(found, 1) ==> probed(probe, world, 2)
                is Done && probed(probe, world, 2)->Done_0 is Err
        }),
{
    assert((world.answer)(probe.need()).answers(probe.need()));
    reveal_with_fuel(probed, 3);
    let path = NeedView::Exists(plan.worktree_path);
    assert((world.answer)(path).answers(path));
}

/// A probe ends with exactly the worktree that its verification ends with, and with a part
/// where the verification fails; it remembers whether the branch was there.
pub proof fn a_probe_ends_as_its_verification(
    probe: RecoveryProbeView,
    branch_exists: bool,
    verification: VerificationView,
    reply: ReplyView,
)
    requires
        probe.stage == (ProbeStageView::Verify { branch_exists, verification }),
    ensures
        match verification.after(reply) {
            Progress::Continue(next) => probe.after(reply) == ProbeStep::Continue(
                RecoveryProbeView {
                    stage: ProbeStageView::Verify { branch_exists, verification: next },
                    ..probe
                },
            ),
            Progress::Done(Ok(created)) => probe.after(reply) == ProbeStep::Done(
                Ok(WorktreeProbeView::Exact { created }),
            ),
            Progress::Done(Err(_)) => {
                &&& probe.after(reply) is Done
                &&& probe.after(reply)->Done_0 is Ok
                &&& probe.after(reply)->Done_0->Ok_0 is Partial
                &&& probe.after(reply)->Done_0->Ok_0->Partial_branch_exists == branch_exists
                &&& probe.after(reply)->Done_0->Ok_0->Partial_path_exists
            },
        },
        probe.need() == verification.need(),
{
}

/// A creation asks its questions in order, and each answer decides: a path that is there, a
/// source that has moved, a name that Git does not take and a branch that is there end it.
pub proof fn a_creation_is_decided_by_the_answers(creation: CreationView, world: World)
    requires
        world.answers_all(),
    ensures
        ({
            let plan = creation.plan;
            let limits = creation.limits;
            let next = creation.after((world.answer)(creation.need()));
            let refused = next is Done && next->Done_0 is Err;
            let error = next->Done_0->Err_0;
            &&& creation.stage is Absent ==> {
                let there = (world.answer)(NeedView::Exists(plan.worktree_path))->Exists_0;
                &&& there ==> refused && error == (WorktreeErrorView::WorktreePathExists {
                    path: plan.worktree_path,
                })
                &&& !there ==> next is Continue && next->Continue_0.stage == (
                CreateStageView::Inspect {
                    inspection: BaseInspectionView::begun(plan.base.project_root, limits),
                })
            }
            &&& creation.stage is CheckRef ==> {
                let current = creation.stage->CheckRef_current;
                let run = world.git(
                    current.repository_root,
                    seq!["check-ref-format"@, "--branch"@, plan.branch],
                    limits.max_git_ref_bytes,
                );
                &&& succeeded_with(run, 0) <==> next is Continue
                &&& next is Continue ==> next->Continue_0.stage == (CreateStageView::CheckBranch {
                    current,
                })
                &&& run is Ok && !succeeded_with(run, 0) ==> refused && error == (
                WorktreeErrorView::InvalidBranch { branch: plan.branch })
            }
            &&& creation.stage is CheckBranch ==> {
                let current = creation.stage->CheckBranch_current;
                let run = world.git(
                    current.repository_root,
                    seq!["show-ref"@, "--verify"@, "--quiet"@, "refs/heads/"@ + plan.branch],
                    1,
                );
                &&& succeeded_with(run, 0) ==> refused && error == (
                WorktreeErrorView::BranchExists { branch: plan.branch })
                &&& succeeded_with(run, 1) && parent_of_path(plan.worktree_path) is Some ==> next
                    is Continue && next->Continue_0.stage == (CreateStageView::Parent {
                    current,
                    parent: parent_of_path(plan.worktree_path)->0,
                })
                &&& !succeeded_with(run, 1) ==> refused
            }
            &&& creation.stage is Parent ==> {
                let current = creation.stage->Parent_current;
                let parent = creation.stage->Parent_parent;
                &&& next is Continue ==> {
                    &&& next->Continue_0.stage is Add
                    &&& next->Continue_0.stage->Add_current == current
                    &&& exists|directory: Seq<char>| #[trigger]
                        world.resolves(parent, directory) && next->Continue_0.stage->Add_target
                            == path_joined(directory, file_name_of(plan.worktree_path)->0)
                    &&& !path_within(
                        next->Continue_0.stage->Add_target,
                        current.repository_root,
                    )
                }
                &&& forall|directory: Seq<char>| #[trigger]
                    world.resolves(parent, directory) && file_name_of(plan.worktree_path) is Some
                        && path_within(
                        path_joined(directory, file_name_of(plan.worktree_path)->0),
                        current.repository_root,
                    ) ==> refused
            }
            &&& creation.stage is Add ==> {
                let current = creation.stage->Add_current;
                let target = creation.stage->Add_target;
                let run = world.git(
                    current.repository_root,
                    seq!["worktree"@, "add"@, "-b"@, plan.branch, target, current.base_commit],
                    limits.max_git_command_output_bytes,
                );
                &&& next is Continue
                &&& succeeded_with(run, 0) ==> next->Continue_0.stage == (CreateStageView::Verify {
                    target,
                    verification: VerificationView::begun(
                        current,
                        plan.branch,
                        target,
                        true,
                        limits,
                    ),
                })
                &&& !succeeded_with(run, 0) ==> next->Continue_0.stage is FailedBranch
                &&& run is Ok && !succeeded_with(run, 0)
                    ==> next->Continue_0.stage->FailedBranch_failure == (AddFailureView::Failed {
                    code: run->Ok_0.code,
                })
                &&& run is Err ==> next->Continue_0.stage->FailedBranch_failure is Indeterminate
            }
            &&& creation.stage is FailedBranch ==> {
                let current = creation.stage->FailedBranch_current;
                let run = world.git(
                    current.repository_root,
                    seq!["show-ref"@, "--verify"@, "--quiet"@, "refs/heads/"@ + plan.branch],
                    1,
                );
                &&& next is Continue
                &&& next->Continue_0.stage is FailedPath
                &&& next->Continue_0.stage->branch_may_exist <==> succeeded_with(run, 0)
                &&& next->Continue_0.stage->FailedPath_failure
                    == creation.stage->FailedBranch_failure
                &&& next->Continue_0.stage->FailedPath_target
                    == creation.stage->FailedBranch_target
            }
            &&& creation.stage is FailedPath ==> {
                let target = creation.stage->FailedPath_target;
                let there = (world.answer)(NeedView::Exists(target))->Exists_0;
                let may_exist = creation.stage->branch_may_exist;
                &&& refused
                &&& match creation.stage->FailedPath_failure {
                    AddFailureView::Failed { code } => error == (WorktreeErrorView::CreateFailed {
                        branch: plan.branch,
                        path: target,
                        code,
                        branch_may_exist: may_exist,
                        path_exists: there,
                    }),
                    AddFailureView::Indeterminate { detail } => error == (
                    WorktreeErrorView::CreateIndeterminate {
                        branch: plan.branch,
                        path: target,
                        detail,
                        branch_may_exist: may_exist,
                        path_exists: there,
                    }),
                }
            }
        }),
{
    let reply = (world.answer)(creation.need());
    assert(reply.answers(creation.need()));
    match (creation.stage, reply) {
        (CreateStageView::Parent { parent, .. }, ReplyView::Canonical(Ok(directory))) => {
            assert(world.resolves(parent, directory));
        },
        _ => {},
    }
}

/// A creation goes on from the inspection of its source if and only if the source is still
/// the planned one: the same places, the same branch and the same commit. Changes that are
/// not committed do not matter.
pub proof fn a_source_that_moved_ends_the_creation(
    creation: CreationView,
    inspection: BaseInspectionView,
    current: WorktreeBaseView,
    reply: ReplyView,
)
    requires
        creation.stage == (CreateStageView::Inspect { inspection }),
        inspection.after(reply) == InspectStep::Done(Ok(current)),
    ensures
        ({
            let planned = creation.plan.base;
            let next = creation.after(reply);
            let same = same_place(current.repository_root, planned.repository_root) && same_place(
                current.project_root,
                planned.project_root,
            ) && same_place(current.project_relative_path, planned.project_relative_path)
                && current.source_branch == planned.source_branch && current.base_commit
                == planned.base_commit;
            &&& same ==> next is Continue && next->Continue_0.stage == (CreateStageView::CheckRef {
                current,
            })
            &&& !same ==> next is Done && next->Done_0 is Err && next->Done_0->Err_0 == (
            WorktreeErrorView::SourceChanged {
                expected_branch: planned.source_branch,
                expected_commit: planned.base_commit,
                actual_branch: current.source_branch,
                actual_commit: current.base_commit,
            })
        }),
{
}

/// A cleanup removes only what it may: it asks for the head and the changes in the worktree,
/// refuses where the branch has come on or something was changed, and deletes the branch only
/// at the commit of the plan.
pub proof fn a_cleanup_is_decided_by_the_answers(cleanup: CleanupView, world: World)
    requires
        world.answers_all(),
    ensures
        ({
            let plan = cleanup.plan;
            let output = cleanup.limits.max_git_command_output_bytes;
            let next = cleanup.after((world.answer)(cleanup.need()));
            let refused = next is Done && next->Done_0 is Err;
            let error = next->Done_0->Err_0;
            &&& cleanup.stage is Head ==> {
                let created = cleanup.stage->Head_created;
                let run = world.git(
                    created.worktree_root,
                    seq!["rev-parse"@, "--verify"@, "HEAD^{commit}"@],
                    output,
                );
                &&& next is Continue <==> wrote(run, plan.base.base_commit)
                &&& next is Continue ==> next->Continue_0.stage == (CleanupStageView::Status {
                    created,
                })
                &&& forall|head: Seq<char>| #[trigger]
                    wrote(run, head) && head != plan.base.base_commit ==> refused && error == (
                    WorktreeErrorView::CleanupContainsCommits {
                        base_commit: plan.base.base_commit,
                        head,
                    })
            }
            &&& cleanup.stage is Status ==> {
                let created = cleanup.stage->Status_created;
                let run = world.git(
                    created.worktree_root,
                    seq!["status"@, "--porcelain=v1"@, "--untracked-files=normal"@],
                    1,
                );
                &&& next is Continue <==> wrote_nothing(run)
                &&& next is Continue ==> next->Continue_0.stage == (CleanupStageView::Remove {
                    created,
                })
                &&& succeeded_with(run, 0) && !wrote_nothing(run) ==> refused && error == (
                WorktreeErrorView::CleanupDirty { path: created.worktree_root })
            }
            &&& cleanup.stage is Remove ==> {
                let run = world.git(
                    plan.base.repository_root,
                    seq!["worktree"@, "remove"@, cleanup.stage->Remove_created.worktree_root],
                    output,
                );
                &&& succeeded_with(run, 0) ==> next is Continue && next->Continue_0.stage
                    is DeleteBranch
                &&& run is Ok && !succeeded_with(run, 0) ==> next is Continue
                    && next->Continue_0.stage == (CleanupStageView::RemoveFailed {
                    code: run->Ok_0.code,
                })
                &&& run is Err ==> refused
            }
            &&& cleanup.stage is RemoveFailed ==> {
                let there = (world.answer)(NeedView::Exists(plan.worktree_path))->Exists_0;
                &&& refused
                &&& error is CleanupCommandFailed
                &&& error->CleanupCommandFailed_code == cleanup.stage->RemoveFailed_code
                &&& error->CleanupCommandFailed_path_exists == there
            }
            &&& cleanup.stage is DeleteBranch ==> {
                let run = world.git(
                    plan.base.repository_root,
                    seq![
                        "update-ref"@,
                        "-d"@,
                        "refs/heads/"@ + plan.branch,
                        plan.base.base_commit,
                    ],
                    output,
                );
                &&& next is Continue && next->Continue_0.stage is Probe ==> (
                next->Continue_0.stage->Probe_fallback is None <==> succeeded_with(run, 0))
                &&& next is Done ==> next->Done_0 is Err
            }
        }),
{
    let reply = (world.answer)(cleanup.need());
    assert(reply.answers(cleanup.need()));
    if cleanup.stage is Head {
        let run = reply->Git_0;
        assert forall|head: Seq<char>| #[trigger] wrote(run, head) implies run_text(
            run,
            GitOperation::VerifyCleanupHead,
            cleanup.limits,
        ) == Ok::<Seq<char>, WorktreeErrorView>(head) by {
            texts_are_what_commands_wrote(
                run,
                GitOperation::VerifyCleanupHead,
                cleanup.limits,
                head,
            );
        }
        texts_are_what_commands_wrote(
            run,
            GitOperation::VerifyCleanupHead,
            cleanup.limits,
            cleanup.plan.base.base_commit,
        );
    }
}

/// A cleanup starts with the verification of the planned worktree, of which the branch may
/// have come on, and goes on only with a worktree that was verified.
pub proof fn a_cleanup_starts_with_a_verification(
    plan: WorktreePlanView,
    limits: RuntimeLimits,
    cleanup: CleanupView,
    verification: VerificationView,
    reply: ReplyView,
)
    requires
        cleanup.stage == (CleanupStageView::Verify { verification }),
    ensures
        ({
            let begun = CleanupView::begun(plan, limits);
            let fits = 0 < plan.branch.len() && byte_len(plan.branch) <= limits.max_git_ref_bytes
                && byte_len(plan.worktree_path) <= limits.max_worktree_path_bytes;
            &&& fits ==> begun is Continue && begun->Continue_0 == (CleanupView {
                stage: CleanupStageView::Verify {
                    verification: VerificationView::begun(
                        plan.base,
                        plan.branch,
                        plan.worktree_path,
                        false,
                        limits,
                    ),
                },
                plan,
                limits,
            })
            &&& !fits ==> begun is Done && begun->Done_0 is Err
        }),
        match verification.after(reply) {
            Progress::Continue(next) => cleanup.after(reply) == Progress::<
                CleanupView,
                WorktreeCleanupView,
                WorktreeErrorView,
            >::Continue(
                CleanupView {
                    stage: CleanupStageView::Verify { verification: next },
                    ..cleanup
                },
            ),
            Progress::Done(Ok(created)) => cleanup.after(reply) == Progress::<
                CleanupView,
                WorktreeCleanupView,
                WorktreeErrorView,
            >::Continue(CleanupView { stage: CleanupStageView::Head { created }, ..cleanup }),
            Progress::Done(Err(error)) => cleanup.after(reply) == Progress::<
                CleanupView,
                WorktreeCleanupView,
                WorktreeErrorView,
            >::Done(Err(error)),
        },
{
}

/// What a probe found after a cleanup is what the cleanup tells: all is removed where nothing
/// is left, and a part is left otherwise, with what is left of it.
pub proof fn a_cleanup_tells_what_is_left(probed: WorktreeProbeView, fallback: Option<Seq<char>>)
    ensures
        cleanup_result(probed, fallback) is Removed <==> probed is NotCreated,
        probed is Partial ==> cleanup_result(probed, fallback) == (WorktreeCleanupView::Partial {
            branch_exists: probed->Partial_branch_exists,
            path_exists: probed->Partial_path_exists,
            detail: probed->Partial_detail,
        }),
        probed is Exact ==> cleanup_result(probed, fallback) is Partial && cleanup_result(
            probed,
            fallback,
        )->Partial_branch_exists && cleanup_result(probed, fallback)->Partial_path_exists,
        probed is Exact && fallback is Some ==> cleanup_result(probed, fallback)->Partial_detail
            == fallback->0,
{
}

/// A worktree is created or looked for only at an absolute path, and only where the name of its
/// branch and its path are of a length that can be used.
pub proof fn plans_are_begun_where_they_can_be_used(plan: WorktreePlanView, limits: RuntimeLimits)
    ensures
        ({
            let fits = 0 < plan.branch.len() && byte_len(plan.branch) <= limits.max_git_ref_bytes
                && byte_len(plan.worktree_path) <= limits.max_worktree_path_bytes;
            let absolute = plan.worktree_path.len() > 0 && plan.worktree_path[0] == '/';
            let created = CreationView::begun(plan, limits);
            let probed = RecoveryProbeView::begun(plan, limits);
            &&& created is Continue <==> fits && absolute
            &&& probed is Continue <==> fits && absolute
            &&& created is Continue ==> created->Continue_0.plan == plan
                && created->Continue_0.limits == limits
            &&& probed is Continue ==> probed->Continue_0.plan == plan
                && probed->Continue_0.limits == limits
            &&& created is Done ==> created->Done_0 is Err
            &&& fits && !absolute ==> created->Done_0->Err_0 is WorktreePathMustBeAbsolute
        }),
{
}

} // verus!
