use pi_wizard_core::paths::plain_windows_path;
use pi_wizard_core::runtime::GitWorktreeIdentity;
use pi_wizard_core::worktree::{
    CreatedWorktree, GitCommand, GitFailure, GitOutput, WorktreeBaseSnapshot,
    WorktreeCleanupResult, WorktreeCreatePlan, WorktreeRecoveryProbe,
};
use pi_wizard_core::worktree_cleanup::cleanup_pristine_worktree;
use pi_wizard_core::worktree_creation::create_worktree;
use pi_wizard_core::worktree_error::{GitOperation, WorktreeError};
use pi_wizard_core::worktree_flow::{
    inspect_worktree_base, Progress, WorktreeNeed, WorktreeReply,
};
use pi_wizard_core::worktree_recovery::probe_worktree_recovery;
use pi_wizard_core::RuntimeLimits;

/// A repository at /repo with one project, as Git shows it.
struct Repository {
    head: String,
    branch: Option<String>,
    dirty: bool,
    has_project: bool,
    branches: Vec<(String, String)>,
    /// Path, branch, HEAD, whether it has changes.
    worktrees: Vec<(String, String, String, bool)>,
    paths: Vec<String>,
    commands: Vec<Vec<String>>,
    add_code: i32,
    delete_code: i32,
    remove_code: i32,
    git_missing: bool,
}

impl Repository {
    fn new() -> Repository {
        Repository {
            head: "base-commit".to_owned(),
            branch: Some("fixture-base".to_owned()),
            dirty: false,
            has_project: true,
            branches: vec![("fixture-base".to_owned(), "base-commit".to_owned())],
            worktrees: Vec::new(),
            paths: vec!["/repo".to_owned(), "/repo/project".to_owned(), "/work".to_owned()],
            commands: Vec::new(),
            add_code: 0,
            delete_code: 0,
            remove_code: 0,
            git_missing: false,
        }
    }

    fn holds(&self, path: &str) -> bool {
        self.paths.iter().any(|known| known == path)
            || self.worktrees.iter().any(|(root, ..)| root == path || format!("{root}/project") == path)
    }

    fn git(&mut self, command: GitCommand) -> Result<GitOutput, GitFailure> {
        self.commands.push(command.args.clone());
        if self.git_missing {
            return Err(GitFailure::Unavailable);
        }
        let args: Vec<&str> = command.args.iter().map(String::as_str).collect();
        let worktree = self.worktrees.iter().position(|(root, ..)| *root == command.cwd);
        let (code, text) = match args.as_slice() {
            ["rev-parse", "--show-toplevel"] => match worktree {
                Some(i) => (0, self.worktrees[i].0.clone()),
                None if command.cwd.starts_with("/repo") => (0, "/repo\n".to_owned()),
                None => (128, String::new()),
            },
            ["rev-parse", "--verify", "HEAD^{commit}"] => match worktree {
                Some(i) => (0, self.worktrees[i].2.clone()),
                None => (0, format!("{}\n", self.head)),
            },
            ["rev-parse", "--git-common-dir"] => match worktree {
                Some(_) => (0, "/repo/.git".to_owned()),
                None => (0, ".git".to_owned()),
            },
            ["symbolic-ref", "--quiet", "--short", "HEAD"] => match worktree {
                Some(i) => (0, self.worktrees[i].1.clone()),
                None => match &self.branch {
                    Some(branch) => (0, format!("{branch}\n")),
                    None => (1, String::new()),
                },
            },
            ["cat-file", "-e", object] => {
                assert_eq!(*object, format!("{}:project", self.head));
                (if self.has_project { 0 } else { 128 }, String::new())
            }
            ["status", "--porcelain=v1", "--untracked-files=normal"] => {
                let dirty = match worktree {
                    Some(i) => self.worktrees[i].3,
                    None => self.dirty,
                };
                (0, if dirty { "?".to_owned() } else { String::new() })
            }
            ["check-ref-format", "--branch", name] => {
                (if name.contains(' ') { 128 } else { 0 }, String::new())
            }
            ["show-ref", "--verify", "--quiet", name] => {
                let found = self.branches.iter().any(|(branch, _)| format!("refs/heads/{branch}") == *name);
                (if found { 0 } else { 1 }, String::new())
            }
            ["worktree", "add", "-b", branch, target, commit] => {
                if self.add_code == 0 {
                    self.branches.push(((*branch).to_owned(), (*commit).to_owned()));
                    self.worktrees.push((
                        (*target).to_owned(),
                        (*branch).to_owned(),
                        (*commit).to_owned(),
                        false,
                    ));
                }
                (self.add_code, String::new())
            }
            ["merge-base", "--is-ancestor", ancestor, "HEAD"] => {
                let head = worktree.map(|i| self.worktrees[i].2.clone()).unwrap_or_default();
                (if head.starts_with(*ancestor) { 0 } else { 1 }, String::new())
            }
            ["worktree", "remove", path] => {
                if self.remove_code == 0 {
                    self.worktrees.retain(|(root, ..)| root != path);
                }
                (self.remove_code, String::new())
            }
            ["update-ref", "-d", name, commit] => {
                if self.delete_code == 0 {
                    self.branches
                        .retain(|(branch, at)| format!("refs/heads/{branch}") != *name || at != commit);
                }
                (self.delete_code, String::new())
            }
            other => panic!("unexpected command {other:?}"),
        };
        let exceeded = text.len() > command.max_bytes;
        let mut stdout = text.into_bytes();
        stdout.truncate(command.max_bytes);
        Ok(GitOutput { code: Some(code), stdout, stdout_exceeded: exceeded })
    }

    fn answer(&mut self, need: WorktreeNeed) -> WorktreeReply {
        match need {
            WorktreeNeed::Git(command) => WorktreeReply::Git(self.git(command)),
            WorktreeNeed::Canonicalize(path) => {
                let path = path.trim_end_matches('/').to_owned();
                if self.holds(&path) || path == "/repo/.git" {
                    WorktreeReply::Canonical(Ok(path))
                } else {
                    WorktreeReply::Canonical(Err("no such file".to_owned()))
                }
            }
            WorktreeNeed::Exists(path) => WorktreeReply::Exists(self.holds(&path)),
        }
    }

    fn inspect(&mut self, limits: RuntimeLimits) -> Result<WorktreeBaseSnapshot, WorktreeError> {
        let mut flow = inspect_worktree_base("/repo/project", limits);
        loop {
            let reply = self.answer(flow.need());
            match flow.advance(reply) {
                Progress::Continue(next) => flow = next,
                Progress::Done(result) => return result,
            }
        }
    }

    fn create(&mut self, plan: WorktreeCreatePlan) -> Result<CreatedWorktree, WorktreeError> {
        let mut step = create_worktree(plan, RuntimeLimits::default());
        loop {
            match step {
                Progress::Continue(flow) => {
                    let reply = self.answer(flow.need());
                    step = flow.advance(reply);
                }
                Progress::Done(result) => return result,
            }
        }
    }

    fn probe(&mut self, plan: &WorktreeCreatePlan) -> Result<WorktreeRecoveryProbe, WorktreeError> {
        let mut step = probe_worktree_recovery(plan.clone(), RuntimeLimits::default());
        loop {
            match step {
                Progress::Continue(flow) => {
                    let reply = self.answer(flow.need());
                    step = flow.advance(reply);
                }
                Progress::Done(result) => return result,
            }
        }
    }

    fn cleanup(&mut self, plan: &WorktreeCreatePlan) -> Result<WorktreeCleanupResult, WorktreeError> {
        let mut step = cleanup_pristine_worktree(plan.clone(), RuntimeLimits::default());
        loop {
            match step {
                Progress::Continue(flow) => {
                    let reply = self.answer(flow.need());
                    step = flow.advance(reply);
                }
                Progress::Done(result) => return result,
            }
        }
    }

    fn plan(&mut self, branch: &str, path: &str) -> WorktreeCreatePlan {
        let base = self.inspect(RuntimeLimits::default()).expect("inspect base");
        self.commands.clear();
        WorktreeCreatePlan { base, branch: branch.to_owned(), worktree_path: path.to_owned() }
    }

    fn changed_git(&self) -> bool {
        self.commands.iter().any(|args| {
            (args[0] == "worktree" && args[1] != "list") || args[0] == "update-ref"
        })
    }
}

#[test]
fn inspection_captures_exact_branch_commit_subdirectory_and_dirty_state() {
    let mut repository = Repository::new();
    let clean = repository.inspect(RuntimeLimits::default()).expect("inspect clean base");
    assert_eq!(clean.source_branch.as_deref(), Some("fixture-base"));
    assert_eq!(clean.project_relative_path, "project");
    assert!(!clean.dirty);
    assert!(!clean.base_commit.is_empty());
    repository.dirty = true;
    let dirty = repository.inspect(RuntimeLimits::default()).expect("inspect dirty base");
    assert!(dirty.dirty);
    assert_eq!(dirty.base_commit, clean.base_commit);
}

#[test]
fn a_detached_head_has_no_branch() {
    let mut repository = Repository::new();
    repository.branch = None;
    let base = repository.inspect(RuntimeLimits::default()).expect("inspect");
    assert_eq!(base.source_branch, None);
}

#[test]
fn inspection_tells_what_is_wrong() {
    let mut repository = Repository::new();
    repository.has_project = false;
    assert_eq!(
        repository.inspect(RuntimeLimits::default()),
        Err(WorktreeError::ProjectMissingFromBase {
            relative: "project".to_owned(),
            base_commit: "base-commit".to_owned(),
        })
    );
    let mut repository = Repository::new();
    let limits = RuntimeLimits { max_worktree_path_bytes: 5, ..RuntimeLimits::default() };
    assert_eq!(
        repository.inspect(limits),
        Err(WorktreeError::PathTooLong { path: "/repo/project".to_owned(), actual: 13, limit: 5 })
    );
    let limits = RuntimeLimits { max_git_ref_bytes: 4, ..RuntimeLimits::default() };
    assert_eq!(
        repository.inspect(limits),
        Err(WorktreeError::GitRefTooLong { actual: 11, limit: 4 })
    );
    let limits = RuntimeLimits { max_git_command_output_bytes: 2, ..RuntimeLimits::default() };
    assert_eq!(
        repository.inspect(limits),
        Err(WorktreeError::GitOutputTooLarge {
            operation: GitOperation::ResolveRepositoryRoot,
            limit: 2,
        })
    );
    repository.paths.retain(|path| path != "/repo/project");
    assert!(matches!(
        repository.inspect(RuntimeLimits::default()),
        Err(WorktreeError::CanonicalizeProject { .. })
    ));
    let mut repository = Repository::new();
    repository.git_missing = true;
    assert_eq!(
        repository.inspect(RuntimeLimits::default()),
        Err(WorktreeError::GitUnavailable)
    );
    let mut repository = Repository::new();
    repository.head = String::new();
    assert_eq!(
        repository.inspect(RuntimeLimits::default()),
        Err(WorktreeError::GitOutputEmpty { operation: GitOperation::ResolveBaseCommit })
    );
}

#[test]
fn output_of_git_that_is_no_text_is_refused() {
    let flow = inspect_worktree_base("/repo/project", RuntimeLimits::default());
    let Progress::Continue(flow) =
        flow.advance(WorktreeReply::Canonical(Ok("/repo/project".to_owned())))
    else {
        panic!("inspection goes on");
    };
    let reply = WorktreeReply::Git(Ok(GitOutput {
        code: Some(0),
        stdout: vec![0xff, 0xfe],
        stdout_exceeded: false,
    }));
    let Progress::Done(result) = flow.advance(reply) else {
        panic!("inspection ends");
    };
    assert_eq!(
        result,
        Err(WorktreeError::GitOutputInvalidUtf8 {
            operation: GitOperation::ResolveRepositoryRoot,
        })
    );
}

#[test]
fn creation_rejects_source_commit_movement_before_git_mutation() {
    let mut repository = Repository::new();
    let plan = repository.plan("stale-branch", "/work/stale-worktree");
    repository.head = "second-commit".to_owned();
    let result = repository.create(plan);
    assert!(matches!(result, Err(WorktreeError::SourceChanged { .. })));
    assert!(!repository.changed_git());
    assert!(!repository.holds("/work/stale-worktree"));
}

#[test]
fn creation_verifies_branch_base_and_project_execution_root() {
    let mut repository = Repository::new();
    let plan = repository.plan("agent-feature", "/work/created-worktree");
    let base_commit = plan.base.base_commit.clone();
    let created = repository.create(plan).expect("create worktree");
    assert_eq!(created.branch, "agent-feature");
    assert_eq!(created.base_commit, base_commit);
    assert_eq!(created.execution_root, "/work/created-worktree/project");
    assert_eq!(
        created.identity(),
        GitWorktreeIdentity {
            repository_root: "/repo".to_owned(),
            worktree_root: "/work/created-worktree".to_owned(),
            branch: "agent-feature".to_owned(),
            base_commit,
        }
    );
}

#[test]
fn pristine_created_worktree_can_be_explicitly_removed_with_its_unchanged_branch() {
    let mut repository = Repository::new();
    let plan = repository.plan("cleanup-pristine", "/work/cleanup-pristine-worktree");
    repository.create(plan.clone()).expect("create worktree");
    assert_eq!(
        repository.cleanup(&plan).expect("cleanup worktree"),
        WorktreeCleanupResult::Removed
    );
    assert!(!repository.holds("/work/cleanup-pristine-worktree"));
    assert!(matches!(
        repository.probe(&plan).expect("post-cleanup probe"),
        WorktreeRecoveryProbe::NotCreated
    ));
}

#[test]
fn cleanup_refuses_dirty_worktree_without_removing_path_or_branch() {
    let mut repository = Repository::new();
    let plan = repository.plan("cleanup-dirty", "/work/cleanup-dirty-worktree");
    repository.create(plan.clone()).expect("create worktree");
    repository.worktrees[0].3 = true;
    assert!(matches!(
        repository.cleanup(&plan),
        Err(WorktreeError::CleanupDirty { .. })
    ));
    assert!(repository.holds("/work/cleanup-dirty-worktree"));
    assert!(matches!(
        repository.probe(&plan).expect("dirty recovery probe"),
        WorktreeRecoveryProbe::Exact { .. }
    ));
}

#[test]
fn cleanup_refuses_task_commits_even_when_worktree_is_clean() {
    let mut repository = Repository::new();
    let plan = repository.plan("cleanup-commits", "/work/cleanup-commit-worktree");
    repository.create(plan.clone()).expect("create worktree");
    repository.worktrees[0].2 = "base-commit-and-task".to_owned();
    assert!(matches!(
        repository.cleanup(&plan),
        Err(WorktreeError::CleanupContainsCommits { .. })
    ));
    assert!(repository.holds("/work/cleanup-commit-worktree"));
    assert!(matches!(
        repository.probe(&plan).expect("committed recovery probe"),
        WorktreeRecoveryProbe::Exact { .. }
    ));
}

#[test]
fn existing_target_is_rejected_before_branch_creation() {
    let mut repository = Repository::new();
    repository.paths.push("/work/occupied".to_owned());
    let plan = repository.plan("must-not-exist", "/work/occupied");
    assert!(matches!(
        repository.create(plan),
        Err(WorktreeError::WorktreePathExists { .. })
    ));
    assert!(!repository.branches.iter().any(|(branch, _)| branch == "must-not-exist"));
}

#[test]
fn recovery_probe_discards_only_when_branch_and_path_are_both_absent() {
    let mut repository = Repository::new();
    let plan = repository.plan("recovery-absent", "/work/recovery-absent-worktree");
    assert_eq!(
        repository.probe(&plan).expect("probe absent recovery"),
        WorktreeRecoveryProbe::NotCreated
    );
}

#[test]
fn recovery_probe_recovers_exact_created_worktree_identity() {
    let mut repository = Repository::new();
    let plan = repository.plan("recovery-exact", "/work/recovery-exact-worktree");
    let created = repository.create(plan.clone()).expect("create worktree");
    assert_eq!(
        repository.probe(&plan).expect("probe created recovery"),
        WorktreeRecoveryProbe::Exact { created }
    );
}

#[test]
fn recovery_probe_accepts_task_commits_descended_from_captured_base() {
    let mut repository = Repository::new();
    let plan = repository.plan("recovery-descendant", "/work/recovery-descendant-worktree");
    let created = repository.create(plan.clone()).expect("create worktree");
    repository.worktrees[0].2 = "base-commit-and-change".to_owned();
    assert_eq!(
        repository.probe(&plan).expect("probe descendant recovery"),
        WorktreeRecoveryProbe::Exact { created }
    );
}

#[test]
fn recovery_probe_rejects_same_path_after_branch_switch() {
    let mut repository = Repository::new();
    let plan = repository.plan("recovery-original", "/work/recovery-wrong-branch-worktree");
    repository.create(plan.clone()).expect("create worktree");
    repository.worktrees[0].1 = "different-task".to_owned();
    let probe = repository.probe(&plan).expect("probe wrong branch");
    assert_eq!(
        probe,
        WorktreeRecoveryProbe::Partial {
            branch_exists: true,
            path_exists: true,
            detail: "existing worktree does not match captured recovery identity: expected branch recovery-original, found different-task at base-commit".to_owned(),
        }
    );
}

#[test]
fn recovery_probe_preserves_branch_only_partial_mutation() {
    let mut repository = Repository::new();
    let plan = repository.plan("recovery-branch-only", "/work/missing-recovery-worktree");
    repository.branches.push(("recovery-branch-only".to_owned(), "base-commit".to_owned()));
    assert!(matches!(
        repository.probe(&plan).expect("probe branch-only recovery"),
        WorktreeRecoveryProbe::Partial { branch_exists: true, path_exists: false, .. }
    ));
}

#[test]
fn recovery_probe_preserves_path_only_or_conflicting_target() {
    let mut repository = Repository::new();
    let plan = repository.plan("recovery-path-only", "/work/occupied-recovery-target");
    repository.paths.push("/work/occupied-recovery-target".to_owned());
    assert!(matches!(
        repository.probe(&plan).expect("probe path-only recovery"),
        WorktreeRecoveryProbe::Partial { branch_exists: false, path_exists: true, .. }
    ));
}

#[test]
fn mutation_classification_never_calls_ambiguous_git_failure_clean() {
    assert!(!WorktreeError::BranchExists { branch: "existing".to_owned() }.may_have_mutated());
    assert!(WorktreeError::CreateFailed {
        branch: "partial".to_owned(),
        path: "partial".to_owned(),
        code: Some(128),
        branch_may_exist: true,
        path_exists: false,
    }
    .may_have_mutated());
    assert!(WorktreeError::CreateIndeterminate {
        branch: "unknown".to_owned(),
        path: "unknown".to_owned(),
        detail: "timeout".to_owned(),
        branch_may_exist: false,
        path_exists: false,
    }
    .may_have_mutated());
}

#[test]
fn creation_checks_names_paths_and_branches_before_git_changes_anything() {
    let mut repository = Repository::new();
    let plan = repository.plan("fine", "relative/path");
    assert!(matches!(
        repository.create(plan),
        Err(WorktreeError::WorktreePathMustBeAbsolute { .. })
    ));
    let plan = repository.plan("", "/work/x");
    assert!(matches!(repository.create(plan), Err(WorktreeError::GitRefTooLong { actual: 0, .. })));
    let plan = repository.plan("not valid", "/work/x");
    assert_eq!(
        repository.create(plan),
        Err(WorktreeError::InvalidBranch { branch: "not valid".to_owned() })
    );
    let plan = repository.plan("fixture-base", "/work/x");
    assert_eq!(
        repository.create(plan),
        Err(WorktreeError::BranchExists { branch: "fixture-base".to_owned() })
    );
    let plan = repository.plan("inside", "/repo/nested");
    assert_eq!(
        repository.create(plan),
        Err(WorktreeError::WorktreeInsideSourceRepository {
            path: "/repo/nested".to_owned(),
            repository: "/repo".to_owned(),
        })
    );
    let plan = repository.plan("no-parent", "/missing/x");
    assert!(matches!(
        repository.create(plan),
        Err(WorktreeError::CanonicalizeWorktreeParent { .. })
    ));
    let plan = repository.plan("root", "/");
    assert!(matches!(
        repository.create(plan),
        Err(WorktreeError::WorktreePathExists { .. }) | Err(WorktreeError::WorktreeParentMissing { .. })
    ));
    assert!(!repository.changed_git());
}

#[test]
fn a_failed_creation_tells_what_it_may_have_left() {
    let mut repository = Repository::new();
    let plan = repository.plan("broken", "/work/broken");
    repository.add_code = 128;
    let error = repository.create(plan).expect_err("creation fails");
    assert_eq!(
        error,
        WorktreeError::CreateFailed {
            branch: "broken".to_owned(),
            path: "/work/broken".to_owned(),
            code: Some(128),
            branch_may_exist: false,
            path_exists: false,
        }
    );
    assert!(!error.may_have_mutated());
    assert_eq!(
        error.message(),
        "Git worktree creation failed for branch broken at /work/broken with code Some(128); branch may exist: false; path exists: false"
    );
}

#[test]
fn a_branch_that_was_not_deleted_is_told() {
    let mut repository = Repository::new();
    let plan = repository.plan("kept", "/work/kept");
    repository.create(plan.clone()).expect("create");
    repository.delete_code = 1;
    assert_eq!(
        repository.cleanup(&plan).expect("partial"),
        WorktreeCleanupResult::Partial {
            branch_exists: true,
            path_exists: false,
            detail: "captured branch exists but requested worktree path does not".to_owned(),
        }
    );
}

#[test]
fn a_worktree_that_git_does_not_remove_is_an_error() {
    let mut repository = Repository::new();
    let plan = repository.plan("stuck", "/work/stuck");
    repository.create(plan.clone()).expect("create");
    repository.remove_code = -1;
    let error = repository.cleanup(&plan).expect_err("not removed");
    assert_eq!(
        error,
        WorktreeError::CleanupCommandFailed {
            operation: GitOperation::RemovePristine,
            code: Some(-1),
            path_exists: true,
        }
    );
    assert_eq!(
        error.message(),
        "worktree cleanup command for remove pristine worktree failed with exit code Some(-1); path still exists: true"
    );
}

#[test]
fn moved_sources_are_told_with_quoted_names() {
    let error = WorktreeError::SourceChanged {
        expected_branch: Some("ma\"in".to_owned()),
        expected_commit: "a".to_owned(),
        actual_branch: None,
        actual_commit: "b".to_owned(),
    };
    assert_eq!(
        error.message(),
        "worktree source moved since inspection: expected branch Some(\"ma\\\"in\") at a, found None at b"
    );
}

#[test]
fn git_path_argument_removes_windows_verbatim_prefix() {
    assert_eq!(plain_windows_path(r"\\?\C:\work\tree"), r"C:\work\tree");
    assert_eq!(
        plain_windows_path(r"\\?\UNC\server\share\tree"),
        r"\\server\share\tree"
    );
    assert_eq!(plain_windows_path("/work/tree"), "/work/tree");
}
