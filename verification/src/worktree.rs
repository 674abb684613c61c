//! Git worktrees owned by runs.
use vstd::prelude::*;
use vstd::string::*;
use vstd::utf8::*;

use crate::limits::RuntimeLimits;
use crate::text::{
    byte_len, copy_optional, decode_strict, optional_view, text_bytes, texts_view, trim_text, trimmed,
};
use crate::worktree_error::{GitOperation, WorktreeError, WorktreeErrorView};

verus! {

/// Where a worktree may start from.
#[derive(Debug, PartialEq, Eq)]
pub struct WorktreeBaseSnapshot {
    pub repository_root: String,
    pub project_root: String,
    pub project_relative_path: String,
    pub source_branch: Option<String>,
    pub base_commit: String,
    pub dirty: bool,
}

/// Model of a [`WorktreeBaseSnapshot`].
pub struct WorktreeBaseView {
    pub repository_root: Seq<char>,
    pub project_root: Seq<char>,
    pub project_relative_path: Seq<char>,
    pub source_branch: Option<Seq<char>>,
    pub base_commit: Seq<char>,
    pub dirty: bool,
}

impl View for WorktreeBaseSnapshot {
    type V = WorktreeBaseView;

    open spec fn view(&self) -> WorktreeBaseView {
        WorktreeBaseView {
            repository_root: self.repository_root@,
            project_root: self.project_root@,
            project_relative_path: self.project_relative_path@,
            source_branch: optional_view(self.source_branch),
            base_commit: self.base_commit@,
            dirty: self.dirty,
        }
    }
}

impl Clone for WorktreeBaseSnapshot {
    fn clone(&self) -> (r: Self)
        ensures
            r@ == self@,
    {
        WorktreeBaseSnapshot {
            repository_root: self.repository_root.clone(),
            project_root: self.project_root.clone(),
            project_relative_path: self.project_relative_path.clone(),
            source_branch: copy_optional(&self.source_branch),
            base_commit: self.base_commit.clone(),
            dirty: self.dirty,
        }
    }
}

/// A worktree that is to be created.
#[derive(Debug, PartialEq, Eq)]
pub struct WorktreeCreatePlan {
    pub base: WorktreeBaseSnapshot,
    pub branch: String,
    pub worktree_path: String,
}

/// Model of a [`WorktreeCreatePlan`].
pub struct WorktreePlanView {
    pub base: WorktreeBaseView,
    pub branch: Seq<char>,
    pub worktree_path: Seq<char>,
}

impl View for WorktreeCreatePlan {
    type V = WorktreePlanView;

    open spec fn view(&self) -> WorktreePlanView {
        WorktreePlanView {
            base: self.base@,
            branch: self.branch@,
            worktree_path: self.worktree_path@,
        }
    }
}

impl Clone for WorktreeCreatePlan {
    fn clone(&self) -> (r: Self)
        ensures
            r@ == self@,
    {
        WorktreeCreatePlan {
            base: self.base.clone(),
            branch: self.branch.clone(),
            worktree_path: self.worktree_path.clone(),
        }
    }
}

/// A worktree that was created, or found as it was created.
#[derive(Debug, PartialEq, Eq)]
pub struct CreatedWorktree {
    pub repository_root: String,
    pub worktree_root: String,
    pub execution_root: String,
    pub branch: String,
    pub base_commit: String,
}

/// Model of a [`CreatedWorktree`].
pub struct CreatedWorktreeView {
    pub repository_root: Seq<char>,
    pub worktree_root: Seq<char>,
    pub execution_root: Seq<char>,
    pub branch: Seq<char>,
    pub base_commit: Seq<char>,
}

impl View for CreatedWorktree {
    type V = CreatedWorktreeView;

    open spec fn view(&self) -> CreatedWorktreeView {
        CreatedWorktreeView {
            repository_root: self.repository_root@,
            worktree_root: self.worktree_root@,
            execution_root: self.execution_root@,
            branch: self.branch@,
            base_commit: self.base_commit@,
        }
    }
}

impl Clone for CreatedWorktree {
    fn clone(&self) -> (r: Self)
        ensures
            r == *self,
    {
        CreatedWorktree {
            repository_root: self.repository_root.clone(),
            worktree_root: self.worktree_root.clone(),
            execution_root: self.execution_root.clone(),
            branch: self.branch.clone(),
            base_commit: self.base_commit.clone(),
        }
    }
}

impl CreatedWorktree {
    /// What identifies the worktree for the run that owns it.
    pub fn identity(&self) -> (r: GitWorktreeIdentity)
        ensures
            r == (GitWorktreeIdentity {
                repository_root: self.repository_root,
                worktree_root: self.worktree_root,
                branch: self.branch,
                base_commit: self.base_commit,
            }),
    {
        GitWorktreeIdentity {
            repository_root: self.repository_root.clone(),
            worktree_root: self.worktree_root.clone(),
            branch: self.branch.clone(),
            base_commit: self.base_commit.clone(),
        }
    }
}

/// Immutable identity of the worktree that a run executes in.
#[derive(Debug, PartialEq, Eq)]
pub struct GitWorktreeIdentity {
    pub repository_root: String,
    pub worktree_root: String,
    pub branch: String,
    pub base_commit: String,
}

impl Clone for GitWorktreeIdentity {
    fn clone(&self) -> (r: Self)
        ensures
            r == *self,
    {
        GitWorktreeIdentity {
            repository_root: self.repository_root.clone(),
            worktree_root: self.worktree_root.clone(),
            branch: self.branch.clone(),
            base_commit: self.base_commit.clone(),
        }
    }
}

#[derive(Clone, Debug, PartialEq, Eq)]
pub enum WorktreeCleanupResult {
    Removed,
    Partial { branch_exists: bool, path_exists: bool, detail: String },
}

/// Model of a [`WorktreeCleanupResult`].
pub enum WorktreeCleanupView {
    Removed,
    Partial { branch_exists: bool, path_exists: bool, detail: Seq<char> },
}

impl View for WorktreeCleanupResult {
    type V = WorktreeCleanupView;

    open spec fn view(&self) -> WorktreeCleanupView {
        match *self {
            WorktreeCleanupResult::Removed => WorktreeCleanupView::Removed,
            WorktreeCleanupResult::Partial { branch_exists, path_exists, detail } => {
                WorktreeCleanupView::Partial { branch_exists, path_exists, detail: detail@ }
            },
        }
    }
}

#[derive(Clone, Debug, PartialEq, Eq)]
pub enum WorktreeRecoveryProbe {
    NotCreated,
    Exact { created: CreatedWorktree },
    Partial { branch_exists: bool, path_exists: bool, detail: String },
}

/// Model of a [`WorktreeRecoveryProbe`].
pub enum WorktreeProbeView {
    NotCreated,
    Exact { created: CreatedWorktreeView },
    Partial { branch_exists: bool, path_exists: bool, detail: Seq<char> },
}

impl View for WorktreeRecoveryProbe {
    type V = WorktreeProbeView;

    open spec fn view(&self) -> WorktreeProbeView {
        match *self {
            WorktreeRecoveryProbe::NotCreated => WorktreeProbeView::NotCreated,
            WorktreeRecoveryProbe::Exact { created } => WorktreeProbeView::Exact {
                created: created@,
            },
            WorktreeRecoveryProbe::Partial { branch_exists, path_exists, detail } => {
                WorktreeProbeView::Partial { branch_exists, path_exists, detail: detail@ }
            },
        }
    }
}

/// A Git command, the directory to run it in and how many bytes of its output are
/// kept.
#[derive(Debug, PartialEq, Eq)]
pub struct GitCommand {
    pub cwd: String,
    pub args: Vec<String>,
    pub max_bytes: usize,
}

/// Model of a [`GitCommand`].
pub struct GitCommandView {
    pub cwd: Seq<char>,
    pub args: Seq<Seq<char>>,
    pub max_bytes: usize,
}

impl View for GitCommand {
    type V = GitCommandView;

    open spec fn view(&self) -> GitCommandView {
        GitCommandView {
            cwd: self.cwd@,
            args: texts_view(self.args@),
            max_bytes: self.max_bytes,
        }
    }
}

/// How a Git command ended: its exit code, the output that was kept, and whether
/// there was more.
#[derive(Debug, PartialEq, Eq)]
pub struct GitOutput {
    pub code: Option<i32>,
    pub stdout: Vec<u8>,
    pub stdout_exceeded: bool,
}

/// Model of a [`GitOutput`].
pub struct GitOutputView {
    pub code: Option<i32>,
    pub stdout: Seq<u8>,
    pub stdout_exceeded: bool,
}

impl View for GitOutput {
    type V = GitOutputView;

    open spec fn view(&self) -> GitOutputView {
        GitOutputView {
            code: self.code,
            stdout: self.stdout@,
            stdout_exceeded: self.stdout_exceeded,
        }
    }
}

/// Why a Git command could not be run to its end.
#[derive(Debug, PartialEq, Eq)]
pub enum GitFailure {
    Unavailable,
    Execution { detail: String },
}

impl GitFailure {
    pub open spec fn told(self) -> WorktreeErrorView {
        match self {
            GitFailure::Unavailable => WorktreeErrorView::GitUnavailable,
            GitFailure::Execution { detail } => WorktreeErrorView::GitExecution {
                detail: detail@,
            },
        }
    }

    /// The failure as an error.
    pub fn error(self) -> (r: WorktreeError)
        ensures
            r@ == self.told(),
    {
        match self {
            GitFailure::Unavailable => WorktreeError::GitUnavailable,
            GitFailure::Execution { detail } => WorktreeError::GitExecution { detail },
        }
    }
}

/// What a Git command came to.
pub open spec fn git_run(run: Result<GitOutput, GitFailure>) -> Result<
    GitOutputView,
    WorktreeErrorView,
> {
    match run {
        Ok(output) => Ok(output@),
        Err(failure) => Err(failure.told()),
    }
}

/// The text of a command's output, without white space around it.
pub open spec fn output_text(
    output: GitOutputView,
    operation: GitOperation,
    limits: RuntimeLimits,
) -> Result<Seq<char>, WorktreeErrorView> {
    if output.stdout_exceeded {
        Err(
            WorktreeErrorView::GitOutputTooLarge {
                operation,
                limit: limits.max_git_command_output_bytes,
            },
        )
    } else if !valid_utf8(output.stdout) {
        Err(WorktreeErrorView::GitOutputInvalidUtf8 { operation })
    } else if trimmed(decode_utf8(output.stdout)).len() == 0 {
        Err(WorktreeErrorView::GitOutputEmpty { operation })
    } else {
        Ok(trimmed(decode_utf8(output.stdout)))
    }
}

/// The text of a command that has to succeed.
pub open spec fn run_text(
    run: Result<GitOutputView, WorktreeErrorView>,
    operation: GitOperation,
    limits: RuntimeLimits,
) -> Result<Seq<char>, WorktreeErrorView> {
    match run {
        Err(error) => Err(error),
        Ok(output) => if output.code != Some(0i32) {
            Err(WorktreeErrorView::GitCommandFailed { operation, code: output.code })
        } else {
            output_text(output, operation, limits)
        },
    }
}

/// The model of a result that holds a text.
pub open spec fn text_result(r: Result<String, WorktreeError>) -> Result<
    Seq<char>,
    WorktreeErrorView,
> {
    match r {
        Ok(text) => Ok(text@),
        Err(error) => Err(error@),
    }
}

/// The text of a command's output, without white space around it.
pub fn bounded_utf8(output: GitOutput, operation: GitOperation, limits: RuntimeLimits) -> (r: Result<
    String,
    WorktreeError,
>)
    ensures
        text_result(r) == output_text(output@, operation, limits),
{
    if output.stdout_exceeded {
        return Err(
            WorktreeError::GitOutputTooLarge {
                operation,
                limit: limits.max_git_command_output_bytes,
            },
        );
    }
    match decode_strict(output.stdout.as_slice()) {
        None => Err(WorktreeError::GitOutputInvalidUtf8 { operation }),
        Some(text) => trimmed_output(text.as_str(), operation),
    }
}

/// A text that a command wrote, without white space around it; there has to be more.
pub fn trimmed_output(text: &str, operation: GitOperation) -> (r: Result<String, WorktreeError>)
    ensures
        text_result(r) == (if trimmed(text@).len() == 0 {
            Err(WorktreeErrorView::GitOutputEmpty { operation })
        } else {
            Ok(trimmed(text@))
        }),
{
    let text = trim_text(text);
    if text.as_str().is_empty() {
        Err(WorktreeError::GitOutputEmpty { operation })
    } else {
        Ok(text)
    }
}

/// The text of a command that has to succeed.
pub fn git_text(
    run: Result<GitOutput, GitFailure>,
    operation: GitOperation,
    limits: RuntimeLimits,
) -> (r: Result<String, WorktreeError>)
    ensures
        text_result(r) == run_text(git_run(run), operation, limits),
{
    match run {
        Err(failure) => Err(failure.error()),
        Ok(output) => {
            if succeeded(&output) {
                bounded_utf8(output, operation, limits)
            } else {
                Err(WorktreeError::GitCommandFailed { operation, code: output.code })
            }
        },
    }
}

/// Whether a command ended with success.
pub fn succeeded(output: &GitOutput) -> (r: bool)
    ensures
        r == (output.code == Some(0i32)),
{
    match output.code {
        Some(code) => code == 0,
        None => false,
    }
}

/// Whether `git show-ref --verify --quiet` found a branch.
pub open spec fn branch_found(
    run: Result<GitOutputView, WorktreeErrorView>,
    operation: GitOperation,
) -> Result<bool, WorktreeErrorView> {
    match run {
        Err(error) => Err(error),
        Ok(output) => if output.code == Some(0i32) {
            Ok(true)
        } else if output.code == Some(1i32) {
            Ok(false)
        } else {
            Err(WorktreeErrorView::GitCommandFailed { operation, code: output.code })
        },
    }
}

/// Whether `git show-ref --verify --quiet` found a branch.
pub fn branch_exists_at_result(run: Result<GitOutput, GitFailure>, operation: GitOperation) -> (r:
    Result<bool, WorktreeError>)
    ensures
        match branch_found(git_run(run), operation) {
            Ok(found) => r == Ok::<bool, WorktreeError>(found),
            Err(error) => r is Err && r->Err_0@ == error,
        },
{
    match run {
        Err(failure) => Err(failure.error()),
        Ok(output) => match output.code {
            Some(0) => Ok(true),
            Some(1) => Ok(false),
            code => Err(WorktreeError::GitCommandFailed { operation, code }),
        },
    }
}

/// What is wrong with the name of a branch or commit, if anything is.
pub open spec fn ref_refusal(value: Seq<char>, limits: RuntimeLimits) -> Option<WorktreeErrorView> {
    if value.len() == 0 || byte_len(value) > limits.max_git_ref_bytes {
        Some(
            WorktreeErrorView::GitRefTooLong {
                actual: byte_len(value) as usize,
                limit: limits.max_git_ref_bytes,
            },
        )
    } else {
        None
    }
}

/// What is wrong with the length of a path, if anything is.
pub open spec fn path_refusal(path: Seq<char>, limits: RuntimeLimits) -> Option<WorktreeErrorView> {
    if byte_len(path) > limits.max_worktree_path_bytes {
        Some(
            WorktreeErrorView::PathTooLong {
                path,
                actual: byte_len(path) as usize,
                limit: limits.max_worktree_path_bytes,
            },
        )
    } else {
        None
    }
}

/// Refuses a name that is empty or too long.
pub fn validate_ref_text(value: &str, limits: RuntimeLimits) -> (r: Result<(), WorktreeError>)
    ensures
        match ref_refusal(value@, limits) {
            Some(error) => r is Err && r->Err_0@ == error,
            None => r is Ok,
        },
{
    let actual: usize = text_bytes(value);
    if value.is_empty() || actual > limits.max_git_ref_bytes {
        return Err(WorktreeError::GitRefTooLong { actual, limit: limits.max_git_ref_bytes });
    }
    Ok(())
}

/// Refuses a path that is too long.
pub fn validate_path_bytes(path: &str, limits: RuntimeLimits) -> (r: Result<(), WorktreeError>)
    ensures
        match path_refusal(path@, limits) {
            Some(error) => r is Err && r->Err_0@ == error,
            None => r is Ok,
        },
{
    let actual: usize = text_bytes(path);
    if actual > limits.max_worktree_path_bytes {
        return Err(
            WorktreeError::PathTooLong {
                path: path.to_owned(),
                actual,
                limit: limits.max_worktree_path_bytes,
            },
        );
    }
    Ok(())
}

} // verus!
