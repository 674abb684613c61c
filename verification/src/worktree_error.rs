//! What can go wrong with worktrees, and how it is told.
use vstd::prelude::*;
use vstd::string::*;

use crate::numbers::{decimal, decimal_text};
use crate::text::optional_view;

verus! {

/// What a Git command is run for.
#[derive(Clone, Copy, Debug, PartialEq, Eq, Structural)]
pub enum GitOperation {
    ResolveRepositoryRoot,
    ResolveBaseCommit,
    ResolveSourceBranch,
    InspectStatus,
    CheckTargetBranch,
    CheckRecoveryBranch,
    VerifyRoot,
    SourceCommonDir,
    WorktreeCommonDir,
    VerifyBaseCommit,
    VerifyBranch,
    VerifyAncestry,
    VerifyCleanupHead,
    VerifyCleanupStatus,
    RemovePristine,
}

impl GitOperation {
    pub open spec fn named(self) -> Seq<char> {
        match self {
            GitOperation::ResolveRepositoryRoot => "resolve repository root"@,
            GitOperation::ResolveBaseCommit => "resolve base commit"@,
            GitOperation::ResolveSourceBranch => "resolve source branch"@,
            GitOperation::InspectStatus => "inspect working tree status"@,
            GitOperation::CheckTargetBranch => "check target branch"@,
            GitOperation::CheckRecoveryBranch => "check recovery branch"@,
            GitOperation::VerifyRoot => "verify worktree repository root"@,
            GitOperation::SourceCommonDir => "resolve source Git common directory"@,
            GitOperation::WorktreeCommonDir => "resolve worktree Git common directory"@,
            GitOperation::VerifyBaseCommit => "verify worktree base commit"@,
            GitOperation::VerifyBranch => "verify worktree branch"@,
            GitOperation::VerifyAncestry => "verify captured base ancestry"@,
            GitOperation::VerifyCleanupHead => "verify cleanup worktree HEAD"@,
            GitOperation::VerifyCleanupStatus => "verify cleanup worktree status"@,
            GitOperation::RemovePristine => "remove pristine worktree"@,
        }
    }

    /// What the command is for, in words.
    pub fn text(self) -> (r: &'static str)
        ensures
            r@ == self.named(),
    {
        match self {
            GitOperation::ResolveRepositoryRoot => "resolve repository root",
            GitOperation::ResolveBaseCommit => "resolve base commit",
            GitOperation::ResolveSourceBranch => "resolve source branch",
            GitOperation::InspectStatus => "inspect working tree status",
            GitOperation::CheckTargetBranch => "check target branch",
            GitOperation::CheckRecoveryBranch => "check recovery branch",
            GitOperation::VerifyRoot => "verify worktree repository root",
            GitOperation::SourceCommonDir => "resolve source Git common directory",
            GitOperation::WorktreeCommonDir => "resolve worktree Git common directory",
            GitOperation::VerifyBaseCommit => "verify worktree base commit",
            GitOperation::VerifyBranch => "verify worktree branch",
            GitOperation::VerifyAncestry => "verify captured base ancestry",
            GitOperation::VerifyCleanupHead => "verify cleanup worktree HEAD",
            GitOperation::VerifyCleanupStatus => "verify cleanup worktree status",
            GitOperation::RemovePristine => "remove pristine worktree",
        }
    }
}

#[derive(Debug, PartialEq, Eq)]
pub enum WorktreeError {
    GitUnavailable,
    CanonicalizeProject { path: String, detail: String },
    CanonicalizeRepository { path: String, detail: String },
    CanonicalizeExistingWorktree { path: String, detail: String },
    CanonicalizeGitCommonDir { path: String, detail: String },
    ProjectOutsideRepository { project: String, repository: String },
    NonUtf8ProjectRelativePath { path: String },
    ProjectMissingFromBase { relative: String, base_commit: String },
    GitCommandFailed { operation: GitOperation, code: Option<i32> },
    GitExecution { detail: String },
    GitOutputTooLarge { operation: GitOperation, limit: usize },
    GitOutputInvalidUtf8 { operation: GitOperation },
    GitOutputEmpty { operation: GitOperation },
    GitRefTooLong { actual: usize, limit: usize },
    PathTooLong { path: String, actual: usize, limit: usize },
    SourceChanged {
        expected_branch: Option<String>,
        expected_commit: String,
        actual_branch: Option<String>,
        actual_commit: String,
    },
    InvalidBranch { branch: String },
    BranchExists { branch: String },
    WorktreePathMustBeAbsolute { path: String },
    WorktreePathExists { path: String },
    WorktreeParentMissing { path: String },
    CanonicalizeWorktreeParent { path: String, detail: String },
    WorktreeInsideSourceRepository { path: String, repository: String },
    CreateFailed {
        branch: String,
        path: String,
        code: Option<i32>,
        branch_may_exist: bool,
        path_exists: bool,
    },
    CreateIndeterminate {
        branch: String,
        path: String,
        detail: String,
        branch_may_exist: bool,
        path_exists: bool,
    },
    PostCreateVerification { path: String, detail: String },
    ExistingWorktreeMismatch { detail: String },
    CleanupDirty { path: String },
    CleanupContainsCommits { base_commit: String, head: String },
    CleanupCommandFailed { operation: GitOperation, code: Option<i32>, path_exists: bool },
}

/// Model of a [`WorktreeError`].
pub enum WorktreeErrorView {
    GitUnavailable,
    CanonicalizeProject { path: Seq<char>, detail: Seq<char> },
    CanonicalizeRepository { path: Seq<char>, detail: Seq<char> },
    CanonicalizeExistingWorktree { path: Seq<char>, detail: Seq<char> },
    CanonicalizeGitCommonDir { path: Seq<char>, detail: Seq<char> },
    ProjectOutsideRepository { project: Seq<char>, repository: Seq<char> },
    NonUtf8ProjectRelativePath { path: Seq<char> },
    ProjectMissingFromBase { relative: Seq<char>, base_commit: Seq<char> },
    GitCommandFailed { operation: GitOperation, code: Option<i32> },
    GitExecution { detail: Seq<char> },
    GitOutputTooLarge { operation: GitOperation, limit: usize },
    GitOutputInvalidUtf8 { operation: GitOperation },
    GitOutputEmpty { operation: GitOperation },
    GitRefTooLong { actual: usize, limit: usize },
    PathTooLong { path: Seq<char>, actual: usize, limit: usize },
    SourceChanged {
        expected_branch: Option<Seq<char>>,
        expected_commit: Seq<char>,
        actual_branch: Option<Seq<char>>,
        actual_commit: Seq<char>,
    },
    InvalidBranch { branch: Seq<char> },
    BranchExists { branch: Seq<char> },
    WorktreePathMustBeAbsolute { path: Seq<char> },
    WorktreePathExists { path: Seq<char> },
    WorktreeParentMissing { path: Seq<char> },
    CanonicalizeWorktreeParent { path: Seq<char>, detail: Seq<char> },
    WorktreeInsideSourceRepository { path: Seq<char>, repository: Seq<char> },
    CreateFailed {
        branch: Seq<char>,
        path: Seq<char>,
        code: Option<i32>,
        branch_may_exist: bool,
        path_exists: bool,
    },
    CreateIndeterminate {
        branch: Seq<char>,
        path: Seq<char>,
        detail: Seq<char>,
        branch_may_exist: bool,
        path_exists: bool,
    },
    PostCreateVerification { path: Seq<char>, detail: Seq<char> },
    ExistingWorktreeMismatch { detail: Seq<char> },
    CleanupDirty { path: Seq<char> },
    CleanupContainsCommits { base_commit: Seq<char>, head: Seq<char> },
    CleanupCommandFailed { operation: GitOperation, code: Option<i32>, path_exists: bool },
}

impl View for WorktreeError {
    type V = WorktreeErrorView;

    open spec fn view(&self) -> WorktreeErrorView {
        match *self {
            WorktreeError::GitUnavailable => WorktreeErrorView::GitUnavailable,
            WorktreeError::CanonicalizeProject { path, detail } => {
                WorktreeErrorView::CanonicalizeProject { path: path@, detail: detail@ }
            },
            WorktreeError::CanonicalizeRepository { path, detail } => {
                WorktreeErrorView::CanonicalizeRepository { path: path@, detail: detail@ }
            },
            WorktreeError::CanonicalizeExistingWorktree { path, detail } => {
                WorktreeErrorView::CanonicalizeExistingWorktree { path: path@, detail: detail@ }
            },
            WorktreeError::CanonicalizeGitCommonDir { path, detail } => {
                WorktreeErrorView::CanonicalizeGitCommonDir { path: path@, detail: detail@ }
            },
            WorktreeError::ProjectOutsideRepository { project, repository } => {
                WorktreeErrorView::ProjectOutsideRepository {
                    project: project@,
                    repository: repository@,
                }
            },
            WorktreeError::NonUtf8ProjectRelativePath { path } => {
                WorktreeErrorView::NonUtf8ProjectRelativePath { path: path@ }
            },
            WorktreeError::ProjectMissingFromBase { relative, base_commit } => {
                WorktreeErrorView::ProjectMissingFromBase {
                    relative: relative@,
                    base_commit: base_commit@,
                }
            },
            WorktreeError::GitCommandFailed { operation, code } => {
                WorktreeErrorView::GitCommandFailed { operation, code }
            },
            WorktreeError::GitExecution { detail } => WorktreeErrorView::GitExecution {
                detail: detail@,
            },
            WorktreeError::GitOutputTooLarge { operation, limit } => {
                WorktreeErrorView::GitOutputTooLarge { operation, limit }
            },
            WorktreeError::GitOutputInvalidUtf8 { operation } => {
                WorktreeErrorView::GitOutputInvalidUtf8 { operation }
            },
            WorktreeError::GitOutputEmpty { operation } => WorktreeErrorView::GitOutputEmpty {
                operation,
            },
            WorktreeError::GitRefTooLong { actual, limit } => WorktreeErrorView::GitRefTooLong {
                actual,
                limit,
            },
            WorktreeError::PathTooLong { path, actual, limit } => WorktreeErrorView::PathTooLong {
                path: path@,
                actual,
                limit,
            },
            WorktreeError::SourceChanged {
                expected_branch,
                expected_commit,
                actual_branch,
                actual_commit,
            } => WorktreeErrorView::SourceChanged {
                expected_branch: optional_view(expected_branch),
                expected_commit: expected_commit@,
                actual_branch: optional_view(actual_branch),
                actual_commit: actual_commit@,
            },
            WorktreeError::InvalidBranch { branch } => WorktreeErrorView::InvalidBranch {
                branch: branch@,
            },
            WorktreeError::BranchExists { branch } => WorktreeErrorView::BranchExists {
                branch: branch@,
            },
            WorktreeError::WorktreePathMustBeAbsolute { path } => {
                WorktreeErrorView::WorktreePathMustBeAbsolute { path: path@ }
            },
            WorktreeError::WorktreePathExists { path } => WorktreeErrorView::WorktreePathExists {
                path: path@,
            },
            WorktreeError::WorktreeParentMissing { path } => {
                WorktreeErrorView::WorktreeParentMissing { path: path@ }
            },
            WorktreeError::CanonicalizeWorktreeParent { path, detail } => {
                WorktreeErrorView::CanonicalizeWorktreeParent { path: path@, detail: detail@ }
            },
            WorktreeError::WorktreeInsideSourceRepository { path, repository } => {
                WorktreeErrorView::WorktreeInsideSourceRepository {
                    path: path@,
                    repository: repository@,
                }
            },
            WorktreeError::CreateFailed { branch, path, code, branch_may_exist, path_exists } => {
                WorktreeErrorView::CreateFailed {
                    branch: branch@,
                    path: path@,
                    code,
                    branch_may_exist,
                    path_exists,
                }
            },
            WorktreeError::CreateIndeterminate {
                branch,
                path,
                detail,
                branch_may_exist,
                path_exists,
            } => WorktreeErrorView::CreateIndeterminate {
                branch: branch@,
                path: path@,
                detail: detail@,
                branch_may_exist,
                path_exists,
            },
            WorktreeError::PostCreateVerification { path, detail } => {
                WorktreeErrorView::PostCreateVerification { path: path@, detail: detail@ }
            },
            WorktreeError::ExistingWorktreeMismatch { detail } => {
                WorktreeErrorView::ExistingWorktreeMismatch { detail: detail@ }
            },
            WorktreeError::CleanupDirty { path } => WorktreeErrorView::CleanupDirty { path: path@ },
            WorktreeError::CleanupContainsCommits { base_commit, head } => {
                WorktreeErrorView::CleanupContainsCommits { base_commit: base_commit@, head: head@ }
            },
            WorktreeError::CleanupCommandFailed { operation, code, path_exists } => {
                WorktreeErrorView::CleanupCommandFailed { operation, code, path_exists }
            },
        }
    }
}

/// The decimal text of a number with its sign.
pub open spec fn signed_decimal(n: int) -> Seq<char> {
    if n < 0 {
        "-"@ + decimal((-n) as nat)
    } else {
        decimal(n as nat)
    }
}

/// An exit code as it is told.
pub open spec fn code_text(code: Option<i32>) -> Seq<char> {
    match code {
        Some(code) => "Some("@ + signed_decimal(code as int) + ")"@,
        None => "None"@,
    }
}

/// A truth value as it is told.
pub open spec fn bool_text(value: bool) -> Seq<char> {
    if value {
        "true"@
    } else {
        "false"@
    }
}

/// The text that a `str` formats to with `{:?}`.
pub uninterp spec fn debug_quoted(s: Seq<char>) -> Seq<char>;

/// Formats a text with `format!` and `{:?}`; the result, in quotes and with
/// escapes, is named `debug_quoted`.
#[verifier::external_body]
pub(crate) fn quote(s: &str) -> (r: String)
    ensures
        r@ == debug_quoted(s@),
{
    format!("{s:?}")
}

/// An optional name as it is told.
pub open spec fn optional_text(value: Option<Seq<char>>) -> Seq<char> {
    match value {
        Some(text) => "Some("@ + debug_quoted(text) + ")"@,
        None => "None"@,
    }
}

/// Writes an exit code.
pub fn write_code(code: Option<i32>) -> (r: String)
    ensures
        r@ == code_text(code),
{
    match code {
        Some(code) => {
            let mut r = "Some(".to_owned();
            if code < 0 {
                let mut digits = "-".to_owned();
                digits.append(decimal_text((-(code as i64)) as u64).as_str());
                r.append(digits.as_str());
            } else {
                r.append(decimal_text(code as u64).as_str());
            }
            r.append(")");
            r
        },
        None => "None".to_owned(),
    }
}

fn write_bool(value: bool) -> (r: &'static str)
    ensures
        r@ == bool_text(value),
{
    if value {
        "true"
    } else {
        "false"
    }
}

/// Writes an optional name.
pub fn write_optional(value: &Option<String>) -> (r: String)
    ensures
        r@ == optional_text(optional_view(*value)),
{
    match value {
        Some(text) => {
            let mut r = "Some(".to_owned();
            r.append(quote(text.as_str()).as_str());
            r.append(")");
            r
        },
        None => "None".to_owned(),
    }
}

impl WorktreeErrorView {
    /// What is told of an error.
    pub open spec fn message(self) -> Seq<char> {
        match self {
            WorktreeErrorView::GitUnavailable => {
                "Git is not available in the resolved Pi launch environment"@
            },
            WorktreeErrorView::CanonicalizeProject { path, detail } => {
                "failed to canonicalize project path "@ + path + ": "@ + detail
            },
            WorktreeErrorView::CanonicalizeRepository { path, detail } => {
                "failed to canonicalize Git repository containing "@ + path + ": "@ + detail
            },
            WorktreeErrorView::CanonicalizeExistingWorktree { path, detail } => {
                "failed to canonicalize existing worktree path "@ + path + ": "@ + detail
            },
            WorktreeErrorView::CanonicalizeGitCommonDir { path, detail } => {
                "failed to canonicalize Git common directory "@ + path + ": "@ + detail
            },
            WorktreeErrorView::ProjectOutsideRepository { project, repository } => {
                "project "@ + project + " is not inside resolved repository "@ + repository
            },
            WorktreeErrorView::NonUtf8ProjectRelativePath { path } => {
                "project-relative path is not representable as UTF-8 for Git object verification: "@
                    + path
            },
            WorktreeErrorView::ProjectMissingFromBase { relative, base_commit } => {
                "project subdirectory "@ + relative + " does not exist in captured base commit "@
                    + base_commit
            },
            WorktreeErrorView::GitCommandFailed { operation, code } => {
                "Git command for "@ + operation.named() + " failed with exit code "@
                    + code_text(code)
            },
            WorktreeErrorView::GitExecution { detail } => {
                "Git command could not execute: "@ + detail
            },
            WorktreeErrorView::GitOutputTooLarge { operation, limit } => {
                "Git output for "@ + operation.named() + " exceeded "@ + decimal(limit as nat)
                    + " bytes"@
            },
            WorktreeErrorView::GitOutputInvalidUtf8 { operation } => {
                "Git output for "@ + operation.named() + " is not valid UTF-8"@
            },
            WorktreeErrorView::GitOutputEmpty { operation } => {
                "Git output for "@ + operation.named() + " was unexpectedly empty"@
            },
            WorktreeErrorView::GitRefTooLong { actual, limit } => {
                "Git ref or object identity is "@ + decimal(actual as nat) + " bytes; limit is "@
                    + decimal(limit as nat)
            },
            WorktreeErrorView::PathTooLong { path, actual, limit } => {
                "path "@ + path + " is "@ + decimal(actual as nat)
                    + " bytes; worktree path limit is "@ + decimal(limit as nat)
            },
            WorktreeErrorView::SourceChanged {
                expected_branch,
                expected_commit,
                actual_branch,
                actual_commit,
            } => {
                "worktree source moved since inspection: expected branch "@
                    + optional_text(expected_branch) + " at "@ + expected_commit + ", found "@
                    + optional_text(actual_branch) + " at "@ + actual_commit
            },
            WorktreeErrorView::InvalidBranch { branch } => "invalid new Git branch name "@ + branch,
            WorktreeErrorView::BranchExists { branch } => {
                "Git branch "@ + branch + " already exists"@
            },
            WorktreeErrorView::WorktreePathMustBeAbsolute { path } => {
                "worktree path must be absolute: "@ + path
            },
            WorktreeErrorView::WorktreePathExists { path } => {
                "worktree path already exists: "@ + path
            },
            WorktreeErrorView::WorktreeParentMissing { path } => {
                "worktree path has no existing parent directory: "@ + path
            },
            WorktreeErrorView::CanonicalizeWorktreeParent { path, detail } => {
                "failed to canonicalize worktree parent "@ + path + ": "@ + detail
            },
            WorktreeErrorView::WorktreeInsideSourceRepository { path, repository } => {
                "worktree path "@ + path + " must not be nested inside source repository "@
                    + repository
            },
            WorktreeErrorView::CreateFailed {
                branch,
                path,
                code,
                branch_may_exist,
                path_exists,
            } => {
                "Git worktree creation failed for branch "@ + branch + " at "@ + path
                    + " with code "@ + code_text(code) + "; branch may exist: "@
                    + bool_text(branch_may_exist) + "; path exists: "@ + bool_text(path_exists)
            },
            WorktreeErrorView::CreateIndeterminate {
                branch,
                path,
                detail,
                branch_may_exist,
                path_exists,
            } => {
                "Git worktree creation became indeterminate for branch "@ + branch + " at "@ + path
                    + ": "@ + detail + "; branch may exist: "@ + bool_text(branch_may_exist)
                    + "; path exists: "@ + bool_text(path_exists)
            },
            WorktreeErrorView::PostCreateVerification { path, detail } => {
                "created worktree at "@ + path
                    + " failed verification and was retained for explicit recovery: "@ + detail
            },
            WorktreeErrorView::ExistingWorktreeMismatch { detail } => {
                "existing worktree does not match captured recovery identity: "@ + detail
            },
            WorktreeErrorView::CleanupDirty { path } => {
                "worktree cleanup refused because "@ + path
                    + " has uncommitted or untracked changes"@
            },
            WorktreeErrorView::CleanupContainsCommits { base_commit, head } => {
                "worktree cleanup refused because task branch advanced beyond captured base "@
                    + base_commit + "; current HEAD is "@ + head
            },
            WorktreeErrorView::CleanupCommandFailed { operation, code, path_exists } => {
                "worktree cleanup command for "@ + operation.named() + " failed with exit code "@
                    + code_text(code) + "; path still exists: "@ + bool_text(path_exists)
            },
        }
    }

    /// Whether the failed operation may have left something behind in Git.
    pub open spec fn left_traces(self) -> bool {
        match self {
            WorktreeErrorView::CreateFailed { branch_may_exist, path_exists, .. } => branch_may_exist
                || path_exists,
            WorktreeErrorView::CreateIndeterminate { .. } => true,
            WorktreeErrorView::PostCreateVerification { .. } => true,
            _ => false,
        }
    }
}

impl WorktreeError {
    /// Whether the failed operation may have left something behind in Git. An
    /// ambiguous failure is never called clean.
    pub fn may_have_mutated(&self) -> (r: bool)
        ensures
            r == self@.left_traces(),
    {
        match self {
            WorktreeError::CreateFailed { branch_may_exist, path_exists, .. } => *branch_may_exist
                || *path_exists,
            WorktreeError::CreateIndeterminate { .. } => true,
            WorktreeError::PostCreateVerification { .. } => true,
            _ => false,
        }
    }

    /// What is told of the error.
    pub fn message(&self) -> (r: String)
        ensures
            r@ == self@.message(),
    {
        match self {
            WorktreeError::GitUnavailable => {
                let r = "Git is not available in the resolved Pi launch environment".to_owned();
                r
            },
            WorktreeError::CanonicalizeProject { path, detail } => {
                let mut r = "failed to canonicalize project path ".to_owned();
                r.append(path.as_str());
                r.append(": ");
                r.append(detail.as_str());
                r
            },
            WorktreeError::CanonicalizeRepository { path, detail } => {
                let mut r = "failed to canonicalize Git repository containing ".to_owned();
                r.append(path.as_str());
                r.append(": ");
                r.append(detail.as_str());
                r
            },
            WorktreeError::CanonicalizeExistingWorktree { path, detail } => {
                let mut r = "failed to canonicalize existing worktree path ".to_owned();
                r.append(path.as_str());
                r.append(": ");
                r.append(detail.as_str());
                r
            },
            WorktreeError::CanonicalizeGitCommonDir { path, detail } => {
                let mut r = "failed to canonicalize Git common directory ".to_owned();
                r.append(path.as_str());
                r.append(": ");
                r.append(detail.as_str());
                r
            },
            WorktreeError::ProjectOutsideRepository { project, repository } => {
                let mut r = "project ".to_owned();
                r.append(project.as_str());
                r.append(" is not inside resolved repository ");
                r.append(repository.as_str());
                r
            },
            WorktreeError::NonUtf8ProjectRelativePath { path } => {
                let mut r = "project-relative path is not representable as UTF-8 for Git object verification: ".to_owned();
                r.append(path.as_str());
                r
            },
            WorktreeError::ProjectMissingFromBase { relative, base_commit } => {
                let mut r = "project subdirectory ".to_owned();
                r.append(relative.as_str());
                r.append(" does not exist in captured base commit ");
                r.append(base_commit.as_str());
                r
            },
            WorktreeError::GitCommandFailed { operation, code } => {
                let mut r = "Git command for ".to_owned();
                r.append(operation.text());
                r.append(" failed with exit code ");
                r.append(write_code(*code).as_str());
                r
            },
            WorktreeError::GitExecution { detail } => {
                let mut r = "Git command could not execute: ".to_owned();
                r.append(detail.as_str());
                r
            },
            WorktreeError::GitOutputTooLarge { operation, limit } => {
                let mut r = "Git output for ".to_owned();
                r.append(operation.text());
                r.append(" exceeded ");
                r.append(decimal_text(*limit as u64).as_str());
                r.append(" bytes");
                r
            },
            WorktreeError::GitOutputInvalidUtf8 { operation } => {
                let mut r = "Git output for ".to_owned();
                r.append(operation.text());
                r.append(" is not valid UTF-8");
                r
            },
            WorktreeError::GitOutputEmpty { operation } => {
                let mut r = "Git output for ".to_owned();
                r.append(operation.text());
                r.append(" was unexpectedly empty");
                r
            },
            WorktreeError::GitRefTooLong { actual, limit } => {
                let mut r = "Git ref or object identity is ".to_owned();
                r.append(decimal_text(*actual as u64).as_str());
                r.append(" bytes; limit is ");
                r.append(decimal_text(*limit as u64).as_str());
                r
            },
            WorktreeError::PathTooLong { path, actual, limit } => {
                let mut r = "path ".to_owned();
                r.append(path.as_str());
                r.append(" is ");
                r.append(decimal_text(*actual as u64).as_str());
                r.append(" bytes; worktree path limit is ");
                r.append(decimal_text(*limit as u64).as_str());
                r
            },
            WorktreeError::SourceChanged { expected_branch, expected_commit, actual_branch, actual_commit } => {
                let mut r = "worktree source moved since inspection: expected branch ".to_owned();
                r.append(write_optional(expected_branch).as_str());
                r.append(" at ");
                r.append(expected_commit.as_str());
                r.append(", found ");
                r.append(write_optional(actual_branch).as_str());
                r.append(" at ");
                r.append(actual_commit.as_str());
                r
            },
            WorktreeError::InvalidBranch { branch } => {
                let mut r = "invalid new Git branch name ".to_owned();
                r.append(branch.as_str());
                r
            },
            WorktreeError::BranchExists { branch } => {
                let mut r = "Git branch ".to_owned();
                r.append(branch.as_str());
                r.append(" already exists");
                r
            },
            WorktreeError::WorktreePathMustBeAbsolute { path } => {
                let mut r = "worktree path must be absolute: ".to_owned();
                r.append(path.as_str());
                r
            },
            WorktreeError::WorktreePathExists { path } => {
                let mut r = "worktree path already exists: ".to_owned();
                r.append(path.as_str());
                r
            },
            WorktreeError::WorktreeParentMissing { path } => {
                let mut r = "worktree path has no existing parent directory: ".to_owned();
                r.append(path.as_str());
                r
            },
            WorktreeError::CanonicalizeWorktreeParent { path, detail } => {
                let mut r = "failed to canonicalize worktree parent ".to_owned();
                r.append(path.as_str());
                r.append(": ");
                r.append(detail.as_str());
                r
            },
            WorktreeError::WorktreeInsideSourceRepository { path, repository } => {
                let mut r = "worktree path ".to_owned();
                r.append(path.as_str());
                r.append(" must not be nested inside source repository ");
                r.append(repository.as_str());
                r
            },
            WorktreeError::CreateFailed { branch, path, code, branch_may_exist, path_exists } => {
                let mut r = "Git worktree creation failed for branch ".to_owned();
                r.append(branch.as_str());
                r.append(" at ");
                r.append(path.as_str());
                r.append(" with code ");
                r.append(write_code(*code).as_str());
                r.append("; branch may exist: ");
                r.append(write_bool(*branch_may_exist));
                r.append("; path exists: ");
                r.append(write_bool(*path_exists));
                r
            },
            WorktreeError::CreateIndeterminate { branch, path, detail, branch_may_exist, path_exists } => {
                let mut r = "Git worktree creation became indeterminate for branch ".to_owned();
                r.append(branch.as_str());
                r.append(" at ");
                r.append(path.as_str());
                r.append(": ");
                r.append(detail.as_str());
                r.append("; branch may exist: ");
                r.append(write_bool(*branch_may_exist));
                r.append("; path exists: ");
                r.append(write_bool(*path_exists));
                r
            },
            WorktreeError::PostCreateVerification { path, detail } => {
                let mut r = "created worktree at ".to_owned();
                r.append(path.as_str());
                r.append(" failed verification and was retained for explicit recovery: ");
                r.append(detail.as_str());
                r
            },
            WorktreeError::ExistingWorktreeMismatch { detail } => {
                let mut r = "existing worktree does not match captured recovery identity: ".to_owned();
                r.append(detail.as_str());
                r
            },
            WorktreeError::CleanupDirty { path } => {
                let mut r = "worktree cleanup refused because ".to_owned();
                r.append(path.as_str());
                r.append(" has uncommitted or untracked changes");
                r
            },
            WorktreeError::CleanupContainsCommits { base_commit, head } => {
                let mut r = "worktree cleanup refused because task branch advanced beyond captured base ".to_owned();
                r.append(base_commit.as_str());
                r.append("; current HEAD is ");
                r.append(head.as_str());
                r
            },
            WorktreeError::CleanupCommandFailed { operation, code, path_exists } => {
                let mut r = "worktree cleanup command for ".to_owned();
                r.append(operation.text());
                r.append(" failed with exit code ");
                r.append(write_code(*code).as_str());
                r.append("; path still exists: ");
                r.append(write_bool(*path_exists));
                r
            },
        }
    }
}

} // verus!
