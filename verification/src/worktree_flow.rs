//! Decisions about worktrees, one answer of Git or the file system at a time.
//!
//! Each of these says what it needs to know next. Whoever runs Git and looks at the
//! file system hands in the answer, until there is a result.
use vstd::prelude::*;
use vstd::string::*;

use crate::limits::RuntimeLimits;
use crate::paths::{
    is_within, path_join, path_joined, path_within, relative_path, relative_to, same_path,
    same_place,
};
use crate::text::{chars_of, join, optional_view, same_text, texts_view};
use crate::worktree::{
    bounded_utf8, git_run, git_text, output_text, path_refusal, ref_refusal, run_text, succeeded,
    validate_path_bytes, validate_ref_text, CreatedWorktree, CreatedWorktreeView, GitCommand,
    GitCommandView, GitFailure, GitOutput, GitOutputView, WorktreeBaseSnapshot, WorktreeBaseView,
};
use crate::worktree_error::{GitOperation, WorktreeError, WorktreeErrorView};

verus! {

/// What has to be found out next.
#[derive(Debug, PartialEq, Eq)]
pub enum WorktreeNeed {
    Git(GitCommand),
    /// What the file system resolves a path to.
    Canonicalize(String),
    /// Whether there is anything at a path.
    Exists(String),
}

/// Model of a [`WorktreeNeed`].
pub enum NeedView {
    Git(GitCommandView),
    Canonicalize(Seq<char>),
    Exists(Seq<char>),
}

impl View for WorktreeNeed {
    type V = NeedView;

    open spec fn view(&self) -> NeedView {
        match *self {
            WorktreeNeed::Git(command) => NeedView::Git(command@),
            WorktreeNeed::Canonicalize(path) => NeedView::Canonicalize(path@),
            WorktreeNeed::Exists(path) => NeedView::Exists(path@),
        }
    }
}

/// What was found out.
#[derive(Debug, PartialEq, Eq)]
pub enum WorktreeReply {
    Git(Result<GitOutput, GitFailure>),
    /// The resolved path, or why there is none.
    Canonical(Result<String, String>),
    Exists(bool),
}

/// Model of a [`WorktreeReply`].
pub enum ReplyView {
    Git(Result<GitOutputView, WorktreeErrorView>),
    Canonical(Result<Seq<char>, Seq<char>>),
    Exists(bool),
}

impl View for WorktreeReply {
    type V = ReplyView;

    open spec fn view(&self) -> ReplyView {
        match *self {
            WorktreeReply::Git(run) => ReplyView::Git(git_run(run)),
            WorktreeReply::Canonical(Ok(path)) => ReplyView::Canonical(Ok(path@)),
            WorktreeReply::Canonical(Err(detail)) => ReplyView::Canonical(Err(detail@)),
            WorktreeReply::Exists(exists) => ReplyView::Exists(exists),
        }
    }
}

impl ReplyView {
    /// Whether Git, where it was not run to its end, told why in its own words.
    pub open spec fn from_git(self) -> bool {
        self is Git && self->Git_0 is Err ==> self->Git_0->Err_0 is GitUnavailable
            || self->Git_0->Err_0 is GitExecution
    }

    /// Whether this answers that need.
    pub open spec fn answers(self, need: NeedView) -> bool {
        match need {
            NeedView::Git(_) => self is Git,
            NeedView::Canonicalize(_) => self is Canonical,
            NeedView::Exists(_) => self is Exists,
        }
    }
}

/// Goes on, or has come to its end.
#[derive(Debug, PartialEq, Eq)]
pub enum Progress<F, T, E> {
    Continue(F),
    Done(Result<T, E>),
}

/// The model of a progress.
pub open spec fn progress_view<F: View, T: View>(p: Progress<F, T, WorktreeError>) -> Progress<
    F::V,
    T::V,
    WorktreeErrorView,
> {
    match p {
        Progress::Continue(flow) => Progress::Continue(flow@),
        Progress::Done(Ok(value)) => Progress::Done(Ok(value@)),
        Progress::Done(Err(error)) => Progress::Done(Err(error@)),
    }
}

/// A limit, but at least one byte.
pub open spec fn at_least_one(bytes: usize) -> usize {
    if bytes < 1 {
        1
    } else {
        bytes
    }
}

/// A Git command of these arguments.
pub open spec fn git_at(cwd: Seq<char>, args: Seq<Seq<char>>, max_bytes: usize) -> NeedView {
    NeedView::Git(GitCommandView { cwd, args, max_bytes: at_least_one(max_bytes) })
}

/// A Git command of these arguments.
pub(crate) fn run_git(cwd: &str, args: Vec<String>, max_bytes: usize) -> (r: WorktreeNeed)
    ensures
        r@ == git_at(cwd@, texts_view(args@), max_bytes),
{
    let max_bytes: usize = if max_bytes < 1 {
        1
    } else {
        max_bytes
    };
    WorktreeNeed::Git(GitCommand { cwd: cwd.to_owned(), args, max_bytes })
}

/// A list of two arguments.
pub(crate) fn args2(a: &str, b: &str) -> (r: Vec<String>)
    ensures
        texts_view(r@) == seq![a@, b@],
{
    let mut r: Vec<String> = Vec::new();
    r.push(a.to_owned());
    r.push(b.to_owned());
    assert(texts_view(r@) =~= seq![a@, b@]);
    r
}

/// A list of three arguments.
pub(crate) fn args3(a: &str, b: &str, c: &str) -> (r: Vec<String>)
    ensures
        texts_view(r@) == seq![a@, b@, c@],
{
    let mut r: Vec<String> = Vec::new();
    r.push(a.to_owned());
    r.push(b.to_owned());
    r.push(c.to_owned());
    assert(texts_view(r@) =~= seq![a@, b@, c@]);
    r
}

/// A list of four arguments.
pub(crate) fn args4(a: &str, b: &str, c: &str, d: &str) -> (r: Vec<String>)
    ensures
        texts_view(r@) == seq![a@, b@, c@, d@],
{
    let mut r: Vec<String> = Vec::new();
    r.push(a.to_owned());
    r.push(b.to_owned());
    r.push(c.to_owned());
    r.push(d.to_owned());
    assert(texts_view(r@) =~= seq![a@, b@, c@, d@]);
    r
}

/// A list of six arguments.
pub(crate) fn args6(a: &str, b: &str, c: &str, d: &str, e: &str, f: &str) -> (r: Vec<String>)
    ensures
        texts_view(r@) == seq![a@, b@, c@, d@, e@, f@],
{
    let mut r: Vec<String> = Vec::new();
    r.push(a.to_owned());
    r.push(b.to_owned());
    r.push(c.to_owned());
    r.push(d.to_owned());
    r.push(e.to_owned());
    r.push(f.to_owned());
    assert(texts_view(r@) =~= seq![a@, b@, c@, d@, e@, f@]);
    r
}

/// Where the inspection of a base stands.
#[derive(Clone, Copy, Debug, PartialEq, Eq, Structural)]
pub enum InspectStage {
    Project,
    TopLevel,
    Repository,
    BaseCommit,
    Branch,
    InBase,
    Status,
}

/// Finds out where a worktree may start from.
#[derive(Debug, PartialEq, Eq)]
pub struct BaseInspection {
    stage: InspectStage,
    asked: String,
    project_root: String,
    top_level: String,
    repository_root: String,
    relative: String,
    base_commit: String,
    source_branch: Option<String>,
    limits: RuntimeLimits,
}

/// Model of a [`BaseInspection`].
pub struct BaseInspectionView {
    pub stage: InspectStage,
    pub asked: Seq<char>,
    pub project_root: Seq<char>,
    pub top_level: Seq<char>,
    pub repository_root: Seq<char>,
    pub relative: Seq<char>,
    pub base_commit: Seq<char>,
    pub source_branch: Option<Seq<char>>,
    pub limits: RuntimeLimits,
}

impl View for BaseInspection {
    type V = BaseInspectionView;

    closed spec fn view(&self) -> BaseInspectionView {
        BaseInspectionView {
            stage: self.stage,
            asked: self.asked@,
            project_root: self.project_root@,
            top_level: self.top_level@,
            repository_root: self.repository_root@,
            relative: self.relative@,
            base_commit: self.base_commit@,
            source_branch: optional_view(self.source_branch),
            limits: self.limits,
        }
    }
}

/// How an inspection goes on.
pub type InspectStep = Progress<BaseInspectionView, WorktreeBaseView, WorktreeErrorView>;

/// A path with slashes for its backslashes.
pub open spec fn slashed(path: Seq<char>) -> Seq<char> {
    path.map_values(
        |c: char|
            if c == '\\' {
                '/'
            } else {
                c
            },
    )
}

impl BaseInspectionView {
    pub open spec fn begun(asked: Seq<char>, limits: RuntimeLimits) -> Self {
        BaseInspectionView {
            stage: InspectStage::Project,
            asked,
            project_root: Seq::empty(),
            top_level: Seq::empty(),
            repository_root: Seq::empty(),
            relative: Seq::empty(),
            base_commit: Seq::empty(),
            source_branch: None,
            limits,
        }
    }

    /// What the inspection needs to know next.
    pub open spec fn need(self) -> NeedView {
        match self.stage {
            InspectStage::Project => NeedView::Canonicalize(self.asked),
            InspectStage::TopLevel => git_at(
                self.project_root,
                seq!["rev-parse"@, "--show-toplevel"@],
                self.limits.max_git_command_output_bytes,
            ),
            InspectStage::Repository => NeedView::Canonicalize(self.top_level),
            InspectStage::BaseCommit => git_at(
                self.repository_root,
                seq!["rev-parse"@, "--verify"@, "HEAD^{commit}"@],
                self.limits.max_git_command_output_bytes,
            ),
            InspectStage::Branch => git_at(
                self.repository_root,
                seq!["symbolic-ref"@, "--quiet"@, "--short"@, "HEAD"@],
                self.limits.max_git_ref_bytes,
            ),
            InspectStage::InBase => git_at(
                self.repository_root,
                seq!["cat-file"@, "-e"@, self.base_commit + ":"@ + slashed(self.relative)],
                1,
            ),
            InspectStage::Status => git_at(
                self.repository_root,
                seq!["status"@, "--porcelain=v1"@, "--untracked-files=normal"@],
                1,
            ),
        }
    }

    pub open spec fn after_project(self, resolved: Result<Seq<char>, Seq<char>>) -> InspectStep {
        match resolved {
            Err(detail) => Progress::Done(
                Err(WorktreeErrorView::CanonicalizeProject { path: self.asked, detail }),
            ),
            Ok(project_root) => match path_refusal(project_root, self.limits) {
                Some(error) => Progress::Done(Err(error)),
                None => Progress::Continue(
                    BaseInspectionView { stage: InspectStage::TopLevel, project_root, ..self },
                ),
            },
        }
    }

    pub open spec fn after_repository(self, resolved: Result<Seq<char>, Seq<char>>) -> InspectStep {
        match resolved {
            Err(detail) => Progress::Done(
                Err(WorktreeErrorView::CanonicalizeRepository { path: self.project_root, detail }),
            ),
            Ok(repository_root) => match path_refusal(repository_root, self.limits) {
                Some(error) => Progress::Done(Err(error)),
                None => if !path_within(self.project_root, repository_root) {
                    Progress::Done(
                        Err(
                            WorktreeErrorView::ProjectOutsideRepository {
                                project: self.project_root,
                                repository: repository_root,
                            },
                        ),
                    )
                } else {
                    Progress::Continue(
                        BaseInspectionView {
                            stage: InspectStage::BaseCommit,
                            repository_root,
                            relative: relative_to(self.project_root, repository_root),
                            ..self
                        },
                    )
                },
            },
        }
    }

    pub open spec fn after_base_commit(
        self,
        run: Result<GitOutputView, WorktreeErrorView>,
    ) -> InspectStep {
        match run_text(run, GitOperation::ResolveBaseCommit, self.limits) {
            Err(error) => Progress::Done(Err(error)),
            Ok(base_commit) => match ref_refusal(base_commit, self.limits) {
                Some(error) => Progress::Done(Err(error)),
                None => Progress::Continue(
                    BaseInspectionView { stage: InspectStage::Branch, base_commit, ..self },
                ),
            },
        }
    }

    /// With the branch that was checked out, if one was.
    pub open spec fn with_branch(self, source_branch: Option<Seq<char>>) -> Self {
        BaseInspectionView {
            stage: if self.relative.len() == 0 {
                InspectStage::Status
            } else {
                InspectStage::InBase
            },
            source_branch,
            ..self
        }
    }

    pub open spec fn after_branch(
        self,
        run: Result<GitOutputView, WorktreeErrorView>,
    ) -> InspectStep {
        match run {
            Err(error) => Progress::Done(Err(error)),
            Ok(output) => if output.code == Some(0i32) {
                match output_text(output, GitOperation::ResolveSourceBranch, self.limits) {
                    Err(error) => Progress::Done(Err(error)),
                    Ok(branch) => match ref_refusal(branch, self.limits) {
                        Some(error) => Progress::Done(Err(error)),
                        None => Progress::Continue(self.with_branch(Some(branch))),
                    },
                }
            } else if output.code == Some(1i32) {
                Progress::Continue(self.with_branch(None))
            } else {
                Progress::Done(
                    Err(
                        WorktreeErrorView::GitCommandFailed {
                            operation: GitOperation::ResolveSourceBranch,
                            code: output.code,
                        },
                    ),
                )
            },
        }
    }

    pub open spec fn after_in_base(
        self,
        run: Result<GitOutputView, WorktreeErrorView>,
    ) -> InspectStep {
        match run {
            Err(error) => Progress::Done(Err(error)),
            Ok(output) => if output.code != Some(0i32) {
                Progress::Done(
                    Err(
                        WorktreeErrorView::ProjectMissingFromBase {
                            relative: self.relative,
                            base_commit: self.base_commit,
                        },
                    ),
                )
            } else {
                Progress::Continue(
                    BaseInspectionView { stage: InspectStage::Status, ..self },
                )
            },
        }
    }

    pub open spec fn after_status(
        self,
        run: Result<GitOutputView, WorktreeErrorView>,
    ) -> InspectStep {
        match run {
            Err(error) => Progress::Done(Err(error)),
            Ok(output) => if output.code != Some(0i32) {
                Progress::Done(
                    Err(
                        WorktreeErrorView::GitCommandFailed {
                            operation: GitOperation::InspectStatus,
                            code: output.code,
                        },
                    ),
                )
            } else {
                Progress::Done(
                    Ok(
                        WorktreeBaseView {
                            repository_root: self.repository_root,
                            project_root: self.project_root,
                            project_relative_path: self.relative,
                            source_branch: self.source_branch,
                            base_commit: self.base_commit,
                            dirty: output.stdout_exceeded || output.stdout.len() > 0,
                        },
                    ),
                )
            },
        }
    }

    /// How the inspection goes on with an answer to what it needs.
    pub open spec fn after(self, reply: ReplyView) -> InspectStep {
        match (self.stage, reply) {
            (InspectStage::Project, ReplyView::Canonical(resolved)) => self.after_project(resolved),
            (InspectStage::TopLevel, ReplyView::Git(run)) => match run_text(
                run,
                GitOperation::ResolveRepositoryRoot,
                self.limits,
            ) {
                Err(error) => Progress::Done(Err(error)),
                Ok(top_level) => Progress::Continue(
                    BaseInspectionView { stage: InspectStage::Repository, top_level, ..self },
                ),
            },
            (InspectStage::Repository, ReplyView::Canonical(resolved)) => self.after_repository(
                resolved,
            ),
            (InspectStage::BaseCommit, ReplyView::Git(run)) => self.after_base_commit(run),
            (InspectStage::Branch, ReplyView::Git(run)) => self.after_branch(run),
            (InspectStage::InBase, ReplyView::Git(run)) => self.after_in_base(run),
            (InspectStage::Status, ReplyView::Git(run)) => self.after_status(run),
            _ => Progress::Continue(self),
        }
    }
}

/// Writes slashes for backslashes.
fn with_slashes(path: &str) -> (r: String)
    ensures
        r@ == slashed(path@),
{
    let chars = chars_of(path);
    let mut r = String::new();
    let mut i: usize = 0;
    assert(r@ =~= slashed(path@).take(0));
    while i < chars.len()
        invariant
            i <= chars@.len(),
            chars@ == path@,
            r@ == slashed(path@).take(i as int),
        decreases chars@.len() - i,
    {
        let c = chars[i];
        assert(slashed(path@).take(i + 1) =~= slashed(path@).take(i as int).push(
            slashed(path@)[i as int],
        ));
        if c == '\\' {
            r.push('/');
        } else {
            r.push(c);
        }
        i += 1;
    }
    assert(slashed(path@).take(i as int) =~= slashed(path@));
    r
}

/// Starts to find out where a worktree of the project may start from.
pub fn inspect_worktree_base(project_root: &str, limits: RuntimeLimits) -> (r: BaseInspection)
    ensures
        r@ == BaseInspectionView::begun(project_root@, limits),
{
    let none = String::new();
    assert(none@ =~= Seq::<char>::empty());
    BaseInspection {
        stage: InspectStage::Project,
        asked: project_root.to_owned(),
        project_root: none.clone(),
        top_level: none.clone(),
        repository_root: none.clone(),
        relative: none.clone(),
        base_commit: none,
        source_branch: None,
        limits,
    }
}

impl BaseInspection {
    /// What the inspection needs to know next.
    pub fn need(&self) -> (r: WorktreeNeed)
        ensures
            r@ == self@.need(),
    {
        let output: usize = self.limits.max_git_command_output_bytes;
        match self.stage {
            InspectStage::Project => WorktreeNeed::Canonicalize(self.asked.clone()),
            InspectStage::TopLevel => run_git(
                self.project_root.as_str(),
                args2("rev-parse", "--show-toplevel"),
                output,
            ),
            InspectStage::Repository => WorktreeNeed::Canonicalize(self.top_level.clone()),
            InspectStage::BaseCommit => run_git(
                self.repository_root.as_str(),
                args3("rev-parse", "--verify", "HEAD^{commit}"),
                output,
            ),
            InspectStage::Branch => run_git(
                self.repository_root.as_str(),
                args4("symbolic-ref", "--quiet", "--short", "HEAD"),
                self.limits.max_git_ref_bytes,
            ),
            InspectStage::InBase => {
                let relative = with_slashes(self.relative.as_str());
                let object = join(join(self.base_commit.as_str(), ":").as_str(), relative.as_str());
                run_git(
                    self.repository_root.as_str(),
                    args3("cat-file", "-e", object.as_str()),
                    1,
                )
            },
            InspectStage::Status => run_git(
                self.repository_root.as_str(),
                args3("status", "--porcelain=v1", "--untracked-files=normal"),
                1,
            ),
        }
    }

    fn on_canonical(self, resolved: Result<String, String>) -> (r: Progress<
        BaseInspection,
        WorktreeBaseSnapshot,
        WorktreeError,
    >)
        requires
            self@.stage is Project || self@.stage is Repository,
        ensures
            progress_view(r) == self@.after(WorktreeReply::Canonical(resolved)@),
    {
        let path = match resolved {
            Ok(path) => path,
            Err(detail) => {
                return match self.stage {
                    InspectStage::Project => Progress::Done(
                        Err(WorktreeError::CanonicalizeProject { path: self.asked, detail }),
                    ),
                    _ => Progress::Done(
                        Err(
                            WorktreeError::CanonicalizeRepository {
                                path: self.project_root,
                                detail,
                            },
                        ),
                    ),
                };
            },
        };
        match validate_path_bytes(path.as_str(), self.limits) {
            Err(error) => {
                return Progress::Done(Err(error));
            },
            Ok(_) => {},
        }
        match self.stage {
            InspectStage::Project => {
                let mut next = self;
                next.stage = InspectStage::TopLevel;
                next.project_root = path;
                Progress::Continue(next)
            },
            _ => {
                if !is_within(self.project_root.as_str(), path.as_str()) {
                    return Progress::Done(
                        Err(
                            WorktreeError::ProjectOutsideRepository {
                                project: self.project_root,
                                repository: path,
                            },
                        ),
                    );
                }
                let relative = relative_path(self.project_root.as_str(), path.as_str());
                let mut next = self;
                next.stage = InspectStage::BaseCommit;
                next.relative = relative;
                next.repository_root = path;
                Progress::Continue(next)
            },
        }
    }

    fn on_text(self, run: Result<GitOutput, GitFailure>) -> (r: Progress<
        BaseInspection,
        WorktreeBaseSnapshot,
        WorktreeError,
    >)
        requires
            self@.stage is TopLevel || self@.stage is BaseCommit,
        ensures
            progress_view(r) == self@.after(WorktreeReply::Git(run)@),
    {
        let limits = self.limits;
        match self.stage {
            InspectStage::TopLevel => match git_text(
                run,
                GitOperation::ResolveRepositoryRoot,
                limits,
            ) {
                Err(error) => Progress::Done(Err(error)),
                Ok(top_level) => {
                    let mut next = self;
                    next.stage = InspectStage::Repository;
                    next.top_level = top_level;
                    Progress::Continue(next)
                },
            },
            _ => match git_text(run, GitOperation::ResolveBaseCommit, limits) {
                Err(error) => Progress::Done(Err(error)),
                Ok(base_commit) => match validate_ref_text(base_commit.as_str(), limits) {
                    Err(error) => Progress::Done(Err(error)),
                    Ok(_) => {
                        let mut next = self;
                        next.stage = InspectStage::Branch;
                        next.base_commit = base_commit;
                        Progress::Continue(next)
                    },
                },
            },
        }
    }

    fn on_branch(self, run: Result<GitOutput, GitFailure>) -> (r: Progress<
        BaseInspection,
        WorktreeBaseSnapshot,
        WorktreeError,
    >)
        requires
            self@.stage is Branch,
        ensures
            progress_view(r) == self@.after(WorktreeReply::Git(run)@),
    {
        let output = match run {
            Err(failure) => {
                return Progress::Done(Err(failure.error()));
            },
            Ok(output) => output,
        };
        let limits = self.limits;
        let source_branch = match output.code {
            Some(0) => match bounded_utf8(output, GitOperation::ResolveSourceBranch, limits) {
                Err(error) => {
                    return Progress::Done(Err(error));
                },
                Ok(branch) => match validate_ref_text(branch.as_str(), limits) {
                    Err(error) => {
                        return Progress::Done(Err(error));
                    },
                    Ok(_) => Some(branch),
                },
            },
            Some(1) => None,
            code => {
                return Progress::Done(
                    Err(
                        WorktreeError::GitCommandFailed {
                            operation: GitOperation::ResolveSourceBranch,
                            code,
                        },
                    ),
                );
            },
        };
        let mut next = self;
        next.stage =
        if next.relative.as_str().is_empty() {
            InspectStage::Status
        } else {
            InspectStage::InBase
        };
        next.source_branch = source_branch;
        Progress::Continue(next)
    }

    fn on_check(self, run: Result<GitOutput, GitFailure>) -> (r: Progress<
        BaseInspection,
        WorktreeBaseSnapshot,
        WorktreeError,
    >)
        requires
            self@.stage is InBase || self@.stage is Status,
        ensures
            progress_view(r) == self@.after(WorktreeReply::Git(run)@),
    {
        let output = match run {
            Err(failure) => {
                return Progress::Done(Err(failure.error()));
            },
            Ok(output) => output,
        };
        match self.stage {
            InspectStage::InBase => {
                if !succeeded(&output) {
                    return Progress::Done(
                        Err(
                            WorktreeError::ProjectMissingFromBase {
                                relative: self.relative,
                                base_commit: self.base_commit,
                            },
                        ),
                    );
                }
                let mut next = self;
                next.stage = InspectStage::Status;
                Progress::Continue(next)
            },
            _ => {
                if !succeeded(&output) {
                    return Progress::Done(
                        Err(
                            WorktreeError::GitCommandFailed {
                                operation: GitOperation::InspectStatus,
                                code: output.code,
                            },
                        ),
                    );
                }
                Progress::Done(
                    Ok(
                        WorktreeBaseSnapshot {
                            repository_root: self.repository_root,
                            project_root: self.project_root,
                            project_relative_path: self.relative,
                            source_branch: self.source_branch,
                            base_commit: self.base_commit,
                            dirty: output.stdout_exceeded || output.stdout.len() > 0,
                        },
                    ),
                )
            },
        }
    }

    /// Goes on with an answer to what the inspection needs.
    pub fn advance(self, reply: WorktreeReply) -> (r: Progress<
        BaseInspection,
        WorktreeBaseSnapshot,
        WorktreeError,
    >)
        requires
            reply@.answers(self@.need()),
        ensures
            progress_view(r) == self@.after(reply@),
    {
        match reply {
            WorktreeReply::Canonical(resolved) => self.on_canonical(resolved),
            WorktreeReply::Git(run) => match self.stage {
                InspectStage::TopLevel | InspectStage::BaseCommit => self.on_text(run),
                InspectStage::Branch => self.on_branch(run),
                _ => self.on_check(run),
            },
            WorktreeReply::Exists(_) => Progress::Continue(self),
        }
    }
}

/// Where the verification of a worktree stands.
#[derive(Clone, Copy, Debug, PartialEq, Eq, Structural)]
pub enum VerifyStage {
    Root,
    TopLevel,
    VerifiedRoot,
    SourceCommon,
    SourceCommonPath,
    WorktreeCommon,
    WorktreeCommonPath,
    Commit,
    Branch,
    Ancestry,
    ExecutionRoot,
}

/// Finds out whether a worktree is the one that was created for a branch.
#[derive(Debug, PartialEq, Eq)]
pub struct WorktreeVerification {
    stage: VerifyStage,
    base: WorktreeBaseSnapshot,
    branch: String,
    target: String,
    require_head_at_base: bool,
    worktree_root: String,
    pending: String,
    source_common: String,
    commit: String,
    limits: RuntimeLimits,
}

/// Model of a [`WorktreeVerification`].
pub struct VerificationView {
    pub stage: VerifyStage,
    pub base: WorktreeBaseView,
    pub branch: Seq<char>,
    pub target: Seq<char>,
    pub require_head_at_base: bool,
    pub worktree_root: Seq<char>,
    /// A path of Git's that is yet to be resolved.
    pub pending: Seq<char>,
    pub source_common: Seq<char>,
    pub commit: Seq<char>,
    pub limits: RuntimeLimits,
}

impl View for WorktreeVerification {
    type V = VerificationView;

    closed spec fn view(&self) -> VerificationView {
        VerificationView {
            stage: self.stage,
            base: self.base@,
            branch: self.branch@,
            target: self.target@,
            require_head_at_base: self.require_head_at_base,
            worktree_root: self.worktree_root@,
            pending: self.pending@,
            source_common: self.source_common@,
            commit: self.commit@,
            limits: self.limits,
        }
    }
}

/// How a verification goes on.
pub type VerifyStep = Progress<VerificationView, CreatedWorktreeView, WorktreeErrorView>;

/// Ends a verification with what does not match.
pub open spec fn mismatch(detail: Seq<char>) -> VerifyStep {
    Progress::Done(Err(WorktreeErrorView::ExistingWorktreeMismatch { detail }))
}

impl VerificationView {
    pub open spec fn begun(
        base: WorktreeBaseView,
        branch: Seq<char>,
        target: Seq<char>,
        require_head_at_base: bool,
        limits: RuntimeLimits,
    ) -> Self {
        VerificationView {
            stage: VerifyStage::Root,
            base,
            branch,
            target,
            require_head_at_base,
            worktree_root: Seq::empty(),
            pending: Seq::empty(),
            source_common: Seq::empty(),
            commit: Seq::empty(),
            limits,
        }
    }

    /// Where runs in the worktree execute.
    pub open spec fn execution_path(self) -> Seq<char> {
        path_joined(self.worktree_root, self.base.project_relative_path)
    }

    /// What the verification needs to know next.
    pub open spec fn need(self) -> NeedView {
        let output = self.limits.max_git_command_output_bytes;
        match self.stage {
            VerifyStage::Root => NeedView::Canonicalize(self.target),
            VerifyStage::TopLevel => git_at(
                self.worktree_root,
                seq!["rev-parse"@, "--show-toplevel"@],
                output,
            ),
            VerifyStage::VerifiedRoot
            | VerifyStage::SourceCommonPath
            | VerifyStage::WorktreeCommonPath => NeedView::Canonicalize(self.pending),
            VerifyStage::SourceCommon => git_at(
                self.base.repository_root,
                seq!["rev-parse"@, "--git-common-dir"@],
                output,
            ),
            VerifyStage::WorktreeCommon => git_at(
                self.worktree_root,
                seq!["rev-parse"@, "--git-common-dir"@],
                output,
            ),
            VerifyStage::Commit => git_at(
                self.worktree_root,
                seq!["rev-parse"@, "--verify"@, "HEAD^{commit}"@],
                output,
            ),
            VerifyStage::Branch => git_at(
                self.worktree_root,
                seq!["symbolic-ref"@, "--quiet"@, "--short"@, "HEAD"@],
                output,
            ),
            VerifyStage::Ancestry => git_at(
                self.worktree_root,
                seq!["merge-base"@, "--is-ancestor"@, self.base.base_commit, "HEAD"@],
                output,
            ),
            VerifyStage::ExecutionRoot => NeedView::Canonicalize(self.execution_path()),
        }
    }

    pub open spec fn at(self, stage: VerifyStage) -> Self {
        VerificationView { stage, ..self }
    }

    /// Ends with a path that does not resolve.
    pub open spec fn unresolved(self, path: Seq<char>, detail: Seq<char>) -> VerifyStep {
        Progress::Done(Err(WorktreeErrorView::CanonicalizeExistingWorktree { path, detail }))
    }

    pub open spec fn after_path(self, path: Seq<char>) -> VerifyStep {
        match self.stage {
            VerifyStage::Root => match path_refusal(path, self.limits) {
                Some(error) => Progress::Done(Err(error)),
                None => Progress::Continue(
                    VerificationView { stage: VerifyStage::TopLevel, worktree_root: path, ..self },
                ),
            },
            VerifyStage::VerifiedRoot => if !same_place(path, self.worktree_root) {
                mismatch("Git resolved a different worktree root"@)
            } else {
                Progress::Continue(self.at(VerifyStage::SourceCommon))
            },
            VerifyStage::SourceCommonPath => Progress::Continue(
                VerificationView {
                    stage: VerifyStage::WorktreeCommon,
                    source_common: path,
                    ..self
                },
            ),
            VerifyStage::WorktreeCommonPath => if !same_place(self.source_common, path) {
                mismatch("requested path belongs to a different Git repository"@)
            } else {
                Progress::Continue(self.at(VerifyStage::Commit))
            },
            _ => Progress::Done(
                Ok(
                    CreatedWorktreeView {
                        repository_root: self.base.repository_root,
                        worktree_root: self.worktree_root,
                        execution_root: path,
                        branch: self.branch,
                        base_commit: self.base.base_commit,
                    },
                ),
            ),
        }
    }

    pub open spec fn after_unresolved(self, detail: Seq<char>) -> VerifyStep {
        match self.stage {
            VerifyStage::Root => self.unresolved(self.target, detail),
            VerifyStage::VerifiedRoot => self.unresolved(self.worktree_root, detail),
            VerifyStage::SourceCommonPath | VerifyStage::WorktreeCommonPath => Progress::Done(
                Err(WorktreeErrorView::CanonicalizeGitCommonDir { path: self.pending, detail }),
            ),
            _ => self.unresolved(self.execution_path(), detail),
        }
    }

    /// What the command of this stage is run for.
    pub open spec fn operation(self) -> GitOperation {
        match self.stage {
            VerifyStage::TopLevel => GitOperation::VerifyRoot,
            VerifyStage::SourceCommon => GitOperation::SourceCommonDir,
            VerifyStage::WorktreeCommon => GitOperation::WorktreeCommonDir,
            VerifyStage::Commit => GitOperation::VerifyBaseCommit,
            VerifyStage::Branch => GitOperation::VerifyBranch,
            _ => GitOperation::VerifyAncestry,
        }
    }

    pub open spec fn after_branch(self, found: Seq<char>) -> VerifyStep {
        if found != self.branch {
            mismatch("expected branch "@ + self.branch + ", found "@ + found + " at "@ + self.commit)
        } else if !self.require_head_at_base {
            Progress::Continue(self.at(VerifyStage::Ancestry))
        } else if self.commit != self.base.base_commit {
            mismatch(
                "expected newly created worktree at "@ + self.base.base_commit + ", found "@
                    + self.commit,
            )
        } else {
            Progress::Continue(self.at(VerifyStage::ExecutionRoot))
        }
    }

    pub open spec fn after_text(self, text: Seq<char>) -> VerifyStep {
        match self.stage {
            VerifyStage::TopLevel => Progress::Continue(
                VerificationView { stage: VerifyStage::VerifiedRoot, pending: text, ..self },
            ),
            VerifyStage::SourceCommon => Progress::Continue(
                VerificationView {
                    stage: VerifyStage::SourceCommonPath,
                    pending: path_joined(self.base.repository_root, text),
                    ..self
                },
            ),
            VerifyStage::WorktreeCommon => Progress::Continue(
                VerificationView {
                    stage: VerifyStage::WorktreeCommonPath,
                    pending: path_joined(self.worktree_root, text),
                    ..self
                },
            ),
            VerifyStage::Commit => Progress::Continue(
                VerificationView { stage: VerifyStage::Branch, commit: text, ..self },
            ),
            _ => self.after_branch(text),
        }
    }

    pub open spec fn after_ancestry(
        self,
        run: Result<GitOutputView, WorktreeErrorView>,
    ) -> VerifyStep {
        match run {
            Err(error) => Progress::Done(Err(error)),
            Ok(output) => if output.code == Some(0i32) {
                Progress::Continue(self.at(VerifyStage::ExecutionRoot))
            } else if output.code == Some(1i32) {
                mismatch(
                    "captured base "@ + self.base.base_commit
                        + " is not an ancestor of current HEAD "@ + self.commit,
                )
            } else {
                Progress::Done(
                    Err(
                        WorktreeErrorView::GitCommandFailed {
                            operation: GitOperation::VerifyAncestry,
                            code: output.code,
                        },
                    ),
                )
            },
        }
    }

    /// How the verification goes on with an answer to what it needs.
    pub open spec fn after(self, reply: ReplyView) -> VerifyStep {
        match reply {
            ReplyView::Canonical(Ok(path)) => self.after_path(path),
            ReplyView::Canonical(Err(detail)) => self.after_unresolved(detail),
            ReplyView::Git(run) => if self.stage is Ancestry {
                self.after_ancestry(run)
            } else {
                match run_text(run, self.operation(), self.limits) {
                    Err(error) => Progress::Done(Err(error)),
                    Ok(text) => self.after_text(text),
                }
            },
            ReplyView::Exists(_) => Progress::Continue(self),
        }
    }
}

fn mismatched(detail: String) -> (r: Progress<WorktreeVerification, CreatedWorktree, WorktreeError>)
    ensures
        progress_view(r) == mismatch(detail@),
{
    Progress::Done(Err(WorktreeError::ExistingWorktreeMismatch { detail }))
}

/// Starts to find out whether a worktree is the one that was created for a branch.
/// A new one has to stand at the base; an older one may have come on from it.
pub fn verify_existing_worktree(
    base: WorktreeBaseSnapshot,
    branch: &str,
    target: &str,
    require_head_at_base: bool,
    limits: RuntimeLimits,
) -> (r: WorktreeVerification)
    ensures
        r@ == VerificationView::begun(base@, branch@, target@, require_head_at_base, limits),
{
    let none = String::new();
    assert(none@ =~= Seq::<char>::empty());
    WorktreeVerification {
        stage: VerifyStage::Root,
        base,
        branch: branch.to_owned(),
        target: target.to_owned(),
        require_head_at_base,
        worktree_root: none.clone(),
        pending: none.clone(),
        source_common: none.clone(),
        commit: none,
        limits,
    }
}

impl WorktreeVerification {
    /// What the verification needs to know next.
    pub fn need(&self) -> (r: WorktreeNeed)
        ensures
            r@ == self@.need(),
    {
        let output: usize = self.limits.max_git_command_output_bytes;
        let root = self.worktree_root.as_str();
        match self.stage {
            VerifyStage::Root => WorktreeNeed::Canonicalize(self.target.clone()),
            VerifyStage::TopLevel => run_git(
                root,
                args2("rev-parse", "--show-toplevel"),
                output,
            ),
            VerifyStage::VerifiedRoot
            | VerifyStage::SourceCommonPath
            | VerifyStage::WorktreeCommonPath => WorktreeNeed::Canonicalize(self.pending.clone()),
            VerifyStage::SourceCommon => run_git(
                self.base.repository_root.as_str(),
                args2("rev-parse", "--git-common-dir"),
                output,
            ),
            VerifyStage::WorktreeCommon => run_git(
                root,
                args2("rev-parse", "--git-common-dir"),
                output,
            ),
            VerifyStage::Commit => run_git(
                root,
                args3("rev-parse", "--verify", "HEAD^{commit}"),
                output,
            ),
            VerifyStage::Branch => run_git(
                root,
                args4("symbolic-ref", "--quiet", "--short", "HEAD"),
                output,
            ),
            VerifyStage::Ancestry => run_git(
                root,
                args4("merge-base", "--is-ancestor", self.base.base_commit.as_str(), "HEAD"),
                output,
            ),
            VerifyStage::ExecutionRoot => WorktreeNeed::Canonicalize(
                path_join(root, self.base.project_relative_path.as_str()),
            ),
        }
    }

    fn on_path(self, path: String) -> (r: Progress<
        WorktreeVerification,
        CreatedWorktree,
        WorktreeError,
    >)
        ensures
            progress_view(r) == self@.after_path(path@),
    {
        let mut next = self;
        match next.stage {
            VerifyStage::Root => {
                match validate_path_bytes(path.as_str(), next.limits) {
                    Err(error) => {
                        return Progress::Done(Err(error));
                    },
                    Ok(_) => {},
                }
                next.stage = VerifyStage::TopLevel;
                next.worktree_root = path;
                Progress::Continue(next)
            },
            VerifyStage::VerifiedRoot => {
                if !same_path(path.as_str(), next.worktree_root.as_str()) {
                    return mismatched("Git resolved a different worktree root".to_owned());
                }
                next.stage = VerifyStage::SourceCommon;
                Progress::Continue(next)
            },
            VerifyStage::SourceCommonPath => {
                next.stage = VerifyStage::WorktreeCommon;
                next.source_common = path;
                Progress::Continue(next)
            },
            VerifyStage::WorktreeCommonPath => {
                if !same_path(next.source_common.as_str(), path.as_str()) {
                    return mismatched(
                        "requested path belongs to a different Git repository".to_owned(),
                    );
                }
                next.stage = VerifyStage::Commit;
                Progress::Continue(next)
            },
            _ => Progress::Done(
                Ok(
                    CreatedWorktree {
                        repository_root: next.base.repository_root,
                        worktree_root: next.worktree_root,
                        execution_root: path,
                        branch: next.branch,
                        base_commit: next.base.base_commit,
                    },
                ),
            ),
        }
    }

    fn on_unresolved(self, detail: String) -> (r: Progress<
        WorktreeVerification,
        CreatedWorktree,
        WorktreeError,
    >)
        ensures
            progress_view(r) == self@.after_unresolved(detail@),
    {
        match self.stage {
            VerifyStage::SourceCommonPath | VerifyStage::WorktreeCommonPath => Progress::Done(
                Err(WorktreeError::CanonicalizeGitCommonDir { path: self.pending, detail }),
            ),
            VerifyStage::Root => Progress::Done(
                Err(WorktreeError::CanonicalizeExistingWorktree { path: self.target, detail }),
            ),
            VerifyStage::VerifiedRoot => Progress::Done(
                Err(WorktreeError::CanonicalizeExistingWorktree { path: self.worktree_root, detail }),
            ),
            _ => {
                let path = path_join(
                    self.worktree_root.as_str(),
                    self.base.project_relative_path.as_str(),
                );
                Progress::Done(Err(WorktreeError::CanonicalizeExistingWorktree { path, detail }))
            },
        }
    }

    fn on_branch(self, found: String) -> (r: Progress<
        WorktreeVerification,
        CreatedWorktree,
        WorktreeError,
    >)
        ensures
            progress_view(r) == self@.after_branch(found@),
    {
        let mut next = self;
        if !same_text(found.as_str(), next.branch.as_str()) {
            let mut detail = "expected branch ".to_owned();
            detail.append(next.branch.as_str());
            detail.append(", found ");
            detail.append(found.as_str());
            detail.append(" at ");
            detail.append(next.commit.as_str());
            return mismatched(detail);
        }
        if !next.require_head_at_base {
            next.stage = VerifyStage::Ancestry;
            return Progress::Continue(next);
        }
        if !same_text(next.commit.as_str(), next.base.base_commit.as_str()) {
            let mut detail = "expected newly created worktree at ".to_owned();
            detail.append(next.base.base_commit.as_str());
            detail.append(", found ");
            detail.append(next.commit.as_str());
            return mismatched(detail);
        }
        next.stage = VerifyStage::ExecutionRoot;
        Progress::Continue(next)
    }

    fn on_text(self, text: String) -> (r: Progress<
        WorktreeVerification,
        CreatedWorktree,
        WorktreeError,
    >)
        ensures
            progress_view(r) == self@.after_text(text@),
    {
        let mut next = self;
        match next.stage {
            VerifyStage::TopLevel => {
                next.stage = VerifyStage::VerifiedRoot;
                next.pending = text;
                Progress::Continue(next)
            },
            VerifyStage::SourceCommon => {
                next.stage = VerifyStage::SourceCommonPath;
                next.pending = path_join(next.base.repository_root.as_str(), text.as_str());
                Progress::Continue(next)
            },
            VerifyStage::WorktreeCommon => {
                next.stage = VerifyStage::WorktreeCommonPath;
                next.pending = path_join(next.worktree_root.as_str(), text.as_str());
                Progress::Continue(next)
            },
            VerifyStage::Commit => {
                next.stage = VerifyStage::Branch;
                next.commit = text;
                Progress::Continue(next)
            },
            _ => next.on_branch(text),
        }
    }

    fn on_ancestry(self, run: Result<GitOutput, GitFailure>) -> (r: Progress<
        WorktreeVerification,
        CreatedWorktree,
        WorktreeError,
    >)
        ensures
            progress_view(r) == self@.after_ancestry(git_run(run)),
    {
        let output = match run {
            Err(failure) => {
                return Progress::Done(Err(failure.error()));
            },
            Ok(output) => output,
        };
        match output.code {
            Some(0) => {
                let mut next = self;
                next.stage = VerifyStage::ExecutionRoot;
                Progress::Continue(next)
            },
            Some(1) => {
                let mut detail = "captured base ".to_owned();
                detail.append(self.base.base_commit.as_str());
                detail.append(" is not an ancestor of current HEAD ");
                detail.append(self.commit.as_str());
                mismatched(detail)
            },
            code => Progress::Done(
                Err(
                    WorktreeError::GitCommandFailed {
                        operation: GitOperation::VerifyAncestry,
                        code,
                    },
                ),
            ),
        }
    }

    fn operation(&self) -> (r: GitOperation)
        ensures
            r == self@.operation(),
    {
        match self.stage {
            VerifyStage::TopLevel => GitOperation::VerifyRoot,
            VerifyStage::SourceCommon => GitOperation::SourceCommonDir,
            VerifyStage::WorktreeCommon => GitOperation::WorktreeCommonDir,
            VerifyStage::Commit => GitOperation::VerifyBaseCommit,
            VerifyStage::Branch => GitOperation::VerifyBranch,
            _ => GitOperation::VerifyAncestry,
        }
    }

    /// Goes on with an answer to what the verification needs.
    pub fn advance(self, reply: WorktreeReply) -> (r: Progress<
        WorktreeVerification,
        CreatedWorktree,
        WorktreeError,
    >)
        requires
            reply@.answers(self@.need()),
        ensures
            progress_view(r) == self@.after(reply@),
    {
        match reply {
            WorktreeReply::Canonical(Ok(path)) => self.on_path(path),
            WorktreeReply::Canonical(Err(detail)) => self.on_unresolved(detail),
            WorktreeReply::Git(run) => match self.stage {
                VerifyStage::Ancestry => self.on_ancestry(run),
                _ => {
                    let operation = self.operation();
                    match git_text(run, operation, self.limits) {
                        Err(error) => Progress::Done(Err(error)),
                        Ok(text) => self.on_text(text),
                    }
                },
            },
            WorktreeReply::Exists(_) => Progress::Continue(self),
        }
    }
}

} // verus!
