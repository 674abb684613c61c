//! What can go wrong with the journal of worktrees, and how it is told.
use vstd::prelude::*;
use vstd::string::*;

use crate::ids::{id_digits, id_text, WorktreeId};
use crate::numbers::{decimal, decimal_text};

verus! {

#[allow(inconsistent_fields)]
#[derive(Debug, PartialEq, Eq)]
pub enum WorktreeRegistryError {
    EntryLimit { attempted: usize, limit: usize },
    ByteLimit { attempted: usize, limit: usize },
    UnsupportedSchema { actual: u32, supported: u32 },
    DuplicateRecoveryId { id: WorktreeId },
    DuplicateRequestedPath { path: String },
    DuplicateBranch { repository: String, branch: String },
    RecoveryConflict { existing_id: WorktreeId },
    UnknownRecovery { id: WorktreeId },
    IndexInconsistent { id: WorktreeId },
    CreatedIdentityMismatch { id: WorktreeId },
    CannotDiscardCreated { id: WorktreeId },
    RecoveryStillPresent { id: WorktreeId },
    GitRefTooLong { actual: usize, limit: usize },
    PathTooLong { path: String, actual: usize, limit: usize },
    CreateDirectory { path: String, detail: String },
    Read { path: String, detail: String },
    Decode { detail: String },
    Encode { detail: String },
    OpenAtomic { path: String, detail: String },
    Write { path: String, detail: String },
    Commit { path: String, detail: String },
    QuarantineFailed { path: String, cause: String, detail: String },
}

/// Model of a [`WorktreeRegistryError`].
#[allow(inconsistent_fields)]
pub enum RegistryErrorView {
    EntryLimit { attempted: usize, limit: usize },
    ByteLimit { attempted: usize, limit: usize },
    UnsupportedSchema { actual: u32, supported: u32 },
    DuplicateRecoveryId { id: WorktreeId },
    DuplicateRequestedPath { path: Seq<char> },
    DuplicateBranch { repository: Seq<char>, branch: Seq<char> },
    RecoveryConflict { existing_id: WorktreeId },
    UnknownRecovery { id: WorktreeId },
    IndexInconsistent { id: WorktreeId },
    CreatedIdentityMismatch { id: WorktreeId },
    CannotDiscardCreated { id: WorktreeId },
    RecoveryStillPresent { id: WorktreeId },
    GitRefTooLong { actual: usize, limit: usize },
    PathTooLong { path: Seq<char>, actual: usize, limit: usize },
    CreateDirectory { path: Seq<char>, detail: Seq<char> },
    Read { path: Seq<char>, detail: Seq<char> },
    Decode { detail: Seq<char> },
    Encode { detail: Seq<char> },
    OpenAtomic { path: Seq<char>, detail: Seq<char> },
    Write { path: Seq<char>, detail: Seq<char> },
    Commit { path: Seq<char>, detail: Seq<char> },
    QuarantineFailed { path: Seq<char>, cause: Seq<char>, detail: Seq<char> },
}

impl View for WorktreeRegistryError {
    type V = RegistryErrorView;

    open spec fn view(&self) -> RegistryErrorView {
        match *self {
            WorktreeRegistryError::EntryLimit { attempted, limit } => {
                RegistryErrorView::EntryLimit { attempted, limit }
            },
            WorktreeRegistryError::ByteLimit { attempted, limit } => RegistryErrorView::ByteLimit {
                attempted,
                limit,
            },
            WorktreeRegistryError::UnsupportedSchema { actual, supported } => {
                RegistryErrorView::UnsupportedSchema { actual, supported }
            },
            WorktreeRegistryError::DuplicateRecoveryId { id } => {
                RegistryErrorView::DuplicateRecoveryId { id }
            },
            WorktreeRegistryError::DuplicateRequestedPath { path } => {
                RegistryErrorView::DuplicateRequestedPath { path: path@ }
            },
            WorktreeRegistryError::DuplicateBranch { repository, branch } => {
                RegistryErrorView::DuplicateBranch { repository: repository@, branch: branch@ }
            },
            WorktreeRegistryError::RecoveryConflict { existing_id } => {
                RegistryErrorView::RecoveryConflict { existing_id }
            },
            WorktreeRegistryError::UnknownRecovery { id } => RegistryErrorView::UnknownRecovery {
                id,
            },
            WorktreeRegistryError::IndexInconsistent { id } => {
                RegistryErrorView::IndexInconsistent { id }
            },
            WorktreeRegistryError::CreatedIdentityMismatch { id } => {
                RegistryErrorView::CreatedIdentityMismatch { id }
            },
            WorktreeRegistryError::CannotDiscardCreated { id } => {
                RegistryErrorView::CannotDiscardCreated { id }
            },
            WorktreeRegistryError::RecoveryStillPresent { id } => {
                RegistryErrorView::RecoveryStillPresent { id }
            },
            WorktreeRegistryError::GitRefTooLong { actual, limit } => {
                RegistryErrorView::GitRefTooLong { actual, limit }
            },
            WorktreeRegistryError::PathTooLong { path, actual, limit } => {
                RegistryErrorView::PathTooLong { path: path@, actual, limit }
            },
            WorktreeRegistryError::CreateDirectory { path, detail } => {
                RegistryErrorView::CreateDirectory { path: path@, detail: detail@ }
            },
            WorktreeRegistryError::Read { path, detail } => RegistryErrorView::Read {
                path: path@,
                detail: detail@,
            },
            WorktreeRegistryError::Decode { detail } => RegistryErrorView::Decode {
                detail: detail@,
            },
            WorktreeRegistryError::Encode { detail } => RegistryErrorView::Encode {
                detail: detail@,
            },
            WorktreeRegistryError::OpenAtomic { path, detail } => RegistryErrorView::OpenAtomic {
                path: path@,
                detail: detail@,
            },
            WorktreeRegistryError::Write { path, detail } => RegistryErrorView::Write {
                path: path@,
                detail: detail@,
            },
            WorktreeRegistryError::Commit { path, detail } => RegistryErrorView::Commit {
                path: path@,
                detail: detail@,
            },
            WorktreeRegistryError::QuarantineFailed { path, cause, detail } => {
                RegistryErrorView::QuarantineFailed { path: path@, cause: cause@, detail: detail@ }
            },
        }
    }
}

impl RegistryErrorView {
    /// Whether the journal itself is at fault, so that a new one may take its
    /// place.
    pub open spec fn corrupt(self) -> bool {
        self is EntryLimit || self is ByteLimit || self is UnsupportedSchema
            || self is DuplicateRecoveryId || self is DuplicateRequestedPath
            || self is DuplicateBranch || self is CreatedIdentityMismatch || self is GitRefTooLong
            || self is PathTooLong || self is Decode
    }

    /// What is told of an error.
    pub open spec fn message(self) -> Seq<char> {
        match self {
            RegistryErrorView::EntryLimit { attempted, limit } => {
                "worktree recovery registry contains "@ + decimal(attempted as nat)
                    + " entries, exceeding limit "@ + decimal(limit as nat)
            },
            RegistryErrorView::ByteLimit { attempted, limit } => {
                "worktree recovery registry uses "@ + decimal(attempted as nat)
                    + " bytes, exceeding limit "@ + decimal(limit as nat)
            },
            RegistryErrorView::UnsupportedSchema { actual, supported } => {
                "worktree recovery registry uses schema "@ + decimal(actual as nat)
                    + "; supported schema is "@ + decimal(supported as nat)
            },
            RegistryErrorView::DuplicateRecoveryId { id } => {
                "worktree recovery registry contains duplicate id "@ + id_digits(id.value)
            },
            RegistryErrorView::DuplicateRequestedPath { path } => {
                "worktree recovery registry contains duplicate requested path "@ + path
            },
            RegistryErrorView::DuplicateBranch { repository, branch } => {
                "worktree recovery registry contains duplicate branch "@ + branch + " in "@
                    + repository
            },
            RegistryErrorView::RecoveryConflict { existing_id } => {
                "a worktree recovery transaction already owns this branch/path as "@
                    + id_digits(existing_id.value)
            },
            RegistryErrorView::UnknownRecovery { id } => {
                "worktree recovery transaction "@ + id_digits(id.value) + " is unknown"@
            },
            RegistryErrorView::IndexInconsistent { id } => {
                "worktree recovery registry index is inconsistent for "@ + id_digits(id.value)
            },
            RegistryErrorView::CreatedIdentityMismatch { id } => {
                "created worktree identity does not match recovery plan "@ + id_digits(id.value)
            },
            RegistryErrorView::CannotDiscardCreated { id } => {
                "created worktree recovery "@ + id_digits(id.value)
                    + " cannot be discarded as an unmutated plan"@
            },
            RegistryErrorView::RecoveryStillPresent { id } => {
                "worktree recovery "@ + id_digits(id.value)
                    + " still has Git state and cannot be retired"@
            },
            RegistryErrorView::GitRefTooLong { actual, limit } => {
                "Git ref or object identity is "@ + decimal(actual as nat) + " bytes; limit is "@
                    + decimal(limit as nat)
            },
            RegistryErrorView::PathTooLong { path, actual, limit } => {
                "path "@ + path + " is "@ + decimal(actual as nat)
                    + " bytes; worktree path limit is "@ + decimal(limit as nat)
            },
            RegistryErrorView::CreateDirectory { path, detail } => {
                "could not create worktree-registry directory "@ + path + ": "@ + detail
            },
            RegistryErrorView::Read { path, detail } => {
                "could not read worktree recovery registry "@ + path + ": "@ + detail
            },
            RegistryErrorView::Decode { detail } => {
                "could not decode worktree recovery registry: "@ + detail
            },
            RegistryErrorView::Encode { detail } => {
                "could not encode worktree recovery registry: "@ + detail
            },
            RegistryErrorView::OpenAtomic { path, detail } => {
                "could not open atomic worktree recovery registry "@ + path + ": "@ + detail
            },
            RegistryErrorView::Write { path, detail } => {
                "could not write worktree recovery registry "@ + path + ": "@ + detail
            },
            RegistryErrorView::Commit { path, detail } => {
                "could not commit worktree recovery registry "@ + path + ": "@ + detail
            },
            RegistryErrorView::QuarantineFailed { path, cause, detail } => {
                "invalid worktree recovery registry "@ + path + " could not be quarantined: "@
                    + cause + "; "@ + detail
            },
        }
    }
}

impl WorktreeRegistryError {
    /// Whether the journal itself is at fault, so that a new one may take its
    /// place.
    pub fn is_recoverable_corruption(&self) -> (r: bool)
        ensures
            r == self@.corrupt(),
    {
        match self {
            WorktreeRegistryError::EntryLimit { .. }
            | WorktreeRegistryError::ByteLimit { .. }
            | WorktreeRegistryError::UnsupportedSchema { .. }
            | WorktreeRegistryError::DuplicateRecoveryId { .. }
            | WorktreeRegistryError::DuplicateRequestedPath { .. }
            | WorktreeRegistryError::DuplicateBranch { .. }
            | WorktreeRegistryError::CreatedIdentityMismatch { .. }
            | WorktreeRegistryError::GitRefTooLong { .. }
            | WorktreeRegistryError::PathTooLong { .. }
            | WorktreeRegistryError::Decode { .. } => true,
            _ => false,
        }
    }

    /// What is told of the error.
    pub fn message(&self) -> (r: String)
        ensures
            r@ == self@.message(),
    {
        match self {
            WorktreeRegistryError::EntryLimit { attempted, limit } => {
                let mut r = "worktree recovery registry contains ".to_owned();
                r.append(decimal_text(*attempted as u64).as_str());
                r.append(" entries, exceeding limit ");
                r.append(decimal_text(*limit as u64).as_str());
                r
            },
            WorktreeRegistryError::ByteLimit { attempted, limit } => {
                let mut r = "worktree recovery registry uses ".to_owned();
                r.append(decimal_text(*attempted as u64).as_str());
                r.append(" bytes, exceeding limit ");
                r.append(decimal_text(*limit as u64).as_str());
                r
            },
            WorktreeRegistryError::UnsupportedSchema { actual, supported } => {
                let mut r = "worktree recovery registry uses schema ".to_owned();
                r.append(decimal_text(*actual as u64).as_str());
                r.append("; supported schema is ");
                r.append(decimal_text(*supported as u64).as_str());
                r
            },
            WorktreeRegistryError::DuplicateRecoveryId { id } => {
                let mut r = "worktree recovery registry contains duplicate id ".to_owned();
                r.append(id_text(id.value).as_str());
                r
            },
            WorktreeRegistryError::DuplicateRequestedPath { path } => {
                let mut r = "worktree recovery registry contains duplicate requested path ".to_owned();
                r.append(path.as_str());
                r
            },
            WorktreeRegistryError::DuplicateBranch { repository, branch } => {
                let mut r = "worktree recovery registry contains duplicate branch ".to_owned();
                r.append(branch.as_str());
                r.append(" in ");
                r.append(repository.as_str());
                r
            },
            WorktreeRegistryError::RecoveryConflict { existing_id } => {
                let mut r = "a worktree recovery transaction already owns this branch/path as ".to_owned();
                r.append(id_text(existing_id.value).as_str());
                r
            },
            WorktreeRegistryError::UnknownRecovery { id } => {
                let mut r = "worktree recovery transaction ".to_owned();
                r.append(id_text(id.value).as_str());
                r.append(" is unknown");
                r
            },
            WorktreeRegistryError::IndexInconsistent { id } => {
                let mut r = "worktree recovery registry index is inconsistent for ".to_owned();
                r.append(id_text(id.value).as_str());
                r
            },
            WorktreeRegistryError::CreatedIdentityMismatch { id } => {
                let mut r = "created worktree identity does not match recovery plan ".to_owned();
                r.append(id_text(id.value).as_str());
                r
            },
            WorktreeRegistryError::CannotDiscardCreated { id } => {
                let mut r = "created worktree recovery ".to_owned();
                r.append(id_text(id.value).as_str());
                r.append(" cannot be discarded as an unmutated plan");
                r
            },
            WorktreeRegistryError::RecoveryStillPresent { id } => {
                let mut r = "worktree recovery ".to_owned();
                r.append(id_text(id.value).as_str());
                r.append(" still has Git state and cannot be retired");
                r
            },
            WorktreeRegistryError::GitRefTooLong { actual, limit } => {
                let mut r = "Git ref or object identity is ".to_owned();
                r.append(decimal_text(*actual as u64).as_str());
                r.append(" bytes; limit is ");
                r.append(decimal_text(*limit as u64).as_str());
                r
            },
            WorktreeRegistryError::PathTooLong { path, actual, limit } => {
                let mut r = "path ".to_owned();
                r.append(path.as_str());
                r.append(" is ");
                r.append(decimal_text(*actual as u64).as_str());
                r.append(" bytes; worktree path limit is ");
                r.append(decimal_text(*limit as u64).as_str());
                r
            },
            WorktreeRegistryError::CreateDirectory { path, detail } => {
                let mut r = "could not create worktree-registry directory ".to_owned();
                r.append(path.as_str());
                r.append(": ");
                r.append(detail.as_str());
                r
            },
            WorktreeRegistryError::Read { path, detail } => {
                let mut r = "could not read worktree recovery registry ".to_owned();
                r.append(path.as_str());
                r.append(": ");
                r.append(detail.as_str());
                r
            },
            WorktreeRegistryError::Decode { detail } => {
                let mut r = "could not decode worktree recovery registry: ".to_owned();
                r.append(detail.as_str());
                r
            },
            WorktreeRegistryError::Encode { detail } => {
                let mut r = "could not encode worktree recovery registry: ".to_owned();
                r.append(detail.as_str());
                r
            },
            WorktreeRegistryError::OpenAtomic { path, detail } => {
                let mut r = "could not open atomic worktree recovery registry ".to_owned();
                r.append(path.as_str());
                r.append(": ");
                r.append(detail.as_str());
                r
            },
            WorktreeRegistryError::Write { path, detail } => {
                let mut r = "could not write worktree recovery registry ".to_owned();
                r.append(path.as_str());
                r.append(": ");
                r.append(detail.as_str());
                r
            },
            WorktreeRegistryError::Commit { path, detail } => {
                let mut r = "could not commit worktree recovery registry ".to_owned();
                r.append(path.as_str());
                r.append(": ");
                r.append(detail.as_str());
                r
            },
            WorktreeRegistryError::QuarantineFailed { path, cause, detail } => {
                let mut r = "invalid worktree recovery registry ".to_owned();
                r.append(path.as_str());
                r.append(" could not be quarantined: ");
                r.append(cause.as_str());
                r.append("; ");
                r.append(detail.as_str());
                r
            },
        }
    }
}

} // verus!
