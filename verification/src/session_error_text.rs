//! What is told of the errors of the session files.
use vstd::prelude::*;
use vstd::string::*;

use crate::numbers::{decimal, decimal_text};
use crate::session_activation::SessionActivationError;
use crate::session_catalog::SessionCatalogError;
use crate::session_history::SessionHistoryError;
use crate::worktree_error::{debug_quoted, quote};

verus! {

impl SessionCatalogError {
    pub open spec fn text(self) -> Seq<char> {
        match self {
            SessionCatalogError::ProjectPath { detail } => {
                "project path could not be canonicalized: "@ + detail@
            },
            SessionCatalogError::HomeUnavailable => {
                "Pi home directory is unavailable in the resolved launch environment"@
            },
            SessionCatalogError::TildeWithoutHome { value } => {
                "Pi path setting "@ + debug_quoted(value@)
                    + " requires a home directory for ~ expansion"@
            },
            SessionCatalogError::SettingsTooLarge { path, actual, limit } => {
                "Pi settings file "@ + path@ + " is "@ + decimal(actual as nat)
                    + " bytes; catalog read limit is "@ + decimal(limit as nat)
            },
            SessionCatalogError::ReadSettings { path, detail } => {
                "failed to read Pi settings file "@ + path@ + ": "@ + detail@
            },
            SessionCatalogError::QueryTooLarge { actual, limit } => {
                "session catalog query is "@ + decimal(actual as nat) + " bytes; limit is "@
                    + decimal(limit as nat)
            },
            SessionCatalogError::CursorTooLarge { actual, limit } => {
                "session catalog cursor path is "@ + decimal(actual as nat) + " bytes; limit is "@
                    + decimal(limit as nat)
            },
            SessionCatalogError::InvalidCursorDigest => {
                "session catalog cursor digest is invalid"@
            },
            SessionCatalogError::CursorScopeMismatch => {
                "session catalog cursor belongs to another project, directory, or query"@
            },
            SessionCatalogError::CursorPositionMissing => {
                "session catalog cursor no longer identifies a candidate in this catalog"@
            },
            SessionCatalogError::CatalogChanged => {
                "session catalog changed while paging; restart the search from the newest page"@
            },
            SessionCatalogError::PageEntryTooLarge { actual, limit } => {
                "one session catalog entry is "@ + decimal(actual as nat)
                    + " bytes; page limit is "@ + decimal(limit as nat)
            },
            SessionCatalogError::ReadDirectory { path, detail } => {
                "failed to read session directory "@ + path@ + ": "@ + detail@
            },
            SessionCatalogError::InvalidProjectSession { path } => {
                "session file "@ + path@ + " is not a readable Pi session for this project"@
            },
            SessionCatalogError::UnterminatedSessionTail { path } => {
                "session file "@ + path@
                    + " does not end with an LF record delimiter; resume was refused because current Pi may corrupt the next append to an unterminated JSONL tail. The file was not modified"@
            },
        }
    }

    /// The error as a sentence.
    pub fn message(&self) -> (r: String)
        ensures
            r@ == self.text(),
    {
        match self {
            SessionCatalogError::ProjectPath { detail } => {
                let mut r = "project path could not be canonicalized: ".to_owned();
                r.append(detail.as_str());
                r
            },
            SessionCatalogError::HomeUnavailable => {
                "Pi home directory is unavailable in the resolved launch environment".to_owned()
            },
            SessionCatalogError::TildeWithoutHome { value } => {
                let mut r = "Pi path setting ".to_owned();
                r.append(quote(value.as_str()).as_str());
                r.append(" requires a home directory for ~ expansion");
                r
            },
            SessionCatalogError::SettingsTooLarge { path, actual, limit } => {
                let mut r = "Pi settings file ".to_owned();
                r.append(path.as_str());
                r.append(" is ");
                r.append(decimal_text(*actual as u64).as_str());
                r.append(" bytes; catalog read limit is ");
                r.append(decimal_text(*limit as u64).as_str());
                r
            },
            SessionCatalogError::ReadSettings { path, detail } => {
                let mut r = "failed to read Pi settings file ".to_owned();
                r.append(path.as_str());
                r.append(": ");
                r.append(detail.as_str());
                r
            },
            SessionCatalogError::QueryTooLarge { actual, limit } => {
                let mut r = "session catalog query is ".to_owned();
                r.append(decimal_text(*actual as u64).as_str());
                r.append(" bytes; limit is ");
                r.append(decimal_text(*limit as u64).as_str());
                r
            },
            SessionCatalogError::CursorTooLarge { actual, limit } => {
                let mut r = "session catalog cursor path is ".to_owned();
                r.append(decimal_text(*actual as u64).as_str());
                r.append(" bytes; limit is ");
                r.append(decimal_text(*limit as u64).as_str());
                r
            },
            SessionCatalogError::InvalidCursorDigest => {
                "session catalog cursor digest is invalid".to_owned()
            },
            SessionCatalogError::CursorScopeMismatch => {
                "session catalog cursor belongs to another project, directory, or query".to_owned()
            },
            SessionCatalogError::CursorPositionMissing => {
                "session catalog cursor no longer identifies a candidate in this catalog".to_owned()
            },
            SessionCatalogError::CatalogChanged => {
                "session catalog changed while paging; restart the search from the newest page".to_owned()
            },
            SessionCatalogError::PageEntryTooLarge { actual, limit } => {
                let mut r = "one session catalog entry is ".to_owned();
                r.append(decimal_text(*actual as u64).as_str());
                r.append(" bytes; page limit is ");
                r.append(decimal_text(*limit as u64).as_str());
                r
            },
            SessionCatalogError::ReadDirectory { path, detail } => {
                let mut r = "failed to read session directory ".to_owned();
                r.append(path.as_str());
                r.append(": ");
                r.append(detail.as_str());
                r
            },
            SessionCatalogError::InvalidProjectSession { path } => {
                let mut r = "session file ".to_owned();
                r.append(path.as_str());
                r.append(" is not a readable Pi session for this project");
                r
            },
            SessionCatalogError::UnterminatedSessionTail { path } => {
                let mut r = "session file ".to_owned();
                r.append(path.as_str());
                r.append(" does not end with an LF record delimiter; resume was refused because current Pi may corrupt the next append to an unterminated JSONL tail. The file was not modified");
                r
            },
        }
    }
}

impl SessionHistoryError {
    pub open spec fn text(self) -> Seq<char> {
        match self {
            SessionHistoryError::Open { path, detail } => {
                "failed to open Pi session file "@ + path@ + ": "@ + detail@
            },
            SessionHistoryError::Read { path, detail } => {
                "failed to read Pi session file "@ + path@ + ": "@ + detail@
            },
            SessionHistoryError::HeaderTooLarge { limit } => {
                "Pi session header exceeds "@ + decimal(limit as nat) + " bytes"@
            },
            SessionHistoryError::InvalidHeader => {
                "Pi session header is missing or malformed"@
            },
            SessionHistoryError::SessionMismatch { expected, actual } => {
                "Pi session id mismatch: expected "@ + expected@ + ", found "@ + actual@
            },
            SessionHistoryError::ProjectMismatch { expected, actual } => {
                "Pi session belongs to "@ + actual@ + ", not expected project "@ + expected@
            },
            SessionHistoryError::CursorSessionMismatch { expected } => {
                "history cursor does not belong to session "@ + expected@
            },
            SessionHistoryError::CursorEntryTooLong { actual, limit } => {
                "history cursor entry id is "@ + decimal(actual as nat) + " bytes; limit is "@
                    + decimal(limit as nat)
            },
            SessionHistoryError::CursorBeyondFile { offset, file_size } => {
                "history cursor offset "@ + decimal(offset as nat)
                    + " is beyond session file size "@ + decimal(file_size as nat)
            },
            SessionHistoryError::LineTooLarge { limit } => {
                "session JSONL line exceeds history line limit "@ + decimal(limit as nat)
                    + " bytes"@
            },
            SessionHistoryError::BrokenAncestry { entry_id } => {
                "active session ancestry is broken before entry "@ + entry_id@
            },
            SessionHistoryError::RepeatedEntry { entry_id } => {
                "active session ancestry repeats entry id "@ + entry_id@
            },
            SessionHistoryError::PageTooLarge { actual, limit } => {
                "encoded history page is "@ + decimal(actual as nat) + " bytes; limit is "@
                    + decimal(limit as nat)
            },
        }
    }

    /// The error as a sentence.
    pub fn message(&self) -> (r: String)
        ensures
            r@ == self.text(),
    {
        match self {
            SessionHistoryError::Open { path, detail } => {
                let mut r = "failed to open Pi session file ".to_owned();
                r.append(path.as_str());
                r.append(": ");
                r.append(detail.as_str());
                r
            },
            SessionHistoryError::Read { path, detail } => {
                let mut r = "failed to read Pi session file ".to_owned();
                r.append(path.as_str());
                r.append(": ");
                r.append(detail.as_str());
                r
            },
            SessionHistoryError::HeaderTooLarge { limit } => {
                let mut r = "Pi session header exceeds ".to_owned();
                r.append(decimal_text(*limit as u64).as_str());
                r.append(" bytes");
                r
            },
            SessionHistoryError::InvalidHeader => {
                "Pi session header is missing or malformed".to_owned()
            },
            SessionHistoryError::SessionMismatch { expected, actual } => {
                let mut r = "Pi session id mismatch: expected ".to_owned();
                r.append(expected.as_str());
                r.append(", found ");
                r.append(actual.as_str());
                r
            },
            SessionHistoryError::ProjectMismatch { expected, actual } => {
                let mut r = "Pi session belongs to ".to_owned();
                r.append(actual.as_str());
                r.append(", not expected project ");
                r.append(expected.as_str());
                r
            },
            SessionHistoryError::CursorSessionMismatch { expected } => {
                let mut r = "history cursor does not belong to session ".to_owned();
                r.append(expected.as_str());
                r
            },
            SessionHistoryError::CursorEntryTooLong { actual, limit } => {
                let mut r = "history cursor entry id is ".to_owned();
                r.append(decimal_text(*actual as u64).as_str());
                r.append(" bytes; limit is ");
                r.append(decimal_text(*limit as u64).as_str());
                r
            },
            SessionHistoryError::CursorBeyondFile { offset, file_size } => {
                let mut r = "history cursor offset ".to_owned();
                r.append(decimal_text(*offset as u64).as_str());
                r.append(" is beyond session file size ");
                r.append(decimal_text(*file_size as u64).as_str());
                r
            },
            SessionHistoryError::LineTooLarge { limit } => {
                let mut r = "session JSONL line exceeds history line limit ".to_owned();
                r.append(decimal_text(*limit as u64).as_str());
                r.append(" bytes");
                r
            },
            SessionHistoryError::BrokenAncestry { entry_id } => {
                let mut r = "active session ancestry is broken before entry ".to_owned();
                r.append(entry_id.as_str());
                r
            },
            SessionHistoryError::RepeatedEntry { entry_id } => {
                let mut r = "active session ancestry repeats entry id ".to_owned();
                r.append(entry_id.as_str());
                r
            },
            SessionHistoryError::PageTooLarge { actual, limit } => {
                let mut r = "encoded history page is ".to_owned();
                r.append(decimal_text(*actual as u64).as_str());
                r.append(" bytes; limit is ");
                r.append(decimal_text(*limit as u64).as_str());
                r
            },
        }
    }
}

impl SessionActivationError {
    pub open spec fn text(self) -> Seq<char> {
        match self {
            SessionActivationError::CanonicalizeCurrentRoot { path, detail } => {
                "failed to canonicalize current execution root "@ + path@ + ": "@ + detail@
            },
            SessionActivationError::CanonicalizeSessionRoot { path, detail } => {
                "failed to canonicalize session cwd "@ + path@ + ": "@ + detail@
            },
        }
    }

    /// The error as a sentence.
    pub fn message(&self) -> (r: String)
        ensures
            r@ == self.text(),
    {
        match self {
            SessionActivationError::CanonicalizeCurrentRoot { path, detail } => {
                let mut r = "failed to canonicalize current execution root ".to_owned();
                r.append(path.as_str());
                r.append(": ");
                r.append(detail.as_str());
                r
            },
            SessionActivationError::CanonicalizeSessionRoot { path, detail } => {
                let mut r = "failed to canonicalize session cwd ".to_owned();
                r.append(path.as_str());
                r.append(": ");
                r.append(detail.as_str());
                r
            },
        }
    }
}

} // verus!
