//! What is shown of compaction, retries and extension errors of a run.
use vstd::prelude::*;
use vstd::string::*;

use crate::text::{copy_optional, optional_view};

verus! {

#[derive(Debug, PartialEq, Eq)]
pub struct RunCompactionSnapshot {
    pub reason: String,
    pub reason_truncated: bool,
    pub finished: bool,
    pub aborted: bool,
    pub will_retry: bool,
    pub error_message: Option<String>,
    pub error_truncated: bool,
}

/// Model of a [`RunCompactionSnapshot`].
pub struct RunCompactionView {
    pub reason: Seq<char>,
    pub reason_truncated: bool,
    pub finished: bool,
    pub aborted: bool,
    pub will_retry: bool,
    pub error_message: Option<Seq<char>>,
    pub error_truncated: bool,
}

impl View for RunCompactionSnapshot {
    type V = RunCompactionView;

    open spec fn view(&self) -> RunCompactionView {
        RunCompactionView {
            reason: self.reason@,
            reason_truncated: self.reason_truncated,
            finished: self.finished,
            aborted: self.aborted,
            will_retry: self.will_retry,
            error_message: optional_view(self.error_message),
            error_truncated: self.error_truncated,
        }
    }
}

impl Clone for RunCompactionSnapshot {
    fn clone(&self) -> (r: Self)
        ensures
            r@ == self@,
    {
        RunCompactionSnapshot {
            reason: self.reason.clone(),
            reason_truncated: self.reason_truncated,
            finished: self.finished,
            aborted: self.aborted,
            will_retry: self.will_retry,
            error_message: copy_optional(&self.error_message),
            error_truncated: self.error_truncated,
        }
    }
}

#[derive(Debug, PartialEq, Eq)]
pub struct RunRetrySnapshot {
    pub attempt: usize,
    pub max_attempts: usize,
    pub delay_ms: u64,
    pub error_message: String,
    pub error_truncated: bool,
    pub waiting: bool,
    pub finished: bool,
    pub success: Option<bool>,
    pub final_error: Option<String>,
    pub final_error_truncated: bool,
}

/// Model of a [`RunRetrySnapshot`].
pub struct RunRetryView {
    pub attempt: usize,
    pub max_attempts: usize,
    pub delay_ms: u64,
    pub error_message: Seq<char>,
    pub error_truncated: bool,
    pub waiting: bool,
    pub finished: bool,
    pub success: Option<bool>,
    pub final_error: Option<Seq<char>>,
    pub final_error_truncated: bool,
}

impl View for RunRetrySnapshot {
    type V = RunRetryView;

    open spec fn view(&self) -> RunRetryView {
        RunRetryView {
            attempt: self.attempt,
            max_attempts: self.max_attempts,
            delay_ms: self.delay_ms,
            error_message: self.error_message@,
            error_truncated: self.error_truncated,
            waiting: self.waiting,
            finished: self.finished,
            success: self.success,
            final_error: optional_view(self.final_error),
            final_error_truncated: self.final_error_truncated,
        }
    }
}

impl Clone for RunRetrySnapshot {
    fn clone(&self) -> (r: Self)
        ensures
            r@ == self@,
    {
        RunRetrySnapshot {
            attempt: self.attempt,
            max_attempts: self.max_attempts,
            delay_ms: self.delay_ms,
            error_message: self.error_message.clone(),
            error_truncated: self.error_truncated,
            waiting: self.waiting,
            finished: self.finished,
            success: self.success,
            final_error: copy_optional(&self.final_error),
            final_error_truncated: self.final_error_truncated,
        }
    }
}

#[derive(Debug, PartialEq, Eq)]
pub struct RunSummarizationRetrySnapshot {
    pub attempt: usize,
    pub max_attempts: usize,
    pub delay_ms: u64,
    pub error_message: String,
    pub error_truncated: bool,
    pub source: Option<String>,
    pub reason: Option<String>,
    pub finished: bool,
}

/// Model of a [`RunSummarizationRetrySnapshot`].
pub struct RunSummarizationRetryView {
    pub attempt: usize,
    pub max_attempts: usize,
    pub delay_ms: u64,
    pub error_message: Seq<char>,
    pub error_truncated: bool,
    pub source: Option<Seq<char>>,
    pub reason: Option<Seq<char>>,
    pub finished: bool,
}

impl View for RunSummarizationRetrySnapshot {
    type V = RunSummarizationRetryView;

    open spec fn view(&self) -> RunSummarizationRetryView {
        RunSummarizationRetryView {
            attempt: self.attempt,
            max_attempts: self.max_attempts,
            delay_ms: self.delay_ms,
            error_message: self.error_message@,
            error_truncated: self.error_truncated,
            source: optional_view(self.source),
            reason: optional_view(self.reason),
            finished: self.finished,
        }
    }
}

impl Clone for RunSummarizationRetrySnapshot {
    fn clone(&self) -> (r: Self)
        ensures
            r@ == self@,
    {
        RunSummarizationRetrySnapshot {
            attempt: self.attempt,
            max_attempts: self.max_attempts,
            delay_ms: self.delay_ms,
            error_message: self.error_message.clone(),
            error_truncated: self.error_truncated,
            source: copy_optional(&self.source),
            reason: copy_optional(&self.reason),
            finished: self.finished,
        }
    }
}

#[derive(Debug, PartialEq, Eq)]
pub struct RunExtensionErrorSnapshot {
    pub extension_path: String,
    pub event: String,
    pub error: String,
    pub detail_truncated: bool,
}

/// Model of a [`RunExtensionErrorSnapshot`].
pub struct RunExtensionErrorView {
    pub extension_path: Seq<char>,
    pub event: Seq<char>,
    pub error: Seq<char>,
    pub detail_truncated: bool,
}

impl View for RunExtensionErrorSnapshot {
    type V = RunExtensionErrorView;

    open spec fn view(&self) -> RunExtensionErrorView {
        RunExtensionErrorView {
            extension_path: self.extension_path@,
            event: self.event@,
            error: self.error@,
            detail_truncated: self.detail_truncated,
        }
    }
}

impl Clone for RunExtensionErrorSnapshot {
    fn clone(&self) -> (r: Self)
        ensures
            r@ == self@,
    {
        RunExtensionErrorSnapshot {
            extension_path: self.extension_path.clone(),
            event: self.event.clone(),
            error: self.error.clone(),
            detail_truncated: self.detail_truncated,
        }
    }
}

} // verus!
