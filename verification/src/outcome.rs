//! Failure taxonomy and the outcomes a fetch attempt or task can produce.

use vstd::prelude::*;
use crate::model::Chapter;
use crate::model::ChapterView;

verus! {

/// Mathematical value of a [`FailureCause`].
pub enum FailureCauseView {
    Transport(Seq<char>),
    Status(int),
    Parse(Seq<char>),
}

/// Why one chapter's acquisition failed.
#[derive(Debug)]
pub enum FailureCause {
    /// A network-level failure; the transport's own description is kept so a
    /// caller can see the concrete error, not a generic message.
    Transport(String),
    /// The source answered with a non-success status code.
    Status(u16),
    /// The fetched content lacked the expected structural markers. Retrying
    /// cannot help: the content itself is malformed.
    Parse(String),
}

impl View for FailureCause {
    type V = FailureCauseView;

    open spec fn view(&self) -> FailureCauseView {
        match self {
            FailureCause::Transport(d) => FailureCauseView::Transport(d@),
            FailureCause::Status(c) => FailureCauseView::Status(*c as int),
            FailureCause::Parse(d) => FailureCauseView::Parse(d@),
        }
    }
}

/// What the transport and the markup adapter report for one fetch attempt.
/// The adapter's extraction of a title and body from site markup happens
/// outside this crate; this crate only classifies its result.
pub enum AttemptResult {
    /// The fetch succeeded and the expected structural markers were found.
    Retrieved { title: String, body: String },
    /// The fetch succeeded but the structure was missing: terminal.
    Malformed { detail: String },
    /// The transport itself failed: transient, worth retrying.
    Transport { detail: String },
    /// A non-success status: transient, worth retrying.
    BadStatus { code: u16 },
}

/// Whether an attempt's failure is transient, so that a retry may help.
/// Only transport failures and non-success statuses qualify; a structural
/// failure in otherwise delivered content is never retried.
pub open spec fn retryable(a: AttemptResult) -> bool {
    match a {
        AttemptResult::Transport { .. } => true,
        AttemptResult::BadStatus { .. } => true,
        AttemptResult::Retrieved { .. } => false,
        AttemptResult::Malformed { .. } => false,
    }
}

/// The failure cause carried by a non-successful attempt.
pub open spec fn attempt_cause(a: AttemptResult) -> FailureCauseView {
    match a {
        AttemptResult::Transport { detail } => FailureCauseView::Transport(detail@),
        AttemptResult::BadStatus { code } => FailureCauseView::Status(code as int),
        AttemptResult::Malformed { detail } => FailureCauseView::Parse(detail@),
        AttemptResult::Retrieved { .. } => FailureCauseView::Parse(Seq::empty()),
    }
}

/// Mathematical value of a [`FetchOutcome`].
pub enum FetchOutcomeView {
    Success(ChapterView),
    RetryableFailure(FailureCauseView),
    TerminalFailure(FailureCauseView),
}

/// The result of one fetch attempt or, once retries are settled, of a whole
/// fetch task. Only `Success` and `TerminalFailure` are terminal; a
/// `RetryableFailure` is recovered locally by the retry policy and never
/// reaches the aggregator.
pub enum FetchOutcome {
    /// The chapter was fetched and normalized.
    Success(Chapter),
    /// A transient failure; attempts may remain.
    RetryableFailure(FailureCause),
    /// Retries were exhausted, or the content was malformed.
    TerminalFailure(FailureCause),
}

impl View for FetchOutcome {
    type V = FetchOutcomeView;

    open spec fn view(&self) -> FetchOutcomeView {
        match self {
            FetchOutcome::Success(c) => FetchOutcomeView::Success(c@),
            FetchOutcome::RetryableFailure(f) => FetchOutcomeView::RetryableFailure(f@),
            FetchOutcome::TerminalFailure(f) => FetchOutcomeView::TerminalFailure(f@),
        }
    }
}

impl FetchOutcome {
    /// Terminal outcomes are the only ones a task may deliver: retrying has
    /// either succeeded or been given up for good.
    pub open spec fn is_terminal(self) -> bool {
        !(self is RetryableFailure)
    }
}

} // verus!
