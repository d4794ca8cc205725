//! One chapter's fetch task and its retry policy.
//!
//! A fetch task owns one chapter reference and a fixed budget of attempts.
//! Each attempt's result is classified: a transient failure (transport error
//! or non-success status) consumes one attempt and is retried while attempts
//! remain; delivered-but-malformed content is terminal at once, because
//! retrying cannot repair it; and the last permitted attempt, when it also
//! fails, surfaces that attempt's own cause rather than a generic message.

use vstd::prelude::*;
use crate::content::rendered_page;
use crate::model::Chapter;
use crate::model::ChapterReference;
use crate::model::ChapterReferenceView;
use crate::model::ChapterView;
use crate::outcome::attempt_cause;
use crate::outcome::retryable;
use crate::outcome::AttemptResult;
use crate::outcome::FailureCause;
use crate::outcome::FetchOutcome;
use crate::outcome::FetchOutcomeView;

verus! {

/// The baseline attempt budget: five attempts per chapter.
pub const DEFAULT_RETRY_BUDGET: u32 = 5;

/// The normalized chapter that a successful fetch of `title` and `body` at
/// reference `r` must produce.
pub open spec fn spec_chapter(r: ChapterReferenceView, title: Seq<char>, body: Seq<char>) -> ChapterView {
    ChapterView {
        title: title,
        location: r.location,
        body: rendered_page(title, body),
        ordinal: r.ordinal,
    }
}

/// The terminal outcome a single decisive attempt settles on: a retrieved
/// chapter becomes a normalized success, anything else carries its own cause.
pub open spec fn spec_decide(r: ChapterReferenceView, a: AttemptResult) -> FetchOutcomeView {
    match a {
        AttemptResult::Retrieved { title, body } => FetchOutcomeView::Success(
            spec_chapter(r, title@, body@),
        ),
        _ => FetchOutcomeView::TerminalFailure(attempt_cause(a)),
    }
}

/// The terminal outcome of a whole task, given the results its successive
/// attempts would see: the first non-retryable attempt decides; if the first
/// `budget` attempts all fail transiently, the last one's cause is terminal.
pub open spec fn spec_task_outcome(
    r: ChapterReferenceView,
    attempts: Seq<AttemptResult>,
    budget: int,
) -> FetchOutcomeView
    recommends
        1 <= budget <= attempts.len(),
    decreases budget,
{
    if attempts.len() == 0 {
        FetchOutcomeView::TerminalFailure(crate::outcome::FailureCauseView::Parse(Seq::empty()))
    } else if !retryable(attempts[0]) || budget <= 1 {
        spec_decide(r, attempts[0])
    } else {
        spec_task_outcome(r, attempts.drop_first(), budget - 1)
    }
}

/// How many attempts the task consumes before it settles.
pub open spec fn spec_attempts_used(attempts: Seq<AttemptResult>, budget: int) -> int
    recommends
        1 <= budget <= attempts.len(),
    decreases budget,
{
    if attempts.len() == 0 {
        0
    } else if !retryable(attempts[0]) || budget <= 1 {
        1
    } else {
        1 + spec_attempts_used(attempts.drop_first(), budget - 1)
    }
}

/// A fetch task in flight: the reference it owns and how many attempts are
/// still permitted, the current one included.
pub struct FetchTask {
    pub reference: ChapterReference,
    pub remaining: u32,
}

/// What one classified attempt means for the task: try again, or settle.
pub enum FetchStep {
    /// The failure was transient and attempts remain.
    Retry(FetchTask),
    /// The task has settled on a terminal outcome.
    Done(FetchOutcome),
}

impl FetchTask {
    /// A task still has its current attempt permitted.
    pub open spec fn wf(self) -> bool {
        self.remaining >= 1
    }

    /// A fresh task for `reference` with `budget` permitted attempts.
    pub fn new(reference: ChapterReference, budget: u32) -> (t: FetchTask)
        requires
            budget >= 1,
        ensures
            t.reference == reference,
            t.remaining == budget,
            t.wf(),
    {
        FetchTask { reference, remaining: budget }
    }

    /// Consume one attempt's classified result.
    ///
    /// A retrieved chapter settles as a normalized success and malformed
    /// content settles as a parse failure, both whatever the budget says; a
    /// transient failure is retried while a further attempt is permitted and
    /// otherwise settles carrying that failure's own cause.
    pub fn step(self, attempt: AttemptResult) -> (s: FetchStep)
        requires
            self.wf(),
        ensures
            retryable(attempt) && self.remaining > 1 ==> (s matches FetchStep::Retry(t)
                && t.reference == self.reference && t.remaining == self.remaining - 1),
            !retryable(attempt) || self.remaining == 1 ==> (s matches FetchStep::Done(o)
                && o@ == spec_decide(self.reference@, attempt) && o.is_terminal()),
    {
        match attempt {
            AttemptResult::Retrieved { title, body } => {
                let heading = title.clone();
                let page = crate::content::_make_content(body, title);
                let chapter = Chapter {
                    title: heading,
                    location: self.reference.location,
                    body: page,
                    ordinal: self.reference.ordinal,
                };
                FetchStep::Done(FetchOutcome::Success(chapter))
            },
            AttemptResult::Malformed { detail } => {
                FetchStep::Done(FetchOutcome::TerminalFailure(FailureCause::Parse(detail)))
            },
            AttemptResult::Transport { detail } => {
                if self.remaining > 1 {
                    FetchStep::Retry(FetchTask {
                        reference: self.reference,
                        remaining: self.remaining - 1,
                    })
                } else {
                    FetchStep::Done(FetchOutcome::TerminalFailure(FailureCause::Transport(detail)))
                }
            },
            AttemptResult::BadStatus { code } => {
                if self.remaining > 1 {
                    FetchStep::Retry(FetchTask {
                        reference: self.reference,
                        remaining: self.remaining - 1,
                    })
                } else {
                    FetchStep::Done(FetchOutcome::TerminalFailure(FailureCause::Status(code)))
                }
            },
        }
    }
}

/// Run one fetch task to its terminal outcome against a prepared sequence of
/// attempt results, reporting the outcome and how many attempts were made.
pub fn run_fetch_task(reference: ChapterReference, budget: u32, attempts: Vec<AttemptResult>) -> (r: (
    FetchOutcome,
    usize,
))
    requires
        1 <= budget,
        budget <= attempts@.len(),
    ensures
        r.0@ == spec_task_outcome(reference@, attempts@, budget as int),
        r.1 == spec_attempts_used(attempts@, budget as int),
        r.0.is_terminal(),
        1 <= r.1 <= budget,
{
    let ghost orig = attempts@;
    let ghost refv = reference@;
    let mut attempts = attempts;
    let mut task = FetchTask::new(reference, budget);
    let mut used: usize = 0;
    #[verifier::loop_isolation(false)]
    loop
        invariant
            task.wf(),
            task.remaining <= budget,
            task.reference@ == refv,
            attempts@.len() >= task.remaining,
            used == budget - task.remaining,
            budget <= usize::MAX,
            spec_task_outcome(refv, orig, budget as int) == spec_task_outcome(
                refv,
                attempts@,
                task.remaining as int,
            ),
            spec_attempts_used(orig, budget as int) == used + spec_attempts_used(
                attempts@,
                task.remaining as int,
            ),
        decreases task.remaining,
    {
        let ghost before = attempts@;
        let attempt = attempts.remove(0);
        used = used + 1;
        proof {
            assert(before.drop_first() =~= attempts@);
        }
        let ghost remaining = task.remaining as int;
        match task.step(attempt) {
            FetchStep::Retry(next) => {
                proof {
                    assert(retryable(before[0]) && remaining > 1);
                    assert(spec_task_outcome(refv, before, remaining) == spec_task_outcome(
                        refv,
                        before.drop_first(),
                        remaining - 1,
                    ));
                    assert(spec_attempts_used(before, remaining) == 1 + spec_attempts_used(
                        before.drop_first(),
                        remaining - 1,
                    ));
                }
                task = next;
            },
            FetchStep::Done(outcome) => {
                proof {
                    assert(!retryable(before[0]) || remaining == 1);
                    assert(spec_task_outcome(refv, before, remaining) == spec_decide(
                        refv,
                        before[0],
                    ));
                    assert(spec_attempts_used(before, remaining) == 1);
                }
                return (outcome, used);
            },
        }
    }
}

/// Retry is transparent to the final result: when the first `k` attempts fail
/// transiently and attempt `k` is decisive, the task's outcome is exactly the
/// decision on that attempt — identical to a task that saw it first.
pub proof fn lemma_retry_transparent(
    r: ChapterReferenceView,
    attempts: Seq<AttemptResult>,
    budget: int,
    k: int,
)
    requires
        1 <= budget <= attempts.len(),
        0 <= k < budget,
        forall|i: int| 0 <= i < k ==> retryable(#[trigger] attempts[i]),
        !retryable(attempts[k]),
    ensures
        spec_task_outcome(r, attempts, budget) == spec_decide(r, attempts[k]),
        spec_task_outcome(r, attempts, budget) == spec_task_outcome(r, seq![attempts[k]], 1),
        spec_attempts_used(attempts, budget) == k + 1,
    decreases k,
{
    if k == 0 {
        assert(spec_task_outcome(r, seq![attempts[0]], 1) == spec_decide(r, attempts[0]));
    } else {
        let rest = attempts.drop_first();
        assert(forall|i: int| 0 <= i < k - 1 ==> retryable(#[trigger] rest[i]));
        assert(rest[k - 1] == attempts[k]);
        lemma_retry_transparent(r, rest, budget - 1, k - 1);
    }
}

/// When every permitted attempt fails transiently, the task settles on a
/// terminal failure carrying the last attempt's own cause, and the whole
/// budget is consumed.
pub proof fn lemma_exhaustion_keeps_last_cause(
    r: ChapterReferenceView,
    attempts: Seq<AttemptResult>,
    budget: int,
)
    requires
        1 <= budget <= attempts.len(),
        forall|i: int| 0 <= i < budget ==> retryable(#[trigger] attempts[i]),
    ensures
        spec_task_outcome(r, attempts, budget) == FetchOutcomeView::TerminalFailure(
            attempt_cause(attempts[budget - 1]),
        ),
        spec_attempts_used(attempts, budget) == budget,
    decreases budget,
{
    if budget == 1 {
    } else {
        let rest = attempts.drop_first();
        assert(forall|i: int| 0 <= i < budget - 1 ==> retryable(#[trigger] rest[i]));
        assert(rest[budget - 2] == attempts[budget - 1]);
        lemma_exhaustion_keeps_last_cause(r, rest, budget - 1);
    }
}

} // verus!
