//! Collection and ordered reassembly of fetch outcomes.
//!
//! Outcomes arrive in arbitrary completion order. The aggregator counts them
//! against the number of submitted references, keeps every successful chapter
//! as it arrives, and remembers the first terminal failure. Only after every
//! task has reported does it settle: on any terminal failure the whole run
//! fails, reporting that first failure; otherwise the collected chapters are
//! sorted by ordinal — the sole ordering guarantee, which is why arrival
//! order never affects the result.

use vstd::prelude::*;
use vstd::multiset::Multiset;
use vstd::seq_lib::group_to_multiset_ensures;
use vstd::multiset::group_multiset_axioms;
use crate::model::distinct_ordinals;
use crate::model::sorted_by_ordinal;
use crate::model::Chapter;
use crate::outcome::FailureCause;
use crate::outcome::FetchOutcome;

verus! {

broadcast use group_to_multiset_ensures, group_multiset_axioms;

/// The chapters of the successful outcomes of `s`, in arrival order.
pub open spec fn successes(s: Seq<FetchOutcome>) -> Seq<Chapter>
    decreases s.len(),
{
    if s.len() == 0 {
        Seq::empty()
    } else if s.last() is Success {
        successes(s.drop_last()).push(s.last()->Success_0)
    } else {
        successes(s.drop_last())
    }
}

/// The first terminal failure of `s` in arrival order, if any.
pub open spec fn first_failure(s: Seq<FetchOutcome>) -> Option<FailureCause>
    decreases s.len(),
{
    if s.len() == 0 {
        None
    } else if first_failure(s.drop_last()) is Some {
        first_failure(s.drop_last())
    } else if s.last() is TerminalFailure {
        Some(s.last()->TerminalFailure_0)
    } else {
        None
    }
}

/// Collects terminal outcomes until every submitted task has reported.
pub struct Aggregator {
    /// How many submitted tasks have not reported yet.
    pub pending: usize,
    /// The successful chapters, in arrival order.
    pub chapters: Vec<Chapter>,
    /// The first terminal failure observed, if any.
    pub failure: Option<FailureCause>,
}

impl Aggregator {
    /// Outcomes are still owed and none has failed.
    pub open spec fn collecting(self) -> bool {
        self.pending > 0 && self.failure is None
    }

    /// A failure was observed, but outstanding tasks are still drained so
    /// that every one of them reaches a terminal state.
    pub open spec fn draining_after_failure(self) -> bool {
        self.pending > 0 && self.failure is Some
    }

    /// Every submitted task has reported; the aggregator may settle.
    pub open spec fn all_received(self) -> bool {
        self.pending == 0
    }

    /// An aggregator expecting one outcome for each of `submitted` tasks.
    pub fn new(submitted: usize) -> (a: Aggregator)
        ensures
            a.pending == submitted,
            a.chapters@ =~= Seq::<Chapter>::empty(),
            a.failure is None,
    {
        Aggregator { pending: submitted, chapters: Vec::new(), failure: None }
    }

    /// Record one task's terminal outcome: a success keeps its chapter, a
    /// terminal failure is remembered only if it is the first; either way one
    /// fewer outcome is owed.
    pub fn accept(&mut self, outcome: FetchOutcome)
        requires
            old(self).pending > 0,
            outcome.is_terminal(),
        ensures
            final(self).pending == old(self).pending - 1,
            match outcome {
                FetchOutcome::Success(c) => final(self).chapters@ == old(self).chapters@.push(c)
                    && final(self).failure == old(self).failure,
                FetchOutcome::TerminalFailure(cause) => final(self).chapters@ == old(self).chapters@
                    && final(self).failure == (if old(self).failure is Some {
                    old(self).failure
                } else {
                    Some(cause)
                }),
                FetchOutcome::RetryableFailure(_) => false,
            },
    {
        self.pending = self.pending - 1;
        match outcome {
            FetchOutcome::Success(chapter) => {
                self.chapters.push(chapter);
            },
            FetchOutcome::TerminalFailure(cause) => {
                if self.failure.is_none() {
                    self.failure = Some(cause);
                }
            },
            FetchOutcome::RetryableFailure(_) => {
                proof {
                    assert(false);
                }
            },
        }
    }

    /// Settle once every task has reported: the first terminal failure fails
    /// the whole run, otherwise the chapters are reassembled in strict
    /// ordinal order.
    pub fn finish(self) -> (r: Result<Vec<Chapter>, FailureCause>)
        requires
            self.all_received(),
            distinct_ordinals(self.chapters@),
        ensures
            match r {
                Result::Ok(chapters) => self.failure is None && sorted_by_ordinal(chapters@)
                    && chapters@.to_multiset() == self.chapters@.to_multiset()
                    && chapters@.len() == self.chapters@.len(),
                Result::Err(cause) => self.failure == Some(cause),
            },
    {
        match self.failure {
            Option::Some(cause) => Result::Err(cause),
            Option::None => Result::Ok(sort_chapters(self.chapters)),
        }
    }
}

/// Sort chapters by ordinal, ascending: the result is a permutation of the
/// input in strictly ascending ordinal order.
pub fn sort_chapters(chapters: Vec<Chapter>) -> (r: Vec<Chapter>)
    requires
        distinct_ordinals(chapters@),
    ensures
        sorted_by_ordinal(r@),
        r@.to_multiset() == chapters@.to_multiset(),
        r@.len() == chapters@.len(),
{
    let ghost orig = chapters@;
    let mut rest = chapters;
    let mut out: Vec<Chapter> = Vec::new();
    proof {
        assert(out@.to_multiset().add(rest@.to_multiset()) =~= orig.to_multiset());
    }
    #[verifier::loop_isolation(false)]
    while rest.len() > 0
        invariant
            sorted_by_ordinal(out@),
            distinct_ordinals(rest@),
            forall|a: int, b: int| 0 <= a < out@.len() && 0 <= b < rest@.len()
                ==> out@[a].ordinal != rest@[b].ordinal,
            out@.to_multiset().add(rest@.to_multiset()) == orig.to_multiset(),
            out@.len() + rest@.len() == orig.len(),
        decreases rest@.len(),
    {
        let ghost restv = rest@;
        let ghost oldout = out@;
        let chapter = rest.remove(0);
        proof {
            assert(restv.drop_first() =~= restv.remove(0));
        }
        let mut pos: usize = 0;
        while pos < out.len() && out[pos].ordinal < chapter.ordinal
            invariant
                pos <= out.len(),
                out@ == oldout,
                forall|k: int| 0 <= k < pos ==> out@[k].ordinal < chapter.ordinal,
            decreases out.len() - pos,
        {
            pos = pos + 1;
        }
        proof {
            assert forall|k: int| pos <= k < oldout.len() implies oldout[k].ordinal
                > chapter.ordinal by {
                assert(oldout[pos as int].ordinal >= chapter.ordinal);
                assert(oldout[pos as int].ordinal != chapter.ordinal);
                if k > pos {
                    assert(oldout[pos as int].ordinal < oldout[k].ordinal);
                }
            }
        }
        out.insert(pos, chapter);
        proof {
            let newout = out@;
            assert(forall|k: int| 0 <= k < pos ==> newout[k] == oldout[k]);
            assert(newout[pos as int] == chapter);
            assert(forall|k: int| pos < k < newout.len() ==> newout[k] == oldout[k - 1]);
            assert forall|x: int, y: int| 0 <= x < y < newout.len() implies newout[x].ordinal
                < newout[y].ordinal by {
            }
            assert(newout.to_multiset() == oldout.to_multiset().insert(chapter));
            assert(rest@.to_multiset() == restv.to_multiset().remove(chapter));
            assert(restv.to_multiset().contains(chapter));
            assert(newout.to_multiset().add(rest@.to_multiset()) =~= orig.to_multiset());
        }
    }
    proof {
        assert(rest@.to_multiset() =~= Multiset::<Chapter>::empty());
        assert(out@.to_multiset() =~= orig.to_multiset());
        assert(out@.to_multiset().len() == out@.len());
        assert(orig.to_multiset().len() == orig.len());
    }
    out
}

/// Drain a complete batch of terminal outcomes, one per submitted task, and
/// settle the whole run: the first terminal failure in arrival order fails
/// it; otherwise every successful chapter is kept and reassembled in strict
/// ordinal order.
pub fn reassemble(outcomes: Vec<FetchOutcome>) -> (r: Result<Vec<Chapter>, FailureCause>)
    requires
        forall|i: int| 0 <= i < outcomes@.len() ==> (#[trigger] outcomes@[i]).is_terminal(),
        distinct_ordinals(successes(outcomes@)),
    ensures
        match r {
            Result::Ok(chapters) => first_failure(outcomes@) is None && sorted_by_ordinal(
                chapters@,
            ) && chapters@.to_multiset() == successes(outcomes@).to_multiset()
                && chapters@.len() == successes(outcomes@).len(),
            Result::Err(cause) => first_failure(outcomes@) == Some(cause),
        },
{
    let ghost orig = outcomes@;
    let mut rest = outcomes;
    let total = rest.len();
    let mut agg = Aggregator::new(total);
    proof {
        assert(orig.subrange(0, 0) =~= Seq::<FetchOutcome>::empty());
    }
    #[verifier::loop_isolation(false)]
    while rest.len() > 0
        invariant
            agg.pending == rest@.len(),
            rest@.len() <= orig.len(),
            rest@ =~= orig.subrange(orig.len() - rest@.len(), orig.len() as int),
            agg.chapters@ == successes(orig.subrange(0, orig.len() - rest@.len())),
            agg.failure == first_failure(orig.subrange(0, orig.len() - rest@.len())),
        decreases rest@.len(),
    {
        let ghost restv = rest@;
        let ghost seen = orig.subrange(0, orig.len() - restv.len());
        let outcome = rest.remove(0);
        proof {
            assert(outcome == restv[0]);
            assert(restv[0] == orig[seen.len() as int]);
            assert(rest@ =~= restv.drop_first());
            assert(rest@ =~= orig.subrange(orig.len() - rest@.len(), orig.len() as int));
            let seen2 = orig.subrange(0, seen.len() as int + 1);
            assert(seen2.drop_last() =~= seen);
            assert(seen2.last() == outcome);
            assert(seen2 =~= orig.subrange(0, orig.len() - rest@.len()));
        }
        agg.accept(outcome);
    }
    proof {
        assert(orig.subrange(0, orig.len() as int) =~= orig);
    }
    agg.finish()
}

/// Reassembly is canonical: two complete, successful collections that hold
/// the same chapters — in whatever arrival orders — reassemble into the very
/// same sequence, because a strictly ordinal-sorted permutation of a given
/// collection is unique.
pub proof fn lemma_reassembly_canonical(x: Seq<Chapter>, y: Seq<Chapter>)
    requires
        sorted_by_ordinal(x),
        sorted_by_ordinal(y),
        x.to_multiset() == y.to_multiset(),
    ensures
        x =~= y,
    decreases x.len(),
{
    assert(x.to_multiset().len() == x.len());
    assert(y.to_multiset().len() == y.len());
    if x.len() == 0 {
    } else {
        assert(x.contains(x[0])) by {
            assert(x[0] == x[0]);
        }
        assert(x.to_multiset().contains(x[0]));
        assert(y.to_multiset().contains(x[0]));
        assert(y.contains(x[0]));
        let j = choose|j: int| 0 <= j < y.len() && y[j] == x[0];
        assert(y.contains(y[0])) by {
            assert(y[0] == y[0]);
        }
        assert(x.to_multiset().contains(y[0]));
        assert(x.contains(y[0]));
        let i = choose|i: int| 0 <= i < x.len() && x[i] == y[0];
        if j > 0 {
            assert(y[0].ordinal < y[j].ordinal);
            assert(y[0].ordinal < x[0].ordinal);
            if i > 0 {
                assert(x[0].ordinal < x[i].ordinal);
                assert(x[0].ordinal < y[0].ordinal);
                assert(false);
            } else {
                assert(x[0] == y[0]);
                assert(false);
            }
        }
        assert(y[0] == x[0]);
        assert(x.drop_first().to_multiset() =~= x.to_multiset().remove(x[0])) by {
            assert(x.drop_first() =~= x.remove(0));
        }
        assert(y.drop_first().to_multiset() =~= y.to_multiset().remove(y[0])) by {
            assert(y.drop_first() =~= y.remove(0));
        }
        lemma_reassembly_canonical(x.drop_first(), y.drop_first());
        assert(x =~= Seq::<Chapter>::empty().push(x[0]) + x.drop_first());
        assert(y =~= Seq::<Chapter>::empty().push(y[0]) + y.drop_first());
    }
}

/// Arrival order cannot influence a successful run: two complete batches
/// whose successes are the same chapters, delivered in whatever orders,
/// settle on the same ordered sequence.
pub proof fn lemma_order_independent(
    s1: Seq<FetchOutcome>,
    s2: Seq<FetchOutcome>,
    r1: Seq<Chapter>,
    r2: Seq<Chapter>,
)
    requires
        successes(s1).to_multiset() == successes(s2).to_multiset(),
        sorted_by_ordinal(r1),
        sorted_by_ordinal(r2),
        r1.to_multiset() == successes(s1).to_multiset(),
        r2.to_multiset() == successes(s2).to_multiset(),
    ensures
        r1 =~= r2,
{
    lemma_reassembly_canonical(r1, r2);
}

/// A fully successful batch loses nothing: with no terminal failure among
/// `s`, every outcome contributes its chapter, so the run settles on exactly
/// as many chapters as there were submitted tasks.
pub proof fn lemma_all_success_count(s: Seq<FetchOutcome>)
    requires
        forall|i: int| 0 <= i < s.len() ==> (#[trigger] s[i]) is Success,
    ensures
        successes(s).len() == s.len(),
        first_failure(s) is None,
    decreases s.len(),
{
    if s.len() > 0 {
        lemma_all_success_count(s.drop_last());
    }
}

} // verus!
