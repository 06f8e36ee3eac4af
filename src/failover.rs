//! Ordered failover across the outbound candidates of one session.
//!
//! The driver asks [`Failover`] which candidate to try, performs the connect,
//! and reports the outcome; candidates are tried strictly in order, each at
//! most once, until one connects or the list is exhausted.
use vstd::prelude::*;

use crate::relay::SessionError;

verus! {

/// Where a failover stands.
#[derive(Clone, Copy, Debug, PartialEq, Eq, Structural)]
pub enum Step {
    /// Connect to the candidate at this index next.
    Try(usize),
    /// The candidate at this index accepted the connection.
    Connected(usize),
    /// Every candidate failed.
    Exhausted,
}

/// The step a session of `count` candidates starts in.
pub open spec fn first_step(count: usize) -> Step {
    if count == 0 {
        Step::Exhausted
    } else {
        Step::Try(0)
    }
}

/// The step after candidate `i` of `count` connected (`ok`) or failed.
pub open spec fn next_step(count: usize, i: usize, ok: bool) -> Step {
    if ok {
        Step::Connected(i)
    } else if i + 1 < count {
        Step::Try((i + 1) as usize)
    } else {
        Step::Exhausted
    }
}

/// The candidates tried from step `s` on, and the step it ends in, when candidate
/// `j` connects exactly where `oks[j]` holds.
pub open spec fn run_from(count: usize, oks: Seq<bool>, s: Step) -> (Seq<usize>, Step)
    decreases
            match s {
                Step::Try(i) => count - i,
                _ => 0,
            },
{
    match s {
        Step::Try(i) => {
            if i < count {
                let n = next_step(count, i, oks[i as int]);
                match n {
                    Step::Try(j) => {
                        if i < j && j <= count {
                            let rest = run_from(count, oks, n);
                            (seq![i] + rest.0, rest.1)
                        } else {
                            (seq![i], n)
                        }
                    },
                    _ => (seq![i], n),
                }
            } else {
                (Seq::empty(), s)
            }
        },
        _ => (Seq::empty(), s),
    }
}

/// A whole failover over `count` candidates, from its first step.
pub open spec fn run(count: usize, oks: Seq<bool>) -> (Seq<usize>, Step) {
    run_from(count, oks, first_step(count))
}

/// The indices `from`, `from + 1`, ..., `to - 1`.
pub open spec fn span(from: usize, to: usize) -> Seq<usize> {
    Seq::new((to - from) as nat, |j: int| (from + j) as usize)
}

/// Bookkeeping of one session's failover: the candidate count, the current
/// step, and the error of each candidate that failed, in order.
#[derive(Debug)]
pub struct Failover {
    pub count: usize,
    pub step: Step,
    pub errors: Vec<String>,
}

impl Failover {
    /// Each failed candidate left one error: while candidate `i` is tried or
    /// connected, exactly the `i` before it have failed; once exhausted, all.
    pub open spec fn wf(&self) -> bool {
        match self.step {
            Step::Try(i) => i < self.count && self.errors@.len() == i,
            Step::Connected(i) => i < self.count && self.errors@.len() == i,
            Step::Exhausted => self.errors@.len() == self.count,
        }
    }

    /// Starts a failover over `count` candidates.
    pub fn start(count: usize) -> (r: Failover)
        ensures
            r.wf(),
            r.count == count,
            r.step == first_step(count),
            r.errors@ == Seq::<String>::empty(),
    {
        let step = if count == 0 {
            Step::Exhausted
        } else {
            Step::Try(0)
        };
        Failover { count, step, errors: Vec::new() }
    }

    /// Records the outcome of connecting to the candidate being tried and moves
    /// to the next step. A failure's reason is kept.
    pub fn report(&mut self, outcome: Result<(), String>)
        requires
            old(self).wf(),
            old(self).step is Try,
        ensures
            final(self).wf(),
            final(self).count == old(self).count,
            final(self).step == next_step(old(self).count, old(self).step->Try_0, outcome is Ok),
            final(self).errors@ == match outcome {
                Ok(_) => old(self).errors@,
                Err(e) => old(self).errors@.push(e),
            },
    {
        let i = match self.step {
            Step::Try(i) => i,
            _ => 0,
        };
        match outcome {
            Ok(()) => {
                self.step = Step::Connected(i);
            },
            Err(e) => {
                self.errors.push(e);
                if i + 1 < self.count {
                    self.step = Step::Try(i + 1);
                } else {
                    self.step = Step::Exhausted;
                }
            },
        }
    }

    /// The outcome of a finished failover: the index of the candidate that
    /// connected, or the exhaustion error with every candidate's reason.
    pub fn finish(self) -> (r: Result<usize, SessionError>)
        requires
            self.wf(),
            !(self.step is Try),
        ensures
            self.step is Connected ==> r == Ok::<usize, SessionError>(self.step->Connected_0),
            self.step is Exhausted ==> (r matches Err(SessionError::FailoverExhausted(errs))
                && errs@ == self.errors@),
    {
        match self.step {
            Step::Connected(i) => Ok(i),
            _ => Err(SessionError::FailoverExhausted(self.errors)),
        }
    }
}

proof fn lemma_run_to_success(count: usize, oks: Seq<bool>, i: usize, k: usize)
    requires
        i <= k < count,
        oks.len() >= count,
        forall|j: int| i <= j < k ==> !oks[j],
        oks[k as int],
    ensures
        run_from(count, oks, Step::Try(i)) == (span(i, (k + 1) as usize), Step::Connected(k)),
    decreases k - i,
{
    if i < k {
        lemma_run_to_success(count, oks, (i + 1) as usize, k);
        assert(span(i, (k + 1) as usize) =~= seq![i] + span((i + 1) as usize, (k + 1) as usize));
    } else {
        assert(span(i, (k + 1) as usize) =~= seq![i]);
    }
}

proof fn lemma_run_to_exhaustion(count: usize, oks: Seq<bool>, i: usize)
    requires
        i < count,
        oks.len() >= count,
        forall|j: int| i <= j < count ==> !oks[j],
    ensures
        run_from(count, oks, Step::Try(i)) == (span(i, count), Step::Exhausted),
    decreases count - i,
{
    if i + 1 < count {
        lemma_run_to_exhaustion(count, oks, (i + 1) as usize);
        assert(span(i, count) =~= seq![i] + span((i + 1) as usize, count));
    } else {
        assert(span(i, count) =~= seq![i]);
    }
}

/// With no fallback remotes, exactly the primary is tried, and the failover is
/// exhausted exactly when that one connect fails.
pub proof fn lemma_primary_only(oks: Seq<bool>)
    requires
        oks.len() >= 1,
    ensures
        run(1, oks).0 == seq![0usize],
        run(1, oks).1 == Step::Exhausted <==> !oks[0],
        oks[0] ==> run(1, oks).1 == Step::Connected(0),
{
    assert(seq![0usize] =~= span(0, 1));
    if oks[0] {
        lemma_run_to_success(1, oks, 0, 0);
    } else {
        lemma_run_to_exhaustion(1, oks, 0);
    }
}

/// When the first `k` candidates fail and candidate `k` (counted from zero)
/// connects, candidates `0..=k` are tried in order, the session connects to
/// candidate `k`, and no later candidate is attempted.
pub proof fn lemma_first_success_wins(count: usize, oks: Seq<bool>, k: usize)
    requires
        k < count,
        oks.len() >= count,
        forall|j: int| 0 <= j < k ==> !oks[j],
        oks[k as int],
    ensures
        run(count, oks).0 == span(0, (k + 1) as usize),
        run(count, oks).1 == Step::Connected(k),
        forall|t: int| 0 <= t < run(count, oks).0.len() ==> run(count, oks).0[t] <= k,
{
    lemma_run_to_success(count, oks, 0, k);
}

/// When every candidate fails, each is tried once in order and the failover
/// ends exhausted, with no candidate connected.
pub proof fn lemma_all_fail_exhausts(count: usize, oks: Seq<bool>)
    requires
        count >= 1,
        oks.len() >= count,
        forall|j: int| 0 <= j < count ==> !oks[j],
    ensures
        run(count, oks).0 == span(0, count),
        run(count, oks).1 == Step::Exhausted,
{
    lemma_run_to_exhaustion(count, oks, 0);
}

} // verus!
