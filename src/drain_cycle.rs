use vstd::prelude::*;

verus! {

/// Seconds to wait after a failed bulk write before the next attempt.
pub const RETRY_DELAY_SECS: u64 = 1;

/// How a drain cycle ended.
#[derive(Clone, Copy, Debug, PartialEq, Eq, Structural)]
pub enum CycleEnd {
    /// The bulk write succeeded.
    Written,
    /// Every allowed attempt failed; the batch is discarded, not re-queued.
    Dropped,
}

/// What the runner of a drain cycle does after a bulk write has answered.
#[derive(Clone, Copy, Debug, PartialEq, Eq, Structural)]
pub enum CycleStep {
    /// Wait `RETRY_DELAY_SECS`, then write the same batch again.
    RetryAfterDelay,
    /// Stop: the cycle is over.
    Finished(CycleEnd),
}

/// Number of write attempts a cycle makes at most: `max_attempts`, and
/// always at least the first one.
pub open spec fn attempts_allowed(max_attempts: nat) -> nat {
    if max_attempts == 0 {
        1
    } else {
        max_attempts
    }
}

/// What a running cycle that has failed `failures` times does with the next
/// answer of the bulk write.
pub open spec fn next_step(failures: nat, limit: nat, succeeded: bool) -> CycleStep {
    if succeeded {
        CycleStep::Finished(CycleEnd::Written)
    } else if failures + 1 >= attempts_allowed(limit) {
        CycleStep::Finished(CycleEnd::Dropped)
    } else {
        CycleStep::RetryAfterDelay
    }
}

/// The steps that a running cycle which has failed `failures` times gives
/// for `answers`, in order, up to and including the one that finishes it.
pub open spec fn steps_from(failures: nat, limit: nat, answers: Seq<bool>) -> Seq<CycleStep>
    decreases answers.len(),
{
    if answers.len() == 0 {
        Seq::empty()
    } else {
        let s = next_step(failures, limit, answers[0]);
        if s is Finished {
            seq![s]
        } else {
            seq![s] + steps_from(failures + 1, limit, answers.skip(1))
        }
    }
}

/// The retry decisions of one drain cycle, for a batch that was taken from
/// the buffer: each answer of the bulk write is handed in, and the cycle says
/// whether to stop or to wait and write again.
pub struct DrainCycle {
    failed_attempts: usize,
    max_attempts: usize,
    end: Option<CycleEnd>,
}

impl DrainCycle {
    /// Failed write attempts so far.
    pub closed spec fn failures(&self) -> nat {
        self.failed_attempts as nat
    }

    /// The configured maximum number of attempts.
    pub closed spec fn limit(&self) -> nat {
        self.max_attempts as nat
    }

    /// How the cycle ended, while it has.
    pub closed spec fn outcome(&self) -> Option<CycleEnd> {
        self.end
    }

    /// A running cycle has attempts left: its failures are below the limit
    /// (or none were made yet, for the first attempt is always made).
    pub open spec fn wf(&self) -> bool {
        self.outcome() is None ==> self.failures() < attempts_allowed(self.limit())
    }

    /// A cycle about to make its first write attempt.
    pub fn new(max_attempts: usize) -> (r: Self)
        ensures
            r.wf(),
            r.failures() == 0,
            r.limit() == max_attempts,
            r.outcome() is None,
    {
        DrainCycle { failed_attempts: 0, max_attempts, end: None }
    }

    /// Failed write attempts so far.
    pub fn failed_attempts(&self) -> (r: usize)
        ensures
            r == self.failures(),
    {
        self.failed_attempts
    }

    /// Whether the cycle is over.
    pub fn is_finished(&self) -> (r: bool)
        ensures
            r == (self.outcome() is Some),
    {
        self.end.is_some()
    }

    /// Takes the answer of the latest bulk write and decides what comes next.
    ///
    /// A success ends the cycle. A failure ends it once the attempts made
    /// reach the limit, and the batch is dropped; otherwise the failure is
    /// counted and the batch is written again after the delay. A cycle that
    /// is over stays over, whatever comes in.
    pub fn on_write_result(&mut self, succeeded: bool) -> (r: CycleStep)
        requires
            old(self).wf(),
        ensures
            final(self).wf(),
            final(self).limit() == old(self).limit(),
            old(self).outcome() is None ==> r == next_step(
                old(self).failures(),
                old(self).limit(),
                succeeded,
            ),
            old(self).outcome() matches Some(e) ==> r == CycleStep::Finished(e) && *final(self)
                == *old(self),
            old(self).outcome() is None && succeeded ==> {
                &&& r == CycleStep::Finished(CycleEnd::Written)
                &&& final(self).outcome() == Some(CycleEnd::Written)
                &&& final(self).failures() == old(self).failures()
            },
            old(self).outcome() is None && !succeeded && old(self).failures() + 1
                >= attempts_allowed(old(self).limit()) ==> {
                &&& r == CycleStep::Finished(CycleEnd::Dropped)
                &&& final(self).outcome() == Some(CycleEnd::Dropped)
                &&& final(self).failures() == old(self).failures() + 1
            },
            old(self).outcome() is None && !succeeded && old(self).failures() + 1
                < attempts_allowed(old(self).limit()) ==> {
                &&& r == CycleStep::RetryAfterDelay
                &&& final(self).outcome() is None
                &&& final(self).failures() == old(self).failures() + 1
            },
    {
        match self.end {
            Some(e) => CycleStep::Finished(e),
            None => {
                if succeeded {
                    self.end = Some(CycleEnd::Written);
                    CycleStep::Finished(CycleEnd::Written)
                } else {
                    self.failed_attempts = self.failed_attempts + 1;
                    if self.failed_attempts >= self.max_attempts {
                        self.end = Some(CycleEnd::Dropped);
                        CycleStep::Finished(CycleEnd::Dropped)
                    } else {
                        CycleStep::RetryAfterDelay
                    }
                }
            },
        }
    }
}

/// `n` retry delays.
pub open spec fn retries(n: nat) -> Seq<CycleStep> {
    Seq::new(n, |_i: int| CycleStep::RetryAfterDelay)
}

/// `n` failed answers.
pub open spec fn failures_only(n: nat) -> Seq<bool> {
    Seq::new(n, |_i: int| false)
}

proof fn lemma_written_after_failures_from(f: nat, limit: nat, k: nat)
    requires
        f + k < attempts_allowed(limit),
    ensures
        steps_from(f, limit, failures_only(k).push(true)) == retries(k).push(
            CycleStep::Finished(CycleEnd::Written),
        ),
    decreases k,
{
    let answers = failures_only(k).push(true);
    if k == 0 {
        assert(steps_from(f, limit, answers) =~= seq![CycleStep::Finished(CycleEnd::Written)]);
        assert(retries(0).push(CycleStep::Finished(CycleEnd::Written)) =~= seq![
            CycleStep::Finished(CycleEnd::Written),
        ]);
    } else {
        assert(answers[0] == false);
        assert(answers.skip(1) =~= failures_only((k - 1) as nat).push(true));
        lemma_written_after_failures_from(f + 1, limit, (k - 1) as nat);
        assert(seq![CycleStep::RetryAfterDelay] + retries((k - 1) as nat).push(
            CycleStep::Finished(CycleEnd::Written),
        ) =~= retries(k).push(CycleStep::Finished(CycleEnd::Written)));
    }
}

/// A bulk write that succeeds after `k` failures, with attempts left for
/// all of them, ends the cycle as written after exactly `k` retry delays.
pub proof fn lemma_written_after_failures(max_attempts: nat, k: nat)
    requires
        k < attempts_allowed(max_attempts),
    ensures
        steps_from(0, max_attempts, failures_only(k).push(true)) == retries(k).push(
            CycleStep::Finished(CycleEnd::Written),
        ),
{
    lemma_written_after_failures_from(0, max_attempts, k);
}

proof fn lemma_dropped_after_failures_from(f: nat, limit: nat, answers: Seq<bool>)
    requires
        f < attempts_allowed(limit),
        answers.len() >= attempts_allowed(limit) - f,
        forall|i: int| 0 <= i < answers.len() ==> !answers[i],
    ensures
        steps_from(f, limit, answers) == retries((attempts_allowed(limit) - f - 1) as nat).push(
            CycleStep::Finished(CycleEnd::Dropped),
        ),
    decreases answers.len(),
{
    let n = (attempts_allowed(limit) - f - 1) as nat;
    assert(!answers[0]);
    if f + 1 >= attempts_allowed(limit) {
        assert(steps_from(f, limit, answers) =~= seq![CycleStep::Finished(CycleEnd::Dropped)]);
        assert(retries(n).push(CycleStep::Finished(CycleEnd::Dropped)) =~= seq![
            CycleStep::Finished(CycleEnd::Dropped),
        ]);
    } else {
        lemma_dropped_after_failures_from(f + 1, limit, answers.skip(1));
        assert(seq![CycleStep::RetryAfterDelay] + retries((n - 1) as nat).push(
            CycleStep::Finished(CycleEnd::Dropped),
        ) =~= retries(n).push(CycleStep::Finished(CycleEnd::Dropped)));
    }
}

/// A bulk write that keeps failing ends the cycle as dropped at the last
/// allowed attempt, after one retry delay for each earlier attempt; the
/// answers after that are never asked for.
pub proof fn lemma_dropped_after_failures(max_attempts: nat, answers: Seq<bool>)
    requires
        answers.len() >= attempts_allowed(max_attempts),
        forall|i: int| 0 <= i < answers.len() ==> !answers[i],
    ensures
        steps_from(0, max_attempts, answers) == retries(
            (attempts_allowed(max_attempts) - 1) as nat,
        ).push(CycleStep::Finished(CycleEnd::Dropped)),
{
    lemma_dropped_after_failures_from(0, max_attempts, answers);
}

proof fn lemma_steps_bounded_from(f: nat, limit: nat, answers: Seq<bool>)
    requires
        f < attempts_allowed(limit),
    ensures
        steps_from(f, limit, answers).len() <= attempts_allowed(limit) - f,
    decreases answers.len(),
{
    if answers.len() > 0 && !(next_step(f, limit, answers[0]) is Finished) {
        lemma_steps_bounded_from(f + 1, limit, answers.skip(1));
    }
}

/// Whatever the bulk write answers, a cycle makes at most
/// `attempts_allowed(max_attempts)` write attempts.
pub proof fn lemma_attempts_bounded(max_attempts: nat, answers: Seq<bool>)
    ensures
        steps_from(0, max_attempts, answers).len() <= attempts_allowed(max_attempts),
{
    lemma_steps_bounded_from(0, max_attempts, answers);
}

} // verus!
