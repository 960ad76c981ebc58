use vstd::prelude::*;

verus! {

/// How many times a failed write is tried again before the error is kept.
pub const MAX_RETRIES: u32 = 5;

/// Seconds to wait before each new attempt.
pub const RETRY_DELAY_SECS: u64 = 1;

/// What the writer does after one attempt of a full write.
#[derive(Clone, Copy, Debug, PartialEq, Eq, Structural)]
pub enum WriteStep {
    /// The attempt succeeded: the write is complete.
    Done,
    /// The attempt failed: sleep `delay_secs`, then make retry number `retry`.
    RetryAfter { delay_secs: u64, retry: u32 },
    /// The attempt failed and no retry is left: the last error is returned.
    GiveUp,
}

/// One transition of the retry policy: `retries` retries made so far, `ok` the
/// result of the attempt just made. Gives the new retry count and the step.
/// Every error is retried alike; the policy does not look at its kind.
pub open spec fn retry_step(retries: nat, ok: bool) -> (nat, WriteStep) {
    if ok {
        (retries, WriteStep::Done)
    } else if retries < MAX_RETRIES {
        (
            retries + 1,
            WriteStep::RetryAfter { delay_secs: RETRY_DELAY_SECS, retry: (retries + 1) as u32 },
        )
    } else {
        (retries, WriteStep::GiveUp)
    }
}

/// Runs the policy from `retries` against a writer whose attempt number `a`
/// (counted from zero) succeeds exactly when `ok_at(a)`. Gives the retries
/// made, the final step (`Done` or `GiveUp`) and the delays slept, in order.
pub open spec fn run_policy(ok_at: spec_fn(nat) -> bool, retries: nat) -> (nat, WriteStep, Seq<u64>)
    decreases MAX_RETRIES - retries,
{
    let (next, step) = retry_step(retries, ok_at(retries));
    match step {
        WriteStep::RetryAfter { delay_secs, retry } => {
            if retries < MAX_RETRIES {
                let (n, last, delays) = run_policy(ok_at, next);
                (n, last, seq![delay_secs].add(delays))
            } else {
                (next, step, Seq::empty())
            }
        },
        _ => (next, step, Seq::empty()),
    }
}

/// `n` delays of the fixed retry delay.
pub open spec fn fixed_delays(n: nat) -> Seq<u64> {
    Seq::new(n, |i: int| RETRY_DELAY_SECS)
}

/// The retry state of one outbound write.
pub struct WriteRetry {
    retries: u32,
}

impl WriteRetry {
    /// Retries made so far for the current write.
    pub closed spec fn retries(&self) -> nat {
        self.retries as nat
    }

    pub open spec fn wf(&self) -> bool {
        self.retries() <= MAX_RETRIES
    }

    /// State before the first attempt.
    pub fn new() -> (r: WriteRetry)
        ensures
            r.wf(),
            r.retries() == 0,
    {
        WriteRetry { retries: 0 }
    }

    /// Retries made so far for the current write.
    pub fn retries_made(&self) -> (r: u32)
        requires
            self.wf(),
        ensures
            r == self.retries(),
            r <= MAX_RETRIES,
    {
        self.retries
    }

    /// Records the result of one attempt and says what to do next.
    pub fn on_attempt(&mut self, ok: bool) -> (step: WriteStep)
        requires
            old(self).wf(),
        ensures
            final(self).wf(),
            (final(self).retries(), step) == retry_step(old(self).retries(), ok),
    {
        if ok {
            WriteStep::Done
        } else if self.retries < MAX_RETRIES {
            self.retries = self.retries + 1;
            WriteStep::RetryAfter { delay_secs: RETRY_DELAY_SECS, retry: self.retries }
        } else {
            WriteStep::GiveUp
        }
    }
}

proof fn lemma_run_from(ok_at: spec_fn(nat) -> bool, k: nat, r: nat)
    requires
        r <= k,
        k <= MAX_RETRIES,
        forall|a: nat| a < k ==> !#[trigger] ok_at(a),
        k < MAX_RETRIES ==> ok_at(k),
        k == MAX_RETRIES ==> !ok_at(k),
    ensures
        run_policy(ok_at, r) == (
            k,
            if k < MAX_RETRIES { WriteStep::Done } else { WriteStep::GiveUp },
            fixed_delays((k - r) as nat),
        ),
    decreases k - r,
{
    if r < k {
        assert(!ok_at(r));
        lemma_run_from(ok_at, k, r + 1);
        assert(seq![RETRY_DELAY_SECS].add(fixed_delays((k - (r + 1)) as nat))
            =~= fixed_delays((k - r) as nat));
    } else {
        assert(fixed_delays(0) =~= Seq::<u64>::empty());
    }
}

/// A writer that fails on exactly its first `k` attempts, with `k` below the
/// retry budget, completes after `k` retries, each one preceded by the fixed
/// one-second delay.
pub proof fn lemma_fails_k_times_then_succeeds(k: nat)
    requires
        k < MAX_RETRIES,
    ensures
        run_policy(|a: nat| a >= k, 0) == (k, WriteStep::Done, fixed_delays(k)),
{
    lemma_run_from(|a: nat| a >= k, k, 0);
}

/// A writer whose every attempt fails gives up with its last error after
/// exactly the full budget of retries, each one preceded by the fixed delay.
pub proof fn lemma_always_failing_gives_up()
    ensures
        run_policy(|a: nat| false, 0) == (
            MAX_RETRIES as nat,
            WriteStep::GiveUp,
            fixed_delays(MAX_RETRIES as nat),
        ),
{
    lemma_run_from(|a: nat| false, MAX_RETRIES as nat, 0);
}

} // verus!
