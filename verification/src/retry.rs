use vstd::prelude::*;
use vstd::arithmetic::mul::lemma_mul_upper_bound;
use vstd::arithmetic::power2::{lemma2_to64, lemma_pow2_strictly_increases, lemma_pow2_unfold, pow2};

verus! {

/// Configuration of the bounded exponential-backoff retry loop that wraps a
/// single rate-limited remote call.
pub struct RetryPolicy {
    /// How many attempts are made at most (1-indexed; at least one).
    pub max_attempts: u64,
    /// Delay before the second attempt; doubles after every further failure.
    pub base_delay_ms: u64,
}

impl RetryPolicy {
    /// Bounds under which every delay and every delay sum fits in a `u64`.
    pub open spec fn wf(self) -> bool {
        1 <= self.max_attempts <= 16 && self.base_delay_ms <= 0x1_0000
    }
}

/// What a single funding attempt came back with.
pub enum AttemptOutcome {
    /// The network accepted the request; the payload is the receipt id.
    Accepted(String),
    /// The network refused with a rate-limit signal; retryable.
    RateLimited(String),
    /// The network refused for a non-rate-limit reason; not retryable.
    Terminal(String),
}

/// What the executor asks its driver to do after one attempt.
pub enum RetryDecision {
    /// Stop: the request went through; the payload is the receipt id.
    Done(String),
    /// Sleep for the given number of milliseconds, then attempt again.
    WaitThenRetry(u64),
    /// Stop: every attempt was rate-limited; the payload is the last detail.
    Exhausted(String),
    /// Stop: a terminal failure; the payload is its detail.
    Aborted(String),
}

/// How a finished run ended.
#[derive(Clone, Copy, PartialEq, Eq, Structural, Debug)]
pub enum RunVerdict {
    Succeeded,
    Exhausted,
    Aborted,
}

/// Attempt count, total wait and verdict of a finished run.
pub ghost struct RunSummary {
    pub attempts: nat,
    pub waited: nat,
    pub verdict: RunVerdict,
}

/// Delay slept after failed attempt number `n` (1-indexed): base * 2^(n-1).
pub open spec fn backoff_of(base: nat, n: nat) -> nat
    recommends
        n >= 1,
{
    base * pow2((n - 1) as nat)
}

/// Total wait of a run whose first `n` attempts were all rate-limited and
/// retried: the sum of backoff_of(base, i) for i in 1..=n.
pub open spec fn sum_backoff(base: nat, n: nat) -> nat
    decreases n,
{
    if n == 0 {
        0
    } else {
        sum_backoff(base, (n - 1) as nat) + backoff_of(base, n)
    }
}

/// The whole run, starting at attempt number `attempt`, against the sequence
/// of outcomes the network would hand back on each attempt.
pub open spec fn retry_run(policy: RetryPolicy, outcomes: Seq<AttemptOutcome>, attempt: nat) -> RunSummary
    recommends
        policy.wf(),
        outcomes.len() >= policy.max_attempts,
    decreases policy.max_attempts - attempt,
        when 1 <= attempt <= policy.max_attempts
{
    match outcomes[attempt - 1] {
        AttemptOutcome::Accepted(_) => RunSummary { attempts: attempt, waited: 0, verdict: RunVerdict::Succeeded },
        AttemptOutcome::Terminal(_) => RunSummary { attempts: attempt, waited: 0, verdict: RunVerdict::Aborted },
        AttemptOutcome::RateLimited(_) => {
            if attempt < policy.max_attempts {
                let rest = retry_run(policy, outcomes, attempt + 1);
                RunSummary {
                    attempts: rest.attempts,
                    waited: backoff_of(policy.base_delay_ms as nat, attempt) + rest.waited,
                    verdict: rest.verdict,
                }
            } else {
                RunSummary { attempts: attempt, waited: 0, verdict: RunVerdict::Exhausted }
            }
        },
    }
}

/// Delay before the attempt that follows attempt number `attempt`.
pub fn backoff_delay_ms(policy: &RetryPolicy, attempt: u64) -> (d: u64)
    requires
        policy.wf(),
        1 <= attempt < policy.max_attempts,
    ensures
        d == backoff_of(policy.base_delay_ms as nat, attempt as nat),
{
    proof {
        lemma2_to64();
        assert(pow2(0) == 1);
        assert(policy.base_delay_ms * pow2(0) == policy.base_delay_ms) by (nonlinear_arith)
            requires
                pow2(0) == 1,
        ;
    }
    let mut d: u64 = policy.base_delay_ms;
    let mut i: u64 = 1;
    while i < attempt
        invariant
            policy.wf(),
            1 <= i <= attempt < policy.max_attempts,
            d == policy.base_delay_ms * pow2((i - 1) as nat),
        decreases attempt - i,
    {
        proof {
            lemma_delay_fits(*policy, (i - 1) as nat);
            lemma_pow2_unfold(i as nat);
            assert(policy.base_delay_ms * (2 * pow2((i - 1) as nat)) == 2 * (policy.base_delay_ms
                * pow2((i - 1) as nat))) by (nonlinear_arith);
        }
        d = d * 2;
        i = i + 1;
    }
    d
}

/// One step of the executor: attempt number `attempt` (1-indexed) has just
/// come back with `outcome`; decide what the driver does next.
///
/// An accepted request and a terminal failure stop the run at once; a
/// rate-limited failure is retried after an exponentially grown delay until
/// the attempt budget is spent, and only then reported as exhaustion.
pub fn retry_step(policy: &RetryPolicy, attempt: u64, outcome: AttemptOutcome) -> (d: RetryDecision)
    requires
        policy.wf(),
        1 <= attempt <= policy.max_attempts,
    ensures
        (outcome matches AttemptOutcome::Accepted(r) ==> d matches RetryDecision::Done(rr) && rr@ == r@),
        (outcome matches AttemptOutcome::Terminal(e) ==> d matches RetryDecision::Aborted(ee) && ee@ == e@),
        (outcome matches AttemptOutcome::RateLimited(e) ==> ((attempt < policy.max_attempts ==> (d
            matches RetryDecision::WaitThenRetry(w) && w == backoff_of(policy.base_delay_ms as nat, attempt as nat)))
            && (attempt == policy.max_attempts ==> (d matches RetryDecision::Exhausted(ee) && ee@ == e@)))),
{
    match outcome {
        AttemptOutcome::Accepted(r) => RetryDecision::Done(r),
        AttemptOutcome::Terminal(e) => RetryDecision::Aborted(e),
        AttemptOutcome::RateLimited(e) => {
            if attempt < policy.max_attempts {
                RetryDecision::WaitThenRetry(backoff_delay_ms(policy, attempt))
            } else {
                RetryDecision::Exhausted(e)
            }
        },
    }
}

/// A whole run against a script of outcomes, one per attempt the run could
/// make: returns how many attempts were made, the total wait in milliseconds,
/// and the verdict.  The real driver performs the network call and the sleeps;
/// this function is that loop with the calls replaced by the script.
pub fn run_scripted(policy: &RetryPolicy, outcomes: &Vec<AttemptOutcome>) -> (r: (u64, u64, RunVerdict))
    requires
        policy.wf(),
        outcomes.len() >= policy.max_attempts,
    ensures
        r.0 == retry_run(*policy, outcomes@, 1).attempts,
        r.1 == retry_run(*policy, outcomes@, 1).waited,
        r.2 == retry_run(*policy, outcomes@, 1).verdict,
{
    let mut attempt: u64 = 1;
    let mut waited: u64 = 0;
    loop
        invariant
            policy.wf(),
            outcomes.len() >= policy.max_attempts,
            1 <= attempt <= policy.max_attempts,
            waited == sum_backoff(policy.base_delay_ms as nat, (attempt - 1) as nat),
            forall|j: int| 0 <= j < attempt - 1 ==> outcomes@[j] is RateLimited,
        decreases policy.max_attempts - attempt,
    {
        proof {
            lemma_run_prefix(*policy, outcomes@, attempt as nat);
        }
        match &outcomes[attempt as usize - 1] {
            AttemptOutcome::Accepted(_) => {
                return (attempt, waited, RunVerdict::Succeeded);
            },
            AttemptOutcome::Terminal(_) => {
                return (attempt, waited, RunVerdict::Aborted);
            },
            AttemptOutcome::RateLimited(_) => {
                if attempt < policy.max_attempts {
                    proof {
                        lemma_sum_fits(*policy, attempt as nat);
                    }
                    waited = waited + backoff_delay_ms(policy, attempt);
                    attempt = attempt + 1;
                } else {
                    return (attempt, waited, RunVerdict::Exhausted);
                }
            },
        }
    }
}

/// The delay after attempt n fits comfortably in a `u64`.
proof fn lemma_delay_fits(policy: RetryPolicy, n: nat)
    requires
        policy.wf(),
        n < policy.max_attempts,
    ensures
        policy.base_delay_ms * pow2(n) <= 0x8000_0000,
{
    lemma2_to64();
    if n < 15 {
        lemma_pow2_strictly_increases(n, 15);
    }
    lemma_mul_upper_bound(policy.base_delay_ms as int, 0x1_0000, pow2(n) as int, 0x8000);
}

/// The sum of the first n backoff delays is at most base * 2^n.
proof fn lemma_sum_backoff_le(base: nat, n: nat)
    ensures
        sum_backoff(base, n) <= base * pow2(n),
    decreases n,
{
    lemma2_to64();
    if n > 0 {
        lemma_sum_backoff_le(base, (n - 1) as nat);
        lemma_pow2_unfold(n);
        assert(base * pow2((n - 1) as nat) + base * pow2((n - 1) as nat) == base * (2 * pow2(
            (n - 1) as nat))) by (nonlinear_arith);
    }
}

/// Waits stay within `u64` across a whole run.
proof fn lemma_sum_fits(policy: RetryPolicy, n: nat)
    requires
        policy.wf(),
        1 <= n < policy.max_attempts,
    ensures
        sum_backoff(policy.base_delay_ms as nat, n) <= 0x1_0000_0000,
        sum_backoff(policy.base_delay_ms as nat, (n - 1) as nat) + backoff_of(policy.base_delay_ms as nat, n)
            == sum_backoff(policy.base_delay_ms as nat, n),
{
    lemma_sum_backoff_le(policy.base_delay_ms as nat, n);
    lemma_delay_fits(policy, n);
    lemma2_to64();
    if n < 15 {
        lemma_pow2_strictly_increases(n, 15);
    }
    lemma_mul_upper_bound(policy.base_delay_ms as int, 0x1_0000, pow2(n) as int, 0x8000);
    if n == 0 {
        assert(sum_backoff(policy.base_delay_ms as nat, 0) == 0);
    }
}

/// A run whose first `attempt - 1` outcomes are all rate-limited behaves, from
/// attempt 1, like the run from `attempt` with the first waits added on.
proof fn lemma_run_prefix(policy: RetryPolicy, outcomes: Seq<AttemptOutcome>, attempt: nat)
    requires
        policy.wf(),
        outcomes.len() >= policy.max_attempts,
        1 <= attempt <= policy.max_attempts,
        forall|j: int| 0 <= j < attempt - 1 ==> outcomes[j] is RateLimited,
    ensures
        retry_run(policy, outcomes, 1).attempts == retry_run(policy, outcomes, attempt).attempts,
        retry_run(policy, outcomes, 1).waited == sum_backoff(policy.base_delay_ms as nat, (attempt - 1) as nat)
            + retry_run(policy, outcomes, attempt).waited,
        retry_run(policy, outcomes, 1).verdict == retry_run(policy, outcomes, attempt).verdict,
    decreases attempt,
{
    if attempt > 1 {
        lemma_run_prefix(policy, outcomes, (attempt - 1) as nat);
        assert(outcomes[attempt - 2] is RateLimited);
        assert(retry_run(policy, outcomes, (attempt - 1) as nat).waited == backoff_of(
            policy.base_delay_ms as nat, (attempt - 1) as nat) + retry_run(policy, outcomes, attempt).waited);
    }
}

/// Law: a run whose every outcome is rate-limited makes exactly the configured
/// maximum number of attempts, waits the sum of base * 2^(i-1) for
/// i in 1..max_attempts (no wait after the final attempt), and ends exhausted.
pub proof fn lemma_all_rate_limited_exhausts(policy: RetryPolicy, outcomes: Seq<AttemptOutcome>)
    requires
        policy.wf(),
        outcomes.len() >= policy.max_attempts,
        forall|j: int| 0 <= j < policy.max_attempts ==> outcomes[j] is RateLimited,
    ensures
        retry_run(policy, outcomes, 1).attempts == policy.max_attempts,
        retry_run(policy, outcomes, 1).waited == sum_backoff(policy.base_delay_ms as nat, (policy.max_attempts - 1) as nat),
        retry_run(policy, outcomes, 1).verdict == RunVerdict::Exhausted,
{
    lemma_run_prefix(policy, outcomes, policy.max_attempts as nat);
}

/// Law: a run whose first outcome is a terminal failure makes exactly one
/// attempt, waits nothing, and aborts.
pub proof fn lemma_terminal_stops_at_once(policy: RetryPolicy, outcomes: Seq<AttemptOutcome>)
    requires
        policy.wf(),
        outcomes.len() >= policy.max_attempts,
        outcomes[0] is Terminal,
    ensures
        retry_run(policy, outcomes, 1).attempts == 1,
        retry_run(policy, outcomes, 1).waited == 0,
        retry_run(policy, outcomes, 1).verdict == RunVerdict::Aborted,
{
}

/// Law: a run that is rate-limited on every attempt before `k` and accepted on
/// attempt `k` makes exactly `k` attempts, waits the sum of the first `k - 1`
/// backoff delays, and succeeds.
pub proof fn lemma_success_after_rate_limits(policy: RetryPolicy, outcomes: Seq<AttemptOutcome>, k: nat)
    requires
        policy.wf(),
        outcomes.len() >= policy.max_attempts,
        1 <= k <= policy.max_attempts,
        forall|j: int| 0 <= j < k - 1 ==> outcomes[j] is RateLimited,
        outcomes[k - 1] is Accepted,
    ensures
        retry_run(policy, outcomes, 1).attempts == k,
        retry_run(policy, outcomes, 1).waited == sum_backoff(policy.base_delay_ms as nat, (k - 1) as nat),
        retry_run(policy, outcomes, 1).verdict == RunVerdict::Succeeded,
{
    lemma_run_prefix(policy, outcomes, k);
}

} // verus!
