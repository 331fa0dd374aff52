use vstd::prelude::*;

verus! {

/// What one status query for a submitted transaction came back with.
pub enum StatusEvent {
    /// The network knows nothing about the receipt yet.
    Absent,
    /// The transaction was processed and succeeded on chain.
    Succeeded,
    /// The transaction was processed and failed on chain; detail kept.
    FailedOnChain(String),
}

/// Terminal outcome of confirmation polling.
pub enum ConfirmationOutcome {
    /// On-chain success; the payload is the receipt id that was confirmed.
    Confirmed(String),
    /// On-chain failure; the payload is the error detail.
    Failed(String),
    /// The polling budget ran out while the status was still absent; the
    /// true outcome is unknown.
    TimedOut,
}

/// What the poller asks its driver to do after one status query.
pub enum PollDecision {
    /// Stop: the transaction succeeded on chain.
    Confirmed,
    /// Stop: the transaction failed on chain; the payload is the detail.
    Failed(String),
    /// Stop: the budget is spent and the status is still absent.
    TimedOut,
    /// Sleep one poll interval, then query again.
    WaitThenPoll,
}

/// How a finished polling run ended.
#[derive(Clone, Copy, PartialEq, Eq, Structural, Debug)]
pub enum PollVerdict {
    Confirmed,
    Failed,
    TimedOut,
}

/// Poll count, verdict and failure detail of a finished polling run.
pub ghost struct PollSummary {
    pub polls: nat,
    pub verdict: PollVerdict,
    pub detail: Seq<char>,
}

/// The whole polling run from poll number `k` (1-indexed) on, against the
/// sequence of statuses the network would hand back on each query.
pub open spec fn poll_run(budget: nat, events: Seq<StatusEvent>, k: nat) -> PollSummary
    recommends
        events.len() >= budget,
    decreases budget - k,
        when 1 <= k <= budget
{
    match events[k - 1] {
        StatusEvent::Succeeded => PollSummary { polls: k, verdict: PollVerdict::Confirmed, detail: Seq::empty() },
        StatusEvent::FailedOnChain(e) => PollSummary { polls: k, verdict: PollVerdict::Failed, detail: e@ },
        StatusEvent::Absent => {
            if k < budget {
                poll_run(budget, events, k + 1)
            } else {
                PollSummary { polls: k, verdict: PollVerdict::TimedOut, detail: Seq::empty() }
            }
        },
    }
}

/// One step of the poller: poll number `poll_number` (1-indexed) has just
/// come back with `ev`; decide what the driver does next.
///
/// A present status ends the run at once, successfully or not; an absent one
/// is waited out until the budget is spent, and only then reported as a
/// timeout.  The submission itself is never retried here.
pub fn poll_step(budget: u64, poll_number: u64, ev: StatusEvent) -> (d: PollDecision)
    requires
        1 <= poll_number <= budget,
    ensures
        (ev matches StatusEvent::Succeeded ==> d is Confirmed),
        (ev matches StatusEvent::FailedOnChain(e) ==> (d matches PollDecision::Failed(ee) && ee@ == e@)),
        (ev matches StatusEvent::Absent ==> ((poll_number < budget ==> d is WaitThenPoll) && (
        poll_number == budget ==> d is TimedOut))),
{
    match ev {
        StatusEvent::Succeeded => PollDecision::Confirmed,
        StatusEvent::FailedOnChain(e) => PollDecision::Failed(e),
        StatusEvent::Absent => {
            if poll_number < budget {
                PollDecision::WaitThenPoll
            } else {
                PollDecision::TimedOut
            }
        },
    }
}

/// A whole polling run against a script of statuses, one per query the run
/// could make: returns how many polls were made and the terminal outcome.
/// The real driver performs the status query and the sleeps; this function is
/// that loop with the queries replaced by the script.
pub fn await_scripted(receipt: &str, budget: u64, events: &Vec<StatusEvent>) -> (r: (u64, ConfirmationOutcome))
    requires
        1 <= budget,
        events.len() >= budget,
    ensures
        r.0 == poll_run(budget as nat, events@, 1).polls,
        (poll_run(budget as nat, events@, 1).verdict == PollVerdict::Confirmed ==> (r.1 matches
            ConfirmationOutcome::Confirmed(rc) && rc@ == receipt@)),
        (poll_run(budget as nat, events@, 1).verdict == PollVerdict::Failed ==> (r.1 matches
            ConfirmationOutcome::Failed(e) && e@ == poll_run(budget as nat, events@, 1).detail)),
        (poll_run(budget as nat, events@, 1).verdict == PollVerdict::TimedOut ==> r.1 is TimedOut),
{
    let mut k: u64 = 1;
    loop
        invariant
            1 <= budget,
            events.len() >= budget,
            1 <= k <= budget,
            forall|j: int| 0 <= j < k - 1 ==> events@[j] is Absent,
        decreases budget - k,
    {
        proof {
            lemma_poll_prefix(budget as nat, events@, k as nat);
        }
        match &events[k as usize - 1] {
            StatusEvent::Succeeded => {
                return (k, ConfirmationOutcome::Confirmed(receipt.to_owned()));
            },
            StatusEvent::FailedOnChain(e) => {
                return (k, ConfirmationOutcome::Failed(e.clone()));
            },
            StatusEvent::Absent => {
                if k < budget {
                    k = k + 1;
                } else {
                    return (k, ConfirmationOutcome::TimedOut);
                }
            },
        }
    }
}

/// A run whose first `k - 1` statuses are all absent behaves, from poll 1,
/// exactly like the run from poll `k`.
proof fn lemma_poll_prefix(budget: nat, events: Seq<StatusEvent>, k: nat)
    requires
        events.len() >= budget,
        1 <= k <= budget,
        forall|j: int| 0 <= j < k - 1 ==> events[j] is Absent,
    ensures
        poll_run(budget, events, 1) == poll_run(budget, events, k),
    decreases k,
{
    if k > 1 {
        lemma_poll_prefix(budget, events, (k - 1) as nat);
    }
}

/// Law: a success status on poll `k`, after nothing but absent statuses,
/// confirms at once: exactly `k` polls are made even if budget remains.
pub proof fn lemma_confirmed_at_first_success(budget: nat, events: Seq<StatusEvent>, k: nat)
    requires
        events.len() >= budget,
        1 <= k <= budget,
        forall|j: int| 0 <= j < k - 1 ==> events[j] is Absent,
        events[k - 1] is Succeeded,
    ensures
        poll_run(budget, events, 1).polls == k,
        poll_run(budget, events, 1).verdict == PollVerdict::Confirmed,
{
    lemma_poll_prefix(budget, events, k);
}

/// The run from poll `k` times out exactly when every remaining status within
/// the budget is absent.
proof fn lemma_timeout_iff_from(budget: nat, events: Seq<StatusEvent>, k: nat)
    requires
        events.len() >= budget,
        1 <= k <= budget,
    ensures
        poll_run(budget, events, k).verdict == PollVerdict::TimedOut <==> (forall|j: int|
            k - 1 <= j < budget ==> events[j] is Absent),
    decreases budget - k,
{
    if events[k - 1] is Absent && k < budget {
        lemma_timeout_iff_from(budget, events, k + 1);
    }
}

/// Law: the poller times out if and only if every poll within the budget
/// observes an absent status.
pub proof fn lemma_timed_out_iff_all_absent(budget: nat, events: Seq<StatusEvent>)
    requires
        events.len() >= budget,
        1 <= budget,
    ensures
        poll_run(budget, events, 1).verdict == PollVerdict::TimedOut <==> (forall|j: int|
            0 <= j < budget ==> events[j] is Absent),
{
    lemma_timeout_iff_from(budget, events, 1);
}

} // verus!
