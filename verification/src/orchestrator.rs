use vstd::prelude::*;
use crate::keys::Identity;
use crate::retry::RetryPolicy;
use crate::txbuild::{transfer_intent, Operation, TransactionIntent};

verus! {

/// Base units the payer must hold before the test payment is attempted
/// (0.1 of the native token).
pub const MIN_PAYER_BALANCE_LAMPORTS: u64 = 100_000_000;

/// Base units moved by the test payment (0.1 of the native token).
pub const TRANSFER_LAMPORTS: u64 = 100_000_000;

/// Base units requested for each wallet by the funding flow (0.5 of the
/// native token).
pub const AIRDROP_LAMPORTS: u64 = 500_000_000;

/// How many attempts one funding request makes at most.
pub const MAX_FUNDING_ATTEMPTS: u64 = 5;

/// Backoff before the second funding attempt, in milliseconds.
pub const FUNDING_BASE_DELAY_MS: u64 = 500;

/// How many status polls one confirmation waits at most.
pub const CONFIRM_POLL_BUDGET: u64 = 30;

/// Sleep between status polls, in milliseconds.
pub const POLL_INTERVAL_MS: u64 = 1000;

/// The retry policy the funding flow hands to the executor.
pub fn funding_policy() -> (r: RetryPolicy)
    ensures
        r.max_attempts == MAX_FUNDING_ATTEMPTS,
        r.base_delay_ms == FUNDING_BASE_DELAY_MS,
        r.wf(),
{
    RetryPolicy { max_attempts: MAX_FUNDING_ATTEMPTS, base_delay_ms: FUNDING_BASE_DELAY_MS }
}

/// The steps of the funding flow, in the order they run.
#[derive(Clone, Copy, PartialEq, Eq, Structural, Debug)]
pub enum FundStage {
    /// Request funds for the payer and await confirmation.
    FundPayer,
    /// Request funds for the facilitator and await confirmation.
    FundFacilitator,
    /// Build, sign, submit and confirm the mint-creation transaction.
    CreateMint,
    /// Persist the resulting mint descriptor.
    RecordMint,
    Done,
}

/// Sequencing of the funding flow: the payer is funded first, then the
/// facilitator, then the mint is created and recorded.  Any failed step
/// aborts the remainder; nothing already done is rolled back or retried.
pub fn fund_next_stage(current: FundStage, step_succeeded: bool) -> (r: Option<FundStage>)
    ensures
        !step_succeeded ==> r is None,
        step_succeeded && current == FundStage::FundPayer ==> r == Some(FundStage::FundFacilitator),
        step_succeeded && current == FundStage::FundFacilitator ==> r == Some(FundStage::CreateMint),
        step_succeeded && current == FundStage::CreateMint ==> r == Some(FundStage::RecordMint),
        step_succeeded && current == FundStage::RecordMint ==> r == Some(FundStage::Done),
        step_succeeded && current == FundStage::Done ==> r == Some(FundStage::Done),
{
    if !step_succeeded {
        return None;
    }
    match current {
        FundStage::FundPayer => Some(FundStage::FundFacilitator),
        FundStage::FundFacilitator => Some(FundStage::CreateMint),
        FundStage::CreateMint => Some(FundStage::RecordMint),
        FundStage::RecordMint => Some(FundStage::Done),
        FundStage::Done => Some(FundStage::Done),
    }
}

/// The derived output of the funding flow: the created mint and its decimal
/// precision.  Not a secret; persisted to a side file apart from the
/// identity store.
pub struct MintDescriptor {
    pub mint_pubkey: Vec<u8>,
    pub decimals: u8,
}

/// The descriptor of a mint the funding flow just created.
pub fn mint_descriptor(mint: &Identity) -> (r: MintDescriptor)
    requires
        mint.wf(),
    ensures
        r.mint_pubkey@ == mint.spec_pubkey(),
        r.mint_pubkey@.len() == 32,
        r.decimals == crate::txbuild::MINT_DECIMALS,
{
    MintDescriptor { mint_pubkey: mint.pubkey_bytes(), decimals: crate::txbuild::MINT_DECIMALS }
}

/// How a driven funding flow ended: how many steps ran, whether it finished,
/// and the stage it stopped at.
pub ghost struct FundSummary {
    pub steps: nat,
    pub finished: bool,
    pub stopped_at: FundStage,
}

/// The stage the funding flow is on after `i` completed steps.
pub open spec fn fund_stage_order(i: int) -> FundStage {
    if i == 0 {
        FundStage::FundPayer
    } else if i == 1 {
        FundStage::FundFacilitator
    } else if i == 2 {
        FundStage::CreateMint
    } else {
        FundStage::RecordMint
    }
}

/// The whole funding flow against the results of its four steps, in order:
/// it stops at the first failed step and finishes only when every step
/// succeeded.
pub open spec fn fund_run(results: Seq<bool>) -> FundSummary
    recommends
        results.len() >= 4,
{
    if !results[0] {
        FundSummary { steps: 1, finished: false, stopped_at: FundStage::FundPayer }
    } else if !results[1] {
        FundSummary { steps: 2, finished: false, stopped_at: FundStage::FundFacilitator }
    } else if !results[2] {
        FundSummary { steps: 3, finished: false, stopped_at: FundStage::CreateMint }
    } else if !results[3] {
        FundSummary { steps: 4, finished: false, stopped_at: FundStage::RecordMint }
    } else {
        FundSummary { steps: 4, finished: true, stopped_at: FundStage::Done }
    }
}

/// A whole funding flow against a script of step results, one per stage in
/// order.  The real driver performs the funding requests, the confirmation
/// waits, the mint transaction and the persisting; this function is that
/// sequence with each step replaced by its scripted result.
pub fn fund_flow_scripted(results: &Vec<bool>) -> (r: (u64, bool, FundStage))
    requires
        results.len() >= 4,
    ensures
        r.0 == fund_run(results@).steps,
        r.1 == fund_run(results@).finished,
        r.2 == fund_run(results@).stopped_at,
{
    let mut stage = FundStage::FundPayer;
    let mut idx: usize = 0;
    loop
        invariant
            results.len() >= 4,
            0 <= idx <= 3,
            stage == fund_stage_order(idx as int),
            forall|j: int| 0 <= j < idx ==> results@[j],
        decreases 4 - idx,
    {
        match fund_next_stage(stage, results[idx]) {
            None => {
                return ((idx + 1) as u64, false, stage);
            },
            Some(next) => {
                if next == FundStage::Done {
                    return ((idx + 1) as u64, true, FundStage::Done);
                }
                stage = next;
                idx = idx + 1;
            },
        }
    }
}

/// Why the test flow aborted before submitting anything.
#[derive(Clone, Copy, PartialEq, Eq, Structural, Debug)]
pub enum TestFlowError {
    /// The payer holds less than the fixed minimum; fund the wallets first.
    InsufficientPayerBalance,
}

/// The business-rule gate of the test flow: with the payer below the fixed
/// minimum balance nothing is built or submitted; otherwise the fixed-size
/// transfer intent from the payer to the facilitator is handed back.
pub fn test_payment_intent(
    payer: &Identity,
    facilitator_pk: &Vec<u8>,
    payer_balance_lamports: u64,
) -> (r: Result<TransactionIntent, TestFlowError>)
    requires
        payer.wf(),
        facilitator_pk@.len() == 32,
    ensures
        r is Ok <==> payer_balance_lamports >= MIN_PAYER_BALANCE_LAMPORTS,
        r is Err ==> r == Err::<TransactionIntent, TestFlowError>(
            TestFlowError::InsufficientPayerBalance,
        ),
        r matches Ok(intent) ==> intent.wf() && intent.covers() && intent.signers_exact()
            && intent.fee_payer@ == payer.spec_pubkey() && intent.operations@.len() == 1 && (
        intent.operations@[0] matches Operation::Transfer { from, to, lamports } && from@
            == payer.spec_pubkey() && to@ == facilitator_pk@ && lamports == TRANSFER_LAMPORTS)
            && intent.signers@.len() == 1 && intent.signers@[0]@ == payer@,
{
    if payer_balance_lamports < MIN_PAYER_BALANCE_LAMPORTS {
        return Err(TestFlowError::InsufficientPayerBalance);
    }
    Ok(transfer_intent(payer, facilitator_pk, TRANSFER_LAMPORTS))
}

/// Before-and-after balances of the two parties, with the differences each
/// side saw.
pub struct SettlementReport {
    pub payer_before: u64,
    pub payer_after: u64,
    pub facilitator_before: u64,
    pub facilitator_after: u64,
    /// What the payer's balance went down by; zero if it did not go down.
    pub payer_spent: u64,
    /// What the facilitator's balance went up by; zero if it did not go up.
    pub facilitator_gained: u64,
}

/// Builds the balance report of the test flow from the four balance queries.
pub fn settlement_report(
    payer_before: u64,
    payer_after: u64,
    facilitator_before: u64,
    facilitator_after: u64,
) -> (r: SettlementReport)
    ensures
        r.payer_before == payer_before,
        r.payer_after == payer_after,
        r.facilitator_before == facilitator_before,
        r.facilitator_after == facilitator_after,
        r.payer_spent == if payer_after <= payer_before {
            payer_before - payer_after
        } else {
            0
        },
        r.facilitator_gained == if facilitator_before <= facilitator_after {
            facilitator_after - facilitator_before
        } else {
            0
        },
{
    SettlementReport {
        payer_before,
        payer_after,
        facilitator_before,
        facilitator_after,
        payer_spent: if payer_after <= payer_before {
            payer_before - payer_after
        } else {
            0
        },
        facilitator_gained: if facilitator_before <= facilitator_after {
            facilitator_after - facilitator_before
        } else {
            0
        },
    }
}

/// Whether the report shows a confirmed transfer of `amount` settled: the
/// payer's balance went down by at least the amount (the fee comes on top),
/// and the facilitator's went up by exactly the amount.
pub fn transfer_settled(r: &SettlementReport, amount: u64) -> (b: bool)
    ensures
        b == (r.payer_after <= r.payer_before && r.payer_spent >= amount && r.facilitator_after
            >= r.facilitator_before && r.facilitator_gained == amount),
{
    r.payer_after <= r.payer_before && r.payer_spent >= amount && r.facilitator_after
        >= r.facilitator_before && r.facilitator_gained == amount
}

} // verus!
