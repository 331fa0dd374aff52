use xforth::keys::generate_keypair;
use xforth::orchestrator::{
    fund_flow_scripted, fund_next_stage, funding_policy, mint_descriptor, settlement_report,
    test_payment_intent, transfer_settled, FundStage, TestFlowError, MIN_PAYER_BALANCE_LAMPORTS,
    TRANSFER_LAMPORTS,
};
use xforth::txbuild::Operation;
use xforth::utils::{is_rate_limit_signal, truncate_pubkey};

#[test]
fn funding_policy_matches_the_observed_behaviour() {
    let p = funding_policy();
    assert_eq!(p.max_attempts, 5);
    assert_eq!(p.base_delay_ms, 500);
}

#[test]
fn fund_flow_runs_payer_first_then_facilitator_then_mint() {
    assert_eq!(fund_next_stage(FundStage::FundPayer, true), Some(FundStage::FundFacilitator));
    assert_eq!(fund_next_stage(FundStage::FundFacilitator, true), Some(FundStage::CreateMint));
    assert_eq!(fund_next_stage(FundStage::CreateMint, true), Some(FundStage::RecordMint));
    assert_eq!(fund_next_stage(FundStage::RecordMint, true), Some(FundStage::Done));
}

#[test]
fn any_failed_step_aborts_the_fund_flow() {
    assert_eq!(fund_next_stage(FundStage::FundPayer, false), None);
    assert_eq!(fund_next_stage(FundStage::FundFacilitator, false), None);
    assert_eq!(fund_next_stage(FundStage::CreateMint, false), None);
    assert_eq!(fund_next_stage(FundStage::RecordMint, false), None);
}

#[test]
fn fund_flow_finishes_only_when_every_step_succeeds() {
    let (steps, finished, stopped_at) = fund_flow_scripted(&vec![true, true, true, true]);
    assert_eq!(steps, 4);
    assert!(finished);
    assert_eq!(stopped_at, FundStage::Done);
}

#[test]
fn fund_flow_stops_at_the_first_failed_step() {
    let (steps, finished, stopped_at) = fund_flow_scripted(&vec![true, false, true, true]);
    assert_eq!(steps, 2);
    assert!(!finished);
    assert_eq!(stopped_at, FundStage::FundFacilitator);
    let (steps, finished, stopped_at) = fund_flow_scripted(&vec![true, true, true, false]);
    assert_eq!(steps, 4);
    assert!(!finished);
    assert_eq!(stopped_at, FundStage::RecordMint);
}

#[test]
fn payer_below_the_minimum_aborts_before_building() {
    let payer = generate_keypair();
    let facilitator = generate_keypair();
    let r = test_payment_intent(&payer, &facilitator.pubkey_bytes(), 50_000_000);
    assert!(matches!(r, Err(TestFlowError::InsufficientPayerBalance)));
}

#[test]
fn payer_at_the_minimum_gets_the_fixed_transfer_intent() {
    let payer = generate_keypair();
    let facilitator = generate_keypair();
    let intent = test_payment_intent(
        &payer,
        &facilitator.pubkey_bytes(),
        MIN_PAYER_BALANCE_LAMPORTS,
    )
    .expect("the minimum balance suffices");
    assert_eq!(intent.operations.len(), 1);
    match &intent.operations[0] {
        Operation::Transfer { from, to, lamports } => {
            assert_eq!(*from, payer.pubkey_bytes());
            assert_eq!(*to, facilitator.pubkey_bytes());
            assert_eq!(*lamports, TRANSFER_LAMPORTS);
        }
        _ => panic!("expected a transfer operation"),
    }
}

#[test]
fn mint_descriptor_records_the_key_and_the_precision() {
    let mint = generate_keypair();
    let d = mint_descriptor(&mint);
    assert_eq!(d.mint_pubkey, mint.pubkey_bytes());
    assert_eq!(d.decimals, 6);
}

#[test]
fn confirmed_transfer_settles_with_fee_on_the_payer() {
    let r = settlement_report(1_000_000_000, 899_995_000, 500_000_000, 600_000_000);
    assert_eq!(r.payer_spent, 100_005_000);
    assert_eq!(r.facilitator_gained, 100_000_000);
    assert!(transfer_settled(&r, TRANSFER_LAMPORTS));
}

#[test]
fn a_short_facilitator_gain_does_not_settle() {
    let r = settlement_report(1_000_000_000, 899_995_000, 500_000_000, 599_999_999);
    assert!(!transfer_settled(&r, TRANSFER_LAMPORTS));
}

#[test]
fn truncation_keeps_four_characters_each_side() {
    assert_eq!(truncate_pubkey("4Nd1mBQtrMJVYVfKf2PJy9NZUZdTAsp7D4xWLs4gDB4T"), "4Nd1...DB4T");
    assert_eq!(truncate_pubkey("abcdefghi"), "abcd...fghi");
    assert_eq!(truncate_pubkey("abcdefgh"), "abcdefgh");
    assert_eq!(truncate_pubkey(""), "");
}

#[test]
fn rate_limit_signals_are_recognised() {
    assert!(is_rate_limit_signal(&b"HTTP status client error (429 Too Many Requests)".to_vec()));
    assert!(is_rate_limit_signal(&b"429".to_vec()));
    assert!(is_rate_limit_signal(&b"TOO MANY requests, slow down".to_vec()));
    assert!(!is_rate_limit_signal(&b"insufficient funds for spend".to_vec()));
    assert!(!is_rate_limit_signal(&b"connection refused".to_vec()));
}
