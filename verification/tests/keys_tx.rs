use solana_keypair::Keypair;
use solana_signer::Signer;
use xforth::keys::{
    generate_keypair, identity_round_trip, keypair_from_json, keypair_to_json, KeyError,
};
use xforth::txbuild::{
    build_and_sign, mint_creation_intent, signers_cover, transfer_intent, BuildError, Operation,
    TransactionIntent, MINT_ACCOUNT_SPACE, MINT_DECIMALS,
};

#[test]
fn generated_identity_is_a_real_keypair() {
    let id = generate_keypair();
    assert_eq!(id.bytes.len(), 64);
    let kp = Keypair::try_from(id.bytes.as_slice()).expect("generated bytes load as a keypair");
    assert_eq!(kp.pubkey().to_bytes().to_vec(), id.pubkey_bytes());
}

#[test]
fn serialized_material_round_trips_to_the_same_public_key() {
    let id = generate_keypair();
    let text = keypair_to_json(&id);
    let reloaded = keypair_from_json(&text).expect("own serialization loads back");
    assert_eq!(reloaded.bytes, id.bytes);
    assert_eq!(reloaded.pubkey_bytes(), id.pubkey_bytes());
    let again = identity_round_trip(&id);
    assert_eq!(again.pubkey_bytes(), id.pubkey_bytes());
}

#[test]
fn keypair_json_is_the_byte_array_text() {
    let id = generate_keypair();
    let text = keypair_to_json(&id);
    let parsed: Vec<u8> = serde_json::from_str(&text).expect("JSON array of bytes");
    assert_eq!(parsed, id.bytes);
}

#[test]
fn malformed_text_is_refused_as_malformed() {
    assert!(matches!(keypair_from_json("not json at all"), Err(KeyError::Malformed)));
    assert!(matches!(keypair_from_json("{\"a\":1}"), Err(KeyError::Malformed)));
}

#[test]
fn wrong_bytes_are_refused_as_inconsistent() {
    assert!(matches!(keypair_from_json("[1,2,3]"), Err(KeyError::Inconsistent)));
    let zeros = format!("{:?}", vec![0u8; 64]);
    assert!(matches!(keypair_from_json(&zeros), Err(KeyError::Inconsistent)));
}

#[test]
fn mint_intent_is_covered_and_shaped_as_specified() {
    let payer = generate_keypair();
    let mint = generate_keypair();
    let intent = mint_creation_intent(&payer, &mint, 1_461_600);
    assert!(signers_cover(&intent));
    assert_eq!(intent.fee_payer, payer.pubkey_bytes());
    assert_eq!(intent.operations.len(), 2);
    match &intent.operations[0] {
        Operation::CreateAccount { funder, new_account, lamports, space, .. } => {
            assert_eq!(*funder, payer.pubkey_bytes());
            assert_eq!(*new_account, mint.pubkey_bytes());
            assert_eq!(*lamports, 1_461_600);
            assert_eq!(*space, MINT_ACCOUNT_SPACE);
        }
        _ => panic!("expected the create-account operation first"),
    }
    match &intent.operations[1] {
        Operation::InitializeMint { mint: m, authority, decimals } => {
            assert_eq!(*m, mint.pubkey_bytes());
            assert_eq!(*authority, payer.pubkey_bytes());
            assert_eq!(*decimals, MINT_DECIMALS);
        }
        _ => panic!("expected the initialize-mint operation second"),
    }
}

#[test]
fn mint_intent_without_the_mint_signer_is_rejected_before_signing() {
    let payer = generate_keypair();
    let mint = generate_keypair();
    let full = mint_creation_intent(&payer, &mint, 1_461_600);
    let mut signers = full.signers;
    signers.pop();
    let crippled = TransactionIntent {
        operations: full.operations,
        fee_payer: full.fee_payer,
        signers,
    };
    assert!(!signers_cover(&crippled));
    let blockhash = solana_hash::Hash::new_from_array([7u8; 32]);
    match build_and_sign(&crippled, blockhash) {
        Err(BuildError::MissingSigner) => {}
        _ => panic!("expected the missing-signer rejection"),
    }
}

#[test]
fn covered_mint_intent_signs_with_both_keys() {
    let payer = generate_keypair();
    let mint = generate_keypair();
    let intent = mint_creation_intent(&payer, &mint, 1_461_600);
    let blockhash = solana_hash::Hash::new_from_array([7u8; 32]);
    let tx = build_and_sign(&intent, blockhash).expect("a covered intent signs");
    assert_eq!(tx.signatures.len(), 2);
    assert!(tx.is_signed());
}

#[test]
fn transfer_intent_signs_with_the_payer_alone() {
    let payer = generate_keypair();
    let facilitator = generate_keypair();
    let intent = transfer_intent(&payer, &facilitator.pubkey_bytes(), 100_000_000);
    assert!(signers_cover(&intent));
    let blockhash = solana_hash::Hash::new_from_array([9u8; 32]);
    let tx = build_and_sign(&intent, blockhash).expect("a covered transfer signs");
    assert_eq!(tx.signatures.len(), 1);
    assert!(tx.is_signed());
}

#[test]
fn a_superfluous_signer_is_refused_by_the_signing_call() {
    let payer = generate_keypair();
    let bystander = generate_keypair();
    let facilitator = generate_keypair();
    let good = transfer_intent(&payer, &facilitator.pubkey_bytes(), 5);
    let mut signers = good.signers;
    signers.push(bystander);
    let padded = TransactionIntent {
        operations: good.operations,
        fee_payer: good.fee_payer,
        signers,
    };
    assert!(signers_cover(&padded));
    let blockhash = solana_hash::Hash::new_from_array([3u8; 32]);
    match build_and_sign(&padded, blockhash) {
        Err(BuildError::SigningRefused) => {}
        _ => panic!("expected the signing call to refuse a keypair no signature is required from"),
    }
}

#[test]
fn transfer_without_the_source_signer_is_rejected() {
    let payer = generate_keypair();
    let other = generate_keypair();
    let facilitator = generate_keypair();
    let good = transfer_intent(&payer, &facilitator.pubkey_bytes(), 5);
    let crippled = TransactionIntent {
        operations: good.operations,
        fee_payer: good.fee_payer,
        signers: vec![other],
    };
    assert!(!signers_cover(&crippled));
    let blockhash = solana_hash::Hash::new_from_array([9u8; 32]);
    match build_and_sign(&crippled, blockhash) {
        Err(BuildError::MissingSigner) => {}
        _ => panic!("expected the missing-signer rejection"),
    }
}
