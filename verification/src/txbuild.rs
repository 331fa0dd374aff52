use vstd::prelude::*;
use crate::chain::{
    account_meta_readonly, account_meta_signer_key, account_meta_writable, instruction_meta_count,
    instruction_signer_keys, instruction_with_bytes, instrs_signer_keys, metas_signer_keys,
    sys_create_account, sys_transfer, transaction_signer_keys, tx_new_with_payer, tx_try_sign,
};
use crate::keys::{keypair_from_bytes, keypair_pubkey, Identity};
use solana_instruction::{AccountMeta, Instruction};
use solana_keypair::Keypair;
use solana_transaction::Transaction;

verus! {

/// Size in bytes of a token-mint account, the fixed layout the token program
/// expects for a mint.
pub const MINT_ACCOUNT_SPACE: u64 = 82;

/// Decimal precision of the test token mint.
pub const MINT_DECIMALS: u8 = 6;

/// The token program that owns and initializes mint accounts.
pub open spec fn spec_token_program_id() -> Seq<u8> {
    seq![
        6u8, 221u8, 246u8, 225u8, 238u8, 117u8, 143u8, 222u8, 24u8, 66u8, 93u8, 188u8, 228u8,
        108u8, 205u8, 218u8, 182u8, 26u8, 252u8, 77u8, 131u8, 185u8, 13u8, 39u8, 254u8, 189u8,
        249u8, 40u8, 216u8, 161u8, 139u8, 252u8,
    ]
}

/// The rent sysvar account that mint initialization reads.
pub open spec fn spec_rent_sysvar_id() -> Seq<u8> {
    seq![
        6u8, 167u8, 213u8, 23u8, 25u8, 44u8, 92u8, 81u8, 33u8, 140u8, 201u8, 76u8, 61u8, 74u8,
        241u8, 127u8, 88u8, 218u8, 238u8, 8u8, 155u8, 161u8, 253u8, 68u8, 227u8, 219u8, 217u8,
        138u8, 0u8, 0u8, 0u8, 0u8,
    ]
}

/// One operation of a transaction intent, over plain 32-byte account keys.
pub enum Operation {
    /// Create `new_account` with the given balance, size and owning program,
    /// funded by `funder`.  Both accounts must sign.
    CreateAccount { funder: Vec<u8>, new_account: Vec<u8>, lamports: u64, space: u64, owner: Vec<u8> },
    /// Initialize `mint` as a token mint under `authority` with the given
    /// decimal precision.  Needs no signer of its own.
    InitializeMint { mint: Vec<u8>, authority: Vec<u8>, decimals: u8 },
    /// Move `lamports` base units from `from` to `to`.  The source signs.
    Transfer { from: Vec<u8>, to: Vec<u8>, lamports: u64 },
}

/// Every account key of the operation is 32 bytes.
pub open spec fn op_wf(op: Operation) -> bool {
    match op {
        Operation::CreateAccount { funder, new_account, owner, .. } => funder@.len() == 32
            && new_account@.len() == 32 && owner@.len() == 32,
        Operation::InitializeMint { mint, authority, .. } => mint@.len() == 32 && authority@.len()
            == 32,
        Operation::Transfer { from, to, .. } => from@.len() == 32 && to@.len() == 32,
    }
}

/// The public keys of a sequence of identities.
pub open spec fn provided_keys(signers: Seq<Identity>) -> Seq<Seq<u8>> {
    signers.map_values(|id: Identity| id.bytes@.subrange(32, 64))
}

/// The account keys the operation requires a signature from.
pub open spec fn op_signer_keys(op: Operation) -> Set<Seq<u8>> {
    match op {
        Operation::CreateAccount { funder, new_account, .. } => set![funder@, new_account@],
        Operation::InitializeMint { .. } => Set::empty(),
        Operation::Transfer { from, .. } => set![from@],
    }
}

/// The account keys a sequence of operations requires signatures from.
pub open spec fn ops_signer_keys(ops: Seq<Operation>) -> Set<Seq<u8>>
    decreases ops.len(),
{
    if ops.len() == 0 {
        Set::empty()
    } else {
        ops_signer_keys(ops.drop_last()).union(op_signer_keys(ops.last()))
    }
}

/// Every account the operation requires as a signer is among `provided`.
pub open spec fn op_covered(op: Operation, provided: Seq<Seq<u8>>) -> bool {
    match op {
        Operation::CreateAccount { funder, new_account, .. } => provided.contains(funder@)
            && provided.contains(new_account@),
        Operation::InitializeMint { .. } => true,
        Operation::Transfer { from, .. } => provided.contains(from@),
    }
}

/// An ordered sequence of operations, the fee payer, and the identities that
/// will sign the assembled transaction.
pub struct TransactionIntent {
    pub operations: Vec<Operation>,
    pub fee_payer: Vec<u8>,
    pub signers: Vec<Identity>,
}

impl TransactionIntent {
    pub open spec fn wf(self) -> bool {
        self.operations@.len() <= 16 && self.fee_payer@.len() == 32 && (forall|i: int|
            0 <= i < self.operations@.len() ==> op_wf(#[trigger] self.operations@[i])) && (forall|
            j: int,
        | 0 <= j < self.signers@.len() ==> (#[trigger] self.signers@[j]).wf())
    }

    /// Every signer any operation requires, and the fee payer, is present in
    /// the signer set.
    pub open spec fn covers(self) -> bool {
        provided_keys(self.signers@).contains(self.fee_payer@) && (forall|i: int|
            0 <= i < self.operations@.len() ==> op_covered(
                #[trigger] self.operations@[i],
                provided_keys(self.signers@),
            ))
    }

    /// Every key the assembled transaction will require a signature from:
    /// the fee payer and each operation's signers.
    pub open spec fn required_signer_keys(self) -> Set<Seq<u8>> {
        ops_signer_keys(self.operations@).insert(self.fee_payer@)
    }

    /// No identity in the signer set is superfluous: each one's key is
    /// required by the fee payer or by some operation.  Signing refuses a
    /// keypair the transaction requires no signature from, so an intent that
    /// covers its signers signs successfully exactly when this also holds.
    pub open spec fn signers_exact(self) -> bool {
        forall|j: int|
            0 <= j < self.signers@.len() ==> self.required_signer_keys().contains(
                #[trigger] provided_keys(self.signers@)[j],
            )
    }
}

/// A covered intent's signer set provides every required key.
proof fn lemma_ops_keys_covered(ops: Seq<Operation>, provided: Seq<Seq<u8>>)
    requires
        forall|i: int| 0 <= i < ops.len() ==> op_covered(#[trigger] ops[i], provided),
    ensures
        forall|k: Seq<u8>| #[trigger] ops_signer_keys(ops).contains(k) ==> provided.contains(k),
    decreases ops.len(),
{
    if ops.len() > 0 {
        assert(op_covered(ops[ops.len() - 1], provided));
        lemma_ops_keys_covered(ops.drop_last(), provided);
        assert forall|k: Seq<u8>| #[trigger] ops_signer_keys(ops).contains(k) implies provided.contains(
            k,
        ) by {
            if !ops_signer_keys(ops.drop_last()).contains(k) {
                assert(op_signer_keys(ops.last()).contains(k));
                match ops.last() {
                    Operation::CreateAccount { funder, new_account, .. } => {
                        assert(k == funder@ || k == new_account@);
                    },
                    Operation::InitializeMint { .. } => {},
                    Operation::Transfer { from, .. } => {
                        assert(k == from@);
                    },
                }
            }
        }
    }
}

/// A covered intent's signer set provides every key the transaction will
/// require a signature from.
proof fn lemma_covers_provides_required(intent: TransactionIntent)
    requires
        intent.covers(),
    ensures
        forall|k: Seq<u8>| #[trigger] intent.required_signer_keys().contains(k)
            ==> provided_keys(intent.signers@).contains(k),
{
    lemma_ops_keys_covered(intent.operations@, provided_keys(intent.signers@));
    assert forall|k: Seq<u8>| #[trigger] intent.required_signer_keys().contains(k) implies provided_keys(
        intent.signers@,
    ).contains(k) by {
        if k != intent.fee_payer@ {
            assert(ops_signer_keys(intent.operations@).contains(k));
        }
    }
}

/// Why assembling or signing an intent was refused.
#[derive(Clone, Copy, PartialEq, Eq, Structural, Debug)]
pub enum BuildError {
    /// An account that must sign is missing from the intent's signer set;
    /// found before anything touches the network.
    MissingSigner,
    /// The signing call itself refused the prepared keypairs.  With a
    /// covering signer set this arises only from a superfluous signer, one
    /// whose key the transaction requires no signature from.
    SigningRefused,
}

/// A copy of a byte vector.
pub fn copy_bytes(b: &Vec<u8>) -> (r: Vec<u8>)
    ensures
        r@ == b@,
{
    let mut out: Vec<u8> = Vec::new();
    let mut i: usize = 0;
    while i < b.len()
        invariant
            0 <= i <= b.len(),
            out@ == b@.subrange(0, i as int),
        decreases b.len() - i,
    {
        out.push(b[i]);
        proof {
            assert(b@.subrange(0, i + 1) =~= b@.subrange(0, i as int).push(b@[i as int]));
        }
        i = i + 1;
    }
    proof {
        assert(b@.subrange(0, b@.len() as int) =~= b@);
    }
    out
}

/// Whether two byte vectors hold the same bytes.
pub fn bytes_eq(a: &Vec<u8>, b: &Vec<u8>) -> (r: bool)
    ensures
        r == (a@ == b@),
{
    if a.len() != b.len() {
        return false;
    }
    let mut i: usize = 0;
    while i < a.len()
        invariant
            a.len() == b.len(),
            0 <= i <= a.len(),
            forall|j: int| 0 <= j < i ==> a@[j] == b@[j],
        decreases a.len() - i,
    {
        if a[i] != b[i] {
            return false;
        }
        i = i + 1;
    }
    proof {
        assert(a@ =~= b@);
    }
    true
}

/// Whether `key` is the public key of one of the identities.
fn has_signer(signers: &Vec<Identity>, key: &Vec<u8>) -> (r: bool)
    requires
        forall|j: int| 0 <= j < signers@.len() ==> (#[trigger] signers@[j]).wf(),
    ensures
        r == provided_keys(signers@).contains(key@),
{
    let mut j: usize = 0;
    while j < signers.len()
        invariant
            forall|k: int| 0 <= k < signers@.len() ==> (#[trigger] signers@[k]).wf(),
            0 <= j <= signers@.len(),
            forall|k: int| 0 <= k < j ==> provided_keys(signers@)[k] != key@,
        decreases signers.len() - j,
    {
        let pk = signers[j].pubkey_bytes();
        if bytes_eq(&pk, key) {
            proof {
                assert(provided_keys(signers@)[j as int] == key@);
            }
            return true;
        }
        j = j + 1;
    }
    proof {
        assert(provided_keys(signers@).len() == signers@.len());
    }
    false
}

/// Whether the intent's signer set covers the fee payer and every signer its
/// operations require.
pub fn signers_cover(intent: &TransactionIntent) -> (r: bool)
    requires
        intent.wf(),
    ensures
        r == intent.covers(),
{
    if !has_signer(&intent.signers, &intent.fee_payer) {
        return false;
    }
    let mut i: usize = 0;
    while i < intent.operations.len()
        invariant
            intent.wf(),
            0 <= i <= intent.operations@.len(),
            provided_keys(intent.signers@).contains(intent.fee_payer@),
            forall|k: int| 0 <= k < i ==> op_covered(
                #[trigger] intent.operations@[k],
                provided_keys(intent.signers@),
            ),
        decreases intent.operations.len() - i,
    {
        match &intent.operations[i] {
            Operation::CreateAccount { funder, new_account, .. } => {
                if !has_signer(&intent.signers, funder) {
                    return false;
                }
                if !has_signer(&intent.signers, new_account) {
                    return false;
                }
            },
            Operation::InitializeMint { .. } => {},
            Operation::Transfer { from, .. } => {
                if !has_signer(&intent.signers, from) {
                    return false;
                }
            },
        }
        i = i + 1;
    }
    true
}

/// Law: an intent one of whose operations references a required signer that
/// the signer set does not provide is not covered, so assembly rejects it
/// before any network contact.
pub proof fn lemma_missing_signer_not_covered(intent: TransactionIntent, i: int)
    requires
        0 <= i < intent.operations@.len(),
        !op_covered(intent.operations@[i], provided_keys(intent.signers@)),
    ensures
        !intent.covers(),
{
}

/// Law: a mint-creation intent whose signer set holds only the fee payer,
/// the fresh mint identity omitted, is not covered, so assembly rejects it
/// with a missing-signer error before any network contact.  Needs only that
/// the fresh mint's key differs from the payer's, which freshness
/// presupposes.
pub proof fn lemma_payer_only_signers_miss_the_mint(
    intent: TransactionIntent,
    payer_key: Seq<u8>,
    mint_key: Seq<u8>,
)
    requires
        payer_key != mint_key,
        0 < intent.operations@.len(),
        (intent.operations@[0] matches Operation::CreateAccount { new_account, .. } && new_account@
            == mint_key),
        forall|j: int|
            0 <= j < intent.signers@.len() ==> #[trigger] provided_keys(intent.signers@)[j]
                == payer_key,
    ensures
        !intent.covers(),
{
    if intent.covers() {
        assert(op_covered(intent.operations@[0], provided_keys(intent.signers@)));
        assert(provided_keys(intent.signers@).contains(mint_key));
        let j = choose|j: int|
            0 <= j < provided_keys(intent.signers@).len() && provided_keys(intent.signers@)[j]
                == mint_key;
        assert(provided_keys(intent.signers@).len() == intent.signers@.len());
        assert(false);
    }
}

/// The raw data of a mint-initialization instruction: its tag, the decimal
/// precision, the mint authority, and no freeze authority.
pub open spec fn initialize_mint_data(decimals: u8, authority: Seq<u8>) -> Seq<u8> {
    seq![0u8, decimals] + authority + seq![0u8]
}

/// The 32-byte token program id.
pub fn token_program_id_bytes() -> (r: Vec<u8>)
    ensures
        r@ == spec_token_program_id(),
{
    let v: Vec<u8> = vec![
        6u8, 221u8, 246u8, 225u8, 238u8, 117u8, 143u8, 222u8, 24u8, 66u8, 93u8, 188u8, 228u8,
        108u8, 205u8, 218u8, 182u8, 26u8, 252u8, 77u8, 131u8, 185u8, 13u8, 39u8, 254u8, 189u8,
        249u8, 40u8, 216u8, 161u8, 139u8, 252u8,
    ];
    proof {
        assert(v@ =~= spec_token_program_id());
    }
    v
}

/// The 32-byte rent sysvar id.
pub fn rent_sysvar_id_bytes() -> (r: Vec<u8>)
    ensures
        r@ == spec_rent_sysvar_id(),
{
    let v: Vec<u8> = vec![
        6u8, 167u8, 213u8, 23u8, 25u8, 44u8, 92u8, 81u8, 33u8, 140u8, 201u8, 76u8, 61u8, 74u8,
        241u8, 127u8, 88u8, 218u8, 238u8, 8u8, 155u8, 161u8, 253u8, 68u8, 227u8, 219u8, 217u8,
        138u8, 0u8, 0u8, 0u8, 0u8,
    ];
    proof {
        assert(v@ =~= spec_rent_sysvar_id());
    }
    v
}

/// The raw bytes of a mint-initialization instruction.
fn build_initialize_mint_data(decimals: u8, authority: &Vec<u8>) -> (r: Vec<u8>)
    requires
        authority@.len() == 32,
    ensures
        r@ == initialize_mint_data(decimals, authority@),
{
    let mut data: Vec<u8> = Vec::new();
    data.push(0u8);
    data.push(decimals);
    let mut i: usize = 0;
    while i < authority.len()
        invariant
            authority@.len() == 32,
            0 <= i <= 32,
            data@ == seq![0u8, decimals] + authority@.subrange(0, i as int),
        decreases authority.len() - i,
    {
        data.push(authority[i]);
        proof {
            assert(seq![0u8, decimals] + authority@.subrange(0, i + 1) =~= (seq![0u8, decimals]
                + authority@.subrange(0, i as int)).push(authority@[i as int]));
        }
        i = i + 1;
    }
    data.push(0u8);
    proof {
        assert(authority@.subrange(0, 32) =~= authority@);
        assert(data@ =~= initialize_mint_data(decimals, authority@));
    }
    data
}

/// The mint-initialization instruction for the token program: the mint
/// account writable, the rent sysvar read-only, and the packed data bytes.
/// It requires no signature of its own.
fn initialize_mint_instruction(mint: &Vec<u8>, authority: &Vec<u8>, decimals: u8) -> (r:
    Instruction)
    requires
        mint@.len() == 32,
        authority@.len() == 32,
    ensures
        instruction_meta_count(r) == 2,
        instruction_signer_keys(r) == Set::<Seq<u8>>::empty(),
{
    let data = build_initialize_mint_data(decimals, authority);
    let mut metas: Vec<AccountMeta> = Vec::new();
    metas.push(account_meta_writable(mint, false));
    metas.push(account_meta_readonly(&rent_sysvar_id_bytes(), false));
    proof {
        assert(account_meta_signer_key(metas@[0]) is None);
        assert(account_meta_signer_key(metas@[1]) is None);
        assert(metas@.drop_last().drop_last() =~= Seq::<AccountMeta>::empty());
        assert(metas@.drop_last().drop_last() == Seq::<AccountMeta>::empty());
        assert(metas_signer_keys(Seq::<AccountMeta>::empty()) == Set::<Seq<u8>>::empty());
        assert(metas@.drop_last().last() == metas@[0]);
        assert(metas@.last() == metas@[1]);
        assert(metas_signer_keys(metas@.drop_last()) =~= Set::<Seq<u8>>::empty());
        assert(metas_signer_keys(metas@) =~= Set::<Seq<u8>>::empty());
    }
    instruction_with_bytes(&token_program_id_bytes(), &data, metas)
}

/// Assembles and signs an intent against a recent blockhash, or says exactly
/// why not: a required signer missing from the signer set is found here,
/// before anything touches the network, and a signer set that provides
/// exactly the required keys — as every intent this library builds does —
/// is promised to sign.  The signed transaction requires signatures from
/// exactly the intent's required keys.
pub fn build_and_sign(intent: &TransactionIntent, blockhash: solana_hash::Hash) -> (r: Result<
    Transaction,
    BuildError,
>)
    requires
        intent.wf(),
    ensures
        r == Err::<Transaction, BuildError>(BuildError::MissingSigner) <==> !intent.covers(),
        intent.covers() ==> (r is Ok || r == Err::<Transaction, BuildError>(
            BuildError::SigningRefused,
        )),
        intent.covers() && intent.signers_exact() ==> r is Ok,
        r matches Ok(t) ==> transaction_signer_keys(t) == intent.required_signer_keys(),
{
    if !signers_cover(intent) {
        return Err(BuildError::MissingSigner);
    }
    let mut instrs: Vec<Instruction> = Vec::new();
    let mut i: usize = 0;
    while i < intent.operations.len()
        invariant
            intent.wf(),
            0 <= i <= intent.operations@.len(),
            instrs@.len() == i,
            instrs_signer_keys(instrs@) == ops_signer_keys(intent.operations@.take(i as int)),
            forall|k: int| 0 <= k < i ==> instruction_meta_count(#[trigger] instrs@[k]) <= 8,
        decreases intent.operations.len() - i,
    {
        proof {
            assert(op_wf(intent.operations@[i as int]));
        }
        let ghost prev = instrs@;
        match &intent.operations[i] {
            Operation::CreateAccount { funder, new_account, lamports, space, owner } => {
                let ix = sys_create_account(funder, new_account, *lamports, *space, owner);
                proof {
                    assert(instruction_signer_keys(ix) == op_signer_keys(
                        intent.operations@[i as int],
                    ));
                }
                instrs.push(ix);
            },
            Operation::InitializeMint { mint, authority, decimals } => {
                let ix = initialize_mint_instruction(mint, authority, *decimals);
                proof {
                    assert(instruction_signer_keys(ix) == op_signer_keys(
                        intent.operations@[i as int],
                    ));
                }
                instrs.push(ix);
            },
            Operation::Transfer { from, to, lamports } => {
                let ix = sys_transfer(from, to, *lamports);
                proof {
                    assert(instruction_signer_keys(ix) == op_signer_keys(
                        intent.operations@[i as int],
                    ));
                }
                instrs.push(ix);
            },
        }
        proof {
            assert(instrs@.drop_last() =~= prev);
            assert(instrs_signer_keys(instrs@) == instrs_signer_keys(prev).union(
                instruction_signer_keys(instrs@.last()),
            ));
            assert(intent.operations@.take(i + 1).drop_last() =~= intent.operations@.take(i as int));
            assert(intent.operations@.take(i + 1).last() == intent.operations@[i as int]);
            assert(ops_signer_keys(intent.operations@.take(i + 1)) == ops_signer_keys(
                intent.operations@.take(i as int),
            ).union(op_signer_keys(intent.operations@[i as int])));
        }
        i = i + 1;
    }
    proof {
        assert(intent.operations@.take(intent.operations@.len() as int) =~= intent.operations@);
    }
    let mut tx = tx_new_with_payer(&instrs, &intent.fee_payer);
    let mut keypairs: Vec<Keypair> = Vec::new();
    let mut j: usize = 0;
    while j < intent.signers.len()
        invariant
            intent.wf(),
            0 <= j <= intent.signers@.len(),
            keypairs@.len() == j,
            transaction_signer_keys(tx) == intent.required_signer_keys(),
            forall|m: int|
                0 <= m < j ==> keypair_pubkey(#[trigger] keypairs@[m]) == provided_keys(
                    intent.signers@,
                )[m],
        decreases intent.signers.len() - j,
    {
        proof {
            assert(intent.signers@[j as int].wf());
        }
        match keypair_from_bytes(&intent.signers[j].bytes) {
            Ok(kp) => {
                proof {
                    assert(keypair_pubkey(kp) == provided_keys(intent.signers@)[j as int]);
                }
                keypairs.push(kp);
            },
            Err(_) => {
                return vstd::pervasive::unreached();
            },
        }
        j = j + 1;
    }
    proof {
        if intent.covers() && intent.signers_exact() {
            lemma_covers_provides_required(*intent);
            assert forall|m: int|
                0 <= m < keypairs@.len() implies transaction_signer_keys(tx).contains(
                keypair_pubkey(#[trigger] keypairs@[m]),
            ) by {
                assert(keypair_pubkey(keypairs@[m]) == provided_keys(intent.signers@)[m]);
                assert(intent.required_signer_keys().contains(provided_keys(intent.signers@)[m]));
            }
            assert forall|k: Seq<u8>| #[trigger]
                transaction_signer_keys(tx).contains(k) implies (exists|m: int|
                0 <= m < keypairs@.len() && keypair_pubkey(#[trigger] keypairs@[m]) == k) by {
                assert(intent.required_signer_keys().contains(k));
                assert(provided_keys(intent.signers@).contains(k));
                let m = choose|m: int|
                    0 <= m < provided_keys(intent.signers@).len() && provided_keys(
                        intent.signers@,
                    )[m] == k;
                assert(keypair_pubkey(keypairs@[m]) == k);
            }
        }
    }
    match tx_try_sign(&mut tx, &keypairs, blockhash) {
        Ok(_) => Ok(tx),
        Err(_) => Err(BuildError::SigningRefused),
    }
}

/// The funding-flow intent: create a fresh account for the mint identity,
/// funded with the rent-exempt balance, then initialize it as a token mint
/// with the fixed decimal precision; the fee payer and the mint both sign.
pub fn mint_creation_intent(payer: &Identity, mint: &Identity, rent_lamports: u64) -> (r:
    TransactionIntent)
    requires
        payer.wf(),
        mint.wf(),
    ensures
        r.wf(),
        r.covers(),
        r.fee_payer@ == payer.spec_pubkey(),
        r.operations@.len() == 2,
        (r.operations@[0] matches Operation::CreateAccount { funder, new_account, lamports, space, owner }
            && funder@ == payer.spec_pubkey() && new_account@ == mint.spec_pubkey() && lamports
            == rent_lamports && space == MINT_ACCOUNT_SPACE && owner@ == spec_token_program_id()),
        (r.operations@[1] matches Operation::InitializeMint { mint: m, authority, decimals } && m@
            == mint.spec_pubkey() && authority@ == payer.spec_pubkey() && decimals
            == MINT_DECIMALS),
        r.signers@.len() == 2,
        r.signers@[0]@ == payer@,
        r.signers@[1]@ == mint@,
        r.signers_exact(),
{
    let payer_pk = payer.pubkey_bytes();
    let mint_pk = mint.pubkey_bytes();
    let mut operations: Vec<Operation> = Vec::new();
    operations.push(
        Operation::CreateAccount {
            funder: copy_bytes(&payer_pk),
            new_account: copy_bytes(&mint_pk),
            lamports: rent_lamports,
            space: MINT_ACCOUNT_SPACE,
            owner: token_program_id_bytes(),
        },
    );
    operations.push(
        Operation::InitializeMint {
            mint: copy_bytes(&mint_pk),
            authority: copy_bytes(&payer_pk),
            decimals: MINT_DECIMALS,
        },
    );
    let mut signers: Vec<Identity> = Vec::new();
    signers.push(Identity { bytes: copy_bytes(&payer.bytes) });
    signers.push(Identity { bytes: copy_bytes(&mint.bytes) });
    let r = TransactionIntent { operations, fee_payer: payer_pk, signers };
    proof {
        assert(provided_keys(r.signers@)[0] == payer.spec_pubkey());
        assert(provided_keys(r.signers@)[1] == mint.spec_pubkey());
        assert(provided_keys(r.signers@).contains(r.fee_payer@));
        assert(op_covered(r.operations@[0], provided_keys(r.signers@)));
        assert(op_covered(r.operations@[1], provided_keys(r.signers@)));
        assert(r.operations@.drop_last() =~= seq![r.operations@[0]]);
        assert(r.operations@.last() == r.operations@[1]);
        assert(seq![r.operations@[0]].drop_last() =~= Seq::<Operation>::empty());
        assert(seq![r.operations@[0]].drop_last() == Seq::<Operation>::empty());
        assert(ops_signer_keys(Seq::<Operation>::empty()) == Set::<Seq<u8>>::empty());
        assert(seq![r.operations@[0]].last() == r.operations@[0]);
        assert(op_signer_keys(r.operations@[0]) == set![payer.spec_pubkey(), mint.spec_pubkey()]);
        assert(op_signer_keys(r.operations@[1]) == Set::<Seq<u8>>::empty());
        assert(ops_signer_keys(r.operations@) == ops_signer_keys(seq![r.operations@[0]]).union(
            op_signer_keys(r.operations@[1]),
        ));
        assert(ops_signer_keys(r.operations@).contains(payer.spec_pubkey()));
        assert(ops_signer_keys(r.operations@).contains(mint.spec_pubkey()));
        assert forall|j: int|
            0 <= j < r.signers@.len() implies r.required_signer_keys().contains(
            #[trigger] provided_keys(r.signers@)[j],
        ) by {
            if j == 0 {
                assert(r.required_signer_keys().contains(payer.spec_pubkey()));
            } else {
                assert(r.required_signer_keys().contains(mint.spec_pubkey()));
            }
        }
    }
    r
}

/// The test-payment intent: one value transfer from the payer to the
/// recipient, signed by the payer alone.
pub fn transfer_intent(payer: &Identity, recipient: &Vec<u8>, lamports: u64) -> (r:
    TransactionIntent)
    requires
        payer.wf(),
        recipient@.len() == 32,
    ensures
        r.wf(),
        r.covers(),
        r.fee_payer@ == payer.spec_pubkey(),
        r.operations@.len() == 1,
        (r.operations@[0] matches Operation::Transfer { from, to, lamports: amount } && from@
            == payer.spec_pubkey() && to@ == recipient@ && amount == lamports),
        r.signers@.len() == 1,
        r.signers@[0]@ == payer@,
        r.signers_exact(),
{
    let payer_pk = payer.pubkey_bytes();
    let mut operations: Vec<Operation> = Vec::new();
    operations.push(
        Operation::Transfer {
            from: copy_bytes(&payer_pk),
            to: copy_bytes(recipient),
            lamports,
        },
    );
    let mut signers: Vec<Identity> = Vec::new();
    signers.push(Identity { bytes: copy_bytes(&payer.bytes) });
    let r = TransactionIntent { operations, fee_payer: payer_pk, signers };
    proof {
        assert(provided_keys(r.signers@)[0] == payer.spec_pubkey());
        assert(provided_keys(r.signers@).contains(r.fee_payer@));
        assert(op_covered(r.operations@[0], provided_keys(r.signers@)));
        assert(r.operations@.drop_last() =~= Seq::<Operation>::empty());
        assert(r.operations@.drop_last() == Seq::<Operation>::empty());
        assert(ops_signer_keys(Seq::<Operation>::empty()) == Set::<Seq<u8>>::empty());
        assert(r.operations@.last() == r.operations@[0]);
        assert(op_signer_keys(r.operations@[0]) == set![payer.spec_pubkey()]);
        assert(ops_signer_keys(r.operations@) == Set::<Seq<u8>>::empty().union(op_signer_keys(
            r.operations@[0],
        )));
        assert forall|j: int|
            0 <= j < r.signers@.len() implies r.required_signer_keys().contains(
            #[trigger] provided_keys(r.signers@)[j],
        ) by {
            assert(ops_signer_keys(r.operations@).contains(payer.spec_pubkey()));
        }
    }
    r
}

} // verus!
