use vstd::prelude::*;
use crate::keys::keypair_pubkey;
use solana_instruction::{AccountMeta, Instruction};
use solana_keypair::Keypair;
use solana_pubkey::Pubkey;
use solana_transaction::Transaction;

verus! {

#[verifier::external_type_specification]
#[verifier::external_body]
pub struct ExInstruction(Instruction);

#[verifier::external_type_specification]
#[verifier::external_body]
pub struct ExAccountMeta(AccountMeta);

#[verifier::external_type_specification]
#[verifier::external_body]
pub struct ExTransaction(Transaction);

#[verifier::external_type_specification]
#[verifier::external_body]
pub struct ExHash(solana_hash::Hash);

/// How many account references an instruction holds.
pub uninterp spec fn instruction_meta_count(ix: Instruction) -> nat;

/// The key of an account reference that demands a signature, if it does.
pub uninterp spec fn account_meta_signer_key(m: AccountMeta) -> Option<Seq<u8>>;

/// The account keys an instruction marks as required signers.
pub uninterp spec fn instruction_signer_keys(ix: Instruction) -> Set<Seq<u8>>;

/// The account keys a transaction's compiled message requires signatures
/// from: its fee payer and every key an instruction marks as a signer.
pub uninterp spec fn transaction_signer_keys(t: Transaction) -> Set<Seq<u8>>;

/// The signer keys of a sequence of account references.
pub open spec fn metas_signer_keys(metas: Seq<AccountMeta>) -> Set<Seq<u8>>
    decreases metas.len(),
{
    if metas.len() == 0 {
        Set::empty()
    } else {
        let rest = metas_signer_keys(metas.drop_last());
        match account_meta_signer_key(metas.last()) {
            Some(k) => rest.insert(k),
            None => rest,
        }
    }
}

/// The signer keys of a sequence of instructions.
pub open spec fn instrs_signer_keys(instrs: Seq<Instruction>) -> Set<Seq<u8>>
    decreases instrs.len(),
{
    if instrs.len() == 0 {
        Set::empty()
    } else {
        instrs_signer_keys(instrs.drop_last()).union(instruction_signer_keys(instrs.last()))
    }
}

/// Relies on solana_system_interface::instruction::create_account: the
/// create-account operation of the system program, holding two account
/// references, with the funder and the new account as its required signers.
#[verifier::external_body]
pub(crate) fn sys_create_account(
    funder: &Vec<u8>,
    new_account: &Vec<u8>,
    lamports: u64,
    space: u64,
    owner: &Vec<u8>,
) -> (r: Instruction)
    requires
        funder@.len() == 32,
        new_account@.len() == 32,
        owner@.len() == 32,
    ensures
        instruction_meta_count(r) == 2,
        instruction_signer_keys(r) == set![funder@, new_account@],
{
    let f = Pubkey::new_from_array(funder.as_slice().try_into().unwrap());
    let n = Pubkey::new_from_array(new_account.as_slice().try_into().unwrap());
    let o = Pubkey::new_from_array(owner.as_slice().try_into().unwrap());
    solana_system_interface::instruction::create_account(&f, &n, lamports, space, &o)
}

/// Relies on solana_system_interface::instruction::transfer: the value
/// transfer operation of the system program, holding two account references,
/// with the source as its only required signer.
#[verifier::external_body]
pub(crate) fn sys_transfer(from: &Vec<u8>, to: &Vec<u8>, lamports: u64) -> (r: Instruction)
    requires
        from@.len() == 32,
        to@.len() == 32,
    ensures
        instruction_meta_count(r) == 2,
        instruction_signer_keys(r) == set![from@],
{
    let f = Pubkey::new_from_array(from.as_slice().try_into().unwrap());
    let t = Pubkey::new_from_array(to.as_slice().try_into().unwrap());
    solana_system_interface::instruction::transfer(&f, &t, lamports)
}

/// Relies on solana_instruction::AccountMeta::new: a writable account
/// reference for an instruction, a required signer exactly when asked to be.
#[verifier::external_body]
pub(crate) fn account_meta_writable(key: &Vec<u8>, is_signer: bool) -> (r: AccountMeta)
    requires
        key@.len() == 32,
    ensures
        account_meta_signer_key(r) == (if is_signer {
            Some(key@)
        } else {
            None::<Seq<u8>>
        }),
{
    AccountMeta::new(Pubkey::new_from_array(key.as_slice().try_into().unwrap()), is_signer)
}

/// Relies on solana_instruction::AccountMeta::new_readonly: a read-only
/// account reference for an instruction, a required signer exactly when
/// asked to be.
#[verifier::external_body]
pub(crate) fn account_meta_readonly(key: &Vec<u8>, is_signer: bool) -> (r: AccountMeta)
    requires
        key@.len() == 32,
    ensures
        account_meta_signer_key(r) == (if is_signer {
            Some(key@)
        } else {
            None::<Seq<u8>>
        }),
{
    AccountMeta::new_readonly(Pubkey::new_from_array(key.as_slice().try_into().unwrap()), is_signer)
}

/// Relies on solana_instruction::Instruction::new_with_bytes: an instruction
/// for the given program, with the given raw data and account references,
/// whose required signers are the references marked as signers.
#[verifier::external_body]
pub(crate) fn instruction_with_bytes(
    program_id: &Vec<u8>,
    data: &Vec<u8>,
    accounts: Vec<AccountMeta>,
) -> (r: Instruction)
    requires
        program_id@.len() == 32,
        accounts@.len() <= 8,
    ensures
        instruction_meta_count(r) == accounts@.len(),
        instruction_signer_keys(r) == metas_signer_keys(accounts@),
{
    let p = Pubkey::new_from_array(program_id.as_slice().try_into().unwrap());
    Instruction::new_with_bytes(p, data.as_slice(), accounts)
}

/// Relies on solana_transaction::Transaction::new_with_payer: an unsigned
/// transaction holding the instructions in order, whose compiled message
/// requires signatures from the fee payer and from every key an instruction
/// marks as a signer.  Message compilation refuses more than 255 distinct
/// account keys; the bounds here admit at most 16 instructions of at most 8
/// account references each, so at most 16 * 9 + 1 = 145 distinct keys.
#[verifier::external_body]
pub(crate) fn tx_new_with_payer(instructions: &Vec<Instruction>, payer: &Vec<u8>) -> (r:
    Transaction)
    requires
        payer@.len() == 32,
        instructions@.len() <= 16,
        forall|i: int|
            0 <= i < instructions@.len() ==> instruction_meta_count(#[trigger] instructions@[i])
                <= 8,
    ensures
        transaction_signer_keys(r) == instrs_signer_keys(instructions@).insert(payer@),
{
    let p = Pubkey::new_from_array(payer.as_slice().try_into().unwrap());
    Transaction::new_with_payer(instructions.as_slice(), Some(&p))
}

/// Relies on solana_transaction::Transaction::try_sign: signs against the
/// given recent blockhash, leaving the message's account keys as they were.
/// Its only failure paths are a keypair whose key the message does not
/// require, and a required key no keypair provides; when the keypairs' keys
/// are exactly the required signer keys, every path returns Ok.  It refuses,
/// never panicking, otherwise.
#[verifier::external_body]
pub(crate) fn tx_try_sign(
    tx: &mut Transaction,
    signers: &Vec<Keypair>,
    blockhash: solana_hash::Hash,
) -> (r: Result<(), ()>)
    ensures
        transaction_signer_keys(*final(tx)) == transaction_signer_keys(*old(tx)),
        ((forall|i: int|
            0 <= i < signers@.len() ==> transaction_signer_keys(*old(tx)).contains(keypair_pubkey(
                #[trigger] signers@[i],
            ))) && (forall|k: Seq<u8>|
            #[trigger] transaction_signer_keys(*old(tx)).contains(k) ==> exists|i: int|
                0 <= i < signers@.len() && keypair_pubkey(#[trigger] signers@[i]) == k)) ==> r
            is Ok,
{
    tx.try_sign(signers, blockhash).map_err(|_| ())
}

} // verus!
