//! The token transfer with which a player pays a blind: which instruction
//! is sent to the SPL token program.
use vstd::prelude::*;

use crate::pubkey::Pubkey;
use solana_sdk::pubkey::Pubkey as AccountKey;

verus! {

/// An account an instruction touches, and how.
#[derive(Clone, Copy, Debug, PartialEq, Eq)]
pub struct AccountRole {
    pub key: Pubkey,
    pub is_signer: bool,
    pub is_writable: bool,
}

/// An instruction for another program, as plain values.
#[derive(Clone, Debug, PartialEq, Eq)]
pub struct ProgramInstruction {
    pub program_id: Pubkey,
    pub accounts: Vec<AccountRole>,
    pub data: Vec<u8>,
}

/// What a token transfer needs: who pays, who is paid, how much, who
/// authorizes it, and which token program carries it out.
#[derive(Clone, Copy, Debug, PartialEq, Eq)]
pub struct TokenTransferParams {
    pub source: Pubkey,
    pub destination: Pubkey,
    pub amount: u64,
    pub authority: Pubkey,
    pub token_program: Pubkey,
}

/// The data of a token program transfer of `amount`: the transfer tag
/// followed by the amount in little-endian order.
pub open spec fn transfer_data(amount: u64) -> Seq<u8> {
    seq![3u8] + vstd::bytes::spec_u64_to_le_bytes(amount)
}

/// `role` names `key`, with the given signing and writing rights.
pub open spec fn is_role(role: AccountRole, key: Pubkey, is_signer: bool, is_writable: bool) -> bool {
    role.key@ == key@ && role.is_signer == is_signer && role.is_writable == is_writable
}

/// `spl_token::instruction::transfer` with one signer. As its source shows,
/// it always succeeds; the instruction goes to `token_program`, carries the
/// transfer tag 3 and the amount in little-endian bytes, and lists the
/// source and destination as writable non-signers, the authority as a
/// read-only non-signer (a signer list is given), then the signer as a
/// read-only signer.
#[verifier::external_body]
fn token_transfer_instruction(
    token_program: &Pubkey,
    source: &Pubkey,
    destination: &Pubkey,
    authority: &Pubkey,
    signer: &Pubkey,
    amount: u64,
) -> (ix: Option<ProgramInstruction>)
    ensures
        ix is Some,
        ix matches Some(ix) ==> {
            &&& ix.program_id@ == token_program@
            &&& ix.data@ == transfer_data(amount)
            &&& ix.accounts@.len() == 4
            &&& is_role(ix.accounts@[0], *source, false, true)
            &&& is_role(ix.accounts@[1], *destination, false, true)
            &&& is_role(ix.accounts@[2], *authority, false, false)
            &&& is_role(ix.accounts@[3], *signer, true, false)
        },
{
    let key = |k: &Pubkey| AccountKey::new(&k.bytes);
    match spl_token::instruction::transfer(
        &key(token_program), &key(source), &key(destination), &key(authority), &[&key(signer)], amount,
    ) {
        Ok(ix) => Some(ProgramInstruction {
            program_id: Pubkey { bytes: ix.program_id.to_bytes() },
            accounts: ix.accounts.iter().map(|m| AccountRole { key: Pubkey { bytes: m.pubkey.to_bytes() }, is_signer: m.is_signer, is_writable: m.is_writable }).collect(),
            data: ix.data,
        }),
        Err(_) => None,
    }
}

/// The instruction that moves `params.amount` tokens from `params.source`
/// to `params.destination`, authorized (and signed) by `params.authority`.
pub fn transfer_instruction(params: &TokenTransferParams) -> (ix: ProgramInstruction)
    ensures
        ix.program_id@ == params.token_program@,
        ix.data@ == transfer_data(params.amount),
        ix.accounts@.len() == 4,
        is_role(ix.accounts@[0], params.source, false, true),
        is_role(ix.accounts@[1], params.destination, false, true),
        is_role(ix.accounts@[2], params.authority, false, false),
        is_role(ix.accounts@[3], params.authority, true, false),
{
    let ix = token_transfer_instruction(
        &params.token_program,
        &params.source,
        &params.destination,
        &params.authority,
        &params.authority,
        params.amount,
    );
    ix.unwrap()
}

/// The amount a transfer instruction carries reads back from its data.
pub proof fn transfer_data_carries_amount(amount: u64)
    ensures
        transfer_data(amount).len() == 9,
        transfer_data(amount)[0] == 3u8,
        vstd::bytes::spec_u64_from_le_bytes(transfer_data(amount).subrange(1, 9)) == amount,
{
    vstd::bytes::lemma_auto_spec_u64_to_from_le_bytes();
    assert(transfer_data(amount).subrange(1, 9) =~= vstd::bytes::spec_u64_to_le_bytes(amount));
}

} // verus!
