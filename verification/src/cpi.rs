//! The sub-program calls the handlers prepare: instructions for the host's
//! system program (account allocation, native-currency transfer) and for the
//! asset sub-program (mint initialization, asset transfer). Each builder is a
//! pure value constructor — a function of its arguments alone — whose exact
//! result this module names rather than restates; the host later executes the
//! built instructions through its cross-program invocation facility.

use vstd::prelude::*;

use solana_program::instruction::Instruction;
use solana_program::program_pack::Pack;
use solana_program::pubkey::Pubkey;

use crate::address::Address;
use crate::error::MarketError;

verus! {

#[verifier::external_type_specification]
#[verifier::external_body]
pub struct ExInstruction(Instruction);

/// The instruction `solana_program::system_instruction::create_account`
/// builds from a funding account, a new account, a starting balance, a byte
/// size and an owning program.
pub uninterp spec fn create_account_ix(
    payer: Seq<u8>,
    new_account: Seq<u8>,
    lamports: u64,
    space: u64,
    owner: Seq<u8>,
) -> Instruction;

/// The instruction `solana_program::system_instruction::transfer` builds for
/// moving `lamports` native units from `from` to `to`.
pub uninterp spec fn transfer_ix(from: Seq<u8>, to: Seq<u8>, lamports: u64) -> Instruction;

/// The instruction `spl_token::instruction::initialize_mint` builds for
/// initializing `mint` with `mint_authority`, `decimals` decimal places and
/// no freeze authority.
pub uninterp spec fn initialize_mint_ix(
    token_program: Seq<u8>,
    mint: Seq<u8>,
    mint_authority: Seq<u8>,
    decimals: u8,
) -> Instruction;

/// The instruction `spl_token::instruction::transfer` builds for moving
/// `amount` asset units from `source` to `destination`, authorized by the
/// single signer `authority`.
pub uninterp spec fn token_transfer_ix(
    token_program: Seq<u8>,
    source: Seq<u8>,
    destination: Seq<u8>,
    authority: Seq<u8>,
    amount: u64,
) -> Instruction;

/// Whether `spl_token::check_program_account` accepts `program_id`: true
/// exactly for the asset sub-program's own identity. Both spl_token builders
/// below succeed or fail by this check alone.
pub uninterp spec fn is_token_program(program_id: Seq<u8>) -> bool;

/// Relies on solana_program::system_instruction::create_account: builds the
/// system-program instruction that allocates `new_account` with `space` bytes
/// and `lamports` starting balance, funded by `payer` and owned by `owner`.
/// The builder is infallible and a pure function of its arguments.
#[verifier::external_body]
pub(crate) fn build_create_account(
    payer: &Address,
    new_account: &Address,
    lamports: u64,
    space: u64,
    owner: &Address,
) -> (r: Instruction)
    requires
        payer.wf(),
        new_account.wf(),
        owner.wf(),
    ensures
        r == create_account_ix(payer@, new_account@, lamports, space, owner@),
{
    let payer_key = Pubkey::try_from(payer.bytes.as_slice()).unwrap();
    let new_key = Pubkey::try_from(new_account.bytes.as_slice()).unwrap();
    let owner_key = Pubkey::try_from(owner.bytes.as_slice()).unwrap();
    solana_program::system_instruction::create_account(
        &payer_key,
        &new_key,
        lamports,
        space,
        &owner_key,
    )
}

/// Relies on solana_program::system_instruction::transfer: builds the
/// system-program instruction that moves `lamports` native units from `from`
/// to `to`. The builder is infallible and a pure function of its arguments.
#[verifier::external_body]
pub(crate) fn build_transfer(from: &Address, to: &Address, lamports: u64) -> (r: Instruction)
    requires
        from.wf(),
        to.wf(),
    ensures
        r == transfer_ix(from@, to@, lamports),
{
    let from_key = Pubkey::try_from(from.bytes.as_slice()).unwrap();
    let to_key = Pubkey::try_from(to.bytes.as_slice()).unwrap();
    solana_program::system_instruction::transfer(&from_key, &to_key, lamports)
}

/// Relies on spl_token::instruction::initialize_mint: builds the asset
/// sub-program's mint-initialization instruction naming `mint_authority` and
/// no freeze authority. Its source returns Ok exactly when `token_program` is
/// the asset sub-program's identity (spl_token::check_program_account), and
/// ProgramError::IncorrectProgramId otherwise, mapped here to the library's
/// incorrect-program condition.
#[verifier::external_body]
pub(crate) fn build_initialize_mint(
    token_program: &Address,
    mint: &Address,
    mint_authority: &Address,
    decimals: u8,
) -> (r: Result<Instruction, MarketError>)
    requires
        token_program.wf(),
        mint.wf(),
        mint_authority.wf(),
    ensures
        r is Ok <==> is_token_program(token_program@),
        r matches Ok(ix) ==> ix == initialize_mint_ix(token_program@, mint@, mint_authority@, decimals),
        r matches Err(e) ==> e == MarketError::IncorrectProgramId,
{
    let program_key = Pubkey::try_from(token_program.bytes.as_slice()).unwrap();
    let mint_key = Pubkey::try_from(mint.bytes.as_slice()).unwrap();
    let authority_key = Pubkey::try_from(mint_authority.bytes.as_slice()).unwrap();
    match spl_token::instruction::initialize_mint(&program_key, &mint_key, &authority_key, None, decimals) {
        Ok(ix) => Ok(ix),
        Err(_) => Err(MarketError::IncorrectProgramId),
    }
}

/// Relies on spl_token::instruction::transfer: builds the asset sub-program's
/// transfer instruction moving `amount` units from `source` to `destination`
/// with `authority` as the single signing authority (no multisig signers).
/// Its source returns Ok exactly when `token_program` is the asset
/// sub-program's identity (spl_token::check_program_account), and
/// ProgramError::IncorrectProgramId otherwise, mapped here to the library's
/// incorrect-program condition.
#[verifier::external_body]
pub(crate) fn build_token_transfer(
    token_program: &Address,
    source: &Address,
    destination: &Address,
    authority: &Address,
    amount: u64,
) -> (r: Result<Instruction, MarketError>)
    requires
        token_program.wf(),
        source.wf(),
        destination.wf(),
        authority.wf(),
    ensures
        r is Ok <==> is_token_program(token_program@),
        r matches Ok(ix) ==> ix == token_transfer_ix(
            token_program@,
            source@,
            destination@,
            authority@,
            amount,
        ),
        r matches Err(e) ==> e == MarketError::IncorrectProgramId,
{
    let program_key = Pubkey::try_from(token_program.bytes.as_slice()).unwrap();
    let source_key = Pubkey::try_from(source.bytes.as_slice()).unwrap();
    let dest_key = Pubkey::try_from(destination.bytes.as_slice()).unwrap();
    let authority_key = Pubkey::try_from(authority.bytes.as_slice()).unwrap();
    match spl_token::instruction::transfer(&program_key, &source_key, &dest_key, &authority_key, &[], amount) {
        Ok(ix) => Ok(ix),
        Err(_) => Err(MarketError::IncorrectProgramId),
    }
}

/// Relies on spl_token::state::Mint::LEN: the packed byte size of the asset
/// sub-program's mint state, 82 bytes.
#[verifier::external_body]
pub(crate) fn mint_state_len() -> (r: u64)
    ensures
        r == 82,
{
    spl_token::state::Mint::LEN as u64
}

} // verus!
