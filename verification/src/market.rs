//! The instruction handlers and the dispatcher. Each handler validates the
//! accounts and fields it receives and decides the instruction's effects: the
//! sub-program instructions to issue, or the record image to write. The
//! handlers perform no ledger side effect themselves — the host executes the
//! returned plan, and its all-or-nothing instruction execution discards every
//! effect when any step fails.

use vstd::bytes::spec_u64_from_le_bytes;
use vstd::prelude::*;

use solana_program::instruction::Instruction;

use crate::address::Address;
use crate::cpi::{
    build_create_account, build_initialize_mint, build_token_transfer, build_transfer,
    create_account_ix, initialize_mint_ix, is_token_program, mint_state_len, token_transfer_ix,
    transfer_ix,
};
use crate::error::MarketError;
use crate::instruction::{decode_instruction, decode_ok, Command};
use crate::order::{
    encode_order, record_amount, record_price, record_seller, record_token_mint, MarketOrder,
    ORDER_LEN,
};

verus! {

/// The decimal precision every new mint is created with; not configurable.
pub const MINT_DECIMALS: u8 = 9;

/// The effects one instruction asks the host to perform, in order. Building
/// the plan mutates nothing; a plan that is never executed leaves no trace.
pub enum Plan {
    /// Allocate the mint account, then initialize it as a mint: two
    /// sub-program calls, each individually fallible.
    CreateToken { allocate: Instruction, initialize: Instruction },
    /// Overwrite the entire data region of the listing-storage account (the
    /// second supplied account) with this 80-byte record image.
    ListToken { record: Vec<u8> },
    /// Transfer the payment, then transfer the asset: two sub-program calls,
    /// each individually fallible.
    BuyToken { pay: Instruction, deliver: Instruction },
}

/// What asset-mint creation returns for every input. Accounts, in order:
/// payer, mint, mint authority, asset sub-program, rent sysvar.
pub open spec fn create_token_outcome(
    accounts: Seq<Address>,
    mint_rent_lamports: u64,
    r: Result<(Instruction, Instruction), MarketError>,
) -> bool {
    if accounts.len() < 5 {
        r == Err::<(Instruction, Instruction), MarketError>(MarketError::NotEnoughAccountKeys)
    } else if !is_token_program(accounts[3]@) {
        r == Err::<(Instruction, Instruction), MarketError>(MarketError::IncorrectProgramId)
    } else {
        r == Ok::<(Instruction, Instruction), MarketError>(
            (
                create_account_ix(accounts[0]@, accounts[1]@, mint_rent_lamports, 82, accounts[3]@),
                initialize_mint_ix(accounts[3]@, accounts[1]@, accounts[2]@, MINT_DECIMALS),
            ),
        )
    }
}

/// Asset-mint creation: allocate the mint account with exactly the asset
/// sub-program's mint-state size (82 bytes), funded by the payer and owned by
/// the asset sub-program, then initialize it as a mint with precision
/// `MINT_DECIMALS`, the given authority as mint authority and no freeze
/// authority. `mint_rent_lamports` is the starting balance for the new
/// account, computed by the caller from the host's rent rates.
pub fn create_token(accounts: &Vec<Address>, mint_rent_lamports: u64) -> (r: Result<
    (Instruction, Instruction),
    MarketError,
>)
    requires
        forall|i: int| 0 <= i < accounts@.len() ==> (#[trigger] accounts@[i]).wf(),
    ensures
        create_token_outcome(accounts@, mint_rent_lamports, r),
{
    if accounts.len() < 5 {
        return Err(MarketError::NotEnoughAccountKeys);
    }
    let payer = &accounts[0];
    let mint = &accounts[1];
    let mint_authority = &accounts[2];
    let token_program = &accounts[3];
    let initialize = match build_initialize_mint(token_program, mint, mint_authority, MINT_DECIMALS) {
        Ok(ix) => ix,
        Err(e) => {
            return Err(e);
        },
    };
    let space = mint_state_len();
    let allocate = build_create_account(payer, mint, mint_rent_lamports, space, token_program);
    Ok((allocate, initialize))
}

/// What listing registration returns for every input. Accounts, in order:
/// seller, listing-storage account.
pub open spec fn list_token_outcome(
    accounts: Seq<Address>,
    token_mint: Address,
    price: u64,
    amount: u64,
    r: Result<MarketOrder, MarketError>,
) -> bool {
    if accounts.len() < 2 {
        r matches Err(e) && e == MarketError::NotEnoughAccountKeys
    } else {
        r matches Ok(o) && o.seller@ == accounts[0]@ && o.token_mint@ == token_mint@ && o.price
            == price && o.amount == amount
    }
}

/// Listing registration: build the listing record with `seller` set to the
/// first supplied account's identity — the identity that signed the listing
/// instruction, verified by the host — and the decoded asset identity, price
/// and amount. The record's byte image is then written over the whole data
/// region of the listing-storage account; any prior listing is discarded.
pub fn list_token(accounts: &Vec<Address>, token_mint: Address, price: u64, amount: u64) -> (r:
    Result<MarketOrder, MarketError>)
    requires
        forall|i: int| 0 <= i < accounts@.len() ==> (#[trigger] accounts@[i]).wf(),
        token_mint.wf(),
    ensures
        list_token_outcome(accounts@, token_mint, price, amount, r),
        r matches Ok(o) ==> o.wf(),
{
    if accounts.len() < 2 {
        return Err(MarketError::NotEnoughAccountKeys);
    }
    let seller = accounts[0].clone();
    Ok(MarketOrder { seller, token_mint, price, amount })
}

/// What purchase execution returns for every input. Accounts, in order:
/// buyer, seller, buyer asset account, seller asset account, asset mint,
/// asset sub-program.
pub open spec fn buy_token_outcome(
    accounts: Seq<Address>,
    price: u64,
    amount: u64,
    r: Result<(Instruction, Instruction), MarketError>,
) -> bool {
    if accounts.len() < 6 {
        r == Err::<(Instruction, Instruction), MarketError>(MarketError::NotEnoughAccountKeys)
    } else if !is_token_program(accounts[5]@) {
        r == Err::<(Instruction, Instruction), MarketError>(MarketError::IncorrectProgramId)
    } else {
        r == Ok::<(Instruction, Instruction), MarketError>(
            (
                transfer_ix(accounts[0]@, accounts[1]@, price),
                token_transfer_ix(accounts[5]@, accounts[3]@, accounts[2]@, accounts[1]@, amount),
            ),
        )
    }
}

/// Purchase execution: two sequential sub-program calls — transfer `price`
/// native units from the buyer to the seller, then transfer `amount` asset
/// units from the seller's asset account to the buyer's, authorized by the
/// seller. Price and amount come from the caller-supplied instruction buffer;
/// the stored listing record is not consulted, so they may differ from what
/// was listed.
pub fn buy_token(accounts: &Vec<Address>, price: u64, amount: u64) -> (r: Result<
    (Instruction, Instruction),
    MarketError,
>)
    requires
        forall|i: int| 0 <= i < accounts@.len() ==> (#[trigger] accounts@[i]).wf(),
    ensures
        buy_token_outcome(accounts@, price, amount, r),
{
    if accounts.len() < 6 {
        return Err(MarketError::NotEnoughAccountKeys);
    }
    let buyer = &accounts[0];
    let seller = &accounts[1];
    let buyer_token_account = &accounts[2];
    let seller_token_account = &accounts[3];
    let token_program = &accounts[5];
    let deliver = match build_token_transfer(
        token_program,
        seller_token_account,
        buyer_token_account,
        seller,
        amount,
    ) {
        Ok(ix) => ix,
        Err(e) => {
            return Err(e);
        },
    };
    let pay = build_transfer(buyer, seller, price);
    Ok((pay, deliver))
}

/// What the dispatcher returns for every input: the opcode is read from the
/// leading byte; an opcode outside the known set, or a buffer shorter than
/// its opcode's fixed layout, fails with the invalid-instruction condition;
/// otherwise the matching handler's outcome decides, and a listing plan
/// carries exactly the seller's identity followed by the 48 field bytes of
/// the buffer.
pub open spec fn process_outcome(
    accounts: Seq<Address>,
    data: Seq<u8>,
    mint_rent_lamports: u64,
    r: Result<Plan, MarketError>,
) -> bool {
    if !decode_ok(data) {
        r == Err::<Plan, MarketError>(MarketError::InvalidInstructionData)
    } else if data[0] == 0 {
        match r {
            Ok(plan) => plan matches Plan::CreateToken { allocate, initialize }
                && create_token_outcome(
                accounts,
                mint_rent_lamports,
                Ok((allocate, initialize)),
            ),
            Err(e) => create_token_outcome(
                accounts,
                mint_rent_lamports,
                Err::<(Instruction, Instruction), MarketError>(e),
            ),
        }
    } else if data[0] == 1 {
        match r {
            Ok(plan) => plan matches Plan::ListToken { record } && accounts.len() >= 2 && record@
                == accounts[0]@ + data.subrange(1, 49),
            Err(e) => accounts.len() < 2 && e == MarketError::NotEnoughAccountKeys,
        }
    } else {
        match r {
            Ok(plan) => plan matches Plan::BuyToken { pay, deliver } && buy_token_outcome(
                accounts,
                spec_u64_from_le_bytes(data.subrange(1, 9)),
                spec_u64_from_le_bytes(data.subrange(9, 17)),
                Ok((pay, deliver)),
            ),
            Err(e) => buy_token_outcome(
                accounts,
                spec_u64_from_le_bytes(data.subrange(1, 9)),
                spec_u64_from_le_bytes(data.subrange(9, 17)),
                Err::<(Instruction, Instruction), MarketError>(e),
            ),
        }
    }
}

/// The program's single entry point decision: read the leading byte of the
/// instruction buffer as the opcode and route to the matching handler with
/// the account list and the decoded fields. The dispatcher never inspects
/// accounts itself, performs no side effect, and rejects any opcode outside
/// the known set with the invalid-instruction condition.
pub fn process_instruction(accounts: &Vec<Address>, data: &[u8], mint_rent_lamports: u64) -> (r:
    Result<Plan, MarketError>)
    requires
        forall|i: int| 0 <= i < accounts@.len() ==> (#[trigger] accounts@[i]).wf(),
    ensures
        process_outcome(accounts@, data@, mint_rent_lamports, r),
{
    let cmd = match decode_instruction(data) {
        Ok(c) => c,
        Err(e) => {
            return Err(e);
        },
    };
    match cmd {
        Command::CreateToken => {
            match create_token(accounts, mint_rent_lamports) {
                Ok((allocate, initialize)) => Ok(Plan::CreateToken { allocate, initialize }),
                Err(e) => Err(e),
            }
        },
        Command::ListToken { token_mint, price, amount } => {
            match list_token(accounts, token_mint, price, amount) {
                Ok(order) => {
                    let record = encode_order(&order);
                    proof {
                        vstd::bytes::lemma_auto_spec_u64_to_from_le_bytes();
                        assert(record@ =~= accounts@[0]@ + data@.subrange(1, 49));
                    }
                    Ok(Plan::ListToken { record })
                },
                Err(e) => Err(e),
            }
        },
        Command::BuyToken { price, amount } => {
            match buy_token(accounts, price, amount) {
                Ok((pay, deliver)) => Ok(Plan::BuyToken { pay, deliver }),
                Err(e) => Err(e),
            }
        },
    }
}

/// Law: the record a listing plan writes, read back, yields a record whose
/// seller is the invoking account's identity and whose asset, price and
/// amount are the decoded instruction fields — whatever the region held
/// before, since the write covers all of it.
pub proof fn lemma_listing_read_back(seller: Seq<u8>, data: Seq<u8>)
    requires
        seller.len() == 32,
        data.len() >= 49,
    ensures
        (seller + data.subrange(1, 49)).len() == ORDER_LEN,
        record_seller(seller + data.subrange(1, 49)) == seller,
        record_token_mint(seller + data.subrange(1, 49)) == data.subrange(1, 33),
        record_price(seller + data.subrange(1, 49)) == spec_u64_from_le_bytes(
            data.subrange(33, 41),
        ),
        record_amount(seller + data.subrange(1, 49)) == spec_u64_from_le_bytes(
            data.subrange(41, 49),
        ),
{
    let record = seller + data.subrange(1, 49);
    assert(record_seller(record) =~= seller);
    assert(record_token_mint(record) =~= data.subrange(1, 33));
    assert(record.subrange(64, 72) =~= data.subrange(33, 41));
    assert(record.subrange(72, 80) =~= data.subrange(41, 49));
}

/// Whether an instruction buffer selects asset-mint creation. Its handler
/// alone needs `mint_rent_lamports`, so a caller reads the host's rent rates
/// only when this holds.
pub fn needs_mint_rent(data: &[u8]) -> (r: bool)
    ensures
        r == (data@.len() >= 1 && data@[0] == 0),
{
    data.len() >= 1 && data[0] == 0
}

} // verus!
