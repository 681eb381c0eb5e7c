//! The binary instruction format: a leading opcode byte selecting the
//! operation, followed by fixed-width fields at fixed byte offsets. Every
//! opcode has a single fixed layout; all multi-byte integers are 8-byte
//! little-endian, all identities fixed 32-byte addresses.

use vstd::bytes::{spec_u64_from_le_bytes, spec_u64_to_le_bytes, u64_from_le_bytes, u64_to_le_bytes};
use vstd::prelude::*;
use vstd::slice::slice_subrange;

use crate::address::Address;
use crate::bytebuf::{push_all, slice_to_vec};
use crate::error::MarketError;

verus! {

/// A decoded instruction: one variant per opcode, so that dispatch is a total
/// match and no unknown opcode can fall through silently.
pub enum Command {
    /// Opcode 0: create an asset mint. No fields — all state comes from the
    /// supplied accounts.
    CreateToken,
    /// Opcode 1: list an amount of an asset for sale. Fields, after the
    /// opcode byte: 32-byte asset identity, 8-byte price, 8-byte amount.
    ListToken { token_mint: Address, price: u64, amount: u64 },
    /// Opcode 2: purchase a listed asset. Fields, after the opcode byte:
    /// 8-byte price, 8-byte amount.
    BuyToken { price: u64, amount: u64 },
}

impl Command {
    /// A well-formed command carries full 32-byte addresses.
    pub open spec fn wf(&self) -> bool {
        match *self {
            Command::ListToken { token_mint, .. } => token_mint.wf(),
            _ => true,
        }
    }
}

/// The total byte length of an opcode's fixed layout, the opcode byte
/// included.
pub open spec fn layout_len(opcode: u8) -> int {
    if opcode == 0 {
        1
    } else if opcode == 1 {
        49
    } else {
        17
    }
}

/// Whether an instruction buffer decodes: it carries a known opcode and is at
/// least as long as that opcode's fixed layout.
pub open spec fn decode_ok(data: Seq<u8>) -> bool {
    &&& data.len() >= 1
    &&& (data[0] == 0 || data[0] == 1 || data[0] == 2)
    &&& data.len() >= layout_len(data[0])
}

/// Whether `cmd` is exactly the command encoded by `data`: the variant
/// matches the opcode byte and every field equals the bytes at its fixed
/// offset.
pub open spec fn command_of(data: Seq<u8>, cmd: Command) -> bool {
    match cmd {
        Command::CreateToken => data[0] == 0,
        Command::ListToken { token_mint, price, amount } => {
            &&& data[0] == 1
            &&& token_mint@ == data.subrange(1, 33)
            &&& price == spec_u64_from_le_bytes(data.subrange(33, 41))
            &&& amount == spec_u64_from_le_bytes(data.subrange(41, 49))
        },
        Command::BuyToken { price, amount } => {
            &&& data[0] == 2
            &&& price == spec_u64_from_le_bytes(data.subrange(1, 9))
            &&& amount == spec_u64_from_le_bytes(data.subrange(9, 17))
        },
    }
}

/// Parses an instruction buffer into a command. Fails with the
/// invalid-instruction condition exactly when the opcode is outside the known
/// set or the buffer is shorter than the opcode's fixed layout.
pub fn decode_instruction(data: &[u8]) -> (r: Result<Command, MarketError>)
    ensures
        r is Ok <==> decode_ok(data@),
        r matches Ok(cmd) ==> command_of(data@, cmd) && cmd.wf(),
        r matches Err(e) ==> e == MarketError::InvalidInstructionData,
{
    if data.len() < 1 {
        return Err(MarketError::InvalidInstructionData);
    }
    let opcode = data[0];
    if opcode == 0 {
        Ok(Command::CreateToken)
    } else if opcode == 1 {
        if data.len() < 49 {
            return Err(MarketError::InvalidInstructionData);
        }
        let token_mint = Address { bytes: slice_to_vec(data, 1, 33) };
        let price = u64_from_le_bytes(slice_subrange(data, 33, 41));
        let amount = u64_from_le_bytes(slice_subrange(data, 41, 49));
        Ok(Command::ListToken { token_mint, price, amount })
    } else if opcode == 2 {
        if data.len() < 17 {
            return Err(MarketError::InvalidInstructionData);
        }
        let price = u64_from_le_bytes(slice_subrange(data, 1, 9));
        let amount = u64_from_le_bytes(slice_subrange(data, 9, 17));
        Ok(Command::BuyToken { price, amount })
    } else {
        Err(MarketError::InvalidInstructionData)
    }
}

/// The exact byte encoding of a command under the fixed wire format.
pub open spec fn encode_spec(cmd: Command) -> Seq<u8> {
    match cmd {
        Command::CreateToken => seq![0u8],
        Command::ListToken { token_mint, price, amount } => seq![1u8] + token_mint@
            + spec_u64_to_le_bytes(price) + spec_u64_to_le_bytes(amount),
        Command::BuyToken { price, amount } => seq![2u8] + spec_u64_to_le_bytes(price)
            + spec_u64_to_le_bytes(amount),
    }
}

/// Serializes a command into its instruction buffer under the fixed wire
/// format.
pub fn encode_command(cmd: &Command) -> (r: Vec<u8>)
    requires
        cmd.wf(),
    ensures
        r@ == encode_spec(*cmd),
        r@.len() == layout_len(r@[0]),
        decode_ok(r@),
        command_of(r@, *cmd),
{
    let mut r: Vec<u8> = Vec::new();
    match cmd {
        Command::CreateToken => {
            r.push(0);
        },
        Command::ListToken { token_mint, price, amount } => {
            r.push(1);
            push_all(&mut r, token_mint.as_bytes().as_slice());
            let price_bytes = u64_to_le_bytes(*price);
            push_all(&mut r, price_bytes.as_slice());
            let amount_bytes = u64_to_le_bytes(*amount);
            push_all(&mut r, amount_bytes.as_slice());
        },
        Command::BuyToken { price, amount } => {
            r.push(2);
            let price_bytes = u64_to_le_bytes(*price);
            push_all(&mut r, price_bytes.as_slice());
            let amount_bytes = u64_to_le_bytes(*amount);
            push_all(&mut r, amount_bytes.as_slice());
        },
    }
    proof {
        vstd::bytes::lemma_auto_spec_u64_to_from_le_bytes();
        assert(r@ =~= encode_spec(*cmd));
        if let Command::ListToken { token_mint, price, amount } = cmd {
            assert(r@.subrange(1, 33) =~= token_mint@);
            assert(r@.subrange(33, 41) =~= spec_u64_to_le_bytes(*price));
            assert(r@.subrange(41, 49) =~= spec_u64_to_le_bytes(*amount));
        }
        if let Command::BuyToken { price, amount } = cmd {
            assert(r@.subrange(1, 9) =~= spec_u64_to_le_bytes(*price));
            assert(r@.subrange(9, 17) =~= spec_u64_to_le_bytes(*amount));
        }
    }
    r
}

/// Law: for every valid list-for-sale buffer, decoding followed by
/// re-encoding the extracted fields reproduces the 49-byte input buffer
/// exactly.
pub proof fn lemma_list_round_trip(data: Seq<u8>, cmd: Command)
    requires
        data.len() == 49,
        data[0] == 1,
        command_of(data, cmd),
        cmd is ListToken,
    ensures
        encode_spec(cmd) == data,
{
    vstd::bytes::lemma_auto_spec_u64_to_from_le_bytes();
    assert(encode_spec(cmd) =~= data);
}

} // verus!
