//! A minimal on-ledger asset marketplace: mint a fungible asset, list an
//! amount of it for sale at a fixed price, and execute a purchase that
//! exchanges payment for the asset.

mod address;
mod bytebuf;
mod cpi;
mod error;
mod instruction;
mod market;
mod order;

pub use address::Address;
pub use cpi::{
    create_account_ix, initialize_mint_ix, is_token_program, token_transfer_ix, transfer_ix,
};
pub use error::MarketError;
pub use instruction::{
    command_of, decode_instruction, decode_ok, encode_command, encode_spec, layout_len,
    lemma_list_round_trip, Command,
};
pub use market::{
    buy_token, buy_token_outcome, create_token, create_token_outcome, list_token,
    lemma_listing_read_back, list_token_outcome, needs_mint_rent, process_instruction,
    process_outcome, Plan,
    MINT_DECIMALS,
};
pub use order::{
    encode_order, lemma_relist_replaces, lemma_store_read_round_trip, order_bytes, read_order,
    record_amount, record_price, record_seller, record_token_mint, store_order, stored_region,
    MarketOrder, ORDER_LEN,
};
