//! The listing record: one active sale offer, written verbatim into the
//! 80-byte storage region of a dedicated listing account.

use vstd::bytes::{spec_u64_from_le_bytes, spec_u64_to_le_bytes, u64_from_le_bytes, u64_to_le_bytes};
use vstd::prelude::*;

use crate::address::Address;
use crate::bytebuf::{push_all, slice_to_vec};

verus! {

/// The byte length of a stored listing record: 32-byte seller, 32-byte asset
/// mint, 8-byte price, 8-byte amount; no padding, no version tag.
pub const ORDER_LEN: usize = 80;

/// One active sale offer: `amount` units of the asset `token_mint` offered by
/// `seller` for a total of `price` native units.
pub struct MarketOrder {
    /// The identity of the listing owner, set at listing-creation time to the
    /// account that signed the listing instruction.
    pub seller: Address,
    /// The identity of the fungible asset type being sold.
    pub token_mint: Address,
    /// The unsigned total price for the listed amount, in native units.
    pub price: u64,
    /// The unsigned quantity of the asset offered.
    pub amount: u64,
}

impl MarketOrder {
    /// A well-formed record carries two full 32-byte addresses.
    pub open spec fn wf(&self) -> bool {
        self.seller.wf() && self.token_mint.wf()
    }
}

/// The stored byte image of a record:
/// `seller` (32) ‖ `token_mint` (32) ‖ `price` (8, little-endian) ‖
/// `amount` (8, little-endian).
pub open spec fn order_bytes(o: MarketOrder) -> Seq<u8> {
    o.seller@ + o.token_mint@ + spec_u64_to_le_bytes(o.price) + spec_u64_to_le_bytes(o.amount)
}

/// The seller identity read back from a stored record image.
pub open spec fn record_seller(region: Seq<u8>) -> Seq<u8> {
    region.subrange(0, 32)
}

/// The asset-mint identity read back from a stored record image.
pub open spec fn record_token_mint(region: Seq<u8>) -> Seq<u8> {
    region.subrange(32, 64)
}

/// The price read back from a stored record image.
pub open spec fn record_price(region: Seq<u8>) -> u64 {
    spec_u64_from_le_bytes(region.subrange(64, 72))
}

/// The amount read back from a stored record image.
pub open spec fn record_amount(region: Seq<u8>) -> u64 {
    spec_u64_from_le_bytes(region.subrange(72, 80))
}

/// The contents an 80-byte listing region holds after a record is stored over
/// its prior contents: always the full image of the new record. A store is a
/// full overwrite, never a partial-field update.
pub open spec fn stored_region(prior: Seq<u8>, o: MarketOrder) -> Seq<u8> {
    order_bytes(o)
}

/// Serializes a record into its exact 80-byte image.
pub fn encode_order(o: &MarketOrder) -> (r: Vec<u8>)
    requires
        o.wf(),
    ensures
        r@ == order_bytes(*o),
        r@.len() == ORDER_LEN,
{
    let mut r: Vec<u8> = Vec::new();
    push_all(&mut r, o.seller.as_bytes().as_slice());
    push_all(&mut r, o.token_mint.as_bytes().as_slice());
    let price_bytes = u64_to_le_bytes(o.price);
    push_all(&mut r, price_bytes.as_slice());
    let amount_bytes = u64_to_le_bytes(o.amount);
    push_all(&mut r, amount_bytes.as_slice());
    proof {
        vstd::bytes::lemma_auto_spec_u64_to_from_le_bytes();
        assert(r@ =~= order_bytes(*o));
    }
    r
}

/// Writes the record's byte image over the entirety of an 80-byte listing
/// region in one pass. No byte of the prior contents survives: the region
/// afterwards is exactly `order_bytes(o)`, whatever it held before.
pub fn store_order(region: &mut Vec<u8>, o: &MarketOrder)
    requires
        old(region)@.len() == ORDER_LEN,
        o.wf(),
    ensures
        final(region)@ == stored_region(old(region)@, *o),
        final(region)@ == order_bytes(*o),
{
    let image = encode_order(o);
    let mut i: usize = 0;
    while i < ORDER_LEN
        invariant
            i <= ORDER_LEN,
            region@.len() == ORDER_LEN,
            image@ == order_bytes(*o),
            image@.len() == ORDER_LEN,
            forall|j: int| 0 <= j < i ==> region@[j] == image@[j],
        decreases ORDER_LEN - i,
    {
        region.set(i, image[i]);
        i = i + 1;
    }
    proof {
        assert(region@ =~= image@);
    }
}

/// Parses a stored 80-byte record image back into a record.
pub fn read_order(region: &Vec<u8>) -> (r: MarketOrder)
    requires
        region@.len() == ORDER_LEN,
    ensures
        r.wf(),
        r.seller@ == record_seller(region@),
        r.token_mint@ == record_token_mint(region@),
        r.price == record_price(region@),
        r.amount == record_amount(region@),
{
    let seller_bytes = slice_to_vec(region.as_slice(), 0, 32);
    let mint_bytes = slice_to_vec(region.as_slice(), 32, 64);
    let price_bytes = slice_to_vec(region.as_slice(), 64, 72);
    let amount_bytes = slice_to_vec(region.as_slice(), 72, 80);
    MarketOrder {
        seller: Address { bytes: seller_bytes },
        token_mint: Address { bytes: mint_bytes },
        price: u64_from_le_bytes(price_bytes.as_slice()),
        amount: u64_from_le_bytes(amount_bytes.as_slice()),
    }
}

/// Law: a stored record reads back exactly as it was written. The region left
/// by `store_order` yields the writing seller's identity and the listed asset,
/// price and amount, regardless of what the region held before the write.
pub proof fn lemma_store_read_round_trip(o: MarketOrder)
    requires
        o.wf(),
    ensures
        order_bytes(o).len() == ORDER_LEN,
        record_seller(order_bytes(o)) == o.seller@,
        record_token_mint(order_bytes(o)) == o.token_mint@,
        record_price(order_bytes(o)) == o.price,
        record_amount(order_bytes(o)) == o.amount,
{
    vstd::bytes::lemma_auto_spec_u64_to_from_le_bytes();
    let image = order_bytes(o);
    assert(record_seller(image) =~= o.seller@);
    assert(record_token_mint(image) =~= o.token_mint@);
    assert(image.subrange(64, 72) =~= spec_u64_to_le_bytes(o.price));
    assert(image.subrange(72, 80) =~= spec_u64_to_le_bytes(o.amount));
}

/// Law: relisting at the same storage region with different fields replaces
/// the record entirely. Storing a second record over whatever a first store
/// left behind yields the second record's full image — the same image as
/// storing it over any other prior contents — so no byte of the first record
/// survives the relisting.
pub proof fn lemma_relist_replaces(
    prior: Seq<u8>,
    other_prior: Seq<u8>,
    first: MarketOrder,
    second: MarketOrder,
)
    requires
        second.wf(),
    ensures
        stored_region(stored_region(prior, first), second) == order_bytes(second),
        stored_region(stored_region(prior, first), second) == stored_region(other_prior, second),
        order_bytes(second).len() == ORDER_LEN,
{
    vstd::bytes::lemma_auto_spec_u64_to_from_le_bytes();
}

} // verus!
