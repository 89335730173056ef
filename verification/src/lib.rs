//! Virtual price of a liquid-staking pool, read straight from the pool
//! account's raw bytes.
//!
//! The pool account's serialized form is variable-length (a validator list
//! trails the fixed fields), so rather than deserialize the whole record the
//! two fields that pricing needs are read at their fixed offsets: the total
//! reserve amount at offset 258 and the pool share supply at offset 266, each
//! an 8-byte little-endian unsigned integer. The virtual price is the reserve
//! scaled by a fixed-point precision factor and divided by the supply,
//! computed in 128 bits; every failure (short buffer, zero supply, overflow
//! of the product, a quotient too wide for 64 bits) is an absent result,
//! never a fault.

use vstd::bytes::lemma_auto_spec_u64_to_from_le_bytes;
use vstd::bytes::spec_u64_from_le_bytes;
use vstd::bytes::spec_u64_to_le_bytes;
use vstd::bytes::u64_from_le_bytes;
use vstd::prelude::*;
use vstd::slice::slice_subrange;

verus! {

/// Byte offset of the total reserve amount field in the pool account.
pub const RESERVE_OFFSET: usize = 258;

/// Byte offset of the pool share supply field in the pool account.
pub const SUPPLY_OFFSET: usize = 266;

/// Minimum account length for both fields to be present in full.
pub const MIN_ACCOUNT_LEN: usize = 274;

/// The total reserve amount held in a pool account: the 8-byte little-endian
/// integer at `RESERVE_OFFSET`.
pub open spec fn reserve_of(account: Seq<u8>) -> u64 {
    spec_u64_from_le_bytes(account.subrange(RESERVE_OFFSET as int, RESERVE_OFFSET + 8))
}

/// The pool share supply of a pool account: the 8-byte little-endian integer
/// at `SUPPLY_OFFSET`.
pub open spec fn supply_of(account: Seq<u8>) -> u64 {
    spec_u64_from_le_bytes(account.subrange(SUPPLY_OFFSET as int, SUPPLY_OFFSET + 8))
}

/// The virtual price of a pool account, when it is defined: the reserve times
/// the precision, divided by the supply, all in integer arithmetic. It is
/// absent when the account is too short for the two fields, when the supply
/// is zero, when the product exceeds 128 bits, or when the quotient exceeds
/// 64 bits.
pub open spec fn spec_virtual_price(account: Seq<u8>, precision: u128) -> Option<u64> {
    if account.len() < MIN_ACCOUNT_LEN {
        None
    } else if supply_of(account) == 0 {
        None
    } else if reserve_of(account) * precision > u128::MAX {
        None
    } else if reserve_of(account) * precision / (supply_of(account) as int) > u64::MAX {
        None
    } else {
        Some((reserve_of(account) * precision / (supply_of(account) as int)) as u64)
    }
}

/// Computes the virtual price of the pool whose raw account bytes are given,
/// scaled by `precision`: `(reserve * precision) / supply`, truncating. Any
/// input on which the price is undefined or would not fit yields `None`.
pub fn get_virtual_price(bytes: &[u8], precision: u128) -> (price: Option<u64>)
    ensures
        price == spec_virtual_price(bytes@, precision),
{
    if bytes.len() < MIN_ACCOUNT_LEN {
        return None;
    }
    let total_reserve: u64 = u64_from_le_bytes(
        slice_subrange(bytes, RESERVE_OFFSET, SUPPLY_OFFSET),
    );
    let share_supply: u64 = u64_from_le_bytes(
        slice_subrange(bytes, SUPPLY_OFFSET, MIN_ACCOUNT_LEN),
    );
    if share_supply == 0 {
        return None;
    }
    let product: u128 = match (total_reserve as u128).checked_mul(precision) {
        Some(p) => p,
        None => {
            return None;
        },
    };
    let quotient: u128 = product / (share_supply as u128);
    if quotient > u64::MAX as u128 {
        None
    } else {
        Some(quotient as u64)
    }
}

/// A buffer too short to hold both fields never yields a price.
pub proof fn lemma_short_buffer_has_no_price(account: Seq<u8>, precision: u128)
    requires
        account.len() < MIN_ACCOUNT_LEN,
    ensures
        spec_virtual_price(account, precision) is None,
{
}

/// When the pool share supply field is zero, no price exists, whatever the
/// other fields hold.
pub proof fn lemma_zero_supply_has_no_price(account: Seq<u8>, precision: u128)
    requires
        supply_of(account) == 0,
    ensures
        spec_virtual_price(account, precision) is None,
{
}

/// A pool with no reserve but outstanding shares has price exactly zero.
pub proof fn lemma_zero_reserve_prices_at_zero(account: Seq<u8>, precision: u128)
    requires
        account.len() >= MIN_ACCOUNT_LEN,
        reserve_of(account) == 0,
        supply_of(account) > 0,
    ensures
        spec_virtual_price(account, precision) == Some(0u64),
{
}

/// Round trip: a buffer that holds the little-endian encoding of a reserve
/// `r` at `RESERVE_OFFSET` and of a positive supply `s` at `SUPPLY_OFFSET`
/// prices at exactly `(r * precision) / s`, truncating, whenever that product
/// fits in 128 bits and that quotient fits in 64 bits.
pub proof fn lemma_round_trip(account: Seq<u8>, r: u64, s: u64, precision: u128)
    requires
        account.len() >= MIN_ACCOUNT_LEN,
        account.subrange(RESERVE_OFFSET as int, RESERVE_OFFSET + 8) == spec_u64_to_le_bytes(r),
        account.subrange(SUPPLY_OFFSET as int, SUPPLY_OFFSET + 8) == spec_u64_to_le_bytes(s),
        s > 0,
        r * precision <= u128::MAX,
        r * precision / (s as int) <= u64::MAX,
    ensures
        spec_virtual_price(account, precision) == Some((r * precision / (s as int)) as u64),
{
    lemma_auto_spec_u64_to_from_le_bytes();
}

/// When the reserve times the precision exceeds the 128-bit range, no price
/// exists: the overflow is never wrapped away.
pub proof fn lemma_product_overflow_has_no_price(account: Seq<u8>, precision: u128)
    requires
        reserve_of(account) * precision > u128::MAX,
    ensures
        spec_virtual_price(account, precision) is None,
{
}

/// When the true quotient exceeds the 64-bit range, no price exists: the
/// value is never truncated to fit.
pub proof fn lemma_wide_quotient_has_no_price(account: Seq<u8>, precision: u128)
    requires
        supply_of(account) > 0,
        reserve_of(account) * precision / (supply_of(account) as int) > u64::MAX,
    ensures
        spec_virtual_price(account, precision) is None,
{
}

} // verus!
