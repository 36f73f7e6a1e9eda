use vstd::prelude::*;

verus! {

/// The fee rate is given in basis points: 10 000 of them make the whole price.
pub const BASIS_POINTS: u64 = 10_000;

/// The exact fee on `price` at `fee_bps` basis points, rounded down.
pub open spec fn fee_on(price: int, fee_bps: int) -> int {
    price * fee_bps / 10_000
}

/// The fee as a `u64`: the exact fee taken modulo 2^64, which is what a
/// narrowing of the wide product gives when the rate exceeds the whole price.
pub open spec fn fee_as_u64(price: u64, fee_bps: u16) -> int {
    fee_on(price as int, fee_bps as int) % 0x1_0000_0000_0000_0000
}

/// How a price is divided between the seller and the marketplace treasury.
#[derive(Clone, Copy, Debug)]
pub struct PriceSplit {
    pub maker_amount: u64,
    pub fee: u64,
}

/// The marketplace fee on a sale at `price`, at `fee_bps` basis points.
///
/// The product is formed in 128 bits, where it cannot overflow; the quotient
/// is then narrowed to 64 bits.
pub fn marketplace_fee(price: u64, fee_bps: u16) -> (fee: u64)
    ensures
        fee == fee_as_u64(price, fee_bps),
        fee_bps <= BASIS_POINTS ==> fee == fee_on(price as int, fee_bps as int),
        fee_bps <= BASIS_POINTS ==> fee <= price,
{
    let wide_price: u128 = price as u128;
    let wide_bps: u128 = fee_bps as u128;
    assert(wide_price * wide_bps <= 0xffff_ffff_ffff_ffff * 0xffff) by (nonlinear_arith)
        requires
            wide_price <= 0xffff_ffff_ffff_ffff,
            wide_bps <= 0xffff,
    ;
    let product: u128 = wide_price * wide_bps;
    let quotient: u128 = product / 10_000;
    let fee: u64 = quotient as u64;
    assert(fee == quotient % 0x1_0000_0000_0000_0000) by (bit_vector)
        requires
            fee == quotient as u64,
    ;
    if fee_bps as u64 <= BASIS_POINTS {
        assert(product <= wide_price * 10_000) by (nonlinear_arith)
            requires
                wide_bps <= 10_000,
                product == wide_price * wide_bps,
        ;
        assert(quotient <= wide_price);
    }
    fee
}

/// Divides `price` into what the seller receives and the fee that goes to the
/// treasury.
///
/// The seller's share is the price less the fee; a fee larger than the price
/// (possible only with a rate above 10 000 basis points) has no such share.
pub fn split_price(price: u64, fee_bps: u16) -> (split: PriceSplit)
    requires
        fee_as_u64(price, fee_bps) <= price,
    ensures
        split.fee == fee_as_u64(price, fee_bps),
        split.maker_amount == price - split.fee,
        split.maker_amount + split.fee == price,
{
    let fee = marketplace_fee(price, fee_bps);
    PriceSplit { maker_amount: price - fee, fee }
}

/// A rate within 10 000 basis points never takes more than the price: the
/// split is always possible, the fee is the exact rounded-down share, and the
/// two parts add back up to the price.
pub proof fn lemma_split_conserves_price(price: u64, fee_bps: u16)
    requires
        fee_bps <= BASIS_POINTS,
    ensures
        fee_as_u64(price, fee_bps) == fee_on(price as int, fee_bps as int),
        0 <= fee_on(price as int, fee_bps as int) <= price,
        (price - fee_on(price as int, fee_bps as int)) + fee_on(price as int, fee_bps as int)
            == price,
{
    assert(0 <= price * fee_bps <= price * 10_000) by (nonlinear_arith)
        requires
            fee_bps <= 10_000,
    ;
}

/// At a rate of zero nothing is taken; at the full 10 000 basis points the
/// whole price is taken.
pub proof fn lemma_fee_bounds_of_rate(price: u64)
    ensures
        fee_on(price as int, 0) == 0,
        fee_on(price as int, 10_000) == price,
{
    assert(price * 0 == 0) by (nonlinear_arith);
    assert(price * 10_000 / 10_000 == price) by (nonlinear_arith);
}

/// A higher rate never gives a lower fee, and neither does a higher price.
pub proof fn lemma_fee_monotone(price1: u64, price2: u64, bps1: u16, bps2: u16)
    requires
        price1 <= price2,
        bps1 <= bps2,
    ensures
        fee_on(price1 as int, bps1 as int) <= fee_on(price2 as int, bps2 as int),
{
    assert(price1 * bps1 <= price2 * bps2) by (nonlinear_arith)
        requires
            0 <= price1 <= price2,
            0 <= bps1 <= bps2,
    ;
    vstd::arithmetic::div_mod::lemma_div_is_ordered(
        price1 * bps1,
        price2 * bps2,
        10_000,
    );
}

} // verus!
