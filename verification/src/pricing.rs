//! Price and tax arithmetic for the create workflow.
//!
//! Every client costs the same fixed unit price in the smallest currency
//! unit.  On top of the price a surcharge is added: one percent of the price
//! plus one percent of that percent, rounded to the nearest integer (half
//! away from zero).  The total is the exact amount requested from the payment
//! gateway and later presented to its verify operation.

use vstd::prelude::*;

verus! {

/// Cost of a single client, in the smallest currency unit.
pub const UNIT_PRICE: u32 = 550000;

/// Price for `n` clients.
pub open spec fn price_of(n: int) -> int {
    n * (UNIT_PRICE as int)
}

/// Surcharge on a price: `round(price/100 + (price/100)/100)`, i.e. the
/// nearest integer to `price * 101 / 10000`, halves rounded up.
pub open spec fn tax_of(price: int) -> int {
    (101 * price + 5000) / 10000
}

/// Amount charged for `n` clients: price plus surcharge.
pub open spec fn total_of(n: int) -> int {
    price_of(n) + tax_of(price_of(n))
}

/// The surcharge of a non-negative price is non-negative and never exceeds
/// the price itself (for prices of at least one currency unit the bound is
/// strict, but non-strict is all the callers need).
proof fn lemma_tax_bounds(price: int)
    requires
        price >= 0,
    ensures
        0 <= tax_of(price) <= price,
{
    assert(0 <= (101 * price + 5000) / 10000 <= price) by (nonlinear_arith)
        requires
            price >= 0,
    ;
}

/// The total amount for `n` clients has the closed form `n * 555555`:
/// the price is `n * 550000` and the surcharge comes to exactly
/// `n * 5555`, with nothing lost to rounding.
pub proof fn lemma_total_amount_exact(n: int)
    requires
        n >= 0,
    ensures
        total_of(n) == n * 555555,
{
    assert(tax_of(price_of(n)) == n * 5555) by (nonlinear_arith);
    assert(price_of(n) + n * 5555 == n * 555555) by (nonlinear_arith);
}

/// Computes the surcharge for a price.
pub fn calculate_tax(price: u32) -> (tax: u32)
    ensures
        tax == tax_of(price as int),
{
    proof {
        lemma_tax_bounds(price as int);
    }
    let wide: u64 = (101u64 * (price as u64) + 5000) / 10000;
    wide as u32
}

/// Whether the total amount for `n` clients still fits the gateway's
/// 32-bit amount field.
pub fn total_fits(n: usize) -> (fits: bool)
    ensures
        fits == (total_of(n as int) <= u32::MAX as int),
{
    proof {
        lemma_total_amount_exact(n as int);
        assert(n as int <= 7730 <==> n as int * 555555 <= u32::MAX as int) by (nonlinear_arith);
    }
    n <= 7730
}

/// Computes the total amount charged for `n` clients.
pub fn compute_total(n: usize) -> (total: u32)
    requires
        total_of(n as int) <= u32::MAX as int,
    ensures
        total == total_of(n as int),
{
    proof {
        lemma_tax_bounds(price_of(n as int));
        assert(n as int * (UNIT_PRICE as int) >= 0) by (nonlinear_arith);
    }
    let price_wide: u64 = (n as u64) * (UNIT_PRICE as u64);
    let price: u32 = price_wide as u32;
    let tax = calculate_tax(price);
    price + tax
}

} // verus!
