//! Fixed-point quantities with six decimal places and the single rounding
//! rule that turns a price and a size into the token amounts of an order.
//!
//! Prices and sizes are carried as integer micro-units (`MICRO` of them make
//! one whole unit), never as binary floating point, so independently built
//! orders scale to identical integer amounts.

use vstd::arithmetic::div_mod::lemma_fundamental_div_mod;
use vstd::prelude::*;

verus! {

/// Micro-units per whole unit: six decimal places of precision.
pub const MICRO: u64 = 1_000_000;

/// The exact quotient `n / d` rounded half to even (banker's rounding),
/// for a nonnegative dividend and a positive divisor.
pub open spec fn round_half_even_div(n: int, d: int) -> int
    recommends
        n >= 0,
        d > 0,
{
    let q = n / d;
    let r = n % d;
    if 2 * r < d {
        q
    } else if 2 * r > d {
        q + 1
    } else if q % 2 == 0 {
        q
    } else {
        q + 1
    }
}

/// The amount a price and a size determine. Over real values the exchange
/// wants `round_half_even(price * size * 10^6)`; over micro-units that is
/// `price_micro * size_micro / 10^6`, rounded half to even.
pub open spec fn scaled_amount_spec(price_micro: u64, size_micro: u64) -> int {
    round_half_even_div(price_micro * size_micro, MICRO as int)
}

/// Computes the scaled amount of an order from a price and a size in
/// micro-units, rounding half to even.
pub fn scaled_amount(price_micro: u64, size_micro: u64) -> (r: u64)
    requires
        price_micro < MICRO,
    ensures
        r == scaled_amount_spec(price_micro, size_micro),
        r <= size_micro,
{
    proof {
        assert((price_micro as int) * (size_micro as int) <= (MICRO as int) * (u64::MAX as int))
            by (nonlinear_arith)
            requires
                price_micro < MICRO,
                size_micro <= u64::MAX,
        ;
    }
    let prod: u128 = (price_micro as u128) * (size_micro as u128);
    let d: u128 = MICRO as u128;
    let q: u128 = prod / d;
    let rem: u128 = prod % d;
    proof {
        lemma_fundamental_div_mod(prod as int, d as int);
        if size_micro == 0 {
            assert(prod == 0) by (nonlinear_arith)
                requires
                    prod == (price_micro as u128) * (size_micro as u128),
                    size_micro == 0,
            ;
            assert(q == 0 && rem == 0);
        } else {
            assert(prod < d * (size_micro as u128)) by (nonlinear_arith)
                requires
                    prod == (price_micro as u128) * (size_micro as u128),
                    price_micro < MICRO,
                    d == MICRO as u128,
                    size_micro > 0,
            ;
            assert(q < size_micro as u128) by (nonlinear_arith)
                requires
                    prod == d * q + rem,
                    prod < d * (size_micro as u128),
                    d > 0,
                    rem >= 0,
            ;
        }
        assert(q + 1 <= u64::MAX);
        assert(rem < d);
        assert(prod == price_micro * size_micro);
        assert(q == prod as int / (MICRO as int));
        assert(rem == prod as int % (MICRO as int));
    }
    let round_up: bool = if 2 * rem > d {
        true
    } else if 2 * rem < d {
        false
    } else {
        q % 2 == 1
    };
    if round_up {
        (q + 1) as u64
    } else {
        q as u64
    }
}

} // verus!
