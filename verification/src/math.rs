//! The pricing and share-accounting formulas, stated over mathematical
//! integers, together with the lemmas the pool's contracts rest on.
//!
//! All divisions are floor divisions on non-negative operands, so the
//! pool never credits more than the exact proportional entitlement.

use vstd::prelude::*;
use vstd::arithmetic::div_mod::lemma_div_is_ordered;
use vstd::arithmetic::div_mod::lemma_div_is_ordered_by_denominator;
use vstd::arithmetic::div_mod::lemma_div_multiples_vanish;
use vstd::arithmetic::div_mod::lemma_div_non_zero;
use vstd::arithmetic::div_mod::lemma_div_pos_is_pos;
use vstd::arithmetic::div_mod::lemma_fundamental_div_mod;
use vstd::arithmetic::div_mod::lemma_mod_division_less_than_divisor;
use vstd::arithmetic::mul::lemma_mul_inequality;
use vstd::arithmetic::mul::lemma_mul_is_commutative;
use vstd::arithmetic::mul::lemma_mul_is_distributive_add;
use vstd::arithmetic::mul::lemma_mul_nonnegative;

verus! {

/// Fee and treasury rates are parts per ten thousand.
pub const RATE_SCALE: u128 = 10000;

/// Raw constant-product swap output: what leaves the destination
/// reserve before any fee is taken, for a trade of `amount_in` against
/// reserves `reserve_from` and `reserve_to`.
pub open spec fn spec_swap_output(reserve_from: int, reserve_to: int, amount_in: int) -> int {
    reserve_to - (reserve_from * reserve_to) / (reserve_from + amount_in)
}

/// A basis-point cut: `floor(amount * rate / 10000)`.
pub open spec fn spec_rate_cut(amount: int, rate: int) -> int {
    (amount * rate) / (RATE_SCALE as int)
}

/// Shares minted for a deposit of `amount` against a reserve holding
/// `reserve` units backed by `total` outstanding shares. The first
/// depositor sets an exchange rate of one share per unit.
pub open spec fn spec_mint_shares(reserve: int, total: int, amount: int) -> int {
    if reserve == 0 {
        amount
    } else {
        (amount * total) / reserve
    }
}

/// Amount returned for burning `shares` of `total` outstanding shares
/// against a reserve of `reserve` units. With no shares outstanding
/// there is nothing to redeem.
pub open spec fn spec_burn_amount(reserve: int, total: int, shares: int) -> int {
    if total == 0 {
        0
    } else {
        (shares * reserve) / total
    }
}

/// The swap output never exceeds the destination reserve, and is
/// strictly below it whenever `reserve_from * reserve_to` is at least
/// `reserve_from + amount_in`.
pub proof fn lemma_swap_output_bounds(reserve_from: int, reserve_to: int, amount_in: int)
    requires
        reserve_from >= 1,
        reserve_to >= 1,
        amount_in >= 0,
    ensures
        0 <= spec_swap_output(reserve_from, reserve_to, amount_in) <= reserve_to,
        reserve_from + amount_in <= reserve_from * reserve_to ==> spec_swap_output(
            reserve_from,
            reserve_to,
            amount_in,
        ) < reserve_to,
{
    let product = reserve_from * reserve_to;
    let denom = reserve_from + amount_in;
    lemma_mul_nonnegative(reserve_from, reserve_to);
    lemma_div_pos_is_pos(product, denom);
    lemma_div_is_ordered_by_denominator(product, reserve_from, denom);
    lemma_mul_is_commutative(reserve_from, reserve_to);
    lemma_div_multiples_vanish(reserve_to, reserve_from);
    if denom <= product {
        lemma_div_non_zero(product, denom);
    }
}

/// A basis-point cut of at most the whole: `0 <= cut <= amount` when
/// the rate is at most one (ten thousand basis points).
pub proof fn lemma_rate_cut_bounds(amount: int, rate: int)
    requires
        amount >= 0,
        0 <= rate <= RATE_SCALE,
    ensures
        0 <= spec_rate_cut(amount, rate) <= amount,
{
    let scale = RATE_SCALE as int;
    lemma_mul_nonnegative(amount, rate);
    lemma_div_pos_is_pos(amount * rate, scale);
    lemma_mul_inequality(rate, scale, amount);
    lemma_mul_is_commutative(rate, amount);
    lemma_mul_is_commutative(scale, amount);
    lemma_div_is_ordered(amount * rate, amount * scale, scale);
    lemma_div_multiples_vanish(amount, scale);
}

/// For fixed reserves the swap output is non-decreasing in the amount
/// paid in.
pub proof fn lemma_swap_output_monotone(
    reserve_from: int,
    reserve_to: int,
    amount_a: int,
    amount_b: int,
)
    requires
        reserve_from >= 1,
        reserve_to >= 0,
        0 <= amount_a <= amount_b,
    ensures
        spec_swap_output(reserve_from, reserve_to, amount_a) <= spec_swap_output(
            reserve_from,
            reserve_to,
            amount_b,
        ),
{
    lemma_mul_nonnegative(reserve_from, reserve_to);
    lemma_div_is_ordered_by_denominator(
        reserve_from * reserve_to,
        reserve_from + amount_a,
        reserve_from + amount_b,
    );
}

/// Conservation of the constant product. After a swap the source
/// reserve holds `reserve_from + amount_in` and the destination reserve
/// holds `reserve_to - output + fee - treasury_cut` (the pool keeps the
/// part of the fee that is not routed to the treasury). The product of
/// the two reserves does not decrease, provided the pool retains at
/// least one unit of fee or the division leaves no remainder; when the
/// whole fee leaves the pool and the division rounds, the product can
/// drop by less than one unit of the source reserve.
pub proof fn lemma_swap_product_conserved(
    reserve_from: int,
    reserve_to: int,
    amount_in: int,
    fee: int,
    treasury_cut: int,
)
    requires
        reserve_from >= 1,
        reserve_to >= 1,
        amount_in >= 0,
        0 <= treasury_cut <= fee,
        fee - treasury_cut >= 1 || (reserve_from * reserve_to) % (reserve_from + amount_in) == 0,
    ensures
        (reserve_from + amount_in) * (reserve_to - spec_swap_output(
            reserve_from,
            reserve_to,
            amount_in,
        ) + fee - treasury_cut) >= reserve_from * reserve_to,
{
    let product = reserve_from * reserve_to;
    let denom = reserve_from + amount_in;
    let quot = product / denom;
    let retained = fee - treasury_cut;
    lemma_mul_nonnegative(reserve_from, reserve_to);
    lemma_fundamental_div_mod(product, denom);
    lemma_mod_division_less_than_divisor(product, denom);
    assert(reserve_to - spec_swap_output(reserve_from, reserve_to, amount_in) == quot);
    lemma_mul_is_distributive_add(denom, quot, retained);
    if retained >= 1 {
        lemma_mul_inequality(1, retained, denom);
        lemma_mul_is_commutative(retained, denom);
    } else {
        lemma_mul_nonnegative(denom, retained);
    }
}

/// Depositing `amount` and at once burning every minted share returns
/// at most `amount`; it returns exactly `amount` when the pool held
/// neither reserve nor shares for the token beforehand.
pub proof fn lemma_mint_burn_round_trip(reserve: int, total: int, amount: int)
    requires
        reserve >= 0,
        total >= 0,
        amount >= 0,
    ensures
        spec_burn_amount(
            reserve + amount,
            total + spec_mint_shares(reserve, total, amount),
            spec_mint_shares(reserve, total, amount),
        ) <= amount,
        reserve == 0 && total == 0 ==> spec_burn_amount(
            reserve + amount,
            total + spec_mint_shares(reserve, total, amount),
            spec_mint_shares(reserve, total, amount),
        ) == amount,
{
    let minted = spec_mint_shares(reserve, total, amount);
    let new_reserve = reserve + amount;
    let new_total = total + minted;
    if reserve == 0 {
        assert(minted == amount);
        if new_total == 0 {
            assert(spec_burn_amount(new_reserve, new_total, minted) == 0);
        } else {
            lemma_mul_inequality(amount, new_total, amount);
            lemma_mul_is_commutative(amount, new_total);
            lemma_div_is_ordered(amount * new_reserve, amount * new_total, new_total);
            assert(new_reserve <= new_total || total == 0);
            if total == 0 {
                lemma_div_multiples_vanish(amount, new_total);
                assert(new_reserve == new_total);
            } else {
                lemma_mul_inequality(new_reserve, new_total, amount);
                lemma_mul_is_commutative(new_reserve, amount);
                lemma_mul_is_commutative(new_total, amount);
                lemma_div_is_ordered(amount * new_reserve, amount * new_total, new_total);
                lemma_div_multiples_vanish(amount, new_total);
            }
        }
    } else {
        // minted * reserve <= amount * total, by the floor division.
        lemma_fundamental_div_mod(amount * total, reserve);
        lemma_mod_division_less_than_divisor(amount * total, reserve);
        lemma_mul_nonnegative(amount, total);
        lemma_div_pos_is_pos(amount * total, reserve);
        assert(minted * reserve <= amount * total) by {
            lemma_mul_is_commutative(reserve, minted);
        };
        if new_total == 0 {
            assert(spec_burn_amount(new_reserve, new_total, minted) == 0);
        } else {
            // minted * new_reserve <= amount * new_total.
            lemma_mul_is_distributive_add(minted, reserve, amount);
            lemma_mul_is_distributive_add(amount, total, minted);
            lemma_mul_is_commutative(minted, amount);
            assert(minted * new_reserve <= amount * new_total);
            lemma_div_is_ordered(minted * new_reserve, amount * new_total, new_total);
            lemma_mul_is_commutative(amount, new_total);
            lemma_div_multiples_vanish(amount, new_total);
        }
    }
}

/// Burning at most the outstanding shares returns at most the reserve.
pub proof fn lemma_burn_within_reserve(reserve: int, total: int, shares: int)
    requires
        reserve >= 0,
        total >= 0,
        0 <= shares <= total,
    ensures
        0 <= spec_burn_amount(reserve, total, shares) <= reserve,
{
    if total != 0 {
        lemma_mul_nonnegative(shares, reserve);
        lemma_div_pos_is_pos(shares * reserve, total);
        lemma_mul_inequality(shares, total, reserve);
        lemma_div_is_ordered(shares * reserve, total * reserve, total);
        lemma_mul_is_commutative(total, reserve);
        lemma_div_multiples_vanish(reserve, total);
    }
}

} // verus!
