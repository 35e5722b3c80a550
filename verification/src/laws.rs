//! Pool-level laws: properties of the pool's own specification
//! functions, stated exactly as the operations' contracts use them.

use vstd::prelude::*;
use crate::math::RATE_SCALE;
use crate::math::spec_burn_amount;
use crate::math::lemma_mint_burn_round_trip;
use crate::math::lemma_rate_cut_bounds;
use crate::math::lemma_swap_output_bounds;
use crate::math::lemma_swap_output_monotone;
use crate::math::lemma_swap_product_conserved;
use crate::pool::UnifiedLiquidityPool;
use crate::token::AccountId;
use crate::token::Balance;
use crate::token::TokenId;

verus! {

/// Conservation of the constant product across one swap. `swap`'s
/// contract leaves the source reserve at `reserve_from + amount_in`
/// and the destination reserve at `reserve_to - quote + fee -
/// treasury_cut`; the product of the two does not fall below the
/// product before the swap, provided the pool retains at least one
/// unit of fee or the quote's division leaves no remainder. (When the
/// whole fee leaves the pool, floor rounding can lower the product by
/// less than one unit of the grown source reserve; such inputs are
/// excluded here.)
pub proof fn lemma_swap_preserves_product(
    pool: UnifiedLiquidityPool,
    from_token: TokenId,
    to_token: TokenId,
    amount_in: Balance,
)
    requires
        pool.spec_fee_rate() <= RATE_SCALE,
        pool.spec_treasury_rate() <= RATE_SCALE,
        pool.spec_reserve(from_token) >= 1,
        pool.spec_reserve(to_token) >= 1,
        pool.spec_swap_fee(from_token, to_token, amount_in) - pool.spec_swap_treasury_cut(
            from_token,
            to_token,
            amount_in,
        ) >= 1 || (pool.spec_reserve(from_token) * pool.spec_reserve(to_token)) % (
        pool.spec_reserve(from_token) + amount_in) == 0,
    ensures
        (pool.spec_reserve(from_token) + amount_in) * (pool.spec_reserve(to_token)
            - pool.spec_swap_quote(from_token, to_token, amount_in) + pool.spec_swap_fee(
            from_token,
            to_token,
            amount_in,
        ) - pool.spec_swap_treasury_cut(from_token, to_token, amount_in)) >= pool.spec_reserve(
            from_token,
        ) * pool.spec_reserve(to_token),
{
    let rf = pool.spec_reserve(from_token) as int;
    let rt = pool.spec_reserve(to_token) as int;
    let quote = pool.spec_swap_quote(from_token, to_token, amount_in);
    let fee = pool.spec_swap_fee(from_token, to_token, amount_in);
    let cut = pool.spec_swap_treasury_cut(from_token, to_token, amount_in);
    lemma_swap_output_bounds(rf, rt, amount_in as int);
    lemma_rate_cut_bounds(quote, pool.spec_fee_rate() as int);
    lemma_rate_cut_bounds(fee, pool.spec_treasury_rate() as int);
    lemma_swap_product_conserved(rf, rt, amount_in as int, fee, cut);
}

/// No balance is ever negative: reserves, shares, share totals and
/// treasury balances are all carried in an unsigned balance type, so
/// the bound holds in every reachable state by construction.
pub proof fn lemma_no_negative_balances(
    pool: UnifiedLiquidityPool,
    account: AccountId,
    token: TokenId,
)
    ensures
        pool.spec_reserve(token) >= 0,
        pool.spec_shares(account, token) >= 0,
        pool.spec_total_shares(token) >= 0,
        pool.spec_treasury(token) >= 0,
{
}

/// Depositing `amount` and at once burning every minted share returns
/// at most `amount`, and exactly `amount` when the pool held neither
/// reserve nor outstanding shares for the token beforehand.
/// `add_liquidity`'s contract leaves the reserve at `reserve + amount`
/// and the share total at `total + minted`, so the left-hand side is
/// precisely what `remove_liquidity` then pays out for the minted
/// shares.
pub proof fn lemma_deposit_withdraw_round_trip(
    pool: UnifiedLiquidityPool,
    token: TokenId,
    amount: Balance,
)
    ensures
        spec_burn_amount(
            pool.spec_reserve(token) + amount,
            pool.spec_total_shares(token) + pool.spec_minted(token, amount),
            pool.spec_minted(token, amount),
        ) <= amount,
        pool.spec_reserve(token) == 0 && pool.spec_total_shares(token) == 0
            ==> spec_burn_amount(
            pool.spec_reserve(token) + amount,
            pool.spec_total_shares(token) + pool.spec_minted(token, amount),
            pool.spec_minted(token, amount),
        ) == amount,
{
    lemma_mint_burn_round_trip(
        pool.spec_reserve(token) as int,
        pool.spec_total_shares(token) as int,
        amount as int,
    );
}

/// For fixed reserves the swap quote is non-decreasing in the amount
/// paid in.
pub proof fn lemma_quote_monotone(
    pool: UnifiedLiquidityPool,
    from_token: TokenId,
    to_token: TokenId,
    amount_a: Balance,
    amount_b: Balance,
)
    requires
        pool.spec_reserve(from_token) >= 1,
        amount_a <= amount_b,
    ensures
        pool.spec_swap_quote(from_token, to_token, amount_a) <= pool.spec_swap_quote(
            from_token,
            to_token,
            amount_b,
        ),
{
    lemma_swap_output_monotone(
        pool.spec_reserve(from_token) as int,
        pool.spec_reserve(to_token) as int,
        amount_a as int,
        amount_b as int,
    );
}

} // verus!
