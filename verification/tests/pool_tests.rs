use unified_liquidity_pool::errors::Error;
use unified_liquidity_pool::events::LiquidityAdded;
use unified_liquidity_pool::events::LiquidityRemoved;
use unified_liquidity_pool::events::PoolEvent;
use unified_liquidity_pool::events::TokenSwapped;
use unified_liquidity_pool::pool::UnifiedLiquidityPool;
use unified_liquidity_pool::Balance;
use unified_liquidity_pool::TokenId;

const ALICE: u128 = 1;
const BOB: u128 = 2;

#[test]
fn share_accounting_scenario() {
    let mut pool = UnifiedLiquidityPool::new(30, 5000);
    assert_eq!(pool.get_reserves(TokenId::NRSH), 0);

    let minted = pool.add_liquidity(ALICE, true, TokenId::NRSH, 1000).unwrap();
    assert_eq!(minted, 1000);
    assert_eq!(pool.get_reserves(TokenId::NRSH), 1000);
    assert_eq!(pool.get_total_shares(TokenId::NRSH), 1000);

    let minted2 = pool.add_liquidity(ALICE, true, TokenId::NRSH, 500).unwrap();
    assert_eq!(minted2, 500);
    assert_eq!(pool.get_reserves(TokenId::NRSH), 1500);
    assert_eq!(pool.get_total_shares(TokenId::NRSH), 1500);
    assert_eq!(pool.get_shares(ALICE, TokenId::NRSH), 1500);

    let amount = pool.remove_liquidity(ALICE, TokenId::NRSH, 750).unwrap();
    assert_eq!(amount, 750);
    assert_eq!(pool.get_reserves(TokenId::NRSH), 750);
    assert_eq!(pool.get_total_shares(TokenId::NRSH), 750);
    assert_eq!(pool.get_shares(ALICE, TokenId::NRSH), 750);
}

#[test]
fn swap_scenario_small_fee_rounds_to_zero() {
    let mut pool = UnifiedLiquidityPool::new(30, 5000);
    pool.add_liquidity(ALICE, true, TokenId::NRSH, 1000).unwrap();
    pool.add_liquidity(ALICE, true, TokenId::ELXR, 1000).unwrap();

    let net = pool.swap(BOB, TokenId::NRSH, TokenId::ELXR, 100).unwrap();
    assert_eq!(net, 91);
    assert_eq!(pool.get_reserves(TokenId::NRSH), 1100);
    assert_eq!(pool.get_reserves(TokenId::ELXR), 909);
    assert_eq!(pool.get_treasury(TokenId::ELXR), 0);
}

#[test]
fn swap_scenario_nonzero_fee_and_treasury() {
    let mut pool = UnifiedLiquidityPool::new(30, 5000);
    pool.add_liquidity(ALICE, true, TokenId::NRSH, 1_000_000).unwrap();
    pool.add_liquidity(ALICE, true, TokenId::ELXR, 1_000_000).unwrap();

    // Raw output: 1000000 - 10^12 / 1100000 = 90910.
    // Fee: floor(90910 * 30 / 10000) = 272; net = 90638.
    // Treasury cut: floor(272 * 5000 / 10000) = 136.
    let net = pool.swap(BOB, TokenId::NRSH, TokenId::ELXR, 100_000).unwrap();
    assert_eq!(net, 90_638);
    assert_eq!(pool.get_reserves(TokenId::NRSH), 1_100_000);
    // The pool keeps the fee share not routed to the treasury:
    // 1000000 - 90910 + 272 - 136.
    assert_eq!(pool.get_reserves(TokenId::ELXR), 909_226);
    assert_eq!(pool.get_treasury(TokenId::ELXR), 136);

    // Conservation: the reserve product did not fall.
    let before: u128 = 1_000_000 * 1_000_000;
    let after: u128 =
        pool.get_reserves(TokenId::NRSH) * pool.get_reserves(TokenId::ELXR);
    assert!(after >= before);
}

#[test]
fn swap_same_token_always_invalid_pair() {
    let mut pool = UnifiedLiquidityPool::new(30, 5000);
    // Even on an empty pool the pair check comes first.
    assert_eq!(
        pool.swap(ALICE, TokenId::IMRT, TokenId::IMRT, 5),
        Err(Error::InvalidTokenPair)
    );
    pool.add_liquidity(ALICE, true, TokenId::NRSH, 1000).unwrap();
    assert_eq!(
        pool.swap(ALICE, TokenId::NRSH, TokenId::NRSH, 0),
        Err(Error::InvalidTokenPair)
    );
}

#[test]
fn add_liquidity_rejects_non_human() {
    let mut pool = UnifiedLiquidityPool::new(30, 5000);
    assert_eq!(
        pool.add_liquidity(ALICE, false, TokenId::NRSH, 1000),
        Err(Error::NotHuman)
    );
    assert_eq!(pool.get_reserves(TokenId::NRSH), 0);
    assert_eq!(pool.get_shares(ALICE, TokenId::NRSH), 0);
    assert_eq!(pool.events().len(), 0);
}

#[test]
fn remove_liquidity_rejects_insufficient_shares() {
    let mut pool = UnifiedLiquidityPool::new(30, 5000);
    pool.add_liquidity(ALICE, true, TokenId::NRSH, 1000).unwrap();
    assert_eq!(
        pool.remove_liquidity(ALICE, TokenId::NRSH, 1001),
        Err(Error::InsufficientShares)
    );
    // An account that never deposited owns zero shares.
    assert_eq!(
        pool.remove_liquidity(BOB, TokenId::NRSH, 1),
        Err(Error::InsufficientShares)
    );
    assert_eq!(pool.get_reserves(TokenId::NRSH), 1000);
}

#[test]
fn swap_rejects_empty_reserve() {
    let mut pool = UnifiedLiquidityPool::new(30, 5000);
    pool.add_liquidity(ALICE, true, TokenId::NRSH, 1000).unwrap();
    assert_eq!(
        pool.swap(ALICE, TokenId::NRSH, TokenId::ELXR, 10),
        Err(Error::InsufficientLiquidity)
    );
    assert_eq!(
        pool.swap(ALICE, TokenId::ELXR, TokenId::NRSH, 10),
        Err(Error::InsufficientLiquidity)
    );
}

#[test]
fn add_liquidity_overflow_is_arithmetic_error() {
    let mut pool = UnifiedLiquidityPool::new(30, 5000);
    pool.add_liquidity(ALICE, true, TokenId::NRSH, Balance::MAX).unwrap();
    // The reserve can hold no more.
    assert_eq!(
        pool.add_liquidity(BOB, true, TokenId::NRSH, 1),
        Err(Error::ArithmeticError)
    );
    // The share product overflows as well.
    assert_eq!(
        pool.add_liquidity(BOB, true, TokenId::NRSH, 2),
        Err(Error::ArithmeticError)
    );
    assert_eq!(pool.get_reserves(TokenId::NRSH), Balance::MAX);
}

#[test]
fn swap_overflow_is_arithmetic_error() {
    let mut pool = UnifiedLiquidityPool::new(30, 5000);
    let big: Balance = 1 << 64;
    pool.add_liquidity(ALICE, true, TokenId::NRSH, big).unwrap();
    pool.add_liquidity(ALICE, true, TokenId::ELXR, big).unwrap();
    // The reserve product is two to the 128th, one past the width.
    assert_eq!(
        pool.swap(BOB, TokenId::NRSH, TokenId::ELXR, 10),
        Err(Error::ArithmeticError)
    );
    assert_eq!(pool.get_reserves(TokenId::NRSH), big);
    assert_eq!(pool.get_reserves(TokenId::ELXR), big);
}

#[test]
fn round_trip_on_fresh_pool_is_exact() {
    let mut pool = UnifiedLiquidityPool::new(30, 5000);
    let minted = pool.add_liquidity(ALICE, true, TokenId::IMRT, 777).unwrap();
    assert_eq!(minted, 777);
    let amount = pool.remove_liquidity(ALICE, TokenId::IMRT, minted).unwrap();
    assert_eq!(amount, 777);
    assert_eq!(pool.get_reserves(TokenId::IMRT), 0);
    assert_eq!(pool.get_total_shares(TokenId::IMRT), 0);
}

#[test]
fn round_trip_never_returns_more_than_deposited() {
    // Ten percent fee, nothing to the treasury, so swaps compound
    // value into the reserve and leave it out of step with the share
    // total.
    let mut pool = UnifiedLiquidityPool::new(1000, 0);
    pool.add_liquidity(ALICE, true, TokenId::NRSH, 1000).unwrap();
    pool.add_liquidity(ALICE, true, TokenId::ELXR, 1000).unwrap();
    // Raw output 334, fee 33, all of it kept in the NRSH reserve:
    // reserve becomes 1000 - 334 + 33 = 699 with 1000 shares out.
    pool.swap(BOB, TokenId::ELXR, TokenId::NRSH, 500).unwrap();
    assert_eq!(pool.get_reserves(TokenId::NRSH), 699);

    let minted = pool.add_liquidity(BOB, true, TokenId::NRSH, 100).unwrap();
    // floor(100 * 1000 / 699) = 143.
    assert_eq!(minted, 143);
    let amount = pool.remove_liquidity(BOB, TokenId::NRSH, minted).unwrap();
    // floor(143 * 799 / 1143) = 99: one unit is lost to rounding and
    // stays with the pool.
    assert_eq!(amount, 99);
    assert!(amount <= 100);
}

#[test]
fn quote_is_monotone_in_amount_in() {
    let mut pool = UnifiedLiquidityPool::new(30, 5000);
    pool.add_liquidity(ALICE, true, TokenId::NRSH, 1000).unwrap();
    pool.add_liquidity(ALICE, true, TokenId::ELXR, 1000).unwrap();
    let q100 = pool.quote_swap(TokenId::NRSH, TokenId::ELXR, 100).unwrap();
    let q200 = pool.quote_swap(TokenId::NRSH, TokenId::ELXR, 200).unwrap();
    let q200_again = pool.quote_swap(TokenId::NRSH, TokenId::ELXR, 200).unwrap();
    assert_eq!(q100, 91);
    assert_eq!(q200, 167);
    assert!(q100 <= q200);
    assert_eq!(q200, q200_again);
    // Quoting mutated nothing.
    assert_eq!(pool.get_reserves(TokenId::NRSH), 1000);
    assert_eq!(pool.get_reserves(TokenId::ELXR), 1000);
}

#[test]
fn queries_are_idempotent() {
    let mut pool = UnifiedLiquidityPool::new(30, 5000);
    pool.add_liquidity(ALICE, true, TokenId::NRSH, 123).unwrap();
    assert_eq!(pool.get_reserves(TokenId::NRSH), pool.get_reserves(TokenId::NRSH));
    assert_eq!(
        pool.get_shares(ALICE, TokenId::NRSH),
        pool.get_shares(ALICE, TokenId::NRSH)
    );
    assert_eq!(pool.get_reserves(TokenId::ELXR), 0);
    assert_eq!(pool.get_shares(BOB, TokenId::ELXR), 0);
}

#[test]
fn each_success_emits_exactly_one_event() {
    let mut pool = UnifiedLiquidityPool::new(30, 5000);
    pool.add_liquidity(ALICE, true, TokenId::NRSH, 1000).unwrap();
    pool.add_liquidity(ALICE, true, TokenId::ELXR, 1000).unwrap();
    pool.swap(BOB, TokenId::NRSH, TokenId::ELXR, 100).unwrap();
    pool.remove_liquidity(ALICE, TokenId::NRSH, 400).unwrap();
    // A failed call emits nothing.
    let _ = pool.swap(BOB, TokenId::IMRT, TokenId::IMRT, 1);

    let events = pool.events();
    assert_eq!(events.len(), 4);
    assert_eq!(
        events[0],
        PoolEvent::Added(LiquidityAdded {
            provider: ALICE,
            token_id: TokenId::NRSH,
            amount: 1000,
            shares: 1000,
        })
    );
    assert_eq!(
        events[2],
        PoolEvent::Swapped(TokenSwapped {
            user: BOB,
            from_token: TokenId::NRSH,
            to_token: TokenId::ELXR,
            amount_in: 100,
            amount_out: 91,
            fee: 0,
        })
    );
    assert_eq!(
        events[3],
        PoolEvent::Removed(LiquidityRemoved {
            provider: ALICE,
            token_id: TokenId::NRSH,
            amount: 440,
            shares: 400,
        })
    );
}

#[test]
fn shares_are_kept_per_account() {
    let mut pool = UnifiedLiquidityPool::new(30, 5000);
    pool.add_liquidity(ALICE, true, TokenId::NRSH, 1000).unwrap();
    pool.add_liquidity(BOB, true, TokenId::NRSH, 500).unwrap();
    assert_eq!(pool.get_shares(ALICE, TokenId::NRSH), 1000);
    assert_eq!(pool.get_shares(BOB, TokenId::NRSH), 500);
    assert_eq!(pool.get_total_shares(TokenId::NRSH), 1500);

    pool.remove_liquidity(BOB, TokenId::NRSH, 200).unwrap();
    assert_eq!(pool.get_shares(ALICE, TokenId::NRSH), 1000);
    assert_eq!(pool.get_shares(BOB, TokenId::NRSH), 300);
    assert_eq!(pool.get_total_shares(TokenId::NRSH), 1300);
}
