//! Notifications published for off-chain indexers. The pool appends
//! exactly one event to its log for every successful state transition;
//! events are never read back by the pool itself.

use vstd::prelude::*;
use crate::token::AccountId;
use crate::token::Balance;
use crate::token::TokenId;

verus! {

/// Liquidity was deposited and shares were minted.
#[derive(Clone, Copy, Debug, PartialEq, Eq, Structural)]
pub struct LiquidityAdded {
    pub provider: AccountId,
    pub token_id: TokenId,
    pub amount: Balance,
    pub shares: Balance,
}

/// Shares were burned and liquidity was withdrawn.
#[derive(Clone, Copy, Debug, PartialEq, Eq, Structural)]
pub struct LiquidityRemoved {
    pub provider: AccountId,
    pub token_id: TokenId,
    pub amount: Balance,
    pub shares: Balance,
}

/// A swap was executed; `amount_out` is the net amount delivered to
/// the trader after the fee was taken.
#[derive(Clone, Copy, Debug, PartialEq, Eq, Structural)]
pub struct TokenSwapped {
    pub user: AccountId,
    pub from_token: TokenId,
    pub to_token: TokenId,
    pub amount_in: Balance,
    pub amount_out: Balance,
    pub fee: Balance,
}

/// One entry of the pool's event log.
#[derive(Clone, Copy, Debug, PartialEq, Eq, Structural)]
pub enum PoolEvent {
    Added(LiquidityAdded),
    Removed(LiquidityRemoved),
    Swapped(TokenSwapped),
}

} // verus!
