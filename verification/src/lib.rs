//! A multi-asset automated-market-maker ledger.
//!
//! The pool holds reserves of a small closed set of tokens, issues
//! proportional ownership shares to liquidity providers, and executes
//! constant-product swaps between any two pooled assets, skimming a
//! protocol fee into a treasury balance. Every balance update goes
//! through checked arithmetic, and every operation either commits in
//! full or fails with a typed error leaving the state untouched.

pub mod crypto;
pub mod errors;
pub mod events;
pub mod laws;
pub mod math;
pub mod pool;
pub mod registry;
pub mod shares;
pub mod token;

pub use token::AccountId;
pub use token::Balance;
pub use token::TokenId;
