//! The typed failures a pool operation can return. Every error leaves
//! the pool exactly as it was; nothing here is fatal to the process.

use vstd::prelude::*;

verus! {

/// Why an operation was refused.
#[derive(Clone, Copy, Debug, PartialEq, Eq, Structural)]
pub enum Error {
    /// A withdrawal requested more shares than the caller owns.
    InsufficientShares,
    /// A swap was attempted against an empty reserve on either side.
    InsufficientLiquidity,
    /// A checked addition, subtraction or multiplication would have
    /// overflowed; the call is refused rather than saturated.
    ArithmeticError,
    /// The access guard's human-verification predicate rejected the
    /// caller.
    NotHuman,
    /// A swap named the same token as source and destination.
    InvalidTokenPair,
}

} // verus!
