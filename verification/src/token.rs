//! The closed set of pooled assets and the balances kept for each one.

use vstd::prelude::*;

verus! {

/// A fixed-point token amount with no implicit decimals.
pub type Balance = u128;

/// An account, reduced to the plain identifier the host environment
/// hands in with every call.
pub type AccountId = u128;

/// The closed enumeration of pooled asset kinds, named by ticker.
#[allow(non_camel_case_types)]
#[derive(Clone, Copy, Debug, Hash, PartialEq, Eq, Structural)]
pub enum TokenId {
    NRSH,
    ELXR,
    IMRT,
}

/// One balance per pooled token. An entry is zero until first written,
/// so a fresh value means "no balance recorded for any token".
#[derive(Clone, Copy, Debug, PartialEq, Eq, Structural)]
pub struct TokenAmounts {
    nrsh: Balance,
    elxr: Balance,
    imrt: Balance,
}

impl TokenAmounts {
    /// The balance recorded for `token`.
    pub closed spec fn spec_get(self, token: TokenId) -> Balance {
        match token {
            TokenId::NRSH => self.nrsh,
            TokenId::ELXR => self.elxr,
            TokenId::IMRT => self.imrt,
        }
    }

    /// All balances zero.
    pub fn new_zero() -> (r: Self)
        ensures
            forall|t: TokenId| r.spec_get(t) == 0,
    {
        TokenAmounts { nrsh: 0, elxr: 0, imrt: 0 }
    }

    /// Read the balance for `token`.
    pub fn get(&self, token: TokenId) -> (r: Balance)
        ensures
            r == self.spec_get(token),
    {
        match token {
            TokenId::NRSH => self.nrsh,
            TokenId::ELXR => self.elxr,
            TokenId::IMRT => self.imrt,
        }
    }

    /// Overwrite the balance for `token`, leaving every other token's
    /// balance as it was.
    pub fn set(&mut self, token: TokenId, value: Balance)
        ensures
            final(self).spec_get(token) == value,
            forall|t: TokenId| t != token ==> final(self).spec_get(t) == old(self).spec_get(t),
    {
        match token {
            TokenId::NRSH => {
                self.nrsh = value;
            },
            TokenId::ELXR => {
                self.elxr = value;
            },
            TokenId::IMRT => {
                self.imrt = value;
            },
        }
    }
}

} // verus!
