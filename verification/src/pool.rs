//! The unified liquidity pool: reserves, provider shares, treasury,
//! and the three state-changing operations. Every operation either
//! commits in full — appending exactly one event — or returns a typed
//! error and leaves the pool exactly as it was.

use vstd::prelude::*;
use crate::crypto::DilithiumSignature;
use crate::crypto::KyberPublicKey;
use crate::crypto::dilithium_keygen;
use crate::crypto::dilithium_sign;
use crate::crypto::kyber_keygen;
use crate::errors::Error;
use crate::events::LiquidityAdded;
use crate::events::LiquidityRemoved;
use crate::events::PoolEvent;
use crate::events::TokenSwapped;
use crate::math::RATE_SCALE;
use crate::math::lemma_burn_within_reserve;
use vstd::arithmetic::div_mod::lemma_div_nonincreasing;
use crate::math::lemma_rate_cut_bounds;
use crate::math::lemma_swap_output_bounds;
use crate::math::spec_burn_amount;
use crate::math::spec_mint_shares;
use crate::math::spec_rate_cut;
use crate::math::spec_swap_output;
use crate::shares::ShareLedger;
use crate::token::AccountId;
use crate::token::Balance;
use crate::token::TokenAmounts;
use crate::token::TokenId;

verus! {

/// The pool's entire state: one shared resource, mutated exclusively
/// by the operation currently executing.
pub struct UnifiedLiquidityPool {
    /// Token reserves, written only through `update_reserves`.
    reserves: TokenAmounts,
    /// Liquidity-provider shares per (account, token).
    shares: ShareLedger,
    /// Outstanding shares per token; always equal to the per-token sum
    /// over the share ledger.
    total_shares: TokenAmounts,
    /// Accumulated protocol-fee balances.
    treasury: TokenAmounts,
    /// Swap fee, in basis points, fixed at construction.
    fee_rate: Balance,
    /// Treasury's cut of the fee, in basis points, fixed at construction.
    treasury_rate: Balance,
    /// Opaque key material from the signer collaborator.
    kyber_public_key: KyberPublicKey,
    /// Opaque construction-time signature from the signer collaborator.
    dilithium_signature: DilithiumSignature,
    /// Append-only log of events, one per successful operation.
    events: Vec<PoolEvent>,
}

impl UnifiedLiquidityPool {
    /// The reserve held for a token; zero when never written.
    pub closed spec fn spec_reserve(self, token: TokenId) -> Balance {
        self.reserves.spec_get(token)
    }

    /// The shares an account holds in a token's pool; zero by default.
    pub closed spec fn spec_shares(self, account: AccountId, token: TokenId) -> Balance {
        self.shares.spec_get(account, token)
    }

    /// The outstanding shares issued for a token.
    pub closed spec fn spec_total_shares(self, token: TokenId) -> Balance {
        self.total_shares.spec_get(token)
    }

    /// The protocol-fee balance accumulated for a token.
    pub closed spec fn spec_treasury(self, token: TokenId) -> Balance {
        self.treasury.spec_get(token)
    }

    /// The swap fee in basis points.
    pub closed spec fn spec_fee_rate(self) -> Balance {
        self.fee_rate
    }

    /// The treasury's basis-point cut of each fee.
    pub closed spec fn spec_treasury_rate(self) -> Balance {
        self.treasury_rate
    }

    /// The event log.
    pub closed spec fn spec_events(self) -> Seq<PoolEvent> {
        self.events@
    }

    /// Well-formedness: the share ledger keeps one entry per key, the
    /// stored per-token share totals equal the ledger sums, and both
    /// rates are genuine basis points.
    pub closed spec fn wf(self) -> bool {
        &&& self.shares.wf()
        &&& forall|t: TokenId|
            #[trigger] self.shares.spec_sum(t) == self.total_shares.spec_get(t) as int
        &&& self.fee_rate <= RATE_SCALE
        &&& self.treasury_rate <= RATE_SCALE
    }

    /// Shares minted for depositing `amount` of `token` against the
    /// current reserve and share total.
    pub open spec fn spec_minted(self, token: TokenId, amount: Balance) -> int {
        spec_mint_shares(
            self.spec_reserve(token) as int,
            self.spec_total_shares(token) as int,
            amount as int,
        )
    }

    /// Amount returned for burning `shares_amount` shares of `token`
    /// against the current reserve and share total.
    pub open spec fn spec_withdrawal(self, token: TokenId, shares_amount: Balance) -> int {
        spec_burn_amount(
            self.spec_reserve(token) as int,
            self.spec_total_shares(token) as int,
            shares_amount as int,
        )
    }

    /// The raw constant-product output for a swap, before the fee.
    pub open spec fn spec_swap_quote(self, from_token: TokenId, to_token: TokenId, amount_in: Balance) -> int {
        spec_swap_output(
            self.spec_reserve(from_token) as int,
            self.spec_reserve(to_token) as int,
            amount_in as int,
        )
    }

    /// The fee taken from a swap's raw output.
    pub open spec fn spec_swap_fee(self, from_token: TokenId, to_token: TokenId, amount_in: Balance) -> int {
        spec_rate_cut(self.spec_swap_quote(from_token, to_token, amount_in), self.spec_fee_rate() as int)
    }

    /// The treasury's cut of a swap's fee.
    pub open spec fn spec_swap_treasury_cut(
        self,
        from_token: TokenId,
        to_token: TokenId,
        amount_in: Balance,
    ) -> int {
        spec_rate_cut(
            self.spec_swap_fee(from_token, to_token, amount_in),
            self.spec_treasury_rate() as int,
        )
    }

    /// When a deposit must be refused as an arithmetic overflow: some
    /// checked step — the share product, the reserve, the provider's
    /// balance, or the share total — would exceed the balance width.
    pub open spec fn add_liquidity_overflows(
        self,
        caller: AccountId,
        token: TokenId,
        amount: Balance,
    ) -> bool {
        ||| self.spec_reserve(token) > 0 && amount * self.spec_total_shares(token) > Balance::MAX
        ||| self.spec_reserve(token) + amount > Balance::MAX
        ||| self.spec_shares(caller, token) + self.spec_minted(token, amount) > Balance::MAX
        ||| self.spec_total_shares(token) + self.spec_minted(token, amount) > Balance::MAX
    }

    /// When a withdrawal must be refused as an arithmetic overflow:
    /// the product of shares and reserve would exceed the balance width.
    pub open spec fn remove_liquidity_overflows(self, token: TokenId, shares_amount: Balance) -> bool {
        self.spec_total_shares(token) > 0 && shares_amount * self.spec_reserve(token)
            > Balance::MAX
    }

    /// When a quote must be refused as an arithmetic overflow: the
    /// reserve product or the grown source reserve would exceed the
    /// balance width.
    pub open spec fn quote_swap_overflows(
        self,
        from_token: TokenId,
        to_token: TokenId,
        amount_in: Balance,
    ) -> bool {
        ||| self.spec_reserve(from_token) * self.spec_reserve(to_token) > Balance::MAX
        ||| self.spec_reserve(from_token) + amount_in > Balance::MAX
    }

    /// When a swap must be refused as an arithmetic overflow: the
    /// quote, the fee product, the treasury-cut product, or the grown
    /// treasury balance would exceed the balance width.
    pub open spec fn swap_overflows(
        self,
        from_token: TokenId,
        to_token: TokenId,
        amount_in: Balance,
    ) -> bool {
        ||| self.quote_swap_overflows(from_token, to_token, amount_in)
        ||| self.spec_swap_quote(from_token, to_token, amount_in) * self.spec_fee_rate()
            > Balance::MAX
        ||| self.spec_swap_fee(from_token, to_token, amount_in) * self.spec_treasury_rate()
            > Balance::MAX
        ||| self.spec_treasury(to_token) + self.spec_swap_treasury_cut(from_token, to_token, amount_in)
            > Balance::MAX
    }

    /// In a well-formed pool no single account holds more shares in a
    /// token than the token's outstanding total: the stored total
    /// equals the sum of all recorded balances, and every balance is
    /// non-negative.
    pub proof fn lemma_shares_bounded_by_total(self, account: AccountId, token: TokenId)
        requires
            self.wf(),
        ensures
            self.spec_shares(account, token) <= self.spec_total_shares(token),
    {
        self.shares.lemma_get_le_sum(account, token);
    }

    /// Construct a pool with the given protocol rates, no balances,
    /// and an empty event log. The placeholder signer keys are taken
    /// from the mock collaborator.
    pub fn new(fee_rate: Balance, treasury_rate: Balance) -> (pool: Self)
        requires
            fee_rate <= RATE_SCALE,
            treasury_rate <= RATE_SCALE,
        ensures
            pool.wf(),
            forall|t: TokenId| pool.spec_reserve(t) == 0,
            forall|a: AccountId, t: TokenId| pool.spec_shares(a, t) == 0,
            forall|t: TokenId| pool.spec_total_shares(t) == 0,
            forall|t: TokenId| pool.spec_treasury(t) == 0,
            pool.spec_fee_rate() == fee_rate,
            pool.spec_treasury_rate() == treasury_rate,
            pool.spec_events().len() == 0,
    {
        let (kyber_public_key, _kyber_private) = kyber_keygen();
        let (_dilithium_public, dilithium_private) = dilithium_keygen();
        let message: Vec<u8> = Vec::new();
        let dilithium_signature = dilithium_sign(&dilithium_private, message.as_slice());
        UnifiedLiquidityPool {
            reserves: TokenAmounts::new_zero(),
            shares: ShareLedger::new(),
            total_shares: TokenAmounts::new_zero(),
            treasury: TokenAmounts::new_zero(),
            fee_rate,
            treasury_rate,
            kyber_public_key,
            dilithium_signature,
            events: Vec::new(),
        }
    }

    /// The single choke point for reserve changes: adjust one token's
    /// reserve by `amount`, up or down, refusing any overflow or
    /// underflow and touching nothing else.
    fn update_reserves(&mut self, token_id: TokenId, amount: Balance, is_addition: bool) -> (r:
        Result<(), Error>)
        ensures
            is_addition ==> ((r is Ok) <==> old(self).spec_reserve(token_id) + amount
                <= Balance::MAX),
            !is_addition ==> ((r is Ok) <==> amount <= old(self).spec_reserve(token_id)),
            r is Err ==> r == Err::<(), Error>(Error::ArithmeticError) && *final(self) == *old(self),
            r is Ok ==> final(self).spec_reserve(token_id) == (if is_addition {
                old(self).spec_reserve(token_id) + amount
            } else {
                old(self).spec_reserve(token_id) - amount
            }),
            forall|t: TokenId|
                t != token_id ==> final(self).spec_reserve(t) == old(self).spec_reserve(t),
            final(self).shares == old(self).shares,
            final(self).total_shares == old(self).total_shares,
            final(self).treasury == old(self).treasury,
            final(self).fee_rate == old(self).fee_rate,
            final(self).treasury_rate == old(self).treasury_rate,
            final(self).events == old(self).events,
            old(self).wf() ==> final(self).wf(),
    {
        let current = self.reserves.get(token_id);
        let updated = if is_addition {
            current.checked_add(amount)
        } else {
            current.checked_sub(amount)
        };
        match updated {
            Some(new_amount) => {
                self.reserves.set(token_id, new_amount);
                Ok(())
            },
            None => Err(Error::ArithmeticError),
        }
    }

    /// Shares to mint for a deposit: equal to the deposit when the
    /// reserve is empty (the bootstrap rate of one share per unit),
    /// otherwise `amount * total_shares / reserve`, floor-rounded so
    /// the pool never over-credits the depositor.
    fn mint_shares(&self, token_id: TokenId, amount: Balance) -> (r: Result<Balance, Error>)
        ensures
            (r is Err) <==> (self.spec_reserve(token_id) > 0 && amount * self.spec_total_shares(
                token_id,
            ) > Balance::MAX),
            r is Err ==> r == Err::<Balance, Error>(Error::ArithmeticError),
            r is Ok ==> r == Ok::<Balance, Error>(self.spec_minted(token_id, amount) as Balance)
                && self.spec_minted(token_id, amount) <= Balance::MAX,
    {
        let reserve = self.reserves.get(token_id);
        if reserve == 0 {
            return Ok(amount);
        }
        match amount.checked_mul(self.total_shares.get(token_id)) {
            Some(product) => {
                let minted = product / reserve;
                proof {
                    lemma_div_nonincreasing(product as int, reserve as int);
                }
                Ok(minted)
            },
            None => Err(Error::ArithmeticError),
        }
    }

    /// Amount to return for burning shares: the proportional share
    /// `shares * reserve / total_shares`, floor-rounded so withdrawals
    /// never exceed the proportional entitlement; nothing is owed when
    /// no shares are outstanding.
    fn burn_shares(&self, token_id: TokenId, shares_amount: Balance) -> (r: Result<Balance, Error>)
        ensures
            (r is Err) <==> self.remove_liquidity_overflows(token_id, shares_amount),
            r is Err ==> r == Err::<Balance, Error>(Error::ArithmeticError),
            r is Ok ==> r == Ok::<Balance, Error>(
                self.spec_withdrawal(token_id, shares_amount) as Balance,
            ) && self.spec_withdrawal(token_id, shares_amount) <= Balance::MAX,
    {
        let total = self.total_shares.get(token_id);
        if total == 0 {
            return Ok(0);
        }
        match shares_amount.checked_mul(self.reserves.get(token_id)) {
            Some(product) => {
                let amount = product / total;
                proof {
                    lemma_div_nonincreasing(product as int, total as int);
                }
                Ok(amount)
            },
            None => Err(Error::ArithmeticError),
        }
    }

    /// Deposit `amount` of one token and mint proportional shares for
    /// the caller. The access guard's verdict on the caller is checked
    /// before anything else; a rejected or failed call leaves the pool
    /// untouched, and a successful one appends one `LiquidityAdded`
    /// event and returns the minted shares.
    pub fn add_liquidity(
        &mut self,
        caller: AccountId,
        caller_is_human: bool,
        token_id: TokenId,
        amount: Balance,
    ) -> (r: Result<Balance, Error>)
        requires
            old(self).wf(),
        ensures
            final(self).wf(),
            (r == Err::<Balance, Error>(Error::NotHuman)) <==> !caller_is_human,
            caller_is_human ==> ((r == Err::<Balance, Error>(Error::ArithmeticError)) <==> old(
                self,
            ).add_liquidity_overflows(caller, token_id, amount)),
            (r is Ok) <==> (caller_is_human && !old(self).add_liquidity_overflows(
                caller,
                token_id,
                amount,
            )),
            r is Err ==> *final(self) == *old(self),
            r is Ok ==> ({
                &&& r == Ok::<Balance, Error>(old(self).spec_minted(token_id, amount) as Balance)
                &&& final(self).spec_reserve(token_id) == old(self).spec_reserve(token_id) + amount
                &&& final(self).spec_shares(caller, token_id) == old(self).spec_shares(
                    caller,
                    token_id,
                ) + old(self).spec_minted(token_id, amount)
                &&& final(self).spec_total_shares(token_id) == old(self).spec_total_shares(
                    token_id,
                ) + old(self).spec_minted(token_id, amount)
                &&& forall|t: TokenId|
                    t != token_id ==> final(self).spec_reserve(t) == old(self).spec_reserve(t)
                &&& forall|a2: AccountId, t2: TokenId|
                    !(a2 == caller && t2 == token_id) ==> final(self).spec_shares(a2, t2) == old(
                        self,
                    ).spec_shares(a2, t2)
                &&& forall|t: TokenId|
                    t != token_id ==> final(self).spec_total_shares(t) == old(
                        self,
                    ).spec_total_shares(t)
                &&& forall|t: TokenId| final(self).spec_treasury(t) == old(self).spec_treasury(t)
                &&& final(self).spec_fee_rate() == old(self).spec_fee_rate()
                &&& final(self).spec_treasury_rate() == old(self).spec_treasury_rate()
                &&& final(self).spec_events() == old(self).spec_events().push(
                    (PoolEvent::Added(
                        LiquidityAdded {
                            provider: caller,
                            token_id,
                            amount,
                            shares: (old(self).spec_minted(token_id, amount) as Balance),
                        },
                    )),
                )
            }),
    {
        if !caller_is_human {
            return Err(Error::NotHuman);
        }
        let minted = match self.mint_shares(token_id, amount) {
            Ok(v) => v,
            Err(e) => {
                return Err(e);
            },
        };
        let reserve = self.reserves.get(token_id);
        if reserve.checked_add(amount).is_none() {
            return Err(Error::ArithmeticError);
        }
        let provider_shares = self.shares.get(caller, token_id);
        let new_provider_shares = match provider_shares.checked_add(minted) {
            Some(v) => v,
            None => {
                return Err(Error::ArithmeticError);
            },
        };
        let total = self.total_shares.get(token_id);
        let new_total = match total.checked_add(minted) {
            Some(v) => v,
            None => {
                return Err(Error::ArithmeticError);
            },
        };
        match self.update_reserves(token_id, amount, true) {
            Ok(()) => {},
            Err(e) => {
                return Err(e);
            },
        }
        self.shares.set(caller, token_id, new_provider_shares);
        self.total_shares.set(token_id, new_total);
        self.events.push(
            PoolEvent::Added(
                LiquidityAdded { provider: caller, token_id, amount, shares: minted },
            ),
        );
        Ok(minted)
    }

    /// Burn shares the caller owns in one token and return the
    /// proportional amount of reserve. A caller owning fewer shares
    /// than requested is refused; a failed call leaves the pool
    /// untouched, and a successful one appends one `LiquidityRemoved`
    /// event and returns the amount withdrawn.
    pub fn remove_liquidity(
        &mut self,
        caller: AccountId,
        token_id: TokenId,
        shares_amount: Balance,
    ) -> (r: Result<Balance, Error>)
        requires
            old(self).wf(),
        ensures
            final(self).wf(),
            (r == Err::<Balance, Error>(Error::InsufficientShares)) <==> old(self).spec_shares(
                caller,
                token_id,
            ) < shares_amount,
            old(self).spec_shares(caller, token_id) >= shares_amount ==> ((r == Err::<
                Balance,
                Error,
            >(Error::ArithmeticError)) <==> old(self).remove_liquidity_overflows(
                token_id,
                shares_amount,
            )),
            (r is Ok) <==> (old(self).spec_shares(caller, token_id) >= shares_amount && !old(
                self,
            ).remove_liquidity_overflows(token_id, shares_amount)),
            r is Err ==> *final(self) == *old(self),
            r is Ok ==> ({
                &&& r == Ok::<Balance, Error>(
                    old(self).spec_withdrawal(token_id, shares_amount) as Balance,
                )
                &&& final(self).spec_reserve(token_id) == old(self).spec_reserve(token_id) - old(
                    self,
                ).spec_withdrawal(token_id, shares_amount)
                &&& final(self).spec_shares(caller, token_id) == old(self).spec_shares(
                    caller,
                    token_id,
                ) - shares_amount
                &&& final(self).spec_total_shares(token_id) == old(self).spec_total_shares(
                    token_id,
                ) - shares_amount
                &&& forall|t: TokenId|
                    t != token_id ==> final(self).spec_reserve(t) == old(self).spec_reserve(t)
                &&& forall|a2: AccountId, t2: TokenId|
                    !(a2 == caller && t2 == token_id) ==> final(self).spec_shares(a2, t2) == old(
                        self,
                    ).spec_shares(a2, t2)
                &&& forall|t: TokenId|
                    t != token_id ==> final(self).spec_total_shares(t) == old(
                        self,
                    ).spec_total_shares(t)
                &&& forall|t: TokenId| final(self).spec_treasury(t) == old(self).spec_treasury(t)
                &&& final(self).spec_fee_rate() == old(self).spec_fee_rate()
                &&& final(self).spec_treasury_rate() == old(self).spec_treasury_rate()
                &&& final(self).spec_events() == old(self).spec_events().push(
                    (PoolEvent::Removed(
                        LiquidityRemoved {
                            provider: caller,
                            token_id,
                            amount: (old(self).spec_withdrawal(token_id, shares_amount) as Balance),
                            shares: shares_amount,
                        },
                    )),
                )
            }),
    {
        let provider_shares = self.shares.get(caller, token_id);
        if provider_shares < shares_amount {
            return Err(Error::InsufficientShares);
        }
        let amount = match self.burn_shares(token_id, shares_amount) {
            Ok(v) => v,
            Err(e) => {
                return Err(e);
            },
        };
        proof {
            self.shares.lemma_get_le_sum(caller, token_id);
            lemma_burn_within_reserve(
                self.spec_reserve(token_id) as int,
                self.spec_total_shares(token_id) as int,
                shares_amount as int,
            );
        }
        match self.update_reserves(token_id, amount, false) {
            Ok(()) => {},
            Err(e) => {
                return Err(e);
            },
        }
        self.shares.set(caller, token_id, provider_shares - shares_amount);
        let total = self.total_shares.get(token_id);
        self.total_shares.set(token_id, total - shares_amount);
        self.events.push(
            PoolEvent::Removed(
                LiquidityRemoved { provider: caller, token_id, amount, shares: shares_amount },
            ),
        );
        Ok(amount)
    }

    /// Quote a swap without touching state: the raw constant-product
    /// output `reserve_to - reserve_from * reserve_to / (reserve_from
    /// + amount_in)`. Identical tokens and empty reserves are refused;
    /// the output never exceeds the destination reserve, and stays
    /// strictly below it whenever the reserve product is at least the
    /// grown source reserve.
    pub fn quote_swap(&self, from_token: TokenId, to_token: TokenId, amount_in: Balance) -> (r:
        Result<Balance, Error>)
        ensures
            (r == Err::<Balance, Error>(Error::InvalidTokenPair)) <==> from_token == to_token,
            from_token != to_token ==> ((r == Err::<Balance, Error>(Error::InsufficientLiquidity))
                <==> (self.spec_reserve(from_token) == 0 || self.spec_reserve(to_token) == 0)),
            (from_token != to_token && self.spec_reserve(from_token) > 0 && self.spec_reserve(
                to_token,
            ) > 0) ==> ((r == Err::<Balance, Error>(Error::ArithmeticError)) <==> self
                .quote_swap_overflows(from_token, to_token, amount_in)),
            (r is Ok) <==> (from_token != to_token && self.spec_reserve(from_token) > 0
                && self.spec_reserve(to_token) > 0 && !self.quote_swap_overflows(
                from_token,
                to_token,
                amount_in,
            )),
            r is Ok ==> ({
                &&& r == Ok::<Balance, Error>(
                    self.spec_swap_quote(from_token, to_token, amount_in) as Balance,
                )
                &&& 0 <= self.spec_swap_quote(from_token, to_token, amount_in)
                    <= self.spec_reserve(to_token)
                &&& self.spec_reserve(from_token) + amount_in <= self.spec_reserve(from_token)
                    * self.spec_reserve(to_token) ==> self.spec_swap_quote(
                    from_token,
                    to_token,
                    amount_in,
                ) < self.spec_reserve(to_token)
            }),
    {
        if from_token == to_token {
            return Err(Error::InvalidTokenPair);
        }
        let from_reserves = self.reserves.get(from_token);
        let to_reserves = self.reserves.get(to_token);
        if from_reserves == 0 || to_reserves == 0 {
            return Err(Error::InsufficientLiquidity);
        }
        let numerator = match from_reserves.checked_mul(to_reserves) {
            Some(v) => v,
            None => {
                return Err(Error::ArithmeticError);
            },
        };
        let denominator = match from_reserves.checked_add(amount_in) {
            Some(v) => v,
            None => {
                return Err(Error::ArithmeticError);
            },
        };
        let new_to_reserves = numerator / denominator;
        proof {
            lemma_swap_output_bounds(
                from_reserves as int,
                to_reserves as int,
                amount_in as int,
            );
        }
        Ok(to_reserves - new_to_reserves)
    }

    /// Swap `amount_in` of one token for the other: quote the raw
    /// output, take the fee, route the treasury's cut of the fee to
    /// the treasury, keep the rest of the fee in the destination
    /// reserve, and deliver the net amount. A failed call leaves the
    /// pool untouched; a successful one appends one `TokenSwapped`
    /// event and returns the net amount delivered.
    pub fn swap(
        &mut self,
        caller: AccountId,
        from_token: TokenId,
        to_token: TokenId,
        amount_in: Balance,
    ) -> (r: Result<Balance, Error>)
        requires
            old(self).wf(),
        ensures
            final(self).wf(),
            (r == Err::<Balance, Error>(Error::InvalidTokenPair)) <==> from_token == to_token,
            from_token != to_token ==> ((r == Err::<Balance, Error>(Error::InsufficientLiquidity))
                <==> (old(self).spec_reserve(from_token) == 0 || old(self).spec_reserve(to_token)
                == 0)),
            (from_token != to_token && old(self).spec_reserve(from_token) > 0 && old(
                self,
            ).spec_reserve(to_token) > 0) ==> ((r == Err::<Balance, Error>(Error::ArithmeticError))
                <==> old(self).swap_overflows(from_token, to_token, amount_in)),
            (r is Ok) <==> (from_token != to_token && old(self).spec_reserve(from_token) > 0 && old(
                self,
            ).spec_reserve(to_token) > 0 && !old(self).swap_overflows(
                from_token,
                to_token,
                amount_in,
            )),
            r is Err ==> *final(self) == *old(self),
            r is Ok ==> ({
                &&& r == Ok::<Balance, Error>(
                    (old(self).spec_swap_quote(from_token, to_token, amount_in) - old(
                        self,
                    ).spec_swap_fee(from_token, to_token, amount_in)) as Balance,
                )
                &&& final(self).spec_reserve(from_token) == old(self).spec_reserve(from_token)
                    + amount_in
                &&& final(self).spec_reserve(to_token) == old(self).spec_reserve(to_token) - old(
                    self,
                ).spec_swap_quote(from_token, to_token, amount_in) + old(self).spec_swap_fee(
                    from_token,
                    to_token,
                    amount_in,
                ) - old(self).spec_swap_treasury_cut(from_token, to_token, amount_in)
                &&& final(self).spec_treasury(to_token) == old(self).spec_treasury(to_token) + old(
                    self,
                ).spec_swap_treasury_cut(from_token, to_token, amount_in)
                &&& forall|t: TokenId|
                    t != from_token && t != to_token ==> final(self).spec_reserve(t) == old(
                        self,
                    ).spec_reserve(t)
                &&& forall|t: TokenId|
                    t != to_token ==> final(self).spec_treasury(t) == old(self).spec_treasury(t)
                &&& forall|a2: AccountId, t2: TokenId|
                    final(self).spec_shares(a2, t2) == old(self).spec_shares(a2, t2)
                &&& forall|t: TokenId|
                    final(self).spec_total_shares(t) == old(self).spec_total_shares(t)
                &&& final(self).spec_fee_rate() == old(self).spec_fee_rate()
                &&& final(self).spec_treasury_rate() == old(self).spec_treasury_rate()
                &&& final(self).spec_events() == old(self).spec_events().push(
                    (PoolEvent::Swapped(
                        TokenSwapped {
                            user: caller,
                            from_token,
                            to_token,
                            amount_in,
                            amount_out: ((old(self).spec_swap_quote(from_token, to_token, amount_in)
                                - old(self).spec_swap_fee(from_token, to_token, amount_in))
                                as Balance),
                            fee: (old(self).spec_swap_fee(from_token, to_token, amount_in)
                                as Balance),
                        },
                    )),
                )
            }),
    {
        let amount_out = match self.quote_swap(from_token, to_token, amount_in) {
            Ok(v) => v,
            Err(e) => {
                return Err(e);
            },
        };
        let fee = match amount_out.checked_mul(self.fee_rate) {
            Some(product) => product / RATE_SCALE,
            None => {
                return Err(Error::ArithmeticError);
            },
        };
        let treasury_cut = match fee.checked_mul(self.treasury_rate) {
            Some(product) => product / RATE_SCALE,
            None => {
                return Err(Error::ArithmeticError);
            },
        };
        proof {
            lemma_rate_cut_bounds(amount_out as int, self.fee_rate as int);
            lemma_rate_cut_bounds(fee as int, self.treasury_rate as int);
        }
        let treasury_balance = self.treasury.get(to_token);
        let new_treasury = match treasury_balance.checked_add(treasury_cut) {
            Some(v) => v,
            None => {
                return Err(Error::ArithmeticError);
            },
        };
        match self.update_reserves(from_token, amount_in, true) {
            Ok(()) => {},
            Err(e) => {
                return Err(e);
            },
        }
        match self.update_reserves(to_token, amount_out - (fee - treasury_cut), false) {
            Ok(()) => {},
            Err(e) => {
                return Err(e);
            },
        }
        self.treasury.set(to_token, new_treasury);
        let net = amount_out - fee;
        self.events.push(
            PoolEvent::Swapped(
                TokenSwapped {
                    user: caller,
                    from_token,
                    to_token,
                    amount_in,
                    amount_out: net,
                    fee,
                },
            ),
        );
        Ok(net)
    }

    /// The reserve held for a token; zero when never written. Reads
    /// nothing but the queried entry and never mutates state.
    pub fn get_reserves(&self, token_id: TokenId) -> (r: Balance)
        ensures
            r == self.spec_reserve(token_id),
    {
        self.reserves.get(token_id)
    }

    /// The shares an account holds in a token's pool; zero by default.
    /// Never mutates state.
    pub fn get_shares(&self, account: AccountId, token_id: TokenId) -> (r: Balance)
        ensures
            r == self.spec_shares(account, token_id),
    {
        self.shares.get(account, token_id)
    }

    /// The outstanding shares issued for a token.
    pub fn get_total_shares(&self, token_id: TokenId) -> (r: Balance)
        ensures
            r == self.spec_total_shares(token_id),
    {
        self.total_shares.get(token_id)
    }

    /// The protocol-fee balance accumulated for a token.
    pub fn get_treasury(&self, token_id: TokenId) -> (r: Balance)
        ensures
            r == self.spec_treasury(token_id),
    {
        self.treasury.get(token_id)
    }

    /// The events emitted so far, oldest first.
    pub fn events(&self) -> (r: &Vec<PoolEvent>)
        ensures
            r@ == self.spec_events(),
    {
        &self.events
    }
}

} // verus!
