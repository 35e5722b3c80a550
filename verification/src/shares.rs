//! Per-(account, token) ownership shares, kept as an association list
//! with unique keys. The ledger exposes a lookup with a default of
//! zero, a single write path, and the running per-token sum that the
//! pool's `total_shares` counters are held equal to.

use vstd::prelude::*;
use crate::token::AccountId;
use crate::token::Balance;
use crate::token::TokenId;

verus! {

/// One share balance, keyed by account and token.
#[derive(Clone, Copy, Debug, PartialEq, Eq, Structural)]
pub struct ShareEntry {
    pub account: AccountId,
    pub token: TokenId,
    pub amount: Balance,
}

/// Whether an entry carries the given key.
pub open spec fn entry_key_is(e: ShareEntry, account: AccountId, token: TokenId) -> bool {
    e.account == account && e.token == token
}

/// The balance recorded for a key: the first matching entry's amount,
/// or zero when no entry matches.
pub open spec fn lookup_shares(s: Seq<ShareEntry>, account: AccountId, token: TokenId) -> Balance
    decreases s.len(),
{
    if s.len() == 0 {
        0
    } else if entry_key_is(s[0], account, token) {
        s[0].amount
    } else {
        lookup_shares(s.drop_first(), account, token)
    }
}

/// The sum of all share balances recorded for one token.
pub open spec fn sum_shares(s: Seq<ShareEntry>, token: TokenId) -> int
    decreases s.len(),
{
    if s.len() == 0 {
        0
    } else {
        (if s[0].token == token {
            s[0].amount as int
        } else {
            0
        }) + sum_shares(s.drop_first(), token)
    }
}

/// No two entries share a key.
pub open spec fn unique_keys(s: Seq<ShareEntry>) -> bool {
    forall|i: int, j: int|
        0 <= i < j < s.len() ==> !(#[trigger] s[i].account == #[trigger] s[j].account && s[i].token
            == s[j].token)
}

proof fn lemma_sum_nonneg(s: Seq<ShareEntry>, token: TokenId)
    ensures
        sum_shares(s, token) >= 0,
    decreases s.len(),
{
    if s.len() > 0 {
        lemma_sum_nonneg(s.drop_first(), token);
    }
}

proof fn lemma_lookup_le_sum(s: Seq<ShareEntry>, account: AccountId, token: TokenId)
    ensures
        lookup_shares(s, account, token) as int <= sum_shares(s, token),
    decreases s.len(),
{
    if s.len() > 0 {
        lemma_sum_nonneg(s.drop_first(), token);
        if !entry_key_is(s[0], account, token) {
            lemma_lookup_le_sum(s.drop_first(), account, token);
        }
    }
}

proof fn lemma_lookup_push_fresh(s: Seq<ShareEntry>, e: ShareEntry)
    requires
        forall|j: int| 0 <= j < s.len() ==> !entry_key_is(#[trigger] s[j], e.account, e.token),
    ensures
        lookup_shares(s.push(e), e.account, e.token) == e.amount,
    decreases s.len(),
{
    if s.len() == 0 {
        assert(s.push(e)[0] == e);
    } else {
        assert(s.push(e)[0] == s[0]);
        assert(s.push(e).drop_first() =~= s.drop_first().push(e));
        assert forall|j: int| 0 <= j < s.drop_first().len() implies !entry_key_is(
            #[trigger] s.drop_first()[j],
            e.account,
            e.token,
        ) by {
            assert(s.drop_first()[j] == s[j + 1]);
        }
        lemma_lookup_push_fresh(s.drop_first(), e);
    }
}

proof fn lemma_lookup_push_other(
    s: Seq<ShareEntry>,
    e: ShareEntry,
    account: AccountId,
    token: TokenId,
)
    requires
        !entry_key_is(e, account, token),
    ensures
        lookup_shares(s.push(e), account, token) == lookup_shares(s, account, token),
    decreases s.len(),
{
    if s.len() == 0 {
        reveal_with_fuel(lookup_shares, 2);
        assert(s.push(e)[0] == e);
        assert(s.push(e).drop_first() =~= Seq::<ShareEntry>::empty());
    } else {
        assert(s.push(e)[0] == s[0]);
        if !entry_key_is(s[0], account, token) {
            assert(s.push(e).drop_first() =~= s.drop_first().push(e));
            lemma_lookup_push_other(s.drop_first(), e, account, token);
        }
    }
}

proof fn lemma_sum_push(s: Seq<ShareEntry>, e: ShareEntry, token: TokenId)
    ensures
        sum_shares(s.push(e), token) == sum_shares(s, token) + (if e.token == token {
            e.amount as int
        } else {
            0
        }),
    decreases s.len(),
{
    if s.len() == 0 {
        reveal_with_fuel(sum_shares, 2);
        assert(s.push(e)[0] == e);
        assert(s.push(e).drop_first() =~= Seq::<ShareEntry>::empty());
    } else {
        assert(s.push(e)[0] == s[0]);
        assert(s.push(e).drop_first() =~= s.drop_first().push(e));
        lemma_sum_push(s.drop_first(), e, token);
    }
}

proof fn lemma_sum_update(s: Seq<ShareEntry>, i: int, e: ShareEntry, token: TokenId)
    requires
        0 <= i < s.len(),
    ensures
        sum_shares(s.update(i, e), token) == sum_shares(s, token) - (if s[i].token == token {
            s[i].amount as int
        } else {
            0
        }) + (if e.token == token {
            e.amount as int
        } else {
            0
        }),
    decreases s.len(),
{
    if i == 0 {
        assert(s.update(i, e)[0] == e);
        assert(s.update(i, e).drop_first() =~= s.drop_first());
    } else {
        assert(s.update(i, e)[0] == s[0]);
        assert(s.update(i, e).drop_first() =~= s.drop_first().update(i - 1, e));
        assert(s.drop_first()[i - 1] == s[i]);
        lemma_sum_update(s.drop_first(), i - 1, e, token);
    }
}

proof fn lemma_lookup_update(
    s: Seq<ShareEntry>,
    i: int,
    e: ShareEntry,
    account: AccountId,
    token: TokenId,
)
    requires
        0 <= i < s.len(),
        unique_keys(s),
        e.account == s[i].account,
        e.token == s[i].token,
    ensures
        lookup_shares(s.update(i, e), account, token) == if entry_key_is(s[i], account, token) {
            e.amount
        } else {
            lookup_shares(s, account, token)
        },
    decreases s.len(),
{
    if i == 0 {
        assert(s.update(i, e)[0] == e);
        if !entry_key_is(s[0], account, token) {
            assert(s.update(i, e).drop_first() =~= s.drop_first());
        }
    } else {
        assert(s.update(i, e)[0] == s[0]);
        if entry_key_is(s[0], account, token) {
            // The unique keys put s[i]'s key apart from s[0]'s.
            assert(!(s[0].account == s[i].account && s[0].token == s[i].token));
        } else {
            assert(s.update(i, e).drop_first() =~= s.drop_first().update(i - 1, e));
            assert(s.drop_first()[i - 1] == s[i]);
            assert forall|p: int, q: int| 0 <= p < q < s.drop_first().len() implies !(#[trigger] s
                .drop_first()[p].account == #[trigger] s.drop_first()[q].account && s.drop_first()[p].token
                == s.drop_first()[q].token) by {
                assert(s.drop_first()[p] == s[p + 1]);
                assert(s.drop_first()[q] == s[q + 1]);
            }
            lemma_lookup_update(s.drop_first(), i - 1, e, account, token);
        }
    }
}

/// The share ledger: every share balance the pool has recorded.
pub struct ShareLedger {
    entries: Vec<ShareEntry>,
}

impl ShareLedger {
    /// Well-formed: no key is recorded twice.
    pub closed spec fn wf(self) -> bool {
        unique_keys(self.entries@)
    }

    /// The share balance recorded for `(account, token)`, zero if none.
    pub closed spec fn spec_get(self, account: AccountId, token: TokenId) -> Balance {
        lookup_shares(self.entries@, account, token)
    }

    /// The sum of all share balances recorded for `token`.
    pub closed spec fn spec_sum(self, token: TokenId) -> int {
        sum_shares(self.entries@, token)
    }

    /// An account's balance never exceeds the per-token sum.
    pub proof fn lemma_get_le_sum(self, account: AccountId, token: TokenId)
        ensures
            self.spec_get(account, token) as int <= self.spec_sum(token),
    {
        lemma_lookup_le_sum(self.entries@, account, token);
    }

    /// An empty ledger: every balance and every sum is zero.
    pub fn new() -> (r: Self)
        ensures
            r.wf(),
            forall|a: AccountId, t: TokenId| r.spec_get(a, t) == 0,
            forall|t: TokenId| r.spec_sum(t) == 0,
    {
        let ledger = ShareLedger { entries: Vec::new() };
        proof {
            assert forall|a: AccountId, t: TokenId| ledger.spec_get(a, t) == 0 by {
                assert(lookup_shares(ledger.entries@, a, t) == 0);
            }
            assert forall|t: TokenId| ledger.spec_sum(t) == 0 by {
                assert(sum_shares(ledger.entries@, t) == 0);
            }
        }
        ledger
    }

    /// Find the entry holding a key, scanning from the front.
    fn find_index(&self, account: AccountId, token: TokenId) -> (r: Option<usize>)
        ensures
            match r {
                Some(i) => i < self.entries@.len() && entry_key_is(
                    self.entries@[i as int],
                    account,
                    token,
                ) && self.spec_get(account, token) == self.entries@[i as int].amount,
                None => (forall|j: int|
                    0 <= j < self.entries@.len() ==> !entry_key_is(
                        #[trigger] self.entries@[j],
                        account,
                        token,
                    )) && self.spec_get(account, token) == 0,
            },
    {
        let ghost s = self.entries@;
        let n: usize = self.entries.len();
        let mut i: usize = 0;
        proof {
            assert(s.skip(0) =~= s);
        }
        while i < n
            invariant
                n == s.len(),
                s == self.entries@,
                i <= n,
                forall|j: int| 0 <= j < i ==> !entry_key_is(#[trigger] s[j], account, token),
                lookup_shares(s, account, token) == lookup_shares(s.skip(i as int), account, token),
            decreases n - i,
        {
            let e = self.entries[i];
            proof {
                assert(s.skip(i as int)[0] == s[i as int]);
            }
            if e.account == account && e.token == token {
                return Some(i);
            }
            proof {
                assert(s.skip(i as int).drop_first() =~= s.skip(i as int + 1));
            }
            i = i + 1;
        }
        proof {
            assert(s.skip(n as int) =~= Seq::<ShareEntry>::empty());
        }
        None
    }

    /// Read the balance for a key.
    pub fn get(&self, account: AccountId, token: TokenId) -> (r: Balance)
        ensures
            r == self.spec_get(account, token),
    {
        match self.find_index(account, token) {
            Some(i) => self.entries[i].amount,
            None => 0,
        }
    }

    /// Overwrite the balance for one key, leaving every other key's
    /// balance untouched. The per-token sum moves by exactly the
    /// difference between the new and the old balance.
    pub fn set(&mut self, account: AccountId, token: TokenId, value: Balance)
        requires
            old(self).wf(),
        ensures
            final(self).wf(),
            final(self).spec_get(account, token) == value,
            forall|a2: AccountId, t2: TokenId|
                !(a2 == account && t2 == token) ==> final(self).spec_get(a2, t2) == old(
                    self,
                ).spec_get(a2, t2),
            forall|t2: TokenId|
                final(self).spec_sum(t2) == old(self).spec_sum(t2) + (if t2 == token {
                    value as int - old(self).spec_get(account, token) as int
                } else {
                    0
                }),
    {
        let ghost s = self.entries@;
        let ghost old_balance = lookup_shares(s, account, token);
        let e = ShareEntry { account, token, amount: value };
        match self.find_index(account, token) {
            Some(i) => {
                proof {
                    lemma_lookup_update(s, i as int, e, account, token);
                    assert forall|a2: AccountId, t2: TokenId| !(a2 == account && t2 == token)
                        implies lookup_shares(s.update(i as int, e), a2, t2) == lookup_shares(
                        s,
                        a2,
                        t2,
                    ) by {
                        lemma_lookup_update(s, i as int, e, a2, t2);
                    }
                    assert forall|t2: TokenId| sum_shares(s.update(i as int, e), t2) == sum_shares(
                        s,
                        t2,
                    ) + (if t2 == token {
                        value as int - old_balance as int
                    } else {
                        0
                    }) by {
                        lemma_sum_update(s, i as int, e, t2);
                    }
                    assert forall|p: int, q: int|
                        0 <= p < q < s.update(i as int, e).len() implies !(#[trigger] s.update(
                        i as int,
                        e,
                    )[p].account == #[trigger] s.update(i as int, e)[q].account && s.update(
                        i as int,
                        e,
                    )[p].token == s.update(i as int, e)[q].token) by {
                        assert(s.update(i as int, e)[p].account == s[p].account && s.update(
                            i as int,
                            e,
                        )[p].token == s[p].token);
                        assert(s.update(i as int, e)[q].account == s[q].account && s.update(
                            i as int,
                            e,
                        )[q].token == s[q].token);
                    }
                }
                self.entries[i] = e;
            },
            None => {
                proof {
                    lemma_lookup_push_fresh(s, e);
                    assert forall|a2: AccountId, t2: TokenId| !(a2 == account && t2 == token)
                        implies lookup_shares(s.push(e), a2, t2) == lookup_shares(s, a2, t2) by {
                        lemma_lookup_push_other(s, e, a2, t2);
                    }
                    assert forall|t2: TokenId| sum_shares(s.push(e), t2) == sum_shares(s, t2) + (
                    if t2 == token {
                        value as int - old_balance as int
                    } else {
                        0
                    }) by {
                        lemma_sum_push(s, e, t2);
                    }
                    assert forall|p: int, q: int| 0 <= p < q < s.push(e).len() implies !(
                    #[trigger] s.push(e)[p].account == #[trigger] s.push(e)[q].account && s.push(
                        e,
                    )[p].token == s.push(e)[q].token) by {
                        if q < s.len() {
                            assert(s.push(e)[p] == s[p]);
                            assert(s.push(e)[q] == s[q]);
                        } else {
                            assert(s.push(e)[p] == s[p]);
                            assert(s.push(e)[q] == e);
                            assert(!entry_key_is(s[p], account, token));
                        }
                    }
                }
                self.entries.push(e);
            },
        }
    }
}

} // verus!
