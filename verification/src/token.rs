use vstd::prelude::*;

use crate::account::AccountId;

verus! {

/// Every way a token operation can be refused.
#[derive(Clone, Copy, Debug, PartialEq, Eq, Structural)]
pub enum Error {
    /// The sender's balance does not cover the requested amount.
    InsufficientBalance,
    /// The spender's allowance does not cover the requested amount.
    InsufficientAllowance,
}

/// Event payload recorded by the host ledger when tokens move. A `from` of
/// `None` marks a mint at instantiation. Emission itself belongs to the
/// host and is outside this ledger.
#[derive(Clone, Copy, Debug, PartialEq, Eq)]
pub struct Transfer {
    pub from: Option<AccountId>,
    pub to: Option<AccountId>,
    pub value: u128,
}

/// Event payload recorded by the host ledger when an allowance is granted.
#[derive(Clone, Copy, Debug, PartialEq, Eq)]
pub struct Approval {
    pub owner: AccountId,
    pub spender: AccountId,
    pub value: u128,
}

/// One account's balance in the ledger.
#[derive(Clone, Copy, Debug, PartialEq, Eq, Structural)]
pub struct BalanceEntry {
    pub account: AccountId,
    pub amount: u128,
}

/// One approval in the ledger: what `spender` may still move out of
/// `owner`'s balance.
#[derive(Clone, Copy, Debug, PartialEq, Eq, Structural)]
pub struct AllowanceEntry {
    pub owner: AccountId,
    pub spender: AccountId,
    pub amount: u128,
}

/// The balance of `account` in the table, zero when absent.
pub open spec fn lookup_balance(s: Seq<BalanceEntry>, account: AccountId) -> u128
    decreases s.len(),
{
    if s.len() == 0 {
        0
    } else if s[0].account == account {
        s[0].amount
    } else {
        lookup_balance(s.drop_first(), account)
    }
}

/// Each account appears at most once in the balance table.
pub open spec fn balances_unique(s: Seq<BalanceEntry>) -> bool {
    forall|i: int, j: int|
        0 <= i < j < s.len() ==> (#[trigger] s[i]).account != (#[trigger] s[j]).account
}

/// The total of all balances in the table.
pub open spec fn sum_balances(s: Seq<BalanceEntry>) -> int
    decreases s.len(),
{
    if s.len() == 0 {
        0
    } else {
        s[0].amount + sum_balances(s.drop_first())
    }
}

/// The allowance of `(owner, spender)` in the table, zero when absent.
pub open spec fn lookup_allowance(
    s: Seq<AllowanceEntry>,
    owner: AccountId,
    spender: AccountId,
) -> u128
    decreases s.len(),
{
    if s.len() == 0 {
        0
    } else if s[0].owner == owner && s[0].spender == spender {
        s[0].amount
    } else {
        lookup_allowance(s.drop_first(), owner, spender)
    }
}

/// Each (owner, spender) pair appears at most once in the allowance table.
pub open spec fn allowances_unique(s: Seq<AllowanceEntry>) -> bool {
    forall|i: int, j: int|
        0 <= i < j < s.len() ==> !((#[trigger] s[i]).owner == (#[trigger] s[j]).owner
            && s[i].spender == s[j].spender)
}

proof fn lemma_sum_nonneg(s: Seq<BalanceEntry>)
    ensures
        sum_balances(s) >= 0,
    decreases s.len(),
{
    if s.len() > 0 {
        lemma_sum_nonneg(s.drop_first());
    }
}

proof fn lemma_sum_push(s: Seq<BalanceEntry>, e: BalanceEntry)
    ensures
        sum_balances(s.push(e)) == sum_balances(s) + e.amount,
    decreases s.len(),
{
    if s.len() == 0 {
        assert(s.push(e).drop_first() =~= Seq::empty());
        assert(sum_balances(Seq::<BalanceEntry>::empty()) == 0);
    } else {
        assert(s.push(e).drop_first() =~= s.drop_first().push(e));
        lemma_sum_push(s.drop_first(), e);
    }
}

proof fn lemma_sum_update(s: Seq<BalanceEntry>, i: int, e: BalanceEntry)
    requires
        0 <= i < s.len(),
    ensures
        sum_balances(s.update(i, e)) == sum_balances(s) - s[i].amount + e.amount,
    decreases i,
{
    if i == 0 {
        assert(s.update(0, e).drop_first() =~= s.drop_first());
    } else {
        assert(s.update(i, e).drop_first() =~= s.drop_first().update(i - 1, e));
        lemma_sum_update(s.drop_first(), i - 1, e);
    }
}

proof fn lemma_lookup_le_sum(s: Seq<BalanceEntry>, account: AccountId)
    ensures
        lookup_balance(s, account) <= sum_balances(s),
    decreases s.len(),
{
    if s.len() > 0 {
        lemma_sum_nonneg(s.drop_first());
        lemma_lookup_le_sum(s.drop_first(), account);
    }
}

/// Two distinct accounts never hold more than the whole table together.
proof fn lemma_lookup_pair_le_sum(s: Seq<BalanceEntry>, a: AccountId, b: AccountId)
    requires
        a != b,
    ensures
        lookup_balance(s, a) + lookup_balance(s, b) <= sum_balances(s),
    decreases s.len(),
{
    if s.len() > 0 {
        lemma_lookup_pair_le_sum(s.drop_first(), a, b);
        if s[0].account == a {
            lemma_lookup_le_sum(s.drop_first(), b);
        } else if s[0].account == b {
            lemma_lookup_le_sum(s.drop_first(), a);
        }
    }
}

proof fn lemma_lookup_found(s: Seq<BalanceEntry>, i: int, account: AccountId)
    requires
        balances_unique(s),
        0 <= i < s.len(),
        s[i].account == account,
    ensures
        lookup_balance(s, account) == s[i].amount,
    decreases i,
{
    if i > 0 {
        assert(s[0].account != account);
        assert(balances_unique(s.drop_first()));
        lemma_lookup_found(s.drop_first(), i - 1, account);
    }
}

proof fn lemma_lookup_absent(s: Seq<BalanceEntry>, account: AccountId)
    requires
        forall|j: int| 0 <= j < s.len() ==> (#[trigger] s[j]).account != account,
    ensures
        lookup_balance(s, account) == 0,
    decreases s.len(),
{
    if s.len() > 0 {
        lemma_lookup_absent(s.drop_first(), account);
    }
}

proof fn lemma_lookup_update(s: Seq<BalanceEntry>, i: int, e: BalanceEntry)
    requires
        balances_unique(s),
        0 <= i < s.len(),
        s[i].account == e.account,
    ensures
        balances_unique(s.update(i, e)),
        forall|x: AccountId|
            #[trigger] lookup_balance(s.update(i, e), x) == if x == e.account {
                e.amount
            } else {
                lookup_balance(s, x)
            },
    decreases i,
{
    let t = s.update(i, e);
    assert(balances_unique(t)) by {
        assert forall|k: int, l: int| 0 <= k < l < t.len() implies (#[trigger] t[k]).account != (
        #[trigger] t[l]).account by {
            assert(t[k].account == s[k].account);
            assert(t[l].account == s[l].account);
        }
    }
    if i == 0 {
        assert(t.drop_first() =~= s.drop_first());
        assert forall|x: AccountId|
            #[trigger] lookup_balance(t, x) == if x == e.account {
                e.amount
            } else {
                lookup_balance(s, x)
            } by {
            assert(t[0] == e);
            if x != e.account {
                assert(lookup_balance(t, x) == lookup_balance(t.drop_first(), x));
                assert(lookup_balance(s, x) == lookup_balance(s.drop_first(), x));
            }
        }
    } else {
        assert(s[0].account != e.account);
        assert(balances_unique(s.drop_first()));
        assert(t.drop_first() =~= s.drop_first().update(i - 1, e));
        lemma_lookup_update(s.drop_first(), i - 1, e);
        assert forall|x: AccountId|
            #[trigger] lookup_balance(t, x) == if x == e.account {
                e.amount
            } else {
                lookup_balance(s, x)
            } by {
            assert(t[0] == s[0]);
            if s[0].account != x {
                assert(lookup_balance(t, x) == lookup_balance(
                    s.drop_first().update(i - 1, e),
                    x,
                ));
                assert(lookup_balance(s, x) == lookup_balance(s.drop_first(), x));
            }
        }
    }
}

proof fn lemma_lookup_push(s: Seq<BalanceEntry>, e: BalanceEntry)
    requires
        balances_unique(s),
        forall|j: int| 0 <= j < s.len() ==> (#[trigger] s[j]).account != e.account,
    ensures
        balances_unique(s.push(e)),
        forall|x: AccountId|
            #[trigger] lookup_balance(s.push(e), x) == if x == e.account {
                e.amount
            } else {
                lookup_balance(s, x)
            },
    decreases s.len(),
{
    let t = s.push(e);
    assert(balances_unique(t)) by {
        assert forall|k: int, l: int| 0 <= k < l < t.len() implies (#[trigger] t[k]).account != (
        #[trigger] t[l]).account by {
            if l < s.len() {
                assert(t[k] == s[k] && t[l] == s[l]);
            } else {
                assert(t[l] == e && t[k] == s[k]);
            }
        }
    }
    if s.len() == 0 {
        assert(t.drop_first() =~= Seq::<BalanceEntry>::empty());
        assert forall|x: AccountId|
            #[trigger] lookup_balance(t, x) == if x == e.account {
                e.amount
            } else {
                lookup_balance(s, x)
            } by {
            assert(t[0] == e);
            if x != e.account {
                assert(lookup_balance(t, x) == lookup_balance(
                    Seq::<BalanceEntry>::empty(),
                    x,
                ));
            }
        }
    } else {
        assert(t.drop_first() =~= s.drop_first().push(e));
        assert(balances_unique(s.drop_first()));
        lemma_lookup_push(s.drop_first(), e);
        assert forall|x: AccountId|
            #[trigger] lookup_balance(t, x) == if x == e.account {
                e.amount
            } else {
                lookup_balance(s, x)
            } by {
            assert(t[0] == s[0]);
            if s[0].account != x {
                assert(lookup_balance(t, x) == lookup_balance(s.drop_first().push(e), x));
                assert(lookup_balance(s, x) == lookup_balance(s.drop_first(), x));
            }
        }
    }
}

proof fn lemma_allowance_found(s: Seq<AllowanceEntry>, i: int, owner: AccountId, spender: AccountId)
    requires
        allowances_unique(s),
        0 <= i < s.len(),
        s[i].owner == owner,
        s[i].spender == spender,
    ensures
        lookup_allowance(s, owner, spender) == s[i].amount,
    decreases i,
{
    if i > 0 {
        assert(!(s[0].owner == owner && s[0].spender == spender));
        assert(allowances_unique(s.drop_first()));
        lemma_allowance_found(s.drop_first(), i - 1, owner, spender);
    }
}

proof fn lemma_allowance_absent(s: Seq<AllowanceEntry>, owner: AccountId, spender: AccountId)
    requires
        forall|j: int|
            0 <= j < s.len() ==> !((#[trigger] s[j]).owner == owner && s[j].spender == spender),
    ensures
        lookup_allowance(s, owner, spender) == 0,
    decreases s.len(),
{
    if s.len() > 0 {
        lemma_allowance_absent(s.drop_first(), owner, spender);
    }
}

proof fn lemma_allowance_update(s: Seq<AllowanceEntry>, i: int, e: AllowanceEntry)
    requires
        allowances_unique(s),
        0 <= i < s.len(),
        s[i].owner == e.owner,
        s[i].spender == e.spender,
    ensures
        allowances_unique(s.update(i, e)),
        forall|o: AccountId, p: AccountId|
            #[trigger] lookup_allowance(s.update(i, e), o, p) == if o == e.owner && p == e.spender {
                e.amount
            } else {
                lookup_allowance(s, o, p)
            },
    decreases i,
{
    let t = s.update(i, e);
    assert(allowances_unique(t)) by {
        assert forall|k: int, l: int| 0 <= k < l < t.len() implies !((#[trigger] t[k]).owner == (
        #[trigger] t[l]).owner && t[k].spender == t[l].spender) by {
            assert(t[k].owner == s[k].owner && t[k].spender == s[k].spender);
            assert(t[l].owner == s[l].owner && t[l].spender == s[l].spender);
        }
    }
    if i == 0 {
        assert(t.drop_first() =~= s.drop_first());
        assert forall|o: AccountId, p: AccountId|
            #[trigger] lookup_allowance(t, o, p) == if o == e.owner && p == e.spender {
                e.amount
            } else {
                lookup_allowance(s, o, p)
            } by {
            assert(t[0] == e);
            if !(o == e.owner && p == e.spender) {
                assert(lookup_allowance(t, o, p) == lookup_allowance(t.drop_first(), o, p));
                assert(lookup_allowance(s, o, p) == lookup_allowance(s.drop_first(), o, p));
            }
        }
    } else {
        assert(!(s[0].owner == e.owner && s[0].spender == e.spender));
        assert(allowances_unique(s.drop_first()));
        assert(t.drop_first() =~= s.drop_first().update(i - 1, e));
        lemma_allowance_update(s.drop_first(), i - 1, e);
        assert forall|o: AccountId, p: AccountId|
            #[trigger] lookup_allowance(t, o, p) == if o == e.owner && p == e.spender {
                e.amount
            } else {
                lookup_allowance(s, o, p)
            } by {
            assert(t[0] == s[0]);
            if !(s[0].owner == o && s[0].spender == p) {
                assert(lookup_allowance(t, o, p) == lookup_allowance(
                    s.drop_first().update(i - 1, e),
                    o,
                    p,
                ));
                assert(lookup_allowance(s, o, p) == lookup_allowance(s.drop_first(), o, p));
            }
        }
    }
}

proof fn lemma_allowance_push(s: Seq<AllowanceEntry>, e: AllowanceEntry)
    requires
        allowances_unique(s),
        forall|j: int|
            0 <= j < s.len() ==> !((#[trigger] s[j]).owner == e.owner && s[j].spender == e.spender),
    ensures
        allowances_unique(s.push(e)),
        forall|o: AccountId, p: AccountId|
            #[trigger] lookup_allowance(s.push(e), o, p) == if o == e.owner && p == e.spender {
                e.amount
            } else {
                lookup_allowance(s, o, p)
            },
    decreases s.len(),
{
    let t = s.push(e);
    assert(allowances_unique(t)) by {
        assert forall|k: int, l: int| 0 <= k < l < t.len() implies !((#[trigger] t[k]).owner == (
        #[trigger] t[l]).owner && t[k].spender == t[l].spender) by {
            if l < s.len() {
                assert(t[k] == s[k] && t[l] == s[l]);
            } else {
                assert(t[l] == e && t[k] == s[k]);
            }
        }
    }
    if s.len() == 0 {
        assert(t.drop_first() =~= Seq::<AllowanceEntry>::empty());
        assert forall|o: AccountId, p: AccountId|
            #[trigger] lookup_allowance(t, o, p) == if o == e.owner && p == e.spender {
                e.amount
            } else {
                lookup_allowance(s, o, p)
            } by {
            assert(t[0] == e);
            if !(o == e.owner && p == e.spender) {
                assert(lookup_allowance(t, o, p) == lookup_allowance(
                    Seq::<AllowanceEntry>::empty(),
                    o,
                    p,
                ));
            }
        }
    } else {
        assert(t.drop_first() =~= s.drop_first().push(e));
        assert(allowances_unique(s.drop_first()));
        lemma_allowance_push(s.drop_first(), e);
        assert forall|o: AccountId, p: AccountId|
            #[trigger] lookup_allowance(t, o, p) == if o == e.owner && p == e.spender {
                e.amount
            } else {
                lookup_allowance(s, o, p)
            } by {
            assert(t[0] == s[0]);
            if !(s[0].owner == o && s[0].spender == p) {
                assert(lookup_allowance(t, o, p) == lookup_allowance(
                    s.drop_first().push(e),
                    o,
                    p,
                ));
                assert(lookup_allowance(s, o, p) == lookup_allowance(s.drop_first(), o, p));
            }
        }
    }
}

/// The balance-oracle interface of the governance token, as the voting
/// engine and its callers see it. `spec_balance_of` is the weight the engine
/// folds into a tally; the executable methods are pinned to the three spec
/// accessors.
pub trait Erc20: Sized {
    /// The implementation's internal invariant.
    spec fn wf(&self) -> bool;

    /// The fixed total supply.
    spec fn spec_total_supply(&self) -> u128;

    /// The balance of `account`, zero for unknown accounts.
    spec fn spec_balance_of(&self, account: AccountId) -> u128;

    /// What `spender` may still move out of `owner`'s balance.
    spec fn spec_allowance(&self, owner: AccountId, spender: AccountId) -> u128;

    fn total_supply(&self) -> (r: u128)
        ensures
            r == self.spec_total_supply(),
    ;

    fn balance_of(&self, account: AccountId) -> (r: u128)
        ensures
            r == self.spec_balance_of(account),
    ;

    fn allowance(&self, owner: AccountId, spender: AccountId) -> (r: u128)
        ensures
            r == self.spec_allowance(owner, spender),
    ;

    /// Moves `value` from `caller` to `to`; fails if and only if `caller`'s
    /// balance does not cover `value`, and mutates nothing on failure.
    fn transfer(&mut self, caller: AccountId, to: AccountId, value: u128) -> (r: Result<
        (),
        Error,
    >)
        requires
            old(self).wf(),
        ensures
            final(self).wf(),
            final(self).spec_total_supply() == old(self).spec_total_supply(),
            forall|o: AccountId, p: AccountId|
                #[trigger] final(self).spec_allowance(o, p) == old(self).spec_allowance(o, p),
            value <= old(self).spec_balance_of(caller) <==> r == Ok::<(), Error>(()),
            r != Ok::<(), Error>(()) ==> r == Err::<(), Error>(Error::InsufficientBalance)
                && forall|x: AccountId|
                #[trigger] final(self).spec_balance_of(x) == old(self).spec_balance_of(x),
            r == Ok::<(), Error>(()) && caller != to ==> final(self).spec_balance_of(caller)
                == old(self).spec_balance_of(caller) - value && final(self).spec_balance_of(to)
                == old(self).spec_balance_of(to) + value && forall|x: AccountId|
                x != caller && x != to ==> #[trigger] final(self).spec_balance_of(x) == old(
                    self,
                ).spec_balance_of(x),
            r == Ok::<(), Error>(()) && caller == to ==> forall|x: AccountId|
                #[trigger] final(self).spec_balance_of(x) == old(self).spec_balance_of(x),
    ;

    /// Raises `spender`'s allowance out of `caller`'s balance by `value`;
    /// fails if and only if `caller`'s balance does not cover `value`, and
    /// mutates nothing on failure.
    fn approve(&mut self, caller: AccountId, spender: AccountId, value: u128) -> (r: Result<
        (),
        Error,
    >)
        requires
            old(self).wf(),
            old(self).spec_allowance(caller, spender) + value <= u128::MAX,
        ensures
            final(self).wf(),
            final(self).spec_total_supply() == old(self).spec_total_supply(),
            forall|x: AccountId|
                #[trigger] final(self).spec_balance_of(x) == old(self).spec_balance_of(x),
            value <= old(self).spec_balance_of(caller) <==> r == Ok::<(), Error>(()),
            r != Ok::<(), Error>(()) ==> r == Err::<(), Error>(Error::InsufficientBalance)
                && forall|o: AccountId, p: AccountId|
                #[trigger] final(self).spec_allowance(o, p) == old(self).spec_allowance(o, p),
            r == Ok::<(), Error>(()) ==> final(self).spec_allowance(caller, spender) == old(
                self,
            ).spec_allowance(caller, spender) + value && forall|o: AccountId, p: AccountId|
                !(o == caller && p == spender) ==> #[trigger] final(self).spec_allowance(o, p)
                    == old(self).spec_allowance(o, p),
    ;

    /// Moves `value` from `from` to `to` on behalf of `caller`, consuming
    /// that much of `caller`'s allowance. Fails with `InsufficientAllowance`
    /// when the allowance does not cover `value`, else with
    /// `InsufficientBalance` when `from`'s balance does not; both checks
    /// pass before anything is written, so failure mutates nothing.
    fn transfer_from(
        &mut self,
        caller: AccountId,
        from: AccountId,
        to: AccountId,
        value: u128,
    ) -> (r: Result<(), Error>)
        requires
            old(self).wf(),
        ensures
            final(self).wf(),
            final(self).spec_total_supply() == old(self).spec_total_supply(),
            value > old(self).spec_allowance(from, caller) ==> r == Err::<(), Error>(
                Error::InsufficientAllowance,
            ),
            value <= old(self).spec_allowance(from, caller) && value > old(self).spec_balance_of(
                from,
            ) ==> r == Err::<(), Error>(Error::InsufficientBalance),
            value <= old(self).spec_allowance(from, caller) && value <= old(self).spec_balance_of(
                from,
            ) ==> r == Ok::<(), Error>(()),
            r != Ok::<(), Error>(()) ==> forall|x: AccountId|
                #[trigger] final(self).spec_balance_of(x) == old(self).spec_balance_of(x),
            r != Ok::<(), Error>(()) ==> forall|o: AccountId, p: AccountId|
                #[trigger] final(self).spec_allowance(o, p) == old(self).spec_allowance(o, p),
            r == Ok::<(), Error>(()) ==> final(self).spec_allowance(from, caller) == old(
                self,
            ).spec_allowance(from, caller) - value && forall|o: AccountId, p: AccountId|
                !(o == from && p == caller) ==> #[trigger] final(self).spec_allowance(o, p) == old(
                    self,
                ).spec_allowance(o, p),
            r == Ok::<(), Error>(()) && from != to ==> final(self).spec_balance_of(from) == old(
                self,
            ).spec_balance_of(from) - value && final(self).spec_balance_of(to) == old(
                self,
            ).spec_balance_of(to) + value && forall|x: AccountId|
                x != from && x != to ==> #[trigger] final(self).spec_balance_of(x) == old(
                    self,
                ).spec_balance_of(x),
            r == Ok::<(), Error>(()) && from == to ==> forall|x: AccountId|
                #[trigger] final(self).spec_balance_of(x) == old(self).spec_balance_of(x),
    ;
}

/// An in-process governance-token ledger: the concrete balance oracle. The
/// whole supply starts with the creator; balances then move by `transfer`
/// and `transfer_from`. The sum of all balances always equals the total
/// supply, which is what rules out tally-independent overflow in transfers.
pub struct Token {
    total_supply: u128,
    balances: Vec<BalanceEntry>,
    allowances: Vec<AllowanceEntry>,
}

impl Token {
    /// A fresh ledger whose whole supply belongs to `creator` (the account
    /// instantiating the token).
    pub fn new(creator: AccountId, total_supply: u128) -> (token: Token)
        ensures
            token.wf(),
            token.spec_total_supply() == total_supply,
            token.spec_balance_of(creator) == total_supply,
            forall|x: AccountId|
                x != creator ==> #[trigger] token.spec_balance_of(x) == 0,
            forall|o: AccountId, p: AccountId| #[trigger] token.spec_allowance(o, p) == 0,
    {
        let mut balances: Vec<BalanceEntry> = Vec::new();
        proof {
            lemma_lookup_push(balances@, BalanceEntry { account: creator, amount: total_supply });
            lemma_sum_push(balances@, BalanceEntry { account: creator, amount: total_supply });
        }
        balances.push(BalanceEntry { account: creator, amount: total_supply });
        Token { total_supply, balances, allowances: Vec::new() }
    }

    /// The balance of `account`, by linear search of the table.
    fn find_balance(&self, account: AccountId) -> (r: u128)
        ensures
            r == lookup_balance(self.balances@, account),
    {
        let ghost s = self.balances@;
        proof {
            assert(s.skip(0) =~= s);
        }
        let n = self.balances.len();
        let mut i: usize = 0;
        while i < n
            invariant
                n == self.balances.len(),
                s == self.balances@,
                i <= n,
                lookup_balance(s, account) == lookup_balance(s.skip(i as int), account),
            decreases n - i,
        {
            proof {
                lemma_balance_skip_step(s, account, i as int);
            }
            let entry = self.balances[i];
            if entry.account == account {
                return entry.amount;
            }
            i = i + 1;
        }
        proof {
            assert(s.skip(n as int) =~= Seq::empty());
        }
        0
    }

    /// Writes `account`'s balance, inserting the entry if absent.
    fn set_balance(&mut self, account: AccountId, amount: u128)
        requires
            balances_unique(old(self).balances@),
        ensures
            balances_unique(final(self).balances@),
            lookup_balance(final(self).balances@, account) == amount,
            forall|x: AccountId|
                x != account ==> #[trigger] lookup_balance(final(self).balances@, x)
                    == lookup_balance(old(self).balances@, x),
            sum_balances(final(self).balances@) == sum_balances(old(self).balances@)
                - lookup_balance(old(self).balances@, account) + amount,
            final(self).total_supply == old(self).total_supply,
            final(self).allowances@ == old(self).allowances@,
    {
        let n = self.balances.len();
        let mut i: usize = 0;
        while i < n
            invariant
                n == self.balances.len(),
                *self == *old(self),
                balances_unique(self.balances@),
                i <= n,
                forall|j: int|
                    0 <= j < i ==> (#[trigger] self.balances@[j]).account != account,
            decreases n - i,
        {
            if self.balances[i].account == account {
                let ghost s = self.balances@;
                let ghost idx = i as int;
                let entry = BalanceEntry { account, amount };
                proof {
                    lemma_lookup_found(s, idx, account);
                    lemma_lookup_update(s, idx, entry);
                    lemma_sum_update(s, idx, entry);
                }
                self.balances[i] = entry;
                return ;
            }
            i = i + 1;
        }
        let entry = BalanceEntry { account, amount };
        proof {
            lemma_lookup_absent(self.balances@, account);
            lemma_lookup_push(self.balances@, entry);
            lemma_sum_push(self.balances@, entry);
        }
        self.balances.push(entry);
    }

    /// The allowance of `(owner, spender)`, by linear search of the table.
    fn find_allowance(&self, owner: AccountId, spender: AccountId) -> (r: u128)
        ensures
            r == lookup_allowance(self.allowances@, owner, spender),
    {
        let ghost s = self.allowances@;
        proof {
            assert(s.skip(0) =~= s);
        }
        let n = self.allowances.len();
        let mut i: usize = 0;
        while i < n
            invariant
                n == self.allowances.len(),
                s == self.allowances@,
                i <= n,
                lookup_allowance(s, owner, spender) == lookup_allowance(
                    s.skip(i as int),
                    owner,
                    spender,
                ),
            decreases n - i,
        {
            proof {
                lemma_allowance_skip_step(s, owner, spender, i as int);
            }
            let entry = self.allowances[i];
            if entry.owner == owner && entry.spender == spender {
                return entry.amount;
            }
            i = i + 1;
        }
        proof {
            assert(s.skip(n as int) =~= Seq::empty());
        }
        0
    }

    /// Writes the allowance of `(owner, spender)`, inserting if absent.
    fn set_allowance(&mut self, owner: AccountId, spender: AccountId, amount: u128)
        requires
            allowances_unique(old(self).allowances@),
        ensures
            allowances_unique(final(self).allowances@),
            lookup_allowance(final(self).allowances@, owner, spender) == amount,
            forall|o: AccountId, p: AccountId|
                !(o == owner && p == spender) ==> #[trigger] lookup_allowance(
                    final(self).allowances@,
                    o,
                    p,
                ) == lookup_allowance(old(self).allowances@, o, p),
            final(self).total_supply == old(self).total_supply,
            final(self).balances@ == old(self).balances@,
    {
        let n = self.allowances.len();
        let mut i: usize = 0;
        while i < n
            invariant
                n == self.allowances.len(),
                *self == *old(self),
                allowances_unique(self.allowances@),
                i <= n,
                forall|j: int|
                    0 <= j < i ==> !((#[trigger] self.allowances@[j]).owner == owner
                        && self.allowances@[j].spender == spender),
            decreases n - i,
        {
            let entry = self.allowances[i];
            if entry.owner == owner && entry.spender == spender {
                let ghost s = self.allowances@;
                let ghost idx = i as int;
                let updated = AllowanceEntry { owner, spender, amount };
                proof {
                    lemma_allowance_update(s, idx, updated);
                }
                self.allowances[i] = updated;
                return ;
            }
            i = i + 1;
        }
        let entry = AllowanceEntry { owner, spender, amount };
        proof {
            lemma_allowance_push(self.allowances@, entry);
        }
        self.allowances.push(entry);
    }

    /// Moves `value` from `from` to `to`; both balance writes happen only
    /// after the balance check passes.
    fn transfer_from_to(&mut self, from: AccountId, to: AccountId, value: u128) -> (r: Result<
        (),
        Error,
    >)
        requires
            old(self).wf(),
        ensures
            final(self).wf(),
            final(self).total_supply == old(self).total_supply,
            final(self).allowances@ == old(self).allowances@,
            value <= lookup_balance(old(self).balances@, from) <==> r == Ok::<(), Error>(()),
            r != Ok::<(), Error>(()) ==> r == Err::<(), Error>(Error::InsufficientBalance)
                && final(self).balances@ == old(self).balances@,
            r == Ok::<(), Error>(()) && from != to ==> lookup_balance(
                final(self).balances@,
                from,
            ) == lookup_balance(old(self).balances@, from) - value && lookup_balance(
                final(self).balances@,
                to,
            ) == lookup_balance(old(self).balances@, to) + value && forall|x: AccountId|
                x != from && x != to ==> #[trigger] lookup_balance(final(self).balances@, x)
                    == lookup_balance(old(self).balances@, x),
            r == Ok::<(), Error>(()) && from == to ==> final(self).balances@ == old(
                self,
            ).balances@,
    {
        let from_balance = self.find_balance(from);
        if from_balance < value {
            return Err(Error::InsufficientBalance);
        }
        if from == to {
            return Ok(());
        }
        let to_balance = self.find_balance(to);
        proof {
            lemma_lookup_pair_le_sum(self.balances@, from, to);
        }
        self.set_balance(to, to_balance + value);
        self.set_balance(from, from_balance - value);
        Ok(())
    }

    /// Raises the allowance of `(owner, spender)` by `value` after checking
    /// `owner`'s balance covers `value`.
    fn approve_from_to(&mut self, owner: AccountId, spender: AccountId, value: u128) -> (r: Result<
        (),
        Error,
    >)
        requires
            old(self).wf(),
            lookup_allowance(old(self).allowances@, owner, spender) + value <= u128::MAX,
        ensures
            final(self).wf(),
            final(self).total_supply == old(self).total_supply,
            final(self).balances@ == old(self).balances@,
            value <= lookup_balance(old(self).balances@, owner) <==> r == Ok::<(), Error>(()),
            r != Ok::<(), Error>(()) ==> r == Err::<(), Error>(Error::InsufficientBalance)
                && final(self).allowances@ == old(self).allowances@,
            r == Ok::<(), Error>(()) ==> lookup_allowance(
                final(self).allowances@,
                owner,
                spender,
            ) == lookup_allowance(old(self).allowances@, owner, spender) + value && forall|
                o: AccountId,
                p: AccountId,
            |
                !(o == owner && p == spender) ==> #[trigger] lookup_allowance(
                    final(self).allowances@,
                    o,
                    p,
                ) == lookup_allowance(old(self).allowances@, o, p),
    {
        let owner_balance = self.find_balance(owner);
        if owner_balance < value {
            return Err(Error::InsufficientBalance);
        }
        let prev = self.find_allowance(owner, spender);
        self.set_allowance(owner, spender, prev + value);
        Ok(())
    }
}

impl Erc20 for Token {
    /// Accounts and approvals are unique and the balances add up to the
    /// total supply.
    closed spec fn wf(&self) -> bool {
        &&& balances_unique(self.balances@)
        &&& allowances_unique(self.allowances@)
        &&& sum_balances(self.balances@) == self.total_supply as int
    }

    closed spec fn spec_total_supply(&self) -> u128 {
        self.total_supply
    }

    closed spec fn spec_balance_of(&self, account: AccountId) -> u128 {
        lookup_balance(self.balances@, account)
    }

    closed spec fn spec_allowance(&self, owner: AccountId, spender: AccountId) -> u128 {
        lookup_allowance(self.allowances@, owner, spender)
    }

    fn total_supply(&self) -> (r: u128) {
        self.total_supply
    }

    fn balance_of(&self, account: AccountId) -> (r: u128) {
        self.find_balance(account)
    }

    fn allowance(&self, owner: AccountId, spender: AccountId) -> (r: u128) {
        self.find_allowance(owner, spender)
    }

    fn transfer(&mut self, caller: AccountId, to: AccountId, value: u128) -> (r: Result<
        (),
        Error,
    >) {
        self.transfer_from_to(caller, to, value)
    }

    fn approve(&mut self, caller: AccountId, spender: AccountId, value: u128) -> (r: Result<
        (),
        Error,
    >) {
        self.approve_from_to(caller, spender, value)
    }

    fn transfer_from(
        &mut self,
        caller: AccountId,
        from: AccountId,
        to: AccountId,
        value: u128,
    ) -> (r: Result<(), Error>) {
        let allowance = self.find_allowance(from, caller);
        if value > allowance {
            return Err(Error::InsufficientAllowance);
        }
        let from_balance = self.find_balance(from);
        if from_balance < value {
            return Err(Error::InsufficientBalance);
        }
        self.set_allowance(from, caller, allowance - value);
        self.transfer_from_to(from, to, value)
    }
}

proof fn lemma_balance_skip_step(s: Seq<BalanceEntry>, account: AccountId, i: int)
    requires
        0 <= i < s.len(),
    ensures
        lookup_balance(s.skip(i), account) == if s[i].account == account {
            s[i].amount
        } else {
            lookup_balance(s.skip(i + 1), account)
        },
{
    assert(s.skip(i)[0] == s[i]);
    assert(s.skip(i).drop_first() =~= s.skip(i + 1));
}

proof fn lemma_allowance_skip_step(
    s: Seq<AllowanceEntry>,
    owner: AccountId,
    spender: AccountId,
    i: int,
)
    requires
        0 <= i < s.len(),
    ensures
        lookup_allowance(s.skip(i), owner, spender) == if s[i].owner == owner && s[i].spender
            == spender {
            s[i].amount
        } else {
            lookup_allowance(s.skip(i + 1), owner, spender)
        },
{
    assert(s.skip(i)[0] == s[i]);
    assert(s.skip(i).drop_first() =~= s.skip(i + 1));
}

} // verus!
