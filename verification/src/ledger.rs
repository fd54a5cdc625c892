//! The balances of a token, and the conservation of their sum.

use crate::assoc::{
    distinct_keys, entry_views, find, has_distinct_keys, has_key, lemma_put, lemma_value_at, place_of, put, value_of,
};
use crate::error::BridgeError;
use vstd::prelude::*;

verus! {

/// Balances of a fungible token: which accounts are registered, what each
/// holds, and the total supply.
#[derive(Clone, Debug, PartialEq, Eq)]
pub struct Ledger {
    accounts: Vec<(String, u128)>,
    total_supply: u128,
}

/// A ledger as the list of its registered accounts with their balances, in
/// the order of registration, and the total supply.
pub ghost struct LedgerView {
    pub accounts: Seq<(Seq<char>, u128)>,
    pub total_supply: u128,
}

/// The sum of all balances of a list of accounts.
pub open spec fn sum(accounts: Seq<(Seq<char>, u128)>) -> nat
    decreases accounts.len(),
{
    if accounts.len() == 0 {
        0
    } else {
        sum(accounts.drop_last()) + accounts.last().1 as nat
    }
}

impl LedgerView {
    /// The accounts are distinct and the total supply is the sum of what they
    /// hold.
    pub open spec fn wf(self) -> bool {
        distinct_keys(self.accounts) && sum(self.accounts) == self.total_supply
    }

    /// Whether the account is registered.
    pub open spec fn registered(self, account: Seq<char>) -> bool {
        has_key(self.accounts, account)
    }

    /// What the account holds; nothing where it is not registered.
    pub open spec fn balance_of(self, account: Seq<char>) -> u128 {
        match value_of(self.accounts, account) {
            Some(balance) => balance,
            None => 0,
        }
    }

    /// The ledger after `account` was registered: it is the last account and
    /// holds nothing.
    pub open spec fn register(self, account: Seq<char>) -> LedgerView {
        LedgerView { accounts: self.accounts.push((account, 0)), total_supply: self.total_supply }
    }

    /// The ledger after `amount` was credited to `account`, which is
    /// registered by that where it was not.
    pub open spec fn credit(self, account: Seq<char>, amount: u128) -> LedgerView {
        LedgerView {
            accounts: put(self.accounts, account, (self.balance_of(account) + amount) as u128),
            total_supply: (self.total_supply + amount) as u128,
        }
    }

    /// Whether `amount` can be taken from `account`.
    pub open spec fn covers(self, account: Seq<char>, amount: u128) -> bool {
        self.registered(account) && self.balance_of(account) >= amount
    }

    /// The ledger after `amount` was taken from `account`.
    pub open spec fn debit(self, account: Seq<char>, amount: u128) -> LedgerView {
        LedgerView {
            accounts: put(self.accounts, account, (self.balance_of(account) - amount) as u128),
            total_supply: (self.total_supply - amount) as u128,
        }
    }
}

/// A list with one more account holds what that account holds more.
pub proof fn lemma_sum_push(accounts: Seq<(Seq<char>, u128)>, entry: (Seq<char>, u128))
    ensures
        sum(accounts.push(entry)) == sum(accounts) + entry.1,
{
    assert(accounts.push(entry).drop_last() =~= accounts);
}

/// The balances of the first accounts sum to no more than all of them.
pub proof fn lemma_sum_take(accounts: Seq<(Seq<char>, u128)>, n: int)
    requires
        0 <= n <= accounts.len(),
    ensures
        sum(accounts.take(n)) <= sum(accounts),
    decreases accounts.len(),
{
    if n == accounts.len() {
        assert(accounts.take(n) =~= accounts);
    } else {
        lemma_sum_take(accounts.drop_last(), n);
        assert(accounts.drop_last().take(n) =~= accounts.take(n));
    }
}

/// Replacing one account changes the sum by the difference of the balances.
pub proof fn lemma_sum_update(accounts: Seq<(Seq<char>, u128)>, at: int, entry: (Seq<char>, u128))
    requires
        0 <= at < accounts.len(),
    ensures
        sum(accounts.update(at, entry)) == sum(accounts) - accounts[at].1 + entry.1,
        accounts[at].1 <= sum(accounts),
    decreases accounts.len(),
{
    let after = accounts.update(at, entry);
    if at == accounts.len() - 1 {
        assert(after.drop_last() =~= accounts.drop_last());
    } else {
        lemma_sum_update(accounts.drop_last(), at, entry);
        assert(after.drop_last() =~= accounts.drop_last().update(at, entry));
    }
}

/// Putting a balance changes the sum by the difference to what the account
/// held.
pub proof fn lemma_sum_put(accounts: Seq<(Seq<char>, u128)>, account: Seq<char>, balance: u128)
    requires
        distinct_keys(accounts),
    ensures
        sum(put(accounts, account, balance)) == sum(accounts) - (match value_of(accounts, account) {
            Some(held) => held,
            None => 0,
        }) + balance,
        match value_of(accounts, account) {
            Some(held) => held <= sum(accounts),
            None => true,
        },
{
    if has_key(accounts, account) {
        let at = place_of(accounts, account);
        lemma_value_at(accounts, at);
        assert(put(accounts, account, balance) =~= accounts.update(at, (account, balance)));
        lemma_sum_update(accounts, at, (account, balance));
    } else {
        lemma_sum_push(accounts, (account, balance));
    }
}

/// A credit keeps a ledger well formed, raises the balance of its account and
/// the total supply by the amount, and touches no other account.
pub proof fn lemma_credit(ledger: LedgerView, account: Seq<char>, amount: u128)
    requires
        ledger.wf(),
        ledger.total_supply + amount <= u128::MAX,
    ensures
        ledger.credit(account, amount).wf(),
        ledger.credit(account, amount).registered(account),
        ledger.credit(account, amount).balance_of(account) == ledger.balance_of(account) + amount,
        ledger.credit(account, amount).total_supply == ledger.total_supply + amount,
        forall|other: Seq<char>|
            other != account ==> #[trigger] ledger.credit(account, amount).balance_of(other) == ledger.balance_of(
                other,
            ),
        forall|other: Seq<char>|
            other != account ==> #[trigger] ledger.credit(account, amount).registered(other) == ledger.registered(
                other,
            ),
{
    lemma_sum_put(ledger.accounts, account, 0);
    let balance = (ledger.balance_of(account) + amount) as u128;
    lemma_sum_put(ledger.accounts, account, balance);
    lemma_put(ledger.accounts, account, balance);
}

/// A debit that the account covers keeps a ledger well formed, lowers the
/// balance of its account and the total supply by the amount, and touches no
/// other account.
pub proof fn lemma_debit(ledger: LedgerView, account: Seq<char>, amount: u128)
    requires
        ledger.wf(),
        ledger.covers(account, amount),
    ensures
        ledger.debit(account, amount).wf(),
        ledger.debit(account, amount).registered(account),
        ledger.debit(account, amount).balance_of(account) == ledger.balance_of(account) - amount,
        ledger.debit(account, amount).total_supply == ledger.total_supply - amount,
        forall|other: Seq<char>|
            other != account ==> #[trigger] ledger.debit(account, amount).balance_of(other) == ledger.balance_of(
                other,
            ),
        forall|other: Seq<char>|
            other != account ==> #[trigger] ledger.debit(account, amount).registered(other) == ledger.registered(
                other,
            ),
{
    let balance = (ledger.balance_of(account) - amount) as u128;
    lemma_sum_put(ledger.accounts, account, balance);
    lemma_put(ledger.accounts, account, balance);
}

/// Crediting an account that was just registered gives what crediting it
/// at once gives.
pub proof fn lemma_register_then_credit(ledger: LedgerView, account: Seq<char>, amount: u128)
    requires
        ledger.wf(),
        !ledger.registered(account),
        ledger.total_supply + amount <= u128::MAX,
    ensures
        ledger.register(account).wf(),
        ledger.register(account).registered(account),
        ledger.register(account).credit(account, amount) == ledger.credit(account, amount),
{
    lemma_credit(ledger, account, 0);
    assert(ledger.register(account).credit(account, amount).accounts =~= ledger.credit(account, amount).accounts);
}

/// A mutation of a ledger.
pub ghost enum LedgerOp {
    Credit { account: Seq<char>, amount: u128 },
    Debit { account: Seq<char>, amount: u128 },
}

impl LedgerView {
    /// Whether the ledger commits the operation: a credit must leave the
    /// total supply representable, a debit must be covered.
    pub open spec fn admits(self, op: LedgerOp) -> bool {
        match op {
            LedgerOp::Credit { account, amount } => self.total_supply + amount <= u128::MAX,
            LedgerOp::Debit { account, amount } => self.covers(account, amount),
        }
    }

    /// The ledger after the operation.
    pub open spec fn apply(self, op: LedgerOp) -> LedgerView {
        match op {
            LedgerOp::Credit { account, amount } => self.credit(account, amount),
            LedgerOp::Debit { account, amount } => self.debit(account, amount),
        }
    }

    /// The ledger after the operations, first to last.
    pub open spec fn apply_all(self, ops: Seq<LedgerOp>) -> LedgerView
        decreases ops.len(),
    {
        if ops.len() == 0 {
            self
        } else {
            self.apply_all(ops.drop_last()).apply(ops.last())
        }
    }

    /// Whether the ledger commits each operation in its turn.
    pub open spec fn admits_all(self, ops: Seq<LedgerOp>) -> bool
        decreases ops.len(),
    {
        if ops.len() == 0 {
            true
        } else {
            self.admits_all(ops.drop_last()) && self.apply_all(ops.drop_last()).admits(ops.last())
        }
    }
}

/// Credits less debits.
pub open spec fn net(ops: Seq<LedgerOp>) -> int
    decreases ops.len(),
{
    if ops.len() == 0 {
        0
    } else {
        net(ops.drop_last()) + (match ops.last() {
            LedgerOp::Credit { account, amount } => amount as int,
            LedgerOp::Debit { account, amount } => -(amount as int),
        })
    }
}

/// Value is conserved. Over any sequence of committed operations the sum of
/// all balances changes by the credits less the debits and by nothing else,
/// and it stays equal to the total supply.
pub proof fn conservation(ledger: LedgerView, ops: Seq<LedgerOp>)
    requires
        ledger.wf(),
        ledger.admits_all(ops),
    ensures
        ledger.apply_all(ops).wf(),
        sum(ledger.apply_all(ops).accounts) == sum(ledger.accounts) + net(ops),
        ledger.apply_all(ops).total_supply == ledger.total_supply + net(ops),
    decreases ops.len(),
{
    if ops.len() > 0 {
        conservation(ledger, ops.drop_last());
        let before = ledger.apply_all(ops.drop_last());
        match ops.last() {
            LedgerOp::Credit { account, amount } => {
                lemma_credit(before, account, amount);
            },
            LedgerOp::Debit { account, amount } => {
                lemma_debit(before, account, amount);
            },
        }
    }
}

/// An operation moves its declared amount on its own account and nothing
/// else: every other account holds what it held.
pub proof fn conservation_is_local(ledger: LedgerView, op: LedgerOp, other: Seq<char>)
    requires
        ledger.wf(),
        ledger.admits(op),
        other != (match op {
            LedgerOp::Credit { account, amount } => account,
            LedgerOp::Debit { account, amount } => account,
        }),
    ensures
        ledger.apply(op).balance_of(other) == ledger.balance_of(other),
{
    match op {
        LedgerOp::Credit { account, amount } => {
            lemma_credit(ledger, account, amount);
        },
        LedgerOp::Debit { account, amount } => {
            lemma_debit(ledger, account, amount);
        },
    }
}

impl View for Ledger {
    type V = LedgerView;

    closed spec fn view(&self) -> LedgerView {
        LedgerView { accounts: entry_views(self.accounts@), total_supply: self.total_supply }
    }
}

impl Ledger {
    /// A ledger without accounts.
    pub fn new() -> (ledger: Self)
        ensures
            ledger@.wf(),
            ledger@.accounts == Seq::<(Seq<char>, u128)>::empty(),
            ledger@.total_supply == 0,
    {
        Ledger { accounts: Vec::new(), total_supply: 0 }
    }

    /// The ledger with the given accounts and total supply, where the accounts
    /// are distinct and hold the total supply between them.
    pub fn from_parts(accounts: Vec<(String, u128)>, total_supply: u128) -> (ledger: Option<Self>)
        ensures
            match ledger {
                Some(ledger) => ledger@.wf() && ledger@ == (LedgerView {
                    accounts: entry_views(accounts@),
                    total_supply,
                }),
                None => !(LedgerView { accounts: entry_views(accounts@), total_supply }).wf(),
            },
    {
        if !has_distinct_keys(&accounts) {
            return None;
        }
        let ghost views = entry_views(accounts@);
        let mut held: u128 = 0;
        let mut i: usize = 0;
        while i < accounts.len()
            invariant
                i <= accounts.len(),
                views == entry_views(accounts@),
                held == sum(views.take(i as int)),
            decreases accounts.len() - i,
        {
            proof {
                assert(views.take(i + 1).drop_last() =~= views.take(i as int));
                lemma_sum_take(views, i + 1);
            }
            held = match held.checked_add(accounts[i].1) {
                Some(next) => next,
                None => {
                    return None;
                },
            };
            i = i + 1;
        }
        assert(views.take(i as int) =~= views);
        if held != total_supply {
            return None;
        }
        Some(Ledger { accounts, total_supply })
    }

    /// The accounts with what they hold, and the total supply.
    pub fn into_parts(self) -> (parts: (Vec<(String, u128)>, u128))
        ensures
            entry_views(parts.0@) == self@.accounts,
            parts.1 == self@.total_supply,
    {
        (self.accounts, self.total_supply)
    }

    fn locate(&self, account: &String) -> (at: Option<usize>)
        requires
            self@.wf(),
        ensures
            match at {
                Some(i) => i < self.accounts.len() && self@.registered(account@) && place_of(
                    self@.accounts,
                    account@,
                ) == i && self@.balance_of(account@) == self.accounts[i as int].1
                    && self.accounts[i as int].0@ == account@,
                None => !self@.registered(account@) && self@.balance_of(account@) == 0,
            },
    {
        match find(&self.accounts, account) {
            Some(i) => {
                proof {
                    lemma_value_at(self@.accounts, i as int);
                }
                Some(i)
            },
            None => None,
        }
    }

    /// Whether the account is registered.
    pub fn is_registered(&self, account: &String) -> (known: bool)
        requires
            self@.wf(),
        ensures
            known == self@.registered(account@),
    {
        self.locate(account).is_some()
    }

    /// What the account holds; nothing where it is not registered.
    pub fn balance_of(&self, account: &String) -> (balance: u128)
        requires
            self@.wf(),
        ensures
            balance == self@.balance_of(account@),
    {
        match self.locate(account) {
            Some(i) => self.accounts[i].1,
            None => 0,
        }
    }

    /// The sum of all balances.
    pub fn total_supply(&self) -> (supply: u128)
        ensures
            supply == self@.total_supply,
    {
        self.total_supply
    }

    /// Registers an account, which then holds nothing.
    pub fn register(&mut self, account: String)
        requires
            old(self)@.wf(),
            !old(self)@.registered(account@),
        ensures
            final(self)@.wf(),
            final(self)@ == old(self)@.register(account@),
    {
        let ghost before = self@;
        proof {
            lemma_register_then_credit(before, account@, 0);
        }
        self.accounts.push((account, 0));
        assert(self@.accounts =~= before.register(account@).accounts);
    }

    /// Credits `amount` to a registered account.
    pub fn credit(&mut self, account: &String, amount: u128)
        requires
            old(self)@.wf(),
            old(self)@.registered(account@),
            old(self)@.total_supply + amount <= u128::MAX,
        ensures
            final(self)@.wf(),
            final(self)@ == old(self)@.credit(account@, amount),
    {
        let ghost before = self@;
        proof {
            lemma_credit(before, account@, amount);
            lemma_sum_put(before.accounts, account@, 0);
        }
        let at = self.locate(account);
        let i: usize = at.unwrap();
        let balance: u128 = self.accounts[i].1 + amount;
        self.accounts.set(i, (account.clone(), balance));
        self.total_supply = self.total_supply + amount;
        assert(self@.accounts =~= before.credit(account@, amount).accounts);
    }

    /// Credits `amount` to an account, which is registered first where it was
    /// not.
    pub fn mint(&mut self, account: &String, amount: u128)
        requires
            old(self)@.wf(),
            old(self)@.total_supply + amount <= u128::MAX,
        ensures
            final(self)@.wf(),
            final(self)@ == old(self)@.credit(account@, amount),
    {
        if !self.is_registered(account) {
            proof {
                lemma_register_then_credit(self@, account@, amount);
            }
            self.register(account.clone());
        }
        self.credit(account, amount);
    }

    /// Takes `amount` from an account, and refuses where the account is not
    /// registered or holds less.
    pub fn debit(&mut self, account: &String, amount: u128) -> (done: Result<(), BridgeError>)
        requires
            old(self)@.wf(),
        ensures
            final(self)@.wf(),
            old(self)@.covers(account@, amount) ==> done is Ok && final(self)@ == old(self)@.debit(account@, amount),
            !old(self)@.covers(account@, amount) ==> done == Err::<(), BridgeError>(
                BridgeError::InsufficientBalance,
            ) && *final(self) == *old(self),
    {
        let ghost before = self@;
        let i: usize = match self.locate(account) {
            Some(i) => i,
            None => {
                return Err(BridgeError::InsufficientBalance);
            },
        };
        if self.accounts[i].1 < amount {
            return Err(BridgeError::InsufficientBalance);
        }
        proof {
            lemma_debit(before, account@, amount);
            lemma_sum_put(before.accounts, account@, 0);
        }
        let balance: u128 = self.accounts[i].1 - amount;
        self.accounts.set(i, (account.clone(), balance));
        self.total_supply = self.total_supply - amount;
        assert(self@.accounts =~= before.debit(account@, amount).accounts);
        Ok(())
    }
}

} // verus!
