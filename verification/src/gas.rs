//! The budgets that dependent calls are given.

use crate::assoc::{distinct_keys, entry_views, find, has_distinct_keys, lemma_put, lemma_value_at, put, value_of};
use crate::call::Gas;
use vstd::prelude::*;

verus! {

/// The base budget that a new table starts with.
pub const BASE_GAS: Gas = 5_000_000_000_000;

/// What a transfer with a call on the receiver costs on top of the hops that
/// follow it.
pub const GAS_FOR_FT_TRANSFER_CALL: Gas = 30_000_000_000_000;

/// Budgets for dependent calls: a base amount, and for single tokens an
/// explicit amount that replaces the default.
#[derive(Clone, Debug, PartialEq, Eq)]
pub struct GasBudgetTable {
    entries: Vec<(String, u64)>,
    base: u64,
}

/// A table as a base amount and a list of overrides, in the order in which
/// their tokens were first set.
pub ghost struct GasView {
    pub base: u64,
    pub overrides: Seq<(Seq<char>, u64)>,
}

impl GasView {
    /// The budget for a credit on `token`: its override, or three times the
    /// base.
    pub open spec fn budget_for(self, token: Seq<char>) -> int {
        match value_of(self.overrides, token) {
            Some(gas) => gas as int,
            None => self.base * 3,
        }
    }

    /// The budget for a whole inbound swap on `token`: the credit and four
    /// base amounts for the hops around it.
    pub open spec fn swap_in_budget(self, token: Seq<char>) -> int {
        self.budget_for(token) + self.base * 4
    }

    /// The budget for a whole outbound swap: nine base amounts and the cost
    /// of the transfer that starts it.
    pub open spec fn swap_out_budget(self) -> int {
        self.base * 9 + GAS_FOR_FT_TRANSFER_CALL
    }
}

impl View for GasBudgetTable {
    type V = GasView;

    closed spec fn view(&self) -> GasView {
        GasView { base: self.base, overrides: entry_views(self.entries@) }
    }
}

impl GasBudgetTable {
    /// No token has two overrides.
    pub open spec fn wf(&self) -> bool {
        distinct_keys(self@.overrides)
    }

    /// A table with the given base and no overrides.
    pub fn new(base: u64) -> (table: Self)
        ensures
            table.wf(),
            table@.base == base,
            table@.overrides == Seq::<(Seq<char>, u64)>::empty(),
    {
        let table = GasBudgetTable { entries: Vec::new(), base };
        table
    }

    /// The table with the given base and overrides, where no token has two.
    pub fn from_parts(base: u64, overrides: Vec<(String, u64)>) -> (table: Option<Self>)
        ensures
            match table {
                Some(table) => table.wf() && table@ == (GasView { base, overrides: entry_views(overrides@) }),
                None => !distinct_keys(entry_views(overrides@)),
            },
    {
        if has_distinct_keys(&overrides) {
            Some(GasBudgetTable { entries: overrides, base })
        } else {
            None
        }
    }

    /// The base amount and the overrides.
    pub fn into_parts(self) -> (parts: (u64, Vec<(String, u64)>))
        ensures
            parts.0 == self@.base,
            entry_views(parts.1@) == self@.overrides,
    {
        (self.base, self.entries)
    }

    /// The base amount.
    pub fn base(&self) -> (gas: u64)
        ensures
            gas == self@.base,
    {
        self.base
    }

    /// Replaces the base amount; the overrides stay.
    pub fn set_base(&mut self, gas: u64)
        ensures
            final(self)@ == (GasView { base: gas, overrides: old(self)@.overrides }),
    {
        self.base = gas;
    }

    /// The override of `token`, where it has one.
    pub fn override_for(&self, token: &String) -> (gas: Option<u64>)
        requires
            self.wf(),
        ensures
            gas == value_of(self@.overrides, token@),
    {
        match find(&self.entries, token) {
            Some(i) => {
                proof {
                    lemma_value_at(self@.overrides, i as int);
                }
                Some(self.entries[i].1)
            },
            None => None,
        }
    }

    /// Sets the override of `token`.
    pub fn set(&mut self, token: String, gas: u64)
        requires
            old(self).wf(),
        ensures
            final(self).wf(),
            final(self)@ == (GasView {
                base: old(self)@.base,
                overrides: put(old(self)@.overrides, token@, gas),
            }),
    {
        let ghost before = self@.overrides;
        proof {
            lemma_put(before, token@, gas);
        }
        match find(&self.entries, &token) {
            Some(i) => {
                proof {
                    lemma_value_at(before, i as int);
                }
                self.entries.set(i, (token, gas));
                assert(self@.overrides =~= put(before, token@, gas));
            },
            None => {
                self.entries.push((token, gas));
                assert(self@.overrides =~= put(before, token@, gas));
            },
        }
    }

    /// Every override, in the order in which the tokens were first set.
    pub fn all(&self) -> (list: Vec<(String, u64)>)
        ensures
            entry_views(list@) == self@.overrides,
    {
        let mut list: Vec<(String, u64)> = Vec::new();
        let mut i: usize = 0;
        while i < self.entries.len()
            invariant
                i <= self.entries.len(),
                list.len() == i,
                forall|j: int| 0 <= j < i ==> list[j].0@ == self.entries[j].0@ && list[j].1 == self.entries[j].1,
            decreases self.entries.len() - i,
        {
            list.push((self.entries[i].0.clone(), self.entries[i].1));
            i = i + 1;
        }
        list
    }

    /// The base amount `count` times, where that can be represented.
    pub fn checked_hops(&self, count: u64) -> (gas: Option<u64>)
        ensures
            match gas {
                Some(gas) => gas == self@.base * count,
                None => self@.base * count > u64::MAX,
            },
    {
        self.base.checked_mul(count)
    }

    /// The budget for a credit on `token`, where it can be represented.
    pub fn checked_budget_for(&self, token: &String) -> (gas: Option<u64>)
        requires
            self.wf(),
        ensures
            match gas {
                Some(gas) => gas == self@.budget_for(token@),
                None => self@.budget_for(token@) > u64::MAX,
            },
    {
        match self.override_for(token) {
            Some(gas) => Some(gas),
            None => self.checked_hops(3),
        }
    }

    /// The budget for a whole inbound swap on `token`, where it can be
    /// represented.
    pub fn checked_swap_in_budget(&self, token: &String) -> (gas: Option<u64>)
        requires
            self.wf(),
        ensures
            match gas {
                Some(gas) => gas == self@.swap_in_budget(token@),
                None => self@.swap_in_budget(token@) > u64::MAX,
            },
    {
        match (self.checked_budget_for(token), self.checked_hops(4)) {
            (Some(credit), Some(hops)) => credit.checked_add(hops),
            _ => None,
        }
    }

    /// The budget for a whole outbound swap, where it can be represented.
    pub fn checked_swap_out_budget(&self) -> (gas: Option<u64>)
        ensures
            match gas {
                Some(gas) => gas == self@.swap_out_budget(),
                None => self@.swap_out_budget() > u64::MAX,
            },
    {
        match self.checked_hops(9) {
            Some(hops) => hops.checked_add(GAS_FOR_FT_TRANSFER_CALL),
            None => None,
        }
    }

    /// The budget for a credit on `token`.
    pub fn budget_for(&self, token: &String) -> (gas: u64)
        requires
            self.wf(),
            self@.budget_for(token@) <= u64::MAX,
        ensures
            gas == self@.budget_for(token@),
    {
        match self.override_for(token) {
            Some(gas) => gas,
            None => self.base * 3,
        }
    }

    /// The budget for a whole inbound swap on `token`.
    pub fn swap_in_budget(&self, token: &String) -> (gas: u64)
        requires
            self.wf(),
            self@.swap_in_budget(token@) <= u64::MAX,
        ensures
            gas == self@.swap_in_budget(token@),
    {
        let hops: u64 = self.base * 4;
        self.budget_for(token) + hops
    }

    /// The budget for a whole outbound swap.
    pub fn swap_out_budget(&self) -> (gas: u64)
        requires
            self@.swap_out_budget() <= u64::MAX,
        ensures
            gas == self@.swap_out_budget(),
    {
        self.base * 9 + GAS_FOR_FT_TRANSFER_CALL
    }
}

} // verus!
