use vstd::prelude::*;

use crate::decimal::Decimal;
use crate::rates::{has_base_tier, rates_sorted, Rate};

verus! {

/// One contributor and the total that they have sent.
#[derive(Clone, Debug, PartialEq)]
pub struct Fundraiser {
    pub source: String,
    pub balance: u128,
}

/// The fundraise ledger.
#[derive(Clone, Debug, PartialEq)]
pub struct ICOInfo {
    /// the amount the fundraise aims at
    pub fundraise_goal: u128,
    /// the amount raised so far
    pub fundraise_bal: u128,
    /// the ratio used where no tier applies
    pub base_conv_ratio: Decimal,
    /// who created the fundraise
    pub owner: String,
    /// whether contributions are still accepted
    pub fundraising_open: bool,
    /// the one asset accepted
    pub fundraise_denom: String,
    /// each contributor, once, with their total
    pub fundraisers: Vec<Fundraiser>,
    /// the tiers, by descending threshold
    pub rates: Vec<Rate>,
}

/// The sum of all contributions.
pub open spec fn sum_balances(s: Seq<Fundraiser>) -> int
    decreases s.len(),
{
    if s.len() == 0 {
        0
    } else {
        sum_balances(s.drop_last()) + s.last().balance
    }
}

/// No contributor is listed twice.
pub open spec fn sources_unique(s: Seq<Fundraiser>) -> bool {
    forall|i: int, j: int| 0 <= i < j < s.len() ==> s[i].source@ != s[j].source@
}

/// The position of `who` among the contributors, if listed.
pub open spec fn source_index(s: Seq<Fundraiser>, who: Seq<char>) -> int
    decreases s.len(),
{
    if s.len() == 0 {
        -1
    } else if s.last().source@ == who {
        s.len() - 1
    } else {
        source_index(s.drop_last(), who)
    }
}

/// `new` is `old` after `who` has sent `amount` more: their entry grows, or a
/// new entry for them is added at the end.
pub open spec fn credited(old: Seq<Fundraiser>, new: Seq<Fundraiser>, who: Seq<char>, amount: int) -> bool {
    let i = source_index(old, who);
    if i >= 0 {
        new == old.update(i, Fundraiser { source: old[i].source, balance: (old[i].balance + amount) as u128 })
    } else {
        &&& new.len() == old.len() + 1
        &&& new.drop_last() == old
        &&& new.last().source@ == who
        &&& new.last().balance == amount
    }
}

pub proof fn lemma_source_index(s: Seq<Fundraiser>, who: Seq<char>)
    ensures
        source_index(s, who) >= 0 ==> {
            &&& source_index(s, who) < s.len()
            &&& s[source_index(s, who)].source@ == who
        },
        source_index(s, who) < 0 ==> forall|j: int| 0 <= j < s.len() ==> s[j].source@ != who,
        source_index(s, who) >= -1,
    decreases s.len(),
{
    if s.len() > 0 {
        lemma_source_index(s.drop_last(), who);
        if s.last().source@ != who {
            assert forall|j: int| 0 <= j < s.len() - 1 implies s[j] == s.drop_last()[j] by {}
        }
    }
}

pub proof fn lemma_sum_update(s: Seq<Fundraiser>, i: int, f: Fundraiser)
    requires
        0 <= i < s.len(),
    ensures
        sum_balances(s.update(i, f)) == sum_balances(s) - s[i].balance + f.balance,
    decreases s.len(),
{
    let t = s.update(i, f);
    if i == s.len() - 1 {
        assert(t.drop_last() =~= s.drop_last());
    } else {
        lemma_sum_update(s.drop_last(), i, f);
        assert(t.drop_last() =~= s.drop_last().update(i, f));
    }
}

pub proof fn lemma_balance_le_sum(s: Seq<Fundraiser>, i: int)
    requires
        0 <= i < s.len(),
    ensures
        s[i].balance <= sum_balances(s),
        sum_balances(s) >= 0,
    decreases s.len(),
{
    lemma_sum_nonneg(s.drop_last());
    if i < s.len() - 1 {
        lemma_balance_le_sum(s.drop_last(), i);
    }
}

pub proof fn lemma_sum_nonneg(s: Seq<Fundraiser>)
    ensures
        sum_balances(s) >= 0,
    decreases s.len(),
{
    if s.len() > 0 {
        lemma_sum_nonneg(s.drop_last());
    }
}

impl ICOInfo {
    /// The ledger's invariant: the raised total is the sum of the
    /// contributions, each contributor appears once, and the tiers are sorted
    /// by descending threshold with one of threshold zero.
    pub open spec fn wf(&self) -> bool {
        &&& self.fundraise_bal == sum_balances(self.fundraisers@)
        &&& sources_unique(self.fundraisers@)
        &&& rates_sorted(self.rates@)
        &&& has_base_tier(self.rates@)
    }
}

proof fn lemma_sum_prefix(s: Seq<Fundraiser>, j: int)
    requires
        0 <= j < s.len(),
    ensures
        sum_balances(s.take(j + 1)) == sum_balances(s.take(j)) + s[j].balance,
{
    assert(s.take(j + 1).drop_last() =~= s.take(j));
}

proof fn lemma_sum_prefix_le(s: Seq<Fundraiser>, j: int)
    requires
        0 <= j <= s.len(),
    ensures
        sum_balances(s.take(j)) <= sum_balances(s),
    decreases s.len() - j,
{
    if j < s.len() {
        lemma_sum_prefix(s, j);
        lemma_sum_prefix_le(s, j + 1);
    } else {
        assert(s.take(j) =~= s);
    }
}

impl ICOInfo {
    /// Tests the ledger's invariant, as on a ledger read back from storage.
    pub fn is_wf(&self) -> (r: bool)
        ensures
            r == self.wf(),
    {
        let mut total: u128 = 0;
        let mut i: usize = 0;
        while i < self.fundraisers.len()
            invariant
                i <= self.fundraisers@.len(),
                total == sum_balances(self.fundraisers@.take(i as int)),
                forall|a: int, b: int| 0 <= a < b < i ==> self.fundraisers@[a].source@ != self.fundraisers@[b].source@,
            decreases self.fundraisers@.len() - i,
        {
            let mut j: usize = 0;
            while j < i
                invariant
                    j <= i < self.fundraisers@.len(),
                    forall|a: int| 0 <= a < j ==> self.fundraisers@[a].source@ != self.fundraisers@[i as int].source@,
                decreases i - j,
            {
                if self.fundraisers[j].source == self.fundraisers[i].source {
                    assert(!sources_unique(self.fundraisers@)) by {
                        assert(self.fundraisers@[j as int].source@ == self.fundraisers@[i as int].source@);
                    }
                    return false;
                }
                j = j + 1;
            }
            proof {
                lemma_sum_prefix(self.fundraisers@, i as int);
            }
            total = match total.checked_add(self.fundraisers[i].balance) {
                Some(t) => t,
                None => {
                    proof {
                        lemma_sum_prefix_le(self.fundraisers@, i + 1);
                        assert(sum_balances(self.fundraisers@) > u128::MAX);
                    }
                    return false;
                },
            };
            i = i + 1;
        }
        assert(self.fundraisers@.take(self.fundraisers@.len() as int) =~= self.fundraisers@);
        if total != self.fundraise_bal {
            return false;
        }
        if self.rates.len() == 0 {
            return false;
        }
        let mut k: usize = 1;
        while k < self.rates.len()
            invariant
                1 <= k <= self.rates@.len(),
                forall|a: int, b: int| 0 <= a < b < k ==> self.rates@[a].min >= self.rates@[b].min,
            decreases self.rates@.len() - k,
        {
            if self.rates[k - 1].min < self.rates[k].min {
                assert(!rates_sorted(self.rates@)) by {
                    assert(self.rates@[k - 1].min < self.rates@[k as int].min);
                }
                return false;
            }
            k = k + 1;
        }
        let last = self.rates[self.rates.len() - 1].min;
        proof {
            if last != 0 {
                assert forall|a: int| 0 <= a < self.rates@.len() implies self.rates@[a].min != 0 by {
                    if a < self.rates@.len() - 1 {
                        assert(self.rates@[a].min >= self.rates@[self.rates@.len() - 1].min);
                    }
                }
            }
        }
        last == 0
    }
}

} // verus!
