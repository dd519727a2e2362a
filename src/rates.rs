use vstd::prelude::*;

use crate::decimal::{mul_floor, Decimal};

verus! {

/// A pricing tier: contributions of at least `min` convert at `ratio`.
#[derive(Clone, Copy, Debug, PartialEq, Eq, Structural)]
pub struct Rate {
    pub min: u128,
    pub ratio: Decimal,
}

/// The tiers are ordered by descending threshold.
pub open spec fn rates_sorted(s: Seq<Rate>) -> bool {
    forall|i: int, j: int| 0 <= i < j < s.len() ==> s[i].min >= s[j].min
}

/// Some tier applies to every amount.
pub open spec fn has_base_tier(s: Seq<Rate>) -> bool {
    exists|i: int| 0 <= i < s.len() && s[i].min == 0
}

/// The ratio of the first tier whose threshold is at most `amount`, or
/// `base` where none is.
pub open spec fn tier_ratio(s: Seq<Rate>, base: Decimal, amount: int) -> Decimal
    decreases s.len(),
{
    if s.len() == 0 {
        base
    } else if s[0].min <= amount {
        s[0].ratio
    } else {
        tier_ratio(s.drop_first(), base, amount)
    }
}

/// The tokens owed for a contribution of `amount`.
pub open spec fn owed(s: Seq<Rate>, base: Decimal, amount: int) -> int {
    mul_floor(amount, tier_ratio(s, base, amount).atomics as int)
}

/// `x` placed after every tier whose threshold is at least its own, so that
/// tiers of equal threshold keep the order in which they came.
pub open spec fn insert_desc(t: Seq<Rate>, x: Rate) -> Seq<Rate>
    decreases t.len(),
{
    if t.len() == 0 {
        seq![x]
    } else if t[0].min >= x.min {
        seq![t[0]] + insert_desc(t.drop_first(), x)
    } else {
        seq![x] + t
    }
}

/// The tiers sorted by descending threshold, stably.
pub open spec fn sort_desc(s: Seq<Rate>) -> Seq<Rate>
    decreases s.len(),
{
    if s.len() == 0 {
        s
    } else {
        insert_desc(sort_desc(s.drop_last()), s.last())
    }
}

proof fn lemma_insert_desc_at(t: Seq<Rate>, x: Rate, k: int)
    requires
        0 <= k <= t.len(),
        forall|i: int| 0 <= i < k ==> t[i].min >= x.min,
        k < t.len() ==> t[k].min < x.min,
    ensures
        insert_desc(t, x) == t.insert(k, x),
    decreases t.len(),
{
    if t.len() == 0 {
        assert(insert_desc(t, x) =~= t.insert(k, x));
    } else if k == 0 {
        assert(insert_desc(t, x) =~= t.insert(k, x));
    } else {
        let u = t.drop_first();
        lemma_insert_desc_at(u, x, k - 1);
        assert(insert_desc(t, x) =~= t.insert(k, x));
    }
}

proof fn lemma_insert_desc_props(t: Seq<Rate>, x: Rate)
    requires
        rates_sorted(t),
    ensures
        rates_sorted(insert_desc(t, x)),
        insert_desc(t, x).len() == t.len() + 1,
        insert_desc(t, x).contains(x),
        forall|i: int| 0 <= i < t.len() ==> insert_desc(t, x).contains(#[trigger] t[i]),
    decreases t.len(),
{
    let r = insert_desc(t, x);
    if t.len() == 0 {
        assert(r[0] == x);
    } else if t[0].min >= x.min {
        let u = t.drop_first();
        lemma_insert_desc_props(u, x);
        let ru = insert_desc(u, x);
        assert(r == seq![t[0]] + ru);
        assert forall|i: int| 0 <= i < ru.len() implies ru[i].min <= t[0].min by {
            if ru[i] == x {
            } else {
                lemma_insert_desc_elems(u, x, i);
                let j = choose|j: int| 0 <= j < u.len() && u[j] == ru[i];
                assert(t[j + 1] == u[j]);
            }
        }
        assert(r[0] == t[0]);
        let ix = choose|j: int| 0 <= j < ru.len() && ru[j] == x;
        assert(r[ix + 1] == x);
        assert forall|i: int| 0 <= i < t.len() implies r.contains(#[trigger] t[i]) by {
            if i == 0 {
                assert(r[0] == t[0]);
            } else {
                assert(t[i] == u[i - 1]);
                let j = choose|j: int| 0 <= j < ru.len() && ru[j] == u[i - 1];
                assert(r[j + 1] == t[i]);
            }
        }
    } else {
        assert(r[0] == x);
        assert forall|i: int| 0 <= i < t.len() implies r.contains(#[trigger] t[i]) by {
            assert(r[i + 1] == t[i]);
        }
    }
}

proof fn lemma_insert_desc_elems(t: Seq<Rate>, x: Rate, i: int)
    requires
        0 <= i < insert_desc(t, x).len(),
        insert_desc(t, x)[i] != x,
    ensures
        exists|j: int| 0 <= j < t.len() && t[j] == insert_desc(t, x)[i],
    decreases t.len(),
{
    let r = insert_desc(t, x);
    if t.len() == 0 {
    } else if t[0].min >= x.min {
        if i == 0 {
            assert(t[0] == r[0]);
        } else {
            let u = t.drop_first();
            lemma_insert_desc_elems(u, x, i - 1);
            let j = choose|j: int| 0 <= j < u.len() && u[j] == insert_desc(u, x)[i - 1];
            assert(t[j + 1] == r[i]);
        }
    } else {
        assert(t[i - 1] == r[i]);
    }
}

/// Sorting keeps every tier and orders them by descending threshold.
pub proof fn lemma_sort_desc_props(s: Seq<Rate>)
    ensures
        rates_sorted(sort_desc(s)),
        sort_desc(s).len() == s.len(),
        forall|i: int| 0 <= i < s.len() ==> sort_desc(s).contains(#[trigger] s[i]),
    decreases s.len(),
{
    if s.len() > 0 {
        let p = s.drop_last();
        lemma_sort_desc_props(p);
        lemma_insert_desc_props(sort_desc(p), s.last());
        assert forall|i: int| 0 <= i < s.len() implies sort_desc(s).contains(#[trigger] s[i]) by {
            if i < s.len() - 1 {
                assert(s[i] == p[i]);
                let j = choose|j: int| 0 <= j < sort_desc(p).len() && sort_desc(p)[j] == p[i];
                assert(sort_desc(s).contains(sort_desc(p)[j]));
            }
        }
    }
}

/// Sorts the tiers by descending threshold; tiers of equal threshold keep the
/// order in which they were given.
pub fn sort_rates(v: &Vec<Rate>) -> (r: Vec<Rate>)
    ensures
        r@ == sort_desc(v@),
{
    let mut out: Vec<Rate> = Vec::new();
    let mut n: usize = 0;
    while n < v.len()
        invariant
            n <= v.len(),
            out@ == sort_desc(v@.take(n as int)),
        decreases v.len() - n,
    {
        let x = v[n];
        let mut k: usize = 0;
        while k < out.len() && out[k].min >= x.min
            invariant
                k <= out.len(),
                forall|i: int| 0 <= i < k ==> out@[i].min >= x.min,
            decreases out.len() - k,
        {
            k = k + 1;
        }
        proof {
            lemma_insert_desc_at(out@, x, k as int);
            assert(v@.take(n as int + 1).drop_last() =~= v@.take(n as int));
        }
        out.insert(k, x);
        n = n + 1;
    }
    assert(v@.take(v.len() as int) =~= v@);
    out
}

/// The ratio that applies to a contribution of `amount`.
pub fn find_ratio(rates: &Vec<Rate>, base: Decimal, amount: u128) -> (r: Decimal)
    ensures
        r == tier_ratio(rates@, base, amount as int),
{
    let mut i: usize = 0;
    assert(rates@.skip(0) =~= rates@);
    while i < rates.len()
        invariant
            i <= rates.len(),
            tier_ratio(rates@, base, amount as int) == tier_ratio(rates@.skip(i as int), base, amount as int),
        decreases rates.len() - i,
    {
        assert(rates@.skip(i as int).drop_first() =~= rates@.skip(i as int + 1));
        if rates[i].min <= amount {
            return rates[i].ratio;
        }
        i = i + 1;
    }
    assert(rates@.skip(i as int).len() == 0);
    base
}

} // verus!
