//! Collects copy-trading leaders from several sources and ranks them.
use vstd::prelude::*;

use crate::decimal::{value_lt, Decimal};
use crate::types::LeadTrader;

verus! {

/// The ranking keys of a list of leaders: the return in percent when
/// `by_roi`, the profit in dollars otherwise.
pub open spec fn trader_keys(traders: Seq<LeadTrader>, by_roi: bool) -> Seq<(int, nat)> {
    Seq::new(
        traders.len(),
        |k: int|
            if by_roi {
                traders[k].roi_percent@
            } else {
                traders[k].pnl_usd@
            },
    )
}

/// Leader `i` ranks ahead of leader `j`: its key is larger, or the keys are
/// equal and `i` came first (a stable descending order).
pub open spec fn ranks_before(keys: Seq<(int, nat)>, i: int, j: int) -> bool {
    value_lt(keys[j], keys[i]) || (!value_lt(keys[i], keys[j]) && i < j)
}

/// `idx` picks the first `n` leaders (all of them when there are fewer) of the
/// stable descending order of `keys`, in that order.
pub open spec fn is_top_selection(keys: Seq<(int, nat)>, idx: Seq<int>, n: nat) -> bool {
    &&& idx.len() == (if n < keys.len() {
        n
    } else {
        keys.len()
    })
    &&& forall|i: int| 0 <= i < idx.len() ==> 0 <= #[trigger] idx[i] < keys.len()
    &&& forall|i: int, j: int| 0 <= i < j < idx.len() ==> ranks_before(keys, #[trigger] idx[i], #[trigger] idx[j])
    &&& forall|k: int, i: int|
        0 <= k < keys.len() && !idx.contains(k) && 0 <= i < idx.len() ==> #[trigger] ranks_before(
            keys,
            idx[i],
            k,
        )
}

/// `r` holds the leaders that `idx` picks, in order.
pub open spec fn picks(traders: Seq<LeadTrader>, idx: Seq<int>, r: Seq<&LeadTrader>) -> bool {
    &&& r.len() == idx.len()
    &&& forall|i: int| 0 <= i < r.len() ==> *#[trigger] r[i] == traders[idx[i]]
}

proof fn lemma_ranks_order(keys: Seq<(int, nat)>, i: int, j: int, k: int)
    requires
        0 <= i < keys.len(),
        0 <= j < keys.len(),
        0 <= k < keys.len(),
    ensures
        i != j ==> ranks_before(keys, i, j) || ranks_before(keys, j, i),
        ranks_before(keys, i, j) ==> !ranks_before(keys, j, i),
        ranks_before(keys, i, j) && ranks_before(keys, j, k) ==> ranks_before(keys, i, k),
{
    crate::decimal::lemma_value_lt_order(keys[i], keys[j], keys[k]);
    crate::decimal::lemma_value_lt_order(keys[i], keys[k], keys[j]);
    crate::decimal::lemma_value_lt_order(keys[j], keys[i], keys[k]);
    crate::decimal::lemma_value_lt_order(keys[j], keys[k], keys[i]);
    crate::decimal::lemma_value_lt_order(keys[k], keys[i], keys[j]);
    crate::decimal::lemma_value_lt_order(keys[k], keys[j], keys[i]);
}

/// In a top selection every picked leader's key is at least the key of every
/// leader picked after it: the result is ordered from the highest key down.
pub proof fn lemma_top_selection_descending(keys: Seq<(int, nat)>, idx: Seq<int>, n: nat)
    requires
        is_top_selection(keys, idx, n),
    ensures
        forall|i: int, j: int|
            0 <= i < j < idx.len() ==> !value_lt(keys[#[trigger] idx[i]], keys[#[trigger] idx[j]]),
{
    assert forall|i: int, j: int| 0 <= i < j < idx.len() implies !value_lt(
        keys[#[trigger] idx[i]],
        keys[#[trigger] idx[j]],
    ) by {
        assert(ranks_before(keys, idx[i], idx[j]));
        crate::decimal::lemma_value_lt_order(keys[idx[i]], keys[idx[j]], keys[idx[j]]);
    }
}

/// Every leader that a top selection leaves out ranks no higher than any it
/// picks: its key is at most theirs.
pub proof fn lemma_top_selection_dominates(keys: Seq<(int, nat)>, idx: Seq<int>, n: nat, k: int)
    requires
        is_top_selection(keys, idx, n),
        0 <= k < keys.len(),
        !idx.contains(k),
    ensures
        forall|i: int| 0 <= i < idx.len() ==> !value_lt(keys[#[trigger] idx[i]], keys[k]),
{
    assert forall|i: int| 0 <= i < idx.len() implies !value_lt(keys[#[trigger] idx[i]], keys[k]) by {
        assert(ranks_before(keys, idx[i], k));
        crate::decimal::lemma_value_lt_order(keys[idx[i]], keys[k], keys[k]);
    }
}

/// The top selection is determined by the keys: the top `n1` leaders are the
/// first `n1` of the top `n2` whenever `n1 <= n2`.  So asking for fewer
/// leaders gives a prefix of what asking for more gives, and two requests for
/// the same number give the same leaders.
pub proof fn lemma_top_selection_prefix(keys: Seq<(int, nat)>, idx1: Seq<int>, n1: nat, idx2: Seq<int>, n2: nat)
    requires
        is_top_selection(keys, idx1, n1),
        is_top_selection(keys, idx2, n2),
        n1 <= n2,
    ensures
        idx1 == idx2.subrange(0, idx1.len() as int),
{
    assert(idx1.len() <= idx2.len());
    assert forall|p: int| 0 <= p < idx1.len() implies idx1[p] == idx2[p] by {
        lemma_same_prefix(keys, idx1, n1, idx2, n2, p);
    }
    assert(idx1 =~= idx2.subrange(0, idx1.len() as int));
}

proof fn lemma_distinct(keys: Seq<(int, nat)>, idx: Seq<int>, n: nat, a: int, b: int)
    requires
        is_top_selection(keys, idx, n),
        0 <= a < idx.len(),
        0 <= b < idx.len(),
        a != b,
    ensures
        idx[a] != idx[b],
{
    if idx[a] == idx[b] {
        let x = idx[a];
        if a < b {
            assert(ranks_before(keys, idx[a], idx[b]));
        } else {
            assert(ranks_before(keys, idx[b], idx[a]));
        }
        lemma_ranks_order(keys, x, x, x);
    }
}

proof fn lemma_same_prefix(keys: Seq<(int, nat)>, idx1: Seq<int>, n1: nat, idx2: Seq<int>, n2: nat, p: int)
    requires
        is_top_selection(keys, idx1, n1),
        is_top_selection(keys, idx2, n2),
        n1 <= n2,
        0 <= p < idx1.len(),
    ensures
        idx1[p] == idx2[p],
    decreases p,
{
    assert(idx1.len() <= idx2.len());
    if p > 0 {
        lemma_same_prefix(keys, idx1, n1, idx2, n2, p - 1);
    }
    assert forall|q: int| 0 <= q < p implies idx1[q] == idx2[q] by {
        lemma_same_prefix(keys, idx1, n1, idx2, n2, q);
    }
    let a = idx1[p];
    let b = idx2[p];
    if a != b {
        // Where does `b` stand in the first selection?  It ranks after `a`
        // there, while `a` ranks after it in the second.
        let b_after_a = ranks_before(keys, a, b);
        let a_after_b = ranks_before(keys, b, a);
        if idx1.contains(b) {
            let q = choose|q: int| 0 <= q < idx1.len() && idx1[q] == b;
            if q < p {
                assert(idx2[q] == b);
                lemma_distinct(keys, idx2, n2, q, p);
            }
            if q == p {
                assert(false);
            }
            assert(ranks_before(keys, idx1[p], idx1[q]));
            assert(b_after_a);
        } else {
            assert(ranks_before(keys, idx1[p], b));
            assert(b_after_a);
        }
        if idx2.contains(a) {
            let q = choose|q: int| 0 <= q < idx2.len() && idx2[q] == a;
            if q < p {
                assert(idx1[q] == a);
                lemma_distinct(keys, idx1, n1, q, p);
            }
            if q == p {
                assert(false);
            }
            assert(ranks_before(keys, idx2[p], idx2[q]));
            assert(a_after_b);
        } else {
            assert(ranks_before(keys, idx2[p], a));
            assert(a_after_b);
        }
        lemma_ranks_order(keys, a, b, a);
    }
}

/// A collection of copy-trading leaders.
pub struct ScraperAggregator {
    traders: Vec<LeadTrader>,
}

impl View for ScraperAggregator {
    type V = Seq<LeadTrader>;

    /// The leaders collected so far, in the order they were added.
    closed spec fn view(&self) -> Seq<LeadTrader> {
        self.traders@
    }
}

impl ScraperAggregator {
    /// An empty collection.
    pub fn new() -> (r: ScraperAggregator)
        ensures
            r@ == Seq::<LeadTrader>::empty(),
    {
        ScraperAggregator { traders: Vec::new() }
    }

    /// Adds leaders after the ones already collected.
    pub fn add_traders(&mut self, new_traders: Vec<LeadTrader>)
        ensures
            final(self)@ == old(self)@ + new_traders@,
    {
        let mut new_traders = new_traders;
        self.traders.append(&mut new_traders);
    }

    /// Every leader collected, in the order added.
    pub fn all_traders(&self) -> (r: &[LeadTrader])
        ensures
            r@ == self@,
    {
        self.traders.as_slice()
    }

    /// Forgets every leader.
    pub fn clear(&mut self)
        ensures
            final(self)@ == Seq::<LeadTrader>::empty(),
    {
        self.traders.clear();
    }

    fn ranks_ahead(&self, by_roi: bool, i: usize, j: usize) -> (r: bool)
        requires
            i < self@.len(),
            j < self@.len(),
        ensures
            r == ranks_before(trader_keys(self@, by_roi), i as int, j as int),
    {
        let ti = &self.traders[i];
        let tj = &self.traders[j];
        let (ki, kj): (&Decimal, &Decimal) = if by_roi {
            (&ti.roi_percent, &tj.roi_percent)
        } else {
            (&ti.pnl_usd, &tj.pnl_usd)
        };
        kj.lt(ki) || (!ki.lt(kj) && i < j)
    }

    /// The indices of all leaders in stable descending order of their key.
    fn ranked_indices(&self, by_roi: bool) -> (order: Vec<usize>)
        ensures
            order@.len() == self@.len(),
            forall|a: int| 0 <= a < order@.len() ==> #[trigger] order@[a] < self@.len(),
            forall|k: usize| k < self@.len() ==> #[trigger] order@.contains(k),
            forall|a: int, b: int|
                0 <= a < b < order@.len() ==> ranks_before(
                    trader_keys(self@, by_roi),
                    #[trigger] order@[a] as int,
                    #[trigger] order@[b] as int,
                ),
    {
        let ghost keys = trader_keys(self@, by_roi);
        let len = self.traders.len();
        let mut order: Vec<usize> = Vec::new();
        let mut i: usize = 0;
        while i < len
            invariant
                len == self@.len(),
                keys == trader_keys(self@, by_roi),
                i <= len,
                order@.len() == i,
                forall|a: int| 0 <= a < order@.len() ==> #[trigger] order@[a] < i,
                forall|k: usize| k < i ==> #[trigger] order@.contains(k),
                forall|a: int, b: int|
                    0 <= a < b < order@.len() ==> ranks_before(
                        keys,
                        #[trigger] order@[a] as int,
                        #[trigger] order@[b] as int,
                    ),
            decreases len - i,
        {
            let mut pos: usize = 0;
            while pos < order.len() && self.ranks_ahead(by_roi, order[pos], i)
                invariant
                    len == self@.len(),
                    keys == trader_keys(self@, by_roi),
                    i < len,
                    pos <= order@.len(),
                    forall|a: int| 0 <= a < order@.len() ==> #[trigger] order@[a] < i,
                    forall|a: int| 0 <= a < pos ==> ranks_before(keys, #[trigger] order@[a] as int, i as int),
                decreases order@.len() - pos,
            {
                pos = pos + 1;
            }
            let ghost old_order = order@;
            proof {
                if pos < old_order.len() {
                    let p = old_order[pos as int] as int;
                    lemma_ranks_order(keys, p, i as int, p);
                    assert(ranks_before(keys, i as int, p));
                    assert forall|b: int| pos < b < old_order.len() implies ranks_before(
                        keys,
                        i as int,
                        old_order[b] as int,
                    ) by {
                        lemma_ranks_order(keys, i as int, p, old_order[b] as int);
                    }
                }
            }
            order.insert(pos, i);
            proof {
                let new_order = order@;
                assert(new_order == old_order.insert(pos as int, i));
                assert forall|a: int, b: int| 0 <= a < b < new_order.len() implies ranks_before(
                    keys,
                    #[trigger] new_order[a] as int,
                    #[trigger] new_order[b] as int,
                ) by {
                    if b < pos {
                        assert(new_order[a] == old_order[a]);
                        assert(new_order[b] == old_order[b]);
                    } else if b == pos {
                        assert(new_order[a] == old_order[a]);
                    } else if a < pos {
                        assert(new_order[a] == old_order[a]);
                        assert(new_order[b] == old_order[b - 1]);
                        lemma_ranks_order(keys, old_order[a] as int, i as int, old_order[b - 1] as int);
                    } else if a == pos {
                        assert(new_order[b] == old_order[b - 1]);
                    } else {
                        assert(new_order[a] == old_order[a - 1]);
                        assert(new_order[b] == old_order[b - 1]);
                    }
                }
                assert forall|k: usize| k < i + 1 implies #[trigger] new_order.contains(k) by {
                    if k == i {
                        assert(new_order[pos as int] == i);
                    } else {
                        assert(old_order.contains(k));
                        let q = choose|q: int| 0 <= q < old_order.len() && old_order[q] == k;
                        if q < pos {
                            assert(new_order[q] == old_order[q]);
                        } else {
                            assert(new_order[q + 1] == old_order[q]);
                        }
                    }
                }
                assert forall|a: int| 0 <= a < new_order.len() implies #[trigger] new_order[a] < i + 1 by {
                    if a < pos {
                        assert(new_order[a] == old_order[a]);
                    } else if a > pos {
                        assert(new_order[a] == old_order[a - 1]);
                    }
                }
            }
            i = i + 1;
        }
        order
    }

    fn top_by(&self, n: usize, by_roi: bool) -> (r: Vec<&LeadTrader>)
        ensures
            exists|idx: Seq<int>|
                is_top_selection(trader_keys(self@, by_roi), idx, n as nat) && picks(self@, idx, r@),
    {
        let ghost keys = trader_keys(self@, by_roi);
        let order = self.ranked_indices(by_roi);
        let m = if n < order.len() {
            n
        } else {
            order.len()
        };
        let mut out: Vec<&LeadTrader> = Vec::new();
        let mut i: usize = 0;
        while i < m
            invariant
                m <= order@.len(),
                order@.len() == self@.len(),
                forall|a: int| 0 <= a < order@.len() ==> #[trigger] order@[a] < self@.len(),
                i <= m,
                out@.len() == i,
                forall|a: int| 0 <= a < i ==> *#[trigger] out@[a] == self@[order@[a] as int],
            decreases m - i,
        {
            out.push(&self.traders[order[i]]);
            i = i + 1;
        }
        let ghost idx = Seq::new(m as nat, |a: int| order@[a] as int);
        proof {
            assert(keys.len() == self@.len());
            assert forall|k: int, a: int|
                0 <= k < keys.len() && !idx.contains(k) && 0 <= a < idx.len() implies #[trigger] ranks_before(
                keys,
                idx[a],
                k,
            ) by {
                assert(order@.contains(k as usize));
                let q = choose|q: int| 0 <= q < order@.len() && order@[q] == k as usize;
                if q < m {
                    assert(idx[q] == k);
                }
                assert(q > a);
            }
            assert(picks(self@, idx, out@));
            assert(is_top_selection(keys, idx, n as nat));
        }
        out
    }

    /// The `n` leaders with the highest return in percent (all of them when
    /// there are fewer), highest first; leaders with equal returns keep the
    /// order in which they were added.
    pub fn top_by_roi(&self, n: usize) -> (r: Vec<&LeadTrader>)
        ensures
            exists|idx: Seq<int>|
                is_top_selection(trader_keys(self@, true), idx, n as nat) && picks(self@, idx, r@),
    {
        self.top_by(n, true)
    }

    /// The `n` leaders with the highest profit in dollars (all of them when
    /// there are fewer), highest first; leaders with equal profits keep the
    /// order in which they were added.
    pub fn top_by_pnl(&self, n: usize) -> (r: Vec<&LeadTrader>)
        ensures
            exists|idx: Seq<int>|
                is_top_selection(trader_keys(self@, false), idx, n as nat) && picks(self@, idx, r@),
    {
        self.top_by(n, false)
    }
}

} // verus!
