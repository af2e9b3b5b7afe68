use vstd::prelude::*;

use crate::common::Side;

verus! {

// ---------------------------------------------------------------------------
// One side of the book as a finite map
// ---------------------------------------------------------------------------

/// The map a side's level list denotes: price to size, a later entry for
/// the same price winning.
pub open spec fn side_map(levels: Seq<(u64, u64)>) -> Map<u64, u64>
    decreases levels.len(),
{
    if levels.len() == 0 {
        Map::empty()
    } else {
        side_map(levels.drop_last()).insert(levels.last().0, levels.last().1)
    }
}

/// Each price at most once.
pub open spec fn wf_levels(levels: Seq<(u64, u64)>) -> bool {
    forall|i: int, j: int|
        0 <= i < j < levels.len() ==> (#[trigger] levels[i]).0 != (#[trigger] levels[j]).0
}

/// The level list with every entry at the given price gone.
pub open spec fn spec_without(levels: Seq<(u64, u64)>, price: u64) -> Seq<(u64, u64)>
    decreases levels.len(),
{
    if levels.len() == 0 {
        Seq::empty()
    } else {
        let r = spec_without(levels.drop_last(), price);
        if levels.last().0 == price {
            r
        } else {
            r.push(levels.last())
        }
    }
}

proof fn lemma_without(levels: Seq<(u64, u64)>, price: u64)
    ensures
        side_map(spec_without(levels, price)) =~= side_map(levels).remove(price),
        forall|i: int|
            0 <= i < spec_without(levels, price).len() ==> (#[trigger] spec_without(
                levels,
                price,
            )[i]).0 != price,
        wf_levels(levels) ==> wf_levels(spec_without(levels, price)),
        spec_without(levels, price).len() <= levels.len(),
        forall|i: int|
            0 <= i < spec_without(levels, price).len() ==> exists|j: int|
                0 <= j < levels.len() && #[trigger] spec_without(levels, price)[i] == levels[j],
    decreases levels.len(),
{
    if levels.len() > 0 {
        let dl = levels.drop_last();
        let last = levels.last();
        lemma_without(dl, price);
        let r = spec_without(dl, price);
        if last.0 == price {
            assert(side_map(dl).insert(price, last.1).remove(price) =~= side_map(dl).remove(
                price,
            ));
            assert(side_map(spec_without(levels, price)) =~= side_map(levels).remove(price));
        } else {
            let p2 = r.push(last);
            assert(p2.drop_last() =~= r);
            assert(p2.last() == last);
            assert(side_map(p2) =~= side_map(dl).remove(price).insert(last.0, last.1));
            assert(side_map(dl).remove(price).insert(last.0, last.1) =~= side_map(dl).insert(
                last.0,
                last.1,
            ).remove(price));
            assert(side_map(spec_without(levels, price)) =~= side_map(levels).remove(price));
        }
        assert(forall|j: int| 0 <= j < dl.len() ==> #[trigger] dl[j] == levels[j]);
    }
}

/// The denoted map's keys are exactly the listed prices, each at its listed
/// size where the list is well formed.
proof fn lemma_side_map_entries(levels: Seq<(u64, u64)>)
    requires
        wf_levels(levels),
    ensures
        forall|i: int|
            0 <= i < levels.len() ==> side_map(levels).contains_key((#[trigger] levels[i]).0)
                && side_map(levels)[levels[i].0] == levels[i].1,
        forall|k: u64|
            side_map(levels).contains_key(k) ==> exists|i: int|
                0 <= i < levels.len() && (#[trigger] levels[i]).0 == k,
    decreases levels.len(),
{
    if levels.len() > 0 {
        let dl = levels.drop_last();
        assert(wf_levels(dl));
        lemma_side_map_entries(dl);
        assert(forall|j: int| 0 <= j < dl.len() ==> #[trigger] dl[j] == levels[j]);
        assert forall|i: int| 0 <= i < levels.len() implies side_map(levels).contains_key(
            (#[trigger] levels[i]).0,
        ) && side_map(levels)[levels[i].0] == levels[i].1 by {
            if i < levels.len() - 1 {
                assert(dl[i] == levels[i]);
                assert(side_map(dl).contains_key(dl[i].0) && side_map(dl)[dl[i].0] == dl[i].1);
                assert(levels[i].0 != levels.last().0);
            }
        }
        assert forall|k: u64| side_map(levels).contains_key(k) implies exists|i: int|
            0 <= i < levels.len() && (#[trigger] levels[i]).0 == k by {
            if k == levels.last().0 {
                assert(levels[levels.len() - 1].0 == k);
            } else {
                assert(side_map(dl).contains_key(k));
                let j = choose|j: int| 0 <= j < dl.len() && (#[trigger] dl[j]).0 == k;
                assert(levels[j].0 == k);
            }
        }
    }
}

/// Replaces or removes one level in a side: a size of zero removes the
/// price, anything else sets it.
fn set_level(levels: &mut Vec<(u64, u64)>, price: u64, qty: u64)
    requires
        wf_levels(old(levels)@),
    ensures
        wf_levels(final(levels)@),
        side_map(final(levels)@) == if qty == 0 {
            side_map(old(levels)@).remove(price)
        } else {
            side_map(old(levels)@).insert(price, qty)
        },
{
    let ghost l0 = levels@;
    let mut out: Vec<(u64, u64)> = Vec::new();
    let mut i: usize = 0;
    while i < levels.len()
        invariant
            i <= l0.len(),
            levels@ == l0,
            out@ =~= spec_without(l0.take(i as int), price),
        decreases l0.len() - i,
    {
        let (p, q) = levels[i];
        proof {
            assert(l0.take(i + 1).drop_last() =~= l0.take(i as int));
            assert(l0.take(i + 1).last() == l0[i as int]);
        }
        if p != price {
            out.push((p, q));
        }
        i = i + 1;
    }
    proof {
        assert(l0.take(i as int) =~= l0);
        lemma_without(l0, price);
    }
    if qty != 0 {
        let ghost w = out@;
        out.push((price, qty));
        proof {
            lemma_without(l0, price);
            assert(out@.drop_last() =~= w);
            assert(out@.last() == (price, qty));
            assert(side_map(out@) =~= side_map(l0).remove(price).insert(price, qty));
            assert(side_map(l0).remove(price).insert(price, qty) =~= side_map(l0).insert(
                price,
                qty,
            ));
        }
    } else {
        proof {
            lemma_without(l0, price);
        }
    }
    *levels = out;
}

// ---------------------------------------------------------------------------
// The two-sided book
// ---------------------------------------------------------------------------

/// One applied change: a side, an integer-scaled price, and the new size at
/// that price, zero meaning the level goes away.
#[derive(Clone, Copy, Debug, PartialEq, Eq, Structural)]
pub struct BookDelta {
    pub side: Side,
    pub price: u64,
    pub qty: u64,
}

/// What one delta does to the two side maps.
pub open spec fn spec_apply_delta(bids: Map<u64, u64>, asks: Map<u64, u64>, d: BookDelta) -> (
    Map<u64, u64>,
    Map<u64, u64>,
) {
    match d.side {
        Side::Buy => (
            if d.qty == 0 {
                bids.remove(d.price)
            } else {
                bids.insert(d.price, d.qty)
            },
            asks,
        ),
        Side::Sell => (
            bids,
            if d.qty == 0 {
                asks.remove(d.price)
            } else {
                asks.insert(d.price, d.qty)
            },
        ),
    }
}

/// The naive replay: the fold of the deltas over starting side maps.
pub open spec fn spec_replay(
    bids: Map<u64, u64>,
    asks: Map<u64, u64>,
    deltas: Seq<BookDelta>,
) -> (Map<u64, u64>, Map<u64, u64>)
    decreases deltas.len(),
{
    if deltas.len() == 0 {
        (bids, asks)
    } else {
        let prior = spec_replay(bids, asks, deltas.drop_last());
        spec_apply_delta(prior.0, prior.1, deltas.last())
    }
}

/// The map a snapshot's level list denotes, zero sizes removing rather
/// than inserting.
pub open spec fn spec_snapshot_map(levels: Seq<(u64, u64)>) -> Map<u64, u64>
    decreases levels.len(),
{
    if levels.len() == 0 {
        Map::empty()
    } else {
        let m = spec_snapshot_map(levels.drop_last());
        if levels.last().1 == 0 {
            m.remove(levels.last().0)
        } else {
            m.insert(levels.last().0, levels.last().1)
        }
    }
}

/// A client-side order book derived from a snapshot and deltas: two maps
/// from integer-scaled price to size, held as level lists with each price
/// at most once.
#[derive(Debug, Clone, PartialEq, Eq)]
pub struct OrderBook {
    pub bids: Vec<(u64, u64)>,
    pub asks: Vec<(u64, u64)>,
}

impl OrderBook {
    /// Both sides well formed: each price at most once.
    pub open spec fn wf(&self) -> bool {
        wf_levels(self.bids@) && wf_levels(self.asks@)
    }

    /// The bid side as a map.
    pub open spec fn bids_map(&self) -> Map<u64, u64> {
        side_map(self.bids@)
    }

    /// The ask side as a map.
    pub open spec fn asks_map(&self) -> Map<u64, u64> {
        side_map(self.asks@)
    }

    /// An empty book.
    pub fn new() -> (r: OrderBook)
        ensures
            r.wf(),
            r.bids_map() == Map::<u64, u64>::empty(),
            r.asks_map() == Map::<u64, u64>::empty(),
    {
        OrderBook { bids: Vec::new(), asks: Vec::new() }
    }

    /// Replaces the whole book with a snapshot's levels; a zero size in the
    /// snapshot removes rather than inserts.
    pub fn apply_snapshot(&mut self, bids: &Vec<(u64, u64)>, asks: &Vec<(u64, u64)>)
        ensures
            final(self).wf(),
            final(self).bids_map() == spec_snapshot_map(bids@),
            final(self).asks_map() == spec_snapshot_map(asks@),
    {
        self.bids = Vec::new();
        self.asks = Vec::new();
        let mut i: usize = 0;
        while i < bids.len()
            invariant
                i <= bids@.len(),
                wf_levels(self.bids@),
                side_map(self.bids@) == spec_snapshot_map(bids@.take(i as int)),
                wf_levels(self.asks@),
                side_map(self.asks@) == spec_snapshot_map(Seq::<(u64, u64)>::empty()),
            decreases bids@.len() - i,
        {
            let (p, q) = bids[i];
            proof {
                assert(bids@.take(i + 1).drop_last() =~= bids@.take(i as int));
                assert(bids@.take(i + 1).last() == bids@[i as int]);
            }
            set_level(&mut self.bids, p, q);
            i = i + 1;
        }
        proof {
            assert(bids@.take(i as int) =~= bids@);
        }
        let mut j: usize = 0;
        while j < asks.len()
            invariant
                j <= asks@.len(),
                wf_levels(self.asks@),
                side_map(self.asks@) == spec_snapshot_map(asks@.take(j as int)),
                wf_levels(self.bids@),
                side_map(self.bids@) == spec_snapshot_map(bids@),
            decreases asks@.len() - j,
        {
            let (p, q) = asks[j];
            proof {
                assert(asks@.take(j + 1).drop_last() =~= asks@.take(j as int));
                assert(asks@.take(j + 1).last() == asks@[j as int]);
            }
            set_level(&mut self.asks, p, q);
            j = j + 1;
        }
        proof {
            assert(asks@.take(j as int) =~= asks@);
        }
    }

    /// Applies one delta: a zero size removes that exact price level, any
    /// other size sets it; the other side is untouched.
    pub fn apply_delta(&mut self, d: BookDelta)
        requires
            old(self).wf(),
        ensures
            final(self).wf(),
            (final(self).bids_map(), final(self).asks_map()) == spec_apply_delta(
                old(self).bids_map(),
                old(self).asks_map(),
                d,
            ),
    {
        match d.side {
            Side::Buy => set_level(&mut self.bids, d.price, d.qty),
            Side::Sell => set_level(&mut self.asks, d.price, d.qty),
        }
    }

    /// Law: applying a run of deltas one by one leaves exactly the naive
    /// replay of that run from the starting state.
    pub fn apply_deltas(&mut self, deltas: &Vec<BookDelta>)
        requires
            old(self).wf(),
        ensures
            final(self).wf(),
            (final(self).bids_map(), final(self).asks_map()) == spec_replay(
                old(self).bids_map(),
                old(self).asks_map(),
                deltas@,
            ),
    {
        let ghost b0 = self.bids_map();
        let ghost a0 = self.asks_map();
        let mut i: usize = 0;
        while i < deltas.len()
            invariant
                i <= deltas@.len(),
                self.wf(),
                (self.bids_map(), self.asks_map()) == spec_replay(b0, a0, deltas@.take(i as int)),
            decreases deltas@.len() - i,
        {
            proof {
                assert(deltas@.take(i + 1).drop_last() =~= deltas@.take(i as int));
                assert(deltas@.take(i + 1).last() == deltas@[i as int]);
            }
            self.apply_delta(deltas[i]);
            i = i + 1;
        }
        proof {
            assert(deltas@.take(i as int) =~= deltas@);
        }
    }

    /// The best bid: the highest-priced level of the bid side, with its
    /// size; nothing on an empty side.
    pub fn top_bid(&self) -> (r: Option<(u64, u64)>)
        requires
            self.wf(),
        ensures
            match r {
                Some(t) => self.bids_map().contains_key(t.0) && self.bids_map()[t.0] == t.1
                    && forall|k: u64| self.bids_map().contains_key(k) ==> k <= t.0,
                None => self.bids_map() =~= Map::<u64, u64>::empty(),
            },
    {
        proof {
            lemma_side_map_entries(self.bids@);
        }
        if self.bids.len() == 0 {
            proof {
                assert forall|k: u64| !self.bids_map().contains_key(k) by {
                    if self.bids_map().contains_key(k) {
                        let i = choose|i: int|
                            0 <= i < self.bids@.len() && (#[trigger] self.bids@[i]).0 == k;
                    }
                }
            }
            return None;
        }
        let mut best: (u64, u64) = self.bids[0];
        let mut i: usize = 1;
        while i < self.bids.len()
            invariant
                1 <= i <= self.bids@.len(),
                exists|j: int| 0 <= j < i && #[trigger] self.bids@[j] == best,
                forall|j: int| 0 <= j < i ==> (#[trigger] self.bids@[j]).0 <= best.0,
            decreases self.bids@.len() - i,
        {
            if self.bids[i].0 > best.0 {
                best = self.bids[i];
            }
            i = i + 1;
        }
        proof {
            assert forall|k: u64| self.bids_map().contains_key(k) implies k <= best.0 by {
                let j = choose|j: int|
                    0 <= j < self.bids@.len() && (#[trigger] self.bids@[j]).0 == k;
            }
        }
        Some(best)
    }

    /// The best ask: the lowest-priced level of the ask side, with its
    /// size; nothing on an empty side.
    pub fn top_ask(&self) -> (r: Option<(u64, u64)>)
        requires
            self.wf(),
        ensures
            match r {
                Some(t) => self.asks_map().contains_key(t.0) && self.asks_map()[t.0] == t.1
                    && forall|k: u64| self.asks_map().contains_key(k) ==> k >= t.0,
                None => self.asks_map() =~= Map::<u64, u64>::empty(),
            },
    {
        proof {
            lemma_side_map_entries(self.asks@);
        }
        if self.asks.len() == 0 {
            proof {
                assert forall|k: u64| !self.asks_map().contains_key(k) by {
                    if self.asks_map().contains_key(k) {
                        let i = choose|i: int|
                            0 <= i < self.asks@.len() && (#[trigger] self.asks@[i]).0 == k;
                    }
                }
            }
            return None;
        }
        let mut best: (u64, u64) = self.asks[0];
        let mut i: usize = 1;
        while i < self.asks.len()
            invariant
                1 <= i <= self.asks@.len(),
                exists|j: int| 0 <= j < i && #[trigger] self.asks@[j] == best,
                forall|j: int| 0 <= j < i ==> (#[trigger] self.asks@[j]).0 >= best.0,
            decreases self.asks@.len() - i,
        {
            if self.asks[i].0 < best.0 {
                best = self.asks[i];
            }
            i = i + 1;
        }
        proof {
            assert forall|k: u64| self.asks_map().contains_key(k) implies k >= best.0 by {
                let j = choose|j: int|
                    0 <= j < self.asks@.len() && (#[trigger] self.asks@[j]).0 == k;
            }
        }
        Some(best)
    }
}

} // verus!
