//! The local replica of the venue's order book.
//!
//! Each side is kept as a list of levels, best price first, with one level
//! per price and no level of quantity zero. Prices are told apart by their
//! numeric value.
use vstd::prelude::*;
use vstd::string::*;
use crate::clock::now_millis;
use crate::market::{Depth, Level, Timestamp};
use crate::order::Symbol;
use crate::text::append_u64;
use crate::text::decimal_digits;

verus! {

/// Best bid and best ask.
pub type BboPair = (Level, Level);

/// Whether level `a` is listed before level `b` on a side: at a higher price
/// on the bid side (`descending`), at a lower price on the ask side.
pub open spec fn listed_before(a: Level, b: Level, descending: bool) -> bool {
    if descending {
        a.price.units() > b.price.units()
    } else {
        a.price.units() < b.price.units()
    }
}

/// Whether a side is in order, best price first, one level per price.
pub open spec fn sorted_side(s: Seq<Level>, descending: bool) -> bool {
    forall|i: int, j: int| 0 <= i < j < s.len() ==> listed_before(s[i], s[j], descending)
}

/// Whether no level of the side has quantity zero.
pub open spec fn no_empty_level(s: Seq<Level>) -> bool {
    forall|i: int| 0 <= i < s.len() ==> (#[trigger] s[i]).quantity.units() != 0
}

/// Whether the side has a level at the price of `units` (in `10^-28`).
pub open spec fn has_price(s: Seq<Level>, units: int) -> bool {
    exists|i: int| 0 <= i < s.len() && (#[trigger] s[i]).price.units() == units
}

/// Where the level at a price stands on the side.
pub open spec fn position_of(s: Seq<Level>, units: int) -> int {
    choose|i: int| 0 <= i < s.len() && (#[trigger] s[i]).price.units() == units
}

/// A side as a map from price (in units of `10^-28`) to the level stored there.
pub open spec fn levels_map(s: Seq<Level>) -> Map<int, Level> {
    Map::new(|u: int| has_price(s, u), |u: int| s[position_of(s, u)])
}

/// One level of a delta applied to a side: quantity zero removes the price,
/// any other quantity is stored at the price. A price that is already listed
/// keeps the notation it was first listed with.
pub open spec fn apply_level(m: Map<int, Level>, level: Level) -> Map<int, Level> {
    let u = level.price.units();
    if level.quantity.units() == 0 {
        m.remove(u)
    } else if m.contains_key(u) {
        m.insert(u, Level { price: m[u].price, quantity: level.quantity })
    } else {
        m.insert(u, level)
    }
}

/// The levels of a delta applied to a side, in order.
pub open spec fn apply_levels(m: Map<int, Level>, levels: Seq<Level>) -> Map<int, Level>
    decreases levels.len(),
{
    if levels.len() == 0 {
        m
    } else {
        apply_level(apply_levels(m, levels.drop_last()), levels.last())
    }
}

/// `quantity@price` of a level.
pub open spec fn level_text(level: Level) -> Seq<char> {
    level.quantity.spec_text() + "@"@ + level.price.spec_text()
}

/// The levels' texts, separated by commas.
pub open spec fn levels_text(levels: Seq<Level>) -> Seq<char>
    decreases levels.len(),
{
    if levels.len() == 0 {
        Seq::empty()
    } else if levels.len() == 1 {
        level_text(levels[0])
    } else {
        levels_text(levels.drop_last()) + ","@ + level_text(levels.last())
    }
}

/// The first `depth` levels of a side, or all of them if there are fewer.
pub open spec fn top_levels(levels: Seq<Level>, depth: int) -> Seq<Level> {
    if depth <= 0 {
        Seq::empty()
    } else if depth < levels.len() {
        levels.subrange(0, depth)
    } else {
        levels
    }
}

/// On a sorted side, a price is listed at one place only, and the map holds
/// exactly the listed levels.
pub proof fn lemma_levels_map(s: Seq<Level>, descending: bool)
    requires
        sorted_side(s, descending),
    ensures
        forall|i: int, j: int|
            0 <= i < s.len() && 0 <= j < s.len() && s[i].price.units() == s[j].price.units()
                ==> i == j,
        forall|i: int|
            0 <= i < s.len() ==> levels_map(s).contains_key((#[trigger] s[i]).price.units())
                && levels_map(s)[s[i].price.units()] == s[i],
        forall|u: int| #[trigger]
            levels_map(s).contains_key(u) ==> 0 <= position_of(s, u) < s.len() && s[position_of(
                s,
                u,
            )].price.units() == u,
{
    assert forall|i: int, j: int|
        0 <= i < s.len() && 0 <= j < s.len() && s[i].price.units() == s[j].price.units() implies i
        == j by {
        if i < j {
            assert(listed_before(s[i], s[j], descending));
        } else if j < i {
            assert(listed_before(s[j], s[i], descending));
        }
    }
    assert forall|i: int| 0 <= i < s.len() implies levels_map(s).contains_key(
        (#[trigger] s[i]).price.units(),
    ) && levels_map(s)[s[i].price.units()] == s[i] by {
        let u = s[i].price.units();
        assert(has_price(s, u));
        let p = position_of(s, u);
        assert(0 <= p < s.len() && s[p].price.units() == u);
    }
}

/// Dropping the best level of a side in order drops its price from the map.
proof fn lemma_levels_map_tail(s: Seq<Level>, descending: bool)
    requires
        sorted_side(s, descending),
        s.len() > 0,
    ensures
        sorted_side(s.drop_first(), descending),
        levels_map(s.drop_first()) == levels_map(s).remove(s[0].price.units()),
{
    let t = s.drop_first();
    let u = s[0].price.units();
    assert forall|i: int, j: int| 0 <= i < j < t.len() implies listed_before(
        t[i],
        t[j],
        descending,
    ) by {
        assert(listed_before(s[i + 1], s[j + 1], descending));
    }
    lemma_levels_map(s, descending);
    lemma_levels_map(t, descending);
    assert forall|v: int| levels_map(t).contains_key(v) == levels_map(s).remove(u).contains_key(
        v,
    ) by {
        if levels_map(t).contains_key(v) {
            let p = position_of(t, v);
            assert(s[p + 1] == t[p]);
            assert(has_price(s, v));
            assert(listed_before(s[0], s[p + 1], descending));
        }
        if levels_map(s).remove(u).contains_key(v) {
            let p = position_of(s, v);
            assert(p != 0);
            assert(t[p - 1] == s[p]);
            assert(has_price(t, v));
        }
    }
    assert forall|v: int| levels_map(t).contains_key(v) implies levels_map(t)[v] == levels_map(
        s,
    ).remove(u)[v] by {
        let p = position_of(t, v);
        assert(s[p + 1] == t[p]);
    }
    assert(levels_map(t) =~= levels_map(s).remove(u));
}

/// A side in order is determined by its map: two sides in the same order
/// that list the same levels at the same prices are the same sequence.
pub proof fn lemma_side_determined(a: Seq<Level>, b: Seq<Level>, descending: bool)
    requires
        sorted_side(a, descending),
        sorted_side(b, descending),
        levels_map(a) == levels_map(b),
    ensures
        a == b,
    decreases a.len(),
{
    lemma_levels_map(a, descending);
    lemma_levels_map(b, descending);
    if a.len() == 0 {
        if b.len() > 0 {
            assert(levels_map(b).contains_key(b[0].price.units()));
            assert(has_price(a, b[0].price.units()));
        }
        assert(a =~= b);
    } else {
        let u = a[0].price.units();
        assert(levels_map(a).contains_key(u));
        let p = position_of(b, u);
        assert(b[p] == a[0]);
        if p != 0 {
            assert(listed_before(b[0], b[p], descending));
            let w = b[0].price.units();
            assert(levels_map(b).contains_key(w));
            let q = position_of(a, w);
            assert(q != 0);
            assert(listed_before(a[0], a[q], descending));
        }
        lemma_levels_map_tail(a, descending);
        lemma_levels_map_tail(b, descending);
        lemma_side_determined(a.drop_first(), b.drop_first(), descending);
        assert(a =~= seq![a[0]] + a.drop_first());
        assert(b =~= seq![b[0]] + b.drop_first());
    }
}

/// Whether `a` is listed strictly before `b`.
fn goes_before(a: &Level, b: &Level, descending: bool) -> (r: bool)
    ensures
        r == listed_before(*a, *b, descending),
{
    if descending {
        b.price.less_than(&a.price)
    } else {
        a.price.less_than(&b.price)
    }
}

/// Applies one level of a delta to a side.
fn apply_to_side(side: &mut Vec<Level>, level: &Level, descending: bool)
    requires
        sorted_side(old(side)@, descending),
        no_empty_level(old(side)@),
    ensures
        sorted_side(final(side)@, descending),
        no_empty_level(final(side)@),
        levels_map(final(side)@) == apply_level(levels_map(old(side)@), *level),
{
    let ghost before = side@;
    let ghost u = level.price.units();
    let mut i: usize = 0;
    while i < side.len() && goes_before(&side[i], level, descending)
        invariant
            i <= side.len(),
            side@ == before,
            forall|k: int| 0 <= k < i ==> listed_before(#[trigger] side@[k], *level, descending),
        decreases side.len() - i,
    {
        i += 1;
    }
    let found = i < side.len() && side[i].price.equals(&level.price);
    proof {
        lemma_levels_map(before, descending);
        if !found {
            assert forall|k: int| 0 <= k < before.len() implies (#[trigger] before[k]).price.units()
                != u by {
                if k >= i as int {
                    if k > i as int {
                        assert(listed_before(before[i as int], before[k], descending));
                    }
                }
            }
            assert(!has_price(before, u));
        }
    }
    if found {
        if level.quantity.is_zero() {
            let _ = side.remove(i);
            proof {
                let after = side@;
                assert forall|a: int, b: int| 0 <= a < b < after.len() implies listed_before(
                    after[a],
                    after[b],
                    descending,
                ) by {
                    let a0 = if a < i { a } else { a + 1 };
                    let b0 = if b < i { b } else { b + 1 };
                    assert(listed_before(before[a0], before[b0], descending));
                }
                assert forall|k: int| 0 <= k < after.len() implies (#[trigger] after[k]).quantity.units()
                    != 0 by {
                    let k0 = if k < i { k } else { k + 1 };
                    assert(after[k] == before[k0]);
                }
                lemma_levels_map(after, descending);
                assert forall|v: int| levels_map(after).contains_key(v) == levels_map(
                    before,
                ).remove(u).contains_key(v) by {
                    if levels_map(after).contains_key(v) {
                        let p = position_of(after, v);
                        let p0 = if p < i { p } else { p + 1 };
                        assert(before[p0] == after[p]);
                        assert(has_price(before, v));
                    }
                    if levels_map(before).remove(u).contains_key(v) {
                        let p0 = position_of(before, v);
                        assert(p0 != i);
                        let p = if p0 < i { p0 } else { p0 - 1 };
                        assert(after[p] == before[p0]);
                        assert(has_price(after, v));
                    }
                }
                assert forall|v: int| levels_map(after).contains_key(v) implies levels_map(after)[v]
                    == levels_map(before).remove(u)[v] by {
                    let p = position_of(after, v);
                    let p0 = if p < i { p } else { p + 1 };
                    assert(before[p0] == after[p]);
                }
                assert(levels_map(after) =~= levels_map(before).remove(u));
            }
        } else {
            let kept = Level { price: side[i].price, quantity: level.quantity };
            side.set(i, kept);
            proof {
                let after = side@;
                assert forall|a: int, b: int| 0 <= a < b < after.len() implies listed_before(
                    after[a],
                    after[b],
                    descending,
                ) by {
                    assert(listed_before(before[a], before[b], descending));
                }
                assert forall|k: int| 0 <= k < after.len() implies (#[trigger] after[k]).quantity.units()
                    != 0 by {
                    if k != i {
                        assert(after[k] == before[k]);
                    }
                }
                lemma_levels_map(after, descending);
                let target = levels_map(before).insert(u, kept);
                assert(levels_map(before)[u] == before[i as int]);
                assert forall|v: int| levels_map(after).contains_key(v) == target.contains_key(
                    v,
                ) by {
                    if levels_map(after).contains_key(v) {
                        let p = position_of(after, v);
                        assert(before[p].price.units() == v);
                        assert(has_price(before, v));
                    }
                    if target.contains_key(v) {
                        if v == u {
                            assert(after[i as int].price.units() == u);
                        } else {
                            let p = position_of(before, v);
                            assert(after[p] == before[p]);
                        }
                        assert(has_price(after, v));
                    }
                }
                assert forall|v: int| levels_map(after).contains_key(v) implies levels_map(after)[v]
                    == target[v] by {
                    let p = position_of(after, v);
                    if p != i {
                        assert(after[p] == before[p]);
                    }
                }
                assert(levels_map(after) =~= target);
            }
        }
    } else {
        if level.quantity.is_zero() {
            proof {
                assert(levels_map(before).remove(u) =~= levels_map(before));
            }
        } else {
            side.insert(i, *level);
            proof {
                let after = side@;
                assert forall|a: int, b: int| 0 <= a < b < after.len() implies listed_before(
                    after[a],
                    after[b],
                    descending,
                ) by {
                    if b == i {
                        assert(after[a] == before[a]);
                    } else if a == i {
                        assert(after[b] == before[b - 1]);
                        if b - 1 > i {
                            assert(listed_before(before[i as int], before[b - 1], descending));
                        }
                    } else {
                        let a0 = if a < i { a } else { a - 1 };
                        let b0 = if b < i { b } else { b - 1 };
                        assert(listed_before(before[a0], before[b0], descending));
                    }
                }
                assert forall|k: int| 0 <= k < after.len() implies (#[trigger] after[k]).quantity.units()
                    != 0 by {
                    if k != i {
                        let k0 = if k < i { k } else { k - 1 };
                        assert(after[k] == before[k0]);
                    }
                }
                lemma_levels_map(after, descending);
                let target = levels_map(before).insert(u, *level);
                assert forall|v: int| levels_map(after).contains_key(v) == target.contains_key(
                    v,
                ) by {
                    if levels_map(after).contains_key(v) {
                        let p = position_of(after, v);
                        if p != i {
                            let p0 = if p < i { p } else { p - 1 };
                            assert(before[p0] == after[p]);
                            assert(has_price(before, v));
                        }
                    }
                    if target.contains_key(v) {
                        if v == u {
                            assert(after[i as int].price.units() == u);
                        } else {
                            let p0 = position_of(before, v);
                            let p = if p0 < i { p0 } else { p0 + 1 };
                            assert(after[p] == before[p0]);
                        }
                        assert(has_price(after, v));
                    }
                }
                assert forall|v: int| levels_map(after).contains_key(v) implies levels_map(after)[v]
                    == target[v] by {
                    let p = position_of(after, v);
                    if p != i {
                        let p0 = if p < i { p } else { p - 1 };
                        assert(before[p0] == after[p]);
                    }
                }
                assert(levels_map(after) =~= target);
            }
        }
    }
}

/// Applies the levels of a delta to a side, in order.
fn apply_all_to_side(side: &mut Vec<Level>, levels: &Vec<Level>, descending: bool)
    requires
        sorted_side(old(side)@, descending),
        no_empty_level(old(side)@),
    ensures
        sorted_side(final(side)@, descending),
        no_empty_level(final(side)@),
        levels_map(final(side)@) == apply_levels(levels_map(old(side)@), levels@),
{
    let ghost start = levels_map(side@);
    let mut k: usize = 0;
    while k < levels.len()
        invariant
            k <= levels.len(),
            sorted_side(side@, descending),
            no_empty_level(side@),
            levels_map(side@) == apply_levels(start, levels@.subrange(0, k as int)),
        decreases levels.len() - k,
    {
        apply_to_side(side, &levels[k], descending);
        proof {
            let next = levels@.subrange(0, k + 1);
            assert(next.drop_last() =~= levels@.subrange(0, k as int));
            assert(next.last() == levels@[k as int]);
        }
        k += 1;
    }
    proof {
        assert(levels@.subrange(0, levels@.len() as int) =~= levels@);
    }
}


/// How strictly a delta must follow the book it is applied to.
#[derive(Debug, Clone, Copy, PartialEq, Eq, Structural)]
pub enum Continuity {
    /// The delta must start where the book ends: the rule once the book is
    /// in step with the stream.
    Strict,
    /// The delta may straddle the book's last update: the rule for the first
    /// delta applied to a snapshot.
    Straddle,
}

/// What became of a buffered delta that was replayed onto a book.
#[derive(Debug, Clone, Copy, PartialEq, Eq, Structural)]
pub enum Replay {
    /// The delta ended before the book's last update and was dropped.
    Discarded,
    /// The delta was applied.
    Applied,
    /// The delta does not follow the book: updates are missing.
    Gap,
}

/// The mathematical content of an order book: its header and both sides as
/// maps from price (in units of `10^-28`) to level.
#[verifier::ext_equal]
pub struct BookModel {
    pub symbol: Symbol,
    pub local_ts: Timestamp,
    pub xchg_ts: Timestamp,
    pub last_update_id: u64,
    pub bids: Map<int, Level>,
    pub asks: Map<int, Level>,
}

impl BookModel {
    /// The strict rule: the delta starts where the book ends, and does not
    /// end before it.
    pub open spec fn continues(self, depth: Depth) -> bool {
        depth.last_final_update_id == self.last_update_id && self.last_update_id
            <= depth.final_update_id
    }

    /// The loose rule: the book's last update lies within the delta's range.
    pub open spec fn straddles(self, depth: Depth) -> bool {
        depth.last_final_update_id <= self.last_update_id <= depth.final_update_id
    }

    /// Whether the delta may be applied under the given rule.
    pub open spec fn accepts(self, depth: Depth, continuity: Continuity) -> bool {
        match continuity {
            Continuity::Strict => self.continues(depth),
            Continuity::Straddle => self.straddles(depth),
        }
    }

    /// The book with the delta applied at local time `now`: the venue's time
    /// and the last update id are the delta's, and the delta's levels are
    /// applied to both sides.
    pub open spec fn apply(self, depth: Depth, now: Timestamp) -> BookModel {
        BookModel {
            symbol: self.symbol,
            local_ts: now,
            xchg_ts: depth.transaction_time,
            last_update_id: depth.final_update_id,
            bids: apply_levels(self.bids, depth.bids@),
            asks: apply_levels(self.asks, depth.asks@),
        }
    }

    /// What replaying a buffered delta comes to.
    pub open spec fn replay(self, depth: Depth, continuity: Continuity) -> Replay {
        if depth.final_update_id < self.last_update_id {
            Replay::Discarded
        } else if self.accepts(depth, continuity) {
            Replay::Applied
        } else {
            Replay::Gap
        }
    }

    /// The book after the buffered deltas from index `from` on are replayed
    /// in order at local time `now`, or nothing when one of them reveals a
    /// gap. The first delta that is applied may straddle the book's last
    /// update; every later one must start where the book ends. `synced` says
    /// whether a delta has been applied already.
    pub open spec fn drain(self, buffer: Seq<Depth>, from: int, synced: bool, now: Timestamp)
        -> Option<BookModel>
        decreases buffer.len() - from,
    {
        if from < 0 || from >= buffer.len() {
            Some(self)
        } else {
            let rule = if synced {
                Continuity::Strict
            } else {
                Continuity::Straddle
            };
            match self.replay(buffer[from], rule) {
                Replay::Discarded => self.drain(buffer, from + 1, synced, now),
                Replay::Applied => self.apply(buffer[from], now).drain(buffer, from + 1, true, now),
                Replay::Gap => None,
            }
        }
    }

    /// Whether a delta has been applied once the buffered deltas from index
    /// `from` on are replayed: whether one had been applied before
    /// (`synced`), or one of them is applied.
    pub open spec fn synced_after(
        self,
        buffer: Seq<Depth>,
        from: int,
        synced: bool,
        now: Timestamp,
    ) -> bool
        decreases buffer.len() - from,
    {
        if from < 0 || from >= buffer.len() {
            synced
        } else {
            let rule = if synced {
                Continuity::Strict
            } else {
                Continuity::Straddle
            };
            match self.replay(buffer[from], rule) {
                Replay::Discarded => self.synced_after(buffer, from + 1, synced, now),
                Replay::Applied => self.apply(buffer[from], now).synced_after(
                    buffer,
                    from + 1,
                    true,
                    now,
                ),
                Replay::Gap => synced,
            }
        }
    }

    /// A delta that the book has already moved past is dropped when it is
    /// delivered again: replaying it leaves the book exactly as it is.
    pub proof fn lemma_repeated_delta_is_dropped(self, depth: Depth, synced: bool, now: Timestamp)
        requires
            depth.final_update_id < self.last_update_id,
        ensures
            self.drain(seq![depth], 0, synced, now) == Some(self),
    {
        let buffer = seq![depth];
        assert(buffer[0] == depth);
        assert(self.drain(buffer, 1, synced, now) == Some(self));
    }

    /// Bootstrap, first half: buffered deltas that end before the
    /// snapshot's last update are dropped. Replaying a buffer that starts
    /// with `k` such deltas is replaying what follows them.
    pub proof fn lemma_stale_deltas_are_dropped(self, buffer: Seq<Depth>, k: int, now: Timestamp)
        requires
            0 <= k <= buffer.len(),
            forall|j: int|
                0 <= j < k ==> (#[trigger] buffer[j]).final_update_id < self.last_update_id,
        ensures
            self.drain(buffer, 0, false, now) == self.drain(buffer, k, false, now),
    {
        self.lemma_stale_deltas_from(buffer, 0, k, now);
    }

    proof fn lemma_stale_deltas_from(self, buffer: Seq<Depth>, from: int, k: int, now: Timestamp)
        requires
            0 <= from <= k <= buffer.len(),
            forall|j: int|
                from <= j < k ==> (#[trigger] buffer[j]).final_update_id < self.last_update_id,
        ensures
            self.drain(buffer, from, false, now) == self.drain(buffer, k, false, now),
        decreases k - from,
    {
        if from < k {
            assert(buffer[from].final_update_id < self.last_update_id);
            self.lemma_stale_deltas_from(buffer, from + 1, k, now);
        }
    }

    /// What a replay comes to depends only on the deltas that are still to
    /// be replayed.
    pub proof fn lemma_drain_of_rest(
        self,
        buffer: Seq<Depth>,
        from: int,
        other: Seq<Depth>,
        other_from: int,
        synced: bool,
        now: Timestamp,
    )
        requires
            0 <= from <= buffer.len(),
            0 <= other_from <= other.len(),
            buffer.subrange(from, buffer.len() as int) == other.subrange(
                other_from,
                other.len() as int,
            ),
        ensures
            self.drain(buffer, from, synced, now) == self.drain(other, other_from, synced, now),
        decreases buffer.len() - from,
    {
        let rest = buffer.subrange(from, buffer.len() as int);
        let other_rest = other.subrange(other_from, other.len() as int);
        assert(rest.len() == buffer.len() - from);
        assert(other_rest.len() == other.len() - other_from);
        if from < buffer.len() {
            assert(buffer[from] == rest[0]);
            assert(other[other_from] == other_rest[0]);
            assert(buffer.subrange(from + 1, buffer.len() as int) =~= rest.drop_first());
            assert(other.subrange(other_from + 1, other.len() as int) =~= other_rest.drop_first());
            let rule = if synced {
                Continuity::Strict
            } else {
                Continuity::Straddle
            };
            match self.replay(buffer[from], rule) {
                Replay::Discarded => {
                    self.lemma_drain_of_rest(buffer, from + 1, other, other_from + 1, synced, now);
                },
                Replay::Applied => {
                    self.apply(buffer[from], now).lemma_drain_of_rest(
                        buffer,
                        from + 1,
                        other,
                        other_from + 1,
                        true,
                        now,
                    );
                },
                Replay::Gap => {},
            }
        }
    }

    /// A buffered delta that ends before the book's last update has no
    /// part in the replay, wherever in the buffer it stands: the replay
    /// comes to the same as without it.
    pub proof fn lemma_stale_delta_has_no_part(
        self,
        buffer: Seq<Depth>,
        from: int,
        at: int,
        synced: bool,
        now: Timestamp,
    )
        requires
            0 <= from <= at < buffer.len(),
            buffer[at].final_update_id < self.last_update_id,
        ensures
            self.drain(buffer, from, synced, now) == self.drain(
                buffer.remove(at),
                from,
                synced,
                now,
            ),
        decreases at - from,
    {
        let without = buffer.remove(at);
        if from == at {
            assert(buffer.subrange(at + 1, buffer.len() as int) =~= without.subrange(
                at,
                without.len() as int,
            ));
            self.lemma_drain_of_rest(buffer, at + 1, without, at, synced, now);
        } else {
            assert(without[from] == buffer[from]);
            let rule = if synced {
                Continuity::Strict
            } else {
                Continuity::Straddle
            };
            match self.replay(buffer[from], rule) {
                Replay::Discarded => {
                    self.lemma_stale_delta_has_no_part(buffer, from + 1, at, synced, now);
                },
                Replay::Applied => {
                    self.apply(buffer[from], now).lemma_stale_delta_has_no_part(
                        buffer,
                        from + 1,
                        at,
                        true,
                        now,
                    );
                },
                Replay::Gap => {},
            }
        }
    }

    /// Bootstrap, second half: when the replay goes through, the first
    /// buffered delta that does not end before the snapshot's last update
    /// straddles it, and is applied.
    pub proof fn lemma_first_applied_straddles(
        self,
        buffer: Seq<Depth>,
        k: int,
        now: Timestamp,
    )
        requires
            0 <= k < buffer.len(),
            forall|j: int|
                0 <= j < k ==> (#[trigger] buffer[j]).final_update_id < self.last_update_id,
            buffer[k].final_update_id >= self.last_update_id,
            self.drain(buffer, 0, false, now).is_some(),
        ensures
            self.straddles(buffer[k]),
            self.drain(buffer, 0, false, now) == self.apply(buffer[k], now).drain(
                buffer,
                k + 1,
                true,
                now,
            ),
    {
        self.lemma_stale_deltas_are_dropped(buffer, k, now);
    }
}

/// The local order book of one symbol.
#[derive(Debug)]
pub struct OrderBook {
    symbol: Symbol,
    local_ts: Timestamp,
    xchg_ts: Timestamp,
    last_update_id: u64,
    bids: Vec<Level>,
    asks: Vec<Level>,
}

impl OrderBook {
    pub closed spec fn spec_symbol(self) -> Symbol {
        self.symbol
    }

    /// Local time of the last change.
    pub closed spec fn spec_local_ts(self) -> Timestamp {
        self.local_ts
    }

    /// Venue time of the last change.
    pub closed spec fn spec_xchg_ts(self) -> Timestamp {
        self.xchg_ts
    }

    /// Id of the last update that the book holds.
    pub closed spec fn spec_last_update_id(self) -> u64 {
        self.last_update_id
    }

    /// The bids, highest price first.
    pub closed spec fn bid_levels(self) -> Seq<Level> {
        self.bids@
    }

    /// The asks, lowest price first.
    pub closed spec fn ask_levels(self) -> Seq<Level> {
        self.asks@
    }

    /// The bids by price.
    pub open spec fn bids_map(self) -> Map<int, Level> {
        levels_map(self.bid_levels())
    }

    /// The asks by price.
    pub open spec fn asks_map(self) -> Map<int, Level> {
        levels_map(self.ask_levels())
    }

    /// The book's invariant: both sides in order, one level per price, no
    /// level of quantity zero.
    pub open spec fn wf(self) -> bool {
        &&& sorted_side(self.bid_levels(), true)
        &&& sorted_side(self.ask_levels(), false)
        &&& no_empty_level(self.bid_levels())
        &&& no_empty_level(self.ask_levels())
    }

    /// The book's mathematical content.
    pub open spec fn model(self) -> BookModel {
        BookModel {
            symbol: self.spec_symbol(),
            local_ts: self.spec_local_ts(),
            xchg_ts: self.spec_xchg_ts(),
            last_update_id: self.spec_last_update_id(),
            bids: self.bids_map(),
            asks: self.asks_map(),
        }
    }

    /// The strict rule; see [`BookModel::continues`].
    pub open spec fn continues(self, depth: Depth) -> bool {
        self.model().continues(depth)
    }

    /// The loose rule; see [`BookModel::straddles`].
    pub open spec fn straddles(self, depth: Depth) -> bool {
        self.model().straddles(depth)
    }

    /// Whether the delta may be applied under the given rule.
    pub open spec fn accepts(self, depth: Depth, continuity: Continuity) -> bool {
        self.model().accepts(depth, continuity)
    }

    /// Whether `after` is this book with the delta applied at local time `now`.
    pub open spec fn applied(self, depth: Depth, now: Timestamp, after: OrderBook) -> bool {
        after.wf() && after.model() == self.model().apply(depth, now)
    }

    /// The text that [`OrderBook::show`] gives for the best `depth` levels.
    pub open spec fn spec_show(self, depth: int) -> Seq<char> {
        "[B:"@ + levels_text(top_levels(self.bid_levels(), depth)) + "|A:"@ + levels_text(
            top_levels(self.ask_levels(), depth),
        ) + "]"@
    }

    /// The one-line description of the book.
    pub open spec fn spec_text(self) -> Seq<char> {
        self.spec_symbol().spec_name() + " OrderBook (last_update_id: "@ + decimal_digits(
            self.spec_last_update_id() as nat,
        ) + ")"@
    }

    /// An empty book as of local time `now`.
    pub fn new_at(symbol: Symbol, now: Timestamp) -> (book: OrderBook)
        ensures
            book.wf(),
            book.spec_symbol() == symbol,
            book.spec_local_ts() == now,
            book.spec_xchg_ts() == now,
            book.spec_last_update_id() == 0,
            book.bid_levels().len() == 0,
            book.ask_levels().len() == 0,
    {
        OrderBook {
            symbol,
            local_ts: now,
            xchg_ts: now,
            last_update_id: 0,
            bids: Vec::new(),
            asks: Vec::new(),
        }
    }

    /// An empty book as of the current time.
    pub fn new(symbol: Symbol) -> (book: OrderBook)
        ensures
            book.wf(),
            book.spec_symbol() == symbol,
            book.spec_xchg_ts() == book.spec_local_ts(),
            book.spec_last_update_id() == 0,
            book.bid_levels().len() == 0,
            book.ask_levels().len() == 0,
    {
        OrderBook::new_at(symbol, now_millis())
    }

    /// The book that a depth snapshot describes, as of local time `now`.
    /// Levels are taken in order: a later level replaces an earlier one at
    /// the same price, and a level of quantity zero lists nothing.
    pub fn from_snapshot_at(
        symbol: Symbol,
        last_update_id: u64,
        xchg_ts: Timestamp,
        bids: &Vec<Level>,
        asks: &Vec<Level>,
        now: Timestamp,
    ) -> (book: OrderBook)
        ensures
            book.wf(),
            book.spec_symbol() == symbol,
            book.spec_local_ts() == now,
            book.spec_xchg_ts() == xchg_ts,
            book.spec_last_update_id() == last_update_id,
            book.bids_map() == apply_levels(Map::empty(), bids@),
            book.asks_map() == apply_levels(Map::empty(), asks@),
    {
        let mut bid_side: Vec<Level> = Vec::new();
        let mut ask_side: Vec<Level> = Vec::new();
        proof {
            assert(levels_map(bid_side@) =~= Map::<int, Level>::empty());
            assert(levels_map(ask_side@) =~= Map::<int, Level>::empty());
        }
        apply_all_to_side(&mut bid_side, bids, true);
        apply_all_to_side(&mut ask_side, asks, false);
        OrderBook { symbol, local_ts: now, xchg_ts, last_update_id, bids: bid_side, asks: ask_side }
    }

    /// The book that a depth snapshot describes, as of the current time.
    pub fn from_snapshot(
        symbol: Symbol,
        last_update_id: u64,
        xchg_ts: Timestamp,
        bids: &Vec<Level>,
        asks: &Vec<Level>,
    ) -> (book: OrderBook)
        ensures
            book.wf(),
            book.spec_symbol() == symbol,
            book.spec_xchg_ts() == xchg_ts,
            book.spec_last_update_id() == last_update_id,
            book.bids_map() == apply_levels(Map::empty(), bids@),
            book.asks_map() == apply_levels(Map::empty(), asks@),
    {
        OrderBook::from_snapshot_at(symbol, last_update_id, xchg_ts, bids, asks, now_millis())
    }

    pub fn symbol(&self) -> (r: Symbol)
        ensures
            r == self.spec_symbol(),
    {
        self.symbol
    }

    pub fn local_ts(&self) -> (r: Timestamp)
        ensures
            r == self.spec_local_ts(),
    {
        self.local_ts
    }

    pub fn xchg_ts(&self) -> (r: Timestamp)
        ensures
            r == self.spec_xchg_ts(),
    {
        self.xchg_ts
    }

    pub fn last_update_id(&self) -> (r: u64)
        ensures
            r == self.spec_last_update_id(),
    {
        self.last_update_id
    }

    /// The bids, highest price first.
    pub fn bids(&self) -> (r: &Vec<Level>)
        ensures
            r@ == self.bid_levels(),
    {
        &self.bids
    }

    /// The asks, lowest price first.
    pub fn asks(&self) -> (r: &Vec<Level>)
        ensures
            r@ == self.ask_levels(),
    {
        &self.asks
    }

    /// Whether the delta follows the book under the given rule.
    pub fn follows(&self, depth: &Depth, continuity: Continuity) -> (r: bool)
        ensures
            r == self.accepts(*depth, continuity),
    {
        match continuity {
            Continuity::Strict => depth.last_final_update_id == self.last_update_id
                && self.last_update_id <= depth.final_update_id,
            Continuity::Straddle => depth.last_final_update_id <= self.last_update_id
                && self.last_update_id <= depth.final_update_id,
        }
    }

    /// Applies a delta at local time `now` if it follows the book under the
    /// given rule, and says whether it did. A delta that does not follow
    /// leaves the book as it is.
    pub fn apply_at(&mut self, depth: &Depth, continuity: Continuity, now: Timestamp) -> (done:
        bool)
        requires
            old(self).wf(),
        ensures
            done == old(self).accepts(*depth, continuity),
            done ==> old(self).applied(*depth, now, *final(self)),
            !done ==> *final(self) == *old(self),
    {
        if !self.follows(depth, continuity) {
            return false;
        }
        self.xchg_ts = depth.transaction_time;
        self.local_ts = now;
        self.last_update_id = depth.final_update_id;
        apply_all_to_side(&mut self.bids, &depth.bids, true);
        apply_all_to_side(&mut self.asks, &depth.asks, false);
        proof {
            assert(self.model() =~= old(self).model().apply(*depth, now));
        }
        true
    }

    /// Applies a delta that must start where the book ends; the local time
    /// of the change is read from the clock.
    pub fn extend(&mut self, depth: &Depth) -> (done: bool)
        requires
            old(self).wf(),
        ensures
            done == old(self).continues(*depth),
            done ==> old(self).applied(*depth, final(self).spec_local_ts(), *final(self)),
            !done ==> *final(self) == *old(self),
    {
        self.apply_at(depth, Continuity::Strict, now_millis())
    }

    /// Applies the first delta after a snapshot, which may straddle the
    /// snapshot's last update; the local time of the change is read from the
    /// clock.
    pub fn extend_after_snapshot(&mut self, depth: &Depth) -> (done: bool)
        requires
            old(self).wf(),
        ensures
            done == old(self).straddles(*depth),
            done ==> old(self).applied(*depth, final(self).spec_local_ts(), *final(self)),
            !done ==> *final(self) == *old(self),
    {
        self.apply_at(depth, Continuity::Straddle, now_millis())
    }

    /// Replays a buffered delta: one that ended before the book's last
    /// update is dropped, one that follows the book is applied, and any other
    /// reveals a gap. Only an applied delta changes the book.
    pub fn replay_at(&mut self, depth: &Depth, continuity: Continuity, now: Timestamp) -> (r:
        Replay)
        requires
            old(self).wf(),
        ensures
            final(self).wf(),
            r == old(self).spec_replay(*depth, continuity),
            r == Replay::Applied ==> old(self).applied(*depth, now, *final(self)),
            r != Replay::Applied ==> *final(self) == *old(self),
    {
        if depth.final_update_id < self.last_update_id {
            Replay::Discarded
        } else if self.apply_at(depth, continuity, now) {
            Replay::Applied
        } else {
            Replay::Gap
        }
    }

    /// What replaying a buffered delta comes to.
    pub open spec fn spec_replay(self, depth: Depth, continuity: Continuity) -> Replay {
        self.model().replay(depth, continuity)
    }

    /// Best bid and best ask, or nothing while either side is empty.
    pub fn get_bbo(&self) -> (r: Option<BboPair>)
        requires
            self.wf(),
        ensures
            r.is_some() == (self.bid_levels().len() > 0 && self.ask_levels().len() > 0),
            r matches Some((bid, ask)) ==> {
                &&& bid == self.bid_levels()[0]
                &&& ask == self.ask_levels()[0]
                &&& self.bids_map().contains_key(bid.price.units())
                &&& self.bids_map()[bid.price.units()] == bid
                &&& self.asks_map().contains_key(ask.price.units())
                &&& self.asks_map()[ask.price.units()] == ask
                &&& forall|u: int| #[trigger]
                    self.bids_map().contains_key(u) ==> u <= bid.price.units()
                &&& forall|u: int| #[trigger]
                    self.asks_map().contains_key(u) ==> u >= ask.price.units()
            },
    {
        if self.bids.len() == 0 || self.asks.len() == 0 {
            return None;
        }
        proof {
            lemma_levels_map(self.bids@, true);
            lemma_levels_map(self.asks@, false);
            assert forall|u: int| #[trigger]
                self.bids_map().contains_key(u) implies u <= self.bids@[0].price.units() by {
                let p = position_of(self.bids@, u);
                if p > 0 {
                    assert(listed_before(self.bids@[0], self.bids@[p], true));
                }
            }
            assert forall|u: int| #[trigger]
                self.asks_map().contains_key(u) implies u >= self.asks@[0].price.units() by {
                let p = position_of(self.asks@, u);
                if p > 0 {
                    assert(listed_before(self.asks@[0], self.asks@[p], false));
                }
            }
        }
        Some((self.bids[0], self.asks[0]))
    }

    /// The best `depth` levels of each side as
    /// `[B:<qty>@<price>,...|A:<qty>@<price>,...]`, best prices first.
    pub fn show(&self, depth: usize) -> (s: String)
        ensures
            s@ == self.spec_show(depth as int),
    {
        let mut s = String::from_str("[B:");
        append_levels(&mut s, &self.bids, depth);
        s.append("|A:");
        append_levels(&mut s, &self.asks, depth);
        s.append("]");
        s
    }

    /// `<SYMBOL> OrderBook (last_update_id: <id>)`.
    pub fn to_text(&self) -> (s: String)
        ensures
            s@ == self.spec_text(),
    {
        let mut s = String::from_str(self.symbol.as_str());
        s.append(" OrderBook (last_update_id: ");
        append_u64(&mut s, self.last_update_id);
        s.append(")");
        s
    }
}

/// Appends the texts of the first `depth` levels, separated by commas.
fn append_levels(out: &mut String, levels: &Vec<Level>, depth: usize)
    ensures
        final(out)@ == old(out)@ + levels_text(top_levels(levels@, depth as int)),
{
    let n = if depth < levels.len() {
        depth
    } else {
        levels.len()
    };
    let ghost start = out@;
    let ghost top = top_levels(levels@, depth as int);
    proof {
        assert(top =~= levels@.subrange(0, n as int));
        assert(start + levels_text(top.subrange(0, 0)) =~= start);
    }
    let mut k: usize = 0;
    while k < n
        invariant
            k <= n,
            n <= levels.len(),
            top == levels@.subrange(0, n as int),
            out@ == start + levels_text(top.subrange(0, k as int)),
        decreases n - k,
    {
        let ghost done = top.subrange(0, k as int);
        let ghost next = top.subrange(0, k + 1);
        proof {
            assert(next.drop_last() =~= done);
            assert(next.last() == levels@[k as int]);
        }
        if k > 0 {
            out.append(",");
        }
        let quantity = levels[k].quantity.to_text();
        out.append(quantity.as_str());
        out.append("@");
        let price = levels[k].price.to_text();
        out.append(price.as_str());
        proof {
            if k == 0 {
                assert(done.len() == 0);
                assert(next.len() == 1);
                assert(start + levels_text(done) =~= start);
                assert(out@ =~= start + level_text(levels@[k as int]));
            } else {
                assert(out@ =~= start + (levels_text(done) + ","@ + level_text(levels@[k as int])));
            }
        }
        k += 1;
    }
    proof {
        assert(top.subrange(0, n as int) =~= top);
    }
}

/// What a map holds at the price of a level once that level and all that
/// follow it have been applied, if none of those is at the same price: a
/// level of quantity zero leaves no entry, any other leaves its quantity.
pub open spec fn settled(m: Map<int, Level>, level: Level) -> bool {
    let u = level.price.units();
    if level.quantity.units() == 0 {
        !m.contains_key(u)
    } else {
        m.contains_key(u) && m[u].quantity == level.quantity
    }
}

/// Whether `levels[i]` is the last level at its price among the first `n`.
pub open spec fn is_last_at_price(levels: Seq<Level>, i: int, n: int) -> bool {
    &&& 0 <= i < n <= levels.len()
    &&& forall|j: int| i < j < n ==> (#[trigger] levels[j]).price.units() != levels[i].price.units()
}

/// Whether some level is at the price `u`.
pub open spec fn occurs(levels: Seq<Level>, u: int) -> bool {
    exists|j: int| 0 <= j < levels.len() && (#[trigger] levels[j]).price.units() == u
}

/// Whether some level removes the price `u`.
pub open spec fn removes(levels: Seq<Level>, u: int) -> bool {
    exists|j: int|
        0 <= j < levels.len() && (#[trigger] levels[j]).price.units() == u
            && levels[j].quantity.units() == 0
}

/// After the first `n` levels are applied, each of them that is the last at
/// its price has settled what the map holds there.
pub proof fn lemma_apply_levels_settled(m: Map<int, Level>, levels: Seq<Level>, n: int)
    requires
        0 <= n <= levels.len(),
    ensures
        forall|i: int| #[trigger]
            is_last_at_price(levels, i, n) ==> settled(
                apply_levels(m, levels.subrange(0, n)),
                levels[i],
            ),
    decreases n,
{
    if n > 0 {
        lemma_apply_levels_settled(m, levels, n - 1);
        let prefix = levels.subrange(0, n);
        assert(prefix.drop_last() =~= levels.subrange(0, n - 1));
        assert(prefix.last() == levels[n - 1]);
        let before = apply_levels(m, levels.subrange(0, n - 1));
        let after = apply_levels(m, prefix);
        assert(after == apply_level(before, levels[n - 1]));
        assert forall|i: int| #[trigger] is_last_at_price(levels, i, n) implies settled(
            after,
            levels[i],
        ) by {
            if i < n - 1 {
                assert(is_last_at_price(levels, i, n - 1));
                assert(levels[n - 1].price.units() != levels[i].price.units());
            }
        }
    }
}

/// Levels at other prices leave a price as it is.
pub proof fn lemma_apply_levels_elsewhere(m: Map<int, Level>, levels: Seq<Level>, u: int)
    requires
        !occurs(levels, u),
    ensures
        apply_levels(m, levels).contains_key(u) == m.contains_key(u),
        m.contains_key(u) ==> apply_levels(m, levels)[u] == m[u],
    decreases levels.len(),
{
    if levels.len() > 0 {
        let rest = levels.drop_last();
        assert forall|j: int| 0 <= j < rest.len() implies (#[trigger] rest[j]).price.units()
            != u by {
            assert(rest[j] == levels[j]);
        }
        lemma_apply_levels_elsewhere(m, rest, u);
        assert(levels[levels.len() - 1].price.units() != u);
    }
}

/// A listed price that no level removes stays listed, in its notation.
proof fn lemma_apply_levels_keeps(m: Map<int, Level>, levels: Seq<Level>, u: int)
    requires
        m.contains_key(u),
        !removes(levels, u),
    ensures
        apply_levels(m, levels).contains_key(u),
        apply_levels(m, levels)[u].price == m[u].price,
    decreases levels.len(),
{
    if levels.len() > 0 {
        let rest = levels.drop_last();
        assert forall|j: int| 0 <= j < rest.len() && (#[trigger] rest[j]).price.units()
            == u implies rest[j].quantity.units() != 0 by {
            assert(rest[j] == levels[j]);
        }
        lemma_apply_levels_keeps(m, rest, u);
        let last = levels[levels.len() - 1];
        if last.price.units() == u {
            assert(last.quantity.units() != 0);
        }
    }
}

/// Once a level has removed a price, what the map holds there no longer
/// depends on the map that the levels were applied to.
proof fn lemma_apply_levels_resets(
    m1: Map<int, Level>,
    m2: Map<int, Level>,
    levels: Seq<Level>,
    u: int,
)
    requires
        removes(levels, u),
    ensures
        apply_levels(m1, levels).contains_key(u) == apply_levels(m2, levels).contains_key(u),
        apply_levels(m1, levels).contains_key(u) ==> apply_levels(m1, levels)[u] == apply_levels(
            m2,
            levels,
        )[u],
    decreases levels.len(),
{
    let j = choose|j: int|
        0 <= j < levels.len() && (#[trigger] levels[j]).price.units() == u
            && levels[j].quantity.units() == 0;
    let rest = levels.drop_last();
    let last = levels[levels.len() - 1];
    if j < levels.len() - 1 {
        assert(rest[j] == levels[j]);
        lemma_apply_levels_resets(m1, m2, rest, u);
    } else {
        assert(last.price.units() == u && last.quantity.units() == 0);
    }
}

/// The last index below `n` at which `levels` has the price `u`, or -1.
pub open spec fn last_index_at_price(levels: Seq<Level>, u: int, n: int) -> int
    decreases n,
{
    if n <= 0 {
        -1
    } else if levels[n - 1].price.units() == u {
        n - 1
    } else {
        last_index_at_price(levels, u, n - 1)
    }
}

/// If the price occurs below `n`, its last index is the last at its price.
pub proof fn lemma_last_index_at_price(levels: Seq<Level>, u: int, n: int, j: int)
    requires
        0 <= j < n <= levels.len(),
        levels[j].price.units() == u,
    ensures
        j <= last_index_at_price(levels, u, n) < n,
        levels[last_index_at_price(levels, u, n)].price.units() == u,
        is_last_at_price(levels, last_index_at_price(levels, u, n), n),
    decreases n,
{
    if levels[n - 1].price.units() != u {
        lemma_last_index_at_price(levels, u, n - 1, j);
    }
}

/// Applying the same levels a second time leaves every price as the first
/// time left it.
proof fn lemma_apply_levels_twice_at(m: Map<int, Level>, levels: Seq<Level>, u: int)
    ensures
        apply_levels(apply_levels(m, levels), levels).contains_key(u) == apply_levels(
            m,
            levels,
        ).contains_key(u),
        apply_levels(m, levels).contains_key(u) ==> apply_levels(apply_levels(m, levels), levels)[u]
            == apply_levels(m, levels)[u],
{
    let once = apply_levels(m, levels);
    let twice = apply_levels(once, levels);
    let n = levels.len() as int;
    assert(levels.subrange(0, n) =~= levels);
    lemma_apply_levels_settled(m, levels, n);
    lemma_apply_levels_settled(once, levels, n);
    if !occurs(levels, u) {
        lemma_apply_levels_elsewhere(once, levels, u);
    } else if removes(levels, u) {
        lemma_apply_levels_resets(once, m, levels, u);
    } else {
        let j = choose|j: int| 0 <= j < levels.len() && (#[trigger] levels[j]).price.units() == u;
        lemma_last_index_at_price(levels, u, n, j);
        let last = last_index_at_price(levels, u, n);
        assert(is_last_at_price(levels, last, n));
        assert(settled(once, levels[last]));
        assert(settled(twice, levels[last]));
        assert(levels[last].quantity.units() != 0);
        lemma_apply_levels_keeps(once, levels, u);
    }
}

/// Applying the same levels a second time changes nothing.
pub proof fn lemma_apply_levels_twice(m: Map<int, Level>, levels: Seq<Level>)
    ensures
        apply_levels(apply_levels(m, levels), levels) == apply_levels(m, levels),
{
    let once = apply_levels(m, levels);
    let twice = apply_levels(once, levels);
    assert forall|u: int| #[trigger] twice.dom().contains(u) == once.dom().contains(u) by {
        lemma_apply_levels_twice_at(m, levels, u);
    }
    assert forall|u: int| once.dom().contains(u) implies #[trigger] twice[u] == once[u] by {
        lemma_apply_levels_twice_at(m, levels, u);
    }
    assert(twice.dom() =~= once.dom());
    assert(twice =~= once);
}

impl OrderBook {
    /// The model says all there is to say about a book: two books that are
    /// in order and have the same model list the same levels in the same
    /// order.
    pub proof fn lemma_model_determines_levels(self, other: OrderBook)
        requires
            self.wf(),
            other.wf(),
            self.model() == other.model(),
        ensures
            self.bid_levels() == other.bid_levels(),
            self.ask_levels() == other.ask_levels(),
    {
        lemma_side_determined(self.bid_levels(), other.bid_levels(), true);
        lemma_side_determined(self.ask_levels(), other.ask_levels(), false);
    }

    /// Applying a delta removes the prices that it lists with quantity zero
    /// and stores the other quantities it lists; where a price is listed
    /// more than once, its last listing decides.
    pub proof fn lemma_zero_quantity_semantics(
        self,
        depth: Depth,
        now: Timestamp,
        after: OrderBook,
    )
        requires
            self.applied(depth, now, after),
        ensures
            forall|i: int| #[trigger]
                is_last_at_price(depth.bids@, i, depth.bids@.len() as int) ==> settled(
                    after.bids_map(),
                    depth.bids@[i],
                ),
            forall|i: int| #[trigger]
                is_last_at_price(depth.asks@, i, depth.asks@.len() as int) ==> settled(
                    after.asks_map(),
                    depth.asks@[i],
                ),
            forall|u: int|
                !occurs(depth.bids@, u) ==> (#[trigger] after.bids_map().contains_key(u))
                    == self.bids_map().contains_key(u),
            forall|u: int|
                !occurs(depth.asks@, u) ==> (#[trigger] after.asks_map().contains_key(u))
                    == self.asks_map().contains_key(u),
    {
        let bids = depth.bids@;
        let asks = depth.asks@;
        assert(bids.subrange(0, bids.len() as int) =~= bids);
        assert(asks.subrange(0, asks.len() as int) =~= asks);
        lemma_apply_levels_settled(self.bids_map(), bids, bids.len() as int);
        lemma_apply_levels_settled(self.asks_map(), asks, asks.len() as int);
        assert forall|u: int| !occurs(bids, u) implies (#[trigger] after.bids_map().contains_key(
            u,
        )) == self.bids_map().contains_key(u) by {
            lemma_apply_levels_elsewhere(self.bids_map(), bids, u);
        }
        assert forall|u: int| !occurs(asks, u) implies (#[trigger] after.asks_map().contains_key(
            u,
        )) == self.asks_map().contains_key(u) by {
            lemma_apply_levels_elsewhere(self.asks_map(), asks, u);
        }
    }

    /// An applied delta never moves the book's last update id backwards, and
    /// moves it forwards unless the delta ends exactly at the book's last
    /// update.
    pub proof fn lemma_last_update_id_monotonic(
        self,
        depth: Depth,
        continuity: Continuity,
        now: Timestamp,
        after: OrderBook,
    )
        requires
            self.accepts(depth, continuity),
            self.applied(depth, now, after),
        ensures
            after.spec_last_update_id() >= self.spec_last_update_id(),
            depth.final_update_id != self.spec_last_update_id() ==> after.spec_last_update_id()
                > self.spec_last_update_id(),
    {
    }

    /// A buffered delta that ends before the book's last update is dropped
    /// when replayed: whatever was applied since, a delta that the book has
    /// already moved past does not change it.
    pub proof fn lemma_stale_delta_is_discarded(self, depth: Depth, continuity: Continuity)
        requires
            depth.final_update_id < self.spec_last_update_id(),
        ensures
            self.spec_replay(depth, continuity) == Replay::Discarded,
    {
    }

    /// Applying a delta's levels to a book that already holds them leaves
    /// both sides as they are.
    pub proof fn lemma_levels_idempotent(self, depth: Depth, now: Timestamp, after: OrderBook)
        requires
            self.applied(depth, now, after),
        ensures
            apply_levels(after.bids_map(), depth.bids@) == after.bids_map(),
            apply_levels(after.asks_map(), depth.asks@) == after.asks_map(),
    {
        lemma_apply_levels_twice(self.bids_map(), depth.bids@);
        lemma_apply_levels_twice(self.asks_map(), depth.asks@);
    }
}

} // verus!
