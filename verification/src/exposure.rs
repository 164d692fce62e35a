//! Worst-case exposure of a market maker and the position cap on its quote grid.
//!
//! Quantities are integers in the engine's fixed-point raw units, in which the
//! sums and comparisons are exact.

use vstd::prelude::*;

use crate::order_ids::OrderIdSet;

verus! {

/// Largest raw quantity of the engine.
pub const MAX_RAW_QUANTITY: i128 = 0xffff_ffff_ffff_ffff;

/// Net position: the sum of the signed position quantities.
pub open spec fn net_position(positions: Seq<i128>) -> int
    decreases positions.len(),
{
    if positions.len() == 0 {
        0
    } else {
        net_position(positions.drop_last()) + positions.last()
    }
}

/// Whether `orders[i]` is the first order with its id (an order both open and in
/// flight is listed twice).
pub open spec fn first_with_id(orders: Seq<(String, bool, i128)>, i: int) -> bool {
    forall|j: int| 0 <= j < i ==> orders[j].0@ != orders[i].0@
}

/// Total remaining quantity of the distinct orders on the buy side (`buy`) or on the
/// sell side (`!buy`); each id counts once.
pub open spec fn pending(orders: Seq<(String, bool, i128)>, buy: bool) -> int
    decreases orders.len(),
{
    if orders.len() == 0 {
        0
    } else {
        let i = orders.len() - 1;
        pending(orders.drop_last(), buy) + if first_with_id(orders, i) && orders[i].1 == buy {
            orders[i].2 as int
        } else {
            0
        }
    }
}

/// The ids among `orders`.
pub open spec fn ids_of(orders: Seq<(String, bool, i128)>) -> Set<Seq<char>> {
    Set::new(|t: Seq<char>| exists|j: int| 0 <= j < orders.len() && orders[j].0@ == t)
}

/// The net position of no positions is zero, and each further position adds its
/// signed quantity.
pub proof fn lemma_net_position_push(positions: Seq<i128>, v: i128)
    ensures
        net_position(Seq::<i128>::empty()) == 0,
        net_position(positions.push(v)) == net_position(positions) + v,
{
    assert(positions.push(v).drop_last() =~= positions);
}

/// No orders, nothing pending. An order whose id is not yet listed adds its remaining
/// quantity to the total of its own side and nothing to the other side; an order
/// whose id is already listed (open and in flight at once) adds nothing, whatever
/// came before it.
pub proof fn lemma_pending_push(orders: Seq<(String, bool, i128)>, x: (String, bool, i128), buy: bool)
    ensures
        pending(Seq::<(String, bool, i128)>::empty(), buy) == 0,
        !ids_of(orders).contains(x.0@) ==> pending(orders.push(x), buy) == pending(orders, buy)
            + if x.1 == buy {
            x.2 as int
        } else {
            0
        },
        ids_of(orders).contains(x.0@) ==> pending(orders.push(x), buy) == pending(orders, buy),
{
    let o2 = orders.push(x);
    let i = orders.len() as int;
    assert(o2.drop_last() =~= orders);
    assert(o2[i] == x);
    if ids_of(orders).contains(x.0@) {
        let k = choose|k: int| 0 <= k < orders.len() && orders[k].0@ == x.0@;
        assert(o2[k] == orders[k]);
        assert(!first_with_id(o2, i));
    } else {
        assert forall|j: int| 0 <= j < i implies o2[j].0@ != o2[i].0@ by {
            assert(o2[j] == orders[j]);
            if o2[j].0@ == x.0@ {
                assert(ids_of(orders).contains(x.0@));
            }
        }
        assert(first_with_id(o2, i));
    }
}

proof fn lemma_net_position_bounded(positions: Seq<i128>)
    requires
        forall|i: int|
            0 <= i < positions.len() ==> -MAX_RAW_QUANTITY <= #[trigger] positions[i] <= MAX_RAW_QUANTITY,
    ensures
        -MAX_RAW_QUANTITY * positions.len() <= net_position(positions) <= MAX_RAW_QUANTITY
            * positions.len(),
    decreases positions.len(),
{
    if positions.len() > 0 {
        lemma_net_position_bounded(positions.drop_last());
    }
}

proof fn lemma_pending_bounded(orders: Seq<(String, bool, i128)>, buy: bool)
    requires
        forall|i: int| 0 <= i < orders.len() ==> 0 <= #[trigger] orders[i].2 <= MAX_RAW_QUANTITY,
    ensures
        0 <= pending(orders, buy) <= MAX_RAW_QUANTITY * orders.len(),
    decreases orders.len(),
{
    if orders.len() > 0 {
        let p = orders.drop_last();
        assert forall|i: int| 0 <= i < p.len() implies 0 <= #[trigger] p[i].2 <= MAX_RAW_QUANTITY by {
            assert(p[i] == orders[i]);
        }
        lemma_pending_bounded(p, buy);
    }
}

/// Worst-case exposure on each side: the net position plus the remaining quantity
/// of the distinct buy orders (long side), and the net position minus that of the
/// distinct sell orders (short side). Orders are `(id, is_buy, remaining quantity)`.
pub fn exposure(positions: Vec<i128>, orders: Vec<(String, bool, i128)>) -> (r: (i128, i128))
    requires
        forall|i: int|
            0 <= i < positions@.len() ==> -MAX_RAW_QUANTITY <= #[trigger] positions@[i]
                <= MAX_RAW_QUANTITY,
        forall|i: int| 0 <= i < orders@.len() ==> 0 <= #[trigger] orders@[i].2 <= MAX_RAW_QUANTITY,
        positions@.len() + orders@.len() <= i64::MAX,
    ensures
        r.0 == net_position(positions@) + pending(orders@, true),
        r.1 == net_position(positions@) - pending(orders@, false),
{
    let mut net: i128 = 0;
    let mut i: usize = 0;
    while i < positions.len()
        invariant
            i <= positions@.len(),
            net == net_position(positions@.subrange(0, i as int)),
            forall|k: int|
                0 <= k < positions@.len() ==> -MAX_RAW_QUANTITY <= #[trigger] positions@[k]
                    <= MAX_RAW_QUANTITY,
            positions@.len() <= i64::MAX,
        decreases positions@.len() - i,
    {
        proof {
            let pre = positions@.subrange(0, i as int);
            let next = positions@.subrange(0, i + 1);
            assert(next.drop_last() =~= pre);
            lemma_net_position_bounded(next);
            assert(MAX_RAW_QUANTITY * next.len() <= MAX_RAW_QUANTITY * i64::MAX) by (nonlinear_arith)
                requires
                    next.len() <= i64::MAX,
            ;
        }
        net = net + positions[i];
        i = i + 1;
    }
    assert(positions@.subrange(0, positions@.len() as int) =~= positions@);

    let mut buys: i128 = 0;
    let mut sells: i128 = 0;
    let mut seen = OrderIdSet::new();
    let mut j: usize = 0;
    while j < orders.len()
        invariant
            j <= orders@.len(),
            buys == pending(orders@.subrange(0, j as int), true),
            sells == pending(orders@.subrange(0, j as int), false),
            seen@ == ids_of(orders@.subrange(0, j as int)),
            forall|k: int|
                0 <= k < orders@.len() ==> 0 <= #[trigger] orders@[k].2 <= MAX_RAW_QUANTITY,
            orders@.len() <= i64::MAX,
        decreases orders@.len() - j,
    {
        let ghost pre = orders@.subrange(0, j as int);
        let ghost next = orders@.subrange(0, j + 1);
        let (id, is_buy, leaves) = (orders[j].0.clone(), orders[j].1, orders[j].2);
        proof {
            assert(next.drop_last() =~= pre);
            assert(next[j as int] == orders@[j as int]);
            assert(forall|k: int| 0 <= k < next.len() ==> next[k] == orders@[k]);
            lemma_pending_bounded(next, true);
            lemma_pending_bounded(next, false);
            assert(MAX_RAW_QUANTITY * next.len() <= MAX_RAW_QUANTITY * i64::MAX) by (nonlinear_arith)
                requires
                    next.len() <= i64::MAX,
            ;
            // the id is new exactly when no earlier order carries it
            assert(first_with_id(next, j as int) == !ids_of(pre).contains(id@)) by {
                if !first_with_id(next, j as int) {
                    let k2 = choose|k: int| 0 <= k < j && next[k].0@ == next[j as int].0@;
                    assert(pre[k2] == next[k2]);
                }
                if ids_of(pre).contains(id@) {
                    let k = choose|k: int| 0 <= k < pre.len() && pre[k].0@ == id@;
                    assert(next[k] == pre[k]);
                }
            }
        }
        let added = seen.insert(id);
        if added {
            if is_buy {
                buys = buys + leaves;
            } else {
                sells = sells + leaves;
            }
        }
        proof {
            assert(ids_of(next) =~= ids_of(pre).insert(next[j as int].0@)) by {
                assert forall|t: Seq<char>| ids_of(next).contains(t) implies ids_of(pre).insert(
                    next[j as int].0@,
                ).contains(t) by {
                    let k = choose|k: int| 0 <= k < next.len() && next[k].0@ == t;
                    if k < j {
                        assert(pre[k] == next[k]);
                    }
                }
                assert forall|t: Seq<char>| ids_of(pre).insert(next[j as int].0@).contains(t) implies ids_of(
                    next,
                ).contains(t) by {
                    if ids_of(pre).contains(t) {
                        let k = choose|k: int| 0 <= k < pre.len() && pre[k].0@ == t;
                        assert(next[k] == pre[k]);
                    } else {
                        assert(next[j as int].0@ == t);
                    }
                }
            }
        }
        j = j + 1;
    }
    assert(orders@.subrange(0, orders@.len() as int) =~= orders@);
    proof {
        lemma_net_position_bounded(positions@);
        lemma_pending_bounded(orders@, true);
        lemma_pending_bounded(orders@, false);
        assert(MAX_RAW_QUANTITY * (positions@.len() + orders@.len()) <= MAX_RAW_QUANTITY * i64::MAX)
            by (nonlinear_arith)
            requires
                positions@.len() + orders@.len() <= i64::MAX,
        ;
    }
    (net + buys, net - sells)
}

/// The quotes kept after the first `k` grid levels, with the projected long and
/// short exposure: at each level a buy is kept when its price exists and the
/// projected long stays within `max`, then a sell when its price exists and the
/// projected short stays within `-max`. Each kept quote moves its projection by `ts`.
pub open spec fn grid_after(
    levels: Seq<(bool, bool)>,
    k: nat,
    long0: int,
    short0: int,
    ts: int,
    max: int,
) -> (Seq<(usize, bool)>, int, int)
    decreases k,
{
    if k == 0 {
        (Seq::empty(), long0, short0)
    } else {
        let prev = grid_after(levels, (k - 1) as nat, long0, short0, ts, max);
        let level = levels[k - 1];
        let buy = level.0 && prev.1 + ts <= max;
        let after_buy = if buy {
            prev.0.push(((k - 1) as usize, true))
        } else {
            prev.0
        };
        let long = if buy {
            prev.1 + ts
        } else {
            prev.1
        };
        let sell = level.1 && prev.2 - ts >= -max;
        let after_sell = if sell {
            after_buy.push(((k - 1) as usize, false))
        } else {
            after_buy
        };
        let short = if sell {
            prev.2 - ts
        } else {
            prev.2
        };
        (after_sell, long, short)
    }
}

/// Bound of the starting exposures accepted by `capped_grid`.
pub const EXPOSURE_BOUND: i128 = 0x4000_0000_0000_0000_0000_0000_0000_0000;

/// The grid quotes that respect the position cap. `levels[i]` tells whether the
/// buy and the sell price of level `i` exist; the result lists the kept quotes
/// in order as `(level, is_buy)`, starting from the worst-case exposures
/// `worst_long` / `worst_short` and moving them by `trade_size` per kept quote.
pub fn capped_grid(
    levels: Vec<(bool, bool)>,
    worst_long: i128,
    worst_short: i128,
    trade_size: i128,
    max_position: i128,
) -> (sides: Vec<(usize, bool)>)
    requires
        -EXPOSURE_BOUND <= worst_long <= EXPOSURE_BOUND,
        -EXPOSURE_BOUND <= worst_short <= EXPOSURE_BOUND,
        0 <= trade_size <= MAX_RAW_QUANTITY,
        0 <= max_position <= MAX_RAW_QUANTITY,
    ensures
        sides@ == grid_after(
            levels@,
            levels@.len(),
            worst_long as int,
            worst_short as int,
            trade_size as int,
            max_position as int,
        ).0,
{
    let mut sides: Vec<(usize, bool)> = Vec::new();
    let mut projected_long = worst_long;
    let mut projected_short = worst_short;
    let mut i: usize = 0;
    while i < levels.len()
        invariant
            i <= levels@.len(),
            -EXPOSURE_BOUND <= worst_long <= EXPOSURE_BOUND,
            -EXPOSURE_BOUND <= worst_short <= EXPOSURE_BOUND,
            0 <= trade_size <= MAX_RAW_QUANTITY,
            0 <= max_position <= MAX_RAW_QUANTITY,
            worst_long <= projected_long,
            projected_long <= worst_long || projected_long <= max_position,
            projected_short <= worst_short,
            worst_short <= projected_short || -max_position <= projected_short,
            (sides@, projected_long as int, projected_short as int) == grid_after(
                levels@,
                i as nat,
                worst_long as int,
                worst_short as int,
                trade_size as int,
                max_position as int,
            ),
        decreases levels@.len() - i,
    {
        let (has_buy, has_sell) = levels[i];
        if has_buy && projected_long + trade_size <= max_position {
            sides.push((i, true));
            projected_long = projected_long + trade_size;
        }
        if has_sell && projected_short - trade_size >= -max_position {
            sides.push((i, false));
            projected_short = projected_short - trade_size;
        }
        i = i + 1;
    }
    sides
}

/// The position cap holds: starting within `±max`, the projected long and short
/// exposures of the kept quotes stay within `±max`, and never move the wrong way.
pub proof fn lemma_grid_respects_cap(
    levels: Seq<(bool, bool)>,
    k: nat,
    long0: int,
    short0: int,
    ts: int,
    max: int,
)
    requires
        k <= levels.len(),
        ts >= 0,
        long0 <= max,
        -max <= short0,
    ensures
        long0 <= grid_after(levels, k, long0, short0, ts, max).1 <= max,
        -max <= grid_after(levels, k, long0, short0, ts, max).2 <= short0,
    decreases k,
{
    if k > 0 {
        lemma_grid_respects_cap(levels, (k - 1) as nat, long0, short0, ts, max);
    }
}


/// Number of quotes on the buy side (`buy`) or the sell side (`!buy`).
pub open spec fn count_side(quotes: Seq<(usize, bool)>, buy: bool) -> nat
    decreases quotes.len(),
{
    if quotes.len() == 0 {
        0
    } else {
        count_side(quotes.drop_last(), buy) + if quotes.last().1 == buy {
            1nat
        } else {
            0nat
        }
    }
}

/// Grid order: by level, and within a level the buy before the sell.
pub open spec fn quote_before(a: (usize, bool), b: (usize, bool)) -> bool {
    a.0 < b.0 || (a.0 == b.0 && a.1 && !b.1)
}

/// The grid with the buy and sell sides of every level exchanged.
pub open spec fn swap_sides(levels: Seq<(bool, bool)>) -> Seq<(bool, bool)> {
    Seq::new(levels.len(), |i: int| (levels[i].1, levels[i].0))
}

proof fn lemma_count_side_push(quotes: Seq<(usize, bool)>, q: (usize, bool), buy: bool)
    ensures
        count_side(quotes.push(q), buy) == count_side(quotes, buy) + if q.1 == buy {
            1nat
        } else {
            0nat
        },
{
    assert(quotes.push(q).drop_last() =~= quotes);
}

/// Each kept quote moves its side's projection by exactly one trade size: the long
/// projection is the starting long plus `ts` per kept buy, the short projection the
/// starting short minus `ts` per kept sell.
pub proof fn lemma_grid_projection_counts(
    levels: Seq<(bool, bool)>,
    k: nat,
    long0: int,
    short0: int,
    ts: int,
    max: int,
)
    requires
        k <= levels.len(),
    ensures
        grid_after(levels, k, long0, short0, ts, max).1 == long0 + ts * count_side(
            grid_after(levels, k, long0, short0, ts, max).0,
            true,
        ),
        grid_after(levels, k, long0, short0, ts, max).2 == short0 - ts * count_side(
            grid_after(levels, k, long0, short0, ts, max).0,
            false,
        ),
    decreases k,
{
    if k > 0 {
        let j = (k - 1) as nat;
        lemma_grid_projection_counts(levels, j, long0, short0, ts, max);
        let prev = grid_after(levels, j, long0, short0, ts, max);
        let level = levels[j as int];
        let buy = level.0 && prev.1 + ts <= max;
        let qb = ((k - 1) as usize, true);
        let qs = ((k - 1) as usize, false);
        let after_buy = if buy {
            prev.0.push(qb)
        } else {
            prev.0
        };
        let cb = count_side(prev.0, true);
        let cs = count_side(prev.0, false);
        lemma_count_side_push(prev.0, qb, true);
        lemma_count_side_push(prev.0, qb, false);
        lemma_count_side_push(after_buy, qs, true);
        lemma_count_side_push(after_buy, qs, false);
        assert(ts * (cb + 1) == ts * cb + ts) by (nonlinear_arith);
        let sell = level.1 && prev.2 - ts >= -max;
        let after_sell = if sell {
            after_buy.push(qs)
        } else {
            after_buy
        };
        let cur = grid_after(levels, k, long0, short0, ts, max);
        assert(cur.0 == after_sell);
        assert(cur.1 == if buy { prev.1 + ts } else { prev.1 });
        assert(cur.2 == if sell { prev.2 - ts } else { prev.2 });
        assert(count_side(after_sell, true) == cb + if buy { 1nat } else { 0nat });
        assert(count_side(after_sell, false) == cs + if sell { 1nat } else { 0nat });
        assert(ts * (cs + 1) == ts * cs + ts) by (nonlinear_arith);
        assert(ts * (cb + 0) == ts * cb);
        assert(ts * (cs + 0) == ts * cs);
    } else {
        let e = grid_after(levels, k, long0, short0, ts, max).0;
        assert(e.len() == 0);
        assert(count_side(e, true) == 0 && count_side(e, false) == 0);
        assert(ts * 0 == 0);
    }
}

/// Every kept quote belongs to a level below `k` whose price on that side exists,
/// and the quotes come in grid order: by level, buy before sell.
pub proof fn lemma_grid_quotes_priced_in_order(
    levels: Seq<(bool, bool)>,
    k: nat,
    long0: int,
    short0: int,
    ts: int,
    max: int,
)
    requires
        k <= levels.len(),
        levels.len() <= usize::MAX,
    ensures
        forall|i: int|
            #![trigger grid_after(levels, k, long0, short0, ts, max).0[i]]
            0 <= i < grid_after(levels, k, long0, short0, ts, max).0.len() ==> {
                let q = grid_after(levels, k, long0, short0, ts, max).0[i];
                &&& (q.0 as int) < k
                &&& if q.1 {
                    levels[q.0 as int].0
                } else {
                    levels[q.0 as int].1
                }
            },
        forall|i: int, j: int|
            0 <= i < j < grid_after(levels, k, long0, short0, ts, max).0.len() ==> quote_before(
                #[trigger] grid_after(levels, k, long0, short0, ts, max).0[i],
                #[trigger] grid_after(levels, k, long0, short0, ts, max).0[j],
            ),
    decreases k,
{
    if k > 0 {
        let j0 = (k - 1) as nat;
        lemma_grid_quotes_priced_in_order(levels, j0, long0, short0, ts, max);
        let prev = grid_after(levels, j0, long0, short0, ts, max).0;
        let cur = grid_after(levels, k, long0, short0, ts, max).0;
        assert(cur.len() >= prev.len());
        assert forall|i: int| 0 <= i < prev.len() implies #[trigger] cur[i] == prev[i] by {}
        assert forall|i: int| prev.len() <= i < cur.len() implies (#[trigger] cur[i]).0 as int == j0 by {}
        assert forall|i: int, j: int|
            0 <= i < j < cur.len() implies quote_before(#[trigger] cur[i], #[trigger] cur[j]) by {
            if j < prev.len() {
                assert(cur[i] == prev[i] && cur[j] == prev[j]);
            } else if i < prev.len() {
                assert(cur[i] == prev[i]);
                assert(prev[i].0 < j0);
            }
        }
        assert forall|i: int| 0 <= i < cur.len() implies {
            let q = #[trigger] cur[i];
            &&& (q.0 as int) < k
            &&& if q.1 {
                levels[q.0 as int].0
            } else {
                levels[q.0 as int].1
            }
        } by {
            if i < prev.len() {
                assert(cur[i] == prev[i]);
            }
        }
    }
}

proof fn lemma_grid_extends(
    levels: Seq<(bool, bool)>,
    j: nat,
    k: nat,
    long0: int,
    short0: int,
    ts: int,
    max: int,
)
    requires
        j <= k <= levels.len(),
        levels.len() <= usize::MAX,
    ensures
        grid_after(levels, j, long0, short0, ts, max).0.len() <= grid_after(
            levels,
            k,
            long0,
            short0,
            ts,
            max,
        ).0.len(),
        forall|i: int|
            0 <= i < grid_after(levels, j, long0, short0, ts, max).0.len() ==> #[trigger] grid_after(
                levels,
                k,
                long0,
                short0,
                ts,
                max,
            ).0[i] == grid_after(levels, j, long0, short0, ts, max).0[i],
        forall|i: int|
            grid_after(levels, j, long0, short0, ts, max).0.len() <= i < grid_after(
                levels,
                k,
                long0,
                short0,
                ts,
                max,
            ).0.len() ==> (#[trigger] grid_after(levels, k, long0, short0, ts, max).0[i]).0 as int
                >= j,
    decreases k,
{
    if j < k {
        let k1 = (k - 1) as nat;
        lemma_grid_extends(levels, j, k1, long0, short0, ts, max);
        let prev = grid_after(levels, k1, long0, short0, ts, max).0;
        let cur = grid_after(levels, k, long0, short0, ts, max).0;
        assert forall|i: int| 0 <= i < prev.len() implies #[trigger] cur[i] == prev[i] by {}
        assert forall|i: int| prev.len() <= i < cur.len() implies (#[trigger] cur[i]).0 as int
            == k1 by {}
    }
}

/// A quote of level `j` is kept exactly when its price exists and it fits under the
/// cap: a buy when the long projection before it plus `ts` is at most `max`, a sell
/// when the short projection before it minus `ts` is at least `-max`.
pub proof fn lemma_grid_keeps_exactly_what_fits(
    levels: Seq<(bool, bool)>,
    k: nat,
    long0: int,
    short0: int,
    ts: int,
    max: int,
    j: nat,
)
    requires
        j < k <= levels.len(),
        levels.len() <= usize::MAX,
    ensures
        grid_after(levels, k, long0, short0, ts, max).0.contains((j as usize, true)) <==> (
        levels[j as int].0 && grid_after(levels, j, long0, short0, ts, max).1 + ts <= max),
        grid_after(levels, k, long0, short0, ts, max).0.contains((j as usize, false)) <==> (
        levels[j as int].1 && grid_after(levels, j, long0, short0, ts, max).2 - ts >= -max),
{
    let j1 = (j + 1) as nat;
    lemma_grid_extends(levels, j, j1, long0, short0, ts, max);
    lemma_grid_extends(levels, j1, k, long0, short0, ts, max);
    lemma_grid_quotes_priced_in_order(levels, j, long0, short0, ts, max);
    let gj = grid_after(levels, j, long0, short0, ts, max).0;
    let gj1 = grid_after(levels, j1, long0, short0, ts, max).0;
    let gk = grid_after(levels, k, long0, short0, ts, max).0;
    assert(((j1 - 1) as nat) == j);
    assert forall|side: bool| #[trigger] gk.contains((j as usize, side)) <==> gj1.contains(
        (j as usize, side),
    ) by {
        if gk.contains((j as usize, side)) {
            let i = choose|i: int| 0 <= i < gk.len() && gk[i] == (j as usize, side);
            if i >= gj1.len() {
                assert(gk[i].0 as int >= j1);
            } else {
                assert(gj1[i] == gk[i]);
            }
        }
        if gj1.contains((j as usize, side)) {
            let i = choose|i: int| 0 <= i < gj1.len() && gj1[i] == (j as usize, side);
            assert(gk[i] == gj1[i]);
        }
    }
    assert forall|side: bool| #[trigger] gj1.contains((j as usize, side)) implies exists|i: int|
        gj.len() <= i < gj1.len() && gj1[i] == (j as usize, side) by {
        let i = choose|i: int| 0 <= i < gj1.len() && gj1[i] == (j as usize, side);
        if i < gj.len() {
            assert(gj[i] == gj1[i]);
            assert((gj[i].0 as int) < j);
        }
    }
    let g = grid_after(levels, j, long0, short0, ts, max);
    let buy = levels[j as int].0 && g.1 + ts <= max;
    let sell = levels[j as int].1 && g.2 - ts >= -max;
    if buy {
        assert(gj1[gj.len() as int] == (j as usize, true));
    }
    if sell {
        let i = if buy {
            gj.len() + 1int
        } else {
            gj.len() as int
        };
        assert(gj1[i] == (j as usize, false));
    }
}

/// The cap treats both sides alike: exchanging the buy and sell sides of every level
/// and starting from the mirrored exposures (`-short0`, `-long0`) keeps the mirrored
/// quotes and ends at the mirrored projections.
pub proof fn lemma_grid_mirror(
    levels: Seq<(bool, bool)>,
    k: nat,
    long0: int,
    short0: int,
    ts: int,
    max: int,
)
    requires
        k <= levels.len(),
    ensures
        grid_after(swap_sides(levels), k, -short0, -long0, ts, max).1 == -grid_after(
            levels,
            k,
            long0,
            short0,
            ts,
            max,
        ).2,
        grid_after(swap_sides(levels), k, -short0, -long0, ts, max).2 == -grid_after(
            levels,
            k,
            long0,
            short0,
            ts,
            max,
        ).1,
        forall|q: (usize, bool)|
            #[trigger] grid_after(swap_sides(levels), k, -short0, -long0, ts, max).0.contains(q)
                <==> grid_after(levels, k, long0, short0, ts, max).0.contains((q.0, !q.1)),
    decreases k,
{
    broadcast use vstd::seq_lib::lemma_seq_contains_after_push;

    if k > 0 {
        let j = (k - 1) as nat;
        lemma_grid_mirror(levels, j, long0, short0, ts, max);
        assert(swap_sides(levels)[j as int] == (levels[j as int].1, levels[j as int].0));
        let g = grid_after(levels, k, long0, short0, ts, max).0;
        let m = grid_after(swap_sides(levels), k, -short0, -long0, ts, max).0;
        let gp = grid_after(levels, j, long0, short0, ts, max).0;
        let mp = grid_after(swap_sides(levels), j, -short0, -long0, ts, max).0;
        assert forall|q: (usize, bool)| #[trigger] m.contains(q) <==> g.contains((q.0, !q.1)) by {
            assert(mp.contains(q) <==> gp.contains((q.0, !q.1)));
        }
    }
}

} // verus!
