//! Walking a ladder of varying tick sizes up and back down: with ascending
//! thresholds, each reachable in whole ticks of the band below it, `n` ticks
//! down undo `n` ticks up.
use crate::decimal::{spec_add, spec_sub, lemma_spec_add, lemma_spec_sub, Decimal};
use super::execution_info::{
    band_from, down_exact, thresholds_wf, up_exact, walk_down, walk_up, TickSize, Thresholds,
};
use vstd::prelude::*;

verus! {

/// The threshold of band `i`, in units of 10^-28.
pub open spec fn thr(ts: Thresholds, i: int) -> int {
    ts[i].0.units()
}

/// The tick size of band `i`, in units of 10^-28.
pub open spec fn stp(ts: Thresholds, i: int) -> int {
    ts[i].1.units()
}

/// Thresholds that form a ladder: at least one band, positive tick sizes,
/// strictly ascending thresholds, and each threshold a whole number of the
/// previous band's ticks above the previous threshold.
pub open spec fn ladder(ts: Thresholds) -> bool {
    &&& ts.len() > 0
    &&& forall|i: int| 0 <= i < ts.len() ==> stp(ts, i) > 0
    &&& forall|i: int, j: int| 0 <= i < j < ts.len() ==> thr(ts, i) < thr(ts, j)
    &&& forall|i: int|
        0 <= i < ts.len() - 1 ==> (thr(ts, i + 1) - thr(ts, i)) % stp(ts, i) == 0
}

/// `x` lies in band `i` on one of its ticks.
pub open spec fn in_band(ts: Thresholds, i: int, x: int) -> bool {
    &&& 0 <= i < ts.len()
    &&& thr(ts, i) <= x
    &&& i + 1 < ts.len() ==> x < thr(ts, i + 1)
    &&& (x - thr(ts, i)) % stp(ts, i) == 0
}

/// `price` is on a tick of the band it lies in.
pub open spec fn on_tick(ts: Thresholds, price: Decimal) -> bool {
    &&& ts.len() > 0
    &&& band_from(ts, price, ts.len() - 1) matches Some(i)
    &&& (price.units() - thr(ts, i)) % stp(ts, i) == 0
}

/// One tick up from `x` in band `i`, as a band and a value.
pub open spec fn ustep(ts: Thresholds, i: int, x: int) -> (int, int) {
    let y = x + stp(ts, i);
    if i + 1 < ts.len() && y >= thr(ts, i + 1) {
        (i + 1, y)
    } else {
        (i, y)
    }
}

/// `n` ticks up from `x` in band `i`, as a band and a value.
pub open spec fn iup(ts: Thresholds, i: int, x: int, n: nat) -> (int, int)
    decreases n,
{
    if n == 0 {
        (i, x)
    } else {
        let s = ustep(ts, i, x);
        iup(ts, s.0, s.1, (n - 1) as nat)
    }
}

/// `n` ticks down from `x` in band `i`, on values.
pub open spec fn idown(ts: Thresholds, i: int, x: int, n: nat) -> Option<int>
    decreases n,
{
    if n == 0 {
        Some(x)
    } else {
        let j = if x == thr(ts, i) {
            i - 1
        } else {
            i
        };
        if j < 0 {
            None
        } else {
            idown(ts, j, x - stp(ts, j), (n - 1) as nat)
        }
    }
}

/// The last of `n + 1` ticks up is one tick from where `n` ticks lead.
pub proof fn lemma_iup_last(ts: Thresholds, i: int, x: int, n: nat)
    ensures
        iup(ts, i, x, n + 1) == ({
            let s = iup(ts, i, x, n);
            ustep(ts, s.0, s.1)
        }),
    decreases n,
{
    let s = ustep(ts, i, x);
    assert(iup(ts, i, x, n + 1) == iup(ts, s.0, s.1, n));
    if n > 0 {
        lemma_iup_last(ts, s.0, s.1, (n - 1) as nat);
        assert(iup(ts, i, x, n) == iup(ts, s.0, s.1, (n - 1) as nat));
    } else {
        assert(iup(ts, s.0, s.1, 0) == s);
    }
}

/// A multiple of a positive `d` that is positive is at least `d`.
proof fn lemma_positive_multiple(a: int, d: int)
    requires
        d > 0,
        a > 0,
        a % d == 0,
    ensures
        a >= d,
{
    vstd::arithmetic::div_mod::lemma_fundamental_div_mod(a, d);
    assert(a >= d) by (nonlinear_arith)
        requires
            a == d * (a / d) + 0,
            a > 0,
            d > 0,
    ;
}

/// Adding or subtracting `d` keeps the remainder modulo `d`.
proof fn lemma_shift_mod(a: int, d: int)
    requires
        d > 0,
        a % d == 0,
    ensures
        (a + d) % d == 0,
        (a - d) % d == 0,
{
    vstd::arithmetic::div_mod::lemma_mod_add_multiples_vanish(a, d);
    vstd::arithmetic::div_mod::lemma_mod_sub_multiples_vanish(a, d);
}

/// One tick up stays on a tick, in the band it reaches.
pub proof fn lemma_ustep_in_band(ts: Thresholds, i: int, x: int)
    requires
        ladder(ts),
        in_band(ts, i, x),
    ensures
        in_band(ts, ustep(ts, i, x).0, ustep(ts, i, x).1),
        ustep(ts, i, x).0 == i + 1 ==> ustep(ts, i, x).1 == thr(ts, i + 1),
{
    let d = stp(ts, i);
    let y = x + d;
    lemma_shift_mod(x - thr(ts, i), d);
    assert(y - thr(ts, i) == (x - thr(ts, i)) + d);
    if i + 1 < ts.len() {
        let gap = thr(ts, i + 1) - x;
        assert(gap == (thr(ts, i + 1) - thr(ts, i)) - (x - thr(ts, i)));
        vstd::arithmetic::div_mod::lemma_sub_mod_noop(
            thr(ts, i + 1) - thr(ts, i),
            x - thr(ts, i),
            d,
        );
        assert(gap % d == 0) by {
            vstd::arithmetic::div_mod::lemma_small_mod(0, d as nat);
        }
        lemma_positive_multiple(gap, d);
        if y >= thr(ts, i + 1) {
            assert(y == thr(ts, i + 1));
            assert((y - thr(ts, i + 1)) % d == 0);
            assert(0int % stp(ts, i + 1) == 0);
            if i + 2 < ts.len() {
                assert(thr(ts, i + 1) < thr(ts, i + 2));
            }
        }
    }
}

/// `n` ticks up stay on a tick.
pub proof fn lemma_iup_in_band(ts: Thresholds, i: int, x: int, n: nat)
    requires
        ladder(ts),
        in_band(ts, i, x),
    ensures
        in_band(ts, iup(ts, i, x, n).0, iup(ts, i, x, n).1),
    decreases n,
{
    if n > 0 {
        lemma_ustep_in_band(ts, i, x);
        let s = ustep(ts, i, x);
        lemma_iup_in_band(ts, s.0, s.1, (n - 1) as nat);
    }
}

/// `n` ticks down undo `n` ticks up.
pub proof fn lemma_idown_iup(ts: Thresholds, i: int, x: int, n: nat)
    requires
        ladder(ts),
        in_band(ts, i, x),
    ensures
        idown(ts, iup(ts, i, x, n).0, iup(ts, i, x, n).1, n) == Some(x),
    decreases n,
{
    if n > 0 {
        let m = (n - 1) as nat;
        let s = iup(ts, i, x, m);
        lemma_iup_last(ts, i, x, m);
        lemma_iup_in_band(ts, i, x, m);
        lemma_ustep_in_band(ts, s.0, s.1);
        lemma_idown_iup(ts, i, x, m);
        let u = ustep(ts, s.0, s.1);
        assert(u.1 != thr(ts, s.0));
        assert(idown(ts, u.0, u.1, n) == idown(ts, s.0, s.1, m));
    }
}

/// In a ladder, the band search finds the band that a price lies in.
pub proof fn lemma_band_found(ts: Thresholds, p: Decimal, k: int, idx: int)
    requires
        ladder(ts),
        in_band(ts, k, p.units()),
        k <= idx < ts.len(),
    ensures
        band_from(ts, p, idx) == Some(k),
    decreases idx,
{
    if idx > k {
        assert(thr(ts, k + 1) <= thr(ts, idx)) by {
            if k + 1 < idx {
                assert(thr(ts, k + 1) < thr(ts, idx));
            }
        }
        lemma_band_found(ts, p, k, idx - 1);
    }
}

/// What the band search finds lies at or above its threshold and below every
/// threshold after it.
pub proof fn lemma_band_bounds(ts: Thresholds, p: Decimal, idx: int)
    requires
        idx < ts.len(),
    ensures
        band_from(ts, p, idx) matches Some(i) ==> 0 <= i <= idx && thr(ts, i) <= p.units() && (
        forall|j: int| i < j <= idx ==> p.units() < #[trigger] thr(ts, j)),
    decreases idx + 1,
{
    if idx >= 0 && p.units() < thr(ts, idx) {
        lemma_band_bounds(ts, p, idx - 1);
    }
}

/// Walking up on decimals follows the walk on values where no tick needs
/// rounding.
pub proof fn lemma_walk_up_values(ts: Thresholds, i: int, p: Decimal, n: nat)
    requires
        thresholds_wf(ts),
        0 <= i < ts.len(),
        p.wf(),
        up_exact(ts, i, p, n),
    ensures
        walk_up(ts, i, p, n).wf(),
        walk_up(ts, i, p, n).units() == iup(ts, i, p.units(), n).1,
    decreases n,
{
    if n > 0 {
        let t = ts[i].1;
        lemma_spec_add(p, t);
        let q = spec_add(p, t);
        if i + 1 < ts.len() && q.units() >= ts[i + 1].0.units() {
            lemma_walk_up_values(ts, i + 1, q, (n - 1) as nat);
        } else {
            lemma_walk_up_values(ts, i, q, (n - 1) as nat);
        }
    }
}

/// Walking down on decimals follows the walk on values where no tick needs
/// rounding.
pub proof fn lemma_walk_down_values(ts: Thresholds, i: int, p: Decimal, n: nat, y: int)
    requires
        thresholds_wf(ts),
        0 <= i < ts.len(),
        p.wf(),
        down_exact(ts, i, p, n),
        idown(ts, i, p.units(), n) == Some(y),
    ensures
        walk_down(ts, i, p, n) matches Some(q) && q.units() == y,
    decreases n,
{
    if n > 0 {
        let x = p.units();
        let j = if x == thr(ts, i) {
            i - 1
        } else {
            i
        };
        let t = ts[j].1;
        lemma_spec_sub(p, t);
        lemma_walk_down_values(ts, j, spec_sub(p, t), (n - 1) as nat, y);
    }
}

/// For thresholds that form a ladder and a price on a tick, moving `n`
/// ticks up and then `n` ticks down returns to the price, where no tick of
/// either walk needs rounding.
pub proof fn law_varying_round_trip(tick: TickSize, price: Decimal, n: int)
    requires
        tick.wf(),
        price.wf(),
        tick matches TickSize::Varying { thresholds } && ladder(thresholds@) && on_tick(
            thresholds@,
            price,
        ),
        n > 0,
        tick.moves_fit(price, n),
        tick.spec_increment(price, n) matches Some(up) ==> tick.moves_fit(up, -n),
    ensures
        tick.spec_increment(price, n) matches Some(up) && tick.spec_decrement(up, n) matches Some(
            back,
        ) && back.units() == price.units(),
{
    let ts = match tick {
        TickSize::Varying { thresholds } => thresholds@,
        TickSize::Simple(_) => Seq::empty(),
    };
    let len = ts.len();
    let i = band_from(ts, price, len - 1).unwrap();
    lemma_band_bounds(ts, price, len - 1);
    if i + 1 < len {
        assert(price.units() < thr(ts, i + 1));
    }
    assert(in_band(ts, i, price.units()));
    lemma_walk_up_values(ts, i, price, n as nat);
    let up = walk_up(ts, i, price, n as nat);
    let u = iup(ts, i, price.units(), n as nat);
    lemma_iup_in_band(ts, i, price.units(), n as nat);
    lemma_band_found(ts, up, u.0, len - 1);
    lemma_idown_iup(ts, i, price.units(), n as nat);
    lemma_walk_down_values(ts, u.0, up, n as nat, price.units());
}

/// For thresholds that form a ladder and a price on a tick of band `i`, one
/// tick up adds band `i`'s tick size; one tick down subtracts it too, except
/// from the band's own threshold, where it subtracts the tick size of the
/// band below (and there is no tick below the first threshold).
pub proof fn law_varying_one_tick(tick: TickSize, price: Decimal, i: int)
    requires
        tick.wf(),
        price.wf(),
        tick matches TickSize::Varying { thresholds } && ladder(thresholds@) && in_band(
            thresholds@,
            i,
            price.units(),
        ),
    ensures
        tick.moves_fit(price, 1) ==> (tick.spec_increment(price, 1) matches Some(q) && q.units()
            == price.units() + stp(tick->thresholds@, i)),
        tick.moves_fit(price, -1) ==> (match tick.spec_decrement(price, 1) {
            Some(q) => if price.units() == thr(tick->thresholds@, i) {
                i > 0 && q.units() == price.units() - stp(tick->thresholds@, i - 1)
            } else {
                q.units() == price.units() - stp(tick->thresholds@, i)
            },
            None => i == 0 && price.units() == thr(tick->thresholds@, 0),
        }),
{
    let ts = tick->thresholds@;
    lemma_band_found(ts, price, i, ts.len() - 1);
    if tick.moves_fit(price, 1) {
        lemma_walk_up_values(ts, i, price, 1);
        assert(iup(ts, i, price.units(), 1) == iup(
            ts,
            ustep(ts, i, price.units()).0,
            ustep(ts, i, price.units()).1,
            0,
        ));
    }
    if tick.moves_fit(price, -1) {
        let x = price.units();
        let j = if x == thr(ts, i) {
            i - 1
        } else {
            i
        };
        if j >= 0 {
            let t = ts[j].1;
            lemma_spec_sub(price, t);
            assert(walk_down(ts, i, price, 1) == walk_down(ts, j, spec_sub(price, t), 0));
        }
    }
}

} // verus!
