//! Counting ticks across the bands of a varying tick size: the distance
//! between two prices is the sum, over the bands, of the part of the way
//! that lies in each band divided by that band's tick size.
use crate::decimal::{
    abs, checked_difference, checked_quotient, checked_sum, fits, lemma_spec_sub, mantissa_limit,
    pow10, scale_max, spec_sub, zero, Decimal,
};
use super::execution_info::{
    band_from, dist_segment, dist_walk, lemma_result_fits, room, thresholds_wf, varying_tick,
    TickSize, Thresholds,
};
use super::tick_ladder::{lemma_band_bounds, stp, thr};
use vstd::prelude::*;

verus! {

/// What `rust_decimal`'s checked operations give where nothing needs
/// rounding: a difference that fits at the larger scale of its operands is
/// exact, a quotient that is a whole number below 2^96 is that number, and
/// the sum of two whole numbers whose total is below 2^96 is that total.
pub open spec fn checked_ops_exact() -> bool {
    &&& forall|a: Decimal, b: Decimal|
        a.wf() && b.wf() && fits(a.units() - b.units(), scale_max(a.scale, b.scale) as nat)
            ==> #[trigger] checked_difference(a, b) == Some(spec_sub(a, b))
    &&& forall|a: Decimal, b: Decimal|
        a.wf() && b.wf() && b.units() != 0 && a.units() % b.units() == 0 && abs(
            a.units() / b.units(),
        ) < mantissa_limit() ==> (#[trigger] checked_quotient(a, b) matches Some(q) && q.wf()
            && q.units() == (a.units() / b.units()) * pow10(28))
    &&& forall|a: Decimal, b: Decimal|
        a.wf() && b.wf() && a.units() % pow10(28) == 0 && b.units() % pow10(28) == 0 && abs(
            a.units() + b.units(),
        ) < mantissa_limit() * pow10(28) ==> (#[trigger] checked_sum(a, b) matches Some(c)
            && c.wf() && c.units() == a.units() + b.units())
}

/// Thresholds in strictly increasing order, with positive tick sizes.
pub open spec fn banded(ts: Thresholds) -> bool {
    &&& ts.len() > 0
    &&& forall|i: int| 0 <= i < ts.len() ==> stp(ts, i) > 0
    &&& forall|i: int, j: int| 0 <= i < j < ts.len() ==> thr(ts, i) < thr(ts, j)
}

/// The length, in units of 10^-28, of the part of the way from `from` to
/// `to` that lies in band `i` (from its threshold up to the next one, or
/// without end for the last band).
pub open spec fn band_part(ts: Thresholds, from: int, to: int, i: int) -> int {
    let lo = if from > thr(ts, i) {
        from
    } else {
        thr(ts, i)
    };
    let hi = if i + 1 < ts.len() && thr(ts, i + 1) < to {
        thr(ts, i + 1)
    } else {
        to
    };
    if hi > lo {
        hi - lo
    } else {
        0
    }
}

/// The ticks in the parts of the way that lie in the first `k` bands.
pub open spec fn band_ticks(ts: Thresholds, from: int, to: int, k: int) -> int
    decreases k,
{
    if k <= 0 {
        0
    } else {
        band_ticks(ts, from, to, k - 1) + band_part(ts, from, to, k - 1) / stp(ts, k - 1)
    }
}

/// Each band's part of the way is a whole number of its ticks.
pub open spec fn whole_band_parts(ts: Thresholds, from: int, to: int) -> bool {
    forall|i: int| 0 <= i < ts.len() ==> #[trigger] band_part(ts, from, to, i) % stp(ts, i) == 0
}

/// The difference of `a` and `b` fits at the larger of their scales
/// whichever way it is taken.
pub open spec fn pair_fits(a: Decimal, b: Decimal) -> bool {
    abs(a.units()) + abs(b.units()) < room(scale_max(a.scale, b.scale))
}

/// Any two of the thresholds and the two ends have a difference that fits.
pub open spec fn ends_fit(ts: Thresholds, from: Decimal, to: Decimal) -> bool {
    &&& forall|i: int, k: int|
        0 <= i < ts.len() && 0 <= k < ts.len() ==> pair_fits(#[trigger] ts[i].0, #[trigger] ts[k].0)
    &&& forall|i: int| 0 <= i < ts.len() ==> pair_fits(#[trigger] ts[i].0, from)
    &&& forall|i: int| 0 <= i < ts.len() ==> pair_fits(to, #[trigger] ts[i].0)
    &&& pair_fits(to, from)
}

/// The ticks counted so far never fall and never pass the total.
proof fn lemma_band_ticks_grow(ts: Thresholds, from: int, to: int, k: int)
    requires
        banded(ts),
        0 <= k <= ts.len(),
    ensures
        0 <= band_ticks(ts, from, to, k) <= band_ticks(ts, from, to, ts.len() as int),
    decreases ts.len() - k,
{
    lemma_band_ticks_nonneg(ts, from, to, k);
    if k < ts.len() {
        lemma_band_ticks_grow(ts, from, to, k + 1);
        assert(band_part(ts, from, to, k) >= 0);
        vstd::arithmetic::div_mod::lemma_div_pos_is_pos(
            band_part(ts, from, to, k),
            stp(ts, k),
        );
    }
}

proof fn lemma_band_ticks_nonneg(ts: Thresholds, from: int, to: int, k: int)
    requires
        banded(ts),
        0 <= k <= ts.len(),
    ensures
        band_ticks(ts, from, to, k) >= 0,
    decreases k,
{
    if k > 0 {
        lemma_band_ticks_nonneg(ts, from, to, k - 1);
        vstd::arithmetic::div_mod::lemma_div_pos_is_pos(
            band_part(ts, from, to, k - 1),
            stp(ts, k - 1),
        );
    }
}

/// Bands wholly above `to` add nothing.
proof fn lemma_band_ticks_tail(ts: Thresholds, from: int, to: int, k: int, n: int)
    requires
        banded(ts),
        0 <= k <= n <= ts.len(),
        k < ts.len() ==> to < thr(ts, k),
    ensures
        band_ticks(ts, from, to, n) == band_ticks(ts, from, to, k),
    decreases n - k,
{
    if n > k {
        lemma_band_ticks_tail(ts, from, to, k, n - 1);
        if k < n - 1 {
            assert(thr(ts, k) < thr(ts, n - 1));
        }
        assert(band_part(ts, from, to, n - 1) == 0);
    }
}

/// Bands wholly below `from` add nothing.
proof fn lemma_band_ticks_head(ts: Thresholds, from: int, to: int, k: int)
    requires
        banded(ts),
        0 <= k < ts.len(),
        thr(ts, k) <= from,
    ensures
        band_ticks(ts, from, to, k) == 0,
    decreases k,
{
    if k > 0 {
        lemma_band_ticks_head(ts, from, to, k - 1);
        assert(thr(ts, k - 1) < thr(ts, k));
        assert(band_part(ts, from, to, k - 1) == 0);
    }
}

/// The count of ticks from `price`, in band `next - 1`, onwards is the
/// count already made plus the ticks in the parts of the way that lie in
/// band `next - 1` and above.
#[verifier::rlimit(40)]
proof fn lemma_dist_walk_bands(
    ts: Thresholds,
    from: Decimal,
    to: Decimal,
    next: int,
    price: Decimal,
    ticks: Decimal,
)
    requires
        checked_ops_exact(),
        thresholds_wf(ts),
        banded(ts),
        from.wf(),
        to.wf(),
        price.wf(),
        ticks.wf(),
        1 <= next <= ts.len(),
        price == from || price == ts[next - 1].0,
        price.units() == (if from.units() > thr(ts, next - 1) {
            from.units()
        } else {
            thr(ts, next - 1)
        }),
        price.units() <= to.units(),
        next < ts.len() ==> price.units() < thr(ts, next),
        ticks.units() == band_ticks(ts, from.units(), to.units(), next - 1) * pow10(28),
        whole_band_parts(ts, from.units(), to.units()),
        ends_fit(ts, from, to),
        band_ticks(ts, from.units(), to.units(), ts.len() as int) < mantissa_limit(),
    ensures
        dist_walk(ts, next, price, to, ts[next - 1].1, ticks) matches Some(Some(d)) && d.units()
            == band_ticks(ts, from.units(), to.units(), ts.len() as int) * pow10(28),
    decreases ts.len() - next,
{
    let f = from.units();
    let t = to.units();
    let step = ts[next - 1].1;
    let s = stp(ts, next - 1);
    let total = band_ticks(ts, f, t, ts.len() as int);
    crate::decimal::lemma_units_zero(step);
    crate::decimal::lemma_pow10_pos(28);
    lemma_band_ticks_grow(ts, f, t, next - 1);
    lemma_band_ticks_grow(ts, f, t, next);
    assert(band_part(ts, f, t, next - 1) % s == 0);
    let last = next >= ts.len() || t < thr(ts, next);
    let hi = if last {
        to
    } else {
        ts[next].0
    };
    assert(pair_fits(hi, price));
    lemma_result_fits(hi, price, scale_max(hi.scale, price.scale), false);
    lemma_spec_sub(hi, price);
    let diff = spec_sub(hi, price);
    assert(checked_difference(hi, price) == Some(diff));
    assert(diff.units() == band_part(ts, f, t, next - 1));
    let k = band_part(ts, f, t, next - 1) / s;
    assert(k >= 0) by {
        vstd::arithmetic::div_mod::lemma_div_pos_is_pos(band_part(ts, f, t, next - 1), s);
    }
    assert(band_ticks(ts, f, t, next) == band_ticks(ts, f, t, next - 1) + k);
    let q = checked_quotient(diff, step).unwrap();
    assert(q.units() == k * pow10(28));
    vstd::arithmetic::div_mod::lemma_mod_multiples_basic(k, pow10(28));
    vstd::arithmetic::div_mod::lemma_mod_multiples_basic(
        band_ticks(ts, f, t, next - 1),
        pow10(28),
    );
    assert(ticks.units() + q.units() == band_ticks(ts, f, t, next) * pow10(28)) by (
    nonlinear_arith)
        requires
            ticks.units() == band_ticks(ts, f, t, next - 1) * pow10(28),
            q.units() == k * pow10(28),
            band_ticks(ts, f, t, next) == band_ticks(ts, f, t, next - 1) + k,
    ;
    assert(abs(ticks.units() + q.units()) < mantissa_limit() * pow10(28)) by (nonlinear_arith)
        requires
            ticks.units() + q.units() == band_ticks(ts, f, t, next) * pow10(28),
            0 <= band_ticks(ts, f, t, next) <= total,
            total < mantissa_limit(),
            pow10(28) > 0,
    ;
    let sum = checked_sum(ticks, q).unwrap();
    assert(dist_segment(ticks, hi, price, step) == Some(sum));
    if last {
        lemma_band_ticks_tail(ts, f, t, next, ts.len() as int);
    } else {
        let np = ts[next].0;
        if next + 1 < ts.len() {
            assert(thr(ts, next) < thr(ts, next + 1));
        }
        lemma_dist_walk_bands(ts, from, to, next + 1, np, sum);
    }
}

/// With thresholds in increasing order and positive tick sizes, and where
/// `rust_decimal` computes each step exactly, the signed tick distance from
/// `from` up to `to` (both at or above the first threshold) is the sum,
/// over the bands, of the part of the way that lies in each band divided by
/// that band's tick size.
pub proof fn law_varying_distance_sums_bands(tick: TickSize, from: Decimal, to: Decimal)
    requires
        checked_ops_exact(),
        tick.wf(),
        from.wf(),
        to.wf(),
        tick matches TickSize::Varying { thresholds } && banded(thresholds@) && thr(thresholds@, 0)
            <= from.units() && whole_band_parts(thresholds@, from.units(), to.units()) && ends_fit(
            thresholds@,
            from,
            to,
        ) && band_ticks(thresholds@, from.units(), to.units(), thresholds@.len() as int)
            < mantissa_limit(),
        from.units() < to.units(),
    ensures
        tick.spec_distance(from, to) matches Some(Some(d)) && d.units() == band_ticks(
            tick->thresholds@,
            from.units(),
            to.units(),
            tick->thresholds@.len() as int,
        ) * pow10(28),
{
    let ts = tick->thresholds@;
    let len = ts.len();
    lemma_band_bounds(ts, from, len - 1);
    let j = band_from(ts, from, len - 1);
    assert(j is Some) by {
        if j is None {
            lemma_band_from_none(ts, from, len - 1);
        }
    }
    let j = j.unwrap();
    if j + 1 < len {
        assert(from.units() < thr(ts, j + 1));
    }
    lemma_band_ticks_head(ts, from.units(), to.units(), j);
    lemma_dist_walk_bands(ts, from, to, j + 1, from, zero());
}

/// The band search finds nothing only where the price lies below every
/// threshold it looks at.
proof fn lemma_band_from_none(ts: Thresholds, p: Decimal, idx: int)
    requires
        idx < ts.len(),
        band_from(ts, p, idx) is None,
    ensures
        forall|i: int| 0 <= i <= idx ==> p.units() < #[trigger] thr(ts, i),
    decreases idx + 1,
{
    if idx >= 0 {
        lemma_band_from_none(ts, p, idx - 1);
    }
}

/// Scanning from band `j` on, with the tick size of band `j - 1` (or of the
/// first band) in hand, ends with the tick size of the band `p` lies in.
proof fn lemma_varying_tick_band(ts: Thresholds, p: Decimal, j: int, i: int)
    requires
        banded(ts),
        0 <= j <= i + 1,
        0 <= i < ts.len(),
        thr(ts, i) <= p.units(),
        i + 1 < ts.len() ==> p.units() < thr(ts, i + 1),
    ensures
        varying_tick(ts, p, j, if j == 0 {
            ts[0].1
        } else {
            ts[j - 1].1
        }) == ts[i].1,
    decreases ts.len() - j,
{
    if j <= i {
        if j < i {
            assert(thr(ts, j) < thr(ts, i));
        }
        lemma_varying_tick_band(ts, p, j + 1, i);
    }
}

/// With thresholds in increasing order, the tick size that applies to a
/// price is that of the band it lies in (from its threshold up to the next
/// one), and that of the first band below the first threshold.
pub proof fn law_tick_for_is_band_tick(tick: TickSize, price: Decimal, i: int)
    requires
        tick matches TickSize::Varying { thresholds } && banded(thresholds@),
        0 <= i < tick->thresholds@.len(),
        i == 0 || thr(tick->thresholds@, i) <= price.units(),
        i + 1 < tick->thresholds@.len() ==> price.units() < thr(tick->thresholds@, i + 1),
    ensures
        tick.tick_for(price) == Some(tick->thresholds@[i].1),
{
    let ts = tick->thresholds@;
    if thr(ts, i) <= price.units() {
        lemma_varying_tick_band(ts, price, 0, i);
    } else {
        assert(varying_tick(ts, price, 0, ts[0].1) == ts[0].1);
    }
}

} // verus!
