//! Information about a symbol related to its execution route, and the tick
//! rules that say which prices a venue accepts.
use crate::decimal::{
    abs, decimal_add, decimal_ge, decimal_mul, decimal_same, decimal_sub, fits, lemma_multiple_add,
    lemma_pow10_add, lemma_pow10_pos, lemma_spec_add, lemma_spec_sub, lemma_units_multiple,
    lemma_units_zero, lemma_at_scale, mantissa_limit, pow10, scale_max, spec_add, spec_mul, spec_sub, spec_rem,
    trunc_rem, zero, decimal_rem, decimal_neg, decimal_checked_add, decimal_checked_sub,
    decimal_checked_div, checked_sum, checked_difference, checked_quotient, spec_neg, Decimal,
    negated_parts, parts_decimal,
};
use crate::dir::Dir;
use super::venue::ExecutionVenue;
use vstd::prelude::*;

verus! {

/// The thresholds of a varying tick size: pairs `(threshold, tick_size)`.
pub type Thresholds = Seq<(Decimal, Decimal)>;

/// Every threshold and tick size is a decimal `rust_decimal` can hold.
pub open spec fn thresholds_wf(ts: Thresholds) -> bool {
    forall|i: int| 0 <= i < ts.len() ==> (#[trigger] ts[i]).0.wf() && ts[i].1.wf()
}

/// The largest magnitude among the tick sizes of `ts`, in units of 10^-28.
pub open spec fn steps_mag(ts: Thresholds) -> int
    decreases ts.len(),
{
    if ts.len() == 0 {
        0
    } else {
        let m = steps_mag(ts.drop_last());
        if abs(ts.last().1.units()) > m {
            abs(ts.last().1.units())
        } else {
            m
        }
    }
}

/// The values a 96-bit mantissa can reach at scale `s`, in units of 10^-28.
pub open spec fn room(s: u32) -> int {
    mantissa_limit() * pow10((28 - s) as nat)
}

/// Searching down from index `i`, the first threshold at or below `p`.
pub open spec fn band_from(ts: Thresholds, p: Decimal, i: int) -> Option<int>
    decreases i + 1,
{
    if i < 0 {
        None
    } else if p.units() >= ts[i].0.units() {
        Some(i)
    } else {
        band_from(ts, p, i - 1)
    }
}

/// `n` upward ticks from `p` in band `i`: each tick adds the band's tick
/// size, and a price that reaches the next threshold moves to the next band.
pub open spec fn walk_up(ts: Thresholds, i: int, p: Decimal, n: nat) -> Decimal
    decreases n,
{
    if n == 0 {
        p
    } else {
        let q = spec_add(p, ts[i].1);
        if i + 1 < ts.len() && q.units() >= ts[i + 1].0.units() {
            walk_up(ts, i + 1, q, (n - 1) as nat)
        } else {
            walk_up(ts, i, q, (n - 1) as nat)
        }
    }
}

/// `n` downward ticks from `p` in band `i`: a price on the band's threshold
/// first moves to the band below, whose tick size it then subtracts; there
/// is no band below the first one.
pub open spec fn walk_down(ts: Thresholds, i: int, p: Decimal, n: nat) -> Option<Decimal>
    decreases n,
{
    if n == 0 {
        Some(p)
    } else {
        let j = if p.units() == ts[i].0.units() {
            i - 1
        } else {
            i
        };
        if j < 0 {
            None
        } else {
            walk_down(ts, j, spec_sub(p, ts[j].1), (n - 1) as nat)
        }
    }
}

/// Each of `n` upward ticks from `p` in band `i` (as `walk_up` takes them)
/// gives a sum that fits at the larger scale of its operands.
pub open spec fn up_exact(ts: Thresholds, i: int, p: Decimal, n: nat) -> bool
    decreases n,
{
    if n == 0 {
        true
    } else {
        let t = ts[i].1;
        let q = spec_add(p, t);
        &&& fits(p.units() + t.units(), scale_max(p.scale, t.scale) as nat)
        &&& if i + 1 < ts.len() && q.units() >= ts[i + 1].0.units() {
            up_exact(ts, i + 1, q, (n - 1) as nat)
        } else {
            up_exact(ts, i, q, (n - 1) as nat)
        }
    }
}

/// Each of `n` downward ticks from `p` in band `i` (as `walk_down` takes
/// them, until it finds no band below) gives a difference that fits at the
/// larger scale of its operands.
pub open spec fn down_exact(ts: Thresholds, i: int, p: Decimal, n: nat) -> bool
    decreases n,
{
    if n == 0 {
        true
    } else {
        let j = if p.units() == ts[i].0.units() {
            i - 1
        } else {
            i
        };
        if j < 0 {
            true
        } else {
            let t = ts[j].1;
            &&& fits(p.units() - t.units(), scale_max(p.scale, t.scale) as nat)
            &&& down_exact(ts, j, spec_sub(p, t), (n - 1) as nat)
        }
    }
}

/// The decimal of the integer `n`.
pub open spec fn int_decimal(n: int) -> Decimal {
    Decimal { mantissa: n as i128, scale: 0 }
}

#[derive(Clone, Debug)]
pub enum TickSize {
    Simple(Decimal),
    /// List of (threshold, tick_size) pairs.  For price greater than or equal
    /// to each threshold, the tick size is the corresponding value.
    ///
    /// For example, if the thresholds are [(100, 0.01), (200, 0.02)], valid
    /// prices include:
    ///
    /// ...199.98, 199.99, 200.00, 200.02, 200.04...
    Varying { thresholds: Vec<(Decimal, Decimal)> },
}

impl TickSize {
    /// Every decimal in the tick size is one `rust_decimal` can hold.
    pub open spec fn wf(&self) -> bool {
        match self {
            TickSize::Simple(step) => step.wf(),
            TickSize::Varying { thresholds } => thresholds_wf(thresholds@),
        }
    }

    /// The largest magnitude among the tick sizes.
    pub open spec fn step_mag(&self) -> int {
        match self {
            TickSize::Simple(step) => abs(step.units()),
            TickSize::Varying { thresholds } => steps_mag(thresholds@),
        }
    }

    /// Moving `n` ticks from `price` (up for a positive `n`, down for a
    /// negative one) needs no rounding.  For a simple tick size: `n` tick
    /// sizes fit at the tick size's scale, and so does the resulting price at
    /// the larger of the two scales.  For varying tick sizes: each tick of the
    /// walk gives a value that fits at the larger scale of its two operands.
    pub open spec fn moves_fit(&self, price: Decimal, n: int) -> bool {
        match self {
            TickSize::Simple(step) => {
                &&& abs(n) * abs(step.units()) < room(step.scale)
                &&& abs(price.units() + n * step.units()) < room(
                    scale_max(price.scale, step.scale),
                )
            },
            TickSize::Varying { thresholds } => {
                let ts = thresholds@;
                ts.len() == 0 || match band_from(ts, price, ts.len() - 1) {
                    None => true,
                    Some(i) => if n >= 0 {
                        up_exact(ts, i, price, n as nat)
                    } else {
                        down_exact(ts, i, price, (-n) as nat)
                    },
                }
            },
        }
    }

    /// `n > 0` ticks up from `price`.
    pub open spec fn spec_up(&self, price: Decimal, n: int) -> Option<Decimal> {
        match self {
            TickSize::Simple(step) => Some(spec_add(price, spec_mul(*step, int_decimal(n)))),
            TickSize::Varying { thresholds } => {
                let ts = thresholds@;
                if ts.len() == 0 {
                    None
                } else {
                    match band_from(ts, price, ts.len() - 1) {
                        None => None,
                        Some(i) => Some(walk_up(ts, i, price, n as nat)),
                    }
                }
            },
        }
    }

    /// `n > 0` ticks down from `price`.
    pub open spec fn spec_down(&self, price: Decimal, n: int) -> Option<Decimal> {
        match self {
            TickSize::Simple(step) => Some(spec_sub(price, spec_mul(*step, int_decimal(n)))),
            TickSize::Varying { thresholds } => {
                let ts = thresholds@;
                if ts.len() == 0 {
                    None
                } else {
                    match band_from(ts, price, ts.len() - 1) {
                        None => None,
                        Some(i) => walk_down(ts, i, price, n as nat),
                    }
                }
            },
        }
    }

    /// The price `n` ticks above `price`; negative `n` moves down.
    pub open spec fn spec_increment(&self, price: Decimal, n: int) -> Option<Decimal> {
        if n == 0 {
            Some(price)
        } else if n < 0 {
            self.spec_down(price, -n)
        } else {
            self.spec_up(price, n)
        }
    }

    /// The price `n` ticks below `price`; negative `n` moves up.
    pub open spec fn spec_decrement(&self, price: Decimal, n: int) -> Option<Decimal> {
        if n == 0 {
            Some(price)
        } else if n < 0 {
            self.spec_up(price, -n)
        } else {
            self.spec_down(price, n)
        }
    }

    pub fn simple(tick_size: Decimal) -> (r: Self)
        ensures
            r == TickSize::Simple(tick_size),
    {
        Self::Simple(tick_size)
    }

    /// Increment the price by `n` ticks.  Negative values decrement.
    ///
    /// This method assumes:
    ///
    /// - `price` is a valid price (i.e. on a tick and not between ticks)
    /// - `price` is not on or below the first threshold, for negative `n`
    /// - `thresholds` is non-empty, if tick size is `Varying`
    /// - `thresholds` are well-formed[1]
    ///
    /// [1] Sequential thresholds must be arithemetically adjacent; e.g.
    /// `(100, 0.3), (200, _)` is an invalid threshold sequence because
    /// no iteration of ticks can get from 100 to 200.
    pub fn increment(&self, price: Decimal, n: i32) -> (r: Option<Decimal>)
        requires
            self.wf(),
            price.wf(),
            n != i32::MIN,
            n != 0 ==> self.moves_fit(price, n as int),
        ensures
            r == self.spec_increment(price, n as int),
            r matches Some(q) ==> q.wf(),
        decreases (if n < 0 {
            1int
        } else {
            0int
        }),
    {
        if n == 0 {
            return Some(price);
        } else if n < 0 {
            return self.decrement(price, -n);
        }
        self.up(price, n)
    }

    pub fn decrement(&self, price: Decimal, n: i32) -> (r: Option<Decimal>)
        requires
            self.wf(),
            price.wf(),
            n != i32::MIN,
            n != 0 ==> self.moves_fit(price, -n),
        ensures
            r == self.spec_decrement(price, n as int),
            r matches Some(q) ==> q.wf(),
        decreases (if n < 0 {
            1int
        } else {
            0int
        }),
    {
        if n == 0 {
            return Some(price);
        } else if n < 0 {
            return self.increment(price, -n);
        }
        self.down(price, n)
    }

    /// The tick size that applies to `price`.
    pub open spec fn tick_for(&self, price: Decimal) -> Option<Decimal> {
        match self {
            TickSize::Simple(t) => Some(*t),
            TickSize::Varying { thresholds } => {
                let ts = thresholds@;
                if ts.len() == 0 {
                    None
                } else {
                    Some(varying_tick(ts, price, 0, ts[0].1))
                }
            },
        }
    }

    /// Rounding `price` with its tick size stays within what the decimal type
    /// holds without rounding.
    pub open spec fn rounding_fits(&self, price: Decimal) -> bool {
        match self.tick_for(price) {
            Some(t) => round_fits(t, price),
            None => true,
        }
    }

    pub open spec fn spec_round_up(&self, price: Decimal) -> Option<Decimal> {
        match self.tick_for(price) {
            Some(t) => spec_round_up_with(t, price),
            None => None,
        }
    }

    pub open spec fn spec_round_down(&self, price: Decimal) -> Option<Decimal> {
        match self.tick_for(price) {
            Some(t) => spec_round_down_with(t, price),
            None => None,
        }
    }

    /// The tick size for `price`, or `None` when there are no thresholds.
    fn find_tick(&self, price: Decimal) -> (r: Option<Decimal>)
        requires
            self.wf(),
            price.wf(),
        ensures
            r == self.tick_for(price),
            r matches Some(t) ==> t.wf(),
    {
        match self {
            TickSize::Simple(tick_size) => {
                let t = *tick_size;
                assert(self.tick_for(price) == Some(t));
                Some(t)
            },
            TickSize::Varying { thresholds } => {
                if thresholds.len() == 0 {
                    return None;
                }
                let ghost ts = thresholds@;
                let mut tick_size = thresholds[0].1;
                let mut j: usize = 0;
                while j < thresholds.len()
                    invariant
                        ts == thresholds@,
                        ts.len() > 0,
                        thresholds_wf(ts),
                        price.wf(),
                        j <= ts.len(),
                        tick_size.wf(),
                        varying_tick(ts, price, 0, ts[0].1) == varying_tick(
                            ts,
                            price,
                            j as int,
                            tick_size,
                        ),
                    ensures
                        tick_size.wf(),
                        varying_tick(ts, price, 0, ts[0].1) == tick_size,
                    decreases ts.len() - j,
                {
                    let (threshold, size) = thresholds[j];
                    if decimal_ge(price, threshold) {
                        tick_size = size;
                    } else {
                        break ;
                    }
                    j += 1;
                }
                Some(tick_size)
            },
        }
    }

    /// Round the price to make the price more aggressive for the given direction.
    pub fn round_aggressive(&self, price: Decimal, dir: Dir) -> (r: Option<Decimal>)
        requires
            self.wf(),
            price.wf(),
            self.rounding_fits(price),
        ensures
            r == (match dir {
                Dir::Buy => self.spec_round_up(price),
                Dir::Sell => self.spec_round_down(price),
            }),
    {
        match dir {
            Dir::Buy => self.round_up(price),
            Dir::Sell => self.round_down(price),
        }
    }

    /// Round the price to make the price more passive for the given direction.
    pub fn round_passive(&self, price: Decimal, dir: Dir) -> (r: Option<Decimal>)
        requires
            self.wf(),
            price.wf(),
            self.rounding_fits(price),
        ensures
            r == (match dir {
                Dir::Buy => self.spec_round_down(price),
                Dir::Sell => self.spec_round_up(price),
            }),
    {
        match dir {
            Dir::Buy => self.round_down(price),
            Dir::Sell => self.round_up(price),
        }
    }

    pub fn round_up(&self, price: Decimal) -> (r: Option<Decimal>)
        requires
            self.wf(),
            price.wf(),
            self.rounding_fits(price),
        ensures
            r == self.spec_round_up(price),
            r matches Some(q) ==> q.wf(),
    {
        match self.find_tick(price) {
            None => None,
            Some(tick_size) => round_up_with(tick_size, price),
        }
    }

    pub fn round_down(&self, price: Decimal) -> (r: Option<Decimal>)
        requires
            self.wf(),
            price.wf(),
            self.rounding_fits(price),
        ensures
            r == self.spec_round_down(price),
            r matches Some(q) ==> q.wf(),
    {
        match self.find_tick(price) {
            None => None,
            Some(tick_size) => round_down_with(tick_size, price),
        }
    }

    /// Ticks from `from` up to a larger `to`.
    pub open spec fn spec_distance_up(&self, from: Decimal, to: Decimal) -> Option<Option<Decimal>> {
        match self {
            TickSize::Simple(step) => {
                if step.mantissa == 0 {
                    Some(None)
                } else {
                    match checked_difference(to, from) {
                        None => None,
                        Some(diff) => match checked_quotient(diff, *step) {
                            None => None,
                            Some(q) => Some(Some(q)),
                        },
                    }
                }
            },
            TickSize::Varying { thresholds } => {
                let ts = thresholds@;
                match band_from(ts, from, ts.len() - 1) {
                    None => Some(None),
                    Some(j) => dist_walk(ts, j + 1, from, to, ts[j].1, zero()),
                }
            },
        }
    }

    /// Ticks of a simple nonzero tick size `step` from `from` to `to`:
    /// `rust_decimal`'s checked `(to - from) / step`, `None` where it overflows.
    pub open spec fn simple_ticks(from: Decimal, to: Decimal, step: Decimal) -> Option<
        Option<Decimal>,
    > {
        match checked_difference(to, from) {
            None => None,
            Some(diff) => match checked_quotient(diff, step) {
                None => None,
                Some(q) => Some(Some(q)),
            },
        }
    }

    /// A tick count with its sign changed.
    pub open spec fn negated_ticks(r: Option<Option<Decimal>>) -> Option<Option<Decimal>> {
        match r {
            None => None,
            Some(None) => Some(None),
            Some(Some(d)) => Some(Some(spec_neg(d))),
        }
    }

    /// A simple positive tick size and two prices a whole number of ticks
    /// apart, with room for their difference.
    pub open spec fn whole_ticks_apart(&self, from: Decimal, to: Decimal) -> bool {
        &&& self matches TickSize::Simple(step)
        &&& step.units() > 0
        &&& from.units() < to.units()
        &&& (to.units() - from.units()) % step.units() == 0
        &&& (to.units() - from.units()) / step.units() < mantissa_limit()
        &&& abs(to.units()) + abs(from.units()) < room(scale_max(to.scale, from.scale))
    }

    /// Signed number of ticks from `from` to `to`: `Some(None)` where there is
    /// no answer (a zero tick size, or a `from` below every threshold), and
    /// `None` where `rust_decimal` overflows.
    pub open spec fn spec_distance(&self, from: Decimal, to: Decimal) -> Option<Option<Decimal>> {
        if from.units() == to.units() {
            Some(Some(zero()))
        } else if from.units() > to.units() {
            match self.spec_distance_up(to, from) {
                None => None,
                Some(None) => Some(None),
                Some(Some(d)) => Some(Some(spec_neg(d))),
            }
        } else {
            self.spec_distance_up(from, to)
        }
    }

    /// Number of ticks between `from` to `to` based on the tick size.
    ///
    /// If `from` is less than `to`, the result is positive.  If `from` is
    /// greater than `to`, the result is negative.
    ///
    /// If step size is zero, return None.  With a simple nonzero tick size
    /// the count is `(to - from) / step` as `rust_decimal` computes it, in
    /// either direction.
    pub fn signed_tick_distance(&self, from: Decimal, to: Decimal) -> (r: Option<Decimal>)
        requires
            self.wf(),
            from.wf(),
            to.wf(),
            self.spec_distance(from, to) is Some,
        ensures
            r == self.spec_distance(from, to).unwrap(),
            self.whole_ticks_apart(from, to) ==> (r matches Some(d) && d.units() == ((to.units()
                - from.units()) / self.step_mag()) * pow10(28)),
            self.whole_ticks_apart(to, from) ==> (r matches Some(d) && d.units() == -(((
            from.units() - to.units()) / self.step_mag()) * pow10(28))),
            match self {
                TickSize::Simple(step) => step.mantissa != 0 && from.units() != to.units()
                    ==> Self::simple_ticks(from, to, *step) == Some(r),
                _ => true,
            },
    {
        match self.distance(from, to) {
            Some(r) => r,
            None => None,
        }
    }

    /// `signed_tick_distance` where the arithmetic does not overflow, `None`
    /// where it would.
    pub fn try_signed_tick_distance(&self, from: Decimal, to: Decimal) -> (r: Option<
        Option<Decimal>,
    >)
        requires
            self.wf(),
            from.wf(),
            to.wf(),
        ensures
            r == self.spec_distance(from, to),
            match self {
                TickSize::Simple(step) => step.mantissa != 0 && from.units() != to.units() ==> r
                    == Self::simple_ticks(from, to, *step),
                _ => true,
            },
    {
        match self.distance(from, to) {
            Some(_) => Some(self.signed_tick_distance(from, to)),
            None => None,
        }
    }

    fn distance(&self, from: Decimal, to: Decimal) -> (r: Option<Option<Decimal>>)
        requires
            self.wf(),
            from.wf(),
            to.wf(),
        ensures
            r == self.spec_distance(from, to),
            self.whole_ticks_apart(from, to) ==> (r matches Some(Some(d)) && d.units() == ((
            to.units() - from.units()) / self.step_mag()) * pow10(28)),
            self.whole_ticks_apart(to, from) ==> (r matches Some(Some(d)) && d.units() == -(((
            from.units() - to.units()) / self.step_mag()) * pow10(28))),
            match self {
                TickSize::Simple(step) => step.mantissa != 0 && from.units() != to.units() ==> r
                    == Self::simple_ticks(from, to, *step),
                _ => true,
            },
    {
        if decimal_same(from, to) {
            return Some(Some(zero_decimal()));
        } else if decimal_ge(from, to) {
            return match self.distance_up(to, from) {
                None => None,
                Some(None) => Some(None),
                Some(Some(d)) => Some(Some(decimal_neg(d))),
            };
        }
        self.distance_up(from, to)
    }

    fn distance_up(&self, from: Decimal, to: Decimal) -> (r: Option<Option<Decimal>>)
        requires
            self.wf(),
            from.wf(),
            to.wf(),
        ensures
            r == self.spec_distance_up(from, to),
            r matches Some(Some(d)) ==> d.wf(),
            self.whole_ticks_apart(from, to) ==> (r matches Some(Some(d)) && d.units() == ((
            to.units() - from.units()) / self.step_mag()) * pow10(28)),
            match self {
                TickSize::Simple(step) => step.mantissa != 0 && from.units() != to.units()
                    ==> Self::negated_ticks(r) == Self::simple_ticks(to, from, *step),
                _ => true,
            },
    {
        match self {
            TickSize::Simple(step) => {
                if step.is_zero() {
                    proof {
                        lemma_units_zero(*step);
                    }
                    Some(None)
                } else {
                    proof {
                        lemma_units_zero(*step);
                        if self.whole_ticks_apart(from, to) {
                            lemma_whole_ticks(*step, from, to);
                        }
                    }
                    proof {
                        if from.units() != to.units() {
                            lemma_units_zero(from);
                            lemma_units_zero(to);
                        }
                    }
                    match decimal_checked_sub(to, from) {
                        None => None,
                        Some(diff) => {
                            proof {
                                lemma_neg_parts(diff);
                            }
                            match decimal_checked_div(diff, *step) {
                                None => None,
                                Some(q) => {
                                    proof {
                                        lemma_neg_parts(q);
                                    }
                                    Some(Some(q))
                                },
                            }
                        },
                    }
                }
            },
            TickSize::Varying { thresholds } => {
                let ghost ts = thresholds@;
                let ghost target = self.spec_distance_up(from, to);
                let len = thresholds.len();
                let mut k: usize = len;
                let mut found: Option<Decimal> = None;
                while k > 0
                    invariant_except_break
                        found is None,
                        band_from(ts, from, len - 1) == band_from(ts, from, k - 1),
                    invariant
                        ts == thresholds@,
                        len == ts.len(),
                        thresholds_wf(ts),
                        from.wf(),
                        k <= len,
                    ensures
                        found matches Some(s) ==> k < len && band_from(ts, from, len - 1) == Some(
                            k as int,
                        ) && s == ts[k as int].1,
                        found is None ==> band_from(ts, from, len - 1) is None,
                    decreases k,
                {
                    k -= 1;
                    let (lower, lower_step) = thresholds[k];
                    if decimal_ge(from, lower) {
                        found = Some(lower_step);
                        break ;
                    }
                }
                let mut step = match found {
                    Some(s) => s,
                    None => {
                        return Some(None);
                    },
                };
                let mut next = k + 1;
                let mut price = from;
                let mut ticks = zero_decimal();
                loop
                    invariant
                        ts == thresholds@,
                        len == ts.len(),
                        thresholds_wf(ts),
                        to.wf(),
                        price.wf(),
                        step.wf(),
                        ticks.wf(),
                        next <= len,
                        target == dist_walk(ts, next as int, price, to, step, ticks),
                        target == self.spec_distance_up(from, to),
                        self matches TickSize::Varying { .. },
                        !self.whole_ticks_apart(from, to),
                    decreases len - next,
                {
                    if step.is_zero() {
                        proof {
                            lemma_units_zero(step);
                        }
                        return Some(None);
                    }
                    proof {
                        lemma_units_zero(step);
                    }
                    if next < len {
                        let (upper, next_step) = thresholds[next];
                        if decimal_ge(to, upper) {
                            match segment(ticks, upper, price, step) {
                                None => {
                                    return None;
                                },
                                Some(t) => {
                                    ticks = t;
                                },
                            }
                            price = upper;
                            step = next_step;
                            next += 1;
                        } else {
                            return match segment(ticks, to, price, step) {
                                None => None,
                                Some(t) => Some(Some(t)),
                            };
                        }
                    } else {
                        return match segment(ticks, to, price, step) {
                            None => None,
                            Some(t) => Some(Some(t)),
                        };
                    }
                }
            },
        }
    }

    fn up(&self, price: Decimal, n: i32) -> (r: Option<Decimal>)
        requires
            self.wf(),
            price.wf(),
            n > 0,
            self.moves_fit(price, n as int),
        ensures
            r == self.spec_up(price, n as int),
            r matches Some(q) ==> q.wf(),
    {
        let thresholds = match self {
            TickSize::Simple(step) => {
                proof {
                    lemma_simple_move_fits(*step, price, n as int, true);
                }
                let k = decimal_mul(*step, Decimal::from(n));
                proof {
                    lemma_spec_add(price, k);
                }
                return Some(decimal_add(price, k));
            },
            TickSize::Varying { thresholds } => thresholds,
        };
        if thresholds.len() == 0 {
            return None;
        }
        let ghost ts = thresholds@;
        let ghost target = self.spec_up(price, n as int);
        let len = thresholds.len();
        let mut i = len - 1;
        let mut t_step;
        let mut u_bound;
        loop
            invariant
                ts == thresholds@,
                len == ts.len(),
                0 <= i < len,
                thresholds_wf(ts),
                price.wf(),
                band_from(ts, price, ts.len() - 1) == band_from(ts, price, i as int),
                target == (match band_from(ts, price, ts.len() - 1) {
                    None => None::<Decimal>,
                    Some(j) => Some(walk_up(ts, j, price, n as nat)),
                }),
                target == self.spec_up(price, n as int),
            ensures
                0 <= i < len,
                band_from(ts, price, ts.len() - 1) == Some(i as int),
                t_step == ts[i as int].1,
                u_bound == (if i + 1 < len {
                    Some(ts[i + 1].0)
                } else {
                    None::<Decimal>
                }),
            decreases i,
        {
            let (t_bound, s) = thresholds[i];
            t_step = s;
            u_bound = if i + 1 < len {
                Some(thresholds[i + 1].0)
            } else {
                None
            };
            if decimal_ge(price, t_bound) {
                break ;
            }
            if i == 0 {
                assert(band_from(ts, price, -1) == None::<int>);
                return None;
            }
            i -= 1;
        }
        let ghost i0 = i as int;
        let ghost p0 = price;
        let ghost n0 = n as int;
        let mut cur = price;
        let mut k = n;
        while k > 0
            invariant
                ts == thresholds@,
                len == ts.len(),
                thresholds_wf(ts),
                0 <= i < len,
                0 <= k <= n0,
                t_step == ts[i as int].1,
                u_bound == (if i + 1 < len {
                    Some(ts[i + 1].0)
                } else {
                    None::<Decimal>
                }),
                cur.wf(),
                up_exact(ts, i as int, cur, k as nat),
                walk_up(ts, i0, p0, n0 as nat) == walk_up(ts, i as int, cur, k as nat),
                target == Some(walk_up(ts, i0, p0, n0 as nat)),
                target == self.spec_up(price, n as int),
            decreases k,
        {
            proof {
                lemma_spec_add(cur, t_step);
            }
            cur = decimal_add(cur, t_step);
            match u_bound {
                Some(u) => {
                    if decimal_ge(cur, u) {
                        i += 1;
                        t_step = thresholds[i].1;
                        u_bound = if i + 1 < len {
                            Some(thresholds[i + 1].0)
                        } else {
                            None
                        };
                    }
                },
                None => {},
            }
            k -= 1;
        }
        Some(cur)
    }

    fn down(&self, price: Decimal, n: i32) -> (r: Option<Decimal>)
        requires
            self.wf(),
            price.wf(),
            n > 0,
            self.moves_fit(price, -n),
        ensures
            r == self.spec_down(price, n as int),
            r matches Some(q) ==> q.wf(),
    {
        let thresholds = match self {
            TickSize::Simple(step) => {
                proof {
                    assert((-n) * step.units() == -(n * step.units())) by (nonlinear_arith);
                    lemma_simple_move_fits(*step, price, n as int, false);
                }
                let k = decimal_mul(*step, Decimal::from(n));
                proof {
                    lemma_spec_sub(price, k);
                }
                return Some(decimal_sub(price, k));
            },
            TickSize::Varying { thresholds } => thresholds,
        };
        if thresholds.len() == 0 {
            return None;
        }
        let ghost ts = thresholds@;
        let ghost target = self.spec_down(price, n as int);
        let len = thresholds.len();
        let mut i = len - 1;
        let mut t_bound;
        let mut t_step;
        loop
            invariant
                ts == thresholds@,
                len == ts.len(),
                0 <= i < len,
                thresholds_wf(ts),
                price.wf(),
                band_from(ts, price, ts.len() - 1) == band_from(ts, price, i as int),
                target == (match band_from(ts, price, ts.len() - 1) {
                    None => None::<Decimal>,
                    Some(j) => walk_down(ts, j, price, n as nat),
                }),
                target == self.spec_down(price, n as int),
            ensures
                0 <= i < len,
                band_from(ts, price, ts.len() - 1) == Some(i as int),
                t_bound == ts[i as int].0,
                t_step == ts[i as int].1,
            decreases i,
        {
            let (b, s) = thresholds[i];
            t_bound = b;
            t_step = s;
            if decimal_ge(price, t_bound) {
                break ;
            }
            if i == 0 {
                assert(band_from(ts, price, -1) == None::<int>);
                return None;
            }
            i -= 1;
        }
        let ghost i0 = i as int;
        let ghost p0 = price;
        let ghost n0 = n as int;
        let mut cur = price;
        let mut k = n;
        while k > 0
            invariant
                ts == thresholds@,
                len == ts.len(),
                thresholds_wf(ts),
                0 <= i < len,
                0 <= k <= n0,
                t_bound == ts[i as int].0,
                t_step == ts[i as int].1,
                cur.wf(),
                down_exact(ts, i as int, cur, k as nat),
                walk_down(ts, i0, p0, n0 as nat) == walk_down(ts, i as int, cur, k as nat),
                target == walk_down(ts, i0, p0, n0 as nat),
                target == self.spec_down(price, n as int),
            decreases k,
        {
            if decimal_same(cur, t_bound) {
                if i == 0 {
                    return None;
                }
                i -= 1;
                let (b, s) = thresholds[i];
                t_bound = b;
                t_step = s;
            }
            proof {
                lemma_spec_sub(cur, t_step);
            }
            cur = decimal_sub(cur, t_step);
            k -= 1;
        }
        Some(cur)
    }
}

/// Scanning the thresholds from index `j` with tick size `cur`: each
/// threshold that `p` reaches replaces the tick size by its own, and the scan
/// stops at the first threshold above `p`.
pub open spec fn varying_tick(ts: Thresholds, p: Decimal, j: int, cur: Decimal) -> Decimal
    decreases ts.len() - j,
{
    if j < 0 || j >= ts.len() {
        cur
    } else if p.units() >= ts[j].0.units() {
        varying_tick(ts, p, j + 1, ts[j].1)
    } else {
        cur
    }
}

/// Rounding `p` up onto the ticks of size `t`: the remainder of `p` by `t`
/// (with the sign of `p`) is removed, and a positive remainder also adds one
/// tick.  A zero tick size has no ticks.
pub open spec fn spec_round_up_with(t: Decimal, p: Decimal) -> Option<Decimal> {
    if t.mantissa == 0 {
        None
    } else {
        let r = spec_rem(p, t);
        if r.mantissa == 0 {
            Some(p)
        } else if r.units() > 0 {
            Some(spec_add(spec_sub(p, r), t))
        } else {
            Some(spec_sub(p, r))
        }
    }
}

/// Rounding `p` down onto the ticks of size `t`: the remainder is removed,
/// and a negative remainder also subtracts one tick.
pub open spec fn spec_round_down_with(t: Decimal, p: Decimal) -> Option<Decimal> {
    if t.mantissa == 0 {
        None
    } else {
        let r = spec_rem(p, t);
        if r.mantissa == 0 {
            Some(p)
        } else if r.units() > 0 {
            Some(spec_sub(p, r))
        } else {
            Some(spec_sub(spec_sub(p, r), t))
        }
    }
}

/// Rounding with tick `t` stays exact: the price plus one tick fits at the
/// larger scale of the two.
pub open spec fn round_fits(t: Decimal, p: Decimal) -> bool {
    abs(p.units()) + abs(t.units()) < room(scale_max(p.scale, t.scale))
}

/// Round `price` up onto the ticks of size `tick_size`.
fn round_up_with(tick_size: Decimal, price: Decimal) -> (r: Option<Decimal>)
    requires
        tick_size.wf(),
        price.wf(),
        round_fits(tick_size, price),
    ensures
        r == spec_round_up_with(tick_size, price),
        r matches Some(q) ==> q.wf(),
{
    if tick_size.is_zero() {
        proof {
            lemma_units_zero(tick_size);
        }
        return None;
    }
    proof {
        lemma_units_zero(tick_size);
        lemma_rounding_steps(tick_size, price);
    }
    let remainder = decimal_rem(price, tick_size);
    if remainder.is_zero() {
        proof {
            lemma_units_zero(remainder);
        }
        // Already on a tick
        Some(price)
    } else if decimal_gt_zero(remainder) {
        proof {
            lemma_units_zero(remainder);
        }
        // Positive remainder: round up to next tick
        let base = decimal_sub(price, remainder);
        proof {
            lemma_spec_add(base, tick_size);
        }
        Some(decimal_add(base, tick_size))
    } else {
        proof {
            lemma_units_zero(remainder);
        }
        // Negative remainder: already rounded up
        proof {
            lemma_spec_sub(price, remainder);
        }
        Some(decimal_sub(price, remainder))
    }
}

/// Round `price` down onto the ticks of size `tick_size`.
fn round_down_with(tick_size: Decimal, price: Decimal) -> (r: Option<Decimal>)
    requires
        tick_size.wf(),
        price.wf(),
        round_fits(tick_size, price),
    ensures
        r == spec_round_down_with(tick_size, price),
        r matches Some(q) ==> q.wf(),
{
    if tick_size.is_zero() {
        proof {
            lemma_units_zero(tick_size);
        }
        return None;
    }
    proof {
        lemma_units_zero(tick_size);
        lemma_rounding_steps(tick_size, price);
    }
    let remainder = decimal_rem(price, tick_size);
    if remainder.is_zero() {
        proof {
            lemma_units_zero(remainder);
        }
        // Already on a tick
        Some(price)
    } else if decimal_gt_zero(remainder) {
        proof {
            lemma_units_zero(remainder);
        }
        // Positive remainder: round down
        proof {
            lemma_spec_sub(price, remainder);
        }
        Some(decimal_sub(price, remainder))
    } else {
        proof {
            lemma_units_zero(remainder);
        }
        // Negative remainder: need to go down one more tick
        let base = decimal_sub(price, remainder);
        proof {
            lemma_spec_sub(base, tick_size);
        }
        Some(decimal_sub(base, tick_size))
    }
}

/// `ticks + (hi - lo) / step`, or `None` where `rust_decimal` overflows.
fn segment(ticks: Decimal, hi: Decimal, lo: Decimal, step: Decimal) -> (r: Option<Decimal>)
    requires
        ticks.wf(),
        hi.wf(),
        lo.wf(),
        step.wf(),
    ensures
        r == dist_segment(ticks, hi, lo, step),
        r matches Some(d) ==> d.wf(),
{
    match decimal_checked_sub(hi, lo) {
        None => None,
        Some(diff) => match decimal_checked_div(diff, step) {
            None => None,
            Some(q) => decimal_checked_add(ticks, q),
        },
    }
}

/// `d > 0` on values.
fn decimal_gt_zero(d: Decimal) -> (r: bool)
    requires
        d.wf(),
    ensures
        r == (d.units() > 0),
{
    !decimal_ge(zero_decimal(), d)
}

/// The decimal zero.
fn zero_decimal() -> (r: Decimal)
    ensures
        r == zero(),
        r.wf(),
        r.units() == 0,
{
    let r = Decimal::new(0, 0);
    proof {
        lemma_units_zero(r);
    }
    r
}

/// Every step of rounding `p` onto ticks of size `t` is exact.
pub proof fn lemma_rounding_steps(t: Decimal, p: Decimal)
    requires
        t.wf(),
        p.wf(),
        t.mantissa != 0,
        round_fits(t, p),
    ensures
        fits(p.units(), scale_max(p.scale, t.scale) as nat),
        spec_rem(p, t).wf(),
        spec_rem(p, t).units() == trunc_rem(p.units(), t.units()),
        spec_rem(p, t).scale <= scale_max(p.scale, t.scale),
        fits(p.units() - spec_rem(p, t).units(), scale_max(p.scale, spec_rem(p, t).scale) as nat),
        spec_rem(p, t).mantissa != 0 ==> {
            let b = spec_sub(p, spec_rem(p, t));
            &&& b.wf()
            &&& b.units() == p.units() - spec_rem(p, t).units()
            &&& fits(b.units() + t.units(), scale_max(b.scale, t.scale) as nat)
            &&& fits(b.units() - t.units(), scale_max(b.scale, t.scale) as nat)
        },
{
    let s = scale_max(p.scale, t.scale);
    let up = p.units();
    let ut = t.units();
    lemma_units_zero(t);
    lemma_units_multiple(p, s as nat);
    lemma_units_multiple(t, s as nat);
    lemma_room_mono(p.scale, s);
    lemma_pow10_pos((28 - s) as nat);
    let ps = pow10((28 - s) as nat);
    assert(abs(up) < room(s));
    let tr = trunc_rem(up, ut);
    lemma_trunc_rem(up, ut, ps);
    let r = spec_rem(p, t);
    lemma_units_zero(p);
    if p.mantissa == 0 || abs(up) == abs(ut) {
        assert(tr == 0) by {
            if abs(up) == abs(ut) && up != 0 {
                vstd::arithmetic::div_mod::lemma_mod_self_0(abs(ut));
                if up < 0 {
                    assert(-up == abs(ut));
                }
            }
        }
        assert(r == zero());
        lemma_units_zero(r);
    } else if abs(up) < abs(ut) {
        assert(r == p);
        assert(tr == up) by {
            if up >= 0 {
                vstd::arithmetic::div_mod::lemma_small_mod(up as nat, abs(ut) as nat);
            } else {
                vstd::arithmetic::div_mod::lemma_small_mod((-up) as nat, abs(ut) as nat);
            }
        }
    } else {
        lemma_at_scale(tr, s);
    }
    assert(r.units() == tr);
    assert(r.scale <= s);
    let ms = scale_max(p.scale, r.scale);
    lemma_room_mono(ms, s);
    lemma_pow10_pos((28 - ms) as nat);
    lemma_units_multiple(p, ms as nat);
    lemma_units_multiple(r, ms as nat);
    lemma_multiple_add(up, tr, pow10((28 - ms) as nat));
    assert(abs(up - tr) <= abs(up));
    if r.mantissa != 0 {
        lemma_spec_sub(p, r);
        let b = spec_sub(p, r);
        let bs = scale_max(b.scale, t.scale);
        lemma_room_mono(bs, s);
        lemma_pow10_pos((28 - bs) as nat);
        lemma_units_multiple(b, bs as nat);
        lemma_units_multiple(t, bs as nat);
        lemma_multiple_add(b.units(), ut, pow10((28 - bs) as nat));
    }
}

/// The truncated remainder keeps the sign of the dividend, is smaller in
/// magnitude than both operands, and leaves a multiple of `ps` when both
/// operands are multiples of it.
pub proof fn lemma_trunc_rem(x: int, y: int, ps: int)
    requires
        y != 0,
        ps >= 1,
        x % ps == 0,
        y % ps == 0,
    ensures
        abs(trunc_rem(x, y)) < abs(y),
        abs(trunc_rem(x, y)) <= abs(x),
        x >= 0 ==> trunc_rem(x, y) >= 0,
        x < 0 ==> trunc_rem(x, y) <= 0,
        trunc_rem(x, y) % ps == 0,
        (x - trunc_rem(x, y)) % abs(y) == 0,
{
    let ay = abs(y);
    let ax = abs(x);
    vstd::arithmetic::div_mod::lemma_fundamental_div_mod(ax, ay);
    vstd::arithmetic::div_mod::lemma_mod_bound(ax, ay);
    let q = ax / ay;
    let m = ax % ay;
    assert(ax == ay * q + m);
    assert(q >= 0) by {
        vstd::arithmetic::div_mod::lemma_div_pos_is_pos(ax, ay);
    }
    assert(m <= ax) by (nonlinear_arith)
        requires
            ax == ay * q + m,
            q >= 0,
            ay >= 1,
            m >= 0,
    ;
    // multiples of ps
    assert(ax % ps == 0) by {
        if x < 0 {
            vstd::arithmetic::div_mod::lemma_fundamental_div_mod(x, ps);
            let k = x / ps;
            assert(ax == ps * (-k)) by (nonlinear_arith)
                requires
                    x == ps * k + 0,
                    ax == -x,
            ;
            vstd::arithmetic::div_mod::lemma_mod_multiples_basic(-k, ps);
            assert((-k) * ps == ps * (-k)) by (nonlinear_arith);
        }
    }
    assert(ay % ps == 0) by {
        if y < 0 {
            vstd::arithmetic::div_mod::lemma_fundamental_div_mod(y, ps);
            let k = y / ps;
            assert(ay == ps * (-k)) by (nonlinear_arith)
                requires
                    y == ps * k + 0,
                    ay == -y,
            ;
            vstd::arithmetic::div_mod::lemma_mod_multiples_basic(-k, ps);
            assert((-k) * ps == ps * (-k)) by (nonlinear_arith);
        }
    }
    vstd::arithmetic::div_mod::lemma_fundamental_div_mod(ay, ps);
    let ky = ay / ps;
    vstd::arithmetic::div_mod::lemma_fundamental_div_mod(ax, ps);
    let kx = ax / ps;
    assert(m == ps * (kx - ky * q)) by (nonlinear_arith)
        requires
            ax == ay * q + m,
            ax == ps * kx,
            ay == ps * ky,
    ;
    vstd::arithmetic::div_mod::lemma_mod_multiples_basic(kx - ky * q, ps);
    assert((kx - ky * q) * ps == ps * (kx - ky * q)) by (nonlinear_arith);
    assert(m % ps == 0);
    assert((-m) % ps == 0) by {
        vstd::arithmetic::div_mod::lemma_mod_multiples_basic(-(kx - ky * q), ps);
        assert((-(kx - ky * q)) * ps == -m) by (nonlinear_arith)
            requires
                m == ps * (kx - ky * q),
        ;
    }
    // x - trunc_rem(x, y) is a multiple of y
    let sq = if (x >= 0) == (y > 0) {
        q
    } else {
        -q
    };
    assert(x - trunc_rem(x, y) == y * sq) by (nonlinear_arith)
        requires
            ax == ay * q + m,
            ax == abs(x),
            ay == abs(y),
            trunc_rem(x, y) == (if x >= 0 {
                m
            } else {
                -m
            }),
            sq == (if (x >= 0) == (y > 0) {
                q
            } else {
                -q
            }),
            y != 0,
    ;
    let sq2 = if y > 0 {
        sq
    } else {
        -sq
    };
    assert(y * sq == sq2 * ay) by (nonlinear_arith)
        requires
            ay == abs(y),
            sq2 == (if y > 0 {
                sq
            } else {
                -sq
            }),
    ;
    vstd::arithmetic::div_mod::lemma_mod_multiples_basic(sq2, ay);
}

/// `ticks + (hi - lo) / step` computed with the checked operations of
/// `rust_decimal`; `None` where one of them overflows.
pub open spec fn dist_segment(ticks: Decimal, hi: Decimal, lo: Decimal, step: Decimal) -> Option<
    Decimal,
> {
    match checked_difference(hi, lo) {
        None => None,
        Some(diff) => match checked_quotient(diff, step) {
            None => None,
            Some(q) => checked_sum(ticks, q),
        },
    }
}

/// Counting ticks from `price` up to `to`, with tick size `step` until the
/// threshold at index `next`: each threshold that `to` reaches adds the ticks
/// up to it and switches to its tick size; the rest of the way is counted
/// with the current tick size.  A zero tick size has no ticks (`Some(None)`);
/// an overflow gives `None`.
pub open spec fn dist_walk(
    ts: Thresholds,
    next: int,
    price: Decimal,
    to: Decimal,
    step: Decimal,
    ticks: Decimal,
) -> Option<Option<Decimal>>
    decreases ts.len() - next,
{
    if step.mantissa == 0 {
        Some(None)
    } else if next < 0 || next >= ts.len() || to.units() < ts[next].0.units() {
        match dist_segment(ticks, to, price, step) {
            None => None,
            Some(t) => Some(Some(t)),
        }
    } else {
        match dist_segment(ticks, ts[next].0, price, step) {
            None => None,
            Some(t) => dist_walk(ts, next + 1, ts[next].0, to, ts[next].1, t),
        }
    }
}

/// The room at a scale grows as the scale shrinks.
pub proof fn lemma_room_mono(a: u32, b: u32)
    requires
        a <= b <= 28,
    ensures
        room(b) <= room(a),
        pow10((28 - b) as nat) <= pow10((28 - a) as nat),
{
    lemma_pow10_add((28 - b) as nat, (b - a) as nat);
    assert((28 - b) as nat + (b - a) as nat == (28 - a) as nat);
    lemma_pow10_pos((28 - b) as nat);
    lemma_pow10_pos((b - a) as nat);
    assert(pow10((28 - b) as nat) <= pow10((28 - a) as nat)) by (nonlinear_arith)
        requires
            pow10((28 - a) as nat) == pow10((28 - b) as nat) * pow10((b - a) as nat),
            pow10((28 - b) as nat) >= 1,
            pow10((b - a) as nat) >= 1,
    ;
    assert(room(b) <= room(a)) by (nonlinear_arith)
        requires
            pow10((28 - b) as nat) <= pow10((28 - a) as nat),
            room(b) == mantissa_limit() * pow10((28 - b) as nat),
            room(a) == mantissa_limit() * pow10((28 - a) as nat),
    ;
}

/// The product of a simple tick size and a tick count is exact, and so is
/// moving the price by it.
pub proof fn lemma_simple_move_fits(step: Decimal, price: Decimal, n: int, up: bool)
    requires
        step.wf(),
        price.wf(),
        n > 0,
        n <= 0x7fff_ffff,
        abs(n) * abs(step.units()) < room(step.scale),
        up ==> abs(price.units() + n * step.units()) < room(scale_max(price.scale, step.scale)),
        !up ==> abs(price.units() - n * step.units()) < room(scale_max(price.scale, step.scale)),
    ensures
        abs(step.mantissa * n) < mantissa_limit(),
        spec_mul(step, int_decimal(n)).wf(),
        spec_mul(step, int_decimal(n)).units() == step.units() * n,
        spec_mul(step, int_decimal(n)).scale <= step.scale,
        up ==> fits(
            price.units() + spec_mul(step, int_decimal(n)).units(),
            scale_max(price.scale, spec_mul(step, int_decimal(n)).scale) as nat,
        ),
        !up ==> fits(
            price.units() - spec_mul(step, int_decimal(n)).units(),
            scale_max(price.scale, spec_mul(step, int_decimal(n)).scale) as nat,
        ),
{
    let s = scale_max(price.scale, step.scale);
    let ps = pow10((28 - step.scale) as nat);
    lemma_pow10_pos((28 - step.scale) as nat);
    assert(abs(step.mantissa * n) < mantissa_limit()) by (nonlinear_arith)
        requires
            abs(n) * abs(step.units()) < mantissa_limit() * ps,
            step.units() == step.mantissa * ps,
            ps >= 1,
            n > 0,
    ;
    let k = spec_mul(step, int_decimal(n));
    if step.mantissa == 0 {
        lemma_units_zero(step);
        assert(k == zero());
        assert(zero().units() == 0);
        assert(step.units() * n == 0) by (nonlinear_arith)
            requires
                step.units() == 0,
        ;
    } else {
        assert(k.mantissa == step.mantissa * n);
        assert(k.units() == step.units() * n) by (nonlinear_arith)
            requires
                k.units() == k.mantissa * ps,
                k.mantissa == step.mantissa * n,
                step.units() == step.mantissa * ps,
        ;
    }
    assert(abs(k.units()) == abs(n) * abs(step.units())) by (nonlinear_arith)
        requires
            k.units() == step.units() * n,
            n > 0,
    ;
    lemma_result_fits(price, k, s, up);
}

/// A price moved by an amount fits where the result is within the room of a
/// scale at least that of both.
pub proof fn lemma_result_fits(p: Decimal, t: Decimal, s: u32, up: bool)
    requires
        p.wf(),
        t.wf(),
        p.scale <= s,
        t.scale <= s,
        s <= 28,
        up ==> abs(p.units() + t.units()) < room(s),
        !up ==> abs(p.units() - t.units()) < room(s),
    ensures
        up ==> fits(p.units() + t.units(), scale_max(p.scale, t.scale) as nat),
        !up ==> fits(p.units() - t.units(), scale_max(p.scale, t.scale) as nat),
{
    let ms = scale_max(p.scale, t.scale);
    lemma_room_mono(ms, s);
    lemma_pow10_pos((28 - ms) as nat);
    lemma_units_multiple(p, ms as nat);
    lemma_units_multiple(t, ms as nat);
    lemma_multiple_add(p.units(), t.units(), pow10((28 - ms) as nat));
}


/// Incrementing by a negative count is decrementing by its magnitude, and
/// the other way round.
pub proof fn law_increment_negative_is_decrement(tick: TickSize, price: Decimal, n: int)
    ensures
        tick.spec_increment(price, -n) == tick.spec_decrement(price, n),
        tick.spec_decrement(price, -n) == tick.spec_increment(price, n),
{
}

/// With a simple tick size, moving `n` ticks up and then `n` ticks down
/// returns to the starting value, and moving up changes the value by `n`
/// tick sizes.
pub proof fn law_simple_round_trip(step: Decimal, price: Decimal, n: int)
    requires
        step.wf(),
        price.wf(),
        0 < n <= 0x7fff_ffff,
        TickSize::Simple(step).moves_fit(price, n),
        abs(price.units()) < room(scale_max(price.scale, step.scale)),
    ensures
        ({
            let tick = TickSize::Simple(step);
            let up = tick.spec_increment(price, n).unwrap();
            &&& up.units() == price.units() + n * step.units()
            &&& tick.spec_decrement(up, n).unwrap().units() == price.units()
        }),
{
    let s = scale_max(price.scale, step.scale);
    assert(abs(n) == n);
    lemma_simple_move_fits(step, price, n, true);
    let k = spec_mul(step, int_decimal(n));
    lemma_spec_add(price, k);
    let up = spec_add(price, k);
    assert(up.units() == price.units() + n * step.units()) by (nonlinear_arith)
        requires
            up.units() == price.units() + k.units(),
            k.units() == step.units() * n,
    ;
    let s2 = scale_max(up.scale, step.scale);
    assert(up.scale <= s);
    lemma_room_mono(s2, s);
    assert(up.units() - n * step.units() == price.units());
    lemma_simple_move_fits(step, up, n, false);
    lemma_spec_sub(up, k);
}

/// Rounding up with a positive tick size gives the smallest multiple of the
/// tick size at or above the price; rounding down gives the largest at or
/// below it.
pub proof fn law_round_onto_ticks(tick: TickSize, price: Decimal)
    requires
        tick.wf(),
        price.wf(),
        tick.rounding_fits(price),
        tick.tick_for(price) matches Some(t) && t.units() > 0,
    ensures
        ({
            let t = tick.tick_for(price).unwrap();
            let up = tick.spec_round_up(price).unwrap();
            let down = tick.spec_round_down(price).unwrap();
            &&& tick.spec_round_up(price) is Some
            &&& tick.spec_round_down(price) is Some
            &&& price.units() <= up.units() < price.units() + t.units()
            &&& price.units() - t.units() < down.units() <= price.units()
            &&& up.units() % t.units() == 0
            &&& down.units() % t.units() == 0
        }),
{
    let t = tick.tick_for(price).unwrap();
    lemma_tick_for_wf(tick, price);
    lemma_units_zero(t);
    lemma_rounding_steps(t, price);
    let up = price.units();
    let ut = t.units();
    let r = spec_rem(price, t);
    let s = scale_max(price.scale, t.scale);
    lemma_pow10_pos((28 - s) as nat);
    lemma_units_multiple(price, s as nat);
    lemma_units_multiple(t, s as nat);
    lemma_trunc_rem(up, ut, pow10((28 - s) as nat));
    assert(abs(ut) == ut);
    lemma_units_zero(r);
    if r.mantissa == 0 {
    } else if r.units() > 0 {
        lemma_spec_add(spec_sub(price, r), t);
        lemma_spec_sub(price, r);
        let b = up - r.units();
        vstd::arithmetic::div_mod::lemma_fundamental_div_mod(b, ut);
        vstd::arithmetic::div_mod::lemma_mod_multiples_basic(b / ut + 1, ut);
        assert((b / ut + 1) * ut == b + ut) by (nonlinear_arith)
            requires
                b == ut * (b / ut) + 0,
        ;
    } else {
        lemma_spec_sub(price, r);
        lemma_spec_sub(spec_sub(price, r), t);
        let b = up - r.units();
        vstd::arithmetic::div_mod::lemma_fundamental_div_mod(b, ut);
        vstd::arithmetic::div_mod::lemma_mod_multiples_basic(b / ut - 1, ut);
        assert((b / ut - 1) * ut == b - ut) by (nonlinear_arith)
            requires
                b == ut * (b / ut) + 0,
        ;
    }
}

/// The tick size that applies to a price is well formed.
pub proof fn lemma_tick_for_wf(tick: TickSize, price: Decimal)
    requires
        tick.wf(),
    ensures
        tick.tick_for(price) matches Some(t) ==> t.wf(),
{
    if let TickSize::Varying { thresholds } = tick {
        let ts = thresholds@;
        if ts.len() > 0 {
            lemma_varying_tick_wf(ts, price, 0, ts[0].1);
        }
    }
}

pub proof fn lemma_varying_tick_wf(ts: Thresholds, p: Decimal, j: int, cur: Decimal)
    requires
        thresholds_wf(ts),
        cur.wf(),
    ensures
        varying_tick(ts, p, j, cur).wf(),
    decreases ts.len() - j,
{
    if 0 <= j < ts.len() && p.units() >= ts[j].0.units() {
        lemma_varying_tick_wf(ts, p, j + 1, ts[j].1);
    }
}

/// Rounding up and rounding down give the same price exactly when the
/// price is already on a tick.
pub proof fn law_round_same_iff_on_tick(tick: TickSize, price: Decimal)
    requires
        tick.wf(),
        price.wf(),
        tick.rounding_fits(price),
        tick.tick_for(price) matches Some(t) && t.units() > 0,
    ensures
        (tick.spec_round_up(price).unwrap().units() == tick.spec_round_down(price).unwrap().units())
            <==> price.units() % tick.tick_for(price).unwrap().units() == 0,
{
    law_round_onto_ticks(tick, price);
    let t = tick.tick_for(price).unwrap().units();
    let u = tick.spec_round_up(price).unwrap().units();
    let d = tick.spec_round_down(price).unwrap().units();
    let p = price.units();
    if p % t == 0 {
        vstd::arithmetic::div_mod::lemma_fundamental_div_mod(u, t);
        vstd::arithmetic::div_mod::lemma_fundamental_div_mod(d, t);
        vstd::arithmetic::div_mod::lemma_fundamental_div_mod(p, t);
        let qu = u / t;
        let qd = d / t;
        let qp = p / t;
        assert(qu == qp) by (nonlinear_arith)
            requires
                u == t * qu,
                p == t * qp,
                p <= u < p + t,
                t > 0,
        ;
        assert(qd == qp) by (nonlinear_arith)
            requires
                d == t * qd,
                p == t * qp,
                p - t < d <= p,
                t > 0,
        ;
    }
}

/// The signed tick distance from a price to itself is zero, and swapping
/// two different prices changes the sign of the distance between them.
pub proof fn law_distance_antisymmetric(tick: TickSize, a: Decimal, b: Decimal)
    requires
        a.units() < b.units(),
    ensures
        tick.spec_distance(a, a) == Some(Some(zero())),
        tick.spec_distance(b, a) == (match tick.spec_distance(a, b) {
            None => None,
            Some(None) => Some(None),
            Some(Some(d)) => Some(Some(spec_neg(d))),
        }),
{
}

/// Changing the sign of a decimal twice gives it back, and the sign change
/// of its parts is the parts of its sign change.
pub proof fn lemma_neg_parts(d: Decimal)
    requires
        d.wf(),
    ensures
        parts_decimal(negated_parts(Some(d))) == Some(spec_neg(d)),
        spec_neg(d).mantissa as int == -(d.mantissa as int),
        spec_neg(d).wf(),
        spec_neg(spec_neg(d)) == d,
{
}

/// The difference of two prices a whole number of ticks apart is exact, and
/// so is its quotient by the tick size.
pub proof fn lemma_whole_ticks(step: Decimal, from: Decimal, to: Decimal)
    requires
        step.wf(),
        from.wf(),
        to.wf(),
        TickSize::Simple(step).whole_ticks_apart(from, to),
    ensures
        fits(to.units() - from.units(), scale_max(to.scale, from.scale) as nat),
        spec_sub(to, from).wf(),
        spec_sub(to, from).units() == to.units() - from.units(),
        step.mantissa != 0,
        abs((to.units() - from.units()) / step.units()) < mantissa_limit(),
{
    let s = scale_max(to.scale, from.scale);
    lemma_pow10_pos((28 - s) as nat);
    lemma_units_multiple(to, s as nat);
    lemma_units_multiple(from, s as nat);
    lemma_multiple_add(to.units(), from.units(), pow10((28 - s) as nat));
    lemma_spec_sub(to, from);
    lemma_units_zero(step);
    let q = (to.units() - from.units()) / step.units();
    vstd::arithmetic::div_mod::lemma_fundamental_div_mod(to.units() - from.units(), step.units());
    assert(q > 0) by (nonlinear_arith)
        requires
            to.units() - from.units() == step.units() * q + 0,
            step.units() >= 1,
            to.units() - from.units() > 0,
    ;
}

/// Information about a symbol related to its execution route.
#[derive(Clone, Debug)]
pub struct ExecutionInfo {
    pub execution_venue: ExecutionVenue,
    /// If the execution venue has stable symbology, this may be populated
    pub exchange_symbol: Option<String>,
    pub tick_size: TickSize,
    pub step_size: Decimal,
    pub min_order_quantity: Decimal,
    pub min_order_quantity_unit: MinOrderQuantityUnit,
    pub is_delisted: bool,
    pub initial_margin: Option<Decimal>,
    pub maintenance_margin: Option<Decimal>,
}

/// The unit a minimum order quantity is counted in.
#[derive(Debug, Clone, Copy, PartialEq, Eq, Structural, Hash)]
pub enum MinOrderQuantityUnit {
    Base,
    Quote,
}

impl Default for MinOrderQuantityUnit {
    fn default() -> (r: Self)
        ensures
            r == MinOrderQuantityUnit::Base,
    {
        MinOrderQuantityUnit::Base
    }
}

impl MinOrderQuantityUnit {
    /// The unit's name, "base" or "quote".
    pub fn as_str(&self) -> (r: &'static str)
        ensures
            r@ == (match self {
                MinOrderQuantityUnit::Base => "base"@,
                MinOrderQuantityUnit::Quote => "quote"@,
            }),
    {
        match self {
            MinOrderQuantityUnit::Base => "base",
            MinOrderQuantityUnit::Quote => "quote",
        }
    }
}

} // verus!
