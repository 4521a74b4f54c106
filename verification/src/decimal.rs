//! Fixed-point decimal numbers as `rust_decimal` represents them: a signed
//! 96-bit mantissa and a base-10 scale of at most 28.  Arithmetic is carried
//! out by `rust_decimal` itself; this module states what the operations
//! compute over an exact integer model of each value.
use crate::numfmt::decimal_digits;
use vstd::prelude::*;

verus! {

/// 10 to the power `n`.
pub open spec fn pow10(n: nat) -> int
    decreases n,
{
    if n == 0 {
        1
    } else {
        10 * pow10((n - 1) as nat)
    }
}

/// One more than the largest mantissa magnitude, 2^96.
pub open spec fn mantissa_limit() -> int {
    0x1_0000_0000_0000_0000_0000_0000int
}

/// The largest scale a decimal can have.
pub open spec fn max_scale_value() -> nat {
    28
}

/// A decimal number `mantissa * 10^-scale`.
#[derive(Debug, Clone, Copy)]
pub struct Decimal {
    pub mantissa: i128,
    pub scale: u32,
}

/// The larger of two scales.
pub open spec fn scale_max(a: u32, b: u32) -> u32 {
    if a >= b {
        a
    } else {
        b
    }
}

/// Magnitude of an integer.
pub open spec fn abs(x: int) -> int {
    if x < 0 {
        -x
    } else {
        x
    }
}

/// Whether the value `v` (in units of 10^-28) can be written with the scale
/// `s` and a mantissa that fits in 96 bits.
pub open spec fn fits(v: int, s: nat) -> bool {
    &&& s <= 28
    &&& v % pow10((28 - s) as nat) == 0
    &&& abs(v) < mantissa_limit() * pow10((28 - s) as nat)
}

/// The decimal of scale `s` whose value is `v` units of 10^-28.
pub open spec fn at_scale(v: int, s: u32) -> Decimal {
    Decimal { mantissa: (v / pow10((28 - s) as nat)) as i128, scale: s }
}

/// Remainder of `x` by `y` that keeps the sign of `x`, as Rust's `%` does.
pub open spec fn trunc_rem(x: int, y: int) -> int {
    if x >= 0 {
        x % abs(y)
    } else {
        -((-x) % abs(y))
    }
}

/// The zero decimal of scale 0.
pub open spec fn zero() -> Decimal {
    Decimal { mantissa: 0, scale: 0 }
}

impl Decimal {
    /// The representation is one that `rust_decimal` can hold.
    pub open spec fn wf(self) -> bool {
        &&& self.scale <= 28
        &&& -mantissa_limit() < self.mantissa < mantissa_limit()
    }

    /// The exact value, counted in units of 10^-28.
    pub open spec fn units(self) -> int {
        self.mantissa * pow10((28 - self.scale) as nat)
    }
}

/// `a + b` as `rust_decimal` computes it when no rounding is needed: an
/// operand that is zero yields the other one unchanged, otherwise the exact
/// sum is written at the larger of the two scales.
pub open spec fn spec_add(a: Decimal, b: Decimal) -> Decimal {
    if a.mantissa == 0 {
        b
    } else if b.mantissa == 0 {
        a
    } else {
        at_scale(a.units() + b.units(), scale_max(a.scale, b.scale))
    }
}

/// `-a`: the mantissa changes sign, the scale stays.
pub open spec fn spec_neg(a: Decimal) -> Decimal {
    Decimal { mantissa: (-a.mantissa) as i128, scale: a.scale }
}

/// `a - b` as `rust_decimal` computes it when no rounding is needed.
pub open spec fn spec_sub(a: Decimal, b: Decimal) -> Decimal {
    if a.mantissa == 0 {
        spec_neg(b)
    } else if b.mantissa == 0 {
        a
    } else {
        at_scale(a.units() - b.units(), scale_max(a.scale, b.scale))
    }
}

/// `a * b` as `rust_decimal` computes it when no rounding is needed.
pub open spec fn spec_mul(a: Decimal, b: Decimal) -> Decimal {
    if a.mantissa == 0 || b.mantissa == 0 {
        zero()
    } else {
        Decimal { mantissa: (a.mantissa * b.mantissa) as i128, scale: (a.scale + b.scale) as u32 }
    }
}

/// `a % b` as `rust_decimal` computes it: the remainder keeps the sign of
/// the dividend; equal magnitudes give zero and a smaller dividend is
/// returned unchanged.
pub open spec fn spec_rem(a: Decimal, b: Decimal) -> Decimal {
    if a.mantissa == 0 || abs(a.units()) == abs(b.units()) {
        zero()
    } else if abs(a.units()) < abs(b.units()) {
        a
    } else {
        at_scale(trunc_rem(a.units(), b.units()), scale_max(a.scale, b.scale))
    }
}

/// Sign of `x`: -1, 0 or 1.
pub open spec fn sign(x: int) -> int {
    if x < 0 {
        -1
    } else if x == 0 {
        0
    } else {
        1
    }
}

pub proof fn lemma_pow10_pos(n: nat)
    ensures
        pow10(n) >= 1,
    decreases n,
{
    if n > 0 {
        lemma_pow10_pos((n - 1) as nat);
    }
}

pub proof fn lemma_pow10_add(a: nat, b: nat)
    ensures
        pow10(a + b) == pow10(a) * pow10(b),
    decreases b,
{
    if b > 0 {
        lemma_pow10_add(a, (b - 1) as nat);
        assert(pow10(a + b) == 10 * pow10((a + b - 1) as nat));
        assert(pow10(a) * pow10(b) == pow10(a) * (10 * pow10((b - 1) as nat)));
        assert(pow10(a) * (10 * pow10((b - 1) as nat)) == 10 * (pow10(a) * pow10((b - 1) as nat)))
            by (nonlinear_arith);
    }
}

/// A decimal of scale at most `s` has a value that is a multiple of
/// 10^(28 - s).
pub proof fn lemma_units_multiple(d: Decimal, s: nat)
    requires
        d.scale <= s <= 28,
    ensures
        d.units() % pow10((28 - s) as nat) == 0,
{
    let k = (s - d.scale) as nat;
    let p = pow10((28 - s) as nat);
    lemma_pow10_add((28 - s) as nat, k);
    assert((28 - s) as nat + k == (28 - d.scale) as nat);
    lemma_pow10_pos((28 - s) as nat);
    lemma_pow10_pos(k);
    let q = d.mantissa * pow10(k);
    assert(d.units() == q * p) by (nonlinear_arith)
        requires
            d.units() == d.mantissa * pow10((28 - d.scale) as nat),
            pow10((28 - d.scale) as nat) == p * pow10(k),
            q == d.mantissa * pow10(k),
    ;
    vstd::arithmetic::div_mod::lemma_mod_multiples_basic(q, p);
}

/// A decimal is zero exactly when its mantissa is.
pub proof fn lemma_units_zero(d: Decimal)
    ensures
        (d.units() == 0) == (d.mantissa == 0),
{
    let p = pow10((28 - d.scale) as nat);
    lemma_pow10_pos((28 - d.scale) as nat);
    assert((d.units() == 0) == (d.mantissa == 0)) by (nonlinear_arith)
        requires
            d.units() == d.mantissa * p,
            p >= 1,
    ;
}

/// A well-formed decimal fits at its own scale.
pub proof fn lemma_wf_fits(d: Decimal)
    requires
        d.wf(),
    ensures
        fits(d.units(), d.scale as nat),
{
    let p = pow10((28 - d.scale) as nat);
    lemma_pow10_pos((28 - d.scale) as nat);
    lemma_units_multiple(d, d.scale as nat);
    assert(abs(d.units()) < mantissa_limit() * p) by (nonlinear_arith)
        requires
            d.units() == d.mantissa * p,
            p >= 1,
            -mantissa_limit() < d.mantissa < mantissa_limit(),
    ;
}

/// Writing a value that fits at scale `s` gives a well-formed decimal with
/// that value.
pub proof fn lemma_at_scale(v: int, s: u32)
    requires
        fits(v, s as nat),
    ensures
        at_scale(v, s).wf(),
        at_scale(v, s).units() == v,
        at_scale(v, s).scale == s,
{
    let p = pow10((28 - s) as nat);
    lemma_pow10_pos((28 - s) as nat);
    vstd::arithmetic::div_mod::lemma_fundamental_div_mod(v, p);
    let q = v / p;
    assert(v == p * q);
    assert(-mantissa_limit() < q < mantissa_limit()) by (nonlinear_arith)
        requires
            v == p * q,
            p >= 1,
            abs(v) < mantissa_limit() * p,
    ;
    assert(at_scale(v, s).mantissa == q);
    assert(at_scale(v, s).units() == q * p);
    assert(q * p == p * q) by (nonlinear_arith);
}

/// A value bounded by the room of scale `s` and made of decimals whose
/// scales are at most `s` fits at `s`.
pub proof fn lemma_fits_from_bound(v: int, s: nat)
    requires
        s <= 28,
        v % pow10((28 - s) as nat) == 0,
        abs(v) < mantissa_limit() * pow10((28 - s) as nat),
    ensures
        fits(v, s),
{
}

/// Values that are multiples of the same number stay so under sums and
/// differences.
pub proof fn lemma_multiple_add(x: int, y: int, p: int)
    requires
        p >= 1,
        x % p == 0,
        y % p == 0,
    ensures
        (x + y) % p == 0,
        (x - y) % p == 0,
{
    vstd::arithmetic::div_mod::lemma_fundamental_div_mod(x, p);
    vstd::arithmetic::div_mod::lemma_fundamental_div_mod(y, p);
    let a = x / p;
    let b = y / p;
    assert(x + y == p * (a + b)) by (nonlinear_arith)
        requires
            x == p * a,
            y == p * b,
    ;
    assert(x - y == p * (a - b)) by (nonlinear_arith)
        requires
            x == p * a,
            y == p * b,
    ;
    vstd::arithmetic::div_mod::lemma_mod_multiples_basic(a + b, p);
    vstd::arithmetic::div_mod::lemma_mod_multiples_basic(a - b, p);
    assert((a + b) * p == p * (a + b)) by (nonlinear_arith);
    assert((a - b) * p == p * (a - b)) by (nonlinear_arith);
}

/// The sum is exact and keeps the representation bounded by the larger scale.
pub proof fn lemma_spec_add(a: Decimal, b: Decimal)
    requires
        a.wf(),
        b.wf(),
        fits(a.units() + b.units(), scale_max(a.scale, b.scale) as nat),
    ensures
        spec_add(a, b).wf(),
        spec_add(a, b).units() == a.units() + b.units(),
        spec_add(a, b).scale <= scale_max(a.scale, b.scale),
{
    lemma_pow10_pos((28 - a.scale) as nat);
    lemma_pow10_pos((28 - b.scale) as nat);
    lemma_units_zero(a);
    lemma_units_zero(b);
    if a.mantissa == 0 {
    } else if b.mantissa == 0 {
    } else {
        lemma_at_scale(a.units() + b.units(), scale_max(a.scale, b.scale));
    }
}

/// The difference is exact and keeps the representation bounded by the
/// larger scale.
pub proof fn lemma_spec_sub(a: Decimal, b: Decimal)
    requires
        a.wf(),
        b.wf(),
        fits(a.units() - b.units(), scale_max(a.scale, b.scale) as nat),
    ensures
        spec_sub(a, b).wf(),
        spec_sub(a, b).units() == a.units() - b.units(),
        spec_sub(a, b).scale <= scale_max(a.scale, b.scale),
{
    lemma_pow10_pos((28 - a.scale) as nat);
    lemma_pow10_pos((28 - b.scale) as nat);
    if a.mantissa == 0 {
        lemma_units_zero(a);
        assert(spec_neg(b).units() == -b.units()) by (nonlinear_arith)
            requires
                spec_neg(b).units() == -b.mantissa * pow10((28 - b.scale) as nat),
                b.units() == b.mantissa * pow10((28 - b.scale) as nat),
        ;
    } else if b.mantissa == 0 {
        lemma_units_zero(b);
    } else {
        lemma_at_scale(a.units() - b.units(), scale_max(a.scale, b.scale));
    }
}

/// `rust_decimal::Decimal::add`, the `+` operator, on the two operands
/// rebuilt from their mantissa and scale.  Claims that when the exact sum
/// fits at the larger scale, `rust_decimal` returns a zero operand's partner
/// unchanged and otherwise the exact sum at the larger scale, as its
/// `add_sub_internal` does when no rescaling is needed.
#[verifier::external_body]
pub(crate) fn decimal_add(a: Decimal, b: Decimal) -> (r: Decimal)
    requires
        a.wf(),
        b.wf(),
        fits(a.units() + b.units(), scale_max(a.scale, b.scale) as nat),
    ensures
        r == spec_add(a, b),
{
    let x = rust_decimal::Decimal::from_i128_with_scale(a.mantissa, a.scale);
    let y = rust_decimal::Decimal::from_i128_with_scale(b.mantissa, b.scale);
    let z = x + y;
    Decimal { mantissa: z.mantissa(), scale: z.scale() }
}

/// `rust_decimal::Decimal::sub`, the `-` operator.  Claims the same as for
/// the sum, with `0 - b` giving `b` with its sign changed.
#[verifier::external_body]
pub(crate) fn decimal_sub(a: Decimal, b: Decimal) -> (r: Decimal)
    requires
        a.wf(),
        b.wf(),
        fits(a.units() - b.units(), scale_max(a.scale, b.scale) as nat),
    ensures
        r == spec_sub(a, b),
{
    let x = rust_decimal::Decimal::from_i128_with_scale(a.mantissa, a.scale);
    let y = rust_decimal::Decimal::from_i128_with_scale(b.mantissa, b.scale);
    let z = x - y;
    Decimal { mantissa: z.mantissa(), scale: z.scale() }
}

/// `rust_decimal::Decimal::mul`, the `*` operator.  Claims that a zero
/// operand gives zero of scale 0, and that otherwise, when the scales add up
/// to at most 28 and the product of the mantissas fits in 96 bits, the
/// result is that product at the summed scale, as `mul_impl` computes it
/// without rescaling.
#[verifier::external_body]
pub(crate) fn decimal_mul(a: Decimal, b: Decimal) -> (r: Decimal)
    requires
        a.wf(),
        b.wf(),
        a.scale + b.scale <= 28,
        abs(a.mantissa * b.mantissa) < mantissa_limit(),
    ensures
        r == spec_mul(a, b),
{
    let x = rust_decimal::Decimal::from_i128_with_scale(a.mantissa, a.scale);
    let y = rust_decimal::Decimal::from_i128_with_scale(b.mantissa, b.scale);
    let z = x * y;
    Decimal { mantissa: z.mantissa(), scale: z.scale() }
}

/// `rust_decimal::Decimal::rem`, the `%` operator.  Claims the remainder
/// that `rem_impl` computes: zero for a zero dividend or equal magnitudes,
/// the dividend itself when it is the smaller in magnitude, and otherwise the
/// exact remainder with the dividend's sign at the larger scale.  The divisor
/// must not be zero and the dividend must fit at the larger scale.
#[verifier::external_body]
pub(crate) fn decimal_rem(a: Decimal, b: Decimal) -> (r: Decimal)
    requires
        a.wf(),
        b.wf(),
        b.mantissa != 0,
        fits(a.units(), scale_max(a.scale, b.scale) as nat),
    ensures
        r == spec_rem(a, b),
{
    let x = rust_decimal::Decimal::from_i128_with_scale(a.mantissa, a.scale);
    let y = rust_decimal::Decimal::from_i128_with_scale(b.mantissa, b.scale);
    let z = x % y;
    Decimal { mantissa: z.mantissa(), scale: z.scale() }
}

/// `rust_decimal::Decimal::cmp`, the total order of values.  Claims that the
/// result is the sign of the difference of the two exact values.
#[verifier::external_body]
pub(crate) fn decimal_order(a: Decimal, b: Decimal) -> (r: i8)
    requires
        a.wf(),
        b.wf(),
    ensures
        r == sign(a.units() - b.units()),
{
    let x = rust_decimal::Decimal::from_i128_with_scale(a.mantissa, a.scale);
    let y = rust_decimal::Decimal::from_i128_with_scale(b.mantissa, b.scale);
    match x.cmp(&y) {
        std::cmp::Ordering::Less => -1,
        std::cmp::Ordering::Equal => 0,
        std::cmp::Ordering::Greater => 1,
    }
}

/// Equality of decimals compares their values, so `1.0 == 1.00`.
/// Representations that `rust_decimal` cannot hold compare field by field.
pub open spec fn decimal_eq(a: Decimal, b: Decimal) -> bool {
    if a.wf() && b.wf() {
        a.units() == b.units()
    } else {
        a.mantissa == b.mantissa && a.scale == b.scale
    }
}

/// The decimal with the given mantissa and scale.
pub open spec fn from_parts(parts: (int, int)) -> Decimal {
    Decimal { mantissa: parts.0 as i128, scale: parts.1 as u32 }
}

/// A result given as a decimal, with its sign changed, as a mantissa and a
/// scale.
pub open spec fn negated_parts(r: Option<Decimal>) -> Option<(int, int)> {
    match r {
        Some(d) => Some((-(d.mantissa as int), d.scale as int)),
        None => None,
    }
}

/// What `rust_decimal::Decimal::checked_add` returns for the operands given
/// by their mantissas and scales, as a mantissa and a scale.
pub uninterp spec fn decimal_checked_sum(am: int, ascale: int, bm: int, bscale: int) -> Option<(int, int)>;

/// What `rust_decimal::Decimal::checked_sub` returns for the operands given
/// by their mantissas and scales.
pub uninterp spec fn decimal_checked_difference(am: int, ascale: int, bm: int, bscale: int) -> Option<(int, int)>;

/// What `rust_decimal::Decimal::checked_div` returns for the operands given
/// by their mantissas and scales.
pub uninterp spec fn decimal_checked_quotient(am: int, ascale: int, bm: int, bscale: int) -> Option<(int, int)>;

/// A named result given as a mantissa and a scale, as a decimal.
pub open spec fn parts_decimal(r: Option<(int, int)>) -> Option<Decimal> {
    match r {
        Some(parts) => Some(from_parts(parts)),
        None => None,
    }
}

/// The named result of a checked sum, as a decimal.
pub open spec fn checked_sum(a: Decimal, b: Decimal) -> Option<Decimal> {
    parts_decimal(
        decimal_checked_sum(a.mantissa as int, a.scale as int, b.mantissa as int, b.scale as int),
    )
}

/// The named result of a checked difference, as a decimal.
pub open spec fn checked_difference(a: Decimal, b: Decimal) -> Option<Decimal> {
    parts_decimal(
        decimal_checked_difference(
            a.mantissa as int,
            a.scale as int,
            b.mantissa as int,
            b.scale as int,
        ),
    )
}

/// The named result of a checked quotient, as a decimal.
pub open spec fn checked_quotient(a: Decimal, b: Decimal) -> Option<Decimal> {
    parts_decimal(
        decimal_checked_quotient(a.mantissa as int, a.scale as int, b.mantissa as int, b.scale as int),
    )
}

/// `rust_decimal::Decimal::checked_add`.  Returns the named result; claims
/// that a result is always a decimal `rust_decimal` can hold, and that when
/// the exact sum fits at the larger scale the result is the one `+` gives
/// without rounding (see `decimal_add`).
#[verifier::external_body]
pub(crate) fn decimal_checked_add(a: Decimal, b: Decimal) -> (r: Option<Decimal>)
    requires
        a.wf(),
        b.wf(),
    ensures
        r == parts_decimal(
            decimal_checked_sum(a.mantissa as int, a.scale as int, b.mantissa as int, b.scale as int),
        ),
        r.is_some() ==> r.unwrap().wf(),
        fits(a.units() + b.units(), scale_max(a.scale, b.scale) as nat) ==> (r == Some(
            spec_add(a, b),
        )),
{
    let x = rust_decimal::Decimal::from_i128_with_scale(a.mantissa, a.scale);
    let y = rust_decimal::Decimal::from_i128_with_scale(b.mantissa, b.scale);
    x.checked_add(y).map(|z| Decimal { mantissa: z.mantissa(), scale: z.scale() })
}

/// `rust_decimal::Decimal::checked_sub`.  Returns the named result; claims
/// that a result is always a decimal `rust_decimal` can hold, and that when
/// the exact difference fits at the larger scale the result is the one `-`
/// gives without rounding (see `decimal_sub`).  Also claims that, unless
/// both operands are zero, `b - a` is `a - b` with its sign changed:
/// `add_sub_internal` works on the magnitudes with the same operand
/// rescaled in either order and sets the sign last, so the magnitude, the
/// scale and any overflow are the same both ways.
#[verifier::external_body]
pub(crate) fn decimal_checked_sub(a: Decimal, b: Decimal) -> (r: Option<Decimal>)
    requires
        a.wf(),
        b.wf(),
    ensures
        r == parts_decimal(
            decimal_checked_difference(a.mantissa as int, a.scale as int, b.mantissa as int, b.scale as int),
        ),
        r.is_some() ==> r.unwrap().wf(),
        fits(a.units() - b.units(), scale_max(a.scale, b.scale) as nat) ==> (r == Some(
            spec_sub(a, b),
        )),
        a.mantissa != 0 || b.mantissa != 0 ==> decimal_checked_difference(
            b.mantissa as int,
            b.scale as int,
            a.mantissa as int,
            a.scale as int,
        ) == negated_parts(r),
{
    let x = rust_decimal::Decimal::from_i128_with_scale(a.mantissa, a.scale);
    let y = rust_decimal::Decimal::from_i128_with_scale(b.mantissa, b.scale);
    x.checked_sub(y).map(|z| Decimal { mantissa: z.mantissa(), scale: z.scale() })
}

/// `rust_decimal::Decimal::checked_div`.  Returns the named result; claims
/// that a result is always a decimal `rust_decimal` can hold, that dividing
/// by zero gives `None`, and that when the divisor goes into the dividend a
/// whole number of times and that number fits in 96 bits, the result has
/// exactly that value.  Also claims that a divisor of magnitude one or more
/// always gives a result: `div_impl` fails only on a zero divisor or where
/// the whole part of the quotient overflows 96 bits, which a quotient no
/// larger than the dividend cannot do.  And claims that negating the
/// dividend negates the result: `div_impl` divides the magnitudes and sets
/// the sign last.
#[verifier::external_body]
pub(crate) fn decimal_checked_div(a: Decimal, b: Decimal) -> (r: Option<Decimal>)
    requires
        a.wf(),
        b.wf(),
    ensures
        abs(b.units()) >= pow10(28) ==> r.is_some(),
        r == parts_decimal(
            decimal_checked_quotient(a.mantissa as int, a.scale as int, b.mantissa as int, b.scale as int),
        ),
        r.is_some() ==> r.unwrap().wf(),
        b.mantissa == 0 ==> r.is_none(),
        (b.units() != 0 && a.units() % b.units() == 0 && abs(a.units() / b.units())
            < mantissa_limit()) ==> (r.is_some() && r.unwrap().units() == (a.units() / b.units())
            * pow10(28)),
        decimal_checked_quotient(
            -(a.mantissa as int),
            a.scale as int,
            b.mantissa as int,
            b.scale as int,
        ) == negated_parts(r),
{
    let x = rust_decimal::Decimal::from_i128_with_scale(a.mantissa, a.scale);
    let y = rust_decimal::Decimal::from_i128_with_scale(b.mantissa, b.scale);
    x.checked_div(y).map(|z| Decimal { mantissa: z.mantissa(), scale: z.scale() })
}

/// `-d`: the value with its sign changed; the scale stays.
pub(crate) fn decimal_neg(d: Decimal) -> (r: Decimal)
    requires
        d.wf(),
    ensures
        r == spec_neg(d),
        r.wf(),
        r.units() == -d.units(),
{
    proof {
        lemma_pow10_pos((28 - d.scale) as nat);
        assert(spec_neg(d).units() == -d.units()) by (nonlinear_arith)
            requires
                spec_neg(d).units() == -d.mantissa * pow10((28 - d.scale) as nat),
                d.units() == d.mantissa * pow10((28 - d.scale) as nat),
        ;
    }
    Decimal { mantissa: -d.mantissa, scale: d.scale }
}

/// `a >= b` on values.
pub(crate) fn decimal_ge(a: Decimal, b: Decimal) -> (r: bool)
    requires
        a.wf(),
        b.wf(),
    ensures
        r == (a.units() >= b.units()),
{
    decimal_order(a, b) >= 0
}

/// `a == b` on values.
pub(crate) fn decimal_same(a: Decimal, b: Decimal) -> (r: bool)
    requires
        a.wf(),
        b.wf(),
    ensures
        r == (a.units() == b.units()),
{
    decimal_order(a, b) == 0
}

impl PartialEq for Decimal {
    fn eq(&self, other: &Decimal) -> (r: bool) {
        if self.is_valid() && other.is_valid() {
            decimal_order(*self, *other) == 0
        } else {
            self.mantissa == other.mantissa && self.scale == other.scale
        }
    }
}

impl vstd::std_specs::cmp::PartialEqSpecImpl for Decimal {
    open spec fn obeys_eq_spec() -> bool {
        true
    }

    open spec fn eq_spec(&self, other: &Decimal) -> bool {
        decimal_eq(*self, *other)
    }
}

impl From<i32> for Decimal {
    /// The integer `n` with scale 0, as `rust_decimal` converts it.
    fn from(n: i32) -> (r: Decimal) {
        Decimal { mantissa: n as i128, scale: 0 }
    }
}

impl vstd::std_specs::convert::FromSpecImpl<i32> for Decimal {
    open spec fn obeys_from_spec() -> bool {
        true
    }

    open spec fn from_spec(n: i32) -> Decimal {
        Decimal { mantissa: n as i128, scale: 0 }
    }
}

impl Decimal {
    /// Whether the representation is one `rust_decimal` can hold.
    fn is_valid(&self) -> (r: bool)
        ensures
            r == self.wf(),
    {
        self.scale <= 28 && -0x1_0000_0000_0000_0000_0000_0000i128 < self.mantissa
            && self.mantissa < 0x1_0000_0000_0000_0000_0000_0000i128
    }

    /// `num * 10^-scale`.
    pub fn new(num: i64, scale: u32) -> (r: Decimal)
        requires
            scale <= 28,
        ensures
            r.wf(),
            r.mantissa == num,
            r.scale == scale,
    {
        Decimal { mantissa: num as i128, scale }
    }

    /// `num * 10^-scale` for a 96-bit mantissa.
    pub fn from_i128_with_scale(num: i128, scale: u32) -> (r: Decimal)
        requires
            scale <= 28,
            -mantissa_limit() < num < mantissa_limit(),
        ensures
            r.wf(),
            r.mantissa == num,
            r.scale == scale,
    {
        Decimal { mantissa: num, scale }
    }

    pub fn is_zero(&self) -> (r: bool)
        requires
            self.wf(),
        ensures
            r == (self.units() == 0),
    {
        proof {
            lemma_units_zero(*self);
        }
        self.mantissa == 0
    }
}

/// The decimal a text stands for, as `rust_decimal::Decimal::from_str`
/// reads it, as a mantissa and a scale.
pub uninterp spec fn decimal_text_value(s: Seq<char>) -> Option<(int, int)>;

/// The decimal digits of `n`, none for zero.
pub open spec fn mantissa_digits(n: nat) -> Seq<char> {
    if n == 0 {
        Seq::empty()
    } else {
        decimal_digits(n)
    }
}

/// `n` zeros.
pub open spec fn zeros(n: nat) -> Seq<char> {
    Seq::new(n, |i: int| '0')
}

/// How `rust_decimal` writes a decimal given by its mantissa and scale
/// (`Display` without a precision): the digits of the mantissa's magnitude,
/// zero-padded on the left to at least `scale` digits, a '.' before the last
/// `scale` of them where the scale is positive, a "0" where nothing would
/// stand before the '.' or nothing at all, and a '-' before a negative
/// value.
pub open spec fn decimal_text(mantissa: int, scale: int) -> Seq<char> {
    let digits = mantissa_digits(abs(mantissa) as nat);
    let padded = if digits.len() < scale {
        zeros((scale - digits.len()) as nat) + digits
    } else {
        digits
    };
    let whole = padded.len() - scale;
    let body = if scale <= 0 {
        if padded.len() == 0 {
            seq!['0']
        } else {
            padded
        }
    } else {
        (if whole == 0 {
            seq!['0']
        } else {
            padded.take(whole)
        }) + seq!['.'] + padded.skip(whole)
    };
    if mantissa < 0 {
        seq!['-'] + body
    } else {
        body
    }
}

/// The mantissa and scale `rust_decimal`'s `normalize` gives: zero at scale
/// 0 for a zero, else trailing zero digits stripped from the mantissa while
/// the scale is positive.
pub open spec fn normal_parts(mantissa: int, scale: int) -> (int, int)
    decreases (if scale > 0 {
        scale
    } else {
        0
    }),
{
    if mantissa == 0 {
        (0, 0)
    } else if scale > 0 && mantissa % 10 == 0 {
        normal_parts(mantissa / 10, scale - 1)
    } else {
        (mantissa, scale)
    }
}

/// How `rust_decimal` writes a decimal given by its mantissa and scale
/// after `normalize`.
pub open spec fn decimal_normal_text(mantissa: int, scale: int) -> Seq<char> {
    let p = normal_parts(mantissa, scale);
    decimal_text(p.0, p.1)
}

/// `rust_decimal::Decimal::from_str`.  The result is named; claims that a
/// result is a decimal `rust_decimal` can hold.
#[verifier::external_body]
pub(crate) fn decimal_parse(s: &str) -> (r: Option<Decimal>)
    ensures
        r == parts_decimal(decimal_text_value(s@)),
        r.is_some() ==> r.unwrap().wf(),
{
    match <rust_decimal::Decimal as std::str::FromStr>::from_str(s) {
        Ok(d) => Some(Decimal { mantissa: d.mantissa(), scale: d.scale() }),
        Err(_) => None,
    }
}

/// `Display` of `rust_decimal::Decimal` (`str::to_str_internal` with no
/// precision, then `pad_integral`): the text `decimal_text` states.
#[verifier::external_body]
pub(crate) fn decimal_to_string(d: Decimal) -> (r: String)
    requires
        d.wf(),
    ensures
        r@ == decimal_text(d.mantissa as int, d.scale as int),
{
    rust_decimal::Decimal::from_i128_with_scale(d.mantissa, d.scale).to_string()
}

/// `rust_decimal::Decimal::normalize`, then `Display`: the text
/// `decimal_normal_text` states.
#[verifier::external_body]
pub(crate) fn decimal_normalized_to_string(d: Decimal) -> (r: String)
    requires
        d.wf(),
    ensures
        r@ == decimal_normal_text(d.mantissa as int, d.scale as int),
{
    rust_decimal::Decimal::from_i128_with_scale(d.mantissa, d.scale).normalize().to_string()
}

} // verus!
