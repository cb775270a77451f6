//! Exact decimal amounts, held as a mantissa and a count of decimal places.
//!
//! Arithmetic is done by `rust_decimal`; each operation is stated over the
//! value of an amount in units of `10^-28`, the finest step a decimal can hold.

use vstd::prelude::*;
use vstd::arithmetic::power::{pow, lemma_pow_adds, lemma_pow_positive};
use rust_decimal::Decimal;
use rust_decimal::prelude::MathematicalOps;

verus! {

/// Largest magnitude of a mantissa: `2^96 - 1`.
pub const MAX_MANTISSA: i128 = 0xFFFF_FFFF_FFFF_FFFF_FFFF_FFFF;

/// Largest number of decimal places.
pub const MAX_SCALE: u32 = 28;

/// The decimal number `mantissa / 10^scale`.
#[derive(Clone, Copy, Debug)]
pub struct Amount {
    pub mantissa: i128,
    pub scale: u32,
}

/// `10^n` for a non-negative `n`.
pub open spec fn pow10(n: int) -> int {
    pow(10, n as nat)
}

/// The value `m / 10^s` of a decimal, counted in units of `10^-28`.
pub open spec fn units_of(m: int, s: int) -> int {
    m * pow10(MAX_SCALE - s)
}

/// The mantissa of `a` once written with `s` decimal places (`s >= a.scale`).
pub open spec fn aligned(a: Amount, s: int) -> int {
    a.mantissa * pow10(s - a.scale)
}

/// The larger of the two scales.
pub open spec fn max_scale_of(a: Amount, b: Amount) -> int {
    if a.scale >= b.scale { a.scale as int } else { b.scale as int }
}

/// `m` fits in the 96 bits of a mantissa.
pub open spec fn fits_mantissa(m: int) -> bool {
    -MAX_MANTISSA <= m <= MAX_MANTISSA
}

/// The value `v` (in units of `10^-28`) is no larger in magnitude than the
/// largest decimal with `s` decimal places.
pub open spec fn within(v: int, s: int) -> bool {
    -MAX_MANTISSA * pow10(MAX_SCALE - s) <= v <= MAX_MANTISSA * pow10(MAX_SCALE - s)
}

/// The exact sum of `a` and `b` can be written at the larger of their scales.
pub open spec fn sum_fits(a: Amount, b: Amount) -> bool {
    fits_mantissa(aligned(a, max_scale_of(a, b)) + aligned(b, max_scale_of(a, b)))
}

/// The exact difference `a - b` can be written at the larger of their scales.
pub open spec fn difference_fits(a: Amount, b: Amount) -> bool {
    fits_mantissa(aligned(a, max_scale_of(a, b)) - aligned(b, max_scale_of(a, b)))
}

/// The exact product of `a` and `b` can be written without rounding.
pub open spec fn product_fits(a: Amount, b: Amount) -> bool {
    a.mantissa * b.mantissa == 0 || (a.scale + b.scale <= MAX_SCALE && fits_mantissa(
        a.mantissa * b.mantissa,
    ))
}

/// The exact product of `a` and `b`, as a decimal produces it: zero has no
/// decimal places, any other product has those of both factors.
pub open spec fn exact_product(a: Amount, b: Amount) -> Amount {
    Amount {
        mantissa: (a.mantissa * b.mantissa) as i128,
        scale: if a.mantissa * b.mantissa == 0 { 0 } else { (a.scale + b.scale) as u32 },
    }
}

/// The whole number `n` as a decimal.
pub open spec fn whole(n: int) -> Amount {
    Amount { mantissa: n as i128, scale: 0 }
}

/// The exact power `a^n` of a non-negative `a` can be written without rounding.
pub open spec fn power_fits(a: Amount, n: nat) -> bool {
    a.mantissa >= 0 && n * a.scale <= MAX_SCALE && pow(a.mantissa as int, n) <= MAX_MANTISSA
}

impl Amount {
    /// The decimal is well formed: its mantissa fits in 96 bits and it has at
    /// most 28 decimal places.
    pub open spec fn wf(self) -> bool {
        fits_mantissa(self.mantissa as int) && self.scale <= MAX_SCALE
    }

    /// The value, counted in units of `10^-28`.
    pub open spec fn units(self) -> int {
        units_of(self.mantissa as int, self.scale as int)
    }

    /// The decimal `mantissa / 10^scale`, when it is well formed.
    pub fn new(mantissa: i128, scale: u32) -> (r: Option<Amount>)
        ensures
            r matches Some(a) ==> a.mantissa == mantissa && a.scale == scale,
            r is Some <==> (fits_mantissa(mantissa as int) && scale <= MAX_SCALE),
    {
        if -MAX_MANTISSA <= mantissa && mantissa <= MAX_MANTISSA && scale <= MAX_SCALE {
            Some(Amount { mantissa, scale })
        } else {
            None
        }
    }

    /// Whether the decimal is well formed and not negative.
    pub fn is_valid_non_negative(&self) -> (r: bool)
        ensures
            r == (self.wf() && self.units() >= 0),
    {
        proof {
            if self.scale <= MAX_SCALE {
                lemma_pow10_adds(MAX_SCALE - self.scale, 0);
                let p = pow10(MAX_SCALE - self.scale);
                assert(self.mantissa >= 0 <==> self.mantissa * p >= 0) by (nonlinear_arith)
                    requires
                        p > 0,
                ;
            }
        }
        -MAX_MANTISSA <= self.mantissa && self.mantissa <= MAX_MANTISSA && self.scale
            <= MAX_SCALE && self.mantissa >= 0
    }

    /// The whole number `n`.
    pub fn from_u64(n: u64) -> (r: Amount)
        ensures
            r.wf(),
            r == whole(n as int),
            r.units() == n * pow10(MAX_SCALE as int),
    {
        Amount { mantissa: n as i128, scale: 0 }
    }

    /// Zero.
    pub fn zero() -> (r: Amount)
        ensures
            r.wf(),
            r.mantissa == 0,
            r.scale == 0,
            r.units() == 0,
    {
        Amount { mantissa: 0, scale: 0 }
    }

    /// The sum `self + other`; `None` when it cannot be represented at all.
    pub fn checked_add(self, other: Amount) -> (r: Option<Amount>)
        requires
            self.wf(),
            other.wf(),
        ensures
            r matches Some(c) ==> c.wf(),
            sum_fits(self, other) ==> (r matches Some(c) && c.units() == self.units()
                + other.units() && c.scale <= max_scale_of(self, other)),
            (self.units() >= 0 && other.units() >= 0 && r is Some) ==> r->0.units() >= 0,
    {
        decimal_add(self, other)
    }

    /// The difference `self - other`; `None` when it cannot be represented at all.
    pub fn checked_sub(self, other: Amount) -> (r: Option<Amount>)
        requires
            self.wf(),
            other.wf(),
        ensures
            r matches Some(c) ==> c.wf(),
            difference_fits(self, other) ==> (r matches Some(c) && c.units() == self.units()
                - other.units() && c.scale <= max_scale_of(self, other)),
            (self.units() >= other.units() && r is Some) ==> r->0.units() >= 0,
    {
        decimal_sub(self, other)
    }

    /// The product `self * other`; `None` when it cannot be represented at all.
    pub fn checked_mul(self, other: Amount) -> (r: Option<Amount>)
        requires
            self.wf(),
            other.wf(),
        ensures
            r matches Some(c) ==> c.wf(),
            product_fits(self, other) ==> r == Some(exact_product(self, other)),
            (self.units() >= 0 && other.units() >= 0 && r is Some) ==> r->0.units() >= 0,
    {
        decimal_mul(self, other)
    }

    /// The power `self^n`; `None` when it cannot be represented at all.
    pub fn checked_pow(self, n: u64) -> (r: Option<Amount>)
        requires
            self.wf(),
        ensures
            r matches Some(c) ==> c.wf(),
            power_fits(self, n as nat) ==> (r matches Some(c) && c.scale <= n * self.scale
                && c.mantissa * pow10(n * self.scale - c.scale) == pow(
                self.mantissa as int,
                n as nat,
            )),
            (self.mantissa >= 0 && r is Some) ==> r->0.mantissa >= 0,
    {
        decimal_powu(self, n)
    }

    /// Whether `self` and `other` are the same number, whatever their scales.
    pub fn same_value(self, other: Amount) -> (r: bool)
        requires
            self.wf(),
            other.wf(),
        ensures
            r == (self.units() == other.units()),
    {
        self.at_least(other) && other.at_least(self)
    }

    /// Whether `self >= other` as numbers, whatever their scales.
    pub fn at_least(self, other: Amount) -> (r: bool)
        requires
            self.wf(),
            other.wf(),
        ensures
            r == (self.units() >= other.units()),
    {
        decimal_ge(self, other)
    }
}

/// Relies on `Decimal::checked_add`: it returns the exact sum, with at most
/// the larger of the two scales, whenever that fits at the larger scale; it
/// rounds only when it does not, and keeps the sign of a sum of non-negative
/// numbers.
#[verifier::external_body]
fn decimal_add(a: Amount, b: Amount) -> (r: Option<Amount>)
    requires
        a.wf(),
        b.wf(),
    ensures
        r matches Some(c) ==> c.wf(),
        sum_fits(a, b) ==> (r is Some && r->0.units() == a.units() + b.units() && r->0.scale
            <= max_scale_of(a, b)),
        (a.units() >= 0 && b.units() >= 0 && r is Some) ==> r->0.units() >= 0,
{
    let x = Decimal::from_i128_with_scale(a.mantissa, a.scale);
    let y = Decimal::from_i128_with_scale(b.mantissa, b.scale);
    match x.checked_add(y) {
        Some(c) => Some(Amount { mantissa: c.mantissa(), scale: c.scale() }),
        None => None,
    }
}

/// Relies on `Decimal::checked_sub`: it returns the exact difference, with at
/// most the larger of the two scales, whenever that fits at the larger scale,
/// and rounds only when it does not.
#[verifier::external_body]
fn decimal_sub(a: Amount, b: Amount) -> (r: Option<Amount>)
    requires
        a.wf(),
        b.wf(),
    ensures
        r matches Some(c) ==> c.wf(),
        difference_fits(a, b) ==> (r is Some && r->0.units() == a.units() - b.units() && r->0.scale
            <= max_scale_of(a, b)),
        (a.units() >= b.units() && r is Some) ==> r->0.units() >= 0,
{
    let x = Decimal::from_i128_with_scale(a.mantissa, a.scale);
    let y = Decimal::from_i128_with_scale(b.mantissa, b.scale);
    match x.checked_sub(y) {
        Some(c) => Some(Amount { mantissa: c.mantissa(), scale: c.scale() }),
        None => None,
    }
}

/// Relies on `Decimal::checked_mul`: a zero factor gives `Decimal::ZERO`; a
/// product whose mantissa fits in 96 bits and whose scale is at most 28 comes
/// back unchanged, with the scales added.
#[verifier::external_body]
fn decimal_mul(a: Amount, b: Amount) -> (r: Option<Amount>)
    requires
        a.wf(),
        b.wf(),
    ensures
        r matches Some(c) ==> c.wf(),
        product_fits(a, b) ==> r == Some(exact_product(a, b)),
        (a.units() >= 0 && b.units() >= 0 && r is Some) ==> r->0.units() >= 0,
{
    let x = Decimal::from_i128_with_scale(a.mantissa, a.scale);
    let y = Decimal::from_i128_with_scale(b.mantissa, b.scale);
    match x.checked_mul(y) {
        Some(c) => Some(Amount { mantissa: c.mantissa(), scale: c.scale() }),
        None => None,
    }
}

/// Relies on `MathematicalOps::checked_powu`: for a non-negative base whose
/// exact power fits, it multiplies exactly and at most strips trailing zeros.
#[verifier::external_body]
fn decimal_powu(a: Amount, n: u64) -> (r: Option<Amount>)
    requires
        a.wf(),
    ensures
        r matches Some(c) ==> c.wf(),
        power_fits(a, n as nat) ==> (r is Some && r->0.scale <= n * a.scale && r->0.mantissa
            * pow10(n * a.scale - r->0.scale) == pow(a.mantissa as int, n as nat)),
        (a.mantissa >= 0 && r is Some) ==> r->0.mantissa >= 0,
{
    let x = Decimal::from_i128_with_scale(a.mantissa, a.scale);
    match x.checked_powu(n) {
        Some(c) => Some(Amount { mantissa: c.mantissa(), scale: c.scale() }),
        None => None,
    }
}

/// Relies on `Decimal`'s `Ord`, which compares the numbers, not their digits.
#[verifier::external_body]
fn decimal_ge(a: Amount, b: Amount) -> (r: bool)
    requires
        a.wf(),
        b.wf(),
    ensures
        r == (a.units() >= b.units()),
{
    Decimal::from_i128_with_scale(a.mantissa, a.scale) >= Decimal::from_i128_with_scale(
        b.mantissa,
        b.scale,
    )
}

/// A well-formed decimal is non-negative exactly when its mantissa is.
pub proof fn lemma_sign_of_units(a: Amount)
    requires
        a.wf(),
    ensures
        a.units() >= 0 <==> a.mantissa >= 0,
        a.units() == 0 <==> a.mantissa == 0,
{
    lemma_pow10_adds(MAX_SCALE - a.scale, 0);
    let p = pow10(MAX_SCALE - a.scale);
    let m = a.mantissa as int;
    assert(m >= 0 <==> m * p >= 0) by (nonlinear_arith)
        requires
            p > 0,
    ;
    assert(m == 0 <==> m * p == 0) by (nonlinear_arith)
        requires
            p > 0,
    ;
}

/// Multiplying by the whole number `n` without rounding multiplies the value by `n`.
pub proof fn lemma_times_whole(a: Amount, n: int)
    requires
        a.wf(),
        n >= 0,
        product_fits(a, whole(n)),
        n <= MAX_MANTISSA,
    ensures
        exact_product(a, whole(n)).units() == a.units() * n,
{
    let m = a.mantissa as int;
    let p = pow10(MAX_SCALE - a.scale);
    assert(whole(n).mantissa == n);
    assert((m * p) * n == (m * n) * p) by (nonlinear_arith);
    if m * n == 0 {
        assert((m * n) * pow10(MAX_SCALE as int) == 0) by (nonlinear_arith)
            requires
                m * n == 0,
        ;
    }
}

/// Two decimals with at most `s` places whose sum is within the range of `s`
/// places add without rounding.
pub proof fn lemma_sum_fits_by_value(a: Amount, b: Amount, s: int)
    requires
        a.wf(),
        b.wf(),
        a.scale <= s,
        b.scale <= s,
        s <= MAX_SCALE,
        within(a.units() + b.units(), s),
    ensures
        sum_fits(a, b),
{
    let m = max_scale_of(a, b);
    lemma_pow10_adds(m - a.scale, MAX_SCALE - m);
    lemma_pow10_adds(m - b.scale, MAX_SCALE - m);
    lemma_pow10_adds(s - m, MAX_SCALE - s);
    lemma_pow10_adds(MAX_SCALE - s, 0);
    let pm = pow10(MAX_SCALE - m);
    let ps = pow10(MAX_SCALE - s);
    let psm = pow10(s - m);
    let xa = aligned(a, m);
    let xb = aligned(b, m);
    let ma = a.mantissa as int;
    let mb = b.mantissa as int;
    let qa = pow10(m - a.scale);
    let qb = pow10(m - b.scale);
    assert(a.units() == xa * pm) by (nonlinear_arith)
        requires
            a.units() == ma * pow10(MAX_SCALE - a.scale),
            xa == ma * qa,
            qa * pm == pow10(MAX_SCALE - a.scale),
    ;
    assert(b.units() == xb * pm) by (nonlinear_arith)
        requires
            b.units() == mb * pow10(MAX_SCALE - b.scale),
            xb == mb * qb,
            qb * pm == pow10(MAX_SCALE - b.scale),
    ;
    let x = xa + xb;
    let v = a.units() + b.units();
    assert(-MAX_MANTISSA <= x <= MAX_MANTISSA) by (nonlinear_arith)
        requires
            v == xa * pm + xb * pm,
            x == xa + xb,
            pm == psm * ps,
            -MAX_MANTISSA * ps <= v <= MAX_MANTISSA * ps,
            ps > 0,
            psm > 0,
    ;
}

/// A value no larger than one within the range of `t` places is within the
/// range of any `s <= t` places.
pub proof fn lemma_within_weakens(v: int, w: int, s: int, t: int)
    requires
        0 <= v <= w,
        0 <= s <= t <= MAX_SCALE,
        within(w, t),
    ensures
        within(v, s),
{
    lemma_pow10_adds(t - s, MAX_SCALE - t);
    lemma_pow10_adds(MAX_SCALE - t, 0);
    let pt = pow10(MAX_SCALE - t);
    let pts = pow10(t - s);
    assert(MAX_MANTISSA * pt <= MAX_MANTISSA * (pts * pt)) by (nonlinear_arith)
        requires
            pt > 0,
            pts > 0,
    ;
}

/// `10^a * 10^b == 10^(a + b)`, and powers of ten are positive.
pub proof fn lemma_pow10_adds(a: int, b: int)
    requires
        a >= 0,
        b >= 0,
    ensures
        pow10(a) * pow10(b) == pow10(a + b),
        pow10(a) > 0,
{
    lemma_pow_adds(10, a as nat, b as nat);
    lemma_pow_positive(10, a as nat);
}

} // verus!
