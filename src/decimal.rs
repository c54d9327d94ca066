//! Fixed-point decimal amounts: a signed 96-bit mantissa scaled by a power of ten.
use rust_decimal::Decimal;
use std::str::FromStr;
use vstd::prelude::*;

verus! {

/// The largest magnitude of a mantissa: 2^96 - 1.
pub const MAX_MANTISSA: i128 = 0xFFFF_FFFF_FFFF_FFFF_FFFF_FFFF;

/// The largest scale (number of fractional digits).
pub const MAX_SCALE: u32 = 28;

pub open spec fn pow10(n: nat) -> int
    decreases n,
{
    if n == 0 {
        1
    } else {
        10 * pow10((n - 1) as nat)
    }
}

pub open spec fn abs(x: int) -> int {
    if x < 0 {
        -x
    } else {
        x
    }
}

pub proof fn lemma_pow10_positive(n: nat)
    ensures
        pow10(n) >= 1,
    decreases n,
{
    if n > 0 {
        lemma_pow10_positive((n - 1) as nat);
    }
}

pub proof fn lemma_pow10_monotone(a: nat, b: nat)
    requires
        a <= b,
    ensures
        pow10(a) <= pow10(b),
    decreases b,
{
    lemma_pow10_positive(b);
    if a < b {
        lemma_pow10_monotone(a, (b - 1) as nat);
    }
}

/// Mantissa and scale of the product that rust_decimal computes, or `None` on overflow.
pub uninterp spec fn decimal_product(a: (int, int), b: (int, int)) -> Option<(int, int)>;

/// Mantissa and scale of the quotient that rust_decimal computes, or `None` on
/// overflow or a zero divisor.
pub uninterp spec fn decimal_quotient(a: (int, int), b: (int, int)) -> Option<(int, int)>;

/// Mantissa and scale of the decimal that rust_decimal reads from a string, if it reads one.
pub uninterp spec fn decimal_parsed(s: Seq<char>) -> Option<(int, int)>;

/// A value of rust_decimal: mantissa within 96 bits, scale at most 28.
pub open spec fn in_range(m: int, s: int) -> bool {
    &&& abs(m) <= MAX_MANTISSA
    &&& 0 <= s <= MAX_SCALE
}

/// The result of rounding a mantissa with `diff` fractional digits dropped, halves
/// rounded away from zero.
pub open spec fn round_drop(m: int, diff: nat) -> int
    recommends
        diff > 0,
{
    let q = (abs(m) + 5 * pow10((diff - 1) as nat)) / pow10(diff);
    if m < 0 {
        -q
    } else {
        q
    }
}

/// Relies on rust_decimal's `Decimal::rescale`: to a lower scale it drops digits and
/// rounds the last one half away from zero; to a higher scale it multiplies by
/// powers of ten as far as the mantissa fits, stopping below the target otherwise;
/// a zero takes the target scale.
#[verifier::external_body]
fn decimal_rescale(m: i128, s: u32, t: u32) -> (r: (i128, u32))
    requires
        in_range(m as int, s as int),
        t <= MAX_SCALE,
    ensures
        in_range(r.0 as int, r.1 as int),
        m == 0 ==> r == (0i128, t),
        m != 0 && t < s ==> r.1 == t && r.0 == round_drop(m as int, (s - t) as nat),
        m != 0 && t >= s ==> {
            &&& s <= r.1 <= t
            &&& r.0 == m * pow10((r.1 - s) as nat)
            &&& (r.1 == t || abs(m as int) * pow10((r.1 - s + 1) as nat) > MAX_MANTISSA)
        },
{
    let mut d = Decimal::from_i128_with_scale(m, s);
    d.rescale(t);
    (d.mantissa(), d.scale())
}

/// Relies on rust_decimal's `Decimal::checked_mul`: the product, `None` on overflow.
#[verifier::external_body]
fn decimal_checked_mul(am: i128, a_s: u32, bm: i128, bs: u32) -> (r: Option<(i128, u32)>)
    requires
        in_range(am as int, a_s as int),
        in_range(bm as int, bs as int),
    ensures
        match decimal_product((am as int, a_s as int), (bm as int, bs as int)) {
            Some(p) => r matches Some(v) && p == (v.0 as int, v.1 as int) && in_range(p.0, p.1),
            None => r is None,
        },
{
    let a = Decimal::from_i128_with_scale(am, a_s);
    let b = Decimal::from_i128_with_scale(bm, bs);
    a.checked_mul(b).map(|d| (d.mantissa(), d.scale()))
}

/// Relies on rust_decimal's `Decimal::checked_div`: the quotient, `None` on overflow
/// or division by zero.
#[verifier::external_body]
fn decimal_checked_div(am: i128, a_s: u32, bm: i128, bs: u32) -> (r: Option<(i128, u32)>)
    requires
        in_range(am as int, a_s as int),
        in_range(bm as int, bs as int),
    ensures
        match decimal_quotient((am as int, a_s as int), (bm as int, bs as int)) {
            Some(p) => r matches Some(v) && p == (v.0 as int, v.1 as int) && in_range(p.0, p.1),
            None => r is None,
        },
        bm == 0 ==> r is None,
{
    let a = Decimal::from_i128_with_scale(am, a_s);
    let b = Decimal::from_i128_with_scale(bm, bs);
    a.checked_div(b).map(|d| (d.mantissa(), d.scale()))
}

/// Relies on rust_decimal's `FromStr for Decimal`: the decimal written in `s`, if any.
#[verifier::external_body]
fn decimal_from_str(s: &str) -> (r: Option<(i128, u32)>)
    ensures
        match decimal_parsed(s@) {
            Some(p) => r matches Some(v) && p == (v.0 as int, v.1 as int) && in_range(p.0, p.1),
            None => r is None,
        },
{
    Decimal::from_str(s).ok().map(|d| (d.mantissa(), d.scale()))
}

/// The abstract value of an amount: `mantissa / 10^scale`.
pub struct AmountView {
    pub mantissa: int,
    pub scale: nat,
}

impl AmountView {
    pub open spec fn valid(self) -> bool {
        in_range(self.mantissa, self.scale as int)
    }

    /// The amount rescaled to `t` fractional digits, where that scale can hold it.
    pub open spec fn rescaled(self, t: nat) -> AmountView {
        if self.mantissa == 0 {
            AmountView { mantissa: 0, scale: t }
        } else if t < self.scale {
            AmountView { mantissa: round_drop(self.mantissa, (self.scale - t) as nat), scale: t }
        } else {
            AmountView { mantissa: self.mantissa * pow10((t - self.scale) as nat), scale: t }
        }
    }

    /// At scale `t` the mantissa still fits in 96 bits.
    pub open spec fn fits_scale(self, t: nat) -> bool {
        t <= self.scale || abs(self.mantissa) * pow10((t - self.scale) as nat) <= MAX_MANTISSA
    }
}

/// A decimal amount.
#[derive(Clone, Copy, Debug, PartialEq, Eq, Hash, Structural)]
pub struct Amount {
    mantissa: i128,
    scale: u32,
}

impl View for Amount {
    type V = AmountView;

    closed spec fn view(&self) -> AmountView {
        AmountView { mantissa: self.mantissa as int, scale: self.scale as nat }
    }
}

impl Amount {
    #[verifier::type_invariant]
    spec fn inv(self) -> bool {
        in_range(self.mantissa as int, self.scale as int)
    }

    /// `mantissa / 10^scale`, where the mantissa fits in 96 bits and the scale is at most 28.
    pub fn from_parts(mantissa: i128, scale: u32) -> (r: Option<Amount>)
        ensures
            in_range(mantissa as int, scale as int) <==> r is Some,
            r matches Some(a) ==> a@ == (AmountView { mantissa: mantissa as int, scale: scale as nat }),
    {
        if scale <= MAX_SCALE && -MAX_MANTISSA <= mantissa && mantissa <= MAX_MANTISSA {
            Some(Amount { mantissa, scale })
        } else {
            None
        }
    }

    /// The whole number `n`.
    pub fn from_i64(n: i64) -> (r: Amount)
        ensures
            r@ == (AmountView { mantissa: n as int, scale: 0 }),
    {
        Amount { mantissa: n as i128, scale: 0 }
    }

    /// The whole number `n`.
    pub fn from_u64(n: u64) -> (r: Amount)
        ensures
            r@ == (AmountView { mantissa: n as int, scale: 0 }),
    {
        Amount { mantissa: n as i128, scale: 0 }
    }

    /// Zero, with scale 0.
    pub fn zero() -> (r: Amount)
        ensures
            r@ == (AmountView { mantissa: 0, scale: 0 }),
    {
        Amount { mantissa: 0, scale: 0 }
    }

    /// The decimal written in `s` (such as `"-12.50"`), if it is one.
    pub fn parse(s: &str) -> (r: Option<Amount>)
        ensures
            match decimal_parsed(s@) {
                Some(p) => r matches Some(a) && a@.mantissa == p.0 && a@.scale == p.1,
                None => r is None,
            },
    {
        match decimal_from_str(s) {
            Some((mantissa, scale)) => Some(Amount { mantissa, scale }),
            None => None,
        }
    }

    /// Two amounts with the same abstract value are the same amount.
    pub proof fn lemma_view_injective(a: Amount, b: Amount)
        ensures
            a@ == b@ ==> a == b,
    {
    }

    /// The same amount with the sign flipped.
    pub fn neg(&self) -> (r: Amount)
        ensures
            r@ == (AmountView { mantissa: -self@.mantissa, scale: self@.scale }),
    {
        proof { use_type_invariant(self); }
        Amount { mantissa: -self.mantissa, scale: self.scale }
    }

    /// The magnitude, with the same scale.
    pub fn abs(&self) -> (r: Amount)
        ensures
            r@ == (AmountView { mantissa: abs(self@.mantissa), scale: self@.scale }),
    {
        proof { use_type_invariant(self); }
        if self.mantissa < 0 {
            Amount { mantissa: -self.mantissa, scale: self.scale }
        } else {
            *self
        }
    }

    pub fn mantissa(&self) -> (r: i128)
        ensures
            r == self@.mantissa,
            self@.valid(),
    {
        proof { use_type_invariant(self); }
        self.mantissa
    }

    pub fn scale(&self) -> (r: u32)
        ensures
            r == self@.scale,
            self@.valid(),
    {
        proof { use_type_invariant(self); }
        self.scale
    }

    /// The amount with `t` fractional digits, rounded half away from zero where
    /// digits are dropped. Where the scale cannot hold the amount, it stops at the
    /// highest scale that can.
    pub fn rescale(&self, t: u32) -> (r: Amount)
        requires
            t <= MAX_SCALE,
        ensures
            r@.valid(),
            self@.fits_scale(t as nat) ==> r@ == self@.rescaled(t as nat),
            r@.scale == t ==> r@ == self@.rescaled(t as nat),
            !self@.fits_scale(t as nat) ==> r@.scale != t,
    {
        proof { use_type_invariant(self); }
        let (mantissa, scale) = decimal_rescale(self.mantissa, self.scale, t);
        proof {
            if self.mantissa != 0 && t >= self.scale && scale < t {
                lemma_pow10_positive((scale - self.scale) as nat);
                if self@.fits_scale(t as nat) {
                    let k = (scale - self.scale + 1) as nat;
                    let n = (t - self.scale) as nat;
                    lemma_pow10_monotone(k, n);
                    let a = abs(self.mantissa as int);
                    assert(a * pow10(k) <= a * pow10(n)) by (nonlinear_arith)
                        requires a >= 0, pow10(k) <= pow10(n);
                }
            }
            if self.mantissa != 0 && t >= self.scale && scale == t {
                let p = pow10((t - self.scale) as nat);
                let m = self.mantissa as int;
                lemma_pow10_positive((t - self.scale) as nat);
                assert(abs(m * p) == abs(m) * p) by (nonlinear_arith)
                    requires p >= 1;
            }
        }
        Amount { mantissa, scale }
    }

    /// The product as rust_decimal computes it, `None` on overflow.
    pub fn checked_mul(&self, other: &Amount) -> (r: Option<Amount>)
        ensures
            match decimal_product(
                (self@.mantissa, self@.scale as int),
                (other@.mantissa, other@.scale as int),
            ) {
                Some(p) => r matches Some(a) && a@.mantissa == p.0 && a@.scale == p.1,
                None => r is None,
            },
    {
        proof {
            use_type_invariant(self);
            use_type_invariant(other);
        }
        match decimal_checked_mul(self.mantissa, self.scale, other.mantissa, other.scale) {
            Some((mantissa, scale)) => Some(Amount { mantissa, scale }),
            None => None,
        }
    }

    /// The quotient as rust_decimal computes it, `None` on overflow or a zero divisor.
    pub fn checked_div(&self, other: &Amount) -> (r: Option<Amount>)
        ensures
            match decimal_quotient(
                (self@.mantissa, self@.scale as int),
                (other@.mantissa, other@.scale as int),
            ) {
                Some(p) => r matches Some(a) && a@.mantissa == p.0 && a@.scale == p.1,
                None => r is None,
            },
            other@.mantissa == 0 ==> r is None,
    {
        proof {
            use_type_invariant(self);
            use_type_invariant(other);
        }
        match decimal_checked_div(self.mantissa, self.scale, other.mantissa, other.scale) {
            Some((mantissa, scale)) => Some(Amount { mantissa, scale }),
            None => None,
        }
    }
}

} // verus!
