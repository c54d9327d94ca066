//! Money: a decimal amount tagged with a currency, kept at the currency's
//! canonical number of fractional digits.
use crate::currency::{iso_digits, Currency, CurrencyView};
use crate::decimal::{
    abs, decimal_parsed, decimal_product, decimal_quotient, pow10, Amount, AmountView, MAX_MANTISSA,
};
use std::cmp::Ordering;
use vstd::std_specs::convert::FromSpecImpl;
use vstd::prelude::*;

verus! {

/// Why an operation on money produced no value.
#[derive(Clone, Copy, Debug, PartialEq, Eq, Structural)]
pub enum MoneyError {
    /// The two operands are in different currencies.
    NotSameCurrencyError,
    /// The result does not fit in a decimal at the currency's scale.
    ArithmeticOverflow,
    /// The divisor is zero.
    DivisionByZero,
    /// A withdrawal would leave a negative balance.
    InsufficientBalance,
}

/// The abstract value of money.
pub struct MoneyView {
    pub amount: AmountView,
    pub currency: CurrencyView,
}

impl MoneyView {
    /// What every `Money` satisfies: a valid amount at the currency's canonical scale.
    pub open spec fn wf(self) -> bool {
        &&& self.amount.valid()
        &&& self.amount.scale == self.currency.digits as nat
        &&& self.currency.digits <= 4
        &&& iso_digits(self.currency.num) == Some(self.currency.digits)
    }

    pub open spec fn with_mantissa(self, m: int) -> MoneyView {
        MoneyView { amount: AmountView { mantissa: m, scale: self.amount.scale }, currency: self.currency }
    }

    pub open spec fn negated(self) -> MoneyView {
        self.with_mantissa(-self.amount.mantissa)
    }

    pub open spec fn abs(self) -> MoneyView {
        self.with_mantissa(abs(self.amount.mantissa))
    }

    /// The sum: a currency mismatch, an overflow of the mantissa, or the value.
    pub open spec fn add(self, other: MoneyView) -> Result<MoneyView, MoneyError> {
        let sum = self.amount.mantissa + other.amount.mantissa;
        if self.currency != other.currency {
            Err(MoneyError::NotSameCurrencyError)
        } else if abs(sum) > MAX_MANTISSA {
            Err(MoneyError::ArithmeticOverflow)
        } else {
            Ok(self.with_mantissa(sum))
        }
    }

    pub open spec fn subtract(self, other: MoneyView) -> Result<MoneyView, MoneyError> {
        self.add(other.negated())
    }

    /// An amount already brought to some scale, taken as money in `currency`
    /// where that scale is the currency's own.
    pub open spec fn at_scale(amount: AmountView, currency: CurrencyView) -> Result<MoneyView, MoneyError> {
        if amount.scale == currency.digits as nat {
            Ok(MoneyView { amount, currency })
        } else {
            Err(MoneyError::ArithmeticOverflow)
        }
    }

    /// `amount` rescaled to the canonical digits of `currency`, or an overflow
    /// where that scale cannot hold it.
    pub open spec fn rescaled_to(amount: AmountView, currency: CurrencyView) -> Result<MoneyView, MoneyError> {
        if amount.fits_scale(currency.digits as nat) {
            Ok(MoneyView { amount: amount.rescaled(currency.digits as nat), currency })
        } else {
            Err(MoneyError::ArithmeticOverflow)
        }
    }

    /// The order of two amounts of one currency; none across currencies.
    pub open spec fn compare(self, other: MoneyView) -> Option<Ordering> {
        if self.currency != other.currency {
            None
        } else if self.amount.mantissa > other.amount.mantissa {
            Some(Ordering::Greater)
        } else if self.amount.mantissa < other.amount.mantissa {
            Some(Ordering::Less)
        } else {
            Some(Ordering::Equal)
        }
    }
}

proof fn lemma_whole_fits(n: int, d: nat)
    requires
        -0x1_0000_0000_0000_0000 < n < 0x1_0000_0000_0000_0000,
        d <= 4,
    ensures
        (AmountView { mantissa: n, scale: 0 }).fits_scale(d),
{
    reveal_with_fuel(pow10, 5);
    let p = pow10(d);
    assert(p <= 10000);
    assert(abs(n) * p <= MAX_MANTISSA) by (nonlinear_arith)
        requires abs(n) < 0x1_0000_0000_0000_0000, 0 <= p <= 10000, MAX_MANTISSA == 0xFFFF_FFFF_FFFF_FFFF_FFFF_FFFF;
}

/// The whole number `n` in `currency`, at its canonical scale.
pub open spec fn whole_view(n: int, currency: CurrencyView) -> MoneyView {
    MoneyView {
        amount: AmountView { mantissa: n * pow10(currency.digits as nat), scale: currency.digits as nat },
        currency,
    }
}

pub open spec fn view_result(r: Result<Money, MoneyError>) -> Result<MoneyView, MoneyError> {
    match r {
        Ok(m) => Ok(m@),
        Err(e) => Err(e),
    }
}

/// The result of `times` and `divided_by`: the rust_decimal result, brought back
/// to the currency's scale.
pub open spec fn scaled_result(
    raw: Option<(int, int)>,
    currency: CurrencyView,
) -> Result<MoneyView, MoneyError> {
    match raw {
        None => Err(MoneyError::ArithmeticOverflow),
        Some(p) => MoneyView::rescaled_to(AmountView { mantissa: p.0, scale: p.1 as nat }, currency),
    }
}

/// An amount of money in one currency.
#[derive(Clone, Copy, Debug, PartialEq, Eq, Hash, Structural)]
pub struct Money {
    amount: Amount,
    currency: Currency,
}

impl View for Money {
    type V = MoneyView;

    closed spec fn view(&self) -> MoneyView {
        MoneyView { amount: self.amount@, currency: self.currency@ }
    }
}

impl Money {
    #[verifier::type_invariant]
    spec fn inv(self) -> bool {
        self@.wf()
    }

    /// Two values of money with the same abstract value are equal.
    pub proof fn lemma_view_injective(a: Money, b: Money)
        ensures
            a@ == b@ ==> a == b,
    {
        Amount::lemma_view_injective(a.amount, b.amount);
        Currency::lemma_view_injective(a.currency, b.currency);
    }

    /// `amount` in `currency`, where `amount` is already at the currency's scale.
    pub fn with_amount(amount: Amount, currency: Currency) -> (r: Result<Money, MoneyError>)
        ensures
            view_result(r) == MoneyView::at_scale(amount@, currency@),
    {
        let digits = currency.digits();
        let scale = amount.scale();
        if scale == digits {
            Ok(Money { amount, currency })
        } else {
            Err(MoneyError::ArithmeticOverflow)
        }
    }

    /// `amount` in `currency`, rescaled to the currency's canonical digits.
    pub fn new(amount: Amount, currency: Currency) -> (r: Money)
        requires
            amount@.fits_scale(currency@.digits as nat),
        ensures
            r@ == (MoneyView { amount: amount@.rescaled(currency@.digits as nat), currency: currency@ }),
            r@.wf(),
    {
        let a = amount.rescale(currency.digits());
        Money { amount: a, currency }
    }

    /// `amount` in `currency`, rescaled to the currency's canonical digits, or an
    /// overflow where that scale cannot hold it.
    pub fn checked_new(amount: Amount, currency: Currency) -> (r: Result<Money, MoneyError>)
        ensures
            view_result(r) == MoneyView::rescaled_to(amount@, currency@),
    {
        let digits = currency.digits();
        let a = amount.rescale(digits);
        Money::with_amount(a, currency)
    }

    /// `amount` US dollars.
    pub fn dollars(amount: Amount) -> (r: Money)
        requires
            amount@.fits_scale(2),
        ensures
            r@ == (MoneyView { amount: amount@.rescaled(2), currency: CurrencyView { num: 840, digits: 2 } }),
    {
        Money::new(amount, Currency::usd())
    }

    /// `amount` whole US dollars.
    pub fn dollars_i32(amount: i32) -> (r: Money)
        ensures
            r@ == (MoneyView {
                amount: AmountView { mantissa: amount * 100, scale: 2 },
                currency: CurrencyView { num: 840, digits: 2 },
            }),
    {
        Money::dollars_i64(amount as i64)
    }

    /// `amount` whole US dollars.
    pub fn dollars_i64(amount: i64) -> (r: Money)
        ensures
            r@ == (MoneyView {
                amount: AmountView { mantissa: amount * 100, scale: 2 },
                currency: CurrencyView { num: 840, digits: 2 },
            }),
    {
        proof { reveal_with_fuel(pow10, 3); }
        Money::whole(amount, Currency::usd())
    }

    /// `amount` yen.
    pub fn yens(amount: Amount) -> (r: Money)
        requires
            amount@.fits_scale(0),
        ensures
            r@ == (MoneyView { amount: amount@.rescaled(0), currency: CurrencyView { num: 392, digits: 0 } }),
    {
        Money::new(amount, Currency::jpy())
    }

    /// `amount` yen.
    pub fn yens_i32(amount: i32) -> (r: Money)
        ensures
            r@ == (MoneyView {
                amount: AmountView { mantissa: amount as int, scale: 0 },
                currency: CurrencyView { num: 392, digits: 0 },
            }),
    {
        Money::yens_i64(amount as i64)
    }

    /// `amount` yen.
    pub fn yens_i64(amount: i64) -> (r: Money)
        ensures
            r@ == (MoneyView {
                amount: AmountView { mantissa: amount as int, scale: 0 },
                currency: CurrencyView { num: 392, digits: 0 },
            }),
    {
        proof { reveal_with_fuel(pow10, 1); }
        Money::whole(amount, Currency::jpy())
    }

    /// The whole number `amount` in `currency`.
    pub fn whole(amount: i64, currency: Currency) -> (r: Money)
        ensures
            r@ == whole_view(amount as int, currency@),
    {
        let digits = currency.digits();
        let a = Amount::from_i64(amount);
        proof {
            lemma_whole_fits(amount as int, digits as nat);
            assert(0 * pow10(digits as nat) == 0);
        }
        Money::new(a, currency)
    }

    /// The whole number `amount` in `currency`.
    pub fn whole_u64(amount: u64, currency: Currency) -> (r: Money)
        ensures
            r@ == whole_view(amount as int, currency@),
    {
        let digits = currency.digits();
        let a = Amount::from_u64(amount);
        proof {
            lemma_whole_fits(amount as int, digits as nat);
            assert(0 * pow10(digits as nat) == 0);
        }
        Money::new(a, currency)
    }

    /// The decimal written in `amount` in `currency`, rescaled to its canonical
    /// digits; `None` where `amount` is no decimal or the scale cannot hold it.
    pub fn parse(amount: &str, currency: Currency) -> (r: Option<Money>)
        ensures
            match decimal_parsed(amount@) {
                None => r is None,
                Some(p) => match MoneyView::rescaled_to(AmountView { mantissa: p.0, scale: p.1 as nat }, currency@) {
                    Ok(v) => r matches Some(m) && m@ == v,
                    Err(_) => r is None,
                },
            },
    {
        match Amount::parse(amount) {
            Some(a) => match Money::checked_new(a, currency) {
                Ok(m) => Some(m),
                Err(_) => None,
            },
            None => None,
        }
    }

    /// Zero in `currency`.
    pub fn zero(currency: Currency) -> (r: Money)
        ensures
            r@ == (MoneyView { amount: AmountView { mantissa: 0, scale: currency@.digits as nat }, currency: currency@ }),
    {
        Money::new(Amount::zero(), currency)
    }

    /// The same amount without its sign.
    pub fn abs(&self) -> (r: Money)
        ensures
            r@ == self@.abs(),
    {
        proof { use_type_invariant(self); }
        let a = self.amount.abs();
        Money { amount: a, currency: self.currency }
    }

    pub fn is_positive(&self) -> (r: bool)
        ensures
            r == (self@.amount.mantissa > 0),
    {
        self.amount.mantissa() > 0
    }

    pub fn is_negative(&self) -> (r: bool)
        ensures
            r == (self@.amount.mantissa < 0),
    {
        self.amount.mantissa() < 0
    }

    pub fn is_zero(&self) -> (r: bool)
        ensures
            r == (self@.amount.mantissa == 0),
    {
        self.amount.mantissa() == 0
    }

    /// The same amount with the sign flipped.
    pub fn negated(self) -> (r: Money)
        ensures
            r@ == self@.negated(),
    {
        proof { use_type_invariant(self); }
        let a = self.amount.neg();
        Money { amount: a, currency: self.currency }
    }

    /// The sum of two amounts of one currency.
    pub fn add(self, other: Money) -> (r: Result<Money, MoneyError>)
        ensures
            view_result(r) == self@.add(other@),
    {
        proof {
            use_type_invariant(self);
            use_type_invariant(other);
        }
        if self.currency.num() != other.currency.num() {
            return Err(MoneyError::NotSameCurrencyError);
        }
        let sum = self.amount.mantissa() + other.amount.mantissa();
        let scale = self.amount.scale();
        match Amount::from_parts(sum, scale) {
            Some(a) => Ok(Money { amount: a, currency: self.currency }),
            None => Err(MoneyError::ArithmeticOverflow),
        }
    }

    /// The difference of two amounts of one currency.
    pub fn subtract(self, other: Money) -> (r: Result<Money, MoneyError>)
        ensures
            view_result(r) == self@.subtract(other@),
    {
        self.add(other.negated())
    }

    /// The amount multiplied by `factor`, brought back to the currency's scale.
    pub fn times(self, factor: Amount) -> (r: Result<Money, MoneyError>)
        ensures
            view_result(r) == scaled_result(
                decimal_product((self@.amount.mantissa, self@.amount.scale as int), (factor@.mantissa, factor@.scale as int)),
                self@.currency,
            ),
    {
        let currency = self.currency();
        match self.amount.checked_mul(&factor) {
            Some(p) => Money::with_amount(p.rescale(currency.digits()), currency),
            None => Err(MoneyError::ArithmeticOverflow),
        }
    }

    /// The amount divided by `divisor`, brought back to the currency's scale.
    pub fn divided_by(self, divisor: Amount) -> (r: Result<Money, MoneyError>)
        ensures
            divisor@.mantissa == 0 ==> r == Err::<Money, MoneyError>(MoneyError::DivisionByZero),
            divisor@.mantissa != 0 ==> view_result(r) == scaled_result(
                decimal_quotient((self@.amount.mantissa, self@.amount.scale as int), (divisor@.mantissa, divisor@.scale as int)),
                self@.currency,
            ),
    {
        if divisor.mantissa() == 0 {
            return Err(MoneyError::DivisionByZero);
        }
        let currency = self.currency();
        match self.amount.checked_div(&divisor) {
            Some(q) => Money::with_amount(q.rescale(currency.digits()), currency),
            None => Err(MoneyError::ArithmeticOverflow),
        }
    }

    pub fn amount(&self) -> (r: Amount)
        ensures
            r@ == self@.amount,
            self@.wf(),
    {
        proof { use_type_invariant(self); }
        self.amount
    }

    pub fn currency(&self) -> (r: Currency)
        ensures
            r@ == self@.currency,
            self@.wf(),
    {
        proof { use_type_invariant(self); }
        self.currency
    }
}

impl From<(u32, Currency)> for Money {
    /// The whole number in the currency, at its canonical scale.
    fn from(v: (u32, Currency)) -> (r: Money) {
        let r = Money::whole(v.0 as i64, v.1);
        proof {
            Money::lemma_view_injective(r, choose|m: Money| #[trigger] m.view() == whole_view(v.0 as int, v.1@));
        }
        r
    }
}

impl FromSpecImpl<(u32, Currency)> for Money {
    open spec fn obeys_from_spec() -> bool {
        true
    }

    open spec fn from_spec(v: (u32, Currency)) -> Money {
        choose|m: Money| #[trigger] m.view() == whole_view(v.0 as int, v.1@)
    }
}

impl From<(i32, Currency)> for Money {
    /// The whole number in the currency, at its canonical scale.
    fn from(v: (i32, Currency)) -> (r: Money) {
        let r = Money::whole(v.0 as i64, v.1);
        proof {
            Money::lemma_view_injective(r, choose|m: Money| #[trigger] m.view() == whole_view(v.0 as int, v.1@));
        }
        r
    }
}

impl FromSpecImpl<(i32, Currency)> for Money {
    open spec fn obeys_from_spec() -> bool {
        true
    }

    open spec fn from_spec(v: (i32, Currency)) -> Money {
        choose|m: Money| #[trigger] m.view() == whole_view(v.0 as int, v.1@)
    }
}

impl From<(i64, Currency)> for Money {
    /// The whole number in the currency, at its canonical scale.
    fn from(v: (i64, Currency)) -> (r: Money) {
        let r = Money::whole(v.0, v.1);
        proof {
            Money::lemma_view_injective(r, choose|m: Money| #[trigger] m.view() == whole_view(v.0 as int, v.1@));
        }
        r
    }
}

impl FromSpecImpl<(i64, Currency)> for Money {
    open spec fn obeys_from_spec() -> bool {
        true
    }

    open spec fn from_spec(v: (i64, Currency)) -> Money {
        choose|m: Money| #[trigger] m.view() == whole_view(v.0 as int, v.1@)
    }
}

impl From<(u64, Currency)> for Money {
    /// The whole number in the currency, at its canonical scale.
    fn from(v: (u64, Currency)) -> (r: Money) {
        let r = Money::whole_u64(v.0, v.1);
        proof {
            Money::lemma_view_injective(r, choose|m: Money| #[trigger] m.view() == whole_view(v.0 as int, v.1@));
        }
        r
    }
}

impl FromSpecImpl<(u64, Currency)> for Money {
    open spec fn obeys_from_spec() -> bool {
        true
    }

    open spec fn from_spec(v: (u64, Currency)) -> Money {
        choose|m: Money| #[trigger] m.view() == whole_view(v.0 as int, v.1@)
    }
}

impl PartialOrd for Money {
    /// Same currency: the order of the amounts. Different currencies: unordered.
    fn partial_cmp(&self, other: &Money) -> (r: Option<Ordering>) {
        let a = self.amount();
        let b = other.amount();
        if self.currency().num() != other.currency().num() {
            None
        } else if a.mantissa() > b.mantissa() {
            Some(Ordering::Greater)
        } else if a.mantissa() < b.mantissa() {
            Some(Ordering::Less)
        } else {
            Some(Ordering::Equal)
        }
    }
}

impl vstd::std_specs::cmp::PartialOrdSpecImpl for Money {
    open spec fn obeys_partial_cmp_spec() -> bool {
        true
    }

    open spec fn partial_cmp_spec(&self, other: &Money) -> Option<Ordering> {
        self@.compare(other@)
    }
}

/// Adding `n` and then subtracting it again gives back `m`, for two amounts of
/// one currency whose sum fits.
pub proof fn lemma_add_subtract_inverse(m: Money, n: Money)
    requires
        m@.wf(),
        m@.add(n@) is Ok,
    ensures
        m@.add(n@)->Ok_0.subtract(n@) == Ok::<MoneyView, MoneyError>(m@),
{
}

/// Addition commutes, and on a currency mismatch it yields the mismatch error.
pub proof fn lemma_add_commutative(m: Money, n: Money)
    requires
        m@.wf(),
        n@.wf(),
    ensures
        m@.add(n@) == n@.add(m@),
        m@.currency != n@.currency ==> m@.add(n@) == Err::<MoneyView, MoneyError>(
            MoneyError::NotSameCurrencyError,
        ),
{
}

/// Addition associates: where both inner sums exist, the two outer sums agree.
pub proof fn lemma_add_associative(a: Money, b: Money, c: Money)
    requires
        a@.add(b@) is Ok,
        b@.add(c@) is Ok,
    ensures
        a@.add(b@)->Ok_0.add(c@) == a@.add(b@.add(c@)->Ok_0),
{
}

/// Negating twice gives back the same value.
pub proof fn lemma_negated_involutive(m: Money)
    ensures
        m@.negated().negated() == m@,
{
}

/// Equality of money is an equivalence, and it agrees with the order: two values
/// compare as equal exactly when they are equal.
pub proof fn lemma_eq_equivalence(a: Money, b: Money, c: Money)
    requires
        a@.wf(),
        b@.wf(),
    ensures
        a == a,
        a == b ==> b == a,
        a == b && b == c ==> a == c,
        (a@.compare(b@) == Some(Ordering::Equal)) <==> a == b,
{
    Money::lemma_view_injective(a, b);
}

/// Values of different currencies are never ordered.
pub proof fn lemma_cross_currency_unordered(a: Money, b: Money)
    requires
        a@.currency != b@.currency,
    ensures
        a@.compare(b@) is None,
{
}

} // verus!
