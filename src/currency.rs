//! ISO 4217 currencies, identified by their numeric code.
use iso_4217::CurrencyCode;
use vstd::prelude::*;

verus! {

/// The number of fractional digits that the ISO 4217 table gives for a numeric
/// currency code; `None` where the code is unknown or the currency has no minor unit.
pub uninterp spec fn iso_digits(num: u32) -> Option<u32>;

/// Relies on iso_4217's `TryFrom<u32> for CurrencyCode` and `CurrencyCode::digit`:
/// a table lookup by numeric code. The table holds no count above 4, and gives
/// US dollars (840) two digits and Japanese yen (392) none.
#[verifier::external_body]
fn lookup_digits(num: u32) -> (r: Option<u32>)
    ensures
        r == iso_digits(num),
        r matches Some(d) ==> d <= 4,
        num == 840 ==> r == Some(2u32),
        num == 392 ==> r == Some(0u32),
{
    match CurrencyCode::try_from(num) {
        Ok(code) => code.digit(),
        Err(_) => None,
    }
}

/// The abstract value of a currency: its numeric code and its canonical
/// number of fractional digits.
pub struct CurrencyView {
    pub num: u32,
    pub digits: u32,
}

/// A currency with a known minor unit.
#[derive(Clone, Copy, Debug, PartialEq, Eq, Hash, Structural)]
pub struct Currency {
    num: u32,
    digits: u32,
}

impl View for Currency {
    type V = CurrencyView;

    closed spec fn view(&self) -> CurrencyView {
        CurrencyView { num: self.num, digits: self.digits }
    }
}

impl Currency {
    #[verifier::type_invariant]
    spec fn inv(self) -> bool {
        &&& iso_digits(self.num) == Some(self.digits)
        &&& self.digits <= 4
    }

    /// Two currencies with the same abstract value are the same currency.
    pub proof fn lemma_view_injective(a: Currency, b: Currency)
        ensures
            a@ == b@ ==> a == b,
    {
    }

    /// The currency with the given numeric code, if the table knows it and gives
    /// it a minor unit.
    pub fn from_num(num: u32) -> (r: Option<Currency>)
        ensures
            match iso_digits(num) {
                Some(d) => r matches Some(c) && c@ == (CurrencyView { num, digits: d }),
                None => r is None,
            },
    {
        match lookup_digits(num) {
            Some(digits) => Some(Currency { num, digits }),
            None => None,
        }
    }

    /// US dollars: code 840, two fractional digits.
    pub fn usd() -> (r: Currency)
        ensures
            r@ == (CurrencyView { num: 840, digits: 2 }),
    {
        let digits = lookup_digits(840);
        Currency { num: 840, digits: digits.unwrap() }
    }

    /// Japanese yen: code 392, no fractional digits.
    pub fn jpy() -> (r: Currency)
        ensures
            r@ == (CurrencyView { num: 392, digits: 0 }),
    {
        let digits = lookup_digits(392);
        Currency { num: 392, digits: digits.unwrap() }
    }

    /// The ISO 4217 numeric code.
    pub fn num(&self) -> (r: u32)
        ensures
            r == self@.num,
    {
        self.num
    }

    /// The canonical number of fractional digits.
    pub fn digits(&self) -> (r: u32)
        ensures
            r == self@.digits,
            r <= 4,
            iso_digits(self@.num) == Some(r),
    {
        proof { use_type_invariant(self); }
        self.digits
    }
}

} // verus!
