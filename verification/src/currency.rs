//! Currencies and integer currency amounts.
//!
//! Fiat amounts are carried in minor units (cents); Bitcoin amounts in
//! milli-satoshis.

use vstd::prelude::*;
use vstd::string::StrSliceExecFns;

verus! {

/// Currencies the payment back-ends understand.
#[derive(Copy, Clone, Debug, PartialEq, Eq, Hash, Structural)]
pub enum Currency {
    EUR,
    BTC,
    USD,
    GBP,
    CAD,
    CHF,
    AUD,
    JPY,
}

/// `a` matches the lower-case ASCII letter `l`, ignoring ASCII case.
pub open spec fn char_eq_ascii_ci(a: char, l: char) -> bool {
    a == l || ('A' <= a && a <= 'Z' && a as u32 + 32 == l as u32)
}

/// `s` is the three-letter code `abc`, ignoring ASCII case.
pub open spec fn code3_matches(s: Seq<char>, a: char, b: char, c: char) -> bool {
    s.len() == 3 && char_eq_ascii_ci(s[0], a) && char_eq_ascii_ci(s[1], b) && char_eq_ascii_ci(
        s[2],
        c,
    )
}

impl Currency {
    /// The upper-case code, as the providers print it.
    pub open spec fn spec_code(self) -> Seq<char> {
        match self {
            Currency::EUR => "EUR"@,
            Currency::BTC => "BTC"@,
            Currency::USD => "USD"@,
            Currency::GBP => "GBP"@,
            Currency::CAD => "CAD"@,
            Currency::CHF => "CHF"@,
            Currency::AUD => "AUD"@,
            Currency::JPY => "JPY"@,
        }
    }

    /// The lower-case code, as some provider APIs want it in request bodies.
    pub open spec fn spec_code_lower(self) -> Seq<char> {
        match self {
            Currency::EUR => "eur"@,
            Currency::BTC => "btc"@,
            Currency::USD => "usd"@,
            Currency::GBP => "gbp"@,
            Currency::CAD => "cad"@,
            Currency::CHF => "chf"@,
            Currency::AUD => "aud"@,
            Currency::JPY => "jpy"@,
        }
    }

    /// Which currency a code names, ignoring ASCII case; `None` for anything else.
    pub open spec fn spec_from_code(s: Seq<char>) -> Option<Currency> {
        if code3_matches(s, 'e', 'u', 'r') {
            Some(Currency::EUR)
        } else if code3_matches(s, 'u', 's', 'd') {
            Some(Currency::USD)
        } else if code3_matches(s, 'b', 't', 'c') {
            Some(Currency::BTC)
        } else if code3_matches(s, 'g', 'b', 'p') {
            Some(Currency::GBP)
        } else if code3_matches(s, 'c', 'a', 'd') {
            Some(Currency::CAD)
        } else if code3_matches(s, 'c', 'h', 'f') {
            Some(Currency::CHF)
        } else if code3_matches(s, 'a', 'u', 'd') {
            Some(Currency::AUD)
        } else if code3_matches(s, 'j', 'p', 'y') {
            Some(Currency::JPY)
        } else {
            None
        }
    }

    pub fn code(&self) -> (r: String)
        ensures
            r@ == self.spec_code(),
    {
        match self {
            Currency::EUR => "EUR".to_owned(),
            Currency::BTC => "BTC".to_owned(),
            Currency::USD => "USD".to_owned(),
            Currency::GBP => "GBP".to_owned(),
            Currency::CAD => "CAD".to_owned(),
            Currency::CHF => "CHF".to_owned(),
            Currency::AUD => "AUD".to_owned(),
            Currency::JPY => "JPY".to_owned(),
        }
    }

    pub fn code_lower(&self) -> (r: String)
        ensures
            r@ == self.spec_code_lower(),
    {
        match self {
            Currency::EUR => "eur".to_owned(),
            Currency::BTC => "btc".to_owned(),
            Currency::USD => "usd".to_owned(),
            Currency::GBP => "gbp".to_owned(),
            Currency::CAD => "cad".to_owned(),
            Currency::CHF => "chf".to_owned(),
            Currency::AUD => "aud".to_owned(),
            Currency::JPY => "jpy".to_owned(),
        }
    }

    /// Parse a currency code, ignoring ASCII case.
    pub fn from_code(s: &str) -> (r: Option<Currency>)
        ensures
            r == Currency::spec_from_code(s@),
    {
        if s.unicode_len() != 3 {
            return None;
        }
        let c0 = s.get_char(0);
        let c1 = s.get_char(1);
        let c2 = s.get_char(2);
        if eq_ci(c0, 'e') && eq_ci(c1, 'u') && eq_ci(c2, 'r') {
            Some(Currency::EUR)
        } else if eq_ci(c0, 'u') && eq_ci(c1, 's') && eq_ci(c2, 'd') {
            Some(Currency::USD)
        } else if eq_ci(c0, 'b') && eq_ci(c1, 't') && eq_ci(c2, 'c') {
            Some(Currency::BTC)
        } else if eq_ci(c0, 'g') && eq_ci(c1, 'b') && eq_ci(c2, 'p') {
            Some(Currency::GBP)
        } else if eq_ci(c0, 'c') && eq_ci(c1, 'a') && eq_ci(c2, 'd') {
            Some(Currency::CAD)
        } else if eq_ci(c0, 'c') && eq_ci(c1, 'h') && eq_ci(c2, 'f') {
            Some(Currency::CHF)
        } else if eq_ci(c0, 'a') && eq_ci(c1, 'u') && eq_ci(c2, 'd') {
            Some(Currency::AUD)
        } else if eq_ci(c0, 'j') && eq_ci(c1, 'p') && eq_ci(c2, 'y') {
            Some(Currency::JPY)
        } else {
            None
        }
    }
}

/// ASCII-case-insensitive match of one char against a lower-case letter.
fn eq_ci(a: char, l: char) -> (r: bool)
    ensures
        r == char_eq_ascii_ci(a, l),
{
    a == l || ('A' <= a && a <= 'Z' && (a as u32) + 32 == (l as u32))
}

/// An amount of one currency: minor units for fiat, milli-satoshis for BTC.
#[derive(Copy, Clone, Debug, PartialEq, Eq, Structural)]
pub struct CurrencyAmount(pub Currency, pub u64);

/// Why two amounts could not be combined.
#[derive(Copy, Clone, Debug, PartialEq, Eq, Structural)]
pub enum AmountError {
    /// The two amounts are not in the same currency.
    CurrencyMismatch,
}

impl CurrencyAmount {
    /// A Bitcoin amount, in milli-satoshis.
    pub fn millisats(amount: u64) -> (r: Self)
        ensures
            r == CurrencyAmount(Currency::BTC, amount),
    {
        CurrencyAmount(Currency::BTC, amount)
    }

    pub fn from_u64(currency: Currency, amount: u64) -> (r: Self)
        ensures
            r == CurrencyAmount(currency, amount),
    {
        CurrencyAmount(currency, amount)
    }

    pub fn value(&self) -> (r: u64)
        ensures
            r == self.1,
    {
        self.1
    }

    pub fn currency(&self) -> (r: Currency)
        ensures
            r == self.0,
    {
        self.0
    }

    /// The difference of two amounts of the same currency.
    pub fn sub(self, rhs: Self) -> (r: Result<CurrencyAmount, AmountError>)
        requires
            self.0 == rhs.0 ==> rhs.1 <= self.1,
        ensures
            self.0 == rhs.0 ==> r == Ok::<CurrencyAmount, AmountError>(
                CurrencyAmount(self.0, (self.1 - rhs.1) as u64),
            ),
            self.0 != rhs.0 ==> r == Err::<CurrencyAmount, AmountError>(
                AmountError::CurrencyMismatch,
            ),
    {
        if self.0 == rhs.0 {
            Ok(CurrencyAmount(self.0, self.1 - rhs.1))
        } else {
            Err(AmountError::CurrencyMismatch)
        }
    }
}

} // verus!
