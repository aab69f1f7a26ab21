use paykit::currency::{AmountError, Currency, CurrencyAmount};

#[test]
fn codes_round_trip() {
    assert_eq!(Currency::from_code("EUR"), Some(Currency::EUR));
    assert_eq!(Currency::from_code("eur"), Some(Currency::EUR));
    assert_eq!(Currency::from_code("Usd"), Some(Currency::USD));
    assert_eq!(Currency::from_code("btc"), Some(Currency::BTC));
    assert_eq!(Currency::from_code("gbp"), Some(Currency::GBP));
    assert_eq!(Currency::from_code("cad"), Some(Currency::CAD));
    assert_eq!(Currency::from_code("chf"), Some(Currency::CHF));
    assert_eq!(Currency::from_code("aud"), Some(Currency::AUD));
    assert_eq!(Currency::from_code("jpy"), Some(Currency::JPY));
    assert_eq!(Currency::from_code("xxx"), None);
    assert_eq!(Currency::from_code("eu"), None);
    assert_eq!(Currency::from_code("euro"), None);
}

#[test]
fn code_strings() {
    assert_eq!(Currency::EUR.code().as_str(), "EUR");
    assert_eq!(Currency::JPY.code().as_str(), "JPY");
    assert_eq!(Currency::EUR.code_lower().as_str(), "eur");
    assert_eq!(Currency::BTC.code_lower().as_str(), "btc");
}

#[test]
fn amounts() {
    let a = CurrencyAmount::millisats(2100);
    assert_eq!(a.currency(), Currency::BTC);
    assert_eq!(a.value(), 2100);

    let b = CurrencyAmount::from_u64(Currency::EUR, 500);
    assert_eq!(b.currency(), Currency::EUR);
    assert_eq!(b.value(), 500);
}

#[test]
fn subtraction_same_currency() {
    let a = CurrencyAmount::from_u64(Currency::EUR, 500);
    let b = CurrencyAmount::from_u64(Currency::EUR, 200);
    let d = a.sub(b).unwrap();
    assert_eq!(d.currency(), Currency::EUR);
    assert_eq!(d.value(), 300);
}

#[test]
fn subtraction_currency_mismatch() {
    let a = CurrencyAmount::from_u64(Currency::EUR, 500);
    let b = CurrencyAmount::from_u64(Currency::USD, 200);
    assert_eq!(a.sub(b), Err(AmountError::CurrencyMismatch));
}
