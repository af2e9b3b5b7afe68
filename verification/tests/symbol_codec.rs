use kraken_rs::errors::KrakenError;
use kraken_rs::symbol::{Currency, Pair, Symbol};

#[test]
fn parse_perpetual() {
    let s = Symbol::parse("PI_XBTUSD").unwrap();
    assert_eq!(s, Symbol::PerpetualInverse(Pair(Currency::XBT, Currency::USD)));
    assert_eq!(s.pair(), Some(Pair(Currency::XBT, Currency::USD)));
}

#[test]
fn parse_cash() {
    assert_eq!(Symbol::parse("CASH").unwrap(), Symbol::Cash);
    assert_eq!(Symbol::parse("cash").unwrap(), Symbol::Cash);
    assert_eq!(Symbol::parse("CASH").unwrap().pair(), None);
}

#[test]
fn parse_future_with_expiry() {
    let s = Symbol::parse("FI_ETHUSD_1604073600").unwrap();
    assert_eq!(
        s,
        Symbol::FutureInverse(Pair(Currency::ETH, Currency::USD), Some(1604073600))
    );
}

#[test]
fn parse_is_case_insensitive() {
    assert_eq!(
        Symbol::parse("pi_xbtusd").unwrap(),
        Symbol::parse("PI_XBTUSD").unwrap()
    );
    assert_eq!(Currency::parse("xbt").unwrap(), Currency::XBT);
}

#[test]
fn format_round_trips_every_kind() {
    // For all canonical strings s, format(parse(s)) == s.
    let cases = [
        "CASH",
        "FI_XBTUSD",
        "FI_XBTUSD_1604073600",
        "FV_ETHUSD",
        "FV_ETHUSD_42",
        "PI_XBTUSD",
        "PV_LTCUSD",
        "IN_BCHUSD",
        "RR_XRPUSD",
    ];
    for s in cases {
        let sym = Symbol::parse(s).unwrap();
        assert_eq!(sym.format(), s, "round trip of {}", s);
        assert_eq!(Symbol::parse(&sym.format()).unwrap(), sym);
    }
}

#[test]
fn pair_round_trip() {
    let p = Pair::parse("XBTUSD").unwrap();
    assert_eq!(p, Pair(Currency::XBT, Currency::USD));
    assert_eq!(p.format(), "XBTUSD");
    assert_eq!(Pair::parse("xbtusd").unwrap(), p);
}

#[test]
fn pair_wrong_length_fails_with_pair_error() {
    // Length other than six is a pair error, never a panic.
    for s in ["", "X", "XBTUS", "XBTUSDT", "XBTUSDXBTUSD"] {
        match Pair::parse(s) {
            Err(KrakenError::ParsePairFailed(t)) => assert_eq!(t, s),
            other => panic!("expected ParsePairFailed for {:?}, got {:?}", s, other),
        }
    }
}

#[test]
fn pair_unknown_currency_fails_with_currency_error() {
    match Pair::parse("ABCUSD") {
        Err(KrakenError::ParseCurrencyFailed(t)) => assert_eq!(t, "ABCUSD"),
        other => panic!("unexpected {:?}", other),
    }
}

#[test]
fn currency_unknown_fails() {
    match Currency::parse("DOGE") {
        Err(KrakenError::ParseCurrencyFailed(t)) => assert_eq!(t, "DOGE"),
        other => panic!("unexpected {:?}", other),
    }
}

#[test]
fn symbol_malformed_shapes_fail() {
    for s in ["", "XBTUSD", "FI", "FIXBTUSD", "ZZ_XBTUSD", "FI_XBTUSD_12_34"] {
        match Symbol::parse(s) {
            Err(KrakenError::ParseSymbolFailed(t)) => assert_eq!(t, s),
            other => panic!("expected ParseSymbolFailed for {:?}, got {:?}", s, other),
        }
    }
}

#[test]
fn symbol_bad_pair_token_reports_pair_or_currency() {
    match Symbol::parse("PI_XBTUS") {
        Err(KrakenError::ParsePairFailed(t)) => assert_eq!(t, "PI_XBTUS"),
        other => panic!("unexpected {:?}", other),
    }
    match Symbol::parse("PI_ABCUSD") {
        Err(KrakenError::ParseCurrencyFailed(t)) => assert_eq!(t, "PI_ABCUSD"),
        other => panic!("unexpected {:?}", other),
    }
    // A bad expiry is a symbol error, as is one only futures may carry.
    match Symbol::parse("FI_XBTUSD_16z4") {
        Err(KrakenError::ParseSymbolFailed(_)) => {}
        other => panic!("unexpected {:?}", other),
    }
    match Symbol::parse("PI_XBTUSD_1604") {
        Err(KrakenError::ParseSymbolFailed(_)) => {}
        other => panic!("unexpected {:?}", other),
    }
}

#[test]
fn symbol_expiry_overflow_fails() {
    match Symbol::parse("FI_XBTUSD_99999999999999999999999") {
        Err(KrakenError::ParseSymbolFailed(_)) => {}
        other => panic!("unexpected {:?}", other),
    }
}
