use kraken_rs::encode::num_text;
use kraken_rs::errors::KrakenError;
use kraken_rs::json::{JsonNum, JsonValue};
use kraken_rs::rest::{
    handle_rest_response, should_retry_nonce, AccountsRequest, CancelAllOrdersRequest,
    CancelOrderRequest, HttpMethod, KrakenRest, OrderbookRequest, SendOrderRequest,
    TickersRequest,
};
use kraken_rs::spot::{handle_spot_response, GetTradeBalanceRequest, Kraken};
use kraken_rs::symbol::Symbol;

const SECRET: &str = "a3Jha2VuLXRlc3Qtc2VjcmV0LTAxMjM0NTY3ODk=";
const SIG_ACCOUNTS: &str =
    "1JbUnKuEDLxeFt51g4VY5L95KRzG4SVD5GtAHrndBTevp/QTz2RQJYnFcIJnKZd9LTMWIoPcSib4HxEJisG5FA==";
const SIG_CANCEL: &str =
    "7vjHSWcB8BtCCXQPaQS17Sh4hQ4BTHCP2gM7IyZNwf8gZIcp37MBcPninsq9uLqjuPMfePAw6uyJkTmqirgE5w==";
const SIG_SPOT_TB: &str =
    "NpjkbbhwfKfGNXBdpynqBSjs1WnqOswIL+gI69zTdPhHb+OhXK2bB2LN9YkYe+GwZHPV9Tc862Wwkm34gWPgqg==";

#[test]
fn unsigned_orderbook_request() {
    let client = KrakenRest::new(None);
    let req = OrderbookRequest { symbol: Symbol::parse("PI_XBTUSD").unwrap() };
    let p = client
        .prepare(
            req.method(),
            &req.endpoint(),
            req.signed(),
            req.has_payload(),
            req.query_pairs(),
            7,
        )
        .unwrap();
    assert_eq!(p.method, HttpMethod::Get);
    assert_eq!(p.url, "https://futures.kraken.com/derivatives/api/v3/orderbook");
    assert_eq!(p.query, "symbol=PI_XBTUSD&nonce=7");
    assert_eq!(p.api_key, None);
    assert_eq!(p.authent, None);
}

#[test]
fn signed_accounts_request_matches_fixture() {
    let client = KrakenRest::with_credential(None, "my-key", SECRET);
    let req = AccountsRequest;
    let p = client
        .prepare(
            req.method(),
            &req.endpoint(),
            req.signed(),
            req.has_payload(),
            req.query_pairs(),
            1700000000000000000,
        )
        .unwrap();
    assert_eq!(p.query, "");
    assert_eq!(p.api_key.as_deref(), Some("my-key"));
    assert_eq!(p.authent.as_deref(), Some(SIG_ACCOUNTS));
}

#[test]
fn signed_cancel_all_matches_fixture() {
    let client = KrakenRest::with_credential(None, "my-key", SECRET);
    let req = CancelAllOrdersRequest::by_symbol(Symbol::parse("PI_XBTUSD").unwrap());
    let p = client
        .prepare(
            req.method(),
            &req.endpoint(),
            req.signed(),
            req.has_payload(),
            req.query_pairs(),
            42,
        )
        .unwrap();
    assert_eq!(p.method, HttpMethod::Post);
    assert_eq!(p.query, "symbol=PI_XBTUSD&nonce=42");
    assert_eq!(p.authent.as_deref(), Some(SIG_CANCEL));
}

#[test]
fn signed_request_without_credential_fails_fast() {
    let client = KrakenRest::new(None);
    let req = AccountsRequest;
    assert_eq!(
        client.prepare(
            req.method(),
            &req.endpoint(),
            req.signed(),
            req.has_payload(),
            req.query_pairs(),
            1,
        ),
        Err(KrakenError::NoApiKeySet)
    );
}

#[test]
fn pairs_are_sorted_and_values_escaped() {
    let client = KrakenRest::new(None);
    let pairs: Vec<(Vec<u8>, Vec<u8>)> = vec![
        (b"zeta".to_vec(), b"a value".to_vec()),
        (b"alpha".to_vec(), b"x&y=z".to_vec()),
    ];
    let p = client
        .prepare(HttpMethod::Post, b"/x", false, true, pairs, 5)
        .unwrap();
    assert_eq!(p.query, "alpha=x%26y%3Dz&zeta=a+value&nonce=5");
}

#[test]
fn send_order_limit_pairs() {
    let req = SendOrderRequest::limit(
        Symbol::parse("PI_XBTUSD").unwrap(),
        JsonNum { neg: false, mant: 300005, scale: 1 },
        -2,
    );
    let pairs = req.query_pairs();
    let text: Vec<(String, String)> = pairs
        .iter()
        .map(|(k, v)| {
            (
                String::from_utf8(k.clone()).unwrap(),
                String::from_utf8(v.clone()).unwrap(),
            )
        })
        .collect();
    assert_eq!(
        text,
        vec![
            ("limitPrice".to_string(), "30000.5".to_string()),
            ("orderType".to_string(), "lmt".to_string()),
            ("side".to_string(), "sell".to_string()),
            ("size".to_string(), "2".to_string()),
            ("symbol".to_string(), "PI_XBTUSD".to_string()),
        ]
    );
}

#[test]
fn cancel_order_request_pairs() {
    let req = CancelOrderRequest::from_order_id("6245e9f1-c6a0-4aa9-9f33-92bb0d543e55");
    let pairs = req.query_pairs();
    assert_eq!(pairs.len(), 1);
    assert_eq!(pairs[0].0, b"order_id".to_vec());
    let req = CancelOrderRequest::from_cli_ord_id("abc");
    assert_eq!(req.query_pairs()[0].0, b"cliOrdId".to_vec());
}

#[test]
fn decimal_renderings() {
    assert_eq!(num_text(&JsonNum { neg: false, mant: 7, scale: 0 }), b"7".to_vec());
    assert_eq!(num_text(&JsonNum { neg: true, mant: 300005, scale: 1 }), b"-30000.5".to_vec());
    assert_eq!(num_text(&JsonNum { neg: false, mant: 5, scale: 3 }), b"0.005".to_vec());
    assert_eq!(num_text(&JsonNum { neg: false, mant: 0, scale: 0 }), b"0".to_vec());
}

#[test]
fn rest_response_success_and_error() {
    let ok = handle_rest_response(
        "{\"result\":\"success\",\"serverTime\":\"2020\",\"answer\":42}".to_string(),
    )
    .unwrap();
    match ok {
        JsonValue::Obj(ms) => assert_eq!(ms.len(), 3),
        other => panic!("unexpected {:?}", other),
    }
    assert_eq!(
        handle_rest_response("{\"result\":\"error\",\"error\":\"nonceDuplicate: x\"}".to_string()),
        Err(KrakenError::KrakenError("nonceDuplicate: x".to_string()))
    );
    assert!(matches!(
        handle_rest_response("not json".to_string()),
        Err(KrakenError::CannotDeserializeResponse(_))
    ));
}

#[test]
fn retry_only_on_duplicate_nonce() {
    assert!(should_retry_nonce(&KrakenError::KrakenError(
        "nonceDuplicate: already seen".to_string()
    )));
    assert!(!should_retry_nonce(&KrakenError::KrakenError(
        "apiLimitExceeded".to_string()
    )));
    assert!(!should_retry_nonce(&KrakenError::NoApiKeySet));
}

#[test]
fn tickers_request_shape() {
    let req = TickersRequest;
    assert_eq!(req.method(), HttpMethod::Get);
    assert!(!req.signed());
    assert!(!req.has_payload());
}

#[test]
fn spot_trade_balance_matches_fixture() {
    let client = Kraken::with_credential("my-key", SECRET);
    let req = GetTradeBalanceRequest {
        aclass: "currency".to_string(),
        asset: "ZUSD".to_string(),
    };
    let p = client
        .prepare(&req.endpoint(), req.signed(), req.has_payload(), req.query_pairs(), 7)
        .unwrap();
    assert_eq!(p.url, "https://api.kraken.com/0/private/TradeBalance");
    assert_eq!(p.query, "aclass=currency&asset=ZUSD&nonce=7");
    assert_eq!(p.api_key.as_deref(), Some("my-key"));
    assert_eq!(p.authent.as_deref(), Some(SIG_SPOT_TB));
}

#[test]
fn spot_response_envelopes() {
    let ok = handle_spot_response("{\"error\":[],\"result\":{\"unixtime\":12}}".to_string())
        .unwrap();
    assert!(matches!(ok, JsonValue::Obj(_)));
    assert_eq!(
        handle_spot_response("{\"error\":[\"EGeneral:Invalid arguments\"]}".to_string()),
        Err(KrakenError::KrakenErrors(vec![
            "EGeneral:Invalid arguments".to_string()
        ]))
    );
    assert!(matches!(
        handle_spot_response("[1,2]".to_string()),
        Err(KrakenError::CannotDeserializeResponse(_))
    ));
}
