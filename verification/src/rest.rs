use vstd::prelude::*;
use vstd::string::{StrSliceExecFns, StringExecFns, StringSliceAdditionalSpecFns};

use crate::common::{OrderType, Side, TriggerSignal};
use crate::encode::{i64_dec, lemma_urlencode_ascii, num_text, pairs_view, sign_path, sort_pairs,
    sorted_keys, spec_i64_dec, spec_num_text, spec_sign_path, spec_urlencode, urlencode};
use crate::errors::KrakenError;
use crate::json::{jv, JsonNum, JsonV, JsonValue};
use crate::message::{field_str, field_string};
use crate::signing::{base64_decoded, sign_rest, spec_rest_signature};
use crate::symbol::{spec_format_symbol, Symbol};
use crate::text::{spec_string_bytes, string_from_ascii};
use crate::wire::{k_cli_ord_id_camel, k_cli_ord_id_camel_v, k_ep_accounts, k_ep_accounts_v,
    k_ep_cancelallorders, k_ep_cancelallorders_v, k_ep_cancelorder, k_ep_cancelorder_v,
    k_ep_openpositions, k_ep_openpositions_v, k_ep_orderbook, k_ep_orderbook_v, k_ep_sendorder,
    k_ep_sendorder_v, k_ep_tickers, k_ep_tickers_v, k_error, k_false_v, k_limit_price,
    k_limit_price_v, k_nonce, k_nonce_duplicate, k_nonce_v, k_order_id, k_order_id_v,
    k_order_type, k_order_type_v, k_reduce_only, k_reduce_only_v, k_result, k_side, k_side_v,
    k_size, k_size_v, k_stop_price, k_stop_price_v, k_success, k_symbol, k_symbol_v,
    k_trigger_signal, k_trigger_signal_v, k_true_v,
};

verus! {

/// The HTTP methods this exchange's endpoints use.
#[derive(Clone, Copy, Debug, PartialEq, Eq, Structural)]
pub enum HttpMethod {
    Get,
    Post,
}

/// Everything one HTTP call needs, computed and signed before any network
/// work: the method, the full URL, the encoded query or form body, and for
/// signed calls the key and signature headers.
#[derive(Debug, PartialEq, Eq)]
pub struct PreparedRequest {
    pub method: HttpMethod,
    pub url: String,
    pub query: String,
    pub api_key: Option<String>,
    pub authent: Option<String>,
    pub nonce: i64,
}

/// The futures API's default base URL.
pub open spec fn spec_futures_url() -> Seq<char> {
    "https://futures.kraken.com/derivatives/api/v3"@
}

/// The query pairs one request sends: its own pairs sorted by key, then the
/// nonce; or nothing when the request carries no payload.
pub open spec fn spec_query_pairs(
    sorted: Seq<(Seq<u8>, Seq<u8>)>,
    nonce: i64,
    has_payload: bool,
) -> Seq<(Seq<u8>, Seq<u8>)> {
    if has_payload {
        sorted.push((k_nonce(), spec_i64_dec(nonce)))
    } else {
        Seq::empty()
    }
}

/// What a well-prepared request looks like, over some sorted arrangement of
/// the given pairs.
pub open spec fn spec_prepared(
    base: Seq<char>,
    credential: Option<(String, String)>,
    method: HttpMethod,
    endpoint: Seq<u8>,
    signed: bool,
    has_payload: bool,
    pairs: Seq<(Seq<u8>, Seq<u8>)>,
    nonce: i64,
    p: PreparedRequest,
) -> bool {
    exists|sorted: Seq<(Seq<u8>, Seq<u8>)>|
        {
            let qbytes = spec_urlencode(#[trigger] spec_query_pairs(sorted, nonce, has_payload));
            let url_chars = base + endpoint.map_values(|b: u8| b as char);
            &&& sorted.to_multiset() == pairs.to_multiset()
            &&& sorted_keys(sorted)
            &&& p.method == method
            &&& p.nonce == nonce
            &&& p.url@ == url_chars
            &&& p.query@ == qbytes.map_values(|b: u8| b as char)
            &&& if signed {
                match credential {
                    Some(c) => {
                        &&& p.api_key matches Some(k) && k@ == c.0@
                        &&& p.authent matches Some(sig) && base64_decoded(c.1@) matches Some(
                            secret,
                        ) && sig@ == spec_rest_signature(
                            secret,
                            qbytes,
                            spec_i64_dec(nonce),
                            spec_sign_path(vstd::utf8::encode_utf8(url_chars)),
                        )
                    },
                    None => false,
                }
            } else {
                p.api_key is None && p.authent is None
            }
        }
}

/// The futures REST client: a base URL and an optional credential.
#[derive(Debug, PartialEq, Eq)]
pub struct KrakenRest {
    pub url: String,
    pub credential: Option<(String, String)>,
}

impl KrakenRest {
    /// A client without a credential; the default base URL when none is
    /// given.
    pub fn new(url: Option<&str>) -> (r: KrakenRest)
        ensures
            r.credential is None,
            match url {
                Some(u) => r.url@ == u@,
                None => r.url@ == spec_futures_url(),
            },
    {
        let u: String = match url {
            Some(u) => u.to_owned(),
            None => ("https://futures.kraken.com/derivatives/api/v3").to_owned(),
        };
        KrakenRest { url: u, credential: None }
    }

    /// A client with a credential.
    pub fn with_credential(url: Option<&str>, api_key: &str, api_secret: &str) -> (r: KrakenRest)
        ensures
            r.credential matches Some(c) && c.0@ == api_key@ && c.1@ == api_secret@,
            match url {
                Some(u) => r.url@ == u@,
                None => r.url@ == spec_futures_url(),
            },
    {
        let mut r = KrakenRest::new(url);
        r.credential = Some((api_key.to_owned(), api_secret.to_owned()));
        r
    }

    /// Prepares one call: sorts the request's pairs by key, appends the
    /// nonce when there is a payload, form-encodes, and for a signed
    /// endpoint computes the signature over the encoded query, the nonce
    /// digits and the signing path. A signed call without a credential
    /// fails fast with the missing-key error before anything is sent; a
    /// secret that is not base64 fails with the decode error.
    pub fn prepare(
        &self,
        method: HttpMethod,
        endpoint: &[u8],
        signed: bool,
        has_payload: bool,
        pairs: Vec<(Vec<u8>, Vec<u8>)>,
        nonce: i64,
    ) -> (r: Result<PreparedRequest, KrakenError>)
        requires
            forall|i: int| 0 <= i < endpoint@.len() ==> #[trigger] endpoint@[i] < 128,
        ensures
            match r {
                Ok(p) => spec_prepared(
                    self.url@,
                    self.credential,
                    method,
                    endpoint@,
                    signed,
                    has_payload,
                    pairs_view(pairs@),
                    nonce,
                    p,
                ),
                Err(e) => signed && (match self.credential {
                    None => e == KrakenError::NoApiKeySet,
                    Some(c) => e == KrakenError::Base64DecodeFailed && base64_decoded(
                        c.1@,
                    ) is None,
                }),
            },
    {
        let sorted = sort_pairs(pairs);
        let ghost sortedv = pairs_view(sorted@);
        let mut qpairs: Vec<(Vec<u8>, Vec<u8>)> = sorted;
        if has_payload {
            qpairs.push((crate::wire::k_nonce_v(), i64_dec(nonce)));
            proof {
                assert(pairs_view(qpairs@) =~= spec_query_pairs(sortedv, nonce, has_payload));
            }
        } else {
            qpairs = Vec::new();
            proof {
                assert(pairs_view(qpairs@) =~= spec_query_pairs(sortedv, nonce, has_payload));
            }
        }
        let qbytes = urlencode(&qpairs);
        let ghost qb = qbytes@;
        // The full URL: base then endpoint.
        let mut url = clone_string(&self.url);
        let ep = string_from_ascii(vstd::slice::slice_to_vec(endpoint));
        url.append(ep.as_str());
        proof {
            assert(url@ =~= self.url@ + endpoint@.map_values(|b: u8| b as char));
        }
        let (api_key, authent): (Option<String>, Option<String>) = if signed {
            let (key, secret) = match &self.credential {
                None => {
                    return Err(KrakenError::NoApiKeySet);
                },
                Some((k, s)) => (k, s),
            };
            let spath = sign_path(url.as_str().as_bytes());
            let ndigits = i64_dec(nonce);
            let sig = match sign_rest(
                secret.as_str(),
                qbytes.as_slice(),
                ndigits.as_slice(),
                spath.as_slice(),
            ) {
                Ok(sig) => sig,
                Err(e) => {
                    return Err(e);
                },
            };
            (Some(clone_string(key)), Some(sig))
        } else {
            (None, None)
        };
        proof {
            lemma_urlencode_ascii(pairs_view(qpairs@));
        }
        let query = string_from_ascii(qbytes);
        let p = PreparedRequest { method, url, query, api_key, authent, nonce };
        proof {
            assert(p.query@ =~= qb.map_values(|b: u8| b as char));
        }
        Ok(p)
    }

    /// Prepares one call with a fresh wall-clock nonce; the nonce used is
    /// the one the prepared request carries.
    pub fn prepare_now(
        &self,
        method: HttpMethod,
        endpoint: &[u8],
        signed: bool,
        has_payload: bool,
        pairs: Vec<(Vec<u8>, Vec<u8>)>,
    ) -> (r: Result<PreparedRequest, KrakenError>)
        requires
            forall|i: int| 0 <= i < endpoint@.len() ==> #[trigger] endpoint@[i] < 128,
        ensures
            match r {
                Ok(p) => spec_prepared(
                    self.url@,
                    self.credential,
                    method,
                    endpoint@,
                    signed,
                    has_payload,
                    pairs_view(pairs@),
                    p.nonce,
                    p,
                ),
                Err(e) => signed && (match self.credential {
                    None => e == KrakenError::NoApiKeySet,
                    Some(c) => e == KrakenError::Base64DecodeFailed && base64_decoded(
                        c.1@,
                    ) is None,
                }),
            },
    {
        let nonce = now_nanos();
        self.prepare(method, endpoint, signed, has_payload, pairs, nonce)
    }
}

/// Relies on chrono's Utc::now and timestamp_nanos_opt: a wall-clock
/// reading; nothing is assumed of its value.
#[verifier::external_body]
fn now_nanos() -> i64 {
    chrono::Utc::now().timestamp_nanos_opt().unwrap_or(i64::MAX)
}

/// Clones a string.
fn clone_string(s: &String) -> (r: String)
    ensures
        r@ == s@,
{
    s.clone()
}

// ---------------------------------------------------------------------------
// Response envelopes
// ---------------------------------------------------------------------------

/// How the futures exchange answered: a payload under a success envelope,
/// its own error message, or something unreadable.
pub enum RestOutcome {
    Payload(Seq<(Seq<u8>, JsonV)>),
    Refused(Seq<u8>),
    Malformed,
}

/// Classifies a futures response body: an object whose result field says
/// success carries the payload in its other fields; one that says error
/// carries the exchange's message; anything else is malformed.
pub open spec fn spec_classify_rest(b: Seq<u8>) -> RestOutcome {
    match crate::json::spec_parse_json(b) {
        Some(JsonV::Obj(ms)) => {
            if field_str(ms, k_result()) == Some(k_success()) {
                RestOutcome::Payload(ms)
            } else if field_str(ms, k_result()) == Some(k_error()) {
                match field_string(ms, k_error()) {
                    Some(e) => RestOutcome::Refused(e),
                    None => RestOutcome::Malformed,
                }
            } else {
                RestOutcome::Malformed
            }
        },
        _ => RestOutcome::Malformed,
    }
}

/// Reads a futures response body: the whole envelope object on success, the
/// exchange's error as its own failure, and the raw text when the body
/// matches no known shape.
pub fn handle_rest_response(text: String) -> (r: Result<JsonValue, KrakenError>)
    ensures
        match spec_classify_rest(spec_string_bytes(text)) {
            RestOutcome::Payload(ms) => r matches Ok(v) && jv(v) == JsonV::Obj(ms),
            RestOutcome::Refused(e) => r matches Err(err) && err matches KrakenError::KrakenError(
                t,
            ) && spec_string_bytes(t) == e,
            RestOutcome::Malformed => r matches Err(err) && err matches
                KrakenError::CannotDeserializeResponse(t) && t@ == text@,
        },
{
    let doc = match crate::json::parse_json(text.as_str().as_bytes()) {
        Some(doc) => doc,
        None => {
            return Err(KrakenError::CannotDeserializeResponse(text));
        },
    };
    let ms = match doc {
        JsonValue::Obj(ms) => ms,
        _ => {
            return Err(KrakenError::CannotDeserializeResponse(text));
        },
    };
    let result_tag = match crate::message::efield_str(&ms, crate::wire::k_result_v().as_slice(
    )) {
        Some(b) => b,
        None => {
            return Err(KrakenError::CannotDeserializeResponse(text));
        },
    };
    let is_success = crate::text::bytes_eq(
        result_tag.as_slice(),
        crate::wire::k_success_v().as_slice(),
    );
    let is_error = crate::text::bytes_eq(
        result_tag.as_slice(),
        crate::wire::k_error_v().as_slice(),
    );
    if is_success {
        return Ok(JsonValue::Obj(ms));
    }
    if is_error {
        match crate::message::efield_string(&ms, crate::wire::k_error_v().as_slice()) {
            Some(e) => {
                return Err(KrakenError::KrakenError(e));
            },
            None => {
                return Err(KrakenError::CannotDeserializeResponse(text));
            },
        }
    }
    Err(KrakenError::CannotDeserializeResponse(text))
}

/// Whether a failure is the exchange's duplicate-nonce refusal, the one
/// failure a caller retries by issuing the same request with a fresh nonce.
pub fn should_retry_nonce(e: &KrakenError) -> (r: bool)
    ensures
        r == match e {
            KrakenError::KrakenError(t) => spec_string_bytes(*t).len() >= 15 && spec_string_bytes(
                *t,
            ).take(15) == k_nonce_duplicate(),
            _ => false,
        },
{
    match e {
        KrakenError::KrakenError(t) => {
            let b = t.as_str().as_bytes();
            if b.len() < 15 {
                return false;
            }
            let head = vstd::slice::slice_subrange(b, 0, 15);
            proof {
                assert(b@.subrange(0, 15) =~= spec_string_bytes(*t).take(15));
            }
            crate::text::bytes_eq(head, crate::wire::k_nonce_duplicate_v().as_slice())
        },
        _ => false,
    }
}

// ---------------------------------------------------------------------------
// The per-endpoint requests
// ---------------------------------------------------------------------------

/// What a single-order cancel came back as.
#[derive(Clone, Copy, Debug, PartialEq, Eq, Structural)]
pub enum Status {
    Cancelled,
    Filled,
    NotFound,
}

/// What a cancel-all came back as.
#[derive(Clone, Copy, Debug, PartialEq, Eq, Structural)]
pub enum CancelAllStatus {
    Cancelled,
    NoOrdersToCancel,
}

/// The signed account-summary request; no payload.
#[derive(Debug, Clone, Copy, PartialEq, Eq, Structural)]
pub struct AccountsRequest;

impl AccountsRequest {
    pub fn method(&self) -> (r: HttpMethod)
        ensures
            r is Get,
    {
        HttpMethod::Get
    }

    pub fn endpoint(&self) -> (r: Vec<u8>)
        ensures
            r@ == k_ep_accounts(),
    {
        k_ep_accounts_v()
    }

    pub fn signed(&self) -> (r: bool)
        ensures
            r == true,
    {
        true
    }

    pub fn has_payload(&self) -> (r: bool)
        ensures
            r == false,
    {
        false
    }

    pub fn query_pairs(&self) -> (r: Vec<(Vec<u8>, Vec<u8>)>)
        ensures
            pairs_view(r@) =~= Seq::<(Seq<u8>, Seq<u8>)>::empty(),
    {
        Vec::new()
    }
}

/// The signed open-positions request; no payload.
#[derive(Debug, Clone, Copy, PartialEq, Eq, Structural)]
pub struct OpenPositionsRequest;

impl OpenPositionsRequest {
    pub fn method(&self) -> (r: HttpMethod)
        ensures
            r is Get,
    {
        HttpMethod::Get
    }

    pub fn endpoint(&self) -> (r: Vec<u8>)
        ensures
            r@ == k_ep_openpositions(),
    {
        k_ep_openpositions_v()
    }

    pub fn signed(&self) -> (r: bool)
        ensures
            r == true,
    {
        true
    }

    pub fn has_payload(&self) -> (r: bool)
        ensures
            r == false,
    {
        false
    }

    pub fn query_pairs(&self) -> (r: Vec<(Vec<u8>, Vec<u8>)>)
        ensures
            pairs_view(r@) =~= Seq::<(Seq<u8>, Seq<u8>)>::empty(),
    {
        Vec::new()
    }
}

/// The unsigned instrument-list request; no payload.
#[derive(Debug, Clone, Copy, PartialEq, Eq, Structural)]
pub struct TickersRequest;

impl TickersRequest {
    pub fn method(&self) -> (r: HttpMethod)
        ensures
            r is Get,
    {
        HttpMethod::Get
    }

    pub fn endpoint(&self) -> (r: Vec<u8>)
        ensures
            r@ == k_ep_tickers(),
    {
        k_ep_tickers_v()
    }

    pub fn signed(&self) -> (r: bool)
        ensures
            r == false,
    {
        false
    }

    pub fn has_payload(&self) -> (r: bool)
        ensures
            r == false,
    {
        false
    }

    pub fn query_pairs(&self) -> (r: Vec<(Vec<u8>, Vec<u8>)>)
        ensures
            pairs_view(r@) =~= Seq::<(Seq<u8>, Seq<u8>)>::empty(),
    {
        Vec::new()
    }
}

/// The unsigned order-book request for one instrument.
#[derive(Debug, Clone, Copy, PartialEq, Eq)]
pub struct OrderbookRequest {
    pub symbol: Symbol,
}

impl OrderbookRequest {
    pub fn method(&self) -> (r: HttpMethod)
        ensures
            r is Get,
    {
        HttpMethod::Get
    }

    pub fn endpoint(&self) -> (r: Vec<u8>)
        ensures
            r@ == k_ep_orderbook(),
    {
        k_ep_orderbook_v()
    }

    pub fn signed(&self) -> (r: bool)
        ensures
            r == false,
    {
        false
    }

    pub fn has_payload(&self) -> (r: bool)
        ensures
            r == true,
    {
        true
    }

    pub fn query_pairs(&self) -> (r: Vec<(Vec<u8>, Vec<u8>)>)
        ensures
            pairs_view(r@) =~= seq![(k_symbol(), spec_format_symbol(self.symbol))],
    {
        let mut r: Vec<(Vec<u8>, Vec<u8>)> = Vec::new();
        r.push((k_symbol_v(), self.symbol.to_bytes()));
        r
    }
}

/// The signed cancel-all request, over the whole account or one instrument.
#[derive(Debug, Clone, Copy, PartialEq, Eq)]
pub struct CancelAllOrdersRequest {
    pub symbol: Option<Symbol>,
}

impl CancelAllOrdersRequest {
    /// Cancels everything.
    pub fn all() -> (r: Self)
        ensures
            r.symbol is None,
    {
        CancelAllOrdersRequest { symbol: None }
    }

    /// Cancels everything on one instrument.
    pub fn by_symbol(symbol: Symbol) -> (r: Self)
        ensures
            r.symbol == Some(symbol),
    {
        CancelAllOrdersRequest { symbol: Some(symbol) }
    }

    pub fn method(&self) -> (r: HttpMethod)
        ensures
            r is Post,
    {
        HttpMethod::Post
    }

    pub fn endpoint(&self) -> (r: Vec<u8>)
        ensures
            r@ == k_ep_cancelallorders(),
    {
        k_ep_cancelallorders_v()
    }

    pub fn signed(&self) -> (r: bool)
        ensures
            r == true,
    {
        true
    }

    pub fn has_payload(&self) -> (r: bool)
        ensures
            r == true,
    {
        true
    }

    pub fn query_pairs(&self) -> (r: Vec<(Vec<u8>, Vec<u8>)>)
        ensures
            pairs_view(r@) =~= match self.symbol {
                Some(s) => seq![(k_symbol(), spec_format_symbol(s))],
                None => Seq::<(Seq<u8>, Seq<u8>)>::empty(),
            },
    {
        let mut r: Vec<(Vec<u8>, Vec<u8>)> = Vec::new();
        if let Some(s) = &self.symbol {
            r.push((k_symbol_v(), s.to_bytes()));
        }
        r
    }
}

/// The signed single-order cancel, by exchange id or client id.
#[derive(Debug, Clone, PartialEq, Eq)]
pub struct CancelOrderRequest {
    pub order_id: Option<String>,
    pub cli_ord_id: Option<String>,
}

impl CancelOrderRequest {
    /// Cancels by the exchange's order id.
    pub fn from_order_id(u: &str) -> (r: Self)
        ensures
            r.order_id matches Some(t) && t@ == u@,
            r.cli_ord_id is None,
    {
        CancelOrderRequest { order_id: Some(u.to_owned()), cli_ord_id: None }
    }

    /// Cancels by the caller's own order id.
    pub fn from_cli_ord_id(u: &str) -> (r: Self)
        ensures
            r.cli_ord_id matches Some(t) && t@ == u@,
            r.order_id is None,
    {
        CancelOrderRequest { order_id: None, cli_ord_id: Some(u.to_owned()) }
    }

    pub fn method(&self) -> (r: HttpMethod)
        ensures
            r is Post,
    {
        HttpMethod::Post
    }

    pub fn endpoint(&self) -> (r: Vec<u8>)
        ensures
            r@ == k_ep_cancelorder(),
    {
        k_ep_cancelorder_v()
    }

    pub fn signed(&self) -> (r: bool)
        ensures
            r == true,
    {
        true
    }

    pub fn has_payload(&self) -> (r: bool)
        ensures
            r == true,
    {
        true
    }

    pub fn query_pairs(&self) -> (r: Vec<(Vec<u8>, Vec<u8>)>)
        ensures
            pairs_view(r@) =~= (match self.cli_ord_id {
                Some(c) => seq![(k_cli_ord_id_camel(), spec_string_bytes(c))],
                None => Seq::<(Seq<u8>, Seq<u8>)>::empty(),
            }) + (match self.order_id {
                Some(o) => seq![(k_order_id(), spec_string_bytes(o))],
                None => Seq::<(Seq<u8>, Seq<u8>)>::empty(),
            }),
    {
        let mut r: Vec<(Vec<u8>, Vec<u8>)> = Vec::new();
        if let Some(c) = &self.cli_ord_id {
            r.push((k_cli_ord_id_camel_v(), c.as_str().as_bytes_vec()));
        }
        if let Some(o) = &self.order_id {
            r.push((k_order_id_v(), o.as_str().as_bytes_vec()));
        }
        r
    }
}

/// The signed order placement.
#[derive(Debug, Clone, PartialEq, Eq)]
pub struct SendOrderRequest {
    pub order_type: OrderType,
    pub symbol: Symbol,
    pub side: Side,
    pub size: u64,
    pub limit_price: JsonNum,
    pub stop_price: Option<JsonNum>,
    pub trigger_signal: Option<TriggerSignal>,
    pub cli_ord_id: Option<String>,
    pub reduce_only: Option<bool>,
}

impl SendOrderRequest {
    /// A plain limit order: a positive quantity buys, a negative one sells,
    /// of the quantity's magnitude.
    pub fn limit(symbol: Symbol, price: JsonNum, qty: i64) -> (r: Self)
        ensures
            r.order_type is Lmt,
            r.symbol == symbol,
            r.side == (if qty > 0 {
                Side::Buy
            } else {
                Side::Sell
            }),
            r.size == (if qty >= 0 {
                qty as int
            } else {
                -(qty as int)
            }),
            r.limit_price == price,
            r.stop_price is None,
            r.trigger_signal is None,
            r.cli_ord_id is None,
            r.reduce_only is None,
    {
        let side = if qty > 0 {
            Side::Buy
        } else {
            Side::Sell
        };
        let size: u64 = if qty >= 0 {
            qty as u64
        } else {
            ((-(qty + 1)) as u64) + 1
        };
        SendOrderRequest {
            order_type: OrderType::Lmt,
            symbol,
            side,
            size,
            limit_price: price,
            stop_price: None,
            trigger_signal: None,
            cli_ord_id: None,
            reduce_only: None,
        }
    }

    pub fn method(&self) -> (r: HttpMethod)
        ensures
            r is Post,
    {
        HttpMethod::Post
    }

    pub fn endpoint(&self) -> (r: Vec<u8>)
        ensures
            r@ == k_ep_sendorder(),
    {
        k_ep_sendorder_v()
    }

    pub fn signed(&self) -> (r: bool)
        ensures
            r == true,
    {
        true
    }

    pub fn has_payload(&self) -> (r: bool)
        ensures
            r == true,
    {
        true
    }

    /// The non-empty fields as pairs, already in key order.
    pub fn query_pairs(&self) -> (r: Vec<(Vec<u8>, Vec<u8>)>)
        ensures
            pairs_view(r@) =~= (match self.cli_ord_id {
                Some(c) => seq![(k_cli_ord_id_camel(), spec_string_bytes(c))],
                None => Seq::<(Seq<u8>, Seq<u8>)>::empty(),
            }) + seq![
                (k_limit_price(), spec_num_text(self.limit_price)),
                (k_order_type(), self.order_type.spec_wire_name()),
            ] + (match self.reduce_only {
                Some(b) => seq![
                    (
                        k_reduce_only(),
                        if b {
                            crate::wire::k_true()
                        } else {
                            crate::wire::k_false()
                        },
                    ),
                ],
                None => Seq::<(Seq<u8>, Seq<u8>)>::empty(),
            }) + seq![
                (k_side(), self.side.spec_wire_name()),
                (k_size(), crate::text::spec_u64_dec(self.size as nat)),
            ] + (match self.stop_price {
                Some(p) => seq![(k_stop_price(), spec_num_text(p))],
                None => Seq::<(Seq<u8>, Seq<u8>)>::empty(),
            }) + seq![(k_symbol(), spec_format_symbol(self.symbol))] + (
            match self.trigger_signal {
                Some(t) => seq![(k_trigger_signal(), t.spec_wire_name())],
                None => Seq::<(Seq<u8>, Seq<u8>)>::empty(),
            }),
    {
        let mut r: Vec<(Vec<u8>, Vec<u8>)> = Vec::new();
        if let Some(c) = &self.cli_ord_id {
            r.push((k_cli_ord_id_camel_v(), c.as_str().as_bytes_vec()));
        }
        r.push((k_limit_price_v(), num_text(&self.limit_price)));
        r.push((k_order_type_v(), self.order_type.wire_name()));
        if let Some(b) = &self.reduce_only {
            r.push((k_reduce_only_v(), if *b {
                k_true_v()
            } else {
                k_false_v()
            }));
        }
        r.push((k_side_v(), self.side.wire_name()));
        r.push((k_size_v(), crate::text::u64_dec(self.size)));
        if let Some(p) = &self.stop_price {
            r.push((k_stop_price_v(), num_text(p)));
        }
        r.push((k_symbol_v(), self.symbol.to_bytes()));
        if let Some(t) = &self.trigger_signal {
            r.push((k_trigger_signal_v(), t.wire_name()));
        }
        r
    }
}

} // verus!
