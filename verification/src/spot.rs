use vstd::prelude::*;
use vstd::string::{StrSliceExecFns, StringExecFns, StringSliceAdditionalSpecFns};

use crate::encode::{i64_dec, lemma_urlencode_ascii, pairs_view, sort_pairs, spec_i64_dec,
    spec_url_path, spec_urlencode, url_path, urlencode};
use crate::errors::KrakenError;
use crate::json::{jms, jv, jvs, spec_obj_get, JsonV, JsonValue};
use crate::rest::{spec_query_pairs, HttpMethod, PreparedRequest};
use crate::signing::{base64_decoded, sign_spot, spec_spot_signature};
use crate::text::{spec_string_bytes, string_from_ascii, string_from_utf8};
use crate::wire::{k_aclass, k_aclass_v, k_asset, k_asset_v, k_ep_server_time, k_ep_server_time_v,
    k_ep_trade_balance, k_ep_trade_balance_v, k_error, k_error_v, k_result, k_result_v};

verus! {

/// The spot API's base URL.
pub open spec fn spec_spot_url() -> Seq<char> {
    "https://api.kraken.com"@
}

/// What a well-prepared spot call looks like: always a POST, the body
/// form-encoded from some sorted arrangement of the pairs with the nonce
/// appended, and for signed calls the spot signature over the URL path and
/// the digest of nonce and body.
pub open spec fn spec_spot_prepared(
    credential: Option<(String, String)>,
    endpoint: Seq<u8>,
    signed: bool,
    has_payload: bool,
    pairs: Seq<(Seq<u8>, Seq<u8>)>,
    nonce: i64,
    p: PreparedRequest,
) -> bool {
    exists|sorted: Seq<(Seq<u8>, Seq<u8>)>|
        {
            let qbytes = spec_urlencode(#[trigger] spec_query_pairs(sorted, nonce, has_payload));
            let url_chars = spec_spot_url() + endpoint.map_values(|b: u8| b as char);
            &&& sorted.to_multiset() == pairs.to_multiset()
            &&& crate::encode::sorted_keys(sorted)
            &&& p.method is Post
            &&& p.nonce == nonce
            &&& p.url@ == url_chars
            &&& p.query@ == qbytes.map_values(|b: u8| b as char)
            &&& if signed {
                match credential {
                    Some(c) => {
                        &&& p.api_key matches Some(k) && k@ == c.0@
                        &&& p.authent matches Some(sig) && base64_decoded(c.1@) matches Some(
                            secret,
                        ) && sig@ == spec_spot_signature(
                            secret,
                            spec_url_path(vstd::utf8::encode_utf8(url_chars)),
                            spec_i64_dec(nonce),
                            qbytes,
                        )
                    },
                    None => false,
                }
            } else {
                p.api_key is None && p.authent is None
            }
        }
}

/// The spot REST client: an optional credential over the fixed base URL.
#[derive(Debug, PartialEq, Eq)]
pub struct Kraken {
    pub credential: Option<(String, String)>,
}

impl Default for Kraken {
    /// A client without a credential.
    fn default() -> (r: Kraken)
        ensures
            r.credential is None,
    {
        Kraken::new()
    }
}

impl Kraken {
    /// A client without a credential.
    pub fn new() -> (r: Kraken)
        ensures
            r.credential is None,
    {
        Kraken { credential: None }
    }

    /// A client with a credential.
    pub fn with_credential(api_key: &str, api_secret: &str) -> (r: Kraken)
        ensures
            r.credential matches Some(c) && c.0@ == api_key@ && c.1@ == api_secret@,
    {
        Kraken { credential: Some((api_key.to_owned(), api_secret.to_owned())) }
    }

    /// Prepares one spot call: sorts the pairs, appends the nonce when
    /// there is a payload, form-encodes the body, and for a signed endpoint
    /// signs the URL path together with the digest of nonce and body. A
    /// signed call without a credential fails fast; a secret that is not
    /// base64 fails with the decode error.
    pub fn prepare(
        &self,
        endpoint: &[u8],
        signed: bool,
        has_payload: bool,
        pairs: Vec<(Vec<u8>, Vec<u8>)>,
        nonce: i64,
    ) -> (r: Result<PreparedRequest, KrakenError>)
        requires
            forall|i: int| 0 <= i < endpoint@.len() ==> #[trigger] endpoint@[i] < 128,
        ensures
            match r {
                Ok(p) => spec_spot_prepared(
                    self.credential,
                    endpoint@,
                    signed,
                    has_payload,
                    pairs_view(pairs@),
                    nonce,
                    p,
                ),
                Err(e) => signed && (match self.credential {
                    None => e == KrakenError::NoApiKeySet,
                    Some(c) => e == KrakenError::Base64DecodeFailed && base64_decoded(
                        c.1@,
                    ) is None,
                }),
            },
    {
        let sorted = sort_pairs(pairs);
        let ghost sortedv = pairs_view(sorted@);
        let mut qpairs: Vec<(Vec<u8>, Vec<u8>)> = sorted;
        if has_payload {
            qpairs.push((crate::wire::k_nonce_v(), i64_dec(nonce)));
            proof {
                assert(pairs_view(qpairs@) =~= spec_query_pairs(sortedv, nonce, has_payload));
            }
        } else {
            qpairs = Vec::new();
            proof {
                assert(pairs_view(qpairs@) =~= spec_query_pairs(sortedv, nonce, has_payload));
            }
        }
        let qbytes = urlencode(&qpairs);
        let ghost qb = qbytes@;
        let mut url: String = ("https://api.kraken.com").to_owned();
        let ep = string_from_ascii(vstd::slice::slice_to_vec(endpoint));
        url.append(ep.as_str());
        proof {
            assert(url@ =~= spec_spot_url() + endpoint@.map_values(|b: u8| b as char));
        }
        let (api_key, authent): (Option<String>, Option<String>) = if signed {
            let (key, secret) = match &self.credential {
                None => {
                    return Err(KrakenError::NoApiKeySet);
                },
                Some((k, s)) => (k, s),
            };
            let path = url_path(url.as_str().as_bytes());
            let ndigits = i64_dec(nonce);
            let sig = match sign_spot(
                secret.as_str(),
                path.as_slice(),
                ndigits.as_slice(),
                qbytes.as_slice(),
            ) {
                Ok(sig) => sig,
                Err(e) => {
                    return Err(e);
                },
            };
            (Some(key.clone()), Some(sig))
        } else {
            (None, None)
        };
        proof {
            lemma_urlencode_ascii(pairs_view(qpairs@));
        }
        let query = string_from_ascii(qbytes);
        let p = PreparedRequest { method: HttpMethod::Post, url, query, api_key, authent, nonce };
        proof {
            assert(p.query@ =~= qb.map_values(|b: u8| b as char));
        }
        Ok(p)
    }

    /// Prepares one spot call with a fresh wall-clock nonce; the nonce used
    /// is the one the prepared request carries.
    pub fn prepare_now(
        &self,
        endpoint: &[u8],
        signed: bool,
        has_payload: bool,
        pairs: Vec<(Vec<u8>, Vec<u8>)>,
    ) -> (r: Result<PreparedRequest, KrakenError>)
        requires
            forall|i: int| 0 <= i < endpoint@.len() ==> #[trigger] endpoint@[i] < 128,
        ensures
            match r {
                Ok(p) => spec_spot_prepared(
                    self.credential,
                    endpoint@,
                    signed,
                    has_payload,
                    pairs_view(pairs@),
                    p.nonce,
                    p,
                ),
                Err(e) => signed && (match self.credential {
                    None => e == KrakenError::NoApiKeySet,
                    Some(c) => e == KrakenError::Base64DecodeFailed && base64_decoded(
                        c.1@,
                    ) is None,
                }),
            },
    {
        let nonce = now_millis();
        self.prepare(endpoint, signed, has_payload, pairs, nonce)
    }
}

/// Relies on chrono's Utc::now and timestamp_millis: a wall-clock reading;
/// nothing is assumed of its value.
#[verifier::external_body]
fn now_millis() -> i64 {
    chrono::Utc::now().timestamp_millis()
}

// ---------------------------------------------------------------------------
// Response envelope
// ---------------------------------------------------------------------------

/// The exchange's error list, when every element is a string.
pub open spec fn spec_err_strings(xs: Seq<JsonV>) -> Option<Seq<Seq<u8>>>
    decreases xs.len(),
{
    if xs.len() == 0 {
        Some(Seq::empty())
    } else {
        match xs[0] {
            JsonV::Str(b) => if vstd::utf8::valid_utf8(b) {
                match spec_err_strings(xs.drop_first()) {
                    Some(rest) => Some(seq![b] + rest),
                    None => None,
                }
            } else {
                None
            },
            _ => None,
        }
    }
}

/// How the spot exchange answered: the value under its result field, its
/// own error list, or something unreadable.
pub enum SpotOutcome {
    Payload(JsonV),
    Refused(Seq<Seq<u8>>),
    Malformed,
}

/// Classifies a spot response body: an object with a result field carries
/// that value; one without it but with a string-list error field carries
/// the exchange's messages; anything else is malformed.
pub open spec fn spec_classify_spot(b: Seq<u8>) -> SpotOutcome {
    match crate::json::spec_parse_json(b) {
        Some(JsonV::Obj(ms)) => match spec_obj_get(ms, k_result()) {
            Some(v) => SpotOutcome::Payload(v),
            None => match spec_obj_get(ms, k_error()) {
                Some(JsonV::Arr(xs)) => match spec_err_strings(xs) {
                    Some(es) => SpotOutcome::Refused(es),
                    None => SpotOutcome::Malformed,
                },
                _ => SpotOutcome::Malformed,
            },
        },
        _ => SpotOutcome::Malformed,
    }
}

/// The byte views of a list of strings.
pub open spec fn strings_bytes(ss: Seq<String>) -> Seq<Seq<u8>> {
    Seq::new(ss.len(), |i: int| spec_string_bytes(ss[i]))
}

/// Reads the error strings of a spot error list.
fn decode_err_strings(xs: &Vec<JsonValue>, i: usize) -> (r: Option<Vec<String>>)
    requires
        i <= xs@.len(),
    ensures
        match r {
            Some(out) => spec_err_strings(jvs(xs@).skip(i as int)) == Some(strings_bytes(out@)),
            None => spec_err_strings(jvs(xs@).skip(i as int)) is None,
        },
    decreases xs@.len() - i,
{
    if i == xs.len() {
        let out: Vec<String> = Vec::new();
        assert(jvs(xs@).skip(i as int) =~= Seq::<JsonV>::empty());
        assert(strings_bytes(out@) =~= Seq::<Seq<u8>>::empty());
        return Some(out);
    }
    proof {
        assert(jvs(xs@).skip(i as int)[0] == jv(xs@[i as int]));
        assert(jvs(xs@).skip(i as int).drop_first() =~= jvs(xs@).skip(i as int + 1));
    }
    let s = match &xs[i] {
        JsonValue::Str(b) => match string_from_utf8(vstd::slice::slice_to_vec(b.as_slice())) {
            Some(s) => s,
            None => {
                return None;
            },
        },
        _ => {
            return None;
        },
    };
    match decode_err_strings(xs, i + 1) {
        Some(mut rest) => {
            let ghost old_rest = rest@;
            rest.insert(0, s);
            assert(strings_bytes(rest@) =~= seq![spec_string_bytes(s)] + strings_bytes(old_rest));
            Some(rest)
        },
        None => None,
    }
}

/// Reads a spot response body: the result value on success, the exchange's
/// error list as its own failure, and the raw text when the body matches no
/// known shape.
pub fn handle_spot_response(text: String) -> (r: Result<JsonValue, KrakenError>)
    ensures
        match spec_classify_spot(spec_string_bytes(text)) {
            SpotOutcome::Payload(v) => r matches Ok(val) && jv(val) == v,
            SpotOutcome::Refused(es) => r matches Err(err) && err matches KrakenError::KrakenErrors(
                ts,
            ) && strings_bytes(ts@) == es,
            SpotOutcome::Malformed => r matches Err(err) && err matches
                KrakenError::CannotDeserializeResponse(t) && t@ == text@,
        },
{
    let doc = match crate::json::parse_json(text.as_str().as_bytes()) {
        Some(doc) => doc,
        None => {
            return Err(KrakenError::CannotDeserializeResponse(text));
        },
    };
    let ms = match doc {
        JsonValue::Obj(ms) => ms,
        _ => {
            return Err(KrakenError::CannotDeserializeResponse(text));
        },
    };
    let has_result = crate::json::obj_get(&ms, k_result_v().as_slice()).is_some();
    if has_result {
        // Take the result value out of the members.
        let ghost ms0 = jms(ms@);
        let mut rest = ms;
        loop
            invariant
                spec_obj_get(ms0, k_result()) == spec_obj_get(jms(rest@), k_result()),
                spec_obj_get(jms(rest@), k_result()) is Some,
                spec_classify_spot(spec_string_bytes(text)) == SpotOutcome::Payload(
                    spec_obj_get(ms0, k_result()).unwrap(),
                ),
            decreases rest@.len(),
        {
            proof {
                if jms(rest@).len() == 0 {
                    assert(spec_obj_get(jms(rest@), k_result()) is None);
                }
                assert(rest@.len() > 0);
            }
            let ghost pre = rest@;
            let (k, v) = rest.remove(0);
            proof {
                assert(jms(pre)[0] == (k@, jv(v)));
                assert(jms(pre).drop_first() =~= jms(rest@));
            }
            if crate::text::bytes_eq(k.as_slice(), k_result_v().as_slice()) {
                proof {
                    assert(spec_obj_get(jms(pre), k_result()) == Some(jv(v)));
                }
                return Ok(v);
            }
            proof {
                assert(spec_obj_get(jms(pre), k_result()) == spec_obj_get(
                    jms(rest@),
                    k_result(),
                ));
            }
        }
    }
    let errs = match crate::json::obj_get(&ms, k_error_v().as_slice()) {
        Some(v) => match v {
            JsonValue::Arr(xs) => {
                proof {
                    assert(jvs(xs@).skip(0) =~= jvs(xs@));
                }
                match decode_err_strings(xs, 0) {
                    Some(es) => es,
                    None => {
                        return Err(KrakenError::CannotDeserializeResponse(text));
                    },
                }
            },
            _ => {
                return Err(KrakenError::CannotDeserializeResponse(text));
            },
        },
        None => {
            return Err(KrakenError::CannotDeserializeResponse(text));
        },
    };
    Err(KrakenError::KrakenErrors(errs))
}

// ---------------------------------------------------------------------------
// The spot requests
// ---------------------------------------------------------------------------

/// The signed trade-balance request.
#[derive(Debug, Clone, PartialEq, Eq)]
pub struct GetTradeBalanceRequest {
    pub aclass: String,
    pub asset: String,
}

impl GetTradeBalanceRequest {
    pub fn endpoint(&self) -> (r: Vec<u8>)
        ensures
            r@ == k_ep_trade_balance(),
    {
        k_ep_trade_balance_v()
    }

    pub fn signed(&self) -> (r: bool)
        ensures
            r == true,
    {
        true
    }

    pub fn has_payload(&self) -> (r: bool)
        ensures
            r == true,
    {
        true
    }

    pub fn query_pairs(&self) -> (r: Vec<(Vec<u8>, Vec<u8>)>)
        ensures
            pairs_view(r@) =~= seq![
                (k_aclass(), spec_string_bytes(self.aclass)),
                (k_asset(), spec_string_bytes(self.asset)),
            ],
    {
        let mut r: Vec<(Vec<u8>, Vec<u8>)> = Vec::new();
        r.push((k_aclass_v(), self.aclass.as_str().as_bytes_vec()));
        r.push((k_asset_v(), self.asset.as_str().as_bytes_vec()));
        r
    }
}

/// The unsigned server-time request; no payload.
#[derive(Debug, Clone, Copy, PartialEq, Eq, Structural)]
pub struct GetServerTimeRequest;

impl GetServerTimeRequest {
    pub fn endpoint(&self) -> (r: Vec<u8>)
        ensures
            r@ == k_ep_server_time(),
    {
        k_ep_server_time_v()
    }

    pub fn signed(&self) -> (r: bool)
        ensures
            r == false,
    {
        false
    }

    pub fn has_payload(&self) -> (r: bool)
        ensures
            r == false,
    {
        false
    }

    pub fn query_pairs(&self) -> (r: Vec<(Vec<u8>, Vec<u8>)>)
        ensures
            pairs_view(r@) =~= Seq::<(Seq<u8>, Seq<u8>)>::empty(),
    {
        Vec::new()
    }
}

} // verus!
