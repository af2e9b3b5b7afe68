use vstd::prelude::*;
use vstd::slice::slice_to_vec;
use vstd::string::StringSliceAdditionalSpecFns;

use crate::errors::KrakenError;
use crate::json::{push_json_string, spec_quoted};
use crate::symbol::{spec_format_symbol, spec_parse_symbol, Symbol};
use crate::wire::{
    k_account_balances_and_margins, k_account_balances_and_margins_v, k_api_key, k_api_key_v,
    k_book, k_book_v, k_challenge, k_challenge_v, k_event, k_event_v, k_feed, k_feed_v, k_fills,
    k_fills_v, k_heartbeat, k_heartbeat_v, k_original_challenge, k_original_challenge_v,
    k_product_ids, k_product_ids_v, k_signed_challenge, k_signed_challenge_v, k_subscribe,
    k_subscribe_v, k_trade, k_trade_v,
};

verus! {

/// An outbound intent: the subscriptions, the challenge request and the
/// control frames. Subscriptions have a bare JSON wire form; the challenge
/// request is only sent keyed by the session, and the control frames have
/// no JSON form at all.
pub enum Command {
    AccountBalance,
    Book { product_ids: Vec<Symbol> },
    Challenge,
    Fills,
    Heartbeat,
    Trade { product_ids: Vec<Symbol> },
    Ping,
    Pong,
}

// ---------------------------------------------------------------------------
// Wire forms
// ---------------------------------------------------------------------------

/// The quoted symbol list inside a product_ids array, comma separated.
pub open spec fn spec_symbols_json(syms: Seq<Symbol>) -> Seq<u8>
    decreases syms.len(),
{
    if syms.len() == 0 {
        Seq::empty()
    } else if syms.len() == 1 {
        spec_quoted(spec_format_symbol(syms[0]))
    } else {
        spec_symbols_json(syms.drop_last()) + seq![44u8] + spec_quoted(
            spec_format_symbol(syms.last()),
        )
    }
}

/// A subscribe object's opening: event, feed, without the closing brace.
pub open spec fn spec_subscribe_head(feed: Seq<u8>) -> Seq<u8> {
    seq![123u8] + spec_quoted(k_event()) + seq![58u8] + spec_quoted(k_subscribe()) + seq![44u8]
        + spec_quoted(k_feed()) + seq![58u8] + spec_quoted(feed)
}

/// The body of a command's wire form, without the closing brace; the
/// control-only commands have none.
pub open spec fn spec_command_body(c: &Command) -> Option<Seq<u8>> {
    match c {
        Command::AccountBalance => Some(spec_subscribe_head(k_account_balances_and_margins())),
        Command::Book { product_ids } => Some(
            spec_subscribe_head(k_book()) + seq![44u8] + spec_quoted(k_product_ids()) + seq![
                58u8,
                91u8,
            ] + spec_symbols_json(product_ids@) + seq![93u8],
        ),
        Command::Challenge => None,
        Command::Fills => Some(spec_subscribe_head(k_fills())),
        Command::Heartbeat => Some(spec_subscribe_head(k_heartbeat())),
        Command::Trade { product_ids } => Some(
            spec_subscribe_head(k_trade()) + seq![44u8] + spec_quoted(k_product_ids()) + seq![
                58u8,
                91u8,
            ] + spec_symbols_json(product_ids@) + seq![93u8],
        ),
        Command::Ping => None,
        Command::Pong => None,
    }
}

/// The bare wire form of a command: its body closed with a brace.
pub open spec fn spec_command_wire(c: &Command) -> Option<Seq<u8>> {
    match spec_command_body(c) {
        Some(b) => Some(b + seq![125u8]),
        None => None,
    }
}

/// The challenge request's wire form, keyed by the API key.
pub open spec fn spec_challenge_wire(key: Seq<u8>) -> Seq<u8> {
    seq![123u8] + spec_quoted(k_api_key()) + seq![58u8] + spec_quoted(key) + seq![44u8]
        + spec_quoted(k_event()) + seq![58u8] + spec_quoted(k_challenge()) + seq![125u8]
}

/// The compound authenticated wire form: the command's own fields followed
/// by api_key, original_challenge and signed_challenge.
pub open spec fn spec_authenticated_wire(
    c: &Command,
    key: Seq<u8>,
    challenge: Seq<u8>,
    signed: Seq<u8>,
) -> Option<Seq<u8>> {
    match spec_command_body(c) {
        Some(b) => Some(
            b + seq![44u8] + spec_quoted(k_api_key()) + seq![58u8] + spec_quoted(key) + seq![44u8]
                + spec_quoted(k_original_challenge()) + seq![58u8] + spec_quoted(challenge) + seq![
                44u8,
            ] + spec_quoted(k_signed_challenge()) + seq![58u8] + spec_quoted(signed) + seq![125u8],
        ),
        None => None,
    }
}

// ---------------------------------------------------------------------------
// Builders
// ---------------------------------------------------------------------------

/// Appends the quoted symbol list.
fn push_symbols_json(out: &mut Vec<u8>, syms: &Vec<Symbol>)
    ensures
        final(out)@ == old(out)@ + spec_symbols_json(syms@),
{
    let mut i: usize = 0;
    while i < syms.len()
        invariant
            i <= syms@.len(),
            out@ == old(out)@ + spec_symbols_json(syms@.take(i as int)),
        decreases syms@.len() - i,
    {
        if i > 0 {
            out.push(44);
        }
        let b = syms[i].to_bytes();
        push_json_string(out, b.as_slice());
        proof {
            assert(syms@.take(i + 1).drop_last() =~= syms@.take(i as int));
            assert(syms@.take(i + 1).last() == syms@[i as int]);
            assert(out@ =~= old(out)@ + spec_symbols_json(syms@.take(i + 1)));
        }
        i = i + 1;
    }
    proof {
        assert(syms@.take(i as int) =~= syms@);
    }
}

/// Appends a subscribe object's opening for the given feed name.
fn push_subscribe_head(out: &mut Vec<u8>, feed: &[u8])
    ensures
        final(out)@ == old(out)@ + spec_subscribe_head(feed@),
{
    out.push(123);
    push_json_string(out, k_event_v().as_slice());
    out.push(58);
    push_json_string(out, k_subscribe_v().as_slice());
    out.push(44);
    push_json_string(out, k_feed_v().as_slice());
    out.push(58);
    push_json_string(out, feed);
    assert(out@ =~= old(out)@ + spec_subscribe_head(feed@));
}

impl Command {
    /// The account balance subscription.
    pub fn account_balance() -> (r: Self)
        ensures
            r is AccountBalance,
    {
        Self::AccountBalance
    }

    /// A book subscription over the given instruments.
    pub fn book(product_ids: &[Symbol]) -> (r: Self)
        ensures
            r matches Command::Book { product_ids: p } && p@ == product_ids@,
    {
        Self::Book { product_ids: slice_to_vec(product_ids) }
    }

    /// The challenge request.
    pub fn challenge() -> (r: Self)
        ensures
            r is Challenge,
    {
        Self::Challenge
    }

    /// The fills subscription.
    pub fn fills() -> (r: Self)
        ensures
            r is Fills,
    {
        Self::Fills
    }

    /// The heartbeat subscription.
    pub fn heartbeat() -> (r: Self)
        ensures
            r is Heartbeat,
    {
        Self::Heartbeat
    }

    /// A trade subscription over the given instrument names; fails on the
    /// first name that is no symbol, with that parse error.
    pub fn trade(product_ids: &[&str]) -> (r: Result<Self, KrakenError>)
        ensures
            r matches Ok(c) ==> (c matches Command::Trade { product_ids: p } && p@.len()
                == product_ids@.len() && (forall|i: int|
                0 <= i < p@.len() ==> spec_parse_symbol(#[trigger] product_ids@[i].spec_bytes())
                    == Some(p@[i]))),
            r is Err ==> exists|i: int|
                0 <= i < product_ids@.len() && spec_parse_symbol(
                    #[trigger] product_ids@[i].spec_bytes(),
                ) is None,
    {
        let mut out: Vec<Symbol> = Vec::new();
        let mut i: usize = 0;
        while i < product_ids.len()
            invariant
                i <= product_ids@.len(),
                out@.len() == i,
                forall|j: int|
                    0 <= j < i ==> spec_parse_symbol(#[trigger] product_ids@[j].spec_bytes())
                        == Some(out@[j]),
            decreases product_ids@.len() - i,
        {
            let sym = match Symbol::parse(product_ids[i]) {
                Ok(sym) => sym,
                Err(e) => {
                    return Err(e);
                },
            };
            out.push(sym);
            i = i + 1;
        }
        Ok(Self::Trade { product_ids: out })
    }

    /// The bare wire form: a subscribe object for the subscription commands.
    /// The challenge request and the control frames have none and fail.
    pub fn to_wire(&self) -> (r: Result<Vec<u8>, KrakenError>)
        ensures
            match spec_command_wire(self) {
                Some(w) => r matches Ok(v) && v@ == w,
                None => r == Err::<Vec<u8>, KrakenError>(KrakenError::CannotSerialize),
            },
    {
        let mut out: Vec<u8> = Vec::new();
        match self {
            Command::AccountBalance => {
                push_subscribe_head(&mut out, k_account_balances_and_margins_v().as_slice());
            },
            Command::Book { product_ids } => {
                push_subscribe_head(&mut out, k_book_v().as_slice());
                out.push(44);
                push_json_string(&mut out, k_product_ids_v().as_slice());
                out.push(58);
                out.push(91);
                push_symbols_json(&mut out, product_ids);
                out.push(93);
            },
            Command::Fills => {
                push_subscribe_head(&mut out, k_fills_v().as_slice());
            },
            Command::Heartbeat => {
                push_subscribe_head(&mut out, k_heartbeat_v().as_slice());
            },
            Command::Trade { product_ids } => {
                push_subscribe_head(&mut out, k_trade_v().as_slice());
                out.push(44);
                push_json_string(&mut out, k_product_ids_v().as_slice());
                out.push(58);
                out.push(91);
                push_symbols_json(&mut out, product_ids);
                out.push(93);
            },
            Command::Challenge | Command::Ping | Command::Pong => {
                return Err(KrakenError::CannotSerialize);
            },
        }
        out.push(125);
        proof {
            assert(out@ =~= spec_command_body(self).unwrap() + seq![125u8]);
        }
        Ok(out)
    }

    /// The compound authenticated wire form, carrying the key, the original
    /// challenge and its signature beside the command's own fields. The
    /// challenge request and the control frames have none and fail.
    #[verifier::rlimit(50)]
    pub fn to_authenticated_wire(&self, key: &str, challenge: &str, signed: &str) -> (r: Result<
        Vec<u8>,
        KrakenError,
    >)
        ensures
            match spec_authenticated_wire(
                self,
                key.spec_bytes(),
                challenge.spec_bytes(),
                signed.spec_bytes(),
            ) {
                Some(w) => r matches Ok(v) && v@ == w,
                None => r == Err::<Vec<u8>, KrakenError>(KrakenError::CannotSerialize),
            },
    {
        let mut out: Vec<u8> = Vec::new();
        match self {
            Command::AccountBalance => {
                push_subscribe_head(&mut out, k_account_balances_and_margins_v().as_slice());
            },
            Command::Book { product_ids } => {
                push_subscribe_head(&mut out, k_book_v().as_slice());
                out.push(44);
                push_json_string(&mut out, k_product_ids_v().as_slice());
                out.push(58);
                out.push(91);
                push_symbols_json(&mut out, product_ids);
                out.push(93);
            },
            Command::Fills => {
                push_subscribe_head(&mut out, k_fills_v().as_slice());
            },
            Command::Heartbeat => {
                push_subscribe_head(&mut out, k_heartbeat_v().as_slice());
            },
            Command::Trade { product_ids } => {
                push_subscribe_head(&mut out, k_trade_v().as_slice());
                out.push(44);
                push_json_string(&mut out, k_product_ids_v().as_slice());
                out.push(58);
                out.push(91);
                push_symbols_json(&mut out, product_ids);
                out.push(93);
            },
            Command::Challenge | Command::Ping | Command::Pong => {
                return Err(KrakenError::CannotSerialize);
            },
        }
        let ghost body = spec_command_body(self).unwrap();
        proof {
            assert(out@ =~= body);
        }
        out.push(44);
        push_json_string(&mut out, k_api_key_v().as_slice());
        out.push(58);
        push_json_string(&mut out, key.as_bytes());
        proof {
            assert(out@ =~= body + seq![44u8] + spec_quoted(k_api_key()) + seq![58u8]
                + spec_quoted(key.spec_bytes()));
        }
        out.push(44);
        push_json_string(&mut out, k_original_challenge_v().as_slice());
        out.push(58);
        push_json_string(&mut out, challenge.as_bytes());
        proof {
            assert(out@ =~= body + seq![44u8] + spec_quoted(k_api_key()) + seq![58u8]
                + spec_quoted(key.spec_bytes()) + seq![44u8] + spec_quoted(k_original_challenge())
                + seq![58u8] + spec_quoted(challenge.spec_bytes()));
        }
        out.push(44);
        push_json_string(&mut out, k_signed_challenge_v().as_slice());
        out.push(58);
        push_json_string(&mut out, signed.as_bytes());
        out.push(125);
        proof {
            assert(out@ =~= spec_authenticated_wire(
                self,
                key.spec_bytes(),
                challenge.spec_bytes(),
                signed.spec_bytes(),
            ).unwrap());
        }
        Ok(out)
    }
}

/// Law: the challenge request's wire form parses back as exactly the two
/// fields it was built from, the key and the event tag. Contents must have
/// lossless escapes, which every real API key does.
#[verifier::rlimit(100)]
#[verifier::spinoff_prover]
pub proof fn lemma_challenge_wire_round_trip(key: Seq<u8>)
    requires
        forall|k: int| 0 <= k < key.len() ==> crate::json::escape_reversible(#[trigger] key[k]),
    ensures
        crate::json::spec_parse_json(spec_challenge_wire(key)) == Some(
            crate::json::JsonV::Obj(
                seq![
                    (k_api_key(), crate::json::JsonV::Str(key)),
                    (k_event(), crate::json::JsonV::Str(k_challenge())),
                ],
            ),
        ),
{
    reveal_with_fuel(crate::json::string_members_tokens, 3);
    let kvs = seq![(k_api_key(), key), (k_event(), k_challenge())];
    let k1 = kvs.drop_first();
    assert(k1 =~= seq![(k_event(), k_challenge())]);
    let toks = crate::json::string_members_tokens(kvs);
    let head1 = spec_quoted(k_event()) + seq![58u8] + spec_quoted(k_challenge());
    assert(crate::json::string_members_tokens(k1) == head1);
    assert(toks == spec_quoted(k_api_key()) + seq![58u8] + spec_quoted(key) + seq![44u8] + head1);
    assert(toks =~= spec_quoted(k_api_key()) + seq![58u8] + spec_quoted(key) + seq![44u8]
        + spec_quoted(k_event()) + seq![58u8] + spec_quoted(k_challenge()));
    assert(spec_challenge_wire(key) =~= seq![123u8] + toks + seq![125u8]);
    assert(forall|m: int, k: int|
        0 <= m < kvs.len() && 0 <= k < kvs[m].0.len() ==> crate::json::escape_reversible(
            #[trigger] kvs[m].0[k],
        ));
    assert(forall|m: int, k: int|
        0 <= m < kvs.len() && 0 <= k < kvs[m].1.len() ==> crate::json::escape_reversible(
            #[trigger] kvs[m].1[k],
        ));
    crate::json::lemma_string_object_round_trip(kvs);
    assert(crate::json::str_members(kvs) =~= seq![
        (k_api_key(), crate::json::JsonV::Str(key)),
        (k_event(), crate::json::JsonV::Str(k_challenge())),
    ]);
}

/// The five fields of a compound authenticated subscription frame.
pub open spec fn auth_kvs(feed: Seq<u8>, key: Seq<u8>, challenge: Seq<u8>, signed: Seq<u8>) -> Seq<
    (Seq<u8>, Seq<u8>),
> {
    seq![
        (k_event(), k_subscribe()),
        (k_feed(), feed),
        (k_api_key(), key),
        (k_original_challenge(), challenge),
        (k_signed_challenge(), signed),
    ]
}

/// The feed name a payload-free subscription speaks of.
pub open spec fn spec_simple_feed(cmd: &Command) -> Seq<u8> {
    match cmd {
        Command::AccountBalance => k_account_balances_and_margins(),
        Command::Fills => k_fills(),
        _ => k_heartbeat(),
    }
}

#[verifier::rlimit(100)]
#[verifier::spinoff_prover]
proof fn lemma_auth_tokens(feed: Seq<u8>, key: Seq<u8>, challenge: Seq<u8>, signed: Seq<u8>)
    ensures
        crate::json::string_members_tokens(auth_kvs(feed, key, challenge, signed)) =~= spec_quoted(
            k_event(),
        ) + seq![58u8] + spec_quoted(k_subscribe()) + seq![44u8] + spec_quoted(k_feed()) + seq![
            58u8,
        ] + spec_quoted(feed) + seq![44u8] + spec_quoted(k_api_key()) + seq![58u8] + spec_quoted(
            key,
        ) + seq![44u8] + spec_quoted(k_original_challenge()) + seq![58u8] + spec_quoted(challenge)
            + seq![44u8] + spec_quoted(k_signed_challenge()) + seq![58u8] + spec_quoted(signed),
{
    reveal_with_fuel(crate::json::string_members_tokens, 6);
    let kvs = auth_kvs(feed, key, challenge, signed);
    let k1 = kvs.drop_first();
    let k2 = k1.drop_first();
    let k3 = k2.drop_first();
    let k4 = k3.drop_first();
    assert(k1 =~= seq![
        (k_feed(), feed),
        (k_api_key(), key),
        (k_original_challenge(), challenge),
        (k_signed_challenge(), signed),
    ]);
    assert(k2 =~= seq![
        (k_api_key(), key),
        (k_original_challenge(), challenge),
        (k_signed_challenge(), signed),
    ]);
    assert(k3 =~= seq![(k_original_challenge(), challenge), (k_signed_challenge(), signed)]);
    assert(k4 =~= seq![(k_signed_challenge(), signed)]);
    let h4 = spec_quoted(k_signed_challenge()) + seq![58u8] + spec_quoted(signed);
    let h3 = spec_quoted(k_original_challenge()) + seq![58u8] + spec_quoted(challenge);
    let h2 = spec_quoted(k_api_key()) + seq![58u8] + spec_quoted(key);
    let h1 = spec_quoted(k_feed()) + seq![58u8] + spec_quoted(feed);
    let h0 = spec_quoted(k_event()) + seq![58u8] + spec_quoted(k_subscribe());
    assert(crate::json::string_members_tokens(k4) == h4);
    assert(crate::json::string_members_tokens(k3) == h3 + seq![44u8]
        + crate::json::string_members_tokens(k4));
    assert(crate::json::string_members_tokens(k2) == h2 + seq![44u8]
        + crate::json::string_members_tokens(k3));
    assert(crate::json::string_members_tokens(k1) == h1 + seq![44u8]
        + crate::json::string_members_tokens(k2));
    assert(crate::json::string_members_tokens(kvs) == h0 + seq![44u8]
        + crate::json::string_members_tokens(k1));
    assert(crate::json::string_members_tokens(kvs) =~= h0 + seq![44u8] + h1 + seq![44u8] + h2
        + seq![44u8] + h3 + seq![44u8] + h4);
}

#[verifier::rlimit(100)]
#[verifier::spinoff_prover]
proof fn lemma_auth_wire_shape(cmd: &Command, key: Seq<u8>, challenge: Seq<u8>, signed: Seq<u8>)
    requires
        cmd is AccountBalance || cmd is Fills || cmd is Heartbeat,
    ensures
        spec_authenticated_wire(cmd, key, challenge, signed) matches Some(w) && w
            =~= seq![123u8] + crate::json::string_members_tokens(
            auth_kvs(spec_simple_feed(cmd), key, challenge, signed),
        ) + seq![125u8],
{
    let feed = spec_simple_feed(cmd);
    lemma_auth_tokens(feed, key, challenge, signed);
    let w = spec_authenticated_wire(cmd, key, challenge, signed).unwrap();
    assert(w =~= seq![123u8] + crate::json::string_members_tokens(
        auth_kvs(feed, key, challenge, signed),
    ) + seq![125u8]);
}

/// Law: the compound authenticated wire form of a payload-free subscription
/// parses back as exactly its five fields: the subscribe event, the feed,
/// the key, the challenge and its signature. Contents must have lossless
/// escapes, which real keys, challenges and signatures do.
/// The fixed wire names of the compound frame all have lossless escapes.
proof fn lemma_wire_names_reversible()
    ensures
        forall|k: int|
            0 <= k < k_event().len() ==> crate::json::escape_reversible(#[trigger] k_event()[k]),
        forall|k: int|
            0 <= k < k_subscribe().len() ==> crate::json::escape_reversible(
                #[trigger] k_subscribe()[k],
            ),
        forall|k: int|
            0 <= k < k_feed().len() ==> crate::json::escape_reversible(#[trigger] k_feed()[k]),
        forall|k: int|
            0 <= k < k_api_key().len() ==> crate::json::escape_reversible(
                #[trigger] k_api_key()[k],
            ),
        forall|k: int|
            0 <= k < k_original_challenge().len() ==> crate::json::escape_reversible(
                #[trigger] k_original_challenge()[k],
            ),
        forall|k: int|
            0 <= k < k_signed_challenge().len() ==> crate::json::escape_reversible(
                #[trigger] k_signed_challenge()[k],
            ),
        forall|k: int|
            0 <= k < k_account_balances_and_margins().len() ==> crate::json::escape_reversible(
                #[trigger] k_account_balances_and_margins()[k],
            ),
        forall|k: int|
            0 <= k < k_fills().len() ==> crate::json::escape_reversible(#[trigger] k_fills()[k]),
        forall|k: int|
            0 <= k < k_heartbeat().len() ==> crate::json::escape_reversible(
                #[trigger] k_heartbeat()[k],
            ),
{
}

#[verifier::rlimit(100)]
#[verifier::spinoff_prover]
pub proof fn lemma_authenticated_wire_round_trip(
    cmd: &Command,
    key: Seq<u8>,
    challenge: Seq<u8>,
    signed: Seq<u8>,
)
    requires
        cmd is AccountBalance || cmd is Fills || cmd is Heartbeat,
        forall|k: int| 0 <= k < key.len() ==> crate::json::escape_reversible(#[trigger] key[k]),
        forall|k: int|
            0 <= k < challenge.len() ==> crate::json::escape_reversible(#[trigger] challenge[k]),
        forall|k: int|
            0 <= k < signed.len() ==> crate::json::escape_reversible(#[trigger] signed[k]),
    ensures
        spec_authenticated_wire(cmd, key, challenge, signed) matches Some(w)
            && crate::json::spec_parse_json(w) == Some(
            crate::json::JsonV::Obj(
                seq![
                    (k_event(), crate::json::JsonV::Str(k_subscribe())),
                    (k_feed(), crate::json::JsonV::Str(spec_simple_feed(cmd))),
                    (k_api_key(), crate::json::JsonV::Str(key)),
                    (k_original_challenge(), crate::json::JsonV::Str(challenge)),
                    (k_signed_challenge(), crate::json::JsonV::Str(signed)),
                ],
            ),
        ),
{
    let feed = spec_simple_feed(cmd);
    let kvs = auth_kvs(feed, key, challenge, signed);
    lemma_auth_wire_shape(cmd, key, challenge, signed);
    lemma_wire_names_reversible();
    assert forall|m: int, k: int|
        0 <= m < kvs.len() && 0 <= k < kvs[m].0.len() implies crate::json::escape_reversible(
        #[trigger] kvs[m].0[k],
    ) by {
        assert(kvs[m].0 == [k_event(), k_feed(), k_api_key(), k_original_challenge(),
            k_signed_challenge()][m]);
    }
    assert forall|m: int, k: int|
        0 <= m < kvs.len() && 0 <= k < kvs[m].1.len() implies crate::json::escape_reversible(
        #[trigger] kvs[m].1[k],
    ) by {
        assert(kvs[m].1 == [k_subscribe(), feed, key, challenge, signed][m]);
    }
    crate::json::lemma_string_object_round_trip(kvs);
    assert(crate::json::str_members(kvs) =~= seq![
        (k_event(), crate::json::JsonV::Str(k_subscribe())),
        (k_feed(), crate::json::JsonV::Str(feed)),
        (k_api_key(), crate::json::JsonV::Str(key)),
        (k_original_challenge(), crate::json::JsonV::Str(challenge)),
        (k_signed_challenge(), crate::json::JsonV::Str(signed)),
    ]);
}

/// The challenge request's wire form for a given API key.
pub fn challenge_wire(key: &str) -> (r: Vec<u8>)
    ensures
        r@ == spec_challenge_wire(key.spec_bytes()),
{
    let mut out: Vec<u8> = Vec::new();
    out.push(123);
    push_json_string(&mut out, k_api_key_v().as_slice());
    out.push(58);
    push_json_string(&mut out, key.as_bytes());
    out.push(44);
    push_json_string(&mut out, k_event_v().as_slice());
    out.push(58);
    push_json_string(&mut out, k_challenge_v().as_slice());
    out.push(125);
    assert(out@ =~= spec_challenge_wire(key.spec_bytes()));
    out
}

} // verus!
