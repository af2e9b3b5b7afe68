use vstd::prelude::*;
use vstd::slice::slice_subrange;
use vstd::string::StringSliceAdditionalSpecFns;

use crate::errors::KrakenError;
use crate::text::{
    all_digits, is_digit, parse_u64_digits, spec_parse_u64, spec_u64_dec, spec_upper,
    string_from_ascii, u64_dec, upper_byte, upper_bytes,
};

verus! {

// ---------------------------------------------------------------------------
// Currencies and pairs
// ---------------------------------------------------------------------------

/// A currency the exchange lists.
#[derive(Clone, Copy, Debug, Hash, PartialEq, Eq, PartialOrd, Ord, Structural)]
pub enum Currency {
    XBT,
    ETH,
    BCH,
    XRP,
    LTC,
    USD,
}

/// An ordered pair of currencies; its string form is six letters, three each.
#[derive(Clone, Copy, Debug, Hash, PartialEq, Eq, PartialOrd, Ord, Structural)]
pub struct Pair(pub Currency, pub Currency);

/// An instrument identifier: a market kind plus a pair and, for dated
/// futures, an expiry. Its string form is `<KIND>_<PAIR>[_<EXPIRY>]`.
#[derive(Clone, Copy, Debug, Hash, PartialEq, Eq, PartialOrd, Ord)]
pub enum Symbol {
    Cash,
    FutureInverse(Pair, Option<u64>),
    FutureVanilla(Pair, Option<u64>),
    PerpetualInverse(Pair),
    PerpetualVanilla(Pair),
    Index(Pair),
    ReferenceRate(Pair),
}

/// The canonical three letters of a currency.
pub open spec fn currency_bytes(c: Currency) -> Seq<u8> {
    match c {
        Currency::XBT => seq![88u8, 66u8, 84u8],
        Currency::ETH => seq![69u8, 84u8, 72u8],
        Currency::BCH => seq![66u8, 67u8, 72u8],
        Currency::XRP => seq![88u8, 82u8, 80u8],
        Currency::LTC => seq![76u8, 84u8, 67u8],
        Currency::USD => seq![85u8, 83u8, 68u8],
    }
}

/// Parses three already-upper-cased bytes as a currency.
pub open spec fn spec_currency_of_upper(s: Seq<u8>) -> Option<Currency> {
    if s == currency_bytes(Currency::XBT) {
        Some(Currency::XBT)
    } else if s == currency_bytes(Currency::ETH) {
        Some(Currency::ETH)
    } else if s == currency_bytes(Currency::BCH) {
        Some(Currency::BCH)
    } else if s == currency_bytes(Currency::XRP) {
        Some(Currency::XRP)
    } else if s == currency_bytes(Currency::LTC) {
        Some(Currency::LTC)
    } else if s == currency_bytes(Currency::USD) {
        Some(Currency::USD)
    } else {
        None
    }
}

/// Parses a currency string: upper-cases, then matches the three letters.
pub open spec fn spec_parse_currency(s: Seq<u8>) -> Option<Currency> {
    spec_currency_of_upper(spec_upper(s))
}

/// The canonical six letters of a pair.
pub open spec fn spec_format_pair(p: Pair) -> Seq<u8> {
    currency_bytes(p.0) + currency_bytes(p.1)
}

/// Parses an already-upper-cased pair string: exactly six bytes, three per currency.
pub open spec fn spec_pair_of_upper(s: Seq<u8>) -> Option<Pair> {
    if s.len() != 6 {
        None
    } else {
        match (spec_currency_of_upper(s.take(3)), spec_currency_of_upper(s.skip(3))) {
            (Some(a), Some(b)) => Some(Pair(a, b)),
            _ => None,
        }
    }
}

/// Parses a pair string: upper-cases, then reads the two currencies.
pub open spec fn spec_parse_pair(s: Seq<u8>) -> Option<Pair> {
    spec_pair_of_upper(spec_upper(s))
}

// ---------------------------------------------------------------------------
// Symbol format
// ---------------------------------------------------------------------------

pub open spec fn cash_bytes() -> Seq<u8> {
    seq![67u8, 65u8, 83u8, 72u8]
}

/// The two-letter kind prefix of every non-cash symbol.
pub open spec fn kind_bytes(sym: Symbol) -> Seq<u8> {
    match sym {
        Symbol::Cash => Seq::empty(),
        Symbol::FutureInverse(_, _) => seq![70u8, 73u8],
        Symbol::FutureVanilla(_, _) => seq![70u8, 86u8],
        Symbol::PerpetualInverse(_) => seq![80u8, 73u8],
        Symbol::PerpetualVanilla(_) => seq![80u8, 86u8],
        Symbol::Index(_) => seq![73u8, 78u8],
        Symbol::ReferenceRate(_) => seq![82u8, 82u8],
    }
}

/// The canonical string form of a symbol.
pub open spec fn spec_format_symbol(sym: Symbol) -> Seq<u8> {
    match sym {
        Symbol::Cash => cash_bytes(),
        Symbol::FutureInverse(p, oe) => match oe {
            None => kind_bytes(sym) + seq![95u8] + spec_format_pair(p),
            Some(e) => kind_bytes(sym) + seq![95u8] + spec_format_pair(p) + seq![95u8]
                + spec_u64_dec(e as nat),
        },
        Symbol::FutureVanilla(p, oe) => match oe {
            None => kind_bytes(sym) + seq![95u8] + spec_format_pair(p),
            Some(e) => kind_bytes(sym) + seq![95u8] + spec_format_pair(p) + seq![95u8]
                + spec_u64_dec(e as nat),
        },
        Symbol::PerpetualInverse(p) => kind_bytes(sym) + seq![95u8] + spec_format_pair(p),
        Symbol::PerpetualVanilla(p) => kind_bytes(sym) + seq![95u8] + spec_format_pair(p),
        Symbol::Index(p) => kind_bytes(sym) + seq![95u8] + spec_format_pair(p),
        Symbol::ReferenceRate(p) => kind_bytes(sym) + seq![95u8] + spec_format_pair(p),
    }
}

// ---------------------------------------------------------------------------
// Symbol parse
// ---------------------------------------------------------------------------

/// The index of the first underscore at or after i, or the length if none.
pub open spec fn first_us(s: Seq<u8>, i: int) -> int
    decreases s.len() - i,
{
    if i < 0 || i >= s.len() {
        s.len() as int
    } else if s[i] == 95 {
        i
    } else {
        first_us(s, i + 1)
    }
}

/// If no byte of s at or after i is an underscore, none is found.
pub proof fn lemma_first_us_none(s: Seq<u8>, i: int)
    requires
        0 <= i <= s.len(),
        forall|j: int| i <= j < s.len() ==> s[j] != 95,
    ensures
        first_us(s, i) == s.len(),
    decreases s.len() - i,
{
    if i < s.len() {
        lemma_first_us_none(s, i + 1);
    }
}

/// Which of the two-letter prefixes a kind token is, if any.
pub open spec fn kind_no_expiry(kind: Seq<u8>, p: Pair) -> Option<Symbol> {
    if kind == seq![70u8, 73u8] {
        Some(Symbol::FutureInverse(p, None))
    } else if kind == seq![70u8, 86u8] {
        Some(Symbol::FutureVanilla(p, None))
    } else if kind == seq![80u8, 73u8] {
        Some(Symbol::PerpetualInverse(p))
    } else if kind == seq![80u8, 86u8] {
        Some(Symbol::PerpetualVanilla(p))
    } else if kind == seq![73u8, 78u8] {
        Some(Symbol::Index(p))
    } else if kind == seq![82u8, 82u8] {
        Some(Symbol::ReferenceRate(p))
    } else {
        None
    }
}

pub open spec fn kind_with_expiry(kind: Seq<u8>, p: Pair, e: u64) -> Option<Symbol> {
    if kind == seq![70u8, 73u8] {
        Some(Symbol::FutureInverse(p, Some(e)))
    } else if kind == seq![70u8, 86u8] {
        Some(Symbol::FutureVanilla(p, Some(e)))
    } else {
        None
    }
}

/// Parses an upper-cased symbol string: the literal CASH, or a kind prefix,
/// an underscore, a pair, and for dated futures one more underscore and the
/// expiry digits. Any other shape fails.
pub open spec fn spec_symbol_of_upper(u: Seq<u8>) -> Option<Symbol> {
    if u == cash_bytes() {
        Some(Symbol::Cash)
    } else if u.len() < 3 || u[2] != 95 {
        None
    } else {
        let kind = u.take(2);
        let tail = u.skip(3);
        let k = first_us(tail, 0);
        if k == tail.len() {
            match spec_pair_of_upper(tail) {
                Some(p) => kind_no_expiry(kind, p),
                None => None,
            }
        } else if first_us(tail, k + 1) == tail.len() {
            match (spec_pair_of_upper(tail.take(k)), spec_parse_u64(tail.skip(k + 1))) {
                (Some(p), Some(e)) => kind_with_expiry(kind, p, e),
                _ => None,
            }
        } else {
            None
        }
    }
}

/// Parses a symbol string: upper-cases, then reads the shape above.
pub open spec fn spec_parse_symbol(s: Seq<u8>) -> Option<Symbol> {
    spec_symbol_of_upper(spec_upper(s))
}

/// Which error a failed symbol parse reports: a six-byte rule violation on
/// the pair token is a pair error, an unknown currency in a six-byte pair
/// token is a currency error, and any other malformed shape is a symbol error.
pub enum SymbolParseFailure {
    BadShape,
    BadPairLength,
    BadCurrency,
}

/// The failure class of an upper-cased symbol string that does not parse.
pub open spec fn spec_symbol_failure(u: Seq<u8>) -> SymbolParseFailure {
    if u.len() < 3 || u[2] != 95 {
        SymbolParseFailure::BadShape
    } else {
        let kind = u.take(2);
        let tail = u.skip(3);
        let k = first_us(tail, 0);
        if k == tail.len() {
            if kind_no_expiry(kind, Pair(Currency::XBT, Currency::XBT)) is None {
                SymbolParseFailure::BadShape
            } else if tail.len() != 6 {
                SymbolParseFailure::BadPairLength
            } else {
                SymbolParseFailure::BadCurrency
            }
        } else if first_us(tail, k + 1) == tail.len() {
            if kind_with_expiry(kind, Pair(Currency::XBT, Currency::XBT), 0) is None {
                SymbolParseFailure::BadShape
            } else if k != 6 {
                SymbolParseFailure::BadPairLength
            } else if spec_pair_of_upper(tail.take(k)) is None {
                SymbolParseFailure::BadCurrency
            } else {
                SymbolParseFailure::BadShape
            }
        } else {
            SymbolParseFailure::BadShape
        }
    }
}

// ---------------------------------------------------------------------------
// Executable codec
// ---------------------------------------------------------------------------

impl Currency {
    /// The canonical three-letter name, as bytes.
    pub fn to_bytes(&self) -> (r: Vec<u8>)
        ensures
            r@ == currency_bytes(*self),
    {
        let mut v: Vec<u8> = Vec::new();
        match self {
            Currency::XBT => {
                v.push(88);
                v.push(66);
                v.push(84);
            },
            Currency::ETH => {
                v.push(69);
                v.push(84);
                v.push(72);
            },
            Currency::BCH => {
                v.push(66);
                v.push(67);
                v.push(72);
            },
            Currency::XRP => {
                v.push(88);
                v.push(82);
                v.push(80);
            },
            Currency::LTC => {
                v.push(76);
                v.push(84);
                v.push(67);
            },
            Currency::USD => {
                v.push(85);
                v.push(83);
                v.push(68);
            },
        }
        assert(v@ =~= currency_bytes(*self));
        v
    }

    /// The canonical three-letter name.
    pub fn format(&self) -> (r: String)
        ensures
            r@.len() == 3,
            r@ == currency_bytes(*self).map_values(|b: u8| b as char),
    {
        let v = self.to_bytes();
        proof {
            assert(forall|c: Currency, i: int|
                0 <= i < 3 ==> #[trigger] currency_bytes(c)[i] < 128);
        }
        string_from_ascii(v)
    }

    /// Parses three upper-cased bytes.
    fn of_upper(u: &[u8]) -> (r: Option<Currency>)
        ensures
            r == spec_currency_of_upper(u@),
    {
        let r = if u.len() != 3 {
            None
        } else if u[0] == 88 && u[1] == 66 && u[2] == 84 {
            Some(Currency::XBT)
        } else if u[0] == 69 && u[1] == 84 && u[2] == 72 {
            Some(Currency::ETH)
        } else if u[0] == 66 && u[1] == 67 && u[2] == 72 {
            Some(Currency::BCH)
        } else if u[0] == 88 && u[1] == 82 && u[2] == 80 {
            Some(Currency::XRP)
        } else if u[0] == 76 && u[1] == 84 && u[2] == 67 {
            Some(Currency::LTC)
        } else if u[0] == 85 && u[1] == 83 && u[2] == 68 {
            Some(Currency::USD)
        } else {
            None
        };
        proof {
            if u@.len() == 3 {
                assert(u@ =~= seq![u@[0], u@[1], u@[2]]);
                if r is None {
                    assert(u@ != currency_bytes(Currency::XBT));
                    assert(u@ != currency_bytes(Currency::ETH));
                    assert(u@ != currency_bytes(Currency::BCH));
                    assert(u@ != currency_bytes(Currency::XRP));
                    assert(u@ != currency_bytes(Currency::LTC));
                    assert(u@ != currency_bytes(Currency::USD));
                }
            } else {
                assert(forall|c: Currency| currency_bytes(c).len() == 3);
            }
        }
        r
    }

    /// Parses a currency name, case-insensitively; on failure the error
    /// names the offending input.
    pub fn parse(s: &str) -> (r: Result<Currency, KrakenError>)
        ensures
            r matches Ok(c) ==> spec_parse_currency(s.spec_bytes()) == Some(c),
            spec_parse_currency(s.spec_bytes()) matches Some(c) ==> r == Ok::<
                Currency,
                KrakenError,
            >(c),
            r matches Err(e) ==> (e matches KrakenError::ParseCurrencyFailed(t) && t@ == s@),
    {
        let bytes = s.as_bytes();
        let u = upper_bytes(bytes);
        match Currency::of_upper(u.as_slice()) {
            Some(c) => Ok(c),
            None => Err(KrakenError::ParseCurrencyFailed(s.to_owned())),
        }
    }
}

impl Pair {
    /// The canonical six-letter form, as bytes.
    pub fn to_bytes(&self) -> (r: Vec<u8>)
        ensures
            r@ == spec_format_pair(*self),
    {
        let mut v = self.0.to_bytes();
        let mut w = self.1.to_bytes();
        v.append(&mut w);
        v
    }

    /// The canonical six-letter form.
    pub fn format(&self) -> (r: String)
        ensures
            r@ == spec_format_pair(*self).map_values(|b: u8| b as char),
    {
        let v = self.to_bytes();
        proof {
            assert(forall|c: Currency| currency_bytes(c).len() == 3);
            assert(forall|c: Currency, i: int|
                0 <= i < 3 ==> #[trigger] currency_bytes(c)[i] < 128);
        }
        string_from_ascii(v)
    }

    /// Parses an upper-cased pair: exactly six bytes, two currencies.
    fn of_upper(u: &[u8]) -> (r: Option<Pair>)
        ensures
            r == spec_pair_of_upper(u@),
    {
        if u.len() != 6 {
            return None;
        }
        let a = Currency::of_upper(slice_subrange(u, 0, 3));
        let b = Currency::of_upper(slice_subrange(u, 3, 6));
        proof {
            assert(u@.subrange(0, 3) =~= u@.take(3));
            assert(u@.subrange(3, 6) =~= u@.skip(3));
        }
        match (a, b) {
            (Some(a), Some(b)) => Some(Pair(a, b)),
            _ => None,
        }
    }

    /// Parses a pair string, case-insensitively. An input whose byte length
    /// is not six fails as a pair error; six bytes that name no currency
    /// fail as a currency error. The error names the offending input.
    pub fn parse(s: &str) -> (r: Result<Pair, KrakenError>)
        ensures
            r matches Ok(p) ==> spec_parse_pair(s.spec_bytes()) == Some(p),
            spec_parse_pair(s.spec_bytes()) matches Some(p) ==> r == Ok::<Pair, KrakenError>(p),
            r is Err && s.spec_bytes().len() != 6 ==> (r matches Err(e) && e matches
                KrakenError::ParsePairFailed(t) && t@ == s@),
            r is Err && s.spec_bytes().len() == 6 ==> (r matches Err(e) && e matches
                KrakenError::ParseCurrencyFailed(t) && t@ == s@),
    {
        let bytes = s.as_bytes();
        if bytes.len() != 6 {
            return Err(KrakenError::ParsePairFailed(s.to_owned()));
        }
        let u = upper_bytes(bytes);
        match Pair::of_upper(u.as_slice()) {
            Some(p) => Ok(p),
            None => Err(KrakenError::ParseCurrencyFailed(s.to_owned())),
        }
    }
}

impl Symbol {
    /// The pair this symbol derives from; cash has none.
    pub fn pair(&self) -> (r: Option<Pair>)
        ensures
            r == spec_symbol_pair(*self),
    {
        match self {
            Symbol::Cash => None,
            Symbol::FutureInverse(p, _) => Some(*p),
            Symbol::FutureVanilla(p, _) => Some(*p),
            Symbol::PerpetualInverse(p) => Some(*p),
            Symbol::PerpetualVanilla(p) => Some(*p),
            Symbol::Index(p) => Some(*p),
            Symbol::ReferenceRate(p) => Some(*p),
        }
    }

    /// The canonical string form, as bytes.
    pub fn to_bytes(&self) -> (r: Vec<u8>)
        ensures
            r@ == spec_format_symbol(*self),
    {
        let mut v: Vec<u8> = Vec::new();
        match self {
            Symbol::Cash => {
                v.push(67);
                v.push(65);
                v.push(83);
                v.push(72);
                assert(v@ =~= cash_bytes());
            },
            Symbol::FutureInverse(p, oe) => {
                v.push(70);
                v.push(73);
                v.push(95);
                let mut w = p.to_bytes();
                v.append(&mut w);
                if let Some(e) = oe {
                    v.push(95);
                    push_expiry(&mut v, *e);
                }
                assert(v@ =~= spec_format_symbol(*self));
            },
            Symbol::FutureVanilla(p, oe) => {
                v.push(70);
                v.push(86);
                v.push(95);
                let mut w = p.to_bytes();
                v.append(&mut w);
                if let Some(e) = oe {
                    v.push(95);
                    push_expiry(&mut v, *e);
                }
                assert(v@ =~= spec_format_symbol(*self));
            },
            Symbol::PerpetualInverse(p) => {
                v.push(80);
                v.push(73);
                v.push(95);
                let mut w = p.to_bytes();
                v.append(&mut w);
                assert(v@ =~= spec_format_symbol(*self));
            },
            Symbol::PerpetualVanilla(p) => {
                v.push(80);
                v.push(86);
                v.push(95);
                let mut w = p.to_bytes();
                v.append(&mut w);
                assert(v@ =~= spec_format_symbol(*self));
            },
            Symbol::Index(p) => {
                v.push(73);
                v.push(78);
                v.push(95);
                let mut w = p.to_bytes();
                v.append(&mut w);
                assert(v@ =~= spec_format_symbol(*self));
            },
            Symbol::ReferenceRate(p) => {
                v.push(82);
                v.push(82);
                v.push(95);
                let mut w = p.to_bytes();
                v.append(&mut w);
                assert(v@ =~= spec_format_symbol(*self));
            },
        }
        v
    }

    /// The canonical string form.
    pub fn format(&self) -> (r: String)
        ensures
            r@ == spec_format_symbol(*self).map_values(|b: u8| b as char),
    {
        let v = self.to_bytes();
        proof {
            lemma_format_symbol_ascii(*self);
        }
        string_from_ascii(v)
    }

    /// Parses a symbol string, case-insensitively. On failure the error names
    /// the offending input: a malformed shape or expiry is a symbol error, a
    /// pair token that is not six bytes a pair error, an unknown currency a
    /// currency error.
    pub fn parse(s: &str) -> (r: Result<Symbol, KrakenError>)
        ensures
            r matches Ok(sym) ==> spec_parse_symbol(s.spec_bytes()) == Some(sym),
            spec_parse_symbol(s.spec_bytes()) matches Some(sym) ==> r == Ok::<
                Symbol,
                KrakenError,
            >(sym),
            r matches Err(e) ==> {
                let t = match e {
                    KrakenError::ParseSymbolFailed(t) => t@,
                    KrakenError::ParsePairFailed(t) => t@,
                    KrakenError::ParseCurrencyFailed(t) => t@,
                    _ => Seq::empty(),
                };
                &&& t == s@
                &&& match spec_symbol_failure(spec_upper(s.spec_bytes())) {
                    SymbolParseFailure::BadShape => e is ParseSymbolFailed,
                    SymbolParseFailure::BadPairLength => e is ParsePairFailed,
                    SymbolParseFailure::BadCurrency => e is ParseCurrencyFailed,
                }
            },
    {
        match parse_symbol_bytes(s.as_bytes()) {
            Ok(sym) => Ok(sym),
            Err(SymbolParseFailure::BadShape) => Err(
                KrakenError::ParseSymbolFailed(s.to_owned()),
            ),
            Err(SymbolParseFailure::BadPairLength) => Err(
                KrakenError::ParsePairFailed(s.to_owned()),
            ),
            Err(SymbolParseFailure::BadCurrency) => Err(
                KrakenError::ParseCurrencyFailed(s.to_owned()),
            ),
        }
    }
}

/// Parses a symbol's byte form, case-insensitively; on failure it reports
/// which rule was broken.
pub fn parse_symbol_bytes(bytes: &[u8]) -> (r: Result<Symbol, SymbolParseFailure>)
    ensures
        r matches Ok(sym) ==> spec_parse_symbol(bytes@) == Some(sym),
        spec_parse_symbol(bytes@) matches Some(sym) ==> r == Ok::<Symbol, SymbolParseFailure>(sym),
        r matches Err(c) ==> c == spec_symbol_failure(spec_upper(bytes@)),
    {
        let u = upper_bytes(bytes);
        let ghost uv = spec_upper(bytes@);
        if u.len() == 4 && u[0] == 67 && u[1] == 65 && u[2] == 83 && u[3] == 72 {
            proof {
                assert(uv =~= cash_bytes());
            }
            return Ok(Symbol::Cash);
        }
        proof {
            if uv.len() == 4 {
                assert(uv =~= seq![uv[0], uv[1], uv[2], uv[3]]);
            }
            assert(uv != cash_bytes());
        }
        if u.len() < 3 || u[2] != 95 {
            return Err(SymbolParseFailure::BadShape);
        }
        let k0 = u[0];
        let k1 = u[1];
        // Find the first underscore in the tail after the kind prefix.
        let mut k: usize = 3;
        while k < u.len() && u[k] != 95
            invariant
                3 <= k <= uv.len(),
                u@ == uv,
                forall|j: int| 3 <= j < k ==> uv[j] != 95,
            decreases uv.len() - k,
        {
            k = k + 1;
        }
        let ghost tail = uv.skip(3);
        proof {
            if k < uv.len() {
                assert(tail[k - 3] == 95);
                assert(forall|j: int| 0 <= j < k - 3 ==> tail[j] != 95);
                lemma_first_us_shape(tail, k - 3);
            } else {
                assert(forall|j: int| 0 <= j < tail.len() ==> tail[j] != 95);
                lemma_first_us_none(tail, 0);
            }
        }
        if k == u.len() {
            // No expiry token: KIND_PAIR.
            let is_fi = k0 == 70 && k1 == 73;
            let is_fv = k0 == 70 && k1 == 86;
            let is_pi = k0 == 80 && k1 == 73;
            let is_pv = k0 == 80 && k1 == 86;
            let is_in = k0 == 73 && k1 == 78;
            let is_rr = k0 == 82 && k1 == 82;
            proof {
                assert(uv.take(2) =~= seq![uv[0], uv[1]]);
            }
            if !(is_fi || is_fv || is_pi || is_pv || is_in || is_rr) {
                return Err(SymbolParseFailure::BadShape);
            }
            if u.len() != 9 {
                proof {
                    assert(tail.len() != 6);
                }
                return Err(SymbolParseFailure::BadPairLength);
            }
            let p = match Pair::of_upper(slice_subrange(u.as_slice(), 3, 9)) {
                Some(p) => p,
                None => {
                    proof {
                        assert(u@.subrange(3, 9) =~= tail);
                    }
                    return Err(SymbolParseFailure::BadCurrency);
                },
            };
            proof {
                assert(u@.subrange(3, 9) =~= tail);
            }
            if is_fi {
                Ok(Symbol::FutureInverse(p, None))
            } else if is_fv {
                Ok(Symbol::FutureVanilla(p, None))
            } else if is_pi {
                Ok(Symbol::PerpetualInverse(p))
            } else if is_pv {
                Ok(Symbol::PerpetualVanilla(p))
            } else if is_in {
                Ok(Symbol::Index(p))
            } else {
                Ok(Symbol::ReferenceRate(p))
            }
        } else {
            // Expiry token present: KIND_PAIR_EXPIRY, futures only.
            let mut j: usize = k + 1;
            while j < u.len() && u[j] != 95
                invariant
                    k + 1 <= j <= uv.len(),
                    u@ == uv,
                    k < uv.len(),
                    forall|i: int| k + 1 <= i < j ==> uv[i] != 95,
                decreases uv.len() - j,
            {
                j = j + 1;
            }
            proof {
                if j < uv.len() {
                    assert(tail[j - 3] == 95);
                    assert(forall|i: int| k - 3 + 1 <= i < j - 3 ==> tail[i] != 95);
                    lemma_first_us_shape_from(tail, k - 3 + 1, j - 3);
                } else {
                    lemma_first_us_none_from(tail, k - 3 + 1);
                }
            }
            if j < u.len() {
                // A second underscore after the expiry token: malformed.
                return Err(SymbolParseFailure::BadShape);
            }
            let is_fi = k0 == 70 && k1 == 73;
            let is_fv = k0 == 70 && k1 == 86;
            proof {
                assert(uv.take(2) =~= seq![uv[0], uv[1]]);
            }
            if !(is_fi || is_fv) {
                return Err(SymbolParseFailure::BadShape);
            }
            if k != 9 {
                proof {
                    assert(tail.take(k - 3).len() != 6);
                }
                return Err(SymbolParseFailure::BadPairLength);
            }
            let p = match Pair::of_upper(slice_subrange(u.as_slice(), 3, 9)) {
                Some(p) => p,
                None => {
                    proof {
                        assert(u@.subrange(3, 9) =~= tail.take(6));
                    }
                    return Err(SymbolParseFailure::BadCurrency);
                },
            };
            proof {
                assert(u@.subrange(3, 9) =~= tail.take(6));
            }
            let e = match parse_u64_digits(slice_subrange(u.as_slice(), 10, u.len())) {
                Some(e) => e,
                None => {
                    proof {
                        assert(u@.subrange(10, uv.len() as int) =~= tail.skip(7));
                    }
                    return Err(SymbolParseFailure::BadShape);
                },
            };
            proof {
                assert(u@.subrange(10, uv.len() as int) =~= tail.skip(7));
            }
            if is_fi {
                Ok(Symbol::FutureInverse(p, Some(e)))
            } else {
                Ok(Symbol::FutureVanilla(p, Some(e)))
            }
        }
    }

/// The pair of a symbol, at the specification level.
pub open spec fn spec_symbol_pair(sym: Symbol) -> Option<Pair> {
    match sym {
        Symbol::Cash => None,
        Symbol::FutureInverse(p, _) => Some(p),
        Symbol::FutureVanilla(p, _) => Some(p),
        Symbol::PerpetualInverse(p) => Some(p),
        Symbol::PerpetualVanilla(p) => Some(p),
        Symbol::Index(p) => Some(p),
        Symbol::ReferenceRate(p) => Some(p),
    }
}

/// Appends the expiry digits.
fn push_expiry(v: &mut Vec<u8>, e: u64)
    ensures
        final(v)@ == old(v)@ + spec_u64_dec(e as nat),
{
    let mut w = u64_dec(e);
    v.append(&mut w);
}

/// If s has an underscore at m and none before, the first search finds m.
proof fn lemma_first_us_shape(s: Seq<u8>, m: int)
    requires
        0 <= m < s.len(),
        s[m] == 95,
        forall|j: int| 0 <= j < m ==> s[j] != 95,
    ensures
        first_us(s, 0) == m,
{
    lemma_first_us_shape_from(s, 0, m);
}

proof fn lemma_first_us_shape_from(s: Seq<u8>, i: int, m: int)
    requires
        0 <= i <= m < s.len(),
        s[m] == 95,
        forall|j: int| i <= j < m ==> s[j] != 95,
    ensures
        first_us(s, i) == m,
    decreases m - i,
{
    if i < m {
        lemma_first_us_shape_from(s, i + 1, m);
    }
}

proof fn lemma_first_us_none_from(s: Seq<u8>, i: int)
    requires
        0 <= i <= s.len(),
        forall|j: int| i <= j < s.len() ==> s[j] != 95,
    ensures
        first_us(s, i) == s.len(),
    decreases s.len() - i,
{
    if i < s.len() {
        lemma_first_us_none_from(s, i + 1);
    }
}

/// Every byte of a formatted symbol is printable ASCII.
pub proof fn lemma_format_symbol_ascii(sym: Symbol)
    ensures
        forall|i: int|
            0 <= i < spec_format_symbol(sym).len() ==> #[trigger] spec_format_symbol(sym)[i] < 128,
{
    let s = spec_format_symbol(sym);
    match sym {
        Symbol::Cash => {},
        Symbol::FutureInverse(p, oe) | Symbol::FutureVanilla(p, oe) => {
            lemma_pair_roundtrip(p);
            if let Some(e) = oe {
                crate::text::lemma_u64_dec_digits(e as nat);
            }
        },
        Symbol::PerpetualInverse(p) | Symbol::PerpetualVanilla(p) | Symbol::Index(p)
        | Symbol::ReferenceRate(p) => {
            lemma_pair_roundtrip(p);
        },
    }
    assert(forall|i: int| 0 <= i < s.len() ==> #[trigger] s[i] < 128);
}

// ---------------------------------------------------------------------------
// Round-trip laws
// ---------------------------------------------------------------------------

/// Every currency byte is an upper-case ASCII letter.
proof fn lemma_currency_bytes_range(c: Currency)
    ensures
        forall|i: int| 0 <= i < currency_bytes(c).len() ==> 65 <= #[trigger] currency_bytes(c)[i]
            <= 90,
        currency_bytes(c).len() == 3,
{
}

/// The canonical name of a currency parses back to that currency.
proof fn lemma_currency_roundtrip(c: Currency)
    ensures
        spec_currency_of_upper(currency_bytes(c)) == Some(c),
{
    let s = currency_bytes(c);
    match c {
        Currency::XBT => {},
        Currency::ETH => {
            assert(s[0] != currency_bytes(Currency::XBT)[0]);
        },
        Currency::BCH => {
            assert(s[0] != currency_bytes(Currency::XBT)[0]);
            assert(s[0] != currency_bytes(Currency::ETH)[0]);
        },
        Currency::XRP => {
            assert(s[1] != currency_bytes(Currency::XBT)[1]);
            assert(s[0] != currency_bytes(Currency::ETH)[0]);
            assert(s[0] != currency_bytes(Currency::BCH)[0]);
        },
        Currency::LTC => {
            assert(s[0] != currency_bytes(Currency::XBT)[0]);
            assert(s[0] != currency_bytes(Currency::ETH)[0]);
            assert(s[0] != currency_bytes(Currency::BCH)[0]);
            assert(s[0] != currency_bytes(Currency::XRP)[0]);
        },
        Currency::USD => {
            assert(s[0] != currency_bytes(Currency::XBT)[0]);
            assert(s[0] != currency_bytes(Currency::ETH)[0]);
            assert(s[0] != currency_bytes(Currency::BCH)[0]);
            assert(s[0] != currency_bytes(Currency::XRP)[0]);
            assert(s[0] != currency_bytes(Currency::LTC)[0]);
        },
    }
}

/// The canonical form of a pair parses back to that pair, seen as an
/// already-upper-cased token.
proof fn lemma_pair_roundtrip(p: Pair)
    ensures
        spec_pair_of_upper(spec_format_pair(p)) == Some(p),
        spec_format_pair(p).len() == 6,
        forall|i: int| 0 <= i < 6 ==> 65 <= #[trigger] spec_format_pair(p)[i] <= 90,
{
    lemma_currency_bytes_range(p.0);
    lemma_currency_bytes_range(p.1);
    lemma_currency_roundtrip(p.0);
    lemma_currency_roundtrip(p.1);
    assert(spec_format_pair(p).take(3) =~= currency_bytes(p.0));
    assert(spec_format_pair(p).skip(3) =~= currency_bytes(p.1));
}

/// Upper-casing a sequence with no lower-case letters changes nothing.
proof fn lemma_upper_id(s: Seq<u8>)
    requires
        forall|i: int| 0 <= i < s.len() ==> !(97 <= #[trigger] s[i] <= 122),
    ensures
        spec_upper(s) =~= s,
{
}

/// No byte of a formatted symbol is a lower-case letter, so the canonical
/// form is its own upper-case image.
proof fn lemma_format_symbol_upper(sym: Symbol)
    ensures
        spec_upper(spec_format_symbol(sym)) =~= spec_format_symbol(sym),
{
    let s = spec_format_symbol(sym);
    match sym {
        Symbol::Cash => {},
        Symbol::FutureInverse(p, oe) | Symbol::FutureVanilla(p, oe) => {
            lemma_pair_roundtrip(p);
            if let Some(e) = oe {
                crate::text::lemma_u64_dec_digits(e as nat);
            }
        },
        Symbol::PerpetualInverse(p) | Symbol::PerpetualVanilla(p) | Symbol::Index(p)
        | Symbol::ReferenceRate(p) => {
            lemma_pair_roundtrip(p);
        },
    }
    assert(forall|i: int| 0 <= i < s.len() ==> !(97 <= #[trigger] s[i] <= 122));
    lemma_upper_id(s);
}

/// A string of the shape KIND_PAIR is read as that kind over that pair.
proof fn lemma_parse_noexp_shape(kind: Seq<u8>, p: Pair)
    requires
        kind.len() == 2,
    ensures
        spec_symbol_of_upper(kind + seq![95u8] + spec_format_pair(p)) == kind_no_expiry(kind, p),
{
    let s = kind + seq![95u8] + spec_format_pair(p);
    lemma_pair_roundtrip(p);
    assert(s.len() == 9);
    assert(s != cash_bytes());
    assert(s[2] == 95);
    let tail = s.skip(3);
    assert(tail =~= spec_format_pair(p));
    assert(forall|j: int| 0 <= j < tail.len() ==> tail[j] != 95);
    lemma_first_us_none(tail, 0);
    assert(s.take(2) =~= kind);
}

/// A string of the shape KIND_PAIR_EXPIRY is read as that dated kind.
proof fn lemma_parse_exp_shape(kind: Seq<u8>, p: Pair, e: u64)
    requires
        kind.len() == 2,
    ensures
        spec_symbol_of_upper(
            kind + seq![95u8] + spec_format_pair(p) + seq![95u8] + spec_u64_dec(e as nat),
        ) == kind_with_expiry(kind, p, e),
{
    let digits = spec_u64_dec(e as nat);
    let s = kind + seq![95u8] + spec_format_pair(p) + seq![95u8] + digits;
    lemma_pair_roundtrip(p);
    crate::text::lemma_u64_dec_digits(e as nat);
    crate::text::lemma_u64_dec_parses(e);
    assert(s.len() == 10 + digits.len());
    assert(s != cash_bytes());
    assert(s[2] == 95);
    let tail = s.skip(3);
    assert(tail =~= spec_format_pair(p) + seq![95u8] + digits);
    assert(tail[6] == 95);
    assert(forall|j: int| 0 <= j < 6 ==> tail[j] != 95);
    lemma_first_us_shape(tail, 6);
    assert(forall|j: int| 7 <= j < tail.len() ==> tail[j] != 95);
    lemma_first_us_none_from(tail, 7);
    assert(tail.take(6) =~= spec_format_pair(p));
    assert(tail.skip(7) =~= digits);
    assert(s.take(2) =~= kind);
}

/// Law: parsing the canonical form of any symbol gives the symbol back.
pub proof fn lemma_symbol_round_trip(sym: Symbol)
    ensures
        spec_parse_symbol(spec_format_symbol(sym)) == Some(sym),
{
    lemma_format_symbol_upper(sym);
    match sym {
        Symbol::Cash => {},
        Symbol::FutureInverse(p, oe) => {
            match oe {
                None => lemma_parse_noexp_shape(seq![70u8, 73u8], p),
                Some(e) => lemma_parse_exp_shape(seq![70u8, 73u8], p, e),
            }
        },
        Symbol::FutureVanilla(p, oe) => {
            match oe {
                None => lemma_parse_noexp_shape(seq![70u8, 86u8], p),
                Some(e) => lemma_parse_exp_shape(seq![70u8, 86u8], p, e),
            }
        },
        Symbol::PerpetualInverse(p) => lemma_parse_noexp_shape(seq![80u8, 73u8], p),
        Symbol::PerpetualVanilla(p) => lemma_parse_noexp_shape(seq![80u8, 86u8], p),
        Symbol::Index(p) => lemma_parse_noexp_shape(seq![73u8, 78u8], p),
        Symbol::ReferenceRate(p) => lemma_parse_noexp_shape(seq![82u8, 82u8], p),
    }
}

/// Law: every canonical symbol string parses, and formatting the parse
/// result gives the string back unchanged.
pub proof fn lemma_canonical_round_trip(s: Seq<u8>)
    requires
        exists|sym: Symbol| s == spec_format_symbol(sym),
    ensures
        spec_parse_symbol(s) is Some,
        spec_parse_symbol(s) matches Some(sym) ==> spec_format_symbol(sym) == s,
{
    let sym = choose|sym: Symbol| s == spec_format_symbol(sym);
    lemma_symbol_round_trip(sym);
}

} // verus!
