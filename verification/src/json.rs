use vstd::prelude::*;
use vstd::slice::{slice_subrange, slice_to_vec};

use crate::text::{all_digits, digits_val, is_digit, spec_parse_u64};

verus! {

// ---------------------------------------------------------------------------
// Values
// ---------------------------------------------------------------------------

/// A JSON number as written: sign, decimal mantissa and scale, so that the
/// value is mant / 10^scale, negated when neg holds. 30000.5 is mantissa
/// 300005 at scale 1. Numbers whose digits exceed u64 are rejected at parse
/// time rather than rounded.
#[derive(Clone, Copy, Debug, PartialEq, Eq)]
pub struct JsonNum {
    pub neg: bool,
    pub mant: u64,
    pub scale: u32,
}

/// A parsed JSON document. Object members keep their wire order; strings
/// hold their decoded content bytes.
#[derive(Debug, PartialEq, Eq)]
pub enum JsonValue {
    Null,
    Bool(bool),
    Num(JsonNum),
    Str(Vec<u8>),
    Arr(Vec<JsonValue>),
    Obj(Vec<(Vec<u8>, JsonValue)>),
}

/// The mathematical mirror of JsonValue: a number is a signed mantissa and
/// a scale, strings and keys are byte sequences.
pub enum JsonV {
    Null,
    Bool(bool),
    Num(int, nat),
    Str(Seq<u8>),
    Arr(Seq<JsonV>),
    Obj(Seq<(Seq<u8>, JsonV)>),
}

/// The mathematical value of a JsonNum.
pub open spec fn num_v(n: JsonNum) -> JsonV {
    JsonV::Num(
        if n.neg {
            -(n.mant as int)
        } else {
            n.mant as int
        },
        n.scale as nat,
    )
}

/// The mathematical mirror of a parsed document.
pub open spec fn jv(v: JsonValue) -> JsonV
    decreases v,
{
    match v {
        JsonValue::Null => JsonV::Null,
        JsonValue::Bool(b) => JsonV::Bool(b),
        JsonValue::Num(n) => num_v(n),
        JsonValue::Str(b) => JsonV::Str(b@),
        JsonValue::Arr(xs) => JsonV::Arr(jvs(xs@)),
        JsonValue::Obj(ms) => JsonV::Obj(jms(ms@)),
    }
}

/// The mirror of a sequence of elements.
pub open spec fn jvs(xs: Seq<JsonValue>) -> Seq<JsonV>
    decreases xs,
{
    Seq::new(
        xs.len(),
        |k: int|
            if 0 <= k < xs.len() {
                jv(xs[k])
            } else {
                JsonV::Null
            },
    )
}

/// The mirror of a sequence of object members.
pub open spec fn jms(ms: Seq<(Vec<u8>, JsonValue)>) -> Seq<(Seq<u8>, JsonV)>
    decreases ms,
{
    Seq::new(
        ms.len(),
        |k: int|
            (
                ms[k].0@,
                if 0 <= k < ms.len() {
                    jv(ms[k].1)
                } else {
                    JsonV::Null
                },
            ),
    )
}

// ---------------------------------------------------------------------------
// Lexical helpers
// ---------------------------------------------------------------------------

/// JSON insignificant whitespace.
pub open spec fn is_ws(b: u8) -> bool {
    b == 32 || b == 9 || b == 10 || b == 13
}

/// The first index at or after i holding no whitespace, or the length.
pub open spec fn ws_end(s: Seq<u8>, i: int) -> int
    decreases s.len() - i,
{
    if 0 <= i < s.len() && is_ws(s[i]) {
        ws_end(s, i + 1)
    } else {
        i
    }
}

/// Skips whitespace.
pub fn ws_end_x(s: &[u8], i: usize) -> (r: usize)
    requires
        i <= s@.len(),
    ensures
        r == ws_end(s@, i as int),
        i <= r <= s@.len(),
{
    let mut j: usize = i;
    while j < s.len() && (s[j] == 32 || s[j] == 9 || s[j] == 10 || s[j] == 13)
        invariant
            i <= j <= s@.len(),
            ws_end(s@, i as int) == ws_end(s@, j as int),
        decreases s@.len() - j,
    {
        j = j + 1;
    }
    j
}

/// The first index at or after i holding no decimal digit, or the length.
pub open spec fn digits_end(s: Seq<u8>, i: int) -> int
    decreases s.len() - i,
{
    if 0 <= i < s.len() && is_digit(s[i]) {
        digits_end(s, i + 1)
    } else {
        i
    }
}

pub proof fn lemma_digits_end(s: Seq<u8>, i: int)
    requires
        0 <= i <= s.len(),
    ensures
        i <= digits_end(s, i) <= s.len(),
        all_digits(s.subrange(i, digits_end(s, i))),
    decreases s.len() - i,
{
    if i < s.len() && is_digit(s[i]) {
        lemma_digits_end(s, i + 1);
        assert forall|k: int| 0 <= k < s.subrange(i, digits_end(s, i)).len() implies is_digit(
            #[trigger] s.subrange(i, digits_end(s, i))[k],
        ) by {
            if k > 0 {
                assert(s.subrange(i, digits_end(s, i))[k] == s.subrange(
                    i + 1,
                    digits_end(s, i + 1),
                )[k - 1]);
            }
        }
    }
}

/// Scans a run of digits.
pub fn digits_end_x(s: &[u8], i: usize) -> (r: usize)
    requires
        i <= s@.len(),
    ensures
        r == digits_end(s@, i as int),
        i <= r <= s@.len(),
{
    let mut j: usize = i;
    while j < s.len() && 48 <= s[j] && s[j] <= 57
        invariant
            i <= j <= s@.len(),
            digits_end(s@, i as int) == digits_end(s@, j as int),
        decreases s@.len() - j,
    {
        j = j + 1;
    }
    j
}

// ---------------------------------------------------------------------------
// String bodies and escaping
// ---------------------------------------------------------------------------

/// What a backslash escape stands for; unicode escapes are not accepted.
pub open spec fn unescape_byte(b: u8) -> Option<u8> {
    if b == 34 {
        Some(34u8)
    } else if b == 92 {
        Some(92u8)
    } else if b == 47 {
        Some(47u8)
    } else if b == 98 {
        Some(8u8)
    } else if b == 102 {
        Some(12u8)
    } else if b == 110 {
        Some(10u8)
    } else if b == 114 {
        Some(13u8)
    } else if b == 116 {
        Some(9u8)
    } else {
        None
    }
}

/// Reads a string body starting just after the opening quote: the decoded
/// content bytes and the index just past the closing quote. Raw control
/// bytes and unknown escapes fail.
pub open spec fn spec_string_body(s: Seq<u8>, i: int) -> Option<(Seq<u8>, int)>
    decreases s.len() - i,
{
    if i < 0 || i >= s.len() {
        None
    } else if s[i] == 34 {
        Some((Seq::empty(), i + 1))
    } else if s[i] == 92 {
        if i + 1 >= s.len() {
            None
        } else {
            match unescape_byte(s[i + 1]) {
                Some(c) => match spec_string_body(s, i + 2) {
                    Some((t, e)) => Some((seq![c] + t, e)),
                    None => None,
                },
                None => None,
            }
        }
    } else if s[i] < 32 {
        None
    } else {
        match spec_string_body(s, i + 1) {
            Some((t, e)) => Some((seq![s[i]] + t, e)),
            None => None,
        }
    }
}

/// Reads a string body; mirrors spec_string_body.
fn parse_string_body(s: &[u8], i: usize) -> (r: Option<(Vec<u8>, usize)>)
    requires
        i <= s@.len(),
    ensures
        match r {
            Some((t, e)) => spec_string_body(s@, i as int) == Some((t@, e as int)) && i < e
                <= s@.len(),
            None => spec_string_body(s@, i as int) is None,
        },
    decreases s@.len() - i,
{
    if i >= s.len() {
        return None;
    }
    let b = s[i];
    if b == 34 {
        return Some((Vec::new(), i + 1));
    }
    if b == 92 {
        if i + 1 >= s.len() {
            return None;
        }
        let n = s[i + 1];
        let c: u8 = if n == 34 {
            34
        } else if n == 92 {
            92
        } else if n == 47 {
            47
        } else if n == 98 {
            8
        } else if n == 102 {
            12
        } else if n == 110 {
            10
        } else if n == 114 {
            13
        } else if n == 116 {
            9
        } else {
            return None;
        };
        assert(unescape_byte(s@[i + 1]) == Some(c));
        match parse_string_body(s, i + 2) {
            Some((mut t, e)) => {
                t.insert(0, c);
                assert(t@ =~= seq![c] + t@.skip(1));
                return Some((t, e));
            },
            None => {
                return None;
            },
        }
    }
    if b < 32 {
        return None;
    }
    match parse_string_body(s, i + 1) {
        Some((mut t, e)) => {
            t.insert(0, b);
            assert(t@ =~= seq![b] + t@.skip(1));
            Some((t, e))
        },
        None => None,
    }
}

/// The escaped wire form of one content byte, as the writer emits it:
/// quotes, backslashes and control bytes are escaped, everything else
/// passes through.
pub open spec fn esc_byte(b: u8) -> Seq<u8> {
    if b == 34 {
        seq![92u8, 34u8]
    } else if b == 92 {
        seq![92u8, 92u8]
    } else if b == 8 {
        seq![92u8, 98u8]
    } else if b == 9 {
        seq![92u8, 116u8]
    } else if b == 10 {
        seq![92u8, 110u8]
    } else if b == 12 {
        seq![92u8, 102u8]
    } else if b == 13 {
        seq![92u8, 114u8]
    } else if b < 32 {
        seq![92u8, 117u8, 48u8, 48u8, hex_digit(b / 16), hex_digit(b % 16)]
    } else {
        seq![b]
    }
}

/// The lower-case hex digit of a value below 16.
pub open spec fn hex_digit(n: u8) -> u8 {
    if n < 10 {
        (48 + n) as u8
    } else {
        (87 + n) as u8
    }
}

/// The escaped wire form of a whole string content.
pub open spec fn spec_escape(s: Seq<u8>) -> Seq<u8>
    decreases s.len(),
{
    if s.len() == 0 {
        Seq::empty()
    } else {
        spec_escape(s.drop_last()) + esc_byte(s.last())
    }
}

/// Appends the escaped form of the content bytes to out.
pub fn push_escaped(out: &mut Vec<u8>, s: &[u8])
    ensures
        final(out)@ == old(out)@ + spec_escape(s@),
{
    let mut i: usize = 0;
    while i < s.len()
        invariant
            i <= s@.len(),
            out@ == old(out)@ + spec_escape(s@.take(i as int)),
        decreases s@.len() - i,
    {
        let b = s[i];
        if b == 34 {
            out.push(92);
            out.push(34);
        } else if b == 92 {
            out.push(92);
            out.push(92);
        } else if b == 8 {
            out.push(92);
            out.push(98);
        } else if b == 9 {
            out.push(92);
            out.push(116);
        } else if b == 10 {
            out.push(92);
            out.push(110);
        } else if b == 12 {
            out.push(92);
            out.push(102);
        } else if b == 13 {
            out.push(92);
            out.push(114);
        } else if b < 32 {
            out.push(92);
            out.push(117);
            out.push(48);
            out.push(48);
            out.push(if b / 16 < 10 {
                48 + b / 16
            } else {
                87 + b / 16
            });
            out.push(if b % 16 < 10 {
                48 + b % 16
            } else {
                87 + b % 16
            });
        } else {
            out.push(b);
        }
        proof {
            assert(s@.take(i + 1).drop_last() =~= s@.take(i as int));
            assert(s@.take(i + 1).last() == s@[i as int]);
            assert(out@ =~= old(out)@ + spec_escape(s@.take(i + 1)));
        }
        i = i + 1;
    }
    proof {
        assert(s@.take(i as int) =~= s@);
    }
}

/// Appends a full JSON string token: quote, escaped content, quote.
pub fn push_json_string(out: &mut Vec<u8>, s: &[u8])
    ensures
        final(out)@ == old(out)@ + spec_quoted(s@),
{
    out.push(34);
    push_escaped(out, s);
    out.push(34);
    assert(out@ =~= old(out)@ + spec_quoted(s@));
}

/// The full JSON string token for a content: quote, escapes, quote.
pub open spec fn spec_quoted(s: Seq<u8>) -> Seq<u8> {
    seq![34u8] + spec_escape(s) + seq![34u8]
}

// ---------------------------------------------------------------------------
// The writer and the reader agree on string tokens
// ---------------------------------------------------------------------------

/// A content byte the escape table covers losslessly: everything but the
/// raw control bytes that have no named escape. Those are written as
/// numeric escapes, which the reader deliberately does not accept.
pub open spec fn escape_reversible(b: u8) -> bool {
    b >= 32 || b == 8 || b == 9 || b == 10 || b == 12 || b == 13
}

/// Escaping distributes over concatenation.
proof fn lemma_escape_concat(a: Seq<u8>, b: Seq<u8>)
    ensures
        spec_escape(a + b) == spec_escape(a) + spec_escape(b),
    decreases b.len(),
{
    if b.len() == 0 {
        assert(a + b =~= a);
        assert(spec_escape(a) + spec_escape(b) =~= spec_escape(a));
    } else {
        lemma_escape_concat(a, b.drop_last());
        assert((a + b).drop_last() =~= a + b.drop_last());
        assert((a + b).last() == b.last());
        assert(spec_escape(a) + spec_escape(b.drop_last()) + esc_byte(b.last()) =~= spec_escape(a)
            + spec_escape(b));
    }
}

/// Reading a string body over an escaped content followed by the closing
/// quote gives the content back, wherever it stands in the buffer.
proof fn lemma_body_reads_escape(s: Seq<u8>, buf: Seq<u8>, i: int)
    requires
        forall|k: int| 0 <= k < s.len() ==> escape_reversible(#[trigger] s[k]),
        0 <= i,
        i + spec_escape(s).len() + 1 <= buf.len(),
        buf.subrange(i, i + spec_escape(s).len() + 1) == spec_escape(s) + seq![34u8],
    ensures
        spec_string_body(buf, i) == Some((s, i + spec_escape(s).len() + 1)),
    decreases s.len(),
{
    let w = buf.subrange(i, i + spec_escape(s).len() + 1);
    if s.len() == 0 {
        assert(spec_escape(s).len() == 0);
        assert(buf[i] == w[0]);
        assert(buf[i] == 34);
    } else {
        let c = s[0];
        let s2 = s.drop_first();
        assert(s =~= seq![c] + s2);
        lemma_escape_concat(seq![c], s2);
        assert(spec_escape(seq![c]) =~= esc_byte(c)) by {
            assert(seq![c].drop_last() =~= Seq::<u8>::empty());
            assert(seq![c].last() == c);
            assert(spec_escape(Seq::<u8>::empty()) =~= Seq::<u8>::empty());
            assert(spec_escape(seq![c]) == spec_escape(seq![c].drop_last()) + esc_byte(
                seq![c].last(),
            ));
        }
        let e = esc_byte(c);
        let j = i + e.len();
        assert(forall|k: int| 0 <= k < e.len() ==> buf[i + k] == #[trigger] e[k]) by {
            assert(forall|k: int|
                0 <= k < e.len() ==> buf[i + k] == w[k] && w[k] == (spec_escape(s)
                    + seq![34u8])[k] && (spec_escape(s) + seq![34u8])[k] == #[trigger] e[k]);
        }
        assert(buf.subrange(j, j + spec_escape(s2).len() + 1) =~= spec_escape(s2) + seq![34u8])
            by {
            assert(forall|k: int|
                0 <= k < spec_escape(s2).len() + 1 ==> #[trigger] buf.subrange(
                    j,
                    j + spec_escape(s2).len() + 1,
                )[k] == w[e.len() + k]);
        }
        lemma_body_reads_escape(s2, buf, j);
        if c == 34 {
            assert(buf[i] == 92 && buf[i + 1] == 34);
            assert(unescape_byte(34) == Some(34u8));
            assert(seq![c] + s2 =~= s);
        } else if c == 92 {
            assert(buf[i] == 92 && buf[i + 1] == 92);
            assert(seq![c] + s2 =~= s);
        } else if c == 8 {
            assert(buf[i] == 92 && buf[i + 1] == 98);
            assert(seq![c] + s2 =~= s);
        } else if c == 9 {
            assert(buf[i] == 92 && buf[i + 1] == 116);
            assert(seq![c] + s2 =~= s);
        } else if c == 10 {
            assert(buf[i] == 92 && buf[i + 1] == 110);
            assert(seq![c] + s2 =~= s);
        } else if c == 12 {
            assert(buf[i] == 92 && buf[i + 1] == 102);
            assert(seq![c] + s2 =~= s);
        } else if c == 13 {
            assert(buf[i] == 92 && buf[i + 1] == 114);
            assert(seq![c] + s2 =~= s);
        } else {
            assert(buf[i] == c);
            assert(c >= 32 && c != 34 && c != 92);
            assert(seq![c] + s2 =~= s);
        }
    }
}

/// The wire text of an object whose values are all strings: the quoted
/// key, a colon and the quoted value for each member, joined with commas.
pub open spec fn string_members_tokens(kvs: Seq<(Seq<u8>, Seq<u8>)>) -> Seq<u8>
    decreases kvs.len(),
{
    if kvs.len() == 0 {
        Seq::empty()
    } else {
        let head = spec_quoted(kvs[0].0) + seq![58u8] + spec_quoted(kvs[0].1);
        if kvs.len() == 1 {
            head
        } else {
            head + seq![44u8] + string_members_tokens(kvs.drop_first())
        }
    }
}

/// The members such an object denotes.
pub open spec fn str_members(kvs: Seq<(Seq<u8>, Seq<u8>)>) -> Seq<(Seq<u8>, JsonV)> {
    Seq::new(kvs.len(), |i: int| (kvs[i].0, JsonV::Str(kvs[i].1)))
}

/// Reading the members of an all-string object the writer emitted gives
/// exactly the written members, wherever the object stands in the buffer.
proof fn lemma_string_members_read(kvs: Seq<(Seq<u8>, Seq<u8>)>, buf: Seq<u8>, i: int)
    requires
        kvs.len() >= 1,
        forall|m: int, k: int|
            0 <= m < kvs.len() && 0 <= k < kvs[m].0.len() ==> escape_reversible(
                #[trigger] kvs[m].0[k],
            ),
        forall|m: int, k: int|
            0 <= m < kvs.len() && 0 <= k < kvs[m].1.len() ==> escape_reversible(
                #[trigger] kvs[m].1[k],
            ),
        0 <= i,
        i + string_members_tokens(kvs).len() + 1 <= buf.len(),
        buf.subrange(i, i + string_members_tokens(kvs).len() + 1) == string_members_tokens(kvs)
            + seq![125u8],
    ensures
        spec_members(buf, i) == Some(
            (str_members(kvs), i + string_members_tokens(kvs).len() + 1),
        ),
    decreases kvs.len(),
{
    let toks = string_members_tokens(kvs);
    let w = toks + seq![125u8];
    assert(forall|t: int| 0 <= t < w.len() ==> buf[i + t] == #[trigger] w[t]) by {
        assert(forall|t: int|
            0 <= t < w.len() ==> buf.subrange(i, i + toks.len() + 1)[t] == #[trigger] w[t]);
    }
    let k0 = kvs[0].0;
    let v0 = kvs[0].1;
    let q0 = spec_quoted(k0);
    let q1 = spec_quoted(v0);
    let head = q0 + seq![58u8] + q1;
    assert(forall|t: int| 0 <= t < head.len() ==> w[t] == #[trigger] head[t]);
    // The key token.
    assert(head[0] == q0[0]);
    assert(q0[0] == 34);
    assert(buf[i] == w[0]);
    assert(buf[i] == 34);
    assert(forall|k: int| 0 <= k < k0.len() ==> escape_reversible(#[trigger] k0[k]));
    assert(buf.subrange(i + 1, i + 1 + spec_escape(k0).len() + 1) =~= spec_escape(k0) + seq![
        34u8,
    ]) by {
        assert(forall|t: int|
            0 <= t < spec_escape(k0).len() + 1 ==> #[trigger] buf.subrange(
                i + 1,
                i + 1 + spec_escape(k0).len() + 1,
            )[t] == w[1 + t]);
        assert(forall|t: int|
            0 <= t < spec_escape(k0).len() + 1 ==> w[1 + t] == #[trigger] (spec_escape(k0) + seq![
                34u8,
            ])[t]);
    }
    lemma_body_reads_escape(k0, buf, i + 1);
    let j = i + q0.len();
    assert(spec_string_body(buf, i + 1) == Some((k0, j)));
    // The colon, with no whitespace around it.
    assert(head[q0.len() as int] == 58);
    assert(buf[j] == w[q0.len() as int]);
    assert(buf[j] == 58);
    assert(ws_end(buf, j) == j);
    let m = j + 1;
    assert(head[q0.len() as int + 1] == q1[0]);
    assert(q1[0] == 34);
    assert(buf[m] == w[q0.len() as int + 1]);
    assert(buf[m] == 34);
    assert(ws_end(buf, m) == m);
    // The value token.
    assert(forall|k: int| 0 <= k < v0.len() ==> escape_reversible(#[trigger] v0[k]));
    assert(buf.subrange(m + 1, m + 1 + spec_escape(v0).len() + 1) =~= spec_escape(v0) + seq![
        34u8,
    ]) by {
        assert(forall|t: int|
            0 <= t < spec_escape(v0).len() + 1 ==> #[trigger] buf.subrange(
                m + 1,
                m + 1 + spec_escape(v0).len() + 1,
            )[t] == w[q0.len() + 2 + t]);
        assert(forall|t: int|
            0 <= t < spec_escape(v0).len() + 1 ==> w[q0.len() + 2 + t] == #[trigger] (spec_escape(
                v0,
            ) + seq![34u8])[t]);
    }
    lemma_body_reads_escape(v0, buf, m + 1);
    let e = m + q1.len();
    assert(spec_value(buf, m) == Some((JsonV::Str(v0), e)));
    assert(ws_end(buf, e) == e) by {
        if kvs.len() == 1 {
            assert(buf[e] == w[head.len() as int]);
            assert(buf[e] == 125);
        } else {
            assert(buf[e] == w[head.len() as int]);
            assert(buf[e] == 44);
        }
    }
    if kvs.len() == 1 {
        assert(buf[e] == 125);
        assert(spec_members(buf, i) == Some((seq![(k0, JsonV::Str(v0))], e + 1)));
        assert(seq![(k0, JsonV::Str(v0))] =~= str_members(kvs));
        assert(e + 1 == i + toks.len() + 1);
    } else {
        assert(buf[e] == 44);
        let rest = kvs.drop_first();
        let rtoks = string_members_tokens(rest);
        assert(toks =~= head + seq![44u8] + rtoks);
        let m2 = e + 1;
        assert(buf[m2] == w[head.len() as int + 1]);
        assert(buf[m2] == 34);
        assert(ws_end(buf, m2) == m2);
        assert(buf.subrange(m2, m2 + rtoks.len() + 1) =~= rtoks + seq![125u8]) by {
            assert(forall|t: int|
                0 <= t < rtoks.len() + 1 ==> #[trigger] buf.subrange(m2, m2 + rtoks.len() + 1)[t]
                    == w[head.len() + 1 + t]);
            assert(forall|t: int|
                0 <= t < rtoks.len() + 1 ==> w[head.len() as int + 1 + t] == #[trigger] (rtoks + seq![
                    125u8,
                ])[t]);
        }
        assert(forall|mi: int, k: int|
            0 <= mi < rest.len() && 0 <= k < rest[mi].0.len() ==> escape_reversible(
                #[trigger] rest[mi].0[k],
            )) by {
            assert(forall|mi: int|
                0 <= mi < rest.len() ==> rest[mi] == #[trigger] kvs[mi + 1]);
        }
        assert(forall|mi: int, k: int|
            0 <= mi < rest.len() && 0 <= k < rest[mi].1.len() ==> escape_reversible(
                #[trigger] rest[mi].1[k],
            )) by {
            assert(forall|mi: int|
                0 <= mi < rest.len() ==> rest[mi] == #[trigger] kvs[mi + 1]);
        }
        lemma_string_members_read(rest, buf, m2);
        assert(spec_members(buf, m2) == Some((str_members(rest), m2 + rtoks.len() + 1)));
        assert(spec_members(buf, i) == Some(
            (seq![(k0, JsonV::Str(v0))] + str_members(rest), m2 + rtoks.len() + 1),
        ));
        assert(seq![(k0, JsonV::Str(v0))] + str_members(rest) =~= str_members(kvs));
        assert(m2 + rtoks.len() + 1 == i + toks.len() + 1);
    }
}

/// Law: an object the writer emits with all-string members reads back as
/// exactly those members, in order. The same exclusion as for string tokens
/// applies: content bytes must have a lossless escape.
pub proof fn lemma_string_object_round_trip(kvs: Seq<(Seq<u8>, Seq<u8>)>)
    requires
        kvs.len() >= 1,
        forall|m: int, k: int|
            0 <= m < kvs.len() && 0 <= k < kvs[m].0.len() ==> escape_reversible(
                #[trigger] kvs[m].0[k],
            ),
        forall|m: int, k: int|
            0 <= m < kvs.len() && 0 <= k < kvs[m].1.len() ==> escape_reversible(
                #[trigger] kvs[m].1[k],
            ),
    ensures
        spec_parse_json(seq![123u8] + string_members_tokens(kvs) + seq![125u8]) == Some(
            JsonV::Obj(str_members(kvs)),
        ),
{
    let toks = string_members_tokens(kvs);
    let buf = seq![123u8] + toks + seq![125u8];
    assert(buf[0] == 123);
    assert(ws_end(buf, 0) == 0);
    assert(buf.subrange(1, toks.len() as int + 2) =~= toks + seq![125u8]);
    lemma_string_members_read(kvs, buf, 1);
    assert(buf[1] == 34) by {
        let q0 = spec_quoted(kvs[0].0);
        assert(toks[0] == q0[0]);
    }
    assert(ws_end(buf, 1) == 1);
    assert(spec_value(buf, 0) == Some((JsonV::Obj(str_members(kvs)), buf.len() as int)));
    assert(ws_end(buf, buf.len() as int) == buf.len());
}

/// Law: a string token the writer emits reads back as exactly the written
/// content. The one exclusion is content with raw control bytes that have
/// no named escape: the writer can only spell those as numeric escapes,
/// which the reader does not accept.
pub proof fn lemma_string_token_round_trip(s: Seq<u8>)
    requires
        forall|k: int| 0 <= k < s.len() ==> escape_reversible(#[trigger] s[k]),
    ensures
        spec_parse_json(spec_quoted(s)) == Some(JsonV::Str(s)),
{
    let buf = spec_quoted(s);
    assert(buf[0] == 34);
    assert(ws_end(buf, 0) == 0);
    assert(buf.subrange(1, spec_escape(s).len() as int + 2) =~= spec_escape(s) + seq![34u8]);
    lemma_body_reads_escape(s, buf, 1);
    assert(spec_value(buf, 0) == Some((JsonV::Str(s), buf.len() as int)));
    assert(ws_end(buf, buf.len() as int) == buf.len());
}

// ---------------------------------------------------------------------------
// Numbers
// ---------------------------------------------------------------------------

/// A number from its digit runs, when the mantissa fits in u64 and the
/// scale in u32; anything wider is rejected rather than rounded.
pub open spec fn num_of(neg: bool, digits: Seq<u8>, scale: int, end: int) -> Option<(JsonV, int)> {
    if digits_val(digits) <= u64::MAX && scale <= u32::MAX {
        Some(
            (
                JsonV::Num(
                    if neg {
                        -(digits_val(digits) as int)
                    } else {
                        digits_val(digits) as int
                    },
                    scale as nat,
                ),
                end,
            ),
        )
    } else {
        None
    }
}

/// Reads a JSON number at i: an optional minus, an integer part without a
/// redundant leading zero, and an optional fraction. Exponent forms are not
/// read; the stray letter then fails the surrounding parse.
pub open spec fn spec_number(s: Seq<u8>, i: int) -> Option<(JsonV, int)> {
    let neg = 0 <= i < s.len() && s[i] == 45;
    let p = if neg {
        i + 1
    } else {
        i
    };
    if !(0 <= p < s.len() && is_digit(s[p])) {
        None
    } else {
        let q = digits_end(s, p);
        if s[p] == 48 && q > p + 1 {
            None
        } else if q < s.len() && s[q] == 46 {
            let r = digits_end(s, q + 1);
            if r == q + 1 {
                None
            } else {
                num_of(neg, s.subrange(p, q) + s.subrange(q + 1, r), r - q - 1, r)
            }
        } else {
            num_of(neg, s.subrange(p, q), 0, q)
        }
    }
}

/// Reads a number; mirrors spec_number.
fn parse_number(s: &[u8], i: usize) -> (r: Option<(JsonNum, usize)>)
    requires
        i <= s@.len(),
    ensures
        match r {
            Some((n, e)) => spec_number(s@, i as int) == Some((num_v(n), e as int)) && i < e
                <= s@.len(),
            None => spec_number(s@, i as int) is None,
        },
{
    let neg = i < s.len() && s[i] == 45;
    let p: usize = if neg {
        i + 1
    } else {
        i
    };
    if !(p < s.len() && 48 <= s[p] && s[p] <= 57) {
        return None;
    }
    let q = digits_end_x(s, p);
    proof {
        lemma_digits_end(s@, p as int);
    }
    if s[p] == 48 && q > p + 1 {
        return None;
    }
    proof {
        lemma_digits_end(s@, p as int + 1);
        assert(digits_end(s@, p as int) == digits_end(s@, p as int + 1));
    }
    let has_frac = q < s.len() && s[q] == 46;
    let mut digits: Vec<u8>;
    let scale: usize;
    let end: usize;
    if has_frac {
        let r = digits_end_x(s, q + 1);
        proof {
            lemma_digits_end(s@, q as int + 1);
        }
        if r == q + 1 {
            return None;
        }
        digits = slice_to_vec(slice_subrange(s, p, q));
        let mut frac = slice_to_vec(slice_subrange(s, q + 1, r));
        digits.append(&mut frac);
        scale = r - q - 1;
        end = r;
        proof {
            let ip = s@.subrange(p as int, q as int);
            let fp = s@.subrange(q as int + 1, r as int);
            assert(digits@ == ip + fp);
            assert forall|k: int| 0 <= k < digits@.len() implies is_digit(#[trigger] digits@[k]) by {
                if k < ip.len() {
                    assert(digits@[k] == ip[k]);
                } else {
                    assert(digits@[k] == fp[k - ip.len()]);
                }
            }
        }
    } else {
        digits = slice_to_vec(slice_subrange(s, p, q));
        scale = 0;
        end = q;
    }
    let ghost dseq = digits@;
    proof {
        assert(all_digits(dseq));
        assert(dseq.len() > 0);
    }
    let mant = match crate::text::parse_u64_digits(digits.as_slice()) {
        Some(m) => m,
        None => {
            proof {
                assert(digits_val(dseq) > u64::MAX);
            }
            return None;
        },
    };
    if scale > 0xffff_ffffusize {
        return None;
    }
    let n = JsonNum { neg, mant, scale: scale as u32 };
    Some((n, end))
}

// ---------------------------------------------------------------------------
// Values, arrays, objects
// ---------------------------------------------------------------------------

/// Reads one JSON value at i, which must not be whitespace: a string,
/// object, array, literal or number, and the index just past it. The bound
/// guards keep the recursion well-founded; a parsed token never ends before
/// it starts, so they reject nothing that the grammar allows.
pub open spec fn spec_value(s: Seq<u8>, i: int) -> Option<(JsonV, int)>
    decreases s.len() - i, 0int,
{
    if i < 0 || i >= s.len() {
        None
    } else if s[i] == 34 {
        match spec_string_body(s, i + 1) {
            Some((t, e)) => Some((JsonV::Str(t), e)),
            None => None,
        }
    } else if s[i] == 123 {
        let j = ws_end(s, i + 1);
        if j <= i || j > s.len() {
            None
        } else if j < s.len() && s[j] == 125 {
            Some((JsonV::Obj(Seq::empty()), j + 1))
        } else {
            match spec_members(s, j) {
                Some((ms, e)) => Some((JsonV::Obj(ms), e)),
                None => None,
            }
        }
    } else if s[i] == 91 {
        let j = ws_end(s, i + 1);
        if j <= i || j > s.len() {
            None
        } else if j < s.len() && s[j] == 93 {
            Some((JsonV::Arr(Seq::empty()), j + 1))
        } else {
            match spec_elems(s, j) {
                Some((xs, e)) => Some((JsonV::Arr(xs), e)),
                None => None,
            }
        }
    } else if s[i] == 116 {
        if i + 4 <= s.len() && s[i + 1] == 114 && s[i + 2] == 117 && s[i + 3] == 101 {
            Some((JsonV::Bool(true), i + 4))
        } else {
            None
        }
    } else if s[i] == 102 {
        if i + 5 <= s.len() && s[i + 1] == 97 && s[i + 2] == 108 && s[i + 3] == 115 && s[i + 4]
            == 101 {
            Some((JsonV::Bool(false), i + 5))
        } else {
            None
        }
    } else if s[i] == 110 {
        if i + 4 <= s.len() && s[i + 1] == 117 && s[i + 2] == 108 && s[i + 3] == 108 {
            Some((JsonV::Null, i + 4))
        } else {
            None
        }
    } else if s[i] == 45 || is_digit(s[i]) {
        spec_number(s, i)
    } else {
        None
    }
}

/// Reads the elements of a nonempty array, starting at the first value, up
/// to and past the closing bracket.
pub open spec fn spec_elems(s: Seq<u8>, i: int) -> Option<(Seq<JsonV>, int)>
    decreases s.len() - i, 1int,
{
    match spec_value(s, i) {
        Some((v, j)) => {
            let k = ws_end(s, j);
            if k < s.len() && s[k] == 93 {
                Some((seq![v], k + 1))
            } else if k < s.len() && s[k] == 44 {
                let m = ws_end(s, k + 1);
                if m <= i || m > s.len() {
                    None
                } else {
                    match spec_elems(s, m) {
                        Some((rest, e)) => Some((seq![v] + rest, e)),
                        None => None,
                    }
                }
            } else {
                None
            }
        },
        None => None,
    }
}

/// Reads the members of a nonempty object, starting at the first key, up to
/// and past the closing brace.
pub open spec fn spec_members(s: Seq<u8>, i: int) -> Option<(Seq<(Seq<u8>, JsonV)>, int)>
    decreases s.len() - i, 1int,
{
    if !(0 <= i < s.len() && s[i] == 34) {
        None
    } else {
        match spec_string_body(s, i + 1) {
            Some((key, j)) => {
                let k = ws_end(s, j);
                if !(0 <= k < s.len() && s[k] == 58) {
                    None
                } else {
                    let m = ws_end(s, k + 1);
                    if m <= i || m > s.len() {
                        None
                    } else {
                        match spec_value(s, m) {
                            Some((v, e)) => {
                                let k2 = ws_end(s, e);
                                if k2 < s.len() && s[k2] == 125 {
                                    Some((seq![(key, v)], k2 + 1))
                                } else if k2 < s.len() && s[k2] == 44 {
                                    let m2 = ws_end(s, k2 + 1);
                                    if m2 <= i || m2 > s.len() {
                                        None
                                    } else {
                                        match spec_members(s, m2) {
                                            Some((rest, e2)) => Some((seq![(key, v)] + rest, e2)),
                                            None => None,
                                        }
                                    }
                                } else {
                                    None
                                }
                            },
                            None => None,
                        }
                    }
                }
            },
            None => None,
        }
    }
}

/// Reads one value; mirrors spec_value.
fn parse_value(s: &[u8], i: usize) -> (r: Option<(JsonValue, usize)>)
    requires
        i <= s@.len(),
    ensures
        match r {
            Some((v, e)) => spec_value(s@, i as int) == Some((jv(v), e as int)) && i < e
                <= s@.len(),
            None => spec_value(s@, i as int) is None,
        },
    decreases s@.len() - i, 0int,
{
    if i >= s.len() {
        return None;
    }
    let b = s[i];
    if b == 34 {
        match parse_string_body(s, i + 1) {
            Some((t, e)) => Some((JsonValue::Str(t), e)),
            None => None,
        }
    } else if b == 123 {
        let j = ws_end_x(s, i + 1);
        if j <= i || j > s.len() {
            return None;
        }
        if j < s.len() && s[j] == 125 {
            let ms: Vec<(Vec<u8>, JsonValue)> = Vec::new();
            assert(jms(ms@) =~= Seq::<(Seq<u8>, JsonV)>::empty());
            return Some((JsonValue::Obj(ms), j + 1));
        }
        match parse_members(s, j) {
            Some((ms, e)) => Some((JsonValue::Obj(ms), e)),
            None => None,
        }
    } else if b == 91 {
        let j = ws_end_x(s, i + 1);
        if j <= i || j > s.len() {
            return None;
        }
        if j < s.len() && s[j] == 93 {
            let xs: Vec<JsonValue> = Vec::new();
            assert(jvs(xs@) =~= Seq::<JsonV>::empty());
            return Some((JsonValue::Arr(xs), j + 1));
        }
        match parse_elems(s, j) {
            Some((xs, e)) => Some((JsonValue::Arr(xs), e)),
            None => None,
        }
    } else if b == 116 {
        if s.len() - i >= 4 && s[i + 1] == 114 && s[i + 2] == 117 && s[i + 3] == 101 {
            Some((JsonValue::Bool(true), i + 4))
        } else {
            None
        }
    } else if b == 102 {
        if s.len() - i >= 5 && s[i + 1] == 97 && s[i + 2] == 108 && s[i + 3] == 115 && s[i + 4]
            == 101 {
            Some((JsonValue::Bool(false), i + 5))
        } else {
            None
        }
    } else if b == 110 {
        if s.len() - i >= 4 && s[i + 1] == 117 && s[i + 2] == 108 && s[i + 3] == 108 {
            Some((JsonValue::Null, i + 4))
        } else {
            None
        }
    } else if b == 45 || (48 <= b && b <= 57) {
        match parse_number(s, i) {
            Some((n, e)) => Some((JsonValue::Num(n), e)),
            None => None,
        }
    } else {
        None
    }
}

/// Reads array elements; mirrors spec_elems.
fn parse_elems(s: &[u8], i: usize) -> (r: Option<(Vec<JsonValue>, usize)>)
    requires
        i <= s@.len(),
    ensures
        match r {
            Some((xs, e)) => spec_elems(s@, i as int) == Some((jvs(xs@), e as int)) && i < e
                <= s@.len(),
            None => spec_elems(s@, i as int) is None,
        },
    decreases s@.len() - i, 1int,
{
    let (v, j) = match parse_value(s, i) {
        Some(p) => p,
        None => {
            return None;
        },
    };
    let k = ws_end_x(s, j);
    if k < s.len() && s[k] == 93 {
        let mut xs: Vec<JsonValue> = Vec::new();
        xs.push(v);
        assert(jvs(xs@) =~= seq![jv(v)]);
        return Some((xs, k + 1));
    }
    if k < s.len() && s[k] == 44 {
        let m = ws_end_x(s, k + 1);
        if m <= i || m > s.len() {
            return None;
        }
        match parse_elems(s, m) {
            Some((mut rest, e)) => {
                let ghost old_rest = rest@;
                rest.insert(0, v);
                assert(jvs(rest@) =~= seq![jv(v)] + jvs(old_rest));
                Some((rest, e))
            },
            None => None,
        }
    } else {
        None
    }
}

/// Reads object members; mirrors spec_members.
fn parse_members(s: &[u8], i: usize) -> (r: Option<(Vec<(Vec<u8>, JsonValue)>, usize)>)
    requires
        i <= s@.len(),
    ensures
        match r {
            Some((ms, e)) => spec_members(s@, i as int) == Some((jms(ms@), e as int)) && i < e
                <= s@.len(),
            None => spec_members(s@, i as int) is None,
        },
    decreases s@.len() - i, 1int,
{
    if !(i < s.len() && s[i] == 34) {
        return None;
    }
    let (key, j) = match parse_string_body(s, i + 1) {
        Some(p) => p,
        None => {
            return None;
        },
    };
    let k = ws_end_x(s, j);
    if !(k < s.len() && s[k] == 58) {
        return None;
    }
    let m = ws_end_x(s, k + 1);
    if m <= i || m > s.len() {
        return None;
    }
    let (v, e) = match parse_value(s, m) {
        Some(p) => p,
        None => {
            return None;
        },
    };
    let k2 = ws_end_x(s, e);
    if k2 < s.len() && s[k2] == 125 {
        let mut ms: Vec<(Vec<u8>, JsonValue)> = Vec::new();
        ms.push((key, v));
        assert(jms(ms@) =~= seq![(ms@[0].0@, jv(ms@[0].1))]);
        return Some((ms, k2 + 1));
    }
    if k2 < s.len() && s[k2] == 44 {
        let m2 = ws_end_x(s, k2 + 1);
        if m2 <= i || m2 > s.len() {
            return None;
        }
        match parse_members(s, m2) {
            Some((mut rest, e2)) => {
                let ghost old_rest = rest@;
                rest.insert(0, (key, v));
                assert(jms(rest@) =~= seq![(rest@[0].0@, jv(rest@[0].1))] + jms(old_rest));
                Some((rest, e2))
            },
            None => None,
        }
    } else {
        None
    }
}

// ---------------------------------------------------------------------------
// Whole documents
// ---------------------------------------------------------------------------

/// Reads a whole document: optional whitespace, one value, optional
/// whitespace, nothing else.
pub open spec fn spec_parse_json(s: Seq<u8>) -> Option<JsonV> {
    match spec_value(s, ws_end(s, 0)) {
        Some((v, j)) => if ws_end(s, j) == s.len() {
            Some(v)
        } else {
            None
        },
        None => None,
    }
}

/// Parses a whole JSON document, exactly as spec_parse_json reads it.
pub fn parse_json(s: &[u8]) -> (r: Option<JsonValue>)
    ensures
        match r {
            Some(v) => spec_parse_json(s@) == Some(jv(v)),
            None => spec_parse_json(s@) is None,
        },
{
    let i = ws_end_x(s, 0);
    let (v, j) = match parse_value(s, i) {
        Some(p) => p,
        None => {
            return None;
        },
    };
    let j2 = ws_end_x(s, j);
    if j2 == s.len() {
        Some(v)
    } else {
        None
    }
}

// ---------------------------------------------------------------------------
// Object lookup
// ---------------------------------------------------------------------------

/// The value under the first member with the given key, if any.
pub open spec fn spec_obj_get(ms: Seq<(Seq<u8>, JsonV)>, key: Seq<u8>) -> Option<JsonV>
    decreases ms.len(),
{
    if ms.len() == 0 {
        None
    } else if ms[0].0 == key {
        Some(ms[0].1)
    } else {
        spec_obj_get(ms.drop_first(), key)
    }
}

/// Looks a key up in an object's member list, first match wins.
pub fn obj_get<'a>(ms: &'a Vec<(Vec<u8>, JsonValue)>, key: &[u8]) -> (r: Option<&'a JsonValue>)
    ensures
        match r {
            Some(v) => spec_obj_get(jms(ms@), key@) == Some(jv(*v)),
            None => spec_obj_get(jms(ms@), key@) is None,
        },
{
    let mut i: usize = 0;
    assert(jms(ms@).skip(0) =~= jms(ms@));
    while i < ms.len()
        invariant
            i <= ms@.len(),
            spec_obj_get(jms(ms@), key@) == spec_obj_get(jms(ms@).skip(i as int), key@),
        decreases ms@.len() - i,
    {
        proof {
            assert(jms(ms@).skip(i as int)[0] == (ms@[i as int].0@, jv(ms@[i as int].1)));
            assert(jms(ms@).skip(i as int).drop_first() =~= jms(ms@).skip(i as int + 1));
        }
        if crate::text::bytes_eq(ms[i].0.as_slice(), key) {
            return Some(&ms[i].1);
        }
        i = i + 1;
    }
    proof {
        assert(jms(ms@).skip(i as int) =~= Seq::<(Seq<u8>, JsonV)>::empty());
    }
    None
}

} // verus!

