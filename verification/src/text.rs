use vstd::prelude::*;

verus! {

// ---------------------------------------------------------------------------
// ASCII upper-casing, byte by byte
// ---------------------------------------------------------------------------

/// The ASCII upper-case image of one byte; bytes outside a-z are unchanged.
pub open spec fn upper_byte(b: u8) -> u8 {
    if 97 <= b <= 122 {
        (b - 32) as u8
    } else {
        b
    }
}

/// The ASCII upper-case image of a byte sequence.
pub open spec fn spec_upper(s: Seq<u8>) -> Seq<u8> {
    Seq::new(s.len(), |i: int| upper_byte(s[i]))
}

/// Upper-cases ASCII letters in place of a fresh vector; other bytes pass through.
pub fn upper_bytes(s: &[u8]) -> (r: Vec<u8>)
    ensures
        r@ == spec_upper(s@),
{
    let mut out: Vec<u8> = Vec::new();
    let mut i: usize = 0;
    while i < s.len()
        invariant
            i <= s@.len(),
            out@ =~= spec_upper(s@).take(i as int),
        decreases s@.len() - i,
    {
        let b = s[i];
        if 97 <= b && b <= 122 {
            out.push(b - 32);
        } else {
            out.push(b);
        }
        i = i + 1;
    }
    assert(out@ =~= spec_upper(s@));
    out
}

// ---------------------------------------------------------------------------
// Decimal digits
// ---------------------------------------------------------------------------

pub open spec fn is_digit(b: u8) -> bool {
    48 <= b <= 57
}

pub open spec fn all_digits(s: Seq<u8>) -> bool {
    forall|i: int| 0 <= i < s.len() ==> is_digit(#[trigger] s[i])
}

/// The value of a digit string, most significant digit first.
pub open spec fn digits_val(s: Seq<u8>) -> nat
    decreases s.len(),
{
    if s.len() == 0 {
        0
    } else {
        digits_val(s.drop_last()) * 10 + (s.last() - 48) as nat
    }
}

/// A nonempty all-digit string whose value fits in u64 parses; anything else does not.
pub open spec fn spec_parse_u64(s: Seq<u8>) -> Option<u64> {
    if s.len() > 0 && all_digits(s) && digits_val(s) <= u64::MAX {
        Some(digits_val(s) as u64)
    } else {
        None
    }
}

/// The canonical decimal rendering of n, without leading zeros.
pub open spec fn spec_u64_dec(n: nat) -> Seq<u8>
    decreases n,
{
    if n < 10 {
        seq![(48 + n) as u8]
    } else {
        spec_u64_dec(n / 10).push((48 + n % 10) as u8)
    }
}

pub proof fn lemma_u64_dec_digits(n: nat)
    ensures
        all_digits(spec_u64_dec(n)),
        spec_u64_dec(n).len() >= 1,
    decreases n,
{
    if n >= 10 {
        lemma_u64_dec_digits(n / 10);
    }
}

/// Rendering then evaluating a number gives the number back.
pub proof fn lemma_u64_dec_val(n: nat)
    ensures
        digits_val(spec_u64_dec(n)) == n,
    decreases n,
{
    if n < 10 {
        assert(spec_u64_dec(n).drop_last() =~= Seq::<u8>::empty());
        assert(spec_u64_dec(n).last() == (48 + n) as u8);
        assert(digits_val(Seq::<u8>::empty()) == 0);
        assert(digits_val(spec_u64_dec(n)) == digits_val(spec_u64_dec(n).drop_last()) * 10 + (
        spec_u64_dec(n).last() - 48) as nat);
        assert(digits_val(spec_u64_dec(n)) == n);
    } else {
        lemma_u64_dec_val(n / 10);
        assert(spec_u64_dec(n).drop_last() =~= spec_u64_dec(n / 10));
        assert(spec_u64_dec(n).last() == (48 + n % 10) as u8);
        assert(digits_val(spec_u64_dec(n)) == (n / 10) * 10 + n % 10);
        vstd::arithmetic::div_mod::lemma_fundamental_div_mod(n as int, 10);
    }
}

/// Rendering a u64 parses back to the same u64.
pub proof fn lemma_u64_dec_parses(n: u64)
    ensures
        spec_parse_u64(spec_u64_dec(n as nat)) == Some(n),
{
    lemma_u64_dec_digits(n as nat);
    lemma_u64_dec_val(n as nat);
}

/// Appends the decimal rendering of n to out.
pub fn push_u64_dec(out: &mut Vec<u8>, n: u64)
    ensures
        final(out)@ == old(out)@ + spec_u64_dec(n as nat),
    decreases n,
{
    if n < 10 {
        out.push(48 + n as u8);
        assert(out@ =~= old(out)@ + spec_u64_dec(n as nat));
    } else {
        push_u64_dec(out, n / 10);
        out.push(48 + (n % 10) as u8);
        assert(out@ =~= old(out)@ + spec_u64_dec(n as nat));
    }
}

/// The decimal rendering of n as a fresh vector.
pub fn u64_dec(n: u64) -> (r: Vec<u8>)
    ensures
        r@ == spec_u64_dec(n as nat),
{
    let mut out: Vec<u8> = Vec::new();
    push_u64_dec(&mut out, n);
    assert(out@ =~= spec_u64_dec(n as nat));
    out
}

proof fn lemma_digits_val_take_step(s: Seq<u8>, i: int)
    requires
        0 <= i < s.len(),
    ensures
        digits_val(s.take(i + 1)) == digits_val(s.take(i)) * 10 + (s[i] - 48) as nat,
{
    assert(s.take(i + 1).drop_last() =~= s.take(i));
    assert(s.take(i + 1).last() == s[i]);
}

/// A digit string's value only grows when digits are appended.
proof fn lemma_digits_val_take_bound(s: Seq<u8>, i: int)
    requires
        0 <= i <= s.len(),
        all_digits(s),
    ensures
        digits_val(s.take(i)) <= digits_val(s),
    decreases s.len() - i,
{
    if i < s.len() {
        lemma_digits_val_take_step(s, i);
        lemma_digits_val_take_bound(s, i + 1);
    } else {
        assert(s.take(i) =~= s);
    }
}

/// Parses a nonempty decimal digit string into a u64, rejecting overflow,
/// empty input and non-digit bytes, exactly as spec_parse_u64 says.
pub fn parse_u64_digits(s: &[u8]) -> (r: Option<u64>)
    ensures
        r == spec_parse_u64(s@),
{
    if s.len() == 0 {
        return None;
    }
    let mut val: u64 = 0;
    let mut i: usize = 0;
    while i < s.len()
        invariant
            i <= s@.len(),
            all_digits(s@.take(i as int)),
            val == digits_val(s@.take(i as int)),
        decreases s@.len() - i,
    {
        let b = s[i];
        if b < 48 || b > 57 {
            assert(!all_digits(s@));
            return None;
        }
        let d = b - 48;
        proof {
            lemma_digits_val_take_step(s@, i as int);
        }
        if val > (u64::MAX - d as u64) / 10 {
            proof {
                assert(all_digits(s@.take(i as int + 1)));
                if all_digits(s@) {
                    lemma_digits_val_take_bound(s@, i as int + 1);
                }
            }
            return None;
        }
        val = val * 10 + d as u64;
        i = i + 1;
    }
    proof {
        assert(s@.take(i as int) =~= s@);
    }
    Some(val)
}

/// Byte-for-byte equality of two slices.
pub fn bytes_eq(a: &[u8], b: &[u8]) -> (r: bool)
    ensures
        r == (a@ == b@),
{
    if a.len() != b.len() {
        return false;
    }
    let mut i: usize = 0;
    while i < a.len()
        invariant
            i <= a@.len(),
            a@.len() == b@.len(),
            forall|j: int| 0 <= j < i ==> a@[j] == b@[j],
        decreases a@.len() - i,
    {
        if a[i] != b[i] {
            return false;
        }
        i = i + 1;
    }
    proof {
        assert(a@ =~= b@);
    }
    true
}

// ---------------------------------------------------------------------------
// Bytes to strings
// ---------------------------------------------------------------------------

/// The bytes of a string, under its UTF-8 encoding.
pub open spec fn spec_string_bytes(s: String) -> Seq<u8> {
    vstd::utf8::encode_utf8(s@)
}

/// ASCII bytes are valid UTF-8.
pub proof fn lemma_ascii_valid_utf8(b: Seq<u8>)
    requires
        forall|i: int| 0 <= i < b.len() ==> #[trigger] b[i] < 128,
    ensures
        vstd::utf8::valid_utf8(b),
{
    assert(vstd::utf8::valid_utf8(b.subrange(0, 0))) by {
        assert(b.subrange(0, 0) =~= Seq::<u8>::empty());
    }
    vstd::utf8::partial_valid_utf8_extend_ascii_block(b, 0, b.len() as int);
    assert(b.subrange(0, b.len() as int) =~= b);
}

/// Relies on std's String::from_utf8: ASCII bytes are valid UTF-8 and come
/// back as the characters with the same code points.
#[verifier::external_body]
pub fn string_from_ascii(v: Vec<u8>) -> (r: String)
    requires
        forall|i: int| 0 <= i < v@.len() ==> v@[i] < 128,
    ensures
        r@ == v@.map_values(|b: u8| b as char),
{
    String::from_utf8(v).unwrap_or_default()
}

/// Relies on std's String::from_utf8: it returns Ok exactly on valid UTF-8,
/// and the returned string holds exactly the given bytes.
#[verifier::external_body]
pub fn string_from_utf8(v: Vec<u8>) -> (r: Option<String>)
    ensures
        r is Some <==> vstd::utf8::valid_utf8(v@),
        r matches Some(s) ==> vstd::utf8::encode_utf8(s@) == v@ && s@ == vstd::utf8::decode_utf8(
            v@,
        ),
{
    match String::from_utf8(v) {
        Ok(s) => Some(s),
        Err(_) => None,
    }
}

} // verus!
