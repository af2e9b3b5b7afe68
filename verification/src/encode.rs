use vstd::prelude::*;

use crate::json::JsonNum;
use crate::text::{spec_u64_dec, u64_dec};
use crate::wire::{k_derivatives_prefix, k_derivatives_prefix_v};

verus! {

// ---------------------------------------------------------------------------
// Byte-wise lexicographic order
// ---------------------------------------------------------------------------

/// Bytewise lexicographic order, the order form keys are sorted in.
pub open spec fn lex_le(a: Seq<u8>, b: Seq<u8>) -> bool
    decreases a.len(),
{
    if a.len() == 0 {
        true
    } else if b.len() == 0 {
        false
    } else if a[0] < b[0] {
        true
    } else if a[0] > b[0] {
        false
    } else {
        lex_le(a.drop_first(), b.drop_first())
    }
}

pub proof fn lemma_lex_total(a: Seq<u8>, b: Seq<u8>)
    ensures
        lex_le(a, b) || lex_le(b, a),
    decreases a.len(),
{
    if a.len() > 0 && b.len() > 0 && a[0] == b[0] {
        lemma_lex_total(a.drop_first(), b.drop_first());
    }
}

pub proof fn lemma_lex_trans(a: Seq<u8>, b: Seq<u8>, c: Seq<u8>)
    requires
        lex_le(a, b),
        lex_le(b, c),
    ensures
        lex_le(a, c),
    decreases a.len(),
{
    if a.len() > 0 && b.len() > 0 && c.len() > 0 && a[0] == b[0] && b[0] == c[0] {
        lemma_lex_trans(a.drop_first(), b.drop_first(), c.drop_first());
    }
}

/// Compares two byte strings in lexicographic order.
pub fn bytes_le(a: &[u8], b: &[u8]) -> (r: bool)
    ensures
        r == lex_le(a@, b@),
{
    let mut i: usize = 0;
    proof {
        assert(a@.skip(0) =~= a@);
        assert(b@.skip(0) =~= b@);
    }
    loop
        invariant
            i <= a@.len(),
            i <= b@.len(),
            lex_le(a@, b@) == lex_le(a@.skip(i as int), b@.skip(i as int)),
            lex_le(b@, a@) == lex_le(b@.skip(i as int), a@.skip(i as int)),
        decreases a@.len() - i,
    {
        if i == a.len() {
            return true;
        }
        if i == b.len() {
            return false;
        }
        proof {
            assert(a@.skip(i as int).drop_first() =~= a@.skip(i as int + 1));
            assert(b@.skip(i as int).drop_first() =~= b@.skip(i as int + 1));
        }
        if a[i] < b[i] {
            return true;
        }
        if a[i] > b[i] {
            return false;
        }
        i = i + 1;
    }
}

// ---------------------------------------------------------------------------
// Sorting query pairs
// ---------------------------------------------------------------------------

/// Keys in lexicographic order.
pub open spec fn sorted_keys(s: Seq<(Seq<u8>, Seq<u8>)>) -> bool {
    forall|i: int, j: int|
        0 <= i < j < s.len() ==> lex_le((#[trigger] s[i]).0, (#[trigger] s[j]).0)
}

/// The key-value views of a pair list.
pub open spec fn pairs_view(ps: Seq<(Vec<u8>, Vec<u8>)>) -> Seq<(Seq<u8>, Seq<u8>)> {
    Seq::new(ps.len(), |i: int| (ps[i].0@, ps[i].1@))
}

/// Sorts query pairs by key, bytewise: the result holds exactly the given
/// pairs, with keys in lexicographic order.
pub fn sort_pairs(pairs: Vec<(Vec<u8>, Vec<u8>)>) -> (r: Vec<(Vec<u8>, Vec<u8>)>)
    ensures
        pairs_view(r@).to_multiset() == pairs_view(pairs@).to_multiset(),
        sorted_keys(pairs_view(r@)),
{
    broadcast use vstd::seq_lib::group_to_multiset_ensures;

    let ghost orig = pairs_view(pairs@);
    let mut rest = pairs;
    let mut out: Vec<(Vec<u8>, Vec<u8>)> = Vec::new();
    proof {
        assert(pairs_view(out@) =~= Seq::<(Seq<u8>, Seq<u8>)>::empty());
        assert(pairs_view(out@).to_multiset().add(pairs_view(rest@).to_multiset())
            =~= orig.to_multiset());
    }
    while rest.len() > 0
        invariant
            pairs_view(out@).to_multiset().add(pairs_view(rest@).to_multiset())
                == orig.to_multiset(),
            sorted_keys(pairs_view(out@)),
            forall|i: int, j: int|
                0 <= i < pairs_view(out@).len() && 0 <= j < pairs_view(rest@).len() ==> lex_le(
                    (#[trigger] pairs_view(out@)[i]).0,
                    (#[trigger] pairs_view(rest@)[j]).0,
                ),
        decreases rest@.len(),
    {
        // Find a minimal key.
        let mut m: usize = 0;
        let mut i: usize = 1;
        proof {
            lemma_lex_total(rest@[0].0@, rest@[0].0@);
        }
        while i < rest.len()
            invariant
                m < i <= rest@.len(),
                rest@.len() > 0,
                forall|j: int|
                    0 <= j < i ==> lex_le(rest@[m as int].0@, (#[trigger] rest@[j]).0@),
            decreases rest@.len() - i,
        {
            if bytes_le(rest[i].0.as_slice(), rest[m].0.as_slice()) {
                proof {
                    assert forall|j: int| 0 <= j < i + 1 implies lex_le(
                        rest@[i as int].0@,
                        (#[trigger] rest@[j]).0@,
                    ) by {
                        if j == i {
                            lemma_lex_total(rest@[i as int].0@, rest@[i as int].0@);
                        } else {
                            assert(lex_le(rest@[m as int].0@, rest@[j].0@));
                            lemma_lex_trans(rest@[i as int].0@, rest@[m as int].0@, rest@[j].0@);
                        }
                    }
                }
                m = i;
            } else {
                proof {
                    lemma_lex_total(rest@[i as int].0@, rest@[m as int].0@);
                }
            }
            i = i + 1;
        }
        let ghost rest0 = pairs_view(rest@);
        let ghost out0 = pairs_view(out@);
        let x = rest.remove(m);
        let ghost xv = (x.0@, x.1@);
        proof {
            rest0.to_multiset_ensures();
            out0.to_multiset_ensures();
            assert(xv == rest0[m as int]);
            assert(pairs_view(rest@) =~= rest0.remove(m as int));
            assert(rest0.remove(m as int).to_multiset() =~= rest0.to_multiset().remove(xv));
        }
        out.push(x);
        proof {
            assert(pairs_view(out@) =~= out0.push(xv));
            assert(out0.push(xv).to_multiset() =~= out0.to_multiset().insert(xv));
            assert(rest0.to_multiset().count(xv) > 0);
            assert(out0.to_multiset().insert(xv).add(rest0.to_multiset().remove(xv))
                =~= out0.to_multiset().add(rest0.to_multiset()));
            assert forall|i2: int, j2: int|
                0 <= i2 < pairs_view(out@).len() && 0 <= j2 < pairs_view(rest@).len() implies
                lex_le(
                (#[trigger] pairs_view(out@)[i2]).0,
                (#[trigger] pairs_view(rest@)[j2]).0,
            ) by {
                assert(pairs_view(rest@)[j2] == if j2 < m {
                    rest0[j2]
                } else {
                    rest0[j2 + 1]
                });
                if i2 < out0.len() {
                    assert(pairs_view(out@)[i2] == out0[i2]);
                } else {
                    assert(pairs_view(out@)[i2] == xv);
                }
            }
        }
    }
    proof {
        assert(pairs_view(rest@) =~= Seq::<(Seq<u8>, Seq<u8>)>::empty());
        assert(pairs_view(out@).to_multiset().add(pairs_view(rest@).to_multiset())
            =~= pairs_view(out@).to_multiset());
    }
    out
}

// ---------------------------------------------------------------------------
// Form URL-encoding
// ---------------------------------------------------------------------------

/// The bytes a form encoding passes through unchanged.
pub open spec fn form_ok(b: u8) -> bool {
    48 <= b <= 57 || 65 <= b <= 90 || 97 <= b <= 122 || b == 42 || b == 45 || b == 46 || b == 95
}

/// The upper-case hex digit of a value below 16.
pub open spec fn hex_up(n: u8) -> u8 {
    if n < 10 {
        (48 + n) as u8
    } else {
        (55 + n) as u8
    }
}

/// One byte's form encoding: space becomes a plus, the unreserved bytes
/// pass, everything else is percent-escaped with upper-case hex.
pub open spec fn form_esc_byte(b: u8) -> Seq<u8> {
    if b == 32 {
        seq![43u8]
    } else if form_ok(b) {
        seq![b]
    } else {
        seq![37u8, hex_up(b / 16), hex_up(b % 16)]
    }
}

/// A whole value's form encoding.
pub open spec fn spec_form_escape(s: Seq<u8>) -> Seq<u8>
    decreases s.len(),
{
    if s.len() == 0 {
        Seq::empty()
    } else {
        spec_form_escape(s.drop_last()) + form_esc_byte(s.last())
    }
}

/// The form encoding of a pair list: key=value, joined with ampersands.
pub open spec fn spec_urlencode(ps: Seq<(Seq<u8>, Seq<u8>)>) -> Seq<u8>
    decreases ps.len(),
{
    if ps.len() == 0 {
        Seq::empty()
    } else {
        let kv = spec_form_escape(ps.last().0) + seq![61u8] + spec_form_escape(ps.last().1);
        if ps.len() == 1 {
            kv
        } else {
            spec_urlencode(ps.drop_last()) + seq![38u8] + kv
        }
    }
}

/// Appends one value's form encoding.
pub fn push_form_escaped(out: &mut Vec<u8>, s: &[u8])
    ensures
        final(out)@ == old(out)@ + spec_form_escape(s@),
{
    let mut i: usize = 0;
    while i < s.len()
        invariant
            i <= s@.len(),
            out@ == old(out)@ + spec_form_escape(s@.take(i as int)),
        decreases s@.len() - i,
    {
        let b = s[i];
        if b == 32 {
            out.push(43);
        } else if (48 <= b && b <= 57) || (65 <= b && b <= 90) || (97 <= b && b <= 122) || b == 42
            || b == 45 || b == 46 || b == 95 {
            out.push(b);
        } else {
            out.push(37);
            out.push(if b / 16 < 10 {
                48 + b / 16
            } else {
                55 + b / 16
            });
            out.push(if b % 16 < 10 {
                48 + b % 16
            } else {
                55 + b % 16
            });
        }
        proof {
            assert(s@.take(i + 1).drop_last() =~= s@.take(i as int));
            assert(s@.take(i + 1).last() == s@[i as int]);
            assert(out@ =~= old(out)@ + spec_form_escape(s@.take(i + 1)));
        }
        i = i + 1;
    }
    proof {
        assert(s@.take(i as int) =~= s@);
    }
}

/// The form encoding of the pairs, in their given order.
pub fn urlencode(ps: &Vec<(Vec<u8>, Vec<u8>)>) -> (r: Vec<u8>)
    ensures
        r@ == spec_urlencode(pairs_view(ps@)),
{
    let mut out: Vec<u8> = Vec::new();
    let mut i: usize = 0;
    proof {
        assert(pairs_view(ps@).take(0) =~= Seq::<(Seq<u8>, Seq<u8>)>::empty());
    }
    while i < ps.len()
        invariant
            i <= ps@.len(),
            out@ == spec_urlencode(pairs_view(ps@).take(i as int)),
        decreases ps@.len() - i,
    {
        if i > 0 {
            out.push(38);
        }
        push_form_escaped(&mut out, ps[i].0.as_slice());
        out.push(61);
        push_form_escaped(&mut out, ps[i].1.as_slice());
        proof {
            let pv = pairs_view(ps@);
            assert(pv.take(i + 1).drop_last() =~= pv.take(i as int));
            assert(pv.take(i + 1).last() == pv[i as int]);
            assert(out@ =~= spec_urlencode(pv.take(i + 1)));
        }
        i = i + 1;
    }
    proof {
        assert(pairs_view(ps@).take(i as int) =~= pairs_view(ps@));
    }
    out
}

/// Every byte of a form encoding is printable ASCII.
pub proof fn lemma_form_escape_ascii(s: Seq<u8>)
    ensures
        forall|i: int| 0 <= i < spec_form_escape(s).len() ==> #[trigger] spec_form_escape(s)[i]
            < 128,
    decreases s.len(),
{
    if s.len() > 0 {
        lemma_form_escape_ascii(s.drop_last());
        let pre = spec_form_escape(s.drop_last());
        let e = form_esc_byte(s.last());
        assert(forall|k: int| 0 <= k < e.len() ==> #[trigger] e[k] < 128);
        assert forall|i: int| 0 <= i < spec_form_escape(s).len() implies #[trigger] spec_form_escape(
            s,
        )[i] < 128 by {
            if i < pre.len() {
                assert(spec_form_escape(s)[i] == pre[i]);
            } else {
                assert(spec_form_escape(s)[i] == e[i - pre.len()]);
            }
        }
    }
}

/// Every byte of an encoded pair list is printable ASCII.
pub proof fn lemma_urlencode_ascii(ps: Seq<(Seq<u8>, Seq<u8>)>)
    ensures
        forall|i: int| 0 <= i < spec_urlencode(ps).len() ==> #[trigger] spec_urlencode(ps)[i]
            < 128,
    decreases ps.len(),
{
    if ps.len() > 0 {
        lemma_urlencode_ascii(ps.drop_last());
        lemma_form_escape_ascii(ps.last().0);
        lemma_form_escape_ascii(ps.last().1);
        let pre = spec_urlencode(ps.drop_last());
        let kv = spec_form_escape(ps.last().0) + seq![61u8] + spec_form_escape(ps.last().1);
        assert(forall|k: int| 0 <= k < kv.len() ==> #[trigger] kv[k] < 128);
        assert forall|i: int| 0 <= i < spec_urlencode(ps).len() implies #[trigger] spec_urlencode(
            ps,
        )[i] < 128 by {
            if ps.len() > 1 {
                if i < pre.len() {
                    assert(spec_urlencode(ps)[i] == pre[i]);
                } else if i == pre.len() {
                    assert(spec_urlencode(ps)[i] == 38);
                } else {
                    assert(spec_urlencode(ps)[i] == kv[i - pre.len() - 1]);
                }
            } else {
                assert(spec_urlencode(ps)[i] == kv[i]);
            }
        }
    }
}

// ---------------------------------------------------------------------------
// Decimal renderings
// ---------------------------------------------------------------------------

/// The decimal rendering of a signed number.
pub open spec fn spec_i64_dec(n: i64) -> Seq<u8> {
    if n < 0 {
        seq![45u8] + spec_u64_dec((-(n as int)) as nat)
    } else {
        spec_u64_dec(n as nat)
    }
}

/// Renders a signed number in decimal.
pub fn i64_dec(n: i64) -> (r: Vec<u8>)
    ensures
        r@ == spec_i64_dec(n),
{
    if n >= 0 {
        u64_dec(n as u64)
    } else {
        let mag: u64 = ((-(n + 1)) as u64) + 1;
        let mut out: Vec<u8> = Vec::new();
        out.push(45);
        let mut d = u64_dec(mag);
        out.append(&mut d);
        assert(out@ =~= spec_i64_dec(n));
        out
    }
}

/// The decimal text of a number: sign, integer digits, and where the scale
/// is positive a point with exactly scale fraction digits, the mantissa
/// zero-padded as needed.
pub open spec fn spec_num_text(n: JsonNum) -> Seq<u8> {
    let d0 = spec_u64_dec(n.mant as nat);
    let d = if d0.len() >= n.scale + 1 {
        d0
    } else {
        Seq::new((n.scale + 1 - d0.len()) as nat, |i: int| 48u8) + d0
    };
    let mag = if n.scale == 0 {
        d
    } else {
        d.take(d.len() - n.scale) + seq![46u8] + d.skip(d.len() - n.scale)
    };
    if n.neg {
        seq![45u8] + mag
    } else {
        mag
    }
}

/// Renders a decimal number as text.
pub fn num_text(n: &JsonNum) -> (r: Vec<u8>)
    ensures
        r@ == spec_num_text(*n),
{
    let d0 = u64_dec(n.mant);
    let scale: u64 = n.scale as u64;
    let mut d: Vec<u8> = Vec::new();
    if (d0.len() as u64) < scale + 1 {
        let pad: u64 = scale + 1 - (d0.len() as u64);
        let mut i: u64 = 0;
        while i < pad
            invariant
                i <= pad,
                d@ =~= Seq::new(i as nat, |k: int| 48u8),
            decreases pad - i,
        {
            d.push(48);
            proof {
                assert(d@ =~= Seq::new(i as nat + 1, |k: int| 48u8));
            }
            i = i + 1;
        }
        let mut rest = d0;
        d.append(&mut rest);
    } else {
        d = d0;
    }
    let ghost dv = d@;
    if n.scale == 0 {
        let mut out = d;
        if n.neg {
            let mut out2: Vec<u8> = Vec::new();
            out2.push(45);
            out2.append(&mut out);
            assert(out2@ =~= spec_num_text(*n));
            return out2;
        }
        assert(out@ =~= spec_num_text(*n));
        return out;
    }
    let cut = d.len() - n.scale as usize;
    let mut out: Vec<u8> = Vec::new();
    if n.neg {
        out.push(45);
    }
    let mut i: usize = 0;
    while i < cut
        invariant
            i <= cut,
            cut <= d@.len(),
            d@ == dv,
            out@ =~= (if n.neg {
                seq![45u8]
            } else {
                Seq::<u8>::empty()
            }) + dv.take(i as int),
        decreases cut - i,
    {
        out.push(d[i]);
        i = i + 1;
    }
    out.push(46);
    let mut j: usize = cut;
    while j < d.len()
        invariant
            cut <= j <= d@.len(),
            d@ == dv,
            out@ =~= (if n.neg {
                seq![45u8]
            } else {
                Seq::<u8>::empty()
            }) + dv.take(cut as int) + seq![46u8] + dv.subrange(cut as int, j as int),
        decreases d@.len() - j,
    {
        out.push(d[j]);
        j = j + 1;
    }
    proof {
        assert(dv.subrange(cut as int, dv.len() as int) =~= dv.skip(cut as int));
        assert(out@ =~= spec_num_text(*n));
    }
    out
}

// ---------------------------------------------------------------------------
// URL paths
// ---------------------------------------------------------------------------

/// The first index at or after i where "://" starts, or the length.
pub open spec fn find_scheme(b: Seq<u8>, i: int) -> int
    decreases b.len() - i,
{
    if i < 0 || i + 3 > b.len() {
        b.len() as int
    } else if b[i] == 58 && b[i + 1] == 47 && b[i + 2] == 47 {
        i
    } else {
        find_scheme(b, i + 1)
    }
}

/// The first index at or after i holding the byte, or the length.
pub open spec fn find_byte(b: Seq<u8>, i: int, c: u8) -> int
    decreases b.len() - i,
{
    if i < 0 || i >= b.len() {
        b.len() as int
    } else if b[i] == c {
        i
    } else {
        find_byte(b, i + 1, c)
    }
}

/// The path part of a URL: from the first slash after the scheme separator
/// to the end; empty when there is no scheme or no slash after the host.
pub open spec fn spec_url_path(b: Seq<u8>) -> Seq<u8> {
    let s = find_scheme(b, 0);
    if s == b.len() {
        Seq::empty()
    } else {
        b.skip(find_byte(b, s + 3, 47))
    }
}

/// The path the futures REST signature covers: the URL path with the
/// exchange's mount prefix stripped.
pub open spec fn spec_sign_path(b: Seq<u8>) -> Seq<u8> {
    let p = spec_url_path(b);
    if p.len() >= 12 && p.take(12) == k_derivatives_prefix() {
        p.skip(12)
    } else {
        p
    }
}

/// The path part of a URL.
pub fn url_path(b: &[u8]) -> (r: Vec<u8>)
    ensures
        r@ == spec_url_path(b@),
{
    let mut i: usize = 0;
    while b.len() - i >= 3 && !(b[i] == 58 && b[i + 1] == 47 && b[i + 2] == 47)
        invariant
            i <= b@.len(),
            find_scheme(b@, 0) == find_scheme(b@, i as int),
        decreases b@.len() - i,
    {
        i = i + 1;
    }
    if b.len() - i < 3 {
        proof {
            assert(find_scheme(b@, 0) == b@.len());
        }
        return Vec::new();
    }
    let mut j: usize = i + 3;
    while j < b.len() && b[j] != 47
        invariant
            i + 3 <= j <= b@.len(),
            find_byte(b@, i as int + 3, 47) == find_byte(b@, j as int, 47),
        decreases b@.len() - j,
    {
        j = j + 1;
    }
    let r = vstd::slice::slice_to_vec(vstd::slice::slice_subrange(b, j, b.len()));
    proof {
        assert(b@.subrange(j as int, b@.len() as int) =~= b@.skip(j as int));
    }
    r
}

/// The futures signing path of a URL.
pub fn sign_path(b: &[u8]) -> (r: Vec<u8>)
    ensures
        r@ == spec_sign_path(b@),
{
    let p = url_path(b);
    if p.len() >= 12 {
        let head = vstd::slice::slice_subrange(p.as_slice(), 0, 12);
        proof {
            assert(p@.subrange(0, 12) =~= p@.take(12));
        }
        if crate::text::bytes_eq(head, k_derivatives_prefix_v().as_slice()) {
            let r = vstd::slice::slice_to_vec(
                vstd::slice::slice_subrange(p.as_slice(), 12, p.len()),
            );
            proof {
                assert(p@.subrange(12, p@.len() as int) =~= p@.skip(12));
            }
            return r;
        }
    }
    p
}

} // verus!
