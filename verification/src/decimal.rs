//! Decimal text for numeric debug options: printing a `u32` as decimal
//! digits, and parsing a decimal byte string back, with the same acceptance
//! as the standard unsigned parser (an optional leading `+`, then at least
//! one digit, value within range).

use vstd::prelude::*;

verus! {

/// The decimal digits of `v`, most significant first, with no sign and no
/// leading zero (except for `0` itself).
pub open spec fn spec_digits(v: nat) -> Seq<u8>
    decreases v,
{
    if v < 10 {
        seq![(v + 48) as u8]
    } else {
        spec_digits(v / 10) + seq![(v % 10 + 48) as u8]
    }
}

/// Print `v` in decimal.
pub fn u32_to_decimal(v: u32) -> (r: Vec<u8>)
    ensures
        r@ == spec_digits(v as nat),
    decreases v,
{
    if v < 10 {
        let mut r: Vec<u8> = Vec::new();
        r.push(v as u8 + 48);
        proof {
            assert(r@ =~= spec_digits(v as nat));
        }
        r
    } else {
        let mut r = u32_to_decimal(v / 10);
        r.push((v % 10) as u8 + 48);
        proof {
            assert(r@ =~= spec_digits(v as nat));
        }
        r
    }
}

/// Whether every byte of `s` is an ASCII decimal digit.
pub open spec fn is_digits(s: Seq<u8>) -> bool {
    forall|i: int| 0 <= i < s.len() ==> 48 <= #[trigger] s[i] <= 57
}

/// The numeric value of a digit string, most significant digit first.
pub open spec fn spec_dec_value(s: Seq<u8>) -> nat
    decreases s.len(),
{
    if s.len() == 0 {
        0
    } else {
        spec_dec_value(s.drop_last()) * 10 + (s.last() - 48) as nat
    }
}

/// The digits of `s` after an optional leading `+`.
pub open spec fn strip_plus(s: Seq<u8>) -> Seq<u8> {
    if s.len() > 0 && s[0] == 43 {
        s.skip(1)
    } else {
        s
    }
}

/// The value a decimal byte string parses to: after an optional leading `+`
/// there must be at least one byte, all bytes must be digits, and the value
/// must fit in 32 bits; otherwise nothing.
pub open spec fn spec_parse_u32(s: Seq<u8>) -> Option<u32> {
    let t = strip_plus(s);
    if t.len() > 0 && is_digits(t) && spec_dec_value(t) <= u32::MAX {
        Some(spec_dec_value(t) as u32)
    } else {
        None
    }
}

/// Powers of ten.
pub open spec fn pow10(k: nat) -> nat
    decreases k,
{
    if k == 0 {
        1
    } else {
        10 * pow10((k - 1) as nat)
    }
}

/// A value below the `k`-th power of ten prints in at most `k` digits.
pub proof fn lemma_spec_digits_len(v: nat, k: nat)
    requires
        k >= 1,
        v < pow10(k),
    ensures
        spec_digits(v).len() <= k,
    decreases k,
{
    if v >= 10 {
        assert(pow10(k) == 10 * pow10((k - 1) as nat));
        assert(v / 10 < pow10((k - 1) as nat)) by (nonlinear_arith)
            requires
                v < 10 * pow10((k - 1) as nat),
        ;
        lemma_spec_digits_len(v / 10, (k - 1) as nat);
    }
}

/// A 32-bit value prints in at most ten digits.
pub proof fn lemma_spec_digits_len_u32(v: nat)
    requires
        v <= 0xFFFFFFFF,
    ensures
        spec_digits(v).len() <= 10,
{
    assert(pow10(0) == 1);
    assert(pow10(1) == 10);
    assert(pow10(2) == 100);
    assert(pow10(3) == 1000);
    assert(pow10(4) == 10000);
    assert(pow10(5) == 100000);
    assert(pow10(6) == 1000000);
    assert(pow10(7) == 10000000);
    assert(pow10(8) == 100000000);
    assert(pow10(9) == 1000000000);
    assert(pow10(10) == 10000000000);
    lemma_spec_digits_len(v, 10);
}

/// A digit string's value only grows as more digits follow: the value of a
/// prefix never exceeds the value of the whole.
pub proof fn lemma_dec_value_prefix(s: Seq<u8>, j: int)
    requires
        0 <= j <= s.len(),
    ensures
        spec_dec_value(s.take(j)) <= spec_dec_value(s),
    decreases s.len(),
{
    if j < s.len() {
        if s.len() > 0 {
            assert(s.drop_last().take(j) =~= s.take(j));
            lemma_dec_value_prefix(s.drop_last(), j);
            assert(spec_dec_value(s.drop_last()) * 10 >= spec_dec_value(s.drop_last()))
                by (nonlinear_arith);
        }
    } else {
        assert(s.take(j) =~= s);
    }
}

/// Parse a decimal byte string.
pub fn parse_u32_decimal(s: &[u8]) -> (r: Option<u32>)
    ensures
        r == spec_parse_u32(s@),
{
    let ghost t = strip_plus(s@);
    let start: usize = if s.len() > 0 && s[0] == 43 {
        1
    } else {
        0
    };
    proof {
        assert(t =~= s@.skip(start as int));
    }
    if start == s.len() {
        return None;
    }
    let mut acc: u32 = 0;
    let mut i: usize = start;
    while i < s.len()
        invariant
            start <= i <= s@.len(),
            t == strip_plus(s@),
            t == s@.skip(start as int),
            t.len() > 0,
            is_digits(t.take(i - start)),
            acc == spec_dec_value(t.take(i - start)),
        decreases s@.len() - i,
    {
        let c = s[i];
        if c < 48 || c > 57 {
            proof {
                assert(t[i - start] == c);
                assert(!is_digits(t));
            }
            return None;
        }
        let d = (c - 48) as u32;
        if acc > (u32::MAX - d) / 10 {
            proof {
                assert(t.take(i + 1 - start).drop_last() =~= t.take(i - start));
                assert(t.take(i + 1 - start).last() == c);
                assert(spec_dec_value(t.take(i + 1 - start)) == acc * 10 + d);
                assert(acc * 10 + d > u32::MAX) by (nonlinear_arith)
                    requires
                        acc > (u32::MAX - d) / 10,
                        d <= 9,
                ;
                lemma_dec_value_prefix(t, i + 1 - start);
            }
            return None;
        }
        proof {
            assert(acc * 10 + d <= u32::MAX) by (nonlinear_arith)
                requires
                    acc <= (u32::MAX - d) / 10,
                    d <= 9,
            ;
            assert(t.take(i + 1 - start).drop_last() =~= t.take(i - start));
            assert(t.take(i + 1 - start).last() == c);
        }
        acc = acc * 10 + d;
        i = i + 1;
    }
    proof {
        assert(t.take(i - start) =~= t);
    }
    Some(acc)
}

} // verus!
