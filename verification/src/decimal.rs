//! Decimal rendering of integers.
//!
//! The natural rendering of an unsigned integer is its decimal digit
//! sequence with no leading zeros (zero itself renders as a single `'0'`);
//! its width is therefore `floor(log10(value)) + 1`, with zero mapping to
//! width 1. A signed value prepends `'-'` to the rendering of its
//! magnitude.

use vstd::prelude::*;

verus! {

/// The character for one decimal digit.
pub open spec fn digit_char(d: nat) -> char {
    if d == 0 {
        '0'
    } else if d == 1 {
        '1'
    } else if d == 2 {
        '2'
    } else if d == 3 {
        '3'
    } else if d == 4 {
        '4'
    } else if d == 5 {
        '5'
    } else if d == 6 {
        '6'
    } else if d == 7 {
        '7'
    } else if d == 8 {
        '8'
    } else {
        '9'
    }
}

/// The decimal digit sequence of `v`, most significant digit first.
pub open spec fn spec_udigits(v: nat) -> Seq<char>
    decreases v,
{
    if v < 10 {
        seq![digit_char(v)]
    } else {
        spec_udigits(v / 10).push(digit_char(v % 10))
    }
}

/// The number of decimal digits of `v`: `floor(log10(v)) + 1`, with 0
/// mapping to 1.
pub open spec fn spec_uwidth(v: nat) -> nat
    decreases v,
{
    if v < 10 {
        1
    } else {
        1 + spec_uwidth(v / 10)
    }
}

/// The rendering of a sign-magnitude pair: the magnitude's digits, with a
/// leading `'-'` when `neg` holds.
pub open spec fn spec_signed_text(neg: bool, mag: nat) -> Seq<char> {
    if neg {
        seq!['-'] + spec_udigits(mag)
    } else {
        spec_udigits(mag)
    }
}

/// The magnitude of a signed value.
pub open spec fn spec_mag(v: int) -> nat {
    if v < 0 {
        (-v) as nat
    } else {
        v as nat
    }
}

/// The rendering of a signed value.
pub open spec fn spec_itext(v: int) -> Seq<char> {
    spec_signed_text(v < 0, spec_mag(v))
}

/// The rendered width of a signed value: one position for the sign when
/// the value is negative, plus the digit count of the magnitude.
pub open spec fn spec_iwidth(v: int) -> nat {
    if v < 0 {
        1 + spec_uwidth(spec_mag(v))
    } else {
        spec_uwidth(spec_mag(v))
    }
}

/// A value's digit sequence is exactly as long as its digit count.
pub proof fn lemma_udigits_len(v: nat)
    ensures
        spec_udigits(v).len() == spec_uwidth(v),
    decreases v,
{
    if v >= 10 {
        lemma_udigits_len(v / 10);
    }
}

/// The rendering of a signed value is exactly as long as its width.
pub proof fn lemma_itext_len(v: int)
    ensures
        spec_itext(v).len() == spec_iwidth(v),
{
    lemma_udigits_len(spec_mag(v));
}

/// Powers of ten.
pub open spec fn pow10(k: nat) -> nat
    decreases k,
{
    if k == 0 {
        1
    } else {
        10 * pow10((k - 1) as nat)
    }
}

/// A value below the `k`-th power of ten has at most `k` digits.
pub proof fn lemma_uwidth_below_pow10(v: nat, k: nat)
    requires
        k >= 1,
        v < pow10(k),
    ensures
        spec_uwidth(v) <= k,
    decreases k,
{
    if v >= 10 {
        assert(pow10(k) == 10 * pow10((k - 1) as nat));
        assert(v / 10 < pow10((k - 1) as nat)) by (nonlinear_arith)
            requires
                v < 10 * pow10((k - 1) as nat),
        ;
        lemma_uwidth_below_pow10(v / 10, (k - 1) as nat);
    }
}

/// Every `u128` has at most 39 digits.
pub proof fn lemma_uwidth_u128(v: u128)
    ensures
        spec_uwidth(v as nat) <= 39,
{
    assert(pow10(39) > u128::MAX as nat) by {
        assert(pow10(0) == 1);
        assert(pow10(1) == 10);
        assert(pow10(2) == 100);
        assert(pow10(3) == 1000);
        assert(pow10(4) == 10000);
        assert(pow10(5) == 100000);
        assert(pow10(6) == 1000000);
        assert(pow10(7) == 10000000);
        assert(pow10(8) == 100000000);
        assert(pow10(9) == 1000000000);
        assert(pow10(10) == 10000000000);
        assert(pow10(11) == 100000000000);
        assert(pow10(12) == 1000000000000);
        assert(pow10(13) == 10000000000000);
        assert(pow10(14) == 100000000000000);
        assert(pow10(15) == 1000000000000000);
        assert(pow10(16) == 10000000000000000);
        assert(pow10(17) == 100000000000000000);
        assert(pow10(18) == 1000000000000000000);
        assert(pow10(19) == 10000000000000000000);
        assert(pow10(20) == 100000000000000000000);
        assert(pow10(21) == 1000000000000000000000);
        assert(pow10(22) == 10000000000000000000000);
        assert(pow10(23) == 100000000000000000000000);
        assert(pow10(24) == 1000000000000000000000000);
        assert(pow10(25) == 10000000000000000000000000);
        assert(pow10(26) == 100000000000000000000000000);
        assert(pow10(27) == 1000000000000000000000000000);
        assert(pow10(28) == 10000000000000000000000000000);
        assert(pow10(29) == 100000000000000000000000000000);
        assert(pow10(30) == 1000000000000000000000000000000);
        assert(pow10(31) == 10000000000000000000000000000000);
        assert(pow10(32) == 100000000000000000000000000000000);
        assert(pow10(33) == 1000000000000000000000000000000000);
        assert(pow10(34) == 10000000000000000000000000000000000);
        assert(pow10(35) == 100000000000000000000000000000000000);
        assert(pow10(36) == 1000000000000000000000000000000000000);
        assert(pow10(37) == 10000000000000000000000000000000000000);
        assert(pow10(38) == 100000000000000000000000000000000000000);
        assert(pow10(39) == 1000000000000000000000000000000000000000);
    };
    lemma_uwidth_below_pow10(v as nat, 39);
}

/// The character for one decimal digit.
pub fn digit_ascii(d: u128) -> (c: char)
    requires
        d < 10,
    ensures
        c == digit_char(d as nat),
{
    if d == 0 {
        '0'
    } else if d == 1 {
        '1'
    } else if d == 2 {
        '2'
    } else if d == 3 {
        '3'
    } else if d == 4 {
        '4'
    } else if d == 5 {
        '5'
    } else if d == 6 {
        '6'
    } else if d == 7 {
        '7'
    } else if d == 8 {
        '8'
    } else {
        '9'
    }
}

/// The number of decimal digits of `v`.
pub fn decimal_width(v: u128) -> (r: usize)
    ensures
        r == spec_uwidth(v as nat),
        r <= 39,
{
    let digits = decimal_chars(v);
    proof {
        lemma_udigits_len(v as nat);
        lemma_uwidth_u128(v);
    }
    digits.len()
}

/// Append the decimal digits of `v` to `out`, most significant first.
fn push_decimal(v: u128, out: &mut Vec<char>)
    ensures
        final(out)@ == old(out)@ + spec_udigits(v as nat),
    decreases v,
{
    if v < 10 {
        out.push(digit_ascii(v));
        proof {
            assert(out@ =~= old(out)@ + spec_udigits(v as nat));
        }
    } else {
        push_decimal(v / 10, out);
        out.push(digit_ascii(v % 10));
        proof {
            assert(out@ =~= old(out)@ + spec_udigits(v as nat));
        }
    }
}

/// The decimal digits of `v`, most significant first.
pub fn decimal_chars(v: u128) -> (r: Vec<char>)
    ensures
        r@ == spec_udigits(v as nat),
{
    let mut out: Vec<char> = Vec::new();
    push_decimal(v, &mut out);
    proof {
        assert(out@ =~= spec_udigits(v as nat));
    }
    out
}

} // verus!
