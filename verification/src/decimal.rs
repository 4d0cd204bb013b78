//! Decimal text of integers, left-padded with `'0'` to a minimum width.

use vstd::prelude::*;

verus! {

/// ASCII code of the decimal digit `d` (for `d < 10`).
pub open spec fn digit_byte(d: nat) -> u8 {
    (48 + d) as u8
}

/// Shortest decimal text of a natural number, most significant digit first.
pub open spec fn decimal(n: nat) -> Seq<u8>
    decreases n,
{
    if n < 10 {
        seq![digit_byte(n)]
    } else {
        decimal(n / 10).push(digit_byte(n % 10))
    }
}

/// Decimal text of an integer as `to_string` writes it: a `'-'` before the
/// digits of the magnitude when negative.
pub open spec fn signed_decimal(v: int) -> Seq<u8> {
    if v < 0 {
        seq![45u8] + decimal((-v) as nat)
    } else {
        decimal(v as nat)
    }
}

/// `s` right-aligned in a field of `width` bytes, filled with `'0'` on the left;
/// a text already as long as the field is left as it is.
pub open spec fn zero_padded(s: Seq<u8>, width: nat) -> Seq<u8> {
    if s.len() < width {
        Seq::new((width - s.len()) as nat, |_i: int| 48u8) + s
    } else {
        s
    }
}

/// The number that a text of decimal digits denotes, most significant digit
/// first (0 for the empty text).
pub open spec fn digits_value(s: Seq<u8>) -> int
    decreases s.len(),
{
    if s.len() == 0 {
        0
    } else {
        digits_value(s.drop_last()) * 10 + (s.last() - 48)
    }
}

/// Whether every byte of `s` is a decimal digit.
pub open spec fn all_digits(s: Seq<u8>) -> bool {
    forall|i: int| 0 <= i < s.len() ==> 48 <= #[trigger] s[i] <= 57
}

/// Decimal text reads back: the digits of `n` are digits and denote `n`,
/// and there is at most one digit below ten.
pub proof fn lemma_decimal_reads_back(n: nat)
    ensures
        digits_value(decimal(n)) == n,
        all_digits(decimal(n)),
        decimal(n).len() >= 1,
        n < 10 <==> decimal(n).len() == 1,
        n < 100 <==> decimal(n).len() <= 2,
        n < 1000 <==> decimal(n).len() <= 3,
    decreases n,
{
    if n >= 10 {
        lemma_decimal_reads_back(n / 10);
        assert(decimal(n).drop_last() =~= decimal(n / 10));
        assert(digit_byte(n % 10) == 48 + n % 10);
        assert(decimal(n).last() == digit_byte(n % 10));
        assert(n == (n / 10) * 10 + n % 10);
        assert(digits_value(decimal(n)) == digits_value(decimal(n / 10)) * 10 + (n % 10));
    } else {
        assert(digit_byte(n) == 48 + n);
        assert(digits_value(Seq::<u8>::empty()) == 0);
        assert(decimal(n).drop_last() =~= Seq::<u8>::empty());
    }
}

/// Leading `'0'` fill does not change the number that a text denotes.
pub proof fn lemma_zero_fill_keeps_value(k: nat, s: Seq<u8>)
    ensures
        digits_value(Seq::new(k, |_i: int| 48u8) + s) == digits_value(s),
    decreases s.len(), k,
{
    let zeros = Seq::new(k, |_i: int| 48u8);
    if s.len() == 0 {
        assert(zeros + s =~= zeros);
        if k > 0 {
            assert(zeros.drop_last() =~= Seq::new((k - 1) as nat, |_i: int| 48u8));
            lemma_zero_fill_keeps_value((k - 1) as nat, s);
            assert(Seq::new((k - 1) as nat, |_i: int| 48u8) + s =~= zeros.drop_last());
        }
    } else {
        lemma_zero_fill_keeps_value(k, s.drop_last());
        assert((zeros + s).drop_last() =~= zeros + s.drop_last());
    }
}

/// The decimal text of `n`, digit by digit.
pub fn decimal_digits(n: u64) -> (r: Vec<u8>)
    ensures
        r@ == decimal(n as nat),
{
    let mut rest: u64 = n;
    let mut out: Vec<u8> = Vec::new();
    while rest >= 10
        invariant
            decimal(n as nat) == decimal(rest as nat) + out@,
        decreases rest,
    {
        let d: u8 = (rest % 10) as u8;
        let ghost old_out = out@;
        assert(decimal(rest as nat) == decimal((rest / 10) as nat).push(digit_byte((rest % 10) as nat)));
        out.insert(0, 48 + d);
        assert(decimal((rest / 10) as nat).push(digit_byte((rest % 10) as nat)) + old_out
            =~= decimal((rest / 10) as nat) + out@);
        rest = rest / 10;
    }
    let last: u8 = rest as u8;
    out.insert(0, 48 + last);
    assert(decimal(rest as nat) + out@.drop_first() =~= out@);
    out
}

/// `to_string` of `v`, then right-aligned in `width` bytes with `'0'` as fill,
/// as `format!("{:0>width$}", v.to_string())` writes it.
pub fn padded_decimal(v: i64, width: usize) -> (r: Vec<u8>)
    ensures
        r@ == zero_padded(signed_decimal(v as int), width as nat),
{
    let mut text: Vec<u8> = if v < 0 {
        let magnitude: u64 = ((-(v + 1)) as u64) + 1;
        let mut digits = decimal_digits(magnitude);
        let mut signed: Vec<u8> = Vec::new();
        signed.push(45);
        signed.append(&mut digits);
        signed
    } else {
        decimal_digits(v as u64)
    };
    let ghost unpadded = text@;
    assert(unpadded == signed_decimal(v as int));
    if text.len() >= width {
        return text;
    }
    let fill: usize = width - text.len();
    let mut out: Vec<u8> = Vec::new();
    let mut i: usize = 0;
    while i < fill
        invariant
            i <= fill,
            out@ == Seq::new(i as nat, |_j: int| 48u8),
        decreases fill - i,
    {
        out.push(48);
        i = i + 1;
        assert(out@ =~= Seq::new(i as nat, |_j: int| 48u8));
    }
    out.append(&mut text);
    out
}

} // verus!
