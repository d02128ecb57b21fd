//! Decimal notation: whole numbers, quotients rounded half to even, and
//! alignment in a field.

use crate::text::push_range;
use vstd::prelude::*;

verus! {

/// The decimal digit that stands for `d`, for `d` below ten.
pub open spec fn digit(d: int) -> char {
    if d == 0 {
        '0'
    } else if d == 1 {
        '1'
    } else if d == 2 {
        '2'
    } else if d == 3 {
        '3'
    } else if d == 4 {
        '4'
    } else if d == 5 {
        '5'
    } else if d == 6 {
        '6'
    } else if d == 7 {
        '7'
    } else if d == 8 {
        '8'
    } else {
        '9'
    }
}

/// Decimal notation of `n`, without sign or leading zeros.
pub open spec fn decimal(n: nat) -> Seq<char>
    decreases n,
{
    if n < 10 {
        seq![digit(n as int)]
    } else {
        decimal(n / 10).push(digit((n % 10) as int))
    }
}

/// The last `width` decimal digits of `n`, with leading zeros kept.
pub open spec fn padded(n: nat, width: nat) -> Seq<char>
    decreases width,
{
    if width == 0 {
        Seq::empty()
    } else {
        padded(n / 10, (width - 1) as nat).push(digit((n % 10) as int))
    }
}

/// The quotient `num / den` rounded to the nearest integer; a quotient that
/// lies exactly halfway between two integers goes to the even one.
pub open spec fn round_half_even(num: nat, den: nat) -> nat {
    let q = num / den;
    let r = num % den;
    if 2 * r < den {
        q
    } else if 2 * r > den {
        q + 1
    } else if q % 2 == 0 {
        q
    } else {
        q + 1
    }
}

/// `num / den` rounded half-to-even to a whole number, in decimal notation.
pub open spec fn whole(num: nat, den: nat) -> Seq<char> {
    decimal(round_half_even(num, den))
}

/// `num / den` rounded half-to-even to two fractional digits, in decimal
/// notation with a point.
pub open spec fn hundredths(num: nat, den: nat) -> Seq<char> {
    let r = round_half_even(num * 100, den);
    decimal(r / 100) + seq!['.'] + padded(r % 100, 2)
}

/// `s` moved to the right edge of a field of `width` characters, the gap
/// filled with spaces; `s` itself where it is at least that long.
pub open spec fn right_aligned(s: Seq<char>, width: nat) -> Seq<char> {
    if s.len() >= width {
        s
    } else {
        Seq::new((width - s.len()) as nat, |i: int| ' ') + s
    }
}

/// The decimal digit that stands for `d`.
pub fn digit_of(d: u8) -> (c: char)
    requires
        d < 10,
    ensures
        c == digit(d as int),
{
    if d == 0 {
        '0'
    } else if d == 1 {
        '1'
    } else if d == 2 {
        '2'
    } else if d == 3 {
        '3'
    } else if d == 4 {
        '4'
    } else if d == 5 {
        '5'
    } else if d == 6 {
        '6'
    } else if d == 7 {
        '7'
    } else if d == 8 {
        '8'
    } else {
        '9'
    }
}

/// Appends the decimal notation of `n`.
pub fn push_decimal(out: &mut String, n: u128)
    ensures
        final(out)@ == old(out)@ + decimal(n as nat),
    decreases n,
{
    if n >= 10 {
        push_decimal(out, n / 10);
    }
    out.push(digit_of((n % 10) as u8));
}

/// Appends the last `width` digits of `n`, leading zeros kept.
pub fn push_padded(out: &mut String, n: u128, width: u8)
    ensures
        final(out)@ == old(out)@ + padded(n as nat, width as nat),
    decreases width,
{
    if width > 0 {
        push_padded(out, n / 10, width - 1);
        out.push(digit_of((n % 10) as u8));
    }
}

/// The nearest integer to `num / den`, ties to even.
pub fn rounded(num: u128, den: u128) -> (r: u128)
    requires
        den > 0,
    ensures
        r == round_half_even(num as nat, den as nat),
{
    let q = num / den;
    let r = num % den;
    assert(r > 0 ==> q < u128::MAX) by (nonlinear_arith)
        requires
            den > 0,
            q == num as int / den as int,
            r == num as int % den as int,
            num <= u128::MAX,
    {
        if r > 0 {
            assert(den >= 2);
            assert(q * den <= num);
            assert(q * 2 <= q * den);
        }
    }
    let rest = den - r;
    if r < rest {
        q
    } else if r > rest {
        q + 1
    } else if q % 2 == 0 {
        q
    } else {
        q + 1
    }
}

/// Appends `num / den`, rounded to a whole number.
pub fn push_whole(out: &mut String, num: u128, den: u128)
    requires
        den > 0,
    ensures
        final(out)@ == old(out)@ + whole(num as nat, den as nat),
{
    push_decimal(out, rounded(num, den));
}

/// Appends `num / den`, rounded to two fractional digits.
pub fn push_hundredths(out: &mut String, num: u128, den: u128)
    requires
        den > 0,
        num * 100 <= u128::MAX,
    ensures
        final(out)@ == old(out)@ + hundredths(num as nat, den as nat),
{
    let r = rounded(num * 100, den);
    push_decimal(out, r / 100);
    out.push('.');
    push_padded(out, r % 100, 2);
}

/// Appends `s` right-aligned in a field of `width` characters.
pub fn push_right_aligned(out: &mut String, s: &Vec<char>, width: usize)
    ensures
        final(out)@ == old(out)@ + right_aligned(s@, width as nat),
{
    let mut i: usize = s.len();
    while i < width
        invariant
            s.len() <= i,
            i <= width || i == s.len(),
            out@ == old(out)@ + Seq::new((i - s.len()) as nat, |k: int| ' '),
        decreases width - i,
    {
        out.push(' ');
        i += 1;
    }
    let ghost gap = Seq::new((i - s.len()) as nat, |k: int| ' ');
    push_range(out, s, 0, s.len());
    proof {
        assert(s@.subrange(0, s.len() as int) == s@);
        if s.len() >= width {
            assert(gap =~= Seq::<char>::empty());
            assert(old(out)@ + gap =~= old(out)@);
        } else {
            assert(out@ =~= old(out)@ + (gap + s@));
        }
    }
}

} // verus!
