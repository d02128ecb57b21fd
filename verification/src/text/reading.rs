//! Reading numbers: naturals and decimal fractions.

use crate::text::slice_of;
use vstd::prelude::*;

verus! {

/// Whether `c` is one of the ten decimal digits.
pub open spec fn is_digit(c: char) -> bool {
    '0' <= c <= '9'
}

/// The value of the decimal digit `c`; zero for any other character.
pub open spec fn digit_value(c: char) -> nat {
    if c == '1' {
        1
    } else if c == '2' {
        2
    } else if c == '3' {
        3
    } else if c == '4' {
        4
    } else if c == '5' {
        5
    } else if c == '6' {
        6
    } else if c == '7' {
        7
    } else if c == '8' {
        8
    } else if c == '9' {
        9
    } else {
        0
    }
}

/// Whether `s` holds decimal digits only.
pub open spec fn all_digits(s: Seq<char>) -> bool {
    forall|i: int| 0 <= i < s.len() ==> is_digit(#[trigger] s[i])
}

/// The number that the digits of `s` write in decimal notation.
pub open spec fn number(s: Seq<char>) -> nat
    decreases s.len(),
{
    if s.len() == 0 {
        0
    } else {
        number(s.drop_last()) * 10 + digit_value(s.last())
    }
}

/// Ten to the power `n`.
pub open spec fn pow10(n: nat) -> nat
    decreases n,
{
    if n == 0 {
        1
    } else {
        10 * pow10((n - 1) as nat)
    }
}

/// `s` without the plus sign in front of it, if it has one.
pub open spec fn unsigned(s: Seq<char>) -> Seq<char> {
    if s.len() > 0 && s[0] == '+' {
        s.drop_first()
    } else {
        s
    }
}

/// The natural number that `s` writes: decimal digits, at least one, with
/// or without a plus sign in front.
pub open spec fn natural(s: Seq<char>) -> Option<nat> {
    let body = unsigned(s);
    if body.len() > 0 && all_digits(body) {
        Some(number(body))
    } else {
        None
    }
}

/// The first index at or after `from` that holds a decimal point; the
/// length of `s` where there is none.
pub open spec fn first_point(s: Seq<char>, from: int) -> int
    decreases s.len() - from,
{
    if from >= s.len() {
        s.len() as int
    } else if s[from] == '.' {
        from
    } else {
        first_point(s, from + 1)
    }
}

/// The digits of `s` before its first decimal point.
pub open spec fn whole_part(s: Seq<char>) -> Seq<char> {
    s.take(first_point(s, 0))
}

/// What follows the first decimal point of `s`.
pub open spec fn fraction_part(s: Seq<char>) -> Seq<char> {
    let at = first_point(s, 0);
    if at < s.len() {
        s.skip(at + 1)
    } else {
        Seq::empty()
    }
}

/// The decimal fraction that `s` writes, as a pair `(m, p)` that stands
/// for `m / 10^p`: digits with at most one decimal point among them, with
/// or without a plus sign in front, between one and eighteen digits in all.
pub open spec fn fixed_point(s: Seq<char>) -> Option<(nat, nat)> {
    let body = unsigned(s);
    let figures = whole_part(body) + fraction_part(body);
    if all_digits(figures) && 1 <= figures.len() <= 18 {
        Some((number(figures), fraction_part(body).len()))
    } else {
        None
    }
}

/// The decimal fraction that `s` writes, of whatever length, as a pair
/// `(m, p)` that stands for `m / 10^p`: digits with at most one decimal
/// point among them, with or without a plus sign in front, one digit at
/// least.
pub open spec fn fraction_of(s: Seq<char>) -> Option<(nat, nat)> {
    let body = unsigned(s);
    let figures = whole_part(body) + fraction_part(body);
    if all_digits(figures) && figures.len() >= 1 {
        Some((number(figures), fraction_part(body).len()))
    } else {
        None
    }
}

/// A longer run of digits writes no smaller number than its beginning.
pub proof fn lemma_number_grows(s: Seq<char>, k: int)
    requires
        0 <= k <= s.len(),
    ensures
        number(s.take(k)) <= number(s),
    decreases s.len() - k,
{
    if k < s.len() {
        lemma_number_grows(s.drop_last(), k);
        assert(s.drop_last().take(k) =~= s.take(k));
    } else {
        assert(s.take(k) =~= s);
    }
}

/// A run of `n` digits writes a number below ten to the `n`.
pub proof fn lemma_number_bound(s: Seq<char>)
    ensures
        number(s) < pow10(s.len()),
    decreases s.len(),
{
    if s.len() > 0 {
        lemma_number_bound(s.drop_last());
    }
}

/// Ten to the `n` grows with `n`, and stays below 2^63 up to eighteen.
pub proof fn lemma_pow10_bound(n: nat)
    requires
        n <= 18,
    ensures
        1 <= pow10(n) <= 1_000_000_000_000_000_000,
    decreases 18 - n,
{
    reveal_with_fuel(pow10, 20);
}

/// Ten to any power is positive.
pub proof fn lemma_pow10_positive(n: nat)
    ensures
        pow10(n) >= 1,
    decreases n,
{
    if n > 0 {
        lemma_pow10_positive((n - 1) as nat);
    }
}

/// Up to its first decimal point, `s` holds no decimal point.
pub proof fn lemma_first_point_range(s: Seq<char>, from: int)
    requires
        0 <= from <= s.len(),
    ensures
        from <= first_point(s, from) <= s.len(),
        first_point(s, from) < s.len() ==> s[first_point(s, from)] == '.',
        forall|k: int| from <= k < first_point(s, from) ==> s[k] != '.',
    decreases s.len() - from,
{
    if from < s.len() && s[from] != '.' {
        lemma_first_point_range(s, from + 1);
    }
}

/// Whether `c` is one of the ten decimal digits.
pub fn is_decimal_digit(c: char) -> (found: bool)
    ensures
        found == is_digit(c),
{
    '0' <= c && c <= '9'
}

/// The value of the decimal digit `c`; zero for any other character.
pub fn value_of_digit(c: char) -> (d: u8)
    ensures
        d == digit_value(c),
        d <= 9,
{
    if c == '1' {
        1
    } else if c == '2' {
        2
    } else if c == '3' {
        3
    } else if c == '4' {
        4
    } else if c == '5' {
        5
    } else if c == '6' {
        6
    } else if c == '7' {
        7
    } else if c == '8' {
        8
    } else if c == '9' {
        9
    } else {
        0
    }
}

fn without_sign(s: &Vec<char>) -> (body: Vec<char>)
    ensures
        body@ == unsigned(s@),
{
    if s.len() > 0 && s[0] == '+' {
        slice_of(s, 1, s.len())
    } else {
        slice_of(s, 0, s.len())
    }
}

/// Reads the natural number that `s` writes, where it is at most `limit`.
pub fn parse_natural(s: &Vec<char>, limit: u64) -> (out: Option<u64>)
    ensures
        out == match natural(s@) {
            Some(n) => if n <= limit {
                Some(n as u64)
            } else {
                None
            },
            None => None,
        },
{
    let body = without_sign(s);
    if body.len() == 0 {
        return None;
    }
    let mut value: u64 = 0;
    let mut i: usize = 0;
    while i < body.len()
        invariant
            i <= body.len(),
            body@ == unsigned(s@),
            body@.len() > 0,
            value == number(body@.take(i as int)),
            value <= limit,
            all_digits(body@.take(i as int)),
        decreases body.len() - i,
    {
        let c = body[i];
        if !is_decimal_digit(c) {
            assert(!is_digit(body@[i as int]));
            assert(!all_digits(body@));
            return None;
        }
        let d = value_of_digit(c) as u64;
        proof {
            let next = body@.take(i + 1);
            assert(next.drop_last() =~= body@.take(i as int));
            assert(next.last() == c);
            assert(number(next) == value * 10 + d);
            lemma_number_grows(body@, i + 1);
            assert forall|k: int| 0 <= k < next.len() implies is_digit(#[trigger] next[k]) by {
                if k < i {
                    assert(next[k] == body@.take(i as int)[k]);
                }
            }
        }
        if limit < d || value > (limit - d) / 10 {
            assert(number(body@.take(i + 1)) > limit);
            return None;
        }
        value = value * 10 + d;
        i += 1;
    }
    assert(body@.take(i as int) =~= body@);
    Some(value)
}

/// Reads the decimal fraction that `s` writes.
pub fn parse_fixed(s: &Vec<char>) -> (out: Option<(u64, u8)>)
    ensures
        out matches Some(pair) ==> fixed_point(s@) == Some((pair.0 as nat, pair.1 as nat)),
        out matches Some(pair) ==> pair.0 < 1_000_000_000_000_000_000 && pair.1 <= 18,
        out is None ==> fixed_point(s@) is None,
{
    let body = without_sign(s);
    let ghost stop = first_point(body@, 0);
    let ghost whole = whole_part(body@);
    let ghost fraction = fraction_part(body@);
    proof {
        lemma_first_point_range(body@, 0);
    }
    let mut value: u64 = 0;
    let mut at: usize = 0;
    while at < body.len() && body[at] != '.'
        invariant
            at <= body.len(),
            at <= 18,
            at <= stop <= body.len(),
            body@ == unsigned(s@),
            stop == first_point(body@, 0),
            whole == whole_part(body@),
            fraction == fraction_part(body@),
            stop < body.len() ==> body@[stop] == '.',
            forall|k: int| 0 <= k < stop ==> body@[k] != '.',
            value == number(body@.take(at as int)),
            all_digits(body@.take(at as int)),
        decreases body.len() - at,
    {
        let c = body[at];
        assert(at < stop);
        if !is_decimal_digit(c) || at >= 18 {
            proof {
                assert(whole.len() == stop);
                assert((whole + fraction)[at as int] == c);
                assert((whole + fraction).len() >= stop);
            }
            return None;
        }
        proof {
            let done = body@.take(at as int);
            let next = body@.take(at + 1);
            assert(next.drop_last() =~= done);
            assert(next.last() == c);
            lemma_number_bound(done);
            lemma_pow10_bound(at as nat);
            assert forall|k: int| 0 <= k < next.len() implies is_digit(#[trigger] next[k]) by {
                if k < at {
                    assert(next[k] == done[k]);
                }
            }
        }
        value = value * 10 + value_of_digit(c) as u64;
        at += 1;
    }
    assert(at == stop);
    assert(body@.take(at as int) == whole);
    let mut count: usize = at;
    if at < body.len() {
        let mut i: usize = at + 1;
        assert(fraction =~= body@.skip(at + 1));
        assert(whole + fraction.take(0) =~= whole);
        while i < body.len()
            invariant
                at < i <= body.len(),
                count == i - 1,
                count <= 18,
                fraction == body@.skip(at + 1),
                whole.len() == at,
                value == number(whole + fraction.take(i - at - 1)),
                all_digits(whole + fraction.take(i - at - 1)),
                body@ == unsigned(s@),
                whole == whole_part(body@),
                fraction == fraction_part(body@),
            decreases body.len() - i,
        {
            let c = body[i];
            if !is_decimal_digit(c) || count >= 18 {
                proof {
                    assert((whole + fraction)[i - 1] == c);
                    assert((whole + fraction).len() > count);
                }
                return None;
            }
            proof {
                let done = whole + fraction.take(i - at - 1);
                let next = whole + fraction.take(i - at);
                assert(next.drop_last() =~= done);
                assert(next.last() == c);
                lemma_number_bound(done);
                lemma_pow10_bound(done.len());
                assert forall|k: int| 0 <= k < next.len() implies is_digit(
                    #[trigger] next[k],
                ) by {
                    if k < done.len() {
                        assert(next[k] == done[k]);
                    }
                }
            }
            value = value * 10 + value_of_digit(c) as u64;
            count += 1;
            i += 1;
        }
        assert(fraction.take(i - at - 1) =~= fraction);
    } else {
        assert(fraction =~= Seq::<char>::empty());
        assert(whole + fraction =~= whole);
    }
    assert(count == (whole + fraction).len());
    assert(value == number(whole + fraction));
    proof {
        lemma_number_bound(whole + fraction);
        lemma_pow10_bound(count as nat);
    }
    if count == 0 {
        return None;
    }
    Some((value, (count - at) as u8))
}

/// Ten to the power `n`, for `n` up to eighteen.
pub fn power_of_ten(n: u8) -> (p: u128)
    requires
        n <= 18,
    ensures
        p == pow10(n as nat),
        1 <= p <= 1_000_000_000_000_000_000,
{
    let mut p: u128 = 1;
    let mut i: u8 = 0;
    while i < n
        invariant
            i <= n <= 18,
            p == pow10(i as nat),
            1 <= p <= 1_000_000_000_000_000_000,
        decreases n - i,
    {
        proof {
            lemma_pow10_bound((i + 1) as nat);
        }
        p = p * 10;
        i += 1;
    }
    p
}

/// Reads the decimal fraction that `s` writes: its digits without the
/// point, and how many of them stood behind the point.
pub fn read_fraction(s: &Vec<char>) -> (out: Option<(Vec<char>, usize)>)
    ensures
        out matches Some(pair) ==> all_digits(pair.0@) && fraction_of(s@) == Some(
            (number(pair.0@), pair.1 as nat),
        ),
        out is None ==> fraction_of(s@) is None,
{
    let body = without_sign(s);
    let ghost stop = first_point(body@, 0);
    let ghost whole = whole_part(body@);
    let ghost fraction = fraction_part(body@);
    proof {
        lemma_first_point_range(body@, 0);
    }
    let mut figures: Vec<char> = Vec::new();
    let mut at: usize = 0;
    assert(figures@ =~= body@.take(0));
    while at < body.len() && body[at] != '.'
        invariant
            at <= stop <= body.len(),
            body@ == unsigned(s@),
            stop == first_point(body@, 0),
            whole == whole_part(body@),
            fraction == fraction_part(body@),
            stop < body.len() ==> body@[stop] == '.',
            forall|k: int| 0 <= k < stop ==> body@[k] != '.',
            figures@ == body@.take(at as int),
            all_digits(figures@),
        decreases body.len() - at,
    {
        let c = body[at];
        assert(at < stop);
        if !is_decimal_digit(c) {
            proof {
                assert(whole.len() == stop);
                assert((whole + fraction)[at as int] == c);
            }
            return None;
        }
        let ghost before = figures@;
        figures.push(c);
        proof {
            assert(figures@ =~= body@.take(at + 1));
            assert forall|k: int| 0 <= k < figures@.len() implies is_digit(
                #[trigger] figures@[k],
            ) by {
                if k < at {
                    assert(figures@[k] == before[k]);
                }
            }
        }
        at += 1;
    }
    assert(at == stop);
    assert(figures@ == whole);
    let mut places: usize = 0;
    if at < body.len() {
        let mut i: usize = at + 1;
        assert(fraction =~= body@.skip(at + 1));
        assert(figures@ =~= whole + fraction.take(0));
        while i < body.len()
            invariant
                at < i <= body.len(),
                places == i - at - 1,
                fraction == body@.skip(at + 1),
                whole.len() == at,
                figures@ == whole + fraction.take(i - at - 1),
                all_digits(figures@),
                body@ == unsigned(s@),
                whole == whole_part(body@),
                fraction == fraction_part(body@),
            decreases body.len() - i,
        {
            let c = body[i];
            if !is_decimal_digit(c) {
                proof {
                    assert((whole + fraction)[i - 1] == c);
                }
                return None;
            }
            let ghost before = figures@;
            figures.push(c);
            proof {
                assert(figures@ =~= whole + fraction.take(i - at));
                assert forall|k: int| 0 <= k < figures@.len() implies is_digit(
                    #[trigger] figures@[k],
                ) by {
                    if k < before.len() {
                        assert(figures@[k] == before[k]);
                    }
                }
            }
            places += 1;
            i += 1;
        }
        assert(fraction.take(i - at - 1) =~= fraction);
    } else {
        assert(fraction =~= Seq::<char>::empty());
        assert(whole + fraction =~= whole);
    }
    assert(figures@ == whole + fraction);
    assert(places == fraction.len());
    if figures.len() == 0 {
        return None;
    }
    Some((figures, places))
}

} // verus!
