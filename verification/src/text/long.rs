//! Arithmetic on natural numbers of any length, held as their decimal
//! digits.

use crate::text::{all_digits, digit_of, is_digit, number, pow10, slice_of, value_of_digit};
use vstd::prelude::*;

verus! {

/// A run of `n` zeros.
pub open spec fn zeros(n: nat) -> Seq<char> {
    Seq::new(n, |i: int| '0')
}

/// Zeros write the number zero.
pub proof fn lemma_zeros_write_zero(n: nat)
    ensures
        number(zeros(n)) == 0,
    decreases n,
{
    if n > 0 {
        lemma_zeros_write_zero((n - 1) as nat);
        assert(zeros(n).drop_last() =~= zeros((n - 1) as nat));
    }
}

/// Zeros in front of a number leave it as it is.
pub proof fn lemma_leading_zeros(n: nat, s: Seq<char>)
    ensures
        number(zeros(n) + s) == number(s),
    decreases s.len(),
{
    if s.len() == 0 {
        assert(zeros(n) + s =~= zeros(n));
        lemma_zeros_write_zero(n);
    } else {
        lemma_leading_zeros(n, s.drop_last());
        assert((zeros(n) + s).drop_last() =~= zeros(n) + s.drop_last());
        assert((zeros(n) + s).last() == s.last());
    }
}

/// Every zero behind a number makes it ten times as large.
pub proof fn lemma_trailing_zeros(s: Seq<char>, n: nat)
    ensures
        number(s + zeros(n)) == number(s) * pow10(n),
    decreases n,
{
    if n == 0 {
        assert(s + zeros(0) =~= s);
    } else {
        lemma_trailing_zeros(s, (n - 1) as nat);
        let all = s + zeros(n);
        let less = pow10((n - 1) as nat);
        assert(all.drop_last() =~= s + zeros((n - 1) as nat));
        assert(all.last() == '0');
        assert(number(all) == number(all.drop_last()) * 10 + 0);
        assert(pow10(n) == 10 * less);
        assert(number(s) * less * 10 == number(s) * (10 * less)) by (nonlinear_arith);
    }
}

/// The digits of `s` with `n` zeros behind them: `s` times ten to the `n`.
pub fn scaled(s: &Vec<char>, n: usize) -> (out: Vec<char>)
    requires
        all_digits(s@),
    ensures
        out@ == s@ + zeros(n as nat),
        all_digits(out@),
        number(out@) == number(s@) * pow10(n as nat),
{
    let mut out = slice_of(s, 0, s.len());
    assert(out@ =~= s@ + zeros(0));
    let mut i: usize = 0;
    while i < n
        invariant
            i <= n,
            out@ == s@ + zeros(i as nat),
        decreases n - i,
    {
        out.push('0');
        assert(out@ =~= s@ + zeros((i + 1) as nat));
        i += 1;
    }
    proof {
        lemma_trailing_zeros(s@, n as nat);
        assert forall|k: int| 0 <= k < out@.len() implies is_digit(#[trigger] out@[k]) by {
            if k < s@.len() {
                assert(out@[k] == s@[k]);
            }
        }
    }
    out
}

/// The digits of `s` with zeros in front of them, `n` digits in all.
fn widened(s: &Vec<char>, n: usize) -> (out: Vec<char>)
    requires
        all_digits(s@),
        s.len() <= n,
    ensures
        out@.len() == n,
        all_digits(out@),
        number(out@) == number(s@),
{
    let mut out: Vec<char> = Vec::new();
    let gap = n - s.len();
    let mut i: usize = 0;
    assert(out@ =~= zeros(0));
    while i < gap
        invariant
            i <= gap,
            out@ == zeros(i as nat),
        decreases gap - i,
    {
        out.push('0');
        assert(out@ =~= zeros((i + 1) as nat));
        i += 1;
    }
    let mut k: usize = 0;
    assert(out@ =~= zeros(gap as nat) + s@.take(0));
    while k < s.len()
        invariant
            k <= s.len(),
            gap + s.len() == n,
            out@ == zeros(gap as nat) + s@.take(k as int),
        decreases s.len() - k,
    {
        out.push(s[k]);
        assert(out@ =~= zeros(gap as nat) + s@.take(k + 1));
        k += 1;
    }
    proof {
        assert(s@.take(s.len() as int) =~= s@);
        lemma_leading_zeros(gap as nat, s@);
        assert forall|j: int| 0 <= j < out@.len() implies is_digit(#[trigger] out@[j]) by {
            if j >= gap {
                assert(out@[j] == s@[j - gap]);
            }
        }
    }
    out
}

/// Whether the number that `x` writes is at most the one that `y` writes.
pub fn at_most(x: &Vec<char>, y: &Vec<char>) -> (yes: bool)
    requires
        all_digits(x@),
        all_digits(y@),
    ensures
        yes == (number(x@) <= number(y@)),
{
    let n = if x.len() > y.len() {
        x.len()
    } else {
        y.len()
    };
    let wide_x = widened(x, n);
    let wide_y = widened(y, n);
    let mut order: i8 = 0;
    let mut i: usize = 0;
    while i < n
        invariant
            i <= n,
            wide_x@.len() == n,
            wide_y@.len() == n,
            -1 <= order <= 1,
            order == 0 ==> number(wide_x@.take(i as int)) == number(wide_y@.take(i as int)),
            order < 0 ==> number(wide_x@.take(i as int)) < number(wide_y@.take(i as int)),
            order > 0 ==> number(wide_x@.take(i as int)) > number(wide_y@.take(i as int)),
        decreases n - i,
    {
        let a = value_of_digit(wide_x[i]);
        let b = value_of_digit(wide_y[i]);
        proof {
            assert(wide_x@.take(i + 1).drop_last() =~= wide_x@.take(i as int));
            assert(wide_y@.take(i + 1).drop_last() =~= wide_y@.take(i as int));
            assert(wide_x@.take(i + 1).last() == wide_x@[i as int]);
            assert(wide_y@.take(i + 1).last() == wide_y@[i as int]);
        }
        if order == 0 {
            if a < b {
                order = -1;
            } else if a > b {
                order = 1;
            }
        }
        i += 1;
    }
    assert(wide_x@.take(n as int) =~= wide_x@);
    assert(wide_y@.take(n as int) =~= wide_y@);
    order <= 0
}

/// The digits of the number that `a` writes, divided by `k` and rounded
/// down.
pub fn divided(a: &Vec<char>, k: u16) -> (out: Vec<char>)
    requires
        all_digits(a@),
        1 <= k <= 100,
    ensures
        all_digits(out@),
        out@.len() == a@.len(),
        number(out@) == number(a@) / (k as nat),
{
    let mut out: Vec<char> = Vec::new();
    let mut rest: u16 = 0;
    let mut i: usize = 0;
    proof {
        assert(a@.take(0) =~= out@);
        assert(number(out@) == 0);
        assert(number(out@) * k == 0) by (nonlinear_arith)
            requires
                number(out@) == 0,
        ;
    }
    while i < a.len()
        invariant
            i <= a.len(),
            1 <= k <= 100,
            all_digits(a@),
            all_digits(out@),
            out@.len() == i,
            rest < k,
            number(a@.take(i as int)) == number(out@) * k + rest,
        decreases a.len() - i,
    {
        let d = value_of_digit(a[i]) as u16;
        let t = rest * 10 + d;
        let q = t / k;
        let r = t % k;
        let ghost before = out@;
        proof {
            assert(q <= 9 && t == q * k + r && r < k) by (nonlinear_arith)
                requires
                    1 <= k,
                    rest < k,
                    d <= 9,
                    t == rest * 10 + d,
                    q == t / k,
                    r == t % k,
            ;
            assert(a@.take(i + 1).drop_last() =~= a@.take(i as int));
            assert(a@.take(i + 1).last() == a@[i as int]);
        }
        out.push(digit_of(q as u8));
        proof {
            assert(out@.drop_last() =~= before);
            assert(number(out@) == number(before) * 10 + q);
            assert(number(a@.take(i + 1)) == number(out@) * k + r) by (nonlinear_arith)
                requires
                    number(a@.take(i + 1)) == (number(before) * k + rest) * 10 + d,
                    number(out@) == number(before) * 10 + q,
                    t == rest * 10 + d,
                    t == q * k + r,
            ;
            assert forall|j: int| 0 <= j < out@.len() implies is_digit(#[trigger] out@[j]) by {
                if j < before.len() {
                    assert(out@[j] == before[j]);
                }
            }
        }
        rest = r;
        i += 1;
    }
    proof {
        assert(a@.take(a.len() as int) =~= a@);
        vstd::arithmetic::div_mod::lemma_fundamental_div_mod_converse(
            number(a@) as int,
            k as int,
            number(out@) as int,
            rest as int,
        );
    }
    out
}

} // verus!
