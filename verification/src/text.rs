//! Text primitives shared by every fragment producer: moving between
//! `String` and sequences of characters, decimal notation, cutting text
//! apart, and reading numbers.

use vstd::prelude::*;

pub mod long;
pub mod notation;
pub mod reading;
pub mod split;

pub use crate::text::long::{at_most, divided, scaled, zeros};
pub use crate::text::notation::{
    decimal, digit, digit_of, hundredths, padded, push_decimal, push_hundredths, push_padded,
    push_right_aligned, push_whole, right_aligned, round_half_even, rounded, whole,
};
pub use crate::text::reading::{
    all_digits, digit_value, first_point, fixed_point, fraction_of, fraction_part,
    is_decimal_digit,
    is_digit, lemma_first_point_range, lemma_number_bound, lemma_number_grows,
    lemma_pow10_bound, lemma_pow10_positive, natural, number, parse_fixed, parse_natural,
    pow10, power_of_ten, read_fraction, unsigned, value_of_digit, whole_part,
};
pub use crate::text::split::{
    after_first_white, black_end, end_trimmed_of, find_char, first_black, first_char,
    first_other, first_white, is_white, is_whitespace, lines, lines_from, other_end,
    rest_after_white, split_lines, split_words, trim, trim_end_of, trim_of, trimmed,
    trimmed_of, without_return, words, words_from,
};

verus! {

/// `String::push` appends exactly one character to the end of the string.
pub assume_specification[ String::push ](s: &mut String, c: char)
    ensures
        final(s)@ == old(s)@.push(c),
;

/// The characters of `s`, in order.
pub fn chars_of(s: &str) -> (out: Vec<char>)
    ensures
        out@ == s@,
{
    let mut out: Vec<char> = Vec::new();
    for c in it: s.chars()
        invariant
            out@ == it.seq().take(it.index() as int),
    {
        out.push(c);
    }
    out
}

/// Appends the characters `chars[from..to]` to `out`.
pub fn push_range(out: &mut String, chars: &Vec<char>, from: usize, to: usize)
    requires
        from <= to <= chars.len(),
    ensures
        final(out)@ == old(out)@ + chars@.subrange(from as int, to as int),
{
    let mut i: usize = from;
    while i < to
        invariant
            from <= i <= to <= chars.len(),
            out@ == old(out)@ + chars@.subrange(from as int, i as int),
        decreases to - i,
    {
        out.push(chars[i]);
        i += 1;
    }
}

/// The string made of the characters of `chars`, in order.
pub fn string_of(chars: &Vec<char>) -> (out: String)
    ensures
        out@ == chars@,
{
    let mut out = String::new();
    push_range(&mut out, chars, 0, chars.len());
    out
}

/// The texts that a vector of character vectors holds.
pub open spec fn views(parts: Seq<Vec<char>>) -> Seq<Seq<char>> {
    Seq::new(parts.len(), |i: int| parts[i]@)
}

/// The copy of `chars[from..to]`.
pub fn slice_of(chars: &Vec<char>, from: usize, to: usize) -> (out: Vec<char>)
    requires
        from <= to <= chars.len(),
    ensures
        out@ == chars@.subrange(from as int, to as int),
{
    let mut out: Vec<char> = Vec::new();
    let mut i: usize = from;
    while i < to
        invariant
            from <= i <= to <= chars.len(),
            out@ == chars@.subrange(from as int, i as int),
        decreases to - i,
    {
        out.push(chars[i]);
        i += 1;
    }
    out
}

/// Whether two texts hold the same characters.
pub fn same(a: &Vec<char>, b: &Vec<char>) -> (equal: bool)
    ensures
        equal == (a@ == b@),
{
    if a.len() != b.len() {
        return false;
    }
    let mut i: usize = 0;
    while i < a.len()
        invariant
            i <= a.len(),
            a.len() == b.len(),
            a@.take(i as int) == b@.take(i as int),
        decreases a.len() - i,
    {
        if a[i] != b[i] {
            return false;
        }
        assert(a@.take(i + 1) =~= a@.take(i as int).push(a@[i as int]));
        assert(b@.take(i + 1) =~= b@.take(i as int).push(b@[i as int]));
        i += 1;
    }
    assert(a@.take(i as int) =~= a@);
    assert(b@.take(i as int) =~= b@);
    true
}

/// Whether `s` begins with `prefix`.
pub open spec fn has_prefix(s: Seq<char>, prefix: Seq<char>) -> bool {
    prefix.len() <= s.len() && s.take(prefix.len() as int) == prefix
}

/// Whether `s` begins with `prefix`.
pub fn starts_with(s: &Vec<char>, prefix: &Vec<char>) -> (found: bool)
    ensures
        found == has_prefix(s@, prefix@),
{
    if prefix.len() > s.len() {
        return false;
    }
    let mut i: usize = 0;
    while i < prefix.len()
        invariant
            i <= prefix.len() <= s.len(),
            s@.take(i as int) == prefix@.take(i as int),
        decreases prefix.len() - i,
    {
        if s[i] != prefix[i] {
            assert(s@.take(prefix.len() as int)[i as int] != prefix@[i as int]);
            return false;
        }
        assert(s@.take(i + 1) =~= s@.take(i as int).push(s@[i as int]));
        assert(prefix@.take(i + 1) =~= prefix@.take(i as int).push(prefix@[i as int]));
        i += 1;
    }
    assert(prefix@.take(i as int) =~= prefix@);
    true
}

} // verus!
