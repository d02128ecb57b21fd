//! Cutting text apart: white space, lines, words, and trimming.

use crate::text::{slice_of, views};
use vstd::prelude::*;

verus! {

/// Unicode's `White_Space` property.
pub open spec fn is_white(c: char) -> bool {
    ||| '\u{9}' <= c <= '\u{d}'
    ||| c == ' '
    ||| c == '\u{85}'
    ||| c == '\u{a0}'
    ||| c == '\u{1680}'
    ||| '\u{2000}' <= c <= '\u{200a}'
    ||| c == '\u{2028}'
    ||| c == '\u{2029}'
    ||| c == '\u{202f}'
    ||| c == '\u{205f}'
    ||| c == '\u{3000}'
}

/// Whether `c` has Unicode's `White_Space` property.
pub fn is_whitespace(c: char) -> (white: bool)
    ensures
        white == is_white(c),
{
    ('\u{9}' <= c && c <= '\u{d}') || c == ' ' || c == '\u{85}' || c == '\u{a0}' || c
        == '\u{1680}' || ('\u{2000}' <= c && c <= '\u{200a}') || c == '\u{2028}' || c
        == '\u{2029}' || c == '\u{202f}' || c == '\u{205f}' || c == '\u{3000}'
}

/// The lines of `s[start..]` of which `s[start..pos]` is known to hold no
/// line feed. A line ends at a line feed; a carriage return just before
/// that line feed belongs to the ending. What follows the last line feed is
/// a line of its own unless it is empty.
pub open spec fn lines_from(s: Seq<char>, start: int, pos: int) -> Seq<Seq<char>>
    decreases s.len() - pos,
{
    if pos >= s.len() {
        if start < s.len() {
            seq![s.subrange(start, s.len() as int)]
        } else {
            Seq::empty()
        }
    } else if s[pos] == '\n' {
        seq![without_return(s.subrange(start, pos))] + lines_from(s, pos + 1, pos + 1)
    } else {
        lines_from(s, start, pos + 1)
    }
}

/// `line` without the carriage return at its end, if it has one.
pub open spec fn without_return(line: Seq<char>) -> Seq<char> {
    if line.len() > 0 && line.last() == '\r' {
        line.drop_last()
    } else {
        line
    }
}

/// The lines of `s`.
pub open spec fn lines(s: Seq<char>) -> Seq<Seq<char>> {
    lines_from(s, 0, 0)
}

/// Splits `s` into its lines.
pub fn split_lines(s: &Vec<char>) -> (out: Vec<Vec<char>>)
    ensures
        views(out@) == lines(s@),
{
    let mut out: Vec<Vec<char>> = Vec::new();
    let mut start: usize = 0;
    let mut pos: usize = 0;
    while pos < s.len()
        invariant
            start <= pos <= s.len(),
            views(out@) + lines_from(s@, start as int, pos as int) == lines(s@),
        decreases s.len() - pos,
    {
        if s[pos] == '\n' {
            let end = if pos > start && s[pos - 1] == '\r' {
                pos - 1
            } else {
                pos
            };
            let line = slice_of(s, start, end);
            let ghost before = views(out@);
            out.push(line);
            proof {
                let whole = s@.subrange(start as int, pos as int);
                assert(line@ =~= without_return(whole));
                assert(views(out@) =~= before + seq![line@]);
                assert(before + (seq![line@] + lines_from(s@, pos + 1, pos + 1)) =~= before
                    + seq![line@] + lines_from(s@, pos + 1, pos + 1));
            }
            start = pos + 1;
        }
        pos += 1;
    }
    if start < s.len() {
        let line = slice_of(s, start, s.len());
        let ghost before = views(out@);
        out.push(line);
        assert(views(out@) =~= before + seq![line@]);
    } else {
        assert(views(out@) + Seq::<Seq<char>>::empty() =~= views(out@));
    }
    out
}

/// The words of `s[pos..]`, a word that began at `start` being under way
/// when `start` is not negative. Words are the longest runs without white
/// space.
pub open spec fn words_from(s: Seq<char>, start: int, pos: int) -> Seq<Seq<char>>
    decreases s.len() - pos,
{
    if pos >= s.len() {
        if start >= 0 {
            seq![s.subrange(start, s.len() as int)]
        } else {
            Seq::empty()
        }
    } else if is_white(s[pos]) {
        if start >= 0 {
            seq![s.subrange(start, pos)] + words_from(s, -1, pos + 1)
        } else {
            words_from(s, -1, pos + 1)
        }
    } else {
        words_from(
            s,
            if start >= 0 {
                start
            } else {
                pos
            },
            pos + 1,
        )
    }
}

/// The words of `s`: what stands between runs of white space.
pub open spec fn words(s: Seq<char>) -> Seq<Seq<char>> {
    words_from(s, -1, 0)
}

/// Splits `s` into its words.
pub fn split_words(s: &Vec<char>) -> (out: Vec<Vec<char>>)
    ensures
        views(out@) == words(s@),
{
    let mut out: Vec<Vec<char>> = Vec::new();
    let mut start: usize = 0;
    let mut inside = false;
    let mut pos: usize = 0;
    while pos < s.len()
        invariant
            pos <= s.len(),
            inside ==> start < pos,
            views(out@) + words_from(
                s@,
                if inside {
                    start as int
                } else {
                    -1
                },
                pos as int,
            ) == words(s@),
        decreases s.len() - pos,
    {
        if is_whitespace(s[pos]) {
            if inside {
                let word = slice_of(s, start, pos);
                let ghost before = views(out@);
                out.push(word);
                proof {
                    assert(views(out@) =~= before + seq![word@]);
                    assert(before + (seq![word@] + words_from(s@, -1, pos + 1)) =~= before
                        + seq![word@] + words_from(s@, -1, pos + 1));
                }
                inside = false;
            }
        } else if !inside {
            inside = true;
            start = pos;
        }
        pos += 1;
    }
    if inside {
        let word = slice_of(s, start, s.len());
        let ghost before = views(out@);
        out.push(word);
        assert(views(out@) =~= before + seq![word@]);
    } else {
        assert(views(out@) + Seq::<Seq<char>>::empty() =~= views(out@));
    }
    out
}

/// The first index at or after `from` that holds `c`; the length of `s`
/// where there is none.
pub open spec fn first_char(s: Seq<char>, c: char, from: int) -> int
    decreases s.len() - from,
{
    if from >= s.len() {
        s.len() as int
    } else if s[from] == c {
        from
    } else {
        first_char(s, c, from + 1)
    }
}

/// The first index of `s` that holds `c`, or the length of `s`.
pub fn find_char(s: &Vec<char>, c: char) -> (at: usize)
    ensures
        at == first_char(s@, c, 0),
        at <= s.len(),
{
    let mut at: usize = 0;
    while at < s.len() && s[at] != c
        invariant
            at <= s.len(),
            first_char(s@, c, at as int) == first_char(s@, c, 0),
        decreases s.len() - at,
    {
        at += 1;
    }
    at
}

/// The first index at or after `from` whose character is not `c`; the
/// length of `s` where there is none.
pub open spec fn first_other(s: Seq<char>, c: char, from: int) -> int
    decreases s.len() - from,
{
    if from >= s.len() {
        s.len() as int
    } else if s[from] != c {
        from
    } else {
        first_other(s, c, from + 1)
    }
}

/// The end of the last stretch before `to` that does not end in `c`: one
/// past the last index below `to` whose character is not `c`, or zero.
pub open spec fn other_end(s: Seq<char>, c: char, to: int) -> int
    decreases to,
{
    if to <= 0 {
        0
    } else if s[to - 1] != c {
        to
    } else {
        other_end(s, c, to - 1)
    }
}

/// `s` without the characters `c` at its two ends.
pub open spec fn trimmed_of(s: Seq<char>, c: char) -> Seq<char> {
    let from = first_other(s, c, 0);
    let to = other_end(s, c, s.len() as int);
    if from >= to {
        Seq::empty()
    } else {
        s.subrange(from, to)
    }
}

/// `s` without the characters `c` at its end.
pub open spec fn end_trimmed_of(s: Seq<char>, c: char) -> Seq<char> {
    s.take(other_end(s, c, s.len() as int))
}

fn find_other(s: &Vec<char>, c: char) -> (from: usize)
    ensures
        from == first_other(s@, c, 0),
        from <= s.len(),
{
    let mut from: usize = 0;
    while from < s.len() && s[from] == c
        invariant
            from <= s.len(),
            first_other(s@, c, from as int) == first_other(s@, c, 0),
        decreases s.len() - from,
    {
        from += 1;
    }
    from
}

fn find_other_end(s: &Vec<char>, c: char) -> (to: usize)
    ensures
        to == other_end(s@, c, s.len() as int),
        to <= s.len(),
{
    let mut to: usize = s.len();
    while to > 0 && s[to - 1] == c
        invariant
            to <= s.len(),
            other_end(s@, c, to as int) == other_end(s@, c, s.len() as int),
        decreases to,
    {
        to -= 1;
    }
    to
}

/// `s` without the characters `c` at its two ends.
pub fn trim_of(s: &Vec<char>, c: char) -> (out: Vec<char>)
    ensures
        out@ == trimmed_of(s@, c),
{
    let from = find_other(s, c);
    let to = find_other_end(s, c);
    if from >= to {
        Vec::new()
    } else {
        slice_of(s, from, to)
    }
}

/// `s` without the characters `c` at its end.
pub fn trim_end_of(s: &Vec<char>, c: char) -> (out: Vec<char>)
    ensures
        out@ == end_trimmed_of(s@, c),
{
    let to = find_other_end(s, c);
    slice_of(s, 0, to)
}

/// The first index at or after `from` whose character is white space; the
/// length of `s` where there is none.
pub open spec fn first_white(s: Seq<char>, from: int) -> int
    decreases s.len() - from,
{
    if from >= s.len() {
        s.len() as int
    } else if is_white(s[from]) {
        from
    } else {
        first_white(s, from + 1)
    }
}

/// The first index at or after `from` whose character is not white space;
/// the length of `s` where there is none.
pub open spec fn first_black(s: Seq<char>, from: int) -> int
    decreases s.len() - from,
{
    if from >= s.len() {
        s.len() as int
    } else if !is_white(s[from]) {
        from
    } else {
        first_black(s, from + 1)
    }
}

/// One past the last index below `to` whose character is not white space,
/// or zero.
pub open spec fn black_end(s: Seq<char>, to: int) -> int
    decreases to,
{
    if to <= 0 {
        0
    } else if !is_white(s[to - 1]) {
        to
    } else {
        black_end(s, to - 1)
    }
}

/// `s` without the white space at its two ends.
pub open spec fn trimmed(s: Seq<char>) -> Seq<char> {
    let from = first_black(s, 0);
    let to = black_end(s, s.len() as int);
    if from >= to {
        Seq::empty()
    } else {
        s.subrange(from, to)
    }
}

/// `s` without the white space at its two ends.
pub fn trim(s: &Vec<char>) -> (out: Vec<char>)
    ensures
        out@ == trimmed(s@),
{
    let mut from: usize = 0;
    while from < s.len() && is_whitespace(s[from])
        invariant
            from <= s.len(),
            first_black(s@, from as int) == first_black(s@, 0),
        decreases s.len() - from,
    {
        from += 1;
    }
    let mut to: usize = s.len();
    while to > 0 && is_whitespace(s[to - 1])
        invariant
            to <= s.len(),
            black_end(s@, to as int) == black_end(s@, s.len() as int),
        decreases to,
    {
        to -= 1;
    }
    if from >= to {
        Vec::new()
    } else {
        slice_of(s, from, to)
    }
}

/// What follows the first white-space character of `s`; nothing where `s`
/// holds no white space.
pub open spec fn after_first_white(s: Seq<char>) -> Seq<char> {
    let at = first_white(s, 0);
    if at >= s.len() {
        Seq::empty()
    } else {
        s.skip(at + 1)
    }
}

/// What follows the first white-space character of `s`.
pub fn rest_after_white(s: &Vec<char>) -> (out: Vec<char>)
    ensures
        out@ == after_first_white(s@),
{
    let mut at: usize = 0;
    while at < s.len() && !is_whitespace(s[at])
        invariant
            at <= s.len(),
            first_white(s@, at as int) == first_white(s@, 0),
        decreases s.len() - at,
    {
        at += 1;
    }
    if at >= s.len() {
        Vec::new()
    } else {
        slice_of(s, at + 1, s.len())
    }
}

} // verus!
