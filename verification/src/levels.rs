//! Colour scales: limits in ascending order, each with the colour that a
//! reading takes once it has passed the limit.

use vstd::prelude::*;

verus! {

/// The limits and colours of a scale.
pub open spec fn marks(levels: Seq<(u64, String)>) -> Seq<(nat, Seq<char>)> {
    Seq::new(levels.len(), |i: int| (levels[i].0 as nat, levels[i].1@))
}

/// The index of the last level whose limit the reading `num / den` has
/// reached; nothing where it has reached none.
pub open spec fn reached(marks: Seq<(nat, Seq<char>)>, num: nat, den: nat) -> Option<int>
    decreases marks.len(),
{
    if marks.len() == 0 {
        None
    } else if num >= marks.last().0 * den {
        Some(marks.len() - 1)
    } else {
        reached(marks.drop_last(), num, den)
    }
}

/// The index of the first level, at or after `from`, whose limit the
/// reading `num / den` does not exceed; nothing where it exceeds all.
pub open spec fn covering(marks: Seq<(nat, Seq<char>)>, num: nat, den: nat, from: int) -> Option<
    int,
>
    decreases marks.len() - from,
{
    if from >= marks.len() {
        None
    } else if num <= marks[from].0 * den {
        Some(from)
    } else {
        covering(marks, num, den, from + 1)
    }
}

/// Finds the level of [`reached`].
pub fn find_reached(levels: &Vec<(u64, String)>, num: u128, den: u64) -> (found: Option<usize>)
    ensures
        found matches Some(i) ==> i < levels.len() && reached(marks(levels@), num as nat, den as nat)
            == Some(i as int),
        found is None ==> reached(marks(levels@), num as nat, den as nat) is None,
{
    let ghost all = marks(levels@);
    let mut i: usize = levels.len();
    assert(all.take(i as int) =~= all);
    while i > 0
        invariant
            i <= levels.len(),
            all == marks(levels@),
            reached(all.take(i as int), num as nat, den as nat) == reached(
                all,
                num as nat,
                den as nat,
            ),
        decreases i,
    {
        let limit = levels[i - 1].0;
        proof {
            assert(all.take(i as int).last() == all[i - 1]);
            assert(all.take(i as int).drop_last() =~= all.take(i - 1));
            assert(limit * den <= u64::MAX * u64::MAX) by (nonlinear_arith)
                requires
                    limit <= u64::MAX,
                    den <= u64::MAX,
            ;
        }
        if num >= limit as u128 * den as u128 {
            return Some(i - 1);
        }
        i -= 1;
    }
    None
}

/// Finds the level of [`covering`].
pub fn find_covering(levels: &Vec<(u64, String)>, num: u128, den: u64) -> (found: Option<usize>)
    ensures
        found matches Some(i) ==> i < levels.len() && covering(
            marks(levels@),
            num as nat,
            den as nat,
            0,
        ) == Some(i as int),
        found is None ==> covering(marks(levels@), num as nat, den as nat, 0) is None,
{
    let ghost all = marks(levels@);
    let mut i: usize = 0;
    while i < levels.len()
        invariant
            i <= levels.len(),
            all == marks(levels@),
            covering(all, num as nat, den as nat, i as int) == covering(
                all,
                num as nat,
                den as nat,
                0,
            ),
        decreases levels.len() - i,
    {
        let limit = levels[i].0;
        proof {
            assert(all[i as int].0 == limit);
            assert(limit * den <= u64::MAX * u64::MAX) by (nonlinear_arith)
                requires
                    limit <= u64::MAX,
                    den <= u64::MAX,
            ;
        }
        if num <= limit as u128 * den as u128 {
            return Some(i);
        }
        i += 1;
    }
    None
}

/// A scale of three levels.
pub fn scale(
    first: (u64, &str),
    second: (u64, &str),
    third: (u64, &str),
) -> (levels: Vec<(u64, String)>)
    ensures
        marks(levels@) == seq![
            (first.0 as nat, first.1@),
            (second.0 as nat, second.1@),
            (third.0 as nat, third.1@),
        ],
{
    let mut levels: Vec<(u64, String)> = Vec::new();
    levels.push((first.0, String::from_str(first.1)));
    levels.push((second.0, String::from_str(second.1)));
    levels.push((third.0, String::from_str(third.1)));
    assert(marks(levels@) =~= seq![
        (first.0 as nat, first.1@),
        (second.0 as nat, second.1@),
        (third.0 as nat, third.1@),
    ]);
    levels
}

} // verus!
