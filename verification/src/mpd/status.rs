//! The response to `status`: entries of key and value, the share of the
//! track that has been played, the state and the switches.

use crate::mpd::{decode, read_lines, response_lines, MPDError, State, Status, StatusFlags};
use crate::text::{
    all_digits, at_most, chars_of, divided, fraction_of, lemma_pow10_positive, number, pow10,
    read_fraction, same, scaled, slice_of, views,
};
use vstd::prelude::*;
use vstd::utf8::{decode_utf8, valid_utf8};

verus! {

/// The first index at or after `from` where a colon stands before a space;
/// the length of `line` where there is none.
pub open spec fn separator_at(line: Seq<char>, from: int) -> int
    decreases line.len() - from,
{
    if from + 1 >= line.len() {
        line.len() as int
    } else if line[from] == ':' && line[from + 1] == ' ' {
        from
    } else {
        separator_at(line, from + 1)
    }
}

/// Whether `line` holds a key, a colon with a space, and a value.
pub open spec fn is_entry(line: Seq<char>) -> bool {
    separator_at(line, 0) < line.len()
}

/// What stands before the first colon with a space.
pub open spec fn entry_key(line: Seq<char>) -> Seq<char> {
    line.take(separator_at(line, 0))
}

/// What stands between the first colon with a space and the next one, or
/// the end of the line.
pub open spec fn entry_value(line: Seq<char>) -> Seq<char> {
    let rest = line.skip(separator_at(line, 0) + 2);
    rest.take(separator_at(rest, 0))
}

/// The line that ends a response.
pub open spec fn is_end(line: Seq<char>) -> bool {
    line == "OK"@
}

/// Whether every line is an entry or the line that ends a response.
pub open spec fn well_formed(entries: Seq<Seq<char>>) -> bool {
    forall|i: int| 0 <= i < entries.len() ==> is_end(#[trigger] entries[i]) || is_entry(entries[i])
}

/// The value of the last entry under `key`. Lines that are no entries are
/// passed over.
pub open spec fn lookup(entries: Seq<Seq<char>>, key: Seq<char>) -> Option<Seq<char>>
    decreases entries.len(),
{
    if entries.len() == 0 {
        None
    } else if is_entry(entries.last()) && entry_key(entries.last()) == key {
        Some(entry_value(entries.last()))
    } else {
        lookup(entries.drop_last(), key)
    }
}

/// The share of the track that has been played, in percent, rounded down
/// and never above 100: `floor(elapsed * 100 / duration)`, where a pair
/// `(m, p)` stands for `m / 10^p`. Of a track without duration nothing has
/// been played if nothing has elapsed, and all of it otherwise.
pub open spec fn percentage(elapsed: (nat, nat), duration: (nat, nat)) -> nat {
    let num = elapsed.0 * pow10(duration.1) * 100;
    let den = duration.0 * pow10(elapsed.1);
    if den == 0 {
        if num == 0 {
            0
        } else {
            100
        }
    } else if num / den >= 100 {
        100
    } else {
        num / den
    }
}

/// The percentage that the entries give: 100 where `elapsed` or `duration`
/// is missing; nothing where both are there and one of them writes no
/// number.
pub open spec fn progress_of(entries: Seq<Seq<char>>) -> Option<nat> {
    match (lookup(entries, "elapsed"@), lookup(entries, "duration"@)) {
        (Some(elapsed), Some(duration)) => match (fraction_of(elapsed), fraction_of(duration)) {
            (Some(e), Some(d)) => Some(percentage(e, d)),
            _ => None,
        },
        _ => Some(100),
    }
}

/// The state that a value of `state` names; what is not known is playing.
pub open spec fn state_of(value: Seq<char>) -> State {
    if value == "pause"@ {
        State::Pause
    } else if value == "stop"@ {
        State::Stop
    } else {
        State::Play
    }
}

/// Whether the switch under `key` is on; nothing where the key is missing.
pub open spec fn flag_of(entries: Seq<Seq<char>>, key: Seq<char>) -> Option<bool> {
    match lookup(entries, key) {
        Some(value) => Some(value == "1"@),
        None => None,
    }
}

/// The status that a response gives. Nothing where a line is neither an
/// entry nor the end, where `state` or a switch is missing, or where the
/// entries give no percentage.
pub open spec fn status_of(text: Seq<char>) -> Option<Status> {
    let entries = response_lines(text);
    if !well_formed(entries) {
        None
    } else {
        match (
            progress_of(entries),
            lookup(entries, "state"@),
            flag_of(entries, "consume"@),
            flag_of(entries, "single"@),
            flag_of(entries, "random"@),
            flag_of(entries, "repeat"@),
        ) {
            (Some(share), Some(state), Some(consume), Some(single), Some(random), Some(repeat)) => {
                Some(
                    Status {
                        flags: StatusFlags { repeat, random, single, consume },
                        percentage: share as u8,
                        state: state_of(state),
                    },
                )
            },
            _ => None,
        }
    }
}

/// What the response to `status` says.
pub open spec fn status_reply(bytes: Seq<u8>) -> Result<Status, MPDError> {
    if !valid_utf8(bytes) {
        Err(MPDError::ConnectionError)
    } else {
        match status_of(decode_utf8(bytes)) {
            Some(status) => Ok(status),
            None => Err(MPDError::ConnectionError),
        }
    }
}

fn find_separator(line: &Vec<char>) -> (at: usize)
    ensures
        at == separator_at(line@, 0),
        at <= line.len(),
        at < line.len() ==> at + 2 <= line.len(),
{
    if line.len() < 2 {
        return line.len();
    }
    let last = line.len() - 1;
    let mut at: usize = 0;
    while at < last
        invariant
            at <= last,
            last + 1 == line.len(),
            separator_at(line@, at as int) == separator_at(line@, 0),
        decreases last - at,
    {
        if line[at] == ':' && line[at + 1] == ' ' {
            return at;
        }
        at += 1;
    }
    line.len()
}

fn value_in(line: &Vec<char>, at: usize) -> (value: Vec<char>)
    requires
        at == separator_at(line@, 0),
        at < line.len(),
        at + 2 <= line.len(),
    ensures
        value@ == entry_value(line@),
{
    let rest = slice_of(line, at + 2, line.len());
    assert(rest@ =~= line@.skip(at + 2));
    let stop = find_separator(&rest);
    let value = slice_of(&rest, 0, stop);
    assert(value@ =~= rest@.take(stop as int));
    value
}

fn entries_hold(entries: &Vec<Vec<char>>) -> (good: bool)
    ensures
        good == well_formed(views(entries@)),
{
    let end = chars_of("OK");
    let mut i: usize = 0;
    while i < entries.len()
        invariant
            i <= entries.len(),
            end@ == "OK"@,
            well_formed(views(entries@).take(i as int)),
        decreases entries.len() - i,
    {
        let line = &entries[i];
        if !same(line, &end) && find_separator(line) >= line.len() {
            assert(views(entries@)[i as int] == line@);
            return false;
        }
        proof {
            let done = views(entries@).take(i as int);
            let next = views(entries@).take(i + 1);
            assert forall|k: int| 0 <= k < next.len() implies is_end(#[trigger] next[k])
                || is_entry(next[k]) by {
                if k < i {
                    assert(next[k] == done[k]);
                }
            }
        }
        i += 1;
    }
    assert(views(entries@).take(i as int) =~= views(entries@));
    true
}

fn find_value(entries: &Vec<Vec<char>>, key: &str) -> (value: Option<Vec<char>>)
    ensures
        value is Some <==> lookup(views(entries@), key@) is Some,
        value matches Some(found) ==> lookup(views(entries@), key@) == Some(found@),
{
    let wanted = chars_of(key);
    let ghost source = views(entries@);
    let mut i: usize = entries.len();
    assert(source.take(i as int) =~= source);
    while i > 0
        invariant
            i <= entries.len(),
            wanted@ == key@,
            source == views(entries@),
            lookup(source.take(i as int), key@) == lookup(source, key@),
        decreases i,
    {
        let line = &entries[i - 1];
        proof {
            assert(source.take(i as int).last() == line@);
            assert(source.take(i as int).drop_last() =~= source.take(i - 1));
        }
        let at = find_separator(line);
        if at < line.len() {
            let name = slice_of(line, 0, at);
            assert(name@ =~= entry_key(line@));
            if same(&name, &wanted) {
                return Some(value_in(line, at));
            }
        }
        i -= 1;
    }
    None
}

/// A quotient lies between two neighbours once the divisor times the
/// lower one fits and the divisor times the upper one does not.
proof fn lemma_quotient_found(whole: nat, part: nat, k: nat)
    requires
        part > 0,
        k * part <= whole,
        part > whole / (k + 1),
    ensures
        whole / part == k,
{
    let next = (k + 1) as int;
    vstd::arithmetic::div_mod::lemma_fundamental_div_mod(whole as int, next);
    assert(0 <= (whole as int) % next < next) by (nonlinear_arith)
        requires
            next > 0,
    ;
    assert(next * part > whole) by (nonlinear_arith)
        requires
            part >= whole / (next as nat) + 1,
            whole == next * ((whole as int) / next) + (whole as int) % next,
            (whole as int) % next < next,
            next > 0,
    ;
    assert(next * part == k * part + part) by (nonlinear_arith)
        requires
            next == k + 1,
    ;
    vstd::arithmetic::div_mod::lemma_fundamental_div_mod_converse(
        whole as int,
        part as int,
        k as int,
        whole - k * part,
    );
}

/// Where the divisor fits into a share of the whole, so many divisors fit
/// into the whole.
proof fn lemma_quotient_fits(whole: nat, part: nat, k: nat)
    requires
        k > 0,
        part <= whole / k,
    ensures
        k * part <= whole,
{
    vstd::arithmetic::div_mod::lemma_fundamental_div_mod(whole as int, k as int);
    assert(0 <= (whole as int) % (k as int)) by (nonlinear_arith)
        requires
            k > 0,
            whole >= 0,
    ;
    assert(k * part <= whole) by (nonlinear_arith)
        requires
            part <= (whole as int) / (k as int),
            whole == k * ((whole as int) / (k as int)) + (whole as int) % (k as int),
            0 <= (whole as int) % (k as int),
            k > 0,
    ;
}

/// A divisor that fits a hundred times gives a quotient of a hundred at
/// least.
proof fn lemma_quotient_full(whole: nat, part: nat)
    requires
        part > 0,
        100 * part <= whole,
    ensures
        whole / part >= 100,
{
    vstd::arithmetic::div_mod::lemma_fundamental_div_mod(whole as int, part as int);
    assert((whole as int) / (part as int) >= 100) by (nonlinear_arith)
        requires
            part > 0,
            100 * part <= whole,
            whole == part * ((whole as int) / (part as int)) + (whole as int) % (part as int),
            (whole as int) % (part as int) < part,
    ;
}

/// Computes the percentage played from two decimal fractions of any
/// length, each given by its digits and by the number of digits that stand
/// behind the point.
pub fn percent(elapsed: (&Vec<char>, usize), duration: (&Vec<char>, usize)) -> (share: u8)
    requires
        all_digits(elapsed.0@),
        all_digits(duration.0@),
    ensures
        share == percentage(
            (number(elapsed.0@), elapsed.1 as nat),
            (number(duration.0@), duration.1 as nat),
        ),
        share <= 100,
{
    let lifted = scaled(elapsed.0, duration.1);
    let hundredfold = scaled(&lifted, 2);
    let whole = scaled(duration.0, elapsed.1);
    let nothing: Vec<char> = Vec::new();
    let ghost num = number(hundredfold@);
    let ghost den = number(whole@);
    proof {
        reveal_with_fuel(pow10, 3);
        assert(pow10(2) == 100);
        assert(num == number(elapsed.0@) * pow10(duration.1 as nat) * 100);
        assert(den == number(duration.0@) * pow10(elapsed.1 as nat));
        assert(number(nothing@) == 0);
    }
    if at_most(&whole, &nothing) {
        return if at_most(&hundredfold, &nothing) {
            0
        } else {
            100
        };
    }
    let mut k: u16 = 0;
    assert(k * den <= num) by (nonlinear_arith)
        requires
            k == 0,
            num >= 0,
    ;
    while k < 100
        invariant
            k <= 100,
            den > 0,
            num == number(hundredfold@),
            den == number(whole@),
            num == number(elapsed.0@) * pow10(duration.1 as nat) * 100,
            den == number(duration.0@) * pow10(elapsed.1 as nat),
            all_digits(hundredfold@),
            all_digits(whole@),
            k * den <= num,
        decreases 100 - k,
    {
        let share = divided(&hundredfold, k + 1);
        if !at_most(&whole, &share) {
            proof {
                lemma_quotient_found(num, den, k as nat);
            }
            return k as u8;
        }
        proof {
            lemma_quotient_fits(num, den, (k + 1) as nat);
        }
        k += 1;
    }
    proof {
        lemma_quotient_full(num, den);
    }
    100
}

fn read_progress(entries: &Vec<Vec<char>>) -> (share: Option<u8>)
    ensures
        share is Some <==> progress_of(views(entries@)) is Some,
        share matches Some(p) ==> progress_of(views(entries@)) == Some(p as nat),
        share matches Some(p) ==> p <= 100,
{
    match (find_value(entries, "elapsed"), find_value(entries, "duration")) {
        (Some(elapsed), Some(duration)) => match (read_fraction(&elapsed), read_fraction(&duration)) {
            (Some(e), Some(d)) => Some(percent((&e.0, e.1), (&d.0, d.1))),
            _ => None,
        },
        _ => Some(100),
    }
}

fn read_flag(entries: &Vec<Vec<char>>, key: &str) -> (flag: Option<bool>)
    ensures
        flag == flag_of(views(entries@), key@),
{
    match find_value(entries, key) {
        Some(value) => {
            let one = chars_of("1");
            Some(same(&value, &one))
        },
        None => None,
    }
}

fn read_state(value: &Vec<char>) -> (state: State)
    ensures
        state == state_of(value@),
{
    let pause = chars_of("pause");
    let stop = chars_of("stop");
    if same(value, &pause) {
        State::Pause
    } else if same(value, &stop) {
        State::Stop
    } else {
        State::Play
    }
}

fn read_status(text: &str) -> (out: Option<Status>)
    ensures
        out == status_of(text@),
{
    let entries = read_lines(text);
    if !entries_hold(&entries) {
        return None;
    }
    let share = read_progress(&entries);
    let state = find_value(&entries, "state");
    let consume = read_flag(&entries, "consume");
    let single = read_flag(&entries, "single");
    let random = read_flag(&entries, "random");
    let repeat = read_flag(&entries, "repeat");
    match (share, state, consume, single, random, repeat) {
        (Some(share), Some(state), Some(consume), Some(single), Some(random), Some(repeat)) => {
            Some(
                Status {
                    flags: StatusFlags { repeat, random, single, consume },
                    percentage: share,
                    state: read_state(&state),
                },
            )
        },
        _ => None,
    }
}

/// Reads the response to `status`.
pub fn parse_status(bytes: &[u8]) -> (out: Result<Status, MPDError>)
    ensures
        out == status_reply(bytes@),
{
    match decode(bytes) {
        None => Err(MPDError::ConnectionError),
        Some(text) => match read_status(text.as_str()) {
            Some(status) => Ok(status),
            None => Err(MPDError::ConnectionError),
        },
    }
}

/// The percentage is `floor(elapsed * 100 / duration)`, cut at 100: it is
/// the largest whole number `p` up to 100 with `p * duration <= elapsed *
/// 100`. The two sides are compared after both were scaled by the same
/// power of ten, so that they are whole.
pub proof fn lemma_percentage_is_floor(elapsed: (nat, nat), duration: (nat, nat))
    requires
        duration.0 > 0,
    ensures
        ({
            let hundredfold = elapsed.0 * pow10(duration.1) * 100;
            let whole = duration.0 * pow10(elapsed.1);
            let p = percentage(elapsed, duration);
            &&& p <= 100
            &&& p * whole <= hundredfold
            &&& p < 100 ==> hundredfold < (p + 1) * whole
        }),
{
    let hundredfold = elapsed.0 * pow10(duration.1) * 100;
    let whole = duration.0 * pow10(elapsed.1);
    lemma_pow10_positive(elapsed.1);
    assert(whole > 0) by (nonlinear_arith)
        requires
            whole == duration.0 * pow10(elapsed.1),
            duration.0 > 0,
            pow10(elapsed.1) >= 1,
    ;
    let q = hundredfold / whole;
    assert(q * whole <= hundredfold < (q + 1) * whole) by (nonlinear_arith)
        requires
            whole > 0,
            q == hundredfold / whole,
    ;
    if q >= 100 {
        assert(100 * whole <= q * whole) by (nonlinear_arith)
            requires
                q >= 100,
                whole > 0,
        ;
    }
}

/// For times in whole seconds, with no more elapsed than the track lasts,
/// the percentage is `elapsed * 100 / duration`.
pub proof fn lemma_percentage_of_seconds(elapsed: nat, duration: nat)
    requires
        duration > 0,
        elapsed <= duration,
    ensures
        percentage((elapsed, 0), (duration, 0)) == elapsed * 100 / duration,
{
    reveal_with_fuel(pow10, 2);
    assert(elapsed * 1 * 100 == elapsed * 100);
    assert(duration * 1 == duration);
    assert(elapsed * 100 / duration <= 100) by (nonlinear_arith)
        requires
            duration > 0,
            elapsed <= duration,
    ;
}

/// A response that lacks `elapsed` or `duration` counts as played in
/// full.
pub proof fn lemma_progress_without_times(entries: Seq<Seq<char>>)
    requires
        lookup(entries, "elapsed"@) is None || lookup(entries, "duration"@) is None,
    ensures
        progress_of(entries) == Some(100nat),
{
}

/// Of two quotients with positive divisors, the one that is no larger as a
/// fraction is no larger rounded down.
proof fn lemma_floor_is_ordered(low: nat, low_by: nat, high: nat, high_by: nat)
    requires
        low_by > 0,
        high_by > 0,
        low * high_by <= high * low_by,
    ensures
        low / low_by <= high / high_by,
{
    let q = low / low_by;
    vstd::arithmetic::div_mod::lemma_fundamental_div_mod(low as int, low_by as int);
    vstd::arithmetic::div_mod::lemma_fundamental_div_mod(high as int, high_by as int);
    assert(q * low_by <= low) by (nonlinear_arith)
        requires
            low == low_by * ((low as int) / (low_by as int)) + (low as int) % (low_by as int),
            0 <= (low as int) % (low_by as int),
            q == (low as int) / (low_by as int),
    ;
    assert(0 <= (low as int) % (low_by as int)) by (nonlinear_arith)
        requires
            low_by > 0,
            low >= 0,
    ;
    assert(q * high_by <= high) by (nonlinear_arith)
        requires
            q * low_by <= low,
            low * high_by <= high * low_by,
            low_by > 0,
            high_by > 0,
            q >= 0,
    ;
    assert((high as int) % (high_by as int) < high_by) by (nonlinear_arith)
        requires
            high_by > 0,
    ;
    assert(q <= (high as int) / (high_by as int)) by (nonlinear_arith)
        requires
            q * high_by <= high,
            high == high_by * ((high as int) / (high_by as int)) + (high as int) % (
            high_by as int),
            (high as int) % (high_by as int) < high_by,
            high_by > 0,
    ;
}

/// The percentage grows with the time elapsed: where no less has elapsed,
/// the percentage is no smaller. The two times are compared after both
/// were scaled by the same power of ten.
pub proof fn lemma_percentage_grows(earlier: (nat, nat), later: (nat, nat), duration: (nat, nat))
    requires
        earlier.0 * pow10(later.1) <= later.0 * pow10(earlier.1),
    ensures
        percentage(earlier, duration) <= percentage(later, duration),
{
    let up = pow10(duration.1);
    let low = earlier.0 * up * 100;
    let high = later.0 * up * 100;
    let low_by = duration.0 * pow10(earlier.1);
    let high_by = duration.0 * pow10(later.1);
    lemma_pow10_positive(earlier.1);
    lemma_pow10_positive(later.1);
    lemma_pow10_positive(duration.1);
    if duration.0 == 0 {
        assert(low_by == 0 && high_by == 0) by (nonlinear_arith)
            requires
                duration.0 == 0,
                low_by == duration.0 * pow10(earlier.1),
                high_by == duration.0 * pow10(later.1),
        ;
        if high == 0 {
            assert(later.0 == 0) by (nonlinear_arith)
                requires
                    high == later.0 * up * 100,
                    high == 0,
                    up >= 1,
            ;
            assert(earlier.0 == 0) by (nonlinear_arith)
                requires
                    earlier.0 * pow10(later.1) <= later.0 * pow10(earlier.1),
                    later.0 == 0,
                    pow10(later.1) >= 1,
            ;
            assert(low == 0) by (nonlinear_arith)
                requires
                    low == earlier.0 * up * 100,
                    earlier.0 == 0,
            ;
        }
    } else {
        assert(low_by > 0 && high_by > 0) by (nonlinear_arith)
            requires
                duration.0 > 0,
                pow10(earlier.1) >= 1,
                pow10(later.1) >= 1,
                low_by == duration.0 * pow10(earlier.1),
                high_by == duration.0 * pow10(later.1),
        ;
        assert(low * high_by <= high * low_by) by (nonlinear_arith)
            requires
                earlier.0 * pow10(later.1) <= later.0 * pow10(earlier.1),
                low == earlier.0 * up * 100,
                high == later.0 * up * 100,
                low_by == duration.0 * pow10(earlier.1),
                high_by == duration.0 * pow10(later.1),
                up >= 1,
        ;
        lemma_floor_is_ordered(low, low_by, high, high_by);
    }
}

} // verus!
