//! The wireless network and the strength of its signal.

use crate::text::{
    chars_of, decimal, fixed_point, lines, parse_fixed, pow10, power_of_ten, push_decimal,
    round_half_even,
    rounded, slice_of, split_lines, split_words, string_of, trim, trimmed, views, words,
};
use crate::{Fragment, WidgetOutput};
use std::time::Duration;
use vstd::prelude::*;

verus! {

/// The source for the wireless network.
pub struct Wifi {
    interval: Duration,
}

/// The name of the network as the query prints it: its output without the
/// white space around it. Nothing where nothing else is printed.
pub open spec fn ssid_of(output: Seq<char>) -> Option<Seq<char>> {
    if trimmed(output).len() == 0 {
        None
    } else {
        Some(trimmed(output))
    }
}

/// The size of the decimal fraction that `word` writes, whatever its
/// sign, as a pair `(m, p)` that stands for `m / 10^p`.
pub open spec fn magnitude(word: Seq<char>) -> Option<(nat, nat)> {
    if word.len() > 0 && word[0] == '-' {
        if word.len() > 1 && word[1] == '+' {
            None
        } else {
            fixed_point(word.drop_first())
        }
    } else {
        fixed_point(word)
    }
}

/// The quality of the link as the kernel's table gives it: the size of the
/// fourth word of the third line, times ten sevenths, rounded to a whole
/// number. Nothing where the table has no such word, or where the word
/// writes no number.
pub open spec fn quality_of(table: Seq<char>) -> Option<nat> {
    let rows = lines(table);
    if rows.len() <= 2 {
        None
    } else {
        let parts = words(rows[2]);
        if parts.len() <= 3 {
            None
        } else {
            match magnitude(parts[3]) {
                Some((m, p)) => Some(round_half_even(m * 10, 7 * pow10(p))),
                None => None,
            }
        }
    }
}

/// The fragment for a network and the quality of its link; a notice where
/// either is missing.
pub open spec fn link_fragment(ssid: Option<Seq<char>>, quality: Option<nat>) -> Fragment {
    Fragment {
        text: match (ssid, quality) {
            (Some(ssid), Some(quality)) => ssid + " - "@ + decimal(quality),
            _ => "Not Connected"@,
        },
        use_default_background: true,
        use_default_foreground: true,
    }
}

fn read_magnitude(word: &Vec<char>) -> (out: Option<(u64, u8)>)
    ensures
        out matches Some(pair) ==> magnitude(word@) == Some((pair.0 as nat, pair.1 as nat)),
        out matches Some(pair) ==> pair.0 < 1_000_000_000_000_000_000 && pair.1 <= 18,
        out is None ==> magnitude(word@) is None,
{
    if word.len() > 0 && word[0] == '-' {
        if word.len() > 1 && word[1] == '+' {
            None
        } else {
            let body = slice_of(word, 1, word.len());
            assert(body@ =~= word@.drop_first());
            parse_fixed(&body)
        }
    } else {
        parse_fixed(word)
    }
}

impl Wifi {
    /// The pause between two polls.
    pub closed spec fn period(&self) -> Duration {
        self.interval
    }

    /// A source that is polled every `interval`.
    pub fn new(interval: Duration) -> (wifi: Self)
        ensures
            wifi.period() == interval,
    {
        Self { interval }
    }

    /// The pause between two polls.
    pub fn interval(&self) -> (interval: Duration)
        ensures
            interval == self.period(),
    {
        self.interval
    }

    /// Does nothing: this source streams nothing.
    pub fn stream_output(&self) {
    }

    /// Reads the quality of the link from the kernel's table of wireless
    /// interfaces.
    pub fn get_current_wifi_quality(table: &str) -> (quality: Option<u64>)
        ensures
            quality matches Some(q) ==> quality_of(table@) == Some(q as nat),
            quality is None ==> quality_of(table@) is None,
    {
        let chars = chars_of(table);
        let rows = split_lines(&chars);
        if rows.len() <= 2 {
            return None;
        }
        assert(views(rows@)[2] == rows@[2]@);
        let parts = split_words(&rows[2]);
        if parts.len() <= 3 {
            return None;
        }
        assert(views(parts@)[3] == parts@[3]@);
        match read_magnitude(&parts[3]) {
            Some((m, p)) => {
                let quality = rounded(m as u128 * 10, 7 * power_of_ten(p));
                assert(quality <= m * 10) by (nonlinear_arith)
                    requires
                        quality == round_half_even((m * 10) as nat, (7 * pow10(p as nat)) as nat),
                        pow10(p as nat) >= 1,
                {
                    let num = (m * 10) as nat;
                    let den = (7 * pow10(p as nat)) as nat;
                    assert(den >= 7);
                    assert(num / den <= num);
                    assert(num % den > 0 ==> num / den < num);
                }
                Some(quality as u64)
            },
            None => None,
        }
    }

    /// Reads the name of the network from what the query printed.
    pub fn get_wifi_ssid(output: &str) -> (ssid: Option<String>)
        ensures
            ssid matches Some(name) ==> ssid_of(output@) == Some(name@),
            ssid is None ==> ssid_of(output@) is None,
    {
        let chars = chars_of(output);
        let name = trim(&chars);
        if name.len() == 0 {
            None
        } else {
            Some(string_of(&name))
        }
    }

    /// The fragment for a network and the quality of its link.
    pub fn get_output(&self, ssid: Option<&str>, quality: Option<u64>) -> (out: WidgetOutput)
        ensures
            out@ == link_fragment(
                match ssid {
                    Some(name) => Some(name@),
                    None => None,
                },
                match quality {
                    Some(q) => Some(q as nat),
                    None => None,
                },
            ),
    {
        let text = match (ssid, quality) {
            (Some(name), Some(q)) => {
                let mut text = String::from_str(name);
                text.append(" - ");
                push_decimal(&mut text, q as u128);
                text
            },
            _ => String::from_str("Not Connected"),
        };
        WidgetOutput { text, use_default_background: true, use_default_foreground: true }
    }
}

} // verus!
