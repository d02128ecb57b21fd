//! The volume of the sound card's master channel.

use crate::text::{
    chars_of, decimal, find_char, first_char, natural, parse_natural, push_decimal, same, slice_of,
    split_words, views, words,
};
use crate::{Fragment, WidgetOutput};
use std::time::Duration;
use vstd::prelude::*;

verus! {

/// The source for the volume of the master channel.
pub struct Alsa {
    interval: Duration,
    icon: String,
}

/// What stands between the first character of `word` and its first
/// percent sign.
pub open spec fn share_in(word: Seq<char>) -> Seq<char> {
    let body = if word.len() > 0 {
        word.drop_first()
    } else {
        word
    };
    body.take(first_char(body, '%', 0))
}

/// Volume and mute switch as the mixer's line for one channel gives them:
/// the fifth word holds the volume in percent, in square brackets, and the
/// sixth word is `[off]` on a muted channel. Nothing where the line has no
/// fifth word, or where that word holds no number up to 255.
pub open spec fn volume_of(line: Seq<char>) -> Option<(nat, bool)> {
    let parts = words(line);
    if parts.len() <= 4 {
        None
    } else {
        match natural(share_in(parts[4])) {
            Some(volume) if volume <= 255 => Some(
                (volume, parts.len() > 5 && parts[5] == "[off]"@),
            ),
            _ => None,
        }
    }
}

/// The fragment for a reading of the mixer: icon and volume, in red
/// italics on a muted channel; a notice in red italics where there is no
/// reading.
pub open spec fn volume_fragment(icon: Seq<char>, reading: Option<(nat, bool)>) -> Fragment {
    Fragment {
        text: match reading {
            Some((volume, muted)) => if muted {
                "<span foreground='red'><i>"@ + icon + " "@ + decimal(volume) + "</i></span>"@
            } else {
                icon + " "@ + decimal(volume)
            },
            None => "<span foreground='red'><i>Can't get volume</i></span>"@,
        },
        use_default_background: true,
        use_default_foreground: true,
    }
}

impl Alsa {
    /// The pause between two polls.
    pub closed spec fn period(&self) -> Duration {
        self.interval
    }

    /// The glyph in front of the volume.
    pub closed spec fn glyph(&self) -> Seq<char> {
        self.icon@
    }

    /// A source that is polled every `interval`.
    pub fn new(interval: Duration) -> (alsa: Self)
        ensures
            alsa.period() == interval,
            alsa.glyph() == "\u{f2a0}"@,
    {
        Self { interval, icon: String::from_str("\u{f2a0}") }
    }

    /// The pause between two polls.
    pub fn interval(&self) -> (interval: Duration)
        ensures
            interval == self.period(),
    {
        self.interval
    }

    /// Reads volume and mute switch from the mixer's line for one channel.
    pub fn get_volume(line: &str) -> (reading: Option<(u8, bool)>)
        ensures
            reading matches Some(pair) ==> volume_of(line@) == Some((pair.0 as nat, pair.1)),
            reading is None ==> volume_of(line@) is None,
    {
        let chars = chars_of(line);
        let parts = split_words(&chars);
        if parts.len() <= 4 {
            return None;
        }
        assert(views(parts@)[4] == parts@[4]@);
        let word = &parts[4];
        let body = if word.len() > 0 {
            slice_of(word, 1, word.len())
        } else {
            slice_of(word, 0, 0)
        };
        assert(body@ =~= if word@.len() > 0 {
            word@.drop_first()
        } else {
            word@
        });
        let stop = find_char(&body, '%');
        let digits = slice_of(&body, 0, stop);
        assert(digits@ =~= share_in(word@));
        match parse_natural(&digits, 255) {
            Some(volume) => {
                let off = chars_of("[off]");
                let muted = if parts.len() > 5 {
                    assert(views(parts@)[5] == parts@[5]@);
                    same(&parts[5], &off)
                } else {
                    false
                };
                Some((volume as u8, muted))
            },
            None => None,
        }
    }

    /// The fragment for a reading of the mixer.
    pub fn get_output(&self, reading: Option<(u8, bool)>) -> (out: WidgetOutput)
        ensures
            out@ == volume_fragment(
                self.glyph(),
                match reading {
                    Some(pair) => Some((pair.0 as nat, pair.1)),
                    None => None,
                },
            ),
    {
        let text = match reading {
            Some((volume, muted)) => {
                if muted {
                    let mut text = String::from_str("<span foreground='red'><i>");
                    text.append(self.icon.as_str());
                    text.append(" ");
                    push_decimal(&mut text, volume as u128);
                    text.append("</i></span>");
                    text
                } else {
                    let mut text = self.icon.clone();
                    text.append(" ");
                    push_decimal(&mut text, volume as u128);
                    text
                }
            },
            None => String::from_str("<span foreground='red'><i>Can't get volume</i></span>"),
        };
        WidgetOutput { text, use_default_background: true, use_default_foreground: true }
    }
}

} // verus!
