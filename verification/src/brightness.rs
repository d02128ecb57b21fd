//! The brightness of the backlight.

use crate::text::{chars_of, natural, parse_natural, push_whole, trim, trimmed, whole};
use crate::{Fragment, WidgetOutput};
use std::time::Duration;
use vstd::prelude::*;

verus! {

/// The source for the level of the backlight.
#[derive(Debug)]
pub struct Brightness {
    interval: Duration,
    icon: String,
}

/// The level at which the backlight is fully on.
pub const FULL: u64 = 7500;

/// The level that the backlight's file holds: a natural number with white
/// space around it. Nothing where the file holds anything else, or a
/// number beyond 64 bits.
pub open spec fn level_of(content: Seq<char>) -> Option<nat> {
    match natural(trimmed(content)) {
        Some(level) if level <= u64::MAX => Some(level),
        _ => None,
    }
}

/// The fragment for a level: the icon and the level as a share of the full
/// level, in percent, rounded to a whole number.
pub open spec fn level_fragment(icon: Seq<char>, level: nat) -> Fragment {
    Fragment {
        text: icon + " "@ + whole(level * 100, FULL as nat),
        use_default_background: true,
        use_default_foreground: true,
    }
}

impl Brightness {
    /// The pause between two polls.
    pub closed spec fn period(&self) -> Duration {
        self.interval
    }

    /// The glyph in front of the level.
    pub closed spec fn glyph(&self) -> Seq<char> {
        self.icon@
    }

    /// A source that is polled every `interval`.
    pub fn new(interval: Duration) -> (brightness: Self)
        ensures
            brightness.period() == interval,
            brightness.glyph() == "\u{ef}\u{2020}\u{2026}"@,
    {
        Self { interval, icon: String::from_str("\u{ef}\u{2020}\u{2026}") }
    }

    /// The pause between two polls.
    pub fn interval(&self) -> (interval: Duration)
        ensures
            interval == self.period(),
    {
        self.interval
    }

    /// Reads the level from what the backlight's file holds.
    pub fn get_file_content(content: &str) -> (level: Option<u64>)
        ensures
            level matches Some(n) ==> level_of(content@) == Some(n as nat),
            level is None ==> level_of(content@) is None,
    {
        let chars = chars_of(content);
        let body = trim(&chars);
        parse_natural(&body, u64::MAX)
    }

    /// The fragment for a level.
    pub fn get_output(&self, level: u64) -> (out: WidgetOutput)
        ensures
            out@ == level_fragment(self.glyph(), level as nat),
    {
        let mut text = self.icon.clone();
        text.append(" ");
        push_whole(&mut text, level as u128 * 100, FULL as u128);
        WidgetOutput { text, use_default_background: true, use_default_foreground: true }
    }
}

} // verus!
