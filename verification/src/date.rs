//! The time of day.

use crate::{Fragment, Widget, WidgetOutput};
use std::fmt::Write;
use std::time::Duration;
use vstd::prelude::*;

verus! {

/// The source for the time of day.
#[derive(Debug, Copy, Clone)]
pub struct Date {
    interval: Duration,
}

/// The fragment that shows `text` in the colours of the line.
pub open spec fn date_fragment(text: Seq<char>) -> Fragment {
    Fragment { text, use_default_background: true, use_default_foreground: true }
}

/// `Local::now` reads the clock, and `format` writes the time after
/// `pattern`; what comes out depends on the moment. Where `pattern` holds
/// an item that chrono does not know, writing fails and nothing comes
/// back.
#[verifier::external_body]
fn get_date(pattern: &str) -> Option<String> {
    let mut text = String::new();
    match write!(text, "{}", chrono::Local::now().format(pattern)) {
        Ok(()) => Some(text),
        Err(_) => None,
    }
}

impl Date {
    /// The pause between two polls.
    pub closed spec fn period(&self) -> Duration {
        self.interval
    }

    /// A source that is polled every `interval`.
    pub fn new(interval: Duration) -> (date: Self)
        ensures
            date.period() == interval,
    {
        Self { interval }
    }

    /// The pattern after which the time is written: day of the week, day
    /// of the month, month, and the time of day to the second.
    pub fn pattern() -> (pattern: &'static str)
        ensures
            pattern@ == "%a, %d %b %H:%M:%S"@,
    {
        "%a, %d %b %H:%M:%S"
    }

    /// The fragment for a time that was written out already; an empty
    /// fragment where there is none.
    pub fn render(text: Option<String>) -> (out: WidgetOutput)
        ensures
            out@ == date_fragment(
                match text {
                    Some(text) => text@,
                    None => Seq::empty(),
                },
            ),
    {
        let text = match text {
            Some(text) => text,
            None => String::new(),
        };
        WidgetOutput { text, use_default_background: true, use_default_foreground: true }
    }
}

impl Widget for Date {
    closed spec fn pause(&self) -> Duration {
        self.interval
    }

    fn get_output(&mut self) -> (out: WidgetOutput)
        ensures
            out.use_default_background,
            out.use_default_foreground,
            final(self).period() == old(self).period(),
    {
        Self::render(get_date(Self::pattern()))
    }

    fn interval(&self) -> (interval: Duration)
        ensures
            interval == self.period(),
    {
        self.interval
    }
}

} // verus!
