//! The load of the processor.

use crate::levels::{find_reached, marks, reached, scale};
use crate::text::{chars_of, push_right_aligned, push_whole, right_aligned, whole};
use crate::{Fragment, WidgetOutput};
use std::time::Duration;
use vstd::prelude::*;

verus! {

/// The source for the load of the processor.
pub struct CPU {
    interval: Duration,
    tresholds: Vec<(u64, String)>,
    icon: String,
}

/// The scale of the load: limits in percent.
pub open spec fn load_scale() -> Seq<(nat, Seq<char>)> {
    seq![(35nat, "#E9A072"@), (50nat, "#F2665F"@), (80nat, "#FF0000"@)]
}

/// Icon and load; the load rounded to a whole number, in a field of two
/// characters.
pub open spec fn load_text(icon: Seq<char>, load: nat) -> Seq<char> {
    icon + " "@ + right_aligned(whole(load, 1000), 2)
}

/// The fragment for a load, which is given in thousandths of a percent:
/// icon and load, in the colour of the last limit that the load has
/// reached.
pub open spec fn load_fragment(icon: Seq<char>, scale: Seq<(nat, Seq<char>)>, load: nat) -> Fragment {
    Fragment {
        text: match reached(scale, load, 1000) {
            Some(i) => "<span foreground='"@ + scale[i].1 + "'>"@ + load_text(icon, load)
                + "</span>"@,
            None => load_text(icon, load),
        },
        use_default_background: true,
        use_default_foreground: true,
    }
}

impl CPU {
    /// The pause between two polls.
    pub closed spec fn period(&self) -> Duration {
        self.interval
    }

    /// The glyph in front of the load.
    pub closed spec fn glyph(&self) -> Seq<char> {
        self.icon@
    }

    /// The limits and colours of the scale.
    pub closed spec fn scale(&self) -> Seq<(nat, Seq<char>)> {
        marks(self.tresholds@)
    }

    /// A source that is polled every `interval`.
    pub fn new(interval: Duration) -> (cpu: Self)
        ensures
            cpu.period() == interval,
            cpu.glyph() == "\u{f0e4}"@,
            cpu.scale() == load_scale(),
    {
        Self {
            interval,
            tresholds: scale((35, "#E9A072"), (50, "#F2665F"), (80, "#FF0000")),
            icon: String::from_str("\u{f0e4}"),
        }
    }

    /// The pause between two polls.
    pub fn interval(&self) -> (interval: Duration)
        ensures
            interval == self.period(),
    {
        self.interval
    }

    fn plain(&self, load: u64) -> (text: String)
        ensures
            text@ == load_text(self.glyph(), load as nat),
    {
        let mut number = String::new();
        push_whole(&mut number, load as u128, 1000);
        assert(number@ =~= whole(load as nat, 1000));
        let digits = chars_of(number.as_str());
        let mut text = self.icon.clone();
        text.append(" ");
        push_right_aligned(&mut text, &digits, 2);
        text
    }

    /// The fragment for a load in thousandths of a percent.
    pub fn get_output(&self, load: u64) -> (out: WidgetOutput)
        ensures
            out@ == load_fragment(self.glyph(), self.scale(), load as nat),
    {
        let plain = self.plain(load);
        let text = match find_reached(&self.tresholds, load as u128, 1000) {
            Some(i) => {
                let mut text = String::from_str("<span foreground='");
                text.append(self.tresholds[i].1.as_str());
                text.append("'>");
                text.append(plain.as_str());
                text.append("</span>");
                text
            },
            None => plain,
        };
        WidgetOutput { text, use_default_background: true, use_default_foreground: true }
    }
}

} // verus!
