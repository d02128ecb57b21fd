//! The share of the memory that is in use.

use crate::levels::{find_reached, marks, reached, scale};
use crate::text::{push_whole, round_half_even, rounded, whole};
use crate::{Fragment, Widget, WidgetOutput};
use std::time::Duration;
use vstd::prelude::*;

verus! {

/// `sysinfo::System`, the handle through which the machine's figures are
/// read. Nothing is known of what it holds.
#[verifier::external_type_specification]
#[verifier::external_body]
pub struct ExSystem(sysinfo::System);

/// `System::new` makes a handle that has read nothing yet: every figure
/// in it is zero until it is refreshed.
#[verifier::external_body]
fn load_system() -> sysinfo::System {
    sysinfo::System::new()
}

/// `System::refresh_memory` reads the machine's memory figures anew.
#[verifier::external_body]
fn refresh_memory(system: &mut sysinfo::System) {
    system.refresh_memory()
}

/// `System::available_memory` gives the bytes that were free for use at
/// the last refresh.
#[verifier::external_body]
fn available_memory(system: &sysinfo::System) -> u64 {
    system.available_memory()
}

/// `System::total_memory` gives the machine's memory in bytes, as of the
/// last refresh.
#[verifier::external_body]
fn total_memory(system: &sysinfo::System) -> u64 {
    system.total_memory()
}

/// The source for the memory in use.
pub struct Memory {
    interval: Duration,
    system: sysinfo::System,
    tresholds: Vec<(u64, String)>,
    icon: String,
}

/// The scale of the memory in use: limits in percent.
pub open spec fn use_scale() -> Seq<(nat, Seq<char>)> {
    seq![(35nat, "#E9A072"@), (50nat, "#F2665F"@), (80nat, "#FF0000"@)]
}

/// The bytes in use: what of the total is not available; none where more
/// is reported available than there is.
pub open spec fn in_use(total: nat, available: nat) -> nat {
    if available > total {
        0
    } else {
        (total - available) as nat
    }
}

/// The memory in use as a fraction `(num, den)` of a hundred: `used * 100
/// / total`; zero on a machine that reports no memory.
pub open spec fn use_ratio(used: nat, total: nat) -> (nat, nat) {
    if total == 0 {
        (0, 1)
    } else {
        (used * 100, total)
    }
}

/// The memory in use in percent, rounded to a whole number.
pub open spec fn use_share(used: nat, total: nat) -> nat {
    round_half_even(use_ratio(used, total).0, use_ratio(used, total).1)
}

/// Icon and share in use.
pub open spec fn use_text(icon: Seq<char>, used: nat, total: nat) -> Seq<char> {
    icon + " "@ + whole(use_ratio(used, total).0, use_ratio(used, total).1)
}

/// The fragment for the memory in use: icon and share; in the colour of
/// the last limit that the share has reached, where it has reached one.
pub open spec fn use_fragment(
    icon: Seq<char>,
    scale: Seq<(nat, Seq<char>)>,
    used: nat,
    total: nat,
) -> Fragment {
    match reached(scale, use_ratio(used, total).0, use_ratio(used, total).1) {
        Some(i) => Fragment {
            text: "<span foreground='"@ + scale[i].1 + "'>"@ + use_text(icon, used, total)
                + "</span>"@,
            use_default_background: true,
            use_default_foreground: false,
        },
        None => Fragment {
            text: use_text(icon, used, total),
            use_default_background: true,
            use_default_foreground: true,
        },
    }
}

fn used_of(total: u64, available: u64) -> (used: u64)
    ensures
        used == in_use(total as nat, available as nat),
{
    if available > total {
        0
    } else {
        total - available
    }
}

fn ratio(used: u64, total: u64) -> (parts: (u128, u64))
    ensures
        (parts.0 as nat, parts.1 as nat) == use_ratio(used as nat, total as nat),
        parts.1 > 0,
{
    if total == 0 {
        (0, 1)
    } else {
        (used as u128 * 100, total)
    }
}

impl Memory {
    /// The pause between two polls.
    pub closed spec fn period(&self) -> Duration {
        self.interval
    }

    /// The glyph in front of the share.
    pub closed spec fn glyph(&self) -> Seq<char> {
        self.icon@
    }

    /// The limits and colours of the scale.
    pub closed spec fn scale(&self) -> Seq<(nat, Seq<char>)> {
        marks(self.tresholds@)
    }

    /// A source that is polled every `interval`, with a fresh handle on the
    /// machine's figures.
    pub fn new(interval: Duration) -> (memory: Self)
        ensures
            memory.period() == interval,
            memory.glyph() == "\u{ef}\u{2039}\u{203a}"@,
            memory.scale() == use_scale(),
    {
        Self {
            interval,
            system: load_system(),
            tresholds: scale((35, "#E9A072"), (50, "#F2665F"), (80, "#FF0000")),
            icon: String::from_str("\u{ef}\u{2039}\u{203a}"),
        }
    }

    /// The share of `used` in `total`, in percent.
    pub fn share(used: u64, total: u64) -> (percent: u128)
        ensures
            percent == use_share(used as nat, total as nat),
    {
        let parts = ratio(used, total);
        rounded(parts.0, parts.1 as u128)
    }

    /// Reads the machine's memory anew and gives the share in use, in
    /// percent.
    pub fn get_used_ram_percentage(&mut self) -> (percent: u128)
        ensures
            exists|total: nat, available: nat|
                percent == use_share(in_use(total, available), total),
            final(self).period() == old(self).period(),
            final(self).glyph() == old(self).glyph(),
            final(self).scale() == old(self).scale(),
    {
        refresh_memory(&mut self.system);
        let total = total_memory(&self.system);
        let available = available_memory(&self.system);
        let percent = Self::share(used_of(total, available), total);
        assert(percent == use_share(in_use(total as nat, available as nat), total as nat));
        percent
    }

    /// The fragment for `used` bytes in use out of `total`.
    pub fn render(&self, used: u64, total: u64) -> (out: WidgetOutput)
        ensures
            out@ == use_fragment(self.glyph(), self.scale(), used as nat, total as nat),
    {
        let parts = ratio(used, total);
        let mut plain = self.icon.clone();
        plain.append(" ");
        push_whole(&mut plain, parts.0, parts.1 as u128);
        match find_reached(&self.tresholds, parts.0, parts.1) {
            Some(i) => {
                let mut text = String::from_str("<span foreground='");
                text.append(self.tresholds[i].1.as_str());
                text.append("'>");
                text.append(plain.as_str());
                text.append("</span>");
                WidgetOutput { text, use_default_background: true, use_default_foreground: false }
            },
            None => WidgetOutput {
                text: plain,
                use_default_background: true,
                use_default_foreground: true,
            },
        }
    }
}

impl Widget for Memory {
    closed spec fn pause(&self) -> Duration {
        self.interval
    }

    fn get_output(&mut self) -> (out: WidgetOutput)
        ensures
            exists|total: nat, available: nat|
                out@ == use_fragment(
                    old(self).glyph(),
                    old(self).scale(),
                    in_use(total, available),
                    total,
                ),
            final(self).period() == old(self).period(),
            final(self).glyph() == old(self).glyph(),
            final(self).scale() == old(self).scale(),
    {
        refresh_memory(&mut self.system);
        let total = total_memory(&self.system);
        let available = available_memory(&self.system);
        let out = self.render(used_of(total, available), total);
        assert(out@ == use_fragment(
            old(self).glyph(),
            old(self).scale(),
            in_use(total as nat, available as nat),
            total as nat,
        ));
        out
    }

    fn interval(&self) -> (interval: Duration)
        ensures
            interval == self.period(),
    {
        self.interval
    }
}

} // verus!
