//! The battery: its charge, and when to warn about it.

use crate::levels::{covering, find_covering, marks, scale};
use crate::text::{push_whole, whole};
use crate::{Fragment, WidgetOutput};
use std::time::Duration;
use vstd::prelude::*;

verus! {

/// What the battery is doing.
#[derive(Debug, Clone, Copy, PartialEq, Eq, Structural)]
pub enum Charge {
    Unknown,
    Charging,
    Discharging,
    Empty,
    Full,
}

/// A warning to send to the desktop.
#[derive(Debug, Clone, Copy, PartialEq, Eq, Structural)]
pub enum Notice {
    /// The charge is at or below the lowest limit.
    Critical,
    /// The battery is full.
    Full,
}

/// When each warning was last sent, in nanoseconds of the clock.
pub struct Sent {
    pub critical: Option<u64>,
    pub full: Option<u64>,
}

/// The source for the battery, with the times of its last warnings.
#[derive(Debug)]
pub struct Battery {
    interval: Duration,
    tresholds: Vec<(u64, String)>,
    ac_color: String,
    charging_color: String,
    last_notify_critical: Option<u64>,
    last_notify_full: Option<u64>,
}

/// The shortest pause between two warnings of a critical charge: one
/// minute, in nanoseconds.
pub const CRITICAL_PAUSE: u64 = 60_000_000_000;

/// The shortest pause between two warnings of a full battery: a quarter
/// of an hour, in nanoseconds.
pub const FULL_PAUSE: u64 = 900_000_000_000;

/// The scale of the charge: limits in percent.
pub open spec fn charge_scale() -> Seq<(nat, Seq<char>)> {
    seq![(25nat, "#FF0000"@), (35nat, "#F2665F"@), (50nat, "#E9A072"@)]
}

/// Whether a warning is due: it was never sent, or at least `pause`
/// nanoseconds ago.
pub open spec fn due(last: Option<u64>, now: u64, pause: u64) -> bool {
    match last {
        None => true,
        Some(then) => now - then >= pause,
    }
}

/// The sign of a battery that is full or on mains, in `colour`.
pub open spec fn mains_text(colour: Seq<char>) -> Seq<char> {
    "<span foreground='"@ + colour + "'><b>\u{fe07}\u{f0e7}</b></span>"@
}

/// The charge in percent, rounded to a whole number, after the sign of a
/// battery in use. `charge` is in thousandths of a percent.
pub open spec fn charge_text(charge: nat) -> Seq<char> {
    "\u{f0e7} "@ + whole(charge, 1000)
}

/// The fragment for a reading of the battery.
pub open spec fn charge_fragment(
    scale: Seq<(nat, Seq<char>)>,
    colours: (Seq<char>, Seq<char>),
    reading: Option<(Charge, u64)>,
) -> Fragment {
    match reading {
        None => Fragment {
            text: "<span foreground='grey'>No Battery</span>"@,
            use_default_background: true,
            use_default_foreground: true,
        },
        Some((Charge::Unknown, _)) | Some((Charge::Full, _)) => Fragment {
            text: mains_text(colours.0),
            use_default_background: true,
            use_default_foreground: false,
        },
        Some((Charge::Charging, charge)) => Fragment {
            text: "<span foreground='"@ + colours.1 + "'>[C] "@ + whole(charge as nat, 1000)
                + "</span>"@,
            use_default_background: true,
            use_default_foreground: false,
        },
        Some((Charge::Discharging, charge)) => Fragment {
            text: match covering(scale, charge as nat, 1000, 0) {
                Some(i) => "<span foreground='"@ + scale[i].1 + "'>"@ + charge_text(charge as nat)
                    + "</span>"@,
                None => charge_text(charge as nat),
            },
            use_default_background: true,
            use_default_foreground: true,
        },
        Some((Charge::Empty, _)) => Fragment {
            text: mains_text("red"@),
            use_default_background: true,
            use_default_foreground: false,
        },
    }
}

/// The warning that a reading calls for at `now`: of a full battery while
/// it is full or its state unknown, of a critical charge while it
/// discharges at or below the lowest limit; each only when it is due.
pub open spec fn notice_for(
    scale: Seq<(nat, Seq<char>)>,
    sent: Sent,
    reading: Option<(Charge, u64)>,
    now: u64,
) -> Option<Notice> {
    match reading {
        Some((Charge::Unknown, _)) | Some((Charge::Full, _)) => if due(sent.full, now, FULL_PAUSE) {
            Some(Notice::Full)
        } else {
            None
        },
        Some((Charge::Discharging, charge)) => if covering(scale, charge as nat, 1000, 0) == Some(
            0int,
        ) && due(sent.critical, now, CRITICAL_PAUSE) {
            Some(Notice::Critical)
        } else {
            None
        },
        _ => None,
    }
}

/// When each warning was last sent, after a reading at `now`. A warning
/// that is sent is sent at `now`; a battery that charges forgets its last
/// critical warning, one that discharges its last warning of being full.
pub open spec fn sent_after(
    scale: Seq<(nat, Seq<char>)>,
    sent: Sent,
    reading: Option<(Charge, u64)>,
    now: u64,
) -> Sent {
    let notice = notice_for(scale, sent, reading, now);
    match reading {
        Some((Charge::Unknown, _)) | Some((Charge::Full, _)) => Sent {
            critical: sent.critical,
            full: if notice is Some {
                Some(now)
            } else {
                sent.full
            },
        },
        Some((Charge::Charging, _)) => Sent { critical: None, full: sent.full },
        Some((Charge::Discharging, _)) => Sent {
            critical: if notice is Some {
                Some(now)
            } else {
                sent.critical
            },
            full: None,
        },
        _ => sent,
    }
}

fn is_due(last: Option<u64>, now: u64, pause: u64) -> (yes: bool)
    ensures
        yes == due(last, now, pause),
{
    match last {
        None => true,
        Some(then) => now >= then && now - then >= pause,
    }
}

fn mains(colour: &str) -> (text: String)
    ensures
        text@ == mains_text(colour@),
{
    let mut text = String::from_str("<span foreground='");
    text.append(colour);
    text.append("'><b>\u{fe07}\u{f0e7}</b></span>");
    text
}

fn charge_shown(charge: u64) -> (text: String)
    ensures
        text@ == charge_text(charge as nat),
{
    let mut text = String::from_str("\u{f0e7} ");
    push_whole(&mut text, charge as u128, 1000);
    text
}

impl Battery {
    /// The pause between two polls.
    pub closed spec fn period(&self) -> Duration {
        self.interval
    }

    /// The limits and colours of the scale.
    pub closed spec fn scale(&self) -> Seq<(nat, Seq<char>)> {
        marks(self.tresholds@)
    }

    /// The colours of a battery on mains and of one that charges.
    pub closed spec fn colours(&self) -> (Seq<char>, Seq<char>) {
        (self.ac_color@, self.charging_color@)
    }

    /// When each warning was last sent.
    pub closed spec fn sent(&self) -> Sent {
        Sent { critical: self.last_notify_critical, full: self.last_notify_full }
    }

    /// A source that is polled every `interval` and has sent no warning
    /// yet.
    pub fn new(interval: Duration) -> (battery: Self)
        ensures
            battery.period() == interval,
            battery.scale() == charge_scale(),
            battery.colours() == ("cyan"@, "cyan"@),
            battery.sent() == (Sent { critical: None, full: None }),
    {
        Self {
            interval,
            ac_color: String::from_str("cyan"),
            charging_color: String::from_str("cyan"),
            tresholds: scale((25, "#FF0000"), (35, "#F2665F"), (50, "#E9A072")),
            last_notify_critical: None,
            last_notify_full: None,
        }
    }

    /// The pause between two polls.
    pub fn interval(&self) -> (interval: Duration)
        ensures
            interval == self.period(),
    {
        self.interval
    }

    /// The fragment for a reading taken when the clock stood at `now`
    /// nanoseconds, and the warning to send with it, if any. `reading`
    /// holds the state of the battery and its charge in thousandths of a
    /// percent, or nothing where there is no battery to read.
    pub fn get_output(&mut self, reading: Option<(Charge, u64)>, now: u64) -> (out: (
        WidgetOutput,
        Option<Notice>,
    ))
        ensures
            out.0@ == charge_fragment(old(self).scale(), old(self).colours(), reading),
            out.1 == notice_for(old(self).scale(), old(self).sent(), reading, now),
            final(self).sent() == sent_after(old(self).scale(), old(self).sent(), reading, now),
            final(self).period() == old(self).period(),
            final(self).scale() == old(self).scale(),
            final(self).colours() == old(self).colours(),
    {
        match reading {
            None => (
                WidgetOutput {
                    text: String::from_str("<span foreground='grey'>No Battery</span>"),
                    use_default_background: true,
                    use_default_foreground: true,
                },
                None,
            ),
            Some((Charge::Unknown, _)) | Some((Charge::Full, _)) => {
                let notice = if is_due(self.last_notify_full, now, FULL_PAUSE) {
                    self.last_notify_full = Some(now);
                    Some(Notice::Full)
                } else {
                    None
                };
                (
                    WidgetOutput {
                        text: mains(self.ac_color.as_str()),
                        use_default_background: true,
                        use_default_foreground: false,
                    },
                    notice,
                )
            },
            Some((Charge::Charging, charge)) => {
                self.last_notify_critical = None;
                let mut text = String::from_str("<span foreground='");
                text.append(self.charging_color.as_str());
                text.append("'>[C] ");
                push_whole(&mut text, charge as u128, 1000);
                text.append("</span>");
                (
                    WidgetOutput {
                        text,
                        use_default_background: true,
                        use_default_foreground: false,
                    },
                    None,
                )
            },
            Some((Charge::Discharging, charge)) => {
                self.last_notify_full = None;
                let level = find_covering(&self.tresholds, charge as u128, 1000);
                let mut notice = None;
                let text = match level {
                    Some(i) => {
                        if i == 0 && is_due(self.last_notify_critical, now, CRITICAL_PAUSE) {
                            self.last_notify_critical = Some(now);
                            notice = Some(Notice::Critical);
                        }
                        let mut text = String::from_str("<span foreground='");
                        text.append(self.tresholds[i].1.as_str());
                        text.append("'>");
                        text.append(charge_shown(charge).as_str());
                        text.append("</span>");
                        text
                    },
                    None => charge_shown(charge),
                };
                (
                    WidgetOutput {
                        text,
                        use_default_background: true,
                        use_default_foreground: true,
                    },
                    notice,
                )
            },
            Some((Charge::Empty, _)) => (
                WidgetOutput {
                    text: mains("red"),
                    use_default_background: true,
                    use_default_foreground: false,
                },
                None,
            ),
        }
    }
}

} // verus!
