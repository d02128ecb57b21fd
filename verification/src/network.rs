//! The throughput of a network interface.

use crate::text::{
    chars_of, end_trimmed_of, hundredths, natural, parse_natural, push_hundredths, push_whole,
    trim_end_of, whole,
};
use crate::{Fragment, WidgetOutput};
use std::time::Duration;
use vstd::prelude::*;

verus! {

/// The counters of an interface.
#[derive(Debug, Clone, Copy, PartialEq, Eq, Structural)]
pub struct NetworkStats {
    pub rx_bytes: u64,
    pub tx_bytes: u64,
    pub rx_packets: u64,
    pub tx_packets: u64,
    pub rx_errors: u64,
    pub tx_errors: u64,
}

/// The source for the throughput of one interface, with its last reading.
pub struct Network<'a> {
    interval: Duration,
    interface: &'a str,
    network_stats: Option<NetworkStats>,
    last_called: u64,
    rx_icon: String,
    tx_icon: String,
}

/// The file that holds the counter `name` of `interface`.
pub open spec fn stats_path(interface: Seq<char>, name: Seq<char>) -> Seq<char> {
    "/sys/class/net/"@ + interface + "/statistics/"@ + name
}

/// The complaint about a file that holds no number.
pub open spec fn complaint(path: Seq<char>) -> Seq<char> {
    "File: \""@ + path + "\" doesn't contain an int value"@
}

/// The counter that a file holds: a natural number of 64 bits, with or
/// without line feeds after it.
pub open spec fn value_of(content: Seq<char>) -> Option<nat> {
    match natural(end_trimmed_of(content, '\n')) {
        Some(value) if value <= u64::MAX => Some(value),
        _ => None,
    }
}

/// What reading the counter `name` of `interface` comes to.
pub open spec fn counter_of(interface: Seq<char>, name: Seq<char>, content: Seq<char>) -> Result<
    nat,
    Seq<char>,
> {
    match value_of(content) {
        Some(value) => Ok(value),
        None => Err(complaint(stats_path(interface, name))),
    }
}

/// The counters that six files hold, or the complaint about the first of
/// them, in the order of the fields, that holds no number.
pub open spec fn stats_of(interface: Seq<char>, contents: Seq<Seq<char>>) -> Result<
    NetworkStats,
    Seq<char>,
> {
    match counter_of(interface, "rx_bytes"@, contents[0]) {
        Err(complaint) => Err(complaint),
        Ok(rx_bytes) => match counter_of(interface, "tx_bytes"@, contents[1]) {
            Err(complaint) => Err(complaint),
            Ok(tx_bytes) => match counter_of(interface, "rx_packets"@, contents[2]) {
                Err(complaint) => Err(complaint),
                Ok(rx_packets) => match counter_of(interface, "tx_packets"@, contents[3]) {
                    Err(complaint) => Err(complaint),
                    Ok(tx_packets) => match counter_of(interface, "rx_errors"@, contents[4]) {
                        Err(complaint) => Err(complaint),
                        Ok(rx_errors) => match counter_of(interface, "tx_errors"@, contents[5]) {
                            Err(complaint) => Err(complaint),
                            Ok(tx_errors) => Ok(
                                NetworkStats {
                                    rx_bytes: rx_bytes as u64,
                                    tx_bytes: tx_bytes as u64,
                                    rx_packets: rx_packets as u64,
                                    tx_packets: tx_packets as u64,
                                    rx_errors: rx_errors as u64,
                                    tx_errors: tx_errors as u64,
                                },
                            ),
                        },
                    },
                },
            },
        },
    }
}

/// Whether two readings give a rate: there is an earlier reading, there
/// is a new one, no counter of bytes went back, and time has passed.
pub open spec fn measurable(
    before: Option<NetworkStats>,
    read_at: u64,
    stats: Option<NetworkStats>,
    now: u64,
) -> bool {
    &&& before matches Some(earlier)
    &&& stats matches Some(later)
    &&& later.rx_bytes >= earlier.rx_bytes
    &&& later.tx_bytes >= earlier.tx_bytes
    &&& now > read_at
}

/// The fragment shown while the interface gives no rate.
pub open spec fn no_network() -> Fragment {
    Fragment {
        text: "<span foreground='red'>No Network</span>"@,
        use_default_background: true,
        use_default_foreground: false,
    }
}

/// The fragment for a reading `stats` taken at `now`, after the reading
/// `before` taken at `read_at`: the rates received and sent since then,
/// or, where the two readings give no rate, the fragment that says so.
pub open spec fn throughput(
    glyphs: (Seq<char>, Seq<char>),
    before: Option<NetworkStats>,
    read_at: u64,
    stats: Option<NetworkStats>,
    now: u64,
) -> Fragment {
    if measurable(before, read_at, stats, now) {
        Fragment {
            text: rate_text(
                glyphs.0,
                (stats->0.rx_bytes - before->0.rx_bytes) as nat,
                (now - read_at) as nat,
            ) + "  "@ + rate_text(
                glyphs.1,
                (stats->0.tx_bytes - before->0.tx_bytes) as nat,
                (now - read_at) as nat,
            ),
            use_default_background: true,
            use_default_foreground: true,
        }
    } else {
        no_network()
    }
}

/// The rate of `bytes` in `nanos` nanoseconds: above one mebibyte per
/// second in mebibytes per second, with two fractional digits, bold and
/// blue; else in kibibytes per second, rounded to a whole number.
pub open spec fn rate_text(icon: Seq<char>, bytes: nat, nanos: nat) -> Seq<char> {
    if bytes * 1_000_000_000 > nanos * 1_048_576 {
        "<span foreground='blue'>"@ + icon + " <b>"@ + hundredths(
            bytes * 1_000_000_000,
            nanos * 1_048_576,
        ) + "</b></span>"@
    } else {
        icon + " "@ + whole(bytes * 1_000_000_000, nanos * 1024)
    }
}

/// Reads the counter that a file holds; `path` names the file in the
/// complaint.
pub fn value_from_file(path: &str, content: &str) -> (value: Result<u64, String>)
    ensures
        value matches Ok(found) ==> value_of(content@) == Some(found as nat),
        value matches Err(text) ==> value_of(content@) is None && text@ == complaint(path@),
{
    let chars = chars_of(content);
    let body = trim_end_of(&chars, '\n');
    match parse_natural(&body, u64::MAX) {
        Some(found) => Ok(found),
        None => {
            let mut text = String::from_str("File: \"");
            text.append(path);
            text.append("\" doesn't contain an int value");
            Err(text)
        },
    }
}

/// The path of the file that holds the counter `name` of `interface`.
pub fn stats_file(interface: &str, name: &str) -> (path: String)
    ensures
        path@ == stats_path(interface@, name@),
{
    let mut path = String::from_str("/sys/class/net/");
    path.append(interface);
    path.append("/statistics/");
    path.append(name);
    path
}

fn counter(interface: &str, name: &str, content: &str) -> (value: Result<u64, String>)
    ensures
        value matches Ok(found) ==> counter_of(interface@, name@, content@) == Ok::<nat, Seq<char>>(
            found as nat,
        ),
        value matches Err(text) ==> counter_of(interface@, name@, content@) == Err::<nat, _>(text@),
{
    let path = stats_file(interface, name);
    value_from_file(path.as_str(), content)
}

fn rate(icon: &str, bytes: u64, nanos: u64) -> (text: String)
    requires
        nanos > 0,
    ensures
        text@ == rate_text(icon@, bytes as nat, nanos as nat),
{
    let scaled: u128 = bytes as u128 * 1_000_000_000;
    if scaled > nanos as u128 * 1_048_576 {
        let mut text = String::from_str("<span foreground='blue'>");
        text.append(icon);
        text.append(" <b>");
        push_hundredths(&mut text, scaled, nanos as u128 * 1_048_576);
        text.append("</b></span>");
        text
    } else {
        let mut text = String::from_str(icon);
        text.append(" ");
        push_whole(&mut text, scaled, nanos as u128 * 1024);
        text
    }
}

impl<'a> Network<'a> {
    /// The pause between two polls.
    pub closed spec fn period(&self) -> Duration {
        self.interval
    }

    /// The name of the interface.
    pub closed spec fn name(&self) -> Seq<char> {
        self.interface@
    }

    /// The counters at the last reading that succeeded.
    pub closed spec fn stats(&self) -> Option<NetworkStats> {
        self.network_stats
    }

    /// The clock at the last reading that succeeded, in nanoseconds.
    pub closed spec fn read_at(&self) -> u64 {
        self.last_called
    }

    /// The glyphs in front of the rates: received, sent.
    pub closed spec fn glyphs(&self) -> (Seq<char>, Seq<char>) {
        (self.rx_icon@, self.tx_icon@)
    }

    /// A source for `interface` whose counters stood at `stats` when the
    /// clock stood at `now` nanoseconds; `stats` is nothing where they
    /// could not be read.
    pub fn new(
        interval: Duration,
        interface: &'a str,
        stats: Option<NetworkStats>,
        now: u64,
    ) -> (network:
        Self)
        ensures
            network.period() == interval,
            network.name() == interface@,
            network.stats() == stats,
            network.read_at() == now,
            network.glyphs() == ("\u{f0ed}"@, "\u{f0ee}"@),
    {
        Self {
            interval,
            interface,
            network_stats: stats,
            last_called: now,
            rx_icon: String::from_str("\u{f0ed}"),
            tx_icon: String::from_str("\u{f0ee}"),
        }
    }

    /// The pause between two polls.
    pub fn interval(&self) -> (interval: Duration)
        ensures
            interval == self.period(),
    {
        self.interval
    }

    /// The name of the interface.
    pub fn interface(&self) -> (interface: &'a str)
        ensures
            interface@ == self.name(),
    {
        self.interface
    }

    /// Reads the six counters of `interface` from what their files hold.
    pub fn get_network_stats(
        interface: &str,
        rx_bytes: &str,
        tx_bytes: &str,
        rx_packets: &str,
        tx_packets: &str,
        rx_errors: &str,
        tx_errors: &str,
    ) -> (stats: Result<NetworkStats, String>)
        ensures
            stats matches Ok(found) ==> stats_of(
                interface@,
                seq![rx_bytes@, tx_bytes@, rx_packets@, tx_packets@, rx_errors@, tx_errors@],
            ) == Ok::<_, Seq<char>>(found),
            stats matches Err(text) ==> stats_of(
                interface@,
                seq![rx_bytes@, tx_bytes@, rx_packets@, tx_packets@, rx_errors@, tx_errors@],
            ) == Err::<NetworkStats, _>(text@),
    {
        let rx_bytes = match counter(interface, "rx_bytes", rx_bytes) {
            Ok(value) => value,
            Err(text) => {
                return Err(text);
            },
        };
        let tx_bytes = match counter(interface, "tx_bytes", tx_bytes) {
            Ok(value) => value,
            Err(text) => {
                return Err(text);
            },
        };
        let rx_packets = match counter(interface, "rx_packets", rx_packets) {
            Ok(value) => value,
            Err(text) => {
                return Err(text);
            },
        };
        let tx_packets = match counter(interface, "tx_packets", tx_packets) {
            Ok(value) => value,
            Err(text) => {
                return Err(text);
            },
        };
        let rx_errors = match counter(interface, "rx_errors", rx_errors) {
            Ok(value) => value,
            Err(text) => {
                return Err(text);
            },
        };
        let tx_errors = match counter(interface, "tx_errors", tx_errors) {
            Ok(value) => value,
            Err(text) => {
                return Err(text);
            },
        };
        Ok(NetworkStats { rx_bytes, tx_bytes, rx_packets, tx_packets, rx_errors, tx_errors })
    }

    /// The fragment for a reading taken when the clock stood at `now`
    /// nanoseconds; `stats` is nothing where the counters could not be
    /// read. A reading that succeeded becomes the last one; one that
    /// failed leaves the last one as it is.
    pub fn get_output(&mut self, stats: Option<NetworkStats>, now: u64) -> (out: WidgetOutput)
        ensures
            out@ == throughput(
                old(self).glyphs(),
                old(self).stats(),
                old(self).read_at(),
                stats,
                now,
            ),
            final(self).stats() == if stats is Some {
                stats
            } else {
                old(self).stats()
            },
            final(self).read_at() == if stats is Some {
                now
            } else {
                old(self).read_at()
            },
            final(self).period() == old(self).period(),
            final(self).name() == old(self).name(),
            final(self).glyphs() == old(self).glyphs(),
    {
        let later = match stats {
            Some(later) => later,
            None => {
                return Self::unavailable();
            },
        };
        let before = self.network_stats;
        let read_at = self.last_called;
        self.network_stats = Some(later);
        self.last_called = now;
        match before {
            Some(earlier) => {
                if later.rx_bytes >= earlier.rx_bytes && later.tx_bytes >= earlier.tx_bytes && now
                    > read_at {
                    let nanos = now - read_at;
                    let mut text = rate(
                        self.rx_icon.as_str(),
                        later.rx_bytes - earlier.rx_bytes,
                        nanos,
                    );
                    text.append("  ");
                    text.append(
                        rate(self.tx_icon.as_str(), later.tx_bytes - earlier.tx_bytes, nanos).as_str(),
                    );
                    WidgetOutput {
                        text,
                        use_default_background: true,
                        use_default_foreground: true,
                    }
                } else {
                    Self::unavailable()
                }
            },
            None => Self::unavailable(),
        }
    }

    /// The fragment of [`no_network`].
    pub fn unavailable() -> (out: WidgetOutput)
        ensures
            out@ == no_network(),
    {
        WidgetOutput {
            text: String::from_str("<span foreground='red'>No Network</span>"),
            use_default_background: true,
            use_default_foreground: false,
        }
    }
}

} // verus!
