use barr::network::{stats_file, value_from_file, NetworkStats};
use barr::Network;
use std::time::Duration;

const SECOND: u64 = 1_000_000_000;
const MIB: u64 = 1_048_576;

fn stats(rx_bytes: u64, tx_bytes: u64) -> NetworkStats {
    NetworkStats { rx_bytes, tx_bytes, rx_packets: 0, tx_packets: 0, rx_errors: 0, tx_errors: 0 }
}

#[test]
fn counter_is_read_from_its_file() {
    assert_eq!(value_from_file("p", "123\n"), Ok(123));
    assert_eq!(value_from_file("p", "123"), Ok(123));
    assert_eq!(value_from_file("p", "+5\n\n"), Ok(5));
    assert_eq!(value_from_file("p", "18446744073709551615\n"), Ok(u64::MAX));
}

#[test]
fn file_without_number_is_named_in_the_complaint() {
    let complaint = "File: \"/sys/x\" doesn't contain an int value".to_string();
    assert_eq!(value_from_file("/sys/x", "12a\n"), Err(complaint.clone()));
    assert_eq!(value_from_file("/sys/x", ""), Err(complaint.clone()));
    assert_eq!(value_from_file("/sys/x", "\n"), Err(complaint.clone()));
    assert_eq!(value_from_file("/sys/x", " 5\n"), Err(complaint.clone()));
    assert_eq!(value_from_file("/sys/x", "5 \n"), Err(complaint.clone()));
    assert_eq!(value_from_file("/sys/x", "-5\n"), Err(complaint.clone()));
    assert_eq!(value_from_file("/sys/x", "18446744073709551616\n"), Err(complaint));
}

#[test]
fn counters_live_under_the_interface() {
    assert_eq!(stats_file("wlp2s0", "rx_bytes"), "/sys/class/net/wlp2s0/statistics/rx_bytes");
    assert_eq!(stats_file("", ""), "/sys/class/net//statistics/");
}

#[test]
fn six_counters_make_the_stats() {
    assert_eq!(
        Network::get_network_stats("eth0", "1\n", "2\n", "3\n", "4\n", "5\n", "6\n"),
        Ok(NetworkStats {
            rx_bytes: 1,
            tx_bytes: 2,
            rx_packets: 3,
            tx_packets: 4,
            rx_errors: 5,
            tx_errors: 6,
        })
    );
}

#[test]
fn first_bad_counter_is_reported() {
    assert_eq!(
        Network::get_network_stats("eth0", "1\n", "x\n", "3\n", "y\n", "5\n", "6\n"),
        Err("File: \"/sys/class/net/eth0/statistics/tx_bytes\" doesn't contain an int value"
            .to_string())
    );
    assert_eq!(
        Network::get_network_stats("eth0", "", "2", "3", "4", "5", "6"),
        Err("File: \"/sys/class/net/eth0/statistics/rx_bytes\" doesn't contain an int value"
            .to_string())
    );
    assert_eq!(
        Network::get_network_stats("w", "1", "2", "3", "4", "5", "?"),
        Err("File: \"/sys/class/net/w/statistics/tx_errors\" doesn't contain an int value"
            .to_string())
    );
    assert_eq!(
        Network::get_network_stats("w", "1", "2", "?", "4", "5", "6"),
        Err("File: \"/sys/class/net/w/statistics/rx_packets\" doesn't contain an int value"
            .to_string())
    );
    assert_eq!(
        Network::get_network_stats("w", "1", "2", "3", "4", "?", "6"),
        Err("File: \"/sys/class/net/w/statistics/rx_errors\" doesn't contain an int value"
            .to_string())
    );
}

const NO_NETWORK: &str = "<span foreground='red'>No Network</span>";

fn network(rx_bytes: u64, tx_bytes: u64, now: u64) -> Network<'static> {
    Network::new(Duration::from_secs(1), "w", Some(stats(rx_bytes, tx_bytes)), now)
}

#[test]
fn rates_are_shown_per_second() {
    let mut network =
        Network::new(Duration::from_secs(1), "wlp2s0", Some(stats(1000, 5000)), 0);
    assert_eq!(network.interval(), Duration::from_secs(1));
    assert_eq!(network.interface(), "wlp2s0");
    let out = network.get_output(Some(stats(1000 + 2048, 5000 + 3 * MIB)), SECOND);
    assert_eq!(
        out.text,
        "\u{f0ed} 2  <span foreground='blue'>\u{f0ee} <b>3.00</b></span>"
    );
    assert!(out.use_default_foreground && out.use_default_background);
}

#[test]
fn rates_follow_the_last_reading() {
    let mut network = network(0, 0, 0);
    network.get_output(Some(stats(10 * MIB, 1024)), SECOND);
    let out = network.get_output(Some(stats(10 * MIB + 512, 1024 + 3 * MIB)), 3 * SECOND);
    assert_eq!(out.text, "\u{f0ed} 0  <span foreground='blue'>\u{f0ee} <b>1.50</b></span>");
}

#[test]
fn one_mebibyte_per_second_is_still_shown_in_kibibytes() {
    let mut network = network(0, 0, 0);
    let out = network.get_output(Some(stats(MIB, MIB + 1)), SECOND);
    assert_eq!(out.text, "\u{f0ed} 1024  <span foreground='blue'>\u{f0ee} <b>1.00</b></span>");
}

#[test]
fn rates_are_rounded_half_to_even() {
    let mut source = network(0, 0, 0);
    let out = source.get_output(Some(stats(512, 1536)), SECOND);
    assert_eq!(out.text, "\u{f0ed} 0  \u{f0ee} 2");
    let out = source.get_output(Some(stats(512 + 2560, 1536 + 513)), 2 * SECOND);
    assert_eq!(out.text, "\u{f0ed} 2  \u{f0ee} 1");
    let mut source = network(0, 0, 0);
    let out = source.get_output(Some(stats(MIB + MIB / 8, 2 * MIB + 3 * MIB / 8)), SECOND);
    assert_eq!(
        out.text,
        "<span foreground='blue'>\u{f0ed} <b>1.12</b></span>  \
         <span foreground='blue'>\u{f0ee} <b>2.38</b></span>"
    );
}

#[test]
fn failed_reading_is_marked_and_keeps_the_last_one() {
    let mut network = network(0, 0, 0);
    let out = network.get_output(None, SECOND);
    assert_eq!(out.text, NO_NETWORK);
    assert!(!out.use_default_foreground);
    assert!(out.use_default_background);
    let out = network.get_output(Some(stats(4096, 0)), 2 * SECOND);
    assert_eq!(out.text, "\u{f0ed} 2  \u{f0ee} 0");
}

#[test]
fn source_without_first_reading_starts_marked() {
    let mut network = Network::new(Duration::from_secs(1), "w", None, 0);
    assert_eq!(network.get_output(None, SECOND).text, NO_NETWORK);
    assert_eq!(network.get_output(Some(stats(100, 100)), 2 * SECOND).text, NO_NETWORK);
    let out = network.get_output(Some(stats(100 + 1024, 100)), 3 * SECOND);
    assert_eq!(out.text, "\u{f0ed} 1  \u{f0ee} 0");
}

#[test]
fn counter_that_went_back_gives_no_rate() {
    let mut network = network(5000, 5000, 0);
    assert_eq!(network.get_output(Some(stats(10, 6000)), SECOND).text, NO_NETWORK);
    let out = network.get_output(Some(stats(1034, 6000)), 2 * SECOND);
    assert_eq!(out.text, "\u{f0ed} 1  \u{f0ee} 0");
    assert_eq!(network.get_output(Some(stats(2000, 5999)), 3 * SECOND).text, NO_NETWORK);
}

#[test]
fn no_time_gives_no_rate() {
    let mut network = network(0, 0, 7);
    assert_eq!(network.get_output(Some(stats(1, 0)), 7).text, NO_NETWORK);
    assert_eq!(network.get_output(Some(stats(2, 0)), 3).text, NO_NETWORK);
    let out = network.get_output(Some(stats(3, 0)), 4);
    assert_eq!(
        out.text,
        "<span foreground='blue'>\u{f0ed} <b>953.67</b></span>  \u{f0ee} 0"
    );
}

#[test]
fn largest_counters_do_not_overflow() {
    let mut network = network(0, 0, 0);
    let out = network.get_output(Some(stats(u64::MAX, 0)), 1);
    assert_eq!(
        out.text,
        "<span foreground='blue'>\u{f0ed} <b>17592186044415999999046.33</b></span>  \u{f0ee} 0"
    );
}
