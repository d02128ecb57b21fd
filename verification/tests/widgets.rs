use barr::{Alsa, Brightness, Date, Memory, Widget, Wifi, CPU};
use std::time::Duration;

const SECOND: Duration = Duration::from_secs(1);

#[test]
fn volume_is_read_from_the_mixers_line() {
    assert_eq!(
        Alsa::get_volume("  Front Right: Playback 26304 [40%] [on]\n"),
        Some((40, false))
    );
    assert_eq!(
        Alsa::get_volume("  Front Right: Playback 0 [0%] [off]\n"),
        Some((0, true))
    );
    assert_eq!(Alsa::get_volume("  Front Right: Playback 65536 [100%]"), Some((100, false)));
    assert_eq!(Alsa::get_volume("a b c d (255% [off] x"), Some((255, true)));
    assert_eq!(Alsa::get_volume("a b c d [+7%] [OFF]"), Some((7, false)));
    // the first character of the word is skipped, whatever it is
    assert_eq!(Alsa::get_volume("a b c d 40% [on]"), Some((0, false)));
}

#[test]
fn line_without_volume_gives_no_reading() {
    assert_eq!(Alsa::get_volume(""), None);
    assert_eq!(Alsa::get_volume("  Front Right: Playback 26304"), None);
    assert_eq!(Alsa::get_volume("  Front Right: Playback 26304 [%] [on]"), None);
    assert_eq!(Alsa::get_volume("  Front Right: Playback 26304 [256%] [on]"), None);
    assert_eq!(Alsa::get_volume("  Front Right: Playback 26304 % [on]"), None);
    assert_eq!(Alsa::get_volume("  Front Right: Playback 26304 [4x%] [on]"), None);
}

#[test]
fn volume_fragment() {
    let alsa = Alsa::new(SECOND);
    assert_eq!(alsa.interval(), SECOND);
    let plain = alsa.get_output(Some((40, false)));
    assert_eq!(plain.text, "\u{f2a0} 40");
    assert!(plain.use_default_foreground && plain.use_default_background);
    let muted = alsa.get_output(Some((5, true)));
    assert_eq!(muted.text, "<span foreground='red'><i>\u{f2a0} 5</i></span>");
    assert!(muted.use_default_foreground && muted.use_default_background);
    let none = alsa.get_output(None);
    assert_eq!(none.text, "<span foreground='red'><i>Can't get volume</i></span>");
    assert!(none.use_default_foreground && none.use_default_background);
}

#[test]
fn brightness_is_a_share_of_the_full_level() {
    let brightness = Brightness::new(SECOND);
    assert_eq!(brightness.interval(), SECOND);
    assert_eq!(brightness.get_output(3750).text, "\u{ef}\u{2020}\u{2026} 50");
    assert_eq!(brightness.get_output(7500).text, "\u{ef}\u{2020}\u{2026} 100");
    assert_eq!(brightness.get_output(0).text, "\u{ef}\u{2020}\u{2026} 0");
    assert_eq!(brightness.get_output(1234).text, "\u{ef}\u{2020}\u{2026} 16");
    assert_eq!(brightness.get_output(1238).text, "\u{ef}\u{2020}\u{2026} 17");
    assert_eq!(
        brightness.get_output(u64::MAX).text,
        "\u{ef}\u{2020}\u{2026} 245956587649460688"
    );
    let out = brightness.get_output(1);
    assert!(out.use_default_foreground && out.use_default_background);
}

#[test]
fn brightness_level_is_read_from_the_file() {
    assert_eq!(Brightness::get_file_content("3750\n"), Some(3750));
    assert_eq!(Brightness::get_file_content("  12 "), Some(12));
    assert_eq!(Brightness::get_file_content(""), None);
    assert_eq!(Brightness::get_file_content("12 34"), None);
    assert_eq!(Brightness::get_file_content("x"), None);
}

#[test]
fn load_is_shown_in_two_columns() {
    let cpu = CPU::new(SECOND);
    assert_eq!(cpu.interval(), SECOND);
    assert_eq!(cpu.get_output(5300).text, "\u{f0e4}  5");
    assert_eq!(cpu.get_output(0).text, "\u{f0e4}  0");
    assert_eq!(cpu.get_output(2500).text, "\u{f0e4}  2");
    assert_eq!(cpu.get_output(3500).text, "\u{f0e4}  4");
    assert_eq!(cpu.get_output(12499).text, "\u{f0e4} 12");
    assert_eq!(cpu.get_output(34999).text, "\u{f0e4} 35");
}

#[test]
fn load_takes_the_colour_of_the_last_limit_reached() {
    let cpu = CPU::new(SECOND);
    assert_eq!(cpu.get_output(35000).text, "<span foreground='#E9A072'>\u{f0e4} 35</span>");
    assert_eq!(cpu.get_output(49999).text, "<span foreground='#E9A072'>\u{f0e4} 50</span>");
    assert_eq!(cpu.get_output(50000).text, "<span foreground='#F2665F'>\u{f0e4} 50</span>");
    assert_eq!(cpu.get_output(80000).text, "<span foreground='#FF0000'>\u{f0e4} 80</span>");
    assert_eq!(cpu.get_output(100000).text, "<span foreground='#FF0000'>\u{f0e4} 100</span>");
    let out = cpu.get_output(90000);
    assert!(out.use_default_foreground && out.use_default_background);
}

#[test]
fn memory_share_is_rounded() {
    assert_eq!(Memory::share(1, 4), 25);
    assert_eq!(Memory::share(1, 3), 33);
    assert_eq!(Memory::share(2, 3), 67);
    assert_eq!(Memory::share(1, 8), 12);
    assert_eq!(Memory::share(3, 8), 38);
    assert_eq!(Memory::share(5, 0), 0);
    assert_eq!(Memory::share(u64::MAX, u64::MAX), 100);
}

#[test]
fn memory_fragment() {
    let memory = Memory::new(SECOND);
    let low = memory.render(1, 4);
    assert_eq!(low.text, "\u{ef}\u{2039}\u{203a} 25");
    assert!(low.use_default_foreground && low.use_default_background);
    let warm = memory.render(35, 100);
    assert_eq!(warm.text, "<span foreground='#E9A072'>\u{ef}\u{2039}\u{203a} 35</span>");
    assert!(!warm.use_default_foreground && warm.use_default_background);
    assert_eq!(
        memory.render(349, 1000).text,
        "\u{ef}\u{2039}\u{203a} 35"
    );
    assert_eq!(
        memory.render(1, 2).text,
        "<span foreground='#F2665F'>\u{ef}\u{2039}\u{203a} 50</span>"
    );
    assert_eq!(
        memory.render(4, 5).text,
        "<span foreground='#FF0000'>\u{ef}\u{2039}\u{203a} 80</span>"
    );
    assert_eq!(memory.render(7, 0).text, "\u{ef}\u{2039}\u{203a} 0");
}

#[test]
fn memory_is_read_from_the_machine() {
    let mut memory = Memory::new(SECOND);
    assert_eq!(memory.interval(), SECOND);
    assert!(memory.get_used_ram_percentage() <= 100);
    let out = memory.get_output();
    assert!(out.text.contains("\u{ef}\u{2039}\u{203a} "));
    assert!(out.use_default_background);
    assert_eq!(out.use_default_foreground, !out.text.starts_with("<span"));
}

#[test]
fn date_fragment() {
    let out = Date::render(Some("Wed, 28 Oct 19:55:01".to_string()));
    assert_eq!(out.text, "Wed, 28 Oct 19:55:01");
    assert!(out.use_default_foreground && out.use_default_background);
    assert_eq!(Date::render(None).text, "");
}

#[test]
fn date_pattern() {
    assert_eq!(Date::pattern(), "%a, %d %b %H:%M:%S");
}

#[test]
fn date_is_read_from_the_clock() {
    let mut date = Date::new(SECOND);
    assert_eq!(date.interval(), SECOND);
    let out = date.get_output();
    assert!(out.use_default_foreground && out.use_default_background);
    assert_ne!(out.text, "%a, %d %b %H:%M:%S");
    assert!(!out.text.contains('%'));
    let parts: Vec<&str> = out.text.split(' ').collect();
    assert_eq!(parts.len(), 4);
    assert!(parts[0].ends_with(','));
    assert_eq!(parts[1].len(), 2);
    assert_eq!(parts[3].len(), 8);
    assert_eq!(parts[3].matches(':').count(), 2);
}

#[test]
fn network_name_is_trimmed() {
    assert_eq!(Wifi::get_wifi_ssid("  home \n"), Some("home".to_string()));
    assert_eq!(Wifi::get_wifi_ssid("my net\n"), Some("my net".to_string()));
    assert_eq!(Wifi::get_wifi_ssid(""), None);
    assert_eq!(Wifi::get_wifi_ssid(" \n\t"), None);
}

const TABLE: &str = "Inter-| sta-|   Quality        |   Discarded packets               | Missed | WE\n \
face | tus | link level noise |  nwid  crypt   frag  retry   misc | beacon | 22\n\
wlp2s0: 0000   54.  -56.  -256        0      0      0      0     42        0\n";

#[test]
fn link_quality_is_read_from_the_table() {
    assert_eq!(Wifi::get_current_wifi_quality(TABLE), Some(80));
    assert_eq!(Wifi::get_current_wifi_quality("a\nb\nw: 0 0 -60. 0"), Some(86));
    assert_eq!(Wifi::get_current_wifi_quality("a\nb\nw: 0 0 70 0"), Some(100));
    assert_eq!(Wifi::get_current_wifi_quality("a\nb\nw: 0 0 +3.5 0"), Some(5));
    assert_eq!(Wifi::get_current_wifi_quality("a\nb\nw: 0 0 0.35"), Some(0));
    assert_eq!(Wifi::get_current_wifi_quality("a\nb\nw: 0 0 -1.05"), Some(2));
}

#[test]
fn table_without_interface_gives_no_quality() {
    assert_eq!(Wifi::get_current_wifi_quality(""), None);
    assert_eq!(Wifi::get_current_wifi_quality("a\nb\n"), None);
    assert_eq!(Wifi::get_current_wifi_quality("a\nb\nw: 0 0"), None);
    assert_eq!(Wifi::get_current_wifi_quality("a\nb\nw: 0 0 x"), None);
    assert_eq!(Wifi::get_current_wifi_quality("a\nb\nw: 0 0 -+5"), None);
    assert_eq!(Wifi::get_current_wifi_quality("a\nb\nw: 0 0 --5"), None);
    assert_eq!(Wifi::get_current_wifi_quality("a\nb\nw: 0 0 -"), None);
}

#[test]
fn link_fragment() {
    let wifi = Wifi::new(SECOND);
    assert_eq!(wifi.interval(), SECOND);
    wifi.stream_output();
    let out = wifi.get_output(Some("home"), Some(80));
    assert_eq!(out.text, "home - 80");
    assert!(out.use_default_foreground && out.use_default_background);
    assert_eq!(wifi.get_output(None, Some(80)).text, "Not Connected");
    assert_eq!(wifi.get_output(Some("home"), None).text, "Not Connected");
    assert_eq!(wifi.get_output(None, None).text, "Not Connected");
}
