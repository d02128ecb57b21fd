use barr::mpd::{parse_status, percent, MPDError, State, Status, StatusFlags};

fn padded(text: &str) -> Vec<u8> {
    let mut buffer = vec![0_u8; 1024];
    buffer[..text.len()].copy_from_slice(text.as_bytes());
    buffer
}

fn status_with(times: &str, state: &str) -> Result<Status, MPDError> {
    let text = format!(
        "volume: 50\nrepeat: 0\nrandom: 1\nsingle: 0\nconsume: 0\nplaylist: 2\n\
         state: {}\n{}OK\n",
        state, times
    );
    parse_status(text.as_bytes())
}

fn share(times: &str) -> u8 {
    status_with(times, "play").unwrap().percentage
}

#[test]
fn percentage_is_the_floor_of_the_share_played() {
    assert_eq!(share("elapsed: 30\nduration: 120\n"), 25);
    assert_eq!(share("elapsed: 1\nduration: 3\n"), 33);
    assert_eq!(share("elapsed: 2\nduration: 3\n"), 66);
    assert_eq!(share("elapsed: 0\nduration: 3\n"), 0);
    assert_eq!(share("elapsed: 120\nduration: 120\n"), 100);
}

#[test]
fn percentage_takes_fractions_of_seconds() {
    assert_eq!(share("elapsed: 30.500\nduration: 120.000\n"), 25);
    assert_eq!(share("elapsed: 59.999\nduration: 60\n"), 99);
    assert_eq!(share("elapsed: 0.5\nduration: 2.\n"), 25);
    assert_eq!(share("elapsed: .75\nduration: 1\n"), 75);
    assert_eq!(share("elapsed: +1.0\nduration: 4.00\n"), 25);
    assert_eq!(share("elapsed: 29.999\nduration: 100.0\n"), 29);
}

#[test]
fn missing_times_count_as_played_in_full() {
    assert_eq!(share(""), 100);
    assert_eq!(share("elapsed: 5\n"), 100);
    assert_eq!(share("duration: 120\n"), 100);
    assert_eq!(share("elapsed: x\n"), 100);
}

#[test]
fn percentage_stays_within_a_hundred() {
    assert_eq!(share("elapsed: 500\nduration: 120\n"), 100);
    assert_eq!(share("elapsed: 5\nduration: 0\n"), 100);
    assert_eq!(share("elapsed: 0\nduration: 0\n"), 0);
    assert_eq!(share("elapsed: 0.000\nduration: 0.0\n"), 0);
}

fn digits(text: &str) -> Vec<char> {
    text.chars().collect()
}

#[test]
fn percent_of_two_fractions() {
    assert_eq!(percent((&digits("30"), 0), (&digits("120"), 0)), 25);
    assert_eq!(percent((&digits("30500"), 3), (&digits("120"), 0)), 25);
    assert_eq!(percent((&digits("599"), 1), (&digits("60"), 0)), 99);
    assert_eq!(percent((&digits("999999999999999999"), 18), (&digits("1"), 0)), 99);
    assert_eq!(percent((&digits("1"), 18), (&digits("999999999999999999"), 0)), 0);
    assert_eq!(percent((&digits("999999999999999999"), 0), (&digits("1"), 18)), 100);
    assert_eq!(percent((&digits(""), 0), (&digits("5"), 0)), 0);
    assert_eq!(percent((&digits("007"), 0), (&digits("0014"), 0)), 50);
}

#[test]
fn percentage_is_rounded_down_never_to_nearest() {
    assert_eq!(share("elapsed: 59.9\nduration: 60\n"), 99);
    assert_eq!(share("elapsed: 0.999\nduration: 100\n"), 0);
    assert_eq!(share("elapsed: 1.999999\nduration: 200\n"), 0);
    assert_eq!(share("elapsed: 2\nduration: 200\n"), 1);
}

#[test]
fn percentage_grows_with_the_time_elapsed() {
    let mut last = 0;
    for tenths in 0..=1200 {
        let now = share(&format!("elapsed: {}.{}\nduration: 120\n", tenths / 10, tenths % 10));
        assert!(now >= last);
        assert_eq!(u32::from(now), tenths * 100 / 1200);
        last = now;
    }
    assert_eq!(last, 100);
}

#[test]
fn numbers_may_be_of_any_length() {
    assert_eq!(share("elapsed: 100000000000000000\nduration: 400000000000000000\n"), 25);
    assert_eq!(share("elapsed: 1000000000000000000\nduration: 4000000000000000000\n"), 25);
    assert_eq!(
        share(
            "elapsed: 29.99999999999999999999999999999999999999\n\
             duration: 100.0000000000000000000000000000000000000\n"
        ),
        29
    );
    assert_eq!(
        share(
            "elapsed: 0.300000000000000000000000000000000000000000001\n\
             duration: 1.00000000000000000000000000000000000000000000333\n"
        ),
        30
    );
    assert_eq!(
        share(
            "elapsed: 0.300000000000000000000000000000000000000000001\n\
             duration: 1.00000000000000000000000000000000000000000000334\n"
        ),
        29
    );
    assert_eq!(
        share(
            "elapsed: 123456789012345678901234567890\n\
             duration: 370370367037037036703703703670\n"
        ),
        33
    );
    assert_eq!(
        share("elapsed: 340282366920938463463374607431768211456\nduration: 1\n"),
        100
    );
}

#[test]
fn times_that_write_no_number_are_a_failure() {
    assert_eq!(
        status_with("elapsed: soon\nduration: 120\n", "play").unwrap_err(),
        MPDError::ConnectionError
    );
    assert_eq!(
        status_with("elapsed: 1\nduration: -5\n", "play").unwrap_err(),
        MPDError::ConnectionError
    );
    assert_eq!(
        status_with("elapsed: 1e3\nduration: 5\n", "play").unwrap_err(),
        MPDError::ConnectionError
    );
    assert_eq!(
        status_with("elapsed: .\nduration: 5\n", "play").unwrap_err(),
        MPDError::ConnectionError
    );
    assert_eq!(
        status_with("elapsed: 1.2.3\nduration: 5\n", "play").unwrap_err(),
        MPDError::ConnectionError
    );
}

#[test]
fn state_names_are_mapped() {
    assert_eq!(status_with("", "play").unwrap().state, State::Play);
    assert_eq!(status_with("", "pause").unwrap().state, State::Pause);
    assert_eq!(status_with("", "stop").unwrap().state, State::Stop);
    assert_eq!(status_with("", "rewind").unwrap().state, State::Play);
    assert_eq!(status_with("", "Pause").unwrap().state, State::Play);
}

#[test]
fn switches_are_on_when_one() {
    let status = status_with("", "play").unwrap();
    assert_eq!(
        status.flags,
        StatusFlags { repeat: false, random: true, single: false, consume: false }
    );
    let status =
        parse_status(b"repeat: 1\nrandom: 0\nsingle: 1\nconsume: 1\nstate: play\nOK\n").unwrap();
    assert_eq!(
        status.flags,
        StatusFlags { repeat: true, random: false, single: true, consume: true }
    );
    let status =
        parse_status(b"repeat: 2\nrandom: yes\nsingle: 01\nconsume: \nstate: play\nOK\n")
            .unwrap();
    assert_eq!(status.flags, StatusFlags::default());
}

#[test]
fn whole_status_is_read_from_a_padded_buffer() {
    let status = parse_status(&padded(
        "volume: 50\nrepeat: 1\nrandom: 0\nsingle: 0\nconsume: 0\nstate: pause\n\
         elapsed: 30\nduration: 120\nOK\n",
    ))
    .unwrap();
    assert_eq!(
        status,
        Status {
            flags: StatusFlags { repeat: true, random: false, single: false, consume: false },
            percentage: 25,
            state: State::Pause,
        }
    );
}

#[test]
fn missing_keys_are_a_failure() {
    assert_eq!(
        parse_status(b"repeat: 0\nrandom: 0\nsingle: 0\nconsume: 0\nOK\n").unwrap_err(),
        MPDError::ConnectionError
    );
    assert_eq!(
        parse_status(b"random: 0\nsingle: 0\nconsume: 0\nstate: play\nOK\n").unwrap_err(),
        MPDError::ConnectionError
    );
    assert_eq!(
        parse_status(b"repeat: 0\nsingle: 0\nconsume: 0\nstate: play\nOK\n").unwrap_err(),
        MPDError::ConnectionError
    );
    assert_eq!(
        parse_status(b"repeat: 0\nrandom: 0\nconsume: 0\nstate: play\nOK\n").unwrap_err(),
        MPDError::ConnectionError
    );
    assert_eq!(
        parse_status(b"repeat: 0\nrandom: 0\nsingle: 0\nstate: play\nOK\n").unwrap_err(),
        MPDError::ConnectionError
    );
    assert_eq!(parse_status(b"OK\n").unwrap_err(), MPDError::ConnectionError);
    assert_eq!(parse_status(b"").unwrap_err(), MPDError::ConnectionError);
}

#[test]
fn line_that_is_no_entry_is_a_failure() {
    assert_eq!(status_with("garbage\n", "play").unwrap_err(), MPDError::ConnectionError);
    assert_eq!(status_with("key:value\n", "play").unwrap_err(), MPDError::ConnectionError);
    assert_eq!(status_with("\n", "play").unwrap_err(), MPDError::ConnectionError);
    assert_eq!(status_with("ok\n", "play").unwrap_err(), MPDError::ConnectionError);
}

#[test]
fn ill_encoded_status_is_a_failure() {
    assert_eq!(
        parse_status(b"repeat: 0\nrandom: 0\nsingle: 0\nconsume: 0\nstate: \xff\nOK\n")
            .unwrap_err(),
        MPDError::ConnectionError
    );
}

#[test]
fn last_entry_of_a_key_counts() {
    let status = status_with("state: stop\n", "play").unwrap();
    assert_eq!(status.state, State::Stop);
}

#[test]
fn value_ends_at_the_next_separator() {
    let status = status_with("", "pause: later").unwrap();
    assert_eq!(status.state, State::Pause);
    let status = status_with("error: a: b: c\n", "stop").unwrap();
    assert_eq!(status.state, State::Stop);
}

#[test]
fn switches_are_written_as_letters() {
    assert_eq!(StatusFlags::default().to_text(), "zcry");
    let all = StatusFlags { repeat: true, random: true, single: true, consume: true };
    assert_eq!(all.to_text(), "ZCRY");
    let some = StatusFlags { repeat: true, random: false, single: false, consume: true };
    assert_eq!(some.to_text(), "zCRy");
}
