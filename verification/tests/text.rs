use barr::text::{
    chars_of, find_char, is_whitespace, parse_fixed, parse_natural, power_of_ten, push_decimal,
    push_hundredths, push_padded, push_range, push_right_aligned, push_whole, rest_after_white,
    rounded, same, slice_of, split_lines, split_words, starts_with, string_of, trim, trim_end_of,
    trim_of,
};

fn strings(parts: Vec<Vec<char>>) -> Vec<String> {
    parts.iter().map(string_of).collect()
}

fn decimal(n: u128) -> String {
    let mut out = String::from("n=");
    push_decimal(&mut out, n);
    out
}

#[test]
fn characters_round_trip() {
    let chars = chars_of("a\u{e0b0}c");
    assert_eq!(chars, vec!['a', '\u{e0b0}', 'c']);
    assert_eq!(string_of(&chars), "a\u{e0b0}c");
    assert_eq!(chars_of(""), Vec::<char>::new());
}

#[test]
fn ranges_are_appended() {
    let chars = chars_of("abcdef");
    let mut out = String::from(">");
    push_range(&mut out, &chars, 2, 5);
    assert_eq!(out, ">cde");
    push_range(&mut out, &chars, 3, 3);
    assert_eq!(out, ">cde");
    assert_eq!(slice_of(&chars, 1, 3), vec!['b', 'c']);
}

#[test]
fn numbers_are_written_in_decimal() {
    assert_eq!(decimal(0), "n=0");
    assert_eq!(decimal(7), "n=7");
    assert_eq!(decimal(10), "n=10");
    assert_eq!(decimal(1234567890), "n=1234567890");
    assert_eq!(decimal(u128::MAX), "n=340282366920938463463374607431768211455");
}

#[test]
fn padded_digits_keep_leading_zeros() {
    let mut out = String::new();
    push_padded(&mut out, 5, 2);
    assert_eq!(out, "05");
    push_padded(&mut out, 1234, 2);
    assert_eq!(out, "0534");
    push_padded(&mut out, 9, 0);
    assert_eq!(out, "0534");
}

#[test]
fn ties_are_rounded_to_even() {
    assert_eq!(rounded(1, 2), 0);
    assert_eq!(rounded(3, 2), 2);
    assert_eq!(rounded(5, 2), 2);
    assert_eq!(rounded(7, 2), 4);
    assert_eq!(rounded(1, 3), 0);
    assert_eq!(rounded(2, 3), 1);
    assert_eq!(rounded(0, 9), 0);
    assert_eq!(rounded(9, 1), 9);
    assert_eq!(rounded(u128::MAX, 1), u128::MAX);
    assert_eq!(rounded(u128::MAX, 2), 1 << 127);
    assert_eq!(rounded(u128::MAX - 1, u128::MAX), 1);
}

#[test]
fn whole_numbers_are_appended() {
    let mut out = String::from("x ");
    push_whole(&mut out, 1234, 75);
    assert_eq!(out, "x 16");
    let mut out = String::new();
    push_whole(&mut out, 1238, 75);
    assert_eq!(out, "17");
}

#[test]
fn hundredths_are_appended() {
    let mut out = String::new();
    push_hundredths(&mut out, 1, 3);
    out.push(' ');
    push_hundredths(&mut out, 2, 3);
    out.push(' ');
    push_hundredths(&mut out, 1, 8);
    out.push(' ');
    push_hundredths(&mut out, 3, 8);
    out.push(' ');
    push_hundredths(&mut out, 1005, 100);
    out.push(' ');
    push_hundredths(&mut out, 3, 1);
    out.push(' ');
    push_hundredths(&mut out, 999, 1000);
    assert_eq!(out, "0.33 0.67 0.12 0.38 10.05 3.00 1.00");
}

#[test]
fn text_is_aligned_to_the_right() {
    let mut out = String::from("[");
    push_right_aligned(&mut out, &chars_of("5"), 2);
    out.push(']');
    push_right_aligned(&mut out, &chars_of("100"), 2);
    out.push(']');
    push_right_aligned(&mut out, &chars_of(""), 3);
    out.push(']');
    push_right_aligned(&mut out, &chars_of("ab"), 2);
    assert_eq!(out, "[ 5]100]   ]ab");
}

#[test]
fn white_space_is_unicodes() {
    for c in ['\t', '\n', '\u{b}', '\u{c}', '\r', ' ', '\u{85}', '\u{a0}', '\u{1680}', '\u{2000}',
        '\u{200a}', '\u{2028}', '\u{2029}', '\u{202f}', '\u{205f}', '\u{3000}']
    {
        assert!(is_whitespace(c));
    }
    for c in ['a', '0', '\0', '\u{8}', '\u{e}', '\u{200b}', '\u{1f}', '\u{feff}', '\u{2001}'] {
        assert_eq!(is_whitespace(c), c.is_whitespace());
    }
    for code in 0..=0x10ffff_u32 {
        if let Some(c) = char::from_u32(code) {
            assert_eq!(is_whitespace(c), c.is_whitespace());
        }
    }
}

#[test]
fn texts_are_compared() {
    assert!(same(&chars_of("abc"), &chars_of("abc")));
    assert!(!same(&chars_of("abc"), &chars_of("abd")));
    assert!(!same(&chars_of("abc"), &chars_of("ab")));
    assert!(same(&chars_of(""), &chars_of("")));
    assert!(starts_with(&chars_of("Artist: x"), &chars_of("Artist")));
    assert!(starts_with(&chars_of("abc"), &chars_of("")));
    assert!(!starts_with(&chars_of("Art"), &chars_of("Artist")));
    assert!(!starts_with(&chars_of("artist"), &chars_of("Artist")));
}

#[test]
fn lines_end_at_line_feeds() {
    assert_eq!(strings(split_lines(&chars_of("a\nb\r\nc"))), vec!["a", "b", "c"]);
    assert_eq!(strings(split_lines(&chars_of("a\n"))), vec!["a"]);
    assert_eq!(strings(split_lines(&chars_of("\n"))), vec![""]);
    assert_eq!(strings(split_lines(&chars_of(""))), Vec::<String>::new());
    assert_eq!(strings(split_lines(&chars_of("a\n\nb"))), vec!["a", "", "b"]);
    assert_eq!(strings(split_lines(&chars_of("a\r"))), vec!["a\r"]);
    assert_eq!(strings(split_lines(&chars_of("a\r\r\nb\rc\n"))), vec!["a\r", "b\rc"]);
    for text in ["", "\n", "a", "a\n", "a\r\n", "\r\n\r\n", "x\ny\r", "\r", "a\n\r\nb\n\n"] {
        let expected: Vec<String> = text.lines().map(String::from).collect();
        assert_eq!(strings(split_lines(&chars_of(text))), expected);
    }
}

#[test]
fn words_stand_between_white_space() {
    assert_eq!(strings(split_words(&chars_of("  a bc\t\td \n"))), vec!["a", "bc", "d"]);
    assert_eq!(strings(split_words(&chars_of(""))), Vec::<String>::new());
    assert_eq!(strings(split_words(&chars_of(" \n "))), Vec::<String>::new());
    assert_eq!(strings(split_words(&chars_of("one"))), vec!["one"]);
    assert_eq!(strings(split_words(&chars_of("a\u{a0}b\u{3000}c"))), vec!["a", "b", "c"]);
}

#[test]
fn ends_are_trimmed() {
    assert_eq!(string_of(&trim(&chars_of("  a b \n"))), "a b");
    assert_eq!(string_of(&trim(&chars_of(" \t "))), "");
    assert_eq!(string_of(&trim(&chars_of(""))), "");
    assert_eq!(string_of(&trim(&chars_of("x"))), "x");
    assert_eq!(string_of(&trim_of(&chars_of("\0\0a\0b\0"), '\0')), "a\0b");
    assert_eq!(string_of(&trim_of(&chars_of("\0\0\0"), '\0')), "");
    assert_eq!(string_of(&trim_of(&chars_of("ab"), '\0')), "ab");
    assert_eq!(string_of(&trim_end_of(&chars_of("\n12\n\n"), '\n')), "\n12");
    assert_eq!(string_of(&trim_end_of(&chars_of("\n\n"), '\n')), "");
}

#[test]
fn characters_are_found() {
    assert_eq!(find_char(&chars_of("40%]"), '%'), 2);
    assert_eq!(find_char(&chars_of("40"), '%'), 2);
    assert_eq!(find_char(&chars_of(""), '%'), 0);
    assert_eq!(string_of(&rest_after_white(&chars_of("Artist: Daft Punk"))), "Daft Punk");
    assert_eq!(string_of(&rest_after_white(&chars_of("Artist"))), "");
    assert_eq!(string_of(&rest_after_white(&chars_of(" x"))), "x");
}

#[test]
fn natural_numbers_are_read() {
    assert_eq!(parse_natural(&chars_of("0"), 255), Some(0));
    assert_eq!(parse_natural(&chars_of("255"), 255), Some(255));
    assert_eq!(parse_natural(&chars_of("256"), 255), None);
    assert_eq!(parse_natural(&chars_of("+7"), 255), Some(7));
    assert_eq!(parse_natural(&chars_of("007"), 255), Some(7));
    assert_eq!(parse_natural(&chars_of(""), 255), None);
    assert_eq!(parse_natural(&chars_of("+"), 255), None);
    assert_eq!(parse_natural(&chars_of("-1"), 255), None);
    assert_eq!(parse_natural(&chars_of("1 "), 255), None);
    assert_eq!(parse_natural(&chars_of("12a"), 255), None);
    assert_eq!(parse_natural(&chars_of("18446744073709551615"), u64::MAX), Some(u64::MAX));
    assert_eq!(parse_natural(&chars_of("18446744073709551616"), u64::MAX), None);
    assert_eq!(parse_natural(&chars_of("99999999999999999999999"), u64::MAX), None);
    assert_eq!(parse_natural(&chars_of("5"), 0), None);
    assert_eq!(parse_natural(&chars_of("0"), 0), Some(0));
}

#[test]
fn decimal_fractions_are_read() {
    assert_eq!(parse_fixed(&chars_of("30")), Some((30, 0)));
    assert_eq!(parse_fixed(&chars_of("30.125")), Some((30125, 3)));
    assert_eq!(parse_fixed(&chars_of("30.")), Some((30, 0)));
    assert_eq!(parse_fixed(&chars_of(".5")), Some((5, 1)));
    assert_eq!(parse_fixed(&chars_of("+0.050")), Some((50, 3)));
    assert_eq!(parse_fixed(&chars_of("")), None);
    assert_eq!(parse_fixed(&chars_of(".")), None);
    assert_eq!(parse_fixed(&chars_of("+")), None);
    assert_eq!(parse_fixed(&chars_of("1.2.3")), None);
    assert_eq!(parse_fixed(&chars_of("-1")), None);
    assert_eq!(parse_fixed(&chars_of("1e3")), None);
    assert_eq!(parse_fixed(&chars_of("123456789.123456789")), Some((123456789123456789, 9)));
    assert_eq!(parse_fixed(&chars_of("1234567890.123456789")), None);
}

#[test]
fn powers_of_ten() {
    assert_eq!(power_of_ten(0), 1);
    assert_eq!(power_of_ten(3), 1000);
    assert_eq!(power_of_ten(18), 1_000_000_000_000_000_000);
}

#[test]
fn words_agree_with_the_standard_library() {
    for text in ["", " ", "a", " a ", "a  b", "\ta\nb\r\nc ", "x\u{a0}y", "\u{2003}\u{3000}", "a\u{200b}b"]
    {
        let expected: Vec<String> = text.split_whitespace().map(String::from).collect();
        assert_eq!(strings(split_words(&chars_of(text))), expected);
        assert_eq!(string_of(&trim(&chars_of(text))), text.trim());
        assert_eq!(string_of(&trim_of(&chars_of(text), ' ')), text.trim_matches(' '));
        assert_eq!(string_of(&trim_end_of(&chars_of(text), '\n')), text.trim_end_matches('\n'));
    }
}

#[test]
fn naturals_agree_with_the_standard_library() {
    for text in ["", "0", "+0", "-0", "007", "255", "256", "+255", "++1", "1+", " 1", "1_0", "٣"] {
        assert_eq!(parse_natural(&chars_of(text), 255), text.parse::<u8>().ok().map(u64::from));
        assert_eq!(parse_natural(&chars_of(text), u64::MAX), text.parse::<u64>().ok());
    }
}

#[test]
fn rounding_agrees_with_the_formatting_of_floats() {
    for den in [1_u128, 2, 4, 8, 16, 32] {
        for num in 0..600_u128 {
            let value = num as f64 / den as f64;
            let mut whole = String::new();
            push_whole(&mut whole, num, den);
            assert_eq!(whole, format!("{:.0}", value));
            let mut fraction = String::new();
            push_hundredths(&mut fraction, num, den);
            assert_eq!(fraction, format!("{:.2}", value));
            let mut aligned = String::new();
            push_right_aligned(&mut aligned, &chars_of(&whole), 2);
            assert_eq!(aligned, format!("{:2.0}", value));
        }
    }
}
