use upnp_cast::decimal::{decimal, parse_decimal};
use upnp_cast::text::{
    chars_of, find_char, find_sub, is_space_char, lower_char, matches_at, rfind_char,
    same_ignoring_ascii_case, slice_of, string_of, to_ascii_upper, trim, upper_char,
};

fn cv(s: &str) -> Vec<char> {
    s.chars().collect()
}

#[test]
fn chars_and_back() {
    let s = "héllo, wörld ✓";
    assert_eq!(chars_of(s), cv(s));
    assert_eq!(string_of(&cv(s)), s);
    assert_eq!(string_of(&chars_of("")), "");
    assert_eq!(string_of(&vec!['a', 'b']), "ab");
}

#[test]
fn slice_of_takes_range() {
    let v = cv("abcdef");
    assert_eq!(slice_of(&v, 1, 4), cv("bcd"));
    assert_eq!(slice_of(&v, 0, 0), cv(""));
    assert_eq!(slice_of(&v, 0, 6), v);
}

#[test]
fn find_char_first_or_len() {
    let v = cv("a:b:c");
    assert_eq!(find_char(&v, ':', 0), 1);
    assert_eq!(find_char(&v, ':', 1), 1);
    assert_eq!(find_char(&v, ':', 2), 3);
    assert_eq!(find_char(&v, ':', 4), 5);
    assert_eq!(find_char(&v, 'x', 0), 5);
    assert_eq!(find_char(&v, ':', 5), 5);
}

#[test]
fn rfind_char_last_or_none() {
    let v = cv("http://h/a/b.xml");
    assert_eq!(rfind_char(&v, '/'), Some(10));
    assert_eq!(rfind_char(&v, 'q'), None);
    assert_eq!(rfind_char(&cv(""), '/'), None);
    assert_eq!(rfind_char(&cv("/"), '/'), Some(0));
}

#[test]
fn find_sub_first_occurrence() {
    let v = cv("ab://cd://ef");
    let sep = cv("://");
    assert_eq!(find_sub(&v, &sep, 0), Some(2));
    assert_eq!(find_sub(&v, &sep, 3), Some(7));
    assert_eq!(find_sub(&v, &sep, 8), None);
    assert_eq!(find_sub(&v, &cv(""), 0), Some(0));
    assert_eq!(find_sub(&cv("ab"), &cv("abc"), 0), None);
    assert_eq!(find_sub(&v, &sep, 100), None);
    assert_eq!(find_sub(&cv("aab"), &cv("ab"), 0), Some(1));
}

#[test]
fn matches_at_positions() {
    let v = cv("http://x");
    assert!(matches_at(&v, &cv("http"), 0));
    assert!(matches_at(&v, &cv("://"), 4));
    assert!(!matches_at(&v, &cv("://"), 5));
    assert!(!matches_at(&v, &cv("x"), 8));
    assert!(matches_at(&v, &cv(""), 8));
    assert!(!matches_at(&v, &cv(""), 9));
}

#[test]
fn white_space_is_what_std_says() {
    let mut u: u32 = 0;
    while u <= 0x10FFFF {
        if let Some(c) = char::from_u32(u) {
            assert_eq!(is_space_char(c), c.is_whitespace(), "U+{:04X}", u);
        }
        u += 1;
    }
}

#[test]
fn trim_is_what_std_says() {
    for s in [
        "",
        " ",
        "  a b  ",
        "\r\n\tx\u{3000}",
        "x",
        "\u{a0}PLAYING\u{2003}",
        " \u{200b} ",
        "a  ",
        "  a",
    ] {
        assert_eq!(string_of(&trim(&cv(s))), s.trim(), "{:?}", s);
    }
}

#[test]
fn lower_char_only_ascii_letters() {
    assert_eq!(lower_char('A'), 'a');
    assert_eq!(lower_char('Z'), 'z');
    assert_eq!(lower_char('m'), 'm');
    assert_eq!(lower_char('0'), '0');
    assert_eq!(lower_char('É'), 'É');
    let mut u: u32 = 0;
    while u < 0x3000 {
        if let Some(c) = char::from_u32(u) {
            assert_eq!(lower_char(c), c.to_ascii_lowercase());
        }
        u += 1;
    }
}

#[test]
fn same_ignoring_ascii_case_matches_std() {
    assert!(same_ignoring_ascii_case(&cv("LOCATION"), &cv("location")));
    assert!(same_ignoring_ascii_case(&cv("LoCaTiOn"), &cv("location")));
    assert!(!same_ignoring_ascii_case(&cv("locatio"), &cv("location")));
    assert!(!same_ignoring_ascii_case(&cv("locatiom"), &cv("location")));
    assert!(same_ignoring_ascii_case(&cv(""), &cv("")));
    assert!(!same_ignoring_ascii_case(&cv("K"), &cv("\u{212a}")));
}

#[test]
fn decimal_writes_digits() {
    assert_eq!(string_of(&decimal(0)), "0");
    assert_eq!(string_of(&decimal(7)), "7");
    assert_eq!(string_of(&decimal(10)), "10");
    assert_eq!(string_of(&decimal(255)), "255");
    assert_eq!(string_of(&decimal(1900)), "1900");
    assert_eq!(string_of(&decimal(u64::MAX)), "18446744073709551615");
}

#[test]
fn parse_decimal_is_what_std_says() {
    for s in [
        "0",
        "7",
        "007",
        "+5",
        "+",
        "",
        "-0",
        "-1",
        "++1",
        "1+",
        " 1",
        "1 ",
        "12a",
        "255",
        "256",
        "18446744073709551615",
        "18446744073709551616",
        "99999999999999999999999",
        "٣",
        "1_000",
        "0x10",
    ] {
        assert_eq!(parse_decimal(&cv(s), u64::MAX), s.parse::<u64>().ok(), "{:?}", s);
        assert_eq!(
            parse_decimal(&cv(s), 255),
            s.parse::<u8>().ok().map(|n| n as u64),
            "{:?}",
            s
        );
    }
}

#[test]
fn parse_decimal_respects_bound() {
    assert_eq!(parse_decimal(&cv("10"), 10), Some(10));
    assert_eq!(parse_decimal(&cv("11"), 10), None);
    assert_eq!(parse_decimal(&cv("0"), 0), Some(0));
    assert_eq!(parse_decimal(&cv("1"), 0), None);
    assert_eq!(parse_decimal(&cv("000"), 0), Some(0));
}

#[test]
fn decimal_round_trip() {
    for n in [0u64, 1, 9, 10, 99, 100, 3723, 65535, u64::MAX - 1, u64::MAX] {
        assert_eq!(parse_decimal(&decimal(n), u64::MAX), Some(n));
    }
}

#[test]
fn upper_char_only_ascii_letters() {
    assert_eq!(upper_char('a'), 'A');
    assert_eq!(upper_char('z'), 'Z');
    assert_eq!(upper_char('M'), 'M');
    assert_eq!(upper_char('_'), '_');
    assert_eq!(upper_char('é'), 'é');
    let mut u: u32 = 0;
    while u < 0x3000 {
        if let Some(c) = char::from_u32(u) {
            assert_eq!(upper_char(c), c.to_ascii_uppercase());
        }
        u += 1;
    }
}

#[test]
fn to_ascii_upper_agrees_with_std_on_ascii() {
    for s in ["", "paused_playback", "Paused", "NO_media_Present", "a1-b2 c3\t~", "\u{7f}x"] {
        let want: Vec<char> = s.to_uppercase().chars().collect();
        assert_eq!(to_ascii_upper(&cv(s)), Some(want), "{:?}", s);
    }
    let mut all = String::new();
    let mut u: u32 = 0;
    while u < 128 {
        all.push(char::from_u32(u).unwrap());
        u += 1;
    }
    assert_eq!(to_ascii_upper(&cv(&all)), Some(cv(&all.to_uppercase())));
}

#[test]
fn to_ascii_upper_refuses_other_text() {
    assert_eq!(to_ascii_upper(&cv("é")), None);
    assert_eq!(to_ascii_upper(&cv("stopped\u{80}")), None);
    assert_eq!(to_ascii_upper(&cv("\u{fb06}opped")), None);
}
