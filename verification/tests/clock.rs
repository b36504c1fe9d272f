use conduit::clock::{end_of_day, now, parse_time, start_of_day, TimeOfDay};

fn time(hour: u32, minute: u32, second: u32) -> TimeOfDay {
    TimeOfDay { seconds: hour * 3600 + minute * 60 + second, nanoseconds: 0 }
}

#[test]
fn reads_hours_and_minutes() {
    assert_eq!(parse_time("07:15"), Some(time(7, 15, 0)));
    assert_eq!(parse_time("00:00"), Some(time(0, 0, 0)));
    assert_eq!(parse_time("23:59"), Some(time(23, 59, 0)));
    assert_eq!(parse_time("7:15"), Some(time(7, 15, 0)));
    assert_eq!(parse_time("07:5"), Some(time(7, 5, 0)));
    assert_eq!(parse_time("7:5"), Some(time(7, 5, 0)));
}

#[test]
fn refuses_what_is_no_time() {
    assert_eq!(parse_time("24:00"), None);
    assert_eq!(parse_time("17:60"), None);
    assert_eq!(parse_time("7:60"), None);
    assert_eq!(parse_time("24:0"), None);
    assert_eq!(parse_time("007:15"), None);
    assert_eq!(parse_time("7:"), None);
    assert_eq!(parse_time("17:00:00"), None);
    assert_eq!(parse_time("12"), None);
    assert_eq!(parse_time("late"), None);
    assert_eq!(parse_time(""), None);
}

#[test]
fn white_space_may_stand_before_a_number_only() {
    assert_eq!(parse_time("  7:15"), Some(time(7, 15, 0)));
    assert_eq!(parse_time("07: 15"), Some(time(7, 15, 0)));
    assert_eq!(parse_time("\t07:\n \u{3000}5"), Some(time(7, 5, 0)));
    assert_eq!(parse_time("07 :15"), None);
    assert_eq!(parse_time("07:15 "), None);
    assert_eq!(parse_time("0 7:15"), None);
    assert_eq!(parse_time("07:1 5"), None);
    assert_eq!(parse_time(" "), None);
    assert_eq!(parse_time("07: "), None);
}

#[test]
fn no_other_character_may_stand_before_a_number() {
    let white = [
        9, 10, 11, 12, 13, 0x20, 0x85, 0xa0, 0x1680, 0x2000, 0x2001, 0x2002, 0x2003, 0x2004,
        0x2005, 0x2006, 0x2007, 0x2008, 0x2009, 0x200a, 0x2028, 0x2029, 0x202f, 0x205f, 0x3000,
    ];
    for code in 0u32..0x11_0000 {
        if let Some(c) = char::from_u32(code) {
            let expected = if white.contains(&code) { Some(time(7, 15, 0)) } else { None };
            if c != '0' && c != '1' && c != '2' {
                assert_eq!(parse_time(&format!("{}7:15", c)), expected, "{:x}", code);
            }
            if !('0'..='5').contains(&c) {
                assert_eq!(parse_time(&format!("7:{}15", c)), expected, "{:x}", code);
            }
        }
    }
}

#[test]
fn every_pair_of_short_numbers_is_read_or_refused() {
    for hour in 0u32..100 {
        for minute in 0u32..100 {
            let expected = if hour < 24 && minute < 60 { Some(time(hour, minute, 0)) } else { None };
            assert_eq!(parse_time(&format!("{}:{}", hour, minute)), expected);
            assert_eq!(parse_time(&format!("{:02}:{:02}", hour, minute)), expected);
        }
    }
}

#[test]
fn a_text_without_a_colon_stands_for_no_time() {
    assert_eq!(parse_time("0715"), None);
    assert_eq!(parse_time("7.15"), None);
    assert_eq!(parse_time("7"), None);
    assert_eq!(parse_time("07\u{ff1a}15"), None);
}

#[test]
fn the_day_has_bounds() {
    assert_eq!(start_of_day(), time(0, 0, 0));
    assert_eq!(end_of_day(), time(23, 59, 59));
}

#[test]
fn times_are_ordered() {
    let early = TimeOfDay { seconds: 5, nanoseconds: 7 };
    let later = TimeOfDay { seconds: 5, nanoseconds: 8 };
    assert!(early.not_after(early));
    assert!(early.not_after(later));
    assert!(!later.not_after(early));
    assert!(!time(0, 0, 6).not_after(later));
}

#[test]
fn the_clock_shows_a_time_of_day() {
    let shown = now();
    assert!(shown.seconds < 86_400);
    assert!(shown.nanoseconds < 2_000_000_000);
}
