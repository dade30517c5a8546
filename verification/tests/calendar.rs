use prompt_mixer::calendar::{civil_from_days, format_timestamp};
use prompt_mixer::models::now;

#[test]
fn epoch_is_the_first_of_january_1970() {
    assert_eq!(civil_from_days(0), (1970, 1, 1));
    assert_eq!(format_timestamp(0), "1970-01-01T00:00:00Z");
}

#[test]
fn last_second_of_a_day() {
    assert_eq!(format_timestamp(86399), "1970-01-01T23:59:59Z");
    assert_eq!(format_timestamp(86400), "1970-01-02T00:00:00Z");
}

#[test]
fn leap_days() {
    assert_eq!(format_timestamp(68169600), "1972-02-29T00:00:00Z");
    assert_eq!(format_timestamp(951782400), "2000-02-29T00:00:00Z");
    assert_eq!(format_timestamp(951868799), "2000-02-29T23:59:59Z");
    assert_eq!(format_timestamp(1709210096), "2024-02-29T12:34:56Z");
}

#[test]
fn century_without_a_leap_day() {
    assert_eq!(format_timestamp(4102444800), "2100-01-01T00:00:00Z");
    assert_eq!(civil_from_days(47540), (2100, 2, 28));
    assert_eq!(civil_from_days(47541), (2100, 3, 1));
}

#[test]
fn ends_of_months_and_years() {
    assert_eq!(format_timestamp(1735689599), "2024-12-31T23:59:59Z");
    assert_eq!(civil_from_days(30), (1970, 1, 31));
    assert_eq!(civil_from_days(31), (1970, 2, 1));
    assert_eq!(civil_from_days(58), (1970, 2, 28));
    assert_eq!(civil_from_days(59), (1970, 3, 1));
    assert_eq!(civil_from_days(364), (1970, 12, 31));
    assert_eq!(civil_from_days(365), (1971, 1, 1));
}

#[test]
fn years_beyond_four_digits() {
    assert_eq!(format_timestamp(253402300799), "9999-12-31T23:59:59Z");
    assert_eq!(format_timestamp(253402300800), "10000-01-01T00:00:00Z");
}

#[test]
fn every_day_of_four_centuries_follows_the_one_before() {
    let lengths = [31u64, 28, 31, 30, 31, 30, 31, 31, 30, 31, 30, 31];
    let (mut year, mut month, mut day) = (1970u64, 1u64, 1u64);
    for days in 0..146_097u64 {
        assert_eq!(civil_from_days(days), (year, month, day));
        let leap = (year % 4 == 0 && year % 100 != 0) || year % 400 == 0;
        let length = if month == 2 && leap { 29 } else { lengths[(month - 1) as usize] };
        day += 1;
        if day > length {
            day = 1;
            month += 1;
            if month > 12 {
                month = 1;
                year += 1;
            }
        }
    }
    assert_eq!((year, month, day), (2370, 1, 1));
}

#[test]
fn now_is_a_timestamp_of_this_century() {
    let text = now();
    let chars: Vec<char> = text.chars().collect();
    assert_eq!(chars.len(), 20);
    for (i, c) in chars.iter().enumerate() {
        match i {
            4 | 7 => assert_eq!(*c, '-'),
            10 => assert_eq!(*c, 'T'),
            13 | 16 => assert_eq!(*c, ':'),
            19 => assert_eq!(*c, 'Z'),
            _ => assert!(c.is_ascii_digit()),
        }
    }
    assert!(text.as_str() > "2024-01-01T00:00:00Z");
    assert!(text.as_str() < "2100-01-01T00:00:00Z");
    let again = now();
    assert!(again >= text);
}
