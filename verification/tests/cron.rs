use cokacdir::clock::{format_stamp, Moment, WallClock};
use cokacdir::cron::{cron_field_matches, cron_matches};
use cokacdir::text::{chars_of, parse_number};

fn moment(minute: u32, hour: u32, day: u32, month: u32, weekday: u32) -> Moment {
    Moment {
        timestamp: 0,
        local: WallClock { year: 2026, month, day, hour, minute, second: 0, nanos: 0 },
        weekday,
    }
}

#[test]
fn step_field_matches_multiples() {
    assert!(cron_field_matches("*/15", 0, 0));
    assert!(cron_field_matches("*/15", 15, 0));
    assert!(!cron_field_matches("*/15", 16, 0));
}

#[test]
fn range_field_matches_inside_only() {
    assert!(cron_field_matches("1-5", 3, 0));
    assert!(!cron_field_matches("1-5", 6, 0));
    assert!(cron_field_matches("1-5", 1, 0));
    assert!(cron_field_matches("1-5", 5, 0));
    assert!(!cron_field_matches("1-5", 0, 0));
}

#[test]
fn list_field_matches_members_only() {
    assert!(!cron_field_matches("1,3,5", 4, 0));
    assert!(cron_field_matches("1,3,5", 3, 0));
    assert!(cron_field_matches("1, 3 ,5", 5, 0));
}

#[test]
fn star_and_single_values() {
    assert!(cron_field_matches("*", 59, 0));
    assert!(cron_field_matches("7", 7, 0));
    assert!(cron_field_matches("+7", 7, 0));
    assert!(cron_field_matches("007", 7, 0));
    assert!(!cron_field_matches("7", 8, 0));
    assert!(!cron_field_matches("", 0, 0));
    assert!(!cron_field_matches("x", 0, 0));
    assert!(!cron_field_matches("-7", 7, 0));
    assert!(!cron_field_matches("4294967296", 0, 0));
}

#[test]
fn steps_count_from_the_field_start() {
    // day of month starts at 1: */2 matches 1, 3, 5, ...
    assert!(cron_field_matches("*/2", 1, 1));
    assert!(!cron_field_matches("*/2", 2, 1));
    assert!(cron_field_matches("*/2", 3, 1));
    // a value below the start matches no step
    assert!(!cron_field_matches("*/2", 0, 1));
    // a step of zero matches nothing
    assert!(!cron_field_matches("*/0", 0, 0));
    // a step within a range counts from the range's start
    assert!(cron_field_matches("10-20/5", 15, 0));
    assert!(!cron_field_matches("10-20/5", 16, 0));
    assert!(!cron_field_matches("10-20/5", 25, 0));
    assert!(!cron_field_matches("10/5", 10, 0));
}

#[test]
fn expression_needs_five_matching_fields() {
    let now = moment(30, 14, 23, 2, 1);
    assert!(cron_matches("30 14 * * *", &now));
    assert!(cron_matches("*/15 14 23 2 1", &now));
    assert!(cron_matches("  30   14  *  *   1-5 ", &now));
    assert!(!cron_matches("31 14 * * *", &now));
    assert!(!cron_matches("30 14 * *", &now));
    assert!(!cron_matches("30 14 * * * *", &now));
    assert!(!cron_matches("", &now));
    // Sunday is 0
    assert!(cron_matches("* * * * 0", &moment(0, 0, 1, 1, 0)));
    assert!(!cron_matches("* * * * 7", &moment(0, 0, 1, 1, 0)));
}

#[test]
fn numbers_parse_as_unsigned_decimals() {
    assert_eq!(parse_number(&chars_of("0")), Some(0));
    assert_eq!(parse_number(&chars_of("4294967295")), Some(4294967295));
    assert_eq!(parse_number(&chars_of("4294967296")), None);
    assert_eq!(parse_number(&chars_of("99999999999999999999999999")), None);
    assert_eq!(parse_number(&chars_of("+")), None);
    assert_eq!(parse_number(&chars_of("")), None);
    assert_eq!(parse_number(&chars_of("1 ")), None);
    assert_eq!(parse_number(&chars_of("١")), None);
}

#[test]
fn stamps_are_zero_padded() {
    let t = WallClock { year: 2026, month: 2, day: 3, hour: 4, minute: 5, second: 6, nanos: 0 };
    assert_eq!(format_stamp(&t).as_deref(), Some("2026-02-03 04:05:06"));
    let leap = WallClock { year: 987, month: 12, day: 31, hour: 23, minute: 59, second: 59, nanos: 1_000_000_000 };
    assert_eq!(format_stamp(&leap).as_deref(), Some("0987-12-31 23:59:60"));
    let far = WallClock { year: 12345, month: 1, day: 1, hour: 0, minute: 0, second: 0, nanos: 0 };
    assert_eq!(format_stamp(&far).as_deref(), Some("+12345-01-01 00:00:00"));
    let old = WallClock { year: -1, month: 1, day: 1, hour: 0, minute: 0, second: 0, nanos: 0 };
    assert_eq!(format_stamp(&old).as_deref(), Some("-0001-01-01 00:00:00"));
}

#[test]
fn what_is_no_date_gets_no_stamp() {
    let t = WallClock { year: 2026, month: 2, day: 3, hour: 4, minute: 5, second: 6, nanos: 0 };
    assert_eq!(format_stamp(&WallClock { month: 13, ..t }), None);
    assert_eq!(format_stamp(&WallClock { day: 30, ..t }), None);
    assert_eq!(format_stamp(&WallClock { day: 0, ..t }), None);
    assert_eq!(format_stamp(&WallClock { hour: 24, ..t }), None);
    assert_eq!(format_stamp(&WallClock { second: 60, ..t }), None);
    assert_eq!(format_stamp(&WallClock { nanos: 1_000_000_000, ..t }), None);
    assert_eq!(format_stamp(&WallClock { year: 2024, day: 29, ..t }).as_deref(), Some("2024-02-29 04:05:06"));
}
