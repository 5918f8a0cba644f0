use cokacdir::clock::{Moment, WallClock};
use cokacdir::schedule::{
    build_run_prompt, check_entry, is_due, is_text_less, list_schedule_entries,
    list_schedule_entries_pub, is_expired, local_instant, parse_relative_seconds,
    parse_relative_time, parse_relative_time_pub, read_schedule_entry, schedule_kind,
    should_trigger, should_trigger_at, update_schedule_after_run, wants_summary, AfterRun,
    ScheduleEntry, ScheduleEntryData, ScheduleKind,
};

fn entry(schedule: &str, schedule_type: &str, last_run: Option<&str>) -> ScheduleEntry {
    ScheduleEntry {
        id: "abc".to_string(),
        chat_id: 42,
        bot_key: "key".to_string(),
        current_path: "/tmp".to_string(),
        prompt: "do it".to_string(),
        schedule: schedule.to_string(),
        schedule_type: schedule_type.to_string(),
        once: false,
        last_run: last_run.map(String::from),
        created_at: "2025-12-31 00:00:00".to_string(),
        context_summary: None,
    }
}

fn at(text: &str) -> Moment {
    local_instant(text).expect("an instant that the local zone has once")
}

#[test]
fn absolute_schedule_fires_once() {
    let e = entry("2026-01-01 00:00:00", "absolute", None);
    let now = at("2026-01-01 12:00:00");
    assert!(should_trigger_at(&e, &now));
    // after one run sets last_run, it never fires again
    let ran = entry("2026-01-01 00:00:00", "absolute", Some("2026-01-01 12:00:05"));
    assert!(!should_trigger_at(&ran, &now));
    assert!(!should_trigger_at(&ran, &at("2026-06-01 12:00:00")));
    assert!(!should_trigger_at(&ran, &at("2036-06-01 12:00:00")));
}

#[test]
fn absolute_schedule_waits_for_its_instant() {
    let e = entry("2026-01-01 00:00:00", "absolute", None);
    assert!(!should_trigger_at(&e, &at("2025-12-31 12:00:00")));
    assert!(should_trigger_at(&e, &at("2026-01-01 00:00:00")));
    // a run recorded before the instant does not count
    let early = entry("2026-01-01 00:00:00", "absolute", Some("2025-12-31 12:00:00"));
    assert!(should_trigger_at(&early, &at("2026-01-01 12:00:00")));
    // a schedule that is no instant is never due
    assert!(!should_trigger_at(&entry("tomorrow", "absolute", None), &at("2026-01-01 12:00:00")));
}

#[test]
fn cron_schedule_fires_once_a_minute() {
    let e = entry("30 12 * * *", "cron", None);
    assert!(should_trigger_at(&e, &at("2026-01-15 12:30:10")));
    assert!(!should_trigger_at(&e, &at("2026-01-15 12:31:00")));
    let ran = entry("30 12 * * *", "cron", Some("2026-01-15 12:30:05"));
    assert!(!should_trigger_at(&ran, &at("2026-01-15 12:30:50")));
    assert!(should_trigger_at(&ran, &at("2026-01-16 12:30:00")));
}

#[test]
fn unknown_type_never_fires() {
    let e = entry("* * * * *", "weekly", None);
    assert!(!should_trigger_at(&e, &at("2026-01-15 12:30:10")));
    assert!(!should_trigger(&e));
    assert_eq!(schedule_kind("absolute"), ScheduleKind::Absolute);
    assert_eq!(schedule_kind("cron"), ScheduleKind::Cron);
    assert_eq!(schedule_kind("Cron"), ScheduleKind::Unknown);
}

#[test]
fn due_is_decided_from_instants() {
    let m = |timestamp: i64, minute: u32| Moment {
        timestamp,
        local: WallClock { year: 2026, month: 1, day: 1, hour: 0, minute, second: 0, nanos: 0 },
        weekday: 4,
    };
    let target = m(1000, 0);
    assert!(!is_due(ScheduleKind::Absolute, &m(999, 0), Some(target), None, false));
    assert!(is_due(ScheduleKind::Absolute, &m(1000, 0), Some(target), None, false));
    assert!(is_due(ScheduleKind::Absolute, &m(5000, 0), Some(target), Some(m(999, 0)), false));
    assert!(!is_due(ScheduleKind::Absolute, &m(5000, 0), Some(target), Some(m(1000, 0)), false));
    assert!(!is_due(ScheduleKind::Absolute, &m(5000, 0), None, None, true));
    assert!(is_due(ScheduleKind::Cron, &m(0, 1), None, None, true));
    assert!(!is_due(ScheduleKind::Cron, &m(0, 1), None, None, false));
    assert!(!is_due(ScheduleKind::Cron, &m(0, 1), None, Some(m(0, 1)), true));
    assert!(is_due(ScheduleKind::Cron, &m(0, 2), None, Some(m(0, 1)), true));
    assert!(!is_due(ScheduleKind::Unknown, &m(0, 2), Some(target), None, true));
    assert!(is_expired(ScheduleKind::Absolute, &m(1001, 0), Some(target)));
    assert!(!is_expired(ScheduleKind::Absolute, &m(1000, 0), Some(target)));
    assert!(!is_expired(ScheduleKind::Cron, &m(1001, 0), Some(target)));
    assert!(!is_expired(ScheduleKind::Absolute, &m(1001, 0), None));
}

#[test]
fn local_instants_keep_their_clock() {
    let m = at("2026-02-23 14:05:09");
    assert_eq!(m.local.year, 2026);
    assert_eq!(m.local.month, 2);
    assert_eq!(m.local.day, 23);
    assert_eq!(m.local.hour, 14);
    assert_eq!(m.local.minute, 5);
    assert_eq!(m.local.second, 9);
    assert_eq!(m.weekday, 1);
    assert!(local_instant("2026-02-30 14:05:09").is_none());
    assert!(local_instant("soon").is_none());
    assert!(at("2026-02-23 14:05:09").timestamp < at("2026-02-23 14:05:10").timestamp);
}

#[test]
fn relative_times_are_minutes_hours_days() {
    assert_eq!(parse_relative_seconds("30m"), Some(1800));
    assert_eq!(parse_relative_seconds("4h"), Some(14400));
    assert_eq!(parse_relative_seconds("1d"), Some(86400));
    assert_eq!(parse_relative_seconds("  2h  "), Some(7200));
    assert_eq!(parse_relative_seconds("+2h"), Some(7200));
    assert_eq!(parse_relative_seconds("0m"), None);
    assert_eq!(parse_relative_seconds("-1h"), None);
    assert_eq!(parse_relative_seconds("h"), None);
    assert_eq!(parse_relative_seconds("5"), None);
    assert_eq!(parse_relative_seconds("5s"), None);
    assert_eq!(parse_relative_seconds("1.5h"), None);
    assert_eq!(parse_relative_seconds("9223372036854775807d"), None);
    assert_eq!(parse_relative_time("30m", 1000), Some(2800));
    assert_eq!(parse_relative_time("1d", i64::MAX - 10), None);
    assert_eq!(parse_relative_time("later", 1000), None);
    assert!(parse_relative_time_pub("later").is_none());
    assert!(parse_relative_time_pub("1h").is_some());
}

#[test]
fn entries_are_read_from_json() {
    let text = r#"{"id":"s1","chat_id":-100,"bot_key":"k","current_path":"/p","prompt":"hi",
        "schedule":"0 * * * *","schedule_type":"cron","once":true,"last_run":null,
        "created_at":"2026-01-01 00:00:00","context_summary":"before"}"#;
    let e = read_schedule_entry(text).unwrap();
    assert_eq!(e.id, "s1");
    assert_eq!(e.chat_id, -100);
    assert_eq!(e.bot_key, "k");
    assert_eq!(e.current_path, "/p");
    assert_eq!(e.prompt, "hi");
    assert_eq!(e.schedule, "0 * * * *");
    assert_eq!(e.schedule_type, "cron");
    assert!(e.once);
    assert_eq!(e.last_run, None);
    assert_eq!(e.created_at, "2026-01-01 00:00:00");
    assert_eq!(e.context_summary, Some("before".to_string()));
    assert!(read_schedule_entry(r#"{"id":"s1"}"#).is_none());
    assert!(read_schedule_entry("not json").is_none());
    let bare = r#"{"id":"s1","chat_id":1,"bot_key":"k","current_path":"/p","prompt":"hi",
        "schedule":"x","schedule_type":"absolute","created_at":"c"}"#;
    let b = read_schedule_entry(bare).unwrap();
    assert!(!b.once);
    assert_eq!(b.context_summary, None);
}

#[test]
fn entries_and_their_data_mirror_each_other() {
    let e = entry("0 * * * *", "cron", Some("2026-01-01 00:00:00"));
    let d = ScheduleEntryData::from(&e);
    assert_eq!(d.id, "abc");
    assert_eq!(d.chat_id, 42);
    assert_eq!(d.last_run, Some("2026-01-01 00:00:00".to_string()));
    let back = ScheduleEntry::from(&d);
    assert_eq!(back.schedule, "0 * * * *");
    assert_eq!(back.schedule_type, "cron");
    assert_eq!(back.prompt, "do it");
    assert_eq!(back.current_path, "/tmp");
}

#[test]
fn after_a_run_an_entry_is_written_or_removed() {
    let cron = entry("0 * * * *", "cron", None);
    match update_schedule_after_run(&cron, "2026-01-01 10:00:00", true, Some("sum".to_string())) {
        AfterRun::Write(e) => {
            assert_eq!(e.last_run, Some("2026-01-01 10:00:00".to_string()));
            assert_eq!(e.context_summary, Some("sum".to_string()));
        }
        _ => panic!("a recurring entry is written"),
    }
    let mut with_summary = entry("0 * * * *", "cron", None);
    with_summary.context_summary = Some("old".to_string());
    match update_schedule_after_run(&with_summary, "t", true, None) {
        AfterRun::Write(e) => assert_eq!(e.context_summary, Some("old".to_string())),
        _ => panic!("a recurring entry is written"),
    }
    let absolute = entry("2026-01-01 00:00:00", "absolute", None);
    match update_schedule_after_run(&absolute, "2026-01-01 10:00:00", true, Some("sum".to_string())) {
        AfterRun::WriteThenDelete(e) => {
            assert_eq!(e.last_run, Some("2026-01-01 10:00:00".to_string()));
            assert_eq!(e.context_summary, None);
        }
        _ => panic!("an absolute entry has run for the last time"),
    }
    let mut once = entry("0 * * * *", "cron", None);
    once.once = true;
    assert!(matches!(update_schedule_after_run(&once, "t", true, None), AfterRun::WriteThenDelete(_)));
    // an entry removed during its run is not written again
    assert!(matches!(update_schedule_after_run(&cron, "t", false, None), AfterRun::Leave));
}

#[test]
fn summaries_are_for_recurring_entries_that_carry_one() {
    let mut e = entry("0 * * * *", "cron", None);
    assert!(!wants_summary(&e, false, false));
    e.context_summary = Some("before".to_string());
    assert!(wants_summary(&e, false, false));
    assert!(!wants_summary(&e, true, false));
    assert!(!wants_summary(&e, false, true));
    e.once = true;
    assert!(!wants_summary(&e, false, false));
    assert_eq!(build_run_prompt(&e), "[이전 작업 맥락]\nbefore\n\n[작업 지시]\ndo it");
    e.context_summary = None;
    assert_eq!(build_run_prompt(&e), "do it");
}

#[test]
fn listings_are_in_the_order_of_creation() {
    let make = |id: &str, chat: i64, key: &str, created: &str| {
        let mut e = entry("* * * * *", "cron", None);
        e.id = id.to_string();
        e.chat_id = chat;
        e.bot_key = key.to_string();
        e.created_at = created.to_string();
        e
    };
    let all = vec![
        make("c", 1, "k", "2026-01-03 00:00:00"),
        make("a", 1, "k", "2026-01-01 00:00:00"),
        make("x", 1, "other", "2026-01-01 00:00:00"),
        make("b1", 2, "k", "2026-01-02 00:00:00"),
        make("b2", 1, "k", "2026-01-02 00:00:00"),
        make("b3", 1, "k", "2026-01-02 00:00:00"),
    ];
    let ids = |v: Vec<ScheduleEntry>| v.into_iter().map(|e| e.id).collect::<Vec<_>>();
    assert_eq!(ids(list_schedule_entries(&all, "k", None)), vec!["a", "b1", "b2", "b3", "c"]);
    assert_eq!(ids(list_schedule_entries(&all, "k", Some(1))), vec!["a", "b2", "b3", "c"]);
    assert_eq!(ids(list_schedule_entries(&all, "k", Some(2))), vec!["b1"]);
    assert!(list_schedule_entries(&all, "none", None).is_empty());
    assert_eq!(list_schedule_entries_pub(&all, "other", None)[0].id, "x");
    assert!(is_text_less("a", "b"));
    assert!(is_text_less("", "a"));
    assert!(is_text_less("a", "aa"));
    assert!(!is_text_less("a", "a"));
    assert!(!is_text_less("b", "aa"));
    assert!(is_text_less("Z", "a"));
    assert!(is_text_less("z", "é"));
    assert_eq!(check_entry(&entry("* * * * *", "weekly", None)), (false, false));
    assert_eq!(check_entry(&entry("* * * * *", "cron", None)), (true, false));
    assert_eq!(check_entry(&entry("2000-01-01 00:00:00", "absolute", None)), (true, true));
    assert_eq!(check_entry(&entry("2000-01-01 00:00:00", "absolute", Some("2000-01-02 00:00:00"))), (false, true));
    assert_eq!(check_entry(&entry("9000-01-01 00:00:00", "absolute", None)), (false, false));
    assert_eq!(check_entry(&entry("never", "absolute", None)), (false, false));
}

#[test]
fn every_minute_entry_is_due_at_present() {
    assert!(should_trigger(&entry("* * * * *", "cron", None)));
    assert!(!should_trigger(&entry("* * * *", "cron", None)));
    assert!(!should_trigger(&entry("never", "absolute", None)));
    assert!(should_trigger(&entry("2000-01-01 00:00:00", "absolute", None)));
    assert!(!should_trigger(&entry("9000-01-01 00:00:00", "absolute", None)));
}

#[test]
fn relative_time_counts_from_the_present() {
    let t = parse_relative_time_pub("1h").expect("an hour from now");
    assert!(t >= 3600);
    assert!(t - 3600 < cokacdir::clock::CLOCK_LIMIT);
    let u = parse_relative_time_pub("2h").expect("two hours from now");
    assert!(u - t >= 3600);
    assert!(u - t < 3660);
    assert!(parse_relative_time_pub(" 15m ").is_some());
    assert!(parse_relative_time_pub("0h").is_none());
    assert!(parse_relative_time_pub("9223372036854775807d").is_none());
}

#[test]
fn times_for_new_schedules_are_read() {
    let cron = cokacdir::schedule::plan_schedule("0 9 * * 1").expect("five fields");
    assert_eq!(cron.kind, ScheduleKind::Cron);
    assert_eq!(cron.schedule, "0 9 * * 1");
    let fixed = cokacdir::schedule::plan_schedule("2031-05-06 07:08:09").expect("an instant");
    assert_eq!(fixed.kind, ScheduleKind::Absolute);
    assert_eq!(fixed.schedule, "2031-05-06 07:08:09");
    let soon = cokacdir::schedule::plan_schedule("30m").expect("a relative time");
    assert_eq!(soon.kind, ScheduleKind::Absolute);
    assert_eq!(soon.schedule.len(), 19);
    let target = local_instant(&soon.schedule).expect("a stamp reads back");
    let expected = parse_relative_time_pub("30m").unwrap();
    assert!((expected - target.timestamp).abs() <= 2);
    assert!(cokacdir::schedule::plan_schedule("tomorrow").is_none());
    assert!(cokacdir::schedule::plan_schedule("0m").is_none());
}
