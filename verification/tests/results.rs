use cokacdir::results::{
    describe_answer, format_cokacdir_result, read_answer, wants_result_file, Answer,
};

fn show(cmd: &str, content: &str) -> String {
    format_cokacdir_result(cmd, content, content)
}

#[test]
fn errors_show_their_message() {
    assert_eq!(show("cron", r#"{"status":"error","message":"bad time"}"#), "❌ bad time");
    assert_eq!(show("sendfile", r#"{"status":"error"}"#), "❌ unknown error");
}

#[test]
fn answers_that_are_no_json_are_shown_as_they_are() {
    assert_eq!(show("cron", "oops"), "oops");
    assert_eq!(show("cron", "  oops \n"), "  oops \n");
    assert_eq!(show("anything", ""), "");
}

#[test]
fn each_subcommand_has_its_form() {
    assert_eq!(show("currenttime", r#"{"status":"ok","time":"2026-02-25 14:30:00"}"#), "🕐 2026-02-25 14:30:00");
    assert_eq!(show("currenttime", r#"{"status":"ok"}"#), "🕐 ?");
    assert_eq!(
        show("cron", r#"{"status":"ok","id":"a1","prompt":"say hi","schedule":"0 9 * * *"}"#),
        "✅ Scheduled [cron]\n🔖 a1\n📝 say hi\n🕐 `0 9 * * *`"
    );
    assert_eq!(
        show("cron", r#" {"status":"ok","id":"a1","prompt":"say hi","schedule":"2026-01-01 00:00:00"} "#),
        "✅ Scheduled [once]\n🔖 a1\n📝 say hi\n🕐 `2026-01-01 00:00:00`"
    );
    assert_eq!(show("cron", "{}"), "✅ Scheduled [once]\n🔖 ?\n📝 \n🕐 ``");
    assert_eq!(show("cron-remove", r#"{"status":"ok","id":"a1"}"#), "✅ Removed\n🔖 a1");
    assert_eq!(
        show("cron-update", r#"{"status":"ok","id":"a1","schedule":"1h"}"#),
        "✅ Updated\n🕐 `1h`\n🔖 a1"
    );
    assert_eq!(show("sendfile", r#"{"status":"ok","path":"/tmp/f"}"#), "📎 /tmp/f");
    assert_eq!(show("sendfile", r#"{"status":"ok"}"#), "📎 ?");
    assert_eq!(show("unknown", r#"{"status":"ok"}"#), r#"{"status":"ok"}"#);
}

#[test]
fn lists_number_their_schedules() {
    assert_eq!(show("cron-list", r#"{"status":"ok","schedules":[]}"#), "📋 No schedules found.");
    assert_eq!(show("cron-list", r#"{"status":"ok"}"#), r#"{"status":"ok"}"#);
    let long = "p".repeat(41);
    let content = format!(
        r#"{{"status":"ok","schedules":[{{"id":"a","prompt":"short","schedule":"1h"}},{{"prompt":"{}"}}]}}"#,
        long
    );
    let expected = format!(
        "📋 2 schedule(s)\n\n1. short\n   🕐 `1h`\n   🔖 a\n\n2. {}...\n   🕐 ``\n   🔖 ?",
        "p".repeat(40)
    );
    assert_eq!(show("cron-list", &content), expected);
    let forty = format!(r#"{{"schedules":[{{"id":"a","prompt":"{}","schedule":"s"}}]}}"#, "é".repeat(40));
    assert_eq!(
        show("cron-list", &forty),
        format!("📋 1 schedule(s)\n\n1. {}\n   🕐 `s`\n   🔖 a", "é".repeat(40))
    );
}

#[test]
fn a_registration_without_answer_is_read_from_its_file() {
    assert!(wants_result_file("cron", ""));
    assert!(wants_result_file("cron", " \n"));
    assert!(!wants_result_file("cron", "{}"));
    assert!(!wants_result_file("cron-list", ""));
    assert_eq!(
        format_cokacdir_result("cron", "", r#"{"status":"ok","id":"z","prompt":"p","schedule":"* * * * *"}"#),
        "✅ Scheduled [cron]\n🔖 z\n📝 p\n🕐 `* * * * *`"
    );
    assert_eq!(format_cokacdir_result("cron", "", ""), "");
}

#[test]
fn answers_are_read_then_described() {
    let a = read_answer(r#"{"status":"ok","id":"i","schedules":[{"id":"x"}]}"#);
    assert!(a.valid);
    assert_eq!(a.status, "ok");
    assert_eq!(a.id, Some("i".to_string()));
    assert_eq!(a.message, None);
    assert_eq!(a.schedules.as_ref().map(|l| l.len()), Some(1));
    let made = Answer {
        valid: true,
        status: "error".to_string(),
        message: Some("m".to_string()),
        time: None,
        id: None,
        prompt: String::new(),
        schedule: String::new(),
        path: None,
        schedules: None,
    };
    assert_eq!(describe_answer("cron", "c", "e", &made), "❌ m");
    let invalid = Answer { valid: false, ..made };
    assert_eq!(describe_answer("cron", "c", "e", &invalid), "e");
}
