use cokacdir::config::Settings;
use cokacdir::markup::normalize_consecutive_empty_lines;
use cokacdir::notices::{
    greeting_text, latest_version, new_workspace_name, photo_file_name, queue_entry_path,
    safe_file_name, saved_text, schedule_placeholder, skipped_text, update_notice,
    upload_destination, upload_record, version_is_newer, workspace_path,
};
use cokacdir::paths::{expand_tilde, join_path, resolve_download, workspace_of};
use cokacdir::prompt::{build_context_prompt, build_system_prompt, build_task_role, CHAT_ROLE};
use cokacdir::session::{session_to_store, ChatSession, HistoryType};
use cokacdir::text::{chars_of, parse_signed, signed_decimal_of, split_lines, split_words};
use cokacdir::theme::ThemeChars;

#[test]
fn paths_join_as_on_unix() {
    assert_eq!(join_path("/home/u", "x"), "/home/u/x");
    assert_eq!(join_path("/home/u/", "x"), "/home/u/x");
    assert_eq!(join_path("/home/u", "/etc"), "/etc");
    assert_eq!(join_path("/home/u", ""), "/home/u/");
    assert_eq!(join_path("", "x"), "x");
    assert_eq!(join_path("/", "x"), "/x");
    assert_eq!(expand_tilde("~", Some("/home/u")), "/home/u/");
    assert_eq!(expand_tilde("~/a/b", Some("/home/u")), "/home/u/a/b");
    assert_eq!(expand_tilde("~//etc", Some("/home/u")), "/etc");
    assert_eq!(expand_tilde("~x", Some("/home/u")), "~x");
    assert_eq!(expand_tilde("/abs", Some("/home/u")), "/abs");
    assert_eq!(expand_tilde("~/a", None), "~/a");
    assert_eq!(Settings::config_dir(Some("/home/u")), Some("/home/u/.cokacdir".to_string()));
    assert_eq!(Settings::themes_dir(Some("/home/u")), Some("/home/u/.cokacdir/themes".to_string()));
    assert_eq!(Settings::config_path(Some("/home/u/")), Some("/home/u/.cokacdir/settings.json".to_string()));
    assert_eq!(Settings::config_path(None), None);
    assert_eq!(workspace_path("/home/u", "k3m9x2ab"), "/home/u/.cokacdir/workspace/k3m9x2ab");
}

#[test]
fn workspaces_and_downloads_are_found_in_paths() {
    assert_eq!(workspace_of("/w/k3m9x2ab"), Some("k3m9x2ab".to_string()));
    assert_eq!(workspace_of("/w/k3m9x2ab///"), Some("k3m9x2ab".to_string()));
    assert_eq!(workspace_of("k3m9x2ab"), Some("k3m9x2ab".to_string()));
    assert_eq!(workspace_of("/w/k3m9x2ab/src"), None);
    assert_eq!(workspace_of("/"), None);
    assert_eq!(workspace_of(""), None);
    assert_eq!(resolve_download("/abs/f", None), Some("/abs/f".to_string()));
    assert_eq!(resolve_download("f.txt", None), None);
    assert_eq!(resolve_download("d/f.txt", Some("/base//")), Some("/base/d/f.txt".to_string()));
    assert_eq!(resolve_download("f", Some("/")), Some("/f".to_string()));
}

#[test]
fn uploads_stay_in_the_session_directory() {
    assert_eq!(safe_file_name("report.pdf"), "report.pdf");
    assert_eq!(safe_file_name("../../etc/passwd"), "passwd");
    assert_eq!(safe_file_name("/abs/file"), "file");
    assert_eq!(safe_file_name("dir/"), "dir");
    assert_eq!(safe_file_name(".."), "uploaded_file");
    assert_eq!(safe_file_name("a/.."), "uploaded_file");
    assert_eq!(safe_file_name("."), "uploaded_file");
    assert_eq!(safe_file_name(""), "uploaded_file");
    assert_eq!(safe_file_name("/"), "uploaded_file");
    assert_eq!(photo_file_name("AQAD"), "photo_AQAD.jpg");
    assert_eq!(upload_destination("/w", "../x.txt"), "/w/x.txt");
    assert_eq!(saved_text("/w/x.txt", 1234), "Saved: /w/x.txt\n(1234 bytes)");
    assert_eq!(upload_record("x.txt", "/w/x.txt", 0), "[File uploaded] x.txt → /w/x.txt (0 bytes)");
}

#[test]
fn queue_entries_name_their_conversation_and_bot() {
    let e = r#"{"chat_id": 7, "key": "aaaa", "path": "/tmp/f"}"#;
    assert_eq!(queue_entry_path(e, 7, "aaaa"), Some("/tmp/f".to_string()));
    assert_eq!(queue_entry_path(e, 8, "aaaa"), None);
    assert_eq!(queue_entry_path(e, 7, "bbbb"), None);
    assert_eq!(queue_entry_path(r#"{"chat_id": 7, "key": "aaaa", "path": ""}"#, 7, "aaaa"), None);
    assert_eq!(queue_entry_path(r#"{"key": "aaaa", "path": "/f"}"#, 0, "aaaa"), Some("/f".to_string()));
    assert_eq!(queue_entry_path(r#"{"chat_id": 0, "path": "/f"}"#, 0, ""), Some("/f".to_string()));
    assert_eq!(queue_entry_path("nonsense", 0, ""), None);
}

#[test]
fn workspace_names_are_random_and_well_formed() {
    let a = new_workspace_name();
    let b = new_workspace_name();
    let c = new_workspace_name();
    for n in [&a, &b, &c] {
        assert_eq!(n.len(), 8);
        assert!(n.chars().all(|c| c.is_ascii_digit() || c.is_ascii_lowercase()));
        assert_eq!(workspace_of(&format!("/w/{}", n)), Some(n.to_string()));
    }
    assert!(a != b || b != c);
}

#[test]
fn scheduler_and_greeting_texts() {
    assert_eq!(
        skipped_text("say <hi>", "/gone/<x>"),
        "⏰ say &lt;hi&gt;\n\n⚠️ Skipped — path no longer exists\n📂 <code>/gone/&lt;x&gt;</code>"
    );
    let long = "p".repeat(50);
    assert!(skipped_text(&long, "/p").starts_with(&format!("⏰ {}\n\n", "p".repeat(40))));
    assert_eq!(schedule_placeholder("task"), "⏰ task");
    assert_eq!(
        greeting_text("1.2.3", Some("/w"), None),
        "🟢 cokacdir started (v1.2.3)\n📂 Resuming session at /w"
    );
    assert_eq!(
        greeting_text("1.2.3", None, Some("news")),
        "🟢 cokacdir started (v1.2.3)\n📂 Resuming session at (unknown)\nnews"
    );
}

#[test]
fn versions_compare_number_by_number() {
    assert!(version_is_newer("1.2.10", "1.2.9"));
    assert!(!version_is_newer("1.2.9", "1.2.10"));
    assert!(!version_is_newer("1.2.3", "1.2.3"));
    assert!(version_is_newer("1.2.3.1", "1.2.3"));
    assert!(!version_is_newer("1.2", "1.2.0"));
    assert!(version_is_newer("2", "1.9.9"));
    assert!(version_is_newer("1.x.5", "1.4"));
    assert!(!version_is_newer("", "0"));
    assert!(version_is_newer("0", ""));
    assert_eq!(
        update_notice("1.3.0", "1.2.0"),
        Some("🆕 v1.3.0 available — https://cokacdir.cokac.com/".to_string())
    );
    assert_eq!(update_notice("1.2.0", "1.2.0"), None);
    let manifest = "[package]\nname = \"x\"\nversion = \"0.4.7\"\nedition = \"2021\"\nversion = \"9\"";
    assert_eq!(latest_version(manifest), Some("0.4.7".to_string()));
    assert_eq!(latest_version("name = \"x\""), None);
    assert_eq!(latest_version("version = 1"), None);
    assert_eq!(latest_version(" version = \"1\""), None);
}

#[test]
fn system_prompt_names_conversation_and_bot() {
    let p = build_system_prompt(CHAT_ROLE, "/w", -100, "k", "", None);
    assert!(p.starts_with("You are chatting with a user through Telegram.\nCurrent working directory: /w\n\nAlways keep"));
    assert!(p.contains("cokacdir --sendfile <FILEPATH> --chat -100 --key k\n• Use this"));
    assert!(p.contains("cokacdir --cron \"<PROMPT>\" --at \"<TIME>\" --chat -100 --key k [--once] [--session <SESSION_ID>]\n• --at formats:\n- \"2026-02-25 18:00:00\""));
    assert!(p.contains("• Output: {\"status\":\"ok\",\"id\":\"...\",\"prompt\":\"...\",\"schedule\":\"...\"}\n\n── SCHEDULE: LIST ──\ncokacdir --cron-list --chat -100 --key k\n"));
    assert!(p.contains("cokacdir --cron-remove <SCHEDULE_ID> --chat -100 --key k\n"));
    assert!(p.contains("cokacdir --cron-update <SCHEDULE_ID> --at \"<NEW_TIME>\" --chat -100 --key k\n"));
    assert!(p.ends_with("\n\n═══════════════════════════════════════"));
    assert!(!p.contains("Current session ID"));
    let q = build_system_prompt("role", "/w", 5, "k", "\n\nDISABLED", Some("sid-9"));
    assert!(q.starts_with("role\nCurrent working directory: /w\n\n"));
    assert!(q.contains("\"schedule\":\"...\"}\n\nCurrent session ID: sid-9\nWhen scheduling a task"));
    assert!(q.contains("add --session sid-9 to the --cron command"));
    assert!(q.contains("\"send a daily report\").\n\n── SCHEDULE: LIST ──"));
    assert!(q.ends_with("═══════════════════════════════════════\n\nDISABLED"));
    assert_eq!(p.matches("--chat -100 --key k").count(), 5);
    assert!(build_task_role("/proj").starts_with("You are executing a scheduled task through Telegram.\nProject directory: /proj\nYour current working directory"));
    assert!(build_task_role("/proj").ends_with("before the task ends."));
    assert_eq!(build_context_prompt(&vec![], "ask"), "ask");
    assert_eq!(
        build_context_prompt(&vec!["up 1".to_string(), "up 2".to_string()], "ask"),
        "up 1\nup 2\n\nask"
    );
}

#[test]
fn sessions_are_stored_without_system_entries() {
    let mut s = ChatSession::open_at("/w");
    assert!(session_to_store(&s, "/w", "t").is_none());
    s.session_id = Some("sid_1-A".to_string());
    assert!(session_to_store(&s, "/w", "t").is_none());
    s.push_item(HistoryType::System, "hidden");
    assert!(session_to_store(&s, "/w", "t").is_none());
    s.push_item(HistoryType::User, "hi");
    s.push_item(HistoryType::System, "hidden too");
    s.push_item(HistoryType::Assistant, "hello");
    let d = session_to_store(&s, "/other", "2026-01-01 00:00:00").unwrap();
    assert_eq!(d.session_id, "sid_1-A");
    assert_eq!(d.current_path, "/other");
    assert_eq!(d.created_at, "2026-01-01 00:00:00");
    assert_eq!(d.history.len(), 2);
    assert_eq!(d.history[0].content, "hi");
    assert_eq!(d.history[1].item_type, HistoryType::Assistant);
    s.session_id = Some("../evil".to_string());
    assert!(session_to_store(&s, "/w", "t").is_none());
    s.session_id = Some("".to_string());
    assert!(session_to_store(&s, "/w", "t").is_some());
}

#[test]
fn texts_split_and_parse() {
    let lines: Vec<String> = split_lines(&chars_of("a\r\nb\n\nc\r")).iter().map(|l| l.iter().collect()).collect();
    assert_eq!(lines, vec!["a", "b", "", "c\r"]);
    let none: Vec<Vec<char>> = split_lines(&chars_of(""));
    assert!(none.is_empty());
    let one: Vec<String> = split_lines(&chars_of("\n")).iter().map(|l| l.iter().collect()).collect();
    assert_eq!(one, vec![""]);
    let words: Vec<String> = split_words(&chars_of("  a\tb\u{3000}c  ")).iter().map(|l| l.iter().collect()).collect();
    assert_eq!(words, vec!["a", "b", "c"]);
    assert_eq!(parse_signed(&chars_of("-9223372036854775808")), Some(i64::MIN));
    assert_eq!(parse_signed(&chars_of("9223372036854775807")), Some(i64::MAX));
    assert_eq!(parse_signed(&chars_of("9223372036854775808")), None);
    assert_eq!(parse_signed(&chars_of("-9223372036854775809")), None);
    assert_eq!(parse_signed(&chars_of("-0")), Some(0));
    assert_eq!(parse_signed(&chars_of("+7")), Some(7));
    assert_eq!(parse_signed(&chars_of("-+7")), None);
    assert_eq!(parse_signed(&chars_of("--7")), None);
    assert_eq!(parse_signed(&chars_of("-")), None);
    let s: String = signed_decimal_of(i64::MIN).iter().collect();
    assert_eq!(s, "-9223372036854775808");
    assert_eq!(normalize_consecutive_empty_lines("a\n \n\t\n\nb\n\n"), "a\n\nb\n");
    assert_eq!(normalize_consecutive_empty_lines("a\nb"), "a\nb");
}

#[test]
fn theme_characters_default_to_spaces() {
    let c = ThemeChars::default();
    assert_eq!(c.folder, ' ');
    assert_eq!(c.file, ' ');
    assert_eq!(c.folder_open, ' ');
    assert_eq!(c.parent, ' ');
}
