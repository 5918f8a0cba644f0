use cokacdir::commands::{
    allowed_tools_text, allowed_usage, available_tools_text, build_history_preview, busy_notice,
    clear_reply, no_session_notice, parse_model_request, parse_polling_request,
    parse_public_request, pwd_reply, start_reply, ModelRequest, PollingRequest, PublicRequest,
};
use cokacdir::session::{HistoryItem, HistoryType};
use cokacdir::settings::{parse_tool_ops, BotSettings};
use cokacdir::state::SharedData;

fn item(item_type: HistoryType, content: &str) -> HistoryItem {
    HistoryItem { item_type, content: content.to_string() }
}

#[test]
fn notices_are_fixed_texts() {
    assert_eq!(busy_notice(), "AI request in progress. Use /stop to cancel.");
    assert_eq!(no_session_notice(), "No active session. Use /start <path> first.");
    assert!(allowed_usage(true).starts_with("Usage:\n/allowed +toolname"));
    assert_eq!(allowed_usage(false), "Use +toolname to add or -toolname to remove.\nExample: /allowed +Bash -Edit");
}

#[test]
fn replies_point_back_to_workspaces() {
    assert_eq!(clear_reply(None), "Session cleared.");
    assert_eq!(clear_reply(Some("/srv/app")), "Session cleared.\nCurrent path: `/srv/app`");
    assert_eq!(
        clear_reply(Some("/home/u/.cokacdir/workspace/k3m9x2ab")),
        "Session cleared.\nCurrent path: `/home/u/.cokacdir/workspace/k3m9x2ab`\nUse /k3m9x2ab to resume this session."
    );
    assert_eq!(pwd_reply(None), "No active session. Use /start <path> first.");
    assert_eq!(pwd_reply(Some("/srv/app")), "`/srv/app`");
    assert_eq!(
        pwd_reply(Some("/w/k3m9x2ab/")),
        "`/w/k3m9x2ab/`\nUse /k3m9x2ab to switch back to this session."
    );
}

#[test]
fn previews_show_the_newest_entries_that_fit() {
    let h = vec![
        item(HistoryType::User, "first question"),
        item(HistoryType::Assistant, "first answer"),
        item(HistoryType::System, "note"),
        item(HistoryType::User, "second"),
    ];
    assert_eq!(
        build_history_preview(&h, 1000),
        "```\n👤 first question\n🤖 first answer\n⚙️ note\n👤 second\n```"
    );
    assert_eq!(build_history_preview(&[].to_vec(), 1000), "");
    assert_eq!(build_history_preview(&h, 18), "");
    // "👤 second" takes 11 bytes and its line feed one; the fence takes 8
    assert_eq!(build_history_preview(&h, 19), "");
    assert_eq!(build_history_preview(&h, 20), "```\n👤 second\n```");
    // "⚙️ note" takes 11 bytes and its line feed one
    assert_eq!(build_history_preview(&h, 31), "```\n👤 second\n```");
    assert_eq!(build_history_preview(&h, 32), "```\n⚙️ note\n👤 second\n```");
    let marks = vec![
        item(HistoryType::Error, "e"),
        item(HistoryType::ToolUse, "t"),
        item(HistoryType::ToolResult, "r"),
    ];
    assert_eq!(build_history_preview(&marks, 100), "```\n❌ e\n🔧 t\n📋 r\n```");
}

#[test]
fn starting_tells_what_happened() {
    assert_eq!(start_reply("/srv/app", None, true), "Session started at `/srv/app`.");
    assert_eq!(
        start_reply("/w/k3m9x2ab", None, true),
        "Session started at `/w/k3m9x2ab`.\nUse /k3m9x2ab to resume this session."
    );
    assert_eq!(start_reply("/w/k3m9x2ab", None, false), "Session started at `/w/k3m9x2ab`.");
    let h = vec![item(HistoryType::User, "hi"), item(HistoryType::Assistant, "hello")];
    assert_eq!(
        start_reply("/srv/app", Some(&h), true),
        "Session restored at `/srv/app`.\n\n```\n👤 hi\n🤖 hello\n```"
    );
    assert_eq!(start_reply("/srv/app", Some(&vec![]), true), "Session restored at `/srv/app`.");
    let big = vec![item(HistoryType::User, &"x".repeat(5000)), item(HistoryType::Assistant, "end")];
    assert_eq!(
        start_reply("/srv/app", Some(&big), false),
        "Session restored at `/srv/app`.\n\n```\n🤖 end\n```"
    );
}

#[test]
fn models_are_shown_set_and_reset() {
    let mut s = SharedData::new(BotSettings::default(), 3000);
    assert!(matches!(parse_model_request(""), ModelRequest::Show));
    assert!(matches!(parse_model_request("DEFAULT"), ModelRequest::Reset));
    assert!(matches!(parse_model_request("Reset"), ModelRequest::Reset));
    assert!(matches!(parse_model_request("opus"), ModelRequest::Use(_)));
    assert!(matches!(parse_model_request("Opus"), ModelRequest::Unknown));
    let r = s.handle_model(1, &parse_model_request(""));
    assert_eq!(r.text, "Current model: <b>default</b>");
    assert!(r.html && !r.save_settings);
    let r = s.handle_model(1, &parse_model_request("sonnet[1m]"));
    assert_eq!(r.text, "Model set to <b>sonnet[1m]</b>.");
    assert!(r.save_settings);
    assert_eq!(s.handle_model(1, &ModelRequest::Show).text, "Current model: <b>sonnet[1m]</b>");
    assert_eq!(s.handle_model(2, &ModelRequest::Show).text, "Current model: <b>default</b>");
    let r = s.handle_model(1, &ModelRequest::Unknown);
    assert!(r.text.starts_with("Unknown model. Available:\n<code>/model sonnet</code>\n"));
    assert!(r.text.ends_with("<code>/model default</code> — reset to default"));
    assert!(!r.save_settings);
    let r = s.handle_model(1, &ModelRequest::Reset);
    assert_eq!(r.text, "Model reset to <b>default</b>.");
    assert!(r.save_settings);
    assert!(s.settings.models.is_empty());
}

#[test]
fn groups_are_opened_by_the_owner() {
    let mut s = SharedData::new(BotSettings::default(), 3000);
    assert_eq!(parse_public_request("on", false, true), PublicRequest::NotGroup);
    assert_eq!(parse_public_request("on", true, false), PublicRequest::NotOwner);
    assert_eq!(parse_public_request("ON", true, true), PublicRequest::On);
    assert_eq!(parse_public_request("Off", true, true), PublicRequest::Off);
    assert_eq!(parse_public_request("", true, true), PublicRequest::Show);
    assert_eq!(parse_public_request("maybe", true, true), PublicRequest::Usage);
    assert_eq!(s.handle_public(-5, PublicRequest::NotGroup).text, "This command is only available in group chats.");
    assert_eq!(s.handle_public(-5, PublicRequest::NotOwner).text, "Only the bot owner can change public access settings.");
    assert!(s.handle_public(-5, PublicRequest::Show).text.starts_with("Public access is currently <b>disabled</b> for this group.\n\n"));
    let r = s.handle_public(-5, PublicRequest::On);
    assert_eq!(r.text, "✅ Public access <b>enabled</b> for this group.\nAll members can now use the bot.");
    assert!(r.save_settings);
    assert_eq!(s.settings.as_public_for_group_chat.get(&-5), Some(&true));
    assert!(s.handle_public(-5, PublicRequest::Show).text.starts_with("Public access is currently <b>enabled</b>"));
    let r = s.handle_public(-5, PublicRequest::Off);
    assert_eq!(r.text, "❌ Public access <b>disabled</b> for this group.\nOnly the owner can use the bot.");
    assert!(s.settings.as_public_for_group_chat.is_empty());
    assert!(s.handle_public(-5, PublicRequest::Usage).text.starts_with("Usage:\n<code>/public on</code>"));
}

#[test]
fn polling_time_is_shown_and_set() {
    let mut s = SharedData::new(BotSettings::default(), 3000);
    assert_eq!(parse_polling_request(""), PollingRequest::Show);
    assert_eq!(parse_polling_request("abc"), PollingRequest::Invalid);
    assert_eq!(parse_polling_request("-5"), PollingRequest::Invalid);
    assert_eq!(parse_polling_request("99999999999999999999"), PollingRequest::Invalid);
    assert_eq!(parse_polling_request("2499"), PollingRequest::TooSmall);
    assert_eq!(parse_polling_request("2500"), PollingRequest::Change(2500));
    assert_eq!(
        s.handle_polling(PollingRequest::Show).text,
        "Current polling time: 3000ms\nUsage: /setpollingtime <ms>\nMinimum: 2500ms"
    );
    assert_eq!(
        s.handle_polling(PollingRequest::Invalid).text,
        "Invalid number. Usage: /setpollingtime <ms>\nExample: /setpollingtime 3000"
    );
    assert_eq!(s.handle_polling(PollingRequest::TooSmall).text, "Minimum polling time is 2500ms.");
    assert_eq!(s.polling_time_ms, 3000);
    assert_eq!(s.handle_polling(PollingRequest::Change(4000)).text, "✅ Polling time set to 4000ms");
    assert_eq!(s.polling_time_ms, 4000);
}

#[test]
fn debug_switches() {
    let mut s = SharedData::new(BotSettings::default(), 3000);
    let r = s.handle_debug();
    assert_eq!(r.text, "🔍 Debug logging: ON");
    assert!(r.save_settings);
    assert!(s.settings.debug);
    assert_eq!(s.handle_debug().text, "🔍 Debug logging: OFF");
    assert!(!s.settings.debug);
}

#[test]
fn allowed_tools_start_from_the_defaults() {
    let mut s = SharedData::new(BotSettings::default(), 3000);
    let r = s.handle_allowed(1, &parse_tool_ops("-bash +custom +read"));
    assert_eq!(r.text, "❌ <code>Bash</code>\n✅ <code>Custom</code>\n<code>Read</code> already in list");
    assert!(r.html && r.save_settings);
    let tools = s.settings.allowed_tools.get(&1).unwrap();
    assert_eq!(tools.len(), 17);
    assert_eq!(tools[0], "Read");
    assert_eq!(tools[16], "Custom");
    let r = s.handle_allowed(2, &parse_tool_ops("+read"));
    assert!(!r.save_settings);
    assert_eq!(s.settings.allowed_tools.get(&2).map(|t| t.len()), Some(17));
}

#[test]
fn tools_are_listed_with_their_marks() {
    let all = available_tools_text();
    assert!(all.starts_with(
        "<b>Available Tools</b>\n\n<code>Bash</code> !!! — Execute shell commands\n<code>Read</code> — Read file contents from the filesystem\n"
    ));
    assert!(all.ends_with("<code>ExitPlanMode</code> — Exit planning mode (interactive)\n\n!!! = destructive\nTotal: 20"));
    let some = allowed_tools_text(&vec!["Edit".to_string(), "My<Tool>".to_string()]);
    assert_eq!(
        some,
        "<b>Allowed Tools</b>\n\n<code>Edit</code> !!! — Perform find-and-replace edits in files\n<code>My&lt;Tool&gt;</code> — Custom tool\n\n!!! = destructive\nTotal: 2"
    );
    assert_eq!(allowed_tools_text(&vec![]), "<b>Allowed Tools</b>\n\n\n!!! = destructive\nTotal: 0");
}

#[test]
fn a_change_below_the_floor_is_refused() {
    let mut s = SharedData::new(BotSettings::default(), 3000);
    let r = s.handle_polling(PollingRequest::Change(10));
    assert_eq!(r.text, "Minimum polling time is 2500ms.");
    assert_eq!(s.polling_time_ms, 3000);
}
