use cokacdir::settings::{
    all_tools, apply_tool_ops, build_disabled_notice, default_allowed_tools, find_name,
    get_allowed_tools, get_model, normalize_tool_name, parse_tool_ops, resolve_model_name,
    risk_badge, tool_info, BotSettings, ToolOp,
};

fn names(v: &[&str]) -> Vec<String> {
    v.iter().map(|s| s.to_string()).collect()
}

#[test]
fn defaults_leave_out_the_interactive_tools() {
    let all = all_tools();
    assert_eq!(all.len(), 20);
    assert_eq!(all[0].name, "Bash");
    assert!(all[0].destructive);
    let d = default_allowed_tools();
    assert_eq!(d.len(), 17);
    assert_eq!(d[0], "Bash");
    assert_eq!(d[16], "TaskList");
    assert!(!d.contains(&"AskUserQuestion".to_string()));
    let s = BotSettings::default();
    assert_eq!(get_allowed_tools(&s, 1), d);
    assert_eq!(get_model(&s, 1), None);
    assert!(s.owner_user_id.is_none());
    assert!(!s.debug);
}

#[test]
fn conversations_keep_their_own_choices() {
    let mut s = BotSettings::default();
    s.allowed_tools.insert(1, names(&["Read"]));
    s.models.insert(1, "opus".to_string());
    assert_eq!(get_allowed_tools(&s, 1), names(&["Read"]));
    assert_eq!(get_allowed_tools(&s, 2).len(), 17);
    assert_eq!(get_model(&s, 1), Some("opus".to_string()));
    assert_eq!(get_model(&s, 2), None);
}

#[test]
fn tool_names_are_capitalized() {
    assert_eq!(normalize_tool_name("bash"), "Bash");
    assert_eq!(normalize_tool_name("BASH"), "Bash");
    assert_eq!(normalize_tool_name("webFetch"), "Webfetch");
    assert_eq!(normalize_tool_name(""), "");
    assert_eq!(normalize_tool_name("ßx"), "SSx");
    assert_eq!(normalize_tool_name("éCOLE"), "École");
}

#[test]
fn tools_are_described() {
    assert_eq!(tool_info("Bash"), ("Execute shell commands", true));
    assert_eq!(tool_info("Read"), ("Read file contents from the filesystem", false));
    assert_eq!(tool_info("ExitPlanMode"), ("Exit planning mode (interactive)", false));
    assert_eq!(tool_info("bash"), ("Custom tool", false));
    assert_eq!(tool_info(""), ("Custom tool", false));
    assert_eq!(risk_badge(true), "!!!");
    assert_eq!(risk_badge(false), "");
}

#[test]
fn models_are_taken_by_their_exact_name() {
    assert_eq!(resolve_model_name("sonnet"), Some("sonnet".to_string()));
    assert_eq!(resolve_model_name("opus[1m]"), Some("opus[1m]".to_string()));
    assert_eq!(resolve_model_name("haiku[1m]"), Some("haiku[1m]".to_string()));
    assert_eq!(resolve_model_name("Sonnet"), None);
    assert_eq!(resolve_model_name("gpt"), None);
    assert_eq!(resolve_model_name(""), None);
}

#[test]
fn changes_are_read_from_signed_words() {
    let ops = parse_tool_ops("+bash -EDIT  +  - x +webfetch");
    assert_eq!(ops.len(), 3);
    assert!(matches!(&ops[0], ToolOp::Add(n) if n == "Bash"));
    assert!(matches!(&ops[1], ToolOp::Remove(n) if n == "Edit"));
    assert!(matches!(&ops[2], ToolOp::Add(n) if n == "Webfetch"));
    assert!(parse_tool_ops("bash edit").is_empty());
    assert!(parse_tool_ops("").is_empty());
}

#[test]
fn changes_are_made_in_order_and_reported() {
    let mut tools = names(&["Bash", "Read", "Bash"]);
    let ops = vec![
        ToolOp::Add("Read".to_string()),
        ToolOp::Add("A<b".to_string()),
        ToolOp::Remove("Bash".to_string()),
        ToolOp::Remove("Bash".to_string()),
        ToolOp::Add("Bash".to_string()),
    ];
    let (report, changed) = apply_tool_ops(&mut tools, &ops);
    assert!(changed);
    assert_eq!(tools, names(&["Read", "A<b", "Bash"]));
    assert_eq!(
        report,
        "<code>Read</code> already in list\n✅ <code>A&lt;b</code>\n❌ <code>Bash</code>\n<code>Bash</code> not in list\n✅ <code>Bash</code>"
    );
    let mut same = names(&["Read"]);
    let (report, changed) = apply_tool_ops(&mut same, &vec![ToolOp::Add("Read".to_string()), ToolOp::Remove("X".to_string())]);
    assert!(!changed);
    assert_eq!(same, names(&["Read"]));
    assert_eq!(report, "<code>Read</code> already in list\n<code>X</code> not in list");
    let (report, changed) = apply_tool_ops(&mut same, &vec![]);
    assert!(!changed);
    assert_eq!(report, "");
    assert_eq!(find_name(&names(&["a", "b", "a"]), "a"), 0);
    assert_eq!(find_name(&names(&["a", "b", "a"]), "c"), 3);
}

#[test]
fn disabled_tools_are_named_in_their_listed_order() {
    assert_eq!(build_disabled_notice(&default_allowed_tools()), "");
    let mut some = default_allowed_tools();
    some.retain(|t| t != "Write" && t != "Bash");
    some.push("Extra".to_string());
    let notice = build_disabled_notice(&some);
    assert!(notice.starts_with(
        "\n\nDISABLED TOOLS: The following tools have been disabled by the user: Bash, Write.\nYou MUST NOT"
    ));
    assert!(notice.ends_with("Suggest they re-enable it with: /allowed +ToolName"));
}
