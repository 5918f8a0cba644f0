use cokacdir::tools::{
    describe_tool_call, detect_cokacdir_command, find_subcommand, format_bash_command,
    format_tool_input, read_tool_call, show_bash, ToolCall, ToolKind,
};

#[test]
fn shell_calls_show_description_and_command() {
    assert_eq!(
        format_tool_input("Bash", r#"{"command":"ls -la","description":"List files"}"#),
        "List files: `ls -la`"
    );
    assert_eq!(format_tool_input("Bash", r#"{"command":"ls -la"}"#), "`ls -la`");
    assert_eq!(format_tool_input("Bash", r#"{}"#), "``");
    assert_eq!(
        format_bash_command(r#"{"command":"ls -la","description":"List files"}"#),
        "List files\nls -la"
    );
    assert_eq!(format_bash_command(r#"{"command":"ls"}"#), "ls");
    assert_eq!(format_bash_command("not json"), "not json");
    assert_eq!(show_bash("", "pwd"), "pwd");
    assert_eq!(show_bash("where", "pwd"), "where\npwd");
}

#[test]
fn file_tools_show_their_paths() {
    assert_eq!(format_tool_input("Read", r#"{"file_path":"/a/b.rs"}"#), "Read /a/b.rs");
    assert_eq!(
        format_tool_input("Write", r#"{"file_path":"/a/b.rs","content":"one\ntwo\nthree"}"#),
        "Write /a/b.rs (3 lines)"
    );
    assert_eq!(format_tool_input("Write", r#"{"file_path":"/a/b.rs","content":""}"#), "Write /a/b.rs");
    assert_eq!(format_tool_input("Write", r#"{"file_path":"/a/b.rs"}"#), "Write /a/b.rs");
    assert_eq!(format_tool_input("Edit", r#"{"file_path":"x","replace_all":true}"#), "Edit x (replace all)");
    assert_eq!(format_tool_input("Edit", r#"{"file_path":"x","replace_all":false}"#), "Edit x");
    assert_eq!(format_tool_input("Edit", r#"{"file_path":"x","replace_all":"yes"}"#), "Edit x");
    assert_eq!(
        format_tool_input("NotebookEdit", r#"{"notebook_path":"n.ipynb","cell_id":"c1"}"#),
        "Notebook n.ipynb (c1)"
    );
    assert_eq!(format_tool_input("NotebookEdit", r#"{"notebook_path":"n.ipynb"}"#), "Notebook n.ipynb");
}

#[test]
fn search_tools_show_their_patterns() {
    assert_eq!(format_tool_input("Glob", r#"{"pattern":"*.rs","path":"src"}"#), "Glob *.rs in src");
    assert_eq!(format_tool_input("Glob", r#"{"pattern":"*.rs"}"#), "Glob *.rs");
    assert_eq!(
        format_tool_input("Grep", r#"{"pattern":"fn","path":"src","output_mode":"count"}"#),
        "Grep \"fn\" in src (count)"
    );
    assert_eq!(format_tool_input("Grep", r#"{"pattern":"fn","path":"src"}"#), "Grep \"fn\" in src");
    assert_eq!(format_tool_input("Grep", r#"{"pattern":"fn","output_mode":"count"}"#), "Grep \"fn\"");
    assert_eq!(format_tool_input("WebSearch", r#"{"query":"rust"}"#), "Search: rust");
    assert_eq!(format_tool_input("WebFetch", r#"{"url":"https://x"}"#), "Fetch https://x");
}

#[test]
fn task_tools_show_their_tasks() {
    assert_eq!(
        format_tool_input("Task", r#"{"description":"look","subagent_type":"scout"}"#),
        "Task [scout]: look"
    );
    assert_eq!(format_tool_input("Task", r#"{"description":"look"}"#), "Task: look");
    assert_eq!(format_tool_input("TaskOutput", r#"{"task_id":"7"}"#), "Get task output: 7");
    assert_eq!(format_tool_input("TaskStop", r#"{"task_id":"7"}"#), "Stop task: 7");
    assert_eq!(format_tool_input("TaskCreate", r#"{"subject":"s"}"#), "Create task: s");
    assert_eq!(format_tool_input("TaskUpdate", r#"{"taskId":"7","status":"done"}"#), "Update task 7: done");
    assert_eq!(format_tool_input("TaskUpdate", r#"{"taskId":"7"}"#), "Update task 7");
    assert_eq!(format_tool_input("TaskGet", r#"{"taskId":"7"}"#), "Get task: 7");
    assert_eq!(format_tool_input("TaskList", "{}"), "List tasks");
    assert_eq!(format_tool_input("Skill", r#"{"skill":"pdf"}"#), "Skill: pdf");
    assert_eq!(format_tool_input("ExitPlanMode", "{}"), "Exit plan mode");
    assert_eq!(format_tool_input("EnterPlanMode", "{}"), "Enter plan mode");
}

#[test]
fn todo_lists_are_counted() {
    let input = r#"{"todos":[{"status":"pending"},{"status":"completed"},{"status":"pending"},
        {"status":"in_progress"},{"status":"other"},{"nothing":1},"text"]}"#;
    assert_eq!(format_tool_input("TodoWrite", input), "Todo: 2 pending, 1 in progress, 1 completed");
    assert_eq!(format_tool_input("TodoWrite", r#"{"todos":[]}"#), "Todo: 0 pending, 0 in progress, 0 completed");
    assert_eq!(format_tool_input("TodoWrite", r#"{"todos":"none"}"#), "Update todos");
    assert_eq!(format_tool_input("TodoWrite", "{}"), "Update todos");
}

#[test]
fn questions_show_the_first() {
    assert_eq!(
        format_tool_input("AskUserQuestion", r#"{"questions":[{"question":"Why?"},{"question":"How?"}]}"#),
        "Why?"
    );
    assert_eq!(format_tool_input("AskUserQuestion", r#"{"questions":[{"other":1}]}"#), "");
    assert_eq!(format_tool_input("AskUserQuestion", r#"{"questions":[]}"#), "Ask user question");
    assert_eq!(format_tool_input("AskUserQuestion", "{}"), "Ask user question");
}

#[test]
fn other_tools_show_name_and_input() {
    assert_eq!(format_tool_input("Custom", r#"{"a":1}"#), "Custom {\"a\":1}");
    assert_eq!(format_tool_input("Read", "not json"), "Read not json");
    assert_eq!(format_tool_input("bash", r#"{"command":"ls"}"#), "bash {\"command\":\"ls\"}");
}

#[test]
fn reading_and_describing_are_separate() {
    let call = read_tool_call("Glob", r#"{"pattern":"*.rs","path":"src"}"#);
    assert_eq!(call.kind, ToolKind::Glob);
    assert_eq!(call.first, "*.rs");
    assert_eq!(call.second, "src");
    assert_eq!(call.third, "");
    let made = ToolCall {
        kind: ToolKind::Grep,
        first: "x".to_string(),
        second: "dir".to_string(),
        third: "files".to_string(),
        flag: false,
        counts: (0, 0, 0),
    };
    assert_eq!(describe_tool_call(&made, "Grep", "ignored"), "Grep \"x\" in dir (files)");
    let todo = ToolCall {
        kind: ToolKind::TodoWrite,
        first: String::new(),
        second: String::new(),
        third: String::new(),
        flag: true,
        counts: (3, 10, 200),
    };
    assert_eq!(describe_tool_call(&todo, "TodoWrite", ""), "Todo: 3 pending, 10 in progress, 200 completed");
}

#[test]
fn own_subcommands_are_recognized() {
    assert_eq!(
        detect_cokacdir_command("Bash", r#"{"command":"cokacdir --cron \"x\" --at 1h"}"#),
        Some("cron".to_string())
    );
    assert_eq!(
        detect_cokacdir_command("Bash", r#"{"command":"  cokacdir --currenttime"}"#),
        Some("currenttime".to_string())
    );
    assert_eq!(
        detect_cokacdir_command("Bash", r#"{"command":"cokacdir file --sendfile /a"}"#),
        Some("sendfile".to_string())
    );
    assert_eq!(detect_cokacdir_command("Bash", r#"{"command":"cokacdir"}"#), Some("unknown".to_string()));
    assert_eq!(detect_cokacdir_command("Bash", r#"{"command":"cokacdir --"}"#), Some("".to_string()));
    assert_eq!(detect_cokacdir_command("Bash", r#"{"command":"ls cokacdir --x"}"#), None);
    assert_eq!(detect_cokacdir_command("Bash", r#"{"description":"d"}"#), None);
    assert_eq!(detect_cokacdir_command("Bash", "cokacdir --cron"), None);
    assert_eq!(detect_cokacdir_command("Read", r#"{"command":"cokacdir --cron"}"#), None);
    assert_eq!(find_subcommand("cokacdirx --list"), Some("list".to_string()));
    assert_eq!(find_subcommand("\tcokacdir -x --cron-list --chat 1"), Some("cron-list".to_string()));
}
