use cokacdir::agent::{build_stream_arguments, parse_stream_line, read_part};
use cokacdir::claude::{build_arguments, failure, finish_command, FILE_MANAGER_PROMPT};
use cokacdir::stream::StreamMessage;

#[test]
fn empty_and_broken_lines() {
    assert!(parse_stream_line("").is_empty());
    assert!(parse_stream_line("   ").is_empty());
    let e = parse_stream_line("oops");
    assert_eq!(e.len(), 1);
    match &e[0] {
        StreamMessage::Error { message, stdout, stderr, exit_code } => {
            assert_eq!(message, "Failed to parse output line");
            assert_eq!(stdout, "oops");
            assert_eq!(stderr, "");
            assert_eq!(*exit_code, None);
        }
        _ => panic!("an error"),
    }
    assert!(parse_stream_line("{}").is_empty());
    assert!(parse_stream_line(r#"{"type":"other"}"#).is_empty());
    assert!(parse_stream_line(r#"[1,2]"#).is_empty());
}

#[test]
fn system_lines_begin_the_run() {
    let e = parse_stream_line(r#"{"type":"system","subtype":"init","session_id":"abc"}"#);
    assert!(matches!(&e[..], [StreamMessage::Init { session_id }] if session_id == "abc"));
    assert!(parse_stream_line(r#"{"type":"system","subtype":"init"}"#).is_empty());
    assert!(parse_stream_line(r#"{"type":"system","subtype":"hook"}"#).is_empty());
    let n = parse_stream_line(r#"{"type":"system","subtype":"task_notification","summary":"built"}"#);
    assert!(matches!(&n[..], [StreamMessage::TaskNotification { summary }] if summary == "built"));
}

#[test]
fn messages_carry_text_calls_and_results() {
    let line = r#"{"type":"assistant","message":{"content":[
        {"type":"text","text":"Hello"},
        {"type":"thinking","thinking":"hm"},
        {"type":"tool_use","name":"Bash","input":{"command":"ls"}},
        {"type":"tool_use","name":"Plain"}
    ]}}"#;
    let line = line.replace('\n', " ");
    let e = parse_stream_line(&line);
    assert_eq!(e.len(), 3);
    assert!(matches!(&e[0], StreamMessage::Text { content } if content == "Hello"));
    assert!(matches!(&e[1], StreamMessage::ToolUse { name, input } if name == "Bash" && input == r#"{"command":"ls"}"#));
    assert!(matches!(&e[2], StreamMessage::ToolUse { name, input } if name == "Plain" && input == "{}"));
    let user = r#"{"type":"user","message":{"content":[{"type":"tool_result","content":"out","is_error":true},{"type":"tool_result","content":[{"type":"text","text":"t"}]},{"type":"tool_result"}]}}"#;
    let r = parse_stream_line(user);
    assert_eq!(r.len(), 3);
    assert!(matches!(&r[0], StreamMessage::ToolResult { content, is_error } if content == "out" && *is_error));
    assert!(matches!(&r[1], StreamMessage::ToolResult { content, is_error } if content == r#"[{"text":"t","type":"text"}]"# && !*is_error));
    assert!(matches!(&r[2], StreamMessage::ToolResult { content, is_error } if content.is_empty() && !*is_error));
    assert!(parse_stream_line(r#"{"type":"assistant"}"#).is_empty());
    assert!(parse_stream_line(r#"{"type":"assistant","message":{"content":"text"}}"#).is_empty());
    assert!(read_part(r#"{"type":"image"}"#).is_none());
    assert!(matches!(read_part(r#"{"type":"text"}"#), Some(StreamMessage::Text { content }) if content.is_empty()));
}

#[test]
fn result_lines_end_the_run() {
    let d = parse_stream_line(r#"{"type":"result","subtype":"success","result":"done","session_id":"s9"}"#);
    assert!(matches!(&d[..], [StreamMessage::Done { result, session_id }] if result == "done" && session_id.as_deref() == Some("s9")));
    let bare = parse_stream_line(r#"{"type":"result"}"#);
    assert!(matches!(&bare[..], [StreamMessage::Done { result, session_id }] if result.is_empty() && session_id.is_none()));
    let e = parse_stream_line(r#"{"type":"result","is_error":true,"result":"limit reached"}"#);
    assert!(matches!(&e[..], [StreamMessage::Error { message, .. }] if message == "limit reached"));
    let u = parse_stream_line(r#"{"type":"result","is_error":true}"#);
    assert!(matches!(&u[..], [StreamMessage::Error { message, .. }] if message == "Unknown error"));
}

#[test]
fn streaming_runs_are_started_with_their_options() {
    let tools = vec!["Bash".to_string(), "Read".to_string()];
    let all = build_stream_arguments(Some("sid-1"), Some("be brief"), Some(&tools), Some("opus")).unwrap();
    assert_eq!(
        all,
        vec![
            "-p", "--output-format", "stream-json", "--verbose", "--dangerously-skip-permissions",
            "--append-system-prompt", "be brief", "--allowedTools", "Bash,Read", "--model", "opus",
            "--resume", "sid-1",
        ]
    );
    let bare = build_stream_arguments(None, None, None, None).unwrap();
    assert_eq!(bare, vec!["-p", "--output-format", "stream-json", "--verbose", "--dangerously-skip-permissions"]);
    let none = build_stream_arguments(None, None, Some(&vec![]), None).unwrap();
    assert_eq!(none[5..], ["--allowedTools".to_string(), String::new()]);
    assert_eq!(
        build_stream_arguments(Some("bad id"), None, None, None),
        Err("Invalid session ID format".to_string())
    );
    assert!(build_stream_arguments(Some(""), None, None, None).is_err());
}

#[test]
fn questions_are_asked_with_fixed_options() {
    let args = build_arguments(None).unwrap();
    assert_eq!(args.len(), 6);
    assert_eq!(args[..5], ["-p", "--dangerously-skip-permissions", "--output-format", "json", "--append-system-prompt"]);
    assert_eq!(args[5], FILE_MANAGER_PROMPT);
    assert!(args[5].starts_with("You are a terminal file manager assistant. Be concise."));
    assert!(args[5].contains("\n\nSECURITY RULES (MUST FOLLOW):\n- NEVER execute destructive commands"));
    assert!(args[5].ends_with("- Keep formatting minimal and terminal-friendly"));
    let resumed = build_arguments(Some("abc_1")).unwrap();
    assert_eq!(resumed[6..], ["--resume", "abc_1"]);
    let refused = build_arguments(Some("a b")).unwrap_err();
    assert!(!refused.success);
    assert_eq!(refused.error, Some("Invalid session ID format".to_string()));
    assert!(refused.response.is_none());
}

#[test]
fn finished_runs_become_responses() {
    let ok = finish_command(true, r#"{"session_id":"s","result":" hi "}"#, "ignored", Some(0));
    assert!(ok.success);
    assert_eq!(ok.response, Some("hi".to_string()));
    assert_eq!(ok.session_id, Some("s".to_string()));
    assert!(ok.error.is_none());
    let err = finish_command(false, "out", "it broke", Some(2));
    assert!(!err.success);
    assert_eq!(err.error, Some("it broke".to_string()));
    assert!(err.response.is_none());
    assert_eq!(finish_command(false, "", "", Some(-9)).error, Some("Process exited with code Some(-9)".to_string()));
    assert_eq!(finish_command(false, "", "", None).error, Some("Process exited with code None".to_string()));
    let f = failure("x".to_string());
    assert!(!f.success && f.session_id.is_none());
}
