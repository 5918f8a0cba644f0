//! The bridge to the assistant's program: the arguments it is started
//! with, and the events that the lines of its output stand for.

use crate::claude::{is_valid_session_id, valid_session_id};
use crate::json::{
    array_item_json, array_len, bool_member, is_json, json_array_item, json_array_len, json_bool,
    json_member, json_str, json_valid, member_json, str_member,
};
use crate::stream::{MessageView, StreamMessage};
use crate::text::{chars_of, join, join_with, string_of, string_views, trim, trimmed, views};
use crate::tools::{member, member_or_empty};
use vstd::prelude::*;
use vstd::string::StringExecFns;

verus! {
/// What is said of a line of output that is no JSON document.
pub const PARSE_FAILURE: &'static str = "Failed to parse output line";

/// What is said of a failed run that gives no reason.
pub const UNKNOWN_ERROR: &'static str = "Unknown error";

/// What is said of a session that cannot be resumed.
pub const INVALID_SESSION: &'static str = "Invalid session ID format";

/// The views of a list of events.
pub open spec fn message_views(m: Seq<StreamMessage>) -> Seq<MessageView> {
    m.map_values(|x: StreamMessage| x@)
}

/// The event that one part of a message stands for, if any: a piece of
/// text, the call of a tool with its input as JSON text, or the result of
/// a call, as text where it is a string and as JSON text where it is not.
pub open spec fn part_event(part: Seq<char>) -> Option<MessageView> {
    let kind = member_or_empty(part, "type"@);
    if kind == "text"@ {
        Some(MessageView::Text { content: member_or_empty(part, "text"@) })
    } else if kind == "tool_use"@ {
        Some(
            MessageView::ToolUse {
                name: member_or_empty(part, "name"@),
                input: match json_member(part, "input"@) {
                    Some(i) => i,
                    None => "{}"@,
                },
            },
        )
    } else if kind == "tool_result"@ {
        Some(
            MessageView::ToolResult {
                content: match json_str(part, "content"@) {
                    Some(s) => s,
                    None => match json_member(part, "content"@) {
                        Some(c) => c,
                        None => Seq::<char>::empty(),
                    },
                },
                is_error: json_bool(part, "is_error"@) == Some(true),
            },
        )
    } else {
        None
    }
}

/// The events of the first `n` parts of a message.
pub open spec fn part_events(message: Seq<char>, n: nat) -> Seq<MessageView>
    decreases n,
{
    if n == 0 {
        Seq::empty()
    } else {
        let before = part_events(message, (n - 1) as nat);
        match json_array_item(message, "content"@, (n - 1) as usize) {
            Some(part) => match part_event(part) {
                Some(e) => before.push(e),
                None => before,
            },
            None => before,
        }
    }
}

/// The events of the message that a line carries.
pub open spec fn message_events(line: Seq<char>) -> Seq<MessageView> {
    match json_member(line, "message"@) {
        Some(message) => match json_array_len(message, "content"@) {
            Some(n) => part_events(message, n as nat),
            None => Seq::empty(),
        },
        None => Seq::empty(),
    }
}

/// The events that one line of the assistant's output stands for. Each
/// line is read by itself: an empty line stands for nothing, a line that
/// is no JSON document for an error, and a document for the events of its
/// type.
pub open spec fn line_events(line: Seq<char>) -> Seq<MessageView> {
    let kind = member_or_empty(line, "type"@);
    let subtype = member_or_empty(line, "subtype"@);
    if trim(line).len() == 0 {
        Seq::empty()
    } else if !json_valid(line) {
        seq![
            MessageView::Error {
                message: PARSE_FAILURE@,
                stdout: line,
                stderr: Seq::empty(),
                exit_code: None,
            },
        ]
    } else if kind == "system"@ {
        if subtype == "init"@ {
            match json_str(line, "session_id"@) {
                Some(sid) => seq![MessageView::Init { session_id: sid }],
                None => Seq::empty(),
            }
        } else if subtype == "task_notification"@ {
            seq![MessageView::TaskNotification { summary: member_or_empty(line, "summary"@) }]
        } else {
            Seq::empty()
        }
    } else if kind == "assistant"@ || kind == "user"@ {
        message_events(line)
    } else if kind == "result"@ {
        if json_bool(line, "is_error"@) == Some(true) {
            seq![
                MessageView::Error {
                    message: match json_str(line, "result"@) {
                        Some(r) => r,
                        None => UNKNOWN_ERROR@,
                    },
                    stdout: Seq::empty(),
                    stderr: Seq::empty(),
                    exit_code: None,
                },
            ]
        } else {
            seq![
                MessageView::Done {
                    result: member_or_empty(line, "result"@),
                    session_id: json_str(line, "session_id"@),
                },
            ]
        }
    } else {
        Seq::empty()
    }
}

/// Reads the event that one part of a message stands for.
pub fn read_part(part: &str) -> (r: Option<StreamMessage>)
    ensures
        match r {
            Some(e) => part_event(part@) == Some(e@),
            None => part_event(part@).is_none(),
        },
{
    let kind = member(part, "type");
    let k = chars_of(kind.as_str());
    if crate::text::is_text(k.as_slice(), "text") {
        Some(StreamMessage::Text { content: member(part, "text") })
    } else if crate::text::is_text(k.as_slice(), "tool_use") {
        let input = match member_json(part, "input") {
            Some(i) => i,
            None => String::from_str("{}"),
        };
        Some(StreamMessage::ToolUse { name: member(part, "name"), input })
    } else if crate::text::is_text(k.as_slice(), "tool_result") {
        let content = match str_member(part, "content") {
            Some(s) => s,
            None => match member_json(part, "content") {
                Some(c) => c,
                None => String::new(),
            },
        };
        let is_error = match bool_member(part, "is_error") {
            Some(b) => b,
            None => false,
        };
        Some(StreamMessage::ToolResult { content, is_error })
    } else {
        None
    }
}

fn read_message(line: &str) -> (r: Vec<StreamMessage>)
    ensures
        message_views(r@) == message_events(line@),
{
    let mut out: Vec<StreamMessage> = Vec::new();
    let message = match member_json(line, "message") {
        Some(m) => m,
        None => {
            return out;
        },
    };
    let n = match array_len(message.as_str(), "content") {
        Some(n) => n,
        None => {
            return out;
        },
    };
    let mut i: usize = 0;
    while i < n
        invariant
            i <= n,
            message_views(out@) == part_events(message@, i as nat),
        decreases n - i,
    {
        match array_item_json(message.as_str(), "content", i) {
            Some(part) => match read_part(part.as_str()) {
                Some(e) => {
                    out.push(e);
                },
                None => {},
            },
            None => {},
        }
        i += 1;
    }
    out
}

fn one(e: StreamMessage) -> (r: Vec<StreamMessage>)
    ensures
        message_views(r@) == seq![e@],
{
    let mut out: Vec<StreamMessage> = Vec::new();
    out.push(e);
    out
}

fn none() -> (r: Vec<StreamMessage>)
    ensures
        message_views(r@) == Seq::<MessageView>::empty(),
{
    let out: Vec<StreamMessage> = Vec::new();
    out
}

/// Reads the events that one line of the assistant's output stands for.
pub fn parse_stream_line(line: &str) -> (r: Vec<StreamMessage>)
    ensures
        message_views(r@) == line_events(line@),
{
    let l = chars_of(line);
    if trimmed(l.as_slice()).len() == 0 {
        return none();
    }
    if !is_json(line) {
        return one(
            StreamMessage::Error {
                message: String::from_str(PARSE_FAILURE),
                stdout: String::from_str(line),
                stderr: String::new(),
                exit_code: None,
            },
        );
    }
    let kind = member(line, "type");
    let k = chars_of(kind.as_str());
    let k = k.as_slice();
    let subtype = member(line, "subtype");
    let st = chars_of(subtype.as_str());
    if crate::text::is_text(k, "system") {
        if crate::text::is_text(st.as_slice(), "init") {
            match str_member(line, "session_id") {
                Some(sid) => one(StreamMessage::Init { session_id: sid }),
                None => none(),
            }
        } else if crate::text::is_text(st.as_slice(), "task_notification") {
            one(StreamMessage::TaskNotification { summary: member(line, "summary") })
        } else {
            none()
        }
    } else if crate::text::is_text(k, "assistant") || crate::text::is_text(k, "user") {
        read_message(line)
    } else if crate::text::is_text(k, "result") {
        let failed = match bool_member(line, "is_error") {
            Some(b) => b,
            None => false,
        };
        if failed {
            let message = match str_member(line, "result") {
                Some(r) => r,
                None => String::from_str(UNKNOWN_ERROR),
            };
            one(
                StreamMessage::Error {
                    message,
                    stdout: String::new(),
                    stderr: String::new(),
                    exit_code: None,
                },
            )
        } else {
            one(
                StreamMessage::Done {
                    result: member(line, "result"),
                    session_id: str_member(line, "session_id"),
                },
            )
        }
    } else {
        none()
    }
}

/// The arguments that the assistant's program is started with for a run
/// whose events are to be read line by line.
pub open spec fn stream_arguments(
    session_id: Option<Seq<char>>,
    system_prompt: Option<Seq<char>>,
    allowed_tools: Option<Seq<Seq<char>>>,
    model: Option<Seq<char>>,
) -> Seq<Seq<char>> {
    seq!["-p"@, "--output-format"@, "stream-json"@, "--verbose"@, "--dangerously-skip-permissions"@]
        + (match system_prompt {
        Some(p) => seq!["--append-system-prompt"@, p],
        None => Seq::empty(),
    }) + (match allowed_tools {
        Some(t) => seq!["--allowedTools"@, join(t, ","@)],
        None => Seq::empty(),
    }) + (match model {
        Some(m) => seq!["--model"@, m],
        None => Seq::empty(),
    }) + (match session_id {
        Some(s) => seq!["--resume"@, s],
        None => Seq::empty(),
    })
}

fn push_arg(args: &mut Vec<String>, a: &str)
    ensures
        string_views(final(args)@) == string_views(old(args)@).push(a@),
{
    args.push(String::from_str(a));
}

/// Builds the arguments of a run that is read line by line. A session that
/// is no valid identifier is refused, and nothing is started.
pub fn build_stream_arguments(
    session_id: Option<&str>,
    system_prompt: Option<&str>,
    allowed_tools: Option<&Vec<String>>,
    model: Option<&str>,
) -> (r: Result<Vec<String>, String>)
    ensures
        match r {
            Ok(args) => {
                &&& match session_id {
                    Some(s) => valid_session_id(s@),
                    None => true,
                }
                &&& string_views(args@) == stream_arguments(
                    match session_id {
                        Some(s) => Some(s@),
                        None => None,
                    },
                    match system_prompt {
                        Some(s) => Some(s@),
                        None => None,
                    },
                    match allowed_tools {
                        Some(t) => Some(string_views(t@)),
                        None => None,
                    },
                    match model {
                        Some(s) => Some(s@),
                        None => None,
                    },
                )
            },
            Err(e) => e@ == INVALID_SESSION@ && (session_id matches Some(s) && !valid_session_id(s@)),
        },
{
    if let Some(s) = session_id {
        if !is_valid_session_id(s) {
            return Err(String::from_str(INVALID_SESSION));
        }
    }
    let mut args: Vec<String> = Vec::new();
    push_arg(&mut args, "-p");
    push_arg(&mut args, "--output-format");
    push_arg(&mut args, "stream-json");
    push_arg(&mut args, "--verbose");
    push_arg(&mut args, "--dangerously-skip-permissions");
    if let Some(p) = system_prompt {
        push_arg(&mut args, "--append-system-prompt");
        push_arg(&mut args, p);
    }
    if let Some(t) = allowed_tools {
        let mut parts: Vec<Vec<char>> = Vec::new();
        let ghost tv = string_views(t@);
        let mut i: usize = 0;
        while i < t.len()
            invariant
                i <= t@.len(),
                tv == string_views(t@),
                views(parts@) == tv.take(i as int),
            decreases t@.len() - i,
        {
            parts.push(chars_of(t[i].as_str()));
            proof {
                assert(tv.take(i + 1) =~= tv.take(i as int).push(t@[i as int]@));
            }
            i += 1;
        }
        proof {
            assert(tv.take(t@.len() as int) =~= tv);
        }
        let list = join_with(&parts, ",");
        push_arg(&mut args, "--allowedTools");
        push_arg(&mut args, string_of(list.as_slice()).as_str());
    }
    if let Some(m) = model {
        push_arg(&mut args, "--model");
        push_arg(&mut args, m);
    }
    if let Some(s) = session_id {
        push_arg(&mut args, "--resume");
        push_arg(&mut args, s);
    }
    Ok(args)
}

} // verus!
