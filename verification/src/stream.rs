//! The events that a run of the assistant sends, and the transcript that
//! grows from them.

use crate::format::byte_len;
use crate::markup::{truncate_str, truncated};
use crate::results::{answer_of, format_cokacdir_result, result_file_wanted, shown, wants_result_file};
use crate::session::{clone_text, text_of};
use crate::text::{
    chars_of, decimal, decimal_of, extend, find_from, is_text, push_str, signed_decimal,
    signed_decimal_of, string_of, trim,
};
use crate::tools::{
    bash_text, command_of, described, detect_cokacdir_command, format_bash_command,
    format_tool_input, tool_call_of,
};
use vstd::prelude::*;
use vstd::string::StringExecFns;
use vstd::utf8::encode_utf8;

verus! {
/// An event of a run of the assistant.
pub enum StreamMessage {
    /// The run has begun, in the session named.
    Init { session_id: String },
    /// A piece of the answer.
    Text { content: String },
    /// The assistant calls a tool; `input` is JSON text.
    ToolUse { name: String, input: String },
    /// What the tool called last gave back.
    ToolResult { content: String, is_error: bool },
    /// A task in the background reports.
    TaskNotification { summary: String },
    /// The run has ended.
    Done { result: String, session_id: Option<String> },
    /// The run has failed.
    Error { message: String, stdout: String, stderr: String, exit_code: Option<i32> },
}

/// An event, its texts as characters.
pub enum MessageView {
    Init { session_id: Seq<char> },
    Text { content: Seq<char> },
    ToolUse { name: Seq<char>, input: Seq<char> },
    ToolResult { content: Seq<char>, is_error: bool },
    TaskNotification { summary: Seq<char> },
    Done { result: Seq<char>, session_id: Option<Seq<char>> },
    Error { message: Seq<char>, stdout: Seq<char>, stderr: Seq<char>, exit_code: Option<i32> },
}

impl View for StreamMessage {
    type V = MessageView;

    open spec fn view(&self) -> MessageView {
        match self {
            StreamMessage::Init { session_id } => MessageView::Init { session_id: session_id@ },
            StreamMessage::Text { content } => MessageView::Text { content: content@ },
            StreamMessage::ToolUse { name, input } => MessageView::ToolUse {
                name: name@,
                input: input@,
            },
            StreamMessage::ToolResult { content, is_error } => MessageView::ToolResult {
                content: content@,
                is_error: *is_error,
            },
            StreamMessage::TaskNotification { summary } => MessageView::TaskNotification {
                summary: summary@,
            },
            StreamMessage::Done { result, session_id } => MessageView::Done {
                result: result@,
                session_id: text_of(*session_id),
            },
            StreamMessage::Error { message, stdout, stderr, exit_code } => MessageView::Error {
                message: message@,
                stdout: stdout@,
                stderr: stderr@,
                exit_code: *exit_code,
            },
        }
    }
}

/// What is known of a run from the events received so far.
pub struct Transcript {
    /// The answer as it is shown: the assistant's text, and a note for each
    /// tool call and its result.
    pub full_response: String,
    /// The run has ended.
    pub done: bool,
    /// The run ended in an error, or without saying that it ended.
    pub had_error: bool,
    /// The assistant's session, once it is known.
    pub session_id: Option<String>,
    /// The subcommand of the file manager whose answer is awaited.
    pub pending_command: Option<String>,
    /// The tool called last.
    pub last_tool_name: String,
}

/// A transcript, its texts as characters.
pub struct TranscriptView {
    pub full_response: Seq<char>,
    pub done: bool,
    pub had_error: bool,
    pub session_id: Option<Seq<char>>,
    pub pending_command: Option<Seq<char>>,
    pub last_tool_name: Seq<char>,
}

impl View for Transcript {
    type V = TranscriptView;

    open spec fn view(&self) -> TranscriptView {
        TranscriptView {
            full_response: self.full_response@,
            done: self.done,
            had_error: self.had_error,
            session_id: text_of(self.session_id),
            pending_command: text_of(self.pending_command),
            last_tool_name: self.last_tool_name@,
        }
    }
}

/// The transcript of a run of which nothing is known yet.
pub open spec fn empty_transcript() -> TranscriptView {
    TranscriptView {
        full_response: Seq::empty(),
        done: false,
        had_error: false,
        session_id: None,
        pending_command: None,
        last_tool_name: Seq::empty(),
    }
}

/// The note that a tool call leaves in the answer: none for a call of the
/// file manager's own subcommands, whose answer is shown instead; the
/// command in a code block for a shell call; a line for any other.
pub open spec fn tool_use_note(name: Seq<char>, input: Seq<char>) -> Seq<char> {
    if command_of(name, input) is Some {
        Seq::<char>::empty()
    } else if name == "Bash"@ {
        "\n\n```\n"@ + bash_text(input) + "\n```\n"@
    } else {
        "\n\n⚙️ "@ + described(tool_call_of(name, input), name, input) + "\n"@
    }
}

/// A result, cut to `limit` bytes, in a code block where it has more than
/// one line and in a line after `mark` where it has one.
pub open spec fn boxed(content: Seq<char>, limit: int, block_head: Seq<char>, mark: Seq<char>) -> Seq<char> {
    let t = truncated(content, limit);
    if t.contains('\n') {
        block_head + t + "\n```\n"@
    } else {
        mark + t + "`\n\n"@
    }
}

/// The note that the result of a tool call leaves in the answer: an error
/// cut to 500 bytes; for a file read, its size; any other result cut to 300
/// bytes; nothing for a result without text.
pub open spec fn result_note(content: Seq<char>, is_error: bool, last_tool: Seq<char>) -> Seq<char> {
    if is_error {
        boxed(content, 500, "\n❌\n```\n"@, "\n❌ `"@)
    } else if last_tool == "Read"@ {
        "\n✅ `"@ + decimal(encode_utf8(content).len()) + " bytes`\n\n"@
    } else if content.len() > 0 {
        boxed(content, 300, "\n```\n"@, "\n✅ `"@)
    } else {
        Seq::<char>::empty()
    }
}

/// The text that is read as the answer of a subcommand: what the assistant
/// reported, or, for a schedule registered without a reported answer, what
/// the subcommand left in its file, the empty text where it left nothing.
pub open spec fn effective_text(cmd: Seq<char>, content: Seq<char>, file: Option<Seq<char>>) -> Seq<char> {
    if result_file_wanted(cmd, content) {
        match file {
            Some(f) => f,
            None => Seq::<char>::empty(),
        }
    } else {
        content
    }
}

/// The note that the answer of a subcommand leaves in the answer.
pub open spec fn command_note(cmd: Seq<char>, content: Seq<char>, file: Option<Seq<char>>) -> Seq<char> {
    let e = effective_text(cmd, content, file);
    let f = shown(cmd, content, e, answer_of(trim(e)));
    if f.len() > 0 {
        "\n"@ + f + "\n"@
    } else {
        Seq::<char>::empty()
    }
}

/// An optional output, or `(empty)` in its place.
pub open spec fn or_empty_mark(s: Seq<char>) -> Seq<char> {
    if s.len() == 0 {
        "(empty)"@
    } else {
        s
    }
}

/// The answer that stands for a failed run.
pub open spec fn error_text(
    message: Seq<char>,
    stdout: Seq<char>,
    stderr: Seq<char>,
    exit_code: Option<i32>,
) -> Seq<char> {
    "Error: "@ + message + "\n```\nexit code: "@ + (match exit_code {
        Some(c) => signed_decimal(c as int),
        None => "(unknown)"@,
    }) + "\n\n[stdout]\n"@ + or_empty_mark(stdout) + "\n\n[stderr]\n"@ + or_empty_mark(stderr)
        + "\n```"@
}

/// The transcript after one more event. `file` is what a subcommand left
/// in its file, for the one event that reads it.
pub open spec fn absorbed(t: TranscriptView, m: MessageView, file: Option<Seq<char>>) -> TranscriptView {
    match m {
        MessageView::Init { session_id } => TranscriptView { session_id: Some(session_id), ..t },
        MessageView::Text { content } => TranscriptView {
            full_response: t.full_response + content,
            ..t
        },
        MessageView::ToolUse { name, input } => TranscriptView {
            pending_command: command_of(name, input),
            last_tool_name: name,
            full_response: t.full_response + tool_use_note(name, input),
            ..t
        },
        MessageView::ToolResult { content, is_error } => match t.pending_command {
            Some(cmd) => TranscriptView {
                pending_command: None,
                full_response: t.full_response + command_note(cmd, content, file),
                ..t
            },
            None => TranscriptView {
                full_response: t.full_response + result_note(content, is_error, t.last_tool_name),
                ..t
            },
        },
        MessageView::TaskNotification { summary } => TranscriptView {
            full_response: if summary.len() > 0 {
                t.full_response + "\n[Task: "@ + summary + "]\n"@
            } else {
                t.full_response
            },
            ..t
        },
        MessageView::Done { result, session_id } => TranscriptView {
            full_response: if result.len() > 0 && t.full_response.len() == 0 {
                result
            } else {
                t.full_response
            },
            session_id: if session_id is Some {
                session_id
            } else {
                t.session_id
            },
            done: true,
            ..t
        },
        MessageView::Error { message, stdout, stderr, exit_code } => TranscriptView {
            full_response: error_text(message, stdout, stderr, exit_code),
            done: true,
            had_error: true,
            ..t
        },
    }
}

/// The transcript after the stream of events has closed: the run has
/// ended, in error where it had not said that it ended.
pub open spec fn closed(t: TranscriptView) -> TranscriptView {
    TranscriptView { had_error: t.had_error || !t.done, done: true, ..t }
}

fn box_result(content: &str, limit: usize, block_head: &str, mark: &str) -> (v: Vec<char>)
    ensures
        v@ == boxed(content@, limit as int, block_head@, mark@),
{
    let t = truncate_str(content, limit);
    let tc = chars_of(t.as_str());
    let at = find_from(tc.as_slice(), '\n', 0);
    let mut v: Vec<char> = Vec::new();
    if at < tc.len() {
        push_str(&mut v, block_head);
        extend(&mut v, tc.as_slice());
        push_str(&mut v, "\n```\n");
    } else {
        push_str(&mut v, mark);
        extend(&mut v, tc.as_slice());
        push_str(&mut v, "`\n\n");
    }
    v
}

/// Writes the note that the result of a tool call leaves in the answer.
pub fn note_result(content: &str, is_error: bool, last_tool: &str) -> (note: String)
    ensures
        note@ == result_note(content@, is_error, last_tool@),
{
    let lt = chars_of(last_tool);
    let v = if is_error {
        box_result(content, 500, "\n❌\n```\n", "\n❌ `")
    } else if is_text(lt.as_slice(), "Read") {
        let mut v: Vec<char> = Vec::new();
        push_str(&mut v, "\n✅ `");
        let n = decimal_of(byte_len(content) as u64);
        extend(&mut v, n.as_slice());
        push_str(&mut v, " bytes`\n\n");
        v
    } else if !content.is_empty() {
        box_result(content, 300, "\n```\n", "\n✅ `")
    } else {
        Vec::new()
    };
    string_of(v.as_slice())
}

/// Writes the answer that stands for a failed run.
pub fn format_error(message: &str, stdout: &str, stderr: &str, exit_code: Option<i32>) -> (s: String)
    ensures
        s@ == error_text(message@, stdout@, stderr@, exit_code),
{
    let mut v: Vec<char> = Vec::new();
    push_str(&mut v, "Error: ");
    push_str(&mut v, message);
    push_str(&mut v, "\n```\nexit code: ");
    match exit_code {
        Some(c) => {
            let d = signed_decimal_of(c as i64);
            extend(&mut v, d.as_slice());
        },
        None => push_str(&mut v, "(unknown)"),
    }
    push_str(&mut v, "\n\n[stdout]\n");
    if stdout.is_empty() {
        push_str(&mut v, "(empty)");
    } else {
        push_str(&mut v, stdout);
    }
    push_str(&mut v, "\n\n[stderr]\n");
    if stderr.is_empty() {
        push_str(&mut v, "(empty)");
    } else {
        push_str(&mut v, stderr);
    }
    push_str(&mut v, "\n```");
    string_of(v.as_slice())
}

impl Transcript {
    /// The transcript of a run of which nothing is known yet.
    pub fn new() -> (t: Self)
        ensures
            t@ == empty_transcript(),
    {
        Transcript {
            full_response: String::new(),
            done: false,
            had_error: false,
            session_id: None,
            pending_command: None,
            last_tool_name: String::new(),
        }
    }

    fn append(&mut self, more: &str)
        ensures
            final(self)@ == (TranscriptView {
                full_response: old(self)@.full_response + more@,
                ..old(self)@
            }),
    {
        let mut v = chars_of(self.full_response.as_str());
        push_str(&mut v, more);
        self.full_response = string_of(v.as_slice());
    }

    /// Whether the event is one for which the file that a subcommand left
    /// is read: the answer, reported empty, of a schedule being registered.
    pub fn needs_result_file(&self, msg: &StreamMessage) -> (r: bool)
        ensures
            r == match (self@.pending_command, msg@) {
                (Some(cmd), MessageView::ToolResult { content, is_error }) => result_file_wanted(
                    cmd,
                    content,
                ),
                _ => false,
            },
    {
        match (&self.pending_command, msg) {
            (Some(cmd), StreamMessage::ToolResult { content, is_error }) => wants_result_file(
                cmd.as_str(),
                content.as_str(),
            ),
            _ => false,
        }
    }

    /// Takes one event into the transcript. `file` is what a subcommand left
    /// in its file; it is read for no event but the one that
    /// `needs_result_file` names.
    pub fn absorb(&mut self, msg: &StreamMessage, file: Option<&str>)
        ensures
            final(self)@ == absorbed(
                old(self)@,
                msg@,
                match file {
                    Some(f) => Some(f@),
                    None => None,
                },
            ),
    {
        match msg {
            StreamMessage::Init { session_id } => {
                self.session_id = Some(session_id.clone());
            },
            StreamMessage::Text { content } => {
                self.append(content.as_str());
            },
            StreamMessage::ToolUse { name, input } => {
                let command = detect_cokacdir_command(name.as_str(), input.as_str());
                let n = chars_of(name.as_str());
                let mut note: Vec<char> = Vec::new();
                if command.is_none() {
                    if is_text(n.as_slice(), "Bash") {
                        push_str(&mut note, "\n\n```\n");
                        push_str(
                            &mut note,
                            format_bash_command(input.as_str()).as_str(),
                        );
                        push_str(&mut note, "\n```\n");
                    } else {
                        push_str(&mut note, "\n\n⚙️ ");
                        push_str(
                            &mut note,
                            format_tool_input(name.as_str(), input.as_str()).as_str(),
                        );
                        push_str(&mut note, "\n");
                    }
                }
                self.pending_command = command;
                self.last_tool_name = name.clone();
                self.append(string_of(note.as_slice()).as_str());
            },
            StreamMessage::ToolResult { content, is_error } => {
                let pending = clone_text(&self.pending_command);
                match pending {
                    Some(cmd) => {
                        let effective: String = if wants_result_file(
                            cmd.as_str(),
                            content.as_str(),
                        ) {
                            match file {
                                Some(f) => String::from_str(f),
                                None => String::new(),
                            }
                        } else {
                            content.clone()
                        };
                        let formatted = format_cokacdir_result(
                            cmd.as_str(),
                            content.as_str(),
                            effective.as_str(),
                        );
                        let mut note: Vec<char> = Vec::new();
                        if !formatted.as_str().is_empty() {
                            push_str(&mut note, "\n");
                            push_str(&mut note, formatted.as_str());
                            push_str(&mut note, "\n");
                        }
                        self.pending_command = None;
                        self.append(string_of(note.as_slice()).as_str());
                    },
                    None => {
                        let note = note_result(
                            content.as_str(),
                            *is_error,
                            self.last_tool_name.as_str(),
                        );
                        self.append(note.as_str());
                    },
                }
            },
            StreamMessage::TaskNotification { summary } => {
                if !summary.as_str().is_empty() {
                    let mut note: Vec<char> = Vec::new();
                    push_str(&mut note, "\n[Task: ");
                    push_str(&mut note, summary.as_str());
                    push_str(&mut note, "]\n");
                    let ghost before = self@.full_response;
                    self.append(string_of(note.as_slice()).as_str());
                    proof {
                        assert(self@.full_response =~= before + "\n[Task: "@ + summary@ + "]\n"@);
                    }
                }
            },
            StreamMessage::Done { result, session_id } => {
                if !result.as_str().is_empty() && self.full_response.as_str().is_empty() {
                    self.full_response = result.clone();
                }
                if session_id.is_some() {
                    self.session_id = clone_text(session_id);
                }
                self.done = true;
            },
            StreamMessage::Error { message, stdout, stderr, exit_code } => {
                self.full_response = format_error(
                    message.as_str(),
                    stdout.as_str(),
                    stderr.as_str(),
                    *exit_code,
                );
                self.done = true;
                self.had_error = true;
            },
        }
    }

    /// Notes that the stream of events has closed.
    pub fn close(&mut self)
        ensures
            final(self)@ == closed(old(self)@),
    {
        if !self.done {
            self.had_error = true;
        }
        self.done = true;
    }
}

} // verus!
