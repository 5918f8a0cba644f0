//! What the assistant's command-line program hands back, and the identifiers
//! of its sessions.

use crate::format::byte_len;
use crate::json::{is_json, json_str, json_valid, opt_view, str_member};
use crate::session::{clone_text, text_of};
use crate::text::{
    chars_of, extend, lines, push_str, split_lines, string_of, trim, trimmed, views,
};
use vstd::prelude::*;
use vstd::string::StringExecFns;

verus! {
broadcast use vstd::utf8::group_utf8_lib;

/// Outcome of one run of the assistant.
#[derive(Debug, Clone)]
pub struct ClaudeResponse {
    pub success: bool,
    pub response: Option<String>,
    pub session_id: Option<String>,
    pub error: Option<String>,
}

/// A character that a session identifier may hold: an ASCII letter or digit,
/// `_` or `-`.
pub open spec fn is_id_char(c: char) -> bool {
    ('a' <= c <= 'z') || ('A' <= c <= 'Z') || ('0' <= c <= '9') || c == '_' || c == '-'
}

/// Between 1 and 64 characters, each of them allowed in an identifier.
pub open spec fn valid_session_id(s: Seq<char>) -> bool {
    &&& 0 < s.len() <= 64
    &&& forall|i: int| 0 <= i < s.len() ==> is_id_char(#[trigger] s[i])
}

/// Whether the regular expression `pattern` is valid and, if so, whether it
/// matches somewhere in `haystack`.
pub uninterp spec fn regex_match(pattern: Seq<char>, haystack: Seq<char>) -> Option<bool>;

/// The pattern of a session identifier: one or more of `a-z`, `A-Z`, `0-9`,
/// `_`, `-`, from the beginning of the text to its end.
pub open spec fn id_pattern() -> Seq<char> {
    "^[a-zA-Z0-9_-]+$"@
}

/// `regex::Regex::new`, then `Regex::is_match`: `None` where the pattern is
/// refused, else whether it matches. For the identifier pattern, which
/// anchors a non-empty run of one character class at both ends of the text,
/// that is whether the text is not empty and holds only characters of the
/// class.
#[verifier::external_body]
fn regex_is_match(pattern: &str, haystack: &str) -> (r: Option<bool>)
    ensures
        r == regex_match(pattern@, haystack@),
        pattern@ == id_pattern() ==> r == Some(
            haystack@.len() > 0 && forall|i: int|
                0 <= i < haystack@.len() ==> is_id_char(#[trigger] haystack@[i]),
        ),
{
    match regex::Regex::new(pattern) {
        Ok(re) => Some(re.is_match(haystack)),
        Err(_) => None,
    }
}

/// Whether `session_id` may be handed to the assistant as a session to
/// resume.
pub fn is_valid_session_id(session_id: &str) -> (ok: bool)
    ensures
        ok == valid_session_id(session_id@),
{
    if session_id.is_empty() {
        return false;
    }
    let matched = match regex_is_match("^[a-zA-Z0-9_-]+$", session_id) {
        Some(m) => m,
        None => false,
    };
    proof {
        if matched {
            vstd::utf8::is_ascii_chars_encode_utf8(session_id@);
        }
    }
    byte_len(session_id) <= 64 && matched
}

/// What is read of one line of the assistant's output.
pub struct OutputLine {
    /// Whether the line is a JSON document.
    pub valid: bool,
    pub session_id: Option<String>,
    pub result: Option<String>,
    pub message: Option<String>,
    pub content: Option<String>,
}

/// A line of output, its texts as characters.
pub struct OutputLineView {
    pub valid: bool,
    pub session_id: Option<Seq<char>>,
    pub result: Option<Seq<char>>,
    pub message: Option<Seq<char>>,
    pub content: Option<Seq<char>>,
}

impl View for OutputLine {
    type V = OutputLineView;

    open spec fn view(&self) -> OutputLineView {
        OutputLineView {
            valid: self.valid,
            session_id: opt_view(self.session_id),
            result: opt_view(self.result),
            message: opt_view(self.message),
            content: opt_view(self.content),
        }
    }
}

/// What is read of the line `line`.
pub open spec fn output_line_of(line: Seq<char>) -> OutputLineView {
    OutputLineView {
        valid: json_valid(line),
        session_id: json_str(line, "session_id"@),
        result: json_str(line, "result"@),
        message: json_str(line, "message"@),
        content: json_str(line, "content"@),
    }
}

/// Reads one line of the assistant's output.
pub fn read_output_line(line: &str) -> (r: OutputLine)
    ensures
        r@ == output_line_of(line@),
{
    OutputLine {
        valid: is_json(line),
        session_id: str_member(line, "session_id"),
        result: str_member(line, "result"),
        message: str_member(line, "message"),
        content: str_member(line, "content"),
    }
}

/// The session and the answer known after one more line. A JSON line names
/// the session and replaces the answer, by its result, its message or its
/// content, whichever it has first; any other line that holds something and
/// does not begin with a brace joins the answer.
pub open spec fn after_line(
    prev: (Option<Seq<char>>, Seq<char>),
    line: Seq<char>,
    parsed: OutputLineView,
) -> (Option<Seq<char>>, Seq<char>) {
    if parsed.valid {
        (
            if parsed.session_id is Some {
                parsed.session_id
            } else {
                prev.0
            },
            match parsed.result {
                Some(r) => r,
                None => match parsed.message {
                    Some(m) => m,
                    None => match parsed.content {
                        Some(c) => c,
                        None => prev.1,
                    },
                },
            },
        )
    } else if trim(line).len() > 0 && !(line.len() > 0 && line[0] == '{') {
        (prev.0, prev.1 + line + "\n"@)
    } else {
        prev
    }
}

/// Takes one line of output into what is known of the session and the
/// answer.
pub fn fold_output_line(
    session_id: &mut Option<String>,
    answer: &mut String,
    line: &str,
    parsed: &OutputLine,
)
    ensures
        (text_of(*final(session_id)), final(answer)@) == after_line(
            (text_of(*old(session_id)), old(answer)@),
            line@,
            parsed@,
        ),
{
    if parsed.valid {
        if parsed.session_id.is_some() {
            *session_id = clone_text(&parsed.session_id);
        }
        match (&parsed.result, &parsed.message, &parsed.content) {
            (Some(r), _, _) => {
                *answer = r.clone();
            },
            (None, Some(m), _) => {
                *answer = m.clone();
            },
            (None, None, Some(c)) => {
                *answer = c.clone();
            },
            (None, None, None) => {},
        }
    } else {
        let l = chars_of(line);
        let t = trimmed(l.as_slice());
        if t.len() > 0 && !(l.len() > 0 && l[0] == '{') {
            let mut v = chars_of(answer.as_str());
            extend(&mut v, l.as_slice());
            v.push('\n');
            proof {
                assert(v@ =~= old(answer)@ + line@ + "\n"@) by {
                    reveal_strlit("\n");
                }
            }
            *answer = string_of(v.as_slice());
        }
    }
}

/// What is known after the given lines.
pub open spec fn output_scan(ls: Seq<Seq<char>>) -> (Option<Seq<char>>, Seq<char>)
    decreases ls.len(),
{
    if ls.len() == 0 {
        (None, Seq::<char>::empty())
    } else {
        after_line(output_scan(ls.drop_last()), ls.last(), output_line_of(ls.last()))
    }
}

/// The session and the answer that the assistant's output holds: what its
/// lines say, or the output itself where they say nothing; the answer
/// without white space around it.
pub open spec fn parsed_output(output: Seq<char>) -> (Option<Seq<char>>, Seq<char>) {
    let scan = output_scan(lines(trim(output)));
    (
        scan.0,
        trim(
            if scan.1.len() == 0 {
                trim(output)
            } else {
                scan.1
            },
        ),
    )
}

/// Reads the output of a run of the assistant.
pub fn parse_claude_output(output: &str) -> (r: ClaudeResponse)
    ensures
        r.success,
        r.error is None,
        text_of(r.session_id) == parsed_output(output@).0,
        text_of(r.response) == Some(parsed_output(output@).1),
{
    let o = chars_of(output);
    let t = trimmed(o.as_slice());
    let ls = split_lines(t.as_slice());
    let ghost l = lines(trim(output@));
    let mut session_id: Option<String> = None;
    let mut answer = String::new();
    let mut i: usize = 0;
    while i < ls.len()
        invariant
            i <= ls@.len(),
            views(ls@) == l,
            (text_of(session_id), answer@) == output_scan(l.take(i as int)),
        decreases ls@.len() - i,
    {
        proof {
            assert(l.take(i + 1).drop_last() =~= l.take(i as int));
        }
        let line = string_of(ls[i].as_slice());
        let parsed = read_output_line(line.as_str());
        fold_output_line(&mut session_id, &mut answer, line.as_str(), &parsed);
        i += 1;
    }
    proof {
        assert(l.take(ls@.len() as int) =~= l);
    }
    let text = if answer.as_str().is_empty() {
        t
    } else {
        chars_of(answer.as_str())
    };
    let response = trimmed(text.as_slice());
    ClaudeResponse {
        success: true,
        response: Some(string_of(response.as_slice())),
        session_id,
        error: None,
    }
}

/// What the assistant is told when it is asked from the file manager.
pub const FILE_MANAGER_PROMPT: &'static str = "You are a terminal file manager assistant. Be concise. Focus on file operations. Respond in the same language as the user.\n\nSECURITY RULES (MUST FOLLOW):\n- NEVER execute destructive commands like rm -rf, format, mkfs, dd, etc.\n- NEVER modify system files in /etc, /sys, /proc, /boot\n- NEVER access or modify files outside the current working directory without explicit user path\n- NEVER execute commands that could harm the system or compromise security\n- ONLY suggest safe file operations: copy, move, rename, create directory, view, edit\n- If a request seems dangerous, explain the risk and suggest a safer alternative\n\nIMPORTANT: Format your responses using Markdown for better readability:\n- Use **bold** for important terms or commands\n- Use `code` for file paths, commands, and technical terms\n- Use bullet lists (- item) for multiple items\n- Use numbered lists (1. item) for sequential steps\n- Use code blocks (```language) for multi-line code or command examples\n- Use headers (## Title) to organize longer responses\n- Keep formatting minimal and terminal-friendly";

/// The arguments that the assistant's program is started with for one
/// question from the file manager.
pub open spec fn command_arguments(session_id: Option<Seq<char>>) -> Seq<Seq<char>> {
    seq![
        "-p"@,
        "--dangerously-skip-permissions"@,
        "--output-format"@,
        "json"@,
        "--append-system-prompt"@,
        FILE_MANAGER_PROMPT@,
    ] + match session_id {
        Some(s) => seq!["--resume"@, s],
        None => Seq::empty(),
    }
}

/// A response that tells of a failure.
pub fn failure(error: String) -> (r: ClaudeResponse)
    ensures
        !r.success,
        r.response is None,
        r.session_id is None,
        r.error == Some(error),
{
    ClaudeResponse { success: false, response: None, session_id: None, error: Some(error) }
}

/// Builds the arguments for one question. A session that is no valid
/// identifier is refused with a response that says so.
pub fn build_arguments(session_id: Option<&str>) -> (r: Result<Vec<String>, ClaudeResponse>)
    ensures
        match r {
            Ok(args) => {
                &&& match session_id {
                    Some(s) => valid_session_id(s@),
                    None => true,
                }
                &&& crate::text::string_views(args@) == command_arguments(
                    match session_id {
                        Some(s) => Some(s@),
                        None => None,
                    },
                )
            },
            Err(e) => {
                &&& session_id matches Some(s) && !valid_session_id(s@)
                &&& !e.success
                &&& e.error matches Some(m) && m@ == "Invalid session ID format"@
            },
        },
{
    if let Some(s) = session_id {
        if !is_valid_session_id(s) {
            return Err(failure(String::from_str("Invalid session ID format")));
        }
    }
    let mut args: Vec<String> = Vec::new();
    args.push(String::from_str("-p"));
    args.push(String::from_str("--dangerously-skip-permissions"));
    args.push(String::from_str("--output-format"));
    args.push(String::from_str("json"));
    args.push(String::from_str("--append-system-prompt"));
    args.push(String::from_str(FILE_MANAGER_PROMPT));
    if let Some(s) = session_id {
        args.push(String::from_str("--resume"));
        args.push(String::from_str(s));
    }
    Ok(args)
}

/// How the code with which a process ended is written.
pub open spec fn exit_text(code: Option<i32>) -> Seq<char> {
    match code {
        Some(c) => "Some("@ + crate::text::signed_decimal(c as int) + ")"@,
        None => "None"@,
    }
}

/// The error of a run that failed: what the program wrote to its error
/// stream, or, where it wrote nothing, the code with which it ended.
pub open spec fn failure_text(stderr: Seq<char>, code: Option<i32>) -> Seq<char> {
    if stderr.len() == 0 {
        "Process exited with code "@ + exit_text(code)
    } else {
        stderr
    }
}

/// Makes the response of a run that has ended: read from its output where
/// it succeeded, a failure where it did not.
pub fn finish_command(succeeded: bool, stdout: &str, stderr: &str, code: Option<i32>) -> (r:
    ClaudeResponse)
    ensures
        r.success == succeeded,
        succeeded ==> {
            &&& r.error is None
            &&& text_of(r.session_id) == parsed_output(stdout@).0
            &&& text_of(r.response) == Some(parsed_output(stdout@).1)
        },
        !succeeded ==> {
            &&& r.response is None
            &&& r.session_id is None
            &&& text_of(r.error) == Some(failure_text(stderr@, code))
        },
{
    if succeeded {
        return parse_claude_output(stdout);
    }
    if !stderr.is_empty() {
        return failure(String::from_str(stderr));
    }
    let mut v: Vec<char> = Vec::new();
    push_str(&mut v, "Process exited with code ");
    match code {
        Some(c) => {
            push_str(&mut v, "Some(");
            extend(&mut v, crate::text::signed_decimal_of(c as i64).as_slice());
            push_str(&mut v, ")");
        },
        None => push_str(&mut v, "None"),
    }
    let text = string_of(v.as_slice());
    failure(text)
}

} // verus!
