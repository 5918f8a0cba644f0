//! Shell commands run straight from a conversation: what their output
//! becomes, and how the outcome is shown.

use crate::format::byte_len;
use crate::markup::{escape, escaped};
use crate::session::text_of;
use crate::text::{
    chars_of, extend, push_str, signed_decimal, signed_decimal_of, string_of, subvec, trim,
    trim_end, trimmed, trimmed_end,
};
use vstd::prelude::*;
use vstd::utf8::encode_utf8;

verus! {
/// The most bytes of output that are shown in the conversation itself;
/// longer output is sent as a file.
pub const INLINE_OUTPUT_LIMIT: usize = 4000;

/// What a running shell command reports.
pub enum ShellOutput {
    /// A line of its output.
    Line(String),
    /// It has ended.
    Done { exit_code: i32 },
    /// It could not be started.
    Error(String),
}

/// A report of a shell command, its texts as characters.
pub enum ShellOutputView {
    Line(Seq<char>),
    Done { exit_code: i32 },
    Error(Seq<char>),
}

impl View for ShellOutput {
    type V = ShellOutputView;

    open spec fn view(&self) -> ShellOutputView {
        match self {
            ShellOutput::Line(l) => ShellOutputView::Line(l@),
            ShellOutput::Done { exit_code } => ShellOutputView::Done { exit_code: *exit_code },
            ShellOutput::Error(e) => ShellOutputView::Error(e@),
        }
    }
}

/// What is known of a shell command from its reports so far.
pub struct ShellRun {
    pub full_output: String,
    pub done: bool,
    /// -1 until the command has ended.
    pub exit_code: i32,
    pub spawn_error: Option<String>,
}

/// A shell run, its texts as characters.
pub struct ShellRunView {
    pub full_output: Seq<char>,
    pub done: bool,
    pub exit_code: i32,
    pub spawn_error: Option<Seq<char>>,
}

impl View for ShellRun {
    type V = ShellRunView;

    open spec fn view(&self) -> ShellRunView {
        ShellRunView {
            full_output: self.full_output@,
            done: self.done,
            exit_code: self.exit_code,
            spawn_error: text_of(self.spawn_error),
        }
    }
}

/// The run after one more report: a line joins the output, after a line
/// feed where it is not the first.
pub open spec fn shell_absorbed(r: ShellRunView, m: ShellOutputView) -> ShellRunView {
    match m {
        ShellOutputView::Line(l) => ShellRunView {
            full_output: if r.full_output.len() > 0 {
                r.full_output.push('\n') + l
            } else {
                l
            },
            ..r
        },
        ShellOutputView::Done { exit_code } => ShellRunView { exit_code, done: true, ..r },
        ShellOutputView::Error(e) => ShellRunView { spawn_error: Some(e), done: true, ..r },
    }
}

impl ShellRun {
    /// A run of which nothing is known yet.
    pub fn new() -> (r: Self)
        ensures
            r@ == (ShellRunView {
                full_output: Seq::empty(),
                done: false,
                exit_code: -1i32,
                spawn_error: None,
            }),
    {
        ShellRun { full_output: String::new(), done: false, exit_code: -1, spawn_error: None }
    }

    /// Takes one report into the run.
    pub fn absorb(&mut self, msg: &ShellOutput)
        ensures
            final(self)@ == shell_absorbed(old(self)@, msg@),
    {
        match msg {
            ShellOutput::Line(l) => {
                let mut v = chars_of(self.full_output.as_str());
                if v.len() > 0 {
                    v.push('\n');
                }
                push_str(&mut v, l.as_str());
                self.full_output = string_of(v.as_slice());
            },
            ShellOutput::Done { exit_code } => {
                self.exit_code = *exit_code;
                self.done = true;
            },
            ShellOutput::Error(e) => {
                self.spawn_error = Some(e.clone());
                self.done = true;
            },
        }
    }

    /// Notes that the stream of reports has closed.
    pub fn close(&mut self)
        ensures
            final(self)@ == (ShellRunView { done: true, ..old(self)@ }),
    {
        self.done = true;
    }
}

/// The command that a message asks to run: what follows its first `!`,
/// without white space around it.
pub open spec fn command_text(text: Seq<char>) -> Seq<char> {
    if text.len() > 0 && text[0] == '!' {
        trim(text.skip(1))
    } else {
        Seq::<char>::empty()
    }
}

/// Reads the command that a message asks to run.
pub fn shell_command(text: &str) -> (cmd: String)
    ensures
        cmd@ == command_text(text@),
{
    let t = chars_of(text);
    if t.len() > 0 && t[0] == '!' {
        let rest = subvec(t.as_slice(), 1, t.len());
        let c = trimmed(rest.as_slice());
        string_of(c.as_slice())
    } else {
        String::new()
    }
}

/// What is shown as soon as a command has been taken.
pub open spec fn processing_view(cmd: Seq<char>) -> Seq<char> {
    "Processing <code>"@ + escaped(cmd) + "</code>"@
}

/// What is shown while a command runs.
pub open spec fn shell_progress_view(cmd: Seq<char>, indicator: Seq<char>) -> Seq<char> {
    processing_view(cmd) + "\n\n"@ + indicator
}

/// The line that says how a command ended.
pub open spec fn done_view(cmd: Seq<char>, exit_code: i32) -> Seq<char> {
    "Done <code>"@ + escaped(cmd) + "</code> (exit code: "@ + signed_decimal(exit_code as int)
        + ")"@
}

fn push_escaped(v: &mut Vec<char>, s: &str)
    ensures
        final(v)@ == old(v)@ + escaped(s@),
{
    let c = chars_of(s);
    let e = escape(c.as_slice());
    extend(v, e.as_slice());
}

/// Writes what is shown as soon as a command has been taken.
pub fn processing_text(cmd: &str) -> (s: String)
    ensures
        s@ == processing_view(cmd@),
{
    let mut v: Vec<char> = Vec::new();
    push_str(&mut v, "Processing <code>");
    push_escaped(&mut v, cmd);
    push_str(&mut v, "</code>");
    string_of(v.as_slice())
}

/// Writes what is shown while a command runs.
pub fn shell_progress_text(cmd: &str, indicator: &str) -> (s: String)
    ensures
        s@ == shell_progress_view(cmd@, indicator@),
{
    let mut v = chars_of(processing_text(cmd).as_str());
    push_str(&mut v, "\n\n");
    push_str(&mut v, indicator);
    string_of(v.as_slice())
}

fn done_text(cmd: &str, exit_code: i32) -> (v: Vec<char>)
    ensures
        v@ == done_view(cmd@, exit_code),
{
    let mut v: Vec<char> = Vec::new();
    push_str(&mut v, "Done <code>");
    push_escaped(&mut v, cmd);
    push_str(&mut v, "</code> (exit code: ");
    let d = signed_decimal_of(exit_code as i64);
    extend(&mut v, d.as_slice());
    push_str(&mut v, ")");
    v
}

/// How the outcome of a command is shown.
pub enum ShellRender {
    /// The command could not be started: the reason is shown.
    SpawnError(String),
    /// The output is shown in the conversation: as HTML, or, where the
    /// transport refuses that, as plain text.
    Short { html: String, fallback: String },
    /// The output is sent as a file, after a line that says how the command
    /// ended.
    Long { summary: String, file_content: String },
    /// There is no output: a line says how the command ended.
    NoOutput { summary: String },
}

/// The outcome of a command, its texts as characters.
pub enum ShellRenderView {
    SpawnError(Seq<char>),
    Short { html: Seq<char>, fallback: Seq<char> },
    Long { summary: Seq<char>, file_content: Seq<char> },
    NoOutput { summary: Seq<char> },
}

impl View for ShellRender {
    type V = ShellRenderView;

    open spec fn view(&self) -> ShellRenderView {
        match self {
            ShellRender::SpawnError(e) => ShellRenderView::SpawnError(e@),
            ShellRender::Short { html, fallback } => ShellRenderView::Short {
                html: html@,
                fallback: fallback@,
            },
            ShellRender::Long { summary, file_content } => ShellRenderView::Long {
                summary: summary@,
                file_content: file_content@,
            },
            ShellRender::NoOutput { summary } => ShellRenderView::NoOutput { summary: summary@ },
        }
    }
}

/// The command and its output as a file holds them.
pub open spec fn transcript_text(cmd: Seq<char>, output: Seq<char>) -> Seq<char> {
    "$ "@ + cmd + "\n\n"@ + output
}

/// How the outcome of a run is shown: output of up to 4000 bytes, with the
/// command before it, in the conversation; longer output as a file.
pub open spec fn shell_rendered(cmd: Seq<char>, r: ShellRunView) -> ShellRenderView {
    match r.spawn_error {
        Some(e) => ShellRenderView::SpawnError(e),
        None => if trim(r.full_output).len() > 0 {
            if encode_utf8(transcript_text(cmd, r.full_output)).len() <= INLINE_OUTPUT_LIMIT {
                ShellRenderView::Short {
                    html: done_view(cmd, r.exit_code) + "\n\n<pre>$ "@ + escaped(cmd) + "\n\n"@
                        + escaped(trim(r.full_output)) + "</pre>"@,
                    fallback: "Done "@ + cmd + " (exit code: "@ + signed_decimal(
                        r.exit_code as int,
                    ) + ")\n\n$ "@ + cmd + "\n\n"@ + trim(r.full_output),
                }
            } else {
                ShellRenderView::Long {
                    summary: done_view(cmd, r.exit_code),
                    file_content: transcript_text(cmd, r.full_output),
                }
            }
        } else {
            ShellRenderView::NoOutput { summary: done_view(cmd, r.exit_code) }
        },
    }
}

/// Decides how the outcome of a run is shown, and writes the texts.
pub fn render_shell(cmd: &str, run: &ShellRun) -> (r: ShellRender)
    ensures
        r@ == shell_rendered(cmd@, run@),
{
    if let Some(e) = &run.spawn_error {
        return ShellRender::SpawnError(e.clone());
    }
    let out = chars_of(run.full_output.as_str());
    let t = trimmed(out.as_slice());
    if t.len() == 0 {
        return ShellRender::NoOutput { summary: string_of(done_text(cmd, run.exit_code).as_slice()) };
    }
    let mut file: Vec<char> = Vec::new();
    push_str(&mut file, "$ ");
    push_str(&mut file, cmd);
    push_str(&mut file, "\n\n");
    extend(&mut file, out.as_slice());
    let file_content = string_of(file.as_slice());
    if byte_len(file_content.as_str()) <= INLINE_OUTPUT_LIMIT {
        let mut html = done_text(cmd, run.exit_code);
        push_str(&mut html, "\n\n<pre>$ ");
        push_escaped(&mut html, cmd);
        push_str(&mut html, "\n\n");
        let e = escape(t.as_slice());
        extend(&mut html, e.as_slice());
        push_str(&mut html, "</pre>");
        let mut plain: Vec<char> = Vec::new();
        push_str(&mut plain, "Done ");
        push_str(&mut plain, cmd);
        push_str(&mut plain, " (exit code: ");
        let d = signed_decimal_of(run.exit_code as i64);
        extend(&mut plain, d.as_slice());
        push_str(&mut plain, ")\n\n$ ");
        push_str(&mut plain, cmd);
        push_str(&mut plain, "\n\n");
        extend(&mut plain, t.as_slice());
        let r = ShellRender::Short {
            html: string_of(html.as_slice()),
            fallback: string_of(plain.as_slice()),
        };
        r
    } else {
        ShellRender::Long {
            summary: string_of(done_text(cmd, run.exit_code).as_slice()),
            file_content,
        }
    }
}

/// What a command wrote to its error stream, as one report: nothing where
/// it wrote nothing.
pub open spec fn stderr_report(stderr: Seq<char>) -> Option<Seq<char>> {
    if stderr.len() == 0 {
        None
    } else {
        Some("[stderr]\n"@ + trim_end(stderr))
    }
}

/// Makes one report of what a command wrote to its error stream.
pub fn stderr_line(stderr: &str) -> (r: Option<String>)
    ensures
        text_of(r) == stderr_report(stderr@),
{
    if stderr.is_empty() {
        return None;
    }
    let s = chars_of(stderr);
    let t = trimmed_end(s.as_slice());
    let mut v: Vec<char> = Vec::new();
    push_str(&mut v, "[stderr]\n");
    extend(&mut v, t.as_slice());
    Some(string_of(v.as_slice()))
}

} // verus!
